use hmac::Mac;
use sha2::Digest;
use tpm2_client::algo::AlgoSha256;
use tpm2_client::auth_area::AuthorizationArea;
use tpm2_client::errors::{TssError, TssTcsError};
use tpm2_client::marshal::Marshalable;
use tpm2_client::object::{LoadExternalCmd, LoadExternalResp};
use tpm2_client::session::{HmacSession, Session};
use tpm2_client::structures::TpmsAuthResponse;
use tpm2_client::tpm2b::{Tpm2bDigest, Tpm2bName, Tpm2bPublic, Tpm2bSensitive};
use tpm2_client::types::{TpmaSession, TpmiRhHierarchy, TpmiShAuthSession};

fn hmac_ref(key: &[u8], msg: &[u8]) -> Vec<u8> {
    let mut m = <hmac::Hmac<sha2::Sha256> as Mac>::new_from_slice(key).unwrap();
    m.update(msg);
    m.finalize().into_bytes().to_vec()
}

fn sample_cmd() -> LoadExternalCmd {
    LoadExternalCmd {
        in_private: Tpm2bSensitive::from_bytes(&[]).unwrap(),
        in_public: Tpm2bPublic::from_bytes(&[0xaa, 0xbb]).unwrap(),
        hierarchy: TpmiRhHierarchy(0x4000_0001),
    }
}

fn sample_session() -> HmacSession<AlgoSha256> {
    HmacSession::<AlgoSha256>::new(
        Vec::new(),
        TpmiShAuthSession(0x0200_0000),
        TpmaSession(TpmaSession::CONTINUE_SESSION),
        Some(vec![0x11; 32]),
        Tpm2bDigest::from_bytes(&[0x22; 32]).unwrap(),
    )
}

fn cp_hash_ref(cmd: &LoadExternalCmd) -> Vec<u8> {
    let mut msg = vec![0, 0, 0x01, 0x67];
    cmd.marshal(&mut msg);
    sha2::Sha256::digest(&msg).to_vec()
}

fn rp_hash_ref(resp: &LoadExternalResp) -> Vec<u8> {
    let mut msg = vec![0, 0, 0, 0, 0, 0, 0x01, 0x67];
    resp.marshal(&mut msg);
    sha2::Sha256::digest(&msg).to_vec()
}

#[test]
fn auth_command_with_given_nonce() {
    let mut session = sample_session();
    let cmd = sample_cmd();
    let mut buf = [0u8; 256];
    let random = [0x33u8; 32];
    let auth = session.auth_command_with_nonce(&cmd, &(), &mut buf, &random);
    assert_eq!(auth.session_handle, TpmiShAuthSession(0x0200_0000));
    assert_eq!(auth.nonce.get_buffer(), &[0x33; 32]);
    assert_eq!(auth.session_attributes, TpmaSession(1));
    let mut msg = cp_hash_ref(&cmd);
    msg.extend_from_slice(&[0x33; 32]);
    msg.extend_from_slice(&[0x22; 32]);
    msg.push(1);
    assert_eq!(auth.hmac.get_buffer(), hmac_ref(&[0x11; 32], &msg).as_slice());
}

#[test]
fn get_auth_command_renews_the_nonce() {
    let mut session = sample_session();
    let cmd = sample_cmd();
    let mut buf = [0u8; 256];
    let first = session.get_auth_command(&cmd, &(), &mut buf);
    let second = session.get_auth_command(&cmd, &(), &mut buf);
    assert_eq!(first.nonce.get_size(), 32);
    assert_eq!(second.nonce.get_size(), 32);
    assert_ne!(first.nonce.get_buffer(), second.nonce.get_buffer());
    let mut msg = cp_hash_ref(&cmd);
    msg.extend_from_slice(second.nonce.get_buffer());
    msg.extend_from_slice(&[0x22; 32]);
    msg.push(1);
    assert_eq!(second.hmac.get_buffer(), hmac_ref(&[0x11; 32], &msg).as_slice());
}

fn acknowledgment(nonce_tpm: &[u8], nonce_caller: &[u8], resp: &LoadExternalResp) -> Vec<u8> {
    let mut msg = rp_hash_ref(resp);
    msg.extend_from_slice(nonce_tpm);
    msg.extend_from_slice(nonce_caller);
    msg.push(1);
    hmac_ref(&[0x11; 32], &msg)
}

#[test]
fn validate_accepts_the_right_hmac_and_keeps_the_new_nonce() {
    let mut session = sample_session();
    let cmd = sample_cmd();
    let mut buf = [0u8; 256];
    let _ = session.auth_command_with_nonce(&cmd, &(), &mut buf, &[0x33u8; 32]);
    let resp = LoadExternalResp { name: Tpm2bName::from_bytes(&[1, 2, 3]).unwrap() };
    let hmac = acknowledgment(&[0x44; 32], &[0x33; 32], &resp);
    let auth = TpmsAuthResponse {
        nonce: Tpm2bDigest::from_bytes(&[0x44; 32]).unwrap(),
        session_attributes: TpmaSession(1),
        hmac: Tpm2bDigest::from_bytes(&hmac).unwrap(),
    };
    assert_eq!(
        session.validate_auth_response::<LoadExternalCmd>(
            &resp,
            &tpm2_client::types::TpmHandle(0x8000_0000),
            &auth,
            &mut buf
        ),
        Ok(())
    );
    // The next command uses the TPM's new nonce.
    let next = session.auth_command_with_nonce(&cmd, &(), &mut buf, &[0x55u8; 32]);
    let mut msg = cp_hash_ref(&cmd);
    msg.extend_from_slice(&[0x55; 32]);
    msg.extend_from_slice(&[0x44; 32]);
    msg.push(1);
    assert_eq!(next.hmac.get_buffer(), hmac_ref(&[0x11; 32], &msg).as_slice());
}

#[test]
fn validate_refuses_a_wrong_hmac_or_shape() {
    let mut session = sample_session();
    let cmd = sample_cmd();
    let mut buf = [0u8; 256];
    let _ = session.auth_command_with_nonce(&cmd, &(), &mut buf, &[0x33u8; 32]);
    let resp = LoadExternalResp { name: Tpm2bName::from_bytes(&[1, 2, 3]).unwrap() };
    let mut hmac = acknowledgment(&[0x44; 32], &[0x33; 32], &resp);
    hmac[0] ^= 1;
    let handle = tpm2_client::types::TpmHandle(0x8000_0000);
    let auth = TpmsAuthResponse {
        nonce: Tpm2bDigest::from_bytes(&[0x44; 32]).unwrap(),
        session_attributes: TpmaSession(1),
        hmac: Tpm2bDigest::from_bytes(&hmac).unwrap(),
    };
    assert_eq!(
        session.validate_auth_response::<LoadExternalCmd>(&resp, &handle, &auth, &mut buf),
        Err(TssError::Tcs(TssTcsError::BadParameter))
    );
    let short_nonce = TpmsAuthResponse {
        nonce: Tpm2bDigest::from_bytes(&[0x44; 16]).unwrap(),
        session_attributes: TpmaSession(1),
        hmac: Tpm2bDigest::from_bytes(&hmac).unwrap(),
    };
    assert_eq!(
        session.validate_auth_response::<LoadExternalCmd>(&resp, &handle, &short_nonce, &mut buf),
        Err(TssError::Tcs(TssTcsError::BadParameter))
    );
    let other_attributes = TpmsAuthResponse {
        nonce: Tpm2bDigest::from_bytes(&[0x44; 32]).unwrap(),
        session_attributes: TpmaSession(0),
        hmac: Tpm2bDigest::from_bytes(&hmac).unwrap(),
    };
    assert_eq!(
        session.validate_auth_response::<LoadExternalCmd>(&resp, &handle, &other_attributes, &mut buf),
        Err(TssError::Tcs(TssTcsError::BadParameter))
    );
}

#[test]
fn session_data_is_size_then_authorization() {
    let mut session = sample_session();
    let cmd = sample_cmd();
    let mut buf = [0u8; 256];
    let n = session.write_session_data(&cmd, &(), &mut buf).unwrap();
    // 4 + handle 4 + nonce 2 + 32 + attributes 1 + hmac 2 + 32.
    assert_eq!(n, 77);
    assert_eq!(&buf[..4], &[0, 0, 0, 73]);
    assert_eq!(&buf[4..8], &[0x02, 0, 0, 0]);
    assert_eq!(&buf[8..10], &[0, 32]);
    assert_eq!(buf[42], 1);
    let mut tiny = [0xc5u8; 3];
    assert_eq!(
        session.write_session_data(&cmd, &(), &mut tiny),
        Err(TssError::Tcs(TssTcsError::OutOfMemory))
    );
    assert_eq!(tiny, [0xc5; 3]);
}

#[test]
fn authorization_value_extends_the_hmac_key() {
    let mut session = HmacSession::<AlgoSha256>::new(
        vec![0xa1, 0xa2, 0xa3],
        TpmiShAuthSession(0x0200_0000),
        TpmaSession(TpmaSession::CONTINUE_SESSION),
        Some(vec![0x11; 32]),
        Tpm2bDigest::from_bytes(&[0x22; 32]).unwrap(),
    );
    let cmd = sample_cmd();
    let mut buf = [0u8; 256];
    let auth = session.auth_command_with_nonce(&cmd, &(), &mut buf, &[0x33u8; 32]);
    let mut msg = cp_hash_ref(&cmd);
    msg.extend_from_slice(&[0x33; 32]);
    msg.extend_from_slice(&[0x22; 32]);
    msg.push(1);
    let mut key = vec![0x11; 32];
    key.extend_from_slice(&[0xa1, 0xa2, 0xa3]);
    assert_eq!(auth.hmac.get_buffer(), hmac_ref(&key, &msg).as_slice());
    assert_ne!(auth.hmac.get_buffer(), hmac_ref(&[0x11; 32], &msg).as_slice());
}

#[test]
fn two_sessions_write_one_after_the_other() {
    let mut sessions = [sample_session(), sample_session()];
    assert!(sessions.has_sessions());
    let cmd = sample_cmd();
    let mut buf = [0u8; 256];
    let n = sessions.write_session_data(&cmd, &(), &mut buf).unwrap();
    assert_eq!(n, 154);
    assert_eq!(&buf[..4], &[0, 0, 0, 73]);
    assert_eq!(&buf[77..81], &[0, 0, 0, 73]);
    assert_eq!(&buf[81..85], &[0x02, 0, 0, 0]);
    let mut three = [sample_session(), sample_session(), sample_session()];
    let mut big = [0u8; 512];
    assert_eq!(three.write_session_data(&cmd, &(), &mut big), Ok(231));
    let mut one = [sample_session()];
    assert_eq!(one.write_session_data(&cmd, &(), &mut big), Ok(77));
}

#[test]
fn no_session_area_writes_nothing() {
    let mut area = ();
    assert!(!area.has_sessions());
    let cmd = sample_cmd();
    let mut buf = [0x5au8; 8];
    assert_eq!(area.write_session_data(&cmd, &(), &mut buf), Ok(0));
    assert_eq!(buf, [0x5a; 8]);
}

#[test]
fn object_name_replaces_the_handles_in_the_parameter_hash() {
    let mut session = sample_session();
    let name = [0x00, 0x0b, 0x42, 0x43];
    session.set_object_name(Tpm2bName::from_bytes(&name).unwrap());
    let cmd = sample_cmd();
    let mut buf = [0u8; 256];
    let auth = session.auth_command_with_nonce(&cmd, &(), &mut buf, &[0x33u8; 32]);
    let mut cp_msg = vec![0, 0, 0x01, 0x67];
    cp_msg.extend_from_slice(&name);
    cmd.marshal(&mut cp_msg);
    let mut msg = sha2::Sha256::digest(&cp_msg).to_vec();
    msg.extend_from_slice(&[0x33; 32]);
    msg.extend_from_slice(&[0x22; 32]);
    msg.push(1);
    assert_eq!(auth.hmac.get_buffer(), hmac_ref(&[0x11; 32], &msg).as_slice());
}
