use hmac::Mac;
use sha2::Digest;
use tpm2_client::algo::{AlgoDigestHasher, AlgoDigestHmac, AlgoSha256Hasher, AlgoSha256Hmac};
use tpm2_client::crypto::{cp_hash, hmac_computation, rp_hash, session_key};
use tpm2_client::errors::{MarshalError, TssError, TssTcsError};
use tpm2_client::marshal::Marshalable;
use tpm2_client::object::{LoadExternalCmd, LoadExternalResp};
use tpm2_client::tpm2b::{Tpm2bDigest, Tpm2bName, Tpm2bPublic, Tpm2bSensitive};
use tpm2_client::types::{TpmaSession, TpmiRhHierarchy};

fn hex(s: &str) -> Vec<u8> {
    (0..s.len())
        .step_by(2)
        .map(|i| u8::from_str_radix(&s[i..i + 2], 16).unwrap())
        .collect()
}

fn hmac_ref(key: &[u8], msg: &[u8]) -> Vec<u8> {
    let mut m = <hmac::Hmac<sha2::Sha256> as Mac>::new_from_slice(key).unwrap();
    m.update(msg);
    m.finalize().into_bytes().to_vec()
}

fn sample_cmd() -> LoadExternalCmd {
    LoadExternalCmd {
        in_private: Tpm2bSensitive::from_bytes(&[]).unwrap(),
        in_public: Tpm2bPublic::from_bytes(&[0xaa, 0xbb]).unwrap(),
        hierarchy: TpmiRhHierarchy(0x4000_0001),
    }
}

#[test]
fn sha256_of_abc() {
    let mut h = AlgoSha256Hasher::new();
    h.update(b"a");
    h.update(b"bc");
    assert_eq!(
        h.finalize(),
        hex("ba7816bf8f01cfea414140de5dae2223b00361a396177a9cb410ff61f20015ad")
    );
}

#[test]
fn hmac_sha256_rfc4231_case2() {
    let mut m = AlgoSha256Hmac::new(b"Jefe");
    m.update(b"what do ya want ");
    m.update(b"for nothing?");
    assert_eq!(
        m.finalize(),
        hex("5bdcc146bf60754e6a042426089575c75a003f089d2739839dec58b964ec3843")
    );
}

#[test]
fn session_key_is_kdfa_with_ath_label() {
    let nonce_tpm = Tpm2bDigest::from_bytes(&[1u8; 32]).unwrap();
    let nonce_caller = Tpm2bDigest::from_bytes(&[2u8; 32]).unwrap();
    let key = session_key::<AlgoSha256Hmac>(b"auth", b"salt", &nonce_tpm, &nonce_caller).unwrap();
    let mut msg = vec![0, 0, 0, 1];
    msg.extend_from_slice(b"ATH");
    msg.push(0);
    msg.extend_from_slice(&[1u8; 32]);
    msg.extend_from_slice(&[2u8; 32]);
    msg.extend_from_slice(&[0, 0, 1, 0]);
    assert_eq!(key, hmac_ref(b"authsalt", &msg));
    assert_eq!(key.len(), 32);
}

#[test]
fn cp_hash_covers_code_handles_and_parameters() {
    let cmd = sample_cmd();
    let mut wrk = [0u8; 64];
    let digest = cp_hash::<LoadExternalCmd, AlgoSha256Hasher>(&cmd, &(), None, &mut wrk).unwrap();
    let mut params = Vec::new();
    cmd.marshal(&mut params);
    let mut msg = vec![0, 0, 0x01, 0x67];
    msg.extend_from_slice(&params);
    assert_eq!(digest, sha2::Sha256::digest(&msg).to_vec());

    // With a name, the name replaces the handles.
    let name = Tpm2bName::from_bytes(&[0x00, 0x0b, 0x42]).unwrap();
    let digest = cp_hash::<LoadExternalCmd, AlgoSha256Hasher>(&cmd, &(), Some(name), &mut wrk)
        .unwrap();
    let mut msg = vec![0, 0, 0x01, 0x67, 0x00, 0x0b, 0x42];
    msg.extend_from_slice(&params);
    assert_eq!(digest, sha2::Sha256::digest(&msg).to_vec());
}

#[test]
fn cp_hash_with_short_work_buffer_fails() {
    let cmd = sample_cmd();
    let mut wrk = [0u8; 3];
    assert_eq!(
        cp_hash::<LoadExternalCmd, AlgoSha256Hasher>(&cmd, &(), None, &mut wrk),
        Err(TssError::Marshal(MarshalError::Memory))
    );
    // Room for the code but not for the parameters (2 + 2 + 2 + 4 bytes).
    let mut wrk = [0u8; 9];
    assert_eq!(
        cp_hash::<LoadExternalCmd, AlgoSha256Hasher>(&cmd, &(), None, &mut wrk),
        Err(TssError::Marshal(MarshalError::Memory))
    );
}

#[test]
fn rp_hash_covers_success_code_and_parameters() {
    let resp = LoadExternalResp { name: Tpm2bName::from_bytes(&[7, 7, 7]).unwrap() };
    let mut wrk = [0u8; 16];
    let digest = rp_hash::<LoadExternalCmd, AlgoSha256Hasher>(&resp, &mut wrk).unwrap();
    let msg = [0, 0, 0, 0, 0, 0, 0x01, 0x67, 0, 3, 7, 7, 7];
    assert_eq!(digest, sha2::Sha256::digest(&msg).to_vec());
    let mut small = [0u8; 4];
    assert_eq!(
        rp_hash::<LoadExternalCmd, AlgoSha256Hasher>(&resp, &mut small),
        Err(TssError::Marshal(MarshalError::Memory))
    );
}

#[test]
fn hmac_computation_matches_reference() {
    let newer = Tpm2bDigest::from_bytes(&[3u8; 32]).unwrap();
    let older = Tpm2bDigest::from_bytes(&[4u8; 16]).unwrap();
    let attrs = TpmaSession(TpmaSession::CONTINUE_SESSION);
    let mut wrk = [0u8; 128];
    let d = hmac_computation::<AlgoSha256Hmac>(
        b"auth", b"sessionkey", b"phash", &newer, &older, &attrs, &mut wrk,
    )
    .unwrap();
    let mut msg = b"phash".to_vec();
    msg.extend_from_slice(&[3u8; 32]);
    msg.extend_from_slice(&[4u8; 16]);
    msg.push(1);
    assert_eq!(d.get_buffer(), hmac_ref(b"sessionkeyauth", &msg).as_slice());
}

#[test]
fn hmac_computation_with_short_work_buffer() {
    let newer = Tpm2bDigest::from_bytes(&[3u8; 32]).unwrap();
    let older = Tpm2bDigest::from_bytes(&[4u8; 16]).unwrap();
    let attrs = TpmaSession(0);
    // The key does not fit.
    let mut wrk = [0u8; 8];
    assert_eq!(
        hmac_computation::<AlgoSha256Hmac>(
            b"auth", b"sessionkey", b"p", &newer, &older, &attrs, &mut wrk
        )
        .err(),
        Some(TssError::Tcs(TssTcsError::OutOfMemory))
    );
    // The key fits, the newer nonce with its size does not.
    let mut wrk = [0u8; 20];
    assert_eq!(
        hmac_computation::<AlgoSha256Hmac>(
            b"auth", b"sessionkey", b"p", &newer, &older, &attrs, &mut wrk
        )
        .err(),
        Some(TssError::Marshal(MarshalError::Memory))
    );
}
