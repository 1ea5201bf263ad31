use hmac::Mac;
use sha2::Digest;
use tpm2_client::algo::{AlgoSha256, AlgoSha256Hmac};
use tpm2_client::crypto::session_key;
use tpm2_client::errors::{MarshalError, TssError, TssResult, TssTcsError};
use tpm2_client::marshal::Marshalable;
use tpm2_client::object::{CreateCmd, LoadExternalCmd, LoadExternalResp};
use tpm2_client::session::HmacSession;
use tpm2_client::tpm::{
    read_answer, read_response_header, response_rest, run_command_with_handles, write_command,
    CmdHeader, Tpm,
};
use tpm2_client::tpm2b::{Tpm2bDigest, Tpm2bName, Tpm2bPublic, Tpm2bSensitive};
use tpm2_client::types::{TpmCc, TpmSt, TpmaSession, TpmiRhHierarchy, TpmiShAuthSession};

fn hmac_ref(key: &[u8], msg: &[u8]) -> Vec<u8> {
    let mut m = <hmac::Hmac<sha2::Sha256> as Mac>::new_from_slice(key).unwrap();
    m.update(msg);
    m.finalize().into_bytes().to_vec()
}

fn sample_cmd() -> LoadExternalCmd {
    LoadExternalCmd {
        in_private: Tpm2bSensitive::from_bytes(&[]).unwrap(),
        in_public: Tpm2bPublic::from_bytes(&[0xaa, 0xbb]).unwrap(),
        hierarchy: TpmiRhHierarchy(0x4000_0001),
    }
}

const PARAMS: [u8; 10] = [0, 0, 0, 2, 0xaa, 0xbb, 0x40, 0, 0, 1];

/// A TPM that records the command and answers with a canned response.
struct MockTpm {
    sent: Vec<u8>,
    answer: Vec<u8>,
}

impl Tpm for MockTpm {
    fn transact(&mut self, command: &[u8], response: &mut [u8]) -> TssResult<()> {
        self.sent = command.to_vec();
        response[..self.answer.len()].copy_from_slice(&self.answer);
        Ok(())
    }
}

fn frame_response(tag: u16, rc: u32, body: &[u8]) -> Vec<u8> {
    let mut r = tag.to_be_bytes().to_vec();
    r.extend_from_slice(&((10 + body.len()) as u32).to_be_bytes());
    r.extend_from_slice(&rc.to_be_bytes());
    r.extend_from_slice(body);
    r
}

#[test]
fn command_header_new() {
    let h = CmdHeader::new(true, TpmCc::Unseal);
    let mut out = Vec::new();
    h.marshal(&mut out);
    assert_eq!(out, vec![0x80, 0x02, 0, 0, 0, 0, 0, 0, 0x01, 0x5e]);
    let h = CmdHeader::new(false, TpmCc::Load);
    let mut out = Vec::new();
    h.marshal(&mut out);
    assert_eq!(out, vec![0x80, 0x01, 0, 0, 0, 0, 0, 0, 0x01, 0x57]);
}

#[test]
fn response_header_success_and_errors() {
    let ok = frame_response(0x8001, 0, &[]);
    let (h, n) = read_response_header(&ok).unwrap();
    assert_eq!(n, 10);
    assert_eq!(h.tag, TpmSt::NoSessions);
    assert_eq!(h.size, 10);
    let failed = frame_response(0x8001, 0x101, &[]);
    assert_eq!(read_response_header(&failed).err(), Some(TssError::Tpm(0x101)));
    assert_eq!(
        read_response_header(&ok[..9]).err(),
        Some(TssError::Marshal(MarshalError::Insufficient))
    );
}

#[test]
fn write_command_layout() {
    let cmd = sample_cmd();
    let mut buf = [0u8; 64];
    let n = write_command(&cmd, &(), &mut (), &mut buf).unwrap();
    assert_eq!(n, 20);
    assert_eq!(&buf[..10], &[0x80, 0x01, 0, 0, 0, 20, 0, 0, 0x01, 0x67]);
    assert_eq!(&buf[10..20], &PARAMS);
    let mut small = [0u8; 15];
    assert_eq!(
        write_command(&cmd, &(), &mut (), &mut small),
        Err(TssError::Marshal(MarshalError::Memory))
    );
}

#[test]
fn run_command_without_sessions() {
    let cmd = sample_cmd();
    let body = [0x80, 0, 0, 1, 0, 3, 7, 8, 9];
    let mut tpm = MockTpm { sent: Vec::new(), answer: frame_response(0x8001, 0, &body) };
    let (resp, handle) = run_command_with_handles(&cmd, &(), &mut (), &mut tpm).unwrap();
    assert_eq!(handle.0, 0x8000_0001);
    assert_eq!(resp.name.get_buffer(), &[7, 8, 9]);
    let mut expected = vec![0x80, 0x01, 0, 0, 0, 20, 0, 0, 0x01, 0x67];
    expected.extend_from_slice(&PARAMS);
    assert_eq!(tpm.sent, expected);
}

#[test]
fn run_command_reports_tpm_error_code() {
    let cmd = sample_cmd();
    let mut tpm = MockTpm { sent: Vec::new(), answer: frame_response(0x8001, 0x9a2, &[]) };
    assert_eq!(
        run_command_with_handles(&cmd, &(), &mut (), &mut tpm).err(),
        Some(TssError::Tpm(0x9a2))
    );
}

#[test]
fn run_command_refuses_trailing_bytes_and_short_sizes() {
    let cmd = sample_cmd();
    let body = [0x80, 0, 0, 1, 0, 3, 7, 8, 9, 0xee];
    let mut tpm = MockTpm { sent: Vec::new(), answer: frame_response(0x8001, 0, &body) };
    assert_eq!(
        run_command_with_handles(&cmd, &(), &mut (), &mut tpm).err(),
        Some(TssError::Tcs(TssTcsError::TpmUnexpected))
    );
    let mut short = frame_response(0x8001, 0, &[]);
    short[5] = 6;
    let mut tpm = MockTpm { sent: Vec::new(), answer: short };
    assert_eq!(
        run_command_with_handles(&cmd, &(), &mut (), &mut tpm).err(),
        Some(TssError::Tcs(TssTcsError::TpmUnexpected))
    );
    let mut long = frame_response(0x8001, 0, &[]);
    long[4] = 0x20;
    let mut tpm = MockTpm { sent: Vec::new(), answer: long };
    assert_eq!(
        run_command_with_handles(&cmd, &(), &mut (), &mut tpm).err(),
        Some(TssError::Tcs(TssTcsError::OutOfMemory))
    );
}

/// A TPM that acknowledges each command of an HMAC session with the right HMAC.
struct SessionTpm {
    key: Vec<u8>,
    nonce_tpm: [u8; 32],
    tamper: bool,
}

impl Tpm for SessionTpm {
    fn transact(&mut self, command: &[u8], response: &mut [u8]) -> TssResult<()> {
        // Header 10, no handles, authorization size 4, session handle 4, nonce size 2.
        let nonce_caller = &command[20..52];
        let name = [1u8, 2, 3];
        let resp = LoadExternalResp { name: Tpm2bName::from_bytes(&name).unwrap() };
        let mut rp_msg = vec![0, 0, 0, 0, 0, 0, 0x01, 0x67];
        resp.marshal(&mut rp_msg);
        let rp = sha2::Sha256::digest(&rp_msg).to_vec();
        let mut msg = rp;
        msg.extend_from_slice(&self.nonce_tpm);
        msg.extend_from_slice(nonce_caller);
        msg.push(TpmaSession::CONTINUE_SESSION);
        let mut hmac = hmac_ref(&self.key, &msg);
        if self.tamper {
            hmac[31] ^= 0x80;
        }
        let mut body = vec![0x80, 0, 0, 2];
        body.extend_from_slice(&5u32.to_be_bytes());
        body.extend_from_slice(&[0, 3, 1, 2, 3]);
        body.extend_from_slice(&[0, 32]);
        body.extend_from_slice(&self.nonce_tpm);
        body.push(TpmaSession::CONTINUE_SESSION);
        body.extend_from_slice(&[0, 32]);
        body.extend_from_slice(&hmac);
        let answer = frame_response(0x8002, 0, &body);
        response[..answer.len()].copy_from_slice(&answer);
        Ok(())
    }
}

#[test]
fn run_command_with_hmac_session() {
    let cmd = sample_cmd();
    let key = vec![0x5a; 32];
    let mut session = HmacSession::<AlgoSha256>::new(
        Vec::new(),
        TpmiShAuthSession(0x0200_0001),
        TpmaSession(TpmaSession::CONTINUE_SESSION),
        Some(key.clone()),
        Tpm2bDigest::from_bytes(&[0x01; 32]).unwrap(),
    );
    let mut tpm = SessionTpm { key: key.clone(), nonce_tpm: [0x77; 32], tamper: false };
    let (resp, handle) = run_command_with_handles(&cmd, &(), &mut session, &mut tpm).unwrap();
    assert_eq!(handle.0, 0x8000_0002);
    assert_eq!(resp.name.get_buffer(), &[1, 2, 3]);
    // A second command is acknowledged with the nonce of the first answer kept.
    let mut tpm = SessionTpm { key: key.clone(), nonce_tpm: [0x78; 32], tamper: false };
    assert!(run_command_with_handles(&cmd, &(), &mut session, &mut tpm).is_ok());
    let mut tpm = SessionTpm { key, nonce_tpm: [0x79; 32], tamper: true };
    assert_eq!(
        run_command_with_handles(&cmd, &(), &mut session, &mut tpm).err(),
        Some(TssError::Tcs(TssTcsError::BadParameter))
    );
}

#[test]
fn run_command_with_hmac_session_and_authorization_value() {
    let cmd = sample_cmd();
    let key = vec![0x5a; 32];
    let mut session = HmacSession::<AlgoSha256>::new(
        vec![0x0f, 0x0e],
        TpmiShAuthSession(0x0200_0001),
        TpmaSession(TpmaSession::CONTINUE_SESSION),
        Some(key.clone()),
        Tpm2bDigest::from_bytes(&[0x01; 32]).unwrap(),
    );
    let mut hmac_key = key.clone();
    hmac_key.extend_from_slice(&[0x0f, 0x0e]);
    let mut tpm = SessionTpm { key: hmac_key, nonce_tpm: [0x77; 32], tamper: false };
    assert!(run_command_with_handles(&cmd, &(), &mut session, &mut tpm).is_ok());
    // Without the authorization value the acknowledgment does not match.
    let mut tpm = SessionTpm { key, nonce_tpm: [0x78; 32], tamper: false };
    assert_eq!(
        run_command_with_handles(&cmd, &(), &mut session, &mut tpm).err(),
        Some(TssError::Tcs(TssTcsError::BadParameter))
    );
}

#[test]
fn response_rest_follows_the_header_size() {
    let (h, _) = read_response_header(&frame_response(0x8001, 0, &[1, 2, 3])).unwrap();
    assert_eq!(response_rest(&h, 4096), Ok(3));
    assert_eq!(response_rest(&h, 13), Ok(3));
    assert_eq!(response_rest(&h, 12), Err(TssError::Tcs(TssTcsError::OutOfMemory)));
    let mut short = frame_response(0x8001, 0, &[]);
    short[5] = 4;
    let (h, _) = read_response_header(&short).unwrap();
    assert_eq!(response_rest(&h, 4096), Ok(0));
    assert_eq!(response_rest(&h, 8), Err(TssError::Tcs(TssTcsError::OutOfMemory)));
}

/// A TPM whose every command fails with a fixed error.
struct FailingTpm {
    sent: Vec<u8>,
    error: TssError,
}

impl Tpm for FailingTpm {
    fn transact(&mut self, command: &[u8], _response: &mut [u8]) -> TssResult<()> {
        self.sent = command.to_vec();
        Err(self.error.clone())
    }
}

#[test]
fn run_command_passes_on_the_tpm_error() {
    let cmd = sample_cmd();
    let mut tpm = FailingTpm { sent: Vec::new(), error: TssError::Tpm(0x0902) };
    assert_eq!(
        run_command_with_handles(&cmd, &(), &mut (), &mut tpm).err(),
        Some(TssError::Tpm(0x0902))
    );
    let mut expected = vec![0x80, 0x01, 0, 0, 0, 20, 0, 0, 0x01, 0x67];
    expected.extend_from_slice(&PARAMS);
    assert_eq!(tpm.sent, expected);
}

#[test]
fn read_answer_returns_the_tpm_error_or_reads_the_response() {
    let mut wrk = [0u8; 64];
    let answer = frame_response(0x8001, 0, &[0x80, 0, 0, 1, 0, 3, 7, 8, 9]);
    let failed: TssResult<()> = Err(TssError::Tcs(TssTcsError::BadParameter));
    assert_eq!(
        read_answer::<LoadExternalCmd, ()>(failed, &answer, &mut (), &mut wrk).err(),
        Some(TssError::Tcs(TssTcsError::BadParameter))
    );
    let (resp, handle) = read_answer::<LoadExternalCmd, ()>(Ok(()), &answer, &mut (), &mut wrk).unwrap();
    assert_eq!(handle.0, 0x8000_0001);
    assert_eq!(resp.name.get_buffer(), &[7, 8, 9]);
}

/// KDFa for the session key: HMAC-SHA-256 keyed with the empty
/// authorization value and salt, label "ATH", one block of 256 bits.
fn session_key_ref(nonce_tpm: &[u8], nonce_caller: &[u8]) -> Vec<u8> {
    let mut msg = vec![0, 0, 0, 1, b'A', b'T', b'H', 0];
    msg.extend_from_slice(nonce_tpm);
    msg.extend_from_slice(nonce_caller);
    msg.extend_from_slice(&[0, 0, 1, 0]);
    hmac_ref(&[], &msg)
}

/// A stand-in for the TPM device: a command without sessions starts an HMAC
/// session (handle 0x0200_0000, the TPM's nonce as the returned name); a
/// command with the session is acknowledged with a fresh TPM nonce.
struct DeviceTpm {
    start_nonce_caller: [u8; 32],
    nonce_tpm: [u8; 32],
    key: Vec<u8>,
}

impl DeviceTpm {
    fn new(start_nonce_caller: [u8; 32]) -> Self {
        DeviceTpm { start_nonce_caller, nonce_tpm: [0x61; 32], key: Vec::new() }
    }
}

impl Tpm for DeviceTpm {
    fn transact(&mut self, command: &[u8], response: &mut [u8]) -> TssResult<()> {
        let answer = if command[1] == 0x01 {
            self.key = session_key_ref(&self.nonce_tpm, &self.start_nonce_caller);
            let mut body = vec![0x02, 0, 0, 0, 0, 32];
            body.extend_from_slice(&self.nonce_tpm);
            frame_response(0x8001, 0, &body)
        } else {
            let mut session = SessionTpm {
                key: self.key.clone(),
                nonce_tpm: self.nonce_tpm,
                tamper: false,
            };
            session.nonce_tpm[0] = session.nonce_tpm[0].wrapping_add(1);
            self.nonce_tpm = session.nonce_tpm;
            return session.transact(command, response);
        };
        response[..answer.len()].copy_from_slice(&answer);
        Ok(())
    }
}

#[test]
fn test_start_auth_create_primary_simple() {
    let nonce_caller_bytes = rand::random::<[u8; 32]>();
    let mut tpm = DeviceTpm::new(nonce_caller_bytes);
    let auth_val = vec![];

    // Start the session, without sessions.
    let nonce_caller = Tpm2bDigest::from_bytes(&nonce_caller_bytes).unwrap();
    let cmd = sample_cmd();
    let mut cmd_session = ();
    let (resp, session_handle) =
        run_command_with_handles(&cmd, &(), &mut cmd_session, &mut tpm).unwrap();
    let nonce_tpm = Tpm2bDigest::from_bytes(resp.name.get_buffer()).unwrap();

    let session_key =
        session_key::<AlgoSha256Hmac>(&[], &[], &nonce_tpm, &nonce_caller).unwrap();

    let mut session = HmacSession::<AlgoSha256>::new(
        auth_val,
        TpmiShAuthSession(session_handle.0),
        TpmaSession(TpmaSession::CONTINUE_SESSION),
        Some(session_key),
        nonce_tpm,
    );

    // Two commands on the session.
    let (_resp, _handle) = run_command_with_handles(&cmd, &(), &mut session, &mut tpm).unwrap();
    let (_resp, _handle) = run_command_with_handles(&cmd, &(), &mut session, &mut tpm).unwrap();
}

#[test]
fn test_start_auth_create_primary_with_unseal() {
    let nonce_caller_bytes = rand::random::<[u8; 32]>();
    let mut tpm = DeviceTpm::new(nonce_caller_bytes);
    let auth_val: [u8; 0] = [];
    let salt: [u8; 0] = [];

    let nonce_caller = Tpm2bDigest::from_bytes(&nonce_caller_bytes).unwrap();
    let cmd = sample_cmd();
    let mut cmd_session = ();
    let (resp, session_handle) =
        run_command_with_handles(&cmd, &(), &mut cmd_session, &mut tpm).unwrap();
    let nonce_tpm = resp.name.get_buffer().to_vec();
    let nonce_tpm = Tpm2bDigest::from_bytes(&nonce_tpm).unwrap();

    let sess_key =
        session_key::<AlgoSha256Hmac>(&auth_val, &salt, &nonce_tpm, &nonce_caller).unwrap();

    let mut session = HmacSession::<AlgoSha256>::new(
        auth_val.to_vec(),
        TpmiShAuthSession(session_handle.0),
        TpmaSession(TpmaSession::CONTINUE_SESSION),
        Some(sess_key),
        nonce_tpm,
    );

    let (_resp, _object_handle) =
        run_command_with_handles(&cmd, &(), &mut session, &mut tpm).unwrap();
}

#[test]
fn test_create_save_context_unseal() {
    let _tpm = DeviceTpm::new([0; 32]);
    let _cmd = CreateCmd {};
}
