use tpm2_client::errors::{MarshalError, TssError};
use tpm2_client::marshal::{Marshalable, UnmarshalBuf};
use tpm2_client::structures::{TpmsAuthCommand, TpmsAuthResponse};
use tpm2_client::tpm2b::{Tpm2bDigest, Tpm2bName};
use tpm2_client::types::{TpmCc, TpmSt, TpmaSession, TpmiShAuthSession, TpmiStCommandTag};

fn marshal_vec<T: Marshalable>(v: &T) -> Vec<u8> {
    let mut out = Vec::new();
    v.marshal(&mut out);
    out
}

#[test]
fn integers_are_big_endian() {
    assert_eq!(marshal_vec(&0x1234u16), vec![0x12, 0x34]);
    assert_eq!(marshal_vec(&0xdeadbeefu32), vec![0xde, 0xad, 0xbe, 0xef]);
    let bytes = [0xde, 0xad, 0xbe, 0xef, 0x01];
    let mut buf = UnmarshalBuf::new(&bytes);
    assert_eq!(u32::try_unmarshal(&mut buf).unwrap(), 0xdeadbeef);
    assert_eq!(buf.len(), 1);
    assert!(!buf.is_empty());
}

#[test]
fn unmarshal_short_input_is_insufficient() {
    let bytes = [0x01, 0x02, 0x03];
    let mut buf = UnmarshalBuf::new(&bytes);
    assert_eq!(
        u32::try_unmarshal(&mut buf).err(),
        Some(TssError::Marshal(MarshalError::Insufficient))
    );
}

#[test]
fn try_marshal_into_short_buffer_is_memory_error() {
    let mut buf = [0u8; 3];
    assert_eq!(
        0x01020304u32.try_marshal(&mut buf),
        Err(TssError::Marshal(MarshalError::Memory))
    );
    assert_eq!(buf, [0, 0, 0]);
    let mut buf = [0xffu8; 6];
    assert_eq!(0x01020304u32.try_marshal(&mut buf), Ok(4));
    assert_eq!(buf, [1, 2, 3, 4, 0xff, 0xff]);
}

#[test]
fn tpm2b_roundtrip() {
    let d = Tpm2bDigest::from_bytes(b"hello").unwrap();
    assert_eq!(d.get_size(), 5);
    assert_eq!(d.get_buffer(), b"hello");
    let bytes = marshal_vec(&d);
    assert_eq!(bytes, vec![0, 5, b'h', b'e', b'l', b'l', b'o']);
    let mut with_rest = bytes.clone();
    with_rest.push(0x99);
    let mut buf = UnmarshalBuf::new(&with_rest);
    let back = Tpm2bDigest::try_unmarshal(&mut buf).unwrap();
    assert_eq!(back.get_buffer(), b"hello");
    assert_eq!(buf.len(), 1);
}

#[test]
fn tpm2b_too_large_is_size_error() {
    let long = [7u8; 65];
    assert_eq!(
        Tpm2bDigest::from_bytes(&long).err(),
        Some(TssError::Marshal(MarshalError::Size))
    );
    assert!(Tpm2bName::from_bytes(&long).is_ok());
    // A size field of 65 for a digest.
    let mut bytes = vec![0u8, 65];
    bytes.extend_from_slice(&long);
    let mut buf = UnmarshalBuf::new(&bytes);
    assert_eq!(
        Tpm2bDigest::try_unmarshal(&mut buf).err(),
        Some(TssError::Marshal(MarshalError::Size))
    );
    // A size field larger than what follows.
    let bytes = [0u8, 4, 1, 2];
    let mut buf = UnmarshalBuf::new(&bytes);
    assert_eq!(
        Tpm2bDigest::try_unmarshal(&mut buf).err(),
        Some(TssError::Marshal(MarshalError::Insufficient))
    );
}

#[test]
fn tags_and_codes() {
    assert_eq!(marshal_vec(&TpmiStCommandTag::Sessions), vec![0x80, 0x02]);
    assert_eq!(marshal_vec(&TpmiStCommandTag::NoSessions), vec![0x80, 0x01]);
    assert_eq!(marshal_vec(&TpmCc::CreatePrimary), vec![0, 0, 0x01, 0x31]);
    assert_eq!(TpmCc::StartAuthSession.value(), 0x176);
    assert_eq!(TpmCc::from_value(0x15e), Some(TpmCc::Unseal));
    assert_eq!(TpmCc::from_value(0x999), None);
    let bytes = [0x12u8, 0x34];
    let mut buf = UnmarshalBuf::new(&bytes);
    assert_eq!(
        TpmSt::try_unmarshal(&mut buf).err(),
        Some(TssError::Marshal(MarshalError::Value))
    );
    let bytes = [0x80u8, 0x02];
    let mut buf = UnmarshalBuf::new(&bytes);
    assert_eq!(TpmSt::try_unmarshal(&mut buf).ok(), Some(TpmSt::Sessions));
    let bytes = [0x80u8, 0x03];
    let mut buf = UnmarshalBuf::new(&bytes);
    assert_eq!(
        TpmiStCommandTag::try_unmarshal(&mut buf).err(),
        Some(TssError::Marshal(MarshalError::Value))
    );
}

#[test]
fn auth_command_layout_and_roundtrip() {
    let auth = TpmsAuthCommand {
        session_handle: TpmiShAuthSession(0x0200_0000),
        nonce: Tpm2bDigest::from_bytes(&[1, 2, 3]).unwrap(),
        session_attributes: TpmaSession(TpmaSession::CONTINUE_SESSION),
        hmac: Tpm2bDigest::from_bytes(&[9, 8]).unwrap(),
    };
    let bytes = marshal_vec(&auth);
    assert_eq!(bytes, vec![0x02, 0, 0, 0, 0, 3, 1, 2, 3, 0x01, 0, 2, 9, 8]);
    let mut buf = UnmarshalBuf::new(&bytes);
    let back = TpmsAuthCommand::try_unmarshal(&mut buf).unwrap();
    assert_eq!(back.session_handle, TpmiShAuthSession(0x0200_0000));
    assert_eq!(back.nonce.get_buffer(), &[1, 2, 3]);
    assert_eq!(back.session_attributes, TpmaSession(1));
    assert_eq!(back.hmac.get_buffer(), &[9, 8]);
    assert!(buf.is_empty());
}

#[test]
fn auth_response_roundtrip() {
    let auth = TpmsAuthResponse {
        nonce: Tpm2bDigest::from_bytes(&[5; 32]).unwrap(),
        session_attributes: TpmaSession(0x21),
        hmac: Tpm2bDigest::from_bytes(&[6; 32]).unwrap(),
    };
    let bytes = marshal_vec(&auth);
    assert_eq!(bytes.len(), 2 + 32 + 1 + 2 + 32);
    let mut buf = UnmarshalBuf::new(&bytes);
    let back = TpmsAuthResponse::try_unmarshal(&mut buf).unwrap();
    assert_eq!(back.nonce.get_buffer(), &[5; 32]);
    assert_eq!(back.session_attributes, TpmaSession(0x21));
    assert_eq!(back.hmac.get_buffer(), &[6; 32]);
    // Cut short inside the HMAC.
    let mut buf = UnmarshalBuf::new(&bytes[..bytes.len() - 1]);
    assert_eq!(
        TpmsAuthResponse::try_unmarshal(&mut buf).err(),
        Some(TssError::Marshal(MarshalError::Insufficient))
    );
}
