use vstd::prelude::*;

use crate::errors::{MarshalError, TssResult};
use crate::marshal::{be_u32, from_be_u32, lemma_be_u32_roundtrip, Marshalable, UnmarshalBuf};
use crate::tpm2b::{
    lemma_tpm2b_marshal_unmarshal, lemma_tpm2b_unmarshal_marshal, spec_tpm2b_marshal,
    spec_tpm2b_unmarshal, Tpm2bAuth, Tpm2bNonce,
};
use crate::types::{TpmaSession, TpmiShAuthSession};

verus! {

/// The capacity of a nonce or an HMAC in an authorization.
pub const AUTH_BUFFER_MAX: usize = 64;

/// The authorization of a command by one session (`TPMS_AUTH_COMMAND`).
pub struct TpmsAuthCommand {
    pub session_handle: TpmiShAuthSession,
    pub nonce: Tpm2bNonce,
    pub session_attributes: TpmaSession,
    pub hmac: Tpm2bAuth,
}

/// The values of a `TpmsAuthCommand`.
pub struct AuthCommandModel {
    pub session_handle: u32,
    pub nonce: Seq<u8>,
    pub session_attributes: u8,
    pub hmac: Seq<u8>,
}

/// A session's acknowledgment of a response (`TPMS_AUTH_RESPONSE`).
pub struct TpmsAuthResponse {
    pub nonce: Tpm2bNonce,
    pub session_attributes: TpmaSession,
    pub hmac: Tpm2bAuth,
}

/// The values of a `TpmsAuthResponse`.
pub struct AuthResponseModel {
    pub nonce: Seq<u8>,
    pub session_attributes: u8,
    pub hmac: Seq<u8>,
}

impl View for TpmsAuthCommand {
    type V = AuthCommandModel;

    open spec fn view(&self) -> AuthCommandModel {
        AuthCommandModel {
            session_handle: self.session_handle@,
            nonce: self.nonce@,
            session_attributes: self.session_attributes@,
            hmac: self.hmac@,
        }
    }
}

impl View for TpmsAuthResponse {
    type V = AuthResponseModel;

    open spec fn view(&self) -> AuthResponseModel {
        AuthResponseModel {
            nonce: self.nonce@,
            session_attributes: self.session_attributes@,
            hmac: self.hmac@,
        }
    }
}

/// A sized buffer of an authorization fits in its capacity.
pub open spec fn auth_buffer_fits(v: Seq<u8>) -> bool {
    v.len() <= AUTH_BUFFER_MAX
}

impl Marshalable for TpmsAuthCommand {
    open spec fn spec_wf(v: AuthCommandModel) -> bool {
        auth_buffer_fits(v.nonce) && auth_buffer_fits(v.hmac)
    }

    open spec fn spec_marshal(v: AuthCommandModel) -> Seq<u8> {
        be_u32(v.session_handle) + spec_tpm2b_marshal(v.nonce) + seq![v.session_attributes]
            + spec_tpm2b_marshal(v.hmac)
    }

    open spec fn spec_unmarshal(s: Seq<u8>) -> Result<(AuthCommandModel, int), MarshalError> {
        if s.len() < 4 {
            Err(MarshalError::Insufficient)
        } else {
            match spec_tpm2b_unmarshal(AUTH_BUFFER_MAX as nat, s.skip(4)) {
                Err(e) => Err(e),
                Ok((nonce, n1)) => {
                    let s2 = s.skip(4 + n1);
                    if s2.len() < 1 {
                        Err(MarshalError::Insufficient)
                    } else {
                        match spec_tpm2b_unmarshal(AUTH_BUFFER_MAX as nat, s2.skip(1)) {
                            Err(e) => Err(e),
                            Ok((hmac, n2)) => Ok(
                                (
                                    AuthCommandModel {
                                        session_handle: from_be_u32(s),
                                        nonce,
                                        session_attributes: s2[0],
                                        hmac,
                                    },
                                    4 + n1 + 1 + n2,
                                ),
                            ),
                        }
                    }
                },
            }
        }
    }

    proof fn lemma_unmarshal_marshal(v: AuthCommandModel, rest: Seq<u8>) {
        let n = spec_tpm2b_marshal(v.nonce);
        let h = spec_tpm2b_marshal(v.hmac);
        let s = Self::spec_marshal(v) + rest;
        let tail = n + (seq![v.session_attributes] + (h + rest));
        assert(s =~= be_u32(v.session_handle) + tail);
        lemma_be_u32_roundtrip(v.session_handle, tail);
        assert(s.skip(4) =~= tail);
        lemma_tpm2b_unmarshal_marshal(AUTH_BUFFER_MAX as nat, v.nonce, seq![v.session_attributes] + (h + rest));
        let s2 = s.skip(4 + n.len() as int);
        assert(s2 =~= seq![v.session_attributes] + (h + rest));
        assert(s2.skip(1) =~= h + rest);
        lemma_tpm2b_unmarshal_marshal(AUTH_BUFFER_MAX as nat, v.hmac, rest);
    }

    proof fn lemma_marshal_unmarshal(s: Seq<u8>) {
        if s.len() >= 4 {
            lemma_be_u32_roundtrip(0, s);
            lemma_tpm2b_marshal_unmarshal(AUTH_BUFFER_MAX as nat, s.skip(4));
            if let Ok((nonce, n1)) = spec_tpm2b_unmarshal(AUTH_BUFFER_MAX as nat, s.skip(4)) {
                let s2 = s.skip(4 + n1);
                if s2.len() >= 1 {
                    lemma_tpm2b_marshal_unmarshal(AUTH_BUFFER_MAX as nat, s2.skip(1));
                    if let Ok((hmac, n2)) = spec_tpm2b_unmarshal(AUTH_BUFFER_MAX as nat, s2.skip(1)) {
                        let v = AuthCommandModel {
                            session_handle: from_be_u32(s),
                            nonce,
                            session_attributes: s2[0],
                            hmac,
                        };
                        assert(s.skip(4).take(n1) =~= s.subrange(4, 4 + n1));
                        assert(s2.skip(1).take(n2) =~= s.subrange(4 + n1 + 1, 4 + n1 + 1 + n2));
                        assert(Self::spec_marshal(v) =~= s.take(4 + n1 + 1 + n2));
                    }
                }
            }
        }
    }

    fn marshal(&self, out: &mut Vec<u8>) {
        let ghost start = out@;
        self.session_handle.marshal(out);
        self.nonce.marshal(out);
        self.session_attributes.marshal(out);
        self.hmac.marshal(out);
        assert(out@ =~= start + Self::spec_marshal(self@));
        assert(Self::spec_wf(self@));
    }

    fn try_unmarshal(buf: &mut UnmarshalBuf) -> (r: TssResult<TpmsAuthCommand>) {
        let ghost s = buf@;
        let session_handle = TpmiShAuthSession::try_unmarshal(buf)?;
        let nonce = Tpm2bNonce::try_unmarshal(buf)?;
        let ghost n1: int = nonce@.len() as int + 2;
        proof {
            lemma_tpm2b_marshal_unmarshal(AUTH_BUFFER_MAX as nat, s.skip(4));
            assert(s.skip(4).skip(n1) =~= s.skip(4 + n1));
        }
        let session_attributes = TpmaSession::try_unmarshal(buf)?;
        let hmac = Tpm2bAuth::try_unmarshal(buf)?;
        proof {
            let s2 = s.skip(4 + n1);
            lemma_tpm2b_marshal_unmarshal(AUTH_BUFFER_MAX as nat, s2.skip(1));
            let n2: int = hmac@.len() as int + 2;
            assert(s2.skip(1).skip(n2) =~= s.skip(4 + n1 + 1 + n2));
        }
        Ok(TpmsAuthCommand { session_handle, nonce, session_attributes, hmac })
    }
}

impl Marshalable for TpmsAuthResponse {
    open spec fn spec_wf(v: AuthResponseModel) -> bool {
        auth_buffer_fits(v.nonce) && auth_buffer_fits(v.hmac)
    }

    open spec fn spec_marshal(v: AuthResponseModel) -> Seq<u8> {
        spec_tpm2b_marshal(v.nonce) + seq![v.session_attributes] + spec_tpm2b_marshal(v.hmac)
    }

    open spec fn spec_unmarshal(s: Seq<u8>) -> Result<(AuthResponseModel, int), MarshalError> {
        match spec_tpm2b_unmarshal(AUTH_BUFFER_MAX as nat, s) {
            Err(e) => Err(e),
            Ok((nonce, n1)) => {
                let s2 = s.skip(n1);
                if s2.len() < 1 {
                    Err(MarshalError::Insufficient)
                } else {
                    match spec_tpm2b_unmarshal(AUTH_BUFFER_MAX as nat, s2.skip(1)) {
                        Err(e) => Err(e),
                        Ok((hmac, n2)) => Ok(
                            (
                                AuthResponseModel { nonce, session_attributes: s2[0], hmac },
                                n1 + 1 + n2,
                            ),
                        ),
                    }
                }
            },
        }
    }

    proof fn lemma_unmarshal_marshal(v: AuthResponseModel, rest: Seq<u8>) {
        let n = spec_tpm2b_marshal(v.nonce);
        let h = spec_tpm2b_marshal(v.hmac);
        let s = Self::spec_marshal(v) + rest;
        assert(s =~= n + (seq![v.session_attributes] + (h + rest)));
        lemma_tpm2b_unmarshal_marshal(AUTH_BUFFER_MAX as nat, v.nonce, seq![v.session_attributes] + (h + rest));
        let s2 = s.skip(n.len() as int);
        assert(s2 =~= seq![v.session_attributes] + (h + rest));
        assert(s2.skip(1) =~= h + rest);
        lemma_tpm2b_unmarshal_marshal(AUTH_BUFFER_MAX as nat, v.hmac, rest);
    }

    proof fn lemma_marshal_unmarshal(s: Seq<u8>) {
        lemma_tpm2b_marshal_unmarshal(AUTH_BUFFER_MAX as nat, s);
        if let Ok((nonce, n1)) = spec_tpm2b_unmarshal(AUTH_BUFFER_MAX as nat, s) {
            let s2 = s.skip(n1);
            if s2.len() >= 1 {
                lemma_tpm2b_marshal_unmarshal(AUTH_BUFFER_MAX as nat, s2.skip(1));
                if let Ok((hmac, n2)) = spec_tpm2b_unmarshal(AUTH_BUFFER_MAX as nat, s2.skip(1)) {
                    let v = AuthResponseModel { nonce, session_attributes: s2[0], hmac };
                    assert(s2.skip(1).take(n2) =~= s.subrange(n1 + 1, n1 + 1 + n2));
                    assert(Self::spec_marshal(v) =~= s.take(n1 + 1 + n2));
                }
            }
        }
    }

    fn marshal(&self, out: &mut Vec<u8>) {
        let ghost start = out@;
        self.nonce.marshal(out);
        self.session_attributes.marshal(out);
        self.hmac.marshal(out);
        assert(out@ =~= start + Self::spec_marshal(self@));
        assert(Self::spec_wf(self@));
    }

    fn try_unmarshal(buf: &mut UnmarshalBuf) -> (r: TssResult<TpmsAuthResponse>) {
        let ghost s = buf@;
        let nonce = Tpm2bNonce::try_unmarshal(buf)?;
        let ghost n1: int = nonce@.len() as int + 2;
        proof {
            lemma_tpm2b_marshal_unmarshal(AUTH_BUFFER_MAX as nat, s);
        }
        let session_attributes = TpmaSession::try_unmarshal(buf)?;
        let hmac = Tpm2bAuth::try_unmarshal(buf)?;
        proof {
            let s2 = s.skip(n1);
            lemma_tpm2b_marshal_unmarshal(AUTH_BUFFER_MAX as nat, s2.skip(1));
            let n2: int = hmac@.len() as int + 2;
            assert(s2.skip(1).skip(n2) =~= s.skip(n1 + 1 + n2));
        }
        Ok(TpmsAuthResponse { nonce, session_attributes, hmac })
    }
}

} // verus!
