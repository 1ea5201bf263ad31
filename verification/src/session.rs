use vstd::prelude::*;

use std::marker::PhantomData;

use crate::algo::{AlgoDigest, AlgoDigestHasher, AlgoDigestHmac};
use crate::crypto::{
    cp_hash, hmac_computation, hmac_scratch_error, rp_hash, spec_command_parts, spec_cp_input,
    spec_hmac_computation, spec_rp_hash_input, CommandParts,
};
use crate::errors::{MarshalError, TssError, TssResult, TssTcsError};
use crate::marshal::{bytes_eq, Marshalable};
use crate::structures::{AuthCommandModel, AuthResponseModel, TpmsAuthCommand, TpmsAuthResponse};
use crate::tpm2b::{Tpm2bDigest, Tpm2bName, Tpm2bNonce};
use crate::types::{TpmCommand, TpmaSession, TpmiShAuthSession};

verus! {

/// A TPM session: it authorizes commands and checks the TPM's
/// acknowledgment of each response.
pub trait Session: Sized {
    /// Whether an authorization can be computed with a work buffer of `len`
    /// bytes for a command whose handles and parameters marshal to
    /// `handles_len` and `params_len` bytes.
    spec fn auth_ready(&self, handles_len: nat, params_len: nat, len: nat) -> bool;

    /// Whether a response authorization `auth` can be checked with a work
    /// buffer of `len` bytes, for response parameters that marshal to
    /// `resp_len` bytes.
    spec fn validate_ready(&self, resp_len: nat, auth: AuthResponseModel, len: nat) -> bool;

    /// Whether every response authorization can be checked with a work
    /// buffer of `len` bytes.
    spec fn response_ready(&self, len: nat) -> bool;

    /// The authorization the session gives, in its current state, for the
    /// command with parts `cmd`.
    spec fn spec_auth_command(&self, cmd: CommandParts) -> AuthCommandModel;

    /// The length of the marshalled authorizations of this session.
    spec fn auth_command_len(&self) -> nat;

    /// The outcome of checking the acknowledgment `auth` of a response whose
    /// parameter hash covers `rp_input`, with response parameters of
    /// `resp_len` bytes and a work buffer of `len` bytes.
    spec fn spec_validate(
        &self,
        rp_input: Seq<u8>,
        resp_len: nat,
        auth: AuthResponseModel,
        len: nat,
    ) -> TssResult<()>;

    /// Whether `after` is this session with its caller nonce renewed for a
    /// new command, everything else kept.
    spec fn spec_renewed(&self, after: Self) -> bool;

    /// Whether `after` is this session once it has accepted the
    /// acknowledgment `auth`.
    spec fn spec_accepted(&self, auth: AuthResponseModel, after: Self) -> bool;

    proof fn lemma_validate_ready(&self, resp_len: nat, auth: AuthResponseModel, len: nat)
        requires
            self.response_ready(len),
        ensures
            self.validate_ready(resp_len, auth, len),
    ;

    /// Computes the authorization of a command; `buf` is a work buffer.
    fn get_auth_command<CmdT: TpmCommand>(
        &mut self,
        cmd: &CmdT,
        cmd_handles: &CmdT::Handles,
        buf: &mut [u8],
    ) -> (auth: TpmsAuthCommand)
        requires
            old(self).auth_ready(
                CmdT::Handles::spec_marshal(cmd_handles@).len(),
                CmdT::spec_marshal(cmd@).len(),
                old(buf)@.len(),
            ),
        ensures
            old(self).spec_renewed(*final(self)),
            auth@ == final(self).spec_auth_command(
                spec_command_parts::<CmdT>(cmd@, cmd_handles@),
            ),
            TpmsAuthCommand::spec_marshal(auth@).len() == old(self).auth_command_len(),
            final(self).auth_command_len() == old(self).auth_command_len(),
            forall|len: nat| #[trigger]
                old(self).response_ready(len) ==> final(self).response_ready(len),
            final(buf)@.len() == old(buf)@.len(),
    ;

    /// Checks the TPM's acknowledgment of a response; `buf` is a work buffer.
    fn validate_auth_response<CmdT: TpmCommand>(
        &mut self,
        resp: &CmdT::RespT,
        resp_handles: &CmdT::RespHandles,
        auth: &TpmsAuthResponse,
        buf: &mut [u8],
    ) -> (r: TssResult<()>)
        requires
            old(self).validate_ready(
                CmdT::RespT::spec_marshal(resp@).len(),
                auth@,
                old(buf)@.len(),
            ),
        ensures
            r == old(self).spec_validate(
                spec_rp_hash_input::<CmdT>(resp@),
                CmdT::RespT::spec_marshal(resp@).len(),
                auth@,
                old(buf)@.len(),
            ),
            r is Ok ==> old(self).spec_accepted(auth@, *final(self)),
            r is Err ==> *final(self) == *old(self),
            final(self).auth_command_len() == old(self).auth_command_len(),
            forall|len: nat| #[trigger]
                old(self).response_ready(len) ==> final(self).response_ready(len),
            final(buf)@.len() == old(buf)@.len(),
    ;
}

/// The state of an HMAC session.
pub struct HmacSessionModel {
    pub auth_value: Seq<u8>,
    pub object_name: Option<Seq<u8>>,
    pub session_handle: u32,
    pub session_attributes: u8,
    pub session_key: Option<Seq<u8>>,
    pub nonce_caller: Seq<u8>,
    pub nonce_tpm: Seq<u8>,
}

/// The bytes of a session key; the empty string where there is none.
pub open spec fn key_bytes(key: Option<Seq<u8>>) -> Seq<u8> {
    match key {
        Some(k) => k,
        None => Seq::empty(),
    }
}

/// An HMAC session, bound to the authorization value of the entity it
/// authorizes.
pub struct HmacSession<D> where D: AlgoDigest {
    auth_value: Vec<u8>,
    object_name: Option<Tpm2bName>,
    session_handle: TpmiShAuthSession,
    session_attributes: TpmaSession,
    session_key: Option<Vec<u8>>,
    nonce_caller: Tpm2bDigest,
    nonce_tpm: Tpm2bNonce,
    _p: PhantomData<D>,
}

impl<D> View for HmacSession<D> where D: AlgoDigest {
    type V = HmacSessionModel;

    closed spec fn view(&self) -> HmacSessionModel {
        HmacSessionModel {
            auth_value: self.auth_value@,
            object_name: match self.object_name {
                Some(n) => Some(n@),
                None => None,
            },
            session_handle: self.session_handle@,
            session_attributes: self.session_attributes@,
            session_key: match self.session_key {
                Some(k) => Some(k@),
                None => None,
            },
            nonce_caller: self.nonce_caller@,
            nonce_tpm: self.nonce_tpm@,
        }
    }
}

/// The HMAC that authorizes, in session state `m`, the command with parts
/// `cmd`: its parameter hash covers the session's object name, where it has
/// one, in place of the handles.
pub open spec fn spec_command_hmac<D: AlgoDigest>(m: HmacSessionModel, cmd: CommandParts) -> Seq<u8> {
    spec_hmac_computation::<D::Hmac>(
        m.auth_value,
        key_bytes(m.session_key),
        D::Hasher::spec_digest(spec_cp_input(cmd, m.object_name)),
        m.nonce_caller,
        m.nonce_tpm,
        m.session_attributes,
    )
}

/// The HMAC with which the TPM acknowledges, in session state `m`, a
/// response whose parameter hash covers `rp_input`, given the TPM's new nonce.
pub open spec fn spec_response_hmac<D: AlgoDigest>(
    m: HmacSessionModel,
    rp_input: Seq<u8>,
    nonce_tpm: Seq<u8>,
) -> Seq<u8> {
    spec_hmac_computation::<D::Hmac>(
        m.auth_value,
        key_bytes(m.session_key),
        D::Hasher::spec_digest(rp_input),
        nonce_tpm,
        m.nonce_caller,
        m.session_attributes,
    )
}

/// Whether a response authorization has the sizes and attributes that the
/// session expects.
pub open spec fn auth_response_shape_ok<D: AlgoDigest>(
    m: HmacSessionModel,
    auth: AuthResponseModel,
) -> bool {
    &&& auth.nonce.len() == D::Hasher::spec_output_size()
    &&& auth.session_attributes == m.session_attributes
    &&& auth.hmac.len() == D::Hmac::spec_output_size()
}

/// Whether the digest sizes of `D` suit an HMAC session.
pub open spec fn digest_sizes_ok<D: AlgoDigest>() -> bool {
    D::Hasher::spec_output_size() <= 32 && D::Hmac::spec_output_size() <= 64
}

impl<D> HmacSession<D> where D: AlgoDigest {
    /// A session started with the TPM's nonce `nonce_tpm`, authorizing with
    /// `auth_value`; the caller's nonce is empty until the first command.
    pub fn new(
        auth_value: Vec<u8>,
        session_handle: TpmiShAuthSession,
        session_attributes: TpmaSession,
        session_key: Option<Vec<u8>>,
        nonce_tpm: Tpm2bNonce,
    ) -> (r: Self)
        ensures
            r@ == (HmacSessionModel {
                auth_value: auth_value@,
                object_name: None,
                session_handle: session_handle@,
                session_attributes: session_attributes@,
                session_key: match session_key {
                    Some(k) => Some(k@),
                    None => None,
                },
                nonce_caller: Seq::empty(),
                nonce_tpm: nonce_tpm@,
            }),
    {
        HmacSession {
            auth_value,
            object_name: None,
            session_handle,
            session_attributes,
            session_key,
            nonce_caller: Tpm2bDigest::empty(),
            nonce_tpm,
            _p: PhantomData,
        }
    }

    /// Binds the session to the object named `name`: the parameter hash of
    /// each command it authorizes from now on covers the name in place of the
    /// command's handles.
    pub fn set_object_name(&mut self, name: Tpm2bName)
        ensures
            final(self)@ == (HmacSessionModel { object_name: Some(name@), ..old(self)@ }),
    {
        self.object_name = Some(name);
    }

    fn object_name_copy(&self) -> (r: Option<Tpm2bName>)
        ensures
            match r {
                Some(n) => self@.object_name == Some(n@),
                None => self@.object_name is None,
            },
    {
        match &self.object_name {
            Some(n) => Some(n.copy()),
            None => None,
        }
    }

    fn key_slice(&self) -> (k: &[u8])
        ensures
            k@ == key_bytes(self@.session_key),
    {
        match &self.session_key {
            Some(k) => k.as_slice(),
            None => {
                let e: &[u8] = &[];
                assert(e@ =~= Seq::<u8>::empty());
                e
            },
        }
    }

    /// Computes the authorization of a command with the caller's nonce taken
    /// from the first bytes of `random`; `buf` is a work buffer.
    pub fn auth_command_with_nonce<CmdT: TpmCommand>(
        &mut self,
        cmd: &CmdT,
        cmd_handles: &CmdT::Handles,
        buf: &mut [u8],
        random: &[u8],
    ) -> (auth: TpmsAuthCommand)
        requires
            old(self).auth_ready(
                CmdT::Handles::spec_marshal(cmd_handles@).len(),
                CmdT::spec_marshal(cmd@).len(),
                old(buf)@.len(),
            ),
            D::Hasher::spec_output_size() <= random@.len(),
        ensures
            final(self)@ == (HmacSessionModel {
                nonce_caller: random@.take(D::Hasher::spec_output_size() as int),
                ..old(self)@
            }),
            auth@ == final(self).spec_auth_command(
                spec_command_parts::<CmdT>(cmd@, cmd_handles@),
            ),
            auth@.hmac.len() == D::Hmac::spec_output_size(),
            final(buf)@.len() == old(buf)@.len(),
    {
        let nonce_buf = &random[0..D::Hasher::output_size()];
        let nonce = Tpm2bDigest::from_bytes(nonce_buf);
        match nonce {
            Ok(n) => {
                self.nonce_caller = n;
            },
            Err(_) => {
                assert(false);
            },
        }

        let cp = cp_hash::<CmdT, D::Hasher>(cmd, cmd_handles, self.object_name_copy(), buf);
        let cp = match cp {
            Ok(d) => d,
            Err(_) => {
                assert(false);
                Vec::new()
            },
        };

        let auth_val = self.auth_value.as_slice();
        let session_key = self.key_slice();

        let computed_hmac = hmac_computation::<D::Hmac>(
            auth_val,
            session_key,
            cp.as_slice(),
            &self.nonce_caller,
            &self.nonce_tpm,
            &self.session_attributes,
            buf,
        );
        let hmac = match computed_hmac {
            Ok(h) => h,
            Err(_) => {
                assert(false);
                Tpm2bDigest::empty()
            },
        };

        TpmsAuthCommand {
            session_handle: self.session_handle,
            nonce: self.nonce_caller.copy(),
            session_attributes: self.session_attributes,
            hmac,
        }
    }
}

/// Calls `rand::random::<[u8; 32]>()`: 32 bytes from the thread-local
/// generator; nothing is said of their values.
#[verifier::external_body]
fn random_nonce_bytes() -> (r: Vec<u8>)
    ensures
        r@.len() == 32,
{
    rand::random::<[u8; 32]>().to_vec()
}

impl<D> Session for HmacSession<D> where D: AlgoDigest {
    open spec fn auth_ready(&self, handles_len: nat, params_len: nat, len: nat) -> bool {
        &&& digest_sizes_ok::<D>()
        &&& 4 <= len
        &&& handles_len <= len
        &&& params_len <= len
        &&& hmac_scratch_error(
            len,
            key_bytes(self@.session_key).len() + self@.auth_value.len(),
            D::Hasher::spec_output_size() as nat,
            self@.nonce_tpm.len(),
        ) is None
    }

    open spec fn validate_ready(&self, resp_len: nat, auth: AuthResponseModel, len: nat) -> bool {
        (auth_response_shape_ok::<D>(self@, auth) && 4 <= len && resp_len <= len) ==> {
            &&& D::Hmac::spec_output_size() <= 64
            &&& hmac_scratch_error(
                len,
                key_bytes(self@.session_key).len() + self@.auth_value.len(),
                auth.nonce.len(),
                self@.nonce_caller.len(),
            ) is None
        }
    }

    open spec fn response_ready(&self, len: nat) -> bool {
        &&& D::Hmac::spec_output_size() <= 64
        &&& len >= key_bytes(self@.session_key).len() + self@.auth_value.len()
        &&& len >= 2 + D::Hasher::spec_output_size()
        &&& len >= 2 + self@.nonce_caller.len()
    }

    open spec fn spec_auth_command(&self, cmd: CommandParts) -> AuthCommandModel {
        AuthCommandModel {
            session_handle: self@.session_handle,
            nonce: self@.nonce_caller,
            session_attributes: self@.session_attributes,
            hmac: spec_command_hmac::<D>(self@, cmd),
        }
    }

    open spec fn auth_command_len(&self) -> nat {
        (9 + D::Hasher::spec_output_size() + D::Hmac::spec_output_size()) as nat
    }

    open spec fn spec_validate(
        &self,
        rp_input: Seq<u8>,
        resp_len: nat,
        auth: AuthResponseModel,
        len: nat,
    ) -> TssResult<()> {
        if !auth_response_shape_ok::<D>(self@, auth) {
            Err(TssError::Tcs(TssTcsError::BadParameter))
        } else if !(4 <= len && resp_len <= len) {
            Err(TssError::Marshal(MarshalError::Memory))
        } else if auth.hmac == spec_response_hmac::<D>(self@, rp_input, auth.nonce) {
            Ok(())
        } else {
            Err(TssError::Tcs(TssTcsError::BadParameter))
        }
    }

    open spec fn spec_renewed(&self, after: Self) -> bool {
        &&& after@ == (HmacSessionModel { nonce_caller: after@.nonce_caller, ..self@ })
        &&& after@.nonce_caller.len() == D::Hasher::spec_output_size()
    }

    open spec fn spec_accepted(&self, auth: AuthResponseModel, after: Self) -> bool {
        after@ == (HmacSessionModel { nonce_tpm: auth.nonce, ..self@ })
    }

    proof fn lemma_validate_ready(&self, resp_len: nat, auth: AuthResponseModel, len: nat) {
    }

    /// The caller's nonce is renewed with fresh random bytes, then the HMAC
    /// over the command parameter hash, the new nonce, the TPM's nonce and
    /// the session attributes is computed.
    fn get_auth_command<CmdT: TpmCommand>(
        &mut self,
        cmd: &CmdT,
        cmd_handles: &CmdT::Handles,
        buf: &mut [u8],
    ) -> (auth: TpmsAuthCommand) {
        let random = random_nonce_bytes();
        let auth = self.auth_command_with_nonce(cmd, cmd_handles, buf, random.as_slice());
        proof {
            let m = auth@;
            assert(m.nonce.len() == D::Hasher::spec_output_size());
            crate::marshal::lemma_be_u16_roundtrip(m.nonce.len() as u16, Seq::empty());
            crate::marshal::lemma_be_u16_roundtrip(m.hmac.len() as u16, Seq::empty());
            crate::marshal::lemma_be_u32_roundtrip(m.session_handle, Seq::empty());
        }
        auth
    }

    /// Accepts the acknowledgment where its nonce, attributes and HMAC have the
    /// expected shape and the HMAC is the one over the response parameter hash,
    /// the TPM's new nonce, the caller's nonce and the attributes; the TPM's
    /// new nonce is then kept for the next command.
    fn validate_auth_response<CmdT: TpmCommand>(
        &mut self,
        resp: &CmdT::RespT,
        resp_handles: &CmdT::RespHandles,
        auth: &TpmsAuthResponse,
        buf: &mut [u8],
    ) -> (r: TssResult<()>) {
        if auth.nonce.get_size() as usize != D::Hasher::output_size() || auth.session_attributes
            != self.session_attributes || auth.hmac.get_size() as usize != D::Hmac::output_size() {
            return Err(TssError::Tcs(TssTcsError::BadParameter));
        }

        let rp = rp_hash::<CmdT, D::Hasher>(resp, buf)?;

        let auth_val = self.auth_value.as_slice();
        let session_key = self.key_slice();

        let computed_hmac = hmac_computation::<D::Hmac>(
            auth_val,
            session_key,
            rp.as_slice(),
            &auth.nonce,
            &self.nonce_caller,
            &self.session_attributes,
            buf,
        );
        let computed_hmac = match computed_hmac {
            Ok(h) => h,
            Err(_) => {
                assert(false);
                Tpm2bDigest::empty()
            },
        };

        if !bytes_eq(auth.hmac.get_buffer(), computed_hmac.get_buffer()) {
            return Err(TssError::Tcs(TssTcsError::BadParameter));
        }

        self.nonce_tpm = auth.nonce.copy();

        Ok(())
    }
}

/// A placeholder for an absent session: no value of it can exist.
pub struct NoSession {
    inaccessible: (),
}

impl NoSession {
    #[verifier::type_invariant]
    spec fn inv(self) -> bool {
        false
    }
}

impl Session for NoSession {
    open spec fn auth_ready(&self, handles_len: nat, params_len: nat, len: nat) -> bool {
        true
    }

    open spec fn validate_ready(&self, resp_len: nat, auth: AuthResponseModel, len: nat) -> bool {
        true
    }

    open spec fn response_ready(&self, len: nat) -> bool {
        true
    }

    closed spec fn spec_auth_command(&self, cmd: CommandParts) -> AuthCommandModel {
        AuthCommandModel {
            session_handle: 0,
            nonce: Seq::empty(),
            session_attributes: 0,
            hmac: Seq::empty(),
        }
    }

    open spec fn auth_command_len(&self) -> nat {
        0
    }

    closed spec fn spec_validate(
        &self,
        rp_input: Seq<u8>,
        resp_len: nat,
        auth: AuthResponseModel,
        len: nat,
    ) -> TssResult<()> {
        Err(TssError::Tcs(TssTcsError::Unsupported))
    }

    open spec fn spec_renewed(&self, after: Self) -> bool {
        true
    }

    open spec fn spec_accepted(&self, auth: AuthResponseModel, after: Self) -> bool {
        true
    }

    proof fn lemma_validate_ready(&self, resp_len: nat, auth: AuthResponseModel, len: nat) {
    }

    /// Never runs: there is no `NoSession` to call it on.
    fn get_auth_command<CmdT: TpmCommand>(
        &mut self,
        cmd: &CmdT,
        cmd_handles: &CmdT::Handles,
        buf: &mut [u8],
    ) -> (auth: TpmsAuthCommand) {
        proof {
            use_type_invariant(&*self);
            assert(false);
        }
        TpmsAuthCommand {
            session_handle: TpmiShAuthSession(0),
            nonce: Tpm2bNonce::empty(),
            session_attributes: TpmaSession(0),
            hmac: Tpm2bDigest::empty(),
        }
    }

    /// Never runs: there is no `NoSession` to call it on.
    fn validate_auth_response<CmdT: TpmCommand>(
        &mut self,
        resp: &CmdT::RespT,
        resp_handles: &CmdT::RespHandles,
        auth: &TpmsAuthResponse,
        buf: &mut [u8],
    ) -> (r: TssResult<()>) {
        proof {
            use_type_invariant(&*self);
            assert(false);
        }
        Err(TssError::Tcs(TssTcsError::Unsupported))
    }
}

/// An HMAC session accepts an acknowledgment of the expected shape exactly
/// when its HMAC is the one keyed with the session key followed by the
/// authorization value, over the response parameter hash, the TPM's new nonce, the
/// caller's nonce and the session attributes; any other HMAC is refused as a
/// bad parameter.
pub proof fn law_hmac_session_acknowledgment<D: AlgoDigest>(
    session: HmacSession<D>,
    rp_input: Seq<u8>,
    resp_len: nat,
    auth: AuthResponseModel,
    len: nat,
)
    requires
        auth_response_shape_ok::<D>(session@, auth),
        4 <= len,
        resp_len <= len,
    ensures
        auth.hmac == spec_hmac_computation::<D::Hmac>(
            session@.auth_value,
            key_bytes(session@.session_key),
            D::Hasher::spec_digest(rp_input),
            auth.nonce,
            session@.nonce_caller,
            session@.session_attributes,
        ) ==> session.spec_validate(rp_input, resp_len, auth, len) == Ok::<(), TssError>(()),
        auth.hmac != spec_hmac_computation::<D::Hmac>(
            session@.auth_value,
            key_bytes(session@.session_key),
            D::Hasher::spec_digest(rp_input),
            auth.nonce,
            session@.nonce_caller,
            session@.session_attributes,
        ) ==> session.spec_validate(rp_input, resp_len, auth, len) == Err::<(), TssError>(
            TssError::Tcs(TssTcsError::BadParameter),
        ),
{
}

/// An acknowledgment of the wrong shape (nonce or HMAC size, or attributes)
/// is refused as a bad parameter before anything is computed.
pub proof fn law_hmac_session_refuses_shape<D: AlgoDigest>(
    session: HmacSession<D>,
    rp_input: Seq<u8>,
    resp_len: nat,
    auth: AuthResponseModel,
    len: nat,
)
    requires
        !auth_response_shape_ok::<D>(session@, auth),
    ensures
        session.spec_validate(rp_input, resp_len, auth, len) == Err::<(), TssError>(
            TssError::Tcs(TssTcsError::BadParameter),
        ),
{
}

/// A session made by `new` authorizes its first command with the caller's
/// fresh nonce and the TPM's nonce it was made with, under its handle and
/// attributes, keyed with its session key followed by its authorization
/// value.
pub proof fn law_first_authorization<D: AlgoDigest>(
    session: HmacSession<D>,
    auth_value: Seq<u8>,
    session_handle: u32,
    session_attributes: u8,
    session_key: Option<Seq<u8>>,
    nonce_tpm: Seq<u8>,
    renewed: HmacSession<D>,
    cmd: CommandParts,
)
    requires
        session@ == (HmacSessionModel {
            auth_value,
            object_name: None,
            session_handle,
            session_attributes,
            session_key,
            nonce_caller: Seq::empty(),
            nonce_tpm,
        }),
        session.spec_renewed(renewed),
    ensures
        renewed.spec_auth_command(cmd) == (AuthCommandModel {
            session_handle,
            nonce: renewed@.nonce_caller,
            session_attributes,
            hmac: spec_hmac_computation::<D::Hmac>(
                auth_value,
                key_bytes(session_key),
                D::Hasher::spec_digest(spec_cp_input(cmd, None)),
                renewed@.nonce_caller,
                nonce_tpm,
                session_attributes,
            ),
        }),
{
}

/// The state an HMAC session is left in once it accepts an acknowledgment is
/// determined by the session and that acknowledgment alone, the response
/// handles playing no part: it holds the acknowledgment's nonce as the TPM's.
pub proof fn law_acceptance_is_determined<D: AlgoDigest>(
    session: HmacSession<D>,
    auth: AuthResponseModel,
    after1: HmacSession<D>,
    after2: HmacSession<D>,
)
    requires
        session.spec_accepted(auth, after1),
        session.spec_accepted(auth, after2),
    ensures
        after1@ == after2@,
        after1@.nonce_tpm == auth.nonce,
{
}

/// Once an acknowledgment is accepted, the next authorization of the session
/// is computed over the caller's new nonce and the nonce the TPM sent in that
/// acknowledgment, with the same authorization value, key and attributes.
pub proof fn law_nonce_rolling<D: AlgoDigest>(
    before: HmacSession<D>,
    auth: AuthResponseModel,
    accepted: HmacSession<D>,
    next: HmacSession<D>,
    cmd: CommandParts,
)
    requires
        before.spec_accepted(auth, accepted),
        accepted.spec_renewed(next),
    ensures
        next.spec_auth_command(cmd).hmac == spec_hmac_computation::<D::Hmac>(
            before@.auth_value,
            key_bytes(before@.session_key),
            D::Hasher::spec_digest(spec_cp_input(cmd, before@.object_name)),
            next@.nonce_caller,
            auth.nonce,
            before@.session_attributes,
        ),
        next.spec_auth_command(cmd).nonce == next@.nonce_caller,
{
}

} // verus!
