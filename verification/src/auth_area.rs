use vstd::prelude::*;

use crate::crypto::{spec_command_parts, spec_rp_hash_input, CommandParts};
use crate::errors::{MarshalError, TssError, TssResult, TssTcsError};
use crate::marshal::{be_u32, lemma_be_u32_roundtrip, write_bytes, Marshalable, UnmarshalBuf};
use crate::session::Session;
use crate::structures::{AuthResponseModel, TpmsAuthCommand, TpmsAuthResponse};
use crate::types::TpmCommand;

verus! {

/// The length of the size field in front of a session's authorization.
pub const SIZE_LEN: usize = 4;

/// The authorization area of a command: the sessions that authorize it,
/// which write their authorizations into the command and check the
/// acknowledgments in the response.
pub trait AuthorizationArea: Sized {
    /// Whether the area holds any session.
    spec fn spec_has_sessions(&self) -> bool;

    /// Whether the sessions can write their data, into a buffer of `len`
    /// bytes, for a command whose handles and parameters marshal to
    /// `handles_len` and `params_len` bytes.
    spec fn write_ready(&self, handles_len: nat, params_len: nat, len: nat) -> bool;

    /// The length of the session data.
    spec fn session_data_len(&self) -> nat;

    /// The error, if any, of writing the session data into a buffer of `len`
    /// bytes.
    spec fn write_error(&self, len: nat) -> Option<TssError>;

    /// The session data, for the sessions in their current state, of the
    /// command with parts `cmd`.
    spec fn spec_session_data(&self, cmd: CommandParts) -> Seq<u8>;

    /// Whether the sessions can check any acknowledgment with a work buffer of
    /// `len` bytes.
    spec fn read_ready(&self, len: nat) -> bool;

    /// Reading and checking the acknowledgments at the front of `bytes` for a
    /// response whose parameter hash covers `rp_input`, with response
    /// parameters of `resp_len` bytes and a work buffer of `len` bytes: the
    /// number of bytes they take, or the error.
    spec fn spec_read(
        &self,
        rp_input: Seq<u8>,
        resp_len: nat,
        bytes: Seq<u8>,
        len: nat,
    ) -> TssResult<int>;

    /// Whether `after` is the area once it has written its session data into
    /// a buffer of `len` bytes.
    spec fn spec_written(&self, len: nat, after: Self) -> bool;

    /// Whether writing the session data into a buffer of `len` bytes leaves
    /// the buffer as it was: nothing to write, or a failure before anything is
    /// written.
    spec fn spec_leaves_buffer(&self, len: nat) -> bool;

    /// Whether `after` is the area once it has read and checked the
    /// acknowledgments at the front of `bytes`, as in `spec_read`.
    spec fn spec_read_after(
        &self,
        rp_input: Seq<u8>,
        resp_len: nat,
        bytes: Seq<u8>,
        len: nat,
        after: Self,
    ) -> bool;

    /// The number of bytes at the front of `bytes` that reading the
    /// acknowledgments consumes, accepted or refused, where each one read
    /// parses.
    spec fn spec_read_cursor(
        &self,
        rp_input: Seq<u8>,
        resp_len: nat,
        bytes: Seq<u8>,
        len: nat,
    ) -> Option<int>;

    fn has_sessions(&self) -> (b: bool)
        ensures
            b == self.spec_has_sessions(),
    ;

    /// Writes the session data of a command at the start of `buf` and returns
    /// its length.
    fn write_session_data<CmdT: TpmCommand>(
        &mut self,
        cmd: &CmdT,
        handles: &CmdT::Handles,
        buf: &mut [u8],
    ) -> (r: TssResult<usize>)
        requires
            old(self).write_ready(
                CmdT::Handles::spec_marshal(handles@).len(),
                CmdT::spec_marshal(cmd@).len(),
                old(buf)@.len(),
            ),
        ensures
            final(buf)@.len() == old(buf)@.len(),
            old(self).spec_written(old(buf)@.len(), *final(self)),
            old(self).spec_leaves_buffer(old(buf)@.len()) ==> final(buf)@ == old(buf)@,
            final(self).spec_has_sessions() == old(self).spec_has_sessions(),
            final(self).session_data_len() == old(self).session_data_len(),
            forall|len: nat| #[trigger]
                old(self).read_ready(len) ==> final(self).read_ready(len),
            match old(self).write_error(old(buf)@.len()) {
                Some(e) => r == Err::<usize, TssError>(e),
                None => r matches Ok(n) && {
                    &&& n == old(self).session_data_len()
                    &&& n <= old(buf)@.len()
                    &&& final(buf)@.take(n as int) == final(self).spec_session_data(
                        spec_command_parts::<CmdT>(cmd@, handles@),
                    )
                },
            },
    ;

    /// Reads and checks the acknowledgments of a response from `unmarsh`;
    /// `wrk_buf` is a work buffer.
    fn read_response_data<CmdT: TpmCommand>(
        &mut self,
        resp: &CmdT::RespT,
        resp_handles: &CmdT::RespHandles,
        unmarsh: &mut UnmarshalBuf,
        wrk_buf: &mut [u8],
    ) -> (r: TssResult<()>)
        requires
            old(self).read_ready(old(wrk_buf)@.len()),
        ensures
            final(wrk_buf)@.len() == old(wrk_buf)@.len(),
            final(self).spec_has_sessions() == old(self).spec_has_sessions(),
            final(self).session_data_len() == old(self).session_data_len(),
            forall|len: nat| #[trigger]
                old(self).read_ready(len) ==> final(self).read_ready(len),
            old(self).spec_read_after(
                spec_rp_hash_input::<CmdT>(resp@),
                CmdT::RespT::spec_marshal(resp@).len(),
                old(unmarsh)@,
                old(wrk_buf)@.len(),
                *final(self),
            ),
            old(self).spec_read_cursor(
                spec_rp_hash_input::<CmdT>(resp@),
                CmdT::RespT::spec_marshal(resp@).len(),
                old(unmarsh)@,
                old(wrk_buf)@.len(),
            ) matches Some(n) ==> 0 <= n <= old(unmarsh)@.len() && final(unmarsh)@ == old(
                unmarsh,
            )@.skip(n),
            match old(self).spec_read(
                spec_rp_hash_input::<CmdT>(resp@),
                CmdT::RespT::spec_marshal(resp@).len(),
                old(unmarsh)@,
                old(wrk_buf)@.len(),
            ) {
                Ok(n) => r is Ok && 0 <= n <= old(unmarsh)@.len() && final(unmarsh)@ == old(
                    unmarsh,
                )@.skip(n),
                Err(e) => r == Err::<(), TssError>(e),
            },
    ;
}

/// No session: nothing is written and nothing is read.
impl AuthorizationArea for () {
    open spec fn spec_has_sessions(&self) -> bool {
        false
    }

    open spec fn write_ready(&self, handles_len: nat, params_len: nat, len: nat) -> bool {
        true
    }

    open spec fn session_data_len(&self) -> nat {
        0
    }

    open spec fn write_error(&self, len: nat) -> Option<TssError> {
        None
    }

    open spec fn spec_session_data(&self, cmd: CommandParts) -> Seq<u8> {
        Seq::empty()
    }

    open spec fn read_ready(&self, len: nat) -> bool {
        true
    }

    open spec fn spec_read(
        &self,
        rp_input: Seq<u8>,
        resp_len: nat,
        bytes: Seq<u8>,
        len: nat,
    ) -> TssResult<int> {
        Ok(0)
    }

    open spec fn spec_written(&self, len: nat, after: Self) -> bool {
        true
    }

    open spec fn spec_leaves_buffer(&self, len: nat) -> bool {
        true
    }

    open spec fn spec_read_after(
        &self,
        rp_input: Seq<u8>,
        resp_len: nat,
        bytes: Seq<u8>,
        len: nat,
        after: Self,
    ) -> bool {
        true
    }

    open spec fn spec_read_cursor(
        &self,
        rp_input: Seq<u8>,
        resp_len: nat,
        bytes: Seq<u8>,
        len: nat,
    ) -> Option<int> {
        Some(0)
    }

    fn has_sessions(&self) -> (b: bool) {
        false
    }

    fn write_session_data<CmdT: TpmCommand>(
        &mut self,
        _cmd: &CmdT,
        _handles: &CmdT::Handles,
        buf: &mut [u8],
    ) -> (r: TssResult<usize>) {
        assert(buf@.take(0) =~= Seq::<u8>::empty());
        Ok(0)
    }

    fn read_response_data<CmdT: TpmCommand>(
        &mut self,
        _resp: &CmdT::RespT,
        _resp_handles: &CmdT::RespHandles,
        unmarsh: &mut UnmarshalBuf,
        _wrk_buf: &mut [u8],
    ) -> (r: TssResult<()>) {
        assert(unmarsh@.skip(0) =~= unmarsh@);
        Ok(())
    }
}

/// A single session: its data is the length of its authorization followed
/// by the authorization.
impl<T: Session> AuthorizationArea for T {
    open spec fn spec_has_sessions(&self) -> bool {
        true
    }

    open spec fn write_ready(&self, handles_len: nat, params_len: nat, len: nat) -> bool {
        len >= SIZE_LEN ==> self.auth_ready(handles_len, params_len, len)
    }

    open spec fn session_data_len(&self) -> nat {
        (SIZE_LEN + self.auth_command_len()) as nat
    }

    open spec fn write_error(&self, len: nat) -> Option<TssError> {
        if len < SIZE_LEN {
            Some(TssError::Tcs(TssTcsError::OutOfMemory))
        } else if len < SIZE_LEN + self.auth_command_len() {
            Some(TssError::Marshal(MarshalError::Memory))
        } else {
            None
        }
    }

    open spec fn spec_session_data(&self, cmd: CommandParts) -> Seq<u8> {
        be_u32(self.auth_command_len() as u32) + TpmsAuthCommand::spec_marshal(
            self.spec_auth_command(cmd),
        )
    }

    open spec fn read_ready(&self, len: nat) -> bool {
        self.response_ready(len)
    }

    open spec fn spec_read(
        &self,
        rp_input: Seq<u8>,
        resp_len: nat,
        bytes: Seq<u8>,
        len: nat,
    ) -> TssResult<int> {
        match TpmsAuthResponse::spec_unmarshal(bytes) {
            Err(e) => Err(TssError::Marshal(e)),
            Ok((auth, n)) => match self.spec_validate(rp_input, resp_len, auth, len) {
                Ok(_) => Ok(n),
                Err(e) => Err(e),
            },
        }
    }

    open spec fn spec_written(&self, len: nat, after: Self) -> bool {
        if len < SIZE_LEN {
            after == *self
        } else {
            self.spec_renewed(after)
        }
    }

    open spec fn spec_leaves_buffer(&self, len: nat) -> bool {
        len < SIZE_LEN
    }

    open spec fn spec_read_after(
        &self,
        rp_input: Seq<u8>,
        resp_len: nat,
        bytes: Seq<u8>,
        len: nat,
        after: Self,
    ) -> bool {
        match TpmsAuthResponse::spec_unmarshal(bytes) {
            Err(_) => after == *self,
            Ok((auth, _)) => match self.spec_validate(rp_input, resp_len, auth, len) {
                Ok(_) => self.spec_accepted(auth, after),
                Err(_) => after == *self,
            },
        }
    }

    open spec fn spec_read_cursor(
        &self,
        rp_input: Seq<u8>,
        resp_len: nat,
        bytes: Seq<u8>,
        len: nat,
    ) -> Option<int> {
        match TpmsAuthResponse::spec_unmarshal(bytes) {
            Err(_) => None,
            Ok((_, n)) => Some(n),
        }
    }

    fn has_sessions(&self) -> (b: bool) {
        true
    }

    fn write_session_data<CmdT: TpmCommand>(
        &mut self,
        cmd: &CmdT,
        handles: &CmdT::Handles,
        buf: &mut [u8],
    ) -> (r: TssResult<usize>) {
        if buf.len() < SIZE_LEN {
            return Err(TssError::Tcs(TssTcsError::OutOfMemory));
        }

        // The authorization goes after its size field.
        let auth = self.get_auth_command(cmd, handles, buf);
        let mut bytes: Vec<u8> = Vec::new();
        auth.marshal(&mut bytes);
        let n = write_bytes(buf, SIZE_LEN, bytes.as_slice())?;

        // The size field goes before the authorization.
        let size = n as u32;
        let mut size_bytes: Vec<u8> = Vec::new();
        size.marshal(&mut size_bytes);
        let _ = write_bytes(buf, 0, size_bytes.as_slice());
        proof {
            lemma_be_u32_roundtrip(size, Seq::empty());
            assert(buf@.take((SIZE_LEN + n) as int) =~= final(self).spec_session_data(
                spec_command_parts::<CmdT>(cmd@, handles@),
            ));
        }

        Ok(SIZE_LEN + n)
    }

    fn read_response_data<CmdT: TpmCommand>(
        &mut self,
        resp: &CmdT::RespT,
        resp_handles: &CmdT::RespHandles,
        unmarsh: &mut UnmarshalBuf,
        wrk_buf: &mut [u8],
    ) -> (r: TssResult<()>) {
        proof {
            TpmsAuthResponse::lemma_marshal_unmarshal(unmarsh@);
        }
        let auth = TpmsAuthResponse::try_unmarshal(unmarsh)?;
        proof {
            self.lemma_validate_ready(
                CmdT::RespT::spec_marshal(resp@).len(),
                auth@,
                wrk_buf@.len(),
            );
        }
        self.validate_auth_response::<CmdT>(resp, resp_handles, &auth, wrk_buf)?;

        Ok(())
    }
}

/// One session in an array.
impl<T: Session> AuthorizationArea for [T; 1] {
    open spec fn spec_has_sessions(&self) -> bool {
        self@[0].spec_has_sessions()
    }

    open spec fn write_ready(&self, handles_len: nat, params_len: nat, len: nat) -> bool {
        self@[0].write_ready(handles_len, params_len, len)
    }

    open spec fn session_data_len(&self) -> nat {
        self@[0].session_data_len()
    }

    open spec fn write_error(&self, len: nat) -> Option<TssError> {
        self@[0].write_error(len)
    }

    open spec fn spec_session_data(&self, cmd: CommandParts) -> Seq<u8> {
        self@[0].spec_session_data(cmd)
    }

    open spec fn read_ready(&self, len: nat) -> bool {
        self@[0].read_ready(len)
    }

    open spec fn spec_read(
        &self,
        rp_input: Seq<u8>,
        resp_len: nat,
        bytes: Seq<u8>,
        len: nat,
    ) -> TssResult<int> {
        self@[0].spec_read(rp_input, resp_len, bytes, len)
    }

    open spec fn spec_written(&self, len: nat, after: Self) -> bool {
        self@[0].spec_written(len, after@[0])
    }

    open spec fn spec_leaves_buffer(&self, len: nat) -> bool {
        self@[0].spec_leaves_buffer(len)
    }

    open spec fn spec_read_after(
        &self,
        rp_input: Seq<u8>,
        resp_len: nat,
        bytes: Seq<u8>,
        len: nat,
        after: Self,
    ) -> bool {
        self@[0].spec_read_after(rp_input, resp_len, bytes, len, after@[0])
    }

    open spec fn spec_read_cursor(
        &self,
        rp_input: Seq<u8>,
        resp_len: nat,
        bytes: Seq<u8>,
        len: nat,
    ) -> Option<int> {
        self@[0].spec_read_cursor(rp_input, resp_len, bytes, len)
    }

    fn has_sessions(&self) -> (b: bool) {
        self[0].has_sessions()
    }

    fn write_session_data<CmdT: TpmCommand>(
        &mut self,
        cmd: &CmdT,
        handles: &CmdT::Handles,
        buf: &mut [u8],
    ) -> (r: TssResult<usize>) {
        self[0].write_session_data(cmd, handles, buf)
    }

    fn read_response_data<CmdT: TpmCommand>(
        &mut self,
        resp: &CmdT::RespT,
        resp_handles: &CmdT::RespHandles,
        unmarsh: &mut UnmarshalBuf,
        wrk_buf: &mut [u8],
    ) -> (r: TssResult<()>) {
        self[0].read_response_data::<CmdT>(resp, resp_handles, unmarsh, wrk_buf)
    }
}

/// Reading the acknowledgments of two sessions in turn.
pub open spec fn spec_read_two<T: Session>(
    a: T,
    b: T,
    rp_input: Seq<u8>,
    resp_len: nat,
    bytes: Seq<u8>,
    len: nat,
) -> TssResult<int> {
    match a.spec_read(rp_input, resp_len, bytes, len) {
        Err(e) => Err(e),
        Ok(n0) => match b.spec_read(rp_input, resp_len, bytes.skip(n0), len) {
            Err(e) => Err(e),
            Ok(n1) => Ok(n0 + n1),
        },
    }
}

/// Whether `a2` and `b2` are the sessions `a` and `b` once they have read
/// their acknowledgments in turn: `b` reads only where `a` accepted.
pub open spec fn spec_read_after_two<T: Session>(
    a: T,
    b: T,
    rp_input: Seq<u8>,
    resp_len: nat,
    bytes: Seq<u8>,
    len: nat,
    a2: T,
    b2: T,
) -> bool {
    &&& a.spec_read_after(rp_input, resp_len, bytes, len, a2)
    &&& match a.spec_read(rp_input, resp_len, bytes, len) {
        Ok(n0) => b.spec_read_after(rp_input, resp_len, bytes.skip(n0), len, b2),
        Err(_) => b2 == b,
    }
}

/// The bytes that two sessions consume reading their acknowledgments in turn.
pub open spec fn spec_read_cursor_two<T: Session>(
    a: T,
    b: T,
    rp_input: Seq<u8>,
    resp_len: nat,
    bytes: Seq<u8>,
    len: nat,
) -> Option<int> {
    match a.spec_read(rp_input, resp_len, bytes, len) {
        Ok(n0) => match b.spec_read_cursor(rp_input, resp_len, bytes.skip(n0), len) {
            Some(n1) => Some(n0 + n1),
            None => None,
        },
        Err(_) => a.spec_read_cursor(rp_input, resp_len, bytes, len),
    }
}

/// Whether `a2` and `b2` are the sessions `a` and `b` once they have written
/// their data in turn into a buffer of `len` bytes: `b` writes only where
/// `a` succeeded.
pub open spec fn spec_written_two<T: Session>(a: T, b: T, len: nat, a2: T, b2: T) -> bool {
    &&& a.spec_written(len, a2)
    &&& if a.write_error(len) is Some {
        b2 == b
    } else {
        b.spec_written((len - a.session_data_len()) as nat, b2)
    }
}

/// Two sessions: their data one after the other.
impl<T: Session> AuthorizationArea for [T; 2] {
    open spec fn spec_has_sessions(&self) -> bool {
        self@[0].spec_has_sessions() || self@[1].spec_has_sessions()
    }

    open spec fn write_ready(&self, handles_len: nat, params_len: nat, len: nat) -> bool {
        &&& self@[0].write_ready(handles_len, params_len, len)
        &&& self@[0].write_error(len) is None ==> self@[1].write_ready(
            handles_len,
            params_len,
            (len - self@[0].session_data_len()) as nat,
        )
    }

    open spec fn session_data_len(&self) -> nat {
        self@[0].session_data_len() + self@[1].session_data_len()
    }

    open spec fn write_error(&self, len: nat) -> Option<TssError> {
        match self@[0].write_error(len) {
            Some(e) => Some(e),
            None => self@[1].write_error((len - self@[0].session_data_len()) as nat),
        }
    }

    open spec fn spec_session_data(&self, cmd: CommandParts) -> Seq<u8> {
        self@[0].spec_session_data(cmd) + self@[1].spec_session_data(cmd)
    }

    open spec fn read_ready(&self, len: nat) -> bool {
        self@[0].read_ready(len) && self@[1].read_ready(len)
    }

    open spec fn spec_read(
        &self,
        rp_input: Seq<u8>,
        resp_len: nat,
        bytes: Seq<u8>,
        len: nat,
    ) -> TssResult<int> {
        spec_read_two(self@[0], self@[1], rp_input, resp_len, bytes, len)
    }

    open spec fn spec_written(&self, len: nat, after: Self) -> bool {
        spec_written_two(self@[0], self@[1], len, after@[0], after@[1])
    }

    open spec fn spec_leaves_buffer(&self, len: nat) -> bool {
        self@[0].spec_leaves_buffer(len)
    }

    open spec fn spec_read_after(
        &self,
        rp_input: Seq<u8>,
        resp_len: nat,
        bytes: Seq<u8>,
        len: nat,
        after: Self,
    ) -> bool {
        spec_read_after_two(self@[0], self@[1], rp_input, resp_len, bytes, len, after@[0], after@[1])
    }

    open spec fn spec_read_cursor(
        &self,
        rp_input: Seq<u8>,
        resp_len: nat,
        bytes: Seq<u8>,
        len: nat,
    ) -> Option<int> {
        spec_read_cursor_two(self@[0], self@[1], rp_input, resp_len, bytes, len)
    }

    fn has_sessions(&self) -> (b: bool) {
        self[0].has_sessions() || self[1].has_sessions()
    }

    fn write_session_data<CmdT: TpmCommand>(
        &mut self,
        cmd: &CmdT,
        handles: &CmdT::Handles,
        buf: &mut [u8],
    ) -> (r: TssResult<usize>) {
        let n0 = self[0].write_session_data(cmd, handles, buf)?;
        let ghost first = buf@;
        let rest_len = buf.len() - n0;
        let mut rest: Vec<u8> = vec![0u8; rest_len];
        let n1 = self[1].write_session_data(cmd, handles, rest.as_mut_slice())?;
        let _ = write_bytes(buf, n0, &rest[0..n1]);
        proof {
            assert(buf@.take((n0 + n1) as int) =~= first.take(n0 as int) + rest@.take(n1 as int));
        }
        Ok(n0 + n1)
    }

    fn read_response_data<CmdT: TpmCommand>(
        &mut self,
        resp: &CmdT::RespT,
        resp_handles: &CmdT::RespHandles,
        unmarsh: &mut UnmarshalBuf,
        wrk_buf: &mut [u8],
    ) -> (r: TssResult<()>) {
        let ghost start = unmarsh@;
        self[0].read_response_data::<CmdT>(resp, resp_handles, unmarsh, wrk_buf)?;
        let ghost mid = unmarsh@;
        let r = self[1].read_response_data::<CmdT>(resp, resp_handles, unmarsh, wrk_buf);
        proof {
            if r is Ok {
                assert(mid.len() == start.len() - (start.len() - mid.len()));
                assert(start.skip(start.len() - mid.len()) == mid);
                assert(unmarsh@ =~= start.skip(start.len() - unmarsh@.len()));
            }
        }
        r
    }
}

/// Three sessions: their data one after the other.
impl<T: Session> AuthorizationArea for [T; 3] {
    open spec fn spec_has_sessions(&self) -> bool {
        self@[0].spec_has_sessions() || self@[1].spec_has_sessions()
            || self@[2].spec_has_sessions()
    }

    open spec fn write_ready(&self, handles_len: nat, params_len: nat, len: nat) -> bool {
        let n0 = self@[0].session_data_len();
        let n1 = self@[1].session_data_len();
        &&& self@[0].write_ready(handles_len, params_len, len)
        &&& self@[0].write_error(len) is None ==> self@[1].write_ready(
            handles_len,
            params_len,
            (len - n0) as nat,
        )
        &&& (self@[0].write_error(len) is None && self@[1].write_error((len - n0) as nat) is None)
            ==> self@[2].write_ready(handles_len, params_len, (len - n0 - n1) as nat)
    }

    open spec fn session_data_len(&self) -> nat {
        self@[0].session_data_len() + self@[1].session_data_len() + self@[2].session_data_len()
    }

    open spec fn write_error(&self, len: nat) -> Option<TssError> {
        let n0 = self@[0].session_data_len();
        let n1 = self@[1].session_data_len();
        match self@[0].write_error(len) {
            Some(e) => Some(e),
            None => match self@[1].write_error((len - n0) as nat) {
                Some(e) => Some(e),
                None => self@[2].write_error((len - n0 - n1) as nat),
            },
        }
    }

    open spec fn spec_session_data(&self, cmd: CommandParts) -> Seq<u8> {
        self@[0].spec_session_data(cmd) + self@[1].spec_session_data(cmd)
            + self@[2].spec_session_data(cmd)
    }

    open spec fn read_ready(&self, len: nat) -> bool {
        self@[0].read_ready(len) && self@[1].read_ready(len) && self@[2].read_ready(len)
    }

    open spec fn spec_read(
        &self,
        rp_input: Seq<u8>,
        resp_len: nat,
        bytes: Seq<u8>,
        len: nat,
    ) -> TssResult<int> {
        match self@[0].spec_read(rp_input, resp_len, bytes, len) {
            Err(e) => Err(e),
            Ok(n0) => match spec_read_two(
                self@[1],
                self@[2],
                rp_input,
                resp_len,
                bytes.skip(n0),
                len,
            ) {
                Err(e) => Err(e),
                Ok(n1) => Ok(n0 + n1),
            },
        }
    }

    open spec fn spec_written(&self, len: nat, after: Self) -> bool {
        &&& self@[0].spec_written(len, after@[0])
        &&& if self@[0].write_error(len) is Some {
            after@[1] == self@[1] && after@[2] == self@[2]
        } else {
            spec_written_two(
                self@[1],
                self@[2],
                (len - self@[0].session_data_len()) as nat,
                after@[1],
                after@[2],
            )
        }
    }

    open spec fn spec_leaves_buffer(&self, len: nat) -> bool {
        self@[0].spec_leaves_buffer(len)
    }

    open spec fn spec_read_after(
        &self,
        rp_input: Seq<u8>,
        resp_len: nat,
        bytes: Seq<u8>,
        len: nat,
        after: Self,
    ) -> bool {
        &&& self@[0].spec_read_after(rp_input, resp_len, bytes, len, after@[0])
        &&& match self@[0].spec_read(rp_input, resp_len, bytes, len) {
            Ok(n0) => spec_read_after_two(
                self@[1],
                self@[2],
                rp_input,
                resp_len,
                bytes.skip(n0),
                len,
                after@[1],
                after@[2],
            ),
            Err(_) => after@[1] == self@[1] && after@[2] == self@[2],
        }
    }

    open spec fn spec_read_cursor(
        &self,
        rp_input: Seq<u8>,
        resp_len: nat,
        bytes: Seq<u8>,
        len: nat,
    ) -> Option<int> {
        match self@[0].spec_read(rp_input, resp_len, bytes, len) {
            Ok(n0) => match spec_read_cursor_two(
                self@[1],
                self@[2],
                rp_input,
                resp_len,
                bytes.skip(n0),
                len,
            ) {
                Some(n1) => Some(n0 + n1),
                None => None,
            },
            Err(_) => self@[0].spec_read_cursor(rp_input, resp_len, bytes, len),
        }
    }

    fn has_sessions(&self) -> (b: bool) {
        self[0].has_sessions() || self[1].has_sessions() || self[2].has_sessions()
    }

    fn write_session_data<CmdT: TpmCommand>(
        &mut self,
        cmd: &CmdT,
        handles: &CmdT::Handles,
        buf: &mut [u8],
    ) -> (r: TssResult<usize>) {
        let n0 = self[0].write_session_data(cmd, handles, buf)?;
        let ghost first = buf@;
        let rest_len = buf.len() - n0;
        let mut rest: Vec<u8> = vec![0u8; rest_len];
        let n1 = self[1].write_session_data(cmd, handles, rest.as_mut_slice())?;
        let _ = write_bytes(buf, n0, &rest[0..n1]);
        let ghost second = buf@;
        proof {
            assert(second.take((n0 + n1) as int) =~= first.take(n0 as int) + rest@.take(
                n1 as int,
            ));
        }
        let rest_len2 = buf.len() - n0 - n1;
        let mut rest2: Vec<u8> = vec![0u8; rest_len2];
        let n2 = self[2].write_session_data(cmd, handles, rest2.as_mut_slice())?;
        let _ = write_bytes(buf, n0 + n1, &rest2[0..n2]);
        proof {
            assert(buf@.take((n0 + n1 + n2) as int) =~= second.take((n0 + n1) as int)
                + rest2@.take(n2 as int));
        }
        Ok(n0 + n1 + n2)
    }

    fn read_response_data<CmdT: TpmCommand>(
        &mut self,
        resp: &CmdT::RespT,
        resp_handles: &CmdT::RespHandles,
        unmarsh: &mut UnmarshalBuf,
        wrk_buf: &mut [u8],
    ) -> (r: TssResult<()>) {
        let ghost start = unmarsh@;
        self[0].read_response_data::<CmdT>(resp, resp_handles, unmarsh, wrk_buf)?;
        let ghost mid = unmarsh@;
        let r1 = self[1].read_response_data::<CmdT>(resp, resp_handles, unmarsh, wrk_buf);
        if r1.is_err() {
            return r1;
        }
        let ghost mid2 = unmarsh@;
        let r = self[2].read_response_data::<CmdT>(resp, resp_handles, unmarsh, wrk_buf);
        proof {
            if r is Ok {
                assert(start.skip(start.len() - mid.len()) == mid);
                assert(mid.skip(mid.len() - mid2.len()) == mid2);
                assert(mid.skip(mid.len() - unmarsh@.len()) =~= start.skip(
                    start.len() - unmarsh@.len(),
                ));
            }
        }
        r
    }
}

/// The session data of a single session is the length of its authorization
/// as a big-endian `u32`, followed by its marshalled authorization.
pub proof fn law_session_data_of_one_session<T: Session>(session: T, cmd: CommandParts)
    ensures
        session.spec_session_data(cmd) == be_u32(session.auth_command_len() as u32)
            + TpmsAuthCommand::spec_marshal(session.spec_auth_command(cmd)),
{
}

/// The session data of an array of sessions is each session's size-prefixed
/// authorization, in index order.
pub proof fn law_session_data_in_index_order<T: Session>(
    one: [T; 1],
    two: [T; 2],
    three: [T; 3],
    cmd: CommandParts,
)
    ensures
        one.spec_session_data(cmd) == be_u32(one@[0].auth_command_len() as u32)
            + TpmsAuthCommand::spec_marshal(one@[0].spec_auth_command(cmd)),
        two.spec_session_data(cmd) == be_u32(two@[0].auth_command_len() as u32)
            + TpmsAuthCommand::spec_marshal(two@[0].spec_auth_command(cmd)) + be_u32(
            two@[1].auth_command_len() as u32,
        ) + TpmsAuthCommand::spec_marshal(two@[1].spec_auth_command(cmd)),
        three.spec_session_data(cmd) == be_u32(three@[0].auth_command_len() as u32)
            + TpmsAuthCommand::spec_marshal(three@[0].spec_auth_command(cmd)) + be_u32(
            three@[1].auth_command_len() as u32,
        ) + TpmsAuthCommand::spec_marshal(three@[1].spec_auth_command(cmd)) + be_u32(
            three@[2].auth_command_len() as u32,
        ) + TpmsAuthCommand::spec_marshal(three@[2].spec_auth_command(cmd)),
{
    let a = two@[0].spec_session_data(cmd);
    let b = two@[1].spec_session_data(cmd);
    assert(two.spec_session_data(cmd) =~= a + b);
    let x = three@[0].spec_session_data(cmd);
    let y = three@[1].spec_session_data(cmd);
    let z = three@[2].spec_session_data(cmd);
    assert(three.spec_session_data(cmd) =~= x + y + z);
}

/// A single session reads the acknowledgment at the front of the bytes: its
/// outcome is the session's verdict on that acknowledgment, consuming
/// exactly its encoding; once accepted, the session holds the accepted
/// state, and it is unchanged where it refuses.
pub proof fn law_one_session_checks_its_acknowledgment<T: Session>(
    session: T,
    rp_input: Seq<u8>,
    resp_len: nat,
    ack: AuthResponseModel,
    rest: Seq<u8>,
    len: nat,
    after: T,
)
    requires
        TpmsAuthResponse::spec_wf(ack),
    ensures
        session.spec_read(rp_input, resp_len, TpmsAuthResponse::spec_marshal(ack) + rest, len)
            == match session.spec_validate(rp_input, resp_len, ack, len) {
            Err(e) => Err::<int, TssError>(e),
            Ok(_) => Ok(TpmsAuthResponse::spec_marshal(ack).len() as int),
        },
        session.spec_read_after(
            rp_input,
            resp_len,
            TpmsAuthResponse::spec_marshal(ack) + rest,
            len,
            after,
        ) == match session.spec_validate(rp_input, resp_len, ack, len) {
            Err(_) => after == session,
            Ok(_) => session.spec_accepted(ack, after),
        },
{
    TpmsAuthResponse::lemma_unmarshal_marshal(ack, rest);
}

/// Two sessions check the acknowledgments in index order: the first session
/// checks the first acknowledgment, and only where it accepts does the
/// second session check the second; where both accept, both
/// acknowledgments are consumed and each session holds the state of having
/// accepted its own.
pub proof fn law_two_sessions_check_acknowledgments_in_order<T: Session>(
    sessions: [T; 2],
    rp_input: Seq<u8>,
    resp_len: nat,
    ack0: AuthResponseModel,
    ack1: AuthResponseModel,
    rest: Seq<u8>,
    len: nat,
    after: [T; 2],
)
    requires
        TpmsAuthResponse::spec_wf(ack0),
        TpmsAuthResponse::spec_wf(ack1),
    ensures
        ({
            let m0 = TpmsAuthResponse::spec_marshal(ack0);
            let m1 = TpmsAuthResponse::spec_marshal(ack1);
            let bytes = m0 + m1 + rest;
            &&& sessions.spec_read(rp_input, resp_len, bytes, len) == match sessions@[0].spec_validate(
                rp_input,
                resp_len,
                ack0,
                len,
            ) {
                Err(e) => Err::<int, TssError>(e),
                Ok(_) => match sessions@[1].spec_validate(rp_input, resp_len, ack1, len) {
                    Err(e) => Err::<int, TssError>(e),
                    Ok(_) => Ok((m0.len() + m1.len()) as int),
                },
            }
            &&& (sessions@[0].spec_validate(rp_input, resp_len, ack0, len) is Ok
                && sessions@[1].spec_validate(rp_input, resp_len, ack1, len) is Ok) ==> (
            sessions.spec_read_after(rp_input, resp_len, bytes, len, after) <==> (
            sessions@[0].spec_accepted(ack0, after@[0]) && sessions@[1].spec_accepted(
                ack1,
                after@[1],
            )))
        }),
{
    let m0 = TpmsAuthResponse::spec_marshal(ack0);
    let m1 = TpmsAuthResponse::spec_marshal(ack1);
    let bytes = m0 + m1 + rest;
    assert(bytes =~= m0 + (m1 + rest));
    law_one_session_checks_its_acknowledgment(
        sessions@[0],
        rp_input,
        resp_len,
        ack0,
        m1 + rest,
        len,
        after@[0],
    );
    assert(bytes.skip(m0.len() as int) =~= m1 + rest);
    law_one_session_checks_its_acknowledgment(
        sessions@[1],
        rp_input,
        resp_len,
        ack1,
        rest,
        len,
        after@[1],
    );
}

#[verifier::spinoff_prover]
#[verifier::rlimit(80)]
/// Three sessions check the acknowledgments in index order: session `i`
/// checks acknowledgment `i`, each only where the ones before accepted;
/// where all accept, all three acknowledgments are consumed and each
/// session holds the state of having accepted its own.
pub proof fn law_three_sessions_check_acknowledgments_in_order<T: Session>(
    sessions: [T; 3],
    rp_input: Seq<u8>,
    resp_len: nat,
    ack0: AuthResponseModel,
    ack1: AuthResponseModel,
    ack2: AuthResponseModel,
    rest: Seq<u8>,
    len: nat,
    after: [T; 3],
)
    requires
        TpmsAuthResponse::spec_wf(ack0),
        TpmsAuthResponse::spec_wf(ack1),
        TpmsAuthResponse::spec_wf(ack2),
    ensures
        ({
            let m0 = TpmsAuthResponse::spec_marshal(ack0);
            let m1 = TpmsAuthResponse::spec_marshal(ack1);
            let m2 = TpmsAuthResponse::spec_marshal(ack2);
            let bytes = m0 + m1 + m2 + rest;
            &&& sessions.spec_read(rp_input, resp_len, bytes, len) == match sessions@[0].spec_validate(
                rp_input,
                resp_len,
                ack0,
                len,
            ) {
                Err(e) => Err::<int, TssError>(e),
                Ok(_) => match sessions@[1].spec_validate(rp_input, resp_len, ack1, len) {
                    Err(e) => Err::<int, TssError>(e),
                    Ok(_) => match sessions@[2].spec_validate(rp_input, resp_len, ack2, len) {
                        Err(e) => Err::<int, TssError>(e),
                        Ok(_) => Ok((m0.len() + m1.len() + m2.len()) as int),
                    },
                },
            }
            &&& (sessions@[0].spec_validate(rp_input, resp_len, ack0, len) is Ok
                && sessions@[1].spec_validate(rp_input, resp_len, ack1, len) is Ok
                && sessions@[2].spec_validate(rp_input, resp_len, ack2, len) is Ok) ==> (
            sessions.spec_read_after(rp_input, resp_len, bytes, len, after) <==> (
            sessions@[0].spec_accepted(ack0, after@[0]) && sessions@[1].spec_accepted(
                ack1,
                after@[1],
            ) && sessions@[2].spec_accepted(ack2, after@[2])))
        }),
{
    let m0 = TpmsAuthResponse::spec_marshal(ack0);
    let m1 = TpmsAuthResponse::spec_marshal(ack1);
    let m2 = TpmsAuthResponse::spec_marshal(ack2);
    let bytes = m0 + m1 + m2 + rest;
    assert(bytes =~= m0 + (m1 + m2 + rest));
    law_one_session_checks_its_acknowledgment(
        sessions@[0],
        rp_input,
        resp_len,
        ack0,
        m1 + m2 + rest,
        len,
        after@[0],
    );
    let b1 = bytes.skip(m0.len() as int);
    assert(b1 =~= m1 + (m2 + rest));
    law_one_session_checks_its_acknowledgment(
        sessions@[1],
        rp_input,
        resp_len,
        ack1,
        m2 + rest,
        len,
        after@[1],
    );
    assert(b1.skip(m1.len() as int) =~= m2 + rest);
    law_one_session_checks_its_acknowledgment(
        sessions@[2],
        rp_input,
        resp_len,
        ack2,
        rest,
        len,
        after@[2],
    );
}

} // verus!
