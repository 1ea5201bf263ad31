use vstd::prelude::*;

use crate::auth_area::AuthorizationArea;
use crate::session::Session;
use crate::structures::{AuthResponseModel, TpmsAuthResponse};
use crate::crypto::{spec_command_parts, spec_rp_hash_input};
use crate::errors::{MarshalError, TssError, TssResult, TssTcsError, TPM_RC_SUCCESS};
use crate::marshal::{
    be_u16, be_u32, from_be_u32, lemma_be_u16_roundtrip, lemma_be_u32_roundtrip,
    write_bytes, Marshalable, UnmarshalBuf,
};
use crate::types::{TpmCc, TpmCommand, TpmSt, TpmiStCommandTag};

verus! {

/// The size of the buffer a command is assembled in.
pub const CMD_BUFFER_SIZE: usize = 4096;

/// The size of the buffer a response is received in.
pub const RESP_BUFFER_SIZE: usize = 4096;

/// The size of a command or response header.
pub const HEADER_SIZE: usize = 10;

/// A TPM: it takes a marshalled command and answers with a marshalled
/// response.
pub trait Tpm {
    /// Whether the TPM keeps a log of the commands handed to it and of its
    /// answers. A model of a TPM that does states it and gives the logs in
    /// `sent` and `answers`; `transact` then appends each command it is
    /// handed, and what it returned with the response it left.
    open spec fn keeps_log() -> bool {
        false
    }

    /// The commands handed to the TPM so far, oldest first, where it keeps a log.
    open spec fn sent(&self) -> Seq<Seq<u8>> {
        Seq::empty()
    }

    /// The TPM's answers so far, oldest first, where it keeps a log: what
    /// `transact` returned and the bytes of the response buffer it left.
    open spec fn answers(&self) -> Seq<(TssResult<()>, Seq<u8>)> {
        Seq::empty()
    }

    /// Hands `command` to the TPM and receives its response in `response`.
    fn transact(&mut self, command: &[u8], response: &mut [u8]) -> (r: TssResult<()>)
        ensures
            Self::keeps_log() ==> final(self).sent() == old(self).sent().push(command@),
            Self::keeps_log() ==> final(self).answers() == old(self).answers().push(
                (r, final(response)@),
            ),
            Self::keeps_log() ==> final(response)@.len() == old(response)@.len(),
    ;
}

/// The header of a command.
pub struct CmdHeader {
    tag: TpmiStCommandTag,
    size: u32,
    code: TpmCc,
}

/// The values of a command header.
pub struct CmdHeaderModel {
    pub tag: TpmiStCommandTag,
    pub size: u32,
    pub code: TpmCc,
}

impl View for CmdHeader {
    type V = CmdHeaderModel;

    closed spec fn view(&self) -> CmdHeaderModel {
        CmdHeaderModel { tag: self.tag, size: self.size, code: self.code }
    }
}

/// The tag of a command with or without an authorization area.
pub open spec fn spec_command_tag(has_sessions: bool) -> TpmiStCommandTag {
    if has_sessions {
        TpmiStCommandTag::Sessions
    } else {
        TpmiStCommandTag::NoSessions
    }
}

impl CmdHeader {
    /// The header of a command with code `code`, tagged by whether it has
    /// sessions; its size is zero until the command is assembled.
    pub fn new(has_sessions: bool, code: TpmCc) -> (h: CmdHeader)
        ensures
            h@ == (CmdHeaderModel { tag: spec_command_tag(has_sessions), size: 0, code }),
    {
        let tag = if has_sessions {
            TpmiStCommandTag::Sessions
        } else {
            TpmiStCommandTag::NoSessions
        };
        CmdHeader { tag, size: 0, code }
    }
}

/// The encoding of a command header.
pub open spec fn spec_cmd_header(tag: TpmiStCommandTag, size: u32, code: TpmCc) -> Seq<u8> {
    be_u16(tag.spec_value()) + be_u32(size) + be_u32(code.spec_value())
}

impl Marshalable for CmdHeader {
    open spec fn spec_wf(v: CmdHeaderModel) -> bool {
        true
    }

    open spec fn spec_marshal(v: CmdHeaderModel) -> Seq<u8> {
        spec_cmd_header(v.tag, v.size, v.code)
    }

    open spec fn spec_unmarshal(s: Seq<u8>) -> Result<(CmdHeaderModel, int), MarshalError> {
        match TpmiStCommandTag::spec_unmarshal(s) {
            Err(e) => Err(e),
            Ok((tag, _)) => if s.len() < 6 {
                Err(MarshalError::Insufficient)
            } else {
                match TpmCc::spec_unmarshal(s.skip(6)) {
                    Err(e) => Err(e),
                    Ok((code, _)) => Ok(
                        (CmdHeaderModel { tag, size: from_be_u32(s.skip(2)), code }, 10),
                    ),
                }
            },
        }
    }

    proof fn lemma_unmarshal_marshal(v: CmdHeaderModel, rest: Seq<u8>) {
        let s = Self::spec_marshal(v) + rest;
        let t1 = be_u32(v.size) + be_u32(v.code.spec_value()) + rest;
        let t2 = be_u32(v.code.spec_value()) + rest;
        assert(s =~= be_u16(v.tag.spec_value()) + t1);
        assert(s.skip(2) =~= be_u32(v.size) + t2);
        assert(s.skip(6) =~= t2);
        TpmiStCommandTag::lemma_unmarshal_marshal(v.tag, t1);
        lemma_be_u32_roundtrip(v.size, t2);
        TpmCc::lemma_unmarshal_marshal(v.code, rest);
    }

    proof fn lemma_marshal_unmarshal(s: Seq<u8>) {
        TpmiStCommandTag::lemma_marshal_unmarshal(s);
        if s.len() >= 6 {
            lemma_be_u32_roundtrip(0, s.skip(2));
            TpmCc::lemma_marshal_unmarshal(s.skip(6));
            if let Ok((v, n)) = Self::spec_unmarshal(s) {
                assert(s.skip(2).take(4) =~= s.subrange(2, 6));
                assert(s.skip(6).take(4) =~= s.subrange(6, 10));
                assert(Self::spec_marshal(v) =~= s.take(10));
            }
        }
    }

    fn marshal(&self, out: &mut Vec<u8>) {
        let ghost start = out@;
        self.tag.marshal(out);
        self.size.marshal(out);
        self.code.marshal(out);
        assert(out@ =~= start + Self::spec_marshal(self@));
        assert(Self::spec_wf(self@));
    }

    fn try_unmarshal(buf: &mut UnmarshalBuf) -> (r: TssResult<CmdHeader>) {
        let ghost s = buf@;
        let tag = TpmiStCommandTag::try_unmarshal(buf)?;
        let size = u32::try_unmarshal(buf)?;
        assert(s.skip(2).skip(4) =~= s.skip(6));
        let code = TpmCc::try_unmarshal(buf)?;
        assert(s.skip(6).skip(4) =~= s.skip(10));
        Ok(CmdHeader { tag, size, code })
    }
}

/// The header of a response.
pub struct RespHeader {
    pub tag: TpmSt,
    pub size: u32,
    pub rc: u32,
}

/// The values of a response header.
pub struct RespHeaderModel {
    pub tag: TpmSt,
    pub size: u32,
    pub rc: u32,
}

impl View for RespHeader {
    type V = RespHeaderModel;

    open spec fn view(&self) -> RespHeaderModel {
        RespHeaderModel { tag: self.tag, size: self.size, rc: self.rc }
    }
}

impl Marshalable for RespHeader {
    open spec fn spec_wf(v: RespHeaderModel) -> bool {
        true
    }

    open spec fn spec_marshal(v: RespHeaderModel) -> Seq<u8> {
        be_u16(v.tag.spec_value()) + be_u32(v.size) + be_u32(v.rc)
    }

    open spec fn spec_unmarshal(s: Seq<u8>) -> Result<(RespHeaderModel, int), MarshalError> {
        match TpmSt::spec_unmarshal(s) {
            Err(e) => Err(e),
            Ok((tag, _)) => if s.len() < 10 {
                Err(MarshalError::Insufficient)
            } else {
                Ok(
                    (
                        RespHeaderModel {
                            tag,
                            size: from_be_u32(s.skip(2)),
                            rc: from_be_u32(s.skip(6)),
                        },
                        10,
                    ),
                )
            },
        }
    }

    proof fn lemma_unmarshal_marshal(v: RespHeaderModel, rest: Seq<u8>) {
        let s = Self::spec_marshal(v) + rest;
        let t1 = be_u32(v.size) + be_u32(v.rc) + rest;
        let t2 = be_u32(v.rc) + rest;
        assert(s =~= be_u16(v.tag.spec_value()) + t1);
        assert(s.skip(2) =~= be_u32(v.size) + t2);
        assert(s.skip(6) =~= t2);
        TpmSt::lemma_unmarshal_marshal(v.tag, t1);
        lemma_be_u32_roundtrip(v.size, t2);
        lemma_be_u32_roundtrip(v.rc, rest);
    }

    proof fn lemma_marshal_unmarshal(s: Seq<u8>) {
        TpmSt::lemma_marshal_unmarshal(s);
        if s.len() >= 10 {
            lemma_be_u32_roundtrip(0, s.skip(2));
            lemma_be_u32_roundtrip(0, s.skip(6));
            if let Ok((v, n)) = Self::spec_unmarshal(s) {
                assert(s.skip(2).take(4) =~= s.subrange(2, 6));
                assert(s.skip(6).take(4) =~= s.subrange(6, 10));
                assert(Self::spec_marshal(v) =~= s.take(10));
            }
        }
    }

    fn marshal(&self, out: &mut Vec<u8>) {
        let ghost start = out@;
        self.tag.marshal(out);
        self.size.marshal(out);
        self.rc.marshal(out);
        assert(out@ =~= start + Self::spec_marshal(self@));
        assert(Self::spec_wf(self@));
    }

    fn try_unmarshal(buf: &mut UnmarshalBuf) -> (r: TssResult<RespHeader>) {
        let ghost s = buf@;
        let tag = TpmSt::try_unmarshal(buf)?;
        let size = u32::try_unmarshal(buf)?;
        assert(s.skip(2).skip(4) =~= s.skip(6));
        let rc = u32::try_unmarshal(buf)?;
        assert(s.skip(6).skip(4) =~= s.skip(10));
        Ok(RespHeader { tag, size, rc })
    }
}

/// Reading a response header and checking its response code: the header and
/// the number of bytes it takes, or the error.
pub open spec fn spec_read_response_header(bytes: Seq<u8>) -> TssResult<(RespHeaderModel, int)> {
    match RespHeader::spec_unmarshal(bytes) {
        Err(e) => Err(TssError::Marshal(e)),
        Ok((h, n)) => if h.rc != TPM_RC_SUCCESS {
            Err(TssError::Tpm(h.rc))
        } else {
            Ok((h, n))
        },
    }
}

/// Unmarshals the response header and checks the contained response code.
pub fn read_response_header(buffer: &[u8]) -> (r: TssResult<(RespHeader, usize)>)
    ensures
        match spec_read_response_header(buffer@) {
            Ok((h, n)) => r matches Ok((x, m)) && x@ == h && m == n,
            Err(e) => r == Err::<(RespHeader, usize), TssError>(e),
        },
{
    let mut unmarsh = UnmarshalBuf::new(buffer);
    let resp_header = RespHeader::try_unmarshal(&mut unmarsh)?;
    if let Some(error) = TssError::from_response_code(resp_header.rc) {
        return Err(error);
    }
    Ok((resp_header, buffer.len() - unmarsh.len()))
}

/// The number of bytes of a response that follow its header, as the header
/// gives them, where the response fits in a buffer of `response_len` bytes;
/// a response larger than the buffer, or a buffer shorter than a header, is
/// refused.
pub fn response_rest(header: &RespHeader, response_len: usize) -> (r: TssResult<usize>)
    ensures
        (header.size > response_len || response_len < HEADER_SIZE) ==> r == Err::<usize, TssError>(
            TssError::Tcs(TssTcsError::OutOfMemory),
        ),
        !(header.size > response_len || response_len < HEADER_SIZE) ==> r == Ok::<usize, TssError>(
            if header.size <= HEADER_SIZE {
                0usize
            } else {
                (header.size - HEADER_SIZE) as usize
            },
        ),
{
    let size = header.size as usize;
    if size > response_len || response_len < HEADER_SIZE {
        return Err(TssError::Tcs(TssTcsError::OutOfMemory));
    }
    if size <= HEADER_SIZE {
        Ok(0)
    } else {
        Ok(size - HEADER_SIZE)
    }
}

/// The bytes of a command: its header with the total size, the marshalled
/// handles, the session data and the marshalled parameters.
pub open spec fn spec_command_bytes(
    has_sessions: bool,
    code: TpmCc,
    handles: Seq<u8>,
    sessions: Seq<u8>,
    params: Seq<u8>,
) -> Seq<u8> {
    let size = HEADER_SIZE + handles.len() + sessions.len() + params.len();
    spec_cmd_header(spec_command_tag(has_sessions), size as u32, code) + handles + sessions + params
}

/// The room left for the session data once the header and the handles of a
/// command are in a buffer of `len` bytes, where they fit.
pub open spec fn spec_session_space<CmdT: TpmCommand>(
    handles: <CmdT::Handles as View>::V,
    len: nat,
) -> Option<nat> {
    let hl = CmdT::Handles::spec_marshal(handles).len();
    if len < HEADER_SIZE || len - HEADER_SIZE < hl {
        None
    } else {
        Some((len - HEADER_SIZE - hl) as nat)
    }
}

/// Whether `after` is the sessions once a command with handles `handles`
/// has been assembled in a buffer of `len` bytes: they write their data into
/// the room left, where the header and handles fit, and are untouched
/// otherwise.
pub open spec fn spec_command_written<CmdT: TpmCommand, AA: AuthorizationArea>(
    sessions: AA,
    handles: <CmdT::Handles as View>::V,
    len: nat,
    after: AA,
) -> bool {
    match spec_session_space::<CmdT>(handles, len) {
        Some(room) => sessions.spec_written(room, after),
        None => after == sessions,
    }
}

/// Whether the sessions can write their data when a command is assembled in
/// a buffer of `len` bytes.
pub open spec fn write_command_ready<CmdT: TpmCommand, AA: AuthorizationArea>(
    sessions: AA,
    cmd: CmdT::V,
    handles: <CmdT::Handles as View>::V,
    len: nat,
) -> bool {
    let hl = CmdT::Handles::spec_marshal(handles).len();
    let pl = CmdT::spec_marshal(cmd).len();
    (HEADER_SIZE <= len && hl <= len - HEADER_SIZE) ==> sessions.write_ready(
        hl,
        pl,
        (len - HEADER_SIZE - hl) as nat,
    )
}

/// The error, if any, of assembling a command in a buffer of `len` bytes:
/// the header and handles, the session data and the parameters must fit in
/// turn.
pub open spec fn spec_write_command_error<CmdT: TpmCommand, AA: AuthorizationArea>(
    sessions: AA,
    cmd: CmdT::V,
    handles: <CmdT::Handles as View>::V,
    len: nat,
) -> Option<TssError> {
    let hl = CmdT::Handles::spec_marshal(handles).len();
    let pl = CmdT::spec_marshal(cmd).len();
    if len < HEADER_SIZE || len - HEADER_SIZE < hl {
        Some(TssError::Marshal(MarshalError::Memory))
    } else {
        let rest = (len - HEADER_SIZE - hl) as nat;
        match sessions.write_error(rest) {
            Some(e) => Some(e),
            None => if rest - sessions.session_data_len() < pl {
                Some(TssError::Marshal(MarshalError::Memory))
            } else {
                None
            },
        }
    }
}

#[verifier::rlimit(40)]
/// Assembles a command in `cmd_buffer`: header, handles, session data and
/// parameters, then writes the total size into the header; returns the size.
pub fn write_command<CmdT: TpmCommand, AA: AuthorizationArea>(
    cmd: &CmdT,
    cmd_handles: &CmdT::Handles,
    cmd_sessions: &mut AA,
    cmd_buffer: &mut [u8],
) -> (r: TssResult<usize>)
    requires
        write_command_ready::<CmdT, AA>(
            *old(cmd_sessions),
            cmd@,
            cmd_handles@,
            old(cmd_buffer)@.len(),
        ),
    ensures
        final(cmd_buffer)@.len() == old(cmd_buffer)@.len(),
        spec_command_written::<CmdT, AA>(
            *old(cmd_sessions),
            cmd_handles@,
            old(cmd_buffer)@.len(),
            *final(cmd_sessions),
        ),
        final(cmd_sessions).spec_has_sessions() == old(cmd_sessions).spec_has_sessions(),
        forall|len: nat| #[trigger]
            old(cmd_sessions).read_ready(len) ==> final(cmd_sessions).read_ready(len),
        match spec_write_command_error::<CmdT, AA>(
            *old(cmd_sessions),
            cmd@,
            cmd_handles@,
            old(cmd_buffer)@.len(),
        ) {
            Some(e) => r == Err::<usize, TssError>(e),
            None => r matches Ok(n) && n <= old(cmd_buffer)@.len() && final(cmd_buffer)@.take(
                n as int,
            ) == spec_command_bytes(
                old(cmd_sessions).spec_has_sessions(),
                CmdT::spec_cmd_code(),
                CmdT::Handles::spec_marshal(cmd_handles@),
                final(cmd_sessions).spec_session_data(
                    spec_command_parts::<CmdT>(cmd@, cmd_handles@),
                ),
                CmdT::spec_marshal(cmd@),
            ),
        },
{
    let ghost hb = CmdT::Handles::spec_marshal(cmd_handles@);
    let ghost pb = CmdT::spec_marshal(cmd@);
    let ghost parts = spec_command_parts::<CmdT>(cmd@, cmd_handles@);
    let ghost old_sessions = *cmd_sessions;

    let mut cmd_header = CmdHeader::new(cmd_sessions.has_sessions(), CmdT::cmd_code());
    let written = cmd_header.try_marshal(cmd_buffer)?;
    assert(written == HEADER_SIZE) by {
        lemma_be_u16_roundtrip(0, Seq::empty());
        lemma_be_u32_roundtrip(0, Seq::empty());
    }

    let buffer_len = cmd_buffer.len();
    let mut handle_bytes: Vec<u8> = Vec::new();
    cmd_handles.marshal(&mut handle_bytes);
    assert(handle_bytes@ =~= hb);
    let n = write_bytes(cmd_buffer, written, handle_bytes.as_slice())?;
    let written = written + n;
    let ghost with_handles = cmd_buffer@;
    assert(with_handles.subrange(HEADER_SIZE as int, written as int) =~= hb);

    let rest_len = cmd_buffer.len() - written;
    let mut rest: Vec<u8> = vec![0u8; rest_len];
    let n = cmd_sessions.write_session_data(cmd, cmd_handles, rest.as_mut_slice())?;
    assert(old_sessions.write_error(rest_len as nat) is None);
    assert(n <= rest_len);
    let ghost session_bytes = rest@.take(n as int);
    assert(session_bytes == cmd_sessions.spec_session_data(parts));
    let _ = write_bytes(cmd_buffer, written, &rest[0..n]);
    let ghost sessions_at = written;
    let written = written + n;
    let ghost with_sessions = cmd_buffer@;
    assert(with_sessions.subrange(HEADER_SIZE as int, sessions_at as int) =~= hb);
    assert(with_sessions.subrange(sessions_at as int, written as int) =~= session_bytes);

    let mut param_bytes: Vec<u8> = Vec::new();
    cmd.marshal(&mut param_bytes);
    assert(param_bytes@ =~= pb);
    let n = write_bytes(cmd_buffer, written, param_bytes.as_slice())?;
    let ghost params_at = written;
    let written = written + n;
    let ghost with_params = cmd_buffer@;
    assert(with_params.subrange(HEADER_SIZE as int, written as int) =~= hb + session_bytes + pb)
        by {
        assert(with_params.subrange(HEADER_SIZE as int, sessions_at as int) =~= hb);
        assert(with_params.subrange(sessions_at as int, params_at as int) =~= session_bytes);
        assert(with_params.subrange(params_at as int, written as int) =~= pb);
    }

    // Update the command size.
    cmd_header.size = written as u32;
    let _ = cmd_header.try_marshal(cmd_buffer);
    proof {
        assert(cmd_buffer@.subrange(HEADER_SIZE as int, written as int) =~= hb + session_bytes
            + pb);
        assert(cmd_buffer@.take(written as int) =~= spec_command_bytes(
            old_sessions.spec_has_sessions(),
            CmdT::spec_cmd_code(),
            hb,
            session_bytes,
            pb,
        ));
    }
    Ok(written)
}

/// Reading a response: the header with its response code, a size that the
/// buffer holds and that covers at least the header, then from the bytes the
/// header's size covers, the handles, the parameter size where the
/// response has sessions, the parameters and the sessions' acknowledgments,
/// which must take the rest.
pub open spec fn spec_read_response<CmdT: TpmCommand, AA: AuthorizationArea>(
    sessions: AA,
    bytes: Seq<u8>,
    len: nat,
) -> TssResult<(<CmdT::RespT as View>::V, <CmdT::RespHandles as View>::V)> {
    match spec_read_response_header(bytes) {
        Err(e) => Err(e),
        Ok((h, _)) => if h.size > bytes.len() {
            Err(TssError::Tcs(TssTcsError::OutOfMemory))
        } else if h.size < HEADER_SIZE {
            Err(TssError::Tcs(TssTcsError::TpmUnexpected))
        } else {
            let body = bytes.subrange(HEADER_SIZE as int, h.size as int);
            match CmdT::RespHandles::spec_unmarshal(body) {
                Err(e) => Err(TssError::Marshal(e)),
                Ok((rh, n1)) => {
                    let b1 = body.skip(n1);
                    let param_size: Result<int, MarshalError> = if h.tag == TpmSt::Sessions {
                        match u32::spec_unmarshal(b1) {
                            Err(e) => Err(e),
                            Ok((_, m)) => Ok(m),
                        }
                    } else {
                        Ok(0)
                    };
                    match param_size {
                        Err(e) => Err(TssError::Marshal(e)),
                        Ok(n2) => {
                            let b2 = b1.skip(n2);
                            match CmdT::RespT::spec_unmarshal(b2) {
                                Err(e) => Err(TssError::Marshal(e)),
                                Ok((rp, n3)) => {
                                    let b3 = b2.skip(n3);
                                    match sessions.spec_read(
                                        spec_rp_hash_input::<CmdT>(rp),
                                        CmdT::RespT::spec_marshal(rp).len(),
                                        b3,
                                        len,
                                    ) {
                                        Err(e) => Err(e),
                                        Ok(n4) => if n4 == b3.len() {
                                            Ok((rp, rh))
                                        } else {
                                            Err(TssError::Tcs(TssTcsError::TpmUnexpected))
                                        },
                                    }
                                },
                            }
                        },
                    }
                },
            }
        }
    }
}

/// Whether `after` is the sessions once they have read the response `bytes`
/// as `spec_read_response` does: only the check of the acknowledgments
/// changes them, and only where the response parses up to them.
pub open spec fn spec_read_response_after<CmdT: TpmCommand, AA: AuthorizationArea>(
    sessions: AA,
    bytes: Seq<u8>,
    len: nat,
    after: AA,
) -> bool {
    match spec_read_response_header(bytes) {
        Err(_) => after == sessions,
        Ok((h, _)) => if h.size > bytes.len() || h.size < HEADER_SIZE {
            after == sessions
        } else {
            let body = bytes.subrange(HEADER_SIZE as int, h.size as int);
            match CmdT::RespHandles::spec_unmarshal(body) {
                Err(_) => after == sessions,
                Ok((_, n1)) => {
                    let b1 = body.skip(n1);
                    let param_size: Result<int, MarshalError> = if h.tag == TpmSt::Sessions {
                        match u32::spec_unmarshal(b1) {
                            Err(e) => Err(e),
                            Ok((_, m)) => Ok(m),
                        }
                    } else {
                        Ok(0)
                    };
                    match param_size {
                        Err(_) => after == sessions,
                        Ok(n2) => {
                            let b2 = b1.skip(n2);
                            match CmdT::RespT::spec_unmarshal(b2) {
                                Err(_) => after == sessions,
                                Ok((rp, n3)) => sessions.spec_read_after(
                                    spec_rp_hash_input::<CmdT>(rp),
                                    CmdT::RespT::spec_marshal(rp).len(),
                                    b2.skip(n3),
                                    len,
                                    after,
                                ),
                            }
                        },
                    }
                },
            }
        }
    }
}

/// Unmarshals a response and has the sessions check it; `wrk_buf` is a work
/// buffer for the sessions.
pub fn read_response<CmdT: TpmCommand, AA: AuthorizationArea>(
    resp_buffer: &[u8],
    cmd_sessions: &mut AA,
    wrk_buf: &mut [u8],
) -> (r: TssResult<(CmdT::RespT, CmdT::RespHandles)>)
    requires
        old(cmd_sessions).read_ready(old(wrk_buf)@.len()),
    ensures
        final(cmd_sessions).spec_has_sessions() == old(cmd_sessions).spec_has_sessions(),
        forall|len: nat| #[trigger]
            old(cmd_sessions).read_ready(len) ==> final(cmd_sessions).read_ready(len),
        spec_read_response_after::<CmdT, AA>(
            *old(cmd_sessions),
            resp_buffer@,
            old(wrk_buf)@.len(),
            *final(cmd_sessions),
        ),
        match spec_read_response::<CmdT, AA>(*old(cmd_sessions), resp_buffer@, old(wrk_buf)@.len()) {
            Ok((rp, rh)) => r matches Ok((x, y)) && x@ == rp && y@ == rh,
            Err(e) => r == Err::<(CmdT::RespT, CmdT::RespHandles), TssError>(e),
        },
{
    let (resp_header, _) = read_response_header(resp_buffer)?;

    // Check response size.
    let resp_size = resp_header.size as usize;
    if resp_size > resp_buffer.len() {
        return Err(TssError::Tcs(TssTcsError::OutOfMemory));
    }
    if resp_size < HEADER_SIZE {
        return Err(TssError::Tcs(TssTcsError::TpmUnexpected));
    }

    // Unmarshal response handles.
    let body = &resp_buffer[HEADER_SIZE..resp_size];
    let mut unmarsh = UnmarshalBuf::new(body);
    let ghost b0 = unmarsh@;
    let resp_handles = CmdT::RespHandles::try_unmarshal(&mut unmarsh)?;
    let ghost b1 = unmarsh@;
    if resp_header.tag == TpmSt::Sessions {
        let _param_size = u32::try_unmarshal(&mut unmarsh)?;
    }
    proof {
        if resp_header.tag != TpmSt::Sessions {
            assert(b1.skip(0) =~= b1);
        }
    }

    // Unmarshal response parameters.
    let resp = CmdT::RespT::try_unmarshal(&mut unmarsh)?;
    cmd_sessions.read_response_data::<CmdT>(&resp, &resp_handles, &mut unmarsh, wrk_buf)?;

    if !unmarsh.is_empty() {
        return Err(TssError::Tcs(TssTcsError::TpmUnexpected));
    }

    Ok((resp, resp_handles))
}

/// Whether `r` is what reading the TPM's answer `bytes` with the sessions
/// `sessions` gives.
pub open spec fn response_matches<CmdT: TpmCommand, AA: AuthorizationArea>(
    sessions: AA,
    bytes: Seq<u8>,
    len: nat,
    r: TssResult<(CmdT::RespT, CmdT::RespHandles)>,
) -> bool {
    match spec_read_response::<CmdT, AA>(sessions, bytes, len) {
        Ok((rp, rh)) => r matches Ok((x, y)) && x@ == rp && y@ == rh,
        Err(e) => r == Err::<(CmdT::RespT, CmdT::RespHandles), TssError>(e),
    }
}

/// Whether `r` and `after` are the result and the sessions once the TPM's
/// answer has been taken in: the TPM's error as it is, with the sessions
/// untouched, or what reading the response `bytes` gives.
pub open spec fn answer_read<CmdT: TpmCommand, AA: AuthorizationArea>(
    sessions: AA,
    answer: TssResult<()>,
    bytes: Seq<u8>,
    len: nat,
    r: TssResult<(CmdT::RespT, CmdT::RespHandles)>,
    after: AA,
) -> bool {
    match answer {
        Err(e) => r == Err::<(CmdT::RespT, CmdT::RespHandles), TssError>(e) && after == sessions,
        Ok(_) => spec_read_response_after::<CmdT, AA>(sessions, bytes, len, after)
            && response_matches::<CmdT, AA>(sessions, bytes, len, r),
    }
}

/// Takes in what a TPM answered to a command: `answer` is what handing it
/// the command returned and `resp_buffer` the response it left. The TPM's
/// error is returned as it is; otherwise the response is read and the
/// sessions check it, with `wrk_buf` as their work buffer.
pub fn read_answer<CmdT: TpmCommand, AA: AuthorizationArea>(
    answer: TssResult<()>,
    resp_buffer: &[u8],
    cmd_sessions: &mut AA,
    wrk_buf: &mut [u8],
) -> (r: TssResult<(CmdT::RespT, CmdT::RespHandles)>)
    requires
        old(cmd_sessions).read_ready(old(wrk_buf)@.len()),
    ensures
        final(cmd_sessions).spec_has_sessions() == old(cmd_sessions).spec_has_sessions(),
        forall|len: nat| #[trigger]
            old(cmd_sessions).read_ready(len) ==> final(cmd_sessions).read_ready(len),
        answer_read::<CmdT, AA>(
            *old(cmd_sessions),
            answer,
            resp_buffer@,
            old(wrk_buf)@.len(),
            r,
            *final(cmd_sessions),
        ),
{
    match answer {
        Err(e) => Err(e),
        Ok(()) => read_response::<CmdT, AA>(resp_buffer, cmd_sessions, wrk_buf),
    }
}

/// Runs a command with the given handles and sessions on a TPM: assembles
/// it, hands it to the TPM and reads the response, which is refused where
/// its size is shorter than its header.
///
/// Where the command fits, the TPM is handed exactly the assembled bytes,
/// with the session data of the sessions as they were after writing it
/// (`w`); the result and the sessions' final state are those of taking in
/// the TPM's answer with the sessions in that state, as `read_answer` does.
pub fn run_command_with_handles<CmdT: TpmCommand, TpmT: Tpm, AA: AuthorizationArea>(
    cmd: &CmdT,
    cmd_handles: &CmdT::Handles,
    cmd_sessions: &mut AA,
    tpm: &mut TpmT,
) -> (r: TssResult<(CmdT::RespT, CmdT::RespHandles)>)
    requires
        write_command_ready::<CmdT, AA>(
            *old(cmd_sessions),
            cmd@,
            cmd_handles@,
            CMD_BUFFER_SIZE as nat,
        ),
        old(cmd_sessions).read_ready(CMD_BUFFER_SIZE as nat),
    ensures
        final(cmd_sessions).spec_has_sessions() == old(cmd_sessions).spec_has_sessions(),
        forall|len: nat| #[trigger]
            old(cmd_sessions).read_ready(len) ==> final(cmd_sessions).read_ready(len),
        exists|w: AA| #[trigger]
            spec_command_written::<CmdT, AA>(
                *old(cmd_sessions),
                cmd_handles@,
                CMD_BUFFER_SIZE as nat,
                w,
            ) && match spec_write_command_error::<CmdT, AA>(
                *old(cmd_sessions),
                cmd@,
                cmd_handles@,
                CMD_BUFFER_SIZE as nat,
            ) {
                Some(e) => {
                    &&& r == Err::<(CmdT::RespT, CmdT::RespHandles), TssError>(e)
                    &&& *final(cmd_sessions) == w
                    &&& *final(tpm) == *old(tpm)
                },
                None => {
                    &&& TpmT::keeps_log() ==> final(tpm).sent() == old(tpm).sent().push(
                        spec_command_bytes(
                            old(cmd_sessions).spec_has_sessions(),
                            CmdT::spec_cmd_code(),
                            CmdT::Handles::spec_marshal(cmd_handles@),
                            w.spec_session_data(
                                spec_command_parts::<CmdT>(cmd@, cmd_handles@),
                            ),
                            CmdT::spec_marshal(cmd@),
                        ),
                    )
                    &&& TpmT::keeps_log() ==> {
                        &&& final(tpm).answers().len() == old(tpm).answers().len() + 1
                        &&& final(tpm).answers().last().1.len() == RESP_BUFFER_SIZE
                        &&& answer_read::<CmdT, AA>(
                            w,
                            final(tpm).answers().last().0,
                            final(tpm).answers().last().1,
                            CMD_BUFFER_SIZE as nat,
                            r,
                            *final(cmd_sessions),
                        )
                    }
                    &&& exists|answer: TssResult<()>, bytes: Seq<u8>| #[trigger]
                        answer_read::<CmdT, AA>(
                            w,
                            answer,
                            bytes,
                            CMD_BUFFER_SIZE as nat,
                            r,
                            *final(cmd_sessions),
                        )
                },
            },
{
    let ghost old_sessions = *cmd_sessions;
    let mut cmd_buffer: Vec<u8> = vec![0u8; CMD_BUFFER_SIZE];
    let written = write_command(cmd, cmd_handles, cmd_sessions, cmd_buffer.as_mut_slice());
    let ghost w = *cmd_sessions;
    assert(spec_command_written::<CmdT, AA>(
        old_sessions,
        cmd_handles@,
        CMD_BUFFER_SIZE as nat,
        w,
    ));
    let written = match written {
        Ok(n) => n,
        Err(e) => {
            return Err(e);
        },
    };
    let ghost command = cmd_buffer@.take(written as int);

    // Write buffer to TPM and retrieve response.
    let mut resp_buffer: Vec<u8> = vec![0u8; RESP_BUFFER_SIZE];
    let sent = tpm.transact(&cmd_buffer[0..written], resp_buffer.as_mut_slice());
    assert(cmd_buffer@.subrange(0, written as int) =~= command);

    let r = read_answer::<CmdT, AA>(sent, resp_buffer.as_slice(), cmd_sessions, cmd_buffer.as_mut_slice());
    assert(answer_read::<CmdT, AA>(
        w,
        sent,
        resp_buffer@,
        CMD_BUFFER_SIZE as nat,
        r,
        *cmd_sessions,
    ));
    r
}

/// The bytes of a successful response: its header, the marshalled handles,
/// then, where the response has sessions, the size of the parameters, the
/// parameters and the acknowledgments; without sessions, the parameters.
pub open spec fn spec_response_bytes(
    tag: TpmSt,
    handles: Seq<u8>,
    params: Seq<u8>,
    acks: Seq<u8>,
) -> Seq<u8> {
    let body = if tag == TpmSt::Sessions {
        handles + be_u32(params.len() as u32) + params + acks
    } else {
        handles + params
    };
    be_u16(tag.spec_value()) + be_u32((HEADER_SIZE + body.len()) as u32) + be_u32(TPM_RC_SUCCESS)
        + body
}

#[verifier::spinoff_prover]
#[verifier::rlimit(60)]
/// A successful response without sessions is read back as the handles and
/// parameters it carries, whatever follows it in the buffer.
pub proof fn law_read_response_without_sessions<CmdT: TpmCommand>(
    rh: <CmdT::RespHandles as View>::V,
    rp: <CmdT::RespT as View>::V,
    rest: Seq<u8>,
    len: nat,
)
    requires
        CmdT::RespHandles::spec_wf(rh),
        CmdT::RespT::spec_wf(rp),
        HEADER_SIZE + CmdT::RespHandles::spec_marshal(rh).len() + CmdT::RespT::spec_marshal(rp).len()
            <= u32::MAX,
    ensures
        spec_read_response::<CmdT, ()>(
            (),
            spec_response_bytes(
                TpmSt::NoSessions,
                CmdT::RespHandles::spec_marshal(rh),
                CmdT::RespT::spec_marshal(rp),
                Seq::empty(),
            ) + rest,
            len,
        ) == Ok::<(<CmdT::RespT as View>::V, <CmdT::RespHandles as View>::V), TssError>((rp, rh)),
{
    let hb = CmdT::RespHandles::spec_marshal(rh);
    let pb = CmdT::RespT::spec_marshal(rp);
    let body = hb + pb;
    let size = (HEADER_SIZE + body.len()) as u32;
    let h = RespHeaderModel { tag: TpmSt::NoSessions, size, rc: TPM_RC_SUCCESS };
    let bytes = spec_response_bytes(TpmSt::NoSessions, hb, pb, Seq::empty()) + rest;
    assert(bytes =~= RespHeader::spec_marshal(h) + (body + rest));
    RespHeader::lemma_unmarshal_marshal(h, body + rest);
    lemma_be_u16_roundtrip(0, Seq::empty());
    lemma_be_u32_roundtrip(0, Seq::empty());
    let b = bytes.subrange(HEADER_SIZE as int, size as int);
    assert(b =~= hb + pb);
    CmdT::RespHandles::lemma_unmarshal_marshal(rh, pb);
    assert(b.skip(hb.len() as int) =~= pb);
    assert(b.skip(hb.len() as int).skip(0) =~= pb);
    CmdT::RespT::lemma_unmarshal_marshal(rp, Seq::empty());
    assert(pb + Seq::<u8>::empty() =~= pb);
    assert(pb.skip(pb.len() as int) =~= Seq::<u8>::empty());
}

#[verifier::spinoff_prover]
#[verifier::rlimit(60)]
/// A successful response with a single session is read back as the handles
/// and parameters it carries exactly when the session accepts the
/// acknowledgment it carries; otherwise the session's error is the answer.
/// The session is left as it is once it has accepted that acknowledgment,
/// and unchanged where it refuses it.
pub proof fn law_read_response_with_session<CmdT: TpmCommand, T: Session>(
    session: T,
    rh: <CmdT::RespHandles as View>::V,
    rp: <CmdT::RespT as View>::V,
    auth: AuthResponseModel,
    rest: Seq<u8>,
    len: nat,
    after: T,
)
    requires
        CmdT::RespHandles::spec_wf(rh),
        CmdT::RespT::spec_wf(rp),
        TpmsAuthResponse::spec_wf(auth),
        CmdT::RespT::spec_marshal(rp).len() <= u32::MAX,
        HEADER_SIZE + CmdT::RespHandles::spec_marshal(rh).len() + 4 + CmdT::RespT::spec_marshal(
            rp,
        ).len() + TpmsAuthResponse::spec_marshal(auth).len() <= u32::MAX,
    ensures
        spec_read_response::<CmdT, T>(
            session,
            spec_response_bytes(
                TpmSt::Sessions,
                CmdT::RespHandles::spec_marshal(rh),
                CmdT::RespT::spec_marshal(rp),
                TpmsAuthResponse::spec_marshal(auth),
            ) + rest,
            len,
        ) == match session.spec_validate(
            spec_rp_hash_input::<CmdT>(rp),
            CmdT::RespT::spec_marshal(rp).len(),
            auth,
            len,
        ) {
            Ok(_) => Ok::<(<CmdT::RespT as View>::V, <CmdT::RespHandles as View>::V), TssError>(
                (rp, rh),
            ),
            Err(e) => Err(e),
        },
        spec_read_response_after::<CmdT, T>(
            session,
            spec_response_bytes(
                TpmSt::Sessions,
                CmdT::RespHandles::spec_marshal(rh),
                CmdT::RespT::spec_marshal(rp),
                TpmsAuthResponse::spec_marshal(auth),
            ) + rest,
            len,
            after,
        ) == match session.spec_validate(
            spec_rp_hash_input::<CmdT>(rp),
            CmdT::RespT::spec_marshal(rp).len(),
            auth,
            len,
        ) {
            Ok(_) => session.spec_accepted(auth, after),
            Err(_) => after == session,
        },
{
    let hb = CmdT::RespHandles::spec_marshal(rh);
    let pb = CmdT::RespT::spec_marshal(rp);
    let ab = TpmsAuthResponse::spec_marshal(auth);
    let ps = be_u32(pb.len() as u32);
    let body = hb + ps + pb + ab;
    let size = (HEADER_SIZE + body.len()) as u32;
    let h = RespHeaderModel { tag: TpmSt::Sessions, size, rc: TPM_RC_SUCCESS };
    let bytes = spec_response_bytes(TpmSt::Sessions, hb, pb, ab) + rest;
    assert(bytes =~= RespHeader::spec_marshal(h) + (body + rest));
    RespHeader::lemma_unmarshal_marshal(h, body + rest);
    lemma_be_u16_roundtrip(0, Seq::empty());
    lemma_be_u32_roundtrip(0, Seq::empty());
    let b = bytes.subrange(HEADER_SIZE as int, size as int);
    assert(b =~= hb + (ps + pb + ab));
    CmdT::RespHandles::lemma_unmarshal_marshal(rh, ps + pb + ab);
    let b1 = b.skip(hb.len() as int);
    assert(b1 =~= ps + (pb + ab));
    lemma_be_u32_roundtrip(pb.len() as u32, pb + ab);
    let b2 = b1.skip(4);
    assert(b2 =~= pb + ab);
    CmdT::RespT::lemma_unmarshal_marshal(rp, ab);
    let b3 = b2.skip(pb.len() as int);
    assert(b3 =~= ab);
    TpmsAuthResponse::lemma_unmarshal_marshal(auth, Seq::empty());
    assert(ab + Seq::<u8>::empty() =~= ab);
}

/// An assembled command starts with a header that carries its tag, its code
/// and its total length; the handles, session data and parameters follow.
pub proof fn law_command_header(
    has_sessions: bool,
    code: TpmCc,
    handles: Seq<u8>,
    sessions: Seq<u8>,
    params: Seq<u8>,
)
    requires
        HEADER_SIZE + handles.len() + sessions.len() + params.len() <= u32::MAX,
    ensures
        ({
            let bytes = spec_command_bytes(has_sessions, code, handles, sessions, params);
            &&& bytes.len() == HEADER_SIZE + handles.len() + sessions.len() + params.len()
            &&& CmdHeader::spec_unmarshal(bytes) == Ok::<(CmdHeaderModel, int), MarshalError>(
                (
                    CmdHeaderModel {
                        tag: spec_command_tag(has_sessions),
                        size: bytes.len() as u32,
                        code,
                    },
                    HEADER_SIZE as int,
                ),
            )
            &&& bytes.skip(HEADER_SIZE as int) == handles + sessions + params
        }),
{
    let size = (HEADER_SIZE + handles.len() + sessions.len() + params.len()) as u32;
    let h = CmdHeaderModel { tag: spec_command_tag(has_sessions), size, code };
    let tail = handles + sessions + params;
    let bytes = spec_command_bytes(has_sessions, code, handles, sessions, params);
    assert(bytes =~= CmdHeader::spec_marshal(h) + tail);
    CmdHeader::lemma_unmarshal_marshal(h, tail);
    lemma_be_u16_roundtrip(0, Seq::empty());
    lemma_be_u32_roundtrip(0, Seq::empty());
    assert(bytes.skip(HEADER_SIZE as int) =~= tail);
}

} // verus!
