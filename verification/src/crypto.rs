use vstd::prelude::*;

use crate::algo::{AlgoDigestHasher, AlgoDigestHmac};
use crate::errors::{MarshalError, TssError, TssResult, TssTcsError, TPM_RC_SUCCESS};
use crate::marshal::{append_bytes, be_u32, lemma_be_u16_roundtrip, write_bytes, Marshalable};
use crate::tpm2b::{Tpm2bDigest, Tpm2bName, Tpm2bNonce};
use crate::types::{TpmCc, TpmCommand, TpmaSession};

verus! {

/// The counter of the single iteration of KDFa.
pub const KDFA_COUNTER: u32 = 1;

/// The message that KDFa authenticates for one block of output: the counter,
/// the label, a zero octet unless the label ends with one, the context, and
/// the number of bits requested.
pub open spec fn spec_kdfa_message(label: Seq<u8>, context: Seq<u8>, bits: u32) -> Seq<u8> {
    be_u32(KDFA_COUNTER) + label + (if label.len() == 0 || label.last() != 0 {
        seq![0u8]
    } else {
        Seq::empty()
    }) + context + be_u32(bits)
}

/// The number of bits of one output block of a MAC.
pub open spec fn spec_output_bits<M: AlgoDigestHmac>() -> u32 {
    (M::spec_output_size() * 8) as u32
}

/// A MAC whose output length in bits fits in 32 bits.
pub open spec fn output_bits_fit<M: AlgoDigestHmac>() -> bool {
    M::spec_output_size() * 8 <= u32::MAX
}

/// KDFa with a single block of output: the MAC of the KDFa message under `key`.
fn kdfa<M: AlgoDigestHmac>(key: &[u8], label: &[u8], context: &[u8]) -> (r: TssResult<Vec<u8>>)
    requires
        output_bits_fit::<M>(),
    ensures
        r matches Ok(out) && out@ == M::spec_mac(
            key@,
            spec_kdfa_message(label@, context@, spec_output_bits::<M>()),
        ),
{
    let mut mac = M::new(key);
    let counter: u32 = KDFA_COUNTER;
    let bits: u32 = (M::output_size() as u32) * 8;

    let mut counter_bytes: Vec<u8> = Vec::new();
    counter.marshal(&mut counter_bytes);
    mac.update(counter_bytes.as_slice());
    mac.update(label);
    let pad = label.len() == 0 || label[label.len() - 1] != 0;
    if pad {
        let zero: Vec<u8> = vec![0u8];
        assert(zero@ =~= seq![0u8]);
        mac.update(zero.as_slice());
    }
    mac.update(context);
    let mut bits_bytes: Vec<u8> = Vec::new();
    bits.marshal(&mut bits_bytes);
    mac.update(bits_bytes.as_slice());
    proof {
        let pad_bytes: Seq<u8> = if pad { seq![0u8] } else { Seq::empty() };
        if label@.len() > 0 {
            assert(label@.last() == label@[label@.len() - 1]);
        }
        assert(mac.absorbed() =~= spec_kdfa_message(label@, context@, spec_output_bits::<M>()));
    }
    Ok(mac.finalize())
}

/// The label of the session key derivation.
pub open spec fn spec_session_key_label() -> Seq<u8> {
    seq![0x41u8, 0x54u8, 0x48u8]
}

/// The session key: KDFa keyed with the authorization value followed by the
/// salt, labelled "ATH", over the TPM's nonce followed by the caller's.
pub open spec fn spec_session_key<M: AlgoDigestHmac>(
    auth_val: Seq<u8>,
    salt: Seq<u8>,
    nonce_tpm: Seq<u8>,
    nonce_caller: Seq<u8>,
) -> Seq<u8> {
    M::spec_mac(
        auth_val + salt,
        spec_kdfa_message(spec_session_key_label(), nonce_tpm + nonce_caller, spec_output_bits::<M>()),
    )
}

/// Derives the key of a session from its authorization value, its salt and
/// the two nonces exchanged when it was started.
pub fn session_key<M: AlgoDigestHmac>(
    auth_val: &[u8],
    salt: &[u8],
    nonce_tpm: &Tpm2bNonce,
    nonce_caller: &Tpm2bNonce,
) -> (r: TssResult<Vec<u8>>)
    requires
        output_bits_fit::<M>(),
    ensures
        r matches Ok(key) && key@ == spec_session_key::<M>(
            auth_val@,
            salt@,
            nonce_tpm@,
            nonce_caller@,
        ),
{
    let mut key: Vec<u8> = Vec::new();
    append_bytes(&mut key, auth_val);
    append_bytes(&mut key, salt);
    let mut context: Vec<u8> = Vec::new();
    append_bytes(&mut context, nonce_tpm.get_buffer());
    append_bytes(&mut context, nonce_caller.get_buffer());
    let label: Vec<u8> = vec![0x41u8, 0x54u8, 0x48u8];
    assert(label@ =~= spec_session_key_label());
    kdfa::<M>(key.as_slice(), label.as_slice(), context.as_slice())
}

/// The parts of a command that its parameter hash draws on: its code, its
/// marshalled handles and its marshalled parameters.
pub struct CommandParts {
    pub code: TpmCc,
    pub handles: Seq<u8>,
    pub params: Seq<u8>,
}

/// The parts of the command `cmd` with handles `handles`.
pub open spec fn spec_command_parts<CmdT: TpmCommand>(
    cmd: CmdT::V,
    handles: <CmdT::Handles as View>::V,
) -> CommandParts {
    CommandParts {
        code: CmdT::spec_cmd_code(),
        handles: CmdT::Handles::spec_marshal(handles),
        params: CmdT::spec_marshal(cmd),
    }
}

/// What the command parameter hash covers: the command code, the object's
/// name where one is given and the marshalled handles otherwise, and the
/// marshalled command parameters.
pub open spec fn spec_cp_input(parts: CommandParts, object_name: Option<Seq<u8>>) -> Seq<u8> {
    be_u32(parts.code.spec_value()) + match object_name {
        Some(name) => name,
        None => parts.handles,
    } + parts.params
}

/// What the command parameter hash of `cmd` with handles `handles` covers.
pub open spec fn spec_cp_hash_input<CmdT: TpmCommand>(
    cmd: CmdT::V,
    handles: <CmdT::Handles as View>::V,
    object_name: Option<Seq<u8>>,
) -> Seq<u8> {
    spec_cp_input(spec_command_parts::<CmdT>(cmd, handles), object_name)
}

/// Whether a work buffer of `len` bytes holds each part of the command
/// parameter hash in turn.
pub open spec fn cp_hash_fits<CmdT: TpmCommand>(
    cmd: CmdT::V,
    handles: <CmdT::Handles as View>::V,
    has_name: bool,
    len: nat,
) -> bool {
    &&& 4 <= len
    &&& has_name || CmdT::Handles::spec_marshal(handles).len() <= len
    &&& CmdT::spec_marshal(cmd).len() <= len
}

/// The command parameter hash (cpHash) of a command, computed with the work
/// buffer `wrk_buf`; fails where the buffer cannot hold one of its parts.
pub fn cp_hash<CmdT: TpmCommand, H: AlgoDigestHasher>(
    cmd: &CmdT,
    cmd_handles: &CmdT::Handles,
    object_name: Option<Tpm2bName>,
    wrk_buf: &mut [u8],
) -> (r: TssResult<Vec<u8>>)
    ensures
        final(wrk_buf)@.len() == old(wrk_buf)@.len(),
        cp_hash_fits::<CmdT>(cmd@, cmd_handles@, object_name is Some, old(wrk_buf)@.len()) ==> (r
            matches Ok(d) && d@ == H::spec_digest(
            spec_cp_hash_input::<CmdT>(
                cmd@,
                cmd_handles@,
                match object_name {
                    Some(n) => Some(n@),
                    None => None,
                },
            ),
        )),
        !cp_hash_fits::<CmdT>(cmd@, cmd_handles@, object_name is Some, old(wrk_buf)@.len()) ==> r
            == Err::<Vec<u8>, TssError>(TssError::Marshal(MarshalError::Memory)),
{
    let mut hash = H::new();

    let code = CmdT::cmd_code();
    let n = code.try_marshal(wrk_buf)?;
    hash.update(&wrk_buf[0..n]);
    assert(wrk_buf@.subrange(0, n as int) =~= be_u32(CmdT::spec_cmd_code().spec_value()));

    let ghost middle: Seq<u8>;
    match object_name {
        Some(name) => {
            hash.update(name.get_buffer());
            proof {
                middle = name@;
            }
        },
        None => {
            let n = cmd_handles.try_marshal(wrk_buf)?;
            hash.update(&wrk_buf[0..n]);
            proof {
                middle = CmdT::Handles::spec_marshal(cmd_handles@);
                assert(wrk_buf@.subrange(0, n as int) =~= middle);
            }
        },
    }

    let n = cmd.try_marshal(wrk_buf)?;
    hash.update(&wrk_buf[0..n]);
    assert(wrk_buf@.subrange(0, n as int) =~= CmdT::spec_marshal(cmd@));
    Ok(hash.finalize())
}

/// What the response parameter hash covers: the success response code, the
/// command code and the marshalled response parameters.
pub open spec fn spec_rp_hash_input<CmdT: TpmCommand>(resp: <CmdT::RespT as View>::V) -> Seq<u8> {
    be_u32(TPM_RC_SUCCESS) + be_u32(CmdT::spec_cmd_code().spec_value()) + CmdT::RespT::spec_marshal(resp)
}

/// Whether a work buffer of `len` bytes holds each part of the response
/// parameter hash in turn.
pub open spec fn rp_hash_fits<CmdT: TpmCommand>(resp: <CmdT::RespT as View>::V, len: nat) -> bool {
    4 <= len && CmdT::RespT::spec_marshal(resp).len() <= len
}

/// The response parameter hash (rpHash) of a successful response, computed
/// with the work buffer `wrk_buf`; fails where the buffer cannot hold one of
/// its parts.
pub fn rp_hash<CmdT: TpmCommand, H: AlgoDigestHasher>(
    resp: &CmdT::RespT,
    wrk_buf: &mut [u8],
) -> (r: TssResult<Vec<u8>>)
    ensures
        final(wrk_buf)@.len() == old(wrk_buf)@.len(),
        rp_hash_fits::<CmdT>(resp@, old(wrk_buf)@.len()) ==> (r matches Ok(d) && d@
            == H::spec_digest(spec_rp_hash_input::<CmdT>(resp@))),
        !rp_hash_fits::<CmdT>(resp@, old(wrk_buf)@.len()) ==> r == Err::<Vec<u8>, TssError>(
            TssError::Marshal(MarshalError::Memory),
        ),
{
    let mut hash = H::new();

    let success: u32 = TPM_RC_SUCCESS;
    let n = success.try_marshal(wrk_buf)?;
    hash.update(&wrk_buf[0..n]);
    assert(wrk_buf@.subrange(0, n as int) =~= be_u32(TPM_RC_SUCCESS));

    let code = CmdT::cmd_code();
    let n = code.try_marshal(wrk_buf)?;
    hash.update(&wrk_buf[0..n]);
    assert(wrk_buf@.subrange(0, n as int) =~= be_u32(CmdT::spec_cmd_code().spec_value()));

    let n = resp.try_marshal(wrk_buf)?;
    hash.update(&wrk_buf[0..n]);
    assert(wrk_buf@.subrange(0, n as int) =~= CmdT::RespT::spec_marshal(resp@));
    Ok(hash.finalize())
}

/// What a session HMAC covers: the parameter hash, the newer nonce, the older
/// nonce (both without their size fields) and the session attributes.
pub open spec fn spec_hmac_message(
    p_hash: Seq<u8>,
    nonce_newer: Seq<u8>,
    nonce_older: Seq<u8>,
    session_attributes: u8,
) -> Seq<u8> {
    p_hash + nonce_newer + nonce_older + seq![session_attributes]
}

/// The error, if any, that a work buffer of `len` bytes causes in the HMAC
/// computation: first the key must fit, then each nonce with its size field.
pub open spec fn hmac_scratch_error(
    len: nat,
    key_len: nat,
    newer_len: nat,
    older_len: nat,
) -> Option<TssError> {
    if len < key_len {
        Some(TssError::Tcs(TssTcsError::OutOfMemory))
    } else if len < 2 + newer_len || len < 2 + older_len || len < 1 {
        Some(TssError::Marshal(MarshalError::Memory))
    } else {
        None
    }
}

/// The session HMAC: keyed with the session key followed by the
/// authorization value.
pub open spec fn spec_hmac_computation<M: AlgoDigestHmac>(
    auth_val: Seq<u8>,
    session_key: Seq<u8>,
    p_hash: Seq<u8>,
    nonce_newer: Seq<u8>,
    nonce_older: Seq<u8>,
    session_attributes: u8,
) -> Seq<u8> {
    M::spec_mac(
        session_key + auth_val,
        spec_hmac_message(p_hash, nonce_newer, nonce_older, session_attributes),
    )
}

/// Computes the HMAC of a command or response authorization, using `wrk_buf`
/// to assemble the key and to marshal the nonces and attributes.
pub fn hmac_computation<M: AlgoDigestHmac>(
    auth_val: &[u8],
    session_key: &[u8],
    p_hash: &[u8],
    nonce_newer: &Tpm2bNonce,
    nonce_older: &Tpm2bNonce,
    session_attributes: &TpmaSession,
    wrk_buf: &mut [u8],
) -> (r: TssResult<Tpm2bDigest>)
    ensures
        final(wrk_buf)@.len() == old(wrk_buf)@.len(),
        ({
            let err = hmac_scratch_error(
                old(wrk_buf)@.len(),
                session_key@.len() + auth_val@.len(),
                nonce_newer@.len(),
                nonce_older@.len(),
            );
            match err {
                Some(e) => r == Err::<Tpm2bDigest, TssError>(e),
                None => if M::spec_output_size() > 64 {
                    r == Err::<Tpm2bDigest, TssError>(TssError::Marshal(MarshalError::Size))
                } else {
                    r matches Ok(d) && d@.len() == M::spec_output_size() && d@ == spec_hmac_computation::<M>(
                        auth_val@,
                        session_key@,
                        p_hash@,
                        nonce_newer@,
                        nonce_older@,
                        session_attributes@,
                    )
                },
            }
        }),
{
    let n0 = session_key.len();
    let n1 = auth_val.len();

    if n0 > wrk_buf.len() || n1 > wrk_buf.len() - n0 {
        return Err(TssError::Tcs(TssTcsError::OutOfMemory));
    }
    let ghost start = wrk_buf@;
    let _ = write_bytes(wrk_buf, 0, session_key);
    let _ = write_bytes(wrk_buf, n0, auth_val);
    let key = &wrk_buf[0..n0 + n1];
    assert(key@ =~= session_key@ + auth_val@);

    let mut mac = M::new(key);

    mac.update(p_hash);

    let n = nonce_newer.try_marshal(wrk_buf)?;
    proof {
        lemma_be_u16_roundtrip(nonce_newer@.len() as u16, Seq::empty());
    }
    assert(wrk_buf@.subrange(2, n as int) =~= nonce_newer@);
    mac.update(&wrk_buf[2..n]);

    let n = nonce_older.try_marshal(wrk_buf)?;
    proof {
        lemma_be_u16_roundtrip(nonce_older@.len() as u16, Seq::empty());
    }
    assert(wrk_buf@.subrange(2, n as int) =~= nonce_older@);
    mac.update(&wrk_buf[2..n]);

    let n = session_attributes.try_marshal(wrk_buf)?;
    assert(wrk_buf@.subrange(0, n as int) =~= seq![session_attributes@]);
    mac.update(&wrk_buf[0..n]);

    assert(mac.absorbed() =~= spec_hmac_message(
        p_hash@,
        nonce_newer@,
        nonce_older@,
        session_attributes@,
    ));
    let out = mac.finalize();
    Tpm2bDigest::from_bytes(out.as_slice())
}

/// KDFa appends a zero octet to the label only where the label is empty or
/// does not already end with one.
pub proof fn law_kdfa_label_terminator(label: Seq<u8>, context: Seq<u8>, bits: u32)
    ensures
        label.len() > 0 && label.last() == 0 ==> spec_kdfa_message(label, context, bits) == be_u32(
            KDFA_COUNTER,
        ) + label + context + be_u32(bits),
        (label.len() == 0 || label.last() != 0) ==> spec_kdfa_message(label, context, bits)
            == be_u32(KDFA_COUNTER) + label + seq![0u8] + context + be_u32(bits),
{
    if label.len() > 0 && label.last() == 0 {
        assert(be_u32(KDFA_COUNTER) + label + Seq::<u8>::empty() =~= be_u32(KDFA_COUNTER) + label);
    }
}

/// A label that does not end with a zero octet gives the same KDFa message
/// whether or not the caller appends the terminating zero itself: the label
/// always enters with exactly one.
pub proof fn law_kdfa_label_terminated_once(label: Seq<u8>, context: Seq<u8>, bits: u32)
    requires
        label.len() == 0 || label.last() != 0,
    ensures
        spec_kdfa_message(label.push(0u8), context, bits) == spec_kdfa_message(label, context, bits),
{
    assert(label.push(0u8).last() == 0u8);
    assert(be_u32(KDFA_COUNTER) + label.push(0u8) + Seq::<u8>::empty() =~= be_u32(KDFA_COUNTER)
        + label + seq![0u8]);
}

/// Without an object name, the command parameter hash covers exactly the
/// command code in big-endian order, then the marshalled handles, then the
/// marshalled parameters.
pub proof fn law_cp_hash_input_with_handles<CmdT: TpmCommand>(
    cmd: CmdT::V,
    handles: <CmdT::Handles as View>::V,
)
    ensures
        spec_cp_hash_input::<CmdT>(cmd, handles, None) == be_u32(CmdT::spec_cmd_code().spec_value())
            + CmdT::Handles::spec_marshal(handles) + CmdT::spec_marshal(cmd),
{
}

/// With an object name, the command parameter hash covers exactly the
/// command code in big-endian order, then the name, then the marshalled
/// parameters: the handles play no part.
pub proof fn law_cp_hash_input_with_name<CmdT: TpmCommand>(
    cmd: CmdT::V,
    handles: <CmdT::Handles as View>::V,
    other_handles: <CmdT::Handles as View>::V,
    name: Seq<u8>,
)
    ensures
        spec_cp_hash_input::<CmdT>(cmd, handles, Some(name)) == be_u32(
            CmdT::spec_cmd_code().spec_value(),
        ) + name + CmdT::spec_marshal(cmd),
        spec_cp_hash_input::<CmdT>(cmd, handles, Some(name)) == spec_cp_hash_input::<CmdT>(
            cmd,
            other_handles,
            Some(name),
        ),
{
}

/// The response parameter hash covers exactly the success response code and
/// the command code, both in big-endian order, then the marshalled response
/// parameters.
pub proof fn law_rp_hash_input<CmdT: TpmCommand>(resp: <CmdT::RespT as View>::V)
    ensures
        spec_rp_hash_input::<CmdT>(resp) == seq![0u8, 0u8, 0u8, 0u8] + be_u32(
            CmdT::spec_cmd_code().spec_value(),
        ) + CmdT::RespT::spec_marshal(resp),
{
    assert(be_u32(TPM_RC_SUCCESS) =~= seq![0u8, 0u8, 0u8, 0u8]) by {
        crate::marshal::lemma_be_u32_roundtrip(0, Seq::empty());
    }
}

/// A session HMAC is the MAC keyed with the session key followed by the
/// authorization value, over the parameter hash, the newer nonce, the older
/// nonce and the attributes octet, in that order.
pub proof fn law_session_hmac<M: AlgoDigestHmac>(
    auth_val: Seq<u8>,
    session_key: Seq<u8>,
    p_hash: Seq<u8>,
    nonce_newer: Seq<u8>,
    nonce_older: Seq<u8>,
    session_attributes: u8,
)
    ensures
        spec_hmac_computation::<M>(
            auth_val,
            session_key,
            p_hash,
            nonce_newer,
            nonce_older,
            session_attributes,
        ) == M::spec_mac(
            session_key + auth_val,
            p_hash + nonce_newer + nonce_older + seq![session_attributes],
        ),
{
}

/// The session key is the MAC keyed with the authorization value followed by
/// the salt, over the counter 1, the label "ATH" with its zero terminator, the
/// TPM's nonce, the caller's nonce, and the MAC's output length in bits.
pub proof fn law_session_key<M: AlgoDigestHmac>(
    auth_val: Seq<u8>,
    salt: Seq<u8>,
    nonce_tpm: Seq<u8>,
    nonce_caller: Seq<u8>,
)
    ensures
        spec_session_key::<M>(auth_val, salt, nonce_tpm, nonce_caller) == M::spec_mac(
            auth_val + salt,
            be_u32(1) + seq![0x41u8, 0x54u8, 0x48u8, 0u8] + nonce_tpm + nonce_caller + be_u32(
                spec_output_bits::<M>(),
            ),
        ),
{
    let label = spec_session_key_label();
    assert(label.last() == 0x48u8);
    assert(be_u32(KDFA_COUNTER) + label + seq![0u8] + (nonce_tpm + nonce_caller) + be_u32(
        spec_output_bits::<M>(),
    ) =~= be_u32(1) + seq![0x41u8, 0x54u8, 0x48u8, 0u8] + nonce_tpm + nonce_caller + be_u32(
        spec_output_bits::<M>(),
    ));
}

} // verus!
