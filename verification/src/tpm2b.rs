use vstd::prelude::*;

use crate::errors::{MarshalError, TssError, TssResult};
use crate::marshal::{append_bytes, be_u16, from_be_u16, lemma_be_u16_roundtrip, Marshalable, UnmarshalBuf};

verus! {

/// The encoding of a sized buffer: its length as a 16 bit value, then its bytes.
pub open spec fn spec_tpm2b_marshal(v: Seq<u8>) -> Seq<u8> {
    be_u16(v.len() as u16) + v
}

/// Reading a sized buffer that holds at most `max` bytes from the front of `s`.
pub open spec fn spec_tpm2b_unmarshal(max: nat, s: Seq<u8>) -> Result<(Seq<u8>, int), MarshalError> {
    if s.len() < 2 {
        Err(MarshalError::Insufficient)
    } else {
        let size = from_be_u16(s);
        if size > max {
            Err(MarshalError::Size)
        } else if s.len() < 2 + size {
            Err(MarshalError::Insufficient)
        } else {
            Ok((s.subrange(2, 2 + size), 2 + size))
        }
    }
}

pub proof fn lemma_tpm2b_unmarshal_marshal(max: nat, v: Seq<u8>, rest: Seq<u8>)
    requires
        v.len() <= max,
        v.len() <= 0xffff,
    ensures
        spec_tpm2b_unmarshal(max, spec_tpm2b_marshal(v) + rest) == Ok::<(Seq<u8>, int), MarshalError>(
            (v, spec_tpm2b_marshal(v).len() as int),
        ),
        spec_tpm2b_marshal(v).len() == 2 + v.len(),
{
    let s = spec_tpm2b_marshal(v) + rest;
    assert(s =~= be_u16(v.len() as u16) + (v + rest));
    lemma_be_u16_roundtrip(v.len() as u16, v + rest);
    assert(s.subrange(2, 2 + v.len() as int) =~= v);
}

pub proof fn lemma_tpm2b_marshal_unmarshal(max: nat, s: Seq<u8>)
    ensures
        spec_tpm2b_unmarshal(max, s) matches Ok((v, n)) ==> {
            &&& v.len() <= max
            &&& v.len() <= 0xffff
            &&& n == 2 + v.len()
            &&& n <= s.len()
            &&& spec_tpm2b_marshal(v) == s.take(n)
        },
{
    if s.len() >= 2 {
        lemma_be_u16_roundtrip(0, s);
        let size = from_be_u16(s);
        if size <= max && s.len() >= 2 + size {
            let v = s.subrange(2, 2 + size);
            assert(v.len() as u16 == size);
            assert(be_u16(v.len() as u16) =~= s.take(2));
            assert(spec_tpm2b_marshal(v) =~= s.take(2 + size));
        }
    }
}

/// Appends the encoding of a sized buffer to `out`.
pub fn marshal_tpm2b(data: &[u8], out: &mut Vec<u8>)
    requires
        data@.len() <= 0xffff,
    ensures
        final(out)@ == old(out)@ + spec_tpm2b_marshal(data@),
{
    let size: u16 = data.len() as u16;
    size.marshal(out);
    append_bytes(out, data);
    assert(final(out)@ =~= old(out)@ + spec_tpm2b_marshal(data@));
}

/// Reads a sized buffer of at most `max` bytes from the front of `buf`.
pub fn unmarshal_tpm2b<'a>(max: usize, buf: &mut UnmarshalBuf<'a>) -> (r: TssResult<&'a [u8]>)
    ensures
        match spec_tpm2b_unmarshal(max as nat, old(buf)@) {
            Ok((v, n)) => r matches Ok(s) && s@ == v && final(buf)@ == old(buf)@.skip(n),
            Err(e) => r == Err::<&'a [u8], TssError>(TssError::Marshal(e)),
        },
{
    let ghost start = buf@;
    let size = u16::try_unmarshal(buf)?;
    if size as usize > max {
        return Err(TssError::Marshal(MarshalError::Size));
    }
    match buf.get(size as usize) {
        Some(s) => {
            assert(s@ =~= start.subrange(2, 2 + size));
            assert(start.skip(2).skip(size as int) =~= start.skip(2 + size));
            Ok(s)
        },
        None => Err(TssError::Marshal(MarshalError::Insufficient)),
    }
}

/// A sized buffer of the TPM (a `TPM2B`) that holds at most `MAX` bytes.
pub struct Tpm2b<const MAX: usize> {
    buffer: Vec<u8>,
}

/// A digest of one of the TPM's hash algorithms.
pub type Tpm2bDigest = Tpm2b<64>;

/// A nonce, as large as a digest can be.
pub type Tpm2bNonce = Tpm2bDigest;

/// An authorization value or HMAC.
pub type Tpm2bAuth = Tpm2bDigest;

/// Data that a caller hands to a command, at most the size of a digest.
pub type Tpm2bData = Tpm2bDigest;

/// The name of an entity: a digest with its algorithm, or a handle.
pub type Tpm2bName = Tpm2b<66>;

/// A sensitive area in its marshalled form.
pub type Tpm2bSensitive = Tpm2b<0xffff>;

/// A public area in its marshalled form.
pub type Tpm2bPublic = Tpm2b<0xffff>;

impl<const MAX: usize> View for Tpm2b<MAX> {
    type V = Seq<u8>;

    closed spec fn view(&self) -> Seq<u8> {
        self.buffer@
    }
}

impl<const MAX: usize> Tpm2b<MAX> {
    #[verifier::type_invariant]
    spec fn inv(self) -> bool {
        self.buffer@.len() <= MAX && self.buffer@.len() <= 0xffff
    }

    /// The byte strings that a buffer of this type can hold.
    pub open spec fn fits(v: Seq<u8>) -> bool {
        v.len() <= MAX && v.len() <= 0xffff
    }

    /// A buffer with `bytes`, or a size error where they do not fit.
    pub fn from_bytes(bytes: &[u8]) -> (r: TssResult<Self>)
        ensures
            match r {
                Ok(b) => Self::fits(bytes@) && b@ == bytes@,
                Err(e) => !Self::fits(bytes@) && e == TssError::Marshal(MarshalError::Size),
            },
    {
        if bytes.len() > MAX || bytes.len() > 0xffff {
            return Err(TssError::Marshal(MarshalError::Size));
        }
        let mut buffer: Vec<u8> = Vec::new();
        append_bytes(&mut buffer, bytes);
        assert(buffer@ =~= bytes@);
        Ok(Tpm2b { buffer })
    }

    /// The empty buffer.
    pub fn empty() -> (r: Self)
        ensures
            r@ == Seq::<u8>::empty(),
    {
        Tpm2b { buffer: Vec::new() }
    }

    /// The bytes held.
    pub fn get_buffer(&self) -> (r: &[u8])
        ensures
            r@ == self@,
    {
        self.buffer.as_slice()
    }

    /// The number of bytes held.
    pub fn get_size(&self) -> (r: u16)
        ensures
            r as int == self@.len(),
    {
        proof {
            use_type_invariant(self);
        }
        self.buffer.len() as u16
    }

    /// A buffer with the same bytes.
    pub fn copy(&self) -> (r: Self)
        ensures
            r@ == self@,
    {
        proof {
            use_type_invariant(self);
        }
        let mut buffer: Vec<u8> = Vec::new();
        append_bytes(&mut buffer, self.buffer.as_slice());
        assert(buffer@ =~= self.buffer@);
        Tpm2b { buffer }
    }
}

impl<const MAX: usize> Marshalable for Tpm2b<MAX> {
    open spec fn spec_wf(v: Seq<u8>) -> bool {
        Self::fits(v)
    }

    open spec fn spec_marshal(v: Seq<u8>) -> Seq<u8> {
        spec_tpm2b_marshal(v)
    }

    open spec fn spec_unmarshal(s: Seq<u8>) -> Result<(Seq<u8>, int), MarshalError> {
        spec_tpm2b_unmarshal(MAX as nat, s)
    }

    proof fn lemma_unmarshal_marshal(v: Seq<u8>, rest: Seq<u8>) {
        lemma_tpm2b_unmarshal_marshal(MAX as nat, v, rest);
    }

    proof fn lemma_marshal_unmarshal(s: Seq<u8>) {
        lemma_tpm2b_marshal_unmarshal(MAX as nat, s);
    }

    fn marshal(&self, out: &mut Vec<u8>) {
        proof {
            use_type_invariant(self);
        }
        marshal_tpm2b(self.buffer.as_slice(), out);
        assert(out@ == old(out)@ + Self::spec_marshal(self@));
        assert(Self::spec_wf(self@));
    }

    fn try_unmarshal(buf: &mut UnmarshalBuf) -> (r: TssResult<Self>) {
        let s = unmarshal_tpm2b(MAX, buf)?;
        proof {
            lemma_tpm2b_marshal_unmarshal(MAX as nat, old(buf)@);
        }
        let mut buffer: Vec<u8> = Vec::new();
        append_bytes(&mut buffer, s);
        assert(buffer@ =~= s@);
        Ok(Tpm2b { buffer })
    }
}

} // verus!
