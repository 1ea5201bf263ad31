use vstd::prelude::*;

use crate::errors::{MarshalError, TssError, TssResult};

verus! {

/// Big-endian encoding of a 16 bit value.
pub open spec fn be_u16(v: u16) -> Seq<u8> {
    seq![(v / 0x100) as u8, (v % 0x100) as u8]
}

/// Big-endian encoding of a 32 bit value.
pub open spec fn be_u32(v: u32) -> Seq<u8> {
    seq![
        (v / 0x100_0000) as u8,
        ((v / 0x1_0000) % 0x100) as u8,
        ((v / 0x100) % 0x100) as u8,
        (v % 0x100) as u8,
    ]
}

/// The 16 bit value whose big-endian encoding starts `s`.
pub open spec fn from_be_u16(s: Seq<u8>) -> u16 {
    (s[0] as int * 0x100 + s[1] as int) as u16
}

/// The 32 bit value whose big-endian encoding starts `s`.
pub open spec fn from_be_u32(s: Seq<u8>) -> u32 {
    (s[0] as int * 0x100_0000 + s[1] as int * 0x1_0000 + s[2] as int * 0x100 + s[3] as int) as u32
}

pub proof fn lemma_be_u16_roundtrip(v: u16, s: Seq<u8>)
    ensures
        be_u16(v).len() == 2,
        from_be_u16(be_u16(v) + s) == v,
        s.len() >= 2 ==> be_u16(from_be_u16(s)) == s.take(2),
{
    let e = be_u16(v) + s;
    assert(e[0] == be_u16(v)[0] && e[1] == be_u16(v)[1]);
    if s.len() >= 2 {
        let w = from_be_u16(s);
        assert(be_u16(w) =~= s.take(2));
    }
}

proof fn lemma_u32_split(v: int)
    requires
        0 <= v < 0x1_0000_0000,
    ensures
        v == (v / 0x100_0000) * 0x100_0000 + ((v / 0x1_0000) % 0x100) * 0x1_0000 + ((v / 0x100)
            % 0x100) * 0x100 + v % 0x100,
        v / 0x100_0000 < 0x100,
{
    let a = v / 0x100;
    let b = a / 0x100;
    let c = b / 0x100;
    assert(v == a * 0x100 + v % 0x100);
    assert(a == b * 0x100 + a % 0x100);
    assert(b == c * 0x100 + b % 0x100);
    assert(b == v / 0x1_0000);
    assert(c == v / 0x100_0000);
}

proof fn lemma_u32_join(b0: int, b1: int, b2: int, b3: int)
    requires
        0 <= b0 < 0x100,
        0 <= b1 < 0x100,
        0 <= b2 < 0x100,
        0 <= b3 < 0x100,
    ensures
        ({
            let w = b0 * 0x100_0000 + b1 * 0x1_0000 + b2 * 0x100 + b3;
            &&& 0 <= w < 0x1_0000_0000
            &&& w / 0x100_0000 == b0
            &&& (w / 0x1_0000) % 0x100 == b1
            &&& (w / 0x100) % 0x100 == b2
            &&& w % 0x100 == b3
        }),
{
    let w = b0 * 0x100_0000 + b1 * 0x1_0000 + b2 * 0x100 + b3;
    let a = b0 * 0x1_0000 + b1 * 0x100 + b2;
    let b = b0 * 0x100 + b1;
    assert(w == a * 0x100 + b3);
    assert(w / 0x100 == a && w % 0x100 == b3);
    assert(a == b * 0x100 + b2);
    assert(a / 0x100 == b && a % 0x100 == b2);
    assert(b / 0x100 == b0 && b % 0x100 == b1);
    assert(w / 0x1_0000 == b) by {
        assert(w == b * 0x1_0000 + (b2 * 0x100 + b3));
    }
    assert(w / 0x100_0000 == b0) by {
        assert(w == b0 * 0x100_0000 + (b1 * 0x1_0000 + b2 * 0x100 + b3));
    }
}

pub proof fn lemma_be_u32_roundtrip(v: u32, s: Seq<u8>)
    ensures
        be_u32(v).len() == 4,
        from_be_u32(be_u32(v) + s) == v,
        s.len() >= 4 ==> be_u32(from_be_u32(s)) == s.take(4),
{
    let e = be_u32(v) + s;
    assert(e[0] == be_u32(v)[0] && e[1] == be_u32(v)[1] && e[2] == be_u32(v)[2] && e[3]
        == be_u32(v)[3]);
    lemma_u32_split(v as int);
    if s.len() >= 4 {
        lemma_u32_join(s[0] as int, s[1] as int, s[2] as int, s[3] as int);
        let w = from_be_u32(s);
        assert(be_u32(w) =~= s.take(4));
    }
}

/// Appends `data` to `out`.
pub fn append_bytes(out: &mut Vec<u8>, data: &[u8])
    ensures
        final(out)@ == old(out)@ + data@,
{
    let ghost start = out@;
    let mut i: usize = 0;
    while i < data.len()
        invariant
            i <= data@.len(),
            out@ == start + data@.take(i as int),
        decreases data@.len() - i,
    {
        out.push(data[i]);
        i = i + 1;
        assert(data@.take(i as int) =~= data@.take(i - 1) + seq![data@[i - 1]]);
    }
    assert(data@.take(i as int) =~= data@);
}

/// Writes `data` into `buf` from position `pos` on.
pub fn write_bytes(buf: &mut [u8], pos: usize, data: &[u8]) -> (r: TssResult<usize>)
    ensures
        final(buf)@.len() == old(buf)@.len(),
        match r {
            Ok(n) => {
                &&& n == data@.len()
                &&& pos + n <= old(buf)@.len()
                &&& final(buf)@ == old(buf)@.take(pos as int) + data@ + old(buf)@.skip(pos + n)
            },
            Err(e) => {
                &&& pos + data@.len() > old(buf)@.len()
                &&& e == TssError::Marshal(MarshalError::Memory)
                &&& final(buf)@ == old(buf)@
            },
        },
{
    if pos > buf.len() || data.len() > buf.len() - pos {
        return Err(TssError::Marshal(MarshalError::Memory));
    }
    let ghost start = buf@;
    let end = pos + data.len();
    let mut i: usize = 0;
    while i < data.len()
        invariant
            i <= data@.len(),
            end == pos + data@.len(),
            end <= buf@.len(),
            buf@.len() == start.len(),
            buf@ == start.take(pos as int) + data@.take(i as int) + start.skip(pos + i),
        decreases data@.len() - i,
    {
        let ghost before = buf@;
        buf[pos + i] = data[i];
        i = i + 1;
        assert(buf@ =~= start.take(pos as int) + data@.take(i as int) + start.skip(pos + i));
    }
    assert(data@.take(i as int) =~= data@);
    Ok(data.len())
}

/// A cursor over the bytes that are left to unmarshal.
pub struct UnmarshalBuf<'a> {
    buffer: &'a [u8],
    pos: usize,
}

impl<'a> View for UnmarshalBuf<'a> {
    type V = Seq<u8>;

    /// The bytes not yet consumed.
    closed spec fn view(&self) -> Seq<u8> {
        self.buffer@.skip(self.pos as int)
    }
}

impl<'a> UnmarshalBuf<'a> {
    #[verifier::type_invariant]
    spec fn inv(self) -> bool {
        self.pos <= self.buffer@.len()
    }

    pub fn new(buffer: &'a [u8]) -> (r: UnmarshalBuf<'a>)
        ensures
            r@ == buffer@,
    {
        let r = UnmarshalBuf { buffer, pos: 0 };
        assert(r@ =~= buffer@);
        r
    }

    /// The number of bytes left.
    pub fn len(&self) -> (n: usize)
        ensures
            n == self@.len(),
    {
        proof {
            use_type_invariant(self);
        }
        self.buffer.len() - self.pos
    }

    pub fn is_empty(&self) -> (b: bool)
        ensures
            b == (self@.len() == 0),
    {
        self.len() == 0
    }

    /// Takes the next `len` bytes, or nothing where fewer are left.
    pub fn get(&mut self, len: usize) -> (r: Option<&'a [u8]>)
        ensures
            match r {
                Some(s) => {
                    &&& len <= old(self)@.len()
                    &&& s@ == old(self)@.take(len as int)
                    &&& final(self)@ == old(self)@.skip(len as int)
                },
                None => len > old(self)@.len() && final(self)@ == old(self)@,
            },
    {
        proof {
            use_type_invariant(&*self);
        }
        let buffer: &'a [u8] = self.buffer;
        if len > buffer.len() - self.pos {
            return None;
        }
        let start = self.pos;
        let s: &'a [u8] = vstd::slice::slice_subrange(buffer, start, start + len);
        self.pos = start + len;
        assert(s@ =~= buffer@.skip(start as int).take(len as int));
        assert(buffer@.skip(start + len) =~= buffer@.skip(start as int).skip(len as int));
        Some(s)
    }
}

/// Structures of the TPM wire format: how a value is written as bytes and
/// read back from them.
pub trait Marshalable: Sized + View {
    /// The values that the type can hold.
    spec fn spec_wf(v: Self::V) -> bool;

    /// The encoding of a value.
    spec fn spec_marshal(v: Self::V) -> Seq<u8>;

    /// Reading a value from the front of `s`: the value and the number of
    /// bytes it took, or the reason why `s` does not start with one.
    spec fn spec_unmarshal(s: Seq<u8>) -> Result<(Self::V, int), MarshalError>;

    /// Reading back an encoding gives the value and consumes exactly the
    /// encoding, whatever follows it.
    proof fn lemma_unmarshal_marshal(v: Self::V, rest: Seq<u8>)
        requires
            Self::spec_wf(v),
        ensures
            Self::spec_unmarshal(Self::spec_marshal(v) + rest) == Ok::<(Self::V, int), MarshalError>(
                (v, Self::spec_marshal(v).len() as int),
            ),
    ;

    /// What is read is a value the type can hold, and its encoding is
    /// exactly the bytes that were consumed.
    proof fn lemma_marshal_unmarshal(s: Seq<u8>)
        ensures
            Self::spec_unmarshal(s) matches Ok((v, n)) ==> {
                &&& Self::spec_wf(v)
                &&& 0 <= n <= s.len()
                &&& Self::spec_marshal(v) == s.take(n)
            },
    ;

    /// Appends the encoding of `self` to `out`; `self` is a value that
    /// the type can hold.
    fn marshal(&self, out: &mut Vec<u8>)
        ensures
            final(out)@ == old(out)@ + Self::spec_marshal(self@),
            Self::spec_wf(self@),
    ;

    /// Reads a value from the front of `buf` and consumes its encoding.
    fn try_unmarshal(buf: &mut UnmarshalBuf) -> (r: TssResult<Self>)
        ensures
            match Self::spec_unmarshal(old(buf)@) {
                Ok((v, n)) => r matches Ok(x) && x@ == v && final(buf)@ == old(buf)@.skip(n),
                Err(e) => r == Err::<Self, TssError>(TssError::Marshal(e)),
            },
    ;

    /// Writes the encoding of `self` at the start of `buf` and returns its
    /// length; fails where `buf` is too short, and leaves it unchanged then.
    fn try_marshal(&self, buf: &mut [u8]) -> (r: TssResult<usize>)
        ensures
            final(buf)@.len() == old(buf)@.len(),
            match r {
                Ok(n) => {
                    &&& n == Self::spec_marshal(self@).len()
                    &&& final(buf)@ == Self::spec_marshal(self@) + old(buf)@.skip(n as int)
                },
                Err(e) => {
                    &&& Self::spec_marshal(self@).len() > old(buf)@.len()
                    &&& e == TssError::Marshal(MarshalError::Memory)
                    &&& final(buf)@ == old(buf)@
                },
            },
    {
        let mut bytes: Vec<u8> = Vec::new();
        self.marshal(&mut bytes);
        assert(bytes@ =~= Self::spec_marshal(self@));
        let r = write_bytes(buf, 0, bytes.as_slice());
        assert(old(buf)@.take(0) + bytes@ =~= bytes@);
        r
    }
}

impl Marshalable for u8 {
    open spec fn spec_wf(v: u8) -> bool {
        true
    }

    open spec fn spec_marshal(v: u8) -> Seq<u8> {
        seq![v]
    }

    open spec fn spec_unmarshal(s: Seq<u8>) -> Result<(u8, int), MarshalError> {
        if s.len() < 1 {
            Err(MarshalError::Insufficient)
        } else {
            Ok((s[0], 1))
        }
    }

    proof fn lemma_unmarshal_marshal(v: u8, rest: Seq<u8>) {
        assert((seq![v] + rest)[0] == v);
    }

    proof fn lemma_marshal_unmarshal(s: Seq<u8>) {
        if s.len() >= 1 {
            assert(seq![s[0]] =~= s.take(1));
        }
    }

    fn marshal(&self, out: &mut Vec<u8>) {
        out.push(*self);
        assert(out@ =~= old(out)@ + Self::spec_marshal(self@));
        assert(Self::spec_wf(self@));
    }

    fn try_unmarshal(buf: &mut UnmarshalBuf) -> (r: TssResult<u8>) {
        match buf.get(1) {
            Some(s) => Ok(s[0]),
            None => Err(TssError::Marshal(MarshalError::Insufficient)),
        }
    }
}

impl Marshalable for u16 {
    open spec fn spec_wf(v: u16) -> bool {
        true
    }

    open spec fn spec_marshal(v: u16) -> Seq<u8> {
        be_u16(v)
    }

    open spec fn spec_unmarshal(s: Seq<u8>) -> Result<(u16, int), MarshalError> {
        if s.len() < 2 {
            Err(MarshalError::Insufficient)
        } else {
            Ok((from_be_u16(s), 2))
        }
    }

    proof fn lemma_unmarshal_marshal(v: u16, rest: Seq<u8>) {
        lemma_be_u16_roundtrip(v, rest);
    }

    proof fn lemma_marshal_unmarshal(s: Seq<u8>) {
        lemma_be_u16_roundtrip(0, s);
    }

    fn marshal(&self, out: &mut Vec<u8>) {
        let v = *self;
        out.push((v / 0x100) as u8);
        out.push((v % 0x100) as u8);
        assert(out@ =~= old(out)@ + be_u16(v));
        assert(out@ == old(out)@ + Self::spec_marshal(self@));
        assert(Self::spec_wf(self@));
    }

    fn try_unmarshal(buf: &mut UnmarshalBuf) -> (r: TssResult<u16>) {
        match buf.get(2) {
            Some(s) => {
                let v = (s[0] as u16) * 0x100 + (s[1] as u16);
                Ok(v)
            },
            None => Err(TssError::Marshal(MarshalError::Insufficient)),
        }
    }
}

impl Marshalable for u32 {
    open spec fn spec_wf(v: u32) -> bool {
        true
    }

    open spec fn spec_marshal(v: u32) -> Seq<u8> {
        be_u32(v)
    }

    open spec fn spec_unmarshal(s: Seq<u8>) -> Result<(u32, int), MarshalError> {
        if s.len() < 4 {
            Err(MarshalError::Insufficient)
        } else {
            Ok((from_be_u32(s), 4))
        }
    }

    proof fn lemma_unmarshal_marshal(v: u32, rest: Seq<u8>) {
        lemma_be_u32_roundtrip(v, rest);
    }

    proof fn lemma_marshal_unmarshal(s: Seq<u8>) {
        lemma_be_u32_roundtrip(0, s);
    }

    fn marshal(&self, out: &mut Vec<u8>) {
        let v = *self;
        out.push((v / 0x100_0000) as u8);
        out.push(((v / 0x1_0000) % 0x100) as u8);
        out.push(((v / 0x100) % 0x100) as u8);
        out.push((v % 0x100) as u8);
        assert(out@ =~= old(out)@ + be_u32(v));
        assert(out@ == old(out)@ + Self::spec_marshal(self@));
        assert(Self::spec_wf(self@));
    }

    fn try_unmarshal(buf: &mut UnmarshalBuf) -> (r: TssResult<u32>) {
        match buf.get(4) {
            Some(s) => {
                let v = (s[0] as u32) * 0x100_0000 + (s[1] as u32) * 0x1_0000 + (s[2] as u32)
                    * 0x100 + (s[3] as u32);
                Ok(v)
            },
            None => Err(TssError::Marshal(MarshalError::Insufficient)),
        }
    }
}

/// The empty structure, such as the handles of a command that takes none.
impl Marshalable for () {
    open spec fn spec_wf(v: ()) -> bool {
        true
    }

    open spec fn spec_marshal(v: ()) -> Seq<u8> {
        Seq::empty()
    }

    open spec fn spec_unmarshal(s: Seq<u8>) -> Result<((), int), MarshalError> {
        Ok(((), 0))
    }

    proof fn lemma_unmarshal_marshal(v: (), rest: Seq<u8>) {
    }

    proof fn lemma_marshal_unmarshal(s: Seq<u8>) {
        assert(s.take(0) =~= Seq::<u8>::empty());
    }

    fn marshal(&self, out: &mut Vec<u8>) {
        assert(out@ =~= old(out)@ + Seq::<u8>::empty());
        assert(Self::spec_wf(self@));
    }

    fn try_unmarshal(buf: &mut UnmarshalBuf) -> (r: TssResult<()>) {
        assert(buf@.skip(0) =~= buf@);
        Ok(())
    }
}

} // verus!

verus! {

/// Whether two byte strings are equal.
pub fn bytes_eq(a: &[u8], b: &[u8]) -> (r: bool)
    ensures
        r == (a@ == b@),
{
    if a.len() != b.len() {
        return false;
    }
    let mut i: usize = 0;
    while i < a.len()
        invariant
            a@.len() == b@.len(),
            i <= a@.len(),
            forall|j: int| 0 <= j < i ==> a@[j] == b@[j],
        decreases a@.len() - i,
    {
        if a[i] != b[i] {
            return false;
        }
        i = i + 1;
    }
    assert(a@ =~= b@);
    true
}

} // verus!
