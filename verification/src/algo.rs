use vstd::prelude::*;

use hmac::Mac;
use sha2::Digest;

use crate::marshal::append_bytes;

verus! {

/// A digest algorithm: its hash function and the HMAC built on it.
pub trait AlgoDigest {
    type Hasher: AlgoDigestHasher;

    type Hmac: AlgoDigestHmac;
}

/// A hash function, fed incrementally.
pub trait AlgoDigestHasher: Sized {
    /// The length of a digest.
    spec fn spec_output_size() -> nat;

    /// The length of a digest.
    fn output_size() -> (n: usize)
        ensures
            n == Self::spec_output_size(),
    ;

    /// The digest of a message.
    spec fn spec_digest(msg: Seq<u8>) -> Seq<u8>;

    /// The message fed so far.
    spec fn absorbed(&self) -> Seq<u8>;

    fn new() -> (h: Self)
        ensures
            h.absorbed() == Seq::<u8>::empty(),
    ;

    fn update(&mut self, data: &[u8])
        ensures
            final(self).absorbed() == old(self).absorbed() + data@,
    ;

    fn finalize(self) -> (out: Vec<u8>)
        ensures
            out@ == Self::spec_digest(self.absorbed()),
            out@.len() == Self::spec_output_size(),
    ;
}

/// A keyed message authentication code, fed incrementally.
pub trait AlgoDigestHmac: Sized {
    /// The length of a code.
    spec fn spec_output_size() -> nat;

    /// The length of a code.
    fn output_size() -> (n: usize)
        ensures
            n == Self::spec_output_size(),
    ;

    /// The code of a message under a key.
    spec fn spec_mac(key: Seq<u8>, msg: Seq<u8>) -> Seq<u8>;

    /// The key.
    spec fn key(&self) -> Seq<u8>;

    /// The message fed so far.
    spec fn absorbed(&self) -> Seq<u8>;

    fn new(key: &[u8]) -> (m: Self)
        ensures
            m.key() == key@,
            m.absorbed() == Seq::<u8>::empty(),
    ;

    fn update(&mut self, data: &[u8])
        ensures
            final(self).key() == old(self).key(),
            final(self).absorbed() == old(self).absorbed() + data@,
    ;

    fn finalize(self) -> (out: Vec<u8>)
        ensures
            out@ == Self::spec_mac(self.key(), self.absorbed()),
            out@.len() == Self::spec_output_size(),
    ;
}

/// The SHA-256 digest of a message, as the `sha2` crate computes it.
pub uninterp spec fn spec_sha256(msg: Seq<u8>) -> Seq<u8>;

/// HMAC-SHA-256 of a message under a key, as the `hmac` crate computes it.
pub uninterp spec fn spec_hmac_sha256(key: Seq<u8>, msg: Seq<u8>) -> Seq<u8>;

/// Calls `sha2::Sha256::digest`: the result is the SHA-256 digest of `msg`,
/// which is 32 bytes long.
#[verifier::external_body]
fn sha256_digest(msg: &[u8]) -> (r: Vec<u8>)
    ensures
        r@ == spec_sha256(msg@),
        r@.len() == 32,
{
    sha2::Sha256::digest(msg).to_vec()
}

/// Computes HMAC-SHA-256 with `hmac::Hmac<sha2::Sha256>`: a key of any length
/// is accepted (`new_from_slice` does not fail for HMAC), the message is fed
/// at once, and the code is 32 bytes long.
#[verifier::external_body]
fn hmac_sha256(key: &[u8], msg: &[u8]) -> (r: Vec<u8>)
    ensures
        r@ == spec_hmac_sha256(key@, msg@),
        r@.len() == 32,
{
    let mut mac = <hmac::Hmac<sha2::Sha256> as Mac>::new_from_slice(key).unwrap();
    mac.update(msg);
    mac.finalize().into_bytes().to_vec()
}

/// SHA-256 and HMAC-SHA-256.
pub struct AlgoSha256;

impl AlgoDigest for AlgoSha256 {
    type Hmac = AlgoSha256Hmac;

    type Hasher = AlgoSha256Hasher;
}

/// SHA-256, holding the message until it is finalized.
pub struct AlgoSha256Hasher {
    msg: Vec<u8>,
}

impl AlgoDigestHasher for AlgoSha256Hasher {
    open spec fn spec_output_size() -> nat {
        32
    }

    fn output_size() -> (n: usize) {
        32
    }

    open spec fn spec_digest(msg: Seq<u8>) -> Seq<u8> {
        spec_sha256(msg)
    }

    closed spec fn absorbed(&self) -> Seq<u8> {
        self.msg@
    }

    fn new() -> (h: Self) {
        AlgoSha256Hasher { msg: Vec::new() }
    }

    fn update(&mut self, data: &[u8]) {
        append_bytes(&mut self.msg, data);
    }

    fn finalize(self) -> (out: Vec<u8>) {
        sha256_digest(self.msg.as_slice())
    }
}

/// HMAC-SHA-256, holding the key and the message until it is finalized.
pub struct AlgoSha256Hmac {
    key: Vec<u8>,
    msg: Vec<u8>,
}

impl AlgoDigestHmac for AlgoSha256Hmac {
    open spec fn spec_output_size() -> nat {
        32
    }

    fn output_size() -> (n: usize) {
        32
    }

    open spec fn spec_mac(key: Seq<u8>, msg: Seq<u8>) -> Seq<u8> {
        spec_hmac_sha256(key, msg)
    }

    closed spec fn key(&self) -> Seq<u8> {
        self.key@
    }

    closed spec fn absorbed(&self) -> Seq<u8> {
        self.msg@
    }

    fn new(key: &[u8]) -> (m: Self) {
        let mut k: Vec<u8> = Vec::new();
        append_bytes(&mut k, key);
        assert(k@ =~= key@);
        AlgoSha256Hmac { key: k, msg: Vec::new() }
    }

    fn update(&mut self, data: &[u8]) {
        append_bytes(&mut self.msg, data);
    }

    fn finalize(self) -> (out: Vec<u8>) {
        hmac_sha256(self.key.as_slice(), self.msg.as_slice())
    }
}

} // verus!
