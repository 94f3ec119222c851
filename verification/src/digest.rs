use vstd::prelude::*;
use sha2::Digest;

verus! {

/// How many bytes of a file are fed to the hash at a time, so that memory
/// use stays bounded regardless of file size.
pub const DIGEST_CHUNK: usize = 8192;

/// The SHA-512/256 streaming hasher of the sha2 crate, held opaquely.
#[verifier::external_type_specification]
#[verifier::external_body]
pub struct ExSha512Trunc256(sha2::Sha512Trunc256);

/// The 32-byte SHA-512/256 digest of a byte sequence. The digest is a
/// function of the bytes alone: the same content yields the same digest
/// on every run and every machine.
pub uninterp spec fn digest_of(bytes: Seq<u8>) -> Seq<u8>;

/// The bytes fed so far to a streaming hasher.
pub uninterp spec fn fed(h: sha2::Sha512Trunc256) -> Seq<u8>;

/// Relies on sha2's `Sha512Trunc256::new`: a fresh hasher has been fed
/// nothing.
#[verifier::external_body]
fn hasher_new() -> (h: sha2::Sha512Trunc256)
    ensures
        fed(h) == Seq::<u8>::empty(),
{
    sha2::Sha512Trunc256::new()
}

/// Relies on sha2's `Update::update`: feeding a chunk appends it to the
/// hashed input; feeding content piecewise hashes their concatenation.
#[verifier::external_body]
fn hasher_update(h: &mut sha2::Sha512Trunc256, chunk: &[u8])
    ensures
        fed(*final(h)) == fed(*old(h)) + chunk@,
{
    h.update(chunk);
}

/// Relies on sha2's `Digest::finalize`: the result is the SHA-512/256
/// digest of everything fed, 32 bytes long (512-bit SHA-2, truncated to
/// 256 bits), and depends on the fed bytes alone.
#[verifier::external_body]
fn hasher_finalize(h: sha2::Sha512Trunc256) -> (r: Vec<u8>)
    ensures
        r@ == digest_of(fed(h)),
        r@.len() == 32,
{
    let out = h.finalize();
    let mut r = Vec::with_capacity(32);
    r.extend_from_slice(&out);
    r
}

/// A streaming content digest. Its view is the sequence of bytes fed so
/// far; `finish` returns the digest of exactly that sequence. Safe to run
/// concurrently across many files: each instance owns its whole state.
pub struct StreamingDigest {
    inner: sha2::Sha512Trunc256,
}

impl View for StreamingDigest {
    type V = Seq<u8>;

    closed spec fn view(&self) -> Seq<u8> {
        fed(self.inner)
    }
}

impl StreamingDigest {
    pub fn new() -> (r: Self)
        ensures
            r@ == Seq::<u8>::empty(),
    {
        StreamingDigest { inner: hasher_new() }
    }

    pub fn update(&mut self, chunk: &[u8])
        ensures
            final(self)@ == old(self)@ + chunk@,
    {
        hasher_update(&mut self.inner, chunk);
    }

    pub fn finish(self) -> (r: Vec<u8>)
        ensures
            r@ == digest_of(self@),
            r@.len() == 32,
    {
        hasher_finalize(self.inner)
    }
}

/// The digest of a byte sequence held in memory, fed to the hash in
/// fixed-size chunks.
pub fn digest_bytes(bytes: &[u8]) -> (r: Vec<u8>)
    ensures
        r@ == digest_of(bytes@),
        r@.len() == 32,
{
    let mut h = StreamingDigest::new();
    let n = bytes.len();
    let mut i: usize = 0;
    while i < n
        invariant
            i <= n,
            n == bytes@.len(),
            h@ == bytes@.take(i as int),
        decreases n - i,
    {
        let j = if n - i >= DIGEST_CHUNK { i + DIGEST_CHUNK } else { n };
        h.update(vstd::slice::slice_subrange(bytes, i, j));
        assert(bytes@.take(i as int) + bytes@.subrange(i as int, j as int) =~= bytes@.take(
            j as int,
        ));
        i = j;
    }
    assert(bytes@.take(n as int) =~= bytes@);
    h.finish()
}

/// The digest is determined by the content alone: hashing the same bytes
/// twice — under any two paths, in any two runs — yields the same digest.
pub proof fn lemma_digest_deterministic(a: Seq<u8>, b: Seq<u8>)
    requires
        a == b,
    ensures
        digest_of(a) == digest_of(b),
{
}

} // verus!
