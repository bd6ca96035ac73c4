//! Streaming SHA-1 content digests, rendered as lowercase hexadecimal.
use vstd::prelude::*;
use sha1::Digest;

verus! {

/// A running SHA-1 computation. Its type cannot be declared to the verifier
/// (its block-size parameters are type-level numbers), so it is held opaque here
/// and described by `absorbed_of`.
#[verifier::external_body]
pub struct Sha1State {
    inner: sha1::Sha1,
}

/// The bytes a SHA-1 computation has absorbed since it was started.
pub uninterp spec fn absorbed_of(h: Sha1State) -> Seq<u8>;

/// The lowercase hexadecimal SHA-1 digest of a byte sequence.
pub uninterp spec fn sha1_hex_of(data: Seq<u8>) -> Seq<char>;

/// Relies on sha1::Sha1::new (digest::Digest::new): a fresh hasher has absorbed nothing.
#[verifier::external_body]
fn sha1_new() -> (r: Sha1State)
    ensures
        absorbed_of(r) == Seq::<u8>::empty(),
{
    Sha1State { inner: sha1::Sha1::new() }
}

/// Relies on digest::Digest::update for sha1::Sha1: the chunk is appended to the absorbed input.
#[verifier::external_body]
fn sha1_update(h: &mut Sha1State, chunk: &[u8])
    ensures
        absorbed_of(*final(h)) == absorbed_of(*old(h)) + chunk@,
{
    h.inner.update(chunk)
}

/// Relies on digest::Digest::finalize for sha1::Sha1 and generic_array's LowerHex:
/// the 20-byte digest of everything absorbed, as 40 lowercase hex digits.
#[verifier::external_body]
fn sha1_finalize_hex(h: Sha1State) -> (r: String)
    ensures
        r@ == sha1_hex_of(absorbed_of(h)),
        r@.len() == 40,
{
    format!("{:x}", h.inner.finalize())
}

/// Size of the chunks a file is read in while it is hashed (1 MiB).
pub const CHUNK_SIZE: usize = 1048576;

/// Incremental content hasher: file content is fed chunk by chunk, never whole.
pub struct Hasher {
    state: Sha1State,
}

impl Hasher {
    /// The bytes fed so far.
    pub closed spec fn absorbed(&self) -> Seq<u8> {
        absorbed_of(self.state)
    }

    pub fn new() -> (r: Hasher)
        ensures
            r.absorbed() == Seq::<u8>::empty(),
    {
        Hasher { state: sha1_new() }
    }

    /// Feeds one chunk; returns whether more input may follow (an empty chunk marks end of stream).
    pub fn update(&mut self, chunk: &[u8]) -> (more: bool)
        ensures
            final(self).absorbed() == old(self).absorbed() + chunk@,
            more == (chunk@.len() > 0),
    {
        sha1_update(&mut self.state, chunk);
        chunk.len() > 0
    }

    /// The lowercase hex digest of everything fed.
    pub fn finish(self) -> (r: String)
        ensures
            r@ == sha1_hex_of(self.absorbed()),
            r@.len() == 40,
    {
        sha1_finalize_hex(self.state)
    }
}

/// A digest depends on the bytes alone: the same bytes give the same hex
/// string, however they were split into chunks when fed.
pub proof fn lemma_digest_deterministic(first: Seq<Seq<u8>>, second: Seq<Seq<u8>>)
    requires
        first.flatten() == second.flatten(),
    ensures
        sha1_hex_of(first.flatten()) == sha1_hex_of(second.flatten()),
{
}

} // verus!
