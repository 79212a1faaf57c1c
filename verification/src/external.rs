use vstd::prelude::*;

verus! {

/// The SHA-256 digest of a byte sequence. Stating the algorithm itself is out
/// of scope; all that the rest of the crate relies on is that the digest is a
/// function of the input bytes alone and is 32 bytes long.
pub uninterp spec fn sha256_of(bytes: Seq<u8>) -> Seq<u8>;

/// Relies on sha2::Sha256::digest: a 32-byte digest determined by the input
/// bytes alone.
#[verifier::external_body]
pub(crate) fn sha256_digest(bytes: &[u8]) -> (r: Vec<u8>)
    ensures
        r@ == sha256_of(bytes@),
        r@.len() == 32,
{
    <sha2::Sha256 as sha2::Digest>::digest(bytes).to_vec()
}

/// Relies on rand::Rng::gen_range over `lo..=hi`: a value inside the requested
/// inclusive range. Panics on an empty range, which the precondition excludes.
/// The result is random; nothing more can be said of it.
#[verifier::external_body]
pub(crate) fn random_in_range(lo: usize, hi: usize) -> (r: usize)
    requires
        lo <= hi,
    ensures
        lo <= r <= hi,
{
    rand::Rng::gen_range(&mut rand::thread_rng(), lo..=hi)
}

/// Relies on rand::Rng::gen_range over `0..n`: an index below `n`. Panics on an
/// empty range, which the precondition excludes. The result is random; nothing
/// more can be said of it.
#[verifier::external_body]
pub(crate) fn random_index(n: usize) -> (r: usize)
    requires
        n > 0,
    ensures
        r < n,
{
    rand::Rng::gen_range(&mut rand::thread_rng(), 0..n)
}

/// Relies on rand::distributions::DistString::sample_string for Alphanumeric:
/// exactly `len` characters, each drawn from A-Z, a-z, 0-9 (one char per byte).
/// The result is random; only its length is relied on.
#[verifier::external_body]
pub(crate) fn random_alphanumeric(len: usize) -> (r: String)
    ensures
        r@.len() == len as nat,
{
    rand::distributions::DistString::sample_string(
        &rand::distributions::Alphanumeric,
        &mut rand::thread_rng(),
        len,
    )
}

/// Relies on uuid::Uuid::new_v4 and its hyphenated Display form: a fresh
/// random identifier, always 36 characters. The value is random; only its
/// length is relied on.
#[verifier::external_body]
pub(crate) fn new_uuid_string() -> (r: String)
    ensures
        r@.len() == 36,
{
    uuid::Uuid::new_v4().to_string()
}

/// Relies on rand::seq::SliceRandom::choose_multiple over the indices
/// `0..len`: at most `n` distinct indices, each below `len`; when `len >= n`,
/// exactly `n` of them. Which indices come back, and in what order, is random.
#[verifier::external_body]
pub(crate) fn sample_distinct_indices(n: usize, len: usize) -> (r: Vec<usize>)
    ensures
        r@.len() == if n <= len { n as nat } else { len as nat },
        forall|i: int| 0 <= i < r@.len() ==> r@[i] < len,
        forall|i: int, j: int| 0 <= i < j < r@.len() ==> r@[i] != r@[j],
{
    let all: Vec<usize> = (0..len).collect();
    rand::seq::SliceRandom::choose_multiple(all.as_slice(), &mut rand::thread_rng(), n)
        .copied()
        .collect()
}

} // verus!
