//! XXH3-64 digests of caller-described memory regions.
//!
//! A region is modelled as readable memory (`&[u8]`) together with a byte
//! count: the digest covers the first `size` bytes of that memory and nothing
//! after them. The hashing algorithm itself is `xxhash_rust`'s.
use vstd::prelude::*;
use vstd::slice::slice_subrange;

verus! {

/// The XXH3 64-bit digest (seed 0, default secret) of a byte sequence.
pub uninterp spec fn xxh3_64_of(input: Seq<u8>) -> u64;

/// Relies on `xxhash_rust::xxh3::xxh3_64`: the one-shot XXH3-64 digest with
/// seed 0 and the default secret, a pure function of the input bytes.
pub assume_specification[ xxhash_rust::xxh3::xxh3_64 ](input: &[u8]) -> (r: u64)
    ensures
        r == xxh3_64_of(input@),
;

/// The digest of the region made of the first `size` bytes of `memory`.
pub open spec fn region_digest(memory: Seq<u8>, size: nat) -> u64 {
    xxh3_64_of(memory.take(size as int))
}

/// Hashes the first `size` bytes of `memory` with XXH3-64.
///
/// The bytes of `memory` past `size` are never read.
pub fn xxh3_64(memory: &[u8], size: usize) -> (r: u64)
    requires
        size <= memory@.len(),
    ensures
        r == region_digest(memory@, size as nat),
{
    let region = slice_subrange(memory, 0, size);
    assert(region@ == memory@.take(size as int));
    xxhash_rust::xxh3::xxh3_64(region)
}

/// Determinism: two regions of the same length holding the same bytes have
/// the same digest.
pub proof fn lemma_digest_deterministic(first: Seq<u8>, second: Seq<u8>, size: nat)
    requires
        size <= first.len(),
        first == second,
    ensures
        region_digest(first, size) == region_digest(second, size),
{
}

/// A zero-length region reads no byte: wherever it starts, its digest is the
/// digest of the empty byte sequence.
pub proof fn lemma_empty_region(memory: Seq<u8>)
    ensures
        region_digest(memory, 0) == xxh3_64_of(Seq::empty()),
{
    assert(memory.take(0) =~= Seq::<u8>::empty());
}

/// The digest depends on the region's bytes alone: whatever bytes follow the
/// region in memory, the digest is that of the region's own bytes.
pub proof fn lemma_trailing_bytes_ignored(region: Seq<u8>, trailing: Seq<u8>)
    ensures
        region_digest(region + trailing, region.len()) == xxh3_64_of(region),
{
    assert((region + trailing).take(region.len() as int) =~= region);
}

} // verus!
