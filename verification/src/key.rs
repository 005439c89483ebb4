//! Content addressing: a stable, digits-only key derived from a blob's bytes.
//!
//! The key only needs to be fast and well-distributed, not attack-resistant:
//! accidental-collision avoidance is the goal, and the accepted risk is that
//! two distinct buffers may in principle share a key.

use std::collections::hash_map::DefaultHasher;
use std::hash::Hasher;
use vstd::prelude::*;
use vstd::std_specs::hash::DefaultHasherAdditionalSpecFns;

use crate::decimal::{all_digits, dec_str, lemma_dec_str_digits, render_dec};

verus! {

/// The 64-bit content hash of a byte buffer: what the standard hasher
/// yields after a single write of the whole buffer.
pub open spec fn spec_content_hash(data: Seq<u8>) -> u64 {
    DefaultHasher::spec_finish(seq![data])
}

/// The key of a blob: the decimal rendering of its content hash.
pub open spec fn spec_key(data: Seq<u8>) -> Seq<char> {
    dec_str(spec_content_hash(data) as nat)
}

/// Derives the stable key for a content buffer.  The result is a function
/// of the bytes alone, and consists of decimal digits only, so it always
/// passes key validation and never names a path separator.
pub fn hashed(data: &Vec<u8>) -> (key: String)
    ensures
        key@ == spec_key(data@),
        all_digits(key@),
        key@.len() >= 1,
{
    let mut hasher = DefaultHasher::new();
    hasher.write(data.as_slice());
    let h = hasher.finish();
    proof {
        assert(hasher@ =~= seq![data@]);
        lemma_dec_str_digits(h as nat);
    }
    render_dec(h)
}

/// Determinism of content addressing: derivations from equal byte buffers
/// yield equal keys, so uploading the same content twice always lands on
/// the same storage location.
pub proof fn lemma_key_deterministic(b1: Seq<u8>, b2: Seq<u8>)
    requires
        b1 == b2,
    ensures
        spec_key(b1) == spec_key(b2),
{
}

} // verus!
