//! An abstract model of the stored state: the directory tree under the
//! storage root as a map from keys to entries, and the laws the store
//! operations obey over it.
//!
//! One stored blob occupies one location named by its key; the model maps
//! the key to the entry's creation time and payload.  The write path adds
//! an entry only for fresh, in-ceiling content; the read path looks a key
//! up; a sweep keeps exactly the entries with retention remaining.

use vstd::prelude::*;

use crate::key::spec_key;
use crate::policy::{spec_expired, MAX_BYTES};

verus! {

/// One stored blob as the model sees it.
pub ghost struct SpecEntry {
    /// Creation time in epoch seconds.
    pub created: int,
    /// The stored bytes.
    pub data: Seq<u8>,
}

/// The stored state: each key maps to the entry at its location.
pub type SpecStore = Map<Seq<char>, SpecEntry>;

/// What an upload of `data` at time `now` leaves on disk.  A key that is
/// already present is a duplicate: nothing changes.  Content over the size
/// ceiling draws an advisory: nothing changes.  Otherwise the content is
/// stored under its derived key.
pub open spec fn spec_put(m: SpecStore, data: Seq<u8>, now: int) -> SpecStore {
    let k = spec_key(data);
    if m.dom().contains(k) {
        m
    } else if data.len() > MAX_BYTES as nat {
        m
    } else {
        m.insert(k, SpecEntry { created: now, data })
    }
}

/// What a read of `key` returns: the stored bytes, when the key is
/// present.
pub open spec fn spec_get(m: SpecStore, key: Seq<char>) -> Option<Seq<u8>> {
    if m.dom().contains(key) {
        Some(m[key].data)
    } else {
        None
    }
}

/// What a sweep at time `now` leaves: exactly the entries whose retention
/// has not run out.
pub open spec fn spec_sweep(m: SpecStore, now: int) -> SpecStore {
    Map::new(
        |k: Seq<char>|
            m.dom().contains(k) && !spec_expired(m[k].data.len(), m[k].created, now),
        |k: Seq<char>| m[k],
    )
}

/// The upload transition, case by case, as the write path decides it from
/// its observation of the location: a key already present is a duplicate
/// and changes nothing; oversized content changes nothing; fresh content
/// within the ceiling extends the state by exactly its own entry.
pub proof fn lemma_put_cases(m: SpecStore, data: Seq<u8>, now: int)
    ensures
        m.dom().contains(spec_key(data)) ==> spec_put(m, data, now) == m,
        !m.dom().contains(spec_key(data)) && data.len() > MAX_BYTES as nat ==> spec_put(
            m,
            data,
            now,
        ) == m,
        !m.dom().contains(spec_key(data)) && data.len() <= MAX_BYTES as nat ==> spec_put(
            m,
            data,
            now,
        ) == m.insert(spec_key(data), SpecEntry { created: now, data }),
{
}

/// Dedup idempotence: uploading the same content a second time — at any
/// later moment — changes nothing, so no second file is ever created for
/// it.
pub proof fn lemma_put_idempotent(m: SpecStore, data: Seq<u8>, n1: int, n2: int)
    ensures
        spec_put(spec_put(m, data, n1), data, n2) == spec_put(m, data, n1),
{
    let m1 = spec_put(m, data, n1);
    assert(spec_put(m1, data, n2) =~= m1);
}

/// Size ceiling: an upload over the ceiling performs no write at all.
pub proof fn lemma_too_fat_no_write(m: SpecStore, data: Seq<u8>, now: int)
    requires
        data.len() > MAX_BYTES as nat,
    ensures
        spec_put(m, data, now) == m,
{
}

/// Round trip: after storing content that fits the ceiling, reading its
/// derived key returns exactly those bytes.  The hypothesis on `m` states
/// that content addressing holds of what is already stored — the key, if
/// present, holds these very bytes — which an accidental hash collision
/// between distinct contents could violate; that risk is accepted.
pub proof fn lemma_round_trip(m: SpecStore, data: Seq<u8>, now: int)
    requires
        data.len() <= MAX_BYTES as nat,
        m.dom().contains(spec_key(data)) ==> m[spec_key(data)].data == data,
    ensures
        spec_get(spec_put(m, data, now), spec_key(data)) == Some(data),
{
}

/// Sweep reclamation: a sweep removes every entry whose retention has run
/// out and leaves every other entry untouched.
pub proof fn lemma_sweep_reclaims(m: SpecStore, now: int, k: Seq<char>)
    requires
        m.dom().contains(k),
    ensures
        spec_expired(m[k].data.len(), m[k].created, now) ==> !spec_sweep(m, now).dom().contains(
            k,
        ),
        !spec_expired(m[k].data.len(), m[k].created, now) ==> spec_sweep(m, now).dom().contains(k)
            && spec_sweep(m, now)[k] == m[k],
{
}

/// A sweep invents nothing: whatever it leaves was stored before,
/// unchanged.
pub proof fn lemma_sweep_subset(m: SpecStore, now: int, k: Seq<char>)
    requires
        spec_sweep(m, now).dom().contains(k),
    ensures
        m.dom().contains(k),
        spec_sweep(m, now)[k] == m[k],
{
}

} // verus!
