//! The retention guardian: a throttled, cooperative sweep over the stored
//! entries.  Callers give the guardian a chance to run before every store
//! operation; it sweeps at most once per configured interval.

use vstd::arithmetic::div_mod::{
    lemma_div_is_ordered, lemma_div_multiples_vanish, lemma_multiply_divide_lt,
};
use vstd::prelude::*;

use crate::policy::{is_expired, spec_expired};

verus! {

/// Minutes elapsed from `last` to `now`, truncated toward zero.
pub open spec fn spec_minutes_between(last: int, now: int) -> int {
    if now >= last {
        (now - last) / 60
    } else {
        -((last - now) / 60)
    }
}

/// A sweep is due when at least `minutes` whole minutes have passed since
/// the last completed sweep.
pub open spec fn spec_due(last: int, now: int, minutes: nat) -> bool {
    spec_minutes_between(last, now) >= minutes
}

/// Whole minutes elapsed from `last` to `now`, truncated toward zero.
fn minutes_between(last: i64, now: i64) -> (m: i64)
    ensures
        m == spec_minutes_between(last as int, now as int),
        -307_445_734_561_825_861 <= m <= 307_445_734_561_825_861,
{
    if now >= last {
        let d: u128 = ((now as i128) - (last as i128)) as u128;
        let q: u128 = d / 60;
        proof {
            lemma_div_is_ordered(d as int, u64::MAX as int, 60);
        }
        q as i64
    } else {
        let d: u128 = ((last as i128) - (now as i128)) as u128;
        let q: u128 = d / 60;
        proof {
            lemma_div_is_ordered(d as int, u64::MAX as int, 60);
        }
        -(q as i64)
    }
}

/// The guardian's process-wide state: the time of the last completed
/// sweep.  It is created once at startup and mutated only by a sweep
/// decision; re-creating it per call would defeat the throttling, since
/// the elapsed time would always read as about zero.
pub struct ExpGuardian {
    /// Epoch seconds of the last completed sweep.
    pub time: i64,
}

impl ExpGuardian {
    /// A guardian that treats `now` as the moment of the last sweep, so
    /// the first sweep becomes due only after a full interval.
    pub fn new(now: i64) -> (g: ExpGuardian)
        ensures
            g.time == now,
    {
        ExpGuardian { time: now }
    }

    /// The time-gated sweep decision: reports whether a sweep is due now,
    /// and when it is, records `now` as the last completed sweep.  The
    /// caller then performs the sweep (listing the entries and removing
    /// the ones selected by `select_expired`); when no sweep is due the
    /// state is untouched and nothing is to be done.
    pub fn check(&mut self, minutes: u64, now: i64) -> (due: bool)
        ensures
            due == spec_due(old(self).time as int, now as int, minutes as nat),
            due ==> final(self).time == now,
            !due ==> *final(self) == *old(self),
    {
        let m = minutes_between(self.time, now);
        let due = (m as i128) >= (minutes as i128);
        if due {
            self.time = now;
        }
        due
    }

    /// The sweep decision at the default interval of one hour.
    pub fn check_hour(&mut self, now: i64) -> (due: bool)
        ensures
            due == spec_due(old(self).time as int, now as int, 60),
            due ==> final(self).time == now,
            !due ==> *final(self) == *old(self),
    {
        self.check(60, now)
    }
}

/// Guardian throttling: once a sweep has run and reset the state to `n1`,
/// a second check less than the interval later performs no sweep, and a
/// third check at least the interval after `n1` performs exactly one more.
pub proof fn lemma_check_throttling(minutes: nat, last: int, n1: int, n2: int, n3: int)
    requires
        minutes >= 1,
        n1 <= n2,
        n2 - n1 < minutes * 60,
        n3 - n1 >= minutes * 60,
    ensures
        spec_due(last, n1, minutes) ==> !spec_due(n1, n2, minutes),
        spec_due(last, n1, minutes) ==> spec_due(n1, n3, minutes),
{
    lemma_multiply_divide_lt(n2 - n1, 60, minutes as int);
    assert(n3 >= n1);
    lemma_div_is_ordered((minutes as int) * 60, n3 - n1, 60);
    lemma_div_multiples_vanish(minutes as int, 60);
    assert((60 * (minutes as int)) / 60 == minutes as int);
    assert((minutes * 60) / 60 == minutes as int);
}

/// What a sweep sees of one stored entry: its key, and the payload size
/// and creation time the caller observed on disk.
pub struct EntryMeta {
    /// The entry's key (its directory name under the storage root).
    pub key: String,
    /// The stored payload's length in bytes.
    pub size: u64,
    /// The creation time recovered for the entry, in epoch seconds.
    pub created: i64,
}

/// Whether one swept entry is eligible for reclamation at `now`.
pub open spec fn spec_entry_expired(e: EntryMeta, now: int) -> bool {
    spec_expired(e.size as nat, e.created as int, now)
}

/// One full pass over the stored entries: selects exactly the entries
/// whose retention has run out.  The result holds the positions of the
/// expired entries in ascending order; the caller deletes those entries'
/// locations, and entries with remaining retention are left untouched.
pub fn select_expired(entries: &Vec<EntryMeta>, now: i64) -> (r: Vec<usize>)
    ensures
        forall|j: int|
            0 <= j < r.len() ==> #[trigger] r[j] < entries.len() && spec_entry_expired(
                entries[r[j] as int],
                now as int,
            ),
        forall|i: int|
            0 <= i < entries.len() && spec_entry_expired(#[trigger] entries[i], now as int)
                ==> exists|j: int| 0 <= j < r.len() && r[j] == i,
        forall|j: int, k: int| 0 <= j < k < r.len() ==> #[trigger] r[j] < #[trigger] r[k],
{
    let mut r: Vec<usize> = Vec::new();
    let mut i: usize = 0;
    while i < entries.len()
        invariant
            i <= entries.len(),
            forall|j: int|
                0 <= j < r.len() ==> #[trigger] r[j] < i && spec_entry_expired(
                    entries[r[j] as int],
                    now as int,
                ),
            forall|p: int|
                0 <= p < i && spec_entry_expired(#[trigger] entries[p], now as int)
                    ==> exists|j: int| 0 <= j < r.len() && r[j] == p,
            forall|j: int, k: int| 0 <= j < k < r.len() ==> #[trigger] r[j] < #[trigger] r[k],
        decreases entries.len() - i,
    {
        let ghost r_old = r@;
        let e = &entries[i];
        let expired = is_expired(e.size, e.created, now);
        if expired {
            r.push(i);
        }
        i += 1;
        proof {
            assert forall|p: int|
                0 <= p < i && spec_entry_expired(#[trigger] entries@[p], now as int)
                    implies exists|j: int| 0 <= j < r.len() && r@[j] == p by {
                if p < i - 1 {
                    let j = choose|j: int| 0 <= j < r_old.len() && r_old[j] == p;
                    assert(r@[j] == p);
                } else {
                    assert(r@[r@.len() - 1] == p);
                }
            }
        }
    }
    r
}

} // verus!
