//! The retention policy: the remaining lifetime of a blob, computed from
//! its size and age.  Larger blobs get shorter guaranteed retention; every
//! blob is capped at thirty days; a result of zero marks the blob as
//! eligible for reclamation now.

use vstd::arithmetic::div_mod::{
    lemma_div_is_ordered, lemma_div_multiples_vanish, lemma_multiply_divide_lt,
};
use vstd::prelude::*;

use crate::decimal::{dec_pad, dec_str, render_dec, render_dec_pad};

verus! {

/// The upload ceiling in bytes; larger buffers draw an advisory instead of
/// being stored.
pub const MAX_BYTES: usize = 150_000_000;

/// The size the retention formula works on: blobs under five million bytes
/// count as five million, so tiny uploads do not acquire disproportionately
/// long lifetimes from the inverse relationship.
pub open spec fn spec_effective_size(size: nat) -> nat {
    if size < 5_000_000 {
        5_000_000 as nat
    } else {
        size
    }
}

/// The whole number of days elapsed from creation to `now`, truncated
/// toward zero (a creation time in the future counts negatively).
pub open spec fn spec_age_days(created: int, now: int) -> int {
    if now >= created {
        (now - created) / 86400
    } else {
        -((created - now) / 86400)
    }
}

/// The remaining retention of a blob as an exact rational: one hundred and
/// fifty days divided by the effective size in millions of bytes, minus the
/// age in days, clamped to the window from zero to thirty days.  This
/// function gives the numerator over the denominator
/// `spec_effective_size(size)`.
pub open spec fn spec_days_num(size: nat, created: int, now: int) -> nat {
    let eff = spec_effective_size(size) as int;
    let raw = 150_000_000 - spec_age_days(created, now) * eff;
    if raw < 0 {
        0 as nat
    } else if raw > 30 * eff {
        (30 * eff) as nat
    } else {
        raw as nat
    }
}

/// A blob is eligible for reclamation exactly when no retention remains.
pub open spec fn spec_expired(size: nat, created: int, now: int) -> bool {
    spec_days_num(size, created, now) == 0
}

/// The whole number of days elapsed since creation, truncated toward zero.
pub fn age_days(created: i64, now: i64) -> (a: i64)
    ensures
        a == spec_age_days(created as int, now as int),
        -213_503_982_334_602 <= a <= 213_503_982_334_602,
{
    if now >= created {
        let d: u128 = ((now as i128) - (created as i128)) as u128;
        let q: u128 = d / 86400;
        proof {
            lemma_div_is_ordered(d as int, u64::MAX as int, 86400);
        }
        q as i64
    } else {
        let d: u128 = ((created as i128) - (now as i128)) as u128;
        let q: u128 = d / 86400;
        proof {
            lemma_div_is_ordered(d as int, u64::MAX as int, 86400);
        }
        -(q as i64)
    }
}

/// The remaining retention as the exact pair of numerator and denominator:
/// the remaining days equal `r.0 / r.1`, and the denominator `r.1` is the
/// effective size.
pub fn remaining_days(size: u64, created: i64, now: i64) -> (r: (u128, u64))
    ensures
        r.0 == spec_days_num(size as nat, created as int, now as int),
        r.1 == spec_effective_size(size as nat),
        r.0 <= 30 * (r.1 as u128),
        r.1 >= 5_000_000,
{
    let eff: u64 = if size < 5_000_000 {
        5_000_000
    } else {
        size
    };
    let age: i64 = age_days(created, now);
    proof {
        assert((age as int) * (eff as int) <= 213_503_982_334_602 * (u64::MAX as int)
            && (age as int) * (eff as int) >= -213_503_982_334_602 * (u64::MAX as int))
            by (nonlinear_arith)
            requires
                -213_503_982_334_602 <= age as int,
                (age as int) <= 213_503_982_334_602,
                0 <= eff as int,
                (eff as int) <= u64::MAX as int,
        ;
    }
    let prod: i128 = (age as i128) * (eff as i128);
    let raw: i128 = 150_000_000 - prod;
    if raw < 0 {
        (0, eff)
    } else {
        let cap: u128 = 30 * (eff as u128);
        let rawu: u128 = raw as u128;
        if rawu > cap {
            (cap, eff)
        } else {
            (rawu, eff)
        }
    }
}

/// Whether a blob is eligible for reclamation at `now`.
pub fn is_expired(size: u64, created: i64, now: i64) -> (r: bool)
    ensures
        r == spec_expired(size as nat, created as int, now as int),
{
    let pair = remaining_days(size, created, now);
    pair.0 == 0
}

/// Fractional digits of `f` scaled by ten to the `width`, with trailing
/// zeros left off; a single digit when `width` reaches one.
pub open spec fn frac_trim(f: nat, width: nat) -> Seq<char>
    decreases width,
{
    if width <= 1 {
        dec_pad(f, 1)
    } else if f % 10 == 0 {
        frac_trim(f / 10, (width - 1) as nat)
    } else {
        dec_pad(f, width)
    }
}

/// Renders the trailing-zero-trimmed fractional digits.
pub fn render_frac_trim(f: u64, width: u64) -> (s: String)
    requires
        width >= 1,
    ensures
        s@ == frac_trim(f as nat, width as nat),
    decreases width,
{
    if width == 1 {
        render_dec_pad(f, 1)
    } else if f % 10 == 0 {
        render_frac_trim(f / 10, width - 1)
    } else {
        render_dec_pad(f, width)
    }
}

/// The stored size in millions of bytes as an exact decimal: the whole
/// part, then up to six fractional digits with trailing zeros left off.
pub open spec fn spec_mb_str(size: nat) -> Seq<char> {
    let whole = size / 1_000_000;
    let frac = size % 1_000_000;
    if frac == 0 {
        dec_str(whole)
    } else {
        dec_str(whole) + seq!['.'] + frac_trim(frac, 6)
    }
}

/// Renders a byte count in millions of bytes.
pub fn render_mb(size: u64) -> (s: String)
    ensures
        s@ == spec_mb_str(size as nat),
{
    let whole: u64 = size / 1_000_000;
    let frac: u64 = size % 1_000_000;
    if frac == 0 {
        render_dec(whole)
    } else {
        let mut s = render_dec(whole);
        s.append(".");
        let tail = render_frac_trim(frac, 6);
        s.append(tail.as_str());
        proof {
            reveal_strlit(".");
            assert(s@ =~= dec_str((size as nat) / 1_000_000) + seq!['.'] + frac_trim(
                (size as nat) % 1_000_000,
                6,
            ));
        }
        s
    }
}

/// The remaining-days value rendered as a decimal: the whole part, then up
/// to two fractional digits, truncated, with trailing zeros (and a bare
/// dot) left off.
pub open spec fn spec_days_str(num: nat, den: nat) -> Seq<char> {
    let whole = num / den;
    let f2 = (num % den) * 100 / den;
    if f2 == 0 {
        dec_str(whole)
    } else {
        dec_str(whole) + seq!['.'] + frac_trim(f2, 2)
    }
}

/// Renders the remaining days of a blob of the given size and creation
/// time.
pub fn render_days(size: u64, created: i64, now: i64) -> (s: String)
    ensures
        s@ == spec_days_str(
            spec_days_num(size as nat, created as int, now as int),
            spec_effective_size(size as nat),
        ),
{
    let pair = remaining_days(size, created, now);
    let num: u128 = pair.0;
    let den: u128 = pair.1 as u128;
    let whole128: u128 = num / den;
    proof {
        lemma_div_is_ordered(num as int, 30 * (den as int), den as int);
        lemma_div_multiples_vanish(30, den as int);
    }
    let whole: u64 = whole128 as u64;
    let rem: u128 = num % den;
    let f2_128: u128 = rem * 100 / den;
    proof {
        assert((rem as int) * 100 < (den as int) * 100) by (nonlinear_arith)
            requires
                0 <= rem as int,
                (rem as int) < (den as int),
        ;
        lemma_multiply_divide_lt((rem as int) * 100, den as int, 100);
    }
    let f2: u64 = f2_128 as u64;
    if f2 == 0 {
        render_dec(whole)
    } else {
        let mut s = render_dec(whole);
        s.append(".");
        let tail = render_frac_trim(f2, 2);
        s.append(tail.as_str());
        proof {
            reveal_strlit(".");
            assert(s@ =~= dec_str(whole as nat) + seq!['.'] + frac_trim(f2 as nat, 2));
        }
        s
    }
}

} // verus!
