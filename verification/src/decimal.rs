//! Decimal rendering of unsigned integers, used for keys and report strings.

use vstd::prelude::*;

verus! {

/// The character for a single decimal digit value below ten.
pub open spec fn digit_char(d: nat) -> char {
    if d == 0 {
        '0'
    } else if d == 1 {
        '1'
    } else if d == 2 {
        '2'
    } else if d == 3 {
        '3'
    } else if d == 4 {
        '4'
    } else if d == 5 {
        '5'
    } else if d == 6 {
        '6'
    } else if d == 7 {
        '7'
    } else if d == 8 {
        '8'
    } else {
        '9'
    }
}

/// Plain decimal rendering of `n`, most significant digit first, no sign,
/// no leading zeros (a single `'0'` for zero).
pub open spec fn dec_str(n: nat) -> Seq<char>
    decreases n,
{
    if n < 10 {
        seq![digit_char(n)]
    } else {
        dec_str(n / 10).push(digit_char(n % 10))
    }
}

/// The low `width` decimal digits of `n`, padded with leading zeros to
/// exactly `width` characters.
pub open spec fn dec_pad(n: nat, width: nat) -> Seq<char>
    decreases width,
{
    if width <= 1 {
        seq![digit_char(n % 10)]
    } else {
        dec_pad(n / 10, (width - 1) as nat).push(digit_char(n % 10))
    }
}

pub open spec fn is_digit(c: char) -> bool {
    '0' <= c && c <= '9'
}

pub open spec fn all_digits(s: Seq<char>) -> bool {
    forall|i: int| 0 <= i < s.len() ==> is_digit(#[trigger] s[i])
}

pub proof fn lemma_dec_str_digits(n: nat)
    ensures
        dec_str(n).len() >= 1,
        all_digits(dec_str(n)),
    decreases n,
{
    if n >= 10 {
        lemma_dec_str_digits(n / 10);
        assert forall|i: int| 0 <= i < dec_str(n).len() implies is_digit(#[trigger] dec_str(n)[i]) by {
            if i < dec_str(n / 10).len() {
                assert(dec_str(n)[i] == dec_str(n / 10)[i]);
            }
        }
    }
}

/// A one-character string slice for a digit value.
fn digit_slice(d: u64) -> (r: &'static str)
    requires
        d < 10,
    ensures
        r@ == seq![digit_char(d as nat)],
{
    proof {
        reveal_strlit("0");
        reveal_strlit("1");
        reveal_strlit("2");
        reveal_strlit("3");
        reveal_strlit("4");
        reveal_strlit("5");
        reveal_strlit("6");
        reveal_strlit("7");
        reveal_strlit("8");
        reveal_strlit("9");
    }
    let r = if d == 0 {
        "0"
    } else if d == 1 {
        "1"
    } else if d == 2 {
        "2"
    } else if d == 3 {
        "3"
    } else if d == 4 {
        "4"
    } else if d == 5 {
        "5"
    } else if d == 6 {
        "6"
    } else if d == 7 {
        "7"
    } else if d == 8 {
        "8"
    } else {
        "9"
    };
    proof {
        assert(r@ =~= seq![digit_char(d as nat)]);
    }
    r
}

/// Renders `n` in decimal, without sign or leading zeros.
pub fn render_dec(n: u64) -> (s: String)
    ensures
        s@ == dec_str(n as nat),
    decreases n,
{
    if n < 10 {
        digit_slice(n).to_owned()
    } else {
        let mut s = render_dec(n / 10);
        s.append(digit_slice(n % 10));
        proof {
            assert(s@ =~= dec_str((n / 10) as nat).push(digit_char((n % 10) as nat)));
        }
        s
    }
}

/// Renders the low `width` decimal digits of `n`, zero-padded to `width`.
pub fn render_dec_pad(n: u64, width: u64) -> (s: String)
    requires
        width >= 1,
    ensures
        s@ == dec_pad(n as nat, width as nat),
    decreases width,
{
    if width == 1 {
        digit_slice(n % 10).to_owned()
    } else {
        let mut s = render_dec_pad(n / 10, width - 1);
        s.append(digit_slice(n % 10));
        proof {
            assert(s@ =~= dec_pad((n / 10) as nat, (width - 1) as nat).push(
                digit_char((n % 10) as nat),
            ));
        }
        s
    }
}

} // verus!
