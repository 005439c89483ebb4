//! Mapping keys to storage locations, and validation of user-supplied keys.
//!
//! Validation is the system's only input-sanitization boundary: a key is
//! accepted only when every character is a decimal digit, so separators and
//! traversal sequences are rejected before any filesystem access.

use vstd::prelude::*;

use crate::decimal::{all_digits, is_digit};

verus! {

/// The safe character class for keys: decimal digits only.
pub open spec fn is_valid_key(s: Seq<char>) -> bool {
    all_digits(s)
}

/// Checks a user-supplied key string against the safe character class.
pub fn validate_key(raw: &str) -> (r: bool)
    ensures
        r == is_valid_key(raw@),
{
    let len = raw.unicode_len();
    let mut i: usize = 0;
    while i < len
        invariant
            i <= len,
            len == raw@.len(),
            forall|j: int| 0 <= j < i ==> is_digit(#[trigger] raw@[j]),
        decreases len - i,
    {
        let c = raw.get_char(i);
        if !('0' <= c && c <= '9') {
            return false;
        }
        i += 1;
    }
    true
}

/// Joins the storage-root prefix with a location name, as pushing a
/// relative segment onto a root path does: the name alone when the root is
/// empty, otherwise root, separator, name.
pub open spec fn spec_resolve(root: Seq<char>, name: Seq<char>) -> Seq<char> {
    if root.len() == 0 {
        name
    } else {
        root + seq!['/'] + name
    }
}

/// Maps a key to its location under the configured storage root.
pub fn resolve(root: &str, name: &str) -> (r: String)
    ensures
        r@ == spec_resolve(root@, name@),
{
    if root.unicode_len() == 0 {
        name.to_owned()
    } else {
        let mut s = root.to_owned();
        s.append("/");
        s.append(name);
        proof {
            reveal_strlit("/");
            assert(s@ =~= root@ + seq!['/'] + name@);
        }
        s
    }
}

/// A validated key cannot escape the storage root: the resolved location
/// keeps the root as its prefix, and every character past it is a decimal
/// digit, so the appended part holds no separator and no dot.
pub proof fn lemma_no_escape(root: Seq<char>, key: Seq<char>)
    requires
        is_valid_key(key),
    ensures
        root.len() > 0 ==> spec_resolve(root, key).subrange(0, root.len() as int) == root,
        forall|i: int|
            spec_resolve(root, key).len() - key.len() <= i < spec_resolve(root, key).len()
                ==> #[trigger] spec_resolve(root, key)[i] != '/'
                && spec_resolve(root, key)[i] != '\\' && spec_resolve(root, key)[i] != '.',
{
    let r = spec_resolve(root, key);
    if root.len() > 0 {
        assert(r.subrange(0, root.len() as int) =~= root);
    }
    assert forall|i: int| r.len() - key.len() <= i < r.len() implies #[trigger] r[i] != '/'
        && r[i] != '\\' && r[i] != '.' by {
        let j = i - (r.len() - key.len());
        assert(r[i] == key[j]);
        assert(is_digit(key[j]));
    }
}

} // verus!
