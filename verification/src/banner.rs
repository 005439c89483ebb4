//! The plain-text usage banner shown at the service root.

use vstd::prelude::*;

verus! {

/// The banner text, with the public base URL spliced in at its two
/// places: once in the upload example and once in the download example.
pub open spec fn spec_banner(url: Seq<char>) -> Seq<char> {
    "\u{1b}[0;95m    \u{e2}\u{2013}\u{2c6}\u{e2}\u{2013}\u{2c6}\u{e2}\u{2013}\u{2c6}\u{e2}\u{2013}\u{2c6}\u{e2}\u{2013}\u{2c6}\u{e2}\u{2013}\u{2c6}  \u{e2}\u{2013}\u{2c6}\u{e2}\u{2013}\u{2c6}\u{e2}\u{2013}\u{2c6}\u{e2}\u{2013}\u{2c6}\n   \u{e2}\u{2013}\u{2c6}\u{e2}\u{2013}\u{2c6}\u{e2}\u{2013}\u{2c6}\u{e2}\u{2013}\u{2019}\u{e2}\u{2013}\u{2019}\u{e2}\u{2013}\u{2c6}\u{e2}\u{2013}\u{2c6}\u{e2}\u{2013}\u{2c6}\u{e2}\u{2013}\u{2019}\u{e2}\u{2013}\u{2019}\u{e2}\u{2013}\u{2c6}\u{e2}\u{2013}\u{2c6}\u{e2}\u{2013}\u{2c6}\n  \u{e2}\u{2013}\u{2019}\u{e2}\u{2013}\u{2c6}\u{e2}\u{2013}\u{2c6}\u{e2}\u{2013}\u{2c6} \u{e2}\u{2013}\u{2019}\u{e2}\u{2013}\u{2019}\u{e2}\u{2013}\u{2019}  \u{e2}\u{2013}\u{2019}\u{e2}\u{2013}\u{2c6}\u{e2}\u{2013}\u{2c6}\u{e2}\u{2013}\u{2c6}   \u{e2}\u{2013}\u{2c6}\u{e2}\u{2013}\u{2c6}\u{e2}\u{2013}\u{2c6}\u{e2}\u{2013}\u{2c6}\u{e2}\u{2013}\u{2c6}\u{e2}\u{2013}\u{2c6}  \u{e2}\u{2013}\u{2c6}\u{e2}\u{2013}\u{2c6}\u{e2}\u{2013}\u{2c6}\u{e2}\u{2013}\u{2c6}\u{e2}\u{2013}\u{2c6}\u{e2}\u{2013}\u{2c6}\u{e2}\u{2013}\u{2c6}\u{e2}\u{2013}\u{2c6}  \u{e2}\u{2013}\u{2c6}\u{e2}\u{2013}\u{2c6}\u{e2}\u{2013}\u{2c6}\u{e2}\u{2013}\u{2c6}\u{e2}\u{2013}\u{2c6}\u{e2}\u{2013}\u{2c6}\u{e2}\u{2013}\u{2c6}\u{e2}\u{2013}\u{2c6}  \u{e2}\u{2013}\u{2c6}\u{e2}\u{2013}\u{2c6}\u{e2}\u{2013}\u{2c6}\u{e2}\u{2013}\u{2c6}\u{e2}\u{2013}\u{2c6} \u{e2}\u{2013}\u{2c6}\u{e2}\u{2013}\u{2c6}\u{e2}\u{2013}\u{2c6}\u{e2}\u{2013}\u{2c6}\n \u{e2}\u{2013}\u{2c6}\u{e2}\u{2013}\u{2c6}\u{e2}\u{2013}\u{2c6}\u{e2}\u{2013}\u{2c6}\u{e2}\u{2013}\u{2c6}\u{e2}\u{2013}\u{2c6}\u{e2}\u{2013}\u{2c6}    \u{e2}\u{2013}\u{2019}\u{e2}\u{2013}\u{2c6}\u{e2}\u{2013}\u{2c6}\u{e2}\u{2013}\u{2c6}  \u{e2}\u{2013}\u{2c6}\u{e2}\u{2013}\u{2c6}\u{e2}\u{2013}\u{2c6}\u{e2}\u{2013}\u{2019}\u{e2}\u{2013}\u{2019}\u{e2}\u{2013}\u{2c6}\u{e2}\u{2013}\u{2c6}\u{e2}\u{2013}\u{2c6}\u{e2}\u{2013}\u{2019}\u{e2}\u{2013}\u{2019}\u{e2}\u{2013}\u{2c6}\u{e2}\u{2013}\u{2c6}\u{e2}\u{2013}\u{2c6}\u{e2}\u{2013}\u{2019}\u{e2}\u{2013}\u{2019}\u{e2}\u{2013}\u{2c6}\u{e2}\u{2013}\u{2c6}\u{e2}\u{2013}\u{2c6}\u{e2}\u{2013}\u{2019}\u{e2}\u{2013}\u{2019}\u{e2}\u{2013}\u{2c6}\u{e2}\u{2013}\u{2c6}\u{e2}\u{2013}\u{2c6}\u{e2}\u{2013}\u{2019}\u{e2}\u{2013}\u{2019}\u{e2}\u{2013}\u{2c6}\u{e2}\u{2013}\u{2c6}\u{e2}\u{2013}\u{2c6}\u{e2}\u{2013}\u{2019}\u{e2}\u{2013}\u{2019}\u{e2}\u{2013}\u{2c6}\u{e2}\u{2013}\u{2c6}\u{e2}\u{2013}\u{2c6} \u{e2}\u{2013}\u{2019}\u{e2}\u{2013}\u{2c6}\u{e2}\u{2013}\u{2c6}\u{e2}\u{2013}\u{2c6}\n\u{e2}\u{2013}\u{2019}\u{e2}\u{2013}\u{2019}\u{e2}\u{2013}\u{2019}\u{e2}\u{2013}\u{2c6}\u{e2}\u{2013}\u{2c6}\u{e2}\u{2013}\u{2c6}\u{e2}\u{2013}\u{2019}     \u{e2}\u{2013}\u{2019}\u{e2}\u{2013}\u{2c6}\u{e2}\u{2013}\u{2c6}\u{e2}\u{2013}\u{2c6} \u{e2}\u{2013}\u{2019}\u{e2}\u{2013}\u{2c6}\u{e2}\u{2013}\u{2c6}\u{e2}\u{2013}\u{2c6} \u{e2}\u{2013}\u{2019}\u{e2}\u{2013}\u{2c6}\u{e2}\u{2013}\u{2c6}\u{e2}\u{2013}\u{2c6} \u{e2}\u{2013}\u{2019}\u{e2}\u{2013}\u{2c6}\u{e2}\u{2013}\u{2c6}\u{e2}\u{2013}\u{2c6} \u{e2}\u{2013}\u{2019}\u{e2}\u{2013}\u{2c6}\u{e2}\u{2013}\u{2c6}\u{e2}\u{2013}\u{2c6} \u{e2}\u{2013}\u{2019}\u{e2}\u{2013}\u{2c6}\u{e2}\u{2013}\u{2c6}\u{e2}\u{2013}\u{2c6} \u{e2}\u{2013}\u{2019}\u{e2}\u{2013}\u{2c6}\u{e2}\u{2013}\u{2c6}\u{e2}\u{2013}\u{2c6} \u{e2}\u{2013}\u{2019}\u{e2}\u{2013}\u{2c6}\u{e2}\u{2013}\u{2c6}\u{e2}\u{2013}\u{2c6} \u{e2}\u{2013}\u{2019}\u{e2}\u{2013}\u{2c6}\u{e2}\u{2013}\u{2c6}\u{e2}\u{2013}\u{2c6}\n  \u{e2}\u{2013}\u{2019}\u{e2}\u{2013}\u{2c6}\u{e2}\u{2013}\u{2c6}\u{e2}\u{2013}\u{2c6}      \u{e2}\u{2013}\u{2019}\u{e2}\u{2013}\u{2c6}\u{e2}\u{2013}\u{2c6}\u{e2}\u{2013}\u{2c6} \u{e2}\u{2013}\u{2019}\u{e2}\u{2013}\u{2c6}\u{e2}\u{2013}\u{2c6}\u{e2}\u{2013}\u{2c6} \u{e2}\u{2013}\u{2019}\u{e2}\u{2013}\u{2c6}\u{e2}\u{2013}\u{2c6}\u{e2}\u{2013}\u{2c6} \u{e2}\u{2013}\u{2019}\u{e2}\u{2013}\u{2c6}\u{e2}\u{2013}\u{2c6}\u{e2}\u{2013}\u{2c6} \u{e2}\u{2013}\u{2019}\u{e2}\u{2013}\u{2c6}\u{e2}\u{2013}\u{2c6}\u{e2}\u{2013}\u{2c6} \u{e2}\u{2013}\u{2019}\u{e2}\u{2013}\u{2c6}\u{e2}\u{2013}\u{2c6}\u{e2}\u{2013}\u{2c6} \u{e2}\u{2013}\u{2019}\u{e2}\u{2013}\u{2c6}\u{e2}\u{2013}\u{2c6}\u{e2}\u{2013}\u{2c6} \u{e2}\u{2013}\u{2019}\u{e2}\u{2013}\u{2c6}\u{e2}\u{2013}\u{2c6}\u{e2}\u{2013}\u{2c6} \u{e2}\u{2013}\u{2019}\u{e2}\u{2013}\u{2c6}\u{e2}\u{2013}\u{2c6}\u{e2}\u{2013}\u{2c6}\n  \u{e2}\u{2013}\u{2c6}\u{e2}\u{2013}\u{2c6}\u{e2}\u{2013}\u{2c6}\u{e2}\u{2013}\u{2c6}\u{e2}\u{2013}\u{2c6}     \u{e2}\u{2013}\u{2c6}\u{e2}\u{2013}\u{2c6}\u{e2}\u{2013}\u{2c6}\u{e2}\u{2013}\u{2c6}\u{e2}\u{2013}\u{2c6}\u{e2}\u{2013}\u{2019}\u{e2}\u{2013}\u{2019}\u{e2}\u{2013}\u{2c6}\u{e2}\u{2013}\u{2c6}\u{e2}\u{2013}\u{2c6}\u{e2}\u{2013}\u{2c6}\u{e2}\u{2013}\u{2c6}\u{e2}\u{2013}\u{2c6}  \u{e2}\u{2013}\u{2019}\u{e2}\u{2013}\u{2c6}\u{e2}\u{2013}\u{2c6}\u{e2}\u{2013}\u{2c6}\u{e2}\u{2013}\u{2c6}\u{e2}\u{2013}\u{2c6}\u{e2}\u{2013}\u{2c6}\u{e2}\u{2013}\u{2c6}  \u{e2}\u{2013}\u{2019}\u{e2}\u{2013}\u{2c6}\u{e2}\u{2013}\u{2c6}\u{e2}\u{2013}\u{2c6}\u{e2}\u{2013}\u{2c6}\u{e2}\u{2013}\u{2c6}\u{e2}\u{2013}\u{2c6}\u{e2}\u{2013}\u{2c6}  \u{e2}\u{2013}\u{2019}\u{e2}\u{2013}\u{2019}\u{e2}\u{2013}\u{2c6}\u{e2}\u{2013}\u{2c6}\u{e2}\u{2013}\u{2c6}\u{e2}\u{2013}\u{2c6}\u{e2}\u{2013}\u{2c6}\u{e2}\u{2013}\u{2c6}\u{e2}\u{2013}\u{2c6}\n \u{e2}\u{2013}\u{2019}\u{e2}\u{2013}\u{2019}\u{e2}\u{2013}\u{2019}\u{e2}\u{2013}\u{2019}\u{e2}\u{2013}\u{2019}     \u{e2}\u{2013}\u{2019}\u{e2}\u{2013}\u{2019}\u{e2}\u{2013}\u{2019}\u{e2}\u{2013}\u{2019}\u{e2}\u{2013}\u{2019}  \u{e2}\u{2013}\u{2019}\u{e2}\u{2013}\u{2019}\u{e2}\u{2013}\u{2019}\u{e2}\u{2013}\u{2019}\u{e2}\u{2013}\u{2019}\u{e2}\u{2013}\u{2019}   \u{e2}\u{2013}\u{2019}\u{e2}\u{2013}\u{2c6}\u{e2}\u{2013}\u{2c6}\u{e2}\u{2013}\u{2c6}\u{e2}\u{2013}\u{2019}\u{e2}\u{2013}\u{2019}\u{e2}\u{2013}\u{2019}   \u{e2}\u{2013}\u{2019}\u{e2}\u{2013}\u{2c6}\u{e2}\u{2013}\u{2c6}\u{e2}\u{2013}\u{2c6}\u{e2}\u{2013}\u{2019}\u{e2}\u{2013}\u{2019}\u{e2}\u{2013}\u{2019}    \u{e2}\u{2013}\u{2019}\u{e2}\u{2013}\u{2019}\u{e2}\u{2013}\u{2019}\u{e2}\u{2013}\u{2019}\u{e2}\u{2013}\u{2019}\u{e2}\u{2013}\u{2c6}\u{e2}\u{2013}\u{2c6}\u{e2}\u{2013}\u{2c6}\n                           \u{e2}\u{2013}\u{2019}\u{e2}\u{2013}\u{2c6}\u{e2}\u{2013}\u{2c6}\u{e2}\u{2013}\u{2c6}      \u{e2}\u{2013}\u{2019}\u{e2}\u{2013}\u{2c6}\u{e2}\u{2013}\u{2c6}\u{e2}\u{2013}\u{2c6}       \u{e2}\u{2013}\u{2c6}\u{e2}\u{2013}\u{2c6}\u{e2}\u{2013}\u{2c6} \u{e2}\u{2013}\u{2019}\u{e2}\u{2013}\u{2c6}\u{e2}\u{2013}\u{2c6}\u{e2}\u{2013}\u{2c6}\n                           \u{e2}\u{2013}\u{2c6}\u{e2}\u{2013}\u{2c6}\u{e2}\u{2013}\u{2c6}\u{e2}\u{2013}\u{2c6}\u{e2}\u{2013}\u{2c6}     \u{e2}\u{2013}\u{2c6}\u{e2}\u{2013}\u{2c6}\u{e2}\u{2013}\u{2c6}\u{e2}\u{2013}\u{2c6}\u{e2}\u{2013}\u{2c6}     \u{e2}\u{2013}\u{2019}\u{e2}\u{2013}\u{2019}\u{e2}\u{2013}\u{2c6}\u{e2}\u{2013}\u{2c6}\u{e2}\u{2013}\u{2c6}\u{e2}\u{2013}\u{2c6}\u{e2}\u{2013}\u{2c6}\u{e2}\u{2013}\u{2c6}\n                          \u{e2}\u{2013}\u{2019}\u{e2}\u{2013}\u{2019}\u{e2}\u{2013}\u{2019}\u{e2}\u{2013}\u{2019}\u{e2}\u{2013}\u{2019}     \u{e2}\u{2013}\u{2019}\u{e2}\u{2013}\u{2019}\u{e2}\u{2013}\u{2019}\u{e2}\u{2013}\u{2019}\u{e2}\u{2013}\u{2019}       \u{e2}\u{2013}\u{2019}\u{e2}\u{2013}\u{2019}\u{e2}\u{2013}\u{2019}\u{e2}\u{2013}\u{2019}\u{e2}\u{2013}\u{2019}\u{e2}\u{2013}\u{2019}\n\n\u{1b}[0;1;93mPUT:\n> \u{1b}[0;40;90m$ curl -T ./sample.txt "@ + url + "\u{1b}[0;1m\n\n\u{1b}[0;1;93mGET:\n> \u{1b}[0;40;90m$ curl "@ + url + "?file=8079770645379253334\u{1b}[0;1m\n"@
}

/// Renders the usage banner for the given public base URL.
pub fn index(url: &str) -> (r: String) 
    ensures
        r@ == spec_banner(url@),
{
    let mut s = "\u{1b}[0;95m    \u{e2}\u{2013}\u{2c6}\u{e2}\u{2013}\u{2c6}\u{e2}\u{2013}\u{2c6}\u{e2}\u{2013}\u{2c6}\u{e2}\u{2013}\u{2c6}\u{e2}\u{2013}\u{2c6}  \u{e2}\u{2013}\u{2c6}\u{e2}\u{2013}\u{2c6}\u{e2}\u{2013}\u{2c6}\u{e2}\u{2013}\u{2c6}\n   \u{e2}\u{2013}\u{2c6}\u{e2}\u{2013}\u{2c6}\u{e2}\u{2013}\u{2c6}\u{e2}\u{2013}\u{2019}\u{e2}\u{2013}\u{2019}\u{e2}\u{2013}\u{2c6}\u{e2}\u{2013}\u{2c6}\u{e2}\u{2013}\u{2c6}\u{e2}\u{2013}\u{2019}\u{e2}\u{2013}\u{2019}\u{e2}\u{2013}\u{2c6}\u{e2}\u{2013}\u{2c6}\u{e2}\u{2013}\u{2c6}\n  \u{e2}\u{2013}\u{2019}\u{e2}\u{2013}\u{2c6}\u{e2}\u{2013}\u{2c6}\u{e2}\u{2013}\u{2c6} \u{e2}\u{2013}\u{2019}\u{e2}\u{2013}\u{2019}\u{e2}\u{2013}\u{2019}  \u{e2}\u{2013}\u{2019}\u{e2}\u{2013}\u{2c6}\u{e2}\u{2013}\u{2c6}\u{e2}\u{2013}\u{2c6}   \u{e2}\u{2013}\u{2c6}\u{e2}\u{2013}\u{2c6}\u{e2}\u{2013}\u{2c6}\u{e2}\u{2013}\u{2c6}\u{e2}\u{2013}\u{2c6}\u{e2}\u{2013}\u{2c6}  \u{e2}\u{2013}\u{2c6}\u{e2}\u{2013}\u{2c6}\u{e2}\u{2013}\u{2c6}\u{e2}\u{2013}\u{2c6}\u{e2}\u{2013}\u{2c6}\u{e2}\u{2013}\u{2c6}\u{e2}\u{2013}\u{2c6}\u{e2}\u{2013}\u{2c6}  \u{e2}\u{2013}\u{2c6}\u{e2}\u{2013}\u{2c6}\u{e2}\u{2013}\u{2c6}\u{e2}\u{2013}\u{2c6}\u{e2}\u{2013}\u{2c6}\u{e2}\u{2013}\u{2c6}\u{e2}\u{2013}\u{2c6}\u{e2}\u{2013}\u{2c6}  \u{e2}\u{2013}\u{2c6}\u{e2}\u{2013}\u{2c6}\u{e2}\u{2013}\u{2c6}\u{e2}\u{2013}\u{2c6}\u{e2}\u{2013}\u{2c6} \u{e2}\u{2013}\u{2c6}\u{e2}\u{2013}\u{2c6}\u{e2}\u{2013}\u{2c6}\u{e2}\u{2013}\u{2c6}\n \u{e2}\u{2013}\u{2c6}\u{e2}\u{2013}\u{2c6}\u{e2}\u{2013}\u{2c6}\u{e2}\u{2013}\u{2c6}\u{e2}\u{2013}\u{2c6}\u{e2}\u{2013}\u{2c6}\u{e2}\u{2013}\u{2c6}    \u{e2}\u{2013}\u{2019}\u{e2}\u{2013}\u{2c6}\u{e2}\u{2013}\u{2c6}\u{e2}\u{2013}\u{2c6}  \u{e2}\u{2013}\u{2c6}\u{e2}\u{2013}\u{2c6}\u{e2}\u{2013}\u{2c6}\u{e2}\u{2013}\u{2019}\u{e2}\u{2013}\u{2019}\u{e2}\u{2013}\u{2c6}\u{e2}\u{2013}\u{2c6}\u{e2}\u{2013}\u{2c6}\u{e2}\u{2013}\u{2019}\u{e2}\u{2013}\u{2019}\u{e2}\u{2013}\u{2c6}\u{e2}\u{2013}\u{2c6}\u{e2}\u{2013}\u{2c6}\u{e2}\u{2013}\u{2019}\u{e2}\u{2013}\u{2019}\u{e2}\u{2013}\u{2c6}\u{e2}\u{2013}\u{2c6}\u{e2}\u{2013}\u{2c6}\u{e2}\u{2013}\u{2019}\u{e2}\u{2013}\u{2019}\u{e2}\u{2013}\u{2c6}\u{e2}\u{2013}\u{2c6}\u{e2}\u{2013}\u{2c6}\u{e2}\u{2013}\u{2019}\u{e2}\u{2013}\u{2019}\u{e2}\u{2013}\u{2c6}\u{e2}\u{2013}\u{2c6}\u{e2}\u{2013}\u{2c6}\u{e2}\u{2013}\u{2019}\u{e2}\u{2013}\u{2019}\u{e2}\u{2013}\u{2c6}\u{e2}\u{2013}\u{2c6}\u{e2}\u{2013}\u{2c6} \u{e2}\u{2013}\u{2019}\u{e2}\u{2013}\u{2c6}\u{e2}\u{2013}\u{2c6}\u{e2}\u{2013}\u{2c6}\n\u{e2}\u{2013}\u{2019}\u{e2}\u{2013}\u{2019}\u{e2}\u{2013}\u{2019}\u{e2}\u{2013}\u{2c6}\u{e2}\u{2013}\u{2c6}\u{e2}\u{2013}\u{2c6}\u{e2}\u{2013}\u{2019}     \u{e2}\u{2013}\u{2019}\u{e2}\u{2013}\u{2c6}\u{e2}\u{2013}\u{2c6}\u{e2}\u{2013}\u{2c6} \u{e2}\u{2013}\u{2019}\u{e2}\u{2013}\u{2c6}\u{e2}\u{2013}\u{2c6}\u{e2}\u{2013}\u{2c6} \u{e2}\u{2013}\u{2019}\u{e2}\u{2013}\u{2c6}\u{e2}\u{2013}\u{2c6}\u{e2}\u{2013}\u{2c6} \u{e2}\u{2013}\u{2019}\u{e2}\u{2013}\u{2c6}\u{e2}\u{2013}\u{2c6}\u{e2}\u{2013}\u{2c6} \u{e2}\u{2013}\u{2019}\u{e2}\u{2013}\u{2c6}\u{e2}\u{2013}\u{2c6}\u{e2}\u{2013}\u{2c6} \u{e2}\u{2013}\u{2019}\u{e2}\u{2013}\u{2c6}\u{e2}\u{2013}\u{2c6}\u{e2}\u{2013}\u{2c6} \u{e2}\u{2013}\u{2019}\u{e2}\u{2013}\u{2c6}\u{e2}\u{2013}\u{2c6}\u{e2}\u{2013}\u{2c6} \u{e2}\u{2013}\u{2019}\u{e2}\u{2013}\u{2c6}\u{e2}\u{2013}\u{2c6}\u{e2}\u{2013}\u{2c6} \u{e2}\u{2013}\u{2019}\u{e2}\u{2013}\u{2c6}\u{e2}\u{2013}\u{2c6}\u{e2}\u{2013}\u{2c6}\n  \u{e2}\u{2013}\u{2019}\u{e2}\u{2013}\u{2c6}\u{e2}\u{2013}\u{2c6}\u{e2}\u{2013}\u{2c6}      \u{e2}\u{2013}\u{2019}\u{e2}\u{2013}\u{2c6}\u{e2}\u{2013}\u{2c6}\u{e2}\u{2013}\u{2c6} \u{e2}\u{2013}\u{2019}\u{e2}\u{2013}\u{2c6}\u{e2}\u{2013}\u{2c6}\u{e2}\u{2013}\u{2c6} \u{e2}\u{2013}\u{2019}\u{e2}\u{2013}\u{2c6}\u{e2}\u{2013}\u{2c6}\u{e2}\u{2013}\u{2c6} \u{e2}\u{2013}\u{2019}\u{e2}\u{2013}\u{2c6}\u{e2}\u{2013}\u{2c6}\u{e2}\u{2013}\u{2c6} \u{e2}\u{2013}\u{2019}\u{e2}\u{2013}\u{2c6}\u{e2}\u{2013}\u{2c6}\u{e2}\u{2013}\u{2c6} \u{e2}\u{2013}\u{2019}\u{e2}\u{2013}\u{2c6}\u{e2}\u{2013}\u{2c6}\u{e2}\u{2013}\u{2c6} \u{e2}\u{2013}\u{2019}\u{e2}\u{2013}\u{2c6}\u{e2}\u{2013}\u{2c6}\u{e2}\u{2013}\u{2c6} \u{e2}\u{2013}\u{2019}\u{e2}\u{2013}\u{2c6}\u{e2}\u{2013}\u{2c6}\u{e2}\u{2013}\u{2c6} \u{e2}\u{2013}\u{2019}\u{e2}\u{2013}\u{2c6}\u{e2}\u{2013}\u{2c6}\u{e2}\u{2013}\u{2c6}\n  \u{e2}\u{2013}\u{2c6}\u{e2}\u{2013}\u{2c6}\u{e2}\u{2013}\u{2c6}\u{e2}\u{2013}\u{2c6}\u{e2}\u{2013}\u{2c6}     \u{e2}\u{2013}\u{2c6}\u{e2}\u{2013}\u{2c6}\u{e2}\u{2013}\u{2c6}\u{e2}\u{2013}\u{2c6}\u{e2}\u{2013}\u{2c6}\u{e2}\u{2013}\u{2019}\u{e2}\u{2013}\u{2019}\u{e2}\u{2013}\u{2c6}\u{e2}\u{2013}\u{2c6}\u{e2}\u{2013}\u{2c6}\u{e2}\u{2013}\u{2c6}\u{e2}\u{2013}\u{2c6}\u{e2}\u{2013}\u{2c6}  \u{e2}\u{2013}\u{2019}\u{e2}\u{2013}\u{2c6}\u{e2}\u{2013}\u{2c6}\u{e2}\u{2013}\u{2c6}\u{e2}\u{2013}\u{2c6}\u{e2}\u{2013}\u{2c6}\u{e2}\u{2013}\u{2c6}\u{e2}\u{2013}\u{2c6}  \u{e2}\u{2013}\u{2019}\u{e2}\u{2013}\u{2c6}\u{e2}\u{2013}\u{2c6}\u{e2}\u{2013}\u{2c6}\u{e2}\u{2013}\u{2c6}\u{e2}\u{2013}\u{2c6}\u{e2}\u{2013}\u{2c6}\u{e2}\u{2013}\u{2c6}  \u{e2}\u{2013}\u{2019}\u{e2}\u{2013}\u{2019}\u{e2}\u{2013}\u{2c6}\u{e2}\u{2013}\u{2c6}\u{e2}\u{2013}\u{2c6}\u{e2}\u{2013}\u{2c6}\u{e2}\u{2013}\u{2c6}\u{e2}\u{2013}\u{2c6}\u{e2}\u{2013}\u{2c6}\n \u{e2}\u{2013}\u{2019}\u{e2}\u{2013}\u{2019}\u{e2}\u{2013}\u{2019}\u{e2}\u{2013}\u{2019}\u{e2}\u{2013}\u{2019}     \u{e2}\u{2013}\u{2019}\u{e2}\u{2013}\u{2019}\u{e2}\u{2013}\u{2019}\u{e2}\u{2013}\u{2019}\u{e2}\u{2013}\u{2019}  \u{e2}\u{2013}\u{2019}\u{e2}\u{2013}\u{2019}\u{e2}\u{2013}\u{2019}\u{e2}\u{2013}\u{2019}\u{e2}\u{2013}\u{2019}\u{e2}\u{2013}\u{2019}   \u{e2}\u{2013}\u{2019}\u{e2}\u{2013}\u{2c6}\u{e2}\u{2013}\u{2c6}\u{e2}\u{2013}\u{2c6}\u{e2}\u{2013}\u{2019}\u{e2}\u{2013}\u{2019}\u{e2}\u{2013}\u{2019}   \u{e2}\u{2013}\u{2019}\u{e2}\u{2013}\u{2c6}\u{e2}\u{2013}\u{2c6}\u{e2}\u{2013}\u{2c6}\u{e2}\u{2013}\u{2019}\u{e2}\u{2013}\u{2019}\u{e2}\u{2013}\u{2019}    \u{e2}\u{2013}\u{2019}\u{e2}\u{2013}\u{2019}\u{e2}\u{2013}\u{2019}\u{e2}\u{2013}\u{2019}\u{e2}\u{2013}\u{2019}\u{e2}\u{2013}\u{2c6}\u{e2}\u{2013}\u{2c6}\u{e2}\u{2013}\u{2c6}\n                           \u{e2}\u{2013}\u{2019}\u{e2}\u{2013}\u{2c6}\u{e2}\u{2013}\u{2c6}\u{e2}\u{2013}\u{2c6}      \u{e2}\u{2013}\u{2019}\u{e2}\u{2013}\u{2c6}\u{e2}\u{2013}\u{2c6}\u{e2}\u{2013}\u{2c6}       \u{e2}\u{2013}\u{2c6}\u{e2}\u{2013}\u{2c6}\u{e2}\u{2013}\u{2c6} \u{e2}\u{2013}\u{2019}\u{e2}\u{2013}\u{2c6}\u{e2}\u{2013}\u{2c6}\u{e2}\u{2013}\u{2c6}\n                           \u{e2}\u{2013}\u{2c6}\u{e2}\u{2013}\u{2c6}\u{e2}\u{2013}\u{2c6}\u{e2}\u{2013}\u{2c6}\u{e2}\u{2013}\u{2c6}     \u{e2}\u{2013}\u{2c6}\u{e2}\u{2013}\u{2c6}\u{e2}\u{2013}\u{2c6}\u{e2}\u{2013}\u{2c6}\u{e2}\u{2013}\u{2c6}     \u{e2}\u{2013}\u{2019}\u{e2}\u{2013}\u{2019}\u{e2}\u{2013}\u{2c6}\u{e2}\u{2013}\u{2c6}\u{e2}\u{2013}\u{2c6}\u{e2}\u{2013}\u{2c6}\u{e2}\u{2013}\u{2c6}\u{e2}\u{2013}\u{2c6}\n                          \u{e2}\u{2013}\u{2019}\u{e2}\u{2013}\u{2019}\u{e2}\u{2013}\u{2019}\u{e2}\u{2013}\u{2019}\u{e2}\u{2013}\u{2019}     \u{e2}\u{2013}\u{2019}\u{e2}\u{2013}\u{2019}\u{e2}\u{2013}\u{2019}\u{e2}\u{2013}\u{2019}\u{e2}\u{2013}\u{2019}       \u{e2}\u{2013}\u{2019}\u{e2}\u{2013}\u{2019}\u{e2}\u{2013}\u{2019}\u{e2}\u{2013}\u{2019}\u{e2}\u{2013}\u{2019}\u{e2}\u{2013}\u{2019}\n\n\u{1b}[0;1;93mPUT:\n> \u{1b}[0;40;90m$ curl -T ./sample.txt ".to_owned();
    s.append(url);
    s.append("\u{1b}[0;1m\n\n\u{1b}[0;1;93mGET:\n> \u{1b}[0;40;90m$ curl ");
    s.append(url);
    s.append("?file=8079770645379253334\u{1b}[0;1m\n");
    proof {
        assert(s@ =~= spec_banner(url@));
    }
    s
}

} // verus!
