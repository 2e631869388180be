//! Which strings are Rust identifiers.

use vstd::prelude::*;

verus! {

/// An ASCII letter.
pub open spec fn ascii_letter(c: char) -> bool {
    'a' <= c <= 'z' || 'A' <= c <= 'Z'
}

/// An ASCII digit.
pub open spec fn ascii_digit(c: char) -> bool {
    '0' <= c <= '9'
}

/// A character of the ASCII range.
pub open spec fn ascii(c: char) -> bool {
    c as u32 <= 127
}

/// What `unicode_ident::is_xid_start` answers for a character outside ASCII.
pub uninterp spec fn unicode_start(c: char) -> bool;

/// What `unicode_ident::is_xid_continue` answers for a character outside ASCII.
pub uninterp spec fn unicode_continue(c: char) -> bool;

/// The Unicode property XID_Start.
pub open spec fn xid_start(c: char) -> bool {
    if ascii(c) {
        ascii_letter(c)
    } else {
        unicode_start(c)
    }
}

/// A character that may stand in an identifier after the first one: the Unicode property
/// XID_Continue.
pub open spec fn ident_continue(c: char) -> bool {
    if ascii(c) {
        ascii_letter(c) || ascii_digit(c) || c == '_'
    } else {
        unicode_continue(c)
    }
}

/// A character that may begin an identifier.
pub open spec fn ident_start(c: char) -> bool {
    c == '_' || xid_start(c)
}

/// Every character may stand in an identifier after the first one.
pub open spec fn all_continue(s: Seq<char>) -> bool {
    forall|i: int| 0 <= i < s.len() ==> ident_continue(#[trigger] s[i])
}

/// The string is an identifier.
pub open spec fn is_ident(s: Seq<char>) -> bool {
    &&& s.len() > 0
    &&& ident_start(s[0])
    &&& forall|i: int| 1 <= i < s.len() ==> ident_continue(#[trigger] s[i])
}

/// Asks `unicode_ident::is_xid_start`. Its contract claims that among the ASCII characters the
/// letters alone have the property, and that for the others the answer depends on the character
/// alone.
#[verifier::external_body]
fn is_xid_start(c: char) -> (b: bool)
    ensures
        b == (if ascii(c) {
            ascii_letter(c)
        } else {
            unicode_start(c)
        }),
{
    unicode_ident::is_xid_start(c)
}

/// Asks `unicode_ident::is_xid_continue`. Its contract claims that among the ASCII characters
/// the letters, the digits and the underscore alone have the property, and that for the others
/// the answer depends on the character alone.
#[verifier::external_body]
fn is_xid_continue(c: char) -> (b: bool)
    ensures
        b == (if ascii(c) {
            ascii_letter(c) || ascii_digit(c) || c == '_'
        } else {
            unicode_continue(c)
        }),
{
    unicode_ident::is_xid_continue(c)
}

/// A string that an identifier may begin with: empty, or an identifier itself.
pub open spec fn is_stem(s: Seq<char>) -> bool {
    s.len() == 0 || is_ident(s)
}

/// What follows a stem may be anything that can both begin and continue an identifier.
pub(crate) proof fn lemma_stem(stem: Seq<char>, rest: Seq<char>)
    requires
        is_stem(stem),
        is_ident(rest),
        all_continue(rest),
    ensures
        is_ident(stem + rest),
{
    let s = stem + rest;
    assert forall|i: int| 1 <= i < s.len() implies ident_continue(#[trigger] s[i]) by {
        if i >= stem.len() {
            assert(s[i] == rest[i - stem.len()]);
        }
    }
}

/// Whether a text is an identifier.
pub fn is_identifier(s: &str) -> (b: bool)
    ensures
        b == is_ident(s@),
{
    let mut first: bool = true;
    for c in it: s.chars()
        invariant
            it.seq() == s@,
            first == (it.index() == 0),
            it.index() > 0 ==> ident_start(s@[0]),
            forall|i: int| 1 <= i < it.index() ==> ident_continue(#[trigger] s@[i]),
    {
        if first {
            if c != '_' && !is_xid_start(c) {
                return false;
            }
            first = false;
        } else if !is_xid_continue(c) {
            return false;
        }
    }
    !first
}

} // verus!
