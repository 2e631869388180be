//! The case conversions between the spellings of a name: `SHOUT_CASE`, `snake_case`,
//! `PascalCase`.

use crate::ident::ascii;
use vstd::prelude::*;
use vstd::string::*;

verus! {

/// The lower-case form of an ASCII capital; any other character is left as it is.
pub open spec fn lower_char(c: char) -> char {
    if 'A' <= c <= 'Z' {
        (c as int + 32) as char
    } else {
        c
    }
}

/// The upper-case form of a small ASCII letter; any other character is left as it is.
pub open spec fn upper_char(c: char) -> char {
    if 'a' <= c <= 'z' {
        (c as int - 32) as char
    } else {
        c
    }
}

/// Every ASCII capital of the string in lower case.
pub open spec fn lower(s: Seq<char>) -> Seq<char> {
    s.map_values(|c: char| lower_char(c))
}

/// The string without its underscores.
pub open spec fn without_underscores(s: Seq<char>) -> Seq<char> {
    s.filter(|c: char| c != '_')
}

/// The string with its first character in upper case.
pub open spec fn capitalized(s: Seq<char>) -> Seq<char> {
    seq![upper_char(s[0])] + s.skip(1)
}

/// A string in shout case whose words can be told apart: every underscore stands directly behind
/// a character that is no underscore.
pub open spec fn is_shout_case(s: Seq<char>) -> bool {
    forall|i: int| 0 <= i < s.len() && #[trigger] s[i] == '_' ==> i > 0 && s[i - 1] != '_'
}

/// Whether a word of a string in shout case begins at this position.
pub open spec fn begins_word(s: Seq<char>, i: int) -> bool {
    i == 0 || s[i - 1] == '_'
}

/// The string in Pascal case: the underscores are dropped, the first character of each word is
/// kept, and the others are put in lower case.
pub open spec fn pascal(s: Seq<char>) -> Seq<char>
    decreases s.len(),
{
    if s.len() == 0 {
        Seq::empty()
    } else if begins_word(s, s.len() - 1) {
        pascal(s.drop_last()).push(s.last())
    } else if s.last() == '_' {
        pascal(s.drop_last())
    } else {
        pascal(s.drop_last()).push(lower_char(s.last()))
    }
}

/// Adds one character at the end of a string: `String::push`.
pub assume_specification[ String::push ](s: &mut String, c: char)
    ensures
        final(s)@ == old(s)@.push(c),
;

pub fn to_lower_char(c: char) -> (r: char)
    ensures
        r == lower_char(c),
{
    if 'A' <= c && c <= 'Z' {
        ((c as u8) + 32) as char
    } else {
        c
    }
}

pub fn to_upper_char(c: char) -> (r: char)
    ensures
        r == upper_char(c),
{
    if 'a' <= c && c <= 'z' {
        ((c as u8) - 32) as char
    } else {
        c
    }
}

/// Whether two texts are the same.
pub fn same_text(a: &str, b: &str) -> (r: bool)
    ensures
        r == (a@ == b@),
{
    a.to_owned() == b.to_owned()
}

/// The text with every ASCII capital in lower case.
pub fn to_lower(s: &str) -> (r: String)
    ensures
        r@ == lower(s@),
{
    let mut r = String::new();
    for c in it: s.chars()
        invariant
            it.seq() == s@,
            r@ =~= lower(s@).take(it.index()),
    {
        r.push(to_lower_char(c));
    }
    r
}

/// The text without its underscores.
pub fn remove_underscores(s: &str) -> (r: String)
    ensures
        r@ == without_underscores(s@),
{
    let mut r = String::new();
    proof {
        reveal(Seq::filter);
    }
    for c in it: s.chars()
        invariant
            it.seq() == s@,
            r@ == without_underscores(s@.take(it.index())),
    {
        proof {
            reveal(Seq::filter);
            assert(s@.take(it.index() + 1).drop_last() =~= s@.take(it.index()));
        }
        if c != '_' {
            r.push(c);
        }
    }
    proof {
        assert(s@.take(s@.len() as int) =~= s@);
    }
    r
}

pub fn strip_prefix<'a>(s: &'a str, prefix: &str) -> (r: Option<&'a str>)
    ensures
        r is Some <==> prefix@.is_prefix_of(s@),
        r matches Some(rest) ==> rest@ == s@.skip(prefix@.len() as int),
{
    let n: usize = prefix.unicode_len();
    let len: usize = s.unicode_len();
    if n > len {
        return None;
    }
    for i in 0..n
        invariant
            n == prefix@.len(),
            n <= s@.len(),
            forall|j: int| 0 <= j < i ==> s@[j] == prefix@[j],
    {
        if s.get_char(i) != prefix.get_char(i) {
            return None;
        }
    }
    assert(prefix@ =~= s@.take(n as int));
    Some(s.substring_char(n, len))
}

/// The text with its first character, which must be ASCII, in upper case.
pub fn capitalize(s: &str) -> (r: String)
    requires
        s@.len() > 0,
        ascii(s@[0]),
    ensures
        r@ == capitalized(s@),
{
    let len: usize = s.unicode_len();
    let mut r = String::new();
    r.push(to_upper_char(s.get_char(0)));
    r.append(s.substring_char(1, len));
    assert(r@ =~= capitalized(s@));
    r
}

/// Whether a text is in shout case.
pub fn has_shout_case(s: &str) -> (b: bool)
    ensures
        b == is_shout_case(s@),
{
    let mut after_underscore: bool = true;
    for c in it: s.chars()
        invariant
            it.seq() == s@,
            after_underscore == begins_word(s@, it.index()),
            forall|i: int|
                0 <= i < it.index() && #[trigger] s@[i] == '_' ==> i > 0 && s@[i - 1] != '_',
    {
        if c == '_' && after_underscore {
            assert(s@[it.index()] == '_');
            return false;
        }
        after_underscore = c == '_';
    }
    true
}

/// Turns `SHOUT_CASE` into `ShoutCase`.
pub fn shout_to_pascal(shout_case: &str) -> (r: String)
    requires
        is_shout_case(shout_case@),
    ensures
        r@ == pascal(shout_case@),
{
    let mut result = String::new();
    let mut next_upper: bool = true;
    for ch in it: shout_case.chars()
        invariant
            it.seq() == shout_case@,
            is_shout_case(shout_case@),
            next_upper == begins_word(shout_case@, it.index()),
            result@ == pascal(shout_case@.take(it.index())),
    {
        proof {
            let done = shout_case@.take(it.index() + 1);
            assert(done.drop_last() =~= shout_case@.take(it.index()));
            assert(done.last() == ch);
        }
        if next_upper {
            result.push(ch);  // unchanged
            next_upper = false;
        } else if ch == '_' {
            next_upper = true;
        } else {
            result.push(to_lower_char(ch));
        }
    }
    proof {
        assert(shout_case@.take(shout_case@.len() as int) =~= shout_case@);
    }
    result
}

} // verus!
