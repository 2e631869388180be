//! What holds of texts and tokens: of the spellings of a name, of identifiers, of literals, and of
//! tokens that are put one after the other.

use crate::fields::load_error;
use crate::ident::{
    ascii, ident_continue, ident_start, is_ident, is_stem, unicode_continue, unicode_start,
};
use crate::text::{
    capitalized, is_shout_case, lower, lower_char, pascal, upper_char, without_underscores,
};
use crate::tokens::{
    Spacing, Token, decimal, escaped_literal, flat, integer, is_plain, lemma_flat_append,
    lemma_flat_single, string_literal,
};
use vstd::prelude::*;

verus! {

// ---- spellings ----

/// One character in lower or in upper case: the letters of the other case move by 32, any other
/// character is kept.
pub proof fn law_letters(c: char)
    ensures
        65 <= c as int <= 90 ==> lower_char(c) as int == c as int + 32,
        !(65 <= c as int <= 90) ==> lower_char(c) == c,
        97 <= c as int <= 122 ==> upper_char(c) as int == c as int - 32,
        !(97 <= c as int <= 122) ==> upper_char(c) == c,
{
}

/// Putting a text in lower case keeps its length, moves each of the letters `A` to `Z` by 32, and
/// keeps every other character.
pub proof fn law_lower(s: Seq<char>)
    ensures
        lower(s).len() == s.len(),
        forall|i: int|
            0 <= i < s.len() && 65 <= s[i] as int <= 90 ==> (#[trigger] lower(s)[i]) as int
                == s[i] as int + 32,
        forall|i: int|
            0 <= i < s.len() && !(65 <= s[i] as int <= 90) ==> #[trigger] lower(s)[i] == s[i],
{
}

/// Lower case of a text is that of its parts.
pub proof fn law_lower_splits(a: Seq<char>, b: Seq<char>)
    ensures
        lower(a + b) == lower(a) + lower(b),
{
    assert(lower(a + b) =~= lower(a) + lower(b));
}

/// Dropping the underscores of a text drops those of its parts; of a single character, it drops
/// the underscore alone.
pub proof fn law_without_underscores(a: Seq<char>, b: Seq<char>, c: char)
    ensures
        without_underscores(a + b) == without_underscores(a) + without_underscores(b),
        without_underscores(seq![c]) == if c == '_' {
            Seq::<char>::empty()
        } else {
            seq![c]
        },
        without_underscores(Seq::<char>::empty()) == Seq::<char>::empty(),
{
    Seq::filter_distributes_over_add(a, b, |c: char| c != '_');
    reveal_with_fuel(Seq::filter, 2);
    assert(seq![c].drop_last() =~= Seq::<char>::empty());
}

/// Capitalising moves a first letter `a` to `z` by 32, and keeps all else.
pub proof fn law_capitalized_letters(s: Seq<char>)
    requires
        s.len() > 0,
    ensures
        capitalized(s).len() == s.len(),
        97 <= s[0] as int <= 122 ==> capitalized(s)[0] as int == s[0] as int - 32,
        !(97 <= s[0] as int <= 122) ==> capitalized(s)[0] == s[0],
        forall|i: int| 0 < i < s.len() ==> #[trigger] capitalized(s)[i] == s[i],
{
}

/// The name in Pascal case of words with an underscore between them is the names of the words,
/// one after the other.
pub proof fn law_pascal_joins_words(a: Seq<char>, b: Seq<char>)
    requires
        a.len() > 0,
        a.last() != '_',
    ensures
        pascal(a.push('_') + b) == pascal(a) + pascal(b),
    decreases b.len(),
{
    let s = a.push('_') + b;
    if b.len() == 0 {
        assert(s =~= a.push('_'));
        assert(s.drop_last() =~= a);
        assert(s[s.len() - 2] == a.last());
        assert(pascal(s) =~= pascal(a) + pascal(b));
    } else {
        let t = b.drop_last();
        law_pascal_joins_words(a, t);
        assert(s.drop_last() =~= a.push('_') + t);
        if b.len() > 1 {
            assert(s[s.len() - 2] == b[b.len() - 2]);
        } else {
            assert(s[s.len() - 2] == '_');
        }
        assert(pascal(s) =~= pascal(a) + pascal(b));
    }
}

/// One word in Pascal case: its first character is kept, the others are put in lower case.
pub proof fn law_pascal_of_a_word(w: Seq<char>)
    requires
        w.len() > 0,
        forall|i: int| 0 <= i < w.len() ==> #[trigger] w[i] != '_',
    ensures
        pascal(w) == seq![w[0]] + lower(w.skip(1)),
    decreases w.len(),
{
    let t = w.drop_last();
    if w.len() == 1 {
        assert(t =~= Seq::<char>::empty());
        assert(pascal(t) =~= Seq::<char>::empty());
        assert(pascal(w) =~= seq![w[0]] + lower(w.skip(1)));
    } else {
        assert forall|i: int| 0 <= i < t.len() implies #[trigger] t[i] != '_' by {
            assert(w[i] != '_');
        }
        law_pascal_of_a_word(t);
        assert(w[w.len() - 2] != '_');
        assert(w[w.len() - 1] != '_');
        assert(w.skip(1) =~= t.skip(1).push(w.last()));
        assert(pascal(w) =~= seq![w[0]] + lower(w.skip(1)));
    }
}

/// A text is in shout case unless it begins with an underscore or has two in a row.
pub proof fn law_shout_case(s: Seq<char>)
    ensures
        is_shout_case(s) <==> {
            &&& s.len() > 0 ==> s[0] != '_'
            &&& forall|i: int| 0 < i < s.len() ==> !(s[i - 1] == '_' && #[trigger] s[i] == '_')
        },
{
    if is_shout_case(s) {
        assert(s.len() > 0 && s[0] == '_' ==> 0 > 0);
    }
}

// ---- identifiers ----

/// A text of ASCII characters is an identifier exactly where it is made of letters, digits and
/// underscores and begins with no digit, and is not empty.
pub proof fn law_ascii_identifiers(s: Seq<char>)
    requires
        forall|i: int| 0 <= i < s.len() ==> (#[trigger] s[i]) as u32 <= 127,
    ensures
        is_ident(s) <==> {
            &&& s.len() > 0
            &&& !(48 <= s[0] as int <= 57)
            &&& forall|i: int|
                0 <= i < s.len() ==> {
                    ||| 97 <= (#[trigger] s[i]) as int <= 122
                    ||| 65 <= s[i] as int <= 90
                    ||| 48 <= s[i] as int <= 57
                    ||| s[i] as int == 95
                }
        },
{
    if is_ident(s) {
        assert forall|i: int| 0 <= i < s.len() implies {
            ||| 97 <= (#[trigger] s[i]) as int <= 122
            ||| 65 <= s[i] as int <= 90
            ||| 48 <= s[i] as int <= 57
            ||| s[i] as int == 95
        } by {
            let c = s[i];
            assert(ascii(c));
            if i == 0 {
                assert(ident_start(c));
            } else {
                assert(ident_continue(c));
            }
        }
    }
}

/// Outside ASCII the first character must have the property XID_Start, the others XID_Continue;
/// more characters that may continue an identifier may always follow.
pub proof fn law_identifiers_go_on(s: Seq<char>, c: char)
    requires
        s.len() > 0,
    ensures
        is_ident(s.push(c)) <==> {
            &&& is_ident(s)
            &&& if c as int <= 127 {
                97 <= c as int <= 122 || 65 <= c as int <= 90 || 48 <= c as int <= 57 || c == '_'
            } else {
                unicode_continue(c)
            }
        },
        is_ident(seq![c]) <==> if c as int <= 127 {
            97 <= c as int <= 122 || 65 <= c as int <= 90 || c == '_'
        } else {
            unicode_start(c)
        },
        is_stem(s) <==> is_ident(s),
        is_stem(Seq::<char>::empty()),
{
    let t = s.push(c);
    assert('_' as int == 95);
    if is_ident(t) {
        assert forall|i: int| 1 <= i < s.len() implies ident_continue(#[trigger] s[i]) by {
            assert(t[i] == s[i]);
        }
        assert(t[s.len() as int] == c);
    }
}

// ---- literals ----

/// The number that a text of decimal digits stands for.
pub open spec fn reading(digits: Seq<char>) -> int
    decreases digits.len(),
{
    if digits.len() == 0 {
        0
    } else {
        10 * reading(digits.drop_last()) + (digits.last() as int - 48)
    }
}

/// A number is written in decimal digits, without needless zeros in front, and the digits read as
/// that number.
pub proof fn law_decimal(n: nat)
    ensures
        reading(decimal(n)) == n,
        decimal(n).len() > 0,
        forall|i: int|
            0 <= i < decimal(n).len() ==> 48 <= (#[trigger] decimal(n)[i]) as int <= 57,
        n > 0 ==> decimal(n)[0] != '0',
    decreases n,
{
    if n < 10 {
        assert(decimal(n).drop_last() =~= Seq::<char>::empty());
        assert(reading(Seq::<char>::empty()) == 0);
        assert(decimal(n).last() as int == 48 + n);
        assert('0' as int == 48);
    } else {
        law_decimal(n / 10);
        assert(decimal(n).drop_last() =~= decimal(n / 10));
        assert(decimal(n).last() as int == 48 + n % 10);
    }
}

/// An integer is written as one literal, its digits and then the suffix; a negative one has a
/// minus sign before it.
pub proof fn law_integer(value: int, suffix: Seq<char>)
    ensures
        value >= 0 ==> {
            &&& integer(value, suffix).len() == 1
            &&& integer(value, suffix)[0] matches Token::Literal(text) && {
                &&& text.len() >= suffix.len()
                &&& text.skip(text.len() - suffix.len()) == suffix
                &&& reading(text.take(text.len() - suffix.len())) == value
            }
        },
        value < 0 ==> {
            &&& integer(value, suffix).len() == 2
            &&& integer(value, suffix)[0] == Token::Punct('-', Spacing::Alone)
            &&& integer(value, suffix)[1] == integer(-value, suffix)[0]
        },
{
    let n = if value >= 0 {
        value as nat
    } else {
        (-value) as nat
    };
    law_decimal(n);
    let text = decimal(n) + suffix;
    assert(text.skip(text.len() - suffix.len()) =~= suffix);
    assert(text.take(text.len() - suffix.len()) =~= decimal(n));
}

/// A string of ASCII characters that need no escape is written between quotation marks.
pub proof fn law_plain_strings(s: Seq<char>)
    requires
        forall|i: int|
            0 <= i < s.len() ==> 32 <= (#[trigger] s[i]) as int <= 126 && s[i] != '"' && s[i]
                != '\\',
    ensures
        string_literal(s) == Token::Literal(seq!['"'] + s + seq!['"']),
{
    assert(' ' as int == 32 && '~' as int == 126);
}

/// A string in which some character needs an escape is handed over as a whole to be escaped.
pub proof fn law_escaped_strings(s: Seq<char>, i: int)
    requires
        0 <= i < s.len(),
        !(32 <= s[i] as int <= 126) || s[i] == '"' || s[i] == '\\',
    ensures
        string_literal(s) == Token::Literal(escaped_literal(s)),
{
    assert(' ' as int == 32 && '~' as int == 126);
    assert(!is_plain(s[i]));
}

/// The message that a function could not be loaded holds its name, all of it, between backquotes
/// at the end; the rest of the message is the same for all functions.
pub proof fn law_load_error(name: Seq<char>, other: Seq<char>)
    ensures
        load_error(name).len() == load_error(other).len() - other.len() + name.len(),
        load_error(name).last() == '`',
        load_error(name).take(load_error(name).len() - name.len() - 1) == load_error(other).take(
            load_error(other).len() - other.len() - 1,
        ),
        load_error(name).skip(load_error(name).len() - name.len() - 1) == name.push('`'),
{
    reveal_strlit("`");
    let head = "failed to load GDExtension function `"@;
    assert(load_error(name).take(head.len() as int) =~= head);
    assert(load_error(other).take(head.len() as int) =~= head);
    assert(load_error(name).skip(head.len() as int) =~= name.push('`'));
}

// ---- one after the other ----

/// Tokens of parts that are put one after the other are those of the parts: no part is left out,
/// and nothing is added.
pub proof fn law_flat(a: Seq<Seq<Token>>, b: Seq<Seq<Token>>, part: Seq<Token>)
    ensures
        flat(a + b) == flat(a) + flat(b),
        flat(seq![part]) == part,
        flat(Seq::<Seq<Token>>::empty()) == Seq::<Token>::empty(),
{
    lemma_flat_append(a, b);
    lemma_flat_single(part);
}

} // verus!
