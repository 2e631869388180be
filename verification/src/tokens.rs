//! Rust source as token streams.
//!
//! The code that is generated is a [`proc_macro2::TokenStream`]. What such a stream holds is, in
//! contracts, a sequence of [`Token`]s; the functions of this module put tokens at its end.

use crate::ident::is_ident;
use proc_macro2::{Group, Ident, Literal, Punct, Span, TokenStream};
use quote::{ToTokens, TokenStreamExt};
use vstd::prelude::*;

verus! {

/// What stands around a group of tokens.
#[derive(Clone, Copy, Debug, PartialEq, Eq, Structural)]
pub enum Delimiter {
    Parenthesis,
    Brace,
    Bracket,
    /// Nothing that can be seen.
    Invisible,
}

/// Whether a punctuation character forms one operator with the next one.
#[derive(Clone, Copy, Debug, PartialEq, Eq, Structural)]
pub enum Spacing {
    Alone,
    Joint,
}

/// One token of a stream: what it says, without the place it came from.
pub enum Token {
    /// An identifier or a keyword.
    Ident(Seq<char>),
    Punct(char, Spacing),
    /// A literal, as it is written in source.
    Literal(Seq<char>),
    Group(Delimiter, Seq<Token>),
}

/// The token stream of `proc_macro2`.
#[verifier::external_type_specification]
#[verifier::external_body]
pub struct ExTokenStream(TokenStream);

/// The tokens that a stream holds, in order.
pub uninterp spec fn tokens_of(stream: TokenStream) -> Seq<Token>;

/// The text that `proc_macro2` prints for a stream that holds these tokens.
pub uninterp spec fn rendered(tokens: Seq<Token>) -> Seq<char>;

/// The literal that `proc_macro2` writes for a string in which some character is not plain.
pub uninterp spec fn escaped_literal(value: Seq<char>) -> Seq<char>;

// ---- what the tokens are called in contracts ----

/// A fixed identifier or keyword.
pub open spec fn word(s: &str) -> Token {
    Token::Ident(s@)
}

/// A punctuation character that stands alone, or the last one of an operator.
pub open spec fn mark(c: char) -> Token {
    Token::Punct(c, Spacing::Alone)
}

/// A punctuation character that the next one continues.
pub open spec fn joint(c: char) -> Token {
    Token::Punct(c, Spacing::Joint)
}

/// `( .. )`
pub open spec fn parens(inner: Seq<Token>) -> Token {
    Token::Group(Delimiter::Parenthesis, inner)
}

/// `{ .. }`
pub open spec fn braces(inner: Seq<Token>) -> Token {
    Token::Group(Delimiter::Brace, inner)
}

/// `[ .. ]`
pub open spec fn brackets(inner: Seq<Token>) -> Token {
    Token::Group(Delimiter::Bracket, inner)
}

/// `#[name(inner)]`
pub open spec fn attribute(name: &str, inner: Seq<Token>) -> Seq<Token> {
    seq![mark('#'), brackets(seq![word(name), parens(inner)])]
}

/// A number in decimal digits.
pub open spec fn decimal(n: nat) -> Seq<char>
    decreases n,
{
    if n < 10 {
        seq![(48 + n) as char]
    } else {
        decimal(n / 10).push((48 + n % 10) as char)
    }
}

/// An integer literal with the given suffix; a negative one is a minus sign and a literal.
pub open spec fn integer(value: int, suffix: Seq<char>) -> Seq<Token> {
    if value < 0 {
        seq![mark('-'), Token::Literal(decimal((-value) as nat) + suffix)]
    } else {
        seq![Token::Literal(decimal(value as nat) + suffix)]
    }
}

/// A character that stands for itself in a string literal.
pub open spec fn is_plain(c: char) -> bool {
    ' ' <= c <= '~' && c != '"' && c != '\\'
}

/// A string literal: between quotation marks, where every character is plain.
pub open spec fn string_literal(value: Seq<char>) -> Token {
    if forall|i: int| 0 <= i < value.len() ==> is_plain(#[trigger] value[i]) {
        Token::Literal(seq!['"'] + value + seq!['"'])
    } else {
        Token::Literal(escaped_literal(value))
    }
}

/// One after the other.
pub open spec fn flat(parts: Seq<Seq<Token>>) -> Seq<Token>
    decreases parts.len(),
{
    if parts.len() == 0 {
        Seq::empty()
    } else {
        flat(parts.drop_last()) + parts.last()
    }
}

/// What each of the streams holds.
pub open spec fn streams(list: Seq<TokenStream>) -> Seq<Seq<Token>> {
    list.map_values(|s: TokenStream| tokens_of(s))
}

/// The characters that `proc_macro2` takes for punctuation.
pub open spec fn is_punctuation(c: char) -> bool {
    ||| c == '!' || c == '#' || c == '$' || c == '%' || c == '&' || c == '\''
    ||| c == '*' || c == '+' || c == ',' || c == '-' || c == '.' || c == '/'
    ||| c == ':' || c == ';' || c == '<' || c == '=' || c == '>' || c == '?'
    ||| c == '@' || c == '^' || c == '|' || c == '~'
}

// ---- the calls into proc_macro2 and quote ----

/// `TokenStream::new`: a stream without tokens.
pub assume_specification[ TokenStream::new ]() -> (stream: TokenStream)
    ensures
        tokens_of(stream) == Seq::<Token>::empty(),
;

/// Puts an identifier at the end of a stream: `proc_macro2::Ident::new`, which panics where the
/// name is not an identifier, and `quote::TokenStreamExt::append`.
#[verifier::external_body]
pub(crate) fn push_ident(out: &mut TokenStream, name: &str)
    requires
        is_ident(name@),
    ensures
        tokens_of(*final(out)) == tokens_of(*old(out)).push(Token::Ident(name@)),
{
    out.append(Ident::new(name, Span::call_site()));
}

/// Puts a punctuation character at the end of a stream: `proc_macro2::Punct::new`, which panics
/// on any other character, and `quote::TokenStreamExt::append`.
#[verifier::external_body]
pub(crate) fn push_punct(out: &mut TokenStream, c: char, spacing: Spacing)
    requires
        is_punctuation(c),
    ensures
        tokens_of(*final(out)) == tokens_of(*old(out)).push(Token::Punct(c, spacing)),
{
    let spacing = match spacing {
        Spacing::Alone => proc_macro2::Spacing::Alone,
        Spacing::Joint => proc_macro2::Spacing::Joint,
    };
    out.append(Punct::new(c, spacing));
}

/// Puts a delimited group at the end of a stream: `proc_macro2::Group::new` and
/// `quote::TokenStreamExt::append`.
#[verifier::external_body]
pub(crate) fn push_group(out: &mut TokenStream, delimiter: Delimiter, inner: TokenStream)
    ensures
        tokens_of(*final(out)) == tokens_of(*old(out)).push(
            Token::Group(delimiter, tokens_of(inner)),
        ),
{
    let delimiter = match delimiter {
        Delimiter::Parenthesis => proc_macro2::Delimiter::Parenthesis,
        Delimiter::Brace => proc_macro2::Delimiter::Brace,
        Delimiter::Bracket => proc_macro2::Delimiter::Bracket,
        Delimiter::Invisible => proc_macro2::Delimiter::None,
    };
    out.append(Group::new(delimiter, inner));
}

/// Puts an integer literal without a suffix at the end of a stream:
/// `proc_macro2::Literal::i32_unsuffixed` and `quote::TokenStreamExt::append`. A stream holds a
/// negative one as a minus sign and the literal of its absolute value.
#[verifier::external_body]
pub(crate) fn push_i32_unsuffixed(out: &mut TokenStream, value: i32)
    ensures
        tokens_of(*final(out)) == tokens_of(*old(out)) + integer(
            value as int,
            Seq::<char>::empty(),
        ),
{
    out.append(Literal::i32_unsuffixed(value));
}

/// Puts an integer literal with the suffix `i32` at the end of a stream: `quote::ToTokens` for
/// `i32`. A stream holds a negative one as a minus sign and the literal of its absolute value.
#[verifier::external_body]
pub(crate) fn push_i32(out: &mut TokenStream, value: i32)
    ensures
        tokens_of(*final(out)) == tokens_of(*old(out)) + integer(value as int, "i32"@),
{
    value.to_tokens(out);
}

/// Puts an integer literal with the suffix `usize` at the end of a stream: `quote::ToTokens` for
/// `usize`.
#[verifier::external_body]
pub(crate) fn push_usize(out: &mut TokenStream, value: usize)
    ensures
        tokens_of(*final(out)) == tokens_of(*old(out)) + integer(value as int, "usize"@),
{
    value.to_tokens(out);
}

/// Puts a string literal at the end of a stream: `quote::ToTokens` for `str`. A string of plain
/// characters is written between quotation marks as it is; how the others are escaped is not
/// said here, only that it depends on the string alone.
#[verifier::external_body]
pub(crate) fn push_string(out: &mut TokenStream, value: &str)
    ensures
        tokens_of(*final(out)) == tokens_of(*old(out)).push(
            if forall|i: int| 0 <= i < value@.len() ==> is_plain(#[trigger] value@[i]) {
                Token::Literal(seq!['"'] + value@ + seq!['"'])
            } else {
                Token::Literal(escaped_literal(value@))
            },
        ),
{
    value.to_tokens(out);
}

/// Puts all tokens of one stream at the end of another: `quote::ToTokens` for `TokenStream`.
#[verifier::external_body]
pub(crate) fn push_stream(out: &mut TokenStream, stream: &TokenStream)
    ensures
        tokens_of(*final(out)) == tokens_of(*old(out)) + tokens_of(*stream),
{
    stream.to_tokens(out);
}

/// Prints a stream: `Display` for `proc_macro2::TokenStream`, which is built here without its
/// `proc-macro` feature, so that the text is never the compiler's. How the text is laid out is
/// not said here, only that it depends on the tokens alone.
#[verifier::external_body]
pub(crate) fn render(stream: &TokenStream) -> (text: String)
    ensures
        text@ == rendered(tokens_of(*stream)),
{
    stream.to_string()
}

// ---- what is built on them ----

/// One part more is one part behind the others.
pub(crate) proof fn lemma_flat_take(parts: Seq<Seq<Token>>, i: int)
    requires
        0 <= i < parts.len(),
    ensures
        flat(parts.take(i + 1)) == flat(parts.take(i)) + parts[i],
{
    assert(parts.take(i + 1).drop_last() =~= parts.take(i));
}

/// One part alone.
pub(crate) proof fn lemma_flat_single(part: Seq<Token>)
    ensures
        flat(seq![part]) == part,
{
    reveal_with_fuel(flat, 2);
    assert(flat(seq![part]) =~= part);
}

/// The parts of two lists.
pub(crate) proof fn lemma_flat_append(a: Seq<Seq<Token>>, b: Seq<Seq<Token>>)
    ensures
        flat(a + b) == flat(a) + flat(b),
    decreases b.len(),
{
    if b.len() == 0 {
        assert(a + b =~= a);
        assert(flat(a) + flat(b) =~= flat(a));
    } else {
        lemma_flat_append(a, b.drop_last());
        assert((a + b).drop_last() =~= a + b.drop_last());
        assert(flat(a + b) =~= flat(a) + flat(b));
    }
}

/// Puts the tokens of each stream at the end of another one.
pub(crate) fn push_streams(out: &mut TokenStream, list: &Vec<TokenStream>)
    ensures
        tokens_of(*final(out)) == tokens_of(*old(out)) + flat(streams(list@)),
{
    let ghost start = tokens_of(*out);
    let ghost parts = streams(list@);
    assert(start =~= start + flat(parts.take(0)));
    for i in 0..list.len()
        invariant
            parts == streams(list@),
            tokens_of(*out) == start + flat(parts.take(i as int)),
    {
        push_stream(out, &list[i]);
        proof {
            lemma_flat_take(parts, i as int);
            assert(tokens_of(*out) =~= start + flat(parts.take(i + 1)));
        }
    }
    assert(parts.take(parts.len() as int) =~= parts);
}

/// Puts a string literal at the end of a stream.
pub(crate) fn push_text(out: &mut TokenStream, value: &str)
    ensures
        tokens_of(*final(out)) == tokens_of(*old(out)).push(string_literal(value@)),
{
    push_string(out, value);
}

/// Puts a punctuation character that stands alone at the end of a stream.
pub(crate) fn push_mark(out: &mut TokenStream, c: char)
    requires
        is_punctuation(c),
    ensures
        tokens_of(*final(out)) == tokens_of(*old(out)).push(mark(c)),
{
    push_punct(out, c, Spacing::Alone);
}

/// Puts an attribute at the end of a stream.
pub(crate) fn push_attribute(out: &mut TokenStream, name: &str, inner: TokenStream)
    requires
        is_ident(name@),
    ensures
        tokens_of(*final(out)) == tokens_of(*old(out)) + attribute(name, tokens_of(inner)),
{
    let ghost start = tokens_of(*out);
    let mut content = TokenStream::new();
    push_ident(&mut content, name);
    push_group(&mut content, Delimiter::Parenthesis, inner);
    assert(tokens_of(content) =~= seq![word(name), parens(tokens_of(inner))]);
    push_mark(out, '#');
    push_group(out, Delimiter::Bracket, content);
    assert(tokens_of(*out) =~= start + attribute(name, tokens_of(inner)));
}

/// Puts an operator of two characters at the end of a stream.
pub(crate) fn push_operator(out: &mut TokenStream, first: char, second: char)
    requires
        is_punctuation(first),
        is_punctuation(second),
    ensures
        tokens_of(*final(out)) == tokens_of(*old(out)).push(joint(first)).push(mark(second)),
{
    push_punct(out, first, Spacing::Joint);
    push_punct(out, second, Spacing::Alone);
}

} // verus!
