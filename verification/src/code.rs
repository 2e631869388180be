//! The two generated files: the one of the `sys` crate, which has the opaque types, the table of
//! functions and the enums of variant types and operators, and the one of the `core` crate, which
//! has the dispatch over variant types and the global enums.

use crate::ident::is_ident;
use crate::tokens::{
    Delimiter, Token, attribute, braces, flat, integer, joint, lemma_flat_take, mark, parens,
    push_attribute, push_group, push_i32_unsuffixed, push_ident, push_mark, push_operator,
    push_stream, push_streams, push_text, render, rendered, streams, string_literal, tokens_of,
    word,
};
use crate::words::lemma_words;
use proc_macro2::TokenStream;
use vstd::prelude::*;

verus! {

/// What the files are made of.
///
/// The vectors on variant types belong together, as do those on operators: what stands at one
/// position is about the same type, or operator. Where one is longer than another, what has no
/// counterpart is left out.
pub struct CentralItems {
    pub opaque_types: Vec<TokenStream>,
    pub variant_ty_enumerators_pascal: Vec<String>,
    pub variant_ty_enumerators_rust: Vec<TokenStream>,
    pub variant_ty_enumerators_ord: Vec<i32>,
    pub variant_op_enumerators_pascal: Vec<String>,
    pub variant_op_enumerators_ord: Vec<i32>,
    pub variant_fn_decls: Vec<TokenStream>,
    pub variant_fn_inits: Vec<TokenStream>,
    pub global_enum_defs: Vec<TokenStream>,
}

/// [`CentralItems`] in contracts.
#[verifier::ext_equal]
pub struct Items {
    pub opaque_types: Seq<Seq<Token>>,
    pub type_names: Seq<Seq<char>>,
    pub type_rust: Seq<Seq<Token>>,
    pub type_ords: Seq<i32>,
    pub operator_names: Seq<Seq<char>>,
    pub operator_ords: Seq<i32>,
    pub declarations: Seq<Seq<Token>>,
    pub initialisations: Seq<Seq<Token>>,
    pub enum_definitions: Seq<Seq<Token>>,
}

/// What each of the strings holds.
pub open spec fn texts(list: Seq<String>) -> Seq<Seq<char>> {
    list.map_values(|s: String| s@)
}

impl View for CentralItems {
    type V = Items;

    open spec fn view(&self) -> Items {
        Items {
            opaque_types: streams(self.opaque_types@),
            type_names: texts(self.variant_ty_enumerators_pascal@),
            type_rust: streams(self.variant_ty_enumerators_rust@),
            type_ords: self.variant_ty_enumerators_ord@,
            operator_names: texts(self.variant_op_enumerators_pascal@),
            operator_ords: self.variant_op_enumerators_ord@,
            declarations: streams(self.variant_fn_decls@),
            initialisations: streams(self.variant_fn_inits@),
            enum_definitions: streams(self.global_enum_defs@),
        }
    }
}

/// Every string is an identifier.
pub open spec fn all_idents(names: Seq<Seq<char>>) -> bool {
    forall|i: int| 0 <= i < names.len() ==> is_ident(#[trigger] names[i])
}

/// What belongs to one type, or to one operator, stands at one position of the lists.
pub open spec fn aligned(items: Items) -> bool {
    &&& items.type_names.len() == items.type_ords.len()
    &&& items.type_names.len() == items.type_rust.len()
    &&& items.operator_names.len() == items.operator_ords.len()
}

/// The file of the sys crate can be made of the items: the names are identifiers.
pub open spec fn sys_items_ok(items: Items) -> bool {
    all_idents(items.type_names) && all_idents(items.operator_names)
}

/// The file of the core crate can be made of the items: the names are identifiers.
pub open spec fn core_items_ok(items: Items) -> bool {
    all_idents(items.type_names)
}

/// How far two lists go side by side: to the end of the shorter one.
pub open spec fn side_by_side(a: nat, b: nat) -> nat {
    if a < b {
        a
    } else {
        b
    }
}

// ---- the enums with ordinals ----

/// `Name = ord,`
pub open spec fn enumerator(name: Seq<char>, ord: i32) -> Seq<Token> {
    seq![Token::Ident(name), mark('=')] + integer(ord as int, seq![]) + seq![mark(',')]
}

/// `ord => Self::Name,`
pub open spec fn from_ord_arm(name: Seq<char>, ord: i32) -> Seq<Token> {
    integer(ord as int, seq![]) + seq![
        joint('='), mark('>'),
        word("Self"), joint(':'), mark(':'), Token::Ident(name), mark(','),
    ]
}

/// The enumerator of each name that has an ordinal.
pub open spec fn enumerators(names: Seq<Seq<char>>, ords: Seq<i32>) -> Seq<Seq<Token>> {
    Seq::new(side_by_side(names.len(), ords.len()), |i: int| enumerator(names[i], ords[i]))
}

/// The arm of each name that has an ordinal.
pub open spec fn from_ord_arms(names: Seq<Seq<char>>, ords: Seq<i32>) -> Seq<Seq<Token>> {
    Seq::new(side_by_side(names.len(), ords.len()), |i: int| from_ord_arm(names[i], ords[i]))
}

/// `Copy, Clone, Eq, PartialEq, Ord, PartialOrd, Hash, Debug`
pub open spec fn derived_traits() -> Seq<Token> {
    seq![
        word("Copy"), mark(','), word("Clone"), mark(','),
        word("Eq"), mark(','), word("PartialEq"), mark(','),
        word("Ord"), mark(','), word("PartialOrd"), mark(','),
        word("Hash"), mark(','), word("Debug"),
    ]
}

/// `#[derive(Copy, Clone, ..)] #[repr(i32)]`
pub open spec fn ord_enum_attributes() -> Seq<Token> {
    attribute("derive", derived_traits()) + attribute("repr", seq![word("i32")])
}

/// `pub enum Name { .. }`, with ordinals
pub open spec fn ord_enum(name: &str, enumerators: Seq<Token>) -> Seq<Token> {
    ord_enum_attributes() + seq![word("pub"), word("enum"), word(name), braces(enumerators)]
}

/// `#[doc(hidden)]`
pub open spec fn doc_hidden() -> Seq<Token> {
    attribute("doc", seq![word("hidden")])
}

/// `"..", enumerator`
pub open spec fn no_such_ord_arguments(message: &str) -> Seq<Token> {
    seq![string_literal(message@), mark(','), word("enumerator")]
}

/// `_ => unreachable!("..", enumerator)`
pub open spec fn no_such_ord(message: &str) -> Seq<Token> {
    seq![
        word("_"), joint('='), mark('>'), word("unreachable"), mark('!'),
        parens(no_such_ord_arguments(message)),
    ]
}

/// `enumerator: crate::Ffi`
pub open spec fn from_ord_parameter(ffi: &str) -> Seq<Token> {
    seq![word("enumerator"), mark(':'), word("crate"), joint(':'), mark(':'), word(ffi)]
}

/// `match enumerator { arms .. }`
pub open spec fn from_ord_body(arms: Seq<Token>) -> Seq<Token> {
    seq![word("match"), word("enumerator"), braces(arms)]
}

/// `pub fn from_ord(enumerator: crate::Ffi) -> Self { match enumerator { arms .. } }`
pub open spec fn from_ord_fn(ffi: &str, arms: Seq<Token>, message: &str) -> Seq<Token> {
    seq![
        word("pub"), word("fn"), word("from_ord"), parens(from_ord_parameter(ffi)),
        joint('-'), mark('>'), word("Self"),
        braces(from_ord_body(arms + no_such_ord(message))),
    ]
}

/// `self as _`
pub open spec fn to_ord_body() -> Seq<Token> {
    seq![word("self"), word("as"), word("_")]
}

/// `pub fn to_ord(self) -> crate::Ffi { self as _ }`
pub open spec fn to_ord_fn(ffi: &str) -> Seq<Token> {
    seq![
        word("pub"), word("fn"), word("to_ord"), parens(seq![word("self")]),
        joint('-'), mark('>'), word("crate"), joint(':'), mark(':'), word(ffi),
        braces(to_ord_body()),
    ]
}

/// `impl Name { .. }`, the conversions from and to ordinals
pub open spec fn ord_impl(name: &str, ffi: &str, arms: Seq<Token>, message: &str) -> Seq<Token> {
    seq![
        word("impl"), word(name),
        braces(
            doc_hidden() + from_ord_fn(ffi, arms, message) + doc_hidden() + to_ord_fn(ffi),
        ),
    ]
}

/// `type GDNativeTypePtr = *mut Self; ..`
pub open spec fn ffi_methods_input() -> Seq<Token> {
    seq![
        word("type"), word("GDNativeTypePtr"), mark('='),
        mark('*'), word("mut"), word("Self"), mark(';'), joint('.'), mark('.'),
    ]
}

/// `ffi_methods! { type GDNativeTypePtr = *mut Self; .. }`
pub open spec fn ffi_methods_call() -> Seq<Token> {
    seq![word("ffi_methods"), mark('!'), braces(ffi_methods_input())]
}

/// `impl GodotFfi for Name { ffi_methods! { .. } }`
pub open spec fn ffi_impl(name: &str) -> Seq<Token> {
    seq![
        word("impl"), word("GodotFfi"), word("for"), word(name), braces(ffi_methods_call()),
    ]
}

/// An enum with ordinals, its conversions from and to them, and its passing to Godot.
pub open spec fn ord_type(
    name: &str,
    ffi: &str,
    message: &str,
    first: Seq<Token>,
    first_arm: Seq<Token>,
    names: Seq<Seq<char>>,
    ords: Seq<i32>,
) -> Seq<Token> {
    ord_enum(name, first + flat(enumerators(names, ords)))
        + ord_impl(name, ffi, first_arm + flat(from_ord_arms(names, ords)), message)
        + ffi_impl(name)
}

// ---- the file of the sys crate ----

/// `GDNativeVariantPtr, GDNativeTypePtr, GodotFfi, ffi_methods`
pub open spec fn sys_imported_names() -> Seq<Token> {
    seq![
        word("GDNativeVariantPtr"), mark(','), word("GDNativeTypePtr"), mark(','),
        word("GodotFfi"), mark(','), word("ffi_methods"),
    ]
}

/// `use crate::{..};`
pub open spec fn sys_imports() -> Seq<Token> {
    seq![
        word("use"), word("crate"), joint(':'), mark(':'), braces(sys_imported_names()), mark(';'),
    ]
}

/// `pub mod types { .. }`
pub open spec fn types_module(opaque_types: Seq<Seq<Token>>) -> Seq<Token> {
    seq![word("pub"), word("mod"), word("types"), braces(flat(opaque_types))]
}

/// `pub struct GlobalMethodTable { .. }`
pub open spec fn table_struct(declarations: Seq<Seq<Token>>) -> Seq<Token> {
    seq![word("pub"), word("struct"), word("GlobalMethodTable"), braces(flat(declarations))]
}

/// `interface: &crate::GDNativeInterface`
pub open spec fn table_parameter() -> Seq<Token> {
    seq![
        word("interface"), mark(':'), mark('&'),
        word("crate"), joint(':'), mark(':'), word("GDNativeInterface"),
    ]
}

/// `Self { .. }`
pub open spec fn table_value(initialisations: Seq<Seq<Token>>) -> Seq<Token> {
    seq![word("Self"), braces(flat(initialisations))]
}

/// `pub(crate) unsafe fn new(interface: &crate::GDNativeInterface) -> Self { Self { .. } }`
pub open spec fn table_new_fn(initialisations: Seq<Seq<Token>>) -> Seq<Token> {
    seq![
        word("pub"), parens(seq![word("crate")]), word("unsafe"), word("fn"), word("new"),
        parens(table_parameter()), joint('-'), mark('>'), word("Self"),
        braces(table_value(initialisations)),
    ]
}

/// `impl GlobalMethodTable { .. }`
pub open spec fn table_impl(initialisations: Seq<Seq<Token>>) -> Seq<Token> {
    seq![word("impl"), word("GlobalMethodTable"), braces(table_new_fn(initialisations))]
}

/// The enum of variant types: `Nil`, which is 0, and the builtin types.
pub open spec fn variant_type(items: Items) -> Seq<Token> {
    ord_type(
        "VariantType",
        "GDNativeVariantType",
        "invalid variant type {}",
        enumerator("Nil"@, 0),
        from_ord_arm("Nil"@, 0),
        items.type_names,
        items.type_ords,
    )
}

/// The enum of variant operators.
pub open spec fn variant_operator(items: Items) -> Seq<Token> {
    ord_type(
        "VariantOperator",
        "GDNativeVariantOperator",
        "invalid variant operator {}",
        seq![],
        seq![],
        items.operator_names,
        items.operator_ords,
    )
}

/// The file of the sys crate.
pub open spec fn sys_tokens(items: Items) -> Seq<Token> {
    sys_imports() + types_module(items.opaque_types) + table_struct(items.declarations)
        + table_impl(items.initialisations) + variant_type(items) + variant_operator(items)
}

// ---- the file of the core crate ----

/// `use crate::builtin::*; use crate::engine::Object; use crate::obj::Gd;`
pub open spec fn core_imports() -> Seq<Token> {
    seq![
        word("use"), word("crate"), joint(':'), mark(':'),
        word("builtin"), joint(':'), mark(':'), mark('*'), mark(';'),
        word("use"), word("crate"), joint(':'), mark(':'),
        word("engine"), joint(':'), mark(':'), word("Object"), mark(';'),
        word("use"), word("crate"), joint(':'), mark(':'),
        word("obj"), joint(':'), mark(':'), word("Gd"), mark(';'),
    ]
}

/// `Name(RustType),`
pub open spec fn dispatch_variant(name: Seq<char>, rust: Seq<Token>) -> Seq<Token> {
    seq![Token::Ident(name), parens(rust), mark(',')]
}

/// `VariantType::Name => Self::Name(variant.to::<RustType>()),`
pub open spec fn dispatch_arm(name: Seq<char>, rust: Seq<Token>) -> Seq<Token> {
    seq![
        word("VariantType"), joint(':'), mark(':'), Token::Ident(name), joint('='), mark('>'),
        word("Self"), joint(':'), mark(':'), Token::Ident(name),
        parens(
            seq![word("variant"), mark('.'), word("to"), joint(':'), mark(':'), mark('<')]
                + rust + seq![mark('>'), parens(seq![])],
        ),
        mark(','),
    ]
}

/// The variant of each name that has a Rust type.
pub open spec fn dispatch_variants(names: Seq<Seq<char>>, rust: Seq<Seq<Token>>) -> Seq<
    Seq<Token>,
> {
    Seq::new(side_by_side(names.len(), rust.len()), |i: int| dispatch_variant(names[i], rust[i]))
}

/// The arm of each name that has a Rust type.
pub open spec fn dispatch_arms(names: Seq<Seq<char>>, rust: Seq<Seq<Token>>) -> Seq<Seq<Token>> {
    Seq::new(side_by_side(names.len(), rust.len()), |i: int| dispatch_arm(names[i], rust[i]))
}

/// `#[allow(dead_code)] pub enum VariantDispatch { Nil, .. }`
pub open spec fn dispatch_enum(variants: Seq<Token>) -> Seq<Token> {
    attribute("allow", seq![word("dead_code")]) + seq![
        word("pub"), word("enum"), word("VariantDispatch"),
        braces(seq![word("Nil"), mark(',')] + variants),
    ]
}

/// `VariantType::Nil => Self::Nil,`
pub open spec fn nil_arm() -> Seq<Token> {
    seq![
        word("VariantType"), joint(':'), mark(':'), word("Nil"), joint('='), mark('>'),
        word("Self"), joint(':'), mark(':'), word("Nil"), mark(','),
    ]
}

/// `variant: &Variant`
pub open spec fn try_from_variant_parameter() -> Seq<Token> {
    seq![word("variant"), mark(':'), mark('&'), word("Variant")]
}

/// `let dispatch = match variant.get_type() { .. }; Ok(dispatch)`
pub open spec fn try_from_variant_body(arms: Seq<Token>) -> Seq<Token> {
    seq![
        word("let"), word("dispatch"), mark('='), word("match"),
        word("variant"), mark('.'), word("get_type"), parens(seq![]),
        braces(arms), mark(';'),
        word("Ok"), parens(seq![word("dispatch")]),
    ]
}

/// `fn try_from_variant(variant: &Variant) -> Result<Self, VariantConversionError> { .. }`
pub open spec fn try_from_variant_fn(arms: Seq<Token>) -> Seq<Token> {
    seq![
        word("fn"), word("try_from_variant"), parens(try_from_variant_parameter()),
        joint('-'), mark('>'), word("Result"), mark('<'), word("Self"), mark(','),
        word("VariantConversionError"), mark('>'),
        braces(try_from_variant_body(nil_arm() + arms)),
    ]
}

/// `#[cfg(FALSE)] impl FromVariant for VariantDispatch { .. }`
pub open spec fn dispatch_impl(arms: Seq<Token>) -> Seq<Token> {
    attribute("cfg", seq![word("FALSE")]) + seq![
        word("impl"), word("FromVariant"), word("for"), word("VariantDispatch"),
        braces(try_from_variant_fn(arms)),
    ]
}

/// `use crate::sys;`
pub open spec fn sys_import() -> Seq<Token> {
    seq![word("use"), word("crate"), joint(':'), mark(':'), word("sys"), mark(';')]
}

/// `pub mod global { use crate::sys; .. }`
pub open spec fn global_module(definitions: Seq<Seq<Token>>) -> Seq<Token> {
    seq![
        word("pub"), word("mod"), word("global"),
        braces(sys_import() + flat(definitions)),
    ]
}

/// The file of the core crate.
pub open spec fn core_tokens(items: Items) -> Seq<Token> {
    core_imports() + dispatch_enum(flat(dispatch_variants(items.type_names, items.type_rust)))
        + dispatch_impl(flat(dispatch_arms(items.type_names, items.type_rust)))
        + global_module(items.enum_definitions)
}

// ---- writing the enums with ordinals ----

/// `Name = ord,`
fn push_enumerator(out: &mut TokenStream, name: &str, ord: i32)
    requires
        is_ident(name@),
    ensures
        tokens_of(*final(out)) == tokens_of(*old(out)) + enumerator(name@, ord),
{
    let ghost start = tokens_of(*out);
    push_ident(out, name);
    push_mark(out, '=');
    push_i32_unsuffixed(out, ord);
    push_mark(out, ',');
    assert(tokens_of(*out) =~= start + enumerator(name@, ord));
}

/// `ord => Self::Name,`
fn push_from_ord_arm(out: &mut TokenStream, name: &str, ord: i32)
    requires
        is_ident(name@),
    ensures
        tokens_of(*final(out)) == tokens_of(*old(out)) + from_ord_arm(name@, ord),
{
    proof {
        lemma_words();
    }
    let ghost start = tokens_of(*out);
    push_i32_unsuffixed(out, ord);
    push_operator(out, '=', '>');
    push_ident(out, "Self");
    push_operator(out, ':', ':');
    push_ident(out, name);
    push_mark(out, ',');
    assert(tokens_of(*out) =~= start + from_ord_arm(name@, ord));
}

/// The enumerator of each name.
fn push_enumerators(out: &mut TokenStream, names: &Vec<String>, ords: &Vec<i32>)
    requires
        all_idents(texts(names@)),
    ensures
        tokens_of(*final(out)) == tokens_of(*old(out)) + flat(
            enumerators(texts(names@), ords@),
        ),
{
    let ghost start = tokens_of(*out);
    let ghost parts = enumerators(texts(names@), ords@);
    assert(start =~= start + flat(parts.take(0)));
    let mut i: usize = 0;
    while i < names.len() && i < ords.len()
        invariant
            i <= names@.len(),
            i <= ords@.len(),
            all_idents(texts(names@)),
            parts == enumerators(texts(names@), ords@),
            tokens_of(*out) == start + flat(parts.take(i as int)),
        decreases names@.len() - i,
    {
        assert(is_ident(texts(names@)[i as int]));
        push_enumerator(out, names[i].as_str(), ords[i]);
        proof {
            lemma_flat_take(parts, i as int);
            assert(tokens_of(*out) =~= start + flat(parts.take(i + 1)));
        }
        i += 1;
    }
    assert(parts.take(parts.len() as int) =~= parts);
}

/// The arm of each name.
fn push_from_ord_arms(out: &mut TokenStream, names: &Vec<String>, ords: &Vec<i32>)
    requires
        all_idents(texts(names@)),
    ensures
        tokens_of(*final(out)) == tokens_of(*old(out)) + flat(
            from_ord_arms(texts(names@), ords@),
        ),
{
    let ghost start = tokens_of(*out);
    let ghost parts = from_ord_arms(texts(names@), ords@);
    assert(start =~= start + flat(parts.take(0)));
    let mut i: usize = 0;
    while i < names.len() && i < ords.len()
        invariant
            i <= names@.len(),
            i <= ords@.len(),
            all_idents(texts(names@)),
            parts == from_ord_arms(texts(names@), ords@),
            tokens_of(*out) == start + flat(parts.take(i as int)),
        decreases names@.len() - i,
    {
        assert(is_ident(texts(names@)[i as int]));
        push_from_ord_arm(out, names[i].as_str(), ords[i]);
        proof {
            lemma_flat_take(parts, i as int);
            assert(tokens_of(*out) =~= start + flat(parts.take(i + 1)));
        }
        i += 1;
    }
    assert(parts.take(parts.len() as int) =~= parts);
}

/// `#[derive(..)] #[repr(i32)]`
fn make_ord_enum_attributes() -> (out: TokenStream)
    ensures
        tokens_of(out) == ord_enum_attributes(),
{
    proof {
        lemma_words();
    }
    let mut traits = TokenStream::new();
    push_ident(&mut traits, "Copy");
    push_mark(&mut traits, ',');
    push_ident(&mut traits, "Clone");
    push_mark(&mut traits, ',');
    push_ident(&mut traits, "Eq");
    push_mark(&mut traits, ',');
    push_ident(&mut traits, "PartialEq");
    push_mark(&mut traits, ',');
    push_ident(&mut traits, "Ord");
    push_mark(&mut traits, ',');
    push_ident(&mut traits, "PartialOrd");
    push_mark(&mut traits, ',');
    push_ident(&mut traits, "Hash");
    push_mark(&mut traits, ',');
    push_ident(&mut traits, "Debug");
    assert(tokens_of(traits) =~= derived_traits());
    let mut layout = TokenStream::new();
    push_ident(&mut layout, "i32");
    let mut out = TokenStream::new();
    push_attribute(&mut out, "derive", traits);
    push_attribute(&mut out, "repr", layout);
    assert(tokens_of(out) =~= ord_enum_attributes());
    out
}

/// `pub enum Name { .. }`, with ordinals
fn make_ord_enum(name: &str, enumerators: TokenStream) -> (out: TokenStream)
    requires
        is_ident(name@),
    ensures
        tokens_of(out) == ord_enum(name, tokens_of(enumerators)),
{
    proof {
        lemma_words();
    }
    let mut out = make_ord_enum_attributes();
    push_ident(&mut out, "pub");
    push_ident(&mut out, "enum");
    push_ident(&mut out, name);
    push_group(&mut out, Delimiter::Brace, enumerators);
    assert(tokens_of(out) =~= ord_enum(name, tokens_of(enumerators)));
    out
}

/// `#[doc(hidden)]`
fn make_doc_hidden() -> (out: TokenStream)
    ensures
        tokens_of(out) == doc_hidden(),
{
    proof {
        lemma_words();
    }
    let mut hidden = TokenStream::new();
    push_ident(&mut hidden, "hidden");
    let mut out = TokenStream::new();
    push_attribute(&mut out, "doc", hidden);
    assert(tokens_of(out) =~= doc_hidden());
    out
}

/// `_ => unreachable!("..", enumerator)`
fn make_no_such_ord(message: &str) -> (out: TokenStream)
    ensures
        tokens_of(out) == no_such_ord(message),
{
    proof {
        lemma_words();
    }
    let mut arguments = TokenStream::new();
    push_text(&mut arguments, message);
    push_mark(&mut arguments, ',');
    push_ident(&mut arguments, "enumerator");
    assert(tokens_of(arguments) =~= no_such_ord_arguments(message));
    let mut out = TokenStream::new();
    push_ident(&mut out, "_");
    push_operator(&mut out, '=', '>');
    push_ident(&mut out, "unreachable");
    push_mark(&mut out, '!');
    push_group(&mut out, Delimiter::Parenthesis, arguments);
    out
}

/// `pub fn from_ord(enumerator: crate::Ffi) -> Self { match enumerator { arms .. } }`
fn make_from_ord_fn(ffi: &str, arms: TokenStream, message: &str) -> (out: TokenStream)
    requires
        is_ident(ffi@),
    ensures
        tokens_of(out) == from_ord_fn(ffi, tokens_of(arms), message),
{
    proof {
        lemma_words();
    }
    let mut parameter = TokenStream::new();
    push_ident(&mut parameter, "enumerator");
    push_mark(&mut parameter, ':');
    push_ident(&mut parameter, "crate");
    push_operator(&mut parameter, ':', ':');
    push_ident(&mut parameter, ffi);
    assert(tokens_of(parameter) =~= from_ord_parameter(ffi));
    let mut all_arms = arms;
    push_stream(&mut all_arms, &make_no_such_ord(message));
    let mut body = TokenStream::new();
    push_ident(&mut body, "match");
    push_ident(&mut body, "enumerator");
    push_group(&mut body, Delimiter::Brace, all_arms);
    assert(tokens_of(body) =~= from_ord_body(tokens_of(all_arms)));
    let mut out = TokenStream::new();
    push_ident(&mut out, "pub");
    push_ident(&mut out, "fn");
    push_ident(&mut out, "from_ord");
    push_group(&mut out, Delimiter::Parenthesis, parameter);
    push_operator(&mut out, '-', '>');
    push_ident(&mut out, "Self");
    push_group(&mut out, Delimiter::Brace, body);
    out
}

/// `pub fn to_ord(self) -> crate::Ffi { self as _ }`
fn make_to_ord_fn(ffi: &str) -> (out: TokenStream)
    requires
        is_ident(ffi@),
    ensures
        tokens_of(out) == to_ord_fn(ffi),
{
    proof {
        lemma_words();
    }
    let mut receiver = TokenStream::new();
    push_ident(&mut receiver, "self");
    let mut body = TokenStream::new();
    push_ident(&mut body, "self");
    push_ident(&mut body, "as");
    push_ident(&mut body, "_");
    assert(tokens_of(body) =~= to_ord_body());
    let mut out = TokenStream::new();
    push_ident(&mut out, "pub");
    push_ident(&mut out, "fn");
    push_ident(&mut out, "to_ord");
    push_group(&mut out, Delimiter::Parenthesis, receiver);
    push_operator(&mut out, '-', '>');
    push_ident(&mut out, "crate");
    push_operator(&mut out, ':', ':');
    push_ident(&mut out, ffi);
    push_group(&mut out, Delimiter::Brace, body);
    out
}

/// `impl Name { .. }`, the conversions from and to ordinals
fn make_ord_impl(name: &str, ffi: &str, arms: TokenStream, message: &str) -> (out: TokenStream)
    requires
        is_ident(name@),
        is_ident(ffi@),
    ensures
        tokens_of(out) == ord_impl(name, ffi, tokens_of(arms), message),
{
    proof {
        lemma_words();
    }
    let mut methods = make_doc_hidden();
    push_stream(&mut methods, &make_from_ord_fn(ffi, arms, message));
    push_stream(&mut methods, &make_doc_hidden());
    push_stream(&mut methods, &make_to_ord_fn(ffi));
    let mut out = TokenStream::new();
    push_ident(&mut out, "impl");
    push_ident(&mut out, name);
    push_group(&mut out, Delimiter::Brace, methods);
    out
}

/// `impl GodotFfi for Name { .. }`
fn make_ffi_impl(name: &str) -> (out: TokenStream)
    requires
        is_ident(name@),
    ensures
        tokens_of(out) == ffi_impl(name),
{
    proof {
        lemma_words();
    }
    let mut methods = TokenStream::new();
    push_ident(&mut methods, "type");
    push_ident(&mut methods, "GDNativeTypePtr");
    push_mark(&mut methods, '=');
    push_mark(&mut methods, '*');
    push_ident(&mut methods, "mut");
    push_ident(&mut methods, "Self");
    push_mark(&mut methods, ';');
    push_operator(&mut methods, '.', '.');
    assert(tokens_of(methods) =~= ffi_methods_input());
    let mut body = TokenStream::new();
    push_ident(&mut body, "ffi_methods");
    push_mark(&mut body, '!');
    push_group(&mut body, Delimiter::Brace, methods);
    assert(tokens_of(body) =~= ffi_methods_call());
    let mut out = TokenStream::new();
    push_ident(&mut out, "impl");
    push_ident(&mut out, "GodotFfi");
    push_ident(&mut out, "for");
    push_ident(&mut out, name);
    push_group(&mut out, Delimiter::Brace, body);
    out
}

/// An enum with ordinals, its conversions from and to them, and its passing to Godot.
fn make_ord_type(
    name: &str,
    ffi: &str,
    message: &str,
    with_nil: bool,
    names: &Vec<String>,
    ords: &Vec<i32>,
) -> (out: TokenStream)
    requires
        is_ident(name@),
        is_ident(ffi@),
        all_idents(texts(names@)),
    ensures
        tokens_of(out) == ord_type(
            name,
            ffi,
            message,
            if with_nil {
                enumerator("Nil"@, 0)
            } else {
                seq![]
            },
            if with_nil {
                from_ord_arm("Nil"@, 0)
            } else {
                seq![]
            },
            texts(names@),
            ords@,
        ),
{
    proof {
        lemma_words();
    }
    let mut enumerators = TokenStream::new();
    let mut arms = TokenStream::new();
    if with_nil {
        push_enumerator(&mut enumerators, "Nil", 0);
        push_from_ord_arm(&mut arms, "Nil", 0);
        assert(tokens_of(enumerators) =~= enumerator("Nil"@, 0));
        assert(tokens_of(arms) =~= from_ord_arm("Nil"@, 0));
    }
    push_enumerators(&mut enumerators, names, ords);
    push_from_ord_arms(&mut arms, names, ords);
    let mut out = make_ord_enum(name, enumerators);
    push_stream(&mut out, &make_ord_impl(name, ffi, arms, message));
    push_stream(&mut out, &make_ffi_impl(name));
    out
}

// ---- writing the file of the sys crate ----

/// `use crate::{..};`
fn make_sys_imports() -> (out: TokenStream)
    ensures
        tokens_of(out) == sys_imports(),
{
    proof {
        lemma_words();
    }
    let mut names = TokenStream::new();
    push_ident(&mut names, "GDNativeVariantPtr");
    push_mark(&mut names, ',');
    push_ident(&mut names, "GDNativeTypePtr");
    push_mark(&mut names, ',');
    push_ident(&mut names, "GodotFfi");
    push_mark(&mut names, ',');
    push_ident(&mut names, "ffi_methods");
    assert(tokens_of(names) =~= sys_imported_names());
    let mut out = TokenStream::new();
    push_ident(&mut out, "use");
    push_ident(&mut out, "crate");
    push_operator(&mut out, ':', ':');
    push_group(&mut out, Delimiter::Brace, names);
    push_mark(&mut out, ';');
    out
}

/// `pub mod types { .. }`
fn make_types_module(opaque_types: &Vec<TokenStream>) -> (out: TokenStream)
    ensures
        tokens_of(out) == types_module(streams(opaque_types@)),
{
    proof {
        lemma_words();
    }
    let mut body = TokenStream::new();
    push_streams(&mut body, opaque_types);
    assert(tokens_of(body) =~= flat(streams(opaque_types@)));
    let mut out = TokenStream::new();
    push_ident(&mut out, "pub");
    push_ident(&mut out, "mod");
    push_ident(&mut out, "types");
    push_group(&mut out, Delimiter::Brace, body);
    out
}

/// `pub struct GlobalMethodTable { .. }`
fn make_table_struct(declarations: &Vec<TokenStream>) -> (out: TokenStream)
    ensures
        tokens_of(out) == table_struct(streams(declarations@)),
{
    proof {
        lemma_words();
    }
    let mut body = TokenStream::new();
    push_streams(&mut body, declarations);
    assert(tokens_of(body) =~= flat(streams(declarations@)));
    let mut out = TokenStream::new();
    push_ident(&mut out, "pub");
    push_ident(&mut out, "struct");
    push_ident(&mut out, "GlobalMethodTable");
    push_group(&mut out, Delimiter::Brace, body);
    out
}

/// `impl GlobalMethodTable { .. }`
fn make_table_impl(initialisations: &Vec<TokenStream>) -> (out: TokenStream)
    ensures
        tokens_of(out) == table_impl(streams(initialisations@)),
{
    proof {
        lemma_words();
    }
    let mut values = TokenStream::new();
    push_streams(&mut values, initialisations);
    assert(tokens_of(values) =~= flat(streams(initialisations@)));
    let mut body = TokenStream::new();
    push_ident(&mut body, "Self");
    push_group(&mut body, Delimiter::Brace, values);
    assert(tokens_of(body) =~= table_value(streams(initialisations@)));
    let mut visibility = TokenStream::new();
    push_ident(&mut visibility, "crate");
    let mut parameter = TokenStream::new();
    push_ident(&mut parameter, "interface");
    push_mark(&mut parameter, ':');
    push_mark(&mut parameter, '&');
    push_ident(&mut parameter, "crate");
    push_operator(&mut parameter, ':', ':');
    push_ident(&mut parameter, "GDNativeInterface");
    assert(tokens_of(parameter) =~= table_parameter());
    let mut method = TokenStream::new();
    push_ident(&mut method, "pub");
    push_group(&mut method, Delimiter::Parenthesis, visibility);
    push_ident(&mut method, "unsafe");
    push_ident(&mut method, "fn");
    push_ident(&mut method, "new");
    push_group(&mut method, Delimiter::Parenthesis, parameter);
    push_operator(&mut method, '-', '>');
    push_ident(&mut method, "Self");
    push_group(&mut method, Delimiter::Brace, body);
    assert(tokens_of(method) =~= table_new_fn(streams(initialisations@)));
    let mut out = TokenStream::new();
    push_ident(&mut out, "impl");
    push_ident(&mut out, "GlobalMethodTable");
    push_group(&mut out, Delimiter::Brace, method);
    out
}

/// The tokens of the sys crate's file.
pub fn make_sys_tokens(central_items: &CentralItems) -> (out: TokenStream)
    requires
        sys_items_ok(central_items@),
    ensures
        tokens_of(out) == sys_tokens(central_items@),
{
    proof {
        lemma_words();
    }
    let mut out = make_sys_imports();
    push_stream(&mut out, &make_types_module(&central_items.opaque_types));
    push_stream(&mut out, &make_table_struct(&central_items.variant_fn_decls));
    push_stream(&mut out, &make_table_impl(&central_items.variant_fn_inits));
    push_stream(
        &mut out,
        &make_ord_type(
            "VariantType",
            "GDNativeVariantType",
            "invalid variant type {}",
            true,
            &central_items.variant_ty_enumerators_pascal,
            &central_items.variant_ty_enumerators_ord,
        ),
    );
    push_stream(
        &mut out,
        &make_ord_type(
            "VariantOperator",
            "GDNativeVariantOperator",
            "invalid variant operator {}",
            false,
            &central_items.variant_op_enumerators_pascal,
            &central_items.variant_op_enumerators_ord,
        ),
    );
    out
}

/// The code of the sys crate's file.
pub fn make_sys_code(central_items: &CentralItems) -> (code: String)
    requires
        sys_items_ok(central_items@),
    ensures
        code@ == rendered(sys_tokens(central_items@)),
{
    render(&make_sys_tokens(central_items))
}

// ---- writing the file of the core crate ----

/// The imports of the core crate.
fn make_core_imports() -> (out: TokenStream)
    ensures
        tokens_of(out) == core_imports(),
{
    proof {
        lemma_words();
    }
    let mut out = TokenStream::new();
    push_ident(&mut out, "use");
    push_ident(&mut out, "crate");
    push_operator(&mut out, ':', ':');
    push_ident(&mut out, "builtin");
    push_operator(&mut out, ':', ':');
    push_mark(&mut out, '*');
    push_mark(&mut out, ';');
    push_ident(&mut out, "use");
    push_ident(&mut out, "crate");
    push_operator(&mut out, ':', ':');
    push_ident(&mut out, "engine");
    push_operator(&mut out, ':', ':');
    push_ident(&mut out, "Object");
    push_mark(&mut out, ';');
    push_ident(&mut out, "use");
    push_ident(&mut out, "crate");
    push_operator(&mut out, ':', ':');
    push_ident(&mut out, "obj");
    push_operator(&mut out, ':', ':');
    push_ident(&mut out, "Gd");
    push_mark(&mut out, ';');
    out
}

/// `Name(RustType),`
fn push_dispatch_variant(out: &mut TokenStream, name: &str, rust: &TokenStream)
    requires
        is_ident(name@),
    ensures
        tokens_of(*final(out)) == tokens_of(*old(out)) + dispatch_variant(
            name@,
            tokens_of(*rust),
        ),
{
    let ghost start = tokens_of(*out);
    let mut ty = TokenStream::new();
    push_stream(&mut ty, rust);
    assert(tokens_of(ty) =~= tokens_of(*rust));
    push_ident(out, name);
    push_group(out, Delimiter::Parenthesis, ty);
    push_mark(out, ',');
    assert(tokens_of(*out) =~= start + dispatch_variant(name@, tokens_of(*rust)));
}

/// `VariantType::Name => Self::Name(variant.to::<RustType>()),`
fn push_dispatch_arm(out: &mut TokenStream, name: &str, rust: &TokenStream)
    requires
        is_ident(name@),
    ensures
        tokens_of(*final(out)) == tokens_of(*old(out)) + dispatch_arm(name@, tokens_of(*rust)),
{
    proof {
        lemma_words();
    }
    let ghost start = tokens_of(*out);
    let mut value = TokenStream::new();
    push_ident(&mut value, "variant");
    push_mark(&mut value, '.');
    push_ident(&mut value, "to");
    push_operator(&mut value, ':', ':');
    push_mark(&mut value, '<');
    push_stream(&mut value, rust);
    push_mark(&mut value, '>');
    push_group(&mut value, Delimiter::Parenthesis, TokenStream::new());
    assert(tokens_of(value) =~= seq![
        word("variant"), mark('.'), word("to"), joint(':'), mark(':'), mark('<'),
    ] + tokens_of(*rust) + seq![mark('>'), parens(seq![])]);
    push_ident(out, "VariantType");
    push_operator(out, ':', ':');
    push_ident(out, name);
    push_operator(out, '=', '>');
    push_ident(out, "Self");
    push_operator(out, ':', ':');
    push_ident(out, name);
    push_group(out, Delimiter::Parenthesis, value);
    push_mark(out, ',');
    assert(tokens_of(*out) =~= start + dispatch_arm(name@, tokens_of(*rust)));
}

/// The variant of each type.
fn push_dispatch_variants(out: &mut TokenStream, names: &Vec<String>, rust: &Vec<TokenStream>)
    requires
        all_idents(texts(names@)),
    ensures
        tokens_of(*final(out)) == tokens_of(*old(out)) + flat(
            dispatch_variants(texts(names@), streams(rust@)),
        ),
{
    let ghost start = tokens_of(*out);
    let ghost parts = dispatch_variants(texts(names@), streams(rust@));
    assert(start =~= start + flat(parts.take(0)));
    let mut i: usize = 0;
    while i < names.len() && i < rust.len()
        invariant
            i <= names@.len(),
            i <= rust@.len(),
            all_idents(texts(names@)),
            parts == dispatch_variants(texts(names@), streams(rust@)),
            tokens_of(*out) == start + flat(parts.take(i as int)),
        decreases names@.len() - i,
    {
        assert(is_ident(texts(names@)[i as int]));
        push_dispatch_variant(out, names[i].as_str(), &rust[i]);
        proof {
            lemma_flat_take(parts, i as int);
            assert(tokens_of(*out) =~= start + flat(parts.take(i + 1)));
        }
        i += 1;
    }
    assert(parts.take(parts.len() as int) =~= parts);
}

/// The arm of each type.
fn push_dispatch_arms(out: &mut TokenStream, names: &Vec<String>, rust: &Vec<TokenStream>)
    requires
        all_idents(texts(names@)),
    ensures
        tokens_of(*final(out)) == tokens_of(*old(out)) + flat(
            dispatch_arms(texts(names@), streams(rust@)),
        ),
{
    let ghost start = tokens_of(*out);
    let ghost parts = dispatch_arms(texts(names@), streams(rust@));
    assert(start =~= start + flat(parts.take(0)));
    let mut i: usize = 0;
    while i < names.len() && i < rust.len()
        invariant
            i <= names@.len(),
            i <= rust@.len(),
            all_idents(texts(names@)),
            parts == dispatch_arms(texts(names@), streams(rust@)),
            tokens_of(*out) == start + flat(parts.take(i as int)),
        decreases names@.len() - i,
    {
        assert(is_ident(texts(names@)[i as int]));
        push_dispatch_arm(out, names[i].as_str(), &rust[i]);
        proof {
            lemma_flat_take(parts, i as int);
            assert(tokens_of(*out) =~= start + flat(parts.take(i + 1)));
        }
        i += 1;
    }
    assert(parts.take(parts.len() as int) =~= parts);
}

/// `#[allow(dead_code)] pub enum VariantDispatch { Nil, .. }`
fn make_dispatch_enum(variants: &TokenStream) -> (out: TokenStream)
    ensures
        tokens_of(out) == dispatch_enum(tokens_of(*variants)),
{
    proof {
        lemma_words();
    }
    let mut lint = TokenStream::new();
    push_ident(&mut lint, "dead_code");
    let mut body = TokenStream::new();
    push_ident(&mut body, "Nil");
    push_mark(&mut body, ',');
    push_stream(&mut body, variants);
    assert(tokens_of(body) =~= seq![word("Nil"), mark(',')] + tokens_of(*variants));
    let mut out = TokenStream::new();
    push_attribute(&mut out, "allow", lint);
    push_ident(&mut out, "pub");
    push_ident(&mut out, "enum");
    push_ident(&mut out, "VariantDispatch");
    push_group(&mut out, Delimiter::Brace, body);
    assert(tokens_of(out) =~= dispatch_enum(tokens_of(*variants)));
    out
}

/// `fn try_from_variant(..) -> .. { .. }`
fn make_try_from_variant_fn(arms: &TokenStream) -> (out: TokenStream)
    ensures
        tokens_of(out) == try_from_variant_fn(tokens_of(*arms)),
{
    proof {
        lemma_words();
    }
    let mut parameter = TokenStream::new();
    push_ident(&mut parameter, "variant");
    push_mark(&mut parameter, ':');
    push_mark(&mut parameter, '&');
    push_ident(&mut parameter, "Variant");
    assert(tokens_of(parameter) =~= try_from_variant_parameter());
    let mut all_arms = TokenStream::new();
    push_ident(&mut all_arms, "VariantType");
    push_operator(&mut all_arms, ':', ':');
    push_ident(&mut all_arms, "Nil");
    push_operator(&mut all_arms, '=', '>');
    push_ident(&mut all_arms, "Self");
    push_operator(&mut all_arms, ':', ':');
    push_ident(&mut all_arms, "Nil");
    push_mark(&mut all_arms, ',');
    push_stream(&mut all_arms, arms);
    assert(tokens_of(all_arms) =~= nil_arm() + tokens_of(*arms));
    let mut result = TokenStream::new();
    push_ident(&mut result, "dispatch");
    let mut body = TokenStream::new();
    push_ident(&mut body, "let");
    push_ident(&mut body, "dispatch");
    push_mark(&mut body, '=');
    push_ident(&mut body, "match");
    push_ident(&mut body, "variant");
    push_mark(&mut body, '.');
    push_ident(&mut body, "get_type");
    push_group(&mut body, Delimiter::Parenthesis, TokenStream::new());
    push_group(&mut body, Delimiter::Brace, all_arms);
    push_mark(&mut body, ';');
    push_ident(&mut body, "Ok");
    push_group(&mut body, Delimiter::Parenthesis, result);
    assert(tokens_of(body) =~= try_from_variant_body(tokens_of(all_arms)));
    let mut out = TokenStream::new();
    push_ident(&mut out, "fn");
    push_ident(&mut out, "try_from_variant");
    push_group(&mut out, Delimiter::Parenthesis, parameter);
    push_operator(&mut out, '-', '>');
    push_ident(&mut out, "Result");
    push_mark(&mut out, '<');
    push_ident(&mut out, "Self");
    push_mark(&mut out, ',');
    push_ident(&mut out, "VariantConversionError");
    push_mark(&mut out, '>');
    push_group(&mut out, Delimiter::Brace, body);
    out
}

/// `#[cfg(FALSE)] impl FromVariant for VariantDispatch { .. }`
fn make_dispatch_impl(arms: &TokenStream) -> (out: TokenStream)
    ensures
        tokens_of(out) == dispatch_impl(tokens_of(*arms)),
{
    proof {
        lemma_words();
    }
    let mut condition = TokenStream::new();
    push_ident(&mut condition, "FALSE");
    let method = make_try_from_variant_fn(arms);
    let mut out = TokenStream::new();
    push_attribute(&mut out, "cfg", condition);
    push_ident(&mut out, "impl");
    push_ident(&mut out, "FromVariant");
    push_ident(&mut out, "for");
    push_ident(&mut out, "VariantDispatch");
    push_group(&mut out, Delimiter::Brace, method);
    assert(tokens_of(out) =~= dispatch_impl(tokens_of(*arms)));
    out
}

/// `pub mod global { use crate::sys; .. }`
fn make_global_module(definitions: &Vec<TokenStream>) -> (out: TokenStream)
    ensures
        tokens_of(out) == global_module(streams(definitions@)),
{
    proof {
        lemma_words();
    }
    let mut body = TokenStream::new();
    push_ident(&mut body, "use");
    push_ident(&mut body, "crate");
    push_operator(&mut body, ':', ':');
    push_ident(&mut body, "sys");
    push_mark(&mut body, ';');
    push_streams(&mut body, definitions);
    assert(tokens_of(body) =~= sys_import() + flat(streams(definitions@)));
    let mut out = TokenStream::new();
    push_ident(&mut out, "pub");
    push_ident(&mut out, "mod");
    push_ident(&mut out, "global");
    push_group(&mut out, Delimiter::Brace, body);
    out
}

/// The tokens of the core crate's file.
pub fn make_core_tokens(central_items: &CentralItems) -> (out: TokenStream)
    requires
        core_items_ok(central_items@),
    ensures
        tokens_of(out) == core_tokens(central_items@),
{
    let names = &central_items.variant_ty_enumerators_pascal;
    let rust = &central_items.variant_ty_enumerators_rust;
    let mut variants = TokenStream::new();
    push_dispatch_variants(&mut variants, names, rust);
    assert(tokens_of(variants) =~= flat(dispatch_variants(texts(names@), streams(rust@))));
    let mut arms = TokenStream::new();
    push_dispatch_arms(&mut arms, names, rust);
    assert(tokens_of(arms) =~= flat(dispatch_arms(texts(names@), streams(rust@))));
    let mut out = make_core_imports();
    push_stream(&mut out, &make_dispatch_enum(&variants));
    push_stream(&mut out, &make_dispatch_impl(&arms));
    push_stream(&mut out, &make_global_module(&central_items.global_enum_defs));
    out
}

/// The code of the core crate's file.
pub fn make_core_code(central_items: &CentralItems) -> (code: String)
    requires
        core_items_ok(central_items@),
    ensures
        code@ == rendered(core_tokens(central_items@)),
{
    render(&make_core_tokens(central_items))
}

} // verus!
