//! The fields of the table of functions that are loaded from Godot: for each builtin type, those
//! that convert, construct, destroy and compare its values.
//!
//! Every field is declared in the table's type and initialised when the table is made. The
//! functions here give the tokens of both, in the same order.

use crate::api::{Constructor, MethodArg, Operator};
use crate::ident::{all_continue, is_ident, is_stem, lemma_stem};
use crate::text::{lower, same_text, to_lower};
use crate::tokens::{
    Delimiter, Token, braces, flat, integer, joint, lemma_flat_append, lemma_flat_single, mark,
    parens, push_group, push_i32, push_ident, push_mark, push_operator, push_stream, push_streams,
    push_text, streams, string_literal, tokens_of, word,
};
use crate::types::{BuiltinTypes, Names, TypeInfo, TypeNames, find_type, optional};
use crate::words::lemma_words;
use proc_macro2::TokenStream;
use vstd::prelude::*;
use vstd::string::*;

verus! {

/// How a function is looked up in Godot's interface.
pub enum Loader<'a> {
    ToVariant,
    FromVariant,
    /// The evaluator of the operator with this name.
    Operator(&'a str),
    /// The constructor with this index.
    Constructor(i32),
    Destructor,
}

/// [`Loader`] in contracts.
pub enum Lookup {
    ToVariant,
    FromVariant,
    Operator(Seq<char>),
    Constructor(i32),
    Destructor,
}

impl<'a> View for Loader<'a> {
    type V = Lookup;

    open spec fn view(&self) -> Lookup {
        match self {
            Loader::ToVariant => Lookup::ToVariant,
            Loader::FromVariant => Lookup::FromVariant,
            Loader::Operator(name) => Lookup::Operator(name@),
            Loader::Constructor(index) => Lookup::Constructor(*index),
            Loader::Destructor => Lookup::Destructor,
        }
    }
}

/// A field of the table.
pub struct Field {
    pub name: Seq<char>,
    pub lookup: Lookup,
}

// ---- what a field looks like ----

/// The types of a function's parameters.
pub open spec fn parameters(lookup: Lookup) -> Seq<Token> {
    match lookup {
        Lookup::ToVariant => seq![
            word("GDNativeVariantPtr"), mark(','), word("GDNativeTypePtr"),
        ],
        Lookup::FromVariant => seq![
            word("GDNativeTypePtr"), mark(','), word("GDNativeVariantPtr"),
        ],
        Lookup::Operator(_) => seq![
            word("GDNativeTypePtr"), mark(','),
            word("GDNativeTypePtr"), mark(','),
            word("GDNativeTypePtr"),
        ],
        Lookup::Constructor(_) => seq![
            word("GDNativeTypePtr"), mark(','),
            mark('*'), word("const"), word("GDNativeTypePtr"),
        ],
        Lookup::Destructor => seq![word("GDNativeTypePtr")],
    }
}

/// `pub name: unsafe extern "C" fn(parameters),`
pub open spec fn declaration(f: Field) -> Seq<Token> {
    seq![
        word("pub"), Token::Ident(f.name), mark(':'),
        word("unsafe"), word("extern"), string_literal("C"@), word("fn"),
        parens(parameters(f.lookup)), mark(','),
    ]
}

/// `crate::name`
pub open spec fn crate_path(name: Seq<char>) -> Seq<Token> {
    seq![word("crate"), joint(':'), mark(':'), Token::Ident(name)]
}

/// The message that a function could not be loaded.
pub open spec fn load_error(name: Seq<char>) -> Seq<char> {
    "failed to load GDExtension function `"@ + name + "`"@
}

/// `let finder = interface.method.unwrap(); finder(arguments).`
pub open spec fn lookup_call(finder: &str, method: &str, arguments: Seq<Token>) -> Seq<Token> {
    seq![
        word("let"), word(finder), mark('='),
        word("interface"), mark('.'), word(method), mark('.'), word("unwrap"),
        parens(seq![]), mark(';'),
        word(finder), parens(arguments), mark('.'),
    ]
}

/// `expect("failed to load ..")`
pub open spec fn or_load_error(name: Seq<char>) -> Seq<Token> {
    seq![word("expect"), parens(seq![string_literal(load_error(name))])]
}

/// The name under which Godot's interface knows an operator.
pub open spec fn sys_operator(name: Seq<char>) -> Seq<char> {
    "GDNATIVE_VARIANT_OP_"@ + name
}

/// The expression that loads a function for the given variant type.
pub open spec fn loading(f: Field, variant_type: Seq<char>) -> Seq<Token> {
    let ty = crate_path(variant_type);
    match f.lookup {
        Lookup::ToVariant => lookup_call("ctor_fn", "get_variant_from_type_constructor", ty)
            + or_load_error(f.name),
        Lookup::FromVariant => lookup_call("ctor_fn", "get_variant_to_type_constructor", ty)
            + or_load_error(f.name),
        Lookup::Operator(operator) => lookup_call(
            "op_finder",
            "variant_get_ptr_operator_evaluator",
            crate_path(sys_operator(operator)).push(mark(',')) + ty.push(mark(',')) + ty.push(
                mark(','),
            ),
        ) + or_load_error(f.name),
        Lookup::Constructor(index) => lookup_call(
            "ctor_fn",
            "variant_get_ptr_constructor",
            ty.push(mark(',')) + integer(index as int, "i32"@),
        ) + or_load_error(f.name),
        Lookup::Destructor => lookup_call("dtor_fn", "variant_get_ptr_destructor", ty) + seq![
            word("unwrap"), parens(seq![]),
        ],
    }
}

/// `name: { .. },`
pub open spec fn initialisation(f: Field, variant_type: Seq<char>) -> Seq<Token> {
    seq![Token::Ident(f.name), mark(':'), braces(loading(f, variant_type)), mark(',')]
}

/// The declaration of each field.
pub open spec fn declaration_list(fields: Seq<Field>) -> Seq<Seq<Token>> {
    fields.map_values(|f: Field| declaration(f))
}

/// The initialisation of each field.
pub open spec fn initialisation_list(fields: Seq<Field>, variant_type: Seq<char>) -> Seq<
    Seq<Token>,
> {
    fields.map_values(|f: Field| initialisation(f, variant_type))
}

/// The declarations of the fields, one after the other.
pub open spec fn declarations(fields: Seq<Field>) -> Seq<Token> {
    flat(declaration_list(fields))
}

/// The initialisations of the fields, one after the other.
pub open spec fn initialisations(fields: Seq<Field>, variant_type: Seq<char>) -> Seq<Token> {
    flat(initialisation_list(fields, variant_type))
}

/// What a field must be for its tokens to be written.
pub open spec fn field_ok(f: Field) -> bool {
    &&& is_ident(f.name)
    &&& f.lookup matches Lookup::Operator(operator) ==> is_ident(sys_operator(operator))
}

// ---- writing a field ----

/// The message that a function could not be loaded.
pub fn format_load_error(ident: &str) -> (message: String)
    ensures
        message@ == load_error(ident@),
{
    "failed to load GDExtension function `".to_string().concat(ident).concat("`")
}

/// `crate::name`
fn push_crate_path(out: &mut TokenStream, name: &str)
    requires
        is_ident(name@),
    ensures
        tokens_of(*final(out)) == tokens_of(*old(out)) + crate_path(name@),
{
    proof {
        lemma_words();
    }
    let ghost start = tokens_of(*out);
    push_ident(out, "crate");
    push_operator(out, ':', ':');
    push_ident(out, name);
    assert(tokens_of(*out) =~= start + crate_path(name@));
}

/// The types of a function's parameters.
fn make_parameters(loader: &Loader) -> (out: TokenStream)
    ensures
        tokens_of(out) == parameters(loader@),
{
    proof {
        lemma_words();
    }
    let mut out = TokenStream::new();
    match loader {
        Loader::ToVariant => {
            push_ident(&mut out, "GDNativeVariantPtr");
            push_mark(&mut out, ',');
            push_ident(&mut out, "GDNativeTypePtr");
        },
        Loader::FromVariant => {
            push_ident(&mut out, "GDNativeTypePtr");
            push_mark(&mut out, ',');
            push_ident(&mut out, "GDNativeVariantPtr");
        },
        Loader::Operator(_) => {
            push_ident(&mut out, "GDNativeTypePtr");
            push_mark(&mut out, ',');
            push_ident(&mut out, "GDNativeTypePtr");
            push_mark(&mut out, ',');
            push_ident(&mut out, "GDNativeTypePtr");
        },
        Loader::Constructor(_) => {
            push_ident(&mut out, "GDNativeTypePtr");
            push_mark(&mut out, ',');
            push_mark(&mut out, '*');
            push_ident(&mut out, "const");
            push_ident(&mut out, "GDNativeTypePtr");
        },
        Loader::Destructor => {
            push_ident(&mut out, "GDNativeTypePtr");
        },
    }
    out
}

/// `pub name: unsafe extern "C" fn(parameters),`
fn make_declaration(name: &str, loader: &Loader) -> (out: TokenStream)
    requires
        is_ident(name@),
    ensures
        tokens_of(out) == declaration(Field { name: name@, lookup: loader@ }),
{
    proof {
        lemma_words();
    }
    let mut out = TokenStream::new();
    push_ident(&mut out, "pub");
    push_ident(&mut out, name);
    push_mark(&mut out, ':');
    push_ident(&mut out, "unsafe");
    push_ident(&mut out, "extern");
    push_text(&mut out, "C");
    push_ident(&mut out, "fn");
    push_group(&mut out, Delimiter::Parenthesis, make_parameters(loader));
    push_mark(&mut out, ',');
    out
}

/// `let finder = interface.method.unwrap(); finder(arguments).`
fn make_lookup_call(finder: &str, method: &str, arguments: TokenStream) -> (out: TokenStream)
    requires
        is_ident(finder@),
        is_ident(method@),
    ensures
        tokens_of(out) == lookup_call(finder, method, tokens_of(arguments)),
{
    proof {
        lemma_words();
    }
    let mut out = TokenStream::new();
    push_ident(&mut out, "let");
    push_ident(&mut out, finder);
    push_mark(&mut out, '=');
    push_ident(&mut out, "interface");
    push_mark(&mut out, '.');
    push_ident(&mut out, method);
    push_mark(&mut out, '.');
    push_ident(&mut out, "unwrap");
    push_group(&mut out, Delimiter::Parenthesis, TokenStream::new());
    push_mark(&mut out, ';');
    push_ident(&mut out, finder);
    push_group(&mut out, Delimiter::Parenthesis, arguments);
    push_mark(&mut out, '.');
    out
}

/// `expect("failed to load ..")`
fn push_or_load_error(out: &mut TokenStream, name: &str)
    ensures
        tokens_of(*final(out)) == tokens_of(*old(out)) + or_load_error(name@),
{
    proof {
        lemma_words();
    }
    let ghost start = tokens_of(*out);
    let error = format_load_error(name);
    let mut message = TokenStream::new();
    push_text(&mut message, error.as_str());
    push_ident(out, "expect");
    push_group(out, Delimiter::Parenthesis, message);
    assert(tokens_of(*out) =~= start + or_load_error(name@));
}

/// The expression that loads a function for the given variant type.
fn make_loading(name: &str, loader: &Loader, variant_type: &str) -> (out: TokenStream)
    requires
        field_ok(Field { name: name@, lookup: loader@ }),
        is_ident(variant_type@),
    ensures
        tokens_of(out) == loading(Field { name: name@, lookup: loader@ }, variant_type@),
{
    proof {
        lemma_words();
    }
    let ghost ty = crate_path(variant_type@);
    let mut arguments = TokenStream::new();
    match loader {
        Loader::ToVariant => {
            push_crate_path(&mut arguments, variant_type);
            assert(tokens_of(arguments) =~= ty);
            let mut out = make_lookup_call(
                "ctor_fn",
                "get_variant_from_type_constructor",
                arguments,
            );
            push_or_load_error(&mut out, name);
            out
        },
        Loader::FromVariant => {
            push_crate_path(&mut arguments, variant_type);
            assert(tokens_of(arguments) =~= ty);
            let mut out = make_lookup_call("ctor_fn", "get_variant_to_type_constructor", arguments);
            push_or_load_error(&mut out, name);
            out
        },
        Loader::Operator(operator) => {
            let sys_ident = "GDNATIVE_VARIANT_OP_".to_string().concat(operator);
            push_crate_path(&mut arguments, sys_ident.as_str());
            push_mark(&mut arguments, ',');
            push_crate_path(&mut arguments, variant_type);
            push_mark(&mut arguments, ',');
            push_crate_path(&mut arguments, variant_type);
            push_mark(&mut arguments, ',');
            assert(tokens_of(arguments) =~= crate_path(sys_operator(operator@)).push(mark(','))
                + ty.push(mark(',')) + ty.push(mark(',')));
            let mut out = make_lookup_call(
                "op_finder",
                "variant_get_ptr_operator_evaluator",
                arguments,
            );
            push_or_load_error(&mut out, name);
            out
        },
        Loader::Constructor(index) => {
            push_crate_path(&mut arguments, variant_type);
            push_mark(&mut arguments, ',');
            push_i32(&mut arguments, *index);
            assert(tokens_of(arguments) =~= ty.push(mark(',')) + integer(*index as int, "i32"@));
            let mut out = make_lookup_call("ctor_fn", "variant_get_ptr_constructor", arguments);
            push_or_load_error(&mut out, name);
            out
        },
        Loader::Destructor => {
            push_crate_path(&mut arguments, variant_type);
            assert(tokens_of(arguments) =~= ty);
            let mut out = make_lookup_call("dtor_fn", "variant_get_ptr_destructor", arguments);
            let ghost start = tokens_of(out);
            push_ident(&mut out, "unwrap");
            push_group(&mut out, Delimiter::Parenthesis, TokenStream::new());
            assert(tokens_of(out) =~= start + seq![word("unwrap"), parens(seq![])]);
            out
        },
    }
}

/// `name: { .. },`
fn make_initialisation(name: &str, loader: &Loader, variant_type: &str) -> (out: TokenStream)
    requires
        field_ok(Field { name: name@, lookup: loader@ }),
        is_ident(variant_type@),
    ensures
        tokens_of(out) == initialisation(Field { name: name@, lookup: loader@ }, variant_type@),
{
    let mut out = TokenStream::new();
    push_ident(&mut out, name);
    push_mark(&mut out, ':');
    push_group(&mut out, Delimiter::Brace, make_loading(name, loader, variant_type));
    push_mark(&mut out, ',');
    out
}

// ---- which fields a type has ----

/// A type whose operations Rust itself provides, so that Godot's are not needed.
pub open spec fn is_trivial_name(pascal_case: Seq<char>) -> bool {
    pascal_case == "bool"@ || pascal_case == "int"@ || pascal_case == "float"@
}

/// The spellings can be put into identifiers.
pub open spec fn names_ok(names: Names) -> bool {
    is_stem(names.snake_case) && is_ident(names.sys_variant_type)
}

/// The names of the arguments, with underscores between them.
pub open spec fn joined(arguments: Seq<MethodArg>) -> Seq<char>
    decreases arguments.len(),
{
    if arguments.len() == 0 {
        Seq::empty()
    } else if arguments.len() == 1 {
        arguments[0].name@
    } else {
        joined(arguments.drop_last()) + "_"@ + arguments.last().name@
    }
}

/// A constructor that converts: its one argument is called `from`.
pub open spec fn is_conversion(arguments: Seq<MethodArg>) -> bool {
    arguments.len() == 1 && arguments[0].name@ == "from"@
}

/// The name of a field for a constructor with these arguments: after the type that is converted,
/// or else after the arguments.
pub open spec fn constructor_name(
    names: Names,
    arguments: Seq<MethodArg>,
    types: Seq<TypeInfo>,
) -> Seq<char> {
    names.snake_case + "_from_"@ + if is_conversion(arguments) {
        find_type(types, arguments[0].type_@)->0.names.snake_case
    } else {
        joined(arguments)
    }
}

/// The fields for the constructors from the third to the one before `end`; those without
/// arguments have none.
pub open spec fn extra_fields(
    names: Names,
    constructors: Seq<Constructor>,
    types: Seq<TypeInfo>,
    end: int,
) -> Seq<Field>
    decreases end,
{
    if end <= 2 {
        Seq::empty()
    } else {
        let before = extra_fields(names, constructors, types, end - 1);
        match constructors[end - 1].arguments {
            Some(arguments) => before.push(
                Field {
                    name: constructor_name(names, arguments@, types),
                    lookup: Lookup::Constructor((end - 1) as i32),
                },
            ),
            None => before,
        }
    }
}

/// The third and later constructors can be named: each type that is converted is known, and the
/// names are identifiers.
pub open spec fn extra_constructors_ok(
    names: Names,
    constructors: Seq<Constructor>,
    types: Seq<TypeInfo>,
) -> bool {
    forall|i: int| 2 <= i < constructors.len() ==> extra_constructor_ok(
        names,
        #[trigger] constructors[i],
        types,
    )
}

/// The constructor, where it has arguments, can be named.
pub open spec fn extra_constructor_ok(
    names: Names,
    constructor: Constructor,
    types: Seq<TypeInfo>,
) -> bool {
    constructor.arguments matches Some(arguments) ==> {
        &&& is_conversion(arguments@) ==> find_type(types, arguments@[0].type_@) is Some
        &&& is_ident(constructor_name(names, arguments@, types))
    }
}

/// The fields for the constructors: the default constructor, the copy constructor, and the
/// others.
pub open spec fn construct_fields(
    names: Names,
    constructors: Option<Seq<Constructor>>,
    types: Seq<TypeInfo>,
) -> Seq<Field> {
    match constructors {
        Some(list) if !is_trivial_name(names.pascal_case) => seq![
            Field {
                name: names.snake_case + "_construct_default"@,
                lookup: Lookup::Constructor(0),
            },
            Field { name: names.snake_case + "_construct_copy"@, lookup: Lookup::Constructor(1) },
        ] + extra_fields(names, list, types, list.len() as int),
        _ => Seq::empty(),
    }
}

/// The arguments of a copy constructor: one of the type itself, called `from`.
pub open spec fn is_copy(arguments: Option<Vec<MethodArg>>, pascal_case: Seq<char>) -> bool {
    arguments matches Some(list) && is_conversion(list@) && list@[0].type_@ == pascal_case
}

/// The constructors are listed as expected, where they are used: by index, first the default
/// constructor, then the copy constructor, then others that can be named.
pub open spec fn constructors_ok(
    names: Names,
    constructors: Option<Seq<Constructor>>,
    types: Seq<TypeInfo>,
) -> bool {
    !is_trivial_name(names.pascal_case) ==> (constructors matches Some(list) ==> {
        &&& forall|i: int| 0 <= i < list.len() ==> (#[trigger] list[i]).index == i
        &&& list.len() >= 2
        &&& list[0].arguments is None
        &&& is_copy(list[1].arguments, names.pascal_case)
        &&& extra_constructors_ok(names, list, types)
    })
}

/// The field for the destructor.
pub open spec fn destroy_fields(names: Names, has_destructor: bool) -> Seq<Field> {
    if has_destructor && !is_trivial_name(names.pascal_case) {
        seq![Field { name: names.snake_case + "_destroy"@, lookup: Lookup::Destructor }]
    } else {
        Seq::empty()
    }
}

/// One of the operators has that name.
pub open spec fn lists_operator(operators: Seq<Operator>, json_name: Seq<char>) -> bool {
    exists|i: int| 0 <= i < operators.len() && (#[trigger] operators[i]).name@ == json_name
}

/// The type has an operator of that name, and it is used.
pub open spec fn has_operator(
    names: Names,
    operators: Option<Seq<Operator>>,
    json_name: Seq<char>,
) -> bool {
    &&& !is_trivial_name(names.pascal_case)
    &&& operators matches Some(list) && lists_operator(list, json_name)
}

/// The field for an operator.
pub open spec fn operator_field(names: Names, sys_name: Seq<char>) -> Field {
    Field {
        name: names.snake_case + "_operator_"@ + lower(sys_name),
        lookup: Lookup::Operator(sys_name),
    }
}

/// The field for an operator that the type has.
pub open spec fn operator_fields(
    names: Names,
    operators: Option<Seq<Operator>>,
    json_name: Seq<char>,
    sys_name: Seq<char>,
) -> Seq<Field> {
    if has_operator(names, operators, json_name) {
        seq![operator_field(names, sys_name)]
    } else {
        Seq::empty()
    }
}

/// The fields for the conversions between a type and the variant type.
pub open spec fn conversion_fields(names: Names) -> Seq<Field> {
    seq![
        Field { name: names.snake_case + "_to_variant"@, lookup: Lookup::ToVariant },
        Field { name: names.snake_case + "_from_variant"@, lookup: Lookup::FromVariant },
    ]
}

/// All fields for a type.
pub open spec fn variant_fields(
    names: Names,
    has_destructor: bool,
    constructors: Option<Seq<Constructor>>,
    operators: Option<Seq<Operator>>,
    types: Seq<TypeInfo>,
) -> Seq<Field> {
    conversion_fields(names)
        + operator_fields(names, operators, "=="@, "EQUAL"@)
        + operator_fields(names, operators, "<"@, "LESS"@)
        + construct_fields(names, constructors, types)
        + destroy_fields(names, has_destructor)
}

// ---- writing the fields of a type ----

/// Returns true if the type is so trivial that most of its operations are directly provided by
/// Rust, and there is no need to expose the construct/destruct/operator methods from Godot.
pub fn is_trivial(type_names: &TypeNames) -> (b: bool)
    ensures
        b == is_trivial_name(type_names@.pascal_case),
{
    let name = type_names.pascal_case.as_str();
    same_text(name, "bool") || same_text(name, "int") || same_text(name, "float")
}

/// The fixed parts of the fields' names can stand behind a stem.
proof fn lemma_suffixes()
    ensures
        is_ident("_to_variant"@) && all_continue("_to_variant"@),
        is_ident("_from_variant"@) && all_continue("_from_variant"@),
        is_ident("_construct_default"@) && all_continue("_construct_default"@),
        is_ident("_construct_copy"@) && all_continue("_construct_copy"@),
        is_ident("_destroy"@) && all_continue("_destroy"@),
        is_ident("_operator_"@ + lower("EQUAL"@)) && all_continue("_operator_"@ + lower("EQUAL"@)),
        is_ident("_operator_"@ + lower("LESS"@)) && all_continue("_operator_"@ + lower("LESS"@)),
        is_ident(sys_operator("EQUAL"@)),
        is_ident(sys_operator("LESS"@)),
{
    reveal_strlit("_to_variant");
    reveal_strlit("_from_variant");
    reveal_strlit("_construct_default");
    reveal_strlit("_construct_copy");
    reveal_strlit("_destroy");
    reveal_strlit("_operator_");
    reveal_strlit("GDNATIVE_VARIANT_OP_");
    reveal_strlit("EQUAL");
    reveal_strlit("LESS");
}

/// The names of a type's fields are identifiers.
pub(crate) proof fn lemma_field_names(
    names: Names,
    has_destructor: bool,
    constructors: Option<Seq<Constructor>>,
    operators: Option<Seq<Operator>>,
    types: Seq<TypeInfo>,
)
    requires
        names_ok(names),
        constructors_ok(names, constructors, types),
    ensures
        forall|i: int|
            0 <= i < variant_fields(
                names,
                has_destructor,
                constructors,
                operators,
                types,
            ).len() ==> field_ok(
                #[trigger] variant_fields(
                    names,
                    has_destructor,
                    constructors,
                    operators,
                    types,
                )[i],
            ),
{
    let snake = names.snake_case;
    lemma_suffixes();
    lemma_stem(snake, "_to_variant"@);
    lemma_stem(snake, "_from_variant"@);
    lemma_stem(snake, "_construct_default"@);
    lemma_stem(snake, "_construct_copy"@);
    lemma_stem(snake, "_destroy"@);
    lemma_stem(snake, "_operator_"@ + lower("EQUAL"@));
    lemma_stem(snake, "_operator_"@ + lower("LESS"@));
    assert(snake + ("_operator_"@ + lower("EQUAL"@)) =~= snake + "_operator_"@ + lower("EQUAL"@));
    assert(snake + ("_operator_"@ + lower("LESS"@)) =~= snake + "_operator_"@ + lower("LESS"@));
    if constructors is Some && !is_trivial_name(names.pascal_case) {
        lemma_extra_names(names, constructors->0, types, constructors->0.len() as int);
    }
}

proof fn lemma_extra_names(
    names: Names,
    constructors: Seq<Constructor>,
    types: Seq<TypeInfo>,
    end: int,
)
    requires
        0 <= end <= constructors.len(),
        extra_constructors_ok(names, constructors, types),
    ensures
        forall|i: int|
            0 <= i < extra_fields(names, constructors, types, end).len() ==> field_ok(
                #[trigger] extra_fields(names, constructors, types, end)[i],
            ),
    decreases end,
{
    if end > 2 {
        lemma_extra_names(names, constructors, types, end - 1);
        assert(extra_constructor_ok(names, constructors[end - 1], types));
        let before = extra_fields(names, constructors, types, end - 1);
        let fields = extra_fields(names, constructors, types, end);
        assert forall|i: int| 0 <= i < fields.len() implies field_ok(#[trigger] fields[i]) by {
            if i < before.len() {
                assert(fields[i] == before[i]);
            }
        }
    }
}

/// The fields of two lists.
proof fn lemma_fields_append(a: Seq<Field>, b: Seq<Field>, variant_type: Seq<char>)
    ensures
        declarations(a + b) == declarations(a) + declarations(b),
        initialisations(a + b, variant_type) == initialisations(a, variant_type)
            + initialisations(b, variant_type),
{
    assert(declaration_list(a + b) =~= declaration_list(a) + declaration_list(b));
    assert(initialisation_list(a + b, variant_type) =~= initialisation_list(a, variant_type)
        + initialisation_list(b, variant_type));
    lemma_flat_append(declaration_list(a), declaration_list(b));
    lemma_flat_append(
        initialisation_list(a, variant_type),
        initialisation_list(b, variant_type),
    );
}

/// One field alone.
proof fn lemma_single_field(f: Field, variant_type: Seq<char>)
    ensures
        declarations(seq![f]) == declaration(f),
        initialisations(seq![f], variant_type) == initialisation(f, variant_type),
{
    lemma_flat_single(declaration(f));
    lemma_flat_single(initialisation(f, variant_type));
    assert(declaration_list(seq![f]) =~= seq![declaration(f)]);
    assert(initialisation_list(seq![f], variant_type) =~= seq![initialisation(f, variant_type)]);
}

/// The declaration and the initialisation of the destructor.
pub fn make_destroy_fns(type_names: &TypeNames, has_destructor: bool) -> (r: (
    TokenStream,
    TokenStream,
))
    requires
        destroy_fields(type_names@, has_destructor).len() > 0 ==> names_ok(type_names@),
    ensures
        tokens_of(r.0) == declarations(destroy_fields(type_names@, has_destructor)),
        tokens_of(r.1) == initialisations(
            destroy_fields(type_names@, has_destructor),
            type_names@.sys_variant_type,
        ),
{
    if !has_destructor || is_trivial(type_names) {
        return (TokenStream::new(), TokenStream::new());
    }
    let destroy = type_names.snake_case.clone().concat("_destroy");
    let variant_type = type_names.sys_variant_type.as_str();
    proof {
        lemma_suffixes();
        lemma_stem(type_names@.snake_case, "_destroy"@);
        lemma_single_field(
            Field { name: destroy@, lookup: Lookup::Destructor },
            variant_type@,
        );
    }
    (
        make_declaration(destroy.as_str(), &Loader::Destructor),
        make_initialisation(destroy.as_str(), &Loader::Destructor, variant_type),
    )
}

/// The declaration and the initialisation of an operator, where the type has it.
pub fn make_operator_fns(
    type_names: &TypeNames,
    operators: Option<&Vec<Operator>>,
    json_name: &str,
    sys_name: &str,
) -> (r: (TokenStream, TokenStream))
    requires
        has_operator(type_names@, optional(operators), json_name@) ==> {
            &&& is_ident(type_names@.sys_variant_type)
            &&& field_ok(operator_field(type_names@, sys_name@))
        },
    ensures
        tokens_of(r.0) == declarations(
            operator_fields(type_names@, optional(operators), json_name@, sys_name@),
        ),
        tokens_of(r.1) == initialisations(
            operator_fields(type_names@, optional(operators), json_name@, sys_name@),
            type_names@.sys_variant_type,
        ),
{
    let present: bool = match operators {
        Some(list) => contains_operator(list, json_name),
        None => false,
    };
    if !present || is_trivial(type_names) {
        return (TokenStream::new(), TokenStream::new());
    }
    let operator = type_names.snake_case.clone().concat("_operator_").concat(
        to_lower(sys_name).as_str(),
    );
    let variant_type = type_names.sys_variant_type.as_str();
    proof {
        lemma_single_field(operator_field(type_names@, sys_name@), variant_type@);
    }
    (
        make_declaration(operator.as_str(), &Loader::Operator(sys_name)),
        make_initialisation(operator.as_str(), &Loader::Operator(sys_name), variant_type),
    )
}

/// Whether one of the operators has that name.
fn contains_operator(operators: &Vec<Operator>, json_name: &str) -> (b: bool)
    ensures
        b == lists_operator(operators@, json_name@),
{
    for i in 0..operators.len()
        invariant
            forall|j: int| 0 <= j < i ==> (#[trigger] operators@[j]).name@ != json_name@,
    {
        if same_text(operators[i].name.as_str(), json_name) {
            return true;
        }
    }
    false
}

/// The names of the arguments, with underscores between them.
fn join_names(arguments: &Vec<MethodArg>) -> (r: String)
    ensures
        r@ == joined(arguments@),
{
    let mut r = String::new();
    for i in 0..arguments.len()
        invariant
            r@ == joined(arguments@.take(i as int)),
    {
        if i > 0 {
            r.append("_");
        }
        r.append(arguments[i].name.as_str());
        proof {
            assert(arguments@.take(i + 1).drop_last() =~= arguments@.take(i as int));
            if i == 0 {
                assert(r@ =~= arguments@[0].name@);
            }
        }
    }
    assert(arguments@.take(arguments@.len() as int) =~= arguments@);
    r
}

/// The name of a field for a constructor with these arguments.
pub(crate) fn make_constructor_name(
    type_names: &TypeNames,
    arguments: &Vec<MethodArg>,
    builtin_types: &BuiltinTypes,
) -> (name: String)
    requires
        is_conversion(arguments@) ==> find_type(builtin_types@, arguments@[0].type_@) is Some,
    ensures
        name@ == constructor_name(type_names@, arguments@, builtin_types@),
{
    let name = type_names.snake_case.clone().concat("_from_");
    if arguments.len() == 1 && same_text(arguments[0].name.as_str(), "from") {
        // Conversion constructor is named according to the source type
        // String(NodePath from) => string_from_node_path
        match builtin_types.get(arguments[0].type_.as_str()) {
            Some(source) => name.concat(source.type_names.snake_case.as_str()),
            None => name,
        }
    } else {
        // Type-specific constructor is named according to the argument names
        // Vector3(float x, float y, float z) => vector3_from_x_y_z
        let arg_names = join_names(arguments);
        name.concat(arg_names.as_str())
    }
}

/// The declarations and the initialisations for the third and later constructors.
pub fn make_extra_constructors(
    type_names: &TypeNames,
    constructors: &Vec<Constructor>,
    builtin_types: &BuiltinTypes,
) -> (r: (Vec<TokenStream>, Vec<TokenStream>))
    requires
        is_ident(type_names@.sys_variant_type),
        constructors@.len() >= 2,
        extra_constructors_ok(type_names@, constructors@, builtin_types@),
    ensures
        streams(r.0@) == declaration_list(
            extra_fields(
                type_names@,
                constructors@,
                builtin_types@,
                constructors@.len() as int,
            ),
        ),
        streams(r.1@) == initialisation_list(
            extra_fields(
                type_names@,
                constructors@,
                builtin_types@,
                constructors@.len() as int,
            ),
            type_names@.sys_variant_type,
        ),
{
    let mut extra_decls: Vec<TokenStream> = Vec::new();
    let mut extra_inits: Vec<TokenStream> = Vec::new();
    let variant_type = type_names.sys_variant_type.as_str();
    let ghost names = type_names@;
    let ghost list = constructors@;
    let ghost types = builtin_types@;
    assert(streams(extra_decls@) =~= declaration_list(extra_fields(names, list, types, 2)));
    assert(streams(extra_inits@) =~= initialisation_list(
        extra_fields(names, list, types, 2),
        variant_type@,
    ));
    for i in 2..constructors.len()
        invariant
            names == type_names@,
            list == constructors@,
            types == builtin_types@,
            is_ident(variant_type@),
            variant_type@ == names.sys_variant_type,
            extra_constructors_ok(names, list, types),
            list.len() >= 2,
            streams(extra_decls@) == declaration_list(extra_fields(names, list, types, i as int)),
            streams(extra_inits@) == initialisation_list(
                extra_fields(names, list, types, i as int),
                variant_type@,
            ),
    {
        let ctor = &constructors[i];
        assert(extra_constructor_ok(names, list[i as int], types));
        if let Some(arguments) = &ctor.arguments {
            let ident = make_constructor_name(type_names, arguments, builtin_types);
            let loader = Loader::Constructor(i as i32);
            let ghost before = extra_fields(names, list, types, i as int);
            let ghost after = extra_fields(names, list, types, i + 1);
            let ghost decls = streams(extra_decls@);
            let ghost inits = streams(extra_inits@);
            let ghost field = Field { name: ident@, lookup: loader@ };
            assert(after == before.push(field));
            extra_decls.push(make_declaration(ident.as_str(), &loader));
            extra_inits.push(make_initialisation(ident.as_str(), &loader, variant_type));
            assert(streams(extra_decls@) =~= decls.push(declaration(field)));
            assert(streams(extra_inits@) =~= inits.push(initialisation(field, variant_type@)));
            assert(declaration_list(after) =~= declaration_list(before).push(declaration(field)));
            assert(initialisation_list(after, variant_type@) =~= initialisation_list(
                before,
                variant_type@,
            ).push(initialisation(field, variant_type@)));
        }
    }
    (extra_decls, extra_inits)
}

/// The declarations and the initialisations for the constructors.
pub fn make_construct_fns(
    type_names: &TypeNames,
    constructors: Option<&Vec<Constructor>>,
    builtin_types: &BuiltinTypes,
) -> (r: (TokenStream, TokenStream))
    requires
        construct_fields(type_names@, optional(constructors), builtin_types@).len() > 0
            ==> names_ok(type_names@),
        constructors_ok(type_names@, optional(constructors), builtin_types@),
    ensures
        tokens_of(r.0) == declarations(
            construct_fields(type_names@, optional(constructors), builtin_types@),
        ),
        tokens_of(r.1) == initialisations(
            construct_fields(type_names@, optional(constructors), builtin_types@),
            type_names@.sys_variant_type,
        ),
{
    let constructors = match constructors {
        Some(c) => c,
        None => { return (TokenStream::new(), TokenStream::new()); },
    };
    if is_trivial(type_names) {
        return (TokenStream::new(), TokenStream::new());
    }
    // Constructor vec layout:
    //   [0]: default constructor
    //   [1]: copy constructor
    //   [2]: (optional) typically the most common conversion constructor
    //        (e.g. StringName -> String)
    //  rest: (optional) other conversion constructors and multi-arg constructors
    //        (e.g. Vector3(x, y, z))
    let construct_default = type_names.snake_case.clone().concat("_construct_default");
    let construct_copy = type_names.snake_case.clone().concat("_construct_copy");
    let variant_type = type_names.sys_variant_type.as_str();
    let ghost default_field = Field {
        name: construct_default@,
        lookup: Lookup::Constructor(0),
    };
    let ghost copy_field = Field { name: construct_copy@, lookup: Lookup::Constructor(1) };
    let ghost extra = extra_fields(
        type_names@,
        constructors@,
        builtin_types@,
        constructors@.len() as int,
    );
    proof {
        lemma_suffixes();
        lemma_stem(type_names@.snake_case, "_construct_default"@);
        lemma_stem(type_names@.snake_case, "_construct_copy"@);
        lemma_single_field(default_field, variant_type@);
        lemma_single_field(copy_field, variant_type@);
        lemma_fields_append(seq![default_field], seq![copy_field], variant_type@);
        assert(seq![default_field] + seq![copy_field] =~= seq![default_field, copy_field]);
        lemma_fields_append(seq![default_field, copy_field], extra, variant_type@);
    }
    let (extra_decls, extra_inits) = make_extra_constructors(
        type_names,
        constructors,
        builtin_types,
    );
    let mut decls = make_declaration(construct_default.as_str(), &Loader::Constructor(0));
    push_stream(&mut decls, &make_declaration(construct_copy.as_str(), &Loader::Constructor(1)));
    push_streams(&mut decls, &extra_decls);
    let mut inits = make_initialisation(
        construct_default.as_str(),
        &Loader::Constructor(0),
        variant_type,
    );
    push_stream(
        &mut inits,
        &make_initialisation(construct_copy.as_str(), &Loader::Constructor(1), variant_type),
    );
    push_streams(&mut inits, &extra_inits);
    (decls, inits)
}

/// The declarations and the initialisations of all functions of a type.
pub fn make_variant_fns(
    type_names: &TypeNames,
    has_destructor: bool,
    constructors: Option<&Vec<Constructor>>,
    operators: Option<&Vec<Operator>>,
    builtin_types: &BuiltinTypes,
) -> (r: (TokenStream, TokenStream))
    requires
        names_ok(type_names@),
        constructors_ok(type_names@, optional(constructors), builtin_types@),
    ensures
        tokens_of(r.0) == declarations(
            variant_fields(
                type_names@,
                has_destructor,
                optional(constructors),
                optional(operators),
                builtin_types@,
            ),
        ),
        tokens_of(r.1) == initialisations(
            variant_fields(
                type_names@,
                has_destructor,
                optional(constructors),
                optional(operators),
                builtin_types@,
            ),
            type_names@.sys_variant_type,
        ),
{
    let to_variant = type_names.snake_case.clone().concat("_to_variant");
    let from_variant = type_names.snake_case.clone().concat("_from_variant");
    let variant_type = type_names.sys_variant_type.as_str();
    proof {
        let names = type_names@;
        let vt = variant_type@;
        let snake = names.snake_case;
        lemma_suffixes();
        lemma_stem(snake, "_to_variant"@);
        lemma_stem(snake, "_from_variant"@);
        lemma_stem(snake, "_operator_"@ + lower("EQUAL"@));
        lemma_stem(snake, "_operator_"@ + lower("LESS"@));
        assert(snake + ("_operator_"@ + lower("EQUAL"@)) =~= snake + "_operator_"@ + lower(
            "EQUAL"@,
        ));
        assert(snake + ("_operator_"@ + lower("LESS"@)) =~= snake + "_operator_"@ + lower(
            "LESS"@,
        ));
        let to = Field { name: to_variant@, lookup: Lookup::ToVariant };
        let from = Field { name: from_variant@, lookup: Lookup::FromVariant };
        lemma_single_field(to, vt);
        lemma_single_field(from, vt);
        lemma_fields_append(seq![to], seq![from], vt);
        assert(seq![to] + seq![from] =~= conversion_fields(names));
        let equal = operator_fields(names, optional(operators), "=="@, "EQUAL"@);
        let less = operator_fields(names, optional(operators), "<"@, "LESS"@);
        let construct = construct_fields(names, optional(constructors), builtin_types@);
        let first = conversion_fields(names);
        lemma_fields_append(first, equal, vt);
        lemma_fields_append(first + equal, less, vt);
        lemma_fields_append(first + equal + less, construct, vt);
        lemma_fields_append(
            first + equal + less + construct,
            destroy_fields(names, has_destructor),
            vt,
        );
    }
    let (construct_decls, construct_inits) = make_construct_fns(
        type_names,
        constructors,
        builtin_types,
    );
    let (destroy_decls, destroy_inits) = make_destroy_fns(type_names, has_destructor);
    let (op_eq_decls, op_eq_inits) = make_operator_fns(type_names, operators, "==", "EQUAL");
    let (op_lt_decls, op_lt_inits) = make_operator_fns(type_names, operators, "<", "LESS");

    let mut decl = make_declaration(to_variant.as_str(), &Loader::ToVariant);
    push_stream(&mut decl, &make_declaration(from_variant.as_str(), &Loader::FromVariant));
    push_stream(&mut decl, &op_eq_decls);
    push_stream(&mut decl, &op_lt_decls);
    push_stream(&mut decl, &construct_decls);
    push_stream(&mut decl, &destroy_decls);

    let mut init = make_initialisation(to_variant.as_str(), &Loader::ToVariant, variant_type);
    push_stream(
        &mut init,
        &make_initialisation(from_variant.as_str(), &Loader::FromVariant, variant_type),
    );
    push_stream(&mut init, &op_eq_inits);
    push_stream(&mut init, &op_lt_inits);
    push_stream(&mut init, &construct_inits);
    push_stream(&mut init, &destroy_inits);

    (decl, init)
}

} // verus!
