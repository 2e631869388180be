//! What the central files are made of, gathered from the interface description.

use crate::api::{ClassSize, ClassSizes, Constant, Enum, ExtensionApi, named_enum};
use crate::code::{CentralItems, Items, aligned, all_idents, core_items_ok, sys_items_ok, texts};
use crate::fields::{
    Field, constructors_ok, declarations, initialisations, make_variant_fns, names_ok,
    variant_fields,
};
use crate::ident::{ascii, is_ident};
use crate::text::{
    capitalize, capitalized, is_shout_case, pascal, same_text, shout_to_pascal, strip_prefix,
};
use crate::tokens::{
    Token, integer, joint, mark, push_ident, push_mark, push_operator, push_stream, push_usize,
    streams, tokens_of, word,
};
use crate::types::{
    BuiltinTypeInfo, BuiltinTypes, TypeInfo, TypeNames, by_value, classes_by_name,
    collect_builtin_classes, collect_builtin_types, collect_variant_operators, constants, infos,
    sort_by_value, type_constants_ok, type_table,
};
use crate::words::lemma_words;
use proc_macro2::TokenStream;
use vstd::hash_map::StringHashMap;
use vstd::prelude::*;
use vstd::string::*;

verus! {

/// What the other parts of the generator supply.
pub struct Context {
    /// The Rust type of each builtin type, by its name in Pascal case.
    pub rust_types: StringHashMap<TokenStream>,
    /// The Rust definition of each global enum, in the order of the interface description. Those
    /// of `Variant.Type` and `Variant.Operator` are not read.
    pub enum_definitions: Vec<TokenStream>,
}

impl Context {
    /// A context in which nothing is given.
    pub fn new() -> (ctx: Self)
        ensures
            ctx.rust_types@ == Map::<Seq<char>, TokenStream>::empty(),
            ctx.enum_definitions@ == Seq::<TokenStream>::empty(),
    {
        Context { rust_types: StringHashMap::new(), enum_definitions: Vec::new() }
    }

    /// Gives the Rust type of a builtin type.
    pub fn insert_rust_type(&mut self, ty: String, rust_ty: TokenStream)
        ensures
            final(self).rust_types@ == old(self).rust_types@.insert(ty@, rust_ty),
            final(self).enum_definitions == old(self).enum_definitions,
    {
        self.rust_types.insert(ty, rust_ty);
    }
}

/// The Rust type of a builtin type.
pub fn to_rust_type<'a>(ty: &str, ctx: &'a Context) -> (rust_ty: &'a TokenStream)
    requires
        ctx.rust_types@.contains_key(ty@),
    ensures
        *rust_ty == ctx.rust_types@[ty@],
{
    ctx.rust_types.get(ty).unwrap()
}

// ---- opaque types ----

/// The sizes of the first entry for the build configuration; none where there is no entry.
pub open spec fn sizes_for(entries: Seq<ClassSizes>, build_config: Seq<char>) -> Seq<ClassSize>
    decreases entries.len(),
{
    if entries.len() == 0 {
        Seq::empty()
    } else if entries[0].build_configuration@ == build_config {
        entries[0].sizes@
    } else {
        sizes_for(entries.skip(1), build_config)
    }
}

/// The name of a type's opaque form.
pub open spec fn opaque_name(name: Seq<char>) -> Seq<char> {
    "Opaque"@ + capitalized(name)
}

/// A name that can be capitalised, and then gives an identifier.
pub open spec fn opaque_ok(name: Seq<char>) -> bool {
    name.len() > 0 && ascii(name[0]) && is_ident(opaque_name(name))
}

/// `pub type OpaqueName = crate::opaque::Opaque<size>;`
pub open spec fn opaque_type(name: Seq<char>, size: usize) -> Seq<Token> {
    seq![
        word("pub"), word("type"), Token::Ident(opaque_name(name)), mark('='),
        word("crate"), joint(':'), mark(':'), word("opaque"), joint(':'), mark(':'),
        word("Opaque"), mark('<'),
    ] + integer(size as int, "usize"@) + seq![mark('>'), mark(';')]
}

/// The opaque form of each type.
pub open spec fn opaque_types(sizes: Seq<ClassSize>) -> Seq<Seq<Token>> {
    sizes.map_values(|c: ClassSize| opaque_type(c.name@, c.size))
}

/// Defines the opaque form of a type.
pub fn make_opaque_type(name: &str, size: usize) -> (out: TokenStream)
    requires
        opaque_ok(name@),
    ensures
        tokens_of(out) == opaque_type(name@, size),
{
    proof {
        lemma_words();
    }
    // Capitalize: "int" -> "Int"
    let ident = "Opaque".to_string().concat(capitalize(name).as_str());
    let mut out = TokenStream::new();
    push_ident(&mut out, "pub");
    push_ident(&mut out, "type");
    push_ident(&mut out, ident.as_str());
    push_mark(&mut out, '=');
    push_ident(&mut out, "crate");
    push_operator(&mut out, ':', ':');
    push_ident(&mut out, "opaque");
    push_operator(&mut out, ':', ':');
    push_ident(&mut out, "Opaque");
    push_mark(&mut out, '<');
    push_usize(&mut out, size);
    push_mark(&mut out, '>');
    push_mark(&mut out, ';');
    assert(tokens_of(out) =~= opaque_type(name@, size));
    out
}

/// Every name can be used.
pub open spec fn sizes_ok(sizes: Seq<ClassSize>) -> bool {
    forall|i: int| 0 <= i < sizes.len() ==> opaque_ok((#[trigger] sizes[i]).name@)
}

/// The first entry for the build configuration.
pub(crate) fn find_sizes<'a>(api: &'a ExtensionApi, build_config: &str) -> (r: Option<
    &'a ClassSizes,
>)
    ensures
        match r {
            Some(entry) => entry.sizes@ == sizes_for(api.builtin_class_sizes@, build_config@),
            None => sizes_for(api.builtin_class_sizes@, build_config@) == Seq::<
                ClassSize,
            >::empty(),
        },
{
    let ghost entries = api.builtin_class_sizes@;
    assert(entries.skip(0) =~= entries);
    for i in 0..api.builtin_class_sizes.len()
        invariant
            entries == api.builtin_class_sizes@,
            sizes_for(entries, build_config@) == sizes_for(entries.skip(i as int), build_config@),
    {
        proof {
            assert(entries.skip(i as int).skip(1) =~= entries.skip(i + 1));
        }
        if same_text(api.builtin_class_sizes[i].build_configuration.as_str(), build_config) {
            return Some(&api.builtin_class_sizes[i]);
        }
    }
    None
}

/// The opaque form of each type whose size is given for the build configuration.
fn make_opaque_types(api: &ExtensionApi, build_config: &str) -> (out: Vec<TokenStream>)
    requires
        sizes_ok(sizes_for(api.builtin_class_sizes@, build_config@)),
    ensures
        streams(out@) == opaque_types(sizes_for(api.builtin_class_sizes@, build_config@)),
{
    let mut out: Vec<TokenStream> = Vec::new();
    if let Some(entry) = find_sizes(api, build_config) {
        let ghost sizes = entry.sizes@;
        assert(streams(out@) =~= opaque_types(sizes.take(0)));
        for i in 0..entry.sizes.len()
            invariant
                sizes == entry.sizes@,
                sizes_ok(sizes),
                streams(out@) == opaque_types(sizes.take(i as int)),
        {
            let class = &entry.sizes[i];
            let ghost before = streams(out@);
            assert(opaque_ok(sizes[i as int].name@));
            out.push(make_opaque_type(class.name.as_str(), class.size));
            proof {
                let last = opaque_type(class.name@, class.size);
                assert(streams(out@) =~= before.push(last));
                assert(opaque_types(sizes.take(i + 1)) =~= opaque_types(
                    sizes.take(i as int),
                ).push(last));
            }
        }
        assert(sizes.take(sizes.len() as int) =~= sizes);
    } else {
        assert(streams(out@) =~= opaque_types(Seq::empty()));
    }
    out
}

// ---- variant types ----

/// A name that can be capitalised to an identifier.
pub open spec fn enumerator_ok(pascal_case: Seq<char>) -> bool {
    pascal_case.len() > 0 && ascii(pascal_case[0]) && is_ident(capitalized(pascal_case))
}

/// The enumerator of a variant type: its name, its Rust type and its ordinal.
pub fn make_enumerator(type_names: &TypeNames, value: i32, ctx: &Context) -> (r: (
    String,
    TokenStream,
    i32,
))
    requires
        enumerator_ok(type_names@.pascal_case),
        ctx.rust_types@.contains_key(type_names@.pascal_case),
    ensures
        r.0@ == capitalized(type_names@.pascal_case),
        tokens_of(r.1) == tokens_of(ctx.rust_types@[type_names@.pascal_case]),
        r.2 == value,
{
    let pascal_name = capitalize(type_names.pascal_case.as_str());
    let mut rust_ty = TokenStream::new();
    push_stream(&mut rust_ty, to_rust_type(type_names.pascal_case.as_str(), ctx));
    assert(tokens_of(rust_ty) =~= tokens_of(ctx.rust_types@[type_names@.pascal_case]));
    (pascal_name, rust_ty, value)
}

/// The fields for a type.
pub open spec fn fields_of(info: TypeInfo, types: Seq<TypeInfo>) -> Seq<Field> {
    variant_fields(
        info.names,
        info.has_destructor,
        info.constructors,
        info.operators,
        types,
    )
}

/// Code can be generated for a type.
pub open spec fn type_ok(info: TypeInfo, types: Seq<TypeInfo>) -> bool {
    &&& names_ok(info.names)
    &&& constructors_ok(info.names, info.constructors, types)
    &&& enumerator_ok(info.names.pascal_case)
}

/// The names of the enumerators of the types.
pub open spec fn enumerator_names(list: Seq<TypeInfo>) -> Seq<Seq<char>> {
    list.map_values(|t: TypeInfo| capitalized(t.names.pascal_case))
}

/// The Rust types of the types.
pub open spec fn rust_types(list: Seq<TypeInfo>, ctx: Context) -> Seq<Seq<Token>> {
    list.map_values(|t: TypeInfo| tokens_of(ctx.rust_types@[t.names.pascal_case]))
}

/// The ordinals of the types.
pub open spec fn ordinals(list: Seq<TypeInfo>) -> Seq<i32> {
    list.map_values(|t: TypeInfo| t.value)
}

/// The declarations of the fields of each of the types.
pub open spec fn declaration_parts(list: Seq<TypeInfo>, types: Seq<TypeInfo>) -> Seq<Seq<Token>> {
    list.map_values(|t: TypeInfo| declarations(fields_of(t, types)))
}

/// The initialisations of the fields of each of the types.
pub open spec fn initialisation_parts(list: Seq<TypeInfo>, types: Seq<TypeInfo>) -> Seq<
    Seq<Token>,
> {
    list.map_values(
        |t: TypeInfo| initialisations(fields_of(t, types), t.names.sys_variant_type),
    )
}

// ---- variant operators ----

/// The name of an operator without its prefix.
pub open spec fn operator_name(c: Constant) -> Seq<char> {
    c.name@.skip("OP_"@.len() as int)
}

/// The enumerator stands for an operator: `MAX` is the number of them.
pub open spec fn is_operator(c: Constant) -> bool {
    operator_name(c) != "MAX"@
}

/// An enumerator of `Variant.Operator` that can be read: its name has the prefix, and, where it
/// stands for an operator, it is in shout case and gives an identifier.
pub open spec fn operator_constant_ok(c: Constant) -> bool {
    &&& "OP_"@.is_prefix_of(c.name@)
    &&& is_operator(c) ==> is_shout_case(operator_name(c)) && is_ident(pascal(operator_name(c)))
}

/// Every enumerator can be read.
pub open spec fn operator_constants_ok(values: Seq<Constant>) -> bool {
    forall|i: int| 0 <= i < values.len() ==> operator_constant_ok(#[trigger] values[i])
}

/// The enumerators that stand for operators.
pub open spec fn operators_of(values: Seq<Constant>) -> Seq<Constant> {
    values.filter(|c: Constant| is_operator(c))
}

/// The names of the enumerators of the operators.
pub open spec fn operator_names(operators: Seq<Constant>) -> Seq<Seq<char>> {
    operators.map_values(|c: Constant| pascal(operator_name(c)))
}

/// The ordinals of the operators.
pub open spec fn operator_ordinals(operators: Seq<Constant>) -> Seq<i32> {
    operators.map_values(|c: Constant| c.value)
}

// ---- global enums ----

/// An enum that is handled explicitly.
pub open spec fn is_explicit(name: Seq<char>) -> bool {
    name == "Variant.Type"@ || name == "Variant.Operator"@
}

/// Whether an enum is handled explicitly.
pub fn is_handled_explicitly(name: &str) -> (b: bool)
    ensures
        b == is_explicit(name@),
{
    same_text(name, "Variant.Type") || same_text(name, "Variant.Operator")
}

/// The definitions of the enums that are not handled explicitly.
pub open spec fn definitions_of(enums: Seq<Enum>, definitions: Seq<Seq<Token>>) -> Seq<Seq<Token>>
    decreases enums.len(),
{
    if enums.len() == 0 {
        Seq::empty()
    } else if is_explicit(enums.last().name@) {
        definitions_of(enums.drop_last(), definitions)
    } else {
        definitions_of(enums.drop_last(), definitions).push(definitions[enums.len() - 1])
    }
}

// ---- all of it ----

/// The builtin types of an interface description.
pub open spec fn types_of(api: ExtensionApi) -> Seq<TypeInfo> {
    type_table(
        named_enum(api.global_enums@, "Variant.Type"@)->0.values@,
        classes_by_name(api.builtin_classes@),
    )
}

/// The interface description can be read, and code can be generated for all that it holds.
pub open spec fn api_ok(api: ExtensionApi, build_config: Seq<char>) -> bool {
    &&& sizes_ok(sizes_for(api.builtin_class_sizes@, build_config))
    &&& named_enum(api.global_enums@, "Variant.Type"@) matches Some(e) && type_constants_ok(
        e.values@,
        classes_by_name(api.builtin_classes@),
    )
    &&& named_enum(api.global_enums@, "Variant.Operator"@) matches Some(e)
        && operator_constants_ok(e.values@)
    &&& types_ok(by_value(types_of(api)), types_of(api))
}

/// Code can be generated for each of the types.
pub open spec fn types_ok(list: Seq<TypeInfo>, types: Seq<TypeInfo>) -> bool {
    forall|i: int| 0 <= i < list.len() ==> type_ok(#[trigger] list[i], types)
}

/// The Rust type of each of the types is given.
pub open spec fn types_given(list: Seq<TypeInfo>, ctx: Context) -> bool {
    forall|i: int|
        0 <= i < list.len() ==> ctx.rust_types@.contains_key(
            (#[trigger] list[i]).names.pascal_case,
        )
}

/// All that the other parts of the generator supply is there.
pub open spec fn context_ok(api: ExtensionApi, ctx: Context) -> bool {
    &&& types_given(by_value(types_of(api)), ctx)
    &&& ctx.enum_definitions@.len() == api.global_enums@.len()
}

/// What the central files are made of.
pub open spec fn central_items(api: ExtensionApi, build_config: Seq<char>, ctx: Context) -> Items {
    let types = types_of(api);
    let list = by_value(types);
    let operators = operators_of(named_enum(api.global_enums@, "Variant.Operator"@)->0.values@);
    Items {
        opaque_types: opaque_types(sizes_for(api.builtin_class_sizes@, build_config)),
        type_names: enumerator_names(list),
        type_rust: rust_types(list, ctx),
        type_ords: ordinals(list),
        operator_names: operator_names(operators),
        operator_ords: operator_ordinals(operators),
        declarations: declaration_parts(list, types),
        initialisations: initialisation_parts(list, types),
        enum_definitions: definitions_of(api.global_enums@, streams(ctx.enum_definitions@)),
    }
}

/// The parts of the files on the given types.
fn make_type_items(
    list: &Vec<&BuiltinTypeInfo>,
    builtin_types: &BuiltinTypes,
    ctx: &Context,
) -> (r: (Vec<String>, Vec<TokenStream>, Vec<i32>, Vec<TokenStream>, Vec<TokenStream>))
    requires
        types_ok(infos(list@), builtin_types@),
        types_given(infos(list@), *ctx),
    ensures
        texts(r.0@) == enumerator_names(infos(list@)),
        streams(r.1@) == rust_types(infos(list@), *ctx),
        r.2@ == ordinals(infos(list@)),
        streams(r.3@) == declaration_parts(infos(list@), builtin_types@),
        streams(r.4@) == initialisation_parts(infos(list@), builtin_types@),
        all_idents(texts(r.0@)),
{
    let mut pascal_names: Vec<String> = Vec::new();
    let mut rust_tys: Vec<TokenStream> = Vec::new();
    let mut ords: Vec<i32> = Vec::new();
    let mut all_decls: Vec<TokenStream> = Vec::new();
    let mut all_inits: Vec<TokenStream> = Vec::new();
    let ghost all = infos(list@);
    let ghost types = builtin_types@;
    assert(texts(pascal_names@) =~= enumerator_names(all.take(0)));
    assert(streams(rust_tys@) =~= rust_types(all.take(0), *ctx));
    assert(ords@ =~= ordinals(all.take(0)));
    assert(streams(all_decls@) =~= declaration_parts(all.take(0), types));
    assert(streams(all_inits@) =~= initialisation_parts(all.take(0), types));
    // Note: NIL is not part of this iteration, it is added to the code by itself
    for i in 0..list.len()
        invariant
            all == infos(list@),
            types == builtin_types@,
            types_ok(all, types),
            types_given(all, *ctx),
            texts(pascal_names@) == enumerator_names(all.take(i as int)),
            streams(rust_tys@) == rust_types(all.take(i as int), *ctx),
            ords@ == ordinals(all.take(i as int)),
            streams(all_decls@) == declaration_parts(all.take(i as int), types),
            streams(all_inits@) == initialisation_parts(all.take(i as int), types),
            all_idents(texts(pascal_names@)),
    {
        let ty = list[i];
        let ghost info = all[i as int];
        assert(info == ty@);
        assert(type_ok(all[i as int], types));
        let (decls, inits) = make_variant_fns(
            &ty.type_names,
            ty.has_destructor,
            ty.constructors,
            ty.operators,
            builtin_types,
        );
        let (pascal_name, rust_ty, ord) = make_enumerator(&ty.type_names, ty.value, ctx);
        let ghost names = texts(pascal_names@);
        let ghost rust = streams(rust_tys@);
        let ghost declared = streams(all_decls@);
        let ghost initialised = streams(all_inits@);
        pascal_names.push(pascal_name);
        rust_tys.push(rust_ty);
        ords.push(ord);
        all_decls.push(decls);
        all_inits.push(inits);
        proof {
            assert(all.take(i + 1) =~= all.take(i as int).push(info));
            assert(texts(pascal_names@) =~= names.push(pascal_name@));
            assert(texts(pascal_names@) =~= enumerator_names(all.take(i + 1)));
            assert(streams(rust_tys@) =~= rust.push(tokens_of(rust_ty)));
            assert(streams(rust_tys@) =~= rust_types(all.take(i + 1), *ctx));
            assert(ords@ =~= ordinals(all.take(i + 1)));
            assert(streams(all_decls@) =~= declared.push(tokens_of(decls)));
            assert(streams(all_decls@) =~= declaration_parts(all.take(i + 1), types));
            assert(streams(all_inits@) =~= initialised.push(tokens_of(inits)));
            assert(streams(all_inits@) =~= initialisation_parts(all.take(i + 1), types));
        }
    }
    assert(all.take(all.len() as int) =~= all);
    (pascal_names, rust_tys, ords, all_decls, all_inits)
}

/// The names and the ordinals of the operators.
fn make_operator_items(values: &Vec<&Constant>) -> (r: (Vec<String>, Vec<i32>))
    requires
        operator_constants_ok(constants(values@)),
    ensures
        texts(r.0@) == operator_names(operators_of(constants(values@))),
        r.1@ == operator_ordinals(operators_of(constants(values@))),
        all_idents(texts(r.0@)),
{
    let mut names: Vec<String> = Vec::new();
    let mut ords: Vec<i32> = Vec::new();
    let ghost all = constants(values@);
    proof {
        reveal(Seq::filter);
        assert(texts(names@) =~= operator_names(operators_of(all.take(0))));
        assert(ords@ =~= operator_ordinals(operators_of(all.take(0))));
    }
    for i in 0..values.len()
        invariant
            all == constants(values@),
            operator_constants_ok(all),
            texts(names@) == operator_names(operators_of(all.take(i as int))),
            ords@ == operator_ordinals(operators_of(all.take(i as int))),
            all_idents(texts(names@)),
    {
        let op = values[i];
        let ghost before = operators_of(all.take(i as int));
        let ghost after = operators_of(all.take(i + 1));
        proof {
            reveal(Seq::filter);
            assert(operator_constant_ok(all[i as int]));
            assert(all.take(i + 1).drop_last() =~= all.take(i as int));
            assert(after == if is_operator(*op) {
                before.push(*op)
            } else {
                before
            });
        }
        if let Some(name) = strip_prefix(op.name.as_str(), "OP_") {
            if !same_text(name, "MAX") {
                let ghost done = texts(names@);
                let pascal_name = shout_to_pascal(name);
                names.push(pascal_name);
                ords.push(op.value);
                proof {
                    assert(texts(names@) =~= done.push(pascal_name@));
                    assert(texts(names@) =~= operator_names(after));
                    assert(ords@ =~= operator_ordinals(after));
                }
            }
        }
    }
    assert(all.take(all.len() as int) =~= all);
    (names, ords)
}

/// The definitions of the global enums that are not handled explicitly.
fn make_enum_items(api: &ExtensionApi, ctx: &Context) -> (out: Vec<TokenStream>)
    requires
        ctx.enum_definitions@.len() == api.global_enums@.len(),
    ensures
        streams(out@) == definitions_of(api.global_enums@, streams(ctx.enum_definitions@)),
{
    let mut out: Vec<TokenStream> = Vec::new();
    let ghost enums = api.global_enums@;
    let ghost definitions = streams(ctx.enum_definitions@);
    assert(streams(out@) =~= definitions_of(enums.take(0), definitions));
    for i in 0..api.global_enums.len()
        invariant
            enums == api.global_enums@,
            definitions == streams(ctx.enum_definitions@),
            ctx.enum_definitions@.len() == api.global_enums@.len(),
            streams(out@) == definitions_of(enums.take(i as int), definitions),
    {
        assert(enums.take(i + 1).drop_last() =~= enums.take(i as int));
        // Skip those enums which are already explicitly handled
        if !is_handled_explicitly(api.global_enums[i].name.as_str()) {
            let ghost before = streams(out@);
            let mut def = TokenStream::new();
            push_stream(&mut def, &ctx.enum_definitions[i]);
            assert(tokens_of(def) =~= definitions[i as int]);
            out.push(def);
            assert(streams(out@) =~= before.push(definitions[i as int]));
        }
    }
    assert(enums.take(enums.len() as int) =~= enums);
    out
}

/// Gathers what the central files are made of.
pub fn make_central_items(api: &ExtensionApi, build_config: &str, ctx: &Context) -> (items:
    CentralItems)
    requires
        api_ok(*api, build_config@),
        context_ok(*api, *ctx),
    ensures
        items@ == central_items(*api, build_config@, *ctx),
        aligned(items@),
        sys_items_ok(items@),
        core_items_ok(items@),
{
    let opaque_types = make_opaque_types(api, build_config);
    let class_map = collect_builtin_classes(api);
    let builtin_types_map = collect_builtin_types(api, &class_map);
    let variant_operators = collect_variant_operators(api);
    let builtin_types = sort_by_value(&builtin_types_map);
    let (type_names, type_rust, type_ords, decls, inits) = make_type_items(
        &builtin_types,
        &builtin_types_map,
        ctx,
    );
    let (op_names, op_ords) = make_operator_items(&variant_operators);
    let global_enum_defs = make_enum_items(api, ctx);
    let result = CentralItems {
        opaque_types,
        variant_ty_enumerators_pascal: type_names,
        variant_ty_enumerators_rust: type_rust,
        variant_ty_enumerators_ord: type_ords,
        variant_op_enumerators_pascal: op_names,
        variant_op_enumerators_ord: op_ords,
        variant_fn_decls: decls,
        variant_fn_inits: inits,
        global_enum_defs,
    };
    assert(result@.type_names.len() == result@.type_rust.len());
    result
}

} // verus!
