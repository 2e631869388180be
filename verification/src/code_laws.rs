//! What the two files say of the items that they are made of.

use crate::api::{BuiltinClass, Constant, ExtensionApi};
use crate::code::{
    CentralItems, Items, core_tokens, dispatch_arm, dispatch_arms, dispatch_enum, dispatch_impl,
    dispatch_variant, dispatch_variants, enumerator, enumerators, ffi_impl, from_ord_arm,
    from_ord_arms, from_ord_body, global_module, nil_arm, no_such_ord, ord_enum, ord_impl,
    sys_import, sys_imports, sys_tokens, table_impl, table_new_fn, table_struct, table_value, texts,
    try_from_variant_body, try_from_variant_fn, types_module, variant_operator, variant_type,
};
use crate::generate::{Output, OutputFile, Target, central_files, outputs, pascal_names};
use crate::items::{Context, central_items};
use crate::tokens::{
    Delimiter, Spacing, Token, braces, flat, integer, joint, mark, parens, rendered, streams,
    tokens_of, word,
};
use crate::types::{BuiltinTypeInfo, TypeInfo, TypeNames, constants, infos, referents};
use proc_macro2::TokenStream;
use vstd::prelude::*;

verus! {

// ---- one entry ----

/// An enumerator is its name, `=`, its ordinal and a comma; the arm for its ordinal is that
/// ordinal, `=>`, `Self::`, its name and a comma.
pub proof fn law_enumerator(name: Seq<char>, ord: i32)
    ensures
        ({
            let literal = integer(ord as int, Seq::empty());
            let n = literal.len() as int;
            let e = enumerator(name, ord);
            let arm = from_ord_arm(name, ord);
            &&& e.len() == n + 3
            &&& e[0] == Token::Ident(name)
            &&& e[1] == Token::Punct('=', Spacing::Alone)
            &&& e.subrange(2, n + 2) == literal
            &&& e[n + 2] == Token::Punct(',', Spacing::Alone)
            &&& arm.len() == n + 7
            &&& arm.take(n) == literal
            &&& arm[n] == Token::Punct('=', Spacing::Joint)
            &&& arm[n + 1] == Token::Punct('>', Spacing::Alone)
            &&& arm[n + 2] == Token::Ident("Self"@)
            &&& arm[n + 3] == Token::Punct(':', Spacing::Joint)
            &&& arm[n + 4] == Token::Punct(':', Spacing::Alone)
            &&& arm[n + 5] == Token::Ident(name)
            &&& arm[n + 6] == Token::Punct(',', Spacing::Alone)
        }),
{
    let literal = integer(ord as int, Seq::empty());
    let n = literal.len() as int;
    assert(enumerator(name, ord).subrange(2, n + 2) =~= literal);
    assert(from_ord_arm(name, ord).take(n) =~= literal);
}

/// The variant of a type is its name, its Rust type in parentheses and a comma. The arm that makes
/// it has the name twice, and asks for a value of that Rust type.
pub proof fn law_dispatch(name: Seq<char>, rust: Seq<Token>, other: Seq<char>, another: Seq<Token>)
    ensures
        ({
            let v = dispatch_variant(name, rust);
            let arm = dispatch_arm(name, rust);
            &&& v.len() == 3
            &&& v[0] == Token::Ident(name)
            &&& v[1] == Token::Group(Delimiter::Parenthesis, rust)
            &&& v[2] == Token::Punct(',', Spacing::Alone)
            &&& arm.len() == 12
            &&& arm[3] == Token::Ident(name)
            &&& arm[9] == Token::Ident(name)
            &&& arm[10] matches Token::Group(delimiter, inner) && {
                &&& delimiter == Delimiter::Parenthesis
                &&& inner.len() == rust.len() + 8
                &&& inner.take(6) == seq![
                    word("variant"), mark('.'), word("to"), joint(':'), mark(':'), mark('<'),
                ]
                &&& inner.subrange(6, rust.len() as int + 6) == rust
                &&& inner[rust.len() as int + 6] == Token::Punct('>', Spacing::Alone)
                &&& inner[rust.len() as int + 7] == Token::Group(
                    Delimiter::Parenthesis,
                    Seq::empty(),
                )
            }
            &&& forall|i: int|
                0 <= i < 12 && i != 3 && i != 9 && i != 10 ==> #[trigger] arm[i] == dispatch_arm(
                    other,
                    another,
                )[i]
        }),
{
    let inner = seq![word("variant"), mark('.'), word("to"), joint(':'), mark(':'), mark('<')]
        + rust + seq![mark('>'), parens(seq![])];
    assert(dispatch_arm(name, rust)[10] == parens(inner));
    assert(inner.take(6) =~= seq![
        word("variant"), mark('.'), word("to"), joint(':'), mark(':'), mark('<'),
    ]);
    assert(inner.subrange(6, rust.len() as int + 6) =~= rust);
}

// ---- an entry for each ----

/// Every name that has an ordinal has its enumerator and its arm, at its place.
pub proof fn law_enumerators(names: Seq<Seq<char>>, ords: Seq<i32>)
    ensures
        enumerators(names, ords).len() <= names.len(),
        enumerators(names, ords).len() <= ords.len(),
        enumerators(names, ords).len() == names.len() || enumerators(names, ords).len()
            == ords.len(),
        from_ord_arms(names, ords).len() == enumerators(names, ords).len(),
        forall|i: int|
            0 <= i < enumerators(names, ords).len() ==> {
                &&& #[trigger] enumerators(names, ords)[i] == enumerator(names[i], ords[i])
                &&& from_ord_arms(names, ords)[i] == from_ord_arm(names[i], ords[i])
            },
{
}

/// Every name that has a Rust type has its variant and its arm, at its place.
pub proof fn law_dispatches(names: Seq<Seq<char>>, rust: Seq<Seq<Token>>)
    ensures
        dispatch_variants(names, rust).len() <= names.len(),
        dispatch_variants(names, rust).len() <= rust.len(),
        dispatch_variants(names, rust).len() == names.len() || dispatch_variants(
            names,
            rust,
        ).len() == rust.len(),
        dispatch_arms(names, rust).len() == dispatch_variants(names, rust).len(),
        forall|i: int|
            0 <= i < dispatch_variants(names, rust).len() ==> {
                &&& #[trigger] dispatch_variants(names, rust)[i] == dispatch_variant(
                    names[i],
                    rust[i],
                )
                &&& dispatch_arms(names, rust)[i] == dispatch_arm(names[i], rust[i])
            },
{
}

// ---- the parts of the files ----

/// An enum with ordinals holds its enumerators, all of them and nothing else, in the braces at its
/// end; what stands before them does not depend on them.
pub proof fn law_ord_enum(name: &str, inner: Seq<Token>, other: Seq<Token>)
    ensures
        ord_enum(name, inner).len() == ord_enum(name, other).len() > 0,
        ord_enum(name, inner).last() == Token::Group(Delimiter::Brace, inner),
        ord_enum(name, inner).drop_last() == ord_enum(name, other).drop_last(),
{
    assert(ord_enum(name, inner).drop_last() =~= ord_enum(name, other).drop_last());
}

/// The group at a place of a list of tokens.
pub open spec fn inside(tokens: Seq<Token>, i: int) -> Seq<Token> {
    tokens[i]->Group_1
}

/// `from_ord` has the arms, all of them, before the arm for any other ordinal, which is the same
/// whatever the arms are, as is all else.
pub proof fn law_ord_impl(
    name: &str,
    ffi: &str,
    message: &str,
    arms: Seq<Token>,
    other: Seq<Token>,
)
    ensures
        ({
            let methods = inside(ord_impl(name, ffi, arms, message), 2);
            let methods_of_other = inside(ord_impl(name, ffi, other, message), 2);
            let body = inside(methods, 9);
            let body_of_other = inside(methods_of_other, 9);
            let fallback = inside(body, 2).skip(arms.len() as int);
            &&& ord_impl(name, ffi, arms, message) == ord_impl(
                name,
                ffi,
                other,
                message,
            ).update(2, Token::Group(Delimiter::Brace, methods))
            &&& methods == methods_of_other.update(9, Token::Group(Delimiter::Brace, body))
            &&& body == body_of_other.update(
                2,
                Token::Group(Delimiter::Brace, inside(body, 2)),
            )
            &&& inside(body, 2).take(arms.len() as int) == arms
            &&& fallback == inside(body_of_other, 2).skip(other.len() as int)
            &&& fallback.len() == 6
            &&& fallback[0] == Token::Ident("_"@)
            &&& fallback[3] == Token::Ident("unreachable"@)
            &&& fallback[4] == Token::Punct('!', Spacing::Alone)
        }),
{
    let end = no_such_ord(message);
    assert((arms + end).take(arms.len() as int) =~= arms);
    assert((arms + end).skip(arms.len() as int) =~= end);
    assert((other + end).skip(other.len() as int) =~= end);
    let methods = inside(ord_impl(name, ffi, arms, message), 2);
    let methods_of_other = inside(ord_impl(name, ffi, other, message), 2);
    let body = from_ord_body(arms + end);
    let body_of_other = from_ord_body(other + end);
    assert(methods[9] == braces(body));
    assert(methods_of_other[9] == braces(body_of_other));
    assert(inside(methods, 9) == body);
    assert(inside(methods_of_other, 9) == body_of_other);
    assert(inside(body, 2) == arms + end);
    assert(inside(body_of_other, 2) == other + end);
    assert(body =~= body_of_other.update(2, Token::Group(Delimiter::Brace, inside(body, 2))));
    assert(methods =~= methods_of_other.update(9, Token::Group(Delimiter::Brace, body)));
    assert(ord_impl(name, ffi, arms, message) =~= ord_impl(name, ffi, other, message).update(
        2,
        Token::Group(Delimiter::Brace, methods),
    ));
}

/// The enum of variant types is made of the enumerator `Nil`, which is 0, and those of the types;
/// the enum of operators, of those of the operators alone. Their arms are made alike.
pub proof fn law_enums_with_ordinals(items: Items)
    ensures
        variant_type(items) == ord_enum(
            "VariantType",
            enumerator("Nil"@, 0) + flat(enumerators(items.type_names, items.type_ords)),
        ) + ord_impl(
            "VariantType",
            "GDNativeVariantType",
            from_ord_arm("Nil"@, 0) + flat(from_ord_arms(items.type_names, items.type_ords)),
            "invalid variant type {}",
        ) + ffi_impl("VariantType"),
        variant_operator(items) == ord_enum(
            "VariantOperator",
            flat(enumerators(items.operator_names, items.operator_ords)),
        ) + ord_impl(
            "VariantOperator",
            "GDNativeVariantOperator",
            flat(from_ord_arms(items.operator_names, items.operator_ords)),
            "invalid variant operator {}",
        ) + ffi_impl("VariantOperator"),
{
    let enumerated = flat(enumerators(items.operator_names, items.operator_ords));
    let arms = flat(from_ord_arms(items.operator_names, items.operator_ords));
    assert(Seq::<Token>::empty() + enumerated =~= enumerated);
    assert(Seq::<Token>::empty() + arms =~= arms);
}

/// The module of opaque types holds all of them, the table's type all declarations, and its
/// constructor all initialisations; nothing else in them depends on the items.
pub proof fn law_table(a: Seq<Seq<Token>>, b: Seq<Seq<Token>>)
    ensures
        types_module(a) == types_module(b).update(3, Token::Group(Delimiter::Brace, flat(a))),
        table_struct(a) == table_struct(b).update(3, Token::Group(Delimiter::Brace, flat(a))),
        types_module(a)[3] == Token::Group(Delimiter::Brace, flat(a)),
        table_struct(a)[3] == Token::Group(Delimiter::Brace, flat(a)),
        ({
            let method = inside(table_impl(a), 2);
            let method_of_b = inside(table_impl(b), 2);
            let body = inside(method, 9);
            &&& table_impl(a) == table_impl(b).update(2, Token::Group(Delimiter::Brace, method))
            &&& method == method_of_b.update(9, Token::Group(Delimiter::Brace, body))
            &&& body == seq![Token::Ident("Self"@), Token::Group(Delimiter::Brace, flat(a))]
        }),
{
    assert(types_module(a) =~= types_module(b).update(3, braces(flat(a))));
    assert(table_struct(a) =~= table_struct(b).update(3, braces(flat(a))));
    let method = table_new_fn(a);
    let method_of_b = table_new_fn(b);
    assert(inside(table_impl(a), 2) == method);
    assert(inside(table_impl(b), 2) == method_of_b);
    let body = table_value(a);
    assert(inside(method, 9) == body);
    assert(body =~= seq![Token::Ident("Self"@), Token::Group(Delimiter::Brace, flat(a))]);
    assert(method =~= method_of_b.update(9, braces(body)));
    assert(table_impl(a) =~= table_impl(b).update(2, braces(method)));
}

/// The enum over variant types is `Nil` and the variants, and the `match` over variant types is
/// the arm of `Nil` and the others; nothing else in them depends on the items. The module of
/// global enums holds its import and all definitions.
pub proof fn law_dispatch_parts(a: Seq<Token>, b: Seq<Token>, definitions: Seq<Seq<Token>>)
    ensures
        dispatch_enum(a).len() == 6,
        dispatch_enum(a).drop_last() == dispatch_enum(b).drop_last(),
        dispatch_enum(a)[5] == Token::Group(
            Delimiter::Brace,
            seq![Token::Ident("Nil"@), Token::Punct(',', Spacing::Alone)] + a,
        ),
        ({
            let method = inside(dispatch_impl(a), 6);
            let method_of_b = inside(dispatch_impl(b), 6);
            let body = inside(method, 11);
            let body_of_b = inside(method_of_b, 11);
            let arms = inside(body, 8);
            &&& dispatch_impl(a) == dispatch_impl(b).update(
                6,
                Token::Group(Delimiter::Brace, method),
            )
            &&& method == method_of_b.update(11, Token::Group(Delimiter::Brace, body))
            &&& body == body_of_b.update(8, Token::Group(Delimiter::Brace, arms))
            &&& arms.len() == 11 + a.len()
            &&& arms.skip(11) == a
            &&& arms.take(11) == inside(body_of_b, 8).take(11)
        }),
        global_module(definitions)[3] matches Token::Group(delimiter, inner) && {
            &&& delimiter == Delimiter::Brace
            &&& inner.len() == 6 + flat(definitions).len()
            &&& inner.skip(6) == flat(definitions)
            &&& inner.take(6) == sys_import()
        },
        global_module(definitions).len() == 4,
        forall|i: int, other: Seq<Seq<Token>>|
            0 <= i < 3 ==> #[trigger] global_module(other)[i] == global_module(definitions)[i],
{
    assert(dispatch_enum(a).drop_last() =~= dispatch_enum(b).drop_last());
    assert(seq![word("Nil"), mark(',')] + a =~= seq![
        Token::Ident("Nil"@), Token::Punct(',', Spacing::Alone),
    ] + a);
    let nil = nil_arm();
    let method = try_from_variant_fn(a);
    let method_of_b = try_from_variant_fn(b);
    let body = try_from_variant_body(nil + a);
    let body_of_b = try_from_variant_body(nil + b);
    assert(inside(dispatch_impl(a), 6) == method);
    assert(inside(dispatch_impl(b), 6) == method_of_b);
    assert(inside(method, 11) == body);
    assert(inside(method_of_b, 11) == body_of_b);
    assert(inside(body, 8) == nil + a);
    assert(inside(body_of_b, 8) == nil + b);
    assert((nil + a).skip(11) =~= a);
    assert((nil + a).take(11) =~= nil);
    assert((nil + b).take(11) =~= nil);
    assert(body =~= body_of_b.update(8, braces(nil + a)));
    assert(method =~= method_of_b.update(11, braces(body)));
    assert(dispatch_impl(a) =~= dispatch_impl(b).update(6, braces(method)));
    let import = sys_import();
    assert((import + flat(definitions)).skip(6) =~= flat(definitions));
    assert((import + flat(definitions)).take(6) =~= import);
}

/// The file of the sys crate depends on the items only where it should: in the braces of the
/// opaque types, of the table's type and of its methods, and in those of the two enums and of
/// their methods. Each of these holds what the items say of it, all of it. All else is the same
/// for any items.
pub proof fn law_sys_file(items: Items, other: Items)
    ensures
        ({
            let file = sys_tokens(items);
            let types = enumerator("Nil"@, 0) + flat(
                enumerators(items.type_names, items.type_ords),
            );
            let type_arms = from_ord_arm("Nil"@, 0) + flat(
                from_ord_arms(items.type_names, items.type_ords),
            );
            let operators = flat(enumerators(items.operator_names, items.operator_ords));
            let operator_arms = flat(from_ord_arms(items.operator_names, items.operator_ords));
            &&& file.len() == 49
            &&& sys_tokens(other).len() == 49
            &&& file[9] == Token::Group(Delimiter::Brace, flat(items.opaque_types))
            &&& file[13] == Token::Group(Delimiter::Brace, flat(items.declarations))
            &&& file[16] == table_impl(items.initialisations)[2]
            &&& file[24] == Token::Group(Delimiter::Brace, types)
            &&& file[27] == ord_impl(
                "VariantType",
                "GDNativeVariantType",
                type_arms,
                "invalid variant type {}",
            )[2]
            &&& file[40] == Token::Group(Delimiter::Brace, operators)
            &&& file[43] == ord_impl(
                "VariantOperator",
                "GDNativeVariantOperator",
                operator_arms,
                "invalid variant operator {}",
            )[2]
            &&& forall|i: int|
                0 <= i < 49 && i != 9 && i != 13 && i != 16 && i != 24 && i != 27 && i != 40 && i
                    != 43 ==> #[trigger] file[i] == sys_tokens(other)[i]
        }),
{
    lemma_sys_parts(items);
    lemma_sys_parts(other);
}

proof fn lemma_sys_parts(items: Items)
    ensures
        ({
            let file = sys_tokens(items);
            let types = enumerator("Nil"@, 0) + flat(
                enumerators(items.type_names, items.type_ords),
            );
            let type_arms = from_ord_arm("Nil"@, 0) + flat(
                from_ord_arms(items.type_names, items.type_ords),
            );
            let operators = flat(enumerators(items.operator_names, items.operator_ords));
            let operator_arms = flat(from_ord_arms(items.operator_names, items.operator_ords));
            let head = sys_imports() + types_module(Seq::empty()) + table_struct(Seq::empty())
                + table_impl(Seq::empty());
            let type_head = ord_enum("VariantType", Seq::empty()) + ord_impl(
                "VariantType",
                "GDNativeVariantType",
                Seq::empty(),
                "invalid variant type {}",
            ) + ffi_impl("VariantType");
            let operator_head = ord_enum("VariantOperator", Seq::empty()) + ord_impl(
                "VariantOperator",
                "GDNativeVariantOperator",
                Seq::empty(),
                "invalid variant operator {}",
            ) + ffi_impl("VariantOperator");
            file =~= (head + type_head + operator_head).update(
                9,
                braces(flat(items.opaque_types)),
            ).update(13, braces(flat(items.declarations))).update(
                16,
                table_impl(items.initialisations)[2],
            ).update(24, braces(types)).update(
                27,
                ord_impl(
                    "VariantType",
                    "GDNativeVariantType",
                    type_arms,
                    "invalid variant type {}",
                )[2],
            ).update(40, braces(operators)).update(
                43,
                ord_impl(
                    "VariantOperator",
                    "GDNativeVariantOperator",
                    operator_arms,
                    "invalid variant operator {}",
                )[2],
            ) && file.len() == 49
        }),
{
    law_enums_with_ordinals(items);
}

/// The file of the core crate depends on the items only where it should: in the braces of the enum
/// over variant types, of the conversion to it, and of the global enums. All else is the same for
/// any items.
pub proof fn law_core_file(items: Items, other: Items)
    ensures
        ({
            let file = core_tokens(items);
            &&& file.len() == 44
            &&& core_tokens(other).len() == 44
            &&& file[32] == Token::Group(
                Delimiter::Brace,
                seq![Token::Ident("Nil"@), Token::Punct(',', Spacing::Alone)] + flat(
                    dispatch_variants(items.type_names, items.type_rust),
                ),
            )
            &&& file[39] == dispatch_impl(
                flat(dispatch_arms(items.type_names, items.type_rust)),
            )[6]
            &&& file[43] == global_module(items.enum_definitions)[3]
            &&& forall|i: int|
                0 <= i < 44 && i != 32 && i != 39 && i != 43 ==> #[trigger] file[i]
                    == core_tokens(other)[i]
        }),
{
    let variants = flat(dispatch_variants(items.type_names, items.type_rust));
    law_dispatch_parts(variants, variants, items.enum_definitions);
}

/// There are two files, both called `central.rs`: first that of the sys crate, then that of the
/// core crate, each the text of its tokens.
pub proof fn law_central_files(api: ExtensionApi, ctx: Context, build_config: Seq<char>)
    ensures
        ({
            let files = central_files(api, ctx, build_config);
            let items = central_items(api, build_config, ctx);
            &&& files.len() == 2
            &&& files[0].target == Target::Sys
            &&& files[0].name == "central.rs"@
            &&& files[0].code == rendered(sys_tokens(items))
            &&& files[1].target == Target::Core
            &&& files[1].name == "central.rs"@
            &&& files[1].code == rendered(core_tokens(items))
        }),
{
}

// ---- what stands for what ----

/// A list of strings, of streams, of references or of files stands for what each of them holds, in
/// the same order, with nothing left out.
pub proof fn law_lists(
    strings: Seq<String>,
    list: Seq<TokenStream>,
    files: Seq<OutputFile>,
    types: Seq<&BuiltinTypeInfo>,
    enumerators: Seq<&Constant>,
    infos_of: Seq<TypeInfo>,
)
    ensures
        texts(strings).len() == strings.len(),
        forall|i: int| 0 <= i < strings.len() ==> #[trigger] texts(strings)[i] == strings[i]@,
        streams(list).len() == list.len(),
        forall|i: int| 0 <= i < list.len() ==> #[trigger] streams(list)[i] == tokens_of(list[i]),
        outputs(files).len() == files.len(),
        forall|i: int|
            0 <= i < files.len() ==> #[trigger] outputs(files)[i] == (Output {
                target: files[i].target,
                name: files[i].name@,
                code: files[i].code@,
            }),
        infos(types).len() == types.len(),
        forall|i: int| 0 <= i < types.len() ==> #[trigger] infos(types)[i] == types[i]@,
        constants(enumerators).len() == enumerators.len(),
        forall|i: int|
            0 <= i < enumerators.len() ==> #[trigger] constants(enumerators)[i]
                == *enumerators[i],
        pascal_names(infos_of).len() == infos_of.len(),
        forall|i: int|
            0 <= i < infos_of.len() ==> #[trigger] pascal_names(infos_of)[i]
                == infos_of[i].names.pascal_case,
{
}

/// The items, the names and what is known of a type stand for what their fields hold.
pub proof fn law_views(items: CentralItems, names: TypeNames, info: BuiltinTypeInfo)
    ensures
        items@.opaque_types == streams(items.opaque_types@),
        items@.type_names == texts(items.variant_ty_enumerators_pascal@),
        items@.type_rust == streams(items.variant_ty_enumerators_rust@),
        items@.type_ords == items.variant_ty_enumerators_ord@,
        items@.operator_names == texts(items.variant_op_enumerators_pascal@),
        items@.operator_ords == items.variant_op_enumerators_ord@,
        items@.declarations == streams(items.variant_fn_decls@),
        items@.initialisations == streams(items.variant_fn_inits@),
        items@.enum_definitions == streams(items.global_enum_defs@),
        names@.pascal_case == names.pascal_case@,
        names@.snake_case == names.snake_case@,
        names@.sys_variant_type == names.sys_variant_type@,
        info@.value == info.value,
        info@.names == info.type_names@,
        info@.has_destructor == info.has_destructor,
        info@.constructors is Some <==> info.constructors is Some,
        info.constructors matches Some(list) ==> info@.constructors == Some(list@),
        info@.operators is Some <==> info.operators is Some,
        info.operators matches Some(list) ==> info@.operators == Some(list@),
{
}

/// A map of references stands for a map of what they refer to.
pub proof fn law_referents(m: Map<Seq<char>, &BuiltinClass>, key: Seq<char>)
    ensures
        referents(m).contains_key(key) <==> m.contains_key(key),
        m.contains_key(key) ==> referents(m)[key] == *m[key],
{
}

} // verus!
