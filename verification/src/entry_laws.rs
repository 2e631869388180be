//! What becomes of each entry of an interface description.

use crate::api::{BuiltinClass, ClassSizes, Constant, Enum, ExtensionApi, named_enum};
use crate::code::Items;
use crate::fields::{declarations, initialisations, variant_fields};
use crate::generate::pascal_names;
use crate::items::{
    Context, central_items, definitions_of, is_explicit, is_operator, opaque_type, operator_name,
    operators_of, sizes_for, types_of,
};
use crate::laws::{
    law_enumerators_have_types, law_integers_can_be_told_apart, law_last_class_is_found,
    law_listing_keeps_types, law_no_sizes, law_types_come_from_enumerators,
};
use crate::text::{capitalized, lower, pascal, without_underscores};
use crate::tokens::{Spacing, Token, decimal, integer, streams, tokens_of};
use crate::types::{
    Names, TypeInfo, by_value, class_key, classes_by_name, find_type, is_builtin_type, lemma_slot,
    shout_name, slot, type_info, type_table,
};
use vstd::prelude::*;

verus! {

// ---- what is looked for ----

/// Of several enums under one name the first one is found.
pub proof fn law_first_enum_is_found(enums: Seq<Enum>, name: Seq<char>, n: int)
    requires
        0 <= n < enums.len(),
        enums[n].name@ == name,
        forall|j: int| 0 <= j < n ==> (#[trigger] enums[j]).name@ != name,
    ensures
        named_enum(enums, name) == Some(enums[n]),
    decreases enums.len(),
{
    if n > 0 {
        assert(enums[0].name@ != name);
        let rest = enums.skip(1);
        assert(rest[n - 1] == enums[n]);
        assert forall|j: int| 0 <= j < n - 1 implies (#[trigger] rest[j]).name@ != name by {
            assert(enums[j + 1].name@ != name);
        }
        law_first_enum_is_found(rest, name, n - 1);
    }
}

/// Where no enum has the name, none is found.
pub proof fn law_no_enum_is_found(enums: Seq<Enum>, name: Seq<char>)
    requires
        forall|j: int| 0 <= j < enums.len() ==> (#[trigger] enums[j]).name@ != name,
    ensures
        named_enum(enums, name) is None,
    decreases enums.len(),
{
    if enums.len() > 0 {
        assert(enums[0].name@ != name);
        let rest = enums.skip(1);
        assert forall|j: int| 0 <= j < rest.len() implies (#[trigger] rest[j]).name@ != name by {
            assert(enums[j + 1].name@ != name);
        }
        law_no_enum_is_found(rest, name);
    }
}

/// The sizes are those of the first entry for the build configuration.
pub proof fn law_sizes_of_first_entry(
    entries: Seq<ClassSizes>,
    build_config: Seq<char>,
    n: int,
)
    requires
        0 <= n < entries.len(),
        entries[n].build_configuration@ == build_config,
        forall|j: int|
            0 <= j < n ==> (#[trigger] entries[j]).build_configuration@ != build_config,
    ensures
        sizes_for(entries, build_config) == entries[n].sizes@,
    decreases entries.len(),
{
    if n > 0 {
        assert(entries[0].build_configuration@ != build_config);
        let rest = entries.skip(1);
        assert(rest[n - 1] == entries[n]);
        assert forall|j: int| 0 <= j < n - 1 implies (#[trigger] rest[j]).build_configuration@
            != build_config by {
            assert(entries[j + 1].build_configuration@ != build_config);
        }
        law_sizes_of_first_entry(rest, build_config, n - 1);
    }
}

/// A class is found under a key exactly where the lower case of some class's name is that key.
pub proof fn law_class_keys(classes: Seq<BuiltinClass>, key: Seq<char>)
    ensures
        classes_by_name(classes).contains_key(key) <==> exists|m: int|
            0 <= m < classes.len() && lower((#[trigger] classes[m]).name@) == key,
    decreases classes.len(),
{
    if classes.len() > 0 {
        let rest = classes.drop_last();
        law_class_keys(rest, key);
        assert(classes[classes.len() - 1] == classes.last());
        if exists|m: int| 0 <= m < rest.len() && lower((#[trigger] rest[m]).name@) == key {
            let m = choose|m: int| 0 <= m < rest.len() && lower((#[trigger] rest[m]).name@) == key;
            assert(lower(classes[m].name@) == key);
        }
        if exists|m: int| 0 <= m < classes.len() && lower((#[trigger] classes[m]).name@) == key {
            let m = choose|m: int|
                0 <= m < classes.len() && lower((#[trigger] classes[m]).name@) == key;
            if m < rest.len() {
                assert(lower(rest[m].name@) == key);
            }
        }
    }
}

/// The type of a name is found wherever a type of that name is listed: the first of them.
pub proof fn law_types_are_found(table: Seq<TypeInfo>, name: Seq<char>)
    ensures
        match find_type(table, name) {
            Some(info) => exists|i: int|
                {
                    &&& 0 <= i < table.len()
                    &&& #[trigger] table[i] == info
                    &&& info.names.pascal_case == name
                    &&& forall|j: int|
                        0 <= j < i ==> (#[trigger] table[j]).names.pascal_case != name
                },
            None => forall|i: int|
                0 <= i < table.len() ==> (#[trigger] table[i]).names.pascal_case != name,
        },
{
    lemma_slot(table, name, 0);
    if find_type(table, name) is Some {
        assert(table[slot(table, name, 0)] == find_type(table, name)->0);
    }
}

// ---- opaque types ----

/// The definition of an opaque type names the type and its size: the third token is `Opaque` and
/// the capitalised name, and the one behind `Opaque <` is the size in decimal digits with the
/// suffix `usize`. The others are the same for all types.
pub proof fn law_opaque_type(name: Seq<char>, size: usize)
    ensures
        opaque_type(name, size).len() == 15,
        opaque_type(name, size)[2] == Token::Ident("Opaque"@ + capitalized(name)),
        opaque_type(name, size)[10] == Token::Ident("Opaque"@),
        opaque_type(name, size)[11] == Token::Punct('<', Spacing::Alone),
        opaque_type(name, size)[12] == Token::Literal(decimal(size as nat) + "usize"@),
        opaque_type(name, size)[13] == Token::Punct('>', Spacing::Alone),
        forall|other: Seq<char>, n: usize, i: int|
            0 <= i < 15 && i != 2 && i != 12 ==> #[trigger] opaque_type(other, n)[i]
                == opaque_type(name, size)[i],
{
    assert forall|other: Seq<char>, n: usize, i: int|
        0 <= i < 15 && i != 2 && i != 12 implies #[trigger] opaque_type(other, n)[i]
        == opaque_type(name, size)[i] by {
        assert(opaque_type(other, n).len() == 15);
    }
}

/// Definitions of opaque types for two sizes differ.
pub proof fn law_opaque_sizes_can_be_told_apart(name: Seq<char>, a: usize, b: usize)
    requires
        opaque_type(name, a) == opaque_type(name, b),
    ensures
        a == b,
{
    law_opaque_type(name, a);
    law_opaque_type(name, b);
    let x = integer(a as int, "usize"@);
    let y = integer(b as int, "usize"@);
    assert(x[0] == opaque_type(name, a)[12]);
    assert(y[0] == opaque_type(name, b)[12]);
    assert(x =~= y);
    law_integers_can_be_told_apart(a as int, b as int, "usize"@);
}

/// Each type whose size the first entry for the build configuration gives has its opaque type, at
/// its place, and there are no others.
pub proof fn law_sizes_become_opaque_types(
    api: ExtensionApi,
    build_config: Seq<char>,
    ctx: Context,
    n: int,
)
    requires
        0 <= n < api.builtin_class_sizes@.len(),
        api.builtin_class_sizes@[n].build_configuration@ == build_config,
        forall|j: int|
            0 <= j < n ==> (#[trigger] api.builtin_class_sizes@[j]).build_configuration@
                != build_config,
    ensures
        ({
            let sizes = api.builtin_class_sizes@[n].sizes@;
            let types = central_items(api, build_config, ctx).opaque_types;
            &&& types.len() == sizes.len()
            &&& forall|i: int|
                0 <= i < sizes.len() ==> {
                    &&& (#[trigger] types[i])[2] == Token::Ident(
                        "Opaque"@ + capitalized(sizes[i].name@),
                    )
                    &&& types[i][12] == Token::Literal(decimal(sizes[i].size as nat) + "usize"@)
                    &&& types[i] == opaque_type(sizes[i].name@, sizes[i].size)
                }
        }),
{
    law_sizes_of_first_entry(api.builtin_class_sizes@, build_config, n);
    let sizes = api.builtin_class_sizes@[n].sizes@;
    let types = central_items(api, build_config, ctx).opaque_types;
    assert forall|i: int| 0 <= i < sizes.len() implies {
        &&& (#[trigger] types[i])[2] == Token::Ident("Opaque"@ + capitalized(sizes[i].name@))
        &&& types[i][12] == Token::Literal(decimal(sizes[i].size as nat) + "usize"@)
        &&& types[i] == opaque_type(sizes[i].name@, sizes[i].size)
    } by {
        law_opaque_type(sizes[i].name@, sizes[i].size);
    }
}

/// Without an entry for the build configuration the files have no opaque types.
pub proof fn law_no_opaque_types(api: ExtensionApi, build_config: Seq<char>, ctx: Context)
    requires
        forall|j: int|
            0 <= j < api.builtin_class_sizes@.len() ==> (
            #[trigger] api.builtin_class_sizes@[j]).build_configuration@ != build_config,
    ensures
        central_items(api, build_config, ctx).opaque_types.len() == 0,
{
    law_no_sizes(api.builtin_class_sizes@, build_config);
}

// ---- variant types ----

/// What stands behind the prefix `TYPE_` in the name of an enumerator.
pub open spec fn behind_type(c: Constant) -> Seq<char> {
    c.name@.skip(5)
}

/// The enumerator names a type: its name is `TYPE_` and more, and neither `TYPE_NIL` nor
/// `TYPE_MAX`.
pub open spec fn names_a_type(c: Constant) -> bool {
    "TYPE_"@.is_prefix_of(c.name@) && c.name@ != "TYPE_NIL"@ && c.name@ != "TYPE_MAX"@
}

/// The name of a type and the name of a class are the same, but for underscores and case.
pub open spec fn same_name(text: Seq<char>, class: BuiltinClass) -> bool {
    lower(class.name@) == without_underscores(lower(text))
}

/// The last of the classes that have the name of the enumerator's type.
pub open spec fn is_class_of(c: Constant, classes: Seq<BuiltinClass>, m: int) -> bool {
    &&& 0 <= m < classes.len()
    &&& same_name(behind_type(c), classes[m])
    &&& forall|j: int| m < j < classes.len() ==> !same_name(behind_type(c), #[trigger] classes[j])
}

/// No class has the name of the enumerator's type, and it is the type of objects.
pub open spec fn is_object(c: Constant, classes: Seq<BuiltinClass>) -> bool {
    &&& without_underscores(lower(behind_type(c))) == "object"@
    &&& forall|j: int| 0 <= j < classes.len() ==> !same_name(behind_type(c), #[trigger] classes[j])
}

/// The enumerator can be told what it is: it names no type, or one that has a class, or the type
/// of objects.
pub open spec fn is_known(c: Constant, classes: Seq<BuiltinClass>) -> bool {
    ||| c.name@ == "TYPE_NIL"@ || c.name@ == "TYPE_MAX"@
    ||| names_a_type(c) && (is_object(c, classes) || exists|m: int| is_class_of(c, classes, m))
}

proof fn lemma_prefix(c: Constant, text: Seq<char>, prefix: Seq<char>, rest: Seq<char>)
    requires
        prefix.is_prefix_of(c.name@),
        text == prefix + rest,
    ensures
        c.name@ == text <==> c.name@.skip(prefix.len() as int) == rest,
{
    assert(c.name@ =~= prefix + c.name@.skip(prefix.len() as int));
    assert(text.skip(prefix.len() as int) =~= rest);
}

proof fn lemma_builtin_types(c: Constant)
    requires
        "TYPE_"@.is_prefix_of(c.name@),
    ensures
        is_builtin_type(c) <==> names_a_type(c),
        shout_name(c) == behind_type(c),
{
    reveal_strlit("TYPE_");
    reveal_strlit("NIL");
    reveal_strlit("MAX");
    reveal_strlit("TYPE_NIL");
    reveal_strlit("TYPE_MAX");
    assert("TYPE_NIL"@ =~= "TYPE_"@ + "NIL"@);
    assert("TYPE_MAX"@ =~= "TYPE_"@ + "MAX"@);
    lemma_prefix(c, "TYPE_NIL"@, "TYPE_"@, "NIL"@);
    lemma_prefix(c, "TYPE_MAX"@, "TYPE_"@, "MAX"@);
}

proof fn lemma_known_prefix(c: Constant, classes: Seq<BuiltinClass>)
    requires
        is_known(c, classes),
    ensures
        "TYPE_"@.is_prefix_of(c.name@),
        is_builtin_type(c) <==> names_a_type(c),
        shout_name(c) == behind_type(c),
{
    reveal_strlit("TYPE_");
    reveal_strlit("TYPE_NIL");
    reveal_strlit("TYPE_MAX");
    assert("TYPE_NIL"@.take(5) =~= "TYPE_"@);
    assert("TYPE_MAX"@.take(5) =~= "TYPE_"@);
    lemma_builtin_types(c);
}

/// What an enumerator and its class say of a type.
pub open spec fn said_of_class(c: Constant, class: BuiltinClass) -> TypeInfo {
    TypeInfo {
        value: c.value,
        names: Names {
            pascal_case: class.name@,
            snake_case: lower(behind_type(c)),
            sys_variant_type: "GDNATIVE_VARIANT_TYPE_"@ + behind_type(c),
        },
        has_destructor: class.has_destructor,
        constructors: Some(class.constructors@),
        operators: Some(class.operators@),
    }
}

/// What an enumerator says of the type of objects.
pub open spec fn said_of_objects(c: Constant) -> TypeInfo {
    TypeInfo {
        value: c.value,
        names: Names {
            pascal_case: "Object"@,
            snake_case: lower(behind_type(c)),
            sys_variant_type: "GDNATIVE_VARIANT_TYPE_"@ + behind_type(c),
        },
        has_destructor: false,
        constructors: None,
        operators: None,
    }
}

/// What is known of a type that has a class: its name is that of the class, and the rest is what
/// the class says.
pub proof fn law_type_of_a_class(c: Constant, classes: Seq<BuiltinClass>, m: int)
    requires
        "TYPE_"@.is_prefix_of(c.name@),
        is_class_of(c, classes, m),
    ensures
        type_info(c, classes_by_name(classes)) == said_of_class(c, classes[m]),
{
    lemma_builtin_types(c);
    law_last_class_is_found(classes, m);
}

/// What is known of the type of objects, which has no class.
pub proof fn law_type_of_objects(c: Constant, classes: Seq<BuiltinClass>)
    requires
        "TYPE_"@.is_prefix_of(c.name@),
        is_object(c, classes),
    ensures
        type_info(c, classes_by_name(classes)) == said_of_objects(c),
{
    lemma_builtin_types(c);
    law_class_keys(classes, class_key(c));
}

/// Another type is meant: two enumerators that are known, and name types of different names,
/// have types of different names.
proof fn lemma_other_type(c: Constant, d: Constant, classes: Seq<BuiltinClass>)
    requires
        is_known(c, classes),
        is_known(d, classes),
        names_a_type(c),
        names_a_type(d),
        without_underscores(lower(behind_type(c))) != without_underscores(
            lower(behind_type(d)),
        ),
    ensures
        type_info(c, classes_by_name(classes)).names.pascal_case != type_info(
            d,
            classes_by_name(classes),
        ).names.pascal_case,
{
    lemma_pascal_key(c, classes);
    lemma_pascal_key(d, classes);
}

proof fn lemma_pascal_key(c: Constant, classes: Seq<BuiltinClass>)
    requires
        is_known(c, classes),
        names_a_type(c),
    ensures
        lower(type_info(c, classes_by_name(classes)).names.pascal_case) == without_underscores(
            lower(behind_type(c)),
        ),
{
    if is_object(c, classes) {
        law_type_of_objects(c, classes);
        reveal_strlit("Object");
        reveal_strlit("object");
        assert(lower("Object"@) =~= "object"@);
    } else {
        let m = choose|m: int| is_class_of(c, classes, m);
        law_type_of_a_class(c, classes, m);
    }
}

/// An enumerator of `Variant.Type` is left out only where its name is `TYPE_NIL` or `TYPE_MAX`:
/// any other has its type in the list, with its value and the name of its class, unless a later
/// enumerator has the same class.
pub proof fn law_types_are_listed(values: Seq<Constant>, classes: Seq<BuiltinClass>, k: int)
    requires
        0 <= k < values.len(),
        names_a_type(values[k]),
        forall|j: int| 0 <= j < values.len() ==> is_known(#[trigger] values[j], classes),
        forall|j: int|
            k < j < values.len() ==> without_underscores(
                lower(behind_type(#[trigger] values[j])),
            ) != without_underscores(lower(behind_type(values[k]))),
    ensures
        by_value(type_table(values, classes_by_name(classes))).contains(
            type_info(values[k], classes_by_name(classes)),
        ),
{
    broadcast use vstd::seq_lib::group_to_multiset_ensures;

    let by_name = classes_by_name(classes);
    let table = type_table(values, by_name);
    let list = by_value(table);
    let info = type_info(values[k], by_name);
    assert(is_known(values[k], classes));
    lemma_known_prefix(values[k], classes);
    assert forall|j: int|
        k < j < values.len() && is_builtin_type(#[trigger] values[j]) implies type_info(
        values[j],
        by_name,
    ).names.pascal_case != info.names.pascal_case by {
        assert(is_known(values[j], classes));
        lemma_known_prefix(values[j], classes);
        lemma_other_type(values[j], values[k], classes);
    }
    law_enumerators_have_types(values, by_name, k);
    law_types_are_found(table, info.names.pascal_case);
    assert(table.contains(info));
    law_listing_keeps_types(table);
    assert(list.to_multiset().contains(info));
}

/// Every listed type is that of an enumerator whose name is neither `TYPE_NIL` nor `TYPE_MAX`.
pub proof fn law_listed_types_are_named(
    values: Seq<Constant>,
    classes: Seq<BuiltinClass>,
    i: int,
)
    requires
        0 <= i < by_value(type_table(values, classes_by_name(classes))).len(),
        forall|j: int| 0 <= j < values.len() ==> is_known(#[trigger] values[j], classes),
    ensures
        exists|k: int|
            {
                &&& 0 <= k < values.len()
                &&& names_a_type(#[trigger] values[k])
                &&& by_value(type_table(values, classes_by_name(classes)))[i] == type_info(
                    values[k],
                    classes_by_name(classes),
                )
            },
{
    broadcast use vstd::seq_lib::group_to_multiset_ensures;

    let by_name = classes_by_name(classes);
    let table = type_table(values, by_name);
    let list = by_value(table);
    law_listing_keeps_types(table);
    assert(list.contains(list[i]));
    assert(table.to_multiset().contains(list[i]));
    assert(table.contains(list[i]));
    let p = choose|p: int| 0 <= p < table.len() && table[p] == list[i];
    law_types_come_from_enumerators(values, by_name, p);
    let k = choose|k: int|
        0 <= k < values.len() && is_builtin_type(#[trigger] values[k]) && table[p] == type_info(
            values[k],
            by_name,
        );
    assert(is_known(values[k], classes));
    lemma_known_prefix(values[k], classes);
}

/// What the files hold of a type stands at one place of all lists on types: its name, its ordinal,
/// its Rust type, and its fields.
pub open spec fn is_entry(
    items: Items,
    i: int,
    info: TypeInfo,
    types: Seq<TypeInfo>,
    ctx: Context,
) -> bool {
    let fields = variant_fields(
        info.names,
        info.has_destructor,
        info.constructors,
        info.operators,
        types,
    );
    &&& 0 <= i < items.type_names.len()
    &&& items.type_names.len() == items.type_ords.len() == items.type_rust.len()
    &&& items.type_names.len() == items.declarations.len() == items.initialisations.len()
    &&& items.type_names[i] == capitalized(info.names.pascal_case)
    &&& items.type_ords[i] == info.value
    &&& items.type_rust[i] == tokens_of(ctx.rust_types@[info.names.pascal_case])
    &&& items.declarations[i] == declarations(fields)
    &&& items.initialisations[i] == initialisations(fields, info.names.sys_variant_type)
}

/// Every enumerator of `Variant.Type` but `TYPE_NIL` and `TYPE_MAX` has an entry in the files: the
/// capitalised name of its class, its value, the Rust type of the class, and the fields for what
/// the class says. Its class is also among the names of the builtin types.
pub proof fn law_variant_types_have_entries(
    api: ExtensionApi,
    build_config: Seq<char>,
    ctx: Context,
    n: int,
    k: int,
    m: int,
)
    requires
        0 <= n < api.global_enums@.len(),
        api.global_enums@[n].name@ == "Variant.Type"@,
        forall|j: int|
            0 <= j < n ==> (#[trigger] api.global_enums@[j]).name@ != "Variant.Type"@,
        0 <= k < api.global_enums@[n].values@.len(),
        names_a_type(api.global_enums@[n].values@[k]),
        is_class_of(api.global_enums@[n].values@[k], api.builtin_classes@, m),
        forall|j: int|
            0 <= j < api.global_enums@[n].values@.len() ==> is_known(
                #[trigger] api.global_enums@[n].values@[j],
                api.builtin_classes@,
            ),
        forall|j: int|
            k < j < api.global_enums@[n].values@.len() ==> without_underscores(
                lower(behind_type(#[trigger] api.global_enums@[n].values@[j])),
            ) != without_underscores(lower(behind_type(api.global_enums@[n].values@[k]))),
    ensures
        exists|i: int|
            {
                &&& #[trigger] is_entry(
                    central_items(api, build_config, ctx),
                    i,
                    said_of_class(api.global_enums@[n].values@[k], api.builtin_classes@[m]),
                    types_of(api),
                    ctx,
                )
                &&& pascal_names(by_value(types_of(api)))[i] == api.builtin_classes@[m].name@
            },
{
    let values = api.global_enums@[n].values@;
    let classes = api.builtin_classes@;
    let list = by_value(types_of(api));
    law_first_enum_is_found(api.global_enums@, "Variant.Type"@, n);
    law_types_are_listed(values, classes, k);
    law_type_of_a_class(values[k], classes, m);
    let info = type_info(values[k], classes_by_name(classes));
    let i = choose|i: int| 0 <= i < list.len() && list[i] == info;
    assert(is_entry(central_items(api, build_config, ctx), i, list[i], types_of(api), ctx));
}

/// Without a class, the type of objects has an entry too: `Object`, with no constructors, no
/// operators and no destructor.
pub proof fn law_objects_have_an_entry(
    api: ExtensionApi,
    build_config: Seq<char>,
    ctx: Context,
    n: int,
    k: int,
)
    requires
        0 <= n < api.global_enums@.len(),
        api.global_enums@[n].name@ == "Variant.Type"@,
        forall|j: int|
            0 <= j < n ==> (#[trigger] api.global_enums@[j]).name@ != "Variant.Type"@,
        0 <= k < api.global_enums@[n].values@.len(),
        names_a_type(api.global_enums@[n].values@[k]),
        is_object(api.global_enums@[n].values@[k], api.builtin_classes@),
        forall|j: int|
            0 <= j < api.global_enums@[n].values@.len() ==> is_known(
                #[trigger] api.global_enums@[n].values@[j],
                api.builtin_classes@,
            ),
        forall|j: int|
            k < j < api.global_enums@[n].values@.len() ==> without_underscores(
                lower(behind_type(#[trigger] api.global_enums@[n].values@[j])),
            ) != "object"@,
    ensures
        exists|i: int|
            #[trigger] is_entry(
                central_items(api, build_config, ctx),
                i,
                said_of_objects(api.global_enums@[n].values@[k]),
                types_of(api),
                ctx,
            ),
{
    let values = api.global_enums@[n].values@;
    let classes = api.builtin_classes@;
    let list = by_value(types_of(api));
    law_first_enum_is_found(api.global_enums@, "Variant.Type"@, n);
    law_types_are_listed(values, classes, k);
    law_type_of_objects(values[k], classes);
    let info = type_info(values[k], classes_by_name(classes));
    let i = choose|i: int| 0 <= i < list.len() && list[i] == info;
    assert(is_entry(central_items(api, build_config, ctx), i, list[i], types_of(api), ctx));
}

/// Every entry on types in the files is that of an enumerator of `Variant.Type` whose name is
/// neither `TYPE_NIL` nor `TYPE_MAX`.
pub proof fn law_entries_have_variant_types(
    api: ExtensionApi,
    build_config: Seq<char>,
    ctx: Context,
    n: int,
    i: int,
)
    requires
        0 <= n < api.global_enums@.len(),
        api.global_enums@[n].name@ == "Variant.Type"@,
        forall|j: int|
            0 <= j < n ==> (#[trigger] api.global_enums@[j]).name@ != "Variant.Type"@,
        forall|j: int|
            0 <= j < api.global_enums@[n].values@.len() ==> is_known(
                #[trigger] api.global_enums@[n].values@[j],
                api.builtin_classes@,
            ),
        0 <= i < central_items(api, build_config, ctx).type_names.len(),
    ensures
        exists|k: int|
            {
                &&& 0 <= k < api.global_enums@[n].values@.len()
                &&& names_a_type(#[trigger] api.global_enums@[n].values@[k])
                &&& is_entry(
                    central_items(api, build_config, ctx),
                    i,
                    type_info(
                        api.global_enums@[n].values@[k],
                        classes_by_name(api.builtin_classes@),
                    ),
                    types_of(api),
                    ctx,
                )
            },
{
    let values = api.global_enums@[n].values@;
    let classes = api.builtin_classes@;
    let list = by_value(types_of(api));
    law_first_enum_is_found(api.global_enums@, "Variant.Type"@, n);
    law_listed_types_are_named(values, classes, i);
    assert(is_entry(central_items(api, build_config, ctx), i, list[i], types_of(api), ctx));
}

// ---- variant operators ----

proof fn lemma_operators(c: Constant)
    requires
        "OP_"@.is_prefix_of(c.name@),
    ensures
        is_operator(c) <==> c.name@ != "OP_MAX"@,
        operator_name(c) == c.name@.skip(3),
{
    reveal_strlit("OP_");
    reveal_strlit("MAX");
    reveal_strlit("OP_MAX");
    assert("OP_MAX"@ =~= "OP_"@ + "MAX"@);
    lemma_prefix(c, "OP_MAX"@, "OP_"@, "MAX"@);
}

/// The enumerators but those of the name `OP_MAX`.
pub open spec fn but_max(values: Seq<Constant>) -> Seq<Constant> {
    values.filter(|c: Constant| c.name@ != "OP_MAX"@)
}

proof fn lemma_but_max(values: Seq<Constant>)
    requires
        forall|j: int| 0 <= j < values.len() ==> "OP_"@.is_prefix_of(
            (#[trigger] values[j]).name@,
        ),
    ensures
        operators_of(values) == but_max(values),
        forall|i: int|
            0 <= i < but_max(values).len() ==> "OP_"@.is_prefix_of(
                (#[trigger] but_max(values)[i]).name@,
            ),
    decreases values.len(),
{
    reveal(Seq::filter);
    if values.len() > 0 {
        let rest = values.drop_last();
        assert forall|j: int| 0 <= j < rest.len() implies "OP_"@.is_prefix_of(
            (#[trigger] rest[j]).name@,
        ) by {
            assert(rest[j] == values[j]);
        }
        lemma_but_max(rest);
        assert(values[values.len() - 1] == values.last());
        lemma_operators(values.last());
    }
}

/// An enumerator of `Variant.Operator` is left out exactly where its name is `OP_MAX`: the names
/// and the ordinals of the operators are those of all others, in their order, the names without
/// `OP_` and in Pascal case.
pub proof fn law_operators_have_entries(
    api: ExtensionApi,
    build_config: Seq<char>,
    ctx: Context,
    n: int,
)
    requires
        0 <= n < api.global_enums@.len(),
        api.global_enums@[n].name@ == "Variant.Operator"@,
        forall|j: int|
            0 <= j < n ==> (#[trigger] api.global_enums@[j]).name@ != "Variant.Operator"@,
        forall|j: int|
            0 <= j < api.global_enums@[n].values@.len() ==> "OP_"@.is_prefix_of(
                (#[trigger] api.global_enums@[n].values@[j]).name@,
            ),
    ensures
        ({
            let kept = but_max(api.global_enums@[n].values@);
            let items = central_items(api, build_config, ctx);
            &&& items.operator_names.len() == kept.len()
            &&& items.operator_ords.len() == kept.len()
            &&& forall|i: int|
                0 <= i < kept.len() ==> {
                    &&& items.operator_names[i] == pascal((#[trigger] kept[i]).name@.skip(3))
                    &&& items.operator_ords[i] == kept[i].value
                }
        }),
{
    let values = api.global_enums@[n].values@;
    let kept = but_max(values);
    let items = central_items(api, build_config, ctx);
    law_first_enum_is_found(api.global_enums@, "Variant.Operator"@, n);
    lemma_but_max(values);
    assert forall|i: int| 0 <= i < kept.len() implies {
        &&& items.operator_names[i] == pascal((#[trigger] kept[i]).name@.skip(3))
        &&& items.operator_ords[i] == kept[i].value
    } by {
        lemma_operators(kept[i]);
    }
}

/// Every enumerator of `Variant.Operator` whose name is not `OP_MAX` has an entry: its name in
/// Pascal case and its value, at one place.
pub proof fn law_operator_has_an_entry(
    api: ExtensionApi,
    build_config: Seq<char>,
    ctx: Context,
    n: int,
    k: int,
)
    requires
        0 <= n < api.global_enums@.len(),
        api.global_enums@[n].name@ == "Variant.Operator"@,
        forall|j: int|
            0 <= j < n ==> (#[trigger] api.global_enums@[j]).name@ != "Variant.Operator"@,
        forall|j: int|
            0 <= j < api.global_enums@[n].values@.len() ==> "OP_"@.is_prefix_of(
                (#[trigger] api.global_enums@[n].values@[j]).name@,
            ),
        0 <= k < api.global_enums@[n].values@.len(),
        api.global_enums@[n].values@[k].name@ != "OP_MAX"@,
    ensures
        exists|i: int|
            {
                &&& 0 <= i < central_items(api, build_config, ctx).operator_names.len()
                &&& #[trigger] central_items(api, build_config, ctx).operator_names[i] == pascal(
                    api.global_enums@[n].values@[k].name@.skip(3),
                )
                &&& central_items(api, build_config, ctx).operator_ords[i]
                    == api.global_enums@[n].values@[k].value
            },
{
    let values = api.global_enums@[n].values@;
    let items = central_items(api, build_config, ctx);
    law_operators_have_entries(api, build_config, ctx, n);
    values.lemma_filter_contains(|c: Constant| c.name@ != "OP_MAX"@, k);
    let i = choose|i: int| 0 <= i < but_max(values).len() && but_max(values)[i] == values[k];
    assert(items.operator_names[i] == pascal(but_max(values)[i].name@.skip(3)));
}

// ---- global enums ----

/// The enums that are handled explicitly are `Variant.Type` and `Variant.Operator`, and no others.
pub proof fn law_explicit_enums(name: Seq<char>)
    ensures
        is_explicit(name) <==> name == "Variant.Type"@ || name == "Variant.Operator"@,
{
}

/// One global enum more is one definition more, at the end, unless its name is `Variant.Type` or
/// `Variant.Operator`; without enums there are no definitions.
pub proof fn law_one_enum_more(
    enums: Seq<Enum>,
    definitions: Seq<Seq<Token>>,
    e: Enum,
    definition: Seq<Token>,
)
    requires
        enums.len() == definitions.len(),
    ensures
        definitions_of(enums.push(e), definitions.push(definition)) == if e.name@
            == "Variant.Type"@ || e.name@ == "Variant.Operator"@ {
            definitions_of(enums, definitions)
        } else {
            definitions_of(enums, definitions).push(definition)
        },
        definitions_of(Seq::empty(), definitions) == Seq::<Seq<Token>>::empty(),
{
    assert(enums.push(e).drop_last() =~= enums);
    lemma_longer_definitions(enums, definitions, definitions.push(definition));
}

proof fn lemma_longer_definitions(
    enums: Seq<Enum>,
    first: Seq<Seq<Token>>,
    second: Seq<Seq<Token>>,
)
    requires
        enums.len() <= first.len(),
        enums.len() <= second.len(),
        forall|i: int| 0 <= i < enums.len() ==> #[trigger] first[i] == second[i],
    ensures
        definitions_of(enums, first) == definitions_of(enums, second),
    decreases enums.len(),
{
    if enums.len() > 0 {
        lemma_longer_definitions(enums.drop_last(), first, second);
        assert(first[enums.len() - 1] == second[enums.len() - 1]);
    }
}

/// The files define the global enums as the context gives them.
pub proof fn law_definitions_are_those_given(
    api: ExtensionApi,
    build_config: Seq<char>,
    ctx: Context,
)
    ensures
        central_items(api, build_config, ctx).enum_definitions == definitions_of(
            api.global_enums@,
            Seq::new(
                ctx.enum_definitions@.len(),
                |i: int| tokens_of(ctx.enum_definitions@[i]),
            ),
        ),
{
    assert(streams(ctx.enum_definitions@) =~= Seq::new(
        ctx.enum_definitions@.len(),
        |i: int| tokens_of(ctx.enum_definitions@[i]),
    ));
}

} // verus!
