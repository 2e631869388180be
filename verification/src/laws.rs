//! What holds of the generated files as a whole.

use crate::api::{BuiltinClass, ClassSizes, Constant, Constructor, Enum, ExtensionApi, named_enum};
use crate::code::{
    Items, core_tokens, enumerator, enumerators, ffi_impl, from_ord_arm, from_ord_arms, ord_enum,
    ord_impl, sys_tokens, variant_operator, variant_type,
};
use crate::fields::{
    Field, Lookup, construct_fields, constructors_ok, conversion_fields, declaration_list,
    extra_fields, field_ok, initialisation_list, is_trivial_name, lemma_field_names,
};
use crate::items::{
    Context, api_ok, central_items, declaration_parts, definitions_of, fields_of,
    initialisation_parts, is_explicit, is_operator, operator_ordinals, operators_of, sizes_for,
    type_ok, types_of,
};
use crate::text::{
    capitalized, is_shout_case, lower, lower_char, pascal, upper_char, without_underscores,
};
use crate::tokens::{
    Token, decimal, flat, integer, joint, lemma_flat_append, lemma_flat_single, mark,
};
use crate::types::{
    Names, TypeInfo, by_value, class_key, classes_by_name, find_type, insert_by_value,
    is_builtin_type, lemma_slot, slot, type_constant_ok, type_constants_ok, type_info, type_table,
    unique_names,
};
use vstd::prelude::*;

verus! {

// ---- spellings ----

/// A name in Pascal case is the name in shout case without its underscores, but for the case of
/// its letters.
pub proof fn law_pascal_keeps_letters(s: Seq<char>)
    requires
        is_shout_case(s),
    ensures
        lower(pascal(s)) == lower(without_underscores(s)),
        forall|i: int| 0 <= i < pascal(s).len() ==> #[trigger] pascal(s)[i] != '_',
    decreases s.len(),
{
    reveal(Seq::filter);
    if s.len() > 0 {
        let t = s.drop_last();
        let c = s.last();
        assert(is_shout_case(t)) by {
            assert forall|i: int| 0 <= i < t.len() && #[trigger] t[i] == '_' implies i > 0
                && t[i - 1] != '_' by {
                assert(s[i] == '_');
            }
        }
        law_pascal_keeps_letters(t);
        if c == '_' {
            assert(s[s.len() - 1] == '_');
            assert(pascal(s) == pascal(t));
        } else {
            assert(without_underscores(s) == without_underscores(t).push(c));
            assert(lower(without_underscores(s)) =~= lower(without_underscores(t)).push(
                lower_char(c),
            ));
            assert(lower(pascal(s)) =~= lower(pascal(t)).push(lower_char(c)));
        }
    }
}

/// Capitalising changes the case of the first letter and nothing else, and doing it again
/// changes nothing.
pub proof fn law_capitalized(s: Seq<char>)
    requires
        s.len() > 0,
    ensures
        capitalized(s).len() == s.len(),
        lower(capitalized(s)) == lower(s),
        capitalized(s).skip(1) == s.skip(1),
        capitalized(capitalized(s)) == capitalized(s),
{
    assert(capitalized(s) =~= s.update(0, upper_char(s[0])));
    assert(lower(capitalized(s)) =~= lower(s));
    assert(capitalized(capitalized(s)) =~= capitalized(s));
}

/// The key under which the class of a variant type is looked up has no underscore and no ASCII
/// capital.
pub proof fn law_class_key_is_plain(c: Constant)
    ensures
        forall|i: int|
            0 <= i < class_key(c).len() ==> #[trigger] class_key(c)[i] != '_' && !('A'
                <= class_key(c)[i] <= 'Z'),
{
    let s = lower(crate::types::shout_name(c));
    lemma_without_underscores(s);
}

proof fn lemma_without_underscores(s: Seq<char>)
    ensures
        forall|i: int|
            0 <= i < without_underscores(s).len() ==> {
                &&& #[trigger] without_underscores(s)[i] != '_'
                &&& s.contains(without_underscores(s)[i])
            },
    decreases s.len(),
{
    reveal(Seq::filter);
    if s.len() > 0 {
        lemma_without_underscores(s.drop_last());
        assert forall|i: int| 0 <= i < without_underscores(s).len() implies {
            &&& #[trigger] without_underscores(s)[i] != '_'
            &&& s.contains(without_underscores(s)[i])
        } by {
            let before = without_underscores(s.drop_last());
            if i < before.len() {
                let j = choose|j: int| 0 <= j < s.len() - 1 && s.drop_last()[j] == before[i];
                assert(s[j] == before[i]);
            } else {
                assert(s[s.len() - 1] == s.last());
            }
        }
    }
}

// ---- classes ----

/// A class is found under its name in whatever case, and of several classes under one name the
/// last one is found.
pub proof fn law_last_class_is_found(classes: Seq<BuiltinClass>, i: int)
    requires
        0 <= i < classes.len(),
        forall|j: int|
            i < j < classes.len() ==> lower((#[trigger] classes[j]).name@) != lower(
                classes[i].name@,
            ),
    ensures
        classes_by_name(classes).contains_key(lower(classes[i].name@)),
        classes_by_name(classes)[lower(classes[i].name@)] == classes[i],
    decreases classes.len(),
{
    if i < classes.len() - 1 {
        let rest = classes.drop_last();
        assert(lower(classes[classes.len() - 1].name@) != lower(classes[i].name@));
        assert forall|j: int| i < j < rest.len() implies lower((#[trigger] rest[j]).name@)
            != lower(rest[i].name@) by {
            assert(lower(classes[j].name@) != lower(classes[i].name@));
        }
        law_last_class_is_found(rest, i);
    }
}

// ---- builtin types ----

/// No two builtin types have the same name in Pascal case.
pub proof fn law_type_names_are_unique(
    values: Seq<Constant>,
    classes: Map<Seq<char>, BuiltinClass>,
)
    ensures
        unique_names(type_table(values, classes)),
    decreases values.len(),
{
    if values.len() > 0 {
        law_type_names_are_unique(values.drop_last(), classes);
        let info = type_info(values.last(), classes);
        lemma_slot(type_table(values.drop_last(), classes), info.names.pascal_case, 0);
    }
}

/// Every builtin type stands for an enumerator of `Variant.Type` other than `NIL` and `MAX`.
pub proof fn law_types_come_from_enumerators(
    values: Seq<Constant>,
    classes: Map<Seq<char>, BuiltinClass>,
    i: int,
)
    requires
        0 <= i < type_table(values, classes).len(),
    ensures
        exists|k: int|
            0 <= k < values.len() && is_builtin_type(#[trigger] values[k]) && type_table(
                values,
                classes,
            )[i] == type_info(values[k], classes),
    decreases values.len(),
{
    let rest = values.drop_last();
    let before = type_table(rest, classes);
    let info = type_info(values.last(), classes);
    let table = type_table(values, classes);
    lemma_slot(before, info.names.pascal_case, 0);
    if is_builtin_type(values.last()) && table[i] == info {
        assert(is_builtin_type(values[values.len() - 1]));
    } else {
        law_types_come_from_enumerators(rest, classes, i);
        let k = choose|k: int|
            0 <= k < rest.len() && is_builtin_type(#[trigger] rest[k]) && before[i] == type_info(
                rest[k],
                classes,
            );
        assert(values[k] == rest[k]);
    }
}

/// Every enumerator of `Variant.Type` but `NIL` and `MAX` has a builtin type, which is found under
/// its name; of several enumerators under one name the last one counts.
pub proof fn law_enumerators_have_types(
    values: Seq<Constant>,
    classes: Map<Seq<char>, BuiltinClass>,
    k: int,
)
    requires
        0 <= k < values.len(),
        is_builtin_type(values[k]),
        forall|j: int|
            k < j < values.len() && is_builtin_type(#[trigger] values[j]) ==> type_info(
                values[j],
                classes,
            ).names.pascal_case != type_info(values[k], classes).names.pascal_case,
    ensures
        find_type(
            type_table(values, classes),
            type_info(values[k], classes).names.pascal_case,
        ) == Some(type_info(values[k], classes)),
    decreases values.len(),
{
    let rest = values.drop_last();
    let before = type_table(rest, classes);
    let table = type_table(values, classes);
    let info = type_info(values.last(), classes);
    let name = type_info(values[k], classes).names.pascal_case;
    lemma_slot(before, info.names.pascal_case, 0);
    lemma_slot(before, name, 0);
    lemma_slot(table, name, 0);
    if k < values.len() - 1 {
        assert forall|j: int|
            k < j < rest.len() && is_builtin_type(#[trigger] rest[j]) implies type_info(
            rest[j],
            classes,
        ).names.pascal_case != type_info(rest[k], classes).names.pascal_case by {
            assert(rest[j] == values[j]);
        }
        law_enumerators_have_types(rest, classes, k);
        if is_builtin_type(values.last()) {
            assert(values[values.len() - 1] == values.last());
            let at = slot(before, name, 0);
            assert(table[at].names.pascal_case == name);
            assert(slot(table, name, 0) == at) by {
                if slot(table, name, 0) < at {
                    let s = slot(table, name, 0);
                    assert(before[s].names.pascal_case != name);
                }
            }
        }
    } else {
        law_type_names_are_unique(values, classes);
        let at = if slot(before, name, 0) < before.len() {
            slot(before, name, 0)
        } else {
            before.len() as int
        };
        assert(table[at] == info);
        assert(slot(table, name, 0) == at) by {
            if slot(table, name, 0) < at {
                let s = slot(table, name, 0);
                assert(before[s].names.pascal_case != name);
            }
        }
    }
}

proof fn lemma_class_keys(classes: Seq<BuiltinClass>, key: Seq<char>)
    requires
        classes_by_name(classes).contains_key(key),
    ensures
        lower(classes_by_name(classes)[key].name@) == key,
    decreases classes.len(),
{
    if classes.len() > 0 && lower(classes.last().name@) != key {
        lemma_class_keys(classes.drop_last(), key);
    }
}

/// The name of a type in Pascal case and in snake case are the same text, but for the case of its
/// letters and the underscores.
pub proof fn law_spellings_agree(c: Constant, classes: Seq<BuiltinClass>)
    requires
        type_constant_ok(c, classes_by_name(classes)),
        is_builtin_type(c),
    ensures
        ({
            let names = type_info(c, classes_by_name(classes)).names;
            lower(names.pascal_case) == without_underscores(names.snake_case)
        }),
{
    if classes_by_name(classes).contains_key(class_key(c)) {
        lemma_class_keys(classes, class_key(c));
    } else {
        reveal_strlit("Object");
        reveal_strlit("object");
        assert(lower("Object"@) =~= "object"@);
    }
}

/// No two builtin types have the same name in snake case, or names in Pascal case that differ in
/// the case of their letters alone.
pub proof fn law_types_can_be_told_apart(
    values: Seq<Constant>,
    classes: Seq<BuiltinClass>,
    i: int,
    j: int,
)
    requires
        type_constants_ok(values, classes_by_name(classes)),
        0 <= i < j < type_table(values, classes_by_name(classes)).len(),
    ensures
        ({
            let table = type_table(values, classes_by_name(classes));
            &&& table[i].names.snake_case != table[j].names.snake_case
            &&& lower(table[i].names.pascal_case) != lower(table[j].names.pascal_case)
        }),
{
    let by_name = classes_by_name(classes);
    let table = type_table(values, by_name);
    law_type_names_are_unique(values, by_name);
    law_types_come_from_enumerators(values, by_name, i);
    law_types_come_from_enumerators(values, by_name, j);
    let k = choose|k: int|
        0 <= k < values.len() && is_builtin_type(#[trigger] values[k]) && table[i] == type_info(
            values[k],
            by_name,
        );
    let l = choose|l: int|
        0 <= l < values.len() && is_builtin_type(#[trigger] values[l]) && table[j] == type_info(
            values[l],
            by_name,
        );
    assert(type_constant_ok(values[k], by_name));
    assert(type_constant_ok(values[l], by_name));
    law_spellings_agree(values[k], classes);
    law_spellings_agree(values[l], classes);
    assert(table[i].names.pascal_case != table[j].names.pascal_case);
}

/// The types are listed by ascending ordinal.
pub proof fn law_ordinals_ascend(table: Seq<TypeInfo>)
    ensures
        forall|i: int, j: int|
            0 <= i <= j < by_value(table).len() ==> (#[trigger] by_value(table)[i]).value <= (
            #[trigger] by_value(table)[j]).value,
    decreases table.len(),
{
    if table.len() > 0 {
        law_ordinals_ascend(table.drop_last());
        lemma_insert_ascends(by_value(table.drop_last()), table.last());
    }
}

proof fn lemma_insert_ascends(list: Seq<TypeInfo>, info: TypeInfo)
    requires
        forall|i: int, j: int|
            0 <= i <= j < list.len() ==> (#[trigger] list[i]).value <= (#[trigger] list[j]).value,
    ensures
        forall|i: int, j: int|
            0 <= i <= j < insert_by_value(list, info).len() ==> (#[trigger] insert_by_value(
                list,
                info,
            )[i]).value <= (#[trigger] insert_by_value(list, info)[j]).value,
        insert_by_value(list, info).to_multiset() == list.to_multiset().insert(info),
    decreases list.len(),
{
    broadcast use vstd::seq_lib::group_to_multiset_ensures;

    let result = insert_by_value(list, info);
    if list.len() == 0 || list.last().value <= info.value {
        assert(result == list.push(info));
    } else {
        let rest = list.drop_last();
        lemma_insert_ascends(rest, info);
        let inner = insert_by_value(rest, info);
        assert(result == inner.push(list.last()));
        assert(list =~= rest.push(list.last()));
        assert forall|i: int| 0 <= i < inner.len() implies (#[trigger] inner[i]).value
            <= list.last().value by {
            assert(inner.to_multiset().contains(inner[i])) by {
                assert(inner.contains(inner[i]));
            }
            if inner[i] != info {
                assert(rest.to_multiset().contains(inner[i]));
                assert(rest.contains(inner[i]));
                let k = choose|k: int| 0 <= k < rest.len() && rest[k] == inner[i];
                assert(list[k] == inner[i]);
                assert(list[list.len() - 1] == list.last());
            }
        }
    }
}

/// Listing the types by ordinal loses none and adds none.
pub proof fn law_listing_keeps_types(table: Seq<TypeInfo>)
    ensures
        by_value(table).to_multiset() == table.to_multiset(),
    decreases table.len(),
{
    broadcast use vstd::seq_lib::group_to_multiset_ensures;

    if table.len() > 0 {
        law_listing_keeps_types(table.drop_last());
        law_ordinals_ascend(table.drop_last());
        lemma_insert_ascends(by_value(table.drop_last()), table.last());
        assert(table =~= table.drop_last().push(table.last()));
    }
}

// ---- the table of functions ----

/// The fields of all the types.
pub open spec fn all_fields(list: Seq<TypeInfo>, types: Seq<TypeInfo>) -> Seq<Field>
    decreases list.len(),
{
    if list.len() == 0 {
        Seq::empty()
    } else {
        all_fields(list.drop_last(), types) + fields_of(list.last(), types)
    }
}

/// The initialisation of each field of all the types.
pub open spec fn all_initialisations(list: Seq<TypeInfo>, types: Seq<TypeInfo>) -> Seq<Seq<Token>>
    decreases list.len(),
{
    if list.len() == 0 {
        Seq::empty()
    } else {
        all_initialisations(list.drop_last(), types) + initialisation_list(
            fields_of(list.last(), types),
            list.last().names.sys_variant_type,
        )
    }
}

/// Every field of the table is declared once and initialised once, in the same order: the
/// declarations and the initialisations are those of one list of fields, and the second token of
/// each declaration and the first token of each initialisation is the name of its field.
pub proof fn law_declared_fields_are_initialised(
    api: ExtensionApi,
    build_config: Seq<char>,
    ctx: Context,
)
    ensures
        ({
            let items = central_items(api, build_config, ctx);
            let list = by_value(types_of(api));
            let fields = all_fields(list, types_of(api));
            let declared = declaration_list(fields);
            let initialised = all_initialisations(list, types_of(api));
            &&& flat(items.declarations) == flat(declared)
            &&& flat(items.initialisations) == flat(initialised)
            &&& declared.len() == fields.len()
            &&& initialised.len() == fields.len()
            &&& forall|i: int|
                0 <= i < fields.len() ==> {
                    &&& declared[i][1] == Token::Ident((#[trigger] fields[i]).name)
                    &&& initialised[i][0] == Token::Ident(fields[i].name)
                }
        }),
{
    lemma_one_list_of_fields(by_value(types_of(api)), types_of(api));
}

proof fn lemma_one_list_of_fields(list: Seq<TypeInfo>, types: Seq<TypeInfo>)
    ensures
        flat(declaration_parts(list, types)) == flat(declaration_list(all_fields(list, types))),
        flat(initialisation_parts(list, types)) == flat(all_initialisations(list, types)),
        all_initialisations(list, types).len() == all_fields(list, types).len(),
        forall|i: int|
            0 <= i < all_fields(list, types).len() ==> (#[trigger] all_initialisations(
                list,
                types,
            )[i])[0] == Token::Ident(all_fields(list, types)[i].name),
    decreases list.len(),
{
    if list.len() == 0 {
        assert(declaration_list(all_fields(list, types)) =~= declaration_parts(list, types));
        assert(all_initialisations(list, types) =~= initialisation_parts(list, types));
    } else {
        let rest = list.drop_last();
        let fields = fields_of(list.last(), types);
        let vt = list.last().names.sys_variant_type;
        lemma_one_list_of_fields(rest, types);
        assert(declaration_parts(list, types).drop_last() =~= declaration_parts(rest, types));
        assert(initialisation_parts(list, types).drop_last() =~= initialisation_parts(
            rest,
            types,
        ));
        assert(declaration_list(all_fields(list, types)) =~= declaration_list(
            all_fields(rest, types),
        ) + declaration_list(fields));
        lemma_flat_append(declaration_list(all_fields(rest, types)), declaration_list(fields));
        lemma_flat_append(all_initialisations(rest, types), initialisation_list(fields, vt));
        assert forall|i: int| 0 <= i < all_fields(list, types).len() implies (
        #[trigger] all_initialisations(list, types)[i])[0] == Token::Ident(
            all_fields(list, types)[i].name,
        ) by {
            if i < all_fields(rest, types).len() {
                assert(all_initialisations(list, types)[i] == all_initialisations(rest, types)[i]);
            } else {
                let k = i - all_fields(rest, types).len();
                assert(all_initialisations(list, types)[i] == initialisation_list(fields, vt)[k]);
            }
        }
    }
}

/// For a trivial type only the conversions from and to the variant type are loaded.
pub proof fn law_trivial_types_are_only_converted(info: TypeInfo, types: Seq<TypeInfo>)
    requires
        is_trivial_name(info.names.pascal_case),
    ensures
        fields_of(info, types) == conversion_fields(info.names),
{
    assert(fields_of(info, types) =~= conversion_fields(info.names));
}

/// For a type without a class only the conversions from and to the variant type are loaded.
pub proof fn law_objects_are_only_converted(
    c: Constant,
    classes: Map<Seq<char>, BuiltinClass>,
    types: Seq<TypeInfo>,
)
    requires
        !classes.contains_key(class_key(c)),
    ensures
        fields_of(type_info(c, classes), types) == conversion_fields(type_info(c, classes).names),
{
    assert(fields_of(type_info(c, classes), types) =~= conversion_fields(
        type_info(c, classes).names,
    ));
}

/// Every field of a type for which code can be generated has an identifier for its name.
pub proof fn law_field_names_are_identifiers(info: TypeInfo, types: Seq<TypeInfo>)
    requires
        type_ok(info, types),
    ensures
        forall|i: int|
            0 <= i < fields_of(info, types).len() ==> field_ok(
                #[trigger] fields_of(info, types)[i],
            ),
{
    lemma_field_names(
        info.names,
        info.has_destructor,
        info.constructors,
        info.operators,
        types,
    );
}

/// The constructors of a type are loaded by their own indices: those with arguments, and the
/// default constructor.
pub proof fn law_constructor_indices(
    names: Names,
    constructors: Seq<Constructor>,
    types: Seq<TypeInfo>,
)
    requires
        constructors_ok(names, Some(constructors), types),
        constructors.len() <= i32::MAX,
    ensures
        forall|i: int|
            0 <= i < construct_fields(names, Some(constructors), types).len() ==> {
                &&& (#[trigger] construct_fields(
                    names,
                    Some(constructors),
                    types,
                )[i]).lookup matches Lookup::Constructor(index)
                &&& 0 <= index < constructors.len()
                &&& constructors[index as int].index == index
                &&& index == 0 || constructors[index as int].arguments is Some
            },
{
    if !is_trivial_name(names.pascal_case) {
        lemma_extra_indices(names, constructors, types, constructors.len() as int);
    }
}

proof fn lemma_extra_indices(
    names: Names,
    constructors: Seq<Constructor>,
    types: Seq<TypeInfo>,
    end: int,
)
    requires
        0 <= end <= constructors.len() <= i32::MAX,
    ensures
        forall|i: int|
            0 <= i < extra_fields(names, constructors, types, end).len() ==> {
                &&& (#[trigger] extra_fields(
                    names,
                    constructors,
                    types,
                    end,
                )[i]).lookup matches Lookup::Constructor(index)
                &&& 2 <= index < end
                &&& constructors[index as int].arguments is Some
            },
    decreases end,
{
    if end > 2 {
        lemma_extra_indices(names, constructors, types, end - 1);
    }
}

// ---- the enums with ordinals ----

/// Two numbers are written alike only where they are equal.
proof fn lemma_decimal(a: nat, b: nat)
    requires
        decimal(a) == decimal(b),
    ensures
        a == b,
    decreases a,
{
    assert(decimal(a).last() == (48 + a % 10) as char);
    assert(decimal(b).last() == (48 + b % 10) as char);
    assert(a % 10 == b % 10);
    assert(decimal(a).len() == decimal(b).len());
    lemma_decimal_len(a);
    lemma_decimal_len(b);
    if a >= 10 {
        assert(decimal(a).drop_last() =~= decimal(a / 10));
        assert(decimal(b).drop_last() =~= decimal(b / 10));
        lemma_decimal(a / 10, b / 10);
    }
}

proof fn lemma_decimal_len(n: nat)
    ensures
        decimal(n).len() > 0,
        n >= 10 <==> decimal(n).len() > 1,
    decreases n,
{
    if n >= 10 {
        lemma_decimal_len(n / 10);
    }
}

/// Two integers with the same suffix are written alike only where they are equal.
pub proof fn law_integers_can_be_told_apart(a: int, b: int, suffix: Seq<char>)
    requires
        integer(a, suffix) == integer(b, suffix),
    ensures
        a == b,
{
    let x = integer(a, suffix);
    let y = integer(b, suffix);
    assert(x.len() == if a < 0 { 2int } else { 1int });
    assert(y.len() == if b < 0 { 2int } else { 1int });
    let m = if a < 0 { (-a) as nat } else { a as nat };
    let n = if b < 0 { (-b) as nat } else { b as nat };
    assert(x.last() == Token::Literal(decimal(m) + suffix));
    assert(y.last() == Token::Literal(decimal(n) + suffix));
    assert((decimal(m) + suffix).len() == (decimal(n) + suffix).len());
    assert(decimal(m) =~= (decimal(m) + suffix).take(decimal(m).len() as int));
    assert(decimal(n) =~= (decimal(n) + suffix).take(decimal(n).len() as int));
    lemma_decimal(m, n);
}

/// The arm is for that ordinal: it begins with `ord =>`.
pub open spec fn is_arm_for(arm: Seq<Token>, ord: i32) -> bool {
    (integer(ord as int, seq![]) + seq![joint('='), mark('>')]).is_prefix_of(arm)
}

/// The arm that a `match` on that ordinal takes: the first one that is for it. `None` where there
/// is none, so that the arm behind them all is taken, which is for any ordinal.
pub open spec fn taken(arms: Seq<Seq<Token>>, ord: i32) -> Option<Seq<Token>>
    decreases arms.len(),
{
    if arms.len() == 0 {
        None
    } else if is_arm_for(arms[0], ord) {
        Some(arms[0])
    } else {
        taken(arms.skip(1), ord)
    }
}

proof fn lemma_arm(name: Seq<char>, a: i32, b: i32)
    ensures
        is_arm_for(from_ord_arm(name, a), b) <==> a == b,
{
    let arm = from_ord_arm(name, a);
    let own = integer(a as int, seq![]);
    let other = integer(b as int, seq![]);
    let pattern = other + seq![joint('='), mark('>')];
    if a == b {
        assert(pattern =~= arm.take(pattern.len() as int));
    }
    if is_arm_for(arm, b) {
        assert(pattern =~= arm.take(pattern.len() as int));
        assert(arm[0] == own[0]);
        assert(pattern[0] == other[0]);
        assert(arm[0] == pattern[0]);
        assert(a < 0 <==> own[0] == mark('-'));
        assert(b < 0 <==> other[0] == mark('-'));
        assert(own =~= arm.take(own.len() as int));
        assert(other =~= pattern.take(other.len() as int));
        assert(own =~= other);
        law_integers_can_be_told_apart(a as int, b as int, seq![]);
    }
}

proof fn lemma_taken(names: Seq<Seq<char>>, ords: Seq<i32>, ord: i32)
    requires
        names.len() == ords.len(),
        ords.no_duplicates(),
    ensures
        forall|i: int|
            0 <= i < names.len() && #[trigger] ords[i] == ord ==> taken(
                from_ord_arms(names, ords),
                ord,
            ) == Some(from_ord_arm(names[i], ord)),
        !ords.contains(ord) ==> taken(from_ord_arms(names, ords), ord) is None,
    decreases names.len(),
{
    if names.len() > 0 {
        let arms = from_ord_arms(names, ords);
        let rest = ords.skip(1);
        lemma_arm(names[0], ords[0], ord);
        assert(arms[0] == from_ord_arm(names[0], ords[0]));
        assert(arms.skip(1) =~= from_ord_arms(names.skip(1), rest));
        assert forall|i: int, j: int| 0 <= i < rest.len() && 0 <= j < rest.len() && i != j implies
            #[trigger] rest[i] != #[trigger] rest[j] by {
            assert(ords[i + 1] != ords[j + 1]);
        }
        lemma_taken(names.skip(1), rest, ord);
        if !ords.contains(ord) {
            assert(ords[0] != ord);
            assert(!rest.contains(ord)) by {
                if rest.contains(ord) {
                    let k = choose|k: int| 0 <= k < rest.len() && rest[k] == ord;
                    assert(ords[k + 1] == ord);
                }
            }
        }
        assert forall|i: int| 0 <= i < names.len() && #[trigger] ords[i] == ord implies taken(
            arms,
            ord,
        ) == Some(from_ord_arm(names[i], ord)) by {
            if i > 0 {
                assert(ords[0] != ords[i]);
                assert(rest[i - 1] == ord);
                assert(names.skip(1)[i - 1] == names[i]);
            }
        }
    }
}

/// `from_ord` undoes `to_ord`, in an enum whose ordinals are distinct. `to_ord` gives the ordinal
/// that the enum states, `Name = ord`; on that ordinal the `match` takes the arm
/// `ord => Self::Name`, whatever the order of the arms. On an ordinal that the enum does not state
/// it takes none of them.
pub proof fn law_from_ord_undoes_to_ord(names: Seq<Seq<char>>, ords: Seq<i32>)
    requires
        names.len() == ords.len(),
        ords.no_duplicates(),
    ensures
        enumerators(names, ords).len() == names.len(),
        forall|i: int|
            0 <= i < names.len() ==> {
                &&& #[trigger] enumerators(names, ords)[i] == enumerator(names[i], ords[i])
                &&& taken(from_ord_arms(names, ords), ords[i]) == Some(
                    from_ord_arm(names[i], ords[i]),
                )
            },
        forall|ord: i32|
            !ords.contains(ord) ==> #[trigger] taken(from_ord_arms(names, ords), ord) is None,
{
    assert forall|i: int| 0 <= i < names.len() implies {
        &&& #[trigger] enumerators(names, ords)[i] == enumerator(names[i], ords[i])
        &&& taken(from_ord_arms(names, ords), ords[i]) == Some(from_ord_arm(names[i], ords[i]))
    } by {
        lemma_taken(names, ords, ords[i]);
    }
    assert forall|ord: i32| !ords.contains(ord) implies #[trigger] taken(
        from_ord_arms(names, ords),
        ord,
    ) is None by {
        lemma_taken(names, ords, ord);
    }
}

/// The names of the variant types, `Nil` first.
pub open spec fn names_with_nil(items: Items) -> Seq<Seq<char>> {
    seq!["Nil"@] + items.type_names
}

/// The ordinals of the variant types, that of `Nil` first.
pub open spec fn ords_with_nil(items: Items) -> Seq<i32> {
    seq![0i32] + items.type_ords
}

/// In the enum of variant types `from_ord` undoes `to_ord`, for `Nil` and for the builtin types,
/// and any other ordinal reaches `unreachable!`. The enum states the names and ordinals of all of
/// them, and the `match` has their arms and, behind them, `_ => unreachable!(..)`.
pub proof fn law_variant_type_ordinals(items: Items)
    requires
        items.type_names.len() == items.type_ords.len(),
        items.type_ords.no_duplicates(),
        !items.type_ords.contains(0),
    ensures
        ({
            let names = names_with_nil(items);
            let ords = ords_with_nil(items);
            let arms = from_ord_arms(names, ords);
            &&& variant_type(items) == ord_enum("VariantType", flat(enumerators(names, ords)))
                + ord_impl(
                "VariantType",
                "GDNativeVariantType",
                flat(arms),
                "invalid variant type {}",
            ) + ffi_impl("VariantType")
            &&& forall|i: int|
                0 <= i < names.len() ==> {
                    &&& #[trigger] enumerators(names, ords)[i] == enumerator(names[i], ords[i])
                    &&& taken(arms, ords[i]) == Some(from_ord_arm(names[i], ords[i]))
                }
            &&& forall|ord: i32| !ords.contains(ord) ==> #[trigger] taken(arms, ord) is None
        }),
{
    let names = names_with_nil(items);
    let ords = ords_with_nil(items);
    assert forall|i: int, j: int| 0 <= i < ords.len() && 0 <= j < ords.len() && i != j implies
        #[trigger] ords[i] != #[trigger] ords[j] by {
        if i > 0 {
            assert(ords[i] == items.type_ords[i - 1]);
        }
        if j > 0 {
            assert(ords[j] == items.type_ords[j - 1]);
        }
    }
    law_from_ord_undoes_to_ord(names, ords);
    let nil = enumerator("Nil"@, 0);
    let nil_arm = from_ord_arm("Nil"@, 0);
    assert(enumerators(names, ords) =~= seq![nil] + enumerators(items.type_names, items.type_ords));
    assert(from_ord_arms(names, ords) =~= seq![nil_arm] + from_ord_arms(
        items.type_names,
        items.type_ords,
    ));
    lemma_flat_append(seq![nil], enumerators(items.type_names, items.type_ords));
    lemma_flat_append(seq![nil_arm], from_ord_arms(items.type_names, items.type_ords));
    lemma_flat_single(nil);
    lemma_flat_single(nil_arm);
}

/// In the enum of variant operators `from_ord` undoes `to_ord`, and any other ordinal reaches
/// `unreachable!`. The enum states the names and ordinals of the operators, and the `match` has
/// their arms and, behind them, `_ => unreachable!(..)`.
pub proof fn law_variant_operator_ordinals(items: Items)
    requires
        items.operator_names.len() == items.operator_ords.len(),
        items.operator_ords.no_duplicates(),
    ensures
        ({
            let names = items.operator_names;
            let ords = items.operator_ords;
            let arms = from_ord_arms(names, ords);
            &&& variant_operator(items) == ord_enum(
                "VariantOperator",
                flat(enumerators(names, ords)),
            ) + ord_impl(
                "VariantOperator",
                "GDNativeVariantOperator",
                flat(arms),
                "invalid variant operator {}",
            ) + ffi_impl("VariantOperator")
            &&& forall|i: int|
                0 <= i < names.len() ==> {
                    &&& #[trigger] enumerators(names, ords)[i] == enumerator(names[i], ords[i])
                    &&& taken(arms, ords[i]) == Some(from_ord_arm(names[i], ords[i]))
                }
            &&& forall|ord: i32| !ords.contains(ord) ==> #[trigger] taken(arms, ord) is None
        }),
{
    let names = items.operator_names;
    let ords = items.operator_ords;
    law_from_ord_undoes_to_ord(names, ords);
    let enumerated = flat(enumerators(names, ords));
    let arms = flat(from_ord_arms(names, ords));
    assert(Seq::<Token>::empty() + enumerated =~= enumerated);
    assert(Seq::<Token>::empty() + arms =~= arms);
}

/// In the enum of variant types the ordinals ascend, and each belongs to the type whose name
/// stands at its place.
pub proof fn law_variant_types_ascend(api: ExtensionApi, build_config: Seq<char>, ctx: Context)
    ensures
        ({
            let items = central_items(api, build_config, ctx);
            let list = by_value(types_of(api));
            &&& items.type_names.len() == list.len()
            &&& items.type_ords.len() == list.len()
            &&& forall|i: int|
                0 <= i < list.len() ==> items.type_names[i] == capitalized(
                    (#[trigger] list[i]).names.pascal_case,
                ) && items.type_ords[i] == list[i].value
            &&& forall|i: int, j: int|
                0 <= i <= j < list.len() ==> #[trigger] items.type_ords[i]
                    <= #[trigger] items.type_ords[j]
        }),
{
    law_ordinals_ascend(types_of(api));
    let list = by_value(types_of(api));
    let items = central_items(api, build_config, ctx);
    assert forall|i: int, j: int| 0 <= i <= j < list.len() implies #[trigger] items.type_ords[i]
        <= #[trigger] items.type_ords[j] by {
        assert(list[i].value <= list[j].value);
    }
}

/// No two enumerators of variant types have the same name.
pub proof fn law_variant_type_names_are_unique(
    api: ExtensionApi,
    build_config: Seq<char>,
    ctx: Context,
)
    requires
        api_ok(api, build_config),
    ensures
        central_items(api, build_config, ctx).type_names.no_duplicates(),
{
    let values = named_enum(api.global_enums@, "Variant.Type"@)->0.values@;
    let classes = api.builtin_classes@;
    let table = types_of(api);
    let list = by_value(table);
    let names = central_items(api, build_config, ctx).type_names;
    law_type_names_are_unique(values, classes_by_name(classes));
    law_listing_keeps_types(table);
    assert(table.no_duplicates());
    table.lemma_multiset_has_no_duplicates();
    list.lemma_multiset_has_no_duplicates_conv();
    assert forall|i: int, j: int| 0 <= i < j < names.len() implies names[i] != names[j] by {
        lemma_listed(table, list[i]);
        lemma_listed(table, list[j]);
        assert(list[i] != list[j]);
        let k = choose|k: int| 0 <= k < table.len() && table[k] == list[i];
        let l = choose|l: int| 0 <= l < table.len() && table[l] == list[j];
        if k < l {
            law_types_can_be_told_apart(values, classes, k, l);
        } else {
            law_types_can_be_told_apart(values, classes, l, k);
        }
        assert(type_ok(list[i], table));
        assert(type_ok(list[j], table));
        law_capitalized(list[i].names.pascal_case);
        law_capitalized(list[j].names.pascal_case);
    }
}

proof fn lemma_listed(table: Seq<TypeInfo>, info: TypeInfo)
    requires
        by_value(table).contains(info),
    ensures
        table.contains(info),
{
    broadcast use vstd::seq_lib::group_to_multiset_ensures;

    law_listing_keeps_types(table);
    assert(by_value(table).to_multiset().contains(info));
}

/// Where the enumerators of the builtin types have distinct values, and none is 0, the ordinals of
/// the variant types are distinct, and none is that of `Nil`.
pub proof fn law_type_ordinals_are_distinct(
    api: ExtensionApi,
    build_config: Seq<char>,
    ctx: Context,
)
    requires
        named_enum(api.global_enums@, "Variant.Type"@) matches Some(e) && {
            &&& forall|k: int, l: int|
                0 <= k < l < e.values@.len() && is_builtin_type(#[trigger] e.values@[k])
                    && is_builtin_type(#[trigger] e.values@[l]) ==> e.values@[k].value
                    != e.values@[l].value
            &&& forall|k: int|
                0 <= k < e.values@.len() && is_builtin_type(#[trigger] e.values@[k])
                    ==> e.values@[k].value != 0
        },
    ensures
        central_items(api, build_config, ctx).type_ords.no_duplicates(),
        !central_items(api, build_config, ctx).type_ords.contains(0),
{
    let values = named_enum(api.global_enums@, "Variant.Type"@)->0.values@;
    let classes = classes_by_name(api.builtin_classes@);
    let table = types_of(api);
    let list = by_value(table);
    let ords = central_items(api, build_config, ctx).type_ords;
    law_type_names_are_unique(values, classes);
    law_listing_keeps_types(table);
    assert(table.no_duplicates());
    table.lemma_multiset_has_no_duplicates();
    list.lemma_multiset_has_no_duplicates_conv();
    assert forall|i: int| 0 <= i < ords.len() implies #[trigger] ords[i] != 0 by {
        let k = lemma_listed_enumerator(values, classes, list[i]);
    }
    assert forall|i: int, j: int| 0 <= i < j < ords.len() implies ords[i] != ords[j] by {
        assert(list[i] != list[j]);
        let k = lemma_listed_enumerator(values, classes, list[i]);
        let l = lemma_listed_enumerator(values, classes, list[j]);
        assert(k != l);
    }
}

/// The enumerator from which a listed type comes.
proof fn lemma_listed_enumerator(
    values: Seq<Constant>,
    classes: Map<Seq<char>, BuiltinClass>,
    info: TypeInfo,
) -> (k: int)
    requires
        by_value(type_table(values, classes)).contains(info),
    ensures
        0 <= k < values.len(),
        is_builtin_type(values[k]),
        info == type_info(values[k], classes),
{
    let table = type_table(values, classes);
    lemma_listed(table, info);
    let i = choose|i: int| 0 <= i < table.len() && table[i] == info;
    law_types_come_from_enumerators(values, classes, i);
    choose|k: int|
        0 <= k < values.len() && is_builtin_type(#[trigger] values[k]) && table[i] == type_info(
            values[k],
            classes,
        )
}

/// Where the enumerators of operators have distinct values, the ordinals of the operators are
/// distinct.
pub proof fn law_operator_ordinals_are_distinct(values: Seq<Constant>)
    requires
        forall|k: int, l: int|
            0 <= k < l < values.len() && is_operator(#[trigger] values[k]) && is_operator(
                #[trigger] values[l],
            ) ==> values[k].value != values[l].value,
    ensures
        operator_ordinals(operators_of(values)).no_duplicates(),
    decreases values.len(),
{
    broadcast use vstd::seq_lib::group_filter_ensures;

    reveal(Seq::filter);
    if values.len() > 0 {
        let rest = values.drop_last();
        let before = operators_of(rest);
        let ords = operator_ordinals(operators_of(values));
        assert forall|k: int, l: int|
            0 <= k < l < rest.len() && is_operator(#[trigger] rest[k]) && is_operator(
                #[trigger] rest[l],
            ) implies rest[k].value != rest[l].value by {
            assert(values[k].value != values[l].value);
        }
        law_operator_ordinals_are_distinct(rest);
        assert forall|i: int, j: int| 0 <= i < j < ords.len() implies ords[i] != ords[j] by {
            if j < before.len() {
                assert(operator_ordinals(before)[i] != operator_ordinals(before)[j]);
            } else {
                assert(before.contains(before[i]));
                rest.lemma_filter_contains_rev(|c: Constant| is_operator(c), before[i]);
                let k = choose|k: int| 0 <= k < rest.len() && rest[k] == before[i];
                assert(is_operator(values[k]));
                assert(values[k].value != values[values.len() - 1].value);
            }
        }
    }
}

/// The operators are the enumerators of `Variant.Operator` but `MAX`: each of the others is kept,
/// in its place among them.
pub proof fn law_operators_are_kept(first: Seq<Constant>, c: Constant, second: Seq<Constant>)
    ensures
        operators_of(first + seq![c] + second) == if is_operator(c) {
            operators_of(first) + seq![c] + operators_of(second)
        } else {
            operators_of(first) + operators_of(second)
        },
{
    let pred = |c: Constant| is_operator(c);
    Seq::filter_distributes_over_add(first + seq![c], second, pred);
    Seq::filter_distributes_over_add(first, seq![c], pred);
    reveal_with_fuel(Seq::filter, 2);
    assert(seq![c].drop_last() =~= Seq::<Constant>::empty());
    assert(operators_of(seq![c]) =~= if is_operator(c) {
        seq![c]
    } else {
        Seq::empty()
    });
    assert(operators_of(first) + Seq::<Constant>::empty() =~= operators_of(first));
}

// ---- opaque types and global enums ----

/// Only the first entry for the build configuration counts: what stands behind it has no
/// influence on the sizes.
pub proof fn law_first_sizes_count(
    entries: Seq<ClassSizes>,
    more: Seq<ClassSizes>,
    build_config: Seq<char>,
    i: int,
)
    requires
        0 <= i < entries.len(),
        entries[i].build_configuration@ == build_config,
    ensures
        sizes_for(entries + more, build_config) == sizes_for(entries, build_config),
    decreases entries.len(),
{
    if entries[0].build_configuration@ != build_config {
        assert((entries + more).skip(1) =~= entries.skip(1) + more);
        assert(entries.skip(1)[i - 1] == entries[i]);
        law_first_sizes_count(entries.skip(1), more, build_config, i - 1);
    } else {
        assert((entries + more)[0] == entries[0]);
    }
}

/// Without an entry for the build configuration there are no opaque types.
pub proof fn law_no_sizes(entries: Seq<ClassSizes>, build_config: Seq<char>)
    requires
        forall|i: int|
            0 <= i < entries.len() ==> (#[trigger] entries[i]).build_configuration@
                != build_config,
    ensures
        sizes_for(entries, build_config).len() == 0,
    decreases entries.len(),
{
    if entries.len() > 0 {
        assert forall|i: int| 0 <= i < entries.skip(1).len() implies (
        #[trigger] entries.skip(1)[i]).build_configuration@ != build_config by {
            assert(entries.skip(1)[i] == entries[i + 1]);
        }
        law_no_sizes(entries.skip(1), build_config);
    }
}

/// Every global enum is defined but the two that are handled explicitly.
pub proof fn law_other_enums_are_defined(
    enums: Seq<Enum>,
    definitions: Seq<Seq<Token>>,
    i: int,
)
    requires
        0 <= i < enums.len(),
        !is_explicit(enums[i].name@),
    ensures
        definitions_of(enums, definitions).contains(definitions[i]),
    decreases enums.len(),
{
    let rest = enums.drop_last();
    let before = definitions_of(rest, definitions);
    let result = definitions_of(enums, definitions);
    if i < enums.len() - 1 {
        law_other_enums_are_defined(rest, definitions, i);
        let k = choose|k: int| 0 <= k < before.len() && before[k] == definitions[i];
        assert(result[k] == definitions[i]);
    } else {
        assert(result[result.len() - 1] == definitions[i]);
    }
}

/// The definitions do not depend on what is given for the two enums that are handled explicitly.
pub proof fn law_explicit_enums_are_skipped(
    enums: Seq<Enum>,
    first: Seq<Seq<Token>>,
    second: Seq<Seq<Token>>,
)
    requires
        first.len() == enums.len(),
        second.len() == enums.len(),
        forall|i: int|
            0 <= i < enums.len() && !is_explicit(#[trigger] enums[i].name@) ==> first[i]
                == second[i],
    ensures
        definitions_of(enums, first) == definitions_of(enums, second),
{
    lemma_definitions_agree(enums, first, second, enums.len() as int);
    assert(enums.take(enums.len() as int) =~= enums);
}

proof fn lemma_definitions_agree(
    enums: Seq<Enum>,
    first: Seq<Seq<Token>>,
    second: Seq<Seq<Token>>,
    end: int,
)
    requires
        0 <= end <= enums.len(),
        forall|i: int|
            0 <= i < enums.len() && !is_explicit(#[trigger] enums[i].name@) ==> first[i]
                == second[i],
    ensures
        definitions_of(enums.take(end), first) == definitions_of(enums.take(end), second),
    decreases end,
{
    if end > 0 {
        lemma_definitions_agree(enums, first, second, end - 1);
        assert(enums.take(end).drop_last() =~= enums.take(end - 1));
        assert(enums.take(end).last() == enums[end - 1]);
    }
}

// ---- the files ----

/// The file of the sys crate depends on the interface description and the build configuration
/// alone.
pub proof fn law_sys_file_ignores_context(
    api: ExtensionApi,
    build_config: Seq<char>,
    first: Context,
    second: Context,
)
    ensures
        sys_tokens(central_items(api, build_config, first)) == sys_tokens(
            central_items(api, build_config, second),
        ),
{
}

/// The file of the core crate does not depend on the build configuration.
pub proof fn law_core_file_ignores_build_config(
    api: ExtensionApi,
    first: Seq<char>,
    second: Seq<char>,
    ctx: Context,
)
    ensures
        core_tokens(central_items(api, first, ctx)) == core_tokens(
            central_items(api, second, ctx),
        ),
{
}

} // verus!
