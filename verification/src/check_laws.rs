//! Which interface descriptions are accepted, and which fault is found in the others.

use crate::api::{BuiltinClass, Constant, Constructor, ExtensionApi, named_enum};
use crate::check::{
    FaultKind, Flaw, api_fault, context_fault, extra_constructor_fault, extra_constructor_faults,
    first, given_faults, law_no_fault, layout_fault, opaque_fault, opaque_faults,
    operator_constant_fault, operator_constant_faults, type_constant_fault, type_constant_faults,
    type_fault, type_faults,
};
use crate::entry_laws::{
    behind_type, law_class_keys, law_first_enum_is_found, law_no_enum_is_found, law_types_are_found,
    same_name,
};
use crate::field_laws::{is_full, is_source, law_constructor_name};
use crate::fields::joined;
use crate::ident::is_ident;
use crate::items::{
    Context, api_ok, context_ok, is_operator, opaque_ok, operator_constant_ok, operator_name,
    sizes_for, type_ok, types_of,
};
use crate::text::{capitalized, is_shout_case, lower, pascal, without_underscores};
use crate::types::{
    TypeInfo, by_value, class_key, classes_by_name, is_builtin_type, shout_name, type_constant_ok,
};
use vstd::prelude::*;

verus! {

// ---- what is accepted ----

proof fn lemma_type_texts(c: Constant)
    requires
        "TYPE_"@.is_prefix_of(c.name@),
    ensures
        is_builtin_type(c) <==> c.name@ != "TYPE_NIL"@ && c.name@ != "TYPE_MAX"@,
        shout_name(c) == behind_type(c),
{
    reveal_strlit("TYPE_");
    reveal_strlit("NIL");
    reveal_strlit("MAX");
    reveal_strlit("TYPE_NIL");
    reveal_strlit("TYPE_MAX");
    assert(c.name@ =~= "TYPE_"@ + c.name@.skip(5));
    assert("TYPE_NIL"@ =~= "TYPE_"@ + "NIL"@);
    assert("TYPE_MAX"@ =~= "TYPE_"@ + "MAX"@);
    assert("TYPE_NIL"@.skip(5) =~= "NIL"@);
    assert("TYPE_MAX"@.skip(5) =~= "MAX"@);
}

proof fn lemma_operator_texts(c: Constant)
    requires
        "OP_"@.is_prefix_of(c.name@),
    ensures
        is_operator(c) <==> c.name@ != "OP_MAX"@,
        operator_name(c) == c.name@.skip(3),
{
    reveal_strlit("OP_");
    reveal_strlit("MAX");
    reveal_strlit("OP_MAX");
    assert(c.name@ =~= "OP_"@ + c.name@.skip(3));
    assert("OP_MAX"@ =~= "OP_"@ + "MAX"@);
    assert("OP_MAX"@.skip(3) =~= "MAX"@);
}

/// Some class has the name of the enumerator's type.
pub open spec fn has_class(c: Constant, classes: Seq<BuiltinClass>) -> bool {
    exists|m: int| 0 <= m < classes.len() && same_name(behind_type(c), #[trigger] classes[m])
}

/// The name of a type whose size is given is accepted where it begins with an ASCII character and,
/// capitalised and behind `Opaque`, is an identifier. Otherwise it is at fault.
pub proof fn law_accepted_opaque_names(name: Seq<char>)
    ensures
        opaque_ok(name) <==> {
            &&& name.len() > 0
            &&& name[0] as u32 <= 127
            &&& is_ident("Opaque"@ + capitalized(name))
        },
        opaque_fault(name) == if opaque_ok(name) {
            None
        } else {
            Some(Flaw { kind: FaultKind::OpaqueName, name })
        },
{
}

/// An enumerator of `Variant.Type` is accepted where its name is `TYPE_NIL` or `TYPE_MAX`, or
/// where it begins with `TYPE_` and what follows names a class or objects, and gives an
/// identifier. The fault says which of these fails first.
pub proof fn law_accepted_variant_types(c: Constant, classes: Seq<BuiltinClass>)
    ensures
        type_constant_ok(c, classes_by_name(classes)) <==> type_constant_fault(
            c,
            classes_by_name(classes),
        ) is None,
        type_constant_fault(c, classes_by_name(classes)) == if !"TYPE_"@.is_prefix_of(c.name@) {
            Some(Flaw { kind: FaultKind::TypePrefix, name: c.name@ })
        } else if c.name@ == "TYPE_NIL"@ || c.name@ == "TYPE_MAX"@ {
            None
        } else if !has_class(c, classes) && without_underscores(lower(behind_type(c)))
            != "object"@ {
            Some(Flaw { kind: FaultKind::MissingClass, name: c.name@ })
        } else if !is_ident("GDNATIVE_VARIANT_TYPE_"@ + behind_type(c)) {
            Some(Flaw { kind: FaultKind::TypeName, name: c.name@ })
        } else {
            None
        },
{
    if "TYPE_"@.is_prefix_of(c.name@) {
        lemma_type_texts(c);
        law_class_keys(classes, class_key(c));
        if has_class(c, classes) {
            let m = choose|m: int|
                0 <= m < classes.len() && same_name(behind_type(c), #[trigger] classes[m]);
            assert(lower(classes[m].name@) == class_key(c));
        }
        if classes_by_name(classes).contains_key(class_key(c)) {
            let m = choose|m: int|
                0 <= m < classes.len() && lower((#[trigger] classes[m]).name@) == class_key(c);
            assert(same_name(behind_type(c), classes[m]));
        }
    }
}

/// An enumerator of `Variant.Operator` is accepted where its name is `OP_MAX`, or where it begins
/// with `OP_` and what follows is in shout case and gives an identifier. The fault says which of
/// these fails first.
pub proof fn law_accepted_operators(c: Constant)
    ensures
        operator_constant_ok(c) <==> operator_constant_fault(c) is None,
        operator_constant_fault(c) == if !"OP_"@.is_prefix_of(c.name@) {
            Some(Flaw { kind: FaultKind::OperatorPrefix, name: c.name@ })
        } else if c.name@ != "OP_MAX"@ && !(is_shout_case(c.name@.skip(3)) && is_ident(
            pascal(c.name@.skip(3)),
        )) {
            Some(Flaw { kind: FaultKind::OperatorName, name: c.name@ })
        } else {
            None
        },
{
    if "OP_"@.is_prefix_of(c.name@) {
        lemma_operator_texts(c);
    }
}

/// An interface description with both enums is accepted exactly where every name of an opaque
/// type, every enumerator of the two enums and every listed type is; one without either is not.
pub proof fn law_accepted_descriptions(
    api: ExtensionApi,
    build_config: Seq<char>,
    n: int,
    p: int,
)
    requires
        0 <= n < api.global_enums@.len(),
        api.global_enums@[n].name@ == "Variant.Type"@,
        forall|j: int|
            0 <= j < n ==> (#[trigger] api.global_enums@[j]).name@ != "Variant.Type"@,
        0 <= p < api.global_enums@.len(),
        api.global_enums@[p].name@ == "Variant.Operator"@,
        forall|j: int|
            0 <= j < p ==> (#[trigger] api.global_enums@[j]).name@ != "Variant.Operator"@,
    ensures
        api_ok(api, build_config) <==> {
            let sizes = sizes_for(api.builtin_class_sizes@, build_config);
            let types = api.global_enums@[n].values@;
            let operators = api.global_enums@[p].values@;
            let list = by_value(types_of(api));
            &&& forall|i: int| 0 <= i < sizes.len() ==> opaque_ok((#[trigger] sizes[i]).name@)
            &&& forall|i: int|
                0 <= i < types.len() ==> type_constant_ok(
                    #[trigger] types[i],
                    classes_by_name(api.builtin_classes@),
                )
            &&& forall|i: int|
                0 <= i < operators.len() ==> operator_constant_ok(#[trigger] operators[i])
            &&& forall|i: int|
                0 <= i < list.len() ==> type_ok(#[trigger] list[i], types_of(api))
        },
{
    law_first_enum_is_found(api.global_enums@, "Variant.Type"@, n);
    law_first_enum_is_found(api.global_enums@, "Variant.Operator"@, p);
}

/// An interface description without an enum `Variant.Type`, or without an enum
/// `Variant.Operator`, is refused.
pub proof fn law_missing_enums(api: ExtensionApi, build_config: Seq<char>, name: Seq<char>)
    requires
        name == "Variant.Type"@ || name == "Variant.Operator"@,
        forall|j: int|
            0 <= j < api.global_enums@.len() ==> (#[trigger] api.global_enums@[j]).name@ != name,
    ensures
        !api_ok(api, build_config),
        api_fault(api, build_config) is Some,
{
    law_no_enum_is_found(api.global_enums@, name);
    law_no_fault(api, build_config);
}

/// A context is accepted exactly where it has the Rust type of every listed type and as many
/// definitions as there are global enums.
pub proof fn law_accepted_contexts(api: ExtensionApi, ctx: Context)
    ensures
        context_ok(api, ctx) <==> {
            let list = by_value(types_of(api));
            &&& forall|i: int|
                0 <= i < list.len() ==> ctx.rust_types@.contains_key(
                    (#[trigger] list[i]).names.pascal_case,
                )
            &&& ctx.enum_definitions@.len() == api.global_enums@.len()
        },
{
}

// ---- the first fault ----

/// The first fault of a list is the one that no other stands before; a list has one unless nothing
/// in it is at fault.
pub proof fn law_first_fault(list: Seq<Option<Flaw>>)
    ensures
        match first(list) {
            Some(flaw) => exists|i: int|
                {
                    &&& 0 <= i < list.len()
                    &&& #[trigger] list[i] == Some(flaw)
                    &&& forall|j: int| 0 <= j < i ==> (#[trigger] list[j]) is None
                },
            None => forall|i: int| 0 <= i < list.len() ==> (#[trigger] list[i]) is None,
        },
    decreases list.len(),
{
    if list.len() > 0 {
        let rest = list.skip(1);
        law_first_fault(rest);
        if list[0] is Some {
            assert(list[0] == Some(first(list)->0));
        } else if let Some(flaw) = first(rest) {
            let i = choose|i: int|
                {
                    &&& 0 <= i < rest.len()
                    &&& #[trigger] rest[i] == Some(flaw)
                    &&& forall|j: int| 0 <= j < i ==> (#[trigger] rest[j]) is None
                };
            assert(list[i + 1] == Some(flaw));
            assert forall|j: int| 0 <= j < i + 1 implies (#[trigger] list[j]) is None by {
                if j > 0 {
                    assert(rest[j - 1] is None);
                }
            }
        } else {
            assert forall|i: int| 0 <= i < list.len() implies (#[trigger] list[i]) is None by {
                if i > 0 {
                    assert(rest[i - 1] is None);
                }
            }
        }
    }
}

/// The list of a type's constructors is at fault where one does not stand at its index, the first
/// is missing or has arguments, or the second is missing or does not have one argument called
/// `from` of the type itself.
pub proof fn law_layout_fault(list: Seq<Constructor>, name: Seq<char>)
    ensures
        layout_fault(list, name) == if !(forall|i: int|
            0 <= i < list.len() ==> (#[trigger] list[i]).index == i) {
            Some(Flaw { kind: FaultKind::ConstructorIndex, name })
        } else if list.len() == 0 || list[0].arguments is Some {
            Some(Flaw { kind: FaultKind::DefaultConstructor, name })
        } else if list.len() < 2 || list[1].arguments is None || list[1].arguments->0@.len() != 1
            || list[1].arguments->0@[0].name@ != "from"@ || list[1].arguments->0@[0].type_@
            != name {
            Some(Flaw { kind: FaultKind::CopyConstructor, name })
        } else {
            None
        },
{
}

/// A later constructor of a type is at fault where it converts from a type that is not listed, or
/// where its name is not an identifier; without arguments it is not.
pub proof fn law_extra_constructor_fault(
    info: TypeInfo,
    constructor: Constructor,
    types: Seq<TypeInfo>,
    t: int,
)
    ensures
        constructor.arguments is None ==> extra_constructor_fault(
            info,
            constructor,
            types,
        ) is None,
        constructor.arguments is Some ==> {
            let arguments = constructor.arguments->0@;
            let name = info.names.pascal_case;
            let found = extra_constructor_fault(info, constructor, types);
            if !(arguments.len() == 1 && arguments[0].name@ == "from"@) {
                found == if is_ident(info.names.snake_case + "_from_"@ + joined(arguments)) {
                    None
                } else {
                    Some(Flaw { kind: FaultKind::ConstructorName, name })
                }
            } else {
                &&& is_source(types, t, arguments[0].type_@) ==> found == if is_ident(
                    info.names.snake_case + "_from_"@ + types[t].names.snake_case,
                ) {
                    None
                } else {
                    Some(Flaw { kind: FaultKind::ConstructorName, name })
                }
                &&& (forall|j: int|
                    0 <= j < types.len() ==> (#[trigger] types[j]).names.pascal_case
                        != arguments[0].type_@) ==> found == Some(
                    Flaw { kind: FaultKind::SourceType, name },
                )
            }
        },
{
    if let Some(list) = constructor.arguments {
        let arguments = list@;
        law_constructor_name(info.names, arguments, types, t);
        law_types_are_found(types, arguments[0].type_@);
        if is_source(types, t, arguments[0].type_@) {
            assert(types[t].names.pascal_case == arguments[0].type_@);
        }
    }
}

/// The faults of a type are looked for in order: the list of its constructors, the spellings of
/// its name, the later constructors, its enumerator. The constructors of a trivial type are not
/// looked at.
pub proof fn law_type_fault(info: TypeInfo, types: Seq<TypeInfo>)
    ensures
        ({
            let name = info.names.pascal_case;
            let used = is_full(info.names) && info.constructors is Some;
            let list = info.constructors->0;
            let later = Seq::new(
                if list.len() >= 2 {
                    (list.len() - 2) as nat
                } else {
                    0
                },
                |i: int| extra_constructor_fault(info, list[i + 2], types),
            );
            let found = type_fault(info, types);
            if used && layout_fault(list, name) is Some {
                found == layout_fault(list, name)
            } else if !(info.names.snake_case.len() == 0 || is_ident(info.names.snake_case))
                || !is_ident(info.names.sys_variant_type) {
                found == Some(Flaw { kind: FaultKind::FieldName, name })
            } else if used && first(later) is Some {
                found == first(later)
            } else if name.len() == 0 || name[0] as u32 > 127 || !is_ident(capitalized(name)) {
                found == Some(Flaw { kind: FaultKind::EnumeratorName, name })
            } else {
                found is None
            }
        }),
{
    if is_full(info.names) && info.constructors is Some {
        let list = info.constructors->0;
        if list.len() >= 2 {
            let later = Seq::new(
                (list.len() - 2) as nat,
                |i: int| extra_constructor_fault(info, list[i + 2], types),
            );
            assert(extra_constructor_faults(info, list, types) =~= later);
        }
    }
}

/// The faults of an interface description are looked for in order: the opaque types, the enum
/// `Variant.Type` and its enumerators, the enum `Variant.Operator`, the types by ascending
/// ordinal, the enumerators of `Variant.Operator`.
pub proof fn law_api_fault(api: ExtensionApi, build_config: Seq<char>)
    ensures
        ({
            let sizes = sizes_for(api.builtin_class_sizes@, build_config);
            let types = named_enum(api.global_enums@, "Variant.Type"@);
            let operators = named_enum(api.global_enums@, "Variant.Operator"@);
            let classes = classes_by_name(api.builtin_classes@);
            let list = by_value(types_of(api));
            let of_sizes = Seq::new(sizes.len(), |i: int| opaque_fault(sizes[i].name@));
            let of_enumerators = Seq::new(
                types->0.values@.len(),
                |i: int| type_constant_fault(types->0.values@[i], classes),
            );
            let of_types = Seq::new(list.len(), |i: int| type_fault(list[i], types_of(api)));
            let of_operators = Seq::new(
                operators->0.values@.len(),
                |i: int| operator_constant_fault(operators->0.values@[i]),
            );
            let found = api_fault(api, build_config);
            if first(of_sizes) is Some {
                found == first(of_sizes)
            } else if types is None {
                found == Some(Flaw { kind: FaultKind::MissingEnum, name: "Variant.Type"@ })
            } else if first(of_enumerators) is Some {
                found == first(of_enumerators)
            } else if operators is None {
                found == Some(Flaw { kind: FaultKind::MissingEnum, name: "Variant.Operator"@ })
            } else if first(of_types) is Some {
                found == first(of_types)
            } else {
                found == first(of_operators)
            }
        }),
{
    let sizes = sizes_for(api.builtin_class_sizes@, build_config);
    let types = named_enum(api.global_enums@, "Variant.Type"@)->0.values@;
    let operators = named_enum(api.global_enums@, "Variant.Operator"@)->0.values@;
    let classes = classes_by_name(api.builtin_classes@);
    let list = by_value(types_of(api));
    assert(opaque_faults(sizes) =~= Seq::new(sizes.len(), |i: int| opaque_fault(sizes[i].name@)));
    assert(type_constant_faults(types, classes) =~= Seq::new(
        types.len(),
        |i: int| type_constant_fault(types[i], classes),
    ));
    assert(type_faults(list, types_of(api)) =~= Seq::new(
        list.len(),
        |i: int| type_fault(list[i], types_of(api)),
    ));
    assert(operator_constant_faults(operators) =~= Seq::new(
        operators.len(),
        |i: int| operator_constant_fault(operators[i]),
    ));
}

/// The faults of a context are looked for in order: the Rust types that are missing, by ascending
/// ordinal of their types, and the number of definitions.
pub proof fn law_context_fault(api: ExtensionApi, ctx: Context)
    ensures
        ({
            let list = by_value(types_of(api));
            let missing = Seq::new(
                list.len(),
                |i: int|
                    if ctx.rust_types@.contains_key(list[i].names.pascal_case) {
                        None
                    } else {
                        Some(
                            Flaw {
                                kind: FaultKind::MissingRustType,
                                name: list[i].names.pascal_case,
                            },
                        )
                    },
            );
            let found = context_fault(api, ctx);
            if first(missing) is Some {
                found == first(missing)
            } else if ctx.enum_definitions@.len() != api.global_enums@.len() {
                found == Some(
                    Flaw { kind: FaultKind::EnumDefinitions, name: Seq::<char>::empty() },
                )
            } else {
                found is None
            }
        }),
{
    let list = by_value(types_of(api));
    assert(given_faults(list, ctx) =~= Seq::new(
        list.len(),
        |i: int|
            if ctx.rust_types@.contains_key(list[i].names.pascal_case) {
                None
            } else {
                Some(
                    Flaw { kind: FaultKind::MissingRustType, name: list[i].names.pascal_case },
                )
            },
    ));
}

} // verus!
