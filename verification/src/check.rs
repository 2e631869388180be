//! Whether code can be generated from an interface description, and why not.

use crate::api::{
    BuiltinClass, ClassSize, Constant, Constructor, ExtensionApi, MethodArg, named_enum,
};
use crate::fields::{
    constructor_name, is_conversion, is_copy, is_trivial, is_trivial_name, make_constructor_name,
    names_ok,
};
use crate::ident::{ascii, is_ident, is_identifier};
use crate::items::{
    Context, api_ok, context_ok, enumerator_ok, find_sizes, is_operator, opaque_ok,
    operator_constant_ok, operator_name, sizes_for, type_ok, types_of,
};
use crate::text::{
    capitalize, has_shout_case, is_shout_case, pascal, remove_underscores, same_text,
    shout_to_pascal, strip_prefix, to_lower,
};
use crate::types::{
    BuiltinTypeInfo, BuiltinTypes, TypeInfo, TypeNames, by_value, class_key, classes_by_name,
    collect_builtin_classes, collect_builtin_types, find_enum, find_type, infos, is_builtin_type,
    optional, referents, shout_name, sort_by_value, type_constant_ok,
};
use vstd::hash_map::StringHashMap;
use vstd::prelude::*;
use vstd::string::*;

verus! {

/// Why no code can be generated.
#[derive(Clone, Copy, Debug, PartialEq, Eq, Structural)]
pub enum FaultKind {
    /// A type whose size is given: its name does not give the name of an opaque type.
    OpaqueName,
    /// A global enum is missing.
    MissingEnum,
    /// An enumerator of `Variant.Type`: its name does not begin with `TYPE_`.
    TypePrefix,
    /// An enumerator of `Variant.Type`: it has no class, and is not the type of objects.
    MissingClass,
    /// An enumerator of `Variant.Type`: its name does not give an identifier.
    TypeName,
    /// A type: its constructors are not listed by index.
    ConstructorIndex,
    /// A type: its first constructor is missing or has arguments.
    DefaultConstructor,
    /// A type: its second constructor is missing or does not copy.
    CopyConstructor,
    /// A type: its name does not give names of fields.
    FieldName,
    /// A type: one of its constructors converts from a type that is not known.
    SourceType,
    /// A type: the name of a field for one of its constructors is not an identifier.
    ConstructorName,
    /// A type: its name does not give the name of an enumerator.
    EnumeratorName,
    /// An enumerator of `Variant.Operator`: its name does not begin with `OP_`.
    OperatorPrefix,
    /// An enumerator of `Variant.Operator`: its name does not give the name of an enumerator.
    OperatorName,
    /// A type: its Rust type is not given.
    MissingRustType,
    /// The number of definitions that are given is not that of the global enums.
    EnumDefinitions,
}

/// Why no code can be generated, and the name of what is at fault; the name is empty where the
/// fault lies with no single thing.
#[derive(Debug)]
pub struct Fault {
    pub kind: FaultKind,
    pub name: String,
}

/// [`Fault`] in contracts.
pub struct Flaw {
    pub kind: FaultKind,
    pub name: Seq<char>,
}

impl View for Fault {
    type V = Flaw;

    open spec fn view(&self) -> Flaw {
        Flaw { kind: self.kind, name: self.name@ }
    }
}

// ---- which fault comes first ----

/// What a fault says, where there is one.
pub open spec fn said(fault: Option<Fault>) -> Option<Flaw> {
    match fault {
        Some(f) => Some(f@),
        None => None,
    }
}

/// The first fault of a list.
pub open spec fn first(list: Seq<Option<Flaw>>) -> Option<Flaw>
    decreases list.len(),
{
    if list.len() == 0 {
        None
    } else if list[0] is Some {
        list[0]
    } else {
        first(list.skip(1))
    }
}

/// The one fault, or else the other.
pub open spec fn or_else(one: Option<Flaw>, other: Option<Flaw>) -> Option<Flaw> {
    if one is Some {
        one
    } else {
        other
    }
}

/// A fault of the given kind where the condition fails.
pub open spec fn unless(ok: bool, kind: FaultKind, name: Seq<char>) -> Option<Flaw> {
    if ok {
        None
    } else {
        Some(Flaw { kind, name })
    }
}

/// The fault of a name for an opaque type.
pub open spec fn opaque_fault(name: Seq<char>) -> Option<Flaw> {
    unless(opaque_ok(name), FaultKind::OpaqueName, name)
}

/// The fault of each of the types whose size is given.
pub open spec fn opaque_faults(sizes: Seq<ClassSize>) -> Seq<Option<Flaw>> {
    sizes.map_values(|c: ClassSize| opaque_fault(c.name@))
}

/// The fault of an enumerator of `Variant.Type`.
pub open spec fn type_constant_fault(
    c: Constant,
    classes: Map<Seq<char>, BuiltinClass>,
) -> Option<Flaw> {
    let name = c.name@;
    or_else(
        unless("TYPE_"@.is_prefix_of(name), FaultKind::TypePrefix, name),
        if is_builtin_type(c) {
            or_else(
                unless(
                    classes.contains_key(class_key(c)) || class_key(c) == "object"@,
                    FaultKind::MissingClass,
                    name,
                ),
                unless(
                    is_ident("GDNATIVE_VARIANT_TYPE_"@ + shout_name(c)),
                    FaultKind::TypeName,
                    name,
                ),
            )
        } else {
            None
        },
    )
}

/// The fault of each of the enumerators of `Variant.Type`.
pub open spec fn type_constant_faults(
    values: Seq<Constant>,
    classes: Map<Seq<char>, BuiltinClass>,
) -> Seq<Option<Flaw>> {
    values.map_values(|c: Constant| type_constant_fault(c, classes))
}

/// The fault of an enumerator of `Variant.Operator`.
pub open spec fn operator_constant_fault(c: Constant) -> Option<Flaw> {
    or_else(
        unless("OP_"@.is_prefix_of(c.name@), FaultKind::OperatorPrefix, c.name@),
        unless(
            is_operator(c) ==> is_shout_case(operator_name(c)) && is_ident(
                pascal(operator_name(c)),
            ),
            FaultKind::OperatorName,
            c.name@,
        ),
    )
}

/// The fault of each of the enumerators of `Variant.Operator`.
pub open spec fn operator_constant_faults(values: Seq<Constant>) -> Seq<Option<Flaw>> {
    values.map_values(|c: Constant| operator_constant_fault(c))
}

/// Each constructor stands at its index.
pub open spec fn indices_ok(list: Seq<Constructor>) -> bool {
    forall|i: int| 0 <= i < list.len() ==> (#[trigger] list[i]).index == i
}

/// The fault of how the constructors of a type are listed.
pub open spec fn layout_fault(list: Seq<Constructor>, pascal_case: Seq<char>) -> Option<Flaw> {
    or_else(
        unless(indices_ok(list), FaultKind::ConstructorIndex, pascal_case),
        or_else(
            unless(
                list.len() > 0 && list[0].arguments is None,
                FaultKind::DefaultConstructor,
                pascal_case,
            ),
            unless(
                list.len() > 1 && is_copy(list[1].arguments, pascal_case),
                FaultKind::CopyConstructor,
                pascal_case,
            ),
        ),
    )
}

/// The fault of one of the third and later constructors of a type.
pub open spec fn extra_constructor_fault(
    info: TypeInfo,
    constructor: Constructor,
    types: Seq<TypeInfo>,
) -> Option<Flaw> {
    match constructor.arguments {
        Some(arguments) => or_else(
            unless(
                is_conversion(arguments@) ==> find_type(types, arguments@[0].type_@) is Some,
                FaultKind::SourceType,
                info.names.pascal_case,
            ),
            unless(
                is_ident(constructor_name(info.names, arguments@, types)),
                FaultKind::ConstructorName,
                info.names.pascal_case,
            ),
        ),
        None => None,
    }
}

/// The fault of each of the third and later constructors of a type.
pub open spec fn extra_constructor_faults(
    info: TypeInfo,
    list: Seq<Constructor>,
    types: Seq<TypeInfo>,
) -> Seq<Option<Flaw>> {
    list.skip(2).map_values(|c: Constructor| extra_constructor_fault(info, c, types))
}

/// The constructors of a type, where they are used.
pub open spec fn used_constructors(info: TypeInfo) -> Option<Seq<Constructor>> {
    if is_trivial_name(info.names.pascal_case) {
        None
    } else {
        info.constructors
    }
}

/// The fault of a type: of the list of its constructors, of its spellings, of the third and later
/// constructors, or of its enumerator.
pub open spec fn type_fault(info: TypeInfo, types: Seq<TypeInfo>) -> Option<Flaw> {
    let name = info.names.pascal_case;
    or_else(
        match used_constructors(info) {
            Some(list) => layout_fault(list, name),
            None => None,
        },
        or_else(
            unless(names_ok(info.names), FaultKind::FieldName, name),
            or_else(
                match used_constructors(info) {
                    Some(list) => first(extra_constructor_faults(info, list, types)),
                    None => None,
                },
                unless(enumerator_ok(name), FaultKind::EnumeratorName, name),
            ),
        ),
    )
}

/// The fault of each of the types.
pub open spec fn type_faults(list: Seq<TypeInfo>, types: Seq<TypeInfo>) -> Seq<Option<Flaw>> {
    list.map_values(|t: TypeInfo| type_fault(t, types))
}

/// The first fault of an interface description, in the order in which the central files are
/// made: of the opaque types, of the enumerators of `Variant.Type`, of the types by ascending
/// ordinal, and of the enumerators of `Variant.Operator`. That this enum is missing comes before
/// the faults of the types.
pub open spec fn api_fault(api: ExtensionApi, build_config: Seq<char>) -> Option<Flaw> {
    let types = named_enum(api.global_enums@, "Variant.Type"@);
    let operators = named_enum(api.global_enums@, "Variant.Operator"@);
    or_else(
        first(opaque_faults(sizes_for(api.builtin_class_sizes@, build_config))),
        or_else(
            unless(types is Some, FaultKind::MissingEnum, "Variant.Type"@),
            or_else(
                first(
                    type_constant_faults(
                        types->0.values@,
                        classes_by_name(api.builtin_classes@),
                    ),
                ),
                or_else(
                    unless(operators is Some, FaultKind::MissingEnum, "Variant.Operator"@),
                    or_else(
                        first(type_faults(by_value(types_of(api)), types_of(api))),
                        first(operator_constant_faults(operators->0.values@)),
                    ),
                ),
            ),
        ),
    )
}

/// The fault of each of the types whose Rust type is not given.
pub open spec fn given_faults(list: Seq<TypeInfo>, ctx: Context) -> Seq<Option<Flaw>> {
    list.map_values(
        |t: TypeInfo|
            unless(
                ctx.rust_types@.contains_key(t.names.pascal_case),
                FaultKind::MissingRustType,
                t.names.pascal_case,
            ),
    )
}

/// The first fault of a context: of the Rust types, by ascending ordinal, or of the definitions.
pub open spec fn context_fault(api: ExtensionApi, ctx: Context) -> Option<Flaw> {
    or_else(
        first(given_faults(by_value(types_of(api)), ctx)),
        unless(
            ctx.enum_definitions@.len() == api.global_enums@.len(),
            FaultKind::EnumDefinitions,
            Seq::empty(),
        ),
    )
}

// ---- no fault ----

/// The first fault stands behind those that have none.
proof fn lemma_first(list: Seq<Option<Flaw>>, i: int)
    requires
        0 <= i <= list.len(),
        forall|j: int| 0 <= j < i ==> (#[trigger] list[j]) is None,
    ensures
        i == list.len() ==> first(list) is None,
        i < list.len() && list[i] is Some ==> first(list) == list[i],
    decreases list.len(),
{
    if i > 0 {
        assert(list[0] is None);
        let rest = list.skip(1);
        assert forall|j: int| 0 <= j < i - 1 implies (#[trigger] rest[j]) is None by {
            assert(list[j + 1] is None);
        }
        lemma_first(rest, i - 1);
    }
}

/// There is no first fault where there is none.
proof fn lemma_none(list: Seq<Option<Flaw>>)
    ensures
        first(list) is None <==> forall|i: int|
            0 <= i < list.len() ==> (#[trigger] list[i]) is None,
    decreases list.len(),
{
    if list.len() > 0 {
        let rest = list.skip(1);
        lemma_none(rest);
        if list[0] is None {
            if first(rest) is None {
                assert forall|i: int| 0 <= i < list.len() implies (#[trigger] list[i]) is None by {
                    if i > 0 {
                        assert(rest[i - 1] is None);
                    }
                }
            } else {
                let k = choose|k: int| 0 <= k < rest.len() && (#[trigger] rest[k]) is Some;
                assert(list[k + 1] is Some);
            }
        }
    }
}

proof fn lemma_no_type_fault(info: TypeInfo, types: Seq<TypeInfo>)
    ensures
        type_fault(info, types) is None <==> type_ok(info, types),
{
    if let Some(list) = used_constructors(info) {
        let faults = extra_constructor_faults(info, list, types);
        lemma_none(faults);
        if list.len() >= 2 {
            assert forall|i: int| 2 <= i < list.len() implies faults[i - 2]
                == extra_constructor_fault(info, #[trigger] list[i], types) by {
                assert(list.skip(2)[i - 2] == list[i]);
            }
            assert forall|i: int| 0 <= i < faults.len() implies #[trigger] faults[i]
                == extra_constructor_fault(info, list[i + 2], types) by {}
        }
    }
}

/// Code can be generated from an interface description exactly where it has no fault.
pub proof fn law_no_fault(api: ExtensionApi, build_config: Seq<char>)
    ensures
        api_fault(api, build_config) is None <==> api_ok(api, build_config),
{
    let sizes = sizes_for(api.builtin_class_sizes@, build_config);
    let types = named_enum(api.global_enums@, "Variant.Type"@);
    let operators = named_enum(api.global_enums@, "Variant.Operator"@);
    let classes = classes_by_name(api.builtin_classes@);
    let list = by_value(types_of(api));
    let sized = opaque_faults(sizes);
    let typed = type_constant_faults(types->0.values@, classes);
    let listed = type_faults(list, types_of(api));
    let operated = operator_constant_faults(operators->0.values@);
    lemma_none(sized);
    lemma_none(typed);
    lemma_none(listed);
    lemma_none(operated);
    assert forall|i: int| 0 <= i < sizes.len() implies (opaque_ok((#[trigger] sizes[i]).name@)
        <==> sized[i] is None) by {}
    assert forall|i: int| 0 <= i < typed.len() implies (type_constant_ok(
        #[trigger] types->0.values@[i],
        classes,
    ) <==> typed[i] is None) by {}
    assert forall|i: int| 0 <= i < list.len() implies (type_ok(#[trigger] list[i], types_of(api))
        <==> listed[i] is None) by {
        lemma_no_type_fault(list[i], types_of(api));
    }
    assert forall|i: int| 0 <= i < operated.len() implies (operator_constant_ok(
        #[trigger] operators->0.values@[i],
    ) <==> operated[i] is None) by {}
}

/// Nothing is missing in a context exactly where it has no fault.
pub proof fn law_no_context_fault(api: ExtensionApi, ctx: Context)
    ensures
        context_fault(api, ctx) is None <==> context_ok(api, ctx),
{
    let list = by_value(types_of(api));
    let faults = given_faults(list, ctx);
    lemma_none(faults);
    assert forall|i: int| 0 <= i < list.len() implies (ctx.rust_types@.contains_key(
        (#[trigger] list[i]).names.pascal_case,
    ) <==> faults[i] is None) by {}
}

// ---- finding the faults ----

/// A fault.
fn fault(kind: FaultKind, name: &str) -> (r: Option<Fault>)
    ensures
        said(r) == Some(Flaw { kind, name: name@ }),
{
    Some(Fault { kind, name: name.to_string() })
}

/// Whether the first character is there and is ASCII.
fn begins_ascii(s: &str) -> (b: bool)
    ensures
        b == (s@.len() > 0 && ascii(s@[0])),
{
    s.unicode_len() > 0 && s.get_char(0) <= '\u{7f}'
}

/// The fault of a name for an opaque type.
fn find_opaque_fault(name: &str) -> (r: Option<Fault>)
    ensures
        said(r) == opaque_fault(name@),
{
    if begins_ascii(name) && is_identifier(
        "Opaque".to_string().concat(capitalize(name).as_str()).as_str(),
    ) {
        None
    } else {
        fault(FaultKind::OpaqueName, name)
    }
}

/// The first fault of the types whose size is given.
fn find_size_fault(sizes: &Vec<ClassSize>) -> (r: Option<Fault>)
    ensures
        said(r) == first(opaque_faults(sizes@)),
{
    let ghost faults = opaque_faults(sizes@);
    for i in 0..sizes.len()
        invariant
            faults == opaque_faults(sizes@),
            forall|j: int| 0 <= j < i ==> (#[trigger] faults[j]) is None,
    {
        let found = find_opaque_fault(sizes[i].name.as_str());
        assert(said(found) == faults[i as int]);
        if found.is_some() {
            proof {
                lemma_first(faults, i as int);
            }
            return found;
        }
    }
    proof {
        lemma_first(faults, faults.len() as int);
    }
    None
}

/// The fault of an enumerator of `Variant.Type`.
fn find_type_constant_fault(c: &Constant, class_map: &StringHashMap<&BuiltinClass>) -> (r: Option<
    Fault,
>)
    ensures
        said(r) == type_constant_fault(*c, referents(class_map@)),
{
    let name = c.name.as_str();
    match strip_prefix(name, "TYPE_") {
        Some(shout_case) => {
            if same_text(shout_case, "NIL") || same_text(shout_case, "MAX") {
                return None;
            }
            let normalized = remove_underscores(to_lower(shout_case).as_str());
            if !class_map.contains_key(normalized.as_str()) && !same_text(
                normalized.as_str(),
                "object",
            ) {
                fault(FaultKind::MissingClass, name)
            } else if !is_identifier(
                "GDNATIVE_VARIANT_TYPE_".to_string().concat(shout_case).as_str(),
            ) {
                fault(FaultKind::TypeName, name)
            } else {
                None
            }
        },
        None => fault(FaultKind::TypePrefix, name),
    }
}

/// The first fault of the enumerators of `Variant.Type`.
fn find_type_constants_fault(
    values: &Vec<Constant>,
    class_map: &StringHashMap<&BuiltinClass>,
) -> (r: Option<Fault>)
    ensures
        said(r) == first(type_constant_faults(values@, referents(class_map@))),
{
    let ghost faults = type_constant_faults(values@, referents(class_map@));
    for i in 0..values.len()
        invariant
            faults == type_constant_faults(values@, referents(class_map@)),
            forall|j: int| 0 <= j < i ==> (#[trigger] faults[j]) is None,
    {
        let found = find_type_constant_fault(&values[i], class_map);
        assert(said(found) == faults[i as int]);
        if found.is_some() {
            proof {
                lemma_first(faults, i as int);
            }
            return found;
        }
    }
    proof {
        lemma_first(faults, faults.len() as int);
    }
    None
}

/// The fault of an enumerator of `Variant.Operator`.
fn find_operator_constant_fault(c: &Constant) -> (r: Option<Fault>)
    ensures
        said(r) == operator_constant_fault(*c),
{
    match strip_prefix(c.name.as_str(), "OP_") {
        Some(name) => {
            if same_text(name, "MAX") || has_shout_case(name) && is_identifier(
                shout_to_pascal(name).as_str(),
            ) {
                None
            } else {
                fault(FaultKind::OperatorName, c.name.as_str())
            }
        },
        None => fault(FaultKind::OperatorPrefix, c.name.as_str()),
    }
}

/// The first fault of the enumerators of `Variant.Operator`.
fn find_operator_constants_fault(values: &Vec<Constant>) -> (r: Option<Fault>)
    ensures
        said(r) == first(operator_constant_faults(values@)),
{
    let ghost faults = operator_constant_faults(values@);
    for i in 0..values.len()
        invariant
            faults == operator_constant_faults(values@),
            forall|j: int| 0 <= j < i ==> (#[trigger] faults[j]) is None,
    {
        let found = find_operator_constant_fault(&values[i]);
        assert(said(found) == faults[i as int]);
        if found.is_some() {
            proof {
                lemma_first(faults, i as int);
            }
            return found;
        }
    }
    proof {
        lemma_first(faults, faults.len() as int);
    }
    None
}

/// Whether the one argument of a constructor is called `from`.
fn converts(arguments: &Vec<MethodArg>) -> (b: bool)
    ensures
        b == is_conversion(arguments@),
{
    arguments.len() == 1 && same_text(arguments[0].name.as_str(), "from")
}

/// Whether a constructor copies a value of the type.
fn copies(constructor: &Constructor, pascal_case: &str) -> (b: bool)
    ensures
        b == is_copy(constructor.arguments, pascal_case@),
{
    match &constructor.arguments {
        Some(arguments) => converts(arguments) && same_text(
            arguments[0].type_.as_str(),
            pascal_case,
        ),
        None => false,
    }
}

/// Whether each constructor stands at its index.
fn has_indices(list: &Vec<Constructor>) -> (b: bool)
    ensures
        b == indices_ok(list@),
{
    for i in 0..list.len()
        invariant
            forall|j: int| 0 <= j < i ==> (#[trigger] list@[j]).index == j,
    {
        if list[i].index != i {
            assert(list@[i as int].index != i);
            return false;
        }
    }
    true
}

/// The fault of how the constructors of a type are listed.
fn find_layout_fault(list: &Vec<Constructor>, pascal_case: &str) -> (r: Option<Fault>)
    ensures
        said(r) == layout_fault(list@, pascal_case@),
{
    if !has_indices(list) {
        fault(FaultKind::ConstructorIndex, pascal_case)
    } else if list.len() == 0 || list[0].arguments.is_some() {
        fault(FaultKind::DefaultConstructor, pascal_case)
    } else if list.len() < 2 || !copies(&list[1], pascal_case) {
        fault(FaultKind::CopyConstructor, pascal_case)
    } else {
        None
    }
}

/// The fault of one of the third and later constructors of a type.
fn find_extra_constructor_fault(
    info: &BuiltinTypeInfo,
    constructor: &Constructor,
    types: &BuiltinTypes,
) -> (r: Option<Fault>)
    ensures
        said(r) == extra_constructor_fault(info@, *constructor, types@),
{
    let names = &info.type_names;
    match &constructor.arguments {
        Some(arguments) => {
            if converts(arguments) && types.get(arguments[0].type_.as_str()).is_none() {
                fault(FaultKind::SourceType, names.pascal_case.as_str())
            } else if !is_identifier(make_constructor_name(names, arguments, types).as_str()) {
                fault(FaultKind::ConstructorName, names.pascal_case.as_str())
            } else {
                None
            }
        },
        None => None,
    }
}

/// The first fault of the third and later constructors of a type.
fn find_extra_constructors_fault(
    info: &BuiltinTypeInfo,
    list: &Vec<Constructor>,
    types: &BuiltinTypes,
) -> (r: Option<Fault>)
    requires
        list@.len() >= 2,
    ensures
        said(r) == first(extra_constructor_faults(info@, list@, types@)),
{
    let ghost faults = extra_constructor_faults(info@, list@, types@);
    for i in 2..list.len()
        invariant
            list@.len() >= 2,
            faults == extra_constructor_faults(info@, list@, types@),
            forall|j: int| 0 <= j < i - 2 ==> (#[trigger] faults[j]) is None,
    {
        let found = find_extra_constructor_fault(info, &list[i], types);
        assert(list@.skip(2)[i - 2] == list@[i as int]);
        assert(said(found) == faults[i - 2]);
        if found.is_some() {
            proof {
                lemma_first(faults, i - 2);
            }
            return found;
        }
    }
    proof {
        lemma_first(faults, faults.len() as int);
    }
    None
}

/// Whether the spellings can be put into identifiers.
fn has_field_names(names: &TypeNames) -> (b: bool)
    ensures
        b == names_ok(names@),
{
    let snake_case = names.snake_case.as_str();
    (snake_case.unicode_len() == 0 || is_identifier(snake_case)) && is_identifier(
        names.sys_variant_type.as_str(),
    )
}

/// The fault of a type.
fn find_type_fault(info: &BuiltinTypeInfo, types: &BuiltinTypes) -> (r: Option<Fault>)
    ensures
        said(r) == type_fault(info@, types@),
{
    let names = &info.type_names;
    let pascal_case = names.pascal_case.as_str();
    let used = if is_trivial(names) {
        None
    } else {
        info.constructors
    };
    assert(optional(used) == used_constructors(info@));
    if let Some(list) = used {
        let found = find_layout_fault(list, pascal_case);
        if found.is_some() {
            return found;
        }
    }
    if !has_field_names(names) {
        return fault(FaultKind::FieldName, pascal_case);
    }
    if let Some(list) = used {
        let found = find_extra_constructors_fault(info, list, types);
        if found.is_some() {
            return found;
        }
    }
    if begins_ascii(pascal_case) && is_identifier(capitalize(pascal_case).as_str()) {
        None
    } else {
        fault(FaultKind::EnumeratorName, pascal_case)
    }
}

/// The first fault of the types.
fn find_types_fault(list: &Vec<&BuiltinTypeInfo>, types: &BuiltinTypes) -> (r: Option<Fault>)
    ensures
        said(r) == first(type_faults(infos(list@), types@)),
{
    let ghost faults = type_faults(infos(list@), types@);
    for i in 0..list.len()
        invariant
            faults == type_faults(infos(list@), types@),
            forall|j: int| 0 <= j < i ==> (#[trigger] faults[j]) is None,
    {
        let found = find_type_fault(list[i], types);
        assert(said(found) == faults[i as int]);
        if found.is_some() {
            proof {
                lemma_first(faults, i as int);
            }
            return found;
        }
    }
    proof {
        lemma_first(faults, faults.len() as int);
    }
    None
}

/// The first of the types whose Rust type is not given.
fn find_given_fault(list: &Vec<&BuiltinTypeInfo>, ctx: &Context) -> (r: Option<Fault>)
    ensures
        said(r) == first(given_faults(infos(list@), *ctx)),
{
    let ghost faults = given_faults(infos(list@), *ctx);
    for i in 0..list.len()
        invariant
            faults == given_faults(infos(list@), *ctx),
            forall|j: int| 0 <= j < i ==> (#[trigger] faults[j]) is None,
    {
        let name = list[i].type_names.pascal_case.as_str();
        assert(infos(list@)[i as int].names.pascal_case == name@);
        if !ctx.rust_types.contains_key(name) {
            assert(faults[i as int] is Some);
            proof {
                lemma_first(faults, i as int);
            }
            return fault(FaultKind::MissingRustType, name);
        }
        assert(faults[i as int] is None);
    }
    proof {
        lemma_first(faults, faults.len() as int);
    }
    None
}

/// The first fault of an interface description.
pub fn find_fault(api: &ExtensionApi, build_config: &str) -> (r: Option<Fault>)
    ensures
        said(r) == api_fault(*api, build_config@),
        r is None <==> api_ok(*api, build_config@),
{
    proof {
        law_no_fault(*api, build_config@);
    }
    if let Some(entry) = find_sizes(api, build_config) {
        let found = find_size_fault(&entry.sizes);
        if found.is_some() {
            return found;
        }
    }
    let class_map = collect_builtin_classes(api);
    match find_enum(api, "Variant.Type") {
        Some(e) => {
            let found = find_type_constants_fault(&e.values, &class_map);
            if found.is_some() {
                return found;
            }
            proof {
                let faults = type_constant_faults(e.values@, referents(class_map@));
                lemma_none(faults);
                assert forall|i: int| 0 <= i < e.values@.len() implies type_constant_ok(
                    #[trigger] e.values@[i],
                    referents(class_map@),
                ) by {
                    assert(faults[i] is None);
                }
            }
        },
        None => {
            return fault(FaultKind::MissingEnum, "Variant.Type");
        },
    }
    let operators = match find_enum(api, "Variant.Operator") {
        Some(e) => e,
        None => {
            return fault(FaultKind::MissingEnum, "Variant.Operator");
        },
    };
    let types = collect_builtin_types(api, &class_map);
    let list = sort_by_value(&types);
    let found = find_types_fault(&list, &types);
    if found.is_some() {
        return found;
    }
    find_operator_constants_fault(&operators.values)
}

/// The first fault of a context, for an interface description that can be read.
pub fn find_context_fault(api: &ExtensionApi, build_config: &str, ctx: &Context) -> (r: Option<
    Fault,
>)
    requires
        api_ok(*api, build_config@),
    ensures
        said(r) == context_fault(*api, *ctx),
        r is None <==> context_ok(*api, *ctx),
{
    proof {
        law_no_context_fault(*api, *ctx);
    }
    let class_map = collect_builtin_classes(api);
    let types = collect_builtin_types(api, &class_map);
    let list = sort_by_value(&types);
    let found = find_given_fault(&list, ctx);
    if found.is_some() {
        return found;
    }
    if ctx.enum_definitions.len() == api.global_enums.len() {
        None
    } else {
        Some(Fault { kind: FaultKind::EnumDefinitions, name: String::new() })
    }
}

/// Whether the interface description can be read.
pub fn check_api(api: &ExtensionApi, build_config: &str) -> (b: bool)
    ensures
        b == api_ok(*api, build_config@),
{
    find_fault(api, build_config).is_none()
}

/// Whether all that the other parts of the generator supply is there, for an interface
/// description that can be read.
pub fn check_context(api: &ExtensionApi, build_config: &str, ctx: &Context) -> (b: bool)
    requires
        api_ok(*api, build_config@),
    ensures
        b == context_ok(*api, *ctx),
{
    find_context_fault(api, build_config, ctx).is_none()
}

} // verus!
