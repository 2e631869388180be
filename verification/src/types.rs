//! The builtin types: what the interface description says of each, found by name and listed by
//! the ordinal of its variant type.

use crate::api::{BuiltinClass, Constant, Constructor, Enum, ExtensionApi, Operator, named_enum};
use crate::ident::is_ident;
use crate::text::{
    lower, remove_underscores, same_text, strip_prefix, to_lower, without_underscores,
};
use vstd::hash_map::StringHashMap;
use vstd::prelude::*;
use vstd::string::*;

verus! {

/// The spellings of a builtin type's name.
pub struct TypeNames {
    /// "int" or "PackedVector2Array"
    pub pascal_case: String,
    /// "packed_vector2_array"
    pub snake_case: String,
    /// "GDNATIVE_VARIANT_TYPE_PACKED_VECTOR2_ARRAY"
    pub sys_variant_type: String,
}

/// [`TypeNames`] in contracts.
pub struct Names {
    pub pascal_case: Seq<char>,
    pub snake_case: Seq<char>,
    pub sys_variant_type: Seq<char>,
}

impl View for TypeNames {
    type V = Names;

    open spec fn view(&self) -> Names {
        Names {
            pascal_case: self.pascal_case@,
            snake_case: self.snake_case@,
            sys_variant_type: self.sys_variant_type@,
        }
    }
}

/// What is known of a builtin type before any code is generated for it.
pub struct BuiltinTypeInfo<'a> {
    pub value: i32,
    pub type_names: TypeNames,
    /// Whether Godot has a destructor for this type.
    pub has_destructor: bool,
    pub constructors: Option<&'a Vec<Constructor>>,
    pub operators: Option<&'a Vec<Operator>>,
}

/// [`BuiltinTypeInfo`] in contracts.
pub struct TypeInfo {
    pub value: i32,
    pub names: Names,
    pub has_destructor: bool,
    pub constructors: Option<Seq<Constructor>>,
    pub operators: Option<Seq<Operator>>,
}

/// The sequence that an optional vector holds.
pub open spec fn optional<T>(list: Option<&Vec<T>>) -> Option<Seq<T>> {
    match list {
        Some(v) => Some(v@),
        None => None,
    }
}

impl<'a> View for BuiltinTypeInfo<'a> {
    type V = TypeInfo;

    open spec fn view(&self) -> TypeInfo {
        TypeInfo {
            value: self.value,
            names: self.type_names@,
            has_destructor: self.has_destructor,
            constructors: optional(self.constructors),
            operators: optional(self.operators),
        }
    }
}

// ---- classes by name ----

/// The classes by their names in lower case; of several under one name the last one counts.
pub open spec fn classes_by_name(classes: Seq<BuiltinClass>) -> Map<Seq<char>, BuiltinClass>
    decreases classes.len(),
{
    if classes.len() == 0 {
        Map::empty()
    } else {
        classes_by_name(classes.drop_last()).insert(lower(classes.last().name@), classes.last())
    }
}

/// A map of references, as a map of what they refer to.
pub open spec fn referents(m: Map<Seq<char>, &BuiltinClass>) -> Map<Seq<char>, BuiltinClass> {
    m.map_values(|c: &BuiltinClass| *c)
}

/// Lists the builtin classes by their names in lower case.
pub fn collect_builtin_classes<'a>(api: &'a ExtensionApi) -> (class_map: StringHashMap<
    &'a BuiltinClass,
>)
    ensures
        referents(class_map@) == classes_by_name(api.builtin_classes@),
{
    let mut class_map: StringHashMap<&'a BuiltinClass> = StringHashMap::new();
    let ghost classes = api.builtin_classes@;
    assert(referents(class_map@) =~= classes_by_name(classes.take(0)));
    for i in 0..api.builtin_classes.len()
        invariant
            classes == api.builtin_classes@,
            referents(class_map@) == classes_by_name(classes.take(i as int)),
    {
        let class = &api.builtin_classes[i];
        let normalized_name = to_lower(class.name.as_str());
        let ghost before = class_map@;
        class_map.insert(normalized_name, class);
        proof {
            let done = classes.take(i + 1);
            assert(done.drop_last() =~= classes.take(i as int));
            assert(referents(class_map@) =~= referents(before).insert(lower(class.name@), *class));
        }
    }
    assert(classes.take(classes.len() as int) =~= classes);
    class_map
}

// ---- the enumerations of variant types and operators ----

/// The first enumeration of that name.
pub fn find_enum<'a>(api: &'a ExtensionApi, name: &str) -> (r: Option<&'a Enum>)
    ensures
        match r {
            Some(e) => named_enum(api.global_enums@, name@) == Some(*e),
            None => named_enum(api.global_enums@, name@) is None,
        },
{
    let ghost enums = api.global_enums@;
    assert(enums.skip(0) =~= enums);
    for i in 0..api.global_enums.len()
        invariant
            enums == api.global_enums@,
            named_enum(enums, name@) == named_enum(enums.skip(i as int), name@),
    {
        proof {
            assert(enums.skip(i as int).skip(1) =~= enums.skip(i + 1));
        }
        if same_text(api.global_enums[i].name.as_str(), name) {
            return Some(&api.global_enums[i]);
        }
    }
    None
}

/// What a list of references to enumerators says.
pub open spec fn constants(list: Seq<&Constant>) -> Seq<Constant> {
    list.map_values(|c: &Constant| *c)
}

/// Lists the enumerators of `Variant.Operator`, which the description must hold.
pub fn collect_variant_operators<'a>(api: &'a ExtensionApi) -> (operators: Vec<&'a Constant>)
    requires
        named_enum(api.global_enums@, "Variant.Operator"@) is Some,
    ensures
        constants(operators@) == named_enum(
            api.global_enums@,
            "Variant.Operator"@,
        )->0.values@,
{
    let mut operators: Vec<&'a Constant> = Vec::new();
    if let Some(variant_operator_enum) = find_enum(api, "Variant.Operator") {
        let ghost values = variant_operator_enum.values@;
        assert(constants(operators@) =~= values.take(0));
        for i in 0..variant_operator_enum.values.len()
            invariant
                values == variant_operator_enum.values@,
                constants(operators@) == values.take(i as int),
        {
            let ghost before = constants(operators@);
            operators.push(&variant_operator_enum.values[i]);
            assert(constants(operators@) =~= before.push(values[i as int]));
            assert(values.take(i + 1) =~= values.take(i as int).push(values[i as int]));
        }
        assert(values.take(values.len() as int) =~= values);
    }
    operators
}

// ---- the builtin types by name ----

/// The part of a variant type's name that names the type, in shout case.
pub open spec fn shout_name(c: Constant) -> Seq<char> {
    c.name@.skip("TYPE_"@.len() as int)
}

/// The enumerator stands for a builtin type: `NIL` is none, and `MAX` is the number of them.
pub open spec fn is_builtin_type(c: Constant) -> bool {
    shout_name(c) != "NIL"@ && shout_name(c) != "MAX"@
}

/// The name of the class that belongs to a variant type, in lower case: the name of the type
/// without its underscores.
pub open spec fn class_key(c: Constant) -> Seq<char> {
    without_underscores(lower(shout_name(c)))
}

/// The spellings of a type whose class has the given name.
pub open spec fn names_of(c: Constant, pascal_case: Seq<char>) -> Names {
    Names {
        pascal_case,
        snake_case: lower(shout_name(c)),
        sys_variant_type: "GDNATIVE_VARIANT_TYPE_"@ + shout_name(c),
    }
}

/// What is known of the type that an enumerator stands for. One that has no class is the type of
/// all objects.
pub open spec fn type_info(c: Constant, classes: Map<Seq<char>, BuiltinClass>) -> TypeInfo {
    if classes.contains_key(class_key(c)) {
        let class = classes[class_key(c)];
        TypeInfo {
            value: c.value,
            names: names_of(c, class.name@),
            has_destructor: class.has_destructor,
            constructors: Some(class.constructors@),
            operators: Some(class.operators@),
        }
    } else {
        TypeInfo {
            value: c.value,
            names: names_of(c, "Object"@),
            has_destructor: false,
            constructors: None,
            operators: None,
        }
    }
}

/// An enumerator of `Variant.Type` that can be read: its name has the prefix, and, where it
/// stands for a builtin type, it has a class or is the type of objects, and it gives an
/// identifier.
pub open spec fn type_constant_ok(c: Constant, classes: Map<Seq<char>, BuiltinClass>) -> bool {
    &&& "TYPE_"@.is_prefix_of(c.name@)
    &&& is_builtin_type(c) ==> {
        &&& classes.contains_key(class_key(c)) || class_key(c) == "object"@
        &&& is_ident("GDNATIVE_VARIANT_TYPE_"@ + shout_name(c))
    }
}

/// Every enumerator can be read.
pub open spec fn type_constants_ok(
    values: Seq<Constant>,
    classes: Map<Seq<char>, BuiltinClass>,
) -> bool {
    forall|i: int| 0 <= i < values.len() ==> type_constant_ok(#[trigger] values[i], classes)
}

/// The position of the first type of that name at or behind `from`; the number of types where
/// there is none.
pub open spec fn slot(table: Seq<TypeInfo>, name: Seq<char>, from: int) -> int
    decreases table.len() - from,
{
    if from >= table.len() {
        table.len() as int
    } else if table[from].names.pascal_case == name {
        from
    } else {
        slot(table, name, from + 1)
    }
}

/// The type of that name.
pub open spec fn find_type(table: Seq<TypeInfo>, name: Seq<char>) -> Option<TypeInfo> {
    let i = slot(table, name, 0);
    if 0 <= i < table.len() {
        Some(table[i])
    } else {
        None
    }
}

/// What is found at the position is the first type of that name.
pub(crate) proof fn lemma_slot(table: Seq<TypeInfo>, name: Seq<char>, from: int)
    requires
        0 <= from <= table.len(),
    ensures
        from <= slot(table, name, from) <= table.len(),
        slot(table, name, from) < table.len() ==> table[slot(table, name, from)].names.pascal_case
            == name,
        forall|i: int|
            from <= i < slot(table, name, from) ==> (#[trigger] table[i]).names.pascal_case
                != name,
    decreases table.len() - from,
{
    if from < table.len() && table[from].names.pascal_case != name {
        lemma_slot(table, name, from + 1);
    }
}

/// The table with one type more; it takes the place of the one that has its name.
pub open spec fn with_type(table: Seq<TypeInfo>, info: TypeInfo) -> Seq<TypeInfo> {
    let i = slot(table, info.names.pascal_case, 0);
    if 0 <= i < table.len() {
        table.update(i, info)
    } else {
        table.push(info)
    }
}

/// The builtin types that the enumerators stand for.
pub open spec fn type_table(
    values: Seq<Constant>,
    classes: Map<Seq<char>, BuiltinClass>,
) -> Seq<TypeInfo>
    decreases values.len(),
{
    if values.len() == 0 {
        Seq::empty()
    } else if is_builtin_type(values.last()) {
        with_type(
            type_table(values.drop_last(), classes),
            type_info(values.last(), classes),
        )
    } else {
        type_table(values.drop_last(), classes)
    }
}

/// No two types have the same name in Pascal case.
pub open spec fn unique_names(table: Seq<TypeInfo>) -> bool {
    forall|i: int, j: int|
        0 <= i < j < table.len() ==> (#[trigger] table[i]).names.pascal_case != (
        #[trigger] table[j]).names.pascal_case
}

/// The builtin types by name: no two have the same.
pub struct BuiltinTypes<'a> {
    entries: Vec<BuiltinTypeInfo<'a>>,
}

impl<'a> View for BuiltinTypes<'a> {
    type V = Seq<TypeInfo>;

    closed spec fn view(&self) -> Seq<TypeInfo> {
        self.entries@.map_values(|e: BuiltinTypeInfo<'a>| e@)
    }
}

impl<'a> BuiltinTypes<'a> {
    /// The names are unique.
    pub open spec fn wf(&self) -> bool {
        unique_names(self@)
    }

    /// No types.
    pub fn new() -> (types: Self)
        ensures
            types.wf(),
            types@ == Seq::<TypeInfo>::empty(),
    {
        let types = BuiltinTypes { entries: Vec::new() };
        assert(types@ =~= Seq::<TypeInfo>::empty());
        types
    }

    /// The position of the type of that name.
    fn position(&self, name: &str) -> (i: usize)
        ensures
            i == slot(self@, name@, 0),
            i <= self.entries@.len(),
    {
        let len: usize = self.entries.len();
        for i in 0..len
            invariant
                len == self.entries@.len(),
                slot(self@, name@, 0) == slot(self@, name@, i as int),
        {
            if same_text(self.entries[i].type_names.pascal_case.as_str(), name) {
                return i;
            }
        }
        len
    }

    /// The type of that name.
    pub fn get(&self, name: &str) -> (r: Option<&BuiltinTypeInfo<'a>>)
        ensures
            match r {
                Some(info) => find_type(self@, name@) == Some(info@),
                None => find_type(self@, name@) is None,
            },
    {
        let i: usize = self.position(name);
        if i < self.entries.len() {
            Some(&self.entries[i])
        } else {
            None
        }
    }

    /// Adds a type, in the place of the one that has its name.
    pub fn insert(&mut self, info: BuiltinTypeInfo<'a>)
        requires
            old(self).wf(),
        ensures
            final(self).wf(),
            final(self)@ == with_type(old(self)@, info@),
    {
        let i: usize = self.position(info.type_names.pascal_case.as_str());
        let ghost after = with_type(self@, info@);
        proof {
            lemma_slot(self@, info@.names.pascal_case, 0);
        }
        if i < self.entries.len() {
            self.entries.set(i, info);
        } else {
            self.entries.push(info);
        }
        assert(self@ =~= after);
    }
}

/// Collects what is known of each builtin type, by its name in Pascal case.
pub fn collect_builtin_types<'a>(
    api: &'a ExtensionApi,
    class_map: &StringHashMap<&'a BuiltinClass>,
) -> (builtin_types: BuiltinTypes<'a>)
    requires
        named_enum(api.global_enums@, "Variant.Type"@) is Some,
        type_constants_ok(
            named_enum(api.global_enums@, "Variant.Type"@)->0.values@,
            referents(class_map@),
        ),
    ensures
        builtin_types.wf(),
        builtin_types@ == type_table(
            named_enum(api.global_enums@, "Variant.Type"@)->0.values@,
            referents(class_map@),
        ),
{
    let mut builtin_types = BuiltinTypes::new();
    let variant_type_enum = match find_enum(api, "Variant.Type") {
        Some(e) => e,
        None => { return builtin_types; },
    };
    let ghost values = variant_type_enum.values@;
    let ghost classes = referents(class_map@);
    for i in 0..variant_type_enum.values.len()
        invariant
            values == variant_type_enum.values@,
            classes == referents(class_map@),
            type_constants_ok(values, classes),
            builtin_types.wf(),
            builtin_types@ == type_table(values.take(i as int), classes),
    {
        let ty = &variant_type_enum.values[i];
        proof {
            assert(type_constant_ok(values[i as int], classes));
            assert(values.take(i + 1).drop_last() =~= values.take(i as int));
        }
        if let Some(shout_case) = strip_prefix(ty.name.as_str(), "TYPE_") {
            if !same_text(shout_case, "NIL") && !same_text(shout_case, "MAX") {
                builtin_types.insert(make_type_info(ty, shout_case, class_map));
            }
        }
    }
    assert(values.take(values.len() as int) =~= values);
    builtin_types
}

/// Reads what is known of the type that an enumerator stands for.
fn make_type_info<'a>(
    ty: &Constant,
    shout_case: &str,
    class_map: &StringHashMap<&'a BuiltinClass>,
) -> (info: BuiltinTypeInfo<'a>)
    requires
        shout_case@ == shout_name(*ty),
    ensures
        info@ == type_info(*ty, referents(class_map@)),
{
    let snake_case = to_lower(shout_case);
    // Lowercase without underscore, to map SHOUTY_CASE to shoutycase
    let normalized = remove_underscores(snake_case.as_str());
    let pascal_case: String;
    let has_destructor: bool;
    let constructors: Option<&'a Vec<Constructor>>;
    let operators: Option<&'a Vec<Operator>>;
    match class_map.get(normalized.as_str()) {
        Some(class) => {
            pascal_case = class.name.clone();
            has_destructor = class.has_destructor;
            constructors = Some(&class.constructors);
            operators = Some(&class.operators);
        },
        None => {
            pascal_case = "Object".to_string();
            has_destructor = false;
            constructors = None;
            operators = None;
        },
    }
    let type_names = TypeNames {
        pascal_case,
        snake_case,
        sys_variant_type: "GDNATIVE_VARIANT_TYPE_".to_string().concat(shout_case),
    };
    BuiltinTypeInfo { value: ty.value, type_names, has_destructor, constructors, operators }
}

// ---- the builtin types by ordinal ----

/// The list, in which ordinals ascend, with one type more, behind those of the same ordinal.
pub open spec fn insert_by_value(list: Seq<TypeInfo>, info: TypeInfo) -> Seq<TypeInfo>
    decreases list.len(),
{
    if list.len() == 0 || list.last().value <= info.value {
        list.push(info)
    } else {
        insert_by_value(list.drop_last(), info).push(list.last())
    }
}

/// The types by ascending ordinal; types of the same ordinal keep their order.
pub open spec fn by_value(table: Seq<TypeInfo>) -> Seq<TypeInfo>
    decreases table.len(),
{
    if table.len() == 0 {
        Seq::empty()
    } else {
        insert_by_value(by_value(table.drop_last()), table.last())
    }
}

/// What a list of references to types says.
pub open spec fn infos(list: Seq<&BuiltinTypeInfo>) -> Seq<TypeInfo> {
    list.map_values(|e: &BuiltinTypeInfo| e@)
}

/// Where a type is inserted.
proof fn lemma_insert_at(list: Seq<TypeInfo>, info: TypeInfo, p: int)
    requires
        0 <= p <= list.len(),
        p > 0 ==> list[p - 1].value <= info.value,
        forall|j: int| p <= j < list.len() ==> (#[trigger] list[j]).value > info.value,
    ensures
        insert_by_value(list, info) == list.insert(p, info),
    decreases list.len(),
{
    if p < list.len() {
        lemma_insert_at(list.drop_last(), info, p);
        assert(list.insert(p, info) =~= list.drop_last().insert(p, info).push(list.last()));
    } else {
        assert(list.insert(p, info) =~= list.push(info));
    }
}

/// Lists the types by ascending ordinal.
pub fn sort_by_value<'b, 'a>(types: &'b BuiltinTypes<'a>) -> (list: Vec<&'b BuiltinTypeInfo<'a>>)
    ensures
        infos(list@) == by_value(types@),
{
    let mut list: Vec<&'b BuiltinTypeInfo<'a>> = Vec::new();
    let ghost table = types@;
    assert(infos(list@) =~= by_value(table.take(0)));
    for i in 0..types.entries.len()
        invariant
            table == types@,
            infos(list@) == by_value(table.take(i as int)),
    {
        let info = &types.entries[i];
        let mut p: usize = list.len();
        while p > 0 && list[p - 1].value > info.value
            invariant
                p <= list@.len(),
                forall|j: int| p <= j < list@.len() ==> (#[trigger] list@[j]).value > info.value,
            decreases p,
        {
            p = p - 1;
        }
        let ghost before = infos(list@);
        proof {
            lemma_insert_at(before, info@, p as int);
            assert(table.take(i + 1).drop_last() =~= table.take(i as int));
        }
        list.insert(p, info);
        assert(infos(list@) =~= before.insert(p as int, info@));
    }
    assert(table.take(table.len() as int) =~= table);
    list
}

} // verus!
