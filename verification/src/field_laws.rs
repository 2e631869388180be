//! Which fields a type has, how they are called, and what they say.

use crate::api::{Constructor, MethodArg, Operator};
use crate::entry_laws::law_types_are_found;
use crate::fields::{
    Field, Loader, Lookup, construct_fields, constructor_name, constructors_ok, conversion_fields,
    crate_path, declaration, declaration_list, declarations, destroy_fields, extra_constructor_ok,
    extra_fields, initialisation, initialisation_list, initialisations, is_trivial_name, joined,
    load_error, names_ok, operator_field, operator_fields, parameters, sys_operator, variant_fields,
};
use crate::ident::is_ident;
use crate::items::type_ok;
use crate::text::{capitalized, lower};
use crate::text_laws::law_flat;
use crate::tokens::{Delimiter, Spacing, Token, integer, mark, string_literal};
use crate::types::{Names, TypeInfo, find_type, lemma_slot, slot};
use vstd::prelude::*;

verus! {

// ---- names of constructors ----

/// The name of a constructor after its arguments holds all of them: one argument more is one
/// underscore and its name more. A single argument gives its own name.
pub proof fn law_joined(arguments: Seq<MethodArg>, argument: MethodArg)
    ensures
        joined(Seq::empty()) == Seq::<char>::empty(),
        joined(seq![argument]) == argument.name@,
        arguments.len() > 0 ==> joined(arguments.push(argument)) == joined(arguments).push('_')
            + argument.name@,
{
    reveal_strlit("_");
    assert(arguments.push(argument).drop_last() =~= arguments);
    assert(seq![argument][0] == argument);
    assert(joined(arguments) + "_"@ =~= joined(arguments).push('_'));
}

/// The lengths of the arguments' names, added up.
pub open spec fn total_len(arguments: Seq<MethodArg>) -> int
    decreases arguments.len(),
{
    if arguments.len() == 0 {
        0
    } else {
        total_len(arguments.drop_last()) + arguments.last().name@.len()
    }
}

/// The name after the arguments is as long as all their names and the underscores between them.
pub proof fn law_joined_len(arguments: Seq<MethodArg>)
    requires
        arguments.len() > 0,
    ensures
        joined(arguments).len() == total_len(arguments) + arguments.len() - 1,
    decreases arguments.len(),
{
    let rest = arguments.drop_last();
    law_joined(rest, arguments.last());
    if rest.len() > 0 {
        law_joined_len(rest);
        assert(rest.push(arguments.last()) =~= arguments);
    } else {
        assert(total_len(rest) == 0);
        assert(arguments =~= seq![arguments.last()]);
    }
}

/// A constructor with one argument called `from` is named after the type of the argument, any
/// other after its arguments.
pub proof fn law_constructor_name(
    names: Names,
    arguments: Seq<MethodArg>,
    types: Seq<TypeInfo>,
    i: int,
)
    ensures
        !(arguments.len() == 1 && arguments[0].name@ == "from"@) ==> constructor_name(
            names,
            arguments,
            types,
        ) == names.snake_case + "_from_"@ + joined(arguments),
        arguments.len() == 1 && arguments[0].name@ == "from"@ && 0 <= i < types.len()
            && types[i].names.pascal_case == arguments[0].type_@ && (forall|j: int|
            0 <= j < i ==> (#[trigger] types[j]).names.pascal_case != arguments[0].type_@)
            ==> constructor_name(names, arguments, types) == names.snake_case + "_from_"@
            + types[i].names.snake_case,
{
    lemma_slot(types, arguments[0].type_@, 0);
    let s = slot(types, arguments[0].type_@, 0);
    if 0 <= i < types.len() && types[i].names.pascal_case == arguments[0].type_@ && (forall|j: int|
        0 <= j < i ==> (#[trigger] types[j]).names.pascal_case != arguments[0].type_@) {
        assert(s <= i);
        if s < i {
            assert(types[s].names.pascal_case != arguments[0].type_@);
        }
    }
}

// ---- which fields a type has ----

/// The type has more fields than those of the conversions.
pub open spec fn is_full(names: Names) -> bool {
    names.pascal_case != "bool"@ && names.pascal_case != "int"@ && names.pascal_case != "float"@
}

/// The class lists an operator of that name, at some position.
pub open spec fn lists(operators: Option<Seq<Operator>>, name: Seq<char>) -> bool {
    operators is Some && exists|k: int|
        0 <= k < operators->0.len() && (#[trigger] operators->0[k]).name@ == name
}

/// A function that Godot has for the type, and which is loaded.
pub open spec fn is_loaded(
    lookup: Lookup,
    names: Names,
    has_destructor: bool,
    constructors: Option<Seq<Constructor>>,
    operators: Option<Seq<Operator>>,
) -> bool {
    match lookup {
        Lookup::ToVariant => true,
        Lookup::FromVariant => true,
        Lookup::Operator(name) => {
            ||| name == "EQUAL"@ && is_full(names) && lists(operators, "=="@)
            ||| name == "LESS"@ && is_full(names) && lists(operators, "<"@)
        },
        Lookup::Constructor(index) => {
            &&& is_full(names)
            &&& constructors is Some
            &&& index == 0 || index == 1 || 2 <= index < constructors->0.len()
                && constructors->0[index as int].arguments is Some
        },
        Lookup::Destructor => is_full(names) && has_destructor,
    }
}

/// What the field of a function is called.
pub open spec fn field_name(
    lookup: Lookup,
    names: Names,
    constructors: Option<Seq<Constructor>>,
    types: Seq<TypeInfo>,
) -> Seq<char> {
    match lookup {
        Lookup::ToVariant => names.snake_case + "_to_variant"@,
        Lookup::FromVariant => names.snake_case + "_from_variant"@,
        Lookup::Operator(name) => if name == "EQUAL"@ {
            names.snake_case + "_operator_equal"@
        } else {
            names.snake_case + "_operator_less"@
        },
        Lookup::Constructor(index) => if index == 0 {
            names.snake_case + "_construct_default"@
        } else if index == 1 {
            names.snake_case + "_construct_copy"@
        } else {
            constructor_name(names, constructors->0[index as int].arguments->0@, types)
        },
        Lookup::Destructor => names.snake_case + "_destroy"@,
    }
}

/// The order of the functions in the table: the conversions to and from the variant type, the
/// operators `==` and `<`, the constructors by index, the destructor.
pub open spec fn rank(lookup: Lookup) -> int {
    match lookup {
        Lookup::ToVariant => -4,
        Lookup::FromVariant => -3,
        Lookup::Operator(name) => if name == "EQUAL"@ {
            -2
        } else {
            -1
        },
        Lookup::Constructor(index) => index as int,
        Lookup::Destructor => 0x1_0000_0000,
    }
}

proof fn lemma_operator_texts()
    ensures
        "EQUAL"@ != "LESS"@,
        forall|names: Names| (#[trigger] operator_field(names, "EQUAL"@)).name == names.snake_case
            + "_operator_equal"@,
        forall|names: Names| (#[trigger] operator_field(names, "LESS"@)).name == names.snake_case
            + "_operator_less"@,
{
    reveal_strlit("EQUAL");
    reveal_strlit("LESS");
    reveal_strlit("_operator_");
    reveal_strlit("_operator_equal");
    reveal_strlit("_operator_less");
    assert("EQUAL"@.len() != "LESS"@.len());
    assert("_operator_"@ + lower("EQUAL"@) =~= "_operator_equal"@);
    assert("_operator_"@ + lower("LESS"@) =~= "_operator_less"@);
    assert forall|names: Names|
        (#[trigger] operator_field(names, "EQUAL"@)).name == names.snake_case
            + "_operator_equal"@ by {
        assert(operator_field(names, "EQUAL"@).name =~= names.snake_case + ("_operator_"@ + lower(
            "EQUAL"@,
        )));
    }
    assert forall|names: Names|
        (#[trigger] operator_field(names, "LESS"@)).name == names.snake_case
            + "_operator_less"@ by {
        assert(operator_field(names, "LESS"@).name =~= names.snake_case + ("_operator_"@ + lower(
            "LESS"@,
        )));
    }
}

/// The fields that are as they should be: each is of a function that is loaded, is called as it
/// should be, and they are in order.
pub open spec fn are_fields(
    fields: Seq<Field>,
    names: Names,
    has_destructor: bool,
    constructors: Option<Seq<Constructor>>,
    operators: Option<Seq<Operator>>,
    types: Seq<TypeInfo>,
) -> bool {
    &&& forall|i: int|
        0 <= i < fields.len() ==> {
            &&& is_loaded(
                (#[trigger] fields[i]).lookup,
                names,
                has_destructor,
                constructors,
                operators,
            )
            &&& fields[i].name == field_name(fields[i].lookup, names, constructors, types)
        }
    &&& forall|i: int, j: int|
        0 <= i < j < fields.len() ==> rank((#[trigger] fields[i]).lookup) < rank(
            (#[trigger] fields[j]).lookup,
        )
}

proof fn lemma_extra_fields(
    names: Names,
    list: Seq<Constructor>,
    types: Seq<TypeInfo>,
    end: int,
)
    requires
        0 <= end <= list.len() <= i32::MAX,
    ensures
        forall|i: int|
            0 <= i < extra_fields(names, list, types, end).len() ==> {
                &&& (#[trigger] extra_fields(names, list, types, end)[i]).lookup matches
                    Lookup::Constructor(index)
                &&& 2 <= index < end
                &&& list[index as int].arguments is Some
                &&& extra_fields(names, list, types, end)[i].name == constructor_name(
                    names,
                    list[index as int].arguments->0@,
                    types,
                )
            },
        forall|i: int, j: int|
            0 <= i < j < extra_fields(names, list, types, end).len() ==> rank(
                (#[trigger] extra_fields(names, list, types, end)[i]).lookup,
            ) < rank((#[trigger] extra_fields(names, list, types, end)[j]).lookup),
        forall|k: int|
            2 <= k < end && (#[trigger] list[k]).arguments is Some ==> extra_fields(
                names,
                list,
                types,
                end,
            ).contains(
                Field {
                    name: constructor_name(names, list[k].arguments->0@, types),
                    lookup: Lookup::Constructor(k as i32),
                },
            ),
    decreases end,
{
    if end > 2 {
        lemma_extra_fields(names, list, types, end - 1);
        let before = extra_fields(names, list, types, end - 1);
        let fields = extra_fields(names, list, types, end);
        assert forall|k: int| 2 <= k < end && (#[trigger] list[k]).arguments is Some implies
            fields.contains(
            Field {
                name: constructor_name(names, list[k].arguments->0@, types),
                lookup: Lookup::Constructor(k as i32),
            },
        ) by {
            let field = Field {
                name: constructor_name(names, list[k].arguments->0@, types),
                lookup: Lookup::Constructor(k as i32),
            };
            if k < end - 1 {
                assert(before.contains(field));
                let p = choose|p: int| 0 <= p < before.len() && before[p] == field;
                assert(fields[p] == field);
            } else {
                assert(fields[fields.len() - 1] == field);
            }
        }
    }
}

/// Exactly the functions that Godot has for a type and that are used have a field, each one
/// field, called after the type and the function, in a fixed order. Whether a type has the
/// operator `==` or `<` depends on no position in its class's list of operators.
pub proof fn law_fields_of_a_type(
    names: Names,
    has_destructor: bool,
    constructors: Option<Seq<Constructor>>,
    operators: Option<Seq<Operator>>,
    types: Seq<TypeInfo>,
)
    requires
        constructors is Some ==> constructors->0.len() <= i32::MAX,
    ensures
        are_fields(
            variant_fields(names, has_destructor, constructors, operators, types),
            names,
            has_destructor,
            constructors,
            operators,
            types,
        ),
        forall|lookup: Lookup|
            is_loaded(lookup, names, has_destructor, constructors, operators) ==> #[trigger]
            variant_fields(names, has_destructor, constructors, operators, types).contains(
                Field { name: field_name(lookup, names, constructors, types), lookup },
            ),
{
    lemma_operator_texts();
    let fields = variant_fields(names, has_destructor, constructors, operators, types);
    let conversions = conversion_fields(names);
    let equal = operator_fields(names, operators, "=="@, "EQUAL"@);
    let less = operator_fields(names, operators, "<"@, "LESS"@);
    let construct = construct_fields(names, constructors, types);
    let destroy = destroy_fields(names, has_destructor);
    if constructors is Some {
        lemma_extra_fields(names, constructors->0, types, constructors->0.len() as int);
    }
    assert(construct.len() > 0 ==> construct[0].lookup == Lookup::Constructor(0)
        && construct[1].lookup == Lookup::Constructor(1));
    let a = conversions.len() as int;
    let b = a + equal.len();
    let c = b + less.len();
    let d = c + construct.len();
    assert forall|i: int| 0 <= i < fields.len() implies #[trigger] fields[i] == if i < a {
        conversions[i]
    } else if i < b {
        equal[i - a]
    } else if i < c {
        less[i - b]
    } else if i < d {
        construct[i - c]
    } else {
        destroy[i - d]
    } by {}
    if construct.len() > 0 {
        let extra = extra_fields(names, constructors->0, types, constructors->0.len() as int);
        assert forall|i: int| 2 <= i < construct.len() implies #[trigger] construct[i] == extra[i
            - 2] by {}
        assert forall|i: int, j: int| 0 <= i < j < construct.len() implies rank(
            (#[trigger] construct[i]).lookup,
        ) < rank((#[trigger] construct[j]).lookup) by {
            if i >= 2 {
                assert(construct[i] == extra[i - 2]);
            }
            if j >= 2 {
                assert(construct[j] == extra[j - 2]);
            }
        }
    }
    assert forall|i: int| 0 <= i < construct.len() implies 0 <= rank(
        (#[trigger] construct[i]).lookup,
    ) < 0x1_0000_0000 && is_loaded(
        construct[i].lookup,
        names,
        has_destructor,
        constructors,
        operators,
    ) && construct[i].name == field_name(construct[i].lookup, names, constructors, types) by {
        if i >= 2 {
            let extra = extra_fields(names, constructors->0, types, constructors->0.len() as int);
            assert(construct[i] == extra[i - 2]);
        }
    }
    assert forall|i: int| 0 <= i < fields.len() implies {
        &&& is_loaded(
            (#[trigger] fields[i]).lookup,
            names,
            has_destructor,
            constructors,
            operators,
        )
        &&& fields[i].name == field_name(fields[i].lookup, names, constructors, types)
    } by {
        if c <= i < d {
            assert(fields[i] == construct[i - c]);
        }
    }
    assert forall|i: int, j: int| 0 <= i < j < fields.len() implies rank(
        (#[trigger] fields[i]).lookup,
    ) < rank((#[trigger] fields[j]).lookup) by {
        if c <= i < d {
            assert(fields[i] == construct[i - c]);
        }
        if c <= j < d {
            assert(fields[j] == construct[j - c]);
        }
    }
    assert forall|lookup: Lookup|
        is_loaded(lookup, names, has_destructor, constructors, operators) implies #[trigger]
    fields.contains(Field { name: field_name(lookup, names, constructors, types), lookup }) by {
        let field = Field { name: field_name(lookup, names, constructors, types), lookup };
        match lookup {
            Lookup::ToVariant => {
                assert(fields[0] == field);
            },
            Lookup::FromVariant => {
                assert(fields[1] == field);
            },
            Lookup::Operator(name) => {
                if name == "EQUAL"@ {
                    assert(fields[a] == field);
                } else {
                    assert(fields[b] == field);
                }
            },
            Lookup::Constructor(index) => {
                if index == 0 {
                    assert(fields[c] == field);
                } else if index == 1 {
                    assert(fields[c + 1] == field);
                } else {
                    let extra = extra_fields(
                        names,
                        constructors->0,
                        types,
                        constructors->0.len() as int,
                    );
                    assert(constructors->0[index as int].arguments is Some);
                    assert(extra.contains(field));
                    let p = choose|p: int| 0 <= p < extra.len() && extra[p] == field;
                    assert(construct[p + 2] == field);
                    assert(fields[c + p + 2] == field);
                }
            },
            Lookup::Destructor => {
                assert(fields[d] == field);
            },
        }
    }
}

/// The trivial types are `bool`, `int` and `float`, and no others.
pub proof fn law_trivial_types(pascal_case: Seq<char>)
    ensures
        is_trivial_name(pascal_case) <==> pascal_case == "bool"@ || pascal_case == "int"@
            || pascal_case == "float"@,
{
}

/// An operator of any name has its one field, called after the type and the operator, exactly
/// where the type is not trivial and the operator stands at some position of the list.
pub proof fn law_operator_fields(
    names: Names,
    operators: Option<Seq<Operator>>,
    json_name: Seq<char>,
    sys_name: Seq<char>,
)
    ensures
        ({
            let fields = operator_fields(names, operators, json_name, sys_name);
            &&& fields.len() <= 1
            &&& fields.len() == 1 <==> is_full(names) && lists(operators, json_name)
            &&& fields.len() == 1 ==> fields[0].name == names.snake_case + "_operator_"@ + lower(
                sys_name,
            ) && fields[0].lookup == Lookup::Operator(sys_name)
        }),
{
}

/// Where a class lists `==` or `<`, at whatever position, its type has the field of that operator,
/// unless it is trivial; where it does not, the type has none.
pub proof fn law_operators_of_a_type(
    names: Names,
    has_destructor: bool,
    constructors: Option<Seq<Constructor>>,
    operators: Seq<Operator>,
    types: Seq<TypeInfo>,
    k: int,
)
    requires
        constructors is Some ==> constructors->0.len() <= i32::MAX,
        names.pascal_case != "bool"@ && names.pascal_case != "int"@ && names.pascal_case
            != "float"@,
    ensures
        ({
            let fields = variant_fields(
                names,
                has_destructor,
                constructors,
                Some(operators),
                types,
            );
            &&& 0 <= k < operators.len() && operators[k].name@ == "=="@ ==> fields.contains(
                Field {
                    name: names.snake_case + "_operator_equal"@,
                    lookup: Lookup::Operator("EQUAL"@),
                },
            )
            &&& 0 <= k < operators.len() && operators[k].name@ == "<"@ ==> fields.contains(
                Field {
                    name: names.snake_case + "_operator_less"@,
                    lookup: Lookup::Operator("LESS"@),
                },
            )
            &&& (forall|j: int| 0 <= j < operators.len() ==> (#[trigger] operators[j]).name@
                != "=="@) ==> forall|i: int|
                0 <= i < fields.len() ==> (#[trigger] fields[i]).lookup != Lookup::Operator(
                    "EQUAL"@,
                )
            &&& (forall|j: int| 0 <= j < operators.len() ==> (#[trigger] operators[j]).name@
                != "<"@) ==> forall|i: int|
                0 <= i < fields.len() ==> (#[trigger] fields[i]).lookup != Lookup::Operator(
                    "LESS"@,
                )
        }),
{
    lemma_operator_texts();
    law_fields_of_a_type(names, has_destructor, constructors, Some(operators), types);
    let fields = variant_fields(names, has_destructor, constructors, Some(operators), types);
    let equal = Lookup::Operator("EQUAL"@);
    let less = Lookup::Operator("LESS"@);
    if 0 <= k < operators.len() && operators[k].name@ == "=="@ {
        assert(lists(Some(operators), "=="@));
        assert(fields.contains(
            Field { name: field_name(equal, names, constructors, types), lookup: equal },
        ));
    }
    if 0 <= k < operators.len() && operators[k].name@ == "<"@ {
        assert(lists(Some(operators), "<"@));
        assert(fields.contains(
            Field { name: field_name(less, names, constructors, types), lookup: less },
        ));
    }
}

/// Every constructor with arguments behind the first two has its field, named after all its
/// arguments, or after the type that it converts from, and loaded by its own index.
pub proof fn law_constructor_has_a_field(
    names: Names,
    has_destructor: bool,
    constructors: Seq<Constructor>,
    operators: Option<Seq<Operator>>,
    types: Seq<TypeInfo>,
    k: int,
)
    requires
        names.pascal_case != "bool"@ && names.pascal_case != "int"@ && names.pascal_case
            != "float"@,
        2 <= k < constructors.len() <= i32::MAX,
        constructors[k].arguments is Some,
    ensures
        ({
            let arguments = constructors[k].arguments->0@;
            let fields = variant_fields(
                names,
                has_destructor,
                Some(constructors),
                operators,
                types,
            );
            &&& !(arguments.len() == 1 && arguments[0].name@ == "from"@) ==> fields.contains(
                Field {
                    name: names.snake_case + "_from_"@ + joined(arguments),
                    lookup: Lookup::Constructor(k as i32),
                },
            )
            &&& forall|t: int|
                arguments.len() == 1 && arguments[0].name@ == "from"@ && 0 <= t < types.len()
                    && (#[trigger] types[t]).names.pascal_case == arguments[0].type_@ && (
                forall|j: int|
                    0 <= j < t ==> (#[trigger] types[j]).names.pascal_case
                        != arguments[0].type_@) ==> fields.contains(
                    Field {
                        name: names.snake_case + "_from_"@ + types[t].names.snake_case,
                        lookup: Lookup::Constructor(k as i32),
                    },
                )
        }),
{
    let arguments = constructors[k].arguments->0@;
    let fields = variant_fields(names, has_destructor, Some(constructors), operators, types);
    let lookup = Lookup::Constructor(k as i32);
    law_fields_of_a_type(names, has_destructor, Some(constructors), operators, types);
    assert(is_loaded(lookup, names, has_destructor, Some(constructors), operators));
    let field = Field { name: field_name(lookup, names, Some(constructors), types), lookup };
    assert(fields.contains(field));
    law_constructor_name(names, arguments, types, 0);
    assert forall|t: int|
        arguments.len() == 1 && arguments[0].name@ == "from"@ && 0 <= t < types.len() && (
        #[trigger] types[t]).names.pascal_case == arguments[0].type_@ && (forall|j: int|
            0 <= j < t ==> (#[trigger] types[j]).names.pascal_case
                != arguments[0].type_@) implies fields.contains(
        Field { name: names.snake_case + "_from_"@ + types[t].names.snake_case, lookup },
    ) by {
        law_constructor_name(names, arguments, types, t);
    }
}

/// More operators, before or behind those that are listed, remove no field.
pub proof fn law_more_operators_keep_fields(
    names: Names,
    has_destructor: bool,
    constructors: Option<Seq<Constructor>>,
    before: Seq<Operator>,
    operators: Seq<Operator>,
    behind: Seq<Operator>,
    types: Seq<TypeInfo>,
    field: Field,
)
    requires
        constructors is Some ==> constructors->0.len() <= i32::MAX,
        variant_fields(
            names,
            has_destructor,
            constructors,
            Some(operators),
            types,
        ).contains(field),
    ensures
        variant_fields(
            names,
            has_destructor,
            constructors,
            Some(before + operators + behind),
            types,
        ).contains(field),
{
    let more = before + operators + behind;
    let fields = variant_fields(names, has_destructor, constructors, Some(operators), types);
    law_fields_of_a_type(names, has_destructor, constructors, Some(operators), types);
    law_fields_of_a_type(names, has_destructor, constructors, Some(more), types);
    let i = choose|i: int| 0 <= i < fields.len() && fields[i] == field;
    assert(is_loaded(
        fields[i].lookup,
        names,
        has_destructor,
        constructors,
        Some(operators),
    ));
    assert forall|name: Seq<char>| #[trigger] lists(Some(operators), name) implies lists(
        Some(more),
        name,
    ) by {
        let k = choose|k: int|
            0 <= k < operators.len() && (#[trigger] operators[k]).name@ == name;
        assert(more[before.len() + k] == operators[k]);
    }
    assert(is_loaded(field.lookup, names, has_destructor, constructors, Some(more)));
    assert(field == Field {
        name: field_name(field.lookup, names, constructors, types),
        lookup: field.lookup,
    });
}

// ---- what a field says ----

/// Two functions are looked up in the same way, but for the operator or the index.
pub open spec fn same_kind(a: Lookup, b: Lookup) -> bool {
    match a {
        Lookup::ToVariant => b is ToVariant,
        Lookup::FromVariant => b is FromVariant,
        Lookup::Operator(_) => b is Operator,
        Lookup::Constructor(_) => b is Constructor,
        Lookup::Destructor => b is Destructor,
    }
}

/// The declaration of a field names it by its second token; the others are the same for all
/// fields of that kind.
pub proof fn law_declaration(a: Field, b: Field)
    requires
        same_kind(a.lookup, b.lookup),
    ensures
        declaration(a)[1] == Token::Ident(a.name),
        declaration(a).len() == declaration(b).len(),
        forall|i: int|
            0 <= i < declaration(a).len() && i != 1 ==> #[trigger] declaration(a)[i]
                == declaration(b)[i],
        parameters(a.lookup) == parameters(b.lookup),
        declaration(a)[7] == Token::Group(Delimiter::Parenthesis, parameters(a.lookup)),
{
}

/// `crate::name`
pub open spec fn path_to(name: Seq<char>) -> Seq<Token> {
    seq![
        Token::Ident("crate"@), Token::Punct(':', Spacing::Joint),
        Token::Punct(':', Spacing::Alone), Token::Ident(name),
    ]
}

/// With which arguments a function is looked up: the variant type, and besides it the operator, or
/// the index of the constructor.
pub open spec fn lookup_arguments(lookup: Lookup, variant_type: Seq<char>) -> Seq<Token> {
    let comma = seq![Token::Punct(',', Spacing::Alone)];
    match lookup {
        Lookup::Operator(operator) => path_to("GDNATIVE_VARIANT_OP_"@ + operator) + comma
            + path_to(variant_type) + comma + path_to(variant_type) + comma,
        Lookup::Constructor(index) => path_to(variant_type) + comma + integer(
            index as int,
            "i32"@,
        ),
        _ => path_to(variant_type),
    }
}

/// The block in the initialisation of a field.
pub open spec fn block_of(f: Field, variant_type: Seq<char>) -> Seq<Token> {
    initialisation(f, variant_type)[2]->Group_1
}

/// The initialisation of a field names it, and looks its function up with the variant type and,
/// where it has one, the operator or the index. Where the function cannot be loaded, the message
/// holds the name of the field. All else is the same for all fields of that kind.
pub proof fn law_initialisation(a: Field, b: Field, variant_type: Seq<char>, other: Seq<char>)
    requires
        same_kind(a.lookup, b.lookup),
    ensures
        ({
            let block = block_of(a, variant_type);
            let block_of_b = block_of(b, other);
            &&& initialisation(a, variant_type).len() == 4
            &&& initialisation(a, variant_type)[0] == Token::Ident(a.name)
            &&& initialisation(a, variant_type)[1] == Token::Punct(':', Spacing::Alone)
            &&& initialisation(a, variant_type)[2] == Token::Group(Delimiter::Brace, block)
            &&& initialisation(a, variant_type)[3] == Token::Punct(',', Spacing::Alone)
            &&& block.len() == 15
            &&& block_of_b.len() == 15
            &&& block[11] == Token::Group(
                Delimiter::Parenthesis,
                lookup_arguments(a.lookup, variant_type),
            )
            &&& !(a.lookup is Destructor) ==> block[14] == Token::Group(
                Delimiter::Parenthesis,
                seq![string_literal(load_error(a.name))],
            )
            &&& forall|i: int|
                0 <= i < 15 && i != 11 && (i != 14 || a.lookup is Destructor) ==> #[trigger]
                block[i] == block_of_b[i]
        }),
{
    let path = crate_path(variant_type);
    assert(path =~= path_to(variant_type));
    match a.lookup {
        Lookup::Operator(operator) => {
            let op = crate_path(sys_operator(operator));
            assert(op =~= path_to("GDNATIVE_VARIANT_OP_"@ + operator));
            assert(op.push(mark(',')) + path.push(mark(','))
                + path.push(mark(',')) =~= lookup_arguments(
                a.lookup,
                variant_type,
            ));
        },
        Lookup::Constructor(index) => {
            assert(path.push(mark(',')) + integer(index as int, "i32"@)
                =~= lookup_arguments(a.lookup, variant_type));
        },
        _ => {},
    }
}

/// One field more is its declaration and its initialisation more, at the end; without fields there
/// are none.
pub proof fn law_one_field_more(fields: Seq<Field>, f: Field, variant_type: Seq<char>)
    ensures
        declarations(fields.push(f)) == declarations(fields) + declaration(f),
        initialisations(fields.push(f), variant_type) == initialisations(fields, variant_type)
            + initialisation(f, variant_type),
        declarations(Seq::empty()) == Seq::<Token>::empty(),
        initialisations(Seq::empty(), variant_type) == Seq::<Token>::empty(),
{
    law_flat(declaration_list(fields), seq![declaration(f)], declaration(f));
    law_flat(
        initialisation_list(fields, variant_type),
        seq![initialisation(f, variant_type)],
        initialisation(f, variant_type),
    );
    assert(declaration_list(fields.push(f)) =~= declaration_list(fields) + seq![declaration(f)]);
    assert(initialisation_list(fields.push(f), variant_type) =~= initialisation_list(
        fields,
        variant_type,
    ) + seq![initialisation(f, variant_type)]);
    assert(declaration_list(Seq::empty()) =~= Seq::empty());
    assert(initialisation_list(Seq::empty(), variant_type) =~= Seq::empty());
}

/// Each field has its declaration and its initialisation, at its place.
pub proof fn law_a_part_for_each_field(fields: Seq<Field>, variant_type: Seq<char>)
    ensures
        declaration_list(fields).len() == fields.len(),
        initialisation_list(fields, variant_type).len() == fields.len(),
        forall|i: int|
            0 <= i < fields.len() ==> {
                &&& declaration_list(fields)[i] == declaration(#[trigger] fields[i])
                &&& initialisation_list(fields, variant_type)[i] == initialisation(
                    fields[i],
                    variant_type,
                )
            },
{
}

/// How a function is looked up is what the loader says.
pub proof fn law_loaders(name: &str, index: i32)
    ensures
        Loader::ToVariant@ == Lookup::ToVariant,
        Loader::FromVariant@ == Lookup::FromVariant,
        Loader::Operator(name)@ == Lookup::Operator(name@),
        Loader::Constructor(index)@ == Lookup::Constructor(index),
        Loader::Destructor@ == Lookup::Destructor,
{
}

// ---- which types are accepted ----

/// The constructors of a type are accepted where they stand at their indices, the first has no
/// arguments, the second has one that is called `from` and is of the type itself, and each of the
/// others that has arguments gives an identifier, after a known type or after the arguments. Those
/// of a trivial type are not looked at.
pub proof fn law_accepted_constructors(
    names: Names,
    constructors: Option<Seq<Constructor>>,
    types: Seq<TypeInfo>,
)
    ensures
        constructors_ok(names, constructors, types) <==> {
            ||| constructors is None
            ||| names.pascal_case == "bool"@ || names.pascal_case == "int"@ || names.pascal_case
                == "float"@
            ||| {
                let list = constructors->0;
                &&& list.len() >= 2
                &&& forall|i: int| 0 <= i < list.len() ==> (#[trigger] list[i]).index == i
                &&& list[0].arguments is None
                &&& list[1].arguments is Some
                &&& list[1].arguments->0@.len() == 1
                &&& list[1].arguments->0@[0].name@ == "from"@
                &&& list[1].arguments->0@[0].type_@ == names.pascal_case
                &&& forall|i: int|
                    2 <= i < list.len() && (#[trigger] list[i]).arguments is Some
                        ==> is_accepted_constructor(names, list[i].arguments->0@, types)
            }
        },
{
    if let Some(list) = constructors {
        assert forall|i: int| 2 <= i < list.len() && (#[trigger] list[i]).arguments is Some implies
            is_accepted_constructor(names, list[i].arguments->0@, types)
            == extra_constructor_ok(names, list[i], types) by {
            let arguments = list[i].arguments->0@;
            if arguments.len() == 1 && arguments[0].name@ == "from"@ {
                law_types_are_found(types, arguments[0].type_@);
                if let Some(info) = find_type(types, arguments[0].type_@) {
                    let t = choose|t: int|
                        {
                            &&& 0 <= t < types.len()
                            &&& #[trigger] types[t] == info
                            &&& info.names.pascal_case == arguments[0].type_@
                            &&& forall|j: int|
                                0 <= j < t ==> (#[trigger] types[j]).names.pascal_case
                                    != arguments[0].type_@
                        };
                    law_constructor_name(names, arguments, types, t);
                    assert(is_source(types, t, arguments[0].type_@));
                    assert forall|u: int| #[trigger] is_source(
                        types,
                        u,
                        arguments[0].type_@,
                    ) implies u == t by {}
                } else {
                    assert forall|u: int| !#[trigger] is_source(
                        types,
                        u,
                        arguments[0].type_@,
                    ) by {}
                }
            } else {
                law_constructor_name(names, arguments, types, 0);
            }
        }
        assert forall|i: int| 2 <= i < list.len() && (#[trigger] list[i]).arguments is None implies
            extra_constructor_ok(names, list[i], types) by {}
    }
}

/// The first type of that name stands at the position.
pub open spec fn is_source(types: Seq<TypeInfo>, t: int, name: Seq<char>) -> bool {
    &&& 0 <= t < types.len()
    &&& types[t].names.pascal_case == name
    &&& forall|j: int| 0 <= j < t ==> (#[trigger] types[j]).names.pascal_case != name
}

/// The arguments give an identifier: after the type of the one that is called `from`, which must
/// be known, or after their names.
pub open spec fn is_accepted_constructor(
    names: Names,
    arguments: Seq<MethodArg>,
    types: Seq<TypeInfo>,
) -> bool {
    if arguments.len() == 1 && arguments[0].name@ == "from"@ {
        exists|t: int|
            #[trigger] is_source(types, t, arguments[0].type_@) && is_ident(
                names.snake_case + "_from_"@ + types[t].names.snake_case,
            )
    } else {
        is_ident(names.snake_case + "_from_"@ + joined(arguments))
    }
}

/// A type is accepted where its constructors are, its name begins with an ASCII character and
/// gives an identifier when it is capitalised, its snake case can begin an identifier, and its
/// variant type is one.
pub proof fn law_accepted_types(info: TypeInfo, types: Seq<TypeInfo>)
    ensures
        type_ok(info, types) <==> {
            &&& info.names.snake_case.len() == 0 || is_ident(info.names.snake_case)
            &&& is_ident(info.names.sys_variant_type)
            &&& constructors_ok(info.names, info.constructors, types)
            &&& info.names.pascal_case.len() > 0
            &&& info.names.pascal_case[0] as u32 <= 127
            &&& is_ident(capitalized(info.names.pascal_case))
        },
        names_ok(info.names) <==> (info.names.snake_case.len() == 0 || is_ident(
            info.names.snake_case,
        )) && is_ident(info.names.sys_variant_type),
{
}

} // verus!
