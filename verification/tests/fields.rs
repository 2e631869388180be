use central_codegen::api::{
    BuiltinClass, ClassSize, ClassSizes, Constant, Constructor, Enum, ExtensionApi, MethodArg,
    Operator,
};
use central_codegen::fields::{
    make_construct_fns, make_destroy_fns, make_extra_constructors, make_operator_fns,
    make_variant_fns,
};
use central_codegen::items::make_opaque_type;
use central_codegen::types::{
    collect_builtin_classes, collect_builtin_types, BuiltinTypeInfo, BuiltinTypes, TypeNames,
};
use proc_macro2::TokenStream;

/// The text of the tokens of some source. Operators stand apart from what follows them.
fn text(source: &str) -> String {
    source.parse::<TokenStream>().unwrap().to_string()
}

fn names(pascal: &str, snake: &str, shout: &str) -> TypeNames {
    TypeNames {
        pascal_case: pascal.to_string(),
        snake_case: snake.to_string(),
        sys_variant_type: format!("GDNATIVE_VARIANT_TYPE_{}", shout),
    }
}

fn string_names() -> TypeNames {
    names("String", "string", "STRING")
}

fn arg(name: &str, type_: &str) -> MethodArg {
    MethodArg { name: name.to_string(), type_: type_.to_string() }
}

fn ctor(index: usize, arguments: Option<Vec<MethodArg>>) -> Constructor {
    Constructor { index, arguments }
}

fn op(name: &str) -> Operator {
    Operator { name: name.to_string() }
}

fn some_types() -> BuiltinTypes<'static> {
    let mut types = BuiltinTypes::new();
    for (value, names) in [
        (4, string_names()),
        (22, names("NodePath", "node_path", "NODE_PATH")),
        (21, names("StringName", "string_name", "STRING_NAME")),
    ] {
        types.insert(BuiltinTypeInfo {
            value,
            type_names: names,
            has_destructor: true,
            constructors: None,
            operators: None,
        });
    }
    types
}

#[test]
fn destructor_is_declared_and_loaded() {
    let (decls, inits) = make_destroy_fns(&string_names(), true);
    assert_eq!(
        decls.to_string(),
        text("pub string_destroy : unsafe extern \"C\" fn (GDNativeTypePtr) ,")
    );
    assert_eq!(
        inits.to_string(),
        text(
            "string_destroy : {
                let dtor_fn = interface . variant_get_ptr_destructor . unwrap() ;
                dtor_fn(crate :: GDNATIVE_VARIANT_TYPE_STRING) . unwrap()
            } ,"
        )
    );
}

#[test]
fn no_destructor() {
    let (decls, inits) = make_destroy_fns(&string_names(), false);
    assert!(decls.is_empty() && inits.is_empty());
    let (decls, inits) = make_destroy_fns(&names("int", "int", "INT"), true);
    assert!(decls.is_empty() && inits.is_empty());
}

#[test]
fn operator_is_declared_and_loaded() {
    let operators = vec![op("!="), op("==")];
    let (decls, inits) = make_operator_fns(&string_names(), Some(&operators), "==", "EQUAL");
    assert_eq!(
        decls.to_string(),
        text(
            "pub string_operator_equal : unsafe extern \"C\" fn (
                GDNativeTypePtr, GDNativeTypePtr, GDNativeTypePtr) ,"
        )
    );
    assert_eq!(
        inits.to_string(),
        text(
            "string_operator_equal : {
                let op_finder = interface . variant_get_ptr_operator_evaluator . unwrap() ;
                op_finder(
                    crate :: GDNATIVE_VARIANT_OP_EQUAL,
                    crate :: GDNATIVE_VARIANT_TYPE_STRING,
                    crate :: GDNATIVE_VARIANT_TYPE_STRING,
                ) . expect(\"failed to load GDExtension function `string_operator_equal`\")
            } ,"
        )
    );
}

#[test]
fn no_operator() {
    let operators = vec![op("!="), op("==")];
    let (decls, inits) = make_operator_fns(&string_names(), Some(&operators), "<", "LESS");
    assert!(decls.is_empty() && inits.is_empty());
    let (decls, inits) = make_operator_fns(&string_names(), None, "==", "EQUAL");
    assert!(decls.is_empty() && inits.is_empty());
    let float = names("float", "float", "FLOAT");
    let (decls, inits) = make_operator_fns(&float, Some(&operators), "==", "EQUAL");
    assert!(decls.is_empty() && inits.is_empty());
}

#[test]
fn extra_constructors_are_named_after_their_arguments() {
    let types = some_types();
    let constructors = vec![
        ctor(0, None),
        ctor(1, Some(vec![arg("from", "String")])),
        ctor(2, Some(vec![arg("from", "NodePath")])),
        ctor(3, None),
        ctor(4, Some(vec![arg("x", "float"), arg("y", "float"), arg("z", "float")])),
        ctor(5, Some(vec![])),
        ctor(6, Some(vec![arg("from", "StringName"), arg("to", "StringName")])),
    ];
    let (decls, inits) = make_extra_constructors(&string_names(), &constructors, &types);
    let found: Vec<String> = decls.iter().map(|d| d.to_string()).collect();
    let fields = ["string_from_node_path", "string_from_x_y_z", "string_from_", "string_from_from_to"];
    let indices = [2, 4, 5, 6];
    assert_eq!(found.len(), 4);
    assert_eq!(inits.len(), 4);
    for i in 0..4 {
        assert_eq!(
            found[i],
            text(&format!(
                "pub {} : unsafe extern \"C\" fn (GDNativeTypePtr, * const GDNativeTypePtr) ,",
                fields[i]
            ))
        );
        assert_eq!(
            inits[i].to_string(),
            text(&format!(
                "{} : {{
                    let ctor_fn = interface . variant_get_ptr_constructor . unwrap() ;
                    ctor_fn(crate :: GDNATIVE_VARIANT_TYPE_STRING, {}i32)
                        . expect(\"failed to load GDExtension function `{}`\")
                }} ,",
                fields[i], indices[i], fields[i]
            ))
        );
    }
}

#[test]
fn constructors_are_declared_and_loaded() {
    let types = some_types();
    let constructors = vec![
        ctor(0, None),
        ctor(1, Some(vec![arg("from", "String")])),
        ctor(2, Some(vec![arg("from", "StringName")])),
    ];
    let (decls, inits) = make_construct_fns(&string_names(), Some(&constructors), &types);
    assert_eq!(
        decls.to_string(),
        text(
            "pub string_construct_default : unsafe extern \"C\" fn (GDNativeTypePtr, * const GDNativeTypePtr) ,
             pub string_construct_copy : unsafe extern \"C\" fn (GDNativeTypePtr, * const GDNativeTypePtr) ,
             pub string_from_string_name : unsafe extern \"C\" fn (GDNativeTypePtr, * const GDNativeTypePtr) ,"
        )
    );
    assert_eq!(
        inits.to_string(),
        text(
            "string_construct_default : {
                let ctor_fn = interface . variant_get_ptr_constructor . unwrap() ;
                ctor_fn(crate :: GDNATIVE_VARIANT_TYPE_STRING, 0i32)
                    . expect(\"failed to load GDExtension function `string_construct_default`\")
            } ,
            string_construct_copy : {
                let ctor_fn = interface . variant_get_ptr_constructor . unwrap() ;
                ctor_fn(crate :: GDNATIVE_VARIANT_TYPE_STRING, 1i32)
                    . expect(\"failed to load GDExtension function `string_construct_copy`\")
            } ,
            string_from_string_name : {
                let ctor_fn = interface . variant_get_ptr_constructor . unwrap() ;
                ctor_fn(crate :: GDNATIVE_VARIANT_TYPE_STRING, 2i32)
                    . expect(\"failed to load GDExtension function `string_from_string_name`\")
            } ,"
        )
    );
}

#[test]
fn no_constructors() {
    let types = some_types();
    let (decls, inits) = make_construct_fns(&string_names(), None, &types);
    assert!(decls.is_empty() && inits.is_empty());
    let (decls, inits) =
        make_construct_fns(&names("bool", "bool", "BOOL"), Some(&vec![ctor(9, None)]), &types);
    assert!(decls.is_empty() && inits.is_empty());
}

#[test]
fn nothing_is_named_where_nothing_is_written() {
    let unusable = names("Other", "not a name", "OTHER");
    let trivial = names("int", "not a name", "INT");
    let types = some_types();
    let written = [
        make_destroy_fns(&unusable, false),
        make_destroy_fns(&trivial, true),
        make_operator_fns(&unusable, None, "==", "EQUAL"),
        make_operator_fns(&unusable, Some(&vec![op("<")]), "==", "EQUAL"),
        make_operator_fns(&trivial, Some(&vec![op("==")]), "==", "EQUAL"),
        make_construct_fns(&unusable, None, &types),
        make_construct_fns(&trivial, Some(&vec![ctor(0, None)]), &types),
    ];
    for (decls, inits) in written {
        assert!(decls.is_empty() && inits.is_empty());
    }
}

#[test]
fn all_functions_of_a_type() {
    let types = some_types();
    let constructors = vec![ctor(0, None), ctor(1, Some(vec![arg("from", "String")]))];
    let operators = vec![op("<"), op("==")];
    let (decls, inits) =
        make_variant_fns(&string_names(), true, Some(&constructors), Some(&operators), &types);
    assert_eq!(
        decls.to_string(),
        text(
            "pub string_to_variant : unsafe extern \"C\" fn (GDNativeVariantPtr, GDNativeTypePtr) ,
             pub string_from_variant : unsafe extern \"C\" fn (GDNativeTypePtr, GDNativeVariantPtr) ,
             pub string_operator_equal : unsafe extern \"C\" fn (GDNativeTypePtr, GDNativeTypePtr, GDNativeTypePtr) ,
             pub string_operator_less : unsafe extern \"C\" fn (GDNativeTypePtr, GDNativeTypePtr, GDNativeTypePtr) ,
             pub string_construct_default : unsafe extern \"C\" fn (GDNativeTypePtr, * const GDNativeTypePtr) ,
             pub string_construct_copy : unsafe extern \"C\" fn (GDNativeTypePtr, * const GDNativeTypePtr) ,
             pub string_destroy : unsafe extern \"C\" fn (GDNativeTypePtr) ,"
        )
    );
    assert_eq!(
        inits.to_string(),
        text(
            "string_to_variant : {
                let ctor_fn = interface . get_variant_from_type_constructor . unwrap() ;
                ctor_fn(crate :: GDNATIVE_VARIANT_TYPE_STRING)
                    . expect(\"failed to load GDExtension function `string_to_variant`\")
             } ,
             string_from_variant : {
                let ctor_fn = interface . get_variant_to_type_constructor . unwrap() ;
                ctor_fn(crate :: GDNATIVE_VARIANT_TYPE_STRING)
                    . expect(\"failed to load GDExtension function `string_from_variant`\")
             } ,
             string_operator_equal : {
                let op_finder = interface . variant_get_ptr_operator_evaluator . unwrap() ;
                op_finder(
                    crate :: GDNATIVE_VARIANT_OP_EQUAL,
                    crate :: GDNATIVE_VARIANT_TYPE_STRING,
                    crate :: GDNATIVE_VARIANT_TYPE_STRING,
                ) . expect(\"failed to load GDExtension function `string_operator_equal`\")
             } ,
             string_operator_less : {
                let op_finder = interface . variant_get_ptr_operator_evaluator . unwrap() ;
                op_finder(
                    crate :: GDNATIVE_VARIANT_OP_LESS,
                    crate :: GDNATIVE_VARIANT_TYPE_STRING,
                    crate :: GDNATIVE_VARIANT_TYPE_STRING,
                ) . expect(\"failed to load GDExtension function `string_operator_less`\")
             } ,
             string_construct_default : {
                let ctor_fn = interface . variant_get_ptr_constructor . unwrap() ;
                ctor_fn(crate :: GDNATIVE_VARIANT_TYPE_STRING, 0i32)
                    . expect(\"failed to load GDExtension function `string_construct_default`\")
             } ,
             string_construct_copy : {
                let ctor_fn = interface . variant_get_ptr_constructor . unwrap() ;
                ctor_fn(crate :: GDNATIVE_VARIANT_TYPE_STRING, 1i32)
                    . expect(\"failed to load GDExtension function `string_construct_copy`\")
             } ,
             string_destroy : {
                let dtor_fn = interface . variant_get_ptr_destructor . unwrap() ;
                dtor_fn(crate :: GDNATIVE_VARIANT_TYPE_STRING) . unwrap()
             } ,"
        )
    );
}

#[test]
fn trivial_types_are_only_converted() {
    let types = some_types();
    let operators = vec![op("<"), op("==")];
    let (decls, _) = make_variant_fns(
        &names("int", "int", "INT"),
        true,
        Some(&vec![]),
        Some(&operators),
        &types,
    );
    assert_eq!(
        decls.to_string(),
        text(
            "pub int_to_variant : unsafe extern \"C\" fn (GDNativeVariantPtr, GDNativeTypePtr) ,
             pub int_from_variant : unsafe extern \"C\" fn (GDNativeTypePtr, GDNativeVariantPtr) ,"
        )
    );
}

#[test]
fn names_outside_ascii_are_escaped_in_messages_only() {
    // A combining accent continues an identifier, and is escaped in a string literal.
    let accented = names("Va", "va\u{301}", "VA\u{301}");
    let (decls, inits) = make_operator_fns(&accented, Some(&vec![op("==")]), "==", "EQUAL");
    assert!(decls.to_string().starts_with("pub va\u{301}_operator_equal :"));
    assert!(inits.to_string().contains("`va\\u{301}_operator_equal`"));
}

#[test]
fn opaque_types() {
    assert_eq!(
        make_opaque_type("int", 8).to_string(),
        text("pub type OpaqueInt = crate :: opaque :: Opaque < 8usize > ;")
    );
    assert_eq!(
        make_opaque_type("PackedVector2Array", 16).to_string(),
        text("pub type OpaquePackedVector2Array = crate :: opaque :: Opaque < 16usize > ;")
    );
    assert_eq!(
        make_opaque_type("Nothing", 0).to_string(),
        text("pub type OpaqueNothing = crate :: opaque :: Opaque < 0usize > ;")
    );
}

fn class(name: &str, has_destructor: bool) -> BuiltinClass {
    BuiltinClass {
        name: name.to_string(),
        has_destructor,
        constructors: vec![],
        operators: vec![],
    }
}

fn constant(name: &str, value: i32) -> Constant {
    Constant { name: name.to_string(), value }
}

#[test]
fn classes_are_found_in_any_case() {
    let api = ExtensionApi {
        builtin_class_sizes: vec![ClassSizes {
            build_configuration: "float_64".to_string(),
            sizes: vec![ClassSize { name: "int".to_string(), size: 8 }],
        }],
        builtin_classes: vec![class("AABB", false), class("String", true), class("STRING", false)],
        global_enums: vec![],
    };
    let classes = collect_builtin_classes(&api);
    assert_eq!(classes.get("aabb").unwrap().name, "AABB");
    assert_eq!(classes.get("string").unwrap().name, "STRING");
    assert!(classes.get("String").is_none());
    assert_eq!(classes.len(), 2);
}

#[test]
fn types_are_found_by_name() {
    let api = ExtensionApi {
        builtin_class_sizes: vec![],
        builtin_classes: vec![class("PackedVector2Array", true), class("int", false)],
        global_enums: vec![
            Enum { name: "Side".to_string(), values: vec![] },
            Enum {
                name: "Variant.Type".to_string(),
                values: vec![
                    constant("TYPE_NIL", 0),
                    constant("TYPE_PACKED_VECTOR2_ARRAY", 33),
                    constant("TYPE_OBJECT", 24),
                    constant("TYPE_INT", 2),
                    constant("TYPE_I_NT", 3),
                    constant("TYPE_MAX", 36),
                ],
            },
            Enum { name: "Variant.Type".to_string(), values: vec![] },
        ],
    };
    let classes = collect_builtin_classes(&api);
    let types = collect_builtin_types(&api, &classes);
    let array = types.get("PackedVector2Array").unwrap();
    assert_eq!(array.value, 33);
    assert_eq!(array.type_names.snake_case, "packed_vector2_array");
    assert_eq!(
        array.type_names.sys_variant_type,
        "GDNATIVE_VARIANT_TYPE_PACKED_VECTOR2_ARRAY"
    );
    assert!(array.has_destructor && array.constructors.is_some() && array.operators.is_some());
    let object = types.get("Object").unwrap();
    assert_eq!(object.value, 24);
    assert!(!object.has_destructor && object.constructors.is_none() && object.operators.is_none());
    // The later of two enumerators of one class counts.
    assert_eq!(types.get("int").unwrap().value, 3);
    assert_eq!(types.get("int").unwrap().type_names.snake_case, "i_nt");
    assert!(types.get("NIL").is_none() && types.get("Nil").is_none());
}
