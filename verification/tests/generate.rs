use central_codegen::api::{
    BuiltinClass, ClassSize, ClassSizes, Constant, Constructor, Enum, ExtensionApi, MethodArg,
    Operator,
};
use central_codegen::check::{
    check_api, check_context, find_context_fault, find_fault, FaultKind,
};
use central_codegen::code::{make_core_code, make_sys_code, CentralItems};
use central_codegen::generate::{
    builtin_type_names, generate_central_files, try_generate_central_files, Target,
};
use central_codegen::items::{
    is_handled_explicitly, make_central_items, make_enumerator, to_rust_type, Context,
};
use central_codegen::types::{
    collect_builtin_classes, collect_builtin_types, collect_variant_operators, sort_by_value,
    TypeNames,
};
use proc_macro2::TokenStream;

const CONFIG: &str = "float_64";

/// The text of the tokens of some source. Operators stand apart from what follows them.
fn text(source: &str) -> String {
    tokens(source).to_string()
}

fn tokens(source: &str) -> TokenStream {
    source.parse::<TokenStream>().unwrap()
}

fn constant(name: &str, value: i32) -> Constant {
    Constant { name: name.to_string(), value }
}

fn enumeration(name: &str, values: Vec<Constant>) -> Enum {
    Enum { name: name.to_string(), values }
}

fn sizes(config: &str, sizes: Vec<(&str, usize)>) -> ClassSizes {
    ClassSizes {
        build_configuration: config.to_string(),
        sizes: sizes
            .into_iter()
            .map(|(name, size)| ClassSize { name: name.to_string(), size })
            .collect(),
    }
}

fn arg(name: &str, type_: &str) -> MethodArg {
    MethodArg { name: name.to_string(), type_: type_.to_string() }
}

fn class(name: &str, has_destructor: bool, operators: &[&str]) -> BuiltinClass {
    BuiltinClass {
        name: name.to_string(),
        has_destructor,
        constructors: vec![
            Constructor { index: 0, arguments: None },
            Constructor { index: 1, arguments: Some(vec![arg("from", name)]) },
        ],
        operators: operators.iter().map(|op| Operator { name: op.to_string() }).collect(),
    }
}

fn sample() -> ExtensionApi {
    let mut plane = class("Plane", false, &["=="]);
    plane.constructors.push(Constructor {
        index: 2,
        arguments: Some(vec![arg("normal", "Vector3"), arg("d", "float")]),
    });
    let mut string = class("String", true, &["!=", "<"]);
    string.constructors.push(Constructor { index: 2, arguments: None });
    ExtensionApi {
        builtin_class_sizes: vec![
            sizes("float_32", vec![("bool", 1), ("String", 4)]),
            sizes("float_64", vec![("bool", 1), ("String", 8)]),
            sizes("float_64", vec![("Plane", 16)]),
        ],
        builtin_classes: vec![string, plane, class("bool", false, &["==", "<"])],
        global_enums: vec![
            enumeration("Side", vec![constant("SIDE_LEFT", 0)]),
            enumeration(
                "Variant.Operator",
                vec![
                    constant("OP_EQUAL", 0),
                    constant("OP_LESS_EQUAL", 3),
                    constant("OP_MAX", 25),
                    constant("OP_IN", -24),
                ],
            ),
            enumeration(
                "Variant.Type",
                vec![
                    constant("TYPE_NIL", 0),
                    constant("TYPE_OBJECT", 24),
                    constant("TYPE_STRING", 4),
                    constant("TYPE_BOOL", 1),
                    constant("TYPE_PLANE", 14),
                    constant("TYPE_MAX", 38),
                ],
            ),
            enumeration("Corner", vec![constant("CORNER_TOP", 0)]),
        ],
    }
}

fn sample_context() -> Context {
    let mut ctx = Context::new();
    ctx.insert_rust_type("bool".to_string(), tokens("bool"));
    ctx.insert_rust_type("String".to_string(), tokens("GodotString"));
    ctx.insert_rust_type("Plane".to_string(), tokens("Plane"));
    ctx.insert_rust_type("Object".to_string(), tokens("Gd < Object >"));
    for def in ["pub struct Side ;", "operator", "type_", "pub struct Corner ;"] {
        ctx.enum_definitions.push(tokens(def));
    }
    ctx
}

fn conversions(snake: &str, shout: &str) -> (String, String) {
    let decls = format!(
        "pub {snake}_to_variant : unsafe extern \"C\" fn (GDNativeVariantPtr, GDNativeTypePtr) ,
         pub {snake}_from_variant : unsafe extern \"C\" fn (GDNativeTypePtr, GDNativeVariantPtr) ,"
    );
    let inits = format!(
        "{snake}_to_variant : {{
            let ctor_fn = interface . get_variant_from_type_constructor . unwrap() ;
            ctor_fn(crate :: GDNATIVE_VARIANT_TYPE_{shout})
                . expect(\"failed to load GDExtension function `{snake}_to_variant`\")
         }} ,
         {snake}_from_variant : {{
            let ctor_fn = interface . get_variant_to_type_constructor . unwrap() ;
            ctor_fn(crate :: GDNATIVE_VARIANT_TYPE_{shout})
                . expect(\"failed to load GDExtension function `{snake}_from_variant`\")
         }} ,"
    );
    (decls, inits)
}

fn constructor(name: &str, shout: &str, index: usize) -> (String, String) {
    let decls = format!(
        "pub {name} : unsafe extern \"C\" fn (GDNativeTypePtr, * const GDNativeTypePtr) ,"
    );
    let inits = format!(
        "{name} : {{
            let ctor_fn = interface . variant_get_ptr_constructor . unwrap() ;
            ctor_fn(crate :: GDNATIVE_VARIANT_TYPE_{shout}, {index}i32)
                . expect(\"failed to load GDExtension function `{name}`\")
         }} ,"
    );
    (decls, inits)
}

fn operator(snake: &str, shout: &str, lower: &str, upper: &str) -> (String, String) {
    let decls = format!(
        "pub {snake}_operator_{lower} : unsafe extern \"C\" fn (
            GDNativeTypePtr, GDNativeTypePtr, GDNativeTypePtr) ,"
    );
    let inits = format!(
        "{snake}_operator_{lower} : {{
            let op_finder = interface . variant_get_ptr_operator_evaluator . unwrap() ;
            op_finder(
                crate :: GDNATIVE_VARIANT_OP_{upper},
                crate :: GDNATIVE_VARIANT_TYPE_{shout},
                crate :: GDNATIVE_VARIANT_TYPE_{shout},
            ) . expect(\"failed to load GDExtension function `{snake}_operator_{lower}`\")
         }} ,"
    );
    (decls, inits)
}

fn destructor() -> (String, String) {
    (
        "pub string_destroy : unsafe extern \"C\" fn (GDNativeTypePtr) ,".to_string(),
        "string_destroy : {
            let dtor_fn = interface . variant_get_ptr_destructor . unwrap() ;
            dtor_fn(crate :: GDNATIVE_VARIANT_TYPE_STRING) . unwrap()
         } ,"
        .to_string(),
    )
}

/// The fields of the sample, in order.
fn sample_fields() -> Vec<(String, String)> {
    vec![
        conversions("bool", "BOOL"),
        conversions("string", "STRING"),
        operator("string", "STRING", "less", "LESS"),
        constructor("string_construct_default", "STRING", 0),
        constructor("string_construct_copy", "STRING", 1),
        destructor(),
        conversions("plane", "PLANE"),
        operator("plane", "PLANE", "equal", "EQUAL"),
        constructor("plane_construct_default", "PLANE", 0),
        constructor("plane_construct_copy", "PLANE", 1),
        constructor("plane_from_normal_d", "PLANE", 2),
        conversions("object", "OBJECT"),
    ]
}

fn sample_sys_code() -> String {
    let fields = sample_fields();
    let decls: Vec<String> = fields.iter().map(|f| f.0.clone()).collect();
    let inits: Vec<String> = fields.iter().map(|f| f.1.clone()).collect();
    let source = format!(
        "use crate :: {{GDNativeVariantPtr, GDNativeTypePtr, GodotFfi, ffi_methods}} ;

        pub mod types {{
            pub type OpaqueBool = crate :: opaque :: Opaque < 1usize > ;
            pub type OpaqueString = crate :: opaque :: Opaque < 8usize > ;
        }}

        pub struct GlobalMethodTable {{
            {decls}
        }}

        impl GlobalMethodTable {{
            pub(crate) unsafe fn new(interface : & crate :: GDNativeInterface) -> Self {{
                Self {{
                    {inits}
                }}
            }}
        }}

        # [derive(Copy, Clone, Eq, PartialEq, Ord, PartialOrd, Hash, Debug)]
        # [repr(i32)]
        pub enum VariantType {{
            Nil = 0,
            Bool = 1,
            String = 4,
            Plane = 14,
            Object = 24,
        }}

        impl VariantType {{
            # [doc(hidden)]
            pub fn from_ord(enumerator : crate :: GDNativeVariantType) -> Self {{
                match enumerator {{
                    0 => Self :: Nil,
                    1 => Self :: Bool,
                    4 => Self :: String,
                    14 => Self :: Plane,
                    24 => Self :: Object,
                    _ => unreachable ! (\"invalid variant type {{}}\", enumerator)
                }}
            }}

            # [doc(hidden)]
            pub fn to_ord(self) -> crate :: GDNativeVariantType {{
                self as _
            }}
        }}

        impl GodotFfi for VariantType {{
            ffi_methods ! {{ type GDNativeTypePtr = * mut Self ; .. }}
        }}

        # [derive(Copy, Clone, Eq, PartialEq, Ord, PartialOrd, Hash, Debug)]
        # [repr(i32)]
        pub enum VariantOperator {{
            Equal = 0,
            LessEqual = 3,
            In = - 24,
        }}

        impl VariantOperator {{
            # [doc(hidden)]
            pub fn from_ord(enumerator : crate :: GDNativeVariantOperator) -> Self {{
                match enumerator {{
                    0 => Self :: Equal,
                    3 => Self :: LessEqual,
                    - 24 => Self :: In,
                    _ => unreachable ! (\"invalid variant operator {{}}\", enumerator)
                }}
            }}

            # [doc(hidden)]
            pub fn to_ord(self) -> crate :: GDNativeVariantOperator {{
                self as _
            }}
        }}

        impl GodotFfi for VariantOperator {{
            ffi_methods ! {{ type GDNativeTypePtr = * mut Self ; .. }}
        }}",
        decls = decls.join("\n"),
        inits = inits.join("\n"),
    );
    text(&source)
}

fn sample_core_code() -> String {
    text(
        "use crate :: builtin :: * ;
        use crate :: engine :: Object ;
        use crate :: obj :: Gd ;

        # [allow(dead_code)]
        pub enum VariantDispatch {
            Nil,
            Bool(bool),
            String(GodotString),
            Plane(Plane),
            Object(Gd < Object >),
        }

        # [cfg(FALSE)]
        impl FromVariant for VariantDispatch {
            fn try_from_variant(variant : & Variant) -> Result < Self , VariantConversionError > {
                let dispatch = match variant . get_type() {
                    VariantType :: Nil => Self :: Nil,
                    VariantType :: Bool => Self :: Bool(variant . to :: < bool > ()),
                    VariantType :: String => Self :: String(variant . to :: < GodotString > ()),
                    VariantType :: Plane => Self :: Plane(variant . to :: < Plane > ()),
                    VariantType :: Object => Self :: Object(variant . to :: < Gd < Object > > ()),
                } ;

                Ok(dispatch)
            }
        }

        pub mod global {
            use crate :: sys ;
            pub struct Side ;
            pub struct Corner ;
        }",
    )
}

#[test]
fn both_files_are_generated() {
    let api = sample();
    let ctx = sample_context();
    assert!(check_api(&api, CONFIG));
    assert!(check_context(&api, CONFIG, &ctx));
    let files = generate_central_files(&api, &ctx, CONFIG);
    assert_eq!(files.len(), 2);
    assert_eq!(files[0].target, Target::Sys);
    assert_eq!(files[0].name, "central.rs");
    assert_eq!(files[0].code, sample_sys_code());
    assert_eq!(files[1].target, Target::Core);
    assert_eq!(files[1].name, "central.rs");
    assert_eq!(files[1].code, sample_core_code());
}

#[test]
fn checked_generation_gives_the_same_files() {
    let files = try_generate_central_files(&sample(), &sample_context(), CONFIG).unwrap();
    assert_eq!(files[0].code, sample_sys_code());
    assert_eq!(files[1].code, sample_core_code());
}

#[test]
fn code_is_text_with_single_spaces() {
    let items = CentralItems {
        opaque_types: vec![],
        variant_ty_enumerators_pascal: vec!["Int".to_string()],
        variant_ty_enumerators_rust: vec![tokens("i64")],
        variant_ty_enumerators_ord: vec![2],
        variant_op_enumerators_pascal: vec![],
        variant_op_enumerators_ord: vec![],
        variant_fn_decls: vec![],
        variant_fn_inits: vec![],
        global_enum_defs: vec![],
    };
    let sys = make_sys_code(&items);
    assert!(sys.starts_with(
        "use crate :: { GDNativeVariantPtr , GDNativeTypePtr , GodotFfi , ffi_methods } ; \
         pub mod types { } pub struct GlobalMethodTable { } impl GlobalMethodTable { \
         pub (crate) unsafe fn new (interface : & crate :: GDNativeInterface) -> Self { \
         Self { } } } # [derive (Copy , Clone , Eq , PartialEq , Ord , PartialOrd , Hash , Debug)] \
         # [repr (i32)] pub enum VariantType { Nil = 0 , Int = 2 , } impl VariantType"
    ));
    let core = make_core_code(&items);
    assert!(core.contains("pub enum VariantDispatch { Nil , Int (i64) , }"));
    assert!(core.contains("VariantType :: Int => Self :: Int (variant . to :: < i64 > ()) ,"));
    assert!(core.ends_with("pub mod global { use crate :: sys ; }"));
}

#[test]
fn items_stand_side_by_side() {
    let api = sample();
    let items = make_central_items(&api, CONFIG, &sample_context());
    assert_eq!(items.variant_ty_enumerators_pascal, ["Bool", "String", "Plane", "Object"]);
    assert_eq!(items.variant_ty_enumerators_ord, [1, 4, 14, 24]);
    let rust: Vec<String> =
        items.variant_ty_enumerators_rust.iter().map(|t| t.to_string()).collect();
    assert_eq!(rust, ["bool", "GodotString", "Plane", "Gd < Object >"]);
    assert_eq!(items.variant_op_enumerators_pascal, ["Equal", "LessEqual", "In"]);
    assert_eq!(items.variant_op_enumerators_ord, [0, 3, -24]);
    assert_eq!(items.variant_fn_decls.len(), 4);
    assert_eq!(items.variant_fn_inits.len(), 4);
    assert_eq!(items.opaque_types.len(), 2);
    assert_eq!(items.global_enum_defs.len(), 2);
}

#[test]
fn only_the_first_sizes_of_a_configuration_count() {
    let api = sample();
    let ctx = sample_context();
    let items = make_central_items(&api, "float_32", &ctx);
    let types: Vec<String> = items.opaque_types.iter().map(|t| t.to_string()).collect();
    assert_eq!(
        types,
        [
            text("pub type OpaqueBool = crate :: opaque :: Opaque < 1usize > ;"),
            text("pub type OpaqueString = crate :: opaque :: Opaque < 4usize > ;"),
        ]
    );
    let items = make_central_items(&api, "double_64", &ctx);
    assert!(items.opaque_types.is_empty());
}

#[test]
fn sys_file_ignores_context() {
    let api = sample();
    let mut other = sample_context();
    other.insert_rust_type("bool".to_string(), tokens("Flag"));
    other.enum_definitions[0] = tokens("pub struct Other ;");
    let first = generate_central_files(&api, &sample_context(), CONFIG);
    let second = generate_central_files(&api, &other, CONFIG);
    assert_eq!(first[0].code, second[0].code);
    assert_ne!(first[1].code, second[1].code);
}

#[test]
fn core_file_ignores_build_config() {
    let api = sample();
    let first = generate_central_files(&api, &sample_context(), "float_32");
    let second = generate_central_files(&api, &sample_context(), "float_64");
    assert_ne!(first[0].code, second[0].code);
    assert_eq!(first[1].code, second[1].code);
}

#[test]
fn explicit_enums_are_skipped() {
    assert!(is_handled_explicitly("Variant.Type"));
    assert!(is_handled_explicitly("Variant.Operator"));
    assert!(!is_handled_explicitly("Variant"));
    let api = sample();
    let mut other = sample_context();
    other.enum_definitions[1] = tokens("pub struct Other ;");
    other.enum_definitions[2] = tokens("pub struct Other ;");
    let first = generate_central_files(&api, &sample_context(), CONFIG);
    let second = generate_central_files(&api, &other, CONFIG);
    assert_eq!(first[1].code, second[1].code);
}

#[test]
fn types_are_listed_by_ordinal() {
    let api = sample();
    let classes = collect_builtin_classes(&api);
    let types = collect_builtin_types(&api, &classes);
    let list = sort_by_value(&types);
    let values: Vec<i32> = list.iter().map(|t| t.value).collect();
    assert_eq!(values, [1, 4, 14, 24]);
    assert_eq!(
        builtin_type_names(&api, CONFIG).unwrap(),
        ["bool", "String", "Plane", "Object"]
    );
}

#[test]
fn types_of_one_ordinal_are_all_listed() {
    let mut api = sample();
    for c in &mut api.global_enums[2].values {
        c.value = if c.name == "TYPE_BOOL" { -7 } else { 5 };
    }
    let names = builtin_type_names(&api, CONFIG).unwrap();
    assert_eq!(names[0], "bool");
    let mut rest = names[1..].to_vec();
    rest.sort();
    assert_eq!(rest, ["Object", "Plane", "String"]);
}

#[test]
fn operators_are_collected() {
    let api = sample();
    let operators: Vec<(&str, i32)> = collect_variant_operators(&api)
        .iter()
        .map(|c| (c.name.as_str(), c.value))
        .collect();
    assert_eq!(
        operators,
        [("OP_EQUAL", 0), ("OP_LESS_EQUAL", 3), ("OP_MAX", 25), ("OP_IN", -24)]
    );
}

#[test]
fn enumerator_of_a_type() {
    let names = TypeNames {
        pascal_case: "bool".to_string(),
        snake_case: "bool".to_string(),
        sys_variant_type: "GDNATIVE_VARIANT_TYPE_BOOL".to_string(),
    };
    let ctx = sample_context();
    let (name, rust_ty, ord) = make_enumerator(&names, -3, &ctx);
    assert_eq!(name, "Bool");
    assert_eq!(rust_ty.to_string(), "bool");
    assert_eq!(ord, -3);
    assert_eq!(to_rust_type("Object", &ctx).to_string(), "Gd < Object >");
}

/// The fault of an interface description that is refused.
fn fault(api: &ExtensionApi) -> (FaultKind, String) {
    assert!(!check_api(api, CONFIG));
    let found = find_fault(api, CONFIG).unwrap();
    let named = builtin_type_names(api, CONFIG).unwrap_err();
    assert_eq!((named.kind, &named.name), (found.kind, &found.name));
    let generated = try_generate_central_files(api, &sample_context(), CONFIG).unwrap_err();
    assert_eq!((generated.kind, &generated.name), (found.kind, &found.name));
    (found.kind, found.name)
}

#[test]
fn a_readable_description_has_no_fault() {
    assert!(find_fault(&sample(), CONFIG).is_none());
    assert!(find_context_fault(&sample(), CONFIG, &sample_context()).is_none());
}

#[test]
fn missing_enums_are_refused() {
    let mut api = sample();
    api.global_enums[2].name = "Other".to_string();
    assert_eq!(fault(&api), (FaultKind::MissingEnum, "Variant.Type".to_string()));
    let mut api = sample();
    api.global_enums[1].name = "Other".to_string();
    assert_eq!(fault(&api), (FaultKind::MissingEnum, "Variant.Operator".to_string()));
}

#[test]
fn bad_variant_types_are_refused() {
    for (name, kind) in [
        ("KIND_BOOL", FaultKind::TypePrefix),
        ("TYPE_UNKNOWN", FaultKind::MissingClass),
        ("TYPE_", FaultKind::MissingClass),
        ("TYPE_OB-JECT", FaultKind::MissingClass),
        ("TYPE_BO OL", FaultKind::MissingClass),
    ] {
        let mut api = sample();
        api.global_enums[2].values[3].name = name.to_string();
        assert_eq!(fault(&api), (kind, name.to_string()));
    }
    let mut api = sample();
    api.global_enums[2].values[3].name = "TYPE_A-B".to_string();
    api.builtin_classes.push(class("A-B", false, &[]));
    assert_eq!(fault(&api), (FaultKind::TypeName, "TYPE_A-B".to_string()));
}

#[test]
fn types_without_names_for_code_are_refused() {
    let mut api = sample();
    api.builtin_classes.push(class("2D", false, &[]));
    api.global_enums[2].values[3].name = "TYPE_2D".to_string();
    assert_eq!(fault(&api), (FaultKind::FieldName, "2D".to_string()));
    api.global_enums[2].values[3].name = "TYPE__2D".to_string();
    assert_eq!(fault(&api), (FaultKind::EnumeratorName, "2D".to_string()));
}

#[test]
fn bad_operators_are_refused() {
    for (name, kind) in [
        ("LESS", FaultKind::OperatorPrefix),
        ("OP_", FaultKind::OperatorName),
        ("OP__LESS", FaultKind::OperatorName),
        ("OP_LESS__EQUAL", FaultKind::OperatorName),
        ("OP_1", FaultKind::OperatorName),
        ("OP_A-B", FaultKind::OperatorName),
    ] {
        let mut api = sample();
        api.global_enums[1].values[0].name = name.to_string();
        assert_eq!(fault(&api), (kind, name.to_string()));
    }
    let mut api = sample();
    api.global_enums[1].values[0].name = "OP_LESS_".to_string();
    assert!(check_api(&api, CONFIG));
}

#[test]
fn bad_sizes_are_refused() {
    for name in ["", "\u{e4}", "a b"] {
        let mut api = sample();
        api.builtin_class_sizes[1].sizes[0].name = name.to_string();
        assert_eq!(fault(&api), (FaultKind::OpaqueName, name.to_string()));
        // Another configuration is not looked at.
        assert!(check_api(&api, "float_32"));
    }
}

/// The fault of an interface description in which the constructors of `Plane` are changed.
fn plane_fault(change: fn(&mut Vec<Constructor>)) -> FaultKind {
    let mut api = sample();
    change(&mut api.builtin_classes[1].constructors);
    let (kind, name) = fault(&api);
    assert_eq!(name, "Plane");
    kind
}

#[test]
fn bad_constructors_are_refused() {
    // Not at its index
    assert_eq!(plane_fault(|c| c[2].index = 3), FaultKind::ConstructorIndex);
    // No constructors at all
    assert_eq!(plane_fault(|c| c.clear()), FaultKind::DefaultConstructor);
    // A default constructor with arguments
    assert_eq!(plane_fault(|c| c[0].arguments = Some(vec![])), FaultKind::DefaultConstructor);
    // No copy constructor
    assert_eq!(plane_fault(|c| c.truncate(1)), FaultKind::CopyConstructor);
    // A copy constructor of another type
    assert_eq!(
        plane_fault(|c| c[1].arguments = Some(vec![arg("from", "String")])),
        FaultKind::CopyConstructor
    );
    // A copy constructor with another argument
    assert_eq!(
        plane_fault(|c| c[1].arguments = Some(vec![arg("to", "Plane")])),
        FaultKind::CopyConstructor
    );
    // A copy constructor without arguments
    assert_eq!(plane_fault(|c| c[1].arguments = None), FaultKind::CopyConstructor);
    // A conversion from an unknown type
    assert_eq!(
        plane_fault(|c| c[2].arguments = Some(vec![arg("from", "Unknown")])),
        FaultKind::SourceType
    );
    // An argument whose name is not part of an identifier
    assert_eq!(
        plane_fault(|c| c[2].arguments = Some(vec![arg("a b", "float")])),
        FaultKind::ConstructorName
    );
    // The constructors of a trivial type are not looked at
    let mut api = sample();
    api.builtin_classes[2].constructors.clear();
    assert!(check_api(&api, CONFIG));
}

#[test]
fn the_first_fault_is_named() {
    let mut api = sample();
    api.global_enums[1].values[0].name = "LESS".to_string();
    assert_eq!(fault(&api).0, FaultKind::OperatorPrefix);
    api.builtin_classes[1].constructors.clear();
    assert_eq!(fault(&api), (FaultKind::DefaultConstructor, "Plane".to_string()));
    api.builtin_classes[0].constructors.clear();
    assert_eq!(fault(&api), (FaultKind::DefaultConstructor, "String".to_string()));
    api.global_enums[1].name = "Other".to_string();
    assert_eq!(fault(&api), (FaultKind::MissingEnum, "Variant.Operator".to_string()));
    api.global_enums[2].values[4].name = "PLANE".to_string();
    assert_eq!(fault(&api), (FaultKind::TypePrefix, "PLANE".to_string()));
    api.global_enums[2].name = "Other".to_string();
    assert_eq!(fault(&api), (FaultKind::MissingEnum, "Variant.Type".to_string()));
    api.builtin_class_sizes[1].sizes[0].name = String::new();
    assert_eq!(fault(&api), (FaultKind::OpaqueName, String::new()));
}

#[test]
fn missing_context_is_refused() {
    let api = sample();
    let mut ctx = Context::new();
    assert!(!check_context(&api, CONFIG, &ctx));
    for _ in 0..4 {
        ctx.enum_definitions.push(TokenStream::new());
    }
    assert!(!check_context(&api, CONFIG, &ctx));
    ctx.insert_rust_type("bool".to_string(), tokens("bool"));
    let found = try_generate_central_files(&api, &ctx, CONFIG).unwrap_err();
    assert_eq!((found.kind, found.name.as_str()), (FaultKind::MissingRustType, "String"));
    for name in ["String", "Plane", "Object"] {
        ctx.insert_rust_type(name.to_string(), tokens(name));
    }
    assert!(check_context(&api, CONFIG, &ctx));
    ctx.enum_definitions.pop();
    assert!(!check_context(&api, CONFIG, &ctx));
    let found = find_context_fault(&api, CONFIG, &ctx).unwrap();
    assert_eq!((found.kind, found.name.as_str()), (FaultKind::EnumDefinitions, ""));
}

fn no_items() -> CentralItems {
    CentralItems {
        opaque_types: vec![],
        variant_ty_enumerators_pascal: vec![],
        variant_ty_enumerators_rust: vec![],
        variant_ty_enumerators_ord: vec![],
        variant_op_enumerators_pascal: vec![],
        variant_op_enumerators_ord: vec![],
        variant_fn_decls: vec![],
        variant_fn_inits: vec![],
        global_enum_defs: vec![],
    }
}

fn strings(list: &[&str]) -> Vec<String> {
    list.iter().map(|s| s.to_string()).collect()
}

fn without_spaces(code: &str) -> String {
    code.chars().filter(|c| !c.is_whitespace()).collect()
}

#[test]
fn sys_code_needs_no_rust_types() {
    let items = CentralItems {
        variant_ty_enumerators_pascal: strings(&["Bool", "Object"]),
        variant_ty_enumerators_ord: vec![1, 24],
        variant_op_enumerators_pascal: strings(&["Equal", "Less"]),
        variant_op_enumerators_ord: vec![0, 2],
        ..no_items()
    };
    let code = without_spaces(&make_sys_code(&items));
    assert!(code.contains("pubenumVariantType{Nil=0,Bool=1,Object=24,}"));
    assert!(code.contains(
        "matchenumerator{0=>Self::Nil,1=>Self::Bool,24=>Self::Object,_=>unreachable!"
    ));
    assert!(code.contains("pubenumVariantOperator{Equal=0,Less=2,}"));
    assert!(code.contains("matchenumerator{0=>Self::Equal,2=>Self::Less,_=>unreachable!"));
}

#[test]
fn core_code_needs_no_ordinals() {
    let items = CentralItems {
        variant_ty_enumerators_pascal: strings(&["Bool", "Int"]),
        variant_ty_enumerators_rust: vec![tokens("bool"), tokens("i64")],
        ..no_items()
    };
    let code = without_spaces(&make_core_code(&items));
    assert!(code.contains("pubenumVariantDispatch{Nil,Bool(bool),Int(i64),}"));
    assert!(code.contains(
        "VariantType::Nil=>Self::Nil,\
         VariantType::Bool=>Self::Bool(variant.to::<bool>()),\
         VariantType::Int=>Self::Int(variant.to::<i64>()),}"
    ));
    assert!(code.contains("pubmodglobal{usecrate::sys;}"));
}

#[test]
fn what_has_no_counterpart_is_left_out() {
    let items = CentralItems {
        variant_ty_enumerators_pascal: strings(&["Bool", "Int"]),
        variant_ty_enumerators_rust: vec![tokens("bool")],
        variant_ty_enumerators_ord: vec![1, 2, 3],
        variant_op_enumerators_pascal: strings(&["Equal", "Less"]),
        variant_op_enumerators_ord: vec![0],
        ..no_items()
    };
    let sys = without_spaces(&make_sys_code(&items));
    assert!(sys.contains("pubenumVariantType{Nil=0,Bool=1,Int=2,}"));
    assert!(sys.contains("pubenumVariantOperator{Equal=0,}"));
    assert!(sys.contains("matchenumerator{0=>Self::Equal,_=>unreachable!"));
    let core = without_spaces(&make_core_code(&items));
    assert!(core.contains("pubenumVariantDispatch{Nil,Bool(bool),}"));
}

#[test]
fn every_ordinal_has_one_arm() {
    let ords = [-24, -2, 2, 24, 240];
    let items = CentralItems {
        variant_op_enumerators_pascal: strings(&["A", "B", "C", "D", "E"]),
        variant_op_enumerators_ord: ords.to_vec(),
        ..no_items()
    };
    let code = without_spaces(&make_sys_code(&items));
    for (name, ord) in ["A", "B", "C", "D", "E"].iter().zip(ords) {
        assert_eq!(code.matches(&format!(",{}=>Self::", ord)).count(), (ord != -24) as usize);
        assert_eq!(code.matches(&format!("{}=>Self::{},", ord, name)).count(), 1);
        assert_eq!(code.matches(&format!("{}={},", name, ord)).count(), 1);
    }
}
