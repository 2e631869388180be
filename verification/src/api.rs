//! The part of Godot's `extension_api.json` from which the central files are generated.

use vstd::prelude::*;

verus! {

/// The description of Godot's interface.
#[derive(Debug)]
pub struct ExtensionApi {
    pub builtin_class_sizes: Vec<ClassSizes>,
    pub builtin_classes: Vec<BuiltinClass>,
    pub global_enums: Vec<Enum>,
}

/// The sizes of the builtin types in one build configuration.
#[derive(Debug)]
pub struct ClassSizes {
    pub build_configuration: String,
    pub sizes: Vec<ClassSize>,
}

/// The size of one builtin type, in bytes.
#[derive(Debug)]
pub struct ClassSize {
    pub name: String,
    pub size: usize,
}

/// A builtin type.
#[derive(Debug)]
pub struct BuiltinClass {
    pub name: String,
    pub has_destructor: bool,
    pub constructors: Vec<Constructor>,
    pub operators: Vec<Operator>,
}

/// A constructor of a builtin type.
#[derive(Debug)]
pub struct Constructor {
    pub index: usize,
    pub arguments: Option<Vec<MethodArg>>,
}

/// An argument of a constructor.
#[derive(Debug)]
pub struct MethodArg {
    pub name: String,
    pub type_: String,
}

/// An operator of a builtin type, such as `==`.
#[derive(Debug)]
pub struct Operator {
    pub name: String,
}

/// An enumeration at global scope.
#[derive(Debug)]
pub struct Enum {
    pub name: String,
    pub values: Vec<Constant>,
}

/// An enumerator.
#[derive(Debug)]
pub struct Constant {
    pub name: String,
    pub value: i32,
}

/// The enumeration of that name that comes first.
pub open spec fn named_enum(enums: Seq<Enum>, name: Seq<char>) -> Option<Enum>
    decreases enums.len(),
{
    if enums.len() == 0 {
        None
    } else if enums[0].name@ == name {
        Some(enums[0])
    } else {
        named_enum(enums.skip(1), name)
    }
}

} // verus!
