use central_codegen::fields::{format_load_error, is_trivial};
use central_codegen::ident::is_identifier;
use central_codegen::text::{
    capitalize, has_shout_case, remove_underscores, same_text, shout_to_pascal, strip_prefix,
    to_lower,
};
use central_codegen::types::TypeNames;

fn names(pascal_case: &str) -> TypeNames {
    TypeNames {
        pascal_case: pascal_case.to_string(),
        snake_case: "x".to_string(),
        sys_variant_type: "GDNATIVE_VARIANT_TYPE_X".to_string(),
    }
}

#[test]
fn shout_case_becomes_pascal_case() {
    assert_eq!(shout_to_pascal("EQUAL"), "Equal");
    assert_eq!(shout_to_pascal("LESS_EQUAL"), "LessEqual");
    assert_eq!(shout_to_pascal("BIT_SHIFT_LEFT"), "BitShiftLeft");
    assert_eq!(shout_to_pascal("TRAILING_"), "Trailing");
    assert_eq!(shout_to_pascal("a_b2_C"), "ab2C");
    assert_eq!(shout_to_pascal(""), "");
}

#[test]
fn pascal_case_keeps_letters() {
    for s in ["LESS_EQUAL", "A_B_C", "NEGATE", "X1_Y2"] {
        let without = remove_underscores(s);
        assert_eq!(to_lower(&shout_to_pascal(s)), to_lower(&without));
        assert!(!shout_to_pascal(s).contains('_'));
    }
}

#[test]
fn shout_case_has_no_empty_word() {
    assert!(has_shout_case("LESS_EQUAL"));
    assert!(has_shout_case("TRAILING_"));
    assert!(has_shout_case(""));
    assert!(!has_shout_case("_LESS"));
    assert!(!has_shout_case("LESS__EQUAL"));
}

#[test]
fn lower_case_is_ascii_only() {
    assert_eq!(to_lower("PACKED_VECTOR2_ARRAY"), "packed_vector2_array");
    assert_eq!(to_lower("\u{c4}Z[@`{"), "\u{c4}z[@`{");
}

#[test]
fn underscores_are_removed() {
    assert_eq!(remove_underscores("packed_vector2_array"), "packedvector2array");
    assert_eq!(remove_underscores("__"), "");
    assert_eq!(remove_underscores("rid"), "rid");
}

#[test]
fn only_the_first_letter_is_capitalized() {
    assert_eq!(capitalize("int"), "Int");
    assert_eq!(capitalize("PackedVector2Array"), "PackedVector2Array");
    assert_eq!(capitalize("_x"), "_x");
    assert_eq!(capitalize(&capitalize("float")), "Float");
}

#[test]
fn prefixes_are_stripped() {
    assert_eq!(strip_prefix("TYPE_BOOL", "TYPE_"), Some("BOOL"));
    assert_eq!(strip_prefix("TYPE_", "TYPE_"), Some(""));
    assert_eq!(strip_prefix("TYPE", "TYPE_"), None);
    assert_eq!(strip_prefix("OP_ADD", "TYPE_"), None);
    assert_eq!(strip_prefix("\u{e4}\u{f6}x", "\u{e4}"), Some("\u{f6}x"));
}

#[test]
fn texts_are_compared() {
    assert!(same_text("from", "from"));
    assert!(!same_text("from", "From"));
    assert!(!same_text("from", "fro"));
}

#[test]
fn identifiers_are_recognised() {
    assert!(is_identifier("string_from_node_path"));
    assert!(is_identifier("_"));
    assert!(is_identifier("\u{3b1}2"));
    assert!(!is_identifier(""));
    assert!(!is_identifier("2d"));
    assert!(!is_identifier("a-b"));
    assert!(!is_identifier("a\u{2014}"));
    assert!(!is_identifier("\u{300}a"));
    assert!(is_identifier("a\u{300}"));
}

#[test]
fn trivial_types() {
    assert!(is_trivial(&names("bool")));
    assert!(is_trivial(&names("int")));
    assert!(is_trivial(&names("float")));
    assert!(!is_trivial(&names("Bool")));
    assert!(!is_trivial(&names("String")));
    assert!(!is_trivial(&names("")));
}

#[test]
fn load_errors() {
    assert_eq!(
        format_load_error("string_destroy"),
        "failed to load GDExtension function `string_destroy`"
    );
}
