//! The fixed words of the generated code.

use crate::ident::is_ident;
use vstd::prelude::*;

verus! {

/// Every fixed word of the generated code is an identifier or a keyword.
pub(crate) proof fn lemma_words()
    ensures
        is_ident("pub"@),
        is_ident("unsafe"@),
        is_ident("extern"@),
        is_ident("fn"@),
        is_ident("GDNativeVariantPtr"@),
        is_ident("GDNativeTypePtr"@),
        is_ident("const"@),
        is_ident("let"@),
        is_ident("ctor_fn"@),
        is_ident("op_finder"@),
        is_ident("dtor_fn"@),
        is_ident("interface"@),
        is_ident("get_variant_from_type_constructor"@),
        is_ident("get_variant_to_type_constructor"@),
        is_ident("variant_get_ptr_operator_evaluator"@),
        is_ident("variant_get_ptr_constructor"@),
        is_ident("variant_get_ptr_destructor"@),
        is_ident("unwrap"@),
        is_ident("crate"@),
        is_ident("expect"@),
        is_ident("use"@),
        is_ident("GodotFfi"@),
        is_ident("ffi_methods"@),
        is_ident("mod"@),
        is_ident("types"@),
        is_ident("struct"@),
        is_ident("GlobalMethodTable"@),
        is_ident("impl"@),
        is_ident("new"@),
        is_ident("GDNativeInterface"@),
        is_ident("Self"@),
        is_ident("derive"@),
        is_ident("Copy"@),
        is_ident("Clone"@),
        is_ident("Eq"@),
        is_ident("PartialEq"@),
        is_ident("Ord"@),
        is_ident("PartialOrd"@),
        is_ident("Hash"@),
        is_ident("Debug"@),
        is_ident("repr"@),
        is_ident("i32"@),
        is_ident("enum"@),
        is_ident("VariantType"@),
        is_ident("Nil"@),
        is_ident("doc"@),
        is_ident("hidden"@),
        is_ident("from_ord"@),
        is_ident("enumerator"@),
        is_ident("GDNativeVariantType"@),
        is_ident("match"@),
        is_ident("_"@),
        is_ident("unreachable"@),
        is_ident("to_ord"@),
        is_ident("self"@),
        is_ident("as"@),
        is_ident("for"@),
        is_ident("type"@),
        is_ident("mut"@),
        is_ident("VariantOperator"@),
        is_ident("GDNativeVariantOperator"@),
        is_ident("builtin"@),
        is_ident("engine"@),
        is_ident("Object"@),
        is_ident("obj"@),
        is_ident("Gd"@),
        is_ident("allow"@),
        is_ident("dead_code"@),
        is_ident("VariantDispatch"@),
        is_ident("cfg"@),
        is_ident("FALSE"@),
        is_ident("FromVariant"@),
        is_ident("try_from_variant"@),
        is_ident("variant"@),
        is_ident("Variant"@),
        is_ident("Result"@),
        is_ident("VariantConversionError"@),
        is_ident("dispatch"@),
        is_ident("get_type"@),
        is_ident("to"@),
        is_ident("Ok"@),
        is_ident("global"@),
        is_ident("sys"@),
        is_ident("opaque"@),
        is_ident("Opaque"@),
{
    assert(is_ident("pub"@)) by {
        reveal_strlit("pub");
    }
    assert(is_ident("unsafe"@)) by {
        reveal_strlit("unsafe");
    }
    assert(is_ident("extern"@)) by {
        reveal_strlit("extern");
    }
    assert(is_ident("fn"@)) by {
        reveal_strlit("fn");
    }
    assert(is_ident("GDNativeVariantPtr"@)) by {
        reveal_strlit("GDNativeVariantPtr");
    }
    assert(is_ident("GDNativeTypePtr"@)) by {
        reveal_strlit("GDNativeTypePtr");
    }
    assert(is_ident("const"@)) by {
        reveal_strlit("const");
    }
    assert(is_ident("let"@)) by {
        reveal_strlit("let");
    }
    assert(is_ident("ctor_fn"@)) by {
        reveal_strlit("ctor_fn");
    }
    assert(is_ident("op_finder"@)) by {
        reveal_strlit("op_finder");
    }
    assert(is_ident("dtor_fn"@)) by {
        reveal_strlit("dtor_fn");
    }
    assert(is_ident("interface"@)) by {
        reveal_strlit("interface");
    }
    assert(is_ident("get_variant_from_type_constructor"@)) by {
        reveal_strlit("get_variant_from_type_constructor");
    }
    assert(is_ident("get_variant_to_type_constructor"@)) by {
        reveal_strlit("get_variant_to_type_constructor");
    }
    assert(is_ident("variant_get_ptr_operator_evaluator"@)) by {
        reveal_strlit("variant_get_ptr_operator_evaluator");
    }
    assert(is_ident("variant_get_ptr_constructor"@)) by {
        reveal_strlit("variant_get_ptr_constructor");
    }
    assert(is_ident("variant_get_ptr_destructor"@)) by {
        reveal_strlit("variant_get_ptr_destructor");
    }
    assert(is_ident("unwrap"@)) by {
        reveal_strlit("unwrap");
    }
    assert(is_ident("crate"@)) by {
        reveal_strlit("crate");
    }
    assert(is_ident("expect"@)) by {
        reveal_strlit("expect");
    }
    assert(is_ident("use"@)) by {
        reveal_strlit("use");
    }
    assert(is_ident("GodotFfi"@)) by {
        reveal_strlit("GodotFfi");
    }
    assert(is_ident("ffi_methods"@)) by {
        reveal_strlit("ffi_methods");
    }
    assert(is_ident("mod"@)) by {
        reveal_strlit("mod");
    }
    assert(is_ident("types"@)) by {
        reveal_strlit("types");
    }
    assert(is_ident("struct"@)) by {
        reveal_strlit("struct");
    }
    assert(is_ident("GlobalMethodTable"@)) by {
        reveal_strlit("GlobalMethodTable");
    }
    assert(is_ident("impl"@)) by {
        reveal_strlit("impl");
    }
    assert(is_ident("new"@)) by {
        reveal_strlit("new");
    }
    assert(is_ident("GDNativeInterface"@)) by {
        reveal_strlit("GDNativeInterface");
    }
    assert(is_ident("Self"@)) by {
        reveal_strlit("Self");
    }
    assert(is_ident("derive"@)) by {
        reveal_strlit("derive");
    }
    assert(is_ident("Copy"@)) by {
        reveal_strlit("Copy");
    }
    assert(is_ident("Clone"@)) by {
        reveal_strlit("Clone");
    }
    assert(is_ident("Eq"@)) by {
        reveal_strlit("Eq");
    }
    assert(is_ident("PartialEq"@)) by {
        reveal_strlit("PartialEq");
    }
    assert(is_ident("Ord"@)) by {
        reveal_strlit("Ord");
    }
    assert(is_ident("PartialOrd"@)) by {
        reveal_strlit("PartialOrd");
    }
    assert(is_ident("Hash"@)) by {
        reveal_strlit("Hash");
    }
    assert(is_ident("Debug"@)) by {
        reveal_strlit("Debug");
    }
    assert(is_ident("repr"@)) by {
        reveal_strlit("repr");
    }
    assert(is_ident("i32"@)) by {
        reveal_strlit("i32");
    }
    assert(is_ident("enum"@)) by {
        reveal_strlit("enum");
    }
    assert(is_ident("VariantType"@)) by {
        reveal_strlit("VariantType");
    }
    assert(is_ident("Nil"@)) by {
        reveal_strlit("Nil");
    }
    assert(is_ident("doc"@)) by {
        reveal_strlit("doc");
    }
    assert(is_ident("hidden"@)) by {
        reveal_strlit("hidden");
    }
    assert(is_ident("from_ord"@)) by {
        reveal_strlit("from_ord");
    }
    assert(is_ident("enumerator"@)) by {
        reveal_strlit("enumerator");
    }
    assert(is_ident("GDNativeVariantType"@)) by {
        reveal_strlit("GDNativeVariantType");
    }
    assert(is_ident("match"@)) by {
        reveal_strlit("match");
    }
    assert(is_ident("_"@)) by {
        reveal_strlit("_");
    }
    assert(is_ident("unreachable"@)) by {
        reveal_strlit("unreachable");
    }
    assert(is_ident("to_ord"@)) by {
        reveal_strlit("to_ord");
    }
    assert(is_ident("self"@)) by {
        reveal_strlit("self");
    }
    assert(is_ident("as"@)) by {
        reveal_strlit("as");
    }
    assert(is_ident("for"@)) by {
        reveal_strlit("for");
    }
    assert(is_ident("type"@)) by {
        reveal_strlit("type");
    }
    assert(is_ident("mut"@)) by {
        reveal_strlit("mut");
    }
    assert(is_ident("VariantOperator"@)) by {
        reveal_strlit("VariantOperator");
    }
    assert(is_ident("GDNativeVariantOperator"@)) by {
        reveal_strlit("GDNativeVariantOperator");
    }
    assert(is_ident("builtin"@)) by {
        reveal_strlit("builtin");
    }
    assert(is_ident("engine"@)) by {
        reveal_strlit("engine");
    }
    assert(is_ident("Object"@)) by {
        reveal_strlit("Object");
    }
    assert(is_ident("obj"@)) by {
        reveal_strlit("obj");
    }
    assert(is_ident("Gd"@)) by {
        reveal_strlit("Gd");
    }
    assert(is_ident("allow"@)) by {
        reveal_strlit("allow");
    }
    assert(is_ident("dead_code"@)) by {
        reveal_strlit("dead_code");
    }
    assert(is_ident("VariantDispatch"@)) by {
        reveal_strlit("VariantDispatch");
    }
    assert(is_ident("cfg"@)) by {
        reveal_strlit("cfg");
    }
    assert(is_ident("FALSE"@)) by {
        reveal_strlit("FALSE");
    }
    assert(is_ident("FromVariant"@)) by {
        reveal_strlit("FromVariant");
    }
    assert(is_ident("try_from_variant"@)) by {
        reveal_strlit("try_from_variant");
    }
    assert(is_ident("variant"@)) by {
        reveal_strlit("variant");
    }
    assert(is_ident("Variant"@)) by {
        reveal_strlit("Variant");
    }
    assert(is_ident("Result"@)) by {
        reveal_strlit("Result");
    }
    assert(is_ident("VariantConversionError"@)) by {
        reveal_strlit("VariantConversionError");
    }
    assert(is_ident("dispatch"@)) by {
        reveal_strlit("dispatch");
    }
    assert(is_ident("get_type"@)) by {
        reveal_strlit("get_type");
    }
    assert(is_ident("to"@)) by {
        reveal_strlit("to");
    }
    assert(is_ident("Ok"@)) by {
        reveal_strlit("Ok");
    }
    assert(is_ident("global"@)) by {
        reveal_strlit("global");
    }
    assert(is_ident("sys"@)) by {
        reveal_strlit("sys");
    }
    assert(is_ident("opaque"@)) by {
        reveal_strlit("opaque");
    }
    assert(is_ident("Opaque"@)) by {
        reveal_strlit("Opaque");
    }
}

} // verus!
