//! The generated implementation as a whole, and what is emitted for a
//! declaration: the declaration with the implementation behind it, or the
//! error that the classification of the declaration ended in.

use vstd::prelude::*;
use crate::fields::{
    generate_named_field_conversions, generate_unnamed_field_conversions, named_conversions_text,
    unnamed_conversions_text,
};
use crate::generics::{generate_impl_signature, impl_signature_text};
use crate::literal::{append_string_literal, string_literal_text};
use crate::shape::{
    ClassificationError, FieldTypeKind, GenericsView, NamedFieldView, ShapeDescriptor, ShapeView,
};
use crate::text::{append_decimal, append_statements, decimal_text, statements_text};

verus! {

/// The header of the conversion method: it consumes `self`, takes the
/// runtime's environment, and returns the runtime's value or its error.
pub open spec fn method_header_text() -> Seq<char> {
    "    fn try_to_js(self, js_env: &node_bindgen::core::val::JsEnv) -> Result<node_bindgen::core::sys::napi_value, node_bindgen::core::NjError> {\n"@
}

/// What stands before the statements of the named fields: the header of
/// the implementation, the header of the method, and the creation of an
/// empty object in the environment.
pub open spec fn named_prologue_text(name: Seq<char>, generics: GenericsView) -> Seq<char> {
    impl_signature_text(name, generics) + " {\n"@ + method_header_text()
        + "        use node_bindgen::core::{TryIntoJs, val::JsObject};\n"@
        + "        let mut output_obj = JsObject::new(js_env.clone(), js_env.create_object()?);\n"@
}

/// What stands behind the statements of the named fields: the object is
/// converted to the runtime's value, which is the method's result.
pub open spec fn named_epilogue_text() -> Seq<char> {
    "        output_obj.try_to_js(js_env)\n"@ + "    }\n}\n"@
}

/// The implementation for a struct with named fields: an empty object is
/// created in the environment, every field is set as a property in
/// declaration order, and the object is converted to the runtime's value.
pub open spec fn named_impl_text(
    name: Seq<char>,
    fields: Seq<NamedFieldView>,
    generics: GenericsView,
) -> Seq<char> {
    named_prologue_text(name, generics) + statements_text(
        named_conversions_text("output_obj"@, "js_env"@, fields),
    ) + named_epilogue_text()
}

/// The statement that creates the array: it has exactly `count` elements.
pub open spec fn array_creation_text(count: nat) -> Seq<char> {
    "        let output_arr = js_env.create_array_with_len("@ + decimal_text(count)
        + "usize)?;\n"@
}

/// What stands before the statements of the positional fields: the header
/// of the implementation, the header of the method, and the creation of an
/// array of `count` elements.
pub open spec fn unnamed_prologue_text(
    name: Seq<char>,
    count: nat,
    generics: GenericsView,
) -> Seq<char> {
    impl_signature_text(name, generics) + " {\n"@ + method_header_text()
        + "        use node_bindgen::core::{TryIntoJs};\n"@ + array_creation_text(count)
}

/// What stands behind the statements of the positional fields: the array
/// is the method's result as it is.
pub open spec fn unnamed_epilogue_text() -> Seq<char> {
    "        Ok(output_arr)\n"@ + "    }\n}\n"@
}

/// The implementation for a struct with positional fields: an array of as
/// many elements as the struct has fields is created, every field is set as
/// the element at its position, and the array is returned as it is.
pub open spec fn unnamed_impl_text(
    name: Seq<char>,
    fields: Seq<FieldTypeKind>,
    generics: GenericsView,
) -> Seq<char> {
    unnamed_prologue_text(name, fields.len(), generics) + statements_text(
        unnamed_conversions_text("output_arr"@, "js_env"@, fields),
    ) + unnamed_epilogue_text()
}

/// The implementation of the conversion trait for a struct of the given
/// shape.
pub open spec fn try_into_js_text(shape: ShapeView) -> Seq<char> {
    match shape {
        ShapeView::Named { name, fields, generics } => named_impl_text(name, fields, generics),
        ShapeView::Unnamed { name, fields, generics } => unnamed_impl_text(name, fields, generics),
    }
}

/// A compile-time error that carries `message`.
pub open spec fn compile_error_text(message: Seq<char>) -> Seq<char> {
    "compile_error! { "@ + string_literal_text(message) + " }\n"@
}

/// The outcome of a classification, each side by its view.
pub open spec fn classified_view(
    classified: Result<ShapeDescriptor, ClassificationError>,
) -> Result<ShapeView, Seq<char>> {
    match classified {
        Ok(shape) => Ok(shape@),
        Err(error) => Err(error.message@),
    }
}

/// What is emitted for a declaration: for a shape, the declaration as it
/// was written, an empty line and the implementation; for a failed
/// classification, the error alone.
pub open spec fn datatype_text(
    declaration: Seq<char>,
    classified: Result<ShapeView, Seq<char>>,
) -> Seq<char> {
    match classified {
        Ok(shape) => declaration + "\n\n"@ + try_into_js_text(shape),
        Err(message) => compile_error_text(message),
    }
}

/// Generates the implementation of the conversion trait for a struct of the
/// given shape: the header with the struct's generics, and the one method
/// that builds an object from the named fields or an array from the
/// positional fields. A struct without fields gets a method that sets
/// nothing. The shape has to be within the machine's limits, which
/// [`ShapeDescriptor::within_limits`] tells.
pub fn generate_try_into_js(parsed_struct: &ShapeDescriptor) -> (implementation: String)
    requires
        parsed_struct@.within_limits(),
    ensures
        implementation@ == try_into_js_text(parsed_struct@),
{
    match parsed_struct {
        ShapeDescriptor::Named { name, fields, generics } => {
            let impl_signature = generate_impl_signature(name.as_str(), generics);
            let field_conversions = generate_named_field_conversions(
                "output_obj",
                "js_env",
                fields.as_slice(),
            );
            let mut implementation = String::new();
            implementation.append(impl_signature.as_str());
            implementation.append(" {\n");
            implementation.append(
                "    fn try_to_js(self, js_env: &node_bindgen::core::val::JsEnv) -> Result<node_bindgen::core::sys::napi_value, node_bindgen::core::NjError> {\n",
            );
            implementation.append("        use node_bindgen::core::{TryIntoJs, val::JsObject};\n");
            implementation.append(
                "        let mut output_obj = JsObject::new(js_env.clone(), js_env.create_object()?);\n",
            );
            append_statements(&mut implementation, &field_conversions);
            implementation.append("        output_obj.try_to_js(js_env)\n");
            implementation.append("    }\n}\n");
            implementation
        },
        ShapeDescriptor::Unnamed { name, fields, generics } => {
            let impl_signature = generate_impl_signature(name.as_str(), generics);
            let fields_count: usize = fields.len();
            let field_conversions = generate_unnamed_field_conversions(
                "output_arr",
                "js_env",
                fields.as_slice(),
            );
            let mut implementation = String::new();
            implementation.append(impl_signature.as_str());
            implementation.append(" {\n");
            implementation.append(
                "    fn try_to_js(self, js_env: &node_bindgen::core::val::JsEnv) -> Result<node_bindgen::core::sys::napi_value, node_bindgen::core::NjError> {\n",
            );
            implementation.append("        use node_bindgen::core::{TryIntoJs};\n");
            implementation.append("        let output_arr = js_env.create_array_with_len(");
            append_decimal(&mut implementation, fields_count);
            implementation.append("usize)?;\n");
            append_statements(&mut implementation, &field_conversions);
            implementation.append("        Ok(output_arr)\n");
            implementation.append("    }\n}\n");
            implementation
        },
    }
}

/// Generates what is emitted for a declaration whose classification ended
/// in `classified`: the declaration unchanged with the implementation of the
/// conversion trait behind it, or, where the declaration has no supported
/// shape, a compile-time error with the classification's message and
/// nothing else. A shape has to be within the machine's limits, which
/// [`ShapeDescriptor::within_limits`] tells.
pub fn generate_datatype(
    declaration: &str,
    classified: &Result<ShapeDescriptor, ClassificationError>,
) -> (emitted: String)
    requires
        classified matches Ok(shape) ==> shape@.within_limits(),
    ensures
        emitted@ == datatype_text(declaration@, classified_view(*classified)),
{
    match classified {
        Err(err) => {
            let mut emitted = String::new();
            emitted.append("compile_error! { ");
            append_string_literal(&mut emitted, err.message.as_str());
            emitted.append(" }\n");
            emitted
        },
        Ok(parsed_struct) => {
            let try_into_js = generate_try_into_js(parsed_struct);
            let mut emitted = String::new();
            emitted.append(declaration);
            emitted.append("\n\n");
            emitted.append(try_into_js.as_str());
            emitted
        },
    }
}

} // verus!
