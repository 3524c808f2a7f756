//! The statements that convert the fields: one property-set call for each
//! named field, one element-set call for each positional field.

use vstd::prelude::*;
use crate::casing::{camel_case_admits, camel_case_text};
use crate::literal::{append_string_literal, string_literal_text};
use crate::shape::{named_fields_view, names_admitted, FieldTypeKind, NamedField, NamedFieldView};
use crate::text::{decimal, decimal_text, texts_of};

verus! {

/// The expression that yields the field `field` of `self` for conversion.
/// A field that owns its data is moved out; a field that is a reference is
/// cloned, and the clone is what the conversion consumes.
pub open spec fn field_access_text(field: Seq<char>, kind: FieldTypeKind) -> Seq<char> {
    match kind {
        FieldTypeKind::ByValue => "self."@ + field,
        FieldTypeKind::ByReference => "self."@ + field + ".clone()"@,
    }
}

/// The conversion of the value `access`: a call of the conversion trait's
/// method, whose failure ends the surrounding conversion at once.
pub open spec fn conversion_text(access: Seq<char>, js_env: Seq<char>) -> Seq<char> {
    access + ".try_to_js("@ + js_env + ")?"@
}

/// The statement that sets the property `property` of the object
/// `output_obj` to the converted field. The key is the property's name as a
/// string literal; a failure of the call ends the conversion at once.
pub open spec fn property_set_text(
    output_obj: Seq<char>,
    js_env: Seq<char>,
    property: Seq<char>,
    field: NamedFieldView,
) -> Seq<char> {
    output_obj + ".set_property("@ + string_literal_text(property) + ", "@ + conversion_text(
        field_access_text(field.name, field.kind),
        js_env,
    ) + ")?;"@
}

/// The statement for a named field: the property is named by the field's
/// identifier in camel case.
pub open spec fn named_conversion_text(
    output_obj: Seq<char>,
    js_env: Seq<char>,
    field: NamedFieldView,
) -> Seq<char> {
    property_set_text(output_obj, js_env, camel_case_text(field.name), field)
}

/// The statements for the named fields, in declaration order.
pub open spec fn named_conversions_text(
    output_obj: Seq<char>,
    js_env: Seq<char>,
    fields: Seq<NamedFieldView>,
) -> Seq<Seq<char>> {
    fields.map_values(|f: NamedFieldView| named_conversion_text(output_obj, js_env, f))
}

/// The statement that sets element `index` of the array `output_array` to
/// the converted field at position `index`. A failure of the call ends the
/// conversion at once.
pub open spec fn element_set_text(
    output_array: Seq<char>,
    js_env: Seq<char>,
    index: nat,
    kind: FieldTypeKind,
) -> Seq<char> {
    js_env + ".set_element("@ + output_array + ", "@ + conversion_text(
        field_access_text(decimal_text(index), kind),
        js_env,
    ) + ", "@ + decimal_text(index) + ")?;"@
}

/// The statements for the positional fields, in order of position.
pub open spec fn unnamed_conversions_text(
    output_array: Seq<char>,
    js_env: Seq<char>,
    fields: Seq<FieldTypeKind>,
) -> Seq<Seq<char>> {
    Seq::new(
        fields.len(),
        |i: int| element_set_text(output_array, js_env, i as nat, fields[i]),
    )
}

fn append_conversion(out: &mut String, field: &str, kind: FieldTypeKind, js_env: &str)
    ensures
        final(out)@ == old(out)@ + conversion_text(field_access_text(field@, kind), js_env@),
{
    let mut conversion = String::new();
    conversion.append("self.");
    conversion.append(field);
    match kind {
        FieldTypeKind::ByValue => {},
        FieldTypeKind::ByReference => {
            conversion.append(".clone()");
        },
    }
    conversion.append(".try_to_js(");
    conversion.append(js_env);
    conversion.append(")?");
    out.append(conversion.as_str());
}

/// Builds the statement that sets the property `property` of `output_obj`
/// to the converted field `field`.
pub fn named_field_conversion(
    output_obj: &str,
    js_env: &str,
    property: &str,
    field: &NamedField,
) -> (statement: String)
    ensures
        statement@ == property_set_text(output_obj@, js_env@, property@, field@),
{
    let mut statement = String::new();
    statement.append(output_obj);
    statement.append(".set_property(");
    append_string_literal(&mut statement, property);
    statement.append(", ");
    append_conversion(&mut statement, field.name.as_str(), field.kind, js_env);
    statement.append(")?;");
    statement
}

/// Builds one property-set statement for each named field, in declaration
/// order. The property is named by the field's identifier in camel case,
/// for which every name has to be short enough (see [`camel_case_admits`]).
pub fn generate_named_field_conversions(
    output_obj: &str,
    js_env: &str,
    fields: &[NamedField],
) -> (conversions: Vec<String>)
    requires
        names_admitted(named_fields_view(fields@)),
    ensures
        texts_of(conversions@) == named_conversions_text(
            output_obj@,
            js_env@,
            named_fields_view(fields@),
        ),
{
    let mut conversions: Vec<String> = Vec::new();
    let mut i: usize = 0;
    while i < fields.len()
        invariant
            i <= fields@.len(),
            conversions@.len() == i,
            names_admitted(named_fields_view(fields@)),
            forall|k: int|
                0 <= k < i ==> (#[trigger] conversions@[k])@ == named_conversion_text(
                    output_obj@,
                    js_env@,
                    fields@[k]@,
                ),
        decreases fields@.len() - i,
    {
        let field = &fields[i];
        assert(camel_case_admits(named_fields_view(fields@)[i as int].name));
        let field_name = inflector::cases::camelcase::to_camel_case(field.name.as_str());
        conversions.push(named_field_conversion(output_obj, js_env, field_name.as_str(), field));
        i += 1;
    }
    assert(texts_of(conversions@) =~= named_conversions_text(
        output_obj@,
        js_env@,
        named_fields_view(fields@),
    ));
    conversions
}

/// Builds the statement that sets element `index` of `output_array` to the
/// converted field at position `index`.
pub fn unnamed_field_conversion(
    output_array: &str,
    js_env: &str,
    index: usize,
    kind: FieldTypeKind,
) -> (statement: String)
    ensures
        statement@ == element_set_text(output_array@, js_env@, index as nat, kind),
{
    let position = decimal(index);
    let mut statement = String::new();
    statement.append(js_env);
    statement.append(".set_element(");
    statement.append(output_array);
    statement.append(", ");
    append_conversion(&mut statement, position.as_str(), kind, js_env);
    statement.append(", ");
    statement.append(position.as_str());
    statement.append(")?;");
    statement
}

/// Builds one element-set statement for each positional field, in order of
/// position, counting from zero.
pub fn generate_unnamed_field_conversions(
    output_array: &str,
    js_env: &str,
    fields: &[FieldTypeKind],
) -> (conversions: Vec<String>)
    ensures
        texts_of(conversions@) == unnamed_conversions_text(output_array@, js_env@, fields@),
{
    let mut conversions: Vec<String> = Vec::new();
    let mut i: usize = 0;
    while i < fields.len()
        invariant
            i <= fields@.len(),
            conversions@.len() == i,
            forall|k: int|
                0 <= k < i ==> (#[trigger] conversions@[k])@ == element_set_text(
                    output_array@,
                    js_env@,
                    k as nat,
                    fields@[k],
                ),
        decreases fields@.len() - i,
    {
        conversions.push(unnamed_field_conversion(output_array, js_env, i, fields[i]));
        i += 1;
    }
    assert(texts_of(conversions@) =~= unnamed_conversions_text(output_array@, js_env@, fields@));
    conversions
}

} // verus!
