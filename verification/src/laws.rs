//! What holds of every generated implementation, stated over the texts that
//! the generators' contracts speak of.

use vstd::prelude::*;
use crate::casing::camel_case_text;
use crate::fields::{
    conversion_text, element_set_text, field_access_text, named_conversions_text,
    property_set_text, unnamed_conversions_text,
};
use crate::generator::{
    array_creation_text, datatype_text, named_impl_text, named_prologue_text, unnamed_impl_text,
    unnamed_prologue_text,
};
use crate::generics::{
    angle_list_text, conversion_trait_text, default_text, generic_param_text,
    impl_signature_text, where_text, without_bounds,
};
use crate::literal::{lemma_string_literal_value, string_literal_text, string_literal_value};
use crate::shape::{FieldTypeKind, GenericParamView, GenericsView, NamedFieldView, ShapeView};
use crate::text::{
    decimal_text, decimal_value, lemma_decimal_value, lemma_line_of_statement,
    lemma_lines_in_order, line_start, statement_line_text, statements_text,
};

verus! {

/// The implementation for a struct with named fields has one property-set
/// statement for each field, each on a line of its own, and the lines stand
/// in the order in which the fields are declared. The property of field `i`
/// is named by the camel-case form of the field's identifier, and its line
/// ends before the line of any later field `j` starts.
pub proof fn named_fields_are_set_in_declaration_order(
    name: Seq<char>,
    fields: Seq<NamedFieldView>,
    generics: GenericsView,
    i: int,
    j: int,
)
    requires
        0 <= i < j < fields.len(),
    ensures
        ({
            let text = named_impl_text(name, fields, generics);
            let statements = named_conversions_text("output_obj"@, "js_env"@, fields);
            let body = named_prologue_text(name, generics).len() as int;
            &&& statements.len() == fields.len()
            &&& text.subrange(
                body + line_start(statements, i),
                body + line_start(statements, i + 1),
            ) == statement_line_text(
                property_set_text(
                    "output_obj"@,
                    "js_env"@,
                    camel_case_text(fields[i].name),
                    fields[i],
                ),
            )
            &&& text.subrange(
                body + line_start(statements, j),
                body + line_start(statements, j + 1),
            ) == statement_line_text(
                property_set_text(
                    "output_obj"@,
                    "js_env"@,
                    camel_case_text(fields[j].name),
                    fields[j],
                ),
            )
            &&& line_start(statements, i + 1) <= line_start(statements, j)
            &&& body + line_start(statements, j + 1) <= text.len()
        }),
{
    let text = named_impl_text(name, fields, generics);
    let statements = named_conversions_text("output_obj"@, "js_env"@, fields);
    let body = named_prologue_text(name, generics).len() as int;
    let lines = statements_text(statements);
    lemma_line_of_statement(statements, i);
    lemma_line_of_statement(statements, j);
    lemma_lines_in_order(statements, i, j);
    assert(text.subrange(
        body + line_start(statements, i),
        body + line_start(statements, i + 1),
    ) =~= lines.subrange(line_start(statements, i) as int, line_start(statements, i + 1) as int));
    assert(text.subrange(
        body + line_start(statements, j),
        body + line_start(statements, j + 1),
    ) =~= lines.subrange(line_start(statements, j) as int, line_start(statements, j + 1) as int));
}

/// The implementation for a struct with `N` positional fields creates an
/// array of exactly `N` elements and has one element-set statement for each
/// field, each on a line of its own and in order of position. The statement
/// on line `i` converts the field at position `i` and sets the element at
/// index `i`; the literals written for `N` and for `i` denote those
/// numbers.
pub proof fn positional_fields_are_set_at_their_index(
    name: Seq<char>,
    fields: Seq<FieldTypeKind>,
    generics: GenericsView,
    i: int,
)
    requires
        0 <= i < fields.len(),
    ensures
        ({
            let text = unnamed_impl_text(name, fields, generics);
            let statements = unnamed_conversions_text("output_arr"@, "js_env"@, fields);
            let body = unnamed_prologue_text(name, fields.len(), generics).len() as int;
            &&& statements.len() == fields.len()
            &&& text.subrange(body - array_creation_text(fields.len()).len(), body)
                == array_creation_text(fields.len())
            &&& decimal_value(decimal_text(fields.len())) == fields.len()
            &&& text.subrange(
                body + line_start(statements, i),
                body + line_start(statements, i + 1),
            ) == statement_line_text(
                element_set_text("output_arr"@, "js_env"@, i as nat, fields[i]),
            )
            &&& decimal_value(decimal_text(i as nat)) == i
            &&& array_creation_text(fields.len()).len() <= body
            &&& body + line_start(statements, i + 1) <= text.len()
        }),
{
    let text = unnamed_impl_text(name, fields, generics);
    let statements = unnamed_conversions_text("output_arr"@, "js_env"@, fields);
    let body = unnamed_prologue_text(name, fields.len(), generics).len() as int;
    let lines = statements_text(statements);
    lemma_line_of_statement(statements, i);
    lemma_decimal_value(fields.len());
    lemma_decimal_value(i as nat);
    assert(text.subrange(
        body + line_start(statements, i),
        body + line_start(statements, i + 1),
    ) =~= lines.subrange(line_start(statements, i) as int, line_start(statements, i + 1) as int));
    assert(text.subrange(
        body - array_creation_text(fields.len()).len(),
        body,
    ) =~= array_creation_text(fields.len()));
}

/// Different positions are written as different literals: no two
/// positional fields are read from the same member of `self` or set at the
/// same index of the array.
pub proof fn positions_have_literals_of_their_own(i: nat, j: nat)
    requires
        i != j,
    ensures
        decimal_text(i) != decimal_text(j),
{
    lemma_decimal_value(i);
    lemma_decimal_value(j);
}

/// What the conversion of a by-reference field consumes is a clone of the
/// field, never the field itself, in a property-set statement as in an
/// element-set statement; a by-value field is handed over as it is.
pub proof fn reference_fields_are_cloned_before_conversion(
    target: Seq<char>,
    js_env: Seq<char>,
    property: Seq<char>,
    field: NamedFieldView,
    index: nat,
    kind: FieldTypeKind,
)
    ensures
        field_access_text(field.name, FieldTypeKind::ByValue) == "self."@ + field.name,
        field_access_text(field.name, FieldTypeKind::ByReference) == field_access_text(
            field.name,
            FieldTypeKind::ByValue,
        ) + ".clone()"@,
        property_set_text(target, js_env, property, field) == target + ".set_property("@
            + string_literal_text(property) + ", "@ + field_access_text(field.name, field.kind)
            + ".try_to_js("@ + js_env + ")?"@ + ")?;"@,
        element_set_text(target, js_env, index, kind) == js_env + ".set_element("@ + target
            + ", "@ + field_access_text(decimal_text(index), kind) + ".try_to_js("@ + js_env
            + ")?"@ + ", "@ + decimal_text(index) + ")?;"@,
{
    assert(property_set_text(target, js_env, property, field) =~= target + ".set_property("@
        + string_literal_text(property) + ", "@ + field_access_text(field.name, field.kind)
        + ".try_to_js("@ + js_env + ")?"@ + ")?;"@);
    assert(element_set_text(target, js_env, index, kind) =~= js_env + ".set_element("@ + target
        + ", "@ + field_access_text(decimal_text(index), kind) + ".try_to_js("@ + js_env + ")?"@
        + ", "@ + decimal_text(index) + ")?;"@);
}

/// Every call of the generated statements that can fail is followed at
/// once by the question mark, the operator that ends the surrounding method
/// with the failure. That holds of the conversion of the field, which stands
/// inside the set call, and of the set call itself, so where a field's
/// conversion fails the set call is not made, and no later statement is
/// reached.
pub proof fn failures_end_the_conversion_at_once(
    target: Seq<char>,
    js_env: Seq<char>,
    property: Seq<char>,
    field: NamedFieldView,
    index: nat,
    kind: FieldTypeKind,
    access: Seq<char>,
)
    ensures
        conversion_text(access, js_env) == access + ".try_to_js("@ + js_env + ")"@ + "?"@,
        property_set_text(target, js_env, property, field) == target + ".set_property("@
            + string_literal_text(property) + ", "@ + conversion_text(
            field_access_text(field.name, field.kind),
            js_env,
        ) + ")"@ + "?"@ + ";"@,
        element_set_text(target, js_env, index, kind) == js_env + ".set_element("@ + target
            + ", "@ + conversion_text(field_access_text(decimal_text(index), kind), js_env)
            + ", "@ + decimal_text(index) + ")"@ + "?"@ + ";"@,
{
    reveal_strlit(")?");
    reveal_strlit(")?;");
    reveal_strlit(")");
    reveal_strlit("?");
    reveal_strlit(";");
    assert(")?"@ =~= ")"@ + "?"@);
    assert(")?;"@ =~= ")"@ + "?"@ + ";"@);
    assert(conversion_text(access, js_env) =~= access + ".try_to_js("@ + js_env + ")"@ + "?"@);
    assert(property_set_text(target, js_env, property, field) =~= target + ".set_property("@
        + string_literal_text(property) + ", "@ + conversion_text(
        field_access_text(field.name, field.kind),
        js_env,
    ) + ")"@ + "?"@ + ";"@);
    assert(element_set_text(target, js_env, index, kind) =~= js_env + ".set_element("@ + target
        + ", "@ + conversion_text(field_access_text(decimal_text(index), kind), js_env) + ", "@
        + decimal_text(index) + ")"@ + "?"@ + ";"@);
}

/// The header names the parameters twice, with their bounds behind `impl`
/// and without them behind the struct's name. Without its bounds a
/// parameter keeps its kind and its name; a type parameter is written as
/// its name and its default, a lifetime parameter as its name, a const
/// parameter as its name and type; and stripping a second time changes
/// nothing.
pub proof fn bounds_stand_behind_impl_only(name: Seq<char>, generics: GenericsView, i: int)
    requires
        0 <= i < generics.params.len(),
    ensures
        impl_signature_text(name, generics) == "impl"@ + angle_list_text(generics.params) + " "@
            + conversion_trait_text() + " for "@ + name + angle_list_text(
            without_bounds(generics.params),
        ) + where_text(generics.where_clause),
        without_bounds(generics.params).len() == generics.params.len(),
        without_bounds(generics.params)[i] == generics.params[i].without_bounds(),
        generics.params[i].without_bounds().without_bounds()
            == generics.params[i].without_bounds(),
        (generic_param_text(generics.params[i].without_bounds()) == match generics.params[i] {
            GenericParamView::Type { name, bounds, default } => name + default_text(default),
            GenericParamView::Lifetime { name, bounds } => name,
            GenericParamView::Const { name, ty, default } => "const "@ + name + ": "@ + ty,
        }),
{
    let stripped = generics.params[i].without_bounds();
    assert(generic_param_text(stripped) =~= match generics.params[i] {
        GenericParamView::Type { name, bounds, default } => name + default_text(default),
        GenericParamView::Lifetime { name, bounds } => name,
        GenericParamView::Const { name, ty, default } => "const "@ + name + ": "@ + ty,
    });
}

/// A struct without generic parameters gets a plain header: no angle
/// brackets behind `impl`, none behind the struct's name.
pub proof fn no_generics_give_a_plain_header(name: Seq<char>, generics: GenericsView)
    requires
        generics.params.len() == 0,
    ensures
        impl_signature_text(name, generics) == "impl "@ + conversion_trait_text() + " for "@
            + name + where_text(generics.where_clause),
{
    reveal_strlit("impl");
    reveal_strlit(" ");
    reveal_strlit("impl ");
    assert(without_bounds(generics.params) =~= Seq::<GenericParamView>::empty());
    assert("impl"@ + Seq::<char>::empty() + " "@ =~= "impl "@);
    assert(impl_signature_text(name, generics) =~= "impl "@ + conversion_trait_text() + " for "@
        + name + where_text(generics.where_clause));
}

/// For a failed classification the error is all that is emitted, whatever
/// the declaration was, and the error carries the classification's message
/// unchanged. For a shape the declaration is emitted as it was written,
/// with the implementation behind it.
pub proof fn failed_classification_emits_the_error_alone(
    declaration: Seq<char>,
    message: Seq<char>,
    shape: ShapeView,
)
    ensures
        datatype_text(declaration, Err(message)) == "compile_error! { "@ + string_literal_text(
            message,
        ) + " }\n"@,
        string_literal_value(string_literal_text(message)) == Some(message),
        datatype_text(declaration, Ok(shape)).subrange(0, declaration.len() as int)
            == declaration,
{
    lemma_string_literal_value(message);
    assert(datatype_text(declaration, Ok(shape)).subrange(0, declaration.len() as int)
        =~= declaration);
}

} // verus!
