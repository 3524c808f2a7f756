use nj_derive::fields::{
    generate_named_field_conversions, generate_unnamed_field_conversions, named_field_conversion,
    unnamed_field_conversion,
};
use nj_derive::shape::{FieldTypeKind, NamedField};

fn named(name: &str, kind: FieldTypeKind) -> NamedField {
    NamedField { name: name.to_string(), kind }
}

fn property_of(name: &str) -> String {
    let fields = vec![named(name, FieldTypeKind::ByValue)];
    let conversions = generate_named_field_conversions("output_obj", "js_env", &fields);
    assert_eq!(conversions.len(), 1);
    let statement = &conversions[0];
    let prefix = "output_obj.set_property(\"";
    let suffix = format!("\", self.{}.try_to_js(js_env)?)?;", name);
    assert!(statement.starts_with(prefix), "{}", statement);
    assert!(statement.ends_with(&suffix), "{}", statement);
    statement[prefix.len()..statement.len() - suffix.len()].to_string()
}

#[test]
fn casing_user_id() {
    assert_eq!(property_of("user_id"), "userId");
}

#[test]
fn casing_single_segment_is_unchanged() {
    assert_eq!(property_of("id"), "id");
}

#[test]
fn casing_single_letter_segments() {
    assert_eq!(property_of("a_b_c"), "aBC");
}

#[test]
fn casing_is_valid() {
    assert_eq!(property_of("is_valid"), "isValid");
}

#[test]
fn casing_digit_segment() {
    assert_eq!(property_of("id_2"), "id2");
}

#[test]
fn named_field_by_value_is_moved_out() {
    let fields = vec![named("user_id", FieldTypeKind::ByValue)];
    let conversions = generate_named_field_conversions("output_obj", "js_env", &fields);
    assert_eq!(
        conversions,
        vec!["output_obj.set_property(\"userId\", self.user_id.try_to_js(js_env)?)?;".to_string()]
    );
}

#[test]
fn named_field_by_reference_is_cloned() {
    let fields = vec![named("display_name", FieldTypeKind::ByReference)];
    let conversions = generate_named_field_conversions("output_obj", "js_env", &fields);
    assert_eq!(
        conversions,
        vec![
            "output_obj.set_property(\"displayName\", self.display_name.clone().try_to_js(js_env)?)?;"
                .to_string()
        ]
    );
}

#[test]
fn named_fields_keep_declaration_order() {
    let fields = vec![
        named("zeta_one", FieldTypeKind::ByValue),
        named("alpha", FieldTypeKind::ByReference),
        named("mid_point", FieldTypeKind::ByValue),
    ];
    let conversions = generate_named_field_conversions("output_obj", "js_env", &fields);
    assert_eq!(
        conversions,
        vec![
            "output_obj.set_property(\"zetaOne\", self.zeta_one.try_to_js(js_env)?)?;".to_string(),
            "output_obj.set_property(\"alpha\", self.alpha.clone().try_to_js(js_env)?)?;"
                .to_string(),
            "output_obj.set_property(\"midPoint\", self.mid_point.try_to_js(js_env)?)?;"
                .to_string(),
        ]
    );
}

#[test]
fn named_fields_order_does_not_depend_on_kinds() {
    let names = ["a", "b", "c"];
    let kinds = [FieldTypeKind::ByValue, FieldTypeKind::ByReference];
    for first in kinds {
        for second in kinds {
            for third in kinds {
                let fields =
                    vec![named("a", first), named("b", second), named("c", third)];
                let conversions =
                    generate_named_field_conversions("output_obj", "js_env", &fields);
                assert_eq!(conversions.len(), 3);
                for (statement, name) in conversions.iter().zip(names) {
                    let start = format!("output_obj.set_property(\"{}\", self.{}", name, name);
                    assert!(statement.starts_with(&start), "{}", statement);
                }
            }
        }
    }
}

#[test]
fn no_named_fields_give_no_statements() {
    let conversions = generate_named_field_conversions("output_obj", "js_env", &[]);
    assert!(conversions.is_empty());
}

#[test]
fn named_conversions_use_the_given_identifiers() {
    let fields = vec![named("count", FieldTypeKind::ByValue)];
    let conversions = generate_named_field_conversions("target", "env", &fields);
    assert_eq!(
        conversions,
        vec!["target.set_property(\"count\", self.count.try_to_js(env)?)?;".to_string()]
    );
}

#[test]
fn property_key_is_written_as_a_literal() {
    let field = named("title", FieldTypeKind::ByValue);
    let statement = named_field_conversion("output_obj", "js_env", "say \"hi\"\\now", &field);
    assert_eq!(
        statement,
        "output_obj.set_property(\"say \\\"hi\\\"\\\\now\", self.title.try_to_js(js_env)?)?;"
    );
}

#[test]
fn positional_fields_are_set_by_index() {
    let fields = vec![FieldTypeKind::ByValue, FieldTypeKind::ByReference];
    let conversions = generate_unnamed_field_conversions("output_arr", "js_env", &fields);
    assert_eq!(
        conversions,
        vec![
            "js_env.set_element(output_arr, self.0.try_to_js(js_env)?, 0)?;".to_string(),
            "js_env.set_element(output_arr, self.1.clone().try_to_js(js_env)?, 1)?;".to_string(),
        ]
    );
}

#[test]
fn positional_indices_count_up_from_zero() {
    let fields = vec![FieldTypeKind::ByValue; 12];
    let conversions = generate_unnamed_field_conversions("output_arr", "js_env", &fields);
    assert_eq!(conversions.len(), 12);
    for (index, statement) in conversions.iter().enumerate() {
        assert_eq!(
            *statement,
            format!(
                "js_env.set_element(output_arr, self.{}.try_to_js(js_env)?, {})?;",
                index, index
            )
        );
    }
}

#[test]
fn no_positional_fields_give_no_statements() {
    let conversions = generate_unnamed_field_conversions("output_arr", "js_env", &[]);
    assert!(conversions.is_empty());
}

#[test]
fn single_positional_statement() {
    assert_eq!(
        unnamed_field_conversion("items", "env", 10, FieldTypeKind::ByReference),
        "env.set_element(items, self.10.clone().try_to_js(env)?, 10)?;"
    );
    assert_eq!(
        unnamed_field_conversion("items", "env", 0, FieldTypeKind::ByValue),
        "env.set_element(items, self.0.try_to_js(env)?, 0)?;"
    );
}

#[test]
fn statements_parse_as_method_calls_with_try() {
    let fields = vec![named("user_id", FieldTypeKind::ByReference)];
    let conversions = generate_named_field_conversions("output_obj", "js_env", &fields);
    let statement: syn::Stmt = syn::parse_str(&conversions[0]).unwrap();
    let outer = match statement {
        syn::Stmt::Semi(syn::Expr::Try(outer), _) => outer,
        _ => panic!("not a `?;` statement"),
    };
    let call = match *outer.expr {
        syn::Expr::MethodCall(call) => call,
        _ => panic!("not a method call"),
    };
    assert_eq!(call.method.to_string(), "set_property");
    assert_eq!(call.args.len(), 2);
    match &call.args[0] {
        syn::Expr::Lit(syn::ExprLit { lit: syn::Lit::Str(key), .. }) => {
            assert_eq!(key.value(), "userId")
        }
        _ => panic!("not a string literal"),
    }
    let inner = match &call.args[1] {
        syn::Expr::Try(inner) => inner,
        _ => panic!("the conversion is not followed by `?`"),
    };
    let conversion = match &*inner.expr {
        syn::Expr::MethodCall(conversion) => conversion,
        _ => panic!("not a method call"),
    };
    assert_eq!(conversion.method.to_string(), "try_to_js");
    match &*conversion.receiver {
        syn::Expr::MethodCall(clone) => {
            assert_eq!(clone.method.to_string(), "clone");
            match &*clone.receiver {
                syn::Expr::Field(access) => match &access.member {
                    syn::Member::Named(ident) => assert_eq!(ident.to_string(), "user_id"),
                    _ => panic!("not a named member"),
                },
                _ => panic!("not a field access"),
            }
        }
        _ => panic!("the reference field is not cloned"),
    }
}

#[test]
fn positional_statement_parses_with_matching_indices() {
    let statement: syn::Stmt = syn::parse_str(&unnamed_field_conversion(
        "output_arr",
        "js_env",
        3,
        FieldTypeKind::ByValue,
    ))
    .unwrap();
    let outer = match statement {
        syn::Stmt::Semi(syn::Expr::Try(outer), _) => outer,
        _ => panic!("not a `?;` statement"),
    };
    let call = match *outer.expr {
        syn::Expr::MethodCall(call) => call,
        _ => panic!("not a method call"),
    };
    assert_eq!(call.method.to_string(), "set_element");
    assert_eq!(call.args.len(), 3);
    let inner = match &call.args[1] {
        syn::Expr::Try(inner) => inner,
        _ => panic!("the conversion is not followed by `?`"),
    };
    let conversion = match &*inner.expr {
        syn::Expr::MethodCall(conversion) => conversion,
        _ => panic!("not a method call"),
    };
    match &*conversion.receiver {
        syn::Expr::Field(access) => match &access.member {
            syn::Member::Unnamed(index) => assert_eq!(index.index, 3),
            _ => panic!("not a positional member"),
        },
        _ => panic!("not a field access"),
    }
    match &call.args[2] {
        syn::Expr::Lit(syn::ExprLit { lit: syn::Lit::Int(index), .. }) => {
            assert_eq!(index.base10_parse::<u32>().unwrap(), 3);
            assert_eq!(index.suffix(), "");
        }
        _ => panic!("not an integer literal"),
    }
}
