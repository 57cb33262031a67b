//! Tests of the validation and modeling stage.

use repr_cast::parse::{
    calculate_discriminants, extract_repr_from_attrs, parse_repr_cast, try_evaluate_expr,
};
use repr_cast::repr_enum::CalculatedDiscriminant;
use repr_cast::syntax::{
    Attr, Decl, DeclBody, DeclVariant, DiscExpr, ExprShape, Generics, ParseError, ReprType,
};

fn no_generics() -> Generics {
    Generics { impl_text: String::new(), type_text: String::new(), where_text: String::new() }
}

fn plain_attr(path: &str, args: &[&str], text: &str) -> Attr {
    Attr {
        path: path.to_string(),
        list_args: Some(args.iter().map(|a| a.to_string()).collect()),
        text: text.to_string(),
    }
}

fn unit_variant(name: &str) -> DeclVariant {
    DeclVariant { name: name.to_string(), attrs: Vec::new(), is_unit: true, discriminant: None }
}

fn int_variant(name: &str, digits: &str) -> DeclVariant {
    DeclVariant {
        name: name.to_string(),
        attrs: Vec::new(),
        is_unit: true,
        discriminant: Some(DiscExpr {
            text: digits.to_string(),
            shape: ExprShape::IntLit(digits.to_string()),
        }),
    }
}

fn neg_variant(name: &str, digits: &str) -> DeclVariant {
    DeclVariant {
        name: name.to_string(),
        attrs: Vec::new(),
        is_unit: true,
        discriminant: Some(DiscExpr {
            text: format!("- {}", digits),
            shape: ExprShape::Neg(Box::new(ExprShape::IntLit(digits.to_string()))),
        }),
    }
}

fn enum_decl(name: &str, vis: &str, attrs: Vec<Attr>, variants: Vec<DeclVariant>) -> Decl {
    Decl {
        name: name.to_string(),
        vis: vis.to_string(),
        attrs,
        generics: no_generics(),
        body: DeclBody::Enum(variants),
    }
}

#[test]
fn test_parse_simple_enum() {
    let input = enum_decl(
        "Status",
        "",
        Vec::new(),
        vec![
            int_variant("Pending", "0"),
            int_variant("Active", "1"),
            int_variant("Completed", "2"),
        ],
    );

    let result = parse_repr_cast(ReprType::U8, input);

    assert!(result.is_ok());
    let repr_enum = result.unwrap();
    assert_eq!(repr_enum.name, "Status");
    assert_eq!(repr_enum.repr_type.name(), "u8");
    assert_eq!(repr_enum.variants.len(), 3);
}

#[test]
fn test_parse_implicit_discriminants() {
    let input = enum_decl(
        "Color",
        "",
        Vec::new(),
        vec![unit_variant("Red"), unit_variant("Green"), unit_variant("Blue")],
    );

    let result = parse_repr_cast(ReprType::U8, input);

    assert!(result.is_ok());
    let repr_enum = result.unwrap();
    assert_eq!(repr_enum.variants.len(), 3);

    match &repr_enum.variants[0].calculated_discriminant {
        CalculatedDiscriminant::Implicit(v) => assert_eq!(*v, 0),
        _ => panic!("Expected implicit discriminant"),
    }
    match &repr_enum.variants[1].calculated_discriminant {
        CalculatedDiscriminant::Implicit(v) => assert_eq!(*v, 1),
        _ => panic!("Expected implicit discriminant"),
    }
    match &repr_enum.variants[2].calculated_discriminant {
        CalculatedDiscriminant::Implicit(v) => assert_eq!(*v, 2),
        _ => panic!("Expected implicit discriminant"),
    }
}

#[test]
fn test_parse_signed_discriminants() {
    let input = enum_decl(
        "Priority",
        "",
        Vec::new(),
        vec![neg_variant("Low", "1"), int_variant("Normal", "0"), int_variant("High", "1")],
    );

    let result = parse_repr_cast(ReprType::I32, input);

    assert!(result.is_ok());
    let repr_enum = result.unwrap();
    assert_eq!(repr_enum.variants.len(), 3);
    assert_eq!(repr_enum.repr_type.name(), "i32");
}

#[test]
fn test_parse_mixed_discriminants() {
    let input = enum_decl(
        "Mixed",
        "",
        Vec::new(),
        vec![unit_variant("First"), int_variant("Second", "10"), unit_variant("Third")],
    );

    let result = parse_repr_cast(ReprType::U16, input);

    assert!(result.is_ok());
    let repr_enum = result.unwrap();

    match &repr_enum.variants[0].calculated_discriminant {
        CalculatedDiscriminant::Implicit(v) => assert_eq!(*v, 0),
        _ => panic!("Expected implicit discriminant"),
    }
    assert!(matches!(
        &repr_enum.variants[1].calculated_discriminant,
        CalculatedDiscriminant::Explicit(_)
    ));
    match &repr_enum.variants[2].calculated_discriminant {
        CalculatedDiscriminant::Implicit(v) => assert_eq!(*v, 11),
        _ => panic!("Expected implicit discriminant"),
    }
}

#[test]
fn test_parse_rejects_non_enum() {
    let input = Decl {
        name: "NotAnEnum".to_string(),
        vis: "".to_string(),
        attrs: Vec::new(),
        generics: no_generics(),
        body: DeclBody::Other,
    };

    let result = parse_repr_cast(ReprType::U8, input);

    assert!(result.is_err());
    let err_msg = result.unwrap_err().message();
    assert!(err_msg.contains("can only be applied to enums"));
}

#[test]
fn test_parse_rejects_enum_with_fields() {
    let tuple_variant = DeclVariant {
        name: "Variant1".to_string(),
        attrs: Vec::new(),
        is_unit: false,
        discriminant: None,
    };
    let input = enum_decl("WithFields", "", Vec::new(), vec![tuple_variant, unit_variant(
        "Variant2",
    )]);

    let result = parse_repr_cast(ReprType::U8, input);

    assert!(result.is_err());
    let err_msg = result.unwrap_err().message();
    assert!(err_msg.contains("fieldless enums"));
}

#[test]
fn test_extract_repr_from_attrs() {
    let input = enum_decl(
        "Test",
        "",
        vec![plain_attr("repr", &["u32"], "# [repr (u32)]")],
        vec![unit_variant("A")],
    );

    let result = extract_repr_from_attrs(&input).unwrap();
    assert!(result.is_some());
    assert_eq!(result.unwrap().name(), "u32");
}

#[test]
fn test_extract_repr_none() {
    let input = enum_decl("Test", "", Vec::new(), vec![unit_variant("A")]);

    let result = extract_repr_from_attrs(&input).unwrap();
    assert!(result.is_none());
}

#[test]
fn test_extract_repr_malformed() {
    let input = enum_decl(
        "Test",
        "",
        vec![plain_attr("repr", &["C", ",", "packed"], "# [repr (C , packed)]")],
        vec![unit_variant("A")],
    );

    let result = extract_repr_from_attrs(&input);
    assert_eq!(result, Err(ParseError::MalformedArgument));
}

#[test]
fn test_extract_repr_skips_other_attrs() {
    let input = enum_decl(
        "Test",
        "",
        vec![
            plain_attr("derive", &["Debug"], "# [derive (Debug)]"),
            plain_attr("repr", &["i64"], "# [repr (i64)]"),
        ],
        vec![unit_variant("A")],
    );

    let result = extract_repr_from_attrs(&input).unwrap();
    assert_eq!(result, Some(ReprType::I64));
}

#[test]
fn test_try_evaluate_expr_positive() {
    let expr = ExprShape::IntLit("42".to_string());
    let result = try_evaluate_expr(&expr);
    assert!(result.is_some());
    assert_eq!(result.unwrap(), 42);
}

#[test]
fn test_try_evaluate_expr_negative() {
    let expr = ExprShape::Neg(Box::new(ExprShape::IntLit("10".to_string())));
    let result = try_evaluate_expr(&expr);
    assert!(result.is_some());
    assert_eq!(result.unwrap(), -10);
}

#[test]
fn test_try_evaluate_expr_complex() {
    let expr = ExprShape::Opaque;
    let result = try_evaluate_expr(&expr);
    assert!(result.is_none());
}

#[test]
fn test_try_evaluate_expr_overflow() {
    // one past the signed 128-bit maximum: too large to evaluate
    let expr = ExprShape::IntLit("170141183460469231731687303715884105728".to_string());
    assert!(try_evaluate_expr(&expr).is_none());
    // the maximum itself still evaluates
    let expr = ExprShape::IntLit("170141183460469231731687303715884105727".to_string());
    assert_eq!(try_evaluate_expr(&expr), Some(i128::MAX));
    // and so does its negation
    let expr = ExprShape::Neg(Box::new(ExprShape::IntLit(
        "170141183460469231731687303715884105727".to_string(),
    )));
    assert_eq!(try_evaluate_expr(&expr), Some(-i128::MAX));
}

#[test]
fn test_preserves_attributes() {
    let input = enum_decl(
        "Test",
        "",
        vec![
            plain_attr("derive", &["Debug"], "# [derive (Debug)]"),
            plain_attr("allow", &["dead_code"], "# [allow (dead_code)]"),
        ],
        vec![unit_variant("A")],
    );

    let result = parse_repr_cast(ReprType::U8, input);

    assert!(result.is_ok());
    let repr_enum = result.unwrap();
    assert_eq!(repr_enum.attributes.len(), 2);
}

#[test]
fn test_filters_matching_repr_attr() {
    let input = enum_decl(
        "Test",
        "",
        vec![
            plain_attr("repr", &["u8"], "# [repr (u8)]"),
            plain_attr("derive", &["Debug"], "# [derive (Debug)]"),
        ],
        vec![unit_variant("A")],
    );

    let result = parse_repr_cast(ReprType::U8, input);

    assert!(result.is_ok());
    let repr_enum = result.unwrap();
    // only the derive stays: the repr(u8) would be re-emitted by the emitter
    assert_eq!(repr_enum.attributes.len(), 1);
}

#[test]
fn test_keeps_non_matching_repr_attr() {
    let input = enum_decl(
        "Test",
        "",
        vec![plain_attr("repr", &["u16"], "# [repr (u16)]")],
        vec![unit_variant("A")],
    );

    let result = parse_repr_cast(ReprType::U8, input);

    assert!(result.is_ok());
    let repr_enum = result.unwrap();
    assert_eq!(repr_enum.attributes.len(), 1);
    assert_eq!(repr_enum.attributes[0].text, "# [repr (u16)]");
}

#[test]
fn test_reset_after_named_constant() {
    // enum M { First, Second = NAMED_CONST, Third } with an external constant:
    // the counter resets, so Third gets the implicit value 0, not 2
    let opaque = DeclVariant {
        name: "Second".to_string(),
        attrs: Vec::new(),
        is_unit: true,
        discriminant: Some(DiscExpr {
            text: "NAMED_CONST".to_string(),
            shape: ExprShape::Opaque,
        }),
    };
    let input = enum_decl("M", "", Vec::new(), vec![
        unit_variant("First"),
        opaque,
        unit_variant("Third"),
    ]);

    let result = parse_repr_cast(ReprType::U8, input);

    assert!(result.is_ok());
    let repr_enum = result.unwrap();
    match &repr_enum.variants[2].calculated_discriminant {
        CalculatedDiscriminant::Implicit(v) => assert_eq!(*v, 0),
        _ => panic!("Expected implicit discriminant"),
    }
}

#[test]
fn test_calculate_discriminants_empty() {
    let out = calculate_discriminants(Vec::new());
    assert!(out.is_empty());
}
