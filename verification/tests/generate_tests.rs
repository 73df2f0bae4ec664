use impl_from_for_upper_struct::decl::{
    DeclData, FieldsDecl, GenerateError, InputDecl, PathKind, VariantDecl,
};
use impl_from_for_upper_struct::generate::generate;
use impl_from_for_upper_struct::{
    derive_impl_from_for_upper_struct_from_crate, derive_impl_from_for_upper_struct_from_tufa_common,
};

fn variant(name: &str, payload_types: &[&str]) -> VariantDecl {
    VariantDecl {
        name: name.to_string(),
        fields: FieldsDecl::Unnamed(payload_types.iter().map(|t| t.to_string()).collect()),
    }
}

fn enum_input(name: &str, variants: Vec<VariantDecl>) -> InputDecl {
    InputDecl {
        name: name.to_string(),
        data: DeclData::Enum(variants),
    }
}

fn expected_conversion(enum_name: &str, variant: &str, inner: &str, strukt: &str, path: &str) -> String {
    format!(
        "impl From<{inner}> for {strukt} {{\n    use {path}::where_was::WhereWas;\n    fn from(error: {inner}) -> Self {{\n        {strukt} {{\n            source: Box::new({enum_name}::{variant}(error)),\n            where_was: WhereWas::new(\n                chrono::DateTime::<chrono::Utc>::from_utc(chrono::Local::now().naive_utc(), chrono::Utc)\n                .with_timezone(&chrono::FixedOffset::east(crate::once_cell_globals::config::CONFIG.timezone)),\n                file!(),\n                line!(),\n                column!(),\n                None,\n            ),\n        }}\n    }}\n}}\n"
    )
}

#[test]
fn foo_error_enum_two_conversions_from_tufa_common() {
    let input = enum_input(
        "FooErrorEnum",
        vec![
            variant("One", &["std::io::Error"]),
            variant("Two", &["std::fmt::Error"]),
        ],
    );
    let out = derive_impl_from_for_upper_struct_from_tufa_common(&input).unwrap();
    assert_eq!(out.len(), 2);
    assert_eq!(
        out[0],
        expected_conversion("FooErrorEnum", "One", "std::io::Error", "FooError", "tufa_common")
    );
    assert_eq!(
        out[1],
        expected_conversion("FooErrorEnum", "Two", "std::fmt::Error", "FooError", "tufa_common")
    );
    assert!(out[0].contains("impl From<std::io::Error> for FooError"));
    assert!(out[1].contains("impl From<std::fmt::Error> for FooError"));
}

#[test]
fn foo_error_enum_two_conversions_from_crate() {
    let input = enum_input(
        "FooErrorEnum",
        vec![
            variant("One", &["std::io::Error"]),
            variant("Two", &["std::fmt::Error"]),
        ],
    );
    let out = derive_impl_from_for_upper_struct_from_crate(&input).unwrap();
    assert_eq!(out.len(), 2);
    assert_eq!(
        out[0],
        expected_conversion("FooErrorEnum", "One", "std::io::Error", "FooError", "crate")
    );
    assert!(out[0].contains("use crate::where_was::WhereWas;"));
}

#[test]
fn one_conversion_per_variant() {
    let input = enum_input(
        "ThingErrorEnum",
        vec![
            variant("A", &["X"]),
            variant("B", &["Y"]),
            variant("C", &["Z"]),
        ],
    );
    let out = generate(&input, PathKind::TufaCommon).unwrap();
    assert_eq!(out.len(), 3);
}

#[test]
fn bar_enum_zero_variants_zero_conversions() {
    let input = enum_input("BarEnum", vec![]);
    let out = generate(&input, PathKind::TufaCommon).unwrap();
    assert_eq!(out.len(), 0);
}

#[test]
fn baz_struct_name_without_marker_fails() {
    let input = enum_input("BazStruct", vec![variant("One", &["X"])]);
    let r = generate(&input, PathKind::TufaCommon);
    assert_eq!(r, Err(GenerateError::MissingMarkerError));
}

#[test]
fn missing_marker_with_valid_variants() {
    let input = enum_input("FooErrors", vec![variant("One", &["X"]), variant("Two", &["Y"])]);
    let r = generate(&input, PathKind::Crate);
    assert_eq!(r, Err(GenerateError::MissingMarkerError));
}

#[test]
fn non_enum_fails_not_an_enum() {
    let input = InputDecl {
        name: "FooErrorEnum".to_string(),
        data: DeclData::Struct,
    };
    assert_eq!(generate(&input, PathKind::TufaCommon), Err(GenerateError::NotAnEnum));
    let input = InputDecl {
        name: "FooErrorEnum".to_string(),
        data: DeclData::Union,
    };
    assert_eq!(generate(&input, PathKind::Crate), Err(GenerateError::NotAnEnum));
}

#[test]
fn non_enum_wins_over_other_failures() {
    // The declaration kind is checked first, so a non-enum without the
    // marker in its name still reports NotAnEnum.
    let input = InputDecl {
        name: "NoMarkerHere".to_string(),
        data: DeclData::Struct,
    };
    assert_eq!(generate(&input, PathKind::TufaCommon), Err(GenerateError::NotAnEnum));
}

#[test]
fn zero_payloads_fails_with_count_zero() {
    let input = enum_input("FooErrorEnum", vec![variant("One", &[])]);
    assert_eq!(
        generate(&input, PathKind::TufaCommon),
        Err(GenerateError::VariantArityError(0))
    );
}

#[test]
fn unit_variant_fails_with_count_zero() {
    let input = enum_input(
        "FooErrorEnum",
        vec![VariantDecl {
            name: "One".to_string(),
            fields: FieldsDecl::Unit,
        }],
    );
    assert_eq!(
        generate(&input, PathKind::TufaCommon),
        Err(GenerateError::VariantArityError(0))
    );
}

#[test]
fn two_payloads_fails_with_count_two() {
    let input = enum_input(
        "FooErrorEnum",
        vec![variant("One", &["X"]), variant("Two", &["Y", "Z"])],
    );
    assert_eq!(
        generate(&input, PathKind::TufaCommon),
        Err(GenerateError::VariantArityError(2))
    );
}

#[test]
fn named_fields_fail_the_arity_check() {
    let input = enum_input(
        "FooErrorEnum",
        vec![VariantDecl {
            name: "One".to_string(),
            fields: FieldsDecl::Named(1),
        }],
    );
    assert_eq!(
        generate(&input, PathKind::TufaCommon),
        Err(GenerateError::VariantArityError(1))
    );
}

#[test]
fn first_bad_variant_decides_the_count() {
    let input = enum_input(
        "FooErrorEnum",
        vec![
            variant("A", &["X"]),
            variant("B", &["Y", "Z", "W"]),
            variant("C", &[]),
        ],
    );
    assert_eq!(
        generate(&input, PathKind::TufaCommon),
        Err(GenerateError::VariantArityError(3))
    );
}

#[test]
fn arity_is_checked_before_the_marker() {
    // No marker in the name and a bad variant: the arity error comes first.
    let input = enum_input("NoMarkerHere", vec![variant("One", &["X", "Y"])]);
    assert_eq!(
        generate(&input, PathKind::TufaCommon),
        Err(GenerateError::VariantArityError(2))
    );
}

#[test]
fn first_marker_occurrence_names_the_struct() {
    let input = enum_input("AEnumBEnum", vec![variant("One", &["X"])]);
    let out = generate(&input, PathKind::Crate).unwrap();
    assert_eq!(out[0], expected_conversion("AEnumBEnum", "One", "X", "A", "crate"));
}

#[test]
fn marker_at_the_start_leaves_an_empty_struct_name() {
    let input = enum_input("EnumFoo", vec![variant("One", &["X"])]);
    let out = generate(&input, PathKind::Crate).unwrap();
    assert_eq!(out[0], expected_conversion("EnumFoo", "One", "X", "", "crate"));
}

#[test]
fn rerunning_generation_gives_identical_output() {
    let input = enum_input(
        "FooErrorEnum",
        vec![
            variant("One", &["std::io::Error"]),
            variant("Two", &["std::fmt::Error"]),
        ],
    );
    let a = generate(&input, PathKind::TufaCommon);
    let b = generate(&input, PathKind::TufaCommon);
    assert_eq!(a, b);
    let c = generate(&input, PathKind::Crate);
    let d = generate(&input, PathKind::Crate);
    assert_eq!(c, d);
}

#[test]
fn field_count_reports_each_shape() {
    assert_eq!(variant("One", &["X", "Y"]).field_count(), 2);
    assert_eq!(
        VariantDecl { name: "A".to_string(), fields: FieldsDecl::Named(4) }.field_count(),
        4
    );
    assert_eq!(
        VariantDecl { name: "A".to_string(), fields: FieldsDecl::Unit }.field_count(),
        0
    );
}
