use impl_from_for_upper_struct::decl::GenerateError;
use impl_from_for_upper_struct::message::error_message;

#[test]
fn not_an_enum_message_text() {
    assert_eq!(
        error_message("FooErrorEnum", &GenerateError::NotAnEnum),
        "EnumIntoArray only works on enums"
    );
}

#[test]
fn variant_arity_message_includes_the_count() {
    assert_eq!(
        error_message("FooErrorEnum", &GenerateError::VariantArityError(0)),
        "fields_unnamed.unnamed != 1, length is 0"
    );
    assert_eq!(
        error_message("FooErrorEnum", &GenerateError::VariantArityError(2)),
        "fields_unnamed.unnamed != 1, length is 2"
    );
    assert_eq!(
        error_message("FooErrorEnum", &GenerateError::VariantArityError(1203)),
        "fields_unnamed.unnamed != 1, length is 1203"
    );
}

#[test]
fn missing_marker_message_includes_the_name() {
    assert_eq!(
        error_message("BazStruct", &GenerateError::MissingMarkerError),
        "Cannot find Enum inside string variant name BazStruct"
    );
}
