use vstd::prelude::*;
use vstd::string::StringExecFns;

use crate::decl::GenerateError;

verus! {

/// The decimal digit character for a value below ten.
pub open spec fn decimal_digit(d: int) -> char {
    seq!['0', '1', '2', '3', '4', '5', '6', '7', '8', '9'][d]
}

/// The decimal text of a non-negative number, most significant digit first.
pub open spec fn decimal_text(n: int) -> Seq<char>
    recommends
        0 <= n,
    decreases n,
{
    if n < 10 {
        seq![decimal_digit(n)]
    } else {
        decimal_text(n / 10) + seq![decimal_digit(n % 10)]
    }
}

/// The message reported when the annotated declaration is not an enum.
pub open spec fn not_an_enum_message() -> Seq<char> {
    "EnumIntoArray only works on enums"@
}

/// The message reported when a variant carries `n` fields instead of one
/// unnamed payload.
pub open spec fn variant_arity_message(n: int) -> Seq<char> {
    "fields_unnamed.unnamed != 1, length is "@ + decimal_text(n)
}

/// The message reported when the enum's name lacks the marker substring.
pub open spec fn missing_marker_message(name: Seq<char>) -> Seq<char> {
    "Cannot find Enum inside string variant name "@ + name
}

/// The single-character text of one decimal digit.
fn digit_str(d: usize) -> (r: &'static str)
    requires
        d < 10,
    ensures
        r@ == seq![decimal_digit(d as int)],
{
    let r: &'static str = match d {
        0 => "0",
        1 => "1",
        2 => "2",
        3 => "3",
        4 => "4",
        5 => "5",
        6 => "6",
        7 => "7",
        8 => "8",
        _ => "9",
    };
    proof {
        reveal_strlit("0");
        reveal_strlit("1");
        reveal_strlit("2");
        reveal_strlit("3");
        reveal_strlit("4");
        reveal_strlit("5");
        reveal_strlit("6");
        reveal_strlit("7");
        reveal_strlit("8");
        reveal_strlit("9");
        assert(r@ =~= seq![decimal_digit(d as int)]);
    }
    r
}

/// Appends the decimal text of `n` to `s`.
fn push_decimal(s: &mut String, n: usize)
    ensures
        final(s)@ == old(s)@ + decimal_text(n as int),
    decreases n,
{
    if n >= 10 {
        push_decimal(s, n / 10);
        s.append(digit_str(n % 10));
        assert(final(s)@ =~= old(s)@ + decimal_text(n as int));
    } else {
        s.append(digit_str(n));
    }
}

/// The human-readable message for a generation error, identifying the
/// violated constraint; `input_name` is the name of the annotated
/// declaration, quoted by the missing-marker message.
pub fn error_message(input_name: &str, e: &GenerateError) -> (r: String)
    ensures
        r@ == match *e {
            GenerateError::NotAnEnum => not_an_enum_message(),
            GenerateError::VariantArityError(n) => variant_arity_message(n as int),
            GenerateError::MissingMarkerError => missing_marker_message(input_name@),
        },
{
    match e {
        GenerateError::NotAnEnum => "EnumIntoArray only works on enums".to_owned(),
        GenerateError::VariantArityError(n) => {
            let mut s: String = "fields_unnamed.unnamed != 1, length is ".to_owned();
            push_decimal(&mut s, *n);
            s
        },
        GenerateError::MissingMarkerError => {
            let mut s: String = "Cannot find Enum inside string variant name ".to_owned();
            s.append(input_name);
            s
        },
    }
}

} // verus!
