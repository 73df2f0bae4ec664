use vstd::prelude::*;

use crate::decl::{
    first_bad_arity, spec_field_count, variant_arity_ok, variants_ok, GenerateError, InputDecl,
    PathKind, VariantDecl,
};
use crate::generate::{
    first_marker, first_marker_from, generate_post, has_marker, marker_at, valid_input,
};

verus! {

/// The first failing position is unique.
proof fn lemma_first_bad_arity_unique(vs: Seq<VariantDecl>, i1: int, i2: int)
    requires
        first_bad_arity(vs, i1),
        first_bad_arity(vs, i2),
    ensures
        i1 == i2,
{
    if i1 < i2 {
        assert(variant_arity_ok(vs[i1]));
    }
    if i2 < i1 {
        assert(variant_arity_ok(vs[i2]));
    }
}

/// `first_marker_from` finds an occurrence of the marker, and the least one
/// at or after its starting position.
proof fn lemma_first_marker_from_least(name: Seq<char>, i: int)
    requires
        0 <= i,
    ensures
        match first_marker_from(name, i) {
            Some(k) => {
                &&& i <= k
                &&& marker_at(name, k)
                &&& forall|j: int| i <= j < k ==> !marker_at(name, j)
            },
            None => forall|j: int| i <= j ==> !marker_at(name, j),
        },
    decreases name.len() - i,
{
    if i + 4 > name.len() {
    } else if marker_at(name, i) {
    } else {
        lemma_first_marker_from_least(name, i + 1);
    }
}

/// The marker position that the generator uses is a real occurrence of the
/// marker, and the first one: no occurrence lies before it. When the name
/// has no such position, the marker occurs nowhere in it.
pub proof fn lemma_first_marker_is_least(name: Seq<char>)
    ensures
        match first_marker(name) {
            Some(k) => {
                &&& marker_at(name, k)
                &&& forall|j: int| 0 <= j < k ==> !marker_at(name, j)
            },
            None => forall|j: int| !marker_at(name, j),
        },
{
    lemma_first_marker_from_least(name, 0);
    if first_marker(name) is None {
        assert forall|j: int| !marker_at(name, j) by {
            if j < 0 {
            } else {
                assert(!marker_at(name, j));
            }
        }
    }
}

/// For every valid enum - each variant wraps exactly one unnamed payload
/// and the name contains the marker - generation succeeds and produces
/// exactly one conversion declaration per variant.
pub proof fn lemma_valid_enum_one_conversion_per_variant(
    input: InputDecl,
    path: PathKind,
    r: Result<Vec<String>, GenerateError>,
)
    requires
        generate_post(input, path, r),
        valid_input(input),
    ensures
        r is Ok,
        r->Ok_0@.len() == input.data->Enum_0@.len(),
{
    let vs = input.data->Enum_0@;
    match r {
        Result::Ok(_) => {
        },
        Result::Err(e) => {
            match e {
                GenerateError::NotAnEnum => {
                    assert(false);
                },
                GenerateError::VariantArityError(n) => {
                    let i = choose|i: int|
                        #[trigger] first_bad_arity(vs, i) && n as nat == spec_field_count(
                            vs[i].fields,
                        );
                    assert(variant_arity_ok(vs[i]));
                    assert(false);
                },
                GenerateError::MissingMarkerError => {
                    assert(false);
                },
            }
        },
    }
}

/// For a non-enum input, generation fails with `NotAnEnum`.
pub proof fn lemma_not_enum_fails(
    input: InputDecl,
    path: PathKind,
    r: Result<Vec<String>, GenerateError>,
)
    requires
        generate_post(input, path, r),
        !(input.data is Enum),
    ensures
        r is Err,
        r->Err_0 == GenerateError::NotAnEnum,
{
    match r {
        Result::Ok(_) => {
            assert(false);
        },
        Result::Err(e) => {
            match e {
                GenerateError::NotAnEnum => {
                },
                GenerateError::VariantArityError(_) => {
                    assert(false);
                },
                GenerateError::MissingMarkerError => {
                    assert(false);
                },
            }
        },
    }
}

/// For an enum with a variant that does not wrap exactly one unnamed
/// payload, generation fails with `VariantArityError` carrying the actual
/// field count of the first such variant.
pub proof fn lemma_bad_arity_fails(
    input: InputDecl,
    path: PathKind,
    r: Result<Vec<String>, GenerateError>,
    i: int,
)
    requires
        generate_post(input, path, r),
        input.data is Enum,
        first_bad_arity(input.data->Enum_0@, i),
    ensures
        r is Err,
        r->Err_0 is VariantArityError,
        r->Err_0->VariantArityError_0 as nat == spec_field_count(input.data->Enum_0@[i].fields),
{
    let vs = input.data->Enum_0@;
    match r {
        Result::Ok(_) => {
            assert(variant_arity_ok(vs[i]));
            assert(false);
        },
        Result::Err(e) => {
            match e {
                GenerateError::NotAnEnum => {
                    assert(false);
                },
                GenerateError::VariantArityError(n) => {
                    let i2 = choose|i2: int|
                        #[trigger] first_bad_arity(vs, i2) && n as nat == spec_field_count(
                            vs[i2].fields,
                        );
                    lemma_first_bad_arity_unique(vs, i, i2);
                },
                GenerateError::MissingMarkerError => {
                    assert(variant_arity_ok(vs[i]));
                    assert(false);
                },
            }
        },
    }
}

/// For an enum whose variants all pass the arity check but whose name lacks
/// the marker substring, generation fails with `MissingMarkerError`.
///
/// The arity condition cannot be dropped: the arity of each variant is
/// checked before the name, so an enum without the marker whose first
/// variant wraps two payloads fails with `VariantArityError` instead.
pub proof fn lemma_missing_marker_fails(
    input: InputDecl,
    path: PathKind,
    r: Result<Vec<String>, GenerateError>,
)
    requires
        generate_post(input, path, r),
        input.data is Enum,
        variants_ok(input.data->Enum_0@),
        !has_marker(input.name@),
    ensures
        r is Err,
        r->Err_0 == GenerateError::MissingMarkerError,
{
    let vs = input.data->Enum_0@;
    match r {
        Result::Ok(_) => {
            assert(false);
        },
        Result::Err(e) => {
            match e {
                GenerateError::NotAnEnum => {
                    assert(false);
                },
                GenerateError::VariantArityError(n) => {
                    let i = choose|i: int|
                        #[trigger] first_bad_arity(vs, i) && n as nat == spec_field_count(
                            vs[i].fields,
                        );
                    assert(variant_arity_ok(vs[i]));
                    assert(false);
                },
                GenerateError::MissingMarkerError => {
                },
            }
        },
    }
}

/// Generation is deterministic: two runs on the same input declaration and
/// path kind agree - they fail with the same error, or succeed with
/// character-for-character identical conversion texts.
pub proof fn lemma_generation_deterministic(
    input: InputDecl,
    path: PathKind,
    r1: Result<Vec<String>, GenerateError>,
    r2: Result<Vec<String>, GenerateError>,
)
    requires
        generate_post(input, path, r1),
        generate_post(input, path, r2),
    ensures
        r1 is Ok <==> r2 is Ok,
        r1 is Ok ==> {
            &&& r1->Ok_0@.len() == r2->Ok_0@.len()
            &&& forall|i: int|
                0 <= i < r1->Ok_0@.len() ==> (#[trigger] r1->Ok_0@[i])@ == r2->Ok_0@[i]@
        },
        r1 is Err ==> r1->Err_0 == r2->Err_0,
{
    let vs = input.data->Enum_0@;
    match r1 {
        Result::Ok(_) => {
            lemma_valid_enum_one_conversion_per_variant(input, path, r2);
        },
        Result::Err(e1) => {
            match e1 {
                GenerateError::NotAnEnum => {
                    lemma_not_enum_fails(input, path, r2);
                },
                GenerateError::VariantArityError(n1) => {
                    let i = choose|i: int|
                        #[trigger] first_bad_arity(vs, i) && n1 as nat == spec_field_count(
                            vs[i].fields,
                        );
                    lemma_bad_arity_fails(input, path, r2, i);
                },
                GenerateError::MissingMarkerError => {
                    lemma_missing_marker_fails(input, path, r2);
                },
            }
        },
    }
}

} // verus!
