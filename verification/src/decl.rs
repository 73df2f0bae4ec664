use vstd::prelude::*;

verus! {

/// Which fully-qualified module path the generated conversions use to reach
/// the location-metadata constructor: the shared `tufa_common` library, or
/// the crate that the derive is expanded in.
#[derive(Clone, Copy, PartialEq, Eq, Structural, Debug)]
pub enum PathKind {
    TufaCommon,
    Crate,
}

/// The fields of one enum variant, as far as generation reads them: the
/// source text of each unnamed payload type, or merely how many named
/// fields there are, or none at all.
pub enum FieldsDecl {
    Unnamed(Vec<String>),
    Named(usize),
    Unit,
}

/// One variant of the annotated enum: its name and its fields.
pub struct VariantDecl {
    pub name: String,
    pub fields: FieldsDecl,
}

/// The body of the annotated type declaration.
pub enum DeclData {
    Enum(Vec<VariantDecl>),
    Struct,
    Union,
}

/// The annotated type declaration handed to the generator: its name and
/// its body.
pub struct InputDecl {
    pub name: String,
    pub data: DeclData,
}

/// Why generation refused an input declaration.
#[derive(Clone, Copy, PartialEq, Eq, Structural, Debug)]
pub enum GenerateError {
    /// The declaration is not an enum.
    NotAnEnum,
    /// A variant does not wrap exactly one unnamed payload field; the
    /// payload is the actual field count of that variant.
    VariantArityError(usize),
    /// The enum's name does not contain the marker substring.
    MissingMarkerError,
}

/// How many fields a variant declaration carries.
pub open spec fn spec_field_count(f: FieldsDecl) -> nat {
    match f {
        FieldsDecl::Unnamed(tys) => tys@.len(),
        FieldsDecl::Named(n) => n as nat,
        FieldsDecl::Unit => 0,
    }
}

/// A variant passes validation when it wraps exactly one unnamed payload.
pub open spec fn variant_arity_ok(v: VariantDecl) -> bool {
    v.fields is Unnamed && spec_field_count(v.fields) == 1
}

/// The source text of the single payload type of a valid variant.
pub open spec fn payload_type(v: VariantDecl) -> Seq<char> {
    v.fields->Unnamed_0@[0]@
}

/// Every variant of the sequence passes validation.
pub open spec fn variants_ok(vs: Seq<VariantDecl>) -> bool {
    forall|i: int| 0 <= i < vs.len() ==> variant_arity_ok(#[trigger] vs[i])
}

/// `i` is the first position whose variant fails validation.
pub open spec fn first_bad_arity(vs: Seq<VariantDecl>, i: int) -> bool {
    &&& 0 <= i < vs.len()
    &&& !variant_arity_ok(vs[i])
    &&& forall|j: int| 0 <= j < i ==> variant_arity_ok(#[trigger] vs[j])
}

impl VariantDecl {
    /// How many fields this variant carries.
    pub fn field_count(&self) -> (n: usize)
        ensures
            n as nat == spec_field_count(self.fields),
    {
        match &self.fields {
            FieldsDecl::Unnamed(tys) => tys.len(),
            FieldsDecl::Named(n) => *n,
            FieldsDecl::Unit => 0,
        }
    }
}

} // verus!
