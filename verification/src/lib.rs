//! Generates `From<Inner> for Outer` conversion implementations for an enum
//! of error-source variants, as source text.
//!
//! The annotated declaration must be an enum, each of its variants must wrap
//! exactly one unnamed payload type, and its name must contain the marker
//! substring `Enum`; the outer struct's name is the prefix of the enum's name
//! before the first occurrence of the marker. For each variant, one
//! conversion is emitted that wraps the inner error in that variant and
//! stamps the outer struct with creation-time location metadata.
//!
//! The expected naming convention:
//!
//! ```text
//! pub struct StructNameError {
//!     pub source: Box<StructNameErrorEnum>,
//!     pub where_was: WhereWas,
//! }
//! pub enum StructNameErrorEnum {
//!     One(One),
//!     Two(Two),
//! }
//! ```

use vstd::prelude::*;

pub mod decl;
pub mod generate;
pub mod laws;
pub mod message;

use crate::decl::{GenerateError, InputDecl, PathKind};
use crate::generate::{generate, generate_post};

verus! {

/// Generates the conversions with the metadata constructor reached through
/// the shared `tufa_common` library.
pub fn derive_impl_from_for_upper_struct_from_tufa_common(
    input: &InputDecl,
) -> (r: Result<Vec<String>, GenerateError>)
    ensures
        generate_post(*input, PathKind::TufaCommon, r),
{
    generate(input, PathKind::TufaCommon)
}

/// Generates the conversions with the metadata constructor reached through
/// the expanding crate itself.
pub fn derive_impl_from_for_upper_struct_from_crate(
    input: &InputDecl,
) -> (r: Result<Vec<String>, GenerateError>)
    ensures
        generate_post(*input, PathKind::Crate, r),
{
    generate(input, PathKind::Crate)
}

} // verus!
