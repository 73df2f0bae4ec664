use vstd::prelude::*;
use vstd::string::{StrSliceExecFns, StringExecFns};

use crate::decl::{
    first_bad_arity, payload_type, spec_field_count, variant_arity_ok, variants_ok, DeclData,
    FieldsDecl, GenerateError, InputDecl, PathKind, VariantDecl,
};

verus! {

/// The marker substring `Enum` occurs in `name` at position `i`.
pub open spec fn marker_at(name: Seq<char>, i: int) -> bool {
    &&& 0 <= i
    &&& i + 4 <= name.len()
    &&& name[i] == 'E'
    &&& name[i + 1] == 'n'
    &&& name[i + 2] == 'u'
    &&& name[i + 3] == 'm'
}

/// The first position at or after `i` where the marker occurs, if any.
pub open spec fn first_marker_from(name: Seq<char>, i: int) -> Option<int>
    decreases name.len() - i,
{
    if i < 0 || i + 4 > name.len() {
        None
    } else if marker_at(name, i) {
        Some(i)
    } else {
        first_marker_from(name, i + 1)
    }
}

/// The position of the first occurrence of the marker in `name`, if any.
pub open spec fn first_marker(name: Seq<char>) -> Option<int> {
    first_marker_from(name, 0)
}

/// The enum's name contains the marker substring.
pub open spec fn has_marker(name: Seq<char>) -> bool {
    first_marker(name) is Some
}

/// The outer struct's name: the prefix of the enum's name before the first
/// occurrence of the marker.
pub open spec fn struct_prefix(name: Seq<char>) -> Seq<char> {
    name.subrange(0, first_marker(name)->Some_0)
}

/// The input passes every validation step: it is an enum, every variant
/// wraps exactly one unnamed payload, and its name contains the marker.
pub open spec fn valid_input(input: InputDecl) -> bool {
    &&& input.data is Enum
    &&& variants_ok(input.data->Enum_0@)
    &&& has_marker(input.name@)
}

/// The module-path text that the given kind selects for reaching the
/// location-metadata constructor.
pub open spec fn path_text(path: PathKind) -> Seq<char> {
    match path {
        PathKind::TufaCommon => "tufa_common"@,
        PathKind::Crate => "crate"@,
    }
}

/// The full source text of the one conversion implementation emitted for a
/// variant: `From<inner_ty> for struct_name`, wrapping the inner error in
/// `enum_name::variant_name` and stamping location metadata.
pub open spec fn conversion_text(
    enum_name: Seq<char>,
    variant_name: Seq<char>,
    inner_ty: Seq<char>,
    struct_name: Seq<char>,
    path: PathKind,
) -> Seq<char> {
    "impl From<"@ + inner_ty + "> for "@ + struct_name + " {\n    use "@ + path_text(path)
        + "::where_was::WhereWas;\n    fn from(error: "@ + inner_ty + ") -> Self {\n        "@
        + struct_name + " {\n            source: Box::new("@ + enum_name + "::"@ + variant_name
        + "(error)),\n            where_was: WhereWas::new(\n                chrono::DateTime::<chrono::Utc>::from_utc(chrono::Local::now().naive_utc(), chrono::Utc)\n                .with_timezone(&chrono::FixedOffset::east(crate::once_cell_globals::config::CONFIG.timezone)),\n                file!(),\n                line!(),\n                column!(),\n                None,\n            ),\n        }\n    }\n}\n"@
}

/// Everything `generate` promises of its result, for every input: on
/// success, one conversion text per variant of a fully valid enum; on
/// failure, exactly which validation step refused the input.
pub open spec fn generate_post(
    input: InputDecl,
    path: PathKind,
    r: Result<Vec<String>, GenerateError>,
) -> bool {
    match r {
        Result::Ok(out) => {
            &&& valid_input(input)
            &&& out@.len() == input.data->Enum_0@.len()
            &&& forall|i: int|
                0 <= i < out@.len() ==> (#[trigger] out@[i])@ == conversion_text(
                    input.name@,
                    input.data->Enum_0@[i].name@,
                    payload_type(input.data->Enum_0@[i]),
                    struct_prefix(input.name@),
                    path,
                )
        },
        Result::Err(e) => match e {
            GenerateError::NotAnEnum => !(input.data is Enum),
            GenerateError::VariantArityError(n) => {
                &&& input.data is Enum
                &&& exists|i: int|
                    #[trigger] first_bad_arity(input.data->Enum_0@, i) && n as nat
                        == spec_field_count(input.data->Enum_0@[i].fields)
            },
            GenerateError::MissingMarkerError => {
                &&& input.data is Enum
                &&& variants_ok(input.data->Enum_0@)
                &&& !has_marker(input.name@)
            },
        },
    }
}

/// Locates the first occurrence of the marker substring in `name`.
fn find_marker(name: &str) -> (r: Option<usize>)
    ensures
        match r {
            Some(i) => first_marker(name@) == Some(i as int) && marker_at(name@, i as int),
            None => first_marker(name@) is None,
        },
{
    let n: usize = name.unicode_len();
    if n < 4 {
        return None;
    }
    let mut i: usize = 0;
    while i <= n - 4
        invariant
            n == name@.len(),
            4 <= n,
            i <= n - 3,
            first_marker(name@) == first_marker_from(name@, i as int),
        decreases n - i,
    {
        let hit: bool = name.get_char(i) == 'E' && name.get_char(i + 1) == 'n' && name.get_char(
            i + 2,
        ) == 'u' && name.get_char(i + 3) == 'm';
        if hit {
            assert(marker_at(name@, i as int));
            return Some(i);
        }
        assert(!marker_at(name@, i as int));
        assert(first_marker_from(name@, i as int) == first_marker_from(name@, i as int + 1));
        i = i + 1;
    }
    None
}

/// The module-path text that the given kind selects.
fn render_path(path: PathKind) -> (r: &'static str)
    ensures
        r@ == path_text(path),
{
    match path {
        PathKind::TufaCommon => "tufa_common",
        PathKind::Crate => "crate",
    }
}

/// Builds the source text of one conversion implementation.
fn conversion_for(
    enum_name: &str,
    variant_name: &str,
    inner_ty: &str,
    struct_name: &str,
    path: PathKind,
) -> (r: String)
    ensures
        r@ == conversion_text(enum_name@, variant_name@, inner_ty@, struct_name@, path),
{
    let mut s: String = "impl From<".to_owned();
    s.append(inner_ty);
    s.append("> for ");
    s.append(struct_name);
    s.append(" {\n    use ");
    s.append(render_path(path));
    s.append("::where_was::WhereWas;\n    fn from(error: ");
    s.append(inner_ty);
    s.append(") -> Self {\n        ");
    s.append(struct_name);
    s.append(" {\n            source: Box::new(");
    s.append(enum_name);
    s.append("::");
    s.append(variant_name);
    s.append(
        "(error)),\n            where_was: WhereWas::new(\n                chrono::DateTime::<chrono::Utc>::from_utc(chrono::Local::now().naive_utc(), chrono::Utc)\n                .with_timezone(&chrono::FixedOffset::east(crate::once_cell_globals::config::CONFIG.timezone)),\n                file!(),\n                line!(),\n                column!(),\n                None,\n            ),\n        }\n    }\n}\n",
    );
    s
}

/// Validates the annotated declaration and emits one conversion text per
/// variant, or refuses the input at the first validation step that fails.
pub fn generate(input: &InputDecl, path: PathKind) -> (r: Result<Vec<String>, GenerateError>)
    ensures
        generate_post(*input, path, r),
{
    let variants: &Vec<VariantDecl> = match &input.data {
        DeclData::Enum(vs) => vs,
        DeclData::Struct => {
            return Err(GenerateError::NotAnEnum);
        },
        DeclData::Union => {
            return Err(GenerateError::NotAnEnum);
        },
    };
    let n: usize = variants.len();
    let mut k: usize = 0;
    while k < n
        invariant
            input.data is Enum,
            variants@ == input.data->Enum_0@,
            n == variants@.len(),
            k <= n,
            forall|j: int| 0 <= j < k ==> variant_arity_ok(#[trigger] variants@[j]),
        decreases n - k,
    {
        let v: &VariantDecl = &variants[k];
        let ok: bool = match &v.fields {
            FieldsDecl::Unnamed(tys) => tys.len() == 1,
            FieldsDecl::Named(_) => false,
            FieldsDecl::Unit => false,
        };
        if !ok {
            proof {
                assert(first_bad_arity(input.data->Enum_0@, k as int));
            }
            return Err(GenerateError::VariantArityError(v.field_count()));
        }
        k = k + 1;
    }
    let name: &str = input.name.as_str();
    let idx: usize = match find_marker(name) {
        Some(i) => i,
        None => {
            return Err(GenerateError::MissingMarkerError);
        },
    };
    let struct_name: &str = name.substring_char(0, idx);
    let mut out: Vec<String> = Vec::new();
    let mut k: usize = 0;
    while k < n
        invariant
            input.data is Enum,
            variants@ == input.data->Enum_0@,
            n == variants@.len(),
            k <= n,
            out@.len() == k as nat,
            variants_ok(variants@),
            input.name@ == name@,
            struct_name@ == struct_prefix(input.name@),
            forall|i: int|
                0 <= i < k ==> (#[trigger] out@[i])@ == conversion_text(
                    input.name@,
                    variants@[i].name@,
                    payload_type(variants@[i]),
                    struct_prefix(input.name@),
                    path,
                ),
        decreases n - k,
    {
        let v: &VariantDecl = &variants[k];
        let inner: &str = match &v.fields {
            FieldsDecl::Unnamed(tys) => tys[0].as_str(),
            FieldsDecl::Named(_) => {
                assert(false);
                ""
            },
            FieldsDecl::Unit => {
                assert(false);
                ""
            },
        };
        let conv: String = conversion_for(name, v.name.as_str(), inner, struct_name, path);
        out.push(conv);
        k = k + 1;
    }
    Ok(out)
}

} // verus!
