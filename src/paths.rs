//! Output path resolution: a sibling file named `{stem}_processed.{ext}`,
//! or an explicit path used verbatim.

use vstd::prelude::*;

verus! {

/// The final component of a path, as `Path::file_name` computes it
/// (`None` where the path ends in `..` or is a bare root or prefix).
pub uninterp spec fn file_name_of(path: Seq<char>) -> Option<Seq<char>>;

/// The path that `PathBuf::set_file_name` yields for `path` and `name`.
pub uninterp spec fn with_file_name_of(path: Seq<char>, name: Seq<char>) -> Seq<char>;

/// `k` is the position of the final `.` of `name`, and that dot is not its first character.
pub open spec fn is_final_inner_dot(name: Seq<char>, k: int) -> bool {
    &&& 0 < k < name.len()
    &&& name[k] == '.'
    &&& forall|j: int| k < j < name.len() ==> name[j] != '.'
}

pub open spec fn has_inner_dot(name: Seq<char>) -> bool {
    exists|k: int| is_final_inner_dot(name, k)
}

/// A file name without its extension: the part before the final `.`, or the
/// whole name where it holds no `.` after its first character.
pub open spec fn stem_part(name: Seq<char>) -> Seq<char> {
    if has_inner_dot(name) {
        let k = choose|k: int| is_final_inner_dot(name, k);
        name.subrange(0, k)
    } else {
        name
    }
}

/// The extension of a file name: the part after the final `.`, where that
/// dot is not the name's first character.
pub open spec fn extension_part(name: Seq<char>) -> Option<Seq<char>> {
    if has_inner_dot(name) {
        let k = choose|k: int| is_final_inner_dot(name, k);
        Some(name.subrange(k + 1, name.len() as int))
    } else {
        None
    }
}

pub open spec fn stem_in(file_name: Option<Seq<char>>) -> Option<Seq<char>> {
    match file_name {
        Some(name) => Some(stem_part(name)),
        None => None,
    }
}

pub open spec fn extension_in(file_name: Option<Seq<char>>) -> Option<Seq<char>> {
    match file_name {
        Some(name) => extension_part(name),
        None => None,
    }
}

pub open spec fn view_of(s: Option<String>) -> Option<Seq<char>> {
    match s {
        Some(t) => Some(t@),
        None => None,
    }
}

pub open spec fn default_stem() -> Seq<char> {
    "screenshot"@
}

pub open spec fn default_extension() -> Seq<char> {
    "png"@
}

pub open spec fn or_default(s: Option<Seq<char>>, d: Seq<char>) -> Seq<char> {
    match s {
        Some(t) => t,
        None => d,
    }
}

/// `{stem}_processed.{ext}`, with `screenshot` for a missing stem and `png`
/// for a missing extension.
pub open spec fn processed_name_spec(stem: Option<Seq<char>>, ext: Option<Seq<char>>) -> Seq<char> {
    or_default(stem, default_stem()) + "_processed."@ + or_default(ext, default_extension())
}

/// The path a result is written to when the request names none.
pub open spec fn derived_out_path(path: Seq<char>) -> Seq<char> {
    with_file_name_of(path, processed_name_spec(
        stem_in(file_name_of(path)),
        extension_in(file_name_of(path)),
    ))
}

pub open spec fn resolved_out_path(path: Seq<char>, out_path: Option<Seq<char>>) -> Seq<char> {
    match out_path {
        Some(p) => p,
        None => derived_out_path(path),
    }
}

/// Relies on `Path::file_stem`: the file name with its final extension
/// removed, by the rules that std documents for it.
#[verifier::external_body]
fn file_stem(path: &str) -> (r: Option<String>)
    ensures
        view_of(r) == stem_in(file_name_of(path@)),
{
    std::path::Path::new(path).file_stem().and_then(|s| s.to_str()).map(|s| s.to_string())
}

/// Relies on `Path::extension`: the part of the file name after its final
/// `.`, by the rules that std documents for it.
#[verifier::external_body]
fn file_extension(path: &str) -> (r: Option<String>)
    ensures
        view_of(r) == extension_in(file_name_of(path@)),
{
    std::path::Path::new(path).extension().and_then(|s| s.to_str()).map(|s| s.to_string())
}

/// Relies on `PathBuf::set_file_name`: replaces the final component of the
/// path by `name`, or appends `name` where the path has no file name.
#[verifier::external_body]
fn replace_file_name(path: &str, name: &str) -> (r: String)
    ensures
        r@ == with_file_name_of(path@, name@),
{
    let mut p = std::path::PathBuf::from(path);
    p.set_file_name(name);
    p.to_string_lossy().into_owned()
}

/// The file name `{stem}_processed.{ext}` for a stem and an extension taken
/// from an input path, each replaced by its default where absent.
pub fn processed_file_name(stem: Option<String>, ext: Option<String>) -> (r: String)
    ensures
        r@ == processed_name_spec(view_of(stem), view_of(ext)),
{
    let mut name = match stem {
        Some(s) => s,
        None => String::from_str("screenshot"),
    };
    name.append("_processed.");
    match ext {
        Some(e) => name.append(e.as_str()),
        None => name.append("png"),
    }
    name
}

/// The path the processed image is written to: `out_path` verbatim when
/// given, else the sibling of `path` named `{stem}_processed.{ext}`.
pub fn resolve_out_path(path: &str, out_path: Option<String>) -> (r: String)
    ensures
        r@ == resolved_out_path(path@, view_of(out_path)),
{
    match out_path {
        Some(p) => p,
        None => {
            let stem = file_stem(path);
            let ext = file_extension(path);
            let name = processed_file_name(stem, ext);
            replace_file_name(path, name.as_str())
        },
    }
}

} // verus!
