//! Paths as text, taken apart, joined and cleaned by the path libraries.
//!
//! Nothing here is proved: each function hands its arguments to `std::path`
//! or to `path_clean` and gives the answer a name, so that the functions built
//! on them can say exactly which path they return. The answers follow the path
//! rules of the platform that the library is built for; the names stand for
//! the answers on that platform.

use vstd::prelude::*;

verus! {

/// The path that `path_clean::clean` makes of `path`.
pub uninterp spec fn cleaned_path(path: Seq<char>) -> Seq<char>;

/// The stem that `std::path::Path::file_stem` finds in `path`.
pub uninterp spec fn file_stem_of(path: Seq<char>) -> Option<Seq<char>>;

/// The extension that `std::path::Path::extension` finds in `path`.
pub uninterp spec fn extension_of(path: Seq<char>) -> Option<Seq<char>>;

/// The path that `std::path::Path::join` makes of `base` and `name`.
pub uninterp spec fn joined_path(base: Seq<char>, name: Seq<char>) -> Seq<char>;

/// Calls `path_clean::clean`, which removes `.` elements, repeated
/// separators and `..` elements together with the element before them, without
/// looking at the file system. It reads nothing but `path`, so the result is
/// given the name `cleaned_path(path)`; no more is claimed of it.
#[verifier::external_body]
pub(crate) fn clean_path(path: &str) -> (cleaned: String)
    ensures
        cleaned@ == cleaned_path(path@),
{
    path_clean::clean(path).to_string_lossy().into_owned()
}

/// Calls `std::path::Path::file_stem`: the file name without its extension,
/// or nothing where the path has no file name. It reads nothing but `path`, so
/// the result is given the name `file_stem_of(path)`; no more is claimed of it.
#[verifier::external_body]
pub(crate) fn file_stem(path: &str) -> (stem: Option<String>)
    ensures
        stem is Some <==> file_stem_of(path@) is Some,
        stem matches Some(s) ==> file_stem_of(path@) == Some(s@),
{
    std::path::Path::new(path).file_stem().map(|s| s.to_string_lossy().into_owned())
}

/// Calls `std::path::Path::extension`: what follows the last dot of the file
/// name, or nothing where there is no file name or no such dot. It reads
/// nothing but `path`, so the result is given the name `extension_of(path)`; no
/// more is claimed of it.
#[verifier::external_body]
pub(crate) fn extension(path: &str) -> (ext: Option<String>)
    ensures
        ext is Some <==> extension_of(path@) is Some,
        ext matches Some(e) ==> extension_of(path@) == Some(e@),
{
    std::path::Path::new(path).extension().map(|s| s.to_string_lossy().into_owned())
}

/// Calls `std::path::Path::join`: `name` adjoined to `base`. It reads nothing
/// but its two arguments, so the result is given the name
/// `joined_path(base, name)`; no more is claimed of it.
#[verifier::external_body]
pub(crate) fn join(base: &str, name: &str) -> (joined: String)
    ensures
        joined@ == joined_path(base@, name@),
{
    std::path::Path::new(base).join(name).to_string_lossy().into_owned()
}

} // verus!
