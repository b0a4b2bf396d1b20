//! Paths as text, and the path operations of the standard library on them.
//!
//! The functions of this module call `std::path`. Verus does not look into
//! those calls: it takes each function's contract on trust. What such a call
//! returns depends on the texts handed to it alone; the path syntax is that
//! of the target platform, fixed when the crate is built. The contracts do
//! not spell the results out: each result has a name, and the rest of the
//! library is proved over those names.
//!
//! The operations cut and join the texts at path separators only, so what
//! they return is text again.

use std::path::Path;
use std::path::StripPrefixError;
use vstd::prelude::*;

verus! {

/// The error of `Path::strip_prefix`. It says no more than that the base
/// was no prefix.
#[verifier::external_type_specification]
#[verifier::external_body]
pub struct ExStripPrefixError(StripPrefixError);

/// What `Path::strip_prefix` returns for the path `path` and the base
/// `base`: the rest of `path` after `base`, or `None`, where the call
/// returns an error because `base` is no prefix of `path`.
pub uninterp spec fn stripped_prefix(path: Seq<char>, base: Seq<char>) -> Option<Seq<char>>;

/// What `Path::join` returns for the path `base` and the path `tail` that
/// is adjoined to it.
pub uninterp spec fn joined_path(base: Seq<char>, tail: Seq<char>) -> Seq<char>;

/// What `Path::with_extension` returns for the path `path` and the
/// extension `ext`.
pub uninterp spec fn extension_replaced(path: Seq<char>, ext: Seq<char>) -> Seq<char>;

/// What `Path::parent` returns for the path `path`: the path without its
/// final component, or `None` where it has none to drop.
pub uninterp spec fn parent_path(path: Seq<char>) -> Option<Seq<char>>;

/// Text that can stand as a file extension: it holds no path separator of
/// any platform.
pub open spec fn is_extension(ext: Seq<char>) -> bool {
    forall|i: int| 0 <= i < ext.len() ==> ext[i] != '/' && ext[i] != '\\'
}

/// Calls `Path::strip_prefix`. Trusted: the call returns what
/// `stripped_prefix` names, with its error in place of `None`.
#[verifier::external_body]
pub(crate) fn strip_prefix(path: &str, base: &str) -> (r: Result<String, StripPrefixError>)
    ensures
        match r {
            Ok(rest) => stripped_prefix(path@, base@) == Some(rest@),
            Err(_) => stripped_prefix(path@, base@) is None,
        },
{
    match Path::new(path).strip_prefix(base) {
        Ok(rest) => Ok(rest.to_string_lossy().into_owned()),
        Err(e) => Err(e),
    }
}

/// Calls `Path::join`. Trusted: the call returns what `joined_path` names.
#[verifier::external_body]
pub(crate) fn join(base: &str, tail: &str) -> (r: String)
    ensures
        r@ == joined_path(base@, tail@),
{
    Path::new(base).join(tail).to_string_lossy().into_owned()
}

/// Calls `Path::with_extension`, which panics where the extension holds a
/// path separator: such an extension is left out. Trusted: the call returns
/// what `extension_replaced` names.
#[verifier::external_body]
pub(crate) fn with_extension(path: &str, ext: &str) -> (r: String)
    requires
        is_extension(ext@),
    ensures
        r@ == extension_replaced(path@, ext@),
{
    Path::new(path).with_extension(ext).to_string_lossy().into_owned()
}

/// Calls `Path::parent`. Trusted: the call returns what `parent_path`
/// names.
#[verifier::external_body]
pub(crate) fn parent(path: &str) -> (r: Option<String>)
    ensures
        match r {
            Some(dir) => parent_path(path@) == Some(dir@),
            None => parent_path(path@) is None,
        },
{
    match Path::new(path).parent() {
        Some(dir) => Some(dir.to_string_lossy().into_owned()),
        None => None,
    }
}

} // verus!
