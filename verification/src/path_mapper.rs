//! The path mapper: from a container's path under the source root to the
//! image's path under the target root.

use crate::path_text::extension_replaced;
use crate::path_text::is_extension;
use crate::path_text::join;
use crate::path_text::joined_path;
use crate::path_text::strip_prefix;
use crate::path_text::stripped_prefix;
use crate::path_text::with_extension;
use vstd::prelude::*;

verus! {

/// Why a path could not be mapped.
#[derive(Clone, Copy, Debug, PartialEq, Eq, Structural)]
pub enum PathError {
    /// The path does not lie under the source root.
    NotUnderSourceRoot,
}

/// `p` with its prefix `from` replaced by `to`; `None` where `from` is no
/// prefix of `p`.
pub open spec fn replaced_prefix(p: Seq<char>, from: Seq<char>, to: Seq<char>) -> Option<
    Seq<char>,
> {
    match stripped_prefix(p, from) {
        Some(rest) => Some(joined_path(to, rest)),
        None => None,
    }
}

/// Moves `p` from under `from` to under `to`: strips `from` off `p` and
/// joins the rest onto `to`. Fails exactly when `p` is not under `from`.
pub fn replace_prefix(p: &str, from: &str, to: &str) -> (r: Result<String, PathError>)
    ensures
        r is Ok <==> stripped_prefix(p@, from@) is Some,
        match r {
            Ok(moved) => replaced_prefix(p@, from@, to@) == Some(moved@),
            Err(e) => e == PathError::NotUnderSourceRoot && replaced_prefix(p@, from@, to@)
                is None,
        },
{
    match strip_prefix(p, from) {
        Ok(rest) => Ok(join(to, rest.as_str())),
        Err(_) => Err(PathError::NotUnderSourceRoot),
    }
}

/// The image path for the container `file`: `file` moved from under
/// `source_root` to under `target_root`, its extension replaced by `ext`.
/// `None` where `file` is not under `source_root`.
pub open spec fn mapped_path(
    file: Seq<char>,
    source_root: Seq<char>,
    target_root: Seq<char>,
    ext: Seq<char>,
) -> Option<Seq<char>> {
    match replaced_prefix(file, source_root, target_root) {
        Some(moved) => Some(extension_replaced(moved, ext)),
        None => None,
    }
}

/// Maps the path of a container under `source_root` to the path of its
/// image under `target_root`, with `ext` in place of whatever extension the
/// container had. Fails exactly when `file` is not under `source_root`.
///
/// `ext` holds no path separator: the standard library panics on an
/// extension that does.
pub fn map_path(file: &str, source_root: &str, target_root: &str, ext: &str) -> (r: Result<
    String,
    PathError,
>)
    requires
        is_extension(ext@),
    ensures
        r is Ok <==> stripped_prefix(file@, source_root@) is Some,
        match r {
            Ok(target) => mapped_path(file@, source_root@, target_root@, ext@) == Some(target@),
            Err(e) => e == PathError::NotUnderSourceRoot && mapped_path(
                file@,
                source_root@,
                target_root@,
                ext@,
            ) is None,
        },
{
    match replace_prefix(file, source_root, target_root) {
        Ok(moved) => Ok(with_extension(moved.as_str(), ext)),
        Err(e) => Err(e),
    }
}

} // verus!
