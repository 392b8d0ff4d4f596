//! Filesystem paths, handled as their text.
//!
//! Joining follows `PathBuf::push` on Unix. Splitting a path into its
//! components is done by `std::path::Path::components`.
use vstd::prelude::*;
use crate::text::{owned, push_str, views};

verus! {

/// `base` joined with `part`: an absolute `part` replaces `base`; otherwise a
/// `/` is put between them unless `base` is empty or already ends with one.
pub open spec fn path_join(base: Seq<char>, part: Seq<char>) -> Seq<char> {
    if part.len() > 0 && part[0] == '/' {
        part
    } else if base.len() == 0 {
        part
    } else if base.last() == '/' {
        base + part
    } else {
        base + "/"@ + part
    }
}

/// Joins `part` onto `base` (see [`path_join`]).
pub fn join_path(base: &str, part: &str) -> (r: String)
    ensures
        r@ == path_join(base@, part@),
{
    let b = crate::text::chars_of(base);
    let p = crate::text::chars_of(part);
    if p.len() > 0 && p[0] == '/' {
        return owned(part);
    }
    if b.len() == 0 {
        return owned(part);
    }
    let mut r = owned(base);
    if b[b.len() - 1] != '/' {
        push_str(&mut r, "/");
    }
    push_str(&mut r, part);
    r
}

/// What `Path::components` yields for a path, each component as text: `/` for
/// the root, `.` and `..` for the current and parent directory, the name for a
/// normal component.
pub uninterp spec fn components_of(path: Seq<char>) -> Seq<Seq<char>>;

/// The components of a path, as `Path::components` yields them (the root as
/// `/`, the current and parent directories as `.` and `..`, a prefix as its
/// text); the result is the one `components_of` names.
#[verifier::external_body]
pub(crate) fn path_components(path: &str) -> (r: Vec<String>)
    ensures
        views(r@) == components_of(path@),
{
    std::path::Path::new(path).components().map(|c| c.as_os_str().to_string_lossy().into_owned()).collect()
}

/// A component that is a directory's own name (not the root, `.` or `..`).
pub open spec fn is_name(c: Seq<char>) -> bool {
    c != "/"@ && c != "."@ && c != ".."@
}

/// The final component of a path when it is a name (`Path::file_name`).
pub open spec fn file_name_of(components: Seq<Seq<char>>) -> Option<Seq<char>> {
    if components.len() > 0 && is_name(components.last()) {
        Some(components.last())
    } else {
        None
    }
}

/// `Path::exists`: whether something is at the path. Nothing is claimed of
/// the answer, which depends on the filesystem.
#[verifier::external_body]
pub(crate) fn path_exists(path: &str) -> bool {
    std::path::Path::new(path).exists()
}

} // verus!
