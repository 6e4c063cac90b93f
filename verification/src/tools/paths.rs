//! Keeping tool paths inside the workspace.
use vstd::prelude::*;

use crate::entities::tool::ToolError;
use crate::text::{chars_of, ends_with, ends_with_chars, slice_chars, starts_with, starts_with_chars, string_from_chars};

verus! {

/// `path` lies in `root` (`Path::starts_with` on canonical paths, which are
/// absolute and have no empty, `.` or `..` segments): equal to it, or below
/// it at a `/` boundary.
pub open spec fn within_root(path: Seq<char>, root: Seq<char>) -> bool {
    path == root || (starts_with(path, root) && (ends_with(root, "/"@) || (path.len() > root.len()
        && path[root.len() as int] == '/')))
}

/// `path` relative to `root` (`Path::strip_prefix` on canonical paths), or
/// `path` itself when it does not lie in `root`.
pub open spec fn relative_to(path: Seq<char>, root: Seq<char>) -> Seq<char> {
    if !within_root(path, root) {
        path
    } else if path == root {
        seq![]
    } else if ends_with(root, "/"@) {
        path.skip(root.len() as int)
    } else {
        path.skip(root.len() + 1int)
    }
}

pub fn is_within_root(path: &str, root: &str) -> (r: bool)
    ensures
        r == within_root(path@, root@),
{
    let p = chars_of(path);
    let rt = chars_of(root);
    if crate::text::chars_eq(&p, &rt) {
        return true;
    }
    if !starts_with_chars(&p, &rt) {
        return false;
    }
    let slash = chars_of("/");
    proof {
        reveal_strlit("/");
    }
    ends_with_chars(&rt, &slash) || (p.len() > rt.len() && p[rt.len()] == '/')
}

pub fn relative_path(path: &str, root: &str) -> (r: String)
    ensures
        r@ == relative_to(path@, root@),
{
    let p = chars_of(path);
    if !is_within_root(path, root) {
        return String::from_str(path);
    }
    let rt = chars_of(root);
    if crate::text::chars_eq(&p, &rt) {
        return String::new();
    }
    let slash = chars_of("/");
    proof {
        reveal_strlit("/");
    }
    let start = if ends_with_chars(&rt, &slash) {
        rt.len()
    } else {
        rt.len() + 1
    };
    let rest = slice_chars(&p, start, p.len());
    string_from_chars(rest.as_slice())
}

/// The message for a path that escapes the workspace.
pub open spec fn outside_root_text(path_arg: Seq<char>) -> Seq<char> {
    "path '"@ + path_arg + "' is outside workspace root"@
}

/// Confirms that a resolved path lies in the resolved workspace root;
/// otherwise the call is unauthorized.
pub fn confine(resolved: &str, root: &str, path_arg: &str) -> (r: Result<(), ToolError>)
    ensures
        within_root(resolved@, root@) ==> r is Ok,
        !within_root(resolved@, root@) ==> (r matches Err(ToolError::Unauthorized(m)) && m@
            == outside_root_text(path_arg@)),
{
    if is_within_root(resolved, root) {
        Ok(())
    } else {
        Err(
            ToolError::Unauthorized(
                String::from_str("path '").concat(path_arg).concat("' is outside workspace root"),
            ),
        )
    }
}

/// `root` joined with `path` (`Path::join`): an absolute `path` replaces
/// the root; otherwise it is appended after a `/` unless the root is empty or
/// already ends with one.
pub open spec fn joined(root: Seq<char>, path: Seq<char>) -> Seq<char> {
    if starts_with(path, "/"@) {
        path
    } else if root.len() == 0 || ends_with(root, "/"@) {
        root + path
    } else {
        root + "/"@ + path
    }
}

pub fn join_path(root: &str, path: &str) -> (r: String)
    ensures
        r@ == joined(root@, path@),
{
    let slash = chars_of("/");
    proof {
        reveal_strlit("/");
    }
    if starts_with_chars(&chars_of(path), &slash) {
        String::from_str(path)
    } else if root.is_empty() || ends_with_chars(&chars_of(root), &slash) {
        String::from_str(root).concat(path)
    } else {
        String::from_str(root).concat("/").concat(path)
    }
}

} // verus!
