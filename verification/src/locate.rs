//! The workspace locator: resolves a user-supplied path into a path
//! relative to the workspace root.
//!
//! Paths are treated as plain text with `/` as the separator, exactly as
//! the contracts state; no component normalization is performed. The
//! current working directory is read by the caller and handed in: a caller
//! that cannot represent it in the required text encoding passes `None`.

use vstd::prelude::*;
use vstd::string::*;

use crate::outcome::CommandError;

verus! {

/// Whether a path is absolute: it begins with the separator.
pub open spec fn is_absolute_path(path: Seq<char>) -> bool {
    path.len() > 0 && path[0] == '/'
}

/// The base directory joined with a relative path: a single separator
/// stands between them (none added when the base already ends in one).
pub open spec fn joined_path(base: Seq<char>, path: Seq<char>) -> Seq<char> {
    if base.len() > 0 && base[base.len() - 1] == '/' {
        base + path
    } else {
        base + "/"@ + path
    }
}

/// Whether `abs` lies inside the workspace rooted at `root`: it is the root
/// itself, or continues the root across a separator.
pub open spec fn inside_workspace(abs: Seq<char>, root: Seq<char>) -> bool {
    abs == root || (abs.len() > root.len() && abs.subrange(0, root.len() as int) == root && abs[(
    root.len()) as int] == '/')
}

/// `rel` is `abs` made relative to `root`: empty for the root itself,
/// otherwise everything after the separator that follows the root.
pub open spec fn strips_to(abs: Seq<char>, root: Seq<char>, rel: Seq<char>) -> bool {
    if abs == root {
        rel == Seq::<char>::empty()
    } else {
        &&& abs.len() > root.len()
        &&& abs.subrange(0, root.len() as int) == root
        &&& abs[root.len() as int] == '/'
        &&& rel == abs.subrange(root.len() as int + 1, abs.len() as int)
    }
}

/// Whether a path begins with the separator.
pub fn is_absolute(path: &String) -> (absolute: bool)
    ensures
        absolute == is_absolute_path(path@),
{
    let n = path.as_str().unicode_len();
    n > 0 && path.as_str().get_char(0) == '/'
}

/// Joins a base directory and a relative path with a single separator.
pub fn join_path(base: &String, path: &String) -> (joined: String)
    ensures
        joined@ == joined_path(base@, path@),
{
    let n = base.as_str().unicode_len();
    let mut joined = base.clone();
    if !(n > 0 && base.as_str().get_char(n - 1) == '/') {
        joined.append("/");
    }
    joined.append(path.as_str());
    joined
}

/// Strips the workspace root off an absolute path, when the path lies
/// inside the workspace.
pub fn strip_workspace_prefix(abs: &String, root: &String) -> (result: Option<String>)
    ensures
        match result {
            Some(rel) => strips_to(abs@, root@, rel@),
            None => !inside_workspace(abs@, root@),
        },
{
    let alen = abs.as_str().unicode_len();
    let rlen = root.as_str().unicode_len();
    if alen < rlen {
        return None;
    }
    let mut i: usize = 0;
    while i < rlen
        invariant
            i <= rlen,
            rlen == root@.len(),
            rlen <= alen,
            alen == abs@.len(),
            forall|j: int| 0 <= j < i ==> abs@[j] == root@[j],
        decreases rlen - i,
    {
        if abs.as_str().get_char(i) != root.as_str().get_char(i) {
            proof {
                if abs@ == root@ {
                    assert(abs@[i as int] == root@[i as int]);
                }
                if abs@.len() > root@.len() && abs@.subrange(0, root@.len() as int) == root@ {
                    assert(abs@.subrange(0, root@.len() as int)[i as int] == abs@[i as int]);
                }
            }
            return None;
        }
        i += 1;
    }
    if alen == rlen {
        proof {
            assert(abs@ =~= root@);
        }
        let empty = String::new();
        return Some(empty);
    }
    if abs.as_str().get_char(rlen) == '/' {
        let rel = abs.as_str().substring_char(rlen + 1, alen).to_owned();
        proof {
            assert(abs@.subrange(0, root@.len() as int) =~= root@);
            assert(abs@ != root@);
        }
        Some(rel)
    } else {
        proof {
            assert(abs@ != root@);
        }
        None
    }
}

/// What resolving promises once the absolute form of the path is fixed: a
/// workspace-relative result inside the workspace, or `PathOutsideWorkspace`
/// naming the offending absolute path and the root.
pub open spec fn locate_post(abs: Seq<char>, root: Seq<char>, result: Result<
    String,
    CommandError,
>) -> bool {
    match result {
        Ok(rel) => inside_workspace(abs, root) && strips_to(abs, root, rel@),
        Err(err) => !inside_workspace(abs, root) && (err matches
        CommandError::PathOutsideWorkspace { path: p, workspace_root: w } && p@ == abs && w@
            == root),
    }
}

/// Resolves a user-supplied path into a workspace-relative path.
///
/// An absolute path is used as-is; a relative one is joined to the current
/// working directory, which the caller hands in as `None` when it cannot be
/// represented in the required text encoding. Fails with
/// `PathOutsideWorkspace` when the resolved path is not the workspace root
/// or a descendant of it.
pub fn cwd_rel_to_workspace_rel(path: &String, cwd: &Option<String>, workspace_root: &String) -> (
    result: Result<String, CommandError>)
    ensures
        !is_absolute_path(path@) && cwd is None ==> result matches Err(
            CommandError::InvalidEncoding,
        ),
        is_absolute_path(path@) ==> locate_post(path@, workspace_root@, result),
        cwd matches Some(base) ==> (!is_absolute_path(path@) ==> locate_post(
            joined_path(base@, path@),
            workspace_root@,
            result,
        )),
{
    let abs: String = if is_absolute(path) {
        path.clone()
    } else {
        match cwd {
            Some(base) => join_path(base, path),
            None => {
                return Err(CommandError::InvalidEncoding);
            },
        }
    };
    match strip_workspace_prefix(&abs, workspace_root) {
        Some(rel) => Ok(rel),
        None => Err(
            CommandError::PathOutsideWorkspace {
                path: abs,
                workspace_root: workspace_root.clone(),
            },
        ),
    }
}

} // verus!
