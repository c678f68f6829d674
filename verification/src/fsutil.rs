//! Filesystem access and path handling. Whether a path exists, what it
//! canonicalizes to and how large the file is are questions to the
//! machine, answered through trusted wrappers; the path arithmetic
//! around them is verified. Paths are handled in the Unix convention:
//! absolute means starting with a slash.

use vstd::prelude::*;

use crate::error::{MigError, MigErrorKind};
use crate::strutil::{has_prefix, has_suffix, str_has_prefix, str_has_suffix};

verus! {

/// Relies on std::path::Path::exists: whether the path points at an
/// existing entity on disk. A question to the machine: no contract
/// beyond the call itself.
#[verifier::external_body]
pub fn file_exists(file: &str) -> bool {
    std::path::Path::new(file).exists()
}

/// Relies on std::path::Path::metadata: stats the path and reports
/// whether it is a directory. Failure to stat is wrapped as an upstream
/// error.
#[verifier::external_body]
fn metadata_is_dir(name: &str) -> (r: Result<bool, MigError>)
    ensures
        r matches Err(e) ==> e.spec_kind() == MigErrorKind::Upstream,
{
    match std::path::Path::new(name).metadata() {
        Ok(md) => Ok(md.file_type().is_dir()),
        Err(_) => Err(
            MigError::from_remark(MigErrorKind::Upstream, "failed to retrieve metadata for path"),
        ),
    }
}

/// Relies on std::path::Path::canonicalize: resolves symlinks and `.`
/// and `..` segments to an absolute path. Fails when the path does not
/// exist; the failure is wrapped as an upstream error.
#[verifier::external_body]
pub(crate) fn canonicalize(name: &str) -> (r: Result<String, MigError>)
    ensures
        r matches Err(e) ==> e.spec_kind() == MigErrorKind::Upstream,
{
    match std::path::Path::new(name).canonicalize() {
        Ok(p) => Ok(p.to_string_lossy().into_owned()),
        Err(_) => Err(
            MigError::from_remark(MigErrorKind::Upstream, "failed to canonicalize path"),
        ),
    }
}

/// Relies on std::path::Path::metadata: the size in bytes of the file at
/// the path. Failure to stat an existing path is an error (permission
/// or race), wrapped as upstream.
#[verifier::external_body]
pub(crate) fn file_size(name: &str) -> (r: Result<u64, MigError>)
    ensures
        r matches Err(e) ==> e.spec_kind() == MigErrorKind::Upstream,
{
    match std::path::Path::new(name).metadata() {
        Ok(md) => Ok(md.len()),
        Err(_) => Err(
            MigError::from_remark(MigErrorKind::Upstream, "failed to retrieve metadata for path"),
        ),
    }
}

/// Whether the path points at a directory: false for a path that does
/// not exist, an error only when an existing path cannot be statted.
pub fn dir_exists(name: &str) -> (r: Result<bool, MigError>)
    ensures
        r matches Err(e) ==> e.spec_kind() == MigErrorKind::Upstream,
{
    if file_exists(name) {
        metadata_is_dir(name)
    } else {
        Ok(false)
    }
}

/// A path is absolute when it starts with a slash.
pub open spec fn spec_is_absolute(p: Seq<char>) -> bool {
    has_prefix(p, "/"@)
}

/// Whether the path is absolute.
pub fn path_is_absolute(p: &str) -> (r: bool)
    ensures
        r == spec_is_absolute(p@),
{
    str_has_prefix(p, "/")
}

/// The join of a directory and a path: an absolute path stands alone;
/// otherwise the two are joined with exactly one slash between them.
pub open spec fn spec_path_append(dir: Seq<char>, file: Seq<char>) -> Seq<char> {
    if spec_is_absolute(file) {
        file
    } else if has_suffix(dir, "/"@) {
        dir + file
    } else {
        dir + "/"@ + file
    }
}

/// Joins a directory and a path.
pub fn path_append(dir: &str, file: &str) -> (r: String)
    ensures
        r@ == spec_path_append(dir@, file@),
{
    if path_is_absolute(file) {
        file.to_owned()
    } else if str_has_suffix(dir, "/") {
        let mut s = dir.to_owned();
        s.append(file);
        s
    } else {
        let mut s = dir.to_owned();
        s.append("/");
        s.append(file);
        s
    }
}

/// The index of the last slash in `p`, if any.
pub open spec fn spec_last_slash(p: Seq<char>) -> Option<int> {
    if exists|i: int| 0 <= i < p.len() && p[i] == '/' {
        Some(choose|i: int|
            0 <= i < p.len() && p[i] == '/' && forall|j: int| i < j < p.len() ==> p[j] != '/')
    } else {
        None
    }
}

/// The parent of a path: everything before the last slash, the root for
/// a direct child of the root, and the empty path when there is no
/// slash at all.
pub open spec fn spec_path_parent(p: Seq<char>) -> Seq<char> {
    match spec_last_slash(p) {
        None => Seq::<char>::empty(),
        Some(i) => if i == 0 {
            "/"@
        } else {
            p.subrange(0, i)
        },
    }
}

/// The directory containing the entity at `p`.
pub fn path_parent(p: &str) -> (r: String)
    ensures
        r@ == spec_path_parent(p@),
{
    let n = p.unicode_len();
    let mut i: usize = n;
    while i > 0
        invariant
            n == p@.len(),
            0 <= i <= n,
            forall|j: int| i <= j < n ==> p@[j] != '/',
        decreases i,
    {
        if p.get_char(i - 1) == '/' {
            let k: usize = i - 1;
            assert(p@[k as int] == '/' && forall|j: int| k < j < p@.len() ==> p@[j] != '/');
            assert(spec_last_slash(p@) matches Some(s) && s == k as int) by {
                let s = choose|si: int|
                    0 <= si < p@.len() && p@[si] == '/' && forall|j: int|
                        si < j < p@.len() ==> p@[j] != '/';
                if s < k as int {
                    assert(p@[k as int] == '/');
                } else if s > k as int {
                    assert(p@[s] == '/');
                }
            }
            if k == 0 {
                return "/".to_owned();
            }
            return p.substring_char(0, k).to_owned();
        }
        i -= 1;
    }
    assert(spec_last_slash(p@) is None);
    String::new()
}

} // verus!
