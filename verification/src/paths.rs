//! Paths as text: the relative path of a watched file, and where a received
//! file goes. The path rules themselves are those of `std::path`.

use vstd::prelude::*;

verus! {

/// What `std::path::Path::strip_prefix` leaves of a path under a base, as
/// text; `None` where the path does not start with the base.
pub uninterp spec fn path_without_prefix(path: Seq<char>, base: Seq<char>) -> Option<Seq<char>>;

/// The text of the path that `std::path::Path::join` makes of a base and a
/// second path.
pub uninterp spec fn path_joined(base: Seq<char>, second: Seq<char>) -> Seq<char>;

/// The text of the path that `std::path::Path::parent` gives; `None` where
/// the path has no parent.
pub uninterp spec fn path_parent(path: Seq<char>) -> Option<Seq<char>>;

/// Calls `std::path::Path::strip_prefix`. Trusted: the outcome depends on the
/// two texts alone.
#[verifier::external_body]
fn strip_prefix(path: &str, base: &str) -> (r: Option<String>)
    ensures
        match r {
            Some(rest) => path_without_prefix(path@, base@) == Some(rest@),
            None => path_without_prefix(path@, base@) is None,
        },
{
    match std::path::Path::new(path).strip_prefix(base) {
        Ok(rest) => Some(rest.to_string_lossy().into_owned()),
        Err(_) => None,
    }
}

/// Calls `std::path::Path::join`. Trusted: the outcome depends on the two
/// texts alone.
#[verifier::external_body]
fn join(base: &str, second: &str) -> (r: String)
    ensures
        r@ == path_joined(base@, second@),
{
    std::path::Path::new(base).join(second).to_string_lossy().into_owned()
}

/// Calls `std::path::Path::parent`. Trusted: the outcome depends on the text
/// alone.
#[verifier::external_body]
fn parent(path: &str) -> (r: Option<String>)
    ensures
        match r {
            Some(dir) => path_parent(path@) == Some(dir@),
            None => path_parent(path@) is None,
        },
{
    std::path::Path::new(path).parent().map(|dir| dir.to_string_lossy().into_owned())
}

/// The path under which a file is mirrored: the path without the watch root
/// in front, or the whole path where it does not lie under the root.
pub open spec fn relative_spec(path: Seq<char>, watch_root: Seq<char>) -> Seq<char> {
    match path_without_prefix(path, watch_root) {
        Some(rest) => rest,
        None => path,
    }
}

/// Chooses the mirrored path from the outcome of stripping the watch root.
pub fn relative_from(stripped: Option<String>, path: &str) -> (r: String)
    ensures
        r@ == match stripped {
            Some(rest) => rest@,
            None => path@,
        },
{
    match stripped {
        Some(rest) => rest,
        None => path.to_owned(),
    }
}

/// The path of a watched file relative to the watch root.
pub fn relative_path(path: &str, watch_root: &str) -> (r: String)
    ensures
        r@ == relative_spec(path@, watch_root@),
{
    relative_from(strip_prefix(path, watch_root), path)
}

/// Where a received file is written, and the directory to create first.
#[derive(Debug, Clone, PartialEq, Eq)]
pub struct Destination {
    /// The file to create or truncate.
    pub file: String,
    /// The directory that must exist before the file is created, if any.
    pub parent: Option<String>,
}

impl Destination {
    /// Whether this is where `relative` goes under `root`.
    pub open spec fn resolves(&self, root: Seq<char>, relative: Seq<char>) -> bool {
        &&& self.file@ == path_joined(root, relative)
        &&& match self.parent {
            Some(dir) => path_parent(self.file@) == Some(dir@),
            None => path_parent(self.file@) is None,
        }
    }
}

/// Resolves the destination of a transfer: the receiver's root joined with
/// the relative path as it stands, and that path's parent directory.
pub fn resolve_destination(root: &str, relative: &str) -> (r: Destination)
    ensures
        r.resolves(root@, relative@),
{
    let file = join(root, relative);
    let parent = parent(file.as_str());
    Destination { file, parent }
}

} // verus!
