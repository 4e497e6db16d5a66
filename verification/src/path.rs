//! Where the runtime keeps its files.

use vstd::prelude::*;
use vstd::string::StringExecFns;
use vstd::string::StrSliceExecFns;
use crate::text::opt_text;

verus! {

/// Tells whether a path starts at the root of the file system.
pub open spec fn is_absolute(path: Seq<char>) -> bool {
    path.len() > 0 && path[0] == '/'
}

/// Tells whether a path starts at the root of the file system.
pub fn starts_at_root(path: &str) -> (yes: bool)
    ensures
        yes == is_absolute(path@),
{
    path.unicode_len() > 0 && path.get_char(0) == '/'
}

/// A path extended by another, as `Path::join` extends it on Unix: an
/// absolute second path stands alone; a relative one is appended, behind a
/// separator unless the first path is empty or ends in one.
pub open spec fn joined(base: Seq<char>, leaf: Seq<char>) -> Seq<char> {
    if is_absolute(leaf) {
        leaf
    } else if base.len() == 0 || base.last() == '/' {
        base + leaf
    } else {
        base + seq!['/'] + leaf
    }
}

/// The root of the runtime's files: the path asked for, else `.akari/run`
/// under the home directory, else `/run/akari`.
pub open spec fn root_of(path: Option<Seq<char>>, home: Option<Seq<char>>) -> Seq<char> {
    match path {
        Some(p) => p,
        None => match home {
            Some(h) => joined(h, ".akari/run"@),
            None => "/run/akari"@,
        },
    }
}

/// Extends a path by another.
pub fn join(base: &str, leaf: &str) -> (path: String)
    ensures
        path@ == joined(base@, leaf@),
{
    if starts_at_root(leaf) {
        return String::from_str(leaf);
    }
    let n = base.unicode_len();
    if n == 0 || base.get_char(n - 1) == '/' {
        String::from_str(base).concat(leaf)
    } else {
        proof {
            reveal_strlit("/");
            assert("/"@ =~= seq!['/']);
        }
        String::from_str(base).concat("/").concat(leaf)
    }
}

/// Returns the root of the runtime's files.
///
/// `path` is the root that the command line names and `home` the user's home
/// directory, each already resolved by the caller, or `None` where it is
/// missing or cannot be resolved.
pub fn root_path(path: Option<String>, home: Option<String>) -> (root: String)
    ensures
        root@ == root_of(opt_text(path), opt_text(home)),
{
    match path {
        Some(p) => p,
        None => match home {
            Some(h) => join(h.as_str(), ".akari/run"),
            None => String::from_str("/run/akari"),
        },
    }
}

/// Returns the path of the auxiliary socket: the one asked for, else
/// `aux.sock` under the root.
pub fn aux_sock_path(root_path: &str, path: Option<String>) -> (sock: String)
    ensures
        sock@ == match path {
            Some(p) => p@,
            None => joined(root_path@, "aux.sock"@),
        },
{
    match path {
        Some(p) => p,
        None => join(root_path, "aux.sock"),
    }
}

/// Returns the path of the VM console socket: the one asked for, else
/// `console.sock` under the root.
pub fn console_sock_path(root_path: &str, path: Option<String>) -> (sock: String)
    ensures
        sock@ == match path {
            Some(p) => p@,
            None => joined(root_path@, "console.sock"@),
        },
{
    match path {
        Some(p) => p,
        None => join(root_path, "console.sock"),
    }
}

/// Returns the path of the VM's description under the root: `vm.json.base`.
pub fn vm_config_path(root_path: &str) -> (file: String)
    ensures
        file@ == joined(root_path@, "vm.json.base"@),
{
    join(root_path, "vm.json.base")
}

/// Returns the path of the directory under the root that the VM shares with
/// its guest: `shared`.
pub fn shared_path(root_path: &str) -> (dir: String)
    ensures
        dir@ == joined(root_path@, "shared"@),
{
    join(root_path, "shared")
}

} // verus!
