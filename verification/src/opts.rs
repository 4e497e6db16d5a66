//! The flags that every command of the client accepts.

use vstd::prelude::*;
use crate::path::{aux_sock_path, joined, root_of, root_path};
use crate::text::{clone_opt, opt_text};

verus! {

/// The flags that every command accepts.
#[derive(Clone, Debug, PartialEq, Eq)]
pub struct GlobalOpts {
    /// The file that receives the log, standard error if none is named.
    pub log: Option<String>,
    /// Log at debug level.
    pub debug: bool,
    /// The format of the log: `text` or `json`.
    pub log_format: Option<String>,
    /// The root directory of the runtime's files.
    pub root: Option<String>,
    /// Use the cgroup manager of systemd.
    pub systemd_cgroup: bool,
    /// The path of the socket of the control server.
    pub vmm_sock: Option<String>,
}

impl GlobalOpts {
    /// Returns the path of the control server's socket: the one that the
    /// flags name, else `aux.sock` under the root that the flags name, else
    /// under the default root.
    ///
    /// `home` is the user's home directory, already resolved by the caller,
    /// and the root that the flags name is taken as resolved too.
    pub fn sock_path(&self, home: Option<String>) -> (sock: String)
        ensures
            sock@ == match self.vmm_sock {
                Some(p) => p@,
                None => joined(root_of(opt_text(self.root), opt_text(home)), "aux.sock"@),
            },
    {
        let root = root_path(clone_opt(&self.root), home);
        aux_sock_path(root.as_str(), clone_opt(&self.vmm_sock))
    }
}

} // verus!
