//! `spec`: write a default container configuration into a bundle.

use vstd::prelude::*;
use vstd::string::StringExecFns;
use crate::commands::error::{Error, ErrorView};
use crate::path::{join, joined};

verus! {

/// The host name that a default configuration gives a container.
pub open spec fn default_hostname() -> Seq<char> {
    "akari"@
}

/// Returns the host name that a default configuration gives a container.
pub fn hostname() -> (name: String)
    ensures
        name@ == default_hostname(),
{
    String::from_str("akari")
}

/// Returns the path at which `spec` writes the configuration: `config.json`
/// in the bundle, or in the current directory where no bundle is named.
///
/// Fails with `RootlessNotSupported` if a rootless container is asked for,
/// and in no other case.
pub fn spec(bundle: Option<String>, rootless: bool) -> (result: Result<String, Error>)
    ensures
        match result {
            Ok(file) => !rootless && file@ == joined(
                match bundle {
                    Some(b) => b@,
                    None => "."@,
                },
                "config.json"@,
            ),
            Err(e) => rootless && e@ == ErrorView::RootlessNotSupported,
        },
{
    if rootless {
        return Err(Error::RootlessNotSupported);
    }
    match bundle {
        Some(b) => Ok(join(b.as_str(), "config.json")),
        None => Ok(join(".", "config.json")),
    }
}

} // verus!
