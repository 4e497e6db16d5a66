//! `connect`: open a further connection to a running container.

use vstd::prelude::*;
use crate::api::Command;

verus! {

/// The arguments of `connect`.
#[derive(Clone, Debug, PartialEq, Eq)]
pub struct Connect {
    pub container_id: String,
    pub port: u32,
}

impl Connect {
    /// Returns the operation that the arguments ask of the control server,
    /// on the container that they name.
    pub fn command(&self) -> (command: Command)
        ensures
            command == Command::Connect(self.port),
    {
        Command::Connect(self.port)
    }
}

} // verus!
