//! Requests that the control server ships to the guest agent.

use vstd::prelude::*;

verus! {

/// The vsock port on which the guest agent accepts `Create`.
pub const DEFAULT_AGENT_PORT: u32 = 9999;

/// A request to the guest agent about one container.
#[derive(Clone, Copy, Debug, PartialEq, Eq, Structural)]
pub enum ContainerCommand {
    /// Create the container. The number is the vsock port on which the host
    /// will address every later request for it; the caller attaches the
    /// container's runtime configuration.
    Create(u32),
    Delete,
    Kill,
    Start,
    State,
}

} // verus!
