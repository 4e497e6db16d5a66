//! `state`: the state of a container, as the runtime specification of the
//! Open Container Initiative words it.

use vstd::prelude::*;
use vstd::string::StringExecFns;
use crate::api::{Response, VmStatus};

verus! {

/// The runtime state of a container.
#[derive(Clone, Copy, Debug, PartialEq, Eq, Structural)]
pub enum ContainerStatus {
    /// The container is being created.
    Creating,
    /// The runtime has finished the create operation.
    Created,
    /// The container is running.
    Running,
    /// The container has exited.
    Stopped,
}

/// The container status that stands for a status of the control server.
pub open spec fn status_of(status: VmStatus) -> ContainerStatus {
    match status {
        VmStatus::Creating => ContainerStatus::Creating,
        VmStatus::Created => ContainerStatus::Created,
        VmStatus::Running => ContainerStatus::Running,
        VmStatus::Stopped => ContainerStatus::Stopped,
    }
}

impl From<VmStatus> for ContainerStatus {
    fn from(status: VmStatus) -> (converted: ContainerStatus) {
        match status {
            VmStatus::Creating => ContainerStatus::Creating,
            VmStatus::Created => ContainerStatus::Created,
            VmStatus::Running => ContainerStatus::Running,
            VmStatus::Stopped => ContainerStatus::Stopped,
        }
    }
}

impl vstd::std_specs::convert::FromSpecImpl<VmStatus> for ContainerStatus {
    open spec fn obeys_from_spec() -> bool {
        true
    }

    open spec fn from_spec(status: VmStatus) -> ContainerStatus {
        status_of(status)
    }
}

/// The state of a container.
#[derive(Clone, Debug, PartialEq, Eq)]
pub struct ContainerState {
    /// The version of the specification that the state follows.
    pub oci_version: String,
    /// The container's id.
    pub id: String,
    /// The runtime state of the container.
    pub status: ContainerStatus,
    /// The id of the container's process, if it is known.
    pub pid: Option<i32>,
    /// The absolute path of the container's bundle directory.
    pub bundle: String,
    /// The annotations of the container, as pairs of key and value.
    pub annotations: Option<Vec<(String, String)>>,
}

/// The process id that a wire value stands for: zero stands for none, and a
/// value above `i32::MAX` wraps around.
pub open spec fn pid_of(pid: u32) -> Option<i32> {
    if pid == 0 {
        None
    } else if pid <= i32::MAX {
        Some(pid as i32)
    } else {
        Some((pid - 0x1_0000_0000) as i32)
    }
}

/// Reads a process id off the wire, where zero stands for none.
pub fn known_pid(pid: u32) -> (known: Option<i32>)
    ensures
        known == pid_of(pid),
{
    if pid == 0 {
        None
    } else if pid <= 0x7fff_ffff {
        Some(pid as i32)
    } else {
        let low: u32 = pid - 0x8000_0000;
        let wrapped: i32 = (low as i32) - 0x4000_0000 - 0x4000_0000;
        Some(wrapped)
    }
}

impl ContainerState {
    /// Makes the state of a container whose process id is not known and that
    /// has no annotations, under version `v1.0.2` of the specification.
    pub fn new(id: String, status: ContainerStatus, bundle: String) -> (state: ContainerState)
        ensures
            state.oci_version@ == "v1.0.2"@,
            state.id == id,
            state.status == status,
            state.pid is None,
            state.bundle == bundle,
            state.annotations is None,
    {
        ContainerState {
            oci_version: String::from_str("v1.0.2"),
            id,
            status,
            pid: None,
            bundle,
            annotations: None,
        }
    }

    /// Makes the state that `state` prints from what the control server
    /// reported.
    pub fn from_response(response: Response) -> (state: ContainerState)
        ensures
            state.oci_version@ == "v1.0.2"@,
            state.id == response.container_id,
            state.status == status_of(response.status),
            state.pid == response.pid,
            state.bundle == response.bundle,
            state.annotations is None,
    {
        let status = ContainerStatus::from(response.status);
        let mut state = ContainerState::new(response.container_id, status, response.bundle);
        state.pid = response.pid;
        state
    }
}

} // verus!
