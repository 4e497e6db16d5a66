//! Between the task service that the container engine speaks and the
//! control server: how statuses and errors of the one read in the other.

use vstd::prelude::*;
use crate::api::{Error, ErrorView, VmStatus};
use crate::commands::state::ContainerStatus;

verus! {

/// The status of a task, as the container engine knows it.
#[derive(Clone, Copy, Debug, PartialEq, Eq, Structural)]
pub enum TaskStatus {
    Unknown,
    Created,
    Running,
    Stopped,
    Paused,
    Pausing,
}

/// The status code with which the task service answers a failed request.
#[derive(Clone, Copy, Debug, PartialEq, Eq, Structural)]
pub enum Code {
    InvalidArgument,
    DeadlineExceeded,
    NotFound,
    AlreadyExists,
    FailedPrecondition,
    Internal,
    Unavailable,
}

/// The task status that stands for a status of the control server. A
/// container in creation is not yet a task that the engine knows.
pub open spec fn task_status_of(status: VmStatus) -> TaskStatus {
    match status {
        VmStatus::Creating => TaskStatus::Unknown,
        VmStatus::Created => TaskStatus::Created,
        VmStatus::Running => TaskStatus::Running,
        VmStatus::Stopped => TaskStatus::Stopped,
    }
}

/// The container status that stands for a task status, where one does.
pub open spec fn container_status_of(status: TaskStatus) -> Option<ContainerStatus> {
    match status {
        TaskStatus::Created => Some(ContainerStatus::Created),
        TaskStatus::Running => Some(ContainerStatus::Running),
        TaskStatus::Stopped => Some(ContainerStatus::Stopped),
        _ => None,
    }
}

/// The status code that stands for an error of the control server.
pub open spec fn code_of(error: ErrorView) -> Code {
    match error {
        ErrorView::ContainerAlreadyExists => Code::AlreadyExists,
        ErrorView::ContainerNotFound => Code::NotFound,
        ErrorView::UnexpectedContainerStatus(_) => Code::FailedPrecondition,
        ErrorView::LockPoisoned => Code::Unavailable,
        ErrorView::ThreadNotFound => Code::Internal,
        ErrorView::VmCommandFailed => Code::Internal,
        ErrorView::AgentError(_) => Code::Internal,
        ErrorView::Timeout => Code::DeadlineExceeded,
        ErrorView::ConfigInvalid => Code::InvalidArgument,
    }
}

/// Returns the task status that stands for a status of the control server.
pub fn task_status(status: VmStatus) -> (task: TaskStatus)
    ensures
        task == task_status_of(status),
{
    match status {
        VmStatus::Creating => TaskStatus::Unknown,
        VmStatus::Created => TaskStatus::Created,
        VmStatus::Running => TaskStatus::Running,
        VmStatus::Stopped => TaskStatus::Stopped,
    }
}

/// Returns the container status that stands for a task status.
///
/// Returns `None` for `Unknown`, `Paused` and `Pausing`, which no container
/// of this runtime is in.
pub fn container_status(status: TaskStatus) -> (container: Option<ContainerStatus>)
    ensures
        container == container_status_of(status),
{
    match status {
        TaskStatus::Created => Some(ContainerStatus::Created),
        TaskStatus::Running => Some(ContainerStatus::Running),
        TaskStatus::Stopped => Some(ContainerStatus::Stopped),
        _ => None,
    }
}

/// Returns the status code with which the task service answers when the
/// control server fails with the given error.
pub fn code(error: &Error) -> (code: Code)
    ensures
        code == code_of(error@),
{
    match error {
        Error::ContainerAlreadyExists => Code::AlreadyExists,
        Error::ContainerNotFound => Code::NotFound,
        Error::UnexpectedContainerStatus(_) => Code::FailedPrecondition,
        Error::LockPoisoned => Code::Unavailable,
        Error::ThreadNotFound => Code::Internal,
        Error::VmCommandFailed => Code::Internal,
        Error::AgentError(_) => Code::Internal,
        Error::Timeout => Code::DeadlineExceeded,
        Error::ConfigInvalid => Code::InvalidArgument,
    }
}

/// A status that the control server reports of a container that it has
/// created reads back, through the task service, as the same status.
pub proof fn lemma_status_reads_back(status: VmStatus)
    requires
        status != VmStatus::Creating,
    ensures
        container_status_of(task_status_of(status)) == Some(
            crate::commands::state::status_of(status),
        ),
{
}

} // verus!
