use akari::api::{Command, Error, VmStatus};
use akari::commands::state::ContainerStatus;
use akari::server::transition;
use akari::shim::{code, container_status, task_status, Code, TaskStatus};

#[test]
fn statuses_of_the_task_service() {
    assert_eq!(task_status(VmStatus::Creating), TaskStatus::Unknown);
    assert_eq!(task_status(VmStatus::Created), TaskStatus::Created);
    assert_eq!(task_status(VmStatus::Running), TaskStatus::Running);
    assert_eq!(task_status(VmStatus::Stopped), TaskStatus::Stopped);
    assert_eq!(container_status(TaskStatus::Created), Some(ContainerStatus::Created));
    assert_eq!(container_status(TaskStatus::Running), Some(ContainerStatus::Running));
    assert_eq!(container_status(TaskStatus::Stopped), Some(ContainerStatus::Stopped));
    assert_eq!(container_status(TaskStatus::Unknown), None);
    assert_eq!(container_status(TaskStatus::Paused), None);
    assert_eq!(container_status(TaskStatus::Pausing), None);
}

#[test]
fn codes_of_the_task_service() {
    assert_eq!(code(&Error::ContainerAlreadyExists), Code::AlreadyExists);
    assert_eq!(code(&Error::ContainerNotFound), Code::NotFound);
    assert_eq!(
        code(&Error::UnexpectedContainerStatus(VmStatus::Running)),
        Code::FailedPrecondition
    );
    assert_eq!(code(&Error::LockPoisoned), Code::Unavailable);
    assert_eq!(code(&Error::ThreadNotFound), Code::Internal);
    assert_eq!(code(&Error::VmCommandFailed), Code::Internal);
    assert_eq!(code(&Error::AgentError("x".to_string())), Code::Internal);
    assert_eq!(code(&Error::Timeout), Code::DeadlineExceeded);
    assert_eq!(code(&Error::ConfigInvalid), Code::InvalidArgument);
}

#[test]
fn transition_table() {
    let all = [VmStatus::Creating, VmStatus::Created, VmStatus::Running, VmStatus::Stopped];
    for status in all {
        let refused = Err(Error::UnexpectedContainerStatus(status));
        assert_eq!(transition(Command::Create, status), Err(Error::ContainerAlreadyExists));
        assert_eq!(transition(Command::State, status), Ok(Some(status)));
        assert_eq!(
            transition(Command::Start, status),
            if status == VmStatus::Created { Ok(Some(VmStatus::Running)) } else { refused.clone() }
        );
        assert_eq!(
            transition(Command::Kill, status),
            if status == VmStatus::Created || status == VmStatus::Running {
                Ok(Some(VmStatus::Stopped))
            } else {
                refused.clone()
            }
        );
        assert_eq!(
            transition(Command::Delete, status),
            if status == VmStatus::Created || status == VmStatus::Stopped {
                Ok(None)
            } else {
                refused.clone()
            }
        );
        assert_eq!(
            transition(Command::Connect(5000), status),
            if status == VmStatus::Running { Ok(Some(VmStatus::Running)) } else { refused.clone() }
        );
    }
}
