//! Values exchanged on the host control socket.

use vstd::prelude::*;
use vstd::string::StringExecFns;
use crate::text::{opt_text, str_eq};

verus! {

/// Where a container stands in its lifecycle.
#[derive(Clone, Copy, Debug, PartialEq, Eq, Structural)]
pub enum VmStatus {
    /// The container is being created.
    Creating,
    /// The create operation has finished.
    Created,
    /// The container is running.
    Running,
    /// The container has exited.
    Stopped,
}

impl VmStatus {
    /// The variant's name, as it appears in messages.
    pub open spec fn name(self) -> Seq<char> {
        match self {
            VmStatus::Creating => "Creating"@,
            VmStatus::Created => "Created"@,
            VmStatus::Running => "Running"@,
            VmStatus::Stopped => "Stopped"@,
        }
    }

    /// Returns the variant's name, as it appears in messages.
    pub fn as_str(&self) -> (s: &'static str)
        ensures
            s@ == self.name(),
    {
        match self {
            VmStatus::Creating => "Creating",
            VmStatus::Created => "Created",
            VmStatus::Running => "Running",
            VmStatus::Stopped => "Stopped",
        }
    }

    /// The status's name on the wire.
    pub open spec fn wire(self) -> Seq<char> {
        match self {
            VmStatus::Creating => "creating"@,
            VmStatus::Created => "created"@,
            VmStatus::Running => "running"@,
            VmStatus::Stopped => "stopped"@,
        }
    }

    /// The status that a name on the wire stands for, if it stands for one.
    pub open spec fn of_wire(name: Seq<char>) -> Option<VmStatus> {
        if name == "creating"@ {
            Some(VmStatus::Creating)
        } else if name == "created"@ {
            Some(VmStatus::Created)
        } else if name == "running"@ {
            Some(VmStatus::Running)
        } else if name == "stopped"@ {
            Some(VmStatus::Stopped)
        } else {
            None
        }
    }

    /// A status that is written on the wire and read off it is the status
    /// that was written.
    pub proof fn lemma_wire_reads_back(self)
        ensures
            VmStatus::of_wire(self.wire()) == Some(self),
    {
        reveal_strlit("creating");
        reveal_strlit("created");
        reveal_strlit("running");
        reveal_strlit("stopped");
        assert("creating"@.len() == 8 && "created"@.len() == 7);
        assert("running"@[0] == 'r' && "stopped"@[0] == 's' && "created"@[0] == 'c');
    }

    /// Returns the status's name on the wire.
    pub fn wire_name(&self) -> (name: &'static str)
        ensures
            name@ == self.wire(),
    {
        match self {
            VmStatus::Creating => "creating",
            VmStatus::Created => "created",
            VmStatus::Running => "running",
            VmStatus::Stopped => "stopped",
        }
    }

    /// Reads a status off the wire.
    ///
    /// Returns `None` for a name that stands for no status.
    pub fn from_wire_name(name: &str) -> (status: Option<VmStatus>)
        ensures
            status == VmStatus::of_wire(name@),
    {
        if str_eq(name, "creating") {
            Some(VmStatus::Creating)
        } else if str_eq(name, "created") {
            Some(VmStatus::Created)
        } else if str_eq(name, "running") {
            Some(VmStatus::Running)
        } else if str_eq(name, "stopped") {
            Some(VmStatus::Stopped)
        } else {
            None
        }
    }
}

/// A lifecycle operation on one container.
#[derive(Clone, Copy, Debug, PartialEq, Eq, Structural)]
pub enum Command {
    Create,
    Delete,
    Kill,
    Start,
    State,
    /// Open a further guest connection on the given vsock port.
    Connect(u32),
}

/// What `create` is given besides the container's id.
#[derive(Clone, Debug, PartialEq, Eq)]
pub struct CreateRequest {
    pub bundle: String,
    pub rootfs: String,
    pub stdin: Option<String>,
    pub stdout: Option<String>,
    pub stderr: Option<String>,
}

/// What `state` reports of a container.
#[derive(Clone, Debug, PartialEq, Eq)]
pub struct Response {
    pub container_id: String,
    pub status: VmStatus,
    pub pid: Option<i32>,
    pub bundle: String,
}

/// Why a lifecycle operation was refused or failed.
#[derive(Clone, Debug, PartialEq, Eq)]
pub enum Error {
    /// `create` named an id that the state map already holds.
    ContainerAlreadyExists,
    /// The state map holds no container of that id.
    ContainerNotFound,
    /// The operation is not legal in the container's status, which is given.
    UnexpectedContainerStatus(VmStatus),
    /// An earlier operation was begun and never completed.
    LockPoisoned,
    /// No operation is under way that an outcome could belong to.
    ThreadNotFound,
    /// The VM engine did not carry out a command.
    VmCommandFailed,
    /// The guest agent reported an error, which is given as it came.
    AgentError(String),
    /// The deadline passed before the outside work reported back.
    Timeout,
    /// The bundle or the root file system of a request is not usable.
    ConfigInvalid,
}

/// An [`Error`] as a mathematical value.
pub enum ErrorView {
    ContainerAlreadyExists,
    ContainerNotFound,
    UnexpectedContainerStatus(VmStatus),
    LockPoisoned,
    ThreadNotFound,
    VmCommandFailed,
    AgentError(Seq<char>),
    Timeout,
    ConfigInvalid,
}

impl View for Error {
    type V = ErrorView;

    open spec fn view(&self) -> ErrorView {
        match self {
            Error::ContainerAlreadyExists => ErrorView::ContainerAlreadyExists,
            Error::ContainerNotFound => ErrorView::ContainerNotFound,
            Error::UnexpectedContainerStatus(s) => ErrorView::UnexpectedContainerStatus(*s),
            Error::LockPoisoned => ErrorView::LockPoisoned,
            Error::ThreadNotFound => ErrorView::ThreadNotFound,
            Error::VmCommandFailed => ErrorView::VmCommandFailed,
            Error::AgentError(kind) => ErrorView::AgentError(kind@),
            Error::Timeout => ErrorView::Timeout,
            Error::ConfigInvalid => ErrorView::ConfigInvalid,
        }
    }
}

impl ErrorView {
    /// The text that describes the error to a person.
    pub open spec fn message(self) -> Seq<char> {
        match self {
            ErrorView::ContainerAlreadyExists => "Container already exists"@,
            ErrorView::ContainerNotFound => "Container not found"@,
            ErrorView::UnexpectedContainerStatus(s) => "Unpextected container status: "@ + s.name(),
            ErrorView::LockPoisoned => "Lock poisoned"@,
            ErrorView::ThreadNotFound => "Thread not found"@,
            ErrorView::VmCommandFailed => "Failed to send command"@,
            ErrorView::AgentError(kind) => "Agent error: "@ + kind,
            ErrorView::Timeout => "Timed out"@,
            ErrorView::ConfigInvalid => "Invalid container configuration"@,
        }
    }
}

impl ErrorView {
    /// The name of the error's kind on the wire.
    pub open spec fn kind(self) -> Seq<char> {
        match self {
            ErrorView::ContainerAlreadyExists => "containerAlreadyExists"@,
            ErrorView::ContainerNotFound => "containerNotFound"@,
            ErrorView::UnexpectedContainerStatus(_) => "unexpectedContainerStatus"@,
            ErrorView::LockPoisoned => "lockPoisoned"@,
            ErrorView::ThreadNotFound => "threadNotFound"@,
            ErrorView::VmCommandFailed => "vmCommandFailed"@,
            ErrorView::AgentError(_) => "agentError"@,
            ErrorView::Timeout => "timeout"@,
            ErrorView::ConfigInvalid => "configInvalid"@,
        }
    }
}

impl ErrorView {
    /// The status that an error carries, if it carries one.
    pub open spec fn status(self) -> Option<VmStatus> {
        match self {
            ErrorView::UnexpectedContainerStatus(status) => Some(status),
            _ => None,
        }
    }

    /// The words of the agent that an error carries, if it carries any.
    pub open spec fn detail(self) -> Option<Seq<char>> {
        match self {
            ErrorView::AgentError(words) => Some(words),
            _ => None,
        }
    }

    /// The error that stands on the wire as a kind with, where the kind
    /// asks for it, a status or the agent's words; `None` where the kind is
    /// unknown or what it asks for is missing.
    pub open spec fn of_wire(
        kind: Seq<char>,
        status: Option<VmStatus>,
        detail: Option<Seq<char>>,
    ) -> Option<ErrorView> {
        if kind == "containerAlreadyExists"@ {
            Some(ErrorView::ContainerAlreadyExists)
        } else if kind == "containerNotFound"@ {
            Some(ErrorView::ContainerNotFound)
        } else if kind == "unexpectedContainerStatus"@ {
            match status {
                Some(s) => Some(ErrorView::UnexpectedContainerStatus(s)),
                None => None,
            }
        } else if kind == "lockPoisoned"@ {
            Some(ErrorView::LockPoisoned)
        } else if kind == "threadNotFound"@ {
            Some(ErrorView::ThreadNotFound)
        } else if kind == "vmCommandFailed"@ {
            Some(ErrorView::VmCommandFailed)
        } else if kind == "agentError"@ {
            match detail {
                Some(words) => Some(ErrorView::AgentError(words)),
                None => None,
            }
        } else if kind == "timeout"@ {
            Some(ErrorView::Timeout)
        } else if kind == "configInvalid"@ {
            Some(ErrorView::ConfigInvalid)
        } else {
            None
        }
    }

    /// An error that is written on the wire as its kind, its status and its
    /// words, and read off it, is the error that was written.
    pub proof fn lemma_wire_reads_back(self)
        ensures
            ErrorView::of_wire(self.kind(), self.status(), self.detail()) == Some(self),
    {
        reveal_strlit("containerAlreadyExists");
        reveal_strlit("containerNotFound");
        reveal_strlit("unexpectedContainerStatus");
        reveal_strlit("lockPoisoned");
        reveal_strlit("threadNotFound");
        reveal_strlit("vmCommandFailed");
        reveal_strlit("agentError");
        reveal_strlit("timeout");
        reveal_strlit("configInvalid");
        assert("containerAlreadyExists"@.len() == 22);
        assert("containerNotFound"@.len() == 17);
        assert("unexpectedContainerStatus"@.len() == 25);
        assert("lockPoisoned"@.len() == 12);
        assert("threadNotFound"@.len() == 14);
        assert("vmCommandFailed"@.len() == 15);
        assert("agentError"@.len() == 10);
        assert("timeout"@.len() == 7);
        assert("configInvalid"@.len() == 13);
    }
}

impl Error {
    /// Returns the status that the error carries, if it carries one.
    pub fn status(&self) -> (status: Option<VmStatus>)
        ensures
            status == self@.status(),
    {
        match self {
            Error::UnexpectedContainerStatus(status) => Some(*status),
            _ => None,
        }
    }

    /// Returns the words of the agent that the error carries, if it carries
    /// any.
    pub fn detail(&self) -> (detail: Option<String>)
        ensures
            opt_text(detail) == self@.detail(),
    {
        match self {
            Error::AgentError(words) => Some(words.clone()),
            _ => None,
        }
    }

    /// Reads an error off the wire: its kind and, where the kind asks for
    /// it, a status or the agent's words.
    ///
    /// Returns `None` where the kind is unknown or what it asks for is
    /// missing.
    pub fn from_wire(kind: &str, status: Option<VmStatus>, detail: Option<String>) -> (error:
        Option<Error>)
        ensures
            match error {
                Some(e) => ErrorView::of_wire(kind@, status, opt_text(detail)) == Some(e@),
                None => ErrorView::of_wire(kind@, status, opt_text(detail)) is None,
            },
    {
        if str_eq(kind, "containerAlreadyExists") {
            Some(Error::ContainerAlreadyExists)
        } else if str_eq(kind, "containerNotFound") {
            Some(Error::ContainerNotFound)
        } else if str_eq(kind, "unexpectedContainerStatus") {
            match status {
                Some(s) => Some(Error::UnexpectedContainerStatus(s)),
                None => None,
            }
        } else if str_eq(kind, "lockPoisoned") {
            Some(Error::LockPoisoned)
        } else if str_eq(kind, "threadNotFound") {
            Some(Error::ThreadNotFound)
        } else if str_eq(kind, "vmCommandFailed") {
            Some(Error::VmCommandFailed)
        } else if str_eq(kind, "agentError") {
            match detail {
                Some(words) => Some(Error::AgentError(words)),
                None => None,
            }
        } else if str_eq(kind, "timeout") {
            Some(Error::Timeout)
        } else if str_eq(kind, "configInvalid") {
            Some(Error::ConfigInvalid)
        } else {
            None
        }
    }

    /// Returns the name of the error's kind on the wire.
    pub fn kind(&self) -> (name: &'static str)
        ensures
            name@ == self@.kind(),
    {
        match self {
            Error::ContainerAlreadyExists => "containerAlreadyExists",
            Error::ContainerNotFound => "containerNotFound",
            Error::UnexpectedContainerStatus(_) => "unexpectedContainerStatus",
            Error::LockPoisoned => "lockPoisoned",
            Error::ThreadNotFound => "threadNotFound",
            Error::VmCommandFailed => "vmCommandFailed",
            Error::AgentError(_) => "agentError",
            Error::Timeout => "timeout",
            Error::ConfigInvalid => "configInvalid",
        }
    }

    /// Returns the text that describes the error to a person.
    pub fn message(&self) -> (text: String)
        ensures
            text@ == self@.message(),
    {
        match self {
            Error::ContainerAlreadyExists => String::from_str("Container already exists"),
            Error::ContainerNotFound => String::from_str("Container not found"),
            Error::UnexpectedContainerStatus(s) => String::from_str(
                "Unpextected container status: ",
            ).concat(s.as_str()),
            Error::LockPoisoned => String::from_str("Lock poisoned"),
            Error::ThreadNotFound => String::from_str("Thread not found"),
            Error::VmCommandFailed => String::from_str("Failed to send command"),
            Error::AgentError(kind) => String::from_str("Agent error: ").concat(kind.as_str()),
            Error::Timeout => String::from_str("Timed out"),
            Error::ConfigInvalid => String::from_str("Invalid container configuration"),
        }
    }
}

} // verus!
