//! The container lifecycle as a mathematical state machine.
//!
//! A lifecycle operation runs in two halves. The first half checks the
//! request against the state map, reserves what it needs and names the outside
//! work (VM commands, a call to the guest agent). The second half takes the
//! outcome of that work and moves the container to its next status, or takes
//! the first half back. This module states both halves over plain
//! mathematical values; `server` implements them.

use vstd::prelude::*;
use crate::api::{Command, ErrorView, VmStatus};
use crate::container_rpc::{ContainerCommand, DEFAULT_AGENT_PORT};
use crate::path::is_absolute;
use crate::text::decimal;
use crate::vm_rpc::VmCommandView;

verus! {

/// The first vsock port that a fresh server hands out.
pub const MIN_PORT: u32 = 1234;

/// The host path at which the connection on a vsock port is exposed.
pub open spec fn endpoint_path(port: nat) -> Seq<char> {
    "/tmp/akari_vsock_"@ + decimal(port)
}

/// What `create` is given besides the container's id, as a mathematical value.
pub struct CreateRequestView {
    pub bundle: Seq<char>,
    pub rootfs: Seq<char>,
    pub stdin: Option<Seq<char>>,
    pub stdout: Option<Seq<char>>,
    pub stderr: Option<Seq<char>>,
}

/// What the state map holds of one container.
pub struct Record {
    pub bundle: Seq<char>,
    pub rootfs: Seq<char>,
    pub stdin: Option<Seq<char>>,
    pub stdout: Option<Seq<char>>,
    pub stderr: Option<Seq<char>>,
    pub status: VmStatus,
    pub pid: Option<i32>,
    pub port: nat,
}

/// The operation whose outside work is under way.
pub struct Pending {
    pub id: Seq<char>,
    pub command: Command,
}

/// One piece of outside work, as a mathematical value.
pub enum StepView {
    /// Hand a command to the VM engine.
    Vm(VmCommandView),
    /// Ship a request to the guest agent over a vsock port.
    Agent { port: u32, command: ContainerCommand },
    /// Remove the link to the bundle from the shared directory, if there is one.
    RemoveBundleLink(Seq<char>),
}

/// How the outside work of an operation ended, as a mathematical value.
pub enum OutcomeView {
    /// Every step was carried out and the agent acknowledged its request.
    /// The number is the process id that the agent reported, if it did.
    Done(Option<i32>),
    /// The VM engine did not carry out a command.
    VmFailed,
    /// The agent answered with an error, which is given as it came.
    AgentFailed(Seq<char>),
    /// The deadline passed before the work reported back.
    TimedOut,
}

/// Tells whether an operation may begin on a container in a given status.
pub open spec fn legal(command: Command, status: VmStatus) -> bool {
    match command {
        Command::Create => false,
        Command::Start => status == VmStatus::Created,
        Command::Kill => status == VmStatus::Created || status == VmStatus::Running,
        Command::Delete => status == VmStatus::Created || status == VmStatus::Stopped,
        Command::State => true,
        Command::Connect(_) => status == VmStatus::Running,
    }
}

/// The status in which an acknowledged operation leaves its container.
/// `Delete` removes the container instead, and is not asked here.
pub open spec fn status_after(command: Command, status: VmStatus) -> VmStatus {
    match command {
        Command::Create => VmStatus::Created,
        Command::Start => VmStatus::Running,
        Command::Kill => VmStatus::Stopped,
        _ => status,
    }
}

/// The error with which an outcome other than `Done` ends its operation.
pub open spec fn outcome_error(outcome: OutcomeView) -> Option<ErrorView> {
    match outcome {
        OutcomeView::Done(_) => None,
        OutcomeView::VmFailed => Some(ErrorView::VmCommandFailed),
        OutcomeView::AgentFailed(kind) => Some(ErrorView::AgentError(kind)),
        OutcomeView::TimedOut => Some(ErrorView::Timeout),
    }
}

/// The control server's state: the state map, the port allocator and the
/// operation under way.
pub struct ServerState {
    /// The state map, from container id to record.
    pub containers: Map<Seq<char>, Record>,
    /// The highest vsock port handed out so far, `MIN_PORT - 1` at first.
    pub last_port: nat,
    /// The operation whose outside work is under way, if there is one.
    pub pending: Option<Pending>,
}

impl ServerState {
    /// The state of a server that has just started.
    pub open spec fn fresh() -> ServerState {
        ServerState { containers: Map::empty(), last_port: (MIN_PORT - 1) as nat, pending: None }
    }

    /// The invariant of the state map, the allocator and the pending slot.
    pub open spec fn wf(self) -> bool {
        &&& self.containers.dom().finite()
        &&& self.last_port >= MIN_PORT - 1
        &&& forall|id: Seq<char>| #[trigger]
            self.containers.dom().contains(id) ==> {
                &&& MIN_PORT <= self.containers[id].port <= self.last_port
                &&& is_absolute(self.containers[id].bundle)
                &&& is_absolute(self.containers[id].rootfs)
                &&& (self.containers[id].status == VmStatus::Creating ==> self.pending == Some(
                    Pending { id, command: Command::Create },
                ))
            }
        &&& forall|a: Seq<char>, b: Seq<char>|
            #![trigger self.containers[a], self.containers[b]]
            self.containers.dom().contains(a) && self.containers.dom().contains(b) && a != b
                ==> self.containers[a].port != self.containers[b].port
        &&& match self.pending {
            Some(p) => {
                &&& self.containers.dom().contains(p.id)
                &&& p.command != Command::State
                &&& if p.command == Command::Create {
                    self.containers[p.id].status == VmStatus::Creating
                } else {
                    legal(p.command, self.containers[p.id].status)
                }
            },
            None => true,
        }
    }

    /// The port that the next `create` reserves.
    pub open spec fn next_port(self) -> nat {
        self.last_port + 1
    }

    /// The error with which `create` is refused, if it is.
    pub open spec fn create_refusal(self, id: Seq<char>, req: CreateRequestView) -> Option<
        ErrorView,
    > {
        if self.pending is Some {
            Some(ErrorView::LockPoisoned)
        } else if self.containers.dom().contains(id) {
            Some(ErrorView::ContainerAlreadyExists)
        } else if !is_absolute(req.bundle) || !is_absolute(req.rootfs) {
            Some(ErrorView::ConfigInvalid)
        } else {
            None
        }
    }

    /// The state in which the first half of `create` leaves the server.
    pub open spec fn created(self, id: Seq<char>, req: CreateRequestView) -> ServerState {
        if self.create_refusal(id, req) is Some {
            self
        } else {
            ServerState {
                containers: self.containers.insert(
                    id,
                    Record {
                        bundle: req.bundle,
                        rootfs: req.rootfs,
                        stdin: req.stdin,
                        stdout: req.stdout,
                        stderr: req.stderr,
                        status: VmStatus::Creating,
                        pid: None,
                        port: self.next_port(),
                    },
                ),
                last_port: self.next_port(),
                pending: Some(Pending { id, command: Command::Create }),
            }
        }
    }

    /// The outside work of an accepted `create`, in the order in which it
    /// is to be done.
    pub open spec fn create_steps(self) -> Seq<StepView> {
        seq![
            StepView::Vm(
                VmCommandView::Connect(self.next_port() as u32, endpoint_path(self.next_port())),
            ),
            StepView::Agent {
                port: DEFAULT_AGENT_PORT,
                command: ContainerCommand::Create(self.next_port() as u32),
            },
        ]
    }

    /// The error with which an operation on a container that is to exist
    /// is refused, if it is.
    pub open spec fn refusal(self, id: Seq<char>, command: Command) -> Option<ErrorView> {
        if self.pending is Some {
            Some(ErrorView::LockPoisoned)
        } else if !self.containers.dom().contains(id) {
            Some(ErrorView::ContainerNotFound)
        } else if command == Command::Create {
            Some(ErrorView::ContainerAlreadyExists)
        } else if !legal(command, self.containers[id].status) {
            Some(ErrorView::UnexpectedContainerStatus(self.containers[id].status))
        } else {
            None
        }
    }

    /// The state in which the first half of `start`, `kill`, `delete` or
    /// `connect` leaves the server. `State` has no outside work and leaves
    /// the server as it is.
    pub open spec fn begun(self, id: Seq<char>, command: Command) -> ServerState {
        if self.refusal(id, command) is Some || command == Command::State {
            self
        } else {
            ServerState { pending: Some(Pending { id, command }), ..self }
        }
    }

    /// The outside work of an accepted `start`, `kill`, `delete` or
    /// `connect`, in the order in which it is to be done.
    pub open spec fn steps(self, id: Seq<char>, command: Command) -> Seq<StepView> {
        let record = self.containers[id];
        match command {
            Command::Start => seq![
                StepView::Agent { port: record.port as u32, command: ContainerCommand::Start },
            ],
            Command::Kill => seq![
                StepView::Agent { port: record.port as u32, command: ContainerCommand::Kill },
            ],
            Command::Delete => seq![
                StepView::Agent { port: record.port as u32, command: ContainerCommand::Delete },
                StepView::Vm(VmCommandView::Disconnect(record.port as u32)),
                StepView::RemoveBundleLink(record.bundle),
            ],
            Command::Connect(port) => seq![
                StepView::Vm(VmCommandView::Connect(port, endpoint_path(port as nat))),
            ],
            _ => seq![],
        }
    }

    /// What is to be undone outside when the operation under way ends with
    /// the given outcome: the connection of a container in creation, if the
    /// VM may have made it and the container is given up.
    pub open spec fn undo(self, outcome: OutcomeView) -> Seq<StepView> {
        match self.pending {
            Some(p) => if p.command == Command::Create && (outcome is AgentFailed
                || outcome is TimedOut) {
                seq![StepView::Vm(VmCommandView::Disconnect(self.containers[p.id].port as u32))]
            } else {
                seq![]
            },
            None => seq![],
        }
    }

    /// What the second half of an operation returns.
    pub open spec fn completion(self, outcome: OutcomeView) -> Result<(), ErrorView> {
        if self.pending is None {
            Err(ErrorView::ThreadNotFound)
        } else {
            match outcome_error(outcome) {
                Some(e) => Err(e),
                None => Ok(()),
            }
        }
    }

    /// The state in which the second half of an operation leaves the server.
    pub open spec fn completed(self, outcome: OutcomeView) -> ServerState {
        match self.pending {
            None => self,
            Some(p) => {
                let record = self.containers[p.id];
                let containers = match outcome {
                    OutcomeView::Done(pid) => {
                        if p.command == Command::Delete {
                            self.containers.remove(p.id)
                        } else {
                            self.containers.insert(
                                p.id,
                                Record {
                                    status: status_after(p.command, record.status),
                                    pid: if pid is Some {
                                        pid
                                    } else {
                                        record.pid
                                    },
                                    ..record
                                },
                            )
                        }
                    },
                    _ => {
                        if p.command == Command::Create {
                            self.containers.remove(p.id)
                        } else {
                            self.containers
                        }
                    },
                };
                ServerState { containers, pending: None, ..self }
            },
        }
    }

    /// A server that has just started is well formed.
    pub proof fn lemma_fresh_wf()
        ensures
            ServerState::fresh().wf(),
    {
    }

    /// The first half of `create` keeps the state well formed, whether the
    /// request is accepted or refused.
    pub proof fn lemma_created_wf(self, id: Seq<char>, req: CreateRequestView)
        requires
            self.wf(),
        ensures
            self.created(id, req).wf(),
    {
        let next = self.created(id, req);
        if self.create_refusal(id, req) is None {
            assert forall|a: Seq<char>, b: Seq<char>|
                #![trigger next.containers[a], next.containers[b]]
                next.containers.dom().contains(a) && next.containers.dom().contains(b) && a
                    != b implies next.containers[a].port != next.containers[b].port by {
                if a != id && b != id {
                    assert(self.containers.dom().contains(a));
                    assert(self.containers.dom().contains(b));
                    assert(self.containers[a].port != self.containers[b].port);
                } else if a == id {
                    assert(self.containers.dom().contains(b));
                } else {
                    assert(self.containers.dom().contains(a));
                }
            }
            assert forall|c: Seq<char>| #[trigger]
                next.containers.dom().contains(c) implies {
                &&& MIN_PORT <= next.containers[c].port <= next.last_port
                &&& is_absolute(next.containers[c].bundle)
                &&& is_absolute(next.containers[c].rootfs)
                &&& (next.containers[c].status == VmStatus::Creating ==> next.pending == Some(
                    Pending { id: c, command: Command::Create },
                ))
            } by {
                if c != id {
                    assert(self.containers.dom().contains(c));
                }
            }
        }
    }

    /// The first half of `start`, `kill`, `delete` or `connect` keeps the
    /// state well formed, whether the request is accepted or refused.
    pub proof fn lemma_begun_wf(self, id: Seq<char>, command: Command)
        requires
            self.wf(),
        ensures
            self.begun(id, command).wf(),
    {
        let next = self.begun(id, command);
        if self.refusal(id, command) is None && command != Command::State {
            assert forall|c: Seq<char>| #[trigger]
                next.containers.dom().contains(c) implies {
                &&& MIN_PORT <= next.containers[c].port <= next.last_port
                &&& is_absolute(next.containers[c].bundle)
                &&& is_absolute(next.containers[c].rootfs)
                &&& (next.containers[c].status == VmStatus::Creating ==> next.pending == Some(
                    Pending { id: c, command: Command::Create },
                ))
            } by {
                assert(self.containers.dom().contains(c));
            }
        }
    }

    /// The second half of an operation keeps the state well formed, whatever
    /// the outcome.
    pub proof fn lemma_completed_wf(self, outcome: OutcomeView)
        requires
            self.wf(),
        ensures
            self.completed(outcome).wf(),
    {
        let next = self.completed(outcome);
        if let Some(p) = self.pending {
            assert forall|c: Seq<char>| #[trigger]
                next.containers.dom().contains(c) implies {
                &&& self.containers.dom().contains(c)
                &&& next.containers[c].port == self.containers[c].port
                &&& MIN_PORT <= next.containers[c].port <= next.last_port
                &&& is_absolute(next.containers[c].bundle)
                &&& is_absolute(next.containers[c].rootfs)
                &&& next.containers[c].status != VmStatus::Creating
            } by {
                assert(self.containers.dom().contains(c));
                if c != p.id {
                    assert(self.containers[c].status != VmStatus::Creating);
                }
            }
            assert forall|a: Seq<char>, b: Seq<char>|
                #![trigger next.containers[a], next.containers[b]]
                next.containers.dom().contains(a) && next.containers.dom().contains(b) && a
                    != b implies next.containers[a].port != next.containers[b].port by {
                assert(self.containers[a].port != self.containers[b].port);
            }
        }
    }
}

/// One call on the control server: a first half or a second half.
pub enum Event {
    /// The first half of `create`.
    Create(Seq<char>, CreateRequestView),
    /// The first half of an operation on a container that is to exist.
    Begin(Seq<char>, Command),
    /// The second half of the operation under way.
    Complete(OutcomeView),
}

/// Tells whether one status follows another in the lifecycle.
pub open spec fn edge(from: VmStatus, to: VmStatus) -> bool {
    ||| from == VmStatus::Creating && to == VmStatus::Created
    ||| from == VmStatus::Created && to == VmStatus::Running
    ||| from == VmStatus::Created && to == VmStatus::Stopped
    ||| from == VmStatus::Running && to == VmStatus::Stopped
}

impl ServerState {
    /// The state after one call.
    pub open spec fn step(self, event: Event) -> ServerState {
        match event {
            Event::Create(id, req) => self.created(id, req),
            Event::Begin(id, command) => self.begun(id, command),
            Event::Complete(outcome) => self.completed(outcome),
        }
    }

    /// The state after a sequence of calls.
    pub open spec fn run(self, events: Seq<Event>) -> ServerState
        decreases events.len(),
    {
        if events.len() == 0 {
            self
        } else {
            self.run(events.drop_last()).step(events.last())
        }
    }

    /// Whatever calls are made in whatever order, the state stays well
    /// formed: in particular no two containers of the state map ever share a
    /// vsock port.
    pub proof fn lemma_run_wf(self, events: Seq<Event>)
        requires
            self.wf(),
        ensures
            self.run(events).wf(),
        decreases events.len(),
    {
        if events.len() > 0 {
            let before = self.run(events.drop_last());
            self.lemma_run_wf(events.drop_last());
            match events.last() {
                Event::Create(id, req) => before.lemma_created_wf(id, req),
                Event::Begin(id, command) => before.lemma_begun_wf(id, command),
                Event::Complete(outcome) => before.lemma_completed_wf(outcome),
            }
        }
    }

    /// No call lowers the highest port handed out, so `create` never hands
    /// out a port a second time, whatever was deleted in between.
    pub proof fn lemma_ports_only_grow(self, events: Seq<Event>)
        ensures
            self.run(events).last_port >= self.last_port,
        decreases events.len(),
    {
        if events.len() > 0 {
            self.lemma_ports_only_grow(events.drop_last());
        }
    }

    /// Every call moves every container along the lifecycle or leaves it
    /// where it is: a container that stays keeps its status or takes one that
    /// follows it, a container that enters is in creation, and a container
    /// that leaves was in creation, created or stopped, never running.
    pub proof fn lemma_step_follows_lifecycle(self, event: Event, id: Seq<char>)
        requires
            self.wf(),
        ensures
            self.containers.dom().contains(id) && self.step(event).containers.dom().contains(id)
                ==> self.step(event).containers[id].status == self.containers[id].status || edge(
                self.containers[id].status,
                self.step(event).containers[id].status,
            ),
            !self.containers.dom().contains(id) && self.step(event).containers.dom().contains(id)
                ==> self.step(event).containers[id].status == VmStatus::Creating,
            self.containers.dom().contains(id) && !self.step(event).containers.dom().contains(id)
                ==> self.containers[id].status != VmStatus::Running,
    {
    }

    /// An operation that is not legal in the container's status is refused
    /// with that status, and leaves the state as it was.
    pub proof fn lemma_illegal_is_refused(self, id: Seq<char>, command: Command)
        requires
            self.pending is None,
            self.containers.dom().contains(id),
            command != Command::Create,
            !legal(command, self.containers[id].status),
        ensures
            self.refusal(id, command) == Some(
                ErrorView::UnexpectedContainerStatus(self.containers[id].status),
            ),
            self.begun(id, command) == self,
    {
    }

    /// An operation that is legal in the container's status is accepted, and
    /// once acknowledged it leaves the container in the status that the
    /// operation leads to; `delete` removes it. No other container changes.
    pub proof fn lemma_legal_is_carried_out(self, id: Seq<char>, command: Command, pid: Option<i32>)
        requires
            self.pending is None,
            self.containers.dom().contains(id),
            legal(command, self.containers[id].status),
            command != Command::State,
        ensures
            self.refusal(id, command) is None,
            self.begun(id, command).completion(OutcomeView::Done(pid)) is Ok,
            command == Command::Delete ==> self.begun(id, command).completed(
                OutcomeView::Done(pid),
            ).containers == self.containers.remove(id),
            command != Command::Delete ==> ({
                let after = self.begun(id, command).completed(OutcomeView::Done(pid)).containers;
                &&& after.dom() == self.containers.dom()
                &&& after[id].status == status_after(command, self.containers[id].status)
                &&& forall|other: Seq<char>|
                    other != id && self.containers.dom().contains(other) ==> #[trigger] after[other]
                        == self.containers[other]
            }),
    {
        if command != Command::Delete {
            let after = self.begun(id, command).completed(OutcomeView::Done(pid)).containers;
            assert(after.dom() =~= self.containers.dom());
        }
    }

    /// An accepted `create` that is acknowledged leaves the container in
    /// status `Created`, on the port that it reserved.
    pub proof fn lemma_create_is_carried_out(
        self,
        id: Seq<char>,
        req: CreateRequestView,
        pid: Option<i32>,
    )
        requires
            self.create_refusal(id, req) is None,
        ensures
            self.created(id, req).completion(OutcomeView::Done(pid)) is Ok,
            self.created(id, req).completed(OutcomeView::Done(pid)).containers.dom()
                == self.containers.dom().insert(id),
            self.created(id, req).completed(OutcomeView::Done(pid)).containers[id].status
                == VmStatus::Created,
            self.created(id, req).completed(OutcomeView::Done(pid)).containers[id].port
                == self.next_port(),
            self.created(id, req).completed(OutcomeView::Done(pid)).containers[id].bundle
                == req.bundle,
    {
        let after = self.created(id, req).completed(OutcomeView::Done(pid)).containers;
        assert(after.dom() =~= self.containers.dom().insert(id));
    }

    /// The port that an accepted `create` reserves is above every port in
    /// the state map, and so differs from each of them.
    pub proof fn lemma_created_port_is_new(self, id: Seq<char>, req: CreateRequestView)
        requires
            self.wf(),
            self.create_refusal(id, req) is None,
        ensures
            self.created(id, req).containers[id].port == self.next_port(),
            forall|other: Seq<char>| #[trigger]
                self.containers.dom().contains(other) ==> self.containers[other].port
                    < self.created(id, req).containers[id].port,
    {
    }

    /// The port that `create` reserves is one above the highest port handed
    /// out so far. While the container that got that port is in the state
    /// map, or before any port was handed out, this is one above the
    /// greatest of the ports in the state map and `MIN_PORT - 1`.
    pub proof fn lemma_next_port_is_above_greatest(self)
        requires
            self.wf(),
            self.last_port == MIN_PORT - 1 || exists|id: Seq<char>| #[trigger]
                self.containers.dom().contains(id) && self.containers[id].port == self.last_port,
        ensures
            self.next_port() - 1 >= MIN_PORT - 1,
            forall|id: Seq<char>| #[trigger]
                self.containers.dom().contains(id) ==> self.containers[id].port <= self.next_port()
                    - 1,
            self.next_port() - 1 == MIN_PORT - 1 || exists|id: Seq<char>| #[trigger]
                self.containers.dom().contains(id) && self.containers[id].port == self.next_port()
                    - 1,
    {
    }

    /// While the outside work of one operation is under way, every further
    /// first half is refused, names no step and leaves the state as it was:
    /// no container ever has two agent calls in flight.
    pub proof fn lemma_one_call_at_a_time(
        self,
        id: Seq<char>,
        command: Command,
        req: CreateRequestView,
    )
        requires
            self.pending is Some,
        ensures
            self.refusal(id, command) == Some(ErrorView::LockPoisoned),
            self.begun(id, command) == self,
            self.create_refusal(id, req) == Some(ErrorView::LockPoisoned),
            self.created(id, req) == self,
    {
    }

    /// The second half of an operation frees the server for the next one,
    /// whatever the outcome.
    pub proof fn lemma_completed_is_idle(self, outcome: OutcomeView)
        ensures
            self.completed(outcome).pending is None,
    {
    }

    /// After `create` and `delete`, both acknowledged, the state map no
    /// longer holds the id, and a second `create` of the same id is accepted
    /// and reserves a port above the one that the first reserved.
    pub proof fn lemma_recreate_gets_greater_port(
        self,
        id: Seq<char>,
        first: CreateRequestView,
        second: CreateRequestView,
        pid: Option<i32>,
    )
        requires
            self.wf(),
            self.create_refusal(id, first) is None,
            is_absolute(second.bundle),
            is_absolute(second.rootfs),
        ensures
            ({
                let made = self.created(id, first).completed(OutcomeView::Done(pid));
                let gone = made.begun(id, Command::Delete).completed(OutcomeView::Done(None));
                &&& made.refusal(id, Command::Delete) is None
                &&& !gone.containers.dom().contains(id)
                &&& gone.containers == self.containers
                &&& gone.create_refusal(id, second) is None
                &&& gone.created(id, second).containers[id].port > made.containers[id].port
            }),
    {
        let made = self.created(id, first).completed(OutcomeView::Done(pid));
        let gone = made.begun(id, Command::Delete).completed(OutcomeView::Done(None));
        assert(gone.containers =~= self.containers);
    }

    /// An operation whose outside work times out ends with `Timeout` and
    /// leaves the state map as it was before the operation began.
    pub proof fn lemma_timeout_changes_nothing(self, id: Seq<char>, command: Command)
        requires
            self.refusal(id, command) is None,
            command != Command::State,
        ensures
            self.begun(id, command).completion(OutcomeView::TimedOut) == Err::<(), _>(
                ErrorView::Timeout,
            ),
            self.begun(id, command).completed(OutcomeView::TimedOut) == self,
    {
    }

    /// A `create` whose outside work times out ends with `Timeout`, and the
    /// state map is as it was before: the container in creation is gone. The
    /// port that it reserved is not handed out again.
    pub proof fn lemma_create_timeout_changes_nothing(self, id: Seq<char>, req: CreateRequestView)
        requires
            self.create_refusal(id, req) is None,
        ensures
            self.created(id, req).completion(OutcomeView::TimedOut) == Err::<(), _>(
                ErrorView::Timeout,
            ),
            self.created(id, req).completed(OutcomeView::TimedOut).containers == self.containers,
            self.created(id, req).completed(OutcomeView::TimedOut).pending is None,
            self.created(id, req).completed(OutcomeView::TimedOut).last_port == self.next_port(),
    {
        let after = self.created(id, req).completed(OutcomeView::TimedOut);
        assert(after.containers =~= self.containers);
    }
}

} // verus!
