//! The control server: the state map, the vsock port allocator and the two
//! halves of every lifecycle operation.
//!
//! The server performs no outside work itself. The first half of an operation
//! returns the steps that its caller is to carry out; the second half takes
//! their outcome.

use vstd::prelude::*;
use vstd::string::StringExecFns;
use vstd::string::StrSliceExecFns;
use crate::api::{Command, CreateRequest, Error, Response, VmStatus};
use crate::container_rpc::{ContainerCommand, DEFAULT_AGENT_PORT};
use crate::lifecycle::{
    endpoint_path, legal, status_after, CreateRequestView, OutcomeView, Pending,
    Record, ServerState, StepView, MIN_PORT,
};
use crate::path::starts_at_root;
use crate::text::{decimal_string, opt_text, str_eq};
use crate::vm_rpc::VmCommand;

verus! {

impl View for CreateRequest {
    type V = CreateRequestView;

    open spec fn view(&self) -> CreateRequestView {
        CreateRequestView {
            bundle: self.bundle@,
            rootfs: self.rootfs@,
            stdin: opt_text(self.stdin),
            stdout: opt_text(self.stdout),
            stderr: opt_text(self.stderr),
        }
    }
}

/// One piece of outside work that an operation asks of its caller.
#[derive(Clone, Debug, PartialEq, Eq)]
pub enum Step {
    /// Hand a command to the VM engine.
    Vm(VmCommand),
    /// Ship a request to the guest agent over a vsock port.
    Agent { port: u32, command: ContainerCommand },
    /// Remove the link to the bundle from the shared directory, if there is one.
    RemoveBundleLink(String),
}

impl View for Step {
    type V = StepView;

    open spec fn view(&self) -> StepView {
        match self {
            Step::Vm(command) => StepView::Vm(command@),
            Step::Agent { port, command } => StepView::Agent { port: *port, command: *command },
            Step::RemoveBundleLink(path) => StepView::RemoveBundleLink(path@),
        }
    }
}

/// The views of a list of steps, in the same order.
pub open spec fn step_views(steps: Seq<Step>) -> Seq<StepView> {
    steps.map_values(|s: Step| s@)
}

/// How the outside work of an operation ended.
#[derive(Clone, Debug, PartialEq, Eq)]
pub enum Outcome {
    /// Every step was carried out and the agent acknowledged its request.
    /// The number is the process id that the agent reported, if it did.
    Done(Option<i32>),
    /// The VM engine did not carry out a command.
    VmFailed,
    /// The agent answered with an error, which is given as it came.
    AgentFailed(String),
    /// The deadline passed before the work reported back.
    TimedOut,
}

impl View for Outcome {
    type V = OutcomeView;

    open spec fn view(&self) -> OutcomeView {
        match self {
            Outcome::Done(pid) => OutcomeView::Done(*pid),
            Outcome::VmFailed => OutcomeView::VmFailed,
            Outcome::AgentFailed(kind) => OutcomeView::AgentFailed(kind@),
            Outcome::TimedOut => OutcomeView::TimedOut,
        }
    }
}

/// Builds the host path at which the connection on a vsock port is exposed.
pub fn vsock_path(port: u32) -> (path: String)
    ensures
        path@ == endpoint_path(port as nat),
{
    String::from_str("/tmp/akari_vsock_").concat(decimal_string(port).as_str())
}

/// Decides on an operation on a container that exists, by its status.
///
/// Returns the status in which the operation, once acknowledged, leaves the
/// container, or `None` if it removes the container. `State` leaves the
/// status as it is. Fails with `UnexpectedContainerStatus` if the operation
/// is not legal in the status, and `Create` fails with
/// `ContainerAlreadyExists`.
pub fn transition(command: Command, status: VmStatus) -> (result: Result<Option<VmStatus>, Error>)
    ensures
        match result {
            Ok(next) => legal(command, status) && next == if command == Command::Delete {
                None
            } else {
                Some(status_after(command, status))
            },
            Err(e) => !legal(command, status) && e@ == if command == Command::Create {
                crate::api::ErrorView::ContainerAlreadyExists
            } else {
                crate::api::ErrorView::UnexpectedContainerStatus(status)
            },
        },
{
    let allowed = match command {
        Command::Create => {
            return Err(Error::ContainerAlreadyExists);
        },
        Command::Start => status == VmStatus::Created,
        Command::Kill => status == VmStatus::Created || status == VmStatus::Running,
        Command::Delete => status == VmStatus::Created || status == VmStatus::Stopped,
        Command::State => true,
        Command::Connect(_) => status == VmStatus::Running,
    };
    if !allowed {
        return Err(Error::UnexpectedContainerStatus(status));
    }
    match command {
        Command::Start => Ok(Some(VmStatus::Running)),
        Command::Kill => Ok(Some(VmStatus::Stopped)),
        Command::Delete => Ok(None),
        _ => Ok(Some(status)),
    }
}

/// One entry of the state map.
struct Container {
    id: String,
    bundle: String,
    rootfs: String,
    stdin: Option<String>,
    stdout: Option<String>,
    stderr: Option<String>,
    status: VmStatus,
    pid: Option<i32>,
    vsock_port: u32,
}

impl Container {
    spec fn record(self) -> Record {
        Record {
            bundle: self.bundle@,
            rootfs: self.rootfs@,
            stdin: opt_text(self.stdin),
            stdout: opt_text(self.stdout),
            stderr: opt_text(self.stderr),
            status: self.status,
            pid: self.pid,
            port: self.vsock_port as nat,
        }
    }
}

/// The operation whose outside work is under way.
struct PendingOp {
    id: String,
    command: Command,
}

spec fn holds(cs: Seq<Container>, id: Seq<char>) -> bool {
    exists|i: int| 0 <= i < cs.len() && #[trigger] cs[i].id@ == id
}

spec fn slot(cs: Seq<Container>, id: Seq<char>) -> int {
    choose|i: int| 0 <= i < cs.len() && #[trigger] cs[i].id@ == id
}

spec fn distinct(cs: Seq<Container>) -> bool {
    forall|i: int, j: int| 0 <= i < j < cs.len() ==> #[trigger] cs[i].id@ != #[trigger] cs[j].id@
}

spec fn table(cs: Seq<Container>) -> Map<Seq<char>, Record> {
    Map::new(|id: Seq<char>| holds(cs, id), |id: Seq<char>| cs[slot(cs, id)].record())
}

proof fn lemma_table_at(cs: Seq<Container>, i: int)
    requires
        distinct(cs),
        0 <= i < cs.len(),
    ensures
        holds(cs, cs[i].id@),
        table(cs).dom().contains(cs[i].id@),
        table(cs)[cs[i].id@] == cs[i].record(),
{
    let id = cs[i].id@;
    assert(holds(cs, id));
    let j = slot(cs, id);
    assert(0 <= j < cs.len() && cs[j].id@ == id);
    assert(i == j);
}

proof fn lemma_table_push(cs: Seq<Container>, c: Container)
    requires
        distinct(cs),
        !holds(cs, c.id@),
    ensures
        distinct(cs.push(c)),
        table(cs.push(c)) == table(cs).insert(c.id@, c.record()),
{
    let ds = cs.push(c);
    assert forall|i: int, j: int| 0 <= i < j < ds.len() implies #[trigger] ds[i].id@
        != #[trigger] ds[j].id@ by {
        if j == cs.len() {
            assert(cs[i].id@ != c.id@);
        } else {
            assert(cs[i].id@ != cs[j].id@);
        }
    }
    assert forall|id: Seq<char>| holds(ds, id) <==> (holds(cs, id) || id == c.id@) by {
        if holds(ds, id) {
            let i = slot(ds, id);
            if i < cs.len() {
                assert(cs[i].id@ == id);
            }
        }
        if holds(cs, id) {
            let i = slot(cs, id);
            assert(ds[i].id@ == id);
        }
        if id == c.id@ {
            assert(ds[cs.len() as int].id@ == id);
        }
    }
    assert forall|id: Seq<char>| holds(ds, id) implies #[trigger] table(ds)[id] == table(
        cs,
    ).insert(c.id@, c.record())[id] by {
        let i = slot(ds, id);
        lemma_table_at(ds, i);
        if i < cs.len() {
            lemma_table_at(cs, i);
        }
    }
    assert(table(ds) =~= table(cs).insert(c.id@, c.record()));
}

proof fn lemma_table_remove(cs: Seq<Container>, k: int)
    requires
        distinct(cs),
        0 <= k < cs.len(),
    ensures
        distinct(cs.remove(k)),
        !holds(cs.remove(k), cs[k].id@),
        table(cs.remove(k)) == table(cs).remove(cs[k].id@),
{
    let ds = cs.remove(k);
    let gone = cs[k].id@;
    assert forall|i: int| 0 <= i < ds.len() implies ds[i] == cs[if i < k {
        i
    } else {
        i + 1
    }] by {}
    assert forall|i: int, j: int| 0 <= i < j < ds.len() implies #[trigger] ds[i].id@
        != #[trigger] ds[j].id@ by {
        let a = if i < k {
            i
        } else {
            i + 1
        };
        let b = if j < k {
            j
        } else {
            j + 1
        };
        assert(cs[a].id@ != cs[b].id@);
    }
    assert forall|id: Seq<char>| holds(ds, id) <==> (holds(cs, id) && id != gone) by {
        if holds(ds, id) {
            let i = slot(ds, id);
            let a = if i < k {
                i
            } else {
                i + 1
            };
            assert(cs[a].id@ == id);
            if a < k {
                assert(cs[a].id@ != cs[k].id@);
            } else {
                assert(cs[k].id@ != cs[a].id@);
            }
        }
        if holds(cs, id) && id != gone {
            let i = slot(cs, id);
            let a = if i < k {
                i
            } else {
                i - 1
            };
            assert(ds[a].id@ == id);
        }
    }
    assert forall|id: Seq<char>| holds(ds, id) implies #[trigger] table(ds)[id] == table(cs)[id] by {
        let i = slot(ds, id);
        let a = if i < k {
            i
        } else {
            i + 1
        };
        lemma_table_at(ds, i);
        lemma_table_at(cs, a);
    }
    assert(table(ds) =~= table(cs).remove(gone));
}

proof fn lemma_table_finite(cs: Seq<Container>)
    requires
        distinct(cs),
    ensures
        table(cs).dom().finite(),
    decreases cs.len(),
{
    if cs.len() == 0 {
        assert(table(cs).dom() =~= Set::<Seq<char>>::empty());
    } else {
        let k = cs.len() - 1;
        let ds = cs.remove(k);
        lemma_table_remove(cs, k);
        lemma_table_finite(ds);
        lemma_table_at(cs, k);
        assert(table(cs).dom() =~= table(ds).dom().insert(cs[k].id@));
    }
}

/// The control server's state map, port allocator and pending slot.
pub struct ApiServer {
    containers: Vec<Container>,
    last_port: u32,
    pending: Option<PendingOp>,
}

impl View for ApiServer {
    type V = ServerState;

    closed spec fn view(&self) -> ServerState {
        ServerState {
            containers: table(self.containers@),
            last_port: self.last_port as nat,
            pending: match self.pending {
                Some(p) => Some(Pending { id: p.id@, command: p.command }),
                None => None,
            },
        }
    }
}

impl ApiServer {
    /// The invariant of the server: its state is well formed and no id
    /// stands twice in the state map.
    pub closed spec fn inv(&self) -> bool {
        &&& distinct(self.containers@)
        &&& self@.wf()
    }

    /// A server in its invariant has a well-formed state, whose ports fit
    /// a vsock port number.
    pub proof fn lemma_inv(&self)
        requires
            self.inv(),
        ensures
            self@.wf(),
            self@.last_port <= u32::MAX,
    {
    }

    /// Makes a server that holds no container and has handed out no port.
    pub fn new() -> (server: ApiServer)
        ensures
            server.inv(),
            server@ == ServerState::fresh(),
    {
        let server = ApiServer { containers: Vec::new(), last_port: MIN_PORT - 1, pending: None };
        proof {
            assert(table(server.containers@) =~= Map::<Seq<char>, Record>::empty());
            assert(server@.containers.dom() =~= Set::<Seq<char>>::empty());
        }
        server
    }

    /// Returns the highest vsock port handed out so far, `MIN_PORT - 1` if
    /// none was.
    pub fn last_port(&self) -> (port: u32)
        ensures
            port == self@.last_port,
    {
        self.last_port
    }

    /// Returns the number of containers in the state map.
    pub fn len(&self) -> (n: usize)
        requires
            self.inv(),
        ensures
            n == self@.containers.dom().len(),
    {
        proof {
            lemma_table_len(self.containers@);
        }
        self.containers.len()
    }

    /// Tells whether the outside work of an operation is under way.
    pub fn is_busy(&self) -> (busy: bool)
        ensures
            busy == self@.pending is Some,
    {
        self.pending.is_some()
    }

    fn find(&self, id: &str) -> (found: Option<usize>)
        requires
            distinct(self.containers@),
        ensures
            match found {
                Some(i) => i < self.containers@.len() && self.containers@[i as int].id@ == id@,
                None => !holds(self.containers@, id@),
            },
            found is Some <==> self@.containers.dom().contains(id@),
            found matches Some(i) ==> self@.containers[id@] == self.containers@[i as int].record(),
    {
        let mut i: usize = 0;
        while i < self.containers.len()
            invariant
                i <= self.containers@.len(),
                distinct(self.containers@),
                forall|k: int| 0 <= k < i ==> #[trigger] self.containers@[k].id@ != id@,
            decreases self.containers@.len() - i,
        {
            if str_eq(self.containers[i].id.as_str(), id) {
                proof {
                    lemma_table_at(self.containers@, i as int);
                }
                return Some(i);
            }
            i += 1;
        }
        None
    }

    /// Returns the vsock port reserved for a container, if the state map
    /// holds it.
    pub fn vsock_port(&self, id: &str) -> (port: Option<u32>)
        requires
            self.inv(),
        ensures
            match port {
                Some(p) => self@.containers.dom().contains(id@) && self@.containers[id@].port == p,
                None => !self@.containers.dom().contains(id@),
            },
    {
        match self.find(id) {
            Some(i) => Some(self.containers[i].vsock_port),
            None => None,
        }
    }

    /// Reports a container's id, status, process id and bundle path.
    ///
    /// Fails with `ContainerNotFound` if the state map holds no container of
    /// that id, and in no other case.
    pub fn state(&self, id: &str) -> (result: Result<Response, Error>)
        requires
            self.inv(),
        ensures
            match result {
                Ok(response) => {
                    &&& self@.containers.dom().contains(id@)
                    &&& response.container_id@ == id@
                    &&& response.status == self@.containers[id@].status
                    &&& response.pid == self@.containers[id@].pid
                    &&& response.bundle@ == self@.containers[id@].bundle
                },
                Err(e) => !self@.containers.dom().contains(id@) && e@
                    == crate::api::ErrorView::ContainerNotFound,
            },
    {
        match self.find(id) {
            Some(i) => {
                let c = &self.containers[i];
                Ok(
                    Response {
                        container_id: String::from_str(id),
                        status: c.status,
                        pid: c.pid,
                        bundle: c.bundle.clone(),
                    },
                )
            },
            None => Err(Error::ContainerNotFound),
        }
    }

    /// The first half of `create`: reserves the next vsock port, enters the
    /// container into the state map in status `Creating` and returns the
    /// outside work.
    ///
    /// Refused with `LockPoisoned` while another operation is under way, with
    /// `ContainerAlreadyExists` if the state map holds the id, with
    /// `ConfigInvalid` if the bundle or the root file system is not an
    /// absolute path; a refusal changes nothing.
    pub fn create(&mut self, id: &str, req: CreateRequest) -> (result: Result<Vec<Step>, Error>)
        requires
            old(self).inv(),
            old(self)@.last_port < u32::MAX,
        ensures
            final(self).inv(),
            final(self)@ == old(self)@.created(id@, req@),
            match result {
                Ok(steps) => old(self)@.create_refusal(id@, req@) is None && step_views(steps@)
                    == old(self)@.create_steps(),
                Err(e) => old(self)@.create_refusal(id@, req@) == Some(e@),
            },
    {
        if self.pending.is_some() {
            return Err(Error::LockPoisoned);
        }
        if self.find(id).is_some() {
            return Err(Error::ContainerAlreadyExists);
        }
        if !starts_at_root(req.bundle.as_str()) || !starts_at_root(req.rootfs.as_str()) {
            return Err(Error::ConfigInvalid);
        }
        let port = self.last_port + 1;
        let container = Container {
            id: String::from_str(id),
            bundle: req.bundle,
            rootfs: req.rootfs,
            stdin: req.stdin,
            stdout: req.stdout,
            stderr: req.stderr,
            status: VmStatus::Creating,
            pid: None,
            vsock_port: port,
        };
        proof {
            lemma_table_push(self.containers@, container);
            old(self)@.lemma_created_wf(id@, req@);
        }
        self.containers.push(container);
        self.last_port = port;
        self.pending = Some(PendingOp { id: String::from_str(id), command: Command::Create });
        let mut steps: Vec<Step> = Vec::new();
        steps.push(Step::Vm(VmCommand::Connect(port, vsock_path(port))));
        steps.push(Step::Agent { port: DEFAULT_AGENT_PORT, command: ContainerCommand::Create(port) });
        proof {
            assert(step_views(steps@) =~= old(self)@.create_steps());
        }
        Ok(steps)
    }

    /// The first half of `start`, `kill`, `delete` and `connect`.
    fn begin(&mut self, id: &str, command: Command) -> (result: Result<Vec<Step>, Error>)
        requires
            old(self).inv(),
            command != Command::State,
            command != Command::Create,
        ensures
            final(self).inv(),
            final(self)@ == old(self)@.begun(id@, command),
            match result {
                Ok(steps) => old(self)@.refusal(id@, command) is None && step_views(steps@) == old(
                    self,
                )@.steps(id@, command),
                Err(e) => old(self)@.refusal(id@, command) == Some(e@),
            },
    {
        if self.pending.is_some() {
            return Err(Error::LockPoisoned);
        }
        let i = match self.find(id) {
            Some(i) => i,
            None => {
                return Err(Error::ContainerNotFound);
            },
        };
        let status = self.containers[i].status;
        let port = self.containers[i].vsock_port;
        match transition(command, status) {
            Ok(_) => {},
            Err(e) => {
                return Err(e);
            },
        }
        let mut steps: Vec<Step> = Vec::new();
        match command {
            Command::Start => {
                steps.push(Step::Agent { port, command: ContainerCommand::Start });
            },
            Command::Kill => {
                steps.push(Step::Agent { port, command: ContainerCommand::Kill });
            },
            Command::Delete => {
                steps.push(Step::Agent { port, command: ContainerCommand::Delete });
                steps.push(Step::Vm(VmCommand::Disconnect(port)));
                steps.push(Step::RemoveBundleLink(self.containers[i].bundle.clone()));
            },
            Command::Connect(extra) => {
                steps.push(Step::Vm(VmCommand::Connect(extra, vsock_path(extra))));
            },
            _ => {},
        }
        proof {
            old(self)@.lemma_begun_wf(id@, command);
            assert(step_views(steps@) =~= old(self)@.steps(id@, command));
        }
        self.pending = Some(PendingOp { id: String::from_str(id), command });
        Ok(steps)
    }

    /// The first half of `start`: legal in status `Created`; the outside
    /// work is the agent's `Start` over the container's port.
    ///
    /// Refused with `LockPoisoned` while another operation is under way, with
    /// `ContainerNotFound` if the state map lacks the id, with
    /// `UnexpectedContainerStatus` in any other status; a refusal changes
    /// nothing.
    pub fn start(&mut self, id: &str) -> (result: Result<Vec<Step>, Error>)
        requires
            old(self).inv(),
        ensures
            final(self).inv(),
            final(self)@ == old(self)@.begun(id@, Command::Start),
            match result {
                Ok(steps) => old(self)@.refusal(id@, Command::Start) is None && step_views(steps@)
                    == old(self)@.steps(id@, Command::Start),
                Err(e) => old(self)@.refusal(id@, Command::Start) == Some(e@),
            },
    {
        self.begin(id, Command::Start)
    }

    /// The first half of `kill`: legal in status `Created` or `Running`; the
    /// outside work is the agent's `Kill` over the container's port.
    ///
    /// Refused as `start` is.
    pub fn kill(&mut self, id: &str) -> (result: Result<Vec<Step>, Error>)
        requires
            old(self).inv(),
        ensures
            final(self).inv(),
            final(self)@ == old(self)@.begun(id@, Command::Kill),
            match result {
                Ok(steps) => old(self)@.refusal(id@, Command::Kill) is None && step_views(steps@)
                    == old(self)@.steps(id@, Command::Kill),
                Err(e) => old(self)@.refusal(id@, Command::Kill) == Some(e@),
            },
    {
        self.begin(id, Command::Kill)
    }

    /// The first half of `delete`: legal in status `Created` or `Stopped`;
    /// the outside work is the agent's `Delete`, the VM's `Disconnect` of the
    /// container's port and the removal of the bundle link.
    ///
    /// Refused as `start` is.
    pub fn delete(&mut self, id: &str) -> (result: Result<Vec<Step>, Error>)
        requires
            old(self).inv(),
        ensures
            final(self).inv(),
            final(self)@ == old(self)@.begun(id@, Command::Delete),
            match result {
                Ok(steps) => old(self)@.refusal(id@, Command::Delete) is None && step_views(steps@)
                    == old(self)@.steps(id@, Command::Delete),
                Err(e) => old(self)@.refusal(id@, Command::Delete) == Some(e@),
            },
    {
        self.begin(id, Command::Delete)
    }

    /// The first half of `connect`: legal in status `Running`; the outside
    /// work is the VM's `Connect` on the given port.
    ///
    /// Refused as `start` is.
    pub fn connect(&mut self, id: &str, port: u32) -> (result: Result<Vec<Step>, Error>)
        requires
            old(self).inv(),
        ensures
            final(self).inv(),
            final(self)@ == old(self)@.begun(id@, Command::Connect(port)),
            match result {
                Ok(steps) => old(self)@.refusal(id@, Command::Connect(port)) is None && step_views(
                    steps@,
                ) == old(self)@.steps(id@, Command::Connect(port)),
                Err(e) => old(self)@.refusal(id@, Command::Connect(port)) == Some(e@),
            },
    {
        self.begin(id, Command::Connect(port))
    }

    /// Returns what is to be undone outside when the operation under way
    /// ends with the given outcome: where the agent refused a `create` or
    /// did not answer in time, the VM's connection on the container's port
    /// is to be given up, since the container is. In every other case
    /// nothing is to be undone.
    ///
    /// The steps are to be asked for before `complete` is called, and may be
    /// carried out after it; a step that fails needs no further care.
    pub fn undo_steps(&self, outcome: &Outcome) -> (steps: Vec<Step>)
        requires
            self.inv(),
        ensures
            step_views(steps@) == self@.undo(outcome@),
    {
        let mut steps: Vec<Step> = Vec::new();
        let creating = match &self.pending {
            Some(p) => match p.command {
                Command::Create => true,
                _ => false,
            },
            None => false,
        };
        let given_up = match outcome {
            Outcome::AgentFailed(_) => true,
            Outcome::TimedOut => true,
            _ => false,
        };
        if creating && given_up {
            match &self.pending {
                Some(p) => match self.find(p.id.as_str()) {
                    Some(i) => {
                        steps.push(Step::Vm(VmCommand::Disconnect(self.containers[i].vsock_port)));
                    },
                    None => {},
                },
                None => {},
            }
        }
        proof {
            assert(step_views(steps@) =~= self@.undo(outcome@));
        }
        steps
    }

    /// The second half of the operation under way.
    ///
    /// On `Done` the container takes the status that the operation leads to,
    /// or leaves the state map if the operation was `delete`. On every other
    /// outcome the state map is what it was before the operation began: a
    /// container in creation is removed, any other keeps its status. The
    /// result names the outcome: `VmCommandFailed`, `AgentError` with the
    /// agent's words, or `Timeout`. With no operation under way the call
    /// fails with `ThreadNotFound` and changes nothing.
    pub fn complete(&mut self, outcome: Outcome) -> (result: Result<(), Error>)
        requires
            old(self).inv(),
        ensures
            final(self).inv(),
            final(self)@ == old(self)@.completed(outcome@),
            match result {
                Ok(()) => old(self)@.completion(outcome@) is Ok,
                Err(e) => old(self)@.completion(outcome@) == Err::<(), _>(e@),
            },
    {
        let pending = match self.pending.take() {
            Some(p) => p,
            None => {
                return Err(Error::ThreadNotFound);
            },
        };
        proof {
            old(self)@.lemma_completed_wf(outcome@);
        }
        let i = match self.find(pending.id.as_str()) {
            Some(i) => i,
            None => {
                return Err(Error::ThreadNotFound);
            },
        };
        let ghost before = self.containers@;
        match outcome {
            Outcome::Done(pid) => {
                let entry = self.containers.remove(i);
                proof {
                    lemma_table_remove(before, i as int);
                }
                let next = match pending.command {
                    Command::Create => Some(VmStatus::Created),
                    command => match transition(command, entry.status) {
                        Ok(next) => next,
                        Err(_) => Some(entry.status),
                    },
                };
                match next {
                    None => {},
                    Some(status) => {
                        let moved = Container {
                            status,
                            pid: if pid.is_some() {
                                pid
                            } else {
                                entry.pid
                            },
                            ..entry
                        };
                        proof {
                            lemma_table_push(self.containers@, moved);
                            assert(table(self.containers@.push(moved)) =~= table(before).insert(
                                moved.id@,
                                moved.record(),
                            ));
                        }
                        self.containers.push(moved);
                    },
                }
                Ok(())
            },
            failed => {
                match pending.command {
                    Command::Create => {
                        self.containers.remove(i);
                        proof {
                            lemma_table_remove(before, i as int);
                        }
                    },
                    _ => {},
                }
                match failed {
                    Outcome::AgentFailed(kind) => Err(Error::AgentError(kind)),
                    Outcome::TimedOut => Err(Error::Timeout),
                    _ => Err(Error::VmCommandFailed),
                }
            },
        }
    }
}

proof fn lemma_table_len(cs: Seq<Container>)
    requires
        distinct(cs),
    ensures
        table(cs).dom().finite(),
        table(cs).dom().len() == cs.len(),
    decreases cs.len(),
{
    lemma_table_finite(cs);
    if cs.len() == 0 {
        assert(table(cs).dom() =~= Set::<Seq<char>>::empty());
    } else {
        let k = cs.len() - 1;
        let ds = cs.remove(k);
        lemma_table_remove(cs, k);
        lemma_table_len(ds);
        lemma_table_at(cs, k);
        assert(table(cs).dom() =~= table(ds).dom().insert(cs[k].id@));
    }
}

} // verus!
