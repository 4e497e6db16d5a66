//! The VM engine: which commands the VM accepts in which state, and which
//! vsock ports are connected.
//!
//! The engine makes no call to the hypervisor. A command that it accepts is
//! carried out by its caller, on the VM's queue, and the caller reports how
//! the call ended.

use std::collections::HashMap;
use vstd::prelude::*;
use vstd::string::StringExecFns;
use crate::vm_rpc::{VmCommand, VmCommandView};

verus! {

broadcast use vstd::std_specs::hash::group_hash_axioms;

/// Why the engine refused a command or a call failed.
#[derive(Clone, Copy, Debug, PartialEq, Eq, Structural)]
pub enum Error {
    /// The hypervisor does not accept the VM's configuration.
    InvalidConfiguration,
    /// The VM cannot be started now, or the hypervisor failed to start it.
    VmStartFailed,
    /// The VM cannot be stopped now, or the hypervisor failed to stop it.
    VmStopFailed,
    /// The port is connected already, or is not connected.
    InvalidVsockPort,
    /// The VM takes no connection now, or the guest did not accept one.
    VsockConnectFailed,
}

impl Error {
    /// The text that describes the error to a person.
    pub open spec fn text(self) -> Seq<char> {
        match self {
            Error::InvalidConfiguration => "Invalid configuration"@,
            Error::VmStartFailed => "Failed to start VM"@,
            Error::VmStopFailed => "Failed to stop VM"@,
            Error::InvalidVsockPort => "Invalid vsock port"@,
            Error::VsockConnectFailed => "Failed to connect to vsock port"@,
        }
    }

    /// Returns the text that describes the error to a person.
    pub fn message(&self) -> (text: String)
        ensures
            text@ == self.text(),
    {
        match self {
            Error::InvalidConfiguration => String::from_str("Invalid configuration"),
            Error::VmStartFailed => String::from_str("Failed to start VM"),
            Error::VmStopFailed => String::from_str("Failed to stop VM"),
            Error::InvalidVsockPort => String::from_str("Invalid vsock port"),
            Error::VsockConnectFailed => String::from_str("Failed to connect to vsock port"),
        }
    }
}

/// Where the VM stands in its life.
#[derive(Clone, Copy, Debug, PartialEq, Eq, Structural)]
pub enum VmState {
    Uninitialized,
    Configured,
    Starting,
    Running,
    Stopping,
    Stopped,
}

/// What the engine holds of one vsock port, as a mathematical value.
pub struct PortView {
    /// The host path at which the connection is exposed.
    pub path: Seq<char>,
    /// Whether the guest has accepted the connection.
    pub live: bool,
}

/// The engine's state as a mathematical value.
pub struct VmView {
    pub state: VmState,
    /// The ports that are connected or being connected.
    pub ports: Map<u32, PortView>,
}

impl VmView {
    /// In every state but `Running` and `Stopping` no port is held.
    pub open spec fn wf(self) -> bool {
        &&& self.ports.dom().finite()
        &&& self.state != VmState::Running && self.state != VmState::Stopping
            ==> self.ports.dom().is_empty()
    }

    /// Tells whether the guest has accepted a connection on a port.
    pub open spec fn connected(self, port: u32) -> bool {
        self.ports.dom().contains(port) && self.ports[port].live
    }

    /// The error with which a command is refused, if it is.
    pub open spec fn refusal(self, command: VmCommandView) -> Option<Error> {
        match command {
            VmCommandView::Start => if self.state == VmState::Configured {
                None
            } else {
                Some(Error::VmStartFailed)
            },
            VmCommandView::Stop => if self.state == VmState::Running {
                None
            } else {
                Some(Error::VmStopFailed)
            },
            VmCommandView::Connect(port, _) => if self.state != VmState::Running {
                Some(Error::VsockConnectFailed)
            } else if self.ports.dom().contains(port) {
                Some(Error::InvalidVsockPort)
            } else {
                None
            },
            VmCommandView::Disconnect(port) => if self.state == VmState::Running && self.connected(
                port,
            ) {
                None
            } else {
                Some(Error::InvalidVsockPort)
            },
            VmCommandView::VsockSend(port, _) => if self.state == VmState::Running
                && self.connected(port) {
                None
            } else {
                Some(Error::InvalidVsockPort)
            },
            VmCommandView::VsockRecv(port) => if self.state == VmState::Running && self.connected(
                port,
            ) {
                None
            } else {
                Some(Error::InvalidVsockPort)
            },
        }
    }

    /// The state in which a command leaves the engine: a refused command
    /// leaves it as it was.
    pub open spec fn handled(self, command: VmCommandView) -> VmView {
        if self.refusal(command) is Some {
            self
        } else {
            match command {
                VmCommandView::Start => VmView { state: VmState::Starting, ..self },
                VmCommandView::Stop => VmView { state: VmState::Stopping, ..self },
                VmCommandView::Connect(port, path) => VmView {
                    ports: self.ports.insert(port, PortView { path, live: false }),
                    ..self
                },
                VmCommandView::Disconnect(port) => VmView {
                    ports: self.ports.remove(port),
                    ..self
                },
                _ => self,
            }
        }
    }

    /// The state after the hypervisor has reported on a start.
    pub open spec fn after_start(self, ok: bool) -> VmView {
        if self.state != VmState::Starting {
            self
        } else if ok {
            VmView { state: VmState::Running, ..self }
        } else {
            VmView { state: VmState::Configured, ..self }
        }
    }

    /// The state after the hypervisor has reported on a stop. A VM that has
    /// stopped holds no port.
    pub open spec fn after_stop(self, ok: bool) -> VmView {
        if self.state != VmState::Stopping {
            self
        } else if ok {
            VmView { state: VmState::Stopped, ports: Map::empty() }
        } else {
            VmView { state: VmState::Running, ..self }
        }
    }

    /// Tells whether a connection on a port is being made.
    pub open spec fn connecting(self, port: u32) -> bool {
        self.ports.dom().contains(port) && !self.ports[port].live
    }

    /// The state after the guest has answered a connection on a port.
    pub open spec fn after_connect(self, port: u32, ok: bool) -> VmView {
        if !self.connecting(port) {
            self
        } else if ok {
            VmView {
                ports: self.ports.insert(port, PortView { live: true, ..self.ports[port] }),
                ..self
            }
        } else {
            VmView { ports: self.ports.remove(port), ..self }
        }
    }

    /// The state after either side has closed the connection on a port.
    pub open spec fn after_close(self, port: u32) -> VmView {
        VmView { ports: self.ports.remove(port), ..self }
    }

    /// A command keeps the state well formed, accepted or refused.
    pub proof fn lemma_handled_wf(self, command: VmCommandView)
        requires
            self.wf(),
        ensures
            self.handled(command).wf(),
    {
    }

    /// Commands on ports are accepted only while the VM runs, `Start` only
    /// on a configured VM and `Stop` only on a running one.
    pub proof fn lemma_accepted_in_state(self, command: VmCommandView)
        requires
            self.refusal(command) is None,
        ensures
            command is Start ==> self.state == VmState::Configured,
            !(command is Start) ==> self.state == VmState::Running,
    {
    }

    /// A port that was connected and then disconnected can be connected
    /// again.
    pub proof fn lemma_reconnect(self, port: u32, path: Seq<char>, again: Seq<char>)
        requires
            self.state == VmState::Running,
            !self.ports.dom().contains(port),
        ensures
            ({
                let up = self.handled(VmCommandView::Connect(port, path)).after_connect(port, true);
                let down = up.handled(VmCommandView::Disconnect(port));
                &&& up.connected(port)
                &&& up.refusal(VmCommandView::Connect(port, again)) == Some(Error::InvalidVsockPort)
                &&& up.refusal(VmCommandView::Disconnect(port)) is None
                &&& !down.ports.dom().contains(port)
                &&& down.refusal(VmCommandView::Connect(port, again)) is None
            }),
    {
    }
}

/// What the engine holds of one vsock port.
struct PortEntry {
    path: String,
    live: bool,
}

impl View for PortEntry {
    type V = PortView;

    closed spec fn view(&self) -> PortView {
        PortView { path: self.path@, live: self.live }
    }
}

/// The VM engine.
pub struct Vm {
    state: VmState,
    ports: HashMap<u32, PortEntry>,
}

impl View for Vm {
    type V = VmView;

    closed spec fn view(&self) -> VmView {
        VmView { state: self.state, ports: self.ports@.map_values(|e: PortEntry| e@) }
    }
}

impl Vm {
    /// The engine's invariant.
    pub closed spec fn inv(&self) -> bool {
        self@.wf()
    }

    /// An engine in its invariant has a well-formed state.
    pub proof fn lemma_inv(&self)
        requires
            self.inv(),
        ensures
            self@.wf(),
    {
    }

    /// Makes the engine of a VM that has no configuration yet.
    pub fn new() -> (vm: Vm)
        ensures
            vm.inv(),
            vm@.state == VmState::Uninitialized,
            vm@.ports == Map::<u32, PortView>::empty(),
    {
        let vm = Vm { state: VmState::Uninitialized, ports: HashMap::new() };
        proof {
            assert(vm@.ports =~= Map::<u32, PortView>::empty());
        }
        vm
    }

    /// Takes the hypervisor's verdict on the VM's configuration.
    ///
    /// A VM without configuration becomes `Configured` if the verdict is
    /// good. In every other case the call fails with `InvalidConfiguration`
    /// and changes nothing.
    pub fn configure(&mut self, valid: bool) -> (result: Result<(), Error>)
        requires
            old(self).inv(),
        ensures
            final(self).inv(),
            result is Ok <==> old(self)@.state == VmState::Uninitialized && valid,
            result is Ok ==> final(self)@ == (VmView { state: VmState::Configured, ..old(self)@ }),
            result is Err ==> final(self)@ == old(self)@ && result == Err::<(), Error>(
                Error::InvalidConfiguration,
            ),
    {
        if self.state == VmState::Uninitialized && valid {
            self.state = VmState::Configured;
            Ok(())
        } else {
            Err(Error::InvalidConfiguration)
        }
    }

    /// Returns where the VM stands in its life.
    pub fn state(&self) -> (state: VmState)
        ensures
            state == self@.state,
    {
        self.state
    }

    /// Tells whether the guest has accepted a connection on a port.
    pub fn is_connected(&self, port: u32) -> (yes: bool)
        ensures
            yes == self@.connected(port),
    {
        match self.ports.get(&port) {
            Some(entry) => entry.live,
            None => false,
        }
    }

    /// Returns the number of ports that are connected or being connected.
    pub fn port_count(&self) -> (n: usize)
        ensures
            n == self@.ports.dom().len(),
    {
        proof {
            assert(self@.ports.dom() =~= self.ports@.dom());
        }
        self.ports.len()
    }

    /// Decides on a command.
    ///
    /// An accepted command is to be carried out by the caller, who reports
    /// the end of a start, a stop or a connect with `started`, `stopped` or
    /// `connected`. A refused command changes nothing. `Start` is refused
    /// with `VmStartFailed` unless the VM is configured, `Stop` with
    /// `VmStopFailed` unless it runs. `Connect` is refused with
    /// `VsockConnectFailed` unless the VM runs, and with `InvalidVsockPort`
    /// if the port is connected or being connected. `Disconnect`,
    /// `VsockSend` and `VsockRecv` are refused with `InvalidVsockPort`
    /// unless the VM runs and the port is connected.
    pub fn handle_cmd(&mut self, command: &VmCommand) -> (result: Result<(), Error>)
        requires
            old(self).inv(),
        ensures
            final(self).inv(),
            final(self)@ == old(self)@.handled(command@),
            match result {
                Ok(()) => old(self)@.refusal(command@) is None,
                Err(e) => old(self)@.refusal(command@) == Some(e),
            },
    {
        match command {
            VmCommand::Start => self.start(),
            VmCommand::Stop => self.kill(),
            VmCommand::Connect(port, path) => self.connect(*port, path.as_str()),
            VmCommand::Disconnect(port) => self.disconnect(*port),
            VmCommand::VsockSend(port, _) => {
                if self.state == VmState::Running && self.is_connected(*port) {
                    Ok(())
                } else {
                    Err(Error::InvalidVsockPort)
                }
            },
            VmCommand::VsockRecv(port) => {
                if self.state == VmState::Running && self.is_connected(*port) {
                    Ok(())
                } else {
                    Err(Error::InvalidVsockPort)
                }
            },
        }
    }

    /// Decides on a start: a configured VM becomes `Starting`. In every
    /// other state the call fails with `VmStartFailed` and changes nothing.
    pub fn start(&mut self) -> (result: Result<(), Error>)
        requires
            old(self).inv(),
        ensures
            final(self).inv(),
            final(self)@ == old(self)@.handled(VmCommandView::Start),
            match result {
                Ok(()) => old(self)@.refusal(VmCommandView::Start) is None,
                Err(e) => old(self)@.refusal(VmCommandView::Start) == Some(e),
            },
    {
        if self.state == VmState::Configured {
            self.state = VmState::Starting;
            Ok(())
        } else {
            Err(Error::VmStartFailed)
        }
    }

    /// Decides on a stop: a running VM becomes `Stopping`. In every other
    /// state the call fails with `VmStopFailed` and changes nothing.
    pub fn kill(&mut self) -> (result: Result<(), Error>)
        requires
            old(self).inv(),
        ensures
            final(self).inv(),
            final(self)@ == old(self)@.handled(VmCommandView::Stop),
            match result {
                Ok(()) => old(self)@.refusal(VmCommandView::Stop) is None,
                Err(e) => old(self)@.refusal(VmCommandView::Stop) == Some(e),
            },
    {
        if self.state == VmState::Running {
            self.state = VmState::Stopping;
            Ok(())
        } else {
            Err(Error::VmStopFailed)
        }
    }

    /// Decides on a connection: on a running VM a port that is not held is
    /// entered as being connected, with the host path at which it is to be
    /// exposed. Fails with `VsockConnectFailed` unless the VM runs, else
    /// with `InvalidVsockPort` if the port is held; a failure changes
    /// nothing.
    pub fn connect(&mut self, port: u32, client_path: &str) -> (result: Result<(), Error>)
        requires
            old(self).inv(),
        ensures
            final(self).inv(),
            final(self)@ == old(self)@.handled(VmCommandView::Connect(port, client_path@)),
            match result {
                Ok(()) => old(self)@.refusal(VmCommandView::Connect(port, client_path@)) is None,
                Err(e) => old(self)@.refusal(VmCommandView::Connect(port, client_path@)) == Some(
                    e,
                ),
            },
    {
        if self.state != VmState::Running {
            return Err(Error::VsockConnectFailed);
        }
        if self.ports.contains_key(&port) {
            return Err(Error::InvalidVsockPort);
        }
        self.ports.insert(port, PortEntry { path: String::from_str(client_path), live: false });
        proof {
            assert(final(self)@.ports =~= old(self)@.ports.insert(
                port,
                PortView { path: client_path@, live: false },
            ));
        }
        Ok(())
    }

    /// Decides on the end of a connection: on a running VM a connected port
    /// is given up. In every other case the call fails with
    /// `InvalidVsockPort` and changes nothing.
    pub fn disconnect(&mut self, port: u32) -> (result: Result<(), Error>)
        requires
            old(self).inv(),
        ensures
            final(self).inv(),
            final(self)@ == old(self)@.handled(VmCommandView::Disconnect(port)),
            match result {
                Ok(()) => old(self)@.refusal(VmCommandView::Disconnect(port)) is None,
                Err(e) => old(self)@.refusal(VmCommandView::Disconnect(port)) == Some(e),
            },
    {
        if self.state == VmState::Running && self.is_connected(port) {
            self.ports.remove(&port);
            proof {
                assert(final(self)@.ports =~= old(self)@.ports.remove(port));
            }
            Ok(())
        } else {
            Err(Error::InvalidVsockPort)
        }
    }

    /// Takes the hypervisor's report on a start: a starting VM runs if the
    /// start succeeded, and is configured as before if it failed.
    ///
    /// Fails with `VmStartFailed` if the start failed or no start was under
    /// way; in the second case nothing changes.
    pub fn started(&mut self, ok: bool) -> (result: Result<(), Error>)
        requires
            old(self).inv(),
        ensures
            final(self).inv(),
            final(self)@ == old(self)@.after_start(ok),
            result is Ok <==> old(self)@.state == VmState::Starting && ok,
            result is Err ==> result == Err::<(), Error>(Error::VmStartFailed),
    {
        if self.state != VmState::Starting {
            return Err(Error::VmStartFailed);
        }
        if ok {
            self.state = VmState::Running;
            Ok(())
        } else {
            self.state = VmState::Configured;
            Err(Error::VmStartFailed)
        }
    }

    /// Takes the hypervisor's report on a stop: a stopping VM has stopped
    /// and holds no port if the stop succeeded, and runs as before if it
    /// failed.
    ///
    /// Fails with `VmStopFailed` if the stop failed or no stop was under
    /// way; in the second case nothing changes.
    pub fn stopped(&mut self, ok: bool) -> (result: Result<(), Error>)
        requires
            old(self).inv(),
        ensures
            final(self).inv(),
            final(self)@ == old(self)@.after_stop(ok),
            result is Ok <==> old(self)@.state == VmState::Stopping && ok,
            result is Err ==> result == Err::<(), Error>(Error::VmStopFailed),
    {
        if self.state != VmState::Stopping {
            return Err(Error::VmStopFailed);
        }
        if ok {
            self.state = VmState::Stopped;
            self.ports.clear();
            proof {
                assert(final(self)@.ports =~= Map::<u32, PortView>::empty());
            }
            Ok(())
        } else {
            self.state = VmState::Running;
            Err(Error::VmStopFailed)
        }
    }

    /// Takes the guest's answer to a connection: a port that was being
    /// connected is connected if the guest accepted, and given up if not.
    ///
    /// Fails with `VsockConnectFailed` if the guest did not accept, and
    /// with `InvalidVsockPort` if the port was not being connected; in the
    /// second case nothing changes.
    pub fn connected(&mut self, port: u32, ok: bool) -> (result: Result<(), Error>)
        requires
            old(self).inv(),
        ensures
            final(self).inv(),
            final(self)@ == old(self)@.after_connect(port, ok),
            match result {
                Ok(()) => old(self)@.connecting(port) && ok,
                Err(e) => if old(self)@.connecting(port) {
                    !ok && e == Error::VsockConnectFailed
                } else {
                    e == Error::InvalidVsockPort
                },
            },
    {
        let entry = match self.ports.remove(&port) {
            Some(entry) => entry,
            None => {
                proof {
                    assert(final(self)@.ports =~= old(self)@.ports);
                }
                return Err(Error::InvalidVsockPort);
            },
        };
        if entry.live {
            self.ports.insert(port, entry);
            proof {
                assert(final(self)@.ports =~= old(self)@.ports);
            }
            return Err(Error::InvalidVsockPort);
        }
        if ok {
            self.ports.insert(port, PortEntry { path: entry.path, live: true });
            proof {
                assert(final(self)@.ports =~= old(self)@.after_connect(port, ok).ports);
            }
            Ok(())
        } else {
            proof {
                assert(final(self)@.ports =~= old(self)@.after_connect(port, ok).ports);
            }
            Err(Error::VsockConnectFailed)
        }
    }

    /// Takes note that either side has closed the connection on a port: the
    /// port is given up, and may be connected again.
    pub fn closed(&mut self, port: u32)
        requires
            old(self).inv(),
        ensures
            final(self).inv(),
            final(self)@ == old(self)@.after_close(port),
    {
        self.ports.remove(&port);
        proof {
            assert(final(self)@.ports =~= old(self)@.ports.remove(port));
        }
    }
}

} // verus!
