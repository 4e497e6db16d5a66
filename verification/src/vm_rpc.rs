//! Commands that the control server hands to the VM engine.

use vstd::prelude::*;

verus! {

/// A command for the VM engine.
#[derive(Clone, Debug, PartialEq, Eq)]
pub enum VmCommand {
    Start,
    Stop,
    /// Open a guest connection on a vsock port and expose it at a host path.
    Connect(u32, String),
    /// Close the connection on a vsock port.
    Disconnect(u32),
    /// Write bytes to the guest over a connected port.
    VsockSend(u32, Vec<u8>),
    /// Read the bytes that the guest has sent over a connected port.
    VsockRecv(u32),
}

/// A [`VmCommand`] as a mathematical value.
pub enum VmCommandView {
    Start,
    Stop,
    Connect(u32, Seq<char>),
    Disconnect(u32),
    VsockSend(u32, Seq<u8>),
    VsockRecv(u32),
}

impl View for VmCommand {
    type V = VmCommandView;

    open spec fn view(&self) -> VmCommandView {
        match self {
            VmCommand::Start => VmCommandView::Start,
            VmCommand::Stop => VmCommandView::Stop,
            VmCommand::Connect(port, path) => VmCommandView::Connect(*port, path@),
            VmCommand::Disconnect(port) => VmCommandView::Disconnect(*port),
            VmCommand::VsockSend(port, bytes) => VmCommandView::VsockSend(*port, bytes@),
            VmCommand::VsockRecv(port) => VmCommandView::VsockRecv(*port),
        }
    }
}

} // verus!
