//! The description of a VM as the configuration file gives it.

use vstd::prelude::*;

verus! {

/// A disk image or an auxiliary storage file.
#[derive(Clone, Debug, PartialEq, Eq)]
pub struct MacosVmStorage {
    /// What the file is: `disk` or `aux`.
    pub kind: String,
    pub file: String,
}

/// A network device.
#[derive(Clone, Debug, PartialEq, Eq)]
pub struct MacosVmNetwork {
    pub kind: String,
}

/// The socket to which the VM's serial console is attached.
#[derive(Clone, Debug, PartialEq, Eq)]
pub struct MacosVmSerial {
    pub path: String,
}

/// A host directory that the guest sees.
#[derive(Clone, Debug, PartialEq, Eq)]
pub struct MacosVmSharedDirectory {
    pub path: String,
    pub automount: bool,
    pub read_only: bool,
}

/// A display.
#[derive(Clone, Copy, Debug, PartialEq, Eq)]
pub struct MacosVmDisplay {
    pub dpi: usize,
    pub width: usize,
    pub height: usize,
}

/// A VM as the configuration file describes it.
#[derive(Clone, Debug, PartialEq, Eq)]
pub struct MacosVmConfig {
    pub version: usize,
    pub serial: Option<MacosVmSerial>,
    pub os: String,
    /// The hardware model, in base64.
    pub hardware_model: String,
    /// The machine identifier, in base64.
    pub machine_id: String,
    pub cpus: usize,
    pub ram: usize,
    pub storage: Vec<MacosVmStorage>,
    pub networks: Vec<MacosVmNetwork>,
    pub shares: Option<Vec<MacosVmSharedDirectory>>,
    pub displays: Vec<MacosVmDisplay>,
    pub audio: bool,
}

} // verus!
