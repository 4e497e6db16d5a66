//! The devices of a VM, as plain values from which the hypervisor's
//! configuration is built.

use vstd::prelude::*;
use vstd::string::StringExecFns;
use vstd::string::StringSliceAdditionalSpecFns;
use vstd::utf8::encode_utf8;
use crate::text::str_eq;
use crate::vm_config::{MacosVmConfig, MacosVmSharedDirectory, MacosVmStorage};

verus! {

/// What the standard base64 alphabet, with padding, decodes a text to;
/// `None` for a text that is not such base64.
pub uninterp spec fn base64_decoded(input: Seq<u8>) -> Option<Seq<u8>>;

/// Decodes base64 with `Engine::decode` of `base64`, on the engine
/// `general_purpose::STANDARD`.
///
/// The contract claims that the outcome depends on the input alone. Of the
/// words of a refusal it claims nothing.
#[verifier::external_body]
fn decode_base64(input: &[u8]) -> (result: Result<Vec<u8>, String>)
    ensures
        match result {
            Ok(bytes) => base64_decoded(input@) == Some(bytes@),
            Err(_) => base64_decoded(input@) is None,
        },
{
    match base64::Engine::decode(&base64::engine::general_purpose::STANDARD, input) {
        Ok(bytes) => Ok(bytes),
        Err(e) => Err(e.to_string()),
    }
}

/// Why a VM's description could not be turned into a configuration.
#[derive(Clone, Debug, PartialEq, Eq)]
pub enum Error {
    /// The hardware model is not base64. The decoder's words are given.
    HardwareModel(String),
    /// The machine identifier is not base64. The decoder's words are given.
    MachineId(String),
}

/// An [`Error`] as a mathematical value.
pub enum ErrorView {
    HardwareModel(Seq<char>),
    MachineId(Seq<char>),
}

impl View for Error {
    type V = ErrorView;

    open spec fn view(&self) -> ErrorView {
        match self {
            Error::HardwareModel(words) => ErrorView::HardwareModel(words@),
            Error::MachineId(words) => ErrorView::MachineId(words@),
        }
    }
}

impl ErrorView {
    /// The text that describes the error to a person.
    pub open spec fn message(self) -> Seq<char> {
        match self {
            ErrorView::HardwareModel(words) => "Failed to decode hardware model: "@ + words,
            ErrorView::MachineId(words) => "Failed to decode machine id: "@ + words,
        }
    }
}

impl Error {
    /// Returns the text that describes the error to a person.
    pub fn message(&self) -> (text: String)
        ensures
            text@ == self@.message(),
    {
        match self {
            Error::HardwareModel(words) => String::from_str(
                "Failed to decode hardware model: ",
            ).concat(words.as_str()),
            Error::MachineId(words) => String::from_str("Failed to decode machine id: ").concat(
                words.as_str(),
            ),
        }
    }
}

/// A disk image attached as a block device.
#[derive(Clone, Debug, PartialEq, Eq)]
pub struct Storage {
    pub path: String,
    pub read_only: bool,
}

/// A host directory shared with the guest.
#[derive(Clone, Debug, PartialEq, Eq)]
pub struct SharedDir {
    pub path: String,
    pub read_only: bool,
}

/// A display, in pixels and pixels per inch.
#[derive(Clone, Copy, Debug, PartialEq, Eq, Structural)]
pub struct Graphics {
    pub width: usize,
    pub height: usize,
    pub dpi: usize,
}

/// A [`Storage`] or a [`SharedDir`] as a mathematical value.
pub struct FileView {
    pub path: Seq<char>,
    pub read_only: bool,
}

impl View for Storage {
    type V = FileView;

    open spec fn view(&self) -> FileView {
        FileView { path: self.path@, read_only: self.read_only }
    }
}

impl View for SharedDir {
    type V = FileView;

    open spec fn view(&self) -> FileView {
        FileView { path: self.path@, read_only: self.read_only }
    }
}

/// The devices of a VM.
#[derive(Clone, Debug, PartialEq, Eq)]
pub struct Config {
    pub cpu_count: usize,
    /// The size of the memory, in bytes.
    pub ram_size: u64,
    /// The hardware model, in the hypervisor's own representation.
    pub hw_model: Option<Vec<u8>>,
    /// The machine identifier, in the hypervisor's own representation.
    pub machine_id: Option<Vec<u8>>,
    /// The path of the auxiliary storage.
    pub aux: Option<String>,
    pub storages: Vec<Storage>,
    /// The serial consoles, each on a file descriptor or on the null device.
    pub consoles: Vec<Option<i32>>,
    pub shared_dirs: Vec<SharedDir>,
    pub graphics: Option<Graphics>,
    /// Whether the VM has a vsock device.
    pub socket: bool,
    /// Whether the VM has an entropy device.
    pub entropy: bool,
    /// Whether the VM has a memory balloon.
    pub memory_balloon: bool,
}

/// A [`Config`] as a mathematical value.
pub struct ConfigView {
    pub cpu_count: usize,
    pub ram_size: u64,
    pub hw_model: Option<Seq<u8>>,
    pub machine_id: Option<Seq<u8>>,
    pub aux: Option<Seq<char>>,
    pub storages: Seq<FileView>,
    pub consoles: Seq<Option<i32>>,
    pub shared_dirs: Seq<FileView>,
    pub graphics: Option<Graphics>,
    pub socket: bool,
    pub entropy: bool,
    pub memory_balloon: bool,
}

impl View for Config {
    type V = ConfigView;

    open spec fn view(&self) -> ConfigView {
        ConfigView {
            cpu_count: self.cpu_count,
            ram_size: self.ram_size,
            hw_model: match self.hw_model {
                Some(bytes) => Some(bytes@),
                None => None,
            },
            machine_id: match self.machine_id {
                Some(bytes) => Some(bytes@),
                None => None,
            },
            aux: match self.aux {
                Some(path) => Some(path@),
                None => None,
            },
            storages: self.storages@.map_values(|s: Storage| s@),
            consoles: self.consoles@,
            shared_dirs: self.shared_dirs@.map_values(|s: SharedDir| s@),
            graphics: self.graphics,
            socket: self.socket,
            entropy: self.entropy,
            memory_balloon: self.memory_balloon,
        }
    }
}

/// The display that every VM gets.
pub open spec fn default_graphics() -> Graphics {
    Graphics { width: 2560, height: 1600, dpi: 200 }
}

/// The disk images among the files of a description, in the order of the
/// description, each attached for reading and writing.
pub open spec fn disks_of(storage: Seq<MacosVmStorage>) -> Seq<FileView>
    decreases storage.len(),
{
    if storage.len() == 0 {
        seq![]
    } else if storage.last().kind@ == "disk"@ {
        disks_of(storage.drop_last()).push(
            FileView { path: storage.last().file@, read_only: false },
        )
    } else {
        disks_of(storage.drop_last())
    }
}

/// The auxiliary storage among the files of a description: the last one of
/// that kind.
pub open spec fn aux_of(storage: Seq<MacosVmStorage>) -> Option<Seq<char>>
    decreases storage.len(),
{
    if storage.len() == 0 {
        None
    } else if storage.last().kind@ == "aux"@ {
        Some(storage.last().file@)
    } else {
        aux_of(storage.drop_last())
    }
}

/// The shared directories of a description, in its order.
pub open spec fn shares_of(shares: Option<Vec<MacosVmSharedDirectory>>) -> Seq<FileView> {
    match shares {
        Some(dirs) => dirs@.map_values(
            |d: MacosVmSharedDirectory| FileView { path: d.path@, read_only: d.read_only },
        ),
        None => seq![],
    }
}

/// The configuration that a description stands for, given its hardware
/// model and machine identifier in decoded form: the processors and memory
/// of the description; its disks and its auxiliary storage; a vsock device,
/// an entropy device and a memory balloon; its shared directories; the
/// default display; no console yet.
pub open spec fn planned(vm_config: MacosVmConfig, hw_model: Seq<u8>, machine_id: Seq<u8>)
    -> ConfigView {
    ConfigView {
        cpu_count: vm_config.cpus,
        ram_size: vm_config.ram as u64,
        hw_model: Some(hw_model),
        machine_id: Some(machine_id),
        aux: aux_of(vm_config.storage@),
        storages: disks_of(vm_config.storage@),
        consoles: seq![],
        shared_dirs: shares_of(vm_config.shares),
        graphics: Some(default_graphics()),
        socket: true,
        entropy: true,
        memory_balloon: true,
    }
}

impl Config {
    /// Makes the configuration of a VM with so many processors and so much
    /// memory, and no device.
    pub fn new(cpu_count: usize, ram_size: u64) -> (config: Config)
        ensures
            config@ == (ConfigView {
                cpu_count,
                ram_size,
                hw_model: None,
                machine_id: None,
                aux: None,
                storages: seq![],
                consoles: seq![],
                shared_dirs: seq![],
                graphics: None,
                socket: false,
                entropy: false,
                memory_balloon: false,
            }),
    {
        let config = Config {
            cpu_count,
            ram_size,
            hw_model: None,
            machine_id: None,
            aux: None,
            storages: Vec::new(),
            consoles: Vec::new(),
            shared_dirs: Vec::new(),
            graphics: None,
            socket: false,
            entropy: false,
            memory_balloon: false,
        };
        proof {
            assert(config@.storages =~= Seq::<FileView>::empty());
            assert(config@.shared_dirs =~= Seq::<FileView>::empty());
        }
        config
    }

    /// Makes the configuration that a description stands for, from the
    /// description and its hardware model and machine identifier in decoded
    /// form.
    pub fn assemble(vm_config: &MacosVmConfig, hw_model: Vec<u8>, machine_id: Vec<u8>) -> (config:
        Config)
        ensures
            config@ == planned(*vm_config, hw_model@, machine_id@),
    {
        let mut config = Config::new(vm_config.cpus, vm_config.ram as u64);
        config.hw_model(hw_model);
        config.machine_id(machine_id);
        let mut i: usize = 0;
        while i < vm_config.storage.len()
            invariant
                i <= vm_config.storage@.len(),
                config@ == (ConfigView {
                    aux: aux_of(vm_config.storage@.subrange(0, i as int)),
                    storages: disks_of(vm_config.storage@.subrange(0, i as int)),
                    consoles: seq![],
                    shared_dirs: seq![],
                    graphics: None,
                    socket: false,
                    entropy: false,
                    memory_balloon: false,
                    ..planned(*vm_config, hw_model@, machine_id@)
                }),
            decreases vm_config.storage@.len() - i,
        {
            let storage = &vm_config.storage[i];
            proof {
                let next = vm_config.storage@.subrange(0, i + 1);
                assert(next.drop_last() =~= vm_config.storage@.subrange(0, i as int));
                assert(next.last() == vm_config.storage@[i as int]);
                reveal_strlit("disk");
                reveal_strlit("aux");
                assert("disk"@.len() != "aux"@.len());
            }
            if str_eq(storage.kind.as_str(), "disk") {
                config.storage(storage.file.as_str(), false);
            } else if str_eq(storage.kind.as_str(), "aux") {
                config.aux(storage.file.as_str());
            }
            i += 1;
        }
        proof {
            assert(vm_config.storage@.subrange(0, i as int) =~= vm_config.storage@);
        }
        config.socket();
        config.entropy();
        config.memory_balloon();
        match &vm_config.shares {
            Some(dirs) => {
                let mut k: usize = 0;
                proof {
                    assert(shares_of(vm_config.shares).subrange(0, 0) =~= Seq::<FileView>::empty());
                }
                while k < dirs.len()
                    invariant
                        k <= dirs@.len(),
                        vm_config.shares == Some(*dirs),
                        config@ == (ConfigView {
                            shared_dirs: shares_of(vm_config.shares).subrange(0, k as int),
                            graphics: None,
                            ..planned(*vm_config, hw_model@, machine_id@)
                        }),
                    decreases dirs@.len() - k,
                {
                    config.shared_dir(dirs[k].path.as_str(), dirs[k].read_only);
                    proof {
                        assert(shares_of(vm_config.shares).subrange(0, k + 1) =~= shares_of(
                            vm_config.shares,
                        ).subrange(0, k as int).push(
                            FileView { path: dirs@[k as int].path@, read_only: dirs@[k as int].read_only },
                        ));
                    }
                    k += 1;
                }
                proof {
                    assert(shares_of(vm_config.shares).subrange(0, k as int) =~= shares_of(
                        vm_config.shares,
                    ));
                }
            },
            None => {},
        }
        config.graphics(2560, 1600, 200);
        config
    }

    /// Makes the configuration that a description stands for.
    ///
    /// Fails with `HardwareModel` if the hardware model is not base64, else
    /// with `MachineId` if the machine identifier is not.
    pub fn from_vm_config(vm_config: &MacosVmConfig) -> (result: Result<Config, Error>)
        ensures
            match result {
                Ok(config) => {
                    &&& base64_decoded(encode_utf8(vm_config.hardware_model@)) is Some
                    &&& base64_decoded(encode_utf8(vm_config.machine_id@)) is Some
                    &&& config@ == planned(
                        *vm_config,
                        base64_decoded(encode_utf8(vm_config.hardware_model@))->0,
                        base64_decoded(encode_utf8(vm_config.machine_id@))->0,
                    )
                },
                Err(Error::HardwareModel(_)) => base64_decoded(
                    encode_utf8(vm_config.hardware_model@),
                ) is None,
                Err(Error::MachineId(_)) => {
                    &&& base64_decoded(encode_utf8(vm_config.hardware_model@)) is Some
                    &&& base64_decoded(encode_utf8(vm_config.machine_id@)) is None
                },
            },
    {
        let hw_model = decode_base64(vm_config.hardware_model.as_str().as_bytes());
        let machine_id = decode_base64(vm_config.machine_id.as_str().as_bytes());
        match Config::decoded(hw_model, machine_id) {
            Ok((hw_model, machine_id)) => Ok(Config::assemble(vm_config, hw_model, machine_id)),
            Err(e) => Err(e),
        }
    }

    /// Takes the decoder's two answers: both byte strings if both texts
    /// were decoded, else `HardwareModel` if the first was not, else
    /// `MachineId`, each with the decoder's words.
    pub fn decoded(hw_model: Result<Vec<u8>, String>, machine_id: Result<Vec<u8>, String>) -> (result:
        Result<(Vec<u8>, Vec<u8>), Error>)
        ensures
            match result {
                Ok(pair) => hw_model == Ok::<Vec<u8>, String>(pair.0) && machine_id == Ok::<
                    Vec<u8>,
                    String,
                >(pair.1),
                Err(Error::HardwareModel(words)) => hw_model == Err::<Vec<u8>, String>(words),
                Err(Error::MachineId(words)) => hw_model is Ok && machine_id == Err::<
                    Vec<u8>,
                    String,
                >(words),
            },
    {
        let hw_model = match hw_model {
            Ok(bytes) => bytes,
            Err(words) => {
                return Err(Error::HardwareModel(words));
            },
        };
        match machine_id {
            Ok(bytes) => Ok((hw_model, bytes)),
            Err(words) => Err(Error::MachineId(words)),
        }
    }

    /// Sets the hardware model.
    pub fn hw_model(&mut self, model: Vec<u8>)
        ensures
            final(self)@ == (ConfigView { hw_model: Some(model@), ..old(self)@ }),
    {
        self.hw_model = Some(model);
    }

    /// Sets the machine identifier.
    pub fn machine_id(&mut self, id: Vec<u8>)
        ensures
            final(self)@ == (ConfigView { machine_id: Some(id@), ..old(self)@ }),
    {
        self.machine_id = Some(id);
    }

    /// Sets the auxiliary storage, in place of an earlier one.
    pub fn aux(&mut self, path: &str)
        ensures
            final(self)@ == (ConfigView { aux: Some(path@), ..old(self)@ }),
    {
        self.aux = Some(String::from_str(path));
    }

    /// Adds a disk image behind those that are there.
    pub fn storage(&mut self, path: &str, read_only: bool)
        ensures
            final(self)@ == (ConfigView {
                storages: old(self)@.storages.push(FileView { path: path@, read_only }),
                ..old(self)@
            }),
    {
        self.storages.push(Storage { path: String::from_str(path), read_only });
        proof {
            assert(final(self)@.storages =~= old(self)@.storages.push(
                FileView { path: path@, read_only },
            ));
        }
    }

    /// Adds a serial console behind those that are there: on the file
    /// descriptor, or on the null device if none is given.
    pub fn console(&mut self, fd: Option<i32>)
        ensures
            final(self)@ == (ConfigView { consoles: old(self)@.consoles.push(fd), ..old(self)@ }),
    {
        self.consoles.push(fd);
    }

    /// Adds a shared directory behind those that are there.
    pub fn shared_dir(&mut self, path: &str, read_only: bool)
        ensures
            final(self)@ == (ConfigView {
                shared_dirs: old(self)@.shared_dirs.push(FileView { path: path@, read_only }),
                ..old(self)@
            }),
    {
        self.shared_dirs.push(SharedDir { path: String::from_str(path), read_only });
        proof {
            assert(final(self)@.shared_dirs =~= old(self)@.shared_dirs.push(
                FileView { path: path@, read_only },
            ));
        }
    }

    /// Sets the display, in place of an earlier one.
    pub fn graphics(&mut self, width: usize, height: usize, dpi: usize)
        ensures
            final(self)@ == (ConfigView {
                graphics: Some(Graphics { width, height, dpi }),
                ..old(self)@
            }),
    {
        self.graphics = Some(Graphics { width, height, dpi });
    }

    /// Gives the VM a vsock device.
    pub fn socket(&mut self)
        ensures
            final(self)@ == (ConfigView { socket: true, ..old(self)@ }),
    {
        self.socket = true;
    }

    /// Gives the VM an entropy device.
    pub fn entropy(&mut self)
        ensures
            final(self)@ == (ConfigView { entropy: true, ..old(self)@ }),
    {
        self.entropy = true;
    }

    /// Gives the VM a memory balloon.
    pub fn memory_balloon(&mut self)
        ensures
            final(self)@ == (ConfigView { memory_balloon: true, ..old(self)@ }),
    {
        self.memory_balloon = true;
    }
}

} // verus!
