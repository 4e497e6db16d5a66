//! `create`: from the command's arguments and the container's configuration
//! to the request that the control server gets.

use vstd::prelude::*;
use vstd::string::StringExecFns;
use crate::api::CreateRequest;
use crate::commands::error::{Error, ErrorView};
use crate::path::{join, joined};
use crate::text::{clone_opt, opt_text};
use crate::vm_config::{MacosVmConfig, MacosVmSerial, MacosVmSharedDirectory};

verus! {

/// The arguments of `create` that the client reads.
#[derive(Clone, Debug, PartialEq, Eq)]
pub struct Create {
    pub container_id: String,
    /// The path of the bundle directory.
    pub bundle: String,
    /// The socket that receives the container's console, if one is named.
    pub console_socket: Option<String>,
}

/// Returns the path of the container's configuration in its bundle.
pub fn config_path(bundle: &str) -> (file: String)
    ensures
        file@ == joined(bundle@, "config.json"@),
{
    join(bundle, "config.json")
}

/// Returns the path under the runtime's root at which the VM configuration
/// of a container is kept: the container's id with `.json` behind it.
pub fn container_config_path(root_path: &str, container_id: &str) -> (file: String)
    ensures
        file@ == joined(root_path@, container_id@ + ".json"@),
{
    let name = String::from_str(container_id).concat(".json");
    join(root_path, name.as_str())
}

/// Decides from what is on disk whether `create` may go on.
///
/// Fails with `VmConfigAlreadyExists` if a VM configuration is kept for
/// the container, else with `ContainerConfigDoesNotExist` if the bundle
/// holds no configuration.
pub fn check_files(vm_config_exists: bool, config_exists: bool) -> (result: Result<(), Error>)
    ensures
        match result {
            Ok(()) => !vm_config_exists && config_exists,
            Err(e) => if vm_config_exists {
                e@ == ErrorView::VmConfigAlreadyExists
            } else {
                !config_exists && e@ == ErrorView::ContainerConfigDoesNotExist
            },
        },
{
    if vm_config_exists {
        Err(Error::VmConfigAlreadyExists)
    } else if !config_exists {
        Err(Error::ContainerConfigDoesNotExist)
    } else {
        Ok(())
    }
}

/// Returns the path of the container's root file system, not yet resolved
/// against the file system: the path that the configuration names, taken
/// from the bundle if it is relative.
///
/// Fails with `RootfsPathIsNotSpecified` if the configuration names no root,
/// and in no other case.
pub fn rootfs_path(bundle: &str, root: Option<String>) -> (result: Result<String, Error>)
    ensures
        match result {
            Ok(path) => root is Some && path@ == joined(bundle@, root->0@),
            Err(e) => root is None && e@ == ErrorView::RootfsPathIsNotSpecified,
        },
{
    match root {
        Some(path) => Ok(join(bundle, path.as_str())),
        None => Err(Error::RootfsPathIsNotSpecified),
    }
}

/// Makes the request that `create` sends: the bundle as the arguments name
/// it, the resolved root file system, and the console socket, where one is
/// named, as the container's standard input and output.
pub fn create_request(args: &Create, rootfs: String) -> (req: CreateRequest)
    ensures
        req.bundle@ == args.bundle@,
        req.rootfs == rootfs,
        opt_text(req.stdin) == opt_text(args.console_socket),
        opt_text(req.stdout) == opt_text(args.console_socket),
        req.stderr is None,
{
    CreateRequest {
        bundle: args.bundle.clone(),
        rootfs,
        stdin: clone_opt(&args.console_socket),
        stdout: clone_opt(&args.console_socket),
        stderr: None,
    }
}

/// Adds a container's root file system to the description of its VM, as the
/// only shared directory, mounted by the guest on its own; a console socket,
/// where one is named, takes the place of the serial console. Nothing else
/// changes.
pub fn share_rootfs(
    vm_config: MacosVmConfig,
    rootfs: String,
    read_only: bool,
    console_socket: Option<String>,
) -> (shared: MacosVmConfig)
    requires
        vm_config.shares is None,
    ensures
        shared.shares is Some,
        shared.shares->0@.len() == 1,
        shared.shares->0@[0].path == rootfs,
        shared.shares->0@[0].automount,
        shared.shares->0@[0].read_only == read_only,
        match console_socket {
            Some(path) => shared.serial is Some && shared.serial->0.path == path,
            None => shared.serial == vm_config.serial,
        },
        shared.version == vm_config.version,
        shared.os == vm_config.os,
        shared.hardware_model == vm_config.hardware_model,
        shared.machine_id == vm_config.machine_id,
        shared.cpus == vm_config.cpus,
        shared.ram == vm_config.ram,
        shared.storage == vm_config.storage,
        shared.networks == vm_config.networks,
        shared.displays == vm_config.displays,
        shared.audio == vm_config.audio,
{
    let mut shared = vm_config;
    let mut shares: Vec<MacosVmSharedDirectory> = Vec::new();
    shares.push(MacosVmSharedDirectory { path: rootfs, automount: true, read_only });
    shared.shares = Some(shares);
    match console_socket {
        Some(path) => {
            shared.serial = Some(MacosVmSerial { path });
        },
        None => {},
    }
    shared
}

} // verus!
