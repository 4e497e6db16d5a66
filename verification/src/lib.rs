//! Control plane of a VM-backed container runtime: container lifecycle,
//! vsock port allocation, VM engine state and host/guest message framing.

pub mod agent;
pub mod api;
pub mod commands;
pub mod config;
pub mod container_rpc;
pub mod framing;
pub mod lifecycle;
pub mod opts;
pub mod path;
pub mod proxy;
pub mod server;
pub mod shim;
pub mod text;
pub mod vm;
pub mod vm_config;
pub mod vm_rpc;
