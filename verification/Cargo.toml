[package]
name = "akari"
version = "0.1.0"
edition = "2021"
publish = false

[dependencies]
anyhow = "1"
async-trait = "0.1"
base64 = "=0.22.1"
block2 = "*"
clap = { version = "4", features = ["derive"] }
containerd-shim = { version = "*", features = ["async"] }
containerd-shim-protos = { version = "*", features = ["async"] }
env_logger = "*"
futures = "0.3"
liboci-cli = "*"
log = "0.4"
objc2 = "*"
objc2-foundation = "*"
objc2-virtualization = "*"
oci-spec = "*"
serde = { version = "1", features = ["derive"] }
serde_json = "=1.0.154"
tarpc = { version = "*", features = ["full"] }
thiserror = "*"
tokio = { version = "1", features = ["full"] }
ttrpc = { version = "*", features = ["async"] }
vsock = "*"
