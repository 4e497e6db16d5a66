use akari::api::{self, Command, Response, VmStatus};
use akari::commands::connect::Connect;
use akari::commands::create::{
    check_files, config_path, container_config_path, create_request, rootfs_path, share_rootfs,
    Create,
};
use akari::commands::error::Error;
use akari::commands::spec::{hostname, spec};
use akari::commands::state::{known_pid, ContainerState, ContainerStatus};
use akari::opts::GlobalOpts;
use akari::vm_config::{MacosVmConfig, MacosVmSerial, MacosVmSharedDirectory};

#[test]
fn connect_names_its_port() {
    let args = Connect { container_id: "c1".to_string(), port: 5000 };
    assert_eq!(args.command(), Command::Connect(5000));
}

#[test]
fn new_state_has_no_pid() {
    let state =
        ContainerState::new("c1".to_string(), ContainerStatus::Created, "/b/c1".to_string());
    assert_eq!(state.oci_version, "v1.0.2");
    assert_eq!(state.id, "c1");
    assert_eq!(state.status, ContainerStatus::Created);
    assert_eq!(state.pid, None);
    assert_eq!(state.bundle, "/b/c1");
    assert_eq!(state.annotations, None);
}

#[test]
fn status_converts_one_for_one() {
    assert_eq!(ContainerStatus::from(VmStatus::Creating), ContainerStatus::Creating);
    assert_eq!(ContainerStatus::from(VmStatus::Created), ContainerStatus::Created);
    assert_eq!(ContainerStatus::from(VmStatus::Running), ContainerStatus::Running);
    assert_eq!(ContainerStatus::from(VmStatus::Stopped), ContainerStatus::Stopped);
}

#[test]
fn state_from_response() {
    let state = ContainerState::from_response(Response {
        container_id: "c1".to_string(),
        status: VmStatus::Running,
        pid: Some(42),
        bundle: "/b/c1".to_string(),
    });
    assert_eq!(
        state,
        ContainerState {
            oci_version: "v1.0.2".to_string(),
            id: "c1".to_string(),
            status: ContainerStatus::Running,
            pid: Some(42),
            bundle: "/b/c1".to_string(),
            annotations: None,
        }
    );
}

#[test]
fn pid_zero_is_no_pid() {
    assert_eq!(known_pid(0), None);
    assert_eq!(known_pid(1), Some(1));
    assert_eq!(known_pid(2147483647), Some(2147483647));
    assert_eq!(known_pid(2147483648), Some(-2147483648));
    assert_eq!(known_pid(4294967295), Some(-1));
}

#[test]
fn spec_writes_into_the_bundle() {
    assert_eq!(spec(Some("/b/c1".to_string()), false), Ok("/b/c1/config.json".to_string()));
    assert_eq!(spec(None, false), Ok("./config.json".to_string()));
    assert_eq!(spec(None, true), Err(Error::RootlessNotSupported));
    assert_eq!(spec(Some("/b".to_string()), true), Err(Error::RootlessNotSupported));
    assert_eq!(hostname(), "akari");
}

#[test]
fn create_paths() {
    assert_eq!(config_path("/b/c1"), "/b/c1/config.json");
    assert_eq!(container_config_path("/run/akari", "c1"), "/run/akari/c1.json");
    assert_eq!(rootfs_path("/b/c1", Some("rootfs".to_string())), Ok("/b/c1/rootfs".to_string()));
    assert_eq!(rootfs_path("/b/c1", Some("/abs/rootfs".to_string())), Ok("/abs/rootfs".to_string()));
    assert_eq!(rootfs_path("/b/c1", None), Err(Error::RootfsPathIsNotSpecified));
}

#[test]
fn create_request_with_and_without_console() {
    let args = Create {
        container_id: "c1".to_string(),
        bundle: "/b/c1".to_string(),
        console_socket: Some("/run/console.sock".to_string()),
    };
    let req = create_request(&args, "/b/c1/rfs".to_string());
    assert_eq!(req.bundle, "/b/c1");
    assert_eq!(req.rootfs, "/b/c1/rfs");
    assert_eq!(req.stdin, Some("/run/console.sock".to_string()));
    assert_eq!(req.stdout, Some("/run/console.sock".to_string()));
    assert_eq!(req.stderr, None);
    let args = Create { container_id: "c1".to_string(), bundle: "/b/c1".to_string(), console_socket: None };
    let req = create_request(&args, "/b/c1/rfs".to_string());
    assert_eq!(req.stdin, None);
    assert_eq!(req.stdout, None);
    assert_eq!(req.stderr, None);
}

fn base_vm_config() -> MacosVmConfig {
    MacosVmConfig {
        version: 1,
        serial: Some(MacosVmSerial { path: "/old.sock".to_string() }),
        os: "macos".to_string(),
        hardware_model: "aGVsbG8=".to_string(),
        machine_id: "AQID".to_string(),
        cpus: 2,
        ram: 1024,
        storage: Vec::new(),
        networks: Vec::new(),
        shares: None,
        displays: Vec::new(),
        audio: true,
    }
}

#[test]
fn rootfs_becomes_the_only_share() {
    let shared = share_rootfs(base_vm_config(), "/b/c1/rfs".to_string(), true, None);
    assert_eq!(
        shared.shares,
        Some(vec![MacosVmSharedDirectory {
            path: "/b/c1/rfs".to_string(),
            automount: true,
            read_only: true,
        }])
    );
    assert_eq!(shared.serial, Some(MacosVmSerial { path: "/old.sock".to_string() }));
    let mut expected = base_vm_config();
    expected.shares = shared.shares.clone();
    assert_eq!(shared, expected);
    let shared = share_rootfs(
        base_vm_config(),
        "/b/c1/rfs".to_string(),
        false,
        Some("/console.sock".to_string()),
    );
    assert_eq!(shared.serial, Some(MacosVmSerial { path: "/console.sock".to_string() }));
    assert_eq!(shared.shares.unwrap()[0].read_only, false);
}

#[test]
fn client_error_messages() {
    assert_eq!(Error::VmConfigAlreadyExists.message(), "VM configuration already exists");
    assert_eq!(
        Error::ContainerConfigDoesNotExist.message(),
        "Container configuration does not exist"
    );
    assert_eq!(Error::RootfsPathIsNotSpecified.message(), "Root path is not specified");
    assert_eq!(Error::RootlessNotSupported.message(), "Rootless containers are not supported");
    assert_eq!(Error::Api(api::Error::ContainerNotFound).message(), "Container not found");
}

#[test]
fn socket_path_from_flags() {
    let mut opts = GlobalOpts {
        log: None,
        debug: false,
        log_format: None,
        root: None,
        systemd_cgroup: false,
        vmm_sock: None,
    };
    assert_eq!(opts.sock_path(None), "/run/akari/aux.sock");
    assert_eq!(opts.sock_path(Some("/Users/me".to_string())), "/Users/me/.akari/run/aux.sock");
    opts.root = Some("/var/akari".to_string());
    assert_eq!(opts.sock_path(Some("/Users/me".to_string())), "/var/akari/aux.sock");
    opts.vmm_sock = Some("/tmp/x.sock".to_string());
    assert_eq!(opts.sock_path(None), "/tmp/x.sock");
}

#[test]
fn create_checks_what_is_on_disk() {
    assert_eq!(check_files(false, true), Ok(()));
    assert_eq!(check_files(true, true), Err(Error::VmConfigAlreadyExists));
    assert_eq!(check_files(true, false), Err(Error::VmConfigAlreadyExists));
    assert_eq!(check_files(false, false), Err(Error::ContainerConfigDoesNotExist));
}
