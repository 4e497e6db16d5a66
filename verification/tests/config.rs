use akari::config::{Config, Error, Graphics, SharedDir, Storage};
use akari::vm_config::{
    MacosVmConfig, MacosVmDisplay, MacosVmNetwork, MacosVmSharedDirectory, MacosVmStorage,
};

fn storage(kind: &str, file: &str) -> MacosVmStorage {
    MacosVmStorage { kind: kind.to_string(), file: file.to_string() }
}

fn description(hardware_model: &str, machine_id: &str) -> MacosVmConfig {
    MacosVmConfig {
        version: 1,
        serial: None,
        os: "macos".to_string(),
        hardware_model: hardware_model.to_string(),
        machine_id: machine_id.to_string(),
        cpus: 4,
        ram: 4294967296,
        storage: vec![
            storage("disk", "/vm/disk.img"),
            storage("aux", "/vm/aux.img"),
            storage("other", "/vm/other.img"),
            storage("disk", "/vm/data.img"),
        ],
        networks: vec![MacosVmNetwork { kind: "nat".to_string() }],
        shares: Some(vec![
            MacosVmSharedDirectory {
                path: "/b/c1/rfs".to_string(),
                automount: true,
                read_only: true,
            },
            MacosVmSharedDirectory {
                path: "/b/c2/rfs".to_string(),
                automount: false,
                read_only: false,
            },
        ]),
        displays: vec![MacosVmDisplay { dpi: 80, width: 1920, height: 1200 }],
        audio: false,
    }
}

#[test]
fn new_config_has_no_device() {
    let config = Config::new(2, 1024);
    assert_eq!(config.cpu_count, 2);
    assert_eq!(config.ram_size, 1024);
    assert_eq!(config.hw_model, None);
    assert_eq!(config.machine_id, None);
    assert_eq!(config.aux, None);
    assert!(config.storages.is_empty());
    assert!(config.consoles.is_empty());
    assert!(config.shared_dirs.is_empty());
    assert_eq!(config.graphics, None);
    assert!(!config.socket);
    assert!(!config.entropy);
    assert!(!config.memory_balloon);
}

#[test]
fn config_from_description() {
    let config = Config::from_vm_config(&description("aGVsbG8=", "AQID")).unwrap();
    assert_eq!(config.cpu_count, 4);
    assert_eq!(config.ram_size, 4294967296);
    assert_eq!(config.hw_model, Some(b"hello".to_vec()));
    assert_eq!(config.machine_id, Some(vec![1u8, 2, 3]));
    assert_eq!(config.aux, Some("/vm/aux.img".to_string()));
    assert_eq!(
        config.storages,
        vec![
            Storage { path: "/vm/disk.img".to_string(), read_only: false },
            Storage { path: "/vm/data.img".to_string(), read_only: false },
        ]
    );
    assert!(config.consoles.is_empty());
    assert_eq!(
        config.shared_dirs,
        vec![
            SharedDir { path: "/b/c1/rfs".to_string(), read_only: true },
            SharedDir { path: "/b/c2/rfs".to_string(), read_only: false },
        ]
    );
    assert_eq!(config.graphics, Some(Graphics { width: 2560, height: 1600, dpi: 200 }));
    assert!(config.socket);
    assert!(config.entropy);
    assert!(config.memory_balloon);
}

#[test]
fn config_without_shares_and_with_two_aux() {
    let mut vm = description("", "");
    vm.shares = None;
    vm.storage = vec![storage("aux", "/a"), storage("aux", "/b")];
    let config = Config::from_vm_config(&vm).unwrap();
    assert_eq!(config.hw_model, Some(Vec::new()));
    assert_eq!(config.machine_id, Some(Vec::new()));
    assert_eq!(config.aux, Some("/b".to_string()));
    assert!(config.storages.is_empty());
    assert!(config.shared_dirs.is_empty());
}

#[test]
fn bad_hardware_model_is_reported_first() {
    let result = Config::from_vm_config(&description("not base64!", "also bad!"));
    assert!(matches!(result, Err(Error::HardwareModel(_))));
    let result = Config::from_vm_config(&description("aGVsbG8", "AQID"));
    assert!(matches!(result, Err(Error::HardwareModel(_))));
}

#[test]
fn bad_machine_id_is_reported() {
    let result = Config::from_vm_config(&description("aGVsbG8=", "A"));
    assert!(matches!(result, Err(Error::MachineId(_))));
}

#[test]
fn decoded_takes_both_answers() {
    assert_eq!(Config::decoded(Ok(vec![1]), Ok(vec![2])), Ok((vec![1], vec![2])));
    assert_eq!(
        Config::decoded(Err("x".to_string()), Err("y".to_string())),
        Err(Error::HardwareModel("x".to_string()))
    );
    assert_eq!(
        Config::decoded(Ok(vec![1]), Err("y".to_string())),
        Err(Error::MachineId("y".to_string()))
    );
}

#[test]
fn config_error_messages() {
    assert_eq!(
        Error::HardwareModel("Invalid padding".to_string()).message(),
        "Failed to decode hardware model: Invalid padding"
    );
    assert_eq!(
        Error::MachineId("Invalid padding".to_string()).message(),
        "Failed to decode machine id: Invalid padding"
    );
}

#[test]
fn assemble_takes_decoded_bytes() {
    let config = Config::assemble(&description("ignored", "ignored"), vec![9], vec![8, 7]);
    assert_eq!(config.hw_model, Some(vec![9u8]));
    assert_eq!(config.machine_id, Some(vec![8u8, 7]));
    assert_eq!(config.storages.len(), 2);
}

#[test]
fn builders_add_devices() {
    let mut config = Config::new(1, 2);
    config.hw_model(vec![1]);
    config.machine_id(vec![2]);
    config.aux("/aux1");
    config.aux("/aux2");
    config.storage("/d1", true);
    config.storage("/d2", false);
    config.console(Some(5));
    config.console(None);
    config.shared_dir("/s", true);
    config.graphics(800, 600, 72);
    config.graphics(1024, 768, 96);
    assert_eq!(config.hw_model, Some(vec![1u8]));
    assert_eq!(config.machine_id, Some(vec![2u8]));
    assert_eq!(config.aux, Some("/aux2".to_string()));
    assert_eq!(
        config.storages,
        vec![
            Storage { path: "/d1".to_string(), read_only: true },
            Storage { path: "/d2".to_string(), read_only: false },
        ]
    );
    assert_eq!(config.consoles, vec![Some(5), None]);
    assert_eq!(config.shared_dirs, vec![SharedDir { path: "/s".to_string(), read_only: true }]);
    assert_eq!(config.graphics, Some(Graphics { width: 1024, height: 768, dpi: 96 }));
    assert!(!config.socket && !config.entropy && !config.memory_balloon);
    config.socket();
    assert!(config.socket && !config.entropy && !config.memory_balloon);
    config.entropy();
    assert!(config.socket && config.entropy && !config.memory_balloon);
    config.memory_balloon();
    assert!(config.socket && config.entropy && config.memory_balloon);
}
