use akari::agent::{
    parse_vsock_port_option, split_env, vsock_port_option, vsock_port_option_key, Agent, Error,
    Launch,
};
use akari::api::{Command, Error as ApiError, VmStatus};

fn strings(list: &[&str]) -> Vec<String> {
    list.iter().map(|s| s.to_string()).collect()
}

#[test]
fn port_option_is_little_endian() {
    assert_eq!(vsock_port_option_key(), "akari.io/vsock_port");
    assert_eq!(vsock_port_option(1234), vec![0xd2u8, 0x04, 0, 0]);
    assert_eq!(vsock_port_option(0), vec![0u8, 0, 0, 0]);
    assert_eq!(vsock_port_option(0x12345678), vec![0x78u8, 0x56, 0x34, 0x12]);
    assert_eq!(vsock_port_option(u32::MAX), vec![255u8, 255, 255, 255]);
    assert_eq!(vsock_port_option(1234), 1234u32.to_le_bytes().to_vec());
}

#[test]
fn port_option_reads_back() {
    for port in [0u32, 1, 255, 256, 1234, 65535, 65536, 9999, 0x12345678, u32::MAX] {
        assert_eq!(parse_vsock_port_option(&vsock_port_option(port)), Some(port));
    }
    assert_eq!(parse_vsock_port_option(&[0xd2, 0x04, 0, 0]), Some(1234));
    assert_eq!(parse_vsock_port_option(&[]), None);
    assert_eq!(parse_vsock_port_option(&[1, 2, 3]), None);
    assert_eq!(parse_vsock_port_option(&[1, 2, 3, 4, 5]), None);
}

#[test]
fn env_entries_split_at_the_first_equals() {
    assert_eq!(split_env("PATH=/bin:/usr/bin"), Some(("PATH".to_string(), "/bin:/usr/bin".to_string())));
    assert_eq!(split_env("A=b=c"), Some(("A".to_string(), "b=c".to_string())));
    assert_eq!(split_env("EMPTY="), Some(("EMPTY".to_string(), "".to_string())));
    assert_eq!(split_env("=value"), Some(("".to_string(), "value".to_string())));
    assert_eq!(split_env("ключ=значение"), Some(("ключ".to_string(), "значение".to_string())));
    assert_eq!(split_env("NOVALUE"), None);
    assert_eq!(split_env(""), None);
}

#[test]
fn launch_takes_the_first_argument_as_program() {
    let launch = Launch::plan(
        "/work".to_string(),
        Some(strings(&["/bin/sh", "-c", "echo hi"])),
        Some(strings(&["PATH=/bin", "TERM=xterm", "PATH=/usr/bin"])),
    )
    .unwrap();
    assert_eq!(launch.program, "/bin/sh");
    assert_eq!(launch.args, strings(&["-c", "echo hi"]));
    assert_eq!(launch.cwd, "/work");
    assert_eq!(
        launch.envs,
        Some(vec![
            ("PATH".to_string(), "/bin".to_string()),
            ("TERM".to_string(), "xterm".to_string()),
            ("PATH".to_string(), "/usr/bin".to_string()),
        ])
    );
}

#[test]
fn launch_without_environment() {
    let launch = Launch::plan("/".to_string(), Some(strings(&["true"])), None).unwrap();
    assert_eq!(launch.program, "true");
    assert!(launch.args.is_empty());
    assert_eq!(launch.envs, None);
    let launch = Launch::plan("/".to_string(), Some(strings(&["true"])), Some(Vec::new())).unwrap();
    assert_eq!(launch.envs, Some(Vec::new()));
}

#[test]
fn launch_needs_a_command() {
    assert_eq!(Launch::plan("/".to_string(), None, None), Err(Error::NoCommand));
    assert_eq!(Launch::plan("/".to_string(), Some(Vec::new()), None), Err(Error::NoCommand));
    assert_eq!(
        Launch::plan("/".to_string(), None, Some(strings(&["BAD"]))),
        Err(Error::NoCommand)
    );
}

#[test]
fn launch_reports_the_first_malformed_entry() {
    assert_eq!(
        Launch::plan(
            "/".to_string(),
            Some(strings(&["sh"])),
            Some(strings(&["A=1", "B", "C=3", "D"]))
        ),
        Err(Error::MalformedEnv(1))
    );
}

#[test]
fn agent_accepts_a_container_on_a_free_port() {
    let mut agent = Agent::new();
    assert_eq!(agent.accept(None), Err(ApiError::ConfigInvalid));
    assert_eq!(agent.accept(Some(&[1, 2, 3])), Err(ApiError::ConfigInvalid));
    assert_eq!(agent.accept(Some(&vsock_port_option(1234))), Ok(1234));
    assert_eq!(agent.status(1234), None);
    agent.commit(1234, Some(VmStatus::Created));
    assert_eq!(agent.status(1234), Some(VmStatus::Created));
    assert_eq!(agent.accept(Some(&vsock_port_option(1234))), Err(ApiError::ContainerAlreadyExists));
    assert_eq!(agent.accept(Some(&vsock_port_option(1235))), Ok(1235));
    assert_eq!(agent.decide(1235, Command::Start), Err(ApiError::ContainerNotFound));
}

#[test]
fn agent_follows_the_lifecycle() {
    let mut agent = Agent::new();
    agent.commit(1234, Some(VmStatus::Created));
    assert_eq!(agent.decide(1234, Command::Create), Err(ApiError::ContainerAlreadyExists));
    assert_eq!(agent.decide(1234, Command::State), Ok(Some(VmStatus::Created)));
    assert_eq!(
        agent.decide(1234, Command::Connect(9)),
        Err(ApiError::UnexpectedContainerStatus(VmStatus::Created))
    );
    let next = agent.decide(1234, Command::Start).unwrap();
    assert_eq!(next, Some(VmStatus::Running));
    assert_eq!(agent.status(1234), Some(VmStatus::Created));
    agent.commit(1234, next);
    assert_eq!(agent.status(1234), Some(VmStatus::Running));
    assert_eq!(
        agent.decide(1234, Command::Delete),
        Err(ApiError::UnexpectedContainerStatus(VmStatus::Running))
    );
    let next = agent.decide(1234, Command::Kill).unwrap();
    agent.commit(1234, next);
    assert_eq!(agent.status(1234), Some(VmStatus::Stopped));
    let next = agent.decide(1234, Command::Delete).unwrap();
    assert_eq!(next, None);
    agent.commit(1234, next);
    assert_eq!(agent.status(1234), None);
    assert_eq!(agent.decide(1234, Command::State), Err(ApiError::ContainerNotFound));
}
