use akari::api::{CreateRequest, Error, VmStatus};
use akari::container_rpc::{ContainerCommand, DEFAULT_AGENT_PORT};
use akari::server::{ApiServer, Outcome, Step};
use akari::vm_rpc::VmCommand;

fn request(bundle: &str, rootfs: &str) -> CreateRequest {
    CreateRequest {
        bundle: bundle.to_string(),
        rootfs: rootfs.to_string(),
        stdin: None,
        stdout: None,
        stderr: None,
    }
}

fn create(server: &mut ApiServer, id: &str) -> u32 {
    let bundle = format!("/b/{}", id);
    let rootfs = format!("/b/{}/rfs", id);
    server.create(id, request(&bundle, &rootfs)).unwrap();
    let port = server.vsock_port(id).unwrap();
    assert_eq!(server.complete(Outcome::Done(None)), Ok(()));
    port
}

#[test]
fn happy_path_create_start_kill_delete() {
    let mut server = ApiServer::new();
    let steps = server.create("c1", request("/b/c1", "/b/c1/rfs")).unwrap();
    assert_eq!(
        steps,
        vec![
            Step::Vm(VmCommand::Connect(1234, "/tmp/akari_vsock_1234".to_string())),
            Step::Agent { port: DEFAULT_AGENT_PORT, command: ContainerCommand::Create(1234) },
        ]
    );
    assert_eq!(server.state("c1").unwrap().status, VmStatus::Creating);
    assert_eq!(server.complete(Outcome::Done(None)), Ok(()));
    let state = server.state("c1").unwrap();
    assert_eq!(state.status, VmStatus::Created);
    assert_eq!(state.bundle, "/b/c1");
    assert_eq!(state.container_id, "c1");
    assert_eq!(state.pid, None);

    let steps = server.start("c1").unwrap();
    assert_eq!(steps, vec![Step::Agent { port: 1234, command: ContainerCommand::Start }]);
    assert_eq!(server.complete(Outcome::Done(Some(42))), Ok(()));
    let state = server.state("c1").unwrap();
    assert_eq!(state.status, VmStatus::Running);
    assert_eq!(state.pid, Some(42));

    let steps = server.kill("c1").unwrap();
    assert_eq!(steps, vec![Step::Agent { port: 1234, command: ContainerCommand::Kill }]);
    assert_eq!(server.complete(Outcome::Done(None)), Ok(()));
    assert_eq!(server.state("c1").unwrap().status, VmStatus::Stopped);
    assert_eq!(server.state("c1").unwrap().pid, Some(42));

    let steps = server.delete("c1").unwrap();
    assert_eq!(
        steps,
        vec![
            Step::Agent { port: 1234, command: ContainerCommand::Delete },
            Step::Vm(VmCommand::Disconnect(1234)),
            Step::RemoveBundleLink("/b/c1".to_string()),
        ]
    );
    assert_eq!(server.complete(Outcome::Done(None)), Ok(()));
    assert_eq!(server.state("c1"), Err(Error::ContainerNotFound));
    assert_eq!(server.len(), 0);
}

#[test]
fn duplicate_create_is_refused() {
    let mut server = ApiServer::new();
    create(&mut server, "c1");
    assert_eq!(
        server.create("c1", request("/b/c1", "/b/c1/rfs")),
        Err(Error::ContainerAlreadyExists)
    );
    assert_eq!(server.len(), 1);
    assert!(!server.is_busy());
    assert_eq!(server.last_port(), 1234);
}

#[test]
fn start_after_kill_is_refused() {
    let mut server = ApiServer::new();
    create(&mut server, "c2");
    server.kill("c2").unwrap();
    assert_eq!(server.complete(Outcome::Done(None)), Ok(()));
    assert_eq!(server.state("c2").unwrap().status, VmStatus::Stopped);
    assert_eq!(server.start("c2"), Err(Error::UnexpectedContainerStatus(VmStatus::Stopped)));
    assert_eq!(server.state("c2").unwrap().status, VmStatus::Stopped);
    assert!(!server.is_busy());
}

#[test]
fn ports_only_grow() {
    let mut server = ApiServer::new();
    assert_eq!(create(&mut server, "a"), 1234);
    assert_eq!(create(&mut server, "b"), 1235);
    server.delete("a").unwrap();
    assert_eq!(server.complete(Outcome::Done(None)), Ok(()));
    assert_eq!(create(&mut server, "c"), 1236);
    assert_eq!(server.vsock_port("a"), None);
    assert_eq!(server.vsock_port("b"), Some(1235));
}

#[test]
fn operations_on_an_unknown_container() {
    let mut server = ApiServer::new();
    assert_eq!(server.start("nope"), Err(Error::ContainerNotFound));
    assert_eq!(server.kill("nope"), Err(Error::ContainerNotFound));
    assert_eq!(server.delete("nope"), Err(Error::ContainerNotFound));
    assert_eq!(server.connect("nope", 5000), Err(Error::ContainerNotFound));
    assert_eq!(server.state("nope"), Err(Error::ContainerNotFound));
    assert!(!server.is_busy());
}

#[test]
fn delete_of_a_running_container_is_refused() {
    let mut server = ApiServer::new();
    create(&mut server, "c1");
    server.start("c1").unwrap();
    assert_eq!(server.complete(Outcome::Done(None)), Ok(()));
    assert_eq!(server.delete("c1"), Err(Error::UnexpectedContainerStatus(VmStatus::Running)));
    assert_eq!(server.state("c1").unwrap().status, VmStatus::Running);
    assert_eq!(server.start("c1"), Err(Error::UnexpectedContainerStatus(VmStatus::Running)));
}

#[test]
fn kill_of_a_stopped_container_is_refused() {
    let mut server = ApiServer::new();
    create(&mut server, "c1");
    server.kill("c1").unwrap();
    assert_eq!(server.complete(Outcome::Done(None)), Ok(()));
    assert_eq!(server.kill("c1"), Err(Error::UnexpectedContainerStatus(VmStatus::Stopped)));
    assert_eq!(server.connect("c1", 7), Err(Error::UnexpectedContainerStatus(VmStatus::Stopped)));
}

#[test]
fn connect_needs_a_running_container() {
    let mut server = ApiServer::new();
    create(&mut server, "c1");
    assert_eq!(
        server.connect("c1", 5000),
        Err(Error::UnexpectedContainerStatus(VmStatus::Created))
    );
    server.start("c1").unwrap();
    assert_eq!(server.complete(Outcome::Done(None)), Ok(()));
    let steps = server.connect("c1", 5000).unwrap();
    assert_eq!(
        steps,
        vec![Step::Vm(VmCommand::Connect(5000, "/tmp/akari_vsock_5000".to_string()))]
    );
    assert_eq!(server.complete(Outcome::Done(None)), Ok(()));
    assert_eq!(server.state("c1").unwrap().status, VmStatus::Running);
}

#[test]
fn one_operation_at_a_time() {
    let mut server = ApiServer::new();
    create(&mut server, "c1");
    create(&mut server, "c2");
    server.start("c1").unwrap();
    assert!(server.is_busy());
    assert_eq!(server.start("c1"), Err(Error::LockPoisoned));
    assert_eq!(server.kill("c2"), Err(Error::LockPoisoned));
    assert_eq!(server.create("c3", request("/b/c3", "/b/c3/rfs")), Err(Error::LockPoisoned));
    assert_eq!(server.len(), 2);
    assert_eq!(server.state("c1").unwrap().status, VmStatus::Created);
    assert_eq!(server.complete(Outcome::Done(None)), Ok(()));
    assert!(!server.is_busy());
    assert_eq!(server.state("c1").unwrap().status, VmStatus::Running);
    assert_eq!(server.kill("c2").unwrap().len(), 1);
}

#[test]
fn complete_without_an_operation() {
    let mut server = ApiServer::new();
    assert_eq!(server.complete(Outcome::Done(None)), Err(Error::ThreadNotFound));
    create(&mut server, "c1");
    assert_eq!(server.complete(Outcome::TimedOut), Err(Error::ThreadNotFound));
    assert_eq!(server.state("c1").unwrap().status, VmStatus::Created);
}

#[test]
fn failed_create_removes_the_entry() {
    let mut server = ApiServer::new();
    server.create("c1", request("/b/c1", "/b/c1/rfs")).unwrap();
    assert_eq!(server.len(), 1);
    assert_eq!(
        server.complete(Outcome::AgentFailed("no space".to_string())),
        Err(Error::AgentError("no space".to_string()))
    );
    assert_eq!(server.len(), 0);
    assert_eq!(server.state("c1"), Err(Error::ContainerNotFound));
    server.create("c1", request("/b/c1", "/b/c1/rfs")).unwrap();
    assert_eq!(server.complete(Outcome::VmFailed), Err(Error::VmCommandFailed));
    assert_eq!(server.len(), 0);
    assert_eq!(server.last_port(), 1235);
    assert_eq!(create(&mut server, "c1"), 1236);
}

#[test]
fn timeout_leaves_the_state_as_it_was() {
    let mut server = ApiServer::new();
    create(&mut server, "c1");
    server.start("c1").unwrap();
    assert_eq!(server.complete(Outcome::TimedOut), Err(Error::Timeout));
    assert_eq!(server.state("c1").unwrap().status, VmStatus::Created);
    assert!(!server.is_busy());
    server.create("c2", request("/b/c2", "/b/c2/rfs")).unwrap();
    assert_eq!(server.complete(Outcome::TimedOut), Err(Error::Timeout));
    assert_eq!(server.state("c2"), Err(Error::ContainerNotFound));
    assert_eq!(server.len(), 1);
    server.start("c1").unwrap();
    assert_eq!(server.complete(Outcome::Done(None)), Ok(()));
    assert_eq!(server.state("c1").unwrap().status, VmStatus::Running);
}

#[test]
fn failed_operations_keep_the_status() {
    let mut server = ApiServer::new();
    create(&mut server, "c1");
    server.delete("c1").unwrap();
    assert_eq!(
        server.complete(Outcome::AgentFailed("busy".to_string())),
        Err(Error::AgentError("busy".to_string()))
    );
    assert_eq!(server.state("c1").unwrap().status, VmStatus::Created);
    server.kill("c1").unwrap();
    assert_eq!(server.complete(Outcome::VmFailed), Err(Error::VmCommandFailed));
    assert_eq!(server.state("c1").unwrap().status, VmStatus::Created);
}

#[test]
fn create_needs_absolute_paths() {
    let mut server = ApiServer::new();
    assert_eq!(server.create("c1", request("b/c1", "/b/c1/rfs")), Err(Error::ConfigInvalid));
    assert_eq!(server.create("c1", request("/b/c1", "")), Err(Error::ConfigInvalid));
    assert_eq!(server.len(), 0);
    assert_eq!(server.last_port(), 1233);
    assert!(!server.is_busy());
}

#[test]
fn recreate_gets_a_greater_port() {
    let mut server = ApiServer::new();
    let first = create(&mut server, "a");
    server.delete("a").unwrap();
    assert_eq!(server.complete(Outcome::Done(None)), Ok(()));
    assert_eq!(server.state("a"), Err(Error::ContainerNotFound));
    let second = create(&mut server, "a");
    assert_eq!(first, 1234);
    assert_eq!(second, 1235);
    assert!(second > first);
}

#[test]
fn ports_are_pairwise_distinct() {
    let mut server = ApiServer::new();
    let ids = ["a", "b", "c", "d", "e"];
    let mut ports = Vec::new();
    for id in ids {
        ports.push(create(&mut server, id));
    }
    server.delete("c").unwrap();
    assert_eq!(server.complete(Outcome::Done(None)), Ok(()));
    ports.push(create(&mut server, "f"));
    for i in 0..ports.len() {
        for j in 0..i {
            assert_ne!(ports[i], ports[j]);
        }
    }
    assert_eq!(ports, vec![1234, 1235, 1236, 1237, 1238, 1239]);
}

#[test]
fn kill_from_created_and_from_running_both_stop() {
    let mut server = ApiServer::new();
    create(&mut server, "x");
    create(&mut server, "y");
    server.start("y").unwrap();
    assert_eq!(server.complete(Outcome::Done(Some(7))), Ok(()));
    server.kill("x").unwrap();
    assert_eq!(server.complete(Outcome::Done(None)), Ok(()));
    server.kill("y").unwrap();
    assert_eq!(server.complete(Outcome::Done(None)), Ok(()));
    assert_eq!(server.state("x").unwrap().status, VmStatus::Stopped);
    assert_eq!(server.state("y").unwrap().status, VmStatus::Stopped);
    server.delete("y").unwrap();
    assert_eq!(server.complete(Outcome::Done(None)), Ok(()));
    assert_eq!(server.len(), 1);
}

#[test]
fn vsock_path_of_a_port() {
    assert_eq!(akari::server::vsock_path(0), "/tmp/akari_vsock_0");
    assert_eq!(akari::server::vsock_path(1234), "/tmp/akari_vsock_1234");
    assert_eq!(akari::server::vsock_path(4294967295), "/tmp/akari_vsock_4294967295");
    assert!(akari::path::starts_at_root("/a"));
    assert!(!akari::path::starts_at_root("a/"));
    assert!(!akari::path::starts_at_root(""));
}

#[test]
fn a_given_up_create_has_its_connection_undone() {
    let mut server = ApiServer::new();
    assert!(server.undo_steps(&Outcome::TimedOut).is_empty());
    server.create("c1", request("/b/c1", "/b/c1/rfs")).unwrap();
    assert_eq!(
        server.undo_steps(&Outcome::AgentFailed("no".to_string())),
        vec![Step::Vm(VmCommand::Disconnect(1234))]
    );
    assert_eq!(server.undo_steps(&Outcome::TimedOut), vec![Step::Vm(VmCommand::Disconnect(1234))]);
    assert!(server.undo_steps(&Outcome::VmFailed).is_empty());
    assert!(server.undo_steps(&Outcome::Done(None)).is_empty());
    assert_eq!(server.complete(Outcome::Done(None)), Ok(()));
    server.start("c1").unwrap();
    assert!(server.undo_steps(&Outcome::TimedOut).is_empty());
    assert!(server.undo_steps(&Outcome::AgentFailed("no".to_string())).is_empty());
}
