use akari::path::{aux_sock_path, console_sock_path, join, root_path, vm_config_path};
use std::path::Path;

#[test]
fn join_follows_std() {
    let cases = [
        ("/run/akari", "aux.sock"),
        ("/run/akari/", "aux.sock"),
        ("", "aux.sock"),
        ("/", "aux.sock"),
        ("rel", "a/b"),
        ("/base", "/abs"),
        ("/base", ""),
        ("", ""),
        (".", "config.json"),
    ];
    for (base, leaf) in cases {
        assert_eq!(join(base, leaf), Path::new(base).join(leaf).to_str().unwrap());
    }
    assert_eq!(join("/run/akari", "aux.sock"), "/run/akari/aux.sock");
    assert_eq!(join("/run/akari/", "aux.sock"), "/run/akari/aux.sock");
    assert_eq!(join("", "aux.sock"), "aux.sock");
    assert_eq!(join("/base", "/abs"), "/abs");
    assert_eq!(join("/base", ""), "/base/");
}

#[test]
fn root_path_defaults() {
    assert_eq!(root_path(Some("/custom".to_string()), Some("/home/u".to_string())), "/custom");
    assert_eq!(root_path(Some("/custom".to_string()), None), "/custom");
    assert_eq!(root_path(None, Some("/home/u".to_string())), "/home/u/.akari/run");
    assert_eq!(root_path(None, None), "/run/akari");
}

#[test]
fn socket_paths() {
    assert_eq!(aux_sock_path("/run/akari", None), "/run/akari/aux.sock");
    assert_eq!(aux_sock_path("/run/akari", Some("/tmp/a.sock".to_string())), "/tmp/a.sock");
    assert_eq!(console_sock_path("/run/akari", None), "/run/akari/console.sock");
    assert_eq!(console_sock_path("/run/akari", Some("/tmp/c.sock".to_string())), "/tmp/c.sock");
    assert_eq!(vm_config_path("/run/akari"), "/run/akari/vm.json.base");
    assert_eq!(akari::path::shared_path("/run/akari"), "/run/akari/shared");
}
