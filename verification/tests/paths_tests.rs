use phantom::paths::{daemon_socket_path, default_socket_path, path_join, resolve_socket_path, runtime_dir};

#[test]
fn resolve_uses_env_override_when_set() {
    assert_eq!(
        resolve_socket_path(Some("/tmp/custom-phantom.sock"), Some("/run/user/1"), None, 42),
        "/tmp/custom-phantom.sock"
    );
}

#[test]
fn resolve_falls_back_when_env_empty() {
    assert_eq!(
        resolve_socket_path(Some(""), Some("/run/user/1"), None, 42),
        default_socket_path(Some("/run/user/1"), None, 42)
    );
}

#[test]
fn resolve_falls_back_when_env_unset() {
    assert_eq!(
        resolve_socket_path(None, None, Some("/home/u"), 7),
        default_socket_path(None, Some("/home/u"), 7)
    );
}

#[test]
fn socket_locations() {
    assert_eq!(default_socket_path(Some("/run/user/1"), None, 42), "/run/user/1/phantom-mcp-42.sock");
    assert_eq!(default_socket_path(None, Some("/home/u"), 7), "/home/u/.phantom/phantom-mcp-7.sock");
    assert_eq!(default_socket_path(None, None, 7), "/tmp/.phantom/phantom-mcp-7.sock");
    assert_eq!(daemon_socket_path(None, Some("/run/user/1/"), None), "/run/user/1/phantom.sock");
    assert_eq!(daemon_socket_path(Some("/x.sock"), Some("/run"), None), "/x.sock");
    assert_eq!(runtime_dir(None, Some("/home/u")), "/home/u/.phantom");
}

#[test]
fn path_join_rules() {
    assert_eq!(path_join("/a", "b"), "/a/b");
    assert_eq!(path_join("/a/", "b"), "/a/b");
    assert_eq!(path_join("", "b"), "b");
    assert_eq!(path_join("/a", "/b"), "/b");
}
