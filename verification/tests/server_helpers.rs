//! Tests of the REST-server helpers: path normalization, cookies, PID
//! texts, control sockets, and the process-wide state.

use proxmox_daemon::error::DaemonError;
use proxmox_daemon::server::{
    ctrl_sock_from_pid, extract_cookie, normalize_path, normalize_path_with_components,
    pid_file_contents, read_pid, trim_ascii, ServerState,
};

#[test]
fn normalize_path_strips_empty_components() {
    assert_eq!(normalize_path("").unwrap(), "");
    assert_eq!(normalize_path("/").unwrap(), "");
    assert_eq!(normalize_path("api2/json").unwrap(), "/api2/json");
    assert_eq!(normalize_path("/api2//json/").unwrap(), "/api2/json");
    assert_eq!(normalize_path("//a///b//").unwrap(), "/a/b");
}

#[test]
fn normalize_path_rejects_hidden_components() {
    assert!(normalize_path("/a/.hidden").is_err());
    assert!(normalize_path(".").is_err());
    assert!(normalize_path("a/../b").is_err());
    assert!(normalize_path("/./").is_err());
    assert!(normalize_path("a.b/c").is_ok());
}

#[test]
fn normalize_path_returns_components() {
    let (path, components) = normalize_path_with_components("/api2//json/nodes/").unwrap();
    assert_eq!(path, "/api2/json/nodes");
    assert_eq!(components, vec!["api2", "json", "nodes"]);
    let (path, components) = normalize_path_with_components("").unwrap();
    assert_eq!(path, "");
    assert!(components.is_empty());
    assert!(normalize_path_with_components("/x/.y").is_err());
}

#[test]
fn extract_cookie_finds_and_decodes() {
    let header = "PBSAuthCookie=abc%20def; other=1";
    assert_eq!(extract_cookie(header, "PBSAuthCookie").unwrap(), "abc def");
    assert_eq!(extract_cookie(header, "other").unwrap(), "1");
    assert_eq!(extract_cookie(header, "missing"), None);
    assert_eq!(extract_cookie("novalue; x=1", "x"), None, "a pair without = ends the search");
    assert_eq!(extract_cookie(" spaced = value ", "spaced").unwrap(), "value");
}

#[test]
fn pid_file_round_trip() {
    assert_eq!(pid_file_contents(42), "42\n");
    assert_eq!(read_pid("42\n").unwrap(), 42);
    assert_eq!(read_pid(" 123 \n").unwrap(), 123);
    assert_eq!(read_pid("-5").unwrap(), -5);
    assert_eq!(read_pid("+7").unwrap(), 7);
    assert!(matches!(read_pid(""), Err(DaemonError::ParseError)));
    assert!(matches!(read_pid("abc"), Err(DaemonError::ParseError)));
    assert!(matches!(read_pid("2147483648"), Err(DaemonError::ParseError)));
    assert_eq!(read_pid("2147483647").unwrap(), 2147483647);
    assert_eq!(read_pid("-2147483648").unwrap(), -2147483648);
}

#[test]
fn trim_removes_surrounding_whitespace() {
    assert_eq!(trim_ascii("  a b \n"), "a b");
    assert_eq!(trim_ascii(""), "");
    assert_eq!(trim_ascii(" \t\r\n"), "");
    assert_eq!(trim_ascii("x"), "x");
}

#[test]
fn ctrl_sock_paths_are_per_pid() {
    assert_eq!(ctrl_sock_from_pid(100), "\0/run/proxmox-backup/control-100.sock");
    assert_eq!(ctrl_sock_from_pid(-1), "\0/run/proxmox-backup/control--1.sock");
    let state = ServerState::new(4321, 0);
    assert_eq!(state.our_ctrl_sock(), "\0/run/proxmox-backup/control-4321.sock");
}

#[test]
fn shutdown_state_transitions() {
    let mut state = ServerState::new(1, 2);
    assert!(!state.shutdown_requested());
    assert!(!state.is_reload_request());
    assert!(state.fail_on_shutdown().is_ok());
    state.request_shutdown();
    assert!(state.shutdown_requested());
    assert!(state.fail_on_shutdown().is_err());
    assert_eq!(
        state.fail_on_shutdown().unwrap_err().message(),
        "Server shutdown requested - aborting task"
    );
    state.request_reload();
    assert!(state.is_reload_request());
    assert!(state.shutdown_requested(), "a reload request does not clear the shutdown flag");
}
