//! Tests of the daemon core: token round trips, the resource registry,
//! and the re-exec handshake protocol.

use std::cell::Cell;

use proxmox_daemon::daemon::{plan_after_race, RaceOutcome};
use proxmox_daemon::error::DaemonError;
use proxmox_daemon::listener::{InetSocketAddr, Listenable, LocalSocketAddr};
use proxmox_daemon::notify::{notify_message, notify_result, SystemdNotify};
use proxmox_daemon::protocol::{
    check_handshake_byte, parent_event, parent_handshake_plan, pid_from_bytes, pid_to_bytes,
    ParentAction, ParentEvent, SyncPipe,
};
use proxmox_daemon::reloader::Reloader;
use proxmox_daemon::resource::{Reloadable, TcpListener, UnixListener};

fn fresh_fd_pair() -> (i32, i32) {
    let (a, b) = nix::sys::socket::socketpair(
        nix::sys::socket::AddressFamily::Unix,
        nix::sys::socket::SockType::Stream,
        None,
        nix::sys::socket::SockFlag::SOCK_CLOEXEC,
    )
    .expect("socketpair");
    (a, b)
}

fn cloexec_flag(fd: i32) -> bool {
    let bits = nix::fcntl::fcntl(fd, nix::fcntl::FcntlArg::F_GETFD).expect("fcntl");
    nix::fcntl::FdFlag::from_bits_truncate(bits).contains(nix::fcntl::FdFlag::FD_CLOEXEC)
}

#[test]
fn token_round_trip_inet_listener() {
    let (a, b) = fresh_fd_pair();
    let listener = TcpListener { fd: a };
    let handle = listener.get_store_func().expect("dup");
    let dup_fd = handle.dup_fd;
    assert!(dup_fd >= 0);
    assert_ne!(dup_fd, a, "the stored handle is a duplicate, not the original");
    assert!(cloexec_flag(dup_fd), "the duplicate starts close-on-exec");
    let token = handle.produce_token().expect("token");
    assert!(!cloexec_flag(dup_fd), "producing the token cleared close-on-exec");
    let restored = TcpListener::restore(&token).expect("restore");
    assert_eq!(restored.fd, dup_fd);
    assert!(cloexec_flag(dup_fd), "restoring reinstated close-on-exec");
    // The restored handle is the same open socket: bytes written into the
    // peer end come out of the restored descriptor.
    nix::unistd::write(b, b"x").expect("write");
    let mut buf = [0u8; 1];
    let n = nix::unistd::read(restored.fd, &mut buf).expect("read");
    assert_eq!(n, 1);
    assert_eq!(buf[0], b'x');
}

#[test]
fn token_round_trip_local_listener() {
    let (a, b) = fresh_fd_pair();
    let listener = UnixListener { fd: a };
    let handle = listener.get_store_func().expect("dup");
    let dup_fd = handle.dup_fd;
    let token = handle.produce_token().expect("token");
    let restored = UnixListener::restore(&token).expect("restore");
    assert_eq!(restored.fd, dup_fd);
    nix::unistd::write(b, b"y").expect("write");
    let mut buf = [0u8; 1];
    let n = nix::unistd::read(restored.fd, &mut buf).expect("read");
    assert_eq!(n, 1);
    assert_eq!(buf[0], b'y');
}

#[test]
fn restore_rejects_invalid_tokens() {
    for bad in ["", "abc", "-5", "12x", " 12", "4294967296", "2147483648",
        "18446744073709551616"]
    {
        match TcpListener::restore(bad) {
            Err(DaemonError::ParseError) => {},
            other => panic!("token {:?} gave {:?}", bad, other.map(|l| l.fd)),
        }
    }
}

#[test]
fn registry_restores_from_environment_without_factory() {
    let (a, _b) = fresh_fd_pair();
    let token = format!("{}", a);
    let called = Cell::new(false);
    let mut reloader = Reloader::new(String::from("/proc/self/exe"));
    let listener: TcpListener = reloader
        .restore("PROXMOX_BACKUP_LISTEN_FD", Some(&token), || {
            called.set(true);
            Ok(TcpListener { fd: -1 })
        })
        .expect("restore");
    assert!(!called.get(), "factory must not run when the variable is present");
    assert_eq!(listener.fd, a);
    assert_eq!(reloader.pre_exec.len(), 1);
    assert_eq!(reloader.pre_exec[0].name, "PROXMOX_BACKUP_LISTEN_FD");
}

#[test]
fn registry_creates_once_without_environment() {
    let (a, _b) = fresh_fd_pair();
    let calls = Cell::new(0u32);
    let mut reloader = Reloader::new(String::from("/proc/self/exe"));
    let listener: TcpListener = reloader
        .restore("PROXMOX_BACKUP_LISTEN_FD", None, || {
            calls.set(calls.get() + 1);
            Ok(TcpListener { fd: a })
        })
        .expect("create");
    assert_eq!(calls.get(), 1, "factory must run exactly once");
    assert_eq!(listener.fd, a);
    assert_eq!(reloader.pre_exec.len(), 1);
    assert_eq!(reloader.pre_exec[0].name, "PROXMOX_BACKUP_LISTEN_FD");
}

#[test]
fn registry_rejects_unusable_environment() {
    let called = Cell::new(false);
    let mut reloader = Reloader::new(String::from("/proc/self/exe"));
    let result: Result<TcpListener, DaemonError> =
        reloader.restore("PROXMOX_BACKUP_LISTEN_FD", Some("-5"), || {
            called.set(true);
            Ok(TcpListener { fd: -1 })
        });
    assert!(matches!(result, Err(DaemonError::InvalidEnvironment)));
    assert!(!called.get());
    assert_eq!(reloader.pre_exec.len(), 0);
}

#[test]
fn registry_round_trip_through_environment() {
    // No variable set: the registry creates a fresh listener, records one
    // entry, and materializing yields exactly one assignment whose value
    // parses back to the same handle identity.
    let (a, _b) = fresh_fd_pair();
    let mut reloader = Reloader::new(String::from("/proc/self/exe"));
    let _listener: TcpListener = reloader
        .restore("PROXMOX_BACKUP_LISTEN_FD", None, || Ok(TcpListener { fd: a }))
        .expect("create");
    assert_eq!(reloader.pre_exec.len(), 1);
    let dup_fd = reloader.pre_exec[0].handle.dup_fd;
    let env = reloader.pre_exec().expect("materialize");
    assert_eq!(env.len(), 1);
    assert_eq!(env[0].name, "PROXMOX_BACKUP_LISTEN_FD");
    let restored = TcpListener::restore(&env[0].value).expect("restore");
    assert_eq!(restored.fd, dup_fd);
}

#[test]
fn handshake_byte_must_be_one() {
    assert!(check_handshake_byte(1).is_ok());
    for bad in [0u8, 2, 3, 17, 255] {
        assert!(matches!(check_handshake_byte(bad), Err(DaemonError::ParseError)));
    }
}

#[test]
fn parent_plan_on_closed_channel_does_nothing() {
    let plan = parent_handshake_plan(&ParentEvent::ChannelClosed, true).expect("plan");
    assert!(plan.is_empty());
    let plan = parent_handshake_plan(&ParentEvent::ChannelClosed, false).expect("plan");
    assert!(plan.is_empty());
}

#[test]
fn parent_plan_orders_notification_before_go_ahead() {
    let plan = parent_handshake_plan(&ParentEvent::PidReceived(1234), true).expect("plan");
    assert_eq!(
        plan,
        vec![
            ParentAction::WritePidFile(1234),
            ParentAction::NotifyMainPid(1234),
            ParentAction::BarrierWait,
            ParentAction::SendGoAhead,
        ]
    );
    let plan = parent_handshake_plan(&ParentEvent::PidReceived(77), false).expect("plan");
    assert_eq!(
        plan,
        vec![
            ParentAction::NotifyMainPid(77),
            ParentAction::BarrierWait,
            ParentAction::SendGoAhead,
        ]
    );
}

#[test]
fn parent_plan_rejects_malformed_pid() {
    assert!(matches!(
        parent_handshake_plan(&ParentEvent::PidReceived(0), true),
        Err(DaemonError::ParseError)
    ));
    assert!(matches!(
        parent_handshake_plan(&ParentEvent::PidReceived(0x8000_0000), false),
        Err(DaemonError::ParseError)
    ));
}

#[test]
fn parent_event_interprets_channel_read() {
    assert!(matches!(
        parent_event(Some(pid_to_bytes(4321))),
        ParentEvent::PidReceived(4321)
    ));
    assert!(matches!(parent_event(None), ParentEvent::ChannelClosed));
}

#[test]
fn pid_bytes_round_trip() {
    for pid in [0u32, 1, 77, 1234, 65535, 65536, 0x7fff_ffff, 0xffff_ffff] {
        let bytes = pid_to_bytes(pid);
        assert_eq!(bytes.len(), 4);
        assert_eq!(pid_from_bytes(&bytes), pid);
    }
    assert_eq!(pid_to_bytes(1234), 1234i32.to_le_bytes().to_vec());
}

fn sync_pipe_pair() -> (SyncPipe, SyncPipe) {
    let (a, b) = fresh_fd_pair();
    (SyncPipe { fd: a }, SyncPipe { fd: b })
}

#[test]
fn sync_pipe_carries_handshake() {
    let (parent, child) = sync_pipe_pair();
    let pid_msg = pid_to_bytes(4321);
    child.write_all(&pid_msg).expect("send pid");
    let received = parent.read_exact(4).expect("read").expect("pid arrived");
    assert_eq!(pid_from_bytes(&received), 4321);
    parent.write_all(&vec![1u8]).expect("go ahead");
    let byte = child.read_exact(1).expect("read").expect("byte arrived");
    assert!(check_handshake_byte(byte[0]).is_ok());
    parent.close().expect("close");
    child.close().expect("close");
}

#[test]
fn sync_pipe_reports_closed_channel() {
    let (parent, child) = sync_pipe_pair();
    child.close().expect("close");
    let outcome = parent.read_exact(4).expect("read");
    assert!(outcome.is_none(), "a closed channel reads as end of stream");
    parent.close().expect("close");
}

#[test]
fn bind_local_requires_path() {
    let addr = LocalSocketAddr { path: None };
    assert!(matches!(
        UnixListener::bind_local(&addr),
        Err(DaemonError::InvalidAddress)
    ));
    assert!(matches!(
        <UnixListener as Listenable>::bind(&addr),
        Err(DaemonError::InvalidAddress)
    ));
}

#[test]
fn bind_inet_listens_on_loopback() {
    let addr = InetSocketAddr { octets: [127, 0, 0, 1], port: 0 };
    let listener = TcpListener::bind_inet(&addr).expect("bind");
    assert!(listener.fd >= 0);
    nix::unistd::close(listener.fd).expect("close");
}

#[test]
fn restored_tcp_listener_is_still_listening() {
    let addr = InetSocketAddr { octets: [127, 0, 0, 1], port: 0 };
    let listener = TcpListener::bind_inet(&addr).expect("bind");
    let handle = listener.get_store_func().expect("dup");
    let token = handle.produce_token().expect("token");
    let restored = TcpListener::restore(&token).expect("restore");
    let listening = nix::sys::socket::getsockopt(restored.fd, nix::sys::socket::sockopt::AcceptConn)
        .expect("getsockopt");
    assert!(listening, "the restored descriptor is the same listening socket");
    let bound: nix::sys::socket::SockaddrIn =
        nix::sys::socket::getsockname(restored.fd).expect("getsockname");
    let original: nix::sys::socket::SockaddrIn =
        nix::sys::socket::getsockname(listener.fd).expect("getsockname");
    assert_eq!(bound, original, "the restored descriptor is bound to the same address");
    for fd in [listener.fd, restored.fd] {
        let _ = nix::unistd::close(fd);
    }
}

#[test]
fn service_completion_plans_no_reload_and_no_drain() {
    let plan = plan_after_race(&RaceOutcome::ServiceFinished, false, false);
    assert!(plan.force_shutdown);
    assert!(!plan.do_reload);
    assert!(!plan.drain);
    let plan = plan_after_race(&RaceOutcome::ServiceFinished, true, false);
    assert!(!plan.force_shutdown);
    assert!(!plan.drain);
}

#[test]
fn termination_signal_plans_drain_and_reload() {
    let plan = plan_after_race(&RaceOutcome::TerminationSignal, true, true);
    assert!(!plan.force_shutdown);
    assert!(plan.do_reload);
    assert!(plan.drain);
    let plan = plan_after_race(&RaceOutcome::TerminationSignal, true, false);
    assert!(!plan.do_reload);
    assert!(plan.drain);
}

#[test]
fn notify_messages_match_wire_format() {
    assert_eq!(notify_message(&SystemdNotify::Ready), "READY=1");
    assert_eq!(notify_message(&SystemdNotify::Reloading), "RELOADING=1");
    assert_eq!(notify_message(&SystemdNotify::Stopping), "STOPPING=1");
    assert_eq!(
        notify_message(&SystemdNotify::Status(String::from("error during reload"))),
        "STATUS=error during reload"
    );
    assert_eq!(notify_message(&SystemdNotify::MainPid(1234)), "MAINPID=1234");
}

#[test]
fn notify_result_translates_return_codes() {
    assert!(notify_result(0).is_ok());
    assert!(notify_result(17).is_ok());
    assert!(matches!(notify_result(-22), Err(DaemonError::OSError(22))));
}

#[test]
fn reexec_plan_holds_exe_args_and_environment() {
    let (a, _b) = fresh_fd_pair();
    let mut reloader = Reloader::new(String::from("/usr/bin/self"));
    let _listener: TcpListener = reloader
        .restore("PROXMOX_BACKUP_LISTEN_FD", None, || Ok(TcpListener { fd: a }))
        .expect("create");
    let dup_fd = reloader.pre_exec[0].handle.dup_fd;
    let args = vec![String::from("daemon"), String::from("--flag")];
    let plan = reloader.reexec_plan(args.clone()).expect("plan");
    assert_eq!(plan.exe, "/usr/bin/self");
    assert_eq!(plan.args, args);
    assert_eq!(plan.env.len(), 1);
    assert_eq!(plan.env[0].value, format!("{}", dup_fd));
}
