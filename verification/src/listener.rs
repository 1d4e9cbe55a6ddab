//! Bindable listeners: how a fresh listening endpoint is created from an
//! address, decoupled from how it survives a re-exec.

use vstd::prelude::*;

use crate::error::DaemonError;
use crate::resource::{fd_close, Reloadable, TcpListener, UnixListener};

verus! {

/// An internet stream-socket address: four IPv4 octets and a port.
pub struct InetSocketAddr {
    pub octets: [u8; 4],
    pub port: u16,
}

/// A local (filesystem) stream-socket address. Unnamed and abstract
/// local addresses carry no path.
pub struct LocalSocketAddr {
    pub path: Option<String>,
}

/// Relies on nix::sys::socket::socket: creates a stream socket, in the
/// local (unix) or internet family, with close-on-exec set.
#[verifier::external_body]
fn os_socket_stream(local: bool) -> (r: Result<i32, DaemonError>)
    ensures
        r matches Ok(fd) ==> fd >= 0,
        r matches Err(e) ==> e matches DaemonError::OSError(_),
{
    let family = if local {
        nix::sys::socket::AddressFamily::Unix
    } else {
        nix::sys::socket::AddressFamily::Inet
    };
    match nix::sys::socket::socket(
        family,
        nix::sys::socket::SockType::Stream,
        nix::sys::socket::SockFlag::SOCK_CLOEXEC,
        None,
    ) {
        Ok(fd) => Ok(fd),
        Err(e) => Err(DaemonError::OSError(e as i32)),
    }
}

/// Relies on nix::sys::socket::bind with a SockaddrIn built from the
/// four octets and the port.
#[verifier::external_body]
fn os_bind_inet(fd: i32, o0: u8, o1: u8, o2: u8, o3: u8, port: u16) -> (r: Result<
    (),
    DaemonError,
>)
    ensures
        r matches Err(e) ==> e matches DaemonError::OSError(_),
{
    let addr = nix::sys::socket::SockaddrIn::new(o0, o1, o2, o3, port);
    match nix::sys::socket::bind(fd, &addr) {
        Ok(()) => Ok(()),
        Err(e) => Err(DaemonError::OSError(e as i32)),
    }
}

/// Relies on nix::sys::socket::bind with a UnixAddr built from the path.
#[verifier::external_body]
fn os_bind_unix(fd: i32, path: &str) -> (r: Result<(), DaemonError>)
    ensures
        r matches Err(e) ==> e matches DaemonError::OSError(_),
{
    let addr = match nix::sys::socket::UnixAddr::new(path) {
        Ok(a) => a,
        Err(e) => return Err(DaemonError::OSError(e as i32)),
    };
    match nix::sys::socket::bind(fd, &addr) {
        Ok(()) => Ok(()),
        Err(e) => Err(DaemonError::OSError(e as i32)),
    }
}

/// Relies on nix::sys::socket::listen: marks the socket as accepting
/// connections.
#[verifier::external_body]
fn os_listen(fd: i32, backlog: usize) -> (r: Result<(), DaemonError>)
    ensures
        r matches Err(e) ==> e matches DaemonError::OSError(_),
{
    match nix::sys::socket::listen(fd, backlog) {
        Ok(()) => Ok(()),
        Err(e) => Err(DaemonError::OSError(e as i32)),
    }
}

/// The capability of creating a fresh listener from an address. `Self`
/// also survives re-exec, so the orchestrator treats restored and
/// freshly bound listeners uniformly.
pub trait Listenable: Reloadable {
    type Address;

    fn bind(addr: &Self::Address) -> (r: Result<Self, DaemonError>);
}

impl TcpListener {
    /// Create a socket, bind it to the internet address and start
    /// listening on it.
    pub fn bind_inet(addr: &InetSocketAddr) -> (r: Result<TcpListener, DaemonError>)
        ensures
            r matches Ok(l) ==> l.fd >= 0,
            r matches Err(e) ==> e matches DaemonError::OSError(_),
    {
        let fd = os_socket_stream(false)?;
        match os_bind_inet(fd, addr.octets[0], addr.octets[1], addr.octets[2], addr.octets[3],
            addr.port) {
            Ok(()) => {},
            Err(e) => {
                let _ = fd_close(fd);
                return Err(e);
            },
        }
        match os_listen(fd, 1024) {
            Ok(()) => {},
            Err(e) => {
                let _ = fd_close(fd);
                return Err(e);
            },
        }
        Ok(TcpListener { fd })
    }
}

impl UnixListener {
    /// Create a socket, bind it to the local address's filesystem path
    /// and start listening on it. An address with no path component is
    /// rejected as `InvalidAddress`.
    pub fn bind_local(addr: &LocalSocketAddr) -> (r: Result<UnixListener, DaemonError>)
        ensures
            addr.path is None ==> (r matches Err(e) && e == DaemonError::InvalidAddress),
            r matches Ok(l) ==> addr.path is Some && l.fd >= 0,
            addr.path is Some ==> (r matches Err(e) ==> e matches DaemonError::OSError(_)),
    {
        let path = match &addr.path {
            Some(p) => p,
            None => {
                return Err(DaemonError::InvalidAddress);
            },
        };
        let fd = os_socket_stream(true)?;
        match os_bind_unix(fd, path.as_str()) {
            Ok(()) => {},
            Err(e) => {
                let _ = fd_close(fd);
                return Err(e);
            },
        }
        match os_listen(fd, 1024) {
            Ok(()) => {},
            Err(e) => {
                let _ = fd_close(fd);
                return Err(e);
            },
        }
        Ok(UnixListener { fd })
    }
}

impl Listenable for TcpListener {
    type Address = InetSocketAddr;

    fn bind(addr: &InetSocketAddr) -> (r: Result<TcpListener, DaemonError>) {
        TcpListener::bind_inet(addr)
    }
}

impl Listenable for UnixListener {
    type Address = LocalSocketAddr;

    fn bind(addr: &LocalSocketAddr) -> (r: Result<UnixListener, DaemonError>) {
        UnixListener::bind_local(addr)
    }
}

} // verus!
