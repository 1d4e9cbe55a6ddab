//! Restorable resources: values that survive a re-exec by storing their
//! handle identity as a decimal token in the environment.
//!
//! Producing a token clears the close-on-exec property of a duplicate of
//! the handle so it survives the impending exec; restoring parses the
//! token and reinstates close-on-exec, since the handle is no longer
//! crossing an exec boundary.

use vstd::prelude::*;

use crate::decimal::{
    dec_digits, dec_value, lemma_dec_digits_roundtrip, parse_u32_token, u32_to_decimal,
    valid_u32_token,
};
use crate::error::DaemonError;

verus! {

/// A valid handle-identity token: the handle range is the non-negative
/// descriptor numbers.
pub open spec fn valid_fd_token(s: Seq<char>) -> bool {
    valid_u32_token(s) && dec_value(s) <= i32::MAX
}

/// Relies on nix::fcntl::fcntl with F_DUPFD_CLOEXEC(0): duplicates the
/// descriptor onto the lowest free non-negative number, with
/// close-on-exec set on the duplicate.
#[verifier::external_body]
fn fd_dup_cloexec(fd: i32) -> (r: Result<i32, DaemonError>)
    ensures
        r matches Ok(d) ==> d >= 0,
        r matches Err(e) ==> e matches DaemonError::OSError(_),
{
    match nix::fcntl::fcntl(fd, nix::fcntl::FcntlArg::F_DUPFD_CLOEXEC(0)) {
        Ok(d) => Ok(d),
        Err(e) => Err(DaemonError::OSError(e as i32)),
    }
}

/// Relies on nix::fcntl::fcntl with F_GETFD / F_SETFD: reads the
/// descriptor flags and writes them back with close-on-exec set (`on`)
/// or cleared (`!on`).
#[verifier::external_body]
pub(crate) fn fd_change_cloexec(fd: i32, on: bool) -> (r: Result<(), DaemonError>)
    ensures
        r matches Err(e) ==> e matches DaemonError::OSError(_),
{
    let bits = match nix::fcntl::fcntl(fd, nix::fcntl::FcntlArg::F_GETFD) {
        Ok(b) => b,
        Err(e) => return Err(DaemonError::OSError(e as i32)),
    };
    let mut flags = nix::fcntl::FdFlag::from_bits_truncate(bits);
    flags.set(nix::fcntl::FdFlag::FD_CLOEXEC, on);
    match nix::fcntl::fcntl(fd, nix::fcntl::FcntlArg::F_SETFD(flags)) {
        Ok(_) => Ok(()),
        Err(e) => Err(DaemonError::OSError(e as i32)),
    }
}

/// Relies on nix::unistd::close: closes the descriptor.
#[verifier::external_body]
pub(crate) fn fd_close(fd: i32) -> (r: Result<(), DaemonError>)
    ensures
        r matches Err(e) ==> e matches DaemonError::OSError(_),
{
    match nix::unistd::close(fd) {
        Ok(()) => Ok(()),
        Err(e) => Err(DaemonError::OSError(e as i32)),
    }
}

/// A duplicate of a resource's handle, made when the resource is
/// registered, to be turned into a restoration token right before exec.
pub struct StoredHandle {
    pub dup_fd: i32,
}

impl StoredHandle {
    /// A stored handle wraps a real (non-negative) descriptor number.
    pub open spec fn wf(&self) -> bool {
        0 <= self.dup_fd
    }

    /// Clear close-on-exec on the stored duplicate, so it survives the
    /// exec, and render its handle identity as the restoration token.
    pub fn produce_token(&self) -> (r: Result<String, DaemonError>)
        requires
            self.wf(),
        ensures
            r matches Ok(t) ==> t@ == dec_digits(self.dup_fd as int) && valid_fd_token(t@)
                && dec_value(t@) == self.dup_fd as int,
            r matches Err(e) ==> e matches DaemonError::OSError(_),
    {
        fd_change_cloexec(self.dup_fd, false)?;
        let t = u32_to_decimal(self.dup_fd as u32);
        proof {
            lemma_dec_digits_roundtrip(self.dup_fd as int);
        }
        Ok(t)
    }
}

/// The capability of surviving a re-exec: store the resource's identity
/// in a short textual token and reconstruct it from that token.
pub trait Reloadable: Sized {
    /// The handle identity the resource wraps.
    spec fn handle_id(&self) -> int;

    /// Reconstruct the resource from a restoration token, reinstating
    /// close-on-exec on the adopted handle.
    fn restore(var: &str) -> (r: Result<Self, DaemonError>)
        ensures
            r matches Ok(l) ==> valid_fd_token(var@) && l.handle_id() == dec_value(var@),
            !valid_fd_token(var@) ==> (r matches Err(e) && e == DaemonError::ParseError),
            valid_fd_token(var@) ==> (r matches Err(e) ==> e matches DaemonError::OSError(_)),
    ;

    /// Duplicate the resource's handle for later token production. The
    /// resource must still be fully live when this is called.
    fn get_store_func(&self) -> (r: Result<StoredHandle, DaemonError>)
        ensures
            r matches Ok(h) ==> h.wf(),
            r matches Err(e) ==> e matches DaemonError::OSError(_),
    ;
}

/// Parse a restoration token and adopt the handle it names, reinstating
/// close-on-exec on it.
pub(crate) fn restore_fd(var: &str) -> (r: Result<i32, DaemonError>)
    ensures
        r matches Ok(fd) ==> valid_fd_token(var@) && 0 <= fd && fd as int == dec_value(var@),
        !valid_fd_token(var@) ==> (r matches Err(e) && e == DaemonError::ParseError),
        valid_fd_token(var@) ==> (r matches Err(e) ==> e matches DaemonError::OSError(_)),
{
    let v = parse_u32_token(var)?;
    if v > 0x7fff_ffff {
        return Err(DaemonError::ParseError);
    }
    let fd = v as i32;
    fd_change_cloexec(fd, true)?;
    Ok(fd)
}

/// A bound, listening stream socket on an internet address, held by its
/// handle identity.
pub struct TcpListener {
    pub fd: i32,
}

/// A bound, listening stream socket on a filesystem-path address, held
/// by its handle identity.
pub struct UnixListener {
    pub fd: i32,
}

impl Reloadable for TcpListener {
    open spec fn handle_id(&self) -> int {
        self.fd as int
    }

    fn restore(var: &str) -> (r: Result<Self, DaemonError>) {
        let fd = restore_fd(var)?;
        Ok(TcpListener { fd })
    }

    fn get_store_func(&self) -> (r: Result<StoredHandle, DaemonError>) {
        let dup_fd = fd_dup_cloexec(self.fd)?;
        Ok(StoredHandle { dup_fd })
    }
}

impl Reloadable for UnixListener {
    open spec fn handle_id(&self) -> int {
        self.fd as int
    }

    fn restore(var: &str) -> (r: Result<Self, DaemonError>) {
        let fd = restore_fd(var)?;
        Ok(UnixListener { fd })
    }

    fn get_store_func(&self) -> (r: Result<StoredHandle, DaemonError>) {
        let dup_fd = fd_dup_cloexec(self.fd)?;
        Ok(StoredHandle { dup_fd })
    }
}

/// Law: for every listener kind, the token produced for a stored handle
/// restores to a resource with the same handle identity. Token
/// production yields `dec_digits` of the duplicate's identity, and
/// restoring any token yields the token's `dec_value`; this law closes
/// the loop between the two.
pub proof fn lemma_token_restores_same_handle(fd: i32)
    requires
        0 <= fd,
    ensures
        valid_fd_token(dec_digits(fd as int)),
        dec_value(dec_digits(fd as int)) == fd as int,
{
    lemma_dec_digits_roundtrip(fd as int);
}

} // verus!
