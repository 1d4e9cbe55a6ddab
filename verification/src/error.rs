use vstd::prelude::*;

verus! {

/// Failure taxonomy of the daemon core: malformed restoration tokens or
/// PID bytes, failing system calls, listener addresses lacking required
/// components, and restoration variables that are present but unusable.
#[derive(Clone, Copy, Debug, PartialEq, Eq, Structural)]
pub enum DaemonError {
    /// A restoration token or received PID value did not parse.
    ParseError,
    /// A system call failed; carries the errno value.
    OSError(i32),
    /// A listener address lacks a required component.
    InvalidAddress,
    /// A restoration environment variable is present but unusable.
    InvalidEnvironment,
}

impl DaemonError {
    /// A short description of the error kind.
    pub fn message(&self) -> (r: &'static str)
        ensures
            self is ParseError ==> r@ == "invalid restoration token"@,
            self is OSError ==> r@ == "system call failed"@,
            self is InvalidAddress ==> r@ == "invalid listener address"@,
            self is InvalidEnvironment ==> r@ == "environment variable has invalid value"@,
    {
        match self {
            DaemonError::ParseError => "invalid restoration token",
            DaemonError::OSError(_) => "system call failed",
            DaemonError::InvalidAddress => "invalid listener address",
            DaemonError::InvalidEnvironment => "environment variable has invalid value",
        }
    }
}

} // verus!
