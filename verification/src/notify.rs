//! Supervisor notification messages: the ASCII `KEY=VALUE` lines handed
//! to the platform notification mechanism, and the treatment of its
//! return code.

use vstd::prelude::*;
use vstd::string::StringExecFns;

use crate::decimal::{i32_to_decimal, int_digits};
use crate::error::DaemonError;

verus! {

/// Service startup states announced to the supervisor.
pub enum SystemdNotify {
    Ready,
    Reloading,
    Stopping,
    Status(String),
    MainPid(i32),
}

/// The wire line of a notification.
pub open spec fn notify_message_spec(state: SystemdNotify) -> Seq<char> {
    match state {
        SystemdNotify::Ready => "READY=1"@,
        SystemdNotify::Reloading => "RELOADING=1"@,
        SystemdNotify::Stopping => "STOPPING=1"@,
        SystemdNotify::Status(msg) => "STATUS="@ + msg@,
        SystemdNotify::MainPid(pid) => "MAINPID="@ + int_digits(pid as int),
    }
}

/// Format a notification as its ASCII `KEY=VALUE` line.
pub fn notify_message(state: &SystemdNotify) -> (r: String)
    ensures
        r@ == notify_message_spec(*state),
{
    match state {
        SystemdNotify::Ready => "READY=1".to_owned(),
        SystemdNotify::Reloading => "RELOADING=1".to_owned(),
        SystemdNotify::Stopping => "STOPPING=1".to_owned(),
        SystemdNotify::Status(msg) => {
            let mut s = "STATUS=".to_owned();
            s.append(msg.as_str());
            s
        },
        SystemdNotify::MainPid(pid) => {
            let mut s = "MAINPID=".to_owned();
            let digits = i32_to_decimal(*pid);
            s.append(digits.as_str());
            s
        },
    }
}

/// Interpret the notification mechanism's return code: a negative value
/// is the negated errno of a failed send; anything else is success.
pub fn notify_result(rc: i32) -> (r: Result<(), DaemonError>)
    ensures
        r is Ok <==> rc >= 0,
        (rc < 0 && rc != i32::MIN) ==> (r matches Err(e) && e == DaemonError::OSError(
            (0 - rc) as i32,
        )),
        r matches Err(e) ==> e matches DaemonError::OSError(_),
{
    if rc >= 0 {
        Ok(())
    } else if rc == i32::MIN {
        Err(DaemonError::OSError(i32::MAX))
    } else {
        Err(DaemonError::OSError(-rc))
    }
}

/// The status string reported to the supervisor when a reload attempt
/// fails.
pub fn reload_failure_status() -> (r: String)
    ensures
        r@ == "error during reload"@,
{
    "error during reload".to_owned()
}

} // verus!
