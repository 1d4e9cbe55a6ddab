//! The re-exec handshake: a synchronization channel between the parent
//! and the double-forked grandchild, the fixed-width PID message, the
//! single go-ahead byte, and the parent's action plan.
//!
//! The channel sequences three causally dependent facts: the new process
//! exists and has a PID; the supervisor has been told that PID and has
//! acknowledged it; only then may the new process proceed past its
//! handshake wait.

use vstd::prelude::*;

use crate::error::DaemonError;

verus! {

/// The single byte the parent sends to hand authority to the grandchild.
pub const HANDSHAKE_GO_AHEAD: u8 = 1;

/// The width in bytes of the PID message.
pub const PID_MESSAGE_LEN: usize = 4;

/// The four little-endian bytes of a 32-bit value.
pub open spec fn le_bytes(v: int) -> Seq<u8> {
    seq![
        (v % 256) as u8,
        ((v / 256) % 256) as u8,
        ((v / 256 / 256) % 256) as u8,
        ((v / 256 / 256 / 256) % 256) as u8,
    ]
}

/// The value of four little-endian bytes.
pub open spec fn le_value(b: Seq<u8>) -> int {
    b[0] + 256 * (b[1] + 256 * (b[2] + 256 * b[3]))
}

/// Encoding a 32-bit value and decoding the bytes gives the value back.
pub proof fn lemma_le_roundtrip(v: int)
    requires
        0 <= v < 0x1_0000_0000,
    ensures
        le_bytes(v).len() == 4,
        le_value(le_bytes(v)) == v,
{
    let q1 = v / 256;
    let q2 = q1 / 256;
    let q3 = q2 / 256;
    assert(v == 256 * q1 + v % 256);
    assert(q1 == 256 * q2 + q1 % 256);
    assert(q2 == 256 * q3 + q2 % 256);
    assert(q3 < 256);
    assert(q3 % 256 == q3);
}

/// Encode a PID value as its fixed-width native-order message.
pub fn pid_to_bytes(pid: u32) -> (r: Vec<u8>)
    ensures
        r@ =~= le_bytes(pid as int),
        r@.len() == 4,
{
    let mut out: Vec<u8> = Vec::new();
    out.push((pid % 256) as u8);
    out.push((pid / 256 % 256) as u8);
    out.push((pid / 256 / 256 % 256) as u8);
    out.push((pid / 256 / 256 / 256 % 256) as u8);
    out
}

/// Decode a fixed-width native-order PID message.
pub fn pid_from_bytes(b: &Vec<u8>) -> (r: u32)
    requires
        b@.len() == 4,
    ensures
        r as int == le_value(b@),
{
    let b0 = b[0] as u32;
    let b1 = b[1] as u32;
    let b2 = b[2] as u32;
    let b3 = b[3] as u32;
    b0 + 256 * (b1 + 256 * (b2 + 256 * b3))
}

/// Relies on nix::unistd::read: reads at most `max` bytes; an empty
/// result means the other end closed the stream.
#[verifier::external_body]
fn fd_read_chunk(fd: i32, max: usize) -> (r: Result<Vec<u8>, DaemonError>)
    ensures
        r matches Ok(v) ==> v@.len() <= max,
        r matches Err(e) ==> e matches DaemonError::OSError(_),
{
    let mut buf = vec![0u8; max];
    match nix::unistd::read(fd, &mut buf) {
        Ok(n) => {
            buf.truncate(n);
            Ok(buf)
        },
        Err(e) => Err(DaemonError::OSError(e as i32)),
    }
}

/// Relies on nix::unistd::write: writes the buffer's bytes from `from`
/// on; returns how many were written, at most what was handed over.
#[verifier::external_body]
fn fd_write_from(fd: i32, buf: &Vec<u8>, from: usize) -> (r: Result<usize, DaemonError>)
    requires
        from <= buf@.len(),
    ensures
        r matches Ok(n) ==> n <= buf@.len() - from,
        r matches Err(e) ==> e matches DaemonError::OSError(_),
{
    match nix::unistd::write(fd, &buf[from..]) {
        Ok(n) => Ok(n),
        Err(e) => Err(DaemonError::OSError(e as i32)),
    }
}

/// One end of the synchronization channel of a reload attempt: a
/// connected local stream socket, whose peer the other process holds.
pub struct SyncPipe {
    pub fd: i32,
}

impl SyncPipe {
    /// Read exactly `n` bytes. `Ok(None)` means the stream ended before
    /// `n` bytes arrived (the other end vanished).
    pub fn read_exact(&self, n: usize) -> (r: Result<Option<Vec<u8>>, DaemonError>)
        ensures
            r matches Ok(Some(v)) ==> v@.len() == n,
            r matches Err(e) ==> e matches DaemonError::OSError(_),
    {
        let mut out: Vec<u8> = Vec::new();
        while out.len() < n
            invariant
                out@.len() <= n,
            decreases n - out@.len(),
        {
            let mut chunk = match fd_read_chunk(self.fd, n - out.len()) {
                Ok(c) => c,
                Err(e) => {
                    return Err(e);
                },
            };
            if chunk.len() == 0 {
                return Ok(None);
            }
            out.append(&mut chunk);
        }
        Ok(Some(out))
    }

    /// Write all of the buffer's bytes. A stream that accepts nothing is
    /// reported as an I/O failure.
    pub fn write_all(&self, buf: &Vec<u8>) -> (r: Result<(), DaemonError>)
        ensures
            r matches Err(e) ==> e matches DaemonError::OSError(_),
    {
        let mut written: usize = 0;
        while written < buf.len()
            invariant
                written <= buf@.len(),
            decreases buf@.len() - written,
        {
            let n = match fd_write_from(self.fd, buf, written) {
                Ok(n) => n,
                Err(e) => {
                    return Err(e);
                },
            };
            if n == 0 {
                return Err(DaemonError::OSError(5));
            }
            written += n;
        }
        Ok(())
    }

    /// Close this end of the channel.
    pub fn close(self) -> (r: Result<(), DaemonError>)
        ensures
            r matches Err(e) ==> e matches DaemonError::OSError(_),
    {
        crate::resource::fd_close(self.fd)
    }
}

/// Accept the go-ahead byte of the handshake: it must equal exactly
/// `HANDSHAKE_GO_AHEAD`; any other value is a protocol violation.
pub fn check_handshake_byte(b: u8) -> (r: Result<(), DaemonError>)
    ensures
        r is Ok <==> b == HANDSHAKE_GO_AHEAD,
        r matches Err(e) ==> e == DaemonError::ParseError,
{
    if b == HANDSHAKE_GO_AHEAD {
        Ok(())
    } else {
        Err(DaemonError::ParseError)
    }
}

/// What the parent saw on the synchronization channel.
pub enum ParentEvent {
    /// The grandchild's PID message arrived, decoded to this value.
    PidReceived(u32),
    /// The channel closed before a full PID message arrived.
    ChannelClosed,
}

/// Interpret the parent's blocking read of the PID message: a full
/// message decodes to the sender's PID; anything short of that means the
/// descendant vanished and the channel closed.
pub fn parent_event(read: Option<Vec<u8>>) -> (r: ParentEvent)
    requires
        read matches Some(b) ==> b@.len() == 4,
    ensures
        match read {
            Some(b) => r matches ParentEvent::PidReceived(p) && p as int == le_value(b@),
            None => r is ChannelClosed,
        },
{
    match read {
        Some(bytes) => ParentEvent::PidReceived(pid_from_bytes(&bytes)),
        None => ParentEvent::ChannelClosed,
    }
}

/// One step the parent performs after its channel read.
#[derive(Clone, Copy, PartialEq, Eq, Structural, Debug)]
pub enum ParentAction {
    /// Replace the PID file with the new main PID.
    WritePidFile(i32),
    /// Announce the new main PID to the supervisor.
    NotifyMainPid(i32),
    /// Block until the supervisor has processed prior notifications.
    BarrierWait,
    /// Write the single go-ahead byte to the channel.
    SendGoAhead,
}

/// The parent's actions when a valid PID arrived: optionally persist it,
/// announce it, wait on the supervisor's barrier, then hand off.
pub open spec fn expected_parent_actions(pid: i32, has_pid_file: bool) -> Seq<ParentAction> {
    (if has_pid_file {
        seq![ParentAction::WritePidFile(pid)]
    } else {
        Seq::<ParentAction>::empty()
    }) + seq![ParentAction::NotifyMainPid(pid), ParentAction::BarrierWait, ParentAction::SendGoAhead]
}

/// Decide the parent's actions after its blocking read of the PID
/// message. A closed channel means the reload silently did not happen:
/// nothing is done and the parent keeps running as before. A PID outside
/// the valid process-ID range is a malformed PID message.
pub fn parent_handshake_plan(event: &ParentEvent, has_pid_file: bool) -> (r: Result<
    Vec<ParentAction>,
    DaemonError,
>)
    ensures
        event is ChannelClosed ==> (r matches Ok(v) && v@ =~= Seq::<ParentAction>::empty()),
        event matches ParentEvent::PidReceived(p) ==> ({
            &&& (1 <= *p <= i32::MAX) ==> (r matches Ok(v) && v@ =~= expected_parent_actions(
                *p as i32,
                has_pid_file,
            ))
            &&& !(1 <= *p <= i32::MAX) ==> (r matches Err(e) && e == DaemonError::ParseError)
        }),
{
    match event {
        ParentEvent::ChannelClosed => Ok(Vec::new()),
        ParentEvent::PidReceived(p) => {
            let p = *p;
            if p < 1 || p > 0x7fff_ffff {
                return Err(DaemonError::ParseError);
            }
            let pid = p as i32;
            let mut v: Vec<ParentAction> = Vec::new();
            if has_pid_file {
                v.push(ParentAction::WritePidFile(pid));
            }
            v.push(ParentAction::NotifyMainPid(pid));
            v.push(ParentAction::BarrierWait);
            v.push(ParentAction::SendGoAhead);
            Ok(v)
        },
    }
}

/// Law: when the parent has read a PID, its plan announces the new main
/// PID exactly once and performs exactly one barrier wait, and both
/// strictly precede the go-ahead byte, which comes last.
pub proof fn lemma_parent_plan_order(pid: i32, has_pid_file: bool)
    ensures
        ({
            let s = expected_parent_actions(pid, has_pid_file);
            let base = s.len() - 3;
            &&& s.len() == (if has_pid_file {
                4int
            } else {
                3int
            })
            &&& forall|j: int| 0 <= j < s.len() ==> ((#[trigger] s[j]) is NotifyMainPid <==> j
                == base)
            &&& forall|j: int| 0 <= j < s.len() ==> ((#[trigger] s[j]) is BarrierWait <==> j == base
                + 1)
            &&& forall|j: int| 0 <= j < s.len() ==> ((#[trigger] s[j]) is SendGoAhead <==> j == base
                + 2)
        }),
{
    let s = expected_parent_actions(pid, has_pid_file);
    if has_pid_file {
        assert(s =~= seq![
            ParentAction::WritePidFile(pid),
            ParentAction::NotifyMainPid(pid),
            ParentAction::BarrierWait,
            ParentAction::SendGoAhead,
        ]);
    } else {
        assert(s =~= seq![
            ParentAction::NotifyMainPid(pid),
            ParentAction::BarrierWait,
            ParentAction::SendGoAhead,
        ]);
    }
}

} // verus!
