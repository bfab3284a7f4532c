//! Waiting on a connection's socket: what is asked of the native poll, and
//! what its return value means.

use vstd::prelude::*;

verus! {

/// The descriptor of the socket under a live connection. It is a plain
/// number: it does not keep the connection alive.
#[derive(Clone, Copy, Debug)]
pub struct PgSocket {
    socket: i32,
}

/// Why a wait ended without the socket being ready.
#[derive(Debug)]
pub enum PgSocketPollResult {
    /// The deadline passed.
    Timeout,
    /// The poll itself failed; the text is the system's description.
    Error(String),
}

/// The arguments of one native poll.
#[derive(Clone, Copy, Debug)]
pub struct PollRequest {
    pub socket: i32,
    pub for_read: i32,
    pub for_write: i32,
    /// The absolute deadline in microseconds, or -1 to wait without end.
    pub end_time: i64,
}

/// A flag as the native library takes it.
pub open spec fn native_flag(on: bool) -> i32 {
    if on {
        1i32
    } else {
        0i32
    }
}

/// The deadline of a wait that starts at `now`: `now` plus the timeout, both
/// in microseconds, or -1 where there is no timeout.
pub open spec fn deadline(now: i64, timeout: Option<i64>) -> int {
    match timeout {
        Some(t) => now + t,
        None => -1,
    }
}

/// What the return value of the native poll means: positive, the socket is
/// ready; zero, the deadline passed; negative, the poll failed.
pub open spec fn poll_meaning(rc: i32, os_error: String) -> Result<(), PgSocketPollResult> {
    if rc > 0 {
        Ok(())
    } else if rc == 0 {
        Err(PgSocketPollResult::Timeout)
    } else {
        Err(PgSocketPollResult::Error(os_error))
    }
}

impl PgSocketPollResult {
    /// The text of `to_string`.
    pub open spec fn rendering(&self) -> Seq<char> {
        match self {
            PgSocketPollResult::Timeout => "Timeout"@,
            PgSocketPollResult::Error(s) => "Error: "@ + s@,
        }
    }

    /// Describes the outcome in words.
    pub fn to_string(&self) -> (text: String)
        ensures
            text@ == self.rendering(),
    {
        match self {
            PgSocketPollResult::Timeout => String::from_str("Timeout"),
            PgSocketPollResult::Error(s) => {
                let mut text = String::from_str("Error: ");
                text.append(s.as_str());
                text
            },
        }
    }
}

impl PgSocket {
    /// The descriptor.
    pub closed spec fn fd(&self) -> i32 {
        self.socket
    }

    /// Wraps a descriptor.
    pub fn new(socket: i32) -> (s: PgSocket)
        ensures
            s.fd() == socket,
    {
        PgSocket { socket }
    }

    /// The descriptor.
    pub fn descriptor(&self) -> (socket: i32)
        ensures
            socket == self.fd(),
    {
        self.socket
    }

    /// Prepares one wait on this socket. The clock is read once by the
    /// caller, as `now_usec`, and the deadline is that reading plus the
    /// timeout; without a timeout the wait has no end.
    pub fn poll(&self, read: bool, write: bool, timeout_usec: Option<i64>, now_usec: i64) -> (r:
        PollRequest)
        requires
            i64::MIN <= deadline(now_usec, timeout_usec) <= i64::MAX,
        ensures
            r.socket == self.fd(),
            r.for_read == native_flag(read),
            r.for_write == native_flag(write),
            r.end_time == deadline(now_usec, timeout_usec),
    {
        let end_time: i64 = match timeout_usec {
            Some(t) => now_usec + t,
            None => -1,
        };
        PollRequest {
            socket: self.socket,
            for_read: if read {
                1
            } else {
                0
            },
            for_write: if write {
                1
            } else {
                0
            },
            end_time,
        }
    }

    /// Reads the return value of the native poll. `os_error` is the system's
    /// description of its last error, taken right after the call; it is kept
    /// only where the poll failed.
    pub fn poll_outcome(rc: i32, os_error: String) -> (r: Result<(), PgSocketPollResult>)
        ensures
            r == poll_meaning(rc, os_error),
    {
        if rc > 0 {
            Ok(())
        } else if rc == 0 {
            Err(PgSocketPollResult::Timeout)
        } else {
            Err(PgSocketPollResult::Error(os_error))
        }
    }
}

} // verus!
