//! Classification of one asynchronous read or write.
//!
//! An operation is issued, then driven to completion by blocking on its own
//! completion object, then its transferred byte count is retrieved. The OS
//! reports three things along the way: whether the issue call was accepted
//! (outright, or as a pending operation), whether the completion wait
//! succeeded, and how many bytes moved. The functions here turn those raw
//! reports into the relay's outcome taxonomy.

use vstd::prelude::*;

verus! {

/// Which endpoint of the pair an operation targets. A direction selects one
/// resource and its own completion object; directions never share either.
#[derive(Clone, Copy, Debug, PartialEq, Eq, Structural)]
pub enum Direction {
    /// The character-device endpoint (the serial port).
    Device,
    /// The byte-stream IPC channel endpoint (the named pipe).
    Channel,
}

/// What the OS reported when the asynchronous operation was issued.
#[derive(Clone, Copy, Debug, PartialEq, Eq, Structural)]
pub enum IssueReport {
    /// The issue call succeeded immediately.
    Accepted,
    /// The issue call returned failure, but only because the operation was
    /// queued and is still in flight; the caller must wait for completion.
    Pending,
    /// The issue call failed outright with the given OS error code.
    Rejected(u32),
}

/// What the OS reported when the completion wait finished: either the number
/// of bytes actually transferred, or a hard failure code.
#[derive(Clone, Copy, Debug, PartialEq, Eq, Structural)]
pub enum WaitReport {
    /// The operation completed, moving this many bytes.
    Finished(usize),
    /// The wait itself failed with the given OS error code.
    Failed(u32),
}

/// The outcome of one read or write, as the relay loops see it.
#[derive(Clone, Copy, Debug, PartialEq, Eq, Structural)]
pub enum IoOutcome {
    /// This many bytes were transferred; may be fewer than requested.
    Transferred(usize),
    /// The configured wait elapsed with no data moved: recoverable, not a
    /// hard error and not end-of-stream.
    TimedOut,
    /// A hard OS failure with the given error code.
    Failed(u32),
}

/// The outcome a finished wait must be classified as: a zero-byte transfer
/// is a successful no-op exactly when nothing was asked for, and a timeout
/// whenever data was asked for; any other count is plain success.
pub open spec fn outcome_of_wait(buf_len: nat, wait: WaitReport) -> IoOutcome {
    match wait {
        WaitReport::Failed(code) => IoOutcome::Failed(code),
        WaitReport::Finished(n) => if n == 0 && buf_len == 0 {
            IoOutcome::Transferred(0)
        } else if n == 0 {
            IoOutcome::TimedOut
        } else {
            IoOutcome::Transferred(n)
        },
    }
}

/// Decides whether an issued operation may proceed to the completion wait.
/// Only an outright rejection stops it; immediate success still goes through
/// the wait, because the transferred count is only retrievable there.
pub fn issue_accepted(issue: IssueReport) -> (r: bool)
    ensures
        r == !(issue is Rejected),
{
    match issue {
        IssueReport::Accepted => true,
        IssueReport::Pending => true,
        IssueReport::Rejected(_) => false,
    }
}

/// Classifies a finished completion wait for a buffer of `buf_len` bytes.
///
/// A zero-byte transfer on a non-empty buffer means the configured wait
/// elapsed with no data: a timeout, never an error and never a successful
/// empty transfer. A zero-byte transfer on an empty buffer is a successful
/// no-op. The OS never transfers more than was asked for, hence the bound on
/// the reported count.
pub fn classify_wait(buf_len: usize, wait: WaitReport) -> (r: IoOutcome)
    requires
        wait matches WaitReport::Finished(n) ==> n <= buf_len,
    ensures
        r == outcome_of_wait(buf_len as nat, wait),
        wait == WaitReport::Finished(0usize) && buf_len > 0 ==> r == IoOutcome::TimedOut,
        wait == WaitReport::Finished(0usize) && buf_len == 0 ==> r == (
            IoOutcome::Transferred(0usize)
        ),
        wait matches WaitReport::Finished(n) ==> (n > 0 ==> r == IoOutcome::Transferred(n)),
        wait matches WaitReport::Failed(code) ==> r == IoOutcome::Failed(code),
{
    match wait {
        WaitReport::Failed(code) => IoOutcome::Failed(code),
        WaitReport::Finished(n) => {
            if n == 0 {
                if buf_len == 0 {
                    IoOutcome::Transferred(0)
                } else {
                    IoOutcome::TimedOut
                }
            } else {
                IoOutcome::Transferred(n)
            }
        },
    }
}

} // verus!
