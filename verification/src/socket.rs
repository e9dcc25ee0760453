//! What to make of the answers of the operating system to the calls on a
//! raw socket. The calls themselves are the caller's: this module is
//! handed what they returned, and the error number where they failed.

use vstd::prelude::*;

verus! {

pub const IPPROTO_ICMP: i32 = 1;

/// A failure reported by the operating system, with its error number.
#[derive(Clone, Copy, Debug, PartialEq, Eq, Structural)]
pub struct OsError {
    pub code: i32,
}

impl OsError {
    /// Returns the operating system's error number.
    pub fn raw_os_error(&self) -> (code: i32)
        ensures
            code == self.code,
    {
        self.code
    }
}

/// Turns what a system call returned into a result: `-1` reports a
/// failure, whose error number is `errno`; anything else is the call's
/// result.
pub fn cvt(t: i64, errno: i32) -> (converted: Result<i64, OsError>)
    ensures
        converted == if t == -1 {
            Err::<i64, OsError>(OsError { code: errno })
        } else {
            Ok::<i64, OsError>(t)
        },
{
    if t == -1 {
        Err(OsError { code: errno })
    } else {
        Ok(t)
    }
}

/// How an attempt to open the socket with the close-on-exec flag ended.
#[derive(Clone, Copy, Debug, PartialEq, Eq, Structural)]
pub enum OpenAttempt {
    /// The socket is open, under this descriptor.
    Opened(i32),
    /// The system does not know the flag: open the socket without it, and
    /// set close-on-exec in a second step.
    Fallback,
    /// The socket cannot be opened.
    Failed(OsError),
}

/// The outcome of an attempt that returned `fd`, with `errno` as its error
/// number, on a system whose error number for an invalid argument is
/// `einval`.
pub open spec fn open_attempt(fd: i32, errno: i32, einval: i32) -> OpenAttempt {
    if fd != -1 {
        OpenAttempt::Opened(fd)
    } else if errno == einval {
        OpenAttempt::Fallback
    } else {
        OpenAttempt::Failed(OsError { code: errno })
    }
}

/// Judges an attempt to open the socket with the close-on-exec flag, given
/// the system's error number for an invalid argument.
pub fn judge_open_attempt(fd: i32, errno: i32, einval: i32) -> (attempt: OpenAttempt)
    ensures
        attempt == open_attempt(fd, errno, einval),
{
    if fd != -1 {
        OpenAttempt::Opened(fd)
    } else if errno == einval {
        OpenAttempt::Fallback
    } else {
        OpenAttempt::Failed(OsError { code: errno })
    }
}

/// Reads `libc::EINVAL`, the error number for an invalid argument. Its
/// value differs between systems, so nothing is claimed of it.
#[verifier::external_body]
fn einval() -> i32 {
    libc::EINVAL
}

/// Reads `libc::EAGAIN`, the error number for "try again". Its value
/// differs between systems, so nothing is claimed of it.
#[verifier::external_body]
fn eagain() -> i32 {
    libc::EAGAIN
}

/// Reads `libc::EWOULDBLOCK`, the error number for a call that would have
/// to wait. Its value differs between systems, so nothing is claimed of it.
#[verifier::external_body]
fn ewouldblock() -> i32 {
    libc::EWOULDBLOCK
}

/// Judges an attempt to open the socket with the close-on-exec flag. A
/// descriptor is taken as it is; a failure leads to the fallback where the
/// system refused the flag as an invalid argument, and is final otherwise.
pub fn after_open_attempt(fd: i32, errno: i32) -> (attempt: OpenAttempt)
    ensures
        fd != -1 ==> attempt == OpenAttempt::Opened(fd),
        fd == -1 ==> attempt == OpenAttempt::Fallback || attempt == OpenAttempt::Failed(
            OsError { code: errno },
        ),
{
    judge_open_attempt(fd, errno, einval())
}

/// How a receive on the non-blocking socket ended.
#[derive(Clone, Copy, Debug, PartialEq, Eq, Structural)]
pub enum Received {
    /// A datagram of so many bytes was read.
    Datagram(usize),
    /// Nothing has come in yet: the usual answer, and no failure.
    NoData,
    /// The receive failed.
    Failed(OsError),
}

/// The outcome of a receive that returned `n`, with `errno` as its error
/// number, on a system whose error numbers for "nothing yet" are `eagain`
/// and `ewouldblock`.
pub open spec fn received(n: isize, errno: i32, eagain: i32, ewouldblock: i32) -> Received {
    if n >= 0 {
        Received::Datagram(n as usize)
    } else if errno == eagain || errno == ewouldblock {
        Received::NoData
    } else {
        Received::Failed(OsError { code: errno })
    }
}

/// Judges a receive, given the system's error numbers for "nothing yet".
pub fn judge_received(n: isize, errno: i32, eagain: i32, ewouldblock: i32) -> (outcome: Received)
    ensures
        outcome == received(n, errno, eagain, ewouldblock),
{
    if n >= 0 {
        Received::Datagram(n as usize)
    } else if errno == eagain || errno == ewouldblock {
        Received::NoData
    } else {
        Received::Failed(OsError { code: errno })
    }
}

/// Judges a receive on the non-blocking socket. A count of bytes is a
/// datagram; a failure is either the system saying that nothing has come
/// in yet, or a failure in earnest.
pub fn after_receive(n: isize, errno: i32) -> (outcome: Received)
    ensures
        n >= 0 ==> outcome == Received::Datagram(n as usize),
        n < 0 ==> outcome == Received::NoData || outcome == Received::Failed(
            OsError { code: errno },
        ),
{
    judge_received(n, errno, eagain(), ewouldblock())
}

/// Whether a poll that reported `ready` descriptors found the socket
/// readable.
pub open spec fn readable(ready: i32) -> bool {
    ready > 0
}

/// Tells whether a poll that reported `ready` descriptors found the socket
/// readable. A poll that ran into its timeout reports none.
pub fn is_readable(ready: i32) -> (yes: bool)
    ensures
        yes == readable(ready),
{
    ready > 0
}

} // verus!
