//! Error numbers that a system call answers with, and the failures that the
//! network stack reports.
use vstd::prelude::*;

verus! {

/// An error number of the system-call interface.
#[derive(Clone, Copy, PartialEq, Eq, Structural, Debug)]
pub enum ErrorNo {
    EINTR,
    EBADF,
    EAGAIN,
    EFAULT,
    EINVAL,
    EMFILE,
    ENOTSOCK,
    ENOPROTOOPT,
    EOPNOTSUPP,
    EAFNOSUPPORT,
    EISCONN,
    ENOTCONN,
    EINPROGRESS,
}

impl ErrorNo {
    /// What a system call that fails with this error returns: the error's
    /// number, negated.
    pub open spec fn value(self) -> isize {
        match self {
            ErrorNo::EINTR => (-4) as isize,
            ErrorNo::EBADF => (-9) as isize,
            ErrorNo::EAGAIN => (-11) as isize,
            ErrorNo::EFAULT => (-14) as isize,
            ErrorNo::EINVAL => (-22) as isize,
            ErrorNo::EMFILE => (-24) as isize,
            ErrorNo::ENOTSOCK => (-88) as isize,
            ErrorNo::ENOPROTOOPT => (-92) as isize,
            ErrorNo::EOPNOTSUPP => (-95) as isize,
            ErrorNo::EAFNOSUPPORT => (-97) as isize,
            ErrorNo::EISCONN => (-106) as isize,
            ErrorNo::ENOTCONN => (-107) as isize,
            ErrorNo::EINPROGRESS => (-115) as isize,
        }
    }

    /// The value that a system call returns for this error.
    #[verifier::when_used_as_spec(value)]
    pub fn code(self) -> (code: isize)
        ensures
            code == self.value(),
    {
        match self {
            ErrorNo::EINTR => -4,
            ErrorNo::EBADF => -9,
            ErrorNo::EAGAIN => -11,
            ErrorNo::EFAULT => -14,
            ErrorNo::EINVAL => -22,
            ErrorNo::EMFILE => -24,
            ErrorNo::ENOTSOCK => -88,
            ErrorNo::ENOPROTOOPT => -92,
            ErrorNo::EOPNOTSUPP => -95,
            ErrorNo::EAFNOSUPPORT => -97,
            ErrorNo::EISCONN => -106,
            ErrorNo::ENOTCONN => -107,
            ErrorNo::EINPROGRESS => -115,
        }
    }
}

/// What a system call returns for a failure that it has no error number for.
pub const FAILURE: isize = -1;

/// Law: every error number is negative, differs from every other, and from the
/// value for a failure without one.
pub proof fn codes_tell_errors_apart(a: ErrorNo, b: ErrorNo)
    ensures
        a.code() < FAILURE,
        a.code() == b.code() <==> a == b,
{
}

/// A failure that the network stack reports.
#[derive(Clone, Copy, PartialEq, Eq, Structural, Debug)]
pub enum NetError {
    /// The socket is already connected, or in use.
    AlreadyExists,
    /// The peer turned the connection down.
    ConnectionRefused,
    /// The wait was cut short by a signal.
    Interrupted,
    /// The socket has no peer.
    NotConnected,
    /// The time allowed for the operation has passed.
    Timeout,
    /// The socket does not offer the operation.
    Unsupported,
    /// The operation would have to wait, and the socket does not block.
    WouldBlock,
    /// Any other failure, by the number that the network stack has for it.
    Other(i32),
}

} // verus!
