//! Errors of operations on a device as a whole.

use vstd::prelude::*;

use crate::errno::{as_unsigned, to_unsigned, Errno, Errnos};

verus! {

/// What kind of failure an [`Error`] reports.
#[derive(Clone, Copy, Debug, PartialEq, Eq, Structural)]
pub enum ErrorKind {
    /// The device is not there, or no longer.
    Disconnected,
    /// Something is in use already.
    Busy,
    /// The caller lacks the right to do this.
    PermissionDenied,
    /// Any other failure.
    Other,
}

/// A failure, with a message and, where the system gave one, its error number.
#[derive(Clone, Copy, Debug)]
pub struct Error {
    pub kind: ErrorKind,
    /// Never zero.
    pub code: Option<u32>,
    pub message: &'static str,
}

/// The error number `raw` as a code: reading its sign bit as a value bit, and
/// none for zero.
pub open spec fn os_code(raw: i32) -> Option<u32> {
    if raw == 0 {
        None
    } else {
        Some(as_unsigned(raw) as u32)
    }
}

/// The error number `raw` as a code, if it is positive.
pub open spec fn positive_code(raw: i32) -> Option<u32> {
    if raw > 0 {
        Some(raw as u32)
    } else {
        None
    }
}

/// An [`Error`] as a mathematical value.
pub ghost struct ErrorView {
    pub kind: ErrorKind,
    pub code: Option<u32>,
    pub message: Seq<char>,
}

impl View for Error {
    type V = ErrorView;

    open spec fn view(&self) -> ErrorView {
        ErrorView { kind: self.kind, code: self.code, message: self.message@ }
    }
}

impl ErrorView {
    /// A code, where there is one, is not zero.
    pub open spec fn wf(self) -> bool {
        self.code != Some(0u32)
    }

    /// An error that comes without an error number.
    pub open spec fn plain(kind: ErrorKind, message: &str) -> ErrorView {
        ErrorView { kind, code: None, message: message@ }
    }

    /// An error that comes with the error number `errno`.
    pub open spec fn os(kind: ErrorKind, message: &str, errno: Errno) -> ErrorView {
        ErrorView { kind, code: os_code(errno.raw), message: message@ }
    }

    /// The error for a control node that could not be opened because of `errno`.
    pub open spec fn control_open(errno: Errno, errnos: Errnos) -> ErrorView {
        if errno.raw == errnos.noent {
            ErrorView::os(ErrorKind::Disconnected, "device not found", errno)
        } else if errno.raw == errnos.perm {
            ErrorView::os(ErrorKind::PermissionDenied, "permission denied", errno)
        } else {
            ErrorView::os(ErrorKind::Other, "failed to open device", errno)
        }
    }

    /// The error for an endpoint node that could not be opened because of `errno`.
    pub open spec fn endpoint_open(message: &str, errno: Errno) -> ErrorView {
        ErrorView { kind: ErrorKind::Other, code: positive_code(errno.raw), message: message@ }
    }
}

impl Error {
    /// An error without an error number.
    pub fn new(kind: ErrorKind, message: &'static str) -> (error: Error)
        ensures
            error@ == ErrorView::plain(kind, message),
            error@.wf(),
            error.kind == kind,
            error.code is None,
            error.message@ == message@,
    {
        Error { kind, code: None, message }
    }

    /// An error with the error number that the system gave.
    pub fn new_os(kind: ErrorKind, message: &'static str, code: Errno) -> (error: Error)
        ensures
            error@ == ErrorView::os(kind, message, code),
            error@.wf(),
            error.kind == kind,
            error.message@ == message@,
            error.code is None <==> code.raw == 0,
            error.code matches Some(c) ==> c == if code.raw >= 0 {
                code.raw as int
            } else {
                code.raw + 0x1_0000_0000
            },
    {
        let raw: u32 = to_unsigned(code.raw);
        if raw == 0 {
            Error { kind, code: None, message }
        } else {
            Error { kind, code: Some(raw), message }
        }
    }

    /// The error for a control node that could not be opened because of `errno`.
    pub fn control_open(errno: Errno, errnos: &Errnos) -> (error: Error)
        ensures
            error@ == ErrorView::control_open(errno, *errnos),
            error@.wf(),
    {
        if errno.raw == errnos.noent {
            Error::new_os(ErrorKind::Disconnected, "device not found", errno)
        } else if errno.raw == errnos.perm {
            Error::new_os(ErrorKind::PermissionDenied, "permission denied", errno)
        } else {
            Error::new_os(ErrorKind::Other, "failed to open device", errno)
        }
    }

    /// The error, with the given message, for an endpoint node that could not be
    /// opened because of `errno`.
    pub fn endpoint_open(message: &'static str, errno: Errno) -> (error: Error)
        ensures
            error@ == ErrorView::endpoint_open(message, errno),
            error@.wf(),
            error.kind is Other,
            error.message@ == message@,
            error.code is Some <==> errno.raw > 0,
            error.code matches Some(c) ==> c == errno.raw,
    {
        let code: Option<u32> = if errno.raw > 0 {
            Some(errno.raw as u32)
        } else {
            None
        };
        Error { kind: ErrorKind::Other, code, message }
    }
}

/// An error says what it was made of: its kind, its message, and a code only
/// where the system gave an error number, with the bits of that number.
pub proof fn errors_say_what_failed(kind: ErrorKind, message: &str, errno: Errno)
    ensures
        ErrorView::plain(kind, message).kind == kind,
        ErrorView::plain(kind, message).code is None,
        ErrorView::plain(kind, message).message == message@,
        ErrorView::os(kind, message, errno).kind == kind,
        ErrorView::os(kind, message, errno).message == message@,
        ErrorView::os(kind, message, errno).code is None <==> errno.raw == 0,
        ErrorView::os(kind, message, errno).code matches Some(c) ==> c == if errno.raw >= 0 {
            errno.raw as int
        } else {
            errno.raw + 0x1_0000_0000
        },
        ErrorView::endpoint_open(message, errno).kind is Other,
        ErrorView::endpoint_open(message, errno).message == message@,
        ErrorView::endpoint_open(message, errno).code is Some <==> errno.raw > 0,
        ErrorView::endpoint_open(message, errno).code matches Some(c) ==> c == errno.raw,
{
}

/// A control node that could not be opened: a missing one is reported as
/// disconnected, a lack of rights as such, and everything else as another
/// failure, each with the error number of the system.
pub proof fn control_open_errors(errno: Errno, errnos: Errnos)
    requires
        errnos.wf(),
    ensures
        ({
            let error = ErrorView::control_open(errno, errnos);
            &&& error.kind is Disconnected <==> errno.raw == 2
            &&& error.kind is PermissionDenied <==> errno.raw == 1
            &&& error.kind is Other <==> errno.raw != 1 && errno.raw != 2
            &&& error.message == match error.kind {
                ErrorKind::Disconnected => "device not found"@,
                ErrorKind::PermissionDenied => "permission denied"@,
                _ => "failed to open device"@,
            }
            &&& error.code is None <==> errno.raw == 0
            &&& error.code matches Some(c) ==> c == if errno.raw >= 0 {
                errno.raw as int
            } else {
                errno.raw + 0x1_0000_0000
            }
        }),
{
}

/// The mathematical value of an error has the kind, the code and the message of
/// the error.
pub proof fn error_view_is_faithful(error: Error)
    ensures
        error@.kind == error.kind,
        error@.code == error.code,
        error@.message == error.message@,
{
}

} // verus!
