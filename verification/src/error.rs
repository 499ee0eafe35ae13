//! The kinds of failure and what each means to a client.
//!
//! One closed set of kinds serves every part of the server.  Each kind has a
//! short label for the reader and an HTTP status for the client.

use vstd::prelude::*;

verus! {

/// Why a request could not be served.
#[derive(Clone, Copy, Debug, PartialEq, Eq, Structural)]
pub enum ErrorKind {
    NotFound,
    PermissionDenied,
    ConnectionRefused,
    ConnectionReset,
    ConnectionAborted,
    NotConnected,
    AddrInUse,
    AddrNotAvailable,
    BrokenPipe,
    AlreadyExists,
    WouldBlock,
    InvalidInput,
    InvalidData,
    TimedOut,
    WriteZero,
    Interrupted,
    Unsupported,
    UnexpectedEof,
    OutOfMemory,
    Other,
    /// Any failure that has no kind of its own.
    Unknown,
}

/// The HTTP status that answers a failure of the given kind.
pub open spec fn status_of(kind: ErrorKind) -> u16 {
    match kind {
        ErrorKind::NotFound => 404,
        ErrorKind::PermissionDenied => 403,
        ErrorKind::ConnectionRefused => 502,
        ErrorKind::ConnectionReset => 503,
        ErrorKind::ConnectionAborted => 503,
        ErrorKind::NotConnected => 503,
        ErrorKind::AddrInUse => 409,
        ErrorKind::AddrNotAvailable => 404,
        ErrorKind::BrokenPipe => 500,
        ErrorKind::AlreadyExists => 409,
        ErrorKind::WouldBlock => 403,
        ErrorKind::InvalidInput => 400,
        ErrorKind::InvalidData => 422,
        ErrorKind::TimedOut => 504,
        ErrorKind::WriteZero => 500,
        ErrorKind::Interrupted => 500,
        ErrorKind::Unsupported => 501,
        ErrorKind::UnexpectedEof => 500,
        ErrorKind::OutOfMemory => 500,
        ErrorKind::Other => 500,
        ErrorKind::Unknown => 500,
    }
}

/// The label that names a failure of the given kind to the reader.
pub open spec fn label_of(kind: ErrorKind) -> Seq<char> {
    match kind {
        ErrorKind::NotFound => "Not Found"@,
        ErrorKind::PermissionDenied => "Permission Denied"@,
        ErrorKind::ConnectionRefused => "Connection Refused"@,
        ErrorKind::ConnectionReset => "Connection Reset"@,
        ErrorKind::ConnectionAborted => "Connection Aborted"@,
        ErrorKind::NotConnected => "Not Connected"@,
        ErrorKind::AddrInUse => "Address In Use"@,
        ErrorKind::AddrNotAvailable => "Address Not Available"@,
        ErrorKind::BrokenPipe => "Broken Pipe"@,
        ErrorKind::AlreadyExists => "Already Exists"@,
        ErrorKind::WouldBlock => "Operation Would Block"@,
        ErrorKind::InvalidInput => "Invalid Input"@,
        ErrorKind::InvalidData => "Invalid Data"@,
        ErrorKind::TimedOut => "Timed Out"@,
        ErrorKind::WriteZero => "Write Zero"@,
        ErrorKind::Interrupted => "Operation Interrupted"@,
        ErrorKind::Unsupported => "Unsupported"@,
        ErrorKind::UnexpectedEof => "Unexpected EOF"@,
        ErrorKind::OutOfMemory => "Out Of Memory"@,
        ErrorKind::Other => "Other Error"@,
        ErrorKind::Unknown => "Unknown Error"@,
    }
}

impl ErrorKind {
    /// The HTTP status that answers this failure.
    pub fn status(self) -> (code: u16)
        ensures
            code == status_of(self),
            400 <= code < 600,
    {
        match self {
            ErrorKind::NotFound => 404,
            ErrorKind::PermissionDenied => 403,
            ErrorKind::ConnectionRefused => 502,
            ErrorKind::ConnectionReset => 503,
            ErrorKind::ConnectionAborted => 503,
            ErrorKind::NotConnected => 503,
            ErrorKind::AddrInUse => 409,
            ErrorKind::AddrNotAvailable => 404,
            ErrorKind::BrokenPipe => 500,
            ErrorKind::AlreadyExists => 409,
            ErrorKind::WouldBlock => 403,
            ErrorKind::InvalidInput => 400,
            ErrorKind::InvalidData => 422,
            ErrorKind::TimedOut => 504,
            ErrorKind::WriteZero => 500,
            ErrorKind::Interrupted => 500,
            ErrorKind::Unsupported => 501,
            ErrorKind::UnexpectedEof => 500,
            ErrorKind::OutOfMemory => 500,
            ErrorKind::Other => 500,
            ErrorKind::Unknown => 500,
        }
    }

    /// The label that names this failure to the reader.
    pub fn label(self) -> (text: &'static str)
        ensures
            text@ == label_of(self),
    {
        match self {
            ErrorKind::NotFound => "Not Found",
            ErrorKind::PermissionDenied => "Permission Denied",
            ErrorKind::ConnectionRefused => "Connection Refused",
            ErrorKind::ConnectionReset => "Connection Reset",
            ErrorKind::ConnectionAborted => "Connection Aborted",
            ErrorKind::NotConnected => "Not Connected",
            ErrorKind::AddrInUse => "Address In Use",
            ErrorKind::AddrNotAvailable => "Address Not Available",
            ErrorKind::BrokenPipe => "Broken Pipe",
            ErrorKind::AlreadyExists => "Already Exists",
            ErrorKind::WouldBlock => "Operation Would Block",
            ErrorKind::InvalidInput => "Invalid Input",
            ErrorKind::InvalidData => "Invalid Data",
            ErrorKind::TimedOut => "Timed Out",
            ErrorKind::WriteZero => "Write Zero",
            ErrorKind::Interrupted => "Operation Interrupted",
            ErrorKind::Unsupported => "Unsupported",
            ErrorKind::UnexpectedEof => "Unexpected EOF",
            ErrorKind::OutOfMemory => "Out Of Memory",
            ErrorKind::Other => "Other Error",
            ErrorKind::Unknown => "Unknown Error",
        }
    }
}

} // verus!
