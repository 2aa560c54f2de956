use vstd::prelude::*;

verus! {

/// The kinds of failure that the codec, the driver and the controller report.
#[derive(Debug, Clone, Copy, PartialEq, Eq, Structural)]
pub enum ErrorKind {
    /// Unknown preamble, unknown (direction, function) or unknown (class, command).
    Protocol,
    /// The input ended before the required number of bytes was available.
    ShortRead,
    /// A frame's parity check failed.
    Corrupt,
    /// The underlying byte stream failed for a reason other than a timeout.
    Io,
    /// A read deadline elapsed, or no reply came in time.
    Timeout,
    /// The peer refused the current request.
    Nack,
    /// The peer cancelled the current request.
    Cancel,
}

/// An error, identified by its kind.
#[derive(Debug, Clone, Copy, PartialEq, Eq, Structural)]
pub struct Error {
    pub kind: ErrorKind,
}

/// The human-readable text of each kind of error.
pub open spec fn kind_description(kind: ErrorKind) -> Seq<char> {
    match kind {
        ErrorKind::Protocol => "protocol error"@,
        ErrorKind::ShortRead => "data is too short"@,
        ErrorKind::Corrupt => "data is corrupt"@,
        ErrorKind::Io => "I/O error"@,
        ErrorKind::Timeout => "operation timed out"@,
        ErrorKind::Nack => "request not acknowledged"@,
        ErrorKind::Cancel => "request canceled"@,
    }
}

/// The error of the given kind, as a value of any `Result` type.
pub open spec fn fail<T>(kind: ErrorKind) -> Result<T, Error> {
    Err(Error { kind })
}

impl Error {
    pub fn new(kind: ErrorKind) -> (r: Error)
        ensures
            r.kind == kind,
    {
        Error { kind }
    }

    pub fn kind(&self) -> (r: ErrorKind)
        ensures
            r == self.kind,
    {
        self.kind
    }

    pub fn description(&self) -> (r: &'static str)
        ensures
            r@ == kind_description(self.kind),
    {
        match self.kind {
            ErrorKind::Protocol => "protocol error",
            ErrorKind::ShortRead => "data is too short",
            ErrorKind::Corrupt => "data is corrupt",
            ErrorKind::Io => "I/O error",
            ErrorKind::Timeout => "operation timed out",
            ErrorKind::Nack => "request not acknowledged",
            ErrorKind::Cancel => "request canceled",
        }
    }
}

/// The address of a remote node.
#[derive(Debug, Clone, Copy, PartialEq, Eq, Structural)]
pub struct NodeId(pub u8);

impl NodeId {
    pub fn value(&self) -> (r: u8)
        ensures
            r == self.0,
    {
        self.0
    }
}

} // verus!
