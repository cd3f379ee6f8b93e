//! Errors that a kernel call on a socket reports, as plain values.

use vstd::prelude::*;

verus! {

/// The class of a failed kernel call.
///
/// `WouldBlock` is the only class that the facade treats specially: it means
/// that the call could not finish right now and has to be tried again once the
/// descriptor is ready. Every other class is final for the call that met it.
#[derive(Clone, Copy, Debug, PartialEq, Eq, Structural)]
pub enum ErrorKind {
    /// The call cannot make progress without waiting.
    WouldBlock,
    /// The path does not name a socket.
    NotFound,
    /// The caller may not use the path.
    PermissionDenied,
    /// The path is already bound.
    AddrInUse,
    /// Nothing listens at the peer.
    ConnectionRefused,
    /// The socket has no peer.
    NotConnected,
    /// The direction has been shut down.
    BrokenPipe,
    /// An argument was rejected.
    InvalidInput,
    /// Any other failure.
    Other,
}

/// A failed kernel call: its class and the raw code that the kernel gave.
///
/// Two errors are the same error exactly when both fields agree, so a facade
/// that hands an `IoError` on unchanged has surfaced the failure verbatim.
#[derive(Clone, Copy, Debug, PartialEq, Eq, Structural)]
pub struct IoError {
    pub kind: ErrorKind,
    pub code: i32,
}

impl IoError {
    /// An error of class `kind` with raw code `code`.
    pub fn new(kind: ErrorKind, code: i32) -> (e: IoError)
        ensures
            e.kind == kind,
            e.code == code,
    {
        IoError { kind, code }
    }

    /// The class of this error.
    pub fn kind(&self) -> (k: ErrorKind)
        ensures
            k == self.kind,
    {
        self.kind
    }

    /// The raw code that the kernel reported.
    pub fn raw_os_error(&self) -> (c: i32)
        ensures
            c == self.code,
    {
        self.code
    }

    /// Whether the failed call has to be tried again later.
    pub open spec fn would_block(self) -> bool {
        self.kind == ErrorKind::WouldBlock
    }

    /// Whether the failed call has to be tried again later.
    pub fn is_would_block(&self) -> (b: bool)
        ensures
            b == self.would_block(),
    {
        self.kind == ErrorKind::WouldBlock
    }
}

} // verus!
