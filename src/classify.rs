//! Deciding which I/O failures leave a connection usable.
use vstd::prelude::*;

verus! {

/// Connection status after an I/O failure.
pub enum IsConnected<T, E> {
    /// The connection stays; the operation may be retried on it.
    Active(T),
    /// The connection must be torn down; carries the cause.
    Closed(E),
}

/// The kinds of I/O failure a stream operation reports.
///
/// Each kind's doc says how `classify` treats it: transient failures leave
/// the connection in place and the operation is retried, fatal ones tear it
/// down.
#[derive(Clone, Copy, Debug, PartialEq, Eq, Structural)]
pub enum IoErrorKind {
    /// Fatal: the stream's resource is gone.
    NotFound,
    /// Fatal: the operation will not be allowed on a retry either.
    PermissionDenied,
    /// Fatal: the peer refused the connection.
    ConnectionRefused,
    /// Fatal: the peer reset the connection.
    ConnectionReset,
    /// Fatal: the peer cannot be reached on this connection.
    HostUnreachable,
    /// Fatal: the network cannot be reached on this connection.
    NetworkUnreachable,
    /// Fatal: the connection was aborted.
    ConnectionAborted,
    /// Fatal: the stream is not connected.
    NotConnected,
    /// Fatal: the local address is in use.
    AddrInUse,
    /// Fatal: the address is not available.
    AddrNotAvailable,
    /// Fatal: the network is down.
    NetworkDown,
    /// Fatal: the other end is gone.
    BrokenPipe,
    /// Fatal: does not arise on a stream; torn down rather than retried blindly.
    AlreadyExists,
    /// Fatal: the stream would block past its configured timeout.
    WouldBlock,
    /// Fatal: the same call would be refused again.
    InvalidInput,
    /// Fatal: the stream can no longer be trusted to stay aligned on frames.
    InvalidData,
    /// Transient: the call's own timeout elapsed; the read is tried again.
    TimedOut,
    /// Fatal: the stream accepts no more bytes.
    WriteZero,
    /// Transient: a signal interrupted the call; the read is tried again.
    Interrupted,
    /// Fatal: the operation is not supported on this stream.
    Unsupported,
    /// Fatal: the stream ended in the middle of a read.
    UnexpectedEof,
    /// Fatal: the system ran out of memory.
    OutOfMemory,
    /// Fatal: a failure of no listed kind; the connection is not trusted.
    Other,
}

/// Whether a failure of `kind` tears the connection down.
pub open spec fn is_fatal(kind: IoErrorKind) -> bool {
    match kind {
        IoErrorKind::TimedOut => false,
        IoErrorKind::Interrupted => false,
        IoErrorKind::NotFound => true,
        IoErrorKind::PermissionDenied => true,
        IoErrorKind::ConnectionRefused => true,
        IoErrorKind::ConnectionReset => true,
        IoErrorKind::HostUnreachable => true,
        IoErrorKind::NetworkUnreachable => true,
        IoErrorKind::ConnectionAborted => true,
        IoErrorKind::NotConnected => true,
        IoErrorKind::AddrInUse => true,
        IoErrorKind::AddrNotAvailable => true,
        IoErrorKind::NetworkDown => true,
        IoErrorKind::BrokenPipe => true,
        IoErrorKind::AlreadyExists => true,
        IoErrorKind::WouldBlock => true,
        IoErrorKind::InvalidInput => true,
        IoErrorKind::InvalidData => true,
        IoErrorKind::WriteZero => true,
        IoErrorKind::Unsupported => true,
        IoErrorKind::UnexpectedEof => true,
        IoErrorKind::OutOfMemory => true,
        IoErrorKind::Other => true,
    }
}

/// Classifies a failure: `Closed(kind)` for a fatal kind, `Active(())` for a
/// transient one.
pub fn classify(kind: IoErrorKind) -> (r: IsConnected<(), IoErrorKind>)
    ensures
        is_fatal(kind) ==> r == IsConnected::<(), IoErrorKind>::Closed(kind),
        !is_fatal(kind) ==> r == IsConnected::<(), IoErrorKind>::Active(()),
{
    match kind {
        IoErrorKind::TimedOut | IoErrorKind::Interrupted => IsConnected::Active(()),
        _ => IsConnected::Closed(kind),
    }
}

} // verus!
