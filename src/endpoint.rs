//! The state of one endpoint and the decisions of its send and read
//! protocols.
//!
//! The endpoint holds the connection handle as an opaque `C`; whoever runs
//! the transport dials, writes, reads and shuts streams down, and hands each
//! outcome to the step functions here, which say what happens next.
use vstd::prelude::*;
use crate::classify::{classify, is_fatal, IoErrorKind, IsConnected};
use crate::codec::{first_text, frame_bytes, FrameCodec};

verus! {

/// Default budget of one send or read call, in milliseconds.
pub const DEFAULT_TIMEOUT_MS: u64 = 10000;

/// Capacity of the scratch buffer that one stream read fills.
pub const BUF_LEN: usize = 4096;

/// The id issued after `id`: counts up and wraps from the largest value to 1,
/// never issuing 0.
pub open spec fn next_id(id: u32) -> u32 {
    if id == u32::MAX {
        1
    } else {
        (id + 1) as u32
    }
}

/// The id issued after `id`.
pub fn next_message_id(id: u32) -> (r: u32)
    ensures
        r == next_id(id),
{
    if id == u32::MAX {
        1
    } else {
        id + 1
    }
}

/// Issued ids wrap from the largest 32-bit value to 1, and 0 is never
/// issued.
pub proof fn lemma_id_wraps(id: u32)
    ensures
        next_id(u32::MAX) == 1,
        next_id(id) != 0,
{
}

/// Why a send call failed.
#[derive(Clone, Copy, Debug, PartialEq, Eq, Structural)]
pub enum SendError {
    /// No connection could be made within the deadline.
    ConnectTimeout,
    /// Writing the frame failed; the connection was torn down.
    Write,
}

/// Why a read call failed.
#[derive(Clone, Copy, Debug, PartialEq, Eq, Structural)]
pub enum ReadError {
    /// No connection could be made within the deadline.
    ConnectTimeout,
    /// The peer closed the stream; the connection was torn down.
    StreamClosed,
    /// A fatal I/O failure; the connection was torn down.
    Io(IoErrorKind),
}

/// What a protocol loop does after one outcome.
pub enum Step<T> {
    /// Go on: connect again, or read again.
    Retry,
    /// The call ends with this result.
    Done(T),
}

/// The result of a read call: a message id and its payload.
pub type ReadResult = Result<(u32, Vec<u8>), ReadError>;

/// `r` is the sentinel a read call returns when its deadline passes: id 0
/// and an empty payload, a success rather than an error.
///
/// A peer that sends a text frame with id 0 and an empty payload produces
/// the same value, so the two cannot be told apart by the caller. This
/// library's own senders never issue id 0 (see `next_id`), so between two
/// of its endpoints the value always means that the deadline passed.
pub open spec fn is_timeout_sentinel(r: Step<ReadResult>) -> bool {
    r matches Step::Done(Ok((id, payload))) && id == 0 && payload@.len() == 0
}

/// `r` hands `msg`'s id and payload to the caller.
pub open spec fn delivers(r: Step<ReadResult>, msg: (u32, Seq<u8>)) -> bool {
    r matches Step::Done(Ok((id, payload))) && id == msg.0 && payload@ == msg.1
}

/// One endpoint: its codec, the last issued message id, the connection it
/// holds, if any, and the deadline of each call.
pub struct Endpoint<C> {
    codec: FrameCodec,
    msg_id: u32,
    connection: Option<C>,
    timeout_ms: u64,
}

impl<C> Endpoint<C> {
    /// The codec, with the bytes it holds.
    pub closed spec fn codec(&self) -> FrameCodec {
        self.codec
    }

    /// The last issued message id; 0 before the first send.
    pub closed spec fn spec_msg_id(&self) -> u32 {
        self.msg_id
    }

    /// The connection held, if any.
    pub closed spec fn spec_connection(&self) -> Option<C> {
        self.connection
    }

    /// The deadline of each call, in milliseconds.
    pub closed spec fn spec_timeout_ms(&self) -> u64 {
        self.timeout_ms
    }

    /// A fresh endpoint: no id issued yet, the default deadline, and
    /// `connection` as the connection held.
    pub fn new(codec: FrameCodec, connection: Option<C>) -> (r: Self)
        ensures
            r.codec() == codec,
            r.spec_msg_id() == 0,
            r.spec_connection() == connection,
            r.spec_timeout_ms() == DEFAULT_TIMEOUT_MS,
    {
        Endpoint { codec, msg_id: 0, connection, timeout_ms: DEFAULT_TIMEOUT_MS }
    }

    /// The last issued message id.
    pub fn msg_id(&self) -> (r: u32)
        ensures
            r == self.spec_msg_id(),
    {
        self.msg_id
    }

    /// The deadline of each call, in milliseconds.
    pub fn timeout_ms(&self) -> (r: u64)
        ensures
            r == self.spec_timeout_ms(),
    {
        self.timeout_ms
    }

    /// Sets the deadline of each call.
    pub fn set_timeout_ms(&mut self, timeout_ms: u64)
        ensures
            final(self).spec_timeout_ms() == timeout_ms,
            final(self).codec() == old(self).codec(),
            final(self).spec_msg_id() == old(self).spec_msg_id(),
            final(self).spec_connection() == old(self).spec_connection(),
    {
        self.timeout_ms = timeout_ms;
    }

    /// Whether a connection is held.
    pub fn is_connected(&self) -> (r: bool)
        ensures
            r == self.spec_connection() is Some,
    {
        self.connection.is_some()
    }

    /// The connection held, if any.
    pub fn connection(&self) -> (r: Option<&C>)
        ensures
            r is Some == self.spec_connection() is Some,
            r matches Some(c) ==> self.spec_connection() == Some(*c),
    {
        match &self.connection {
            Some(c) => Some(c),
            None => None,
        }
    }

    /// Stores a newly dialled connection.
    pub fn attach(&mut self, connection: C)
        requires
            old(self).spec_connection() is None,
        ensures
            final(self).spec_connection() == Some(connection),
            final(self).codec() == old(self).codec(),
            final(self).spec_msg_id() == old(self).spec_msg_id(),
            final(self).spec_timeout_ms() == old(self).spec_timeout_ms(),
    {
        self.connection = Some(connection);
    }

    /// Tears the connection down: returns the one held, if any, and clears
    /// the slot so that the next connect dials afresh. The bytes buffered
    /// from that stream are dropped with it. Without a connection nothing
    /// changes.
    pub fn detach(&mut self) -> (r: Option<C>)
        ensures
            r == old(self).spec_connection(),
            final(self).spec_connection() is None,
            old(self).spec_connection() is Some ==> final(self).codec().pending() == Seq::<u8>::empty(),
            old(self).spec_connection() is None ==> final(self).codec() == old(self).codec(),
            final(self).codec().spec_kind() == old(self).codec().spec_kind(),
            final(self).spec_msg_id() == old(self).spec_msg_id(),
            final(self).spec_timeout_ms() == old(self).spec_timeout_ms(),
    {
        let r = self.connection.take();
        if r.is_some() {
            self.codec.clear();
        }
        r
    }

    /// Ends the stream for good: tears the connection down, if any, and
    /// drops every buffered byte.
    fn teardown(&mut self)
        ensures
            final(self).spec_connection() is None,
            final(self).codec().pending() == Seq::<u8>::empty(),
            final(self).codec().spec_kind() == old(self).codec().spec_kind(),
            final(self).spec_msg_id() == old(self).spec_msg_id(),
            final(self).spec_timeout_ms() == old(self).spec_timeout_ms(),
    {
        let _ = self.detach();
        self.codec.clear();
    }

    /// Issues the next message id.
    pub fn issue_id(&mut self) -> (r: u32)
        ensures
            r == next_id(old(self).spec_msg_id()),
            r != 0,
            final(self).spec_msg_id() == r,
            final(self).codec() == old(self).codec(),
            final(self).spec_connection() == old(self).spec_connection(),
            final(self).spec_timeout_ms() == old(self).spec_timeout_ms(),
    {
        self.msg_id = next_message_id(self.msg_id);
        self.msg_id
    }

    /// Once connected: issues the next id and builds the frame that carries
    /// `payload` under it.
    pub fn frame_for_send(&mut self, payload: &[u8]) -> (r: (u32, Vec<u8>))
        requires
            payload@.len() <= u32::MAX,
        ensures
            r.0 == next_id(old(self).spec_msg_id()),
            r.0 != 0,
            r.1@ == frame_bytes(r.0, old(self).codec().spec_kind(), payload@),
            final(self).spec_msg_id() == r.0,
            final(self).codec() == old(self).codec(),
            final(self).spec_connection() == old(self).spec_connection(),
            final(self).spec_timeout_ms() == old(self).spec_timeout_ms(),
    {
        let id = self.issue_id();
        let frame = self.codec.build(payload, id);
        (id, frame)
    }

    /// After writing the frame of `id`: the send returns `id`, or on a failed
    /// write the connection is torn down and the send fails with `Write`.
    pub fn send_written(&mut self, id: u32, written: bool) -> (r: Result<u32, SendError>)
        ensures
            written ==> r == Ok::<u32, SendError>(id) && *final(self) == *old(self),
            !written ==> {
                &&& r == Err::<u32, SendError>(SendError::Write)
                &&& final(self).spec_connection() is None
                &&& final(self).codec().pending() == Seq::<u8>::empty()
            },
            final(self).codec().spec_kind() == old(self).codec().spec_kind(),
            final(self).spec_msg_id() == old(self).spec_msg_id(),
            final(self).spec_timeout_ms() == old(self).spec_timeout_ms(),
    {
        if written {
            Ok(id)
        } else {
            self.teardown();
            Err(SendError::Write)
        }
    }

    /// After a failed connect during a send, `elapsed_ms` after the call
    /// began: retry while the deadline has not passed, else tear down and
    /// fail with `ConnectTimeout`.
    pub fn send_connect_failed(&mut self, elapsed_ms: u64) -> (r: Step<Result<u32, SendError>>)
        ensures
            r is Done <==> elapsed_ms > old(self).spec_timeout_ms(),
            r is Done ==> r matches Step::Done(Err(SendError::ConnectTimeout)),
            r is Done ==> final(self).spec_connection() is None,
            r is Done ==> final(self).codec().pending() == Seq::<u8>::empty(),
            final(self).codec().spec_kind() == old(self).codec().spec_kind(),
            r is Retry ==> *final(self) == *old(self),
            final(self).spec_msg_id() == old(self).spec_msg_id(),
            final(self).spec_timeout_ms() == old(self).spec_timeout_ms(),
    {
        if elapsed_ms > self.timeout_ms {
            self.teardown();
            Step::Done(Err(SendError::ConnectTimeout))
        } else {
            Step::Retry
        }
    }

    /// After a failed connect during a read, `elapsed_ms` after the call
    /// began: retry while the deadline has not passed, else fail with
    /// `ConnectTimeout`.
    pub fn read_connect_failed(&self, elapsed_ms: u64) -> (r: Step<ReadResult>)
        ensures
            r is Done <==> elapsed_ms > self.spec_timeout_ms(),
            r is Done ==> r matches Step::Done(Err(ReadError::ConnectTimeout)),
    {
        if elapsed_ms > self.timeout_ms {
            Step::Done(Err(ReadError::ConnectTimeout))
        } else {
            Step::Retry
        }
    }
}

impl<C> Endpoint<C> {
    /// Before blocking on a read: a text message that an earlier read
    /// already brought, if the buffered bytes hold one.
    pub fn buffered_text(&mut self) -> (r: Option<(u32, Vec<u8>)>)
        ensures
            ({
                let expect = first_text(old(self).codec().pending());
                &&& final(self).codec().pending() == expect.1
                &&& match r {
                    Some((id, payload)) => expect.0 == Some((id, payload@)),
                    None => expect.0 is None,
                }
            }),
            final(self).codec().spec_kind() == old(self).codec().spec_kind(),
            final(self).spec_msg_id() == old(self).spec_msg_id(),
            final(self).spec_connection() == old(self).spec_connection(),
            final(self).spec_timeout_ms() == old(self).spec_timeout_ms(),
    {
        let none: Vec<u8> = Vec::new();
        let r = self.codec.next_text(none.as_slice());
        assert(old(self).codec().pending() + none@ =~= old(self).codec().pending());
        r
    }

    /// After a read that brought `chunk`, `elapsed_ms` after the call began.
    /// No bytes means the peer closed the stream: tear down and fail with
    /// `StreamClosed`. Otherwise the first text message that the buffered
    /// bytes and `chunk` hold is returned; without one the read goes on
    /// until the deadline has passed, and then returns the sentinel.
    pub fn on_received(&mut self, chunk: &[u8], elapsed_ms: u64) -> (r: Step<ReadResult>)
        ensures
            chunk@.len() == 0 ==> {
                &&& r matches Step::Done(Err(ReadError::StreamClosed))
                &&& final(self).spec_connection() is None
                &&& final(self).codec().pending() == Seq::<u8>::empty()
            },
            chunk@.len() > 0 ==> {
                let expect = first_text(old(self).codec().pending() + chunk@);
                &&& final(self).codec().pending() == expect.1
                &&& final(self).spec_connection() == old(self).spec_connection()
                &&& match expect.0 {
                    Some(msg) => delivers(r, msg),
                    None => if elapsed_ms > old(self).spec_timeout_ms() {
                        is_timeout_sentinel(r)
                    } else {
                        r is Retry
                    },
                }
            },
            final(self).codec().spec_kind() == old(self).codec().spec_kind(),
            final(self).spec_msg_id() == old(self).spec_msg_id(),
            final(self).spec_timeout_ms() == old(self).spec_timeout_ms(),
    {
        if chunk.len() == 0 {
            self.teardown();
            return Step::Done(Err(ReadError::StreamClosed));
        }
        match self.codec.next_text(chunk) {
            Some(msg) => Step::Done(Ok(msg)),
            None => self.waited(elapsed_ms),
        }
    }

    /// After a failed read, `elapsed_ms` after the call began: a fatal
    /// failure tears down and fails with `Io(kind)`; after a transient one
    /// the read goes on until the deadline has passed, and then returns the
    /// sentinel.
    pub fn on_read_failed(&mut self, kind: IoErrorKind, elapsed_ms: u64) -> (r: Step<ReadResult>)
        ensures
            is_fatal(kind) ==> {
                &&& r matches Step::Done(Err(ReadError::Io(k))) && k == kind
                &&& final(self).spec_connection() is None
                &&& final(self).codec().pending() == Seq::<u8>::empty()
            },
            !is_fatal(kind) ==> {
                &&& *final(self) == *old(self)
                &&& if elapsed_ms > old(self).spec_timeout_ms() {
                    is_timeout_sentinel(r)
                } else {
                    r is Retry
                }
            },
            final(self).codec().spec_kind() == old(self).codec().spec_kind(),
            final(self).spec_msg_id() == old(self).spec_msg_id(),
            final(self).spec_timeout_ms() == old(self).spec_timeout_ms(),
    {
        match classify(kind) {
            IsConnected::Closed(k) => {
                self.teardown();
                Step::Done(Err(ReadError::Io(k)))
            },
            IsConnected::Active(()) => self.waited(elapsed_ms),
        }
    }

    /// No message yet, `elapsed_ms` after the call began: the sentinel once
    /// the deadline has passed, else read again.
    fn waited(&self, elapsed_ms: u64) -> (r: Step<ReadResult>)
        ensures
            elapsed_ms > self.spec_timeout_ms() ==> is_timeout_sentinel(r),
            elapsed_ms <= self.spec_timeout_ms() ==> r is Retry,
    {
        if elapsed_ms > self.timeout_ms {
            Step::Done(Ok((0, Vec::new())))
        } else {
            Step::Retry
        }
    }
}

} // verus!
