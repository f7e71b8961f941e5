//! Message framing over an ordered byte stream: a self-describing frame
//! format, reassembly of frames from arbitrarily split reads, the error
//! classification that decides when a connection is torn down, and the
//! per-endpoint state that the send and read protocols drive.
pub mod codec;
pub mod classify;
pub mod endpoint;
pub mod api_query;
