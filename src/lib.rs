//! Connection-handling core of a small length-prefixed request/response server:
//! the frame codec, the request/response contract and its dispatch, the
//! per-connection session state machine, the worker pool's queue, and the
//! accept-loop and shutdown decisions. Sockets, threads and payload encoding
//! live with the caller.
pub mod frame;
pub mod message;
pub mod pool;
pub mod server;
pub mod session;
