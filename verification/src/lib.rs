//! Client-side transport core for a request/response RPC protocol carried
//! over a duplex byte stream.
//!
//! One call writes fully-serialized request bytes, then produces exactly the
//! bytes of one logical response, under a hard ceiling on buffer growth, a
//! budget of non-productive read iterations, and a per-read timeout. A
//! pluggable [`ResponseHandler`] decides whether a request can be answered
//! without touching the network and where one response frame ends.
//!
//! The call logic itself never performs I/O: a surrounding scheduler owns the
//! stream, performs each write and read, and feeds the outcome back into the
//! [`Call`] state machine, which answers with the next step to take.

pub mod configuration;
pub mod error;
pub mod model;
pub mod response_handler;
pub mod transport;

pub use configuration::{AsyncTransportConfiguration, DefaultAsyncTransportConfiguration};
pub use error::CallError;
pub use response_handler::{DefaultResponseHandler, MockResponseHandler, ResponseHandler};
pub use transport::{AsyncTransportRpcOptions, Call, CallStep};
