//! Client-side runtime for the XTB trading-platform wire protocol.
//!
//! The protocol runs over two WebSocket connections: a command channel
//! (request/response, correlated by client-generated tags) and a stream
//! channel (push subscriptions, multiplexed by subscription key).  This
//! crate holds the verified core of that runtime: message classification,
//! tag generation, response correlation, push-message filtering and
//! reference-counted subscription bookkeeping.  The socket I/O itself
//! lives outside the library and drives these functions.

mod strutil;

pub mod api;
pub mod client;
pub mod connection;
pub mod json;
pub mod message_processing;
pub mod schema;
pub mod stream_connection;
pub mod tags;

pub use client::StreamManager;
pub use client::XtbClientBuilder;
pub use client::XtbClientError;
pub use connection::CommandChannelCore;
pub use connection::Correlator;
pub use connection::FrameOutcome;
pub use connection::ResponsePromiseState;
pub use connection::XtbConnectionError;
pub use message_processing::MessageProcessingError;
pub use message_processing::ProcessedMessage;
pub use stream_connection::DataMessageFilter;
pub use stream_connection::XtbStreamConnectionError;
pub use tags::TagMaker;
