//! The decision logic of an ASGI server's connection protocols.
//!
//! An ASGI application talks to its server in events: dictionaries that it
//! sends and receives. The modules here hold what the server decides about
//! them: what an event means, whether it may come now, what is to be done and
//! what the application gets back. Sockets, channels, files and the
//! interpreter stay with the caller, which performs the actions that are
//! returned here and reports how they went.

pub mod adapt;
pub mod adapt_laws;
pub mod header_laws;
pub mod headers;
pub mod http;
pub mod http_behaviour;
pub mod http_laws;
pub mod message;
pub mod message_laws;
pub mod types;
pub mod websocket;
pub mod websocket_behaviour;
pub mod websocket_laws;
