//! The plain values that the protocols work on.

use vstd::prelude::*;

verus! {

/// The kinds of events that an application may send.
#[derive(Clone, Copy, Debug, PartialEq, Eq, Structural)]
pub enum ASGIMessageType {
    /// The head of an HTTP response.
    HTTPStart,
    /// A part of the body of an HTTP response.
    HTTPBody,
    /// A file that is the body of an HTTP response.
    HTTPFile,
    /// The acceptance of a websocket.
    WSAccept,
    /// The end of a websocket.
    WSClose,
    /// A message on a websocket.
    WSMessage,
}

/// How the server refuses an event.
#[derive(Clone, Copy, Debug, PartialEq, Eq, Structural)]
pub enum ASGIError {
    /// The event is not one that this protocol knows, or lacks what it needs.
    Message,
    /// The event may not come now.
    Flow,
    /// The other side no longer takes data.
    Transport,
    /// The header table cannot hold the headers. The connection is beyond
    /// repair and the caller is meant to abort it.
    HeaderOverflow,
}

/// How an event that is to be sent is refused.
#[derive(Debug, PartialEq, Eq)]
pub enum SendError<E> {
    /// The server's own refusal.
    ASGI(ASGIError),
    /// Reading the event raised this.
    Raised(E),
}

/// What a key of an event gives.
#[derive(Debug, PartialEq, Eq)]
pub enum Lookup<T, E> {
    /// Looking the key up raised this.
    Raised(E),
    /// The event lacks the key.
    Absent,
    /// The event has the key.
    Present(T),
}

/// An item that may be a byte string.
#[derive(Debug, PartialEq, Eq)]
pub enum BytesItem {
    /// A byte string or byte array.
    Buffer(Vec<u8>),
    /// Another sequence of numbers that are bytes.
    Sequence(Vec<u8>),
    /// The null value.
    Null,
    /// Anything else.
    Other,
}

/// An item that may be a string.
#[derive(Debug, PartialEq, Eq)]
pub enum TextItem {
    /// A string.
    Text(String),
    /// The null value.
    Null,
    /// Anything else.
    Other,
}

/// An event that an application sends: each key that some protocol reads. Under
/// a key whose item must have one type, `None` says that the item has another.
#[derive(Debug, PartialEq, Eq)]
pub struct ASGIEvent<E> {
    /// `type`: a string.
    pub kind: Lookup<Option<String>, E>,
    /// `status`: a 16-bit number.
    pub status: Lookup<Option<i16>, E>,
    /// `headers`: a list of lists of byte strings.
    pub headers: Lookup<Option<Vec<Vec<Vec<u8>>>>, E>,
    /// `body`: a byte string.
    pub body: Lookup<Option<Vec<u8>>, E>,
    /// `more_body`: a truth value.
    pub more_body: Lookup<Option<bool>, E>,
    /// `path`: a string, or what converting it to one raised.
    pub path: Lookup<Result<String, E>, E>,
    /// `bytes`.
    pub bytes: Lookup<BytesItem, E>,
    /// `text`.
    pub text: Lookup<TextItem, E>,
}

} // verus!
