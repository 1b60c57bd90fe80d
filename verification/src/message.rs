//! Websocket messages, and the events that an application receives.

use vstd::prelude::*;

use crate::types::{ASGIError, BytesItem, Lookup, SendError, TextItem};

verus! {

/// A websocket message.
#[derive(Debug, PartialEq, Eq)]
pub enum Message {
    /// A text message.
    Text(String),
    /// A binary message.
    Binary(Vec<u8>),
    /// A ping with its payload.
    Ping(Vec<u8>),
    /// A pong with its payload.
    Pong(Vec<u8>),
    /// A close message, with its code where it has one.
    Close(Option<u16>),
    /// A raw frame.
    Frame,
}

/// A websocket message, by its content.
pub enum MessageView {
    Text(Seq<char>),
    Binary(Seq<u8>),
    Ping(Seq<u8>),
    Pong(Seq<u8>),
    Close(Option<u16>),
    Frame,
}

impl View for Message {
    type V = MessageView;

    open spec fn view(&self) -> MessageView {
        match self {
            Message::Text(text) => MessageView::Text(text@),
            Message::Binary(bytes) => MessageView::Binary(bytes@),
            Message::Ping(bytes) => MessageView::Ping(bytes@),
            Message::Pong(bytes) => MessageView::Pong(bytes@),
            Message::Close(code) => MessageView::Close(*code),
            Message::Frame => MessageView::Frame,
        }
    }
}

/// An event that an application receives.
#[derive(Debug, PartialEq, Eq)]
pub enum ReceiveEvent {
    /// A part of a request body.
    HTTPRequest { body: Vec<u8>, more_body: bool },
    /// The end of an HTTP exchange.
    HTTPDisconnect,
    /// A websocket that waits to be accepted.
    WSConnect,
    /// A binary message.
    WSBytes(Vec<u8>),
    /// A text message.
    WSText(String),
    /// The end of a websocket, with the code that the client gave.
    WSDisconnect(u16),
}

/// An event that an application receives, by its content.
pub enum ReceiveEventView {
    HTTPRequest { body: Seq<u8>, more_body: bool },
    HTTPDisconnect,
    WSConnect,
    WSBytes(Seq<u8>),
    WSText(Seq<char>),
    WSDisconnect(u16),
}

impl View for ReceiveEvent {
    type V = ReceiveEventView;

    open spec fn view(&self) -> ReceiveEventView {
        match self {
            ReceiveEvent::HTTPRequest { body, more_body } => ReceiveEventView::HTTPRequest {
                body: body@,
                more_body: *more_body,
            },
            ReceiveEvent::HTTPDisconnect => ReceiveEventView::HTTPDisconnect,
            ReceiveEvent::WSConnect => ReceiveEventView::WSConnect,
            ReceiveEvent::WSBytes(bytes) => ReceiveEventView::WSBytes(bytes@),
            ReceiveEvent::WSText(text) => ReceiveEventView::WSText(text@),
            ReceiveEvent::WSDisconnect(code) => ReceiveEventView::WSDisconnect(*code),
        }
    }
}

/// An item of a received event.
#[derive(Debug, PartialEq, Eq)]
pub enum Value {
    Str(String),
    Bytes(Vec<u8>),
    Bool(bool),
    Int(u16),
}

/// An item of a received event, by its content.
pub enum ValueView {
    Str(Seq<char>),
    Bytes(Seq<u8>),
    Bool(bool),
    Int(u16),
}

impl View for Value {
    type V = ValueView;

    open spec fn view(&self) -> ValueView {
        match self {
            Value::Str(text) => ValueView::Str(text@),
            Value::Bytes(bytes) => ValueView::Bytes(bytes@),
            Value::Bool(flag) => ValueView::Bool(*flag),
            Value::Int(number) => ValueView::Int(*number),
        }
    }
}

/// A key of a received event with its item.
#[derive(Debug, PartialEq, Eq)]
pub struct Entry {
    pub key: String,
    pub value: Value,
}

impl View for Entry {
    type V = (Seq<char>, ValueView);

    open spec fn view(&self) -> (Seq<char>, ValueView) {
        (self.key@, self.value@)
    }
}

/// The dictionary that an event is, in the order in which it is filled.
pub open spec fn event_entries(event: ReceiveEventView) -> Seq<(Seq<char>, ValueView)> {
    match event {
        ReceiveEventView::HTTPRequest { body, more_body } => seq![
            ("type"@, ValueView::Str("http.request"@)),
            ("body"@, ValueView::Bytes(body)),
            ("more_body"@, ValueView::Bool(more_body)),
        ],
        ReceiveEventView::HTTPDisconnect => seq![("type"@, ValueView::Str("http.disconnect"@))],
        ReceiveEventView::WSConnect => seq![("type"@, ValueView::Str("websocket.connect"@))],
        ReceiveEventView::WSBytes(bytes) => seq![
            ("type"@, ValueView::Str("websocket.receive"@)),
            ("bytes"@, ValueView::Bytes(bytes)),
        ],
        ReceiveEventView::WSText(text) => seq![
            ("type"@, ValueView::Str("websocket.receive"@)),
            ("text"@, ValueView::Str(text)),
        ],
        ReceiveEventView::WSDisconnect(code) => seq![
            ("type"@, ValueView::Str("websocket.disconnect"@)),
            ("code"@, ValueView::Int(code)),
        ],
    }
}

/// The views of the entries of a filled dictionary.
pub open spec fn entry_views(entries: Seq<Entry>) -> Seq<(Seq<char>, ValueView)> {
    entries.map_values(|entry: Entry| entry@)
}

fn entry(key: &str, value: Value) -> (res: Entry)
    ensures
        res@ == (key@, value@),
{
    Entry { key: key.to_owned(), value }
}

impl ReceiveEvent {
    /// The dictionary that the application gets.
    pub fn into_entries(self) -> (res: Vec<Entry>)
        ensures
            entry_views(res@) == event_entries(self@),
    {
        let ghost event = self@;
        let mut entries: Vec<Entry> = Vec::new();
        match self {
            ReceiveEvent::HTTPRequest { body, more_body } => {
                entries.push(entry("type", Value::Str("http.request".to_owned())));
                entries.push(entry("body", Value::Bytes(body)));
                entries.push(entry("more_body", Value::Bool(more_body)));
            },
            ReceiveEvent::HTTPDisconnect => {
                entries.push(entry("type", Value::Str("http.disconnect".to_owned())));
            },
            ReceiveEvent::WSConnect => {
                entries.push(entry("type", Value::Str("websocket.connect".to_owned())));
            },
            ReceiveEvent::WSBytes(bytes) => {
                entries.push(entry("type", Value::Str("websocket.receive".to_owned())));
                entries.push(entry("bytes", Value::Bytes(bytes)));
            },
            ReceiveEvent::WSText(text) => {
                entries.push(entry("type", Value::Str("websocket.receive".to_owned())));
                entries.push(entry("text", Value::Str(text)));
            },
            ReceiveEvent::WSDisconnect(code) => {
                entries.push(entry("type", Value::Str("websocket.disconnect".to_owned())));
                entries.push(entry("code", Value::Int(code)));
            },
        }
        assert(entry_views(entries@) =~= event_entries(event));
        entries
    }
}

/// The bytes that an item gives where only `bytes` is there: none unless it is a
/// byte string.
pub open spec fn sole_bytes(item: BytesItem) -> Seq<u8> {
    match item {
        BytesItem::Buffer(bytes) => bytes@,
        _ => Seq::empty(),
    }
}

/// The text that an item gives where only `text` is there: none unless it is a
/// string.
pub open spec fn sole_text(item: TextItem) -> Seq<char> {
    match item {
        TextItem::Text(text) => text@,
        _ => Seq::empty(),
    }
}

/// The bytes that an item offers beside a `text`.
pub open spec fn offered_bytes(item: BytesItem) -> Option<Seq<u8>> {
    match item {
        BytesItem::Buffer(bytes) => Some(bytes@),
        BytesItem::Sequence(bytes) => Some(bytes@),
        _ => None,
    }
}

/// The text that an item offers beside a `bytes`.
pub open spec fn offered_text(item: TextItem) -> Option<Seq<char>> {
    match item {
        TextItem::Text(text) => Some(text@),
        _ => None,
    }
}

/// The message that an event sends: the one of `bytes` and `text` that it has,
/// or, where it has both, the one that offers something while the other does
/// not.
pub open spec fn outgoing<E>(bytes: Lookup<BytesItem, E>, text: Lookup<TextItem, E>) -> Result<
    MessageView,
    SendError<E>,
> {
    match (bytes, text) {
        (Lookup::Raised(raised), _) => Err(SendError::Raised(raised)),
        (_, Lookup::Raised(raised)) => Err(SendError::Raised(raised)),
        (Lookup::Present(data), Lookup::Absent) => Ok(MessageView::Binary(sole_bytes(data))),
        (Lookup::Absent, Lookup::Present(data)) => Ok(MessageView::Text(sole_text(data))),
        (Lookup::Present(data), Lookup::Present(words)) => match (
            offered_bytes(data),
            offered_text(words),
        ) {
            (Some(content), None) => Ok(MessageView::Binary(content)),
            (None, Some(content)) => Ok(MessageView::Text(content)),
            _ => Err(SendError::ASGI(ASGIError::Flow)),
        },
        (Lookup::Absent, Lookup::Absent) => Err(SendError::ASGI(ASGIError::Flow)),
    }
}

/// A result, with the message in it taken by its content.
pub open spec fn message_view<E>(res: Result<Message, SendError<E>>) -> Result<
    MessageView,
    SendError<E>,
> {
    match res {
        Ok(message) => Ok(message@),
        Err(err) => Err(err),
    }
}

fn take_offered_bytes(item: BytesItem) -> (res: Option<Vec<u8>>)
    ensures
        res is Some <==> offered_bytes(item) is Some,
        res matches Some(bytes) ==> offered_bytes(item) == Some(bytes@),
{
    match item {
        BytesItem::Buffer(bytes) => Some(bytes),
        BytesItem::Sequence(bytes) => Some(bytes),
        BytesItem::Null => None,
        BytesItem::Other => None,
    }
}

fn take_offered_text(item: TextItem) -> (res: Option<String>)
    ensures
        res is Some <==> offered_text(item) is Some,
        res matches Some(text) ==> offered_text(item) == Some(text@),
{
    match item {
        TextItem::Text(text) => Some(text),
        TextItem::Null => None,
        TextItem::Other => None,
    }
}

/// Makes the message that an event sends.
pub fn ws_message_into_rs<E>(bytes: Lookup<BytesItem, E>, text: Lookup<TextItem, E>) -> (res:
    Result<Message, SendError<E>>)
    ensures
        message_view(res) == outgoing(bytes, text),
{
    match (bytes, text) {
        (Lookup::Raised(raised), _) => Err(SendError::Raised(raised)),
        (_, Lookup::Raised(raised)) => Err(SendError::Raised(raised)),
        (Lookup::Present(data), Lookup::Absent) => {
            let content = match data {
                BytesItem::Buffer(content) => content,
                _ => Vec::new(),
            };
            Ok(Message::Binary(content))
        },
        (Lookup::Absent, Lookup::Present(words)) => {
            let content = match words {
                TextItem::Text(content) => content,
                _ => String::new(),
            };
            Ok(Message::Text(content))
        },
        (Lookup::Present(data), Lookup::Present(words)) => {
            match (take_offered_bytes(data), take_offered_text(words)) {
                (Some(content), None) => Ok(Message::Binary(content)),
                (None, Some(content)) => Ok(Message::Text(content)),
                _ => Err(SendError::ASGI(ASGIError::Flow)),
            }
        },
        (Lookup::Absent, Lookup::Absent) => Err(SendError::ASGI(ASGIError::Flow)),
    }
}

/// The code that an application gets for a close message without one.
pub const NO_STATUS_CODE: u16 = 1005;

/// The event that a message makes, where an application may see it.
pub open spec fn incoming(message: MessageView) -> Option<ReceiveEventView> {
    match message {
        MessageView::Binary(bytes) => Some(ReceiveEventView::WSBytes(bytes)),
        MessageView::Text(text) => Some(ReceiveEventView::WSText(text)),
        MessageView::Close(Some(code)) => Some(ReceiveEventView::WSDisconnect(code)),
        MessageView::Close(None) => Some(ReceiveEventView::WSDisconnect(NO_STATUS_CODE)),
        _ => None,
    }
}

/// A result, with the event in it taken by its content.
pub open spec fn event_view(res: Result<ReceiveEvent, ASGIError>) -> Result<
    ReceiveEventView,
    ASGIError,
> {
    match res {
        Ok(event) => Ok(event@),
        Err(err) => Err(err),
    }
}

/// Makes the event for a message that has come in.
pub fn ws_message_into_py(message: Message) -> (res: Result<ReceiveEvent, ASGIError>)
    ensures
        event_view(res) == match incoming(message@) {
            Some(event) => Ok::<ReceiveEventView, ASGIError>(event),
            None => Err(ASGIError::Flow),
        },
{
    match message {
        Message::Binary(bytes) => Ok(ReceiveEvent::WSBytes(bytes)),
        Message::Text(text) => Ok(ReceiveEvent::WSText(text)),
        Message::Close(code) => {
            let close_code: u16 = match code {
                Some(code) => code,
                None => NO_STATUS_CODE,
            };
            Ok(ReceiveEvent::WSDisconnect(close_code))
        },
        _ => Err(ASGIError::Flow),
    }
}

/// What one side sends the other receives: a message that an event sends makes,
/// where it comes in, an event with the same content.
pub proof fn law_sent_is_received<E>(
    bytes: Lookup<BytesItem, E>,
    text: Lookup<TextItem, E>,
    message: MessageView,
)
    requires
        outgoing(bytes, text) == Ok::<MessageView, SendError<E>>(message),
    ensures
        match message {
            MessageView::Binary(content) => incoming(message) == Some(
                ReceiveEventView::WSBytes(content),
            ),
            MessageView::Text(content) => incoming(message) == Some(
                ReceiveEventView::WSText(content),
            ),
            _ => false,
        },
{
}

/// A byte string alone is sent and received as it is, and so is a string alone;
/// a null beside either changes nothing.
pub proof fn law_content_survives<E>(data: Vec<u8>, words: String)
    ensures
        outgoing(Lookup::<BytesItem, E>::Present(BytesItem::Buffer(data)), Lookup::Absent) == Ok::<
            MessageView,
            SendError<E>,
        >(MessageView::Binary(data@)),
        outgoing(
            Lookup::<BytesItem, E>::Present(BytesItem::Buffer(data)),
            Lookup::Present(TextItem::Null),
        ) == Ok::<MessageView, SendError<E>>(MessageView::Binary(data@)),
        outgoing(Lookup::<BytesItem, E>::Absent, Lookup::Present(TextItem::Text(words))) == Ok::<
            MessageView,
            SendError<E>,
        >(MessageView::Text(words@)),
        outgoing(
            Lookup::<BytesItem, E>::Present(BytesItem::Null),
            Lookup::Present(TextItem::Text(words)),
        ) == Ok::<MessageView, SendError<E>>(MessageView::Text(words@)),
{
}

/// Every event that an application receives has its `type` first, and no key
/// twice.
pub proof fn law_entries(event: ReceiveEventView)
    ensures
        event_entries(event).len() > 0,
        event_entries(event)[0].0 == "type"@,
        event_entries(event)[0].1 is Str,
        forall|i: int, j: int|
            0 <= i < j < event_entries(event).len() ==> (#[trigger] event_entries(event)[i]).0 != (
            #[trigger] event_entries(event)[j]).0,
{
    reveal_strlit("type");
    reveal_strlit("body");
    reveal_strlit("more_body");
    reveal_strlit("bytes");
    reveal_strlit("text");
    reveal_strlit("code");
    assert("type"@[1] == 'y' && "text"@[1] == 'e' && "body"@[1] == 'o' && "code"@[1] == 'o');
    assert("more_body"@.len() == 9 && "bytes"@.len() == 5 && "type"@.len() == 4 && "body"@.len()
        == 4);
}

} // verus!
