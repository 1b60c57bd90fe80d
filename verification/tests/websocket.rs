use asgi_io::message::{
    ws_message_into_py, ws_message_into_rs, Entry, Message, ReceiveEvent, Value,
};
use asgi_io::types::{ASGIError, ASGIEvent, BytesItem, Lookup, SendError, TextItem};
use asgi_io::websocket::{
    ASGIWebsocketProtocol, Handshake, WSAction, WSRead, WSReceive, WebsocketDetachedTransport,
};

type Event = ASGIEvent<u32>;
type Protocol =
    ASGIWebsocketProtocol<&'static str, &'static str, &'static str, &'static str, &'static str>;

const FLOW: SendError<u32> = SendError::ASGI(ASGIError::Flow);

fn event(kind: &str) -> Event {
    ASGIEvent {
        kind: Lookup::Present(Some(kind.to_string())),
        status: Lookup::Absent,
        headers: Lookup::Absent,
        body: Lookup::Absent,
        more_body: Lookup::Absent,
        path: Lookup::Absent,
        bytes: Lookup::Absent,
        text: Lookup::Absent,
    }
}

fn text_event(content: &str) -> Event {
    let mut message = event("websocket.send");
    message.text = text(content);
    message
}

fn text(content: &str) -> Lookup<TextItem, u32> {
    Lookup::Present(TextItem::Text(content.to_string()))
}

fn buffer(content: &[u8]) -> Lookup<BytesItem, u32> {
    Lookup::Present(BytesItem::Buffer(content.to_vec()))
}

fn protocol() -> Protocol {
    ASGIWebsocketProtocol::new("channel", "websocket", "upgrade")
}

fn accepted() -> Protocol {
    let mut socket = protocol();
    socket.accept().unwrap();
    socket.accept_connected(Some(("sink", "stream"))).unwrap();
    socket
}

#[test]
fn handshakes() {
    let mut socket = protocol();
    assert!(!socket.consumed());
    assert_eq!(socket.receive(), Ok(WSReceive::Event(ReceiveEvent::WSConnect)));
    assert_eq!(
        socket.send(event("websocket.accept")),
        Ok(WSAction::Accept(Handshake { upgrade: "upgrade", websocket: Some("websocket") }))
    );
    assert!(socket.consumed());
    assert!(!socket.accepted());
    assert_eq!(socket.receive(), Ok(WSReceive::Event(ReceiveEvent::WSConnect)));
    assert_eq!(Protocol::accept_upgraded(true, Some("websocket")), Ok("websocket"));
    assert_eq!(socket.accept_connected(Some(("sink", "stream"))), Ok(()));
    assert!(socket.accepted());
    assert_eq!(socket.receive(), Ok(WSReceive::Read));
    assert_eq!(socket.send(event("websocket.accept")), Err(FLOW));
}

#[test]
fn failed_handshakes() {
    assert_eq!(Protocol::accept_upgraded(false, Some("websocket")), Err(ASGIError::Flow));
    assert_eq!(Protocol::accept_upgraded(true, None), Err(ASGIError::Flow));
    let mut socket = protocol();
    socket.accept().unwrap();
    assert_eq!(socket.accept_connected(None), Err(ASGIError::Flow));
    assert!(!socket.accepted());
    assert_eq!(socket.accept(), Err(ASGIError::Flow));
    assert_eq!(socket.send(event("websocket.close")), Err(FLOW));
    assert_eq!(socket.send(text_event("x")), Err(FLOW));
    assert_eq!(socket.receive(), Ok(WSReceive::Event(ReceiveEvent::WSConnect)));
}

#[test]
fn messages_are_sent() {
    let mut socket = accepted();
    assert_eq!(
        socket.send(text_event("hello")),
        Ok(WSAction::Send(Message::Text("hello".to_string())))
    );
    assert_eq!(socket.send(event("websocket.send")), Err(FLOW));
    let mut raising = text_event("hello");
    raising.bytes = Lookup::Raised(9);
    assert_eq!(socket.send(raising), Err(SendError::Raised(9)));
    assert_eq!(socket.message_sent(true), Ok(()));
    assert_eq!(socket.message_sent(false), Err(ASGIError::Flow));
}

#[test]
fn websockets_close_once() {
    let mut socket = accepted();
    let transport =
        WebsocketDetachedTransport::new(true, Some("stream"), Some("sink"));
    assert_eq!(socket.send(event("websocket.close")), Ok(WSAction::Close(transport)));
    assert_eq!(socket.send(event("websocket.close")), Err(FLOW));
    assert_eq!(socket.send(text_event("late")), Err(FLOW));
    assert_eq!(socket.receive(), Err(ASGIError::Flow));
    assert_eq!(socket.message_sent(false), Ok(()));
    assert_eq!(
        socket.tx(),
        (Some("channel"), WebsocketDetachedTransport::new(true, None, None))
    );
}

#[test]
fn transports_close_once() {
    let mut transport = WebsocketDetachedTransport::new(false, Some("stream"), Some("sink"));
    assert_eq!(transport.close(), (Some("sink"), Some("stream")));
    assert_eq!(transport.close(), (None, None));
    assert!(!transport.consumed);
}

#[test]
fn transports_leave_with_the_channel() {
    let mut waiting = protocol();
    assert_eq!(
        waiting.tx(),
        (Some("channel"), WebsocketDetachedTransport::new(false, None, None))
    );
    let mut socket = accepted();
    assert_eq!(
        socket.tx(),
        (Some("channel"), WebsocketDetachedTransport::new(true, Some("stream"), Some("sink")))
    );
    assert_eq!(socket.tx(), (None, WebsocketDetachedTransport::new(true, None, None)));
    assert_eq!(socket.send(text_event("late")), Err(FLOW));
    assert_eq!(socket.message_sent(false), Err(ASGIError::Flow));
}

#[test]
fn messages_are_received() {
    let mut socket = accepted();
    assert_eq!(socket.receive_message(WSRead::Message(Message::Ping(vec![1]))), None);
    assert_eq!(
        socket.receive_message(WSRead::Message(Message::Text("hi".to_string()))),
        Some(Ok(ReceiveEvent::WSText("hi".to_string())))
    );
    assert_eq!(
        socket.receive_message(WSRead::Message(Message::Binary(vec![0, 255]))),
        Some(Ok(ReceiveEvent::WSBytes(vec![0, 255])))
    );
    assert_eq!(
        socket.receive_message(WSRead::Message(Message::Pong(vec![]))),
        Some(Err(ASGIError::Flow))
    );
    assert_eq!(socket.receive_message(WSRead::End), Some(Err(ASGIError::Flow)));
    assert_eq!(socket.receive_message(WSRead::Failed), Some(Err(ASGIError::Flow)));
    assert_eq!(socket.message_sent(false), Err(ASGIError::Flow));
    assert_eq!(
        socket.receive_message(WSRead::Message(Message::Close(Some(1001)))),
        Some(Ok(ReceiveEvent::WSDisconnect(1001)))
    );
    assert_eq!(socket.message_sent(false), Ok(()));
}

#[test]
fn a_faulty_message_is_refused_for_its_fault() {
    let mut socket = protocol();
    let mut raising = text_event("x");
    raising.text = Lookup::Raised(5);
    assert_eq!(socket.send(raising), Err(SendError::Raised(5)));
    assert!(!socket.consumed());
    let mut closed = accepted();
    closed.send(event("websocket.close")).unwrap();
    let mut late = text_event("x");
    late.bytes = Lookup::Raised(6);
    assert_eq!(closed.send(late), Err(SendError::Raised(6)));
}

#[test]
fn other_events_are_refused_by_websockets() {
    let mut socket = accepted();
    let refusal = SendError::ASGI(ASGIError::Message);
    assert_eq!(socket.send(event("http.response.start")), Err(refusal));
    let mut untyped = event("");
    untyped.kind = Lookup::Raised(1);
    assert_eq!(socket.send(untyped), Err(SendError::ASGI(ASGIError::Message)));
}

#[test]
fn payloads() {
    let binary = |content: &[u8]| Ok(Message::Binary(content.to_vec()));
    let words = |content: &str| Ok(Message::Text(content.to_string()));
    let sequence = || Lookup::Present(BytesItem::Sequence(vec![1, 2]));
    assert_eq!(ws_message_into_rs(buffer(b"ab"), Lookup::Absent), binary(b"ab"));
    assert_eq!(ws_message_into_rs(sequence(), Lookup::Absent), binary(b""));
    assert_eq!(ws_message_into_rs(Lookup::Present(BytesItem::Null), Lookup::Absent), binary(b""));
    assert_eq!(ws_message_into_rs(Lookup::Absent, text("ab")), words("ab"));
    assert_eq!(ws_message_into_rs(Lookup::Absent, Lookup::Present(TextItem::Null)), words(""));
    assert_eq!(ws_message_into_rs(Lookup::Absent, Lookup::Present(TextItem::Other)), words(""));
    assert_eq!(
        ws_message_into_rs(buffer(b"ab"), Lookup::Present(TextItem::Null)),
        binary(b"ab")
    );
    assert_eq!(
        ws_message_into_rs(sequence(), Lookup::Present(TextItem::Other)),
        binary(&[1, 2])
    );
    assert_eq!(ws_message_into_rs(Lookup::Present(BytesItem::Null), text("ab")), words("ab"));
    assert_eq!(ws_message_into_rs(Lookup::Present(BytesItem::Other), text("ab")), words("ab"));
    assert_eq!(ws_message_into_rs(buffer(b"ab"), text("ab")), Err(FLOW));
    assert_eq!(
        ws_message_into_rs(Lookup::Present(BytesItem::Null), Lookup::Present(TextItem::Null)),
        Err(FLOW)
    );
    assert_eq!(ws_message_into_rs(Lookup::Absent, Lookup::Absent), Err(FLOW));
    assert_eq!(
        ws_message_into_rs(Lookup::Raised(1), Lookup::Raised(2)),
        Err(SendError::Raised(1))
    );
    assert_eq!(ws_message_into_rs(buffer(b""), Lookup::Raised(2)), Err(SendError::Raised(2)));
}

#[test]
fn what_is_sent_is_received() {
    let sent = ws_message_into_rs(buffer(&[0, 159, 146, 150]), Lookup::Absent).unwrap();
    assert_eq!(ws_message_into_py(sent), Ok(ReceiveEvent::WSBytes(vec![0, 159, 146, 150])));
    let spoken = ws_message_into_rs(Lookup::Absent, text("h\u{e9}")).unwrap();
    assert_eq!(ws_message_into_py(spoken), Ok(ReceiveEvent::WSText("h\u{e9}".to_string())));
}

#[test]
fn closes_without_a_code() {
    assert_eq!(ws_message_into_py(Message::Close(None)), Ok(ReceiveEvent::WSDisconnect(1005)));
    assert_eq!(ws_message_into_py(Message::Close(Some(4000))), Ok(ReceiveEvent::WSDisconnect(4000)));
    assert_eq!(ws_message_into_py(Message::Frame), Err(ASGIError::Flow));
    assert_eq!(ws_message_into_py(Message::Ping(vec![])), Err(ASGIError::Flow));
}

#[test]
fn websocket_events_as_dictionaries() {
    let entry = |key: &str, value: Value| Entry { key: key.to_string(), value };
    let received = || entry("type", Value::Str("websocket.receive".to_string()));
    assert_eq!(
        ReceiveEvent::WSConnect.into_entries(),
        vec![entry("type", Value::Str("websocket.connect".to_string()))]
    );
    assert_eq!(
        ReceiveEvent::WSBytes(vec![7]).into_entries(),
        vec![received(), entry("bytes", Value::Bytes(vec![7]))]
    );
    assert_eq!(
        ReceiveEvent::WSText("t".to_string()).into_entries(),
        vec![received(), entry("text", Value::Str("t".to_string()))]
    );
    assert_eq!(
        ReceiveEvent::WSDisconnect(1000).into_entries(),
        vec![
            entry("type", Value::Str("websocket.disconnect".to_string())),
            entry("code", Value::Int(1000)),
        ]
    );
}
