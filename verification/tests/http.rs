use asgi_io::http::{
    file_reply, valid_status, ASGIHTTPProtocol, BodyRead, FileReply, HTTPAction, HTTPReceive,
    HTTPResponse, ResponseBody,
};
use asgi_io::message::{Entry, ReceiveEvent, Value};
use asgi_io::types::{ASGIError, ASGIEvent, Lookup};
use hyper::header::{HeaderMap, HeaderValue};

type Event = ASGIEvent<u32>;
type Protocol = ASGIHTTPProtocol<&'static str>;

fn event(kind: &str) -> Event {
    ASGIEvent {
        kind: Lookup::Present(Some(kind.to_string())),
        status: Lookup::Absent,
        headers: Lookup::Absent,
        body: Lookup::Absent,
        more_body: Lookup::Absent,
        path: Lookup::Absent,
        bytes: Lookup::Absent,
        text: Lookup::Absent,
    }
}

fn start(status: i16) -> Event {
    let mut head = event("http.response.start");
    head.status = Lookup::Present(Some(status));
    head.headers = Lookup::Present(Some(vec![vec![b"A".to_vec(), b"b".to_vec()]]));
    head
}

fn body(content: &[u8], more: bool) -> Event {
    let mut part = event("http.response.body");
    part.body = Lookup::Present(Some(content.to_vec()));
    part.more_body = Lookup::Present(Some(more));
    part
}

fn file(path: &str) -> Event {
    let mut answer = event("http.response.pathsend");
    answer.path = Lookup::Present(Ok(path.to_string()));
    answer
}

fn protocol() -> Protocol {
    ASGIHTTPProtocol::new(HeaderValue::from_static("srv"), "channel")
}

fn send(protocol: &mut Protocol, event: Event) -> Result<HTTPAction<&'static str>, ASGIError> {
    assert!(protocol.accepts(&event));
    protocol.send(event)
}

fn table() -> HeaderMap {
    let mut table = HeaderMap::new();
    table.insert("server", HeaderValue::from_static("srv"));
    table.insert("a", HeaderValue::from_static("b"));
    table
}

fn response(status: u16, body: ResponseBody) -> Option<HTTPResponse<&'static str>> {
    Some(HTTPResponse { tx: "channel", status, headers: table(), body })
}

#[test]
fn head_and_whole_body_make_one_response() {
    let mut exchange = protocol();
    assert_eq!(send(&mut exchange, start(201)), Ok(HTTPAction::Done));
    assert_eq!(
        send(&mut exchange, body(b"hello", false)),
        Ok(HTTPAction::Respond { response: response(201, ResponseBody::Full(b"hello".to_vec())) })
    );
    assert_eq!(exchange.tx(), None);
    assert!(!exchange.accepts(&body(b"again", false)));
    assert!(!exchange.accepts(&body(b"again", true)));
    assert_eq!(send(&mut exchange, start(200)), Err(ASGIError::Flow));
    assert_eq!(send(&mut exchange, file("/a")), Err(ASGIError::Flow));
}

#[test]
fn streamed_bodies_go_out_in_order() {
    let mut exchange = protocol();
    assert_eq!(send(&mut exchange, start(200)), Ok(HTTPAction::Done));
    assert_eq!(
        send(&mut exchange, body(b"one", true)),
        Ok(HTTPAction::Stream {
            response: response(200, ResponseBody::Channel),
            chunk: b"one".to_vec(),
        })
    );
    assert_eq!(
        send(&mut exchange, body(b"", true)),
        Ok(HTTPAction::Chunk { chunk: vec![] })
    );
    assert_eq!(
        send(&mut exchange, body(b"two", true)),
        Ok(HTTPAction::Chunk { chunk: b"two".to_vec() })
    );
    assert_eq!(
        send(&mut exchange, body(b"three", false)),
        Ok(HTTPAction::Finish { last: Some(b"three".to_vec()) })
    );
    assert_eq!(send(&mut exchange, body(b"four", false)), Err(ASGIError::Flow));
    assert_eq!(send(&mut exchange, body(b"four", true)), Err(ASGIError::Flow));
    assert_eq!(send(&mut exchange, start(200)), Err(ASGIError::Flow));
}

#[test]
fn an_empty_last_chunk_is_not_sent() {
    let mut exchange = protocol();
    send(&mut exchange, start(200)).unwrap();
    send(&mut exchange, body(b"one", true)).unwrap();
    assert_eq!(send(&mut exchange, body(b"", false)), Ok(HTTPAction::Finish { last: None }));
}

#[test]
fn a_body_needs_a_head() {
    let mut exchange = protocol();
    assert_eq!(send(&mut exchange, body(b"x", false)), Err(ASGIError::Flow));
    assert_eq!(send(&mut exchange, body(b"x", true)), Err(ASGIError::Flow));
    assert_eq!(send(&mut exchange, start(200)), Ok(HTTPAction::Done));
    assert!(matches!(
        send(&mut exchange, body(b"x", false)),
        Ok(HTTPAction::Respond { response: Some(_) })
    ));
}

#[test]
fn a_second_head_is_refused_and_the_first_kept() {
    let mut exchange = protocol();
    send(&mut exchange, start(201)).unwrap();
    assert_eq!(send(&mut exchange, start(500)), Err(ASGIError::Flow));
    assert_eq!(
        send(&mut exchange, body(b"", false)),
        Ok(HTTPAction::Respond { response: response(201, ResponseBody::Full(vec![])) })
    );
}

#[test]
fn a_head_without_status_is_refused() {
    let mut exchange = protocol();
    assert_eq!(send(&mut exchange, event("http.response.start")), Err(ASGIError::Message));
    assert_eq!(send(&mut exchange, start(200)), Ok(HTTPAction::Done));
}

#[test]
fn a_file_is_an_answer() {
    let mut exchange = protocol();
    send(&mut exchange, start(206)).unwrap();
    assert_eq!(
        send(&mut exchange, file("/srv/a")),
        Ok(HTTPAction::File {
            tx: "channel",
            path: "/srv/a".to_string(),
            status: 206,
            headers: table(),
        })
    );
    assert_eq!(send(&mut exchange, file("/srv/a")), Err(ASGIError::Flow));
    assert_eq!(exchange.tx(), None);
}

#[test]
fn a_refused_file_uses_the_channel_up() {
    let mut early = protocol();
    assert_eq!(send(&mut early, file("/srv/a")), Err(ASGIError::Flow));
    send(&mut early, start(200)).unwrap();
    assert_eq!(send(&mut early, body(b"x", false)), Ok(HTTPAction::Respond { response: None }));

    let mut nameless = protocol();
    send(&mut nameless, start(200)).unwrap();
    assert_eq!(send(&mut nameless, event("http.response.pathsend")), Err(ASGIError::Flow));
    assert_eq!(nameless.tx(), None);
}

#[test]
fn a_channel_that_was_given_away_gets_no_response() {
    let mut exchange = protocol();
    assert_eq!(exchange.tx(), Some("channel"));
    assert_eq!(exchange.tx(), None);
    send(&mut exchange, start(200)).unwrap();
    assert_eq!(
        send(&mut exchange, body(b"x", true)),
        Ok(HTTPAction::Stream { response: None, chunk: b"x".to_vec() })
    );
}

#[test]
fn statuses_that_no_response_may_carry() {
    for status in [-1, 0, 99, 1000, i16::MAX, i16::MIN] {
        assert!(!valid_status(status));
        let mut exchange = protocol();
        assert_eq!(send(&mut exchange, start(status)), Ok(HTTPAction::Done));
        assert!(!exchange.accepts(&body(b"x", false)));
        assert_eq!(exchange.tx(), Some("channel"));
        assert_eq!(
            send(&mut exchange, body(b"x", false)),
            Ok(HTTPAction::Respond { response: None })
        );
    }
    assert!(valid_status(100));
    assert!(valid_status(999));
}

#[test]
fn headers_that_lack_a_part_are_not_taken() {
    let mut exchange = protocol();
    let short = || {
        let mut head = start(200);
        head.headers = Lookup::Present(Some(vec![vec![b"a".to_vec()]]));
        head
    };
    assert!(!exchange.accepts(&short()));
    let mut stateless = short();
    stateless.status = Lookup::Absent;
    assert_eq!(send(&mut exchange, stateless), Err(ASGIError::Message));
    send(&mut exchange, start(200)).unwrap();
    assert_eq!(send(&mut exchange, short()), Err(ASGIError::Flow));
}

#[test]
fn headers_that_overfill_the_table_change_nothing() {
    let mut exchange = protocol();
    let mut head = start(200);
    let mut pairs = Vec::new();
    for number in 0..40000 {
        pairs.push(vec![format!("h-{}", number).into_bytes(), b"v".to_vec()]);
    }
    head.headers = Lookup::Present(Some(pairs));
    assert_eq!(send(&mut exchange, head), Err(ASGIError::HeaderOverflow));
    assert_eq!(send(&mut exchange, body(b"x", false)), Err(ASGIError::Flow));
    assert_eq!(send(&mut exchange, start(200)), Ok(HTTPAction::Done));
}

#[test]
fn other_events_are_refused() {
    let mut exchange = protocol();
    assert_eq!(send(&mut exchange, event("websocket.send")), Err(ASGIError::Message));
    assert_eq!(send(&mut exchange, event("http.response.trailers")), Err(ASGIError::Message));
    let mut untyped = event("");
    untyped.kind = Lookup::Absent;
    assert_eq!(send(&mut exchange, untyped), Err(ASGIError::Message));
}

#[test]
fn request_bodies_are_read_to_their_end() {
    let mut exchange = protocol();
    assert_eq!(exchange.receive(), HTTPReceive::ReadBody);
    assert_eq!(
        exchange.receive_body(BodyRead::Data(b"abc".to_vec())),
        ReceiveEvent::HTTPRequest { body: b"abc".to_vec(), more_body: true }
    );
    assert_eq!(
        exchange.receive_body(BodyRead::Failed),
        ReceiveEvent::HTTPRequest { body: vec![], more_body: true }
    );
    assert_eq!(
        exchange.receive_body(BodyRead::Trailers),
        ReceiveEvent::HTTPRequest { body: vec![], more_body: true }
    );
    assert_eq!(exchange.receive(), HTTPReceive::ReadBody);
    assert_eq!(
        exchange.receive_body(BodyRead::End),
        ReceiveEvent::HTTPRequest { body: vec![], more_body: false }
    );
    assert_eq!(exchange.receive(), HTTPReceive::AwaitDisconnect);
    send(&mut exchange, start(200)).unwrap();
    assert_eq!(exchange.receive(), HTTPReceive::AwaitDisconnect);
    assert_eq!(Protocol::receive_disconnect(), ReceiveEvent::HTTPDisconnect);
}

#[test]
fn a_response_needs_its_channel() {
    let mut exchange = protocol();
    assert_eq!(
        exchange.send_response(204, table(), ResponseBody::Full(b"x".to_vec())),
        response(204, ResponseBody::Full(b"x".to_vec()))
    );
    for status in [204, 99, 1000, -1] {
        assert_eq!(exchange.send_response(status, table(), ResponseBody::Channel), None);
    }
    assert_eq!(exchange.tx(), None);
    assert_eq!(exchange.receive(), HTTPReceive::ReadBody);
    assert_eq!(send(&mut exchange, start(200)), Ok(HTTPAction::Done));
}

#[test]
fn bytes_pass_whatever_comes_between() {
    let mut exchange = protocol();
    send(&mut exchange, start(200)).unwrap();
    assert!(matches!(
        send(&mut exchange, body(b"one", true)),
        Ok(HTTPAction::Stream { response: Some(_), .. })
    ));
    exchange.receive_body(BodyRead::End);
    assert_eq!(send(&mut exchange, start(500)), Err(ASGIError::Flow));
    assert_eq!(exchange.tx(), None);
    assert_eq!(send(&mut exchange, file("/a")), Err(ASGIError::Flow));
    assert_eq!(
        send(&mut exchange, body(b"two", false)),
        Ok(HTTPAction::Finish { last: Some(b"two".to_vec()) })
    );
}

#[test]
fn delivery_of_a_chunk_is_reported() {
    assert_eq!(Protocol::send_body(true), Ok(()));
    assert_eq!(Protocol::send_body(false), Err(ASGIError::Transport));
}

#[test]
fn replies_to_a_file() {
    assert_eq!(
        file_reply(206, table(), true),
        FileReply::Opened { status: 206, headers: table() }
    );
    assert_eq!(file_reply(-5, table(), false), FileReply::NotFound);
}

#[test]
fn http_events_as_dictionaries() {
    let request = ReceiveEvent::HTTPRequest { body: b"abc".to_vec(), more_body: true };
    let entry = |key: &str, value: Value| Entry { key: key.to_string(), value };
    assert_eq!(
        request.into_entries(),
        vec![
            entry("type", Value::Str("http.request".to_string())),
            entry("body", Value::Bytes(b"abc".to_vec())),
            entry("more_body", Value::Bool(true)),
        ]
    );
    assert_eq!(
        ReceiveEvent::HTTPDisconnect.into_entries(),
        vec![entry("type", Value::Str("http.disconnect".to_string()))]
    );
}
