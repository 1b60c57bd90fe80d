use asgi_io::adapt::{adapt_body, adapt_file, adapt_message_type, adapt_status_code};
use asgi_io::headers::adapt_headers;
use asgi_io::types::{ASGIError, ASGIMessageType, Lookup, SendError};
use hyper::header::{HeaderMap, HeaderValue};

fn kind(name: &str) -> Lookup<Option<String>, u32> {
    Lookup::Present(Some(name.to_string()))
}

fn pair(name: &[u8], value: &[u8]) -> Vec<Vec<u8>> {
    vec![name.to_vec(), value.to_vec()]
}

fn headers(pairs: Vec<Vec<Vec<u8>>>) -> HeaderMap {
    let lookup: Lookup<Option<Vec<Vec<Vec<u8>>>>, u32> = Lookup::Present(Some(pairs));
    adapt_headers(HeaderValue::from_static("srv"), &lookup).unwrap()
}

fn values(table: &HeaderMap, name: &str) -> Vec<Vec<u8>> {
    table.get_all(name).iter().map(|value| value.as_bytes().to_vec()).collect()
}

#[test]
fn message_types_by_name() {
    assert_eq!(adapt_message_type(&kind("http.response.start")), Ok(ASGIMessageType::HTTPStart));
    assert_eq!(adapt_message_type(&kind("http.response.body")), Ok(ASGIMessageType::HTTPBody));
    assert_eq!(adapt_message_type(&kind("http.response.pathsend")), Ok(ASGIMessageType::HTTPFile));
    assert_eq!(adapt_message_type(&kind("websocket.accept")), Ok(ASGIMessageType::WSAccept));
    assert_eq!(adapt_message_type(&kind("websocket.close")), Ok(ASGIMessageType::WSClose));
    assert_eq!(adapt_message_type(&kind("websocket.send")), Ok(ASGIMessageType::WSMessage));
}

#[test]
fn other_message_types_are_refused() {
    assert_eq!(adapt_message_type(&kind("http.response.Start")), Err(ASGIError::Message));
    assert_eq!(adapt_message_type(&kind("")), Err(ASGIError::Message));
    assert_eq!(adapt_message_type(&Lookup::<_, u32>::Present(None)), Err(ASGIError::Message));
    assert_eq!(adapt_message_type(&Lookup::<_, u32>::Absent), Err(ASGIError::Message));
    assert_eq!(adapt_message_type(&Lookup::Raised(7u32)), Err(ASGIError::Message));
}

#[test]
fn status_codes() {
    assert_eq!(adapt_status_code(&Lookup::<_, u32>::Present(Some(204))), Ok(204));
    assert_eq!(adapt_status_code(&Lookup::<_, u32>::Present(Some(-1))), Ok(-1));
    assert_eq!(adapt_status_code(&Lookup::<_, u32>::Present(None)), Err(ASGIError::Message));
    assert_eq!(adapt_status_code(&Lookup::<_, u32>::Absent), Err(ASGIError::Message));
    assert_eq!(adapt_status_code(&Lookup::Raised(7u32)), Err(ASGIError::Message));
}

#[test]
fn bodies() {
    let given = adapt_body(
        Lookup::<_, u32>::Present(Some(vec![1, 2])),
        &Lookup::Present(Some(true)),
    );
    assert_eq!(given, (vec![1, 2], true));
    assert_eq!(adapt_body(Lookup::<_, u32>::Absent, &Lookup::Absent), (vec![], false));
    assert_eq!(adapt_body(Lookup::<_, u32>::Present(None), &Lookup::Present(None)), (vec![], false));
    assert_eq!(adapt_body(Lookup::Raised(1u32), &Lookup::Raised(2u32)), (vec![], false));
}

#[test]
fn files() {
    let path = "/srv/a".to_string();
    assert_eq!(adapt_file(Lookup::<_, u32>::Present(Ok(path.clone()))), Ok(path));
    assert_eq!(adapt_file(Lookup::<_, u32>::Absent), Err(SendError::ASGI(ASGIError::Flow)));
    assert_eq!(adapt_file(Lookup::Raised(3u32)), Err(SendError::Raised(3)));
    assert_eq!(adapt_file(Lookup::Present(Err(4u32))), Err(SendError::Raised(4)));
}

#[test]
fn server_header_without_pairs() {
    let server = HeaderValue::from_static("srv");
    let absent = adapt_headers(server.clone(), &Lookup::<_, u32>::Absent).unwrap();
    let odd = adapt_headers(server.clone(), &Lookup::<_, u32>::Present(None)).unwrap();
    let raised = adapt_headers(server, &Lookup::Raised(1u32)).unwrap();
    for table in [absent, odd, raised] {
        assert_eq!(table.len(), 1);
        assert_eq!(values(&table, "server"), vec![b"srv".to_vec()]);
    }
}

#[test]
fn header_names_are_lower_case_and_values_keep_their_order() {
    let table = headers(vec![
        pair(b"X-Custom", b"one"),
        pair(b"Content-Type", b"text/plain"),
        pair(b"x-custom", b"two"),
        pair(b"Server", b"other"),
    ]);
    assert_eq!(table.len(), 5);
    assert_eq!(values(&table, "x-custom"), vec![b"one".to_vec(), b"two".to_vec()]);
    assert_eq!(values(&table, "content-type"), vec![b"text/plain".to_vec()]);
    assert_eq!(values(&table, "server"), vec![b"srv".to_vec(), b"other".to_vec()]);
    assert!(table.keys().all(|name| name.as_str() == name.as_str().to_lowercase()));
}

#[test]
fn pairs_that_are_no_headers_are_left_out() {
    let table = headers(vec![
        pair(b"", b"empty name"),
        pair(b"a b", b"space"),
        pair(b"quote\"", b"quote"),
        pair(b"good", b"new\nline"),
        pair(b"good", &[127]),
        pair(b"good", &[9, 32, 200, 255]),
        pair(b"!#$%&'*+-.^_`|~09azAZ", b""),
        pair(&[b'n'; 65535], b"long"),
        pair(&[b'n'; 65536], b"too long"),
    ]);
    assert_eq!(table.len(), 4);
    assert_eq!(values(&table, "good"), vec![vec![9, 32, 200, 255]]);
    assert_eq!(values(&table, "!#$%&'*+-.^_`|~09azaz"), vec![Vec::<u8>::new()]);
}

#[test]
fn parts_beyond_the_second_are_ignored() {
    let table = headers(vec![vec![b"a".to_vec(), b"1".to_vec(), b"2".to_vec()]]);
    assert_eq!(values(&table, "a"), vec![b"1".to_vec()]);
}

#[test]
fn header_tables_fill_up() {
    let many = |count: u32| -> Lookup<Option<Vec<Vec<Vec<u8>>>>, u32> {
        let mut pairs = Vec::new();
        for number in 0..count {
            pairs.push(pair(format!("h-{}", number).as_bytes(), b"v"));
        }
        Lookup::Present(Some(pairs))
    };
    let table = adapt_headers(HeaderValue::from_static("srv"), &many(6552)).unwrap();
    assert_eq!(table.len(), 6553);
    assert_eq!(
        adapt_headers(HeaderValue::from_static("srv"), &many(40000)),
        Err(ASGIError::HeaderOverflow)
    );
}
