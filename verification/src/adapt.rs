//! What the keys of an event mean.

use vstd::prelude::*;

use crate::types::{ASGIError, ASGIMessageType, Lookup, SendError};

verus! {

/// The name of a kind of event, as it stands under `type`.
pub open spec fn kind_name(kind: ASGIMessageType) -> Seq<char> {
    match kind {
        ASGIMessageType::HTTPStart => "http.response.start"@,
        ASGIMessageType::HTTPBody => "http.response.body"@,
        ASGIMessageType::HTTPFile => "http.response.pathsend"@,
        ASGIMessageType::WSAccept => "websocket.accept"@,
        ASGIMessageType::WSClose => "websocket.close"@,
        ASGIMessageType::WSMessage => "websocket.send"@,
    }
}

/// The kind of event that `name` names.
pub open spec fn named_type(name: Seq<char>) -> Option<ASGIMessageType> {
    if name == kind_name(ASGIMessageType::HTTPStart) {
        Some(ASGIMessageType::HTTPStart)
    } else if name == kind_name(ASGIMessageType::HTTPBody) {
        Some(ASGIMessageType::HTTPBody)
    } else if name == kind_name(ASGIMessageType::HTTPFile) {
        Some(ASGIMessageType::HTTPFile)
    } else if name == kind_name(ASGIMessageType::WSAccept) {
        Some(ASGIMessageType::WSAccept)
    } else if name == kind_name(ASGIMessageType::WSClose) {
        Some(ASGIMessageType::WSClose)
    } else if name == kind_name(ASGIMessageType::WSMessage) {
        Some(ASGIMessageType::WSMessage)
    } else {
        None
    }
}

/// The kind of an event, by its `type`: none where the key is missing, is no
/// string or names no kind.
pub open spec fn message_type<E>(kind: Lookup<Option<String>, E>) -> Option<ASGIMessageType> {
    match kind {
        Lookup::Present(Some(name)) => named_type(name@),
        _ => None,
    }
}

/// The status code of a response head.
pub open spec fn event_status<E>(status: Lookup<Option<i16>, E>) -> Option<i16> {
    match status {
        Lookup::Present(code) => code,
        _ => None,
    }
}

/// The bytes of a part of a response body: none where `body` holds no bytes.
pub open spec fn event_body<E>(body: Lookup<Option<Vec<u8>>, E>) -> Seq<u8> {
    match body {
        Lookup::Present(Some(bytes)) => bytes@,
        _ => Seq::empty(),
    }
}

/// Whether more of a response body follows: not unless `more_body` says so.
pub open spec fn event_more<E>(more_body: Lookup<Option<bool>, E>) -> bool {
    more_body matches Lookup::Present(Some(more)) && more
}

/// The path of the file that is to be sent.
pub open spec fn event_path<E>(path: Lookup<Result<String, E>, E>) -> Option<Seq<char>> {
    match path {
        Lookup::Present(Ok(name)) => Some(name@),
        _ => None,
    }
}

/// Reads the kind of an event.
pub fn adapt_message_type<E>(kind: &Lookup<Option<String>, E>) -> (res: Result<
    ASGIMessageType,
    ASGIError,
>)
    ensures
        res == match message_type(*kind) {
            Some(found) => Ok::<ASGIMessageType, ASGIError>(found),
            None => Err(ASGIError::Message),
        },
{
    match kind {
        Lookup::Present(Some(name)) => {
            if *name == "http.response.start".to_owned() {
                Ok(ASGIMessageType::HTTPStart)
            } else if *name == "http.response.body".to_owned() {
                Ok(ASGIMessageType::HTTPBody)
            } else if *name == "http.response.pathsend".to_owned() {
                Ok(ASGIMessageType::HTTPFile)
            } else if *name == "websocket.accept".to_owned() {
                Ok(ASGIMessageType::WSAccept)
            } else if *name == "websocket.close".to_owned() {
                Ok(ASGIMessageType::WSClose)
            } else if *name == "websocket.send".to_owned() {
                Ok(ASGIMessageType::WSMessage)
            } else {
                Err(ASGIError::Message)
            }
        },
        _ => Err(ASGIError::Message),
    }
}

/// Reads the status code of a response head. Any 16-bit number passes here.
pub fn adapt_status_code<E>(status: &Lookup<Option<i16>, E>) -> (res: Result<i16, ASGIError>)
    ensures
        res == match event_status(*status) {
            Some(code) => Ok::<i16, ASGIError>(code),
            None => Err(ASGIError::Message),
        },
{
    match status {
        Lookup::Present(Some(code)) => Ok(*code),
        _ => Err(ASGIError::Message),
    }
}

/// Reads a part of a response body, and whether more follows.
pub fn adapt_body<E>(
    body: Lookup<Option<Vec<u8>>, E>,
    more_body: &Lookup<Option<bool>, E>,
) -> (res: (Vec<u8>, bool))
    ensures
        res.0@ == event_body(body),
        res.1 == event_more(*more_body),
{
    let bytes = match body {
        Lookup::Present(Some(bytes)) => bytes,
        _ => Vec::new(),
    };
    let more = match more_body {
        Lookup::Present(Some(more)) => *more,
        _ => false,
    };
    (bytes, more)
}

/// Reads the path of the file that is to be sent.
pub fn adapt_file<E>(path: Lookup<Result<String, E>, E>) -> (res: Result<String, SendError<E>>)
    ensures
        res matches Ok(name) ==> event_path(path) == Some(name@),
        res matches Err(err) ==> match path {
            Lookup::Raised(raised) => err == SendError::Raised(raised),
            Lookup::Absent => err == SendError::<E>::ASGI(ASGIError::Flow),
            Lookup::Present(Err(raised)) => err == SendError::Raised(raised),
            Lookup::Present(Ok(_)) => false,
        },
{
    match path {
        Lookup::Raised(raised) => Err(SendError::Raised(raised)),
        Lookup::Absent => Err(SendError::ASGI(ASGIError::Flow)),
        Lookup::Present(Ok(name)) => Ok(name),
        Lookup::Present(Err(raised)) => Err(SendError::Raised(raised)),
    }
}

/// Every kind of event has a name of its own, and is read back from it.
pub proof fn law_kind_names(kind: ASGIMessageType, name: Seq<char>)
    ensures
        named_type(kind_name(kind)) == Some(kind),
        named_type(name) == Some(kind) <==> name == kind_name(kind),
{
    reveal_strlit("http.response.start");
    reveal_strlit("http.response.body");
    reveal_strlit("http.response.pathsend");
    reveal_strlit("websocket.accept");
    reveal_strlit("websocket.close");
    reveal_strlit("websocket.send");
    assert("http.response.start"@.len() == 19);
    assert("http.response.body"@.len() == 18);
    assert("http.response.pathsend"@.len() == 22);
    assert("websocket.accept"@.len() == 16);
    assert("websocket.close"@.len() == 15);
    assert("websocket.send"@.len() == 14);
}

} // verus!
