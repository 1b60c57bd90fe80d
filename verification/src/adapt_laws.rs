//! What the readers of event keys give back, key by key.

use vstd::prelude::*;

use crate::adapt::{
    adapt_body, adapt_file, adapt_message_type, adapt_status_code, event_body, event_more,
    event_path, event_status, law_kind_names, message_type,
};
use crate::types::{ASGIError, ASGIMessageType, Lookup, SendError};

verus! {

/// The kind of an event is settled by the string under `type` alone: six strings
/// name one each, and no other item or string names any.
pub proof fn law_message_type<E>(kind: Lookup<Option<String>, E>)
    ensures
        message_type(kind) == Some(ASGIMessageType::HTTPStart) <==> (kind matches Lookup::Present(
            Some(name),
        ) && name@ == "http.response.start"@),
        message_type(kind) == Some(ASGIMessageType::HTTPBody) <==> (kind matches Lookup::Present(
            Some(name),
        ) && name@ == "http.response.body"@),
        message_type(kind) == Some(ASGIMessageType::HTTPFile) <==> (kind matches Lookup::Present(
            Some(name),
        ) && name@ == "http.response.pathsend"@),
        message_type(kind) == Some(ASGIMessageType::WSAccept) <==> (kind matches Lookup::Present(
            Some(name),
        ) && name@ == "websocket.accept"@),
        message_type(kind) == Some(ASGIMessageType::WSClose) <==> (kind matches Lookup::Present(
            Some(name),
        ) && name@ == "websocket.close"@),
        message_type(kind) == Some(ASGIMessageType::WSMessage) <==> (kind matches Lookup::Present(
            Some(name),
        ) && name@ == "websocket.send"@),
{
    if let Lookup::Present(Some(name)) = kind {
        law_kind_names(ASGIMessageType::HTTPStart, name@);
        law_kind_names(ASGIMessageType::HTTPBody, name@);
        law_kind_names(ASGIMessageType::HTTPFile, name@);
        law_kind_names(ASGIMessageType::WSAccept, name@);
        law_kind_names(ASGIMessageType::WSClose, name@);
        law_kind_names(ASGIMessageType::WSMessage, name@);
    }
}

/// `adapt_message_type` reads one kind from each of the six strings, and refuses
/// everything else as no known message.
pub proof fn law_adapt_message_type<E>(
    kind: Lookup<Option<String>, E>,
    res: Result<ASGIMessageType, ASGIError>,
)
    requires
        call_ensures(adapt_message_type::<E>, (&kind,), res),
    ensures
        res == Ok::<ASGIMessageType, ASGIError>(ASGIMessageType::HTTPStart) <==> (kind matches
            Lookup::Present(Some(name)) && name@ == "http.response.start"@),
        res == Ok::<ASGIMessageType, ASGIError>(ASGIMessageType::HTTPBody) <==> (kind matches
            Lookup::Present(Some(name)) && name@ == "http.response.body"@),
        res == Ok::<ASGIMessageType, ASGIError>(ASGIMessageType::HTTPFile) <==> (kind matches
            Lookup::Present(Some(name)) && name@ == "http.response.pathsend"@),
        res == Ok::<ASGIMessageType, ASGIError>(ASGIMessageType::WSAccept) <==> (kind matches
            Lookup::Present(Some(name)) && name@ == "websocket.accept"@),
        res == Ok::<ASGIMessageType, ASGIError>(ASGIMessageType::WSClose) <==> (kind matches
            Lookup::Present(Some(name)) && name@ == "websocket.close"@),
        res == Ok::<ASGIMessageType, ASGIError>(ASGIMessageType::WSMessage) <==> (kind matches
            Lookup::Present(Some(name)) && name@ == "websocket.send"@),
        res matches Err(err) ==> err == ASGIError::Message,
{
    law_message_type(kind);
}

/// A `status` that holds a number is that number, whichever it is; any other
/// item is no status.
pub proof fn law_event_status<E>(code: i16, status: Lookup<Option<i16>, E>)
    ensures
        event_status(status) == Some(code) <==> status == Lookup::<Option<i16>, E>::Present(
            Some(code),
        ),
{
}

/// `adapt_status_code` gives back the number under `status`, whichever it is, and
/// refuses any other item as no known message.
pub proof fn law_adapt_status_code<E>(
    code: i16,
    status: Lookup<Option<i16>, E>,
    res: Result<i16, ASGIError>,
)
    requires
        call_ensures(adapt_status_code::<E>, (&status,), res),
    ensures
        res == Ok::<i16, ASGIError>(code) <==> status == Lookup::<Option<i16>, E>::Present(
            Some(code),
        ),
        res matches Err(err) ==> err == ASGIError::Message,
{
}

/// The bytes of a part of a body are those under `body`, all of them; any other
/// item gives none.
pub proof fn law_event_body<E>(body: Lookup<Option<Vec<u8>>, E>)
    ensures
        body matches Lookup::Present(Some(bytes)) ==> event_body(body) == bytes@,
        !(body matches Lookup::Present(Some(_))) ==> event_body(body).len() == 0,
{
}

/// More of a body follows exactly where `more_body` holds the truth value true.
pub proof fn law_event_more<E>(more_body: Lookup<Option<bool>, E>)
    ensures
        event_more(more_body) <==> more_body == Lookup::<Option<bool>, E>::Present(Some(true)),
{
}

/// `adapt_body` gives back the bytes under `body` and the flag under `more_body`,
/// and nothing and false where they hold something else.
pub proof fn law_adapt_body<E>(
    body: Lookup<Option<Vec<u8>>, E>,
    more_body: Lookup<Option<bool>, E>,
    res: (Vec<u8>, bool),
)
    requires
        call_ensures(adapt_body::<E>, (body, &more_body), res),
    ensures
        body matches Lookup::Present(Some(bytes)) ==> res.0@ == bytes@,
        !(body matches Lookup::Present(Some(_))) ==> res.0@.len() == 0,
        res.1 <==> more_body == Lookup::<Option<bool>, E>::Present(Some(true)),
{
}

/// The path of a file is the string under `path`; any other item gives none.
pub proof fn law_event_path<E>(path: Lookup<Result<String, E>, E>)
    ensures
        path matches Lookup::Present(Ok(name)) ==> event_path(path) == Some(name@),
        !(path matches Lookup::Present(Ok(_))) ==> event_path(path) is None,
{
}

/// `adapt_file` gives back the string under `path`. What reading it raised comes
/// back as it is, and an event without the key may not come now.
pub proof fn law_adapt_file<E>(
    path: Lookup<Result<String, E>, E>,
    res: Result<String, SendError<E>>,
)
    requires
        call_ensures(adapt_file::<E>, (path,), res),
    ensures
        path matches Lookup::Present(Ok(name)) ==> (res matches Ok(found) && found@ == name@),
        path matches Lookup::Present(Err(raised)) ==> res == Err::<String, SendError<E>>(
            SendError::Raised(raised),
        ),
        path matches Lookup::Raised(raised) ==> res == Err::<String, SendError<E>>(
            SendError::Raised(raised),
        ),
        path is Absent ==> res == Err::<String, SendError<E>>(SendError::ASGI(ASGIError::Flow)),
{
}

} // verus!
