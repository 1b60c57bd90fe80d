//! What each call on an HTTP exchange does, told by its arguments and results.

use hyper::header::{HeaderMap, HeaderValue};
use vstd::prelude::*;

use crate::adapt_laws::{
    law_event_body, law_event_more, law_event_path, law_event_status, law_message_type,
};
use crate::header_laws::law_header_pairs;
use crate::headers::{fields, header_pairs, header_table, law_few_pairs_fit, value_bytes};
use crate::http::{
    file_reply, http_accepts, valid_status, ASGIHTTPProtocol, BodyRead, FileReply, HTTPAction,
    HTTPReceive, HTTPResponse, HTTPState, Phase, ResponseBody,
};
use crate::message::ReceiveEvent;
use crate::types::{ASGIError, ASGIEvent, Lookup};

verus! {

/// A new exchange holds its channel, has no head yet and has its request body
/// before it.
pub proof fn law_new<T>(server: HeaderValue, tx: T, res: ASGIHTTPProtocol<T>)
    requires
        call_ensures(ASGIHTTPProtocol::<T>::new, (server, tx), res),
    ensures
        res.wf(),
        res@.tx == Some(tx),
        res@.phase is Fresh,
        !res@.exhausted,
        res@.server == value_bytes(server),
{
}

/// A head on a fresh exchange is kept, with the very status that it gives and the
/// headers of its pairs, and nothing else changes. Only headers that do not fit
/// prevent that: fewer than 6554 names always do, more than 24576 never.
pub proof fn law_send_head<T, E>(
    exchange: &mut ASGIHTTPProtocol<T>,
    event: ASGIEvent<E>,
    name: String,
    status: i16,
    res: Result<HTTPAction<T>, ASGIError>,
)
    requires
        call_ensures(ASGIHTTPProtocol::<T>::send::<E>, (exchange, event), res),
        event.kind == Lookup::<Option<String>, E>::Present(Some(name)),
        name@ == "http.response.start"@,
        event.status == Lookup::<Option<i16>, E>::Present(Some(status)),
        old(exchange)@.phase is Fresh,
    ensures
        final(exchange).wf(),
        res == Err::<HTTPAction<T>, ASGIError>(ASGIError::HeaderOverflow) ==> final(exchange)@
            == old(exchange)@ && header_pairs(event.headers).len() > 6552 && header_table(
            old(exchange)@.server,
            header_pairs(event.headers),
        ).dom().len() >= 6554,
        header_table(old(exchange)@.server, header_pairs(event.headers)).dom().len() > 24576
            ==> res == Err::<HTTPAction<T>, ASGIError>(ASGIError::HeaderOverflow),
        res != Err::<HTTPAction<T>, ASGIError>(ASGIError::HeaderOverflow) ==> {
            &&& res == Ok::<HTTPAction<T>, ASGIError>(HTTPAction::Done)
            &&& final(exchange)@.tx == old(exchange)@.tx
            &&& final(exchange)@.exhausted == old(exchange)@.exhausted
            &&& final(exchange)@.server == old(exchange)@.server
            &&& final(exchange)@.phase == (Phase::Ready {
                status,
                headers: header_table(old(exchange)@.server, header_pairs(event.headers)),
            })
        },
{
    law_message_type(event.kind);
    law_event_status(status, event.status);
    law_few_pairs_fit(old(exchange)@.server, header_pairs(event.headers));
}

/// A head without a status is no known message; a head after a head may not come.
/// Neither changes anything.
pub proof fn law_send_bad_head<T, E>(
    exchange: &mut ASGIHTTPProtocol<T>,
    event: ASGIEvent<E>,
    name: String,
    res: Result<HTTPAction<T>, ASGIError>,
)
    requires
        call_ensures(ASGIHTTPProtocol::<T>::send::<E>, (exchange, event), res),
        event.kind == Lookup::<Option<String>, E>::Present(Some(name)),
        name@ == "http.response.start"@,
        !(old(exchange)@.phase is Fresh) || !(event.status matches Lookup::Present(Some(_))),
    ensures
        final(exchange).wf(),
        final(exchange)@ == old(exchange)@,
        old(exchange)@.phase is Fresh ==> res == Err::<HTTPAction<T>, ASGIError>(
            ASGIError::Message,
        ),
        !(old(exchange)@.phase is Fresh) ==> res == Err::<HTTPAction<T>, ASGIError>(
            ASGIError::Flow,
        ),
{
    law_message_type(event.kind);
    assert forall|code: i16| crate::adapt::event_status(event.status) != Some(code) || !(
    old(exchange)@.phase is Fresh) by {
        law_event_status(code, event.status);
    }
    if crate::adapt::event_status(event.status) is Some {
        let code = crate::adapt::event_status(event.status)->0;
        assert(crate::adapt::event_status(event.status) == Some(code));
    }
}

/// A whole body after a head answers at once: the channel leaves with the status
/// and headers of the head and the bytes of the body. Without the channel there is
/// no response, and the exchange is answered all the same.
pub proof fn law_send_whole_body<T, E>(
    exchange: &mut ASGIHTTPProtocol<T>,
    event: ASGIEvent<E>,
    name: String,
    content: Seq<u8>,
    status: i16,
    headers: Map<Seq<u8>, Seq<Seq<u8>>>,
    res: Result<HTTPAction<T>, ASGIError>,
)
    requires
        call_ensures(ASGIHTTPProtocol::<T>::send::<E>, (exchange, event), res),
        event.kind == Lookup::<Option<String>, E>::Present(Some(name)),
        name@ == "http.response.body"@,
        event.body matches Lookup::Present(Some(bytes)) ==> content == bytes@,
        !(event.body matches Lookup::Present(Some(_))) ==> content.len() == 0,
        event.more_body != Lookup::<Option<bool>, E>::Present(Some(true)),
        old(exchange)@.phase == (Phase::Ready { status, headers }),
    ensures
        final(exchange).wf(),
        final(exchange)@.phase is Answered,
        final(exchange)@.tx is None,
        final(exchange)@.exhausted == old(exchange)@.exhausted,
        final(exchange)@.server == old(exchange)@.server,
        res matches Ok(HTTPAction::Respond { response }) && match old(exchange)@.tx {
            Some(tx) => {
                &&& response matches Some(made)
                &&& made.tx == tx
                &&& made.status == status
                &&& fields(made.headers) == headers
                &&& made.body matches ResponseBody::Full(bytes)
                &&& bytes@ == content
            },
            None => response is None,
        },
{
    law_message_type(event.kind);
    law_event_body(event.body);
    law_event_more(event.more_body);
    assert(content =~= crate::adapt::event_body(event.body));
}

/// A first part of a body after a head opens the stream: the channel leaves with
/// the status and headers of the head, and the part is the first chunk.
pub proof fn law_send_first_part<T, E>(
    exchange: &mut ASGIHTTPProtocol<T>,
    event: ASGIEvent<E>,
    name: String,
    content: Seq<u8>,
    status: i16,
    headers: Map<Seq<u8>, Seq<Seq<u8>>>,
    res: Result<HTTPAction<T>, ASGIError>,
)
    requires
        call_ensures(ASGIHTTPProtocol::<T>::send::<E>, (exchange, event), res),
        event.kind == Lookup::<Option<String>, E>::Present(Some(name)),
        name@ == "http.response.body"@,
        event.body matches Lookup::Present(Some(bytes)) ==> content == bytes@,
        !(event.body matches Lookup::Present(Some(_))) ==> content.len() == 0,
        event.more_body == Lookup::<Option<bool>, E>::Present(Some(true)),
        old(exchange)@.phase == (Phase::Ready { status, headers }),
    ensures
        final(exchange).wf(),
        final(exchange)@.phase is Streaming,
        final(exchange)@.tx is None,
        final(exchange)@.exhausted == old(exchange)@.exhausted,
        final(exchange)@.server == old(exchange)@.server,
        res matches Ok(HTTPAction::Stream { response, chunk }) && chunk@ == content && match old(
            exchange,
        )@.tx {
            Some(tx) => {
                &&& response matches Some(made)
                &&& made.tx == tx
                &&& made.status == status
                &&& fields(made.headers) == headers
                &&& made.body is Channel
            },
            None => response is None,
        },
{
    law_message_type(event.kind);
    law_event_body(event.body);
    law_event_more(event.more_body);
    assert(content =~= crate::adapt::event_body(event.body));
}

/// While a response streams, every further part is taken, whatever else the state
/// holds: with more to follow it is a chunk of exactly its bytes and changes
/// nothing, and as the last one it ends the stream, as a chunk unless it is empty.
pub proof fn law_send_streamed_part<T, E>(
    exchange: &mut ASGIHTTPProtocol<T>,
    event: ASGIEvent<E>,
    name: String,
    content: Seq<u8>,
    res: Result<HTTPAction<T>, ASGIError>,
)
    requires
        call_ensures(ASGIHTTPProtocol::<T>::send::<E>, (exchange, event), res),
        event.kind == Lookup::<Option<String>, E>::Present(Some(name)),
        name@ == "http.response.body"@,
        event.body matches Lookup::Present(Some(bytes)) ==> content == bytes@,
        !(event.body matches Lookup::Present(Some(_))) ==> content.len() == 0,
        old(exchange)@.phase is Streaming,
    ensures
        final(exchange).wf(),
        event.more_body == Lookup::<Option<bool>, E>::Present(Some(true)) ==> {
            &&& final(exchange)@ == old(exchange)@
            &&& res matches Ok(HTTPAction::Chunk { chunk })
            &&& chunk@ == content
        },
        event.more_body != Lookup::<Option<bool>, E>::Present(Some(true)) ==> {
            &&& final(exchange)@.phase is Ended
            &&& final(exchange)@.tx == old(exchange)@.tx
            &&& final(exchange)@.exhausted == old(exchange)@.exhausted
            &&& final(exchange)@.server == old(exchange)@.server
            &&& res matches Ok(HTTPAction::Finish { last })
            &&& last is None <==> content.len() == 0
            &&& last matches Some(chunk) ==> chunk@ == content
        },
{
    law_message_type(event.kind);
    law_event_body(event.body);
    law_event_more(event.more_body);
    assert(content =~= crate::adapt::event_body(event.body));
}

/// A part of a body before any head, or after the last part, may not come, and
/// changes nothing.
pub proof fn law_send_stray_part<T, E>(
    exchange: &mut ASGIHTTPProtocol<T>,
    event: ASGIEvent<E>,
    name: String,
    res: Result<HTTPAction<T>, ASGIError>,
)
    requires
        call_ensures(ASGIHTTPProtocol::<T>::send::<E>, (exchange, event), res),
        event.kind == Lookup::<Option<String>, E>::Present(Some(name)),
        name@ == "http.response.body"@,
        old(exchange)@.phase is Fresh || old(exchange)@.phase is Ended,
    ensures
        final(exchange).wf(),
        final(exchange)@ == old(exchange)@,
        res == Err::<HTTPAction<T>, ASGIError>(ASGIError::Flow),
{
    law_message_type(event.kind);
}

/// A file after a head is an answer where it has a path and the channel is there:
/// the channel leaves with the path and with the status and headers of the head.
/// In every other case it may not come, and the channel is used up all the same.
pub proof fn law_send_file<T, E>(
    exchange: &mut ASGIHTTPProtocol<T>,
    event: ASGIEvent<E>,
    name: String,
    res: Result<HTTPAction<T>, ASGIError>,
)
    requires
        call_ensures(ASGIHTTPProtocol::<T>::send::<E>, (exchange, event), res),
        event.kind == Lookup::<Option<String>, E>::Present(Some(name)),
        name@ == "http.response.pathsend"@,
    ensures
        final(exchange).wf(),
        final(exchange)@.tx is None,
        final(exchange)@.exhausted == old(exchange)@.exhausted,
        final(exchange)@.server == old(exchange)@.server,
        res is Ok <==> old(exchange)@.phase is Ready && old(exchange)@.tx is Some && (event.path
            matches Lookup::Present(Ok(_))),
        res matches Ok(action) ==> {
            &&& final(exchange)@.phase is Answered
            &&& action matches HTTPAction::File { tx, path, status, headers }
            &&& old(exchange)@.tx == Some(tx)
            &&& event.path matches Lookup::Present(Ok(given))
            &&& path@ == given@
            &&& old(exchange)@.phase == (Phase::Ready { status, headers: fields(headers) })
        },
        res matches Err(err) ==> err == ASGIError::Flow && final(exchange)@.phase == old(
            exchange,
        )@.phase,
{
    law_message_type(event.kind);
    law_event_path(event.path);
}

/// Every event that is none of the three that an exchange knows is no known
/// message, and changes nothing.
pub proof fn law_send_other<T, E>(
    exchange: &mut ASGIHTTPProtocol<T>,
    event: ASGIEvent<E>,
    res: Result<HTTPAction<T>, ASGIError>,
)
    requires
        call_ensures(ASGIHTTPProtocol::<T>::send::<E>, (exchange, event), res),
        event.kind matches Lookup::Present(Some(name)) ==> name@ != "http.response.start"@ && name@
            != "http.response.body"@ && name@ != "http.response.pathsend"@,
    ensures
        final(exchange).wf(),
        final(exchange)@ == old(exchange)@,
        res == Err::<HTTPAction<T>, ASGIError>(ASGIError::Message),
{
    law_message_type(event.kind);
}

/// `accepts` says no to three things alone: a head that would be kept but has a
/// pair without its two parts, a body after a whole answer, and a body that would
/// answer with a status outside 100 to 999. To whatever it says yes, `send` can be
/// called with.
pub proof fn law_accepts<T, E>(exchange: &mut ASGIHTTPProtocol<T>, event: ASGIEvent<E>, res: bool)
    requires
        call_ensures(ASGIHTTPProtocol::<T>::accepts::<E>, (&*old(exchange), &event), res),
        old(exchange).wf(),
    ensures
        res ==> call_requires(ASGIHTTPProtocol::<T>::send::<E>, (exchange, event)),
        !res <==> (event.kind matches Lookup::Present(Some(name)) && {
            ||| {
                &&& name@ == "http.response.start"@
                &&& old(exchange)@.phase is Fresh
                &&& event.status matches Lookup::Present(Some(_))
                &&& event.headers matches Lookup::Present(Some(pairs))
                &&& exists|i: int| 0 <= i < pairs@.len() && (#[trigger] pairs@[i])@.len() < 2
            }
            ||| name@ == "http.response.body"@ && old(exchange)@.phase is Answered
            ||| {
                &&& name@ == "http.response.body"@
                &&& old(exchange)@.tx is Some
                &&& old(exchange)@.phase matches Phase::Ready { status, .. }
                &&& status < 100 || status > 999
            }
        }),
{
    law_message_type(event.kind);
    law_header_pairs(event.headers);
    if let Lookup::Present(code) = event.status {
        if let Some(code) = code {
            law_event_status(code, event.status);
        }
    }
    if crate::adapt::event_status(event.status) is Some {
        law_event_status(crate::adapt::event_status(event.status)->0, event.status);
    }
    if let Lookup::Present(Some(pairs)) = event.headers {
        assert(header_pairs(event.headers) == pairs@);
        assert(!crate::headers::pairs_complete(pairs@) <==> exists|i: int|
            0 <= i < pairs@.len() && (#[trigger] pairs@[i])@.len() < 2);
    }
    assert(res == http_accepts(old(exchange)@, event));
}

/// A response is made where the channel is there: the channel leaves with the very
/// status, headers and body that are given. Without it nothing is made. Either
/// way nothing but the channel changes, and without it any status will do.
pub proof fn law_send_response<T>(
    exchange: &mut ASGIHTTPProtocol<T>,
    status: i16,
    headers: HeaderMap<HeaderValue>,
    body: ResponseBody,
    res: Option<HTTPResponse<T>>,
)
    requires
        call_ensures(
            ASGIHTTPProtocol::<T>::send_response,
            (exchange, status, headers, body),
            res,
        ),
        old(exchange).wf(),
    ensures
        old(exchange)@.tx is None || 100 <= status <= 999 ==> call_requires(
            ASGIHTTPProtocol::<T>::send_response,
            (exchange, status, headers, body),
        ),
        final(exchange).wf(),
        final(exchange)@ == (HTTPState { tx: None, ..old(exchange)@ }),
        res is Some <==> old(exchange)@.tx is Some,
        res matches Some(made) ==> {
            &&& old(exchange)@.tx == Some(made.tx)
            &&& made.status == status
            &&& fields(made.headers) == fields(headers)
            &&& body is Channel <==> made.body is Channel
            &&& body matches ResponseBody::Full(given) ==> (made.body matches ResponseBody::Full(
                bytes,
            ) && bytes@ == given@)
        },
{
}

/// The channel is given away as it is, once, and nothing else changes.
pub proof fn law_tx<T>(exchange: &mut ASGIHTTPProtocol<T>, res: Option<T>)
    requires
        call_ensures(ASGIHTTPProtocol::<T>::tx, (exchange,), res),
    ensures
        final(exchange).wf(),
        res == old(exchange)@.tx,
        final(exchange)@.tx is None,
        final(exchange)@.phase == old(exchange)@.phase,
        final(exchange)@.exhausted == old(exchange)@.exhausted,
        final(exchange)@.server == old(exchange)@.server,
{
}

/// The disconnect is awaited exactly once the request body is exhausted; until
/// then the body is read.
pub proof fn law_receive<T>(
    exchange: ASGIHTTPProtocol<T>,
    res: HTTPReceive,
    event: ReceiveEvent,
)
    requires
        call_ensures(ASGIHTTPProtocol::<T>::receive, (&exchange,), res),
        call_ensures(ASGIHTTPProtocol::<T>::receive_disconnect, (), event),
    ensures
        res is AwaitDisconnect <==> exchange@.exhausted,
        res is ReadBody <==> !exchange@.exhausted,
        event is HTTPDisconnect,
{
}

/// A read hands the application its bytes, all of them and no others, and says
/// that more follows unless it came to the end, which exhausts the request body.
/// Nothing else changes.
pub proof fn law_receive_body<T>(
    exchange: &mut ASGIHTTPProtocol<T>,
    read: BodyRead,
    res: ReceiveEvent,
)
    requires
        call_ensures(ASGIHTTPProtocol::<T>::receive_body, (exchange, read), res),
    ensures
        final(exchange).wf(),
        final(exchange)@.tx == old(exchange)@.tx,
        final(exchange)@.phase == old(exchange)@.phase,
        final(exchange)@.server == old(exchange)@.server,
        final(exchange)@.exhausted <==> old(exchange)@.exhausted || read is End,
        res matches ReceiveEvent::HTTPRequest { body, more_body } && {
            &&& more_body <==> !(read is End)
            &&& read matches BodyRead::Data(bytes) ==> body@ == bytes@
            &&& !(read is Data) ==> body@.len() == 0
        },
{
}

/// A well-formed exchange takes every question and every read.
pub proof fn law_takes_calls<T>(exchange: &mut ASGIHTTPProtocol<T>, read: BodyRead)
    requires
        old(exchange).wf(),
    ensures
        call_requires(ASGIHTTPProtocol::<T>::receive_body, (exchange, read)),
        call_requires(ASGIHTTPProtocol::<T>::tx, (exchange,)),
        call_requires(ASGIHTTPProtocol::<T>::receive, (&*old(exchange),)),
{
}

/// The application learns of a chunk that was not taken, and of that alone.
pub proof fn law_send_body<T>(sent: bool, res: Result<(), ASGIError>)
    requires
        call_ensures(ASGIHTTPProtocol::<T>::send_body, (sent,), res),
    ensures
        res is Ok <==> sent,
        res matches Err(err) ==> err == ASGIError::Transport,
{
}

/// A response may carry exactly the statuses from 100 to 999.
pub proof fn law_valid_status(status: i16, res: bool)
    requires
        call_ensures(valid_status, (status,), res),
    ensures
        res <==> 100 <= status <= 999,
{
}

/// A file that opens is answered with the very status and headers of the head,
/// and one that does not with the refusal.
pub proof fn law_file_reply(
    status: i16,
    headers: HeaderMap<HeaderValue>,
    opened: bool,
    res: FileReply,
)
    requires
        call_ensures(file_reply, (status, headers, opened), res),
        opened ==> 100 <= status <= 999,
    ensures
        call_requires(file_reply, (status, headers, opened)),
        res is Opened <==> opened,
        res matches FileReply::Opened { status: sent, headers: table } ==> sent == status
            && fields(table) == fields(headers),
{
}

} // verus!
