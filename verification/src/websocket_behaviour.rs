//! What each call on a websocket does, told by its arguments and results.

use vstd::prelude::*;

use crate::adapt_laws::law_message_type;
use crate::message::{outgoing, Message, MessageView, ReceiveEvent};
use crate::message_laws::law_outgoing;
use crate::types::{ASGIError, ASGIEvent, BytesItem, Lookup, SendError, TextItem};
use crate::websocket::{
    ASGIWebsocketProtocol, Handshake, WSAction, WSRead, WSReceive, WSState,
    WebsocketDetachedTransport,
};

verus! {

/// A detached transport holds what it is made of, and closing it takes both halves
/// out for good.
pub proof fn law_transport<R, S>(
    consumed: bool,
    rx: Option<R>,
    tx: Option<S>,
    made: WebsocketDetachedTransport<R, S>,
    transport: &mut WebsocketDetachedTransport<R, S>,
    taken: (Option<S>, Option<R>),
)
    requires
        call_ensures(WebsocketDetachedTransport::<R, S>::new, (consumed, rx, tx), made),
        call_ensures(WebsocketDetachedTransport::<R, S>::close, (transport,), taken),
    ensures
        made.consumed == consumed,
        made.rx == rx,
        made.tx == tx,
        taken.0 == old(transport).tx,
        taken.1 == old(transport).rx,
        final(transport).tx is None,
        final(transport).rx is None,
        final(transport).consumed == old(transport).consumed,
{
}

/// A new websocket holds its channel, its upgrade and the websocket behind it, and
/// is neither accepted nor closed.
pub proof fn law_ws_new<T, W, U, R, S>(
    tx: T,
    websocket: W,
    upgrade: U,
    res: ASGIWebsocketProtocol<T, W, U, R, S>,
)
    requires
        call_ensures(
            ASGIWebsocketProtocol::<T, W, U, R, S>::new,
            (tx, websocket, upgrade),
            res,
        ),
    ensures
        res.wf(),
        res@.tx == Some(tx),
        res@.websocket == Some(websocket),
        res@.upgrade == Some(upgrade),
        res@.ws_rx is None,
        res@.ws_tx is None,
        !res@.accepted,
        !res@.closed,
{
}

/// Accepting hands out the upgrade and the websocket that were there, exactly where
/// the upgrade was; neither is there afterwards, and nothing else changes.
pub proof fn law_accept<T, W, U, R, S>(
    socket: &mut ASGIWebsocketProtocol<T, W, U, R, S>,
    res: Result<Handshake<W, U>, ASGIError>,
)
    requires
        call_ensures(ASGIWebsocketProtocol::<T, W, U, R, S>::accept, (socket,), res),
    ensures
        final(socket).wf(),
        final(socket)@ == (WSState { upgrade: None, websocket: None, ..old(socket)@ }),
        res is Ok <==> old(socket)@.upgrade is Some,
        res matches Ok(handshake) ==> old(socket)@.upgrade == Some(handshake.upgrade) && old(
            socket,
        )@.websocket == handshake.websocket,
        res matches Err(err) ==> err == ASGIError::Flow,
{
}

/// The handshake goes on with its websocket exactly where the upgrade was sent and
/// there is one.
pub proof fn law_accept_upgraded<T, W, U, R, S>(
    sent: bool,
    websocket: Option<W>,
    res: Result<W, ASGIError>,
)
    requires
        call_ensures(
            ASGIWebsocketProtocol::<T, W, U, R, S>::accept_upgraded,
            (sent, websocket),
            res,
        ),
    ensures
        res is Ok <==> sent && websocket is Some,
        res matches Ok(next) ==> websocket == Some(next),
        res matches Err(err) ==> err == ASGIError::Flow,
{
}

/// The handshake ends well exactly where it has given the two halves, which are
/// then kept; otherwise nothing changes. It can end once it has begun.
pub proof fn law_accept_connected<T, W, U, R, S>(
    socket: &mut ASGIWebsocketProtocol<T, W, U, R, S>,
    halves: Option<(S, R)>,
    res: Result<(), ASGIError>,
)
    requires
        call_ensures(
            ASGIWebsocketProtocol::<T, W, U, R, S>::accept_connected,
            (socket, halves),
            res,
        ),
    ensures
        old(socket).wf() && old(socket)@.upgrade is None && !old(socket)@.accepted
            ==> call_requires(
            ASGIWebsocketProtocol::<T, W, U, R, S>::accept_connected,
            (socket, halves),
        ),
        final(socket).wf(),
        res is Ok <==> halves is Some,
        res matches Err(err) ==> err == ASGIError::Flow && final(socket)@ == old(socket)@,
        halves matches Some((sink, stream)) ==> final(socket)@ == (WSState {
            ws_tx: Some(sink),
            ws_rx: Some(stream),
            accepted: true,
            ..old(socket)@
        }),
{
}

/// A message goes out exactly where it is one and the sending half is there, and
/// holds what the event does. What is wrong with the event itself is told first.
pub proof fn law_send_message<T, W, U, R, S, E>(
    socket: ASGIWebsocketProtocol<T, W, U, R, S>,
    bytes: Lookup<BytesItem, E>,
    text: Lookup<TextItem, E>,
    res: Result<Message, SendError<E>>,
)
    requires
        call_ensures(
            ASGIWebsocketProtocol::<T, W, U, R, S>::send_message::<E>,
            (&socket, bytes, text),
            res,
        ),
    ensures
        match outgoing(bytes, text) {
            Err(err) => res == Err::<Message, SendError<E>>(err),
            Ok(_) => res is Ok <==> socket@.ws_tx is Some,
        },
        outgoing(bytes, text) is Ok && socket@.ws_tx is None ==> res == Err::<
            Message,
            SendError<E>,
        >(SendError::ASGI(ASGIError::Flow)),
        res matches Ok(message) ==> match outgoing(bytes, text) {
            Ok(MessageView::Binary(content)) => message matches Message::Binary(sent) && sent@
                == content,
            Ok(MessageView::Text(content)) => message matches Message::Text(sent) && sent@
                == content,
            _ => false,
        },
{
    law_outgoing(bytes, text);
}

/// The application learns of a failed send exactly where the websocket has not been
/// closed.
pub proof fn law_message_sent<T, W, U, R, S>(
    socket: ASGIWebsocketProtocol<T, W, U, R, S>,
    sent: bool,
    res: Result<(), ASGIError>,
)
    requires
        call_ensures(
            ASGIWebsocketProtocol::<T, W, U, R, S>::message_sent,
            (&socket, sent),
            res,
        ),
    ensures
        res is Err <==> !sent && !socket@.closed,
        res matches Err(err) ==> err == ASGIError::Flow,
{
}

/// Closing succeeds exactly where the sending half is there, whether or not the
/// client has closed before. It hands both halves out, marks the websocket as
/// closed and changes nothing else; where it fails nothing changes.
pub proof fn law_close<T, W, U, R, S>(
    socket: &mut ASGIWebsocketProtocol<T, W, U, R, S>,
    res: Result<WebsocketDetachedTransport<R, S>, ASGIError>,
)
    requires
        call_ensures(ASGIWebsocketProtocol::<T, W, U, R, S>::close, (socket,), res),
    ensures
        final(socket).wf(),
        res is Ok <==> old(socket)@.ws_tx is Some,
        res matches Ok(transport) ==> {
            &&& transport.consumed
            &&& transport.tx == old(socket)@.ws_tx
            &&& transport.rx == old(socket)@.ws_rx
            &&& final(socket)@ == (WSState {
                ws_tx: None,
                ws_rx: None,
                closed: true,
                ..old(socket)@
            })
        },
        res matches Err(err) ==> err == ASGIError::Flow && final(socket)@ == old(socket)@,
{
}

/// What can be asked of a websocket is what its state holds.
pub proof fn law_ws_getters<T, W, U, R, S>(
    socket: ASGIWebsocketProtocol<T, W, U, R, S>,
    consumed: bool,
    accepted: bool,
    stream: Option<&R>,
    sink: Option<&S>,
)
    requires
        call_ensures(ASGIWebsocketProtocol::<T, W, U, R, S>::consumed, (&socket,), consumed),
        call_ensures(ASGIWebsocketProtocol::<T, W, U, R, S>::accepted, (&socket,), accepted),
        call_ensures(ASGIWebsocketProtocol::<T, W, U, R, S>::ws_rx, (&socket,), stream),
        call_ensures(ASGIWebsocketProtocol::<T, W, U, R, S>::ws_tx, (&socket,), sink),
    ensures
        consumed <==> socket@.upgrade is None,
        accepted <==> socket@.accepted,
        stream is Some <==> socket@.ws_rx is Some,
        stream matches Some(half) ==> socket@.ws_rx == Some(*half),
        sink is Some <==> socket@.ws_tx is Some,
        sink matches Some(half) ==> socket@.ws_tx == Some(*half),
{
}

/// The channel is given away with whatever halves there are, and with whether the
/// upgrade was used; channel and halves are gone afterwards, and nothing else
/// changes.
pub proof fn law_ws_tx<T, W, U, R, S>(
    socket: &mut ASGIWebsocketProtocol<T, W, U, R, S>,
    res: (Option<T>, WebsocketDetachedTransport<R, S>),
)
    requires
        call_ensures(ASGIWebsocketProtocol::<T, W, U, R, S>::tx, (socket,), res),
    ensures
        final(socket).wf(),
        res.0 == old(socket)@.tx,
        res.1.consumed <==> old(socket)@.upgrade is None,
        res.1.rx == old(socket)@.ws_rx,
        res.1.tx == old(socket)@.ws_tx,
        final(socket)@ == (WSState { tx: None, ws_rx: None, ws_tx: None, ..old(socket)@ }),
{
}

/// An application gets the connect event until the websocket is accepted. From then
/// on the websocket is read while its receiving half is there, closed or not.
pub proof fn law_ws_receive<T, W, U, R, S>(
    socket: ASGIWebsocketProtocol<T, W, U, R, S>,
    res: Result<WSReceive, ASGIError>,
)
    requires
        call_ensures(ASGIWebsocketProtocol::<T, W, U, R, S>::receive, (&socket,), res),
    ensures
        !socket@.accepted <==> (res matches Ok(WSReceive::Event(event)) && event is WSConnect),
        socket@.accepted && socket@.ws_rx is Some <==> (res matches Ok(WSReceive::Read)),
        socket@.accepted && socket@.ws_rx is None <==> res == Err::<WSReceive, ASGIError>(
            ASGIError::Flow,
        ),
{
}

/// A read gives the application the content of a text or binary message and the
/// code of a close message, which marks the websocket as closed. A ping asks for
/// another read; whatever else comes may not. Nothing else changes.
pub proof fn law_receive_message<T, W, U, R, S>(
    socket: &mut ASGIWebsocketProtocol<T, W, U, R, S>,
    read: WSRead,
    res: Option<Result<ReceiveEvent, ASGIError>>,
)
    requires
        call_ensures(
            ASGIWebsocketProtocol::<T, W, U, R, S>::receive_message,
            (socket, read),
            res,
        ),
    ensures
        final(socket).wf(),
        final(socket)@ == (WSState { closed: final(socket)@.closed, ..old(socket)@ }),
        final(socket)@.closed <==> old(socket)@.closed || (read matches WSRead::Message(
            Message::Close(_),
        )),
        res is None <==> (read matches WSRead::Message(Message::Ping(_))),
        read matches WSRead::Message(Message::Binary(bytes)) ==> (res matches Some(
            Ok(ReceiveEvent::WSBytes(got)),
        ) && got@ == bytes@),
        read matches WSRead::Message(Message::Text(text)) ==> (res matches Some(
            Ok(ReceiveEvent::WSText(got)),
        ) && got@ == text@),
        read matches WSRead::Message(Message::Close(Some(code))) ==> res == Some(
            Ok::<ReceiveEvent, ASGIError>(ReceiveEvent::WSDisconnect(code)),
        ),
        read == WSRead::Message(Message::Close(None)) ==> res == Some(
            Ok::<ReceiveEvent, ASGIError>(ReceiveEvent::WSDisconnect(1005)),
        ),
        read is End || read is Failed || (read matches WSRead::Message(Message::Pong(_))) || read
            == WSRead::Message(Message::Frame) ==> res == Some(
            Err::<ReceiveEvent, ASGIError>(ASGIError::Flow),
        ),
{
}

/// An accept event begins the handshake exactly where the upgrade is there, and
/// takes it and the websocket out.
pub proof fn law_ws_send_accept<T, W, U, R, S, E>(
    socket: &mut ASGIWebsocketProtocol<T, W, U, R, S>,
    event: ASGIEvent<E>,
    name: String,
    res: Result<WSAction<W, U, R, S>, SendError<E>>,
)
    requires
        call_ensures(
            ASGIWebsocketProtocol::<T, W, U, R, S>::send::<E>,
            (socket, event),
            res,
        ),
        event.kind == Lookup::<Option<String>, E>::Present(Some(name)),
        name@ == "websocket.accept"@,
    ensures
        final(socket).wf(),
        final(socket)@ == (WSState { upgrade: None, websocket: None, ..old(socket)@ }),
        res is Ok <==> old(socket)@.upgrade is Some,
        res matches Ok(action) ==> {
            &&& action matches WSAction::Accept(handshake)
            &&& old(socket)@.upgrade == Some(handshake.upgrade)
            &&& old(socket)@.websocket == handshake.websocket
        },
        res matches Err(err) ==> err == SendError::<E>::ASGI(ASGIError::Flow),
{
    law_message_type(event.kind);
}

/// A close event succeeds exactly where the sending half is there, whether or not
/// the client has closed before: both halves come out, to be closed, and the
/// websocket is marked as closed. Otherwise nothing changes.
pub proof fn law_ws_send_close<T, W, U, R, S, E>(
    socket: &mut ASGIWebsocketProtocol<T, W, U, R, S>,
    event: ASGIEvent<E>,
    name: String,
    res: Result<WSAction<W, U, R, S>, SendError<E>>,
)
    requires
        call_ensures(
            ASGIWebsocketProtocol::<T, W, U, R, S>::send::<E>,
            (socket, event),
            res,
        ),
        event.kind == Lookup::<Option<String>, E>::Present(Some(name)),
        name@ == "websocket.close"@,
    ensures
        final(socket).wf(),
        res is Ok <==> old(socket)@.ws_tx is Some,
        res matches Ok(action) ==> {
            &&& action matches WSAction::Close(transport)
            &&& transport.consumed
            &&& transport.tx == old(socket)@.ws_tx
            &&& transport.rx == old(socket)@.ws_rx
            &&& final(socket)@ == (WSState {
                ws_tx: None,
                ws_rx: None,
                closed: true,
                ..old(socket)@
            })
        },
        res matches Err(err) ==> err == SendError::<E>::ASGI(ASGIError::Flow) && final(socket)@
            == old(socket)@,
{
    law_message_type(event.kind);
}

/// A message event sends its content exactly where it has one and the sending half
/// is there, closed or not, and changes nothing.
pub proof fn law_ws_send_message<T, W, U, R, S, E>(
    socket: &mut ASGIWebsocketProtocol<T, W, U, R, S>,
    event: ASGIEvent<E>,
    name: String,
    res: Result<WSAction<W, U, R, S>, SendError<E>>,
)
    requires
        call_ensures(
            ASGIWebsocketProtocol::<T, W, U, R, S>::send::<E>,
            (socket, event),
            res,
        ),
        event.kind == Lookup::<Option<String>, E>::Present(Some(name)),
        name@ == "websocket.send"@,
    ensures
        final(socket).wf(),
        final(socket)@ == old(socket)@,
        match outgoing(event.bytes, event.text) {
            Err(err) => res == Err::<WSAction<W, U, R, S>, SendError<E>>(err),
            Ok(content) => if old(socket)@.ws_tx is Some {
                &&& res matches Ok(WSAction::Send(message))
                &&& content matches MessageView::Binary(bytes) ==> (message matches
                    Message::Binary(sent) && sent@ == bytes)
                &&& content matches MessageView::Text(text) ==> (message matches Message::Text(
                    sent,
                ) && sent@ == text)
                &&& content is Binary || content is Text
            } else {
                res == Err::<WSAction<W, U, R, S>, SendError<E>>(
                    SendError::ASGI(ASGIError::Flow),
                )
            },
        },
{
    law_message_type(event.kind);
    law_outgoing(event.bytes, event.text);
}

/// Every event that is none of the three that a websocket knows is no known
/// message, and changes nothing.
pub proof fn law_ws_send_other<T, W, U, R, S, E>(
    socket: &mut ASGIWebsocketProtocol<T, W, U, R, S>,
    event: ASGIEvent<E>,
    res: Result<WSAction<W, U, R, S>, SendError<E>>,
)
    requires
        call_ensures(
            ASGIWebsocketProtocol::<T, W, U, R, S>::send::<E>,
            (socket, event),
            res,
        ),
        event.kind matches Lookup::Present(Some(name)) ==> name@ != "websocket.accept"@ && name@
            != "websocket.close"@ && name@ != "websocket.send"@,
    ensures
        final(socket).wf(),
        final(socket)@ == old(socket)@,
        res == Err::<WSAction<W, U, R, S>, SendError<E>>(SendError::ASGI(ASGIError::Message)),
{
    law_message_type(event.kind);
}

/// A well-formed websocket takes every call: no event, read or question needs more.
pub proof fn law_ws_takes_calls<T, W, U, R, S, E>(
    socket: &mut ASGIWebsocketProtocol<T, W, U, R, S>,
    event: ASGIEvent<E>,
    read: WSRead,
)
    requires
        old(socket).wf(),
    ensures
        call_requires(ASGIWebsocketProtocol::<T, W, U, R, S>::send::<E>, (socket, event)),
        call_requires(ASGIWebsocketProtocol::<T, W, U, R, S>::receive_message, (socket, read)),
        call_requires(ASGIWebsocketProtocol::<T, W, U, R, S>::accept, (socket,)),
        call_requires(ASGIWebsocketProtocol::<T, W, U, R, S>::close, (socket,)),
        call_requires(ASGIWebsocketProtocol::<T, W, U, R, S>::tx, (socket,)),
        call_requires(ASGIWebsocketProtocol::<T, W, U, R, S>::receive, (&*old(socket),)),
{
}

} // verus!
