//! The websocket side: a handshake, then messages both ways.

use vstd::prelude::*;

use crate::adapt::{adapt_message_type, message_type};
use crate::message::{
    event_view, incoming, message_view, outgoing, ws_message_into_py, ws_message_into_rs, Message,
    MessageView, ReceiveEvent, ReceiveEventView,
};
use crate::types::{
    ASGIError, ASGIEvent, ASGIMessageType, BytesItem, Lookup, SendError, TextItem,
};

verus! {

/// The two halves of a websocket that has left its protocol.
#[derive(Debug, PartialEq, Eq)]
pub struct WebsocketDetachedTransport<R, S> {
    /// Whether the protocol had used its upgrade.
    pub consumed: bool,
    /// The receiving half.
    pub rx: Option<R>,
    /// The sending half.
    pub tx: Option<S>,
}

impl<R, S> WebsocketDetachedTransport<R, S> {
    /// Puts the halves together.
    pub fn new(consumed: bool, rx: Option<R>, tx: Option<S>) -> (res: Self)
        ensures
            res == (WebsocketDetachedTransport { consumed, rx, tx }),
    {
        WebsocketDetachedTransport { consumed, rx, tx }
    }

    /// Takes both halves out: the sending half, which is to be closed, and then
    /// the receiving half, which is to be dropped.
    pub fn close(&mut self) -> (res: (Option<S>, Option<R>))
        ensures
            res == (old(self).tx, old(self).rx),
            *final(self) == (WebsocketDetachedTransport {
                consumed: old(self).consumed,
                rx: None::<R>,
                tx: None::<S>,
            }),
    {
        let tx = self.tx.take();
        let rx = self.rx.take();
        (tx, rx)
    }
}

/// What accepting a websocket begins with: the upgrade that is to be sent, and
/// the websocket that is to be awaited once it has been.
#[derive(Debug, PartialEq, Eq)]
pub struct Handshake<W, U> {
    pub upgrade: U,
    pub websocket: Option<W>,
}

/// What is to be done about an event that was accepted.
#[derive(Debug, PartialEq, Eq)]
pub enum WSAction<W, U, R, S> {
    /// Go through the handshake.
    Accept(Handshake<W, U>),
    /// Close the websocket.
    Close(WebsocketDetachedTransport<R, S>),
    /// Send the message.
    Send(Message),
}

/// What a request for the next event calls for.
#[derive(Debug, PartialEq, Eq)]
pub enum WSReceive {
    /// Nothing: here is the event.
    Event(ReceiveEvent),
    /// Read the websocket.
    Read,
}

/// What reading the websocket gave.
#[derive(Debug, PartialEq, Eq)]
pub enum WSRead {
    /// The websocket is at its end.
    End,
    /// The read failed.
    Failed,
    /// A message.
    Message(Message),
}

/// What reading the websocket gave, by its content.
pub enum WSReadView {
    End,
    Failed,
    Message(MessageView),
}

impl View for WSRead {
    type V = WSReadView;

    open spec fn view(&self) -> WSReadView {
        match self {
            WSRead::End => WSReadView::End,
            WSRead::Failed => WSReadView::Failed,
            WSRead::Message(message) => WSReadView::Message(message@),
        }
    }
}

/// The state of a websocket.
pub struct WSState<T, W, U, R, S> {
    /// The channel for the detached transport, until it is used.
    pub tx: Option<T>,
    /// The websocket that is to be awaited, until it is.
    pub websocket: Option<W>,
    /// The upgrade that is to be sent, until it is.
    pub upgrade: Option<U>,
    /// The receiving half, while it is here.
    pub ws_rx: Option<R>,
    /// The sending half, while it is here.
    pub ws_tx: Option<S>,
    /// Whether the handshake has come to its end.
    pub accepted: bool,
    /// Whether one side has closed the websocket.
    pub closed: bool,
}

/// The states that a websocket can be in: there are no halves before the
/// handshake, and no handshake after it.
pub open spec fn ws_valid<T, W, U, R, S>(state: WSState<T, W, U, R, S>) -> bool {
    &&& state.upgrade is None <==> state.websocket is None
    &&& state.accepted ==> state.upgrade is None
    &&& state.ws_rx is Some || state.ws_tx is Some ==> state.accepted
}

/// The state without its upgrade and its websocket.
pub open spec fn after_accept<T, W, U, R, S>(state: WSState<T, W, U, R, S>) -> WSState<
    T,
    W,
    U,
    R,
    S,
> {
    WSState { upgrade: None, websocket: None, ..state }
}

/// The state once the handshake has given the two halves.
pub open spec fn after_connect<T, W, U, R, S>(
    state: WSState<T, W, U, R, S>,
    sink: S,
    stream: R,
) -> WSState<T, W, U, R, S> {
    WSState { ws_tx: Some(sink), ws_rx: Some(stream), accepted: true, ..state }
}

/// The state once this side has closed the websocket.
pub open spec fn after_close<T, W, U, R, S>(state: WSState<T, W, U, R, S>) -> WSState<
    T,
    W,
    U,
    R,
    S,
> {
    WSState { ws_tx: None, ws_rx: None, closed: true, ..state }
}

/// The state after a read: a close message closes the websocket.
pub open spec fn after_ws_read<T, W, U, R, S>(
    state: WSState<T, W, U, R, S>,
    read: WSReadView,
) -> WSState<T, W, U, R, S> {
    WSState {
        closed: state.closed || read matches WSReadView::Message(MessageView::Close(_)),
        ..state
    }
}

/// What a read comes to: nothing yet where it is a ping.
pub open spec fn ws_read_result(read: WSReadView) -> Option<Result<ReceiveEventView, ASGIError>> {
    match read {
        WSReadView::Message(MessageView::Ping(_)) => None,
        WSReadView::Message(message) => match incoming(message) {
            Some(event) => Some(Ok(event)),
            None => Some(Err(ASGIError::Flow)),
        },
        _ => Some(Err(ASGIError::Flow)),
    }
}

/// What an event to be sent does to a websocket, and what comes of it: for a
/// message its content, for the rest what is handed out.
pub enum WSActionView<W, U, R, S> {
    Accept(Handshake<W, U>),
    Close(WebsocketDetachedTransport<R, S>),
    Send(MessageView),
}

/// Accepting takes the upgrade and the websocket, and needs the upgrade.
pub open spec fn on_accept<T, W, U, R, S, E>(state: WSState<T, W, U, R, S>) -> (
    WSState<T, W, U, R, S>,
    Result<WSActionView<W, U, R, S>, SendError<E>>,
) {
    (
        after_accept(state),
        match state.upgrade {
            Some(upgrade) => Ok(
                WSActionView::Accept(Handshake { upgrade, websocket: state.websocket }),
            ),
            None => Err(SendError::ASGI(ASGIError::Flow)),
        },
    )
}

/// Closing needs the sending half.
pub open spec fn on_close<T, W, U, R, S, E>(state: WSState<T, W, U, R, S>) -> (
    WSState<T, W, U, R, S>,
    Result<WSActionView<W, U, R, S>, SendError<E>>,
) {
    match state.ws_tx {
        Some(tx) => (
            after_close(state),
            Ok(
                WSActionView::Close(
                    WebsocketDetachedTransport { consumed: true, rx: state.ws_rx, tx: Some(tx) },
                ),
            ),
        ),
        None => (state, Err(SendError::ASGI(ASGIError::Flow))),
    }
}

/// Sending needs a message and the sending half.
pub open spec fn on_message<T, W, U, R, S, E>(
    state: WSState<T, W, U, R, S>,
    bytes: Lookup<BytesItem, E>,
    text: Lookup<TextItem, E>,
) -> (WSState<T, W, U, R, S>, Result<WSActionView<W, U, R, S>, SendError<E>>) {
    (
        state,
        match outgoing(bytes, text) {
            Ok(message) => if state.ws_tx is Some {
                Ok(WSActionView::Send(message))
            } else {
                Err(SendError::ASGI(ASGIError::Flow))
            },
            Err(err) => Err(err),
        },
    )
}

/// What an event does to a websocket, and what comes of it.
pub open spec fn ws_step<T, W, U, R, S, E>(
    state: WSState<T, W, U, R, S>,
    event: ASGIEvent<E>,
) -> (WSState<T, W, U, R, S>, Result<WSActionView<W, U, R, S>, SendError<E>>) {
    match message_type(event.kind) {
        Some(ASGIMessageType::WSAccept) => on_accept(state),
        Some(ASGIMessageType::WSClose) => on_close(state),
        Some(ASGIMessageType::WSMessage) => on_message(state, event.bytes, event.text),
        _ => (state, Err(SendError::ASGI(ASGIError::Message))),
    }
}

/// An action that was handed out, by its content.
pub open spec fn ws_action_view<W, U, R, S, E>(
    res: Result<WSAction<W, U, R, S>, SendError<E>>,
) -> Result<WSActionView<W, U, R, S>, SendError<E>> {
    match res {
        Ok(WSAction::Accept(handshake)) => Ok(WSActionView::Accept(handshake)),
        Ok(WSAction::Close(transport)) => Ok(WSActionView::Close(transport)),
        Ok(WSAction::Send(message)) => Ok(WSActionView::Send(message@)),
        Err(err) => Err(err),
    }
}

/// One websocket. `T` is the channel by which the transport leaves, `U` the
/// upgrade that answers the client, `W` the websocket that follows it, `R` and
/// `S` the two halves of that: the receiving one and the sending one.
pub struct ASGIWebsocketProtocol<T, W, U, R, S> {
    tx: Option<T>,
    websocket: Option<W>,
    upgrade: Option<U>,
    ws_rx: Option<R>,
    ws_tx: Option<S>,
    accepted: bool,
    closed: bool,
}

impl<T, W, U, R, S> View for ASGIWebsocketProtocol<T, W, U, R, S> {
    type V = WSState<T, W, U, R, S>;

    closed spec fn view(&self) -> WSState<T, W, U, R, S> {
        WSState {
            tx: self.tx,
            websocket: self.websocket,
            upgrade: self.upgrade,
            ws_rx: self.ws_rx,
            ws_tx: self.ws_tx,
            accepted: self.accepted,
            closed: self.closed,
        }
    }
}

impl<T, W, U, R, S> ASGIWebsocketProtocol<T, W, U, R, S> {
    /// The websocket is in a state that it can be in.
    pub open spec fn wf(&self) -> bool {
        ws_valid(self@)
    }

    /// A websocket that waits for its handshake.
    pub fn new(tx: T, websocket: W, upgrade: U) -> (res: Self)
        ensures
            res.wf(),
            res@ == (WSState {
                tx: Some(tx),
                websocket: Some(websocket),
                upgrade: Some(upgrade),
                ws_rx: None::<R>,
                ws_tx: None::<S>,
                accepted: false,
                closed: false,
            }),
    {
        ASGIWebsocketProtocol {
            tx: Some(tx),
            websocket: Some(websocket),
            upgrade: Some(upgrade),
            ws_rx: None,
            ws_tx: None,
            accepted: false,
            closed: false,
        }
    }

    /// Begins the handshake.
    pub fn accept(&mut self) -> (res: Result<Handshake<W, U>, ASGIError>)
        requires
            old(self).wf(),
        ensures
            final(self).wf(),
            final(self)@ == after_accept(old(self)@),
            res == match old(self)@.upgrade {
                Some(upgrade) => Ok::<Handshake<W, U>, ASGIError>(
                    Handshake { upgrade, websocket: old(self)@.websocket },
                ),
                None => Err(ASGIError::Flow),
            },
    {
        let upgrade = self.upgrade.take();
        let websocket = self.websocket.take();
        match upgrade {
            Some(upgrade) => Ok(Handshake { upgrade, websocket }),
            None => Err(ASGIError::Flow),
        }
    }

    /// Goes on with the handshake once sending the upgrade has been tried: gives
    /// the websocket that is to be awaited.
    pub fn accept_upgraded(sent: bool, websocket: Option<W>) -> (res: Result<W, ASGIError>)
        ensures
            res == match websocket {
                Some(websocket) => if sent {
                    Ok::<W, ASGIError>(websocket)
                } else {
                    Err(ASGIError::Flow)
                },
                None => Err(ASGIError::Flow),
            },
    {
        if sent {
            if let Some(websocket) = websocket {
                return Ok(websocket);
            }
        }
        Err(ASGIError::Flow)
    }

    /// Ends the handshake once the websocket has been awaited: keeps its halves,
    /// where it has given them. The handshake must have begun and not be over.
    pub fn accept_connected(&mut self, halves: Option<(S, R)>) -> (res: Result<(), ASGIError>)
        requires
            old(self).wf(),
            old(self)@.upgrade is None,
            !old(self)@.accepted,
        ensures
            final(self).wf(),
            match halves {
                Some((sink, stream)) => {
                    &&& final(self)@ == after_connect(old(self)@, sink, stream)
                    &&& res == Ok::<(), ASGIError>(())
                },
                None => {
                    &&& final(self)@ == old(self)@
                    &&& res == Err::<(), ASGIError>(ASGIError::Flow)
                },
            },
    {
        match halves {
            Some((sink, stream)) => {
                self.ws_tx = Some(sink);
                self.ws_rx = Some(stream);
                self.accepted = true;
                Ok(())
            },
            None => Err(ASGIError::Flow),
        }
    }

    /// Decides on a message that is to be sent.
    pub fn send_message<E>(&self, bytes: Lookup<BytesItem, E>, text: Lookup<TextItem, E>) -> (res:
        Result<Message, SendError<E>>)
        ensures
            message_view(res) == match outgoing(bytes, text) {
                Ok(message) => if self@.ws_tx is Some {
                    Ok(message)
                } else {
                    Err(SendError::ASGI(ASGIError::Flow))
                },
                Err(err) => Err(err),
            },
    {
        match ws_message_into_rs(bytes, text) {
            Ok(message) => {
                if self.ws_tx.is_some() {
                    Ok(message)
                } else {
                    Err(SendError::ASGI(ASGIError::Flow))
                }
            },
            Err(err) => Err(err),
        }
    }

    /// Tells the application how sending a message went. On a websocket that has
    /// been closed a failure goes unnoticed.
    pub fn message_sent(&self, sent: bool) -> (res: Result<(), ASGIError>)
        ensures
            res == if sent || self@.closed {
                Ok::<(), ASGIError>(())
            } else {
                Err(ASGIError::Flow)
            },
    {
        if sent || self.closed {
            Ok(())
        } else {
            Err(ASGIError::Flow)
        }
    }

    /// Closes the websocket from this side: hands its halves out, to be closed.
    pub fn close(&mut self) -> (res: Result<WebsocketDetachedTransport<R, S>, ASGIError>)
        requires
            old(self).wf(),
        ensures
            final(self).wf(),
            match old(self)@.ws_tx {
                Some(tx) => {
                    &&& final(self)@ == after_close(old(self)@)
                    &&& res == Ok::<WebsocketDetachedTransport<R, S>, ASGIError>(
                        WebsocketDetachedTransport {
                            consumed: true,
                            rx: old(self)@.ws_rx,
                            tx: Some(tx),
                        },
                    )
                },
                None => {
                    &&& final(self)@ == old(self)@
                    &&& res == Err::<WebsocketDetachedTransport<R, S>, ASGIError>(ASGIError::Flow)
                },
            },
    {
        match self.ws_tx.take() {
            Some(tx) => {
                self.closed = true;
                Ok(WebsocketDetachedTransport::new(true, self.ws_rx.take(), Some(tx)))
            },
            None => Err(ASGIError::Flow),
        }
    }

    /// Whether the upgrade has been used.
    pub fn consumed(&self) -> (res: bool)
        ensures
            res == (self@.upgrade is None),
    {
        self.upgrade.is_none()
    }

    /// Whether the handshake has come to its end.
    pub fn accepted(&self) -> (res: bool)
        ensures
            res == self@.accepted,
    {
        self.accepted
    }

    /// The receiving half, while it is here.
    pub fn ws_rx(&self) -> (res: Option<&R>)
        ensures
            res == match self@.ws_rx {
                Some(stream) => Some(&stream),
                None => None,
            },
    {
        self.ws_rx.as_ref()
    }

    /// The sending half, while it is here.
    pub fn ws_tx(&self) -> (res: Option<&S>)
        ensures
            res == match self@.ws_tx {
                Some(sink) => Some(&sink),
                None => None,
            },
    {
        self.ws_tx.as_ref()
    }

    /// Gives the channel away, if it is still there, and with it whatever halves
    /// of the websocket there are.
    pub fn tx(&mut self) -> (res: (Option<T>, WebsocketDetachedTransport<R, S>))
        requires
            old(self).wf(),
        ensures
            final(self).wf(),
            final(self)@ == (WSState { tx: None, ws_rx: None, ws_tx: None, ..old(self)@ }),
            res.0 == old(self)@.tx,
            res.1 == (WebsocketDetachedTransport {
                consumed: old(self)@.upgrade is None,
                rx: old(self)@.ws_rx,
                tx: old(self)@.ws_tx,
            }),
    {
        let consumed = self.consumed();
        let tx = self.tx.take();
        (
            tx,
            WebsocketDetachedTransport::new(consumed, self.ws_rx.take(), self.ws_tx.take()),
        )
    }

    /// Decides what the next event for the application waits for.
    pub fn receive(&self) -> (res: Result<WSReceive, ASGIError>)
        ensures
            match res {
                Ok(WSReceive::Event(event)) => {
                    &&& !self@.accepted
                    &&& event@ == ReceiveEventView::WSConnect
                },
                Ok(WSReceive::Read) => self@.accepted && self@.ws_rx is Some,
                Err(err) => self@.accepted && self@.ws_rx is None && err == ASGIError::Flow,
            },
    {
        if !self.accepted {
            return Ok(WSReceive::Event(ReceiveEvent::WSConnect));
        }
        if self.ws_rx.is_some() {
            Ok(WSReceive::Read)
        } else {
            Err(ASGIError::Flow)
        }
    }

    /// Decides on a read of the websocket. `None` asks for another.
    pub fn receive_message(&mut self, read: WSRead) -> (res: Option<
        Result<ReceiveEvent, ASGIError>,
    >)
        requires
            old(self).wf(),
        ensures
            final(self).wf(),
            final(self)@ == after_ws_read(old(self)@, read@),
            match res {
                Some(res) => ws_read_result(read@) == Some(event_view(res)),
                None => ws_read_result(read@) is None,
            },
    {
        match read {
            WSRead::Message(Message::Ping(_)) => None,
            WSRead::Message(Message::Close(code)) => {
                self.closed = true;
                Some(ws_message_into_py(Message::Close(code)))
            },
            WSRead::Message(message) => Some(ws_message_into_py(message)),
            WSRead::End => Some(Err(ASGIError::Flow)),
            WSRead::Failed => Some(Err(ASGIError::Flow)),
        }
    }

    /// Takes an event from the application.
    pub fn send<E>(&mut self, event: ASGIEvent<E>) -> (res: Result<
        WSAction<W, U, R, S>,
        SendError<E>,
    >)
        requires
            old(self).wf(),
        ensures
            final(self).wf(),
            (final(self)@, ws_action_view(res)) == ws_step(old(self)@, event),
    {
        match adapt_message_type(&event.kind) {
            Ok(ASGIMessageType::WSAccept) => match self.accept() {
                Ok(handshake) => Ok(WSAction::Accept(handshake)),
                Err(err) => Err(SendError::ASGI(err)),
            },
            Ok(ASGIMessageType::WSClose) => match self.close() {
                Ok(transport) => Ok(WSAction::Close(transport)),
                Err(err) => Err(SendError::ASGI(err)),
            },
            Ok(ASGIMessageType::WSMessage) => match self.send_message(event.bytes, event.text) {
                Ok(message) => Ok(WSAction::Send(message)),
                Err(err) => Err(err),
            },
            _ => Err(SendError::ASGI(ASGIError::Message)),
        }
    }
}

} // verus!
