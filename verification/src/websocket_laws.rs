//! What holds of a websocket as a whole, over any number of calls.

use vstd::prelude::*;

use crate::adapt::message_type;
use crate::message::{outgoing, MessageView, ReceiveEventView};
use crate::types::{ASGIError, ASGIEvent, ASGIMessageType, SendError};
use crate::websocket::{
    after_accept, after_connect, after_ws_read, ws_read_result, ws_step, ws_valid, Handshake,
    WSActionView, WSReadView, WSState, WebsocketDetachedTransport,
};

verus! {

/// A call on a websocket.
pub enum WSCall<R, S, E> {
    Send(ASGIEvent<E>),
    AcceptConnected(Option<(S, R)>),
    ReceiveMessage(WSReadView),
    Tx,
}

/// Whether a call may lead from one state to the other.
pub open spec fn ws_call<T, W, U, R, S, E>(
    before: WSState<T, W, U, R, S>,
    call: WSCall<R, S, E>,
    after: WSState<T, W, U, R, S>,
) -> bool {
    match call {
        WSCall::Send(event) => after == ws_step(before, event).0,
        WSCall::AcceptConnected(halves) => {
            &&& before.upgrade is None
            &&& !before.accepted
            &&& after == match halves {
                Some((sink, stream)) => after_connect(before, sink, stream),
                None => before,
            }
        },
        WSCall::ReceiveMessage(read) => after == after_ws_read(before, read),
        WSCall::Tx => after == (WSState { tx: None, ws_rx: None, ws_tx: None, ..before }),
    }
}

/// Whether the call numbered `i` fits the states around it.
pub open spec fn ws_link<T, W, U, R, S, E>(
    states: Seq<WSState<T, W, U, R, S>>,
    calls: Seq<WSCall<R, S, E>>,
    i: int,
) -> bool {
    ws_call(states[i], calls[i], states[i + 1])
}

/// Whether the calls may lead through these states.
pub open spec fn ws_history<T, W, U, R, S, E>(
    states: Seq<WSState<T, W, U, R, S>>,
    calls: Seq<WSCall<R, S, E>>,
) -> bool {
    &&& states.len() == calls.len() + 1
    &&& ws_valid(states[0])
    &&& forall|i: int| 0 <= i < calls.len() ==> #[trigger] ws_link(states, calls, i)
}

/// Every call leads from a valid state to a valid one.
pub proof fn law_ws_valid_throughout<T, W, U, R, S, E>(
    states: Seq<WSState<T, W, U, R, S>>,
    calls: Seq<WSCall<R, S, E>>,
    i: int,
)
    requires
        ws_history(states, calls),
        0 <= i < states.len(),
    ensures
        ws_valid(states[i]),
    decreases i,
{
    if i > 0 {
        law_ws_valid_throughout(states, calls, i - 1);
        assert(ws_link(states, calls, i - 1));
    }
}

/// What has happened to a websocket stays so: an upgrade that has been used, an
/// acceptance, a close.
pub proof fn law_ws_progress<T, W, U, R, S, E>(
    states: Seq<WSState<T, W, U, R, S>>,
    calls: Seq<WSCall<R, S, E>>,
    i: int,
    j: int,
)
    requires
        ws_history(states, calls),
        0 <= i <= j < states.len(),
    ensures
        states[i].upgrade is None ==> states[j].upgrade is None,
        states[i].accepted ==> states[j].accepted,
        states[i].closed ==> states[j].closed,
        states[i].tx is None ==> states[j].tx is None,
    decreases j,
{
    if i < j {
        law_ws_progress(states, calls, i, j - 1);
        assert(ws_link(states, calls, j - 1));
    }
}

/// The channel leaves at most once: after it has been asked for, it is gone, and
/// so are the halves of the websocket if it had been accepted.
pub proof fn law_ws_channel_leaves_once<T, W, U, R, S, E>(
    states: Seq<WSState<T, W, U, R, S>>,
    calls: Seq<WSCall<R, S, E>>,
    i: int,
    j: int,
)
    requires
        ws_history(states, calls),
        0 <= i < j < states.len(),
        calls[i] is Tx,
    ensures
        states[j].tx is None,
        states[i].accepted ==> states[j].ws_rx is None && states[j].ws_tx is None,
{
    assert(ws_link(states, calls, i));
    law_ws_progress(states, calls, i + 1, j);
    if states[i].accepted {
        law_halves_stay_gone(states, calls, i + 1, j);
    }
}

/// There is one handshake: once a websocket has been asked to accept, it refuses
/// to accept again, and does not change.
pub proof fn law_one_handshake<T, W, U, R, S, E>(
    states: Seq<WSState<T, W, U, R, S>>,
    calls: Seq<WSCall<R, S, E>>,
    i: int,
    j: int,
    first: ASGIEvent<E>,
    second: ASGIEvent<E>,
)
    requires
        ws_history(states, calls),
        0 <= i < j < states.len(),
        calls[i] == WSCall::<R, S, E>::Send(first),
        message_type(first.kind) == Some(ASGIMessageType::WSAccept),
        message_type(second.kind) == Some(ASGIMessageType::WSAccept),
    ensures
        ws_step(states[j], second) == (
            states[j],
            Err::<WSActionView<W, U, R, S>, SendError<E>>(SendError::ASGI(ASGIError::Flow)),
        ),
{
    assert(ws_link(states, calls, i));
    law_ws_progress(states, calls, i + 1, j);
    law_ws_valid_throughout(states, calls, j);
}

/// Whether a call asks a websocket to accept.
pub open spec fn asks_to_accept<R, S, E>(call: WSCall<R, S, E>) -> bool {
    call matches WSCall::Send(event) && message_type(event.kind) == Some(ASGIMessageType::WSAccept)
}

/// From a new websocket on, the upgrade has been used exactly where the websocket
/// was asked to accept.
pub proof fn law_consumed_by_accept<T, W, U, R, S, E>(
    states: Seq<WSState<T, W, U, R, S>>,
    calls: Seq<WSCall<R, S, E>>,
    j: int,
)
    requires
        ws_history(states, calls),
        0 <= j < states.len(),
        states[0].upgrade is Some,
    ensures
        states[j].upgrade is None <==> exists|i: int|
            0 <= i < j && asks_to_accept(#[trigger] calls[i]),
    decreases j,
{
    if j > 0 {
        law_consumed_by_accept(states, calls, j - 1);
        assert(ws_link(states, calls, j - 1));
        if asks_to_accept(calls[j - 1]) {
            assert(states[j].upgrade is None);
        } else {
            assert(states[j].upgrade == states[j - 1].upgrade);
        }
    }
}

/// Whether a call reads a close message from the client.
pub open spec fn reads_close<R, S, E>(call: WSCall<R, S, E>) -> bool {
    call matches WSCall::ReceiveMessage(WSReadView::Message(MessageView::Close(_)))
}

/// From a new websocket on, while the sending half is here or may yet come, the
/// websocket counts as closed, so that a failed send is forgiven, exactly where a
/// close message was read.
pub proof fn law_forgiven_after_close<T, W, U, R, S, E>(
    states: Seq<WSState<T, W, U, R, S>>,
    calls: Seq<WSCall<R, S, E>>,
    j: int,
)
    requires
        ws_history(states, calls),
        0 <= j < states.len(),
        !states[0].closed,
        !states[0].accepted,
    ensures
        states[j].ws_tx is Some || !states[j].accepted ==> (states[j].closed <==> exists|i: int|
            0 <= i < j && reads_close(#[trigger] calls[i])),
    decreases j,
{
    if j > 0 {
        law_forgiven_after_close(states, calls, j - 1);
        law_ws_valid_throughout(states, calls, j - 1);
        assert(ws_link(states, calls, j - 1));
        if states[j].ws_tx is Some || !states[j].accepted {
            assert(states[j - 1].ws_tx is Some || !states[j - 1].accepted);
            if reads_close(calls[j - 1]) {
                assert(states[j].closed);
            } else {
                assert(states[j].closed == states[j - 1].closed);
            }
        }
    }
}

/// Accepting hands out the upgrade and the websocket; once that has given its
/// halves, messages go out and the websocket is read.
pub proof fn law_handshake<T, W, U, R, S, E>(
    state: WSState<T, W, U, R, S>,
    upgrade: U,
    sink: S,
    stream: R,
    accept: ASGIEvent<E>,
    message: ASGIEvent<E>,
)
    requires
        ws_valid(state),
        state.upgrade == Some(upgrade),
        message_type(accept.kind) == Some(ASGIMessageType::WSAccept),
        message_type(message.kind) == Some(ASGIMessageType::WSMessage),
    ensures
        state.websocket is Some,
        ws_step(state, accept) == (
            after_accept(state),
            Ok::<WSActionView<W, U, R, S>, SendError<E>>(
                WSActionView::Accept(Handshake { upgrade, websocket: state.websocket }),
            ),
        ),
        !after_accept(state).accepted,
        ({
            let connected = after_connect(after_accept(state), sink, stream);
            &&& ws_valid(connected)
            &&& connected.accepted
            &&& connected.ws_rx == Some(stream)
            &&& ws_step(connected, message).0 == connected
            &&& match outgoing(message.bytes, message.text) {
                Ok(content) => ws_step(connected, message).1 == Ok::<
                    WSActionView<W, U, R, S>,
                    SendError<E>,
                >(WSActionView::Send(content)),
                Err(err) => ws_step(connected, message).1 == Err::<
                    WSActionView<W, U, R, S>,
                    SendError<E>,
                >(err),
            }
        }),
{
}

/// Why a message is refused where there is no sending half: for what is wrong
/// with itself, or else because it may not come now.
pub open spec fn message_refusal<E>(event: ASGIEvent<E>) -> SendError<E> {
    match outgoing(event.bytes, event.text) {
        Ok(_) => SendError::ASGI(ASGIError::Flow),
        Err(err) => err,
    }
}

/// Before the handshake is over a websocket neither sends nor closes.
pub proof fn law_nothing_before_acceptance<T, W, U, R, S, E>(
    state: WSState<T, W, U, R, S>,
    event: ASGIEvent<E>,
)
    requires
        ws_valid(state),
        !state.accepted,
        message_type(event.kind) == Some(ASGIMessageType::WSClose) || message_type(event.kind)
            == Some(ASGIMessageType::WSMessage),
    ensures
        message_type(event.kind) == Some(ASGIMessageType::WSClose) ==> ws_step(state, event) == (
            state,
            Err::<WSActionView<W, U, R, S>, SendError<E>>(SendError::ASGI(ASGIError::Flow)),
        ),
        message_type(event.kind) == Some(ASGIMessageType::WSMessage) ==> ws_step(state, event) == (
            state,
            Err::<WSActionView<W, U, R, S>, SendError<E>>(message_refusal(event)),
        ),
{
}

/// Halves of an accepted websocket that have left never come back.
pub proof fn law_halves_stay_gone<T, W, U, R, S, E>(
    states: Seq<WSState<T, W, U, R, S>>,
    calls: Seq<WSCall<R, S, E>>,
    i: int,
    j: int,
)
    requires
        ws_history(states, calls),
        0 <= i <= j < states.len(),
        states[i].accepted,
    ensures
        states[i].ws_tx is None ==> states[j].ws_tx is None,
        states[i].ws_rx is None ==> states[j].ws_rx is None,
    decreases j,
{
    if i < j {
        law_halves_stay_gone(states, calls, i, j - 1);
        law_ws_progress(states, calls, i, j - 1);
        assert(ws_link(states, calls, j - 1));
    }
}

/// A websocket closes once: after that it is closed for good, refuses to close
/// again, sends no message and is not read.
pub proof fn law_one_close<T, W, U, R, S, E>(
    states: Seq<WSState<T, W, U, R, S>>,
    calls: Seq<WSCall<R, S, E>>,
    i: int,
    j: int,
    close: ASGIEvent<E>,
    transport: WebsocketDetachedTransport<R, S>,
    event: ASGIEvent<E>,
)
    requires
        ws_history(states, calls),
        0 <= i < j < states.len(),
        calls[i] == WSCall::<R, S, E>::Send(close),
        ws_step(states[i], close).1 == Ok::<WSActionView<W, U, R, S>, SendError<E>>(
            WSActionView::Close(transport),
        ),
    ensures
        states[j].closed,
        states[j].accepted,
        states[j].ws_rx is None,
        message_type(event.kind) == Some(ASGIMessageType::WSClose) ==> ws_step(states[j], event)
            == (
            states[j],
            Err::<WSActionView<W, U, R, S>, SendError<E>>(SendError::ASGI(ASGIError::Flow)),
        ),
        message_type(event.kind) == Some(ASGIMessageType::WSMessage) ==> ws_step(states[j], event)
            == (
            states[j],
            Err::<WSActionView<W, U, R, S>, SendError<E>>(message_refusal(event)),
        ),
        transport.consumed && transport.tx is Some && transport.rx == states[i].ws_rx,
{
    assert(ws_link(states, calls, i));
    law_ws_valid_throughout(states, calls, i);
    law_ws_progress(states, calls, i + 1, j);
    law_halves_stay_gone(states, calls, i + 1, j);
}

/// A refused event changes nothing.
pub proof fn law_ws_refusal<T, W, U, R, S, E>(state: WSState<T, W, U, R, S>, event: ASGIEvent<E>)
    requires
        ws_valid(state),
        ws_step(state, event).1 is Err,
    ensures
        ws_step(state, event).0 == state,
{
}

/// A websocket knows no HTTP events: it refuses them and does not change.
pub proof fn law_no_http_events<T, W, U, R, S, E>(
    state: WSState<T, W, U, R, S>,
    event: ASGIEvent<E>,
)
    requires
        match message_type(event.kind) {
            Some(ASGIMessageType::WSAccept) => false,
            Some(ASGIMessageType::WSClose) => false,
            Some(ASGIMessageType::WSMessage) => false,
            _ => true,
        },
    ensures
        ws_step(state, event) == (
            state,
            Err::<WSActionView<W, U, R, S>, SendError<E>>(SendError::ASGI(ASGIError::Message)),
        ),
{
}

/// Reading on until something comes of it.
pub open spec fn read_on<T, W, U, R, S>(
    state: WSState<T, W, U, R, S>,
    reads: Seq<WSReadView>,
) -> (WSState<T, W, U, R, S>, Option<Result<ReceiveEventView, ASGIError>>)
    decreases reads.len(),
{
    if reads.len() == 0 {
        (state, None)
    } else {
        let after = after_ws_read(state, reads[0]);
        match ws_read_result(reads[0]) {
            Some(res) => (after, Some(res)),
            None => read_on(after, reads.drop_first()),
        }
    }
}

/// Whether a read is a ping.
pub open spec fn is_ping(read: WSReadView) -> bool {
    read matches WSReadView::Message(MessageView::Ping(_))
}

/// Pings go unnoticed: an application gets what comes after them, and the state
/// is as if they had not come.
pub proof fn law_pings_unnoticed<T, W, U, R, S>(
    state: WSState<T, W, U, R, S>,
    pings: Seq<WSReadView>,
    read: WSReadView,
    rest: Seq<WSReadView>,
)
    requires
        forall|i: int| 0 <= i < pings.len() ==> is_ping(#[trigger] pings[i]),
        !is_ping(read),
    ensures
        read_on(state, pings + seq![read] + rest) == (
            after_ws_read(state, read),
            ws_read_result(read),
        ),
        ws_read_result(read) is Some,
    decreases pings.len(),
{
    let reads = pings + seq![read] + rest;
    if pings.len() > 0 {
        assert(is_ping(pings[0]));
        assert(reads[0] == pings[0]);
        assert(reads.drop_first() =~= pings.drop_first() + seq![read] + rest);
        assert(after_ws_read(state, reads[0]) == state);
        law_pings_unnoticed(state, pings.drop_first(), read, rest);
    } else {
        assert(reads[0] == read);
    }
}

} // verus!
