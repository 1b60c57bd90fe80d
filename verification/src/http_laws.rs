//! What holds of an exchange as a whole, over any number of calls.

use vstd::prelude::*;

use crate::adapt::{event_body, event_more, event_path, event_status, message_type};
use crate::headers::{header_pairs, header_table};
use crate::http::{
    after_read, http_accepts, http_outcome, http_step, http_valid, is_status, read_event,
    response_now, BodyRead, HTTPActionView, HTTPResponseView, HTTPState, Phase, ResponseBodyView,
};
use crate::message::ReceiveEventView;
use crate::types::{ASGIError, ASGIEvent, ASGIMessageType};

verus! {

/// A call on an exchange.
pub enum HTTPCall<E> {
    Send(ASGIEvent<E>),
    SendResponse { status: i16, headers: Map<Seq<u8>, Seq<Seq<u8>>>, body: ResponseBodyView },
    Tx,
    ReceiveBody(BodyRead),
}

/// What a call gives back.
pub enum HTTPReturn<T> {
    Sent(Result<HTTPActionView<T>, ASGIError>),
    Responded(Option<HTTPResponseView<T>>),
    Gave(Option<T>),
    Received(ReceiveEventView),
}

/// Whether a call may lead from one state to the other and give this back.
pub open spec fn http_call<T, E>(
    before: HTTPState<T>,
    call: HTTPCall<E>,
    after: HTTPState<T>,
    ret: HTTPReturn<T>,
) -> bool {
    match call {
        HTTPCall::Send(event) => {
            &&& http_accepts(before, event)
            &&& ret matches HTTPReturn::Sent(res)
            &&& http_outcome(before, event, after, res)
        },
        HTTPCall::SendResponse { status, headers, body } => {
            &&& before.tx is Some ==> is_status(status as int)
            &&& ret == HTTPReturn::Responded(response_now(before.tx, status, headers, body))
            &&& after == (HTTPState { tx: None, ..before })
        },
        HTTPCall::Tx => {
            &&& ret == HTTPReturn::Gave(before.tx)
            &&& after == (HTTPState { tx: None, ..before })
        },
        HTTPCall::ReceiveBody(read) => {
            &&& ret == HTTPReturn::<T>::Received(read_event(read))
            &&& after == after_read(before, read)
        },
    }
}

/// Whether the call numbered `i` fits the states around it.
pub open spec fn http_link<T, E>(
    states: Seq<HTTPState<T>>,
    calls: Seq<HTTPCall<E>>,
    rets: Seq<HTTPReturn<T>>,
    i: int,
) -> bool {
    http_call(states[i], calls[i], states[i + 1], rets[i])
}

/// Whether the calls may lead through these states and give these back.
pub open spec fn http_history<T, E>(
    states: Seq<HTTPState<T>>,
    calls: Seq<HTTPCall<E>>,
    rets: Seq<HTTPReturn<T>>,
) -> bool {
    &&& states.len() == calls.len() + 1
    &&& rets.len() == calls.len()
    &&& http_valid(states[0])
    &&& forall|i: int| 0 <= i < calls.len() ==> #[trigger] http_link(states, calls, rets, i)
}

/// Whether the response channel leaves with what a call gives back.
pub open spec fn uses_channel<T>(ret: HTTPReturn<T>) -> bool {
    match ret {
        HTTPReturn::Sent(Ok(HTTPActionView::Respond { response })) => response is Some,
        HTTPReturn::Sent(Ok(HTTPActionView::Stream { response, .. })) => response is Some,
        HTTPReturn::Sent(Ok(HTTPActionView::File { .. })) => true,
        HTTPReturn::Responded(response) => response is Some,
        HTTPReturn::Gave(tx) => tx is Some,
        _ => false,
    }
}

/// Whether what a call gives back wakes whoever waits for the disconnect.
pub open spec fn wakes<T>(ret: HTTPReturn<T>) -> bool {
    match ret {
        HTTPReturn::Sent(Ok(HTTPActionView::Respond { .. })) => true,
        HTTPReturn::Sent(Ok(HTTPActionView::Finish { .. })) => true,
        _ => false,
    }
}

proof fn lemma_history_prefix<T, E>(
    states: Seq<HTTPState<T>>,
    calls: Seq<HTTPCall<E>>,
    rets: Seq<HTTPReturn<T>>,
)
    requires
        http_history(states, calls, rets),
        calls.len() > 0,
    ensures
        http_history(states.drop_last(), calls.drop_last(), rets.drop_last()),
        http_call(states[calls.len() - 1], calls.last(), states.last(), rets.last()),
        states.drop_last().last() == states[calls.len() - 1],
{
    assert(http_link(states, calls, rets, calls.len() - 1));
    assert forall|i: int| 0 <= i < calls.len() - 1 implies #[trigger] http_link(
        states.drop_last(),
        calls.drop_last(),
        rets.drop_last(),
        i,
    ) by {
        assert(http_link(states, calls, rets, i));
    }
}

/// Every call leads from a valid state to a valid one.
pub proof fn law_valid_throughout<T, E>(
    states: Seq<HTTPState<T>>,
    calls: Seq<HTTPCall<E>>,
    rets: Seq<HTTPReturn<T>>,
    i: int,
)
    requires
        http_history(states, calls, rets),
        0 <= i < states.len(),
    ensures
        http_valid(states[i]),
    decreases i,
{
    if i > 0 {
        law_valid_throughout(states, calls, rets, i - 1);
        assert(http_link(states, calls, rets, i - 1));
    }
}

/// A channel that is gone never comes back.
pub proof fn law_channel_stays_gone<T, E>(
    states: Seq<HTTPState<T>>,
    calls: Seq<HTTPCall<E>>,
    rets: Seq<HTTPReturn<T>>,
    i: int,
    j: int,
)
    requires
        http_history(states, calls, rets),
        0 <= i <= j < states.len(),
        states[i].tx is None,
    ensures
        states[j].tx is None,
    decreases j,
{
    if i < j {
        law_channel_stays_gone(states, calls, rets, i, j - 1);
        assert(http_link(states, calls, rets, j - 1));
    }
}

/// The response channel leaves at most once: at most one response goes out, and
/// none once the channel has been given away.
pub proof fn law_channel_leaves_once<T, E>(
    states: Seq<HTTPState<T>>,
    calls: Seq<HTTPCall<E>>,
    rets: Seq<HTTPReturn<T>>,
    i: int,
    j: int,
)
    requires
        http_history(states, calls, rets),
        0 <= i < calls.len(),
        0 <= j < calls.len(),
        uses_channel(rets[i]),
        uses_channel(rets[j]),
    ensures
        i == j,
{
    assert(http_link(states, calls, rets, i));
    assert(http_link(states, calls, rets, j));
    law_valid_throughout(states, calls, rets, i);
    law_valid_throughout(states, calls, rets, j);
    if i < j {
        law_channel_stays_gone(states, calls, rets, i + 1, j);
    } else if j < i {
        law_channel_stays_gone(states, calls, rets, j + 1, i);
    }
}

/// A response that is complete stays complete.
pub proof fn law_completion_is_final<T, E>(
    states: Seq<HTTPState<T>>,
    calls: Seq<HTTPCall<E>>,
    rets: Seq<HTTPReturn<T>>,
    i: int,
    j: int,
)
    requires
        http_history(states, calls, rets),
        0 <= i <= j < states.len(),
        states[i].phase is Answered || states[i].phase is Ended,
    ensures
        states[j].phase == states[i].phase,
    decreases j,
{
    if i < j {
        law_completion_is_final(states, calls, rets, i, j - 1);
        assert(http_link(states, calls, rets, j - 1));
    }
}

/// Once a response is complete, every further event is refused.
pub proof fn law_nothing_after_completion<T, E>(
    state: HTTPState<T>,
    event: ASGIEvent<E>,
    after: HTTPState<T>,
    res: Result<HTTPActionView<T>, ASGIError>,
)
    requires
        http_valid(state),
        state.phase is Answered || state.phase is Ended,
        http_accepts(state, event),
        http_outcome(state, event, after, res),
    ensures
        res == Err::<HTTPActionView<T>, ASGIError>(ASGIError::Flow) || res == Err::<
            HTTPActionView<T>,
            ASGIError,
        >(ASGIError::Message),
        after == state,
{
}

/// Whoever waits for the disconnect is woken at most once.
pub proof fn law_one_wake<T, E>(
    states: Seq<HTTPState<T>>,
    calls: Seq<HTTPCall<E>>,
    rets: Seq<HTTPReturn<T>>,
    i: int,
    j: int,
)
    requires
        http_history(states, calls, rets),
        0 <= i < calls.len(),
        0 <= j < calls.len(),
        wakes(rets[i]),
        wakes(rets[j]),
    ensures
        i == j,
{
    assert(http_link(states, calls, rets, i));
    assert(http_link(states, calls, rets, j));
    if i < j {
        law_completion_is_final(states, calls, rets, i + 1, j);
    } else if j < i {
        law_completion_is_final(states, calls, rets, j + 1, i);
    }
}

/// There is one head to a response: once it has come, another is always
/// refused, and changes nothing.
pub proof fn law_one_head<T, E>(
    states: Seq<HTTPState<T>>,
    calls: Seq<HTTPCall<E>>,
    rets: Seq<HTTPReturn<T>>,
    i: int,
    j: int,
    event: ASGIEvent<E>,
)
    requires
        http_history(states, calls, rets),
        0 <= i <= j < states.len(),
        !(states[i].phase is Fresh),
        message_type(event.kind) == Some(ASGIMessageType::HTTPStart),
    ensures
        !(states[j].phase is Fresh),
        http_step(states[j], event) == (
            states[j],
            Err::<HTTPActionView<T>, ASGIError>(ASGIError::Flow),
        ),
        http_accepts(states[j], event),
    decreases j,
{
    if i < j {
        law_one_head(states, calls, rets, i, j - 1, event);
        assert(http_link(states, calls, rets, j - 1));
    }
}

/// A refused event changes nothing, except that a file uses the response channel
/// up.
pub proof fn law_refusal<T, E>(
    before: HTTPState<T>,
    event: ASGIEvent<E>,
    after: HTTPState<T>,
    err: ASGIError,
)
    requires
        http_outcome(before, event, after, Err(err)),
    ensures
        message_type(event.kind) == Some(ASGIMessageType::HTTPFile) ==> after == (HTTPState {
            tx: None,
            ..before
        }),
        message_type(event.kind) != Some(ASGIMessageType::HTTPFile) ==> after == before,
{
}

/// A body before any head is refused.
pub proof fn law_body_needs_head<T, E>(state: HTTPState<T>, event: ASGIEvent<E>)
    requires
        state.phase is Fresh,
        message_type(event.kind) == Some(ASGIMessageType::HTTPBody),
    ensures
        http_accepts(state, event),
        http_step(state, event) == (state, Err::<HTTPActionView<T>, ASGIError>(ASGIError::Flow)),
{
}

/// A head and then a whole body make one response, with the status and headers
/// of the head and the bytes of the body. Where more of the body is to follow,
/// the response goes out with a channel, and the bytes through it.
pub proof fn law_head_and_body<T, E>(
    state: HTTPState<T>,
    tx: T,
    status: i16,
    head: ASGIEvent<E>,
    body: ASGIEvent<E>,
)
    requires
        state.phase is Fresh,
        state.tx == Some(tx),
        message_type(head.kind) == Some(ASGIMessageType::HTTPStart),
        event_status(head.status) == Some(status),
        message_type(body.kind) == Some(ASGIMessageType::HTTPBody),
    ensures
        http_step(state, head).1 == Ok::<HTTPActionView<T>, ASGIError>(HTTPActionView::Done),
        http_step(http_step(state, head).0, body) == {
            let headers = header_table(state.server, header_pairs(head.headers));
            let content = event_body(body.body);
            if event_more(body.more_body) {
                (
                    HTTPState { tx: None, phase: Phase::Streaming, ..state },
                    Ok::<HTTPActionView<T>, ASGIError>(
                        HTTPActionView::Stream {
                            response: Some(
                                HTTPResponseView {
                                    tx,
                                    status: status as int,
                                    headers,
                                    body: ResponseBodyView::Channel,
                                },
                            ),
                            chunk: content,
                        },
                    ),
                )
            } else {
                (
                    HTTPState { tx: None, phase: Phase::Answered, ..state },
                    Ok::<HTTPActionView<T>, ASGIError>(
                        HTTPActionView::Respond {
                            response: Some(
                                HTTPResponseView {
                                    tx,
                                    status: status as int,
                                    headers,
                                    body: ResponseBodyView::Full(content),
                                },
                            ),
                        },
                    ),
                )
            }
        },
{
}

/// A head and then a file make one answer, with the status and headers of the
/// head.
pub proof fn law_head_and_file<T, E>(
    state: HTTPState<T>,
    tx: T,
    status: i16,
    path: Seq<char>,
    head: ASGIEvent<E>,
    file: ASGIEvent<E>,
)
    requires
        state.phase is Fresh,
        state.tx == Some(tx),
        message_type(head.kind) == Some(ASGIMessageType::HTTPStart),
        event_status(head.status) == Some(status),
        message_type(file.kind) == Some(ASGIMessageType::HTTPFile),
        event_path(file.path) == Some(path),
    ensures
        http_step(http_step(state, head).0, file) == (
            HTTPState { tx: None, phase: Phase::Answered, ..state },
            Ok::<HTTPActionView<T>, ASGIError>(
                HTTPActionView::File {
                    tx,
                    path,
                    status,
                    headers: header_table(state.server, header_pairs(head.headers)),
                },
            ),
        ),
{
}

/// Every response that goes out carries a status that a response may carry.
pub proof fn law_response_status<T, E>(
    before: HTTPState<T>,
    event: ASGIEvent<E>,
    after: HTTPState<T>,
    response: HTTPResponseView<T>,
    action: HTTPActionView<T>,
)
    requires
        http_accepts(before, event),
        http_outcome(before, event, after, Ok(action)),
        match action {
            HTTPActionView::Respond { response: sent } => sent == Some(response),
            HTTPActionView::Stream { response: sent, .. } => sent == Some(response),
            _ => false,
        },
    ensures
        is_status(response.status),
{
}

/// Whoever waits for the disconnect is woken exactly when a body completes the
/// response. A file completes it without a wake.
pub proof fn law_wake_on_completion<T, E>(
    before: HTTPState<T>,
    event: ASGIEvent<E>,
    after: HTTPState<T>,
    res: Result<HTTPActionView<T>, ASGIError>,
)
    requires
        http_accepts(before, event),
        http_outcome(before, event, after, res),
    ensures
        wakes(HTTPReturn::Sent(res)) <==> {
            &&& message_type(event.kind) == Some(ASGIMessageType::HTTPBody)
            &&& after.phase is Answered || after.phase is Ended
            &&& after.phase != before.phase
        },
{
}

/// Without its channel a response is no response: whatever its status, nothing
/// is made and nothing changes.
pub proof fn law_no_channel_no_response<T>(
    state: HTTPState<T>,
    status: i16,
    headers: Map<Seq<u8>, Seq<Seq<u8>>>,
    body: ResponseBodyView,
)
    requires
        state.tx is None,
    ensures
        response_now(state.tx, status, headers, body) is None,
        (HTTPState { tx: None, ..state }) == state,
{
}

/// The bytes of a body that is one piece.
pub open spec fn full_bytes(body: ResponseBodyView) -> Seq<u8> {
    match body {
        ResponseBodyView::Full(bytes) => bytes,
        ResponseBodyView::Channel => Seq::empty(),
    }
}

/// The body bytes that what a call gives back sends on their way. A response that
/// has lost its channel takes none along; for the chunks that follow one, see
/// `is_lost` of the call that gave it.
pub open spec fn bytes_out<T>(ret: HTTPReturn<T>) -> Seq<u8> {
    match ret {
        HTTPReturn::Sent(Ok(HTTPActionView::Respond { response: Some(response) })) => full_bytes(
            response.body,
        ),
        HTTPReturn::Sent(Ok(HTTPActionView::Stream { response: Some(_), chunk })) => chunk,
        HTTPReturn::Sent(Ok(HTTPActionView::Chunk { chunk })) => chunk,
        HTTPReturn::Sent(Ok(HTTPActionView::Finish { last: Some(chunk) })) => chunk,
        HTTPReturn::Responded(Some(response)) => full_bytes(response.body),
        _ => Seq::empty(),
    }
}

/// The body bytes that a call hands in and that are taken: those of a body event
/// that is not refused, and of a response that is made.
pub open spec fn bytes_taken<T, E>(call: HTTPCall<E>, ret: HTTPReturn<T>) -> Seq<u8> {
    match (call, ret) {
        (HTTPCall::Send(event), HTTPReturn::Sent(Ok(_))) => if message_type(event.kind) == Some(
            ASGIMessageType::HTTPBody,
        ) {
            event_body(event.body)
        } else {
            Seq::empty()
        },
        (HTTPCall::SendResponse { body, .. }, HTTPReturn::Responded(Some(_))) => full_bytes(body),
        _ => Seq::empty(),
    }
}

/// All the body bytes that are taken, in their order.
pub open spec fn all_bytes_taken<T, E>(
    calls: Seq<HTTPCall<E>>,
    rets: Seq<HTTPReturn<T>>,
) -> Seq<u8>
    decreases calls.len(),
{
    if calls.len() == 0 {
        Seq::empty()
    } else {
        all_bytes_taken(calls.drop_last(), rets.drop_last()) + bytes_taken(
            calls.last(),
            rets.last(),
        )
    }
}

/// All the body bytes that are sent on their way, in their order.
pub open spec fn all_bytes_out<T>(rets: Seq<HTTPReturn<T>>) -> Seq<u8>
    decreases rets.len(),
{
    if rets.len() == 0 {
        Seq::empty()
    } else {
        all_bytes_out(rets.drop_last()) + bytes_out(rets.last())
    }
}

/// Whether a body event is taken although its response has lost its channel.
pub open spec fn is_lost<T>(ret: HTTPReturn<T>) -> bool {
    match ret {
        HTTPReturn::Sent(Ok(HTTPActionView::Respond { response })) => response is None,
        HTTPReturn::Sent(Ok(HTTPActionView::Stream { response, .. })) => response is None,
        _ => false,
    }
}

/// Whatever calls come between, the body bytes that are taken go out as they came
/// in, none lost, added or reordered, unless a response has lost its channel.
pub proof fn law_body_bytes<T, E>(
    states: Seq<HTTPState<T>>,
    calls: Seq<HTTPCall<E>>,
    rets: Seq<HTTPReturn<T>>,
)
    requires
        http_history(states, calls, rets),
        forall|i: int| 0 <= i < rets.len() ==> !is_lost(#[trigger] rets[i]),
    ensures
        all_bytes_out(rets) == all_bytes_taken(calls, rets),
    decreases calls.len(),
{
    if calls.len() > 0 {
        lemma_history_prefix(states, calls, rets);
        law_body_bytes(states.drop_last(), calls.drop_last(), rets.drop_last());
        assert(!is_lost(rets[rets.len() - 1]));
        assert(bytes_out(rets.last()) =~= bytes_taken(calls.last(), rets.last()));
    }
}

/// A request body that has been read to its end stays read: from then on an
/// application that asks for the next event waits for the disconnect.
pub proof fn law_exhausted_stays<T, E>(
    states: Seq<HTTPState<T>>,
    calls: Seq<HTTPCall<E>>,
    rets: Seq<HTTPReturn<T>>,
    i: int,
    j: int,
)
    requires
        http_history(states, calls, rets),
        0 <= i < j < states.len(),
        states[i].exhausted || calls[i] == HTTPCall::<E>::ReceiveBody(BodyRead::End),
    ensures
        states[j].exhausted,
    decreases j,
{
    assert(http_link(states, calls, rets, j - 1));
    if i < j - 1 {
        law_exhausted_stays(states, calls, rets, i, j - 1);
    }
}

/// From a new exchange on, the request body has been read to its end exactly
/// where some read came to it.
pub proof fn law_exhausted_by_end<T, E>(
    states: Seq<HTTPState<T>>,
    calls: Seq<HTTPCall<E>>,
    rets: Seq<HTTPReturn<T>>,
    j: int,
)
    requires
        http_history(states, calls, rets),
        0 <= j < states.len(),
        !states[0].exhausted,
    ensures
        states[j].exhausted <==> exists|i: int|
            0 <= i < j && #[trigger] calls[i] == HTTPCall::<E>::ReceiveBody(BodyRead::End),
    decreases j,
{
    if j > 0 {
        law_exhausted_by_end(states, calls, rets, j - 1);
        assert(http_link(states, calls, rets, j - 1));
        if calls[j - 1] == HTTPCall::<E>::ReceiveBody(BodyRead::End) {
            assert(states[j].exhausted);
        } else {
            assert(states[j].exhausted == states[j - 1].exhausted);
        }
    }
}

/// Whether a call brings a head that is kept.
pub open spec fn keeps_head<T, E>(call: HTTPCall<E>, ret: HTTPReturn<T>) -> bool {
    &&& call matches HTTPCall::Send(event)
    &&& message_type(event.kind) == Some(ASGIMessageType::HTTPStart)
    &&& ret == HTTPReturn::Sent(Ok::<HTTPActionView<T>, ASGIError>(HTTPActionView::Done))
}

/// From a new exchange on, the response has got beyond its beginning exactly
/// where some head was kept.
pub proof fn law_begun_by_head<T, E>(
    states: Seq<HTTPState<T>>,
    calls: Seq<HTTPCall<E>>,
    rets: Seq<HTTPReturn<T>>,
    j: int,
)
    requires
        http_history(states, calls, rets),
        0 <= j < states.len(),
        states[0].phase is Fresh,
    ensures
        !(states[j].phase is Fresh) <==> exists|i: int|
            0 <= i < j && keeps_head(#[trigger] calls[i], rets[i]),
    decreases j,
{
    if j > 0 {
        law_begun_by_head(states, calls, rets, j - 1);
        assert(http_link(states, calls, rets, j - 1));
        if keeps_head(calls[j - 1], rets[j - 1]) {
            assert(!(states[j].phase is Fresh));
        } else {
            assert(states[j].phase is Fresh == states[j - 1].phase is Fresh);
        }
    }
}

/// Whether a call uses the response channel up: one that asks for it, one that
/// makes a response, a file, or a body after a head.
pub open spec fn spends_channel<T, E>(state: HTTPState<T>, call: HTTPCall<E>) -> bool {
    match call {
        HTTPCall::Send(event) => {
            ||| message_type(event.kind) == Some(ASGIMessageType::HTTPFile)
            ||| message_type(event.kind) == Some(ASGIMessageType::HTTPBody) && !(
            state.phase is Fresh)
        },
        HTTPCall::SendResponse { .. } => true,
        HTTPCall::Tx => true,
        HTTPCall::ReceiveBody(_) => false,
    }
}

/// From a new exchange on, the response channel is there exactly where no call
/// has used it up.
pub proof fn law_channel_until_spent<T, E>(
    states: Seq<HTTPState<T>>,
    calls: Seq<HTTPCall<E>>,
    rets: Seq<HTTPReturn<T>>,
    j: int,
)
    requires
        http_history(states, calls, rets),
        0 <= j < states.len(),
        states[0].tx is Some,
    ensures
        states[j].tx is Some <==> forall|i: int|
            0 <= i < j ==> !spends_channel(states[i], #[trigger] calls[i]),
        states[j].tx is Some ==> states[j].tx == states[0].tx,
    decreases j,
{
    if j > 0 {
        law_channel_until_spent(states, calls, rets, j - 1);
        law_valid_throughout(states, calls, rets, j - 1);
        assert(http_link(states, calls, rets, j - 1));
        if spends_channel(states[j - 1], calls[j - 1]) {
            assert(states[j].tx is None);
        } else {
            assert(states[j].tx == states[j - 1].tx);
        }
    }
}

/// An exchange knows no websocket events: it refuses them and does not change.
pub proof fn law_no_websocket_events<T, E>(state: HTTPState<T>, event: ASGIEvent<E>)
    requires
        match message_type(event.kind) {
            Some(ASGIMessageType::HTTPStart) => false,
            Some(ASGIMessageType::HTTPBody) => false,
            Some(ASGIMessageType::HTTPFile) => false,
            _ => true,
        },
    ensures
        http_accepts(state, event),
        http_step(state, event) == (state, Err::<HTTPActionView<T>, ASGIError>(ASGIError::Message)),
{
}

} // verus!
