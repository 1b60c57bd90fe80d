//! What messages and received events become, field by field.

use vstd::prelude::*;

use crate::message::{
    event_entries, incoming, outgoing, ws_message_into_py, ws_message_into_rs, Entry, Message,
    MessageView, ReceiveEvent, ReceiveEventView, Value, ValueView,
};
use crate::types::{ASGIError, BytesItem, Lookup, SendError, TextItem};

verus! {

/// Two events with the same dictionary are the same event: everything that an
/// event holds can be read back.
pub proof fn law_entries_injective(one: ReceiveEventView, other: ReceiveEventView)
    requires
        event_entries(one) == event_entries(other),
    ensures
        one == other,
{
    reveal_strlit("http.request");
    reveal_strlit("http.disconnect");
    reveal_strlit("websocket.connect");
    reveal_strlit("websocket.receive");
    reveal_strlit("websocket.disconnect");
    reveal_strlit("bytes");
    reveal_strlit("text");
    assert("http.request"@.len() == 12 && "http.disconnect"@.len() == 15
        && "websocket.connect"@.len() == 17 && "websocket.receive"@.len() == 17
        && "websocket.disconnect"@.len() == 20 && "bytes"@.len() == 5 && "text"@.len() == 4);
    assert("websocket.connect"@[10] == 'c' && "websocket.receive"@[10] == 'r');
    let left = event_entries(one);
    let right = event_entries(other);
    assert(left[0] == right[0]);
    assert(left.len() == right.len());
    if left.len() > 1 {
        assert(left[1] == right[1]);
    }
    if left.len() > 2 {
        assert(left[2] == right[2]);
    }
}

/// The dictionary of a part of a request body holds `http.request`, the bytes of
/// the part and whether more follows.
pub proof fn law_request_entries(body: Vec<u8>, more_body: bool, res: Vec<Entry>)
    requires
        call_ensures(
            ReceiveEvent::into_entries,
            (ReceiveEvent::HTTPRequest { body, more_body },),
            res,
        ),
    ensures
        res@.len() == 3,
        res@[0].key@ == "type"@,
        res@[0].value matches Value::Str(name) && name@ == "http.request"@,
        res@[1].key@ == "body"@,
        res@[1].value matches Value::Bytes(bytes) && bytes@ == body@,
        res@[2].key@ == "more_body"@,
        res@[2].value == Value::Bool(more_body),
{
    let views = crate::message::entry_views(res@);
    assert(views.len() == 3);
    assert(views[0] == res@[0]@ && views[1] == res@[1]@ && views[2] == res@[2]@);
}

/// The dictionaries of a disconnect and of a connect hold their name alone.
pub proof fn law_bare_entries(disconnect: Vec<Entry>, connect: Vec<Entry>)
    requires
        call_ensures(ReceiveEvent::into_entries, (ReceiveEvent::HTTPDisconnect,), disconnect),
        call_ensures(ReceiveEvent::into_entries, (ReceiveEvent::WSConnect,), connect),
    ensures
        disconnect@.len() == 1,
        disconnect@[0].key@ == "type"@,
        disconnect@[0].value matches Value::Str(name) && name@ == "http.disconnect"@,
        connect@.len() == 1,
        connect@[0].key@ == "type"@,
        connect@[0].value matches Value::Str(name) && name@ == "websocket.connect"@,
{
    let views = crate::message::entry_views(disconnect@);
    assert(views.len() == 1);
    assert(views[0] == disconnect@[0]@);
    let others = crate::message::entry_views(connect@);
    assert(others.len() == 1);
    assert(others[0] == connect@[0]@);
}

/// The dictionary of a binary message holds `websocket.receive` and the bytes
/// under `bytes`.
pub proof fn law_bytes_entries(content: Vec<u8>, res: Vec<Entry>)
    requires
        call_ensures(ReceiveEvent::into_entries, (ReceiveEvent::WSBytes(content),), res),
    ensures
        res@.len() == 2,
        res@[0].key@ == "type"@,
        res@[0].value matches Value::Str(name) && name@ == "websocket.receive"@,
        res@[1].key@ == "bytes"@,
        res@[1].value matches Value::Bytes(bytes) && bytes@ == content@,
{
    let views = crate::message::entry_views(res@);
    assert(views.len() == 2);
    assert(views[0] == res@[0]@ && views[1] == res@[1]@);
}

/// The dictionary of a text message holds `websocket.receive` and the text under
/// `text`.
pub proof fn law_text_entries(content: String, res: Vec<Entry>)
    requires
        call_ensures(ReceiveEvent::into_entries, (ReceiveEvent::WSText(content),), res),
    ensures
        res@.len() == 2,
        res@[0].key@ == "type"@,
        res@[0].value matches Value::Str(name) && name@ == "websocket.receive"@,
        res@[1].key@ == "text"@,
        res@[1].value matches Value::Str(text) && text@ == content@,
{
    let views = crate::message::entry_views(res@);
    assert(views.len() == 2);
    assert(views[0] == res@[0]@ && views[1] == res@[1]@);
}

/// The dictionary of a closed websocket holds `websocket.disconnect` and the code
/// under `code`.
pub proof fn law_disconnect_entries(code: u16, res: Vec<Entry>)
    requires
        call_ensures(ReceiveEvent::into_entries, (ReceiveEvent::WSDisconnect(code),), res),
    ensures
        res@.len() == 2,
        res@[0].key@ == "type"@,
        res@[0].value matches Value::Str(name) && name@ == "websocket.disconnect"@,
        res@[1].key@ == "code"@,
        res@[1].value == Value::Int(code),
{
    let views = crate::message::entry_views(res@);
    assert(views.len() == 2);
    assert(views[0] == res@[0]@ && views[1] == res@[1]@);
}

/// A close message gives the disconnect its own code, whichever it is, and the
/// code for none where it has none. So two close messages with a code give the
/// same event only where they carry the same.
pub proof fn law_close_code(code: u16, other: u16)
    ensures
        incoming(MessageView::Close(Some(code))) == Some(ReceiveEventView::WSDisconnect(code)),
        incoming(MessageView::Close(None)) == Some(ReceiveEventView::WSDisconnect(1005)),
        incoming(MessageView::Close(Some(code))) == incoming(MessageView::Close(Some(other))) ==>
            code == other,
{
}

/// What an application gets of a message that has come in: the content of a text
/// or binary message, the code of a close message, and of pings, pongs and raw
/// frames a refusal.
pub proof fn law_ws_message_into_py(message: Message, res: Result<ReceiveEvent, ASGIError>)
    requires
        call_ensures(ws_message_into_py, (message,), res),
    ensures
        message matches Message::Binary(bytes) ==> (res matches Ok(ReceiveEvent::WSBytes(got))
            && got@ == bytes@),
        message matches Message::Text(text) ==> (res matches Ok(ReceiveEvent::WSText(got)) && got@
            == text@),
        message matches Message::Close(Some(code)) ==> res == Ok::<ReceiveEvent, ASGIError>(
            ReceiveEvent::WSDisconnect(code),
        ),
        message == Message::Close(None) ==> res == Ok::<ReceiveEvent, ASGIError>(
            ReceiveEvent::WSDisconnect(1005),
        ),
        message is Ping || message is Pong || message is Frame ==> res == Err::<
            ReceiveEvent,
            ASGIError,
        >(ASGIError::Flow),
{
}

/// What `outgoing` makes of an event's `bytes` and `text`, case by case.
pub proof fn law_outgoing<E>(bytes: Lookup<BytesItem, E>, text: Lookup<TextItem, E>)
    ensures
        bytes matches Lookup::Raised(raised) ==> outgoing(bytes, text) == Err::<
            MessageView,
            SendError<E>,
        >(SendError::Raised(raised)),
        !(bytes is Raised) ==> (text matches Lookup::Raised(raised) ==> outgoing(bytes, text)
            == Err::<MessageView, SendError<E>>(SendError::Raised(raised))),
        bytes is Absent && text is Absent ==> outgoing(bytes, text) == Err::<
            MessageView,
            SendError<E>,
        >(SendError::ASGI(ASGIError::Flow)),
        text is Absent ==> (bytes matches Lookup::Present(item) ==> {
            &&& outgoing(bytes, text) matches Ok(MessageView::Binary(content))
            &&& item matches BytesItem::Buffer(data) ==> content == data@
            &&& !(item is Buffer) ==> content.len() == 0
        }),
        bytes is Absent ==> (text matches Lookup::Present(item) ==> {
            &&& outgoing(bytes, text) matches Ok(MessageView::Text(content))
            &&& item matches TextItem::Text(words) ==> content == words@
            &&& !(item is Text) ==> content.len() == 0
        }),
        bytes matches Lookup::Present(item) ==> (text matches Lookup::Present(other) ==> {
            let some_bytes = item is Buffer || item is Sequence;
            let some_text = other is Text;
            &&& outgoing(bytes, text) is Ok <==> some_bytes != some_text
            &&& some_bytes == some_text ==> outgoing(bytes, text) == Err::<
                MessageView,
                SendError<E>,
            >(SendError::ASGI(ASGIError::Flow))
            &&& !some_text ==> (item matches BytesItem::Buffer(data) ==> outgoing(bytes, text)
                == Ok::<MessageView, SendError<E>>(MessageView::Binary(data@)))
            &&& !some_text ==> (item matches BytesItem::Sequence(data) ==> outgoing(bytes, text)
                == Ok::<MessageView, SendError<E>>(MessageView::Binary(data@)))
            &&& !some_bytes ==> (other matches TextItem::Text(words) ==> outgoing(bytes, text)
                == Ok::<MessageView, SendError<E>>(MessageView::Text(words@)))
        }),
{
}

/// The message that `ws_message_into_rs` gives back holds exactly what `outgoing`
/// says, as a text or a binary message, and its refusals are those.
pub proof fn law_ws_message_into_rs<E>(
    bytes: Lookup<BytesItem, E>,
    text: Lookup<TextItem, E>,
    res: Result<Message, SendError<E>>,
)
    requires
        call_ensures(ws_message_into_rs::<E>, (bytes, text), res),
    ensures
        match outgoing(bytes, text) {
            Ok(MessageView::Binary(content)) => res matches Ok(Message::Binary(sent)) && sent@
                == content,
            Ok(MessageView::Text(content)) => res matches Ok(Message::Text(sent)) && sent@
                == content,
            Ok(_) => false,
            Err(err) => res == Err::<Message, SendError<E>>(err),
        },
{
}

/// What a message, an event and an entry hold is what their fields hold.
pub proof fn law_contents(data: Vec<u8>, text: String, flag: bool, number: u16, key: String)
    ensures
        Message::Text(text)@ == MessageView::Text(text@),
        Message::Binary(data)@ == MessageView::Binary(data@),
        Message::Ping(data)@ == MessageView::Ping(data@),
        Message::Pong(data)@ == MessageView::Pong(data@),
        Message::Close(Some(number))@ == MessageView::Close(Some(number)),
        Message::Close(None)@ == MessageView::Close(None),
        Message::Frame@ == MessageView::Frame,
        (ReceiveEvent::HTTPRequest { body: data, more_body: flag })@ == (
        ReceiveEventView::HTTPRequest { body: data@, more_body: flag }),
        ReceiveEvent::HTTPDisconnect@ == ReceiveEventView::HTTPDisconnect,
        ReceiveEvent::WSConnect@ == ReceiveEventView::WSConnect,
        ReceiveEvent::WSBytes(data)@ == ReceiveEventView::WSBytes(data@),
        ReceiveEvent::WSText(text)@ == ReceiveEventView::WSText(text@),
        ReceiveEvent::WSDisconnect(number)@ == ReceiveEventView::WSDisconnect(number),
        Value::Str(text)@ == ValueView::Str(text@),
        Value::Bytes(data)@ == ValueView::Bytes(data@),
        Value::Bool(flag)@ == ValueView::Bool(flag),
        Value::Int(number)@ == ValueView::Int(number),
        (Entry { key, value: Value::Bool(flag) })@ == (key@, ValueView::Bool(flag)),
{
}

} // verus!
