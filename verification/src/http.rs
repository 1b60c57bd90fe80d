//! The HTTP side: one request that is read, one response that goes out.

use hyper::header::{HeaderMap, HeaderValue};
use vstd::prelude::*;

use crate::adapt::{
    adapt_body, adapt_file, adapt_message_type, adapt_status_code, event_body, event_more,
    event_path, event_status, message_type,
};
use crate::headers::{
    adapt_headers, fields, header_pairs, header_table, pairs_complete, sure_to_fit,
    sure_to_overflow, value_bytes,
};
use crate::message::{ReceiveEvent, ReceiveEventView};
use crate::types::{ASGIError, ASGIEvent, ASGIMessageType, Lookup};

verus! {

/// The codes that a response may carry.
pub open spec fn is_status(code: int) -> bool {
    100 <= code < 1000
}

/// `StatusCode::from_u16` accepts exactly the codes from 100 to 999, and
/// `StatusCode::as_u16` gives the number back.
#[verifier::external_body]
fn status_code(src: u16) -> (res: Option<u16>)
    ensures
        res == if is_status(src as int) {
            Some(src)
        } else {
            None
        },
{
    match hyper::StatusCode::from_u16(src) {
        Ok(code) => Some(code.as_u16()),
        Err(_) => None,
    }
}

/// The body of a response.
#[derive(Debug, PartialEq, Eq)]
pub enum ResponseBody {
    /// These bytes.
    Full(Vec<u8>),
    /// Whatever comes through the body channel, which is to be opened for it.
    Channel,
}

/// The body of a response, by its content.
pub enum ResponseBodyView {
    Full(Seq<u8>),
    Channel,
}

impl View for ResponseBody {
    type V = ResponseBodyView;

    open spec fn view(&self) -> ResponseBodyView {
        match self {
            ResponseBody::Full(bytes) => ResponseBodyView::Full(bytes@),
            ResponseBody::Channel => ResponseBodyView::Channel,
        }
    }
}

/// A response, and the channel by which it leaves.
#[derive(Debug, PartialEq, Eq)]
pub struct HTTPResponse<T> {
    pub tx: T,
    pub status: u16,
    pub headers: HeaderMap<HeaderValue>,
    pub body: ResponseBody,
}

/// A response, by its content.
pub struct HTTPResponseView<T> {
    pub tx: T,
    pub status: int,
    pub headers: Map<Seq<u8>, Seq<Seq<u8>>>,
    pub body: ResponseBodyView,
}

impl<T> View for HTTPResponse<T> {
    type V = HTTPResponseView<T>;

    open spec fn view(&self) -> HTTPResponseView<T> {
        HTTPResponseView {
            tx: self.tx,
            status: self.status as int,
            headers: fields(self.headers),
            body: self.body@,
        }
    }
}

/// The content of a response that may be missing.
pub open spec fn response_view<T>(response: Option<HTTPResponse<T>>) -> Option<
    HTTPResponseView<T>,
> {
    match response {
        Some(response) => Some(response@),
        None => None,
    }
}

/// What is to be done about an event that was accepted.
#[derive(Debug, PartialEq, Eq)]
pub enum HTTPAction<T> {
    /// Nothing.
    Done,
    /// Hand the response over, then wake whoever waits for the disconnect.
    Respond { response: Option<HTTPResponse<T>> },
    /// Open the body channel, keep its sending half, hand the response over,
    /// then send the chunk.
    Stream { response: Option<HTTPResponse<T>>, chunk: Vec<u8> },
    /// Send the chunk.
    Chunk { chunk: Vec<u8> },
    /// Wake whoever waits for the disconnect, send the last chunk where there
    /// is one, and give the sending half of the body channel up.
    Finish { last: Option<Vec<u8>> },
    /// Open the file and answer with it.
    File { tx: T, path: String, status: i16, headers: HeaderMap<HeaderValue> },
}

/// What is to be done, by its content.
pub enum HTTPActionView<T> {
    Done,
    Respond { response: Option<HTTPResponseView<T>> },
    Stream { response: Option<HTTPResponseView<T>>, chunk: Seq<u8> },
    Chunk { chunk: Seq<u8> },
    Finish { last: Option<Seq<u8>> },
    File { tx: T, path: Seq<char>, status: i16, headers: Map<Seq<u8>, Seq<Seq<u8>>> },
}

impl<T> View for HTTPAction<T> {
    type V = HTTPActionView<T>;

    open spec fn view(&self) -> HTTPActionView<T> {
        match self {
            HTTPAction::Done => HTTPActionView::Done,
            HTTPAction::Respond { response } => HTTPActionView::Respond {
                response: response_view(*response),
            },
            HTTPAction::Stream { response, chunk } => HTTPActionView::Stream {
                response: response_view(*response),
                chunk: chunk@,
            },
            HTTPAction::Chunk { chunk } => HTTPActionView::Chunk { chunk: chunk@ },
            HTTPAction::Finish { last } => HTTPActionView::Finish {
                last: match last {
                    Some(chunk) => Some(chunk@),
                    None => None,
                },
            },
            HTTPAction::File { tx, path, status, headers } => HTTPActionView::File {
                tx: *tx,
                path: path@,
                status: *status,
                headers: fields(*headers),
            },
        }
    }
}

/// How far a response has got.
pub enum Phase {
    /// No head has come.
    Fresh,
    /// The head has come and waits for a body.
    Ready { status: i16, headers: Map<Seq<u8>, Seq<Seq<u8>>> },
    /// The response has been decided, in one piece.
    Answered,
    /// The response has been decided, and parts of its body are being taken.
    Streaming,
    /// The last part of the body has been taken.
    Ended,
}

/// The state of an exchange.
pub struct HTTPState<T> {
    /// The value of the server's own header.
    pub server: Seq<u8>,
    /// The channel for the response, until it is used.
    pub tx: Option<T>,
    /// How far the response has got.
    pub phase: Phase,
    /// Whether the request body has been read to its end.
    pub exhausted: bool,
}

/// The states that an exchange can be in: once a response has been decided, its
/// channel is gone.
pub open spec fn http_valid<T>(state: HTTPState<T>) -> bool {
    state.phase is Answered || state.phase is Streaming || state.phase is Ended ==> state.tx is None
}

/// The response that goes out now, if its channel is still there.
pub open spec fn response_now<T>(
    tx: Option<T>,
    status: i16,
    headers: Map<Seq<u8>, Seq<Seq<u8>>>,
    body: ResponseBodyView,
) -> Option<HTTPResponseView<T>> {
    match tx {
        Some(tx) => Some(HTTPResponseView { tx, status: status as int, headers, body }),
        None => None,
    }
}

/// A response head comes: it is kept, unless one has come before.
pub open spec fn on_start<T>(
    state: HTTPState<T>,
    status: Option<i16>,
    headers: Map<Seq<u8>, Seq<Seq<u8>>>,
) -> (HTTPState<T>, Result<HTTPActionView<T>, ASGIError>) {
    match (state.phase, status) {
        (Phase::Fresh, Some(status)) => (
            HTTPState { phase: Phase::Ready { status, headers }, ..state },
            Ok(HTTPActionView::Done),
        ),
        (Phase::Fresh, None) => (state, Err(ASGIError::Message)),
        _ => (state, Err(ASGIError::Flow)),
    }
}

/// A part of the body comes: the first sends the head along, the last ends the
/// response.
pub open spec fn on_body<T>(state: HTTPState<T>, body: Seq<u8>, more: bool) -> (
    HTTPState<T>,
    Result<HTTPActionView<T>, ASGIError>,
) {
    match (state.phase, more) {
        (Phase::Ready { status, headers }, false) => (
            HTTPState { tx: None, phase: Phase::Answered, ..state },
            Ok(
                HTTPActionView::Respond {
                    response: response_now(
                        state.tx,
                        status,
                        headers,
                        ResponseBodyView::Full(body),
                    ),
                },
            ),
        ),
        (Phase::Ready { status, headers }, true) => (
            HTTPState { tx: None, phase: Phase::Streaming, ..state },
            Ok(
                HTTPActionView::Stream {
                    response: response_now(state.tx, status, headers, ResponseBodyView::Channel),
                    chunk: body,
                },
            ),
        ),
        (Phase::Streaming, true) => (state, Ok(HTTPActionView::Chunk { chunk: body })),
        (Phase::Streaming, false) => (
            HTTPState { phase: Phase::Ended, ..state },
            Ok(
                HTTPActionView::Finish {
                    last: if body.len() == 0 {
                        None
                    } else {
                        Some(body)
                    },
                },
            ),
        ),
        _ => (state, Err(ASGIError::Flow)),
    }
}

/// A file comes as the body: the channel is used up, whether or not the file can
/// be the answer.
pub open spec fn on_file<T>(state: HTTPState<T>, path: Option<Seq<char>>) -> (
    HTTPState<T>,
    Result<HTTPActionView<T>, ASGIError>,
) {
    match (state.phase, path, state.tx) {
        (Phase::Ready { status, headers }, Some(path), Some(tx)) => (
            HTTPState { tx: None, phase: Phase::Answered, ..state },
            Ok(HTTPActionView::File { tx, path, status, headers }),
        ),
        _ => (HTTPState { tx: None, ..state }, Err(ASGIError::Flow)),
    }
}

/// What an event does to an exchange, and what comes of it.
pub open spec fn http_step<T, E>(state: HTTPState<T>, event: ASGIEvent<E>) -> (
    HTTPState<T>,
    Result<HTTPActionView<T>, ASGIError>,
) {
    match message_type(event.kind) {
        Some(ASGIMessageType::HTTPStart) => on_start(
            state,
            event_status(event.status),
            header_table(state.server, header_pairs(event.headers)),
        ),
        Some(ASGIMessageType::HTTPBody) => on_body(
            state,
            event_body(event.body),
            event_more(event.more_body),
        ),
        Some(ASGIMessageType::HTTPFile) => on_file(state, event_path(event.path)),
        _ => (state, Err(ASGIError::Message)),
    }
}

/// Whether an event brings a head that is kept if the header table holds it.
pub open spec fn brings_head<T, E>(state: HTTPState<T>, event: ASGIEvent<E>) -> bool {
    &&& message_type(event.kind) == Some(ASGIMessageType::HTTPStart)
    &&& state.phase is Fresh
    &&& event_status(event.status) is Some
}

/// Whether an event may lead from one state to the other with this result. It
/// does what `http_step` says, or brings a head that the header table cannot
/// hold, which is refused and changes nothing. Where the headers are neither few
/// enough nor too many, it is the table that decides.
pub open spec fn http_outcome<T, E>(
    before: HTTPState<T>,
    event: ASGIEvent<E>,
    after: HTTPState<T>,
    res: Result<HTTPActionView<T>, ASGIError>,
) -> bool {
    let pairs = header_pairs(event.headers);
    if res == Err::<HTTPActionView<T>, ASGIError>(ASGIError::HeaderOverflow) {
        &&& brings_head(before, event)
        &&& !sure_to_fit(before.server, pairs)
        &&& after == before
    } else {
        &&& brings_head(before, event) ==> !sure_to_overflow(before.server, pairs)
        &&& (after, res) == http_step(before, event)
    }
}

/// A result, with the action in it taken by its content.
pub open spec fn action_view<T>(res: Result<HTTPAction<T>, ASGIError>) -> Result<
    HTTPActionView<T>,
    ASGIError,
> {
    match res {
        Ok(action) => Ok(action@),
        Err(err) => Err(err),
    }
}

/// Whether an exchange can take an event at all. It cannot take a head whose
/// headers lack a part, a body after an answer that was whole, nor a body where
/// the status of the head is none that a response may carry.
pub open spec fn http_accepts<T, E>(state: HTTPState<T>, event: ASGIEvent<E>) -> bool {
    match message_type(event.kind) {
        Some(ASGIMessageType::HTTPStart) => state.phase is Fresh && event_status(event.status)
            is Some ==> pairs_complete(header_pairs(event.headers)),
        Some(ASGIMessageType::HTTPBody) => match state.phase {
            Phase::Ready { status, .. } => state.tx is Some ==> is_status(status as int),
            Phase::Answered => false,
            _ => true,
        },
        _ => true,
    }
}

/// What reading the request body gave.
#[derive(Debug, PartialEq, Eq)]
pub enum BodyRead {
    /// The body is at its end.
    End,
    /// The read failed.
    Failed,
    /// A frame without data.
    Trailers,
    /// A frame of data.
    Data(Vec<u8>),
}

/// What a request for the next event calls for.
#[derive(Clone, Copy, Debug, PartialEq, Eq, Structural)]
pub enum HTTPReceive {
    /// Wait until the response is complete: the exchange is then over.
    AwaitDisconnect,
    /// Read the request body.
    ReadBody,
}

/// The bytes that a read gives.
pub open spec fn read_bytes(read: BodyRead) -> Seq<u8> {
    match read {
        BodyRead::Data(bytes) => bytes@,
        _ => Seq::empty(),
    }
}

/// The state after a read.
pub open spec fn after_read<T>(state: HTTPState<T>, read: BodyRead) -> HTTPState<T> {
    HTTPState { exhausted: state.exhausted || read is End, ..state }
}

/// The event that a read makes.
pub open spec fn read_event(read: BodyRead) -> ReceiveEventView {
    ReceiveEventView::HTTPRequest { body: read_bytes(read), more_body: !(read is End) }
}

/// What becomes of a file that was to be the answer.
#[derive(Debug, PartialEq, Eq)]
pub enum FileReply {
    /// Answer with the file, under this status and these headers.
    Opened { status: u16, headers: HeaderMap<HeaderValue> },
    /// Answer that there is no such thing.
    NotFound,
}

/// Whether a response may carry this status.
pub fn valid_status(status: i16) -> (res: bool)
    ensures
        res == is_status(status as int),
{
    status >= 0 && status_code(status as u16).is_some()
}

/// Decides the answer once opening the file has been tried.
pub fn file_reply(status: i16, headers: HeaderMap<HeaderValue>, opened: bool) -> (res: FileReply)
    requires
        opened ==> is_status(status as int),
    ensures
        opened ==> res == (FileReply::Opened { status: status as u16, headers }),
        !opened ==> res is NotFound,
{
    if opened {
        FileReply::Opened { status: status_code(status as u16).unwrap(), headers }
    } else {
        FileReply::NotFound
    }
}

/// One HTTP exchange. `T` is the channel by which the response leaves.
pub struct ASGIHTTPProtocol<T> {
    server: HeaderValue,
    tx: Option<T>,
    response_started: bool,
    response_chunked: bool,
    response_intent: Option<(i16, HeaderMap<HeaderValue>)>,
    body_open: bool,
    flow_rx_exhausted: bool,
}

impl<T> View for ASGIHTTPProtocol<T> {
    type V = HTTPState<T>;

    closed spec fn view(&self) -> HTTPState<T> {
        HTTPState {
            server: value_bytes(self.server),
            tx: self.tx,
            phase: match self.response_intent {
                Some((status, headers)) => Phase::Ready { status, headers: fields(headers) },
                None => if !self.response_started {
                    Phase::Fresh
                } else if !self.response_chunked {
                    Phase::Answered
                } else if self.body_open {
                    Phase::Streaming
                } else {
                    Phase::Ended
                },
            },
            exhausted: self.flow_rx_exhausted,
        }
    }
}

impl<T> ASGIHTTPProtocol<T> {
    /// The flags fit together.
    pub closed spec fn coherent(&self) -> bool {
        &&& self.response_intent is Some ==> self.response_started && !self.response_chunked
        &&& self.response_chunked ==> self.response_started
        &&& self.body_open ==> self.response_chunked
    }

    /// The flags fit together, and no channel is left once a response has been
    /// decided.
    pub open spec fn wf(&self) -> bool {
        self.coherent() && http_valid(self@)
    }

    /// A new exchange. `server` is the value of the server's own header.
    pub fn new(server: HeaderValue, tx: T) -> (res: Self)
        ensures
            res.wf(),
            res@ == (HTTPState {
                server: value_bytes(server),
                tx: Some(tx),
                phase: Phase::Fresh,
                exhausted: false,
            }),
    {
        ASGIHTTPProtocol {
            server,
            tx: Some(tx),
            response_started: false,
            response_chunked: false,
            response_intent: None,
            body_open: false,
            flow_rx_exhausted: false,
        }
    }

    /// Makes the response, if its channel is still there, and uses the channel
    /// up. Without the channel nothing happens, whatever the status.
    pub fn send_response(
        &mut self,
        status: i16,
        headers: HeaderMap<HeaderValue>,
        body: ResponseBody,
    ) -> (res: Option<HTTPResponse<T>>)
        requires
            old(self).coherent(),
            old(self)@.tx is Some ==> is_status(status as int),
        ensures
            final(self).wf(),
            response_view(res) == response_now(old(self)@.tx, status, fields(headers), body@),
            final(self)@ == (HTTPState { tx: None, ..old(self)@ }),
    {
        match self.tx.take() {
            Some(tx) => Some(
                HTTPResponse { tx, status: status_code(status as u16).unwrap(), headers, body },
            ),
            None => None,
        }
    }

    /// Tells the application how handing a chunk to the body channel went.
    pub fn send_body(sent: bool) -> (res: Result<(), ASGIError>)
        ensures
            res == if sent {
                Ok::<(), ASGIError>(())
            } else {
                Err(ASGIError::Transport)
            },
    {
        if sent {
            Ok(())
        } else {
            Err(ASGIError::Transport)
        }
    }

    /// Gives the response channel away, if it is still there.
    pub fn tx(&mut self) -> (res: Option<T>)
        requires
            old(self).wf(),
        ensures
            final(self).wf(),
            res == old(self)@.tx,
            final(self)@ == (HTTPState { tx: None, ..old(self)@ }),
    {
        self.tx.take()
    }

    /// Decides what the next event for the application waits for.
    pub fn receive(&self) -> (res: HTTPReceive)
        ensures
            res == if self@.exhausted {
                HTTPReceive::AwaitDisconnect
            } else {
                HTTPReceive::ReadBody
            },
    {
        if self.flow_rx_exhausted {
            HTTPReceive::AwaitDisconnect
        } else {
            HTTPReceive::ReadBody
        }
    }

    /// The event for an application that has waited for the disconnect.
    pub fn receive_disconnect() -> (res: ReceiveEvent)
        ensures
            res@ == ReceiveEventView::HTTPDisconnect,
    {
        ReceiveEvent::HTTPDisconnect
    }

    /// The event for an application that has waited for a read of the request
    /// body.
    pub fn receive_body(&mut self, read: BodyRead) -> (res: ReceiveEvent)
        requires
            old(self).wf(),
        ensures
            final(self).wf(),
            final(self)@ == after_read(old(self)@, read),
            res@ == read_event(read),
    {
        let mut more_body = true;
        let body = match read {
            BodyRead::Data(bytes) => bytes,
            BodyRead::Failed => Vec::new(),
            BodyRead::Trailers => Vec::new(),
            BodyRead::End => {
                more_body = false;
                Vec::new()
            },
        };
        if !more_body {
            self.flow_rx_exhausted = true;
        }
        ReceiveEvent::HTTPRequest { body, more_body }
    }

    /// Whether this exchange can take `event`.
    pub fn accepts<E>(&self, event: &ASGIEvent<E>) -> (res: bool)
        requires
            self.wf(),
        ensures
            res == http_accepts(self@, *event),
    {
        match adapt_message_type(&event.kind) {
            Ok(ASGIMessageType::HTTPStart) => {
                if self.response_started || adapt_status_code(&event.status).is_err() {
                    return true;
                }
                if let Lookup::Present(Some(pairs)) = &event.headers {
                    let mut i: usize = 0;
                    while i < pairs.len()
                        invariant
                            i <= pairs@.len(),
                            forall|j: int| 0 <= j < i ==> (#[trigger] pairs@[j])@.len() >= 2,
                            header_pairs(event.headers) == pairs@,
                            !http_accepts(self@, *event) <==> !pairs_complete(
                                header_pairs(event.headers),
                            ),
                        decreases pairs@.len() - i,
                    {
                        if pairs[i].len() < 2 {
                            return false;
                        }
                        i += 1;
                    }
                }
                true
            },
            Ok(ASGIMessageType::HTTPBody) => match &self.response_intent {
                Some((status, _)) => self.tx.is_none() || valid_status(*status),
                None => !self.response_started || self.response_chunked,
            },
            _ => true,
        }
    }

    /// Takes an event from the application.
    ///
    /// Headers that overfill the header table are refused with
    /// [`ASGIError::HeaderOverflow`] and change nothing.
    pub fn send<E>(&mut self, event: ASGIEvent<E>) -> (res: Result<HTTPAction<T>, ASGIError>)
        requires
            old(self).wf(),
            http_accepts(old(self)@, event),
        ensures
            final(self).wf(),
            http_outcome(old(self)@, event, final(self)@, action_view(res)),
    {
        match adapt_message_type(&event.kind) {
            Ok(ASGIMessageType::HTTPStart) => {
                if self.response_started {
                    return Err(ASGIError::Flow);
                }
                let status = match adapt_status_code(&event.status) {
                    Ok(status) => status,
                    Err(err) => return Err(err),
                };
                let headers = match adapt_headers(self.server.clone(), &event.headers) {
                    Ok(headers) => headers,
                    Err(err) => return Err(err),
                };
                self.response_intent = Some((status, headers));
                self.response_started = true;
                Ok(HTTPAction::Done)
            },
            Ok(ASGIMessageType::HTTPBody) => {
                let (body, more) = adapt_body(event.body, &event.more_body);
                match (self.response_started, more, self.response_chunked) {
                    (true, false, false) => {
                        let (status, headers) = self.response_intent.take().unwrap();
                        let response = self.send_response(
                            status,
                            headers,
                            ResponseBody::Full(body),
                        );
                        Ok(HTTPAction::Respond { response })
                    },
                    (true, true, false) => {
                        self.response_chunked = true;
                        let (status, headers) = self.response_intent.take().unwrap();
                        self.body_open = true;
                        let response = self.send_response(status, headers, ResponseBody::Channel);
                        Ok(HTTPAction::Stream { response, chunk: body })
                    },
                    (true, true, true) => {
                        if self.body_open {
                            Ok(HTTPAction::Chunk { chunk: body })
                        } else {
                            Err(ASGIError::Flow)
                        }
                    },
                    (true, false, true) => {
                        if self.body_open {
                            self.body_open = false;
                            let last = if body.len() == 0 {
                                None
                            } else {
                                Some(body)
                            };
                            Ok(HTTPAction::Finish { last })
                        } else {
                            Err(ASGIError::Flow)
                        }
                    },
                    _ => Err(ASGIError::Flow),
                }
            },
            Ok(ASGIMessageType::HTTPFile) => {
                match (self.response_started, adapt_file(event.path), self.tx.take()) {
                    (true, Ok(path), Some(tx)) => {
                        let (status, headers) = self.response_intent.take().unwrap();
                        Ok(HTTPAction::File { tx, path, status, headers })
                    },
                    _ => Err(ASGIError::Flow),
                }
            },
            Err(err) => Err(err),
            _ => Err(ASGIError::Message),
        }
    }
}

} // verus!
