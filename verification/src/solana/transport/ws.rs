//! The WebSocket transport: the address it connects to, the steps of its
//! exchange, and the mapping of WebSocket errors.

use crate::solana::error::{ErrorKind, Failure, IoFailure, TransportError};
use crate::solana::json::{json_of, json_text, write_json};
use crate::solana::text::{decode_lossy, starts_with, utf8_lossy};
use crate::solana::transport::{out_of_turn, unexpected_event, Step, Verdict};
use serde_json::Value;
use tokio_tungstenite::tungstenite::error::Error as WsError;
use tokio_tungstenite::tungstenite::protocol::Message;
use vstd::prelude::*;
use vstd::string::*;

verus! {

/// A WebSocket transport to one remote address.
#[derive(Debug)]
pub struct Ws {
    remote: String,
    is_secure: bool,
}

impl Ws {
    /// The address the transport was made for.
    pub closed spec fn spec_remote(&self) -> Seq<char> {
        self.remote@
    }

    /// Whether the transport was asked to be secure.
    pub closed spec fn spec_is_secure(&self) -> bool {
        self.is_secure
    }

    /// A transport to `remote`, secure or not.
    pub fn new(remote: String, is_secure: bool) -> (ws: Ws)
        ensures
            ws.spec_remote() == remote@,
            ws.spec_is_secure() == is_secure,
    {
        Ws { remote, is_secure }
    }

    /// The address the transport was made for.
    pub fn remote(&self) -> (remote: &str)
        ensures
            remote@ == self.spec_remote(),
    {
        self.remote.as_str()
    }

    /// Whether the transport was asked to be secure.
    #[verifier::when_used_as_spec(spec_is_secure)]
    pub fn is_secure(&self) -> (secure: bool)
        ensures
            secure == self.spec_is_secure(),
    {
        self.is_secure
    }

    /// Whether the transport makes the scheme of its address secure: the
    /// address carries the insecure scheme and security is asked for. The
    /// caller may want to warn of it.
    pub fn rewrites_scheme(&self) -> (rewrites: bool)
        ensures
            rewrites == (insecure_scheme().is_prefix_of(self.spec_remote())
                && self.spec_is_secure()),
    {
        self.is_secure && starts_with(self.remote.as_str(), "ws://")
    }

    /// The URL that the transport connects to.
    pub fn url(&self) -> (url: String)
        ensures
            url@ == rationalised(self.spec_remote(), self.spec_is_secure()),
    {
        rationalise_url(self.remote.as_str(), self.is_secure)
    }
}

/// The scheme prefix of an insecure WebSocket URL.
pub open spec fn insecure_scheme() -> Seq<char> {
    "ws://"@
}

/// The scheme prefix of a secure WebSocket URL.
pub open spec fn secure_scheme() -> Seq<char> {
    "wss://"@
}

/// The URL that stands for `remote`: a secure URL as it is; an insecure URL
/// with its scheme made secure where security is asked for; anything else
/// behind the scheme that the flag implies.
pub open spec fn rationalised(remote: Seq<char>, is_secure: bool) -> Seq<char> {
    if secure_scheme().is_prefix_of(remote) {
        remote
    } else if insecure_scheme().is_prefix_of(remote) && is_secure {
        secure_scheme() + remote.skip(insecure_scheme().len() as int)
    } else if is_secure {
        secure_scheme() + remote
    } else {
        insecure_scheme() + remote
    }
}

/// Gives `remote` the WebSocket scheme that the security flag asks for.
pub fn rationalise_url(remote: &str, is_secure: bool) -> (url: String)
    ensures
        url@ == rationalised(remote@, is_secure),
{
    if starts_with(remote, "wss://") {
        String::from_str(remote)
    } else if is_secure && starts_with(remote, "ws://") {
        proof {
            reveal_strlit("ws://");
        }
        let len: usize = remote.unicode_len();
        let rest = remote.substring_char(5, len);
        let mut url = String::from_str("wss://");
        url.append(rest);
        assert(remote@.skip(5) =~= remote@.subrange(5, len as int));
        url
    } else if is_secure {
        let mut url = String::from_str("wss://");
        url.append(remote);
        url
    } else {
        let mut url = String::from_str("ws://");
        url.append(remote);
        url
    }
}

/// A URL that carries the secure scheme is left as it is, whatever the flag.
pub proof fn lemma_secure_url_unchanged(url: Seq<char>, is_secure: bool)
    requires
        secure_scheme().is_prefix_of(url),
    ensures
        rationalised(url, is_secure) == url,
{
}

/// Every rationalised URL begins with one of the two WebSocket schemes, and
/// with the secure one where security is asked for.
pub proof fn lemma_rationalised_has_scheme(remote: Seq<char>, is_secure: bool)
    ensures
        secure_scheme().is_prefix_of(rationalised(remote, is_secure)) || insecure_scheme().is_prefix_of(
            rationalised(remote, is_secure),
        ),
        is_secure ==> secure_scheme().is_prefix_of(rationalised(remote, is_secure)),
{
    let url = rationalised(remote, is_secure);
    if secure_scheme().is_prefix_of(remote) {
    } else if is_secure {
        assert(url.subrange(0, secure_scheme().len() as int) =~= secure_scheme());
    } else {
        assert(url.subrange(0, insecure_scheme().len() as int) =~= insecure_scheme());
    }
}

/// Rationalising for a secure transport is idempotent: a URL that came out of
/// it goes through it again unchanged, and through the insecure one too.
pub proof fn lemma_rationalise_idempotent(remote: Seq<char>, again: bool)
    ensures
        rationalised(rationalised(remote, true), again) == rationalised(remote, true),
{
    lemma_rationalised_has_scheme(remote, true);
}

/// `tungstenite::Error`, carried through without a look inside.
#[verifier::external_type_specification]
#[verifier::external_body]
pub struct ExWsError(tokio_tungstenite::tungstenite::error::Error);

/// `tungstenite::Message`, carried through without a look inside.
#[verifier::external_type_specification]
#[verifier::external_body]
pub struct ExMessage(tokio_tungstenite::tungstenite::protocol::Message);

/// A WebSocket error, as plain values: which error it is, and what its
/// payload displays.
#[derive(Debug)]
pub enum WsFailure {
    /// An I/O error of the underlying connection, by its kind and message.
    Io(IoFailure),
    /// The connection was closed in good order; the text is what the error
    /// displays.
    ConnectionClosed(String),
    /// The connection had been closed before; the text is what the error
    /// displays.
    AlreadyClosed(String),
    /// A TLS error, by what it displays.
    Tls(String),
    /// A capacity that was exceeded, by what the error displays.
    Capacity(String),
    /// A violation of the WebSocket protocol, by what the error displays.
    Protocol(String),
    /// Text that was not UTF-8.
    Utf8,
    /// A URL that cannot be used, by what the error displays.
    Url(String),
    /// Any other error, by what it displays.
    Unmapped(String),
}

/// The failure that a `tungstenite::Error` is: which error, and the text
/// that it carries.
pub uninterp spec fn failure_of(error: WsError) -> WsFailure;

/// Tells the variants of a `tungstenite::Error` apart. Of the I/O error its
/// kind and message are kept; of a TLS, capacity, protocol or URL error the
/// text that its payload displays; of every other error the text that the
/// error itself displays. The failure is a function of the error.
#[verifier::external_body]
fn ws_failure(error: WsError) -> (failure: WsFailure)
    ensures
        failure == failure_of(error),
{
    match error {
        WsError::Io(e) => WsFailure::Io(IoFailure { kind: e.kind(), message: e.to_string() }),
        WsError::ConnectionClosed => WsFailure::ConnectionClosed(error.to_string()),
        WsError::AlreadyClosed => WsFailure::AlreadyClosed(error.to_string()),
        WsError::Tls(e) => WsFailure::Tls(e.to_string()),
        WsError::Capacity(e) => WsFailure::Capacity(e.to_string()),
        WsError::Protocol(e) => WsFailure::Protocol(e.to_string()),
        WsError::Utf8 => WsFailure::Utf8,
        WsError::Url(e) => WsFailure::Url(e.to_string()),
        _ => WsFailure::Unmapped(error.to_string()),
    }
}

/// The class of a WebSocket failure.
pub open spec fn ws_error_kind(failure: WsFailure) -> ErrorKind {
    match failure {
        WsFailure::Io(_) => ErrorKind::Io,
        WsFailure::ConnectionClosed(_) => ErrorKind::Connection,
        WsFailure::AlreadyClosed(_) => ErrorKind::Connection,
        WsFailure::Tls(_) => ErrorKind::Tls,
        WsFailure::Capacity(_) => ErrorKind::Protocol,
        WsFailure::Protocol(_) => ErrorKind::Protocol,
        WsFailure::Utf8 => ErrorKind::Encoding,
        WsFailure::Url(_) => ErrorKind::AddressResolution,
        WsFailure::Unmapped(_) => ErrorKind::Other,
    }
}

/// The kind of I/O error that stands for a WebSocket failure.
pub open spec fn ws_io_kind(failure: WsFailure) -> std::io::ErrorKind {
    match failure {
        WsFailure::Io(io) => io.kind,
        WsFailure::ConnectionClosed(_) => std::io::ErrorKind::BrokenPipe,
        WsFailure::AlreadyClosed(_) => std::io::ErrorKind::BrokenPipe,
        WsFailure::Tls(_) => std::io::ErrorKind::Other,
        WsFailure::Capacity(_) => std::io::ErrorKind::Other,
        WsFailure::Protocol(_) => std::io::ErrorKind::InvalidData,
        WsFailure::Utf8 => std::io::ErrorKind::InvalidData,
        WsFailure::Url(_) => std::io::ErrorKind::InvalidInput,
        WsFailure::Unmapped(_) => std::io::ErrorKind::Other,
    }
}

/// The cause that is reported of a WebSocket failure: the message of the
/// failure, behind a word on what failed where the failure carries one.
pub open spec fn ws_cause(failure: WsFailure) -> Seq<char> {
    match failure {
        WsFailure::Io(io) => io.message@,
        WsFailure::ConnectionClosed(text) => text@,
        WsFailure::AlreadyClosed(text) => text@,
        WsFailure::Tls(text) => "TLS error: "@ + text@,
        WsFailure::Capacity(text) => "Capacity error: "@ + text@,
        WsFailure::Protocol(text) => "Protocol error: "@ + text@,
        WsFailure::Utf8 => "UTF-8 encoding error"@,
        WsFailure::Url(text) => "URL error: "@ + text@,
        WsFailure::Unmapped(text) => "Unmapped WebSocket error: "@ + text@,
    }
}

/// The failure that a WebSocket failure maps to.
pub open spec fn ws_converted(failure: WsFailure) -> Failure {
    Failure {
        kind: ws_error_kind(failure),
        io_kind: ws_io_kind(failure),
        cause: ws_cause(failure),
    }
}

/// `prefix` followed by `text`.
fn prefixed(prefix: &str, text: String) -> (line: String)
    ensures
        line@ == prefix@ + text@,
{
    let mut line = String::from_str(prefix);
    line.append(text.as_str());
    line
}

/// Maps a WebSocket failure to the shared error: every failure has one class,
/// one kind of I/O error and one cause.
pub fn convert_failure(failure: WsFailure) -> (error: TransportError)
    ensures
        error@ == ws_converted(failure),
{
    match failure {
        WsFailure::Io(io) => TransportError::from_io(ErrorKind::Io, io),
        WsFailure::ConnectionClosed(text) => TransportError::new(
            ErrorKind::Connection,
            std::io::ErrorKind::BrokenPipe,
            text,
        ),
        WsFailure::AlreadyClosed(text) => TransportError::new(
            ErrorKind::Connection,
            std::io::ErrorKind::BrokenPipe,
            text,
        ),
        WsFailure::Tls(text) => TransportError::new(
            ErrorKind::Tls,
            std::io::ErrorKind::Other,
            prefixed("TLS error: ", text),
        ),
        WsFailure::Capacity(text) => TransportError::new(
            ErrorKind::Protocol,
            std::io::ErrorKind::Other,
            prefixed("Capacity error: ", text),
        ),
        WsFailure::Protocol(text) => TransportError::new(
            ErrorKind::Protocol,
            std::io::ErrorKind::InvalidData,
            prefixed("Protocol error: ", text),
        ),
        WsFailure::Utf8 => TransportError::new(
            ErrorKind::Encoding,
            std::io::ErrorKind::InvalidData,
            String::from_str("UTF-8 encoding error"),
        ),
        WsFailure::Url(text) => TransportError::new(
            ErrorKind::AddressResolution,
            std::io::ErrorKind::InvalidInput,
            prefixed("URL error: ", text),
        ),
        WsFailure::Unmapped(text) => TransportError::new(
            ErrorKind::Other,
            std::io::ErrorKind::Other,
            prefixed("Unmapped WebSocket error: ", text),
        ),
    }
}

/// Maps an error of the WebSocket layer to the shared error: the mapping of
/// the failure that the error is.
pub fn convert_error(error: WsError) -> (converted: TransportError)
    ensures
        converted@ == ws_converted(failure_of(error)),
{
    convert_failure(ws_failure(error))
}

/// Where a failure carries a message, its cause ends with that message: the
/// message is kept whole.
pub proof fn lemma_cause_keeps_the_message(failure: WsFailure)
    ensures
        failure_message(failure).is_suffix_of(ws_cause(failure)),
{
    let cause = ws_cause(failure);
    let message = failure_message(failure);
    assert(cause.skip(cause.len() - message.len()) =~= message);
}

/// The message that a WebSocket failure carries; the empty text for text
/// that was not UTF-8, which carries none.
pub open spec fn failure_message(failure: WsFailure) -> Seq<char> {
    match failure {
        WsFailure::Io(io) => io.message@,
        WsFailure::ConnectionClosed(text) => text@,
        WsFailure::AlreadyClosed(text) => text@,
        WsFailure::Tls(text) => text@,
        WsFailure::Capacity(text) => text@,
        WsFailure::Protocol(text) => text@,
        WsFailure::Utf8 => Seq::empty(),
        WsFailure::Url(text) => text@,
        WsFailure::Unmapped(text) => text@,
    }
}

/// A WebSocket message, as plain values.
#[derive(Debug)]
pub enum Frame {
    /// A text message.
    Text(String),
    /// A binary message.
    Binary(Vec<u8>),
    /// A ping, with its payload.
    Ping(Vec<u8>),
    /// A pong, with its payload.
    Pong(Vec<u8>),
    /// A close message.
    Close,
    /// A raw frame.
    Raw,
}

/// What a [`Frame`] holds.
pub enum FrameView {
    Text(Seq<char>),
    Binary(Seq<u8>),
    Ping(Seq<u8>),
    Pong(Seq<u8>),
    Close,
    Raw,
}

impl View for Frame {
    type V = FrameView;

    open spec fn view(&self) -> FrameView {
        match *self {
            Frame::Text(text) => FrameView::Text(text@),
            Frame::Binary(bytes) => FrameView::Binary(bytes@),
            Frame::Ping(bytes) => FrameView::Ping(bytes@),
            Frame::Pong(bytes) => FrameView::Pong(bytes@),
            Frame::Close => FrameView::Close,
            Frame::Raw => FrameView::Raw,
        }
    }
}

/// What a `tungstenite::Message` holds: which message it is, and the text or
/// the bytes that it carries.
pub uninterp spec fn message_frame(message: Message) -> FrameView;

/// Tells the variants of a `tungstenite::Message` apart, keeping the text
/// and the bytes that a message carries: the frame is of the message's own
/// variant and holds what the message holds, so it is a function of the
/// message.
#[verifier::external_body]
fn frame_of(message: Message) -> (frame: Frame)
    ensures
        frame@ == message_frame(message),
{
    match message {
        Message::Text(text) => Frame::Text(text),
        Message::Binary(bytes) => Frame::Binary(bytes),
        Message::Ping(bytes) => Frame::Ping(bytes),
        Message::Pong(bytes) => Frame::Pong(bytes),
        Message::Close(_) => Frame::Close,
        Message::Frame(_) => Frame::Raw,
    }
}

/// What a frame answers the request with: the text of a text frame, the
/// bytes of a binary frame decoded as UTF-8, and nothing for any other frame.
pub open spec fn frame_reply(frame: Frame) -> Option<Seq<char>> {
    match frame {
        Frame::Text(text) => Some(text@),
        Frame::Binary(bytes) => Some(utf8_lossy(bytes@)),
        _ => None,
    }
}

/// What the content of a frame answers the request with.
pub open spec fn content_reply(content: FrameView) -> Option<Seq<char>> {
    match content {
        FrameView::Text(text) => Some(text),
        FrameView::Binary(bytes) => Some(utf8_lossy(bytes)),
        _ => None,
    }
}

/// The reply of a frame goes by what the frame holds, and so the reply to a
/// message by what the message holds.
pub proof fn lemma_reply_goes_by_content(frame: Frame)
    ensures
        frame_reply(frame) == content_reply(frame@),
{
}

impl Frame {
    /// The frame that stands for a message of the WebSocket layer: it holds
    /// what the message holds.
    pub fn from_message(message: Message) -> (frame: Frame)
        ensures
            frame@ == message_frame(message),
    {
        frame_of(message)
    }

    /// The reply that the frame carries, if it carries one.
    pub fn reply(self) -> (reply: Option<String>)
        ensures
            match frame_reply(self) {
                Some(text) => reply matches Some(given) && given@ == text,
                None => reply is None,
            },
    {
        match self {
            Frame::Text(text) => Some(text),
            Frame::Binary(bytes) => Some(decode_lossy(bytes.as_slice())),
            _ => None,
        }
    }
}

/// How far a WebSocket exchange has come: what it does next.
#[derive(Debug, Clone, Copy, PartialEq, Eq, Structural)]
pub enum WsStage {
    /// The connection is to be opened.
    Connect,
    /// The request is to be sent.
    Send,
    /// A message is to be received.
    Receive,
}

/// A WebSocket exchange under way.
#[derive(Debug)]
pub struct WsExchange {
    /// The URL that is connected to.
    pub url: String,
    /// The text of the request.
    pub request: String,
    /// What is done next.
    pub stage: WsStage,
}

/// What the driver of a WebSocket exchange is asked to do.
#[derive(Debug)]
pub enum WsAction {
    /// Open a WebSocket connection to the URL.
    Connect(String),
    /// Send the text as one text frame.
    Send(String),
    /// Wait for the next message.
    Receive,
}

/// What the driver reports of the action it was asked for.
#[derive(Debug)]
pub enum WsEvent {
    /// The connection was opened, or the request was sent.
    Done,
    /// A message was received.
    Message(Frame),
    /// The stream of messages ended.
    End,
    /// The action failed.
    Failed(WsFailure),
}

/// The rule of the WebSocket exchange. The connection is opened, then the
/// request is sent, then messages are received until one carries a reply:
/// frames that carry none are passed over, the end of the stream replies with
/// the empty text, and a failure ends the exchange with its mapping.
pub open spec fn ws_verdict(stage: WsStage, event: WsEvent) -> Verdict<WsStage> {
    match (stage, event) {
        (WsStage::Connect, WsEvent::Done) => Verdict::Continue(WsStage::Send),
        (WsStage::Connect, WsEvent::Failed(failure)) => Verdict::Fail(
            ws_converted(failure).while_connecting(),
        ),
        (WsStage::Send, WsEvent::Done) => Verdict::Continue(WsStage::Receive),
        (WsStage::Send, WsEvent::Failed(failure)) => Verdict::Fail(ws_converted(failure)),
        (WsStage::Receive, WsEvent::Message(frame)) => match frame_reply(frame) {
            Some(text) => Verdict::Reply(text),
            None => Verdict::Continue(WsStage::Receive),
        },
        (WsStage::Receive, WsEvent::End) => Verdict::Reply(Seq::empty()),
        (WsStage::Receive, WsEvent::Failed(failure)) => Verdict::Fail(ws_converted(failure)),
        _ => Verdict::Fail(out_of_turn()),
    }
}

/// Whether `step` is the one that `verdict` asks for, after `before`.
pub open spec fn ws_follows(
    step: Step<WsExchange>,
    verdict: Verdict<WsStage>,
    before: WsExchange,
) -> bool {
    match verdict {
        Verdict::Continue(stage) => step matches Step::Continue(next) && next.follows(
            before,
            stage,
        ),
        Verdict::Reply(text) => step.replies(text),
        Verdict::Fail(failure) => step.fails(failure),
    }
}

impl WsEvent {
    /// The event that a received message is: it carries the frame that holds
    /// what the message holds.
    pub fn message(message: Message) -> (event: WsEvent)
        ensures
            event matches WsEvent::Message(frame) && frame@ == message_frame(message),
    {
        WsEvent::Message(Frame::from_message(message))
    }

    /// The event that a failed action is: it carries the failure that the
    /// error is.
    pub fn failed(error: WsError) -> (event: WsEvent)
        ensures
            event == WsEvent::Failed(failure_of(error)),
    {
        WsEvent::Failed(ws_failure(error))
    }
}

impl Ws {
    /// Begins an exchange that sends `payload`. The timeout is accepted and
    /// not enforced: no deadline applies to the connection or to the wait
    /// for a message.
    pub fn connect_and_send(&self, timeout: Option<u32>, payload: &Value) -> (exchange:
        WsExchange)
        ensures
            exchange.begins(*self, json_text(json_of(*payload))),
    {
        let _ = timeout;
        WsExchange { url: self.url(), request: write_json(payload), stage: WsStage::Connect }
    }
}

impl WsExchange {
    /// Whether `action` is what the exchange asks of its driver next.
    pub open spec fn asks(self, action: WsAction) -> bool {
        match self.stage {
            WsStage::Connect => action matches WsAction::Connect(url) && url@ == self.url@,
            WsStage::Send => action matches WsAction::Send(text) && text@ == self.request@,
            WsStage::Receive => action is Receive,
        }
    }

    /// Whether `self` is `before` at the stage `stage`.
    pub open spec fn follows(self, before: WsExchange, stage: WsStage) -> bool {
        &&& self.stage == stage
        &&& self.url@ == before.url@
        &&& self.request@ == before.request@
    }

    /// Whether `self` is the exchange that `ws` begins to send `body`.
    pub open spec fn begins(self, ws: Ws, body: Seq<char>) -> bool {
        &&& self.stage == WsStage::Connect
        &&& self.url@ == rationalised(ws.spec_remote(), ws.spec_is_secure())
        &&& self.request@ == body
    }

    /// What the driver is to do next.
    pub fn action(&self) -> (action: WsAction)
        ensures
            self.asks(action),
    {
        match self.stage {
            WsStage::Connect => WsAction::Connect(self.url.clone()),
            WsStage::Send => WsAction::Send(self.request.clone()),
            WsStage::Receive => WsAction::Receive,
        }
    }

    /// Takes the exchange one step on, by what the driver reports.
    pub fn advance(self, event: WsEvent) -> (step: Step<WsExchange>)
        ensures
            ws_follows(step, ws_verdict(self.stage, event), self),
    {
        match (self.stage, event) {
            (WsStage::Connect, WsEvent::Done) => Step::Continue(
                WsExchange { url: self.url, request: self.request, stage: WsStage::Send },
            ),
            (WsStage::Connect, WsEvent::Failed(failure)) => Step::Finish(
                Err(convert_failure(failure).while_connecting()),
            ),
            (WsStage::Send, WsEvent::Done) => Step::Continue(
                WsExchange { url: self.url, request: self.request, stage: WsStage::Receive },
            ),
            (WsStage::Send, WsEvent::Failed(failure)) => Step::Finish(
                Err(convert_failure(failure)),
            ),
            (WsStage::Receive, WsEvent::Message(frame)) => match frame.reply() {
                Some(reply) => Step::Finish(Ok(reply)),
                None => Step::Continue(self),
            },
            (WsStage::Receive, WsEvent::End) => Step::Finish(Ok(String::new())),
            (WsStage::Receive, WsEvent::Failed(failure)) => Step::Finish(
                Err(convert_failure(failure)),
            ),
            _ => Step::Finish(Err(unexpected_event())),
        }
    }
}

/// Where an exchange stands after a run of events, each taken in turn: at a
/// stage while the run goes on, and at the reply or the failure of the first
/// event that ends it.
pub open spec fn ws_run(stage: WsStage, events: Seq<WsEvent>) -> Verdict<WsStage>
    decreases events.len(),
{
    if events.len() == 0 {
        Verdict::Continue(stage)
    } else {
        match ws_verdict(stage, events[0]) {
            Verdict::Continue(next) => ws_run(next, events.drop_first()),
            Verdict::Reply(text) => Verdict::Reply(text),
            Verdict::Fail(failure) => Verdict::Fail(failure),
        }
    }
}

/// Whether an event is a message that carries no reply.
pub open spec fn carries_no_reply(event: WsEvent) -> bool {
    event matches WsEvent::Message(frame) && frame_reply(frame) is None
}

/// While messages are received, the first frame that carries a reply ends the
/// exchange with that reply: every frame before it is passed over, and
/// nothing after it is looked at.
pub proof fn lemma_first_reply_ends_the_exchange(events: Seq<WsEvent>, first: int, reply: Seq<char>)
    requires
        0 <= first < events.len(),
        forall|i: int| 0 <= i < first ==> carries_no_reply(#[trigger] events[i]),
        events[first] matches WsEvent::Message(frame) && frame_reply(frame) == Some(reply),
    ensures
        ws_run(WsStage::Receive, events) == Verdict::<WsStage>::Reply(reply),
    decreases first,
{
    if first == 0 {
    } else {
        assert(carries_no_reply(events[0]));
        let rest = events.drop_first();
        assert forall|i: int| 0 <= i < first - 1 implies carries_no_reply(#[trigger] rest[i]) by {
            assert(rest[i] == events[i + 1]);
        }
        assert(rest[first - 1] == events[first]);
        lemma_first_reply_ends_the_exchange(rest, first - 1, reply);
    }
}

/// While messages are received, the first failure ends the exchange with its
/// mapping, provided that no frame before it carries a reply.
pub proof fn lemma_first_failure_ends_the_exchange(
    events: Seq<WsEvent>,
    first: int,
    failure: WsFailure,
)
    requires
        0 <= first < events.len(),
        forall|i: int| 0 <= i < first ==> carries_no_reply(#[trigger] events[i]),
        events[first] == WsEvent::Failed(failure),
    ensures
        ws_run(WsStage::Receive, events) == Verdict::<WsStage>::Fail(ws_converted(failure)),
    decreases first,
{
    if first == 0 {
    } else {
        assert(carries_no_reply(events[0]));
        let rest = events.drop_first();
        assert forall|i: int| 0 <= i < first - 1 implies carries_no_reply(#[trigger] rest[i]) by {
            assert(rest[i] == events[i + 1]);
        }
        assert(rest[first - 1] == events[first]);
        lemma_first_failure_ends_the_exchange(rest, first - 1, failure);
    }
}

/// Every WebSocket failure maps to exactly one class of error.
pub proof fn lemma_ws_failure_has_one_kind(failure: WsFailure)
    ensures
        exists|kind: ErrorKind|
            #![trigger kind_is(failure, kind)]
            kind_is(failure, kind) && forall|other: ErrorKind|
                #![trigger kind_is(failure, other)]
                kind_is(failure, other) ==> other == kind,
{
    assert(kind_is(failure, ws_error_kind(failure)));
}

/// Whether `kind` is the class that a WebSocket failure maps to.
pub open spec fn kind_is(failure: WsFailure, kind: ErrorKind) -> bool {
    ws_converted(failure).kind == kind
}

} // verus!
