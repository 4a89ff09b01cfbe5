//! The raw-socket transport: a minimal HTTP request over a byte stream, plain
//! or wrapped in TLS, and the steps of its exchange.

use crate::solana::error::{io_kind_of, ErrorKind, Failure, IoFailure, TransportError};
use crate::solana::json::{json_of, json_text, write_json};
use crate::solana::text::{decimal, decimal_text, decode_lossy, trim_end, trimmed_end, utf8_lossy};
use crate::solana::transport::{out_of_turn, unexpected_event, Step, Verdict};
use serde_json::Value;
use vstd::prelude::*;
use vstd::string::*;
use vstd::utf8::*;

verus! {

/// The time to live that a socket is given where the caller names no timeout.
pub const TCP_TIMEOUT_SECONDS: u32 = 60;

/// The size of the buffer that a plain socket is read into. A reply is cut
/// off at this many bytes.
pub const READ_BUFFER_SIZE: usize = 1024;

/// A raw-socket transport to one remote address.
#[derive(Debug)]
pub struct Tcp {
    remote: String,
    is_secure: bool,
}

/// Whether `rustls` takes a text for the name of a server.
pub uninterp spec fn server_name(remote: Seq<char>) -> bool;

/// Asks `rustls::ServerName::try_from` whether `remote` names a server: a
/// DNS name or an IP address. The answer is a function of the text.
#[verifier::external_body]
fn is_server_name(remote: &str) -> (valid: bool)
    ensures
        valid == server_name(remote@),
{
    rustls::ServerName::try_from(remote).is_ok()
}

/// The request that carries `body` to `remote`: a request line, the host,
/// the content type, the wish to close the connection, the length of the
/// body in bytes, a blank line, the body, and a line end.
pub open spec fn http_request(remote: Seq<char>, body: Seq<char>) -> Seq<char> {
    "POST / HTTP/1.1\r\nHost: "@ + remote
        + "\r\nContent-Type: application/json\r\nConnection: close\r\nContent-Length: "@ + decimal(
        encode_utf8(body).len(),
    ) + "\r\n\r\n"@ + body + "\r\n"@
}

/// The time to live that stands for a timeout.
pub open spec fn time_to_live(timeout: Option<u32>) -> u32 {
    match timeout {
        Some(seconds) => seconds,
        None => TCP_TIMEOUT_SECONDS,
    }
}

impl Tcp {
    /// The address the transport was made for.
    pub closed spec fn spec_remote(&self) -> Seq<char> {
        self.remote@
    }

    /// Whether the stream is wrapped in TLS.
    pub closed spec fn spec_is_secure(&self) -> bool {
        self.is_secure
    }

    /// A transport to `remote`, wrapped in TLS or not.
    pub fn new(remote: String, is_secure: bool) -> (tcp: Tcp)
        ensures
            tcp.spec_remote() == remote@,
            tcp.spec_is_secure() == is_secure,
    {
        Tcp { remote, is_secure }
    }

    /// The address the transport was made for.
    pub fn remote(&self) -> (remote: &str)
        ensures
            remote@ == self.spec_remote(),
    {
        self.remote.as_str()
    }

    /// Whether the stream is wrapped in TLS.
    #[verifier::when_used_as_spec(spec_is_secure)]
    pub fn is_secure(&self) -> (secure: bool)
        ensures
            secure == self.spec_is_secure(),
    {
        self.is_secure
    }

    /// The request that carries `payload` to the remote.
    pub fn request(&self, payload: &Value) -> (request: String)
        ensures
            request@ == http_request(self.spec_remote(), json_text(json_of(*payload))),
    {
        let body = write_json(payload);
        let length: usize = body.as_str().as_bytes().len();
        let mut request = String::from_str("POST / HTTP/1.1\r\nHost: ");
        request.append(self.remote.as_str());
        request.append(
            "\r\nContent-Type: application/json\r\nConnection: close\r\nContent-Length: ",
        );
        request.append(decimal_text(length).as_str());
        request.append("\r\n\r\n");
        request.append(body.as_str());
        request.append("\r\n");
        request
    }
}

/// How far a raw-socket exchange has come: what it does next.
#[derive(Debug, Clone, Copy, PartialEq, Eq, Structural)]
pub enum TcpStage {
    /// The TCP connection is to be opened.
    Connect,
    /// The TLS handshake is to be made.
    Secure,
    /// The time to live of the socket is to be set.
    SetTtl,
    /// The socket is to become ready for writing.
    AwaitWritable,
    /// The request is to be written.
    Write,
    /// The socket is to become ready for reading.
    AwaitReadable,
    /// The reply is to be read.
    Read,
}

/// A raw-socket exchange under way.
#[derive(Debug)]
pub struct TcpExchange {
    /// The address that is connected to.
    pub remote: String,
    /// Whether the stream is wrapped in TLS.
    pub is_secure: bool,
    /// The time to live that a plain socket is given.
    pub ttl: u32,
    /// The request that is written.
    pub request: String,
    /// What is done next.
    pub stage: TcpStage,
}

/// What the driver of a raw-socket exchange is asked to do.
#[derive(Debug)]
pub enum TcpAction {
    /// Open a TCP connection to the address.
    Connect(String),
    /// Make the TLS handshake, for the server of this name.
    Secure(String),
    /// Set the time to live of the socket.
    SetTtl(u32),
    /// Wait until the socket can be written to.
    AwaitWritable,
    /// Try once to write the request, without waiting.
    TryWrite(String),
    /// Write the whole request.
    WriteAll(String),
    /// Wait until the socket can be read from.
    AwaitReadable,
    /// Try once to read, without waiting, into a buffer of this size.
    TryRead(usize),
    /// Read until the peer closes the stream.
    ReadToEnd,
}

/// What the driver reports of the action it was asked for.
#[derive(Debug)]
pub enum TcpEvent {
    /// The action succeeded.
    Done,
    /// A read succeeded: the buffer that was read into, and the number of
    /// bytes that the read gave.
    Data(Vec<u8>, usize),
    /// The action failed.
    Failed(IoFailure),
}

/// The bytes that a read gave: the first `count` bytes of the buffer, and
/// the whole buffer where it holds no more.
pub open spec fn received(buffer: Seq<u8>, count: nat) -> Seq<u8> {
    if count <= buffer.len() {
        buffer.take(count as int)
    } else {
        buffer
    }
}

/// The failure of a secure exchange to an address that names no server.
pub open spec fn invalid_name() -> Failure {
    Failure {
        kind: ErrorKind::AddressResolution,
        io_kind: std::io::ErrorKind::InvalidInput,
        cause: "Invalid DNS name"@,
    }
}

/// The rule of the raw-socket exchange.
///
/// Over a plain socket: connect; set the time to live, whether or not that
/// succeeds; wait until the socket can be written to; write the request, in
/// one try; then wait until the socket can be read from and try to read,
/// again where the read would block. The first read that succeeds gives the
/// reply, without its trailing whitespace.
///
/// Over TLS: connect; make the handshake; write the whole request; read to
/// the end of the stream, which gives the reply.
///
/// A failure to connect is a connection failure, a failed handshake a TLS
/// failure, and every other failure an I/O failure; each keeps the kind and
/// the message of the I/O error.
pub open spec fn tcp_verdict(is_secure: bool, stage: TcpStage, event: TcpEvent) -> Verdict<
    TcpStage,
> {
    match (stage, event) {
        (TcpStage::Connect, TcpEvent::Done) => Verdict::Continue(
            if is_secure {
                TcpStage::Secure
            } else {
                TcpStage::SetTtl
            },
        ),
        (TcpStage::Connect, TcpEvent::Failed(failure)) => Verdict::Fail(
            Failure::of_io(ErrorKind::Connection, failure@),
        ),
        (TcpStage::Secure, TcpEvent::Done) => Verdict::Continue(TcpStage::Write),
        (TcpStage::Secure, TcpEvent::Failed(failure)) => Verdict::Fail(
            Failure::of_io(ErrorKind::Tls, failure@),
        ),
        (TcpStage::SetTtl, TcpEvent::Done) => Verdict::Continue(TcpStage::AwaitWritable),
        (TcpStage::SetTtl, TcpEvent::Failed(_)) => Verdict::Continue(TcpStage::AwaitWritable),
        (TcpStage::AwaitWritable, TcpEvent::Done) => Verdict::Continue(TcpStage::Write),
        (TcpStage::AwaitWritable, TcpEvent::Failed(failure)) => Verdict::Fail(
            Failure::of_io(ErrorKind::Io, failure@),
        ),
        (TcpStage::Write, TcpEvent::Done) => Verdict::Continue(
            if is_secure {
                TcpStage::Read
            } else {
                TcpStage::AwaitReadable
            },
        ),
        (TcpStage::Write, TcpEvent::Failed(failure)) => Verdict::Fail(
            Failure::of_io(ErrorKind::Io, failure@),
        ),
        (TcpStage::AwaitReadable, TcpEvent::Done) => Verdict::Continue(TcpStage::Read),
        (TcpStage::AwaitReadable, TcpEvent::Failed(failure)) => Verdict::Fail(
            Failure::of_io(ErrorKind::Io, failure@),
        ),
        (TcpStage::Read, TcpEvent::Data(buffer, count)) => {
            let text = utf8_lossy(received(buffer@, count as nat));
            Verdict::Reply(
                if is_secure {
                    text
                } else {
                    trimmed_end(text)
                },
            )
        },
        (TcpStage::Read, TcpEvent::Failed(failure)) => if !is_secure && failure.kind
            == std::io::ErrorKind::WouldBlock {
            Verdict::Continue(TcpStage::AwaitReadable)
        } else {
            Verdict::Fail(Failure::of_io(ErrorKind::Io, failure@))
        },
        _ => Verdict::Fail(out_of_turn()),
    }
}

impl TcpExchange {
    /// Whether the stage is one that an exchange of this kind goes through.
    pub open spec fn wf(self) -> bool {
        if self.is_secure {
            self.stage == TcpStage::Connect || self.stage == TcpStage::Secure || self.stage
                == TcpStage::Write || self.stage == TcpStage::Read
        } else {
            self.stage != TcpStage::Secure
        }
    }

    /// Whether `self` is the exchange that `tcp` begins, with the given time
    /// to live, to send `body`.
    pub open spec fn begins(self, tcp: Tcp, ttl: u32, body: Seq<char>) -> bool {
        &&& self.stage == TcpStage::Connect
        &&& self.remote@ == tcp.spec_remote()
        &&& self.is_secure == tcp.spec_is_secure()
        &&& self.ttl == ttl
        &&& self.request@ == http_request(tcp.spec_remote(), body)
    }

    /// Whether `action` is what the exchange asks of its driver next.
    pub open spec fn asks(self, action: TcpAction) -> bool {
        match self.stage {
            TcpStage::Connect => action matches TcpAction::Connect(remote) && remote@
                == self.remote@,
            TcpStage::Secure => action matches TcpAction::Secure(name) && name@ == self.remote@,
            TcpStage::SetTtl => action matches TcpAction::SetTtl(ttl) && ttl == self.ttl,
            TcpStage::AwaitWritable => action is AwaitWritable,
            TcpStage::Write => if self.is_secure {
                action matches TcpAction::WriteAll(request) && request@ == self.request@
            } else {
                action matches TcpAction::TryWrite(request) && request@ == self.request@
            },
            TcpStage::AwaitReadable => action is AwaitReadable,
            TcpStage::Read => if self.is_secure {
                action is ReadToEnd
            } else {
                action matches TcpAction::TryRead(size) && size == READ_BUFFER_SIZE
            },
        }
    }

    /// Whether `self` is `before` at the stage `stage`.
    pub open spec fn follows(self, before: TcpExchange, stage: TcpStage) -> bool {
        &&& self.stage == stage
        &&& self.remote@ == before.remote@
        &&& self.is_secure == before.is_secure
        &&& self.ttl == before.ttl
        &&& self.request@ == before.request@
    }

    fn at(self, stage: TcpStage) -> (next: TcpExchange)
        ensures
            next.follows(self, stage),
    {
        TcpExchange {
            remote: self.remote,
            is_secure: self.is_secure,
            ttl: self.ttl,
            request: self.request,
            stage,
        }
    }
}

/// Whether `step` is the one that `verdict` asks for, after `before`.
pub open spec fn tcp_follows(
    step: Step<TcpExchange>,
    verdict: Verdict<TcpStage>,
    before: TcpExchange,
) -> bool {
    match verdict {
        Verdict::Continue(stage) => step matches Step::Continue(next) && next.follows(
            before,
            stage,
        ),
        Verdict::Reply(text) => step.replies(text),
        Verdict::Fail(failure) => step.fails(failure),
    }
}

impl TcpEvent {
    /// The event that a failed action is: it carries the kind of the error
    /// and what the error displays.
    pub fn failed(error: &std::io::Error) -> (event: TcpEvent)
        ensures
            event matches TcpEvent::Failed(failure) && failure.kind == io_kind_of(*error)
                && to_string_from_display_ensures::<std::io::Error>(error, failure.message),
    {
        TcpEvent::Failed(IoFailure::from_io(error))
    }
}

impl Tcp {
    /// Begins an exchange that sends `payload`. Over TLS the address has to
    /// name a server, and the exchange fails at once where it does not. The
    /// timeout gives a plain socket its time to live and is otherwise not
    /// enforced.
    pub fn connect_and_send(&self, timeout: Option<u32>, payload: &Value) -> (step: Step<
        TcpExchange,
    >)
        ensures
            if self.spec_is_secure() && !server_name(self.spec_remote()) {
                step.fails(invalid_name())
            } else {
                step matches Step::Continue(exchange) && exchange.begins(
                    *self,
                    time_to_live(timeout),
                    json_text(json_of(*payload)),
                )
            },
    {
        let request = self.request(payload);
        if self.is_secure && !is_server_name(self.remote.as_str()) {
            return Step::Finish(
                Err(
                    TransportError::new(
                        ErrorKind::AddressResolution,
                        std::io::ErrorKind::InvalidInput,
                        String::from_str("Invalid DNS name"),
                    ),
                ),
            );
        }
        let ttl = match timeout {
            Some(seconds) => seconds,
            None => TCP_TIMEOUT_SECONDS,
        };
        Step::Continue(
            TcpExchange {
                remote: self.remote.clone(),
                is_secure: self.is_secure,
                ttl,
                request,
                stage: TcpStage::Connect,
            },
        )
    }
}

impl TcpExchange {
    /// What the driver is to do next.
    pub fn action(&self) -> (action: TcpAction)
        ensures
            self.asks(action),
    {
        match self.stage {
            TcpStage::Connect => TcpAction::Connect(self.remote.clone()),
            TcpStage::Secure => TcpAction::Secure(self.remote.clone()),
            TcpStage::SetTtl => TcpAction::SetTtl(self.ttl),
            TcpStage::AwaitWritable => TcpAction::AwaitWritable,
            TcpStage::Write => if self.is_secure {
                TcpAction::WriteAll(self.request.clone())
            } else {
                TcpAction::TryWrite(self.request.clone())
            },
            TcpStage::AwaitReadable => TcpAction::AwaitReadable,
            TcpStage::Read => if self.is_secure {
                TcpAction::ReadToEnd
            } else {
                TcpAction::TryRead(READ_BUFFER_SIZE)
            },
        }
    }

    /// The reply that a read gives.
    fn reply(is_secure: bool, buffer: Vec<u8>, count: usize) -> (reply: String)
        ensures
            reply@ == if is_secure {
                utf8_lossy(received(buffer@, count as nat))
            } else {
                trimmed_end(utf8_lossy(received(buffer@, count as nat)))
            },
    {
        let mut bytes = buffer;
        bytes.truncate(count);
        let text = decode_lossy(bytes.as_slice());
        if is_secure {
            text
        } else {
            trim_end(text.as_str())
        }
    }

    /// Takes the exchange one step on, by what the driver reports.
    pub fn advance(self, event: TcpEvent) -> (step: Step<TcpExchange>)
        ensures
            tcp_follows(step, tcp_verdict(self.is_secure, self.stage, event), self),
            self.wf() ==> (step matches Step::Continue(next) ==> next.wf()),
    {
        let is_secure = self.is_secure;
        match (self.stage, event) {
            (TcpStage::Connect, TcpEvent::Done) => if is_secure {
                Step::Continue(self.at(TcpStage::Secure))
            } else {
                Step::Continue(self.at(TcpStage::SetTtl))
            },
            (TcpStage::Connect, TcpEvent::Failed(failure)) => Step::Finish(
                Err(TransportError::from_io(ErrorKind::Connection, failure)),
            ),
            (TcpStage::Secure, TcpEvent::Done) => Step::Continue(self.at(TcpStage::Write)),
            (TcpStage::Secure, TcpEvent::Failed(failure)) => Step::Finish(
                Err(TransportError::from_io(ErrorKind::Tls, failure)),
            ),
            (TcpStage::SetTtl, TcpEvent::Done) => Step::Continue(
                self.at(TcpStage::AwaitWritable),
            ),
            (TcpStage::SetTtl, TcpEvent::Failed(_)) => Step::Continue(
                self.at(TcpStage::AwaitWritable),
            ),
            (TcpStage::AwaitWritable, TcpEvent::Done) => Step::Continue(
                self.at(TcpStage::Write),
            ),
            (TcpStage::AwaitWritable, TcpEvent::Failed(failure)) => Step::Finish(
                Err(TransportError::from_io(ErrorKind::Io, failure)),
            ),
            (TcpStage::Write, TcpEvent::Done) => if is_secure {
                Step::Continue(self.at(TcpStage::Read))
            } else {
                Step::Continue(self.at(TcpStage::AwaitReadable))
            },
            (TcpStage::Write, TcpEvent::Failed(failure)) => Step::Finish(
                Err(TransportError::from_io(ErrorKind::Io, failure)),
            ),
            (TcpStage::AwaitReadable, TcpEvent::Done) => Step::Continue(
                self.at(TcpStage::Read),
            ),
            (TcpStage::AwaitReadable, TcpEvent::Failed(failure)) => Step::Finish(
                Err(TransportError::from_io(ErrorKind::Io, failure)),
            ),
            (TcpStage::Read, TcpEvent::Data(buffer, count)) => Step::Finish(
                Ok(Self::reply(is_secure, buffer, count)),
            ),
            (TcpStage::Read, TcpEvent::Failed(failure)) => {
                let would_block = match failure.kind {
                    std::io::ErrorKind::WouldBlock => true,
                    _ => false,
                };
                if !is_secure && would_block {
                    Step::Continue(self.at(TcpStage::AwaitReadable))
                } else {
                    Step::Finish(Err(TransportError::from_io(ErrorKind::Io, failure)))
                }
            },
            _ => Step::Finish(Err(unexpected_event())),
        }
    }
}

/// The class of the failure that ends a raw-socket exchange at a stage.
pub open spec fn stage_error_kind(stage: TcpStage) -> ErrorKind {
    match stage {
        TcpStage::Connect => ErrorKind::Connection,
        TcpStage::Secure => ErrorKind::Tls,
        _ => ErrorKind::Io,
    }
}

/// The place of a stage in the order of an exchange.
pub open spec fn stage_rank(stage: TcpStage) -> int {
    match stage {
        TcpStage::Connect => 0,
        TcpStage::Secure => 1,
        TcpStage::SetTtl => 2,
        TcpStage::AwaitWritable => 3,
        TcpStage::Write => 4,
        TcpStage::AwaitReadable => 5,
        TcpStage::Read => 6,
    }
}

/// A failed action never gives a reply. It ends the exchange with a failure
/// of exactly one class, that of the stage, which keeps the kind and the
/// message of the I/O error; or the exchange goes on, and then the action was
/// one of the two that may fail: setting the time to live, and a read from a
/// plain socket that would block.
pub proof fn lemma_tcp_failure_has_one_kind(is_secure: bool, stage: TcpStage, failure: IoFailure)
    ensures
        match tcp_verdict(is_secure, stage, TcpEvent::Failed(failure)) {
            Verdict::Fail(mapped) => mapped == Failure::of_io(stage_error_kind(stage), failure@),
            Verdict::Continue(next) => (stage == TcpStage::SetTtl && next
                == TcpStage::AwaitWritable) || (!is_secure && stage == TcpStage::Read
                && failure.kind == std::io::ErrorKind::WouldBlock && next
                == TcpStage::AwaitReadable),
            Verdict::Reply(_) => false,
        },
{
}

/// A failure to write the request ends the exchange with an I/O failure,
/// over a plain socket as over TLS: the reply is not waited for.
pub proof fn lemma_failed_write_ends_the_exchange(is_secure: bool, failure: IoFailure)
    ensures
        tcp_verdict(is_secure, TcpStage::Write, TcpEvent::Failed(failure)) == Verdict::<
            TcpStage,
        >::Fail(Failure::of_io(ErrorKind::Io, failure@)),
{
}

/// An exchange is strictly sequential: each step leads to a later stage, but
/// for the read that would block, which leads back to the wait before it.
pub proof fn lemma_tcp_stages_in_order(is_secure: bool, stage: TcpStage, event: TcpEvent)
    ensures
        tcp_verdict(is_secure, stage, event) matches Verdict::Continue(next) ==> stage_rank(next)
            > stage_rank(stage) || (stage == TcpStage::Read && next == TcpStage::AwaitReadable
            && !is_secure),
{
}

/// A reply comes from a read that succeeded, and from nothing else.
pub proof fn lemma_tcp_reply_is_read(is_secure: bool, stage: TcpStage, event: TcpEvent)
    ensures
        tcp_verdict(is_secure, stage, event) is Reply <==> stage == TcpStage::Read && event is Data,
{
}

/// Where an exchange stands after a run of events, each taken in turn: at a
/// stage while the run goes on, and at the reply or the failure of the first
/// event that ends it.
pub open spec fn tcp_run(is_secure: bool, stage: TcpStage, events: Seq<TcpEvent>) -> Verdict<
    TcpStage,
>
    decreases events.len(),
{
    if events.len() == 0 {
        Verdict::Continue(stage)
    } else {
        match tcp_verdict(is_secure, stage, events[0]) {
            Verdict::Continue(next) => tcp_run(is_secure, next, events.drop_first()),
            Verdict::Reply(text) => Verdict::Reply(text),
            Verdict::Fail(failure) => Verdict::Fail(failure),
        }
    }
}

/// Whether an event is a failure that would block.
pub open spec fn would_block(event: TcpEvent) -> bool {
    event matches TcpEvent::Failed(failure) && failure.kind == std::io::ErrorKind::WouldBlock
}

/// Over a plain socket the first read that succeeds gives the reply, however
/// often a read would block before it: a run of waits and reads, the first
/// `blocked` of which would block, replies with what the next read gave,
/// decoded and without its trailing whitespace.
pub proof fn lemma_first_read_gives_the_reply(
    events: Seq<TcpEvent>,
    blocked: int,
    buffer: Vec<u8>,
    count: usize,
)
    requires
        0 <= blocked,
        events.len() >= 2 * blocked + 2,
        forall|i: int| 0 <= i < blocked ==> #[trigger] events[2 * i] is Done && would_block(
            events[2 * i + 1],
        ),
        events[2 * blocked] is Done,
        events[2 * blocked + 1] == TcpEvent::Data(buffer, count),
    ensures
        tcp_run(false, TcpStage::AwaitReadable, events) == Verdict::<TcpStage>::Reply(
            trimmed_end(utf8_lossy(received(buffer@, count as nat))),
        ),
    decreases blocked,
{
    let after_wait = events.drop_first();
    let zero: int = 0;
    assert(after_wait[0] == events[1]);
    assert(events[0] is Done) by {
        if blocked > 0 {
            assert(events[2 * zero] is Done);
        }
    }
    assert(tcp_run(false, TcpStage::AwaitReadable, events) == tcp_run(
        false,
        TcpStage::Read,
        after_wait,
    ));
    if blocked == 0 {
        assert(after_wait[0] == TcpEvent::Data(buffer, count));
    } else {
        assert(events[2 * zero] is Done && would_block(events[2 * zero + 1]));
        let rest = after_wait.drop_first();
        assert(tcp_run(false, TcpStage::Read, after_wait) == tcp_run(
            false,
            TcpStage::AwaitReadable,
            rest,
        ));
        assert forall|i: int| 0 <= i < blocked - 1 implies #[trigger] rest[2 * i] is Done
            && would_block(rest[2 * i + 1]) by {
            assert(events[2 * (i + 1)] is Done && would_block(events[2 * (i + 1) + 1]));
            assert(rest[2 * i] == events[2 * (i + 1)]);
            assert(rest[2 * i + 1] == events[2 * (i + 1) + 1]);
        }
        assert(rest[2 * (blocked - 1)] == events[2 * blocked]);
        assert(rest[2 * (blocked - 1) + 1] == events[2 * blocked + 1]);
        lemma_first_read_gives_the_reply(rest, blocked - 1, buffer, count);
    }
}

} // verus!
