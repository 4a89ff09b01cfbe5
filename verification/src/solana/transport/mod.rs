//! The transports: a byte stream that speaks minimal HTTP, and WebSocket.
//!
//! A transport does no I/O itself. It says what is to be done next, and its
//! driver does that and reports what came of it; the transport then decides
//! how the exchange goes on.

use crate::solana::error::{ErrorKind, Failure, TransportError};
use crate::solana::json::{json_of, json_text};
use crate::solana::transport::tcp::{
    invalid_name, server_name, tcp_verdict, time_to_live, Tcp, TcpAction, TcpEvent, TcpExchange,
    TcpStage,
};
use crate::solana::transport::ws::{ws_verdict, Ws, WsAction, WsEvent, WsExchange, WsStage};
use serde_json::Value;
use vstd::prelude::*;
use vstd::string::*;

pub mod tcp;
pub mod tls;
pub mod ws;

verus! {

/// Where a step of an exchange leads: on to a stage, to the reply, or to a
/// failure.
pub enum Verdict<S> {
    Continue(S),
    Reply(Seq<char>),
    Fail(Failure),
}

/// Where an exchange stands after an event.
#[derive(Debug)]
pub enum Step<X> {
    /// The exchange goes on.
    Continue(X),
    /// The exchange is over, with the reply or with the failure.
    Finish(Result<String, TransportError>),
}

impl<X> Step<X> {
    /// Whether the exchange is over with the reply `text`.
    pub open spec fn replies(self, text: Seq<char>) -> bool {
        self matches Step::Finish(Ok(reply)) && reply@ == text
    }

    /// Whether the exchange is over with the failure `failure`.
    pub open spec fn fails(self, failure: Failure) -> bool {
        self matches Step::Finish(Err(error)) && error@ == failure
    }
}

/// The failure that an event out of turn ends an exchange with.
pub open spec fn out_of_turn() -> Failure {
    Failure {
        kind: ErrorKind::Protocol,
        io_kind: std::io::ErrorKind::InvalidData,
        cause: "unexpected event"@,
    }
}

/// The error for an event that does not answer the action that was asked for.
pub(crate) fn unexpected_event() -> (error: TransportError)
    ensures
        error@ == out_of_turn(),
{
    TransportError::new(
        ErrorKind::Protocol,
        std::io::ErrorKind::InvalidData,
        String::from_str("unexpected event"),
    )
}

/// A transport, of one of the two families.
#[derive(Debug)]
pub enum Transport {
    /// A byte stream that speaks minimal HTTP.
    Tcp(Tcp),
    /// WebSocket.
    Ws(Ws),
}

/// Something that knows over which transport it is reached.
pub trait ChooseTransport {
    /// The transport over which `self` is reached.
    fn get_transport(&self) -> Transport;
}

/// An exchange under way, over either transport.
#[derive(Debug)]
pub enum Exchange {
    Tcp(TcpExchange),
    Ws(WsExchange),
}

/// What the driver of an exchange is asked to do.
#[derive(Debug)]
pub enum Action {
    Tcp(TcpAction),
    Ws(WsAction),
}

/// What the driver reports of the action it was asked for.
#[derive(Debug)]
pub enum Event {
    Tcp(TcpEvent),
    Ws(WsEvent),
}

/// How far an exchange has come, over either transport.
pub enum Stage {
    Tcp(TcpStage),
    Ws(WsStage),
}

/// The rule of an exchange: that of its transport. An event of the other
/// transport is out of turn.
pub open spec fn verdict(before: Exchange, event: Event) -> Verdict<Stage> {
    match (before, event) {
        (Exchange::Tcp(tcp), Event::Tcp(event)) => match tcp_verdict(
            tcp.is_secure,
            tcp.stage,
            event,
        ) {
            Verdict::Continue(stage) => Verdict::Continue(Stage::Tcp(stage)),
            Verdict::Reply(text) => Verdict::Reply(text),
            Verdict::Fail(failure) => Verdict::Fail(failure),
        },
        (Exchange::Ws(ws), Event::Ws(event)) => match ws_verdict(ws.stage, event) {
            Verdict::Continue(stage) => Verdict::Continue(Stage::Ws(stage)),
            Verdict::Reply(text) => Verdict::Reply(text),
            Verdict::Fail(failure) => Verdict::Fail(failure),
        },
        _ => Verdict::Fail(out_of_turn()),
    }
}

impl Exchange {
    /// Whether `self` is `before` at the stage `stage`.
    pub open spec fn follows(self, before: Exchange, stage: Stage) -> bool {
        match (self, before, stage) {
            (Exchange::Tcp(next), Exchange::Tcp(tcp), Stage::Tcp(stage)) => next.follows(
                tcp,
                stage,
            ),
            (Exchange::Ws(next), Exchange::Ws(ws), Stage::Ws(stage)) => next.follows(ws, stage),
            _ => false,
        }
    }

    /// Whether `action` is what the exchange asks of its driver next.
    pub open spec fn asks(self, action: Action) -> bool {
        match (self, action) {
            (Exchange::Tcp(tcp), Action::Tcp(action)) => tcp.asks(action),
            (Exchange::Ws(ws), Action::Ws(action)) => ws.asks(action),
            _ => false,
        }
    }

    /// Whether `self` is the exchange that `transport` begins, with the given
    /// timeout, to send `body`.
    pub open spec fn begins(self, transport: Transport, timeout: Option<u32>, body: Seq<char>) -> bool {
        match (self, transport) {
            (Exchange::Tcp(exchange), Transport::Tcp(tcp)) => exchange.begins(
                tcp,
                time_to_live(timeout),
                body,
            ),
            (Exchange::Ws(exchange), Transport::Ws(ws)) => exchange.begins(ws, body),
            _ => false,
        }
    }
}

impl Transport {
    /// Whether an exchange over the transport fails before it begins: it is
    /// to be secured by TLS and its address names no server.
    pub open spec fn refuses(self) -> bool {
        self matches Transport::Tcp(tcp) && tcp.spec_is_secure() && !server_name(
            tcp.spec_remote(),
        )
    }
}

/// Whether `step` is the one that `verdict` asks for, after `before`.
pub open spec fn follows(step: Step<Exchange>, verdict: Verdict<Stage>, before: Exchange) -> bool {
    match verdict {
        Verdict::Continue(stage) => step matches Step::Continue(next) && next.follows(
            before,
            stage,
        ),
        Verdict::Reply(text) => step.replies(text),
        Verdict::Fail(failure) => step.fails(failure),
    }
}

impl Transport {
    /// Begins an exchange that sends `payload` over the transport.
    pub fn connect_and_send(&self, timeout: Option<u32>, payload: &Value) -> (step: Step<
        Exchange,
    >)
        ensures
            if self.refuses() {
                step.fails(invalid_name())
            } else {
                step matches Step::Continue(exchange) && exchange.begins(
                    *self,
                    timeout,
                    json_text(json_of(*payload)),
                )
            },
    {
        match self {
            Transport::Tcp(tcp) => match tcp.connect_and_send(timeout, payload) {
                Step::Continue(exchange) => Step::Continue(Exchange::Tcp(exchange)),
                Step::Finish(result) => Step::Finish(result),
            },
            Transport::Ws(ws) => Step::Continue(Exchange::Ws(ws.connect_and_send(timeout, payload))),
        }
    }
}

impl Exchange {
    /// What the driver is to do next.
    pub fn action(&self) -> (action: Action)
        ensures
            self.asks(action),
    {
        match self {
            Exchange::Tcp(tcp) => Action::Tcp(tcp.action()),
            Exchange::Ws(ws) => Action::Ws(ws.action()),
        }
    }

    /// Takes the exchange one step on, by what the driver reports.
    pub fn advance(self, event: Event) -> (step: Step<Exchange>)
        ensures
            follows(step, verdict(self, event), self),
    {
        match (self, event) {
            (Exchange::Tcp(tcp), Event::Tcp(event)) => match tcp.advance(event) {
                Step::Continue(next) => Step::Continue(Exchange::Tcp(next)),
                Step::Finish(result) => Step::Finish(result),
            },
            (Exchange::Ws(ws), Event::Ws(event)) => match ws.advance(event) {
                Step::Continue(next) => Step::Continue(Exchange::Ws(next)),
                Step::Finish(result) => Step::Finish(result),
            },
            _ => Step::Finish(Err(unexpected_event())),
        }
    }
}

} // verus!
