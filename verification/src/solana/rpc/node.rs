//! The RPC node: the request of its handshake, the choice of its transport,
//! and the handshake itself.

use crate::solana::json::{
    empty_object, insert_member, json_of, json_text, no_members, number_value, object_value,
    text_value, Json, JsonNumber,
};
use crate::solana::node::Handshake;
use crate::solana::text::{body_text, strip_headers};
use crate::solana::transport::tcp::{
    http_request, invalid_name, server_name, time_to_live, Tcp, TcpStage,
};
use crate::solana::transport::ws::{rationalised, Ws, WsStage};
use crate::solana::transport::{
    verdict, Action, ChooseTransport, Event, Exchange, Stage, Step, Transport, Verdict,
};
use crate::solana::TransportType;
use serde_json::Value;
use vstd::prelude::*;
use vstd::string::*;

verus! {

/// A node that is reached by remote procedure calls.
#[derive(Debug)]
pub struct RpcNode {
    /// The address of the node.
    pub remote: String,
    /// The transport over which the node is reached.
    pub transport_type: TransportType,
}

/// The reply to a handshake, once decoded: the version of the node's
/// software and the set of features it supports.
#[derive(Debug)]
pub struct RpcHandshakeResponse {
    solana_core: String,
    feature_set: Option<u64>,
}

/// The request of a handshake: the version of JSON-RPC, the identifier of the
/// request, and the method that is called.
#[derive(Debug)]
pub struct RpcHandshakeRequest {
    json_rpc: String,
    id: u64,
    method: String,
}

/// The JSON object that carries a request: the version under `jsonrpc`, the
/// identifier under `id`, the method under `method`.
pub open spec fn request_json(json_rpc: Seq<char>, id: u64, method: Seq<char>) -> Json {
    Json::Object(
        no_members().insert("jsonrpc"@, Json::Text(json_rpc)).insert(
            "id"@,
            Json::Number(JsonNumber::Unsigned(id)),
        ).insert("method"@, Json::Text(method)),
    )
}

/// The JSON object that carries the request of the handshake.
pub open spec fn handshake_json() -> Json {
    request_json("2.0"@, 1, "getVersion"@)
}

impl RpcHandshakeRequest {
    /// The version of JSON-RPC that the request names.
    pub closed spec fn spec_json_rpc(&self) -> Seq<char> {
        self.json_rpc@
    }

    /// The identifier of the request.
    pub closed spec fn spec_id(&self) -> u64 {
        self.id
    }

    /// The method that the request calls.
    pub closed spec fn spec_method(&self) -> Seq<char> {
        self.method@
    }

    /// The request with identifier 1 that calls `method` by JSON-RPC 2.0.
    pub fn new(method: String) -> (request: RpcHandshakeRequest)
        ensures
            request.spec_json_rpc() == "2.0"@,
            request.spec_id() == 1,
            request.spec_method() == method@,
    {
        RpcHandshakeRequest { json_rpc: String::from_str("2.0"), id: 1, method }
    }

    /// The request with the given version, identifier and method.
    pub fn from_parts(json_rpc: String, id: u64, method: String) -> (request:
        RpcHandshakeRequest)
        ensures
            request.spec_json_rpc() == json_rpc@,
            request.spec_id() == id,
            request.spec_method() == method@,
    {
        RpcHandshakeRequest { json_rpc, id, method }
    }

    /// The same request under another identifier.
    pub fn with_id(self, id: u64) -> (request: RpcHandshakeRequest)
        ensures
            request.spec_json_rpc() == self.spec_json_rpc(),
            request.spec_id() == id,
            request.spec_method() == self.spec_method(),
    {
        RpcHandshakeRequest { json_rpc: self.json_rpc, id, method: self.method }
    }

    /// The version of JSON-RPC that the request names.
    pub fn json_rpc(&self) -> (json_rpc: &str)
        ensures
            json_rpc@ == self.spec_json_rpc(),
    {
        self.json_rpc.as_str()
    }

    /// The identifier of the request.
    pub fn id(&self) -> (id: u64)
        ensures
            id == self.spec_id(),
    {
        self.id
    }

    /// The method that the request calls.
    pub fn method(&self) -> (method: &str)
        ensures
            method@ == self.spec_method(),
    {
        self.method.as_str()
    }

    /// The JSON value that carries the request.
    pub fn to_value(&self) -> (value: Value)
        ensures
            json_of(value) == request_json(
                self.spec_json_rpc(),
                self.spec_id(),
                self.spec_method(),
            ),
    {
        let mut object = empty_object();
        insert_member(&mut object, String::from_str("jsonrpc"), text_value(self.json_rpc.clone()));
        insert_member(&mut object, String::from_str("id"), number_value(self.id));
        insert_member(&mut object, String::from_str("method"), text_value(self.method.clone()));
        object_value(object)
    }
}

/// Building a request is deterministic: two values that carry the same
/// request are written as the same text, and so are the requests that carry
/// them to one address.
pub proof fn lemma_payload_is_deterministic(
    first: Value,
    second: Value,
    json_rpc: Seq<char>,
    id: u64,
    method: Seq<char>,
    remote: Seq<char>,
)
    requires
        json_of(first) == request_json(json_rpc, id, method),
        json_of(second) == request_json(json_rpc, id, method),
    ensures
        json_text(json_of(first)) == json_text(json_of(second)),
        http_request(remote, json_text(json_of(first))) == http_request(
            remote,
            json_text(json_of(second)),
        ),
{
}

impl RpcHandshakeResponse {
    /// The version of the node's software.
    pub closed spec fn spec_solana_core(&self) -> Seq<char> {
        self.solana_core@
    }

    /// The set of features that the node supports, where it names one.
    pub closed spec fn spec_feature_set(&self) -> Option<u64> {
        self.feature_set
    }

    /// The reply that names this version and this set of features.
    pub fn new(solana_core: String, feature_set: Option<u64>) -> (response:
        RpcHandshakeResponse)
        ensures
            response.spec_solana_core() == solana_core@,
            response.spec_feature_set() == feature_set,
    {
        RpcHandshakeResponse { solana_core, feature_set }
    }

    /// The version of the node's software.
    pub fn solana_core(&self) -> (version: &str)
        ensures
            version@ == self.spec_solana_core(),
    {
        self.solana_core.as_str()
    }

    /// The set of features that the node supports, where it names one.
    pub fn feature_set(&self) -> (features: Option<u64>)
        ensures
            features == self.spec_feature_set(),
    {
        self.feature_set
    }
}

/// A handshake under way: the exchange over the transport that was chosen.
#[derive(Debug)]
pub struct Handshaking {
    /// The exchange with the node.
    pub exchange: Exchange,
}

/// The rule of the handshake: that of the exchange, but that a reply over a
/// raw socket is given without its header block.
pub open spec fn shake_verdict(before: Exchange, event: Event) -> Verdict<Stage> {
    match verdict(before, event) {
        Verdict::Reply(frame) => Verdict::Reply(
            if before is Tcp {
                body_text(frame)
            } else {
                frame
            },
        ),
        other => other,
    }
}

/// Whether `step` is the one that `verdict` asks for, after `before`.
pub open spec fn shake_follows(
    step: Step<Handshaking>,
    verdict: Verdict<Stage>,
    before: Exchange,
) -> bool {
    match verdict {
        Verdict::Continue(stage) => step matches Step::Continue(next) && next.exchange.follows(
            before,
            stage,
        ),
        Verdict::Reply(text) => step.replies(text),
        Verdict::Fail(failure) => step.fails(failure),
    }
}

impl Handshaking {
    /// What the driver is to do next.
    pub fn action(&self) -> (action: Action)
        ensures
            self.exchange.asks(action),
    {
        self.exchange.action()
    }

    /// Takes the handshake one step on, by what the driver reports.
    pub fn advance(self, event: Event) -> (step: Step<Handshaking>)
        ensures
            shake_follows(step, shake_verdict(self.exchange, event), self.exchange),
    {
        let raw_socket = match &self.exchange {
            Exchange::Tcp(_) => true,
            Exchange::Ws(_) => false,
        };
        match self.exchange.advance(event) {
            Step::Continue(exchange) => Step::Continue(Handshaking { exchange }),
            Step::Finish(Ok(frame)) => if raw_socket {
                Step::Finish(Ok(strip_headers(frame.as_str())))
            } else {
                Step::Finish(Ok(frame))
            },
            Step::Finish(Err(error)) => Step::Finish(Err(error)),
        }
    }
}

/// The transport that stands for a kind of transport and an address: the
/// raw socket for TCP and TLS, WebSocket for the two WebSocket kinds, each
/// secure where the kind is.
pub open spec fn chosen(transport: Transport, remote: Seq<char>, kind: TransportType) -> bool {
    match transport {
        Transport::Tcp(tcp) => kind.is_raw_socket() && tcp.spec_remote() == remote
            && tcp.spec_is_secure() == kind.is_secure(),
        Transport::Ws(ws) => !kind.is_raw_socket() && ws.spec_remote() == remote
            && ws.spec_is_secure() == kind.is_secure(),
    }
}

impl RpcNode {
    /// The node at `remote`, reached over `transport_type`.
    pub fn new(remote: String, transport_type: TransportType) -> (node: RpcNode)
        ensures
            node.remote@ == remote@,
            node.transport_type == transport_type,
    {
        RpcNode { remote, transport_type }
    }

    /// The payload of the handshake: the request for the node's version.
    pub fn get_handshake_payload(&self) -> (payload: Value)
        ensures
            json_of(payload) == handshake_json(),
    {
        RpcHandshakeRequest::new(String::from_str("getVersion")).to_value()
    }

    /// How the node is named in a line of text.
    pub fn label(&self) -> (label: String)
        ensures
            label@ == "RpcNode("@ + self.remote@ + ")"@,
    {
        let mut label = String::from_str("RpcNode(");
        label.append(self.remote.as_str());
        label.append(")");
        label
    }
}

impl ChooseTransport for RpcNode {
    /// The transport for the node's kind of transport, to the node's address.
    fn get_transport(&self) -> (transport: Transport)
        ensures
            chosen(transport, self.remote@, self.transport_type),
    {
        match self.transport_type {
            TransportType::Ws => Transport::Ws(Ws::new(self.remote.clone(), false)),
            TransportType::Wss => Transport::Ws(Ws::new(self.remote.clone(), true)),
            TransportType::Tls => Transport::Tcp(Tcp::new(self.remote.clone(), true)),
            TransportType::Tcp => Transport::Tcp(Tcp::new(self.remote.clone(), false)),
        }
    }
}

/// Whether `exchange` is the one that begins a handshake with the node at
/// `remote`, over a transport of the given kind, to send `body`: it is about
/// to connect, over the raw socket or over WebSocket as the kind asks, secure
/// where the kind is.
pub open spec fn begins_handshake(
    exchange: Exchange,
    remote: Seq<char>,
    kind: TransportType,
    timeout: Option<u32>,
    body: Seq<char>,
) -> bool {
    match exchange {
        Exchange::Tcp(tcp) => {
            &&& kind.is_raw_socket()
            &&& tcp.stage == TcpStage::Connect
            &&& tcp.remote@ == remote
            &&& tcp.is_secure == kind.is_secure()
            &&& tcp.ttl == time_to_live(timeout)
            &&& tcp.request@ == http_request(remote, body)
        },
        Exchange::Ws(ws) => {
            &&& !kind.is_raw_socket()
            &&& ws.stage == WsStage::Connect
            &&& ws.url@ == rationalised(remote, kind.is_secure())
            &&& ws.request@ == body
        },
    }
}

impl Handshake for RpcNode {
    /// Begins the handshake with the node: chooses the transport and begins
    /// an exchange that sends the request for the node's version. Over TLS
    /// the handshake fails at once where the address names no server.
    fn shake(&self, timeout: Option<u32>) -> (step: Step<Handshaking>)
        ensures
            if self.transport_type == TransportType::Tls && !server_name(self.remote@) {
                step.fails(invalid_name())
            } else {
                step matches Step::Continue(handshaking) && begins_handshake(
                    handshaking.exchange,
                    self.remote@,
                    self.transport_type,
                    timeout,
                    json_text(handshake_json()),
                )
            },
    {
        let transport = self.get_transport();
        let payload = self.get_handshake_payload();
        match transport.connect_and_send(timeout, &payload) {
            Step::Continue(exchange) => Step::Continue(Handshaking { exchange }),
            Step::Finish(result) => Step::Finish(result),
        }
    }
}

} // verus!
