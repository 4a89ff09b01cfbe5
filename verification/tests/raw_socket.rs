use handshake::solana::error::{ErrorKind, IoFailure};
use handshake::solana::rpc::node::RpcNode;
use handshake::solana::transport::tcp::{
    Tcp, TcpAction, TcpEvent, TcpExchange, TcpStage, READ_BUFFER_SIZE, TCP_TIMEOUT_SECONDS,
};
use handshake::solana::transport::Step;
use handshake::solana::TransportType;

const REQUEST: &str = "{\"id\":1,\"jsonrpc\":\"2.0\",\"method\":\"getVersion\"}";

fn payload() -> serde_json::Value {
    RpcNode::new("127.0.0.1:8080".to_string(), TransportType::Tcp).get_handshake_payload()
}

fn begun(remote: &str, is_secure: bool, timeout: Option<u32>) -> TcpExchange {
    match Tcp::new(remote.to_string(), is_secure).connect_and_send(timeout, &payload()) {
        Step::Continue(exchange) => exchange,
        Step::Finish(_) => panic!("the exchange ended before it began"),
    }
}

fn next(exchange: TcpExchange, event: TcpEvent) -> TcpExchange {
    match exchange.advance(event) {
        Step::Continue(exchange) => exchange,
        Step::Finish(_) => panic!("the exchange ended early"),
    }
}

fn failure(kind: std::io::ErrorKind, message: &str) -> TcpEvent {
    TcpEvent::failed(&std::io::Error::new(kind, message.to_string()))
}

fn reading_plain() -> TcpExchange {
    let exchange = begun("127.0.0.1:8080", false, None);
    let exchange = next(exchange, TcpEvent::Done);
    let exchange = next(exchange, TcpEvent::Done);
    let exchange = next(exchange, TcpEvent::Done);
    let exchange = next(exchange, TcpEvent::Done);
    next(exchange, TcpEvent::Done)
}

fn reading_secure() -> TcpExchange {
    let exchange = begun("node.example", true, None);
    let exchange = next(exchange, TcpEvent::Done);
    let exchange = next(exchange, TcpEvent::Done);
    next(exchange, TcpEvent::Done)
}

#[test]
fn tcp_new_keeps_its_arguments() {
    let tcp = Tcp::new("127.0.0.1:8080".to_string(), true);
    assert_eq!(tcp.remote(), "127.0.0.1:8080");
    assert!(tcp.is_secure());
    assert!(!Tcp::new("127.0.0.1:8080".to_string(), false).is_secure());
}

#[test]
fn request_frames_the_payload() {
    let tcp = Tcp::new("127.0.0.1:8080".to_string(), false);
    let expected = format!(
        "POST / HTTP/1.1\r\nHost: 127.0.0.1:8080\r\nContent-Type: application/json\r\nConnection: close\r\nContent-Length: 46\r\n\r\n{}\r\n",
        REQUEST
    );
    assert_eq!(tcp.request(&payload()), expected);
}

#[test]
fn request_counts_the_bytes_of_the_payload() {
    let tcp = Tcp::new("h".to_string(), false);
    let value = serde_json::Value::String("é✓".to_string());
    let expected =
        "POST / HTTP/1.1\r\nHost: h\r\nContent-Type: application/json\r\nConnection: close\r\nContent-Length: 7\r\n\r\n\"é✓\"\r\n";
    assert_eq!(tcp.request(&value), expected);
    let empty = serde_json::Value::Object(serde_json::Map::new());
    let expected =
        "POST / HTTP/1.1\r\nHost: h\r\nContent-Type: application/json\r\nConnection: close\r\nContent-Length: 2\r\n\r\n{}\r\n";
    assert_eq!(tcp.request(&empty), expected);
}

#[test]
fn request_is_the_same_each_time() {
    let tcp = Tcp::new("127.0.0.1:8080".to_string(), false);
    assert_eq!(tcp.request(&payload()), tcp.request(&payload()));
}

#[test]
fn plain_exchange_goes_through_its_stages() {
    let exchange = begun("127.0.0.1:8080", false, Some(5));
    assert_eq!(exchange.stage, TcpStage::Connect);
    assert_eq!(exchange.ttl, 5);
    match exchange.action() {
        TcpAction::Connect(remote) => assert_eq!(remote, "127.0.0.1:8080"),
        _ => panic!("the exchange does not begin by connecting"),
    }
    let exchange = next(exchange, TcpEvent::Done);
    assert_eq!(exchange.stage, TcpStage::SetTtl);
    assert!(matches!(exchange.action(), TcpAction::SetTtl(5)));
    let exchange = next(exchange, TcpEvent::Done);
    assert_eq!(exchange.stage, TcpStage::AwaitWritable);
    assert!(matches!(exchange.action(), TcpAction::AwaitWritable));
    let exchange = next(exchange, TcpEvent::Done);
    assert_eq!(exchange.stage, TcpStage::Write);
    let expected = Tcp::new("127.0.0.1:8080".to_string(), false).request(&payload());
    match exchange.action() {
        TcpAction::TryWrite(request) => assert_eq!(request, expected),
        _ => panic!("the exchange does not try to write"),
    }
    let exchange = next(exchange, TcpEvent::Done);
    assert_eq!(exchange.stage, TcpStage::AwaitReadable);
    assert!(matches!(exchange.action(), TcpAction::AwaitReadable));
    let exchange = next(exchange, TcpEvent::Done);
    assert_eq!(exchange.stage, TcpStage::Read);
    assert!(matches!(exchange.action(), TcpAction::TryRead(1024)));
    assert_eq!(READ_BUFFER_SIZE, 1024);
}

#[test]
fn plain_exchange_falls_back_to_the_default_time_to_live() {
    let exchange = begun("127.0.0.1:8080", false, None);
    assert_eq!(exchange.ttl, 60);
    assert_eq!(TCP_TIMEOUT_SECONDS, 60);
}

#[test]
fn plain_exchange_goes_on_when_the_time_to_live_cannot_be_set() {
    let exchange = next(begun("127.0.0.1:8080", false, None), TcpEvent::Done);
    let exchange = next(exchange, failure(std::io::ErrorKind::Unsupported, "no ttl"));
    assert_eq!(exchange.stage, TcpStage::AwaitWritable);
}

#[test]
fn plain_exchange_ends_when_the_write_fails() {
    let exchange = next(begun("127.0.0.1:8080", false, None), TcpEvent::Done);
    let exchange = next(exchange, TcpEvent::Done);
    let exchange = next(exchange, TcpEvent::Done);
    assert_eq!(exchange.stage, TcpStage::Write);
    match exchange.advance(failure(std::io::ErrorKind::BrokenPipe, "broken pipe")) {
        Step::Finish(Err(error)) => {
            assert_eq!(error.kind, ErrorKind::Io);
            assert_eq!(error.io_kind, std::io::ErrorKind::BrokenPipe);
            assert_eq!(error.cause, "broken pipe");
        }
        _ => panic!("the failed write did not end the exchange"),
    }
}

#[test]
fn plain_exchange_reads_again_where_the_read_would_block() {
    let exchange = next(reading_plain(), failure(std::io::ErrorKind::WouldBlock, "not yet"));
    assert_eq!(exchange.stage, TcpStage::AwaitReadable);
    let exchange = next(exchange, TcpEvent::Done);
    assert_eq!(exchange.stage, TcpStage::Read);
    let exchange = next(exchange, failure(std::io::ErrorKind::WouldBlock, "not yet"));
    let exchange = next(exchange, TcpEvent::Done);
    let mut buffer = b"HTTP/1.1 200 OK\r\n\r\n{\"ok\":true}\r\n".to_vec();
    let count = buffer.len();
    buffer.resize(1024, 0);
    match exchange.advance(TcpEvent::Data(buffer, count)) {
        Step::Finish(Ok(reply)) => assert_eq!(reply, "HTTP/1.1 200 OK\r\n\r\n{\"ok\":true}"),
        _ => panic!("the read did not end the exchange with its reply"),
    }
}

#[test]
fn plain_exchange_keeps_the_bytes_that_were_read_and_trims_them() {
    let mut buffer = vec![b' '; 1024];
    buffer[0] = b'a';
    buffer[1] = b' ';
    buffer[2] = b'b';
    buffer[3] = b'\n';
    buffer[4] = b'c';
    match reading_plain().advance(TcpEvent::Data(buffer, 4)) {
        Step::Finish(Ok(reply)) => assert_eq!(reply, "a b"),
        _ => panic!("the read did not end the exchange with its reply"),
    }
    match reading_plain().advance(TcpEvent::Data(vec![b'x', b'y'], 9)) {
        Step::Finish(Ok(reply)) => assert_eq!(reply, "xy"),
        _ => panic!("the read did not end the exchange with its reply"),
    }
    match reading_plain().advance(TcpEvent::Data(vec![b'x', b'y'], 0)) {
        Step::Finish(Ok(reply)) => assert_eq!(reply, ""),
        _ => panic!("the read did not end the exchange with its reply"),
    }
}

#[test]
fn plain_exchange_replaces_bytes_that_are_not_utf8() {
    match reading_plain().advance(TcpEvent::Data(vec![b'o', 0xc3, b'k', b'\n'], 4)) {
        Step::Finish(Ok(reply)) => assert_eq!(reply, "o\u{fffd}k"),
        _ => panic!("the read did not end the exchange with its reply"),
    }
}

#[test]
fn plain_exchange_fails_to_connect_with_a_connection_error() {
    let exchange = begun("127.0.0.1:9999", false, None);
    let refused = failure(std::io::ErrorKind::ConnectionRefused, "Connection refused");
    match exchange.advance(refused) {
        Step::Finish(Err(error)) => {
            assert_eq!(error.kind, ErrorKind::Connection);
            assert_eq!(error.io_kind, std::io::ErrorKind::ConnectionRefused);
            assert_eq!(error.cause, "Connection refused");
            assert_eq!(error.message(), "ConnectionError: Connection refused");
        }
        _ => panic!("the failure did not end the exchange"),
    }
}

#[test]
fn plain_exchange_fails_with_an_io_error_after_connecting() {
    let waiting = next(next(begun("h", false, None), TcpEvent::Done), TcpEvent::Done);
    match waiting.advance(failure(std::io::ErrorKind::BrokenPipe, "gone")) {
        Step::Finish(Err(error)) => {
            assert_eq!(error.kind, ErrorKind::Io);
            assert_eq!(error.io_kind, std::io::ErrorKind::BrokenPipe);
            assert_eq!(error.cause, "gone");
        }
        _ => panic!("the failure did not end the exchange"),
    }
    match reading_plain().advance(failure(std::io::ErrorKind::ConnectionReset, "reset")) {
        Step::Finish(Err(error)) => {
            assert_eq!(error.kind, ErrorKind::Io);
            assert_eq!(error.io_kind, std::io::ErrorKind::ConnectionReset);
        }
        _ => panic!("the failure did not end the exchange"),
    }
    let readable = next(reading_plain(), failure(std::io::ErrorKind::WouldBlock, "not yet"));
    match readable.advance(failure(std::io::ErrorKind::WouldBlock, "not yet")) {
        Step::Finish(Err(error)) => {
            assert_eq!(error.kind, ErrorKind::Io);
            assert_eq!(error.io_kind, std::io::ErrorKind::WouldBlock);
        }
        _ => panic!("the failure did not end the exchange"),
    }
}

#[test]
fn secure_exchange_refuses_an_address_that_names_no_server() {
    let tcp = Tcp::new("127.0.0.1:8080".to_string(), true);
    match tcp.connect_and_send(None, &payload()) {
        Step::Finish(Err(error)) => {
            assert_eq!(error.kind, ErrorKind::AddressResolution);
            assert_eq!(error.io_kind, std::io::ErrorKind::InvalidInput);
            assert_eq!(error.cause, "Invalid DNS name");
        }
        _ => panic!("the address was taken for the name of a server"),
    }
    let tcp = Tcp::new("not a name".to_string(), true);
    assert!(matches!(tcp.connect_and_send(None, &payload()), Step::Finish(Err(_))));
}

#[test]
fn secure_exchange_takes_a_name_or_an_ip_address() {
    assert_eq!(begun("node.example", true, None).stage, TcpStage::Connect);
    assert_eq!(begun("127.0.0.1", true, None).stage, TcpStage::Connect);
    assert_eq!(begun("::1", true, None).stage, TcpStage::Connect);
}

#[test]
fn plain_exchange_takes_any_address() {
    assert_eq!(begun("not a name", false, None).stage, TcpStage::Connect);
}

#[test]
fn secure_exchange_goes_through_its_stages() {
    let exchange = begun("node.example", true, Some(5));
    assert!(matches!(exchange.action(), TcpAction::Connect(_)));
    let exchange = next(exchange, TcpEvent::Done);
    assert_eq!(exchange.stage, TcpStage::Secure);
    match exchange.action() {
        TcpAction::Secure(name) => assert_eq!(name, "node.example"),
        _ => panic!("the exchange does not make the handshake"),
    }
    let exchange = next(exchange, TcpEvent::Done);
    assert_eq!(exchange.stage, TcpStage::Write);
    let expected = Tcp::new("node.example".to_string(), true).request(&payload());
    match exchange.action() {
        TcpAction::WriteAll(request) => assert_eq!(request, expected),
        _ => panic!("the exchange does not write the whole request"),
    }
    let exchange = next(exchange, TcpEvent::Done);
    assert_eq!(exchange.stage, TcpStage::Read);
    assert!(matches!(exchange.action(), TcpAction::ReadToEnd));
}

#[test]
fn secure_exchange_gives_the_whole_reply_untrimmed() {
    let bytes = b"HTTP/1.1 200 OK\r\n\r\n{\"ok\":true}\r\n".to_vec();
    let count = bytes.len();
    match reading_secure().advance(TcpEvent::Data(bytes, count)) {
        Step::Finish(Ok(reply)) => assert_eq!(reply, "HTTP/1.1 200 OK\r\n\r\n{\"ok\":true}\r\n"),
        _ => panic!("the read did not end the exchange with its reply"),
    }
}

#[test]
fn secure_exchange_fails_by_the_stage() {
    let exchange = begun("node.example", true, None);
    match exchange.advance(failure(std::io::ErrorKind::TimedOut, "timed out")) {
        Step::Finish(Err(error)) => assert_eq!(error.kind, ErrorKind::Connection),
        _ => panic!("the failure did not end the exchange"),
    }
    let securing = next(begun("node.example", true, None), TcpEvent::Done);
    match securing.advance(failure(std::io::ErrorKind::InvalidData, "bad certificate")) {
        Step::Finish(Err(error)) => {
            assert_eq!(error.kind, ErrorKind::Tls);
            assert_eq!(error.io_kind, std::io::ErrorKind::InvalidData);
            assert_eq!(error.cause, "bad certificate");
        }
        _ => panic!("the failure did not end the exchange"),
    }
    let writing = next(next(begun("node.example", true, None), TcpEvent::Done), TcpEvent::Done);
    match writing.advance(failure(std::io::ErrorKind::BrokenPipe, "gone")) {
        Step::Finish(Err(error)) => assert_eq!(error.kind, ErrorKind::Io),
        _ => panic!("the failure did not end the exchange"),
    }
    match reading_secure().advance(failure(std::io::ErrorKind::WouldBlock, "not yet")) {
        Step::Finish(Err(error)) => assert_eq!(error.kind, ErrorKind::Io),
        _ => panic!("the failure did not end the exchange"),
    }
}

#[test]
fn raw_socket_exchange_ends_on_an_event_out_of_turn() {
    match begun("h", false, None).advance(TcpEvent::Data(vec![], 0)) {
        Step::Finish(Err(error)) => {
            assert_eq!(error.kind, ErrorKind::Protocol);
            assert_eq!(error.cause, "unexpected event");
        }
        _ => panic!("the event out of turn did not end the exchange"),
    }
    match reading_plain().advance(TcpEvent::Done) {
        Step::Finish(Err(error)) => assert_eq!(error.kind, ErrorKind::Protocol),
        _ => panic!("the event out of turn did not end the exchange"),
    }
}

#[test]
fn io_failure_reads_an_io_error() {
    let error = std::io::Error::new(std::io::ErrorKind::AddrInUse, "taken");
    let failure = IoFailure::from_io(&error);
    assert_eq!(failure.kind, std::io::ErrorKind::AddrInUse);
    assert_eq!(failure.message, "taken");
}

#[test]
fn failed_event_carries_the_kind_and_the_message_of_its_error() {
    let error = std::io::Error::new(std::io::ErrorKind::WouldBlock, "not yet");
    match TcpEvent::failed(&error) {
        TcpEvent::Failed(failure) => {
            assert_eq!(failure.kind, std::io::ErrorKind::WouldBlock);
            assert_eq!(failure.message, "not yet");
        }
        _ => panic!("a failed action gave another event"),
    }
    let error = std::io::Error::from(std::io::ErrorKind::UnexpectedEof);
    match TcpEvent::failed(&error) {
        TcpEvent::Failed(failure) => {
            assert_eq!(failure.kind, std::io::ErrorKind::UnexpectedEof);
            assert_eq!(failure.message, error.to_string());
        }
        _ => panic!("a failed action gave another event"),
    }
}
