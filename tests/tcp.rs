use tokio::io::{AsyncBufReadExt, AsyncReadExt, AsyncWriteExt};
use tcp_manager::address::{address_of, port_text, validate_address};
use tcp_manager::commands::{delivery_ack, send_result, server_started, server_stopped, WriteOutcome};
use tcp_manager::framing::{frame_legacy_message, frame_message, strip_delimiters};
use tcp_manager::reader::{ConnectionHistory, ReadOutcome, Reader, ReaderState};
use tcp_manager::registry::ConnectionRegistry;
use tcp_manager::stats::ServerStats;
use tcp_manager::types::{TcpConnectionRequest, TcpError, TcpMessageOnConnection};

fn line(s: &str) -> ReadOutcome {
    ReadOutcome::Line(s.to_string())
}

fn texts(h: &ConnectionHistory) -> Vec<String> {
    h.snapshot().into_iter().map(|m| m.message).collect()
}

fn request(host: &str, port: u16) -> TcpConnectionRequest {
    TcpConnectionRequest { host: host.to_string(), port }
}

#[test]
fn test_tcp_error_display() {
    let error = TcpError::ConnectionFailed("Connection refused".to_string());
    assert_eq!(error.to_string(), "Connection failed: Connection refused");
}

#[test]
fn error_text_for_each_kind() {
    assert_eq!(TcpError::SendFailed("x".to_string()).to_string(), "Send failed: x");
    assert_eq!(TcpError::InvalidAddress("x".to_string()).to_string(), "Invalid address: x");
    assert_eq!(TcpError::ServerStartFailed("x".to_string()).to_string(), "Server start failed: x");
    assert_eq!(TcpError::ConnectionNotFound("x".to_string()).to_string(), "Connection not found: x");
}

#[test]
fn invalid_address_on_empty_host_or_zero_port() {
    match validate_address("", 9001) {
        Err(TcpError::InvalidAddress(m)) => assert_eq!(m, "Host and port must be valid"),
        other => panic!("unexpected {:?}", other),
    }
    assert!(matches!(validate_address("127.0.0.1", 0), Err(TcpError::InvalidAddress(_))));
    assert_eq!(validate_address("127.0.0.1", 9001).unwrap(), "127.0.0.1:9001");
}

#[test]
fn port_and_address_text() {
    assert_eq!(port_text(0), "0");
    assert_eq!(port_text(7), "7");
    assert_eq!(port_text(80), "80");
    assert_eq!(port_text(65535), "65535");
    assert_eq!(address_of("localhost", 8080), "localhost:8080");
}

#[test]
fn registering_gives_connected_descriptor() {
    let mut reg: ConnectionRegistry<u32> = ConnectionRegistry::new();
    let address = validate_address("127.0.0.1", 9001).unwrap();
    assert_eq!(address, "127.0.0.1:9001");
    let res = reg.register(&request("127.0.0.1", 9001), 1).unwrap();
    assert!(res.success);
    assert!(res.error.is_none());
    let d = res.connection.unwrap();
    assert!(d.connected);
    assert_eq!(d.host, "127.0.0.1");
    assert_eq!(d.port, 9001);
    assert_eq!(d.id.len(), 36);
    for (i, c) in d.id.chars().enumerate() {
        if i == 8 || i == 13 || i == 18 || i == 23 {
            assert_eq!(c, '-');
        } else {
            assert!(c.is_ascii_digit() || ('a'..='f').contains(&c));
        }
    }
    assert_eq!(d.id.chars().nth(14), Some('4'));
    assert!(matches!(d.id.chars().nth(19), Some('8' | '9' | 'a' | 'b')));
    let at: Vec<char> = d.connected_at.chars().collect();
    assert_eq!(at.len(), 19);
    assert_eq!((at[4], at[7], at[10], at[13], at[16]), ('-', '-', ' ', ':', ':'));
    assert!(reg.contains(&d.id));
}

#[test]
fn connection_failure_error_names_address() {
    let address = validate_address("127.0.0.1", 9002).unwrap();
    let e = TcpError::connection_failed(&address, "Connection refused (os error 111)");
    match &e {
        TcpError::ConnectionFailed(m) => {
            assert_eq!(m, "Failed to connect to 127.0.0.1:9002: Connection refused (os error 111)")
        }
        other => panic!("unexpected {:?}", other),
    }
}

#[test]
fn connection_ids_are_distinct() {
    let mut reg: ConnectionRegistry<u32> = ConnectionRegistry::new();
    let mut ids: Vec<String> = Vec::new();
    for k in 0..20u32 {
        let d = reg.register(&request("h", 1), k).unwrap().connection.unwrap();
        assert!(!ids.contains(&d.id));
        ids.push(d.id);
    }
    assert_eq!(reg.len(), 20);
}

#[test]
fn register_at_refuses_a_live_id() {
    let mut reg: ConnectionRegistry<u32> = ConnectionRegistry::new();
    let ok = reg.register_at(&request("h", 5), "id-1".to_string(), "t".to_string(), 7).unwrap();
    assert_eq!(ok.connection.unwrap().connected_at, "t");
    match reg.register_at(&request("h", 5), "id-1".to_string(), "t".to_string(), 8) {
        Err(TcpError::ConnectionFailed(m)) => assert_eq!(m, "Connection ID id-1 is already in use"),
        other => panic!("unexpected {:?}", other.map(|r| r.success)),
    }
    assert_eq!(*reg.get("id-1").unwrap(), 7);
}

#[test]
fn disconnect_unknown_id_is_not_found() {
    let mut reg: ConnectionRegistry<u32> = ConnectionRegistry::new();
    match reg.disconnect("nope") {
        Err(TcpError::ConnectionNotFound(m)) => assert_eq!(m, "Connection with ID nope not found"),
        other => panic!("unexpected {:?}", other),
    }
}

#[test]
fn disconnect_removes_connection() {
    let mut reg: ConnectionRegistry<u32> = ConnectionRegistry::new();
    reg.insert_new("a".to_string(), 1).unwrap();
    reg.insert_new("b".to_string(), 2).unwrap();
    let (c, ack) = reg.disconnect("a").unwrap();
    assert_eq!(c, 1);
    assert_eq!(ack, "Connection closed successfully");
    assert!(!reg.contains("a"));
    assert!(matches!(reg.get("a"), Err(TcpError::ConnectionNotFound(_))));
    assert!(matches!(reg.remove("a"), Err(TcpError::ConnectionNotFound(_))));
    assert_eq!(*reg.get("b").unwrap(), 2);
    assert_eq!(reg.len(), 1);
}

#[test]
fn send_to_unknown_id_is_not_found() {
    let reg: ConnectionRegistry<u32> = ConnectionRegistry::new();
    let req = TcpMessageOnConnection { connection_id: "unknown-id".to_string(), message: "hi".to_string() };
    match reg.prepare_send(&req) {
        Err(TcpError::ConnectionNotFound(m)) => assert_eq!(m, "Connection with ID unknown-id not found"),
        _ => panic!("expected ConnectionNotFound"),
    }
}

#[test]
fn send_frames_hello_with_newline() {
    let mut reg: ConnectionRegistry<u32> = ConnectionRegistry::new();
    reg.insert_new("c1".to_string(), 3).unwrap();
    let req = TcpMessageOnConnection { connection_id: "c1".to_string(), message: "hello".to_string() };
    let (c, out) = reg.prepare_send(&req).unwrap();
    assert_eq!(*c, 3);
    assert_eq!(out.bytes.as_bytes(), b"hello\n");
    assert!(out.timestamp.ends_with("+00:00"));
    let ts = out.timestamp.clone();
    let r = send_result(out, &WriteOutcome::Written);
    assert!(r.success);
    assert_eq!(r.message, "Message sent successfully");
    assert_eq!(r.timestamp, Some(ts));
    assert!(r.error.is_none());
}

#[test]
fn send_failures_are_results_not_errors() {
    let mut reg: ConnectionRegistry<u32> = ConnectionRegistry::new();
    reg.insert_new("c1".to_string(), 3).unwrap();
    let req = TcpMessageOnConnection { connection_id: "c1".to_string(), message: "x".to_string() };
    let (_, out) = reg.prepare_send_at(&req, "T".to_string()).unwrap();
    let r = send_result(out, &WriteOutcome::WriteFailed("broken pipe".to_string()));
    assert!(!r.success);
    assert_eq!(r.message, "Failed to send message: broken pipe");
    assert_eq!(r.error, Some("Send failed: broken pipe".to_string()));
    assert_eq!(r.timestamp, Some("T".to_string()));
    let (_, out) = reg.prepare_send_at(&req, "U".to_string()).unwrap();
    let r = send_result(out, &WriteOutcome::FlushFailed("reset".to_string()));
    assert!(!r.success);
    assert_eq!(r.message, "Failed to flush message: reset");
    assert_eq!(r.error, Some("Flush failed: reset".to_string()));
}

#[test]
fn strip_removes_trailing_delimiters_only() {
    assert_eq!(strip_delimiters("a\n"), "a");
    assert_eq!(strip_delimiters("a\r\n"), "a");
    assert_eq!(strip_delimiters("a\r"), "a");
    assert_eq!(strip_delimiters("x\r\r\n"), "x\r");
    assert_eq!(strip_delimiters("a\n\n"), "a\n");
    assert_eq!(strip_delimiters("a\nb\n"), "a\nb");
    assert_eq!(strip_delimiters("\n"), "");
    assert_eq!(strip_delimiters("\r\n"), "");
    assert_eq!(strip_delimiters(""), "");
    assert_eq!(strip_delimiters("héllo\n"), "héllo");
}

#[test]
fn framing_appends_one_delimiter() {
    assert_eq!(frame_message("ping"), "ping\n");
    assert_eq!(frame_message(""), "\n");
    assert_eq!(frame_legacy_message("ping"), "ping\r");
}

#[test]
fn peer_lines_a_empty_b_give_history_a_b() {
    let mut h = ConnectionHistory::new();
    let mut r = Reader::for_connection("id7");
    assert!(r.step(&mut h, &line("a\n")).is_some());
    assert!(r.step(&mut h, &line("\n")).is_none());
    assert!(r.step(&mut h, &line("b\n")).is_some());
    assert_eq!(texts(&h), vec!["a".to_string(), "b".to_string()]);
    assert_eq!(r.state, ReaderState::Reading);
    let listing = h.listing();
    assert!(listing.success);
    assert_eq!(listing.messages.len(), 2);
    assert_eq!(listing.messages[0].client_addr, "Connection id7");
    let ts = &listing.messages[0].timestamp;
    assert!(ts.len() >= 25);
    assert!(ts.ends_with("+00:00"));
    assert_eq!(ts.chars().nth(10), Some('T'));
}

#[test]
fn delimiter_only_line_adds_nothing() {
    let mut h = ConnectionHistory::new();
    let mut r = Reader::for_connection("c");
    assert!(r.step_at(&mut h, &line("x\r\r\n"), "t".to_string()).is_some());
    assert_eq!(texts(&h), vec!["x\r".to_string()]);
    let mut h = ConnectionHistory::new();
    assert!(r.step_at(&mut h, &line("\n"), "t".to_string()).is_none());
    assert!(r.step_at(&mut h, &line("\r\n"), "t".to_string()).is_none());
    assert_eq!(h.len(), 0);
    assert_eq!(r.state, ReaderState::Reading);
}

#[test]
fn echo_round_trip_records_ping() {
    let mut h = ConnectionHistory::new();
    let mut r = Reader::for_connection("c");
    let echoed = frame_message("ping");
    let ev = r.step_at(&mut h, &ReadOutcome::Line(echoed), "t0".to_string()).unwrap();
    assert_eq!(ev.message.message, "ping");
    assert_eq!(texts(&h), vec!["ping".to_string()]);
}

#[test]
fn each_entry_has_one_event_in_order() {
    let mut h = ConnectionHistory::new();
    let mut r = Reader::for_connection("conn-9");
    let mut events = Vec::new();
    for (k, l) in ["x\n", "\r\n", "y\r\n", "z"].iter().enumerate() {
        if let Some(e) = r.step_at(&mut h, &line(l), format!("t{}", k)) {
            events.push(e);
        }
    }
    let snap = h.snapshot();
    assert_eq!(events.len(), snap.len());
    for (e, m) in events.iter().zip(snap.iter()) {
        assert_eq!(e.connection_id, "conn-9");
        assert_eq!(e.message.message, m.message);
        assert_eq!(e.message.timestamp, m.timestamp);
        assert_eq!(e.message.client_addr, "Connection conn-9");
    }
    assert_eq!(texts(&h), vec!["x".to_string(), "y".to_string(), "z".to_string()]);
    assert_eq!(snap[1].timestamp, "t2");
}

#[test]
fn reader_terminates_on_close_and_error() {
    let mut h = ConnectionHistory::new();
    let mut r = Reader::for_connection("c");
    assert!(r.step(&mut h, &ReadOutcome::Closed).is_none());
    assert_eq!(r.state, ReaderState::Terminated);
    let mut r = Reader::for_peer("10.0.0.1:5000");
    assert!(r.step(&mut h, &ReadOutcome::Failed("reset".to_string())).is_none());
    assert_eq!(r.state, ReaderState::Terminated);
    assert_eq!(h.len(), 0);
}

#[test]
fn peer_reader_labels_with_address() {
    let mut h = ConnectionHistory::new();
    let mut r = Reader::for_peer("10.0.0.1:5000");
    r.step_at(&mut h, &line("hi\n"), "t".to_string());
    assert_eq!(h.snapshot()[0].client_addr, "10.0.0.1:5000");
}

#[test]
fn acknowledgements() {
    assert_eq!(delivery_ack("localhost", 8080), "Message sent successfully to localhost:8080");
    assert_eq!(server_started("0.0.0.0:9000"), "TCP server started on 0.0.0.0:9000");
    assert_eq!(server_stopped(true), "TCP server stopped");
    assert_eq!(server_stopped(false), "No server was running");
    match TcpError::bind_failed("0.0.0.0:1", "denied") {
        TcpError::ServerStartFailed(m) => assert_eq!(m, "Failed to bind to 0.0.0.0:1: denied"),
        other => panic!("unexpected {:?}", other),
    }
    match TcpError::send_failed("pipe") {
        TcpError::SendFailed(m) => assert_eq!(m, "Failed to send message: pipe"),
        other => panic!("unexpected {:?}", other),
    }
}

#[test]
fn server_stats_count() {
    let mut s = ServerStats::new();
    assert_eq!(s.connections, 0);
    assert_eq!(s.messages_received, 0);
    assert_eq!(s.record_connection(), 1);
    assert_eq!(s.record_message(), 1);
    assert_eq!(s.record_message(), 2);
    assert_eq!(s.connections, 1);
}

fn runtime() -> tokio::runtime::Runtime {
    tokio::runtime::Builder::new_current_thread().enable_all().build().unwrap()
}

async fn read_outcome(reader: &mut tokio::io::BufReader<tokio::io::ReadHalf<tokio::io::DuplexStream>>) -> ReadOutcome {
    let mut l = String::new();
    match reader.read_line(&mut l).await {
        Ok(0) => ReadOutcome::Closed,
        Ok(_) => ReadOutcome::Line(l),
        Err(e) => ReadOutcome::Failed(e.to_string()),
    }
}

#[test]
fn live_send_and_receive_over_a_stream() {
    runtime().block_on(async {
        let (local, mut peer) = tokio::io::duplex(1024);
        let (read_half, write_half) = tokio::io::split(local);

        let mut reg = ConnectionRegistry::new();
        let shared = std::sync::Arc::new(tokio::sync::Mutex::new(write_half));
        let d = reg.register(&request("127.0.0.1", 9001), shared).unwrap().connection.unwrap();

        let req = TcpMessageOnConnection { connection_id: d.id.clone(), message: "hello".to_string() };
        let (writer, out) = reg.prepare_send(&req).unwrap();
        let writer = std::sync::Arc::clone(writer);
        let outcome = match writer.lock().await.write_all(out.bytes.as_bytes()).await {
            Ok(()) => WriteOutcome::Written,
            Err(e) => WriteOutcome::WriteFailed(e.to_string()),
        };
        assert!(send_result(out, &outcome).success);
        let mut got = [0u8; 6];
        peer.read_exact(&mut got).await.unwrap();
        assert_eq!(&got, b"hello\n");

        peer.write_all(b"a\n\nb\n").await.unwrap();
        drop(peer);
        let mut buf = tokio::io::BufReader::new(read_half);
        let mut h = ConnectionHistory::new();
        let mut r = Reader::for_connection(&d.id);
        while r.state == ReaderState::Reading {
            let o = read_outcome(&mut buf).await;
            r.step(&mut h, &o);
        }
        assert_eq!(texts(&h), vec!["a".to_string(), "b".to_string()]);
        assert_eq!(reg.disconnect(&d.id).unwrap().1, "Connection closed successfully");
    });
}
