use echo_server::config::{parse_args, ArgError, Protocol};
use echo_server::echo::echo_bytes;
use echo_server::registry::{farewell_datagram, PeerAddr, PeerRegistry, FAREWELL_MARKER};
use echo_server::server::{
    DatagramAction, DatagramEvent, DatagramServer, Phase, StreamAction, StreamEvent, StreamServer,
};
use echo_server::session::{Session, SessionOutcome};
use echo_server::supervisor::Supervisor;
use echo_server::BUFFER_CAPACITY;

fn args(list: &[&str]) -> Vec<String> {
    list.iter().map(|s| s.to_string()).collect()
}

fn v4(last: u8, port: u16) -> PeerAddr {
    PeerAddr {
        v6: false,
        ip: u32::from_be_bytes([127, 0, 0, last]) as u128,
        port,
        flowinfo: 0,
        scope_id: 0,
    }
}

#[test]
fn no_arguments_select_default_tcp_listener() {
    let c = match parse_args(&args(&[])) {
        Ok(c) => c,
        Err(_) => panic!("defaults rejected"),
    };
    assert_eq!(c.address, "127.0.0.1");
    assert_eq!(c.port, "12345");
    assert_eq!(c.protocol, Protocol::Tcp);
    assert_eq!(c.bind_target(), "127.0.0.1:12345");
}

#[test]
fn single_argument_is_a_usage_error() {
    assert!(matches!(parse_args(&args(&["0.0.0.0"])), Err(ArgError::Usage)));
}

#[test]
fn address_and_port_default_to_tcp() {
    let c = match parse_args(&args(&["0.0.0.0", "7"])) {
        Ok(c) => c,
        Err(_) => panic!("rejected"),
    };
    assert_eq!(c.protocol, Protocol::Tcp);
    assert_eq!(c.bind_target(), "0.0.0.0:7");
}

#[test]
fn explicit_protocols_are_recognised() {
    let tcp = parse_args(&args(&["::1", "9000", "tcp"]));
    assert!(matches!(tcp, Ok(ref c) if c.protocol == Protocol::Tcp && c.address == "::1"));
    let udp = parse_args(&args(&["::1", "9000", "udp", "extra"]));
    assert!(matches!(udp, Ok(ref c) if c.protocol == Protocol::Udp && c.port == "9000"));
}

#[test]
fn unknown_protocol_names_the_token() {
    match parse_args(&args(&["127.0.0.1", "12345", "sctp"])) {
        Err(ArgError::InvalidProtocol { token }) => assert_eq!(token, "sctp"),
        _ => panic!("sctp accepted"),
    }
    assert!(matches!(
        parse_args(&args(&["127.0.0.1", "12345", "TCP"])),
        Err(ArgError::InvalidProtocol { .. })
    ));
}

#[test]
fn echo_copies_exactly_the_bytes_read() {
    let mut buf = vec![0u8; BUFFER_CAPACITY];
    buf[..5].copy_from_slice(b"hello");
    buf[5] = 9;
    assert_eq!(echo_bytes(&buf, 5), b"hello".to_vec());
    assert_eq!(echo_bytes(&buf, 0), Vec::<u8>::new());
    let full: Vec<u8> = (0..BUFFER_CAPACITY).map(|i| (i % 251) as u8).collect();
    assert_eq!(echo_bytes(&full, BUFFER_CAPACITY), full);
}

#[test]
fn datagram_payload_is_echoed_unchanged() {
    let buf = [1u8, 0, 255, 7, 42, 42];
    let reply = echo_bytes(&buf, 4);
    assert_eq!(reply, vec![1u8, 0, 255, 7]);
}

#[test]
fn stream_session_echoes_split_reads_in_order() {
    let payload = b"the quick brown fox".to_vec();
    let mut session = Session::new();
    let mut back = Vec::new();
    let mut buf = vec![0u8; 8];
    for chunk in payload.chunks(8) {
        buf[..chunk.len()].copy_from_slice(chunk);
        let out = session.on_read(&buf, chunk.len()).expect("open session");
        back.extend_from_slice(&out);
    }
    assert_eq!(back, payload);
    assert!(session.open);
    assert!(session.on_read(&buf, 0).is_none());
    assert!(!session.open);
    assert_eq!(session.finish(), SessionOutcome::Closed);
}

#[test]
fn stream_session_error_fails_the_session() {
    let mut session = Session::new();
    assert_eq!(session.on_error(), SessionOutcome::Failed);
    assert!(!session.open);
}

#[test]
fn supervisor_drains_each_task_once() {
    let mut s = Supervisor::new();
    assert!(!s.has_pending());
    let a = s.spawn().unwrap();
    let b = s.spawn().unwrap();
    assert_ne!(a, b);
    assert!(s.has_pending());
    assert!(s.complete(a));
    assert!(!s.complete(a));
    assert!(s.has_pending());
    assert!(s.complete(b));
    assert!(!s.has_pending());
}

#[test]
fn supervisor_cancel_all_returns_every_live_task() {
    let mut s = Supervisor::new();
    let ids: Vec<u64> = (0..4).map(|_| s.spawn().unwrap()).collect();
    assert!(s.complete(ids[1]));
    let mut cancelled = s.cancel_all();
    cancelled.sort();
    assert_eq!(cancelled, vec![ids[0], ids[2], ids[3]]);
    assert!(!s.has_pending());
}

#[test]
fn supervisor_refuses_when_ids_run_out() {
    let mut s = Supervisor { next_id: u64::MAX, live: Vec::new() };
    assert_eq!(s.spawn(), None);
    assert!(!s.has_pending());
}

#[test]
fn first_contact_is_reported_once_per_address() {
    let mut reg = PeerRegistry::new();
    let a = v4(1, 4000);
    let b = v4(2, 4000);
    let events: Vec<bool> = [a, a, b, a, b, b].iter().map(|p| reg.observe(*p)).collect();
    assert_eq!(events, vec![true, false, true, false, false, false]);
    assert!(reg.contains(&a));
    assert!(!reg.contains(&v4(1, 4001)));
}

#[test]
fn farewell_reaches_every_known_peer_once() {
    let mut reg = PeerRegistry::new();
    let peers = [v4(1, 1), v4(2, 2), v4(3, 3)];
    for p in peers.iter().chain(peers.iter()) {
        reg.observe(*p);
    }
    let mut targets = reg.into_farewell_targets();
    targets.sort_by_key(|p| (p.ip, p.port));
    assert_eq!(targets, peers.to_vec());
    assert!(!targets.contains(&v4(4, 4)));
    assert_eq!(farewell_datagram(), vec![0xDE, 0xAD]);
    assert_eq!(FAREWELL_MARKER, [0xDE, 0xAD]);
}

#[test]
fn stream_server_runs_sessions_until_interrupt() {
    let mut server = StreamServer::new();
    assert!(!server.awaits_completions());
    let first = match server.step(StreamEvent::Accepted) {
        StreamAction::Spawn { id } => id,
        _ => panic!("connection refused"),
    };
    let second = match server.step(StreamEvent::Accepted) {
        StreamAction::Spawn { id } => id,
        _ => panic!("connection refused"),
    };
    assert_ne!(first, second);
    assert!(server.awaits_completions());
    match server.step(StreamEvent::TaskDone { id: first, outcome: SessionOutcome::Failed }) {
        StreamAction::Report { id, outcome } => {
            assert_eq!(id, first);
            assert_eq!(outcome, SessionOutcome::Failed);
        }
        _ => panic!("completion not reported"),
    }
    assert!(matches!(
        server.step(StreamEvent::TaskDone { id: first, outcome: SessionOutcome::Closed }),
        StreamAction::Ignore
    ));
    match server.step(StreamEvent::Interrupt) {
        StreamAction::CancelAll { ids } => assert_eq!(ids, vec![second]),
        _ => panic!("interrupt ignored"),
    }
    assert_eq!(server.phase, Phase::ShuttingDown);
    assert!(matches!(server.step(StreamEvent::Interrupt), StreamAction::Ignore));
    assert!(matches!(server.step(StreamEvent::Accepted), StreamAction::Refuse));
    server.shutdown_complete();
    assert_eq!(server.phase, Phase::Stopped);
    assert!(!server.awaits_completions());
}

#[test]
fn datagram_server_echoes_then_says_farewell() {
    let mut server = DatagramServer::new();
    let a = v4(1, 5000);
    let b = v4(9, 5001);
    let mut firsts = Vec::new();
    for p in [a, b, a, a] {
        match server.step(DatagramEvent::Received { from: p }) {
            DatagramAction::Echo { to, first_contact } => {
                assert_eq!(to, p);
                firsts.push(first_contact);
            }
            _ => panic!("datagram not echoed"),
        }
    }
    assert_eq!(firsts, vec![true, true, false, false]);
    match server.step(DatagramEvent::Interrupt) {
        DatagramAction::Farewell { mut targets } => {
            targets.sort_by_key(|p| p.ip);
            assert_eq!(targets, vec![a, b]);
        }
        _ => panic!("no farewell"),
    }
    assert_eq!(server.phase, Phase::ShuttingDown);
    assert!(matches!(server.step(DatagramEvent::Interrupt), DatagramAction::Ignore));
    assert!(matches!(
        server.step(DatagramEvent::Received { from: a }),
        DatagramAction::Ignore
    ));
    server.shutdown_complete();
    assert_eq!(server.phase, Phase::Stopped);
}

#[test]
fn concurrent_sessions_echo_without_cross_talk() {
    let payloads: Vec<Vec<u8>> = vec![b"alpha-alpha".to_vec(), b"bravo".to_vec(), vec![0u8, 1, 2, 3, 4, 5, 6]];
    let mut server = StreamServer::new();
    let mut sessions: Vec<(u64, Session, Vec<u8>)> = Vec::new();
    for _ in 0..payloads.len() {
        match server.step(StreamEvent::Accepted) {
            StreamAction::Spawn { id } => sessions.push((id, Session::new(), Vec::new())),
            _ => panic!("connection refused"),
        }
    }
    let mut offset = 0;
    let mut progressed = true;
    while progressed {
        progressed = false;
        for (k, (_, session, back)) in sessions.iter_mut().enumerate() {
            let p = &payloads[k];
            if offset < p.len() {
                let end = (offset + 3).min(p.len());
                let mut buf = vec![0u8; 3];
                buf[..end - offset].copy_from_slice(&p[offset..end]);
                back.extend(session.on_read(&buf, end - offset).unwrap());
                progressed = true;
            }
        }
        offset += 3;
    }
    let mut seen_ids = Vec::new();
    for (k, (id, mut session, back)) in sessions.into_iter().enumerate() {
        assert_eq!(back, payloads[k]);
        assert!(session.on_read(&[0u8; 3], 0).is_none());
        assert!(!seen_ids.contains(&id));
        seen_ids.push(id);
        match server.step(StreamEvent::TaskDone { id, outcome: session.finish() }) {
            StreamAction::Report { id: reported, outcome } => {
                assert_eq!(reported, id);
                assert_eq!(outcome, SessionOutcome::Closed);
            }
            _ => panic!("completion not reported"),
        }
    }
    assert!(!server.awaits_completions());
}
