use ptymux::handler::PtyHandler;
use ptymux::message::{route, PtyError, PtyMessage, PtyRequest, PtyResponse};
use ptymux::pump::{OutputPump, PumpAction, PumpInput, ReadEvent};

fn message(msg_type: &str, session_id: Option<&str>) -> PtyMessage {
    PtyMessage {
        msg_type: msg_type.to_string(),
        session_id: session_id.map(|s| s.to_string()),
        cols: None,
        rows: None,
        shell_type: None,
        shell_args: None,
        cwd: None,
        env: None,
    }
}

fn ready() -> PtyHandler<u32, ()> {
    let mut h = PtyHandler::new();
    h.set_ws_sender(());
    h
}

fn init(h: &mut PtyHandler<u32, ()>, context: u32) -> String {
    let id = h.begin_init().ok().unwrap();
    match h.complete_init(id.clone(), context) {
        PtyResponse::InitComplete { session_id } => assert_eq!(session_id, id),
        _ => panic!("init answered with something else"),
    }
    id
}

fn data(bytes: &[u8]) -> PumpInput {
    PumpInput::Event(ReadEvent::Data(bytes.to_vec()))
}

#[test]
fn init_then_echo_frames_carry_the_session() {
    let mut m = message("init", None);
    m.shell_type = Some("bash".to_string());
    match route(m) {
        Ok(PtyRequest::Init { shell_type, .. }) => assert_eq!(shell_type, Some("bash".to_string())),
        _ => panic!("init not routed"),
    }
    let mut h = ready();
    let s = init(&mut h, 7);
    assert_eq!(s.len(), 36);
    assert!(h.session(&s).is_ok());

    let mut pump = OutputPump::new(s.clone());
    assert!(matches!(pump.on_input(data(b"printf hi\\n\r\n")), PumpAction::OpenWindow));
    assert!(matches!(pump.on_input(data(b"hi\n")), PumpAction::ReceiveInWindow));
    match pump.on_input(PumpInput::TimedOut) {
        PumpAction::SendFrame(f) => {
            assert_eq!(f[0] as usize, 36);
            assert_eq!(&f[1..37], s.as_bytes());
            assert!(f[37..].windows(3).any(|w| w == b"hi\n"));
        }
        _ => panic!("no frame"),
    }
    assert!(matches!(pump.on_input(PumpInput::Sent(true)), PumpAction::Receive));
}

#[test]
fn resize_is_routed_with_its_size() {
    let mut h = ready();
    let s = init(&mut h, 1);
    let mut m = message("resize", Some(&s));
    m.cols = Some(120);
    m.rows = Some(40);
    match route(m) {
        Ok(PtyRequest::Resize { session_id, cols, rows }) => {
            assert_eq!(session_id, s);
            assert_eq!((cols, rows), (120, 40));
            assert_eq!(*h.session(&session_id).ok().unwrap(), 1);
        }
        _ => panic!("resize not routed"),
    }
    match route(message("resize", Some(&s))) {
        Ok(PtyRequest::Resize { cols, rows, .. }) => assert_eq!((cols, rows), (80, 24)),
        _ => panic!("resize not routed"),
    }
}

#[test]
fn destroy_then_write_finds_nothing() {
    let mut h = ready();
    let s = init(&mut h, 3);
    match route(message("destroy", Some(&s))) {
        Ok(PtyRequest::Destroy { session_id }) => assert_eq!(h.handle_destroy(&session_id).ok(), Some(3)),
        _ => panic!("destroy not routed"),
    }
    match h.session(&s) {
        Err(e) => assert_eq!(e.message(), format!("SESSION_NOT_FOUND: {}", s)),
        Ok(_) => panic!("session survived destroy"),
    }
}

#[test]
fn destroy_succeeds_exactly_once() {
    let mut h = ready();
    let s = init(&mut h, 9);
    assert_eq!(h.handle_destroy(&s).ok(), Some(9));
    match h.handle_destroy(&s) {
        Err(PtyError::SessionNotFound(id)) => assert_eq!(id, s),
        _ => panic!("second destroy did not fail"),
    }
}

#[test]
fn resize_of_unknown_id() {
    let h = ready();
    let mut m = message("resize", Some("nope"));
    m.cols = Some(80);
    m.rows = Some(24);
    match route(m) {
        Ok(PtyRequest::Resize { session_id, .. }) => match h.session(&session_id) {
            Err(e) => assert_eq!(e.message(), "SESSION_NOT_FOUND: nope"),
            Ok(_) => panic!("unknown id found"),
        },
        _ => panic!("resize not routed"),
    }
}

#[test]
fn destroy_unknown_id_is_stable() {
    let mut h = ready();
    let keep = init(&mut h, 4);
    let first = h.handle_destroy("nope").err().unwrap().message();
    let second = h.handle_destroy("nope").err().unwrap().message();
    assert_eq!(first, "SESSION_NOT_FOUND: nope");
    assert_eq!(first, second);
    assert!(h.session(&keep).is_ok());
}

#[test]
fn missing_session_id() {
    match route(message("destroy", None)) {
        Err(e) => assert_eq!(e.message(), "SESSION_ID_REQUIRED"),
        Ok(_) => panic!("destroy without id accepted"),
    }
    assert!(matches!(route(message("resize", None)), Err(PtyError::SessionIdRequired)));
}

#[test]
fn other_messages() {
    assert!(matches!(route(message("env", None)), Ok(PtyRequest::Env)));
    match route(message("paste", None)) {
        Err(e) => assert_eq!(e.message(), "UNKNOWN_MESSAGE_TYPE: paste"),
        Ok(_) => panic!("unknown type accepted"),
    }
}

#[test]
fn cleanup_all_empties_the_table() {
    let mut h = ready();
    let a = init(&mut h, 1);
    let b = init(&mut h, 2);
    let c = init(&mut h, 3);
    assert!(a != b && b != c && a != c);
    assert!(h.has_sessions());
    let mut contexts = h.cleanup_all();
    contexts.sort();
    assert_eq!(contexts, vec![1, 2, 3]);
    assert!(!h.has_sessions());
    assert!(h.session(&a).is_err());
}

#[test]
fn init_needs_a_downstream_sender() {
    let h: PtyHandler<u32, ()> = PtyHandler::new();
    assert!(matches!(h.begin_init(), Err(PtyError::DownstreamUnavailable)));
    assert!(!h.has_sessions());
}

#[test]
fn uuid_identifier_fits_the_header() {
    let mut h = ready();
    let s = init(&mut h, 5);
    assert_eq!(s.len(), 36);
    for (i, c) in s.chars().enumerate() {
        if [8, 13, 18, 23].contains(&i) {
            assert_eq!(c, '-');
        } else {
            assert!(c.is_ascii_digit() || ('a'..='f').contains(&c));
        }
    }
    assert_eq!(s.as_bytes()[14], b'4');
    assert!(b"89ab".contains(&s.as_bytes()[19]));
    let mut pump = OutputPump::new(s.clone());
    pump.on_input(data(b"x"));
    match pump.on_input(PumpInput::Closed) {
        PumpAction::SendFrame(f) => {
            assert_eq!(f[0], 36);
            assert_eq!(f.len(), 38);
        }
        _ => panic!("no frame"),
    }
}

#[test]
fn full_read_is_one_frame() {
    let id = "0123456789abcdef0123456789abcdef0123".to_string();
    let mut pump = OutputPump::new(id);
    assert!(matches!(pump.on_input(PumpInput::Event(ReadEvent::Data(vec![7u8; 8192]))), PumpAction::OpenWindow));
    match pump.on_input(PumpInput::TimedOut) {
        PumpAction::SendFrame(f) => assert_eq!(f.len() - 37, 8192),
        _ => panic!("no frame"),
    }
}

#[test]
fn eof_at_window_start_sends_only_the_exit_notice() {
    let mut pump = OutputPump::new("s1".to_string());
    assert!(matches!(pump.on_input(PumpInput::Event(ReadEvent::Eof)), PumpAction::SendExit));
    match pump.exit_notice() {
        PtyResponse::Exit { session_id, code } => {
            assert_eq!(session_id, "s1");
            assert_eq!(code, 0);
        }
        _ => panic!("not an exit notice"),
    }
    assert!(matches!(pump.on_input(PumpInput::Sent(true)), PumpAction::Stop));
    assert!(pump.is_done());
}

#[test]
fn error_mid_burst_flushes_then_stops() {
    let mut pump = OutputPump::new("s2".to_string());
    pump.on_input(data(b"ab"));
    pump.on_input(data(b"cd"));
    match pump.on_input(PumpInput::Event(ReadEvent::Error("io".to_string()))) {
        PumpAction::SendFrame(f) => assert_eq!(f, b"\x02s2abcd".to_vec()),
        _ => panic!("no frame"),
    }
    assert!(matches!(pump.on_input(PumpInput::Sent(true)), PumpAction::Stop));
    assert!(pump.is_done());
}

#[test]
fn eof_mid_burst_flushes_then_notices() {
    let mut pump = OutputPump::new("s3".to_string());
    pump.on_input(data(b"bye"));
    match pump.on_input(PumpInput::Event(ReadEvent::Eof)) {
        PumpAction::SendFrame(f) => assert_eq!(f, b"\x02s3bye".to_vec()),
        _ => panic!("no frame"),
    }
    assert!(matches!(pump.on_input(PumpInput::Sent(true)), PumpAction::SendExit));
}

#[test]
fn failed_send_stops_the_pump() {
    let mut pump = OutputPump::new("s4".to_string());
    pump.on_input(data(b"z"));
    assert!(matches!(pump.on_input(PumpInput::TimedOut), PumpAction::SendFrame(_)));
    assert!(matches!(pump.on_input(PumpInput::Sent(false)), PumpAction::Stop));
}

#[test]
fn every_byte_once_in_order() {
    let mut pump = OutputPump::new("s5".to_string());
    let mut payloads: Vec<u8> = Vec::new();
    let chunks: [&[u8]; 4] = [b"one ", b"two ", b"three ", b"four"];
    pump.on_input(data(chunks[0]));
    pump.on_input(data(chunks[1]));
    if let PumpAction::SendFrame(f) = pump.on_input(PumpInput::TimedOut) {
        payloads.extend_from_slice(&f[3..]);
    }
    pump.on_input(PumpInput::Sent(true));
    pump.on_input(data(chunks[2]));
    pump.on_input(data(chunks[3]));
    if let PumpAction::SendFrame(f) = pump.on_input(PumpInput::Event(ReadEvent::Eof)) {
        payloads.extend_from_slice(&f[3..]);
    }
    assert_eq!(payloads, b"one two three four".to_vec());
}
