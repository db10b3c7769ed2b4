use bytes::BytesMut;
use serde_json::Value;
use waterdrop::filename::free_name;
use waterdrop::protocol::{
    encode_frame_to_bytes, encode_payload_frame, try_decode_frame, ErrorPayload, Frame,
    HelloAckPayload, HelloPayload, Message, MessageType, TransferDecisionPayload,
    TransferDonePayload, TransferOfferPayload,
};
use waterdrop::session::{
    Inbound, Polled, Role, SendRequest, Session, SessionAction, SessionCmd, SessionEvent,
    SessionState,
};
use waterdrop::transfer::Outgoing;

// ── Messages as JSON ────────────────────────────────────────────────

fn object(fields: Vec<(&str, Value)>) -> Value {
    let mut map = serde_json::Map::new();
    for (key, value) in fields {
        map.insert(key.to_string(), value);
    }
    Value::Object(map)
}

fn json_of(message: &Message) -> Value {
    match message {
        Message::Hello(p) => object(vec![("device_name", p.device_name.clone().into())]),
        Message::HelloAck(p) => object(vec![
            ("ok", p.ok.into()),
            ("device_name", p.device_name.clone().into()),
        ]),
        Message::TransferOffer(p) => object(vec![
            ("transfer_id", p.transfer_id.clone().into()),
            ("filename", p.filename.clone().into()),
            ("size_bytes", p.size_bytes.into()),
            ("sha256_hex", p.sha256_hex.clone().into()),
        ]),
        Message::TransferDecision(p) => object(vec![
            ("transfer_id", p.transfer_id.clone().into()),
            ("accept", p.accept.into()),
        ]),
        Message::TransferDone(p) => object(vec![
            ("transfer_id", p.transfer_id.clone().into()),
            ("ok", p.ok.into()),
            ("stored_filename", p.stored_filename.clone().into()),
            ("reason", p.reason.clone().into()),
        ]),
        Message::Error(p) => object(vec![
            ("code", p.code.clone().into()),
            ("message", p.message.clone().into()),
        ]),
    }
}

fn frame_of(message: &Message) -> BytesMut {
    encode_payload_frame(message.msg_type(), serde_json::to_vec(&json_of(message))).unwrap()
}

fn text(v: &Value, key: &str) -> Option<String> {
    v.get(key)?.as_str().map(|s| s.to_string())
}

fn message_of(msg_type: MessageType, v: &Value) -> Option<Message> {
    Some(match msg_type {
        MessageType::Hello => Message::Hello(HelloPayload { device_name: text(v, "device_name")? }),
        MessageType::HelloAck => Message::HelloAck(HelloAckPayload {
            ok: v.get("ok")?.as_bool()?,
            device_name: text(v, "device_name")?,
        }),
        MessageType::TransferOffer => Message::TransferOffer(TransferOfferPayload {
            transfer_id: text(v, "transfer_id")?,
            filename: text(v, "filename")?,
            size_bytes: v.get("size_bytes")?.as_u64()?,
            sha256_hex: text(v, "sha256_hex")?,
        }),
        MessageType::TransferDecision => Message::TransferDecision(TransferDecisionPayload {
            transfer_id: text(v, "transfer_id")?,
            accept: v.get("accept")?.as_bool()?,
        }),
        MessageType::TransferDone => Message::TransferDone(TransferDonePayload {
            transfer_id: text(v, "transfer_id")?,
            ok: v.get("ok")?.as_bool()?,
            stored_filename: text(v, "stored_filename"),
            reason: text(v, "reason"),
        }),
        MessageType::Error => Message::Error(ErrorPayload {
            code: text(v, "code")?,
            message: text(v, "message")?,
        }),
        _ => return None,
    })
}

fn read_frame(frame: &Frame) -> Inbound {
    let msg_type = frame.header.msg_type;
    let value: Value = match serde_json::from_slice(&frame.payload) {
        Ok(value) => value,
        Err(e) => return Inbound::Unreadable { msg_type, error: e.to_string() },
    };
    match message_of(msg_type, &value) {
        Some(message) => Inbound::Message(message),
        None => Inbound::Unreadable { msg_type, error: "wrong shape".into() },
    }
}

// ── Two sessions in one place ───────────────────────────────────────

struct Side {
    session: Session,
    events: Vec<SessionEvent>,
    sent: Vec<u8>,
    staged: Vec<u8>,
    stream: Vec<u8>,
    stored: Option<(String, Vec<u8>)>,
    folder: Vec<String>,
    shut_down: bool,
}

impl Side {
    fn new(role: Role, name: &str) -> Side {
        let mut side = Side {
            session: Session::new(role, name.into(), None),
            events: Vec::new(),
            sent: Vec::new(),
            staged: Vec::new(),
            stream: Vec::new(),
            stored: None,
            folder: Vec::new(),
            shut_down: false,
        };
        let actions = side.session.on_start();
        side.perform(actions);
        side
    }

    fn perform(&mut self, actions: Vec<SessionAction>) {
        for action in actions {
            match action {
                SessionAction::Send(message) => self.sent.extend_from_slice(&frame_of(&message)),
                SessionAction::SendError(payload) => {
                    self.sent.extend_from_slice(&frame_of(&Message::Error(payload)));
                }
                SessionAction::Emit(event) => self.events.push(event),
                SessionAction::ReceiveFile => {
                    let next = self.session.on_stream_accepted();
                    self.perform(next);
                }
                SessionAction::StreamFile { transfer_id } => {
                    let mut outgoing = Outgoing::new(transfer_id, self.staged.clone());
                    while let Some(chunk) = outgoing.next_chunk() {
                        assert!(!chunk.is_empty() && chunk.len() <= 8192);
                        self.stream.extend_from_slice(chunk);
                        self.events.push(outgoing.on_written().unwrap());
                    }
                    assert!(outgoing.on_written().is_none());
                }
                SessionAction::StoreFile { filename, data } => {
                    let name = free_name(&filename, &self.folder);
                    self.folder.push(name.clone());
                    self.stored = Some((name.clone(), data));
                    let next = self.session.on_stored(name);
                    self.perform(next);
                }
                SessionAction::Shutdown => self.shut_down = true,
            }
        }
    }

    fn command(&mut self, cmd: SessionCmd) {
        let actions = self.session.on_command(cmd);
        self.perform(actions);
    }

    fn receive(&mut self, bytes: &[u8]) {
        let actions = self.session.on_bytes(bytes);
        self.perform(actions);
        loop {
            match self.session.poll_frame() {
                Polled::Wait => return,
                Polled::Frame(frame) => {
                    let actions = self.session.on_frame(read_frame(&frame));
                    self.perform(actions);
                }
                Polled::Ended(actions) => self.perform(actions),
            }
        }
    }

    fn saw(&self, pred: fn(&SessionEvent) -> bool) -> bool {
        self.events.iter().any(pred)
    }

    fn finished(&self) -> bool {
        self.saw(|e| matches!(e, SessionEvent::Finished))
    }

    fn failed(&self) -> bool {
        self.saw(|e| matches!(e, SessionEvent::Error { .. }))
    }

    fn completed(&self) -> bool {
        self.saw(|e| matches!(e, SessionEvent::TransferComplete { .. }))
    }

    fn error_text(&self) -> String {
        for event in &self.events {
            if let SessionEvent::Error { message } = event {
                return message.clone();
            }
        }
        panic!("no error was told");
    }

    fn progress_count(&self) -> usize {
        self.events.iter().filter(|e| matches!(e, SessionEvent::TransferProgress { .. })).count()
    }
}

/// Carries bytes between the two sides, in small pieces, until nothing moves any more.
fn settle(a: &mut Side, b: &mut Side) {
    loop {
        let mut moved = false;
        for _ in 0..2 {
            let bytes = std::mem::take(&mut a.sent);
            for piece in bytes.chunks(7) {
                moved = true;
                b.receive(piece);
            }
            let wanted = b.session.wanted();
            if wanted > 0 && !a.stream.is_empty() {
                moved = true;
                let n = wanted.min(a.stream.len()).min(5000);
                let chunk: Vec<u8> = a.stream.drain(..n).collect();
                let actions = b.session.on_data(&chunk);
                b.perform(actions);
            }
            std::mem::swap(a, b);
        }
        if !moved {
            return;
        }
    }
}

fn connected_pair() -> (Side, Side) {
    let mut client = Side::new(Role::Client, "MockClient");
    let mut server = Side::new(Role::Server, "MockServer");
    settle(&mut client, &mut server);
    (client, server)
}

fn request(id: &str, filename: &str, size_bytes: u64) -> SendRequest {
    SendRequest {
        transfer_id: id.into(),
        file_path: std::path::PathBuf::from("send_file.txt"),
        filename: filename.into(),
        size_bytes,
        sha256_hex: "not-checked".into(),
    }
}

fn offer(client: &mut Side, server: &mut Side, id: &str, filename: &str, content: &[u8]) {
    client.staged = content.to_vec();
    let req = request(id, filename, content.len() as u64);
    client.command(SessionCmd::Transfer { req });
    settle(client, server);
}

fn respond(client: &mut Side, server: &mut Side, id: &str, accept: bool) {
    server.command(SessionCmd::RespondToOffer { transfer_id: id.into(), accept });
    settle(client, server);
}

fn transfer(id: &str, filename: &str, content: &[u8]) -> (Side, Side) {
    let (mut client, mut server) = connected_pair();
    offer(&mut client, &mut server, id, filename, content);
    respond(&mut client, &mut server, id, true);
    (client, server)
}

// ── Handshake ───────────────────────────────────────────────────────

#[test]
fn session_given_client_and_server_when_handshake_then_both_emit_connected() {
    let (client, server) = connected_pair();
    assert!(matches!(
        &client.events[0],
        SessionEvent::Connected { peer_device_name } if peer_device_name == "MockServer"
    ));
    assert!(matches!(
        &server.events[0],
        SessionEvent::Connected { peer_device_name } if peer_device_name == "MockClient"
    ));
    assert_eq!(client.session.state(), &SessionState::Idle);
    assert_eq!(server.session.state(), &SessionState::Idle);
}

#[test]
fn given_handshake_when_completed_then_peer_names_are_correct() {
    let mut client = Side::new(Role::Client, "MyClient");
    let mut server = Side::new(Role::Server, "MyServer");
    settle(&mut client, &mut server);
    assert!(matches!(
        &client.events[0],
        SessionEvent::Connected { peer_device_name } if peer_device_name == "MyServer"
    ));
    assert!(matches!(
        &server.events[0],
        SessionEvent::Connected { peer_device_name } if peer_device_name == "MyClient"
    ));
}

#[test]
fn session_given_server_when_receives_wrong_first_frame_then_errors() {
    let mut server = Side::new(Role::Server, "S");
    let offer = Message::TransferOffer(TransferOfferPayload {
        transfer_id: "bad".into(),
        filename: "x".into(),
        size_bytes: 0,
        sha256_hex: String::new(),
    });
    server.receive(&frame_of(&offer));
    assert!(server.failed());
    assert!(server.finished());
    assert_eq!(server.error_text(), "expected HELLO, got TransferOffer");
}

#[test]
fn session_given_client_when_hello_rejected_then_errors() {
    let mut client = Side::new(Role::Client, "C");
    let mut accum = BytesMut::from(&client.sent[..]);
    let hello = try_decode_frame(&mut accum).unwrap().unwrap();
    assert_eq!(hello.header.msg_type, MessageType::Hello);
    let ack = Message::HelloAck(HelloAckPayload { ok: false, device_name: "S".into() });
    client.receive(&frame_of(&ack));
    assert!(client.failed());
    assert!(client.finished());
    assert_eq!(client.error_text(), "server rejected HELLO");
}

#[test]
fn client_that_is_answered_by_something_else_fails() {
    let mut client = Side::new(Role::Client, "C");
    client.receive(&frame_of(&Message::Hello(HelloPayload { device_name: "S".into() })));
    assert_eq!(client.error_text(), "expected HELLO_ACK, got Hello");
    assert_eq!(client.session.state(), &SessionState::Done);
    assert!(!client.shut_down);
}

#[test]
fn unreadable_handshake_fails_with_the_reason() {
    let mut server = Side::new(Role::Server, "S");
    server.receive(&encode_frame_to_bytes(MessageType::Hello, b"{}"));
    assert_eq!(server.error_text(), "wrong shape");
}

#[test]
fn connection_that_closes_during_the_handshake_is_an_error() {
    let mut server = Side::new(Role::Server, "S");
    server.receive(&[]);
    assert_eq!(server.error_text(), "connection closed while waiting for frame");
    assert!(server.finished());
}

// ── Accepted transfers ──────────────────────────────────────────────

#[test]
fn session_given_file_transfer_when_accepted_then_file_received() {
    let content = b"Hello, WaterDrop! This is a test file.";
    let (client, server) = transfer("xfer-1", "received.txt", content);
    assert!(client.completed());
    assert!(server.completed());
    assert_eq!(server.stored, Some(("received.txt".to_string(), content.to_vec())));
}

#[test]
fn given_completed_transfer_when_done_then_both_sides_finish_without_error() {
    let (client, server) = transfer("finish-1", "out.txt", b"clean-finish test payload");
    for side in [&client, &server] {
        assert!(side.completed());
        assert!(side.finished());
        assert!(!side.failed());
        assert!(side.shut_down);
    }
    let (_, data) = server.stored.as_ref().unwrap();
    assert_eq!(data, b"clean-finish test payload");
}

#[test]
fn name_of_the_stored_file_is_told_before_the_end() {
    let (_, server) = transfer("n-1", "../n.txt", b"abc");
    let n = server.events.len();
    assert!(matches!(
        &server.events[n - 3],
        SessionEvent::FileStored { stored_filename } if stored_filename == "n.txt"
    ));
    assert!(matches!(server.events[n - 2], SessionEvent::TransferComplete { .. }));
    assert!(matches!(server.events[n - 1], SessionEvent::Finished));
}

#[test]
fn given_accepted_offer_when_transfer_starts_then_accepted_before_progress() {
    let content = b"order-test payload with enough bytes to generate progress";
    let (client, _) = transfer("order-1", "order.txt", content);
    let accepted = client
        .events
        .iter()
        .position(|e| matches!(e, SessionEvent::TransferAccepted { .. }))
        .unwrap();
    let progress = client
        .events
        .iter()
        .position(|e| matches!(e, SessionEvent::TransferProgress { .. }))
        .unwrap();
    assert!(accepted < progress);
}

#[test]
fn given_transfer_offer_when_server_receives_event_then_metadata_matches() {
    let content = b"metadata check content";
    let (mut client, mut server) = connected_pair();
    offer(&mut client, &mut server, "meta-1", "my_doc.pdf", content);
    let offered = server.events.last().unwrap();
    assert!(matches!(
        offered,
        SessionEvent::TransferOffered { transfer_id, filename, size_bytes }
            if transfer_id == "meta-1" && filename == "my_doc.pdf"
                && *size_bytes == content.len() as u64
    ));
}

#[test]
fn session_given_large_file_when_transferred_then_progress_emitted_and_intact() {
    let content: Vec<u8> = (0..65_536u32).map(|i| (i % 256) as u8).collect();
    let (client, server) = transfer("xfer-large", "big.bin", &content);
    assert_eq!(client.progress_count(), 8);
    assert!(server.completed());
    assert_eq!(server.stored, Some(("big.bin".to_string(), content)));
}

#[test]
fn given_256kb_file_when_transferred_then_progress_on_both_sides_and_data_intact() {
    let content: Vec<u8> = (0..262_144u32).map(|i| (i % 251) as u8).collect();
    let (client, server) = transfer("big-256k", "big256k.bin", &content);
    assert!(client.progress_count() >= 2);
    assert!(server.progress_count() >= 2);
    assert_eq!(server.stored, Some(("big256k.bin".to_string(), content)));
}

#[test]
fn given_empty_file_when_transferred_then_both_sides_complete() {
    let (client, server) = transfer("empty-1", "empty.txt", b"");
    assert!(client.completed());
    assert!(server.completed());
    assert_eq!(server.stored, Some(("empty.txt".to_string(), Vec::new())));
}

// ── Denied transfers ────────────────────────────────────────────────

#[test]
fn session_given_transfer_offer_when_denied_then_client_sees_denied() {
    let (mut client, mut server) = connected_pair();
    offer(&mut client, &mut server, "xfer-deny", "nope.txt", b"data");
    respond(&mut client, &mut server, "xfer-deny", false);
    assert!(matches!(
        client.events.last().unwrap(),
        SessionEvent::TransferDenied { transfer_id } if transfer_id == "xfer-deny"
    ));
    assert!(server.stored.is_none());
}

#[test]
fn given_denied_transfer_when_second_offer_sent_then_transfer_succeeds() {
    let content = b"second-attempt data";
    let (mut client, mut server) = connected_pair();
    offer(&mut client, &mut server, "xfer-retry-1", "out.txt", content);
    respond(&mut client, &mut server, "xfer-retry-1", false);
    assert!(matches!(
        client.events.last().unwrap(),
        SessionEvent::TransferDenied { transfer_id } if transfer_id == "xfer-retry-1"
    ));
    offer(&mut client, &mut server, "xfer-retry-2", "out.txt", content);
    respond(&mut client, &mut server, "xfer-retry-2", true);
    assert!(client.completed());
    assert!(server.completed());
    assert_eq!(server.stored, Some(("out.txt".to_string(), content.to_vec())));
}

#[test]
fn given_sequential_deny_then_accept_when_same_session_then_second_file_received() {
    let (mut client, mut server) = connected_pair();
    offer(&mut client, &mut server, "seq-1", "a.txt", b"payload A");
    respond(&mut client, &mut server, "seq-1", false);
    let content_b = b"payload B - different content";
    offer(&mut client, &mut server, "seq-2", "b.txt", content_b);
    respond(&mut client, &mut server, "seq-2", true);
    assert_eq!(server.stored, Some(("b.txt".to_string(), content_b.to_vec())));
}

// ── Cancellation and closed channels ────────────────────────────────

#[test]
fn session_given_idle_session_when_cancelled_then_emits_finished() {
    let (mut client, _server) = connected_pair();
    client.command(SessionCmd::Cancel);
    assert!(matches!(client.events.last().unwrap(), SessionEvent::Finished));
    assert!(client.shut_down);
}

#[test]
fn given_pending_offer_when_client_cancels_then_both_sessions_terminate() {
    let (mut client, mut server) = connected_pair();
    offer(&mut client, &mut server, "cancel-1", "x.txt", b"cancel-me");
    client.command(SessionCmd::Cancel);
    settle(&mut client, &mut server);
    assert!(client.finished());
    assert!(server.finished());
    assert_eq!(server.error_text(), "cancelled: user cancelled");
}

#[test]
fn given_client_when_cmd_channel_dropped_then_session_emits_finished() {
    let (mut client, _server) = connected_pair();
    let actions = client.session.on_commands_closed();
    client.perform(actions);
    assert!(client.finished());
    assert!(!client.failed());
}

#[test]
fn given_server_when_cmd_channel_dropped_during_offer_then_session_emits_finished() {
    let (mut client, mut server) = connected_pair();
    offer(&mut client, &mut server, "orphan-1", "x.txt", b"orphan offer");
    let actions = server.session.on_commands_closed();
    server.perform(actions);
    assert!(server.finished());
}

#[test]
fn given_session_states_when_compared_then_equality_works() {
    assert_eq!(SessionState::Init, SessionState::Init);
    assert_ne!(SessionState::Init, SessionState::Idle);
    assert_ne!(SessionState::Init, SessionState::Done);
    assert_eq!(
        SessionState::WaitingForDecision { transfer_id: "a".into() },
        SessionState::WaitingForDecision { transfer_id: "a".into() }
    );
    assert_ne!(
        SessionState::WaitingForDecision { transfer_id: "a".into() },
        SessionState::WaitingForDecision { transfer_id: "b".into() }
    );
}

// ── Edges ───────────────────────────────────────────────────────────

#[test]
fn request_during_the_handshake_is_offered_after_it() {
    let mut client = Side::new(Role::Client, "C");
    let mut server = Side::new(Role::Server, "S");
    client.command(SessionCmd::Transfer { req: request("early", "e.txt", 3) });
    client.command(SessionCmd::Transfer { req: request("late", "l.txt", 3) });
    settle(&mut client, &mut server);
    assert!(matches!(
        server.events.last().unwrap(),
        SessionEvent::TransferOffered { transfer_id, .. } if transfer_id == "early"
    ));
    let early = SessionState::WaitingForDecision { transfer_id: "early".into() };
    assert_eq!(client.session.state(), &early);
}

#[test]
fn request_given_at_the_start_is_offered_after_the_handshake() {
    let mut client = Side::new(Role::Client, "C");
    client.session = Session::new(Role::Client, "C".into(), Some(request("first", "f.txt", 1)));
    client.sent.clear();
    let actions = client.session.on_start();
    client.perform(actions);
    let mut server = Side::new(Role::Server, "S");
    settle(&mut client, &mut server);
    assert!(matches!(
        server.events.last().unwrap(),
        SessionEvent::TransferOffered { transfer_id, .. } if transfer_id == "first"
    ));
}

#[test]
fn answer_to_another_offer_is_ignored() {
    let (mut client, mut server) = connected_pair();
    offer(&mut client, &mut server, "mine", "x.txt", b"abc");
    respond(&mut client, &mut server, "yours", true);
    assert!(matches!(server.session.state(), SessionState::AwaitingUserDecision { .. }));
    let stray = Message::TransferDecision(TransferDecisionPayload {
        transfer_id: "yours".into(),
        accept: true,
    });
    client.receive(&frame_of(&stray));
    let mine = SessionState::WaitingForDecision { transfer_id: "mine".into() };
    assert_eq!(client.session.state(), &mine);
}

#[test]
fn second_offer_while_one_is_pending_is_refused() {
    let (mut client, mut server) = connected_pair();
    offer(&mut client, &mut server, "one", "x.txt", b"abc");
    let again = Message::TransferOffer(TransferOfferPayload {
        transfer_id: "two".into(),
        filename: "y.txt".into(),
        size_bytes: 1,
        sha256_hex: String::new(),
    });
    server.receive(&frame_of(&again));
    let mut buf = BytesMut::from(&server.sent[..]);
    let reply = try_decode_frame(&mut buf).unwrap().unwrap();
    assert!(matches!(
        read_frame(&reply),
        Inbound::Message(Message::Error(e))
            if e.code == "bad_frame" && e.message == "unexpected TRANSFER_OFFER"
    ));
    assert!(matches!(server.session.state(), SessionState::AwaitingUserDecision { .. }));
}

#[test]
fn message_out_of_place_is_refused_and_the_session_goes_on() {
    let (_client, mut server) = connected_pair();
    server.receive(&encode_frame_to_bytes(MessageType::PairWithCode, b"{}"));
    let mut buf = BytesMut::from(&server.sent[..]);
    let reply = try_decode_frame(&mut buf).unwrap().unwrap();
    assert!(matches!(
        read_frame(&reply),
        Inbound::Message(Message::Error(e))
            if e.code == "bad_frame" && e.message == "unexpected message type"
    ));
    assert_eq!(server.session.state(), &SessionState::Idle);
}

#[test]
fn bytes_that_are_no_frame_end_the_session() {
    let (mut client, mut server) = connected_pair();
    server.receive(b"XXXXX\x01\x01\x00\x00\x00\x00\x00\x00");
    assert_eq!(server.error_text(), "bad magic: expected WDROP");
    assert!(server.finished());
    assert!(server.shut_down);
    settle(&mut client, &mut server);
    assert_eq!(client.error_text(), "bad_frame: bad magic: expected WDROP");
}

#[test]
fn short_file_is_reported_to_both_ends() {
    let (mut client, mut server) = connected_pair();
    client.staged = b"abc".to_vec();
    client.command(SessionCmd::Transfer { req: request("short", "s.txt", 5) });
    settle(&mut client, &mut server);
    respond(&mut client, &mut server, "short", true);
    assert_eq!(server.session.wanted(), 2);
    let actions = server.session.on_data(&[]);
    server.perform(actions);
    settle(&mut client, &mut server);
    let text = "incomplete transfer: got 3 of 5 bytes";
    assert_eq!(server.error_text(), text);
    assert_eq!(client.error_text(), text);
    assert!(server.stored.is_none());
    assert!(!client.completed());
}

#[test]
fn no_more_than_the_announced_bytes_are_wanted() {
    let (mut client, mut server) = connected_pair();
    client.staged = b"abcdef".to_vec();
    client.command(SessionCmd::Transfer { req: request("long", "l.txt", 4) });
    settle(&mut client, &mut server);
    respond(&mut client, &mut server, "long", true);
    assert_eq!(server.stored, Some(("l.txt".to_string(), b"abcd".to_vec())));
}

#[test]
fn more_than_the_announced_bytes_are_refused() {
    let (mut client, mut server) = connected_pair();
    offer(&mut client, &mut server, "x", "x.txt", b"abcd");
    server.command(SessionCmd::RespondToOffer { transfer_id: "x".into(), accept: true });
    let actions = server.session.on_data(b"abcdef");
    server.perform(actions);
    assert_eq!(server.error_text(), "incomplete transfer: got 6 of 4 bytes");
    assert!(server.stored.is_none());
}

#[test]
fn failed_transfer_without_a_reason_is_still_a_failure() {
    let (mut client, mut server) = connected_pair();
    offer(&mut client, &mut server, "x", "x.txt", b"abcd");
    let done = Message::TransferDone(TransferDonePayload {
        transfer_id: "x".into(),
        ok: false,
        stored_filename: None,
        reason: None,
    });
    client.receive(&frame_of(&done));
    assert_eq!(client.error_text(), "transfer failed");
    assert!(!client.completed());
}

#[test]
fn file_outside_the_folder_is_stored_inside_it() {
    let (_, server) = transfer("esc", "../../etc/passwd", b"x");
    assert_eq!(server.stored, Some(("passwd".to_string(), b"x".to_vec())));
}

#[test]
fn file_without_a_usable_name_is_refused() {
    let (client, server) = transfer("dots", "a/..", b"x");
    assert!(server.stored.is_none());
    assert_eq!(server.error_text(), "invalid filename");
    assert_eq!(client.error_text(), "invalid_filename: invalid filename");
}

#[test]
fn file_whose_name_is_taken_gets_a_number() {
    let (mut client, mut server) = connected_pair();
    server.folder = vec!["photo.jpg".to_string(), "photo (1).jpg".to_string()];
    offer(&mut client, &mut server, "n", "photo.jpg", b"x");
    respond(&mut client, &mut server, "n", true);
    assert_eq!(server.stored.unwrap().0, "photo (2).jpg");
}

#[test]
fn session_that_is_over_does_nothing_more() {
    let (mut client, _server) = connected_pair();
    client.command(SessionCmd::Cancel);
    let told = client.events.len();
    client.receive(b"XXXXX\x01\x01\x00\x00\x00\x00\x00\x00");
    client.receive(&[]);
    client.command(SessionCmd::Cancel);
    assert_eq!(client.events.len(), told);
    assert_eq!(client.session.state(), &SessionState::Done);
}

#[test]
fn frames_behind_the_last_one_are_not_read() {
    let (mut client, _server) = connected_pair();
    let error = Message::Error(ErrorPayload { code: "io_error".into(), message: "m".into() });
    let mut bytes = frame_of(&error).to_vec();
    bytes.extend_from_slice(&frame_of(&error));
    client.receive(&bytes);
    assert_eq!(client.error_text(), "io_error: m");
    assert_eq!(client.events.iter().filter(|e| matches!(e, SessionEvent::Finished)).count(), 1);
}

#[test]
fn unreadable_error_still_ends_the_session() {
    let (mut client, _server) = connected_pair();
    client.receive(&encode_frame_to_bytes(MessageType::Error, b"?"));
    assert_eq!(client.error_text(), "remote error (unparseable)");
    assert!(client.finished());
}

#[test]
fn failures_are_told() {
    let (mut client, mut server) = connected_pair();
    let actions = client.session.on_failure("disk full".into());
    client.perform(actions);
    assert_eq!(client.error_text(), "disk full");
    let actions = server.session.on_read_error("reset".into());
    server.perform(actions);
    assert_eq!(server.error_text(), "reset");
    assert!(server.finished());
}

#[test]
fn server_sends_no_files() {
    let (_client, mut server) = connected_pair();
    server.command(SessionCmd::Transfer { req: request("s", "s.txt", 1) });
    assert!(server.sent.is_empty());
    assert_eq!(server.session.state(), &SessionState::Idle);
}

#[test]
fn nothing_is_taken_without_consent() {
    let (mut client, mut server) = connected_pair();
    offer(&mut client, &mut server, "x-1", "a.txt", b"abc");
    let mut actions = server.session.on_stream_accepted();
    actions.extend(server.session.on_data(b"abc"));
    actions.extend(server.session.on_stored("a.txt".into()));
    assert!(actions.is_empty());
    assert_eq!(server.session.wanted(), 0);
    respond(&mut client, &mut server, "x-1", false);
    assert!(server.session.on_data(b"abc").is_empty());
    assert!(server.stored.is_none());
}

#[test]
fn end_is_told_once_even_where_the_last_message_cannot_be_sent() {
    let (mut client, mut server) = connected_pair();
    offer(&mut client, &mut server, "x-1", "a.txt", b"abc");
    let accept = SessionCmd::RespondToOffer { transfer_id: "x-1".into(), accept: true };
    assert_eq!(server.session.on_command(accept).len(), 2);
    assert!(server.session.on_stream_accepted().is_empty());
    let stored = server.session.on_data(b"abc");
    assert!(matches!(
        stored.last(),
        Some(SessionAction::StoreFile { filename, data }) if filename == "a.txt" && data == b"abc"
    ));
    let last = server.session.on_stored("a.txt".into());
    assert!(matches!(last[0], SessionAction::Send(Message::TransferDone(_))));
    let instead = server.session.on_failure("broken pipe".into());
    assert_eq!(instead.len(), 2);
    assert!(matches!(
        &instead[0],
        SessionAction::Emit(SessionEvent::Error { message }) if message == "broken pipe"
    ));
    assert!(matches!(instead[1], SessionAction::Emit(SessionEvent::Finished)));
    assert!(server.session.is_done());
}

#[test]
fn handshake_is_finished_though_nobody_commands_the_session_any_more() {
    let mut client = Side::new(Role::Client, "c");
    let mut server = Side::new(Role::Server, "s");
    client.command(SessionCmd::Transfer { req: request("x-1", "a.txt", 3) });
    assert!(client.session.on_commands_closed().is_empty());
    assert!(server.session.on_commands_closed().is_empty());
    assert!(client.session.is_handshaking());
    assert!(server.session.is_handshaking());
    let hello = std::mem::take(&mut client.sent);
    server.receive(&hello);
    assert!(matches!(server.events[0], SessionEvent::Connected { .. }));
    assert!(matches!(server.events[1], SessionEvent::Finished));
    assert_eq!(server.events.len(), 2);
    let ack = std::mem::take(&mut server.sent);
    client.receive(&ack);
    let mut offered = BytesMut::from(&client.sent[..]);
    let frame = try_decode_frame(&mut offered).unwrap().unwrap();
    assert_eq!(frame.header.msg_type, MessageType::TransferOffer);
    assert!(matches!(client.events[0], SessionEvent::Connected { .. }));
    assert!(matches!(client.events[1], SessionEvent::Finished));
    assert!(client.shut_down && server.shut_down);
}
