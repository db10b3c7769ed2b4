use std::path::PathBuf;
use waterdrop::command::{
    connecting_text, generate_transfer_id, handle_connect_cmd, handle_pending_offer,
    name_to_offer, next_transfer_id, offered_filename, parse_answer, parse_command,
    staging_path, transfer_id_at, Command,
};
use waterdrop::engine::{EngineCmd, EngineEvent};
use waterdrop::event::{
    handle_engine_event, handle_session_event, question_text, PendingOffer, Printout,
};
use waterdrop::message_processor::process_frame;
use waterdrop::protocol::{Frame, Header, MessageType};
use waterdrop::session::{SessionCmd, SessionEvent};

fn offer() -> PendingOffer {
    PendingOffer {
        session_id: 3,
        transfer_id: "t".into(),
        filename: "a.txt".into(),
        size_bytes: 2048,
    }
}

fn said(out: Printout) -> String {
    match out {
        Printout::Text(text) => text,
        _ => panic!("expected text"),
    }
}

#[test]
fn transfer_ids_carry_the_time() {
    assert_eq!(transfer_id_at(0), "xfer-0");
    assert_eq!(transfer_id_at(1_700_000_000_123), "xfer-1700000000123");
    let mut last = None;
    let id = generate_transfer_id(&mut last);
    let millis: u128 = id.strip_prefix("xfer-").unwrap().parse().unwrap();
    assert!(millis > 1_600_000_000_000);
    assert_eq!(last, Some(millis));
}

#[test]
fn connect_takes_an_address_and_the_rest_as_the_file() {
    assert!(matches!(
        parse_command("connect 10.0.0.1:4242 /home/u/my photo.jpg"),
        Command::Connect { addr, file } if addr == "10.0.0.1:4242" && file == "/home/u/my photo.jpg"
    ));
    assert!(matches!(
        parse_command("connect  x"),
        Command::Connect { addr, file } if addr.is_empty() && file == "x"
    ));
    assert!(matches!(parse_command("connect"), Command::ConnectUsage));
    assert!(matches!(parse_command("connect 10.0.0.1"), Command::ConnectUsage));
}

#[test]
fn words_are_recognised() {
    assert!(matches!(parse_command(""), Command::Empty));
    for line in ["accept", "deny", "accept it"] {
        assert!(matches!(parse_command(line), Command::NoOffer));
    }
    for line in ["help", "?", "help me"] {
        assert!(matches!(parse_command(line), Command::Help));
    }
    for line in ["quit", "exit", "q"] {
        assert!(matches!(parse_command(line), Command::Quit));
    }
    assert!(matches!(
        parse_command("Quit now"),
        Command::Unknown { word } if word == "Quit"
    ));
}

#[test]
fn answers_are_read_in_any_case() {
    for yes in ["accept", "A", "Yes", "y", "ACCEPT"] {
        assert_eq!(parse_answer(yes), Some(true));
    }
    for no in ["deny", "D", "No", "n"] {
        assert_eq!(parse_answer(no), Some(false));
    }
    for other in ["", "maybe", "yes please", "acc"] {
        assert_eq!(parse_answer(other), None);
    }
}

#[test]
fn answer_to_an_offer_becomes_a_command() {
    let (cmd, told) = handle_pending_offer(&offer(), "YES");
    assert!(matches!(
        cmd,
        Some(EngineCmd::SessionCmd {
            session_id: 3,
            cmd: SessionCmd::RespondToOffer { transfer_id, accept: true },
        }) if transfer_id == "t"
    ));
    assert_eq!(told, "  ✅ Accepting transfer...");
    let (cmd, told) = handle_pending_offer(&offer(), "no");
    assert!(matches!(
        cmd,
        Some(EngineCmd::SessionCmd {
            cmd: SessionCmd::RespondToOffer { accept: false, .. },
            ..
        })
    ));
    assert_eq!(told, "  🚫 Denying transfer.");
    let (cmd, told) = handle_pending_offer(&offer(), "hm");
    assert!(cmd.is_none());
    assert_eq!(told, "  Please type 'accept' or 'deny'.");
}

#[test]
fn connecting_offers_the_staged_file() {
    let staged = staging_path(&PathBuf::from("/drop"));
    assert_eq!(staged, PathBuf::from("/drop/send_file.txt"));
    let drop = PathBuf::from("/drop");
    let file = PathBuf::from("/home/user/a.txt");
    let cmd = handle_connect_cmd("peer:1".into(), "xfer-1".into(), &drop, &file, 7);
    match cmd {
        EngineCmd::Connect { addr, send_request: Some(req) } => {
            assert_eq!(addr, "peer:1");
            assert_eq!(req.transfer_id, "xfer-1");
            assert_eq!(req.filename, "a.txt");
            assert_eq!(req.size_bytes, 7);
            assert_eq!(req.sha256_hex, "not-computed");
            assert_eq!(req.file_path, PathBuf::from("/drop/send_file.txt"));
        }
        _ => panic!("expected a connection"),
    }
    match handle_connect_cmd("p".into(), "x".into(), &drop, &PathBuf::from("/"), 0) {
        EngineCmd::Connect { send_request: Some(req), .. } => assert_eq!(req.filename, "unnamed"),
        _ => panic!("expected a connection"),
    }
    assert_eq!(
        connecting_text("10.0.0.1:1", "a.txt", 1536),
        "  📤 Connecting to 10.0.0.1:1 to send \"a.txt\" (1.50 KiB)..."
    );
}

#[test]
fn session_events_are_put_in_words() {
    let id = "t".to_string();
    assert_eq!(
        said(handle_session_event(1, SessionEvent::Connected { peer_device_name: "P".into() })),
        "\n  🤝 Session #1: handshake complete with \"P\""
    );
    let accepted = SessionEvent::TransferAccepted { transfer_id: id.clone() };
    assert_eq!(
        said(handle_session_event(12, accepted)),
        "\n  ✅ Session #12: transfer t accepted by peer — sending file..."
    );
    assert_eq!(
        said(handle_session_event(1, SessionEvent::TransferDenied { transfer_id: id.clone() })),
        "\n  🚫 Session #1: transfer t denied by peer"
    );
    assert_eq!(
        said(handle_session_event(1, SessionEvent::TransferComplete { transfer_id: id })),
        "\n  🎉 Session #1: transfer t complete!"
    );
    assert_eq!(
        said(handle_session_event(1, SessionEvent::Error { message: "m".into() })),
        "\n  ❌ Session #1: error — m"
    );
    assert_eq!(
        said(handle_session_event(1, SessionEvent::Finished)),
        "  👋 Session #1: session finished"
    );
}

#[test]
fn offers_are_asked_about() {
    let event = SessionEvent::TransferOffered {
        transfer_id: "t".into(),
        filename: "a.txt".into(),
        size_bytes: 2048,
    };
    match handle_session_event(3, event) {
        Printout::Question { text, offer } => {
            assert_eq!(
                text,
                "\n  📥 Session #3: incoming transfer offer!\n     File: a.txt  (2.00 KiB)\n     \
                 Type 'accept' or 'deny' to respond."
            );
            assert_eq!(offer.session_id, 3);
            assert_eq!(offer.transfer_id, "t");
        }
        _ => panic!("expected a question"),
    }
    assert_eq!(
        question_text(&offer()),
        "\n  📥 Accept \"a.txt\" (2.00 KiB) from session #3?\n     Type 'accept' or 'deny':"
    );
}

#[test]
fn progress_is_a_bar_unless_the_file_is_empty() {
    let progress = |total_bytes| SessionEvent::TransferProgress {
        transfer_id: "t".into(),
        bytes_transferred: 0,
        total_bytes,
    };
    assert!(matches!(
        handle_session_event(1, progress(5)),
        Printout::Bar { session_id: 1, sent: 0, total: 5 }
    ));
    assert!(matches!(handle_session_event(1, progress(0)), Printout::Silent));
}

#[test]
fn engine_events_are_put_in_words() {
    assert_eq!(
        said(handle_engine_event(EngineEvent::Accepting { addr: "0.0.0.0:4242".into() })),
        "\n  ✔ Listening on 0.0.0.0:4242"
    );
    assert_eq!(
        said(handle_engine_event(EngineEvent::AcceptingStopped)),
        "\n  ⏹ Stopped accepting connections"
    );
    let created = EngineEvent::SessionCreated { session_id: 2, peer: "p".into() };
    assert_eq!(said(handle_engine_event(created)), "\n  📡 Session #2 — connected to p");
    assert_eq!(
        said(handle_engine_event(EngineEvent::Error { message: "m".into() })),
        "\n  ❌ Engine error: m"
    );
    let finished = EngineEvent::SessionEvent { session_id: 2, event: SessionEvent::Finished };
    assert_eq!(said(handle_engine_event(finished)), "  👋 Session #2: session finished");
}

#[test]
fn every_message_type_is_processed() {
    for code in [0x01, 0x02, 0x10, 0x11, 0x12, 0x20, 0x21, 0x30, 0x7F] {
        let header = Header {
            version: 1,
            msg_type: MessageType::try_from(code).unwrap(),
            flags: 0,
            payload_length: 0,
        };
        assert!(process_frame("peer", &Frame { header, payload: Vec::new() }).is_ok());
    }
}

#[test]
fn transfer_ids_differ_within_a_millisecond() {
    assert_eq!(next_transfer_id(None, 0), (0, "xfer-0".to_string()));
    assert_eq!(next_transfer_id(None, 1700), (1700, "xfer-1700".to_string()));
    assert_eq!(next_transfer_id(Some(1700), 1700), (1701, "xfer-1701".to_string()));
    assert_eq!(next_transfer_id(Some(1701), 1600), (1702, "xfer-1702".to_string()));
    assert_eq!(next_transfer_id(Some(1701), 1800), (1800, "xfer-1800".to_string()));
    let mut last = None;
    let ids: Vec<String> = (0..100).map(|_| generate_transfer_id(&mut last)).collect();
    for i in 0..ids.len() {
        assert!(!ids[..i].contains(&ids[i]));
    }
}

#[test]
fn file_is_offered_under_the_last_part_of_its_path() {
    assert_eq!(offered_filename(&PathBuf::from("/home/user/photo.jpg")), "photo.jpg");
    assert_eq!(offered_filename(&PathBuf::from("photo.jpg")), "photo.jpg");
    assert_eq!(offered_filename(&PathBuf::from("/")), "unnamed");
    assert_eq!(name_to_offer(Some("x".into())), "x");
    assert_eq!(name_to_offer(None), "unnamed");
}

#[test]
fn name_of_a_stored_file_is_not_printed() {
    let stored = SessionEvent::FileStored { stored_filename: "a (1).txt".into() };
    assert!(matches!(handle_session_event(1, stored), Printout::Silent));
}
