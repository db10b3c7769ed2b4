use std::path::PathBuf;
use waterdrop::bridge::{
    Board, BridgeEvent, EventBridge, IncomingTransfer, ReceiveState, TransferState,
};
use waterdrop::engine::{EngineCmd, EngineEvent};
use waterdrop::session::{SessionCmd, SessionEvent};

fn bridge() -> EventBridge {
    EventBridge::new(PathBuf::from("/drop"))
}

fn hear(b: &mut EventBridge, session_id: u64, event: SessionEvent) -> Vec<BridgeEvent> {
    b.on_engine_event(EngineEvent::SessionEvent { session_id, event })
}

fn offered(filename: &str) -> SessionEvent {
    SessionEvent::TransferOffered {
        transfer_id: "t".into(),
        filename: filename.into(),
        size_bytes: 10,
    }
}

fn progress(bytes_transferred: u64) -> SessionEvent {
    SessionEvent::TransferProgress { transfer_id: "t".into(), bytes_transferred, total_bytes: 10 }
}

fn complete() -> SessionEvent {
    SessionEvent::TransferComplete { transfer_id: "t".into() }
}

fn only_send(events: Vec<BridgeEvent>) -> TransferState {
    assert_eq!(events.len(), 1);
    match events.into_iter().next() {
        Some(BridgeEvent::Send(state)) => state,
        _ => panic!("expected a change to the outgoing transfer"),
    }
}

fn only_receive(events: Vec<BridgeEvent>) -> ReceiveState {
    assert_eq!(events.len(), 1);
    match events.into_iter().next() {
        Some(BridgeEvent::Receive(state)) => state,
        _ => panic!("expected a change to the incoming transfer"),
    }
}

#[test]
fn incoming_file_is_followed_to_the_end() {
    let mut b = bridge();
    let created = EngineEvent::SessionCreated { session_id: 1, peer: "10.0.0.9:5".into() };
    assert_eq!(
        only_send(b.on_engine_event(created)),
        TransferState::Connected { peer_name: "10.0.0.9:5".into() }
    );
    let connected = SessionEvent::Connected { peer_device_name: "Phone".into() };
    assert!(hear(&mut b, 1, connected).is_empty());
    let incoming = IncomingTransfer {
        session_id: 1,
        transfer_id: "t".into(),
        filename: "a.txt".into(),
        size_bytes: 10,
        peer_name: "Phone".into(),
    };
    assert_eq!(
        only_receive(hear(&mut b, 1, offered("a.txt"))),
        ReceiveState::Offered { incoming }
    );
    assert_eq!(
        only_receive(hear(&mut b, 1, progress(4))),
        ReceiveState::Receiving { filename: "a.txt".into(), bytes_received: 4, total_bytes: 10 }
    );
    assert_eq!(
        only_receive(hear(&mut b, 1, complete())),
        ReceiveState::Done {
            filename: "a.txt".into(),
            saved_path: PathBuf::from("/drop").join("a.txt"),
        }
    );
    assert!(hear(&mut b, 1, SessionEvent::Finished).is_empty());
    assert!(matches!(only_send(hear(&mut b, 1, progress(1))), TransferState::Sending { .. }));
}

#[test]
fn outgoing_file_is_followed_to_the_end() {
    let mut b = bridge();
    let accepted = SessionEvent::TransferAccepted { transfer_id: "t".into() };
    assert!(hear(&mut b, 2, accepted).is_empty());
    assert_eq!(
        only_send(hear(&mut b, 2, progress(3))),
        TransferState::Sending { filename: String::new(), bytes_sent: 3, total_bytes: 10 }
    );
    assert_eq!(
        only_send(hear(&mut b, 2, complete())),
        TransferState::Done { filename: "t".into() }
    );
    let denied = SessionEvent::TransferDenied { transfer_id: "t".into() };
    assert_eq!(
        only_send(hear(&mut b, 2, denied)),
        TransferState::Error { message: "Transfer was denied by the remote device".into() }
    );
}

#[test]
fn errors_go_where_the_session_belongs() {
    let mut b = bridge();
    let error = || SessionEvent::Error { message: "m".into() };
    assert_eq!(
        only_send(hear(&mut b, 3, error())),
        TransferState::Error { message: "m".into() }
    );
    hear(&mut b, 3, offered("x"));
    assert_eq!(
        only_receive(hear(&mut b, 3, error())),
        ReceiveState::Error { message: "m".into() }
    );
    let both = b.on_engine_event(EngineEvent::Error { message: "e".into() });
    assert_eq!(both.len(), 2);
}

#[test]
fn offer_from_an_unheard_session_has_an_unknown_peer() {
    let mut b = bridge();
    let state = only_receive(hear(&mut b, 9, offered("x")));
    assert!(matches!(
        state,
        ReceiveState::Offered { incoming } if incoming.peer_name == "Unknown"
    ));
}

#[test]
fn completion_without_a_filename_shows_the_transfer() {
    let mut b = bridge();
    hear(&mut b, 4, offered("x"));
    hear(&mut b, 4, complete());
    assert_eq!(
        only_receive(hear(&mut b, 4, complete())),
        ReceiveState::Done {
            filename: "t".into(),
            saved_path: PathBuf::from("/drop").join("t"),
        }
    );
}

#[test]
fn listening_changes_nothing() {
    let mut b = bridge();
    assert!(b.on_engine_event(EngineEvent::Accepting { addr: "a".into() }).is_empty());
    assert!(b.on_engine_event(EngineEvent::AcceptingStopped).is_empty());
}

#[test]
fn offer_on_the_board_is_answered() {
    let mut b = bridge();
    let mut board = Board::new();
    assert!(board.accept().is_none());
    assert!(board.deny().is_none());
    for event in hear(&mut b, 5, offered("x")) {
        board.apply(event);
    }
    assert!(!board.can_dismiss());
    board.dismiss();
    assert!(matches!(
        board.accept(),
        Some(EngineCmd::SessionCmd {
            session_id: 5,
            cmd: SessionCmd::RespondToOffer { transfer_id, accept: true },
        }) if transfer_id == "t"
    ));
    assert!(matches!(board.receive, ReceiveState::Offered { .. }));
    assert!(matches!(
        board.deny(),
        Some(EngineCmd::SessionCmd {
            session_id: 5,
            cmd: SessionCmd::RespondToOffer { accept: false, .. },
        })
    ));
    assert_eq!(board.receive, ReceiveState::Denied { filename: "x".into() });
    assert!(board.can_dismiss());
    board.dismiss();
    assert_eq!(board.receive, ReceiveState::Idle);
}

#[test]
fn failures_are_shown_on_the_board() {
    let mut board = Board::new();
    board.engine_failed("no port");
    assert_eq!(
        board.transfer,
        TransferState::Error { message: "Engine failed to start: no port".into() }
    );
    assert_eq!(board.receive, ReceiveState::Idle);
    board.accept_failed("gone");
    assert_eq!(board.receive, ReceiveState::Error { message: "Failed to accept: gone".into() });
}

#[test]
fn offer_is_shown_with_the_name_from_the_handshake() {
    let mut b = bridge();
    b.on_engine_event(EngineEvent::SessionCreated { session_id: 1, peer: "10.0.0.2:5555".into() });
    b.on_engine_event(EngineEvent::SessionCreated { session_id: 2, peer: "10.0.0.3:5555".into() });
    hear(&mut b, 1, SessionEvent::Connected { peer_device_name: "Pixel".into() });
    hear(&mut b, 2, SessionEvent::Connected { peer_device_name: "Laptop".into() });
    let offer = SessionEvent::TransferOffered {
        transfer_id: "t".into(),
        filename: "a.txt".into(),
        size_bytes: 5,
    };
    let incoming = IncomingTransfer {
        session_id: 1,
        transfer_id: "t".into(),
        filename: "a.txt".into(),
        size_bytes: 5,
        peer_name: "Pixel".into(),
    };
    assert_eq!(only_receive(hear(&mut b, 1, offer)), ReceiveState::Offered { incoming });
}

#[test]
fn address_stands_for_a_name_that_was_not_given() {
    let mut b = bridge();
    b.on_engine_event(EngineEvent::SessionCreated { session_id: 3, peer: "10.0.0.4:1".into() });
    assert!(matches!(
        only_receive(hear(&mut b, 3, offered("x"))),
        ReceiveState::Offered { incoming } if incoming.peer_name == "10.0.0.4:1"
    ));
}

#[test]
fn path_shown_is_where_the_file_was_stored() {
    let mut b = bridge();
    hear(&mut b, 6, offered("../photo.jpg"));
    let stored = SessionEvent::FileStored { stored_filename: "photo (1).jpg".into() };
    assert!(hear(&mut b, 6, stored).is_empty());
    assert_eq!(
        only_receive(hear(&mut b, 6, complete())),
        ReceiveState::Done {
            filename: "../photo.jpg".into(),
            saved_path: PathBuf::from("/drop").join("photo (1).jpg"),
        }
    );
    hear(&mut b, 6, offered("b.txt"));
    assert_eq!(
        only_receive(hear(&mut b, 6, complete())),
        ReceiveState::Done {
            filename: "b.txt".into(),
            saved_path: PathBuf::from("/drop").join("b.txt"),
        }
    );
}
