use std::path::PathBuf;
use waterdrop::engine::{
    forward_event, Engine, EngineAction, EngineCmd, EngineConfig, EngineEvent,
};
use waterdrop::session::{Role, SendRequest, SessionCmd, SessionEvent};

fn engine() -> Engine {
    Engine::new(EngineConfig {
        device_name: "TestDevice".into(),
        receive_dir: PathBuf::from("/drop"),
    })
}

fn request() -> SendRequest {
    SendRequest {
        transfer_id: "engine-xfer-1".into(),
        file_path: PathBuf::from("/drop/send_file.txt"),
        filename: "received_via_engine.txt".into(),
        size_bytes: 28,
        sha256_hex: "unused".into(),
    }
}

#[test]
fn given_start_accepting_cmd_when_bind_succeeds_then_accepting_event_emitted() {
    let mut e = engine();
    let actions = e.on_command(EngineCmd::StartAccepting { addr: "127.0.0.1:0".into() });
    assert!(matches!(&actions[..], [EngineAction::Bind { addr }] if addr == "127.0.0.1:0"));
    assert!(!e.is_listening());
    let told = e.on_bound(Ok("127.0.0.1:50000".into()));
    assert!(matches!(
        &told[..],
        [EngineAction::Emit(EngineEvent::Accepting { addr })] if addr == "127.0.0.1:50000"
    ));
    assert!(e.is_listening());
}

#[test]
fn given_running_listener_when_stop_accepting_then_stopped_event_emitted() {
    let mut e = engine();
    e.on_bound(Ok("127.0.0.1:50000".into()));
    let actions = e.on_command(EngineCmd::StopAccepting);
    assert!(matches!(
        &actions[..],
        [EngineAction::CloseListener, EngineAction::Emit(EngineEvent::AcceptingStopped)]
    ));
    assert!(!e.is_listening());
}

#[test]
fn given_invalid_bind_address_when_start_accepting_then_error_event_emitted() {
    let mut e = engine();
    e.on_command(EngineCmd::StartAccepting { addr: "999.999.999.999:0".into() });
    let told = e.on_bound(Err("invalid address".into()));
    assert!(matches!(
        &told[..],
        [EngineAction::Emit(EngineEvent::Error { message })] if message == "invalid address"
    ));
    assert!(!e.is_listening());
    assert!(e.is_running());
}

#[test]
fn given_server_engine_when_client_connects_then_session_created_on_both_sides() {
    let mut server = engine();
    let accepted = server.on_accepted(Ok("127.0.0.1:50001".into()));
    assert!(matches!(
        &accepted[..],
        [
            EngineAction::Emit(EngineEvent::SessionCreated { session_id: 1, peer }),
            EngineAction::Spawn { session_id: 1, role: Role::Server, device_name, receive_dir },
        ] if peer == "127.0.0.1:50001" && device_name == "TestDevice"
            && receive_dir == &PathBuf::from("/drop")
    ));
    let mut client = engine();
    let connected = client.on_connected(Ok("127.0.0.1:4242".into()), None);
    assert!(matches!(
        &connected[..],
        [
            EngineAction::Spawn { session_id: 1, role: Role::Client, .. },
            EngineAction::Emit(EngineEvent::SessionCreated { session_id: 1, .. }),
        ]
    ));
}

#[test]
fn given_unreachable_address_when_connect_then_error_event_emitted() {
    let mut e = engine();
    let cmd = EngineCmd::Connect { addr: "127.0.0.1:1".into(), send_request: None };
    let actions = e.on_command(cmd);
    assert!(matches!(
        &actions[..],
        [EngineAction::Connect { addr, send_request: None }] if addr == "127.0.0.1:1"
    ));
    let told = e.on_connected(Err("refused".into()), None);
    assert!(matches!(
        &told[..],
        [EngineAction::Emit(EngineEvent::Error { message })] if message == "refused"
    ));
}

#[test]
fn given_unknown_session_id_when_session_cmd_sent_then_no_panic() {
    let mut e = engine();
    let actions = e.on_command(EngineCmd::SessionCmd { session_id: 999, cmd: SessionCmd::Cancel });
    assert!(actions.is_empty());
    assert!(e.is_running());
}

#[test]
fn file_to_send_is_handed_to_its_session() {
    let mut e = engine();
    let actions = e.on_connected(Ok("peer".into()), Some(request()));
    assert!(matches!(
        &actions[2],
        EngineAction::Forward { session_id: 1, cmd: SessionCmd::Transfer { req } }
            if req.transfer_id == "engine-xfer-1"
    ));
}

#[test]
fn sessions_are_numbered_and_commanded_apart() {
    let mut e = engine();
    e.on_accepted(Ok("a".into()));
    e.on_accepted(Err("lost".into()));
    e.on_connected(Ok("b".into()), None);
    let cmd = SessionCmd::RespondToOffer { transfer_id: "t".into(), accept: true };
    let actions = e.on_command(EngineCmd::SessionCmd { session_id: 2, cmd });
    assert!(matches!(
        &actions[..],
        [EngineAction::Forward {
            session_id: 2,
            cmd: SessionCmd::RespondToOffer { accept: true, .. },
        }]
    ));
    let none = e.on_command(EngineCmd::SessionCmd { session_id: 3, cmd: SessionCmd::Cancel });
    assert!(none.is_empty());
}

#[test]
fn shutting_down_cancels_every_session() {
    let mut e = engine();
    e.on_accepted(Ok("a".into()));
    e.on_accepted(Ok("b".into()));
    let actions = e.on_command(EngineCmd::ShutDown);
    assert!(matches!(
        &actions[..],
        [
            EngineAction::Forward { session_id: 1, cmd: SessionCmd::Cancel },
            EngineAction::Forward { session_id: 2, cmd: SessionCmd::Cancel },
            EngineAction::Stop,
        ]
    ));
    assert!(!e.is_running());
}

#[test]
fn engine_stops_when_nobody_commands_it() {
    let mut e = engine();
    assert!(e.has_free_id());
    assert!(matches!(&e.on_commands_closed()[..], [EngineAction::Stop]));
    assert!(!e.is_running());
}

#[test]
fn events_of_a_session_are_tagged_until_the_last() {
    let (event, last) = forward_event(7, SessionEvent::TransferDenied { transfer_id: "t".into() });
    assert!(matches!(
        event,
        EngineEvent::SessionEvent { session_id: 7, event: SessionEvent::TransferDenied { .. } }
    ));
    assert!(!last);
    assert!(forward_event(7, SessionEvent::Finished).1);
}

#[test]
fn default_configuration_is_the_documented_one() {
    let config = EngineConfig::default();
    assert_eq!(config.device_name, "WaterDrop");
    assert_eq!(config.receive_dir, PathBuf::from("/tmp/waterdrop"));
}

#[test]
fn identifiers_count_the_connections_and_failures_use_none() {
    let mut e = engine();
    let mut ids: Vec<u64> = Vec::new();
    let mut errors = 0;
    let mut actions = Vec::new();
    actions.extend(e.on_accepted(Ok("a".into())));
    actions.extend(e.on_accepted(Err("lost".into())));
    actions.extend(e.on_connected(Err("refused".into()), None));
    actions.extend(e.on_connected(Ok("b".into()), Some(request())));
    actions.extend(e.on_bound(Err("in use".into())));
    actions.extend(e.on_accepted(Ok("c".into())));
    for action in actions {
        match action {
            EngineAction::Emit(EngineEvent::SessionCreated { session_id, .. }) => {
                ids.push(session_id)
            }
            EngineAction::Emit(EngineEvent::Error { .. }) => errors += 1,
            _ => {}
        }
    }
    assert_eq!(ids, vec![1, 2, 3]);
    assert_eq!(errors, 3);
}
