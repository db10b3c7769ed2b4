use std::path::PathBuf;
use waterdrop::mux::{MuxAction, MuxDriver, MuxEvent};
use waterdrop::session::SessionEvent;
use waterdrop::storage::{
    cert_dir, cert_dir_under, config_file_path, config_file_under, data_dir_path, data_dir_under,
    devices_file_path, devices_file_under, receive_dir, receive_dir_under, required_dirs,
    trust_store_dir, trust_store_under,
};
use waterdrop::transfer::Outgoing;

#[test]
fn data_directory_lies_under_the_users() {
    assert_eq!(
        data_dir_under(Some(PathBuf::from("/home/u/.local/share"))),
        PathBuf::from("/home/u/.local/share/waterdrop")
    );
    assert_eq!(data_dir_under(None), PathBuf::from("./waterdrop"));
    let base = dirs::data_dir();
    assert_eq!(data_dir_path(), data_dir_under(base));
}

#[test]
fn files_and_folders_lie_in_the_data_directory() {
    let dir = data_dir_path();
    assert_eq!(devices_file_path(), dir.join("devices.json"));
    assert_eq!(config_file_path(), dir.join("config.json"));
    assert_eq!(cert_dir(), dir.join("cert"));
    assert_eq!(trust_store_dir(), dir.join("trusted"));
    assert_eq!(receive_dir(), dir.join("received"));
    assert_eq!(
        required_dirs(&dir),
        vec![dir.clone(), dir.join("cert"), dir.join("trusted"), dir.join("received")]
    );
}

#[test]
fn paths_in_the_data_directory_lie_apart() {
    for base in [None, Some(PathBuf::from("/home/u")), Some(PathBuf::from("/")), dirs::data_dir()] {
        let paths = [
            devices_file_under(base.clone()),
            config_file_under(base.clone()),
            cert_dir_under(base.clone()),
            trust_store_under(base.clone()),
            receive_dir_under(base.clone()),
        ];
        for i in 0..paths.len() {
            assert_eq!(paths[i].parent(), Some(data_dir_under(base.clone()).as_path()));
            for j in 0..paths.len() {
                assert!(i == j || !paths[i].starts_with(&paths[j]));
            }
        }
    }
    assert_eq!(
        receive_dir_under(Some(PathBuf::from("/home/u"))),
        PathBuf::from("/home/u/waterdrop/received")
    );
}

#[test]
fn file_is_cut_into_chunks() {
    let data: Vec<u8> = (0..20_000u32).map(|i| (i % 253) as u8).collect();
    let mut outgoing = Outgoing::new("t".into(), data.clone());
    let mut lens = Vec::new();
    let mut joined = Vec::new();
    let mut told = Vec::new();
    while let Some(chunk) = outgoing.next_chunk() {
        lens.push(chunk.len());
        joined.extend_from_slice(chunk);
        match outgoing.on_written() {
            Some(SessionEvent::TransferProgress { bytes_transferred, total_bytes, .. }) => {
                assert_eq!(total_bytes, 20_000);
                told.push(bytes_transferred);
            }
            _ => panic!("expected progress"),
        }
    }
    assert_eq!(lens, vec![8192, 8192, 3616]);
    assert_eq!(told, vec![8192, 16384, 20000]);
    assert_eq!(joined, data);
}

#[test]
fn file_of_whole_chunks_ends_without_an_empty_one() {
    let mut outgoing = Outgoing::new("t".into(), vec![1; 8192]);
    assert_eq!(outgoing.next_chunk().unwrap().len(), 8192);
    assert!(outgoing.on_written().is_some());
    assert!(outgoing.next_chunk().is_none());
    assert!(Outgoing::new("t".into(), Vec::new()).next_chunk().is_none());
}

#[test]
fn request_for_a_stream_is_served_at_once_where_it_can_be() {
    let mut d = MuxDriver::new();
    assert_eq!(d.on_event(MuxEvent::Woken), MuxAction::TakeRequest);
    assert_eq!(d.on_event(MuxEvent::Request { taken: true }), MuxAction::OpenStream);
    assert_eq!(d.on_event(MuxEvent::Opened { ready: true }), MuxAction::AnswerAndListen);
    assert_eq!(d.on_event(MuxEvent::Stream), MuxAction::HandOn);
    assert_eq!(d.on_event(MuxEvent::HandedOn { taken: true }), MuxAction::Listen);
    assert_eq!(d.on_event(MuxEvent::NoStream), MuxAction::Park);
}

#[test]
fn request_that_must_wait_is_held_until_it_is_answered() {
    let mut d = MuxDriver::new();
    d.on_event(MuxEvent::Woken);
    d.on_event(MuxEvent::Request { taken: true });
    assert_eq!(d.on_event(MuxEvent::Opened { ready: false }), MuxAction::Listen);
    assert_eq!(d.on_event(MuxEvent::NoStream), MuxAction::Park);
    assert_eq!(d.on_event(MuxEvent::Woken), MuxAction::CheckAsker);
    assert_eq!(d.on_event(MuxEvent::Asker { waiting: true }), MuxAction::OpenStream);
    assert_eq!(d.on_event(MuxEvent::Opened { ready: true }), MuxAction::AnswerAndTake);
    assert_eq!(d.on_event(MuxEvent::Request { taken: false }), MuxAction::Listen);
    assert_eq!(d.on_event(MuxEvent::NoStream), MuxAction::Park);
    assert_eq!(d.on_event(MuxEvent::Woken), MuxAction::TakeRequest);
}

#[test]
fn request_that_nobody_waits_for_is_dropped() {
    let mut d = MuxDriver::new();
    d.on_event(MuxEvent::Woken);
    d.on_event(MuxEvent::Request { taken: true });
    d.on_event(MuxEvent::Opened { ready: false });
    d.on_event(MuxEvent::NoStream);
    d.on_event(MuxEvent::Woken);
    assert_eq!(d.on_event(MuxEvent::Asker { waiting: false }), MuxAction::DropAndTake);
}

#[test]
fn connection_ends_when_it_is_closed_or_nobody_listens() {
    let mut d = MuxDriver::new();
    d.on_event(MuxEvent::Woken);
    d.on_event(MuxEvent::Request { taken: false });
    assert_eq!(d.on_event(MuxEvent::Closed), MuxAction::Finish);
    let mut d = MuxDriver::new();
    d.on_event(MuxEvent::Woken);
    d.on_event(MuxEvent::Request { taken: false });
    d.on_event(MuxEvent::Stream);
    assert_eq!(d.on_event(MuxEvent::HandedOn { taken: false }), MuxAction::Finish);
}
