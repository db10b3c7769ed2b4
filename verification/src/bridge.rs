//! From engine events to what the user interface shows.
//!
//! The user interface shows two things: the file being sent and the file being received.
//! An [`EventBridge`] listens to the engine and says how the two change.
use crate::engine::{EngineCmd, EngineEvent};
use crate::session::{SessionCmd, SessionEvent};
use crate::storage;
use std::collections::{HashMap, HashSet};
use std::path::PathBuf;
use vstd::prelude::*;

verus! {

broadcast use vstd::std_specs::hash::group_hash_axioms;

/// The state of an outgoing transfer.
#[derive(Debug, Clone, PartialEq)]
pub enum TransferState {
    /// No transfer is in progress.
    Idle,
    /// Connecting to the peer.
    Connecting { addr: String },
    /// The handshake succeeded and we know the peer's name. A new session is shown like
    /// this at once, by its address; the handshake itself brings no further change.
    Connected { peer_name: String },
    /// The peer accepted our offer, and data is flowing.
    Sending { filename: String, bytes_sent: u64, total_bytes: u64 },
    /// The transfer finished successfully.
    Done { filename: String },
    /// Something went wrong.
    Error { message: String },
}

/// An incoming transfer that waits for the user's decision.
#[derive(Debug, Clone, PartialEq)]
pub struct IncomingTransfer {
    /// The session that the offer came by.
    pub session_id: u64,
    pub transfer_id: String,
    pub filename: String,
    pub size_bytes: u64,
    /// Name of the peer's device, from the HELLO handshake.
    pub peer_name: String,
}

/// The state of an incoming transfer.
#[derive(Debug, Clone, PartialEq)]
pub enum ReceiveState {
    /// No transfer is in progress.
    Idle,
    /// An offer waits for the user's decision.
    Offered { incoming: IncomingTransfer },
    /// The user accepted, and data is flowing.
    Receiving { filename: String, bytes_received: u64, total_bytes: u64 },
    /// The user denied the offer.
    Denied { filename: String },
    /// The transfer finished successfully.
    Done { filename: String, saved_path: PathBuf },
    /// Something went wrong.
    Error { message: String },
}

/// A change to what is shown.
#[derive(Debug, Clone)]
pub enum BridgeEvent {
    /// Of the outgoing transfer.
    Send(TransferState),
    /// Of the incoming transfer.
    Receive(ReceiveState),
}

/// What a session event means for what is shown.
#[derive(Debug, Clone)]
pub enum EventClassification {
    /// It is about the outgoing transfer.
    Send(TransferState),
    /// It is about the incoming transfer.
    Receive(ReceiveState),
    /// It is about either, depending on the direction of the session.
    ReceiveOrSend { receive: ReceiveState, send: TransferState, is_inbound: bool },
    /// It changes nothing.
    Nothing,
}

/// A [`TransferState`] as a mathematical value.
#[verifier::ext_equal]
pub enum TransferStateView {
    Idle,
    Connecting { addr: Seq<char> },
    Connected { peer_name: Seq<char> },
    Sending { filename: Seq<char>, bytes_sent: u64, total_bytes: u64 },
    Done { filename: Seq<char> },
    Error { message: Seq<char> },
}

/// An [`IncomingTransfer`] as a mathematical value.
#[verifier::ext_equal]
pub struct IncomingTransferView {
    pub session_id: u64,
    pub transfer_id: Seq<char>,
    pub filename: Seq<char>,
    pub size_bytes: u64,
    pub peer_name: Seq<char>,
}

/// A [`ReceiveState`] as a mathematical value.
#[verifier::ext_equal]
pub enum ReceiveStateView {
    Idle,
    Offered { incoming: IncomingTransferView },
    Receiving { filename: Seq<char>, bytes_received: u64, total_bytes: u64 },
    Denied { filename: Seq<char> },
    Done { filename: Seq<char>, saved_path: PathBuf },
    Error { message: Seq<char> },
}

/// A [`BridgeEvent`] as a mathematical value.
#[verifier::ext_equal]
pub enum BridgeEventView {
    Send(TransferStateView),
    Receive(ReceiveStateView),
}

/// An [`EventClassification`] as a mathematical value.
#[verifier::ext_equal]
pub enum ClassificationView {
    Send(TransferStateView),
    Receive(ReceiveStateView),
    ReceiveOrSend { receive: ReceiveStateView, send: TransferStateView, is_inbound: bool },
    Nothing,
}

impl View for TransferState {
    type V = TransferStateView;

    open spec fn view(&self) -> TransferStateView {
        match self {
            TransferState::Idle => TransferStateView::Idle,
            TransferState::Connecting { addr } => TransferStateView::Connecting { addr: addr@ },
            TransferState::Connected { peer_name } => TransferStateView::Connected {
                peer_name: peer_name@,
            },
            TransferState::Sending {
                filename,
                bytes_sent,
                total_bytes,
            } => TransferStateView::Sending {
                filename: filename@,
                bytes_sent: *bytes_sent,
                total_bytes: *total_bytes,
            },
            TransferState::Done { filename } => TransferStateView::Done { filename: filename@ },
            TransferState::Error { message } => TransferStateView::Error { message: message@ },
        }
    }
}

impl View for IncomingTransfer {
    type V = IncomingTransferView;

    open spec fn view(&self) -> IncomingTransferView {
        IncomingTransferView {
            session_id: self.session_id,
            transfer_id: self.transfer_id@,
            filename: self.filename@,
            size_bytes: self.size_bytes,
            peer_name: self.peer_name@,
        }
    }
}

impl View for ReceiveState {
    type V = ReceiveStateView;

    open spec fn view(&self) -> ReceiveStateView {
        match self {
            ReceiveState::Idle => ReceiveStateView::Idle,
            ReceiveState::Offered { incoming } => ReceiveStateView::Offered {
                incoming: incoming@,
            },
            ReceiveState::Receiving {
                filename,
                bytes_received,
                total_bytes,
            } => ReceiveStateView::Receiving {
                filename: filename@,
                bytes_received: *bytes_received,
                total_bytes: *total_bytes,
            },
            ReceiveState::Denied { filename } => ReceiveStateView::Denied { filename: filename@ },
            ReceiveState::Done { filename, saved_path } => ReceiveStateView::Done {
                filename: filename@,
                saved_path: *saved_path,
            },
            ReceiveState::Error { message } => ReceiveStateView::Error { message: message@ },
        }
    }
}

impl View for BridgeEvent {
    type V = BridgeEventView;

    open spec fn view(&self) -> BridgeEventView {
        match self {
            BridgeEvent::Send(s) => BridgeEventView::Send(s@),
            BridgeEvent::Receive(r) => BridgeEventView::Receive(r@),
        }
    }
}

impl View for EventClassification {
    type V = ClassificationView;

    open spec fn view(&self) -> ClassificationView {
        match self {
            EventClassification::Send(s) => ClassificationView::Send(s@),
            EventClassification::Receive(r) => ClassificationView::Receive(r@),
            EventClassification::ReceiveOrSend {
                receive,
                send,
                is_inbound,
            } => ClassificationView::ReceiveOrSend {
                receive: receive@,
                send: send@,
                is_inbound: *is_inbound,
            },
            EventClassification::Nothing => ClassificationView::Nothing,
        }
    }
}

/// Listens to the engine for the user interface.
pub struct EventBridge {
    peer_names: HashMap<u64, String>,
    inbound_sessions: HashSet<u64>,
    inbound_filenames: HashMap<u64, String>,
    stored_names: HashMap<u64, String>,
    receive_dir: PathBuf,
}

/// An [`EventBridge`] as a mathematical value.
#[verifier::ext_equal]
pub struct EventBridgeView {
    /// The peer of each session: the name that it gave in the handshake, or its address
    /// as long as it gave none.
    pub peer_names: Map<u64, Seq<char>>,
    /// The sessions by which an offer came in.
    pub inbound_sessions: Set<u64>,
    /// The file that each of those offered.
    pub inbound_filenames: Map<u64, Seq<char>>,
    /// The name that the file of each of those was stored under.
    pub stored_names: Map<u64, Seq<char>>,
    /// Where received files are stored.
    pub receive_dir: PathBuf,
}

impl View for EventBridge {
    type V = EventBridgeView;

    closed spec fn view(&self) -> EventBridgeView {
        EventBridgeView {
            peer_names: self.peer_names@.map_values(|s: String| s@),
            inbound_sessions: self.inbound_sessions@,
            inbound_filenames: self.inbound_filenames@.map_values(|s: String| s@),
            stored_names: self.stored_names@.map_values(|s: String| s@),
            receive_dir: self.receive_dir,
        }
    }
}

/// The text kept for a session, or another one where there is none.
pub open spec fn text_or(map: Map<u64, Seq<char>>, id: u64, other: Seq<char>) -> Seq<char> {
    if map.contains_key(id) {
        map[id]
    } else {
        other
    }
}

/// The changes that a classified event brings.
pub open spec fn changes(c: ClassificationView) -> Seq<BridgeEventView> {
    match c {
        ClassificationView::Send(s) => seq![BridgeEventView::Send(s)],
        ClassificationView::Receive(r) => seq![BridgeEventView::Receive(r)],
        ClassificationView::ReceiveOrSend { receive, send, is_inbound } => if is_inbound {
            seq![BridgeEventView::Receive(receive)]
        } else {
            seq![BridgeEventView::Send(send)]
        },
        ClassificationView::Nothing => Seq::empty(),
    }
}

impl EventBridgeView {
    /// A bridge that has heard of nothing yet.
    pub open spec fn fresh(receive_dir: PathBuf) -> EventBridgeView {
        EventBridgeView {
            peer_names: Map::empty(),
            inbound_sessions: Set::empty(),
            inbound_filenames: Map::empty(),
            stored_names: Map::empty(),
            receive_dir,
        }
    }

    /// What a session event means. The handshake names the peer. An offer marks its
    /// session as inbound, and the end of the session takes that back.
    pub open spec fn classified(self, id: u64, event: SessionEvent) -> (
        EventBridgeView,
        ClassificationView,
    ) {
        let is_inbound = self.inbound_sessions.contains(id);
        match event {
            SessionEvent::Connected { peer_device_name } => (
                EventBridgeView {
                    peer_names: self.peer_names.insert(id, peer_device_name@),
                    ..self
                },
                ClassificationView::Nothing,
            ),
            SessionEvent::TransferAccepted { .. } => (self, ClassificationView::Nothing),
            SessionEvent::FileStored { stored_filename } => (
                EventBridgeView {
                    stored_names: self.stored_names.insert(id, stored_filename@),
                    ..self
                },
                ClassificationView::Nothing,
            ),
            SessionEvent::TransferOffered { transfer_id, filename, size_bytes } => (
                EventBridgeView {
                    inbound_sessions: self.inbound_sessions.insert(id),
                    inbound_filenames: self.inbound_filenames.insert(id, filename@),
                    stored_names: self.stored_names.remove(id),
                    ..self
                },
                ClassificationView::Receive(
                    ReceiveStateView::Offered {
                        incoming: IncomingTransferView {
                            session_id: id,
                            transfer_id: transfer_id@,
                            filename: filename@,
                            size_bytes,
                            peer_name: text_or(self.peer_names, id, "Unknown"@),
                        },
                    },
                ),
            ),
            SessionEvent::TransferDenied { .. } => (
                self,
                ClassificationView::Send(
                    TransferStateView::Error {
                        message: "Transfer was denied by the remote device"@,
                    },
                ),
            ),
            SessionEvent::TransferProgress { bytes_transferred, total_bytes, .. } => (
                self,
                if is_inbound {
                    ClassificationView::Receive(
                        ReceiveStateView::Receiving {
                            filename: text_or(self.inbound_filenames, id, Seq::empty()),
                            bytes_received: bytes_transferred,
                            total_bytes,
                        },
                    )
                } else {
                    ClassificationView::Send(
                        TransferStateView::Sending {
                            filename: Seq::empty(),
                            bytes_sent: bytes_transferred,
                            total_bytes,
                        },
                    )
                },
            ),
            SessionEvent::TransferComplete { transfer_id } => if is_inbound {
                let filename = text_or(self.inbound_filenames, id, transfer_id@);
                (
                    EventBridgeView {
                        inbound_filenames: self.inbound_filenames.remove(id),
                        stored_names: self.stored_names.remove(id),
                        ..self
                    },
                    ClassificationView::Receive(
                        ReceiveStateView::Done {
                            filename,
                            saved_path: storage::path_under(
                                self.receive_dir,
                                text_or(self.stored_names, id, filename),
                            ),
                        },
                    ),
                )
            } else {
                (self, ClassificationView::Send(TransferStateView::Done { filename: transfer_id@ }))
            },
            SessionEvent::Error { message } => (
                self,
                ClassificationView::ReceiveOrSend {
                    receive: ReceiveStateView::Error { message: message@ },
                    send: TransferStateView::Error { message: message@ },
                    is_inbound,
                },
            ),
            SessionEvent::Finished => (
                EventBridgeView {
                    inbound_sessions: self.inbound_sessions.remove(id),
                    inbound_filenames: self.inbound_filenames.remove(id),
                    stored_names: self.stored_names.remove(id),
                    ..self
                },
                ClassificationView::Nothing,
            ),
        }
    }

    /// How an engine event changes what is shown. A new session is shown as connected.
    pub open spec fn on_engine_event(self, event: EngineEvent) -> (
        EventBridgeView,
        Seq<BridgeEventView>,
    ) {
        match event {
            EngineEvent::SessionCreated { session_id, peer } => (
                EventBridgeView { peer_names: self.peer_names.insert(session_id, peer@), ..self },
                seq![BridgeEventView::Send(TransferStateView::Connected { peer_name: peer@ })],
            ),
            EngineEvent::SessionEvent { session_id, event } => (
                self.classified(session_id, event).0,
                changes(self.classified(session_id, event).1),
            ),
            EngineEvent::Error { message } => (
                self,
                seq![
                    BridgeEventView::Send(TransferStateView::Error { message: message@ }),
                    BridgeEventView::Receive(ReceiveStateView::Error { message: message@ }),
                ],
            ),
            EngineEvent::Accepting { .. } | EngineEvent::AcceptingStopped => (self, Seq::empty()),
        }
    }
}

/// The changes of a list, in order.
pub open spec fn event_views(events: Seq<BridgeEvent>) -> Seq<BridgeEventView> {
    events.map_values(|e: BridgeEvent| e@)
}

impl EventBridge {
    /// A bridge that has heard of nothing yet.
    pub fn new(receive_dir: PathBuf) -> (b: EventBridge)
        ensures
            b@ == EventBridgeView::fresh(receive_dir),
    {
        let b = EventBridge {
            peer_names: HashMap::new(),
            inbound_sessions: HashSet::new(),
            inbound_filenames: HashMap::new(),
            stored_names: HashMap::new(),
            receive_dir,
        };
        assert(b@ =~= EventBridgeView::fresh(receive_dir));
        b
    }

    /// Says what a session event means.
    pub fn classify_event(&mut self, session_id: u64, event: SessionEvent) -> (c:
        EventClassification)
        ensures
            (final(self)@, c@) == old(self)@.classified(session_id, event),
    {
        let is_inbound = self.inbound_sessions.contains(&session_id);
        match event {
            SessionEvent::Connected { peer_device_name } => {
                self.peer_names.insert(session_id, peer_device_name);
                assert(self@ =~= old(self)@.classified(session_id, event).0);
                EventClassification::Nothing
            },
            SessionEvent::TransferAccepted { .. } => EventClassification::Nothing,
            SessionEvent::FileStored { stored_filename } => {
                self.stored_names.insert(session_id, stored_filename);
                assert(self@ =~= old(self)@.classified(session_id, event).0);
                EventClassification::Nothing
            },
            SessionEvent::TransferOffered { transfer_id, filename, size_bytes } => {
                let peer_name = match self.peer_names.get(&session_id) {
                    Some(name) => name.clone(),
                    None => String::from_str("Unknown"),
                };
                self.inbound_sessions.insert(session_id);
                self.inbound_filenames.insert(session_id, filename.clone());
                self.stored_names.remove(&session_id);
                assert(self@ =~= old(self)@.classified(session_id, event).0);
                EventClassification::Receive(
                    ReceiveState::Offered {
                        incoming: IncomingTransfer {
                            session_id,
                            transfer_id,
                            filename,
                            size_bytes,
                            peer_name,
                        },
                    },
                )
            },
            SessionEvent::TransferDenied { .. } => EventClassification::Send(
                TransferState::Error {
                    message: String::from_str("Transfer was denied by the remote device"),
                },
            ),
            SessionEvent::TransferProgress { bytes_transferred, total_bytes, .. } => {
                if is_inbound {
                    let filename = match self.inbound_filenames.get(&session_id) {
                        Some(name) => name.clone(),
                        None => String::new(),
                    };
                    EventClassification::Receive(
                        ReceiveState::Receiving {
                            filename,
                            bytes_received: bytes_transferred,
                            total_bytes,
                        },
                    )
                } else {
                    EventClassification::Send(
                        TransferState::Sending {
                            filename: String::new(),
                            bytes_sent: bytes_transferred,
                            total_bytes,
                        },
                    )
                }
            },
            SessionEvent::TransferComplete { transfer_id } => {
                if is_inbound {
                    let filename = match self.inbound_filenames.remove(&session_id) {
                        Some(name) => name,
                        None => transfer_id,
                    };
                    let saved_path = match self.stored_names.remove(&session_id) {
                        Some(name) => storage::join(&self.receive_dir, name.as_str()),
                        None => storage::join(&self.receive_dir, filename.as_str()),
                    };
                    assert(self@ =~= old(self)@.classified(session_id, event).0);
                    EventClassification::Receive(ReceiveState::Done { filename, saved_path })
                } else {
                    EventClassification::Send(TransferState::Done { filename: transfer_id })
                }
            },
            SessionEvent::Error { message } => EventClassification::ReceiveOrSend {
                receive: ReceiveState::Error { message: message.clone() },
                send: TransferState::Error { message },
                is_inbound,
            },
            SessionEvent::Finished => {
                self.inbound_sessions.remove(&session_id);
                self.inbound_filenames.remove(&session_id);
                self.stored_names.remove(&session_id);
                assert(self@ =~= old(self)@.classified(session_id, event).0);
                EventClassification::Nothing
            },
        }
    }

    /// Says how an engine event changes what is shown.
    pub fn on_engine_event(&mut self, event: EngineEvent) -> (events: Vec<BridgeEvent>)
        ensures
            (final(self)@, event_views(events@)) == old(self)@.on_engine_event(event),
    {
        let mut events: Vec<BridgeEvent> = Vec::new();
        match event {
            EngineEvent::SessionCreated { session_id, peer } => {
                self.peer_names.insert(session_id, peer.clone());
                assert(self@ =~= old(self)@.on_engine_event(event).0);
                events.push(BridgeEvent::Send(TransferState::Connected { peer_name: peer }));
            },
            EngineEvent::SessionEvent { session_id, event } => {
                match self.classify_event(session_id, event) {
                    EventClassification::Send(state) => {
                        events.push(BridgeEvent::Send(state));
                    },
                    EventClassification::Receive(state) => {
                        events.push(BridgeEvent::Receive(state));
                    },
                    EventClassification::ReceiveOrSend { receive, send, is_inbound } => {
                        if is_inbound {
                            events.push(BridgeEvent::Receive(receive));
                        } else {
                            events.push(BridgeEvent::Send(send));
                        }
                    },
                    EventClassification::Nothing => {},
                }
            },
            EngineEvent::Error { message } => {
                events.push(BridgeEvent::Send(TransferState::Error { message: message.clone() }));
                events.push(BridgeEvent::Receive(ReceiveState::Error { message }));
            },
            EngineEvent::Accepting { .. } | EngineEvent::AcceptingStopped => {},
        }
        assert(event_views(events@) =~= old(self)@.on_engine_event(event).1);
        events
    }
}

/// Once a session has made an offer, and until it finishes, whatever it tells of its
/// progress, its completion or its failure is shown as reception.
pub proof fn law_inbound_session_is_shown_as_reception(
    b: EventBridgeView,
    id: u64,
    event: SessionEvent,
)
    requires
        b.inbound_sessions.contains(id),
        event !is TransferDenied,
    ensures
        forall|i: int|
            0 <= i < changes(b.classified(id, event).1).len() ==> #[trigger] changes(
                b.classified(id, event).1,
            )[i] is Receive,
        event !is Finished ==> b.classified(id, event).0.inbound_sessions.contains(id),
{
}

/// A session that made no offer never touches what is shown of reception.
pub proof fn law_outbound_session_is_shown_as_sending(
    b: EventBridgeView,
    id: u64,
    event: SessionEvent,
)
    requires
        !b.inbound_sessions.contains(id),
        event !is TransferOffered,
    ensures
        forall|i: int|
            0 <= i < changes(b.classified(id, event).1).len() ==> #[trigger] changes(
                b.classified(id, event).1,
            )[i] is Send,
        !b.classified(id, event).0.inbound_sessions.contains(id),
{
}

/// What one session tells leaves what is known of the others alone.
pub proof fn law_sessions_are_kept_apart(
    b: EventBridgeView,
    id: u64,
    event: SessionEvent,
    other: u64,
)
    requires
        other != id,
    ensures
        ({
            let after = b.classified(id, event).0;
            &&& text_or(after.peer_names, other, Seq::empty()) == text_or(
                b.peer_names,
                other,
                Seq::empty(),
            )
            &&& text_or(after.stored_names, other, Seq::empty()) == text_or(
                b.stored_names,
                other,
                Seq::empty(),
            )
            &&& after.inbound_sessions.contains(other) == b.inbound_sessions.contains(other)
            &&& text_or(after.inbound_filenames, other, Seq::empty()) == text_or(
                b.inbound_filenames,
                other,
                Seq::empty(),
            )
        }),
{
}

/// The file that an offer announced is the one shown while it arrives and when it is there.
pub proof fn law_offered_file_is_shown_to_the_end(
    b: EventBridgeView,
    id: u64,
    transfer_id: String,
    filename: String,
    size_bytes: u64,
    sent: u64,
)
    ensures
        ({
            let offered = b.classified(
                id,
                SessionEvent::TransferOffered { transfer_id, filename, size_bytes },
            ).0;
            let progress = SessionEvent::TransferProgress {
                transfer_id,
                bytes_transferred: sent,
                total_bytes: size_bytes,
            };
            &&& offered.classified(id, progress).1 == ClassificationView::Receive(
                ReceiveStateView::Receiving {
                    filename: filename@,
                    bytes_received: sent,
                    total_bytes: size_bytes,
                },
            )
            &&& offered.classified(id, SessionEvent::TransferComplete { transfer_id }).1
                == ClassificationView::Receive(
                ReceiveStateView::Done {
                    filename: filename@,
                    saved_path: storage::path_under(b.receive_dir, filename@),
                },
            )
        }),
{
}

/// What a bridge knows when it has heard several engine events, one after the other.
pub open spec fn heard(b: EventBridgeView, events: Seq<EngineEvent>) -> EventBridgeView
    decreases events.len(),
{
    if events.len() == 0 {
        b
    } else {
        heard(b.on_engine_event(events[0]).0, events.skip(1))
    }
}

/// Whether an engine event says who the peer of a session is.
pub open spec fn names_peer(event: EngineEvent, id: u64) -> bool {
    match event {
        EngineEvent::SessionCreated { session_id, .. } => session_id == id,
        EngineEvent::SessionEvent { session_id, event } => session_id == id && event is Connected,
        _ => false,
    }
}

proof fn lemma_peer_name_lasts(b: EventBridgeView, id: u64, events: Seq<EngineEvent>)
    requires
        forall|i: int| 0 <= i < events.len() ==> !names_peer(#[trigger] events[i], id),
    ensures
        heard(b, events).peer_names.contains_key(id) == b.peer_names.contains_key(id),
        b.peer_names.contains_key(id) ==> heard(b, events).peer_names[id] == b.peer_names[id],
    decreases events.len(),
{
    if events.len() > 0 {
        let rest = events.skip(1);
        assert(!names_peer(events[0], id));
        assert forall|i: int| 0 <= i < rest.len() implies !names_peer(#[trigger] rest[i], id) by {
            assert(rest[i] == events[i + 1]);
        }
        lemma_peer_name_lasts(b.on_engine_event(events[0]).0, id, rest);
    }
}

/// An offer is shown with the name that the peer gave in the handshake, whatever is heard in
/// between.
pub proof fn law_offer_is_shown_with_the_peers_name(
    b: EventBridgeView,
    id: u64,
    peer_device_name: String,
    between: Seq<EngineEvent>,
    transfer_id: String,
    filename: String,
    size_bytes: u64,
)
    requires
        forall|i: int| 0 <= i < between.len() ==> !names_peer(#[trigger] between[i], id),
    ensures
        ({
            let connected = EngineEvent::SessionEvent {
                session_id: id,
                event: SessionEvent::Connected { peer_device_name },
            };
            let offered = EngineEvent::SessionEvent {
                session_id: id,
                event: SessionEvent::TransferOffered { transfer_id, filename, size_bytes },
            };
            let known = heard(b.on_engine_event(connected).0, between);
            known.on_engine_event(offered).1 == seq![
                BridgeEventView::Receive(
                    ReceiveStateView::Offered {
                        incoming: IncomingTransferView {
                            session_id: id,
                            transfer_id: transfer_id@,
                            filename: filename@,
                            size_bytes,
                            peer_name: peer_device_name@,
                        },
                    },
                ),
            ]
        }),
{
    let connected = EngineEvent::SessionEvent {
        session_id: id,
        event: SessionEvent::Connected { peer_device_name },
    };
    lemma_peer_name_lasts(b.on_engine_event(connected).0, id, between);
}

/// The path that is shown for a received file is the one that it was stored under, whatever
/// name it was offered under.
pub proof fn law_shown_path_is_where_the_file_is(
    b: EventBridgeView,
    id: u64,
    stored_filename: String,
    transfer_id: String,
)
    requires
        b.inbound_sessions.contains(id),
    ensures
        ({
            let stored = b.classified(id, SessionEvent::FileStored { stored_filename }).0;
            stored.classified(id, SessionEvent::TransferComplete { transfer_id }).1
                == ClassificationView::Receive(
                ReceiveStateView::Done {
                    filename: text_or(b.inbound_filenames, id, transfer_id@),
                    saved_path: storage::path_under(b.receive_dir, stored_filename@),
                },
            )
        }),
{
}

// ── What the user sees and does ─────────────────────────────────────

/// The command by which the user answers an offer.
pub fn respond_to_offer(session_id: u64, transfer_id: String, accept: bool) -> (cmd: EngineCmd)
    ensures
        cmd == (EngineCmd::SessionCmd {
            session_id,
            cmd: SessionCmd::RespondToOffer { transfer_id, accept },
        }),
{
    EngineCmd::SessionCmd { session_id, cmd: SessionCmd::RespondToOffer { transfer_id, accept } }
}

/// What the user interface shows of transfers.
pub struct Board {
    pub transfer: TransferState,
    pub receive: ReceiveState,
}

impl Board {
    /// Nothing to show yet.
    pub fn new() -> (b: Board)
        ensures
            b.transfer@ is Idle,
            b.receive@ is Idle,
    {
        Board { transfer: TransferState::Idle, receive: ReceiveState::Idle }
    }

    /// Shows a change.
    pub fn apply(&mut self, event: BridgeEvent)
        ensures
            match event@ {
                BridgeEventView::Send(s) => final(self).transfer@ == s && final(self).receive
                    == old(self).receive,
                BridgeEventView::Receive(r) => final(self).receive@ == r && final(self).transfer
                    == old(self).transfer,
            },
    {
        match event {
            BridgeEvent::Send(s) => {
                self.transfer = s;
            },
            BridgeEvent::Receive(r) => {
                self.receive = r;
            },
        }
    }

    /// Shows that the engine could not be started.
    pub fn engine_failed(&mut self, error: &str)
        ensures
            final(self).transfer@ == (TransferStateView::Error {
                message: "Engine failed to start: "@ + error@,
            }),
            final(self).receive == old(self).receive,
    {
        self.transfer = TransferState::Error {
            message: String::from_str("Engine failed to start: ").concat(error),
        };
    }

    /// Whether what is shown of reception can be dismissed: it can once nothing is pending
    /// any more.
    pub fn can_dismiss(&self) -> (r: bool)
        ensures
            r == (self.receive@ is Done || self.receive@ is Error || self.receive@ is Denied),
    {
        match self.receive {
            ReceiveState::Done { .. } | ReceiveState::Error { .. } | ReceiveState::Denied {
                ..
            } => true,
            _ => false,
        }
    }

    /// The user dismisses what is shown of reception. While something is pending, nothing
    /// happens.
    pub fn dismiss(&mut self)
        ensures
            final(self).transfer == old(self).transfer,
            if old(self).receive@ is Done || old(self).receive@ is Error || old(self).receive@
                is Denied {
                final(self).receive@ is Idle
            } else {
                final(self).receive == old(self).receive
            },
    {
        if self.can_dismiss() {
            self.receive = ReceiveState::Idle;
        }
    }

    /// The user accepts the offer that is shown. What is shown changes when data arrives.
    pub fn accept(&self) -> (cmd: Option<EngineCmd>)
        ensures
            match self.receive {
                ReceiveState::Offered { incoming } => cmd == Some(
                    EngineCmd::SessionCmd {
                        session_id: incoming.session_id,
                        cmd: SessionCmd::RespondToOffer {
                            transfer_id: incoming.transfer_id,
                            accept: true,
                        },
                    },
                ),
                _ => cmd is None,
            },
    {
        match &self.receive {
            ReceiveState::Offered { incoming } => Some(
                respond_to_offer(incoming.session_id, incoming.transfer_id.clone(), true),
            ),
            _ => None,
        }
    }

    /// The acceptance could not be handed to the engine.
    pub fn accept_failed(&mut self, error: &str)
        ensures
            final(self).transfer == old(self).transfer,
            final(self).receive@ == (ReceiveStateView::Error {
                message: "Failed to accept: "@ + error@,
            }),
    {
        self.receive = ReceiveState::Error {
            message: String::from_str("Failed to accept: ").concat(error),
        };
    }

    /// The user denies the offer that is shown.
    pub fn deny(&mut self) -> (cmd: Option<EngineCmd>)
        ensures
            final(self).transfer == old(self).transfer,
            match old(self).receive {
                ReceiveState::Offered { incoming } => {
                    &&& cmd == Some(
                        EngineCmd::SessionCmd {
                            session_id: incoming.session_id,
                            cmd: SessionCmd::RespondToOffer {
                                transfer_id: incoming.transfer_id,
                                accept: false,
                            },
                        },
                    )
                    &&& final(self).receive@ == (ReceiveStateView::Denied {
                        filename: incoming.filename@,
                    })
                },
                _ => cmd is None && final(self).receive == old(self).receive,
            },
    {
        let (cmd, filename) = match &self.receive {
            ReceiveState::Offered { incoming } => (
                respond_to_offer(incoming.session_id, incoming.transfer_id.clone(), false),
                incoming.filename.clone(),
            ),
            _ => {
                return None;
            },
        };
        self.receive = ReceiveState::Denied { filename };
        Some(cmd)
    }
}

// ── What comes of each event ────────────────────────────────────────

/// What the bridge makes of an event of a session.
pub open spec fn on_session_event(b: EventBridgeView, id: u64, event: SessionEvent) -> (
    EventBridgeView,
    Seq<BridgeEventView>,
) {
    b.on_engine_event(EngineEvent::SessionEvent { session_id: id, event })
}

/// A denied offer is shown as a failure to send, whatever was heard before, and changes
/// nothing else.
pub proof fn law_denial_is_shown_as_a_failure(b: EventBridgeView, id: u64, transfer_id: String)
    ensures
        on_session_event(b, id, SessionEvent::TransferDenied { transfer_id }) == (
            b,
            seq![
                BridgeEventView::Send(
                    TransferStateView::Error {
                        message: "Transfer was denied by the remote device"@,
                    },
                ),
            ],
        ),
{
}

/// Whether it is true to show a change when an engine event is heard.
pub open spec fn is_true_to_show(
    change: BridgeEventView,
    b: EventBridgeView,
    event: EngineEvent,
) -> bool {
    match change {
        BridgeEventView::Send(TransferStateView::Done { filename }) => {
            &&& event matches EngineEvent::SessionEvent {
                session_id,
                event: SessionEvent::TransferComplete { transfer_id },
            }
            &&& !b.inbound_sessions.contains(session_id)
            &&& filename == transfer_id@
        },
        BridgeEventView::Send(TransferStateView::Sending { bytes_sent, total_bytes, .. }) => {
            &&& event matches EngineEvent::SessionEvent {
                session_id,
                event: SessionEvent::TransferProgress { bytes_transferred, total_bytes: total, .. },
            }
            &&& !b.inbound_sessions.contains(session_id)
            &&& bytes_sent == bytes_transferred
            &&& total_bytes == total
        },
        BridgeEventView::Send(TransferStateView::Connected { peer_name }) => {
            &&& event matches EngineEvent::SessionCreated { peer, .. }
            &&& peer@ == peer_name
        },
        BridgeEventView::Send(TransferStateView::Error { .. }) => {
            ||| event is Error
            ||| {
                &&& event matches EngineEvent::SessionEvent { session_id, event }
                &&& event is TransferDenied || (event is Error && !b.inbound_sessions.contains(
                    session_id,
                ))
            }
        },
        BridgeEventView::Send(_) => false,
        BridgeEventView::Receive(ReceiveStateView::Offered { incoming }) => {
            &&& event matches EngineEvent::SessionEvent {
                session_id,
                event: SessionEvent::TransferOffered { transfer_id, filename, size_bytes },
            }
            &&& incoming.session_id == session_id
            &&& incoming.transfer_id == transfer_id@
            &&& incoming.filename == filename@
            &&& incoming.size_bytes == size_bytes
        },
        BridgeEventView::Receive(ReceiveStateView::Receiving { bytes_received, total_bytes, .. }) => {
            &&& event matches EngineEvent::SessionEvent {
                session_id,
                event: SessionEvent::TransferProgress { bytes_transferred, total_bytes: total, .. },
            }
            &&& b.inbound_sessions.contains(session_id)
            &&& bytes_received == bytes_transferred
            &&& total_bytes == total
        },
        BridgeEventView::Receive(ReceiveStateView::Done { .. }) => {
            &&& event matches EngineEvent::SessionEvent { session_id, event }
            &&& event is TransferComplete
            &&& b.inbound_sessions.contains(session_id)
        },
        BridgeEventView::Receive(ReceiveStateView::Error { .. }) => {
            ||| event is Error
            ||| {
                &&& event matches EngineEvent::SessionEvent { session_id, event }
                &&& event is Error
                &&& b.inbound_sessions.contains(session_id)
            }
        },
        BridgeEventView::Receive(_) => false,
    }
}

/// Nothing is shown that is not so. In particular sending is shown as done for the completion
/// of a session that made no offer, and for nothing else.
pub proof fn law_what_is_shown_is_true(b: EventBridgeView, event: EngineEvent, i: int)
    requires
        0 <= i < b.on_engine_event(event).1.len(),
    ensures
        is_true_to_show(b.on_engine_event(event).1[i], b, event),
{
}

/// The completion of a session is shown: as a file that was sent where the session made no
/// offer, and otherwise as a file that was received, with its offered name and the path of the
/// name it was stored under. It is shown once, and the names are kept no longer.
pub proof fn law_completion_is_shown(b: EventBridgeView, id: u64, transfer_id: String)
    ensures
        !b.inbound_sessions.contains(id) ==> on_session_event(
            b,
            id,
            SessionEvent::TransferComplete { transfer_id },
        ) == (
            b,
            seq![BridgeEventView::Send(TransferStateView::Done { filename: transfer_id@ })],
        ),
        b.inbound_sessions.contains(id) ==> {
            let filename = if b.inbound_filenames.contains_key(id) {
                b.inbound_filenames[id]
            } else {
                transfer_id@
            };
            let stored = if b.stored_names.contains_key(id) {
                b.stored_names[id]
            } else {
                filename
            };
            on_session_event(b, id, SessionEvent::TransferComplete { transfer_id }) == (
                EventBridgeView {
                    inbound_filenames: b.inbound_filenames.remove(id),
                    stored_names: b.stored_names.remove(id),
                    ..b
                },
                seq![
                    BridgeEventView::Receive(
                        ReceiveStateView::Done {
                            filename,
                            saved_path: storage::path_under(b.receive_dir, stored),
                        },
                    ),
                ],
            )
        },
{
}

/// The progress of a session is shown with the numbers it tells: as sending where the session
/// made no offer, and otherwise as receiving the file that was offered. Nothing else changes.
pub proof fn law_progress_is_shown(
    b: EventBridgeView,
    id: u64,
    transfer_id: String,
    bytes_transferred: u64,
    total_bytes: u64,
)
    ensures
        on_session_event(
            b,
            id,
            SessionEvent::TransferProgress { transfer_id, bytes_transferred, total_bytes },
        ) == (
            b,
            seq![
                if b.inbound_sessions.contains(id) {
                    BridgeEventView::Receive(
                        ReceiveStateView::Receiving {
                            filename: if b.inbound_filenames.contains_key(id) {
                                b.inbound_filenames[id]
                            } else {
                                Seq::empty()
                            },
                            bytes_received: bytes_transferred,
                            total_bytes,
                        },
                    )
                } else {
                    BridgeEventView::Send(
                        TransferStateView::Sending {
                            filename: Seq::empty(),
                            bytes_sent: bytes_transferred,
                            total_bytes,
                        },
                    )
                },
            ],
        ),
{
}

/// An error of a session is shown in its own words, where the session belongs; an error of the
/// engine is shown in both places. Nothing else changes.
pub proof fn law_errors_are_shown(b: EventBridgeView, id: u64, message: String)
    ensures
        on_session_event(b, id, SessionEvent::Error { message }) == (
            b,
            seq![
                if b.inbound_sessions.contains(id) {
                    BridgeEventView::Receive(ReceiveStateView::Error { message: message@ })
                } else {
                    BridgeEventView::Send(TransferStateView::Error { message: message@ })
                },
            ],
        ),
        b.on_engine_event(EngineEvent::Error { message }) == (
            b,
            seq![
                BridgeEventView::Send(TransferStateView::Error { message: message@ }),
                BridgeEventView::Receive(ReceiveStateView::Error { message: message@ }),
            ],
        ),
{
}

/// An offer is shown as it was made, from the peer that is known for its session; from then on
/// the session counts as inbound, with that file.
pub proof fn law_offer_is_shown(
    b: EventBridgeView,
    id: u64,
    transfer_id: String,
    filename: String,
    size_bytes: u64,
)
    ensures
        on_session_event(
            b,
            id,
            SessionEvent::TransferOffered { transfer_id, filename, size_bytes },
        ) == (
            EventBridgeView {
                inbound_sessions: b.inbound_sessions.insert(id),
                inbound_filenames: b.inbound_filenames.insert(id, filename@),
                stored_names: b.stored_names.remove(id),
                ..b
            },
            seq![
                BridgeEventView::Receive(
                    ReceiveStateView::Offered {
                        incoming: IncomingTransferView {
                            session_id: id,
                            transfer_id: transfer_id@,
                            filename: filename@,
                            size_bytes,
                            peer_name: if b.peer_names.contains_key(id) {
                                b.peer_names[id]
                            } else {
                                "Unknown"@
                            },
                        },
                    },
                ),
            ],
        ),
{
}

/// A new session is shown by its address. The handshake, an acceptance, the name of a stored
/// file, the end of a session and the listener show nothing: the first names the peer, the
/// third is kept for the completion, and the fourth forgets that the session was inbound.
pub proof fn law_the_rest_is_only_remembered(
    b: EventBridgeView,
    id: u64,
    name: String,
    transfer_id: String,
)
    ensures
        b.on_engine_event(EngineEvent::SessionCreated { session_id: id, peer: name }) == (
            EventBridgeView { peer_names: b.peer_names.insert(id, name@), ..b },
            seq![BridgeEventView::Send(TransferStateView::Connected { peer_name: name@ })],
        ),
        on_session_event(b, id, SessionEvent::Connected { peer_device_name: name }) == (
            EventBridgeView { peer_names: b.peer_names.insert(id, name@), ..b },
            Seq::<BridgeEventView>::empty(),
        ),
        on_session_event(b, id, SessionEvent::TransferAccepted { transfer_id }) == (
            b,
            Seq::<BridgeEventView>::empty(),
        ),
        on_session_event(b, id, SessionEvent::FileStored { stored_filename: name }) == (
            EventBridgeView { stored_names: b.stored_names.insert(id, name@), ..b },
            Seq::<BridgeEventView>::empty(),
        ),
        on_session_event(b, id, SessionEvent::Finished) == (
            EventBridgeView {
                inbound_sessions: b.inbound_sessions.remove(id),
                inbound_filenames: b.inbound_filenames.remove(id),
                stored_names: b.stored_names.remove(id),
                ..b
            },
            Seq::<BridgeEventView>::empty(),
        ),
        b.on_engine_event(EngineEvent::Accepting { addr: name }) == (
            b,
            Seq::<BridgeEventView>::empty(),
        ),
        b.on_engine_event(EngineEvent::AcceptingStopped) == (b, Seq::<BridgeEventView>::empty()),
{
}

/// A bridge that has heard of nothing knows of nothing.
pub proof fn law_new_bridge_knows_nothing(receive_dir: PathBuf, id: u64)
    ensures
        ({
            let b = EventBridgeView::fresh(receive_dir);
            &&& !b.peer_names.contains_key(id)
            &&& !b.inbound_sessions.contains(id)
            &&& !b.inbound_filenames.contains_key(id)
            &&& !b.stored_names.contains_key(id)
            &&& b.receive_dir == receive_dir
        }),
{
}

} // verus!
