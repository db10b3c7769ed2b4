//! The file-transfer session: a state machine between the wire, the user and the disk.
//!
//! A [`Session`] does no input or output. It is told what happened (bytes arrived, the
//! user decided, a file was stored) and answers with the [`SessionAction`]s to perform,
//! in order. What it does is given by the functions on [`SessionView`]: for every state
//! and every happening, the next state and the actions.
use crate::buffer;
use crate::filename;
use crate::protocol;
use crate::protocol::{
    ErrorPayload, Frame, Front, HelloAckPayload, HelloPayload, Message, MessageType,
    MessageView, OfferView, TransferDecisionPayload, TransferDonePayload, TransferOfferPayload,
};
use crate::text;
use bytes::BytesMut;
use std::path::PathBuf;
use vstd::prelude::*;

verus! {

/// The most that is read from or written to a data stream at a time.
pub const CHUNK_LEN: usize = 8192;

/// The name of the file, in the session's folder, whose bytes are sent.
pub const STAGED_FILE: &'static str = "send_file.txt";

// ── Commands, events, states ────────────────────────────────────────

/// Commands that steer a running session.
#[derive(Debug, Clone)]
pub enum SessionCmd {
    /// Answer a transfer offer. Heeded only while the session awaits the answer to that
    /// very offer.
    RespondToOffer { transfer_id: String, accept: bool },
    /// Offer a file to the peer.
    Transfer { req: SendRequest },
    /// End the session, at any point.
    Cancel,
}

/// Events of a session, for whoever watches it.
#[derive(Debug, Clone)]
pub enum SessionEvent {
    /// The handshake completed.
    Connected { peer_device_name: String },
    /// An inbound offer arrived and requires a decision.
    TransferOffered { transfer_id: String, filename: String, size_bytes: u64 },
    /// The peer accepted our offer. The file follows.
    TransferAccepted { transfer_id: String },
    /// The peer denied our offer.
    TransferDenied { transfer_id: String },
    /// Some of the file's bytes have passed.
    TransferProgress { transfer_id: String, bytes_transferred: u64, total_bytes: u64 },
    /// A received file was stored, under this name in the drop folder.
    FileStored { stored_filename: String },
    /// The transfer completed successfully.
    TransferComplete { transfer_id: String },
    /// The session ended due to an error.
    Error { message: String },
    /// The session has fully shut down.
    Finished,
}

/// The role that a session is playing.
#[derive(Debug, Clone, Copy, PartialEq, Eq, Structural)]
pub enum Role {
    /// We initiated the connection (sender).
    Client,
    /// We accepted the connection (receiver).
    Server,
}

/// The states of a session: what it is waiting for or doing.
#[derive(Debug, Clone, PartialEq, Eq)]
pub enum SessionState {
    /// The client is about to send HELLO, the server waits for it.
    Init,
    /// The client has sent HELLO and waits for HELLO_ACK.
    WaitingForHelloAck,
    /// The handshake is over and no transfer is on.
    Idle,
    /// We have sent TRANSFER_OFFER and wait for TRANSFER_DECISION.
    WaitingForDecision { transfer_id: String },
    /// We have received TRANSFER_OFFER and wait for the user.
    AwaitingUserDecision { offer: TransferOfferPayload },
    /// The file's bytes are passing over a data stream.
    Transferring { transfer_id: String, size_bytes: u64 },
    /// The session is over (terminal).
    Done,
}

/// A file to send.
#[derive(Debug, Clone)]
pub struct SendRequest {
    pub transfer_id: String,
    pub file_path: PathBuf,
    pub filename: String,
    pub size_bytes: u64,
    pub sha256_hex: String,
}

/// A frame as the session takes it.
#[derive(Debug, Clone)]
pub enum Inbound {
    /// Its payload was read as a message of the frame's type.
    Message(Message),
    /// Its payload is no message of the frame's type, and this is why.
    Unreadable { msg_type: MessageType, error: String },
}

/// What is to be done for a session, in the order given.
#[derive(Debug)]
pub enum SessionAction {
    /// Write the message to the peer. Where that fails the session fails: see
    /// [`Session::on_failure`].
    Send(Message),
    /// Write the ERROR message to the peer. Where that fails nothing is lost.
    SendError(ErrorPayload),
    /// Tell whoever watches the session.
    Emit(SessionEvent),
    /// Accept a data stream from the peer, and report it by
    /// [`Session::on_stream_accepted`].
    ReceiveFile,
    /// Open a data stream to the peer and write the staged file to it, by way of
    /// [`Outgoing`](crate::transfer::Outgoing).
    StreamFile { transfer_id: String },
    /// Store the bytes in the drop folder, under a free name for `filename`, and report
    /// it by [`Session::on_stored`].
    StoreFile { filename: String, data: Vec<u8> },
    /// Shut the connection down.
    Shutdown,
}

// ── The same as mathematical values ─────────────────────────────────

/// A [`SessionCmd`] as a mathematical value; of a file to send, what is offered of it.
#[verifier::ext_equal]
pub enum CmdView {
    RespondToOffer { transfer_id: Seq<char>, accept: bool },
    Transfer { offer: OfferView },
    Cancel,
}

/// A [`SessionEvent`] as a mathematical value.
#[verifier::ext_equal]
pub enum EventView {
    Connected { peer_device_name: Seq<char> },
    TransferOffered { transfer_id: Seq<char>, filename: Seq<char>, size_bytes: u64 },
    TransferAccepted { transfer_id: Seq<char> },
    TransferDenied { transfer_id: Seq<char> },
    TransferProgress { transfer_id: Seq<char>, bytes_transferred: u64, total_bytes: u64 },
    FileStored { stored_filename: Seq<char> },
    TransferComplete { transfer_id: Seq<char> },
    Error { message: Seq<char> },
    Finished,
}

/// A [`SessionState`] as a mathematical value.
#[verifier::ext_equal]
pub enum StateView {
    Init,
    WaitingForHelloAck,
    Idle,
    WaitingForDecision { transfer_id: Seq<char> },
    AwaitingUserDecision { offer: OfferView },
    Transferring { transfer_id: Seq<char>, size_bytes: u64 },
    Done,
}

/// An [`Inbound`] as a mathematical value.
#[verifier::ext_equal]
pub enum InboundView {
    Message(MessageView),
    Unreadable { msg_type: MessageType, error: Seq<char> },
}

/// A [`SessionAction`] as a mathematical value.
#[verifier::ext_equal]
pub enum ActionView {
    Send(MessageView),
    SendError { code: Seq<char>, message: Seq<char> },
    Emit(EventView),
    ReceiveFile,
    StreamFile { transfer_id: Seq<char> },
    StoreFile { filename: Seq<char>, data: Seq<u8> },
    Shutdown,
}

impl SendRequest {
    /// What the peer is told of the file.
    pub open spec fn offer_view(self) -> OfferView {
        OfferView {
            transfer_id: self.transfer_id@,
            filename: self.filename@,
            size_bytes: self.size_bytes,
            sha256_hex: self.sha256_hex@,
        }
    }

    /// What the peer is told of the file.
    pub fn offer(&self) -> (offer: TransferOfferPayload)
        ensures
            offer@ == self.offer_view(),
    {
        TransferOfferPayload {
            transfer_id: self.transfer_id.clone(),
            filename: self.filename.clone(),
            size_bytes: self.size_bytes,
            sha256_hex: self.sha256_hex.clone(),
        }
    }
}

impl View for SessionCmd {
    type V = CmdView;

    open spec fn view(&self) -> CmdView {
        match self {
            SessionCmd::RespondToOffer { transfer_id, accept } => CmdView::RespondToOffer {
                transfer_id: transfer_id@,
                accept: *accept,
            },
            SessionCmd::Transfer { req } => CmdView::Transfer { offer: req.offer_view() },
            SessionCmd::Cancel => CmdView::Cancel,
        }
    }
}

impl View for SessionEvent {
    type V = EventView;

    open spec fn view(&self) -> EventView {
        match self {
            SessionEvent::Connected { peer_device_name } => EventView::Connected {
                peer_device_name: peer_device_name@,
            },
            SessionEvent::TransferOffered {
                transfer_id,
                filename,
                size_bytes,
            } => EventView::TransferOffered {
                transfer_id: transfer_id@,
                filename: filename@,
                size_bytes: *size_bytes,
            },
            SessionEvent::TransferAccepted { transfer_id } => EventView::TransferAccepted {
                transfer_id: transfer_id@,
            },
            SessionEvent::TransferDenied { transfer_id } => EventView::TransferDenied {
                transfer_id: transfer_id@,
            },
            SessionEvent::TransferProgress {
                transfer_id,
                bytes_transferred,
                total_bytes,
            } => EventView::TransferProgress {
                transfer_id: transfer_id@,
                bytes_transferred: *bytes_transferred,
                total_bytes: *total_bytes,
            },
            SessionEvent::FileStored { stored_filename } => EventView::FileStored {
                stored_filename: stored_filename@,
            },
            SessionEvent::TransferComplete { transfer_id } => EventView::TransferComplete {
                transfer_id: transfer_id@,
            },
            SessionEvent::Error { message } => EventView::Error { message: message@ },
            SessionEvent::Finished => EventView::Finished,
        }
    }
}

impl View for SessionState {
    type V = StateView;

    open spec fn view(&self) -> StateView {
        match self {
            SessionState::Init => StateView::Init,
            SessionState::WaitingForHelloAck => StateView::WaitingForHelloAck,
            SessionState::Idle => StateView::Idle,
            SessionState::WaitingForDecision { transfer_id } => StateView::WaitingForDecision {
                transfer_id: transfer_id@,
            },
            SessionState::AwaitingUserDecision { offer } => StateView::AwaitingUserDecision {
                offer: offer@,
            },
            SessionState::Transferring { transfer_id, size_bytes } => StateView::Transferring {
                transfer_id: transfer_id@,
                size_bytes: *size_bytes,
            },
            SessionState::Done => StateView::Done,
        }
    }
}

impl View for Inbound {
    type V = InboundView;

    open spec fn view(&self) -> InboundView {
        match self {
            Inbound::Message(m) => InboundView::Message(m@),
            Inbound::Unreadable { msg_type, error } => InboundView::Unreadable {
                msg_type: *msg_type,
                error: error@,
            },
        }
    }
}

impl InboundView {
    /// The message type in the frame's header.
    pub open spec fn msg_type(self) -> MessageType {
        match self {
            InboundView::Message(m) => m.msg_type(),
            InboundView::Unreadable { msg_type, .. } => msg_type,
        }
    }
}

impl View for SessionAction {
    type V = ActionView;

    open spec fn view(&self) -> ActionView {
        match self {
            SessionAction::Send(m) => ActionView::Send(m@),
            SessionAction::SendError(e) => ActionView::SendError {
                code: e.code@,
                message: e.message@,
            },
            SessionAction::Emit(ev) => ActionView::Emit(ev@),
            SessionAction::ReceiveFile => ActionView::ReceiveFile,
            SessionAction::StreamFile { transfer_id } => ActionView::StreamFile {
                transfer_id: transfer_id@,
            },
            SessionAction::StoreFile { filename, data } => ActionView::StoreFile {
                filename: filename@,
                data: data@,
            },
            SessionAction::Shutdown => ActionView::Shutdown,
        }
    }
}

/// The actions of a list, in order.
pub open spec fn views(actions: Seq<SessionAction>) -> Seq<ActionView> {
    actions.map_values(|a: SessionAction| a@)
}

// ── What a session does ─────────────────────────────────────────────

/// How far the reception of a file has come.
#[verifier::ext_equal]
pub enum IncomingView {
    /// No file is being received.
    Nothing,
    /// The bytes `data` of the offered file have arrived.
    Receiving { offer: OfferView, data: Seq<u8> },
    /// The file is complete and being stored.
    Storing { offer: OfferView },
}

/// A session as a mathematical value.
#[verifier::ext_equal]
pub struct SessionView {
    pub role: Role,
    pub device_name: Seq<char>,
    pub state: StateView,
    /// The file to offer as soon as the handshake is over.
    pub send_request: Option<OfferView>,
    /// The bytes that have arrived and belong to no frame yet.
    pub unread: Seq<u8>,
    pub incoming: IncomingView,
    /// Whether nobody can command the session any more.
    pub commands_closed: bool,
}

/// The next state and the actions.
pub type Step = (SessionView, Seq<ActionView>);

/// The text of an error that names a received message type.
pub open spec fn expected_text(wanted: Seq<char>, got: MessageType) -> Seq<char> {
    "expected "@ + wanted + ", got "@ + got.name_spec()
}

/// The text of an error about a file that did not arrive as announced.
pub open spec fn incomplete_text(got: nat, size: nat) -> Seq<char> {
    "incomplete transfer: got "@ + text::decimal(got) + " of "@ + text::decimal(size) + " bytes"@
}

impl SessionView {
    /// The session, in another state.
    pub open spec fn with_state(self, state: StateView) -> SessionView {
        SessionView { state, ..self }
    }

    /// The session, over.
    pub open spec fn done(self) -> SessionView {
        SessionView { state: StateView::Done, incoming: IncomingView::Nothing, ..self }
    }

    /// Nothing changes and nothing is to be done.
    pub open spec fn ignore(self) -> Step {
        (self, Seq::empty())
    }

    /// Whether the handshake is still on.
    pub open spec fn handshaking(self) -> bool {
        self.state is Init || self.state is WaitingForHelloAck
    }

    /// What holds between the parts of a session: a file is received only while it is
    /// being transferred, and it is stored as soon as it is complete.
    pub open spec fn inv(self) -> bool {
        match self.incoming {
            IncomingView::Nothing => true,
            IncomingView::Receiving { offer, data } => {
                &&& self.state == StateView::Transferring {
                    transfer_id: offer.transfer_id,
                    size_bytes: offer.size_bytes,
                }
                &&& data.len() < offer.size_bytes || (data.len() == 0 && offer.size_bytes == 0)
            },
            IncomingView::Storing { offer } => self.state == (StateView::Transferring {
                transfer_id: offer.transfer_id,
                size_bytes: offer.size_bytes,
            }),
        }
    }

    /// A new session.
    pub open spec fn fresh(
        role: Role,
        device_name: Seq<char>,
        send_request: Option<OfferView>,
    ) -> SessionView {
        SessionView {
            role,
            device_name,
            state: StateView::Init,
            send_request,
            unread: Seq::empty(),
            incoming: IncomingView::Nothing,
            commands_closed: false,
        }
    }

    /// The session fails: the error is told, and it is over.
    pub open spec fn failed(self, message: Seq<char>) -> Step {
        (
            self.done(),
            seq![ActionView::Emit(EventView::Error { message }), ActionView::Emit(EventView::Finished)],
        )
    }

    /// The session ends in good order, after `last` has been done.
    pub open spec fn ended(self, last: Seq<ActionView>) -> Step {
        (
            self.done(),
            last + seq![ActionView::Emit(EventView::Finished), ActionView::Shutdown],
        )
    }

    /// The session begins. The client speaks first.
    pub open spec fn on_start(self) -> Step {
        if self.role is Client && self.state is Init {
            (
                self.with_state(StateView::WaitingForHelloAck),
                seq![ActionView::Send(MessageView::Hello { device_name: self.device_name })],
            )
        } else {
            self.ignore()
        }
    }

    /// A file is offered to the peer.
    pub open spec fn offering(self, offer: OfferView) -> Step {
        (
            self.with_state(StateView::WaitingForDecision { transfer_id: offer.transfer_id }),
            seq![ActionView::Send(MessageView::TransferOffer { offer })],
        )
    }

    /// The client reads the answer to its HELLO. If all is well, a file that waits to be
    /// sent is offered at once.
    pub open spec fn on_hello_ack(self, frame: InboundView) -> Step {
        if frame.msg_type() != MessageType::HelloAck {
            self.failed(expected_text("HELLO_ACK"@, frame.msg_type()))
        } else {
            match frame {
                InboundView::Message(MessageView::HelloAck { ok, device_name }) => if ok {
                    let connected = seq![
                        ActionView::Emit(EventView::Connected { peer_device_name: device_name }),
                    ];
                    match self.send_request {
                        Some(offer) => {
                            let idle = SessionView {
                                state: StateView::Idle,
                                send_request: None,
                                ..self
                            };
                            (idle.offering(offer).0, connected + idle.offering(offer).1)
                        },
                        None => (self.with_state(StateView::Idle), connected),
                    }
                } else {
                    self.failed("server rejected HELLO"@)
                },
                InboundView::Unreadable { error, .. } => self.failed(error),
                _ => self.ignore(),
            }
        }
    }

    /// The server reads the HELLO, and answers.
    pub open spec fn on_hello(self, frame: InboundView) -> Step {
        if frame.msg_type() != MessageType::Hello {
            self.failed(expected_text("HELLO"@, frame.msg_type()))
        } else {
            match frame {
                InboundView::Message(MessageView::Hello { device_name }) => (
                    self.with_state(StateView::Idle),
                    seq![
                        ActionView::Send(
                            MessageView::HelloAck { ok: true, device_name: self.device_name },
                        ),
                        ActionView::Emit(EventView::Connected { peer_device_name: device_name }),
                    ],
                ),
                InboundView::Unreadable { error, .. } => self.failed(error),
                _ => self.ignore(),
            }
        }
    }

    /// An offer is put before the user while nothing else is on, and refused otherwise.
    pub open spec fn on_transfer_offer(self, frame: InboundView) -> Step {
        if self.state !is Idle {
            (
                self,
                seq![
                    ActionView::SendError {
                        code: "bad_frame"@,
                        message: "unexpected TRANSFER_OFFER"@,
                    },
                ],
            )
        } else {
            match frame {
                InboundView::Message(MessageView::TransferOffer { offer }) => (
                    self.with_state(StateView::AwaitingUserDecision { offer }),
                    seq![
                        ActionView::Emit(
                            EventView::TransferOffered {
                                transfer_id: offer.transfer_id,
                                filename: offer.filename,
                                size_bytes: offer.size_bytes,
                            },
                        ),
                    ],
                ),
                InboundView::Unreadable { error, .. } => self.failed(error),
                _ => self.ignore(),
            }
        }
    }

    /// A decision counts only for the offer that it is awaited for.
    pub open spec fn on_transfer_decision(self, frame: InboundView) -> Step {
        match self.state {
            StateView::WaitingForDecision { transfer_id: expected } => match frame {
                InboundView::Message(MessageView::TransferDecision { transfer_id, accept }) => {
                    if transfer_id != expected {
                        self.ignore()
                    } else if accept {
                        (
                            self.with_state(
                                StateView::Transferring { transfer_id, size_bytes: 0 },
                            ),
                            seq![
                                ActionView::Emit(EventView::TransferAccepted { transfer_id }),
                                ActionView::StreamFile { transfer_id },
                            ],
                        )
                    } else {
                        (
                            self.with_state(StateView::Idle),
                            seq![ActionView::Emit(EventView::TransferDenied { transfer_id })],
                        )
                    }
                },
                InboundView::Unreadable { error, .. } => self.failed(error),
                _ => self.ignore(),
            },
            _ => self.ignore(),
        }
    }

    /// The peer is done with the file, and so is the session. Only what the peer stored
    /// counts as complete.
    pub open spec fn on_transfer_done(self, frame: InboundView) -> Step {
        match frame {
            InboundView::Message(MessageView::TransferDone { transfer_id, ok, reason, .. }) => {
                self.ended(
                    seq![
                        ActionView::Emit(
                            if ok {
                                EventView::TransferComplete { transfer_id }
                            } else {
                                EventView::Error {
                                    message: match reason {
                                        Some(reason) => reason,
                                        None => "transfer failed"@,
                                    },
                                }
                            },
                        ),
                    ],
                )
            },
            InboundView::Unreadable { error, .. } => self.failed(error),
            _ => self.ignore(),
        }
    }

    /// The peer reports an error, and the session is over.
    pub open spec fn on_error(self, frame: InboundView) -> Step {
        self.ended(
            seq![
                ActionView::Emit(
                    EventView::Error {
                        message: match frame {
                            InboundView::Message(MessageView::Error { code, message }) => code
                                + ": "@ + message,
                            _ => "remote error (unparseable)"@,
                        },
                    },
                ),
            ],
        )
    }

    /// The handshake goes on. Where nobody can command the session any more, its end is the
    /// end of the session too.
    pub open spec fn on_greeting(self, frame: InboundView) -> Step {
        let (after, actions) = match self.role {
            Role::Client => self.on_hello_ack(frame),
            Role::Server => self.on_hello(frame),
        };
        if self.commands_closed && !after.handshaking() && after.state !is Done {
            after.ended(actions)
        } else {
            (after, actions)
        }
    }

    /// A frame arrives.
    pub open spec fn on_frame(self, frame: InboundView) -> Step {
        if self.state is Done {
            self.ignore()
        } else if self.handshaking() {
            self.on_greeting(frame)
        } else {
            match frame.msg_type() {
                MessageType::TransferOffer => self.on_transfer_offer(frame),
                MessageType::TransferDecision => self.on_transfer_decision(frame),
                MessageType::TransferDone => self.on_transfer_done(frame),
                MessageType::Error => self.on_error(frame),
                _ => (
                    self,
                    seq![
                        ActionView::SendError {
                            code: "bad_frame"@,
                            message: "unexpected message type"@,
                        },
                    ],
                ),
            }
        }
    }

    /// The user decides on an offer, asks for a file to be sent, or cancels.
    pub open spec fn on_command(self, cmd: CmdView) -> Step {
        if self.state is Done {
            self.ignore()
        } else {
            match cmd {
                CmdView::Cancel => self.ended(
                    seq![
                        ActionView::SendError { code: "cancelled"@, message: "user cancelled"@ },
                    ],
                ),
                CmdView::RespondToOffer { transfer_id, accept } => match self.state {
                    StateView::AwaitingUserDecision { offer } => {
                        let answer = ActionView::Send(
                            MessageView::TransferDecision { transfer_id, accept },
                        );
                        if offer.transfer_id != transfer_id {
                            self.ignore()
                        } else if accept {
                            (
                                SessionView {
                                    state: StateView::Transferring {
                                        transfer_id,
                                        size_bytes: offer.size_bytes,
                                    },
                                    incoming: IncomingView::Receiving { offer, data: Seq::empty() },
                                    ..self
                                },
                                seq![answer, ActionView::ReceiveFile],
                            )
                        } else {
                            (self.with_state(StateView::Idle), seq![answer])
                        }
                    },
                    _ => self.ignore(),
                },
                CmdView::Transfer { offer } => if self.role is Server {
                    self.ignore()
                } else if self.handshaking() && self.send_request is None {
                    (SessionView { send_request: Some(offer), ..self }, Seq::empty())
                } else if self.state is Idle {
                    self.offering(offer)
                } else {
                    self.ignore()
                },
            }
        }
    }

    /// Nobody can command the session any more. A handshake is finished first.
    pub open spec fn on_commands_closed(self) -> Step {
        if self.state is Done {
            self.ignore()
        } else if self.handshaking() {
            (SessionView { commands_closed: true, ..self }, Seq::empty())
        } else {
            self.ended(Seq::empty())
        }
    }

    /// Bytes arrive on the connection; none at all means that the peer has closed it.
    pub open spec fn on_bytes(self, bytes: Seq<u8>) -> Step {
        if self.state is Done {
            self.ignore()
        } else if bytes.len() > 0 {
            (SessionView { unread: self.unread + bytes, ..self }, Seq::empty())
        } else if self.handshaking() {
            self.failed("connection closed while waiting for frame"@)
        } else {
            self.ended(Seq::empty())
        }
    }

    /// The connection cannot be read.
    pub open spec fn on_read_error(self, message: Seq<char>) -> Step {
        if self.state is Done {
            self.ignore()
        } else if self.handshaking() {
            self.failed(message)
        } else {
            self.ended(seq![ActionView::Emit(EventView::Error { message })])
        }
    }

    /// The peer breaks the protocol.
    pub open spec fn on_violation(self, message: Seq<char>) -> Step {
        if self.handshaking() {
            self.failed(message)
        } else {
            self.ended(
                seq![
                    ActionView::SendError { code: "bad_frame"@, message },
                    ActionView::Emit(EventView::Error { message }),
                ],
            )
        }
    }

    /// A complete file is handed over to be stored, unless it was offered under what is
    /// no name for a file.
    pub open spec fn storing(self, offer: OfferView, data: Seq<u8>) -> Step {
        match filename::sanitized(offer.filename) {
            Some(name) => (
                SessionView { incoming: IncomingView::Storing { offer }, ..self },
                seq![ActionView::StoreFile { filename: name, data }],
            ),
            None => self.ended(
                seq![
                    ActionView::SendError {
                        code: "invalid_filename"@,
                        message: "invalid filename"@,
                    },
                    ActionView::Emit(EventView::Error { message: "invalid filename"@ }),
                ],
            ),
        }
    }

    /// No more bytes are taken: the file is stored if it is what was announced, and the
    /// peer is told if it is not.
    pub open spec fn received(self, offer: OfferView, data: Seq<u8>) -> Step {
        if data.len() == offer.size_bytes {
            self.storing(offer, data)
        } else {
            let message = incomplete_text(data.len(), offer.size_bytes as nat);
            self.ended(
                seq![
                    ActionView::Send(
                        MessageView::TransferDone {
                            transfer_id: offer.transfer_id,
                            ok: false,
                            stored_filename: None,
                            reason: Some(message),
                        },
                    ),
                    ActionView::Emit(EventView::Error { message }),
                ],
            )
        }
    }

    /// The data stream for the file is there. Of an empty file nothing needs to be read.
    pub open spec fn on_stream_accepted(self) -> Step {
        match self.incoming {
            IncomingView::Receiving { offer, data } if offer.size_bytes == 0 => self.received(
                offer,
                data,
            ),
            _ => self.ignore(),
        }
    }

    /// Bytes arrive on the data stream; none at all means that it has ended.
    pub open spec fn on_data(self, chunk: Seq<u8>) -> Step {
        match self.incoming {
            IncomingView::Receiving { offer, data } => if chunk.len() == 0 {
                self.received(offer, data)
            } else {
                let now = data + chunk;
                let progress = seq![
                    ActionView::Emit(
                        EventView::TransferProgress {
                            transfer_id: offer.transfer_id,
                            bytes_transferred: now.len() as u64,
                            total_bytes: offer.size_bytes,
                        },
                    ),
                ];
                if now.len() < offer.size_bytes {
                    (
                        SessionView { incoming: IncomingView::Receiving { offer, data: now }, ..self },
                        progress,
                    )
                } else {
                    (self.received(offer, now).0, progress + self.received(offer, now).1)
                }
            },
            _ => self.ignore(),
        }
    }

    /// How many bytes to read from the data stream next: never more than are missing.
    pub open spec fn wanted(self) -> nat {
        match self.incoming {
            IncomingView::Receiving { offer, data } => if offer.size_bytes <= data.len() {
                0
            } else if offer.size_bytes - data.len() < CHUNK_LEN {
                (offer.size_bytes - data.len()) as nat
            } else {
                CHUNK_LEN as nat
            },
            _ => 0,
        }
    }

    /// The file has been stored, under this name.
    pub open spec fn on_stored(self, name: Seq<char>) -> Step {
        match self.incoming {
            IncomingView::Storing { offer } => self.ended(
                seq![
                    ActionView::Send(
                        MessageView::TransferDone {
                            transfer_id: offer.transfer_id,
                            ok: true,
                            stored_filename: Some(name),
                            reason: None,
                        },
                    ),
                    ActionView::Emit(EventView::FileStored { stored_filename: name }),
                    ActionView::Emit(
                        EventView::TransferComplete { transfer_id: offer.transfer_id },
                    ),
                ],
            ),
            _ => self.ignore(),
        }
    }
}

// ── The session itself ──────────────────────────────────────────────

/// How far the reception of a file has come.
#[derive(Debug)]
enum Incoming {
    Nothing,
    Receiving { offer: TransferOfferPayload, data: Vec<u8> },
    Storing { offer: TransferOfferPayload },
}

impl View for Incoming {
    type V = IncomingView;

    closed spec fn view(&self) -> IncomingView {
        match self {
            Incoming::Nothing => IncomingView::Nothing,
            Incoming::Receiving { offer, data } => IncomingView::Receiving {
                offer: offer@,
                data: data@,
            },
            Incoming::Storing { offer } => IncomingView::Storing { offer: offer@ },
        }
    }
}

/// A file-transfer session with one peer.
pub struct Session {
    role: Role,
    state: SessionState,
    device_name: String,
    accum: BytesMut,
    send_request: Option<SendRequest>,
    incoming: Incoming,
    commands_closed: bool,
}

/// What the bytes that have arrived amount to.
pub enum Polled {
    /// No frame has arrived wholly.
    Wait,
    /// A frame has arrived. It is for [`Session::on_frame`].
    Frame(Frame),
    /// The peer broke the protocol, and the session is over.
    Ended(Vec<SessionAction>),
}

impl View for Session {
    type V = SessionView;

    closed spec fn view(&self) -> SessionView {
        SessionView {
            role: self.role,
            device_name: self.device_name@,
            state: self.state@,
            send_request: match self.send_request {
                Some(req) => Some(req.offer_view()),
                None => None,
            },
            unread: buffer::buffered(self.accum),
            incoming: self.incoming@,
            commands_closed: self.commands_closed,
        }
    }
}

/// The ERROR message with this code.
fn error_payload(code: &str, message: &str) -> (e: ErrorPayload)
    ensures
        e.code@ == code@,
        e.message@ == message@,
{
    ErrorPayload { code: String::from_str(code), message: String::from_str(message) }
}

impl Session {
    /// A new session. `send_request` is offered to the peer as soon as the handshake is
    /// over; only a client has one.
    pub fn new(role: Role, device_name: String, send_request: Option<SendRequest>) -> (s: Session)
        ensures
            s@ == SessionView::fresh(
                role,
                device_name@,
                match send_request {
                    Some(req) => Some(req.offer_view()),
                    None => None,
                },
            ),
    {
        Session {
            role,
            state: SessionState::Init,
            device_name,
            accum: BytesMut::with_capacity(CHUNK_LEN),
            send_request,
            incoming: Incoming::Nothing,
            commands_closed: false,
        }
    }

    /// The current state.
    pub fn state(&self) -> (state: &SessionState)
        ensures
            state@ == self@.state,
    {
        &self.state
    }

    /// Whether the session is over.
    pub fn is_done(&self) -> (r: bool)
        ensures
            r == (self@.state is Done),
    {
        match self.state {
            SessionState::Done => true,
            _ => false,
        }
    }

    /// Whether the handshake is still on.
    pub fn is_handshaking(&self) -> (r: bool)
        ensures
            r == self@.handshaking(),
    {
        match self.state {
            SessionState::Init | SessionState::WaitingForHelloAck => true,
            _ => false,
        }
    }

    fn is_idle(&self) -> (r: bool)
        ensures
            r == (self@.state is Idle),
    {
        match self.state {
            SessionState::Idle => true,
            _ => false,
        }
    }

    /// The session fails: writing to the peer, opening a data stream, or reading or
    /// storing a file did not succeed. What was still to be done is dropped.
    pub fn on_failure(&mut self, message: String) -> (actions: Vec<SessionAction>)
        ensures
            (final(self)@, views(actions@)) == old(self)@.failed(message@),
    {
        self.state = SessionState::Done;
        self.incoming = Incoming::Nothing;
        let actions = vec![
            SessionAction::Emit(SessionEvent::Error { message }),
            SessionAction::Emit(SessionEvent::Finished),
        ];
        assert(views(actions@) =~= old(self)@.failed(message@).1);
        assert(self@ =~= old(self)@.failed(message@).0);
        actions
    }

    fn ended(&mut self, last: Vec<SessionAction>) -> (actions: Vec<SessionAction>)
        ensures
            (final(self)@, views(actions@)) == old(self)@.ended(views(last@)),
    {
        let mut actions = last;
        self.state = SessionState::Done;
        self.incoming = Incoming::Nothing;
        actions.push(SessionAction::Emit(SessionEvent::Finished));
        actions.push(SessionAction::Shutdown);
        assert(views(actions@) =~= old(self)@.ended(views(last@)).1);
        actions
    }

    /// The session begins.
    pub fn on_start(&mut self) -> (actions: Vec<SessionAction>)
        ensures
            (final(self)@, views(actions@)) == old(self)@.on_start(),
    {
        match (self.role, &self.state) {
            (Role::Client, SessionState::Init) => {
                self.state = SessionState::WaitingForHelloAck;
                only(
                    SessionAction::Send(
                        Message::Hello(HelloPayload { device_name: self.device_name.clone() }),
                    ),
                )
            },
            _ => nothing(),
        }
    }
}

impl Session {
    /// The number of bytes that have arrived and belong to no frame yet.
    pub fn unread_len(&self) -> (n: usize)
        ensures
            n == self@.unread.len(),
    {
        self.accum.len()
    }

    /// Bytes arrive on the connection; none at all means that the peer has closed it.
    pub fn on_bytes(&mut self, bytes: &[u8]) -> (actions: Vec<SessionAction>)
        requires
            old(self)@.unread.len() + bytes@.len() <= isize::MAX,
        ensures
            (final(self)@, views(actions@)) == old(self)@.on_bytes(bytes@),
    {
        let none = nothing();
        if self.is_done() {
            none
        } else if bytes.len() > 0 {
            self.accum.extend_from_slice(bytes);
            none
        } else if self.is_handshaking() {
            self.on_failure(String::from_str("connection closed while waiting for frame"))
        } else {
            self.ended(none)
        }
    }

    /// The connection cannot be read.
    pub fn on_read_error(&mut self, message: String) -> (actions: Vec<SessionAction>)
        ensures
            (final(self)@, views(actions@)) == old(self)@.on_read_error(message@),
    {
        if self.is_done() {
            nothing()
        } else if self.is_handshaking() {
            self.on_failure(message)
        } else {
            let last = only(SessionAction::Emit(SessionEvent::Error { message }));
            self.ended(last)
        }
    }

    /// Takes the next frame off the bytes that have arrived.
    pub fn poll_frame(&mut self) -> (polled: Polled)
        ensures
            match front_of(old(self)@) {
                Front::Incomplete => polled is Wait && final(self)@ == old(self)@,
                Front::Complete(frame, len) => {
                    &&& polled matches Polled::Frame(f) && f@ == frame
                    &&& final(self)@ == (SessionView {
                        unread: old(self)@.unread.skip(len as int),
                        ..old(self)@
                    })
                },
                Front::Violation(e) => {
                    &&& polled matches Polled::Ended(actions) && (final(self)@, views(actions@))
                        == old(self)@.on_violation(e.message())
                },
            },
    {
        if self.is_done() {
            return Polled::Wait;
        }
        match protocol::try_decode_frame(&mut self.accum) {
            Ok(Some(frame)) => Polled::Frame(frame),
            Ok(None) => Polled::Wait,
            Err(e) => {
                let message = e.to_string();
                if self.is_handshaking() {
                    Polled::Ended(self.on_failure(message))
                } else {
                    let last = vec![
                        SessionAction::SendError(error_payload("bad_frame", message.as_str())),
                        SessionAction::Emit(SessionEvent::Error { message }),
                    ];
                    assert(views(last@) =~= seq![
                        ActionView::SendError { code: "bad_frame"@, message: message@ },
                        ActionView::Emit(EventView::Error { message: message@ }),
                    ]);
                    Polled::Ended(self.ended(last))
                }
            },
        }
    }

    /// Nobody can command the session any more. A handshake is finished first.
    pub fn on_commands_closed(&mut self) -> (actions: Vec<SessionAction>)
        ensures
            (final(self)@, views(actions@)) == old(self)@.on_commands_closed(),
    {
        let none = nothing();
        if self.is_done() {
            none
        } else if self.is_handshaking() {
            self.commands_closed = true;
            none
        } else {
            self.ended(none)
        }
    }
}

/// The front of what has arrived, as a session reads it: one that is over reads nothing.
pub open spec fn front_of(s: SessionView) -> Front {
    if s.state is Done {
        Front::Incomplete
    } else {
        protocol::front(s.unread)
    }
}

/// A session that waits for the rest of a frame holds less than a frame of the largest
/// size, so that its buffer stays bounded.
pub proof fn law_unread_bytes_are_bounded(s: SessionView)
    requires
        s.state !is Done,
        front_of(s) is Incomplete,
    ensures
        s.unread.len() < protocol::HEADER_LEN + protocol::MAX_PAYLOAD_LEN,
{
}

impl Inbound {
    /// The message type in the frame's header.
    pub fn msg_type(&self) -> (t: MessageType)
        ensures
            t == self@.msg_type(),
    {
        match self {
            Inbound::Message(m) => m.msg_type(),
            Inbound::Unreadable { msg_type, .. } => *msg_type,
        }
    }
}

/// The text of an error that names a received message type.
fn expected_message(wanted: &str, got: MessageType) -> (s: String)
    ensures
        s@ == expected_text(wanted@, got),
{
    String::from_str("expected ").concat(wanted).concat(", got ").concat(got.name())
}

/// The text of an error about a file that did not arrive as announced.
fn incomplete_message(got: u64, size: u64) -> (s: String)
    ensures
        s@ == incomplete_text(got as nat, size as nat),
{
    let mut s = String::from_str("incomplete transfer: got ");
    text::push_decimal(&mut s, got);
    s.append(" of ");
    text::push_decimal(&mut s, size);
    s.append(" bytes");
    s
}

/// Nothing to do.
fn nothing() -> (actions: Vec<SessionAction>)
    ensures
        views(actions@) == Seq::<ActionView>::empty(),
{
    let actions: Vec<SessionAction> = Vec::new();
    assert(views(actions@) =~= Seq::empty());
    actions
}

/// One thing to do.
fn only(action: SessionAction) -> (actions: Vec<SessionAction>)
    ensures
        views(actions@) == seq![action@],
{
    let actions = vec![action];
    assert(views(actions@) =~= seq![action@]);
    actions
}

impl Session {
    /// Offers a file to the peer, behind what is to be done already.
    fn offering(&mut self, req: SendRequest, actions: &mut Vec<SessionAction>)
        ensures
            final(self)@ == old(self)@.offering(req.offer_view()).0,
            views(final(actions)@) == views(old(actions)@) + old(self)@.offering(
                req.offer_view(),
            ).1,
    {
        actions.push(SessionAction::Send(Message::TransferOffer(req.offer())));
        self.state = SessionState::WaitingForDecision { transfer_id: req.transfer_id };
        assert(views(actions@) =~= views(old(actions)@) + old(self)@.offering(req.offer_view()).1);
    }

    fn on_hello_ack(&mut self, frame: Inbound) -> (actions: Vec<SessionAction>)
        ensures
            (final(self)@, views(actions@)) == old(self)@.on_hello_ack(frame@),
    {
        let msg_type = frame.msg_type();
        if msg_type != MessageType::HelloAck {
            return self.on_failure(expected_message("HELLO_ACK", msg_type));
        }
        match frame {
            Inbound::Message(Message::HelloAck(ack)) => {
                if !ack.ok {
                    return self.on_failure(String::from_str("server rejected HELLO"));
                }
                self.state = SessionState::Idle;
                let mut actions = only(
                    SessionAction::Emit(
                        SessionEvent::Connected { peer_device_name: ack.device_name },
                    ),
                );
                match self.send_request.take() {
                    Some(req) => {
                        self.offering(req, &mut actions);
                    },
                    None => {},
                }
                actions
            },
            Inbound::Unreadable { error, .. } => self.on_failure(error),
            _ => nothing(),
        }
    }

    fn on_hello(&mut self, frame: Inbound) -> (actions: Vec<SessionAction>)
        ensures
            (final(self)@, views(actions@)) == old(self)@.on_hello(frame@),
    {
        let msg_type = frame.msg_type();
        if msg_type != MessageType::Hello {
            return self.on_failure(expected_message("HELLO", msg_type));
        }
        match frame {
            Inbound::Message(Message::Hello(hello)) => {
                self.state = SessionState::Idle;
                let actions = vec![
                    SessionAction::Send(
                        Message::HelloAck(
                            HelloAckPayload { ok: true, device_name: self.device_name.clone() },
                        ),
                    ),
                    SessionAction::Emit(
                        SessionEvent::Connected { peer_device_name: hello.device_name },
                    ),
                ];
                assert(views(actions@) =~= old(self)@.on_hello(frame@).1);
                actions
            },
            Inbound::Unreadable { error, .. } => self.on_failure(error),
            _ => nothing(),
        }
    }

    fn on_transfer_offer(&mut self, frame: Inbound) -> (actions: Vec<SessionAction>)
        ensures
            (final(self)@, views(actions@)) == old(self)@.on_transfer_offer(frame@),
    {
        if !self.is_idle() {
            return only(
                SessionAction::SendError(error_payload("bad_frame", "unexpected TRANSFER_OFFER")),
            );
        }
        match frame {
            Inbound::Message(Message::TransferOffer(offer)) => {
                let actions = only(
                    SessionAction::Emit(
                        SessionEvent::TransferOffered {
                            transfer_id: offer.transfer_id.clone(),
                            filename: offer.filename.clone(),
                            size_bytes: offer.size_bytes,
                        },
                    ),
                );
                self.state = SessionState::AwaitingUserDecision { offer };
                actions
            },
            Inbound::Unreadable { error, .. } => self.on_failure(error),
            _ => nothing(),
        }
    }

    fn on_transfer_decision(&mut self, frame: Inbound) -> (actions: Vec<SessionAction>)
        ensures
            (final(self)@, views(actions@)) == old(self)@.on_transfer_decision(frame@),
    {
        let expected = match &self.state {
            SessionState::WaitingForDecision { transfer_id } => transfer_id.clone(),
            _ => {
                return nothing();
            },
        };
        match frame {
            Inbound::Message(Message::TransferDecision(decision)) => {
                if decision.transfer_id != expected {
                    return nothing();
                }
                if decision.accept {
                    self.state = SessionState::Transferring {
                        transfer_id: decision.transfer_id.clone(),
                        size_bytes: 0,
                    };
                    let actions = vec![
                        SessionAction::Emit(
                            SessionEvent::TransferAccepted {
                                transfer_id: decision.transfer_id.clone(),
                            },
                        ),
                        SessionAction::StreamFile { transfer_id: decision.transfer_id },
                    ];
                    assert(views(actions@) =~= old(self)@.on_transfer_decision(frame@).1);
                    actions
                } else {
                    self.state = SessionState::Idle;
                    only(
                        SessionAction::Emit(
                            SessionEvent::TransferDenied { transfer_id: decision.transfer_id },
                        ),
                    )
                }
            },
            Inbound::Unreadable { error, .. } => self.on_failure(error),
            _ => nothing(),
        }
    }

    fn on_transfer_done(&mut self, frame: Inbound) -> (actions: Vec<SessionAction>)
        ensures
            (final(self)@, views(actions@)) == old(self)@.on_transfer_done(frame@),
    {
        match frame {
            Inbound::Message(Message::TransferDone(done)) => {
                let event = if done.ok {
                    SessionEvent::TransferComplete { transfer_id: done.transfer_id }
                } else {
                    SessionEvent::Error {
                        message: match done.reason {
                            Some(reason) => reason,
                            None => String::from_str("transfer failed"),
                        },
                    }
                };
                let last = only(SessionAction::Emit(event));
                self.ended(last)
            },
            Inbound::Unreadable { error, .. } => self.on_failure(error),
            _ => nothing(),
        }
    }

    fn on_error(&mut self, frame: Inbound) -> (actions: Vec<SessionAction>)
        ensures
            (final(self)@, views(actions@)) == old(self)@.on_error(frame@),
    {
        let message = match frame {
            Inbound::Message(Message::Error(e)) => e.code.concat(": ").concat(e.message.as_str()),
            _ => String::from_str("remote error (unparseable)"),
        };
        let last = only(SessionAction::Emit(SessionEvent::Error { message }));
        self.ended(last)
    }

    /// A frame arrives.
    pub fn on_frame(&mut self, frame: Inbound) -> (actions: Vec<SessionAction>)
        ensures
            (final(self)@, views(actions@)) == old(self)@.on_frame(frame@),
    {
        if self.is_done() {
            return nothing();
        }
        if self.is_handshaking() {
            let actions = match self.role {
                Role::Client => self.on_hello_ack(frame),
                Role::Server => self.on_hello(frame),
            };
            if self.commands_closed && !self.is_handshaking() && !self.is_done() {
                return self.ended(actions);
            }
            return actions;
        }
        match frame.msg_type() {
            MessageType::TransferOffer => self.on_transfer_offer(frame),
            MessageType::TransferDecision => self.on_transfer_decision(frame),
            MessageType::TransferDone => self.on_transfer_done(frame),
            MessageType::Error => self.on_error(frame),
            _ => only(
                SessionAction::SendError(error_payload("bad_frame", "unexpected message type")),
            ),
        }
    }

    fn handle_user_decision(&mut self, transfer_id: String, accept: bool) -> (actions: Vec<
        SessionAction,
    >)
        requires
            old(self)@.state !is Done,
        ensures
            (final(self)@, views(actions@)) == old(self)@.on_command(
                CmdView::RespondToOffer { transfer_id: transfer_id@, accept },
            ),
    {
        let offer = match &self.state {
            SessionState::AwaitingUserDecision { offer } => offer.clone(),
            _ => {
                return nothing();
            },
        };
        if offer.transfer_id != transfer_id {
            return nothing();
        }
        let answer = SessionAction::Send(
            Message::TransferDecision(TransferDecisionPayload { transfer_id, accept }),
        );
        if accept {
            self.state = SessionState::Transferring {
                transfer_id: offer.transfer_id.clone(),
                size_bytes: offer.size_bytes,
            };
            self.incoming = Incoming::Receiving { offer, data: Vec::new() };
            let actions = vec![answer, SessionAction::ReceiveFile];
            assert(views(actions@) =~= seq![answer@, ActionView::ReceiveFile]);
            actions
        } else {
            self.state = SessionState::Idle;
            only(answer)
        }
    }

    /// The user decides on an offer, asks for a file to be sent, or cancels.
    pub fn on_command(&mut self, cmd: SessionCmd) -> (actions: Vec<SessionAction>)
        ensures
            (final(self)@, views(actions@)) == old(self)@.on_command(cmd@),
    {
        if self.is_done() {
            return nothing();
        }
        match cmd {
            SessionCmd::Cancel => {
                let last = only(
                    SessionAction::SendError(error_payload("cancelled", "user cancelled")),
                );
                self.ended(last)
            },
            SessionCmd::RespondToOffer { transfer_id, accept } => {
                self.handle_user_decision(transfer_id, accept)
            },
            SessionCmd::Transfer { req } => {
                let mut actions = nothing();
                match self.role {
                    Role::Server => {},
                    Role::Client => {
                        if self.is_handshaking() && self.send_request.is_none() {
                            self.send_request = Some(req);
                        } else if self.is_idle() {
                            self.offering(req, &mut actions);
                            assert(views(actions@) =~= old(self)@.on_command(cmd@).1);
                        }
                    },
                }
                actions
            },
        }
    }
}

impl Session {
    fn storing(&mut self, offer: TransferOfferPayload, data: Vec<u8>) -> (actions: Vec<
        SessionAction,
    >)
        ensures
            (final(self)@, views(actions@)) == old(self)@.storing(offer@, data@),
    {
        match filename::sanitize_filename(offer.filename.as_str()) {
            Some(name) => {
                self.incoming = Incoming::Storing { offer };
                only(SessionAction::StoreFile { filename: name, data })
            },
            None => {
                let last = vec![
                    SessionAction::SendError(error_payload("invalid_filename", "invalid filename")),
                    SessionAction::Emit(
                        SessionEvent::Error { message: String::from_str("invalid filename") },
                    ),
                ];
                assert(views(last@) =~= seq![last@[0]@, last@[1]@]);
                self.ended(last)
            },
        }
    }

    fn received(&mut self, offer: TransferOfferPayload, data: Vec<u8>) -> (actions: Vec<
        SessionAction,
    >)
        ensures
            (final(self)@, views(actions@)) == old(self)@.received(offer@, data@),
    {
        if data.len() as u64 == offer.size_bytes {
            return self.storing(offer, data);
        }
        let message = incomplete_message(data.len() as u64, offer.size_bytes);
        let last = vec![
            SessionAction::Send(
                Message::TransferDone(
                    TransferDonePayload {
                        transfer_id: offer.transfer_id,
                        ok: false,
                        stored_filename: None,
                        reason: Some(message.clone()),
                    },
                ),
            ),
            SessionAction::Emit(SessionEvent::Error { message }),
        ];
        assert(views(last@) =~= seq![last@[0]@, last@[1]@]);
        self.ended(last)
    }

    /// The data stream for the file is there.
    pub fn on_stream_accepted(&mut self) -> (actions: Vec<SessionAction>)
        ensures
            (final(self)@, views(actions@)) == old(self)@.on_stream_accepted(),
    {
        let mut incoming = Incoming::Nothing;
        core::mem::swap(&mut incoming, &mut self.incoming);
        match incoming {
            Incoming::Receiving { offer, data } => {
                if offer.size_bytes == 0 {
                    self.received(offer, data)
                } else {
                    self.incoming = Incoming::Receiving { offer, data };
                    nothing()
                }
            },
            other => {
                self.incoming = other;
                nothing()
            },
        }
    }

    /// Bytes arrive on the data stream; none at all means that it has ended.
    pub fn on_data(&mut self, chunk: &[u8]) -> (actions: Vec<SessionAction>)
        ensures
            (final(self)@, views(actions@)) == old(self)@.on_data(chunk@),
    {
        let mut incoming = Incoming::Nothing;
        core::mem::swap(&mut incoming, &mut self.incoming);
        match incoming {
            Incoming::Receiving { offer, mut data } => {
                if chunk.len() == 0 {
                    return self.received(offer, data);
                }
                let ghost before = data@;
                data.extend_from_slice(chunk);
                assert(data@ =~= before + chunk@);
                let mut actions = only(
                    SessionAction::Emit(
                        SessionEvent::TransferProgress {
                            transfer_id: offer.transfer_id.clone(),
                            bytes_transferred: data.len() as u64,
                            total_bytes: offer.size_bytes,
                        },
                    ),
                );
                if (data.len() as u64) < offer.size_bytes {
                    self.incoming = Incoming::Receiving { offer, data };
                } else {
                    let ghost progress = actions@;
                    let mut rest = self.received(offer, data);
                    let ghost tail = rest@;
                    actions.append(&mut rest);
                    assert(views(actions@) =~= views(progress) + views(tail));
                }
                actions
            },
            other => {
                self.incoming = other;
                nothing()
            },
        }
    }

    /// How many bytes to read from the data stream next: never more than are missing,
    /// and none where no file is being received.
    pub fn wanted(&self) -> (n: usize)
        ensures
            n == self@.wanted(),
    {
        match &self.incoming {
            Incoming::Receiving { offer, data } => {
                let have: u64 = data.len() as u64;
                if offer.size_bytes <= have {
                    0
                } else if offer.size_bytes - have < CHUNK_LEN as u64 {
                    (offer.size_bytes - have) as usize
                } else {
                    CHUNK_LEN
                }
            },
            _ => 0,
        }
    }

    /// The file has been stored, under this name.
    pub fn on_stored(&mut self, name: String) -> (actions: Vec<SessionAction>)
        ensures
            (final(self)@, views(actions@)) == old(self)@.on_stored(name@),
    {
        match &self.incoming {
            Incoming::Storing { offer } => {
                let last = vec![
                    SessionAction::Send(
                        Message::TransferDone(
                            TransferDonePayload {
                                transfer_id: offer.transfer_id.clone(),
                                ok: true,
                                stored_filename: Some(name.clone()),
                                reason: None,
                            },
                        ),
                    ),
                    SessionAction::Emit(SessionEvent::FileStored { stored_filename: name }),
                    SessionAction::Emit(
                        SessionEvent::TransferComplete { transfer_id: offer.transfer_id.clone() },
                    ),
                ];
                assert(views(last@) =~= seq![last@[0]@, last@[1]@, last@[2]@]);
                self.ended(last)
            },
            _ => nothing(),
        }
    }
}

} // verus!
