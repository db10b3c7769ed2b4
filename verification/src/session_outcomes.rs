//! What comes of everything that can happen to a session: which events are told, which
//! messages are sent and what becomes of the session, from the happening alone.
use crate::filename;
use crate::protocol;
use crate::protocol::{Front, MessageType, MessageView, OfferView};
use crate::session;
use crate::session::{
    ActionView, CmdView, EventView, InboundView, IncomingView, Role, SessionView, StateView,
    CHUNK_LEN,
};
use crate::session_laws::{step, Happening};
use crate::text;
use vstd::prelude::*;

verus! {

/// The session, over.
pub open spec fn over(s: SessionView) -> SessionView {
    SessionView { state: StateView::Done, incoming: IncomingView::Nothing, ..s }
}

/// What is done when a session ends in good order, behind what else is to be done.
pub open spec fn closing(before: Seq<ActionView>) -> Seq<ActionView> {
    before + seq![ActionView::Emit(EventView::Finished), ActionView::Shutdown]
}

/// What is done when a session fails.
pub open spec fn failing(message: Seq<char>) -> Seq<ActionView> {
    seq![ActionView::Emit(EventView::Error { message }), ActionView::Emit(EventView::Finished)]
}

/// Whether the two sides are still greeting each other.
pub open spec fn greeting(s: SessionView) -> bool {
    s.state is Init || s.state is WaitingForHelloAck
}

/// Whether the two sides have greeted each other, and the session is not over.
pub open spec fn open_for_business(s: SessionView) -> bool {
    !greeting(s) && s.state !is Done
}

// ── The connection ──────────────────────────────────────────────────

/// A peer that goes away ends the session. Past the handshake that is a good end: Finished is
/// told and the connection is shut down, and nothing else. During the handshake it is an
/// error.
pub proof fn law_peer_that_goes_away_ends_the_session(s: SessionView)
    ensures
        open_for_business(s) ==> s.on_bytes(Seq::empty()) == (
            over(s),
            seq![ActionView::Emit(EventView::Finished), ActionView::Shutdown],
        ),
        greeting(s) ==> s.on_bytes(Seq::empty()) == (
            over(s),
            seq![
                ActionView::Emit(
                    EventView::Error { message: "connection closed while waiting for frame"@ },
                ),
                ActionView::Emit(EventView::Finished),
            ],
        ),
{
    if open_for_business(s) {
        assert(s.on_bytes(Seq::empty()).1 =~= closing(Seq::empty()));
        assert(closing(Seq::empty()) =~= seq![
            ActionView::Emit(EventView::Finished),
            ActionView::Shutdown,
        ]);
    }
}

/// Bytes that arrive are kept behind those that arrived before, and change nothing else; two
/// arrivals are as good as one of both.
pub proof fn law_arriving_bytes_are_kept(s: SessionView, first: Seq<u8>, second: Seq<u8>)
    requires
        s.state !is Done,
        first.len() > 0,
        second.len() > 0,
    ensures
        s.on_bytes(first) == (
            SessionView { unread: s.unread + first, ..s },
            Seq::<ActionView>::empty(),
        ),
        s.on_bytes(first).0.on_bytes(second).0 == s.on_bytes(first + second).0,
{
    assert(s.unread + first + second =~= s.unread + (first + second));
}

/// A connection that cannot be read ends the session, and the error is told.
pub proof fn law_unreadable_connection_ends_the_session(s: SessionView, message: Seq<char>)
    ensures
        open_for_business(s) ==> s.on_read_error(message) == (
            over(s),
            closing(seq![ActionView::Emit(EventView::Error { message })]),
        ),
        greeting(s) ==> s.on_read_error(message) == (over(s), failing(message)),
{
}

/// Bytes that are no frame end the session with an error that says why. Past the handshake
/// the peer is told too, in the same words.
pub proof fn law_bytes_that_are_no_frame_end_the_session(s: SessionView)
    requires
        protocol::front(s.unread) is Violation,
    ensures
        ({
            let message = protocol::front(s.unread)->Violation_0.message();
            &&& open_for_business(s) ==> step(s, Happening::Poll) == (
                over(s),
                closing(
                    seq![
                        ActionView::SendError { code: "bad_frame"@, message },
                        ActionView::Emit(EventView::Error { message }),
                    ],
                ),
            )
            &&& greeting(s) ==> step(s, Happening::Poll) == (over(s), failing(message))
        }),
{
}

/// A frame is taken off the bytes that have arrived, exactly, as long as the session is not
/// over; a frame that is not whole is waited for.
pub proof fn law_frames_are_taken_off_the_front(s: SessionView)
    requires
        s.state !is Done,
    ensures
        session::front_of(s) == protocol::front(s.unread),
        protocol::front(s.unread) is Incomplete ==> step(s, Happening::Poll) == (
            s,
            Seq::<ActionView>::empty(),
        ),
        protocol::front(s.unread) matches Front::Complete(_, len) ==> step(s, Happening::Poll) == (
            SessionView { unread: s.unread.skip(len as int), ..s },
            Seq::<ActionView>::empty(),
        ),
{
}

/// Whatever fails, the error is told, then that the session has finished, and it is over.
pub proof fn law_failure_is_told_and_ends_the_session(s: SessionView, message: Seq<char>)
    ensures
        s.failed(message) == (over(s), failing(message)),
{
}

// ── The handshake ───────────────────────────────────────────────────

/// A client opens with a HELLO that carries its own name; a server waits.
pub proof fn law_client_speaks_first(s: SessionView)
    requires
        s.state is Init,
    ensures
        s.role is Client ==> s.on_start() == (
            SessionView { state: StateView::WaitingForHelloAck, ..s },
            seq![ActionView::Send(MessageView::Hello { device_name: s.device_name })],
        ),
        s.role is Server ==> s.on_start() == (s, Seq::<ActionView>::empty()),
{
}

/// A server that is greeted answers with its own name, tells the name it was given, and is
/// ready; where nobody can command it any more, it ends behind that.
pub proof fn law_server_answers_the_greeting(s: SessionView, device_name: Seq<char>)
    requires
        s.role is Server,
        greeting(s),
    ensures
        ({
            let answer = seq![
                ActionView::Send(MessageView::HelloAck { ok: true, device_name: s.device_name }),
                ActionView::Emit(EventView::Connected { peer_device_name: device_name }),
            ];
            s.on_frame(InboundView::Message(MessageView::Hello { device_name })) == if s.commands_closed {
                (over(s), closing(answer))
            } else {
                (SessionView { state: StateView::Idle, ..s }, answer)
            }
        }),
{
}

/// A client whose greeting is answered tells the name it was given and is ready; a file that
/// waits to be sent is offered at once, and only once. Where nobody can command it any more,
/// it ends behind that.
pub proof fn law_client_hears_the_answer(s: SessionView, device_name: Seq<char>)
    requires
        s.role is Client,
        greeting(s),
    ensures
        ({
            let connected = ActionView::Emit(
                EventView::Connected { peer_device_name: device_name },
            );
            let (state, actions) = match s.send_request {
                Some(offer) => (
                    StateView::WaitingForDecision { transfer_id: offer.transfer_id },
                    seq![connected, ActionView::Send(MessageView::TransferOffer { offer })],
                ),
                None => (StateView::Idle, seq![connected]),
            };
            let ready = SessionView { state, send_request: None, ..s };
            s.on_frame(
                InboundView::Message(MessageView::HelloAck { ok: true, device_name }),
            ) == if s.commands_closed {
                (over(ready), closing(actions))
            } else {
                (ready, actions)
            }
        }),
{
    let frame = InboundView::Message(MessageView::HelloAck { ok: true, device_name });
    if let Some(offer) = s.send_request {
        assert(s.on_hello_ack(frame).1 =~= seq![
            ActionView::Emit(EventView::Connected { peer_device_name: device_name }),
            ActionView::Send(MessageView::TransferOffer { offer }),
        ]);
    }
}

/// A handshake that goes wrong fails the session, and what is told says how: the server
/// rejected us, the greeting could not be read, or something else came in its place.
pub proof fn law_wrong_greeting_fails_the_session(
    s: SessionView,
    device_name: Seq<char>,
    msg_type: MessageType,
    error: Seq<char>,
)
    requires
        greeting(s),
    ensures
        s.role is Client ==> {
            &&& s.on_frame(
                InboundView::Message(MessageView::HelloAck { ok: false, device_name }),
            ) == (over(s), failing("server rejected HELLO"@))
            &&& s.on_frame(
                InboundView::Unreadable { msg_type: MessageType::HelloAck, error },
            ) == (over(s), failing(error))
            &&& msg_type != MessageType::HelloAck ==> s.on_frame(
                InboundView::Unreadable { msg_type, error },
            ) == (over(s), failing("expected HELLO_ACK, got "@ + msg_type.name_spec()))
        },
        s.role is Server ==> {
            &&& s.on_frame(
                InboundView::Unreadable { msg_type: MessageType::Hello, error },
            ) == (over(s), failing(error))
            &&& msg_type != MessageType::Hello ==> s.on_frame(
                InboundView::Unreadable { msg_type, error },
            ) == (over(s), failing("expected HELLO, got "@ + msg_type.name_spec()))
        },
{
    reveal_strlit("expected ");
    reveal_strlit(", got ");
    reveal_strlit("HELLO");
    reveal_strlit("HELLO_ACK");
    reveal_strlit("expected HELLO, got ");
    reveal_strlit("expected HELLO_ACK, got ");
    assert("expected "@ + "HELLO"@ + ", got "@ =~= "expected HELLO, got "@);
    assert("expected "@ + "HELLO_ACK"@ + ", got "@ =~= "expected HELLO_ACK, got "@);
}

/// During the handshake it does not matter whether a frame of another type could be read: what
/// is expected is a greeting.
pub proof fn law_only_greetings_count_in_the_handshake(
    s: SessionView,
    message: MessageView,
    error: Seq<char>,
)
    requires
        greeting(s),
        s.role is Client ==> message !is HelloAck,
        s.role is Server ==> message !is Hello,
    ensures
        s.on_frame(InboundView::Message(message)) == s.on_frame(
            InboundView::Unreadable {
                msg_type: match message {
                    MessageView::Hello { .. } => MessageType::Hello,
                    MessageView::HelloAck { .. } => MessageType::HelloAck,
                    MessageView::TransferOffer { .. } => MessageType::TransferOffer,
                    MessageView::TransferDecision { .. } => MessageType::TransferDecision,
                    MessageView::TransferDone { .. } => MessageType::TransferDone,
                    MessageView::Error { .. } => MessageType::Error,
                },
                error,
            },
        ),
        s.on_frame(InboundView::Message(message)).0.state is Done,
{
}

// ── Frames past the handshake ───────────────────────────────────────

/// An ERROR frame ends the session in every state past the handshake: its code and its text
/// are told as an error, and where it cannot be read, that.
pub proof fn law_reported_error_is_told(
    s: SessionView,
    code: Seq<char>,
    message: Seq<char>,
    error: Seq<char>,
)
    requires
        open_for_business(s),
    ensures
        s.on_frame(InboundView::Message(MessageView::Error { code, message })) == (
            over(s),
            closing(seq![ActionView::Emit(EventView::Error { message: code + ": "@ + message })]),
        ),
        s.on_frame(InboundView::Unreadable { msg_type: MessageType::Error, error }) == (
            over(s),
            closing(
                seq![ActionView::Emit(EventView::Error { message: "remote error (unparseable)"@ })],
            ),
        ),
{
}

/// An offer is put before the user while nothing else is on; at any other time it is refused,
/// and the session stays as it was.
pub proof fn law_offer_is_taken_only_when_idle(s: SessionView, offer: OfferView, error: Seq<char>)
    requires
        open_for_business(s),
    ensures
        ({
            let offered = InboundView::Message(MessageView::TransferOffer { offer });
            let unreadable = InboundView::Unreadable {
                msg_type: MessageType::TransferOffer,
                error,
            };
            let refused = (
                s,
                seq![
                    ActionView::SendError {
                        code: "bad_frame"@,
                        message: "unexpected TRANSFER_OFFER"@,
                    },
                ],
            );
            if s.state is Idle {
                &&& s.on_frame(offered) == (
                    SessionView { state: StateView::AwaitingUserDecision { offer }, ..s },
                    seq![
                        ActionView::Emit(
                            EventView::TransferOffered {
                                transfer_id: offer.transfer_id,
                                filename: offer.filename,
                                size_bytes: offer.size_bytes,
                            },
                        ),
                    ],
                )
                &&& s.on_frame(unreadable) == (over(s), failing(error))
            } else {
                s.on_frame(offered) == refused && s.on_frame(unreadable) == refused
            }
        }),
{
}

/// A decision counts for the offer that it is awaited for, and for no other: accepted, the
/// file is streamed and that is told; denied, that is told and the session is idle again.
pub proof fn law_decision_counts_for_its_offer(
    s: SessionView,
    transfer_id: Seq<char>,
    accept: bool,
    error: Seq<char>,
)
    requires
        open_for_business(s),
    ensures
        ({
            let decided = InboundView::Message(
                MessageView::TransferDecision { transfer_id, accept },
            );
            if s.state == (StateView::WaitingForDecision { transfer_id }) {
                if accept {
                    s.on_frame(decided) == (
                        SessionView {
                            state: StateView::Transferring { transfer_id, size_bytes: 0 },
                            ..s
                        },
                        seq![
                            ActionView::Emit(EventView::TransferAccepted { transfer_id }),
                            ActionView::StreamFile { transfer_id },
                        ],
                    )
                } else {
                    s.on_frame(decided) == (
                        SessionView { state: StateView::Idle, ..s },
                        seq![ActionView::Emit(EventView::TransferDenied { transfer_id })],
                    )
                }
            } else {
                s.on_frame(decided) == (s, Seq::<ActionView>::empty())
            }
        }),
        s.on_frame(
            InboundView::Unreadable { msg_type: MessageType::TransferDecision, error },
        ) == if s.state is WaitingForDecision {
            (over(s), failing(error))
        } else {
            (s, Seq::empty())
        },
{
}

/// The peer's report on a file ends the session: a file that was stored is told as complete,
/// one that was not as an error, with the peer's reason if it gave one.
pub proof fn law_report_is_told_as_it_is(
    s: SessionView,
    transfer_id: Seq<char>,
    stored_filename: Option<Seq<char>>,
    reason: Option<Seq<char>>,
    error: Seq<char>,
)
    requires
        open_for_business(s),
    ensures
        s.on_frame(
            InboundView::Message(
                MessageView::TransferDone { transfer_id, ok: true, stored_filename, reason },
            ),
        ) == (
            over(s),
            closing(seq![ActionView::Emit(EventView::TransferComplete { transfer_id })]),
        ),
        s.on_frame(
            InboundView::Message(
                MessageView::TransferDone { transfer_id, ok: false, stored_filename, reason },
            ),
        ) == (
            over(s),
            closing(
                seq![
                    ActionView::Emit(
                        EventView::Error {
                            message: if reason is Some {
                                reason->0
                            } else {
                                "transfer failed"@
                            },
                        },
                    ),
                ],
            ),
        ),
        s.on_frame(
            InboundView::Unreadable { msg_type: MessageType::TransferDone, error },
        ) == (over(s), failing(error)),
{
}

/// A message that has no place past the handshake is refused, and the session stays as it was.
pub proof fn law_message_out_of_place_is_refused(
    s: SessionView,
    device_name: Seq<char>,
    ok: bool,
    msg_type: MessageType,
    error: Seq<char>,
)
    requires
        open_for_business(s),
        msg_type is Hello || msg_type is HelloAck || msg_type is PairWithCode || msg_type
            is PairWithPassword || msg_type is PairResult,
    ensures
        ({
            let refused = (
                s,
                seq![
                    ActionView::SendError {
                        code: "bad_frame"@,
                        message: "unexpected message type"@,
                    },
                ],
            );
            &&& s.on_frame(InboundView::Message(MessageView::Hello { device_name })) == refused
            &&& s.on_frame(InboundView::Message(MessageView::HelloAck { ok, device_name }))
                == refused
            &&& s.on_frame(InboundView::Unreadable { msg_type, error }) == refused
        }),
{
}

// ── Commands ────────────────────────────────────────────────────────

/// The user's answer goes to the peer as it was given, and counts for the offer that is before
/// the user and for no other: accepted, the file is received from its first byte on; denied,
/// the session is idle again.
pub proof fn law_answer_goes_to_the_peer(s: SessionView, transfer_id: Seq<char>, accept: bool)
    requires
        s.state !is Done,
    ensures
        ({
            let answer = ActionView::Send(MessageView::TransferDecision { transfer_id, accept });
            let asked = s.state matches StateView::AwaitingUserDecision { offer }
                && offer.transfer_id == transfer_id;
            let (after, actions) = s.on_command(CmdView::RespondToOffer { transfer_id, accept });
            if asked && accept {
                let offer = s.state->offer;
                &&& after == (SessionView {
                    state: StateView::Transferring { transfer_id, size_bytes: offer.size_bytes },
                    incoming: IncomingView::Receiving { offer, data: Seq::empty() },
                    ..s
                })
                &&& actions == seq![answer, ActionView::ReceiveFile]
            } else if asked {
                &&& after == (SessionView { state: StateView::Idle, ..s })
                &&& actions == seq![answer]
            } else {
                after == s && actions == Seq::<ActionView>::empty()
            }
        }),
{
}

/// A file that is asked to be sent is offered once the session is idle: at once if it is, and
/// after the handshake if that is still on and no other file waits. A server sends no files,
/// and while another transfer is on nothing changes.
pub proof fn law_file_to_send_is_offered_when_idle(s: SessionView, offer: OfferView)
    requires
        s.state !is Done,
    ensures
        s.on_command(CmdView::Transfer { offer }) == if s.role is Client && s.state is Idle {
            (
                SessionView {
                    state: StateView::WaitingForDecision { transfer_id: offer.transfer_id },
                    ..s
                },
                seq![ActionView::Send(MessageView::TransferOffer { offer })],
            )
        } else if s.role is Client && greeting(s) && s.send_request is None {
            (SessionView { send_request: Some(offer), ..s }, Seq::empty())
        } else {
            (s, Seq::empty())
        },
{
}

/// Cancelling ends the session in every state, and the peer is told that it was cancelled.
pub proof fn law_cancelling_ends_the_session(s: SessionView)
    requires
        s.state !is Done,
    ensures
        s.on_command(CmdView::Cancel) == (
            over(s),
            closing(
                seq![ActionView::SendError { code: "cancelled"@, message: "user cancelled"@ }],
            ),
        ),
{
}

/// A session that nobody can command any more ends past the handshake; during it, that is
/// remembered and nothing else happens.
pub proof fn law_session_without_commands_ends(s: SessionView)
    ensures
        open_for_business(s) ==> s.on_commands_closed() == (over(s), closing(Seq::empty())),
        greeting(s) ==> s.on_commands_closed() == (
            SessionView { commands_closed: true, ..s },
            Seq::<ActionView>::empty(),
        ),
{
}

// ── The file ────────────────────────────────────────────────────────

/// What comes of the bytes of a file, once no more are taken: they are stored if they are as
/// many as were announced and the file has a usable name. If they are not as many, both ends
/// are told how many there were; if the name is not usable, both ends are told that.
pub open spec fn outcome_of(s: SessionView, offer: OfferView, data: Seq<u8>) -> (
    SessionView,
    Seq<ActionView>,
) {
    if data.len() != offer.size_bytes {
        let message = "incomplete transfer: got "@ + text::decimal(data.len()) + " of "@
            + text::decimal(offer.size_bytes as nat) + " bytes"@;
        (
            over(s),
            closing(
                seq![
                    ActionView::Send(
                        MessageView::TransferDone {
                            transfer_id: offer.transfer_id,
                            ok: false,
                            stored_filename: None,
                            reason: Some(message),
                        },
                    ),
                    ActionView::Emit(EventView::Error { message }),
                ],
            ),
        )
    } else if filename::is_plain_name(filename::last_component(offer.filename)) {
        (
            SessionView { incoming: IncomingView::Storing { offer }, ..s },
            seq![
                ActionView::StoreFile {
                    filename: filename::last_component(offer.filename),
                    data,
                },
            ],
        )
    } else {
        (
            over(s),
            closing(
                seq![
                    ActionView::SendError {
                        code: "invalid_filename"@,
                        message: "invalid filename"@,
                    },
                    ActionView::Emit(EventView::Error { message: "invalid filename"@ }),
                ],
            ),
        )
    }
}

/// Bytes of a file that arrive are put behind those that are there, and how many there are is
/// told. While some are missing that is all; once none is, or when the stream ends, the file
/// is stored or refused.
pub proof fn law_bytes_of_a_file_add_up(
    s: SessionView,
    offer: OfferView,
    data: Seq<u8>,
    chunk: Seq<u8>,
)
    requires
        s.incoming == (IncomingView::Receiving { offer, data }),
    ensures
        chunk.len() == 0 ==> s.on_data(chunk) == outcome_of(s, offer, data),
        chunk.len() > 0 ==> {
            let progress = seq![
                ActionView::Emit(
                    EventView::TransferProgress {
                        transfer_id: offer.transfer_id,
                        bytes_transferred: (data.len() + chunk.len()) as u64,
                        total_bytes: offer.size_bytes,
                    },
                ),
            ];
            let end = outcome_of(s, offer, data + chunk);
            s.on_data(chunk) == if data.len() + chunk.len() < offer.size_bytes {
                (
                    SessionView {
                        incoming: IncomingView::Receiving { offer, data: data + chunk },
                        ..s
                    },
                    progress,
                )
            } else {
                (end.0, progress + end.1)
            }
        },
        s.on_stream_accepted() == if offer.size_bytes == 0 {
            outcome_of(s, offer, data)
        } else {
            (s, Seq::empty())
        },
{
}

/// Where no file is being received, its stream is of no account, and neither is the news that
/// one was stored where none was being stored.
pub proof fn law_unexpected_file_is_of_no_account(s: SessionView, chunk: Seq<u8>, name: Seq<char>)
    ensures
        s.incoming !is Receiving ==> {
            &&& s.on_data(chunk) == (s, Seq::<ActionView>::empty())
            &&& s.on_stream_accepted() == (s, Seq::<ActionView>::empty())
            &&& s.wanted() == 0
        },
        s.incoming !is Storing ==> s.on_stored(name) == (s, Seq::<ActionView>::empty()),
{
}

/// What is wanted of a file is what is missing of it, but no more than one chunk.
pub proof fn law_wanted_is_what_is_missing(s: SessionView, offer: OfferView, data: Seq<u8>)
    requires
        s.incoming == (IncomingView::Receiving { offer, data }),
    ensures
        data.len() >= offer.size_bytes ==> s.wanted() == 0,
        data.len() < offer.size_bytes ==> {
            &&& 0 < s.wanted() <= CHUNK_LEN
            &&& s.wanted() <= offer.size_bytes - data.len()
            &&& s.wanted() == CHUNK_LEN || s.wanted() == offer.size_bytes - data.len()
        },
{
}

/// A file that was stored ends the session: the peer is told the name it was stored under, the
/// same name is told, and that the transfer is complete.
pub proof fn law_stored_file_is_reported(s: SessionView, offer: OfferView, name: Seq<char>)
    requires
        s.incoming == (IncomingView::Storing { offer }),
    ensures
        s.on_stored(name) == (
            over(s),
            closing(
                seq![
                    ActionView::Send(
                        MessageView::TransferDone {
                            transfer_id: offer.transfer_id,
                            ok: true,
                            stored_filename: Some(name),
                            reason: None,
                        },
                    ),
                    ActionView::Emit(EventView::FileStored { stored_filename: name }),
                    ActionView::Emit(
                        EventView::TransferComplete { transfer_id: offer.transfer_id },
                    ),
                ],
            ),
        ),
{
}

// ── What is told is true ────────────────────────────────────────────

/// Whether it is true to tell an event of a session when something happens to it.
pub open spec fn is_true_of(event: EventView, s: SessionView, happening: Happening) -> bool {
    match event {
        EventView::Connected { peer_device_name } => {
            let greeted = if s.role is Client {
                MessageView::HelloAck { ok: true, device_name: peer_device_name }
            } else {
                MessageView::Hello { device_name: peer_device_name }
            };
            greeting(s) && happening == Happening::Frame(InboundView::Message(greeted))
        },
        EventView::TransferOffered { transfer_id, filename, size_bytes } => {
            &&& s.state is Idle
            &&& happening matches Happening::Frame(
                InboundView::Message(MessageView::TransferOffer { offer }),
            )
            &&& offer.transfer_id == transfer_id
            &&& offer.filename == filename
            &&& offer.size_bytes == size_bytes
        },
        EventView::TransferAccepted { transfer_id } => {
            &&& s.state == (StateView::WaitingForDecision { transfer_id })
            &&& happening == Happening::Frame(
                InboundView::Message(MessageView::TransferDecision { transfer_id, accept: true }),
            )
        },
        EventView::TransferDenied { transfer_id } => {
            &&& s.state == (StateView::WaitingForDecision { transfer_id })
            &&& happening == Happening::Frame(
                InboundView::Message(MessageView::TransferDecision { transfer_id, accept: false }),
            )
        },
        EventView::TransferProgress { transfer_id, bytes_transferred, total_bytes } => {
            &&& happening matches Happening::Data(chunk)
            &&& s.incoming matches IncomingView::Receiving { offer, data }
            &&& offer.transfer_id == transfer_id
            &&& offer.size_bytes == total_bytes
            &&& bytes_transferred == (data.len() + chunk.len()) as u64
        },
        EventView::FileStored { stored_filename } => {
            s.incoming is Storing && happening == Happening::Stored(stored_filename)
        },
        EventView::TransferComplete { transfer_id } => {
            ||| {
                &&& happening is Stored
                &&& s.incoming matches IncomingView::Storing { offer }
                &&& offer.transfer_id == transfer_id
            }
            ||| {
                &&& open_for_business(s)
                &&& happening matches Happening::Frame(
                    InboundView::Message(
                        MessageView::TransferDone { transfer_id: reported, ok: true, .. },
                    ),
                )
                &&& reported == transfer_id
            }
        },
        EventView::Error { .. } | EventView::Finished => true,
    }
}

/// Nothing is told that is not so. In particular a transfer is told to be complete only when
/// its file was stored or the peer reports that it stored it.
pub proof fn law_what_is_told_is_true(s: SessionView, happening: Happening, i: int)
    requires
        0 <= i < step(s, happening).1.len(),
    ensures
        step(s, happening).1[i] matches ActionView::Emit(event) ==> is_true_of(
            event,
            s,
            happening,
        ),
{
    match happening {
        Happening::Frame(frame) => {
            lemma_frame_tells_the_truth(s, frame, i);
        },
        Happening::Data(chunk) => {
            if let IncomingView::Receiving { offer, data } = s.incoming {
                law_bytes_of_a_file_add_up(s, offer, data, chunk);
                if chunk.len() > 0 && i > 0 {
                    assert(step(s, happening).1[i] == outcome_of(s, offer, data + chunk).1[i - 1]);
                }
            }
        },
        Happening::StreamAccepted => {
            if let IncomingView::Receiving { offer, data } = s.incoming {
                law_bytes_of_a_file_add_up(s, offer, data, Seq::empty());
            }
        },
        _ => {},
    }
}

proof fn lemma_frame_tells_the_truth(s: SessionView, frame: InboundView, i: int)
    requires
        0 <= i < s.on_frame(frame).1.len(),
    ensures
        s.on_frame(frame).1[i] matches ActionView::Emit(event) ==> is_true_of(
            event,
            s,
            Happening::Frame(frame),
        ),
{
}

/// Whether the failure of what happens is a reason for an error to be told.
pub open spec fn is_reason_for_an_error(s: SessionView, happening: Happening) -> bool {
    match happening {
        Happening::ReadError(_) | Happening::Failure(_) => true,
        Happening::Poll => protocol::front(s.unread) is Violation,
        Happening::Bytes(bytes) => greeting(s) && bytes.len() == 0,
        Happening::Frame(InboundView::Unreadable { .. }) => true,
        Happening::Frame(InboundView::Message(m)) => {
            ||| greeting(s)
            ||| m is Error
            ||| m matches MessageView::TransferDone { ok: false, .. }
        },
        Happening::Data(_) | Happening::StreamAccepted => s.incoming is Receiving,
        _ => false,
    }
}

/// An error is told only where something went wrong: starting, commanding and storing never
/// tell one, nor does a good message past the handshake.
pub proof fn law_errors_have_a_reason(s: SessionView, happening: Happening, i: int)
    requires
        0 <= i < step(s, happening).1.len(),
        step(s, happening).1[i] matches ActionView::Emit(event) && event is Error,
    ensures
        is_reason_for_an_error(s, happening),
        happening matches Happening::Data(chunk) ==> (s.incoming matches IncomingView::Receiving {
            offer,
            data,
        } && (data.len() + chunk.len() != offer.size_bytes || filename::sanitized(
            offer.filename,
        ) is None)),
{
    match happening {
        Happening::Data(chunk) => {
            if let IncomingView::Receiving { offer, data } = s.incoming {
                law_bytes_of_a_file_add_up(s, offer, data, chunk);
                if chunk.len() > 0 && i > 0 {
                    assert(step(s, happening).1[i] == outcome_of(s, offer, data + chunk).1[i - 1]);
                }
            }
        },
        Happening::StreamAccepted => {
            if let IncomingView::Receiving { offer, data } = s.incoming {
                law_bytes_of_a_file_add_up(s, offer, data, Seq::empty());
            }
        },
        _ => {},
    }
}

/// A new session has greeted nobody, received nothing and heard nothing; what it is to send is
/// what it was given.
pub proof fn law_new_session_is_untouched(
    role: Role,
    device_name: Seq<char>,
    send_request: Option<OfferView>,
)
    ensures
        SessionView::fresh(role, device_name, send_request) == (SessionView {
            role,
            device_name,
            state: StateView::Init,
            send_request,
            unread: Seq::empty(),
            incoming: IncomingView::Nothing,
            commands_closed: false,
        }),
{
}

} // verus!
