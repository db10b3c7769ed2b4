//! What holds of sessions as a whole: of two that talk to each other, and of one from its
//! beginning to its end.
use crate::filename;
use crate::protocol::{Front, MessageView, OfferView};
use crate::session;
use crate::session::{
    ActionView, CmdView, EventView, InboundView, IncomingView, Role, SessionView, StateView, Step,
};
use vstd::prelude::*;

verus! {

/// The handshake: each side learns the other's name, and both are ready for a transfer.
pub proof fn law_handshake_exchanges_names(client: Seq<char>, server: Seq<char>)
    ensures
        ({
            let c0 = SessionView::fresh(Role::Client, client, None);
            let s0 = SessionView::fresh(Role::Server, server, None);
            let hello = MessageView::Hello { device_name: client };
            let ack = MessageView::HelloAck { ok: true, device_name: server };
            let (c1, sent) = c0.on_start();
            let (s1, answered) = s0.on_frame(InboundView::Message(hello));
            let (c2, told) = c1.on_frame(InboundView::Message(ack));
            &&& s0.on_start() == s0.ignore()
            &&& sent == seq![ActionView::Send(hello)]
            &&& answered == seq![
                ActionView::Send(ack),
                ActionView::Emit(EventView::Connected { peer_device_name: client }),
            ]
            &&& told == seq![
                ActionView::Emit(EventView::Connected { peer_device_name: server }),
            ]
            &&& c2.state is Idle
            &&& s1.state is Idle
        }),
{
}

/// A server that rejects the HELLO ends the client's session.
pub proof fn law_rejected_hello_ends_session(c: SessionView, device_name: Seq<char>)
    requires
        c.role is Client,
        c.state is WaitingForHelloAck,
    ensures
        c.on_frame(
            InboundView::Message(MessageView::HelloAck { ok: false, device_name }),
        ) == c.failed("server rejected HELLO"@),
{
}

/// An offer reaches the other side's user as it was made.
pub proof fn law_offer_is_put_to_the_user(c: SessionView, s: SessionView, offer: OfferView)
    requires
        c.role is Client,
        c.state is Idle,
        s.state is Idle,
    ensures
        c.on_command(CmdView::Transfer { offer }).1 == seq![
            ActionView::Send(MessageView::TransferOffer { offer }),
        ],
        s.on_frame(InboundView::Message(MessageView::TransferOffer { offer })).1 == seq![
            ActionView::Emit(
                EventView::TransferOffered {
                    transfer_id: offer.transfer_id,
                    filename: offer.filename,
                    size_bytes: offer.size_bytes,
                },
            ),
        ],
{
}

/// A file that is asked for during the handshake is offered right after it.
pub proof fn law_early_request_is_offered_after_handshake(
    c: SessionView,
    offer: OfferView,
    peer: Seq<char>,
)
    requires
        c.role is Client,
        c.handshaking(),
        c.send_request is None,
    ensures
        ({
            let waiting = c.on_command(CmdView::Transfer { offer }).0;
            let (after, actions) = waiting.on_frame(
                InboundView::Message(MessageView::HelloAck { ok: true, device_name: peer }),
            );
            &&& actions.take(2) == seq![
                ActionView::Emit(EventView::Connected { peer_device_name: peer }),
                ActionView::Send(MessageView::TransferOffer { offer }),
            ]
            &&& !c.commands_closed ==> {
                &&& actions.len() == 2
                &&& after.state == (StateView::WaitingForDecision {
                    transfer_id: offer.transfer_id,
                })
            }
            &&& after.send_request is None
        }),
{
    let waiting = c.on_command(CmdView::Transfer { offer }).0;
    let frame = InboundView::Message(MessageView::HelloAck { ok: true, device_name: peer });
    assert(waiting.on_frame(frame).1.take(2) =~= seq![
        ActionView::Emit(EventView::Connected { peer_device_name: peer }),
        ActionView::Send(MessageView::TransferOffer { offer }),
    ]);
}

/// A session that nobody can command any more still finishes its handshake. What the
/// greeting brings is done as it would have been, an offer that waits included, and the
/// session ends behind it; a handshake that fails, fails as ever.
pub proof fn law_closed_commands_wait_for_the_handshake(s: SessionView, frame: InboundView)
    requires
        s.handshaking(),
        !s.commands_closed,
    ensures
        s.on_commands_closed().1 == Seq::<ActionView>::empty(),
        s.on_commands_closed().0.state == s.state,
        ({
            let (after, actions) = s.on_frame(frame);
            let (closed, told) = s.on_commands_closed().0.on_frame(frame);
            if after.state is Done || after.handshaking() {
                told == actions && closed.state == after.state
            } else {
                &&& closed.state is Done
                &&& told == actions + seq![
                    ActionView::Emit(EventView::Finished),
                    ActionView::Shutdown,
                ]
            }
        }),
{
}

/// A denied offer costs nothing: both sides are idle again, and a second offer goes
/// through as the first one did.
pub proof fn law_denied_offer_can_be_repeated(
    c: SessionView,
    s: SessionView,
    first: OfferView,
    second: OfferView,
)
    requires
        c.role is Client,
        c.state == (StateView::WaitingForDecision { transfer_id: first.transfer_id }),
        s.state == (StateView::AwaitingUserDecision { offer: first }),
    ensures
        ({
            let id = first.transfer_id;
            let decision = MessageView::TransferDecision { transfer_id: id, accept: false };
            let (s1, answered) = s.on_command(
                CmdView::RespondToOffer { transfer_id: id, accept: false },
            );
            let (c1, told) = c.on_frame(InboundView::Message(decision));
            let (c2, offered) = c1.on_command(CmdView::Transfer { offer: second });
            let (s2, asked) = s1.on_frame(
                InboundView::Message(MessageView::TransferOffer { offer: second }),
            );
            &&& answered == seq![ActionView::Send(decision)]
            &&& told == seq![ActionView::Emit(EventView::TransferDenied { transfer_id: id })]
            &&& c1.state is Idle
            &&& s1.state is Idle
            &&& offered == seq![
                ActionView::Send(MessageView::TransferOffer { offer: second }),
            ]
            &&& c2.state == (StateView::WaitingForDecision { transfer_id: second.transfer_id })
            &&& s2.state == (StateView::AwaitingUserDecision { offer: second })
        }),
{
}

/// An accepted offer starts the file at both ends, and the sender hears of the acceptance
/// before the first byte is sent.
pub proof fn law_accepted_offer_starts_the_file(c: SessionView, s: SessionView, offer: OfferView)
    requires
        c.state == (StateView::WaitingForDecision { transfer_id: offer.transfer_id }),
        s.state == (StateView::AwaitingUserDecision { offer }),
    ensures
        ({
            let id = offer.transfer_id;
            let decision = MessageView::TransferDecision { transfer_id: id, accept: true };
            let (s1, answered) = s.on_command(
                CmdView::RespondToOffer { transfer_id: id, accept: true },
            );
            let (c1, told) = c.on_frame(InboundView::Message(decision));
            &&& answered == seq![ActionView::Send(decision), ActionView::ReceiveFile]
            &&& s1.incoming == (IncomingView::Receiving { offer, data: Seq::empty() })
            &&& told == seq![
                ActionView::Emit(EventView::TransferAccepted { transfer_id: id }),
                ActionView::StreamFile { transfer_id: id },
            ]
            &&& c1.state is Transferring
        }),
{
}

/// A file that was stored completes the transfer at both ends, without an error at
/// either, and both sessions finish.
pub proof fn law_stored_file_completes_both_ends(
    c: SessionView,
    s: SessionView,
    offer: OfferView,
    name: Seq<char>,
)
    requires
        c.state is Transferring,
        s.incoming == (IncomingView::Storing { offer }),
    ensures
        ({
            let id = offer.transfer_id;
            let done = MessageView::TransferDone {
                transfer_id: id,
                ok: true,
                stored_filename: Some(name),
                reason: None,
            };
            let (s1, answered) = s.on_stored(name);
            let (c1, told) = c.on_frame(InboundView::Message(done));
            &&& answered == seq![
                ActionView::Send(done),
                ActionView::Emit(EventView::FileStored { stored_filename: name }),
                ActionView::Emit(EventView::TransferComplete { transfer_id: id }),
                ActionView::Emit(EventView::Finished),
                ActionView::Shutdown,
            ]
            &&& told == seq![
                ActionView::Emit(EventView::TransferComplete { transfer_id: id }),
                ActionView::Emit(EventView::Finished),
                ActionView::Shutdown,
            ]
            &&& s1.state is Done
            &&& c1.state is Done
        }),
{
    let id = offer.transfer_id;
    let done = MessageView::TransferDone {
        transfer_id: id,
        ok: true,
        stored_filename: Some(name),
        reason: None,
    };
    assert(s.on_stored(name).1 =~= seq![
        ActionView::Send(done),
        ActionView::Emit(EventView::FileStored { stored_filename: name }),
        ActionView::Emit(EventView::TransferComplete { transfer_id: id }),
        ActionView::Emit(EventView::Finished),
        ActionView::Shutdown,
    ]);
    assert(c.on_frame(InboundView::Message(done)).1 =~= seq![
        ActionView::Emit(EventView::TransferComplete { transfer_id: id }),
        ActionView::Emit(EventView::Finished),
        ActionView::Shutdown,
    ]);
}

/// Cancelling, at any point, ends the session; and it ends the peer's too, once the
/// handshake is over.
pub proof fn law_cancel_ends_both_sessions(s: SessionView, peer: SessionView)
    requires
        s.state !is Done,
        peer.state !is Done,
        !peer.handshaking(),
    ensures
        ({
            let error = MessageView::Error { code: "cancelled"@, message: "user cancelled"@ };
            let (s1, actions) = s.on_command(CmdView::Cancel);
            let (peer1, told) = peer.on_frame(InboundView::Message(error));
            &&& s1.state is Done
            &&& actions == seq![
                ActionView::SendError { code: "cancelled"@, message: "user cancelled"@ },
                ActionView::Emit(EventView::Finished),
                ActionView::Shutdown,
            ]
            &&& peer1.state is Done
            &&& told.last() is Shutdown
            &&& told[told.len() - 2] == ActionView::Emit(EventView::Finished)
        }),
{
    assert(s.on_command(CmdView::Cancel).1 =~= seq![
        ActionView::SendError { code: "cancelled"@, message: "user cancelled"@ },
        ActionView::Emit(EventView::Finished),
        ActionView::Shutdown,
    ]);
}

/// What can happen to a session.
pub enum Happening {
    Start,
    Bytes(Seq<u8>),
    ReadError(Seq<char>),
    /// The bytes that have arrived are looked at.
    Poll,
    Frame(InboundView),
    Command(CmdView),
    CommandsClosed,
    StreamAccepted,
    Data(Seq<u8>),
    Stored(Seq<char>),
    /// What is under way fails.
    Failure(Seq<char>),
}

/// What a session does when the bytes that have arrived are looked at: a whole frame is
/// taken out of them, and a violation ends the session.
pub open spec fn polled(s: SessionView) -> Step {
    match session::front_of(s) {
        Front::Incomplete => s.ignore(),
        Front::Complete(_, len) => (
            SessionView { unread: s.unread.skip(len as int), ..s },
            Seq::empty(),
        ),
        Front::Violation(e) => s.on_violation(e.message()),
    }
}

/// What a session does when it happens.
pub open spec fn step(s: SessionView, happening: Happening) -> Step {
    match happening {
        Happening::Start => s.on_start(),
        Happening::Bytes(bytes) => s.on_bytes(bytes),
        Happening::ReadError(message) => s.on_read_error(message),
        Happening::Poll => polled(s),
        Happening::Frame(frame) => s.on_frame(frame),
        Happening::Command(cmd) => s.on_command(cmd),
        Happening::CommandsClosed => s.on_commands_closed(),
        Happening::StreamAccepted => s.on_stream_accepted(),
        Happening::Data(chunk) => s.on_data(chunk),
        Happening::Stored(name) => s.on_stored(name),
        Happening::Failure(message) => s.failed(message),
    }
}

/// A new session is sound, and whatever happens to a sound session leaves it sound; its
/// role and its name never change.
pub proof fn law_every_step_keeps_the_invariant(
    role: Role,
    device_name: Seq<char>,
    send_request: Option<OfferView>,
    s: SessionView,
    happening: Happening,
)
    requires
        s.inv(),
    ensures
        SessionView::fresh(role, device_name, send_request).inv(),
        step(s, happening).0.inv(),
        step(s, happening).0.role == s.role,
        step(s, happening).0.device_name == s.device_name,
{
    match happening {
        Happening::Frame(frame) => {
            lemma_frame_keeps_the_invariant(s, frame);
        },
        Happening::Data(chunk) => {
            if let IncomingView::Receiving { offer, data } = s.incoming {
                lemma_received_keeps_the_invariant(s, offer, data);
                lemma_received_keeps_the_invariant(s, offer, data + chunk);
            }
        },
        Happening::StreamAccepted => {
            if let IncomingView::Receiving { offer, data } = s.incoming {
                lemma_received_keeps_the_invariant(s, offer, data);
            }
        },
        _ => {},
    }
}

proof fn lemma_frame_keeps_the_invariant(s: SessionView, frame: InboundView)
    requires
        s.inv(),
    ensures
        s.on_frame(frame).0.inv(),
        s.on_frame(frame).0.role == s.role,
        s.on_frame(frame).0.device_name == s.device_name,
{
    if s.handshaking() {
        assert(s.incoming is Nothing);
        assert(s.on_frame(frame).0.incoming is Nothing);
    }
}

proof fn lemma_received_keeps_the_invariant(s: SessionView, offer: OfferView, data: Seq<u8>)
    requires
        s.inv(),
        s.incoming matches IncomingView::Receiving { offer: o, .. } && o == offer,
    ensures
        s.received(offer, data).0.inv(),
        s.received(offer, data).0.role == s.role,
        s.received(offer, data).0.device_name == s.device_name,
{
}

/// Whether a list of actions tells that the session has finished.
pub open spec fn tells_finished(actions: Seq<ActionView>) -> bool {
    exists|i: int|
        0 <= i < actions.len() && #[trigger] actions[i] == ActionView::Emit(EventView::Finished)
}

/// A list of actions that tells that the session has finished tells it once, and tells
/// nothing after it.
pub open spec fn finished_is_last(actions: Seq<ActionView>) -> bool {
    forall|i: int, j: int|
        0 <= i < j < actions.len() && #[trigger] actions[i] == ActionView::Emit(
            EventView::Finished,
        ) ==> #[trigger] actions[j] is Shutdown
}

/// The end of a session, and only that, is told.
pub open spec fn tells_the_end(r: Step) -> bool {
    &&& r.0.state is Done <==> tells_finished(r.1)
    &&& finished_is_last(r.1)
}

proof fn lemma_ended_tells(s: SessionView, last: Seq<ActionView>)
    requires
        !tells_finished(last),
    ensures
        tells_the_end(s.ended(last)),
{
    let actions = s.ended(last).1;
    assert(actions[last.len() as int] == ActionView::Emit(EventView::Finished));
    assert forall|i: int, j: int|
        0 <= i < j < actions.len() && #[trigger] actions[i] == ActionView::Emit(
            EventView::Finished,
        ) implies #[trigger] actions[j] is Shutdown by {
        if i < last.len() {
            assert(last[i] == actions[i]);
        }
    }
}

proof fn lemma_failed_tells(s: SessionView, message: Seq<char>)
    ensures
        tells_the_end(s.failed(message)),
{
    let actions = s.failed(message).1;
    assert(actions[1] == ActionView::Emit(EventView::Finished));
}

proof fn lemma_frame_tells(s: SessionView, frame: InboundView)
    requires
        s.state !is Done,
    ensures
        tells_the_end(s.on_frame(frame)),
{
    let r = s.on_frame(frame);
    if r.0.state is Done {
        if r.1.last() is Shutdown {
            let last = r.1.take(r.1.len() - 2);
            assert(tells_the_end(r)) by {
                let end = if s.handshaking() {
                    SessionView { commands_closed: true, send_request: r.0.send_request, ..s }
                } else {
                    s
                };
                assert(r =~= end.ended(last));
                assert(!tells_finished(last));
                lemma_ended_tells(end, last);
            }
        } else {
            let message = r.1[0]->Emit_0->message;
            assert(r =~= s.failed(message));
            lemma_failed_tells(s, message);
        }
    }
}

proof fn lemma_received_tells(s: SessionView, offer: OfferView, data: Seq<u8>)
    requires
        s.state !is Done,
    ensures
        tells_the_end(s.received(offer, data)),
{
    let r = s.received(offer, data);
    if r.0.state is Done {
        let last = r.1.take(2);
        assert(r =~= s.ended(last));
        assert(!tells_finished(last));
        lemma_ended_tells(s, last);
    }
}

/// A session tells that it has finished when it ends, and only then: one step that ends a
/// sound session says so exactly once, as the last thing told.
pub proof fn law_finished_is_told_exactly_at_the_end(s: SessionView, happening: Happening)
    requires
        s.inv(),
        s.state !is Done,
    ensures
        tells_the_end(step(s, happening)),
{
    match happening {
        Happening::Start | Happening::Command(CmdView::Transfer { .. }) | Happening::Command(
            CmdView::RespondToOffer { .. },
        ) => {},
        Happening::Bytes(bytes) => {
            lemma_failed_tells(s, "connection closed while waiting for frame"@);
            lemma_ended_tells(s, Seq::empty());
        },
        Happening::ReadError(message) => {
            lemma_failed_tells(s, message);
            lemma_ended_tells(s, seq![ActionView::Emit(EventView::Error { message })]);
        },
        Happening::Poll => {
            if let Front::Violation(e) = session::front_of(s) {
                let message = e.message();
                lemma_failed_tells(s, message);
                let last = seq![
                    ActionView::SendError { code: "bad_frame"@, message },
                    ActionView::Emit(EventView::Error { message }),
                ];
                lemma_ended_tells(s, last);
            }
        },
        Happening::Frame(frame) => {
            lemma_frame_tells(s, frame);
        },
        Happening::Command(CmdView::Cancel) => {
            lemma_ended_tells(
                s,
                seq![ActionView::SendError { code: "cancelled"@, message: "user cancelled"@ }],
            );
        },
        Happening::CommandsClosed => {
            lemma_ended_tells(s, Seq::empty());
        },
        Happening::StreamAccepted => {
            if let IncomingView::Receiving { offer, data } = s.incoming {
                lemma_received_tells(s, offer, data);
            }
        },
        Happening::Data(chunk) => {
            if let IncomingView::Receiving { offer, data } = s.incoming {
                lemma_received_tells(s, offer, data);
                let (after, rest) = s.received(offer, data + chunk);
                lemma_received_tells(s, offer, data + chunk);
                let r = s.on_data(chunk);
                if chunk.len() > 0 && (data + chunk).len() >= offer.size_bytes {
                    assert forall|i: int| 0 <= i < rest.len() implies rest[i] == #[trigger] r.1[i
                        + 1] by {}
                    if tells_finished(rest) {
                        let i = choose|i: int|
                            0 <= i < rest.len() && #[trigger] rest[i] == ActionView::Emit(
                                EventView::Finished,
                            );
                        assert(r.1[i + 1] == ActionView::Emit(EventView::Finished));
                    }
                    assert forall|i: int, j: int|
                        0 <= i < j < r.1.len() && #[trigger] r.1[i] == ActionView::Emit(
                            EventView::Finished,
                        ) implies #[trigger] r.1[j] is Shutdown by {
                        assert(i > 0);
                        assert(rest[i - 1] == r.1[i]);
                        assert(rest[j - 1] == r.1[j]);
                    }
                    if tells_finished(r.1) {
                        let i = choose|i: int|
                            0 <= i < r.1.len() && #[trigger] r.1[i] == ActionView::Emit(
                                EventView::Finished,
                            );
                        assert(rest[i - 1] == r.1[i]);
                    }
                }
            }
        },
        Happening::Stored(name) => {
            if let IncomingView::Storing { offer } = s.incoming {
                let last = s.on_stored(name).1.take(3);
                assert(s.on_stored(name) =~= s.ended(last));
                assert(!tells_finished(last));
                lemma_ended_tells(s, last);
            }
        },
        Happening::Failure(message) => {
            lemma_failed_tells(s, message);
        },
    }
}

/// A session that is over stays over, and does nothing more: neither bytes nor frames nor
/// commands reach it. Only what it still has to do can fail.
pub proof fn law_done_is_terminal(s: SessionView, happening: Happening)
    requires
        s.inv(),
        s.state is Done,
        happening !is Failure,
    ensures
        step(s, happening) == s.ignore(),
{
}

/// Who reads no more than is wanted from the data stream never reads past the end of the
/// file, and while a file is incomplete something is wanted.
pub proof fn law_reading_what_is_wanted_is_exact(s: SessionView, chunk: Seq<u8>)
    requires
        s.inv(),
        s.incoming is Receiving,
        chunk.len() <= s.wanted(),
    ensures
        s.incoming->data.len() + chunk.len() <= s.incoming->Receiving_offer.size_bytes,
        s.incoming->Receiving_offer.size_bytes > 0 ==> s.wanted() > 0,
{
}

/// Something that happens to a session, and what comes of the actions that follow from it.
pub struct Round {
    pub happening: Happening,
    /// Which of the actions failed, and why; the ones behind it are dropped.
    pub failed: Option<(nat, Seq<char>)>,
}

/// What a session does in a round: the state it is left in, and the actions that were done.
pub open spec fn round(s: SessionView, r: Round) -> Step {
    let (after, actions) = step(s, r.happening);
    match r.failed {
        Some((at, message)) => (
            after.failed(message).0,
            actions.take(at as int) + after.failed(message).1,
        ),
        None => (after, actions),
    }
}

/// Whether an action is one whose failure the session is told of.
pub open spec fn can_fail(action: ActionView) -> bool {
    action is Send || action is ReceiveFile || action is StreamFile || action is StoreFile
}

/// Whether a round can happen: what fails is one of the actions, or something that is under
/// way in a session that is not over.
pub open spec fn possible(s: SessionView, r: Round) -> bool {
    &&& s.state is Done ==> r.happening !is Failure
    &&& r.failed matches Some((at, _)) ==> at < step(s, r.happening).1.len() && can_fail(
        step(s, r.happening).1[at as int],
    )
}

/// What a session does in several rounds, one after the other.
pub open spec fn run(s: SessionView, rounds: Seq<Round>) -> Step
    decreases rounds.len(),
{
    if rounds.len() == 0 {
        s.ignore()
    } else {
        let first = round(s, rounds[0]);
        let rest = run(first.0, rounds.skip(1));
        (rest.0, first.1 + rest.1)
    }
}

/// Whether all rounds, one after the other, can happen.
pub open spec fn all_possible(s: SessionView, rounds: Seq<Round>) -> bool
    decreases rounds.len(),
{
    rounds.len() > 0 ==> {
        &&& possible(s, rounds[0])
        &&& all_possible(round(s, rounds[0]).0, rounds.skip(1))
    }
}

/// How often a list of actions tells that the session has finished.
pub open spec fn times_finished(actions: Seq<ActionView>) -> nat
    decreases actions.len(),
{
    if actions.len() == 0 {
        0
    } else {
        times_finished(actions.drop_last()) + if actions.last() == ActionView::Emit(
            EventView::Finished,
        ) {
            1nat
        } else {
            0nat
        }
    }
}

proof fn lemma_times_finished_adds(a: Seq<ActionView>, b: Seq<ActionView>)
    ensures
        times_finished(a + b) == times_finished(a) + times_finished(b),
    decreases b.len(),
{
    if b.len() == 0 {
        assert(a + b =~= a);
    } else {
        assert((a + b).drop_last() =~= a + b.drop_last());
        lemma_times_finished_adds(a, b.drop_last());
    }
}

proof fn lemma_times_finished_at_most_once(actions: Seq<ActionView>)
    requires
        finished_is_last(actions),
    ensures
        times_finished(actions) == if tells_finished(actions) {
            1nat
        } else {
            0nat
        },
    decreases actions.len(),
{
    if actions.len() > 0 {
        let front = actions.drop_last();
        assert forall|i: int, j: int|
            0 <= i < j < front.len() && #[trigger] front[i] == ActionView::Emit(
                EventView::Finished,
            ) implies #[trigger] front[j] is Shutdown by {
            assert(front[i] == actions[i] && front[j] == actions[j]);
        }
        lemma_times_finished_at_most_once(front);
        if tells_finished(front) {
            let i = choose|i: int|
                0 <= i < front.len() && #[trigger] front[i] == ActionView::Emit(
                    EventView::Finished,
                );
            assert(actions[i] == ActionView::Emit(EventView::Finished));
            assert(actions[actions.len() - 1] is Shutdown);
        }
        if tells_finished(actions) {
            let i = choose|i: int|
                0 <= i < actions.len() && #[trigger] actions[i] == ActionView::Emit(
                    EventView::Finished,
                );
            if i < front.len() {
                assert(front[i] == actions[i]);
            }
        }
    }
}

/// A round tells that the session has finished if it ends it, and not otherwise.
proof fn lemma_round_tells(s: SessionView, r: Round)
    requires
        s.inv(),
        s.state !is Done,
        possible(s, r),
    ensures
        times_finished(round(s, r).1) == if round(s, r).0.state is Done {
            1nat
        } else {
            0nat
        },
{
    let (after, actions) = step(s, r.happening);
    law_finished_is_told_exactly_at_the_end(s, r.happening);
    match r.failed {
        Some((at, message)) => {
            let done = actions.take(at as int);
            assert(!tells_finished(done)) by {
                if tells_finished(done) {
                    let i = choose|i: int|
                        0 <= i < done.len() && #[trigger] done[i] == ActionView::Emit(
                            EventView::Finished,
                        );
                    assert(actions[i] == done[i]);
                    assert(actions[at as int] is Shutdown);
                }
            }
            assert(finished_is_last(done)) by {
                assert forall|i: int, j: int|
                    0 <= i < j < done.len() && #[trigger] done[i] == ActionView::Emit(
                        EventView::Finished,
                    ) implies #[trigger] done[j] is Shutdown by {
                    assert(tells_finished(done));
                }
            }
            lemma_times_finished_at_most_once(done);
            lemma_failed_tells(after, message);
            lemma_times_finished_at_most_once(after.failed(message).1);
            lemma_times_finished_adds(done, after.failed(message).1);
        },
        None => {
            lemma_times_finished_at_most_once(actions);
        },
    }
}

/// Over a whole run, whatever happens and whatever fails, the session tells that it has
/// finished exactly once if it is over at the end, and not at all if it is not.
pub proof fn law_finished_is_told_once_in_a_run(s: SessionView, rounds: Seq<Round>)
    requires
        s.inv(),
        all_possible(s, rounds),
    ensures
        s.state !is Done ==> times_finished(run(s, rounds).1) == if run(s, rounds).0.state is Done {
            1nat
        } else {
            0nat
        },
        s.state is Done ==> run(s, rounds) == s.ignore(),
    decreases rounds.len(),
{
    if rounds.len() > 0 {
        let first = round(s, rounds[0]);
        let rest = rounds.skip(1);
        let happening = rounds[0].happening;
        law_every_step_keeps_the_invariant(s.role, s.device_name, s.send_request, s, happening);
        if s.state is Done {
            law_done_is_terminal(s, happening);
            law_finished_is_told_once_in_a_run(first.0, rest);
            assert(first.1 + run(first.0, rest).1 =~= Seq::empty());
        } else {
            lemma_round_tells(s, rounds[0]);
            law_finished_is_told_once_in_a_run(first.0, rest);
            lemma_times_finished_adds(first.1, run(first.0, rest).1);
            if first.0.state is Done {
                assert(run(first.0, rest).1 =~= Seq::empty());
            }
        }
    }
}

/// Greetings come first: before the handshake is over, nothing is sent to the peer but the
/// greeting of one's own side, a cancellation, and behind the greeting that ends the
/// handshake the offer of the file that waits to be sent. No file is received or stored.
pub proof fn law_greetings_come_first(s: SessionView, happening: Happening, i: int)
    requires
        s.inv(),
        s.handshaking(),
        0 <= i < step(s, happening).1.len(),
    ensures
        match step(s, happening).1[i] {
            ActionView::Send(MessageView::Hello { device_name }) => s.role is Client
                && device_name == s.device_name,
            ActionView::Send(MessageView::HelloAck { ok, device_name }) => s.role is Server && ok
                && device_name == s.device_name,
            ActionView::Send(MessageView::TransferOffer { offer }) => {
                &&& s.role is Client
                &&& s.send_request == Some(offer)
                &&& happening matches Happening::Frame(InboundView::Message(m)) && m is HelloAck
                &&& step(s, happening).0.state is WaitingForDecision || s.commands_closed
            },
            ActionView::SendError { .. } => happening == Happening::Command(CmdView::Cancel),
            ActionView::Emit(_) | ActionView::Shutdown => true,
            _ => false,
        },
{
}

/// The receiver controls what lands on its disk. A reception begins only when the user
/// accepts the offer that was put before them; and a file is stored only at the end of a
/// reception, with as many bytes as that offer announced.
pub proof fn law_only_accepted_offers_are_stored(s: SessionView, happening: Happening, i: int)
    requires
        s.inv(),
    ensures
        s.incoming !is Receiving && step(s, happening).0.incoming is Receiving ==> {
            &&& happening matches Happening::Command(
                CmdView::RespondToOffer { transfer_id, accept: true },
            )
            &&& s.state matches StateView::AwaitingUserDecision { offer }
            &&& offer.transfer_id == transfer_id
            &&& step(s, happening).0.incoming == (IncomingView::Receiving {
                offer,
                data: Seq::empty(),
            })
        },
        0 <= i < step(s, happening).1.len() ==> (step(s, happening).1[i] matches ActionView::StoreFile {
            filename,
            data,
        } ==> {
            &&& s.incoming matches IncomingView::Receiving { offer, .. }
            &&& data.len() == offer.size_bytes
            &&& filename::sanitized(offer.filename) == Some(filename)
        }),
{
    match happening {
        Happening::Frame(frame) => {
            lemma_frame_takes_nothing(s, frame);
        },
        Happening::Data(chunk) => {
            if let IncomingView::Receiving { offer, data } = s.incoming {
                lemma_received_stores(s, offer, data);
                lemma_received_stores(s, offer, data + chunk);
                let rest = s.received(offer, data + chunk).1;
                if chunk.len() > 0 && (data + chunk).len() >= offer.size_bytes && 0 < i
                    && i < step(s, happening).1.len() {
                    assert(step(s, happening).1[i] == rest[i - 1]);
                }
            }
        },
        Happening::StreamAccepted => {
            if let IncomingView::Receiving { offer, data } = s.incoming {
                lemma_received_stores(s, offer, data);
            }
        },
        _ => {},
    }
}

/// A frame neither starts a reception nor stores a file.
proof fn lemma_frame_takes_nothing(s: SessionView, frame: InboundView)
    ensures
        s.on_frame(frame).0.incoming == s.incoming || s.on_frame(frame).0.incoming is Nothing,
        forall|i: int|
            0 <= i < s.on_frame(frame).1.len() ==> !(#[trigger] s.on_frame(frame).1[i]
                is StoreFile || s.on_frame(frame).1[i] is ReceiveFile),
{
}

/// What is stored of a reception is what was received, and it has the announced size.
proof fn lemma_received_stores(s: SessionView, offer: OfferView, data: Seq<u8>)
    ensures
        s.received(offer, data).0.incoming !is Receiving || s.received(offer, data).0.incoming
            == s.incoming,
        forall|i: int|
            0 <= i < s.received(offer, data).1.len() ==> (#[trigger] s.received(offer, data).1[i]
                is StoreFile ==> data.len() == offer.size_bytes && filename::sanitized(
                offer.filename,
            ) is Some && s.received(offer, data).1[i] == (ActionView::StoreFile {
                filename: filename::sanitized(offer.filename)->0,
                data,
            })),
{
}

/// All files land in the drop folder: whatever name a file was offered under, it is stored
/// under a plain one that no file there has, directly in the folder.
pub proof fn law_files_stay_in_the_drop_folder(
    s: SessionView,
    happening: Happening,
    i: int,
    taken: Seq<String>,
    name: Seq<char>,
)
    requires
        s.inv(),
        0 <= i < step(s, happening).1.len(),
        step(s, happening).1[i] matches ActionView::StoreFile { filename, .. }
            && filename::is_first_free(filename, taken, name),
    ensures
        filename::is_plain_name(name),
        !filename::is_taken(name, taken),
{
    law_only_accepted_offers_are_stored(s, happening, i);
    let plain = step(s, happening).1[i]->StoreFile_filename;
    let n = choose|n: nat| name == #[trigger] filename::numbered(plain, n);
    filename::law_numbered_names_stay_plain(plain, n);
}

/// Whether the user accepts an offer.
pub open spec fn is_acceptance(happening: Happening) -> bool {
    happening matches Happening::Command(CmdView::RespondToOffer { accept: true, .. })
}

/// Whether a list of actions receives or stores a file.
pub open spec fn takes_a_file(actions: Seq<ActionView>) -> bool {
    exists|i: int|
        0 <= i < actions.len() && (#[trigger] actions[i] is ReceiveFile || actions[i] is StoreFile)
}

/// A user who accepts nothing gets nothing: whatever the peer sends, and whatever else
/// happens, no file is received and none is stored.
pub proof fn law_nothing_is_taken_without_consent(s: SessionView, rounds: Seq<Round>)
    requires
        s.incoming is Nothing,
        forall|i: int| 0 <= i < rounds.len() ==> !is_acceptance((#[trigger] rounds[i]).happening),
        all_possible(s, rounds),
    ensures
        !takes_a_file(run(s, rounds).1),
        run(s, rounds).0.incoming is Nothing,
    decreases rounds.len(),
{
    if rounds.len() > 0 {
        let first = round(s, rounds[0]);
        let rest = rounds.skip(1);
        assert(!is_acceptance(rounds[0].happening));
        assert forall|i: int| 0 <= i < rest.len() implies !is_acceptance(
            (#[trigger] rest[i]).happening,
        ) by {
            assert(rest[i] == rounds[i + 1]);
        }
        lemma_step_without_consent(s, rounds[0].happening);
        let actions = step(s, rounds[0].happening).1;
        assert forall|i: int| 0 <= i < first.1.len() implies !(#[trigger] first.1[i] is ReceiveFile
            || first.1[i] is StoreFile) by {
            if let Some((at, _)) = rounds[0].failed {
                if i < at {
                    assert(first.1[i] == actions[i]);
                }
            } else {
                assert(first.1[i] == actions[i]);
            }
        }
        law_nothing_is_taken_without_consent(first.0, rest);
        let rest_actions = run(first.0, rest).1;
        assert forall|i: int| 0 <= i < run(s, rounds).1.len() implies !(#[trigger] run(
            s,
            rounds,
        ).1[i] is ReceiveFile || run(s, rounds).1[i] is StoreFile) by {
            if i >= first.1.len() {
                assert(run(s, rounds).1[i] == rest_actions[i - first.1.len()]);
            } else {
                assert(run(s, rounds).1[i] == first.1[i]);
            }
        }
    }
}

proof fn lemma_step_without_consent(s: SessionView, happening: Happening)
    requires
        s.incoming is Nothing,
        !is_acceptance(happening),
    ensures
        !takes_a_file(step(s, happening).1),
        step(s, happening).0.incoming is Nothing,
{
    if let Happening::Frame(frame) = happening {
        lemma_frame_takes_nothing(s, frame);
    }
}

} // verus!
