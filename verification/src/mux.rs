//! The order in which a multiplexed connection is served.
//!
//! One task serves a connection: it opens the streams that are asked for, one at a time,
//! and hands on those that the peer opens. Each time the task is woken it goes one round.
//! A [`MuxDriver`] says what to do next in the round; the task does it and reports what
//! came of it.
use vstd::prelude::*;

verus! {

/// The request for a stream that is being served, if any.
#[derive(Debug, Clone, Copy, PartialEq, Eq, Structural)]
pub enum Request {
    /// None is.
    Absent,
    /// One that was taken in this round.
    Fresh,
    /// One that an earlier round could not answer.
    Held,
}

/// What to do next in a round.
#[derive(Debug, Clone, Copy, PartialEq, Eq, Structural)]
pub enum MuxAction {
    /// See whether whoever made the held request still waits for the answer.
    CheckAsker,
    /// Drop the held request, which nobody waits for, and take the next one, if any.
    DropAndTake,
    /// Take the next request, if any.
    TakeRequest,
    /// Try to open a stream.
    OpenStream,
    /// Answer the request with what opening a stream came to, then take the next one.
    AnswerAndTake,
    /// Answer the request with what opening a stream came to, then look for a stream that
    /// the peer opened.
    AnswerAndListen,
    /// Look for a stream that the peer opened.
    Listen,
    /// Hand on the stream that the peer opened.
    HandOn,
    /// The round is over: wait to be woken.
    Park,
    /// The connection is over.
    Finish,
}

/// What came of it.
#[derive(Debug, Clone, Copy, PartialEq, Eq, Structural)]
pub enum MuxEvent {
    /// A new round begins.
    Woken,
    /// The asker is still there, or gone.
    Asker { waiting: bool },
    /// A request was taken, or there was none.
    Request { taken: bool },
    /// A stream was opened or failed to open, or it is not known yet.
    Opened { ready: bool },
    /// The peer opened a stream.
    Stream,
    /// The peer opened no stream yet.
    NoStream,
    /// The connection failed or was closed.
    Closed,
    /// The stream was handed on, or nobody took it.
    HandedOn { taken: bool },
}

/// The next request and the next action.
pub open spec fn mux_step(request: Request, event: MuxEvent) -> (Request, MuxAction) {
    match event {
        MuxEvent::Woken => if request is Absent {
            (Request::Absent, MuxAction::TakeRequest)
        } else {
            (Request::Held, MuxAction::CheckAsker)
        },
        MuxEvent::Asker { waiting } => if waiting {
            (request, MuxAction::OpenStream)
        } else {
            (Request::Absent, MuxAction::DropAndTake)
        },
        MuxEvent::Request { taken } => if taken {
            (Request::Fresh, MuxAction::OpenStream)
        } else {
            (Request::Absent, MuxAction::Listen)
        },
        MuxEvent::Opened { ready } => if ready {
            (
                Request::Absent,
                if request is Held {
                    MuxAction::AnswerAndTake
                } else {
                    MuxAction::AnswerAndListen
                },
            )
        } else {
            (Request::Held, MuxAction::Listen)
        },
        MuxEvent::Stream => (request, MuxAction::HandOn),
        MuxEvent::NoStream => (request, MuxAction::Park),
        MuxEvent::Closed => (request, MuxAction::Finish),
        MuxEvent::HandedOn { taken } => (
            request,
            if taken {
                MuxAction::Listen
            } else {
                MuxAction::Finish
            },
        ),
    }
}

/// Serves one connection.
pub struct MuxDriver {
    request: Request,
}

impl MuxDriver {
    /// The request that is being served.
    pub closed spec fn served(self) -> Request {
        self.request
    }

    /// A driver for a new connection.
    pub fn new() -> (d: MuxDriver)
        ensures
            d.served() is Absent,
    {
        MuxDriver { request: Request::Absent }
    }

    /// Says what to do next, from what came of the last thing done.
    pub fn on_event(&mut self, event: MuxEvent) -> (action: MuxAction)
        ensures
            (final(self).served(), action) == mux_step(old(self).served(), event),
    {
        match event {
            MuxEvent::Woken => match self.request {
                Request::Absent => MuxAction::TakeRequest,
                _ => {
                    self.request = Request::Held;
                    MuxAction::CheckAsker
                },
            },
            MuxEvent::Asker { waiting } => {
                if waiting {
                    MuxAction::OpenStream
                } else {
                    self.request = Request::Absent;
                    MuxAction::DropAndTake
                }
            },
            MuxEvent::Request { taken } => {
                if taken {
                    self.request = Request::Fresh;
                    MuxAction::OpenStream
                } else {
                    self.request = Request::Absent;
                    MuxAction::Listen
                }
            },
            MuxEvent::Opened { ready } => {
                if ready {
                    let held = matches!(self.request, Request::Held);
                    self.request = Request::Absent;
                    if held {
                        MuxAction::AnswerAndTake
                    } else {
                        MuxAction::AnswerAndListen
                    }
                } else {
                    self.request = Request::Held;
                    MuxAction::Listen
                }
            },
            MuxEvent::Stream => MuxAction::HandOn,
            MuxEvent::NoStream => MuxAction::Park,
            MuxEvent::Closed => MuxAction::Finish,
            MuxEvent::HandedOn { taken } => {
                if taken {
                    MuxAction::Listen
                } else {
                    MuxAction::Finish
                }
            },
        }
    }
}

/// Whether an event can come of an action.
pub open spec fn answers(action: MuxAction, event: MuxEvent) -> bool {
    match action {
        MuxAction::CheckAsker => event is Asker,
        MuxAction::DropAndTake | MuxAction::TakeRequest | MuxAction::AnswerAndTake => event
            is Request,
        MuxAction::OpenStream => event is Opened,
        MuxAction::AnswerAndListen | MuxAction::Listen => event is Stream || event is NoStream
            || event is Closed,
        MuxAction::HandOn => event is HandedOn,
        MuxAction::Park => event is Woken,
        MuxAction::Finish => false,
    }
}

/// Whether a request and the action that follows fit: a request is looked for only while
/// none is served, a stream is opened only for a request, and what is held across rounds is
/// a request that was tried.
pub open spec fn in_step(request: Request, action: MuxAction) -> bool {
    match action {
        MuxAction::CheckAsker => request is Held,
        MuxAction::OpenStream => request !is Absent,
        MuxAction::DropAndTake | MuxAction::TakeRequest | MuxAction::AnswerAndTake
        | MuxAction::AnswerAndListen => request is Absent,
        MuxAction::Listen | MuxAction::HandOn | MuxAction::Park | MuxAction::Finish => request
            !is Fresh,
    }
}

/// One request is served at a time: as long as the task reports what came of the action it
/// was given, no request is taken while another waits, and none is answered or opened a
/// stream for that was not taken.
pub proof fn law_one_request_at_a_time(request: Request, action: MuxAction, event: MuxEvent)
    requires
        in_step(request, action),
        answers(action, event),
    ensures
        ({
            let (next, then_do) = mux_step(request, event);
            in_step(next, then_do)
        }),
        in_step(Request::Absent, MuxAction::Park),
{
}

/// No request is lost: one that is served stays so until it is answered or its asker is
/// gone.
pub proof fn law_requests_are_not_lost(request: Request, event: MuxEvent)
    requires
        request !is Absent,
        !(event is Request),
    ensures
        mux_step(request, event).0 is Absent ==> (mux_step(request, event).1 is AnswerAndTake
            || mux_step(request, event).1 is AnswerAndListen || event == (MuxEvent::Asker {
            waiting: false,
        })),
{
}

/// A round begins with the request that is held, if there is one, and otherwise with a look
/// for a new one. A held request whose asker is gone is given up for the next one; one whose
/// asker waits is tried again.
pub proof fn law_round_begins_with_the_held_request(request: Request)
    ensures
        mux_step(Request::Absent, MuxEvent::Woken) == (Request::Absent, MuxAction::TakeRequest),
        request !is Absent ==> mux_step(request, MuxEvent::Woken) == (
            Request::Held,
            MuxAction::CheckAsker,
        ),
        mux_step(request, MuxEvent::Asker { waiting: true }) == (request, MuxAction::OpenStream),
        mux_step(request, MuxEvent::Asker { waiting: false }) == (
            Request::Absent,
            MuxAction::DropAndTake,
        ),
{
}

/// A stream is opened for every request that is taken. A request is answered as soon as that
/// is done, well or badly, and held as long as it is not; where there is none, the peer is
/// listened to. After a held request the next one has its turn in the same round.
pub proof fn law_requests_are_served(request: Request)
    ensures
        mux_step(request, MuxEvent::Request { taken: true }) == (
            Request::Fresh,
            MuxAction::OpenStream,
        ),
        mux_step(request, MuxEvent::Request { taken: false }) == (
            Request::Absent,
            MuxAction::Listen,
        ),
        mux_step(Request::Held, MuxEvent::Opened { ready: true }) == (
            Request::Absent,
            MuxAction::AnswerAndTake,
        ),
        request !is Held ==> mux_step(request, MuxEvent::Opened { ready: true }) == (
            Request::Absent,
            MuxAction::AnswerAndListen,
        ),
        mux_step(request, MuxEvent::Opened { ready: false }) == (Request::Held, MuxAction::Listen),
{
}

/// Every stream that the peer opens is handed on, and the peer is listened to until it opens
/// no more; then the round is over. The connection is over when it is closed or when nobody
/// takes the streams. None of this touches the request.
pub proof fn law_peers_streams_are_handed_on(request: Request)
    ensures
        mux_step(request, MuxEvent::Stream) == (request, MuxAction::HandOn),
        mux_step(request, MuxEvent::HandedOn { taken: true }) == (request, MuxAction::Listen),
        mux_step(request, MuxEvent::HandedOn { taken: false }) == (request, MuxAction::Finish),
        mux_step(request, MuxEvent::NoStream) == (request, MuxAction::Park),
        mux_step(request, MuxEvent::Closed) == (request, MuxAction::Finish),
{
}

} // verus!
