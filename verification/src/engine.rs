//! The engine: listens, connects, and keeps the sessions apart.
//!
//! Like a [session](crate::session), the [`Engine`] does no input or output. It is told
//! what happened and answers with the [`EngineAction`]s to perform, in order.
use crate::session::{Role, SendRequest, SessionCmd, SessionEvent};
use crate::storage;
use std::path::PathBuf;
use vstd::prelude::*;

verus! {

/// Commands that control the engine.
#[derive(Clone, Debug)]
pub enum EngineCmd {
    /// Bind a listener on `addr` and start accepting connections (server).
    StartAccepting { addr: String },
    /// Stop accepting new connections.
    StopAccepting,
    /// Connect to a peer (client), and offer it a file if there is one to send.
    Connect { addr: String, send_request: Option<SendRequest> },
    /// Hand a command to one session.
    SessionCmd { session_id: u64, cmd: SessionCmd },
    /// Shut the whole engine down.
    ShutDown,
}

/// Events of the engine, for whoever watches it.
#[derive(Clone, Debug)]
pub enum EngineEvent {
    /// The listener is bound and accepting connections on `addr`.
    Accepting { addr: String },
    /// The listener has been stopped.
    AcceptingStopped,
    /// A new session was created (inbound or outbound).
    SessionCreated { session_id: u64, peer: String },
    /// An event of one session.
    SessionEvent { session_id: u64, event: SessionEvent },
    /// Something went wrong, and the engine goes on.
    Error { message: String },
}

/// What all sessions of an engine share.
#[derive(Clone, Debug)]
pub struct EngineConfig {
    /// Human-readable name of this device.
    pub device_name: String,
    /// Folder where received files are stored.
    pub receive_dir: PathBuf,
}

impl Default for EngineConfig {
    fn default() -> (config: Self)
        ensures
            config.device_name@ == "WaterDrop"@,
            config.receive_dir == storage::path_of("/tmp/waterdrop"@),
    {
        EngineConfig {
            device_name: String::from_str("WaterDrop"),
            receive_dir: storage::path_from("/tmp/waterdrop"),
        }
    }
}

/// What is to be done for the engine, in the order given.
#[derive(Debug)]
pub enum EngineAction {
    /// Bind a listener, and report by [`Engine::on_bound`].
    Bind { addr: String },
    /// Drop the listener.
    CloseListener,
    /// Connect to a peer, and report by [`Engine::on_connected`].
    Connect { addr: String, send_request: Option<SendRequest> },
    /// Run a session on the connection that was just made or accepted.
    Spawn { session_id: u64, role: Role, device_name: String, receive_dir: PathBuf },
    /// Hand the command to the session.
    Forward { session_id: u64, cmd: SessionCmd },
    /// Tell whoever watches the engine.
    Emit(EngineEvent),
    /// Stop the engine.
    Stop,
}

/// The engine.
pub struct Engine {
    config: EngineConfig,
    listening: bool,
    next_session_id: u64,
    sessions: Vec<u64>,
    running: bool,
}

/// An [`Engine`] as a mathematical value.
#[verifier::ext_equal]
pub struct EngineView {
    pub device_name: String,
    pub receive_dir: PathBuf,
    /// Whether there is a listener.
    pub listening: bool,
    pub next_session_id: u64,
    /// The sessions created so far, oldest first.
    pub sessions: Seq<u64>,
    pub running: bool,
}

impl View for Engine {
    type V = EngineView;

    closed spec fn view(&self) -> EngineView {
        EngineView {
            device_name: self.config.device_name,
            receive_dir: self.config.receive_dir,
            listening: self.listening,
            next_session_id: self.next_session_id,
            sessions: self.sessions@,
            running: self.running,
        }
    }
}

/// The next state and the actions.
pub type EngineStep = (EngineView, Seq<EngineAction>);

impl EngineView {
    /// The identifiers count the sessions, from 1 on and without gaps.
    pub open spec fn inv(self) -> bool {
        &&& self.next_session_id == self.sessions.len() + 1
        &&& forall|i: int| 0 <= i < self.sessions.len() ==> #[trigger] self.sessions[i] == i + 1
    }

    /// A new engine: it neither listens nor has sessions.
    pub open spec fn fresh(config: EngineConfig) -> EngineView {
        EngineView {
            device_name: config.device_name,
            receive_dir: config.receive_dir,
            listening: false,
            next_session_id: 1,
            sessions: Seq::empty(),
            running: true,
        }
    }

    /// The session with the next identifier is created.
    pub open spec fn with_session(self) -> EngineView {
        EngineView {
            next_session_id: (self.next_session_id + 1) as u64,
            sessions: self.sessions.push(self.next_session_id),
            ..self
        }
    }

    /// The session with the next identifier is run.
    pub open spec fn spawn(self, role: Role) -> EngineAction {
        EngineAction::Spawn {
            session_id: self.next_session_id,
            role,
            device_name: self.device_name,
            receive_dir: self.receive_dir,
        }
    }

    /// The session with the next identifier is told of.
    pub open spec fn created(self, peer: String) -> EngineAction {
        EngineAction::Emit(
            EngineEvent::SessionCreated { session_id: self.next_session_id, peer },
        )
    }

    /// An error is told, and nothing else changes.
    pub open spec fn told(self, message: String) -> EngineStep {
        (self, seq![EngineAction::Emit(EngineEvent::Error { message })])
    }

    /// A command arrives. One for a session that there is none of is dropped.
    pub open spec fn on_command(self, cmd: EngineCmd) -> EngineStep {
        match cmd {
            EngineCmd::StartAccepting { addr } => (self, seq![EngineAction::Bind { addr }]),
            EngineCmd::StopAccepting => (
                EngineView { listening: false, ..self },
                seq![
                    EngineAction::CloseListener,
                    EngineAction::Emit(EngineEvent::AcceptingStopped),
                ],
            ),
            EngineCmd::Connect { addr, send_request } => (
                self,
                seq![EngineAction::Connect { addr, send_request }],
            ),
            EngineCmd::SessionCmd { session_id, cmd } => (
                self,
                if self.sessions.contains(session_id) {
                    seq![EngineAction::Forward { session_id, cmd }]
                } else {
                    Seq::empty()
                },
            ),
            EngineCmd::ShutDown => (
                EngineView { running: false, ..self },
                Seq::new(
                    self.sessions.len(),
                    |i: int|
                        EngineAction::Forward {
                            session_id: self.sessions[i],
                            cmd: SessionCmd::Cancel,
                        },
                ).push(EngineAction::Stop),
            ),
        }
    }

    /// Nobody can command the engine any more.
    pub open spec fn on_commands_closed(self) -> EngineStep {
        (EngineView { running: false, ..self }, seq![EngineAction::Stop])
    }

    /// Binding succeeded, at this address, or failed. A listener from before stays where
    /// binding fails.
    pub open spec fn on_bound(self, result: Result<String, String>) -> EngineStep {
        match result {
            Ok(addr) => (
                EngineView { listening: true, ..self },
                seq![EngineAction::Emit(EngineEvent::Accepting { addr })],
            ),
            Err(message) => self.told(message),
        }
    }

    /// Connecting to a peer succeeded or failed. A file to send is handed to the session.
    pub open spec fn on_connected(
        self,
        result: Result<String, String>,
        send_request: Option<SendRequest>,
    ) -> EngineStep {
        match result {
            Ok(peer) => (
                self.with_session(),
                seq![self.spawn(Role::Client), self.created(peer)] + match send_request {
                    Some(req) => seq![
                        EngineAction::Forward {
                            session_id: self.next_session_id,
                            cmd: SessionCmd::Transfer { req },
                        },
                    ],
                    None => Seq::empty(),
                },
            ),
            Err(message) => self.told(message),
        }
    }

    /// A peer connected to the listener, or could not be accepted.
    pub open spec fn on_accepted(self, result: Result<String, String>) -> EngineStep {
        match result {
            Ok(peer) => (
                self.with_session(),
                seq![self.created(peer), self.spawn(Role::Server)],
            ),
            Err(message) => self.told(message),
        }
    }
}

impl Engine {
    /// A new engine.
    pub fn new(config: EngineConfig) -> (e: Engine)
        ensures
            e@ == EngineView::fresh(config),
            e@.inv(),
    {
        Engine {
            config,
            listening: false,
            next_session_id: 1,
            sessions: Vec::new(),
            running: true,
        }
    }

    /// Whether the engine accepts connections.
    pub fn is_listening(&self) -> (r: bool)
        ensures
            r == self@.listening,
    {
        self.listening
    }

    /// Whether the engine has not been shut down.
    pub fn is_running(&self) -> (r: bool)
        ensures
            r == self@.running,
    {
        self.running
    }

    /// Whether an identifier is left for another session.
    pub fn has_free_id(&self) -> (r: bool)
        ensures
            r == (self@.next_session_id < u64::MAX),
    {
        self.next_session_id < u64::MAX
    }

    fn has_session(&self, session_id: u64) -> (r: bool)
        ensures
            r == self@.sessions.contains(session_id),
    {
        let mut i: usize = 0;
        while i < self.sessions.len()
            invariant
                i <= self.sessions.len(),
                forall|j: int| 0 <= j < i ==> self.sessions@[j] != session_id,
            decreases self.sessions.len() - i,
        {
            if self.sessions[i] == session_id {
                assert(self.sessions@.contains(session_id));
                return true;
            }
            i = i + 1;
        }
        false
    }

    /// A command arrives.
    pub fn on_command(&mut self, cmd: EngineCmd) -> (actions: Vec<EngineAction>)
        ensures
            (final(self)@, actions@) == old(self)@.on_command(cmd),
    {
        match cmd {
            EngineCmd::StartAccepting { addr } => vec![EngineAction::Bind { addr }],
            EngineCmd::StopAccepting => {
                self.listening = false;
                vec![
                    EngineAction::CloseListener,
                    EngineAction::Emit(EngineEvent::AcceptingStopped),
                ]
            },
            EngineCmd::Connect { addr, send_request } => vec![
                EngineAction::Connect { addr, send_request },
            ],
            EngineCmd::SessionCmd { session_id, cmd } => {
                if self.has_session(session_id) {
                    vec![EngineAction::Forward { session_id, cmd }]
                } else {
                    Vec::new()
                }
            },
            EngineCmd::ShutDown => {
                self.running = false;
                let mut actions: Vec<EngineAction> = Vec::new();
                let mut i: usize = 0;
                while i < self.sessions.len()
                    invariant
                        i <= self.sessions.len(),
                        actions@ =~= Seq::new(
                            i as nat,
                            |j: int|
                                EngineAction::Forward {
                                    session_id: self.sessions@[j],
                                    cmd: SessionCmd::Cancel,
                                },
                        ),
                    decreases self.sessions.len() - i,
                {
                    actions.push(
                        EngineAction::Forward {
                            session_id: self.sessions[i],
                            cmd: SessionCmd::Cancel,
                        },
                    );
                    i = i + 1;
                }
                actions.push(EngineAction::Stop);
                actions
            },
        }
    }

    /// Nobody can command the engine any more.
    pub fn on_commands_closed(&mut self) -> (actions: Vec<EngineAction>)
        ensures
            (final(self)@, actions@) == old(self)@.on_commands_closed(),
    {
        self.running = false;
        vec![EngineAction::Stop]
    }

    /// Binding succeeded, at this address, or failed.
    pub fn on_bound(&mut self, result: Result<String, String>) -> (actions: Vec<EngineAction>)
        ensures
            (final(self)@, actions@) == old(self)@.on_bound(result),
    {
        match result {
            Ok(addr) => {
                self.listening = true;
                vec![EngineAction::Emit(EngineEvent::Accepting { addr })]
            },
            Err(message) => vec![EngineAction::Emit(EngineEvent::Error { message })],
        }
    }

    /// Gives out the next identifier; says what to run and what to tell.
    fn open_session(&mut self, role: Role, peer: String) -> (r: (EngineAction, EngineAction, u64))
        requires
            old(self)@.next_session_id < u64::MAX,
        ensures
            final(self)@ == old(self)@.with_session(),
            r == (
                old(self)@.spawn(role),
                old(self)@.created(peer),
                old(self)@.next_session_id,
            ),
    {
        let session_id: u64 = self.next_session_id;
        self.next_session_id = session_id + 1;
        self.sessions.push(session_id);
        (
            EngineAction::Spawn {
                session_id,
                role,
                device_name: self.config.device_name.clone(),
                receive_dir: self.config.receive_dir.clone(),
            },
            EngineAction::Emit(EngineEvent::SessionCreated { session_id, peer }),
            session_id,
        )
    }

    /// Connecting to a peer succeeded or failed.
    pub fn on_connected(
        &mut self,
        result: Result<String, String>,
        send_request: Option<SendRequest>,
    ) -> (actions: Vec<EngineAction>)
        requires
            result is Ok ==> old(self)@.next_session_id < u64::MAX,
        ensures
            (final(self)@, actions@) == old(self)@.on_connected(result, send_request),
    {
        match result {
            Ok(peer) => {
                let (spawn, created, session_id) = self.open_session(Role::Client, peer);
                let mut actions = vec![spawn, created];
                if let Some(req) = send_request {
                    actions.push(
                        EngineAction::Forward { session_id, cmd: SessionCmd::Transfer { req } },
                    );
                }
                assert(actions@ =~= old(self)@.on_connected(result, send_request).1);
                actions
            },
            Err(message) => vec![EngineAction::Emit(EngineEvent::Error { message })],
        }
    }

    /// A peer connected to the listener, or could not be accepted.
    pub fn on_accepted(&mut self, result: Result<String, String>) -> (actions: Vec<EngineAction>)
        requires
            result is Ok ==> old(self)@.next_session_id < u64::MAX,
        ensures
            (final(self)@, actions@) == old(self)@.on_accepted(result),
    {
        match result {
            Ok(peer) => {
                let (spawn, created, _) = self.open_session(Role::Server, peer);
                vec![created, spawn]
            },
            Err(message) => vec![EngineAction::Emit(EngineEvent::Error { message })],
        }
    }
}

/// Passes an event of a session on, with the session's identifier. The second part says
/// whether it was the session's last.
pub fn forward_event(session_id: u64, event: SessionEvent) -> (r: (EngineEvent, bool))
    ensures
        r.0 == (EngineEvent::SessionEvent { session_id, event }),
        r.1 == (event is Finished),
{
    let last = matches!(event, SessionEvent::Finished);
    (EngineEvent::SessionEvent { session_id, event }, last)
}

/// Whatever happens, every session keeps an identifier of its own, and a new session gets
/// one that no session had before.
pub proof fn law_session_ids_are_unique(
    e: EngineView,
    cmd: EngineCmd,
    result: Result<String, String>,
    send_request: Option<SendRequest>,
)
    requires
        e.inv(),
        e.next_session_id < u64::MAX,
    ensures
        e.on_command(cmd).0.inv(),
        e.on_commands_closed().0.inv(),
        e.on_bound(result).0.inv(),
        e.on_connected(result, send_request).0.inv(),
        e.on_accepted(result).0.inv(),
        !e.sessions.contains(e.next_session_id),
        e.with_session().sessions.contains(e.next_session_id),
{
    let after = e.with_session();
    assert(after.sessions[e.sessions.len() as int] == e.next_session_id);
}

// ── Whole runs ──────────────────────────────────────────────────────

/// What can happen to an engine.
pub enum EngineHappening {
    Command(EngineCmd),
    CommandsClosed,
    Bound(Result<String, String>),
    Connected(Result<String, String>, Option<SendRequest>),
    Accepted(Result<String, String>),
}

/// What an engine does when it happens.
pub open spec fn engine_step(e: EngineView, happening: EngineHappening) -> EngineStep {
    match happening {
        EngineHappening::Command(cmd) => e.on_command(cmd),
        EngineHappening::CommandsClosed => e.on_commands_closed(),
        EngineHappening::Bound(result) => e.on_bound(result),
        EngineHappening::Connected(result, send_request) => e.on_connected(result, send_request),
        EngineHappening::Accepted(result) => e.on_accepted(result),
    }
}

/// What an engine does when several things happen to it, one after the other.
pub open spec fn engine_run(e: EngineView, happenings: Seq<EngineHappening>) -> EngineStep
    decreases happenings.len(),
{
    if happenings.len() == 0 {
        (e, Seq::empty())
    } else {
        let before = engine_run(e, happenings.drop_last());
        let last = engine_step(before.0, happenings.last());
        (last.0, before.1 + last.1)
    }
}

/// How many connections were made or accepted.
pub open spec fn connections(happenings: Seq<EngineHappening>) -> nat
    decreases happenings.len(),
{
    if happenings.len() == 0 {
        0
    } else {
        connections(happenings.drop_last()) + match happenings.last() {
            EngineHappening::Connected(Ok(_), _) | EngineHappening::Accepted(Ok(_)) => 1nat,
            _ => 0nat,
        }
    }
}

/// How often binding, connecting or accepting failed.
pub open spec fn failures(happenings: Seq<EngineHappening>) -> nat
    decreases happenings.len(),
{
    if happenings.len() == 0 {
        0
    } else {
        failures(happenings.drop_last()) + match happenings.last() {
            EngineHappening::Bound(Err(_)) | EngineHappening::Connected(Err(_), _)
            | EngineHappening::Accepted(Err(_)) => 1nat,
            _ => 0nat,
        }
    }
}

/// The identifiers of the sessions that a list of actions tells of, in order.
pub open spec fn created_ids(actions: Seq<EngineAction>) -> Seq<u64>
    decreases actions.len(),
{
    if actions.len() == 0 {
        Seq::empty()
    } else {
        match actions.last() {
            EngineAction::Emit(EngineEvent::SessionCreated { session_id, .. }) => created_ids(
                actions.drop_last(),
            ).push(session_id),
            _ => created_ids(actions.drop_last()),
        }
    }
}

/// How many errors a list of actions tells of.
pub open spec fn errors_told(actions: Seq<EngineAction>) -> nat
    decreases actions.len(),
{
    if actions.len() == 0 {
        0
    } else {
        errors_told(actions.drop_last()) + match actions.last() {
            EngineAction::Emit(EngineEvent::Error { .. }) => 1nat,
            _ => 0nat,
        }
    }
}

/// The first `n` identifiers.
pub open spec fn first_ids(n: nat) -> Seq<u64> {
    Seq::new(n, |i: int| (i + 1) as u64)
}

proof fn lemma_told_adds(a: Seq<EngineAction>, b: Seq<EngineAction>)
    ensures
        created_ids(a + b) == created_ids(a) + created_ids(b),
        errors_told(a + b) == errors_told(a) + errors_told(b),
    decreases b.len(),
{
    if b.len() == 0 {
        assert(a + b =~= a);
        assert(created_ids(a) + created_ids(b) =~= created_ids(a));
    } else {
        assert((a + b).drop_last() =~= a + b.drop_last());
        lemma_told_adds(a, b.drop_last());
        assert(created_ids(a + b) =~= created_ids(a) + created_ids(b));
    }
}

/// A list of actions without events tells of nothing.
proof fn lemma_silent_actions(actions: Seq<EngineAction>)
    requires
        forall|i: int|
            0 <= i < actions.len() ==> !(#[trigger] actions[i] matches EngineAction::Emit(event)
                && (event is SessionCreated || event is Error)),
    ensures
        created_ids(actions) == Seq::<u64>::empty(),
        errors_told(actions) == 0,
    decreases actions.len(),
{
    if actions.len() > 0 {
        let front = actions.drop_last();
        assert forall|i: int| 0 <= i < front.len() implies !(
        #[trigger] front[i] matches EngineAction::Emit(event) && (event is SessionCreated || event
            is Error)) by {
            assert(front[i] == actions[i]);
        }
        lemma_silent_actions(front);
        assert(!(actions[actions.len() - 1] matches EngineAction::Emit(event) && (event
            is SessionCreated || event is Error)));
    }
}

/// One step tells of the session that it creates, if any, and of its failure, if it is one.
proof fn lemma_step_told(e: EngineView, happening: EngineHappening)
    requires
        e.inv(),
        connections(seq![happening]) > 0 ==> e.next_session_id < u64::MAX,
    ensures
        engine_step(e, happening).0.inv(),
        engine_step(e, happening).0.sessions.len() == e.sessions.len() + connections(
            seq![happening],
        ),
        created_ids(engine_step(e, happening).1) == if connections(seq![happening]) > 0 {
            seq![e.next_session_id]
        } else {
            Seq::empty()
        },
        errors_told(engine_step(e, happening).1) == failures(seq![happening]),
{
    let one = seq![happening];
    assert(one.drop_last() =~= Seq::empty());
    assert(connections(one.drop_last()) == 0 && failures(one.drop_last()) == 0);
    let actions = engine_step(e, happening).1;
    match happening {
        EngineHappening::Connected(Ok(peer), send_request) => {
            let rest = match send_request {
                Some(req) => seq![
                    EngineAction::Forward {
                        session_id: e.next_session_id,
                        cmd: SessionCmd::Transfer { req },
                    },
                ],
                None => Seq::empty(),
            };
            let head = seq![e.spawn(Role::Client)];
            let told = seq![e.created(peer)];
            assert(actions =~= head + told + rest);
            lemma_silent_actions(head);
            lemma_silent_actions(rest);
            lemma_one_told(e.created(peer));
            lemma_told_adds(head, told);
            lemma_told_adds(head + told, rest);
            assert(created_ids(actions) =~= seq![e.next_session_id]);
        },
        EngineHappening::Accepted(Ok(peer)) => {
            let told = seq![e.created(peer)];
            let rest = seq![e.spawn(Role::Server)];
            assert(actions =~= told + rest);
            lemma_silent_actions(rest);
            lemma_one_told(e.created(peer));
            lemma_told_adds(told, rest);
            assert(created_ids(actions) =~= seq![e.next_session_id]);
        },
        EngineHappening::Bound(Err(message)) | EngineHappening::Connected(Err(message), _)
        | EngineHappening::Accepted(Err(message)) => {
            lemma_one_told(EngineAction::Emit(EngineEvent::Error { message }));
        },
        _ => {
            lemma_silent_actions(actions);
        },
    }
}

proof fn lemma_one_told(action: EngineAction)
    ensures
        created_ids(seq![action]) == match action {
            EngineAction::Emit(EngineEvent::SessionCreated { session_id, .. }) => seq![session_id],
            _ => Seq::empty(),
        },
        errors_told(seq![action]) == match action {
            EngineAction::Emit(EngineEvent::Error { .. }) => 1nat,
            _ => 0nat,
        },
{
    let one = seq![action];
    assert(one.drop_last() =~= Seq::empty());
    assert(created_ids(one.drop_last()) =~= Seq::empty());
    assert(errors_told(one.drop_last()) == 0);
    assert(one.last() == action);
}

/// Over a whole run of a new engine, whatever happens and in whatever order, the sessions
/// that are told of have the identifiers 1, 2, 3 and so on, one for each connection that was
/// made or accepted; and each failure to bind, to connect or to accept is told as one error
/// and uses up none.
pub proof fn law_session_ids_count_the_connections(
    config: EngineConfig,
    happenings: Seq<EngineHappening>,
)
    requires
        connections(happenings) < u64::MAX,
    ensures
        ({
            let (e, actions) = engine_run(EngineView::fresh(config), happenings);
            &&& created_ids(actions) == first_ids(connections(happenings))
            &&& errors_told(actions) == failures(happenings)
            &&& e.sessions == first_ids(connections(happenings))
            &&& e.inv()
        }),
    decreases happenings.len(),
{
    let start = EngineView::fresh(config);
    let (e, actions) = engine_run(start, happenings);
    if happenings.len() == 0 {
        assert(created_ids(actions) =~= first_ids(0));
        assert(e.sessions =~= first_ids(0));
    } else {
        let earlier = happenings.drop_last();
        let last = seq![happenings.last()];
        assert(last.drop_last() =~= Seq::empty());
        assert(last.last() == happenings.last());
        assert(connections(last.drop_last()) == 0 && failures(last.drop_last()) == 0);
        law_session_ids_count_the_connections(config, earlier);
        let before = engine_run(start, earlier);
        lemma_step_told(before.0, happenings.last());
        lemma_told_adds(before.1, engine_step(before.0, happenings.last()).1);
        assert(created_ids(actions) =~= first_ids(connections(happenings)));
        assert(e.sessions =~= first_ids(connections(happenings)));
    }
}

/// A command for a session that was never created does nothing at all.
pub proof fn law_unknown_session_is_passed_over(e: EngineView, session_id: u64, cmd: SessionCmd)
    requires
        e.inv(),
        session_id == 0 || session_id >= e.next_session_id,
    ensures
        e.on_command(EngineCmd::SessionCmd { session_id, cmd }) == (e, Seq::<EngineAction>::empty()),
{
}

/// A session that was created can be commanded from then on.
pub proof fn law_created_session_can_be_commanded(
    e: EngineView,
    peer: String,
    send_request: Option<SendRequest>,
    cmd: SessionCmd,
)
    requires
        e.next_session_id < u64::MAX,
    ensures
        ({
            let id = e.next_session_id;
            let forward = seq![EngineAction::Forward { session_id: id, cmd }];
            let to_session = EngineCmd::SessionCmd { session_id: id, cmd };
            &&& e.on_connected(Ok(peer), send_request).0.on_command(to_session).1 == forward
            &&& e.on_accepted(Ok(peer)).0.on_command(to_session).1 == forward
        }),
{
    assert(e.with_session().sessions[e.sessions.len() as int] == e.next_session_id);
}

/// Shutting down cancels every session, and stops the engine after that.
pub proof fn law_shutdown_cancels_every_session(e: EngineView, session_id: u64)
    requires
        e.sessions.contains(session_id),
    ensures
        e.on_command(EngineCmd::ShutDown).1.contains(
            EngineAction::Forward { session_id, cmd: SessionCmd::Cancel },
        ),
        e.on_command(EngineCmd::ShutDown).1.last() is Stop,
        !e.on_command(EngineCmd::ShutDown).0.running,
{
    let i = choose|i: int| 0 <= i < e.sessions.len() && e.sessions[i] == session_id;
    assert(e.on_command(EngineCmd::ShutDown).1[i] == (EngineAction::Forward {
        session_id,
        cmd: SessionCmd::Cancel,
    }));
}

/// Nothing but a shutdown stops the engine: neither a failure to bind, to connect or to
/// accept nor a command for a session that is not there.
pub proof fn law_failures_do_not_stop_the_engine(
    e: EngineView,
    cmd: EngineCmd,
    result: Result<String, String>,
    send_request: Option<SendRequest>,
)
    requires
        cmd !is ShutDown,
    ensures
        e.on_command(cmd).0.running == e.running,
        e.on_bound(result).0.running == e.running,
        e.on_connected(result, send_request).0.running == e.running,
        e.on_accepted(result).0.running == e.running,
        result is Err ==> e.on_bound(result).0 == e,
        result is Err ==> e.on_connected(result, send_request).0 == e,
        result is Err ==> e.on_accepted(result).0 == e,
{
}

// ── What comes of each happening ────────────────────────────────────

/// A new engine neither listens nor has sessions, and the first session will be number 1.
pub proof fn law_new_engine_is_idle(config: EngineConfig)
    ensures
        ({
            let e = EngineView::fresh(config);
            &&& e.running && !e.listening
            &&& e.sessions.len() == 0
            &&& e.next_session_id == 1
            &&& e.device_name == config.device_name
            &&& e.receive_dir == config.receive_dir
        }),
{
}

/// Whenever a connection is made, one session is made for it, as the client, with the engine's
/// own name and folder; it is none of the earlier ones, and it is told of with the peer that
/// was connected to. A file to send is handed to that very session, exactly once, and nothing
/// is handed to any other.
pub proof fn law_file_goes_to_the_session_made_for_it(
    e: EngineView,
    peer: String,
    send_request: Option<SendRequest>,
)
    requires
        e.inv(),
        e.next_session_id < u64::MAX,
    ensures
        ({
            let (after, actions) = e.on_connected(Ok(peer), send_request);
            &&& actions[0] matches EngineAction::Spawn { session_id, role, device_name, receive_dir }
            &&& role is Client
            &&& device_name == e.device_name
            &&& receive_dir == e.receive_dir
            &&& !e.sessions.contains(session_id)
            &&& after == (EngineView {
                sessions: e.sessions.push(session_id),
                next_session_id: after.next_session_id,
                ..e
            })
            &&& after.next_session_id > session_id
            &&& actions[1] == EngineAction::Emit(EngineEvent::SessionCreated { session_id, peer })
            &&& actions.skip(2) == match send_request {
                Some(req) => seq![
                    EngineAction::Forward { session_id, cmd: SessionCmd::Transfer { req } },
                ],
                None => Seq::empty(),
            }
        }),
{
    let (after, actions) = e.on_connected(Ok(peer), send_request);
    assert(actions.skip(2) =~= match send_request {
        Some(req) => seq![
            EngineAction::Forward {
                session_id: e.next_session_id,
                cmd: SessionCmd::Transfer { req },
            },
        ],
        None => Seq::empty(),
    });
}

/// Whenever a peer is accepted, one session is made for it, as the server, with the engine's
/// own name and folder; it is none of the earlier ones, and it is told of before it runs.
pub proof fn law_accepted_peer_gets_a_session(e: EngineView, peer: String)
    requires
        e.inv(),
        e.next_session_id < u64::MAX,
    ensures
        ({
            let (after, actions) = e.on_accepted(Ok(peer));
            &&& actions.len() == 2
            &&& actions[1] matches EngineAction::Spawn { session_id, role, device_name, receive_dir }
            &&& role is Server
            &&& device_name == e.device_name
            &&& receive_dir == e.receive_dir
            &&& !e.sessions.contains(session_id)
            &&& after == (EngineView {
                sessions: e.sessions.push(session_id),
                next_session_id: after.next_session_id,
                ..e
            })
            &&& after.next_session_id > session_id
            &&& actions[0] == EngineAction::Emit(EngineEvent::SessionCreated { session_id, peer })
        }),
{
}

/// A failure to bind, to connect or to accept is told in its own words, and changes nothing
/// else.
pub proof fn law_failure_is_told_in_its_words(
    e: EngineView,
    message: String,
    send_request: Option<SendRequest>,
)
    ensures
        ({
            let told = (e, seq![EngineAction::Emit(EngineEvent::Error { message })]);
            &&& e.on_bound(Err(message)) == told
            &&& e.on_connected(Err(message), send_request) == told
            &&& e.on_accepted(Err(message)) == told
        }),
{
}

/// Listening begins when binding succeeds, at the address that is told, and ends on command;
/// asking for it, or for a connection, changes nothing yet.
pub proof fn law_listening_begins_and_ends(
    e: EngineView,
    addr: String,
    send_request: Option<SendRequest>,
)
    ensures
        e.on_command(EngineCmd::StartAccepting { addr }) == (e, seq![EngineAction::Bind { addr }]),
        e.on_bound(Ok(addr)) == (
            EngineView { listening: true, ..e },
            seq![EngineAction::Emit(EngineEvent::Accepting { addr })],
        ),
        e.on_command(EngineCmd::StopAccepting) == (
            EngineView { listening: false, ..e },
            seq![EngineAction::CloseListener, EngineAction::Emit(EngineEvent::AcceptingStopped)],
        ),
        e.on_command(EngineCmd::Connect { addr, send_request }) == (
            e,
            seq![EngineAction::Connect { addr, send_request }],
        ),
{
}

/// A command for a session reaches that session, as it is, and no other; the engine stays as
/// it was.
pub proof fn law_command_reaches_its_session(e: EngineView, session_id: u64, cmd: SessionCmd)
    ensures
        e.on_command(EngineCmd::SessionCmd { session_id, cmd }).0 == e,
        e.sessions.contains(session_id) ==> e.on_command(
            EngineCmd::SessionCmd { session_id, cmd },
        ).1 == seq![EngineAction::Forward { session_id, cmd }],
        !e.sessions.contains(session_id) ==> e.on_command(
            EngineCmd::SessionCmd { session_id, cmd },
        ).1 == Seq::<EngineAction>::empty(),
{
}

/// Shutting down cancels every session once, oldest first, then stops the engine, and does
/// nothing else; so does an engine that nobody can command any more, but for the cancelling.
pub proof fn law_shutting_down_is_exact(e: EngineView)
    ensures
        ({
            let (after, actions) = e.on_command(EngineCmd::ShutDown);
            &&& actions.len() == e.sessions.len() + 1
            &&& forall|i: int|
                0 <= i < e.sessions.len() ==> #[trigger] actions[i] == (EngineAction::Forward {
                    session_id: e.sessions[i],
                    cmd: SessionCmd::Cancel,
                })
            &&& actions.last() is Stop
            &&& after == (EngineView { running: false, ..e })
        }),
        e.on_commands_closed() == (
            EngineView { running: false, ..e },
            seq![EngineAction::Stop],
        ),
{
}

} // verus!
