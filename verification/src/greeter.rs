use vstd::prelude::*;

verus! {

use crate::CoreUICommand;
use crate::UICoreCommand;
use crate::messages::GreeterMessage;
use vstd::string::StringExecFns;

/// Error from constructing or talking to the session backend.
#[derive(Debug, PartialEq, Eq)]
pub struct GreeterError(pub String);

/// Messages on the session controller's own inbound route: what the backend
/// adapter asks the controller to do next.
#[derive(Debug, PartialEq, Eq)]
pub enum CoreCommand {
    StartSession(Option<String>),
    SetError(String),
}

/// Kinds of out-of-band notifications from the session backend.
#[derive(Debug, Clone, Copy, PartialEq, Eq)]
pub enum MessageType {
    Info,
    Error,
}

/// Outcome of an authentication exchange with the session backend.
#[derive(Debug, PartialEq, Eq)]
pub enum AuthOutcome {
    Success,
    Failure(String),
}

/// A call the controller asks its surroundings to make on the session
/// backend, in the order given.
#[derive(Debug, PartialEq, Eq)]
pub enum BackendCall {
    /// Answer the backend's secret prompt with this password.
    RespondSecret(String),
    /// Begin authentication for this user.
    Authenticate(String),
    /// Start this session; `None` picks the default session.
    StartSession(Option<String>),
}

/// Where the controller stands: idle with a live backend connection, with an
/// authentication exchange in flight, or done — a session start was issued,
/// which is terminal for the controller.
#[derive(Debug, Clone, Copy, PartialEq, Eq, Structural)]
pub enum ControllerState {
    Connected,
    Authenticating,
    SessionStarting,
}

/// The session controller. It serializes all session-affecting actions:
/// login requests taken while an authentication exchange is in flight wait in
/// `pending` rather than being sent to the backend concurrently.
#[derive(Debug, PartialEq, Eq)]
pub struct Greeter {
    pub state: ControllerState,
    pub pending: Vec<(String, String)>,
}

/// Everything one controller step asks its surroundings to do: calls on the
/// session backend, and events for the interaction surface.
#[derive(Debug, PartialEq, Eq)]
pub struct ControllerEffects {
    pub calls: Vec<BackendCall>,
    pub events: Vec<CoreUICommand>,
}

/// The controller's mathematical state.
#[verifier::ext_equal]
pub struct GreeterView {
    pub state: ControllerState,
    pub pending: Seq<(String, String)>,
}

impl GreeterView {
    /// Login requests wait only while an authentication exchange is in
    /// flight.
    pub open spec fn wf(self) -> bool {
        self.state !is Authenticating ==> self.pending.len() == 0
    }
}

impl View for Greeter {
    type V = GreeterView;

    open spec fn view(&self) -> GreeterView {
        GreeterView { state: self.state, pending: self.pending@ }
    }
}

/// handleLogin: from idle, send the password to the prompt and begin
/// authentication; while an exchange is in flight, queue the request; once a
/// session start was issued, the controller's job is done and the request is
/// dropped.
pub open spec fn login_step(v: GreeterView, username: String, password: String) -> (
    GreeterView,
    Seq<BackendCall>,
) {
    match v.state {
        ControllerState::Connected => (
            GreeterView { state: ControllerState::Authenticating, ..v },
            seq![BackendCall::RespondSecret(password), BackendCall::Authenticate(username)],
        ),
        ControllerState::Authenticating => (
            GreeterView { pending: v.pending.push((username, password)), ..v },
            Seq::empty(),
        ),
        ControllerState::SessionStarting => (v, Seq::empty()),
    }
}

/// startSession (and handleCountdownExpired, which starts the default
/// session): unconditional, and terminal for the controller; waiting login
/// requests are dropped.
pub open spec fn start_session_step(v: GreeterView, session: Option<String>) -> (
    GreeterView,
    Seq<BackendCall>,
) {
    (
        GreeterView { state: ControllerState::SessionStarting, pending: Seq::empty() },
        seq![BackendCall::StartSession(session)],
    )
}

/// handleAuthOutcome: success starts the default session; failure reports the
/// reason to the interaction surface and, if a login request is waiting,
/// begins its exchange, else returns the controller to idle.
pub open spec fn auth_outcome_step(v: GreeterView, outcome: AuthOutcome) -> (
    GreeterView,
    Seq<BackendCall>,
    Seq<CoreUICommand>,
) {
    match outcome {
        AuthOutcome::Success => {
            let (v2, calls) = start_session_step(v, None);
            (v2, calls, Seq::empty())
        },
        AuthOutcome::Failure(reason) => {
            let events = seq![CoreUICommand::SetError(reason)];
            if v.state is Authenticating && v.pending.len() > 0 {
                (
                    GreeterView { pending: v.pending.drop_first(), ..v },
                    seq![
                        BackendCall::RespondSecret(v.pending[0].1),
                        BackendCall::Authenticate(v.pending[0].0),
                    ],
                    events,
                )
            } else if v.state is Authenticating {
                (GreeterView { state: ControllerState::Connected, ..v }, Seq::empty(), events)
            } else {
                (v, Seq::empty(), events)
            }
        },
    }
}

/// The dispatch of a message from the control plane or the countdown engine.
pub open spec fn greeter_message_step(v: GreeterView, msg: GreeterMessage) -> (
    GreeterView,
    Seq<BackendCall>,
) {
    match msg {
        GreeterMessage::LoginWithCreds(username, password) => login_step(v, username, password),
        GreeterMessage::Login() => start_session_step(v, None),
        GreeterMessage::StartSession(session) => start_session_step(v, session),
    }
}

/// The dispatch of a message on the controller's own route.
pub open spec fn core_command_step(v: GreeterView, cmd: CoreCommand) -> (
    GreeterView,
    Seq<BackendCall>,
    Seq<CoreUICommand>,
) {
    match cmd {
        CoreCommand::StartSession(session) => {
            let (v2, calls) = start_session_step(v, session);
            (v2, calls, Seq::empty())
        },
        CoreCommand::SetError(error) => (v, Seq::empty(), seq![CoreUICommand::SetError(error)]),
    }
}

/// The backend's message notifications: only errors reach the controller's
/// route; informational messages are only logged.
pub fn on_message(message: String, kind: MessageType) -> (r: Option<CoreCommand>)
    ensures
        kind is Error ==> r == Some(CoreCommand::SetError(message)),
        kind is Info ==> r is None,
{
    match kind {
        MessageType::Error => Some(CoreCommand::SetError(message)),
        MessageType::Info => None,
    }
}

/// handleBackendError: the user-visible report for a failed backend call,
/// naming the call and the backend's own words. Backend errors after
/// startup are reported this way, never fatal and never retried.
pub fn backend_error_event(context: &str, message: &str) -> (r: CoreUICommand)
    ensures
        r matches CoreUICommand::SetError(m) && m@ == context@ + " failed: "@ + message@,
{
    let mut text = context.to_string();
    text.append(" failed: ");
    text.append(message);
    CoreUICommand::SetError(text)
}

/// The backend's authentication-complete notification, as the outcome it
/// stands for: the backend reports only success or failure, so a failure
/// carries a fixed reason.
pub fn on_authentication_complete(success: bool) -> (r: AuthOutcome)
    ensures
        success ==> r == AuthOutcome::Success,
        !success ==> (r matches AuthOutcome::Failure(m) && m@ == "Authentication failed"@),
{
    if success {
        AuthOutcome::Success
    } else {
        AuthOutcome::Failure("Authentication failed".to_string())
    }
}

impl Greeter {
    /// A controller over a freshly connected backend. Connecting is the
    /// backend's business; its result decides: the controller cannot exist
    /// without a live connection, so a connection error is handed back.
    pub fn new(connect_result: Result<(), GreeterError>) -> (r: Result<Greeter, GreeterError>)
        ensures
            connect_result is Ok ==> (r matches Ok(g) && g@ == (GreeterView {
                state: ControllerState::Connected,
                pending: Seq::empty(),
            })),
            connect_result matches Err(e) ==> r == Err::<Greeter, GreeterError>(e),
    {
        match connect_result {
            Ok(()) => {
                let g = Greeter { state: ControllerState::Connected, pending: Vec::new() };
                proof {
                    assert(g@ =~= (GreeterView {
                        state: ControllerState::Connected,
                        pending: Seq::empty(),
                    }));
                }
                Ok(g)
            },
            Err(e) => Err(e),
        }
    }

    /// handleLogin.
    pub fn authenticate(&mut self, username: String, password: String) -> (effects:
        ControllerEffects)
        requires
            old(self)@.wf(),
        ensures
            final(self)@.wf(),
            ({
                let (v2, calls) = login_step(old(self)@, username, password);
                &&& final(self)@ == v2
                &&& effects.calls@ == calls
                &&& effects.events@.len() == 0
            }),
    {
        let ghost v = self@;
        let effects = match self.state {
            ControllerState::Connected => {
                self.state = ControllerState::Authenticating;
                let mut calls: Vec<BackendCall> = Vec::new();
                calls.push(BackendCall::RespondSecret(password));
                calls.push(BackendCall::Authenticate(username));
                ControllerEffects { calls, events: Vec::new() }
            },
            ControllerState::Authenticating => {
                self.pending.push((username, password));
                ControllerEffects { calls: Vec::new(), events: Vec::new() }
            },
            ControllerState::SessionStarting => ControllerEffects {
                calls: Vec::new(),
                events: Vec::new(),
            },
        };
        proof {
            assert(self@ =~= login_step(v, username, password).0);
            assert(effects.calls@ =~= login_step(v, username, password).1);
        }
        effects
    }

    /// startSession: issue the start call; the controller's job is done.
    pub fn start_session(&mut self, session: Option<String>) -> (effects: ControllerEffects)
        ensures
            final(self)@.wf(),
            ({
                let (v2, calls) = start_session_step(old(self)@, session);
                &&& final(self)@ == v2
                &&& effects.calls@ == calls
                &&& effects.events@.len() == 0
            }),
    {
        let ghost v = self@;
        self.state = ControllerState::SessionStarting;
        self.pending = Vec::new();
        let mut calls: Vec<BackendCall> = Vec::new();
        calls.push(BackendCall::StartSession(session));
        let effects = ControllerEffects { calls, events: Vec::new() };
        proof {
            assert(self@ =~= start_session_step(v, session).0);
            assert(effects.calls@ =~= start_session_step(v, session).1);
        }
        effects
    }

    /// handleCountdownExpired: the auto-login path, which bypasses
    /// authentication and starts the default session.
    pub fn handle_countdown_expired(&mut self) -> (effects: ControllerEffects)
        ensures
            final(self)@.wf(),
            ({
                let (v2, calls) = start_session_step(old(self)@, None);
                &&& final(self)@ == v2
                &&& effects.calls@ == calls
                &&& effects.events@.len() == 0
            }),
    {
        self.start_session(None)
    }

    /// handleAuthOutcome.
    pub fn handle_auth_outcome(&mut self, outcome: AuthOutcome) -> (effects: ControllerEffects)
        requires
            old(self)@.wf(),
        ensures
            final(self)@.wf(),
            ({
                let (v2, calls, events) = auth_outcome_step(old(self)@, outcome);
                &&& final(self)@ == v2
                &&& effects.calls@ == calls
                &&& effects.events@ == events
            }),
    {
        let ghost v = self@;
        let ghost step = auth_outcome_step(v, outcome);
        let effects = match outcome {
            AuthOutcome::Success => self.start_session(None),
            AuthOutcome::Failure(reason) => {
                let mut events: Vec<CoreUICommand> = Vec::new();
                events.push(CoreUICommand::SetError(reason));
                let mut calls: Vec<BackendCall> = Vec::new();
                match self.state {
                    ControllerState::Authenticating => {
                        if self.pending.len() > 0 {
                            let (username, password) = self.pending.remove(0);
                            calls.push(BackendCall::RespondSecret(password));
                            calls.push(BackendCall::Authenticate(username));
                        } else {
                            self.state = ControllerState::Connected;
                        }
                    },
                    _ => {},
                }
                ControllerEffects { calls, events }
            },
        };
        proof {
            assert(self@ =~= step.0);
            assert(effects.calls@ =~= step.1);
            assert(effects.events@ =~= step.2);
        }
        effects
    }

    /// The controller's half of the core loop: dispatch one message from the
    /// control plane or the countdown engine.
    pub fn handle_greeter_message(&mut self, msg: GreeterMessage) -> (effects: ControllerEffects)
        requires
            old(self)@.wf(),
        ensures
            final(self)@.wf(),
            ({
                let (v2, calls) = greeter_message_step(old(self)@, msg);
                &&& final(self)@ == v2
                &&& effects.calls@ == calls
                &&& effects.events@.len() == 0
            }),
    {
        match msg {
            GreeterMessage::LoginWithCreds(username, password) => self.authenticate(
                username,
                password,
            ),
            GreeterMessage::Login() => self.start_session(None),
            GreeterMessage::StartSession(session) => self.start_session(session),
        }
    }

    /// Dispatch one command from the interaction surface.
    pub fn handle_ui_command(&mut self, cmd: UICoreCommand) -> (effects: ControllerEffects)
        requires
            old(self)@.wf(),
        ensures
            final(self)@.wf(),
            ({
                let (v2, calls) = match cmd {
                    UICoreCommand::Login(username, password) => login_step(
                        old(self)@,
                        username,
                        password,
                    ),
                };
                &&& final(self)@ == v2
                &&& effects.calls@ == calls
                &&& effects.events@.len() == 0
            }),
    {
        match cmd {
            UICoreCommand::Login(username, password) => self.authenticate(username, password),
        }
    }

    /// Dispatch one message from the controller's own route.
    pub fn handle_core_command(&mut self, cmd: CoreCommand) -> (effects: ControllerEffects)
        requires
            old(self)@.wf(),
        ensures
            final(self)@.wf(),
            ({
                let (v2, calls, events) = core_command_step(old(self)@, cmd);
                &&& final(self)@ == v2
                &&& effects.calls@ == calls
                &&& effects.events@ == events
            }),
    {
        let ghost v = self@;
        let ghost step = core_command_step(v, cmd);
        let effects = match cmd {
            CoreCommand::StartSession(session) => self.start_session(session),
            CoreCommand::SetError(error) => {
                let mut events: Vec<CoreUICommand> = Vec::new();
                events.push(CoreUICommand::SetError(error));
                ControllerEffects { calls: Vec::new(), events }
            },
        };
        proof {
            assert(self@ =~= step.0);
            assert(effects.calls@ =~= step.1);
            assert(effects.events@ =~= step.2);
        }
        effects
    }
}

/// How many of the calls in a step's output start a session.
pub open spec fn start_session_calls(calls: Seq<BackendCall>) -> nat
    decreases calls.len(),
{
    if calls.len() == 0 {
        0
    } else {
        (if calls[0] is StartSession {
            1nat
        } else {
            0nat
        }) + start_session_calls(calls.drop_first())
    }
}

/// How many of the events in a step's output report an error.
pub open spec fn set_error_events(events: Seq<CoreUICommand>) -> nat
    decreases events.len(),
{
    if events.len() == 0 {
        0
    } else {
        (if events[0] is SetError {
            1nat
        } else {
            0nat
        }) + set_error_events(events.drop_first())
    }
}

/// Law: one login request, taken when the controller is idle, leads — once
/// the backend reports — to exactly one start-session call and no error event
/// on success, and to exactly one error event and no start-session call on
/// failure.
pub proof fn lemma_login_request_outcome(
    v: GreeterView,
    username: String,
    password: String,
    outcome: AuthOutcome,
)
    requires
        v.wf(),
        v.state is Connected,
    ensures
        ({
            let (v1, calls1) = login_step(v, username, password);
            let (v2, calls2, events2) = auth_outcome_step(v1, outcome);
            &&& start_session_calls(calls1) == 0
            &&& outcome is Success ==> start_session_calls(calls2) == 1 && events2.len() == 0
                && v2.state is SessionStarting
            &&& outcome is Failure ==> start_session_calls(calls2) == 0 && events2
                =~= seq![CoreUICommand::SetError(outcome->0)] && v2.state is Connected
        }),
{
    let (v1, calls1) = login_step(v, username, password);
    let (v2, calls2, events2) = auth_outcome_step(v1, outcome);
    assert(start_session_calls(calls1.drop_first().drop_first()) == 0);
    assert(start_session_calls(calls1.drop_first()) == 0);
    match outcome {
        AuthOutcome::Success => {
            assert(start_session_calls(calls2.drop_first()) == 0);
        },
        AuthOutcome::Failure(_) => {
            assert(v1.pending.len() == 0);
        },
    }
}

/// Law: a countdown expiry and a successful authentication may race to start
/// the session; in whichever order the controller takes them, it ends in the
/// same terminal state, still well formed, and each of the two steps issues
/// exactly one start-session call for the default session — the double call
/// is tolerated by design, never an invalid state.
pub proof fn lemma_start_race_tolerated(v: GreeterView)
    requires
        v.wf(),
    ensures
        ({
            let (va1, ca1) = start_session_step(v, None);  // expiry first
            let (va2, ca2, ea2) = auth_outcome_step(va1, AuthOutcome::Success);
            let (vb1, cb1, eb1) = auth_outcome_step(v, AuthOutcome::Success);  // login first
            let (vb2, cb2) = start_session_step(vb1, None);
            &&& va2 == vb2
            &&& va2.state is SessionStarting
            &&& va2.wf()
            &&& ca1 =~= seq![BackendCall::StartSession(None)]
            &&& ca2 =~= seq![BackendCall::StartSession(None)]
            &&& cb1 =~= seq![BackendCall::StartSession(None)]
            &&& cb2 =~= seq![BackendCall::StartSession(None)]
            &&& ea2.len() == 0 && eb1.len() == 0
        }),
{
    let (va1, ca1) = start_session_step(v, None);
    let (va2, ca2, ea2) = auth_outcome_step(va1, AuthOutcome::Success);
    let (vb1, cb1, eb1) = auth_outcome_step(v, AuthOutcome::Success);
    let (vb2, cb2) = start_session_step(vb1, None);
    assert(va2 =~= vb2);
}

} // verus!
