//! The agent lifecycle supervisor.
//!
//! The supervisor is a state machine from a state and an event to the next
//! state and an action. It performs nothing itself: the caller carries out
//! each action (a connection attempt, a look at the file system, a spawn, a
//! kill) and reports its outcome as the next event.
//!
//! ```text
//! Idle -> Probing -> AlreadyRunning
//!                 -> Locating -> NotFound
//!                             -> Spawning -> SpawnFailed
//!                                         -> Running -> Terminating -> Terminated
//! ```
//!
//! An event that a state does not expect is ignored: the state stays and no
//! action is asked for.

use crate::locator::{entry_file, entry_path, joined, locate, located, Candidates, CandidatesView};
use crate::token::SessionToken;
use vstd::prelude::*;
use vstd::string::*;

verus! {

/// The port on which a running agent listens on the local host.
pub const PROBE_PORT: u16 = 4301;

/// The address of the local host, where a running agent is probed for.
pub open spec fn probe_host() -> Seq<char> {
    "127.0.0.1"@
}

/// Where a launch stands.
#[derive(Clone, Copy, Debug, PartialEq, Eq, Structural)]
pub enum State {
    /// Nothing has happened yet.
    Idle,
    /// The local endpoint is being probed for a running agent.
    Probing,
    /// An agent answered the probe; it is someone else's to manage.
    AlreadyRunning,
    /// The candidate directories are being examined.
    Locating,
    /// No candidate holds the entry file.
    NotFound,
    /// The agent process is being started.
    Spawning,
    /// The operating system refused to start the agent.
    SpawnFailed,
    /// The agent runs, and its handle is held.
    Running,
    /// The agent is being killed.
    Terminating,
    /// The agent was killed, as far as that could be done.
    Terminated,
}

/// What the caller reports to the supervisor.
#[derive(Clone, Copy, Debug, PartialEq, Eq, Structural)]
pub enum Event {
    /// The application is being set up.
    Setup,
    /// The connection attempt ended; any failure counts as not connected.
    ProbeFinished { connected: bool },
    /// The entry files were looked for: under the bundled directory (the
    /// answer is ignored where there is none) and under the installation
    /// directory.
    EntriesChecked { bundled: bool, installed: bool },
    /// The spawn attempt ended.
    SpawnFinished { started: bool },
    /// The host window was destroyed.
    WindowDestroyed,
    /// The kill attempt ended; whether the signal was delivered changes
    /// nothing.
    KillFinished { delivered: bool },
}

/// How to start the agent process.
#[derive(Debug, PartialEq, Eq)]
pub struct SpawnPlan {
    /// The program to run.
    pub program: String,
    /// Its arguments.
    pub args: Vec<String>,
    /// The directory to run it in.
    pub working_dir: String,
    /// The variables to add to its environment, as name and value.
    pub env: Vec<(String, String)>,
}

/// The mathematical content of [`SpawnPlan`].
pub struct SpawnPlanView {
    pub program: Seq<char>,
    pub args: Seq<Seq<char>>,
    pub working_dir: Seq<char>,
    pub env: Seq<(Seq<char>, Seq<char>)>,
}

impl View for SpawnPlan {
    type V = SpawnPlanView;

    open spec fn view(&self) -> SpawnPlanView {
        SpawnPlanView {
            program: self.program@,
            args: self.args.deep_view(),
            working_dir: self.working_dir@,
            env: self.env.deep_view(),
        }
    }
}

/// The plan for an agent in the directory `dir` under the session token
/// `token`: `node dist/index.js`, run in `dir`, in all-in-one mode, with the
/// token as credential for inference requests and for administrative ones.
pub open spec fn spawn_plan(dir: Seq<char>, token: Seq<char>) -> SpawnPlanView {
    SpawnPlanView {
        program: "node"@,
        args: seq![entry_file()],
        working_dir: dir,
        env: seq![
            ("EDGE_RUNTIME_MODE"@, "all-in-one"@),
            ("INFERENCE_AUTH_TOKEN"@, token),
            ("ADMIN_API_TOKEN"@, token),
        ],
    }
}

/// What the supervisor asks the caller to do.
#[derive(Debug, PartialEq, Eq)]
pub enum Action {
    /// Nothing is to be done.
    Nothing,
    /// Try to connect to `host` on `port`, close the connection at once,
    /// and report [`Event::ProbeFinished`].
    Probe { host: String, port: u16 },
    /// Look whether these files exist, and report
    /// [`Event::EntriesChecked`].
    CheckEntries { bundled: Option<String>, installed: String },
    /// Start the agent, keep its handle, and report
    /// [`Event::SpawnFinished`].
    Spawn(SpawnPlan),
    /// Kill the agent by force, give up its handle, and report
    /// [`Event::KillFinished`].
    Kill,
}

/// The mathematical content of [`Action`].
pub enum ActionView {
    Nothing,
    Probe { host: Seq<char>, port: u16 },
    CheckEntries { bundled: Option<Seq<char>>, installed: Seq<char> },
    Spawn(SpawnPlanView),
    Kill,
}

impl View for Action {
    type V = ActionView;

    open spec fn view(&self) -> ActionView {
        match self {
            Action::Nothing => ActionView::Nothing,
            Action::Probe { host, port } => ActionView::Probe { host: host@, port: *port },
            Action::CheckEntries { bundled, installed } => ActionView::CheckEntries {
                bundled: bundled.deep_view(),
                installed: installed@,
            },
            Action::Spawn(plan) => ActionView::Spawn(plan@),
            Action::Kill => ActionView::Kill,
        }
    }
}

/// What a launch is given and keeps: its session token and the directories
/// it looks in.
pub struct Context {
    pub token: Seq<char>,
    pub candidates: CandidatesView,
}

/// The files to look for: the entry file under each candidate.
pub open spec fn entry_checks(c: CandidatesView) -> ActionView {
    ActionView::CheckEntries {
        bundled: match c.bundled {
            Some(dir) => Some(joined(dir, entry_file())),
            None => None,
        },
        installed: joined(c.installed, entry_file()),
    }
}

/// The supervisor's transition: the state that follows `state` on `event`,
/// and the action that the caller is asked for.
pub open spec fn transition(ctx: Context, state: State, event: Event) -> (State, ActionView) {
    match (state, event) {
        (State::Idle, Event::Setup) => (
            State::Probing,
            ActionView::Probe { host: probe_host(), port: PROBE_PORT },
        ),
        (State::Probing, Event::ProbeFinished { connected }) => if connected {
            (State::AlreadyRunning, ActionView::Nothing)
        } else {
            (State::Locating, entry_checks(ctx.candidates))
        },
        (State::Locating, Event::EntriesChecked { bundled, installed }) => match located(
            ctx.candidates,
            bundled,
            installed,
        ) {
            Some(location) => (
                State::Spawning,
                ActionView::Spawn(spawn_plan(location.dir, ctx.token)),
            ),
            None => (State::NotFound, ActionView::Nothing),
        },
        (State::Spawning, Event::SpawnFinished { started }) => if started {
            (State::Running, ActionView::Nothing)
        } else {
            (State::SpawnFailed, ActionView::Nothing)
        },
        (State::Running, Event::WindowDestroyed) => (State::Terminating, ActionView::Kill),
        (State::Terminating, Event::KillFinished { .. }) => (
            State::Terminated,
            ActionView::Nothing,
        ),
        _ => (state, ActionView::Nothing),
    }
}

/// Whether the handle of a live agent is held in `state`.
pub open spec fn holds_agent(state: State) -> bool {
    state is Running
}

/// The supervisor of one launch.
pub struct Supervisor {
    state: State,
    token: SessionToken,
    candidates: Candidates,
}

impl Supervisor {
    /// The state the launch is in.
    pub closed spec fn state(&self) -> State {
        self.state
    }

    /// The token and the candidates of the launch.
    pub closed spec fn context(&self) -> Context {
        Context { token: self.token@, candidates: self.candidates@ }
    }

    /// The supervisor of a new launch, under `token`, that looks for the
    /// agent in `candidates`.
    pub fn new(token: SessionToken, candidates: Candidates) -> (supervisor: Supervisor)
        ensures
            supervisor.state() == State::Idle,
            supervisor.context() == (Context { token: token@, candidates: candidates@ }),
    {
        Supervisor { state: State::Idle, token, candidates }
    }

    /// The state the launch is in.
    pub fn current_state(&self) -> (state: State)
        ensures
            state == self.state(),
    {
        self.state
    }

    /// Whether the handle of a live agent is held.
    pub fn has_agent(&self) -> (held: bool)
        ensures
            held == holds_agent(self.state()),
    {
        match self.state {
            State::Running => true,
            _ => false,
        }
    }

    /// The session token of the launch: the one that the agent is given.
    pub fn local_token(&self) -> (text: String)
        ensures
            text@ == self.context().token,
    {
        self.token.to_text()
    }

    /// Takes `event` in: moves to the next state and returns the action
    /// that the caller is to carry out. The token and the candidates stay
    /// as they are.
    pub fn step(&mut self, event: Event) -> (action: Action)
        ensures
            final(self).context() == old(self).context(),
            (final(self).state(), action@) == transition(
                old(self).context(),
                old(self).state(),
                event,
            ),
    {
        match (self.state, event) {
            (State::Idle, Event::Setup) => {
                self.state = State::Probing;
                Action::Probe { host: String::from_str("127.0.0.1"), port: PROBE_PORT }
            },
            (State::Probing, Event::ProbeFinished { connected }) => {
                if connected {
                    self.state = State::AlreadyRunning;
                    Action::Nothing
                } else {
                    self.state = State::Locating;
                    let bundled = match &self.candidates.bundled {
                        Some(dir) => Some(entry_path(dir.as_str())),
                        None => None,
                    };
                    let installed = entry_path(self.candidates.installed.as_str());
                    Action::CheckEntries { bundled, installed }
                }
            },
            (State::Locating, Event::EntriesChecked { bundled, installed }) => {
                match locate(&self.candidates, bundled, installed) {
                    Some(location) => {
                        self.state = State::Spawning;
                        Action::Spawn(plan_spawn(location.dir, &self.token))
                    },
                    None => {
                        self.state = State::NotFound;
                        Action::Nothing
                    },
                }
            },
            (State::Spawning, Event::SpawnFinished { started }) => {
                if started {
                    self.state = State::Running;
                } else {
                    self.state = State::SpawnFailed;
                }
                Action::Nothing
            },
            (State::Running, Event::WindowDestroyed) => {
                self.state = State::Terminating;
                Action::Kill
            },
            (State::Terminating, Event::KillFinished { .. }) => {
                self.state = State::Terminated;
                Action::Nothing
            },
            _ => Action::Nothing,
        }
    }
}

/// The plan to start the agent in `dir` under `token`.
pub fn plan_spawn(dir: String, token: &SessionToken) -> (plan: SpawnPlan)
    ensures
        plan@ == spawn_plan(dir@, token@),
{
    let mut args: Vec<String> = Vec::new();
    args.push(String::from_str("dist/index.js"));
    let mut env: Vec<(String, String)> = Vec::new();
    env.push((String::from_str("EDGE_RUNTIME_MODE"), String::from_str("all-in-one")));
    env.push((String::from_str("INFERENCE_AUTH_TOKEN"), token.to_text()));
    env.push((String::from_str("ADMIN_API_TOKEN"), token.to_text()));
    let plan = SpawnPlan { program: String::from_str("node"), args, working_dir: dir, env };
    assert(plan@.args =~= spawn_plan(dir@, token@).args);
    assert(plan@.env =~= spawn_plan(dir@, token@).env);
    plan
}

} // verus!
