//! Life of the backend process: not started, running, stopped for good.
//!
//! The supervisor decides; the caller creates files and processes and
//! reports back what came of it. A start goes through `start_backend`,
//! `token_file_written` and `spawn_finished`, a shutdown through
//! `stop_backend`, all of them under the caller's one lock.

use vstd::prelude::*;
use vstd::string::*;
use crate::secret::{get_api_token, is_token, RandomSourceError, TokenCell};
use crate::text::option_text;
use crate::token_file::{
    is_token_file_name, write_token_file, TokenFileRequest, TOKEN_FILE_VARIABLE,
};

verus! {

/// Name under which the backend executable is bundled.
pub const SIDECAR_NAME: &'static str = "aicap-backend";

/// Milliseconds that a running backend is given to close its listeners
/// before it is terminated.
pub const STOP_GRACE_MILLIS: u64 = 100;

/// Where the backend process stands.
#[derive(Clone, Copy, Debug, PartialEq, Eq, Structural)]
pub enum Phase {
    /// No backend was started by this process, or none could be.
    NotStarted,
    /// The backend that this process started is alive.
    Running,
    /// The backend was stopped. There is no way back.
    Stopped,
}

/// The supervisor as the contracts see it.
pub struct SupervisorState {
    pub phase: Phase,
    /// Path of the token file that is on disk for the backend, if any.
    pub token_file: Option<Seq<char>>,
}

impl SupervisorState {
    /// Before anything happened.
    pub open spec fn initial() -> SupervisorState {
        SupervisorState { phase: Phase::NotStarted, token_file: None }
    }

    /// A running backend has its token file, a stopped one has none.
    pub open spec fn consistent(self) -> bool {
        &&& self.phase == Phase::Running ==> self.token_file is Some
        &&& self.phase == Phase::Stopped ==> self.token_file is None
    }

    /// A start has work to do: nothing runs, nothing ran, nothing is under
    /// way.
    pub open spec fn ready_to_start(self) -> bool {
        self.phase == Phase::NotStarted && self.token_file is None
    }

    /// The token file is written and the spawn has not reported back.
    pub open spec fn awaiting_spawn(self) -> bool {
        self.phase == Phase::NotStarted && self.token_file is Some
    }

    /// The state once a token file was written at `path`.
    pub open spec fn file_written(self, path: Seq<char>) -> SupervisorState {
        if self.ready_to_start() {
            SupervisorState { token_file: Some(path), ..self }
        } else {
            self
        }
    }

    /// The state once the spawn reported `outcome`.
    pub open spec fn spawn_reported(self, outcome: SpawnOutcome) -> SupervisorState {
        if !self.awaiting_spawn() {
            self
        } else if outcome == SpawnOutcome::Spawned {
            SupervisorState { phase: Phase::Running, ..self }
        } else {
            SupervisorState { token_file: None, ..self }
        }
    }

    /// Whether a stop finds a backend to terminate.
    pub open spec fn terminated_by_stop(self) -> bool {
        self.phase == Phase::Running
    }

    /// The token file that a stop finds to remove, if any.
    pub open spec fn removed_by_stop(self) -> Option<Seq<char>> {
        self.token_file
    }

    /// The state once a stop was asked for.
    pub open spec fn stopped(self) -> SupervisorState {
        SupervisorState {
            phase: if self.phase == Phase::NotStarted {
                Phase::NotStarted
            } else {
                Phase::Stopped
            },
            token_file: None,
        }
    }
}

/// What became of the attempt to spawn the backend.
#[derive(Clone, Copy, Debug, PartialEq, Eq, Structural)]
pub enum SpawnOutcome {
    /// The backend process exists.
    Spawned,
    /// The backend executable was not found, as in a development tree.
    SidecarMissing,
    /// The executable was found and could not be started.
    SpawnFailed,
}

/// What a call of `start_backend` leaves the caller to do.
pub enum StartStep {
    /// Nothing: the backend runs already, was stopped for good, or is being
    /// started.
    Nothing,
    /// Create this token file, then report with `token_file_written`.
    Deliver(TokenFileRequest),
}

/// How to spawn the backend so that it finds its token.
pub struct SpawnRequest {
    /// Name of the bundled executable.
    pub sidecar: String,
    /// Name of the environment variable to set on the child.
    pub variable: String,
    /// Value of that variable: the path of the token file.
    pub token_file: String,
}

/// What a call of `token_file_written` leaves the caller to do.
pub enum DeliveryStep {
    /// Spawn the backend, then report with `spawn_finished`.
    Spawn(SpawnRequest),
    /// No start was waiting for this file: remove it.
    Discard(String),
}

/// What a call of `spawn_finished` leaves the caller to do.
pub enum SpawnStep {
    /// Keep the child: it is the running backend now.
    Supervise,
    /// Go on without a backend, and remove this token file if there is one.
    Degrade(Option<String>),
    /// No start was waiting for this report. A child that came with it is
    /// not the backend of this supervisor.
    Ignore,
}

/// What a call of `stop_backend` leaves the caller to do, in this order.
pub struct StopPlan {
    /// Whether there is a child to terminate, after `grace_millis`.
    pub terminate: bool,
    /// How long to wait before terminating the child.
    pub grace_millis: u64,
    /// Token file to remove, if any. A failure to remove it is of no
    /// consequence.
    pub remove: Option<String>,
}

/// Owner of the backend's phase and of the path of its token file.
pub struct Supervisor {
    phase: Phase,
    token_file: Option<String>,
}

impl View for Supervisor {
    type V = SupervisorState;

    closed spec fn view(&self) -> SupervisorState {
        SupervisorState { phase: self.phase, token_file: option_text(self.token_file) }
    }
}

impl Supervisor {
    #[verifier::type_invariant]
    spec fn is_consistent(self) -> bool {
        self@.consistent()
    }

    /// A supervisor that has started nothing yet.
    pub fn new() -> (supervisor: Supervisor)
        ensures
            supervisor@ == SupervisorState::initial(),
    {
        Supervisor { phase: Phase::NotStarted, token_file: None }
    }

    /// Where the backend stands.
    pub fn phase(&self) -> (phase: Phase)
        ensures
            phase == self@.phase,
            self@.consistent(),
    {
        proof {
            use_type_invariant(self);
        }
        self.phase
    }

    /// Path of the token file that is on disk for the backend, if any.
    pub fn token_file(&self) -> (path: Option<String>)
        ensures
            option_text(path) == self@.token_file,
            self@.consistent(),
    {
        proof {
            use_type_invariant(self);
        }
        self.token_file.clone()
    }

    /// Forgets the token file and hands its path out for removal, leaving
    /// the supervisor in `phase`. A second call finds nothing to hand out.
    fn cleanup_token_file(&mut self, phase: Phase) -> (remove: Option<String>)
        requires
            phase != Phase::Running,
        ensures
            option_text(remove) == old(self)@.token_file,
            final(self)@ == (SupervisorState { phase, token_file: None }),
    {
        let mut previous = Supervisor { phase, token_file: None };
        core::mem::swap(self, &mut previous);
        previous.token_file
    }

    /// Begins a start. While the backend runs this is a success with
    /// nothing to do; so it is after a stop. Otherwise the token of this
    /// process is to be delivered in a fresh file.
    pub fn start_backend(&self, cell: &mut TokenCell) -> (step: Result<
        StartStep,
        RandomSourceError,
    >)
        ensures
            !self@.ready_to_start() ==> step matches Ok(StartStep::Nothing),
            !self@.ready_to_start() ==> final(cell)@ == old(cell)@,
            self@.ready_to_start() ==> !(step matches Ok(StartStep::Nothing)),
            step matches Ok(StartStep::Deliver(request)) ==> {
                &&& is_token(request.contents@)
                &&& final(cell)@ == Some(request.contents@)
                &&& request.delivers(request.contents@)
                &&& is_token_file_name(request.file_name@)
            },
            old(cell)@ is Some ==> final(cell)@ == old(cell)@,
    {
        match (self.phase, &self.token_file) {
            (Phase::NotStarted, None) => {
                let token = get_api_token(cell)?;
                let request = write_token_file(token.as_str())?;
                Ok(StartStep::Deliver(request))
            },
            _ => Ok(StartStep::Nothing),
        }
    }

    /// Takes note that the token file was created at `path`.
    pub fn token_file_written(&mut self, path: String) -> (step: DeliveryStep)
        ensures
            final(self)@ == old(self)@.file_written(path@),
            step matches DeliveryStep::Spawn(request) ==> {
                &&& old(self)@.ready_to_start()
                &&& request.sidecar@ == SIDECAR_NAME@
                &&& request.variable@ == TOKEN_FILE_VARIABLE@
                &&& request.token_file@ == path@
            },
            step matches DeliveryStep::Discard(stray) ==> {
                &&& !old(self)@.ready_to_start()
                &&& stray@ == path@
            },
    {
        proof {
            use_type_invariant(&*self);
        }
        let ready = match (self.phase, &self.token_file) {
            (Phase::NotStarted, None) => true,
            _ => false,
        };
        if ready {
            self.token_file = Some(path.clone());
            DeliveryStep::Spawn(
                SpawnRequest {
                    sidecar: String::from_str(SIDECAR_NAME),
                    variable: String::from_str(TOKEN_FILE_VARIABLE),
                    token_file: path,
                },
            )
        } else {
            DeliveryStep::Discard(path)
        }
    }

    /// Takes note of what became of the spawn. A backend that could not be
    /// spawned is no failure of the start: the token file goes, and the
    /// application carries on until a backend answers its health probe.
    pub fn spawn_finished(&mut self, outcome: SpawnOutcome) -> (step: SpawnStep)
        ensures
            final(self)@ == old(self)@.spawn_reported(outcome),
            step is Ignore <==> !old(self)@.awaiting_spawn(),
            step is Supervise <==> old(self)@.awaiting_spawn() && outcome == SpawnOutcome::Spawned,
            step matches SpawnStep::Degrade(remove) ==> option_text(remove) == old(
                self,
            )@.token_file,
    {
        proof {
            use_type_invariant(&*self);
        }
        let awaiting = match (self.phase, &self.token_file) {
            (Phase::NotStarted, Some(_)) => true,
            _ => false,
        };
        if !awaiting {
            SpawnStep::Ignore
        } else {
            match outcome {
                SpawnOutcome::Spawned => {
                    self.phase = Phase::Running;
                    SpawnStep::Supervise
                },
                _ => SpawnStep::Degrade(self.cleanup_token_file(Phase::NotStarted)),
            }
        }
    }

    /// Shuts down. A running backend is to be terminated after the grace
    /// period, and in every case the token file goes. Safe at any time,
    /// any number of times.
    pub fn stop_backend(&mut self) -> (plan: StopPlan)
        ensures
            final(self)@ == old(self)@.stopped(),
            plan.terminate == old(self)@.terminated_by_stop(),
            plan.grace_millis == STOP_GRACE_MILLIS,
            option_text(plan.remove) == old(self)@.removed_by_stop(),
    {
        proof {
            use_type_invariant(&*self);
        }
        let (terminate, phase) = match self.phase {
            Phase::NotStarted => (false, Phase::NotStarted),
            Phase::Running => (true, Phase::Stopped),
            Phase::Stopped => (false, Phase::Stopped),
        };
        let remove = self.cleanup_token_file(phase);
        StopPlan { terminate, grace_millis: STOP_GRACE_MILLIS, remove }
    }
}

/// One thing that can happen to a supervisor.
pub enum Report {
    /// `token_file_written` with this path.
    FileWritten(Seq<char>),
    /// `spawn_finished` with this outcome.
    SpawnFinished(SpawnOutcome),
    /// `stop_backend`.
    Stop,
}

impl SupervisorState {
    /// The state after one report.
    pub open spec fn after(self, report: Report) -> SupervisorState {
        match report {
            Report::FileWritten(path) => self.file_written(path),
            Report::SpawnFinished(outcome) => self.spawn_reported(outcome),
            Report::Stop => self.stopped(),
        }
    }

    /// The state after a run of reports, the first of them first.
    pub open spec fn after_all(self, reports: Seq<Report>) -> SupervisorState
        decreases reports.len(),
    {
        if reports.len() == 0 {
            self
        } else {
            self.after_all(reports.drop_last()).after(reports.last())
        }
    }

    /// How often a run of reports takes the supervisor into `phase` from
    /// another phase.
    pub open spec fn entries_into(self, phase: Phase, reports: Seq<Report>) -> nat
        decreases reports.len(),
    {
        if reports.len() == 0 {
            0
        } else {
            let before = self.after_all(reports.drop_last());
            let entered = before.phase != phase && before.after(reports.last()).phase == phase;
            self.entries_into(phase, reports.drop_last()) + if entered {
                1nat
            } else {
                0nat
            }
        }
    }
}

/// Every report leaves a consistent state consistent.
pub proof fn lemma_reports_keep_consistency(state: SupervisorState, report: Report)
    requires
        state.consistent(),
    ensures
        state.after(report).consistent(),
{
}

/// While the backend runs, a start finds nothing to do, and a report that
/// belongs to a start changes nothing: there is no second spawn.
pub proof fn lemma_start_while_running_does_nothing(
    state: SupervisorState,
    path: Seq<char>,
    outcome: SpawnOutcome,
)
    requires
        state.phase == Phase::Running,
    ensures
        !state.ready_to_start(),
        !state.awaiting_spawn(),
        state.file_written(path) == state,
        state.spawn_reported(outcome) == state,
{
}

/// A stop before any start terminates nothing. It still clears the token
/// file, if a start had left one, and the supervisor stays not started.
pub proof fn lemma_stop_when_never_started(state: SupervisorState)
    requires
        state.phase == Phase::NotStarted,
    ensures
        !state.terminated_by_stop(),
        state.removed_by_stop() == state.token_file,
        state.stopped().phase == Phase::NotStarted,
        state.stopped().token_file is None,
{
}

/// A second stop finds nothing to terminate and nothing to remove, and
/// leaves the state that the first one left.
pub proof fn lemma_stop_twice_is_stop_once(state: SupervisorState)
    ensures
        !state.stopped().terminated_by_stop(),
        state.stopped().removed_by_stop() is None,
        state.stopped().stopped() == state.stopped(),
{
}

/// A stopped supervisor stays stopped whatever is reported to it, and a
/// start finds nothing to do.
pub proof fn lemma_stopped_is_final(state: SupervisorState, report: Report)
    requires
        state.phase == Phase::Stopped,
    ensures
        state.after(report).phase == Phase::Stopped,
        !state.ready_to_start(),
{
}

/// A supervisor that failed to spawn its backend is back where it began.
pub proof fn lemma_failed_spawn_leaves_no_trace(
    state: SupervisorState,
    path: Seq<char>,
    outcome: SpawnOutcome,
)
    requires
        state.ready_to_start(),
        outcome != SpawnOutcome::Spawned,
    ensures
        state.file_written(path).spawn_reported(outcome) == state,
{
}

proof fn lemma_entries_and_phase(state: SupervisorState, reports: Seq<Report>)
    requires
        state == SupervisorState::initial(),
    ensures
        state.after_all(reports).consistent(),
        state.entries_into(Phase::Running, reports) == match state.after_all(reports).phase {
            Phase::NotStarted => 0nat,
            _ => 1nat,
        },
        state.entries_into(Phase::Stopped, reports) == match state.after_all(reports).phase {
            Phase::Stopped => 1nat,
            _ => 0nat,
        },
    decreases reports.len(),
{
    if reports.len() > 0 {
        lemma_entries_and_phase(state, reports.drop_last());
        lemma_reports_keep_consistency(state.after_all(reports.drop_last()), reports.last());
    }
}

/// From its first state on, whatever is reported and in whatever order, a
/// supervisor is consistent, its backend starts running at most once and
/// is stopped at most once.
pub proof fn lemma_one_launch(reports: Seq<Report>)
    ensures
        SupervisorState::initial().after_all(reports).consistent(),
        SupervisorState::initial().entries_into(Phase::Running, reports) <= 1,
        SupervisorState::initial().entries_into(Phase::Stopped, reports) <= 1,
{
    lemma_entries_and_phase(SupervisorState::initial(), reports);
}

} // verus!
