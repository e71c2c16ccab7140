//! The pod lifecycle state machine: a tagged union over the pod's states
//! and one pure transition function, driven by an external supervisor loop
//! that performs the returned action and feeds back what happened.

use vstd::prelude::*;

use crate::config::{Container, ContainerV, WagiModulesConfig, WagiModulesConfigV};
use crate::resolve::{error_text, resolve_modules_config, resolve_spec, ConfigErrorV};

verus! {

/// The lifecycle state of one pod. Transitions run strictly forward; only
/// the external backoff policy may restart a failed pod from Initializing.
#[derive(Debug)]
pub enum PodState {
    /// The pod was handed to the provider; backoff is about to be reset.
    Initializing,
    /// The provider resolves configuration and spawns the listener.
    Starting,
    /// The listener runs; the state machine waits on its completion
    /// channel.
    Running,
    /// The listener was interrupted cleanly.
    Completed,
    /// The pod failed; the message says why.
    Error { message: String },
}

/// Mathematical model of a [`PodState`].
#[verifier::ext_equal]
pub ghost enum PodStateV {
    Initializing,
    Starting,
    Running,
    Completed,
    Error { message: Seq<char> },
}

impl View for PodState {
    type V = PodStateV;

    open spec fn view(&self) -> PodStateV {
        match self {
            PodState::Initializing => PodStateV::Initializing,
            PodState::Starting => PodStateV::Starting,
            PodState::Running => PodStateV::Running,
            PodState::Completed => PodStateV::Completed,
            PodState::Error { message } => PodStateV::Error { message: message@ },
        }
    }
}

/// The one terminal report of the listener task: clean interruption, or a
/// failure with its message.
#[derive(Debug)]
pub enum TaskReport {
    Success,
    Failure { message: String },
}

/// Mathematical model of a [`TaskReport`].
#[verifier::ext_equal]
pub ghost enum TaskReportV {
    Success,
    Failure { message: Seq<char> },
}

impl View for TaskReport {
    type V = TaskReportV;

    open spec fn view(&self) -> TaskReportV {
        match self {
            TaskReport::Success => TaskReportV::Success,
            TaskReport::Failure { message } => TaskReportV::Failure { message: message@ },
        }
    }
}

/// What the wait on the completion channel produced: the task's one report,
/// or the channel closed with no message sent, which is its own failure so
/// that a crashed listener can never pass for a completed one.
#[derive(Debug)]
pub enum ChannelOutcome {
    Delivered { report: TaskReport },
    HungUp,
}

/// Mathematical model of a [`ChannelOutcome`].
#[verifier::ext_equal]
pub ghost enum ChannelOutcomeV {
    Delivered { report: TaskReportV },
    HungUp,
}

impl View for ChannelOutcome {
    type V = ChannelOutcomeV;

    open spec fn view(&self) -> ChannelOutcomeV {
        match self {
            ChannelOutcome::Delivered { report } => ChannelOutcomeV::Delivered {
                report: report@,
            },
            ChannelOutcome::HungUp => ChannelOutcomeV::HungUp,
        }
    }
}

/// What the supervisor hands a transition: nothing for Initializing, the
/// pod's manifest data for Starting, the channel outcome for Running.
#[derive(Debug)]
pub enum StepContext {
    Tick,
    Manifest { annotations: Vec<(String, String)>, containers: Vec<Container> },
    Outcome { pod_name: String, outcome: ChannelOutcome },
}

/// Mathematical model of a [`StepContext`].
#[verifier::ext_equal]
pub ghost enum StepContextV {
    Tick,
    Manifest { annotations: Seq<(Seq<char>, Seq<char>)>, containers: Seq<ContainerV> },
    Outcome { pod_name: Seq<char>, outcome: ChannelOutcomeV },
}

impl View for StepContext {
    type V = StepContextV;

    open spec fn view(&self) -> StepContextV {
        match self {
            StepContext::Tick => StepContextV::Tick,
            StepContext::Manifest { annotations, containers } => StepContextV::Manifest {
                annotations: annotations.deep_view(),
                containers: containers@.map_values(|c: Container| c@),
            },
            StepContext::Outcome { pod_name, outcome } => StepContextV::Outcome {
                pod_name: pod_name@,
                outcome: outcome@,
            },
        }
    }
}

/// What the supervisor must do after a transition.
#[derive(Debug)]
pub enum Action {
    /// Reset the crash-loop backoff counter.
    ResetBackoff,
    /// Spawn the listener task for the resolved configuration on the given
    /// bind host, and hand its completion channel to the Running wait.
    SpawnListener { config: WagiModulesConfig, bind_host: String },
    /// Nothing beyond the state change.
    Wait,
}

/// Mathematical model of an [`Action`].
#[verifier::ext_equal]
pub ghost enum ActionV {
    ResetBackoff,
    SpawnListener { config: WagiModulesConfigV, bind_host: Seq<char> },
    Wait,
}

impl View for Action {
    type V = ActionV;

    open spec fn view(&self) -> ActionV {
        match self {
            Action::ResetBackoff => ActionV::ResetBackoff,
            Action::SpawnListener { config, bind_host } => ActionV::SpawnListener {
                config: config@,
                bind_host: bind_host@,
            },
            Action::Wait => ActionV::Wait,
        }
    }
}

/// The bind host used when no default-host annotation overrides it.
pub open spec fn fallback_host() -> Seq<char> {
    "127.0.0.1:3000"@
}

/// The bind host for a resolved configuration: its default host when
/// present, the fixed fallback otherwise. Whether the text parses as an
/// address is decided at bind time, not here.
pub open spec fn effective_host(default_host: Option<Seq<char>>) -> Seq<char> {
    match default_host {
        Option::Some(h) => h,
        Option::None => fallback_host(),
    }
}

/// The status text when the completion channel closes without a message.
pub open spec fn hangup_text(pod_name: Seq<char>) -> Seq<char> {
    "Pod "@ + pod_name + " container result channel hung up."@
}

/// The transition function of the state machine, one step: from the state
/// and the supervisor's context to the next state and the action owed.
/// Terminal states, and a context that does not belong to the state, leave
/// the state unchanged with nothing to do.
pub open spec fn next_spec(s: PodStateV, ctx: StepContextV) -> (PodStateV, ActionV) {
    match (s, ctx) {
        (PodStateV::Initializing, StepContextV::Tick) => (
            PodStateV::Starting,
            ActionV::ResetBackoff,
        ),
        (PodStateV::Starting, StepContextV::Manifest { annotations, containers }) => match resolve_spec(
            annotations,
            containers,
        ) {
            Result::Ok(config) => (
                PodStateV::Running,
                ActionV::SpawnListener {
                    config,
                    bind_host: effective_host(config.default_host),
                },
            ),
            Result::Err(e) => (PodStateV::Error { message: error_text(e) }, ActionV::Wait),
        },
        (PodStateV::Running, StepContextV::Outcome { pod_name, outcome }) => match outcome {
            ChannelOutcomeV::Delivered { report: TaskReportV::Success } => (
                PodStateV::Completed,
                ActionV::Wait,
            ),
            ChannelOutcomeV::Delivered { report: TaskReportV::Failure { message } } => (
                PodStateV::Error { message },
                ActionV::Wait,
            ),
            ChannelOutcomeV::HungUp => (
                PodStateV::Error { message: hangup_text(pod_name) },
                ActionV::Wait,
            ),
        },
        (other, _) => (other, ActionV::Wait),
    }
}

/// One step of the state machine, executable form.
pub fn next(state: PodState, ctx: StepContext) -> (r: (PodState, Action))
    ensures
        r.0@ == next_spec(state@, ctx@).0,
        r.1@ == next_spec(state@, ctx@).1,
{
    match (state, ctx) {
        (PodState::Initializing, StepContext::Tick) => (
            PodState::Starting,
            Action::ResetBackoff,
        ),
        (PodState::Starting, StepContext::Manifest { annotations, containers }) => {
            match resolve_modules_config(&annotations, &containers) {
                Result::Ok(config) => {
                    let bind_host = match &config.default_host {
                        Option::Some(h) => h.clone(),
                        Option::None => String::from_str("127.0.0.1:3000"),
                    };
                    (PodState::Running, Action::SpawnListener { config, bind_host })
                },
                Result::Err(e) => {
                    let message = e.message_text();
                    (PodState::Error { message }, Action::Wait)
                },
            }
        },
        (PodState::Running, StepContext::Outcome { pod_name, outcome }) => match outcome {
            ChannelOutcome::Delivered { report: TaskReport::Success } => (
                PodState::Completed,
                Action::Wait,
            ),
            ChannelOutcome::Delivered { report: TaskReport::Failure { message } } => (
                PodState::Error { message },
                Action::Wait,
            ),
            ChannelOutcome::HungUp => {
                let message = String::from_str("Pod ").concat(pod_name.as_str()).concat(
                    " container result channel hung up.",
                );
                (PodState::Error { message }, Action::Wait)
            },
        },
        (other, _) => (other, Action::Wait),
    }
}

/// The pod status phases reported to the node agent.
#[derive(Debug, Clone, Copy, PartialEq, Eq, Structural)]
pub enum Phase {
    Pending,
    Running,
    Succeeded,
    Failed,
}

/// The phase a state reports.
pub open spec fn status_phase(s: PodStateV) -> Phase {
    match s {
        PodStateV::Initializing => Phase::Running,
        PodStateV::Starting => Phase::Pending,
        PodStateV::Running => Phase::Running,
        PodStateV::Completed => Phase::Succeeded,
        PodStateV::Error { .. } => Phase::Failed,
    }
}

/// The reason text a state reports; a failed pod reports its error message.
pub open spec fn status_text(s: PodStateV) -> Seq<char> {
    match s {
        PodStateV::Initializing => "Initializing"@,
        PodStateV::Starting => "Starting"@,
        PodStateV::Running => "Running"@,
        PodStateV::Completed => "Completed"@,
        PodStateV::Error { message } => message,
    }
}

/// The status a state reports on demand: its phase and its reason text.
pub fn status(state: &PodState) -> (r: (Phase, String))
    ensures
        r.0 == status_phase(state@),
        r.1@ == status_text(state@),
{
    match state {
        PodState::Initializing => (Phase::Running, String::from_str("Initializing")),
        PodState::Starting => (Phase::Pending, String::from_str("Starting")),
        PodState::Running => (Phase::Running, String::from_str("Running")),
        PodState::Completed => (Phase::Succeeded, String::from_str("Completed")),
        PodState::Error { message } => (Phase::Failed, message.clone()),
    }
}

/// How far along the lifecycle a state is; both terminal states share the
/// top rank.
pub open spec fn rank(s: PodStateV) -> int {
    match s {
        PodStateV::Initializing => 0,
        PodStateV::Starting => 1,
        PodStateV::Running => 2,
        PodStateV::Completed => 3,
        PodStateV::Error { .. } => 3,
    }
}

/// A state with no further transition of its own.
pub open spec fn is_terminal(s: PodStateV) -> bool {
    s is Completed || s is Error
}

/// The context kind that belongs to a state: what a correct supervisor
/// hands it.
pub open spec fn matching_context(s: PodStateV, ctx: StepContextV) -> bool {
    match (s, ctx) {
        (PodStateV::Initializing, StepContextV::Tick) => true,
        (PodStateV::Starting, StepContextV::Manifest { .. }) => true,
        (PodStateV::Running, StepContextV::Outcome { .. }) => true,
        _ => false,
    }
}

/// Law: transitions are monotonic. No step ever lowers the rank, and a
/// non-terminal state with its matching context strictly advances, so from
/// Initializing every correctly driven run reaches Completed or Error in at
/// most three steps and never revisits an earlier state.
pub proof fn lemma_next_monotonic(s: PodStateV, ctx: StepContextV)
    ensures
        rank(next_spec(s, ctx).0) >= rank(s),
        !is_terminal(s) && matching_context(s, ctx) ==> rank(next_spec(s, ctx).0) > rank(s),
        is_terminal(s) ==> next_spec(s, ctx).0 == s,
{
}

/// Law: a pod that has reached Running never revisits Starting (nor
/// Initializing) by its own transitions; only an explicit external restart
/// can take it back.
pub proof fn lemma_no_return_to_starting(s: PodStateV, ctx: StepContextV)
    requires
        rank(s) >= 2,
    ensures
        !(next_spec(s, ctx).0 is Starting),
        !(next_spec(s, ctx).0 is Initializing),
{
    lemma_next_monotonic(s, ctx);
}

/// Law: from Initializing, three correctly matched steps always end in
/// Completed or Error.
pub proof fn lemma_terminal_in_three_steps(ctx1: StepContextV, ctx2: StepContextV, ctx3: StepContextV)
    requires
        matching_context(PodStateV::Initializing, ctx1),
        matching_context(next_spec(PodStateV::Initializing, ctx1).0, ctx2),
        ({
            let s2 = next_spec(next_spec(PodStateV::Initializing, ctx1).0, ctx2).0;
            is_terminal(s2) || matching_context(s2, ctx3)
        }),
    ensures
        is_terminal(
            next_spec(next_spec(next_spec(PodStateV::Initializing, ctx1).0, ctx2).0, ctx3).0,
        ),
{
    let s1 = next_spec(PodStateV::Initializing, ctx1).0;
    let s2 = next_spec(s1, ctx2).0;
    let s3 = next_spec(s2, ctx3).0;
    lemma_next_monotonic(PodStateV::Initializing, ctx1);
    lemma_next_monotonic(s1, ctx2);
    lemma_next_monotonic(s2, ctx3);
}

} // verus!
