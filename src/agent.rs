//! The supervisor's lifecycle state machine: agent states, the transitions
//! that enrollment, status polls and resets cause, and the decisions of the
//! periodic loops under the shared cancellation signal.
use vstd::prelude::*;
use crate::enrollment::{EnrollError, EnrollmentStatus, PollStep};
use crate::text::{concat, same_text, to_owned_text};

verus! {

/// Lifecycle state of the agent.
#[derive(Debug)]
pub enum AgentState {
    /// Not yet enrolled.
    NotEnrolled,
    /// Enrollment submitted, waiting for approval.
    PendingApproval,
    /// Enrolled and active.
    Active,
    /// Revoked by the backend.
    Revoked,
    /// Failed; holds the reason.
    Error(String),
}

/// Mathematical view of an agent state: the error message as characters.
pub enum StateView {
    NotEnrolled,
    PendingApproval,
    Active,
    Revoked,
    Error(Seq<char>),
}

impl View for AgentState {
    type V = StateView;

    open spec fn view(&self) -> StateView {
        match self {
            AgentState::NotEnrolled => StateView::NotEnrolled,
            AgentState::PendingApproval => StateView::PendingApproval,
            AgentState::Active => StateView::Active,
            AgentState::Revoked => StateView::Revoked,
            AgentState::Error(m) => StateView::Error(m@),
        }
    }
}

/// Two states are the same: same variant and, for errors, the same message.
pub open spec fn same_state(a: AgentState, b: AgentState) -> bool {
    a@ == b@
}

/// What the state looks like to a user.
pub open spec fn display_of(s: AgentState) -> Seq<char> {
    match s {
        AgentState::NotEnrolled => "Not Enrolled"@,
        AgentState::PendingApproval => "Pending Approval"@,
        AgentState::Active => "Online"@,
        AgentState::Revoked => "Revoked"@,
        AgentState::Error(m) => "Error: "@ + m@,
    }
}

impl PartialEq for AgentState {
    fn eq(&self, other: &AgentState) -> (r: bool) {
        self.same_as(other)
    }
}

impl vstd::std_specs::cmp::PartialEqSpecImpl for AgentState {
    open spec fn obeys_eq_spec() -> bool {
        true
    }

    open spec fn eq_spec(&self, other: &AgentState) -> bool {
        same_state(*self, *other)
    }
}

impl AgentState {
    /// Compares two states.
    pub fn same_as(&self, other: &AgentState) -> (r: bool)
        ensures
            r == same_state(*self, *other),
    {
        match (self, other) {
            (AgentState::NotEnrolled, AgentState::NotEnrolled) => true,
            (AgentState::PendingApproval, AgentState::PendingApproval) => true,
            (AgentState::Active, AgentState::Active) => true,
            (AgentState::Revoked, AgentState::Revoked) => true,
            (AgentState::Error(x), AgentState::Error(y)) => same_text(x.as_str(), y.as_str()),
            _ => false,
        }
    }

    /// A copy of the state.
    pub fn duplicate(&self) -> (r: AgentState)
        ensures
            same_state(r, *self),
    {
        match self {
            AgentState::NotEnrolled => AgentState::NotEnrolled,
            AgentState::PendingApproval => AgentState::PendingApproval,
            AgentState::Active => AgentState::Active,
            AgentState::Revoked => AgentState::Revoked,
            AgentState::Error(m) => AgentState::Error(to_owned_text(m.as_str())),
        }
    }

    /// Display string for the state.
    pub fn as_display(&self) -> (r: String)
        ensures
            r@ == display_of(*self),
    {
        match self {
            AgentState::NotEnrolled => to_owned_text("Not Enrolled"),
            AgentState::PendingApproval => to_owned_text("Pending Approval"),
            AgentState::Active => to_owned_text("Online"),
            AgentState::Revoked => to_owned_text("Revoked"),
            AgentState::Error(msg) => concat("Error: ", msg.as_str()),
        }
    }

    /// Status line, as shown in a menu.
    pub fn status_label(&self) -> (r: String)
        ensures
            r@ == "Status: "@ + display_of(*self),
    {
        let d = self.as_display();
        concat("Status: ", d.as_str())
    }
}

/// Which periodic loop asks.
#[derive(Debug, Clone, Copy, PartialEq, Eq, Structural)]
pub enum LoopKind {
    Metrics,
    Heartbeat,
    StatusPoll,
    UpdateCheck,
}

/// What a periodic loop does at a tick.
#[derive(Debug, Clone, Copy, PartialEq, Eq, Structural)]
pub enum TickAction {
    /// Cancellation fired: leave the loop without another request.
    Stop,
    /// Do this loop's request.
    Work,
    /// Nothing to do in this state; wait for the next tick.
    Idle,
}

/// What the supervisor's main run does next.
#[derive(Debug)]
pub enum RunStep {
    /// Send the enrollment request (with retries).
    Enroll,
    /// Poll for approval.
    AwaitApproval,
    /// Start the periodic loops with this credential.
    RunLoops(String),
    /// Nothing more to drive; stay up until cancelled.
    Idle,
    /// Cancellation fired: return from the run.
    Exit,
}

/// Message of the error state after the backend rejected enrollment.
pub open spec fn rejected_message(body: Seq<char>) -> Seq<char> {
    "Enrollment rejected by server: "@ + body
}

/// Message of the error state after an unknown status word.
pub open spec fn unknown_message(status: Seq<char>) -> Seq<char> {
    "Unknown status: "@ + status
}

/// Message of the error state after an approval without a stored credential.
pub open spec fn missing_key_message() -> Seq<char> {
    "Device approved but no API key found"@
}

/// State after a successful status poll, from the current state.
pub open spec fn state_after_status(current: StateView, status: EnrollmentStatus) -> StateView {
    match status {
        EnrollmentStatus::Approved => StateView::Active,
        EnrollmentStatus::Pending => if current is Active {
            StateView::Active
        } else {
            StateView::PendingApproval
        },
        EnrollmentStatus::Revoked => StateView::Revoked,
        EnrollmentStatus::Unknown(s) => StateView::Error(unknown_message(s@)),
    }
}

/// The supervisor's shared state: the agent state and the cancellation flag.
#[derive(Debug)]
pub struct Supervisor {
    state: AgentState,
    cancelled: bool,
}

impl Supervisor {
    /// The current state.
    pub closed spec fn state_spec(&self) -> AgentState {
        self.state
    }

    /// Whether shutdown was requested.
    pub closed spec fn cancelled_spec(&self) -> bool {
        self.cancelled
    }

    /// Initial state from whether a credential is stored.
    pub fn new(has_credential: bool) -> (r: Supervisor)
        ensures
            r.state_spec() == if has_credential { AgentState::Active } else { AgentState::NotEnrolled },
            !r.cancelled_spec(),
    {
        Supervisor {
            state: if has_credential { AgentState::Active } else { AgentState::NotEnrolled },
            cancelled: false,
        }
    }

    /// A snapshot of the current state.
    pub fn get_state(&self) -> (r: AgentState)
        ensures
            same_state(r, self.state_spec()),
    {
        self.state.duplicate()
    }

    /// Whether shutdown was requested.
    pub fn is_cancelled(&self) -> (r: bool)
        ensures
            r == self.cancelled_spec(),
    {
        self.cancelled
    }

    /// Sets the state. Returns whether it changed (and so should be logged);
    /// setting the current state again changes nothing.
    pub fn set_state(&mut self, state: AgentState) -> (changed: bool)
        ensures
            changed == !same_state(old(self).state_spec(), state),
            changed ==> final(self).state_spec() == state,
            !changed ==> *final(self) == *old(self),
            final(self).cancelled_spec() == old(self).cancelled_spec(),
    {
        if self.state.same_as(&state) {
            false
        } else {
            self.state = state;
            true
        }
    }

    /// Fires the cancellation signal. Cancellation is monotonic.
    pub fn shutdown(&mut self)
        ensures
            final(self).cancelled_spec(),
            final(self).state_spec() == old(self).state_spec(),
    {
        self.cancelled = true;
    }

    /// Back to not enrolled, after the credential was wiped.
    pub fn reset(&mut self)
        ensures
            final(self).state_spec() == AgentState::NotEnrolled,
            final(self).cancelled_spec() == old(self).cancelled_spec(),
    {
        self.set_state(AgentState::NotEnrolled);
    }

    /// First step of the main run, from the stored credential.
    pub fn start(&mut self, credential: Option<String>) -> (step: RunStep)
        ensures
            old(self).cancelled_spec() ==> step is Exit && *final(self) == *old(self),
            !old(self).cancelled_spec() ==> match credential {
                Some(k) => final(self).state_spec() == AgentState::Active
                    && (step matches RunStep::RunLoops(s) && s@ == k@),
                None => step is Enroll && *final(self) == *old(self),
            },
            final(self).cancelled_spec() == old(self).cancelled_spec(),
    {
        if self.cancelled {
            return RunStep::Exit;
        }
        match credential {
            Some(k) => {
                self.set_state(AgentState::Active);
                RunStep::RunLoops(k)
            },
            None => RunStep::Enroll,
        }
    }

    /// After the enrollment request finished.
    pub fn after_enroll(&mut self, result: &Result<(), EnrollError>) -> (step: RunStep)
        ensures
            final(self).cancelled_spec() == old(self).cancelled_spec(),
            match result {
                Ok(()) => if old(self).cancelled_spec() {
                    step is Exit && *final(self) == *old(self)
                } else {
                    step is AwaitApproval && final(self).state_spec() == AgentState::PendingApproval
                },
                Err(EnrollError::Rejected(body)) => step is Idle
                    && (final(self).state_spec() matches AgentState::Error(m)
                    && m@ == rejected_message(body@)),
                Err(EnrollError::Cancelled) => step is Exit && *final(self) == *old(self),
            },
    {
        match result {
            Ok(()) => {
                if self.cancelled {
                    return RunStep::Exit;
                }
                self.set_state(AgentState::PendingApproval);
                RunStep::AwaitApproval
            },
            Err(EnrollError::Rejected(body)) => {
                let msg = concat("Enrollment rejected by server: ", body.as_str());
                self.set_state(AgentState::Error(msg));
                RunStep::Idle
            },
            Err(EnrollError::Cancelled) => RunStep::Exit,
        }
    }

    /// After approval polling ended (`None`: cancelled), with the credential
    /// read back from the store.
    pub fn after_approval(&mut self, outcome: Option<PollStep>, credential: Option<String>) -> (step: RunStep)
        ensures
            final(self).cancelled_spec() == old(self).cancelled_spec(),
            match outcome {
                Some(PollStep::Approved) => match credential {
                    Some(k) => final(self).state_spec() == AgentState::Active
                        && (step matches RunStep::RunLoops(s) && s@ == k@),
                    None => step is Idle && (final(self).state_spec() matches AgentState::Error(m)
                        && m@ == missing_key_message()),
                },
                Some(PollStep::Revoked) => step is Idle && final(self).state_spec() == AgentState::Revoked,
                _ => step is Exit && *final(self) == *old(self),
            },
    {
        match outcome {
            Some(PollStep::Approved) => match credential {
                Some(k) => {
                    self.set_state(AgentState::Active);
                    RunStep::RunLoops(k)
                },
                None => {
                    self.set_state(AgentState::Error(to_owned_text("Device approved but no API key found")));
                    RunStep::Idle
                },
            },
            Some(PollStep::Revoked) => {
                self.set_state(AgentState::Revoked);
                RunStep::Idle
            },
            _ => RunStep::Exit,
        }
    }

    /// Applies the result of a status poll (`None`: the poll failed, which
    /// leaves the state unchanged). Returns whether the state changed.
    pub fn after_status_check(&mut self, result: &Option<EnrollmentStatus>) -> (changed: bool)
        ensures
            final(self).cancelled_spec() == old(self).cancelled_spec(),
            match result {
                Some(s) => final(self).state_spec()@ == state_after_status(old(self).state_spec()@, *s)
                    && changed == (old(self).state_spec()@ != state_after_status(old(self).state_spec()@, *s)),
                None => *final(self) == *old(self) && !changed,
            },
    {
        match result {
            Some(EnrollmentStatus::Approved) => self.set_state(AgentState::Active),
            Some(EnrollmentStatus::Pending) => {
                if self.state.same_as(&AgentState::Active) {
                    false
                } else {
                    self.set_state(AgentState::PendingApproval)
                }
            },
            Some(EnrollmentStatus::Revoked) => self.set_state(AgentState::Revoked),
            Some(EnrollmentStatus::Unknown(s)) => {
                let msg = concat("Unknown status: ", s.as_str());
                self.set_state(AgentState::Error(msg))
            },
            None => false,
        }
    }

    /// What a periodic loop does at a tick: nothing new once cancelled, its
    /// request only while the agent is active.
    pub open spec fn tick_spec(&self, kind: LoopKind) -> TickAction {
        if self.cancelled_spec() {
            TickAction::Stop
        } else if self.state_spec() is Active {
            TickAction::Work
        } else {
            TickAction::Idle
        }
    }

    /// Decides what the loop of `kind` does at this tick.
    pub fn tick(&self, kind: LoopKind) -> (action: TickAction)
        ensures
            action == self.tick_spec(kind),
    {
        if self.cancelled {
            TickAction::Stop
        } else if let AgentState::Active = self.state {
            TickAction::Work
        } else {
            TickAction::Idle
        }
    }
}

/// Start-up steps of the supervisor, in order.
#[derive(Debug, Clone, Copy, PartialEq, Eq, Structural)]
pub enum StartupStep {
    /// Gather the host facts.
    ProbeSystem,
    /// Create the data directory when missing.
    EnsureDataDir,
    /// Apply a staged update, if any.
    ApplyPendingUpdate,
    /// Look for the stored credential; it decides the initial state.
    LoadCredential,
    /// Install the shutdown handler.
    InstallShutdownHandler,
    /// Run: enrollment and the periodic loops, all of which use the network.
    Run,
}

/// Whether a start-up step talks to the network.
pub open spec fn uses_network(s: StartupStep) -> bool {
    s is Run
}

/// The start-up sequence.
pub open spec fn startup_sequence() -> Seq<StartupStep> {
    seq![
        StartupStep::ProbeSystem,
        StartupStep::EnsureDataDir,
        StartupStep::ApplyPendingUpdate,
        StartupStep::LoadCredential,
        StartupStep::InstallShutdownHandler,
        StartupStep::Run,
    ]
}

/// The start-up sequence, in order.
pub fn startup_steps() -> (r: Vec<StartupStep>)
    ensures
        r@ == startup_sequence(),
{
    let mut v: Vec<StartupStep> = Vec::new();
    v.push(StartupStep::ProbeSystem);
    v.push(StartupStep::EnsureDataDir);
    v.push(StartupStep::ApplyPendingUpdate);
    v.push(StartupStep::LoadCredential);
    v.push(StartupStep::InstallShutdownHandler);
    v.push(StartupStep::Run);
    assert(v@ =~= startup_sequence());
    v
}

/// A staged update is applied before any step that uses the network.
pub proof fn lemma_update_applied_before_network()
    ensures
        startup_sequence()[2] == StartupStep::ApplyPendingUpdate,
        forall|i: int| 0 <= i < startup_sequence().len() && uses_network(#[trigger] startup_sequence()[i]) ==> 2 < i,
{
}

/// Once shutdown has been requested, no loop starts another request.
pub proof fn lemma_cancelled_loops_stop(s: Supervisor)
    requires
        s.cancelled_spec(),
    ensures
        forall|k: LoopKind| #[trigger] s.tick_spec(k) == TickAction::Stop,
{
}

} // verus!
