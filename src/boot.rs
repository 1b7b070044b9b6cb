use vstd::prelude::*;

verus! {

/// The coarse lifecycle state of the kernel.
#[derive(Clone, Copy, PartialEq, Eq, Debug, Structural)]
pub enum BootState {
    Booting,
    Running,
    Idle,
    Halted,
}

/// What the entry point reports after performing a stage's action.
#[derive(Clone, Copy, PartialEq, Eq, Debug, Structural)]
pub enum BootEvent {
    /// The action completed (for a halt: an interrupt woke the CPU).
    Done,
    /// An unrecoverable fault occurred.
    Fault,
}

/// The work the entry point performs in a stage.
#[derive(Clone, Copy, PartialEq, Eq, Debug, Structural)]
pub enum BootAction {
    /// Print the boot greeting.
    Announce,
    /// Build the descriptor tables and run the activation sequence.
    Activate,
    /// Run the self-test hook.
    SelfTest,
    /// Print that boot completed.
    ReportSuccess,
    /// Halt the CPU until the next interrupt.
    Halt,
    /// Print the fault's description.
    ReportFault,
}

/// A step of the boot sequence.  Each stage belongs to one lifecycle state
/// and has one action.
#[derive(Clone, Copy, PartialEq, Eq, Debug, Structural)]
pub enum BootStage {
    Announcing,
    Activating,
    SelfTesting,
    Reporting,
    Idle,
    ReportingFault,
    Halted,
}

/// The lifecycle state a stage belongs to.
pub open spec fn stage_state(s: BootStage) -> BootState {
    match s {
        BootStage::Announcing | BootStage::Activating => BootState::Booting,
        BootStage::SelfTesting | BootStage::Reporting => BootState::Running,
        BootStage::Idle => BootState::Idle,
        BootStage::ReportingFault | BootStage::Halted => BootState::Halted,
    }
}

/// The action performed in a stage.
pub open spec fn stage_action(s: BootStage) -> BootAction {
    match s {
        BootStage::Announcing => BootAction::Announce,
        BootStage::Activating => BootAction::Activate,
        BootStage::SelfTesting => BootAction::SelfTest,
        BootStage::Reporting => BootAction::ReportSuccess,
        BootStage::Idle | BootStage::Halted => BootAction::Halt,
        BootStage::ReportingFault => BootAction::ReportFault,
    }
}

/// The transition table.  A fault leads from any stage to reporting it and
/// then to the halt loop; a fault while halted only halts again.  Without a
/// fault each boot stage leads to the next, and the idle and halted stages
/// stay where they are.
pub open spec fn stage_next(s: BootStage, e: BootEvent) -> BootStage {
    match e {
        BootEvent::Fault => if s == BootStage::Halted || s == BootStage::ReportingFault {
            BootStage::Halted
        } else {
            BootStage::ReportingFault
        },
        BootEvent::Done => match s {
            BootStage::Announcing => BootStage::Activating,
            BootStage::Activating => BootStage::SelfTesting,
            BootStage::SelfTesting => BootStage::Reporting,
            BootStage::Reporting => BootStage::Idle,
            BootStage::Idle => BootStage::Idle,
            BootStage::ReportingFault | BootStage::Halted => BootStage::Halted,
        },
    }
}

/// The stages visited from `s` as `events` arrive, `s` first.
pub open spec fn trace(s: BootStage, events: Seq<BootEvent>) -> Seq<BootStage>
    decreases events.len(),
{
    if events.len() == 0 {
        seq![s]
    } else {
        seq![s] + trace(stage_next(s, events[0]), events.drop_first())
    }
}

/// Position of a stage in the boot order; transitions never go back.
pub open spec fn stage_rank(s: BootStage) -> int {
    match s {
        BootStage::Announcing => 0,
        BootStage::Activating => 1,
        BootStage::SelfTesting => 2,
        BootStage::Reporting => 3,
        BootStage::Idle => 4,
        BootStage::ReportingFault => 5,
        BootStage::Halted => 6,
    }
}

impl BootStage {
    /// The stage the entry point starts in.
    pub fn start() -> (r: BootStage)
        ensures
            r == BootStage::Announcing,
            stage_state(r) == BootState::Booting,
    {
        BootStage::Announcing
    }

    /// The lifecycle state this stage belongs to.
    pub fn state(&self) -> (r: BootState)
        ensures
            r == stage_state(*self),
    {
        match self {
            BootStage::Announcing | BootStage::Activating => BootState::Booting,
            BootStage::SelfTesting | BootStage::Reporting => BootState::Running,
            BootStage::Idle => BootState::Idle,
            BootStage::ReportingFault | BootStage::Halted => BootState::Halted,
        }
    }

    /// The action the entry point performs in this stage.
    pub fn action(&self) -> (r: BootAction)
        ensures
            r == stage_action(*self),
    {
        match self {
            BootStage::Announcing => BootAction::Announce,
            BootStage::Activating => BootAction::Activate,
            BootStage::SelfTesting => BootAction::SelfTest,
            BootStage::Reporting => BootAction::ReportSuccess,
            BootStage::Idle | BootStage::Halted => BootAction::Halt,
            BootStage::ReportingFault => BootAction::ReportFault,
        }
    }

    /// The stage that follows this one once `event` has been observed.
    pub fn next(self, event: BootEvent) -> (r: BootStage)
        ensures
            r == stage_next(self, event),
            stage_rank(self) <= stage_rank(r),
    {
        match event {
            BootEvent::Fault => match self {
                BootStage::Halted | BootStage::ReportingFault => BootStage::Halted,
                _ => BootStage::ReportingFault,
            },
            BootEvent::Done => match self {
                BootStage::Announcing => BootStage::Activating,
                BootStage::Activating => BootStage::SelfTesting,
                BootStage::SelfTesting => BootStage::Reporting,
                BootStage::Reporting => BootStage::Idle,
                BootStage::Idle => BootStage::Idle,
                BootStage::ReportingFault | BootStage::Halted => BootStage::Halted,
            },
        }
    }
}

proof fn lemma_trace_shape(s: BootStage, events: Seq<BootEvent>)
    ensures
        trace(s, events).len() == events.len() + 1,
        trace(s, events)[0] == s,
        forall|k: int|
            0 < k < trace(s, events).len() ==> #[trigger] trace(s, events)[k] == trace(
                stage_next(s, events[0]),
                events.drop_first(),
            )[k - 1],
    decreases events.len(),
{
    if events.len() > 0 {
        lemma_trace_shape(stage_next(s, events[0]), events.drop_first());
    }
}

/// Along any trace, stages never move back in the boot order.
pub proof fn lemma_trace_monotone(s: BootStage, events: Seq<BootEvent>, i: int, j: int)
    requires
        0 <= i <= j < events.len() + 1,
    ensures
        stage_rank(trace(s, events)[i]) <= stage_rank(trace(s, events)[j]),
        i < j ==> stage_rank(trace(s, events)[i]) <= stage_rank(trace(s, events)[i + 1]),
    decreases events.len(),
{
    lemma_trace_shape(s, events);
    if events.len() > 0 {
        let t = stage_next(s, events[0]);
        let rest = events.drop_first();
        lemma_trace_shape(t, rest);
        if i == 0 {
            if j > 0 {
                lemma_trace_monotone(t, rest, 0, j - 1);
            }
        } else {
            lemma_trace_monotone(t, rest, i - 1, j - 1);
        }
    }
}

/// Whatever events arrive, the activation stage is visited at most once:
/// the descriptor tables are activated at most once per boot.
pub proof fn lemma_activation_at_most_once(events: Seq<BootEvent>, i: int, j: int)
    requires
        0 <= i < j < events.len() + 1,
        trace(BootStage::Announcing, events)[i] == BootStage::Activating,
    ensures
        trace(BootStage::Announcing, events)[j] != BootStage::Activating,
{
    lemma_trace_after_activation(BootStage::Announcing, events, i);
    lemma_trace_monotone(BootStage::Announcing, events, i + 1, j);
}

proof fn lemma_trace_after_activation(s: BootStage, events: Seq<BootEvent>, i: int)
    requires
        0 <= i < events.len(),
        trace(s, events)[i] == BootStage::Activating,
    ensures
        stage_rank(trace(s, events)[i + 1]) >= 2,
    decreases events.len(),
{
    lemma_trace_shape(s, events);
    let t = stage_next(s, events[0]);
    let rest = events.drop_first();
    lemma_trace_shape(t, rest);
    if i > 0 {
        lemma_trace_after_activation(t, rest, i - 1);
    }
}

/// After a fault, from any stage: the next action reports the fault unless
/// the kernel had already halted, and from then on, whatever events arrive,
/// the kernel stays in the halted state and only halts.
pub proof fn lemma_fault_ends_in_halt(s: BootStage, events: Seq<BootEvent>)
    ensures
        stage_state(stage_next(s, BootEvent::Fault)) == BootState::Halted,
        s != BootStage::Halted && s != BootStage::ReportingFault ==> stage_action(
            stage_next(s, BootEvent::Fault),
        ) == BootAction::ReportFault,
        forall|k: int|
            0 < k < events.len() + 1 ==> #[trigger] trace(stage_next(s, BootEvent::Fault), events)[k]
                == BootStage::Halted,
{
    lemma_halted_stays(stage_next(s, BootEvent::Fault), events);
}

proof fn lemma_halted_stays(s: BootStage, events: Seq<BootEvent>)
    requires
        stage_state(s) == BootState::Halted,
    ensures
        forall|k: int| 0 < k < events.len() + 1 ==> #[trigger] trace(s, events)[k] == BootStage::Halted,
        forall|k: int|
            0 <= k < events.len() + 1 ==> stage_state(#[trigger] trace(s, events)[k])
                == BootState::Halted,
    decreases events.len(),
{
    lemma_trace_shape(s, events);
    if events.len() > 0 {
        let t = stage_next(s, events[0]);
        lemma_halted_stays(t, events.drop_first());
        lemma_trace_shape(t, events.drop_first());
    }
}

/// Once idle or halted, whatever events arrive, the kernel never returns to
/// booting or running, and every later action is a halt or a fault report:
/// the entry point never returns.
pub proof fn lemma_idle_never_resumes(s: BootStage, events: Seq<BootEvent>)
    requires
        stage_state(s) == BootState::Idle || stage_state(s) == BootState::Halted,
    ensures
        forall|k: int|
            0 <= k < events.len() + 1 ==> (stage_state(#[trigger] trace(s, events)[k])
                == BootState::Idle || stage_state(trace(s, events)[k]) == BootState::Halted),
        forall|k: int|
            0 <= k < events.len() + 1 ==> (stage_action(#[trigger] trace(s, events)[k])
                == BootAction::Halt || stage_action(trace(s, events)[k]) == BootAction::ReportFault),
    decreases events.len(),
{
    lemma_trace_shape(s, events);
    if events.len() > 0 {
        let t = stage_next(s, events[0]);
        lemma_idle_never_resumes(t, events.drop_first());
        lemma_trace_shape(t, events.drop_first());
    }
}

} // verus!
