//! The boot orchestrator's phase machine: logger setup, heap setup,
//! validation, construction, handoff, start, self-suspension — strictly
//! sequential, never re-entered, never rolled back.
//!
//! Each phase names one piece of outside work (a [`BootAction`]); the driver
//! performs it and reports whether it succeeded, and the machine moves to the
//! next phase or to the aborted state. The suspended and aborted phases are
//! terminal: they keep no action pending a transition — a step taken there
//! changes nothing, modelling that no further code runs in this process.

use vstd::prelude::*;

verus! {

/// The strictly sequential phases of one boot attempt.
#[derive(Clone, Copy, Debug, PartialEq, Eq, Structural)]
pub enum Phase {
    /// Install the console sink and log-level filter.
    LoggerInit,
    /// Hand a fixed static byte region to the allocator.
    HeapInit,
    /// Cross-check boot resources against the configured capacities.
    Validate,
    /// Create every object and capability the specification names.
    Construct,
    /// Transfer ownership of every untyped region to the successor.
    Handoff,
    /// Activate every component's initial execution context.
    Start,
    /// The boot thread suspends itself permanently. Terminal.
    Suspend,
    /// A fatal error stopped the boot. Terminal.
    Aborted,
}

/// The piece of outside work a phase performs.
#[derive(Clone, Copy, Debug, PartialEq, Eq, Structural)]
pub enum BootAction {
    /// Install the console sink and log-level filter.
    InstallLogger,
    /// Initialize the fixed-heap allocator.
    InitHeap,
    /// Run the boot validator.
    RunValidate,
    /// Run the construction engine's build phase.
    RunConstruct,
    /// Run the construction engine's memory handoff.
    RunHandoff,
    /// Run the construction engine's component start.
    RunStart,
    /// Suspend this thread's own execution context; never returns.
    SuspendSelf,
}

/// Whether a phase is terminal: nothing runs in this process afterwards.
pub open spec fn spec_phase_is_terminal(p: Phase) -> bool {
    p == Phase::Suspend || p == Phase::Aborted
}

/// The outside work pending in phase `p`, or `None` once the boot aborted.
/// The suspend action is the last instruction of the process: performing it
/// never returns.
pub open spec fn spec_phase_action(p: Phase) -> Option<BootAction> {
    match p {
        Phase::LoggerInit => Some(BootAction::InstallLogger),
        Phase::HeapInit => Some(BootAction::InitHeap),
        Phase::Validate => Some(BootAction::RunValidate),
        Phase::Construct => Some(BootAction::RunConstruct),
        Phase::Handoff => Some(BootAction::RunHandoff),
        Phase::Start => Some(BootAction::RunStart),
        Phase::Suspend => Some(BootAction::SuspendSelf),
        Phase::Aborted => None,
    }
}

/// The phase after performing `p`'s work with outcome `ok`. Logger and heap
/// setup cannot fail; every other failure aborts the boot. Terminal phases
/// have no outgoing transition: a step there changes nothing.
pub open spec fn spec_phase_step(p: Phase, ok: bool) -> Phase {
    match p {
        Phase::LoggerInit => Phase::HeapInit,
        Phase::HeapInit => Phase::Validate,
        Phase::Validate => if ok {
            Phase::Construct
        } else {
            Phase::Aborted
        },
        Phase::Construct => if ok {
            Phase::Handoff
        } else {
            Phase::Aborted
        },
        Phase::Handoff => if ok {
            Phase::Start
        } else {
            Phase::Aborted
        },
        Phase::Start => if ok {
            Phase::Suspend
        } else {
            Phase::Aborted
        },
        Phase::Suspend => Phase::Suspend,
        Phase::Aborted => Phase::Aborted,
    }
}

/// The phase reached after the first `n` outcomes of `outcomes`, starting
/// from logger setup.
pub open spec fn spec_phase_at(outcomes: Seq<bool>, n: nat) -> Phase
    decreases n,
{
    if n == 0 {
        Phase::LoggerInit
    } else {
        spec_phase_step(spec_phase_at(outcomes, (n - 1) as nat), outcomes[n - 1])
    }
}

/// The phase after `n` outcomes depends only on the first `n` outcomes:
/// reporting one more leaves every earlier trace point as it was.
pub proof fn lemma_phase_at_push(outcomes: Seq<bool>, ok: bool, n: nat)
    requires
        n <= outcomes.len(),
    ensures
        spec_phase_at(outcomes.push(ok), n) == spec_phase_at(outcomes, n),
    decreases n,
{
    if n > 0 {
        lemma_phase_at_push(outcomes, ok, (n - 1) as nat);
        assert(outcomes.push(ok)[n - 1] == outcomes[n - 1]);
    }
}

/// Law: each non-terminal phase occurs at exactly one point of any boot
/// trace, in the fixed order, and a phase is reached only if validation,
/// construction and handoff succeeded as far as they precede it.
pub proof fn lemma_phase_trace(outcomes: Seq<bool>, n: nat)
    requires
        n <= outcomes.len(),
    ensures
        spec_phase_at(outcomes, n) == Phase::LoggerInit ==> n == 0,
        spec_phase_at(outcomes, n) == Phase::HeapInit ==> n == 1,
        spec_phase_at(outcomes, n) == Phase::Validate ==> n == 2,
        spec_phase_at(outcomes, n) == Phase::Construct ==> n == 3 && outcomes[2],
        spec_phase_at(outcomes, n) == Phase::Handoff ==> n == 4 && outcomes[2] && outcomes[3],
        spec_phase_at(outcomes, n) == Phase::Start ==> n == 5 && outcomes[2] && outcomes[3]
            && outcomes[4],
        spec_phase_at(outcomes, n) == Phase::Suspend ==> n >= 6 && outcomes[2] && outcomes[3]
            && outcomes[4] && outcomes[5],
    decreases n,
{
    if n > 0 {
        lemma_phase_trace(outcomes, (n - 1) as nat);
    }
}

/// Law (sequencing): the start phase is entered only after construction and
/// handoff — and validation before them — completed without error, and only
/// through the strict order logger setup, heap setup, validate, construct,
/// handoff.
pub proof fn lemma_start_requires_construct_and_handoff(outcomes: Seq<bool>, n: nat)
    requires
        n <= outcomes.len(),
        spec_phase_at(outcomes, n) == Phase::Start,
    ensures
        n == 5,
        outcomes[2],  // validation succeeded
        outcomes[3],  // construction succeeded
        outcomes[4],  // handoff succeeded
        spec_phase_at(outcomes, 0) == Phase::LoggerInit,
        spec_phase_at(outcomes, 1) == Phase::HeapInit,
        spec_phase_at(outcomes, 2) == Phase::Validate,
        spec_phase_at(outcomes, 3) == Phase::Construct,
        spec_phase_at(outcomes, 4) == Phase::Handoff,
{
    lemma_phase_trace(outcomes, n);
    assert(spec_phase_at(outcomes, 0) == Phase::LoggerInit);
    assert(spec_phase_at(outcomes, 1) == Phase::HeapInit);
    assert(spec_phase_at(outcomes, 2) == Phase::Validate);
    assert(spec_phase_at(outcomes, 3) == Phase::Construct);
    assert(spec_phase_at(outcomes, 4) == Phase::Handoff);
}

/// Law (no re-entry): a non-terminal phase occurs at most once along any
/// boot trace.
pub proof fn lemma_no_phase_reentry(outcomes: Seq<bool>, m: nat, n: nat)
    requires
        m <= outcomes.len(),
        n <= outcomes.len(),
        spec_phase_at(outcomes, m) == spec_phase_at(outcomes, n),
        !spec_phase_is_terminal(spec_phase_at(outcomes, m)),
    ensures
        m == n,
{
    lemma_phase_trace(outcomes, m);
    lemma_phase_trace(outcomes, n);
}

/// Law (suspension): the terminal suspend phase is reached only when
/// validation, construction, handoff and start all succeeded.
pub proof fn lemma_suspend_requires_full_success(outcomes: Seq<bool>, n: nat)
    requires
        n <= outcomes.len(),
        spec_phase_at(outcomes, n) == Phase::Suspend,
    ensures
        n >= 6,
        outcomes[2],  // validation succeeded
        outcomes[3],  // construction succeeded
        outcomes[4],  // handoff succeeded
        outcomes[5],  // start succeeded
{
    lemma_phase_trace(outcomes, n);
}

/// Law (validation gates construction): the third step of every boot trace is
/// validation; when it succeeds the machine enters construction, and when it
/// fails the machine aborts instead.
pub proof fn lemma_validation_gates_construction(outcomes: Seq<bool>)
    requires
        outcomes.len() >= 3,
    ensures
        spec_phase_at(outcomes, 2) == Phase::Validate,
        outcomes[2] ==> spec_phase_at(outcomes, 3) == Phase::Construct,
        !outcomes[2] ==> spec_phase_at(outcomes, 3) == Phase::Aborted,
{
    assert(spec_phase_at(outcomes, 0) == Phase::LoggerInit);
    assert(spec_phase_at(outcomes, 1) == Phase::HeapInit);
    assert(spec_phase_at(outcomes, 2) == Phase::Validate);
}

/// Law (aborts are final): once a trace aborts, every later point of the
/// trace is still aborted — in particular no construction, handoff or start
/// phase follows a failed validation.
pub proof fn lemma_aborted_is_final(outcomes: Seq<bool>, m: nat, n: nat)
    requires
        m <= n <= outcomes.len(),
        spec_phase_at(outcomes, m) == Phase::Aborted,
    ensures
        spec_phase_at(outcomes, n) == Phase::Aborted,
    decreases n,
{
    if n > m {
        lemma_aborted_is_final(outcomes, m, (n - 1) as nat);
    }
}

/// One boot attempt's progress: the current phase and, for specification
/// purposes, the outcomes reported so far. The phase is always the one the
/// outcome history determines, so the trace laws above apply to every
/// reachable orchestrator value.
pub struct BootOrchestrator {
    phase: Phase,
    outcomes: Ghost<Seq<bool>>,
}

impl BootOrchestrator {
    /// The current phase.
    pub closed spec fn phase(self) -> Phase {
        self.phase
    }

    /// The outcomes reported so far, earliest first.
    pub closed spec fn outcomes(self) -> Seq<bool> {
        self.outcomes@
    }

    /// The phase is the one the outcome history determines.
    pub open spec fn wf(self) -> bool {
        self.phase() == spec_phase_at(self.outcomes(), self.outcomes().len())
    }

    /// A fresh boot attempt: at logger setup, nothing reported yet.
    pub fn new() -> (r: Self)
        ensures
            r.wf(),
            r.phase() == Phase::LoggerInit,
            r.outcomes() == Seq::<bool>::empty(),
    {
        BootOrchestrator { phase: Phase::LoggerInit, outcomes: Ghost(Seq::empty()) }
    }

    /// The current phase.
    pub fn current_phase(&self) -> (r: Phase)
        ensures
            r == self.phase(),
    {
        self.phase
    }

    /// The outside work pending now, or `None` once the boot aborted.
    pub fn current_action(&self) -> (r: Option<BootAction>)
        ensures
            r == spec_phase_action(self.phase()),
    {
        match self.phase {
            Phase::LoggerInit => Some(BootAction::InstallLogger),
            Phase::HeapInit => Some(BootAction::InitHeap),
            Phase::Validate => Some(BootAction::RunValidate),
            Phase::Construct => Some(BootAction::RunConstruct),
            Phase::Handoff => Some(BootAction::RunHandoff),
            Phase::Start => Some(BootAction::RunStart),
            Phase::Suspend => Some(BootAction::SuspendSelf),
            Phase::Aborted => None,
        }
    }

    /// Whether the boot reached a terminal phase.
    pub fn is_terminal(&self) -> (r: bool)
        ensures
            r == spec_phase_is_terminal(self.phase()),
    {
        match self.phase {
            Phase::Suspend => true,
            Phase::Aborted => true,
            _ => false,
        }
    }

    /// Record that the pending work finished with outcome `ok` and move to
    /// the phase the machine prescribes. In a terminal phase this changes the
    /// phase not at all.
    pub fn advance(&mut self, ok: bool)
        requires
            old(self).wf(),
        ensures
            final(self).wf(),
            final(self).phase() == spec_phase_step(old(self).phase(), ok),
            final(self).outcomes() == old(self).outcomes().push(ok),
    {
        let next = match self.phase {
            Phase::LoggerInit => Phase::HeapInit,
            Phase::HeapInit => Phase::Validate,
            Phase::Validate => if ok {
                Phase::Construct
            } else {
                Phase::Aborted
            },
            Phase::Construct => if ok {
                Phase::Handoff
            } else {
                Phase::Aborted
            },
            Phase::Handoff => if ok {
                Phase::Start
            } else {
                Phase::Aborted
            },
            Phase::Start => if ok {
                Phase::Suspend
            } else {
                Phase::Aborted
            },
            Phase::Suspend => Phase::Suspend,
            Phase::Aborted => Phase::Aborted,
        };
        self.phase = next;
        let ghost previous = self.outcomes@;
        self.outcomes = Ghost(self.outcomes@.push(ok));
        proof {
            lemma_phase_at_push(previous, ok, previous.len());
            assert(self.outcomes@[previous.len() as int] == ok);
        }
    }
}

} // verus!
