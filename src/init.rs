//! One-time session initialization as a fixed sequence of steps, stopped by the
//! first step that fails.
//!
//! The driver asks for the next step, performs it against the hardware and the
//! host scheduler, and reports whether it succeeded. No step is handed out
//! after a failure, so a session whose handler install is refused never
//! touches the chip-select line nor creates a queue, semaphore or task.
use vstd::prelude::*;

verus! {

/// The steps of initialization, in the order they are performed.
#[derive(Clone, Copy, Debug, PartialEq, Eq, Structural)]
pub enum InitStep {
    DisableBus,
    ConfigureBus,
    InstallHandler,
    EnableBus,
    ChipSelectIdle,
    CreateDispatcher,
    CreateQueue,
    CreateSemaphore,
    CreateTask,
    CreateContinuation,
}

/// Initialization stopped: `step` was refused. The session is unusable.
#[derive(Clone, Copy, Debug, PartialEq, Eq, Structural)]
pub struct InitError {
    pub step: InitStep,
}

/// Number of steps in a full initialization.
pub const INIT_STEP_COUNT: usize = 10;

/// The step performed at position `i` of the sequence.
pub open spec fn init_step_at(i: nat) -> InitStep {
    if i == 0 {
        InitStep::DisableBus
    } else if i == 1 {
        InitStep::ConfigureBus
    } else if i == 2 {
        InitStep::InstallHandler
    } else if i == 3 {
        InitStep::EnableBus
    } else if i == 4 {
        InitStep::ChipSelectIdle
    } else if i == 5 {
        InitStep::CreateDispatcher
    } else if i == 6 {
        InitStep::CreateQueue
    } else if i == 7 {
        InitStep::CreateSemaphore
    } else if i == 8 {
        InitStep::CreateTask
    } else {
        InitStep::CreateContinuation
    }
}

/// Position of `s` in the sequence.
pub open spec fn init_index(s: InitStep) -> nat {
    match s {
        InitStep::DisableBus => 0,
        InitStep::ConfigureBus => 1,
        InitStep::InstallHandler => 2,
        InitStep::EnableBus => 3,
        InitStep::ChipSelectIdle => 4,
        InitStep::CreateDispatcher => 5,
        InitStep::CreateQueue => 6,
        InitStep::CreateSemaphore => 7,
        InitStep::CreateTask => 8,
        InitStep::CreateContinuation => 9,
    }
}

/// The step at position `i`, for `i` below the step count.
pub fn step_at(i: usize) -> (r: InitStep)
    requires
        i < INIT_STEP_COUNT,
    ensures
        r == init_step_at(i as nat),
        init_index(r) == i,
{
    if i == 0 {
        InitStep::DisableBus
    } else if i == 1 {
        InitStep::ConfigureBus
    } else if i == 2 {
        InitStep::InstallHandler
    } else if i == 3 {
        InitStep::EnableBus
    } else if i == 4 {
        InitStep::ChipSelectIdle
    } else if i == 5 {
        InitStep::CreateDispatcher
    } else if i == 6 {
        InitStep::CreateQueue
    } else if i == 7 {
        InitStep::CreateSemaphore
    } else if i == 8 {
        InitStep::CreateTask
    } else {
        InitStep::CreateContinuation
    }
}

/// Progress through the initialization steps.
pub struct InitSequence {
    done: usize,
    failed: Option<InitStep>,
}

/// Abstract state: how many steps succeeded, and the step that failed, if any.
pub ghost struct InitModel {
    pub done: nat,
    pub failed: Option<InitStep>,
}

impl InitModel {
    pub open spec fn wf(self) -> bool {
        &&& self.done <= INIT_STEP_COUNT
        &&& self.failed matches Some(s) ==> self.done < INIT_STEP_COUNT && s == init_step_at(
            self.done,
        )
    }

    /// The step to perform next: none once a step failed or all succeeded.
    pub open spec fn next(self) -> Option<InitStep> {
        if self.failed is Some || self.done >= INIT_STEP_COUNT {
            None
        } else {
            Some(init_step_at(self.done))
        }
    }

    /// The steps handed out so far, in order, the failed one included.
    pub open spec fn attempted(self) -> Seq<InitStep> {
        let n = if self.failed is Some {
            self.done + 1
        } else {
            self.done
        };
        Seq::new(n, |i: int| init_step_at(i as nat))
    }

    pub open spec fn after_report(self, ok: bool) -> InitModel {
        if self.next() is None {
            self
        } else if ok {
            InitModel { done: self.done + 1, ..self }
        } else {
            InitModel { failed: Some(init_step_at(self.done)), ..self }
        }
    }

    /// `None` while steps remain; then success, or the step that failed.
    pub open spec fn outcome(self) -> Option<Result<(), InitError>> {
        if let Some(s) = self.failed {
            Some(Err(InitError { step: s }))
        } else if self.done >= INIT_STEP_COUNT {
            Some(Ok(()))
        } else {
            None
        }
    }
}

impl View for InitSequence {
    type V = InitModel;

    closed spec fn view(&self) -> InitModel {
        InitModel { done: self.done as nat, failed: self.failed }
    }
}

impl InitSequence {
    /// Nothing performed yet.
    pub fn new() -> (r: InitSequence)
        ensures
            r@ == (InitModel { done: 0, failed: None }),
            r@.wf(),
    {
        InitSequence { done: 0, failed: None }
    }

    /// The step to perform next.
    pub fn next_step(&self) -> (r: Option<InitStep>)
        requires
            self@.wf(),
        ensures
            r == self@.next(),
    {
        if self.failed.is_some() || self.done >= INIT_STEP_COUNT {
            None
        } else {
            Some(step_at(self.done))
        }
    }

    /// Records the result of the step last handed out by `next_step`.
    /// Without such a step this changes nothing.
    pub fn report(&mut self, ok: bool)
        requires
            old(self)@.wf(),
        ensures
            final(self)@.wf(),
            final(self)@ == old(self)@.after_report(ok),
    {
        if self.failed.is_some() || self.done >= INIT_STEP_COUNT {
            return;
        }
        if ok {
            self.done = self.done + 1;
        } else {
            self.failed = Some(step_at(self.done));
        }
    }

    /// How initialization ended, once it has.
    pub fn outcome(&self) -> (r: Option<Result<(), InitError>>)
        requires
            self@.wf(),
        ensures
            r == self@.outcome(),
    {
        match self.failed {
            Some(s) => Some(Err(InitError { step: s })),
            None => {
                if self.done >= INIT_STEP_COUNT {
                    Some(Ok(()))
                } else {
                    None
                }
            },
        }
    }
}

/// Once a step is refused, initialization is over: no further step is handed
/// out, later reports change nothing, and every step attempted comes no later
/// in the sequence than the refused one, which was the last attempted.
pub proof fn lemma_failure_stops(m: InitModel, ok: bool)
    requires
        m.wf(),
        m.failed is Some,
    ensures
        m.next() is None,
        m.after_report(ok) == m,
        m.attempted().last() == m.failed->Some_0,
        forall|k: int|
            0 <= k < m.attempted().len() ==> init_index(#[trigger] m.attempted()[k])
                <= init_index(m.failed->Some_0),
        m.outcome() == Some(Err::<(), InitError>(InitError { step: m.failed->Some_0 })),
{
}

} // verus!
