//! How a run of the harness ended.

use vstd::prelude::*;
use crate::error::{result_view, Error, ErrorView};
use crate::state::{session, Session};

verus! {

/// How one side of a differential run ended.
#[derive(Clone, Copy, Debug, PartialEq, Eq, Structural)]
pub enum DiffExitKind {
    /// The run ended normally.
    Normal,
    /// The harness crashed.
    Crash,
    /// The run was stopped by the executor's watchdog.
    Timeout,
}

/// How a run of the harness ended.
#[derive(Clone, Copy, Debug, PartialEq, Eq, Structural)]
pub enum ExitKind {
    /// The run ended normally.
    Normal,
    /// The harness crashed.
    Crash,
    /// The run was stopped by the executor's watchdog.
    Timeout,
    /// The two sides of a differential run ended differently.
    Diff {
        /// How the first side ended.
        first: DiffExitKind,
        /// How the second side ended.
        second: DiffExitKind,
    },
}


/// What one run of the harness leaves behind.
pub struct HarnessOutcome<H, OT> {
    /// The harness after the run.
    pub harness: H,
    /// The observers after the run.
    pub observers: OT,
    /// How the run ended.
    pub exit_kind: ExitKind,
}

/// The code under test. What it does with an input is its own affair: it may change
/// itself and the observers, and end in any way. Its predicate says which runs it may
/// make; a harness of which nothing is known lets every outcome pass.
pub trait Harness<I, OT>: Sized {
    /// Whether `outcome` is what [`Harness::run`] may leave behind.
    spec fn ran(self, input: I, observers: OT, outcome: HarnessOutcome<Self, OT>) -> bool;

    /// Runs the code under test on `input`, lets the observers see what it does, and says
    /// how the run ended.
    fn run(&mut self, input: &I, observers: &mut OT) -> (exit_kind: ExitKind)
        ensures
            old(self).ran(
                *input,
                *old(observers),
                HarnessOutcome { harness: *final(self), observers: *final(observers), exit_kind },
            ),
    ;
}

/// What [`Executor::run_target`] leaves behind.
pub struct RunOutcome<E, S> {
    /// The executor after the run.
    pub executor: E,
    /// The state after the run.
    pub state: S,
    /// How the run ended, or why there was none.
    pub result: Result<ExitKind, ErrorView>,
}

/// An executor runs the harness on one input, and holds the observers that watch it.
pub trait Executor<EM, I, S>: Sized {
    /// The observers of the executor.
    type Observers;

    /// The observers of the executor.
    spec fn observers_spec(&self) -> Self::Observers;

    /// The executor with other observers, and all else as it is.
    spec fn with_observers(self, observers: Self::Observers) -> Self;

    /// The observers can be replaced, and nothing else of the executor is.
    proof fn lemma_observers_replaced(self, observers: Self::Observers)
        ensures
            self.with_observers(observers).observers_spec() == observers,
            self.with_observers(self.observers_spec()) == self,
    ;

    /// The observers, to be read.
    fn observers(&self) -> (observers: &Self::Observers)
        ensures
            *observers == self.observers_spec(),
    ;

    /// The observers, to be changed in place.
    fn observers_mut(&mut self) -> (observers: &mut Self::Observers)
        ensures
            *observers == old(self).observers_spec(),
            *final(self) == old(self).with_observers(*final(observers)),
    ;

    /// Whether `outcome` is what [`Executor::run_target`] may leave behind.
    spec fn runs(
        self,
        state: Session<S, EM>,
        input: I,
        outcome: RunOutcome<Self, Session<S, EM>>,
    ) -> bool;

    /// Runs the harness on `input`.
    fn run_target(&mut self, state: &mut S, manager: &mut EM, input: &I) -> (r: Result<
        ExitKind,
        Error,
    >)
        ensures
            old(self).runs(
                session(*old(state), *old(manager)),
                *input,
                RunOutcome {
                    executor: *final(self),
                    state: session(*final(state), *final(manager)),
                    result: result_view(r),
                },
            ),
    ;
}

/// An executor that runs the harness in the process of the fuzzer.
pub struct InProcessExecutor<H, OT> {
    harness: H,
    observers: OT,
}

impl<H, OT> InProcessExecutor<H, OT> {
    /// An executor for `harness` that is watched by `observers`.
    pub fn new(harness: H, observers: OT) -> (executor: Self)
        ensures
            executor.harness_spec() == harness,
            executor.watchers() == observers,
    {
        InProcessExecutor { harness, observers }
    }

    /// The harness of the executor.
    pub closed spec fn harness_spec(&self) -> H {
        self.harness
    }

    /// The observers of the executor.
    pub closed spec fn watchers(&self) -> OT {
        self.observers
    }

    /// The harness of the executor.
    pub fn harness(&self) -> (harness: &H)
        ensures
            *harness == self.harness_spec(),
    {
        &self.harness
    }
}

impl<EM, I, S, H: Harness<I, OT>, OT> Executor<EM, I, S> for InProcessExecutor<H, OT> {
    type Observers = OT;

    open spec fn observers_spec(&self) -> OT {
        self.watchers()
    }

    closed spec fn with_observers(self, observers: OT) -> Self {
        InProcessExecutor { harness: self.harness, observers }
    }

    proof fn lemma_observers_replaced(self, observers: OT) {
    }

    fn observers(&self) -> (observers: &OT) {
        &self.observers
    }

    fn observers_mut(&mut self) -> (observers: &mut OT) {
        &mut self.observers
    }

    /// The harness runs once, on `input` and on the observers of the executor: the exit
    /// kind is the one that this run gave, and the harness and the observers are
    /// afterwards as this run has left them. The state and the event manager stay as
    /// they are, and the run is never refused.
    open spec fn runs(
        self,
        state: Session<S, EM>,
        input: I,
        outcome: RunOutcome<Self, Session<S, EM>>,
    ) -> bool {
        &&& outcome.state == state
        &&& outcome.result is Ok
        &&& self.harness_spec().ran(
            input,
            self.watchers(),
            HarnessOutcome {
                harness: outcome.executor.harness_spec(),
                observers: outcome.executor.watchers(),
                exit_kind: outcome.result->Ok_0,
            },
        )
    }

    fn run_target(&mut self, state: &mut S, manager: &mut EM, input: &I) -> (r: Result<
        ExitKind,
        Error,
    >) {
        Ok(self.harness.run(input, &mut self.observers))
    }
}

} // verus!
