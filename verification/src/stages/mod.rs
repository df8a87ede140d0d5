//! Stages: the units of work that the fuzzer does on each scheduled testcase, and the
//! bookkeeping that lets a stage go on after a restart where it was interrupted.

use vstd::prelude::*;
use crate::error::{result_view, Error, ErrorKind, ErrorView};
use crate::state::{
    lemma_replacing_named_metadata, only_named_metadata_differs, session, HasExecutions,
    HasNamedMetadata, Session, State,
};

pub mod laws;
pub mod mutational;
pub mod tuneable;

verus! {

/// The number of executions at which a stage began its work on the current testcase.
#[derive(Clone, Copy, Debug, PartialEq, Eq, Structural)]
pub struct ExecutionCountRestartHelperMetadata {
    /// The value of the execution counter when the stage began.
    pub started_at_execs: u64,
}

/// The message of the error for a stage that asks for its progress before it has begun.
pub open spec fn no_progress_message() -> Seq<char> {
    "The stage has not noted where its work began"@
}

/// The view of that error.
pub open spec fn no_progress_view() -> ErrorView {
    ErrorView { kind: ErrorKind::IllegalState, message: no_progress_message() }
}

/// The message of the error for an execution counter that stands below the count at
/// which the stage began.
pub open spec fn counter_below_start_message() -> Seq<char> {
    "The execution counter stands below the count at which the stage began"@
}

/// The view of that error.
pub open spec fn counter_below_start_view() -> ErrorView {
    ErrorView { kind: ErrorKind::IllegalState, message: counter_below_start_message() }
}

/// Keeps, for one stage, the count of executions at which its work on the current
/// testcase began, so that after a restart the stage does what is left of its work and
/// no more. The count lies in the state, under the stage's name, where it outlives the
/// process; the helper holds a copy of it.
#[derive(Clone, Copy, Debug, PartialEq, Eq, Structural)]
pub struct ExecutionCountRestartHelper {
    /// The helper's copy of the count, once it has looked it up.
    pub started_at_execs: Option<u64>,
}

impl Default for ExecutionCountRestartHelper {
    fn default() -> (r: Self)
        ensures
            r.started_at_execs is None,
    {
        ExecutionCountRestartHelper { started_at_execs: None }
    }
}

/// What [`ExecutionCountRestartHelper::execs_since_progress_start`] leaves behind.
pub struct ProgressOutcome {
    /// The helper after the call.
    pub helper: ExecutionCountRestartHelper,
    /// What the call returned.
    pub result: Result<u64, ErrorView>,
}

impl ExecutionCountRestartHelper {
    /// A helper that has looked up nothing yet.
    pub fn new() -> (r: Self)
        ensures
            r.started_at_execs is None,
    {
        ExecutionCountRestartHelper { started_at_execs: None }
    }

    /// The count at which the stage called `name` began: the helper's copy, or else the
    /// one in the state, if there is one.
    pub open spec fn started_at<S: HasNamedMetadata>(self, state: S, name: Seq<char>) -> Option<u64> {
        match self.started_at_execs {
            Some(count) => Some(count),
            None => {
                let counts = state.named_metadata().execution_counts@;
                if counts.contains_key(name) {
                    Some(counts[name].started_at_execs)
                } else {
                    None
                }
            },
        }
    }

    /// What [`ExecutionCountRestartHelper::execs_since_progress_start`] does: the
    /// executions of the state less the count at which the stage began, of which the
    /// helper then holds a copy.
    pub open spec fn execs_since_progress_start_spec<S: HasNamedMetadata + HasExecutions>(
        self,
        state: S,
        name: Seq<char>,
    ) -> ProgressOutcome {
        match self.started_at(state, name) {
            None => ProgressOutcome { helper: self, result: Err(no_progress_view()) },
            Some(count) => ProgressOutcome {
                helper: ExecutionCountRestartHelper { started_at_execs: Some(count) },
                result: if state.executions_spec() >= count {
                    Ok((state.executions_spec() - count) as u64)
                } else {
                    Err(counter_below_start_view())
                },
            },
        }
    }

    /// The number of executions since the stage called `name` began its work.
    /// Fails where the stage has not begun, and where the counter stands below the count
    /// at which it began.
    pub fn execs_since_progress_start<S: HasNamedMetadata + HasExecutions>(&mut self, state: &S, name: &str) -> (r:
        Result<u64, Error>)
        ensures
            (ProgressOutcome { helper: *final(self), result: result_view(r) })
                == old(self).execs_since_progress_start_spec(*state, name@),
    {
        let started_at_execs = match self.started_at_execs {
            Some(count) => count,
            None => {
                match state.named_metadata_map().execution_counts.get(name) {
                    Some(metadata) => {
                        self.started_at_execs = Some(metadata.started_at_execs);
                        metadata.started_at_execs
                    },
                    None => {
                        return Err(
                            Error::illegal_state("The stage has not noted where its work began"),
                        );
                    },
                }
            },
        };
        let executions = *state.executions();
        if executions >= started_at_execs {
            Ok(executions - started_at_execs)
        } else {
            Err(
                Error::illegal_state(
                    "The execution counter stands below the count at which the stage began",
                ),
            )
        }
    }

    /// What [`ExecutionCountRestartHelper::should_restart`] does: where the state holds
    /// no count for `name`, it gets the present count of executions; the helper takes a
    /// copy of the count that the state then holds. Nothing else changes.
    pub open spec fn restarted<S: HasNamedMetadata + HasExecutions>(
        self,
        state: S,
        name: Seq<char>,
        helper_after: Self,
        state_after: S,
    ) -> bool {
        let counts = state.named_metadata().execution_counts@;
        if counts.contains_key(name) {
            &&& state_after == state
            &&& helper_after.started_at_execs == Some(counts[name].started_at_execs)
        } else {
            &&& only_named_metadata_differs(state, state_after)
            &&& state_after.named_metadata().execution_counts@ == counts.insert(
                name,
                ExecutionCountRestartHelperMetadata { started_at_execs: state.executions_spec() },
            )
            &&& state_after.named_metadata().tuneable_stages
                == state.named_metadata().tuneable_stages
            &&& state_after.named_metadata().map_feedbacks == state.named_metadata().map_feedbacks
            &&& helper_after.started_at_execs == Some(state.executions_spec())
        }
    }

    /// Called when the stage is entered: notes where the work begins, unless that is
    /// noted already, which is the case after a restart. Always answers that the stage
    /// is to go on.
    pub fn should_restart<S: HasNamedMetadata + HasExecutions>(&mut self, state: &mut S, name: &str) -> (r:
        Result<bool, Error>)
        ensures
            result_view(r) == Ok::<bool, ErrorView>(true),
            old(self).restarted(*old(state), name@, *final(self), *final(state)),
    {
        proof {
            lemma_replacing_named_metadata(*state);
        }
        let executions = *state.executions();
        let map = state.named_metadata_map_mut();
        match map.execution_counts.get(name) {
            Some(metadata) => {
                self.started_at_execs = Some(metadata.started_at_execs);
            },
            None => {
                map.execution_counts.insert(
                    name,
                    ExecutionCountRestartHelperMetadata { started_at_execs: executions },
                );
                self.started_at_execs = Some(executions);
            },
        }
        Ok(true)
    }

    /// What [`ExecutionCountRestartHelper::clear_progress`] does: the count for `name`
    /// leaves the state, and the helper forgets its copy. Nothing else changes.
    pub open spec fn progress_cleared<S: HasNamedMetadata>(
        self,
        state: S,
        name: Seq<char>,
        helper_after: Self,
        state_after: S,
    ) -> bool {
        &&& only_named_metadata_differs(state, state_after)
        &&& state_after.named_metadata().execution_counts@
            == state.named_metadata().execution_counts@.remove(name)
        &&& state_after.named_metadata().tuneable_stages == state.named_metadata().tuneable_stages
        &&& state_after.named_metadata().map_feedbacks == state.named_metadata().map_feedbacks
        &&& helper_after.started_at_execs is None
    }

    /// Called when the stage has done its work: forgets where the work began.
    pub fn clear_progress<S: HasNamedMetadata>(&mut self, state: &mut S, name: &str) -> (r: Result<
        (),
        Error,
    >)
        ensures
            r is Ok,
            old(self).progress_cleared(*old(state), name@, *final(self), *final(state)),
    {
        proof {
            lemma_replacing_named_metadata(*state);
        }
        self.started_at_execs = None;
        let map = state.named_metadata_map_mut();
        map.execution_counts.remove(name);
        Ok(())
    }
}

/// After `clear_progress`, a stage that is entered again finds that no execution has
/// been made since its work began.
pub proof fn lemma_progress_starts_at_zero<S: State>(
    helper: ExecutionCountRestartHelper,
    state: S,
    name: Seq<char>,
    cleared_helper: ExecutionCountRestartHelper,
    cleared_state: S,
    entered_helper: ExecutionCountRestartHelper,
    entered_state: S,
)
    requires
        helper.progress_cleared(state, name, cleared_helper, cleared_state),
        cleared_helper.restarted(cleared_state, name, entered_helper, entered_state),
    ensures
        entered_helper.execs_since_progress_start_spec(entered_state, name).result == Ok::<
            u64,
            ErrorView,
        >(0),
        entered_helper.execs_since_progress_start_spec(entered_state, name).helper == entered_helper,
{
    cleared_state.lemma_parts_are_independent(
        entered_state.named_metadata(),
        0,
        cleared_state.rand_spec(),
    );
}


/// What a call on a stage that works with the fuzzer and the executor leaves behind.
pub struct StageOutcome<ST, Z, E, S> {
    /// The stage after the call.
    pub stage: ST,
    /// The fuzzer after the call.
    pub fuzzer: Z,
    /// The executor after the call.
    pub executor: E,
    /// The state after the call.
    pub state: S,
    /// What the call returned.
    pub result: Result<(), ErrorView>,
}

/// What a call on a stage that works on the state alone leaves behind.
pub struct ProgressCallOutcome<ST, S, R> {
    /// The stage after the call.
    pub stage: ST,
    /// The state after the call.
    pub state: S,
    /// What the call returned.
    pub result: R,
}

/// One unit of work on the scheduled testcase.
pub trait Stage<E, EM, S, Z>: Sized {
    /// Whether `outcome` is what [`Stage::perform`] may leave behind.
    spec fn performs(
        self,
        fuzzer: Z,
        executor: E,
        state: Session<S, EM>,
        outcome: StageOutcome<Self, Z, E, Session<S, EM>>,
    ) -> bool;

    /// Does the work of the stage on the current testcase of the state.
    fn perform(&mut self, fuzzer: &mut Z, executor: &mut E, state: &mut S, manager: &mut EM) -> (r:
        Result<(), Error>)
        ensures
            old(self).performs(
                *old(fuzzer),
                *old(executor),
                session(*old(state), *old(manager)),
                StageOutcome {
                    stage: *final(self),
                    fuzzer: *final(fuzzer),
                    executor: *final(executor),
                    state: session(*final(state), *final(manager)),
                    result: result_view(r),
                },
            ),
    ;

    /// Whether `outcome` is what [`Stage::should_restart`] may leave behind.
    spec fn restarts(self, state: S, outcome: ProgressCallOutcome<Self, S, Result<bool, ErrorView>>) -> bool;

    /// Called when the stage is entered; says whether the stage is to do its work.
    fn should_restart(&mut self, state: &mut S) -> (r: Result<bool, Error>)
        ensures
            old(self).restarts(
                *old(state),
                ProgressCallOutcome {
                    stage: *final(self),
                    state: *final(state),
                    result: result_view(r),
                },
            ),
    ;

    /// Whether `outcome` is what [`Stage::clear_progress`] may leave behind.
    spec fn clears(self, state: S, outcome: ProgressCallOutcome<Self, S, Result<(), ErrorView>>) -> bool;

    /// Called when the stage has done its work.
    fn clear_progress(&mut self, state: &mut S) -> (r: Result<(), Error>)
        ensures
            old(self).clears(
                *old(state),
                ProgressCallOutcome {
                    stage: *final(self),
                    state: *final(state),
                    result: result_view(r),
                },
            ),
    ;
}

/// What happened while a stage was entered, did its work and was left. The entry of a
/// call that was not made says nothing.
pub struct RestartableTrace<ST, Z, E, EM, S> {
    /// What entering the stage left behind.
    pub entered: ProgressCallOutcome<ST, S, Result<bool, ErrorView>>,
    /// What the work of the stage left behind.
    pub performed: StageOutcome<ST, Z, E, Session<S, EM>>,
    /// What leaving the stage left behind.
    pub cleared: ProgressCallOutcome<ST, S, Result<(), ErrorView>>,
}

/// Whether a stage may be run as `trace` says and leave `outcome` behind: the stage is
/// asked whether it is to do its work; if so, it does it; then its progress is cleared.
/// The first error ends the run, and leaves the progress as it is.
pub open spec fn restartable_follows<ST: Stage<E, EM, S, Z>, E, EM, S, Z>(
    stage: ST,
    fuzzer: Z,
    executor: E,
    state: Session<S, EM>,
    trace: RestartableTrace<ST, Z, E, EM, S>,
    outcome: StageOutcome<ST, Z, E, Session<S, EM>>,
) -> bool {
    let entered = trace.entered;
    let performed = trace.performed;
    let cleared = trace.cleared;
    &&& stage.restarts(state.state, entered)
    &&& match entered.result {
        Err(e) => outcome == (StageOutcome {
            stage: entered.stage,
            fuzzer,
            executor,
            state: session(entered.state, state.manager),
            result: Err(e),
        }),
        Ok(true) => {
            &&& entered.stage.performs(
                fuzzer,
                executor,
                session(entered.state, state.manager),
                performed,
            )
            &&& match performed.result {
                Err(e) => outcome == performed,
                Ok(_) => {
                    &&& performed.stage.clears(performed.state.state, cleared)
                    &&& outcome == (StageOutcome {
                        stage: cleared.stage,
                        fuzzer: performed.fuzzer,
                        executor: performed.executor,
                        state: session(cleared.state, performed.state.manager),
                        result: cleared.result,
                    })
                },
            }
        },
        Ok(false) => {
            &&& entered.stage.clears(entered.state, cleared)
            &&& outcome == (StageOutcome {
                stage: cleared.stage,
                fuzzer,
                executor,
                state: session(cleared.state, state.manager),
                result: cleared.result,
            })
        },
    }
}

/// Whether a stage may be run and leave `outcome` behind.
pub open spec fn restartable<ST: Stage<E, EM, S, Z>, E, EM, S, Z>(
    stage: ST,
    fuzzer: Z,
    executor: E,
    state: Session<S, EM>,
    outcome: StageOutcome<ST, Z, E, Session<S, EM>>,
) -> bool {
    exists|trace: RestartableTrace<ST, Z, E, EM, S>| #[trigger]
        restartable_follows(stage, fuzzer, executor, state, trace, outcome)
}

/// Runs one stage: asks it whether it is to do its work, lets it do it, and clears its
/// progress.
pub fn perform_restartable<ST: Stage<E, EM, S, Z>, E, EM, S, Z>(
    stage: &mut ST,
    fuzzer: &mut Z,
    executor: &mut E,
    state: &mut S,
    manager: &mut EM,
) -> (r: Result<(), Error>)
    ensures
        restartable(
            *old(stage),
            *old(fuzzer),
            *old(executor),
            session(*old(state), *old(manager)),
            StageOutcome {
                stage: *final(stage),
                fuzzer: *final(fuzzer),
                executor: *final(executor),
                state: session(*final(state), *final(manager)),
                result: result_view(r),
            },
        ),
{
    let ghost unsaid = arbitrary::<RestartableTrace<ST, Z, E, EM, S>>();
    let entering = stage.should_restart(state);
    let ghost entered = ProgressCallOutcome {
        stage: *stage,
        state: *state,
        result: result_view(entering),
    };
    let go = match entering {
        Ok(go) => go,
        Err(e) => {
            assert(restartable_follows(
                *old(stage),
                *old(fuzzer),
                *old(executor),
                session(*old(state), *old(manager)),
                RestartableTrace { entered, ..unsaid },
                StageOutcome {
                    stage: *stage,
                    fuzzer: *fuzzer,
                    executor: *executor,
                    state: session(*state, *manager),
                    result: Err(e@),
                },
            ));
            return Err(e);
        },
    };
    let ghost mut performed = unsaid.performed;
    if go {
        let performing = stage.perform(fuzzer, executor, state, manager);
        proof {
            performed = StageOutcome {
                stage: *stage,
                fuzzer: *fuzzer,
                executor: *executor,
                state: session(*state, *manager),
                result: result_view(performing),
            };
        }
        if let Err(e) = performing {
            assert(restartable_follows(
                *old(stage),
                *old(fuzzer),
                *old(executor),
                session(*old(state), *old(manager)),
                RestartableTrace { entered, performed, ..unsaid },
                performed,
            ));
            return Err(e);
        }
    }
    let clearing = stage.clear_progress(state);
    let ghost cleared = ProgressCallOutcome {
        stage: *stage,
        state: *state,
        result: result_view(clearing),
    };
    assert(restartable_follows(
        *old(stage),
        *old(fuzzer),
        *old(executor),
        session(*old(state), *old(manager)),
        RestartableTrace { entered, performed, cleared },
        StageOutcome {
            stage: *stage,
            fuzzer: *fuzzer,
            executor: *executor,
            state: session(*state, *manager),
            result: result_view(clearing),
        },
    ));
    clearing
}

/// The stages of a fuzzer, in the order in which they work on each scheduled testcase.
pub trait StagesTuple<E, EM, S, Z>: Sized {
    /// Whether `outcome` is what [`StagesTuple::perform_all`] may leave behind.
    spec fn performs_all(
        self,
        fuzzer: Z,
        executor: E,
        state: Session<S, EM>,
        outcome: StageOutcome<Self, Z, E, Session<S, EM>>,
    ) -> bool;

    /// Runs each stage in turn on the current testcase. The first error ends the work
    /// on this testcase.
    fn perform_all(&mut self, fuzzer: &mut Z, executor: &mut E, state: &mut S, manager: &mut EM) -> (r:
        Result<(), Error>)
        ensures
            old(self).performs_all(
                *old(fuzzer),
                *old(executor),
                session(*old(state), *old(manager)),
                StageOutcome {
                    stage: *final(self),
                    fuzzer: *final(fuzzer),
                    executor: *final(executor),
                    state: session(*final(state), *final(manager)),
                    result: result_view(r),
                },
            ),
    ;
}

impl<E, EM, S, Z> StagesTuple<E, EM, S, Z> for () {
    open spec fn performs_all(
        self,
        fuzzer: Z,
        executor: E,
        state: Session<S, EM>,
        outcome: StageOutcome<Self, Z, E, Session<S, EM>>,
    ) -> bool {
        outcome == (StageOutcome { stage: (), fuzzer, executor, state, result: Ok(()) })
    }

    fn perform_all(&mut self, fuzzer: &mut Z, executor: &mut E, state: &mut S, manager: &mut EM) -> (r:
        Result<(), Error>) {
        Ok(())
    }
}

impl<Head: Stage<E, EM, S, Z>, Tail: StagesTuple<E, EM, S, Z>, E, EM, S, Z> StagesTuple<E, EM, S, Z> for (Head, Tail) {
    /// The first stage is run; unless it fails, the others are run on what it has left.
    open spec fn performs_all(
        self,
        fuzzer: Z,
        executor: E,
        state: Session<S, EM>,
        outcome: StageOutcome<Self, Z, E, Session<S, EM>>,
    ) -> bool {
        exists|first: StageOutcome<Head, Z, E, Session<S, EM>>|
            {
                &&& #[trigger] restartable(self.0, fuzzer, executor, state, first)
                &&& outcome.stage.0 == first.stage
                &&& match first.result {
                    Err(e) => outcome == (StageOutcome {
                        stage: (first.stage, self.1),
                        fuzzer: first.fuzzer,
                        executor: first.executor,
                        state: first.state,
                        result: Err(e),
                    }),
                    Ok(_) => self.1.performs_all(
                        first.fuzzer,
                        first.executor,
                        first.state,
                        StageOutcome {
                            stage: outcome.stage.1,
                            fuzzer: outcome.fuzzer,
                            executor: outcome.executor,
                            state: outcome.state,
                            result: outcome.result,
                        },
                    ),
                }
            }
    }

    fn perform_all(&mut self, fuzzer: &mut Z, executor: &mut E, state: &mut S, manager: &mut EM) -> (r:
        Result<(), Error>) {
        let first = perform_restartable(&mut self.0, fuzzer, executor, state, manager);
        let ghost head = StageOutcome {
            stage: self.0,
            fuzzer: *fuzzer,
            executor: *executor,
            state: session(*state, *manager),
            result: result_view(first),
        };
        assert(restartable(
            old(self).0,
            *old(fuzzer),
            *old(executor),
            session(*old(state), *old(manager)),
            head,
        ));
        match first {
            Ok(_) => self.1.perform_all(fuzzer, executor, state, manager),
            Err(e) => Err(e),
        }
    }
}

} // verus!
