//! The fuzzer evaluates one input: it runs the harness on it, asks the feedbacks, and
//! stores the input where they say so.

use vstd::prelude::*;
use crate::corpus::{corpus_full_view, solutions_full_view, CorpusId, Testcase};
use crate::error::{result_view, Error, ErrorKind, ErrorView};
use crate::executors::{Executor, ExitKind, Harness, InProcessExecutor, RunOutcome};
use crate::feedbacks::{Feedback, MetadataOutcome, Outcome};
use crate::observers::{ObserverList, ObserversOutcome, ObserversTuple};
use crate::schedulers::{Scheduler, SchedulerOutcome};
use crate::stages::{StageOutcome, StagesTuple};
use crate::state::{session, HasCorpus, HasExecutions, Session};

verus! {

/// Where an evaluated input went.
#[derive(Clone, Copy, Debug, PartialEq, Eq, Structural)]
pub enum ExecuteInputResult {
    /// Nowhere: the run was neither interesting nor a solution.
    Discarded,
    /// Into the main corpus.
    Corpus,
    /// Into the corpus of solutions.
    Solution,
}

/// What [`Evaluator::evaluate_input`] leaves behind.
pub struct EvaluationOutcome<Z, S, E> {
    /// The fuzzer after the call.
    pub fuzzer: Z,
    /// The state after the call.
    pub state: S,
    /// The executor after the call.
    pub executor: E,
    /// What the call returned.
    pub result: Result<(ExecuteInputResult, Option<CorpusId>), ErrorView>,
}

/// Something that evaluates inputs of type `I` with an executor `E` on a state `S`.
///
/// What the harness does is not known in advance, so an evaluation has no single
/// outcome: the contract names the outcomes that it may have.
pub trait Evaluator<E, EM, I, S>: Sized {
    /// Whether `outcome` is what [`Evaluator::evaluate_input`] may leave behind.
    spec fn evaluates(
        self,
        state: Session<S, EM>,
        executor: E,
        input: I,
        outcome: EvaluationOutcome<Self, Session<S, EM>, E>,
    ) -> bool;

    /// Runs the harness on `input`, and stores the input where the verdicts say so.
    /// Returns where it went, and under which id.
    fn evaluate_input(&mut self, state: &mut S, executor: &mut E, manager: &mut EM, input: I) -> (r:
        Result<
        (ExecuteInputResult, Option<CorpusId>),
        Error,
    >)
        ensures
            old(self).evaluates(
                session(*old(state), *old(manager)),
                *old(executor),
                input,
                EvaluationOutcome {
                    fuzzer: *final(self),
                    state: session(*final(state), *final(manager)),
                    executor: *final(executor),
                    result: result_view(r),
                },
            ),
    ;
}


/// The message of the error for an execution counter that cannot count any further.
pub open spec fn counter_exhausted_message() -> Seq<char> {
    "The execution counter cannot count any further"@
}

/// The view of that error.
pub open spec fn counter_exhausted_view() -> ErrorView {
    ErrorView { kind: ErrorKind::IllegalState, message: counter_exhausted_message() }
}

/// What happened while one input was executed: what each call has left behind. The
/// entry of a call that was not made says nothing.
pub struct ExecutionTrace<E: Executor<EM, I, S>, EM, I, S> {
    /// What clearing the observers left behind.
    pub cleared: ObserversOutcome<E::Observers, S>,
    /// What the run of the harness left behind.
    pub ran: RunOutcome<E, Session<S, EM>>,
    /// What the observers' measurements after the run left behind.
    pub observed: ObserversOutcome<E::Observers, S>,
}

/// Whether the execution of one input may go as `trace` says and leave `outcome`
/// behind: the observers are cleared; the harness runs; the run is counted; the
/// observers take their measurements. The first error ends the execution.
pub open spec fn execution_follows<E: Executor<EM, I, S>, EM, I, S: HasExecutions>(
    executor: E,
    state: Session<S, EM>,
    input: I,
    trace: ExecutionTrace<E, EM, I, S>,
    outcome: RunOutcome<E, Session<S, EM>>,
) -> bool where E::Observers: ObserversTuple<I, S> {
    let cleared = trace.cleared;
    let ran = trace.ran;
    let observed = trace.observed;
    &&& executor.observers_spec().pre_execs(state.state, input, cleared)
    &&& match cleared.result {
        Err(e) => outcome == (RunOutcome {
            executor: executor.with_observers(cleared.observers),
            state: session(cleared.state, state.manager),
            result: Err(e),
        }),
        Ok(_) => {
            &&& executor.with_observers(cleared.observers).runs(
                session(cleared.state, state.manager),
                input,
                ran,
            )
            &&& match ran.result {
                Err(e) => outcome == (RunOutcome {
                    executor: ran.executor,
                    state: ran.state,
                    result: Err(e),
                }),
                Ok(exit_kind) => if ran.state.state.executions_spec() == u64::MAX {
                    outcome == (RunOutcome {
                        executor: ran.executor,
                        state: ran.state,
                        result: Err(counter_exhausted_view()),
                    })
                } else {
                    &&& ran.executor.observers_spec().post_execs(
                        ran.state.state.with_executions(
                            (ran.state.state.executions_spec() + 1) as u64,
                        ),
                        input,
                        exit_kind,
                        observed,
                    )
                    &&& outcome == (RunOutcome {
                        executor: ran.executor.with_observers(observed.observers),
                        state: session(observed.state, ran.state.manager),
                        result: match observed.result {
                            Err(e) => Err(e),
                            Ok(_) => Ok(exit_kind),
                        },
                    })
                },
            }
        },
    }
}

/// Whether the execution of one input may leave `outcome` behind.
pub open spec fn executed<E: Executor<EM, I, S>, EM, I, S: HasExecutions>(
    executor: E,
    state: Session<S, EM>,
    input: I,
    outcome: RunOutcome<E, Session<S, EM>>,
) -> bool where E::Observers: ObserversTuple<I, S> {
    exists|trace: ExecutionTrace<E, EM, I, S>| #[trigger]
        execution_follows(executor, state, input, trace, outcome)
}

/// Executes one input: clears the observers, runs the harness, counts the run, and lets
/// the observers take their measurements.
pub fn execute_input<E: Executor<EM, I, S>, EM, I, S: HasExecutions>(
    state: &mut S,
    executor: &mut E,
    manager: &mut EM,
    input: &I,
) -> (r: Result<ExitKind, Error>) where E::Observers: ObserversTuple<I, S>
    ensures
        executed(
            *old(executor),
            session(*old(state), *old(manager)),
            *input,
            RunOutcome {
                executor: *final(executor),
                state: session(*final(state), *final(manager)),
                result: result_view(r),
            },
        ),
{
    let ghost unsaid = arbitrary::<ExecutionTrace<E, EM, I, S>>();
    let ghost before = *executor;
    proof {
        assert forall|observers: E::Observers| #[trigger]
            before.with_observers(observers).observers_spec() == observers by {
            before.lemma_observers_replaced(observers);
        }
    }
    let clearing = executor.observers_mut().pre_exec_all(state, input);
    let ghost cleared = ObserversOutcome {
        observers: executor.observers_spec(),
        state: *state,
        result: result_view(clearing),
    };
    if let Err(e) = clearing {
        assert(execution_follows(
            before,
            session(*old(state), *old(manager)),
            *input,
            ExecutionTrace { cleared, ..unsaid },
            RunOutcome { executor: *executor, state: session(*state, *manager), result: Err(e@) },
        ));
        return Err(e);
    }
    let running = executor.run_target(state, manager, input);
    let ghost ran = RunOutcome {
        executor: *executor,
        state: session(*state, *manager),
        result: result_view(running),
    };
    let exit_kind = match running {
        Ok(exit_kind) => exit_kind,
        Err(e) => {
            assert(execution_follows(
                before,
                session(*old(state), *old(manager)),
                *input,
                ExecutionTrace { cleared, ran, ..unsaid },
                RunOutcome {
                    executor: *executor,
                    state: session(*state, *manager),
                    result: Err(e@),
                },
            ));
            return Err(e);
        },
    };
    if *state.executions() == u64::MAX {
        let e = Error::illegal_state("The execution counter cannot count any further");
        assert(execution_follows(
            before,
            session(*old(state), *old(manager)),
            *input,
            ExecutionTrace { cleared, ran, ..unsaid },
            RunOutcome { executor: *executor, state: session(*state, *manager), result: Err(e@) },
        ));
        return Err(e);
    }
    let executions = state.executions_mut();
    *executions = *executions + 1;
    proof {
        let run_executor = *executor;
        assert forall|observers: E::Observers| #[trigger]
            run_executor.with_observers(observers).observers_spec() == observers by {
            run_executor.lemma_observers_replaced(observers);
        }
    }
    let observing = executor.observers_mut().post_exec_all(state, input, &exit_kind);
    let ghost observed = ObserversOutcome {
        observers: executor.observers_spec(),
        state: *state,
        result: result_view(observing),
    };
    let result = match observing {
        Ok(_) => Ok(exit_kind),
        Err(e) => Err(e),
    };
    assert(execution_follows(
        before,
        session(*old(state), *old(manager)),
        *input,
        ExecutionTrace { cleared, ran, observed },
        RunOutcome {
            executor: *executor,
            state: session(*state, *manager),
            result: result_view(result),
        },
    ));
    result
}

/// Where an input goes that was found interesting, or not, by the feedback, and a
/// solution, or not, by the objective: a solution goes to the solutions, whatever the
/// feedback says.
pub open spec fn classified(interesting: bool, solution: bool) -> ExecuteInputResult {
    if solution {
        ExecuteInputResult::Solution
    } else if interesting {
        ExecuteInputResult::Corpus
    } else {
        ExecuteInputResult::Discarded
    }
}

/// An input goes to at most one corpus, and to the solutions where both would take it.
pub proof fn lemma_solution_takes_precedence(interesting: bool, solution: bool)
    ensures
        classified(interesting, solution) is Solution <==> solution,
        classified(interesting, solution) is Corpus <==> interesting && !solution,
        classified(interesting, solution) is Discarded <==> !interesting && !solution,
{
}

/// A fuzzer that asks one feedback whether an input is interesting, and another one,
/// the objective, whether it is a solution.
pub struct StdFuzzer<F, OF, SC> {
    /// The feedback that says which inputs enter the corpus.
    pub feedback: F,
    /// The feedback that says which inputs are solutions.
    pub objective: OF,
    /// The scheduler, which is told of each input that enters the corpus.
    pub scheduler: SC,
}

/// What a call on the fuzzer leaves behind.
pub struct FuzzerOutcome<Z, S, R> {
    /// The fuzzer after the call.
    pub fuzzer: Z,
    /// The state after the call.
    pub state: S,
    /// What the call returned.
    pub result: R,
}

/// What happened while the verdicts on one run were taken.
pub struct CheckTrace<F, OF, S> {
    /// What the feedback left behind.
    pub judged: Outcome<F, S, Result<bool, ErrorView>>,
    /// What the objective left behind, where it was asked.
    pub objected: Outcome<OF, S, Result<bool, ErrorView>>,
}

/// Whether `after` is `before` with a testcase added to its corpus under `id`, and all
/// else as it is.
pub open spec fn added_to_corpus<I, S: HasCorpus<I>>(before: S, after: S, testcase: Testcase<I>, id: CorpusId) -> bool {
    let was = before.corpus_spec();
    let now = after.corpus_spec();
    &&& after == before.with_corpora(now, before.solutions_spec())
    &&& id.0 == was.next_id()
    &&& !was@.contains_key(id)
    &&& now@ == was@.insert(id, testcase)
    &&& now.ids() == was.ids().push(id.0)
    &&& now.next_id() == was.next_id() + 1
    &&& now.current_spec() == was.current_spec()
}

/// Whether `after` is `before` with a testcase added to its solutions under `id`, and
/// all else, the corpus among it, as it is.
pub open spec fn added_to_solutions<I, S: HasCorpus<I>>(before: S, after: S, testcase: Testcase<I>, id: CorpusId) -> bool {
    let was = before.solutions_spec();
    let now = after.solutions_spec();
    &&& after == before.with_corpora(before.corpus_spec(), now)
    &&& id.0 == was.next_id()
    &&& !was@.contains_key(id)
    &&& now@ == was@.insert(id, testcase)
    &&& now.ids() == was.ids().push(id.0)
    &&& now.next_id() == was.next_id() + 1
    &&& now.current_spec() == was.current_spec()
}

/// What happened while an executed input was put where it belongs. The entry of a call
/// that was not made says nothing.
pub struct ProcessTrace<F, OF, SC, EM, I, S> {
    /// What the feedback left behind when it discarded its metadata.
    pub feedback_discarded: Outcome<F, S, Result<(), ErrorView>>,
    /// What the objective left behind when it discarded its metadata.
    pub objective_discarded: Outcome<OF, S, Result<(), ErrorView>>,
    /// What the feedback left behind when it appended its metadata.
    pub feedback_appended: MetadataOutcome<F, Session<S, EM>, I>,
    /// What the objective left behind when it appended its metadata.
    pub objective_appended: MetadataOutcome<OF, Session<S, EM>, I>,
    /// The state once the testcase was stored.
    pub stored: S,
    /// The id under which the testcase was stored.
    pub id: CorpusId,
    /// What the scheduler left behind when it was told of the new testcase.
    pub scheduled: SchedulerOutcome<SC, S, Result<(), ErrorView>>,
}

impl<F, OF, SC> StdFuzzer<F, OF, SC> {
    /// A fuzzer with the given feedback, objective and scheduler.
    pub fn new(scheduler: SC, feedback: F, objective: OF) -> (fuzzer: Self)
        ensures
            fuzzer == (StdFuzzer { feedback, objective, scheduler }),
    {
        StdFuzzer { feedback, objective, scheduler }
    }

    /// The feedback.
    pub fn feedback(&self) -> (f: &F)
        ensures
            *f == self.feedback,
    {
        &self.feedback
    }

    /// The objective.
    pub fn objective(&self) -> (f: &OF)
        ensures
            *f == self.objective,
    {
        &self.objective
    }

    /// The scheduler.
    pub fn scheduler(&self) -> (s: &SC)
        ensures
            *s == self.scheduler,
    {
        &self.scheduler
    }

    /// Whether the verdicts on one run may be taken as `trace` says, and leave `outcome`
    /// behind: first the feedback judges the run, then the objective, on the state that
    /// the feedback has left. The first error ends the check.
    pub open spec fn check_follows<EM, I, OT, S>(
        self,
        state: Session<S, EM>,
        input: I,
        observers: OT,
        exit_kind: ExitKind,
        trace: CheckTrace<F, OF, Session<S, EM>>,
        outcome: FuzzerOutcome<Self, Session<S, EM>, Result<ExecuteInputResult, ErrorView>>,
    ) -> bool where F: Feedback<EM, I, OT, S>, OF: Feedback<EM, I, OT, S> {
        let judged = trace.judged;
        let objected = trace.objected;
        &&& self.feedback.judges(state, input, observers, exit_kind, judged)
        &&& match judged.result {
            Err(e) => outcome == (FuzzerOutcome {
                fuzzer: StdFuzzer {
                    feedback: judged.feedback,
                    objective: self.objective,
                    scheduler: self.scheduler,
                },
                state: judged.state,
                result: Err::<ExecuteInputResult, ErrorView>(e),
            }),
            Ok(interesting) => {
                &&& self.objective.judges(judged.state, input, observers, exit_kind, objected)
                &&& outcome == (FuzzerOutcome {
                    fuzzer: StdFuzzer {
                        feedback: judged.feedback,
                        objective: objected.feedback,
                        scheduler: self.scheduler,
                    },
                    state: objected.state,
                    result: match objected.result {
                        Err(e) => Err(e),
                        Ok(solution) => Ok(classified(interesting, solution)),
                    },
                })
            },
        }
    }

    /// Whether the verdicts on one run may leave `outcome` behind.
    pub open spec fn checked<EM, I, OT, S>(
        self,
        state: Session<S, EM>,
        input: I,
        observers: OT,
        exit_kind: ExitKind,
        outcome: FuzzerOutcome<Self, Session<S, EM>, Result<ExecuteInputResult, ErrorView>>,
    ) -> bool where F: Feedback<EM, I, OT, S>, OF: Feedback<EM, I, OT, S> {
        exists|trace: CheckTrace<F, OF, Session<S, EM>>| #[trigger]
            self.check_follows(state, input, observers, exit_kind, trace, outcome)
    }

    /// Takes the verdicts of the feedback and of the objective on one run, and says where
    /// the input is to go.
    pub fn check_results<EM, I, OT, S>(
        &mut self,
        state: &mut S,
        manager: &mut EM,
        input: &I,
        observers: &OT,
        exit_kind: &ExitKind,
    ) -> (r: Result<ExecuteInputResult, Error>) where F: Feedback<EM, I, OT, S>, OF: Feedback<EM, I, OT, S>
        ensures
            old(self).checked(
                session(*old(state), *old(manager)),
                *input,
                *observers,
                *exit_kind,
                FuzzerOutcome {
                    fuzzer: *final(self),
                    state: session(*final(state), *final(manager)),
                    result: result_view(r),
                },
            ),
    {
        let ghost unsaid = arbitrary::<Outcome<OF, Session<S, EM>, Result<bool, ErrorView>>>();
        let judging = self.feedback.is_interesting(state, manager, input, observers, exit_kind);
        let ghost judged = Outcome {
            feedback: self.feedback,
            state: session(*state, *manager),
            result: result_view(judging),
        };
        let interesting = match judging {
            Ok(interesting) => interesting,
            Err(e) => {
                assert(old(self).check_follows(
                    session(*old(state), *old(manager)),
                    *input,
                    *observers,
                    *exit_kind,
                    CheckTrace { judged, objected: unsaid },
                    FuzzerOutcome {
                        fuzzer: *self,
                        state: session(*state, *manager),
                        result: Err(e@),
                    },
                ));
                return Err(e);
            },
        };
        let objecting = self.objective.is_interesting(state, manager, input, observers, exit_kind);
        let ghost objected = Outcome {
            feedback: self.objective,
            state: session(*state, *manager),
            result: result_view(objecting),
        };
        let result = match objecting {
            Ok(solution) => Ok(
                if solution {
                    ExecuteInputResult::Solution
                } else if interesting {
                    ExecuteInputResult::Corpus
                } else {
                    ExecuteInputResult::Discarded
                },
            ),
            Err(e) => Err(e),
        };
        assert(old(self).check_follows(
            session(*old(state), *old(manager)),
            *input,
            *observers,
            *exit_kind,
            CheckTrace { judged, objected },
            FuzzerOutcome {
                fuzzer: *self,
                state: session(*state, *manager),
                result: result_view(result),
            },
        ));
        result
    }
}


impl<F, OF, SC> StdFuzzer<F, OF, SC> {
    /// This fuzzer with another feedback, objective and scheduler.
    pub open spec fn rebuilt(feedback: F, objective: OF, scheduler: SC) -> Self {
        StdFuzzer { feedback, objective, scheduler }
    }

    /// Whether an executed input of the given kind may be put where it belongs as `trace`
    /// says, and leave `outcome` behind.
    ///
    /// A solution: the feedback discards its metadata, the objective appends its own to
    /// the testcase, and the testcase enters the solutions; the corpus stays as it is.
    /// An input for the corpus: the objective discards its metadata, the feedback
    /// appends its own to the testcase, the testcase enters the corpus, and the
    /// scheduler is told. Any other input: both discard their metadata, the feedback
    /// first. The first error ends the work; a corpus that has no id left is one, and
    /// where it is the solutions that have none, the error is a fatal one.
    pub open spec fn process_follows<EM, I, OT, S: HasCorpus<I>>(
        self,
        state: Session<S, EM>,
        input: I,
        observers: OT,
        kind: ExecuteInputResult,
        trace: ProcessTrace<F, OF, SC, EM, I, S>,
        outcome: FuzzerOutcome<Self, Session<S, EM>, Result<Option<CorpusId>, ErrorView>>,
    ) -> bool where F: Feedback<EM, I, OT, S>, OF: Feedback<EM, I, OT, S>, SC: Scheduler<I, S> {
        let fresh = Testcase { input, exec_time: None };
        match kind {
            ExecuteInputResult::Discarded => {
                let first = trace.feedback_discarded;
                let second = trace.objective_discarded;
                &&& self.feedback.discards_metadata(state.state, input, first)
                &&& match first.result {
                    Err(e) => outcome == (FuzzerOutcome {
                        fuzzer: Self::rebuilt(first.feedback, self.objective, self.scheduler),
                        state: session(first.state, state.manager),
                        result: Err::<Option<CorpusId>, ErrorView>(e),
                    }),
                    Ok(_) => {
                        &&& self.objective.discards_metadata(first.state, input, second)
                        &&& outcome == (FuzzerOutcome {
                            fuzzer: Self::rebuilt(first.feedback, second.feedback, self.scheduler),
                            state: session(second.state, state.manager),
                            result: match second.result {
                                Err(e) => Err::<Option<CorpusId>, ErrorView>(e),
                                Ok(_) => Ok(None),
                            },
                        })
                    },
                }
            },
            ExecuteInputResult::Corpus => {
                let first = trace.objective_discarded;
                let second = trace.feedback_appended;
                let third = trace.scheduled;
                &&& self.objective.discards_metadata(state.state, input, first)
                &&& match first.result {
                    Err(e) => outcome == (FuzzerOutcome {
                        fuzzer: Self::rebuilt(self.feedback, first.feedback, self.scheduler),
                        state: session(first.state, state.manager),
                        result: Err::<Option<CorpusId>, ErrorView>(e),
                    }),
                    Ok(_) => {
                        &&& self.feedback.appends_metadata(
                            session(first.state, state.manager),
                            observers,
                            fresh,
                            second,
                        )
                        &&& match second.result {
                            Err(e) => outcome == (FuzzerOutcome {
                                fuzzer: Self::rebuilt(
                                    second.feedback,
                                    first.feedback,
                                    self.scheduler,
                                ),
                                state: second.state,
                                result: Err::<Option<CorpusId>, ErrorView>(e),
                            }),
                            Ok(_) => if second.state.state.corpus_spec().next_id() == usize::MAX {
                                outcome == (FuzzerOutcome {
                                    fuzzer: Self::rebuilt(
                                        second.feedback,
                                        first.feedback,
                                        self.scheduler,
                                    ),
                                    state: second.state,
                                    result: Err::<Option<CorpusId>, ErrorView>(
                                        corpus_full_view(),
                                    ),
                                })
                            } else {
                                &&& added_to_corpus(
                                    second.state.state,
                                    trace.stored,
                                    second.testcase,
                                    trace.id,
                                )
                                &&& self.scheduler.adds(trace.stored, trace.id, third)
                                &&& outcome == (FuzzerOutcome {
                                    fuzzer: Self::rebuilt(
                                        second.feedback,
                                        first.feedback,
                                        third.scheduler,
                                    ),
                                    state: session(third.state, second.state.manager),
                                    result: match third.result {
                                        Err(e) => Err::<Option<CorpusId>, ErrorView>(e),
                                        Ok(_) => Ok(Some(trace.id)),
                                    },
                                })
                            },
                        }
                    },
                }
            },
            ExecuteInputResult::Solution => {
                let first = trace.feedback_discarded;
                let second = trace.objective_appended;
                &&& self.feedback.discards_metadata(state.state, input, first)
                &&& match first.result {
                    Err(e) => outcome == (FuzzerOutcome {
                        fuzzer: Self::rebuilt(first.feedback, self.objective, self.scheduler),
                        state: session(first.state, state.manager),
                        result: Err::<Option<CorpusId>, ErrorView>(e),
                    }),
                    Ok(_) => {
                        &&& self.objective.appends_metadata(
                            session(first.state, state.manager),
                            observers,
                            fresh,
                            second,
                        )
                        &&& match second.result {
                            Err(e) => outcome == (FuzzerOutcome {
                                fuzzer: Self::rebuilt(
                                    first.feedback,
                                    second.feedback,
                                    self.scheduler,
                                ),
                                state: second.state,
                                result: Err::<Option<CorpusId>, ErrorView>(e),
                            }),
                            Ok(_) => if second.state.state.solutions_spec().next_id() == usize::MAX {
                                outcome == (FuzzerOutcome {
                                    fuzzer: Self::rebuilt(
                                        first.feedback,
                                        second.feedback,
                                        self.scheduler,
                                    ),
                                    state: second.state,
                                    result: Err::<Option<CorpusId>, ErrorView>(
                                        solutions_full_view(),
                                    ),
                                })
                            } else {
                                &&& added_to_solutions(
                                    second.state.state,
                                    trace.stored,
                                    second.testcase,
                                    trace.id,
                                )
                                &&& outcome == (FuzzerOutcome {
                                    fuzzer: Self::rebuilt(
                                        first.feedback,
                                        second.feedback,
                                        self.scheduler,
                                    ),
                                    state: session(trace.stored, second.state.manager),
                                    result: Ok::<Option<CorpusId>, ErrorView>(None),
                                })
                            },
                        }
                    },
                }
            },
        }
    }

    /// Whether an executed input of the given kind may be put where it belongs and leave
    /// `outcome` behind.
    pub open spec fn processed<EM, I, OT, S: HasCorpus<I>>(
        self,
        state: Session<S, EM>,
        input: I,
        observers: OT,
        kind: ExecuteInputResult,
        outcome: FuzzerOutcome<Self, Session<S, EM>, Result<Option<CorpusId>, ErrorView>>,
    ) -> bool where F: Feedback<EM, I, OT, S>, OF: Feedback<EM, I, OT, S>, SC: Scheduler<I, S> {
        exists|trace: ProcessTrace<F, OF, SC, EM, I, S>| #[trigger]
            self.process_follows(state, input, observers, kind, trace, outcome)
    }

    /// Puts an executed input where the verdicts say: into the solutions, into the
    /// corpus, or nowhere. Returns the id that the input got in the corpus, if it got
    /// one.
    pub fn process_execution<EM, I, OT, S: HasCorpus<I>>(
        &mut self,
        state: &mut S,
        manager: &mut EM,
        input: I,
        observers: &OT,
        kind: ExecuteInputResult,
    ) -> (r: Result<Option<CorpusId>, Error>) where
        F: Feedback<EM, I, OT, S>,
        OF: Feedback<EM, I, OT, S>,
        SC: Scheduler<I, S>,

        ensures
            old(self).processed(
                session(*old(state), *old(manager)),
                input,
                *observers,
                kind,
                FuzzerOutcome {
                    fuzzer: *final(self),
                    state: session(*final(state), *final(manager)),
                    result: result_view(r),
                },
            ),
    {
        let ghost unsaid = arbitrary::<ProcessTrace<F, OF, SC, EM, I, S>>();
        let ghost before = *self;
        let ghost began = session(*state, *manager);
        match kind {
            ExecuteInputResult::Discarded => {
                let discarding = self.feedback.discard_metadata(state, &input);
                let ghost feedback_discarded = Outcome {
                    feedback: self.feedback,
                    state: *state,
                    result: result_view(discarding),
                };
                if let Err(e) = discarding {
                    assert(before.process_follows(
                        began,
                        input,
                        *observers,
                        kind,
                        ProcessTrace { feedback_discarded, ..unsaid },
                        FuzzerOutcome {
                            fuzzer: *self,
                            state: session(*state, *manager),
                            result: Err(e@),
                        },
                    ));
                    return Err(e);
                }
                let dropping = self.objective.discard_metadata(state, &input);
                let ghost objective_discarded = Outcome {
                    feedback: self.objective,
                    state: *state,
                    result: result_view(dropping),
                };
                let result = match dropping {
                    Ok(_) => Ok(None),
                    Err(e) => Err(e),
                };
                assert(before.process_follows(
                    began,
                    input,
                    *observers,
                    kind,
                    ProcessTrace { feedback_discarded, objective_discarded, ..unsaid },
                    FuzzerOutcome {
                        fuzzer: *self,
                        state: session(*state, *manager),
                        result: result_view(result),
                    },
                ));
                result
            },
            ExecuteInputResult::Corpus => {
                let dropping = self.objective.discard_metadata(state, &input);
                let ghost objective_discarded = Outcome {
                    feedback: self.objective,
                    state: *state,
                    result: result_view(dropping),
                };
                if let Err(e) = dropping {
                    assert(before.process_follows(
                        began,
                        input,
                        *observers,
                        kind,
                        ProcessTrace { objective_discarded, ..unsaid },
                        FuzzerOutcome {
                            fuzzer: *self,
                            state: session(*state, *manager),
                            result: Err(e@),
                        },
                    ));
                    return Err(e);
                }
                let mut testcase = Testcase::new(input);
                let appending = self.feedback.append_metadata(state, manager, observers, &mut testcase);
                let ghost feedback_appended = MetadataOutcome {
                    feedback: self.feedback,
                    state: session(*state, *manager),
                    testcase,
                    result: result_view(appending),
                };
                if let Err(e) = appending {
                    assert(before.process_follows(
                        began,
                        input,
                        *observers,
                        kind,
                        ProcessTrace { objective_discarded, feedback_appended, ..unsaid },
                        FuzzerOutcome {
                            fuzzer: *self,
                            state: session(*state, *manager),
                            result: Err(e@),
                        },
                    ));
                    return Err(e);
                }
                proof {
                    let appended = *state;
                    appended.lemma_corpora_replaced(
                        appended.corpus_spec(),
                        appended.solutions_spec(),
                    );
                    assert forall|corpus: crate::corpus::InMemoryCorpus<I>| #[trigger]
                        appended.with_corpora(corpus, appended.solutions_spec()).corpus_spec()
                            == corpus by {
                        appended.lemma_corpora_replaced(corpus, appended.solutions_spec());
                    }
                }
                let adding = state.corpus_mut().add(testcase);
                let id = match adding {
                    Ok(id) => id,
                    Err(e) => {
                        assert(before.process_follows(
                            began,
                            input,
                            *observers,
                            kind,
                            ProcessTrace { objective_discarded, feedback_appended, ..unsaid },
                            FuzzerOutcome {
                                fuzzer: *self,
                                state: session(*state, *manager),
                                result: Err(e@),
                            },
                        ));
                        return Err(e);
                    },
                };
                let ghost stored = *state;
                let telling = self.scheduler.on_add(state, id);
                let ghost scheduled = SchedulerOutcome {
                    scheduler: self.scheduler,
                    state: *state,
                    result: result_view(telling),
                };
                let result = match telling {
                    Ok(_) => Ok(Some(id)),
                    Err(e) => Err(e),
                };
                assert(before.process_follows(
                    began,
                    input,
                    *observers,
                    kind,
                    ProcessTrace {
                        objective_discarded,
                        feedback_appended,
                        stored,
                        id,
                        scheduled,
                        ..unsaid
                    },
                    FuzzerOutcome {
                        fuzzer: *self,
                        state: session(*state, *manager),
                        result: result_view(result),
                    },
                ));
                result
            },
            ExecuteInputResult::Solution => {
                let discarding = self.feedback.discard_metadata(state, &input);
                let ghost feedback_discarded = Outcome {
                    feedback: self.feedback,
                    state: *state,
                    result: result_view(discarding),
                };
                if let Err(e) = discarding {
                    assert(before.process_follows(
                        began,
                        input,
                        *observers,
                        kind,
                        ProcessTrace { feedback_discarded, ..unsaid },
                        FuzzerOutcome {
                            fuzzer: *self,
                            state: session(*state, *manager),
                            result: Err(e@),
                        },
                    ));
                    return Err(e);
                }
                let mut testcase = Testcase::new(input);
                let appending = self.objective.append_metadata(state, manager, observers, &mut testcase);
                let ghost objective_appended = MetadataOutcome {
                    feedback: self.objective,
                    state: session(*state, *manager),
                    testcase,
                    result: result_view(appending),
                };
                if let Err(e) = appending {
                    assert(before.process_follows(
                        began,
                        input,
                        *observers,
                        kind,
                        ProcessTrace { feedback_discarded, objective_appended, ..unsaid },
                        FuzzerOutcome {
                            fuzzer: *self,
                            state: session(*state, *manager),
                            result: Err(e@),
                        },
                    ));
                    return Err(e);
                }
                proof {
                    let appended = *state;
                    appended.lemma_corpora_replaced(
                        appended.corpus_spec(),
                        appended.solutions_spec(),
                    );
                    assert forall|solutions: crate::corpus::InMemoryCorpus<I>| #[trigger]
                        appended.with_corpora(appended.corpus_spec(), solutions).solutions_spec()
                            == solutions by {
                        appended.lemma_corpora_replaced(appended.corpus_spec(), solutions);
                    }
                }
                let adding = state.solutions_mut().add(testcase);
                let id = match adding {
                    Ok(id) => id,
                    Err(_) => {
                        let e = Error::solutions("The solutions have no id left to give");
                        assert(before.process_follows(
                            began,
                            input,
                            *observers,
                            kind,
                            ProcessTrace { feedback_discarded, objective_appended, ..unsaid },
                            FuzzerOutcome {
                                fuzzer: *self,
                                state: session(*state, *manager),
                                result: Err(e@),
                            },
                        ));
                        return Err(e);
                    },
                };
                assert(before.process_follows(
                    began,
                    input,
                    *observers,
                    kind,
                    ProcessTrace {
                        feedback_discarded,
                        objective_appended,
                        stored: *state,
                        id,
                        ..unsaid
                    },
                    FuzzerOutcome {
                        fuzzer: *self,
                        state: session(*state, *manager),
                        result: Ok(None),
                    },
                ));
                Ok(None)
            },
        }
    }
}


/// What happened while one input was evaluated: what each part of the evaluation has
/// left behind. The entry of a part that was not reached says nothing.
pub struct EvaluationTrace<F, OF, SC, E, EM, S> {
    /// What the execution of the input left behind.
    pub executed: RunOutcome<E, Session<S, EM>>,
    /// What taking the verdicts left behind.
    pub checked: FuzzerOutcome<
        StdFuzzer<F, OF, SC>,
        Session<S, EM>,
        Result<ExecuteInputResult, ErrorView>,
    >,
    /// What putting the input where it belongs left behind.
    pub processed: FuzzerOutcome<
        StdFuzzer<F, OF, SC>,
        Session<S, EM>,
        Result<Option<CorpusId>, ErrorView>,
    >,
}

impl<F, OF, SC> StdFuzzer<F, OF, SC> {
    /// Whether the evaluation of one input may go as `trace` says and leave `outcome`
    /// behind: the input is executed, as [`executed`] says; the verdicts on the run are
    /// taken from what the observers of the executor then hold, as
    /// [`StdFuzzer::checked`] says; and the input is put where the verdicts say, as
    /// [`StdFuzzer::processed`] says. The first error ends the evaluation.
    pub open spec fn evaluation_follows<E: Executor<EM, I, S>, EM, I, S: HasCorpus<I>>(
        self,
        state: Session<S, EM>,
        executor: E,
        input: I,
        trace: EvaluationTrace<F, OF, SC, E, EM, S>,
        outcome: EvaluationOutcome<Self, Session<S, EM>, E>,
    ) -> bool where
        E::Observers: ObserversTuple<I, S>,
        F: Feedback<EM, I, E::Observers, S>,
        OF: Feedback<EM, I, E::Observers, S>,
        SC: Scheduler<I, S>,
     {
        let ran = trace.executed;
        let checked = trace.checked;
        let processed = trace.processed;
        &&& executed(executor, state, input, ran)
        &&& match ran.result {
            Err(e) => outcome == (EvaluationOutcome {
                fuzzer: self,
                state: ran.state,
                executor: ran.executor,
                result: Err(e),
            }),
            Ok(exit_kind) => {
                &&& self.checked(
                    ran.state,
                    input,
                    ran.executor.observers_spec(),
                    exit_kind,
                    checked,
                )
                &&& match checked.result {
                    Err(e) => outcome == (EvaluationOutcome {
                        fuzzer: checked.fuzzer,
                        state: checked.state,
                        executor: ran.executor,
                        result: Err(e),
                    }),
                    Ok(kind) => {
                        &&& checked.fuzzer.processed(
                            checked.state,
                            input,
                            ran.executor.observers_spec(),
                            kind,
                            processed,
                        )
                        &&& outcome == (EvaluationOutcome {
                            fuzzer: processed.fuzzer,
                            state: processed.state,
                            executor: ran.executor,
                            result: match processed.result {
                                Err(e) => Err(e),
                                Ok(id) => Ok((kind, id)),
                            },
                        })
                    },
                }
            },
        }
    }
}

impl<E: Executor<EM, I, S>, EM, I, S: HasCorpus<I>, F, OF, SC> Evaluator<E, EM, I, S> for StdFuzzer<F, OF, SC> where
    E::Observers: ObserversTuple<I, S>,
    F: Feedback<EM, I, E::Observers, S>,
    OF: Feedback<EM, I, E::Observers, S>,
    SC: Scheduler<I, S>,
 {
    open spec fn evaluates(
        self,
        state: Session<S, EM>,
        executor: E,
        input: I,
        outcome: EvaluationOutcome<Self, Session<S, EM>, E>,
    ) -> bool {
        exists|trace: EvaluationTrace<F, OF, SC, E, EM, S>| #[trigger]
            self.evaluation_follows(state, executor, input, trace, outcome)
    }

    fn evaluate_input(&mut self, state: &mut S, executor: &mut E, manager: &mut EM, input: I) -> (r:
        Result<
        (ExecuteInputResult, Option<CorpusId>),
        Error,
    >) {
        let ghost unsaid = arbitrary::<EvaluationTrace<F, OF, SC, E, EM, S>>();
        let ghost before = *self;
        let execution = execute_input(state, executor, manager, &input);
        let ghost ran = RunOutcome {
            executor: *executor,
            state: session(*state, *manager),
            result: result_view(execution),
        };
        let exit_kind = match execution {
            Ok(exit_kind) => exit_kind,
            Err(e) => {
                assert(before.evaluation_follows(
                    session(*old(state), *old(manager)),
                    *old(executor),
                    input,
                    EvaluationTrace { executed: ran, ..unsaid },
                    EvaluationOutcome {
                        fuzzer: *self,
                        state: session(*state, *manager),
                        executor: *executor,
                        result: Err(e@),
                    },
                ));
                return Err(e);
            },
        };
        let observers = executor.observers();
        let checking = self.check_results(state, manager, &input, observers, &exit_kind);
        let ghost checked = FuzzerOutcome {
            fuzzer: *self,
            state: session(*state, *manager),
            result: result_view(checking),
        };
        let kind = match checking {
            Ok(kind) => kind,
            Err(e) => {
                assert(before.evaluation_follows(
                    session(*old(state), *old(manager)),
                    *old(executor),
                    input,
                    EvaluationTrace { executed: ran, checked, ..unsaid },
                    EvaluationOutcome {
                        fuzzer: *self,
                        state: session(*state, *manager),
                        executor: *executor,
                        result: Err(e@),
                    },
                ));
                return Err(e);
            },
        };
        let processing = self.process_execution(state, manager, input, observers, kind);
        let ghost processed = FuzzerOutcome {
            fuzzer: *self,
            state: session(*state, *manager),
            result: result_view(processing),
        };
        let result = match processing {
            Ok(id) => Ok((kind, id)),
            Err(e) => Err(e),
        };
        assert(before.evaluation_follows(
            session(*old(state), *old(manager)),
            *old(executor),
            input,
            EvaluationTrace { executed: ran, checked, processed },
            EvaluationOutcome {
                fuzzer: *self,
                state: session(*state, *manager),
                executor: *executor,
                result: result_view(result),
            },
        ));
        result
    }
}


/// What [`StdFuzzer::fuzz_one`] leaves behind.
pub struct FuzzOneOutcome<Z, ST, E, S> {
    /// The fuzzer after the call.
    pub fuzzer: Z,
    /// The stages after the call.
    pub stages: ST,
    /// The executor after the call.
    pub executor: E,
    /// The state after the call.
    pub state: S,
    /// The id of the testcase that was fuzzed, or the first error.
    pub result: Result<CorpusId, ErrorView>,
}

impl<F, OF, SC> StdFuzzer<F, OF, SC> {
    /// Whether one round of fuzzing may leave `outcome` behind, where the scheduler has
    /// left `scheduled` behind: the scheduler chooses a testcase, and each stage works on
    /// it in turn. An error of the scheduler or of a stage ends the round.
    pub open spec fn fuzz_one_follows<E, EM, I, S, ST: StagesTuple<E, EM, S, Self>>(
        self,
        stages: ST,
        executor: E,
        state: Session<S, EM>,
        scheduled: SchedulerOutcome<SC, S, Result<CorpusId, ErrorView>>,
        outcome: FuzzOneOutcome<Self, ST, E, Session<S, EM>>,
    ) -> bool where SC: Scheduler<I, S> {
        &&& self.scheduler.schedules(state.state, scheduled)
        &&& match scheduled.result {
            Err(e) => outcome == (FuzzOneOutcome {
                fuzzer: Self::rebuilt(self.feedback, self.objective, scheduled.scheduler),
                stages,
                executor,
                state: session(scheduled.state, state.manager),
                result: Err(e),
            }),
            Ok(id) => {
                &&& stages.performs_all(
                    Self::rebuilt(self.feedback, self.objective, scheduled.scheduler),
                    executor,
                    session(scheduled.state, state.manager),
                    StageOutcome {
                        stage: outcome.stages,
                        fuzzer: outcome.fuzzer,
                        executor: outcome.executor,
                        state: outcome.state,
                        result: match outcome.result {
                            Ok(_) => Ok(()),
                            Err(e) => Err(e),
                        },
                    },
                )
                &&& outcome.result is Ok ==> outcome.result == Ok::<CorpusId, ErrorView>(id)
            },
        }
    }

    /// One round of fuzzing: the scheduler chooses the testcase to fuzz, and each stage
    /// works on it in turn. Returns the id of the testcase.
    pub fn fuzz_one<E, EM, I, S, ST: StagesTuple<E, EM, S, Self>>(
        &mut self,
        stages: &mut ST,
        executor: &mut E,
        state: &mut S,
        manager: &mut EM,
    ) -> (r: Result<CorpusId, Error>) where SC: Scheduler<I, S>
        ensures
            exists|scheduled: SchedulerOutcome<SC, S, Result<CorpusId, ErrorView>>| #[trigger]
                old(self).fuzz_one_follows::<E, EM, I, S, ST>(
                    *old(stages),
                    *old(executor),
                    session(*old(state), *old(manager)),
                    scheduled,
                    FuzzOneOutcome {
                        fuzzer: *final(self),
                        stages: *final(stages),
                        executor: *final(executor),
                        state: session(*final(state), *final(manager)),
                        result: result_view(r),
                    },
                ),
    {
        let scheduling = self.scheduler.next(state);
        let ghost scheduled = SchedulerOutcome {
            scheduler: self.scheduler,
            state: *state,
            result: result_view(scheduling),
        };
        let id = match scheduling {
            Ok(id) => id,
            Err(e) => {
                assert(old(self).fuzz_one_follows::<E, EM, I, S, ST>(
                    *old(stages),
                    *old(executor),
                    session(*old(state), *old(manager)),
                    scheduled,
                    FuzzOneOutcome {
                        fuzzer: *self,
                        stages: *stages,
                        executor: *executor,
                        state: session(*state, *manager),
                        result: Err(e@),
                    },
                ));
                return Err(e);
            },
        };
        let staging = stages.perform_all(self, executor, state, manager);
        let result = match staging {
            Ok(_) => Ok(id),
            Err(e) => Err(e),
        };
        assert(old(self).fuzz_one_follows::<E, EM, I, S, ST>(
            *old(stages),
            *old(executor),
            session(*old(state), *old(manager)),
            scheduled,
            FuzzOneOutcome {
                fuzzer: *self,
                stages: *stages,
                executor: *executor,
                state: session(*state, *manager),
                result: result_view(result),
            },
        ));
        result
    }
}


/// An execution in the process of the fuzzer, watched by the observers that the kernel
/// knows, cannot fail unless the counter is exhausted, and changes nothing of the state
/// but the count of executions, which grows by one; the event manager stays as it is.
pub proof fn lemma_in_process_execution_counts_once<H: Harness<I, ObserverList>, EM, I, S: HasExecutions>(
    executor: InProcessExecutor<H, ObserverList>,
    state: Session<S, EM>,
    input: I,
    outcome: RunOutcome<InProcessExecutor<H, ObserverList>, Session<S, EM>>,
)
    requires
        executed(executor, state, input, outcome),
    ensures
        state.state.executions_spec() == u64::MAX ==> outcome.state == state && outcome.result == Err::<
            ExitKind,
            ErrorView,
        >(counter_exhausted_view()),
        state.state.executions_spec() < u64::MAX ==> outcome.result is Ok && outcome.state
            == session(
            state.state.with_executions((state.state.executions_spec() + 1) as u64),
            state.manager,
        ),
{
}

} // verus!
