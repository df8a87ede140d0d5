//! What every mutational stage shares: the protocol by which a stage works on another
//! form of the input than the corpus holds, and what one mutation of a testcase does.

use vstd::prelude::*;
use vstd::pervasive::cloned;
use crate::state::{session, Session};
use crate::corpus::{CorpusId, Testcase};
use crate::error::{result_view, Error, ErrorView};
use crate::fuzzer::{EvaluationOutcome, Evaluator};
use crate::mutators::{MutateOutcome, MutationResult, Mutator, MutatorPostOutcome};

verus! {

/// The most iterations that a mutational stage makes of one testcase where it draws
/// their number at random.
pub const DEFAULT_MUTATIONAL_MAX_ITERATIONS: usize = 128;

/// What [`MutatedTransformPost::post_exec`] leaves behind.
pub struct PostOutcome<S> {
    /// The state after the call.
    pub state: S,
    /// What the call returned.
    pub result: Result<(), ErrorView>,
}

/// What is left of a transformed input once it has been lowered to the form that the
/// harness takes: it is told how the evaluation went.
pub trait MutatedTransformPost<S>: Sized {
    /// Whether `outcome` is what [`MutatedTransformPost::post_exec`] may leave behind.
    spec fn post_execs(self, state: S, new_corpus_id: Option<CorpusId>, outcome: PostOutcome<S>) -> bool;

    /// Called once the lowered input has been evaluated; `new_corpus_id` is the place it
    /// got in a corpus, if it got one.
    fn post_exec(self, state: &mut S, new_corpus_id: Option<CorpusId>) -> (r: Result<(), Error>)
        ensures
            self.post_execs(
                *old(state),
                new_corpus_id,
                PostOutcome { state: *final(state), result: result_view(r) },
            ),
    ;
}

impl<S> MutatedTransformPost<S> for () {
    open spec fn post_execs(self, state: S, new_corpus_id: Option<CorpusId>, outcome: PostOutcome<S>) -> bool {
        outcome == (PostOutcome { state, result: Ok(()) })
    }

    fn post_exec(self, state: &mut S, new_corpus_id: Option<CorpusId>) -> (r: Result<(), Error>) {
        Ok(())
    }
}

/// A form of the input that a stage mutates, where the corpus holds inputs of type `I`.
pub trait MutatedTransform<I, S>: Sized {
    /// What is left of the transformed input once it has been lowered.
    type Post: MutatedTransformPost<S>;

    /// Whether `transformed` is what [`MutatedTransform::try_transform_from`] may give
    /// for the testcase `base`; `None` stands for a refusal.
    spec fn transforms_from(base: Testcase<I>, state: S, transformed: Option<Self>) -> bool;

    /// The form of the testcase's input that the stage is to mutate, or `None` where the
    /// testcase is to be passed over.
    fn try_transform_from(base: &Testcase<I>, state: &S) -> (r: Option<Self>)
        ensures
            Self::transforms_from(*base, *state, r),
    ;

    /// Whether `lowered` is what [`MutatedTransform::try_transform_into`] may return.
    spec fn transforms_into(self, state: S, lowered: Result<(I, Self::Post), ErrorView>) -> bool;

    /// Lowers the transformed input to the form that the harness takes.
    fn try_transform_into(self, state: &S) -> (r: Result<(I, Self::Post), Error>)
        ensures
            self.transforms_into(*state, result_view(r)),
    ;

    /// The round trip: what the transform has made of a testcase, lowered again at once
    /// and on the same state, never fails, and gives the stored input back: an input
    /// that is to the stored one what a clone of it is.
    proof fn lemma_round_trip(
        base: Testcase<I>,
        state: S,
        transformed: Self,
        lowered: Result<(I, Self::Post), ErrorView>,
    ) where I: Clone
        requires
            Self::transforms_from(base, state, Some(transformed)),
            transformed.transforms_into(state, lowered),
        ensures
            lowered is Ok,
            cloned::<I>(base.input, lowered->Ok_0.0),
    ;
}

/// The transform that changes nothing: the stage mutates a copy of the stored input.
impl<I: Clone, S> MutatedTransform<I, S> for I {
    type Post = ();

    open spec fn transforms_from(base: Testcase<I>, state: S, transformed: Option<Self>) -> bool {
        transformed matches Some(copy) && cloned::<I>(base.input, copy)
    }

    fn try_transform_from(base: &Testcase<I>, state: &S) -> (r: Option<Self>) {
        Some(base.input().clone())
    }

    open spec fn transforms_into(self, state: S, lowered: Result<(I, ()), ErrorView>) -> bool {
        lowered == Ok::<(I, ()), ErrorView>((self, ()))
    }

    fn try_transform_into(self, state: &S) -> (r: Result<(I, ()), Error>) {
        Ok((self, ()))
    }

    proof fn lemma_round_trip(
        base: Testcase<I>,
        state: S,
        transformed: Self,
        lowered: Result<(I, ()), ErrorView>,
    ) {
    }
}

/// An input that goes through the unchanging transform and back comes out as a copy of
/// the stored input, with nothing left to do afterwards.
pub proof fn lemma_identity_round_trip<I: Clone, S>(
    base: Testcase<I>,
    state: S,
    transformed: Option<I>,
    lowered: Result<(I, ()), ErrorView>,
)
    requires
        <I as MutatedTransform<I, S>>::transforms_from(base, state, transformed),
        transformed is Some ==> <I as MutatedTransform<I, S>>::transforms_into(
            transformed.unwrap(),
            state,
            lowered,
        ),
    ensures
        transformed is Some,
        lowered is Ok,
        cloned::<I>(base.input, lowered->Ok_0.0),
        lowered->Ok_0.0 == transformed.unwrap(),
{
}

/// All that one mutation of a testcase may change.
pub struct StageWorld<M, Z, E, S> {
    /// The mutator of the stage.
    pub mutator: M,
    /// The fuzzer that evaluates the mutated inputs.
    pub fuzzer: Z,
    /// The executor that runs the harness.
    pub executor: E,
    /// The state.
    pub state: S,
}

/// What one or more mutations leave behind.
pub struct StepOutcome<M, Z, E, S> {
    /// The mutator, the fuzzer, the executor and the state afterwards.
    pub world: StageWorld<M, Z, E, S>,
    /// Success, or the first error.
    pub result: Result<(), ErrorView>,
}

/// What happened within one mutation: what each call that was made has left behind.
/// The entry of a call that was not made says nothing.
pub struct StepTrace<EM, I, T: MutatedTransform<I, S>, M, S, Z, E> {
    /// What the mutator made of the input.
    pub mutated: MutateOutcome<M, S, T>,
    /// What the mutated input was lowered to.
    pub lowered: Result<(I, T::Post), ErrorView>,
    /// What the evaluation of the lowered input left behind.
    pub evaluated: EvaluationOutcome<Z, Session<S, EM>, E>,
    /// What the mutator did when it was told of the evaluation.
    pub told: MutatorPostOutcome<M, S>,
    /// What the rest of the transformed input did when it was told of the evaluation.
    pub finished: PostOutcome<S>,
}

/// Whether one mutation of `input`, which is the stage's own copy of the transformed
/// input, may go as `trace` says and leave `outcome` behind: the mutator changes the
/// input; unless the mutator passes, the input is lowered and evaluated, and then first
/// the mutator and after it what is left of the transformed input are told how the
/// evaluation went. The first error ends the mutation.
pub open spec fn step_follows<E, EM, I, T: MutatedTransform<I, S>, M: Mutator<T, S>, S, Z: Evaluator<E, EM, I, S>>(
    world: StageWorld<M, Z, E, Session<S, EM>>,
    input: T,
    trace: StepTrace<EM, I, T, M, S, Z, E>,
    outcome: StepOutcome<M, Z, E, Session<S, EM>>,
) -> bool {
    let mutated = trace.mutated;
    let after_mutate = StageWorld {
        mutator: mutated.mutator,
        fuzzer: world.fuzzer,
        executor: world.executor,
        state: session(mutated.state, world.state.manager),
    };
    &&& world.mutator.mutates(world.state.state, input, mutated)
    &&& match mutated.result {
        Err(e) => outcome == (StepOutcome { world: after_mutate, result: Err(e) }),
        Ok(MutationResult::Skipped) => outcome == (StepOutcome { world: after_mutate, result: Ok(()) }),
        Ok(MutationResult::Mutated) => {
            &&& mutated.input.transforms_into(mutated.state, trace.lowered)
            &&& match trace.lowered {
                Err(e) => outcome == (StepOutcome { world: after_mutate, result: Err(e) }),
                Ok((untransformed, post)) => {
                    let evaluated = trace.evaluated;
                    &&& world.fuzzer.evaluates(
                        session(mutated.state, world.state.manager),
                        world.executor,
                        untransformed,
                        evaluated,
                    )
                    &&& match evaluated.result {
                        Err(e) => outcome == (StepOutcome {
                            world: StageWorld {
                                mutator: mutated.mutator,
                                fuzzer: evaluated.fuzzer,
                                executor: evaluated.executor,
                                state: evaluated.state,
                            },
                            result: Err(e),
                        }),
                        Ok((_, corpus_id)) => {
                            let told = trace.told;
                            &&& mutated.mutator.post_execs(evaluated.state.state, corpus_id, told)
                            &&& match told.result {
                                Err(e) => outcome == (StepOutcome {
                                    world: StageWorld {
                                        mutator: told.mutator,
                                        fuzzer: evaluated.fuzzer,
                                        executor: evaluated.executor,
                                        state: session(told.state, evaluated.state.manager),
                                    },
                                    result: Err(e),
                                }),
                                Ok(_) => {
                                    &&& post.post_execs(told.state, corpus_id, trace.finished)
                                    &&& outcome == (StepOutcome {
                                        world: StageWorld {
                                            mutator: told.mutator,
                                            fuzzer: evaluated.fuzzer,
                                            executor: evaluated.executor,
                                            state: session(
                                                trace.finished.state,
                                                evaluated.state.manager,
                                            ),
                                        },
                                        result: trace.finished.result,
                                    })
                                },
                            }
                        },
                    }
                },
            }
        },
    }
}

/// Whether one mutation of `input` may leave `outcome` behind.
pub open spec fn stepped<E, EM, I, T: MutatedTransform<I, S>, M: Mutator<T, S>, S, Z: Evaluator<E, EM, I, S>>(
    world: StageWorld<M, Z, E, Session<S, EM>>,
    input: T,
    outcome: StepOutcome<M, Z, E, Session<S, EM>>,
) -> bool {
    exists|trace: StepTrace<EM, I, T, M, S, Z, E>| #[trigger]
        step_follows::<E, EM, I, T, M, S, Z>(world, input, trace, outcome)
}

/// What stands before the mutation at place `i` of a run that began with `world` and
/// has left `outcomes` behind, one for each mutation.
pub open spec fn world_before<M, Z, E, S>(
    world: StageWorld<M, Z, E, S>,
    outcomes: Seq<StepOutcome<M, Z, E, S>>,
    i: int,
) -> StageWorld<M, Z, E, S> {
    if i <= 0 {
        world
    } else {
        outcomes[i - 1].world
    }
}

/// What a run that began with `world` has left behind at its end.
pub open spec fn last_outcome<M, Z, E, S>(
    world: StageWorld<M, Z, E, S>,
    outcomes: Seq<StepOutcome<M, Z, E, S>>,
) -> StepOutcome<M, Z, E, S> {
    if outcomes.len() == 0 {
        StepOutcome { world, result: Ok(()) }
    } else {
        outcomes.last()
    }
}

/// Whether one mutation after the other, of each of `inputs` in turn, may leave
/// `outcomes` behind: each mutation begins where the one before it has ended, and only
/// the last one may have failed.
pub open spec fn steps_follow<E, EM, I, T: MutatedTransform<I, S>, M: Mutator<T, S>, S, Z: Evaluator<E, EM, I, S>>(
    world: StageWorld<M, Z, E, Session<S, EM>>,
    inputs: Seq<T>,
    outcomes: Seq<StepOutcome<M, Z, E, Session<S, EM>>>,
) -> bool {
    &&& outcomes.len() == inputs.len()
    &&& forall|i: int|
        0 <= i < inputs.len() ==> #[trigger] stepped::<E, EM, I, T, M, S, Z>(
            world_before(world, outcomes, i),
            inputs[i],
            outcomes[i],
        )
    &&& forall|i: int| 0 <= i < inputs.len() - 1 ==> (#[trigger] outcomes[i]).result is Ok
}

/// Whether each of `copies` is a copy of `input`, as `Clone` makes them.
pub open spec fn copies_of<T: Clone>(input: T, copies: Seq<T>) -> bool {
    forall|i: int| 0 <= i < copies.len() ==> cloned::<T>(input, #[trigger] copies[i])
}

} // verus!
