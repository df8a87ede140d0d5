//! What holds of every run of the tuneable mutational stage: the bounds of the drawn
//! budget, the runs that do nothing, and the mutator that always passes.

use vstd::prelude::*;
use crate::error::ErrorView;
use crate::fuzzer::Evaluator;
use crate::mutators::{MutateOutcome, MutationResult, Mutator};
use crate::stages::mutational::{
    last_outcome, step_follows, stepped, steps_follow, world_before, MutatedTransform, StageWorld,
    StepOutcome, StepTrace, DEFAULT_MUTATIONAL_MAX_ITERATIONS,
};
use crate::stages::tuneable::{
    may_go_on, performed, remaining_iterations, settings_of, Run,
};
use crate::stages::ExecutionCountRestartHelper;
use crate::state::{HasCurrentTestcase, Session, State};

verus! {

/// Of a drawn budget no more is left than was drawn, and what is left and what has been
/// executed together do not go beyond the greatest budget, unless more than that has
/// been executed already: then nothing is left.
pub proof fn lemma_remaining_iterations_bounded(drawn: usize, execs_since: u64)
    requires
        1 <= drawn <= DEFAULT_MUTATIONAL_MAX_ITERATIONS,
    ensures
        remaining_iterations(drawn, execs_since) <= drawn,
        remaining_iterations(drawn, execs_since) <= DEFAULT_MUTATIONAL_MAX_ITERATIONS,
        execs_since <= DEFAULT_MUTATIONAL_MAX_ITERATIONS ==> remaining_iterations(drawn, execs_since)
            <= DEFAULT_MUTATIONAL_MAX_ITERATIONS - execs_since,
        execs_since >= DEFAULT_MUTATIONAL_MAX_ITERATIONS ==> remaining_iterations(drawn, execs_since)
            == 0,
        remaining_iterations(drawn, 0) == drawn,
{
}

/// A stage that draws its budget makes, after `execs_since` executions since it began,
/// no more mutations than the greatest budget less `execs_since`; each mutation
/// evaluates at most one input.
pub proof fn lemma_randomized_run_is_bounded<E, EM, I, T: MutatedTransform<I, S> + Clone, M: Mutator<T, S>, S: State + HasCurrentTestcase<I>, Z: Evaluator<E, EM, I, S>>(
    before: StageWorld<M, Z, E, Session<S, EM>>,
    helper: ExecutionCountRestartHelper,
    name: Seq<char>,
    after: StageWorld<M, Z, E, Session<S, EM>>,
    helper_after: ExecutionCountRestartHelper,
    result: Result<(), ErrorView>,
    run: Run<T, M, Z, E, EM, S>,
    execs_since: u64,
)
    requires
        performed::<E, EM, I, T, M, S, Z>(before, helper, name, after, helper_after, result, run),
        settings_of(before.state.state, name) matches Some(settings) && settings.iters is None
            && settings.fuzz_time is None,
        before.state.state.current_testcase_spec() is Some,
        run.transformed is Some,
        helper.execs_since_progress_start_spec(run.drawn_state, name).result == Ok::<u64, ErrorView>(
            execs_since,
        ),
    ensures
        run.copies.len() <= DEFAULT_MUTATIONAL_MAX_ITERATIONS,
        run.copies.len() <= remaining_iterations(run.drawn, execs_since),
        result is Ok ==> run.copies.len() == remaining_iterations(run.drawn, execs_since),
        execs_since <= DEFAULT_MUTATIONAL_MAX_ITERATIONS ==> run.copies.len()
            <= DEFAULT_MUTATIONAL_MAX_ITERATIONS - execs_since,
        execs_since >= DEFAULT_MUTATIONAL_MAX_ITERATIONS ==> run.copies.len() == 0,
{
    lemma_remaining_iterations_bounded(run.drawn, execs_since);
}

/// A stage whose time is fixed to the empty span makes no mutation, changes nothing,
/// and succeeds.
pub proof fn lemma_zero_fuzz_time_does_nothing<E, EM, I, T: MutatedTransform<I, S> + Clone, M: Mutator<T, S>, S: State + HasCurrentTestcase<I>, Z: Evaluator<E, EM, I, S>>(
    before: StageWorld<M, Z, E, Session<S, EM>>,
    helper: ExecutionCountRestartHelper,
    name: Seq<char>,
    after: StageWorld<M, Z, E, Session<S, EM>>,
    helper_after: ExecutionCountRestartHelper,
    result: Result<(), ErrorView>,
    run: Run<T, M, Z, E, EM, S>,
)
    requires
        performed::<E, EM, I, T, M, S, Z>(before, helper, name, after, helper_after, result, run),
        settings_of(before.state.state, name) matches Some(settings) && settings.fuzz_time matches Some(
            time,
        ) && time@ == 0,
        before.state.state.current_testcase_spec() is Some,
    ensures
        result == Ok::<(), ErrorView>(()),
        after == before,
        helper_after == helper,
        run.transformed is Some ==> run.copies.len() == 0,
{
    if run.transformed is Some && run.copies.len() > 0 {
        let time = settings_of(before.state.state, name).unwrap().fuzz_time;
        assert(may_go_on(run.start, run.readings[0], time));
    }
}

/// A stage whose iterations are fixed to zero makes no mutation, changes nothing, and
/// succeeds.
pub proof fn lemma_zero_iters_does_nothing<E, EM, I, T: MutatedTransform<I, S> + Clone, M: Mutator<T, S>, S: State + HasCurrentTestcase<I>, Z: Evaluator<E, EM, I, S>>(
    before: StageWorld<M, Z, E, Session<S, EM>>,
    helper: ExecutionCountRestartHelper,
    name: Seq<char>,
    after: StageWorld<M, Z, E, Session<S, EM>>,
    helper_after: ExecutionCountRestartHelper,
    result: Result<(), ErrorView>,
    run: Run<T, M, Z, E, EM, S>,
)
    requires
        performed::<E, EM, I, T, M, S, Z>(before, helper, name, after, helper_after, result, run),
        settings_of(before.state.state, name) matches Some(settings) && settings.iters == Some(0u64),
        before.state.state.current_testcase_spec() is Some,
    ensures
        result == Ok::<(), ErrorView>(()),
        after == before,
        helper_after == helper,
        run.transformed is Some ==> run.copies.len() == 0,
{
}

/// Whether the mutator of `world` can only pass on `input`.
pub open spec fn passes_on<T, M: Mutator<T, S>, Z, E, EM, S>(world: StageWorld<M, Z, E, Session<S, EM>>, input: T) -> bool {
    forall|outcome: MutateOutcome<M, S, T>| #[trigger]
        world.mutator.mutates(world.state.state, input, outcome) ==> outcome.result == Ok::<
            MutationResult,
            ErrorView,
        >(MutationResult::Skipped)
}

/// Whether the mutator of `world` leaves the state as it is when it is asked to
/// mutate `input`.
pub open spec fn keeps_state_on<T, M: Mutator<T, S>, Z, E, EM, S>(world: StageWorld<M, Z, E, Session<S, EM>>, input: T) -> bool {
    forall|outcome: MutateOutcome<M, S, T>| #[trigger]
        world.mutator.mutates(world.state.state, input, outcome) ==> outcome.state == world.state.state
}

/// A mutation on which the mutator can only pass evaluates nothing: the fuzzer and the
/// executor stay as they are, and the mutation succeeds.
pub proof fn lemma_skipped_mutation_evaluates_nothing<E, EM, I, T: MutatedTransform<I, S>, M: Mutator<T, S>, S, Z: Evaluator<E, EM, I, S>>(
    world: StageWorld<M, Z, E, Session<S, EM>>,
    input: T,
    outcome: StepOutcome<M, Z, E, Session<S, EM>>,
)
    requires
        stepped::<E, EM, I, T, M, S, Z>(world, input, outcome),
        passes_on(world, input),
    ensures
        outcome.result == Ok::<(), ErrorView>(()),
        outcome.world.fuzzer == world.fuzzer,
        outcome.world.executor == world.executor,
        keeps_state_on(world, input) ==> outcome.world.state == world.state,
{
    let trace = choose|trace: StepTrace<EM, I, T, M, S, Z, E>| #[trigger]
        step_follows::<E, EM, I, T, M, S, Z>(world, input, trace, outcome);
    assert(world.mutator.mutates(world.state.state, input, trace.mutated));
}

/// Mutations on each of which the mutator can only pass evaluate nothing: at every
/// point of the run the fuzzer and the executor are as they were at its beginning,
/// and every mutation succeeds. Where the mutator also leaves the state as it is,
/// the state is as it was, too.
pub proof fn lemma_skipped_mutations_evaluate_nothing<E, EM, I, T: MutatedTransform<I, S>, M: Mutator<T, S>, S, Z: Evaluator<E, EM, I, S>>(
    world: StageWorld<M, Z, E, Session<S, EM>>,
    inputs: Seq<T>,
    outcomes: Seq<StepOutcome<M, Z, E, Session<S, EM>>>,
    upto: int,
)
    requires
        steps_follow::<E, EM, I, T, M, S, Z>(world, inputs, outcomes),
        0 <= upto <= inputs.len(),
        forall|i: int|
            0 <= i < inputs.len() ==> passes_on(
                #[trigger] world_before(world, outcomes, i),
                inputs[i],
            ),
    ensures
        last_outcome(world, outcomes.take(upto)).result == Ok::<(), ErrorView>(()),
        last_outcome(world, outcomes.take(upto)).world.fuzzer == world.fuzzer,
        last_outcome(world, outcomes.take(upto)).world.executor == world.executor,
        (forall|i: int|
            0 <= i < inputs.len() ==> keeps_state_on(
                #[trigger] world_before(world, outcomes, i),
                inputs[i],
            )) ==> last_outcome(world, outcomes.take(upto)).world.state == world.state,
    decreases upto,
{
    if upto > 0 {
        lemma_skipped_mutations_evaluate_nothing::<E, EM, I, T, M, S, Z>(
            world,
            inputs,
            outcomes,
            upto - 1,
        );
        let i = upto - 1;
        let before = world_before(world, outcomes, i);
        assert(before == last_outcome(world, outcomes.take(i)).world) by {
            if i > 0 {
                assert(outcomes.take(i).last() == outcomes[i - 1]);
            }
        }
        assert(stepped::<E, EM, I, T, M, S, Z>(before, inputs[i], outcomes[i]));
        assert(passes_on(before, inputs[i]));
        lemma_skipped_mutation_evaluates_nothing::<E, EM, I, T, M, S, Z>(before, inputs[i], outcomes[i]);
        assert(outcomes.take(upto).last() == outcomes[i]);
        if forall|j: int|
            0 <= j < inputs.len() ==> keeps_state_on(
                #[trigger] world_before(world, outcomes, j),
                inputs[j],
            ) {
            assert(keeps_state_on(before, inputs[i]));
        }
    }
}

/// A stage with a fixed number of iterations whose mutator can only pass makes that
/// number of mutations, evaluates nothing, and succeeds; where the mutator also
/// leaves the state as it is, the state, and with it the corpus, stays as it was.
pub proof fn lemma_skipping_mutator_completes<E, EM, I, T: MutatedTransform<I, S> + Clone, M: Mutator<T, S>, S: State + HasCurrentTestcase<I>, Z: Evaluator<E, EM, I, S>>(
    before: StageWorld<M, Z, E, Session<S, EM>>,
    helper: ExecutionCountRestartHelper,
    name: Seq<char>,
    after: StageWorld<M, Z, E, Session<S, EM>>,
    helper_after: ExecutionCountRestartHelper,
    result: Result<(), ErrorView>,
    run: Run<T, M, Z, E, EM, S>,
    iters: u64,
)
    requires
        performed::<E, EM, I, T, M, S, Z>(before, helper, name, after, helper_after, result, run),
        settings_of(before.state.state, name) matches Some(settings) && settings.iters == Some(iters)
            && settings.fuzz_time is None,
        before.state.state.current_testcase_spec() is Some,
        run.transformed is Some,
        forall|i: int|
            0 <= i < run.copies.len() ==> passes_on(
                #[trigger] world_before(before, run.outcomes, i),
                run.copies[i],
            ),
    ensures
        result == Ok::<(), ErrorView>(()),
        run.copies.len() == iters,
        after.fuzzer == before.fuzzer,
        after.executor == before.executor,
        (forall|i: int|
            0 <= i < run.copies.len() ==> keeps_state_on(
                #[trigger] world_before(before, run.outcomes, i),
                run.copies[i],
            )) ==> after.state == before.state,
{
    lemma_skipped_mutations_evaluate_nothing::<E, EM, I, T, M, S, Z>(
        before,
        run.copies,
        run.outcomes,
        run.copies.len() as int,
    );
    assert(run.outcomes.take(run.copies.len() as int) =~= run.outcomes);
}

} // verus!
