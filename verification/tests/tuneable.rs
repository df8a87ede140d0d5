use std::time::Instant;

use fuzz_kernel::corpus::{CorpusId, Testcase};
use fuzz_kernel::error::{Error, ErrorKind};
use fuzz_kernel::fuzzer::{EvaluationOutcome, Evaluator, ExecuteInputResult};
use fuzz_kernel::inputs::BytesInput;
use fuzz_kernel::mutators::{MutateOutcome, MutationResult, Mutator, MutatorPostOutcome, NopMutator};
use fuzz_kernel::stages::mutational::{
    MutatedTransform, MutatedTransformPost, DEFAULT_MUTATIONAL_MAX_ITERATIONS,
};
use fuzz_kernel::stages::tuneable::{
    get_iters_by_name, get_iters_std, get_seed_fuzz_time_by_name, get_seed_fuzz_time_std,
    reset_by_name, reset_std, set_iters_by_name, set_iters_std, set_seed_fuzz_time_by_name,
    set_seed_fuzz_time_std, TuneableMutationalStage, STD_TUNEABLE_MUTATIONAL_STAGE_NAME,
};
use fuzz_kernel::state::{HasCorpus, HasExecutions, HasNamedMetadata, Session, StdState};
use fuzz_kernel::time::Duration;

type State = StdState<BytesInput>;

/// A mutator that counts its calls, appends a byte, and takes its time where told to.
struct CountingMutator {
    mutations: usize,
    post_execs: usize,
    answer: MutationResult,
    busy_millis: u128,
    fail_at: Option<usize>,
}

impl CountingMutator {
    fn new(answer: MutationResult) -> Self {
        CountingMutator { mutations: 0, post_execs: 0, answer, busy_millis: 0, fail_at: None }
    }
}

impl Mutator<BytesInput, State> for CountingMutator {
    fn mutates(self, _: State, _: BytesInput, _: MutateOutcome<Self, State, BytesInput>) -> bool {
        unreachable!()
    }

    fn post_execs(self, _: State, _: Option<CorpusId>, _: MutatorPostOutcome<Self, State>) -> bool {
        unreachable!()
    }

    fn mutate(&mut self, _state: &mut State, input: &mut BytesInput) -> Result<MutationResult, Error> {
        self.mutations += 1;
        if self.fail_at == Some(self.mutations) {
            return Err(Error::mutator("out of ideas"));
        }
        let started = Instant::now();
        while started.elapsed().as_millis() < self.busy_millis {}
        let mut bytes = input.bytes().clone();
        bytes.push(self.mutations as u8);
        *input = BytesInput::new(bytes);
        Ok(self.answer)
    }

    fn post_exec(&mut self, _state: &mut State, _new_corpus_id: Option<CorpusId>) -> Result<(), Error> {
        self.post_execs += 1;
        Ok(())
    }
}

/// A fuzzer that counts each evaluation as one execution and keeps what it was given.
#[derive(Default)]
struct CountingFuzzer {
    evaluated: Vec<Vec<u8>>,
}

impl Evaluator<(), (), BytesInput, State> for CountingFuzzer {
    fn evaluates(
        self,
        _: Session<State, ()>,
        _: (),
        _: BytesInput,
        _: EvaluationOutcome<Self, Session<State, ()>, ()>,
    ) -> bool {
        unreachable!()
    }

    fn evaluate_input(
        &mut self,
        state: &mut State,
        _executor: &mut (),
        _manager: &mut (),
        input: BytesInput,
    ) -> Result<(ExecuteInputResult, Option<CorpusId>), Error> {
        *state.executions_mut() += 1;
        self.evaluated.push(input.bytes().clone());
        Ok((ExecuteInputResult::Discarded, None))
    }
}

type Stage =
    TuneableMutationalStage<(), (), BytesInput, CountingMutator, State, BytesInput, CountingFuzzer>;

fn state_with_testcase(seed: u64) -> State {
    let mut state = State::new(seed);
    let id = state.corpus_mut().add(Testcase::new(BytesInput::new(vec![0x61]))).unwrap();
    state.corpus_mut().set_current(Some(id));
    state
}

fn run(stage: &mut Stage, state: &mut State) -> (Result<(), Error>, CountingFuzzer) {
    let mut fuzzer = CountingFuzzer::default();
    let result = stage.perform(&mut fuzzer, &mut (), state, &mut ());
    (result, fuzzer)
}

fn not_in_use(error: &Error) {
    assert_eq!(error.kind(), ErrorKind::IllegalState);
    assert_eq!(error.message(), "TuneableMutationalStage not in use");
}

#[test]
fn settings_of_a_stage_that_is_not_in_use_cannot_be_read_or_set() {
    let mut state = State::new(1);
    not_in_use(&set_iters_by_name(&mut state, 5, "stage").unwrap_err());
    not_in_use(&set_iters_std(&mut state, 5).unwrap_err());
    not_in_use(&get_iters_by_name(&state, "stage").unwrap_err());
    not_in_use(&get_iters_std(&state).unwrap_err());
    not_in_use(&set_seed_fuzz_time_by_name(&mut state, Duration::from_secs(1), "stage").unwrap_err());
    not_in_use(&set_seed_fuzz_time_std(&mut state, Duration::from_secs(1)).unwrap_err());
    not_in_use(&get_seed_fuzz_time_by_name(&state, "stage").unwrap_err());
    not_in_use(&get_seed_fuzz_time_std(&state).unwrap_err());
    not_in_use(&reset_by_name(&mut state, "stage").unwrap_err());
    not_in_use(&reset_std(&mut state).unwrap_err());
    assert_eq!(state.named_metadata_map().tuneable_stages.len(), 0);
}

#[test]
fn a_new_stage_installs_settings_that_fix_nothing() {
    let mut state = State::new(1);
    let stage = Stage::new(&mut state, CountingMutator::new(MutationResult::Mutated));
    assert_eq!(stage.name(), "TuneableMutationalStage");
    assert_eq!(STD_TUNEABLE_MUTATIONAL_STAGE_NAME, "TuneableMutationalStage");
    assert_eq!(get_iters_std(&state), Ok(None));
    assert_eq!(get_seed_fuzz_time_std(&state), Ok(None));
    assert_eq!(stage.fixed_iters(&state), Ok(None));
    assert_eq!(stage.seed_fuzz_time(&state), Ok(None));
    assert_eq!(state.named_metadata_map().tuneable_stages.len(), 1);
}

#[test]
fn a_second_stage_of_the_same_name_keeps_the_settings() {
    let mut state = State::new(1);
    let _first = Stage::with_name(&mut state, CountingMutator::new(MutationResult::Mutated), "a");
    set_iters_by_name(&mut state, 9, "a").unwrap();
    let second = Stage::transforming(&mut state, CountingMutator::new(MutationResult::Mutated), "a");
    assert_eq!(second.fixed_iters(&state), Ok(Some(9)));
    assert_eq!(state.named_metadata_map().tuneable_stages.len(), 1);
}

#[test]
fn iterations_are_set_and_read_by_name() {
    let mut state = State::new(1);
    let a = Stage::with_name(&mut state, CountingMutator::new(MutationResult::Mutated), "a");
    let b = Stage::with_name(&mut state, CountingMutator::new(MutationResult::Mutated), "b");
    let std = Stage::new(&mut state, CountingMutator::new(MutationResult::Mutated));
    set_iters_by_name(&mut state, 5, "a").unwrap();
    assert_eq!(get_iters_by_name(&state, "a"), Ok(Some(5)));
    assert_eq!(get_iters_by_name(&state, "b"), Ok(None));
    assert_eq!(get_iters_std(&state), Ok(None));
    b.set_iters(&mut state, 7).unwrap();
    Stage::set_iters_std(&mut state, 11).unwrap();
    assert_eq!(a.fixed_iters(&state), Ok(Some(5)));
    assert_eq!(b.fixed_iters(&state), Ok(Some(7)));
    assert_eq!(std.fixed_iters(&state), Ok(Some(11)));
    assert_eq!(Stage::iters_std(&state), Ok(Some(11)));
    assert_eq!(Stage::iters_by_name(&state, "b"), Ok(Some(7)));
    Stage::set_iters_by_name(&mut state, 13, "b").unwrap();
    assert_eq!(get_iters_by_name(&state, "b"), Ok(Some(13)));
    set_iters_std(&mut state, 0).unwrap();
    assert_eq!(get_iters_std(&state), Ok(Some(0)));
    assert_eq!(get_seed_fuzz_time_by_name(&state, "a"), Ok(None));
}

#[test]
fn fuzz_time_is_set_and_read_by_name() {
    let mut state = State::new(1);
    let a = Stage::with_name(&mut state, CountingMutator::new(MutationResult::Mutated), "a");
    let std = Stage::new(&mut state, CountingMutator::new(MutationResult::Mutated));
    set_seed_fuzz_time_by_name(&mut state, Duration::from_millis(50), "a").unwrap();
    assert_eq!(get_seed_fuzz_time_by_name(&state, "a"), Ok(Some(Duration::from_nanos(50_000_000))));
    assert_eq!(get_seed_fuzz_time_std(&state), Ok(None));
    set_seed_fuzz_time_std(&mut state, Duration::from_secs(2)).unwrap();
    assert_eq!(std.seed_fuzz_time(&state), Ok(Some(Duration::from_secs(2))));
    assert_eq!(a.seed_fuzz_time_std(&state), Ok(Some(Duration::from_secs(2))));
    assert_eq!(std.seed_fuzz_time_by_name(&state, "a"), Ok(Some(Duration::from_millis(50))));
    a.set_seed_fuzz_time(&mut state, Duration::zero()).unwrap();
    assert_eq!(a.seed_fuzz_time(&state), Ok(Some(Duration::from_nanos(0))));
    Stage::set_seed_fuzz_time_std(&mut state, Duration::from_millis(1)).unwrap();
    Stage::set_seed_fuzz_time_by_name(&mut state, Duration::from_millis(2), "a").unwrap();
    assert_eq!(get_seed_fuzz_time_std(&state), Ok(Some(Duration::from_millis(1))));
    assert_eq!(get_seed_fuzz_time_by_name(&state, "a"), Ok(Some(Duration::from_millis(2))));
    assert_eq!(get_iters_by_name(&state, "a"), Ok(None));
}

#[test]
fn reset_clears_both_settings() {
    let mut state = State::new(1);
    let a = Stage::with_name(&mut state, CountingMutator::new(MutationResult::Mutated), "a");
    let _std = Stage::new(&mut state, CountingMutator::new(MutationResult::Mutated));
    set_iters_by_name(&mut state, 5, "a").unwrap();
    set_seed_fuzz_time_by_name(&mut state, Duration::from_millis(50), "a").unwrap();
    set_iters_std(&mut state, 6).unwrap();
    set_seed_fuzz_time_std(&mut state, Duration::from_millis(60)).unwrap();
    reset_by_name(&mut state, "a").unwrap();
    assert_eq!(get_iters_by_name(&state, "a"), Ok(None));
    assert_eq!(get_seed_fuzz_time_by_name(&state, "a"), Ok(None));
    assert_eq!(get_iters_std(&state), Ok(Some(6)));
    assert_eq!(get_seed_fuzz_time_std(&state), Ok(Some(Duration::from_millis(60))));
    reset_std(&mut state).unwrap();
    assert_eq!(get_iters_std(&state), Ok(None));
    assert_eq!(get_seed_fuzz_time_std(&state), Ok(None));
    a.set_iters(&mut state, 1).unwrap();
    a.reset(&mut state).unwrap();
    assert_eq!(a.fixed_iters(&state), Ok(None));
    set_iters_std(&mut state, 1).unwrap();
    Stage::reset_std(&mut state).unwrap();
    assert_eq!(get_iters_std(&state), Ok(None));
    set_iters_by_name(&mut state, 1, "a").unwrap();
    Stage::reset_by_name(&mut state, "a").unwrap();
    assert_eq!(get_iters_by_name(&state, "a"), Ok(None));
}

#[test]
fn five_iterations_make_five_mutations() {
    let mut state = state_with_testcase(1);
    let mut stage = Stage::new(&mut state, CountingMutator::new(MutationResult::Mutated));
    set_iters_std(&mut state, 5).unwrap();
    let (result, fuzzer) = run(&mut stage, &mut state);
    assert_eq!(result, Ok(()));
    assert_eq!(stage.mutator().mutations, 5);
    assert_eq!(stage.mutator().post_execs, 5);
    assert_eq!(*state.executions(), 5);
    assert_eq!(
        fuzzer.evaluated,
        vec![vec![0x61, 1], vec![0x61, 2], vec![0x61, 3], vec![0x61, 4], vec![0x61, 5]]
    );
    assert_eq!(state.corpus().count(), 1);
}

#[test]
fn zero_iterations_make_no_mutation() {
    let mut state = state_with_testcase(1);
    let mut stage = Stage::new(&mut state, CountingMutator::new(MutationResult::Mutated));
    set_iters_std(&mut state, 0).unwrap();
    let (result, fuzzer) = run(&mut stage, &mut state);
    assert_eq!(result, Ok(()));
    assert_eq!(stage.mutator().mutations, 0);
    assert!(fuzzer.evaluated.is_empty());
    assert_eq!(*state.executions(), 0);
}

#[test]
fn zero_fuzz_time_makes_no_mutation() {
    let mut state = state_with_testcase(1);
    let mut stage = Stage::new(&mut state, CountingMutator::new(MutationResult::Mutated));
    set_seed_fuzz_time_std(&mut state, Duration::zero()).unwrap();
    let (result, fuzzer) = run(&mut stage, &mut state);
    assert_eq!(result, Ok(()));
    assert_eq!(stage.mutator().mutations, 0);
    assert!(fuzzer.evaluated.is_empty());
    set_iters_std(&mut state, 1000).unwrap();
    let (result, fuzzer) = run(&mut stage, &mut state);
    assert_eq!(result, Ok(()));
    assert_eq!(stage.mutator().mutations, 0);
    assert!(fuzzer.evaluated.is_empty());
}

#[test]
fn a_mutator_that_always_skips_evaluates_nothing() {
    let mut state = state_with_testcase(1);
    let mut stage = Stage::new(&mut state, CountingMutator::new(MutationResult::Skipped));
    set_iters_std(&mut state, 17).unwrap();
    let (result, fuzzer) = run(&mut stage, &mut state);
    assert_eq!(result, Ok(()));
    assert_eq!(stage.mutator().mutations, 17);
    assert_eq!(stage.mutator().post_execs, 0);
    assert!(fuzzer.evaluated.is_empty());
    assert_eq!(*state.executions(), 0);
    assert_eq!(state.corpus().count(), 1);
    assert_eq!(state.corpus().get(CorpusId(0)).unwrap().input.bytes(), &vec![0x61]);
    assert_eq!(state.solutions().count(), 0);
}

#[test]
fn the_nop_mutator_answers_what_it_was_told() {
    let mut state = state_with_testcase(1);
    let mut input = BytesInput::new(vec![1, 2]);
    let mut skip = NopMutator::new(MutationResult::Skipped);
    let mut go = NopMutator::new(MutationResult::Mutated);
    assert_eq!(skip.mutate(&mut state, &mut input), Ok(MutationResult::Skipped));
    assert_eq!(go.mutate(&mut state, &mut input), Ok(MutationResult::Mutated));
    assert_eq!(input.bytes(), &vec![1, 2]);
    assert_eq!(Mutator::<BytesInput, State>::post_exec(&mut go, &mut state, Some(CorpusId(3))), Ok(()));
}

#[test]
fn a_timed_stage_stops_when_its_time_is_up() {
    let mut state = state_with_testcase(1);
    let mut mutator = CountingMutator::new(MutationResult::Mutated);
    mutator.busy_millis = 20;
    let mut stage = Stage::new(&mut state, mutator);
    set_seed_fuzz_time_std(&mut state, Duration::from_millis(50)).unwrap();
    let (result, fuzzer) = run(&mut stage, &mut state);
    assert_eq!(result, Ok(()));
    let mutations = stage.mutator().mutations;
    assert!((2..=3).contains(&mutations), "{} mutations", mutations);
    assert_eq!(fuzzer.evaluated.len(), mutations);
}

#[test]
fn time_ends_a_stage_before_its_iterations_are_done() {
    let mut state = state_with_testcase(1);
    let mut mutator = CountingMutator::new(MutationResult::Mutated);
    mutator.busy_millis = 1;
    let mut stage = Stage::new(&mut state, mutator);
    set_iters_std(&mut state, 1000).unwrap();
    set_seed_fuzz_time_std(&mut state, Duration::from_millis(10)).unwrap();
    let started = Instant::now();
    let (result, _) = run(&mut stage, &mut state);
    assert_eq!(result, Ok(()));
    assert!(stage.mutator().mutations < 1000);
    assert!(stage.mutator().mutations >= 1);
    assert!(started.elapsed().as_millis() >= 10);
}

#[test]
fn iterations_end_a_stage_before_its_time_is_up() {
    let mut state = state_with_testcase(1);
    let mut stage = Stage::new(&mut state, CountingMutator::new(MutationResult::Mutated));
    set_iters_std(&mut state, 3).unwrap();
    set_seed_fuzz_time_std(&mut state, Duration::from_secs(3600)).unwrap();
    let (result, _) = run(&mut stage, &mut state);
    assert_eq!(result, Ok(()));
    assert_eq!(stage.mutator().mutations, 3);
}

#[test]
fn a_stage_without_settings_draws_its_budget() {
    for seed in 0..20u64 {
        let mut state = state_with_testcase(seed);
        let mut stage = Stage::new(&mut state, CountingMutator::new(MutationResult::Mutated));
        assert_eq!(stage.should_restart(&mut state), Ok(true));
        let (result, _) = run(&mut stage, &mut state);
        assert_eq!(result, Ok(()));
        let mutations = stage.mutator().mutations;
        assert!(mutations >= 1);
        assert!(mutations <= DEFAULT_MUTATIONAL_MAX_ITERATIONS);
        assert_eq!(*state.executions(), mutations as u64);
        assert_eq!(stage.clear_progress(&mut state), Ok(()));
    }
    assert_eq!(DEFAULT_MUTATIONAL_MAX_ITERATIONS, 128);
}

#[test]
fn the_drawn_budget_is_within_its_bounds() {
    let mut state = state_with_testcase(3);
    let stage = Stage::new(&mut state, CountingMutator::new(MutationResult::Mutated));
    let mut seen_other = false;
    let first = stage.iterations(&mut state).unwrap();
    for _ in 0..200 {
        let drawn = stage.iterations(&mut state).unwrap();
        assert!((1..=128).contains(&drawn));
        seen_other = seen_other || drawn != first;
    }
    assert!(seen_other);
}

#[test]
fn a_stage_needs_to_know_where_its_work_began_to_draw_its_budget() {
    let mut state = state_with_testcase(1);
    let mut stage = Stage::new(&mut state, CountingMutator::new(MutationResult::Mutated));
    let (result, fuzzer) = run(&mut stage, &mut state);
    let error = result.unwrap_err();
    assert_eq!(error.kind(), ErrorKind::IllegalState);
    assert_eq!(error.message(), "The stage has not noted where its work began");
    assert!(fuzzer.evaluated.is_empty());
    assert_eq!(stage.mutator().mutations, 0);
}

fn drawn_budget(seed: u64) -> usize {
    let mut state = state_with_testcase(seed);
    let mut stage = Stage::new(&mut state, CountingMutator::new(MutationResult::Mutated));
    stage.should_restart(&mut state).unwrap();
    run(&mut stage, &mut state).0.unwrap();
    stage.mutator().mutations
}

#[test]
fn a_resumed_stage_does_what_is_left_of_its_budget() {
    let mut resumed = 0;
    for seed in 0..40u64 {
        let budget = drawn_budget(seed);
        let mut state = state_with_testcase(seed);
        let mut interrupted = Stage::new(&mut state, CountingMutator::new(MutationResult::Mutated));
        interrupted.should_restart(&mut state).unwrap();
        *state.executions_mut() += 7;
        let mut stage = Stage::new(&mut state, CountingMutator::new(MutationResult::Mutated));
        assert_eq!(stage.should_restart(&mut state), Ok(true));
        assert_eq!(stage.execs_since_progress_start(&state), Ok(7));
        let (result, _) = run(&mut stage, &mut state);
        assert_eq!(result, Ok(()));
        assert_eq!(stage.mutator().mutations, budget.saturating_sub(7));
        assert!(stage.mutator().mutations + 7 <= 128 || stage.mutator().mutations == 0);
        if budget > 7 {
            resumed += 1;
        }
    }
    assert!(resumed > 0);
}

#[test]
fn progress_starts_at_zero_after_it_was_cleared() {
    let mut state = state_with_testcase(1);
    let mut stage = Stage::new(&mut state, CountingMutator::new(MutationResult::Mutated));
    stage.should_restart(&mut state).unwrap();
    *state.executions_mut() += 42;
    assert_eq!(stage.execs_since_progress_start(&state), Ok(42));
    stage.clear_progress(&mut state).unwrap();
    assert_eq!(state.named_metadata_map().execution_counts.len(), 0);
    stage.should_restart(&mut state).unwrap();
    assert_eq!(stage.execs_since_progress_start(&state), Ok(0));
    *state.executions_mut() += 1;
    assert_eq!(stage.execs_since_progress_start(&state), Ok(1));
}

#[test]
fn a_stage_without_a_current_testcase_fails() {
    let mut state = State::new(1);
    let mut stage = Stage::new(&mut state, CountingMutator::new(MutationResult::Mutated));
    set_iters_std(&mut state, 5).unwrap();
    let (result, fuzzer) = run(&mut stage, &mut state);
    let error = result.unwrap_err();
    assert_eq!(error.kind(), ErrorKind::KeyNotFound);
    assert_eq!(error.message(), "We are not currently processing a testcase");
    assert!(fuzzer.evaluated.is_empty());
    state.corpus_mut().set_current(Some(CorpusId(4)));
    let (result, _) = run(&mut stage, &mut state);
    assert_eq!(result.unwrap_err().message(), "We are not currently processing a testcase");
}

#[test]
fn a_stage_whose_settings_are_gone_fails() {
    let mut state = state_with_testcase(1);
    let mut stage = Stage::with_name(&mut state, CountingMutator::new(MutationResult::Mutated), "a");
    state.named_metadata_map_mut().tuneable_stages.remove("a");
    let (result, _) = run(&mut stage, &mut state);
    not_in_use(&result.unwrap_err());
    assert_eq!(stage.mutator().mutations, 0);
}

#[test]
fn an_error_of_the_mutator_ends_the_stage() {
    let mut state = state_with_testcase(1);
    let mut mutator = CountingMutator::new(MutationResult::Mutated);
    mutator.fail_at = Some(3);
    let mut stage = Stage::new(&mut state, mutator);
    set_iters_std(&mut state, 10).unwrap();
    let (result, fuzzer) = run(&mut stage, &mut state);
    let error = result.unwrap_err();
    assert_eq!(error.kind(), ErrorKind::Mutator);
    assert_eq!(error.message(), "out of ideas");
    assert_eq!(stage.mutator().mutations, 3);
    assert_eq!(fuzzer.evaluated.len(), 2);
}

#[test]
fn one_mutation_works_on_a_copy_of_the_input() {
    let mut state = state_with_testcase(1);
    let mut stage = Stage::new(&mut state, CountingMutator::new(MutationResult::Mutated));
    let mut fuzzer = CountingFuzzer::default();
    let input = BytesInput::new(vec![9]);
    stage.perform_mutation(&mut fuzzer, &mut (), &mut state, &mut (), &input).unwrap();
    stage.perform_mutation(&mut fuzzer, &mut (), &mut state, &mut (), &input).unwrap();
    assert_eq!(input.bytes(), &vec![9]);
    assert_eq!(fuzzer.evaluated, vec![vec![9, 1], vec![9, 2]]);
    stage.mutator_mut().answer = MutationResult::Skipped;
    stage.perform_mutation(&mut fuzzer, &mut (), &mut state, &mut (), &input).unwrap();
    assert_eq!(fuzzer.evaluated.len(), 2);
    assert_eq!(stage.mutator().mutations, 3);
    assert_eq!(stage.mutator().post_execs, 2);
}

#[test]
fn the_unchanging_transform_gives_the_stored_input_back() {
    let state = state_with_testcase(1);
    let testcase = Testcase::new(BytesInput::new(vec![1, 2, 3]));
    let transformed: BytesInput =
        <BytesInput as MutatedTransform<BytesInput, State>>::try_transform_from(&testcase, &state).unwrap();
    assert_eq!(transformed.bytes(), &vec![1, 2, 3]);
    let (lowered, post) =
        <BytesInput as MutatedTransform<BytesInput, State>>::try_transform_into(transformed, &state).unwrap();
    assert_eq!(lowered, testcase.input);
    let mut state = state;
    assert_eq!(post.post_exec(&mut state, Some(CorpusId(0))), Ok(()));
    assert_eq!(*state.executions(), 0);
}

#[test]
fn a_stage_is_copied_with_its_mutator() {
    let mut state = state_with_testcase(1);
    let mut stage: TuneableMutationalStage<(), (), BytesInput, NopMutator, State, BytesInput, CountingFuzzer> =
        TuneableMutationalStage::with_name(&mut state, NopMutator::new(MutationResult::Skipped), "copied");
    stage.should_restart(&mut state).unwrap();
    let copy = stage.clone();
    assert_eq!(copy.name(), "copied");
    assert_eq!(copy.mutator(), &NopMutator::new(MutationResult::Skipped));
    let mut copy = copy;
    assert_eq!(copy.execs_since_progress_start(&state), Ok(0));
}
