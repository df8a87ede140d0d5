use fuzz_kernel::corpus::{CorpusId, Testcase};
use fuzz_kernel::error::{Error, ErrorKind, ErrorView};
use fuzz_kernel::executors::{Executor, ExitKind, Harness, HarnessOutcome, InProcessExecutor};
use fuzz_kernel::feedbacks::map::MaxMapFeedback;
use fuzz_kernel::feedbacks::{
    CombinedFeedback, ConstFeedback, CrashFeedback, EagerOrFeedback, FastOrFeedback, Feedback, Hits,
    MetadataOutcome, Outcome, TimeFeedback,
};
use fuzz_kernel::fuzzer::{execute_input, Evaluator, ExecuteInputResult, StdFuzzer};
use fuzz_kernel::inputs::BytesInput;
use fuzz_kernel::mutators::{
    ByteRandMutator, MutateOutcome, MutationResult, Mutator, MutatorPostOutcome,
};
use fuzz_kernel::named::Named;
use fuzz_kernel::observers::{MapObserver, ObserverList, ObserversTuple, TimeObserver};
use fuzz_kernel::schedulers::{QueueScheduler, Scheduler};
use fuzz_kernel::stages::mutational::DEFAULT_MUTATIONAL_MAX_ITERATIONS;
use fuzz_kernel::stages::tuneable::{set_iters_by_name, set_iters_std, TuneableMutationalStage};
use fuzz_kernel::stages::{perform_restartable, Stage, StagesTuple};
use fuzz_kernel::state::{HasCorpus, HasExecutions, HasNamedMetadata, Session, StdState};

type State = StdState<BytesInput>;

/// A harness that reports how far an input gets, and crashes on the input that holds
/// the one byte `a`.
struct Signals {
    runs: usize,
}

impl Harness<BytesInput, ObserverList> for Signals {
    fn ran(self, _: BytesInput, _: ObserverList, _: HarnessOutcome<Self, ObserverList>) -> bool {
        unreachable!()
    }

    fn run(&mut self, input: &BytesInput, observers: &mut ObserverList) -> ExitKind {
        self.runs += 1;
        let map = &mut observers.maps[0];
        map.set(0, 1);
        if input.bytes().first() == Some(&b'a') {
            map.set(1, 1);
            if input.bytes().len() == 1 {
                return ExitKind::Crash;
            }
        }
        ExitKind::Normal
    }
}

type SignalsExecutor = InProcessExecutor<Signals, ObserverList>;

fn executor() -> SignalsExecutor {
    let mut observers = ObserverList::new();
    observers.maps.push(MapObserver::new("signals", 16));
    observers.time.push(TimeObserver::new("time"));
    InProcessExecutor::new(Signals { runs: 0 }, observers)
}

/// A mutator that counts up the first byte of the input.
struct CountUp {
    next: u8,
}

impl Mutator<BytesInput, State> for CountUp {
    fn mutates(self, _: State, _: BytesInput, _: MutateOutcome<Self, State, BytesInput>) -> bool {
        unreachable!()
    }

    fn post_execs(self, _: State, _: Option<CorpusId>, _: MutatorPostOutcome<Self, State>) -> bool {
        unreachable!()
    }

    fn mutate(&mut self, _state: &mut State, input: &mut BytesInput) -> Result<MutationResult, Error> {
        self.next = self.next.wrapping_add(1);
        if !input.set(0, self.next) {
            return Ok(MutationResult::Skipped);
        }
        Ok(MutationResult::Mutated)
    }

    fn post_exec(&mut self, _state: &mut State, _new_corpus_id: Option<CorpusId>) -> Result<(), Error> {
        Ok(())
    }
}

/// A feedback that counts the runs that it judges, and finds none of them interesting.
struct SideEffectCounter {
    runs: usize,
}

impl Named for SideEffectCounter {
    fn name_view(&self) -> vstd::seq::Seq<char> {
        unreachable!()
    }

    fn name(&self) -> &str {
        "SideEffectCounter"
    }
}

impl Feedback<(), BytesInput, ObserverList, State> for SideEffectCounter {
    fn init_states(self, _: State, _: Outcome<Self, State, Result<(), ErrorView>>) -> bool {
        unreachable!()
    }

    fn judges(
        self,
        _: Session<State, ()>,
        _: BytesInput,
        _: ObserverList,
        _: ExitKind,
        _: Outcome<Self, Session<State, ()>, Result<bool, ErrorView>>,
    ) -> bool {
        unreachable!()
    }

    fn last_result_spec(&self) -> Result<bool, ErrorView> {
        unreachable!()
    }

    fn hit_feedbacks_spec(&self) -> Hits {
        unreachable!()
    }

    fn negated_hit_feedbacks_spec(&self) -> Hits {
        unreachable!()
    }

    fn appends_metadata(
        self,
        _: Session<State, ()>,
        _: ObserverList,
        _: Testcase<BytesInput>,
        _: MetadataOutcome<Self, Session<State, ()>, BytesInput>,
    ) -> bool {
        unreachable!()
    }

    fn discards_metadata(
        self,
        _: State,
        _: BytesInput,
        _: Outcome<Self, State, Result<(), ErrorView>>,
    ) -> bool {
        unreachable!()
    }

    fn init_state(&mut self, _state: &mut State) -> Result<(), Error> {
        Ok(())
    }

    fn is_interesting(
        &mut self,
        _state: &mut State,
        _manager: &mut (),
        _input: &BytesInput,
        _observers: &ObserverList,
        _exit_kind: &ExitKind,
    ) -> Result<bool, Error> {
        self.runs += 1;
        Ok(false)
    }

    fn last_result(&self) -> Result<bool, Error> {
        Ok(false)
    }

    fn append_hit_feedbacks(&self, _list: &mut Vec<String>) -> Result<(), Error> {
        Ok(())
    }

    fn append_negated_hit_feedbacks(&self, list: &mut Vec<String>) -> Result<(), Error> {
        list.push(self.name().to_string());
        Ok(())
    }

    fn append_metadata(
        &mut self,
        _state: &mut State,
        _manager: &mut (),
        _observers: &ObserverList,
        _testcase: &mut Testcase<BytesInput>,
    ) -> Result<(), Error> {
        Ok(())
    }

    fn discard_metadata(&mut self, _state: &mut State, _input: &BytesInput) -> Result<(), Error> {
        Ok(())
    }
}

type MapFuzzer = StdFuzzer<MaxMapFeedback, CrashFeedback, QueueScheduler>;

fn map_fuzzer(executor: &SignalsExecutor, state: &mut State) -> MapFuzzer {
    let observers: &ObserverList = Executor::<(), BytesInput, State>::observers(executor);
    let mut feedback = MaxMapFeedback::new(&observers.maps[0]);
    Feedback::<(), BytesInput, ObserverList, State>::init_state(&mut feedback, state).unwrap();
    StdFuzzer::new(QueueScheduler::new(), feedback, CrashFeedback::new())
}

fn input(bytes: &[u8]) -> BytesInput {
    BytesInput::new(bytes.to_vec())
}

#[test]
fn an_input_that_shows_something_new_enters_the_corpus() {
    let mut state = State::new(1);
    let mut executor = executor();
    let mut fuzzer = map_fuzzer(&executor, &mut state);
    let first = fuzzer.evaluate_input(&mut state, &mut executor, &mut (), input(b"x"));
    assert_eq!(first, Ok((ExecuteInputResult::Corpus, Some(CorpusId(0)))));
    let again = fuzzer.evaluate_input(&mut state, &mut executor, &mut (), input(b"y"));
    assert_eq!(again, Ok((ExecuteInputResult::Discarded, None)));
    let further = fuzzer.evaluate_input(&mut state, &mut executor, &mut (), input(b"ab"));
    assert_eq!(further, Ok((ExecuteInputResult::Corpus, Some(CorpusId(1)))));
    assert_eq!(state.corpus().count(), 2);
    assert_eq!(state.solutions().count(), 0);
    assert_eq!(*state.executions(), 3);
    assert_eq!(executor.harness().runs, 3);
    assert_eq!(state.corpus().get(CorpusId(1)).unwrap().input.bytes(), &b"ab".to_vec());
    let history = &state.named_metadata_map().map_feedbacks.get("signals").unwrap().history_map;
    assert_eq!(history[..3], [1, 1, 0]);
    assert_eq!(history.len(), 16);
    assert_eq!(fuzzer.feedback().last_result, Some(true));
}

#[test]
fn a_crash_enters_the_solutions_and_not_the_corpus() {
    let mut state = State::new(1);
    let mut executor = executor();
    let mut fuzzer = map_fuzzer(&executor, &mut state);
    let result = fuzzer.evaluate_input(&mut state, &mut executor, &mut (), input(b"a"));
    assert_eq!(result, Ok((ExecuteInputResult::Solution, None)));
    assert_eq!(state.corpus().count(), 0);
    assert_eq!(state.solutions().count(), 1);
    assert_eq!(state.solutions().get(CorpusId(0)).unwrap().input.bytes(), &vec![0x61]);
    assert_eq!(fuzzer.objective().last_result, Some(true));
    assert_eq!(fuzzer.feedback().last_result, Some(true));
}

#[test]
fn the_crash_is_found_within_the_greatest_budget() {
    let mut state = State::new(7);
    let mut executor = executor();
    let mut fuzzer = map_fuzzer(&executor, &mut state);
    fuzzer.evaluate_input(&mut state, &mut executor, &mut (), input(&[0])).unwrap();
    let mut stage: TuneableMutationalStage<SignalsExecutor, (), BytesInput, CountUp, State, BytesInput, MapFuzzer> =
        TuneableMutationalStage::new(&mut state, CountUp { next: 0 });
    set_iters_std(&mut state, DEFAULT_MUTATIONAL_MAX_ITERATIONS as u64).unwrap();
    let mut stages = (stage, ());
    let fuzzed = fuzzer.fuzz_one::<_, (), BytesInput, _, _>(&mut stages, &mut executor, &mut state, &mut ());
    assert_eq!(fuzzed, Ok(CorpusId(0)));
    stage = stages.0;
    assert_eq!(stage.mutator().next, 128);
    assert_eq!(state.solutions().count(), 1);
    let solution = state.solutions().get(CorpusId(0)).unwrap();
    assert_eq!(solution.input.bytes()[0], 0x61);
    assert_eq!(*state.executions(), 129);
    assert_eq!(state.corpus().count(), 1);
    assert_eq!(state.corpus().get(CorpusId(0)).unwrap().input.bytes(), &vec![0]);
}

#[test]
fn random_bytes_find_the_crash() {
    let mut state = State::new(42);
    let mut executor = executor();
    let mut fuzzer = map_fuzzer(&executor, &mut state);
    fuzzer.evaluate_input(&mut state, &mut executor, &mut (), input(&[0])).unwrap();
    let stage: TuneableMutationalStage<SignalsExecutor, (), BytesInput, ByteRandMutator, State, BytesInput, MapFuzzer> =
        TuneableMutationalStage::new(&mut state, ByteRandMutator::new());
    let mut stages = (stage, ());
    let mut rounds = 0;
    while state.solutions().count() == 0 && rounds < 1000 {
        fuzzer.fuzz_one::<_, (), BytesInput, _, _>(&mut stages, &mut executor, &mut state, &mut ()).unwrap();
        rounds += 1;
    }
    assert!(state.solutions().count() >= 1);
    assert_eq!(state.solutions().get(CorpusId(0)).unwrap().input.bytes(), &vec![0x61]);
    assert_eq!(state.named_metadata_map().execution_counts.len(), 0);
}

#[test]
fn the_byte_mutator_replaces_one_byte() {
    let mut state = State::new(5);
    let mut mutator = ByteRandMutator::new();
    let mut changed = 0;
    for _ in 0..200 {
        let mut bytes = input(&[1, 2, 3, 4]);
        assert_eq!(mutator.mutate(&mut state, &mut bytes), Ok(MutationResult::Mutated));
        assert_eq!(bytes.len(), 4);
        let different = bytes.bytes().iter().zip([1u8, 2, 3, 4]).filter(|(a, b)| **a != *b).count();
        assert!(different <= 1);
        changed += different;
    }
    assert!(changed > 100);
    let mut empty = input(&[]);
    assert_eq!(mutator.mutate(&mut state, &mut empty), Ok(MutationResult::Skipped));
    assert_eq!(empty.len(), 0);
    assert_eq!(Mutator::<BytesInput, State>::post_exec(&mut mutator, &mut state, None), Ok(()));
}

#[test]
fn eager_or_counts_every_run_and_fast_or_none() {
    let mut state = State::new(1);
    let mut executor = executor();
    let eager: EagerOrFeedback<ConstFeedback, SideEffectCounter> =
        CombinedFeedback::new(ConstFeedback::True, SideEffectCounter { runs: 0 });
    let mut eager_fuzzer = StdFuzzer::new(QueueScheduler::new(), eager, ConstFeedback::False);
    let fast: FastOrFeedback<ConstFeedback, SideEffectCounter> =
        CombinedFeedback::new(ConstFeedback::True, SideEffectCounter { runs: 0 });
    let mut fast_fuzzer = StdFuzzer::new(QueueScheduler::new(), fast, ConstFeedback::False);
    for run in 1..=4usize {
        let kept = eager_fuzzer.evaluate_input(&mut state, &mut executor, &mut (), input(&[run as u8])).unwrap();
        assert_eq!(kept.0, ExecuteInputResult::Corpus);
        fast_fuzzer.evaluate_input(&mut state, &mut executor, &mut (), input(&[run as u8])).unwrap();
        assert_eq!(eager_fuzzer.feedback().second.runs, run);
        assert_eq!(fast_fuzzer.feedback().second.runs, 0);
    }
    assert_eq!(state.corpus().count(), 8);
}

#[test]
fn the_time_feedback_notes_the_run_time_on_the_testcase() {
    let mut state = State::new(1);
    let mut executor = executor();
    let time = {
        let observers: &ObserverList = Executor::<(), BytesInput, State>::observers(&executor);
        TimeFeedback::new(&observers.time[0])
    };
    let feedback: EagerOrFeedback<ConstFeedback, TimeFeedback> =
        CombinedFeedback::new(ConstFeedback::True, time);
    let mut fuzzer = StdFuzzer::new(QueueScheduler::new(), feedback, CrashFeedback::new());
    let kept = fuzzer.evaluate_input(&mut state, &mut executor, &mut (), input(b"x")).unwrap();
    assert_eq!(kept, (ExecuteInputResult::Corpus, Some(CorpusId(0))));
    assert!(state.corpus().get(CorpusId(0)).unwrap().exec_time.is_some());
    let solved = fuzzer.evaluate_input(&mut state, &mut executor, &mut (), input(b"a")).unwrap();
    assert_eq!(solved, (ExecuteInputResult::Solution, None));
    assert_eq!(state.solutions().get(CorpusId(0)).unwrap().exec_time, None);
}

#[test]
fn executing_an_input_clears_the_observers_first() {
    let mut state = State::new(1);
    let mut executor = executor();
    assert_eq!(execute_input(&mut state, &mut executor, &mut (), &input(b"ab")), Ok(ExitKind::Normal));
    {
        let observers: &ObserverList = Executor::<(), BytesInput, State>::observers(&executor);
        assert_eq!(observers.maps[0].map()[..3], [1, 1, 0]);
        assert!(observers.time[0].last_runtime().is_some());
    }
    assert_eq!(execute_input(&mut state, &mut executor, &mut (), &input(b"x")), Ok(ExitKind::Normal));
    let observers: &ObserverList = Executor::<(), BytesInput, State>::observers(&executor);
    assert_eq!(observers.maps[0].map()[..3], [1, 0, 0]);
    assert_eq!(*state.executions(), 2);
    assert_eq!(execute_input(&mut state, &mut executor, &mut (), &input(b"a")), Ok(ExitKind::Crash));
}

#[test]
fn the_execution_counter_does_not_wrap() {
    let mut state = State::new(1);
    let mut executor = executor();
    *state.executions_mut() = u64::MAX;
    let error = execute_input(&mut state, &mut executor, &mut (), &input(b"x")).unwrap_err();
    assert_eq!(error.kind(), ErrorKind::IllegalState);
    assert_eq!(error.message(), "The execution counter cannot count any further");
    assert_eq!(*state.executions(), u64::MAX);
}

#[test]
fn a_map_feedback_says_no_before_any_run() {
    let mut state = State::new(1);
    let mut observers = ObserverList::new();
    observers.maps.push(MapObserver::new("signals", 16));
    let mut feedback = MaxMapFeedback::new(&observers.maps[0]);
    assert_eq!(feedback.name(), "signals");
    Feedback::<(), BytesInput, ObserverList, State>::init_state(&mut feedback, &mut state).unwrap();
    observers.maps[0].set(3, 9);
    ObserversTuple::<BytesInput, State>::pre_exec_all(&mut observers, &mut state, &input(b"x")).unwrap();
    let verdict = feedback.is_interesting(&mut state, &mut (), &input(b"x"), &observers, &ExitKind::Normal);
    assert_eq!(verdict, Ok(false));
    assert_eq!(Feedback::<(), BytesInput, ObserverList, State>::last_result(&feedback), Ok(false));
}

#[test]
fn a_map_feedback_raises_its_history() {
    let mut state = State::new(1);
    let mut observers = ObserverList::new();
    observers.maps.push(MapObserver::new("signals", 4));
    let mut feedback = MaxMapFeedback::new(&observers.maps[0]);
    Feedback::<(), BytesInput, ObserverList, State>::init_state(&mut feedback, &mut state).unwrap();
    Feedback::<(), BytesInput, ObserverList, State>::init_state(&mut feedback, &mut state).unwrap();
    assert_eq!(state.named_metadata_map().map_feedbacks.len(), 1);
    let mut judge = |values: [u8; 4], state: &mut State, feedback: &mut MaxMapFeedback| {
        for (i, v) in values.iter().enumerate() {
            observers.maps[0].set(i, *v);
        }
        feedback.is_interesting(state, &mut (), &input(b"x"), &observers, &ExitKind::Normal)
    };
    assert_eq!(judge([0, 2, 0, 0], &mut state, &mut feedback), Ok(true));
    assert_eq!(judge([0, 2, 0, 0], &mut state, &mut feedback), Ok(false));
    assert_eq!(judge([0, 1, 0, 0], &mut state, &mut feedback), Ok(false));
    assert_eq!(judge([0, 1, 0, 3], &mut state, &mut feedback), Ok(true));
    assert_eq!(judge([0, 3, 0, 3], &mut state, &mut feedback), Ok(true));
    assert_eq!(judge([0, 3, 0, 3], &mut state, &mut feedback), Ok(false));
    let history = &state.named_metadata_map().map_feedbacks.get("signals").unwrap().history_map;
    assert_eq!(history, &vec![0, 3, 0, 3]);
    let mut hits = Vec::new();
    Feedback::<(), BytesInput, ObserverList, State>::append_hit_feedbacks(&feedback, &mut hits).unwrap();
    assert!(hits.is_empty());
}

#[test]
fn a_map_feedback_needs_its_observer_and_its_history() {
    let mut state = State::new(1);
    let mut observers = ObserverList::new();
    observers.maps.push(MapObserver::new("signals", 4));
    let mut feedback = MaxMapFeedback::new(&observers.maps[0]);
    let error = feedback
        .is_interesting(&mut state, &mut (), &input(b"x"), &observers, &ExitKind::Normal)
        .unwrap_err();
    assert_eq!(error.kind(), ErrorKind::IllegalState);
    assert_eq!(error.message(), "MaxMapFeedback: the state holds no history for this feedback");
    Feedback::<(), BytesInput, ObserverList, State>::init_state(&mut feedback, &mut state).unwrap();
    let none = ObserverList::new();
    let error = feedback.is_interesting(&mut state, &mut (), &input(b"x"), &none, &ExitKind::Normal).unwrap_err();
    assert_eq!(error.kind(), ErrorKind::UnknownObserver);
    assert_eq!(error.message(), "MaxMapFeedback: the map observer is not among the observers");
    assert_eq!(feedback.last_result, None);
}

#[test]
fn the_queue_scheduler_takes_the_testcases_in_turn() {
    let mut state = State::new(1);
    let mut scheduler = QueueScheduler::new();
    let error = Scheduler::<BytesInput, State>::next(&mut scheduler, &mut state).unwrap_err();
    assert_eq!(error.kind(), ErrorKind::Corpus);
    assert_eq!(error.message(), "No entries in corpus");
    for byte in 0..3u8 {
        let id = state.corpus_mut().add(Testcase::new(input(&[byte]))).unwrap();
        Scheduler::<BytesInput, State>::on_add(&mut scheduler, &mut state, id).unwrap();
    }
    state.corpus_mut().remove(CorpusId(1)).unwrap();
    let mut taken = Vec::new();
    for _ in 0..5 {
        let id = Scheduler::<BytesInput, State>::next(&mut scheduler, &mut state).unwrap();
        assert_eq!(state.corpus().current(), &Some(id));
        taken.push(id.0);
    }
    assert_eq!(taken, vec![0, 2, 0, 2, 0]);
}

#[test]
fn a_failing_stage_ends_the_round() {
    let mut state = State::new(1);
    let mut executor = executor();
    let mut fuzzer = map_fuzzer(&executor, &mut state);
    fuzzer.evaluate_input(&mut state, &mut executor, &mut (), input(&[0])).unwrap();
    let first: TuneableMutationalStage<SignalsExecutor, (), BytesInput, CountUp, State, BytesInput, MapFuzzer> =
        TuneableMutationalStage::with_name(&mut state, CountUp { next: 0 }, "first");
    let second: TuneableMutationalStage<SignalsExecutor, (), BytesInput, CountUp, State, BytesInput, MapFuzzer> =
        TuneableMutationalStage::with_name(&mut state, CountUp { next: 0 }, "second");
    set_iters_by_name(&mut state, 2, "first").unwrap();
    set_iters_by_name(&mut state, 3, "second").unwrap();
    let mut stages = (first, (second, ()));
    assert_eq!(fuzzer.fuzz_one::<_, (), BytesInput, _, _>(&mut stages, &mut executor, &mut state, &mut ()), Ok(CorpusId(0)));
    assert_eq!(stages.0.mutator().next, 2);
    assert_eq!(stages.1 .0.mutator().next, 3);
    state.named_metadata_map_mut().tuneable_stages.remove("first");
    let error = fuzzer
        .fuzz_one::<_, (), BytesInput, _, _>(&mut stages, &mut executor, &mut state, &mut ())
        .unwrap_err();
    assert_eq!(error.message(), "TuneableMutationalStage not in use");
    assert_eq!(stages.0.mutator().next, 2);
    assert_eq!(stages.1 .0.mutator().next, 3);
    assert_eq!(state.named_metadata_map().execution_counts.len(), 1);
    assert_eq!(StagesTuple::perform_all(&mut stages.1, &mut fuzzer, &mut executor, &mut state, &mut ()), Ok(()));
    assert_eq!(stages.1 .0.mutator().next, 6);
}

#[test]
fn a_stage_run_by_the_pipeline_clears_its_progress() {
    let mut state = State::new(1);
    let mut executor = executor();
    let mut fuzzer = map_fuzzer(&executor, &mut state);
    fuzzer.evaluate_input(&mut state, &mut executor, &mut (), input(&[0])).unwrap();
    state.corpus_mut().set_current(Some(CorpusId(0)));
    let mut stage: TuneableMutationalStage<SignalsExecutor, (), BytesInput, CountUp, State, BytesInput, MapFuzzer> =
        TuneableMutationalStage::new(&mut state, CountUp { next: 0 });
    assert_eq!(perform_restartable(&mut stage, &mut fuzzer, &mut executor, &mut state, &mut ()), Ok(()));
    let mutations = stage.mutator().next as usize;
    assert!((1..=128).contains(&mutations));
    assert_eq!(state.named_metadata_map().execution_counts.len(), 0);
    assert_eq!(Stage::<SignalsExecutor, (), State, MapFuzzer>::should_restart(&mut stage, &mut state), Ok(true));
    assert_eq!(state.named_metadata_map().execution_counts.len(), 1);
    assert_eq!(Stage::<SignalsExecutor, (), State, MapFuzzer>::clear_progress(&mut stage, &mut state), Ok(()));
    assert_eq!(state.named_metadata_map().execution_counts.len(), 0);
}

/// A harness that ends every run in the same way, and notes the first byte of the input
/// in the map.
struct Always {
    exit_kind: ExitKind,
}

impl Harness<BytesInput, ObserverList> for Always {
    fn ran(self, _: BytesInput, _: ObserverList, _: HarnessOutcome<Self, ObserverList>) -> bool {
        unreachable!()
    }

    fn run(&mut self, input: &BytesInput, observers: &mut ObserverList) -> ExitKind {
        observers.maps[0].set(0, input.bytes()[0]);
        self.exit_kind
    }
}

#[test]
fn the_executor_hands_the_input_and_the_observers_to_the_harness() {
    let mut state = State::new(1);
    for exit_kind in [ExitKind::Normal, ExitKind::Crash, ExitKind::Timeout] {
        let mut observers = ObserverList::new();
        observers.maps.push(MapObserver::new("first", 1));
        let mut executor = InProcessExecutor::new(Always { exit_kind }, observers);
        assert_eq!(executor.run_target(&mut state, &mut (), &input(&[7, 8])), Ok(exit_kind));
        let seen: &ObserverList = Executor::<(), BytesInput, State>::observers(&executor);
        assert_eq!(seen.maps[0].map(), &vec![7]);
        assert_eq!(executor.run_target(&mut state, &mut (), &input(&[9])), Ok(exit_kind));
        let seen: &ObserverList = Executor::<(), BytesInput, State>::observers(&executor);
        assert_eq!(seen.maps[0].map(), &vec![9]);
    }
    assert_eq!(*state.executions(), 0);
}
