use fuzz_kernel::corpus::{CorpusId, InMemoryCorpus, Testcase};
use fuzz_kernel::error::{Error, ErrorKind};
use fuzz_kernel::inputs::BytesInput;
use fuzz_kernel::metadata::{NameMap, NamedMetadataMap};
use fuzz_kernel::named::{same_name, Named};
use fuzz_kernel::observers::{Handle, MapObserver, TimeObserver};
use fuzz_kernel::stages::tuneable::TuneableMutationalStageMetadata;
use fuzz_kernel::stages::{ExecutionCountRestartHelper, ExecutionCountRestartHelperMetadata};
use fuzz_kernel::state::{
    no_current_testcase_err, HasCorpus, HasCurrentTestcase, HasExecutions, HasNamedMetadata, StdState,
};
use fuzz_kernel::stages::tuneable::iterations_left;
use fuzz_kernel::time::{counted_between, time_is_up, Duration, NANOS_PER_MILLI, NANOS_PER_SEC};

#[test]
fn durations_count_nanoseconds() {
    assert_eq!(Duration::from_nanos(5).as_nanos(), 5);
    assert_eq!(Duration::from_millis(50).as_nanos(), 50_000_000);
    assert_eq!(Duration::from_secs(3).as_nanos(), 3_000_000_000);
    assert_eq!(Duration::from_millis(u64::MAX).as_nanos(), u64::MAX as u128 * 1_000_000);
    assert_eq!(Duration::from_secs(u64::MAX).as_nanos(), u64::MAX as u128 * 1_000_000_000);
    assert_eq!(NANOS_PER_MILLI, 1_000_000);
    assert_eq!(NANOS_PER_SEC, 1_000_000_000);
    assert!(Duration::zero().is_zero());
    assert!(Duration::from_millis(0).is_zero());
    assert!(!Duration::from_nanos(1).is_zero());
    assert_eq!(Duration::from_secs(1), Duration::from_millis(1000));
}

#[test]
fn a_duration_is_shortened_down_to_nothing() {
    let long = Duration::from_millis(70);
    let short = Duration::from_millis(20);
    assert_eq!(long.saturating_sub(short), Duration::from_millis(50));
    assert_eq!(short.saturating_sub(long), Duration::zero());
    assert_eq!(long.saturating_sub(long), Duration::zero());
}

#[test]
fn errors_carry_their_kind_and_message() {
    let cases = [
        (Error::illegal_state("a"), ErrorKind::IllegalState),
        (Error::serialize("a"), ErrorKind::Serialize),
        (Error::unknown_observer("a"), ErrorKind::UnknownObserver),
        (Error::key_not_found("a"), ErrorKind::KeyNotFound),
        (Error::executor("a"), ErrorKind::Executor),
        (Error::corpus("a"), ErrorKind::Corpus),
        (Error::solutions("a"), ErrorKind::Solutions),
        (Error::mutator("a"), ErrorKind::Mutator),
    ];
    for (error, kind) in cases {
        assert_eq!(error.kind(), kind);
        assert_eq!(error.message(), "a");
        assert_eq!(error, Error::new(kind, "a"));
        assert_eq!(error.clone(), error);
        assert_ne!(error, Error::new(kind, "b"));
        assert_eq!(error.is_fatal(), kind == ErrorKind::Solutions);
    }
    assert_ne!(Error::executor("a"), Error::corpus("a"));
}

#[test]
fn names_are_compared_by_their_characters() {
    assert!(same_name("", ""));
    assert!(same_name("signals", "signals"));
    assert!(!same_name("signals", "signal"));
    assert!(!same_name("signals", "signalz"));
    assert!(!same_name("a", ""));
    assert!(same_name("größe", "größe"));
    assert!(!same_name("größe", "grösse"));
    let owned = String::from("ti") + "me";
    assert!(same_name(&owned, "time"));
}

#[test]
fn a_name_map_keeps_one_value_for_each_name() {
    let mut map: NameMap<u32> = NameMap::new();
    assert_eq!(map.len(), 0);
    assert_eq!(map.get("a"), None);
    assert!(!map.contains_key("a"));
    assert_eq!(map.insert("a", 1), None);
    assert_eq!(map.insert("b", 2), None);
    assert_eq!(map.insert("a", 3), Some(1));
    assert_eq!(map.len(), 2);
    assert_eq!(map.get("a"), Some(&3));
    assert_eq!(map.get("b"), Some(&2));
    assert!(map.contains_key("b"));
    *map.get_mut("b").unwrap() += 5;
    assert_eq!(map.get("b"), Some(&7));
    assert!(map.get_mut("c").is_none());
    assert_eq!(map.remove("a"), Some(3));
    assert_eq!(map.remove("a"), None);
    assert_eq!(map.len(), 1);
    assert_eq!(map.get("a"), None);
    assert_eq!(map.get("b"), Some(&7));
    assert_eq!(map.insert("a", 9), None);
    assert_eq!(map.remove("b"), Some(7));
    assert_eq!(map.get("a"), Some(&9));
    assert_eq!(map.len(), 1);
}

#[test]
fn named_metadata_is_kept_apart_by_its_type() {
    let mut map = NamedMetadataMap::new();
    map.tuneable_stages.insert("stage", TuneableMutationalStageMetadata::default());
    map.execution_counts.insert("stage", ExecutionCountRestartHelperMetadata { started_at_execs: 4 });
    assert_eq!(
        map.tuneable_stages.get("stage"),
        Some(&TuneableMutationalStageMetadata { iters: None, fuzz_time: None })
    );
    assert_eq!(map.execution_counts.get("stage").unwrap().started_at_execs, 4);
    assert_eq!(map.map_feedbacks.len(), 0);
    map.tuneable_stages.remove("stage");
    assert_eq!(map.execution_counts.len(), 1);
}

#[test]
fn a_corpus_gives_every_testcase_a_new_id() {
    let mut corpus: InMemoryCorpus<u8> = InMemoryCorpus::new();
    assert!(corpus.is_empty());
    assert_eq!(corpus.count(), 0);
    assert_eq!(corpus.add(Testcase::new(10)), Ok(CorpusId(0)));
    assert_eq!(corpus.add(Testcase::new(11)), Ok(CorpusId(1)));
    assert_eq!(corpus.add(Testcase::new(12)), Ok(CorpusId(2)));
    assert_eq!(corpus.count(), 3);
    assert_eq!(corpus.get(CorpusId(1)).unwrap().input, 11);
    assert_eq!(corpus.remove(CorpusId(1)).unwrap().input, 11);
    assert_eq!(corpus.count(), 2);
    assert_eq!(corpus.add(Testcase::new(13)), Ok(CorpusId(3)));
    assert_eq!(corpus.nth(0), Some(CorpusId(0)));
    assert_eq!(corpus.nth(1), Some(CorpusId(2)));
    assert_eq!(corpus.nth(2), Some(CorpusId(3)));
    assert_eq!(corpus.nth(3), None);
    assert_eq!(corpus.get(CorpusId(2)).unwrap().input, 12);
    assert_eq!(corpus.get(CorpusId(3)).unwrap().input, 13);
    assert!(!corpus.is_empty());
}

#[test]
fn a_corpus_reports_an_id_that_it_does_not_hold() {
    let mut corpus: InMemoryCorpus<u8> = InMemoryCorpus::new();
    corpus.add(Testcase::new(10)).unwrap();
    corpus.remove(CorpusId(0)).unwrap();
    let errors = [
        corpus.get(CorpusId(0)).unwrap_err(),
        corpus.get(CorpusId(7)).unwrap_err(),
        corpus.remove(CorpusId(0)).unwrap_err(),
        corpus.replace(CorpusId(0), Testcase::new(1)).unwrap_err(),
    ];
    for error in errors {
        assert_eq!(error.kind(), ErrorKind::KeyNotFound);
        assert_eq!(error.message(), "The corpus holds no testcase of this id");
    }
    assert_eq!(corpus.count(), 0);
}

#[test]
fn a_testcase_is_replaced_under_its_id() {
    let mut corpus: InMemoryCorpus<u8> = InMemoryCorpus::new();
    corpus.add(Testcase::new(10)).unwrap();
    corpus.add(Testcase::new(11)).unwrap();
    let mut better = Testcase::new(20);
    *better.exec_time_mut() = Some(Duration::from_millis(3));
    assert_eq!(corpus.replace(CorpusId(0), better).unwrap().input, 10);
    assert_eq!(corpus.get(CorpusId(0)).unwrap().input(), &20);
    assert_eq!(corpus.get(CorpusId(0)).unwrap().exec_time(), &Some(Duration::from_millis(3)));
    assert_eq!(corpus.get(CorpusId(1)).unwrap().input, 11);
    assert_eq!(corpus.count(), 2);
}

#[test]
fn a_corpus_knows_its_current_testcase_and_the_next_one() {
    let mut corpus: InMemoryCorpus<u8> = InMemoryCorpus::new();
    assert_eq!(corpus.current(), &None);
    assert_eq!(corpus.successor(None), None);
    for input in 0..4 {
        corpus.add(Testcase::new(input)).unwrap();
    }
    corpus.remove(CorpusId(2)).unwrap();
    assert_eq!(corpus.successor(None), Some(CorpusId(0)));
    assert_eq!(corpus.successor(Some(CorpusId(0))), Some(CorpusId(1)));
    assert_eq!(corpus.successor(Some(CorpusId(1))), Some(CorpusId(3)));
    assert_eq!(corpus.successor(Some(CorpusId(3))), Some(CorpusId(0)));
    assert_eq!(corpus.successor(Some(CorpusId(2))), Some(CorpusId(0)));
    corpus.set_current(Some(CorpusId(3)));
    assert_eq!(corpus.current(), &Some(CorpusId(3)));
    corpus.add(Testcase::new(9)).unwrap();
    assert_eq!(corpus.current(), &Some(CorpusId(3)));
    assert_eq!(corpus.successor(*corpus.current()), Some(CorpusId(4)));
}

#[test]
fn a_new_state_is_empty() {
    let mut state: StdState<BytesInput> = StdState::new(3);
    assert_eq!(*state.executions(), 0);
    assert_eq!(state.corpus().count(), 0);
    assert_eq!(state.solutions().count(), 0);
    assert_eq!(state.named_metadata_map().tuneable_stages.len(), 0);
    assert_eq!(state.named_metadata_map().execution_counts.len(), 0);
    assert_eq!(state.named_metadata_map().map_feedbacks.len(), 0);
    assert_eq!(state.current_testcase().unwrap_err(), no_current_testcase_err());
    let id = state.corpus_mut().add(Testcase::new(BytesInput::new(vec![1]))).unwrap();
    state.solutions_mut().add(Testcase::new(BytesInput::new(vec![2]))).unwrap();
    assert!(state.current_testcase().is_err());
    state.corpus_mut().set_current(Some(id));
    assert_eq!(state.current_testcase().unwrap().input.bytes(), &vec![1]);
    *state.executions_mut() += 2;
    assert_eq!(*state.executions(), 2);
}

#[test]
fn the_restart_helper_counts_from_where_the_stage_began() {
    let mut state: StdState<u8> = StdState::new(3);
    *state.executions_mut() = 10;
    let mut helper = ExecutionCountRestartHelper::new();
    let error = helper.execs_since_progress_start(&state, "stage").unwrap_err();
    assert_eq!(error.kind(), ErrorKind::IllegalState);
    assert_eq!(error.message(), "The stage has not noted where its work began");
    assert_eq!(helper.should_restart(&mut state, "stage"), Ok(true));
    assert_eq!(helper.started_at_execs, Some(10));
    assert_eq!(helper.execs_since_progress_start(&state, "stage"), Ok(0));
    *state.executions_mut() = 17;
    assert_eq!(helper.execs_since_progress_start(&state, "stage"), Ok(7));
    let mut after_restart = ExecutionCountRestartHelper::default();
    assert_eq!(after_restart.started_at_execs, None);
    assert_eq!(after_restart.execs_since_progress_start(&state, "stage"), Ok(7));
    assert_eq!(after_restart.started_at_execs, Some(10));
    assert_eq!(after_restart.should_restart(&mut state, "stage"), Ok(true));
    assert_eq!(after_restart.execs_since_progress_start(&state, "other").unwrap(), 7);
    assert_eq!(helper.clear_progress(&mut state, "stage"), Ok(()));
    assert_eq!(helper.started_at_execs, None);
    assert_eq!(state.named_metadata_map().execution_counts.len(), 0);
    assert_eq!(helper.should_restart(&mut state, "stage"), Ok(true));
    assert_eq!(helper.execs_since_progress_start(&state, "stage"), Ok(0));
}

#[test]
fn a_counter_below_the_start_is_an_illegal_state() {
    let mut state: StdState<u8> = StdState::new(3);
    *state.executions_mut() = 10;
    let mut helper = ExecutionCountRestartHelper::new();
    helper.should_restart(&mut state, "stage").unwrap();
    *state.executions_mut() = 9;
    let error = helper.execs_since_progress_start(&state, "stage").unwrap_err();
    assert_eq!(error.kind(), ErrorKind::IllegalState);
    assert_eq!(
        error.message(),
        "The execution counter stands below the count at which the stage began"
    );
}

#[test]
fn a_time_observer_measures_a_run() {
    let mut observer = TimeObserver::new("time");
    assert_eq!(observer.name(), "time");
    assert_eq!(observer.last_runtime(), &None);
    observer.pre_exec();
    assert_eq!(observer.last_runtime(), &None);
    observer.post_exec();
    let first = observer.last_runtime().unwrap();
    assert!(first.as_nanos() < 60_000_000_000);
    observer.pre_exec();
    assert_eq!(observer.last_runtime(), &None);
    assert_eq!(observer.name(), "time");
    let known = TimeObserver::with_runtime("known", Some(Duration::from_secs(1)));
    assert_eq!(known.last_runtime(), &Some(Duration::from_secs(1)));
}

#[test]
fn a_map_observer_is_cleared_by_a_reset() {
    let mut observer = MapObserver::new("signals", 4);
    assert_eq!(observer.name(), "signals");
    assert_eq!(observer.len(), 4);
    assert_eq!(observer.map(), &vec![0, 0, 0, 0]);
    assert!(observer.set(2, 7));
    assert!(!observer.set(4, 7));
    assert_eq!(observer.get(2), Some(7));
    assert_eq!(observer.get(4), None);
    assert_eq!(observer.map(), &vec![0, 0, 7, 0]);
    observer.reset();
    assert_eq!(observer.map(), &vec![0, 0, 0, 0]);
    assert_eq!(observer.len(), 4);
    assert_eq!(MapObserver::new("none", 0).len(), 0);
}

#[test]
fn a_handle_carries_the_name_of_its_observer() {
    let handle: Handle<TimeObserver> = Handle::new("time");
    assert_eq!(handle.name(), "time");
    assert_eq!(handle.clone().name(), "time");
}

#[test]
fn an_input_of_bytes_is_copied_byte_for_byte() {
    let mut input = BytesInput::new(vec![1, 2, 3]);
    let copy = input.clone();
    assert_eq!(copy, input);
    assert!(input.set(1, 9));
    assert!(!input.set(3, 9));
    assert_eq!(input.bytes(), &vec![1, 9, 3]);
    assert_eq!(copy.bytes(), &vec![1, 2, 3]);
    assert_eq!(input.len(), 3);
}

#[test]
fn time_is_up_once_the_budget_is_used() {
    let start = Duration::from_millis(1000);
    let budget = Duration::from_millis(50);
    assert!(!time_is_up(start, Duration::from_millis(1000), budget));
    assert!(!time_is_up(start, Duration::from_millis(1049), budget));
    assert!(time_is_up(start, Duration::from_millis(1050), budget));
    assert!(time_is_up(start, Duration::from_millis(2000), budget));
    assert!(!time_is_up(start, Duration::from_millis(900), budget));
    assert!(time_is_up(start, Duration::from_millis(900), Duration::zero()));
    assert!(time_is_up(start, start, Duration::zero()));
}

#[test]
fn a_counter_that_went_down_has_counted_nothing() {
    assert_eq!(counted_between(10, 25), 15);
    assert_eq!(counted_between(10, 10), 0);
    assert_eq!(counted_between(25, 10), 0);
    assert_eq!(counted_between(0, u64::MAX), u64::MAX);
}

#[test]
fn the_iterations_left_are_the_budget_less_the_executions() {
    assert_eq!(iterations_left(100, 0), 100);
    assert_eq!(iterations_left(100, 7), 93);
    assert_eq!(iterations_left(100, 100), 0);
    assert_eq!(iterations_left(100, 101), 0);
    assert_eq!(iterations_left(128, u64::MAX), 0);
    assert_eq!(iterations_left(1, 0), 1);
}
