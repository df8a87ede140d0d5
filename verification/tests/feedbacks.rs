use fuzz_kernel::corpus::Testcase;
use fuzz_kernel::error::{Error, ErrorKind, ErrorView};
use fuzz_kernel::executors::{DiffExitKind, ExitKind};
use fuzz_kernel::feedbacks::{
    premature_last_result_err, CombinedFeedback, ConstFeedback, Connective, CrashFeedback,
    DiffExitKindFeedback, EagerAndFeedback, EagerOrFeedback, FastAndFeedback, FastOrFeedback,
    Feedback, FeedbackFactory, FeedbackIntrospection, FeedbackLogic, Hits, Judgement, LogicEagerAnd,
    LogicEagerOr, LogicFastAnd, LogicFastOr, MetadataOutcome, NotFeedback, Outcome, TimeFeedback,
    TimeoutFeedback, feedback_and, feedback_and_fast, feedback_not, feedback_or, feedback_or_fast,
};
use fuzz_kernel::state::{HasClientPerfMonitor, Session, StdState};
use fuzz_kernel::named::Named;
use fuzz_kernel::observers::{Handled, MatchNameRef, TimeObserver};
use fuzz_kernel::time::Duration;

/// The state of these tests: a log of what the feedbacks did to it.
#[derive(Debug, Default, PartialEq, Eq)]
struct Log {
    events: Vec<String>,
}

type Observers = Vec<TimeObserver>;

/// A feedback that counts how often it judges a run, and writes each call to the state.
struct Counting {
    label: &'static str,
    verdict: Result<bool, &'static str>,
    calls: usize,
    last: Option<bool>,
}

impl Counting {
    fn new(label: &'static str, verdict: bool) -> Self {
        Counting { label, verdict: Ok(verdict), calls: 0, last: None }
    }

    fn failing(label: &'static str, message: &'static str) -> Self {
        Counting { label, verdict: Err(message), calls: 0, last: None }
    }
}

impl Named for Counting {
    fn name_view(&self) -> vstd::seq::Seq<char> {
        unreachable!()
    }

    fn name(&self) -> &str {
        self.label
    }
}

impl Feedback<(), u8, Observers, Log> for Counting {
    fn init_states(self, _: Log, _: Outcome<Self, Log, Result<(), ErrorView>>) -> bool {
        unreachable!()
    }

    fn judges(
        self,
        _: Session<Log, ()>,
        _: u8,
        _: Observers,
        _: ExitKind,
        _: Outcome<Self, Session<Log, ()>, Result<bool, ErrorView>>,
    ) -> bool {
        unreachable!()
    }

    fn last_result_spec(&self) -> Result<bool, ErrorView> {
        unreachable!()
    }

    fn hit_feedbacks_spec(&self) -> Hits {
        unreachable!()
    }

    fn negated_hit_feedbacks_spec(&self) -> Hits {
        unreachable!()
    }

    fn appends_metadata(
        self,
        _: Session<Log, ()>,
        _: Observers,
        _: Testcase<u8>,
        _: MetadataOutcome<Self, Session<Log, ()>, u8>,
    ) -> bool {
        unreachable!()
    }

    fn discards_metadata(self, _: Log, _: u8, _: Outcome<Self, Log, Result<(), ErrorView>>) -> bool {
        unreachable!()
    }

    fn init_state(&mut self, state: &mut Log) -> Result<(), Error> {
        let entry = format!("init {}", self.label);
        if !state.events.contains(&entry) {
            state.events.push(entry);
        }
        Ok(())
    }

    fn is_interesting(
        &mut self,
        state: &mut Log,
        _manager: &mut (),
        _input: &u8,
        _observers: &Observers,
        _exit_kind: &ExitKind,
    ) -> Result<bool, Error> {
        self.calls += 1;
        state.events.push(format!("judge {}", self.label));
        match self.verdict {
            Ok(verdict) => {
                self.last = Some(verdict);
                Ok(verdict)
            }
            Err(message) => Err(Error::executor(message)),
        }
    }

    fn last_result(&self) -> Result<bool, Error> {
        self.last.ok_or_else(premature_last_result_err)
    }

    fn append_hit_feedbacks(&self, list: &mut Vec<String>) -> Result<(), Error> {
        if self.last_result()? {
            list.push(self.label.to_string());
        }
        Ok(())
    }

    fn append_negated_hit_feedbacks(&self, list: &mut Vec<String>) -> Result<(), Error> {
        if !self.last_result()? {
            list.push(self.label.to_string());
        }
        Ok(())
    }

    fn append_metadata(
        &mut self,
        state: &mut Log,
        _manager: &mut (),
        _observers: &Observers,
        _testcase: &mut Testcase<u8>,
    ) -> Result<(), Error> {
        state.events.push(format!("append {}", self.label));
        Ok(())
    }

    fn discard_metadata(&mut self, state: &mut Log, _input: &u8) -> Result<(), Error> {
        state.events.push(format!("discard {}", self.label));
        Ok(())
    }
}

fn judge<F: Feedback<(), u8, Observers, Log>>(feedback: &mut F, exit_kind: ExitKind) -> Result<bool, Error> {
    let mut state = Log::default();
    feedback.is_interesting(&mut state, &mut (), &0u8, &Vec::new(), &exit_kind)
}

fn diff() -> ExitKind {
    ExitKind::Diff { first: DiffExitKind::Normal, second: DiffExitKind::Crash }
}

#[test]
fn crash_feedback_is_interesting_only_on_crash() {
    let mut feedback = CrashFeedback::new();
    assert_eq!(judge(&mut feedback, ExitKind::Crash), Ok(true));
    assert_eq!(judge(&mut feedback, ExitKind::Normal), Ok(false));
    assert_eq!(judge(&mut feedback, ExitKind::Timeout), Ok(false));
    assert_eq!(judge(&mut feedback, diff()), Ok(false));
}

#[test]
fn timeout_feedback_is_interesting_only_on_timeout() {
    let mut feedback = TimeoutFeedback::new();
    assert_eq!(judge(&mut feedback, ExitKind::Timeout), Ok(true));
    assert_eq!(judge(&mut feedback, ExitKind::Normal), Ok(false));
    assert_eq!(judge(&mut feedback, ExitKind::Crash), Ok(false));
    assert_eq!(judge(&mut feedback, diff()), Ok(false));
}

#[test]
fn diff_feedback_is_interesting_only_on_diff() {
    let mut feedback = DiffExitKindFeedback::new();
    assert_eq!(judge(&mut feedback, diff()), Ok(true));
    assert_eq!(judge(&mut feedback, ExitKind::Normal), Ok(false));
    assert_eq!(judge(&mut feedback, ExitKind::Crash), Ok(false));
    assert_eq!(judge(&mut feedback, ExitKind::Timeout), Ok(false));
}

#[test]
fn leaves_keep_their_last_verdict() {
    let mut crash = CrashFeedback::new();
    judge(&mut crash, ExitKind::Crash).unwrap();
    assert_eq!(Feedback::<(), u8, Observers, Log>::last_result(&crash), Ok(true));
    judge(&mut crash, ExitKind::Normal).unwrap();
    assert_eq!(Feedback::<(), u8, Observers, Log>::last_result(&crash), Ok(false));
    assert_eq!(crash.last_result, Some(false));
}

#[test]
fn last_result_before_the_first_run_is_an_illegal_state() {
    let crash = CrashFeedback::new();
    let timeout = TimeoutFeedback::default();
    let diff = DiffExitKindFeedback::default();
    let errors = [
        Feedback::<(), u8, Observers, Log>::last_result(&crash).unwrap_err(),
        Feedback::<(), u8, Observers, Log>::last_result(&timeout).unwrap_err(),
        Feedback::<(), u8, Observers, Log>::last_result(&diff).unwrap_err(),
    ];
    for error in errors {
        assert_eq!(error.kind(), ErrorKind::IllegalState);
        assert_eq!(error.message(), "last_result called before Feedback was run");
        assert_eq!(error, premature_last_result_err());
    }
}

#[test]
fn const_feedback_gives_its_value() {
    let mut yes = ConstFeedback::new(true);
    let mut no = ConstFeedback::new(false);
    assert_eq!(yes, ConstFeedback::True);
    assert_eq!(no, ConstFeedback::False);
    assert_eq!(judge(&mut yes, ExitKind::Normal), Ok(true));
    assert_eq!(judge(&mut no, ExitKind::Crash), Ok(false));
    assert_eq!(Feedback::<(), u8, Observers, Log>::last_result(&yes), Ok(true));
    assert_eq!(Feedback::<(), u8, Observers, Log>::last_result(&no), Ok(false));
    assert_eq!(ConstFeedback::from(true), ConstFeedback::True);
    assert_eq!(ConstFeedback::from(false), ConstFeedback::False);
    assert!(bool::from(ConstFeedback::True));
    assert!(!bool::from(ConstFeedback::False));
}

#[test]
fn the_empty_feedback_finds_nothing_interesting() {
    let mut empty = ();
    assert_eq!(judge(&mut empty, ExitKind::Crash), Ok(false));
    assert_eq!(Feedback::<(), u8, Observers, Log>::last_result(&()), Ok(false));
    assert_eq!(Named::name(&()), "Empty");
}

fn combined<FL: FeedbackLogic>(a: bool, b: bool) -> Result<bool, Error> {
    let mut feedback: CombinedFeedback<ConstFeedback, ConstFeedback, FL> =
        CombinedFeedback::new(ConstFeedback::new(a), ConstFeedback::new(b));
    judge(&mut feedback, ExitKind::Normal)
}

#[test]
fn combinators_agree_with_their_truth_tables() {
    for a in [false, true] {
        for b in [false, true] {
            assert_eq!(combined::<LogicEagerOr>(a, b), Ok(a || b));
            assert_eq!(combined::<LogicFastOr>(a, b), Ok(a || b));
            assert_eq!(combined::<LogicEagerAnd>(a, b), Ok(a && b));
            assert_eq!(combined::<LogicFastAnd>(a, b), Ok(a && b));
        }
    }
}

fn calls_of_second<FL: FeedbackLogic>(first: bool, second: bool) -> (usize, usize, Vec<String>) {
    let mut feedback: CombinedFeedback<Counting, Counting, FL> =
        CombinedFeedback::new(Counting::new("A", first), Counting::new("B", second));
    let mut state = Log::default();
    feedback.is_interesting(&mut state, &mut (), &0u8, &Vec::new(), &ExitKind::Normal).unwrap();
    (feedback.first.calls, feedback.second.calls, state.events)
}

#[test]
fn fast_or_skips_the_second_feedback_when_the_first_says_yes() {
    assert_eq!(calls_of_second::<LogicFastOr>(true, true), (1, 0, vec!["judge A".to_string()]));
    assert_eq!(calls_of_second::<LogicFastOr>(true, false), (1, 0, vec!["judge A".to_string()]));
    let (a, b, events) = calls_of_second::<LogicFastOr>(false, true);
    assert_eq!((a, b), (1, 1));
    assert_eq!(events, vec!["judge A".to_string(), "judge B".to_string()]);
}

#[test]
fn fast_and_skips_the_second_feedback_when_the_first_says_no() {
    assert_eq!(calls_of_second::<LogicFastAnd>(false, true), (1, 0, vec!["judge A".to_string()]));
    let (a, b, events) = calls_of_second::<LogicFastAnd>(true, false);
    assert_eq!((a, b), (1, 1));
    assert_eq!(events, vec!["judge A".to_string(), "judge B".to_string()]);
}

#[test]
fn eager_combinators_run_both_feedbacks() {
    for first in [false, true] {
        for second in [false, true] {
            let (a, b, events) = calls_of_second::<LogicEagerOr>(first, second);
            assert_eq!((a, b), (1, 1));
            assert_eq!(events, vec!["judge A".to_string(), "judge B".to_string()]);
            let (a, b, _) = calls_of_second::<LogicEagerAnd>(first, second);
            assert_eq!((a, b), (1, 1));
        }
    }
}

#[test]
fn eager_or_counts_each_run_and_fast_or_does_not() {
    let mut eager: EagerOrFeedback<ConstFeedback, Counting> =
        CombinedFeedback::new(ConstFeedback::True, Counting::new("counter", false));
    let mut fast: FastOrFeedback<ConstFeedback, Counting> =
        CombinedFeedback::new(ConstFeedback::True, Counting::new("counter", false));
    for run in 1..=3usize {
        assert_eq!(judge(&mut eager, ExitKind::Normal), Ok(true));
        assert_eq!(judge(&mut fast, ExitKind::Normal), Ok(true));
        assert_eq!(eager.second.calls, run);
        assert_eq!(fast.second.calls, 0);
    }
}

#[test]
fn an_error_of_the_first_feedback_keeps_the_second_from_running() {
    let mut eager: EagerOrFeedback<Counting, Counting> =
        CombinedFeedback::new(Counting::failing("A", "broken"), Counting::new("B", true));
    let error = judge(&mut eager, ExitKind::Normal).unwrap_err();
    assert_eq!(error.kind(), ErrorKind::Executor);
    assert_eq!(error.message(), "broken");
    assert_eq!(eager.first.calls, 1);
    assert_eq!(eager.second.calls, 0);
    let mut and: EagerAndFeedback<Counting, Counting> =
        CombinedFeedback::new(Counting::new("A", true), Counting::failing("B", "late"));
    let error = judge(&mut and, ExitKind::Normal).unwrap_err();
    assert_eq!(error.message(), "late");
    assert_eq!(and.first.calls, 1);
    assert_eq!(and.second.calls, 1);
}

#[test]
fn combined_feedbacks_are_named_after_their_parts() {
    let eager_or: EagerOrFeedback<CrashFeedback, TimeoutFeedback> =
        CombinedFeedback::new(CrashFeedback::new(), TimeoutFeedback::new());
    assert_eq!(eager_or.name(), "Eager OR (CrashFeedback,TimeoutFeedback)");
    let fast_or: FastOrFeedback<CrashFeedback, ConstFeedback> =
        CombinedFeedback::new(CrashFeedback::new(), ConstFeedback::True);
    assert_eq!(fast_or.name(), "Fast OR (CrashFeedback,ConstFeedback)");
    let eager_and: EagerAndFeedback<DiffExitKindFeedback, TimeoutFeedback> =
        CombinedFeedback::new(DiffExitKindFeedback::new(), TimeoutFeedback::new());
    assert_eq!(eager_and.name(), "Eager AND (DiffExitKindFeedback,TimeoutFeedback)");
    let fast_and: FastAndFeedback<EagerOrFeedback<CrashFeedback, TimeoutFeedback>, ConstFeedback> =
        CombinedFeedback::new(eager_or, ConstFeedback::False);
    assert_eq!(
        fast_and.name(),
        "Fast AND (Eager OR (CrashFeedback,TimeoutFeedback),ConstFeedback)"
    );
    assert_eq!(LogicEagerOr::name(), "Eager OR");
    assert_eq!(LogicFastOr::name(), "Fast OR");
    assert_eq!(LogicEagerAnd::name(), "Eager AND");
    assert_eq!(LogicFastAnd::name(), "Fast AND");
    let not = NotFeedback::new(CrashFeedback::new());
    assert_eq!(not.name(), "Not(CrashFeedback)");
    assert_eq!(NotFeedback::new(not).name(), "Not(Not(CrashFeedback))");
}

#[test]
fn not_inverts_the_verdict() {
    let mut not = NotFeedback::new(CrashFeedback::new());
    assert_eq!(judge(&mut not, ExitKind::Crash), Ok(false));
    assert_eq!(Feedback::<(), u8, Observers, Log>::last_result(&not), Ok(false));
    assert_eq!(judge(&mut not, ExitKind::Normal), Ok(true));
    assert_eq!(Feedback::<(), u8, Observers, Log>::last_result(&not), Ok(true));
    let mut failing = NotFeedback::new(Counting::failing("A", "broken"));
    assert_eq!(judge(&mut failing, ExitKind::Normal).unwrap_err().message(), "broken");
}

#[test]
fn a_double_negation_behaves_as_the_feedback_itself() {
    for verdict in [false, true] {
        let mut plain = Counting::new("F", verdict);
        let mut twice = NotFeedback::new(NotFeedback::new(Counting::new("F", verdict)));
        let mut plain_state = Log::default();
        let mut twice_state = Log::default();
        let observers: Observers = Vec::new();
        plain.init_state(&mut plain_state).unwrap();
        twice.init_state(&mut twice_state).unwrap();
        let a = plain.is_interesting(&mut plain_state, &mut (), &7, &observers, &ExitKind::Normal);
        let b = twice.is_interesting(&mut twice_state, &mut (), &7, &observers, &ExitKind::Normal);
        assert_eq!(a, b);
        assert_eq!(a, Ok(verdict));
        let mut plain_case = Testcase::new(7u8);
        let mut twice_case = Testcase::new(7u8);
        plain.append_metadata(&mut plain_state, &mut (), &observers, &mut plain_case).unwrap();
        twice.append_metadata(&mut twice_state, &mut (), &observers, &mut twice_case).unwrap();
        plain.discard_metadata(&mut plain_state, &7).unwrap();
        twice.discard_metadata(&mut twice_state, &7).unwrap();
        assert_eq!(plain_state, twice_state);
        assert_eq!(plain_case.exec_time, twice_case.exec_time);
        assert_eq!(plain.last_result(), twice.last_result());
        assert_eq!(twice.first.first.calls, plain.calls);
        let mut plain_hits = Vec::new();
        let mut twice_hits = Vec::new();
        plain.append_hit_feedbacks(&mut plain_hits).unwrap();
        twice.append_hit_feedbacks(&mut twice_hits).unwrap();
        assert_eq!(plain_hits, twice_hits);
        assert_eq!(plain_hits.is_empty(), !verdict);
        if verdict {
            assert_eq!(twice_hits, vec!["F".to_string()]);
        }
    }
}

fn hits_after<F: Feedback<(), u8, Observers, Log>>(mut feedback: F) -> Result<Vec<String>, Error> {
    judge(&mut feedback, ExitKind::Crash)?;
    let mut list = vec!["before".to_string()];
    feedback.append_hit_feedbacks(&mut list)?;
    Ok(list)
}

fn names(list: &[&str]) -> Result<Vec<String>, Error> {
    let mut all = vec!["before".to_string()];
    all.extend(list.iter().map(|name| name.to_string()));
    Ok(all)
}

#[test]
fn a_leaf_reports_its_name_when_its_last_verdict_was_true() {
    assert_eq!(hits_after(CrashFeedback::new()), names(&["CrashFeedback"]));
    assert_eq!(hits_after(TimeoutFeedback::new()), names(&[]));
    assert_eq!(hits_after(ConstFeedback::True), names(&["ConstFeedback"]));
    assert_eq!(hits_after(ConstFeedback::False), names(&[]));
    assert_eq!(hits_after(NotFeedback::new(TimeoutFeedback::new())), names(&["TimeoutFeedback"]));
    assert_eq!(hits_after(NotFeedback::new(CrashFeedback::new())), names(&[]));
    assert_eq!(hits_after(NotFeedback::new(NotFeedback::new(CrashFeedback::new()))), names(&["CrashFeedback"]));
    assert_eq!(hits_after(NotFeedback::new(NotFeedback::new(TimeoutFeedback::new()))), names(&[]));
    assert_eq!(hits_after(NotFeedback::new(ConstFeedback::False)), names(&["ConstFeedback"]));
    assert_eq!(hits_after(NotFeedback::new(ConstFeedback::True)), names(&[]));
    let mut list = Vec::new();
    let error = Feedback::<(), u8, Observers, Log>::append_hit_feedbacks(&CrashFeedback::new(), &mut list)
        .unwrap_err();
    assert_eq!(error, premature_last_result_err());
    assert!(list.is_empty());
}

#[test]
fn a_disjunction_reports_the_first_true_feedback() {
    let both: EagerOrFeedback<Counting, Counting> =
        CombinedFeedback::new(Counting::new("A", true), Counting::new("B", true));
    assert_eq!(hits_after(both), names(&["A"]));
    let second: EagerOrFeedback<Counting, Counting> =
        CombinedFeedback::new(Counting::new("A", false), Counting::new("B", true));
    assert_eq!(hits_after(second), names(&["B"]));
    let none: EagerOrFeedback<Counting, Counting> =
        CombinedFeedback::new(Counting::new("A", false), Counting::new("B", false));
    assert_eq!(hits_after(none), names(&[]));
    let fast: FastOrFeedback<Counting, Counting> =
        CombinedFeedback::new(Counting::new("A", true), Counting::new("B", true));
    assert_eq!(hits_after(fast), names(&["A"]));
    let fast_second: FastOrFeedback<Counting, Counting> =
        CombinedFeedback::new(Counting::new("A", false), Counting::new("B", true));
    assert_eq!(hits_after(fast_second), names(&["B"]));
}

#[test]
fn a_conjunction_reports_both_feedbacks_or_none() {
    let both: EagerAndFeedback<Counting, Counting> =
        CombinedFeedback::new(Counting::new("A", true), Counting::new("B", true));
    assert_eq!(hits_after(both), names(&["A", "B"]));
    let one: EagerAndFeedback<Counting, Counting> =
        CombinedFeedback::new(Counting::new("A", true), Counting::new("B", false));
    assert_eq!(hits_after(one), names(&[]));
    let fast: FastAndFeedback<Counting, Counting> =
        CombinedFeedback::new(Counting::new("A", true), Counting::new("B", true));
    assert_eq!(hits_after(fast), names(&["A", "B"]));
    let fast_none: FastAndFeedback<Counting, Counting> =
        CombinedFeedback::new(Counting::new("A", false), Counting::new("B", true));
    assert_eq!(hits_after(fast_none), names(&[]));
}

#[test]
fn the_last_result_of_a_pair_looks_at_the_second_only_where_it_ran() {
    let ran_not: Result<bool, Error> = Err(premature_last_result_err());
    assert_eq!(LogicFastOr::last_result(Ok(true), ran_not.clone()), Ok(true));
    assert_eq!(LogicFastOr::last_result(Ok(false), ran_not.clone()), ran_not.clone());
    assert_eq!(LogicFastOr::last_result(Ok(false), Ok(true)), Ok(true));
    assert_eq!(LogicEagerOr::last_result(Ok(true), ran_not.clone()), ran_not.clone());
    assert_eq!(LogicEagerOr::last_result(Ok(false), Ok(false)), Ok(false));
    assert_eq!(LogicFastAnd::last_result(Ok(false), ran_not.clone()), Ok(false));
    assert_eq!(LogicFastAnd::last_result(Ok(true), Ok(true)), Ok(true));
    assert_eq!(LogicFastAnd::last_result(Ok(true), ran_not.clone()), ran_not.clone());
    assert_eq!(LogicEagerAnd::last_result(Ok(false), ran_not.clone()), ran_not.clone());
    assert_eq!(LogicEagerAnd::last_result(ran_not.clone(), Ok(true)), ran_not);
    let fast: FastOrFeedback<CrashFeedback, TimeoutFeedback> = {
        let mut fast = CombinedFeedback::new(CrashFeedback::new(), TimeoutFeedback::new());
        judge(&mut fast, ExitKind::Crash).unwrap();
        fast
    };
    assert_eq!(Feedback::<(), u8, Observers, Log>::last_result(&fast), Ok(true));
    assert_eq!(fast.second.last_result, None);
}

#[test]
fn a_combination_walks_both_children_in_order() {
    let mut feedback: FastOrFeedback<Counting, Counting> =
        CombinedFeedback::new(Counting::new("A", true), Counting::new("B", true));
    let mut state = Log::default();
    let observers: Observers = Vec::new();
    feedback.init_state(&mut state).unwrap();
    feedback.is_interesting(&mut state, &mut (), &1, &observers, &ExitKind::Normal).unwrap();
    let mut testcase = Testcase::new(1u8);
    feedback.append_metadata(&mut state, &mut (), &observers, &mut testcase).unwrap();
    feedback.discard_metadata(&mut state, &1).unwrap();
    assert_eq!(
        state.events,
        vec!["init A", "init B", "judge A", "append A", "append B", "discard A", "discard B"]
    );
}

#[test]
fn init_state_twice_is_init_state_once() {
    let mut feedback: EagerOrFeedback<Counting, NotFeedback<Counting>> = CombinedFeedback::new(
        Counting::new("A", true),
        NotFeedback::new(Counting::new("B", true)),
    );
    let mut once = Log::default();
    feedback.init_state(&mut once).unwrap();
    let mut twice = Log::default();
    feedback.init_state(&mut twice).unwrap();
    feedback.init_state(&mut twice).unwrap();
    assert_eq!(once, twice);
    assert_eq!(once.events, vec!["init A", "init B"]);
    let mut crash = CrashFeedback::new();
    let mut state = Log::default();
    Feedback::<(), u8, Observers, Log>::init_state(&mut crash, &mut state).unwrap();
    Feedback::<(), u8, Observers, Log>::init_state(&mut crash, &mut state).unwrap();
    assert_eq!(state, Log::default());
    assert_eq!(crash.last_result, None);
}

#[test]
fn time_feedback_copies_the_run_time_onto_the_testcase() {
    let observer = TimeObserver::with_runtime("time", Some(Duration::from_millis(12)));
    let other = TimeObserver::with_runtime("other", Some(Duration::from_millis(99)));
    let mut feedback = TimeFeedback::new(&observer);
    assert_eq!(feedback.name(), "time");
    let observers: Observers = vec![other, observer];
    let mut state = Log::default();
    assert_eq!(
        Feedback::<(), u8, Observers, Log>::is_interesting(
            &mut feedback,
            &mut state,
            &mut (),
            &0,
            &observers,
            &ExitKind::Crash
        ),
        Ok(false)
    );
    assert_eq!(Feedback::<(), u8, Observers, Log>::last_result(&feedback), Ok(false));
    let mut testcase = Testcase::new(3u8);
    assert_eq!(testcase.exec_time, None);
    feedback.append_metadata(&mut state, &mut (), &observers, &mut testcase).unwrap();
    assert_eq!(testcase.exec_time, Some(Duration::from_nanos(12_000_000)));
    assert_eq!(testcase.input, 3);
    assert_eq!(state, Log::default());
}

#[test]
fn time_feedback_reports_a_missing_observer() {
    let observer = TimeObserver::new("time");
    let mut feedback = TimeFeedback::new(&observer);
    let observers: Observers = vec![TimeObserver::new("other")];
    let mut state = Log::default();
    let mut testcase = Testcase::new(3u8);
    testcase.exec_time = Some(Duration::from_secs(1));
    let error = feedback.append_metadata(&mut state, &mut (), &observers, &mut testcase).unwrap_err();
    assert_eq!(error.kind(), ErrorKind::UnknownObserver);
    assert_eq!(error.message(), "TimeFeedback: the time observer is not among the observers");
    assert_eq!(testcase.exec_time, Some(Duration::from_secs(1)));
}

#[test]
fn time_feedback_on_the_right_of_an_eager_or_annotates_the_testcase() {
    let observer = TimeObserver::with_runtime("time", Some(Duration::from_millis(5)));
    let mut feedback: EagerOrFeedback<CrashFeedback, TimeFeedback> =
        CombinedFeedback::new(CrashFeedback::new(), TimeFeedback::new(&observer));
    assert_eq!(feedback.name(), "Eager OR (CrashFeedback,time)");
    let observers: Observers = vec![observer];
    let mut state = Log::default();
    assert_eq!(feedback.is_interesting(&mut state, &mut (), &0u8, &observers, &ExitKind::Crash), Ok(true));
    let mut testcase = Testcase::new(0u8);
    feedback.append_metadata(&mut state, &mut (), &observers, &mut testcase).unwrap();
    assert_eq!(testcase.exec_time, Some(Duration::from_millis(5)));
}

#[test]
fn observers_are_found_by_handle() {
    let observers: Observers = vec![
        TimeObserver::with_runtime("a", Some(Duration::from_nanos(1))),
        TimeObserver::with_runtime("b", Some(Duration::from_nanos(2))),
        TimeObserver::with_runtime("a", Some(Duration::from_nanos(3))),
    ];
    let a = observers[0].handle();
    let b = observers[1].handle();
    assert_eq!(a.name(), "a");
    assert_eq!(observers.get(&a).unwrap().last_runtime(), &Some(Duration::from_nanos(1)));
    assert_eq!(observers.get(&b).unwrap().last_runtime(), &Some(Duration::from_nanos(2)));
    assert!(observers.get(&TimeObserver::new("c").handle()).is_none());
    assert!(observers.get(&a.clone()).is_some());
}

#[test]
fn factories_make_fresh_feedbacks() {
    let mut used = CrashFeedback::new();
    judge(&mut used, ExitKind::Crash).unwrap();
    let fresh: CrashFeedback = used.create_feedback(&5u32);
    assert_eq!(fresh.last_result, None);
    let mut pair: FastOrFeedback<CrashFeedback, TimeoutFeedback> =
        CombinedFeedback::new(used, TimeoutFeedback::new());
    judge(&mut pair, ExitKind::Timeout).unwrap();
    let made = pair.create_feedback(&());
    assert_eq!(made.first.last_result, None);
    assert_eq!(made.second.last_result, None);
    assert_eq!(made.name(), "Fast OR (CrashFeedback,TimeoutFeedback)");
}

/// A logic of the tests' own: exclusive or, which always has to run both feedbacks.
struct LogicXor;

impl Connective for LogicXor {
    fn operator(_: bool, _: bool) -> bool {
        unreachable!()
    }

    fn runs_second(_: bool) -> bool {
        unreachable!()
    }

    fn lemma_skipped_verdict_is_irrelevant(_: bool, _: bool, _: bool) {}
}

impl FeedbackLogic for LogicXor {
    fn name_view() -> vstd::seq::Seq<char> {
        unreachable!()
    }

    fn pair_hits(_: Result<bool, ErrorView>, _: Hits, _: Result<bool, ErrorView>, _: Hits) -> Hits {
        unreachable!()
    }

    fn name() -> &'static str {
        "XOR"
    }

    fn is_pair_interesting<J: Judgement<A, EM, I, OT, S> + Judgement<B, EM, I, OT, S>, EM, I, OT, S, A, B>(
        first: &mut A,
        second: &mut B,
        state: &mut S,
        manager: &mut EM,
        input: &I,
        observers: &OT,
        exit_kind: &ExitKind,
    ) -> Result<bool, Error> {
        let a = <J as Judgement<A, EM, I, OT, S>>::judge(first, state, manager, input, observers, exit_kind)?;
        let b = <J as Judgement<B, EM, I, OT, S>>::judge(second, state, manager, input, observers, exit_kind)?;
        Ok(a != b)
    }

    fn last_result(first: Result<bool, Error>, second: Result<bool, Error>) -> Result<bool, Error> {
        Ok(first? != second?)
    }

    fn append_hit_feedbacks<EM, I, OT, S, A: Feedback<EM, I, OT, S>, B: Feedback<EM, I, OT, S>>(
        first_result: Result<bool, Error>,
        first: &A,
        second_result: Result<bool, Error>,
        second: &B,
        list: &mut Vec<String>,
    ) -> Result<(), Error> {
        if first_result? {
            first.append_hit_feedbacks(list)?;
        }
        if second_result? {
            second.append_hit_feedbacks(list)?;
        }
        Ok(())
    }

    fn negated_pair_hits(_: Result<bool, ErrorView>, _: Hits, _: Result<bool, ErrorView>, _: Hits) -> Hits {
        unreachable!()
    }

    fn append_negated_hit_feedbacks<EM, I, OT, S, A: Feedback<EM, I, OT, S>, B: Feedback<EM, I, OT, S>>(
        first_result: Result<bool, Error>,
        first: &A,
        second_result: Result<bool, Error>,
        second: &B,
        list: &mut Vec<String>,
    ) -> Result<(), Error> {
        if !first_result? {
            first.append_negated_hit_feedbacks(list)?;
        }
        if !second_result? {
            second.append_negated_hit_feedbacks(list)?;
        }
        Ok(())
    }
}

#[test]
fn a_logic_of_ones_own_combines_feedbacks() {
    assert_eq!(combined::<LogicXor>(true, false), Ok(true));
    assert_eq!(combined::<LogicXor>(true, true), Ok(false));
    let feedback: CombinedFeedback<CrashFeedback, ConstFeedback, LogicXor> =
        CombinedFeedback::new(CrashFeedback::new(), ConstFeedback::False);
    assert_eq!(feedback.name(), "XOR (CrashFeedback,ConstFeedback)");
}

#[test]
fn the_short_forms_build_the_combinations() {
    let or = feedback_or(CrashFeedback::new(), TimeoutFeedback::new());
    assert_eq!(or.name(), "Eager OR (CrashFeedback,TimeoutFeedback)");
    let or_fast = feedback_or_fast(CrashFeedback::new(), TimeoutFeedback::new());
    assert_eq!(or_fast.name(), "Fast OR (CrashFeedback,TimeoutFeedback)");
    let and = feedback_and(CrashFeedback::new(), feedback_not(TimeoutFeedback::new()));
    assert_eq!(and.name(), "Eager AND (CrashFeedback,Not(TimeoutFeedback))");
    let mut and_fast = feedback_and_fast(ConstFeedback::True, feedback_or(ConstFeedback::False, CrashFeedback::new()));
    assert_eq!(and_fast.name(), "Fast AND (ConstFeedback,Eager OR (ConstFeedback,CrashFeedback))");
    assert_eq!(judge(&mut and_fast, ExitKind::Crash), Ok(true));
    assert_eq!(judge(&mut and_fast, ExitKind::Normal), Ok(false));
}

#[test]
fn a_timed_verdict_is_the_verdict_and_the_time_is_noted() {
    let mut state: StdState<u8> = StdState::new(1);
    let observers: Observers = Vec::new();
    let mut crash = CrashFeedback::new();
    assert_eq!(state.introspection_monitor().feedback_time("CrashFeedback"), 0);
    let mut total = 0;
    for round in 0..50 {
        let exit_kind = if round % 2 == 0 { ExitKind::Crash } else { ExitKind::Normal };
        let verdict = crash.is_interesting_introspection(&mut state, &mut (), &0u8, &observers, &exit_kind);
        assert_eq!(verdict, Ok(round % 2 == 0));
        let noted = state.introspection_monitor().feedback_time("CrashFeedback");
        assert!(noted >= total);
        total = noted;
    }
    assert!(total > 0);
    assert_eq!(crash.last_result, Some(false));
    assert_eq!(state.introspection_monitor().feedback_time("TimeoutFeedback"), 0);
}

#[test]
fn a_timed_combination_times_the_feedbacks_that_run() {
    let mut state: StdState<u8> = StdState::new(1);
    let observers: Observers = Vec::new();
    let mut fast = feedback_or_fast(CrashFeedback::new(), TimeoutFeedback::new());
    for _ in 0..50 {
        assert_eq!(fast.is_interesting_introspection(&mut state, &mut (), &0u8, &observers, &ExitKind::Crash), Ok(true));
    }
    assert!(state.introspection_monitor().feedback_time("CrashFeedback") > 0);
    assert_eq!(state.introspection_monitor().feedback_time("TimeoutFeedback"), 0);
    assert_eq!(state.introspection_monitor().feedback_time(fast.name()), 0);
    assert_eq!(fast.second.last_result, None);
    let mut eager = feedback_or(ConstFeedback::True, feedback_not(TimeoutFeedback::new()));
    for _ in 0..50 {
        assert_eq!(eager.is_interesting_introspection(&mut state, &mut (), &0u8, &observers, &ExitKind::Crash), Ok(true));
    }
    assert!(state.introspection_monitor().feedback_time("Not(TimeoutFeedback)") > 0);
    assert_eq!(state.introspection_monitor().feedback_time("TimeoutFeedback"), 0);
    assert_eq!(eager.second.first.last_result, Some(false));
}

#[test]
fn the_monitor_adds_up_the_time_of_each_feedback() {
    let mut state: StdState<u8> = StdState::new(1);
    let monitor = state.introspection_monitor_mut();
    monitor.update_feedback("a", 5);
    monitor.update_feedback("b", 1);
    monitor.update_feedback("a", 7);
    assert_eq!(monitor.feedback_time("a"), 12);
    assert_eq!(monitor.feedback_time("b"), 1);
    assert_eq!(monitor.feedback_time("c"), 0);
    monitor.update_feedback("a", u64::MAX);
    assert_eq!(monitor.feedback_time("a"), u64::MAX);
    monitor.update_feedback("a", 1);
    assert_eq!(monitor.feedback_time("a"), u64::MAX);
}

#[test]
fn a_function_is_a_factory_of_feedbacks() {
    let factory = |verdict: &bool| ConstFeedback::new(*verdict);
    assert_eq!(factory.create_feedback(&true), ConstFeedback::True);
    assert_eq!(factory.create_feedback(&false), ConstFeedback::False);
    let negations = |_: &u8| feedback_not(CrashFeedback::new());
    assert_eq!(negations.create_feedback(&3).name(), "Not(CrashFeedback)");
}

#[test]
fn a_leaf_negated_twice_reports_what_the_leaf_reports() {
    for exit_kind in [ExitKind::Crash, ExitKind::Normal] {
        let mut leaf = CrashFeedback::new();
        let mut twice = feedback_not(feedback_not(CrashFeedback::new()));
        let before_any_run = {
            let mut list = vec!["before".to_string()];
            let error = Feedback::<(), u8, Observers, Log>::append_hit_feedbacks(&twice, &mut list).unwrap_err();
            assert_eq!(list, vec!["before".to_string()]);
            error
        };
        assert_eq!(before_any_run, premature_last_result_err());
        assert_eq!(judge(&mut leaf, exit_kind), judge(&mut twice, exit_kind));
        let mut leaf_list = vec!["before".to_string()];
        let mut twice_list = vec!["before".to_string()];
        Feedback::<(), u8, Observers, Log>::append_hit_feedbacks(&leaf, &mut leaf_list).unwrap();
        Feedback::<(), u8, Observers, Log>::append_hit_feedbacks(&twice, &mut twice_list).unwrap();
        assert_eq!(leaf_list, twice_list);
        assert_eq!(leaf_list.len(), if exit_kind == ExitKind::Crash { 2 } else { 1 });
        assert_eq!(
            Feedback::<(), u8, Observers, Log>::last_result(&leaf),
            Feedback::<(), u8, Observers, Log>::last_result(&twice)
        );
    }
}

#[test]
fn a_negated_combination_reports_as_the_combination_of_the_negations() {
    let neither = feedback_not(feedback_or(Counting::new("A", false), Counting::new("B", false)));
    assert_eq!(hits_after(neither), names(&["A", "B"]));
    let one = feedback_not(feedback_or(Counting::new("A", false), Counting::new("B", true)));
    assert_eq!(hits_after(one), names(&[]));
    let not_both = feedback_not(feedback_and(Counting::new("A", true), Counting::new("B", false)));
    assert_eq!(hits_after(not_both), names(&["B"]));
    let first_false = feedback_not(feedback_and_fast(Counting::new("A", false), Counting::new("B", false)));
    assert_eq!(hits_after(first_false), names(&["A"]));
    let both = feedback_not(feedback_and(Counting::new("A", true), Counting::new("B", true)));
    assert_eq!(hits_after(both), names(&[]));
    let fast = feedback_not(feedback_or_fast(Counting::new("A", false), Counting::new("B", false)));
    assert_eq!(hits_after(fast), names(&["A", "B"]));
    let twice = feedback_not(feedback_not(feedback_and(Counting::new("A", true), Counting::new("B", true))));
    assert_eq!(hits_after(twice), names(&["A", "B"]));
    let under_and = feedback_and(feedback_not(Counting::new("A", false)), Counting::new("B", true));
    assert_eq!(hits_after(under_and), names(&["A", "B"]));
}

#[test]
fn a_negation_is_copied_with_what_it_negates() {
    let mut not = feedback_not(CrashFeedback::new());
    judge(&mut not, ExitKind::Crash).unwrap();
    let copy = not.clone();
    assert_eq!(copy.name(), "Not(CrashFeedback)");
    assert_eq!(copy.first.last_result, Some(true));
}
