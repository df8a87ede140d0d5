//! The feedback that finds a run interesting where the map of an observer shows more
//! than any run before has shown.

use vstd::prelude::*;
use crate::state::Session;
use crate::corpus::Testcase;
use crate::error::{Error, ErrorKind, ErrorView};
use crate::executors::ExitKind;
use crate::feedbacks::{
    append_own_hit, cached_verdict, invert_verdict, inverted, judge_and_time, judged_and_timed,
    own_hit, read_cached_verdict,
    Feedback, FeedbackIntrospection, HasObserverHandle, Hits, MetadataOutcome, Outcome,
};
use crate::named::Named;
use crate::observers::{all_zero, Handle, Handled, MapObserver, MatchNameRef};
use crate::state::{
    lemma_replacing_named_metadata, only_named_metadata_differs, HasClientPerfMonitor,
    HasNamedMetadata,
};

verus! {

/// What a map feedback keeps in the state: for each entry of the map, the most that
/// any run so far has shown there.
#[derive(Debug)]
pub struct MapFeedbackMetadata {
    /// The greatest value seen at each entry; an entry beyond its end counts as zero.
    pub history_map: Vec<u8>,
}

/// The entry of `map` at `i`, where an entry beyond the end counts as zero.
pub open spec fn entry_at(map: Seq<u8>, i: int) -> u8 {
    if 0 <= i < map.len() {
        map[i]
    } else {
        0
    }
}

/// Whether `map` shows at some entry more than `history` holds there.
pub open spec fn is_novel(history: Seq<u8>, map: Seq<u8>) -> bool {
    exists|i: int| 0 <= i < map.len() && #[trigger] map[i] > entry_at(history, i)
}

/// Whether `raised` is `history` raised to what `map` shows: at each entry the greater
/// of the two, and as long as the longer of the two.
pub open spec fn raised_to(history: Seq<u8>, map: Seq<u8>, raised: Seq<u8>) -> bool {
    &&& raised.len() == if history.len() >= map.len() {
        history.len()
    } else {
        map.len()
    }
    &&& forall|i: int|
        0 <= i < raised.len() ==> #[trigger] raised[i] == if entry_at(map, i) > entry_at(history, i) {
            entry_at(map, i)
        } else {
            entry_at(history, i)
        }
}

/// A cleared map shows nothing new, whatever the history holds.
pub proof fn lemma_cleared_map_is_not_novel(history: Seq<u8>, map: Seq<u8>)
    requires
        all_zero(map),
    ensures
        !is_novel(history, map),
{
}

/// Raises `history` to what `map` shows, and says whether `map` showed anything new.
pub fn raise_history(history: &mut Vec<u8>, map: &Vec<u8>) -> (novel: bool)
    ensures
        novel == is_novel(old(history)@, map@),
        raised_to(old(history)@, map@, final(history)@),
{
    let mut novel = false;
    let mut i: usize = 0;
    while i < map.len()
        invariant
            i <= map.len(),
            history@.len() == (if old(history)@.len() >= i {
                old(history)@.len()
            } else {
                i as nat
            }),
            forall|j: int|
                0 <= j < i ==> #[trigger] history@[j] == if entry_at(map@, j) > entry_at(
                    old(history)@,
                    j,
                ) {
                    entry_at(map@, j)
                } else {
                    entry_at(old(history)@, j)
                },
            forall|j: int| i <= j < history@.len() ==> #[trigger] history@[j] == old(history)@[j],
            novel == (exists|j: int| 0 <= j < i && #[trigger] map@[j] > entry_at(old(history)@, j)),
        decreases map.len() - i,
    {
        let seen = map[i];
        if i < history.len() {
            if seen > history[i] {
                history[i] = seen;
                novel = true;
            }
        } else {
            history.push(seen);
            if seen > 0 {
                novel = true;
            }
        }
        i += 1;
    }
    novel
}

/// The message of the error that a map feedback gives where its observer is not among
/// the observers at hand.
pub open spec fn missing_map_observer_message() -> Seq<char> {
    "MaxMapFeedback: the map observer is not among the observers"@
}

/// The view of that error.
pub open spec fn missing_map_observer_view() -> ErrorView {
    ErrorView { kind: ErrorKind::UnknownObserver, message: missing_map_observer_message() }
}

/// The message of the error that a map feedback gives where the state holds no history
/// for it.
pub open spec fn missing_history_message() -> Seq<char> {
    "MaxMapFeedback: the state holds no history for this feedback"@
}

/// The view of that error.
pub open spec fn missing_history_view() -> ErrorView {
    ErrorView { kind: ErrorKind::IllegalState, message: missing_history_message() }
}

/// A feedback that finds a run interesting where the map of its observer shows, at some
/// entry, more than any run before. It keeps the greatest values seen in the state,
/// under the name of the observer, and raises them with every run that it judges.
#[derive(Debug)]
pub struct MaxMapFeedback {
    /// The handle of the observer whose map is judged.
    pub observer_handle: Handle<MapObserver>,
    /// The name of the feedback, which is that of the observer.
    pub name: String,
    /// The verdict of the last run, once there was one.
    pub last_result: Option<bool>,
}

impl Named for MaxMapFeedback {
    open spec fn name_view(&self) -> Seq<char> {
        self.name@
    }

    fn name(&self) -> (n: &str) {
        self.name.as_str()
    }
}

impl MaxMapFeedback {
    /// A map feedback that judges the map of the given observer.
    pub fn new(observer: &MapObserver) -> (r: Self)
        ensures
            r.observer_handle.name_view() == observer.name_view(),
            r.name@ == observer.name_view(),
            r.last_result is None,
    {
        MaxMapFeedback {
            observer_handle: observer.handle(),
            name: observer.name().to_owned(),
            last_result: None,
        }
    }

    /// This feedback with another last verdict.
    pub open spec fn with_last_result(self, last_result: Option<bool>) -> Self {
        MaxMapFeedback { observer_handle: self.observer_handle, name: self.name, last_result }
    }

    /// The history kept for this feedback in `state`, if there is one.
    pub open spec fn history_in<S: HasNamedMetadata>(self, state: S) -> Option<Seq<u8>> {
        let histories = state.named_metadata().map_feedbacks@;
        if histories.contains_key(self.name@) {
            Some(histories[self.name@].history_map@)
        } else {
            None
        }
    }

    /// Whether `after` is `before` with the history `history` for this feedback, and
    /// all else as it is.
    pub open spec fn history_replaced<S: HasNamedMetadata>(self, before: S, after: S, history: Seq<u8>) -> bool {
        let now = after.named_metadata().map_feedbacks@;
        &&& only_named_metadata_differs(before, after)
        &&& now.contains_key(self.name@)
        &&& now[self.name@].history_map@ == history
        &&& now == before.named_metadata().map_feedbacks@.insert(self.name@, now[self.name@])
        &&& after.named_metadata().tuneable_stages == before.named_metadata().tuneable_stages
        &&& after.named_metadata().execution_counts == before.named_metadata().execution_counts
    }
}

impl<EM, I, OT: MatchNameRef<MapObserver>, S: HasNamedMetadata> Feedback<EM, I, OT, S> for MaxMapFeedback {
    /// Unless the state holds a history for this feedback already, it gets an empty one.
    open spec fn init_states(self, state: S, outcome: Outcome<Self, S, Result<(), ErrorView>>) -> bool {
        &&& outcome.feedback == self
        &&& outcome.result == Ok::<(), ErrorView>(())
        &&& match self.history_in(state) {
            Some(_) => outcome.state == state,
            None => self.history_replaced(state, outcome.state, Seq::empty()),
        }
    }

    fn init_state(&mut self, state: &mut S) -> (r: Result<(), Error>) {
        proof {
            lemma_replacing_named_metadata(*state);
        }
        let map = state.named_metadata_map_mut();
        if !map.map_feedbacks.contains_key(self.name.as_str()) {
            map.map_feedbacks.insert(
                self.name.as_str(),
                MapFeedbackMetadata { history_map: Vec::new() },
            );
        }
        Ok(())
    }

    /// Without the observer, and without a history in the state, the feedback fails and
    /// changes nothing. Otherwise the verdict is whether the map shows anything new, and
    /// the history is raised to what the map shows. The event manager stays as it is.
    open spec fn judges(
        self,
        state: Session<S, EM>,
        input: I,
        observers: OT,
        exit_kind: ExitKind,
        outcome: Outcome<Self, Session<S, EM>, Result<bool, ErrorView>>,
    ) -> bool {
        match observers.match_name(self.observer_handle.name_view()) {
            None => outcome == (Outcome {
                feedback: self,
                state,
                result: Err::<bool, ErrorView>(missing_map_observer_view()),
            }),
            Some(observer) => match self.history_in(state.state) {
                None => outcome == (Outcome {
                    feedback: self,
                    state,
                    result: Err::<bool, ErrorView>(missing_history_view()),
                }),
                Some(history) => {
                    let novel = is_novel(history, observer.map_view());
                    &&& outcome.result == Ok::<bool, ErrorView>(novel)
                    &&& outcome.feedback == self.with_last_result(Some(novel))
                    &&& outcome.state.manager == state.manager
                    &&& exists|raised: Seq<u8>|
                        #[trigger] raised_to(history, observer.map_view(), raised)
                            && self.history_replaced(state.state, outcome.state.state, raised)
                },
            },
        }
    }

    fn is_interesting(
        &mut self,
        state: &mut S,
        manager: &mut EM,
        input: &I,
        observers: &OT,
        exit_kind: &ExitKind,
    ) -> (r: Result<bool, Error>) {
        proof {
            lemma_replacing_named_metadata(*state);
        }
        let observer = match observers.get(&self.observer_handle) {
            Some(observer) => observer,
            None => {
                return Err(
                    Error::unknown_observer(
                        "MaxMapFeedback: the map observer is not among the observers",
                    ),
                );
            },
        };
        let map = state.named_metadata_map_mut();
        let metadata = match map.map_feedbacks.get_mut(self.name.as_str()) {
            Some(metadata) => metadata,
            None => {
                return Err(
                    Error::illegal_state(
                        "MaxMapFeedback: the state holds no history for this feedback",
                    ),
                );
            },
        };
        let ghost history = metadata.history_map@;
        let novel = raise_history(&mut metadata.history_map, observer.map());
        assert(raised_to(history, observer.map_view(), metadata.history_map@));
        self.last_result = Some(novel);
        Ok(novel)
    }

    open spec fn last_result_spec(&self) -> Result<bool, ErrorView> {
        cached_verdict(self.last_result)
    }

    fn last_result(&self) -> (r: Result<bool, Error>) {
        read_cached_verdict(&self.last_result)
    }

    open spec fn hit_feedbacks_spec(&self) -> Hits {
        own_hit(cached_verdict(self.last_result), self.name_view())
    }

    fn append_hit_feedbacks(&self, list: &mut Vec<String>) -> (r: Result<(), Error>) {
        append_own_hit(read_cached_verdict(&self.last_result), self.name(), list)
    }

    open spec fn negated_hit_feedbacks_spec(&self) -> Hits {
        own_hit(inverted(cached_verdict(self.last_result)), self.name_view())
    }

    fn append_negated_hit_feedbacks(&self, list: &mut Vec<String>) -> (r: Result<(), Error>) {
        append_own_hit(invert_verdict(read_cached_verdict(&self.last_result)), self.name(), list)
    }

    open spec fn appends_metadata(
        self,
        state: Session<S, EM>,
        observers: OT,
        testcase: Testcase<I>,
        outcome: MetadataOutcome<Self, Session<S, EM>, I>,
    ) -> bool {
        outcome == (MetadataOutcome { feedback: self, state, testcase, result: Ok(()) })
    }

    fn append_metadata(&mut self, state: &mut S, manager: &mut EM, observers: &OT, testcase: &mut Testcase<I>) -> (r:
        Result<(), Error>) {
        Ok(())
    }

    open spec fn discards_metadata(
        self,
        state: S,
        input: I,
        outcome: Outcome<Self, S, Result<(), ErrorView>>,
    ) -> bool {
        outcome == (Outcome { feedback: self, state, result: Ok::<(), ErrorView>(()) })
    }

    fn discard_metadata(&mut self, state: &mut S, input: &I) -> (r: Result<(), Error>) {
        Ok(())
    }
}

/// After the observers were cleared, and before any run, a map feedback that has its
/// observer and its history can only say no.
pub proof fn lemma_no_run_is_not_interesting<EM, I, OT: MatchNameRef<MapObserver>, S: HasNamedMetadata>(
    feedback: MaxMapFeedback,
    state: Session<S, EM>,
    input: I,
    observers: OT,
    exit_kind: ExitKind,
    outcome: Outcome<MaxMapFeedback, Session<S, EM>, Result<bool, ErrorView>>,
)
    requires
        feedback.judges(state, input, observers, exit_kind, outcome),
        observers.match_name(feedback.observer_handle.name_view()) matches Some(observer)
            && all_zero(observer.map_view()),
        feedback.history_in(state.state) is Some,
    ensures
        outcome.result == Ok::<bool, ErrorView>(false),
{
    let observer = observers.match_name(feedback.observer_handle.name_view()).unwrap();
    lemma_cleared_map_is_not_novel(feedback.history_in(state.state).unwrap(), observer.map_view());
}


impl HasObserverHandle for MaxMapFeedback {
    type Observer = MapObserver;

    open spec fn observer_handle_spec(&self) -> Handle<MapObserver> {
        self.observer_handle
    }

    fn observer_handle(&self) -> (handle: &Handle<MapObserver>) {
        &self.observer_handle
    }
}


impl<EM, I, OT: MatchNameRef<MapObserver>, S: HasNamedMetadata + HasClientPerfMonitor> FeedbackIntrospection<EM, I, OT, S> for MaxMapFeedback {
    open spec fn judges_timed(
        self,
        state: Session<S, EM>,
        input: I,
        observers: OT,
        exit_kind: ExitKind,
        outcome: Outcome<Self, Session<S, EM>, Result<bool, ErrorView>>,
    ) -> bool {
        judged_and_timed(self, state, input, observers, exit_kind, outcome)
    }

    fn is_interesting_introspection(
        &mut self,
        state: &mut S,
        manager: &mut EM,
        input: &I,
        observers: &OT,
        exit_kind: &ExitKind,
    ) -> (r: Result<bool, Error>) {
        judge_and_time(self, state, manager, input, observers, exit_kind)
    }
}


/// `init_state` of a map feedback is idempotent: once the state holds a history for the
/// feedback, a second call can only succeed and change nothing.
pub proof fn lemma_map_init_state_is_idempotent<EM, I, OT: MatchNameRef<MapObserver>, S: HasNamedMetadata>(
    feedback: MaxMapFeedback,
    state: S,
)
    ensures
        crate::feedbacks::laws::init_state_is_idempotent::<EM, I, OT, S, MaxMapFeedback>(
            feedback,
            state,
        ),
{
    assert forall|
        once: Outcome<MaxMapFeedback, S, Result<(), ErrorView>>,
        twice: Outcome<MaxMapFeedback, S, Result<(), ErrorView>>,
    |
        #![trigger
            Feedback::<EM, I, OT, S>::init_states(feedback, state, once),
            Feedback::<EM, I, OT, S>::init_states(once.feedback, once.state, twice)
        ]
        Feedback::<EM, I, OT, S>::init_states(feedback, state, once) && once.result is Ok
            && Feedback::<EM, I, OT, S>::init_states(once.feedback, once.state, twice) implies twice
        == once by {
        assert(feedback.history_in(once.state) is Some);
    }
}

} // verus!
