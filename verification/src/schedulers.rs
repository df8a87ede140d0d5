//! Schedulers choose the testcase that is fuzzed next.

use vstd::prelude::*;
use crate::corpus::CorpusId;
use crate::error::{result_view, Error, ErrorKind, ErrorView};
use crate::state::HasCorpus;

verus! {

/// What a call on a scheduler leaves behind.
pub struct SchedulerOutcome<SC, S, R> {
    /// The scheduler after the call.
    pub scheduler: SC,
    /// The state after the call.
    pub state: S,
    /// What the call returned.
    pub result: R,
}

/// A scheduler chooses, among the testcases of the corpus, the one to fuzz next.
pub trait Scheduler<I, S>: Sized {
    /// Whether `outcome` is what [`Scheduler::on_add`] may leave behind.
    spec fn adds(
        self,
        state: S,
        id: CorpusId,
        outcome: SchedulerOutcome<Self, S, Result<(), ErrorView>>,
    ) -> bool;

    /// Called when a testcase has entered the corpus under `id`.
    fn on_add(&mut self, state: &mut S, id: CorpusId) -> (r: Result<(), Error>)
        ensures
            old(self).adds(
                *old(state),
                id,
                SchedulerOutcome {
                    scheduler: *final(self),
                    state: *final(state),
                    result: result_view(r),
                },
            ),
    ;

    /// Whether `outcome` is what [`Scheduler::next`] may leave behind.
    spec fn schedules(self, state: S, outcome: SchedulerOutcome<Self, S, Result<CorpusId, ErrorView>>) -> bool;

    /// Chooses the testcase to fuzz next, and makes it the current one of the corpus.
    fn next(&mut self, state: &mut S) -> (r: Result<CorpusId, Error>)
        ensures
            old(self).schedules(
                *old(state),
                SchedulerOutcome {
                    scheduler: *final(self),
                    state: *final(state),
                    result: result_view(r),
                },
            ),
    ;
}

/// The message of the error for a corpus without testcases.
pub open spec fn empty_corpus_message() -> Seq<char> {
    "No entries in corpus"@
}

/// The view of that error.
pub open spec fn empty_corpus_view() -> ErrorView {
    ErrorView { kind: ErrorKind::Corpus, message: empty_corpus_message() }
}

/// A scheduler that takes the testcases in the order in which they came, and begins
/// again with the first when it has taken the last.
#[derive(Clone, Copy, Debug, PartialEq, Eq, Structural)]
pub struct QueueScheduler {
}

impl QueueScheduler {
    /// A queue scheduler.
    pub fn new() -> (scheduler: Self) {
        QueueScheduler {  }
    }

    /// The id that follows `current` in `ids`: the one at the next place, or the first
    /// where `current` is none of the ids or the last of them.
    pub open spec fn successor(ids: Seq<usize>, current: Option<CorpusId>) -> CorpusId
        recommends
            ids.len() > 0,
    {
        match current {
            Some(id) => match crate::corpus::place_of(ids, id.0) {
                Some(place) => if place + 1 < ids.len() {
                    CorpusId(ids[place + 1])
                } else {
                    CorpusId(ids[0])
                },
                None => CorpusId(ids[0]),
            },
            None => CorpusId(ids[0]),
        }
    }
}

impl<I, S: HasCorpus<I>> Scheduler<I, S> for QueueScheduler {
    open spec fn adds(
        self,
        state: S,
        id: CorpusId,
        outcome: SchedulerOutcome<Self, S, Result<(), ErrorView>>,
    ) -> bool {
        outcome == (SchedulerOutcome { scheduler: self, state, result: Ok::<(), ErrorView>(()) })
    }

    fn on_add(&mut self, state: &mut S, id: CorpusId) -> (r: Result<(), Error>) {
        Ok(())
    }

    /// An empty corpus gives an error, and nothing changes. Otherwise the testcase that
    /// follows the current one becomes the current one; nothing else changes.
    open spec fn schedules(self, state: S, outcome: SchedulerOutcome<Self, S, Result<CorpusId, ErrorView>>) -> bool {
        let was = state.corpus_spec();
        let now = outcome.state.corpus_spec();
        &&& outcome.scheduler == self
        &&& if was.ids().len() == 0 {
            outcome.state == state && outcome.result == Err::<CorpusId, ErrorView>(
                empty_corpus_view(),
            )
        } else {
            &&& outcome.result == Ok::<CorpusId, ErrorView>(
                Self::successor(was.ids(), was.current_spec()),
            )
            &&& outcome.state == state.with_corpora(now, state.solutions_spec())
            &&& now.current_spec() == Some(Self::successor(was.ids(), was.current_spec()))
            &&& now@ == was@
            &&& now.ids() == was.ids()
            &&& now.next_id() == was.next_id()
        }
    }

    fn next(&mut self, state: &mut S) -> (r: Result<CorpusId, Error>) {
        proof {
            state.lemma_corpora_replaced(state.corpus_spec(), state.solutions_spec());
            assert forall|corpus: crate::corpus::InMemoryCorpus<I>| #[trigger]
                state.with_corpora(corpus, state.solutions_spec()).corpus_spec() == corpus by {
                state.lemma_corpora_replaced(corpus, state.solutions_spec());
            }
        }
        let corpus = state.corpus_mut();
        if corpus.count() == 0 {
            return Err(Error::corpus("No entries in corpus"));
        }
        let id = match corpus.successor(*corpus.current()) {
            Some(id) => id,
            None => {
                return Err(Error::corpus("No entries in corpus"));
            },
        };
        corpus.set_current(Some(id));
        Ok(id)
    }
}

} // verus!
