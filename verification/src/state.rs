//! The fuzzing state, as far as the kernel reads and writes it.
//!
//! The kernel reaches each part of the state through a trait of its own, so that a stage
//! asks for no more of the state than it uses.

use vstd::prelude::*;
use crate::corpus::{CorpusId, InMemoryCorpus, Testcase};
use crate::rands::rand_with_seed;
use crate::error::{Error, ErrorKind, ErrorView};
use crate::metadata::NamedMetadataMap;
use crate::monitors::{time_with, ClientPerfMonitor};

verus! {

/// The state together with the event manager: all that a call which is handed both may
/// change besides what it is called on. The kernel hands the manager on and never looks
/// into it.
pub struct Session<S, EM> {
    /// The state.
    pub state: S,
    /// The event manager.
    pub manager: EM,
}

/// The state `state` together with the event manager `manager`.
pub open spec fn session<S, EM>(state: S, manager: EM) -> Session<S, EM> {
    Session { state, manager }
}

/// A state that keeps metadata under names.
pub trait HasNamedMetadata: Sized {
    /// The named metadata of the state.
    spec fn named_metadata(&self) -> NamedMetadataMap;

    /// The state with `map` in the place of its named metadata, and all else as it is.
    spec fn with_named_metadata(self, map: NamedMetadataMap) -> Self;

    /// The named metadata can be replaced, and nothing else of the state is.
    proof fn lemma_named_metadata_replaced(self, map: NamedMetadataMap, later: NamedMetadataMap)
        ensures
            self.with_named_metadata(map).named_metadata() == map,
            self.with_named_metadata(self.named_metadata()) == self,
            self.with_named_metadata(map).with_named_metadata(later) == self.with_named_metadata(
                later,
            ),
    ;

    /// The named metadata, to be read.
    fn named_metadata_map(&self) -> (map: &NamedMetadataMap)
        ensures
            *map == self.named_metadata(),
    ;

    /// The named metadata, to be changed in place.
    fn named_metadata_map_mut(&mut self) -> (map: &mut NamedMetadataMap)
        ensures
            *map == old(self).named_metadata(),
            *final(self) == old(self).with_named_metadata(*final(map)),
    ;
}

/// Whether `after` is `before` but for its named metadata.
pub open spec fn only_named_metadata_differs<S: HasNamedMetadata>(before: S, after: S) -> bool {
    after == before.with_named_metadata(after.named_metadata())
}

/// Whatever map takes the place of the named metadata of `state`, it is then the named
/// metadata of the state; and the map that is there already changes nothing.
pub proof fn lemma_replacing_named_metadata<S: HasNamedMetadata>(state: S)
    ensures
        forall|map: NamedMetadataMap| #[trigger]
            state.with_named_metadata(map).named_metadata() == map,
        state.with_named_metadata(state.named_metadata()) == state,
{
    assert forall|map: NamedMetadataMap| #[trigger]
        state.with_named_metadata(map).named_metadata() == map by {
        state.lemma_named_metadata_replaced(map, map);
    }
    state.lemma_named_metadata_replaced(state.named_metadata(), state.named_metadata());
}

/// A state that counts the executions of the harness.
pub trait HasExecutions: Sized {
    /// The number of executions so far.
    spec fn executions_spec(&self) -> u64;

    /// The state with another number of executions, and all else as it is.
    spec fn with_executions(self, executions: u64) -> Self;

    /// The number of executions can be replaced, and nothing else of the state is.
    proof fn lemma_executions_replaced(self, executions: u64, later: u64)
        ensures
            self.with_executions(executions).executions_spec() == executions,
            self.with_executions(self.executions_spec()) == self,
            self.with_executions(executions).with_executions(later) == self.with_executions(later),
    ;

    /// The number of executions so far.
    fn executions(&self) -> (n: &u64)
        ensures
            *n == self.executions_spec(),
    ;

    /// The number of executions, to be changed in place.
    fn executions_mut(&mut self) -> (n: &mut u64)
        ensures
            *n == old(self).executions_spec(),
            *final(self) == old(self).with_executions(*final(n)),
    ;
}

/// A state that holds a random number generator.
pub trait HasRand: Sized {
    /// The generator of the state.
    spec fn rand_spec(&self) -> libafl_bolts::rands::StdRand;

    /// The state with another generator, and all else as it is.
    spec fn with_rand(self, rand: libafl_bolts::rands::StdRand) -> Self;

    /// The generator can be replaced, and nothing else of the state is.
    proof fn lemma_rand_replaced(
        self,
        rand: libafl_bolts::rands::StdRand,
        later: libafl_bolts::rands::StdRand,
    )
        ensures
            self.with_rand(rand).rand_spec() == rand,
            self.with_rand(self.rand_spec()) == self,
            self.with_rand(rand).with_rand(later) == self.with_rand(later),
    ;

    /// The generator, to draw from.
    fn rand_mut(&mut self) -> (rand: &mut libafl_bolts::rands::StdRand)
        ensures
            *rand == old(self).rand_spec(),
            *final(self) == old(self).with_rand(*final(rand)),
    ;
}

/// Whether `after` is `before` but for its random number generator.
pub open spec fn only_rand_differs<S: HasRand>(before: S, after: S) -> bool {
    after == before.with_rand(after.rand_spec())
}

/// A state with all the parts that a stage works on. Its parts are independent of each
/// other: to replace one leaves the others as they are.
pub trait State: HasNamedMetadata + HasExecutions + HasRand {
    /// Replacing one part of the state does not touch another.
    proof fn lemma_parts_are_independent(
        self,
        map: NamedMetadataMap,
        executions: u64,
        rand: libafl_bolts::rands::StdRand,
    )
        ensures
            self.with_named_metadata(map).executions_spec() == self.executions_spec(),
            self.with_named_metadata(map).rand_spec() == self.rand_spec(),
            self.with_executions(executions).named_metadata() == self.named_metadata(),
            self.with_executions(executions).rand_spec() == self.rand_spec(),
            self.with_rand(rand).named_metadata() == self.named_metadata(),
            self.with_rand(rand).executions_spec() == self.executions_spec(),
    ;
}


/// The message of the error for a state that is at no testcase.
pub open spec fn no_current_testcase_message() -> Seq<char> {
    "We are not currently processing a testcase"@
}

/// The view of the error for a state that is at no testcase.
pub open spec fn no_current_testcase_view() -> ErrorView {
    ErrorView { kind: ErrorKind::KeyNotFound, message: no_current_testcase_message() }
}

/// The error for a state that is at no testcase.
pub fn no_current_testcase_err() -> (e: Error)
    ensures
        e@ == no_current_testcase_view(),
{
    Error::key_not_found("We are not currently processing a testcase")
}

/// A state that knows which testcase of its corpus is being fuzzed.
pub trait HasCurrentTestcase<I>: State {
    /// The testcase that is being fuzzed, if the state is at one that its corpus holds.
    spec fn current_testcase_spec(&self) -> Option<Testcase<I>>;

    /// The testcase that is being fuzzed stays the same when the named metadata, the
    /// count of executions or the generator of random numbers is replaced.
    proof fn lemma_current_testcase_is_independent(
        self,
        map: NamedMetadataMap,
        executions: u64,
        rand: libafl_bolts::rands::StdRand,
    )
        ensures
            self.with_named_metadata(map).current_testcase_spec() == self.current_testcase_spec(),
            self.with_executions(executions).current_testcase_spec() == self.current_testcase_spec(),
            self.with_rand(rand).current_testcase_spec() == self.current_testcase_spec(),
    ;

    /// The testcase that is being fuzzed. Fails, with the error of
    /// [`no_current_testcase_err`], where there is none.
    fn current_testcase(&self) -> (r: Result<&Testcase<I>, Error>)
        ensures
            match r {
                Ok(testcase) => self.current_testcase_spec() == Some(*testcase),
                Err(e) => self.current_testcase_spec() is None && e@ == no_current_testcase_view(),
            },
    ;
}


/// A state that keeps a monitor of the fuzzer's own performance.
pub trait HasClientPerfMonitor: Sized {
    /// The monitor of the state.
    spec fn introspection_monitor_spec(&self) -> ClientPerfMonitor;

    /// The state with another monitor, and all else as it is.
    spec fn with_introspection_monitor(self, monitor: ClientPerfMonitor) -> Self;

    /// The monitor can be replaced, and nothing else of the state is.
    proof fn lemma_introspection_monitor_replaced(self, monitor: ClientPerfMonitor)
        ensures
            self.with_introspection_monitor(monitor).introspection_monitor_spec() == monitor,
            self.with_introspection_monitor(self.introspection_monitor_spec()) == self,
    ;

    /// The monitor, to be read.
    fn introspection_monitor(&self) -> (monitor: &ClientPerfMonitor)
        ensures
            *monitor == self.introspection_monitor_spec(),
    ;

    /// The monitor, to be changed in place.
    fn introspection_monitor_mut(&mut self) -> (monitor: &mut ClientPerfMonitor)
        ensures
            *monitor == old(self).introspection_monitor_spec(),
            *final(self) == old(self).with_introspection_monitor(*final(monitor)),
    ;
}

/// Whether `after` is `before` with `elapsed` more noted as the time of the feedback
/// called `name`, and all else as it is.
pub open spec fn feedback_time_noted<S: HasClientPerfMonitor>(
    before: S,
    after: S,
    name: Seq<char>,
    elapsed: u64,
) -> bool {
    let was = before.introspection_monitor_spec().feedback_times();
    &&& after == before.with_introspection_monitor(after.introspection_monitor_spec())
    &&& after.introspection_monitor_spec().feedback_times() == was.insert(
        name,
        time_with(was, name, elapsed),
    )
}

/// A state that holds the corpus and the corpus of solutions.
pub trait HasCorpus<I>: State {
    /// The corpus of the state.
    spec fn corpus_spec(&self) -> InMemoryCorpus<I>;

    /// The corpus of solutions of the state.
    spec fn solutions_spec(&self) -> InMemoryCorpus<I>;

    /// The state with other corpora, and all else as it is.
    spec fn with_corpora(self, corpus: InMemoryCorpus<I>, solutions: InMemoryCorpus<I>) -> Self;

    /// The corpora can be replaced, and nothing else of the state is.
    proof fn lemma_corpora_replaced(self, corpus: InMemoryCorpus<I>, solutions: InMemoryCorpus<I>)
        ensures
            self.with_corpora(corpus, solutions).corpus_spec() == corpus,
            self.with_corpora(corpus, solutions).solutions_spec() == solutions,
            self.with_corpora(self.corpus_spec(), self.solutions_spec()) == self,
            self.with_corpora(corpus, solutions).named_metadata() == self.named_metadata(),
            self.with_corpora(corpus, solutions).executions_spec() == self.executions_spec(),
            self.with_corpora(corpus, solutions).rand_spec() == self.rand_spec(),
    ;

    /// The corpora stay the same when the named metadata, the count of executions or
    /// the generator of random numbers is replaced.
    proof fn lemma_corpora_are_independent(
        self,
        map: NamedMetadataMap,
        executions: u64,
        rand: libafl_bolts::rands::StdRand,
    )
        ensures
            self.with_named_metadata(map).corpus_spec() == self.corpus_spec(),
            self.with_named_metadata(map).solutions_spec() == self.solutions_spec(),
            self.with_executions(executions).corpus_spec() == self.corpus_spec(),
            self.with_executions(executions).solutions_spec() == self.solutions_spec(),
            self.with_rand(rand).corpus_spec() == self.corpus_spec(),
            self.with_rand(rand).solutions_spec() == self.solutions_spec(),
    ;

    /// The corpus, to be read.
    fn corpus(&self) -> (corpus: &InMemoryCorpus<I>)
        ensures
            *corpus == self.corpus_spec(),
    ;

    /// The corpus, to be changed in place.
    fn corpus_mut(&mut self) -> (corpus: &mut InMemoryCorpus<I>)
        ensures
            *corpus == old(self).corpus_spec(),
            *final(self) == old(self).with_corpora(*final(corpus), old(self).solutions_spec()),
    ;

    /// The corpus of solutions, to be read.
    fn solutions(&self) -> (solutions: &InMemoryCorpus<I>)
        ensures
            *solutions == self.solutions_spec(),
    ;

    /// The corpus of solutions, to be changed in place.
    fn solutions_mut(&mut self) -> (solutions: &mut InMemoryCorpus<I>)
        ensures
            *solutions == old(self).solutions_spec(),
            *final(self) == old(self).with_corpora(old(self).corpus_spec(), *final(solutions)),
    ;
}

/// The state of one fuzzer: its generator of random numbers, its two corpora, its
/// named metadata, and the count of executions.
pub struct StdState<I> {
    rand: libafl_bolts::rands::StdRand,
    executions: u64,
    corpus: InMemoryCorpus<I>,
    solutions: InMemoryCorpus<I>,
    named_metadata: NamedMetadataMap,
    introspection_monitor: ClientPerfMonitor,
}

impl<I> StdState<I> {
    /// A state with empty corpora, without metadata and without executions, whose
    /// generator of random numbers starts from `seed`.
    pub fn new(seed: u64) -> (state: Self)
        ensures
            state.executions_spec() == 0,
            state.corpus_spec()@ == Map::<CorpusId, Testcase<I>>::empty(),
            state.corpus_spec().current_spec() is None,
            state.corpus_spec().next_id() == 0,
            state.solutions_spec()@ == Map::<CorpusId, Testcase<I>>::empty(),
            state.solutions_spec().next_id() == 0,
            state.named_metadata().tuneable_stages@ == Map::<
                Seq<char>,
                crate::stages::tuneable::TuneableMutationalStageMetadata,
            >::empty(),
            state.named_metadata().execution_counts@ == Map::<
                Seq<char>,
                crate::stages::ExecutionCountRestartHelperMetadata,
            >::empty(),
            state.named_metadata().map_feedbacks@ == Map::<
                Seq<char>,
                crate::feedbacks::map::MapFeedbackMetadata,
            >::empty(),
            state.current_testcase_spec() is None,
            state.introspection_monitor_spec().feedback_times() == Map::<Seq<char>, u64>::empty(),
    {
        StdState {
            rand: rand_with_seed(seed),
            executions: 0,
            corpus: InMemoryCorpus::new(),
            solutions: InMemoryCorpus::new(),
            named_metadata: NamedMetadataMap::new(),
            introspection_monitor: ClientPerfMonitor::new(),
        }
    }
}

impl<I> HasNamedMetadata for StdState<I> {
    closed spec fn named_metadata(&self) -> NamedMetadataMap {
        self.named_metadata
    }

    closed spec fn with_named_metadata(self, map: NamedMetadataMap) -> Self {
        StdState { named_metadata: map, ..self }
    }

    proof fn lemma_named_metadata_replaced(self, map: NamedMetadataMap, later: NamedMetadataMap) {
    }

    fn named_metadata_map(&self) -> (map: &NamedMetadataMap) {
        &self.named_metadata
    }

    fn named_metadata_map_mut(&mut self) -> (map: &mut NamedMetadataMap) {
        &mut self.named_metadata
    }
}

impl<I> HasExecutions for StdState<I> {
    closed spec fn executions_spec(&self) -> u64 {
        self.executions
    }

    closed spec fn with_executions(self, executions: u64) -> Self {
        StdState { executions, ..self }
    }

    proof fn lemma_executions_replaced(self, executions: u64, later: u64) {
    }

    fn executions(&self) -> (n: &u64) {
        &self.executions
    }

    fn executions_mut(&mut self) -> (n: &mut u64) {
        &mut self.executions
    }
}

impl<I> HasRand for StdState<I> {
    closed spec fn rand_spec(&self) -> libafl_bolts::rands::StdRand {
        self.rand
    }

    closed spec fn with_rand(self, rand: libafl_bolts::rands::StdRand) -> Self {
        StdState { rand, ..self }
    }

    proof fn lemma_rand_replaced(
        self,
        rand: libafl_bolts::rands::StdRand,
        later: libafl_bolts::rands::StdRand,
    ) {
    }

    fn rand_mut(&mut self) -> (rand: &mut libafl_bolts::rands::StdRand) {
        &mut self.rand
    }
}

impl<I> State for StdState<I> {
    proof fn lemma_parts_are_independent(
        self,
        map: NamedMetadataMap,
        executions: u64,
        rand: libafl_bolts::rands::StdRand,
    ) {
    }
}

impl<I> HasCorpus<I> for StdState<I> {
    closed spec fn corpus_spec(&self) -> InMemoryCorpus<I> {
        self.corpus
    }

    closed spec fn solutions_spec(&self) -> InMemoryCorpus<I> {
        self.solutions
    }

    closed spec fn with_corpora(self, corpus: InMemoryCorpus<I>, solutions: InMemoryCorpus<I>) -> Self {
        StdState { corpus, solutions, ..self }
    }

    proof fn lemma_corpora_replaced(self, corpus: InMemoryCorpus<I>, solutions: InMemoryCorpus<I>) {
    }

    proof fn lemma_corpora_are_independent(
        self,
        map: NamedMetadataMap,
        executions: u64,
        rand: libafl_bolts::rands::StdRand,
    ) {
    }

    fn corpus(&self) -> (corpus: &InMemoryCorpus<I>) {
        &self.corpus
    }

    fn corpus_mut(&mut self) -> (corpus: &mut InMemoryCorpus<I>) {
        &mut self.corpus
    }

    fn solutions(&self) -> (solutions: &InMemoryCorpus<I>) {
        &self.solutions
    }

    fn solutions_mut(&mut self) -> (solutions: &mut InMemoryCorpus<I>) {
        &mut self.solutions
    }
}

impl<I> HasCurrentTestcase<I> for StdState<I> {
    /// The testcase that the corpus holds under its current id.
    open spec fn current_testcase_spec(&self) -> Option<Testcase<I>> {
        match self.corpus_spec().current_spec() {
            Some(id) => if self.corpus_spec()@.contains_key(id) {
                Some(self.corpus_spec()@[id])
            } else {
                None
            },
            None => None,
        }
    }

    proof fn lemma_current_testcase_is_independent(
        self,
        map: NamedMetadataMap,
        executions: u64,
        rand: libafl_bolts::rands::StdRand,
    ) {
    }

    fn current_testcase(&self) -> (r: Result<&Testcase<I>, Error>) {
        match self.corpus.current() {
            Some(id) => match self.corpus.get(*id) {
                Ok(testcase) => Ok(testcase),
                Err(_) => Err(no_current_testcase_err()),
            },
            None => Err(no_current_testcase_err()),
        }
    }
}


impl<I> HasClientPerfMonitor for StdState<I> {
    closed spec fn introspection_monitor_spec(&self) -> ClientPerfMonitor {
        self.introspection_monitor
    }

    closed spec fn with_introspection_monitor(self, monitor: ClientPerfMonitor) -> Self {
        StdState { introspection_monitor: monitor, ..self }
    }

    proof fn lemma_introspection_monitor_replaced(self, monitor: ClientPerfMonitor) {
    }

    fn introspection_monitor(&self) -> (monitor: &ClientPerfMonitor) {
        &self.introspection_monitor
    }

    fn introspection_monitor_mut(&mut self) -> (monitor: &mut ClientPerfMonitor) {
        &mut self.introspection_monitor
    }
}

} // verus!
