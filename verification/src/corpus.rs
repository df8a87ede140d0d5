//! Testcases and the corpora that hold them.

use vstd::prelude::*;
use crate::error::{Error, ErrorKind, ErrorView};
use crate::time::Duration;

verus! {

/// The identifier of a testcase within one corpus.
#[derive(Clone, Copy, Debug, PartialEq, Eq, Structural)]
pub struct CorpusId(pub usize);

/// An input together with what the fuzzer has learned about it.
#[derive(Debug)]
pub struct Testcase<I> {
    /// The input.
    pub input: I,
    /// How long the harness ran on the input, once that was measured.
    pub exec_time: Option<Duration>,
}

impl<I> Testcase<I> {
    /// A testcase for `input` of which nothing has been measured yet.
    pub fn new(input: I) -> (t: Self)
        ensures
            t == (Testcase { input, exec_time: None }),
    {
        Testcase { input, exec_time: None }
    }

    /// The input.
    pub fn input(&self) -> (i: &I)
        ensures
            *i == self.input,
    {
        &self.input
    }

    /// The measured run time, if any.
    pub fn exec_time(&self) -> (t: &Option<Duration>)
        ensures
            *t == self.exec_time,
    {
        &self.exec_time
    }

    /// The measured run time, to be set.
    pub fn exec_time_mut(&mut self) -> (t: &mut Option<Duration>)
        ensures
            *t == old(self).exec_time,
            *final(self) == (Testcase { input: old(self).input, exec_time: *final(t) }),
    {
        &mut self.exec_time
    }
}


/// The message of the error for an id that a corpus does not hold.
pub open spec fn no_such_testcase_message() -> Seq<char> {
    "The corpus holds no testcase of this id"@
}

/// The view of that error.
pub open spec fn no_such_testcase_view() -> ErrorView {
    ErrorView { kind: ErrorKind::KeyNotFound, message: no_such_testcase_message() }
}

/// The message of the error for a corpus that has given out all its ids.
pub open spec fn corpus_full_message() -> Seq<char> {
    "The corpus has no id left to give"@
}

/// The view of that error.
pub open spec fn corpus_full_view() -> ErrorView {
    ErrorView { kind: ErrorKind::Corpus, message: corpus_full_message() }
}

/// The message of the error for solutions that have given out all their ids.
pub open spec fn solutions_full_message() -> Seq<char> {
    "The solutions have no id left to give"@
}

/// The view of that error.
pub open spec fn solutions_full_view() -> ErrorView {
    ErrorView { kind: ErrorKind::Solutions, message: solutions_full_message() }
}

/// The error for an id that a corpus does not hold.
pub fn no_such_testcase_err() -> (e: Error)
    ensures
        e@ == no_such_testcase_view(),
{
    Error::key_not_found("The corpus holds no testcase of this id")
}

/// The place of `id` among `ids`, if it is there.
pub open spec fn place_of(ids: Seq<usize>, id: usize) -> Option<int>
    decreases ids.len(),
{
    if ids.len() == 0 {
        None
    } else if ids.last() == id {
        Some(ids.len() - 1)
    } else {
        place_of(ids.drop_last(), id)
    }
}

/// What `place_of` finds is a place that holds the id; what it does not find is nowhere.
pub proof fn lemma_place_of(ids: Seq<usize>, id: usize)
    ensures
        match place_of(ids, id) {
            Some(i) => 0 <= i < ids.len() && ids[i] == id,
            None => forall|j: int| 0 <= j < ids.len() ==> ids[j] != id,
        },
    decreases ids.len(),
{
    if ids.len() > 0 && ids.last() != id {
        lemma_place_of(ids.drop_last(), id);
        if place_of(ids, id) is None {
            assert forall|j: int| 0 <= j < ids.len() implies ids[j] != id by {
                if j < ids.len() - 1 {
                    assert(ids.drop_last()[j] == ids[j]);
                }
            }
        }
    }
}

/// Whether the ids grow from each place to the next.
pub open spec fn ascending(ids: Seq<usize>) -> bool {
    forall|a: int, b: int| 0 <= a < b < ids.len() ==> ids[a] < ids[b]
}

/// The testcases of a corpus as a map from the ids to the testcases.
pub open spec fn filed<I>(ids: Seq<usize>, testcases: Seq<Testcase<I>>) -> Map<CorpusId, Testcase<I>> {
    Map::new(
        |id: CorpusId| place_of(ids, id.0) is Some,
        |id: CorpusId| testcases[place_of(ids, id.0).unwrap()],
    )
}

/// Among ascending ids, the place of an id is the one place that holds it.
proof fn lemma_place_is_unique(ids: Seq<usize>, i: int)
    requires
        0 <= i < ids.len(),
        ascending(ids),
    ensures
        place_of(ids, ids[i]) == Some(i),
{
    lemma_place_of(ids, ids[i]);
}

/// A testcase under an id greater than all others comes to the end.
proof fn lemma_filed_push<I>(ids: Seq<usize>, testcases: Seq<Testcase<I>>, id: usize, testcase: Testcase<I>)
    requires
        ids.len() == testcases.len(),
        forall|j: int| 0 <= j < ids.len() ==> ids[j] < id,
    ensures
        filed(ids.push(id), testcases.push(testcase)) == filed(ids, testcases).insert(
            CorpusId(id),
            testcase,
        ),
        !filed(ids, testcases).contains_key(CorpusId(id)),
{
    assert(ids.push(id).drop_last() =~= ids);
    lemma_place_of(ids, id);
    assert forall|other: usize| place_of(ids, other) is Some implies {
        let j = place_of(ids, other).unwrap();
        0 <= j < ids.len() && ids[j] == other
    } by {
        lemma_place_of(ids, other);
    }
    assert forall|key: CorpusId|
        #![trigger filed(ids.push(id), testcases.push(testcase)).dom().contains(key)]
        #![trigger filed(ids, testcases).insert(CorpusId(id), testcase).dom().contains(key)]
        filed(ids.push(id), testcases.push(testcase)).dom().contains(key) == filed(
            ids,
            testcases,
        ).insert(CorpusId(id), testcase).dom().contains(key) && (filed(
            ids.push(id),
            testcases.push(testcase),
        ).dom().contains(key) ==> filed(ids.push(id), testcases.push(testcase))[key] == filed(
            ids,
            testcases,
        ).insert(CorpusId(id), testcase)[key]) by {
        if key.0 == id {
            assert(key == CorpusId(id));
        }
    }
    assert(filed(ids.push(id), testcases.push(testcase)) =~= filed(ids, testcases).insert(
        CorpusId(id),
        testcase,
    ));
}

/// Another testcase at the place of an id is another testcase under that id.
proof fn lemma_filed_update<I>(ids: Seq<usize>, testcases: Seq<Testcase<I>>, i: int, testcase: Testcase<I>)
    requires
        ids.len() == testcases.len(),
        0 <= i < ids.len(),
        ascending(ids),
    ensures
        filed(ids, testcases.update(i, testcase)) == filed(ids, testcases).insert(
            CorpusId(ids[i]),
            testcase,
        ),
{
    lemma_place_is_unique(ids, i);
    assert forall|other: usize| place_of(ids, other) is Some implies {
        let j = place_of(ids, other).unwrap();
        0 <= j < ids.len() && ids[j] == other
    } by {
        lemma_place_of(ids, other);
    }
    assert forall|key: CorpusId|
        #![trigger filed(ids, testcases.update(i, testcase)).dom().contains(key)]
        #![trigger filed(ids, testcases).insert(CorpusId(ids[i]), testcase).dom().contains(key)]
        filed(ids, testcases.update(i, testcase)).dom().contains(key) == filed(
            ids,
            testcases,
        ).insert(CorpusId(ids[i]), testcase).dom().contains(key) && (filed(
            ids,
            testcases.update(i, testcase),
        ).dom().contains(key) ==> filed(ids, testcases.update(i, testcase))[key] == filed(
            ids,
            testcases,
        ).insert(CorpusId(ids[i]), testcase)[key]) by {
        if key.0 == ids[i] {
            assert(key == CorpusId(ids[i]));
        }
    }
    assert(filed(ids, testcases.update(i, testcase)) =~= filed(ids, testcases).insert(
        CorpusId(ids[i]),
        testcase,
    ));
}

/// Taking an id and its testcase out takes the id out of the map.
proof fn lemma_filed_remove<I>(ids: Seq<usize>, testcases: Seq<Testcase<I>>, i: int)
    requires
        ids.len() == testcases.len(),
        0 <= i < ids.len(),
        ascending(ids),
    ensures
        filed(ids.remove(i), testcases.remove(i)) == filed(ids, testcases).remove(CorpusId(ids[i])),
        ascending(ids.remove(i)),
{
    let fewer = ids.remove(i);
    let left = filed(fewer, testcases.remove(i));
    let right = filed(ids, testcases).remove(CorpusId(ids[i]));
    assert forall|key: CorpusId|
        #![trigger left.dom().contains(key)]
        #![trigger right.dom().contains(key)]
        left.dom().contains(key) == right.dom().contains(key) && (left.dom().contains(key)
            ==> left[key] == right[key]) by {
        lemma_place_of(ids, key.0);
        lemma_place_of(fewer, key.0);
        match place_of(fewer, key.0) {
            Some(j) => {
                let k = if j < i {
                    j
                } else {
                    j + 1
                };
                assert(ids[k] == key.0);
                lemma_place_is_unique(ids, k);
                assert(key != CorpusId(ids[i]));
            },
            None => {
                if key != CorpusId(ids[i]) {
                    match place_of(ids, key.0) {
                        Some(k) => {
                            let j = if k < i {
                                k
                            } else {
                                k - 1
                            };
                            assert(fewer[j] == key.0);
                        },
                        None => {},
                    }
                }
            },
        }
    }
    assert(left =~= right);
}

/// A corpus that keeps its testcases in memory, in the order in which they came.
/// Each testcase gets an id that no testcase of this corpus has had before.
pub struct InMemoryCorpus<I> {
    ids: Vec<usize>,
    testcases: Vec<Testcase<I>>,
    next_id: usize,
    current: Option<CorpusId>,
}

impl<I> InMemoryCorpus<I> {
    #[verifier::type_invariant]
    spec fn well_formed(&self) -> bool {
        &&& self.ids.len() == self.testcases.len()
        &&& ascending(self.ids@)
        &&& forall|j: int| 0 <= j < self.ids.len() ==> self.ids[j] < self.next_id
    }

    /// The testcases of the corpus, by their ids.
    pub closed spec fn view(&self) -> Map<CorpusId, Testcase<I>> {
        filed(self.ids@, self.testcases@)
    }

    /// The ids of the testcases, in the order in which the testcases came.
    pub closed spec fn ids(&self) -> Seq<usize> {
        self.ids@
    }

    /// The id that the next testcase gets.
    pub closed spec fn next_id(&self) -> usize {
        self.next_id
    }

    /// The id of the testcase that is being fuzzed, if any is.
    pub closed spec fn current_spec(&self) -> Option<CorpusId> {
        self.current
    }

    /// A corpus without testcases.
    pub fn new() -> (corpus: Self)
        ensures
            corpus@ == Map::<CorpusId, Testcase<I>>::empty(),
            corpus.ids() == Seq::<usize>::empty(),
            corpus.next_id() == 0,
            corpus.current_spec() is None,
    {
        let corpus = InMemoryCorpus {
            ids: Vec::new(),
            testcases: Vec::new(),
            next_id: 0,
            current: None,
        };
        assert(corpus@ =~= Map::<CorpusId, Testcase<I>>::empty());
        corpus
    }

    /// The number of testcases in the corpus.
    pub fn count(&self) -> (n: usize)
        ensures
            n == self.ids().len(),
    {
        self.ids.len()
    }

    /// Whether the corpus holds no testcase.
    pub fn is_empty(&self) -> (b: bool)
        ensures
            b == (self.ids().len() == 0),
    {
        self.ids.len() == 0
    }

    /// The place of `id` among the ids.
    fn find(&self, id: CorpusId) -> (r: Option<usize>)
        ensures
            match r {
                Some(i) => place_of(self.ids@, id.0) == Some(i as int) && i < self.ids.len(),
                None => place_of(self.ids@, id.0) is None,
            },
    {
        proof {
            use_type_invariant(self);
        }
        let mut i: usize = 0;
        while i < self.ids.len()
            invariant
                i <= self.ids.len(),
                forall|j: int| 0 <= j < i ==> self.ids[j] != id.0,
                ascending(self.ids@),
            decreases self.ids.len() - i,
        {
            if self.ids[i] == id.0 {
                proof {
                    lemma_place_is_unique(self.ids@, i as int);
                }
                return Some(i);
            }
            i += 1;
        }
        proof {
            lemma_place_of(self.ids@, id.0);
        }
        None
    }

    /// Files `testcase` under a new id, at the end of the corpus, and returns the id.
    /// Fails, and leaves the corpus as it is, once all ids have been given out.
    pub fn add(&mut self, testcase: Testcase<I>) -> (r: Result<CorpusId, Error>)
        ensures
            final(self).current_spec() == old(self).current_spec(),
            match r {
                Ok(id) => {
                    &&& id.0 == old(self).next_id()
                    &&& !old(self)@.contains_key(id)
                    &&& final(self)@ == old(self)@.insert(id, testcase)
                    &&& final(self).ids() == old(self).ids().push(id.0)
                    &&& final(self).next_id() == old(self).next_id() + 1
                },
                Err(e) => {
                    &&& old(self).next_id() == usize::MAX
                    &&& e@ == corpus_full_view()
                    &&& *final(self) == *old(self)
                },
            },
    {
        proof {
            use_type_invariant(&*self);
        }
        if self.next_id == usize::MAX {
            return Err(Error::corpus("The corpus has no id left to give"));
        }
        let id = self.next_id;
        proof {
            lemma_filed_push(self.ids@, self.testcases@, id, testcase);
        }
        let mut taken = InMemoryCorpus::new();
        core::mem::swap(self, &mut taken);
        let InMemoryCorpus { mut ids, mut testcases, next_id, current } = taken;
        ids.push(id);
        testcases.push(testcase);
        *self = InMemoryCorpus { ids, testcases, next_id: id + 1, current };
        Ok(CorpusId(id))
    }

    /// The testcase of the given id. Fails where the corpus holds none of that id.
    pub fn get(&self, id: CorpusId) -> (r: Result<&Testcase<I>, Error>)
        ensures
            match r {
                Ok(testcase) => self@.contains_key(id) && *testcase == self@[id],
                Err(e) => !self@.contains_key(id) && e@ == no_such_testcase_view(),
            },
    {
        proof {
            use_type_invariant(self);
        }
        match self.find(id) {
            Some(i) => Ok(&self.testcases[i]),
            None => Err(no_such_testcase_err()),
        }
    }

    /// Puts `testcase` in the place of the testcase of the given id, and returns the
    /// testcase that was there. Fails, and changes nothing, where the corpus holds none
    /// of that id.
    pub fn replace(&mut self, id: CorpusId, testcase: Testcase<I>) -> (r: Result<Testcase<I>, Error>)
        ensures
            final(self).current_spec() == old(self).current_spec(),
            final(self).ids() == old(self).ids(),
            final(self).next_id() == old(self).next_id(),
            match r {
                Ok(previous) => {
                    &&& old(self)@.contains_key(id)
                    &&& previous == old(self)@[id]
                    &&& final(self)@ == old(self)@.insert(id, testcase)
                },
                Err(e) => {
                    &&& !old(self)@.contains_key(id)
                    &&& e@ == no_such_testcase_view()
                    &&& *final(self) == *old(self)
                },
            },
    {
        proof {
            use_type_invariant(&*self);
        }
        match self.find(id) {
            Some(i) => {
                proof {
                    lemma_filed_update(self.ids@, self.testcases@, i as int, testcase);
                    lemma_place_of(self.ids@, id.0);
                }
                let mut previous = testcase;
                core::mem::swap(&mut self.testcases[i], &mut previous);
                Ok(previous)
            },
            None => Err(no_such_testcase_err()),
        }
    }

    /// Takes the testcase of the given id out of the corpus, and returns it. Its id is
    /// not given out again. Fails, and changes nothing, where the corpus holds none of
    /// that id.
    pub fn remove(&mut self, id: CorpusId) -> (r: Result<Testcase<I>, Error>)
        ensures
            final(self).current_spec() == old(self).current_spec(),
            final(self).next_id() == old(self).next_id(),
            match r {
                Ok(previous) => {
                    &&& old(self)@.contains_key(id)
                    &&& previous == old(self)@[id]
                    &&& final(self)@ == old(self)@.remove(id)
                    &&& place_of(old(self).ids(), id.0) matches Some(place) && final(self).ids()
                        == old(self).ids().remove(place)
                },
                Err(e) => {
                    &&& !old(self)@.contains_key(id)
                    &&& e@ == no_such_testcase_view()
                    &&& *final(self) == *old(self)
                },
            },
    {
        proof {
            use_type_invariant(&*self);
        }
        match self.find(id) {
            Some(i) => {
                proof {
                    lemma_filed_remove(self.ids@, self.testcases@, i as int);
                    lemma_place_of(self.ids@, id.0);
                }
                let mut taken = InMemoryCorpus::new();
                core::mem::swap(self, &mut taken);
                let InMemoryCorpus { mut ids, mut testcases, next_id, current } = taken;
                ids.remove(i);
                let previous = testcases.remove(i);
                *self = InMemoryCorpus { ids, testcases, next_id, current };
                Ok(previous)
            },
            None => Err(no_such_testcase_err()),
        }
    }

    /// The id of the testcase that is being fuzzed, if any is.
    pub fn current(&self) -> (id: &Option<CorpusId>)
        ensures
            *id == self.current_spec(),
    {
        &self.current
    }

    /// Says which testcase is being fuzzed.
    pub fn set_current(&mut self, id: Option<CorpusId>)
        ensures
            final(self).current_spec() == id,
            final(self)@ == old(self)@,
            final(self).ids() == old(self).ids(),
            final(self).next_id() == old(self).next_id(),
    {
        proof {
            use_type_invariant(&*self);
        }
        self.current = id;
    }

    /// The id that follows `current` in the order in which the testcases came: the one at
    /// the next place, or the first where `current` is none of the ids or the last of
    /// them. `None` where the corpus is empty.
    pub fn successor(&self, current: Option<CorpusId>) -> (r: Option<CorpusId>)
        ensures
            r == (if self.ids().len() == 0 {
                None
            } else {
                Some(
                    match current {
                        Some(id) => match place_of(self.ids(), id.0) {
                            Some(place) => if place + 1 < self.ids().len() {
                                CorpusId(self.ids()[place + 1])
                            } else {
                                CorpusId(self.ids()[0])
                            },
                            None => CorpusId(self.ids()[0]),
                        },
                        None => CorpusId(self.ids()[0]),
                    },
                )
            }),
    {
        proof {
            use_type_invariant(self);
        }
        if self.ids.len() == 0 {
            return None;
        }
        let first = CorpusId(self.ids[0]);
        match current {
            Some(id) => match self.find(id) {
                Some(place) => if place + 1 < self.ids.len() {
                    Some(CorpusId(self.ids[place + 1]))
                } else {
                    Some(first)
                },
                None => Some(first),
            },
            None => Some(first),
        }
    }

    /// The id at the given place in the order in which the testcases came.
    pub fn nth(&self, place: usize) -> (r: Option<CorpusId>)
        ensures
            r == (if place < self.ids().len() {
                Some(CorpusId(self.ids()[place as int]))
            } else {
                None
            }),
    {
        proof {
            use_type_invariant(self);
        }
        if place < self.ids.len() {
            Some(CorpusId(self.ids[place]))
        } else {
            None
        }
    }
}

} // verus!
