//! Observers collect what one run of the harness shows; feedbacks find them again by handle.

use vstd::prelude::*;
use core::marker::PhantomData;
use crate::error::{result_view, Error, ErrorView};
use crate::executors::ExitKind;
use crate::named::{same_name, Named};
use crate::time::{current_time, Duration};

verus! {

/// The address of an observer of type `T` in a collection of observers: its name.
/// A handle is resolved when it is used, never when it is made.
#[derive(Debug)]
pub struct Handle<T> {
    name: String,
    phantom: PhantomData<T>,
}

impl<T> Handle<T> {
    /// A handle for the observer of the given name.
    pub fn new(name: &str) -> (h: Self)
        ensures
            h.name_view() == name@,
    {
        Handle { name: name.to_owned(), phantom: PhantomData }
    }
}

impl<T> Handle<T> {
    /// The characters of the name of the observer that the handle stands for.
    pub closed spec fn name_view(&self) -> Seq<char> {
        self.name@
    }

    /// The name of the observer that the handle stands for.
    pub fn name(&self) -> (n: &str)
        ensures
            n@ == self.name_view(),
    {
        self.name.as_str()
    }
}

/// Something named can hand out a handle to itself.
pub trait Handled: Named + Sized {
    /// A handle by which this value is found again in a collection.
    fn handle(&self) -> (h: Handle<Self>)
        ensures
            h.name_view() == self.name_view(),
    {
        Handle::new(self.name())
    }
}

impl<N: Named> Handled for N {
}

impl<T> Clone for Handle<T> {
    fn clone(&self) -> (h: Self)
        ensures
            h.name_view() == self.name_view(),
    {
        Handle { name: self.name.clone(), phantom: PhantomData }
    }
}

/// The first entry of `observers` that carries `name`, if there is one.
pub open spec fn first_named<T: Named>(observers: Seq<T>, name: Seq<char>) -> Option<T>
    decreases observers.len(),
{
    if observers.len() == 0 {
        None
    } else if observers[0].name_view() == name {
        Some(observers[0])
    } else {
        first_named(observers.skip(1), name)
    }
}

/// In a sequence where no entry before `i` carries `name`, the search may start at `i`.
proof fn lemma_first_named_skips<T: Named>(observers: Seq<T>, name: Seq<char>, i: int)
    requires
        0 <= i <= observers.len(),
        forall|j: int| 0 <= j < i ==> observers[j].name_view() != name,
    ensures
        first_named(observers, name) == first_named(observers.skip(i), name),
    decreases i,
{
    if i == 0 {
        assert(observers.skip(0) =~= observers);
    } else {
        lemma_first_named_skips(observers.skip(1), name, i - 1);
        assert(observers.skip(1).skip(i - 1) =~= observers.skip(i));
    }
}

/// A collection of observers in which one of type `T` is found by its handle.
pub trait MatchNameRef<T> {
    /// The observer that a handle of the given name resolves to, if any.
    spec fn match_name(&self, name: Seq<char>) -> Option<T>;

    /// Resolves `handle`. A miss is reported as `None`, never passed over.
    fn get(&self, handle: &Handle<T>) -> (r: Option<&T>)
        ensures
            r matches Some(o) ==> self.match_name(handle.name_view()) == Some(*o),
            r is None ==> self.match_name(handle.name_view()) is None,
    ;
}

impl<T: Named> MatchNameRef<T> for Vec<T> {
    open spec fn match_name(&self, name: Seq<char>) -> Option<T> {
        first_named(self@, name)
    }

    fn get(&self, handle: &Handle<T>) -> (r: Option<&T>) {
        let mut i: usize = 0;
        while i < self.len()
            invariant
                i <= self.len(),
                forall|j: int| 0 <= j < i ==> self@[j].name_view() != handle.name_view(),
            decreases self.len() - i,
        {
            if same_name(self[i].name(), handle.name()) {
                proof {
                    lemma_first_named_skips(self@, handle.name_view(), i as int);
                }
                return Some(&self[i]);
            }
            i += 1;
        }
        proof {
            lemma_first_named_skips(self@, handle.name_view(), self.len() as int);
        }
        None
    }
}

/// An observer that measures how long the harness ran.
#[derive(Debug)]
pub struct TimeObserver {
    name: String,
    start_time: Duration,
    last_runtime: Option<Duration>,
}

impl Named for TimeObserver {
    closed spec fn name_view(&self) -> Seq<char> {
        self.name@
    }

    fn name(&self) -> (n: &str) {
        self.name.as_str()
    }
}

impl TimeObserver {
    /// The run time measured last, as a specification value.
    pub closed spec fn last_runtime_spec(&self) -> Option<Duration> {
        self.last_runtime
    }

    /// An observer of the given name that has measured nothing yet.
    pub fn new(name: &str) -> (o: Self)
        ensures
            o.name_view() == name@,
            o.last_runtime_spec() is None,
    {
        TimeObserver { name: name.to_owned(), start_time: Duration::zero(), last_runtime: None }
    }

    /// An observer of the given name whose last measurement is the given one.
    pub fn with_runtime(name: &str, last_runtime: Option<Duration>) -> (o: Self)
        ensures
            o.name_view() == name@,
            o.last_runtime_spec() == last_runtime,
    {
        TimeObserver { name: name.to_owned(), start_time: Duration::zero(), last_runtime }
    }

    /// The run time measured last; `None` before the first run and after a reset.
    pub fn last_runtime(&self) -> (t: &Option<Duration>)
        ensures
            *t == self.last_runtime_spec(),
    {
        &self.last_runtime
    }

    /// Before a run: forgets the last measurement and notes the time.
    pub fn pre_exec(&mut self)
        ensures
            final(self).name_view() == old(self).name_view(),
            final(self).last_runtime_spec() is None,
    {
        self.last_runtime = None;
        self.start_time = current_time();
    }

    /// After a run: measures the time since `pre_exec`. On a clock that was set back in
    /// between, the measurement is the empty span.
    pub fn post_exec(&mut self)
        ensures
            final(self).name_view() == old(self).name_view(),
            final(self).last_runtime_spec() is Some,
    {
        let now = current_time();
        self.last_runtime = Some(now.saturating_sub(self.start_time));
    }
}


/// An observer that holds a map of counters, one for each place of the harness that a
/// run can reach. The harness raises the counters; the map is cleared before each run.
#[derive(Debug)]
pub struct MapObserver {
    name: String,
    map: Vec<u8>,
}

impl Named for MapObserver {
    closed spec fn name_view(&self) -> Seq<char> {
        self.name@
    }

    fn name(&self) -> (n: &str) {
        self.name.as_str()
    }
}

/// Whether every entry of `map` is zero.
pub open spec fn all_zero(map: Seq<u8>) -> bool {
    forall|i: int| 0 <= i < map.len() ==> map[i] == 0
}

impl MapObserver {
    /// The entries of the map.
    pub closed spec fn map_view(&self) -> Seq<u8> {
        self.map@
    }

    /// An observer of the given name with a cleared map of `size` entries.
    pub fn new(name: &str, size: usize) -> (o: Self)
        ensures
            o.name_view() == name@,
            o.map_view().len() == size,
            all_zero(o.map_view()),
    {
        let mut map: Vec<u8> = Vec::new();
        while map.len() < size
            invariant
                map.len() <= size,
                all_zero(map@),
            decreases size - map.len(),
        {
            map.push(0);
        }
        MapObserver { name: name.to_owned(), map }
    }

    /// The number of entries of the map.
    pub fn len(&self) -> (n: usize)
        ensures
            n == self.map_view().len(),
    {
        self.map.len()
    }

    /// The entries of the map.
    pub fn map(&self) -> (m: &Vec<u8>)
        ensures
            m@ == self.map_view(),
    {
        &self.map
    }

    /// The entry at `index`; `None` where the map has no such entry.
    pub fn get(&self, index: usize) -> (r: Option<u8>)
        ensures
            r == (if index < self.map_view().len() {
                Some(self.map_view()[index as int])
            } else {
                None
            }),
    {
        if index < self.map.len() {
            Some(self.map[index])
        } else {
            None
        }
    }

    /// Sets the entry at `index` to `value`, and says whether the map has such an entry.
    /// A map without such an entry stays as it is.
    pub fn set(&mut self, index: usize, value: u8) -> (done: bool)
        ensures
            final(self).name_view() == old(self).name_view(),
            done == (index < old(self).map_view().len()),
            final(self).map_view() == (if done {
                old(self).map_view().update(index as int, value)
            } else {
                old(self).map_view()
            }),
    {
        if index < self.map.len() {
            self.map[index] = value;
            true
        } else {
            false
        }
    }

    /// Clears the map: every entry is zero afterwards.
    pub fn reset(&mut self)
        ensures
            final(self).name_view() == old(self).name_view(),
            final(self).map_view().len() == old(self).map_view().len(),
            all_zero(final(self).map_view()),
    {
        let mut i: usize = 0;
        while i < self.map.len()
            invariant
                i <= self.map.len(),
                self.name == old(self).name,
                self.map.len() == old(self).map.len(),
                forall|j: int| 0 <= j < i ==> self.map[j] == 0,
            decreases self.map.len() - i,
        {
            self.map[i] = 0;
            i += 1;
        }
    }
}

/// What a call on all observers leaves behind.
pub struct ObserversOutcome<OT, S> {
    /// The observers after the call.
    pub observers: OT,
    /// The state after the call.
    pub state: S,
    /// What the call returned.
    pub result: Result<(), ErrorView>,
}

/// All the observers of one executor, which are told together when a run begins and
/// when it has ended.
pub trait ObserversTuple<I, S>: Sized {
    /// Whether `outcome` is what [`ObserversTuple::pre_exec_all`] may leave behind.
    spec fn pre_execs(self, state: S, input: I, outcome: ObserversOutcome<Self, S>) -> bool;

    /// Before a run: every observer forgets what it saw of the last one.
    fn pre_exec_all(&mut self, state: &mut S, input: &I) -> (r: Result<(), Error>)
        ensures
            old(self).pre_execs(
                *old(state),
                *input,
                ObserversOutcome {
                    observers: *final(self),
                    state: *final(state),
                    result: result_view(r),
                },
            ),
    ;

    /// Whether `outcome` is what [`ObserversTuple::post_exec_all`] may leave behind.
    spec fn post_execs(
        self,
        state: S,
        input: I,
        exit_kind: ExitKind,
        outcome: ObserversOutcome<Self, S>,
    ) -> bool;

    /// After a run: every observer takes its measurements.
    fn post_exec_all(&mut self, state: &mut S, input: &I, exit_kind: &ExitKind) -> (r: Result<
        (),
        Error,
    >)
        ensures
            old(self).post_execs(
                *old(state),
                *input,
                *exit_kind,
                ObserversOutcome {
                    observers: *final(self),
                    state: *final(state),
                    result: result_view(r),
                },
            ),
    ;
}

impl<I, S> ObserversTuple<I, S> for () {
    open spec fn pre_execs(self, state: S, input: I, outcome: ObserversOutcome<Self, S>) -> bool {
        outcome == (ObserversOutcome { observers: (), state, result: Ok(()) })
    }

    fn pre_exec_all(&mut self, state: &mut S, input: &I) -> (r: Result<(), Error>) {
        Ok(())
    }

    open spec fn post_execs(
        self,
        state: S,
        input: I,
        exit_kind: ExitKind,
        outcome: ObserversOutcome<Self, S>,
    ) -> bool {
        outcome == (ObserversOutcome { observers: (), state, result: Ok(()) })
    }

    fn post_exec_all(&mut self, state: &mut S, input: &I, exit_kind: &ExitKind) -> (r: Result<
        (),
        Error,
    >) {
        Ok(())
    }
}

/// The observers that the kernel knows: the time observers and the map observers of one
/// executor, each kind in the order in which they were registered.
#[derive(Debug)]
pub struct ObserverList {
    /// The time observers.
    pub time: Vec<TimeObserver>,
    /// The map observers.
    pub maps: Vec<MapObserver>,
}

impl ObserverList {
    /// No observers.
    pub fn new() -> (list: Self)
        ensures
            list.time@.len() == 0,
            list.maps@.len() == 0,
    {
        ObserverList { time: Vec::new(), maps: Vec::new() }
    }

    /// Whether `after` holds the observers of `self`, by their names and the sizes of
    /// their maps, whatever they have seen.
    pub open spec fn same_observers(&self, after: &Self) -> bool {
        &&& after.time@.len() == self.time@.len()
        &&& after.maps@.len() == self.maps@.len()
        &&& forall|i: int|
            0 <= i < self.time@.len() ==> (#[trigger] after.time@[i]).name_view()
                == self.time@[i].name_view()
        &&& forall|i: int|
            0 <= i < self.maps@.len() ==> (#[trigger] after.maps@[i]).name_view()
                == self.maps@[i].name_view() && after.maps@[i].map_view().len()
                == self.maps@[i].map_view().len()
    }

    /// Whether no observer holds anything of a run: the maps are cleared, and no time is
    /// measured.
    pub open spec fn cleared(&self) -> bool {
        &&& forall|i: int| 0 <= i < self.time@.len() ==> (#[trigger] self.time@[i]).last_runtime_spec() is None
        &&& forall|i: int| 0 <= i < self.maps@.len() ==> all_zero((#[trigger] self.maps@[i]).map_view())
    }
}

impl MatchNameRef<TimeObserver> for ObserverList {
    open spec fn match_name(&self, name: Seq<char>) -> Option<TimeObserver> {
        first_named(self.time@, name)
    }

    fn get(&self, handle: &Handle<TimeObserver>) -> (r: Option<&TimeObserver>) {
        self.time.get(handle)
    }
}

impl MatchNameRef<MapObserver> for ObserverList {
    open spec fn match_name(&self, name: Seq<char>) -> Option<MapObserver> {
        first_named(self.maps@, name)
    }

    fn get(&self, handle: &Handle<MapObserver>) -> (r: Option<&MapObserver>) {
        self.maps.get(handle)
    }
}

impl<I, S> ObserversTuple<I, S> for ObserverList {
    /// The observers are the same, all cleared; the state stays as it is.
    open spec fn pre_execs(self, state: S, input: I, outcome: ObserversOutcome<Self, S>) -> bool {
        &&& outcome.state == state
        &&& outcome.result == Ok::<(), ErrorView>(())
        &&& self.same_observers(&outcome.observers)
        &&& outcome.observers.cleared()
    }

    fn pre_exec_all(&mut self, state: &mut S, input: &I) -> (r: Result<(), Error>) {
        let mut i: usize = 0;
        while i < self.time.len()
            invariant
                i <= self.time.len(),
                self.maps == old(self).maps,
                self.time@.len() == old(self).time@.len(),
                forall|j: int|
                    0 <= j < self.time@.len() ==> (#[trigger] self.time@[j]).name_view() == old(
                        self,
                    ).time@[j].name_view(),
                forall|j: int| 0 <= j < i ==> (#[trigger] self.time@[j]).last_runtime_spec() is None,
            decreases self.time.len() - i,
        {
            self.time[i].pre_exec();
            i += 1;
        }
        let mut k: usize = 0;
        while k < self.maps.len()
            invariant
                k <= self.maps.len(),
                self.time@.len() == old(self).time@.len(),
                forall|j: int|
                    0 <= j < self.time@.len() ==> (#[trigger] self.time@[j]).name_view() == old(
                        self,
                    ).time@[j].name_view(),
                forall|j: int|
                    0 <= j < self.time@.len() ==> (#[trigger] self.time@[j]).last_runtime_spec() is None,
                self.maps@.len() == old(self).maps@.len(),
                forall|j: int|
                    0 <= j < self.maps@.len() ==> (#[trigger] self.maps@[j]).name_view() == old(
                        self,
                    ).maps@[j].name_view() && self.maps@[j].map_view().len() == old(
                        self,
                    ).maps@[j].map_view().len(),
                forall|j: int| 0 <= j < k ==> all_zero((#[trigger] self.maps@[j]).map_view()),
            decreases self.maps.len() - k,
        {
            self.maps[k].reset();
            k += 1;
        }
        Ok(())
    }

    /// The observers are the same; each time observer has measured a time, and the maps
    /// are as the run has left them. The state stays as it is.
    open spec fn post_execs(
        self,
        state: S,
        input: I,
        exit_kind: ExitKind,
        outcome: ObserversOutcome<Self, S>,
    ) -> bool {
        &&& outcome.state == state
        &&& outcome.result == Ok::<(), ErrorView>(())
        &&& self.same_observers(&outcome.observers)
        &&& outcome.observers.maps == self.maps
        &&& forall|i: int|
            0 <= i < outcome.observers.time@.len() ==> (#[trigger] outcome.observers.time@[i]).last_runtime_spec() is Some
    }

    fn post_exec_all(&mut self, state: &mut S, input: &I, exit_kind: &ExitKind) -> (r: Result<
        (),
        Error,
    >) {
        let mut i: usize = 0;
        while i < self.time.len()
            invariant
                i <= self.time.len(),
                self.maps == old(self).maps,
                self.time@.len() == old(self).time@.len(),
                forall|j: int|
                    0 <= j < self.time@.len() ==> (#[trigger] self.time@[j]).name_view() == old(
                        self,
                    ).time@[j].name_view(),
                forall|j: int| 0 <= j < i ==> (#[trigger] self.time@[j]).last_runtime_spec() is Some,
            decreases self.time.len() - i,
        {
            self.time[i].post_exec();
            i += 1;
        }
        Ok(())
    }
}

} // verus!
