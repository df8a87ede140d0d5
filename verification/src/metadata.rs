//! Metadata kept in the fuzzing state under a name.

use vstd::prelude::*;
use crate::feedbacks::map::MapFeedbackMetadata;
use crate::named::same_name;
use crate::stages::tuneable::TuneableMutationalStageMetadata;
use crate::stages::ExecutionCountRestartHelperMetadata;

verus! {

/// The place of the first of `names` that is `name`, if any is.
pub open spec fn position_of(names: Seq<String>, name: Seq<char>) -> Option<int>
    decreases names.len(),
{
    if names.len() == 0 {
        None
    } else if names.last()@ == name {
        Some(names.len() - 1)
    } else {
        position_of(names.drop_last(), name)
    }
}

/// What `position_of` finds is a place that holds the name; what it does not find is nowhere.
pub proof fn lemma_position_of(names: Seq<String>, name: Seq<char>)
    ensures
        match position_of(names, name) {
            Some(i) => 0 <= i < names.len() && names[i]@ == name,
            None => forall|j: int| 0 <= j < names.len() ==> names[j]@ != name,
        },
    decreases names.len(),
{
    if names.len() > 0 && names.last()@ != name {
        lemma_position_of(names.drop_last(), name);
        if position_of(names, name) is None {
            assert forall|j: int| 0 <= j < names.len() implies names[j]@ != name by {
                if j < names.len() - 1 {
                    assert(names.drop_last()[j] == names[j]);
                }
            }
        }
    }
}

/// Where no name occurs twice, the place of a name is the one place that holds it.
pub proof fn lemma_position_of_unique(names: Seq<String>, name: Seq<char>, i: int)
    requires
        0 <= i < names.len(),
        names[i]@ == name,
        forall|a: int, b: int| 0 <= a < b < names.len() ==> names[a]@ != names[b]@,
    ensures
        position_of(names, name) == Some(i),
{
    lemma_position_of(names, name);
}

/// The map that gives each of `names` the value at its place in `values`.
pub open spec fn paired<V>(names: Seq<String>, values: Seq<V>) -> Map<Seq<char>, V> {
    Map::new(
        |name: Seq<char>| position_of(names, name) is Some,
        |name: Seq<char>| values[position_of(names, name).unwrap()],
    )
}

/// A new value at the place of a name is a new value for that name.
proof fn lemma_paired_update<V>(names: Seq<String>, values: Seq<V>, name: Seq<char>, i: int, value: V)
    requires
        names.len() == values.len(),
        position_of(names, name) == Some(i),
    ensures
        paired(names, values.update(i, value)) == paired(names, values).insert(name, value),
{
    lemma_position_of(names, name);
    assert forall|other: Seq<char>| position_of(names, other) is Some implies {
        let j = position_of(names, other).unwrap();
        0 <= j < names.len() && names[j]@ == other
    } by {
        lemma_position_of(names, other);
    }
    assert(paired(names, values.update(i, value)) =~= paired(names, values).insert(name, value));
}

/// A name that is not yet among the names comes with its value to the end.
proof fn lemma_paired_push<V>(names: Seq<String>, values: Seq<V>, name: String, value: V)
    requires
        names.len() == values.len(),
        position_of(names, name@) is None,
    ensures
        paired(names.push(name), values.push(value)) == paired(names, values).insert(name@, value),
{
    assert(names.push(name).drop_last() =~= names);
    assert forall|other: Seq<char>| position_of(names, other) is Some implies {
        let j = position_of(names, other).unwrap();
        0 <= j < names.len() && names[j]@ == other
    } by {
        lemma_position_of(names, other);
    }
    assert(paired(names.push(name), values.push(value)) =~= paired(names, values).insert(
        name@,
        value,
    ));
}

/// Taking a name and its value out takes the name out of the map.
proof fn lemma_paired_remove<V>(names: Seq<String>, values: Seq<V>, name: Seq<char>, i: int)
    requires
        names.len() == values.len(),
        position_of(names, name) == Some(i),
        forall|a: int, b: int| 0 <= a < b < names.len() ==> names[a]@ != names[b]@,
    ensures
        paired(names.remove(i), values.remove(i)) == paired(names, values).remove(name),
{
    lemma_position_of(names, name);
    let fewer = names.remove(i);
    let left = paired(fewer, values.remove(i));
    let right = paired(names, values).remove(name);
    assert forall|other: Seq<char>|
        #![trigger left.dom().contains(other)]
        #![trigger right.dom().contains(other)]
        left.dom().contains(other) == right.dom().contains(other) && (left.dom().contains(other)
            ==> left[other] == right[other]) by {
        lemma_position_of(names, other);
        lemma_position_of(fewer, other);
        match position_of(fewer, other) {
            Some(j) => {
                let k = if j < i {
                    j
                } else {
                    j + 1
                };
                assert(names[k]@ == other);
                lemma_position_of_unique(names, other, k);
            },
            None => {
                if other != name {
                    match position_of(names, other) {
                        Some(k) => {
                            let j = if k < i {
                                k
                            } else {
                                k - 1
                            };
                            assert(fewer[j]@ == other);
                        },
                        None => {},
                    }
                }
            },
        }
    }
    assert(left =~= right);
}

/// Where no name occurs twice, the map has as many names as the sequence.
proof fn lemma_paired_len<V>(names: Seq<String>, values: Seq<V>)
    requires
        names.len() == values.len(),
        forall|a: int, b: int| 0 <= a < b < names.len() ==> names[a]@ != names[b]@,
    ensures
        paired(names, values).dom().finite(),
        paired(names, values).len() == names.len(),
    decreases names.len(),
{
    if names.len() == 0 {
        assert(paired(names, values) =~= Map::<Seq<char>, V>::empty());
    } else {
        let front = names.drop_last();
        let front_values = values.drop_last();
        lemma_paired_len(front, front_values);
        lemma_position_of(front, names.last()@);
        assert(front.push(names.last()) =~= names);
        assert(front_values.push(values.last()) =~= values);
        lemma_paired_push(front, front_values, names.last(), values.last());
    }
}

/// A map from names to values of one type, in the order in which the names came.
pub struct NameMap<V> {
    names: Vec<String>,
    values: Vec<V>,
}

impl<V> NameMap<V> {
    #[verifier::type_invariant]
    spec fn well_formed(&self) -> bool {
        &&& self.names.len() == self.values.len()
        &&& forall|a: int, b: int| 0 <= a < b < self.names.len() ==> self.names[a]@ != self.names[b]@
    }

    /// The map as a mathematical map from the characters of a name to its value.
    pub closed spec fn view(&self) -> Map<Seq<char>, V> {
        paired(self.names@, self.values@)
    }

    /// The empty map.
    pub fn new() -> (m: Self)
        ensures
            m@ == Map::<Seq<char>, V>::empty(),
    {
        let m = NameMap { names: Vec::new(), values: Vec::new() };
        assert(m@ =~= Map::<Seq<char>, V>::empty());
        m
    }

    /// The place of `name` among the names.
    fn find(&self, name: &str) -> (r: Option<usize>)
        ensures
            match r {
                Some(i) => position_of(self.names@, name@) == Some(i as int) && i < self.names.len(),
                None => position_of(self.names@, name@) is None,
            },
    {
        proof {
            use_type_invariant(self);
        }
        let mut i: usize = 0;
        while i < self.names.len()
            invariant
                i <= self.names.len(),
                forall|j: int| 0 <= j < i ==> self.names[j]@ != name@,
                forall|a: int, b: int|
                    0 <= a < b < self.names.len() ==> self.names[a]@ != self.names[b]@,
            decreases self.names.len() - i,
        {
            if same_name(self.names[i].as_str(), name) {
                proof {
                    lemma_position_of_unique(self.names@, name@, i as int);
                }
                return Some(i);
            }
            i += 1;
        }
        proof {
            lemma_position_of(self.names@, name@);
        }
        None
    }

    /// Whether `name` has a value.
    pub fn contains_key(&self, name: &str) -> (b: bool)
        ensures
            b == self@.contains_key(name@),
    {
        self.find(name).is_some()
    }

    /// The value of `name`, if it has one.
    pub fn get(&self, name: &str) -> (r: Option<&V>)
        ensures
            r == (if self@.contains_key(name@) {
                Some(&self@[name@])
            } else {
                None
            }),
    {
        proof {
            use_type_invariant(self);
        }
        match self.find(name) {
            Some(i) => Some(&self.values[i]),
            None => None,
        }
    }

    /// The value of `name`, to be changed in place, if it has one.
    pub fn get_mut(&mut self, name: &str) -> (r: Option<&mut V>)
        ensures
            match r {
                Some(v) => {
                    &&& old(self)@.contains_key(name@)
                    &&& *v == old(self)@[name@]
                    &&& final(self)@ == old(self)@.insert(name@, *final(v))
                },
                None => !old(self)@.contains_key(name@) && *final(self) == *old(self),
            },
    {
        proof {
            use_type_invariant(&*self);
        }
        match self.find(name) {
            Some(i) => {
                proof {
                    assert forall|value: V|
                        paired(self.names@, #[trigger] self.values@.update(i as int, value))
                            == paired(self.names@, self.values@).insert(name@, value) by {
                        lemma_paired_update(self.names@, self.values@, name@, i as int, value);
                    }
                }
                let v = &mut self.values[i];
                Some(v)
            },
            None => None,
        }
    }
}


impl<V> NameMap<V> {
    /// The number of names in the map.
    pub fn len(&self) -> (n: usize)
        ensures
            n == self@.len(),
            self@.dom().finite(),
    {
        proof {
            use_type_invariant(self);
            lemma_paired_len(self.names@, self.values@);
        }
        self.names.len()
    }

    /// Gives `name` the value `value`, and returns the value that `name` had before.
    pub fn insert(&mut self, name: &str, value: V) -> (r: Option<V>)
        ensures
            final(self)@ == old(self)@.insert(name@, value),
            r == (if old(self)@.contains_key(name@) {
                Some(old(self)@[name@])
            } else {
                None
            }),
    {
        proof {
            use_type_invariant(&*self);
        }
        match self.find(name) {
            Some(i) => {
                proof {
                    lemma_paired_update(self.names@, self.values@, name@, i as int, value);
                }
                let mut previous = value;
                core::mem::swap(&mut self.values[i], &mut previous);
                Some(previous)
            },
            None => {
                let owned = name.to_owned();
                proof {
                    lemma_paired_push(self.names@, self.values@, owned, value);
                    lemma_position_of(self.names@, name@);
                }
                let mut taken = NameMap::new();
                core::mem::swap(self, &mut taken);
                let NameMap { mut names, mut values } = taken;
                names.push(owned);
                values.push(value);
                *self = NameMap { names, values };
                None
            },
        }
    }

    /// Takes `name` out of the map, and returns the value that it had.
    pub fn remove(&mut self, name: &str) -> (r: Option<V>)
        ensures
            final(self)@ == old(self)@.remove(name@),
            r == (if old(self)@.contains_key(name@) {
                Some(old(self)@[name@])
            } else {
                None
            }),
    {
        proof {
            use_type_invariant(&*self);
        }
        match self.find(name) {
            Some(i) => {
                proof {
                    lemma_paired_remove(self.names@, self.values@, name@, i as int);
                }
                let mut taken = NameMap::new();
                core::mem::swap(self, &mut taken);
                let NameMap { mut names, mut values } = taken;
                names.remove(i);
                let previous = values.remove(i);
                *self = NameMap { names, values };
                Some(previous)
            },
            None => {
                assert(self@.remove(name@) =~= self@);
                None
            },
        }
    }
}


/// All the metadata that the kernel keeps under names: one map for each type of metadata,
/// so that a stage and its restart bookkeeping may share a name.
pub struct NamedMetadataMap {
    /// The settings of the tuneable mutational stages, by the stage's name.
    pub tuneable_stages: NameMap<TuneableMutationalStageMetadata>,
    /// The execution counts at which stages began their work, by the stage's name.
    pub execution_counts: NameMap<ExecutionCountRestartHelperMetadata>,
    /// The histories of the map feedbacks, by the feedback's name.
    pub map_feedbacks: NameMap<MapFeedbackMetadata>,
}

impl NamedMetadataMap {
    /// No metadata at all.
    pub fn new() -> (map: Self)
        ensures
            map.tuneable_stages@ == Map::<Seq<char>, TuneableMutationalStageMetadata>::empty(),
            map.execution_counts@ == Map::<Seq<char>, ExecutionCountRestartHelperMetadata>::empty(),
            map.map_feedbacks@ == Map::<Seq<char>, MapFeedbackMetadata>::empty(),
    {
        NamedMetadataMap {
            tuneable_stages: NameMap::new(),
            execution_counts: NameMap::new(),
            map_feedbacks: NameMap::new(),
        }
    }
}

} // verus!
