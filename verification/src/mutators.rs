//! Mutators change an input in the hope of reaching new behaviour of the harness.

use vstd::prelude::*;
use crate::corpus::CorpusId;
use crate::error::{result_view, Error, ErrorView};
use crate::inputs::BytesInput;
use crate::rands::rand_below;
use crate::state::{only_rand_differs, HasRand};

verus! {

/// What a mutator did to an input.
#[derive(Clone, Copy, Debug, PartialEq, Eq, Structural)]
pub enum MutationResult {
    /// The input was changed.
    Mutated,
    /// The mutator passed; the input is not to be run.
    Skipped,
}

/// What [`Mutator::mutate`] leaves behind.
pub struct MutateOutcome<M, S, I> {
    /// The mutator after the call.
    pub mutator: M,
    /// The state after the call.
    pub state: S,
    /// The input after the call.
    pub input: I,
    /// What the call returned.
    pub result: Result<MutationResult, ErrorView>,
}

/// What [`Mutator::post_exec`] leaves behind.
pub struct MutatorPostOutcome<M, S> {
    /// The mutator after the call.
    pub mutator: M,
    /// The state after the call.
    pub state: S,
    /// What the call returned.
    pub result: Result<(), ErrorView>,
}

/// A mutator of inputs of type `I`, which may read and change the state `S`.
///
/// A mutator may draw random numbers, so a call has no single outcome: the contract of
/// each operation names the outcomes that the call may have.
pub trait Mutator<I, S>: Sized {
    /// Whether `outcome` is what [`Mutator::mutate`] may leave behind.
    spec fn mutates(self, state: S, input: I, outcome: MutateOutcome<Self, S, I>) -> bool;

    /// Changes `input`, or passes.
    fn mutate(&mut self, state: &mut S, input: &mut I) -> (r: Result<MutationResult, Error>)
        ensures
            old(self).mutates(
                *old(state),
                *old(input),
                MutateOutcome {
                    mutator: *final(self),
                    state: *final(state),
                    input: *final(input),
                    result: result_view(r),
                },
            ),
    ;

    /// Whether `outcome` is what [`Mutator::post_exec`] may leave behind.
    spec fn post_execs(
        self,
        state: S,
        new_corpus_id: Option<CorpusId>,
        outcome: MutatorPostOutcome<Self, S>,
    ) -> bool;

    /// Called once the mutated input has been evaluated; `new_corpus_id` is the place it
    /// got in a corpus, if it got one.
    fn post_exec(&mut self, state: &mut S, new_corpus_id: Option<CorpusId>) -> (r: Result<(), Error>)
        ensures
            old(self).post_execs(
                *old(state),
                new_corpus_id,
                MutatorPostOutcome {
                    mutator: *final(self),
                    state: *final(state),
                    result: result_view(r),
                },
            ),
    ;
}

/// A mutator that changes nothing and always gives the same answer.
#[derive(Clone, Copy, Debug, PartialEq, Eq, Structural)]
pub struct NopMutator {
    /// The answer that the mutator gives.
    pub result: MutationResult,
}

impl NopMutator {
    /// The mutator that changes nothing and answers `result`.
    pub fn new(result: MutationResult) -> (m: Self)
        ensures
            m.result == result,
    {
        NopMutator { result }
    }
}

impl<I, S> Mutator<I, S> for NopMutator {
    open spec fn mutates(self, state: S, input: I, outcome: MutateOutcome<Self, S, I>) -> bool {
        outcome == (MutateOutcome { mutator: self, state, input, result: Ok(self.result) })
    }

    fn mutate(&mut self, state: &mut S, input: &mut I) -> (r: Result<MutationResult, Error>) {
        Ok(self.result)
    }

    open spec fn post_execs(
        self,
        state: S,
        new_corpus_id: Option<CorpusId>,
        outcome: MutatorPostOutcome<Self, S>,
    ) -> bool {
        outcome == (MutatorPostOutcome { mutator: self, state, result: Ok(()) })
    }

    fn post_exec(&mut self, state: &mut S, new_corpus_id: Option<CorpusId>) -> (r: Result<(), Error>) {
        Ok(())
    }
}


/// A mutator that puts a byte drawn at random in the place of one byte of the input,
/// which it chooses at random, too. It passes on an input without bytes.
#[derive(Clone, Copy, Debug, PartialEq, Eq, Structural)]
pub struct ByteRandMutator {
}

impl ByteRandMutator {
    /// The mutator.
    pub fn new() -> (m: Self) {
        ByteRandMutator {  }
    }

    /// Whether `after` is `before` but for the byte at one place.
    pub open spec fn one_byte_replaced(before: Seq<u8>, after: Seq<u8>) -> bool {
        exists|place: int, value: u8|
            0 <= place < before.len() && after == #[trigger] before.update(place, value)
    }
}

impl<S: HasRand> Mutator<BytesInput, S> for ByteRandMutator {
    /// Of the state only the generator of random numbers changes. An input without
    /// bytes stays as it is, and the mutator passes; of any other input one byte is
    /// replaced.
    open spec fn mutates(
        self,
        state: S,
        input: BytesInput,
        outcome: MutateOutcome<Self, S, BytesInput>,
    ) -> bool {
        &&& outcome.mutator == self
        &&& only_rand_differs(state, outcome.state)
        &&& if input@.len() == 0 {
            outcome.input == input && outcome.result == Ok::<MutationResult, ErrorView>(
                MutationResult::Skipped,
            )
        } else {
            Self::one_byte_replaced(input@, outcome.input@) && outcome.result == Ok::<
                MutationResult,
                ErrorView,
            >(MutationResult::Mutated)
        }
    }

    fn mutate(&mut self, state: &mut S, input: &mut BytesInput) -> (r: Result<MutationResult, Error>) {
        proof {
            state.lemma_rand_replaced(state.rand_spec(), state.rand_spec());
            assert forall|rand: libafl_bolts::rands::StdRand| #[trigger]
                state.with_rand(rand).rand_spec() == rand by {
                state.lemma_rand_replaced(rand, rand);
            }
        }
        if input.len() == 0 {
            return Ok(MutationResult::Skipped);
        }
        let rand = state.rand_mut();
        let place = rand_below(rand, input.len());
        let value = rand_below(rand, 256);
        let _ = input.set(place, value as u8);
        assert(input@ == old(input)@.update(place as int, value as u8));
        Ok(MutationResult::Mutated)
    }

    open spec fn post_execs(
        self,
        state: S,
        new_corpus_id: Option<CorpusId>,
        outcome: MutatorPostOutcome<Self, S>,
    ) -> bool {
        outcome == (MutatorPostOutcome { mutator: self, state, result: Ok(()) })
    }

    fn post_exec(&mut self, state: &mut S, new_corpus_id: Option<CorpusId>) -> (r: Result<(), Error>) {
        Ok(())
    }
}

} // verus!
