//! A mutational stage whose number of iterations, or whose time on each testcase, can be
//! set while the fuzzer runs.

use vstd::prelude::*;
use vstd::pervasive::cloned;
use core::marker::PhantomData;
use crate::error::{result_view, Error, ErrorKind, ErrorView};
use crate::fuzzer::{EvaluationOutcome, Evaluator};
use crate::mutators::{MutateOutcome, MutationResult, Mutator, MutatorPostOutcome};
use crate::rands::rand_below;
use crate::stages::mutational::{
    copies_of, last_outcome, step_follows, stepped, steps_follow, world_before, MutatedTransform,
    MutatedTransformPost, PostOutcome, StageWorld, StepOutcome, StepTrace,
    DEFAULT_MUTATIONAL_MAX_ITERATIONS,
};
use crate::stages::{ExecutionCountRestartHelper, ProgressCallOutcome, Stage, StageOutcome};
use crate::state::{
    only_rand_differs, session, HasCurrentTestcase, HasExecutions, HasRand, Session, State,
};
use crate::time::{current_time, elapsed_between, time_is_up};
use crate::state::{lemma_replacing_named_metadata, only_named_metadata_differs, HasNamedMetadata};
use crate::time::Duration;

verus! {

/// The settings of one tuneable mutational stage, kept in the state under the stage's name.
#[derive(Clone, Copy, Debug, PartialEq, Eq, Structural)]
pub struct TuneableMutationalStageMetadata {
    /// The number of mutations to make of each testcase, where it is fixed.
    pub iters: Option<u64>,
    /// The time to spend on each testcase, where it is fixed.
    pub fuzz_time: Option<Duration>,
}

impl Default for TuneableMutationalStageMetadata {
    fn default() -> (r: Self)
        ensures
            r == (TuneableMutationalStageMetadata { iters: None, fuzz_time: None }),
    {
        TuneableMutationalStageMetadata { iters: None, fuzz_time: None }
    }
}

/// The name of a tuneable mutational stage that was given no other.
pub const STD_TUNEABLE_MUTATIONAL_STAGE_NAME: &'static str = "TuneableMutationalStage";

/// The message of the error for a name under which no tuneable stage keeps its settings.
pub open spec fn not_in_use_message() -> Seq<char> {
    "TuneableMutationalStage not in use"@
}

/// The view of that error.
pub open spec fn not_in_use_view() -> ErrorView {
    ErrorView { kind: ErrorKind::IllegalState, message: not_in_use_message() }
}

/// The error for a name under which no tuneable stage keeps its settings.
pub fn not_in_use_err() -> (e: Error)
    ensures
        e@ == not_in_use_view(),
{
    Error::illegal_state("TuneableMutationalStage not in use")
}

/// The settings kept under `name`, if a stage keeps any there.
pub open spec fn settings_of<S: HasNamedMetadata>(state: S, name: Seq<char>) -> Option<
    TuneableMutationalStageMetadata,
> {
    let stages = state.named_metadata().tuneable_stages@;
    if stages.contains_key(name) {
        Some(stages[name])
    } else {
        None
    }
}

/// Whether `after` is `before` with `settings` under `name`: no other settings have
/// changed, nor has any other metadata, nor anything else of the state.
pub open spec fn settings_replaced<S: HasNamedMetadata>(
    before: S,
    after: S,
    name: Seq<char>,
    settings: TuneableMutationalStageMetadata,
) -> bool {
    &&& only_named_metadata_differs(before, after)
    &&& after.named_metadata().tuneable_stages@ == before.named_metadata().tuneable_stages@.insert(
        name,
        settings,
    )
    &&& after.named_metadata().execution_counts == before.named_metadata().execution_counts
    &&& after.named_metadata().map_feedbacks == before.named_metadata().map_feedbacks
}

/// Fixes the number of iterations of the stage called `name`.
/// Fails, and changes nothing, where no stage keeps its settings under `name`.
pub fn set_iters_by_name<S: HasNamedMetadata>(state: &mut S, iters: u64, name: &str) -> (r: Result<
    (),
    Error,
>)
    ensures
        match settings_of(*old(state), name@) {
            Some(settings) => r is Ok && settings_replaced(
                *old(state),
                *final(state),
                name@,
                TuneableMutationalStageMetadata {
                    iters: Some(iters),
                    fuzz_time: settings.fuzz_time,
                },
            ),
            None => result_view(r) == Err::<(), ErrorView>(not_in_use_view()) && *final(state)
                == *old(state),
        },
{
    proof {
        lemma_replacing_named_metadata(*state);
    }
    let map = state.named_metadata_map_mut();
    match map.tuneable_stages.get_mut(name) {
        Some(metadata) => {
            metadata.iters = Some(iters);
            Ok(())
        },
        None => Err(not_in_use_err()),
    }
}


/// Fixes the number of iterations of the stage of the default name.
pub fn set_iters_std<S: HasNamedMetadata>(state: &mut S, iters: u64) -> (r: Result<(), Error>)
    ensures
        match settings_of(*old(state), STD_TUNEABLE_MUTATIONAL_STAGE_NAME@) {
            Some(settings) => r is Ok && settings_replaced(
                *old(state),
                *final(state),
                STD_TUNEABLE_MUTATIONAL_STAGE_NAME@,
                TuneableMutationalStageMetadata {
                    iters: Some(iters),
                    fuzz_time: settings.fuzz_time,
                },
            ),
            None => result_view(r) == Err::<(), ErrorView>(not_in_use_view()) && *final(state)
                == *old(state),
        },
{
    set_iters_by_name(state, iters, STD_TUNEABLE_MUTATIONAL_STAGE_NAME)
}

/// The fixed number of iterations of the stage called `name`; `None` where none is fixed.
/// Fails where no stage keeps its settings under `name`.
pub fn get_iters_by_name<S: HasNamedMetadata>(state: &S, name: &str) -> (r: Result<Option<u64>, Error>)
    ensures
        result_view(r) == (match settings_of(*state, name@) {
            Some(settings) => Ok(settings.iters),
            None => Err(not_in_use_view()),
        }),
{
    match state.named_metadata_map().tuneable_stages.get(name) {
        Some(metadata) => Ok(metadata.iters),
        None => Err(not_in_use_err()),
    }
}

/// The fixed number of iterations of the stage of the default name.
pub fn get_iters_std<S: HasNamedMetadata>(state: &S) -> (r: Result<Option<u64>, Error>)
    ensures
        result_view(r) == (match settings_of(*state, STD_TUNEABLE_MUTATIONAL_STAGE_NAME@) {
            Some(settings) => Ok(settings.iters),
            None => Err(not_in_use_view()),
        }),
{
    get_iters_by_name(state, STD_TUNEABLE_MUTATIONAL_STAGE_NAME)
}

/// Fixes the time that the stage called `name` spends on each testcase.
/// Fails, and changes nothing, where no stage keeps its settings under `name`.
pub fn set_seed_fuzz_time_by_name<S: HasNamedMetadata>(state: &mut S, fuzz_time: Duration, name: &str) -> (r:
    Result<(), Error>)
    ensures
        match settings_of(*old(state), name@) {
            Some(settings) => r is Ok && settings_replaced(
                *old(state),
                *final(state),
                name@,
                TuneableMutationalStageMetadata {
                    iters: settings.iters,
                    fuzz_time: Some(fuzz_time),
                },
            ),
            None => result_view(r) == Err::<(), ErrorView>(not_in_use_view()) && *final(state)
                == *old(state),
        },
{
    proof {
        lemma_replacing_named_metadata(*state);
    }
    let map = state.named_metadata_map_mut();
    match map.tuneable_stages.get_mut(name) {
        Some(metadata) => {
            metadata.fuzz_time = Some(fuzz_time);
            Ok(())
        },
        None => Err(not_in_use_err()),
    }
}

/// Fixes the time that the stage of the default name spends on each testcase.
pub fn set_seed_fuzz_time_std<S: HasNamedMetadata>(state: &mut S, fuzz_time: Duration) -> (r: Result<
    (),
    Error,
>)
    ensures
        match settings_of(*old(state), STD_TUNEABLE_MUTATIONAL_STAGE_NAME@) {
            Some(settings) => r is Ok && settings_replaced(
                *old(state),
                *final(state),
                STD_TUNEABLE_MUTATIONAL_STAGE_NAME@,
                TuneableMutationalStageMetadata {
                    iters: settings.iters,
                    fuzz_time: Some(fuzz_time),
                },
            ),
            None => result_view(r) == Err::<(), ErrorView>(not_in_use_view()) && *final(state)
                == *old(state),
        },
{
    set_seed_fuzz_time_by_name(state, fuzz_time, STD_TUNEABLE_MUTATIONAL_STAGE_NAME)
}

/// The fixed time that the stage called `name` spends on each testcase; `None` where
/// none is fixed. Fails where no stage keeps its settings under `name`.
pub fn get_seed_fuzz_time_by_name<S: HasNamedMetadata>(state: &S, name: &str) -> (r: Result<
    Option<Duration>,
    Error,
>)
    ensures
        result_view(r) == (match settings_of(*state, name@) {
            Some(settings) => Ok(settings.fuzz_time),
            None => Err(not_in_use_view()),
        }),
{
    match state.named_metadata_map().tuneable_stages.get(name) {
        Some(metadata) => Ok(metadata.fuzz_time),
        None => Err(not_in_use_err()),
    }
}

/// The fixed time that the stage of the default name spends on each testcase.
pub fn get_seed_fuzz_time_std<S: HasNamedMetadata>(state: &S) -> (r: Result<Option<Duration>, Error>)
    ensures
        result_view(r) == (match settings_of(*state, STD_TUNEABLE_MUTATIONAL_STAGE_NAME@) {
            Some(settings) => Ok(settings.fuzz_time),
            None => Err(not_in_use_view()),
        }),
{
    get_seed_fuzz_time_by_name(state, STD_TUNEABLE_MUTATIONAL_STAGE_NAME)
}

/// Unfixes both the iterations and the time of the stage called `name`, which then draws
/// its number of iterations at random again.
/// Fails, and changes nothing, where no stage keeps its settings under `name`.
pub fn reset_by_name<S: HasNamedMetadata>(state: &mut S, name: &str) -> (r: Result<(), Error>)
    ensures
        match settings_of(*old(state), name@) {
            Some(settings) => r is Ok && settings_replaced(
                *old(state),
                *final(state),
                name@,
                TuneableMutationalStageMetadata { iters: None, fuzz_time: None },
            ),
            None => result_view(r) == Err::<(), ErrorView>(not_in_use_view()) && *final(state)
                == *old(state),
        },
{
    proof {
        lemma_replacing_named_metadata(*state);
    }
    let map = state.named_metadata_map_mut();
    match map.tuneable_stages.get_mut(name) {
        Some(metadata) => {
            metadata.iters = None;
            metadata.fuzz_time = None;
            Ok(())
        },
        None => Err(not_in_use_err()),
    }
}

/// Unfixes both the iterations and the time of the stage of the default name.
pub fn reset_std<S: HasNamedMetadata>(state: &mut S) -> (r: Result<(), Error>)
    ensures
        match settings_of(*old(state), STD_TUNEABLE_MUTATIONAL_STAGE_NAME@) {
            Some(settings) => r is Ok && settings_replaced(
                *old(state),
                *final(state),
                STD_TUNEABLE_MUTATIONAL_STAGE_NAME@,
                TuneableMutationalStageMetadata { iters: None, fuzz_time: None },
            ),
            None => result_view(r) == Err::<(), ErrorView>(not_in_use_view()) && *final(state)
                == *old(state),
        },
{
    reset_by_name(state, STD_TUNEABLE_MUTATIONAL_STAGE_NAME)
}


/// A mutational stage that makes as many mutations of each testcase as its settings
/// say, or mutates for as long as they say; with neither fixed, it draws the number of
/// mutations at random.
///
/// `E` is the executor, `EM` the event manager, which the stage only hands on, `I` the
/// input that the corpus holds, `M` the mutator, `S` the
/// state, `T` the form of the input that is mutated, and `Z` the fuzzer that evaluates.
#[derive(Debug)]
pub struct TuneableMutationalStage<E, EM, I, M, S, T, Z> {
    mutator: M,
    name: String,
    restart_helper: ExecutionCountRestartHelper,
    phantom: PhantomData<(E, EM, I, S, T, Z)>,
}

impl<E, EM, I, M: Clone, S, T, Z> Clone for TuneableMutationalStage<E, EM, I, M, S, T, Z> {
    /// A stage of the same name and with the same restart bookkeeping, whose mutator is
    /// a copy of this stage's.
    fn clone(&self) -> (stage: Self)
        ensures
            cloned::<M>(self.mutator_spec(), stage.mutator_spec()),
            stage.name_view() == self.name_view(),
            stage.restart_helper_spec() == self.restart_helper_spec(),
    {
        TuneableMutationalStage {
            mutator: self.mutator.clone(),
            name: self.name.clone(),
            restart_helper: self.restart_helper,
            phantom: PhantomData,
        }
    }
}

impl<E, EM, I, M, S, T, Z> TuneableMutationalStage<E, EM, I, M, S, T, Z> {
    /// The mutator of the stage.
    pub closed spec fn mutator_spec(&self) -> M {
        self.mutator
    }

    /// The characters of the name of the stage.
    pub closed spec fn name_view(&self) -> Seq<char> {
        self.name@
    }

    /// The restart bookkeeping of the stage.
    pub closed spec fn restart_helper_spec(&self) -> ExecutionCountRestartHelper {
        self.restart_helper
    }

    /// What one mutation may change, as it stands with this stage.
    pub open spec fn world(&self, fuzzer: Z, executor: E, state: Session<S, EM>) -> StageWorld<
        M,
        Z,
        E,
        Session<S, EM>,
    > {
        StageWorld { mutator: self.mutator_spec(), fuzzer, executor, state }
    }

    /// The mutator of the stage.
    pub fn mutator(&self) -> (m: &M)
        ensures
            *m == self.mutator_spec(),
    {
        &self.mutator
    }

    /// The mutator of the stage, to be changed in place.
    pub fn mutator_mut(&mut self) -> (m: &mut M)
        ensures
            *m == old(self).mutator_spec(),
            final(self).mutator_spec() == *final(m),
            final(self).name_view() == old(self).name_view(),
            final(self).restart_helper_spec() == old(self).restart_helper_spec(),
    {
        &mut self.mutator
    }

    /// The name of the stage.
    pub fn name(&self) -> (n: &str)
        ensures
            n@ == self.name_view(),
    {
        self.name.as_str()
    }
}

/// Whether `after` is `before` with settings under `name`: those that were there, or,
/// where there were none, the settings that fix nothing.
pub open spec fn settings_installed<S: HasNamedMetadata>(before: S, after: S, name: Seq<char>) -> bool {
    match settings_of(before, name) {
        Some(_) => after == before,
        None => settings_replaced(
            before,
            after,
            name,
            TuneableMutationalStageMetadata { iters: None, fuzz_time: None },
        ),
    }
}

impl<E, EM, I, M, S: HasNamedMetadata, T, Z> TuneableMutationalStage<E, EM, I, M, S, T, Z> {
    /// A stage called `name` that mutates with `mutator`. Unless the state holds settings
    /// under `name` already, it gets the settings that fix nothing.
    pub fn transforming(state: &mut S, mutator: M, name: &str) -> (stage: Self)
        ensures
            stage.mutator_spec() == mutator,
            stage.name_view() == name@,
            stage.restart_helper_spec().started_at_execs is None,
            settings_installed(*old(state), *final(state), name@),
    {
        proof {
            lemma_replacing_named_metadata(*state);
        }
        let map = state.named_metadata_map_mut();
        if !map.tuneable_stages.contains_key(name) {
            map.tuneable_stages.insert(name, TuneableMutationalStageMetadata::default());
        }
        TuneableMutationalStage {
            mutator,
            name: name.to_owned(),
            restart_helper: ExecutionCountRestartHelper::default(),
            phantom: PhantomData,
        }
    }

    /// A stage of the default name that mutates with `mutator`.
    pub fn new(state: &mut S, mutator: M) -> (stage: Self)
        ensures
            stage.mutator_spec() == mutator,
            stage.name_view() == STD_TUNEABLE_MUTATIONAL_STAGE_NAME@,
            stage.restart_helper_spec().started_at_execs is None,
            settings_installed(*old(state), *final(state), STD_TUNEABLE_MUTATIONAL_STAGE_NAME@),
    {
        Self::transforming(state, mutator, STD_TUNEABLE_MUTATIONAL_STAGE_NAME)
    }

    /// A stage called `name` that mutates with `mutator`.
    pub fn with_name(state: &mut S, mutator: M, name: &str) -> (stage: Self)
        ensures
            stage.mutator_spec() == mutator,
            stage.name_view() == name@,
            stage.restart_helper_spec().started_at_execs is None,
            settings_installed(*old(state), *final(state), name@),
    {
        Self::transforming(state, mutator, name)
    }

    /// Fixes the number of iterations of this stage.
    pub fn set_iters(&self, state: &mut S, iters: u64) -> (r: Result<(), Error>)
        ensures
            match settings_of(*old(state), self.name_view()) {
                Some(settings) => r is Ok && settings_replaced(
                    *old(state),
                    *final(state),
                    self.name_view(),
                    TuneableMutationalStageMetadata {
                        iters: Some(iters),
                        fuzz_time: settings.fuzz_time,
                    },
                ),
                None => result_view(r) == Err::<(), ErrorView>(not_in_use_view()) && *final(state)
                    == *old(state),
            },
    {
        set_iters_by_name(state, iters, self.name.as_str())
    }

    /// Fixes the number of iterations of the stage of the default name.
    pub fn set_iters_std(state: &mut S, iters: u64) -> (r: Result<(), Error>)
        ensures
            match settings_of(*old(state), STD_TUNEABLE_MUTATIONAL_STAGE_NAME@) {
                Some(settings) => r is Ok && settings_replaced(
                    *old(state),
                    *final(state),
                    STD_TUNEABLE_MUTATIONAL_STAGE_NAME@,
                    TuneableMutationalStageMetadata {
                        iters: Some(iters),
                        fuzz_time: settings.fuzz_time,
                    },
                ),
                None => result_view(r) == Err::<(), ErrorView>(not_in_use_view()) && *final(state)
                    == *old(state),
            },
    {
        set_iters_by_name(state, iters, STD_TUNEABLE_MUTATIONAL_STAGE_NAME)
    }

    /// Fixes the number of iterations of the stage called `name`.
    pub fn set_iters_by_name(state: &mut S, iters: u64, name: &str) -> (r: Result<(), Error>)
        ensures
            match settings_of(*old(state), name@) {
                Some(settings) => r is Ok && settings_replaced(
                    *old(state),
                    *final(state),
                    name@,
                    TuneableMutationalStageMetadata {
                        iters: Some(iters),
                        fuzz_time: settings.fuzz_time,
                    },
                ),
                None => result_view(r) == Err::<(), ErrorView>(not_in_use_view()) && *final(state)
                    == *old(state),
            },
    {
        set_iters_by_name(state, iters, name)
    }

    /// The fixed number of iterations of this stage, if one is fixed.
    pub fn fixed_iters(&self, state: &S) -> (r: Result<Option<u64>, Error>)
        ensures
            result_view(r) == (match settings_of(*state, self.name_view()) {
                Some(settings) => Ok(settings.iters),
                None => Err(not_in_use_view()),
            }),
    {
        get_iters_by_name(state, self.name.as_str())
    }

    /// The fixed number of iterations of the stage of the default name, if one is fixed.
    pub fn iters_std(state: &S) -> (r: Result<Option<u64>, Error>)
        ensures
            result_view(r) == (match settings_of(*state, STD_TUNEABLE_MUTATIONAL_STAGE_NAME@) {
                Some(settings) => Ok(settings.iters),
                None => Err(not_in_use_view()),
            }),
    {
        get_iters_by_name(state, STD_TUNEABLE_MUTATIONAL_STAGE_NAME)
    }

    /// The fixed number of iterations of the stage called `name`, if one is fixed.
    pub fn iters_by_name(state: &S, name: &str) -> (r: Result<Option<u64>, Error>)
        ensures
            result_view(r) == (match settings_of(*state, name@) {
                Some(settings) => Ok(settings.iters),
                None => Err(not_in_use_view()),
            }),
    {
        get_iters_by_name(state, name)
    }

    /// Fixes the time that this stage spends on each testcase.
    pub fn set_seed_fuzz_time(&self, state: &mut S, fuzz_time: Duration) -> (r: Result<(), Error>)
        ensures
            match settings_of(*old(state), self.name_view()) {
                Some(settings) => r is Ok && settings_replaced(
                    *old(state),
                    *final(state),
                    self.name_view(),
                    TuneableMutationalStageMetadata {
                        iters: settings.iters,
                        fuzz_time: Some(fuzz_time),
                    },
                ),
                None => result_view(r) == Err::<(), ErrorView>(not_in_use_view()) && *final(state)
                    == *old(state),
            },
    {
        set_seed_fuzz_time_by_name(state, fuzz_time, self.name.as_str())
    }

    /// Fixes the time that the stage of the default name spends on each testcase.
    pub fn set_seed_fuzz_time_std(state: &mut S, fuzz_time: Duration) -> (r: Result<(), Error>)
        ensures
            match settings_of(*old(state), STD_TUNEABLE_MUTATIONAL_STAGE_NAME@) {
                Some(settings) => r is Ok && settings_replaced(
                    *old(state),
                    *final(state),
                    STD_TUNEABLE_MUTATIONAL_STAGE_NAME@,
                    TuneableMutationalStageMetadata {
                        iters: settings.iters,
                        fuzz_time: Some(fuzz_time),
                    },
                ),
                None => result_view(r) == Err::<(), ErrorView>(not_in_use_view()) && *final(state)
                    == *old(state),
            },
    {
        set_seed_fuzz_time_by_name(state, fuzz_time, STD_TUNEABLE_MUTATIONAL_STAGE_NAME)
    }

    /// Fixes the time that the stage called `name` spends on each testcase.
    pub fn set_seed_fuzz_time_by_name(state: &mut S, fuzz_time: Duration, name: &str) -> (r: Result<
        (),
        Error,
    >)
        ensures
            match settings_of(*old(state), name@) {
                Some(settings) => r is Ok && settings_replaced(
                    *old(state),
                    *final(state),
                    name@,
                    TuneableMutationalStageMetadata {
                        iters: settings.iters,
                        fuzz_time: Some(fuzz_time),
                    },
                ),
                None => result_view(r) == Err::<(), ErrorView>(not_in_use_view()) && *final(state)
                    == *old(state),
            },
    {
        set_seed_fuzz_time_by_name(state, fuzz_time, name)
    }

    /// The fixed time that this stage spends on each testcase, if one is fixed.
    pub fn seed_fuzz_time(&self, state: &S) -> (r: Result<Option<Duration>, Error>)
        ensures
            result_view(r) == (match settings_of(*state, self.name_view()) {
                Some(settings) => Ok(settings.fuzz_time),
                None => Err(not_in_use_view()),
            }),
    {
        get_seed_fuzz_time_by_name(state, self.name.as_str())
    }

    /// The fixed time that the stage of the default name spends on each testcase, if one
    /// is fixed.
    pub fn seed_fuzz_time_std(&self, state: &S) -> (r: Result<Option<Duration>, Error>)
        ensures
            result_view(r) == (match settings_of(*state, STD_TUNEABLE_MUTATIONAL_STAGE_NAME@) {
                Some(settings) => Ok(settings.fuzz_time),
                None => Err(not_in_use_view()),
            }),
    {
        get_seed_fuzz_time_by_name(state, STD_TUNEABLE_MUTATIONAL_STAGE_NAME)
    }

    /// The fixed time that the stage called `name` spends on each testcase, if one is
    /// fixed.
    pub fn seed_fuzz_time_by_name(&self, state: &S, name: &str) -> (r: Result<Option<Duration>, Error>)
        ensures
            result_view(r) == (match settings_of(*state, name@) {
                Some(settings) => Ok(settings.fuzz_time),
                None => Err(not_in_use_view()),
            }),
    {
        get_seed_fuzz_time_by_name(state, name)
    }

    /// Unfixes both the iterations and the time of this stage.
    pub fn reset(&self, state: &mut S) -> (r: Result<(), Error>)
        ensures
            match settings_of(*old(state), self.name_view()) {
                Some(settings) => r is Ok && settings_replaced(
                    *old(state),
                    *final(state),
                    self.name_view(),
                    TuneableMutationalStageMetadata { iters: None, fuzz_time: None },
                ),
                None => result_view(r) == Err::<(), ErrorView>(not_in_use_view()) && *final(state)
                    == *old(state),
            },
    {
        reset_by_name(state, self.name.as_str())
    }

    /// Unfixes both the iterations and the time of the stage of the default name.
    pub fn reset_std(state: &mut S) -> (r: Result<(), Error>)
        ensures
            match settings_of(*old(state), STD_TUNEABLE_MUTATIONAL_STAGE_NAME@) {
                Some(settings) => r is Ok && settings_replaced(
                    *old(state),
                    *final(state),
                    STD_TUNEABLE_MUTATIONAL_STAGE_NAME@,
                    TuneableMutationalStageMetadata { iters: None, fuzz_time: None },
                ),
                None => result_view(r) == Err::<(), ErrorView>(not_in_use_view()) && *final(state)
                    == *old(state),
            },
    {
        reset_by_name(state, STD_TUNEABLE_MUTATIONAL_STAGE_NAME)
    }

    /// Unfixes both the iterations and the time of the stage called `name`.
    pub fn reset_by_name(state: &mut S, name: &str) -> (r: Result<(), Error>)
        ensures
            match settings_of(*old(state), name@) {
                Some(settings) => r is Ok && settings_replaced(
                    *old(state),
                    *final(state),
                    name@,
                    TuneableMutationalStageMetadata { iters: None, fuzz_time: None },
                ),
                None => result_view(r) == Err::<(), ErrorView>(not_in_use_view()) && *final(state)
                    == *old(state),
            },
    {
        reset_by_name(state, name)
    }
}


/// The iterations that are left of a drawn budget once `execs_since` executions have
/// been made: none where the budget is used up.
pub open spec fn remaining_iterations(drawn: usize, execs_since: u64) -> u64 {
    if execs_since >= drawn {
        0
    } else {
        (drawn - execs_since) as u64
    }
}

/// The iterations that are left of the budget `drawn` once `execs_since` executions have
/// been made.
pub fn iterations_left(drawn: usize, execs_since: u64) -> (left: u64)
    ensures
        left == remaining_iterations(drawn, execs_since),
{
    if execs_since >= drawn as u64 {
        0
    } else {
        drawn as u64 - execs_since
    }
}

/// Whether a run that began when the clock showed `start` may go on at the reading
/// `now`: a run without a fixed time always may, a run with one while the time is not
/// used up.
pub open spec fn may_go_on(start: Duration, now: Duration, fuzz_time: Option<Duration>) -> bool {
    match fuzz_time {
        Some(time) => elapsed_between(start@, now@) < time@,
        None => true,
    }
}

/// What a bounded run of mutations leaves behind: one mutation for each of `copies`,
/// which are copies of `input`, and no more of them than `limit`. A run that is not
/// timed and does not fail makes all `limit` mutations. A timed run reads the clock
/// before each mutation, and goes on only while the time since `start` is shorter than
/// its `fuzz_time`: `readings` holds what the clock showed, one reading for each
/// mutation and, where the run ended because its time was up, that last reading.
pub open spec fn repeated<E, EM, I, T: MutatedTransform<I, S> + Clone, M: Mutator<T, S>, S, Z: Evaluator<E, EM, I, S>>(
    before: StageWorld<M, Z, E, Session<S, EM>>,
    after: StageWorld<M, Z, E, Session<S, EM>>,
    result: Result<(), ErrorView>,
    input: T,
    copies: Seq<T>,
    outcomes: Seq<StepOutcome<M, Z, E, Session<S, EM>>>,
    limit: u64,
    fuzz_time: Option<Duration>,
    start: Duration,
    readings: Seq<Duration>,
) -> bool {
    &&& copies_of(input, copies)
    &&& copies.len() <= limit
    &&& steps_follow::<E, EM, I, T, M, S, Z>(before, copies, outcomes)
    &&& (StepOutcome { world: after, result }) == last_outcome(before, outcomes)
    &&& copies.len() <= readings.len() <= copies.len() + 1
    &&& forall|i: int| 0 <= i < copies.len() ==> may_go_on(start, #[trigger] readings[i], fuzz_time)
    &&& readings.len() > copies.len() ==> !may_go_on(start, readings.last(), fuzz_time)
    &&& result is Ok && copies.len() < limit ==> readings.len() > copies.len()
}

/// The witnesses of a run of the stage: what is not a function of the stage's arguments.
pub struct Run<T, M, Z, E, EM, S> {
    /// What the transform made of the testcase; `None` where it refused.
    pub transformed: Option<T>,
    /// The copies of the transformed input that were mutated, one for each mutation.
    pub copies: Seq<T>,
    /// What each mutation has left behind.
    pub outcomes: Seq<StepOutcome<M, Z, E, Session<S, EM>>>,
    /// What the clock showed when the mutations began.
    pub start: Duration,
    /// What the clock showed before each mutation, and when the run ended for want of time.
    pub readings: Seq<Duration>,
    /// The budget that was drawn, where the stage draws one.
    pub drawn: usize,
    /// The state after the draw.
    pub drawn_state: S,
}

/// What [`TuneableMutationalStage::perform_mutational`] does.
///
/// Without settings under the stage's name, and without a current testcase, the stage
/// fails and changes nothing. Where the transform refuses the testcase, the stage
/// succeeds and changes nothing. Otherwise it mutates copies of the transformed input,
/// as [`repeated`] says: at most `iters` times and for at most `fuzz_time`, as far as
/// they are fixed; with neither fixed, as often as is left of a budget drawn from 1 to
/// [`DEFAULT_MUTATIONAL_MAX_ITERATIONS`] once the executions since the stage began are
/// taken off.
pub open spec fn performed<E, EM, I, T: MutatedTransform<I, S> + Clone, M: Mutator<T, S>, S: State + HasCurrentTestcase<I>, Z: Evaluator<E, EM, I, S>>(
    before: StageWorld<M, Z, E, Session<S, EM>>,
    helper: ExecutionCountRestartHelper,
    name: Seq<char>,
    after: StageWorld<M, Z, E, Session<S, EM>>,
    helper_after: ExecutionCountRestartHelper,
    result: Result<(), ErrorView>,
    run: Run<T, M, Z, E, EM, S>,
) -> bool {
    match settings_of(before.state.state, name) {
        None => result == Err::<(), ErrorView>(not_in_use_view()) && after == before && helper_after
            == helper,
        Some(settings) => match before.state.state.current_testcase_spec() {
            None => result == Err::<(), ErrorView>(crate::state::no_current_testcase_view())
                && after == before && helper_after == helper,
            Some(testcase) => T::transforms_from(testcase, before.state.state, run.transformed)
                && match run.transformed {
                None => result == Ok::<(), ErrorView>(()) && after == before && helper_after
                    == helper,
                Some(input) => match (settings.fuzz_time, settings.iters) {
                    (Some(fuzz_time), Some(iters)) => helper_after == helper && repeated::<
                        E,
                        EM,
                        I,
                        T,
                        M,
                        S,
                        Z,
                    >(
                        before,
                        after,
                        result,
                        input,
                        run.copies,
                        run.outcomes,
                        iters,
                        Some(fuzz_time),
                        run.start,
                        run.readings,
                    ),
                    (Some(fuzz_time), None) => helper_after == helper && repeated::<E, EM, I, T, M, S, Z>(
                        before,
                        after,
                        result,
                        input,
                        run.copies,
                        run.outcomes,
                        u64::MAX,
                        Some(fuzz_time),
                        run.start,
                        run.readings,
                    ),
                    (None, Some(iters)) => helper_after == helper && repeated::<E, EM, I, T, M, S, Z>(
                        before,
                        after,
                        result,
                        input,
                        run.copies,
                        run.outcomes,
                        iters,
                        None,
                        run.start,
                        run.readings,
                    ),
                    (None, None) => {
                        let drawn_world = StageWorld {
                            mutator: before.mutator,
                            fuzzer: before.fuzzer,
                            executor: before.executor,
                            state: session(run.drawn_state, before.state.manager),
                        };
                        let progress = helper.execs_since_progress_start_spec(
                            run.drawn_state,
                            name,
                        );
                        &&& only_rand_differs(before.state.state, run.drawn_state)
                        &&& 1 <= run.drawn <= DEFAULT_MUTATIONAL_MAX_ITERATIONS
                        &&& helper_after == progress.helper
                        &&& match progress.result {
                            Err(e) => result == Err::<(), ErrorView>(e) && after == drawn_world,
                            Ok(execs_since) => repeated::<E, EM, I, T, M, S, Z>(
                                drawn_world,
                                after,
                                result,
                                input,
                                run.copies,
                                run.outcomes,
                                remaining_iterations(run.drawn, execs_since),
                                None,
                                run.start,
                                run.readings,
                            ),
                        }
                    },
                },
            },
        },
    }
}

/// What a bounded run of mutations has gone through.
pub struct Trail<T, M, Z, E, EM, S> {
    /// The copies of the input that were mutated.
    pub copies: Seq<T>,
    /// What each mutation has left behind.
    pub outcomes: Seq<StepOutcome<M, Z, E, Session<S, EM>>>,
    /// What the clock showed when the mutations began.
    pub start: Duration,
    /// What the clock showed before each mutation, and when the run ended for want of time.
    pub readings: Seq<Duration>,
}

/// One more mutation after mutations that all went well.
proof fn lemma_one_more_step<E, EM, I, T: MutatedTransform<I, S>, M: Mutator<T, S>, S, Z: Evaluator<E, EM, I, S>>(
    world: StageWorld<M, Z, E, Session<S, EM>>,
    copies: Seq<T>,
    outcomes: Seq<StepOutcome<M, Z, E, Session<S, EM>>>,
    copy: T,
    outcome: StepOutcome<M, Z, E, Session<S, EM>>,
)
    requires
        steps_follow::<E, EM, I, T, M, S, Z>(world, copies, outcomes),
        last_outcome(world, outcomes).result is Ok,
        stepped::<E, EM, I, T, M, S, Z>(last_outcome(world, outcomes).world, copy, outcome),
    ensures
        steps_follow::<E, EM, I, T, M, S, Z>(world, copies.push(copy), outcomes.push(outcome)),
        last_outcome(world, outcomes.push(outcome)) == outcome,
{
    let more_copies = copies.push(copy);
    let more = outcomes.push(outcome);
    assert forall|i: int| 0 <= i < more_copies.len() implies #[trigger] stepped::<E, EM, I, T, M, S, Z>(
        world_before(world, more, i),
        more_copies[i],
        more[i],
    ) by {
        if i < copies.len() {
            assert(world_before(world, more, i) == world_before(world, outcomes, i));
            assert(stepped::<E, EM, I, T, M, S, Z>(
                world_before(world, outcomes, i),
                copies[i],
                outcomes[i],
            ));
        } else {
            assert(world_before(world, more, i) == last_outcome(world, outcomes).world);
        }
    }
    assert forall|i: int| 0 <= i < more_copies.len() - 1 implies (#[trigger] more[i]).result is Ok by {
        if i < outcomes.len() - 1 {
            assert(outcomes[i].result is Ok);
        }
    }
}

impl<E, EM, I, M: Mutator<T, S>, S, T: MutatedTransform<I, S> + Clone, Z: Evaluator<E, EM, I, S>> TuneableMutationalStage<E, EM, I, M, S, T, Z> {
    /// A budget of iterations, drawn at random from 1 to
    /// [`DEFAULT_MUTATIONAL_MAX_ITERATIONS`]. Only the generator of the state changes.
    pub fn iterations(&self, state: &mut S) -> (r: Result<usize, Error>) where S: HasRand
        ensures
            r matches Ok(drawn) && 1 <= drawn <= DEFAULT_MUTATIONAL_MAX_ITERATIONS,
            only_rand_differs(*old(state), *final(state)),
    {
        proof {
            assert forall|rand: libafl_bolts::rands::StdRand| #[trigger]
                state.with_rand(rand).rand_spec() == rand by {
                state.lemma_rand_replaced(rand, rand);
            }
        }
        let rand = state.rand_mut();
        Ok(1 + rand_below(rand, DEFAULT_MUTATIONAL_MAX_ITERATIONS))
    }

    /// The number of executions since this stage began its work on the testcase.
    pub fn execs_since_progress_start(&mut self, state: &S) -> (r: Result<u64, Error>) where
        S: HasNamedMetadata + HasExecutions,

        ensures
            final(self).mutator_spec() == old(self).mutator_spec(),
            final(self).name_view() == old(self).name_view(),
            final(self).restart_helper_spec() == old(
                self,
            ).restart_helper_spec().execs_since_progress_start_spec(*state, old(self).name_view()).helper,
            result_view(r) == old(self).restart_helper_spec().execs_since_progress_start_spec(
                *state,
                old(self).name_view(),
            ).result,
    {
        self.restart_helper.execs_since_progress_start(state, self.name.as_str())
    }

    /// Called when the stage is entered: notes where the work begins, unless that is
    /// noted already. Always answers that the stage is to go on.
    pub fn should_restart(&mut self, state: &mut S) -> (r: Result<bool, Error>) where
        S: HasNamedMetadata + HasExecutions,

        ensures
            result_view(r) == Ok::<bool, ErrorView>(true),
            final(self).mutator_spec() == old(self).mutator_spec(),
            final(self).name_view() == old(self).name_view(),
            old(self).restart_helper_spec().restarted(
                *old(state),
                old(self).name_view(),
                final(self).restart_helper_spec(),
                *final(state),
            ),
    {
        self.restart_helper.should_restart(state, self.name.as_str())
    }

    /// Called when the stage has done its work: forgets where the work began.
    pub fn clear_progress(&mut self, state: &mut S) -> (r: Result<(), Error>) where
        S: HasNamedMetadata,

        ensures
            r is Ok,
            final(self).mutator_spec() == old(self).mutator_spec(),
            final(self).name_view() == old(self).name_view(),
            old(self).restart_helper_spec().progress_cleared(
                *old(state),
                old(self).name_view(),
                final(self).restart_helper_spec(),
                *final(state),
            ),
    {
        self.restart_helper.clear_progress(state, self.name.as_str())
    }

    /// One mutation of `input`, which the stage consumes, as [`step_follows`] says.
    fn mutate_once(&mut self, fuzzer: &mut Z, executor: &mut E, state: &mut S, manager: &mut EM, input: T) -> (r: Result<
        (),
        Error,
    >)
        ensures
            final(self).name_view() == old(self).name_view(),
            final(self).restart_helper_spec() == old(self).restart_helper_spec(),
            stepped::<E, EM, I, T, M, S, Z>(
                old(self).world(*old(fuzzer), *old(executor), session(*old(state), *old(manager))),
                input,
                StepOutcome {
                    world: final(self).world(*final(fuzzer), *final(executor), session(*final(state), *final(manager))),
                    result: result_view(r),
                },
            ),
    {
        let ghost world = self.world(*fuzzer, *executor, session(*state, *manager));
        let ghost given = input;
        let mut input = input;
        let mutation = self.mutator.mutate(state, &mut input);
        let ghost mutated = MutateOutcome {
            mutator: self.mutator,
            state: *state,
            input,
            result: result_view(mutation),
        };
        let ghost unsaid = arbitrary::<StepTrace<EM, I, T, M, S, Z, E>>();
        let mutation = match mutation {
            Ok(mutation) => mutation,
            Err(e) => {
                assert(step_follows::<E, EM, I, T, M, S, Z>(
                    world,
                    given,
                    StepTrace { mutated, ..unsaid },
                    StepOutcome {
                        world: self.world(*fuzzer, *executor, session(*state, *manager)),
                        result: Err(e@),
                    },
                ));
                return Err(e);
            },
        };
        if mutation == MutationResult::Skipped {
            assert(step_follows::<E, EM, I, T, M, S, Z>(
                world,
                given,
                StepTrace { mutated, ..unsaid },
                StepOutcome {
                    world: self.world(*fuzzer, *executor, session(*state, *manager)),
                    result: Ok(()),
                },
            ));
            return Ok(());
        }
        let lowering = input.try_transform_into(state);
        let ghost lowered = result_view(lowering);
        let (untransformed, post) = match lowering {
            Ok(pair) => pair,
            Err(e) => {
                assert(step_follows::<E, EM, I, T, M, S, Z>(
                    world,
                    given,
                    StepTrace { mutated, lowered, ..unsaid },
                    StepOutcome {
                        world: self.world(*fuzzer, *executor, session(*state, *manager)),
                        result: Err(e@),
                    },
                ));
                return Err(e);
            },
        };
        let evaluation = fuzzer.evaluate_input(state, executor, manager, untransformed);
        let ghost evaluated = EvaluationOutcome {
            fuzzer: *fuzzer,
            state: session(*state, *manager),
            executor: *executor,
            result: result_view(evaluation),
        };
        let corpus_id = match evaluation {
            Ok((_, corpus_id)) => corpus_id,
            Err(e) => {
                assert(step_follows::<E, EM, I, T, M, S, Z>(
                    world,
                    given,
                    StepTrace { mutated, lowered, evaluated, ..unsaid },
                    StepOutcome {
                        world: self.world(*fuzzer, *executor, session(*state, *manager)),
                        result: Err(e@),
                    },
                ));
                return Err(e);
            },
        };
        let telling = self.mutator.post_exec(state, corpus_id);
        let ghost told = MutatorPostOutcome {
            mutator: self.mutator,
            state: *state,
            result: result_view(telling),
        };
        if let Err(e) = telling {
            assert(step_follows::<E, EM, I, T, M, S, Z>(
                world,
                given,
                StepTrace { mutated, lowered, evaluated, told, ..unsaid },
                StepOutcome {
                    world: self.world(*fuzzer, *executor, session(*state, *manager)),
                    result: Err(e@),
                },
            ));
            return Err(e);
        }
        let finishing = post.post_exec(state, corpus_id);
        let ghost finished = PostOutcome { state: *state, result: result_view(finishing) };
        assert(step_follows::<E, EM, I, T, M, S, Z>(
            world,
            given,
            StepTrace { mutated, lowered, evaluated, told, finished },
            StepOutcome {
                world: self.world(*fuzzer, *executor, session(*state, *manager)),
                result: result_view(finishing),
            },
        ));
        finishing
    }

    /// One mutation of a copy of `input`: the mutator changes the copy; unless it passes,
    /// the copy is lowered and evaluated, and the mutator and what is left of the copy
    /// are told how the evaluation went.
    pub fn perform_mutation(
        &mut self,
        fuzzer: &mut Z,
        executor: &mut E,
        state: &mut S,
        manager: &mut EM,
        input: &T,
    ) -> (r: Result<(), Error>)
        ensures
            final(self).name_view() == old(self).name_view(),
            final(self).restart_helper_spec() == old(self).restart_helper_spec(),
            exists|copy: T|
                cloned::<T>(*input, copy) && #[trigger] stepped::<E, EM, I, T, M, S, Z>(
                    old(self).world(*old(fuzzer), *old(executor), session(*old(state), *old(manager))),
                    copy,
                    StepOutcome {
                        world: final(self).world(*final(fuzzer), *final(executor), session(*final(state), *final(manager))),
                        result: result_view(r),
                    },
                ),
    {
        let copy = input.clone();
        self.mutate_once(fuzzer, executor, state, manager, copy)
    }

    /// Mutates copies of `input` up to `limit` times; with a `fuzz_time`, only while the
    /// time since the first mutation is shorter than that. The first error ends the run.
    /// The clock is read only where a `fuzz_time` is given.
    fn mutate_repeatedly(
        &mut self,
        fuzzer: &mut Z,
        executor: &mut E,
        state: &mut S,
        manager: &mut EM,
        input: &T,
        limit: u64,
        fuzz_time: Option<Duration>,
    ) -> (r: (Result<(), Error>, Ghost<Trail<T, M, Z, E, EM, S>>))
        ensures
            final(self).name_view() == old(self).name_view(),
            final(self).restart_helper_spec() == old(self).restart_helper_spec(),
            repeated::<E, EM, I, T, M, S, Z>(
                old(self).world(*old(fuzzer), *old(executor), session(*old(state), *old(manager))),
                final(self).world(*final(fuzzer), *final(executor), session(*final(state), *final(manager))),
                result_view(r.0),
                *input,
                r.1@.copies,
                r.1@.outcomes,
                limit,
                fuzz_time,
                r.1@.start,
                r.1@.readings,
            ),
    {
        let ghost before = self.world(*fuzzer, *executor, session(*state, *manager));
        let ghost mut copies: Seq<T> = Seq::empty();
        let ghost mut outcomes: Seq<StepOutcome<M, Z, E, Session<S, EM>>> = Seq::empty();
        let ghost mut readings: Seq<Duration> = Seq::empty();
        let start_time = match fuzz_time {
            Some(_) => current_time(),
            None => Duration::zero(),
        };
        let mut done: u64 = 0;
        while done < limit
            invariant
                done <= limit,
                copies.len() == done,
                before == old(self).world(*old(fuzzer), *old(executor), session(*old(state), *old(manager))),
                copies_of(*input, copies),
                self.name_view() == old(self).name_view(),
                self.restart_helper_spec() == old(self).restart_helper_spec(),
                steps_follow::<E, EM, I, T, M, S, Z>(before, copies, outcomes),
                (StepOutcome {
                    world: self.world(*fuzzer, *executor, session(*state, *manager)),
                    result: Ok::<(), ErrorView>(()),
                }) == last_outcome(before, outcomes),
                readings.len() == done,
                forall|i: int|
                    0 <= i < done ==> may_go_on(start_time, #[trigger] readings[i], fuzz_time),
            decreases limit - done,
        {
            let now = match fuzz_time {
                Some(time) => {
                    let now = current_time();
                    if time_is_up(start_time, now, time) {
                        return (
                            Ok(()),
                            Ghost(
                                Trail {
                                    copies,
                                    outcomes,
                                    start: start_time,
                                    readings: readings.push(now),
                                },
                            ),
                        );
                    }
                    now
                },
                None => start_time,
            };
            proof {
                readings = readings.push(now);
            }
            let copy = input.clone();
            let step = self.mutate_once(fuzzer, executor, state, manager, copy);
            proof {
                let outcome = StepOutcome {
                    world: self.world(*fuzzer, *executor, session(*state, *manager)),
                    result: result_view(step),
                };
                lemma_one_more_step::<E, EM, I, T, M, S, Z>(before, copies, outcomes, copy, outcome);
                copies = copies.push(copy);
                outcomes = outcomes.push(outcome);
            }
            if step.is_err() {
                return (step, Ghost(Trail { copies, outcomes, start: start_time, readings }));
            }
            done += 1;
        }
        (Ok(()), Ghost(Trail { copies, outcomes, start: start_time, readings }))
    }
}

impl<E, EM, I, M: Mutator<T, S>, S: State + HasCurrentTestcase<I>, T: MutatedTransform<I, S> + Clone, Z: Evaluator<E, EM, I, S>> TuneableMutationalStage<E, EM, I, M, S, T, Z> {
    /// Works on the current testcase of the state, as [`performed`] says.
    ///
    /// The time is read from the system clock once before each mutation; a mutation
    /// that has begun is never cut short. A stage that is only timed makes at most
    /// `u64::MAX` mutations.
    pub fn perform_mutational(&mut self, fuzzer: &mut Z, executor: &mut E, state: &mut S, manager: &mut EM) -> (r: Result<
        (),
        Error,
    >)
        ensures
            final(self).name_view() == old(self).name_view(),
            exists|run: Run<T, M, Z, E, EM, S>| #[trigger]
                performed::<E, EM, I, T, M, S, Z>(
                    old(self).world(*old(fuzzer), *old(executor), session(*old(state), *old(manager))),
                    old(self).restart_helper_spec(),
                    old(self).name_view(),
                    final(self).world(*final(fuzzer), *final(executor), session(*final(state), *final(manager))),
                    final(self).restart_helper_spec(),
                    result_view(r),
                    run,
                ),
    {
        let ghost before = self.world(*fuzzer, *executor, session(*state, *manager));
        let ghost helper = self.restart_helper_spec();
        let ghost name = self.name_view();
        let ghost idle = Run::<T, M, Z, E, EM, S> {
            transformed: None,
            copies: Seq::empty(),
            outcomes: Seq::empty(),
            start: arbitrary(),
            readings: Seq::empty(),
            drawn: 0,
            drawn_state: *state,
        };
        let fuzz_time = match self.seed_fuzz_time(state) {
            Ok(fuzz_time) => fuzz_time,
            Err(e) => {
                assert(performed::<E, EM, I, T, M, S, Z>(
                    before,
                    helper,
                    name,
                    before,
                    helper,
                    Err(e@),
                    idle,
                ));
                return Err(e);
            },
        };
        let iters = match self.fixed_iters(state) {
            Ok(iters) => iters,
            Err(e) => {
                return Err(e);
            },
        };
        let input = match state.current_testcase() {
            Ok(testcase) => match T::try_transform_from(testcase, state) {
                Some(input) => input,
                None => {
                    assert(performed::<E, EM, I, T, M, S, Z>(
                        before,
                        helper,
                        name,
                        before,
                        helper,
                        Ok(()),
                        idle,
                    ));
                    return Ok(());
                },
            },
            Err(e) => {
                assert(performed::<E, EM, I, T, M, S, Z>(
                    before,
                    helper,
                    name,
                    before,
                    helper,
                    Err(e@),
                    idle,
                ));
                return Err(e);
            },
        };
        match (fuzz_time, iters) {
            (Some(fuzz_time), Some(iters)) => {
                let (result, Ghost(trail)) = self.mutate_repeatedly(
                    fuzzer,
                    executor,
                    state,
                    manager,
                    &input,
                    iters,
                    Some(fuzz_time),
                );
                assert(performed::<E, EM, I, T, M, S, Z>(
                    before,
                    helper,
                    name,
                    self.world(*fuzzer, *executor, session(*state, *manager)),
                    helper,
                    result_view(result),
                    Run {
                        transformed: Some(input),
                        copies: trail.copies,
                        outcomes: trail.outcomes,
                        start: trail.start,
                        readings: trail.readings,
                        drawn: 0,
                        drawn_state: before.state.state,
                    },
                ));
                result
            },
            (Some(fuzz_time), None) => {
                let (result, Ghost(trail)) = self.mutate_repeatedly(
                    fuzzer,
                    executor,
                    state,
                    manager,
                    &input,
                    u64::MAX,
                    Some(fuzz_time),
                );
                assert(performed::<E, EM, I, T, M, S, Z>(
                    before,
                    helper,
                    name,
                    self.world(*fuzzer, *executor, session(*state, *manager)),
                    helper,
                    result_view(result),
                    Run {
                        transformed: Some(input),
                        copies: trail.copies,
                        outcomes: trail.outcomes,
                        start: trail.start,
                        readings: trail.readings,
                        drawn: 0,
                        drawn_state: before.state.state,
                    },
                ));
                result
            },
            (None, Some(iters)) => {
                let (result, Ghost(trail)) = self.mutate_repeatedly(
                    fuzzer,
                    executor,
                    state,
                    manager,
                    &input,
                    iters,
                    None,
                );
                assert(performed::<E, EM, I, T, M, S, Z>(
                    before,
                    helper,
                    name,
                    self.world(*fuzzer, *executor, session(*state, *manager)),
                    helper,
                    result_view(result),
                    Run {
                        transformed: Some(input),
                        copies: trail.copies,
                        outcomes: trail.outcomes,
                        start: trail.start,
                        readings: trail.readings,
                        drawn: 0,
                        drawn_state: before.state.state,
                    },
                ));
                result
            },
            (None, None) => {
                let drawn = match self.iterations(state) {
                    Ok(drawn) => drawn,
                    Err(e) => {
                        return Err(e);
                    },
                };
                let ghost drawn_state = *state;
                let execs_since = match self.execs_since_progress_start(state) {
                    Ok(execs_since) => execs_since,
                    Err(e) => {
                        assert(performed::<E, EM, I, T, M, S, Z>(
                            before,
                            helper,
                            name,
                            self.world(*fuzzer, *executor, session(*state, *manager)),
                            self.restart_helper_spec(),
                            Err(e@),
                            Run {
                                transformed: Some(input),
                                copies: Seq::empty(),
                                outcomes: Seq::empty(),
                                start: arbitrary(),
                                readings: Seq::empty(),
                                drawn,
                                drawn_state,
                            },
                        ));
                        return Err(e);
                    },
                };
                let left = iterations_left(drawn, execs_since);
                let ghost progressed = self.restart_helper_spec();
                let (result, Ghost(trail)) = self.mutate_repeatedly(
                    fuzzer,
                    executor,
                    state,
                    manager,
                    &input,
                    left,
                    None,
                );
                assert(performed::<E, EM, I, T, M, S, Z>(
                    before,
                    helper,
                    name,
                    self.world(*fuzzer, *executor, session(*state, *manager)),
                    progressed,
                    result_view(result),
                    Run {
                        transformed: Some(input),
                        copies: trail.copies,
                        outcomes: trail.outcomes,
                        start: trail.start,
                        readings: trail.readings,
                        drawn,
                        drawn_state,
                    },
                ));
                result
            },
        }
    }

    /// The stage as the pipeline runs it on each scheduled testcase: the same as
    /// [`TuneableMutationalStage::perform_mutational`].
    pub fn perform(&mut self, fuzzer: &mut Z, executor: &mut E, state: &mut S, manager: &mut EM) -> (r: Result<(), Error>)
        ensures
            final(self).name_view() == old(self).name_view(),
            exists|run: Run<T, M, Z, E, EM, S>| #[trigger]
                performed::<E, EM, I, T, M, S, Z>(
                    old(self).world(*old(fuzzer), *old(executor), session(*old(state), *old(manager))),
                    old(self).restart_helper_spec(),
                    old(self).name_view(),
                    final(self).world(*final(fuzzer), *final(executor), session(*final(state), *final(manager))),
                    final(self).restart_helper_spec(),
                    result_view(r),
                    run,
                ),
    {
        self.perform_mutational(fuzzer, executor, state, manager)
    }
}


impl<E, EM, I, M: Mutator<T, S>, S: State + HasCurrentTestcase<I>, T: MutatedTransform<I, S> + Clone, Z: Evaluator<E, EM, I, S>> Stage<E, EM, S, Z> for TuneableMutationalStage<E, EM, I, M, S, T, Z> {
    /// The stage keeps its name and works as [`performed`] says.
    open spec fn performs(
        self,
        fuzzer: Z,
        executor: E,
        state: Session<S, EM>,
        outcome: StageOutcome<Self, Z, E, Session<S, EM>>,
    ) -> bool {
        &&& outcome.stage.name_view() == self.name_view()
        &&& exists|run: Run<T, M, Z, E, EM, S>| #[trigger]
            performed::<E, EM, I, T, M, S, Z>(
                self.world(fuzzer, executor, state),
                self.restart_helper_spec(),
                self.name_view(),
                outcome.stage.world(outcome.fuzzer, outcome.executor, outcome.state),
                outcome.stage.restart_helper_spec(),
                outcome.result,
                run,
            )
    }

    fn perform(&mut self, fuzzer: &mut Z, executor: &mut E, state: &mut S, manager: &mut EM) -> (r: Result<(), Error>) {
        let r = self.perform_mutational(fuzzer, executor, state, manager);
        proof {
            let run = choose|run: Run<T, M, Z, E, EM, S>| #[trigger]
                performed::<E, EM, I, T, M, S, Z>(
                    old(self).world(*old(fuzzer), *old(executor), session(*old(state), *old(manager))),
                    old(self).restart_helper_spec(),
                    old(self).name_view(),
                    self.world(*fuzzer, *executor, session(*state, *manager)),
                    self.restart_helper_spec(),
                    result_view(r),
                    run,
                );
            let outcome = StageOutcome {
                stage: *self,
                fuzzer: *fuzzer,
                executor: *executor,
                state: session(*state, *manager),
                result: result_view(r),
            };
            assert(performed::<E, EM, I, T, M, S, Z>(
                old(self).world(*old(fuzzer), *old(executor), session(*old(state), *old(manager))),
                old(self).restart_helper_spec(),
                old(self).name_view(),
                outcome.stage.world(outcome.fuzzer, outcome.executor, outcome.state),
                outcome.stage.restart_helper_spec(),
                outcome.result,
                run,
            ));
        }
        r
    }

    /// The stage is always to go on; it notes where its work begins, as
    /// [`ExecutionCountRestartHelper::restarted`] says.
    open spec fn restarts(self, state: S, outcome: ProgressCallOutcome<Self, S, Result<bool, ErrorView>>) -> bool {
        &&& outcome.result == Ok::<bool, ErrorView>(true)
        &&& outcome.stage.mutator_spec() == self.mutator_spec()
        &&& outcome.stage.name_view() == self.name_view()
        &&& self.restart_helper_spec().restarted(
            state,
            self.name_view(),
            outcome.stage.restart_helper_spec(),
            outcome.state,
        )
    }

    fn should_restart(&mut self, state: &mut S) -> (r: Result<bool, Error>) {
        self.restart_helper.should_restart(state, self.name.as_str())
    }

    /// The stage forgets where its work began, as
    /// [`ExecutionCountRestartHelper::progress_cleared`] says.
    open spec fn clears(self, state: S, outcome: ProgressCallOutcome<Self, S, Result<(), ErrorView>>) -> bool {
        &&& outcome.result is Ok
        &&& outcome.stage.mutator_spec() == self.mutator_spec()
        &&& outcome.stage.name_view() == self.name_view()
        &&& self.restart_helper_spec().progress_cleared(
            state,
            self.name_view(),
            outcome.stage.restart_helper_spec(),
            outcome.state,
        )
    }

    fn clear_progress(&mut self, state: &mut S) -> (r: Result<(), Error>) {
        self.restart_helper.clear_progress(state, self.name.as_str())
    }
}

} // verus!
