//! The feedback algebra: leaves that judge one execution of the harness, and the
//! combinators that put them together.
//!
//! The contract of each operation of a [`Feedback`] names the outcomes that a call may
//! have: the feedback and the state as they may be afterwards, with the result. What a
//! combinator does is thereby stated, and proved, in terms of what its children do: in
//! which order they run, on which state, and which of them does not run at all.

use vstd::prelude::*;
use core::marker::PhantomData;

pub mod laws;
pub mod map;

use crate::corpus::Testcase;
use crate::error::{result_view, Error, ErrorKind, ErrorView};
use crate::executors::ExitKind;
use crate::named::Named;
use crate::observers::{Handle, Handled, MatchNameRef, TimeObserver};
use crate::state::{feedback_time_noted, session, HasClientPerfMonitor, Session};
use crate::time::{counted_between, read_time_counter};
use vstd::string::StringExecFns;

verus! {

/// What a call on a feedback leaves behind: the feedback and the state as they are after
/// the call, and what the call returned.
pub struct Outcome<F, S, R> {
    /// The feedback after the call.
    pub feedback: F,
    /// The state after the call.
    pub state: S,
    /// What the call returned.
    pub result: R,
}

/// What `append_metadata` leaves behind.
pub struct MetadataOutcome<F, S, I> {
    /// The feedback after the call.
    pub feedback: F,
    /// The state after the call.
    pub state: S,
    /// The testcase after the call.
    pub testcase: Testcase<I>,
    /// What the call returned.
    pub result: Result<(), ErrorView>,
}

/// What `append_hit_feedbacks` does: the names it appends, in order, and what it returns.
/// Names may have been appended before a failure.
pub struct Hits {
    /// The names appended to the list.
    pub names: Seq<Seq<char>>,
    /// What the call returned.
    pub result: Result<(), ErrorView>,
}

/// The characters of each name of a list of names.
pub open spec fn names_of(list: Seq<String>) -> Seq<Seq<char>> {
    list.map_values(|name: String| name@)
}

/// The message of the error that `last_result` gives before the first run.
pub open spec fn premature_last_result_message() -> Seq<char> {
    "last_result called before Feedback was run"@
}

/// The view of the error that `last_result` gives before the first run.
pub open spec fn premature_last_result_view() -> ErrorView {
    ErrorView { kind: ErrorKind::IllegalState, message: premature_last_result_message() }
}

/// The error for a `last_result` that is asked for before the feedback has run.
pub fn premature_last_result_err() -> (e: Error)
    ensures
        e@ == premature_last_result_view(),
{
    Error::illegal_state("last_result called before Feedback was run")
}

/// The verdict that a cached verdict stands for: an error while nothing is cached.
pub open spec fn cached_verdict(cache: Option<bool>) -> Result<bool, ErrorView> {
    match cache {
        Some(verdict) => Ok(verdict),
        None => Err(premature_last_result_view()),
    }
}

/// Reads a cached verdict.
pub fn read_cached_verdict(cache: &Option<bool>) -> (r: Result<bool, Error>)
    ensures
        result_view(r) == cached_verdict(*cache),
{
    match cache {
        Some(verdict) => Ok(*verdict),
        None => Err(premature_last_result_err()),
    }
}

/// What a feedback without children reports as its hits: its own name where its last
/// verdict was true, nothing where it was false, and the error where there is no verdict.
pub open spec fn own_hit(last_result: Result<bool, ErrorView>, name: Seq<char>) -> Hits {
    match last_result {
        Err(e) => Hits { names: Seq::empty(), result: Err(e) },
        Ok(true) => Hits { names: seq![name], result: Ok(()) },
        Ok(false) => Hits { names: Seq::empty(), result: Ok(()) },
    }
}

/// Appends `name` to `list` where `last_result` is a true verdict.
pub fn append_own_hit(last_result: Result<bool, Error>, name: &str, list: &mut Vec<String>) -> (r:
    Result<(), Error>)
    ensures
        names_of(final(list)@) == names_of(old(list)@) + own_hit(
            result_view(last_result),
            name@,
        ).names,
        result_view(r) == own_hit(result_view(last_result), name@).result,
{
    match last_result {
        Err(e) => {
            assert(names_of(list@) + Seq::<Seq<char>>::empty() =~= names_of(list@));
            Err(e)
        },
        Ok(hit) => {
            if hit {
                list.push(name.to_owned());
                assert(names_of(list@) =~= names_of(old(list)@) + seq![name@]);
            } else {
                assert(names_of(list@) + Seq::<Seq<char>>::empty() =~= names_of(list@));
            }
            Ok(())
        },
    }
}

/// A feedback judges one run of the harness.
///
/// Each operation that may change the feedback or the state has a specification
/// predicate of the same arguments, taken by value, which says of an outcome whether
/// the call may leave it behind; the executable operation is bound to leave one of
/// these. Where an operation is handed the event manager of type `EM`, the predicate
/// takes and gives the state and the manager together, as a [`Session`]; the kernel
/// itself only hands the manager on.
pub trait Feedback<EM, I, OT, S>: Named + Sized {
    /// Whether `outcome` is what [`Feedback::init_state`] may leave behind.
    spec fn init_states(self, state: S, outcome: Outcome<Self, S, Result<(), ErrorView>>) -> bool;

    /// Installs in the state whatever the feedback keeps there.
    fn init_state(&mut self, state: &mut S) -> (r: Result<(), Error>)
        ensures
            old(self).init_states(
                *old(state),
                Outcome { feedback: *final(self), state: *final(state), result: result_view(r) },
            ),
    ;

    /// Whether `outcome` is what [`Feedback::is_interesting`] may leave behind.
    spec fn judges(
        self,
        state: Session<S, EM>,
        input: I,
        observers: OT,
        exit_kind: ExitKind,
        outcome: Outcome<Self, Session<S, EM>, Result<bool, ErrorView>>,
    ) -> bool;

    /// The verdict on one run: whether `input` is worth keeping.
    fn is_interesting(
        &mut self,
        state: &mut S,
        manager: &mut EM,
        input: &I,
        observers: &OT,
        exit_kind: &ExitKind,
    ) -> (r: Result<bool, Error>)
        ensures
            old(self).judges(
                session(*old(state), *old(manager)),
                *input,
                *observers,
                *exit_kind,
                Outcome {
                    feedback: *final(self),
                    state: session(*final(state), *final(manager)),
                    result: result_view(r),
                },
            ),
    ;

    /// What [`Feedback::last_result`] returns.
    spec fn last_result_spec(&self) -> Result<bool, ErrorView>;

    /// The verdict of the last call of [`Feedback::is_interesting`].
    fn last_result(&self) -> (r: Result<bool, Error>)
        ensures
            result_view(r) == self.last_result_spec(),
    ;

    /// What [`Feedback::append_hit_feedbacks`] does.
    spec fn hit_feedbacks_spec(&self) -> Hits;

    /// Appends to `list` the names of the feedbacks that made the last verdict true.
    fn append_hit_feedbacks(&self, list: &mut Vec<String>) -> (r: Result<(), Error>)
        ensures
            names_of(final(list)@) == names_of(old(list)@) + self.hit_feedbacks_spec().names,
            result_view(r) == self.hit_feedbacks_spec().result,
    ;

    /// What [`Feedback::append_negated_hit_feedbacks`] does.
    spec fn negated_hit_feedbacks_spec(&self) -> Hits;

    /// Appends to `list` the names that this feedback reports where it stands under a
    /// negation: those of the feedbacks that made its last verdict false. A negation
    /// hands the report on to what it negates in this form, so that two negations, one
    /// around the other, report what the feedback inside them reports by itself.
    fn append_negated_hit_feedbacks(&self, list: &mut Vec<String>) -> (r: Result<(), Error>)
        ensures
            names_of(final(list)@) == names_of(old(list)@)
                + self.negated_hit_feedbacks_spec().names,
            result_view(r) == self.negated_hit_feedbacks_spec().result,
    ;

    /// Whether `outcome` is what [`Feedback::append_metadata`] may leave behind.
    spec fn appends_metadata(
        self,
        state: Session<S, EM>,
        observers: OT,
        testcase: Testcase<I>,
        outcome: MetadataOutcome<Self, Session<S, EM>, I>,
    ) -> bool;

    /// Annotates a testcase that is about to enter a corpus.
    fn append_metadata(&mut self, state: &mut S, manager: &mut EM, observers: &OT, testcase: &mut Testcase<I>) -> (r:
        Result<(), Error>)
        ensures
            old(self).appends_metadata(
                session(*old(state), *old(manager)),
                *observers,
                *old(testcase),
                MetadataOutcome {
                    feedback: *final(self),
                    state: session(*final(state), *final(manager)),
                    testcase: *final(testcase),
                    result: result_view(r),
                },
            ),
    ;

    /// Whether `outcome` is what [`Feedback::discard_metadata`] may leave behind.
    spec fn discards_metadata(
        self,
        state: S,
        input: I,
        outcome: Outcome<Self, S, Result<(), ErrorView>>,
    ) -> bool;

    /// Drops what the feedback had set aside for an input that enters no corpus after all.
    fn discard_metadata(&mut self, state: &mut S, input: &I) -> (r: Result<(), Error>)
        ensures
            old(self).discards_metadata(
                *old(state),
                *input,
                Outcome { feedback: *final(self), state: *final(state), result: result_view(r) },
            ),
    ;
}

/// A feedback that can judge a run while the time that it takes is measured and noted in
/// the state's monitor, under the name of each feedback that ran.
pub trait FeedbackIntrospection<EM, I, OT, S: HasClientPerfMonitor>: Feedback<EM, I, OT, S> {
    /// Whether `outcome` is what [`FeedbackIntrospection::is_interesting_introspection`]
    /// may leave behind.
    spec fn judges_timed(
        self,
        state: Session<S, EM>,
        input: I,
        observers: OT,
        exit_kind: ExitKind,
        outcome: Outcome<Self, Session<S, EM>, Result<bool, ErrorView>>,
    ) -> bool;

    /// The verdict on one run, as [`Feedback::is_interesting`] gives it; on the way the
    /// time that the feedback took is noted.
    fn is_interesting_introspection(
        &mut self,
        state: &mut S,
        manager: &mut EM,
        input: &I,
        observers: &OT,
        exit_kind: &ExitKind,
    ) -> (r: Result<bool, Error>)
        ensures
            old(self).judges_timed(
                session(*old(state), *old(manager)),
                *input,
                *observers,
                *exit_kind,
                Outcome {
                    feedback: *final(self),
                    state: session(*final(state), *final(manager)),
                    result: result_view(r),
                },
            ),
    ;
}

/// Whether `outcome` is what a feedback may leave behind that judges a run while it is
/// timed as a whole: it judges the run, whatever comes of it, and then some time is
/// added to what the monitor has noted under the feedback's name; the event manager is
/// as the feedback has left it.
pub open spec fn judged_and_timed<F: Feedback<EM, I, OT, S>, EM, I, OT, S: HasClientPerfMonitor>(
    feedback: F,
    state: Session<S, EM>,
    input: I,
    observers: OT,
    exit_kind: ExitKind,
    outcome: Outcome<F, Session<S, EM>, Result<bool, ErrorView>>,
) -> bool {
    exists|judged: Session<S, EM>, elapsed: u64|
        {
            &&& #[trigger] feedback_time_noted(
                judged.state,
                outcome.state.state,
                outcome.feedback.name_view(),
                elapsed,
            )
            &&& outcome.state.manager == judged.manager
            &&& feedback.judges(
                state,
                input,
                observers,
                exit_kind,
                Outcome { feedback: outcome.feedback, state: judged, result: outcome.result },
            )
        }
}

/// Lets `feedback` judge a run, measures by the processor's counter how long that takes,
/// and adds the time to what the monitor has noted under the feedback's name. A counter
/// that has run backwards counts as no time.
pub fn judge_and_time<F: Feedback<EM, I, OT, S>, EM, I, OT, S: HasClientPerfMonitor>(
    feedback: &mut F,
    state: &mut S,
    manager: &mut EM,
    input: &I,
    observers: &OT,
    exit_kind: &ExitKind,
) -> (r: Result<bool, Error>)
    ensures
        judged_and_timed(
            *old(feedback),
            session(*old(state), *old(manager)),
            *input,
            *observers,
            *exit_kind,
            Outcome {
                feedback: *final(feedback),
                state: session(*final(state), *final(manager)),
                result: result_view(r),
            },
        ),
{
    let start_time = read_time_counter();
    let ret = feedback.is_interesting(state, manager, input, observers, exit_kind);
    let elapsed = counted_between(start_time, read_time_counter());
    let ghost judged = session(*state, *manager);
    proof {
        assert forall|monitor: crate::monitors::ClientPerfMonitor| #[trigger]
            judged.state.with_introspection_monitor(monitor).introspection_monitor_spec()
                == monitor by {
            judged.state.lemma_introspection_monitor_replaced(monitor);
        }
    }
    state.introspection_monitor_mut().update_feedback(feedback.name(), elapsed);
    proof {
        let outcome = Outcome {
            feedback: *feedback,
            state: session(*state, *manager),
            result: result_view(ret),
        };
        assert(feedback_time_noted(
            judged.state,
            outcome.state.state,
            outcome.feedback.name_view(),
            elapsed,
        ));
        assert(old(feedback).judges(
            session(*old(state), *old(manager)),
            *input,
            *observers,
            *exit_kind,
            Outcome { feedback: outcome.feedback, state: judged, result: outcome.result },
        ));
        assert(judged_and_timed(
            *old(feedback),
            session(*old(state), *old(manager)),
            *input,
            *observers,
            *exit_kind,
            outcome,
        ));
    }
    ret
}

/// A way to get the verdict of a feedback of type `F` on one run.
pub trait Judgement<F, EM, I, OT, S> {
    /// Whether `outcome` is what [`Judgement::judge`] may leave behind.
    spec fn judged_by(
        feedback: F,
        state: Session<S, EM>,
        input: I,
        observers: OT,
        exit_kind: ExitKind,
        outcome: Outcome<F, Session<S, EM>, Result<bool, ErrorView>>,
    ) -> bool;

    /// Gets the verdict of `feedback` on one run.
    fn judge(feedback: &mut F, state: &mut S, manager: &mut EM, input: &I, observers: &OT, exit_kind: &ExitKind) -> (r:
        Result<bool, Error>)
        ensures
            Self::judged_by(
                *old(feedback),
                session(*old(state), *old(manager)),
                *input,
                *observers,
                *exit_kind,
                Outcome {
                    feedback: *final(feedback),
                    state: session(*final(state), *final(manager)),
                    result: result_view(r),
                },
            ),
    ;
}

/// The plain way to get a verdict, which is by [`Feedback::is_interesting`].
#[derive(Clone, Copy, Debug)]
pub struct Untimed;

/// The way to get a verdict that measures the time it takes, which is by
/// [`FeedbackIntrospection::is_interesting_introspection`].
#[derive(Clone, Copy, Debug)]
pub struct Timed;

impl<F: Feedback<EM, I, OT, S>, EM, I, OT, S> Judgement<F, EM, I, OT, S> for Untimed {
    open spec fn judged_by(
        feedback: F,
        state: Session<S, EM>,
        input: I,
        observers: OT,
        exit_kind: ExitKind,
        outcome: Outcome<F, Session<S, EM>, Result<bool, ErrorView>>,
    ) -> bool {
        feedback.judges(state, input, observers, exit_kind, outcome)
    }

    fn judge(feedback: &mut F, state: &mut S, manager: &mut EM, input: &I, observers: &OT, exit_kind: &ExitKind) -> (r:
        Result<bool, Error>) {
        feedback.is_interesting(state, manager, input, observers, exit_kind)
    }
}

impl<F: FeedbackIntrospection<EM, I, OT, S>, EM, I, OT, S: HasClientPerfMonitor> Judgement<F, EM, I, OT, S> for Timed {
    open spec fn judged_by(
        feedback: F,
        state: Session<S, EM>,
        input: I,
        observers: OT,
        exit_kind: ExitKind,
        outcome: Outcome<F, Session<S, EM>, Result<bool, ErrorView>>,
    ) -> bool {
        feedback.judges_timed(state, input, observers, exit_kind, outcome)
    }

    fn judge(feedback: &mut F, state: &mut S, manager: &mut EM, input: &I, observers: &OT, exit_kind: &ExitKind) -> (r:
        Result<bool, Error>) {
        feedback.is_interesting_introspection(state, manager, input, observers, exit_kind)
    }
}

/// A feedback that reads one observer, which it finds by a handle.
pub trait HasObserverHandle {
    /// The type of the observer.
    type Observer;

    /// The handle of the observer.
    spec fn observer_handle_spec(&self) -> Handle<Self::Observer>;

    /// The handle of the observer.
    fn observer_handle(&self) -> (handle: &Handle<Self::Observer>)
        ensures
            *handle == self.observer_handle_spec(),
    ;
}

/// A boolean connective together with its evaluation policy: the operator that combines
/// two verdicts, and the rule that says when the second feedback runs.
pub trait Connective: Sized {
    /// The boolean operator.
    spec fn operator(first: bool, second: bool) -> bool;

    /// Whether the second feedback runs once the first has given the verdict `first`.
    spec fn runs_second(first: bool) -> bool;

    /// Where the second feedback does not run, its verdict could not have changed the result.
    proof fn lemma_skipped_verdict_is_irrelevant(first: bool, b1: bool, b2: bool)
        ensures
            !Self::runs_second(first) ==> Self::operator(first, b1) == Self::operator(first, b2),
    ;
}

/// What evaluating a pair of feedbacks leaves behind.
pub struct PairOutcome<A, B, S> {
    /// The first feedback after the call.
    pub first: A,
    /// The second feedback after the call.
    pub second: B,
    /// The state after the call.
    pub state: S,
    /// The verdict of the pair.
    pub result: Result<bool, ErrorView>,
}

/// What happened while a pair of feedbacks was evaluated: what each of them has left
/// behind. The entry of a feedback that did not run says nothing.
pub struct PairTrace<A, B, S> {
    /// What the first feedback left behind.
    pub first: Outcome<A, S, Result<bool, ErrorView>>,
    /// What the second feedback left behind, where it ran.
    pub second: Outcome<B, S, Result<bool, ErrorView>>,
}

/// Whether a combinator may evaluate a pair of feedbacks as `trace` says, and leave
/// `outcome` behind, where `J` is the way in which each verdict is got: the first always
/// runs; the second runs where
/// [`Connective::runs_second`] says so for the first verdict, on the state that the first
/// has left; the verdict is [`Connective::operator`] of the two. An error of either ends
/// the evaluation. Where the second does not run, it is left as it was, and the
/// operator's value cannot depend on its verdict.
pub open spec fn pair_follows<FL: Connective, J: Judgement<A, EM, I, OT, S> + Judgement<B, EM, I, OT, S>, EM, I, OT, S, A, B>(
    first: A,
    second: B,
    state: Session<S, EM>,
    input: I,
    observers: OT,
    exit_kind: ExitKind,
    trace: PairTrace<A, B, Session<S, EM>>,
    outcome: PairOutcome<A, B, Session<S, EM>>,
) -> bool {
    let a = trace.first;
    let b = trace.second;
    &&& <J as Judgement<A, EM, I, OT, S>>::judged_by(first, state, input, observers, exit_kind, a)
    &&& match a.result {
        Err(e) => outcome == (PairOutcome {
            first: a.feedback,
            second,
            state: a.state,
            result: Err(e),
        }),
        Ok(va) => if FL::runs_second(va) {
            &&& <J as Judgement<B, EM, I, OT, S>>::judged_by(
                second,
                a.state,
                input,
                observers,
                exit_kind,
                b,
            )
            &&& outcome == (PairOutcome {
                first: a.feedback,
                second: b.feedback,
                state: b.state,
                result: match b.result {
                    Err(e) => Err(e),
                    Ok(vb) => Ok(FL::operator(va, vb)),
                },
            })
        } else {
            outcome == (PairOutcome {
                first: a.feedback,
                second,
                state: a.state,
                result: Ok(FL::operator(va, false)),
            })
        },
    }
}

/// Whether a combinator may leave `outcome` behind when it evaluates a pair of feedbacks.
pub open spec fn pair_judged<FL: Connective, J: Judgement<A, EM, I, OT, S> + Judgement<B, EM, I, OT, S>, EM, I, OT, S, A, B>(
    first: A,
    second: B,
    state: Session<S, EM>,
    input: I,
    observers: OT,
    exit_kind: ExitKind,
    outcome: PairOutcome<A, B, Session<S, EM>>,
) -> bool {
    exists|trace: PairTrace<A, B, Session<S, EM>>| #[trigger]
        pair_follows::<FL, J, EM, I, OT, S, A, B>(
            first,
            second,
            state,
            input,
            observers,
            exit_kind,
            trace,
            outcome,
        )
}

/// The last verdict of a pair, from the last verdicts of its two feedbacks: the second
/// one is looked at only where it had to run.
pub open spec fn pair_last_result<FL: Connective>(
    first: Result<bool, ErrorView>,
    second: Result<bool, ErrorView>,
) -> Result<bool, ErrorView> {
    match first {
        Err(e) => Err(e),
        Ok(va) => if FL::runs_second(va) {
            match second {
                Err(e) => Err(e),
                Ok(vb) => Ok(FL::operator(va, vb)),
            }
        } else {
            Ok(FL::operator(va, false))
        },
    }
}

/// No name, and the given error.
pub open spec fn failed_hits(e: ErrorView) -> Hits {
    Hits { names: Seq::empty(), result: Err(e) }
}

/// No name, and success.
pub open spec fn no_hits() -> Hits {
    Hits { names: Seq::empty(), result: Ok(()) }
}

/// The hits of the first, then those of the second, unless the first failed.
pub open spec fn both_hits(first: Hits, second: Hits) -> Hits {
    match first.result {
        Err(e) => first,
        Ok(_) => Hits { names: first.names + second.names, result: second.result },
    }
}

/// The hits of a disjunction: those of the first feedback whose last verdict was true.
pub open spec fn or_hits(
    first_result: Result<bool, ErrorView>,
    first_hits: Hits,
    second_result: Result<bool, ErrorView>,
    second_hits: Hits,
) -> Hits {
    match first_result {
        Err(e) => failed_hits(e),
        Ok(true) => first_hits,
        Ok(false) => match second_result {
            Err(e) => failed_hits(e),
            Ok(true) => second_hits,
            Ok(false) => no_hits(),
        },
    }
}

/// The hits of an eager conjunction: those of both feedbacks where the last verdicts of
/// both were true; both verdicts are looked at.
pub open spec fn eager_and_hits(
    first_result: Result<bool, ErrorView>,
    first_hits: Hits,
    second_result: Result<bool, ErrorView>,
    second_hits: Hits,
) -> Hits {
    match first_result {
        Err(e) => failed_hits(e),
        Ok(va) => match second_result {
            Err(e) => failed_hits(e),
            Ok(vb) => if va && vb {
                both_hits(first_hits, second_hits)
            } else {
                no_hits()
            },
        },
    }
}

/// The hits of a fast conjunction: those of both feedbacks where the last verdicts of
/// both were true; the second verdict is looked at only where the first was true.
pub open spec fn fast_and_hits(
    first_result: Result<bool, ErrorView>,
    first_hits: Hits,
    second_result: Result<bool, ErrorView>,
    second_hits: Hits,
) -> Hits {
    match first_result {
        Err(e) => failed_hits(e),
        Ok(false) => no_hits(),
        Ok(true) => match second_result {
            Err(e) => failed_hits(e),
            Ok(true) => both_hits(first_hits, second_hits),
            Ok(false) => no_hits(),
        },
    }
}

/// What a feedback reports: by itself, or under a negation.
pub open spec fn reported<EM, I, OT, S, F: Feedback<EM, I, OT, S>>(feedback: F, negated: bool) -> Hits {
    if negated {
        feedback.negated_hit_feedbacks_spec()
    } else {
        feedback.hit_feedbacks_spec()
    }
}

/// The opposite verdict; an error stays what it is.
pub fn invert_verdict(verdict: Result<bool, Error>) -> (r: Result<bool, Error>)
    ensures
        result_view(r) == inverted(result_view(verdict)),
{
    match verdict {
        Ok(v) => Ok(!v),
        Err(e) => Err(e),
    }
}

/// Appends what `feedback` reports, by itself or under a negation.
fn append_reported<EM, I, OT, S, F: Feedback<EM, I, OT, S>>(feedback: &F, negated: bool, list: &mut Vec<String>) -> (r:
    Result<(), Error>)
    ensures
        names_of(final(list)@) == names_of(old(list)@) + reported(*feedback, negated).names,
        result_view(r) == reported(*feedback, negated).result,
{
    if negated {
        feedback.append_negated_hit_feedbacks(list)
    } else {
        feedback.append_hit_feedbacks(list)
    }
}

/// Appends what `first` reports, then what `second` reports.
fn append_both<EM, I, OT, S, A: Feedback<EM, I, OT, S>, B: Feedback<EM, I, OT, S>>(
    first: &A,
    second: &B,
    negated: bool,
    list: &mut Vec<String>,
) -> (r: Result<(), Error>)
    ensures
        names_of(final(list)@) == names_of(old(list)@) + both_hits(
            reported(*first, negated),
            reported(*second, negated),
        ).names,
        result_view(r) == both_hits(reported(*first, negated), reported(*second, negated)).result,
{
    append_reported(first, negated, list)?;
    let r = append_reported(second, negated, list);
    assert(names_of(old(list)@) + reported(*first, negated).names + reported(
        *second,
        negated,
    ).names =~= names_of(old(list)@) + (reported(*first, negated).names + reported(
        *second,
        negated,
    ).names));
    r
}

/// Appends the hits of a disjunction, as [`or_hits`] says.
fn append_or_hits<EM, I, OT, S, A: Feedback<EM, I, OT, S>, B: Feedback<EM, I, OT, S>>(
    first_result: Result<bool, Error>,
    first: &A,
    second_result: Result<bool, Error>,
    second: &B,
    negated: bool,
    list: &mut Vec<String>,
) -> (r: Result<(), Error>)
    ensures
        names_of(final(list)@) == names_of(old(list)@) + or_hits(
            result_view(first_result),
            reported(*first, negated),
            result_view(second_result),
            reported(*second, negated),
        ).names,
        result_view(r) == or_hits(
            result_view(first_result),
            reported(*first, negated),
            result_view(second_result),
            reported(*second, negated),
        ).result,
{
    proof {
        lemma_nothing_appended(list@);
    }
    if first_result? {
        append_reported(first, negated, list)
    } else if second_result? {
        append_reported(second, negated, list)
    } else {
        Ok(())
    }
}

/// Appends the hits of an eager conjunction, as [`eager_and_hits`] says.
fn append_eager_and_hits<EM, I, OT, S, A: Feedback<EM, I, OT, S>, B: Feedback<EM, I, OT, S>>(
    first_result: Result<bool, Error>,
    first: &A,
    second_result: Result<bool, Error>,
    second: &B,
    negated: bool,
    list: &mut Vec<String>,
) -> (r: Result<(), Error>)
    ensures
        names_of(final(list)@) == names_of(old(list)@) + eager_and_hits(
            result_view(first_result),
            reported(*first, negated),
            result_view(second_result),
            reported(*second, negated),
        ).names,
        result_view(r) == eager_and_hits(
            result_view(first_result),
            reported(*first, negated),
            result_view(second_result),
            reported(*second, negated),
        ).result,
{
    proof {
        lemma_nothing_appended(list@);
    }
    let a = first_result?;
    let b = second_result?;
    if a && b {
        append_both(first, second, negated, list)
    } else {
        Ok(())
    }
}

/// Appends the hits of a fast conjunction, as [`fast_and_hits`] says.
fn append_fast_and_hits<EM, I, OT, S, A: Feedback<EM, I, OT, S>, B: Feedback<EM, I, OT, S>>(
    first_result: Result<bool, Error>,
    first: &A,
    second_result: Result<bool, Error>,
    second: &B,
    negated: bool,
    list: &mut Vec<String>,
) -> (r: Result<(), Error>)
    ensures
        names_of(final(list)@) == names_of(old(list)@) + fast_and_hits(
            result_view(first_result),
            reported(*first, negated),
            result_view(second_result),
            reported(*second, negated),
        ).names,
        result_view(r) == fast_and_hits(
            result_view(first_result),
            reported(*first, negated),
            result_view(second_result),
            reported(*second, negated),
        ).result,
{
    proof {
        lemma_nothing_appended(list@);
    }
    if !first_result? {
        return Ok(());
    }
    if second_result? {
        append_both(first, second, negated, list)
    } else {
        Ok(())
    }
}

/// Leaves `list` as it is: the empty sequence of names is appended.
proof fn lemma_nothing_appended(list: Seq<String>)
    ensures
        names_of(list) + Seq::<Seq<char>>::empty() == names_of(list),
{
    assert(names_of(list) + Seq::<Seq<char>>::empty() =~= names_of(list));
}

/// The logic by which a [`CombinedFeedback`] combines its two feedbacks: it evaluates
/// them as its [`Connective`] says.
pub trait FeedbackLogic: Connective {
    /// The characters of the logic's name.
    spec fn name_view() -> Seq<char>;

    /// The name of the logic.
    fn name() -> (n: &'static str)
        ensures
            n@ == Self::name_view(),
    ;

    /// Evaluates the pair on one run, as [`pair_follows`] says, and gets each verdict in
    /// the way `J`.
    fn is_pair_interesting<J: Judgement<A, EM, I, OT, S> + Judgement<B, EM, I, OT, S>, EM, I, OT, S, A, B>(
        first: &mut A,
        second: &mut B,
        state: &mut S,
        manager: &mut EM,
        input: &I,
        observers: &OT,
        exit_kind: &ExitKind,
    ) -> (r: Result<bool, Error>)
        ensures
            pair_judged::<Self, J, EM, I, OT, S, A, B>(
                *old(first),
                *old(second),
                session(*old(state), *old(manager)),
                *input,
                *observers,
                *exit_kind,
                PairOutcome {
                    first: *final(first),
                    second: *final(second),
                    state: session(*final(state), *final(manager)),
                    result: result_view(r),
                },
            ),
    ;

    /// The last verdict of the pair, as [`pair_last_result`] says.
    fn last_result(first: Result<bool, Error>, second: Result<bool, Error>) -> (r: Result<bool, Error>)
        ensures
            result_view(r) == pair_last_result::<Self>(result_view(first), result_view(second)),
    ;

    /// Which hits the pair reports, from the last verdicts and the hits of its two feedbacks.
    spec fn pair_hits(
        first_result: Result<bool, ErrorView>,
        first_hits: Hits,
        second_result: Result<bool, ErrorView>,
        second_hits: Hits,
    ) -> Hits;

    /// Appends the hits of the pair to `list`.
    fn append_hit_feedbacks<EM, I, OT, S, A: Feedback<EM, I, OT, S>, B: Feedback<EM, I, OT, S>>(
        first_result: Result<bool, Error>,
        first: &A,
        second_result: Result<bool, Error>,
        second: &B,
        list: &mut Vec<String>,
    ) -> (r: Result<(), Error>)
        ensures
            names_of(final(list)@) == names_of(old(list)@) + Self::pair_hits(
                result_view(first_result),
                first.hit_feedbacks_spec(),
                result_view(second_result),
                second.hit_feedbacks_spec(),
            ).names,
            result_view(r) == Self::pair_hits(
                result_view(first_result),
                first.hit_feedbacks_spec(),
                result_view(second_result),
                second.hit_feedbacks_spec(),
            ).result,
    ;

    /// Which hits the pair reports under a negation, from the last verdicts of its two
    /// feedbacks and from what these report under a negation: the negation of a
    /// disjunction reports as the conjunction of the negations does, and the negation of
    /// a conjunction as their disjunction.
    spec fn negated_pair_hits(
        first_result: Result<bool, ErrorView>,
        first_hits: Hits,
        second_result: Result<bool, ErrorView>,
        second_hits: Hits,
    ) -> Hits;

    /// Appends to `list` the hits that the pair reports under a negation.
    fn append_negated_hit_feedbacks<EM, I, OT, S, A: Feedback<EM, I, OT, S>, B: Feedback<EM, I, OT, S>>(
        first_result: Result<bool, Error>,
        first: &A,
        second_result: Result<bool, Error>,
        second: &B,
        list: &mut Vec<String>,
    ) -> (r: Result<(), Error>)
        ensures
            names_of(final(list)@) == names_of(old(list)@) + Self::negated_pair_hits(
                result_view(first_result),
                first.negated_hit_feedbacks_spec(),
                result_view(second_result),
                second.negated_hit_feedbacks_spec(),
            ).names,
            result_view(r) == Self::negated_pair_hits(
                result_view(first_result),
                first.negated_hit_feedbacks_spec(),
                result_view(second_result),
                second.negated_hit_feedbacks_spec(),
            ).result,
    ;
}

/// Eager `OR`: both feedbacks run, whatever the first one says.
///
/// In hit attribution it behaves like [`LogicFastOr`]: where the first feedback was true
/// the second did not contribute to the verdict, so put the feedback that matters first.
#[derive(Debug, Clone, Copy)]
pub struct LogicEagerOr;

/// Fast `OR`: the second feedback runs only where the first one says no.
#[derive(Debug, Clone, Copy)]
pub struct LogicFastOr;

/// Eager `AND`: both feedbacks run, whatever the first one says.
#[derive(Debug, Clone, Copy)]
pub struct LogicEagerAnd;

/// Fast `AND`: the second feedback runs only where the first one says yes.
#[derive(Debug, Clone, Copy)]
pub struct LogicFastAnd;

impl Connective for LogicEagerOr {
    open spec fn operator(first: bool, second: bool) -> bool {
        first || second
    }

    open spec fn runs_second(first: bool) -> bool {
        true
    }

    proof fn lemma_skipped_verdict_is_irrelevant(first: bool, b1: bool, b2: bool) {
    }
}

impl FeedbackLogic for LogicEagerOr {
    open spec fn name_view() -> Seq<char> {
        "Eager OR"@
    }

    fn name() -> (n: &'static str) {
        "Eager OR"
    }

    fn is_pair_interesting<J: Judgement<A, EM, I, OT, S> + Judgement<B, EM, I, OT, S>, EM, I, OT, S, A, B>(
        first: &mut A,
        second: &mut B,
        state: &mut S,
        manager: &mut EM,
        input: &I,
        observers: &OT,
        exit_kind: &ExitKind,
    ) -> (r: Result<bool, Error>) {
        let ghost unsaid = arbitrary::<Outcome<B, Session<S, EM>, Result<bool, ErrorView>>>();
        let first_verdict = <J as Judgement<A, EM, I, OT, S>>::judge(
            first,
            state,
            manager,
            input,
            observers,
            exit_kind,
        );
        let ghost a = Outcome {
            feedback: *first,
            state: session(*state, *manager),
            result: result_view(first_verdict),
        };
        let va = match first_verdict {
            Ok(va) => va,
            Err(e) => {
                assert(pair_follows::<Self, J, EM, I, OT, S, A, B>(
                    *old(first),
                    *old(second),
                    session(*old(state), *old(manager)),
                    *input,
                    *observers,
                    *exit_kind,
                    PairTrace { first: a, second: unsaid },
                    PairOutcome {
                        first: *first,
                        second: *second,
                        state: session(*state, *manager),
                        result: Err(e@),
                    },
                ));
                return Err(e);
            },
        };
        let second_verdict = <J as Judgement<B, EM, I, OT, S>>::judge(
            second,
            state,
            manager,
            input,
            observers,
            exit_kind,
        );
        let ghost b = Outcome {
            feedback: *second,
            state: session(*state, *manager),
            result: result_view(second_verdict),
        };
        let verdict = match second_verdict {
            Ok(vb) => Ok(va || vb),
            Err(e) => Err(e),
        };
        assert(pair_follows::<Self, J, EM, I, OT, S, A, B>(
            *old(first),
            *old(second),
            session(*old(state), *old(manager)),
            *input,
            *observers,
            *exit_kind,
            PairTrace { first: a, second: b },
            PairOutcome {
                first: *first,
                second: *second,
                state: session(*state, *manager),
                result: result_view(verdict),
            },
        ));
        verdict
    }

    fn last_result(first: Result<bool, Error>, second: Result<bool, Error>) -> (r: Result<bool, Error>) {
        let a = first?;
        let b = second?;
        Ok(a || b)
    }

    open spec fn pair_hits(
        first_result: Result<bool, ErrorView>,
        first_hits: Hits,
        second_result: Result<bool, ErrorView>,
        second_hits: Hits,
    ) -> Hits {
        or_hits(first_result, first_hits, second_result, second_hits)
    }

    fn append_hit_feedbacks<EM, I, OT, S, A: Feedback<EM, I, OT, S>, B: Feedback<EM, I, OT, S>>(
        first_result: Result<bool, Error>,
        first: &A,
        second_result: Result<bool, Error>,
        second: &B,
        list: &mut Vec<String>,
    ) -> (r: Result<(), Error>) {
        append_or_hits(first_result, first, second_result, second, false, list)
    }

    open spec fn negated_pair_hits(
        first_result: Result<bool, ErrorView>,
        first_hits: Hits,
        second_result: Result<bool, ErrorView>,
        second_hits: Hits,
    ) -> Hits {
        eager_and_hits(inverted(first_result), first_hits, inverted(second_result), second_hits)
    }

    fn append_negated_hit_feedbacks<EM, I, OT, S, A: Feedback<EM, I, OT, S>, B: Feedback<EM, I, OT, S>>(
        first_result: Result<bool, Error>,
        first: &A,
        second_result: Result<bool, Error>,
        second: &B,
        list: &mut Vec<String>,
    ) -> (r: Result<(), Error>) {
        append_eager_and_hits(
            invert_verdict(first_result),
            first,
            invert_verdict(second_result),
            second,
            true,
            list,
        )
    }
}

impl Connective for LogicFastOr {
    open spec fn operator(first: bool, second: bool) -> bool {
        first || second
    }

    open spec fn runs_second(first: bool) -> bool {
        !first
    }

    proof fn lemma_skipped_verdict_is_irrelevant(first: bool, b1: bool, b2: bool) {
    }
}

impl FeedbackLogic for LogicFastOr {
    open spec fn name_view() -> Seq<char> {
        "Fast OR"@
    }

    fn name() -> (n: &'static str) {
        "Fast OR"
    }

    fn is_pair_interesting<J: Judgement<A, EM, I, OT, S> + Judgement<B, EM, I, OT, S>, EM, I, OT, S, A, B>(
        first: &mut A,
        second: &mut B,
        state: &mut S,
        manager: &mut EM,
        input: &I,
        observers: &OT,
        exit_kind: &ExitKind,
    ) -> (r: Result<bool, Error>) {
        let ghost unsaid = arbitrary::<Outcome<B, Session<S, EM>, Result<bool, ErrorView>>>();
        let first_verdict = <J as Judgement<A, EM, I, OT, S>>::judge(
            first,
            state,
            manager,
            input,
            observers,
            exit_kind,
        );
        let ghost a = Outcome {
            feedback: *first,
            state: session(*state, *manager),
            result: result_view(first_verdict),
        };
        let va = match first_verdict {
            Ok(va) => va,
            Err(e) => {
                assert(pair_follows::<Self, J, EM, I, OT, S, A, B>(
                    *old(first),
                    *old(second),
                    session(*old(state), *old(manager)),
                    *input,
                    *observers,
                    *exit_kind,
                    PairTrace { first: a, second: unsaid },
                    PairOutcome {
                        first: *first,
                        second: *second,
                        state: session(*state, *manager),
                        result: Err(e@),
                    },
                ));
                return Err(e);
            },
        };
        if va {
            assert(pair_follows::<Self, J, EM, I, OT, S, A, B>(
                *old(first),
                *old(second),
                session(*old(state), *old(manager)),
                *input,
                *observers,
                *exit_kind,
                PairTrace { first: a, second: unsaid },
                PairOutcome {
                    first: *first,
                    second: *second,
                    state: session(*state, *manager),
                    result: Ok(true),
                },
            ));
            return Ok(true);
        }
        let second_verdict = <J as Judgement<B, EM, I, OT, S>>::judge(
            second,
            state,
            manager,
            input,
            observers,
            exit_kind,
        );
        let ghost b = Outcome {
            feedback: *second,
            state: session(*state, *manager),
            result: result_view(second_verdict),
        };
        let verdict = match second_verdict {
            Ok(vb) => Ok(vb),
            Err(e) => Err(e),
        };
        assert(pair_follows::<Self, J, EM, I, OT, S, A, B>(
            *old(first),
            *old(second),
            session(*old(state), *old(manager)),
            *input,
            *observers,
            *exit_kind,
            PairTrace { first: a, second: b },
            PairOutcome {
                first: *first,
                second: *second,
                state: session(*state, *manager),
                result: result_view(verdict),
            },
        ));
        verdict
    }

    fn last_result(first: Result<bool, Error>, second: Result<bool, Error>) -> (r: Result<bool, Error>) {
        let a = first?;
        if a {
            return Ok(true);
        }
        second
    }

    open spec fn pair_hits(
        first_result: Result<bool, ErrorView>,
        first_hits: Hits,
        second_result: Result<bool, ErrorView>,
        second_hits: Hits,
    ) -> Hits {
        or_hits(first_result, first_hits, second_result, second_hits)
    }

    fn append_hit_feedbacks<EM, I, OT, S, A: Feedback<EM, I, OT, S>, B: Feedback<EM, I, OT, S>>(
        first_result: Result<bool, Error>,
        first: &A,
        second_result: Result<bool, Error>,
        second: &B,
        list: &mut Vec<String>,
    ) -> (r: Result<(), Error>) {
        append_or_hits(first_result, first, second_result, second, false, list)
    }

    open spec fn negated_pair_hits(
        first_result: Result<bool, ErrorView>,
        first_hits: Hits,
        second_result: Result<bool, ErrorView>,
        second_hits: Hits,
    ) -> Hits {
        fast_and_hits(inverted(first_result), first_hits, inverted(second_result), second_hits)
    }

    fn append_negated_hit_feedbacks<EM, I, OT, S, A: Feedback<EM, I, OT, S>, B: Feedback<EM, I, OT, S>>(
        first_result: Result<bool, Error>,
        first: &A,
        second_result: Result<bool, Error>,
        second: &B,
        list: &mut Vec<String>,
    ) -> (r: Result<(), Error>) {
        append_fast_and_hits(
            invert_verdict(first_result),
            first,
            invert_verdict(second_result),
            second,
            true,
            list,
        )
    }
}

impl Connective for LogicEagerAnd {
    open spec fn operator(first: bool, second: bool) -> bool {
        first && second
    }

    open spec fn runs_second(first: bool) -> bool {
        true
    }

    proof fn lemma_skipped_verdict_is_irrelevant(first: bool, b1: bool, b2: bool) {
    }
}

impl FeedbackLogic for LogicEagerAnd {
    open spec fn name_view() -> Seq<char> {
        "Eager AND"@
    }

    fn name() -> (n: &'static str) {
        "Eager AND"
    }

    fn is_pair_interesting<J: Judgement<A, EM, I, OT, S> + Judgement<B, EM, I, OT, S>, EM, I, OT, S, A, B>(
        first: &mut A,
        second: &mut B,
        state: &mut S,
        manager: &mut EM,
        input: &I,
        observers: &OT,
        exit_kind: &ExitKind,
    ) -> (r: Result<bool, Error>) {
        let ghost unsaid = arbitrary::<Outcome<B, Session<S, EM>, Result<bool, ErrorView>>>();
        let first_verdict = <J as Judgement<A, EM, I, OT, S>>::judge(
            first,
            state,
            manager,
            input,
            observers,
            exit_kind,
        );
        let ghost a = Outcome {
            feedback: *first,
            state: session(*state, *manager),
            result: result_view(first_verdict),
        };
        let va = match first_verdict {
            Ok(va) => va,
            Err(e) => {
                assert(pair_follows::<Self, J, EM, I, OT, S, A, B>(
                    *old(first),
                    *old(second),
                    session(*old(state), *old(manager)),
                    *input,
                    *observers,
                    *exit_kind,
                    PairTrace { first: a, second: unsaid },
                    PairOutcome {
                        first: *first,
                        second: *second,
                        state: session(*state, *manager),
                        result: Err(e@),
                    },
                ));
                return Err(e);
            },
        };
        let second_verdict = <J as Judgement<B, EM, I, OT, S>>::judge(
            second,
            state,
            manager,
            input,
            observers,
            exit_kind,
        );
        let ghost b = Outcome {
            feedback: *second,
            state: session(*state, *manager),
            result: result_view(second_verdict),
        };
        let verdict = match second_verdict {
            Ok(vb) => Ok(va && vb),
            Err(e) => Err(e),
        };
        assert(pair_follows::<Self, J, EM, I, OT, S, A, B>(
            *old(first),
            *old(second),
            session(*old(state), *old(manager)),
            *input,
            *observers,
            *exit_kind,
            PairTrace { first: a, second: b },
            PairOutcome {
                first: *first,
                second: *second,
                state: session(*state, *manager),
                result: result_view(verdict),
            },
        ));
        verdict
    }

    fn last_result(first: Result<bool, Error>, second: Result<bool, Error>) -> (r: Result<bool, Error>) {
        let a = first?;
        let b = second?;
        Ok(a && b)
    }

    open spec fn pair_hits(
        first_result: Result<bool, ErrorView>,
        first_hits: Hits,
        second_result: Result<bool, ErrorView>,
        second_hits: Hits,
    ) -> Hits {
        eager_and_hits(first_result, first_hits, second_result, second_hits)
    }

    fn append_hit_feedbacks<EM, I, OT, S, A: Feedback<EM, I, OT, S>, B: Feedback<EM, I, OT, S>>(
        first_result: Result<bool, Error>,
        first: &A,
        second_result: Result<bool, Error>,
        second: &B,
        list: &mut Vec<String>,
    ) -> (r: Result<(), Error>) {
        append_eager_and_hits(first_result, first, second_result, second, false, list)
    }

    open spec fn negated_pair_hits(
        first_result: Result<bool, ErrorView>,
        first_hits: Hits,
        second_result: Result<bool, ErrorView>,
        second_hits: Hits,
    ) -> Hits {
        or_hits(inverted(first_result), first_hits, inverted(second_result), second_hits)
    }

    fn append_negated_hit_feedbacks<EM, I, OT, S, A: Feedback<EM, I, OT, S>, B: Feedback<EM, I, OT, S>>(
        first_result: Result<bool, Error>,
        first: &A,
        second_result: Result<bool, Error>,
        second: &B,
        list: &mut Vec<String>,
    ) -> (r: Result<(), Error>) {
        append_or_hits(
            invert_verdict(first_result),
            first,
            invert_verdict(second_result),
            second,
            true,
            list,
        )
    }
}

impl Connective for LogicFastAnd {
    open spec fn operator(first: bool, second: bool) -> bool {
        first && second
    }

    open spec fn runs_second(first: bool) -> bool {
        first
    }

    proof fn lemma_skipped_verdict_is_irrelevant(first: bool, b1: bool, b2: bool) {
    }
}

impl FeedbackLogic for LogicFastAnd {
    open spec fn name_view() -> Seq<char> {
        "Fast AND"@
    }

    fn name() -> (n: &'static str) {
        "Fast AND"
    }

    fn is_pair_interesting<J: Judgement<A, EM, I, OT, S> + Judgement<B, EM, I, OT, S>, EM, I, OT, S, A, B>(
        first: &mut A,
        second: &mut B,
        state: &mut S,
        manager: &mut EM,
        input: &I,
        observers: &OT,
        exit_kind: &ExitKind,
    ) -> (r: Result<bool, Error>) {
        let ghost unsaid = arbitrary::<Outcome<B, Session<S, EM>, Result<bool, ErrorView>>>();
        let first_verdict = <J as Judgement<A, EM, I, OT, S>>::judge(
            first,
            state,
            manager,
            input,
            observers,
            exit_kind,
        );
        let ghost a = Outcome {
            feedback: *first,
            state: session(*state, *manager),
            result: result_view(first_verdict),
        };
        let va = match first_verdict {
            Ok(va) => va,
            Err(e) => {
                assert(pair_follows::<Self, J, EM, I, OT, S, A, B>(
                    *old(first),
                    *old(second),
                    session(*old(state), *old(manager)),
                    *input,
                    *observers,
                    *exit_kind,
                    PairTrace { first: a, second: unsaid },
                    PairOutcome {
                        first: *first,
                        second: *second,
                        state: session(*state, *manager),
                        result: Err(e@),
                    },
                ));
                return Err(e);
            },
        };
        if !va {
            assert(pair_follows::<Self, J, EM, I, OT, S, A, B>(
                *old(first),
                *old(second),
                session(*old(state), *old(manager)),
                *input,
                *observers,
                *exit_kind,
                PairTrace { first: a, second: unsaid },
                PairOutcome {
                    first: *first,
                    second: *second,
                    state: session(*state, *manager),
                    result: Ok(false),
                },
            ));
            return Ok(false);
        }
        let second_verdict = <J as Judgement<B, EM, I, OT, S>>::judge(
            second,
            state,
            manager,
            input,
            observers,
            exit_kind,
        );
        let ghost b = Outcome {
            feedback: *second,
            state: session(*state, *manager),
            result: result_view(second_verdict),
        };
        let verdict = match second_verdict {
            Ok(vb) => Ok(vb),
            Err(e) => Err(e),
        };
        assert(pair_follows::<Self, J, EM, I, OT, S, A, B>(
            *old(first),
            *old(second),
            session(*old(state), *old(manager)),
            *input,
            *observers,
            *exit_kind,
            PairTrace { first: a, second: b },
            PairOutcome {
                first: *first,
                second: *second,
                state: session(*state, *manager),
                result: result_view(verdict),
            },
        ));
        verdict
    }

    fn last_result(first: Result<bool, Error>, second: Result<bool, Error>) -> (r: Result<bool, Error>) {
        let a = first?;
        if !a {
            return Ok(false);
        }
        second
    }

    open spec fn pair_hits(
        first_result: Result<bool, ErrorView>,
        first_hits: Hits,
        second_result: Result<bool, ErrorView>,
        second_hits: Hits,
    ) -> Hits {
        fast_and_hits(first_result, first_hits, second_result, second_hits)
    }

    fn append_hit_feedbacks<EM, I, OT, S, A: Feedback<EM, I, OT, S>, B: Feedback<EM, I, OT, S>>(
        first_result: Result<bool, Error>,
        first: &A,
        second_result: Result<bool, Error>,
        second: &B,
        list: &mut Vec<String>,
    ) -> (r: Result<(), Error>) {
        append_fast_and_hits(first_result, first, second_result, second, false, list)
    }

    open spec fn negated_pair_hits(
        first_result: Result<bool, ErrorView>,
        first_hits: Hits,
        second_result: Result<bool, ErrorView>,
        second_hits: Hits,
    ) -> Hits {
        or_hits(inverted(first_result), first_hits, inverted(second_result), second_hits)
    }

    fn append_negated_hit_feedbacks<EM, I, OT, S, A: Feedback<EM, I, OT, S>, B: Feedback<EM, I, OT, S>>(
        first_result: Result<bool, Error>,
        first: &A,
        second_result: Result<bool, Error>,
        second: &B,
        list: &mut Vec<String>,
    ) -> (r: Result<(), Error>) {
        append_or_hits(
            invert_verdict(first_result),
            first,
            invert_verdict(second_result),
            second,
            true,
            list,
        )
    }
}

/// The name of a combined feedback: the logic's name, then the names of the two feedbacks
/// in round brackets, separated by a comma.
pub open spec fn combined_name(logic: Seq<char>, first: Seq<char>, second: Seq<char>) -> Seq<char> {
    logic + " ("@ + first + ","@ + second + ")"@
}

/// Two feedbacks combined by the logic `FL`.
#[derive(Debug)]
pub struct CombinedFeedback<A, B, FL> {
    /// The feedback that runs first.
    pub first: A,
    /// The feedback that runs second, where the logic lets it run.
    pub second: B,
    /// The name of the combination.
    pub name: String,
    /// The logic.
    pub phantom: PhantomData<FL>,
}

impl<A, B, FL> Named for CombinedFeedback<A, B, FL> {
    open spec fn name_view(&self) -> Seq<char> {
        self.name@
    }

    fn name(&self) -> (n: &str) {
        self.name.as_str()
    }
}

impl<A: Named, B: Named, FL: FeedbackLogic> CombinedFeedback<A, B, FL> {
    /// Combines `first` and `second`, and names the combination after them.
    pub fn new(first: A, second: B) -> (r: Self)
        ensures
            r.first == first,
            r.second == second,
            r.name@ == combined_name(FL::name_view(), first.name_view(), second.name_view()),
    {
        let mut name = FL::name().to_owned();
        name.append(" (");
        name.append(first.name());
        name.append(",");
        name.append(second.name());
        name.append(")");
        CombinedFeedback { first, second, name, phantom: PhantomData }
    }
}

impl<A, B, FL> CombinedFeedback<A, B, FL> {
    /// This combination with other feedbacks in the place of its two.
    pub open spec fn with_children(self, first: A, second: B) -> Self {
        CombinedFeedback { first, second, name: self.name, phantom: self.phantom }
    }
}

/// Whether two feedbacks may do one after the other what `first_does` and
/// `second_does` say: the first on `state`, leaving `middle` behind; then, unless the
/// first has failed, the second on the state that the first has left. `after` is what
/// the two leave behind.
pub open spec fn in_turn<A, B, S>(
    second: B,
    first_does: bool,
    middle: Outcome<A, S, Result<(), ErrorView>>,
    second_does: bool,
    after: Outcome<(A, B), S, Result<(), ErrorView>>,
) -> bool {
    &&& first_does
    &&& after.feedback.0 == middle.feedback
    &&& match middle.result {
        Err(e) => after.feedback.1 == second && after.state == middle.state && after.result
            == Err::<(), ErrorView>(e),
        Ok(_) => second_does,
    }
}

impl<EM, I, OT, S, A: Feedback<EM, I, OT, S>, B: Feedback<EM, I, OT, S>, FL: FeedbackLogic> Feedback<EM, I, OT, S> for CombinedFeedback<A, B, FL> {
    /// The first feedback, then the second one on the state that the first has left;
    /// an error of the first keeps the second from running.
    open spec fn init_states(self, state: S, outcome: Outcome<Self, S, Result<(), ErrorView>>) -> bool {
        &&& outcome.feedback == self.with_children(outcome.feedback.first, outcome.feedback.second)
        &&& exists|middle: Outcome<A, S, Result<(), ErrorView>>|
            in_turn(
                self.second,
                #[trigger] self.first.init_states(state, middle),
                middle,
                self.second.init_states(
                    middle.state,
                    Outcome {
                        feedback: outcome.feedback.second,
                        state: outcome.state,
                        result: outcome.result,
                    },
                ),
                Outcome {
                    feedback: (outcome.feedback.first, outcome.feedback.second),
                    state: outcome.state,
                    result: outcome.result,
                },
            )
    }

    fn init_state(&mut self, state: &mut S) -> (r: Result<(), Error>) {
        let first = self.first.init_state(state);
        let ghost middle = Outcome {
            feedback: self.first,
            state: *state,
            result: result_view(first),
        };
        assert(old(self).first.init_states(*old(state), middle));
        match first {
            Ok(_) => self.second.init_state(state),
            Err(e) => Err(e),
        }
    }

    open spec fn judges(
        self,
        state: Session<S, EM>,
        input: I,
        observers: OT,
        exit_kind: ExitKind,
        outcome: Outcome<Self, Session<S, EM>, Result<bool, ErrorView>>,
    ) -> bool {
        &&& outcome.feedback == self.with_children(outcome.feedback.first, outcome.feedback.second)
        &&& pair_judged::<FL, Untimed, EM, I, OT, S, A, B>(
            self.first,
            self.second,
            state,
            input,
            observers,
            exit_kind,
            PairOutcome {
                first: outcome.feedback.first,
                second: outcome.feedback.second,
                state: outcome.state,
                result: outcome.result,
            },
        )
    }

    fn is_interesting(
        &mut self,
        state: &mut S,
        manager: &mut EM,
        input: &I,
        observers: &OT,
        exit_kind: &ExitKind,
    ) -> (r: Result<bool, Error>) {
        FL::is_pair_interesting::<Untimed, EM, I, OT, S, A, B>(
            &mut self.first,
            &mut self.second,
            state,
            manager,
            input,
            observers,
            exit_kind,
        )
    }

    open spec fn last_result_spec(&self) -> Result<bool, ErrorView> {
        pair_last_result::<FL>(self.first.last_result_spec(), self.second.last_result_spec())
    }

    fn last_result(&self) -> (r: Result<bool, Error>) {
        FL::last_result(self.first.last_result(), self.second.last_result())
    }

    open spec fn hit_feedbacks_spec(&self) -> Hits {
        FL::pair_hits(
            self.first.last_result_spec(),
            self.first.hit_feedbacks_spec(),
            self.second.last_result_spec(),
            self.second.hit_feedbacks_spec(),
        )
    }

    fn append_hit_feedbacks(&self, list: &mut Vec<String>) -> (r: Result<(), Error>) {
        FL::append_hit_feedbacks(
            self.first.last_result(),
            &self.first,
            self.second.last_result(),
            &self.second,
            list,
        )
    }

    open spec fn negated_hit_feedbacks_spec(&self) -> Hits {
        FL::negated_pair_hits(
            self.first.last_result_spec(),
            self.first.negated_hit_feedbacks_spec(),
            self.second.last_result_spec(),
            self.second.negated_hit_feedbacks_spec(),
        )
    }

    fn append_negated_hit_feedbacks(&self, list: &mut Vec<String>) -> (r: Result<(), Error>) {
        FL::append_negated_hit_feedbacks(
            self.first.last_result(),
            &self.first,
            self.second.last_result(),
            &self.second,
            list,
        )
    }

    /// The first feedback, then the second one on what the first has left; an error of
    /// the first keeps the second from running.
    open spec fn appends_metadata(
        self,
        state: Session<S, EM>,
        observers: OT,
        testcase: Testcase<I>,
        outcome: MetadataOutcome<Self, Session<S, EM>, I>,
    ) -> bool {
        &&& outcome.feedback == self.with_children(outcome.feedback.first, outcome.feedback.second)
        &&& exists|middle: MetadataOutcome<A, Session<S, EM>, I>|
            {
                &&& #[trigger] self.first.appends_metadata(state, observers, testcase, middle)
                &&& outcome.feedback.first == middle.feedback
                &&& match middle.result {
                    Err(e) => {
                        &&& outcome.feedback.second == self.second
                        &&& outcome.state == middle.state
                        &&& outcome.testcase == middle.testcase
                        &&& outcome.result == Err::<(), ErrorView>(e)
                    },
                    Ok(_) => self.second.appends_metadata(
                        middle.state,
                        observers,
                        middle.testcase,
                        MetadataOutcome {
                            feedback: outcome.feedback.second,
                            state: outcome.state,
                            testcase: outcome.testcase,
                            result: outcome.result,
                        },
                    ),
                }
            }
    }

    fn append_metadata(&mut self, state: &mut S, manager: &mut EM, observers: &OT, testcase: &mut Testcase<I>) -> (r:
        Result<(), Error>) {
        let first = self.first.append_metadata(state, manager, observers, testcase);
        let ghost middle = MetadataOutcome {
            feedback: self.first,
            state: session(*state, *manager),
            testcase: *testcase,
            result: result_view(first),
        };
        assert(old(self).first.appends_metadata(
            session(*old(state), *old(manager)),
            *observers,
            *old(testcase),
            middle,
        ));
        match first {
            Ok(_) => self.second.append_metadata(state, manager, observers, testcase),
            Err(e) => Err(e),
        }
    }

    /// The first feedback, then the second one on the state that the first has left;
    /// an error of the first keeps the second from running.
    open spec fn discards_metadata(
        self,
        state: S,
        input: I,
        outcome: Outcome<Self, S, Result<(), ErrorView>>,
    ) -> bool {
        &&& outcome.feedback == self.with_children(outcome.feedback.first, outcome.feedback.second)
        &&& exists|middle: Outcome<A, S, Result<(), ErrorView>>|
            in_turn(
                self.second,
                #[trigger] self.first.discards_metadata(state, input, middle),
                middle,
                self.second.discards_metadata(
                    middle.state,
                    input,
                    Outcome {
                        feedback: outcome.feedback.second,
                        state: outcome.state,
                        result: outcome.result,
                    },
                ),
                Outcome {
                    feedback: (outcome.feedback.first, outcome.feedback.second),
                    state: outcome.state,
                    result: outcome.result,
                },
            )
    }

    fn discard_metadata(&mut self, state: &mut S, input: &I) -> (r: Result<(), Error>) {
        let first = self.first.discard_metadata(state, input);
        let ghost middle = Outcome {
            feedback: self.first,
            state: *state,
            result: result_view(first),
        };
        assert(old(self).first.discards_metadata(*old(state), *input, middle));
        match first {
            Ok(_) => self.second.discard_metadata(state, input),
            Err(e) => Err(e),
        }
    }
}

/// Two feedbacks of which both must say yes; both always run.
pub type EagerAndFeedback<A, B> = CombinedFeedback<A, B, LogicEagerAnd>;

/// Two feedbacks of which both must say yes; the second runs only where it can still
/// change the verdict.
pub type FastAndFeedback<A, B> = CombinedFeedback<A, B, LogicFastAnd>;

/// Two feedbacks of which one must say yes; both always run.
pub type EagerOrFeedback<A, B> = CombinedFeedback<A, B, LogicEagerOr>;

/// Two feedbacks of which one must say yes; the second runs only where it can still
/// change the verdict. A second feedback that works by its side effects, such as
/// [`TimeFeedback`], needs the eager form.
pub type FastOrFeedback<A, B> = CombinedFeedback<A, B, LogicFastOr>;

/// The name of a negated feedback: `Not`, and the name of the feedback in round brackets.
pub open spec fn not_name(inner: Seq<char>) -> Seq<char> {
    "Not("@ + inner + ")"@
}

/// A feedback that says the opposite of another one.
#[derive(Debug)]
pub struct NotFeedback<A> {
    /// The feedback to invert.
    pub first: A,
    /// The name of the negation.
    pub name: String,
}

impl<A> Named for NotFeedback<A> {
    open spec fn name_view(&self) -> Seq<char> {
        self.name@
    }

    fn name(&self) -> (n: &str) {
        self.name.as_str()
    }
}

impl<A: Clone> Clone for NotFeedback<A> {
    /// A negation of the same name around a copy of the negated feedback.
    fn clone(&self) -> (r: Self)
        ensures
            vstd::pervasive::cloned::<A>(self.first, r.first),
            r.name@ == self.name@,
    {
        NotFeedback { first: self.first.clone(), name: self.name.clone() }
    }
}

impl<A: Named> NotFeedback<A> {
    /// The negation of `first`, named after it.
    pub fn new(first: A) -> (r: Self)
        ensures
            r.first == first,
            r.name@ == not_name(first.name_view()),
    {
        let mut name = "Not(".to_owned();
        name.append(first.name());
        name.append(")");
        NotFeedback { first, name }
    }
}

impl<A> NotFeedback<A> {
    /// This negation with another feedback in the place of its own.
    pub open spec fn with_child(self, first: A) -> Self {
        NotFeedback { first, name: self.name }
    }
}

/// The opposite verdict; an error stays what it is.
pub open spec fn inverted(verdict: Result<bool, ErrorView>) -> Result<bool, ErrorView> {
    match verdict {
        Ok(v) => Ok(!v),
        Err(e) => Err(e),
    }
}

impl<EM, I, OT, S, A: Feedback<EM, I, OT, S>> Feedback<EM, I, OT, S> for NotFeedback<A> {
    open spec fn init_states(self, state: S, outcome: Outcome<Self, S, Result<(), ErrorView>>) -> bool {
        &&& outcome.feedback == self.with_child(outcome.feedback.first)
        &&& self.first.init_states(
            state,
            Outcome {
                feedback: outcome.feedback.first,
                state: outcome.state,
                result: outcome.result,
            },
        )
    }

    fn init_state(&mut self, state: &mut S) -> (r: Result<(), Error>) {
        self.first.init_state(state)
    }

    /// The negated feedback runs, and its verdict is inverted.
    open spec fn judges(
        self,
        state: Session<S, EM>,
        input: I,
        observers: OT,
        exit_kind: ExitKind,
        outcome: Outcome<Self, Session<S, EM>, Result<bool, ErrorView>>,
    ) -> bool {
        &&& outcome.feedback == self.with_child(outcome.feedback.first)
        &&& self.first.judges(
            state,
            input,
            observers,
            exit_kind,
            Outcome {
                feedback: outcome.feedback.first,
                state: outcome.state,
                result: inverted(outcome.result),
            },
        )
    }

    fn is_interesting(
        &mut self,
        state: &mut S,
        manager: &mut EM,
        input: &I,
        observers: &OT,
        exit_kind: &ExitKind,
    ) -> (r: Result<bool, Error>) {
        let verdict = self.first.is_interesting(state, manager, input, observers, exit_kind);
        proof {
            lemma_inverted_twice(result_view(verdict));
        }
        match verdict {
            Ok(v) => Ok(!v),
            Err(e) => Err(e),
        }
    }

    open spec fn last_result_spec(&self) -> Result<bool, ErrorView> {
        inverted(self.first.last_result_spec())
    }

    fn last_result(&self) -> (r: Result<bool, Error>) {
        Ok(!self.first.last_result()?)
    }

    /// A negation reports what the feedback inside it reports under a negation.
    open spec fn hit_feedbacks_spec(&self) -> Hits {
        self.first.negated_hit_feedbacks_spec()
    }

    fn append_hit_feedbacks(&self, list: &mut Vec<String>) -> (r: Result<(), Error>) {
        self.first.append_negated_hit_feedbacks(list)
    }

    /// Under a negation, a negation reports what the feedback inside it reports by itself.
    open spec fn negated_hit_feedbacks_spec(&self) -> Hits {
        self.first.hit_feedbacks_spec()
    }

    fn append_negated_hit_feedbacks(&self, list: &mut Vec<String>) -> (r: Result<(), Error>) {
        self.first.append_hit_feedbacks(list)
    }

    open spec fn appends_metadata(
        self,
        state: Session<S, EM>,
        observers: OT,
        testcase: Testcase<I>,
        outcome: MetadataOutcome<Self, Session<S, EM>, I>,
    ) -> bool {
        &&& outcome.feedback == self.with_child(outcome.feedback.first)
        &&& self.first.appends_metadata(
            state,
            observers,
            testcase,
            MetadataOutcome {
                feedback: outcome.feedback.first,
                state: outcome.state,
                testcase: outcome.testcase,
                result: outcome.result,
            },
        )
    }

    fn append_metadata(&mut self, state: &mut S, manager: &mut EM, observers: &OT, testcase: &mut Testcase<I>) -> (r:
        Result<(), Error>) {
        self.first.append_metadata(state, manager, observers, testcase)
    }

    open spec fn discards_metadata(
        self,
        state: S,
        input: I,
        outcome: Outcome<Self, S, Result<(), ErrorView>>,
    ) -> bool {
        &&& outcome.feedback == self.with_child(outcome.feedback.first)
        &&& self.first.discards_metadata(
            state,
            input,
            Outcome {
                feedback: outcome.feedback.first,
                state: outcome.state,
                result: outcome.result,
            },
        )
    }

    fn discard_metadata(&mut self, state: &mut S, input: &I) -> (r: Result<(), Error>) {
        self.first.discard_metadata(state, input)
    }
}

/// To invert a verdict twice gives the verdict back.
pub proof fn lemma_inverted_twice(verdict: Result<bool, ErrorView>)
    ensures
        inverted(inverted(verdict)) == verdict,
{
}

/// Something that makes a feedback `F` for a context `T`, such as the observers of one
/// executor.
pub trait FeedbackFactory<F, T> {
    /// Whether this factory can make a feedback for `ctx`.
    spec fn can_create(&self, ctx: T) -> bool;

    /// Whether `feedback` is one that this factory may make for `ctx`.
    spec fn creates(&self, ctx: T, feedback: F) -> bool;

    /// Makes a feedback for `ctx`.
    fn create_feedback(&self, ctx: &T) -> (feedback: F)
        requires
            self.can_create(*ctx),
        ensures
            self.creates(*ctx, feedback),
    ;
}

/// A function from contexts to feedbacks is a factory: it makes what it returns, for the
/// contexts that it accepts.
impl<FE, FU: Fn(&T) -> FE, T> FeedbackFactory<FE, T> for FU {
    open spec fn can_create(&self, ctx: T) -> bool {
        call_requires(*self, (&ctx,))
    }

    open spec fn creates(&self, ctx: T, feedback: FE) -> bool {
        call_ensures(*self, (&ctx,), feedback)
    }

    fn create_feedback(&self, ctx: &T) -> (feedback: FE) {
        self(ctx)
    }
}

impl<A, B, FL, T> FeedbackFactory<CombinedFeedback<A, B, FL>, T> for CombinedFeedback<A, B, FL> where
    A: FeedbackFactory<A, T> + Named,
    B: FeedbackFactory<B, T> + Named,
    FL: FeedbackLogic,
 {
    open spec fn can_create(&self, ctx: T) -> bool {
        self.first.can_create(ctx) && self.second.can_create(ctx)
    }

    open spec fn creates(&self, ctx: T, feedback: CombinedFeedback<A, B, FL>) -> bool {
        &&& self.first.creates(ctx, feedback.first)
        &&& self.second.creates(ctx, feedback.second)
        &&& feedback.name@ == combined_name(
            FL::name_view(),
            feedback.first.name_view(),
            feedback.second.name_view(),
        )
    }

    fn create_feedback(&self, ctx: &T) -> (feedback: CombinedFeedback<A, B, FL>) {
        CombinedFeedback::new(self.first.create_feedback(ctx), self.second.create_feedback(ctx))
    }
}

/// A feedback that finds a run interesting where the harness crashed.
#[derive(Debug)]
pub struct CrashFeedback {
    /// The verdict of the last run, once there was one.
    pub last_result: Option<bool>,
}

impl Named for CrashFeedback {
    open spec fn name_view(&self) -> Seq<char> {
        "CrashFeedback"@
    }

    fn name(&self) -> (n: &str) {
        "CrashFeedback"
    }
}

impl CrashFeedback {
    /// A crash feedback that has judged no run yet.
    pub fn new() -> (r: Self)
        ensures
            r.last_result is None,
    {
        CrashFeedback { last_result: None }
    }

    /// The verdict on a run that ended as `exit_kind` says.
    pub open spec fn verdict(exit_kind: ExitKind) -> bool {
        exit_kind is Crash
    }
}

impl Default for CrashFeedback {
    fn default() -> (r: Self)
        ensures
            r.last_result is None,
    {
        CrashFeedback::new()
    }
}

impl Clone for CrashFeedback {
    fn clone(&self) -> (r: Self)
        ensures
            r == *self,
    {
        CrashFeedback { last_result: self.last_result }
    }
}

impl<EM, I, OT, S> Feedback<EM, I, OT, S> for CrashFeedback {
    open spec fn init_states(self, state: S, outcome: Outcome<Self, S, Result<(), ErrorView>>) -> bool {
        outcome == (Outcome { feedback: self, state, result: Ok::<(), ErrorView>(()) })
    }

    fn init_state(&mut self, state: &mut S) -> (r: Result<(), Error>) {
        Ok(())
    }

    open spec fn judges(
        self,
        state: Session<S, EM>,
        input: I,
        observers: OT,
        exit_kind: ExitKind,
        outcome: Outcome<Self, Session<S, EM>, Result<bool, ErrorView>>,
    ) -> bool {
        outcome == (Outcome {
            feedback: CrashFeedback { last_result: Some(Self::verdict(exit_kind)) },
            state,
            result: Ok::<bool, ErrorView>(Self::verdict(exit_kind)),
        })
    }

    fn is_interesting(
        &mut self,
        state: &mut S,
        manager: &mut EM,
        input: &I,
        observers: &OT,
        exit_kind: &ExitKind,
    ) -> (r: Result<bool, Error>) {
        let res = matches!(exit_kind, ExitKind::Crash);
        self.last_result = Some(res);
        Ok(res)
    }

    open spec fn last_result_spec(&self) -> Result<bool, ErrorView> {
        cached_verdict(self.last_result)
    }

    fn last_result(&self) -> (r: Result<bool, Error>) {
        read_cached_verdict(&self.last_result)
    }

    open spec fn hit_feedbacks_spec(&self) -> Hits {
        own_hit(cached_verdict(self.last_result), self.name_view())
    }

    fn append_hit_feedbacks(&self, list: &mut Vec<String>) -> (r: Result<(), Error>) {
        append_own_hit(read_cached_verdict(&self.last_result), self.name(), list)
    }

    open spec fn negated_hit_feedbacks_spec(&self) -> Hits {
        own_hit(inverted(cached_verdict(self.last_result)), self.name_view())
    }

    fn append_negated_hit_feedbacks(&self, list: &mut Vec<String>) -> (r: Result<(), Error>) {
        append_own_hit(invert_verdict(read_cached_verdict(&self.last_result)), self.name(), list)
    }

    open spec fn appends_metadata(
        self,
        state: Session<S, EM>,
        observers: OT,
        testcase: Testcase<I>,
        outcome: MetadataOutcome<Self, Session<S, EM>, I>,
    ) -> bool {
        outcome == (MetadataOutcome { feedback: self, state, testcase, result: Ok(()) })
    }

    fn append_metadata(&mut self, state: &mut S, manager: &mut EM, observers: &OT, testcase: &mut Testcase<I>) -> (r:
        Result<(), Error>) {
        Ok(())
    }

    open spec fn discards_metadata(
        self,
        state: S,
        input: I,
        outcome: Outcome<Self, S, Result<(), ErrorView>>,
    ) -> bool {
        outcome == (Outcome { feedback: self, state, result: Ok::<(), ErrorView>(()) })
    }

    fn discard_metadata(&mut self, state: &mut S, input: &I) -> (r: Result<(), Error>) {
        Ok(())
    }
}

impl<T> FeedbackFactory<CrashFeedback, T> for CrashFeedback {
    open spec fn can_create(&self, ctx: T) -> bool {
        true
    }

    open spec fn creates(&self, ctx: T, feedback: CrashFeedback) -> bool {
        feedback.last_result is None
    }

    fn create_feedback(&self, ctx: &T) -> (feedback: CrashFeedback) {
        CrashFeedback::new()
    }
}

/// A feedback that finds a run interesting where it was stopped by the watchdog.
#[derive(Debug)]
pub struct TimeoutFeedback {
    /// The verdict of the last run, once there was one.
    pub last_result: Option<bool>,
}

impl Named for TimeoutFeedback {
    open spec fn name_view(&self) -> Seq<char> {
        "TimeoutFeedback"@
    }

    fn name(&self) -> (n: &str) {
        "TimeoutFeedback"
    }
}

impl TimeoutFeedback {
    /// A timeout feedback that has judged no run yet.
    pub fn new() -> (r: Self)
        ensures
            r.last_result is None,
    {
        TimeoutFeedback { last_result: None }
    }

    /// The verdict on a run that ended as `exit_kind` says.
    pub open spec fn verdict(exit_kind: ExitKind) -> bool {
        exit_kind is Timeout
    }
}

impl Default for TimeoutFeedback {
    fn default() -> (r: Self)
        ensures
            r.last_result is None,
    {
        TimeoutFeedback::new()
    }
}

impl Clone for TimeoutFeedback {
    fn clone(&self) -> (r: Self)
        ensures
            r == *self,
    {
        TimeoutFeedback { last_result: self.last_result }
    }
}

impl<EM, I, OT, S> Feedback<EM, I, OT, S> for TimeoutFeedback {
    open spec fn init_states(self, state: S, outcome: Outcome<Self, S, Result<(), ErrorView>>) -> bool {
        outcome == (Outcome { feedback: self, state, result: Ok::<(), ErrorView>(()) })
    }

    fn init_state(&mut self, state: &mut S) -> (r: Result<(), Error>) {
        Ok(())
    }

    open spec fn judges(
        self,
        state: Session<S, EM>,
        input: I,
        observers: OT,
        exit_kind: ExitKind,
        outcome: Outcome<Self, Session<S, EM>, Result<bool, ErrorView>>,
    ) -> bool {
        outcome == (Outcome {
            feedback: TimeoutFeedback { last_result: Some(Self::verdict(exit_kind)) },
            state,
            result: Ok::<bool, ErrorView>(Self::verdict(exit_kind)),
        })
    }

    fn is_interesting(
        &mut self,
        state: &mut S,
        manager: &mut EM,
        input: &I,
        observers: &OT,
        exit_kind: &ExitKind,
    ) -> (r: Result<bool, Error>) {
        let res = matches!(exit_kind, ExitKind::Timeout);
        self.last_result = Some(res);
        Ok(res)
    }

    open spec fn last_result_spec(&self) -> Result<bool, ErrorView> {
        cached_verdict(self.last_result)
    }

    fn last_result(&self) -> (r: Result<bool, Error>) {
        read_cached_verdict(&self.last_result)
    }

    open spec fn hit_feedbacks_spec(&self) -> Hits {
        own_hit(cached_verdict(self.last_result), self.name_view())
    }

    fn append_hit_feedbacks(&self, list: &mut Vec<String>) -> (r: Result<(), Error>) {
        append_own_hit(read_cached_verdict(&self.last_result), self.name(), list)
    }

    open spec fn negated_hit_feedbacks_spec(&self) -> Hits {
        own_hit(inverted(cached_verdict(self.last_result)), self.name_view())
    }

    fn append_negated_hit_feedbacks(&self, list: &mut Vec<String>) -> (r: Result<(), Error>) {
        append_own_hit(invert_verdict(read_cached_verdict(&self.last_result)), self.name(), list)
    }

    open spec fn appends_metadata(
        self,
        state: Session<S, EM>,
        observers: OT,
        testcase: Testcase<I>,
        outcome: MetadataOutcome<Self, Session<S, EM>, I>,
    ) -> bool {
        outcome == (MetadataOutcome { feedback: self, state, testcase, result: Ok(()) })
    }

    fn append_metadata(&mut self, state: &mut S, manager: &mut EM, observers: &OT, testcase: &mut Testcase<I>) -> (r:
        Result<(), Error>) {
        Ok(())
    }

    open spec fn discards_metadata(
        self,
        state: S,
        input: I,
        outcome: Outcome<Self, S, Result<(), ErrorView>>,
    ) -> bool {
        outcome == (Outcome { feedback: self, state, result: Ok::<(), ErrorView>(()) })
    }

    fn discard_metadata(&mut self, state: &mut S, input: &I) -> (r: Result<(), Error>) {
        Ok(())
    }
}

impl<T> FeedbackFactory<TimeoutFeedback, T> for TimeoutFeedback {
    open spec fn can_create(&self, ctx: T) -> bool {
        true
    }

    open spec fn creates(&self, ctx: T, feedback: TimeoutFeedback) -> bool {
        feedback.last_result is None
    }

    fn create_feedback(&self, ctx: &T) -> (feedback: TimeoutFeedback) {
        TimeoutFeedback::new()
    }
}

/// A feedback that finds a run interesting where the two sides of a differential
/// executor ended differently.
#[derive(Debug)]
pub struct DiffExitKindFeedback {
    /// The verdict of the last run, once there was one.
    pub last_result: Option<bool>,
}

impl Named for DiffExitKindFeedback {
    open spec fn name_view(&self) -> Seq<char> {
        "DiffExitKindFeedback"@
    }

    fn name(&self) -> (n: &str) {
        "DiffExitKindFeedback"
    }
}

impl DiffExitKindFeedback {
    /// A feedback on differing exit kinds that has judged no run yet.
    pub fn new() -> (r: Self)
        ensures
            r.last_result is None,
    {
        DiffExitKindFeedback { last_result: None }
    }

    /// The verdict on a run that ended as `exit_kind` says.
    pub open spec fn verdict(exit_kind: ExitKind) -> bool {
        exit_kind is Diff
    }
}

impl Default for DiffExitKindFeedback {
    fn default() -> (r: Self)
        ensures
            r.last_result is None,
    {
        DiffExitKindFeedback::new()
    }
}

impl Clone for DiffExitKindFeedback {
    fn clone(&self) -> (r: Self)
        ensures
            r == *self,
    {
        DiffExitKindFeedback { last_result: self.last_result }
    }
}

impl<EM, I, OT, S> Feedback<EM, I, OT, S> for DiffExitKindFeedback {
    open spec fn init_states(self, state: S, outcome: Outcome<Self, S, Result<(), ErrorView>>) -> bool {
        outcome == (Outcome { feedback: self, state, result: Ok::<(), ErrorView>(()) })
    }

    fn init_state(&mut self, state: &mut S) -> (r: Result<(), Error>) {
        Ok(())
    }

    open spec fn judges(
        self,
        state: Session<S, EM>,
        input: I,
        observers: OT,
        exit_kind: ExitKind,
        outcome: Outcome<Self, Session<S, EM>, Result<bool, ErrorView>>,
    ) -> bool {
        outcome == (Outcome {
            feedback: DiffExitKindFeedback { last_result: Some(Self::verdict(exit_kind)) },
            state,
            result: Ok::<bool, ErrorView>(Self::verdict(exit_kind)),
        })
    }

    fn is_interesting(
        &mut self,
        state: &mut S,
        manager: &mut EM,
        input: &I,
        observers: &OT,
        exit_kind: &ExitKind,
    ) -> (r: Result<bool, Error>) {
        let res = matches!(exit_kind, ExitKind::Diff { .. });
        self.last_result = Some(res);
        Ok(res)
    }

    open spec fn last_result_spec(&self) -> Result<bool, ErrorView> {
        cached_verdict(self.last_result)
    }

    fn last_result(&self) -> (r: Result<bool, Error>) {
        read_cached_verdict(&self.last_result)
    }

    open spec fn hit_feedbacks_spec(&self) -> Hits {
        own_hit(cached_verdict(self.last_result), self.name_view())
    }

    fn append_hit_feedbacks(&self, list: &mut Vec<String>) -> (r: Result<(), Error>) {
        append_own_hit(read_cached_verdict(&self.last_result), self.name(), list)
    }

    open spec fn negated_hit_feedbacks_spec(&self) -> Hits {
        own_hit(inverted(cached_verdict(self.last_result)), self.name_view())
    }

    fn append_negated_hit_feedbacks(&self, list: &mut Vec<String>) -> (r: Result<(), Error>) {
        append_own_hit(invert_verdict(read_cached_verdict(&self.last_result)), self.name(), list)
    }

    open spec fn appends_metadata(
        self,
        state: Session<S, EM>,
        observers: OT,
        testcase: Testcase<I>,
        outcome: MetadataOutcome<Self, Session<S, EM>, I>,
    ) -> bool {
        outcome == (MetadataOutcome { feedback: self, state, testcase, result: Ok(()) })
    }

    fn append_metadata(&mut self, state: &mut S, manager: &mut EM, observers: &OT, testcase: &mut Testcase<I>) -> (r:
        Result<(), Error>) {
        Ok(())
    }

    open spec fn discards_metadata(
        self,
        state: S,
        input: I,
        outcome: Outcome<Self, S, Result<(), ErrorView>>,
    ) -> bool {
        outcome == (Outcome { feedback: self, state, result: Ok::<(), ErrorView>(()) })
    }

    fn discard_metadata(&mut self, state: &mut S, input: &I) -> (r: Result<(), Error>) {
        Ok(())
    }
}

impl<T> FeedbackFactory<DiffExitKindFeedback, T> for DiffExitKindFeedback {
    open spec fn can_create(&self, ctx: T) -> bool {
        true
    }

    open spec fn creates(&self, ctx: T, feedback: DiffExitKindFeedback) -> bool {
        feedback.last_result is None
    }

    fn create_feedback(&self, ctx: &T) -> (feedback: DiffExitKindFeedback) {
        DiffExitKindFeedback::new()
    }
}

/// The message of the error that [`TimeFeedback`] gives where its observer is not among
/// the observers at hand.
pub open spec fn missing_time_observer_message() -> Seq<char> {
    "TimeFeedback: the time observer is not among the observers"@
}

/// The view of that error.
pub open spec fn missing_time_observer_view() -> ErrorView {
    ErrorView { kind: ErrorKind::UnknownObserver, message: missing_time_observer_message() }
}

/// A feedback that never finds a run interesting, and notes on a testcase that enters
/// the corpus how long the harness ran on it. Use it on the right of an eager `OR`.
#[derive(Debug)]
pub struct TimeFeedback {
    /// The handle of the [`TimeObserver`] that measures the run.
    pub observer_handle: Handle<TimeObserver>,
}

impl Named for TimeFeedback {
    open spec fn name_view(&self) -> Seq<char> {
        self.observer_handle.name_view()
    }

    fn name(&self) -> (n: &str) {
        self.observer_handle.name()
    }
}

impl TimeFeedback {
    /// A time feedback that reads the given observer.
    pub fn new(observer: &TimeObserver) -> (r: Self)
        ensures
            r.observer_handle.name_view() == observer.name_view(),
    {
        TimeFeedback { observer_handle: observer.handle() }
    }
}

impl Clone for TimeFeedback {
    fn clone(&self) -> (r: Self)
        ensures
            r.observer_handle.name_view() == self.observer_handle.name_view(),
    {
        TimeFeedback { observer_handle: self.observer_handle.clone() }
    }
}

impl<EM, I, OT: MatchNameRef<TimeObserver>, S> Feedback<EM, I, OT, S> for TimeFeedback {
    open spec fn init_states(self, state: S, outcome: Outcome<Self, S, Result<(), ErrorView>>) -> bool {
        outcome == (Outcome { feedback: self, state, result: Ok::<(), ErrorView>(()) })
    }

    fn init_state(&mut self, state: &mut S) -> (r: Result<(), Error>) {
        Ok(())
    }

    open spec fn judges(
        self,
        state: Session<S, EM>,
        input: I,
        observers: OT,
        exit_kind: ExitKind,
        outcome: Outcome<Self, Session<S, EM>, Result<bool, ErrorView>>,
    ) -> bool {
        outcome == (Outcome { feedback: self, state, result: Ok::<bool, ErrorView>(false) })
    }

    fn is_interesting(
        &mut self,
        state: &mut S,
        manager: &mut EM,
        input: &I,
        observers: &OT,
        exit_kind: &ExitKind,
    ) -> (r: Result<bool, Error>) {
        Ok(false)
    }

    open spec fn last_result_spec(&self) -> Result<bool, ErrorView> {
        Ok(false)
    }

    fn last_result(&self) -> (r: Result<bool, Error>) {
        Ok(false)
    }

    open spec fn hit_feedbacks_spec(&self) -> Hits {
        no_hits()
    }

    fn append_hit_feedbacks(&self, list: &mut Vec<String>) -> (r: Result<(), Error>) {
        proof {
            lemma_nothing_appended(list@);
        }
        Ok(())
    }

    /// The last verdict is always false, so under a negation the feedback always reports
    /// its name.
    open spec fn negated_hit_feedbacks_spec(&self) -> Hits {
        own_hit(Ok(true), self.name_view())
    }

    fn append_negated_hit_feedbacks(&self, list: &mut Vec<String>) -> (r: Result<(), Error>) {
        append_own_hit(Ok(true), self.name(), list)
    }

    /// The testcase gets the last run time of the observer that the handle resolves to;
    /// where it resolves to nothing, the call fails and the testcase stays as it is.
    open spec fn appends_metadata(
        self,
        state: Session<S, EM>,
        observers: OT,
        testcase: Testcase<I>,
        outcome: MetadataOutcome<Self, Session<S, EM>, I>,
    ) -> bool {
        outcome == (match observers.match_name(self.observer_handle.name_view()) {
            Some(observer) => MetadataOutcome {
                feedback: self,
                state,
                testcase: Testcase { input: testcase.input, exec_time: observer.last_runtime_spec() },
                result: Ok(()),
            },
            None => MetadataOutcome {
                feedback: self,
                state,
                testcase,
                result: Err(missing_time_observer_view()),
            },
        })
    }

    fn append_metadata(&mut self, state: &mut S, manager: &mut EM, observers: &OT, testcase: &mut Testcase<I>) -> (r:
        Result<(), Error>) {
        match observers.get(&self.observer_handle) {
            Some(observer) => {
                *testcase.exec_time_mut() = *observer.last_runtime();
                Ok(())
            },
            None => Err(
                Error::unknown_observer("TimeFeedback: the time observer is not among the observers"),
            ),
        }
    }

    open spec fn discards_metadata(
        self,
        state: S,
        input: I,
        outcome: Outcome<Self, S, Result<(), ErrorView>>,
    ) -> bool {
        outcome == (Outcome { feedback: self, state, result: Ok::<(), ErrorView>(()) })
    }

    fn discard_metadata(&mut self, state: &mut S, input: &I) -> (r: Result<(), Error>) {
        Ok(())
    }
}

/// A feedback that gives the same verdict on every run. It switches other feedbacks on
/// or off where it is combined with them.
#[derive(Clone, Copy, Debug, PartialEq, Eq, Structural)]
pub enum ConstFeedback {
    /// Finds every run interesting.
    True,
    /// Finds no run interesting.
    False,
}

impl Named for ConstFeedback {
    open spec fn name_view(&self) -> Seq<char> {
        "ConstFeedback"@
    }

    fn name(&self) -> (n: &str) {
        "ConstFeedback"
    }
}

impl ConstFeedback {
    /// The verdict that this feedback gives.
    pub open spec fn value(self) -> bool {
        self is True
    }

    /// The feedback that always gives the verdict `val`.
    pub fn new(val: bool) -> (r: Self)
        ensures
            r.value() == val,
    {
        ConstFeedback::from(val)
    }
}

impl From<bool> for ConstFeedback {
    fn from(val: bool) -> (r: Self) {
        if val {
            ConstFeedback::True
        } else {
            ConstFeedback::False
        }
    }
}

impl vstd::std_specs::convert::FromSpecImpl<bool> for ConstFeedback {
    open spec fn obeys_from_spec() -> bool {
        true
    }

    open spec fn from_spec(val: bool) -> Self {
        if val {
            ConstFeedback::True
        } else {
            ConstFeedback::False
        }
    }
}

impl From<ConstFeedback> for bool {
    fn from(value: ConstFeedback) -> (r: Self) {
        match value {
            ConstFeedback::True => true,
            ConstFeedback::False => false,
        }
    }
}

impl vstd::std_specs::convert::FromSpecImpl<ConstFeedback> for bool {
    open spec fn obeys_from_spec() -> bool {
        true
    }

    open spec fn from_spec(value: ConstFeedback) -> Self {
        value is True
    }
}

impl<EM, I, OT, S> Feedback<EM, I, OT, S> for ConstFeedback {
    open spec fn init_states(self, state: S, outcome: Outcome<Self, S, Result<(), ErrorView>>) -> bool {
        outcome == (Outcome { feedback: self, state, result: Ok::<(), ErrorView>(()) })
    }

    fn init_state(&mut self, state: &mut S) -> (r: Result<(), Error>) {
        Ok(())
    }

    open spec fn judges(
        self,
        state: Session<S, EM>,
        input: I,
        observers: OT,
        exit_kind: ExitKind,
        outcome: Outcome<Self, Session<S, EM>, Result<bool, ErrorView>>,
    ) -> bool {
        outcome == (Outcome { feedback: self, state, result: Ok::<bool, ErrorView>(self.value()) })
    }

    fn is_interesting(
        &mut self,
        state: &mut S,
        manager: &mut EM,
        input: &I,
        observers: &OT,
        exit_kind: &ExitKind,
    ) -> (r: Result<bool, Error>) {
        Ok(bool::from(*self))
    }

    open spec fn last_result_spec(&self) -> Result<bool, ErrorView> {
        Ok(self.value())
    }

    fn last_result(&self) -> (r: Result<bool, Error>) {
        Ok(bool::from(*self))
    }

    open spec fn hit_feedbacks_spec(&self) -> Hits {
        own_hit(Ok(self.value()), self.name_view())
    }

    fn append_hit_feedbacks(&self, list: &mut Vec<String>) -> (r: Result<(), Error>) {
        append_own_hit(Ok(bool::from(*self)), self.name(), list)
    }

    open spec fn negated_hit_feedbacks_spec(&self) -> Hits {
        own_hit(Ok(!self.value()), self.name_view())
    }

    fn append_negated_hit_feedbacks(&self, list: &mut Vec<String>) -> (r: Result<(), Error>) {
        append_own_hit(Ok(!bool::from(*self)), self.name(), list)
    }

    open spec fn appends_metadata(
        self,
        state: Session<S, EM>,
        observers: OT,
        testcase: Testcase<I>,
        outcome: MetadataOutcome<Self, Session<S, EM>, I>,
    ) -> bool {
        outcome == (MetadataOutcome { feedback: self, state, testcase, result: Ok(()) })
    }

    fn append_metadata(&mut self, state: &mut S, manager: &mut EM, observers: &OT, testcase: &mut Testcase<I>) -> (r:
        Result<(), Error>) {
        Ok(())
    }

    open spec fn discards_metadata(
        self,
        state: S,
        input: I,
        outcome: Outcome<Self, S, Result<(), ErrorView>>,
    ) -> bool {
        outcome == (Outcome { feedback: self, state, result: Ok::<(), ErrorView>(()) })
    }

    fn discard_metadata(&mut self, state: &mut S, input: &I) -> (r: Result<(), Error>) {
        Ok(())
    }
}

impl Named for () {
    open spec fn name_view(&self) -> Seq<char> {
        "Empty"@
    }

    fn name(&self) -> (n: &str) {
        "Empty"
    }
}

/// The empty feedback: it finds no run interesting and keeps nothing.
impl<EM, I, OT, S> Feedback<EM, I, OT, S> for () {
    open spec fn init_states(self, state: S, outcome: Outcome<Self, S, Result<(), ErrorView>>) -> bool {
        outcome == (Outcome { feedback: self, state, result: Ok::<(), ErrorView>(()) })
    }

    fn init_state(&mut self, state: &mut S) -> (r: Result<(), Error>) {
        Ok(())
    }

    open spec fn judges(
        self,
        state: Session<S, EM>,
        input: I,
        observers: OT,
        exit_kind: ExitKind,
        outcome: Outcome<Self, Session<S, EM>, Result<bool, ErrorView>>,
    ) -> bool {
        outcome == (Outcome { feedback: self, state, result: Ok::<bool, ErrorView>(false) })
    }

    fn is_interesting(
        &mut self,
        state: &mut S,
        manager: &mut EM,
        input: &I,
        observers: &OT,
        exit_kind: &ExitKind,
    ) -> (r: Result<bool, Error>) {
        Ok(false)
    }

    open spec fn last_result_spec(&self) -> Result<bool, ErrorView> {
        Ok(false)
    }

    fn last_result(&self) -> (r: Result<bool, Error>) {
        Ok(false)
    }

    open spec fn hit_feedbacks_spec(&self) -> Hits {
        no_hits()
    }

    fn append_hit_feedbacks(&self, list: &mut Vec<String>) -> (r: Result<(), Error>) {
        proof {
            lemma_nothing_appended(list@);
        }
        Ok(())
    }

    /// The last verdict is always false, so under a negation the feedback always reports
    /// its name.
    open spec fn negated_hit_feedbacks_spec(&self) -> Hits {
        own_hit(Ok(true), self.name_view())
    }

    fn append_negated_hit_feedbacks(&self, list: &mut Vec<String>) -> (r: Result<(), Error>) {
        append_own_hit(Ok(true), self.name(), list)
    }

    open spec fn appends_metadata(
        self,
        state: Session<S, EM>,
        observers: OT,
        testcase: Testcase<I>,
        outcome: MetadataOutcome<Self, Session<S, EM>, I>,
    ) -> bool {
        outcome == (MetadataOutcome { feedback: self, state, testcase, result: Ok(()) })
    }

    fn append_metadata(&mut self, state: &mut S, manager: &mut EM, observers: &OT, testcase: &mut Testcase<I>) -> (r:
        Result<(), Error>) {
        Ok(())
    }

    open spec fn discards_metadata(
        self,
        state: S,
        input: I,
        outcome: Outcome<Self, S, Result<(), ErrorView>>,
    ) -> bool {
        outcome == (Outcome { feedback: self, state, result: Ok::<(), ErrorView>(()) })
    }

    fn discard_metadata(&mut self, state: &mut S, input: &I) -> (r: Result<(), Error>) {
        Ok(())
    }
}


impl HasObserverHandle for TimeFeedback {
    type Observer = TimeObserver;

    open spec fn observer_handle_spec(&self) -> Handle<TimeObserver> {
        self.observer_handle
    }

    fn observer_handle(&self) -> (handle: &Handle<TimeObserver>) {
        &self.observer_handle
    }
}

/// `first` and `second` combined by an eager `AND`.
pub fn feedback_and<A: Named, B: Named>(first: A, second: B) -> (r: EagerAndFeedback<A, B>)
    ensures
        r.first == first,
        r.second == second,
        r.name@ == combined_name(LogicEagerAnd::name_view(), first.name_view(), second.name_view()),
{
    CombinedFeedback::new(first, second)
}

/// `first` and `second` combined by a fast `AND`.
pub fn feedback_and_fast<A: Named, B: Named>(first: A, second: B) -> (r: FastAndFeedback<A, B>)
    ensures
        r.first == first,
        r.second == second,
        r.name@ == combined_name(LogicFastAnd::name_view(), first.name_view(), second.name_view()),
{
    CombinedFeedback::new(first, second)
}

/// `first` and `second` combined by an eager `OR`.
pub fn feedback_or<A: Named, B: Named>(first: A, second: B) -> (r: EagerOrFeedback<A, B>)
    ensures
        r.first == first,
        r.second == second,
        r.name@ == combined_name(LogicEagerOr::name_view(), first.name_view(), second.name_view()),
{
    CombinedFeedback::new(first, second)
}

/// `first` and `second` combined by a fast `OR`.
pub fn feedback_or_fast<A: Named, B: Named>(first: A, second: B) -> (r: FastOrFeedback<A, B>)
    ensures
        r.first == first,
        r.second == second,
        r.name@ == combined_name(LogicFastOr::name_view(), first.name_view(), second.name_view()),
{
    CombinedFeedback::new(first, second)
}

/// The negation of `first`.
pub fn feedback_not<A: Named>(first: A) -> (r: NotFeedback<A>)
    ensures
        r.first == first,
        r.name@ == not_name(first.name_view()),
{
    NotFeedback::new(first)
}


impl<EM, I, OT, S: HasClientPerfMonitor> FeedbackIntrospection<EM, I, OT, S> for CrashFeedback {
    open spec fn judges_timed(
        self,
        state: Session<S, EM>,
        input: I,
        observers: OT,
        exit_kind: ExitKind,
        outcome: Outcome<Self, Session<S, EM>, Result<bool, ErrorView>>,
    ) -> bool {
        judged_and_timed(self, state, input, observers, exit_kind, outcome)
    }

    fn is_interesting_introspection(
        &mut self,
        state: &mut S,
        manager: &mut EM,
        input: &I,
        observers: &OT,
        exit_kind: &ExitKind,
    ) -> (r: Result<bool, Error>) {
        judge_and_time(self, state, manager, input, observers, exit_kind)
    }
}

impl<EM, I, OT, S: HasClientPerfMonitor> FeedbackIntrospection<EM, I, OT, S> for TimeoutFeedback {
    open spec fn judges_timed(
        self,
        state: Session<S, EM>,
        input: I,
        observers: OT,
        exit_kind: ExitKind,
        outcome: Outcome<Self, Session<S, EM>, Result<bool, ErrorView>>,
    ) -> bool {
        judged_and_timed(self, state, input, observers, exit_kind, outcome)
    }

    fn is_interesting_introspection(
        &mut self,
        state: &mut S,
        manager: &mut EM,
        input: &I,
        observers: &OT,
        exit_kind: &ExitKind,
    ) -> (r: Result<bool, Error>) {
        judge_and_time(self, state, manager, input, observers, exit_kind)
    }
}

impl<EM, I, OT, S: HasClientPerfMonitor> FeedbackIntrospection<EM, I, OT, S> for DiffExitKindFeedback {
    open spec fn judges_timed(
        self,
        state: Session<S, EM>,
        input: I,
        observers: OT,
        exit_kind: ExitKind,
        outcome: Outcome<Self, Session<S, EM>, Result<bool, ErrorView>>,
    ) -> bool {
        judged_and_timed(self, state, input, observers, exit_kind, outcome)
    }

    fn is_interesting_introspection(
        &mut self,
        state: &mut S,
        manager: &mut EM,
        input: &I,
        observers: &OT,
        exit_kind: &ExitKind,
    ) -> (r: Result<bool, Error>) {
        judge_and_time(self, state, manager, input, observers, exit_kind)
    }
}

impl<EM, I, OT, S: HasClientPerfMonitor> FeedbackIntrospection<EM, I, OT, S> for ConstFeedback {
    open spec fn judges_timed(
        self,
        state: Session<S, EM>,
        input: I,
        observers: OT,
        exit_kind: ExitKind,
        outcome: Outcome<Self, Session<S, EM>, Result<bool, ErrorView>>,
    ) -> bool {
        judged_and_timed(self, state, input, observers, exit_kind, outcome)
    }

    fn is_interesting_introspection(
        &mut self,
        state: &mut S,
        manager: &mut EM,
        input: &I,
        observers: &OT,
        exit_kind: &ExitKind,
    ) -> (r: Result<bool, Error>) {
        judge_and_time(self, state, manager, input, observers, exit_kind)
    }
}

impl<EM, I, OT, S: HasClientPerfMonitor> FeedbackIntrospection<EM, I, OT, S> for () {
    open spec fn judges_timed(
        self,
        state: Session<S, EM>,
        input: I,
        observers: OT,
        exit_kind: ExitKind,
        outcome: Outcome<Self, Session<S, EM>, Result<bool, ErrorView>>,
    ) -> bool {
        judged_and_timed(self, state, input, observers, exit_kind, outcome)
    }

    fn is_interesting_introspection(
        &mut self,
        state: &mut S,
        manager: &mut EM,
        input: &I,
        observers: &OT,
        exit_kind: &ExitKind,
    ) -> (r: Result<bool, Error>) {
        judge_and_time(self, state, manager, input, observers, exit_kind)
    }
}

impl<EM, I, OT: MatchNameRef<TimeObserver>, S: HasClientPerfMonitor> FeedbackIntrospection<EM, I, OT, S> for TimeFeedback {
    open spec fn judges_timed(
        self,
        state: Session<S, EM>,
        input: I,
        observers: OT,
        exit_kind: ExitKind,
        outcome: Outcome<Self, Session<S, EM>, Result<bool, ErrorView>>,
    ) -> bool {
        judged_and_timed(self, state, input, observers, exit_kind, outcome)
    }

    fn is_interesting_introspection(
        &mut self,
        state: &mut S,
        manager: &mut EM,
        input: &I,
        observers: &OT,
        exit_kind: &ExitKind,
    ) -> (r: Result<bool, Error>) {
        judge_and_time(self, state, manager, input, observers, exit_kind)
    }
}

/// A negation is timed as a whole.
impl<EM, I, OT, S: HasClientPerfMonitor, A: Feedback<EM, I, OT, S>> FeedbackIntrospection<EM, I, OT, S> for NotFeedback<A> {
    open spec fn judges_timed(
        self,
        state: Session<S, EM>,
        input: I,
        observers: OT,
        exit_kind: ExitKind,
        outcome: Outcome<Self, Session<S, EM>, Result<bool, ErrorView>>,
    ) -> bool {
        judged_and_timed(self, state, input, observers, exit_kind, outcome)
    }

    fn is_interesting_introspection(
        &mut self,
        state: &mut S,
        manager: &mut EM,
        input: &I,
        observers: &OT,
        exit_kind: &ExitKind,
    ) -> (r: Result<bool, Error>) {
        judge_and_time(self, state, manager, input, observers, exit_kind)
    }
}

/// A combination is not timed as a whole: each of its feedbacks that runs is timed.
impl<EM, I, OT, S: HasClientPerfMonitor, A: FeedbackIntrospection<EM, I, OT, S>, B: FeedbackIntrospection<EM, I, OT, S>, FL: FeedbackLogic> FeedbackIntrospection<EM, I, OT, S> for CombinedFeedback<A, B, FL> {
    open spec fn judges_timed(
        self,
        state: Session<S, EM>,
        input: I,
        observers: OT,
        exit_kind: ExitKind,
        outcome: Outcome<Self, Session<S, EM>, Result<bool, ErrorView>>,
    ) -> bool {
        &&& outcome.feedback == self.with_children(outcome.feedback.first, outcome.feedback.second)
        &&& pair_judged::<FL, Timed, EM, I, OT, S, A, B>(
            self.first,
            self.second,
            state,
            input,
            observers,
            exit_kind,
            PairOutcome {
                first: outcome.feedback.first,
                second: outcome.feedback.second,
                state: outcome.state,
                result: outcome.result,
            },
        )
    }

    fn is_interesting_introspection(
        &mut self,
        state: &mut S,
        manager: &mut EM,
        input: &I,
        observers: &OT,
        exit_kind: &ExitKind,
    ) -> (r: Result<bool, Error>) {
        FL::is_pair_interesting::<Timed, EM, I, OT, S, A, B>(
            &mut self.first,
            &mut self.second,
            state,
            manager,
            input,
            observers,
            exit_kind,
        )
    }
}

} // verus!
