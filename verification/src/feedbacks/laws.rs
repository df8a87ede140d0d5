//! What holds of every feedback built from the combinators: the truth tables, which child
//! runs and which does not, double negation, and the idempotence of `init_state`.

use vstd::prelude::*;
use crate::state::Session;
use crate::corpus::Testcase;
use crate::error::ErrorView;
use crate::executors::ExitKind;
use crate::feedbacks::{
    lemma_inverted_twice, own_hit, pair_follows, CombinedFeedback, ConstFeedback,
    Connective, CrashFeedback, DiffExitKindFeedback, Feedback, FeedbackLogic, Judgement,
    LogicEagerAnd, LogicEagerOr, LogicFastAnd, LogicFastOr, MetadataOutcome, NotFeedback, Outcome,
    PairOutcome, PairTrace, TimeFeedback, TimeoutFeedback,
};
use crate::named::Named;
use crate::observers::{MatchNameRef, TimeObserver};

verus! {

/// Truth table, for every logic: where the first feedback gives the verdict `va`, and the
/// second one, if it runs, gives `vb`, the pair gives the logic's operator of `va` and
/// `vb`; where the second does not run, that is so whatever `vb` is.
pub proof fn lemma_combinator_truth_table<FL: Connective, J: Judgement<A, EM, I, OT, S> + Judgement<B, EM, I, OT, S>, EM, I, OT, S, A, B>(
    first: A,
    second: B,
    state: Session<S, EM>,
    input: I,
    observers: OT,
    exit_kind: ExitKind,
    trace: PairTrace<A, B, Session<S, EM>>,
    outcome: PairOutcome<A, B, Session<S, EM>>,
    va: bool,
    vb: bool,
)
    requires
        pair_follows::<FL, J, EM, I, OT, S, A, B>(
            first,
            second,
            state,
            input,
            observers,
            exit_kind,
            trace,
            outcome,
        ),
        trace.first.result == Ok::<bool, ErrorView>(va),
        FL::runs_second(va) ==> trace.second.result == Ok::<bool, ErrorView>(vb),
    ensures
        outcome.result == Ok::<bool, ErrorView>(FL::operator(va, vb)),
{
    FL::lemma_skipped_verdict_is_irrelevant(va, false, vb);
}

/// Truth table of the two disjunctions: the verdict is `va || vb`.
pub proof fn lemma_or_truth_table<J: Judgement<A, EM, I, OT, S> + Judgement<B, EM, I, OT, S>, EM, I, OT, S, A, B>(
    first: A,
    second: B,
    state: Session<S, EM>,
    input: I,
    observers: OT,
    exit_kind: ExitKind,
    trace: PairTrace<A, B, Session<S, EM>>,
    outcome: PairOutcome<A, B, Session<S, EM>>,
    va: bool,
    vb: bool,
)
    requires
        pair_follows::<LogicEagerOr, J, EM, I, OT, S, A, B>(
            first,
            second,
            state,
            input,
            observers,
            exit_kind,
            trace,
            outcome,
        ) || pair_follows::<LogicFastOr, J, EM, I, OT, S, A, B>(
            first,
            second,
            state,
            input,
            observers,
            exit_kind,
            trace,
            outcome,
        ),
        trace.first.result == Ok::<bool, ErrorView>(va),
        trace.second.result == Ok::<bool, ErrorView>(vb),
    ensures
        outcome.result == Ok::<bool, ErrorView>(va || vb),
{
}

/// Truth table of the two conjunctions: the verdict is `va && vb`.
pub proof fn lemma_and_truth_table<J: Judgement<A, EM, I, OT, S> + Judgement<B, EM, I, OT, S>, EM, I, OT, S, A, B>(
    first: A,
    second: B,
    state: Session<S, EM>,
    input: I,
    observers: OT,
    exit_kind: ExitKind,
    trace: PairTrace<A, B, Session<S, EM>>,
    outcome: PairOutcome<A, B, Session<S, EM>>,
    va: bool,
    vb: bool,
)
    requires
        pair_follows::<LogicEagerAnd, J, EM, I, OT, S, A, B>(
            first,
            second,
            state,
            input,
            observers,
            exit_kind,
            trace,
            outcome,
        ) || pair_follows::<LogicFastAnd, J, EM, I, OT, S, A, B>(
            first,
            second,
            state,
            input,
            observers,
            exit_kind,
            trace,
            outcome,
        ),
        trace.first.result == Ok::<bool, ErrorView>(va),
        trace.second.result == Ok::<bool, ErrorView>(vb),
    ensures
        outcome.result == Ok::<bool, ErrorView>(va && vb),
{
}

/// Whether, in an evaluation that went as `trace` says and left `outcome` behind, the
/// second feedback did not run: it is what it was, and the state is as the first
/// feedback has left it.
pub open spec fn second_skipped<A, B, S>(second: B, trace: PairTrace<A, B, S>, outcome: PairOutcome<A, B, S>) -> bool {
    &&& outcome.first == trace.first.feedback
    &&& outcome.second == second
    &&& outcome.state == trace.first.state
}

/// Whether, in an evaluation that went as `trace` says and left `outcome` behind, the
/// second feedback ran after the first, on the state that the first has left.
pub open spec fn second_ran<J: Judgement<B, EM, I, OT, S>, EM, I, OT, S, A, B>(
    second: B,
    input: I,
    observers: OT,
    exit_kind: ExitKind,
    trace: PairTrace<A, B, Session<S, EM>>,
    outcome: PairOutcome<A, B, Session<S, EM>>,
) -> bool {
    &&& J::judged_by(second, trace.first.state, input, observers, exit_kind, trace.second)
    &&& outcome.first == trace.first.feedback
    &&& outcome.second == trace.second.feedback
    &&& outcome.state == trace.second.state
}

/// Fast `OR` does not run its second feedback where the first one says yes, and runs it
/// where the first one says no.
pub proof fn lemma_fast_or_short_circuit<J: Judgement<A, EM, I, OT, S> + Judgement<B, EM, I, OT, S>, EM, I, OT, S, A, B>(
    first: A,
    second: B,
    state: Session<S, EM>,
    input: I,
    observers: OT,
    exit_kind: ExitKind,
    trace: PairTrace<A, B, Session<S, EM>>,
    outcome: PairOutcome<A, B, Session<S, EM>>,
)
    requires
        pair_follows::<LogicFastOr, J, EM, I, OT, S, A, B>(
            first,
            second,
            state,
            input,
            observers,
            exit_kind,
            trace,
            outcome,
        ),
    ensures
        trace.first.result == Ok::<bool, ErrorView>(true) ==> second_skipped(second, trace, outcome)
            && outcome.result == Ok::<bool, ErrorView>(true),
        trace.first.result == Ok::<bool, ErrorView>(false) ==> second_ran::<J, EM, I, OT, S, A, B>(
            second,
            input,
            observers,
            exit_kind,
            trace,
            outcome,
        ) && outcome.result == trace.second.result,
{
}

/// Fast `AND` does not run its second feedback where the first one says no, and runs it
/// where the first one says yes.
pub proof fn lemma_fast_and_short_circuit<J: Judgement<A, EM, I, OT, S> + Judgement<B, EM, I, OT, S>, EM, I, OT, S, A, B>(
    first: A,
    second: B,
    state: Session<S, EM>,
    input: I,
    observers: OT,
    exit_kind: ExitKind,
    trace: PairTrace<A, B, Session<S, EM>>,
    outcome: PairOutcome<A, B, Session<S, EM>>,
)
    requires
        pair_follows::<LogicFastAnd, J, EM, I, OT, S, A, B>(
            first,
            second,
            state,
            input,
            observers,
            exit_kind,
            trace,
            outcome,
        ),
    ensures
        trace.first.result == Ok::<bool, ErrorView>(false) ==> second_skipped(second, trace, outcome)
            && outcome.result == Ok::<bool, ErrorView>(false),
        trace.first.result == Ok::<bool, ErrorView>(true) ==> second_ran::<J, EM, I, OT, S, A, B>(
            second,
            input,
            observers,
            exit_kind,
            trace,
            outcome,
        ) && outcome.result == trace.second.result,
{
}

/// The eager combinators run both feedbacks whatever the first one says. Only an error
/// of the first keeps the second from running.
pub proof fn lemma_eager_runs_both<J: Judgement<A, EM, I, OT, S> + Judgement<B, EM, I, OT, S>, EM, I, OT, S, A, B>(
    first: A,
    second: B,
    state: Session<S, EM>,
    input: I,
    observers: OT,
    exit_kind: ExitKind,
    trace: PairTrace<A, B, Session<S, EM>>,
    outcome: PairOutcome<A, B, Session<S, EM>>,
)
    requires
        pair_follows::<LogicEagerOr, J, EM, I, OT, S, A, B>(
            first,
            second,
            state,
            input,
            observers,
            exit_kind,
            trace,
            outcome,
        ) || pair_follows::<LogicEagerAnd, J, EM, I, OT, S, A, B>(
            first,
            second,
            state,
            input,
            observers,
            exit_kind,
            trace,
            outcome,
        ),
    ensures
        <J as Judgement<A, EM, I, OT, S>>::judged_by(
            first,
            state,
            input,
            observers,
            exit_kind,
            trace.first,
        ),
        trace.first.result is Ok ==> second_ran::<J, EM, I, OT, S, A, B>(second, input, observers, exit_kind, trace, outcome),
        trace.first.result is Err ==> second_skipped(second, trace, outcome) && outcome.result
            == trace.first.result,
{
}

/// What a feedback negated twice has left behind, as an outcome of the feedback itself.
pub open spec fn unwrapped<F, S, R>(outcome: Outcome<NotFeedback<NotFeedback<F>>, S, R>) -> Outcome<F, S, R> {
    Outcome { feedback: outcome.feedback.first.first, state: outcome.state, result: outcome.result }
}

/// Whether the two negations around a feedback are afterwards what they were before.
pub open spec fn wrapping_kept<F>(before: NotFeedback<NotFeedback<F>>, after: NotFeedback<NotFeedback<F>>) -> bool {
    after == before.with_child(before.first.with_child(after.first.first))
}

/// Double negation, when a run is judged: a feedback negated twice may leave behind
/// exactly what the feedback itself may leave behind, with the same verdict.
pub proof fn lemma_double_negation_is_interesting<EM, I, OT, S, F: Feedback<EM, I, OT, S>>(
    twice: NotFeedback<NotFeedback<F>>,
    state: Session<S, EM>,
    input: I,
    observers: OT,
    exit_kind: ExitKind,
    outcome: Outcome<NotFeedback<NotFeedback<F>>, Session<S, EM>, Result<bool, ErrorView>>,
)
    ensures
        twice.judges(state, input, observers, exit_kind, outcome) <==> wrapping_kept(
            twice,
            outcome.feedback,
        ) && twice.first.first.judges(state, input, observers, exit_kind, unwrapped(outcome)),
{
    lemma_inverted_twice(outcome.result);
}

/// Double negation, for the metadata: a feedback negated twice does to the state and to
/// the testcase what the feedback itself does, when metadata is appended as when it is
/// discarded, and when the state is initialised.
pub proof fn lemma_double_negation_metadata<EM, I, OT, S, F: Feedback<EM, I, OT, S>>(
    twice: NotFeedback<NotFeedback<F>>,
    state: S,
    manager: EM,
    input: I,
    observers: OT,
    testcase: Testcase<I>,
    appended: MetadataOutcome<NotFeedback<NotFeedback<F>>, Session<S, EM>, I>,
    other: Outcome<NotFeedback<NotFeedback<F>>, S, Result<(), ErrorView>>,
)
    ensures
        twice.appends_metadata(
            Session { state, manager },
            observers,
            testcase,
            appended,
        ) <==> wrapping_kept(twice, appended.feedback) && twice.first.first.appends_metadata(
            Session { state, manager },
            observers,
            testcase,
            MetadataOutcome {
                feedback: appended.feedback.first.first,
                state: appended.state,
                testcase: appended.testcase,
                result: appended.result,
            },
        ),
        twice.discards_metadata(state, input, other) <==> wrapping_kept(twice, other.feedback)
            && twice.first.first.discards_metadata(state, input, unwrapped(other)),
        Feedback::<EM, I, OT, S>::init_states(twice, state, other) <==> wrapping_kept(
            twice,
            other.feedback,
        ) && twice.first.first.init_states(state, unwrapped(other)),
{
}

/// Double negation, for the hits: a feedback negated twice has the last verdict of the
/// feedback itself and reports what that one reports, by itself as under a further
/// negation.
pub proof fn lemma_double_negation_hits<EM, I, OT, S, F: Feedback<EM, I, OT, S>>(twice: NotFeedback<NotFeedback<F>>)
    ensures
        Feedback::<EM, I, OT, S>::last_result_spec(&twice) == twice.first.first.last_result_spec(),
        Feedback::<EM, I, OT, S>::hit_feedbacks_spec(&twice) == twice.first.first.hit_feedbacks_spec(),
        Feedback::<EM, I, OT, S>::negated_hit_feedbacks_spec(&twice)
            == twice.first.first.negated_hit_feedbacks_spec(),
{
    lemma_inverted_twice(twice.first.first.last_result_spec());
}

/// A leaf under one negation reports its name exactly where its own last verdict was
/// false, which is where the last verdict of the negation is true.
pub proof fn lemma_negated_leaf_hits<EM, I, OT, S>(not: NotFeedback<CrashFeedback>)
    ensures
        Feedback::<EM, I, OT, S>::hit_feedbacks_spec(&not) == own_hit(
            Feedback::<EM, I, OT, S>::last_result_spec(&not),
            not.first.name_view(),
        ),
{
}

/// Whether a second `init_state` of `feedback`, right after a first one that succeeded on
/// `state`, can only succeed and leave everything as the first one has left it.
pub open spec fn init_state_is_idempotent<EM, I, OT, S, F: Feedback<EM, I, OT, S>>(feedback: F, state: S) -> bool {
    forall|once: Outcome<F, S, Result<(), ErrorView>>, twice: Outcome<F, S, Result<(), ErrorView>>|
        #![trigger feedback.init_states(state, once), once.feedback.init_states(once.state, twice)]
        feedback.init_states(state, once) && once.result is Ok && once.feedback.init_states(
            once.state,
            twice,
        ) ==> twice == once
}

/// `init_state` of the feedbacks that keep nothing in the state is idempotent.
pub proof fn lemma_leaf_init_state_is_idempotent<EM, I, OT: MatchNameRef<TimeObserver>, S>(
    crash: CrashFeedback,
    timeout: TimeoutFeedback,
    diff: DiffExitKindFeedback,
    time: TimeFeedback,
    constant: ConstFeedback,
    state: S,
)
    ensures
        init_state_is_idempotent::<EM, I, OT, S, CrashFeedback>(crash, state),
        init_state_is_idempotent::<EM, I, OT, S, TimeoutFeedback>(timeout, state),
        init_state_is_idempotent::<EM, I, OT, S, DiffExitKindFeedback>(diff, state),
        init_state_is_idempotent::<EM, I, OT, S, TimeFeedback>(time, state),
        init_state_is_idempotent::<EM, I, OT, S, ConstFeedback>(constant, state),
        init_state_is_idempotent::<EM, I, OT, S, ()>((), state),
{
}

/// `init_state` of a negation is idempotent where that of the negated feedback is.
pub proof fn lemma_not_init_state_is_idempotent<EM, I, OT, S, F: Feedback<EM, I, OT, S>>(
    not: NotFeedback<F>,
    state: S,
)
    requires
        init_state_is_idempotent::<EM, I, OT, S, F>(not.first, state),
    ensures
        init_state_is_idempotent::<EM, I, OT, S, NotFeedback<F>>(not, state),
{
    assert forall|
        once: Outcome<NotFeedback<F>, S, Result<(), ErrorView>>,
        twice: Outcome<NotFeedback<F>, S, Result<(), ErrorView>>,
    |
        #![trigger not.init_states(state, once), once.feedback.init_states(once.state, twice)]
        not.init_states(state, once) && once.result is Ok && once.feedback.init_states(
            once.state,
            twice,
        ) implies twice == once by {
        let inner_once = Outcome {
            feedback: once.feedback.first,
            state: once.state,
            result: once.result,
        };
        let inner_twice = Outcome {
            feedback: twice.feedback.first,
            state: twice.state,
            result: twice.result,
        };
        assert(not.first.init_states(state, inner_once));
        assert(inner_once.feedback.init_states(inner_once.state, inner_twice));
        assert(inner_twice == inner_once);
    }
}

/// Whether, once `first` and `second` have been initialised in turn on `state`, to
/// initialise either of them again can only succeed and change nothing.
pub open spec fn initialised_for_good<EM, I, OT, S, A: Feedback<EM, I, OT, S>, B: Feedback<EM, I, OT, S>>(
    first: A,
    second: B,
    state: S,
) -> bool {
    forall|a: Outcome<A, S, Result<(), ErrorView>>, b: Outcome<B, S, Result<(), ErrorView>>|
        #![trigger first.init_states(state, a), second.init_states(a.state, b)]
        first.init_states(state, a) && a.result is Ok && second.init_states(a.state, b)
            && b.result is Ok ==> {
            &&& forall|again: Outcome<A, S, Result<(), ErrorView>>| #[trigger]
                a.feedback.init_states(b.state, again) ==> again == (Outcome {
                    feedback: a.feedback,
                    state: b.state,
                    result: Ok::<(), ErrorView>(()),
                })
            &&& forall|again: Outcome<B, S, Result<(), ErrorView>>| #[trigger]
                b.feedback.init_states(b.state, again) ==> again == b
        }
}

/// `init_state` of a combination is idempotent where, once both feedbacks are
/// initialised, initialising either of them again changes nothing.
pub proof fn lemma_combined_init_state_is_idempotent<EM, I, OT, S, A: Feedback<EM, I, OT, S>, B: Feedback<EM, I, OT, S>, FL: FeedbackLogic>(
    combined: CombinedFeedback<A, B, FL>,
    state: S,
)
    requires
        initialised_for_good::<EM, I, OT, S, A, B>(combined.first, combined.second, state),
    ensures
        init_state_is_idempotent::<EM, I, OT, S, CombinedFeedback<A, B, FL>>(combined, state),
{
    assert forall|
        once: Outcome<CombinedFeedback<A, B, FL>, S, Result<(), ErrorView>>,
        twice: Outcome<CombinedFeedback<A, B, FL>, S, Result<(), ErrorView>>,
    |
        #![trigger combined.init_states(state, once), once.feedback.init_states(once.state, twice)]
        combined.init_states(state, once) && once.result is Ok && once.feedback.init_states(
            once.state,
            twice,
        ) implies twice == once by {
        let a = choose|a: Outcome<A, S, Result<(), ErrorView>>|
            crate::feedbacks::in_turn(
                combined.second,
                #[trigger] combined.first.init_states(state, a),
                a,
                combined.second.init_states(
                    a.state,
                    Outcome {
                        feedback: once.feedback.second,
                        state: once.state,
                        result: once.result,
                    },
                ),
                Outcome {
                    feedback: (once.feedback.first, once.feedback.second),
                    state: once.state,
                    result: once.result,
                },
            );
        let b = Outcome { feedback: once.feedback.second, state: once.state, result: once.result };
        assert(a.result is Ok);
        assert(combined.second.init_states(a.state, b));
        let a2 = choose|a2: Outcome<A, S, Result<(), ErrorView>>|
            crate::feedbacks::in_turn(
                once.feedback.second,
                #[trigger] once.feedback.first.init_states(once.state, a2),
                a2,
                once.feedback.second.init_states(
                    a2.state,
                    Outcome {
                        feedback: twice.feedback.second,
                        state: twice.state,
                        result: twice.result,
                    },
                ),
                Outcome {
                    feedback: (twice.feedback.first, twice.feedback.second),
                    state: twice.state,
                    result: twice.result,
                },
            );
        assert(a.feedback.init_states(b.state, a2));
        let b2 = Outcome {
            feedback: twice.feedback.second,
            state: twice.state,
            result: twice.result,
        };
        assert(b.feedback.init_states(b.state, b2));
        assert(b2 == b);
    }
}

} // verus!
