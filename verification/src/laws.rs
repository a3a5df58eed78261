//! What holds of every playback, whatever the outside world reports.
//!
//! The statements speak of [`ActionView::after_all`], the action that is due
//! once a sequence of reports has come in; each call of `Playback::record`
//! extends that sequence by one.
use crate::playback::{ActionView, Report};
use crate::step::Step;
use vstd::prelude::*;

verus! {

/// The first `n` of `reports` are successes.
pub open spec fn all_succeeded(reports: Seq<Report>, n: int) -> bool {
    forall|j: int| 0 <= j < n ==> (#[trigger] reports[j]) is Ok
}

/// Report `i` is for one of the steps, is a failure, and no report before it
/// is one.
pub open spec fn first_failure_at(reports: Seq<Report>, i: int) -> bool {
    &&& 0 <= i < reports.len()
    &&& i < Step::count()
    &&& reports[i] is Err
    &&& all_succeeded(reports, i)
}

/// Some report for one of the steps is a failure, the first such report being
/// a failure with `text`.
pub open spec fn first_failure_says(reports: Seq<Report>, text: Seq<char>) -> bool {
    exists|i: int|
        #![trigger reports[i]]
        first_failure_at(reports, i) && reports[i] == Err::<(), Seq<char>>(text)
}

/// What the reports must have been for each action to be due.
proof fn lemma_reports_behind(reports: Seq<Report>)
    ensures
        match ActionView::after_all(reports) {
            ActionView::Perform(step) => {
                &&& reports.len() == step.index()
                &&& all_succeeded(reports, reports.len() as int)
            },
            ActionView::Play => {
                &&& reports.len() >= Step::count()
                &&& all_succeeded(reports, Step::count() as int)
            },
            ActionView::Fail(text) => first_failure_says(reports, text),
        },
    decreases reports.len(),
{
    if reports.len() > 0 {
        let earlier = reports.drop_last();
        let last = reports.len() - 1;
        lemma_reports_behind(earlier);
        assert(forall|j: int| 0 <= j < last ==> earlier[j] == reports[j]);
        match ActionView::after_all(earlier) {
            ActionView::Perform(_) => {
                assert(all_succeeded(reports, last));
                if reports[last] is Err {
                    assert(first_failure_at(reports, last));
                }
            },
            ActionView::Play => {},
            ActionView::Fail(text) => {
                let i = choose|i: int|
                    #![trigger earlier[i]]
                    first_failure_at(earlier, i) && earlier[i] == Err::<(), Seq<char>>(text);
                assert(first_failure_at(reports, i));
                assert(reports[i] == Err::<(), Seq<char>>(text));
            },
        }
    }
}

/// Among the reports for the steps only one can be the first failure.
proof fn lemma_first_failure_is_unique(reports: Seq<Report>, i: int, k: int)
    requires
        first_failure_at(reports, i),
        first_failure_at(reports, k),
    ensures
        i == k,
{
    if k < i {
        assert(reports[k] is Ok);
    }
    if i < k {
        assert(reports[i] is Ok);
    }
}

/// A step is due exactly when as many reports have come in as steps precede
/// it, all of them successes: the steps are attempted in their order, each
/// one only after every step before it has succeeded.
pub proof fn lemma_step_due_exactly_after_its_predecessors(reports: Seq<Report>, step: Step)
    ensures
        ActionView::after_all(reports) == ActionView::Perform(step) <==> {
            &&& reports.len() == step.index()
            &&& all_succeeded(reports, reports.len() as int)
        },
{
    lemma_reports_behind(reports);
    if reports.len() == step.index() && all_succeeded(reports, reports.len() as int) {
        if let ActionView::Fail(text) = ActionView::after_all(reports) {
            let i = choose|i: int|
                #![trigger reports[i]]
                first_failure_at(reports, i) && reports[i] == Err::<(), Seq<char>>(text);
            assert(reports[i] is Ok);
        }
    }
}

/// The command answers success exactly when every step has succeeded.
pub proof fn lemma_success_exactly_when_all_steps_succeed(reports: Seq<Report>)
    ensures
        ActionView::after_all(reports).answer() == Some(Ok::<(), Seq<char>>(())) <==> {
            &&& reports.len() >= Step::count()
            &&& all_succeeded(reports, Step::count() as int)
        },
{
    lemma_reports_behind(reports);
    if reports.len() >= Step::count() && all_succeeded(reports, Step::count() as int) {
        if let ActionView::Fail(text) = ActionView::after_all(reports) {
            let i = choose|i: int|
                #![trigger reports[i]]
                first_failure_at(reports, i) && reports[i] == Err::<(), Seq<char>>(text);
            assert(reports[i] is Ok);
        }
    }
}

/// The first step that fails decides the answer: the command answers with the
/// text that was reported for that step, unchanged, whatever is reported
/// afterwards.
pub proof fn lemma_first_failure_is_the_answer(reports: Seq<Report>, i: int)
    requires
        first_failure_at(reports, i),
    ensures
        ActionView::after_all(reports) == ActionView::Fail(reports[i]->Err_0),
        ActionView::after_all(reports).answer() == Some(reports[i]),
{
    lemma_reports_behind(reports);
    match ActionView::after_all(reports) {
        ActionView::Fail(text) => {
            let k = choose|k: int|
                #![trigger reports[k]]
                first_failure_at(reports, k) && reports[k] == Err::<(), Seq<char>>(text);
            lemma_first_failure_is_unique(reports, i, k);
        },
        _ => {
            assert(reports[i] is Ok);
        },
    }
}

/// The command answers with a failure's text exactly when a step has failed
/// and that text was reported for the first step that did.
pub proof fn lemma_failure_exactly_when_a_step_fails(reports: Seq<Report>, text: Seq<char>)
    ensures
        ActionView::after_all(reports).answer() == Some(Err::<(), Seq<char>>(text))
            <==> first_failure_says(reports, text),
{
    lemma_reports_behind(reports);
    if first_failure_says(reports, text) {
        let i = choose|i: int|
            #![trigger reports[i]]
            first_failure_at(reports, i) && reports[i] == Err::<(), Seq<char>>(text);
        lemma_first_failure_is_the_answer(reports, i);
    }
}

/// The answer waits for nothing but the steps: it is known as soon as a
/// failure or the last step's report has come in, and not before.
pub proof fn lemma_answer_known_exactly_when_steps_are_over(reports: Seq<Report>)
    ensures
        ActionView::after_all(reports).answer() is Some <==> {
            ||| reports.len() >= Step::count()
            ||| exists|i: int| #![trigger reports[i]] 0 <= i < reports.len() && reports[i] is Err
        },
{
    lemma_reports_behind(reports);
    if ActionView::after_all(reports).answer() is None {
        if exists|i: int| #![trigger reports[i]] 0 <= i < reports.len() && reports[i] is Err {
            let i = choose|i: int| #![trigger reports[i]] 0 <= i < reports.len() && reports[i] is Err;
            assert(reports[i] is Ok);
        }
    }
}

/// Once an answer is known no further report changes it.
pub proof fn lemma_answer_is_final(due: ActionView, report: Report)
    requires
        due.answer() is Some,
    ensures
        due.after(report) == due,
{
}

} // verus!
