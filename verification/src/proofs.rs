//! What holds of every run, proved from the decisions in [`crate::run`].

use crate::checks::all_succeeded;
use crate::checks::check_lines;
use crate::checks::report;
use crate::checks::CheckRunView;
use crate::pulls::found_line;
use crate::pulls::found_lines;
use crate::pulls::listing;
use crate::run::advance;
use crate::run::checking_line;
use crate::run::merging_line;
use crate::run::outcome;
use crate::run::pending;
use crate::run::take_next;
use crate::run::ActionView;
use crate::run::EventView;
use crate::run::RunView;
use crate::run::StageView;
use crate::run::StepView;
use crate::cli::begin;
use crate::client::list_request;
use crate::client::merge_request;
use crate::client::Method;
use crate::error::RunErrorView;
use crate::json::parsed;
use crate::merge::merge_line;
use crate::merge::outcome_of;
use vstd::prelude::*;

verus! {

/// The run after the attempts of its request have failed for the given
/// reasons, one after the other.
pub open spec fn after_failures(run: RunView, reasons: Seq<Seq<char>>) -> RunView
    decreases reasons.len(),
{
    if reasons.len() == 0 {
        run
    } else {
        advance(after_failures(run, reasons.drop_last()), EventView::Failed(reasons.last())).0
    }
}

/// While retries are left, failures change nothing in a run but the count
/// of its retries.
pub proof fn lemma_failures_count_retries(run: RunView, reasons: Seq<Seq<char>>)
    requires
        !(run.stage is Finished),
        run.retries == 0,
        reasons.len() <= run.client.retry.max_retries,
    ensures
        after_failures(run, reasons) == (RunView { retries: reasons.len() as u32, ..run }),
    decreases reasons.len(),
{
    if reasons.len() > 0 {
        lemma_failures_count_retries(run, reasons.drop_last());
    }
}

/// A request that fails is sent again, unchanged, after the fixed delay, as
/// long as it has been retried fewer than `max_retries` times; nothing is
/// printed.
pub proof fn lemma_failure_is_retried(run: RunView, earlier: Seq<Seq<char>>, reason: Seq<char>)
    requires
        !(run.stage is Finished),
        run.retries == 0,
        earlier.len() < run.client.retry.max_retries,
    ensures
        advance(after_failures(run, earlier), EventView::Failed(reason)).1 == (StepView {
            lines: Seq::empty(),
            action: ActionView::Retry {
                delay_ms: run.client.retry.retry_delay_ms,
                request: pending(run)->0,
            },
        }),
{
    lemma_failures_count_retries(run, earlier);
}

/// A request that has been retried `max_retries` times and fails once more
/// ends the run, with what the last attempt said. So a request whose every
/// attempt fails is retried exactly `max_retries` times.
pub proof fn lemma_last_failure_ends_the_run(
    run: RunView,
    earlier: Seq<Seq<char>>,
    reason: Seq<char>,
)
    requires
        !(run.stage is Finished),
        run.retries == 0,
        earlier.len() == run.client.retry.max_retries,
    ensures
        advance(after_failures(run, earlier), EventView::Failed(reason)).1 == (StepView {
            lines: Seq::empty(),
            action: ActionView::Abort(RunErrorView::Request { reason }),
        }),
        advance(after_failures(run, earlier), EventView::Failed(reason)).0.stage == (
        StageView::Finished { error: Some(RunErrorView::Request { reason }) }),
{
    lemma_failures_count_retries(run, earlier);
}

/// A request whose every attempt fails is attempted `1 + max_retries`
/// times and no more. Each of the first `max_retries` failures is answered
/// with the same request after the fixed delay. The failure after them ends
/// the run with what that last attempt said, and whatever comes in later is
/// answered with that error: nothing is sent again.
pub proof fn lemma_every_attempt_fails(run: RunView, reasons: Seq<Seq<char>>, later: EventView)
    requires
        !(run.stage is Finished),
        run.retries == 0,
        reasons.len() == run.client.retry.max_retries + 1,
    ensures
        forall|k: int|
            0 <= k < run.client.retry.max_retries ==> (#[trigger] advance(
                after_failures(run, reasons.take(k)),
                EventView::Failed(reasons[k]),
            )).1 == (StepView {
                lines: Seq::empty(),
                action: ActionView::Retry {
                    delay_ms: run.client.retry.retry_delay_ms,
                    request: pending(run)->0,
                },
            }),
        advance(
            after_failures(run, reasons.drop_last()),
            EventView::Failed(reasons.last()),
        ).1.action == ActionView::Abort(RunErrorView::Request { reason: reasons.last() }),
        after_failures(run, reasons).stage == (StageView::Finished {
            error: Some(RunErrorView::Request { reason: reasons.last() }),
        }),
        advance(after_failures(run, reasons), later).1.action == ActionView::Abort(
            RunErrorView::Request { reason: reasons.last() },
        ),
{
    assert forall|k: int| 0 <= k < run.client.retry.max_retries implies (#[trigger] advance(
        after_failures(run, reasons.take(k)),
        EventView::Failed(reasons[k]),
    )).1 == (StepView {
        lines: Seq::empty(),
        action: ActionView::Retry {
            delay_ms: run.client.retry.retry_delay_ms,
            request: pending(run)->0,
        },
    }) by {
        lemma_failure_is_retried(run, reasons.take(k), reasons[k]);
    }
    lemma_last_failure_ends_the_run(run, reasons.drop_last(), reasons.last());
    lemma_finished_run_stays(after_failures(run, reasons), later);
}

/// The listing of a run that has just begun, when every attempt at it
/// fails: it is sent once and retried three times, 200 ms apart, and never
/// a fifth time. The fourth failure ends the run with what it said.
pub proof fn lemma_listing_that_always_fails(
    repository: Seq<char>,
    token: Seq<char>,
    reasons: Seq<Seq<char>>,
    later: EventView,
)
    requires
        begin(repository, Some(token)) is Ok,
        reasons.len() == 4,
    ensures
        ({
            let run = begin(repository, Some(token))->Ok_0.0;
            let first = begin(repository, Some(token))->Ok_0.1;
            let again = StepView {
                lines: Seq::empty(),
                action: ActionView::Retry { delay_ms: 200, request: list_request(repository) },
            };
            let failed = RunErrorView::Request { reason: reasons[3] };
            &&& first.action == ActionView::Send(list_request(repository))
            &&& advance(run, EventView::Failed(reasons[0])).1 == again
            &&& advance(after_failures(run, reasons.take(1)), EventView::Failed(reasons[1])).1
                == again
            &&& advance(after_failures(run, reasons.take(2)), EventView::Failed(reasons[2])).1
                == again
            &&& advance(
                after_failures(run, reasons.take(3)),
                EventView::Failed(reasons[3]),
            ).1.action == ActionView::Abort(failed)
            &&& after_failures(run, reasons).stage == (StageView::Finished { error: Some(failed) })
            &&& advance(after_failures(run, reasons), later).1.action == ActionView::Abort(failed)
        }),
{
    let run = begin(repository, Some(token))->Ok_0.0;
    lemma_every_attempt_fails(run, reasons, later);
    assert(reasons.take(0) =~= Seq::<Seq<char>>::empty());
    assert(after_failures(run, reasons.take(0)) == run);
    assert(reasons.drop_last() =~= reasons.take(3));
}

/// A response is acted on at once: whatever the body, what follows it is no
/// wait, and the retries of the next request are counted from zero.
pub proof fn lemma_response_is_taken_at_once(run: RunView, body: Seq<u8>)
    requires
        !(run.stage is Finished),
    ensures
        !(advance(run, EventView::Response(body)).1.action is Retry),
        advance(run, EventView::Response(body)).0.retries == 0,
{
}

/// A run that is over stays over: whatever comes in, it keeps its state,
/// prints nothing, and answers with the outcome it ended on. So after an
/// error no further candidate is looked at.
pub proof fn lemma_finished_run_stays(run: RunView, event: EventView)
    requires
        run.stage is Finished,
    ensures
        advance(run, event) == outcome(run, run.stage->error),
        advance(run, event).0 == run,
        advance(run, event).1.lines == Seq::<Seq<char>>::empty(),
        !(advance(run, event).1.action is Send),
        !(advance(run, event).1.action is Retry),
{
}

/// A run ends in failure only on an error: the step that ends it aborts
/// exactly when the run then holds an error, and finishes exactly when it
/// holds none.
pub proof fn lemma_abort_iff_error(run: RunView, event: EventView)
    ensures
        advance(run, event).1.action is Abort <==> (advance(run, event).0.stage matches StageView::Finished {
            error: Some(_),
        }),
        advance(run, event).1.action is Finish <==> (advance(run, event).0.stage matches StageView::Finished {
            error: None,
        }),
{
}

/// The listing reports every candidate it found: the step after a listing
/// of `found` prints one line for each candidate, in the listing's order.
/// After them comes the announcement of the first candidate's check, where
/// there is a candidate, and nothing else.
pub proof fn lemma_listing_reports_every_candidate(run: RunView, body: Seq<u8>)
    requires
        run.stage is Listing,
        listing(body) is Ok,
    ensures
        ({
            let found = listing(body)->Ok_0;
            let lines = advance(run, EventView::Response(body)).1.lines;
            &&& lines.len() == found.len() + if found.len() == 0 {
                0int
            } else {
                1int
            }
            &&& lines.take(found.len() as int) == found_lines(found)
            &&& forall|i: int| 0 <= i < found.len() ==> lines[i] == found_line(found[i])
            &&& found.len() > 0 ==> lines.last() == checking_line(found[0])
        }),
{
    let found = listing(body)->Ok_0;
    let lines = advance(run, EventView::Response(body)).1.lines;
    if found.len() == 0 {
        assert(lines.take(0) =~= found_lines(found));
    } else {
        assert(lines == found_lines(found).push(checking_line(found[0])));
        assert(lines.take(found.len() as int) =~= found_lines(found));
    }
}

/// A merge is asked for only for a candidate whose check runs have just
/// been read and have all succeeded: whenever a step sends a request to
/// merge, the run was checking that candidate, the event was the response
/// with its check runs, and every one of them was completed with success.
pub proof fn lemma_merge_only_after_passed_checks(run: RunView, event: EventView)
    requires
        advance(run, event).1.action matches ActionView::Send(request) && request.method
            == Method::Put,
    ensures
        run.stage is Checking,
        event is Response,
        report(event->Response_0) is Ok,
        all_succeeded(report(event->Response_0)->Ok_0),
        advance(run, event).1.action == ActionView::Send(
            merge_request(run.repository, run.stage->Checking_candidate.number),
        ),
        advance(run, event).0.stage == (StageView::Merging {
            candidate: run.stage->Checking_candidate,
            waiting: run.stage->Checking_waiting,
        }),
{
}

/// A candidate whose check runs have all succeeded is merged: the runs are
/// reported, the merge is announced, and the request to merge is sent.
pub proof fn lemma_passed_checks_lead_to_merge(run: RunView, body: Seq<u8>)
    requires
        run.stage is Checking,
        report(body) is Ok,
        all_succeeded(report(body)->Ok_0),
    ensures
        advance(run, EventView::Response(body)).1 == (StepView {
            lines: check_lines(report(body)->Ok_0).push(
                merging_line(run.stage->Checking_candidate),
            ),
            action: ActionView::Send(
                merge_request(run.repository, run.stage->Checking_candidate.number),
            ),
        }),
{
}

/// A candidate with a check run that did not succeed is not merged: the
/// runs are reported and the run goes on to the candidates that wait.
pub proof fn lemma_failed_checks_skip_the_merge(run: RunView, body: Seq<u8>)
    requires
        run.stage is Checking,
        report(body) is Ok,
        !all_succeeded(report(body)->Ok_0),
    ensures
        (advance(run, EventView::Response(body)).0.stage, advance(
            run,
            EventView::Response(body),
        ).1) == take_next(
            run.repository,
            check_lines(report(body)->Ok_0),
            run.stage->Checking_waiting,
        ),
        !(advance(run, EventView::Response(body)).0.stage is Merging),
{
}

/// A commit without any check run passes: the merge of its pull request is
/// announced and asked for.
pub proof fn lemma_no_check_runs_is_a_pass(run: RunView, body: Seq<u8>)
    requires
        run.stage is Checking,
        report(body) == Ok::<Seq<CheckRunView>, RunErrorView>(Seq::empty()),
    ensures
        advance(run, EventView::Response(body)).1 == (StepView {
            lines: seq![merging_line(run.stage->Checking_candidate)],
            action: ActionView::Send(
                merge_request(run.repository, run.stage->Checking_candidate.number),
            ),
        }),
{
    let runs = Seq::<CheckRunView>::empty();
    assert(check_lines(runs).push(merging_line(run.stage->Checking_candidate)) =~= seq![
        merging_line(run.stage->Checking_candidate),
    ]);
}

/// A merge that the host refused is no error. Whatever the answer says, as
/// long as it is JSON, it is reported on one line and the run goes on with
/// the candidates that wait, just as after a merge that happened.
pub proof fn lemma_refused_merge_is_no_error(run: RunView, body: Seq<u8>)
    requires
        run.stage is Merging,
        parsed(body) is Some,
    ensures
        (advance(run, EventView::Response(body)).0.stage, advance(
            run,
            EventView::Response(body),
        ).1) == take_next(
            run.repository,
            seq![merge_line(outcome_of(parsed(body)->0))],
            run.stage->Merging_waiting,
        ),
        !(advance(run, EventView::Response(body)).1.action is Abort),
{
}

} // verus!
