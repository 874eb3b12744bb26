//! A run, decision by decision.
//!
//! Each decision looks at where the run stands and at what the last request
//! brought, and says what to print and what to do next. Nothing here sends a
//! request: the caller does what an [`Action`] says and reports back with an
//! [`Event`].
//!
//! The listing's candidates are reported, one line each. They are then
//! handled strictly one after the other, in the order of the listing. For
//! each, its check runs are asked for; where all of them
//! succeeded, its merge is asked for. The first error ends the run, whoever
//! is still waiting.

use crate::checks::all_succeeded;
use crate::checks::check_lines;
use crate::checks::check_run_views;
use crate::checks::checks_passed;
use crate::checks::read_check_runs;
use crate::checks::report;
use crate::checks::report_lines;
use crate::checks::CheckRun;
use crate::checks::CheckRunView;
use crate::client::check_runs_request;
use crate::client::list_request;
use crate::client::merge_request;
use crate::client::Client;
use crate::client::ClientView;
use crate::client::Request;
use crate::client::RequestView;
use crate::error::RunError;
use crate::error::RunErrorView;
use crate::merge::merge_line;
use crate::merge::merge_pull_request;
use crate::merge::merging;
use crate::merge::MergeOutcome;
use crate::merge::MergeOutcomeView;
use crate::pulls::candidate_views;
use crate::pulls::found_lines;
use crate::pulls::list_pull_requests;
use crate::pulls::listing;
use crate::pulls::report_found;
use crate::pulls::Candidate;
use crate::pulls::CandidateView;
use crate::retry::after_failure;
use crate::text::line_views;
use crate::text::no_lines;
use vstd::prelude::*;

verus! {


/// Where a run stands.
#[derive(Debug, PartialEq, Eq)]
pub enum Stage {
    /// The listing has been asked for.
    Listing,
    /// The check runs of `candidate` have been asked for; `waiting` come
    /// after it.
    Checking { candidate: Candidate, waiting: Vec<Candidate> },
    /// The merge of `candidate` has been asked for; `waiting` come after it.
    Merging { candidate: Candidate, waiting: Vec<Candidate> },
    /// The run is over, with the error that ended it if one did.
    Finished { error: Option<RunError> },
}

/// A run in progress.
#[derive(Debug, PartialEq, Eq)]
pub struct Run {
    pub repository: String,
    pub client: Client,
    /// How often the request that is under way has been retried.
    pub retries: u32,
    pub stage: Stage,
}

/// What the last request brought.
#[derive(Debug, PartialEq, Eq)]
pub enum Event {
    /// The body of the response.
    Response(Vec<u8>),
    /// The attempt failed; the text says how.
    Failed(String),
}

/// What the caller is to do next.
#[derive(Debug, PartialEq, Eq)]
pub enum Action {
    /// Send this request.
    Send(Request),
    /// Wait for `delay_ms` milliseconds, then send this request again.
    Retry { delay_ms: u64, request: Request },
    /// Stop: the run is done.
    Finish,
    /// Stop: the run has failed.
    Abort(RunError),
}

/// One decision: the lines to print, in order, and then what to do.
#[derive(Debug, PartialEq, Eq)]
pub struct Step {
    pub lines: Vec<String>,
    pub action: Action,
}

/// The mathematical value of a [`Stage`].
pub enum StageView {
    Listing,
    Checking { candidate: CandidateView, waiting: Seq<CandidateView> },
    Merging { candidate: CandidateView, waiting: Seq<CandidateView> },
    Finished { error: Option<RunErrorView> },
}

/// The mathematical value of a [`Run`].
pub struct RunView {
    pub repository: Seq<char>,
    pub client: ClientView,
    pub retries: u32,
    pub stage: StageView,
}

/// The mathematical value of an [`Event`].
pub enum EventView {
    Response(Seq<u8>),
    Failed(Seq<char>),
}

/// The mathematical value of an [`Action`].
pub enum ActionView {
    Send(RequestView),
    Retry { delay_ms: u64, request: RequestView },
    Finish,
    Abort(RunErrorView),
}

/// The mathematical value of a [`Step`].
pub struct StepView {
    pub lines: Seq<Seq<char>>,
    pub action: ActionView,
}

impl View for Stage {
    type V = StageView;

    open spec fn view(&self) -> StageView {
        match self {
            Stage::Listing => StageView::Listing,
            Stage::Checking { candidate, waiting } => StageView::Checking {
                candidate: candidate@,
                waiting: candidate_views(waiting@),
            },
            Stage::Merging { candidate, waiting } => StageView::Merging {
                candidate: candidate@,
                waiting: candidate_views(waiting@),
            },
            Stage::Finished { error } => StageView::Finished {
                error: match error {
                    Some(e) => Some(e@),
                    None => None,
                },
            },
        }
    }
}

impl View for Run {
    type V = RunView;

    open spec fn view(&self) -> RunView {
        RunView {
            repository: self.repository@,
            client: self.client@,
            retries: self.retries,
            stage: self.stage@,
        }
    }
}

impl View for Event {
    type V = EventView;

    open spec fn view(&self) -> EventView {
        match self {
            Event::Response(body) => EventView::Response(body@),
            Event::Failed(reason) => EventView::Failed(reason@),
        }
    }
}

impl View for Action {
    type V = ActionView;

    open spec fn view(&self) -> ActionView {
        match self {
            Action::Send(request) => ActionView::Send(request@),
            Action::Retry { delay_ms, request } => ActionView::Retry {
                delay_ms: *delay_ms,
                request: request@,
            },
            Action::Finish => ActionView::Finish,
            Action::Abort(e) => ActionView::Abort(e@),
        }
    }
}

impl View for Step {
    type V = StepView;

    open spec fn view(&self) -> StepView {
        StepView { lines: line_views(self.lines@), action: self.action@ }
    }
}

/// The line that announces the check of a candidate.
pub open spec fn checking_line(candidate: CandidateView) -> Seq<char> {
    "checking: "@ + candidate.head_ref
}

/// The line that announces the merge of a candidate.
pub open spec fn merging_line(candidate: CandidateView) -> Seq<char> {
    "merging: "@ + candidate.head_ref
}

/// The request that a run is waiting on; none once it is over.
pub open spec fn pending(run: RunView) -> Option<RequestView> {
    match run.stage {
        StageView::Listing => Some(list_request(run.repository)),
        StageView::Checking { candidate, waiting } => Some(
            check_runs_request(run.repository, candidate.head_sha),
        ),
        StageView::Merging { candidate, waiting } => Some(
            merge_request(run.repository, candidate.number),
        ),
        StageView::Finished { error } => None,
    }
}

/// A run that is over answers with its outcome, and stays as it is.
pub open spec fn outcome(run: RunView, error: Option<RunErrorView>) -> (RunView, StepView) {
    (
        run,
        StepView {
            lines: Seq::empty(),
            action: match error {
                Some(e) => ActionView::Abort(e),
                None => ActionView::Finish,
            },
        },
    )
}

/// The end on `error`: nothing more is printed or sent.
pub open spec fn stop(error: RunErrorView) -> (StageView, StepView) {
    (
        StageView::Finished { error: Some(error) },
        StepView { lines: Seq::empty(), action: ActionView::Abort(error) },
    )
}

/// On to the first of `waiting`, after printing `lines`: its check is
/// announced and its check runs are asked for. With nobody waiting the run
/// is done.
pub open spec fn take_next(
    repository: Seq<char>,
    lines: Seq<Seq<char>>,
    waiting: Seq<CandidateView>,
) -> (StageView, StepView) {
    if waiting.len() == 0 {
        (StageView::Finished { error: None }, StepView { lines, action: ActionView::Finish })
    } else {
        let candidate = waiting[0];
        (
            StageView::Checking { candidate, waiting: waiting.skip(1) },
            StepView {
                lines: lines.push(checking_line(candidate)),
                action: ActionView::Send(check_runs_request(repository, candidate.head_sha)),
            },
        )
    }
}

/// What follows the listing: every candidate found is reported on a line,
/// in the listing's order, and the candidates are then taken in that order,
/// starting with the first. A listing that could not be read ends the run.
pub open spec fn after_listing(
    repository: Seq<char>,
    found: Result<Seq<CandidateView>, RunErrorView>,
) -> (StageView, StepView) {
    match found {
        Ok(found) => take_next(repository, found_lines(found), found),
        Err(e) => stop(e),
    }
}

/// What follows the check runs of `candidate`: each is reported on a line.
/// Where all succeeded (or there is none) the merge is announced and asked
/// for; otherwise the run goes on to the first of `waiting`. Check runs
/// that could not be read end the run.
pub open spec fn after_checks(
    repository: Seq<char>,
    candidate: CandidateView,
    waiting: Seq<CandidateView>,
    runs: Result<Seq<CheckRunView>, RunErrorView>,
) -> (StageView, StepView) {
    match runs {
        Ok(runs) => if all_succeeded(runs) {
            (
                StageView::Merging { candidate, waiting },
                StepView {
                    lines: check_lines(runs).push(merging_line(candidate)),
                    action: ActionView::Send(merge_request(repository, candidate.number)),
                },
            )
        } else {
            take_next(repository, check_lines(runs), waiting)
        },
        Err(e) => stop(e),
    }
}

/// What follows the answer to a merge: it is reported on a line, merged or
/// not, and the run goes on to the first of `waiting`. An answer that could
/// not be read ends the run.
pub open spec fn after_merge(
    repository: Seq<char>,
    waiting: Seq<CandidateView>,
    merged: Result<MergeOutcomeView, RunErrorView>,
) -> (StageView, StepView) {
    match merged {
        Ok(merged) => take_next(repository, seq![merge_line(merged)], waiting),
        Err(e) => stop(e),
    }
}

/// What a response leads to, from each stage: the body is read as that
/// stage's answer, and the stage decides. The next request starts with no
/// retries made.
pub open spec fn on_response(run: RunView, body: Seq<u8>) -> (RunView, StepView) {
    match run.stage {
        StageView::Listing => {
            let (stage, step) = after_listing(run.repository, listing(body));
            (RunView { retries: 0, stage, ..run }, step)
        },
        StageView::Checking { candidate, waiting } => {
            let (stage, step) = after_checks(run.repository, candidate, waiting, report(body));
            (RunView { retries: 0, stage, ..run }, step)
        },
        StageView::Merging { candidate, waiting } => {
            let (stage, step) = after_merge(run.repository, waiting, merging(body));
            (RunView { retries: 0, stage, ..run }, step)
        },
        StageView::Finished { error } => outcome(run, error),
    }
}

/// What a failed attempt leads to: the same request once more after the
/// delay, while retries are left; the end of the run, with what the last
/// attempt said, when none is.
pub open spec fn on_failure(run: RunView, reason: Seq<char>) -> (RunView, StepView) {
    match run.stage {
        StageView::Finished { error } => outcome(run, error),
        _ => match after_failure(run.client.retry, run.retries as nat) {
            Some(delay_ms) => (
                RunView { retries: (run.retries + 1) as u32, ..run },
                StepView {
                    lines: Seq::empty(),
                    action: ActionView::Retry { delay_ms, request: pending(run)->0 },
                },
            ),
            None => {
                let (stage, step) = stop(RunErrorView::Request { reason });
                (RunView { stage, ..run }, step)
            },
        },
    }
}

/// The decision of a run on an event.
pub open spec fn advance(run: RunView, event: EventView) -> (RunView, StepView) {
    match event {
        EventView::Response(body) => on_response(run, body),
        EventView::Failed(reason) => on_failure(run, reason),
    }
}

impl Stage {
    /// Ends the run on `error`.
    pub fn stop(error: RunError) -> (next: (Stage, Step))
        ensures
            (next.0@, next.1@) == stop(error@),
    {
        let again = error.clone();
        let lines = no_lines();
        (Stage::Finished { error: Some(error) }, Step { lines, action: Action::Abort(again) })
    }

    /// Goes on to the first of `waiting`, after the `lines` that are to be
    /// printed before.
    pub fn take_next(repository: &str, lines: Vec<String>, waiting: Vec<Candidate>) -> (next: (
        Stage,
        Step,
    ))
        ensures
            (next.0@, next.1@) == take_next(
                repository@,
                line_views(lines@),
                candidate_views(waiting@),
            ),
    {
        let mut lines = lines;
        let mut waiting = waiting;
        if waiting.len() == 0 {
            (Stage::Finished { error: None }, Step { lines, action: Action::Finish })
        } else {
            let ghost all = waiting@;
            let ghost printed = lines@;
            let candidate = waiting.remove(0);
            assert(candidate_views(waiting@) =~= candidate_views(all).skip(1));
            let mut line = String::from_str("checking: ");
            line.append(candidate.head_ref.as_str());
            lines.push(line);
            assert(line_views(lines@) =~= line_views(printed).push(checking_line(candidate@)));
            let request = Request::list_checks(repository, candidate.head_sha.as_str());
            (Stage::Checking { candidate, waiting }, Step { lines, action: Action::Send(request) })
        }
    }

    /// Decides what follows the listing.
    pub fn after_listing(repository: &str, found: Result<Vec<Candidate>, RunError>) -> (next: (
        Stage,
        Step,
    ))
        ensures
            (next.0@, next.1@) == after_listing(
                repository@,
                match found {
                    Ok(v) => Ok(candidate_views(v@)),
                    Err(e) => Err(e@),
                },
            ),
    {
        match found {
            Ok(found) => {
                let lines = report_found(&found);
                Stage::take_next(repository, lines, found)
            },
            Err(e) => Stage::stop(e),
        }
    }

    /// Decides what follows the check runs of `candidate`.
    pub fn after_checks(
        repository: &str,
        candidate: Candidate,
        waiting: Vec<Candidate>,
        runs: Result<Vec<CheckRun>, RunError>,
    ) -> (next: (Stage, Step))
        ensures
            (next.0@, next.1@) == after_checks(
                repository@,
                candidate@,
                candidate_views(waiting@),
                match runs {
                    Ok(v) => Ok(check_run_views(v@)),
                    Err(e) => Err(e@),
                },
            ),
    {
        match runs {
            Ok(runs) => {
                let mut lines = report_lines(&runs);
                if checks_passed(&runs) {
                    let ghost printed = lines@;
                    let mut line = String::from_str("merging: ");
                    line.append(candidate.head_ref.as_str());
                    lines.push(line);
                    assert(line_views(lines@) =~= line_views(printed).push(
                        merging_line(candidate@),
                    ));
                    let request = Request::merge(repository, candidate.number);
                    (
                        Stage::Merging { candidate, waiting },
                        Step { lines, action: Action::Send(request) },
                    )
                } else {
                    Stage::take_next(repository, lines, waiting)
                }
            },
            Err(e) => Stage::stop(e),
        }
    }

    /// Decides what follows the answer to a merge.
    pub fn after_merge(
        repository: &str,
        waiting: Vec<Candidate>,
        merged: Result<MergeOutcome, RunError>,
    ) -> (next: (Stage, Step))
        ensures
            (next.0@, next.1@) == after_merge(
                repository@,
                candidate_views(waiting@),
                match merged {
                    Ok(o) => Ok(o@),
                    Err(e) => Err(e@),
                },
            ),
    {
        match merged {
            Ok(merged) => {
                let mut lines: Vec<String> = Vec::new();
                lines.push(merged.line());
                assert(line_views(lines@) =~= seq![merge_line(merged@)]);
                Stage::take_next(repository, lines, waiting)
            },
            Err(e) => Stage::stop(e),
        }
    }
}

impl Run {
    /// Whether the run is over.
    pub fn is_finished(&self) -> (over: bool)
        ensures
            over == (self@.stage is Finished),
    {
        match self.stage {
            Stage::Finished { .. } => true,
            _ => false,
        }
    }

    /// The request that the run is waiting on; none once it is over.
    pub fn pending(&self) -> (request: Option<Request>)
        ensures
            match request {
                Some(r) => pending(self@) == Some(r@),
                None => pending(self@) is None,
            },
    {
        match &self.stage {
            Stage::Listing => Some(Request::list_pulls(self.repository.as_str())),
            Stage::Checking { candidate, waiting } => Some(
                Request::list_checks(self.repository.as_str(), candidate.head_sha.as_str()),
            ),
            Stage::Merging { candidate, waiting } => Some(
                Request::merge(self.repository.as_str(), candidate.number),
            ),
            Stage::Finished { error } => None,
        }
    }

    fn outcome(self) -> (next: (Run, Step))
        requires
            self@.stage is Finished,
        ensures
            (next.0@, next.1@) == outcome(self@, self@.stage->error),
    {
        let action = match &self.stage {
            Stage::Finished { error: Some(e) } => Action::Abort(e.clone()),
            _ => Action::Finish,
        };
        let lines = no_lines();
        (self, Step { lines, action })
    }

    fn on_response(self, body: &[u8]) -> (next: (Run, Step))
        ensures
            (next.0@, next.1@) == on_response(self@, body@),
    {
        let Run { repository, client, retries, stage } = self;
        let (stage, step) = match stage {
            Stage::Listing => Stage::after_listing(repository.as_str(), list_pull_requests(body)),
            Stage::Checking { candidate, waiting } => Stage::after_checks(
                repository.as_str(),
                candidate,
                waiting,
                read_check_runs(body),
            ),
            Stage::Merging { candidate, waiting } => Stage::after_merge(
                repository.as_str(),
                waiting,
                merge_pull_request(body),
            ),
            Stage::Finished { error } => {
                let over = Run { repository, client, retries, stage: Stage::Finished { error } };
                return over.outcome();
            },
        };
        (Run { repository, client, retries: 0, stage }, step)
    }

    fn on_failure(self, reason: String) -> (next: (Run, Step))
        ensures
            (next.0@, next.1@) == on_failure(self@, reason@),
    {
        let request = match self.pending() {
            Some(request) => request,
            None => return self.outcome(),
        };
        match self.client.retry.after_failure(self.retries) {
            Some(delay_ms) => {
                let Run { repository, client, retries, stage } = self;
                let lines = no_lines();
                (
                    Run { repository, client, retries: retries + 1, stage },
                    Step { lines, action: Action::Retry { delay_ms, request } },
                )
            },
            None => {
                let Run { repository, client, retries, stage } = self;
                let (stage, step) = Stage::stop(RunError::Request { reason });
                (Run { repository, client, retries, stage }, step)
            },
        }
    }

    /// Decides what follows `event`.
    ///
    /// The result is the run as it stands afterwards, and the step to take:
    /// the lines to print and the action to perform. A run that is over
    /// stays as it is and answers with its outcome.
    pub fn advance(self, event: Event) -> (next: (Run, Step))
        ensures
            (next.0@, next.1@) == advance(self@, event@),
    {
        match event {
            Event::Response(body) => self.on_response(body.as_slice()),
            Event::Failed(reason) => self.on_failure(reason),
        }
    }
}

} // verus!
