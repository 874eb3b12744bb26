//! Reading the check runs of a commit and deciding whether all of them
//! succeeded.

use crate::error::RunError;
use crate::error::RunErrorView;
use crate::json::parse;
use crate::json::parsed;
use crate::json::unexpected;
use crate::json::values;
use crate::json::Json;
use crate::json::JsonValue;
use crate::text::line_views;
use crate::text::text_eq;
use vstd::prelude::*;
use vstd::slice::slice_to_vec;

verus! {

/// One check run of a commit. A field that the response does not give as a
/// string is empty.
#[derive(Debug, PartialEq, Eq)]
pub struct CheckRun {
    pub name: String,
    pub status: String,
    pub conclusion: String,
}

/// The mathematical value of a [`CheckRun`].
pub struct CheckRunView {
    pub name: Seq<char>,
    pub status: Seq<char>,
    pub conclusion: Seq<char>,
}

impl View for CheckRun {
    type V = CheckRunView;

    open spec fn view(&self) -> CheckRunView {
        CheckRunView { name: self.name@, status: self.status@, conclusion: self.conclusion@ }
    }
}

/// The values of a sequence of check runs, one for one.
pub open spec fn check_run_views(runs: Seq<CheckRun>) -> Seq<CheckRunView> {
    Seq::new(runs.len(), |i: int| runs[i]@)
}

/// The check run that an entry of the response describes.
pub open spec fn check_run_of(entry: JsonValue) -> CheckRunView {
    CheckRunView {
        name: entry.member("name"@).text_or_empty(),
        status: entry.member("status"@).text_or_empty(),
        conclusion: entry.member("conclusion"@).text_or_empty(),
    }
}

/// The check runs that the entries of the response describe, one for one.
pub open spec fn check_runs_of(entries: Seq<JsonValue>) -> Seq<CheckRunView> {
    Seq::new(entries.len(), |i: int| check_run_of(entries[i]))
}

/// What a check-runs payload yields: the runs under `check_runs` where that
/// is an array, nothing otherwise.
pub open spec fn reported(payload: JsonValue) -> Option<Seq<CheckRunView>> {
    match payload.member("check_runs"@).items() {
        Some(entries) => Some(check_runs_of(entries)),
        None => None,
    }
}

/// What the body of a check-runs response yields: the runs, or the error for
/// a body that is no JSON text with an array under `check_runs`.
pub open spec fn report(body: Seq<u8>) -> Result<Seq<CheckRunView>, RunErrorView> {
    match parsed(body) {
        Some(payload) => match reported(payload) {
            Some(runs) => Ok(runs),
            None => Err(unexpected(body)),
        },
        None => Err(unexpected(body)),
    }
}

/// A check run counts as passed when it is completed and its conclusion is
/// success.
pub open spec fn succeeded(run: CheckRunView) -> bool {
    run.status == "completed"@ && run.conclusion == "success"@
}

/// Whether every one of the runs succeeded. No runs at all is a pass.
pub open spec fn all_succeeded(runs: Seq<CheckRunView>) -> bool {
    forall|i: int| 0 <= i < runs.len() ==> succeeded(#[trigger] runs[i])
}

/// The verdict on the body of a check-runs response.
pub open spec fn verdict(body: Seq<u8>) -> Result<bool, RunErrorView> {
    match report(body) {
        Ok(runs) => Ok(all_succeeded(runs)),
        Err(e) => Err(e),
    }
}

/// The line that reports a check run.
pub open spec fn check_line(run: CheckRunView) -> Seq<char> {
    "  name: "@ + run.name + ", status: "@ + run.status + ", conclusion: "@ + run.conclusion
}

/// The lines that report the runs, one for each, in their order.
pub open spec fn check_lines(runs: Seq<CheckRunView>) -> Seq<Seq<char>> {
    Seq::new(runs.len(), |i: int| check_line(runs[i]))
}

fn text_or_empty(entry: &Json, key: &str) -> (text: String)
    ensures
        text@ == entry@.member(key@).text_or_empty(),
{
    match entry.get(key) {
        Some(value) => match value.as_str() {
            Some(s) => s.to_owned(),
            None => String::new(),
        },
        None => String::new(),
    }
}

impl CheckRun {
    /// Whether this run is completed with success.
    pub fn succeeded(&self) -> (yes: bool)
        ensures
            yes == succeeded(self@),
    {
        text_eq(self.status.as_str(), "completed") && text_eq(self.conclusion.as_str(), "success")
    }

    /// The line that reports this run: its name, status and conclusion.
    pub fn line(&self) -> (line: String)
        ensures
            line@ == check_line(self@),
    {
        let mut line = String::from_str("  name: ");
        line.append(self.name.as_str());
        line.append(", status: ");
        line.append(self.status.as_str());
        line.append(", conclusion: ");
        line.append(self.conclusion.as_str());
        line
    }
}

/// Reads one entry of the response. A missing field is read as empty.
pub fn check_run(entry: &Json) -> (run: CheckRun)
    ensures
        run@ == check_run_of(entry@),
{
    CheckRun {
        name: text_or_empty(entry, "name"),
        status: text_or_empty(entry, "status"),
        conclusion: text_or_empty(entry, "conclusion"),
    }
}

/// Reads the runs out of a check-runs payload, in its order.
///
/// Yields nothing exactly when the payload has no array under `check_runs`.
pub fn check_runs(payload: &Json) -> (found: Option<Vec<CheckRun>>)
    ensures
        match found {
            Some(v) => reported(payload@) == Some(check_run_views(v@)),
            None => reported(payload@) is None,
        },
{
    let entries = match payload.get("check_runs") {
        Some(inner) => match inner.as_array() {
            Some(entries) => entries,
            None => return None,
        },
        None => return None,
    };
    let mut found: Vec<CheckRun> = Vec::new();
    let mut i: usize = 0;
    while i < entries.len()
        invariant
            i <= entries.len(),
            found@.len() == i,
            forall|j: int| 0 <= j < i ==> (#[trigger] found@[j])@ == check_run_of(entries@[j]@),
        decreases entries.len() - i,
    {
        found.push(check_run(&entries[i]));
        i += 1;
    }
    assert(check_run_views(found@) =~= check_runs_of(values(entries@)));
    Some(found)
}

/// The lines that report the runs, one for each, in their order.
pub fn report_lines(runs: &Vec<CheckRun>) -> (lines: Vec<String>)
    ensures
        line_views(lines@) == check_lines(check_run_views(runs@)),
{
    let mut lines: Vec<String> = Vec::new();
    let mut i: usize = 0;
    while i < runs.len()
        invariant
            i <= runs.len(),
            lines@.len() == i,
            forall|j: int| 0 <= j < i ==> (#[trigger] lines@[j])@ == check_line(runs@[j]@),
        decreases runs.len() - i,
    {
        lines.push(runs[i].line());
        i += 1;
    }
    assert(line_views(lines@) =~= check_lines(check_run_views(runs@)));
    lines
}

/// Whether all the check runs passed: each of them completed, with success.
/// With no check run at all the answer is yes.
pub fn checks_passed(runs: &Vec<CheckRun>) -> (passed: bool)
    ensures
        passed == all_succeeded(check_run_views(runs@)),
        passed <==> forall|i: int|
            0 <= i < runs@.len() ==> (#[trigger] runs@[i]).status@ == "completed"@
                && runs@[i].conclusion@ == "success"@,
        runs@.len() == 0 ==> passed,
{
    let ghost all = check_run_views(runs@);
    let mut i: usize = 0;
    while i < runs.len()
        invariant
            i <= runs.len(),
            all == check_run_views(runs@),
            forall|j: int| 0 <= j < i ==> succeeded(#[trigger] all[j]),
        decreases runs.len() - i,
    {
        if !runs[i].succeeded() {
            assert(!succeeded(all[i as int]));
            return false;
        }
        i += 1;
    }
    assert forall|j: int| 0 <= j < runs@.len() implies (#[trigger] runs@[j]).status@
        == "completed"@ && runs@[j].conclusion@ == "success"@ by {
        assert(succeeded(all[j]));
    }
    true
}

/// Reads the body of a check-runs response.
///
/// Fails, with the body in the error, exactly when the body is no JSON text
/// or has no array under `check_runs`.
pub fn read_check_runs(body: &[u8]) -> (found: Result<Vec<CheckRun>, RunError>)
    ensures
        match found {
            Ok(v) => report(body@) == Ok::<Seq<CheckRunView>, RunErrorView>(check_run_views(v@)),
            Err(e) => report(body@) == Err::<Seq<CheckRunView>, RunErrorView>(e@),
        },
{
    let payload = match parse(body) {
        Ok(payload) => payload,
        Err(e) => return Err(e),
    };
    match check_runs(&payload) {
        Some(found) => Ok(found),
        None => Err(RunError::UnexpectedResponse { payload: slice_to_vec(body) }),
    }
}

/// Decides from the body of a check-runs response whether the commit's
/// checks passed.
pub fn check_pull_request(body: &[u8]) -> (passed: Result<bool, RunError>)
    ensures
        match passed {
            Ok(b) => verdict(body@) == Ok::<bool, RunErrorView>(b),
            Err(e) => verdict(body@) == Err::<bool, RunErrorView>(e@),
        },
{
    match read_check_runs(body) {
        Ok(runs) => Ok(checks_passed(&runs)),
        Err(e) => Err(e),
    }
}

} // verus!
