//! Reading the answer to a merge.

use crate::error::RunError;
use crate::error::RunErrorView;
use crate::json::parse;
use crate::json::parsed;
use crate::json::unexpected;
use crate::json::Json;
use crate::json::JsonValue;
use crate::text::bool_str;
use crate::text::bool_text;
use vstd::prelude::*;

verus! {

/// What the host said of a merge. A merge that did not happen is an outcome
/// like any other, not an error.
#[derive(Debug, PartialEq, Eq)]
pub struct MergeOutcome {
    pub merged: bool,
    pub message: String,
}

/// The mathematical value of a [`MergeOutcome`].
pub struct MergeOutcomeView {
    pub merged: bool,
    pub message: Seq<char>,
}

impl View for MergeOutcome {
    type V = MergeOutcomeView;

    open spec fn view(&self) -> MergeOutcomeView {
        MergeOutcomeView { merged: self.merged, message: self.message@ }
    }
}

/// What a merge payload says: `merged` where it is a truth value, else
/// false; `message` where it is a string, else the empty string.
pub open spec fn outcome_of(payload: JsonValue) -> MergeOutcomeView {
    MergeOutcomeView {
        merged: match payload.member("merged"@).boolean() {
            Some(b) => b,
            None => false,
        },
        message: payload.member("message"@).text_or_empty(),
    }
}

/// What the body of a merge response yields: the outcome, or the error for
/// a body that is no JSON text.
pub open spec fn merging(body: Seq<u8>) -> Result<MergeOutcomeView, RunErrorView> {
    match parsed(body) {
        Some(payload) => Ok(outcome_of(payload)),
        None => Err(unexpected(body)),
    }
}

/// The line that reports a merge outcome.
pub open spec fn merge_line(outcome: MergeOutcomeView) -> Seq<char> {
    "  merged: "@ + bool_text(outcome.merged) + ", message: "@ + outcome.message
}

impl MergeOutcome {
    /// The line that reports this outcome, with the host's message as it
    /// came.
    pub fn line(&self) -> (line: String)
        ensures
            line@ == merge_line(self@),
    {
        let mut line = String::from_str("  merged: ");
        line.append(bool_str(self.merged));
        line.append(", message: ");
        line.append(self.message.as_str());
        line
    }
}

/// Reads a merge payload. A field that is missing or of another type takes
/// its default.
pub fn merge_outcome(payload: &Json) -> (outcome: MergeOutcome)
    ensures
        outcome@ == outcome_of(payload@),
{
    let merged = match payload.get("merged") {
        Some(value) => match value.as_bool() {
            Some(b) => b,
            None => false,
        },
        None => false,
    };
    let message = match payload.get("message") {
        Some(value) => match value.as_str() {
            Some(s) => s.to_owned(),
            None => String::new(),
        },
        None => String::new(),
    };
    MergeOutcome { merged, message }
}

/// Reads the body of a merge response.
///
/// Fails, with the body in the error, exactly when the body is no JSON text.
pub fn merge_pull_request(body: &[u8]) -> (outcome: Result<MergeOutcome, RunError>)
    ensures
        match outcome {
            Ok(o) => merging(body@) == Ok::<MergeOutcomeView, RunErrorView>(o@),
            Err(e) => merging(body@) == Err::<MergeOutcomeView, RunErrorView>(e@),
        },
{
    match parse(body) {
        Ok(payload) => Ok(merge_outcome(&payload)),
        Err(e) => Err(e),
    }
}

} // verus!
