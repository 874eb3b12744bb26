//! The ways a run can fail.

use crate::text::lossy;
use crate::text::lossy_text;
use vstd::prelude::*;
use vstd::slice::slice_to_vec;
use vstd::utf8::decode_utf8;
use vstd::utf8::valid_utf8;

verus! {

/// Why a run stopped early. Each of them ends the run; none is retried or
/// downgraded once it has been raised.
#[derive(Debug, PartialEq, Eq)]
pub enum RunError {
    /// The access token is absent from the environment.
    Config,
    /// The access token cannot stand in a header: it holds a control
    /// character other than a tab.
    InvalidToken,
    /// A request failed, its retries included. `reason` is what the
    /// transport said of the last attempt.
    Request { reason: String },
    /// A response body that is no JSON text, or whose JSON has another shape
    /// than the call expects. `payload` is the body as it arrived.
    UnexpectedResponse { payload: Vec<u8> },
}

/// The mathematical value of a [`RunError`].
pub enum RunErrorView {
    Config,
    InvalidToken,
    Request { reason: Seq<char> },
    UnexpectedResponse { payload: Seq<u8> },
}

impl View for RunError {
    type V = RunErrorView;

    open spec fn view(&self) -> RunErrorView {
        match self {
            RunError::Config => RunErrorView::Config,
            RunError::InvalidToken => RunErrorView::InvalidToken,
            RunError::Request { reason } => RunErrorView::Request { reason: reason@ },
            RunError::UnexpectedResponse { payload } => RunErrorView::UnexpectedResponse {
                payload: payload@,
            },
        }
    }
}

impl Clone for RunError {
    fn clone(&self) -> (copy: RunError)
        ensures
            copy@ == self@,
    {
        match self {
            RunError::Config => RunError::Config,
            RunError::InvalidToken => RunError::InvalidToken,
            RunError::Request { reason } => RunError::Request { reason: reason.clone() },
            RunError::UnexpectedResponse { payload } => RunError::UnexpectedResponse {
                payload: slice_to_vec(payload.as_slice()),
            },
        }
    }
}

impl RunErrorView {
    /// The description that is printed when the run stops on this error.
    pub open spec fn message(self) -> Seq<char> {
        match self {
            RunErrorView::Config => "environment variable not found"@,
            RunErrorView::InvalidToken => "failed to parse header value"@,
            RunErrorView::Request { reason } => reason,
            RunErrorView::UnexpectedResponse { payload } => "unexpected response: "@ + lossy_text(
                payload,
            ),
        }
    }
}

impl RunError {
    /// The description to print when the run stops on this error. For an
    /// unexpected response it carries the payload.
    pub fn message(&self) -> (text: String)
        ensures
            text@ == self@.message(),
            self@ matches RunErrorView::UnexpectedResponse { payload } ==> (valid_utf8(payload)
                ==> text@ == "unexpected response: "@ + decode_utf8(payload)),
    {
        match self {
            RunError::Config => String::from_str("environment variable not found"),
            RunError::InvalidToken => String::from_str("failed to parse header value"),
            RunError::Request { reason } => reason.clone(),
            RunError::UnexpectedResponse { payload } => {
                let shown = lossy(payload.as_slice());
                String::from_str("unexpected response: ").concat(shown.as_str())
            },
        }
    }
}

} // verus!
