//! The command line, and the start of a run.

use crate::client::connected;
use crate::client::list_request;
use crate::client::Client;
use crate::client::Request;
use crate::error::RunError;
use crate::error::RunErrorView;
use crate::run::Action;
use crate::run::ActionView;
use crate::run::Run;
use crate::run::RunView;
use crate::run::Stage;
use crate::run::StageView;
use crate::run::Step;
use crate::run::StepView;
use crate::text::no_lines;
use vstd::prelude::*;

verus! {

/// The command line: the repository to work on, written `owner/name`.
#[derive(Debug, PartialEq, Eq)]
pub struct Cli {
    pub repository: String,
}

/// The characters of the token, where there is one.
pub open spec fn token_text(token: Option<&str>) -> Option<Seq<char>> {
    match token {
        Some(t) => Some(t@),
        None => None,
    }
}

/// How a run starts: with the client for the token and the request for the
/// listing. Without a token, or with one that cannot stand in a header,
/// there is no run.
pub open spec fn begin(repository: Seq<char>, token: Option<Seq<char>>) -> Result<
    (RunView, StepView),
    RunErrorView,
> {
    match token {
        Some(token) => match connected(token) {
            Ok(client) => Ok(
                (
                    RunView { repository, client, retries: 0, stage: StageView::Listing },
                    StepView {
                        lines: Seq::empty(),
                        action: ActionView::Send(list_request(repository)),
                    },
                ),
            ),
            Err(e) => Err(e),
        },
        None => Err(RunErrorView::Config),
    }
}

impl Cli {
    /// The command line for a repository.
    pub fn new(repository: String) -> (cli: Cli)
        ensures
            cli.repository == repository,
    {
        Cli { repository }
    }

    /// Starts a run on the repository.
    ///
    /// `token` is the access token as the environment holds it. Without one
    /// there is no run, and nothing is to be sent; nor is there with a token
    /// that cannot stand in a header. With a token that can, the run starts
    /// by asking for the listing; the caller sends what the step says and
    /// hands each outcome to [`Run::advance`] until the action is
    /// [`Action::Finish`] or [`Action::Abort`].
    pub fn run(&self, token: Option<&str>) -> (started: Result<(Run, Step), RunError>)
        ensures
            match started {
                Ok(first) => begin(self.repository@, token_text(token)) == Ok::<
                    (RunView, StepView),
                    RunErrorView,
                >((first.0@, first.1@)),
                Err(e) => begin(self.repository@, token_text(token)) == Err::<
                    (RunView, StepView),
                    RunErrorView,
                >(e@),
            },
    {
        match token {
            Some(token) => {
                let client = match Client::new(token) {
                    Ok(client) => client,
                    Err(e) => return Err(e),
                };
                let lines = no_lines();
                let request = Request::list_pulls(self.repository.as_str());
                Ok(
                    (
                        Run {
                            repository: self.repository.clone(),
                            client,
                            retries: 0,
                            stage: Stage::Listing,
                        },
                        Step { lines, action: Action::Send(request) },
                    ),
                )
            },
            None => Err(RunError::Config),
        }
    }
}

} // verus!
