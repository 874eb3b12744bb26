//! The requests of a run: what is sent to the host, and under which headers.

use crate::error::RunError;
use crate::error::RunErrorView;
use crate::retry::standard_policy;
use crate::retry::RetryPolicy;
use crate::text::decimal;
use crate::text::decimal_text;
use vstd::prelude::*;
use vstd::string::StringSliceAdditionalSpecFns;
use vstd::utf8::encode_utf8;
use vstd::utf8::is_ascii_chars;
use vstd::utf8::is_ascii_chars_encode_utf8;

verus! {

/// The method of a request.
#[derive(Clone, Copy, Debug, PartialEq, Eq)]
pub enum Method {
    Get,
    Put,
}

/// A request to the host.
#[derive(Debug, PartialEq, Eq)]
pub struct Request {
    pub method: Method,
    pub url: String,
    /// The body, for a request that has one.
    pub body: Option<String>,
}

/// The mathematical value of a [`Request`].
pub struct RequestView {
    pub method: Method,
    pub url: Seq<char>,
    pub body: Option<Seq<char>>,
}

impl View for Request {
    type V = RequestView;

    open spec fn view(&self) -> RequestView {
        RequestView {
            method: self.method,
            url: self.url@,
            body: match self.body {
                Some(b) => Some(b@),
                None => None,
            },
        }
    }
}

/// What every request of a run is sent with: the two headers, and the
/// policy for retrying it. Made once, at the start of the run.
#[derive(Debug, PartialEq, Eq)]
pub struct Client {
    /// The value of the `Authorization` header.
    pub authorization: String,
    /// The value of the `User-Agent` header.
    pub user_agent: String,
    pub retry: RetryPolicy,
}

/// The mathematical value of a [`Client`].
pub struct ClientView {
    pub authorization: Seq<char>,
    pub user_agent: Seq<char>,
    pub retry: RetryPolicy,
}

impl View for Client {
    type V = ClientView;

    open spec fn view(&self) -> ClientView {
        ClientView {
            authorization: self.authorization@,
            user_agent: self.user_agent@,
            retry: self.retry,
        }
    }
}

/// The client for an access token: the token goes into the `Authorization`
/// header behind the word `token`, the tool names itself `auto-merge`, and
/// every request is retried three times, 200 ms apart.
pub open spec fn client_for(token: Seq<char>) -> ClientView {
    ClientView {
        authorization: "token "@ + token,
        user_agent: "auto-merge"@,
        retry: standard_policy(),
    }
}

/// Whether bytes can be the value of a header: none of them is a control
/// character, the tab excepted.
pub open spec fn header_text(text: Seq<u8>) -> bool {
    forall|i: int|
        0 <= i < text.len() ==> ((#[trigger] text[i]) >= 32 && text[i] != 127) || text[i] == 9
}

/// What making the client for an access token gives: the client, where the
/// `Authorization` header that carries the token can be the value of a
/// header; the error for a token that cannot stand in a header otherwise.
pub open spec fn connected(token: Seq<char>) -> Result<ClientView, RunErrorView> {
    if header_text(encode_utf8(client_for(token).authorization)) {
        Ok(client_for(token))
    } else {
        Err(RunErrorView::InvalidToken)
    }
}

/// The address under which the host keeps a repository.
pub open spec fn repository_url(repository: Seq<char>) -> Seq<char> {
    "https://api.github.com/repos/"@ + repository
}

/// The request that lists the open pull requests of a repository.
pub open spec fn list_request(repository: Seq<char>) -> RequestView {
    RequestView { method: Method::Get, url: repository_url(repository) + "/pulls"@, body: None }
}

/// The request that lists the check runs of a commit.
pub open spec fn check_runs_request(repository: Seq<char>, sha: Seq<char>) -> RequestView {
    RequestView {
        method: Method::Get,
        url: repository_url(repository) + "/commits/"@ + sha + "/check-runs"@,
        body: None,
    }
}

/// The body of every merge request: it asks for a squash merge.
pub open spec fn merge_body() -> Seq<char> {
    "{\"merge_method\":\"squash\"}"@
}

/// The request that squash-merges a pull request.
pub open spec fn merge_request(repository: Seq<char>, number: u64) -> RequestView {
    RequestView {
        method: Method::Put,
        url: repository_url(repository) + "/pulls/"@ + decimal_text(number as nat) + "/merge"@,
        body: Some(merge_body()),
    }
}

proof fn lemma_encode_concat(first: Seq<char>, second: Seq<char>)
    ensures
        encode_utf8(first + second) == encode_utf8(first) + encode_utf8(second),
    decreases first.len(),
{
    if first.len() == 0 {
        assert(first + second =~= second);
        assert(encode_utf8(first) + encode_utf8(second) =~= encode_utf8(second));
    } else {
        assert((first + second).drop_first() =~= first.drop_first() + second);
        lemma_encode_concat(first.drop_first(), second);
        assert(encode_utf8(first + second) =~= encode_utf8(first) + encode_utf8(second));
    }
}

/// The token alone decides: the client is made exactly when none of the
/// token's bytes is a control character other than a tab.
pub proof fn lemma_token_decides(token: Seq<char>)
    ensures
        connected(token) is Ok <==> header_text(encode_utf8(token)),
        connected(token) is Ok ==> connected(token) == Ok::<ClientView, RunErrorView>(
            client_for(token),
        ),
        !header_text(encode_utf8(token)) ==> connected(token) == Err::<
            ClientView,
            RunErrorView,
        >(RunErrorView::InvalidToken),
{
    let word = "token "@;
    reveal_strlit("token ");
    assert(is_ascii_chars(word));
    is_ascii_chars_encode_utf8(word);
    let head = encode_utf8(word);
    assert(head.len() == 6);
    assert forall|i: int| 0 <= i < head.len() implies (#[trigger] head[i]) >= 32 && head[i]
        != 127 by {
        assert(head[i] == word[i] as u8);
    }
    lemma_encode_concat(word, token);
    let tail = encode_utf8(token);
    let all = encode_utf8(word + token);
    assert(all == head + tail);
    if header_text(tail) {
        assert forall|i: int| 0 <= i < all.len() implies ((#[trigger] all[i]) >= 32 && all[i]
            != 127) || all[i] == 9 by {
            if i >= head.len() {
                assert(all[i] == tail[i - head.len()]);
            } else {
                assert(all[i] == head[i]);
            }
        }
    }
    if header_text(all) {
        assert forall|i: int| 0 <= i < tail.len() implies ((#[trigger] tail[i]) >= 32 && tail[i]
            != 127) || tail[i] == 9 by {
            assert(tail[i] == all[i + head.len()]);
        }
    }
}

/// Whether a string can be the value of a header.
pub fn is_header_text(text: &str) -> (ok: bool)
    ensures
        ok == header_text(text.spec_bytes()),
{
    let bytes = text.as_bytes();
    let mut i: usize = 0;
    while i < bytes.len()
        invariant
            i <= bytes.len(),
            bytes@ == text.spec_bytes(),
            forall|j: int|
                0 <= j < i ==> ((#[trigger] bytes@[j]) >= 32 && bytes@[j] != 127) || bytes@[j]
                    == 9,
        decreases bytes.len() - i,
    {
        let b = bytes[i];
        if !((b >= 32 && b != 127) || b == 9) {
            return false;
        }
        i += 1;
    }
    true
}

impl Client {
    /// Makes the client for an access token.
    ///
    /// Fails exactly when the token cannot stand in a header, which is when
    /// the `Authorization` value made of it holds a control character other
    /// than a tab.
    pub fn new(github_token: &str) -> (made: Result<Client, RunError>)
        ensures
            match made {
                Ok(client) => connected(github_token@) == Ok::<ClientView, RunErrorView>(client@),
                Err(e) => connected(github_token@) == Err::<ClientView, RunErrorView>(e@),
            },
    {
        let authorization = String::from_str("token ").concat(github_token);
        if is_header_text(authorization.as_str()) {
            Ok(
                Client {
                    authorization,
                    user_agent: String::from_str("auto-merge"),
                    retry: RetryPolicy::standard(),
                },
            )
        } else {
            Err(RunError::InvalidToken)
        }
    }
}

fn repository_address(repository: &str) -> (url: String)
    ensures
        url@ == repository_url(repository@),
{
    String::from_str("https://api.github.com/repos/").concat(repository)
}

impl Request {
    /// The request that lists the open pull requests of `repository`, which
    /// is written `owner/name`.
    pub fn list_pulls(repository: &str) -> (request: Request)
        ensures
            request@ == list_request(repository@),
    {
        let mut url = repository_address(repository);
        url.append("/pulls");
        Request { method: Method::Get, url, body: None }
    }

    /// The request that lists the check runs of the commit `sha` in
    /// `repository`.
    pub fn list_checks(repository: &str, sha: &str) -> (request: Request)
        ensures
            request@ == check_runs_request(repository@, sha@),
    {
        let mut url = repository_address(repository);
        url.append("/commits/");
        url.append(sha);
        url.append("/check-runs");
        Request { method: Method::Get, url, body: None }
    }

    /// The request that squash-merges pull request `number` of `repository`.
    pub fn merge(repository: &str, number: u64) -> (request: Request)
        ensures
            request@ == merge_request(repository@, number),
    {
        let mut url = repository_address(repository);
        url.append("/pulls/");
        url.append(decimal(number).as_str());
        url.append("/merge");
        Request {
            method: Method::Put,
            url,
            body: Some(String::from_str("{\"merge_method\":\"squash\"}")),
        }
    }
}

} // verus!
