//! Reading the list of open pull requests and picking the bot's.

use crate::error::RunError;
use crate::error::RunErrorView;
use crate::json::parse;
use crate::json::parsed;
use crate::json::unexpected;
use crate::json::values;
use crate::json::Json;
use crate::json::JsonValue;
use crate::text::decimal;
use crate::text::decimal_text;
use crate::text::line_views;
use crate::text::text_eq;
use vstd::prelude::*;

verus! {

/// A pull request of the dependency-update bot, as the listing gave it.
#[derive(Debug, PartialEq, Eq)]
pub struct Candidate {
    /// The pull request's number, as the listing gave it.
    pub number: u64,
    /// The commit at the head of its branch.
    pub head_sha: String,
    /// The name of its branch.
    pub head_ref: String,
    /// Who opened it: always the bot.
    pub author_login: String,
}

/// The mathematical value of a [`Candidate`].
pub struct CandidateView {
    pub number: u64,
    pub head_sha: Seq<char>,
    pub head_ref: Seq<char>,
    pub author_login: Seq<char>,
}

impl View for Candidate {
    type V = CandidateView;

    open spec fn view(&self) -> CandidateView {
        CandidateView {
            number: self.number,
            head_sha: self.head_sha@,
            head_ref: self.head_ref@,
            author_login: self.author_login@,
        }
    }
}

/// The values of a sequence of candidates, one for one.
pub open spec fn candidate_views(candidates: Seq<Candidate>) -> Seq<CandidateView> {
    Seq::new(candidates.len(), |i: int| candidates[i]@)
}

/// The line that reports a candidate found in the listing: its number and
/// its branch.
pub open spec fn found_line(candidate: CandidateView) -> Seq<char> {
    "found: #"@ + decimal_text(candidate.number as nat) + " "@ + candidate.head_ref
}

/// The lines that report the candidates found, one for each, in their
/// order.
pub open spec fn found_lines(candidates: Seq<CandidateView>) -> Seq<Seq<char>> {
    Seq::new(candidates.len(), |i: int| found_line(candidates[i]))
}

/// The login under which the dependency-update bot opens pull requests.
pub open spec fn bot_login() -> Seq<char> {
    "dependabot[bot]"@
}

/// The login of the author of a listing entry, where it gives one.
pub open spec fn entry_login(entry: JsonValue) -> Option<Seq<char>> {
    entry.member("user"@).member("login"@).text()
}

/// The number of a listing entry, where it gives one.
pub open spec fn entry_number(entry: JsonValue) -> Option<u64> {
    entry.member("number"@).unsigned()
}

/// The head commit of a listing entry, where it gives one.
pub open spec fn entry_sha(entry: JsonValue) -> Option<Seq<char>> {
    entry.member("head"@).member("sha"@).text()
}

/// The head branch of a listing entry, where it gives one.
pub open spec fn entry_ref(entry: JsonValue) -> Option<Seq<char>> {
    entry.member("head"@).member("ref"@).text()
}

/// Whether a listing entry is the bot's and has its number, head commit and
/// head branch.
pub open spec fn is_candidate(entry: JsonValue) -> bool {
    &&& entry_login(entry) == Some(bot_login())
    &&& entry_number(entry) is Some
    &&& entry_sha(entry) is Some
    &&& entry_ref(entry) is Some
}

/// The candidate that a listing entry describes, where [`is_candidate`]
/// holds of it.
pub open spec fn candidate_of(entry: JsonValue) -> Option<CandidateView> {
    if is_candidate(entry) {
        Some(
            CandidateView {
                number: entry_number(entry)->0,
                head_sha: entry_sha(entry)->0,
                head_ref: entry_ref(entry)->0,
                author_login: bot_login(),
            },
        )
    } else {
        None
    }
}

/// The candidates among the entries of a listing, in the listing's order.
pub open spec fn candidates_of(entries: Seq<JsonValue>) -> Seq<CandidateView>
    decreases entries.len(),
{
    if entries.len() == 0 {
        Seq::empty()
    } else {
        let earlier = candidates_of(entries.drop_last());
        match candidate_of(entries.last()) {
            Some(c) => earlier.push(c),
            None => earlier,
        }
    }
}

/// What a listing payload yields: its candidates where it is an array,
/// nothing where it is anything else.
pub open spec fn listed(payload: JsonValue) -> Option<Seq<CandidateView>> {
    match payload.items() {
        Some(entries) => Some(candidates_of(entries)),
        None => None,
    }
}

/// What the body of a listing response yields: the candidates, or the error
/// for a body that is no JSON array.
pub open spec fn listing(body: Seq<u8>) -> Result<Seq<CandidateView>, RunErrorView> {
    match parsed(body) {
        Some(payload) => match listed(payload) {
            Some(candidates) => Ok(candidates),
            None => Err(unexpected(body)),
        },
        None => Err(unexpected(body)),
    }
}

/// A listing must be an array. A body whose JSON is anything else (an
/// object, say) is an unexpected response, and the error carries the body;
/// a body whose JSON is an array always yields its candidates.
pub proof fn lemma_listing_needs_an_array(body: Seq<u8>)
    requires
        parsed(body) is Some,
    ensures
        !(parsed(body)->0 is Array) ==> listing(body) == Err::<Seq<CandidateView>, RunErrorView>(
            unexpected(body),
        ),
        parsed(body)->0 is Array ==> listing(body) == Ok::<Seq<CandidateView>, RunErrorView>(
            candidates_of(parsed(body)->0->Array_0),
        ),
{
}

/// Every candidate of a listing was opened by the bot.
pub proof fn lemma_candidates_are_the_bots(entries: Seq<JsonValue>, k: int)
    requires
        0 <= k < candidates_of(entries).len(),
    ensures
        candidates_of(entries)[k].author_login == bot_login(),
    decreases entries.len(),
{
    if entries.len() > 0 {
        let earlier = candidates_of(entries.drop_last());
        if k < earlier.len() {
            lemma_candidates_are_the_bots(entries.drop_last(), k);
        }
    }
}

/// Only the bot's entries are listed: every candidate of a listing was read
/// from one of its entries, and that entry names the bot as its author and
/// has a number, a head commit and a head branch.
pub proof fn lemma_candidate_has_its_entry(entries: Seq<JsonValue>, k: int) -> (i: int)
    requires
        0 <= k < candidates_of(entries).len(),
    ensures
        0 <= i < entries.len(),
        is_candidate(entries[i]),
        candidate_of(entries[i]) == Some(candidates_of(entries)[k]),
    decreases entries.len(),
{
    let earlier = candidates_of(entries.drop_last());
    if k < earlier.len() {
        lemma_candidate_has_its_entry(entries.drop_last(), k)
    } else {
        entries.len() - 1
    }
}

/// An entry that is not the bot's, or lacks its number, head commit or head
/// branch, changes nothing in what is listed, wherever it stands.
pub proof fn lemma_other_entries_are_passed_over(
    before: Seq<JsonValue>,
    entry: JsonValue,
    after: Seq<JsonValue>,
)
    requires
        !is_candidate(entry),
    ensures
        candidates_of(before + seq![entry] + after) == candidates_of(before + after),
{
    lemma_candidates_concat(before, seq![entry]);
    lemma_candidates_concat(before + seq![entry], after);
    lemma_candidates_concat(before, after);
    assert(candidates_of(seq![entry]) =~= Seq::<CandidateView>::empty()) by {
        reveal_with_fuel(candidates_of, 2);
        assert(seq![entry].last() == entry);
    }
    assert(candidates_of(before) + Seq::<CandidateView>::empty() =~= candidates_of(before));
}

/// The listing keeps the order of the entries: what two stretches of
/// entries yield together is what the first yields, then what the second
/// yields.
pub proof fn lemma_candidates_concat(first: Seq<JsonValue>, second: Seq<JsonValue>)
    ensures
        candidates_of(first + second) == candidates_of(first) + candidates_of(second),
    decreases second.len(),
{
    if second.len() == 0 {
        assert(first + second =~= first);
        assert(candidates_of(first) + candidates_of(second) =~= candidates_of(first));
    } else {
        let both = first + second;
        assert(both.drop_last() =~= first + second.drop_last());
        assert(both.last() == second.last());
        lemma_candidates_concat(first, second.drop_last());
        let earlier = candidates_of(second.drop_last());
        match candidate_of(second.last()) {
            Some(c) => {
                assert((candidates_of(first) + earlier).push(c) =~= candidates_of(first)
                    + earlier.push(c));
            },
            None => {},
        }
    }
}

/// Every entry of the bot that has its number, head commit and head branch
/// is listed.
pub proof fn lemma_entry_has_its_candidate(entries: Seq<JsonValue>, i: int) -> (k: int)
    requires
        0 <= i < entries.len(),
        is_candidate(entries[i]),
    ensures
        0 <= k < candidates_of(entries).len(),
        candidate_of(entries[i]) == Some(candidates_of(entries)[k]),
    decreases entries.len(),
{
    let earlier = candidates_of(entries.drop_last());
    if i == entries.len() - 1 {
        earlier.len() as int
    } else {
        let k = lemma_entry_has_its_candidate(entries.drop_last(), i);
        if is_candidate(entries.last()) {
        }
        k
    }
}

impl Candidate {
    /// The line that reports this candidate as found.
    pub fn line(&self) -> (line: String)
        ensures
            line@ == found_line(self@),
    {
        let mut line = String::from_str("found: #");
        line.append(decimal(self.number).as_str());
        line.append(" ");
        line.append(self.head_ref.as_str());
        line
    }
}

/// The lines that report the candidates found, one for each, in their
/// order.
pub fn report_found(candidates: &Vec<Candidate>) -> (lines: Vec<String>)
    ensures
        line_views(lines@) == found_lines(candidate_views(candidates@)),
{
    let mut lines: Vec<String> = Vec::new();
    let mut i: usize = 0;
    while i < candidates.len()
        invariant
            i <= candidates.len(),
            lines@.len() == i,
            forall|j: int| 0 <= j < i ==> (#[trigger] lines@[j])@ == found_line(candidates@[j]@),
        decreases candidates.len() - i,
    {
        lines.push(candidates[i].line());
        i += 1;
    }
    assert(line_views(lines@) =~= found_lines(candidate_views(candidates@)));
    lines
}

/// Reads one entry of the listing.
pub fn candidate(entry: &Json) -> (found: Option<Candidate>)
    ensures
        match found {
            Some(c) => candidate_of(entry@) == Some(c@),
            None => candidate_of(entry@) is None,
        },
{
    let login = match entry.text_at("user", "login") {
        Some(login) => login,
        None => return None,
    };
    if !text_eq(login, "dependabot[bot]") {
        return None;
    }
    let number = match entry.get("number") {
        Some(n) => match n.as_u64() {
            Some(n) => n,
            None => return None,
        },
        None => return None,
    };
    let sha = match entry.text_at("head", "sha") {
        Some(sha) => sha,
        None => return None,
    };
    let branch = match entry.text_at("head", "ref") {
        Some(branch) => branch,
        None => return None,
    };
    Some(
        Candidate {
            number,
            head_sha: sha.to_owned(),
            head_ref: branch.to_owned(),
            author_login: login.to_owned(),
        },
    )
}

/// Picks the candidates out of a listing payload, in its order.
///
/// An entry that is not the bot's, or lacks its number, head commit or head
/// branch, is passed over. Only a payload that is no array yields nothing.
pub fn candidates(payload: &Json) -> (found: Option<Vec<Candidate>>)
    ensures
        match found {
            Some(v) => listed(payload@) == Some(candidate_views(v@)),
            None => listed(payload@) is None,
        },
        found is Some <==> payload@ is Array,
{
    let entries = match payload.as_array() {
        Some(entries) => entries,
        None => return None,
    };
    let ghost all = values(entries@);
    let mut found: Vec<Candidate> = Vec::new();
    let mut i: usize = 0;
    while i < entries.len()
        invariant
            i <= entries.len(),
            all == values(entries@),
            candidate_views(found@) == candidates_of(all.take(i as int)),
        decreases entries.len() - i,
    {
        proof {
            assert(all.take(i + 1).drop_last() =~= all.take(i as int));
        }
        let ghost before = found@;
        match candidate(&entries[i]) {
            Some(c) => {
                found.push(c);
                assert(candidate_views(found@) =~= candidate_views(before).push(c@));
            },
            None => {},
        }
        i += 1;
    }
    proof {
        assert(all.take(i as int) =~= all);
    }
    Some(found)
}

/// Reads the body of a listing response.
///
/// Fails, with the body in the error, exactly when the body is no JSON text
/// or its top level is no array.
pub fn list_pull_requests(body: &[u8]) -> (found: Result<Vec<Candidate>, RunError>)
    ensures
        match found {
            Ok(v) => listing(body@) == Ok::<Seq<CandidateView>, RunErrorView>(candidate_views(v@)),
            Err(e) => listing(body@) == Err::<Seq<CandidateView>, RunErrorView>(e@),
        },
{
    let payload = match parse(body) {
        Ok(payload) => payload,
        Err(e) => return Err(e),
    };
    match candidates(&payload) {
        Some(found) => Ok(found),
        None => Err(RunError::UnexpectedResponse { payload: vstd::slice::slice_to_vec(body) }),
    }
}

} // verus!
