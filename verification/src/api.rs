//! Requests to the GitHub API, and the errors that a tool call is answered with.
use vstd::prelude::*;

use crate::json::{option_view, Json, JsonView};

verus! {

/// The HTTP method of a request.
#[derive(Debug, Clone, Copy, PartialEq, Eq, Structural)]
pub enum Method {
    Get,
    Put,
    Delete,
}

/// A request to the GitHub API; `path` is relative to the API's root.
#[derive(Debug)]
pub struct ApiRequest {
    pub method: Method,
    pub path: String,
    pub query: Vec<(String, String)>,
    pub body: Option<Json>,
}

/// A request as contracts speak of it.
pub struct ApiRequestView {
    pub method: Method,
    pub path: Seq<char>,
    pub query: Seq<(Seq<char>, Seq<char>)>,
    pub body: Option<JsonView>,
}

/// The names and values of query parameters.
pub open spec fn query_view(query: Seq<(String, String)>) -> Seq<(Seq<char>, Seq<char>)> {
    query.map_values(|pair: (String, String)| (pair.0@, pair.1@))
}

impl View for ApiRequest {
    type V = ApiRequestView;

    open spec fn view(&self) -> ApiRequestView {
        ApiRequestView {
            method: self.method,
            path: self.path@,
            query: query_view(self.query@),
            body: option_view(self.body),
        }
    }
}

/// A repository whose owner has been found to be allowed.
#[derive(Debug)]
pub struct RepoRef {
    pub owner: String,
    pub repo: String,
}

/// The JSON-RPC code for parameters that a tool cannot take.
pub const INVALID_PARAMS: i32 = -32602;

/// The JSON-RPC code for a call that failed on the way.
pub const INTERNAL_ERROR: i32 = -32603;

/// The error that a tool call is answered with.
#[derive(Debug)]
pub struct ErrorData {
    pub code: i32,
    pub message: String,
}

impl ErrorData {
    /// The caller's parameters are at fault.
    pub fn invalid_params(message: &str) -> (error: ErrorData)
        ensures
            error.code == INVALID_PARAMS,
            error.message@ == message@,
    {
        ErrorData { code: INVALID_PARAMS, message: message.to_owned() }
    }

    /// The call failed on the way.
    pub fn internal_error(message: &str) -> (error: ErrorData)
        ensures
            error.code == INTERNAL_ERROR,
            error.message@ == message@,
    {
        ErrorData { code: INTERNAL_ERROR, message: message.to_owned() }
    }
}

/// `/repos/{owner}/{repo}`
pub open spec fn repo_path(owner: Seq<char>, repo: Seq<char>) -> Seq<char> {
    "/repos/"@ + owner + "/"@ + repo
}

impl RepoRef {
    /// The path of the repository.
    pub fn path(&self) -> (path: String)
        ensures
            path@ == repo_path(self.owner@, self.repo@),
    {
        let mut path: String = "/repos/".to_owned();
        path.append(self.owner.as_str());
        path.append("/");
        path.append(self.repo.as_str());
        path
    }
}

/// A number brought into the range from `low` to `high`.
pub open spec fn clamped(n: u32, low: u32, high: u32) -> u32 {
    if n < low {
        low
    } else if n > high {
        high
    } else {
        n
    }
}

/// The page size of a request: what was asked for, or `default`, but at least
/// one and at most a hundred.
pub open spec fn page_size(asked: Option<u32>, default: u32) -> u32 {
    clamped(
        match asked {
            Some(n) => n,
            None => default,
        },
        1,
        100,
    )
}

/// The page size of a request.
pub fn choose_page_size(asked: Option<u32>, default: u32) -> (size: u32)
    ensures
        size == page_size(asked, default),
{
    let n: u32 = match asked {
        Some(n) => n,
        None => default,
    };
    if n < 1 {
        1
    } else if n > 100 {
        100
    } else {
        n
    }
}

/// A text that was given, or the default for it.
pub open spec fn text_or(given: Option<String>, default: Seq<char>) -> Seq<char> {
    match given {
        Some(text) => text@,
        None => default,
    }
}

/// A text that was given, or the default for it.
pub fn given_or(given: &Option<String>, default: &str) -> (text: String)
    ensures
        text@ == text_or(*given, default@),
{
    match given {
        Some(text) => text.clone(),
        None => default.to_owned(),
    }
}

/// Adds a query parameter.
pub fn add_param(query: &mut Vec<(String, String)>, name: &str, value: String)
    ensures
        query_view(final(query)@) == query_view(old(query)@).push((name@, value@)),
{
    let ghost before = query@;
    query.push((name.to_owned(), value));
    proof {
        assert(query_view(query@) =~= query_view(before).push((name@, value@)));
    }
}

// ---------------------------------------------------------------------------
// Laws
// ---------------------------------------------------------------------------


/// A request is what its parts say.
pub proof fn requests_are_their_parts(request: ApiRequest)
    ensures
        request@.method == request.method,
        request@.path == request.path@,
        request@.query.len() == request.query@.len(),
        forall|i: int|
            0 <= i < request.query@.len() ==> #[trigger] request@.query[i] == (
                request.query@[i].0@,
                request.query@[i].1@,
            ),
        request.body is None ==> request@.body is None,
        request.body matches Some(body) ==> request@.body == Some(body@),
{
}

/// The path of a repository names its owner, then the repository: another owner
/// or another repository has another path.
pub proof fn repositories_have_their_own_paths(
    owner: Seq<char>,
    repo: Seq<char>,
    other: Seq<char>,
)
    ensures
        repo_path(owner, repo).len() == 8 + owner.len() + repo.len(),
        repo_path(owner, repo).subrange(7, 7 + owner.len() as int) == owner,
        repo_path(owner, repo).skip(8 + owner.len() as int) == repo,
        "/repos/"@.is_prefix_of(repo_path(owner, repo)),
        repo_path(owner, repo)[7 + owner.len() as int] == '/',
        repo_path(owner, repo) == repo_path(owner, other) ==> repo == other,
        repo_path(owner, repo) == repo_path(other, repo) ==> owner == other,
{
    reveal_strlit("/repos/");
    reveal_strlit("/");
    let path = repo_path(owner, repo);
    assert(path.subrange(7, 7 + owner.len() as int) =~= owner);
    assert(path.skip(8 + owner.len() as int) =~= repo);
    assert("/repos/"@ =~= path.subrange(0, 7));
    if path == repo_path(owner, other) {
        assert(repo_path(owner, other).skip(8 + owner.len() as int) =~= other);
    }
    if path == repo_path(other, repo) {
        assert(repo_path(other, repo).subrange(7, 7 + other.len() as int) =~= other);
    }
}

/// A page has from one to a hundred items: as many as were asked for where that
/// is in the range, and the nearest bound elsewhere. Where nothing is asked for,
/// the default stands in.
pub proof fn pages_have_one_to_a_hundred(asked: u32, default: u32)
    ensures
        1 <= page_size(Some(asked), default) <= 100,
        1 <= asked <= 100 ==> page_size(Some(asked), default) == asked,
        asked == 0 ==> page_size(Some(asked), default) == 1,
        asked > 100 ==> page_size(Some(asked), default) == 100,
        page_size(None, default) == page_size(Some(default), asked),
{
}

/// What was given wins over the default, which stands in where nothing was.
pub proof fn given_texts_win(given: String, default: Seq<char>)
    ensures
        text_or(Some(given), default) == given@,
        text_or(None, default) == default,
{
}

} // verus!
