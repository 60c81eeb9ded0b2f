//! Issues: listing those of a repository, reading one with its comments, and
//! searching those of several organisations.
use vstd::prelude::*;

use crate::api::{
    add_param, choose_page_size, given_or, page_size, repo_path, text_or, ApiRequest,
    ApiRequestView, ErrorData, Method, RepoRef, INVALID_PARAMS,
};
use crate::json::{array_view, listed_texts, put, Json, JsonView};
use crate::json_text::json_pretty;
use crate::text::{
    contains_word_with_prefix, cut_last_two_segments, decimal, decimal_text, has_word_with_prefix,
    join, joined, last_two_segments, last_two_segments_end_the_text, numbers_read_back,
    numeral_value, same_text, texts,
};

verus! {

/// Which issues of a repository to list.
#[derive(Debug)]
pub struct ListIssuesArgs {
    /// Repository (e.g. 'rust-alc-api').
    pub repo: String,
    /// Issue state filter: "open" | "closed" | "all" (default: open).
    pub state: Option<String>,
    /// Comma-separated label names (e.g. "bug,enhancement").
    pub labels: Option<String>,
    /// Results per page (1–100, default 20).
    pub per_page: Option<u32>,
}

/// Which issue to read.
#[derive(Debug)]
pub struct GetIssueArgs {
    /// Repository (e.g. 'rust-alc-api').
    pub repo: String,
    /// Issue number.
    pub issue_number: u64,
}

/// Which issues of which organisations to search for.
#[derive(Debug)]
pub struct ListOrgIssuesArgs {
    /// Organization names (e.g. ["ippoan", "ohishi-exp"]).
    pub orgs: Vec<String>,
    /// Issue state: "open" | "closed" | "all" (default: open).
    pub state: Option<String>,
    /// AND filter by label names.
    pub labels: Option<Vec<String>>,
    /// GitHub username, or "@me" for the current token's user.
    pub assignee: Option<String>,
    /// Raw GitHub search syntax appended to q (advanced). If it contains
    /// `repo:owner/name`, the `org:` qualifier is omitted (GitHub silently
    /// drops `repo:` when `org:` is also present).
    pub query: Option<String>,
    /// Results per page (1–100, default 30).
    pub per_page: Option<u32>,
}

// ---------------------------------------------------------------------------
// What is told of an issue
// ---------------------------------------------------------------------------

/// GitHub lists pull requests among the issues and marks them so.
pub open spec fn is_pull_request(issue: JsonView) -> bool {
    issue.get("pull_request"@) is Some
}

/// The login of the user that a value names as its author.
pub open spec fn author(value: JsonView) -> JsonView {
    value.get_or_null("user"@).get_or_null("login"@)
}

/// What a list of issues tells of each.
pub open spec fn summary(issue: JsonView) -> JsonView {
    JsonView::Object(
        map![
            "number"@ => issue.get_or_null("number"@),
            "title"@ => issue.get_or_null("title"@),
            "state"@ => issue.get_or_null("state"@),
            "author"@ => author(issue),
            "labels"@ => listed_texts(issue, "labels"@, "name"@),
            "created_at"@ => issue.get_or_null("created_at"@),
            "updated_at"@ => issue.get_or_null("updated_at"@),
            "comments"@ => issue.get_or_null("comments"@),
            "url"@ => issue.get_or_null("html_url"@),
        ],
    )
}

fn author_of(value: &Json) -> (login: Json)
    ensures
        login@ == author(value@),
{
    match value.get("user") {
        Some(user) => user.get_or_null("login"),
        None => Json::Null,
    }
}

/// What a list of issues tells of each.
pub fn issue_summary(issue: &Json) -> (told: Json)
    ensures
        told@ == summary(issue@),
{
    let mut fields: Vec<(String, Json)> = Vec::new();
    put(&mut fields, "number", issue.get_or_null("number"));
    put(&mut fields, "title", issue.get_or_null("title"));
    put(&mut fields, "state", issue.get_or_null("state"));
    put(&mut fields, "author", author_of(issue));
    put(&mut fields, "labels", issue.listed_texts("labels", "name"));
    put(&mut fields, "created_at", issue.get_or_null("created_at"));
    put(&mut fields, "updated_at", issue.get_or_null("updated_at"));
    put(&mut fields, "comments", issue.get_or_null("comments"));
    put(&mut fields, "url", issue.get_or_null("html_url"));
    Json::Object(fields)
}

/// The issues among what GitHub lists, each as `tell` tells it, in order.
pub open spec fn told_issues(
    items: Seq<JsonView>,
    tell: spec_fn(JsonView) -> JsonView,
) -> Seq<JsonView> {
    items.filter(|item: JsonView| !is_pull_request(item)).map_values(tell)
}

proof fn lemma_told_issues_next(items: Seq<JsonView>, i: int, tell: spec_fn(JsonView) -> JsonView)
    requires
        0 <= i < items.len(),
    ensures
        told_issues(items.take(i + 1), tell) == (if is_pull_request(items[i]) {
            told_issues(items.take(i), tell)
        } else {
            told_issues(items.take(i), tell).push(tell(items[i]))
        }),
{
    reveal(Seq::filter);
    assert(items.take(i + 1).drop_last() =~= items.take(i));
    let kept = items.take(i).filter(|item: JsonView| !is_pull_request(item));
    if !is_pull_request(items[i]) {
        assert(kept.push(items[i]).map_values(tell) =~= kept.map_values(tell).push(tell(items[i])));
    }
}

/// The issues among what GitHub lists, each as `telling` tells it, in order.
fn tell_issues<F: Fn(&Json) -> Json>(
    items: &Vec<Json>,
    telling: F,
    Ghost(tell): Ghost<spec_fn(JsonView) -> JsonView>,
) -> (done: Vec<Json>)
    requires
        forall|item: &Json| telling.requires((item,)),
        forall|item: &Json, told: Json| telling.ensures((item,), told) ==> told@ == tell(item@),
    ensures
        array_view(done@) == told_issues(array_view(items@), tell),
{
    let ghost views = array_view(items@);
    let mut done: Vec<Json> = Vec::new();
    let mut i: usize = 0;
    proof {
        reveal(Seq::filter);
        assert(views.take(0) =~= Seq::empty());
        assert(array_view(done@) =~= told_issues(views.take(0), tell));
    }
    while i < items.len()
        invariant
            i <= items@.len(),
            views == array_view(items@),
            forall|item: &Json| telling.requires((item,)),
            forall|item: &Json, told: Json|
                telling.ensures((item,), told) ==> told@ == tell(item@),
            array_view(done@) == told_issues(views.take(i as int), tell),
        decreases items@.len() - i,
    {
        let ghost before = done@;
        proof {
            lemma_told_issues_next(views, i as int, tell);
        }
        if items[i].get("pull_request").is_none() {
            done.push(telling(&items[i]));
            proof {
                assert(array_view(done@) =~= array_view(before).push(tell(views[i as int])));
            }
        }
        i = i + 1;
    }
    proof {
        assert(views.take(views.len() as int) =~= views);
    }
    done
}

// ---------------------------------------------------------------------------
// list_issues
// ---------------------------------------------------------------------------

/// The request that lists the issues of a repository.
pub open spec fn list_issues_call(args: ListIssuesArgs, repo: RepoRef) -> ApiRequestView {
    let filters = seq![
        ("state"@, text_or(args.state, "open"@)),
        ("per_page"@, decimal(page_size(args.per_page, 20) as nat)),
    ];
    ApiRequestView {
        method: Method::Get,
        path: repo_path(repo.owner@, repo.repo@) + "/issues"@,
        query: match args.labels {
            Some(labels) => filters.push(("labels"@, labels@)),
            None => filters,
        },
        body: None,
    }
}

/// The request that lists the issues of a repository. A repository that was
/// refused is answered with the refusal, and nothing is asked of GitHub.
pub fn list_issues_request(args: &ListIssuesArgs, repo: Result<RepoRef, ErrorData>) -> (call: Result<
    ApiRequest,
    ErrorData,
>)
    ensures
        match repo {
            Ok(r) => call matches Ok(request) && request@ == list_issues_call(*args, r),
            Err(refusal) => call == Err::<ApiRequest, ErrorData>(refusal),
        },
{
    let r: RepoRef = match repo {
        Ok(r) => r,
        Err(refusal) => return Err(refusal),
    };
    let per_page: u32 = choose_page_size(args.per_page, 20);
    let mut query: Vec<(String, String)> = Vec::new();
    add_param(&mut query, "state", given_or(&args.state, "open"));
    add_param(&mut query, "per_page", decimal_text(per_page as u64));
    match &args.labels {
        Some(labels) => add_param(&mut query, "labels", labels.clone()),
        None => {},
    }
    let mut path: String = r.path();
    path.append("/issues");
    let request = ApiRequest { method: Method::Get, path, query, body: None };
    proof {
        assert(request@.query =~= list_issues_call(*args, r).query);
    }
    Ok(request)
}

/// What `list_issues` tells of the issues that GitHub listed.
pub open spec fn list_issues_told(issues: Seq<JsonView>) -> JsonView {
    JsonView::Array(told_issues(issues, |issue: JsonView| summary(issue)))
}

/// What `list_issues` tells of the issues that GitHub listed.
pub fn list_issues_result(issues: &Vec<Json>) -> (told: Json)
    ensures
        told@ == list_issues_told(array_view(issues@)),
        told@ == JsonView::Array(
            array_view(issues@).filter(
                |item: JsonView| item.get("pull_request"@) is None,
            ).map_values(|issue: JsonView| summary(issue)),
        ),
{
    proof {
        lemma_same_filter(
            array_view(issues@),
            |item: JsonView| !is_pull_request(item),
            |item: JsonView| item.get("pull_request"@) is None,
        );
    }
    Json::Array(tell_issues(issues, issue_summary, Ghost(|issue: JsonView| summary(issue))))
}

/// Two tests that agree keep the same items.
proof fn lemma_same_filter(
    items: Seq<JsonView>,
    p: spec_fn(JsonView) -> bool,
    q: spec_fn(JsonView) -> bool,
)
    requires
        forall|item: JsonView| #[trigger] p(item) == q(item),
    ensures
        items.filter(p) == items.filter(q),
    decreases items.len(),
{
    reveal(Seq::filter);
    if items.len() > 0 {
        lemma_same_filter(items.drop_last(), p, q);
        assert(p(items.last()) == q(items.last()));
    }
}

/// The answer of `list_issues`.
pub fn list_issues_text(issues: &Vec<Json>) -> (text: String)
    ensures
        text@ == json_pretty(list_issues_told(array_view(issues@))),
{
    list_issues_result(issues).to_pretty()
}

/// What `list_issues` answers to what came of its request: a failure is handed
/// on.
pub fn list_issues_answer(issues: Result<Vec<Json>, ErrorData>) -> (answer: Result<
    String,
    ErrorData,
>)
    ensures
        match issues {
            Err(error) => answer == Err::<String, ErrorData>(error),
            Ok(list) => answer matches Ok(text) && text@ == json_pretty(
                list_issues_told(array_view(list@)),
            ),
        },
{
    match issues {
        Err(error) => Err(error),
        Ok(list) => Ok(list_issues_text(&list)),
    }
}

// ---------------------------------------------------------------------------
// get_issue
// ---------------------------------------------------------------------------

/// The path of an issue.
pub open spec fn issue_path(args: GetIssueArgs, repo: RepoRef) -> Seq<char> {
    repo_path(repo.owner@, repo.repo@) + "/issues/"@ + decimal(args.issue_number as nat)
}

/// A request that reads what stands at `path`.
pub open spec fn plain_get(path: Seq<char>) -> ApiRequestView {
    ApiRequestView { method: Method::Get, path, query: Seq::empty(), body: None }
}

fn get_request(path: String) -> (request: ApiRequest)
    ensures
        request@ == plain_get(path@),
{
    let request = ApiRequest { method: Method::Get, path, query: Vec::new(), body: None };
    proof {
        assert(request@.query =~= Seq::empty());
    }
    request
}

/// The two requests that read an issue: the issue itself and its comments. A
/// repository that was refused is answered with the refusal, and nothing is
/// asked of GitHub.
pub fn get_issue_requests(args: &GetIssueArgs, repo: Result<RepoRef, ErrorData>) -> (calls: Result<
    (ApiRequest, ApiRequest),
    ErrorData,
>)
    ensures
        match repo {
            Ok(r) => calls matches Ok(pair) && pair.0@ == plain_get(issue_path(*args, r))
                && pair.1@ == plain_get(issue_path(*args, r) + "/comments"@),
            Err(refusal) => calls == Err::<(ApiRequest, ApiRequest), ErrorData>(refusal),
        },
{
    let r: RepoRef = match repo {
        Ok(r) => r,
        Err(refusal) => return Err(refusal),
    };
    let mut path: String = r.path();
    path.append("/issues/");
    path.append(decimal_text(args.issue_number).as_str());
    let mut comments_path: String = path.clone();
    comments_path.append("/comments");
    Ok((get_request(path), get_request(comments_path)))
}

/// What is told of a comment.
pub open spec fn comment_told(comment: JsonView) -> JsonView {
    JsonView::Object(
        map![
            "author"@ => author(comment),
            "created_at"@ => comment.get_or_null("created_at"@),
            "body"@ => comment.get_or_null("body"@),
        ],
    )
}

/// What `get_issue` tells of an issue and its comments.
pub open spec fn get_issue_told(issue: JsonView, comments: Seq<JsonView>) -> JsonView {
    JsonView::Object(
        map![
            "number"@ => issue.get_or_null("number"@),
            "title"@ => issue.get_or_null("title"@),
            "state"@ => issue.get_or_null("state"@),
            "author"@ => author(issue),
            "labels"@ => listed_texts(issue, "labels"@, "name"@),
            "created_at"@ => issue.get_or_null("created_at"@),
            "updated_at"@ => issue.get_or_null("updated_at"@),
            "body"@ => issue.get_or_null("body"@),
            "url"@ => issue.get_or_null("html_url"@),
            "comments"@ => JsonView::Array(
                comments.map_values(|comment: JsonView| comment_told(comment)),
            ),
        ],
    )
}

fn comment_summary(comment: &Json) -> (told: Json)
    ensures
        told@ == comment_told(comment@),
{
    let mut fields: Vec<(String, Json)> = Vec::new();
    put(&mut fields, "author", author_of(comment));
    put(&mut fields, "created_at", comment.get_or_null("created_at"));
    put(&mut fields, "body", comment.get_or_null("body"));
    Json::Object(fields)
}

/// What `get_issue` tells of an issue and its comments.
pub fn get_issue_result(issue: &Json, comments: &Vec<Json>) -> (told: Json)
    ensures
        told@ == get_issue_told(issue@, array_view(comments@)),
{
    let mut talk: Vec<Json> = Vec::new();
    let mut i: usize = 0;
    while i < comments.len()
        invariant
            i <= comments@.len(),
            talk@.len() == i,
            forall|k: int| 0 <= k < i ==> (#[trigger] talk@[k])@ == comment_told(comments@[k]@),
        decreases comments@.len() - i,
    {
        talk.push(comment_summary(&comments[i]));
        i = i + 1;
    }
    proof {
        assert(array_view(talk@) =~= array_view(comments@).map_values(
            |comment: JsonView| comment_told(comment),
        ));
    }
    let mut fields: Vec<(String, Json)> = Vec::new();
    put(&mut fields, "number", issue.get_or_null("number"));
    put(&mut fields, "title", issue.get_or_null("title"));
    put(&mut fields, "state", issue.get_or_null("state"));
    put(&mut fields, "author", author_of(issue));
    put(&mut fields, "labels", issue.listed_texts("labels", "name"));
    put(&mut fields, "created_at", issue.get_or_null("created_at"));
    put(&mut fields, "updated_at", issue.get_or_null("updated_at"));
    put(&mut fields, "body", issue.get_or_null("body"));
    put(&mut fields, "url", issue.get_or_null("html_url"));
    put(&mut fields, "comments", Json::Array(talk));
    Json::Object(fields)
}

/// The answer of `get_issue`.
pub fn get_issue_text(issue: &Json, comments: &Vec<Json>) -> (text: String)
    ensures
        text@ == json_pretty(get_issue_told(issue@, array_view(comments@))),
{
    get_issue_result(issue, comments).to_pretty()
}

/// What `get_issue` answers to what came of its two requests: a failure is
/// handed on, that of the issue before that of its comments.
pub fn get_issue_answer(
    issue: Result<Json, ErrorData>,
    comments: Result<Vec<Json>, ErrorData>,
) -> (answer: Result<String, ErrorData>)
    ensures
        match (issue, comments) {
            (Err(error), _) => answer == Err::<String, ErrorData>(error),
            (Ok(_), Err(error)) => answer == Err::<String, ErrorData>(error),
            (Ok(i), Ok(list)) => answer matches Ok(text) && text@ == json_pretty(
                get_issue_told(i@, array_view(list@)),
            ),
        },
{
    let i: Json = match issue {
        Err(error) => return Err(error),
        Ok(i) => i,
    };
    match comments {
        Err(error) => Err(error),
        Ok(list) => Ok(get_issue_text(&i, &list)),
    }
}

// ---------------------------------------------------------------------------
// list_org_issues
// ---------------------------------------------------------------------------

/// The caller's own search text names a repository.
pub open spec fn names_repo(args: ListOrgIssuesArgs) -> bool {
    match args.query {
        Some(query) => has_word_with_prefix(query@, "repo:"@),
        None => false,
    }
}

/// Each text of a list between `left` and `right`.
pub open spec fn wrapped(items: Seq<String>, left: Seq<char>, right: Seq<char>) -> Seq<Seq<char>> {
    items.map_values(|item: String| left + item@ + right)
}

/// The terms that restrict a search to the state asked for.
pub open spec fn state_terms(args: ListOrgIssuesArgs) -> Seq<Seq<char>> {
    let state = text_or(args.state, "open"@);
    if state == "all"@ {
        Seq::empty()
    } else {
        seq!["state:"@ + state]
    }
}

/// The terms that restrict a search to the organisations; none where the
/// caller's own search text names a repository.
pub open spec fn org_terms(args: ListOrgIssuesArgs) -> Seq<Seq<char>> {
    if names_repo(args) {
        Seq::empty()
    } else {
        wrapped(args.orgs@, "org:"@, ""@)
    }
}

/// The terms that restrict a search to the labels.
pub open spec fn label_terms(args: ListOrgIssuesArgs) -> Seq<Seq<char>> {
    match args.labels {
        Some(labels) => wrapped(labels@, "label:\""@, "\""@),
        None => Seq::empty(),
    }
}

/// The term that restricts a search to an assignee.
pub open spec fn assignee_terms(args: ListOrgIssuesArgs) -> Seq<Seq<char>> {
    match args.assignee {
        Some(assignee) => seq!["assignee:"@ + assignee@],
        None => Seq::empty(),
    }
}

/// The caller's own search text.
pub open spec fn query_terms(args: ListOrgIssuesArgs) -> Seq<Seq<char>> {
    match args.query {
        Some(query) => seq![query@],
        None => Seq::empty(),
    }
}

/// The terms of a search, in order.
pub open spec fn search_terms(args: ListOrgIssuesArgs) -> Seq<Seq<char>> {
    seq!["is:issue"@] + state_terms(args) + org_terms(args) + label_terms(args) + assignee_terms(args)
        + query_terms(args)
}

/// The text of a search.
pub open spec fn search_text(args: ListOrgIssuesArgs) -> Seq<char> {
    join(search_terms(args), " "@)
}

/// The request that searches for issues.
pub open spec fn list_org_issues_call(args: ListOrgIssuesArgs) -> ApiRequestView {
    ApiRequestView {
        method: Method::Get,
        path: "/search/issues"@,
        query: seq![
            ("q"@, search_text(args)),
            ("per_page"@, decimal(page_size(args.per_page, 30) as nat)),
        ],
        body: None,
    }
}

/// Adds each text of a list between `left` and `right`.
fn add_wrapped(parts: &mut Vec<String>, items: &Vec<String>, left: &str, right: &str)
    ensures
        texts(final(parts)@) == texts(old(parts)@) + wrapped(items@, left@, right@),
{
    let ghost start = texts(parts@);
    let ghost all = wrapped(items@, left@, right@);
    let mut i: usize = 0;
    proof {
        assert(start + all.take(0) =~= start);
    }
    while i < items.len()
        invariant
            i <= items@.len(),
            all == wrapped(items@, left@, right@),
            texts(parts@) == start + all.take(i as int),
        decreases items@.len() - i,
    {
        let ghost before = parts@;
        let mut part: String = left.to_owned();
        part.append(items[i].as_str());
        part.append(right);
        parts.push(part);
        proof {
            assert(texts(parts@) =~= texts(before).push(all[i as int]));
            assert(all.take(i + 1) =~= all.take(i as int).push(all[i as int]));
        }
        i = i + 1;
    }
    proof {
        assert(all.take(all.len() as int) =~= all);
    }
}

fn add_text(parts: &mut Vec<String>, part: String)
    ensures
        texts(final(parts)@) == texts(old(parts)@) + seq![part@],
{
    let ghost before = parts@;
    parts.push(part);
    proof {
        assert(texts(parts@) =~= texts(before) + seq![part@]);
    }
}

/// The text of the search that the arguments ask for.
pub fn org_issues_search(args: &ListOrgIssuesArgs) -> (text: String)
    ensures
        text@ == search_text(*args),
{
    let state: String = given_or(&args.state, "open");
    let own_repo: bool = match &args.query {
        Some(query) => contains_word_with_prefix(query.as_str(), "repo:"),
        None => false,
    };
    let mut parts: Vec<String> = Vec::new();
    let ghost empty = Seq::<Seq<char>>::empty();
    proof {
        assert(texts(parts@) =~= empty);
        assert(empty + seq!["is:issue"@] =~= seq!["is:issue"@]);
    }
    add_text(&mut parts, "is:issue".to_owned());
    let ghost g0 = texts(parts@);
    proof {
        assert(g0 + empty =~= g0);
    }
    if !same_text(state.as_str(), "all") {
        let mut part: String = "state:".to_owned();
        part.append(state.as_str());
        add_text(&mut parts, part);
    }
    let ghost g1 = texts(parts@);
    proof {
        assert(g1 + empty =~= g1);
    }
    if !own_repo {
        add_wrapped(&mut parts, &args.orgs, "org:", "");
    }
    let ghost g2 = texts(parts@);
    proof {
        assert(g2 + empty =~= g2);
    }
    match &args.labels {
        Some(labels) => add_wrapped(&mut parts, labels, "label:\"", "\""),
        None => {},
    }
    let ghost g3 = texts(parts@);
    proof {
        assert(g3 + empty =~= g3);
    }
    match &args.assignee {
        Some(assignee) => {
            let mut part: String = "assignee:".to_owned();
            part.append(assignee.as_str());
            add_text(&mut parts, part);
        },
        None => {},
    }
    let ghost g4 = texts(parts@);
    proof {
        assert(g4 + empty =~= g4);
    }
    match &args.query {
        Some(query) => add_text(&mut parts, query.clone()),
        None => {},
    }
    joined(&parts, " ")
}

/// Whether none of the first `n` organisations was refused.
pub open spec fn none_refused(verdicts: Seq<Result<(), ErrorData>>, n: int) -> bool {
    forall|i: int| 0 <= i < n ==> (#[trigger] verdicts[i]) is Ok
}

/// The request that searches for issues. `verdicts` says of each organisation
/// whether it is allowed. No organisation at all is an error of the caller's;
/// one that was refused is answered with the first refusal. Either way nothing
/// is asked of GitHub.
pub fn list_org_issues_request(
    args: &ListOrgIssuesArgs,
    verdicts: Vec<Result<(), ErrorData>>,
) -> (call: Result<ApiRequest, ErrorData>)
    requires
        verdicts@.len() == args.orgs@.len(),
    ensures
        args.orgs@.len() == 0 ==> (call matches Err(error) && error.code == INVALID_PARAMS
            && error.message@ == "orgs must be a non-empty array"@),
        forall|i: int|
            0 <= i < verdicts@.len() && none_refused(verdicts@, i) && (
            #[trigger] verdicts@[i]) is Err ==> call == Err::<ApiRequest, ErrorData>(
                verdicts@[i]->Err_0,
            ),
        args.orgs@.len() > 0 && none_refused(verdicts@, verdicts@.len() as int) ==> (
        call matches Ok(request) && request@ == list_org_issues_call(*args)),
{
    if args.orgs.len() == 0 {
        return Err(ErrorData::invalid_params("orgs must be a non-empty array"));
    }
    let ghost all = verdicts@;
    for verdict in it: verdicts
        invariant
            it.seq() == all,
            all == verdicts@,
            args.orgs@.len() > 0,
            none_refused(all, it.index() as int),
    {
        match verdict {
            Ok(_) => {},
            Err(refusal) => {
                proof {
                    let at = it.index() as int;
                    assert(all[at] is Err);
                    assert forall|i: int|
                        0 <= i < all.len() && none_refused(all, i) && (
                        #[trigger] all[i]) is Err implies i == at by {
                        if i > at {
                            assert(all[at] is Ok);
                        }
                    }
                }
                return Err(refusal);
            },
        }
    }
    let per_page: u32 = choose_page_size(args.per_page, 30);
    let mut query: Vec<(String, String)> = Vec::new();
    add_param(&mut query, "q", org_issues_search(args));
    add_param(&mut query, "per_page", decimal_text(per_page as u64));
    let request = ApiRequest {
        method: Method::Get,
        path: "/search/issues".to_owned(),
        query,
        body: None,
    };
    proof {
        assert(request@.query =~= list_org_issues_call(*args).query);
    }
    Ok(request)
}

/// A text where there is one, and the empty text elsewhere.
pub open spec fn text_or_empty(text: Option<Seq<char>>) -> Seq<char> {
    match text {
        Some(t) => t,
        None => Seq::empty(),
    }
}

/// What a search tells of each issue.
pub open spec fn found_issue(issue: JsonView) -> JsonView {
    JsonView::Object(
        map![
            "repo"@ => JsonView::Str(
                last_two_segments(text_or_empty(issue.get_str("repository_url"@))),
            ),
            "number"@ => issue.get_or_null("number"@),
            "title"@ => issue.get_or_null("title"@),
            "state"@ => issue.get_or_null("state"@),
            "author"@ => JsonView::Str(text_or_empty(author(issue).as_str())),
            "labels"@ => listed_texts(issue, "labels"@, "name"@),
            "assignees"@ => listed_texts(issue, "assignees"@, "login"@),
            "comments"@ => issue.get_or_null("comments"@),
            "created_at"@ => issue.get_or_null("created_at"@),
            "updated_at"@ => issue.get_or_null("updated_at"@),
            "url"@ => issue.get_or_null("html_url"@),
        ],
    )
}

/// The issues that a search found.
pub open spec fn found_issues(data: JsonView) -> Seq<JsonView> {
    match data.get_or_null("items"@).as_array() {
        Some(items) => told_issues(items, |issue: JsonView| found_issue(issue)),
        None => Seq::empty(),
    }
}

/// What `list_org_issues` tells of what GitHub found.
pub open spec fn list_org_issues_told(data: JsonView) -> JsonView {
    JsonView::Object(
        map![
            "total_count"@ => data.get_or_null("total_count"@),
            "incomplete"@ => data.get_or_null("incomplete_results"@),
            "items"@ => JsonView::Array(found_issues(data)),
        ],
    )
}

fn found_issue_summary(issue: &Json) -> (told: Json)
    ensures
        told@ == found_issue(issue@),
{
    proof {
        reveal_strlit("");
        assert(""@ =~= Seq::<char>::empty());
    }
    let repo_url: &str = match issue.get_str("repository_url") {
        Some(url) => url,
        None => "",
    };
    let login: Json = author_of(issue);
    let author_text: &str = match login.as_str() {
        Some(text) => text,
        None => "",
    };
    let mut fields: Vec<(String, Json)> = Vec::new();
    put(&mut fields, "repo", Json::Str(cut_last_two_segments(repo_url).to_owned()));
    put(&mut fields, "number", issue.get_or_null("number"));
    put(&mut fields, "title", issue.get_or_null("title"));
    put(&mut fields, "state", issue.get_or_null("state"));
    put(&mut fields, "author", Json::Str(author_text.to_owned()));
    put(&mut fields, "labels", issue.listed_texts("labels", "name"));
    put(&mut fields, "assignees", issue.listed_texts("assignees", "login"));
    put(&mut fields, "comments", issue.get_or_null("comments"));
    put(&mut fields, "created_at", issue.get_or_null("created_at"));
    put(&mut fields, "updated_at", issue.get_or_null("updated_at"));
    put(&mut fields, "url", issue.get_or_null("html_url"));
    Json::Object(fields)
}

/// What `list_org_issues` tells of what GitHub found.
pub fn list_org_issues_result(data: &Json) -> (told: Json)
    ensures
        told@ == list_org_issues_told(data@),
{
    let mut items: Vec<Json> = Vec::new();
    proof {
        assert(array_view(items@) =~= Seq::empty());
    }
    match data.get("items") {
        Some(member) => match member.as_array() {
            Some(found) => {
                items = tell_issues(
                    found,
                    found_issue_summary,
                    Ghost(|issue: JsonView| found_issue(issue)),
                );
            },
            None => {},
        },
        None => {},
    }
    let mut fields: Vec<(String, Json)> = Vec::new();
    put(&mut fields, "total_count", data.get_or_null("total_count"));
    put(&mut fields, "incomplete", data.get_or_null("incomplete_results"));
    put(&mut fields, "items", Json::Array(items));
    Json::Object(fields)
}

/// The answer of `list_org_issues`.
pub fn list_org_issues_text(data: &Json) -> (text: String)
    ensures
        text@ == json_pretty(list_org_issues_told(data@)),
{
    list_org_issues_result(data).to_pretty()
}

/// What `list_org_issues` answers to what came of its request: a failure is
/// handed on.
pub fn list_org_issues_answer(data: Result<Json, ErrorData>) -> (answer: Result<String, ErrorData>)
    ensures
        match data {
            Err(error) => answer == Err::<String, ErrorData>(error),
            Ok(found) => answer matches Ok(text) && text@ == json_pretty(
                list_org_issues_told(found@),
            ),
        },
{
    match data {
        Err(error) => Err(error),
        Ok(found) => Ok(list_org_issues_text(&found)),
    }
}

// ---------------------------------------------------------------------------
// Laws
// ---------------------------------------------------------------------------

/// Pull requests never show: what is told of a list is what is told of the
/// list without one of its pull requests.
pub proof fn pull_requests_are_left_out(
    earlier: Seq<JsonView>,
    pull_request: JsonView,
    later: Seq<JsonView>,
    tell: spec_fn(JsonView) -> JsonView,
)
    requires
        is_pull_request(pull_request),
    ensures
        told_issues(earlier + seq![pull_request] + later, tell) == told_issues(
            earlier + later,
            tell,
        ),
{
    let keep = |item: JsonView| !is_pull_request(item);
    Seq::filter_distributes_over_add(earlier + seq![pull_request], later, keep);
    Seq::filter_distributes_over_add(earlier, seq![pull_request], keep);
    Seq::filter_distributes_over_add(earlier, later, keep);
    reveal_with_fuel(Seq::filter, 2);
    assert(seq![pull_request].drop_last() =~= Seq::empty());
    assert(seq![pull_request].filter(keep) =~= Seq::empty());
    assert(earlier.filter(keep) + Seq::empty() =~= earlier.filter(keep));
}

/// Every issue shows, in its place: a list without pull requests is told item
/// by item.
pub proof fn issues_are_all_told(items: Seq<JsonView>, tell: spec_fn(JsonView) -> JsonView)
    requires
        forall|i: int| 0 <= i < items.len() ==> !is_pull_request(#[trigger] items[i]),
    ensures
        told_issues(items, tell) == items.map_values(tell),
    decreases items.len(),
{
    reveal(Seq::filter);
    if items.len() > 0 {
        let front = items.drop_last();
        assert forall|i: int| 0 <= i < front.len() implies !is_pull_request(#[trigger] front[i]) by {
            assert(front[i] == items[i]);
        }
        issues_are_all_told(front, tell);
        assert(front + seq![items.last()] =~= items);
        lemma_told_issues_next(items, items.len() - 1, tell);
        assert(items.take(items.len() as int) =~= items);
        assert(items.take(items.len() - 1) =~= front);
        assert(items.map_values(tell) =~= front.map_values(tell).push(tell(items.last())));
    } else {
        assert(told_issues(items, tell) =~= items.map_values(tell));
    }
}

/// Where the caller's own search text names a repository, the organisations
/// have no part in the search: GitHub would drop the repository otherwise.
pub proof fn own_repo_leaves_orgs_out(args: ListOrgIssuesArgs, orgs: Vec<String>)
    requires
        names_repo(args),
    ensures
        search_text(args) == search_text(ListOrgIssuesArgs { orgs, ..args }),
{
}

/// Every search is for issues: that is its first term, whatever is asked for.
pub proof fn search_starts_with_is_issue(args: ListOrgIssuesArgs)
    ensures
        search_terms(args).len() > 0,
        search_terms(args)[0] == "is:issue"@,
{
}

proof fn lemma_issue_names()
    ensures
        "assignees"@ != "author"@,
        "assignees"@ != "body"@,
        "assignees"@ != "comments"@,
        "assignees"@ != "created_at"@,
        "assignees"@ != "labels"@,
        "assignees"@ != "number"@,
        "assignees"@ != "repo"@,
        "assignees"@ != "state"@,
        "assignees"@ != "title"@,
        "assignees"@ != "updated_at"@,
        "assignees"@ != "url"@,
        "author"@ != "body"@,
        "author"@ != "comments"@,
        "author"@ != "created_at"@,
        "author"@ != "labels"@,
        "author"@ != "number"@,
        "author"@ != "repo"@,
        "author"@ != "state"@,
        "author"@ != "title"@,
        "author"@ != "updated_at"@,
        "author"@ != "url"@,
        "body"@ != "comments"@,
        "body"@ != "created_at"@,
        "body"@ != "labels"@,
        "body"@ != "number"@,
        "body"@ != "repo"@,
        "body"@ != "state"@,
        "body"@ != "title"@,
        "body"@ != "updated_at"@,
        "body"@ != "url"@,
        "comments"@ != "created_at"@,
        "comments"@ != "labels"@,
        "comments"@ != "number"@,
        "comments"@ != "repo"@,
        "comments"@ != "state"@,
        "comments"@ != "title"@,
        "comments"@ != "updated_at"@,
        "comments"@ != "url"@,
        "created_at"@ != "labels"@,
        "created_at"@ != "number"@,
        "created_at"@ != "repo"@,
        "created_at"@ != "state"@,
        "created_at"@ != "title"@,
        "created_at"@ != "updated_at"@,
        "created_at"@ != "url"@,
        "labels"@ != "number"@,
        "labels"@ != "repo"@,
        "labels"@ != "state"@,
        "labels"@ != "title"@,
        "labels"@ != "updated_at"@,
        "labels"@ != "url"@,
        "number"@ != "repo"@,
        "number"@ != "state"@,
        "number"@ != "title"@,
        "number"@ != "updated_at"@,
        "number"@ != "url"@,
        "repo"@ != "state"@,
        "repo"@ != "title"@,
        "repo"@ != "updated_at"@,
        "repo"@ != "url"@,
        "state"@ != "title"@,
        "state"@ != "updated_at"@,
        "state"@ != "url"@,
        "title"@ != "updated_at"@,
        "title"@ != "url"@,
        "updated_at"@ != "url"@,
{
    reveal_strlit("assignees");
    reveal_strlit("author");
    reveal_strlit("body");
    reveal_strlit("comments");
    reveal_strlit("created_at");
    reveal_strlit("labels");
    reveal_strlit("number");
    reveal_strlit("repo");
    reveal_strlit("state");
    reveal_strlit("title");
    reveal_strlit("updated_at");
    reveal_strlit("url");
    assert("assignees"@.len() == 9);
    assert("author"@.len() == 6);
    assert("body"@.len() == 4);
    assert("comments"@.len() == 8);
    assert("created_at"@.len() == 10);
    assert("labels"@.len() == 6);
    assert("number"@.len() == 6);
    assert("repo"@.len() == 4);
    assert("state"@.len() == 5);
    assert("title"@.len() == 5);
    assert("updated_at"@.len() == 10);
    assert("url"@.len() == 3);
    assert("author"@[0] != "labels"@[0]);
    assert("author"@[0] != "number"@[0]);
    assert("body"@[0] != "repo"@[0]);
    assert("created_at"@[0] != "updated_at"@[0]);
    assert("labels"@[0] != "number"@[0]);
    assert("state"@[0] != "title"@[0]);
}

proof fn lemma_search_names()
    ensures
        "total_count"@ != "incomplete"@,
        "total_count"@ != "items"@,
        "incomplete"@ != "items"@,
{
    reveal_strlit("total_count");
    reveal_strlit("incomplete");
    reveal_strlit("items");
    assert("total_count"@.len() == 11);
    assert("incomplete"@.len() == 10);
    assert("items"@.len() == 5);
}


/// A list tells these nine things of an issue and no other, each from the field
/// of the issue that it is named for.
pub proof fn lists_tell_the_fields_of_an_issue(issue: JsonView)
    ensures
        summary(issue) is Object,
        summary(issue)->Object_0.dom() == set!["number"@, "title"@, "state"@, "author"@, "labels"@, "created_at"@, "updated_at"@, "comments"@, "url"@],
        summary(issue).get("number"@) == Some(issue.get_or_null("number"@)),
        summary(issue).get("title"@) == Some(issue.get_or_null("title"@)),
        summary(issue).get("state"@) == Some(issue.get_or_null("state"@)),
        summary(issue).get("created_at"@) == Some(issue.get_or_null("created_at"@)),
        summary(issue).get("updated_at"@) == Some(issue.get_or_null("updated_at"@)),
        summary(issue).get("comments"@) == Some(issue.get_or_null("comments"@)),
        summary(issue).get("url"@) == Some(issue.get_or_null("html_url"@)),
        summary(issue).get("author"@) == Some(
            match issue.get("user"@) {
                Some(user) => user.get_or_null("login"@),
                None => JsonView::Null,
            },
        ),
        summary(issue).get("labels"@) == Some(listed_texts(issue, "labels"@, "name"@)),
{
    lemma_issue_names();
    assert(summary(issue)->Object_0.dom() =~= set!["number"@, "title"@, "state"@, "author"@, "labels"@, "created_at"@, "updated_at"@, "comments"@, "url"@]);
}

/// An issue is told with these ten things and no other, each from the field of
/// the issue that it is named for, and its comments.
pub proof fn one_issue_is_told_by_its_fields(issue: JsonView, comments: Seq<JsonView>)
    ensures
        get_issue_told(issue, comments) is Object,
        get_issue_told(issue, comments)->Object_0.dom() == set!["number"@, "title"@, "state"@, "author"@, "labels"@, "created_at"@, "updated_at"@, "body"@, "url"@, "comments"@],
        get_issue_told(issue, comments).get("number"@) == Some(issue.get_or_null("number"@)),
        get_issue_told(issue, comments).get("title"@) == Some(issue.get_or_null("title"@)),
        get_issue_told(issue, comments).get("state"@) == Some(issue.get_or_null("state"@)),
        get_issue_told(issue, comments).get("created_at"@) == Some(issue.get_or_null("created_at"@)),
        get_issue_told(issue, comments).get("updated_at"@) == Some(issue.get_or_null("updated_at"@)),
        get_issue_told(issue, comments).get("body"@) == Some(issue.get_or_null("body"@)),
        get_issue_told(issue, comments).get("url"@) == Some(issue.get_or_null("html_url"@)),
        get_issue_told(issue, comments).get("author"@) == Some(
            match issue.get("user"@) {
                Some(user) => user.get_or_null("login"@),
                None => JsonView::Null,
            },
        ),
        get_issue_told(issue, comments).get("labels"@) == Some(
            listed_texts(issue, "labels"@, "name"@),
        ),
        get_issue_told(issue, comments).get("comments"@) matches Some(JsonView::Array(told))
            && told.len() == comments.len() && (forall|i: int|
            0 <= i < comments.len() ==> #[trigger] told[i] == comment_told(comments[i])),
{
    lemma_issue_names();
    assert(get_issue_told(issue, comments)->Object_0.dom() =~= set!["number"@, "title"@, "state"@, "author"@, "labels"@, "created_at"@, "updated_at"@, "body"@, "url"@, "comments"@]);
}

/// What is told of one issue agrees with what a list tells of it, wherever both
/// tell something, but for the comments.
pub proof fn one_issue_is_told_as_in_a_list(
    issue: JsonView,
    comments: Seq<JsonView>,
    key: Seq<char>,
)
    requires
        summary(issue).get(key) is Some,
        get_issue_told(issue, comments).get(key) is Some,
        key != "comments"@,
    ensures
        get_issue_told(issue, comments).get(key) == summary(issue).get(key),
{
    lemma_issue_names();
    lists_tell_the_fields_of_an_issue(issue);
    one_issue_is_told_by_its_fields(issue, comments);
}

/// Two issues that agree on what is told are told alike: their assignees, and
/// whatever else they hold, make no difference.
pub proof fn untold_fields_make_no_difference(
    a: JsonView,
    b: JsonView,
    comments: Seq<JsonView>,
)
    requires
        a.get("number"@) == b.get("number"@),
        a.get("title"@) == b.get("title"@),
        a.get("state"@) == b.get("state"@),
        a.get("user"@) == b.get("user"@),
        a.get("labels"@) == b.get("labels"@),
        a.get("created_at"@) == b.get("created_at"@),
        a.get("updated_at"@) == b.get("updated_at"@),
        a.get("body"@) == b.get("body"@),
        a.get("comments"@) == b.get("comments"@),
        a.get("html_url"@) == b.get("html_url"@),
    ensures
        get_issue_told(a, comments) == get_issue_told(b, comments),
        summary(a) == summary(b),
{
}

/// A comment is told with these three things and no other.
pub proof fn comments_are_told_by_their_fields(comment: JsonView)
    ensures
        comment_told(comment) is Object,
        comment_told(comment)->Object_0.dom() == set!["author"@, "created_at"@, "body"@],
        comment_told(comment).get("author"@) == Some(
            match comment.get("user"@) {
                Some(user) => user.get_or_null("login"@),
                None => JsonView::Null,
            },
        ),
        comment_told(comment).get("created_at"@) == Some(comment.get_or_null("created_at"@)),
        comment_told(comment).get("body"@) == Some(comment.get_or_null("body"@)),
{
    lemma_issue_names();
    assert(comment_told(comment)->Object_0.dom() =~= set!["author"@, "created_at"@, "body"@]);
}

/// A search tells these eleven things of an issue and no other. The repository is
/// the end of its address, and author and repository are texts in any case.
pub proof fn searches_tell_the_fields_of_an_issue(issue: JsonView)
    ensures
        found_issue(issue) is Object,
        found_issue(issue)->Object_0.dom() == set!["repo"@, "number"@, "title"@, "state"@, "author"@, "labels"@, "assignees"@, "comments"@, "created_at"@, "updated_at"@, "url"@],
        found_issue(issue).get("number"@) == Some(issue.get_or_null("number"@)),
        found_issue(issue).get("title"@) == Some(issue.get_or_null("title"@)),
        found_issue(issue).get("state"@) == Some(issue.get_or_null("state"@)),
        found_issue(issue).get("comments"@) == Some(issue.get_or_null("comments"@)),
        found_issue(issue).get("created_at"@) == Some(issue.get_or_null("created_at"@)),
        found_issue(issue).get("updated_at"@) == Some(issue.get_or_null("updated_at"@)),
        found_issue(issue).get("url"@) == Some(issue.get_or_null("html_url"@)),
        found_issue(issue).get("labels"@) == Some(listed_texts(issue, "labels"@, "name"@)),
        found_issue(issue).get("assignees"@) == Some(listed_texts(issue, "assignees"@, "login"@)),
        found_issue(issue).get("repo"@) == Some(
            JsonView::Str(
                match issue.get("repository_url"@) {
                    Some(JsonView::Str(url)) => last_two_segments(url),
                    _ => Seq::empty(),
                },
            ),
        ),
        found_issue(issue).get("author"@) == Some(
            JsonView::Str(
                match issue.get("user"@) {
                    Some(user) => match user.get("login"@) {
                        Some(JsonView::Str(login)) => login,
                        _ => Seq::empty(),
                    },
                    None => Seq::empty(),
                },
            ),
        ),
{
    lemma_issue_names();
    assert(found_issue(issue)->Object_0.dom() =~= set!["repo"@, "number"@, "title"@, "state"@, "author"@, "labels"@, "assignees"@, "comments"@, "created_at"@, "updated_at"@, "url"@]);
    last_two_segments_end_the_text(Seq::empty());
    assert(last_two_segments(Seq::empty()) =~= Seq::empty());
}

proof fn lemma_told_issues_concat(
    earlier: Seq<JsonView>,
    later: Seq<JsonView>,
    tell: spec_fn(JsonView) -> JsonView,
)
    ensures
        told_issues(earlier + later, tell) == told_issues(earlier, tell) + told_issues(later, tell),
{
    let keep = |item: JsonView| !is_pull_request(item);
    Seq::filter_distributes_over_add(earlier, later, keep);
    assert((earlier.filter(keep) + later.filter(keep)).map_values(tell) =~= earlier.filter(
        keep,
    ).map_values(tell) + later.filter(keep).map_values(tell));
}

proof fn lemma_told_issue(item: JsonView, tell: spec_fn(JsonView) -> JsonView)
    ensures
        told_issues(Seq::empty(), tell) == Seq::<JsonView>::empty(),
        told_issues(seq![item], tell) == (if item.get("pull_request"@) is Some {
            Seq::empty()
        } else {
            seq![tell(item)]
        }),
{
    let one = seq![item];
    reveal(Seq::filter);
    assert(one.take(0) =~= Seq::empty());
    assert(one.take(1) =~= one);
    assert(told_issues(Seq::empty(), tell) =~= Seq::empty());
    lemma_told_issues_next(one, 0, tell);
}

/// An item that has a member `pull_request`, of whatever value, is no issue and
/// not told; any other is, in its place. So it is item by item, however many there
/// are.
pub proof fn lists_tell_issues_one_by_one(
    earlier: Seq<JsonView>,
    item: JsonView,
    later: Seq<JsonView>,
)
    ensures
        list_issues_told(Seq::empty()) == JsonView::Array(Seq::empty()),
        list_issues_told(seq![item]) == JsonView::Array(
            if item.get("pull_request"@) is Some {
                Seq::empty()
            } else {
                seq![summary(item)]
            },
        ),
        list_issues_told(earlier) matches JsonView::Array(a) && list_issues_told(later)
            matches JsonView::Array(b) && list_issues_told(earlier + later) == JsonView::Array(a + b),
{
    let tell = |issue: JsonView| summary(issue);
    lemma_told_issue(item, tell);
    lemma_told_issues_concat(earlier, later, tell);
}

/// An item that a search found is told unless it has a member `pull_request`, item
/// by item and in order.
pub proof fn searches_tell_issues_one_by_one(
    whole: JsonView,
    first: JsonView,
    one: JsonView,
    earlier: Seq<JsonView>,
    item: JsonView,
)
    requires
        first.get("items"@) == Some(JsonView::Array(earlier)),
        one.get("items"@) == Some(JsonView::Array(seq![item])),
        whole.get("items"@) == Some(JsonView::Array(earlier + seq![item])),
    ensures
        found_issues(one) == (if item.get("pull_request"@) is Some {
            Seq::empty()
        } else {
            seq![found_issue(item)]
        }),
        found_issues(whole) == found_issues(first) + found_issues(one),
{
    let tell = |issue: JsonView| found_issue(issue);
    lemma_told_issue(item, tell);
    lemma_told_issues_concat(earlier, seq![item], tell);
}

/// A search without a list of items, or with an empty one, tells of none.
pub proof fn no_items_no_issues(data: JsonView)
    requires
        data.get("items"@) matches Some(member) ==> !(member is Array) || member->Array_0.len()
            == 0,
    ensures
        found_issues(data).len() == 0,
{
    match data.get("items"@) {
        Some(JsonView::Array(items)) => {
            assert(items =~= Seq::empty());
            lemma_told_issue(JsonView::Null, |issue: JsonView| found_issue(issue));
        },
        _ => {},
    }
}

/// A search tells how many issues there are and whether that is all, as GitHub
/// does, the issues that were found, and nothing else.
pub proof fn searches_tell_count_and_issues(data: JsonView)
    ensures
        list_org_issues_told(data) is Object,
        list_org_issues_told(data)->Object_0.dom() == set!["total_count"@, "incomplete"@, "items"@],
        list_org_issues_told(data).get("total_count"@) == Some(data.get_or_null("total_count"@)),
        list_org_issues_told(data).get("incomplete"@) == Some(
            data.get_or_null("incomplete_results"@),
        ),
        list_org_issues_told(data).get("items"@) == Some(JsonView::Array(found_issues(data))),
{
    lemma_search_names();
    assert(list_org_issues_told(data)->Object_0.dom() =~= set!["total_count"@, "incomplete"@, "items"@]);
}

/// The list of a repository's issues is asked of that repository, with the state,
/// the page size and the labels that the arguments name; where they name none,
/// with open issues, twenty of them, and no labels.
pub proof fn lists_ask_for_what_is_named(args: ListIssuesArgs, repo: RepoRef)
    ensures
        list_issues_call(args, repo).method == Method::Get,
        list_issues_call(args, repo).body is None,
        list_issues_call(args, repo).path == "/repos/"@ + repo.owner@ + "/"@ + repo.repo@
            + "/issues"@,
        list_issues_call(args, repo).query.len() == (if args.labels is Some {
            3int
        } else {
            2int
        }),
        list_issues_call(args, repo).query[0] == (
            "state"@,
            if args.state is Some {
                args.state->0@
            } else {
                "open"@
            },
        ),
        list_issues_call(args, repo).query[1].0 == "per_page"@,
        numeral_value(list_issues_call(args, repo).query[1].1) == (match args.per_page {
            Some(n) => if n == 0 {
                1
            } else if n > 100 {
                100
            } else {
                n as int
            },
            None => 20,
        }),
        args.labels matches Some(labels) ==> list_issues_call(args, repo).query[2] == (
            "labels"@,
            labels@,
        ),
{
    numbers_read_back(page_size(args.per_page, 20) as nat);
}

/// An issue is read at its number in its repository, its comments right below, and
/// no two issues of a repository share a place.
pub proof fn issues_have_their_own_places(a: GetIssueArgs, b: GetIssueArgs, repo: RepoRef)
    ensures
        issue_path(a, repo) == "/repos/"@ + repo.owner@ + "/"@ + repo.repo@ + "/issues/"@ + decimal(
            a.issue_number as nat,
        ),
        issue_path(a, repo) == issue_path(b, repo) <==> a.issue_number == b.issue_number,
{
    let n = (repo_path(repo.owner@, repo.repo@) + "/issues/"@).len() as int;
    assert(issue_path(a, repo).skip(n) =~= decimal(a.issue_number as nat));
    assert(issue_path(b, repo).skip(n) =~= decimal(b.issue_number as nat));
    numbers_read_back(a.issue_number as nat);
    numbers_read_back(b.issue_number as nat);
}

/// A plain request reads what stands at its path and carries nothing else.
pub proof fn plain_requests_only_read(path: Seq<char>)
    ensures
        plain_get(path).method == Method::Get,
        plain_get(path).path == path,
        plain_get(path).query.len() == 0,
        plain_get(path).body is None,
{
}

/// Every argument of a search stands among its terms, in its place: first that
/// issues are meant, then the state unless all are asked for, the organisations
/// unless the caller's own text names a repository, every label, the assignee, and
/// last the caller's own text. There are no other terms.
pub proof fn every_argument_is_a_term(args: ListOrgIssuesArgs)
    ensures
        ({
            let terms = search_terms(args);
            let state = if args.state is Some {
                args.state->0@
            } else {
                "open"@
            };
            let own_repo = args.query is Some && has_word_with_prefix(args.query->0@, "repo:"@);
            let s = if state == "all"@ {
                1int
            } else {
                2int
            };
            let o = s + (if own_repo {
                0int
            } else {
                args.orgs@.len() as int
            });
            let l = o + (if args.labels is Some {
                args.labels->0@.len() as int
            } else {
                0int
            });
            let a = l + (if args.assignee is Some {
                1int
            } else {
                0int
            });
            let q = a + (if args.query is Some {
                1int
            } else {
                0int
            });
            &&& terms.len() == q
            &&& terms[0] == "is:issue"@
            &&& s == 2 ==> terms[1] == "state:"@ + state
            &&& !own_repo ==> forall|i: int|
                #![trigger args.orgs@[i]]
                0 <= i < args.orgs@.len() ==> terms[s + i] == "org:"@ + args.orgs@[i]@
            &&& args.labels is Some ==> forall|i: int|
                #![trigger args.labels->0@[i]]
                0 <= i < args.labels->0@.len() ==> terms[o + i] == "label:\""@
                    + args.labels->0@[i]@ + "\""@
            &&& args.assignee is Some ==> terms[l] == "assignee:"@ + args.assignee->0@
            &&& args.query is Some ==> terms[a] == args.query->0@
        }),
{
    reveal_strlit("");
    let terms = search_terms(args);
    let first = seq!["is:issue"@];
    let t1 = first + state_terms(args);
    let t2 = t1 + org_terms(args);
    let t3 = t2 + label_terms(args);
    let t4 = t3 + assignee_terms(args);
    assert(terms == t4 + query_terms(args));
    if !names_repo(args) {
        assert forall|i: int| 0 <= i < args.orgs@.len() implies #[trigger] terms[t1.len() + i]
            == "org:"@ + args.orgs@[i]@ by {
            assert(terms[t1.len() + i] == org_terms(args)[i]);
            assert("org:"@ + args.orgs@[i]@ + ""@ =~= "org:"@ + args.orgs@[i]@);
        }
    }
    if args.labels is Some {
        assert forall|i: int| 0 <= i < args.labels->0@.len() implies #[trigger] terms[t2.len() + i]
            == "label:\""@ + args.labels->0@[i]@ + "\""@ by {
            assert(terms[t2.len() + i] == label_terms(args)[i]);
        }
    }
}

/// Every label restricts the search, whatever the other arguments are.
pub proof fn every_label_is_searched_for(args: ListOrgIssuesArgs, labels: Vec<String>, i: int)
    requires
        args.labels == Some(labels),
        0 <= i < labels@.len(),
    ensures
        search_terms(args).contains("label:\""@ + labels@[i]@ + "\""@),
{
    every_argument_is_a_term(args);
    let o = 1 + state_terms(args).len() + org_terms(args).len();
    assert(search_terms(args)[o + i] == "label:\""@ + labels@[i]@ + "\""@);
}

/// The caller's own text comes last and leaves the rest of the search as it was;
/// where it names a repository, the organisations go, and they alone.
pub proof fn own_texts_change_the_organisations_alone(
    args: ListOrgIssuesArgs,
    query: String,
    none: Vec<String>,
)
    requires
        args.query == Some(query),
        none@.len() == 0,
    ensures
        has_word_with_prefix(query@, "repo:"@) ==> search_terms(args) == search_terms(
            ListOrgIssuesArgs { query: None, orgs: none, ..args },
        ).push(query@),
        !has_word_with_prefix(query@, "repo:"@) ==> search_terms(args) == search_terms(
            ListOrgIssuesArgs { query: None, ..args },
        ).push(query@),
{
    let bare = ListOrgIssuesArgs { query: None, ..args };
    let emptied = ListOrgIssuesArgs { query: None, orgs: none, ..args };
    assert(org_terms(emptied) =~= Seq::empty());
    assert(search_terms(bare) + seq![query@] =~= search_terms(bare).push(query@));
    if has_word_with_prefix(query@, "repo:"@) {
        assert(search_terms(args) =~= search_terms(emptied).push(query@));
    } else {
        assert(search_terms(args) =~= search_terms(bare).push(query@));
    }
}

/// A search is asked of GitHub's search for issues, its terms with a space between
/// each two, and with the page size that is named, or thirty.
pub proof fn searches_ask_for_their_terms(args: ListOrgIssuesArgs)
    ensures
        list_org_issues_call(args).method == Method::Get,
        list_org_issues_call(args).body is None,
        list_org_issues_call(args).path == "/search/issues"@,
        list_org_issues_call(args).query.len() == 2,
        list_org_issues_call(args).query[0] == ("q"@, join(search_terms(args), seq![' '])),
        list_org_issues_call(args).query[1].0 == "per_page"@,
        numeral_value(list_org_issues_call(args).query[1].1) == (match args.per_page {
            Some(n) => if n == 0 {
                1
            } else if n > 100 {
                100
            } else {
                n as int
            },
            None => 30,
        }),
{
    reveal_strlit(" ");
    assert(" "@ =~= seq![' ']);
    numbers_read_back(page_size(args.per_page, 30) as nat);
}

} // verus!
