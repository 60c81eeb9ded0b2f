//! Branch protection: setting it, reading it and removing it.
use vstd::prelude::*;

use crate::api::{repo_path, ApiRequest, ApiRequestView, ErrorData, Method, RepoRef};
use crate::json::{array_view, option_view, put, Json, JsonView};
use crate::json_text::json_pretty;
use crate::text::{concat3, is_white, trim, trimmed, trimming_takes_white_space_alone};

verus! {

/// How a branch is to be protected.
#[derive(Debug)]
pub struct SetBranchProtectionArgs {
    /// Repository (e.g. 'cc-relay' or 'ippoan/cc-relay').
    pub repo: String,
    /// Branch to protect (e.g. 'main', 'master').
    pub branch: String,
    /// Required status check contexts (CI job names) that must pass before
    /// merging. Empty (or omitted): no check is required, and `null` stands in
    /// place of the block.
    pub required_checks: Option<Vec<String>>,
    /// Require branches to be up to date before merging. Default: true.
    pub strict_required_checks: bool,
    /// Also enforce protection for admins. Default: false (admins can bypass).
    pub enforce_admins: bool,
    /// Block merge until all review threads are resolved. Default: true.
    pub required_conversation_resolution: bool,
    /// Allow force pushes to the protected branch. Default: false.
    pub allow_force_pushes: bool,
    /// Allow the protected branch to be deleted. Default: false.
    pub allow_deletions: bool,
    /// Require linear history (no merge commits). Default: false.
    pub required_linear_history: bool,
    /// Require N approving reviews before merge. None / 0: no review is
    /// required, and `null` stands in place of the block.
    pub required_approving_review_count: Option<u32>,
    /// Dismiss stale approvals when new commits are pushed. Only meaningful
    /// when `required_approving_review_count > 0`. Default: false.
    pub dismiss_stale_reviews: bool,
}

/// The default of the rules that are on unless they are switched off.
pub fn default_true() -> (on: bool)
    ensures
        on,
{
    true
}

/// Whose protection to read.
#[derive(Debug)]
pub struct GetBranchProtectionArgs {
    /// Repository (e.g. 'cc-relay' or 'ippoan/cc-relay').
    pub repo: String,
    /// Branch (e.g. 'main').
    pub branch: String,
}

/// Whose protection to remove.
#[derive(Debug)]
pub struct DeleteBranchProtectionArgs {
    /// Repository (e.g. 'cc-relay' or 'ippoan/cc-relay').
    pub repo: String,
    /// Branch (e.g. 'main').
    pub branch: String,
}

/// The path of a branch's protection.
pub open spec fn protection_path(repo: RepoRef, branch: Seq<char>) -> Seq<char> {
    repo_path(repo.owner@, repo.repo@) + "/branches/"@ + branch + "/protection"@
}

fn path_of(repo: &RepoRef, branch: &str) -> (path: String)
    ensures
        path@ == protection_path(*repo, branch@),
{
    let mut path: String = repo.path();
    path.append("/branches/");
    path.append(branch);
    path.append("/protection");
    path
}

/// `{owner}/{repo}@{branch}`
pub open spec fn branch_name(repo: RepoRef, branch: Seq<char>) -> Seq<char> {
    repo.owner@ + "/"@ + repo.repo@ + "@"@ + branch
}

fn name_of(repo: &RepoRef, branch: &str) -> (name: String)
    ensures
        name@ == branch_name(*repo, branch@),
{
    let mut name: String = concat3(repo.owner.as_str(), "/", repo.repo.as_str());
    name.append("@");
    name.append(branch);
    name
}

// ---------------------------------------------------------------------------
// set_branch_protection
// ---------------------------------------------------------------------------

/// The names of checks without the white space around them, those that are
/// empty left out.
pub open spec fn tidy_checks(checks: Seq<String>) -> Seq<JsonView> {
    checks.filter(|check: String| trim(check@).len() > 0).map_values(
        |check: String| JsonView::Str(trim(check@)),
    )
}

/// The checks that are required.
pub open spec fn required_checks(args: SetBranchProtectionArgs) -> Seq<JsonView> {
    match args.required_checks {
        Some(checks) => tidy_checks(checks@),
        None => Seq::empty(),
    }
}

/// The rules on status checks, and `null` where none is required.
pub open spec fn status_check_rules(args: SetBranchProtectionArgs) -> JsonView {
    if required_checks(args).len() == 0 {
        JsonView::Null
    } else {
        JsonView::Object(
            map![
                "strict"@ => JsonView::Bool(args.strict_required_checks),
                "contexts"@ => JsonView::Array(required_checks(args)),
            ],
        )
    }
}

/// The rules on reviews, and `null` where none is required.
pub open spec fn review_rules(args: SetBranchProtectionArgs) -> JsonView {
    match args.required_approving_review_count {
        Some(n) => if n > 0 {
            JsonView::Object(
                map![
                    "required_approving_review_count"@ => JsonView::Int(n as int),
                    "dismiss_stale_reviews"@ => JsonView::Bool(args.dismiss_stale_reviews),
                ],
            )
        } else {
            JsonView::Null
        },
        None => JsonView::Null,
    }
}

/// The rules that protect the branch.
pub open spec fn protection_rules(args: SetBranchProtectionArgs) -> JsonView {
    JsonView::Object(
        map![
            "required_status_checks"@ => status_check_rules(args),
            "required_pull_request_reviews"@ => review_rules(args),
            "enforce_admins"@ => JsonView::Bool(args.enforce_admins),
            "restrictions"@ => JsonView::Null,
            "required_linear_history"@ => JsonView::Bool(args.required_linear_history),
            "allow_force_pushes"@ => JsonView::Bool(args.allow_force_pushes),
            "allow_deletions"@ => JsonView::Bool(args.allow_deletions),
            "required_conversation_resolution"@ => JsonView::Bool(
                args.required_conversation_resolution,
            ),
        ],
    )
}

proof fn lemma_tidy_checks_next(checks: Seq<String>, i: int)
    requires
        0 <= i < checks.len(),
    ensures
        tidy_checks(checks.take(i + 1)) == (if trim(checks[i]@).len() > 0 {
            tidy_checks(checks.take(i)).push(JsonView::Str(trim(checks[i]@)))
        } else {
            tidy_checks(checks.take(i))
        }),
{
    reveal(Seq::filter);
    assert(checks.take(i + 1).drop_last() =~= checks.take(i));
    let keep = |check: String| trim(check@).len() > 0;
    let tell = |check: String| JsonView::Str(trim(check@));
    let kept = checks.take(i).filter(keep);
    if keep(checks[i]) {
        assert(kept.push(checks[i]).map_values(tell) =~= kept.map_values(tell).push(
            tell(checks[i]),
        ));
    }
}

fn tidy(checks: &Vec<String>) -> (tidied: Vec<Json>)
    ensures
        array_view(tidied@) == tidy_checks(checks@),
{
    let mut tidied: Vec<Json> = Vec::new();
    let mut i: usize = 0;
    proof {
        reveal(Seq::filter);
        assert(checks@.take(0) =~= Seq::empty());
        assert(array_view(tidied@) =~= tidy_checks(checks@.take(0)));
    }
    while i < checks.len()
        invariant
            i <= checks@.len(),
            array_view(tidied@) == tidy_checks(checks@.take(i as int)),
        decreases checks@.len() - i,
    {
        let ghost before = tidied@;
        proof {
            lemma_tidy_checks_next(checks@, i as int);
        }
        let check: &str = trimmed(checks[i].as_str());
        if !check.is_empty() {
            tidied.push(Json::Str(check.to_owned()));
            proof {
                assert(array_view(tidied@) =~= array_view(before).push(JsonView::Str(check@)));
            }
        }
        i = i + 1;
    }
    proof {
        assert(checks@.take(i as int) =~= checks@);
    }
    tidied
}

/// The rules that protect the branch.
pub fn branch_protection_payload(args: &SetBranchProtectionArgs) -> (rules: Json)
    ensures
        rules@ == protection_rules(*args),
{
    let mut payload: Vec<(String, Json)> = Vec::new();
    let checks: Vec<Json> = match &args.required_checks {
        Some(checks) => tidy(checks),
        None => Vec::new(),
    };
    proof {
        assert(array_view(checks@) =~= required_checks(*args));
    }
    if checks.len() == 0 {
        put(&mut payload, "required_status_checks", Json::Null);
    } else {
        let mut block: Vec<(String, Json)> = Vec::new();
        put(&mut block, "strict", Json::Bool(args.strict_required_checks));
        put(&mut block, "contexts", Json::Array(checks));
        put(&mut payload, "required_status_checks", Json::Object(block));
    }
    let reviews: u32 = match args.required_approving_review_count {
        Some(n) => n,
        None => 0,
    };
    if reviews > 0 {
        let mut block: Vec<(String, Json)> = Vec::new();
        put(&mut block, "required_approving_review_count", Json::Unsigned(reviews as u64));
        put(&mut block, "dismiss_stale_reviews", Json::Bool(args.dismiss_stale_reviews));
        put(&mut payload, "required_pull_request_reviews", Json::Object(block));
    } else {
        put(&mut payload, "required_pull_request_reviews", Json::Null);
    }
    put(&mut payload, "enforce_admins", Json::Bool(args.enforce_admins));
    put(&mut payload, "restrictions", Json::Null);
    put(&mut payload, "required_linear_history", Json::Bool(args.required_linear_history));
    put(&mut payload, "allow_force_pushes", Json::Bool(args.allow_force_pushes));
    put(&mut payload, "allow_deletions", Json::Bool(args.allow_deletions));
    put(
        &mut payload,
        "required_conversation_resolution",
        Json::Bool(args.required_conversation_resolution),
    );
    Json::Object(payload)
}

/// A request about a branch's protection.
pub open spec fn protection_call(
    method: Method,
    repo: RepoRef,
    branch: Seq<char>,
    body: Option<JsonView>,
) -> ApiRequestView {
    ApiRequestView { method, path: protection_path(repo, branch), query: Seq::empty(), body }
}

fn protection_request(method: Method, repo: &RepoRef, branch: &str, body: Option<Json>) -> (request:
    ApiRequest)
    ensures
        request@ == protection_call(method, *repo, branch@, option_view(body)),
{
    let request = ApiRequest { method, path: path_of(repo, branch), query: Vec::new(), body };
    proof {
        assert(request@.query =~= Seq::empty());
    }
    request
}

/// A request about a branch's protection, and the repository it is about.
#[derive(Debug)]
pub struct ProtectionCall {
    pub repo: RepoRef,
    pub request: ApiRequest,
}

/// The request that protects a branch. A repository that was refused is
/// answered with the refusal, and nothing is asked of GitHub.
pub fn set_branch_protection_request(
    args: &SetBranchProtectionArgs,
    repo: Result<RepoRef, ErrorData>,
) -> (call: Result<ProtectionCall, ErrorData>)
    ensures
        match repo {
            Ok(r) => call matches Ok(c) && c.repo == r && c.request@ == protection_call(
                Method::Put,
                r,
                args.branch@,
                Some(protection_rules(*args)),
            ),
            Err(refusal) => call == Err::<ProtectionCall, ErrorData>(refusal),
        },
{
    let r: RepoRef = match repo {
        Ok(r) => r,
        Err(refusal) => return Err(refusal),
    };
    let request: ApiRequest = protection_request(
        Method::Put,
        &r,
        args.branch.as_str(),
        Some(branch_protection_payload(args)),
    );
    Ok(ProtectionCall { repo: r, request })
}

/// The answer of `set_branch_protection`: what was protected, and GitHub's
/// own answer.
pub fn set_branch_protection_text(repo: &RepoRef, branch: &str, response: &Json) -> (text: String)
    ensures
        text@ == "Branch protection applied on "@ + branch_name(*repo, branch@) + "\n\n"@
            + json_pretty(response@),
{
    let mut text: String = concat3(
        "Branch protection applied on ",
        name_of(repo, branch).as_str(),
        "\n\n",
    );
    text.append(response.to_pretty().as_str());
    text
}

/// What `set_branch_protection` answers to what came of its request: a failure
/// is handed on.
pub fn set_branch_protection_answer(
    repo: &RepoRef,
    branch: &str,
    response: Result<Json, ErrorData>,
) -> (answer: Result<String, ErrorData>)
    ensures
        match response {
            Err(error) => answer == Err::<String, ErrorData>(error),
            Ok(r) => answer matches Ok(text) && text@ == "Branch protection applied on "@
                + branch_name(*repo, branch@) + "\n\n"@ + json_pretty(r@),
        },
{
    match response {
        Err(error) => Err(error),
        Ok(r) => Ok(set_branch_protection_text(repo, branch, &r)),
    }
}

// ---------------------------------------------------------------------------
// get_branch_protection
// ---------------------------------------------------------------------------

/// The request that reads the protection of a branch. A repository that was
/// refused is answered with the refusal, and nothing is asked of GitHub.
pub fn get_branch_protection_request(
    args: &GetBranchProtectionArgs,
    repo: Result<RepoRef, ErrorData>,
) -> (call: Result<ProtectionCall, ErrorData>)
    ensures
        match repo {
            Ok(r) => call matches Ok(c) && c.repo == r && c.request@ == protection_call(
                Method::Get,
                r,
                args.branch@,
                None,
            ),
            Err(refusal) => call == Err::<ProtectionCall, ErrorData>(refusal),
        },
{
    let r: RepoRef = match repo {
        Ok(r) => r,
        Err(refusal) => return Err(refusal),
    };
    let request: ApiRequest = protection_request(Method::Get, &r, args.branch.as_str(), None);
    Ok(ProtectionCall { repo: r, request })
}

/// The answer of `get_branch_protection`: GitHub's own, so that callers can
/// compare before they apply a change.
pub fn get_branch_protection_text(response: &Json) -> (text: String)
    ensures
        text@ == json_pretty(response@),
{
    response.to_pretty()
}

/// What `get_branch_protection` answers to what came of its request: a failure
/// is handed on.
pub fn get_branch_protection_answer(response: Result<Json, ErrorData>) -> (answer: Result<
    String,
    ErrorData,
>)
    ensures
        match response {
            Err(error) => answer == Err::<String, ErrorData>(error),
            Ok(r) => answer matches Ok(text) && text@ == json_pretty(r@),
        },
{
    match response {
        Err(error) => Err(error),
        Ok(r) => Ok(get_branch_protection_text(&r)),
    }
}

// ---------------------------------------------------------------------------
// delete_branch_protection
// ---------------------------------------------------------------------------

/// The request that removes the protection of a branch. A repository that was
/// refused is answered with the refusal, and nothing is asked of GitHub.
pub fn delete_branch_protection_request(
    args: &DeleteBranchProtectionArgs,
    repo: Result<RepoRef, ErrorData>,
) -> (call: Result<ProtectionCall, ErrorData>)
    ensures
        match repo {
            Ok(r) => call matches Ok(c) && c.repo == r && c.request@ == protection_call(
                Method::Delete,
                r,
                args.branch@,
                None,
            ),
            Err(refusal) => call == Err::<ProtectionCall, ErrorData>(refusal),
        },
{
    let r: RepoRef = match repo {
        Ok(r) => r,
        Err(refusal) => return Err(refusal),
    };
    let request: ApiRequest = protection_request(Method::Delete, &r, args.branch.as_str(), None);
    Ok(ProtectionCall { repo: r, request })
}

/// The answer of `delete_branch_protection`: what is no longer protected.
pub fn delete_branch_protection_text(repo: &RepoRef, branch: &str) -> (text: String)
    ensures
        text@ == "Branch protection removed from "@ + branch_name(*repo, branch@),
{
    let mut text: String = "Branch protection removed from ".to_owned();
    text.append(name_of(repo, branch).as_str());
    text
}

/// What `delete_branch_protection` answers to what came of its request: a
/// failure is handed on, and whatever GitHub said is passed over.
pub fn delete_branch_protection_answer(
    repo: &RepoRef,
    branch: &str,
    response: Result<Json, ErrorData>,
) -> (answer: Result<String, ErrorData>)
    ensures
        match response {
            Err(error) => answer == Err::<String, ErrorData>(error),
            Ok(_) => answer matches Ok(text) && text@ == "Branch protection removed from "@
                + branch_name(*repo, branch@),
        },
{
    match response {
        Err(error) => Err(error),
        Ok(_) => Ok(delete_branch_protection_text(repo, branch)),
    }
}

// ---------------------------------------------------------------------------
// Laws
// ---------------------------------------------------------------------------

/// The three tools speak of one and the same place of a branch.
pub proof fn one_place_per_branch(repo: RepoRef, branch: Seq<char>, rules: JsonView)
    ensures
        protection_call(Method::Put, repo, branch, Some(rules)).path == protection_call(
            Method::Get,
            repo,
            branch,
            None,
        ).path,
        protection_call(Method::Delete, repo, branch, None).path == protection_call(
            Method::Get,
            repo,
            branch,
            None,
        ).path,
{
}

/// No check is required by names that are blank: they are as good as none.
pub proof fn blank_checks_are_no_checks(args: SetBranchProtectionArgs, checks: Vec<String>)
    requires
        args.required_checks == Some(checks),
        forall|i: int| 0 <= i < checks@.len() ==> trim((#[trigger] checks@[i])@).len() == 0,
    ensures
        status_check_rules(args) == JsonView::Null,
{
    lemma_blank_checks(checks@);
}

proof fn lemma_blank_checks(checks: Seq<String>)
    requires
        forall|i: int| 0 <= i < checks.len() ==> trim((#[trigger] checks[i])@).len() == 0,
    ensures
        tidy_checks(checks).len() == 0,
    decreases checks.len(),
{
    reveal(Seq::filter);
    if checks.len() > 0 {
        let front = checks.drop_last();
        assert forall|i: int| 0 <= i < front.len() implies trim((#[trigger] front[i])@).len()
            == 0 by {
            assert(front[i] == checks[i]);
        }
        lemma_blank_checks(front);
        lemma_tidy_checks_next(checks, checks.len() - 1);
        assert(checks.take(checks.len() as int) =~= checks);
        assert(checks.take(checks.len() - 1) =~= front);
    }
}

/// What is required holds no blank name.
pub proof fn required_checks_say_something(args: SetBranchProtectionArgs, i: int)
    requires
        0 <= i < required_checks(args).len(),
    ensures
        required_checks(args)[i] matches JsonView::Str(name) && name.len() > 0,
{
    let checks = args.required_checks->0@;
    let keep = |check: String| trim(check@).len() > 0;
    checks.filter_lemma(keep);
    assert(keep(checks.filter(keep)[i]));
}

/// Whether stale approvals are dismissed makes no difference where no review
/// is required.
pub proof fn stale_reviews_need_reviews(args: SetBranchProtectionArgs, dismiss: bool)
    requires
        args.required_approving_review_count is None || args.required_approving_review_count
            == Some(0u32),
    ensures
        protection_rules(args) == protection_rules(
            SetBranchProtectionArgs { dismiss_stale_reviews: dismiss, ..args },
        ),
{
}

proof fn lemma_rule_names()
    ensures
        "required_status_checks"@ != "required_pull_request_reviews"@,
        "required_status_checks"@ != "enforce_admins"@,
        "required_status_checks"@ != "restrictions"@,
        "required_status_checks"@ != "required_linear_history"@,
        "required_status_checks"@ != "allow_force_pushes"@,
        "required_status_checks"@ != "allow_deletions"@,
        "required_status_checks"@ != "required_conversation_resolution"@,
        "required_pull_request_reviews"@ != "enforce_admins"@,
        "required_pull_request_reviews"@ != "restrictions"@,
        "required_pull_request_reviews"@ != "required_linear_history"@,
        "required_pull_request_reviews"@ != "allow_force_pushes"@,
        "required_pull_request_reviews"@ != "allow_deletions"@,
        "required_pull_request_reviews"@ != "required_conversation_resolution"@,
        "enforce_admins"@ != "restrictions"@,
        "enforce_admins"@ != "required_linear_history"@,
        "enforce_admins"@ != "allow_force_pushes"@,
        "enforce_admins"@ != "allow_deletions"@,
        "enforce_admins"@ != "required_conversation_resolution"@,
        "restrictions"@ != "required_linear_history"@,
        "restrictions"@ != "allow_force_pushes"@,
        "restrictions"@ != "allow_deletions"@,
        "restrictions"@ != "required_conversation_resolution"@,
        "required_linear_history"@ != "allow_force_pushes"@,
        "required_linear_history"@ != "allow_deletions"@,
        "required_linear_history"@ != "required_conversation_resolution"@,
        "allow_force_pushes"@ != "allow_deletions"@,
        "allow_force_pushes"@ != "required_conversation_resolution"@,
        "allow_deletions"@ != "required_conversation_resolution"@,
{
    reveal_strlit("required_status_checks");
    reveal_strlit("required_pull_request_reviews");
    reveal_strlit("enforce_admins");
    reveal_strlit("restrictions");
    reveal_strlit("required_linear_history");
    reveal_strlit("allow_force_pushes");
    reveal_strlit("allow_deletions");
    reveal_strlit("required_conversation_resolution");
    assert("required_status_checks"@.len() == 22);
    assert("required_pull_request_reviews"@.len() == 29);
    assert("enforce_admins"@.len() == 14);
    assert("restrictions"@.len() == 12);
    assert("required_linear_history"@.len() == 23);
    assert("allow_force_pushes"@.len() == 18);
    assert("allow_deletions"@.len() == 15);
    assert("required_conversation_resolution"@.len() == 32);
}

proof fn lemma_check_rule_names()
    ensures
        "strict"@ != "contexts"@,
{
    reveal_strlit("strict");
    reveal_strlit("contexts");
    assert("strict"@.len() == 6);
    assert("contexts"@.len() == 8);
}

proof fn lemma_review_rule_names()
    ensures
        "required_approving_review_count"@ != "dismiss_stale_reviews"@,
{
    reveal_strlit("required_approving_review_count");
    reveal_strlit("dismiss_stale_reviews");
    assert("required_approving_review_count"@.len() == 31);
    assert("dismiss_stale_reviews"@.len() == 21);
}


/// A request about a branch goes to that branch of that repository and to no
/// other: the path is written out of the owner, the repository and the branch,
/// and two branches of a repository never share one.
pub proof fn branches_have_their_own_places(
    method: Method,
    repo: RepoRef,
    branch: Seq<char>,
    other: Seq<char>,
    body: Option<JsonView>,
)
    ensures
        protection_call(method, repo, branch, body).path == "/repos/"@ + repo.owner@ + "/"@
            + repo.repo@ + "/branches/"@ + branch + "/protection"@,
        protection_call(method, repo, branch, body).path == protection_call(
            method,
            repo,
            other,
            body,
        ).path <==> branch == other,
        protection_call(method, repo, branch, body).method == method,
        protection_call(method, repo, branch, body).query.len() == 0,
        protection_call(method, repo, branch, body).body == body,
{
    let head = repo_path(repo.owner@, repo.repo@) + "/branches/"@;
    let n = head.len() as int;
    let a = protection_path(repo, branch);
    let b = protection_path(repo, other);
    assert(a.subrange(n, n + branch.len()) =~= branch);
    assert(b.subrange(n, n + other.len()) =~= other);
    if a == b {
        assert(a.len() == b.len());
        assert(branch == other);
    }
}

/// Another repository of the owner has its own places.
pub proof fn repositories_keep_their_branches_apart(a: RepoRef, b: RepoRef, branch: Seq<char>)
    requires
        a.owner@ == b.owner@,
        protection_path(a, branch) == protection_path(b, branch),
    ensures
        a.repo@ == b.repo@,
{
    let head = "/repos/"@ + a.owner@ + "/"@;
    let n = head.len() as int;
    let x = protection_path(a, branch);
    let y = protection_path(b, branch);
    assert(x.subrange(n, n + a.repo@.len()) =~= a.repo@);
    assert(x.len() == y.len());
    assert(x.len() == n + a.repo@.len() + "/branches/"@.len() + branch.len() + "/protection"@.len());
    assert(y.len() == n + b.repo@.len() + "/branches/"@.len() + branch.len() + "/protection"@.len());
    assert(y.subrange(n, n + b.repo@.len()) =~= b.repo@);
}

/// An answer names the owner, the repository and the branch, in this order, and
/// another branch by another name.
pub proof fn answers_name_what_was_asked_for(repo: RepoRef, branch: Seq<char>, other: Seq<char>)
    ensures
        branch_name(repo, branch) == repo.owner@.push('/') + repo.repo@.push('@') + branch,
        branch_name(repo, branch) == branch_name(repo, other) <==> branch == other,
{
    reveal_strlit("/");
    reveal_strlit("@");
    let n = (repo.owner@.len() + repo.repo@.len() + 2) as int;
    assert(branch_name(repo, branch) =~= repo.owner@.push('/') + repo.repo@.push('@') + branch);
    assert(branch_name(repo, branch).skip(n) =~= branch);
    assert(branch_name(repo, other).skip(n) =~= other);
}

/// The rules have these eight members and no other; each switch of the arguments
/// stands in the member of its own name, whatever the other arguments are, and
/// nobody is restricted.
pub proof fn switches_stand_in_their_own_members(args: SetBranchProtectionArgs)
    ensures
        protection_rules(args) is Object,
        protection_rules(args)->Object_0.dom() == set!["required_status_checks"@, "required_pull_request_reviews"@, "enforce_admins"@, "restrictions"@, "required_linear_history"@, "allow_force_pushes"@, "allow_deletions"@, "required_conversation_resolution"@],
        protection_rules(args).get("enforce_admins"@) == Some(JsonView::Bool(args.enforce_admins)),
        protection_rules(args).get("required_linear_history"@) == Some(
            JsonView::Bool(args.required_linear_history),
        ),
        protection_rules(args).get("allow_force_pushes"@) == Some(
            JsonView::Bool(args.allow_force_pushes),
        ),
        protection_rules(args).get("allow_deletions"@) == Some(
            JsonView::Bool(args.allow_deletions),
        ),
        protection_rules(args).get("required_conversation_resolution"@) == Some(
            JsonView::Bool(args.required_conversation_resolution),
        ),
        protection_rules(args).get("restrictions"@) == Some(JsonView::Null),
{
    lemma_rule_names();
    assert(protection_rules(args)->Object_0.dom() =~= set!["required_status_checks"@, "required_pull_request_reviews"@, "enforce_admins"@, "restrictions"@, "required_linear_history"@, "allow_force_pushes"@, "allow_deletions"@, "required_conversation_resolution"@]);
}

/// The rules on checks are `null` exactly where no check is required. Elsewhere
/// they say whether branches have to be up to date, as the arguments do, and name
/// the checks; they say nothing else.
pub proof fn check_rules_say_what_is_required(args: SetBranchProtectionArgs)
    ensures
        protection_rules(args).get("required_status_checks"@) matches Some(rules) && ({
            let checks = match args.required_checks {
                Some(list) => tidy_checks(list@),
                None => Seq::empty(),
            };
            if checks.len() == 0 {
                rules == JsonView::Null
            } else {
                &&& rules is Object
                &&& rules->Object_0.dom() == set!["strict"@, "contexts"@]
                &&& rules.get("strict"@) == Some(JsonView::Bool(args.strict_required_checks))
                &&& rules.get("contexts"@) == Some(JsonView::Array(checks))
            }
        }),
{
    lemma_rule_names();
    lemma_check_rule_names();
    if required_checks(args).len() > 0 {
        assert(status_check_rules(args)->Object_0.dom() =~= set!["strict"@, "contexts"@]);
    }
}

/// Whether branches have to be up to date makes a difference wherever a check is
/// required.
pub proof fn strictness_makes_a_difference(args: SetBranchProtectionArgs, checks: Vec<String>)
    requires
        args.required_checks == Some(checks),
        exists|i: int|
            0 <= i < checks@.len() && trim((#[trigger] checks@[i])@).len() > 0,
    ensures
        protection_rules(args) != protection_rules(
            SetBranchProtectionArgs { strict_required_checks: !args.strict_required_checks, ..args },
        ),
{
    let other = SetBranchProtectionArgs {
        strict_required_checks: !args.strict_required_checks,
        ..args
    };
    let i = choose|i: int| 0 <= i < checks@.len() && trim((#[trigger] checks@[i])@).len() > 0;
    let ahead = checks@.take(i);
    let rest = checks@.skip(i + 1);
    assert(checks@ =~= ahead + seq![checks@[i]] + rest);
    checks_are_tidied_one_by_one(ahead + seq![checks@[i]], rest);
    checks_are_tidied_one_by_one(ahead, seq![checks@[i]]);
    lemma_one_check(checks@[i]);
    check_rules_say_what_is_required(args);
    check_rules_say_what_is_required(other);
}

/// The rules on reviews are `null` exactly where no review is required. Elsewhere
/// they hold the number of reviews and whether stale ones are dismissed, as the
/// arguments do, and nothing else.
pub proof fn review_rules_say_what_is_required(args: SetBranchProtectionArgs)
    ensures
        protection_rules(args).get("required_pull_request_reviews"@) matches Some(rules) && (
        match args.required_approving_review_count {
            Some(n) => if n == 0 {
                rules == JsonView::Null
            } else {
                &&& rules is Object
                &&& rules->Object_0.dom() == set!["required_approving_review_count"@, "dismiss_stale_reviews"@]
                &&& rules.get("required_approving_review_count"@) == Some(JsonView::Int(n as int))
                &&& rules.get("dismiss_stale_reviews"@) == Some(
                    JsonView::Bool(args.dismiss_stale_reviews),
                )
            },
            None => rules == JsonView::Null,
        }),
{
    lemma_rule_names();
    lemma_review_rule_names();
    match args.required_approving_review_count {
        Some(n) => if n > 0 {
            assert(review_rules(args)->Object_0.dom() =~= set!["required_approving_review_count"@, "dismiss_stale_reviews"@]);
        },
        None => {},
    }
}

/// Checks are tidied one by one, and keep their order.
pub proof fn checks_are_tidied_one_by_one(earlier: Seq<String>, later: Seq<String>)
    ensures
        tidy_checks(earlier + later) == tidy_checks(earlier) + tidy_checks(later),
{
    let keep = |check: String| trim(check@).len() > 0;
    let tell = |check: String| JsonView::Str(trim(check@));
    Seq::filter_distributes_over_add(earlier, later, keep);
    assert((earlier.filter(keep) + later.filter(keep)).map_values(tell) =~= earlier.filter(
        keep,
    ).map_values(tell) + later.filter(keep).map_values(tell));
}

proof fn lemma_one_check(check: String)
    ensures
        tidy_checks(seq![check]) == (if trim(check@).len() > 0 {
            seq![JsonView::Str(trim(check@))]
        } else {
            Seq::empty()
        }),
{
    let one = seq![check];
    reveal(Seq::filter);
    assert(one.take(0) =~= Seq::empty());
    assert(one.take(1) =~= one);
    assert(tidy_checks(one.take(0)) =~= Seq::empty());
    lemma_tidy_checks_next(one, 0);
}

/// A check is required by its name without the white space around it, and a name
/// of white space alone is none.
pub proof fn a_check_is_its_name(
    check: String,
    ahead: Seq<char>,
    name: Seq<char>,
    behind: Seq<char>,
)
    requires
        check@ == ahead + name + behind,
        forall|i: int| 0 <= i < ahead.len() ==> is_white(#[trigger] ahead[i]),
        forall|i: int| 0 <= i < behind.len() ==> is_white(#[trigger] behind[i]),
        name.len() > 0 ==> !is_white(name[0]) && !is_white(name[name.len() - 1]),
    ensures
        tidy_checks(seq![check]) == (if name.len() > 0 {
            seq![JsonView::Str(name)]
        } else {
            Seq::empty()
        }),
{
    trimming_takes_white_space_alone(ahead, name, behind);
    lemma_one_check(check);
}

} // verus!
