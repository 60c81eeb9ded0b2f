//! The MCP server: which tools a session has, and the two that every session
//! has.
//!
//! The scope of the session's token decides:
//!
//! - `mcp.admin`: the branch protection tools;
//! - `mcp.read` or `mcp.write`: the tools that read and write;
//! - both: all of them;
//! - neither: `whoami` and `list_repos` alone, which are there in any case.
use vstd::prelude::*;

use crate::api::{add_param, given_or, text_or, ApiRequest, ApiRequestView, ErrorData, Method};
use crate::json::{array_view, put, Json, JsonView};
use crate::json_text::json_compact;
use crate::text::{
    contains_word, decimal, decimal_text, has_word, is_white, nothing_has_no_words,
    numbers_read_back, numeral_value, word_at,
};

verus! {

/// What every tool of a session shares.
#[derive(Debug, Clone)]
pub struct GithubContext {
    pub github_token: String,
    pub github_login: String,
    /// The scope of the session's token, words between white space, as the
    /// auth worker told it.
    pub scope: String,
}

/// The categories of tools.
#[derive(Debug, Clone, Copy, PartialEq, Eq, Structural)]
pub enum ToolCategory {
    Core,
    Branches,
    Actions,
    Commits,
    Issues,
    Logs,
    Projects,
    Pulls,
    Releases,
    Repository,
}

/// A session of the MCP server.
#[derive(Debug)]
pub struct GithubMcp {
    pub ctx: GithubContext,
    /// The categories of tools that the session has.
    pub routers: Vec<ToolCategory>,
}

/// Whether `target` is one of the words of a scope. A word that only contains
/// it does not count.
pub fn scope_has(scope_str: &str, target: &str) -> (has: bool)
    ensures
        has == has_word(scope_str@, target@),
{
    contains_word(scope_str, target)
}

/// The scope of an administrator.
pub open spec fn is_admin(scope: Seq<char>) -> bool {
    has_word(scope, "mcp.admin"@)
}

/// A scope that reads or writes.
pub open spec fn reads_or_writes(scope: Seq<char>) -> bool {
    has_word(scope, "mcp.read"@) || has_word(scope, "mcp.write"@)
}

/// The categories of an administrator.
pub open spec fn admin_categories() -> Seq<ToolCategory> {
    seq![ToolCategory::Branches]
}

/// The categories that read and write.
pub open spec fn read_write_categories() -> Seq<ToolCategory> {
    seq![
        ToolCategory::Actions,
        ToolCategory::Commits,
        ToolCategory::Issues,
        ToolCategory::Logs,
        ToolCategory::Projects,
        ToolCategory::Pulls,
        ToolCategory::Releases,
        ToolCategory::Repository,
    ]
}

/// The categories of tools that a scope gives.
pub open spec fn categories(scope: Seq<char>) -> Seq<ToolCategory> {
    seq![ToolCategory::Core] + (if is_admin(scope) {
        admin_categories()
    } else {
        Seq::empty()
    }) + (if reads_or_writes(scope) {
        read_write_categories()
    } else {
        Seq::empty()
    })
}

/// The names of the tools that this library answers, by category.
pub open spec fn tools_of(category: ToolCategory) -> Seq<Seq<char>> {
    match category {
        ToolCategory::Core => seq!["whoami"@, "list_repos"@],
        ToolCategory::Branches => seq![
            "set_branch_protection"@,
            "get_branch_protection"@,
            "delete_branch_protection"@,
        ],
        ToolCategory::Issues => seq!["list_issues"@, "get_issue"@, "list_org_issues"@],
        _ => Seq::empty(),
    }
}

/// The names of the tools of several categories, in order.
pub open spec fn tools_of_all(list: Seq<ToolCategory>) -> Seq<Seq<char>>
    decreases list.len(),
{
    if list.len() == 0 {
        Seq::empty()
    } else {
        tools_of_all(list.drop_last()) + tools_of(list.last())
    }
}

/// The texts of a list of string slices.
pub open spec fn names_view(names: Seq<&'static str>) -> Seq<Seq<char>> {
    names.map_values(|name: &'static str| name@)
}

fn add_name(names: &mut Vec<&'static str>, name: &'static str)
    ensures
        names_view(final(names)@) == names_view(old(names)@) + seq![name@],
{
    let ghost before = names@;
    names.push(name);
    proof {
        assert(names_view(names@) =~= names_view(before) + seq![name@]);
    }
}

impl GithubMcp {
    /// A session whose tools are those that the scope of `ctx` gives.
    pub fn new(ctx: GithubContext) -> (mcp: GithubMcp)
        ensures
            mcp.ctx == ctx,
            mcp.routers@ == categories(ctx.scope@),
    {
        let admin: bool = scope_has(ctx.scope.as_str(), "mcp.admin");
        let read_or_write: bool = scope_has(ctx.scope.as_str(), "mcp.read") || scope_has(
            ctx.scope.as_str(),
            "mcp.write",
        );
        let mut routers: Vec<ToolCategory> = Vec::new();
        routers.push(ToolCategory::Core);
        if admin {
            routers.push(ToolCategory::Branches);
        }
        if read_or_write {
            routers.push(ToolCategory::Actions);
            routers.push(ToolCategory::Commits);
            routers.push(ToolCategory::Issues);
            routers.push(ToolCategory::Logs);
            routers.push(ToolCategory::Projects);
            routers.push(ToolCategory::Pulls);
            routers.push(ToolCategory::Releases);
            routers.push(ToolCategory::Repository);
        }
        proof {
            assert(routers@ =~= categories(ctx.scope@));
        }
        GithubMcp { ctx, routers }
    }

    /// What the tools of the session share.
    pub fn ctx(&self) -> (ctx: &GithubContext)
        ensures
            *ctx == self.ctx,
    {
        &self.ctx
    }

    /// The names of the session's tools that this library answers.
    pub fn tool_names(&self) -> (names: Vec<&'static str>)
        ensures
            names_view(names@) == tools_of_all(self.routers@),
    {
        let mut names: Vec<&'static str> = Vec::new();
        let mut i: usize = 0;
        proof {
            assert(names_view(names@) =~= tools_of_all(self.routers@.take(0)));
        }
        while i < self.routers.len()
            invariant
                i <= self.routers@.len(),
                names_view(names@) == tools_of_all(self.routers@.take(i as int)),
            decreases self.routers@.len() - i,
        {
            let ghost before = names_view(names@);
            match self.routers[i] {
                ToolCategory::Core => {
                    add_name(&mut names, "whoami");
                    add_name(&mut names, "list_repos");
                },
                ToolCategory::Branches => {
                    add_name(&mut names, "set_branch_protection");
                    add_name(&mut names, "get_branch_protection");
                    add_name(&mut names, "delete_branch_protection");
                },
                ToolCategory::Issues => {
                    add_name(&mut names, "list_issues");
                    add_name(&mut names, "get_issue");
                    add_name(&mut names, "list_org_issues");
                },
                _ => {},
            }
            proof {
                assert(self.routers@.take(i + 1).drop_last() =~= self.routers@.take(i as int));
                assert(names_view(names@) =~= before + tools_of(self.routers@[i as int]));
            }
            i = i + 1;
        }
        proof {
            assert(self.routers@.take(i as int) =~= self.routers@);
        }
        names
    }

    /// The answer of `whoami`: the login and the scope of the session.
    pub fn whoami(&self) -> (text: String)
        ensures
            text@ == json_compact(whoami_told(self.ctx.github_login@, self.ctx.scope@)),
    {
        self.whoami_result().to_compact()
    }

    /// What `whoami` tells of the session.
    pub fn whoami_result(&self) -> (told: Json)
        ensures
            told@ == whoami_told(self.ctx.github_login@, self.ctx.scope@),
    {
        let mut fields: Vec<(String, Json)> = Vec::new();
        put(&mut fields, "github_login", Json::Str(self.ctx.github_login.clone()));
        put(&mut fields, "scope", Json::Str(self.ctx.scope.clone()));
        Json::Object(fields)
    }
}

/// What `whoami` tells of a session.
pub open spec fn whoami_told(login: Seq<char>, scope: Seq<char>) -> JsonView {
    JsonView::Object(
        map!["github_login"@ => JsonView::Str(login), "scope"@ => JsonView::Str(scope)],
    )
}

// ---------------------------------------------------------------------------
// list_repos
// ---------------------------------------------------------------------------

/// Which repositories to list.
#[derive(Debug)]
pub struct ListReposArgs {
    /// "all" | "public" | "private" (default "all").
    pub visibility: Option<String>,
    /// 1〜100 (default 30).
    pub per_page: Option<u32>,
    /// The page, counted from one.
    pub page: Option<u32>,
}

/// The page size of a list of repositories: what was asked for, or thirty, but
/// at most a hundred.
pub open spec fn repos_per_page(args: ListReposArgs) -> u32 {
    let asked = match args.per_page {
        Some(n) => n,
        None => 30,
    };
    if asked > 100 {
        100
    } else {
        asked
    }
}

/// The page of a list of repositories.
pub open spec fn repos_page(args: ListReposArgs) -> u32 {
    match args.page {
        Some(n) => n,
        None => 1,
    }
}

/// The request that lists repositories.
pub open spec fn list_repos_call(args: ListReposArgs) -> ApiRequestView {
    ApiRequestView {
        method: Method::Get,
        path: "/user/repos"@,
        query: seq![
            ("visibility"@, text_or(args.visibility, "all"@)),
            ("per_page"@, decimal(repos_per_page(args) as nat)),
            ("page"@, decimal(repos_page(args) as nat)),
        ],
        body: None,
    }
}

fn choose_per_page(args: &ListReposArgs) -> (size: u32)
    ensures
        size == repos_per_page(*args),
{
    let asked: u32 = match args.per_page {
        Some(n) => n,
        None => 30,
    };
    if asked > 100 {
        100
    } else {
        asked
    }
}

fn choose_page(args: &ListReposArgs) -> (page: u32)
    ensures
        page == repos_page(*args),
{
    match args.page {
        Some(n) => n,
        None => 1,
    }
}

/// The request that lists the repositories of the session's user.
pub fn list_repos_request(args: &ListReposArgs) -> (request: ApiRequest)
    ensures
        request@ == list_repos_call(*args),
{
    let mut query: Vec<(String, String)> = Vec::new();
    add_param(&mut query, "visibility", given_or(&args.visibility, "all"));
    add_param(&mut query, "per_page", decimal_text(choose_per_page(args) as u64));
    add_param(&mut query, "page", decimal_text(choose_page(args) as u64));
    let request = ApiRequest {
        method: Method::Get,
        path: "/user/repos".to_owned(),
        query,
        body: None,
    };
    proof {
        assert(request@.query =~= list_repos_call(*args).query);
    }
    request
}

/// What is told of a repository.
pub open spec fn repo_told(repo: JsonView) -> JsonView {
    JsonView::Object(
        map![
            "full_name"@ => repo.get_or_null("full_name"@),
            "private"@ => repo.get_or_null("private"@),
            "description"@ => repo.get_or_null("description"@),
            "html_url"@ => repo.get_or_null("html_url"@),
            "default_branch"@ => repo.get_or_null("default_branch"@),
            "language"@ => repo.get_or_null("language"@),
            "stargazers_count"@ => repo.get_or_null("stargazers_count"@),
            "pushed_at"@ => repo.get_or_null("pushed_at"@),
        ],
    )
}

/// What is told of the repositories that GitHub listed; nothing of an answer
/// that is no list.
pub open spec fn repos_told(repos: JsonView) -> Seq<JsonView> {
    match repos.as_array() {
        Some(items) => items.map_values(|repo: JsonView| repo_told(repo)),
        None => Seq::empty(),
    }
}

/// What `list_repos` tells of what GitHub listed.
pub open spec fn list_repos_told(args: ListReposArgs, repos: JsonView) -> JsonView {
    JsonView::Object(
        map![
            "page"@ => JsonView::Int(repos_page(args) as int),
            "per_page"@ => JsonView::Int(repos_per_page(args) as int),
            "count"@ => JsonView::Int(repos_told(repos).len() as int),
            "repos"@ => JsonView::Array(repos_told(repos)),
        ],
    )
}

fn repo_summary(repo: &Json) -> (told: Json)
    ensures
        told@ == repo_told(repo@),
{
    let mut fields: Vec<(String, Json)> = Vec::new();
    put(&mut fields, "full_name", repo.get_or_null("full_name"));
    put(&mut fields, "private", repo.get_or_null("private"));
    put(&mut fields, "description", repo.get_or_null("description"));
    put(&mut fields, "html_url", repo.get_or_null("html_url"));
    put(&mut fields, "default_branch", repo.get_or_null("default_branch"));
    put(&mut fields, "language", repo.get_or_null("language"));
    put(&mut fields, "stargazers_count", repo.get_or_null("stargazers_count"));
    put(&mut fields, "pushed_at", repo.get_or_null("pushed_at"));
    Json::Object(fields)
}

/// What `list_repos` tells of what GitHub listed.
pub fn list_repos_result(args: &ListReposArgs, repos: &Json) -> (told: Json)
    ensures
        told@ == list_repos_told(*args, repos@),
{
    let mut summary: Vec<Json> = Vec::new();
    match repos.as_array() {
        Some(items) => {
            let mut i: usize = 0;
            while i < items.len()
                invariant
                    i <= items@.len(),
                    summary@.len() == i,
                    forall|k: int|
                        0 <= k < i ==> (#[trigger] summary@[k])@ == repo_told(items@[k]@),
                decreases items@.len() - i,
            {
                summary.push(repo_summary(&items[i]));
                i = i + 1;
            }
        },
        None => {},
    }
    proof {
        assert(array_view(summary@) =~= repos_told(repos@));
    }
    let mut fields: Vec<(String, Json)> = Vec::new();
    put(&mut fields, "page", Json::Unsigned(choose_page(args) as u64));
    put(&mut fields, "per_page", Json::Unsigned(choose_per_page(args) as u64));
    put(&mut fields, "count", Json::Unsigned(summary.len() as u64));
    put(&mut fields, "repos", Json::Array(summary));
    Json::Object(fields)
}

/// The answer of `list_repos`.
pub fn list_repos_text(args: &ListReposArgs, repos: &Json) -> (text: String)
    ensures
        text@ == json_compact(list_repos_told(*args, repos@)),
{
    list_repos_result(args, repos).to_compact()
}

/// What `list_repos` answers to what came of its request: a failure is handed
/// on.
pub fn list_repos_answer(args: &ListReposArgs, repos: Result<Json, ErrorData>) -> (answer: Result<
    String,
    ErrorData,
>)
    ensures
        match repos {
            Err(error) => answer == Err::<String, ErrorData>(error),
            Ok(listed) => answer matches Ok(text) && text@ == json_compact(
                list_repos_told(*args, listed@),
            ),
        },
{
    match repos {
        Err(error) => Err(error),
        Ok(listed) => Ok(list_repos_text(args, &listed)),
    }
}

/// What the server tells a client of itself.
pub fn server_instructions() -> (text: &'static str)
    ensures
        text@
            == "GitHub MCP server backed by auth-worker (RFC 8628 device flow + introspect). Tools surface depends on the JWT scope claim: `mcp.read|write` exposes ci-dashboard-derived read/write tools (workflow runs / commits / issues / job logs / pull requests / tags / repository); `mcp.admin` exposes branch protection tools (set/get/delete_branch_protection) instead. whoami and list_repos are always available. The github_token is auto-recovered from auth-worker KV via /mcp/introspect at server startup."@,
{
    "GitHub MCP server backed by auth-worker (RFC 8628 device flow + introspect). Tools surface depends on the JWT scope claim: `mcp.read|write` exposes ci-dashboard-derived read/write tools (workflow runs / commits / issues / job logs / pull requests / tags / repository); `mcp.admin` exposes branch protection tools (set/get/delete_branch_protection) instead. whoami and list_repos are always available. The github_token is auto-recovered from auth-worker KV via /mcp/introspect at server startup."
}

// ---------------------------------------------------------------------------
// Laws
// ---------------------------------------------------------------------------

/// Every session has the core tools.
pub proof fn core_is_always_there(scope: Seq<char>)
    ensures
        categories(scope).contains(ToolCategory::Core),
{
    assert(categories(scope)[0] == ToolCategory::Core);
}

/// The branch protection tools are there exactly for an administrator.
pub proof fn branches_are_for_admins(scope: Seq<char>)
    ensures
        categories(scope).contains(ToolCategory::Branches) <==> is_admin(scope),
{
    if is_admin(scope) {
        assert(categories(scope)[1] == ToolCategory::Branches);
    }
}

/// A category that reads and writes is there exactly for a scope that reads or
/// writes.
pub proof fn read_write_needs_its_scope(scope: Seq<char>, category: ToolCategory)
    requires
        category != ToolCategory::Core,
        category != ToolCategory::Branches,
    ensures
        categories(scope).contains(category) <==> reads_or_writes(scope),
{
    if reads_or_writes(scope) {
        let k: int = match category {
            ToolCategory::Actions => 0,
            ToolCategory::Commits => 1,
            ToolCategory::Issues => 2,
            ToolCategory::Logs => 3,
            ToolCategory::Projects => 4,
            ToolCategory::Pulls => 5,
            ToolCategory::Releases => 6,
            _ => 7,
        };
        let at = categories(scope).len() - 8 + k;
        assert(categories(scope)[at] == category);
    }
}

/// Administrators who neither read nor write have the core and the branch
/// protection tools, and no other.
pub proof fn admin_alone_is_contained(scope: Seq<char>)
    requires
        is_admin(scope),
        !reads_or_writes(scope),
    ensures
        categories(scope) == seq![ToolCategory::Core, ToolCategory::Branches],
{
    assert(categories(scope) =~= seq![ToolCategory::Core, ToolCategory::Branches]);
}

/// A scope that names none of the three has the core tools alone.
pub proof fn unknown_scopes_have_core_alone(scope: Seq<char>)
    requires
        !is_admin(scope),
        !reads_or_writes(scope),
    ensures
        categories(scope) == seq![ToolCategory::Core],
{
    assert(categories(scope) =~= seq![ToolCategory::Core]);
}

/// The names of the tools that a scope gives.
pub open spec fn tools_for(scope: Seq<char>) -> Seq<Seq<char>> {
    tools_of_all(categories(scope))
}

/// A tool is there exactly where a category of the session has it.
proof fn lemma_tools_of_all(list: Seq<ToolCategory>, name: Seq<char>)
    ensures
        tools_of_all(list).contains(name) <==> exists|i: int|
            0 <= i < list.len() && tools_of(#[trigger] list[i]).contains(name),
    decreases list.len(),
{
    if list.len() > 0 {
        let front = list.drop_last();
        let earlier = tools_of_all(front);
        let own = tools_of(list.last());
        lemma_tools_of_all(front, name);
        if earlier.contains(name) {
            let i = choose|i: int| 0 <= i < front.len() && tools_of(#[trigger] front[i]).contains(name);
            assert(list[i] == front[i]);
            let k = choose|k: int| 0 <= k < earlier.len() && earlier[k] == name;
            assert((earlier + own)[k] == name);
        }
        if own.contains(name) {
            assert(list[list.len() - 1] == list.last());
            let k = choose|k: int| 0 <= k < own.len() && own[k] == name;
            assert((earlier + own)[earlier.len() + k] == name);
        }
        if tools_of_all(list).contains(name) {
            let k = choose|k: int| 0 <= k < tools_of_all(list).len() && tools_of_all(list)[k] == name;
            if k < earlier.len() {
                assert(earlier[k] == name);
            } else {
                assert(own[k - earlier.len()] == name);
            }
        }
        if exists|i: int| 0 <= i < list.len() && tools_of(#[trigger] list[i]).contains(name) {
            let i = choose|i: int| 0 <= i < list.len() && tools_of(#[trigger] list[i]).contains(name);
            if i < front.len() {
                assert(front[i] == list[i]);
            }
        }
    }
}

/// Which tools a scope gives: the core tools in any case, those of branch
/// protection exactly for an administrator, and those of issues exactly for a
/// scope that reads or writes.
pub proof fn tools_follow_the_scope(scope: Seq<char>, name: Seq<char>)
    ensures
        tools_for(scope).contains(name) <==> tools_of(ToolCategory::Core).contains(name) || (
        is_admin(scope) && tools_of(ToolCategory::Branches).contains(name)) || (reads_or_writes(scope)
            && tools_of(ToolCategory::Issues).contains(name)),
{
    let list = categories(scope);
    lemma_tools_of_all(list, name);
    core_is_always_there(scope);
    branches_are_for_admins(scope);
    read_write_needs_its_scope(scope, ToolCategory::Issues);
    if tools_for(scope).contains(name) {
        let i = choose|i: int| 0 <= i < list.len() && tools_of(#[trigger] list[i]).contains(name);
        assert(list.contains(list[i]));
    }
    if tools_of(ToolCategory::Core).contains(name) {
        let i = choose|i: int| 0 <= i < list.len() && list[i] == ToolCategory::Core;
        assert(tools_of(list[i]).contains(name));
    }
    if is_admin(scope) && tools_of(ToolCategory::Branches).contains(name) {
        let i = choose|i: int| 0 <= i < list.len() && list[i] == ToolCategory::Branches;
        assert(tools_of(list[i]).contains(name));
    }
    if reads_or_writes(scope) && tools_of(ToolCategory::Issues).contains(name) {
        let i = choose|i: int| 0 <= i < list.len() && list[i] == ToolCategory::Issues;
        assert(tools_of(list[i]).contains(name));
    }
}

/// Two scopes with white space between them give the tools of both, and no
/// other.
pub proof fn joined_scopes_join_their_tools(
    left: Seq<char>,
    space: char,
    right: Seq<char>,
    name: Seq<char>,
)
    requires
        is_white(space),
    ensures
        tools_for(left.push(space) + right).contains(name) <==> tools_for(left).contains(name)
            || tools_for(right).contains(name),
{
    tools_follow_the_scope(left.push(space) + right, name);
    tools_follow_the_scope(left, name);
    tools_follow_the_scope(right, name);
    white_space_parts_words(left, space, right, "mcp.admin"@);
    white_space_parts_words(left, space, right, "mcp.read"@);
    white_space_parts_words(left, space, right, "mcp.write"@);
}

/// What administrators who neither read nor write share with readers and
/// writers who are no administrators is the core tools alone.
pub proof fn admins_and_writers_share_core_alone(
    admin: Seq<char>,
    writer: Seq<char>,
    name: Seq<char>,
)
    requires
        is_admin(admin),
        !reads_or_writes(admin),
        !is_admin(writer),
        reads_or_writes(writer),
    ensures
        tools_for(admin).contains(name) && tools_for(writer).contains(name) <==> tools_of(
            ToolCategory::Core,
        ).contains(name),
{
    tools_follow_the_scope(admin, name);
    tools_follow_the_scope(writer, name);
    let branches = tools_of(ToolCategory::Branches);
    let issues = tools_of(ToolCategory::Issues);
    if branches.contains(name) && issues.contains(name) {
        reveal_strlit("set_branch_protection");
        reveal_strlit("get_branch_protection");
        reveal_strlit("delete_branch_protection");
        reveal_strlit("list_issues");
        reveal_strlit("get_issue");
        reveal_strlit("list_org_issues");
        let i = choose|i: int| 0 <= i < branches.len() && branches[i] == name;
        let j = choose|j: int| 0 <= j < issues.len() && issues[j] == name;
        assert(branches[i].len() >= 21);
        assert(issues[j].len() <= 15);
    }
}

/// No category is there twice.
pub proof fn categories_are_distinct(scope: Seq<char>)
    ensures
        categories(scope).no_duplicates(),
{
}

/// A scope of one word has that word and no other: neither a longer word nor a
/// part of it stands for it.
pub proof fn a_single_word_is_all(word: Seq<char>, target: Seq<char>)
    requires
        word.len() > 0,
        forall|i: int| 0 <= i < word.len() ==> !is_white(#[trigger] word[i]),
    ensures
        has_word(word, target) <==> word == target,
{
    assert(word_at(word, 0, word.len() as int));
    assert(word.subrange(0, word.len() as int) =~= word);
    if has_word(word, target) {
        let (i, j) = choose|i: int, j: int| #[trigger]
            word_at(word, i, j) && word.subrange(i, j) == target;
        assert(i == 0) by {
            if i > 0 {
                assert(!is_white(word[i - 1]));
            }
        }
        assert(j == word.len()) by {
            if j < word.len() {
                assert(!is_white(word[j]));
            }
        }
    }
}

/// White space parts words: what stands on its two sides is looked at apart.
pub proof fn white_space_parts_words(
    left: Seq<char>,
    space: char,
    right: Seq<char>,
    target: Seq<char>,
)
    requires
        is_white(space),
    ensures
        has_word(left.push(space) + right, target) <==> has_word(left, target) || has_word(
            right,
            target,
        ),
{
    let whole = left.push(space) + right;
    let n = left.len() as int;
    if has_word(whole, target) {
        let (i, j) = choose|i: int, j: int| #[trigger]
            word_at(whole, i, j) && whole.subrange(i, j) == target;
        assert(whole[n] == space);
        if i <= n {
            assert(i != n);
            assert(j <= n) by {
                if j > n {
                    assert(!is_white(whole[n]));
                }
            }
            assert forall|k: int| i <= k < j implies !is_white(#[trigger] left[k]) by {
                assert(left[k] == whole[k]);
            }
            if i > 0 {
                assert(left[i - 1] == whole[i - 1]);
            }
            if j < n {
                assert(left[j] == whole[j]);
            }
            assert(word_at(left, i, j));
            assert(left.subrange(i, j) =~= whole.subrange(i, j));
        } else {
            let a = i - n - 1;
            let b = j - n - 1;
            assert forall|k: int| a <= k < b implies !is_white(#[trigger] right[k]) by {
                assert(right[k] == whole[k + n + 1]);
            }
            if a > 0 {
                assert(right[a - 1] == whole[i - 1]);
            }
            if b < right.len() {
                assert(right[b] == whole[j]);
            }
            assert(word_at(right, a, b));
            assert(right.subrange(a, b) =~= whole.subrange(i, j));
        }
    }
    if has_word(left, target) {
        let (i, j) = choose|i: int, j: int| #[trigger]
            word_at(left, i, j) && left.subrange(i, j) == target;
        assert forall|k: int| i <= k < j implies !is_white(#[trigger] whole[k]) by {
            assert(left[k] == whole[k]);
        }
        if i > 0 {
            assert(left[i - 1] == whole[i - 1]);
        }
        if j < n {
            assert(left[j] == whole[j]);
        }
        assert(word_at(whole, i, j));
        assert(left.subrange(i, j) =~= whole.subrange(i, j));
    }
    if has_word(right, target) {
        let (a, b) = choose|i: int, j: int| #[trigger]
            word_at(right, i, j) && right.subrange(i, j) == target;
        let i = a + n + 1;
        let j = b + n + 1;
        assert forall|k: int| i <= k < j implies !is_white(#[trigger] whole[k]) by {
            assert(right[k - n - 1] == whole[k]);
        }
        if a > 0 {
            assert(right[a - 1] == whole[i - 1]);
        }
        if b < right.len() {
            assert(right[b] == whole[j]);
        }
        assert(word_at(whole, i, j));
        assert(right.subrange(a, b) =~= whole.subrange(i, j));
    }
}

proof fn lemma_whoami_names()
    ensures
        "github_login"@ != "scope"@,
{
    reveal_strlit("github_login");
    reveal_strlit("scope");
    assert("github_login"@.len() == 12);
    assert("scope"@.len() == 5);
}

proof fn lemma_repo_names()
    ensures
        "full_name"@ != "private"@,
        "full_name"@ != "description"@,
        "full_name"@ != "html_url"@,
        "full_name"@ != "default_branch"@,
        "full_name"@ != "language"@,
        "full_name"@ != "stargazers_count"@,
        "full_name"@ != "pushed_at"@,
        "private"@ != "description"@,
        "private"@ != "html_url"@,
        "private"@ != "default_branch"@,
        "private"@ != "language"@,
        "private"@ != "stargazers_count"@,
        "private"@ != "pushed_at"@,
        "description"@ != "html_url"@,
        "description"@ != "default_branch"@,
        "description"@ != "language"@,
        "description"@ != "stargazers_count"@,
        "description"@ != "pushed_at"@,
        "html_url"@ != "default_branch"@,
        "html_url"@ != "language"@,
        "html_url"@ != "stargazers_count"@,
        "html_url"@ != "pushed_at"@,
        "default_branch"@ != "language"@,
        "default_branch"@ != "stargazers_count"@,
        "default_branch"@ != "pushed_at"@,
        "language"@ != "stargazers_count"@,
        "language"@ != "pushed_at"@,
        "stargazers_count"@ != "pushed_at"@,
{
    reveal_strlit("full_name");
    reveal_strlit("private");
    reveal_strlit("description");
    reveal_strlit("html_url");
    reveal_strlit("default_branch");
    reveal_strlit("language");
    reveal_strlit("stargazers_count");
    reveal_strlit("pushed_at");
    assert("full_name"@.len() == 9);
    assert("private"@.len() == 7);
    assert("description"@.len() == 11);
    assert("html_url"@.len() == 8);
    assert("default_branch"@.len() == 14);
    assert("language"@.len() == 8);
    assert("stargazers_count"@.len() == 16);
    assert("pushed_at"@.len() == 9);
    assert("full_name"@[0] != "pushed_at"@[0]);
    assert("html_url"@[0] != "language"@[0]);
}

proof fn lemma_list_names()
    ensures
        "page"@ != "per_page"@,
        "page"@ != "count"@,
        "page"@ != "repos"@,
        "per_page"@ != "count"@,
        "per_page"@ != "repos"@,
        "count"@ != "repos"@,
{
    reveal_strlit("page");
    reveal_strlit("per_page");
    reveal_strlit("count");
    reveal_strlit("repos");
    assert("page"@.len() == 4);
    assert("per_page"@.len() == 8);
    assert("count"@.len() == 5);
    assert("repos"@.len() == 5);
    assert("count"@[0] != "repos"@[0]);
}


/// The words of a scope decide which tools there are, and nothing else does:
/// `whoami` and `list_repos` in any case, branch protection by `mcp.admin`, and
/// what reads and writes by `mcp.read` or `mcp.write`.
pub proof fn words_of_the_scope_decide(scope: Seq<char>, category: ToolCategory, name: Seq<char>)
    ensures
        categories(scope).contains(category) <==> (match category {
            ToolCategory::Core => true,
            ToolCategory::Branches => has_word(scope, "mcp.admin"@),
            _ => has_word(scope, "mcp.read"@) || has_word(scope, "mcp.write"@),
        }),
        tools_for(scope).contains(name) <==> name == "whoami"@ || name == "list_repos"@ || (has_word(
            scope,
            "mcp.admin"@,
        ) && (name == "set_branch_protection"@ || name == "get_branch_protection"@ || name
            == "delete_branch_protection"@)) || ((has_word(scope, "mcp.read"@) || has_word(
            scope,
            "mcp.write"@,
        )) && (name == "list_issues"@ || name == "get_issue"@ || name == "list_org_issues"@)),
{
    core_is_always_there(scope);
    branches_are_for_admins(scope);
    if category != ToolCategory::Core && category != ToolCategory::Branches {
        read_write_needs_its_scope(scope, category);
    }
    tools_follow_the_scope(scope, name);
    let core = tools_of(ToolCategory::Core);
    let branches = tools_of(ToolCategory::Branches);
    let issues = tools_of(ToolCategory::Issues);
    assert(core[0] == "whoami"@ && core[1] == "list_repos"@);
    assert(branches[0] == "set_branch_protection"@ && branches[1] == "get_branch_protection"@
        && branches[2] == "delete_branch_protection"@);
    assert(issues[0] == "list_issues"@ && issues[1] == "get_issue"@ && issues[2]
        == "list_org_issues"@);
}

/// Scopes with the same words of these three have the same tools, in the same
/// order.
pub proof fn other_words_make_no_difference(a: Seq<char>, b: Seq<char>)
    requires
        has_word(a, "mcp.admin"@) == has_word(b, "mcp.admin"@),
        (has_word(a, "mcp.read"@) || has_word(a, "mcp.write"@)) == (has_word(b, "mcp.read"@)
            || has_word(b, "mcp.write"@)),
    ensures
        categories(a) == categories(b),
        tools_for(a) == tools_for(b),
{
}

/// An empty scope has no word, so that it gives the core alone.
pub proof fn empty_scopes_have_core_alone()
    ensures
        categories(Seq::empty()) == seq![ToolCategory::Core],
{
    nothing_has_no_words("mcp.admin"@);
    nothing_has_no_words("mcp.read"@);
    nothing_has_no_words("mcp.write"@);
    unknown_scopes_have_core_alone(Seq::empty());
}

/// The tools are listed category by category, each once and in order.
pub proof fn tools_are_listed_by_category(earlier: Seq<ToolCategory>, category: ToolCategory)
    ensures
        tools_of_all(Seq::empty()) == Seq::<Seq<char>>::empty(),
        tools_of_all(earlier.push(category)) == tools_of_all(earlier) + tools_of(category),
{
    assert(earlier.push(category).drop_last() =~= earlier);
}

/// `whoami` tells the login and the scope of the session, as they are, and nothing
/// else.
pub proof fn whoami_tells_login_and_scope_alone(login: Seq<char>, scope: Seq<char>)
    ensures
        whoami_told(login, scope) is Object,
        whoami_told(login, scope)->Object_0.dom() == set!["github_login"@, "scope"@],
        whoami_told(login, scope).get("github_login"@) == Some(JsonView::Str(login)),
        whoami_told(login, scope).get("scope"@) == Some(JsonView::Str(scope)),
{
    lemma_whoami_names();
    assert(whoami_told(login, scope)->Object_0.dom() =~= set!["github_login"@, "scope"@]);
}

/// A repository is told by these eight fields of its own and no other.
pub proof fn repositories_are_told_by_their_fields(repo: JsonView)
    ensures
        repo_told(repo) is Object,
        repo_told(repo)->Object_0.dom() == set!["full_name"@, "private"@, "description"@, "html_url"@, "default_branch"@, "language"@, "stargazers_count"@, "pushed_at"@],
        repo_told(repo).get("full_name"@) == Some(repo.get_or_null("full_name"@)),
        repo_told(repo).get("private"@) == Some(repo.get_or_null("private"@)),
        repo_told(repo).get("description"@) == Some(repo.get_or_null("description"@)),
        repo_told(repo).get("html_url"@) == Some(repo.get_or_null("html_url"@)),
        repo_told(repo).get("default_branch"@) == Some(repo.get_or_null("default_branch"@)),
        repo_told(repo).get("language"@) == Some(repo.get_or_null("language"@)),
        repo_told(repo).get("stargazers_count"@) == Some(repo.get_or_null("stargazers_count"@)),
        repo_told(repo).get("pushed_at"@) == Some(repo.get_or_null("pushed_at"@)),
{
    lemma_repo_names();
    assert(repo_told(repo)->Object_0.dom() =~= set!["full_name"@, "private"@, "description"@, "html_url"@, "default_branch"@, "language"@, "stargazers_count"@, "pushed_at"@]);
}

/// Every repository that GitHub lists is told, in its place; of an answer that is
/// no list none is.
pub proof fn repositories_are_all_told(repos: JsonView, items: Seq<JsonView>)
    ensures
        !(repos is Array) ==> repos_told(repos).len() == 0,
        repos_told(JsonView::Array(items)).len() == items.len(),
        forall|i: int|
            0 <= i < items.len() ==> #[trigger] repos_told(JsonView::Array(items))[i] == repo_told(
                items[i],
            ),
{
}

/// The list is told with the page and the page size that were asked of GitHub, the
/// number of repositories and the repositories, and nothing else.
pub proof fn repository_lists_tell_their_page(args: ListReposArgs, repos: JsonView)
    ensures
        list_repos_told(args, repos) is Object,
        list_repos_told(args, repos)->Object_0.dom() == set!["page"@, "per_page"@, "count"@, "repos"@],
        list_repos_told(args, repos).get("repos"@) == Some(JsonView::Array(repos_told(repos))),
        list_repos_told(args, repos).get("count"@) == Some(
            JsonView::Int(repos_told(repos).len() as int),
        ),
        list_repos_told(args, repos).get("page"@) == Some(
            JsonView::Int(numeral_value(list_repos_call(args).query[2].1)),
        ),
        list_repos_told(args, repos).get("per_page"@) == Some(
            JsonView::Int(numeral_value(list_repos_call(args).query[1].1)),
        ),
{
    lemma_list_names();
    assert(list_repos_told(args, repos)->Object_0.dom() =~= set!["page"@, "per_page"@, "count"@, "repos"@]);
    numbers_read_back(repos_page(args) as nat);
    numbers_read_back(repos_per_page(args) as nat);
}

/// The repositories are asked for with the visibility, the page size and the page
/// that the arguments name: by default all of them, thirty to a page, and the first
/// page. No page has more than a hundred.
pub proof fn repositories_are_asked_for_as_named(args: ListReposArgs)
    ensures
        list_repos_call(args).method == Method::Get,
        list_repos_call(args).path == "/user/repos"@,
        list_repos_call(args).body is None,
        list_repos_call(args).query.len() == 3,
        list_repos_call(args).query[0] == (
            "visibility"@,
            if args.visibility is Some {
                args.visibility->0@
            } else {
                "all"@
            },
        ),
        list_repos_call(args).query[1].0 == "per_page"@,
        numeral_value(list_repos_call(args).query[1].1) == (match args.per_page {
            Some(n) => if n > 100 {
                100
            } else {
                n as int
            },
            None => 30,
        }),
        list_repos_call(args).query[2].0 == "page"@,
        numeral_value(list_repos_call(args).query[2].1) == (match args.page {
            Some(n) => n as int,
            None => 1,
        }),
{
    numbers_read_back(repos_page(args) as nat);
    numbers_read_back(repos_per_page(args) as nat);
}

/// A list of names is told name by name.
pub proof fn names_are_what_they_say(names: Seq<&'static str>)
    ensures
        names_view(names).len() == names.len(),
        forall|i: int| 0 <= i < names.len() ==> #[trigger] names_view(names)[i] == names[i]@,
{
}

/// The core comes first, branch protection next, and what reads and writes last, each
/// category in its place.
pub proof fn categories_stand_in_order(scope: Seq<char>)
    requires
        has_word(scope, "mcp.read"@) || has_word(scope, "mcp.write"@),
    ensures
        ({
            let list = categories(scope);
            let n = if has_word(scope, "mcp.admin"@) {
                2int
            } else {
                1int
            };
            &&& list.len() == n + 8
            &&& list[0] == ToolCategory::Core
            &&& n == 2 ==> list[1] == ToolCategory::Branches
            &&& list[n] == ToolCategory::Actions
            &&& list[n + 1] == ToolCategory::Commits
            &&& list[n + 2] == ToolCategory::Issues
            &&& list[n + 3] == ToolCategory::Logs
            &&& list[n + 4] == ToolCategory::Projects
            &&& list[n + 5] == ToolCategory::Pulls
            &&& list[n + 6] == ToolCategory::Releases
            &&& list[n + 7] == ToolCategory::Repository
        }),
{
}

} // verus!
