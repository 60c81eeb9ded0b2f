use github_mcp_server_rs::api::ErrorData;
use github_mcp_server_rs::json::Json;
use github_mcp_server_rs::mcp_server::{
    list_repos_answer, list_repos_request, list_repos_result, list_repos_text, scope_has, server_instructions,
    GithubContext, GithubMcp, ListReposArgs, ToolCategory,
};

fn build_mcp(scope: &str) -> GithubMcp {
    GithubMcp::new(GithubContext {
        github_token: "x".to_string(),
        github_login: "x".to_string(),
        scope: scope.to_string(),
    })
}

fn tool_names(mcp: &GithubMcp) -> Vec<String> {
    let mut names: Vec<String> = mcp.tool_names().into_iter().map(|n| n.to_string()).collect();
    names.sort();
    names
}

/// The categories that a scope which reads or writes has besides the core.
fn read_write_categories() -> Vec<ToolCategory> {
    vec![
        ToolCategory::Actions,
        ToolCategory::Commits,
        ToolCategory::Issues,
        ToolCategory::Logs,
        ToolCategory::Projects,
        ToolCategory::Pulls,
        ToolCategory::Releases,
        ToolCategory::Repository,
    ]
}

#[test]
fn dump_registered_tool_names_for_read_write_scope() {
    let mcp = build_mcp("mcp.read mcp.write");
    let names = tool_names(&mcp);
    println!(
        "TOOL_DUMP (mcp.read mcp.write) count={} names={:?}",
        names.len(),
        names
    );
    assert!(names.contains(&"whoami".to_string()), "whoami missing");
    assert!(
        names.contains(&"list_repos".to_string()),
        "list_repos missing"
    );
    assert!(
        !names.iter().any(|n| n == "set_branch_protection"),
        "set_branch_protection leaked into mcp.read mcp.write scope"
    );
    assert!(
        !names.iter().any(|n| n == "get_branch_protection"),
        "get_branch_protection leaked into mcp.read mcp.write scope"
    );
    assert!(
        !names.iter().any(|n| n == "delete_branch_protection"),
        "delete_branch_protection leaked into mcp.read mcp.write scope"
    );
    // The core and all eight categories.
    assert_eq!(mcp.routers.len(), 9);
    assert_eq!(mcp.routers[0], ToolCategory::Core);
    assert_eq!(mcp.routers[1..], read_write_categories()[..]);
}

#[test]
fn read_only_scope_exposes_read_write_routers() {
    let mcp = build_mcp("mcp.read");
    let names = tool_names(&mcp);
    assert!(names.iter().any(|n| n == "whoami"));
    // branch protection does not show
    assert!(!names.iter().any(|n| n == "set_branch_protection"));
    // the categories that read and write do, all of them
    assert_eq!(mcp.routers.len(), 9);
    assert_eq!(mcp.routers[1..], read_write_categories()[..]);
    assert!(names.iter().any(|n| n == "list_issues"));
}

#[test]
fn joined_scopes_have_the_tools_of_both() {
    let both = tool_names(&build_mcp("mcp.admin\tx mcp.write"));
    let mut union = tool_names(&build_mcp("mcp.admin"));
    union.extend(tool_names(&build_mcp("x mcp.write")));
    union.sort();
    union.dedup();
    assert_eq!(both, union);
    let shared: Vec<String> = tool_names(&build_mcp("mcp.admin"))
        .into_iter()
        .filter(|n| tool_names(&build_mcp("mcp.read")).contains(n))
        .collect();
    assert_eq!(shared, vec!["list_repos", "whoami"]);
}

#[test]
fn admin_only_scope_exposes_branch_protection_no_other_categories() {
    let mcp = build_mcp("mcp.admin");
    let names = tool_names(&mcp);
    assert!(names.iter().any(|n| n == "whoami"), "whoami missing");
    assert!(
        names.iter().any(|n| n == "list_repos"),
        "list_repos missing"
    );
    assert!(
        names.iter().any(|n| n == "set_branch_protection"),
        "set_branch_protection missing for mcp.admin"
    );
    assert!(
        names.iter().any(|n| n == "get_branch_protection"),
        "get_branch_protection missing for mcp.admin"
    );
    assert!(
        names.iter().any(|n| n == "delete_branch_protection"),
        "delete_branch_protection missing for mcp.admin"
    );
    assert_eq!(
        names.len(),
        5,
        "expected exactly 5 tools (2 core + 3 branches) for mcp.admin, got {}: {:?}",
        names.len(),
        names
    );
}

#[test]
fn admin_and_write_combined_scope_exposes_union() {
    let mcp = build_mcp("mcp.read mcp.write mcp.admin");
    let names = tool_names(&mcp);
    assert!(
        names.iter().any(|n| n == "set_branch_protection"),
        "admin tools missing from union"
    );
    assert!(names.iter().any(|n| n == "whoami"), "core missing");
    let admin_only = tool_names(&build_mcp("mcp.admin")).len();
    let rw_only = tool_names(&build_mcp("mcp.read mcp.write")).len();
    assert_eq!(names.len(), admin_only + rw_only - 2);
}

#[test]
fn empty_scope_exposes_core_only() {
    let mcp = build_mcp("");
    let names = tool_names(&mcp);
    assert_eq!(
        names,
        vec!["list_repos".to_string(), "whoami".to_string()],
        "empty scope should expose only core tools"
    );
}

#[test]
fn unknown_scope_exposes_core_only() {
    let mcp = build_mcp("x garbage");
    let names = tool_names(&mcp);
    assert_eq!(names.len(), 2);
    assert!(names.iter().any(|n| n == "whoami"));
    assert!(names.iter().any(|n| n == "list_repos"));
}

#[test]
fn scope_has_exact_token_match() {
    assert!(scope_has("mcp.read mcp.write", "mcp.read"));
    assert!(scope_has("mcp.read mcp.write", "mcp.write"));
    assert!(scope_has("mcp.admin", "mcp.admin"));
    assert!(scope_has("  mcp.admin  ", "mcp.admin")); // leading/trailing white space
    assert!(scope_has("a b mcp.admin c", "mcp.admin"));
}

#[test]
fn scope_has_rejects_substring_match() {
    assert!(!scope_has("mcp.admin-x", "mcp.admin"));
    assert!(!scope_has("xmcp.admin", "mcp.admin"));
    assert!(!scope_has("mcp.admins", "mcp.admin"));
    assert!(!scope_has("", "mcp.admin"));
    assert!(!scope_has("mcp.read", "mcp.admin"));
}

#[test]
fn scope_words_stand_between_any_white_space() {
    for space in ["\t", "\n", "\r\n", "\u{a0}", "\u{2003}", "\u{3000}", "\u{85}"] {
        let scope = format!("a{space}mcp.admin{space}b");
        assert_eq!(
            scope_has(&scope, "mcp.admin"),
            scope.split_whitespace().any(|word| word == "mcp.admin")
        );
        assert!(scope_has(&scope, "mcp.admin"));
    }
    // A zero-width space is no white space.
    assert!(!scope_has("a\u{200b}mcp.admin", "mcp.admin"));
    // No word is empty.
    assert!(!scope_has("a  b", ""));
    assert!(!scope_has("", ""));
    // A target that holds white space is no word.
    assert!(!scope_has("a b", "a b"));
}

#[test]
fn read_write_scopes_have_all_their_categories() {
    let mut all = vec![ToolCategory::Core];
    all.extend(read_write_categories());
    for scope in ["mcp.read mcp.write", "mcp.read", "mcp.write"] {
        let mcp = build_mcp(scope);
        assert_eq!(mcp.routers, all);
        let names = tool_names(&mcp);
        assert!(names.contains(&"whoami".to_string()));
        assert!(names.contains(&"list_repos".to_string()));
        assert!(names.contains(&"list_org_issues".to_string()));
        assert!(!names.iter().any(|n| n.ends_with("branch_protection")));
    }
}

#[test]
fn tools_stand_in_the_order_of_their_categories() {
    assert_eq!(
        build_mcp("mcp.write mcp.admin").tool_names(),
        vec![
            "whoami",
            "list_repos",
            "set_branch_protection",
            "get_branch_protection",
            "delete_branch_protection",
            "list_issues",
            "get_issue",
            "list_org_issues",
        ]
    );
}

#[test]
fn whoami_tells_login_and_scope() {
    let mcp = GithubMcp::new(GithubContext {
        github_token: "secret".to_string(),
        github_login: "yhonda-ohishi".to_string(),
        scope: "mcp.read mcp.write".to_string(),
    });
    assert_eq!(
        mcp.whoami(),
        r#"{"github_login":"yhonda-ohishi","scope":"mcp.read mcp.write"}"#
    );
    assert_eq!(mcp.ctx().github_token, "secret");
    assert_eq!(mcp.whoami_result().get_str("scope"), Some("mcp.read mcp.write"));
}

fn args(visibility: Option<&str>, per_page: Option<u32>, page: Option<u32>) -> ListReposArgs {
    ListReposArgs {
        visibility: visibility.map(|v| v.to_string()),
        per_page,
        page,
    }
}

fn query(args: &ListReposArgs) -> Vec<(String, String)> {
    list_repos_request(args).query
}

fn pairs(list: &[(&str, &str)]) -> Vec<(String, String)> {
    list.iter().map(|(a, b)| (a.to_string(), b.to_string())).collect()
}

#[test]
fn repos_are_asked_for_by_page() {
    assert_eq!(list_repos_request(&args(None, None, None)).path, "/user/repos");
    assert_eq!(
        query(&args(None, None, None)),
        pairs(&[("visibility", "all"), ("per_page", "30"), ("page", "1")])
    );
    assert_eq!(
        query(&args(Some("private"), Some(1000), Some(7))),
        pairs(&[("visibility", "private"), ("per_page", "100"), ("page", "7")])
    );
    assert_eq!(
        query(&args(Some(""), Some(0), Some(0))),
        pairs(&[("visibility", ""), ("per_page", "0"), ("page", "0")])
    );
}

#[test]
fn repos_are_told_by_their_main_fields() {
    let repos = Json::parse(
        r#"[{"full_name":"a/b","private":true,"description":null,"html_url":"u","default_branch":"main",
            "language":"Rust","stargazers_count":3,"pushed_at":"t","other":1},{"full_name":"c/d"},5]"#,
    )
    .unwrap();
    assert_eq!(
        list_repos_text(&args(None, Some(200), None), &repos),
        concat_lines(&[
            r#"{"count":3,"page":1,"per_page":100,"repos":["#,
            r#"{"default_branch":"main","description":null,"full_name":"a/b","html_url":"u","language":"Rust","private":true,"pushed_at":"t","stargazers_count":3},"#,
            r#"{"default_branch":null,"description":null,"full_name":"c/d","html_url":null,"language":null,"private":null,"pushed_at":null,"stargazers_count":null},"#,
            r#"{"default_branch":null,"description":null,"full_name":null,"html_url":null,"language":null,"private":null,"pushed_at":null,"stargazers_count":null}"#,
            r#"]}"#,
        ])
    );
}

fn concat_lines(lines: &[&str]) -> String {
    lines.concat()
}

#[test]
fn failed_repo_lists_are_handed_on() {
    let args = args(None, None, None);
    let error = list_repos_answer(&args, Err(ErrorData::internal_error("down"))).unwrap_err();
    assert_eq!((error.code, error.message.as_str()), (-32603, "down"));
    assert_eq!(
        list_repos_answer(&args, Ok(Json::Null)).unwrap(),
        r#"{"count":0,"page":1,"per_page":30,"repos":[]}"#
    );
}

#[test]
fn an_answer_that_is_no_list_has_no_repos() {
    let answer = Json::parse(r#"{"message":"Bad credentials"}"#).unwrap();
    let told = list_repos_result(&args(None, None, Some(2)), &answer);
    assert_eq!(told.get("count").and_then(|n| n.as_i64()), Some(0));
    assert_eq!(told.get("page").and_then(|n| n.as_i64()), Some(2));
    assert_eq!(told.get("repos").and_then(|r| r.as_array()).map(|r| r.len()), Some(0));
}

#[test]
fn instructions_name_the_scopes() {
    assert!(server_instructions().contains("`mcp.read|write` exposes ci-dashboard-derived read/write tools (workflow runs"));
    assert!(server_instructions().contains("`mcp.admin` exposes branch protection tools (set/get/delete_branch_protection) instead. whoami"));
    assert!(server_instructions().ends_with("via /mcp/introspect at server startup."));
}
