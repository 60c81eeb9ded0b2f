use github_mcp_server_rs::api::{ApiRequest, ErrorData, Method, RepoRef};
use github_mcp_server_rs::json::Json;
use github_mcp_server_rs::tools::issues::{
    get_issue_answer, get_issue_requests, get_issue_result, get_issue_text, issue_summary,
    list_issues_answer, list_issues_request, list_issues_result, list_issues_text,
    list_org_issues_answer, list_org_issues_request, list_org_issues_result, list_org_issues_text,
    org_issues_search, GetIssueArgs, ListIssuesArgs, ListOrgIssuesArgs,
};

fn parse(text: &str) -> Json {
    Json::parse(text).unwrap()
}

fn items(text: &str) -> Vec<Json> {
    match parse(text) {
        Json::Array(items) => items,
        other => panic!("{other:?}"),
    }
}

fn repo() -> RepoRef {
    RepoRef {
        owner: "ippoan".to_string(),
        repo: "rust-alc-api".to_string(),
    }
}

fn refusal() -> ErrorData {
    ErrorData::invalid_params("owner not allowed")
}

fn pairs(request: &ApiRequest) -> Vec<(&str, &str)> {
    request
        .query
        .iter()
        .map(|(a, b)| (a.as_str(), b.as_str()))
        .collect()
}

fn list_args(state: Option<&str>, labels: Option<&str>, per_page: Option<u32>) -> ListIssuesArgs {
    ListIssuesArgs {
        repo: "rust-alc-api".to_string(),
        state: state.map(|s| s.to_string()),
        labels: labels.map(|s| s.to_string()),
        per_page,
    }
}

#[test]
fn issues_are_asked_for() {
    let request = list_issues_request(&list_args(None, None, None), Ok(repo())).unwrap();
    assert_eq!(request.method, Method::Get);
    assert_eq!(request.path, "/repos/ippoan/rust-alc-api/issues");
    assert_eq!(pairs(&request), vec![("state", "open"), ("per_page", "20")]);
    assert!(request.body.is_none());

    let request = list_issues_request(
        &list_args(Some("all"), Some("bug,enhancement"), Some(1000)),
        Ok(repo()),
    )
    .unwrap();
    assert_eq!(
        pairs(&request),
        vec![("state", "all"), ("per_page", "100"), ("labels", "bug,enhancement")]
    );
    let request = list_issues_request(&list_args(None, None, Some(0)), Ok(repo())).unwrap();
    assert_eq!(pairs(&request)[1], ("per_page", "1"));
}

#[test]
fn refused_repositories_are_not_asked_about() {
    let error = list_issues_request(&list_args(None, None, None), Err(refusal())).unwrap_err();
    assert_eq!(error.message, "owner not allowed");
    assert_eq!(error.code, -32602);
    let args = GetIssueArgs {
        repo: "x".to_string(),
        issue_number: 1,
    };
    assert_eq!(
        get_issue_requests(&args, Err(refusal())).unwrap_err().message,
        "owner not allowed"
    );
}

#[test]
fn summaries_name_the_main_fields() {
    let issue = parse(
        r#"{"number":3,"title":"t","state":"open","user":{"login":"me","id":1},
            "labels":[{"name":"bug"},{"name":7},{"color":"x"},{"name":"ui"}],
            "created_at":"c","updated_at":"u","comments":2,"html_url":"h","body":"b"}"#,
    );
    assert_eq!(
        issue_summary(&issue).to_compact(),
        r#"{"author":"me","comments":2,"created_at":"c","labels":["bug","ui"],"number":3,"state":"open","title":"t","updated_at":"u","url":"h"}"#
    );
    assert_eq!(
        issue_summary(&Json::Null).to_compact(),
        r#"{"author":null,"comments":null,"created_at":null,"labels":[],"number":null,"state":null,"title":null,"updated_at":null,"url":null}"#
    );
}

#[test]
fn lists_leave_pull_requests_out() {
    let issues = items(
        r#"[{"number":1},{"number":2,"pull_request":{}},{"number":3,"pull_request":null},{"number":4}]"#,
    );
    let told = list_issues_result(&issues);
    let numbers: Vec<i64> = told
        .as_array()
        .unwrap()
        .iter()
        .map(|i| i.get("number").unwrap().as_i64().unwrap())
        .collect();
    assert_eq!(numbers, vec![1, 4]);
}

#[test]
fn lists_are_printed_with_indentation() {
    assert_eq!(list_issues_text(&items("[]")), "[]");
    let text = list_issues_text(&items(r#"[{"number":1,"pull_request":1},{"number":2}]"#));
    assert!(text.starts_with("[\n  {\n    \"author\": null,\n    \"comments\": null,"));
    assert!(text.contains("\n    \"labels\": [],\n    \"number\": 2,\n"));
    assert!(text.ends_with("\n    \"url\": null\n  }\n]"));
}

#[test]
fn one_issue_takes_two_requests() {
    let args = GetIssueArgs {
        repo: "rust-alc-api".to_string(),
        issue_number: u64::MAX,
    };
    let (issue, comments) = get_issue_requests(&args, Ok(repo())).unwrap();
    assert_eq!(
        issue.path,
        "/repos/ippoan/rust-alc-api/issues/18446744073709551615"
    );
    assert_eq!(
        comments.path,
        "/repos/ippoan/rust-alc-api/issues/18446744073709551615/comments"
    );
    assert!(issue.query.is_empty() && comments.query.is_empty());
    assert_eq!(issue.method, Method::Get);
    assert_eq!(comments.method, Method::Get);
}

#[test]
fn one_issue_is_told_with_its_comments() {
    let issue = parse(r#"{"number":3,"title":"t","body":"b","user":{"login":"me"},"html_url":"h"}"#);
    let comments = items(
        r#"[{"user":{"login":"a"},"created_at":"c1","body":"b1","id":4},{"user":null,"body":null}]"#,
    );
    assert_eq!(
        get_issue_result(&issue, &comments).to_compact(),
        r#"{"author":"me","body":"b","comments":[{"author":"a","body":"b1","created_at":"c1"},{"author":null,"body":null,"created_at":null}],"created_at":null,"labels":[],"number":3,"state":null,"title":"t","updated_at":null,"url":"h"}"#
    );
    assert!(get_issue_text(&issue, &comments).starts_with("{\n  \"author\": \"me\","));
}

#[test]
fn failed_requests_are_handed_on() {
    let failed = |cause: &str| ErrorData::internal_error(cause);
    let error = get_issue_answer(Err(failed("issue")), Err(failed("comments"))).unwrap_err();
    assert_eq!((error.code, error.message.as_str()), (-32603, "issue"));
    let error = get_issue_answer(Err(failed("issue")), Ok(vec![])).unwrap_err();
    assert_eq!(error.message, "issue");
    let error = get_issue_answer(Ok(Json::Null), Err(failed("comments"))).unwrap_err();
    assert_eq!(error.message, "comments");
    let issue = parse(r#"{"number":3}"#);
    assert_eq!(
        get_issue_answer(Ok(issue.duplicate()), Ok(vec![])).unwrap(),
        get_issue_text(&issue, &vec![])
    );
    assert_eq!(list_issues_answer(Err(failed("x"))).unwrap_err().message, "x");
    assert_eq!(list_issues_answer(Ok(vec![])).unwrap(), "[]");
    assert_eq!(list_org_issues_answer(Err(failed("y"))).unwrap_err().message, "y");
    assert_eq!(
        list_org_issues_answer(Ok(Json::Null)).unwrap(),
        list_org_issues_text(&Json::Null)
    );
}

fn org_args(orgs: &[&str]) -> ListOrgIssuesArgs {
    ListOrgIssuesArgs {
        orgs: orgs.iter().map(|s| s.to_string()).collect(),
        state: None,
        labels: None,
        assignee: None,
        query: None,
        per_page: None,
    }
}

#[test]
fn searches_are_put_together_in_order() {
    assert_eq!(
        org_issues_search(&org_args(&["ippoan", "ohishi-exp"])),
        "is:issue state:open org:ippoan org:ohishi-exp"
    );
    let mut args = org_args(&["ippoan"]);
    args.state = Some("closed".to_string());
    args.labels = Some(vec!["bug".to_string(), "good first".to_string()]);
    args.assignee = Some("@me".to_string());
    args.query = Some("crash in:title".to_string());
    assert_eq!(
        org_issues_search(&args),
        "is:issue state:closed org:ippoan label:\"bug\" label:\"good first\" assignee:@me crash in:title"
    );
    args.state = Some("all".to_string());
    args.labels = Some(vec![]);
    assert_eq!(
        org_issues_search(&args),
        "is:issue org:ippoan assignee:@me crash in:title"
    );
    args.query = Some(String::new());
    assert_eq!(org_issues_search(&args), "is:issue org:ippoan assignee:@me ");
}

#[test]
fn an_own_repository_drops_the_organisations() {
    let mut args = org_args(&["ippoan"]);
    args.query = Some("x\trepo:ippoan/a y".to_string());
    assert_eq!(
        org_issues_search(&args),
        "is:issue state:open x\trepo:ippoan/a y"
    );
    // Inside a word it does not count.
    args.query = Some("-repo:ippoan/a xrepo:b".to_string());
    assert_eq!(
        org_issues_search(&args),
        "is:issue state:open org:ippoan -repo:ippoan/a xrepo:b"
    );
    args.query = Some("repo:".to_string());
    assert_eq!(org_issues_search(&args), "is:issue state:open repo:");
}

#[test]
fn searches_need_organisations_that_are_allowed() {
    let error = list_org_issues_request(&org_args(&[]), vec![]).unwrap_err();
    assert_eq!(error.code, -32602);
    assert_eq!(error.message, "orgs must be a non-empty array");

    let verdicts = vec![
        Ok(()),
        Err(ErrorData::invalid_params("second")),
        Err(ErrorData::invalid_params("third")),
    ];
    let error = list_org_issues_request(&org_args(&["a", "b", "c"]), verdicts).unwrap_err();
    assert_eq!(error.message, "second");

    // A refusal stands even where the search would not name the organisation.
    let mut args = org_args(&["a"]);
    args.query = Some("repo:a/b".to_string());
    let error = list_org_issues_request(&args, vec![Err(refusal())]).unwrap_err();
    assert_eq!(error.message, "owner not allowed");
}

#[test]
fn searches_are_asked_for() {
    let mut args = org_args(&["ippoan"]);
    let request = list_org_issues_request(&args, vec![Ok(())]).unwrap();
    assert_eq!(request.method, Method::Get);
    assert_eq!(request.path, "/search/issues");
    assert_eq!(
        pairs(&request),
        vec![("q", "is:issue state:open org:ippoan"), ("per_page", "30")]
    );
    args.per_page = Some(101);
    let request = list_org_issues_request(&args, vec![Ok(())]).unwrap();
    assert_eq!(pairs(&request)[1], ("per_page", "100"));
}

#[test]
fn found_issues_are_told() {
    let data = parse(
        r#"{"total_count":2,"incomplete_results":false,"items":[
            {"repository_url":"https://api.github.com/repos/ippoan/a","number":1,"title":"t","state":"open",
             "user":{"login":"me"},"labels":[{"name":"bug"}],"assignees":[{"login":"x"},{"login":"y"}],
             "comments":0,"created_at":"c","updated_at":"u","html_url":"h"},
            {"number":2,"pull_request":{}},
            {"repository_url":"nowhere","user":{"login":5}}]}"#,
    );
    assert_eq!(
        list_org_issues_result(&data).to_compact(),
        [
            r#"{"incomplete":false,"items":["#,
            r#"{"assignees":["x","y"],"author":"me","comments":0,"created_at":"c","labels":["bug"],"number":1,"repo":"ippoan/a","state":"open","title":"t","updated_at":"u","url":"h"},"#,
            r#"{"assignees":[],"author":"","comments":null,"created_at":null,"labels":[],"number":null,"repo":"","state":null,"title":null,"updated_at":null,"url":null}"#,
            r#"],"total_count":2}"#,
        ]
        .concat()
    );
}

#[test]
fn a_search_without_items_finds_nothing() {
    assert_eq!(
        list_org_issues_text(&parse(r#"{"items":7}"#)),
        "{\n  \"incomplete\": null,\n  \"items\": [],\n  \"total_count\": null\n}"
    );
    assert_eq!(
        list_org_issues_result(&parse("[]")).to_compact(),
        r#"{"incomplete":null,"items":[],"total_count":null}"#
    );
}

#[test]
fn repositories_are_the_last_two_parts() {
    let repo_of = |url: &str| {
        let data = Json::Object(vec![(
            "items".to_string(),
            Json::Array(vec![Json::Object(vec![(
                "repository_url".to_string(),
                Json::Str(url.to_string()),
            )])]),
        )]);
        let told = list_org_issues_result(&data);
        told.get("items").unwrap().as_array().unwrap()[0]
            .get_str("repo")
            .unwrap()
            .to_string()
    };
    assert_eq!(repo_of("a/b"), "a/b");
    assert_eq!(repo_of("x/a/b"), "a/b");
    assert_eq!(repo_of("/"), "/");
    assert_eq!(repo_of("a/"), "a/");
    assert_eq!(repo_of("a/b/"), "b/");
    assert_eq!(repo_of(""), "");
    assert_eq!(repo_of("ab"), "");
}
