use github_mcp_server_rs::api::{ErrorData, Method, RepoRef};
use github_mcp_server_rs::json::Json;
use github_mcp_server_rs::tools::branches::{
    branch_protection_payload, default_true, delete_branch_protection_answer,
    delete_branch_protection_request, delete_branch_protection_text, get_branch_protection_answer,
    get_branch_protection_request, get_branch_protection_text, set_branch_protection_answer,
    set_branch_protection_request, set_branch_protection_text, DeleteBranchProtectionArgs,
    GetBranchProtectionArgs, SetBranchProtectionArgs,
};

fn args() -> SetBranchProtectionArgs {
    SetBranchProtectionArgs {
        repo: "ippoan/cc-relay".to_string(),
        branch: "main".to_string(),
        required_checks: None,
        strict_required_checks: default_true(),
        enforce_admins: false,
        required_conversation_resolution: default_true(),
        allow_force_pushes: false,
        allow_deletions: false,
        required_linear_history: false,
        required_approving_review_count: None,
        dismiss_stale_reviews: false,
    }
}

fn repo() -> RepoRef {
    RepoRef {
        owner: "ippoan".to_string(),
        repo: "cc-relay".to_string(),
    }
}

fn checks(names: &[&str]) -> Option<Vec<String>> {
    Some(names.iter().map(|s| s.to_string()).collect())
}

#[test]
fn plain_rules_leave_the_blocks_null() {
    assert_eq!(
        branch_protection_payload(&args()).to_compact(),
        r#"{"allow_deletions":false,"allow_force_pushes":false,"enforce_admins":false,"required_conversation_resolution":true,"required_linear_history":false,"required_pull_request_reviews":null,"required_status_checks":null,"restrictions":null}"#
    );
}

#[test]
fn full_rules_hold_both_blocks() {
    let mut args = args();
    args.required_checks = checks(&[" build ", "", "\t", "test\n", "lint x"]);
    args.strict_required_checks = false;
    args.enforce_admins = true;
    args.required_conversation_resolution = false;
    args.allow_force_pushes = true;
    args.allow_deletions = true;
    args.required_linear_history = true;
    args.required_approving_review_count = Some(2);
    args.dismiss_stale_reviews = true;
    assert_eq!(
        branch_protection_payload(&args).to_compact(),
        r#"{"allow_deletions":true,"allow_force_pushes":true,"enforce_admins":true,"required_conversation_resolution":false,"required_linear_history":true,"required_pull_request_reviews":{"dismiss_stale_reviews":true,"required_approving_review_count":2},"required_status_checks":{"contexts":["build","test","lint x"],"strict":false},"restrictions":null}"#
    );
}

#[test]
fn blank_checks_count_as_none() {
    let mut args = args();
    for list in [checks(&[]), checks(&["", "  ", "\u{3000}"])] {
        args.required_checks = list;
        let rules = branch_protection_payload(&args);
        assert!(matches!(rules.get("required_status_checks"), Some(Json::Null)));
    }
}

#[test]
fn no_reviews_no_review_rules() {
    let mut args = args();
    args.required_approving_review_count = Some(0);
    args.dismiss_stale_reviews = true;
    let rules = branch_protection_payload(&args);
    assert!(matches!(rules.get("required_pull_request_reviews"), Some(Json::Null)));
}

#[test]
fn protection_is_set_read_and_removed_at_one_place() {
    let place = "/repos/ippoan/cc-relay/branches/main/protection";
    let set = set_branch_protection_request(&args(), Ok(repo())).unwrap();
    assert_eq!(set.request.method, Method::Put);
    assert_eq!(set.request.path, place);
    assert!(set.request.query.is_empty());
    assert_eq!(
        set.request.body.unwrap().to_compact(),
        branch_protection_payload(&args()).to_compact()
    );
    assert_eq!(set.repo.owner, "ippoan");

    let get = get_branch_protection_request(
        &GetBranchProtectionArgs {
            repo: "cc-relay".to_string(),
            branch: "main".to_string(),
        },
        Ok(repo()),
    )
    .unwrap();
    assert_eq!(get.request.method, Method::Get);
    assert_eq!(get.request.path, place);
    assert!(get.request.body.is_none());

    let delete = delete_branch_protection_request(
        &DeleteBranchProtectionArgs {
            repo: "cc-relay".to_string(),
            branch: "main".to_string(),
        },
        Ok(repo()),
    )
    .unwrap();
    assert_eq!(delete.request.method, Method::Delete);
    assert_eq!(delete.request.path, place);
    assert!(delete.request.body.is_none());
}

#[test]
fn refused_repositories_keep_their_branches() {
    let refusal = || Err(ErrorData::invalid_params("org not allowed"));
    assert_eq!(
        set_branch_protection_request(&args(), refusal()).unwrap_err().message,
        "org not allowed"
    );
    assert_eq!(
        get_branch_protection_request(
            &GetBranchProtectionArgs {
                repo: "x".to_string(),
                branch: "y".to_string()
            },
            refusal()
        )
        .unwrap_err()
        .message,
        "org not allowed"
    );
    assert_eq!(
        delete_branch_protection_request(
            &DeleteBranchProtectionArgs {
                repo: "x".to_string(),
                branch: "y".to_string()
            },
            refusal()
        )
        .unwrap_err()
        .message,
        "org not allowed"
    );
}

#[test]
fn failures_of_github_are_handed_on() {
    let failed = || Err(ErrorData::internal_error("down"));
    let r = repo();
    assert_eq!(set_branch_protection_answer(&r, "b", failed()).unwrap_err().message, "down");
    assert_eq!(get_branch_protection_answer(failed()).unwrap_err().message, "down");
    assert_eq!(delete_branch_protection_answer(&r, "b", failed()).unwrap_err().message, "down");
    assert_eq!(
        set_branch_protection_answer(&r, "b", Ok(Json::Null)).unwrap(),
        "Branch protection applied on ippoan/cc-relay@b\n\nnull"
    );
    assert_eq!(get_branch_protection_answer(Ok(Json::Bool(true))).unwrap(), "true");
    assert_eq!(
        delete_branch_protection_answer(&r, "b", Ok(Json::Null)).unwrap(),
        "Branch protection removed from ippoan/cc-relay@b"
    );
}

#[test]
fn answers_name_the_branch() {
    let response = Json::parse(r#"{"url":"u","enforce_admins":{"enabled":false}}"#).unwrap();
    assert_eq!(
        set_branch_protection_text(&repo(), "main", &response),
        "Branch protection applied on ippoan/cc-relay@main\n\n{\n  \"enforce_admins\": {\n    \"enabled\": false\n  },\n  \"url\": \"u\"\n}"
    );
    assert_eq!(
        get_branch_protection_text(&response),
        "{\n  \"enforce_admins\": {\n    \"enabled\": false\n  },\n  \"url\": \"u\"\n}"
    );
    assert_eq!(
        delete_branch_protection_text(&repo(), "main"),
        "Branch protection removed from ippoan/cc-relay@main"
    );
}
