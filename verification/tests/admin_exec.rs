use github_mcp_server_rs::admin_exec::{
    admin_exec_answer, admin_exec_outcome, admin_exec_reply, admin_exec_request, to_rmcp_error, truncate,
    AdminExecError, AdminRequest, MAX_BODY_LEN,
};
use github_mcp_server_rs::api::INTERNAL_ERROR;
use github_mcp_server_rs::json::Json;

fn object(members: Vec<(&str, Json)>) -> Json {
    Json::Object(members.into_iter().map(|(k, v)| (k.to_string(), v)).collect())
}

fn text(s: &str) -> Json {
    Json::Str(s.to_string())
}

fn message(status: u16, body: &str) -> String {
    admin_exec_outcome(status, body).unwrap_err().message()
}

#[test]
fn returns_result_on_200_ok_true() {
    let request: AdminRequest = admin_exec_request(
        "http://127.0.0.1:1234",
        "test-jwt",
        "get_branch_protection",
        object(vec![("owner", text("ippoan")), ("repo", text("x")), ("branch", text("main"))]),
    );
    assert_eq!(request.url, "http://127.0.0.1:1234/mcp/admin/exec");
    assert_eq!(request.authorization, "Bearer test-jwt");
    assert_eq!(request.content_type, "application/json");

    let result = admin_exec_outcome(
        200,
        r#"{"ok":true,"result":{"url":"https://api.github.com/...","enabled":true}}"#,
    )
    .expect("should succeed");
    assert_eq!(result.get("enabled").and_then(|v| v.as_bool()), Some(true));
}

#[test]
fn returns_null_when_result_omitted() {
    let _request = admin_exec_request("http://127.0.0.1:1234", "j", "delete_branch_protection", object(vec![]));
    let result = admin_exec_outcome(200, r#"{"ok":true}"#).unwrap();
    assert!(matches!(result, Json::Null));
}

#[test]
fn surfaces_elevate_url_on_403_not_elevated() {
    let _request = admin_exec_request("http://127.0.0.1:1234", "j", "set_branch_protection", object(vec![]));
    let msg = message(
        403,
        r#"{"ok":false,"error":"not_elevated","elevate_url":"https://auth.ippoan.org/mcp/elevate?return=x"}"#,
    );
    assert!(msg.contains("Admin elevation required"), "msg={msg}");
    assert!(
        msg.contains("https://auth.ippoan.org/mcp/elevate?return=x"),
        "msg={msg}"
    );
    assert!(msg.contains("15-minute"), "msg={msg}");
}

#[test]
fn surfaces_invalid_jwt_on_401() {
    let _request = admin_exec_request("http://127.0.0.1:1234", "bad", "set_branch_protection", object(vec![]));
    let msg = message(401, r#"{"ok":false,"error":"invalid_jwt"}"#);
    assert!(msg.contains("Authentication failed"), "msg={msg}");
    assert!(msg.contains("reconnect"), "msg={msg}");
}

#[test]
fn surfaces_details_on_400() {
    let _request = admin_exec_request(
        "http://127.0.0.1:1234",
        "j",
        "set_branch_protection",
        object(vec![("owner", text("evil-corp"))]),
    );
    let msg = message(
        400,
        r#"{"ok":false,"error":"forbidden_owner","details":"owner 'evil-corp' not in allowlist"}"#,
    );
    assert!(msg.contains("evil-corp"), "msg={msg}");
    assert!(msg.contains("not in allowlist"), "msg={msg}");
}

#[test]
fn surfaces_github_status_and_body_on_502() {
    let _request = admin_exec_request("http://127.0.0.1:1234", "j", "get_branch_protection", object(vec![]));
    let msg = message(
        502,
        r#"{"ok":false,"error":"github_api_error","status":404,"body":"{\"message\":\"Branch not protected\"}"}"#,
    );
    assert!(msg.contains("status=404"), "msg={msg}");
    assert!(msg.contains("Branch not protected"), "msg={msg}");
}

#[test]
fn propagates_network_failure() {
    let request = admin_exec_request("http://127.0.0.1:1", "j", "get_branch_protection", object(vec![]));
    assert_eq!(request.url, "http://127.0.0.1:1/mcp/admin/exec");
    let err = admin_exec_answer(Err("connection refused".to_string())).unwrap_err();
    assert!(matches!(err, AdminExecError::RequestFailed(_)));
    let msg = err.message();
    assert!(msg.contains("request failed"), "msg={msg}");
    assert_eq!(msg, "auth-worker /mcp/admin/exec: request failed: connection refused");
}

#[test]
fn truncate_respects_utf8_boundary() {
    let s = "a".repeat(600);
    let t = truncate(&s);
    assert!(t.len() <= MAX_BODY_LEN + 20);
    assert!(t.ends_with("(truncated)"));

    // multibyte string
    let m = "あ".repeat(300); // 3 bytes each → 900 bytes
    let t = truncate(&m);
    assert!(t.is_char_boundary(0));
    assert!(t.ends_with("(truncated)"));
}

#[test]
fn quotations_are_exact() {
    assert_eq!(truncate(""), "");
    assert_eq!(truncate(&"b".repeat(500)), "b".repeat(500));
    assert_eq!(truncate(&"b".repeat(501)), format!("{}... (truncated)", "b".repeat(500)));
    // 166 characters of three bytes take 498 bytes; the next does not fit.
    assert_eq!(truncate(&"あ".repeat(300)), format!("{}... (truncated)", "あ".repeat(166)));
    // A character of four bytes across the limit is left out whole.
    let s = format!("{}😀x", "a".repeat(498));
    assert_eq!(truncate(&s), format!("{}... (truncated)", "a".repeat(498)));
}

#[test]
fn quotations_stay_short() {
    for n in 0..700 {
        assert!(truncate(&"é".repeat(n)).len() <= 515);
        assert!(truncate(&"a".repeat(n)).len() <= 515);
    }
}

#[test]
fn calls_are_posted_whole() {
    let request = admin_exec_request(
        "https://auth.ippoan.org//",
        "jwt",
        "get_branch_protection",
        object(vec![("repo", text("a\"b")), ("n", Json::Unsigned(3))]),
    );
    assert_eq!(request.url, "https://auth.ippoan.org/mcp/admin/exec");
    assert_eq!(
        request.body,
        r#"{"args":{"n":3,"repo":"a\"b"},"tool":"get_branch_protection"}"#
    );
}

#[test]
fn successes_have_to_say_so() {
    assert_eq!(
        message(200, "not json"),
        "auth-worker /mcp/admin/exec: invalid JSON response"
    );
    assert_eq!(
        message(200, r#"{"ok":false}"#),
        "auth-worker /mcp/admin/exec: unexpected 2xx without ok:true — body={\"ok\":false}"
    );
    assert_eq!(
        message(204, r#"{"ok":"true"}"#),
        "auth-worker /mcp/admin/exec: unexpected 2xx without ok:true — body={\"ok\":\"true\"}"
    );
    assert!(matches!(
        admin_exec_outcome(299, r#"{"ok":true,"result":7}"#),
        Ok(Json::Unsigned(7))
    ));
}

#[test]
fn missing_elevation_has_a_standing_address() {
    assert_eq!(
        message(403, r#"{"error":"not_elevated"}"#),
        "Admin elevation required. Visit https://auth.ippoan.org/mcp/elevate in your browser to grant 15-minute admin access."
    );
    assert_eq!(
        message(403, r#"{"error":"not_elevated","elevate_url":7}"#),
        "Admin elevation required. Visit https://auth.ippoan.org/mcp/elevate in your browser to grant 15-minute admin access."
    );
}

#[test]
fn other_refusals_keep_their_code() {
    assert_eq!(
        message(403, r#"{"error":"forbidden_owner","details":"no"}"#),
        "auth-worker /mcp/admin/exec: 403 (forbidden_owner) — no"
    );
    assert_eq!(message(403, "<html>"), "auth-worker /mcp/admin/exec: 403 () — ");
}

#[test]
fn bad_requests_say_the_most_they_can() {
    assert_eq!(
        message(400, r#"{"error":"e","details":"d"}"#),
        "auth-worker /mcp/admin/exec: bad request — d"
    );
    assert_eq!(
        message(400, r#"{"error":"e","details":""}"#),
        "auth-worker /mcp/admin/exec: bad request — e"
    );
    assert_eq!(message(400, "oops"), "auth-worker /mcp/admin/exec: bad request — oops");
}

#[test]
fn github_errors_without_a_status_have_zero() {
    assert_eq!(
        message(502, "gateway"),
        "auth-worker /mcp/admin/exec: GitHub API error (status=0) — "
    );
    assert_eq!(
        message(502, r#"{"status":-3,"body":"b"}"#),
        "auth-worker /mcp/admin/exec: GitHub API error (status=-3) — b"
    );
    assert_eq!(
        message(502, r#"{"status":4.5,"body":"b"}"#),
        "auth-worker /mcp/admin/exec: GitHub API error (status=0) — b"
    );
}

#[test]
fn other_statuses_are_named() {
    assert_eq!(
        message(500, "boom"),
        "auth-worker /mcp/admin/exec: unexpected HTTP 500 Internal Server Error — boom"
    );
    assert_eq!(
        message(599, "boom"),
        "auth-worker /mcp/admin/exec: unexpected HTTP 599 <unknown status code> — boom"
    );
}

#[test]
fn replies_go_by_what_was_read() {
    let outcome = admin_exec_reply(
        200,
        "ignored",
        Some(object(vec![("ok", Json::Bool(true)), ("result", text("r"))])),
    );
    assert_eq!(outcome.unwrap().as_str(), Some("r"));
    assert!(matches!(
        admin_exec_reply(200, "x", None),
        Err(AdminExecError::InvalidJson)
    ));
    assert!(matches!(
        admin_exec_reply(401, "x", None),
        Err(AdminExecError::AuthenticationFailed)
    ));
}

#[test]
fn answers_that_came_are_read() {
    let answer = admin_exec_answer(Ok((200, r#"{"ok":true,"result":"r"}"#.to_string())));
    assert_eq!(answer.unwrap().as_str(), Some("r"));
    assert!(matches!(
        admin_exec_answer(Ok((401, String::new()))),
        Err(AdminExecError::AuthenticationFailed)
    ));
}

#[test]
fn failed_calls_are_internal_errors() {
    let answer = to_rmcp_error(&AdminExecError::AuthenticationFailed);
    assert_eq!(answer.code, INTERNAL_ERROR);
    assert_eq!(answer.code, -32603);
    assert_eq!(
        answer.message,
        "Authentication failed. The MCP JWT is invalid or expired; reconnect the binary."
    );
}
