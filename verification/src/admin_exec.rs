//! Admin tools: calls that the auth worker makes on the caller's behalf.
//!
//! The privileged token never leaves the auth worker. A call posts the name of
//! a tool and its arguments, and a short-lived elevation, granted in a browser,
//! decides whether it is carried out:
//!
//! - `200`: `{ "ok": true, "result": <GitHub's response, or null> }`
//! - `401`: `{ "ok": false, "error": "invalid_jwt" | "missing_authorization" }`
//! - `403`: `{ "ok": false, "error": "not_elevated", "elevate_url": "..." }`
//! - `400`: `{ "ok": false, "error": "...", "details": "..." }`
//! - `502`: `{ "ok": false, "error": "github_api_error", "status": <int>, "body": "..." }`
use vstd::prelude::*;
use vstd::utf8::{encode_utf8, is_char_boundary};

use crate::api::{ErrorData, INTERNAL_ERROR};
use crate::json::{option_view, put, Json, JsonView};
use crate::json_text::{json_compact, json_parsed};
use crate::status::{canonical_reason, describe_status, is_success, status_text, success};
use crate::text::{
    byte_len, byte_prefix, concat2, concat3, lemma_encode_concat, lemma_utf8_prefix, same_text,
    signed_decimal, signed_decimal_text, trim_end_slashes, utf8_prefix, without_end_slashes,
};

verus! {

/// How many bytes of an answer are quoted in an error.
pub const MAX_BODY_LEN: usize = 500;

/// The last character boundary at or before `n`.
pub open spec fn boundary_at_or_before(bytes: Seq<u8>, n: int) -> int
    decreases n,
{
    if n <= 0 || is_char_boundary(bytes, n) {
        n
    } else {
        boundary_at_or_before(bytes, n - 1)
    }
}

/// What is quoted of a text: all of it where it is short, else as many whole
/// characters as fit, and a note that there was more.
pub open spec fn truncated(text: Seq<char>) -> Seq<char> {
    let bytes = encode_utf8(text);
    if bytes.len() <= MAX_BODY_LEN {
        text
    } else {
        utf8_prefix(text, boundary_at_or_before(bytes, MAX_BODY_LEN as int))
            + "... (truncated)"@
    }
}

/// What is quoted of a text.
pub fn truncate(text: &str) -> (quoted: String)
    ensures
        quoted@ == truncated(text@),
{
    let n: usize = byte_len(text);
    if n <= MAX_BODY_LEN {
        return text.to_owned();
    }
    let mut end: usize = MAX_BODY_LEN;
    proof {
        vstd::utf8::encode_utf8_valid_utf8(text@);
        vstd::utf8::is_char_boundary_start_end_of_seq(encode_utf8(text@));
    }
    while end > 0 && !text.is_char_boundary(end)
        invariant
            end <= MAX_BODY_LEN,
            boundary_at_or_before(encode_utf8(text@), MAX_BODY_LEN as int)
                == boundary_at_or_before(encode_utf8(text@), end as int),
        decreases end,
    {
        end = end - 1;
    }
    concat2(byte_prefix(text, end), "... (truncated)")
}

// ---------------------------------------------------------------------------
// The request
// ---------------------------------------------------------------------------

/// A call of an admin tool, as it is posted to the auth worker.
#[derive(Debug)]
pub struct AdminRequest {
    pub url: String,
    pub authorization: String,
    pub content_type: String,
    pub body: String,
}

/// The value that a call posts.
pub open spec fn admin_call(tool: Seq<char>, args: JsonView) -> JsonView {
    JsonView::Object(map!["tool"@ => JsonView::Str(tool), "args"@ => args])
}

/// The value that a call posts.
pub fn admin_exec_body(tool: &str, args: Json) -> (body: Json)
    ensures
        body@ == admin_call(tool@, args@),
{
    let mut fields: Vec<(String, Json)> = Vec::new();
    put(&mut fields, "tool", Json::Str(tool.to_owned()));
    put(&mut fields, "args", args);
    Json::Object(fields)
}

/// The call of `tool` with `args`, at the auth worker of `origin`.
pub fn admin_exec_request(origin: &str, jwt: &str, tool: &str, args: Json) -> (request: AdminRequest)
    ensures
        request.url@ == trim_end_slashes(origin@) + "/mcp/admin/exec"@,
        request.authorization@ == "Bearer "@ + jwt@,
        request.content_type@ == "application/json"@,
        request.body@ == json_compact(admin_call(tool@, args@)),
{
    AdminRequest {
        url: concat2(without_end_slashes(origin), "/mcp/admin/exec"),
        authorization: concat2("Bearer ", jwt),
        content_type: "application/json".to_owned(),
        body: admin_exec_body(tool, args).to_compact(),
    }
}

// ---------------------------------------------------------------------------
// The answer
// ---------------------------------------------------------------------------

/// Why a call of an admin tool brought no result.
#[derive(Debug)]
pub enum AdminExecError {
    /// The auth worker could not be reached, for this reason.
    RequestFailed(String),
    /// A success whose body is no JSON.
    InvalidJson,
    /// A success that does not say so; what is quoted of its body.
    NotOk(String),
    /// The token is not taken.
    AuthenticationFailed,
    /// An elevation has to be granted first, at this address.
    ElevationRequired(String),
    /// The call is forbidden for another reason.
    Forbidden {
        code: String,
        details: String,
    },
    /// The call is at fault; what the auth worker says of it.
    BadRequest(String),
    /// GitHub answered the auth worker with an error.
    GithubApi {
        status: i64,
        body: String,
    },
    /// Some other status.
    Unexpected {
        status: u16,
        body: String,
    },
}

/// A failed call as contracts speak of it.
pub enum AdminErrorView {
    RequestFailed(Seq<char>),
    InvalidJson,
    NotOk(Seq<char>),
    AuthenticationFailed,
    ElevationRequired(Seq<char>),
    Forbidden { code: Seq<char>, details: Seq<char> },
    BadRequest(Seq<char>),
    GithubApi { status: int, body: Seq<char> },
    Unexpected { status: u16, body: Seq<char> },
}

impl View for AdminExecError {
    type V = AdminErrorView;

    open spec fn view(&self) -> AdminErrorView {
        match self {
            AdminExecError::RequestFailed(cause) => AdminErrorView::RequestFailed(cause@),
            AdminExecError::InvalidJson => AdminErrorView::InvalidJson,
            AdminExecError::NotOk(body) => AdminErrorView::NotOk(body@),
            AdminExecError::AuthenticationFailed => AdminErrorView::AuthenticationFailed,
            AdminExecError::ElevationRequired(url) => AdminErrorView::ElevationRequired(url@),
            AdminExecError::Forbidden { code, details } => AdminErrorView::Forbidden {
                code: code@,
                details: details@,
            },
            AdminExecError::BadRequest(message) => AdminErrorView::BadRequest(message@),
            AdminExecError::GithubApi { status, body } => AdminErrorView::GithubApi {
                status: *status as int,
                body: body@,
            },
            AdminExecError::Unexpected { status, body } => AdminErrorView::Unexpected {
                status: *status,
                body: body@,
            },
        }
    }
}

/// A text at `key` of an answer, and `default` where there is none.
pub open spec fn answer_text(
    parsed: Option<JsonView>,
    key: Seq<char>,
    default: Seq<char>,
) -> Seq<char> {
    match parsed {
        Some(answer) => match answer.get_str(key) {
            Some(text) => text,
            None => default,
        },
        None => default,
    }
}

/// The status that GitHub gave the auth worker, and 0 where it is not told.
pub open spec fn github_status(parsed: Option<JsonView>) -> int {
    match parsed {
        Some(answer) => match answer.get_or_null("status"@).as_i64() {
            Some(status) => status,
            None => 0,
        },
        None => 0,
    }
}

/// What an answer of the auth worker comes to: `parsed` is the value of its
/// body, where that is JSON.
pub open spec fn admin_outcome(status: u16, body: Seq<char>, parsed: Option<JsonView>) -> Result<
    JsonView,
    AdminErrorView,
> {
    let code = answer_text(parsed, "error"@, ""@);
    let details = answer_text(parsed, "details"@, ""@);
    if is_success(status) {
        match parsed {
            None => Err(AdminErrorView::InvalidJson),
            Some(answer) => if answer.get("ok"@) == Some(JsonView::Bool(true)) {
                Ok(answer.get_or_null("result"@))
            } else {
                Err(AdminErrorView::NotOk(truncated(body)))
            },
        }
    } else if status == 401 {
        Err(AdminErrorView::AuthenticationFailed)
    } else if status == 403 {
        if code == "not_elevated"@ {
            Err(
                AdminErrorView::ElevationRequired(
                    answer_text(parsed, "elevate_url"@, "https://auth.ippoan.org/mcp/elevate"@),
                ),
            )
        } else {
            Err(AdminErrorView::Forbidden { code, details })
        }
    } else if status == 400 {
        Err(
            AdminErrorView::BadRequest(
                if details.len() > 0 {
                    details
                } else if code.len() > 0 {
                    code
                } else {
                    truncated(body)
                },
            ),
        )
    } else if status == 502 {
        Err(
            AdminErrorView::GithubApi {
                status: github_status(parsed),
                body: truncated(answer_text(parsed, "body"@, ""@)),
            },
        )
    } else {
        Err(AdminErrorView::Unexpected { status, body: truncated(body) })
    }
}

/// An outcome as contracts speak of it.
pub open spec fn outcome_view(outcome: Result<Json, AdminExecError>) -> Result<
    JsonView,
    AdminErrorView,
> {
    match outcome {
        Ok(result) => Ok(result@),
        Err(error) => Err(error@),
    }
}

fn text_at<'a>(parsed: &'a Option<Json>, key: &str, default: &'a str) -> (text: &'a str)
    ensures
        text@ == answer_text(option_view(*parsed), key@, default@),
{
    match parsed {
        Some(answer) => match answer.get_str(key) {
            Some(text) => text,
            None => default,
        },
        None => default,
    }
}

/// What an answer of the auth worker comes to: `parsed` is the value of its
/// body, where that is JSON.
pub fn admin_exec_reply(status: u16, body: &str, parsed: Option<Json>) -> (outcome: Result<
    Json,
    AdminExecError,
>)
    ensures
        outcome_view(outcome) == admin_outcome(status, body@, option_view(parsed)),
{
    if success(status) {
        return match parsed {
            None => Err(AdminExecError::InvalidJson),
            Some(answer) => {
                let ok: bool = match answer.get("ok") {
                    Some(Json::Bool(b)) => *b,
                    _ => false,
                };
                if ok {
                    Ok(answer.get_or_null("result"))
                } else {
                    Err(AdminExecError::NotOk(truncate(body)))
                }
            },
        };
    }
    let code: &str = text_at(&parsed, "error", "");
    let details: &str = text_at(&parsed, "details", "");
    match status {
        401 => Err(AdminExecError::AuthenticationFailed),
        403 => {
            if same_text(code, "not_elevated") {
                let url: &str = text_at(
                    &parsed,
                    "elevate_url",
                    "https://auth.ippoan.org/mcp/elevate",
                );
                Err(AdminExecError::ElevationRequired(url.to_owned()))
            } else {
                Err(
                    AdminExecError::Forbidden { code: code.to_owned(), details: details.to_owned() },
                )
            }
        },
        400 => {
            let message: String = if !details.is_empty() {
                details.to_owned()
            } else if !code.is_empty() {
                code.to_owned()
            } else {
                truncate(body)
            };
            Err(AdminExecError::BadRequest(message))
        },
        502 => {
            let gh_status: i64 = match &parsed {
                Some(answer) => match answer.get("status") {
                    Some(member) => match member.as_i64() {
                        Some(n) => n,
                        None => 0,
                    },
                    None => 0,
                },
                None => 0,
            };
            Err(
                AdminExecError::GithubApi {
                    status: gh_status,
                    body: truncate(text_at(&parsed, "body", "")),
                },
            )
        },
        _ => Err(AdminExecError::Unexpected { status, body: truncate(body) }),
    }
}

/// The value of a reading, where there is one.
pub open spec fn reading(parsed: Result<JsonView, Seq<char>>) -> Option<JsonView> {
    match parsed {
        Ok(value) => Some(value),
        Err(_) => None,
    }
}

/// What an answer of the auth worker comes to.
pub fn admin_exec_outcome(status: u16, body: &str) -> (outcome: Result<Json, AdminExecError>)
    ensures
        outcome_view(outcome) == admin_outcome(status, body@, reading(json_parsed(body@))),
{
    let parsed: Option<Json> = match Json::parse(body) {
        Ok(value) => Some(value),
        Err(_) => None,
    };
    admin_exec_reply(status, body, parsed)
}

/// What a call comes to: `sent` is the status and the body of the answer, or the
/// reason why there was none.
pub fn admin_exec_answer(sent: Result<(u16, String), String>) -> (outcome: Result<
    Json,
    AdminExecError,
>)
    ensures
        outcome_view(outcome) == (match sent {
            Ok((status, body)) => admin_outcome(status, body@, reading(json_parsed(body@))),
            Err(cause) => Err(AdminErrorView::RequestFailed(cause@)),
        }),
{
    match sent {
        Ok((status, body)) => admin_exec_outcome(status, body.as_str()),
        Err(cause) => Err(AdminExecError::RequestFailed(cause)),
    }
}

// ---------------------------------------------------------------------------
// The error in words
// ---------------------------------------------------------------------------

impl AdminErrorView {
    /// The error in words; `reason` is the phrase for the status that was not
    /// expected.
    pub open spec fn text(self, reason: Option<Seq<char>>) -> Seq<char> {
        match self {
            AdminErrorView::RequestFailed(cause) => "auth-worker /mcp/admin/exec: request failed: "@
                + cause,
            AdminErrorView::InvalidJson => "auth-worker /mcp/admin/exec: invalid JSON response"@,
            AdminErrorView::NotOk(body) =>
                "auth-worker /mcp/admin/exec: unexpected 2xx without ok:true — body="@ + body,
            AdminErrorView::AuthenticationFailed =>
                "Authentication failed. The MCP JWT is invalid or expired; reconnect the binary."@,
            AdminErrorView::ElevationRequired(url) => "Admin elevation required. Visit "@ + url
                + " in your browser to grant 15-minute admin access."@,
            AdminErrorView::Forbidden { code, details } => "auth-worker /mcp/admin/exec: 403 ("@
                + code + ") — "@ + details,
            AdminErrorView::BadRequest(message) => "auth-worker /mcp/admin/exec: bad request — "@
                + message,
            AdminErrorView::GithubApi { status, body } =>
                "auth-worker /mcp/admin/exec: GitHub API error (status="@ + signed_decimal(status)
                    + ") — "@ + body,
            AdminErrorView::Unexpected { status, body } =>
                "auth-worker /mcp/admin/exec: unexpected HTTP "@ + status_text(status, reason)
                    + " — "@ + body,
        }
    }

    /// The phrase that the error in words needs.
    pub open spec fn reason(self) -> Option<Seq<char>> {
        match self {
            AdminErrorView::Unexpected { status, body } => canonical_reason(status),
            _ => None,
        }
    }
}

impl AdminExecError {
    /// The error in words, as it is shown to the MCP client.
    pub fn message(&self) -> (text: String)
        ensures
            text@ == self@.text(self@.reason()),
    {
        match self {
            AdminExecError::RequestFailed(cause) => concat2(
                "auth-worker /mcp/admin/exec: request failed: ",
                cause.as_str(),
            ),
            AdminExecError::InvalidJson => "auth-worker /mcp/admin/exec: invalid JSON response".to_owned(),
            AdminExecError::NotOk(body) => concat2(
                "auth-worker /mcp/admin/exec: unexpected 2xx without ok:true — body=",
                body.as_str(),
            ),
            AdminExecError::AuthenticationFailed => "Authentication failed. The MCP JWT is invalid or expired; reconnect the binary.".to_owned(),
            AdminExecError::ElevationRequired(url) => concat3(
                "Admin elevation required. Visit ",
                url.as_str(),
                " in your browser to grant 15-minute admin access.",
            ),
            AdminExecError::Forbidden { code, details } => {
                let mut text: String = concat3(
                    "auth-worker /mcp/admin/exec: 403 (",
                    code.as_str(),
                    ") — ",
                );
                text.append(details.as_str());
                text
            },
            AdminExecError::BadRequest(message) => concat2(
                "auth-worker /mcp/admin/exec: bad request — ",
                message.as_str(),
            ),
            AdminExecError::GithubApi { status, body } => {
                let mut text: String = concat3(
                    "auth-worker /mcp/admin/exec: GitHub API error (status=",
                    signed_decimal_text(*status).as_str(),
                    ") — ",
                );
                text.append(body.as_str());
                text
            },
            AdminExecError::Unexpected { status, body } => {
                let mut text: String = concat3(
                    "auth-worker /mcp/admin/exec: unexpected HTTP ",
                    describe_status(*status).as_str(),
                    " — ",
                );
                text.append(body.as_str());
                text
            },
        }
    }
}

/// The answer to a tool call that failed.
pub fn to_rmcp_error(error: &AdminExecError) -> (answer: ErrorData)
    ensures
        answer.code == INTERNAL_ERROR,
        answer.message@ == error@.text(error@.reason()),
{
    ErrorData::internal_error(error.message().as_str())
}

// ---------------------------------------------------------------------------
// Laws
// ---------------------------------------------------------------------------

/// What is quoted of a text ends at a character boundary at or before the limit.
proof fn lemma_boundary(bytes: Seq<u8>, n: int)
    requires
        vstd::utf8::valid_utf8(bytes),
        0 <= n,
    ensures
        0 <= boundary_at_or_before(bytes, n) <= n,
        is_char_boundary(bytes, boundary_at_or_before(bytes, n)),
    decreases n,
{
    vstd::utf8::is_char_boundary_start_end_of_seq(bytes);
    if n > 0 && !is_char_boundary(bytes, n) {
        lemma_boundary(bytes, n - 1);
    }
}

/// A quotation is never long, whatever the answer was: at most the limit and
/// the fifteen bytes of the note.
pub proof fn quotations_are_short(text: Seq<char>)
    ensures
        encode_utf8(truncated(text)).len() <= MAX_BODY_LEN + 15,
{
    let bytes = encode_utf8(text);
    if bytes.len() > MAX_BODY_LEN {
        let end = boundary_at_or_before(bytes, MAX_BODY_LEN as int);
        vstd::utf8::encode_utf8_valid_utf8(text);
        lemma_boundary(bytes, MAX_BODY_LEN as int);
        lemma_utf8_prefix(text, end);
        lemma_encode_concat(utf8_prefix(text, end), "... (truncated)"@);
        reveal_strlit("... (truncated)");
        assert(vstd::utf8::is_ascii_chars("... (truncated)"@));
        vstd::utf8::is_ascii_chars_encode_utf8("... (truncated)"@);
    }
}

/// A quotation starts as the text does: it is the text, or a prefix of it with
/// the note behind.
pub proof fn quotations_are_prefixes(text: Seq<char>)
    ensures
        truncated(text) == text || exists|prefix: Seq<char>|
            #![trigger prefix.is_prefix_of(text)]
            prefix.is_prefix_of(text) && truncated(text) == prefix + "... (truncated)"@,
{
    let bytes = encode_utf8(text);
    if bytes.len() > MAX_BODY_LEN {
        let end = boundary_at_or_before(bytes, MAX_BODY_LEN as int);
        vstd::utf8::encode_utf8_valid_utf8(text);
        lemma_boundary(bytes, MAX_BODY_LEN as int);
        lemma_utf8_prefix(text, end);
        assert(utf8_prefix(text, end).is_prefix_of(text));
    }
}

/// A result is handed out only for a success that says so, and then as it
/// stands in the answer.
pub proof fn results_need_ok_true(status: u16, body: Seq<char>, parsed: Option<JsonView>)
    ensures
        admin_outcome(status, body, parsed) is Ok <==> is_success(status) && (
        parsed matches Some(answer) && answer.get("ok"@) == Some(JsonView::Bool(true))),
        admin_outcome(status, body, parsed) matches Ok(result) ==> result
            == parsed->0.get_or_null("result"@),
{
}

/// A call without an elevation is always answered with an address at which to
/// grant one: the auth worker's own, or the standing one.
pub proof fn missing_elevation_names_an_address(body: Seq<char>, answer: JsonView)
    requires
        answer.get_str("error"@) == Some("not_elevated"@),
    ensures
        admin_outcome(403, body, Some(answer)) == Err::<JsonView, AdminErrorView>(
            AdminErrorView::ElevationRequired(
                match answer.get_str("elevate_url"@) {
                    Some(url) => url,
                    None => "https://auth.ippoan.org/mcp/elevate"@,
                },
            ),
        ),
{
}

proof fn lemma_call_names()
    ensures
        "tool"@ != "args"@,
{
    reveal_strlit("tool");
    reveal_strlit("args");
    assert("tool"@.len() == 4);
    assert("args"@.len() == 4);
    assert("tool"@[0] != "args"@[0]);
}


/// A call posts the name of its tool and its arguments, as they are, and nothing
/// else.
pub proof fn calls_post_tool_and_arguments(tool: Seq<char>, args: JsonView)
    ensures
        admin_call(tool, args) is Object,
        admin_call(tool, args)->Object_0.dom() == set!["tool"@, "args"@],
        admin_call(tool, args).get("tool"@) == Some(JsonView::Str(tool)),
        admin_call(tool, args).get("args"@) == Some(args),
{
    lemma_call_names();
    assert(admin_call(tool, args)->Object_0.dom() =~= set!["tool"@, "args"@]);
}

/// The last boundary at or before a place is one, and none lies between.
proof fn lemma_last_boundary(bytes: Seq<u8>, n: int, k: int)
    requires
        0 <= n,
        boundary_at_or_before(bytes, n) < k <= n,
    ensures
        !is_char_boundary(bytes, k),
    decreases n,
{
    if n > 0 && !is_char_boundary(bytes, n) && k < n {
        lemma_last_boundary(bytes, n - 1, k);
    }
}

/// A text is quoted whole where it takes at most 500 bytes. Of a longer one as many
/// whole characters are quoted as fit: with one more it would be too long.
pub proof fn quotations_keep_what_fits(text: Seq<char>)
    ensures
        encode_utf8(text).len() <= 500 ==> truncated(text) == text,
        encode_utf8(text).len() > 500 ==> exists|n: int|
            #![trigger text.take(n)]
            0 <= n < text.len() && truncated(text) == text.take(n) + "... (truncated)"@
                && encode_utf8(text.take(n)).len() <= 500 && encode_utf8(text.take(n + 1)).len()
                > 500,
{
    let bytes = encode_utf8(text);
    if bytes.len() > 500 {
        let end = boundary_at_or_before(bytes, 500);
        vstd::utf8::encode_utf8_valid_utf8(text);
        lemma_boundary(bytes, 500);
        lemma_utf8_prefix(text, end);
        let kept = utf8_prefix(text, end);
        let n = kept.len() as int;
        assert(text.take(n) =~= kept);
        assert(n < text.len()) by {
            if n >= text.len() {
                assert(text.take(n) =~= text);
            }
        }
        let more = text.take(n + 1);
        let rest = text.skip(n + 1);
        assert(text =~= more + rest);
        lemma_encode_concat(more, rest);
        let k = encode_utf8(more).len() as int;
        assert(k > end) by {
            assert(more =~= kept + seq![text[n]]);
            lemma_encode_concat(kept, seq![text[n]]);
            lemma_some_bytes(seq![text[n]]);
        }
        if k <= 500 {
            lemma_last_boundary(bytes, 500, k);
            assert(bytes.subrange(0, k) =~= encode_utf8(more));
            lemma_boundary_after(more, rest);
        }
        assert(truncated(text) == text.take(n) + "... (truncated)"@);
    }
}

/// A text that is not empty takes some bytes.
proof fn lemma_some_bytes(text: Seq<char>)
    requires
        text.len() > 0,
    ensures
        encode_utf8(text).len() > 0,
{
    vstd::utf8::encode_utf8_decode_utf8(text);
    reveal_with_fuel(vstd::utf8::decode_utf8, 2);
    if encode_utf8(text).len() == 0 {
        assert(encode_utf8(text) =~= Seq::empty());
    }
}

/// Where one text ends and another starts is a boundary.
proof fn lemma_boundary_after(first: Seq<char>, second: Seq<char>)
    ensures
        is_char_boundary(encode_utf8(first + second), encode_utf8(first).len() as int),
{
    let bytes = encode_utf8(first + second);
    let n = encode_utf8(first).len() as int;
    lemma_encode_concat(first, second);
    vstd::utf8::encode_utf8_valid_utf8(first);
    vstd::utf8::encode_utf8_valid_utf8(second);
    vstd::utf8::encode_utf8_valid_utf8(first + second);
    let tail = encode_utf8(second);
    vstd::utf8::is_char_boundary_start_end_of_seq(bytes);
    vstd::utf8::is_char_boundary_start_end_of_seq(tail);
    if tail.len() > 0 {
        assert(bytes[n] == tail[0]);
        vstd::utf8::is_char_boundary_iff_not_is_continuation_byte(tail, 0);
        vstd::utf8::is_char_boundary_iff_not_is_continuation_byte(bytes, n);
    }
}

/// A success brings its result, or `null`, where it says `ok`; else it is an error
/// that quotes it.
pub proof fn successes_are_taken_at_their_word(status: u16, body: Seq<char>, answer: JsonView)
    requires
        200 <= status < 300,
    ensures
        answer.get("ok"@) == Some(JsonView::Bool(true)) ==> admin_outcome(status, body, Some(answer))
            == Ok::<JsonView, AdminErrorView>(
            match answer.get("result"@) {
                Some(result) => result,
                None => JsonView::Null,
            },
        ),
        answer.get("ok"@) != Some(JsonView::Bool(true)) ==> admin_outcome(status, body, Some(answer))
            == Err::<JsonView, AdminErrorView>(AdminErrorView::NotOk(truncated(body))),
        admin_outcome(status, body, None) == Err::<JsonView, AdminErrorView>(
            AdminErrorView::InvalidJson,
        ),
{
}

/// The text at `key` of an answer, and the empty text where there is none.
pub open spec fn said(parsed: Option<JsonView>, key: Seq<char>) -> Seq<char> {
    match parsed {
        Some(answer) => match answer.get(key) {
            Some(JsonView::Str(text)) => text,
            _ => ""@,
        },
        None => ""@,
    }
}

/// Every refusal is the error of its status, and carries what the auth worker said
/// of it: the code and the details of a forbidden call, the details, else the code,
/// else a quotation of a bad request, GitHub's own status and body where GitHub
/// failed, and a quotation of anything else.
pub proof fn refusals_carry_what_was_said(status: u16, body: Seq<char>, parsed: Option<JsonView>)
    requires
        status < 200 || status >= 300,
    ensures
        admin_outcome(status, body, parsed) is Err,
        status == 401 ==> admin_outcome(status, body, parsed)->Err_0
            == AdminErrorView::AuthenticationFailed,
        status == 403 && said(parsed, "error"@) == "not_elevated"@ ==> (admin_outcome(
            status,
            body,
            parsed,
        )->Err_0 matches AdminErrorView::ElevationRequired(url) && (match parsed->0.get(
            "elevate_url"@,
        ) {
            Some(JsonView::Str(told)) => url == told,
            _ => url == "https://auth.ippoan.org/mcp/elevate"@,
        })),
        status == 403 && said(parsed, "error"@) != "not_elevated"@ ==> admin_outcome(
            status,
            body,
            parsed,
        )->Err_0 == (AdminErrorView::Forbidden {
            code: said(parsed, "error"@),
            details: said(parsed, "details"@),
        }),
        status == 400 ==> (admin_outcome(status, body, parsed)->Err_0
            matches AdminErrorView::BadRequest(message) && (said(parsed, "details"@).len() > 0
            ==> message == said(parsed, "details"@)) && (said(parsed, "details"@).len() == 0 && said(
            parsed,
            "error"@,
        ).len() > 0 ==> message == said(parsed, "error"@)) && (said(parsed, "details"@).len() == 0
            && said(parsed, "error"@).len() == 0 ==> message == truncated(body))),
        status == 502 ==> (admin_outcome(status, body, parsed)->Err_0
            matches AdminErrorView::GithubApi { status: told, body: quoted } && quoted == truncated(
            said(parsed, "body"@),
        ) && (match parsed {
            Some(answer) => match answer.get("status"@) {
                Some(JsonView::Int(n)) => told == (if i64::MIN <= n <= i64::MAX {
                    n
                } else {
                    0
                }),
                _ => told == 0,
            },
            None => told == 0,
        })),
        status != 400 && status != 401 && status != 403 && status != 502 ==> admin_outcome(
            status,
            body,
            parsed,
        )->Err_0 == (AdminErrorView::Unexpected { status, body: truncated(body) }),
{
    reveal_strlit("");
    reveal_strlit("not_elevated");
    assert(""@.len() == 0);
    assert("not_elevated"@.len() == 12);
}

/// An error in words holds what it carries, as it is: no address, code, detail,
/// status or quotation is lost.
pub proof fn errors_in_words_hold_what_they_carry(
    a: Seq<char>,
    b: Seq<char>,
    n: int,
    status: u16,
    reason: Option<Seq<char>>,
)
    ensures
        AdminErrorView::RequestFailed(a).text(reason)
            == "auth-worker /mcp/admin/exec: request failed: "@ + a,
        AdminErrorView::NotOk(a).text(reason)
            == "auth-worker /mcp/admin/exec: unexpected 2xx without ok:true — body="@ + a,
        AdminErrorView::BadRequest(a).text(reason)
            == "auth-worker /mcp/admin/exec: bad request — "@ + a,
        AdminErrorView::ElevationRequired(a).text(reason) == "Admin elevation required. Visit "@ + a
            + " in your browser to grant 15-minute admin access."@,
        AdminErrorView::InvalidJson.text(reason)
            == "auth-worker /mcp/admin/exec: invalid JSON response"@,
        AdminErrorView::AuthenticationFailed.text(reason)
            == "Authentication failed. The MCP JWT is invalid or expired; reconnect the binary."@,
        a.is_suffix_of(AdminErrorView::RequestFailed(a).text(reason)),
        a.is_suffix_of(AdminErrorView::NotOk(a).text(reason)),
        a.is_suffix_of(AdminErrorView::BadRequest(a).text(reason)),
        AdminErrorView::ElevationRequired(a).text(reason).subrange(32, 32 + a.len() as int) == a,
        AdminErrorView::ElevationRequired(a).text(reason)[31] == ' ',
        AdminErrorView::ElevationRequired(a).text(reason)[32 + a.len() as int] == ' ',
        (AdminErrorView::Forbidden { code: a, details: b }).text(reason)
            == "auth-worker /mcp/admin/exec: 403 ("@ + a + ") — "@ + b,
        (AdminErrorView::GithubApi { status: n, body: a }).text(reason)
            == "auth-worker /mcp/admin/exec: GitHub API error (status="@ + signed_decimal(n)
            + ") — "@ + a,
        (AdminErrorView::Unexpected { status, body: a }).text(reason)
            == "auth-worker /mcp/admin/exec: unexpected HTTP "@ + status_text(status, reason)
            + " — "@ + a,
        (AdminErrorView::Unexpected { status, body: a }).reason() == canonical_reason(status),
{
    reveal_strlit("Admin elevation required. Visit ");
    reveal_strlit(" in your browser to grant 15-minute admin access.");
    assert(AdminErrorView::RequestFailed(a).text(reason).skip(
        "auth-worker /mcp/admin/exec: request failed: "@.len() as int,
    ) =~= a);
    assert(AdminErrorView::NotOk(a).text(reason).skip(
        "auth-worker /mcp/admin/exec: unexpected 2xx without ok:true — body="@.len() as int,
    ) =~= a);
    assert(AdminErrorView::BadRequest(a).text(reason).skip(
        "auth-worker /mcp/admin/exec: bad request — "@.len() as int,
    ) =~= a);
    assert(AdminErrorView::ElevationRequired(a).text(reason).subrange(32, 32 + a.len() as int)
        =~= a);
}

/// An error holds what it was made of.
pub proof fn errors_hold_what_they_are_made_of(a: String, b: String, n: i64, status: u16)
    ensures
        AdminExecError::RequestFailed(a)@ == AdminErrorView::RequestFailed(a@),
        AdminExecError::InvalidJson@ == AdminErrorView::InvalidJson,
        AdminExecError::NotOk(a)@ == AdminErrorView::NotOk(a@),
        AdminExecError::AuthenticationFailed@ == AdminErrorView::AuthenticationFailed,
        AdminExecError::ElevationRequired(a)@ == AdminErrorView::ElevationRequired(a@),
        (AdminExecError::Forbidden { code: a, details: b })@ == (AdminErrorView::Forbidden {
            code: a@,
            details: b@,
        }),
        AdminExecError::BadRequest(a)@ == AdminErrorView::BadRequest(a@),
        (AdminExecError::GithubApi { status: n, body: a })@ == (AdminErrorView::GithubApi {
            status: n as int,
            body: a@,
        }),
        (AdminExecError::Unexpected { status, body: a })@ == (AdminErrorView::Unexpected {
            status,
            body: a@,
        }),
{
}

/// An outcome is what came of the call, and a reading is its value where there is
/// one.
pub proof fn outcomes_are_what_came(
    result: Json,
    error: AdminExecError,
    value: JsonView,
    cause: Seq<char>,
)
    ensures
        outcome_view(Ok(result)) == Ok::<JsonView, AdminErrorView>(result@),
        outcome_view(Err(error)) == Err::<JsonView, AdminErrorView>(error@),
        reading(Ok(value)) == Some(value),
        reading(Err(cause)) is None,
{
}

} // verus!
