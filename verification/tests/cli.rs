use github_mcp_server_rs::cli::{
    auth_request_lines, doctor_lines, grant_lines, logout_line, saved_lines, whoami_step,
    whoami_user, ActiveToken, CachedToken, DeviceGrant, LoadedToken, WhoamiCommand, WhoamiEvent,
    WhoamiStep,
};
use github_mcp_server_rs::config::{AuthEnv, Config};
use github_mcp_server_rs::console::Line;
use github_mcp_server_rs::json::Json;

fn config(secret: &str) -> Config {
    Config {
        env: AuthEnv::Staging,
        auth_base: "https://auth-staging.ippoan.org".to_string(),
        internal_shared_secret: secret.to_string(),
        client_id: "github-mcp-server-rs".to_string(),
        scope: "mcp.read mcp.write".to_string(),
    }
}

fn text(line: &Line) -> String {
    match line {
        Line::Notice(text) => text.clone(),
        Line::Warning(text) => panic!("{text}"),
    }
}

fn texts(lines: &[Line]) -> Vec<String> {
    lines.iter().map(text).collect()
}

fn failure(step: WhoamiStep) -> String {
    assert!(step.lines.is_empty());
    match step.command {
        WhoamiCommand::Fail(cause) => cause,
        other => panic!("{other:?}"),
    }
}

fn active() -> ActiveToken {
    ActiveToken {
        sub: "github:yhonda-ohishi".to_string(),
        github_login: "yhonda-ohishi".to_string(),
        scope: "mcp.read mcp.write".to_string(),
        exp: 1700000000,
        github_token: "gho_secret".to_string(),
    }
}

#[test]
fn auth_shows_where_it_asks() {
    assert_eq!(
        texts(&auth_request_lines(&config("s"))),
        vec!["→ Requesting device code from https://auth-staging.ippoan.org ..."]
    );
}

#[test]
fn auth_shows_the_grant() {
    let grant = DeviceGrant {
        verification_uri_complete: "https://a/device?code=X".to_string(),
        verification_uri: "https://a/device".to_string(),
        user_code: "BCDF-GHJK".to_string(),
        expires_in: 900,
        interval: 5,
    };
    assert_eq!(
        texts(&grant_lines(&grant)),
        vec![
            "",
            "┌────────────────────────────────────────────────────",
            "│ Open this URL in your browser:",
            "│   https://a/device?code=X",
            "│",
            "│ Or visit https://a/device and enter:",
            "│   BCDF-GHJK",
            "│",
            "│ Expires in 900 seconds. Polling every 5 s ...",
            "└────────────────────────────────────────────────────",
            "",
        ]
    );
}

#[test]
fn auth_shows_what_it_kept() {
    assert_eq!(
        texts(&saved_lines("/t.json", "mcp.read", 17)),
        vec![
            "✓ Token saved to /t.json",
            "  scope:      mcp.read",
            "  expires_at: 17 (Unix epoch)",
        ]
    );
}

#[test]
fn whoami_needs_a_secret_and_a_token() {
    assert_eq!(
        failure(whoami_step(&config(""), WhoamiEvent::Started)),
        "--internal-shared-secret (or env GITHUB_MCP_INTERNAL_SHARED_SECRET) is required for whoami"
    );
    let step = whoami_step(&config("s"), WhoamiEvent::Started);
    assert!(step.lines.is_empty());
    assert!(matches!(step.command, WhoamiCommand::LoadToken(60)));
    assert_eq!(
        failure(whoami_step(&config("s"), WhoamiEvent::TokenLoaded(None))),
        "no cached token for env=staging — run `auth` first"
    );
}

#[test]
fn whoami_refreshes_an_expired_token() {
    let loaded = |expired: bool| {
        WhoamiEvent::TokenLoaded(Some(LoadedToken {
            access_token: "old".to_string(),
            refresh_token: "refresh".to_string(),
            expired,
        }))
    };
    let step = whoami_step(&config("s"), loaded(true));
    assert_eq!(texts(&step.lines), vec!["→ Access token expired, refreshing ..."]);
    assert!(matches!(step.command, WhoamiCommand::RefreshToken(token) if token == "refresh"));
    let refreshed = WhoamiEvent::TokenRefreshed("new".to_string());
    for (event, asked) in [(loaded(false), "old"), (refreshed, "new")] {
        let step = whoami_step(&config("s"), event);
        assert_eq!(texts(&step.lines), vec!["→ Calling /mcp/introspect ..."]);
        assert!(matches!(step.command, WhoamiCommand::Introspect(token) if token == asked));
    }
}

#[test]
fn whoami_asks_github_with_the_recovered_token() {
    assert_eq!(
        failure(whoami_step(&config("s"), WhoamiEvent::Introspected(None))),
        "introspect returned active:false — token may have been revoked"
    );
    let step = whoami_step(&config("s"), WhoamiEvent::Introspected(Some(active())));
    assert_eq!(
        texts(&step.lines),
        vec![
            "✓ Introspect OK:",
            "  sub:          github:yhonda-ohishi",
            "  github_login: yhonda-ohishi",
            "  scope:        mcp.read mcp.write",
            "  exp:          1700000000 (Unix epoch)",
            "→ Calling GitHub /user with recovered github_token ...",
        ]
    );
    assert!(!texts(&step.lines).concat().contains("gho_secret"));
    match step.command {
        WhoamiCommand::FetchUser(request) => {
            assert_eq!(request.url, "https://api.github.com/user");
            assert_eq!(request.authorization, "Bearer gho_secret");
            assert_eq!(request.user_agent, "github-mcp-server-rs/0.1.0");
            assert_eq!(request.accept, "application/vnd.github+json");
        }
        other => panic!("{other:?}"),
    }
}

fn fetched(status: u16, body: &str) -> WhoamiStep {
    whoami_step(
        &config("s"),
        WhoamiEvent::UserFetched {
            status,
            body: body.to_string(),
        },
    )
}

#[test]
fn whoami_shows_the_user() {
    let step = fetched(200, r#"{"login":"yhonda-ohishi","id":42}"#);
    assert_eq!(
        texts(&step.lines),
        vec!["✓ GitHub /user OK:", "  login: yhonda-ohishi", "  id:    42"]
    );
    assert!(matches!(step.command, WhoamiCommand::Done));
    assert_eq!(
        texts(&fetched(299, r#"{"login":7,"id":"x"}"#).lines),
        vec!["✓ GitHub /user OK:", "  login: (unknown)", "  id:    0"]
    );
    assert_eq!(
        texts(&fetched(200, r#"{"id":-9223372036854775808}"#).lines)[2],
        "  id:    -9223372036854775808"
    );
    assert_eq!(
        texts(&fetched(200, r#"{"id":9223372036854775808}"#).lines)[2],
        "  id:    0"
    );
}

#[test]
fn whoami_fails_with_github() {
    assert_eq!(
        failure(fetched(401, "Bad credentials")),
        "GitHub /user: HTTP 401 Unauthorized — Bad credentials"
    );
    assert_eq!(
        failure(fetched(799, "")),
        "GitHub /user: HTTP 799 <unknown status code> — "
    );
    assert_eq!(
        failure(fetched(200, "{")),
        "EOF while parsing an object at line 1 column 1"
    );
}

#[test]
fn whoami_goes_by_what_was_read() {
    let user = Json::Object(vec![("login".to_string(), Json::Str("me".to_string()))]);
    let step = whoami_user(200, "", "", Ok(user));
    assert_eq!(texts(&step.lines)[1], "  login: me");
    assert_eq!(
        failure(whoami_user(500, "500 X", "b", Err("e".to_string()))),
        "GitHub /user: HTTP 500 X — b"
    );
    assert_eq!(failure(whoami_user(200, "", "b", Err("e".to_string()))), "e");
}

#[test]
fn logout_shows_what_is_gone() {
    assert_eq!(text(&logout_line("/t.json")), "✓ Token cache deleted: /t.json");
}

#[test]
fn doctor_shows_the_configuration() {
    let cached = CachedToken {
        scope: "mcp.admin".to_string(),
        expires_at: 20,
        expired: true,
        obtained_at: 10,
    };
    assert_eq!(
        texts(&doctor_lines(&config(""), "/t.json", &Some(cached))),
        vec![
            "env:              staging",
            "auth_base:        https://auth-staging.ippoan.org",
            "client_id:        github-mcp-server-rs",
            "scope:            mcp.read mcp.write",
            "internal_secret:  (not set)",
            "token_cache:      /t.json",
            "  scope:        mcp.admin",
            "  expires_at:   20",
            "  expired:      true",
            "  obtained_at:  10",
        ]
    );
    assert_eq!(
        texts(&doctor_lines(&config("s"), "/t.json", &None))[6..],
        ["  (no token cached)".to_string()]
    );
}

#[test]
fn doctor_keeps_secrets_to_itself() {
    let shown = |secret: &str| texts(&doctor_lines(&config(secret), "/t.json", &None));
    assert_eq!(
        shown("dev-secret-do-not-use")[4],
        "internal_secret:  (set, 21 chars)"
    );
    assert_eq!(shown("あい")[4], "internal_secret:  (set, 6 chars)");
    assert_eq!(shown("abcdef"), shown("uvwxyz"));
    assert_eq!(shown("abcdef"), shown("あい"));
}
