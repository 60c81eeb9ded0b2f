use github_mcp_server_rs::config::{
    build_config, default_client_id, default_scope, resolve_internal_secret, AuthEnv, Cli, Command,
    Config,
};
use github_mcp_server_rs::relay::host_from_url;

fn config(env: AuthEnv, auth_base: &str) -> Config {
    Config {
        env,
        auth_base: auth_base.to_string(),
        internal_shared_secret: String::new(),
        client_id: default_client_id().to_string(),
        scope: default_scope().to_string(),
    }
}

fn cli(env: AuthEnv, auth_base: Option<&str>, secret: Option<&str>) -> Cli {
    Cli {
        env,
        auth_base: auth_base.map(|s| s.to_string()),
        internal_shared_secret: secret.map(|s| s.to_string()),
        client_id: "id".to_string(),
        scope: "mcp.admin".to_string(),
        command: Command::Doctor,
    }
}

fn some(text: &str) -> Option<String> {
    Some(text.to_string())
}

#[test]
fn environments_have_their_names_and_addresses() {
    assert_eq!(AuthEnv::Staging.as_str(), "staging");
    assert_eq!(AuthEnv::Prod.as_str(), "prod");
    assert_eq!(AuthEnv::Staging.default_base(), "https://auth-staging.ippoan.org");
    assert_eq!(AuthEnv::Prod.default_base(), "https://auth.ippoan.org");
    assert_eq!(AuthEnv::Staging.relay_host(), "mcp-staging.ippoan.org");
    assert_eq!(AuthEnv::Prod.relay_host(), "mcp.ippoan.org");
}

#[test]
fn addresses_have_one_slash() {
    for base in ["https://a", "https://a/", "https://a///"] {
        assert_eq!(
            config(AuthEnv::Staging, base).url("/mcp/token"),
            "https://a/mcp/token"
        );
    }
    assert_eq!(config(AuthEnv::Staging, "").url("/x"), "/x");
    assert_eq!(config(AuthEnv::Staging, "//").url("/x"), "/x");
}

#[test]
fn tokens_are_kept_by_environment() {
    assert_eq!(
        config(AuthEnv::Staging, "").token_cache_file_name(),
        "token-staging.json"
    );
    assert_eq!(config(AuthEnv::Prod, "").token_cache_file_name(), "token-prod.json");
}

#[test]
fn token_paths_follow_the_environment() {
    let dir = std::path::PathBuf::from("/c");
    let staging = config(AuthEnv::Staging, "a").token_cache_path(dir.clone());
    let again = config(AuthEnv::Staging, "b").token_cache_path(dir.clone());
    let prod = config(AuthEnv::Prod, "a").token_cache_path(dir.clone());
    assert_eq!(staging.dir.join(&staging.file_name), dir.join("token-staging.json"));
    assert_eq!(staging.file_name, again.file_name);
    assert_eq!(prod.file_name, "token-prod.json");
    assert_eq!(prod.dir, staging.dir);
}

#[test]
fn relays_have_their_addresses() {
    let staging = config(AuthEnv::Staging, "x");
    let prod = config(AuthEnv::Prod, "x");
    assert_eq!(
        staging.relay_ws_connect_url("yhonda-ohishi"),
        "wss://mcp-staging.ippoan.org/u/yhonda-ohishi/connect"
    );
    assert_eq!(prod.relay_public_url("me"), "https://mcp.ippoan.org/u/me/mcp");
    for login in ["me", "", "a/b://c", "://"] {
        assert_eq!(host_from_url(&prod.relay_ws_connect_url(login)), "mcp.ippoan.org");
    }
}

#[test]
fn nearer_secrets_win_over_farther() {
    let secret = |flag: Option<&str>, variable: Option<&str>, embedded: &str| {
        resolve_internal_secret(
            &flag.map(|s| s.to_string()),
            &variable.map(|s| s.to_string()),
            embedded,
        )
    };
    assert_eq!(secret(Some("f"), Some("v"), "e"), "f");
    assert_eq!(secret(None, Some("v"), "e"), "v");
    assert_eq!(secret(Some(""), Some("v"), "e"), "v");
    assert_eq!(secret(None, None, "e"), "e");
    assert_eq!(secret(Some(""), Some(""), "e"), "e");
    assert_eq!(secret(None, None, ""), "dev-secret-do-not-use");
    assert_eq!(secret(Some(""), Some(""), "").len(), 21);
}

#[test]
fn the_command_line_makes_the_configuration() {
    let made = build_config(&cli(AuthEnv::Prod, None, Some("s")), &some("v"), "e");
    assert_eq!(made.env, AuthEnv::Prod);
    assert_eq!(made.auth_base, "https://auth.ippoan.org");
    assert_eq!(made.internal_shared_secret, "s");
    assert_eq!(made.client_id, "id");
    assert_eq!(made.scope, "mcp.admin");

    let made = build_config(
        &cli(AuthEnv::Staging, Some("https://x.trycloudflare.com"), None),
        &None,
        "",
    );
    assert_eq!(made.auth_base, "https://x.trycloudflare.com");
    assert_eq!(made.internal_shared_secret, "dev-secret-do-not-use");

    let made = build_config(&cli(AuthEnv::Staging, Some(""), None), &some("v"), "e");
    assert_eq!(made.auth_base, "");
    assert_eq!(made.internal_shared_secret, "v");
}

#[test]
fn defaults_are_the_documented_ones() {
    assert_eq!(default_client_id(), "github-mcp-server-rs");
    assert_eq!(default_scope(), "mcp.read mcp.write");
}
