//! The commands of the program: what they decide and what they show.
use vstd::prelude::*;
use vstd::utf8::encode_utf8;

use crate::config::Config;
use crate::console::{lines_view, no_lines, say, Line, LineView};
use crate::json::{Json, JsonView};
use crate::json_text::{json_parsed, parse_view};
use crate::status::{canonical_reason, describe_status, is_success, status_text, success};
use crate::text::{
    byte_len, concat2, concat3, decimal, decimal_text, signed_decimal, signed_decimal_text,
};

verus! {

/// A line of text, for the standard output.
pub open spec fn line(text: Seq<char>) -> LineView {
    LineView::Notice(text)
}

fn field(lines: &mut Vec<Line>, name: &str, value: &str)
    ensures
        lines_view(final(lines)@) == lines_view(old(lines)@).push(line(name@ + value@)),
{
    say(lines, concat2(name, value));
}

// ---------------------------------------------------------------------------
// auth
// ---------------------------------------------------------------------------

/// What the auth worker grants a device that wants a token.
#[derive(Debug)]
pub struct DeviceGrant {
    pub verification_uri_complete: String,
    pub verification_uri: String,
    pub user_code: String,
    pub expires_in: u64,
    pub interval: u64,
}

/// What `auth` shows before it asks for a grant.
pub fn auth_request_lines(config: &Config) -> (lines: Vec<Line>)
    ensures
        lines_view(lines@) == seq![
            line("→ Requesting device code from "@ + config.auth_base@ + " ..."@),
        ],
{
    let mut lines: Vec<Line> = no_lines();
    say(&mut lines, concat3("→ Requesting device code from ", config.auth_base.as_str(), " ..."));
    proof {
        assert(lines_view(lines@) =~= seq![
            line("→ Requesting device code from "@ + config.auth_base@ + " ..."@),
        ]);
    }
    lines
}

/// What `auth` shows for its user to grant the token.
pub open spec fn grant_told(grant: DeviceGrant) -> Seq<LineView> {
    seq![
        line(""@),
        line("┌────────────────────────────────────────────────────"@),
        line("│ Open this URL in your browser:"@),
        line("│   "@ + grant.verification_uri_complete@),
        line("│"@),
        line("│ Or visit "@ + grant.verification_uri@ + " and enter:"@),
        line("│   "@ + grant.user_code@),
        line("│"@),
        line(
            "│ Expires in "@ + decimal(grant.expires_in as nat) + " seconds. Polling every "@
                + decimal(grant.interval as nat) + " s ..."@,
        ),
        line("└────────────────────────────────────────────────────"@),
        line(""@),
    ]
}

/// What `auth` shows for its user to grant the token.
pub fn grant_lines(grant: &DeviceGrant) -> (lines: Vec<Line>)
    ensures
        lines_view(lines@) == grant_told(*grant),
{
    let mut lines: Vec<Line> = no_lines();
    say(&mut lines, "".to_owned());
    say(&mut lines, "┌────────────────────────────────────────────────────".to_owned());
    say(&mut lines, "│ Open this URL in your browser:".to_owned());
    field(&mut lines, "│   ", grant.verification_uri_complete.as_str());
    say(&mut lines, "│".to_owned());
    say(&mut lines, concat3("│ Or visit ", grant.verification_uri.as_str(), " and enter:"));
    field(&mut lines, "│   ", grant.user_code.as_str());
    say(&mut lines, "│".to_owned());
    let mut clock: String = concat3(
        "│ Expires in ",
        decimal_text(grant.expires_in).as_str(),
        " seconds. Polling every ",
    );
    clock.append(decimal_text(grant.interval).as_str());
    clock.append(" s ...");
    say(&mut lines, clock);
    say(&mut lines, "└────────────────────────────────────────────────────".to_owned());
    say(&mut lines, "".to_owned());
    proof {
        assert(lines_view(lines@) =~= grant_told(*grant));
    }
    lines
}

/// What `auth` shows of a token that it has kept.
pub open spec fn saved_told(path: Seq<char>, scope: Seq<char>, expires_at: u64) -> Seq<LineView> {
    seq![
        line("✓ Token saved to "@ + path),
        line("  scope:      "@ + scope),
        line("  expires_at: "@ + decimal(expires_at as nat) + " (Unix epoch)"@),
    ]
}

/// What `auth` shows of a token that it has kept at `path`.
pub fn saved_lines(path: &str, scope: &str, expires_at: u64) -> (lines: Vec<Line>)
    ensures
        lines_view(lines@) == saved_told(path@, scope@, expires_at),
{
    let mut lines: Vec<Line> = no_lines();
    field(&mut lines, "✓ Token saved to ", path);
    field(&mut lines, "  scope:      ", scope);
    say(
        &mut lines,
        concat3("  expires_at: ", decimal_text(expires_at).as_str(), " (Unix epoch)"),
    );
    proof {
        assert(lines_view(lines@) =~= saved_told(path@, scope@, expires_at));
    }
    lines
}

// ---------------------------------------------------------------------------
// whoami
// ---------------------------------------------------------------------------

/// What the auth worker tells of a token that is active.
#[derive(Debug)]
pub struct ActiveToken {
    pub sub: String,
    pub github_login: String,
    pub scope: String,
    pub exp: u64,
    pub github_token: String,
}

/// A request for the user that a GitHub token belongs to.
#[derive(Debug)]
pub struct UserRequest {
    pub url: String,
    pub authorization: String,
    pub user_agent: String,
    pub accept: String,
}

/// What `whoami` needs of the cached token.
#[derive(Debug)]
pub struct LoadedToken {
    pub access_token: String,
    pub refresh_token: String,
    /// Whether it has expired, or will within the seconds that were named.
    pub expired: bool,
}

/// What happened to `whoami`.
#[derive(Debug)]
pub enum WhoamiEvent {
    /// It was called.
    Started,
    /// The cached token was looked for.
    TokenLoaded(Option<LoadedToken>),
    /// The token has been refreshed and kept; this is the new access token.
    TokenRefreshed(String),
    /// The auth worker was asked, and told this of the token if it is active.
    Introspected(Option<ActiveToken>),
    /// GitHub was asked for the user.
    UserFetched {
        status: u16,
        body: String,
    },
}

/// How long before its end a token counts as expired, in seconds.
pub const REFRESH_SKEW: u64 = 60;

/// What `whoami` is to do next.
#[derive(Debug)]
pub enum WhoamiCommand {
    /// Load the cached token, which counts as expired these seconds before its end.
    LoadToken(u64),
    /// Refresh the token, with this refresh token.
    RefreshToken(String),
    /// Ask the auth worker about this access token.
    Introspect(String),
    FetchUser(UserRequest),
    Done,
    Fail(String),
}

/// What `whoami` is to do next, as contracts speak of it.
pub enum WhoamiCommandView {
    LoadToken(u64),
    RefreshToken(Seq<char>),
    Introspect(Seq<char>),
    FetchUser { url: Seq<char>, authorization: Seq<char>, user_agent: Seq<char>, accept: Seq<char> },
    Done,
    Fail(Seq<char>),
}

impl View for WhoamiCommand {
    type V = WhoamiCommandView;

    open spec fn view(&self) -> WhoamiCommandView {
        match self {
            WhoamiCommand::LoadToken(skew) => WhoamiCommandView::LoadToken(*skew),
            WhoamiCommand::RefreshToken(token) => WhoamiCommandView::RefreshToken(token@),
            WhoamiCommand::Introspect(token) => WhoamiCommandView::Introspect(token@),
            WhoamiCommand::FetchUser(request) => WhoamiCommandView::FetchUser {
                url: request.url@,
                authorization: request.authorization@,
                user_agent: request.user_agent@,
                accept: request.accept@,
            },
            WhoamiCommand::Done => WhoamiCommandView::Done,
            WhoamiCommand::Fail(cause) => WhoamiCommandView::Fail(cause@),
        }
    }
}

/// What `whoami` is to do next, and what it shows first.
#[derive(Debug)]
pub struct WhoamiStep {
    pub lines: Vec<Line>,
    pub command: WhoamiCommand,
}

/// The next step as contracts speak of it.
pub struct WhoamiStepView {
    pub lines: Seq<LineView>,
    pub command: WhoamiCommandView,
}

impl View for WhoamiStep {
    type V = WhoamiStepView;

    open spec fn view(&self) -> WhoamiStepView {
        WhoamiStepView { lines: lines_view(self.lines@), command: self.command@ }
    }
}

/// A step that shows nothing.
pub open spec fn silently(command: WhoamiCommandView) -> WhoamiStepView {
    WhoamiStepView { lines: Seq::empty(), command }
}

/// The step that asks the auth worker about an access token.
pub open spec fn ask_introspection(token: Seq<char>) -> WhoamiStepView {
    WhoamiStepView {
        lines: seq![line("→ Calling /mcp/introspect ..."@)],
        command: WhoamiCommandView::Introspect(token),
    }
}

/// What `whoami` shows of an active token.
pub open spec fn active_told(active: ActiveToken) -> Seq<LineView> {
    seq![
        line("✓ Introspect OK:"@),
        line("  sub:          "@ + active.sub@),
        line("  github_login: "@ + active.github_login@),
        line("  scope:        "@ + active.scope@),
        line("  exp:          "@ + decimal(active.exp as nat) + " (Unix epoch)"@),
        line("→ Calling GitHub /user with recovered github_token ..."@),
    ]
}

/// The login that GitHub tells of a user.
pub open spec fn user_login(user: JsonView) -> Seq<char> {
    match user.get_str("login"@) {
        Some(login) => login,
        None => "(unknown)"@,
    }
}

/// The number that GitHub tells of a user.
pub open spec fn user_id(user: JsonView) -> int {
    match user.get_or_null("id"@).as_i64() {
        Some(id) => id,
        None => 0,
    }
}

/// The step upon GitHub's answer for the user. `parsed` is what its body reads
/// as, and `described` the status in words.
pub open spec fn user_step(
    status: u16,
    described: Seq<char>,
    body: Seq<char>,
    parsed: Result<JsonView, Seq<char>>,
) -> WhoamiStepView {
    if !is_success(status) {
        silently(WhoamiCommandView::Fail("GitHub /user: HTTP "@ + described + " — "@ + body))
    } else {
        match parsed {
            Err(cause) => silently(WhoamiCommandView::Fail(cause)),
            Ok(user) => WhoamiStepView {
                lines: seq![
                    line("✓ GitHub /user OK:"@),
                    line("  login: "@ + user_login(user)),
                    line("  id:    "@ + signed_decimal(user_id(user))),
                ],
                command: WhoamiCommandView::Done,
            },
        }
    }
}

/// The next step of `whoami`: a secret is needed, then a cached token, fresh or
/// refreshed, then the auth worker's word that it is active, then GitHub's
/// answer.
pub open spec fn whoami_next(config: Config, event: WhoamiEvent) -> WhoamiStepView {
    match event {
        WhoamiEvent::Started => if config.internal_shared_secret@.len() == 0 {
            silently(
                WhoamiCommandView::Fail(
                    "--internal-shared-secret (or env GITHUB_MCP_INTERNAL_SHARED_SECRET) is required for whoami"@,
                ),
            )
        } else {
            silently(WhoamiCommandView::LoadToken(60))
        },
        WhoamiEvent::TokenLoaded(None) => silently(
            WhoamiCommandView::Fail(
                "no cached token for env="@ + config.env.name() + " — run `auth` first"@,
            ),
        ),
        WhoamiEvent::TokenLoaded(Some(token)) => if token.expired {
            WhoamiStepView {
                lines: seq![line("→ Access token expired, refreshing ..."@)],
                command: WhoamiCommandView::RefreshToken(token.refresh_token@),
            }
        } else {
            ask_introspection(token.access_token@)
        },
        WhoamiEvent::TokenRefreshed(access_token) => ask_introspection(access_token@),
        WhoamiEvent::Introspected(None) => silently(
            WhoamiCommandView::Fail(
                "introspect returned active:false — token may have been revoked"@,
            ),
        ),
        WhoamiEvent::Introspected(Some(active)) => WhoamiStepView {
            lines: active_told(active),
            command: WhoamiCommandView::FetchUser {
                url: "https://api.github.com/user"@,
                authorization: "Bearer "@ + active.github_token@,
                user_agent: "github-mcp-server-rs/0.1.0"@,
                accept: "application/vnd.github+json"@,
            },
        },
        WhoamiEvent::UserFetched { status, body } => user_step(
            status,
            status_text(status, canonical_reason(status)),
            body@,
            json_parsed(body@),
        ),
    }
}

fn quiet(command: WhoamiCommand) -> (step: WhoamiStep)
    ensures
        step@ == silently(command@),
{
    WhoamiStep { lines: no_lines(), command }
}

fn introspect_now(token: String) -> (step: WhoamiStep)
    ensures
        step@ == ask_introspection(token@),
{
    let mut lines: Vec<Line> = no_lines();
    say(&mut lines, "→ Calling /mcp/introspect ...".to_owned());
    proof {
        assert(lines_view(lines@) =~= ask_introspection(token@).lines);
    }
    WhoamiStep { lines, command: WhoamiCommand::Introspect(token) }
}

/// The step upon GitHub's answer for the user.
pub fn whoami_user(status: u16, described: &str, body: &str, parsed: Result<Json, String>) -> (step:
    WhoamiStep)
    ensures
        step@ == user_step(status, described@, body@, parse_view(parsed)),
{
    if !success(status) {
        let mut cause: String = concat3("GitHub /user: HTTP ", described, " — ");
        cause.append(body);
        return quiet(WhoamiCommand::Fail(cause));
    }
    let user: Json = match parsed {
        Ok(user) => user,
        Err(cause) => return quiet(WhoamiCommand::Fail(cause)),
    };
    let login: &str = match user.get_str("login") {
        Some(login) => login,
        None => "(unknown)",
    };
    let id: i64 = match user.get("id") {
        Some(member) => match member.as_i64() {
            Some(n) => n,
            None => 0,
        },
        None => 0,
    };
    let mut lines: Vec<Line> = no_lines();
    say(&mut lines, "✓ GitHub /user OK:".to_owned());
    field(&mut lines, "  login: ", login);
    field(&mut lines, "  id:    ", signed_decimal_text(id).as_str());
    let step = WhoamiStep { lines, command: WhoamiCommand::Done };
    proof {
        assert(step@.lines =~= user_step(status, described@, body@, Ok(user@)).lines);
    }
    step
}

/// The next step of `whoami`.
pub fn whoami_step(config: &Config, event: WhoamiEvent) -> (step: WhoamiStep)
    ensures
        step@ == whoami_next(*config, event),
{
    match event {
        WhoamiEvent::Started => if config.internal_shared_secret.as_str().is_empty() {
            quiet(
                WhoamiCommand::Fail(
                    "--internal-shared-secret (or env GITHUB_MCP_INTERNAL_SHARED_SECRET) is required for whoami".to_owned(),
                ),
            )
        } else {
            quiet(WhoamiCommand::LoadToken(REFRESH_SKEW))
        },
        WhoamiEvent::TokenLoaded(None) => quiet(
            WhoamiCommand::Fail(
                concat3("no cached token for env=", config.env.as_str(), " — run `auth` first"),
            ),
        ),
        WhoamiEvent::TokenLoaded(Some(token)) => {
            if token.expired {
                let mut lines: Vec<Line> = no_lines();
                say(&mut lines, "→ Access token expired, refreshing ...".to_owned());
                proof {
                    assert(lines_view(lines@) =~= seq![
                        line("→ Access token expired, refreshing ..."@),
                    ]);
                }
                WhoamiStep { lines, command: WhoamiCommand::RefreshToken(token.refresh_token) }
            } else {
                introspect_now(token.access_token)
            }
        },
        WhoamiEvent::TokenRefreshed(access_token) => introspect_now(access_token),
        WhoamiEvent::Introspected(None) => quiet(
            WhoamiCommand::Fail(
                "introspect returned active:false — token may have been revoked".to_owned(),
            ),
        ),
        WhoamiEvent::Introspected(Some(active)) => {
            let mut lines: Vec<Line> = no_lines();
            say(&mut lines, "✓ Introspect OK:".to_owned());
            field(&mut lines, "  sub:          ", active.sub.as_str());
            field(&mut lines, "  github_login: ", active.github_login.as_str());
            field(&mut lines, "  scope:        ", active.scope.as_str());
            say(
                &mut lines,
                concat3("  exp:          ", decimal_text(active.exp).as_str(), " (Unix epoch)"),
            );
            say(&mut lines, "→ Calling GitHub /user with recovered github_token ...".to_owned());
            proof {
                assert(lines_view(lines@) =~= active_told(active));
            }
            WhoamiStep {
                lines,
                command: WhoamiCommand::FetchUser(
                    UserRequest {
                        url: "https://api.github.com/user".to_owned(),
                        authorization: concat2("Bearer ", active.github_token.as_str()),
                        user_agent: "github-mcp-server-rs/0.1.0".to_owned(),
                        accept: "application/vnd.github+json".to_owned(),
                    },
                ),
            }
        },
        WhoamiEvent::UserFetched { status, body } => whoami_user(
            status,
            describe_status(status).as_str(),
            body.as_str(),
            Json::parse(body.as_str()),
        ),
    }
}

// ---------------------------------------------------------------------------
// logout
// ---------------------------------------------------------------------------

/// What `logout` shows when the token that was kept at `path` is gone.
pub fn logout_line(path: &str) -> (shown: Line)
    ensures
        shown@ == line("✓ Token cache deleted: "@ + path@),
{
    Line::Notice(concat2("✓ Token cache deleted: ", path))
}

// ---------------------------------------------------------------------------
// doctor
// ---------------------------------------------------------------------------

/// What `doctor` shows of a cached token.
#[derive(Debug)]
pub struct CachedToken {
    pub scope: String,
    pub expires_at: u64,
    pub expired: bool,
    pub obtained_at: u64,
}

/// What is shown in place of a secret: whether there is one, and its length.
pub open spec fn secret_told(secret: Seq<char>) -> Seq<char> {
    if secret.len() == 0 {
        "(not set)"@
    } else {
        "(set, "@ + decimal(encode_utf8(secret).len()) + " chars)"@
    }
}

/// A truth value in words.
pub open spec fn truth(b: bool) -> Seq<char> {
    if b {
        "true"@
    } else {
        "false"@
    }
}

/// What `doctor` shows of the cached token.
pub open spec fn cache_told(cached: Option<CachedToken>) -> Seq<LineView> {
    match cached {
        Some(token) => seq![
            line("  scope:        "@ + token.scope@),
            line("  expires_at:   "@ + decimal(token.expires_at as nat)),
            line("  expired:      "@ + truth(token.expired)),
            line("  obtained_at:  "@ + decimal(token.obtained_at as nat)),
        ],
        None => seq![line("  (no token cached)"@)],
    }
}

/// What `doctor` shows.
pub open spec fn doctor_told(config: Config, path: Seq<char>, cached: Option<CachedToken>) -> Seq<
    LineView,
> {
    seq![
        line("env:              "@ + config.env.name()),
        line("auth_base:        "@ + config.auth_base@),
        line("client_id:        "@ + config.client_id@),
        line("scope:            "@ + config.scope@),
        line("internal_secret:  "@ + secret_told(config.internal_shared_secret@)),
        line("token_cache:      "@ + path),
    ] + cache_told(cached)
}

/// What `doctor` shows of a configuration and of the token cached at `path`.
pub fn doctor_lines(config: &Config, path: &str, cached: &Option<CachedToken>) -> (lines: Vec<Line>)
    ensures
        lines_view(lines@) == doctor_told(*config, path@, *cached),
{
    let secret: String = if config.internal_shared_secret.as_str().is_empty() {
        "(not set)".to_owned()
    } else {
        concat3(
            "(set, ",
            decimal_text(byte_len(config.internal_shared_secret.as_str()) as u64).as_str(),
            " chars)",
        )
    };
    let mut lines: Vec<Line> = no_lines();
    field(&mut lines, "env:              ", config.env.as_str());
    field(&mut lines, "auth_base:        ", config.auth_base.as_str());
    field(&mut lines, "client_id:        ", config.client_id.as_str());
    field(&mut lines, "scope:            ", config.scope.as_str());
    field(&mut lines, "internal_secret:  ", secret.as_str());
    field(&mut lines, "token_cache:      ", path);
    match cached {
        Some(token) => {
            field(&mut lines, "  scope:        ", token.scope.as_str());
            field(&mut lines, "  expires_at:   ", decimal_text(token.expires_at).as_str());
            field(
                &mut lines,
                "  expired:      ",
                if token.expired {
                    "true"
                } else {
                    "false"
                },
            );
            field(&mut lines, "  obtained_at:  ", decimal_text(token.obtained_at).as_str());
        },
        None => say(&mut lines, "  (no token cached)".to_owned()),
    }
    proof {
        assert(lines_view(lines@) =~= doctor_told(*config, path@, *cached));
    }
    lines
}

// ---------------------------------------------------------------------------
// Laws
// ---------------------------------------------------------------------------

/// `doctor` does not give the secret away: any other of the same length would
/// be shown the same way.
pub proof fn doctor_keeps_the_secret(
    config: Config,
    other: String,
    path: Seq<char>,
    cached: Option<CachedToken>,
)
    requires
        encode_utf8(other@).len() == encode_utf8(config.internal_shared_secret@).len(),
    ensures
        doctor_told(config, path, cached) == doctor_told(
            Config { internal_shared_secret: other, ..config },
            path,
            cached,
        ),
{
    lemma_no_bytes(other@);
    lemma_no_bytes(config.internal_shared_secret@);
}

/// Only the empty text takes no bytes.
proof fn lemma_no_bytes(text: Seq<char>)
    ensures
        encode_utf8(text).len() == 0 <==> text.len() == 0,
{
    vstd::utf8::encode_utf8_decode_utf8(text);
    reveal_with_fuel(vstd::utf8::decode_utf8, 2);
    if encode_utf8(text).len() == 0 {
        assert(encode_utf8(text) =~= Seq::empty());
    }
}

/// `whoami` shows nothing of the GitHub token: it only goes to GitHub.
pub proof fn whoami_keeps_the_github_token(config: Config, active: ActiveToken, other: String)
    ensures
        whoami_next(config, WhoamiEvent::Introspected(Some(active))).lines == whoami_next(
            config,
            WhoamiEvent::Introspected(Some(ActiveToken { github_token: other, ..active })),
        ).lines,
{
}

/// The auth worker is asked about the cached token where it is fresh, and else
/// about the one that came of its refresh.
pub proof fn whoami_asks_about_a_fresh_token(config: Config, cached: LoadedToken, refreshed: String)
    ensures
        whoami_next(config, WhoamiEvent::TokenLoaded(Some(cached))).command == (if cached.expired {
            WhoamiCommandView::RefreshToken(cached.refresh_token@)
        } else {
            WhoamiCommandView::Introspect(cached.access_token@)
        }),
        whoami_next(config, WhoamiEvent::TokenRefreshed(refreshed)).command
            == WhoamiCommandView::Introspect(refreshed@),
{
}

/// Nothing is asked of GitHub before the auth worker has said that the token is
/// active.
pub proof fn github_is_asked_with_an_active_token(config: Config, event: WhoamiEvent)
    ensures
        whoami_next(config, event).command is FetchUser <==> event matches WhoamiEvent::Introspected(
            Some(_),
        ),
{
}

/// `whoami` succeeds only upon an answer of GitHub's that is a success and
/// reads as JSON.
pub proof fn whoami_ends_with_github(config: Config, event: WhoamiEvent)
    ensures
        whoami_next(config, event).command is Done <==> (event matches WhoamiEvent::UserFetched {
            status,
            body,
        } && is_success(status) && json_parsed(body@) is Ok),
{
}

/// A grant is shown with both addresses, the code and both times, each as it is and
/// in its place.
pub proof fn grants_are_shown_whole(grant: DeviceGrant)
    ensures
        grant_told(grant).len() == 11,
        grant_told(grant)[3] == LineView::Notice("│   "@ + grant.verification_uri_complete@),
        grant_told(grant)[5] == LineView::Notice(
            "│ Or visit "@ + grant.verification_uri@ + " and enter:"@,
        ),
        grant_told(grant)[6] == LineView::Notice("│   "@ + grant.user_code@),
        grant_told(grant)[8] == LineView::Notice(
            "│ Expires in "@ + decimal(grant.expires_in as nat) + " seconds. Polling every "@
                + decimal(grant.interval as nat) + " s ..."@,
        ),
        grant_told(grant)[0] == LineView::Notice(""@),
        grant_told(grant)[1] == LineView::Notice(
            "┌────────────────────────────────────────────────────"@,
        ),
        grant_told(grant)[2] == LineView::Notice("│ Open this URL in your browser:"@),
        grant_told(grant)[4] == LineView::Notice("│"@),
        grant_told(grant)[7] == LineView::Notice("│"@),
        grant_told(grant)[9] == LineView::Notice(
            "└────────────────────────────────────────────────────"@,
        ),
        grant_told(grant)[10] == LineView::Notice(""@),
{
}

/// A token that was kept is shown by its place, its scope and its end.
pub proof fn kept_tokens_are_shown(path: Seq<char>, scope: Seq<char>, expires_at: u64)
    ensures
        saved_told(path, scope, expires_at).len() == 3,
        saved_told(path, scope, expires_at)[0] == LineView::Notice("✓ Token saved to "@ + path),
        saved_told(path, scope, expires_at)[1] == LineView::Notice("  scope:      "@ + scope),
        saved_told(path, scope, expires_at)[2] == LineView::Notice(
            "  expires_at: "@ + decimal(expires_at as nat) + " (Unix epoch)"@,
        ),
{
}

/// The configuration is shown as it is, but for the secret, of which only the
/// length is.
pub proof fn doctor_shows_the_configuration_as_it_is(
    config: Config,
    path: Seq<char>,
    cached: Option<CachedToken>,
)
    ensures
        doctor_told(config, path, cached)[0] == LineView::Notice(
            "env:              "@ + config.env.name(),
        ),
        doctor_told(config, path, cached)[1] == LineView::Notice(
            "auth_base:        "@ + config.auth_base@,
        ),
        doctor_told(config, path, cached)[2] == LineView::Notice(
            "client_id:        "@ + config.client_id@,
        ),
        doctor_told(config, path, cached)[3] == LineView::Notice(
            "scope:            "@ + config.scope@,
        ),
        doctor_told(config, path, cached)[4] == LineView::Notice(
            "internal_secret:  "@ + (if config.internal_shared_secret@.len() == 0 {
                "(not set)"@
            } else {
                "(set, "@ + decimal(encode_utf8(config.internal_shared_secret@).len())
                    + " chars)"@
            }),
        ),
        doctor_told(config, path, cached)[5] == LineView::Notice("token_cache:      "@ + path),
        cached is None ==> doctor_told(config, path, cached).len() == 7 && doctor_told(
            config,
            path,
            cached,
        )[6] == LineView::Notice("  (no token cached)"@),
        cached matches Some(token) ==> {
            let told = doctor_told(config, path, cached);
            &&& told.len() == 10
            &&& told[6] == LineView::Notice("  scope:        "@ + token.scope@)
            &&& told[7] == LineView::Notice(
                "  expires_at:   "@ + decimal(token.expires_at as nat),
            )
            &&& told[8] == LineView::Notice(
                "  expired:      "@ + (if token.expired {
                    "true"@
                } else {
                    "false"@
                }),
            )
            &&& told[9] == LineView::Notice(
                "  obtained_at:  "@ + decimal(token.obtained_at as nat),
            )
        },
{
}

/// An active token is shown by whom it belongs to, its scope and its end, and GitHub
/// is asked with the token that came with it.
pub proof fn active_tokens_are_shown_and_used(config: Config, active: ActiveToken)
    ensures
        ({
            let step = whoami_next(config, WhoamiEvent::Introspected(Some(active)));
            &&& step.lines.len() == 6
            &&& step.lines[0] == LineView::Notice("✓ Introspect OK:"@)
            &&& step.lines[1] == LineView::Notice("  sub:          "@ + active.sub@)
            &&& step.lines[2] == LineView::Notice("  github_login: "@ + active.github_login@)
            &&& step.lines[3] == LineView::Notice("  scope:        "@ + active.scope@)
            &&& step.lines[4] == LineView::Notice(
                "  exp:          "@ + decimal(active.exp as nat) + " (Unix epoch)"@,
            )
            &&& step.lines[5] == LineView::Notice(
                "→ Calling GitHub /user with recovered github_token ..."@,
            )
            &&& step.command matches WhoamiCommandView::FetchUser {
                url,
                authorization,
                user_agent,
                accept,
            } && url == "https://api.github.com/user"@ && authorization == "Bearer "@
                + active.github_token@ && user_agent == "github-mcp-server-rs/0.1.0"@ && accept
                == "application/vnd.github+json"@
        }),
{
}

/// Before it asks anyone, `whoami` needs a secret, and then a cached token.
pub proof fn whoami_needs_secret_and_token(config: Config)
    ensures
        whoami_next(config, WhoamiEvent::Started).command is Fail
            <==> config.internal_shared_secret@.len() == 0,
        config.internal_shared_secret@.len() > 0 ==> whoami_next(
            config,
            WhoamiEvent::Started,
        ).command == WhoamiCommandView::LoadToken(60),
        whoami_next(config, WhoamiEvent::Started).lines.len() == 0,
        whoami_next(config, WhoamiEvent::TokenLoaded(None)).command == WhoamiCommandView::Fail(
            "no cached token for env="@ + config.env.name() + " — run `auth` first"@,
        ),
        whoami_next(config, WhoamiEvent::TokenLoaded(None)).lines.len() == 0,
        whoami_next(config, WhoamiEvent::Introspected(None)).lines.len() == 0,
        whoami_next(config, WhoamiEvent::Introspected(None)).command == WhoamiCommandView::Fail(
            "introspect returned active:false — token may have been revoked"@,
        ),
        config.internal_shared_secret@.len() == 0 ==> whoami_next(
            config,
            WhoamiEvent::Started,
        ).command == WhoamiCommandView::Fail(
            "--internal-shared-secret (or env GITHUB_MCP_INTERNAL_SHARED_SECRET) is required for whoami"@,
        ),
{
}

/// The user is shown by the login and the number that GitHub tells; a failure is told
/// with GitHub's status and body, and an answer that does not read with the reader's
/// own words.
pub proof fn whoami_shows_the_user_that_github_tells(
    status: u16,
    described: Seq<char>,
    body: Seq<char>,
    user: JsonView,
    cause: Seq<char>,
    parsed: Result<JsonView, Seq<char>>,
)
    ensures
        status < 200 || status >= 300 ==> user_step(status, described, body, parsed).lines.len()
            == 0 && user_step(status, described, body, parsed).command == WhoamiCommandView::Fail(
            "GitHub /user: HTTP "@ + described + " — "@ + body,
        ),
        200 <= status < 300 ==> user_step(status, described, body, Err(cause)).lines.len() == 0
            && user_step(status, described, body, Err(cause)).command == WhoamiCommandView::Fail(
            cause,
        ),
        200 <= status < 300 ==> user_step(status, described, body, Ok(user)).command
            == WhoamiCommandView::Done,
        200 <= status < 300 ==> user_step(status, described, body, Ok(user)).lines == seq![
            LineView::Notice("✓ GitHub /user OK:"@),
            LineView::Notice(
                "  login: "@ + (match user.get("login"@) {
                    Some(JsonView::Str(login)) => login,
                    _ => "(unknown)"@,
                }),
            ),
            LineView::Notice(
                "  id:    "@ + signed_decimal(
                    match user.get("id"@) {
                        Some(JsonView::Int(n)) => if i64::MIN <= n <= i64::MAX {
                            n
                        } else {
                            0
                        },
                        _ => 0,
                    },
                ),
            ),
        ],
{
}

/// GitHub's answer is judged by its own status, body and reading.
pub proof fn whoami_judges_the_answer_that_came(config: Config, status: u16, body: String)
    ensures
        whoami_next(config, WhoamiEvent::UserFetched { status, body }) == user_step(
            status,
            status_text(status, canonical_reason(status)),
            body@,
            json_parsed(body@),
        ),
{
}

/// A step is what its parts say.
pub proof fn whoami_steps_are_their_parts(step: WhoamiStep, token: String, request: UserRequest)
    ensures
        step@.lines == lines_view(step.lines@),
        step@.command == step.command@,
        WhoamiCommand::RefreshToken(token)@ == WhoamiCommandView::RefreshToken(token@),
        WhoamiCommand::Introspect(token)@ == WhoamiCommandView::Introspect(token@),
        WhoamiCommand::Fail(token)@ == WhoamiCommandView::Fail(token@),
        WhoamiCommand::Done@ == WhoamiCommandView::Done,
        WhoamiCommand::LoadToken(7)@ == WhoamiCommandView::LoadToken(7),
        WhoamiCommand::FetchUser(request)@ == (WhoamiCommandView::FetchUser {
            url: request.url@,
            authorization: request.authorization@,
            user_agent: request.user_agent@,
            accept: request.accept@,
        }),
        step.command is LoadToken <==> step@.command is LoadToken,
{
}

/// What is shown before the auth worker is asked gives no token away: it says the same
/// of any.
pub proof fn whoami_keeps_the_cached_tokens(config: Config, cached: LoadedToken, refreshed: String)
    ensures
        whoami_next(config, WhoamiEvent::TokenLoaded(Some(cached))).lines == seq![
            LineView::Notice(
                if cached.expired {
                    "→ Access token expired, refreshing ..."@
                } else {
                    "→ Calling /mcp/introspect ..."@
                },
            ),
        ],
        whoami_next(config, WhoamiEvent::TokenRefreshed(refreshed)).lines == seq![
            LineView::Notice("→ Calling /mcp/introspect ..."@),
        ],
{
}

} // verus!
