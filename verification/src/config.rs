//! Environments, addresses and the configuration of a run.
//!
//! Staging and production have their own auth worker, their own relay and their
//! own file for the cached token, so that both can be used side by side.
use vstd::prelude::*;

use crate::relay::url_host;
use crate::text::{
    before, concat2, concat3, find_from, trim_end_slashes, without_end_slashes,
};

verus! {

/// Which auth worker to use.
#[derive(Copy, Clone, Debug, PartialEq, Eq, Structural)]
pub enum AuthEnv {
    Staging,
    Prod,
}

impl AuthEnv {
    /// The name of the environment.
    pub open spec fn name(self) -> Seq<char> {
        match self {
            AuthEnv::Staging => "staging"@,
            AuthEnv::Prod => "prod"@,
        }
    }

    /// The address of its auth worker.
    pub open spec fn base(self) -> Seq<char> {
        match self {
            AuthEnv::Staging => "https://auth-staging.ippoan.org"@,
            AuthEnv::Prod => "https://auth.ippoan.org"@,
        }
    }

    /// The host of its relay.
    pub open spec fn relay(self) -> Seq<char> {
        match self {
            AuthEnv::Staging => "mcp-staging.ippoan.org"@,
            AuthEnv::Prod => "mcp.ippoan.org"@,
        }
    }

    /// The name of the environment.
    pub fn as_str(&self) -> (name: &'static str)
        ensures
            name@ == self.name(),
    {
        match self {
            AuthEnv::Staging => "staging",
            AuthEnv::Prod => "prod",
        }
    }

    /// The address of its auth worker.
    pub fn default_base(&self) -> (base: &'static str)
        ensures
            base@ == self.base(),
    {
        match self {
            AuthEnv::Staging => "https://auth-staging.ippoan.org",
            AuthEnv::Prod => "https://auth.ippoan.org",
        }
    }

    /// The host of its relay.
    pub fn relay_host(&self) -> (host: &'static str)
        ensures
            host@ == self.relay(),
    {
        match self {
            AuthEnv::Staging => "mcp-staging.ippoan.org",
            AuthEnv::Prod => "mcp.ippoan.org",
        }
    }
}

/// The configuration of a run.
#[derive(Debug, Clone)]
pub struct Config {
    pub env: AuthEnv,
    pub auth_base: String,
    /// The secret with which the auth worker's introspection is asked.
    pub internal_shared_secret: String,
    /// The client id of the device flow.
    pub client_id: String,
    /// The scope that a token is asked for.
    pub scope: String,
}

/// The name of the file that keeps the token of an environment.
pub open spec fn token_cache_name(env: AuthEnv) -> Seq<char> {
    "token-"@ + env.name() + ".json"@
}

/// The path of the file that keeps a token: a directory, and a name in it.
#[derive(Debug)]
pub struct TokenCachePath<D> {
    pub dir: D,
    pub file_name: String,
}

impl<D> View for TokenCachePath<D> {
    type V = (D, Seq<char>);

    open spec fn view(&self) -> (D, Seq<char>) {
        (self.dir, self.file_name@)
    }
}

/// Where the token of an environment is kept, under a directory.
pub open spec fn token_cache_place<D>(env: AuthEnv, dir: D) -> (D, Seq<char>) {
    (dir, token_cache_name(env))
}

/// Where a login's relay is connected to.
pub open spec fn relay_connect_url(env: AuthEnv, login: Seq<char>) -> Seq<char> {
    "wss://"@ + env.relay() + "/u/"@ + login + "/connect"@
}

impl Config {
    /// `<auth_base><path>`, with one slash between them. `path` starts with it.
    pub fn url(&self, path: &str) -> (url: String)
        requires
            path@.len() > 0,
            path@[0] == '/',
        ensures
            url@ == trim_end_slashes(self.auth_base@) + path@,
    {
        concat2(without_end_slashes(self.auth_base.as_str()), path)
    }

    /// The name of the file that keeps the token.
    pub fn token_cache_file_name(&self) -> (name: String)
        ensures
            name@ == token_cache_name(self.env),
    {
        concat3("token-", self.env.as_str(), ".json")
    }

    /// Where the token is kept, under the directory `dir` for the program's
    /// configuration.
    pub fn token_cache_path<D>(&self, dir: D) -> (path: TokenCachePath<D>)
        ensures
            path@ == token_cache_place(self.env, dir),
    {
        TokenCachePath { dir, file_name: self.token_cache_file_name() }
    }

    /// Where the relay of `login` connects to.
    pub fn relay_ws_connect_url(&self, login: &str) -> (url: String)
        ensures
            url@ == relay_connect_url(self.env, login@),
    {
        let mut url: String = concat3("wss://", self.env.relay_host(), "/u/");
        url.append(login);
        url.append("/connect");
        url
    }

    /// Where an MCP client reaches the relay of `login`.
    pub fn relay_public_url(&self, login: &str) -> (url: String)
        ensures
            url@ == "https://"@ + self.env.relay() + "/u/"@ + login@ + "/mcp"@,
    {
        let mut url: String = concat3("https://", self.env.relay_host(), "/u/");
        url.append(login);
        url.append("/mcp");
        url
    }
}

// ---------------------------------------------------------------------------
// From the command line
// ---------------------------------------------------------------------------

/// The client id where none is given.
pub fn default_client_id() -> (id: &'static str)
    ensures
        id@ == "github-mcp-server-rs"@,
{
    "github-mcp-server-rs"
}

/// The scope where none is given.
pub fn default_scope() -> (scope: &'static str)
    ensures
        scope@ == "mcp.read mcp.write"@,
{
    "mcp.read mcp.write"
}

/// What the program is asked to do.
#[derive(Copy, Clone, Debug, PartialEq, Eq, Structural)]
pub enum Command {
    /// Run the device flow and keep the token.
    Auth,
    /// Say whom the token belongs to.
    Whoami,
    /// Forget the token.
    Logout,
    /// Show the configuration.
    Doctor,
}

/// The command line.
#[derive(Debug)]
pub struct Cli {
    pub env: AuthEnv,
    /// An auth worker other than that of the environment.
    pub auth_base: Option<String>,
    pub internal_shared_secret: Option<String>,
    pub client_id: String,
    pub scope: String,
    pub command: Command,
}

/// A text that says something: one that is there and not empty.
pub open spec fn says(text: Option<String>) -> bool {
    text is Some && text->0@.len() > 0
}

/// The secret to use: that of the command line, else that of the process
/// environment, else that of the build, else one for development that no real
/// auth worker takes. An empty one counts as none.
pub open spec fn internal_secret(
    flag: Option<String>,
    variable: Option<String>,
    embedded: Seq<char>,
) -> Seq<char> {
    if says(flag) {
        flag->0@
    } else if says(variable) {
        variable->0@
    } else if embedded.len() > 0 {
        embedded
    } else {
        "dev-secret-do-not-use"@
    }
}

/// The secret to use.
pub fn resolve_internal_secret(
    flag: &Option<String>,
    variable: &Option<String>,
    embedded: &str,
) -> (secret: String)
    ensures
        secret@ == internal_secret(*flag, *variable, embedded@),
{
    match flag {
        Some(secret) => if !secret.as_str().is_empty() {
            return secret.clone();
        },
        None => {},
    }
    match variable {
        Some(secret) => if !secret.as_str().is_empty() {
            return secret.clone();
        },
        None => {},
    }
    if !embedded.is_empty() {
        embedded.to_owned()
    } else {
        "dev-secret-do-not-use".to_owned()
    }
}

/// The configuration that a command line asks for. `variable` is the secret of
/// the process environment and `embedded` that of the build.
pub fn build_config(cli: &Cli, variable: &Option<String>, embedded: &str) -> (config: Config)
    ensures
        config.env == cli.env,
        config.auth_base@ == (match cli.auth_base {
            Some(base) => base@,
            None => cli.env.base(),
        }),
        config.internal_shared_secret@ == internal_secret(
            cli.internal_shared_secret,
            *variable,
            embedded@,
        ),
        config.client_id@ == cli.client_id@,
        config.scope@ == cli.scope@,
{
    let auth_base: String = match &cli.auth_base {
        Some(base) => base.clone(),
        None => cli.env.default_base().to_owned(),
    };
    Config {
        env: cli.env,
        auth_base,
        internal_shared_secret: resolve_internal_secret(
            &cli.internal_shared_secret,
            variable,
            embedded,
        ),
        client_id: cli.client_id.clone(),
        scope: cli.scope.clone(),
    }
}

// ---------------------------------------------------------------------------
// Laws
// ---------------------------------------------------------------------------

/// Each environment keeps its token in a file of its own.
pub proof fn environments_keep_tokens_apart(a: AuthEnv, b: AuthEnv)
    ensures
        token_cache_name(a) == token_cache_name(b) <==> a == b,
{
    reveal_strlit("token-");
    reveal_strlit("staging");
    reveal_strlit("prod");
    reveal_strlit(".json");
    if a != b {
        assert(token_cache_name(AuthEnv::Staging)[6] == 's');
        assert(token_cache_name(AuthEnv::Prod)[6] == 'p');
    }
}

/// Under one directory two configurations keep their tokens in one place
/// exactly where they have one environment, whatever else they hold; the
/// directory is the same in any case, and the file is named for the environment.
pub proof fn token_caches_follow_the_environment<D>(a: Config, b: Config, dir: D)
    ensures
        token_cache_place(a.env, dir) == token_cache_place(b.env, dir) <==> a.env == b.env,
        token_cache_place(a.env, dir).0 == token_cache_place(b.env, dir).0,
        a.env == AuthEnv::Staging ==> token_cache_place(a.env, dir).1 == "token-staging.json"@,
        a.env == AuthEnv::Prod ==> token_cache_place(a.env, dir).1 == "token-prod.json"@,
{
    environments_keep_tokens_apart(a.env, b.env);
    reveal_strlit("token-");
    reveal_strlit("staging");
    reveal_strlit("prod");
    reveal_strlit(".json");
    reveal_strlit("token-staging.json");
    reveal_strlit("token-prod.json");
    assert(token_cache_name(AuthEnv::Staging) =~= "token-staging.json"@);
    assert(token_cache_name(AuthEnv::Prod) =~= "token-prod.json"@);
}

/// There is always a secret to ask the auth worker with.
pub proof fn there_is_always_a_secret(
    flag: Option<String>,
    variable: Option<String>,
    embedded: Seq<char>,
)
    ensures
        internal_secret(flag, variable, embedded).len() > 0,
{
    reveal_strlit("dev-secret-do-not-use");
}

/// A secret on the command line wins over one in the process environment, and
/// that over the one of the build.
pub proof fn nearer_secrets_win(flag: Option<String>, variable: Option<String>, embedded: Seq<char>)
    ensures
        says(flag) ==> internal_secret(flag, variable, embedded) == flag->0@,
        !says(flag) && says(variable) ==> internal_secret(flag, variable, embedded)
            == variable->0@,
        !says(flag) && !says(variable) && embedded.len() > 0 ==> internal_secret(
            flag,
            variable,
            embedded,
        ) == embedded,
{
}

/// Slashes at the end of a base address make no difference to the addresses
/// under it.
pub proof fn end_slashes_make_no_difference(base: Seq<char>)
    ensures
        trim_end_slashes(base.push('/')) == trim_end_slashes(base),
{
    assert(base.push('/').drop_last() =~= base);
}

/// A search that finds nothing before `k` may as well start there.
proof fn lemma_find_skips(text: Seq<char>, pattern: Seq<char>, from: int, k: int)
    requires
        0 <= from <= k,
        k + pattern.len() <= text.len(),
        forall|i: int|
            from <= i < k ==> #[trigger] text.subrange(i, i + pattern.len()) != pattern,
    ensures
        find_from(text, pattern, from) == find_from(text, pattern, k),
    decreases k - from,
{
    if from < k {
        assert(text.subrange(from, from + pattern.len()) != pattern);
        lemma_find_skips(text, pattern, from + 1, k);
    }
}

/// What a search finds stands there, at or after its start.
proof fn lemma_find_sound(text: Seq<char>, pattern: Seq<char>, from: int)
    requires
        0 <= from,
    ensures
        find_from(text, pattern, from) matches Some(i) ==> from <= i && i + pattern.len()
            <= text.len() && text.subrange(i, i + pattern.len()) == pattern,
    decreases text.len() - from + 1,
{
    if from + pattern.len() <= text.len() && text.subrange(from, from + pattern.len()) != pattern {
        lemma_find_sound(text, pattern, from + 1);
    }
}

/// The host of an address `scheme://host/path` is its host.
proof fn lemma_url_host(scheme: Seq<char>, host: Seq<char>, path: Seq<char>)
    requires
        forall|i: int| 0 <= i < scheme.len() ==> #[trigger] scheme[i] != ':',
        forall|i: int| 0 <= i < host.len() ==> #[trigger] host[i] != ':' && host[i] != '/',
        path.len() > 0,
        path[0] == '/',
    ensures
        url_host(scheme + "://"@ + host + path) == host,
{
    reveal_strlit("://");
    reveal_strlit("/");
    let url = scheme + "://"@ + host + path;
    let mark = "://"@;
    let slash = "/"@;
    let n = scheme.len() as int;
    assert forall|i: int| 0 <= i < n implies #[trigger] url.subrange(i, i + 3) != mark by {
        assert(url.subrange(i, i + 3)[0] == scheme[i]);
    }
    lemma_find_skips(url, mark, 0, n);
    assert(url.subrange(n, n + 3) =~= mark);
    let rest = host + path;
    assert(url.skip(n + 3) =~= rest);
    let m = host.len() as int;
    let piece = before(rest, mark);
    lemma_find_sound(rest, mark, 0);
    match find_from(rest, mark, 0) {
        Some(p) => {
            assert(rest.subrange(p, p + 3)[0] == ':');
            assert(p > m) by {
                if p < m {
                    assert(rest[p] == host[p]);
                } else if p == m {
                    assert(rest[p] == path[0]);
                }
            }
            assert(piece == rest.take(p));
        },
        None => {
            assert(piece == rest);
        },
    }
    assert(piece.len() > m);
    assert(forall|i: int| 0 <= i <= m ==> piece[i] == rest[i]);
    assert forall|i: int| 0 <= i < m implies #[trigger] piece.subrange(i, i + 1) != slash by {
        assert(piece.subrange(i, i + 1)[0] == host[i]);
    }
    lemma_find_skips(piece, slash, 0, m);
    assert(piece.subrange(m, m + 1) =~= slash) by {
        assert(piece[m] == path[0]);
    }
    assert(piece.take(m) =~= host);
}

/// Whoever logs in, the relay connects to the host of its environment.
pub proof fn relay_connects_to_its_host(env: AuthEnv, login: Seq<char>)
    ensures
        url_host(relay_connect_url(env, login)) == env.relay(),
{
    reveal_strlit("wss://");
    reveal_strlit("wss");
    reveal_strlit("://");
    reveal_strlit("/u/");
    reveal_strlit("mcp-staging.ippoan.org");
    reveal_strlit("mcp.ippoan.org");
    let path = "/u/"@ + login + "/connect"@;
    lemma_url_host("wss"@, env.relay(), path);
    assert(relay_connect_url(env, login) =~= "wss"@ + "://"@ + env.relay() + path);
}

/// A secret that is given and not empty is used as it is; the command line comes
/// before the process environment and that before the build. Without any of them
/// the one for development is used.
pub proof fn secrets_are_used_as_they_are(flag: String, variable: String, embedded: Seq<char>)
    ensures
        flag@.len() > 0 ==> internal_secret(Some(flag), Some(variable), embedded) == flag@
            && internal_secret(Some(flag), None, embedded) == flag@,
        variable@.len() > 0 ==> internal_secret(None, Some(variable), embedded) == variable@,
        flag@.len() == 0 ==> internal_secret(Some(flag), Some(variable), embedded)
            == internal_secret(None, Some(variable), embedded),
        variable@.len() == 0 ==> internal_secret(None, Some(variable), embedded)
            == internal_secret(None, None, embedded),
        embedded.len() > 0 ==> internal_secret(None, None, embedded) == embedded,
        internal_secret(None, None, Seq::empty()) == "dev-secret-do-not-use"@,
{
}

/// Whoever logs in, the relay connects under their own login and no other's.
pub proof fn relays_connect_under_their_login(env: AuthEnv, login: Seq<char>, other: Seq<char>)
    ensures
        relay_connect_url(env, login) == "wss://"@ + env.relay() + "/u/"@ + login + "/connect"@,
        relay_connect_url(env, login) == relay_connect_url(env, other) <==> login == other,
{
    let n = ("wss://"@ + env.relay() + "/u/"@).len() as int;
    let a = relay_connect_url(env, login);
    let b = relay_connect_url(env, other);
    assert(a.subrange(n, n + login.len()) =~= login);
    assert(b.subrange(n, n + other.len()) =~= other);
    assert(a.len() == n + login.len() + "/connect"@.len());
    assert(b.len() == n + other.len() + "/connect"@.len());
}

/// A base address that does not end in a slash is kept as it is.
pub proof fn plain_bases_are_kept(base: Seq<char>)
    requires
        base.len() > 0 ==> base[base.len() - 1] != '/',
    ensures
        trim_end_slashes(base) == base,
{
}

/// The place of a token is its directory and its name.
pub proof fn places_are_directory_and_name<D>(path: TokenCachePath<D>)
    ensures
        path@.0 == path.dir,
        path@.1 == path.file_name@,
{
}

} // verus!
