//! The outbound relay: one WebSocket to the auth worker, over which requests
//! come in.
//!
//! The wire carries one request and one response per frame. The loop around a
//! session reconnects sparingly: after the first clean close it waits and tries
//! once more, after the second in a row it ends; after three network errors in
//! a row it fails.
use vstd::arithmetic::power2::pow2;
use vstd::prelude::*;
use vstd::utf8::{encode_utf8, is_char_boundary};

use crate::console::{lines_view, no_lines, say, warn, Line, LineView};
use crate::text::{
    after, before, byte_len, byte_prefix, concat2, concat3, cut_after, cut_before, decimal,
    decimal_text, lemma_utf8_prefix, texts_are_cut_at_the_first_place, utf8_prefix,
};

verus! {

// ---------------------------------------------------------------------------
// Errors
// ---------------------------------------------------------------------------

/// Why a session ended other than cleanly.
#[derive(Debug)]
pub enum RelayError {
    /// The peer refused the token: it may be refreshed.
    AuthRejected,
    /// The network or the handshake failed: it may be tried again.
    Network(String),
    /// The peer speaks another protocol: trying again does not help.
    Protocol(String),
    /// Something that only a restart can mend.
    Fatal(String),
}

/// A session's error as contracts speak of it.
pub enum RelayErrorView {
    AuthRejected,
    Network(Seq<char>),
    Protocol(Seq<char>),
    Fatal(Seq<char>),
}

impl View for RelayError {
    type V = RelayErrorView;

    open spec fn view(&self) -> RelayErrorView {
        match self {
            RelayError::AuthRejected => RelayErrorView::AuthRejected,
            RelayError::Network(cause) => RelayErrorView::Network(cause@),
            RelayError::Protocol(cause) => RelayErrorView::Protocol(cause@),
            RelayError::Fatal(cause) => RelayErrorView::Fatal(cause@),
        }
    }
}

impl RelayErrorView {
    /// The error in words.
    pub open spec fn text(self) -> Seq<char> {
        match self {
            RelayErrorView::AuthRejected => "auth rejected (401)"@,
            RelayErrorView::Network(cause) => "network: "@ + cause,
            RelayErrorView::Protocol(cause) => "protocol: "@ + cause,
            RelayErrorView::Fatal(cause) => "fatal: "@ + cause,
        }
    }
}

impl RelayError {
    /// The error in words.
    pub fn message(&self) -> (text: String)
        ensures
            text@ == self@.text(),
    {
        match self {
            RelayError::AuthRejected => "auth rejected (401)".to_owned(),
            RelayError::Network(cause) => concat2("network: ", cause.as_str()),
            RelayError::Protocol(cause) => concat2("protocol: ", cause.as_str()),
            RelayError::Fatal(cause) => concat2("fatal: ", cause.as_str()),
        }
    }
}

// ---------------------------------------------------------------------------
// When to reconnect
// ---------------------------------------------------------------------------

/// Seconds between a clean close and the one attempt to reconnect.
pub const RECONNECT_COOLDOWN: u64 = 5;

/// The number of network errors in a row at which the relay gives up.
pub const MAX_NETWORK_RETRIES: u32 = 3;

/// What the loop does next.
#[derive(Debug, PartialEq, Eq, Structural)]
pub enum LoopAction {
    /// Wait so many seconds, then connect.
    Reconnect(u64),
    /// Connect at once.
    ReconnectImmediate,
    /// End; a later session starts the relay again.
    ExitOk,
    /// Fail.
    ExitErr,
}

/// How a session ended, as far as reconnecting goes.
#[derive(Debug, Clone, Copy, PartialEq, Eq, Structural)]
pub enum LoopEvent {
    CleanClose,
    AuthRejected,
    NetworkError,
}

/// The events in a row that the loop counts.
#[derive(Debug)]
pub struct LoopState {
    pub clean_close_streak: u32,
    pub network_error_streak: u32,
}

/// The counts as contracts speak of them.
pub struct Streaks {
    pub clean_close: nat,
    pub network_error: nat,
}

impl View for LoopState {
    type V = Streaks;

    open spec fn view(&self) -> Streaks {
        Streaks {
            clean_close: self.clean_close_streak as nat,
            network_error: self.network_error_streak as nat,
        }
    }
}

impl Streaks {
    /// Nothing has happened yet.
    pub open spec fn none() -> Streaks {
        Streaks { clean_close: 0, network_error: 0 }
    }

    /// The counts after one event more: its own grows, the other starts again.
    pub open spec fn after_event(self, event: LoopEvent) -> Streaks {
        match event {
            LoopEvent::CleanClose => Streaks {
                clean_close: self.clean_close + 1,
                network_error: 0,
            },
            LoopEvent::AuthRejected => Streaks::none(),
            LoopEvent::NetworkError => Streaks {
                clean_close: 0,
                network_error: self.network_error + 1,
            },
        }
    }

    /// What the loop does when `event` has brought the counts to these.
    pub open spec fn action(self, event: LoopEvent) -> LoopAction {
        match event {
            LoopEvent::CleanClose => if self.clean_close >= 2 {
                LoopAction::ExitOk
            } else {
                LoopAction::Reconnect(RECONNECT_COOLDOWN)
            },
            LoopEvent::AuthRejected => LoopAction::ReconnectImmediate,
            LoopEvent::NetworkError => if self.network_error >= MAX_NETWORK_RETRIES {
                LoopAction::ExitErr
            } else {
                LoopAction::Reconnect(pow2((self.network_error - 1) as nat) as u64)
            },
        }
    }
}

impl Default for LoopState {
    fn default() -> (state: Self)
        ensures
            state@ == Streaks::none(),
    {
        LoopState { clean_close_streak: 0, network_error_streak: 0 }
    }
}

impl LoopState {
    /// The session was closed cleanly.
    pub fn on_clean_close(&mut self) -> (action: LoopAction)
        requires
            old(self).clean_close_streak < u32::MAX,
        ensures
            final(self)@ == old(self)@.after_event(LoopEvent::CleanClose),
            action == final(self)@.action(LoopEvent::CleanClose),
    {
        self.clean_close_streak = self.clean_close_streak + 1;
        self.network_error_streak = 0;
        if self.clean_close_streak >= 2 {
            LoopAction::ExitOk
        } else {
            LoopAction::Reconnect(RECONNECT_COOLDOWN)
        }
    }

    /// The token was refused, and has been refreshed.
    pub fn on_auth_rejected(&mut self) -> (action: LoopAction)
        ensures
            final(self)@ == old(self)@.after_event(LoopEvent::AuthRejected),
            action == final(self)@.action(LoopEvent::AuthRejected),
    {
        self.clean_close_streak = 0;
        self.network_error_streak = 0;
        LoopAction::ReconnectImmediate
    }

    /// The network failed.
    pub fn on_network_error(&mut self) -> (action: LoopAction)
        requires
            old(self).network_error_streak < u32::MAX,
        ensures
            final(self)@ == old(self)@.after_event(LoopEvent::NetworkError),
            action == final(self)@.action(LoopEvent::NetworkError),
    {
        self.network_error_streak = self.network_error_streak + 1;
        self.clean_close_streak = 0;
        if self.network_error_streak >= MAX_NETWORK_RETRIES {
            LoopAction::ExitErr
        } else {
            let doublings: u32 = self.network_error_streak - 1;
            proof {
                vstd::arithmetic::power2::lemma2_to64();
                assert(1u64 << 0u32 == 1u64) by (bit_vector);
                assert(1u64 << 1u32 == 2u64) by (bit_vector);
            }
            LoopAction::Reconnect(1u64 << doublings)
        }
    }
}

// ---------------------------------------------------------------------------
// The loop around the sessions
// ---------------------------------------------------------------------------

/// Why the relay fails.
#[derive(Debug)]
pub enum RelayFailure {
    /// The token could not be refreshed, for this reason.
    Refresh(String),
    /// Too many network errors in a row, this one the last.
    Network(String),
    /// The peer speaks another protocol.
    Protocol(String),
    /// Something that only a restart can mend.
    Fatal(String),
}

/// The relay's failure as contracts speak of it.
pub enum RelayFailureView {
    Refresh(Seq<char>),
    Network(Seq<char>),
    Protocol(Seq<char>),
    Fatal(Seq<char>),
}

impl View for RelayFailure {
    type V = RelayFailureView;

    open spec fn view(&self) -> RelayFailureView {
        match self {
            RelayFailure::Refresh(cause) => RelayFailureView::Refresh(cause@),
            RelayFailure::Network(cause) => RelayFailureView::Network(cause@),
            RelayFailure::Protocol(cause) => RelayFailureView::Protocol(cause@),
            RelayFailure::Fatal(cause) => RelayFailureView::Fatal(cause@),
        }
    }
}

impl RelayFailureView {
    /// The failure in words; the reason why a refresh failed stands apart.
    pub open spec fn text(self) -> Seq<char> {
        match self {
            RelayFailureView::Refresh(_) => "JWT refresh"@,
            RelayFailureView::Network(last) => "relay: "@ + decimal(MAX_NETWORK_RETRIES as nat)
                + " consecutive network errors, last: "@ + last,
            RelayFailureView::Protocol(cause) => "relay protocol error: "@ + cause,
            RelayFailureView::Fatal(cause) => "relay fatal: "@ + cause,
        }
    }
}

impl RelayFailure {
    /// The failure in words; the reason why a refresh failed stands apart.
    pub fn message(&self) -> (text: String)
        ensures
            text@ == self@.text(),
    {
        match self {
            RelayFailure::Refresh(_) => "JWT refresh".to_owned(),
            RelayFailure::Network(last) => {
                let mut text: String = concat3(
                    "relay: ",
                    decimal_text(MAX_NETWORK_RETRIES as u64).as_str(),
                    " consecutive network errors, last: ",
                );
                text.append(last.as_str());
                text
            },
            RelayFailure::Protocol(cause) => concat2("relay protocol error: ", cause.as_str()),
            RelayFailure::Fatal(cause) => concat2("relay fatal: ", cause.as_str()),
        }
    }
}

/// What happened to the relay.
#[derive(Debug)]
pub enum RelayEvent {
    /// A session ended.
    SessionEnded(Result<(), RelayError>),
    /// The token has been refreshed.
    JwtRefreshed,
    /// The token could not be refreshed, for this reason.
    JwtRefreshFailed(String),
}

/// What happened to the relay, as contracts speak of it.
pub enum RelayEventView {
    Closed,
    Failed(RelayErrorView),
    Refreshed,
    RefreshFailed(Seq<char>),
}

impl View for RelayEvent {
    type V = RelayEventView;

    open spec fn view(&self) -> RelayEventView {
        match self {
            RelayEvent::SessionEnded(Ok(_)) => RelayEventView::Closed,
            RelayEvent::SessionEnded(Err(error)) => RelayEventView::Failed(error@),
            RelayEvent::JwtRefreshed => RelayEventView::Refreshed,
            RelayEvent::JwtRefreshFailed(cause) => RelayEventView::RefreshFailed(cause@),
        }
    }
}

/// What the relay is to do next.
#[derive(Debug)]
pub enum RelayCommand {
    /// Start a session.
    Connect,
    /// Wait so many seconds, then start a session.
    ConnectAfter(u64),
    /// Refresh the token.
    RefreshJwt,
    /// End the relay.
    Finish,
    /// End the relay with a failure.
    Fail(RelayFailure),
}

/// What the relay is to do next, as contracts speak of it.
pub enum RelayCommandView {
    Connect,
    ConnectAfter(nat),
    RefreshJwt,
    Finish,
    Fail(RelayFailureView),
}

impl View for RelayCommand {
    type V = RelayCommandView;

    open spec fn view(&self) -> RelayCommandView {
        match self {
            RelayCommand::Connect => RelayCommandView::Connect,
            RelayCommand::ConnectAfter(seconds) => RelayCommandView::ConnectAfter(*seconds as nat),
            RelayCommand::RefreshJwt => RelayCommandView::RefreshJwt,
            RelayCommand::Finish => RelayCommandView::Finish,
            RelayCommand::Fail(failure) => RelayCommandView::Fail(failure@),
        }
    }
}

impl RelayCommandView {
    /// The relay goes on.
    pub open spec fn goes_on(self) -> bool {
        !(self is Finish) && !(self is Fail)
    }
}

/// What the relay is to do next, and what it tells its user.
#[derive(Debug)]
pub struct RelayStep {
    pub command: RelayCommand,
    pub lines: Vec<Line>,
}

/// The loop around the sessions.
#[derive(Debug)]
pub struct RelayLoop {
    state: LoopState,
    first_success_announced: bool,
    connected_before: bool,
}

/// The loop as contracts speak of it.
pub struct RelayLoopView {
    pub streaks: Streaks,
    /// The user has been told of the first session.
    pub announced: bool,
    /// A session has connected.
    pub connected: bool,
}

impl View for RelayLoop {
    type V = RelayLoopView;

    closed spec fn view(&self) -> RelayLoopView {
        RelayLoopView {
            streaks: self.state@,
            announced: self.first_success_announced,
            connected: self.connected_before,
        }
    }
}

impl RelayLoopView {
    /// Before the first session.
    pub open spec fn start() -> RelayLoopView {
        RelayLoopView { streaks: Streaks::none(), announced: false, connected: false }
    }

    /// The loop has not come to its end: no count has reached its limit.
    pub open spec fn running(self) -> bool {
        self.streaks.clean_close < 2 && self.streaks.network_error < MAX_NETWORK_RETRIES
    }
}

/// The line that tells of a clean close.
pub open spec fn clean_close_line(streaks: Streaks) -> Seq<char> {
    match streaks.action(LoopEvent::CleanClose) {
        LoopAction::Reconnect(seconds) => "✓ MCP relay: connection closed cleanly, reconnecting in "@
            + decimal(seconds as nat) + "s"@,
        _ => "✓ MCP relay: clean close x"@ + decimal(streaks.clean_close)
            + " — exiting (install-mcp.sh respawns next session)"@,
    }
}

/// The line that tells of a network error after which the relay tries again.
pub open spec fn network_error_line(cause: Seq<char>, seconds: nat, streaks: Streaks) -> Seq<char> {
    "⚠ MCP relay: network error ("@ + cause + "), retry in "@ + decimal(seconds) + "s ("@ + decimal(
        streaks.network_error,
    ) + "/"@ + decimal(MAX_NETWORK_RETRIES as nat) + ")"@
}

/// The lines that a clean close brings.
pub open spec fn clean_close_lines(announced: bool, streaks: Streaks) -> Seq<LineView> {
    let close = LineView::Notice(clean_close_line(streaks));
    if announced {
        seq![close]
    } else {
        seq![LineView::Notice("✓ MCP relay: connected (first session)"@), close]
    }
}

/// Lines where the user wants them.
pub open spec fn shown(print: bool, lines: Seq<LineView>) -> Seq<LineView> {
    if print {
        lines
    } else {
        Seq::empty()
    }
}

/// The loop after an event.
pub open spec fn relay_after(
    relay: RelayLoopView,
    event: RelayEventView,
    print: bool,
) -> RelayLoopView {
    match event {
        RelayEventView::Closed => RelayLoopView {
            streaks: relay.streaks.after_event(LoopEvent::CleanClose),
            announced: relay.announced || print,
            ..relay
        },
        RelayEventView::Failed(RelayErrorView::Network(_)) => RelayLoopView {
            streaks: relay.streaks.after_event(LoopEvent::NetworkError),
            ..relay
        },
        RelayEventView::Refreshed => RelayLoopView {
            streaks: relay.streaks.after_event(LoopEvent::AuthRejected),
            ..relay
        },
        _ => relay,
    }
}

/// What the loop does upon an event.
pub open spec fn relay_command(relay: RelayLoopView, event: RelayEventView) -> RelayCommandView {
    match event {
        RelayEventView::Closed => match relay.streaks.after_event(LoopEvent::CleanClose).action(
            LoopEvent::CleanClose,
        ) {
            LoopAction::Reconnect(seconds) => RelayCommandView::ConnectAfter(seconds as nat),
            _ => RelayCommandView::Finish,
        },
        RelayEventView::Failed(RelayErrorView::AuthRejected) => RelayCommandView::RefreshJwt,
        RelayEventView::Failed(RelayErrorView::Network(cause)) => match relay.streaks.after_event(
            LoopEvent::NetworkError,
        ).action(LoopEvent::NetworkError) {
            LoopAction::Reconnect(seconds) => RelayCommandView::ConnectAfter(seconds as nat),
            _ => RelayCommandView::Fail(RelayFailureView::Network(cause)),
        },
        RelayEventView::Failed(RelayErrorView::Protocol(cause)) => RelayCommandView::Fail(
            RelayFailureView::Protocol(cause),
        ),
        RelayEventView::Failed(RelayErrorView::Fatal(cause)) => RelayCommandView::Fail(
            RelayFailureView::Fatal(cause),
        ),
        RelayEventView::Refreshed => RelayCommandView::Connect,
        RelayEventView::RefreshFailed(cause) => RelayCommandView::Fail(
            RelayFailureView::Refresh(cause),
        ),
    }
}

/// What the loop tells its user upon an event, where the user wants it.
pub open spec fn relay_lines(relay: RelayLoopView, event: RelayEventView) -> Seq<LineView> {
    match event {
        RelayEventView::Closed => clean_close_lines(
            relay.announced,
            relay.streaks.after_event(LoopEvent::CleanClose),
        ),
        RelayEventView::Failed(RelayErrorView::AuthRejected) => seq![
            LineView::Warning("⚠ MCP relay: WS handshake rejected (401), refreshing JWT"@),
        ],
        RelayEventView::Failed(RelayErrorView::Network(cause)) => match relay_command(
            relay,
            event,
        ) {
            RelayCommandView::ConnectAfter(seconds) => seq![
                LineView::Warning(
                    network_error_line(
                        cause,
                        seconds,
                        relay.streaks.after_event(LoopEvent::NetworkError),
                    ),
                ),
            ],
            _ => Seq::empty(),
        },
        _ => Seq::empty(),
    }
}

impl RelayLoop {
    /// A loop before its first session.
    pub fn new() -> (relay: RelayLoop)
        ensures
            relay@ == RelayLoopView::start(),
            relay@.running(),
    {
        RelayLoop {
            state: LoopState::default(),
            first_success_announced: false,
            connected_before: false,
        }
    }

    /// How many network errors the last sessions ended with, in a row.
    pub fn network_error_streak(&self) -> (n: u32)
        ensures
            n == self@.streaks.network_error,
    {
        self.state.network_error_streak
    }

    /// A session has connected. Says whether the public address is to be left in
    /// the state directory: upon the first connection, where there is such a
    /// directory.
    pub fn on_connected(&mut self, has_state_dir: bool) -> (leaves_public_url: bool)
        ensures
            leaves_public_url == (has_state_dir && !old(self)@.connected),
            final(self)@ == (RelayLoopView { connected: true, ..old(self)@ }),
    {
        let first: bool = !self.connected_before;
        self.connected_before = true;
        has_state_dir && first
    }

    /// Takes an event in and says what comes next. A loop that goes on is
    /// ready for the next event.
    pub fn step(&mut self, event: RelayEvent, print_status: bool) -> (step: RelayStep)
        requires
            old(self)@.running(),
        ensures
            final(self)@ == relay_after(old(self)@, event@, print_status),
            step.command@ == relay_command(old(self)@, event@),
            lines_view(step.lines@) == shown(print_status, relay_lines(old(self)@, event@)),
            step.command@.goes_on() ==> final(self)@.running(),
    {
        let mut lines: Vec<Line> = no_lines();
        let command: RelayCommand = match event {
            RelayEvent::SessionEnded(Ok(_)) => {
                if print_status && !self.first_success_announced {
                    say(&mut lines, "✓ MCP relay: connected (first session)".to_owned());
                    self.first_success_announced = true;
                }
                let action: LoopAction = self.state.on_clean_close();
                match action {
                    LoopAction::Reconnect(seconds) => {
                        if print_status {
                            say(
                                &mut lines,
                                concat3(
                                    "✓ MCP relay: connection closed cleanly, reconnecting in ",
                                    decimal_text(seconds).as_str(),
                                    "s",
                                ),
                            );
                        }
                        RelayCommand::ConnectAfter(seconds)
                    },
                    _ => {
                        if print_status {
                            say(
                                &mut lines,
                                concat3(
                                    "✓ MCP relay: clean close x",
                                    decimal_text(self.state.clean_close_streak as u64).as_str(),
                                    " — exiting (install-mcp.sh respawns next session)",
                                ),
                            );
                        }
                        RelayCommand::Finish
                    },
                }
            },
            RelayEvent::SessionEnded(Err(RelayError::AuthRejected)) => {
                if print_status {
                    warn(
                        &mut lines,
                        "⚠ MCP relay: WS handshake rejected (401), refreshing JWT".to_owned(),
                    );
                }
                RelayCommand::RefreshJwt
            },
            RelayEvent::SessionEnded(Err(RelayError::Network(cause))) => {
                let action: LoopAction = self.state.on_network_error();
                match action {
                    LoopAction::Reconnect(seconds) => {
                        if print_status {
                            let mut text: String = concat3(
                                "⚠ MCP relay: network error (",
                                cause.as_str(),
                                "), retry in ",
                            );
                            text.append(decimal_text(seconds).as_str());
                            text.append("s (");
                            text.append(
                                decimal_text(self.state.network_error_streak as u64).as_str(),
                            );
                            text.append("/");
                            text.append(decimal_text(MAX_NETWORK_RETRIES as u64).as_str());
                            text.append(")");
                            warn(&mut lines, text);
                        }
                        RelayCommand::ConnectAfter(seconds)
                    },
                    _ => RelayCommand::Fail(RelayFailure::Network(cause)),
                }
            },
            RelayEvent::SessionEnded(Err(RelayError::Protocol(cause))) => RelayCommand::Fail(
                RelayFailure::Protocol(cause),
            ),
            RelayEvent::SessionEnded(Err(RelayError::Fatal(cause))) => RelayCommand::Fail(
                RelayFailure::Fatal(cause),
            ),
            RelayEvent::JwtRefreshed => {
                let _action: LoopAction = self.state.on_auth_rejected();
                RelayCommand::Connect
            },
            RelayEvent::JwtRefreshFailed(cause) => RelayCommand::Fail(RelayFailure::Refresh(cause)),
        };
        proof {
            assert(lines_view(lines@) =~= shown(print_status, relay_lines(old(self)@, event@)));
        }
        RelayStep { command, lines }
    }
}

/// The line that names the relay's public address.
pub fn public_url_line(public: &str) -> (line: Line)
    ensures
        line@ == LineView::Notice("⇒ MCP relay: public URL = "@ + public@),
{
    Line::Notice(concat2("⇒ MCP relay: public URL = ", public))
}

/// The line that announces a session.
pub fn connecting_line(url: &str, login: &str) -> (line: Line)
    ensures
        line@ == LineView::Notice("→ MCP relay: connecting to "@ + url@ + " as "@ + login@),
{
    let mut text: String = concat3("→ MCP relay: connecting to ", url, " as ");
    text.append(login);
    Line::Notice(text)
}

// ---------------------------------------------------------------------------
// One session
// ---------------------------------------------------------------------------

/// What a text is cut to for a log: all of it where it fits in `max` bytes,
/// else its first `max` bytes and a note of how many more there were.
pub open spec fn truncated(text: Seq<char>, max: int) -> Seq<char> {
    let n = encode_utf8(text).len();
    if n <= max {
        text
    } else {
        utf8_prefix(text, max) + "…(truncated "@ + decimal((n - max) as nat) + " chars)"@
    }
}

/// Cuts a text for a log. The cut may not fall inside a character.
pub fn truncate(text: &str, max: usize) -> (cut: String)
    requires
        encode_utf8(text@).len() <= max || is_char_boundary(encode_utf8(text@), max as int),
    ensures
        cut@ == truncated(text@, max as int),
{
    let n: usize = byte_len(text);
    if n <= max {
        text.to_owned()
    } else {
        let mut cut: String = concat3(
            byte_prefix(text, max),
            "…(truncated ",
            decimal_text((n - max) as u64).as_str(),
        );
        cut.append(" chars)");
        cut
    }
}

/// The host, with its port, of a URL: what stands between `://` and the next
/// slash.
pub open spec fn url_host(url: Seq<char>) -> Seq<char> {
    let rest = match after(url, "://"@) {
        Some(rest) => before(rest, "://"@),
        None => url,
    };
    before(rest, "/"@)
}

/// The host, with its port, of a URL.
pub fn host_from_url(url: &str) -> (host: String)
    ensures
        host@ == url_host(url@),
{
    let rest: &str = match cut_after(url, "://") {
        Some(rest) => cut_before(rest, "://"),
        None => url,
    };
    cut_before(rest, "/").to_owned()
}

/// A request that opens the WebSocket.
#[derive(Debug)]
pub struct UpgradeRequest {
    pub method: String,
    pub uri: String,
    pub headers: Vec<(String, String)>,
}

/// The names and values of headers.
pub open spec fn headers_view(headers: Seq<(String, String)>) -> Seq<(Seq<char>, Seq<char>)> {
    headers.map_values(|pair: (String, String)| (pair.0@, pair.1@))
}

fn add_header(headers: &mut Vec<(String, String)>, name: &str, value: String)
    ensures
        headers_view(final(headers)@) == headers_view(old(headers)@).push((name@, value@)),
{
    let ghost before_push = headers@;
    headers.push((name.to_owned(), value));
    proof {
        assert(headers_view(headers@) =~= headers_view(before_push).push((name@, value@)));
    }
}

/// The headers of the request that opens the WebSocket.
pub open spec fn upgrade_headers(
    url: Seq<char>,
    access_token: Seq<char>,
    key: Seq<char>,
    version: Seq<char>,
) -> Seq<(Seq<char>, Seq<char>)> {
    seq![
        ("Host"@, url_host(url)),
        ("Authorization"@, "Bearer "@ + access_token),
        ("Sec-WebSocket-Version"@, "13"@),
        ("Sec-WebSocket-Key"@, key),
        ("Connection"@, "Upgrade"@),
        ("Upgrade"@, "websocket"@),
        ("User-Agent"@, "github-mcp-server-rs/"@ + version),
    ]
}

/// The request that opens the WebSocket at `url`, with `key` chosen afresh for
/// it. `version` is the program's own.
pub fn upgrade_request(url: &str, access_token: &str, key: &str, version: &str) -> (request:
    UpgradeRequest)
    ensures
        request.method@ == "GET"@,
        request.uri@ == url@,
        headers_view(request.headers@) == upgrade_headers(url@, access_token@, key@, version@),
{
    let mut headers: Vec<(String, String)> = Vec::new();
    add_header(&mut headers, "Host", host_from_url(url));
    add_header(&mut headers, "Authorization", concat2("Bearer ", access_token));
    add_header(&mut headers, "Sec-WebSocket-Version", "13".to_owned());
    add_header(&mut headers, "Sec-WebSocket-Key", key.to_owned());
    add_header(&mut headers, "Connection", "Upgrade".to_owned());
    add_header(&mut headers, "Upgrade", "websocket".to_owned());
    add_header(&mut headers, "User-Agent", concat2("github-mcp-server-rs/", version));
    proof {
        assert(headers_view(headers@) =~= upgrade_headers(url@, access_token@, key@, version@));
    }
    UpgradeRequest { method: "GET".to_owned(), uri: url.to_owned(), headers }
}

/// What a failed handshake means; `status` is that of the HTTP answer, where
/// there was one.
pub open spec fn handshake_error(status: Option<u16>, cause: Seq<char>) -> RelayErrorView {
    if status == Some(401u16) || status == Some(403u16) {
        RelayErrorView::AuthRejected
    } else {
        RelayErrorView::Network("ws connect: "@ + cause)
    }
}

/// What a failed handshake means.
pub fn map_handshake_err(status: Option<u16>, cause: &str) -> (error: RelayError)
    ensures
        error@ == handshake_error(status, cause@),
{
    match status {
        Some(401) => RelayError::AuthRejected,
        Some(403) => RelayError::AuthRejected,
        _ => RelayError::Network(concat2("ws connect: ", cause)),
    }
}

/// The frame with which a peer closes a WebSocket.
#[derive(Debug)]
pub struct CloseFrame {
    pub code: u16,
    pub reason: String,
}

/// A close because the peer is done.
pub const CLOSE_NORMAL: u16 = 1000;

/// A close because the peer goes away.
pub const CLOSE_AWAY: u16 = 1001;

/// A close because the protocol was violated: the peer speaks another version.
pub const CLOSE_PROTOCOL: u16 = 1002;

/// A close because a policy was violated.
pub const CLOSE_POLICY: u16 = 1008;

/// The auth worker's own code for a token that it no longer takes.
pub const CLOSE_TOKEN_REFUSED: u16 = 4001;

/// A close in words.
pub open spec fn close_text(code: u16, reason: Seq<char>) -> Seq<char> {
    "ws close: code="@ + decimal(code as nat) + " reason="@ + reason
}

/// What a close means; nothing where it is a clean one.
pub open spec fn close_error(code: u16, reason: Seq<char>) -> Option<RelayErrorView> {
    if code == CLOSE_POLICY || code == CLOSE_TOKEN_REFUSED {
        Some(RelayErrorView::AuthRejected)
    } else if code == CLOSE_NORMAL || code == CLOSE_AWAY {
        None
    } else if code == CLOSE_PROTOCOL {
        Some(RelayErrorView::Protocol(close_text(code, reason)))
    } else {
        Some(RelayErrorView::Network(close_text(code, reason)))
    }
}

/// What an optional close frame means.
pub open spec fn close_meaning(frame: Option<(u16, Seq<char>)>) -> Option<RelayErrorView> {
    match frame {
        Some((code, reason)) => close_error(code, reason),
        None => None,
    }
}

/// An error, where there is one.
pub open spec fn error_view(error: Option<RelayError>) -> Option<RelayErrorView> {
    match error {
        Some(e) => Some(e@),
        None => None,
    }
}

/// A close frame, where there is one.
pub open spec fn frame_view(frame: Option<CloseFrame>) -> Option<(u16, Seq<char>)> {
    match frame {
        Some(f) => Some((f.code, f.reason@)),
        None => None,
    }
}

/// What a close means; nothing where it is a clean one.
pub fn classify_close(frame: Option<&CloseFrame>) -> (error: Option<RelayError>)
    ensures
        error_view(error) == (match frame {
            Some(f) => close_error(f.code, f.reason@),
            None => None,
        }),
{
    match frame {
        Some(f) => {
            if f.code == CLOSE_POLICY || f.code == CLOSE_TOKEN_REFUSED {
                Some(RelayError::AuthRejected)
            } else if f.code == CLOSE_NORMAL || f.code == CLOSE_AWAY {
                None
            } else {
                let mut cause: String = concat3(
                    "ws close: code=",
                    decimal_text(f.code as u64).as_str(),
                    " reason=",
                );
                cause.append(f.reason.as_str());
                if f.code == CLOSE_PROTOCOL {
                    Some(RelayError::Protocol(cause))
                } else {
                    Some(RelayError::Network(cause))
                }
            }
        },
        None => None,
    }
}

/// A message from the peer.
#[derive(Debug)]
pub enum WsMessage {
    Text(String),
    Binary,
    Ping(Vec<u8>),
    Pong,
    Close(Option<CloseFrame>),
    Frame,
}

/// How long before its end the token of a session counts as expired, in seconds.
pub const TOKEN_SKEW: u64 = 60;

/// What happened to a session.
#[derive(Debug)]
pub enum SessionEvent {
    /// It was begun.
    Started,
    /// The token has been looked at.
    TokenChecked {
        expired: bool,
    },
    /// The token has been refreshed.
    Refreshed,
    /// The token could not be refreshed, for this reason.
    RefreshFailed(String),
    /// The request could not be built, for this reason.
    RequestRefused(String),
    /// The handshake failed, with this HTTP status where there was an answer.
    HandshakeFailed {
        status: Option<u16>,
        cause: String,
    },
    /// The handshake is done.
    Connected,
    /// The greeting is on its way.
    HelloSent,
    /// The writer ended before the greeting.
    WriterClosed,
    /// The peer sent a message.
    Received(WsMessage),
    /// Reading failed, for this reason.
    ReadFailed(String),
    /// The peer sends no more.
    StreamEnded,
}

/// What happened to a session, as contracts speak of it.
pub enum SessionEventView {
    Started,
    TokenChecked { expired: bool },
    Refreshed,
    RefreshFailed(Seq<char>),
    RequestRefused(Seq<char>),
    HandshakeFailed { status: Option<u16>, cause: Seq<char> },
    Connected,
    HelloSent,
    WriterClosed,
    Text(Seq<char>),
    Ping(Seq<u8>),
    Close(Option<(u16, Seq<char>)>),
    OtherMessage,
    ReadFailed(Seq<char>),
    StreamEnded,
}

impl View for SessionEvent {
    type V = SessionEventView;

    open spec fn view(&self) -> SessionEventView {
        match self {
            SessionEvent::Started => SessionEventView::Started,
            SessionEvent::TokenChecked { expired } => SessionEventView::TokenChecked {
                expired: *expired,
            },
            SessionEvent::Refreshed => SessionEventView::Refreshed,
            SessionEvent::RefreshFailed(cause) => SessionEventView::RefreshFailed(cause@),
            SessionEvent::RequestRefused(cause) => SessionEventView::RequestRefused(cause@),
            SessionEvent::HandshakeFailed { status, cause } => SessionEventView::HandshakeFailed {
                status: *status,
                cause: cause@,
            },
            SessionEvent::Connected => SessionEventView::Connected,
            SessionEvent::HelloSent => SessionEventView::HelloSent,
            SessionEvent::WriterClosed => SessionEventView::WriterClosed,
            SessionEvent::Received(WsMessage::Text(text)) => SessionEventView::Text(text@),
            SessionEvent::Received(WsMessage::Ping(payload)) => SessionEventView::Ping(payload@),
            SessionEvent::Received(WsMessage::Close(frame)) => SessionEventView::Close(
                frame_view(*frame),
            ),
            SessionEvent::Received(_) => SessionEventView::OtherMessage,
            SessionEvent::ReadFailed(cause) => SessionEventView::ReadFailed(cause@),
            SessionEvent::StreamEnded => SessionEventView::StreamEnded,
        }
    }
}

/// What a session is to do next.
#[derive(Debug)]
pub enum SessionAction {
    /// Look whether the token ends within so many seconds.
    CheckToken(u64),
    RefreshJwt,
    OpenSocket,
    SendHello,
    /// Wait for the next message.
    ReadNext,
    /// Look into the text of a frame, then wait for the next message.
    HandleText(String),
    /// Answer a ping, then wait for the next message.
    SendPong(Vec<u8>),
    /// The session is over.
    End(Result<(), RelayError>),
}

/// What a session is to do next, as contracts speak of it.
pub enum SessionActionView {
    CheckToken(nat),
    RefreshJwt,
    OpenSocket,
    SendHello,
    ReadNext,
    HandleText(Seq<char>),
    SendPong(Seq<u8>),
    End(Option<RelayErrorView>),
}

impl View for SessionAction {
    type V = SessionActionView;

    open spec fn view(&self) -> SessionActionView {
        match self {
            SessionAction::CheckToken(skew) => SessionActionView::CheckToken(*skew as nat),
            SessionAction::RefreshJwt => SessionActionView::RefreshJwt,
            SessionAction::OpenSocket => SessionActionView::OpenSocket,
            SessionAction::SendHello => SessionActionView::SendHello,
            SessionAction::ReadNext => SessionActionView::ReadNext,
            SessionAction::HandleText(text) => SessionActionView::HandleText(text@),
            SessionAction::SendPong(payload) => SessionActionView::SendPong(payload@),
            SessionAction::End(Ok(_)) => SessionActionView::End(None),
            SessionAction::End(Err(error)) => SessionActionView::End(Some(error@)),
        }
    }
}

/// What a session does upon an event: it refreshes a token that has expired, or
/// will within a minute, opens the socket, greets, and reads; it ends at the first failure, at a
/// close, and where the peer sends no more.
pub open spec fn session_action(event: SessionEventView) -> SessionActionView {
    match event {
        SessionEventView::Started => SessionActionView::CheckToken(60),
        SessionEventView::TokenChecked { expired } => if expired {
            SessionActionView::RefreshJwt
        } else {
            SessionActionView::OpenSocket
        },
        SessionEventView::Refreshed => SessionActionView::OpenSocket,
        SessionEventView::RefreshFailed(cause) => SessionActionView::End(
            Some(RelayErrorView::Fatal(cause)),
        ),
        SessionEventView::RequestRefused(cause) => SessionActionView::End(
            Some(RelayErrorView::Network("build WS request: "@ + cause)),
        ),
        SessionEventView::HandshakeFailed { status, cause } => SessionActionView::End(
            Some(handshake_error(status, cause)),
        ),
        SessionEventView::Connected => SessionActionView::SendHello,
        SessionEventView::HelloSent => SessionActionView::ReadNext,
        SessionEventView::WriterClosed => SessionActionView::End(
            Some(RelayErrorView::Network("writer task closed before hello"@)),
        ),
        SessionEventView::Text(text) => SessionActionView::HandleText(text),
        SessionEventView::Ping(payload) => SessionActionView::SendPong(payload),
        SessionEventView::Close(frame) => SessionActionView::End(close_meaning(frame)),
        SessionEventView::OtherMessage => SessionActionView::ReadNext,
        SessionEventView::ReadFailed(cause) => SessionActionView::End(
            Some(RelayErrorView::Network("ws read: "@ + cause)),
        ),
        SessionEventView::StreamEnded => SessionActionView::End(None),
    }
}

/// What a session does upon an event.
pub fn session_step(event: SessionEvent) -> (action: SessionAction)
    ensures
        action@ == session_action(event@),
{
    match event {
        SessionEvent::Started => SessionAction::CheckToken(TOKEN_SKEW),
        SessionEvent::TokenChecked { expired } => if expired {
            SessionAction::RefreshJwt
        } else {
            SessionAction::OpenSocket
        },
        SessionEvent::Refreshed => SessionAction::OpenSocket,
        SessionEvent::RefreshFailed(cause) => SessionAction::End(Err(RelayError::Fatal(cause))),
        SessionEvent::RequestRefused(cause) => SessionAction::End(
            Err(RelayError::Network(concat2("build WS request: ", cause.as_str()))),
        ),
        SessionEvent::HandshakeFailed { status, cause } => SessionAction::End(
            Err(map_handshake_err(status, cause.as_str())),
        ),
        SessionEvent::Connected => SessionAction::SendHello,
        SessionEvent::HelloSent => SessionAction::ReadNext,
        SessionEvent::WriterClosed => SessionAction::End(
            Err(RelayError::Network("writer task closed before hello".to_owned())),
        ),
        SessionEvent::Received(WsMessage::Text(text)) => SessionAction::HandleText(text),
        SessionEvent::Received(WsMessage::Ping(payload)) => SessionAction::SendPong(payload),
        SessionEvent::Received(WsMessage::Close(frame)) => match classify_close(frame.as_ref()) {
            Some(error) => SessionAction::End(Err(error)),
            None => SessionAction::End(Ok(())),
        },
        SessionEvent::Received(_) => SessionAction::ReadNext,
        SessionEvent::ReadFailed(cause) => SessionAction::End(
            Err(RelayError::Network(concat2("ws read: ", cause.as_str()))),
        ),
        SessionEvent::StreamEnded => SessionAction::End(Ok(())),
    }
}

// ---------------------------------------------------------------------------
// Frames in and out
// ---------------------------------------------------------------------------

/// The kinds of frame on the wire.
#[derive(Debug, Clone, Copy, PartialEq, Eq, Structural)]
pub enum FrameKind {
    Req,
    Resp,
    Hello,
}

/// What is read of a frame before it is acted upon.
#[derive(Debug, Clone, Copy, PartialEq, Eq, Structural)]
pub struct FrameHeader {
    pub kind: FrameKind,
    pub version: u32,
}

/// What becomes of the text of a frame.
#[derive(Debug, Clone, Copy, PartialEq, Eq, Structural)]
pub enum TextAction {
    /// It is no frame: dropped.
    Malformed,
    /// It is of a version that is not spoken here: dropped.
    WrongVersion,
    /// It is a request: answered.
    Dispatch,
    /// It is for the other side: ignored.
    Ignore,
}

/// What becomes of the text of a frame whose header reads `header`.
pub open spec fn text_action(header: Option<FrameHeader>, supported: u32) -> TextAction {
    match header {
        None => TextAction::Malformed,
        Some(h) => if h.version != supported {
            TextAction::WrongVersion
        } else if h.kind == FrameKind::Req {
            TextAction::Dispatch
        } else {
            TextAction::Ignore
        },
    }
}

/// What becomes of the text of a frame: `header` is what was read of it, if it
/// could be read.
pub fn handle_incoming_text(header: Option<FrameHeader>, supported: u32) -> (action: TextAction)
    ensures
        action == text_action(header, supported),
{
    match header {
        None => TextAction::Malformed,
        Some(h) => {
            if h.version != supported {
                return TextAction::WrongVersion;
            }
            match h.kind {
                FrameKind::Req => TextAction::Dispatch,
                FrameKind::Resp => TextAction::Ignore,
                FrameKind::Hello => TextAction::Ignore,
            }
        },
    }
}

/// What happened to the writer.
#[derive(Debug)]
pub enum WriterEvent {
    /// A frame is to go out, and this is its text.
    Encoded(String),
    /// A frame was to go out, and has no text.
    NotEncoded,
    /// A ping is to be answered with this payload.
    Pong(Vec<u8>),
    /// The last message went out.
    Sent,
    /// The last message did not go out.
    SendFailed,
    /// Nothing more will go out.
    ChannelClosed,
}

/// What the writer is to do next.
#[derive(Debug)]
pub enum WriterAction {
    SendText(String),
    SendPong(Vec<u8>),
    /// Wait for the next thing to go out.
    TakeNext,
    /// Close the socket and end.
    CloseSink,
}

/// What the writer does upon an event. A frame without a text is passed over;
/// the first message that does not go out is the last.
pub fn writer_step(event: WriterEvent) -> (action: WriterAction)
    ensures
        action == (match event {
            WriterEvent::Encoded(text) => WriterAction::SendText(text),
            WriterEvent::NotEncoded => WriterAction::TakeNext,
            WriterEvent::Pong(payload) => WriterAction::SendPong(payload),
            WriterEvent::Sent => WriterAction::TakeNext,
            WriterEvent::SendFailed => WriterAction::CloseSink,
            WriterEvent::ChannelClosed => WriterAction::CloseSink,
        }),
{
    match event {
        WriterEvent::Encoded(text) => WriterAction::SendText(text),
        WriterEvent::NotEncoded => WriterAction::TakeNext,
        WriterEvent::Pong(payload) => WriterAction::SendPong(payload),
        WriterEvent::Sent => WriterAction::TakeNext,
        WriterEvent::SendFailed => WriterAction::CloseSink,
        WriterEvent::ChannelClosed => WriterAction::CloseSink,
    }
}

// ---------------------------------------------------------------------------
// Laws
// ---------------------------------------------------------------------------

/// The counts after a run of events from the start.
pub open spec fn streaks_after(events: Seq<LoopEvent>) -> Streaks
    decreases events.len(),
{
    if events.len() == 0 {
        Streaks::none()
    } else {
        streaks_after(events.drop_last()).after_event(events.last())
    }
}

/// How often `event` stands at the end of a run of events, without a break.
pub open spec fn tail_of(events: Seq<LoopEvent>, event: LoopEvent) -> nat
    decreases events.len(),
{
    if events.len() > 0 && events.last() == event {
        tail_of(events.drop_last(), event) + 1
    } else {
        0
    }
}

/// The counts are what their names say: at any time, how many clean closes, or
/// how many network errors, the last events were, without a break.
pub proof fn streaks_count_the_tail(events: Seq<LoopEvent>)
    ensures
        streaks_after(events).clean_close == tail_of(events, LoopEvent::CleanClose),
        streaks_after(events).network_error == tail_of(events, LoopEvent::NetworkError),
    decreases events.len(),
{
    if events.len() > 0 {
        streaks_count_the_tail(events.drop_last());
    }
}

/// The loop ends exactly when the last two events were clean closes, and fails
/// exactly when the last three were network errors.
pub proof fn exits_follow_the_tail(events: Seq<LoopEvent>)
    requires
        events.len() > 0,
    ensures
        streaks_after(events).action(events.last()) == LoopAction::ExitOk <==> tail_of(
            events,
            LoopEvent::CleanClose,
        ) >= 2,
        streaks_after(events).action(events.last()) == LoopAction::ExitErr <==> tail_of(
            events,
            LoopEvent::NetworkError,
        ) >= 3,
{
    streaks_count_the_tail(events);
}

/// A clean close right after a clean close ends the relay, in whatever state
/// the loop was.
pub proof fn second_clean_close_finishes(relay: RelayLoopView, print: bool)
    ensures
        relay_command(relay_after(relay, RelayEventView::Closed, print), RelayEventView::Closed)
            == RelayCommandView::Finish,
{
}

/// The first clean close after anything else brings one more session, after
/// the cooldown.
pub proof fn first_clean_close_reconnects(relay: RelayLoopView)
    requires
        relay.streaks.clean_close == 0,
    ensures
        relay_command(relay, RelayEventView::Closed) == RelayCommandView::ConnectAfter(5),
{
}

/// Three network errors in a row fail the relay with the last of them; where
/// none came before, the first is followed by a wait of one second and the
/// second by one of two.
pub proof fn three_network_errors_fail(
    relay: RelayLoopView,
    first: Seq<char>,
    second: Seq<char>,
    third: Seq<char>,
    print: bool,
)
    ensures
        ({
            let e1 = RelayEventView::Failed(RelayErrorView::Network(first));
            let e2 = RelayEventView::Failed(RelayErrorView::Network(second));
            let e3 = RelayEventView::Failed(RelayErrorView::Network(third));
            let relay1 = relay_after(relay, e1, print);
            let relay2 = relay_after(relay1, e2, print);
            &&& relay_command(relay2, e3) == RelayCommandView::Fail(
                RelayFailureView::Network(third),
            )
            &&& relay.streaks.network_error == 0 ==> relay_command(relay, e1)
                == RelayCommandView::ConnectAfter(1)
            &&& relay.streaks.network_error == 0 ==> relay_command(relay1, e2)
                == RelayCommandView::ConnectAfter(2)
        }),
{
    vstd::arithmetic::power2::lemma2_to64();
}

/// A refused token is refreshed; the refresh done, the relay connects at once
/// and counts from the start; the refresh failed, the relay fails.
pub proof fn refused_token_is_refreshed(relay: RelayLoopView, cause: Seq<char>, print: bool)
    ensures
        relay_command(relay, RelayEventView::Failed(RelayErrorView::AuthRejected))
            == RelayCommandView::RefreshJwt,
        relay_command(relay, RelayEventView::Refreshed) == RelayCommandView::Connect,
        relay_after(relay, RelayEventView::Refreshed, print).streaks == Streaks::none(),
        relay_command(relay, RelayEventView::RefreshFailed(cause)) == RelayCommandView::Fail(
            RelayFailureView::Refresh(cause),
        ),
{
}

/// The commands of the relay do not hang on whether its user wants to be told.
pub proof fn telling_changes_no_command(relay: RelayLoopView, event: RelayEventView, next: RelayEventView)
    ensures
        relay_command(relay_after(relay, event, true), next) == relay_command(
            relay_after(relay, event, false),
            next,
        ),
{
}

/// As long as the relay goes on, no count reaches its limit: a loop that has
/// taken any number of events can take the next.
pub proof fn a_relay_that_goes_on_runs(relay: RelayLoopView, event: RelayEventView, print: bool)
    requires
        relay.running(),
        relay_command(relay, event).goes_on(),
    ensures
        relay_after(relay, event, print).running(),
{
}

/// What a relay lives through: its sessions connect, and other things happen.
pub enum RelayMoment {
    Connected,
    Event(RelayEventView),
}

/// The loop after a run of such moments from the start.
pub open spec fn relay_after_all(moments: Seq<RelayMoment>, print: bool) -> RelayLoopView
    decreases moments.len(),
{
    if moments.len() == 0 {
        RelayLoopView::start()
    } else {
        let earlier = relay_after_all(moments.drop_last(), print);
        match moments.last() {
            RelayMoment::Connected => RelayLoopView { connected: true, ..earlier },
            RelayMoment::Event(event) => relay_after(earlier, event, print),
        }
    }
}

/// The loop knows whether a session has ever connected. So the public address is
/// left upon the first connection and no other, and never where none succeeds.
pub proof fn first_connection_is_known(moments: Seq<RelayMoment>, print: bool)
    ensures
        relay_after_all(moments, print).connected <==> moments.contains(RelayMoment::Connected),
    decreases moments.len(),
{
    if moments.len() > 0 {
        let front = moments.drop_last();
        first_connection_is_known(front, print);
        if front.contains(RelayMoment::Connected) {
            let i = choose|i: int| 0 <= i < front.len() && front[i] == RelayMoment::Connected;
            assert(moments[i] == RelayMoment::Connected);
        }
        if moments.contains(RelayMoment::Connected) {
            let i = choose|i: int| 0 <= i < moments.len() && moments[i] == RelayMoment::Connected;
            if i < front.len() {
                assert(front[i] == RelayMoment::Connected);
            }
        }
    }
}

/// A session ends well exactly when the peer sends no more, closes without a
/// word, or closes because it is done or goes away.
pub proof fn session_ends_well(event: SessionEventView)
    ensures
        session_action(event) == SessionActionView::End(None) <==> (match event {
            SessionEventView::StreamEnded => true,
            SessionEventView::Close(None) => true,
            SessionEventView::Close(Some((code, _))) => code == CLOSE_NORMAL || code == CLOSE_AWAY,
            _ => false,
        }),
{
}

/// A token is suspected exactly when the handshake was answered with 401 or
/// 403, or the peer closed for a policy or with its own code for a refused
/// token.
pub proof fn session_suspects_token(event: SessionEventView)
    ensures
        session_action(event) == SessionActionView::End(Some(RelayErrorView::AuthRejected)) <==> (
        match event {
            SessionEventView::HandshakeFailed { status, cause } => status == Some(401u16) || status
                == Some(403u16),
            SessionEventView::Close(Some((code, _))) => code == CLOSE_POLICY || code
                == CLOSE_TOKEN_REFUSED,
            _ => false,
        }),
{
}

/// A peer that closes because it speaks another version is not tried again: the
/// relay fails at once, with the peer's reason.
pub proof fn other_protocols_fail_at_once(relay: RelayLoopView, reason: Seq<char>)
    ensures
        session_action(SessionEventView::Close(Some((CLOSE_PROTOCOL, reason))))
            == SessionActionView::End(
            Some(RelayErrorView::Protocol(close_text(CLOSE_PROTOCOL, reason))),
        ),
        relay_command(
            relay,
            RelayEventView::Failed(
                RelayErrorView::Protocol(close_text(CLOSE_PROTOCOL, reason)),
            ),
        ) == RelayCommandView::Fail(
            RelayFailureView::Protocol(close_text(CLOSE_PROTOCOL, reason)),
        ),
{
}

/// Only a request, of the version that is spoken here, is acted upon.
pub proof fn only_requests_are_dispatched(header: Option<FrameHeader>, supported: u32)
    ensures
        text_action(header, supported) == TextAction::Dispatch <==> (header matches Some(h)
            && h.kind == FrameKind::Req && h.version == supported),
{
}

/// An event adds one to its own count and starts the other again; a refreshed token
/// starts both.
pub proof fn events_count_for_themselves(streaks: Streaks)
    ensures
        streaks.after_event(LoopEvent::CleanClose).clean_close == streaks.clean_close + 1,
        streaks.after_event(LoopEvent::CleanClose).network_error == 0,
        streaks.after_event(LoopEvent::NetworkError).network_error == streaks.network_error + 1,
        streaks.after_event(LoopEvent::NetworkError).clean_close == 0,
        streaks.after_event(LoopEvent::AuthRejected).clean_close == 0,
        streaks.after_event(LoopEvent::AuthRejected).network_error == 0,
{
}

/// One clean close waits five seconds and a second one ends the loop; the first
/// network error waits a second, the next two, and the third fails; a refreshed token
/// waits for nothing.
pub proof fn counts_decide_what_comes_next(streaks: Streaks)
    ensures
        streaks.clean_close < 2 ==> streaks.action(LoopEvent::CleanClose) == LoopAction::Reconnect(
            5,
        ),
        streaks.clean_close >= 2 ==> streaks.action(LoopEvent::CleanClose) == LoopAction::ExitOk,
        streaks.network_error == 1 ==> streaks.action(LoopEvent::NetworkError)
            == LoopAction::Reconnect(1),
        streaks.network_error == 2 ==> streaks.action(LoopEvent::NetworkError)
            == LoopAction::Reconnect(2),
        streaks.network_error >= 3 ==> streaks.action(LoopEvent::NetworkError)
            == LoopAction::ExitErr,
        streaks.action(LoopEvent::AuthRejected) == LoopAction::ReconnectImmediate,
{
    vstd::arithmetic::power2::lemma2_to64();
}

/// What the relay does upon an event, by how many of its kind came before it: it goes
/// on after the first clean close and after two network errors, asks for a fresh token
/// where the old one is refused, and ends or fails at once upon anything else.
pub proof fn the_relay_goes_by_its_counts(relay: RelayLoopView, cause: Seq<char>, print: bool)
    ensures
        ({
            let lost = RelayEventView::Failed(RelayErrorView::Network(cause));
            &&& relay.streaks.clean_close == 0 ==> relay_command(relay, RelayEventView::Closed)
                == RelayCommandView::ConnectAfter(5)
            &&& relay.streaks.clean_close >= 1 ==> relay_command(relay, RelayEventView::Closed)
                == RelayCommandView::Finish
            &&& relay.streaks.network_error == 0 ==> relay_command(relay, lost)
                == RelayCommandView::ConnectAfter(1)
            &&& relay.streaks.network_error == 1 ==> relay_command(relay, lost)
                == RelayCommandView::ConnectAfter(2)
            &&& relay.streaks.network_error >= 2 ==> relay_command(relay, lost)
                == RelayCommandView::Fail(RelayFailureView::Network(cause))
            &&& relay_command(relay, RelayEventView::Failed(RelayErrorView::Protocol(cause)))
                == RelayCommandView::Fail(RelayFailureView::Protocol(cause))
            &&& relay_command(relay, RelayEventView::Failed(RelayErrorView::Fatal(cause)))
                == RelayCommandView::Fail(RelayFailureView::Fatal(cause))
            &&& relay_after(relay, RelayEventView::Closed, print).streaks == (Streaks {
                clean_close: relay.streaks.clean_close + 1,
                network_error: 0,
            })
            &&& relay_after(relay, RelayEventView::Closed, print).announced == (relay.announced
                || print)
            &&& relay_after(relay, lost, print).streaks == (Streaks {
                clean_close: 0,
                network_error: relay.streaks.network_error + 1,
            })
            &&& relay_after(relay, lost, print).announced == relay.announced
            &&& relay_after(relay, RelayEventView::Refreshed, print).announced == relay.announced
            &&& relay_after(
                relay,
                RelayEventView::Failed(RelayErrorView::AuthRejected),
                print,
            ) == relay
        }),
{
    vstd::arithmetic::power2::lemma2_to64();
}

/// A relay tells its user what happened and what it will do, and nothing where the
/// user does not want to be told.
pub proof fn the_relay_tells_what_it_does(
    relay: RelayLoopView,
    cause: Seq<char>,
    event: RelayEventView,
)
    ensures
        ({
            let lost = RelayEventView::Failed(RelayErrorView::Network(cause));
            let closed = relay_lines(relay, RelayEventView::Closed);
            let close = closed[closed.len() - 1];
            &&& closed.len() == (if relay.announced {
                1int
            } else {
                2int
            })
            &&& !relay.announced ==> closed[0] == LineView::Notice(
                "✓ MCP relay: connected (first session)"@,
            )
            &&& relay.streaks.clean_close == 0 ==> close == LineView::Notice(
                "✓ MCP relay: connection closed cleanly, reconnecting in "@ + decimal(5) + "s"@,
            )
            &&& relay.streaks.clean_close >= 1 ==> close == LineView::Notice(
                "✓ MCP relay: clean close x"@ + decimal(relay.streaks.clean_close + 1)
                    + " — exiting (install-mcp.sh respawns next session)"@,
            )
            &&& relay.streaks.network_error < 2 ==> relay_lines(relay, lost) == seq![
                LineView::Warning(
                    "⚠ MCP relay: network error ("@ + cause + "), retry in "@ + decimal(
                        relay.streaks.network_error + 1,
                    ) + "s ("@ + decimal(relay.streaks.network_error + 1) + "/"@ + decimal(3)
                        + ")"@,
                ),
            ]
            &&& relay.streaks.network_error >= 2 ==> relay_lines(relay, lost).len() == 0
            &&& relay_lines(relay, RelayEventView::Failed(RelayErrorView::AuthRejected)) == seq![
                LineView::Warning("⚠ MCP relay: WS handshake rejected (401), refreshing JWT"@),
            ]
            &&& relay_lines(relay, RelayEventView::Refreshed).len() == 0
            &&& relay_lines(relay, RelayEventView::RefreshFailed(cause)).len() == 0
            &&& relay_lines(relay, RelayEventView::Failed(RelayErrorView::Protocol(cause))).len()
                == 0
            &&& relay_lines(relay, RelayEventView::Failed(RelayErrorView::Fatal(cause))).len() == 0
            &&& shown(true, relay_lines(relay, event)) == relay_lines(relay, event)
            &&& shown(false, relay_lines(relay, event)).len() == 0
        }),
{
    vstd::arithmetic::power2::lemma2_to64();
}

/// Errors and failures in words end with their cause, as it is.
pub proof fn causes_are_told_as_they_are(cause: Seq<char>)
    ensures
        cause.is_suffix_of(RelayErrorView::Network(cause).text()),
        cause.is_suffix_of(RelayErrorView::Protocol(cause).text()),
        cause.is_suffix_of(RelayErrorView::Fatal(cause).text()),
        cause.is_suffix_of(RelayFailureView::Network(cause).text()),
        cause.is_suffix_of(RelayFailureView::Protocol(cause).text()),
        cause.is_suffix_of(RelayFailureView::Fatal(cause).text()),
        RelayFailureView::Refresh(cause).text() == "JWT refresh"@,
        RelayErrorView::Network(cause).text() == "network: "@ + cause,
        RelayErrorView::Protocol(cause).text() == "protocol: "@ + cause,
        RelayErrorView::Fatal(cause).text() == "fatal: "@ + cause,
        RelayFailureView::Network(cause).text() == "relay: "@ + decimal(3)
            + " consecutive network errors, last: "@ + cause,
        RelayFailureView::Protocol(cause).text() == "relay protocol error: "@ + cause,
        RelayFailureView::Fatal(cause).text() == "relay fatal: "@ + cause,
{
    let network = "relay: "@ + decimal(3) + " consecutive network errors, last: "@;
    assert((network + cause).skip(network.len() as int) =~= cause);
    assert(("network: "@ + cause).skip("network: "@.len() as int) =~= cause);
    assert(("protocol: "@ + cause).skip("protocol: "@.len() as int) =~= cause);
    assert(("fatal: "@ + cause).skip("fatal: "@.len() as int) =~= cause);
    assert(("relay protocol error: "@ + cause).skip("relay protocol error: "@.len() as int)
        =~= cause);
    assert(("relay fatal: "@ + cause).skip("relay fatal: "@.len() as int) =~= cause);
}

/// What happened and what is to be done is what its parts say.
pub proof fn relay_events_are_their_parts(
    cause: String,
    error: RelayError,
    failure: RelayFailure,
    seconds: u64,
    state: LoopState,
)
    ensures
        RelayError::AuthRejected@ == RelayErrorView::AuthRejected,
        RelayError::Network(cause)@ == RelayErrorView::Network(cause@),
        RelayError::Protocol(cause)@ == RelayErrorView::Protocol(cause@),
        RelayError::Fatal(cause)@ == RelayErrorView::Fatal(cause@),
        RelayFailure::Refresh(cause)@ == RelayFailureView::Refresh(cause@),
        RelayFailure::Network(cause)@ == RelayFailureView::Network(cause@),
        RelayFailure::Protocol(cause)@ == RelayFailureView::Protocol(cause@),
        RelayFailure::Fatal(cause)@ == RelayFailureView::Fatal(cause@),
        RelayEvent::SessionEnded(Ok(()))@ == RelayEventView::Closed,
        RelayEvent::SessionEnded(Err(error))@ == RelayEventView::Failed(error@),
        RelayEvent::JwtRefreshed@ == RelayEventView::Refreshed,
        RelayEvent::JwtRefreshFailed(cause)@ == RelayEventView::RefreshFailed(cause@),
        RelayCommand::Connect@ == RelayCommandView::Connect,
        RelayCommand::ConnectAfter(seconds)@ == RelayCommandView::ConnectAfter(seconds as nat),
        RelayCommand::RefreshJwt@ == RelayCommandView::RefreshJwt,
        RelayCommand::Finish@ == RelayCommandView::Finish,
        RelayCommand::Fail(failure)@ == RelayCommandView::Fail(failure@),
        state@.clean_close == state.clean_close_streak,
        state@.network_error == state.network_error_streak,
        error_view(Some(error)) == Some(error@),
        error_view(None) is None,
{
}

/// A text that fits is logged whole. Of a longer one its first bytes are, and how many
/// more there were.
pub proof fn logs_tell_how_much_is_missing(text: Seq<char>, max: int)
    requires
        0 <= max,
        encode_utf8(text).len() <= max || is_char_boundary(encode_utf8(text), max),
    ensures
        encode_utf8(text).len() <= max ==> truncated(text, max) == text,
        encode_utf8(text).len() > max ==> exists|n: int|
            #![trigger text.take(n)]
            0 <= n <= text.len() && encode_utf8(text.take(n)).len() == max && truncated(text, max)
                == text.take(n) + "…(truncated "@ + decimal((encode_utf8(text).len() - max) as nat)
                + " chars)"@,
{
    if encode_utf8(text).len() > max {
        lemma_utf8_prefix(text, max);
        let kept = utf8_prefix(text, max);
        let n = kept.len() as int;
        assert(text.take(n) =~= kept);
        assert(encode_utf8(text.take(n)).len() == max);
    }
}

/// The host of an address stands between its scheme and the next slash, with its port
/// and whatever comes behind.
pub proof fn hosts_stand_between_scheme_and_path(
    scheme: Seq<char>,
    host: Seq<char>,
    path: Seq<char>,
)
    requires
        forall|i: int| 0 <= i < scheme.len() ==> #[trigger] scheme[i] != ':',
        forall|i: int| 0 <= i < host.len() ==> #[trigger] host[i] != '/',
        host.len() > 0 ==> host[host.len() - 1] != ':',
        path.len() > 0 ==> path[0] == '/',
    ensures
        url_host(scheme + "://"@ + host + path) == host,
{
    reveal_strlit("://");
    reveal_strlit("/");
    let mark = "://"@;
    let slash = "/"@;
    let url = scheme + mark + host + path;
    let s = scheme.len() as int;
    let m = host.len() as int;
    texts_are_cut_at_the_first_place(url, mark);
    assert(url.subrange(s, s + mark.len()) =~= mark);
    let rest = host + path;
    match after(url, mark) {
        None => {},
        Some(tail) => {
            let b = before(url, mark);
            assert(b.len() <= s) by {
                if b.len() > s {
                    assert(url.subrange(s, s + mark.len()) != mark);
                }
            }
            assert(b.len() == s) by {
                if b.len() < s {
                    assert(url[b.len() as int] == mark[0]);
                    assert(url[b.len() as int] == scheme[b.len() as int]);
                }
            }
            assert(tail =~= url.skip(s + 3));
            assert(tail =~= rest);
        },
    }
    let piece = before(rest, mark);
    texts_are_cut_at_the_first_place(rest, mark);
    assert(piece.len() >= m && piece.is_prefix_of(rest) && (piece.len() > m || piece == rest)) by {
        match after(rest, mark) {
            None => {},
            Some(tail) => {
                let p = piece.len() as int;
                assert(rest =~= piece + mark + tail);
                assert(rest[p] == ':' && rest[p + 1] == '/');
                if p < m {
                    assert(rest[p] == host[p]);
                    if p + 1 < m {
                        assert(rest[p + 1] == host[p + 1]);
                    }
                } else if p == m {
                    assert(rest[p] == path[0]);
                }
            },
        }
    }
    texts_are_cut_at_the_first_place(piece, slash);
    let found = before(piece, slash);
    match after(piece, slash) {
        None => {
            if piece.len() > m {
                assert(piece[m] == rest[m]);
                assert(rest[m] == path[0]);
                assert(piece.subrange(m, m + 1) =~= slash);
                assert(piece.subrange(m, m + slash.len()) == slash);
            }
            assert(piece =~= host);
        },
        Some(tail) => {
            let p = found.len() as int;
            assert(piece =~= found + slash + tail);
            assert(piece[p] == '/');
            assert(p >= m) by {
                if p < m {
                    assert(piece[p] == host[p]);
                }
            }
            assert(p == m) by {
                if p > m {
                    assert(piece[m] == path[0]);
                    assert(piece.subrange(m, m + 1) =~= slash);
                    assert(piece.subrange(m, m + slash.len()) == slash);
                }
            }
            assert forall|i: int| 0 <= i < m implies #[trigger] found[i] == host[i] by {
                assert(piece[i] == found[i]);
                assert(piece[i] == rest[i]);
            }
            assert(found =~= host);
        },
    }
}

/// An address without a scheme is its host up to the first slash.
pub proof fn hosts_without_scheme_start_the_address(host: Seq<char>, path: Seq<char>)
    requires
        forall|i: int| 0 <= i < host.len() ==> #[trigger] host[i] != '/',
        path.len() > 0 ==> path[0] == '/',
        forall|k: int|
            0 <= k && k + 3 <= (host + path).len() ==> #[trigger] (host + path).subrange(k, k + 3)
                != "://"@,
    ensures
        url_host(host + path) == host,
{
    reveal_strlit("://");
    reveal_strlit("/");
    let mark = "://"@;
    let slash = "/"@;
    let url = host + path;
    let m = host.len() as int;
    texts_are_cut_at_the_first_place(url, mark);
    match after(url, mark) {
        None => {},
        Some(tail) => {
            let b = before(url, mark);
            assert(url.subrange(b.len() as int, b.len() as int + 3) =~= mark);
        },
    }
    texts_are_cut_at_the_first_place(url, slash);
    let found = before(url, slash);
    match after(url, slash) {
        None => {
            if path.len() > 0 {
                assert(url[m] == path[0]);
                assert(url.subrange(m, m + 1) =~= slash);
                assert(url.subrange(m, m + slash.len()) == slash);
            }
            assert(url =~= host);
        },
        Some(tail) => {
            let p = found.len() as int;
            assert(url =~= found + slash + tail);
            assert(url[p] == '/');
            assert(p >= m) by {
                if p < m {
                    assert(url[p] == host[p]);
                }
            }
            assert(p == m) by {
                if p > m {
                    assert(url[m] == path[0]);
                    assert(url.subrange(m, m + 1) =~= slash);
                    assert(url.subrange(m, m + slash.len()) == slash);
                }
            }
            assert forall|i: int| 0 <= i < m implies #[trigger] found[i] == host[i] by {
                assert(url[i] == found[i]);
            }
            assert(found =~= host);
        },
    }
}

/// The socket is asked for with the token, the key and the version that were given,
/// and with the host of the address.
pub proof fn sockets_are_asked_for_with_what_was_given(
    url: Seq<char>,
    token: Seq<char>,
    key: Seq<char>,
    version: Seq<char>,
)
    ensures
        upgrade_headers(url, token, key, version).len() == 7,
        upgrade_headers(url, token, key, version)[0] == ("Host"@, url_host(url)),
        upgrade_headers(url, token, key, version)[1] == ("Authorization"@, "Bearer "@ + token),
        upgrade_headers(url, token, key, version)[2] == ("Sec-WebSocket-Version"@, "13"@),
        upgrade_headers(url, token, key, version)[3] == ("Sec-WebSocket-Key"@, key),
        upgrade_headers(url, token, key, version)[4] == ("Connection"@, "Upgrade"@),
        upgrade_headers(url, token, key, version)[5] == ("Upgrade"@, "websocket"@),
        upgrade_headers(url, token, key, version)[6] == (
            "User-Agent"@,
            "github-mcp-server-rs/"@ + version,
        ),
{
}

/// Headers are what their names and values say, in order.
pub proof fn headers_are_their_parts(headers: Seq<(String, String)>)
    ensures
        headers_view(headers).len() == headers.len(),
        forall|i: int|
            0 <= i < headers.len() ==> #[trigger] headers_view(headers)[i] == (
                headers[i].0@,
                headers[i].1@,
            ),
{
}

/// A handshake that was answered with 401 or 403 throws doubt on the token; any other
/// failure is the network's, with its cause.
pub proof fn failed_handshakes_keep_their_cause(status: Option<u16>, cause: Seq<char>)
    ensures
        handshake_error(status, cause) == (match status {
            Some(401) => RelayErrorView::AuthRejected,
            Some(403) => RelayErrorView::AuthRejected,
            _ => RelayErrorView::Network("ws connect: "@ + cause),
        }),
{
}

/// A close is clean with 1000 and 1001, throws doubt on the token with 1008 and 4001,
/// speaks of another protocol with 1002, and is the network's with any other code; an
/// error tells the code and the reason.
pub proof fn closes_go_by_their_code(code: u16, reason: Seq<char>)
    ensures
        close_error(code, reason) is None <==> code == 1000 || code == 1001,
        close_error(code, reason) == Some(RelayErrorView::AuthRejected) <==> code == 1008 || code
            == 4001,
        code == 1002 ==> close_error(code, reason) == Some(
            RelayErrorView::Protocol(
                "ws close: code="@ + decimal(code as nat) + " reason="@ + reason,
            ),
        ),
        code != 1000 && code != 1001 && code != 1002 && code != 1008 && code != 4001
            ==> close_error(code, reason) == Some(
            RelayErrorView::Network(
                "ws close: code="@ + decimal(code as nat) + " reason="@ + reason,
            ),
        ),
        close_meaning(Some((code, reason))) == close_error(code, reason),
        close_meaning(None) is None,
{
}

/// A session does one thing upon each event: it looks at the token a minute ahead,
/// refreshes it where it has to, opens the socket, greets and reads; it hands on every
/// text, answers every ping with its own payload, and passes over the rest.
pub proof fn a_session_takes_one_step_at_a_time(
    expired: bool,
    cause: Seq<char>,
    payload: Seq<u8>,
    status: Option<u16>,
    frame: Option<(u16, Seq<char>)>,
)
    ensures
        session_action(SessionEventView::Started) == SessionActionView::CheckToken(60),
        session_action(SessionEventView::TokenChecked { expired }) == (if expired {
            SessionActionView::RefreshJwt
        } else {
            SessionActionView::OpenSocket
        }),
        session_action(SessionEventView::Refreshed) == SessionActionView::OpenSocket,
        session_action(SessionEventView::Connected) == SessionActionView::SendHello,
        session_action(SessionEventView::HelloSent) == SessionActionView::ReadNext,
        session_action(SessionEventView::Text(cause)) == SessionActionView::HandleText(cause),
        session_action(SessionEventView::Ping(payload)) == SessionActionView::SendPong(payload),
        session_action(SessionEventView::OtherMessage) == SessionActionView::ReadNext,
        session_action(SessionEventView::StreamEnded) == SessionActionView::End(None),
        session_action(SessionEventView::Close(frame)) == SessionActionView::End(
            match frame {
                Some((code, reason)) => close_error(code, reason),
                None => None,
            },
        ),
        session_action(SessionEventView::RefreshFailed(cause)) == SessionActionView::End(
            Some(RelayErrorView::Fatal(cause)),
        ),
        session_action(SessionEventView::RequestRefused(cause)) == SessionActionView::End(
            Some(RelayErrorView::Network("build WS request: "@ + cause)),
        ),
        session_action(SessionEventView::HandshakeFailed { status, cause })
            == SessionActionView::End(Some(handshake_error(status, cause))),
        session_action(SessionEventView::WriterClosed) == SessionActionView::End(
            Some(RelayErrorView::Network("writer task closed before hello"@)),
        ),
        session_action(SessionEventView::ReadFailed(cause)) == SessionActionView::End(
            Some(RelayErrorView::Network("ws read: "@ + cause)),
        ),
{
}

/// What happened to a session and what it does is what its parts say.
pub proof fn session_events_are_their_parts(
    expired: bool,
    text: String,
    payload: Vec<u8>,
    status: Option<u16>,
    code: u16,
    skew: u64,
    error: RelayError,
)
    ensures
        SessionEvent::Started@ == SessionEventView::Started,
        (SessionEvent::TokenChecked { expired })@ == (SessionEventView::TokenChecked { expired }),
        SessionEvent::Refreshed@ == SessionEventView::Refreshed,
        SessionEvent::RefreshFailed(text)@ == SessionEventView::RefreshFailed(text@),
        SessionEvent::RequestRefused(text)@ == SessionEventView::RequestRefused(text@),
        (SessionEvent::HandshakeFailed { status, cause: text })@ == (
        SessionEventView::HandshakeFailed { status, cause: text@ }),
        SessionEvent::Connected@ == SessionEventView::Connected,
        SessionEvent::HelloSent@ == SessionEventView::HelloSent,
        SessionEvent::WriterClosed@ == SessionEventView::WriterClosed,
        SessionEvent::Received(WsMessage::Text(text))@ == SessionEventView::Text(text@),
        SessionEvent::Received(WsMessage::Ping(payload))@ == SessionEventView::Ping(payload@),
        SessionEvent::Received(WsMessage::Close(None))@ == SessionEventView::Close(None),
        SessionEvent::Received(WsMessage::Close(Some(CloseFrame { code, reason: text })))@
            == SessionEventView::Close(Some((code, text@))),
        SessionEvent::Received(WsMessage::Binary)@ == SessionEventView::OtherMessage,
        SessionEvent::Received(WsMessage::Pong)@ == SessionEventView::OtherMessage,
        SessionEvent::Received(WsMessage::Frame)@ == SessionEventView::OtherMessage,
        SessionEvent::ReadFailed(text)@ == SessionEventView::ReadFailed(text@),
        SessionEvent::StreamEnded@ == SessionEventView::StreamEnded,
        SessionAction::CheckToken(skew)@ == SessionActionView::CheckToken(skew as nat),
        SessionAction::RefreshJwt@ == SessionActionView::RefreshJwt,
        SessionAction::OpenSocket@ == SessionActionView::OpenSocket,
        SessionAction::SendHello@ == SessionActionView::SendHello,
        SessionAction::ReadNext@ == SessionActionView::ReadNext,
        SessionAction::HandleText(text)@ == SessionActionView::HandleText(text@),
        SessionAction::SendPong(payload)@ == SessionActionView::SendPong(payload@),
        SessionAction::End(Ok(()))@ == SessionActionView::End(None),
        SessionAction::End(Err(error))@ == SessionActionView::End(Some(error@)),
{
}

/// A text that is no frame is malformed, one of another version is dropped whatever it
/// is, and of this version a request is answered and anything else ignored.
pub proof fn frames_go_by_version_then_kind(kind: FrameKind, version: u32, supported: u32)
    ensures
        text_action(None, supported) == TextAction::Malformed,
        version != supported ==> text_action(Some(FrameHeader { kind, version }), supported)
            == TextAction::WrongVersion,
        text_action(Some(FrameHeader { kind: FrameKind::Req, version }), version)
            == TextAction::Dispatch,
        text_action(Some(FrameHeader { kind: FrameKind::Resp, version }), version)
            == TextAction::Ignore,
        text_action(Some(FrameHeader { kind: FrameKind::Hello, version }), version)
            == TextAction::Ignore,
{
}

/// A relay starts with nothing counted, told or connected. It runs until two clean
/// closes or three network errors came in a row, and goes on unless it is to end.
pub proof fn a_relay_runs_until_its_limits(relay: RelayLoopView, command: RelayCommandView)
    ensures
        RelayLoopView::start().streaks.clean_close == 0,
        RelayLoopView::start().streaks.network_error == 0,
        !RelayLoopView::start().announced,
        !RelayLoopView::start().connected,
        relay.running() <==> relay.streaks.clean_close <= 1 && relay.streaks.network_error <= 2,
        command.goes_on() <==> command is Connect || command is ConnectAfter || command is RefreshJwt,
{
}

} // verus!
