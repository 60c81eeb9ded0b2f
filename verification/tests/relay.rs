use github_mcp_server_rs::console::Line;
use github_mcp_server_rs::relay::{
    classify_close, connecting_line, handle_incoming_text, host_from_url, map_handshake_err,
    public_url_line, session_step, truncate, upgrade_request, writer_step, CloseFrame, FrameHeader,
    FrameKind, LoopAction, LoopState, RelayCommand, RelayError, RelayEvent, RelayFailure,
    RelayLoop, RelayStep, SessionAction, SessionEvent, TextAction, WriterAction, WriterEvent,
    WsMessage, RECONNECT_COOLDOWN,
};

fn closed(code: u16, reason: &str) -> CloseFrame {
    CloseFrame {
        code,
        reason: reason.to_string(),
    }
}

#[test]
fn host_from_url_extracts_host_port() {
    assert_eq!(
        host_from_url("wss://mcp.ippoan.org/u/yhonda-ohishi/connect"),
        "mcp.ippoan.org"
    );
    assert_eq!(
        host_from_url("ws://127.0.0.1:18099/u/dev/connect"),
        "127.0.0.1:18099"
    );
}

#[test]
fn hosts_of_odd_addresses() {
    assert_eq!(host_from_url("mcp.ippoan.org/u"), "mcp.ippoan.org");
    assert_eq!(host_from_url("mcp.ippoan.org"), "mcp.ippoan.org");
    assert_eq!(host_from_url(""), "");
    assert_eq!(host_from_url("wss://"), "");
    assert_eq!(host_from_url("a://b://c/d"), "b");
    assert_eq!(host_from_url("a:b/c"), "a:b");
    assert_eq!(host_from_url("/x://y/z"), "y");
}

#[test]
fn truncate_short_passthrough() {
    assert_eq!(truncate("abc", 10), "abc");
}

#[test]
fn truncate_long_marks_truncation() {
    let s = "a".repeat(20);
    let t = truncate(&s, 10);
    assert!(t.starts_with(&"a".repeat(10)));
    assert!(t.contains("truncated"));
}

#[test]
fn cuts_tell_how_much_is_missing() {
    assert_eq!(truncate(&"a".repeat(20), 10), "aaaaaaaaaa…(truncated 10 chars)");
    assert_eq!(truncate("abc", 3), "abc");
    assert_eq!(truncate("abc", 2), "ab…(truncated 1 chars)");
    assert_eq!(truncate("あいう", 3), "あ…(truncated 6 chars)");
    assert_eq!(truncate("あいう", 0), "…(truncated 9 chars)");
}

#[test]
fn classify_close_normal_returns_none() {
    let cf = closed(1000, "bye");
    assert!(classify_close(Some(&cf)).is_none());
}

#[test]
fn classify_close_policy_is_auth_rejected() {
    let cf = closed(1008, "JWT mismatch");
    assert!(matches!(
        classify_close(Some(&cf)),
        Some(RelayError::AuthRejected)
    ));
}

#[test]
fn classify_close_4001_is_auth_rejected() {
    let cf = closed(4001, "expired");
    assert!(matches!(
        classify_close(Some(&cf)),
        Some(RelayError::AuthRejected)
    ));
}

#[test]
fn classify_close_other_is_network() {
    let cf = closed(4500, "boom");
    assert!(matches!(
        classify_close(Some(&cf)),
        Some(RelayError::Network(_))
    ));
}

#[test]
fn classify_close_none_is_none() {
    assert!(classify_close(None).is_none());
}

#[test]
fn closes_keep_code_and_reason() {
    assert!(classify_close(Some(&closed(1001, ""))).is_none());
    assert_eq!(
        classify_close(Some(&closed(4500, "boom"))).unwrap().message(),
        "network: ws close: code=4500 reason=boom"
    );
    assert_eq!(
        classify_close(Some(&closed(1011, ""))).unwrap().message(),
        "network: ws close: code=1011 reason="
    );
    assert_eq!(
        classify_close(Some(&closed(1002, "proto"))).unwrap().message(),
        "protocol: ws close: code=1002 reason=proto"
    );
    assert_eq!(
        classify_close(Some(&closed(1008, "x"))).unwrap().message(),
        "auth rejected (401)"
    );
}

#[test]
fn fatal_errors_say_so() {
    assert_eq!(RelayError::Fatal("x".to_string()).message(), "fatal: x");
}

// --- the counts -------------------------------------------------------------

#[test]
fn loop_state_first_clean_close_reconnects_with_cooldown() {
    let mut s = LoopState::default();
    assert_eq!(s.on_clean_close(), LoopAction::Reconnect(RECONNECT_COOLDOWN));
    assert_eq!(s.clean_close_streak, 1);
}

#[test]
fn loop_state_second_clean_close_exits_ok() {
    let mut s = LoopState::default();
    let _ = s.on_clean_close();
    assert_eq!(s.on_clean_close(), LoopAction::ExitOk);
}

#[test]
fn loop_state_auth_rejected_resets_streaks_and_reconnects_immediately() {
    let mut s = LoopState::default();
    let _ = s.on_clean_close();
    let _ = s.on_network_error();
    assert_eq!(s.on_auth_rejected(), LoopAction::ReconnectImmediate);
    assert_eq!(s.clean_close_streak, 0);
    assert_eq!(s.network_error_streak, 0);
}

#[test]
fn loop_state_network_error_backoff_then_exit() {
    let mut s = LoopState::default();
    assert_eq!(s.on_network_error(), LoopAction::Reconnect(1));
    assert_eq!(s.on_network_error(), LoopAction::Reconnect(2));
    assert_eq!(s.on_network_error(), LoopAction::ExitErr);
}

#[test]
fn loop_state_clean_close_clears_network_streak() {
    let mut s = LoopState::default();
    let _ = s.on_network_error();
    let _ = s.on_network_error();
    let _ = s.on_clean_close();
    assert_eq!(s.network_error_streak, 0);
    // The next network error counts from one again.
    assert_eq!(s.on_network_error(), LoopAction::Reconnect(1));
}

#[test]
fn loop_state_network_error_clears_clean_close_streak() {
    let mut s = LoopState::default();
    let _ = s.on_clean_close();
    let _ = s.on_network_error();
    assert_eq!(s.clean_close_streak, 0);
    // The next clean close counts from one again, and does not end the loop.
    assert_eq!(s.on_clean_close(), LoopAction::Reconnect(RECONNECT_COOLDOWN));
}

#[test]
fn the_cooldown_is_five_seconds() {
    assert_eq!(RECONNECT_COOLDOWN, 5);
}

// --- the loop ---------------------------------------------------------------

fn shown(step: &RelayStep) -> Vec<String> {
    step.lines
        .iter()
        .map(|line| match line {
            Line::Notice(text) => format!("out {text}"),
            Line::Warning(text) => format!("err {text}"),
        })
        .collect()
}

fn network(cause: &str) -> RelayEvent {
    RelayEvent::SessionEnded(Err(RelayError::Network(cause.to_string())))
}

#[test]
fn two_clean_closes_end_the_relay() {
    let mut relay = RelayLoop::new();
    let step = relay.step(RelayEvent::SessionEnded(Ok(())), true);
    assert!(matches!(step.command, RelayCommand::ConnectAfter(5)));
    assert_eq!(
        shown(&step),
        vec![
            "out ✓ MCP relay: connected (first session)",
            "out ✓ MCP relay: connection closed cleanly, reconnecting in 5s",
        ]
    );
    let step = relay.step(RelayEvent::SessionEnded(Ok(())), true);
    assert!(matches!(step.command, RelayCommand::Finish));
    assert_eq!(
        shown(&step),
        vec!["out ✓ MCP relay: clean close x2 — exiting (install-mcp.sh respawns next session)"]
    );
}

#[test]
fn three_network_errors_fail_the_relay() {
    let mut relay = RelayLoop::new();
    let step = relay.step(network("a"), true);
    assert!(matches!(step.command, RelayCommand::ConnectAfter(1)));
    assert_eq!(shown(&step), vec!["err ⚠ MCP relay: network error (a), retry in 1s (1/3)"]);
    let step = relay.step(network("b"), true);
    assert!(matches!(step.command, RelayCommand::ConnectAfter(2)));
    assert_eq!(shown(&step), vec!["err ⚠ MCP relay: network error (b), retry in 2s (2/3)"]);
    let step = relay.step(network("c"), true);
    assert_eq!(shown(&step), Vec::<String>::new());
    match step.command {
        RelayCommand::Fail(failure) => assert_eq!(
            failure.message(),
            "relay: 3 consecutive network errors, last: c"
        ),
        other => panic!("{other:?}"),
    }
}

#[test]
fn a_refused_token_is_refreshed() {
    let mut relay = RelayLoop::new();
    relay.step(network("a"), false);
    relay.step(network("b"), false);
    let step = relay.step(RelayEvent::SessionEnded(Err(RelayError::AuthRejected)), true);
    assert!(matches!(step.command, RelayCommand::RefreshJwt));
    assert_eq!(
        shown(&step),
        vec!["err ⚠ MCP relay: WS handshake rejected (401), refreshing JWT"]
    );
    let step = relay.step(RelayEvent::JwtRefreshed, true);
    assert!(matches!(step.command, RelayCommand::Connect));
    assert_eq!(relay.network_error_streak(), 0);
    let step = relay.step(network("c"), true);
    assert!(matches!(step.command, RelayCommand::ConnectAfter(1)));
}

#[test]
fn a_failed_refresh_fails_the_relay() {
    let mut relay = RelayLoop::new();
    let step = relay.step(RelayEvent::JwtRefreshFailed("why".to_string()), true);
    match step.command {
        RelayCommand::Fail(RelayFailure::Refresh(cause)) => {
            assert_eq!(cause, "why");
            assert_eq!(RelayFailure::Refresh(cause).message(), "JWT refresh");
        }
        other => panic!("{other:?}"),
    }
}

#[test]
fn protocol_and_fatal_errors_fail_at_once() {
    let mut relay = RelayLoop::new();
    let step = relay.step(
        RelayEvent::SessionEnded(Err(RelayError::Protocol("p".to_string()))),
        true,
    );
    match step.command {
        RelayCommand::Fail(failure) => assert_eq!(failure.message(), "relay protocol error: p"),
        other => panic!("{other:?}"),
    }
    let mut relay = RelayLoop::new();
    let step = relay.step(
        RelayEvent::SessionEnded(Err(RelayError::Fatal("f".to_string()))),
        true,
    );
    match step.command {
        RelayCommand::Fail(failure) => assert_eq!(failure.message(), "relay fatal: f"),
        other => panic!("{other:?}"),
    }
}

#[test]
fn a_quiet_relay_says_nothing_and_announces_later() {
    let mut relay = RelayLoop::new();
    let step = relay.step(RelayEvent::SessionEnded(Ok(())), false);
    assert!(matches!(step.command, RelayCommand::ConnectAfter(5)));
    assert_eq!(shown(&step), Vec::<String>::new());
    relay.step(network("a"), false);
    let step = relay.step(RelayEvent::SessionEnded(Ok(())), true);
    assert_eq!(shown(&step)[0], "out ✓ MCP relay: connected (first session)");
    relay.step(network("a"), true);
    let step = relay.step(RelayEvent::SessionEnded(Ok(())), true);
    assert_eq!(
        shown(&step),
        vec!["out ✓ MCP relay: connection closed cleanly, reconnecting in 5s"]
    );
}

#[test]
fn the_public_address_is_left_upon_the_first_connection() {
    let mut relay = RelayLoop::new();
    relay.step(network("a"), true);
    relay.step(network("b"), true);
    assert!(relay.on_connected(true));
    assert_eq!(relay.network_error_streak(), 2);
    assert!(!relay.on_connected(true));
    relay.step(RelayEvent::SessionEnded(Ok(())), true);
    assert!(!relay.on_connected(true));

    let mut relay = RelayLoop::new();
    assert!(!relay.on_connected(false));
    assert!(!relay.on_connected(true));
}

#[test]
fn clean_closes_apart_go_on_for_ever() {
    let mut relay = RelayLoop::new();
    for _ in 0..50 {
        let step = relay.step(RelayEvent::SessionEnded(Ok(())), false);
        assert!(matches!(step.command, RelayCommand::ConnectAfter(5)));
        let step = relay.step(network("a"), false);
        assert!(matches!(step.command, RelayCommand::ConnectAfter(1)));
    }
}

#[test]
fn addresses_are_announced() {
    assert!(matches!(
        public_url_line("https://mcp.ippoan.org/u/x/mcp"),
        Line::Notice(text) if text == "⇒ MCP relay: public URL = https://mcp.ippoan.org/u/x/mcp"
    ));
    assert!(matches!(
        connecting_line("wss://h/u/x/connect", "x"),
        Line::Notice(text) if text == "→ MCP relay: connecting to wss://h/u/x/connect as x"
    ));
}

// --- a session --------------------------------------------------------------

#[test]
fn the_upgrade_is_asked_for() {
    let request = upgrade_request("wss://mcp.ippoan.org/u/x/connect", "tok", "a2V5", "0.1.0");
    assert_eq!(request.method, "GET");
    assert_eq!(request.uri, "wss://mcp.ippoan.org/u/x/connect");
    let headers: Vec<(&str, &str)> = request
        .headers
        .iter()
        .map(|(a, b)| (a.as_str(), b.as_str()))
        .collect();
    assert_eq!(
        headers,
        vec![
            ("Host", "mcp.ippoan.org"),
            ("Authorization", "Bearer tok"),
            ("Sec-WebSocket-Version", "13"),
            ("Sec-WebSocket-Key", "a2V5"),
            ("Connection", "Upgrade"),
            ("Upgrade", "websocket"),
            ("User-Agent", "github-mcp-server-rs/0.1.0"),
        ]
    );
}

#[test]
fn refused_handshakes_suspect_the_token() {
    for status in [401, 403] {
        assert!(matches!(
            map_handshake_err(Some(status), "no"),
            RelayError::AuthRejected
        ));
    }
    assert_eq!(
        map_handshake_err(Some(500), "no").message(),
        "network: ws connect: no"
    );
    assert_eq!(map_handshake_err(None, "dns").message(), "network: ws connect: dns");
}

fn end_of(event: SessionEvent) -> String {
    match session_step(event) {
        SessionAction::End(Ok(())) => "ok".to_string(),
        SessionAction::End(Err(error)) => error.message(),
        other => panic!("{other:?}"),
    }
}

#[test]
fn a_session_takes_its_steps() {
    assert!(matches!(session_step(SessionEvent::Started), SessionAction::CheckToken(60)));
    assert!(matches!(
        session_step(SessionEvent::TokenChecked { expired: true }),
        SessionAction::RefreshJwt
    ));
    assert!(matches!(
        session_step(SessionEvent::TokenChecked { expired: false }),
        SessionAction::OpenSocket
    ));
    assert!(matches!(session_step(SessionEvent::Refreshed), SessionAction::OpenSocket));
    assert!(matches!(session_step(SessionEvent::Connected), SessionAction::SendHello));
    assert!(matches!(session_step(SessionEvent::HelloSent), SessionAction::ReadNext));
    assert!(matches!(
        session_step(SessionEvent::Received(WsMessage::Text("t".to_string()))),
        SessionAction::HandleText(text) if text == "t"
    ));
    assert!(matches!(
        session_step(SessionEvent::Received(WsMessage::Ping(vec![1, 2]))),
        SessionAction::SendPong(payload) if payload == vec![1, 2]
    ));
    for message in [WsMessage::Binary, WsMessage::Pong, WsMessage::Frame] {
        assert!(matches!(
            session_step(SessionEvent::Received(message)),
            SessionAction::ReadNext
        ));
    }
}

#[test]
fn a_session_ends_for_its_reasons() {
    assert_eq!(end_of(SessionEvent::StreamEnded), "ok");
    assert_eq!(end_of(SessionEvent::Received(WsMessage::Close(None))), "ok");
    assert_eq!(
        end_of(SessionEvent::Received(WsMessage::Close(Some(closed(1000, "replaced"))))),
        "ok"
    );
    assert_eq!(
        end_of(SessionEvent::Received(WsMessage::Close(Some(closed(1008, "x"))))),
        "auth rejected (401)"
    );
    assert_eq!(
        end_of(SessionEvent::Received(WsMessage::Close(Some(closed(1002, "x"))))),
        "protocol: ws close: code=1002 reason=x"
    );
    assert_eq!(end_of(SessionEvent::RefreshFailed("r".to_string())), "fatal: r");
    assert_eq!(
        end_of(SessionEvent::RequestRefused("r".to_string())),
        "network: build WS request: r"
    );
    assert_eq!(
        end_of(SessionEvent::HandshakeFailed {
            status: Some(502),
            cause: "c".to_string()
        }),
        "network: ws connect: c"
    );
    assert_eq!(
        end_of(SessionEvent::HandshakeFailed {
            status: Some(401),
            cause: "c".to_string()
        }),
        "auth rejected (401)"
    );
    assert_eq!(
        end_of(SessionEvent::WriterClosed),
        "network: writer task closed before hello"
    );
    assert_eq!(end_of(SessionEvent::ReadFailed("e".to_string())), "network: ws read: e");
}

#[test]
fn only_requests_of_this_version_are_answered() {
    let header = |kind, version| Some(FrameHeader { kind, version });
    assert_eq!(handle_incoming_text(None, 1), TextAction::Malformed);
    assert_eq!(
        handle_incoming_text(header(FrameKind::Req, 2), 1),
        TextAction::WrongVersion
    );
    assert_eq!(
        handle_incoming_text(header(FrameKind::Req, 1), 1),
        TextAction::Dispatch
    );
    assert_eq!(
        handle_incoming_text(header(FrameKind::Resp, 1), 1),
        TextAction::Ignore
    );
    assert_eq!(
        handle_incoming_text(header(FrameKind::Hello, 1), 1),
        TextAction::Ignore
    );
}

#[test]
fn the_writer_stops_at_the_first_failure() {
    assert!(matches!(
        writer_step(WriterEvent::Encoded("t".to_string())),
        WriterAction::SendText(text) if text == "t"
    ));
    assert!(matches!(writer_step(WriterEvent::NotEncoded), WriterAction::TakeNext));
    assert!(matches!(
        writer_step(WriterEvent::Pong(vec![9])),
        WriterAction::SendPong(payload) if payload == vec![9]
    ));
    assert!(matches!(writer_step(WriterEvent::Sent), WriterAction::TakeNext));
    assert!(matches!(writer_step(WriterEvent::SendFailed), WriterAction::CloseSink));
    assert!(matches!(writer_step(WriterEvent::ChannelClosed), WriterAction::CloseSink));
}
