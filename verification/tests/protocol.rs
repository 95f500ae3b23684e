use flash_desktop::mcp::ToolInput;
use flash_desktop::ui::{hides_on_close, menu_action, tray_click_action, MenuAction, WindowAction};
use flash_desktop::ws::{
    backoff_delay, daemon_url, dispatch, status_tooltip, tool_result, ConnectionStatus, Dispatch,
    IncomingMessage, OutgoingMessage, PollAction, ReconnectState,
};

#[test]
fn ping_gets_pong() {
    match dispatch(IncomingMessage::Ping) {
        Dispatch::Reply(OutgoingMessage::Pong) => {}
        other => panic!("{:?}", other),
    }
    match dispatch(IncomingMessage::ToolCall {
        tool_call_id: "c1".to_string(),
        tool: "fs.list".to_string(),
        input: ToolInput { fields: vec![] },
    }) {
        Dispatch::RunTool { tool_call_id, tool, .. } => {
            assert_eq!(tool_call_id, "c1");
            assert_eq!(tool, "fs.list");
        }
        other => panic!("{:?}", other),
    }
}

#[test]
fn tool_results_keep_the_call_id() {
    match tool_result("id-7".to_string(), Ok("done".to_string())) {
        OutgoingMessage::ToolResult { tool_call_id, result, error } => {
            assert_eq!(tool_call_id, "id-7");
            assert_eq!(result, "done");
            assert_eq!(error, None);
        }
        other => panic!("{:?}", other),
    }
    match tool_result("id-8".to_string(), Err("bad".to_string())) {
        OutgoingMessage::ToolResult { tool_call_id, result, error } => {
            assert_eq!(tool_call_id, "id-8");
            assert_eq!(result, "");
            assert_eq!(error, Some("bad".to_string()));
        }
        other => panic!("{:?}", other),
    }
}

#[test]
fn daemon_addresses() {
    assert_eq!(
        daemon_url("https://useflash.com", "s1", "t0k"),
        "wss://useflash.com/ws/daemon/s1?token=t0k&serverId=s1"
    );
    assert_eq!(
        daemon_url("http://localhost:3000", "s", "t"),
        "ws://localhost:3000/ws/daemon/s?token=t&serverId=s"
    );
}

#[test]
fn backoff_doubles_to_a_minute() {
    let got: Vec<u64> = (0..10).map(backoff_delay).collect();
    assert_eq!(got, vec![1, 2, 4, 8, 16, 32, 60, 60, 60, 60]);
    assert_eq!(backoff_delay(63), 60);
    assert_eq!(backoff_delay(64), 60);
    assert_eq!(backoff_delay(u32::MAX), 60);
}

#[test]
fn reconnect_loop_decisions() {
    let mut st = ReconnectState::new();
    assert_eq!(st.status(), ConnectionStatus::Disconnected);
    match st.poll(None, Some("s".to_string()), "https://x") {
        PollAction::Wait { notify, secs } => {
            assert_eq!(notify, Some(ConnectionStatus::AuthError));
            assert_eq!(secs, 2);
        }
        other => panic!("{:?}", other),
    }
    match st.poll(Some("t".to_string()), None, "https://x") {
        PollAction::Wait { notify, .. } => assert_eq!(notify, None),
        other => panic!("{:?}", other),
    }
    assert_eq!(st.tick, 2);
    match st.poll(Some("t".to_string()), Some("s".to_string()), "https://x") {
        PollAction::Connect { url } => assert_eq!(url, "wss://x/ws/daemon/s?token=t&serverId=s"),
        other => panic!("{:?}", other),
    }
    let b = st.connection_ended();
    assert_eq!(b.notify, ConnectionStatus::Reconnecting);
    assert_eq!(b.secs, 1);
    assert_eq!(st.connection_ended().secs, 2);
    assert_eq!(st.connection_ended().secs, 4);
    assert_eq!(st.connected(), ConnectionStatus::Connected);
    assert_eq!(st.retries, 0);
    assert_eq!(st.connection_ended().secs, 1);
    assert_eq!(st.status(), ConnectionStatus::Reconnecting);
    for _ in 0..100 {
        st.connection_ended();
    }
    assert_eq!(st.connection_ended().secs, 60);
    st.retries = u32::MAX;
    assert_eq!(st.connection_ended().secs, 60);
    assert_eq!(st.retries, u32::MAX);
}

#[test]
fn tooltips() {
    assert_eq!(status_tooltip(ConnectionStatus::Connected), "Flash Desktop — Connected");
    assert_eq!(status_tooltip(ConnectionStatus::Reconnecting), "Flash Desktop — Reconnecting...");
    assert_eq!(status_tooltip(ConnectionStatus::Disconnected), "Flash Desktop — Disconnected");
    assert_eq!(status_tooltip(ConnectionStatus::AuthError), "Flash Desktop — Not signed in");
}

#[test]
fn tray_and_window_decisions() {
    assert_eq!(menu_action("open"), MenuAction::ShowWindow);
    assert_eq!(menu_action("quit"), MenuAction::Quit);
    assert_eq!(menu_action("other"), MenuAction::Ignore);
    assert_eq!(tray_click_action(Some(true)), WindowAction::Hide);
    assert_eq!(tray_click_action(Some(false)), WindowAction::Show);
    assert_eq!(tray_click_action(None), WindowAction::Show);
    assert!(hides_on_close("main"));
    assert!(!hides_on_close("settings"));
}

