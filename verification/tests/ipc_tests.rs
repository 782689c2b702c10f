use magnetar::compositor::{Client, Workspace};
use magnetar::error::MagnetarError;
use magnetar::events::{react, workspace_changed, EventReaction, FrontendEvent};
use magnetar::hyprland::HyprlandEvent;
use magnetar::ipc::{
    broadcast_args, callback_script, decode_message, dispatch_reply, exec_request, error_reply, event_payload, plan_dispatch, response_payload,
    success_reply, window_reply, workspace_reply, DispatchPlan,
};

fn workspace(id: i32) -> Workspace {
    Workspace { id, name: id.to_string(), monitor: "DP-1".to_string(), windows: 1, urgent: false }
}

fn client(title: &str, class: &str) -> Client {
    Client {
        address: "0x1".to_string(),
        title: title.to_string(),
        class: class.to_string(),
        pid: 7,
        workspace: 1,
        monitor: 0,
        floating: false,
        fullscreen: false,
        focused: true,
    }
}

#[test]
fn event_names_are_quoted_as_json_strings() {
    assert_eq!(event_payload("abc", "1"), "{\"data\":1,\"event\":\"abc\"}");
    assert_eq!(
        event_payload("a\"b\\c\n", "1"),
        "{\"data\":1,\"event\":\"a\\\"b\\\\c\\n\"}"
    );
    assert_eq!(event_payload("", "1"), "{\"data\":1,\"event\":\"\"}");
    assert_eq!(event_payload("ñ", "1"), "{\"data\":1,\"event\":\"ñ\"}");
}

#[test]
fn callback_script_wraps_payload() {
    assert_eq!(
        callback_script("{\"a\":1}"),
        "if (window.__magnetar) { window.__magnetar({\"a\":1}); }"
    );
}

#[test]
fn response_carries_id_and_data() {
    assert_eq!(
        response_payload("call-1", "{\"success\":true}"),
        "{\"data\":{\"success\":true},\"id\":\"call-1\"}"
    );
    assert_eq!(response_payload("a\"b", "null"), "{\"data\":null,\"id\":\"a\\\"b\"}");
}

#[test]
fn event_carries_name_and_data() {
    assert_eq!(
        event_payload("workspace:changed", "{\"id\":3}"),
        "{\"data\":{\"id\":3},\"event\":\"workspace:changed\"}"
    );
}

#[test]
fn handler_replies() {
    assert_eq!(success_reply(), "{\"success\":true}");
    let e = MagnetarError::Compositor("hyprctl execution failed".to_string());
    assert_eq!(error_reply(&e), "{\"error\":\"Compositor error: hyprctl execution failed\"}");
    assert_eq!(dispatch_reply(&Ok(())), "{\"success\":true}");
    let e = MagnetarError::Compositor("bad \"cmd\"".to_string());
    assert_eq!(
        dispatch_reply(&Err(e)),
        "{\"error\":\"Compositor error: bad \\\"cmd\\\"\",\"success\":false}"
    );
}

#[test]
fn active_workspace_reply() {
    assert_eq!(
        workspace_reply(&Ok(workspace(-98))),
        "{\"id\":-98,\"monitor\":\"DP-1\",\"name\":\"-98\"}"
    );
    let e = MagnetarError::Io("gone".to_string());
    assert_eq!(workspace_reply(&Err(e)), "{\"error\":\"IO error: gone\"}");
}

#[test]
fn active_window_reply() {
    assert_eq!(window_reply(&Ok(client("zsh", "kitty"))), "{\"class\":\"kitty\",\"title\":\"zsh\"}");
    let e = MagnetarError::Ipc("x".to_string());
    assert_eq!(window_reply(&Err(e)), "{\"error\":\"IPC error: x\"}");
}

#[test]
fn window_handler_comes_first() {
    assert_eq!(plan_dispatch(true, true, true, true), DispatchPlan::Local { reply: true });
    assert_eq!(plan_dispatch(true, false, false, true), DispatchPlan::Local { reply: false });
    assert_eq!(plan_dispatch(true, true, true, false), DispatchPlan::Local { reply: false });
}

#[test]
fn shared_handler_needs_a_connected_page() {
    assert_eq!(plan_dispatch(false, true, true, true), DispatchPlan::Remote { reply: true });
    assert_eq!(plan_dispatch(false, true, false, true), DispatchPlan::Remote { reply: false });
    assert_eq!(plan_dispatch(false, true, true, false), DispatchPlan::NotConnected);
}

#[test]
fn unknown_call_is_dropped() {
    assert_eq!(plan_dispatch(false, false, true, true), DispatchPlan::Unknown);
    assert_eq!(plan_dispatch(false, false, false, false), DispatchPlan::Unknown);
}

#[test]
fn reactions_to_hyprland_events() {
    assert!(matches!(react(HyprlandEvent::WorkspaceChanged), EventReaction::QueryActiveWorkspace));
    assert!(matches!(react(HyprlandEvent::Unknown), EventReaction::Ignore));
    match react(HyprlandEvent::ActiveWindowChanged { title: "t".to_string(), class: "c".to_string() }) {
        EventReaction::Forward(FrontendEvent::ActiveWindowChanged { title, class }) => {
            assert_eq!(title, "t");
            assert_eq!(class, "c");
        }
        _ => panic!("expected the event to be forwarded"),
    }
}

#[test]
fn workspace_answer_becomes_an_event() {
    match workspace_changed(Ok(workspace(4))) {
        Some(FrontendEvent::WorkspaceChanged { id }) => assert_eq!(id, 4),
        _ => panic!("expected a workspace event"),
    }
    assert!(workspace_changed(Err(MagnetarError::Compositor("x".to_string()))).is_none());
}

#[test]
fn frontend_event_texts() {
    let e = FrontendEvent::WorkspaceChanged { id: 12 };
    assert_eq!(e.name(), "workspace:changed");
    assert_eq!(e.data_json(), "{\"id\":12}");
    let e = FrontendEvent::ActiveWindowChanged { title: "say \"hi\"".to_string(), class: "kitty".to_string() };
    assert_eq!(e.name(), "activewindow:changed");
    assert_eq!(e.data_json(), "{\"class\":\"kitty\",\"title\":\"say \\\"hi\\\"\"}");
    let c = e.clone();
    assert_eq!(c.data_json(), e.data_json());
}

#[test]
fn error_messages() {
    assert_eq!(MagnetarError::Compositor("a".to_string()).message(), "Compositor error: a");
    assert_eq!(MagnetarError::Ipc("b".to_string()).message(), "IPC error: b");
    assert_eq!(MagnetarError::Window("c".to_string()).message(), "Window error: c");
    assert_eq!(MagnetarError::Config("d".to_string()).message(), "Config error: d");
    assert_eq!(MagnetarError::Io("e".to_string()).message(), "IO error: e");
    let e = MagnetarError::Io("e".to_string());
    assert_eq!(e.clone().message(), e.message());
}

#[test]
fn control_characters_are_escaped() {
    assert_eq!(
        event_payload("\u{8}\u{c}\t\r\u{1}\u{1f}\u{7f}/", "1"),
        "{\"data\":1,\"event\":\"\\b\\f\\t\\r\\u0001\\u001f\u{7f}/\"}"
    );
}

#[test]
fn messages_are_read_into_calls() {
    let (call, data) =
        decode_message(r#"{"command":"window.resize","data":{"width":300},"id":"call-1"}"#).unwrap();
    assert_eq!(call.command, "window.resize");
    assert_eq!(call.id, Some("call-1".to_string()));
    assert_eq!(data, r#"{"width":300}"#);
}

#[test]
fn message_fields_default() {
    let (call, data) = decode_message(r#"{"command":"window.hide"}"#).unwrap();
    assert_eq!(call.command, "window.hide");
    assert_eq!(call.id, None);
    assert_eq!(data, "null");
    let (call, data) = decode_message(r#"{"command":5,"id":7,"data":"x"}"#).unwrap();
    assert_eq!(call.command, "");
    assert_eq!(call.id, None);
    assert_eq!(data, "\"x\"");
    let (call, data) = decode_message("[1,2]").unwrap();
    assert_eq!(call.command, "");
    assert_eq!(data, "null");
}

#[test]
fn malformed_messages_are_dropped() {
    assert!(decode_message("").is_none());
    assert!(decode_message("[object Object]").is_none());
    assert!(decode_message(r#"{"command":"x""#).is_none());
}

#[test]
fn broadcast_arguments() {
    let (event, data) = broadcast_args(r#"{"event":"theme:changed","data":{"dark":true}}"#);
    assert_eq!(event, "theme:changed");
    assert_eq!(data, r#"{"dark":true}"#);
    let (event, data) = broadcast_args("null");
    assert_eq!(event, "");
    assert_eq!(data, "null");
    let (event, data) = broadcast_args(r#"{"event":3}"#);
    assert_eq!(event, "");
    assert_eq!(data, "null");
}

#[test]
fn exec_argument_is_the_command_text() {
    assert_eq!(exec_request("\"workspace 2\""), "workspace 2");
    assert_eq!(exec_request("null"), "");
    assert_eq!(exec_request("{\"cmd\":\"x\"}"), "");
}
