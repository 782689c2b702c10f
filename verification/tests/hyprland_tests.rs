use magnetar::compositor::{filter_clients, Client, CompositorManager, Workspace};
use magnetar::error::MagnetarError;
use magnetar::hyprland::{
    deserialize_bool_flexible, dispatch_args, hyprctl_output, query_args, ClientRaw, FlexibleBool,
    HyprctlQuery, Hyprland, HyprlandEvent, WorkspaceId, WorkspaceRaw,
};

fn window_event(e: Option<HyprlandEvent>) -> Option<(String, String)> {
    match e {
        Some(HyprlandEvent::ActiveWindowChanged { title, class }) => Some((class, title)),
        _ => None,
    }
}

#[test]
fn workspace_events_are_recognised() {
    assert!(matches!(HyprlandEvent::parse("workspace>>2"), Some(HyprlandEvent::WorkspaceChanged)));
    assert!(matches!(
        HyprlandEvent::parse("focusedmon>>DP-1,3"),
        Some(HyprlandEvent::WorkspaceChanged)
    ));
    assert!(matches!(HyprlandEvent::parse("workspace>>"), Some(HyprlandEvent::WorkspaceChanged)));
}

#[test]
fn active_window_event_splits_at_first_comma() {
    let e = HyprlandEvent::parse("activewindow>>kitty,~/code");
    assert_eq!(window_event(e), Some(("kitty".to_string(), "~/code".to_string())));
    let e = HyprlandEvent::parse("activewindow>>firefox,Inbox, 3 unread");
    assert_eq!(window_event(e), Some(("firefox".to_string(), "Inbox, 3 unread".to_string())));
    let e = HyprlandEvent::parse("activewindow>>,");
    assert_eq!(window_event(e), Some((String::new(), String::new())));
}

#[test]
fn active_window_without_comma_is_dropped() {
    assert!(HyprlandEvent::parse("activewindow>>nocomma").is_none());
}

#[test]
fn data_is_split_at_first_separator() {
    let e = HyprlandEvent::parse("activewindow>>a>>b,c>>d");
    assert_eq!(window_event(e), Some(("a>>b".to_string(), "c>>d".to_string())));
}

#[test]
fn blank_lines_and_lines_without_separator_are_dropped() {
    assert!(HyprlandEvent::parse("").is_none());
    assert!(HyprlandEvent::parse("   \t\n").is_none());
    assert!(HyprlandEvent::parse("workspace 2").is_none());
    assert!(HyprlandEvent::parse("workspace>2").is_none());
}

#[test]
fn other_events_are_unknown() {
    assert!(matches!(HyprlandEvent::parse("openwindow>>1,2,3,4"), Some(HyprlandEvent::Unknown)));
    assert!(matches!(HyprlandEvent::parse(">>x"), Some(HyprlandEvent::Unknown)));
    assert!(matches!(HyprlandEvent::parse("Workspace>>1"), Some(HyprlandEvent::Unknown)));
}

#[test]
fn surrounding_whitespace_does_not_change_the_event() {
    let e = HyprlandEvent::parse("  activewindow>>kitty,zsh \r\n");
    assert_eq!(window_event(e), Some(("kitty".to_string(), "zsh".to_string())));
    assert!(matches!(
        HyprlandEvent::parse("\u{3000}workspace>>1\u{a0}"),
        Some(HyprlandEvent::WorkspaceChanged)
    ));
}

#[test]
fn event_clone_is_equal() {
    let e = HyprlandEvent::ActiveWindowChanged { title: "t".to_string(), class: "c".to_string() };
    assert_eq!(window_event(Some(e.clone())), window_event(Some(e)));
}

#[test]
fn connect_needs_a_signature() {
    match Hyprland::connect(None) {
        Err(MagnetarError::Compositor(m)) => assert_eq!(m, "HYPRLAND_INSTANCE_SIGNATURE not set"),
        _ => panic!("expected a compositor error"),
    }
    let h = Hyprland::connect(Some("abc_123".to_string())).unwrap();
    assert_eq!(h.signature(), "abc_123");
    assert_eq!(h.clone().signature(), "abc_123");
}

#[test]
fn socket_paths() {
    assert_eq!(
        Hyprland::xdg_socket_path("/run/user/1000", "sig", ".socket2.sock"),
        "/run/user/1000/hypr/sig/.socket2.sock"
    );
    assert_eq!(Hyprland::tmp_socket_path("sig", ".socket.sock"), "/tmp/hypr/sig/.socket.sock");
}

#[test]
fn socket_under_runtime_dir_only_when_it_exists() {
    assert_eq!(
        Hyprland::get_socket_path(Some("/run/user/1000"), true, "sig", ".socket2.sock"),
        "/run/user/1000/hypr/sig/.socket2.sock"
    );
    assert_eq!(
        Hyprland::get_socket_path(Some("/run/user/1000"), false, "sig", ".socket2.sock"),
        "/tmp/hypr/sig/.socket2.sock"
    );
    assert_eq!(
        Hyprland::get_socket_path(None, true, "sig", ".socket2.sock"),
        "/tmp/hypr/sig/.socket2.sock"
    );
}

#[test]
fn hyprctl_arguments() {
    assert_eq!(query_args(HyprctlQuery::Workspaces), vec!["-j", "workspaces"]);
    assert_eq!(query_args(HyprctlQuery::ActiveWorkspace), vec!["-j", "activeworkspace"]);
    assert_eq!(query_args(HyprctlQuery::ActiveWindow), vec!["-j", "activewindow"]);
    assert_eq!(query_args(HyprctlQuery::Clients), vec!["-j", "clients"]);
    assert_eq!(dispatch_args("workspace 2"), vec!["dispatch", "workspace 2"]);
}

#[test]
fn hyprctl_success_gives_its_output() {
    let r = hyprctl_output(true, b"[1,2]".to_vec(), b"ignored");
    assert_eq!(r.unwrap(), b"[1,2]".to_vec());
}

#[test]
fn hyprctl_failure_gives_its_error_text() {
    match hyprctl_output(false, b"out".to_vec(), "no such dispatcher ñ".as_bytes()) {
        Err(MagnetarError::Compositor(m)) => assert_eq!(m, "no such dispatcher ñ"),
        _ => panic!("expected a compositor error"),
    }
    match hyprctl_output(false, Vec::new(), &[b'o', b'k', 0xff]) {
        Err(MagnetarError::Compositor(m)) => assert_eq!(m, "ok\u{fffd}"),
        _ => panic!("expected a compositor error"),
    }
}

#[test]
fn workspace_record_conversion() {
    let raw = WorkspaceRaw {
        id: 3,
        name: "3".to_string(),
        monitor: "DP-1".to_string(),
        windows: 2,
        urgent: true,
    };
    let w = Workspace::from(raw);
    assert_eq!((w.id, w.name.as_str(), w.monitor.as_str(), w.windows, w.urgent), (3, "3", "DP-1", 2, true));
}

fn client_raw(focus: i32) -> ClientRaw {
    ClientRaw {
        address: "0x55".to_string(),
        title: "zsh".to_string(),
        class: "kitty".to_string(),
        pid: 42,
        workspace: WorkspaceId { id: 4 },
        monitor: 1,
        floating: true,
        fullscreen: false,
        focus_history_id: focus,
    }
}

#[test]
fn client_record_conversion() {
    let c = Client::from(client_raw(0));
    assert_eq!(c.address, "0x55");
    assert_eq!(c.title, "zsh");
    assert_eq!(c.class, "kitty");
    assert_eq!((c.pid, c.workspace, c.monitor), (42, 4, 1));
    assert!(c.floating);
    assert!(!c.fullscreen);
    assert!(c.focused);
    let c = Client::from(client_raw(2));
    assert!(!c.focused);
}

#[test]
fn flexible_flags() {
    assert_eq!(deserialize_bool_flexible(FlexibleBool::Bool(true)), Ok(true));
    assert_eq!(deserialize_bool_flexible(FlexibleBool::Bool(false)), Ok(false));
    assert_eq!(deserialize_bool_flexible(FlexibleBool::Number(Some(0))), Ok(false));
    assert_eq!(deserialize_bool_flexible(FlexibleBool::Number(Some(2))), Ok(true));
    assert_eq!(deserialize_bool_flexible(FlexibleBool::Number(Some(-1))), Ok(true));
    assert_eq!(
        deserialize_bool_flexible(FlexibleBool::Number(None)),
        Err("non-integer number".to_string())
    );
    assert_eq!(
        deserialize_bool_flexible(FlexibleBool::Other("String(\"yes\")".to_string())),
        Err("String(\"yes\")".to_string())
    );
}

fn client_on(ws: i32, title: &str) -> Client {
    Client {
        address: String::new(),
        title: title.to_string(),
        class: String::new(),
        pid: 1,
        workspace: ws,
        monitor: 0,
        floating: false,
        fullscreen: false,
        focused: false,
    }
}

#[test]
fn clients_filtered_by_workspace_keep_order() {
    let clients = vec![client_on(1, "a"), client_on(2, "b"), client_on(1, "c"), client_on(3, "d")];
    let kept = filter_clients(clients.clone(), Some(1));
    let titles: Vec<&str> = kept.iter().map(|c| c.title.as_str()).collect();
    assert_eq!(titles, vec!["a", "c"]);
    let none = filter_clients(clients.clone(), Some(9));
    assert!(none.is_empty());
    let all = filter_clients(clients, None);
    assert_eq!(all.len(), 4);
}

#[test]
fn manager_starts_empty() {
    let m = CompositorManager::new();
    assert!(m.get().is_none());
    let d = CompositorManager::default();
    assert!(d.get().is_none());
}

#[test]
fn manager_detects_hyprland_from_its_signature() {
    let mut m = CompositorManager::new();
    assert!(m.detect(Some("inst".to_string())).is_ok());
    assert_eq!(m.get().unwrap().signature(), "inst");
}

#[test]
fn failed_detection_keeps_what_was_detected() {
    let mut m = CompositorManager::new();
    match m.detect(None) {
        Err(MagnetarError::Compositor(msg)) => assert_eq!(msg, "No compositor detected"),
        _ => panic!("expected a compositor error"),
    }
    assert!(m.get().is_none());
    m.detect(Some("first".to_string())).unwrap();
    assert!(m.detect(None).is_err());
    assert_eq!(m.get().unwrap().signature(), "first");
}
