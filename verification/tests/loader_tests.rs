use magnetar::config::Layer;
use magnetar::loader::{
    config_dir, default_widget, is_widget_file, new_widget_dir, widget_file_name, widget_name, Widget,
    WidgetLoader,
};
use magnetar::logging::{LogConfig, LogLevel};
use magnetar::templates::TOPBAR_TEMPLATE;
use magnetar::validate::{validate_widget, ValidationIssue};
use magnetar::config::WindowConfig;

#[test]
fn configuration_directory_under_home() {
    assert_eq!(config_dir("/home/ana"), "/home/ana/.config/magnetar");
}

#[test]
fn search_paths_with_and_without_home() {
    let l = WidgetLoader::new(Some("/home/ana".to_string()));
    assert_eq!(l.search_paths(), &vec!["/home/ana/.config/magnetar".to_string(), ".".to_string()]);
    let l = WidgetLoader::new(None);
    assert_eq!(l.search_paths(), &vec![".".to_string()]);
}

#[test]
fn widget_files_have_the_html_extension() {
    assert!(is_widget_file("topbar.html"));
    assert!(is_widget_file("a.b.html"));
    assert!(!is_widget_file("topbar.htm"));
    assert!(!is_widget_file("topbar.HTML"));
    assert!(!is_widget_file("html"));
    assert!(!is_widget_file(".html"));
    assert!(!is_widget_file("notes.html.bak"));
    assert!(is_widget_file("..html"));
}

#[test]
fn widget_name_is_the_file_stem() {
    assert_eq!(widget_name(Some("topbar.html")), "topbar");
    assert_eq!(widget_name(Some("a.b.html")), "a.b");
    assert_eq!(widget_name(Some(".hidden")), ".hidden");
    assert_eq!(widget_name(Some("plain")), "plain");
    assert_eq!(widget_name(Some("trailing.")), "trailing");
    assert_eq!(widget_name(Some("..")), "..");
    assert_eq!(widget_name(None), "widget");
}

#[test]
fn names_agree_with_std_paths() {
    for f in ["topbar.html", "a.b.html", ".hidden", "plain", "trailing.", "..html", "x.", "...", ".a.b"] {
        let p = std::path::Path::new(f);
        let stem = p.file_stem().and_then(|s| s.to_str()).unwrap_or("widget");
        assert_eq!(widget_name(Some(f)), stem, "file {:?}", f);
        let ext = p.extension().and_then(|s| s.to_str());
        assert_eq!(is_widget_file(f), ext == Some("html"), "file {:?}", f);
    }
}

#[test]
fn new_widget_file_and_directory() {
    assert_eq!(widget_file_name("mi-widget"), "mi-widget.html");
    assert_eq!(new_widget_dir(Some("./widgets".to_string()), Some("/home/ana")), "./widgets");
    assert_eq!(new_widget_dir(None, Some("/home/ana")), "/home/ana/.config/magnetar");
    assert_eq!(new_widget_dir(None, None), ".");
}

#[test]
fn loaded_widget_is_named_after_its_file() {
    let w = Widget::load(Some("side.html"), "<!-- magnetar: width=300 -->".to_string());
    assert_eq!(w.config.name, "side");
    assert_eq!(w.config.width, 300);
    assert_eq!(w.html, "<!-- magnetar: width=300 -->");
    let w = Widget::load(None, String::new());
    assert_eq!(w.config.name, "widget");
}

#[test]
fn default_widget_is_an_overlay_bar() {
    let w = default_widget(Some("<p>bar</p>".to_string()));
    assert_eq!(w.html, "<p>bar</p>");
    assert_eq!(w.config.name, "topbar");
    assert_eq!(w.config.layer, Layer::Overlay);
    assert_eq!(w.config.height, 40);
    assert_eq!(
        (w.config.anchor_top, w.config.anchor_bottom, w.config.anchor_left, w.config.anchor_right),
        (true, false, true, true)
    );
    let w = default_widget(None);
    assert!(w.html.contains("ERROR: topbar.html not found"));
    assert!(w.html.starts_with("<html>"));
}

#[test]
fn validation_of_a_template() {
    let c = WindowConfig::from_html(TOPBAR_TEMPLATE, "topbar".to_string());
    let r = validate_widget(TOPBAR_TEMPLATE, &c);
    assert!(r.looks_like_html);
    assert_eq!(r.anchor_count, 3);
    assert!(r.warnings.is_empty());
    assert!(r.errors.is_empty());
    assert!(r.is_valid());
}

#[test]
fn validation_finds_every_issue() {
    let html = "<!-- magnetar: height=0, width=0, anchor=none -->";
    let c = WindowConfig::from_html(html, "w".to_string());
    let r = validate_widget(html, &c);
    assert!(!r.looks_like_html);
    assert_eq!(r.anchor_count, 0);
    assert_eq!(r.warnings, vec![ValidationIssue::NoSize, ValidationIssue::TooShort]);
    assert_eq!(r.errors, vec![ValidationIssue::NoAnchors]);
    assert!(!r.is_valid());
}

#[test]
fn exclusive_zone_below_height_is_a_warning() {
    let html = "<HTML><!-- magnetar: height=40, exclusive_zone=10 --></HTML>";
    let c = WindowConfig::from_html(html, "w".to_string());
    let r = validate_widget(html, &c);
    assert!(r.looks_like_html);
    assert_eq!(r.warnings, vec![ValidationIssue::ExclusiveZoneBelowHeight, ValidationIssue::TooShort]);
    assert!(r.is_valid());
    let html = "<html><!-- magnetar: height=40, exclusive_zone=40 --></html>";
    let c = WindowConfig::from_html(html, "w".to_string());
    assert_eq!(validate_widget(html, &c).warnings, vec![ValidationIssue::TooShort]);
}

#[test]
fn length_is_counted_in_bytes() {
    let html = "ñ".repeat(50);
    let c = WindowConfig::from_html(&html, "w".to_string());
    let r = validate_widget(&html, &c);
    assert!(r.warnings.is_empty());
}

#[test]
fn valid_exactly_when_anchored() {
    for anchor in ["top", "bottom", "left", "right", "top|bottom", "x", ""] {
        let html = format!("<!-- magnetar: anchor={} -->", anchor);
        let c = WindowConfig::from_html(&html, "w".to_string());
        let r = validate_widget(&html, &c);
        assert_eq!(r.is_valid(), r.anchor_count > 0, "anchor {:?}", anchor);
    }
}

#[test]
fn issue_messages() {
    assert_eq!(
        ValidationIssue::NoSize.message(),
        "Tanto height como width son 0, el widget podría no ser visible"
    );
    assert_eq!(
        ValidationIssue::ExclusiveZoneBelowHeight.message(),
        "La zona exclusiva es menor que la altura del widget"
    );
    assert_eq!(
        ValidationIssue::TooShort.message(),
        "El archivo HTML es muy pequeño, podría estar incompleto"
    );
    assert_eq!(
        ValidationIssue::NoAnchors.message(),
        "No hay anclajes configurados, el widget no se posicionará correctamente"
    );
}

#[test]
fn logging_configurations() {
    let d = LogConfig::debug();
    assert_eq!(d.level, LogLevel::Debug);
    assert!(d.show_target && d.show_thread_names && d.show_line_number);
    assert!(!d.show_thread_ids && !d.show_file);
    assert!(d.compact && d.use_colors && d.filter_noisy_crates);
    let r = LogConfig::release();
    assert_eq!(r.level, LogLevel::Info);
    assert!(!r.show_target && !r.show_thread_names && !r.show_line_number);
    assert!(r.compact && r.use_colors && r.filter_noisy_crates);
    let m = LogConfig::minimal();
    assert_eq!(m.level, LogLevel::Error);
    assert!(!m.use_colors && m.filter_noisy_crates);
    assert_eq!(LogConfig::for_build(true), d);
    assert_eq!(LogConfig::for_build(false), r);
}

#[test]
fn logging_directives() {
    assert_eq!(LogConfig::debug().default_directive(), "magnetar=DEBUG");
    assert_eq!(LogConfig::release().default_directive(), "magnetar=INFO");
    assert_eq!(LogConfig::minimal().default_directive(), "magnetar=ERROR");
    assert_eq!(
        LogConfig::debug().noisy_crate_directives(),
        vec!["gtk=warn", "webkit6=warn", "glib=warn", "gdk=warn", "gio=warn"]
    );
    let mut quiet = LogConfig::minimal();
    quiet.filter_noisy_crates = false;
    assert!(quiet.noisy_crate_directives().is_empty());
    assert_eq!(LogLevel::Trace.name(), "TRACE");
    assert_eq!(LogLevel::Warn.name(), "WARN");
}

#[test]
fn shell_loader_uses_the_given_directory() {
    let l = WidgetLoader::with_config_dir("/srv/widgets".to_string());
    assert_eq!(l.search_paths(), &vec!["/srv/widgets".to_string()]);
    let l = WidgetLoader::for_shell(Some("d".to_string()), Some("/home/ana".to_string()));
    assert_eq!(l.search_paths(), &vec!["d".to_string()]);
    let l = WidgetLoader::for_shell(None, Some("/home/ana".to_string()));
    assert_eq!(l.search_paths(), &vec!["/home/ana/.config/magnetar".to_string(), ".".to_string()]);
}

#[test]
fn log_level_names() {
    assert_eq!(LogLevel::from_name("error"), Some(LogLevel::Error));
    assert_eq!(LogLevel::from_name("warn"), Some(LogLevel::Warn));
    assert_eq!(LogLevel::from_name("info"), Some(LogLevel::Info));
    assert_eq!(LogLevel::from_name("debug"), Some(LogLevel::Debug));
    assert_eq!(LogLevel::from_name("trace"), Some(LogLevel::Trace));
    assert_eq!(LogLevel::from_name("verbose"), None);
    let c = LogConfig::release().with_level(LogLevel::Trace);
    assert_eq!(c.level, LogLevel::Trace);
    assert_eq!(c.default_directive(), "magnetar=TRACE");
    assert_eq!(c.show_target, LogConfig::release().show_target);
}
