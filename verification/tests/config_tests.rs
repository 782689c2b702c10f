use magnetar::config::{Layer, WindowConfig, EXCLUSIVE_ZONE_AUTO};
use magnetar::templates::{NOTIFICATION_TEMPLATE, OVERLAY_TEMPLATE, SIDEBAR_TEMPLATE, TOPBAR_TEMPLATE};
use magnetar::window::{resize_dimensions, resize_request};

fn anchors(c: &WindowConfig) -> (bool, bool, bool, bool) {
    (c.anchor_top, c.anchor_bottom, c.anchor_left, c.anchor_right)
}

fn margins(c: &WindowConfig) -> (i32, i32, i32, i32) {
    (c.margin_top, c.margin_bottom, c.margin_left, c.margin_right)
}

fn assert_defaults(c: &WindowConfig, name: &str) {
    assert_eq!(c.name, name);
    assert_eq!(c.layer, Layer::Top);
    assert_eq!(c.height, 40);
    assert_eq!(c.width, 0);
    assert_eq!(margins(c), (0, 0, 0, 0));
    assert_eq!(anchors(c), (true, false, true, true));
    assert_eq!(c.exclusive_zone, EXCLUSIVE_ZONE_AUTO);
}

#[test]
fn default_config_is_a_top_bar() {
    let c = WindowConfig::default();
    assert_defaults(&c, "magnetar");
}

#[test]
fn named_config_has_defaults() {
    let c = WindowConfig::named("bar".to_string());
    assert_defaults(&c, "bar");
}

#[test]
fn page_without_comment_gets_defaults() {
    let c = WindowConfig::from_html("<html><body>hola</body></html>", "plain".to_string());
    assert_defaults(&c, "plain");
}

#[test]
fn unclosed_comment_gets_defaults() {
    let c = WindowConfig::from_html("<!-- magnetar: layer=overlay, height=10", "w".to_string());
    assert_defaults(&c, "w");
}

#[test]
fn topbar_template_configuration() {
    let c = WindowConfig::from_html(TOPBAR_TEMPLATE, "topbar".to_string());
    assert_eq!(c.name, "topbar");
    assert_eq!(c.layer, Layer::Top);
    assert_eq!(c.height, 40);
    assert_eq!(c.width, 0);
    assert_eq!(anchors(&c), (true, false, true, true));
    assert_eq!(c.exclusive_zone, -1);
}

#[test]
fn sidebar_template_configuration() {
    let c = WindowConfig::from_html(SIDEBAR_TEMPLATE, "side".to_string());
    assert_eq!(c.layer, Layer::Top);
    assert_eq!(c.width, 300);
    assert_eq!(c.height, 40);
    assert_eq!(anchors(&c), (true, true, true, false));
    assert_eq!(c.exclusive_zone, -1);
}

#[test]
fn overlay_template_configuration() {
    let c = WindowConfig::from_html(OVERLAY_TEMPLATE, "over".to_string());
    assert_eq!(c.layer, Layer::Overlay);
    assert_eq!(c.height, 200);
    assert_eq!(c.width, 400);
    assert_eq!(anchors(&c), (true, false, false, true));
    assert_eq!(margins(&c), (50, 0, 0, 50));
    assert_eq!(c.exclusive_zone, EXCLUSIVE_ZONE_AUTO);
}

#[test]
fn notification_template_configuration() {
    let c = WindowConfig::from_html(NOTIFICATION_TEMPLATE, "note".to_string());
    assert_eq!(c.layer, Layer::Overlay);
    assert_eq!(c.height, 100);
    assert_eq!(c.width, 350);
    assert_eq!(anchors(&c), (true, false, false, true));
    assert_eq!(margins(&c), (10, 0, 0, 10));
}

#[test]
fn every_layer_name_is_read() {
    let cases = [
        ("background", Layer::Background),
        ("bottom", Layer::Bottom),
        ("top", Layer::Top),
        ("overlay", Layer::Overlay),
    ];
    for (value, layer) in cases {
        let html = format!("<!-- magnetar: layer={} -->", value);
        let c = WindowConfig::from_html(&html, "w".to_string());
        assert_eq!(c.layer, layer);
    }
}

#[test]
fn unknown_layer_is_overlay() {
    let c = WindowConfig::from_html("<!-- magnetar: layer=middle -->", "w".to_string());
    assert_eq!(c.layer, Layer::Overlay);
    let c = WindowConfig::from_html("<!-- magnetar: layer=TOP -->", "w".to_string());
    assert_eq!(c.layer, Layer::Overlay);
}

#[test]
fn keys_and_values_are_trimmed() {
    let c = WindowConfig::from_html(
        "<!-- magnetar:  layer = background ,  height = 25 , margin_left=\t7 -->",
        "w".to_string(),
    );
    assert_eq!(c.layer, Layer::Background);
    assert_eq!(c.height, 25);
    assert_eq!(c.margin_left, 7);
}

#[test]
fn unreadable_numbers_keep_defaults() {
    let c = WindowConfig::from_html(
        "<!-- magnetar: height=abc, width=1.5, margin_top=, exclusive_zone=auto -->",
        "w".to_string(),
    );
    assert_eq!(c.height, 40);
    assert_eq!(c.width, 0);
    assert_eq!(c.margin_top, 0);
    assert_eq!(c.exclusive_zone, EXCLUSIVE_ZONE_AUTO);
}

#[test]
fn numbers_follow_integer_parsing() {
    let c = WindowConfig::from_html(
        "<!-- magnetar: height=+50, width=-5, margin_bottom=2147483647, margin_right=2147483648 -->",
        "w".to_string(),
    );
    assert_eq!(c.height, 50);
    assert_eq!(c.width, -5);
    assert_eq!(c.margin_bottom, i32::MAX);
    assert_eq!(c.margin_right, 0);
    let c = WindowConfig::from_html("<!-- magnetar: height=-2147483648, width=- 3 -->", "w".to_string());
    assert_eq!(c.height, i32::MIN);
    assert_eq!(c.width, 0);
}

#[test]
fn a_later_setting_wins() {
    let c = WindowConfig::from_html("<!-- magnetar: height=10, height=20 -->", "w".to_string());
    assert_eq!(c.height, 20);
}

#[test]
fn anchor_setting_replaces_all_anchors() {
    let c = WindowConfig::from_html("<!-- magnetar: anchor=bottom -->", "w".to_string());
    assert_eq!(anchors(&c), (false, true, false, false));
    let c = WindowConfig::from_html("<!-- magnetar: anchor= left | right |nowhere -->", "w".to_string());
    assert_eq!(anchors(&c), (false, false, true, true));
    let c = WindowConfig::from_html("<!-- magnetar: anchor= -->", "w".to_string());
    assert_eq!(anchors(&c), (false, false, false, false));
}

#[test]
fn anchor_setting_changes_nothing_else() {
    let c = WindowConfig::from_html(
        "<!-- magnetar: height=12, layer=bottom, anchor=top|bottom, margin_top=3 -->",
        "w".to_string(),
    );
    assert_eq!(anchors(&c), (true, true, false, false));
    assert_eq!(c.height, 12);
    assert_eq!(c.layer, Layer::Bottom);
    assert_eq!(c.margin_top, 3);
}

#[test]
fn unknown_keys_and_bare_words_are_ignored() {
    let c = WindowConfig::from_html("<!-- magnetar: colour=red, floating, name=other -->", "mine".to_string());
    assert_defaults(&c, "mine");
}

#[test]
fn value_may_hold_an_equals_sign() {
    let c = WindowConfig::from_html("<!-- magnetar: height=3=4, width=7 -->", "w".to_string());
    assert_eq!(c.height, 40);
    assert_eq!(c.width, 7);
}

#[test]
fn only_the_first_comment_counts() {
    let html = "<!-- magnetar: height=11 --><p>x</p><!-- magnetar: height=22 -->";
    let c = WindowConfig::from_html(html, "w".to_string());
    assert_eq!(c.height, 11);
}

#[test]
fn comment_may_sit_anywhere_in_the_page() {
    let html = "<html><head><!-- magnetar: width=640 --></head></html>";
    let c = WindowConfig::from_html(html, "w".to_string());
    assert_eq!(c.width, 640);
}

#[test]
fn name_is_never_changed_by_settings() {
    let c = WindowConfig::from_html(OVERLAY_TEMPLATE, "kept".to_string());
    assert_eq!(c.name, "kept");
}

#[test]
fn clone_keeps_every_field() {
    let c = WindowConfig::from_html(OVERLAY_TEMPLATE, "over".to_string());
    let d = c.clone();
    assert_eq!(d.name, c.name);
    assert_eq!(d.layer, c.layer);
    assert_eq!((d.height, d.width), (c.height, c.width));
    assert_eq!(anchors(&d), anchors(&c));
    assert_eq!(margins(&d), margins(&c));
    assert_eq!(d.exclusive_zone, c.exclusive_zone);
}

#[test]
fn automatic_exclusive_zone_is_the_height() {
    let c = WindowConfig::from_html("<!-- magnetar: height=33 -->", "w".to_string());
    assert_eq!(c.effective_exclusive_zone(), 33);
    let c = WindowConfig::from_html("<!-- magnetar: height=33, exclusive_zone=0 -->", "w".to_string());
    assert_eq!(c.effective_exclusive_zone(), 0);
    let c = WindowConfig::from_html("<!-- magnetar: exclusive_zone=-7 -->", "w".to_string());
    assert_eq!(c.effective_exclusive_zone(), -7);
}

#[test]
fn width_is_explicit_only_when_positive() {
    let c = WindowConfig::from_html("<!-- magnetar: width=300 -->", "w".to_string());
    assert_eq!(c.explicit_width(), Some(300));
    let c = WindowConfig::from_html("<!-- magnetar: width=0 -->", "w".to_string());
    assert_eq!(c.explicit_width(), None);
    let c = WindowConfig::from_html("<!-- magnetar: width=-4 -->", "w".to_string());
    assert_eq!(c.explicit_width(), None);
}

#[test]
fn resize_cuts_values_to_32_bits() {
    assert_eq!(resize_dimensions(Some(300), None), (Some(300), None));
    assert_eq!(resize_dimensions(None, Some(-20)), (None, Some(-20)));
    assert_eq!(resize_dimensions(Some(4294967297), Some(2147483648)), (Some(1), Some(i32::MIN)));
    assert_eq!(resize_dimensions(None, None), (None, None));
}

#[test]
fn resize_reads_integer_members() {
    assert_eq!(resize_request(r#"{"width":300}"#), (Some(300), None));
    assert_eq!(resize_request(r#"{"width":1.5,"height":-20}"#), (None, Some(-20)));
    assert_eq!(resize_request(r#"{"height":4294967297}"#), (None, Some(1)));
    assert_eq!(resize_request("null"), (None, None));
}

#[test]
fn unknown_keys_and_bare_words_at_the_end_change_nothing() {
    for body in ["layer=overlay, height=120, anchor=bottom|left", "width=300", "", "height=abc"] {
        let h1 = format!("<!-- magnetar: {} -->", body);
        let h2 = format!("<!-- magnetar: {}, colour=red, junk -->", body);
        let a = WindowConfig::from_html(&h1, "w".to_string());
        let b = WindowConfig::from_html(&h2, "w".to_string());
        assert_eq!(a.layer, b.layer);
        assert_eq!((a.height, a.width, a.exclusive_zone), (b.height, b.width, b.exclusive_zone));
        assert_eq!(anchors(&a), anchors(&b));
        assert_eq!(margins(&a), margins(&b));
    }
}
