//! Widget window configuration, read from the HTML comment
//! `<!-- magnetar: key=value, key=value -->` of a widget file.
use vstd::prelude::*;

use crate::numbers::{parse_i32, parse_i32_exec};
use crate::text::{
    chars_eq_str, find_from, find_from_exec, lemma_find_from, matches_at, split_on, split_once,
    sub_chars, to_chars, trim, trim_exec,
};

verus! {

/// Exclusive zone value meaning "reserve as much space as the window is high".
pub const EXCLUSIVE_ZONE_AUTO: i32 = -1;

/// The layer-shell layer a widget window is placed on.
#[derive(Clone, Copy, Debug, PartialEq, Eq, Structural)]
pub enum Layer {
    Background,
    Bottom,
    Top,
    Overlay,
}

/// Configuration of one widget window.
#[derive(Debug)]
pub struct WindowConfig {
    pub name: String,
    pub layer: Layer,
    pub height: i32,
    pub width: i32,
    pub margin_top: i32,
    pub margin_bottom: i32,
    pub margin_left: i32,
    pub margin_right: i32,
    pub anchor_top: bool,
    pub anchor_bottom: bool,
    pub anchor_left: bool,
    pub anchor_right: bool,
    pub exclusive_zone: i32,
}

/// The mathematical value of a [`WindowConfig`]: its fields, with the name as characters.
#[verifier::ext_equal]
pub struct WindowConfigView {
    pub name: Seq<char>,
    pub layer: Layer,
    pub height: i32,
    pub width: i32,
    pub margin_top: i32,
    pub margin_bottom: i32,
    pub margin_left: i32,
    pub margin_right: i32,
    pub anchor_top: bool,
    pub anchor_bottom: bool,
    pub anchor_left: bool,
    pub anchor_right: bool,
    pub exclusive_zone: i32,
}

impl View for WindowConfig {
    type V = WindowConfigView;

    open spec fn view(&self) -> WindowConfigView {
        WindowConfigView {
            name: self.name@,
            layer: self.layer,
            height: self.height,
            width: self.width,
            margin_top: self.margin_top,
            margin_bottom: self.margin_bottom,
            margin_left: self.margin_left,
            margin_right: self.margin_right,
            anchor_top: self.anchor_top,
            anchor_bottom: self.anchor_bottom,
            anchor_left: self.anchor_left,
            anchor_right: self.anchor_right,
            exclusive_zone: self.exclusive_zone,
        }
    }
}

// ---------------------------------------------------------------------------
// Specification of the configuration comment
// ---------------------------------------------------------------------------

/// The default configuration of a window called `name`: a 40 pixel high bar on the top
/// layer, anchored to the top, left and right edges, with an automatic exclusive zone.
pub open spec fn default_view(name: Seq<char>) -> WindowConfigView {
    WindowConfigView {
        name: name,
        layer: Layer::Top,
        height: 40,
        width: 0,
        margin_top: 0,
        margin_bottom: 0,
        margin_left: 0,
        margin_right: 0,
        anchor_top: true,
        anchor_bottom: false,
        anchor_left: true,
        anchor_right: true,
        exclusive_zone: EXCLUSIVE_ZONE_AUTO,
    }
}

/// The layer a `layer=` value names; any other value gives `Overlay`.
pub open spec fn layer_of(value: Seq<char>) -> Layer {
    if value == "background"@ {
        Layer::Background
    } else if value == "bottom"@ {
        Layer::Bottom
    } else if value == "top"@ {
        Layer::Top
    } else if value == "overlay"@ {
        Layer::Overlay
    } else {
        Layer::Overlay
    }
}

/// The number a numeric value writes, or `default` where it writes none.
pub open spec fn number_or(value: Seq<char>, default: i32) -> i32 {
    match parse_i32(value) {
        Some(v) => v,
        None => default,
    }
}

/// One edge of an `anchor=` value set on `c` (the edge is trimmed; unknown edges change nothing).
pub open spec fn apply_edge(c: WindowConfigView, edge: Seq<char>) -> WindowConfigView {
    let e = trim(edge);
    if e == "top"@ {
        WindowConfigView { anchor_top: true, ..c }
    } else if e == "bottom"@ {
        WindowConfigView { anchor_bottom: true, ..c }
    } else if e == "left"@ {
        WindowConfigView { anchor_left: true, ..c }
    } else if e == "right"@ {
        WindowConfigView { anchor_right: true, ..c }
    } else {
        c
    }
}

/// The edges applied one after another, from the first.
pub open spec fn apply_edges(c: WindowConfigView, edges: Seq<Seq<char>>) -> WindowConfigView
    decreases edges.len(),
{
    if edges.len() == 0 {
        c
    } else {
        apply_edge(apply_edges(c, edges.drop_last()), edges.last())
    }
}

/// `c` without any anchor.
pub open spec fn clear_anchors(c: WindowConfigView) -> WindowConfigView {
    WindowConfigView {
        anchor_top: false,
        anchor_bottom: false,
        anchor_left: false,
        anchor_right: false,
        ..c
    }
}

/// An `anchor=` value applied to `c`: every anchor cleared, then each `|`-separated edge set.
pub open spec fn anchors_of(c: WindowConfigView, value: Seq<char>) -> WindowConfigView {
    apply_edges(clear_anchors(c), split_on(value, '|'))
}

/// One `key=value` setting applied to `c`; unknown keys change nothing.
pub open spec fn apply_entry(c: WindowConfigView, key: Seq<char>, value: Seq<char>) -> WindowConfigView {
    if key == "layer"@ {
        WindowConfigView { layer: layer_of(value), ..c }
    } else if key == "height"@ {
        WindowConfigView { height: number_or(value, 40), ..c }
    } else if key == "width"@ {
        WindowConfigView { width: number_or(value, 0), ..c }
    } else if key == "margin_top"@ {
        WindowConfigView { margin_top: number_or(value, 0), ..c }
    } else if key == "margin_bottom"@ {
        WindowConfigView { margin_bottom: number_or(value, 0), ..c }
    } else if key == "margin_left"@ {
        WindowConfigView { margin_left: number_or(value, 0), ..c }
    } else if key == "margin_right"@ {
        WindowConfigView { margin_right: number_or(value, 0), ..c }
    } else if key == "exclusive_zone"@ {
        WindowConfigView { exclusive_zone: number_or(value, EXCLUSIVE_ZONE_AUTO), ..c }
    } else if key == "anchor"@ {
        anchors_of(c, value)
    } else {
        c
    }
}

/// One comma-separated part of the comment applied to `c`: the trimmed part is split at its
/// first `=`, and key and value are trimmed; a part without `=` changes nothing.
pub open spec fn apply_part(c: WindowConfigView, part: Seq<char>) -> WindowConfigView {
    match split_once(trim(part), seq!['=']) {
        None => c,
        Some(kv) => apply_entry(c, trim(kv.0), trim(kv.1)),
    }
}

/// The parts applied one after another, from the first.
pub open spec fn apply_parts(c: WindowConfigView, parts: Seq<Seq<char>>) -> WindowConfigView
    decreases parts.len(),
{
    if parts.len() == 0 {
        c
    } else {
        apply_part(apply_parts(c, parts.drop_last()), parts.last())
    }
}

/// The text that opens a configuration comment.
pub open spec fn config_open() -> Seq<char> {
    "<!-- magnetar:"@
}

/// The text that closes a comment.
pub open spec fn comment_close() -> Seq<char> {
    "-->"@
}

/// The settings text of the first configuration comment of `html`: what stands between
/// `<!-- magnetar:` and the first `-->` after it, if both are there.
pub open spec fn config_section(html: Seq<char>) -> Option<Seq<char>> {
    match find_from(html, config_open(), 0) {
        None => None,
        Some(start) => match find_from(html, comment_close(), start + config_open().len()) {
            None => None,
            Some(end) => Some(html.subrange(start + config_open().len(), end)),
        },
    }
}

/// The configuration that `WindowConfig::from_html` reads from `html` for a window called `name`.
pub open spec fn config_from_html(html: Seq<char>, name: Seq<char>) -> WindowConfigView {
    match config_section(html) {
        None => default_view(name),
        Some(text) => apply_parts(default_view(name), split_on(text, ',')),
    }
}

// ---------------------------------------------------------------------------
// Lemmas
// ---------------------------------------------------------------------------

/// `split_on` always yields at least one piece.
pub proof fn lemma_split_on_nonempty(s: Seq<char>, sep: char)
    ensures
        split_on(s, sep).len() >= 1,
    decreases s.len(),
{
    if s.len() > 0 {
        lemma_split_on_nonempty(s.drop_last(), sep);
    }
}

/// How the pieces of a prefix grow by one character.
pub proof fn lemma_split_on_step(t: Seq<char>, i: int, sep: char)
    requires
        0 <= i < t.len(),
    ensures
        split_on(t.take(i + 1), sep) == (if t[i] == sep {
            split_on(t.take(i), sep).push(Seq::<char>::empty())
        } else {
            let p = split_on(t.take(i), sep);
            p.update(p.len() - 1, p.last().push(t[i]))
        }),
{
    assert(t.take(i + 1).drop_last() =~= t.take(i));
    assert(t.take(i + 1).last() == t[i]);
}

// ---------------------------------------------------------------------------
// Executable parser
// ---------------------------------------------------------------------------

impl Clone for WindowConfig {
    fn clone(&self) -> (r: Self)
        ensures
            r == *self,
    {
        WindowConfig {
            name: self.name.clone(),
            layer: self.layer,
            height: self.height,
            width: self.width,
            margin_top: self.margin_top,
            margin_bottom: self.margin_bottom,
            margin_left: self.margin_left,
            margin_right: self.margin_right,
            anchor_top: self.anchor_top,
            anchor_bottom: self.anchor_bottom,
            anchor_left: self.anchor_left,
            anchor_right: self.anchor_right,
            exclusive_zone: self.exclusive_zone,
        }
    }
}

impl Default for WindowConfig {
    fn default() -> (r: Self)
        ensures
            r@ == default_view("magnetar"@),
    {
        Self::named(String::from_str("magnetar"))
    }
}

impl WindowConfig {
    /// The default configuration (see [`default_view`]) of a window called `name`.
    pub fn named(name: String) -> (r: Self)
        ensures
            r@ == default_view(name@),
    {
        WindowConfig {
            name,
            layer: Layer::Top,
            height: 40,
            width: 0,
            margin_top: 0,
            margin_bottom: 0,
            margin_left: 0,
            margin_right: 0,
            anchor_top: true,
            anchor_bottom: false,
            anchor_left: true,
            anchor_right: true,
            exclusive_zone: EXCLUSIVE_ZONE_AUTO,
        }
    }

    /// Reads the configuration from the HTML comment `<!-- magnetar: key=value, ... -->`
    /// of a widget; settings that are absent or unreadable keep their defaults.
    pub fn from_html(html: &str, name: String) -> (r: Self)
        ensures
            r@ == config_from_html(html@, name@),
    {
        let mut config = Self::named(name);
        let h = to_chars(html);
        let open = to_chars("<!-- magnetar:");
        let start = match find_from_exec(h.as_slice(), open.as_slice(), 0) {
            Some(i) => i,
            None => return config,
        };
        let close = to_chars("-->");
        proof {
            lemma_find_from(h@, open@, 0);
        }
        assert(start + open@.len() <= h@.len());
        let hl = h.len();
        assert(start + open.len() <= hl);
        let end = match find_from_exec(h.as_slice(), close.as_slice(), start + open.len()) {
            Some(i) => i,
            None => return config,
        };
        proof {
            lemma_find_from(h@, close@, start + open@.len());
        }
        let text = sub_chars(h.as_slice(), start + open.len(), end);
        config.apply_settings(text.as_slice());
        config
    }

    /// Applies the comma-separated settings `text` in order.
    fn apply_settings(&mut self, text: &[char])
        ensures
            final(self)@ == apply_parts(old(self)@, split_on(text@, ',')),
    {
        let ghost init = self@;
        let n = text.len();
        let mut piece: Vec<char> = Vec::new();
        proof {
            assert(text@.take(0) =~= Seq::<char>::empty());
        }
        for i in 0..n
            invariant
                n == text@.len(),
                split_on(text@.take(i as int), ',').len() >= 1,
                self@ == apply_parts(init, split_on(text@.take(i as int), ',').drop_last()),
                piece@ == split_on(text@.take(i as int), ',').last(),
        {
            let ghost pcs = split_on(text@.take(i as int), ',');
            proof {
                lemma_split_on_step(text@, i as int, ',');
            }
            if text[i] == ',' {
                self.apply_part(piece.as_slice());
                piece = Vec::new();
                proof {
                    assert(pcs.push(Seq::<char>::empty()).drop_last() =~= pcs);
                }
            } else {
                piece.push(text[i]);
                proof {
                    let q = pcs.update(pcs.len() - 1, pcs.last().push(text@[i as int]));
                    assert(q.drop_last() =~= pcs.drop_last());
                }
            }
        }
        proof {
            assert(text@.take(n as int) =~= text@);
        }
        self.apply_part(piece.as_slice());
    }

    /// Applies one `key=value` part.
    fn apply_part(&mut self, part: &[char])
        ensures
            final(self)@ == apply_part(old(self)@, part@),
    {
        let t = trim_exec(part);
        let eq = vec!['='];
        assert(eq@ =~= seq!['=']);
        match find_from_exec(t.as_slice(), eq.as_slice(), 0) {
            None => {},
            Some(k) => {
                proof {
                    lemma_find_from(t@, eq@, 0);
                }
                let key = sub_chars(t.as_slice(), 0, k);
                let value = sub_chars(t.as_slice(), k + 1, t.len());
                let key = trim_exec(key.as_slice());
                let value = trim_exec(value.as_slice());
                self.apply_entry(key.as_slice(), value.as_slice());
            },
        }
    }

    /// Applies one setting.
    fn apply_entry(&mut self, key: &[char], value: &[char])
        ensures
            final(self)@ == apply_entry(old(self)@, key@, value@),
    {
        if chars_eq_str(key, "layer") {
            self.layer = Self::parse_layer(value);
        } else if chars_eq_str(key, "height") {
            self.height = number_or_exec(value, 40);
        } else if chars_eq_str(key, "width") {
            self.width = number_or_exec(value, 0);
        } else if chars_eq_str(key, "margin_top") {
            self.margin_top = number_or_exec(value, 0);
        } else if chars_eq_str(key, "margin_bottom") {
            self.margin_bottom = number_or_exec(value, 0);
        } else if chars_eq_str(key, "margin_left") {
            self.margin_left = number_or_exec(value, 0);
        } else if chars_eq_str(key, "margin_right") {
            self.margin_right = number_or_exec(value, 0);
        } else if chars_eq_str(key, "exclusive_zone") {
            self.exclusive_zone = number_or_exec(value, EXCLUSIVE_ZONE_AUTO);
        } else if chars_eq_str(key, "anchor") {
            Self::parse_anchors(self, value);
        }
    }

    /// The layer a `layer=` value names; unknown values give `Overlay`.
    fn parse_layer(value: &[char]) -> (r: Layer)
        ensures
            r == layer_of(value@),
    {
        if chars_eq_str(value, "background") {
            Layer::Background
        } else if chars_eq_str(value, "bottom") {
            Layer::Bottom
        } else if chars_eq_str(value, "top") {
            Layer::Top
        } else if chars_eq_str(value, "overlay") {
            Layer::Overlay
        } else {
            Layer::Overlay
        }
    }

    /// Clears every anchor, then sets each `|`-separated edge of `value`.
    fn parse_anchors(config: &mut Self, value: &[char])
        ensures
            final(config)@ == anchors_of(old(config)@, value@),
    {
        config.anchor_top = false;
        config.anchor_bottom = false;
        config.anchor_left = false;
        config.anchor_right = false;
        let ghost init = config@;
        assert(init == clear_anchors(old(config)@));
        let n = value.len();
        let mut piece: Vec<char> = Vec::new();
        proof {
            assert(value@.take(0) =~= Seq::<char>::empty());
        }
        for i in 0..n
            invariant
                n == value@.len(),
                split_on(value@.take(i as int), '|').len() >= 1,
                config@ == apply_edges(init, split_on(value@.take(i as int), '|').drop_last()),
                piece@ == split_on(value@.take(i as int), '|').last(),
        {
            let ghost pcs = split_on(value@.take(i as int), '|');
            proof {
                lemma_split_on_step(value@, i as int, '|');
            }
            if value[i] == '|' {
                config.apply_edge(piece.as_slice());
                piece = Vec::new();
                proof {
                    assert(pcs.push(Seq::<char>::empty()).drop_last() =~= pcs);
                }
            } else {
                piece.push(value[i]);
                proof {
                    let q = pcs.update(pcs.len() - 1, pcs.last().push(value@[i as int]));
                    assert(q.drop_last() =~= pcs.drop_last());
                }
            }
        }
        proof {
            assert(value@.take(n as int) =~= value@);
        }
        config.apply_edge(piece.as_slice());
    }

    /// Sets the anchor that one (untrimmed) edge names.
    fn apply_edge(&mut self, edge: &[char])
        ensures
            final(self)@ == apply_edge(old(self)@, edge@),
    {
        let e = trim_exec(edge);
        if chars_eq_str(e.as_slice(), "top") {
            self.anchor_top = true;
        } else if chars_eq_str(e.as_slice(), "bottom") {
            self.anchor_bottom = true;
        } else if chars_eq_str(e.as_slice(), "left") {
            self.anchor_left = true;
        } else if chars_eq_str(e.as_slice(), "right") {
            self.anchor_right = true;
        }
    }
}

/// The number `value` writes, or `default`.
fn number_or_exec(value: &[char], default: i32) -> (r: i32)
    ensures
        r == number_or(value@, default),
{
    match parse_i32_exec(value) {
        Some(v) => v,
        None => default,
    }
}

} // verus!
