//! Properties of the library as a whole, proved over the specifications of its functions.
use vstd::prelude::*;

use crate::cli::name_placeholder;
use crate::compositor::{clients_on, Client};
use crate::config::{
    anchors_of, apply_edge, apply_edges, apply_entry, apply_part, apply_parts, clear_anchors,
    config_from_html, config_open, config_section, default_view, lemma_split_on_nonempty,
    WindowConfigView,
};
use crate::hyprland::{client_of, parse_event, ClientRaw, EventView};
use crate::ipc::{plan_dispatch_spec, DispatchPlan};
use crate::text::{
    contains, find_from, is_ws, lemma_find_from, matches_at, replace_all, split_on, split_once, trim,
    trim_end, trim_start,
};
use crate::validate::{anchor_count, expected_errors, ValidationIssue};

verus! {

// ---------------------------------------------------------------------------
// The configuration comment
// ---------------------------------------------------------------------------

proof fn lemma_edges_keep_name(c: WindowConfigView, edges: Seq<Seq<char>>)
    ensures
        apply_edges(c, edges).name == c.name,
    decreases edges.len(),
{
    if edges.len() > 0 {
        lemma_edges_keep_name(c, edges.drop_last());
    }
}

proof fn lemma_parts_keep_name(c: WindowConfigView, parts: Seq<Seq<char>>)
    ensures
        apply_parts(c, parts).name == c.name,
    decreases parts.len(),
{
    if parts.len() > 0 {
        lemma_parts_keep_name(c, parts.drop_last());
        let prev = apply_parts(c, parts.drop_last());
        let p = parts.last();
        match crate::text::split_once(trim(p), seq!['=']) {
            None => {},
            Some(kv) => {
                lemma_edges_keep_name(clear_anchors(prev), split_on(trim(kv.1), '|'));
            },
        }
    }
}

/// A widget's window is always called by the name it is loaded under: no setting of the
/// configuration comment renames it.
pub proof fn law_from_html_keeps_name(html: Seq<char>, name: Seq<char>)
    ensures
        config_from_html(html, name).name == name,
{
    match config_section(html) {
        None => {},
        Some(text) => lemma_parts_keep_name(default_view(name), split_on(text, ',')),
    }
}

/// A page without a `<!-- magnetar:` comment gets the default configuration.
pub proof fn law_no_comment_gives_defaults(html: Seq<char>, name: Seq<char>)
    requires
        !contains(html, config_open()),
    ensures
        config_from_html(html, name) == default_view(name),
{
}

/// Whether one of the edges names `edge` once trimmed.
pub open spec fn lists_edge(edges: Seq<Seq<char>>, edge: Seq<char>) -> bool {
    exists|i: int| 0 <= i < edges.len() && trim(#[trigger] edges[i]) == edge
}

proof fn lemma_edges(c: WindowConfigView, edges: Seq<Seq<char>>)
    ensures
        apply_edges(c, edges).anchor_top == (c.anchor_top || lists_edge(edges, "top"@)),
        apply_edges(c, edges).anchor_bottom == (c.anchor_bottom || lists_edge(edges, "bottom"@)),
        apply_edges(c, edges).anchor_left == (c.anchor_left || lists_edge(edges, "left"@)),
        apply_edges(c, edges).anchor_right == (c.anchor_right || lists_edge(edges, "right"@)),
        apply_edges(c, edges) == (WindowConfigView {
            anchor_top: apply_edges(c, edges).anchor_top,
            anchor_bottom: apply_edges(c, edges).anchor_bottom,
            anchor_left: apply_edges(c, edges).anchor_left,
            anchor_right: apply_edges(c, edges).anchor_right,
            ..c
        }),
    decreases edges.len(),
{
    reveal_strlit("top");
    reveal_strlit("bottom");
    reveal_strlit("left");
    reveal_strlit("right");
    assert("top"@.len() == 3 && "bottom"@.len() == 6 && "left"@.len() == 4 && "right"@.len() == 5);
    if edges.len() > 0 {
        let init = edges.drop_last();
        lemma_edges(c, init);
        let last = edges.last();
        assert forall|e: Seq<char>| lists_edge(edges, e) == (lists_edge(init, e) || trim(last)
            == e) by {
            if lists_edge(edges, e) {
                let i = choose|i: int| 0 <= i < edges.len() && trim(#[trigger] edges[i]) == e;
                if i < edges.len() - 1 {
                    assert(init[i] == edges[i]);
                }
            }
            if lists_edge(init, e) {
                let i = choose|i: int| 0 <= i < init.len() && trim(#[trigger] init[i]) == e;
                assert(edges[i] == init[i]);
            }
            if trim(last) == e {
                assert(edges[edges.len() - 1] == last);
            }
        }
    }
}

/// An `anchor=` setting anchors the window to exactly the edges it lists, separated by
/// `|`, whatever it was anchored to before; nothing else changes.
pub proof fn law_anchor_setting_lists_exact_edges(c: WindowConfigView, value: Seq<char>)
    ensures
        ({
            let edges = split_on(value, '|');
            let r = anchors_of(c, value);
            &&& r.anchor_top == lists_edge(edges, "top"@)
            &&& r.anchor_bottom == lists_edge(edges, "bottom"@)
            &&& r.anchor_left == lists_edge(edges, "left"@)
            &&& r.anchor_right == lists_edge(edges, "right"@)
            &&& r.name == c.name && r.layer == c.layer && r.height == c.height && r.width
                == c.width && r.exclusive_zone == c.exclusive_zone && r.margin_top == c.margin_top
                && r.margin_bottom == c.margin_bottom && r.margin_left == c.margin_left
                && r.margin_right == c.margin_right
        }),
{
    lemma_edges(clear_anchors(c), split_on(value, '|'));
}

// ---------------------------------------------------------------------------
// Hyprland events
// ---------------------------------------------------------------------------

proof fn lemma_trim_start_shape(s: Seq<char>)
    ensures
        trim_start(s).len() <= s.len(),
        trim_start(s) == s.subrange(s.len() - trim_start(s).len(), s.len() as int),
        trim_start(s).len() == 0 || !is_ws(trim_start(s)[0]),
    decreases s.len(),
{
    if s.len() > 0 && is_ws(s[0]) {
        lemma_trim_start_shape(s.drop_first());
        let t = trim_start(s.drop_first());
        assert(s.drop_first().subrange(s.drop_first().len() - t.len(), s.drop_first().len() as int)
            =~= s.subrange(s.len() - t.len(), s.len() as int));
    } else {
        assert(s.subrange(0, s.len() as int) =~= s);
    }
}

proof fn lemma_trim_end_shape(s: Seq<char>)
    ensures
        trim_end(s).len() <= s.len(),
        trim_end(s) == s.subrange(0, trim_end(s).len() as int),
        trim_end(s).len() == 0 || !is_ws(trim_end(s).last()),
    decreases s.len(),
{
    if s.len() > 0 && is_ws(s.last()) {
        lemma_trim_end_shape(s.drop_last());
        let t = trim_end(s.drop_last());
        assert(s.drop_last().subrange(0, t.len() as int) =~= s.subrange(0, t.len() as int));
    } else {
        assert(s.subrange(0, s.len() as int) =~= s);
    }
}

/// Trimming twice is trimming once.
pub proof fn lemma_trim_idempotent(s: Seq<char>)
    ensures
        trim(trim(s)) == trim(s),
{
    let t = trim_start(s);
    let u = trim_end(t);
    lemma_trim_start_shape(s);
    lemma_trim_end_shape(t);
    if u.len() > 0 {
        assert(u[0] == t[0]);
        assert(trim_start(u) == u);
        assert(trim_end(u) == u);
    } else {
        assert(trim_start(u) == u);
        assert(trim_end(u) == u);
    }
}

/// Whitespace around an event line does not change the event it writes.
pub proof fn law_event_line_ignores_surrounding_whitespace(line: Seq<char>)
    ensures
        parse_event(trim(line)) == parse_event(line),
{
    lemma_trim_idempotent(line);
}

// ---------------------------------------------------------------------------
// Validation, clients, templates, calls
// ---------------------------------------------------------------------------

/// A widget has an error exactly when it is anchored to no edge.
pub proof fn law_valid_iff_anchored(c: WindowConfigView)
    ensures
        (expected_errors(c).len() == 0) == (anchor_count(c) > 0),
{
}

/// Filtering clients by a workspace keeps exactly the clients on it: every kept client is on
/// the workspace, and every client on it is kept.
pub proof fn law_clients_filter_keeps_exactly_workspace(clients: Seq<Client>, ws: i32)
    ensures
        forall|i: int|
            0 <= i < clients_on(clients, Some(ws)).len() ==> (#[trigger] clients_on(
                clients,
                Some(ws),
            )[i]).workspace == ws,
        forall|i: int|
            0 <= i < clients.len() && (#[trigger] clients[i]).workspace == ws ==> clients_on(
                clients,
                Some(ws),
            ).contains(clients[i]),
        clients_on(clients, None) == clients,
{
    let pred = |c: Client| c.workspace == ws;
    #[allow(deprecated)]
    clients.filter_lemma(pred);
}

/// A template without the `{{NAME}}` placeholder is written out unchanged.
pub proof fn law_template_without_placeholder_unchanged(template: Seq<char>, name: Seq<char>)
    requires
        !contains(template, name_placeholder()),
    ensures
        replace_all(template, name_placeholder(), name) == template,
{
    reveal_strlit("{{NAME}}");
    assert(name_placeholder().len() == 8);
}

/// A call goes to a handler of its own window whenever there is one, and its result goes
/// back only when the call has an id.
pub proof fn law_window_handler_first(has_remote: bool, has_id: bool, connected: bool)
    ensures
        plan_dispatch_spec(true, has_remote, has_id, connected) is Local,
        !has_id ==> match plan_dispatch_spec(true, has_remote, has_id, connected) {
            DispatchPlan::Local { reply } => !reply,
            _ => false,
        },
        !has_id ==> forall|l: bool| match #[trigger] plan_dispatch_spec(l, has_remote, has_id, connected) {
            DispatchPlan::Local { reply } => !reply,
            DispatchPlan::Remote { reply } => !reply,
            _ => true,
        },
{
}

// ---------------------------------------------------------------------------
// Parts of the configuration comment that change nothing
// ---------------------------------------------------------------------------

/// A key the configuration comment knows.
pub open spec fn known_key(key: Seq<char>) -> bool {
    ||| key == "layer"@
    ||| key == "height"@
    ||| key == "width"@
    ||| key == "margin_top"@
    ||| key == "margin_bottom"@
    ||| key == "margin_left"@
    ||| key == "margin_right"@
    ||| key == "exclusive_zone"@
    ||| key == "anchor"@
}

/// A part of the comment without `=`, or whose key is not one the comment knows.
pub open spec fn inert_part(part: Seq<char>) -> bool {
    match split_once(trim(part), seq!['=']) {
        None => true,
        Some(kv) => !known_key(trim(kv.0)),
    }
}

/// A part without `=`, or with an unknown key, leaves the configuration as it is.
pub proof fn law_inert_part_changes_nothing(c: WindowConfigView, part: Seq<char>)
    requires
        inert_part(part),
    ensures
        apply_part(c, part) == c,
{
}

proof fn lemma_apply_parts_concat(c: WindowConfigView, p: Seq<Seq<char>>, q: Seq<Seq<char>>)
    ensures
        apply_parts(c, p + q) == apply_parts(apply_parts(c, p), q),
    decreases q.len(),
{
    if q.len() == 0 {
        assert(p + q =~= p);
    } else {
        lemma_apply_parts_concat(c, p, q.drop_last());
        assert((p + q).drop_last() =~= p + q.drop_last());
        assert((p + q).last() == q.last());
    }
}

proof fn lemma_inert_parts(c: WindowConfigView, q: Seq<Seq<char>>)
    requires
        forall|i: int| 0 <= i < q.len() ==> inert_part(#[trigger] q[i]),
    ensures
        apply_parts(c, q) == c,
    decreases q.len(),
{
    if q.len() > 0 {
        assert(inert_part(q[q.len() - 1]));
        assert forall|i: int| 0 <= i < q.drop_last().len() implies inert_part(
            #[trigger] q.drop_last()[i],
        ) by {
            assert(q.drop_last()[i] == q[i]);
        }
        lemma_inert_parts(c, q.drop_last());
    }
}

proof fn lemma_split_on_concat(a: Seq<char>, b: Seq<char>, sep: char)
    ensures
        split_on(a + seq![sep] + b, sep) == split_on(a, sep) + split_on(b, sep),
    decreases b.len(),
{
    let s = a + seq![sep] + b;
    if b.len() == 0 {
        assert(s =~= a.push(sep));
        assert(s.drop_last() =~= a);
        assert(split_on(b, sep) == seq![Seq::<char>::empty()]);
        assert(split_on(s, sep) =~= split_on(a, sep) + split_on(b, sep));
    } else {
        let b1 = b.drop_last();
        lemma_split_on_concat(a, b1, sep);
        assert(s.drop_last() =~= a + seq![sep] + b1);
        assert(s.last() == b.last());
        lemma_split_on_nonempty(b1, sep);
        let x = split_on(a, sep);
        let y = split_on(b1, sep);
        if b.last() == sep {
            assert((x + y).push(Seq::<char>::empty()) =~= x + y.push(Seq::<char>::empty()));
        } else {
            assert((x + y).last() == y.last());
            assert((x + y).update((x + y).len() - 1, (x + y).last().push(b.last())) =~= x
                + y.update(y.len() - 1, y.last().push(b.last())));
        }
    }
}

/// No match of `pat` anywhere in `s`.
proof fn lemma_no_match(s: Seq<char>, pat: Seq<char>, k: int)
    requires
        !contains(s, pat),
        0 <= k,
    ensures
        !matches_at(s, pat, k),
{
    lemma_find_from(s, pat, 0);
}

proof fn lemma_no_close_in_join(body: Seq<char>, extra: Seq<char>)
    requires
        !contains(body, "-->"@),
        !contains(extra, "-->"@),
    ensures
        !contains(body + seq![','] + extra, "-->"@),
{
    reveal_strlit("-->");
    let j = body + seq![','] + extra;
    let close = "-->"@;
    lemma_find_from(j, close, 0);
    if let Some(k) = find_from(j, close, 0) {
        let b = body.len() as int;
        assert(j.subrange(k, k + 3) == close);
        if k + 3 <= b {
            assert(body.subrange(k, k + 3) =~= j.subrange(k, k + 3));
            lemma_no_match(body, close, k);
        } else if k > b {
            assert(extra.subrange(k - b - 1, k - b + 2) =~= j.subrange(k, k + 3));
            lemma_no_match(extra, close, k - b - 1);
        } else {
            assert(j[b] == ',');
            assert(j.subrange(k, k + 3)[b - k] == j[b]);
        }
    }
}

/// The settings text of `<!-- magnetar:` + `text` + `-->`, where `text` has no `-->`.
proof fn lemma_section_of(text: Seq<char>)
    requires
        !contains(text, "-->"@),
    ensures
        config_section(config_open() + text + "-->"@) == Some(text),
{
    reveal_strlit("-->");
    let open = config_open();
    let close = "-->"@;
    let h = open + text + close;
    let o = open.len() as int;
    let b = text.len() as int;
    assert(h.subrange(0, o) =~= open);
    assert(matches_at(h, open, 0));
    assert(find_from(h, open, 0) == Some(0int));
    assert(h.subrange(o + b, o + b + 3) =~= close);
    assert(matches_at(h, close, o + b));
    lemma_find_from(h, close, o);
    match find_from(h, close, o) {
        None => {},
        Some(k) => {
            if k < o + b {
                assert(h.subrange(k, k + 3) == close);
                if k + 3 <= o + b {
                    assert(text.subrange(k - o, k - o + 3) =~= h.subrange(k, k + 3));
                    lemma_no_match(text, close, k - o);
                } else {
                    assert(h.subrange(k, k + 3)[2] == h[k + 2]);
                    assert(h[k + 2] == close[k + 2 - o - b]);
                }
            }
        },
    }
    assert(find_from(h, close, o) == Some(o + b));
    assert(h.subrange(o, o + b) =~= text);
}

/// Appending to the configuration comment, after a comma, parts without `=` or with unknown
/// keys changes nothing: the page reads as the same configuration.
pub proof fn law_inert_parts_change_nothing(body: Seq<char>, extra: Seq<char>, name: Seq<char>)
    requires
        !contains(body, "-->"@),
        !contains(extra, "-->"@),
        forall|i: int|
            0 <= i < split_on(extra, ',').len() ==> inert_part(#[trigger] split_on(extra, ',')[i]),
    ensures
        config_from_html(config_open() + (body + seq![','] + extra) + "-->"@, name)
            == config_from_html(config_open() + body + "-->"@, name),
{
    lemma_no_close_in_join(body, extra);
    lemma_section_of(body);
    lemma_section_of(body + seq![','] + extra);
    lemma_split_on_concat(body, extra, ',');
    let c = default_view(name);
    lemma_apply_parts_concat(c, split_on(body, ','), split_on(extra, ','));
    lemma_inert_parts(apply_parts(c, split_on(body, ',')), split_on(extra, ','));
}

proof fn lemma_trim_start_push(q: Seq<char>, w: char)
    requires
        is_ws(w),
    ensures
        trim_start(q.push(w)) == (if trim_start(q).len() == 0 {
            Seq::<char>::empty()
        } else {
            trim_start(q).push(w)
        }),
    decreases q.len(),
{
    assert(q.push(w)[0] == (if q.len() == 0 { w } else { q[0] }));
    if q.len() == 0 {
        assert(q.push(w).drop_first() =~= Seq::<char>::empty());
        assert(trim_start(Seq::<char>::empty()) == Seq::<char>::empty());
    } else if is_ws(q[0]) {
        assert(q.push(w).drop_first() =~= q.drop_first().push(w));
        lemma_trim_start_push(q.drop_first(), w);
    }
}

proof fn lemma_trim_push_ws(q: Seq<char>, w: char)
    requires
        is_ws(w),
    ensures
        trim(q.push(w)) == trim(q),
{
    lemma_trim_start_push(q, w);
    let t = trim_start(q);
    if t.len() > 0 {
        assert(t.push(w).drop_last() =~= t);
    }
}

proof fn lemma_trim_append_ws(q: Seq<char>, ws: Seq<char>)
    requires
        forall|i: int| 0 <= i < ws.len() ==> is_ws(#[trigger] ws[i]),
    ensures
        trim(q + ws) == trim(q),
    decreases ws.len(),
{
    if ws.len() > 0 {
        let w1 = ws.drop_last();
        assert forall|i: int| 0 <= i < w1.len() implies is_ws(#[trigger] w1[i]) by {
            assert(w1[i] == ws[i]);
        }
        lemma_trim_append_ws(q, w1);
        assert(is_ws(ws[ws.len() - 1]));
        assert(q + ws =~= (q + w1).push(ws.last()));
        lemma_trim_push_ws(q + w1, ws.last());
    } else {
        assert(q + ws =~= q);
    }
}

proof fn lemma_split_on_append_ws(b: Seq<char>, ws: Seq<char>)
    requires
        forall|i: int| 0 <= i < ws.len() ==> is_ws(#[trigger] ws[i]),
    ensures
        ({
            let p = split_on(b, ',');
            split_on(b + ws, ',') == p.update(p.len() - 1, p.last() + ws)
        }),
    decreases ws.len(),
{
    let p = split_on(b, ',');
    lemma_split_on_nonempty(b, ',');
    if ws.len() == 0 {
        assert(b + ws =~= b);
        assert(p.last() + ws =~= p.last());
        assert(p.update(p.len() - 1, p.last() + ws) =~= p);
    } else {
        let w1 = ws.drop_last();
        assert forall|i: int| 0 <= i < w1.len() implies is_ws(#[trigger] w1[i]) by {
            assert(w1[i] == ws[i]);
        }
        lemma_split_on_append_ws(b, w1);
        assert(is_ws(ws[ws.len() - 1]));
        assert((b + ws).drop_last() =~= b + w1);
        assert((b + ws).last() == ws.last());
        let p1 = p.update(p.len() - 1, p.last() + w1);
        assert(p1.len() == p.len());
        assert(p1.last() == p.last() + w1);
        assert(p1.update(p1.len() - 1, p1.last().push(ws.last())) =~= p.update(
            p.len() - 1,
            p.last() + ws,
        )) by {
            assert(ws =~= w1.push(ws.last()));
            assert(p1.last().push(ws.last()) =~= p.last() + ws);
        }
    }
}

proof fn lemma_apply_parts_same_trim(c: WindowConfigView, p: Seq<Seq<char>>, q: Seq<char>)
    requires
        p.len() > 0,
        trim(q) == trim(p.last()),
    ensures
        apply_parts(c, p.update(p.len() - 1, q)) == apply_parts(c, p),
{
    assert(p.update(p.len() - 1, q).drop_last() =~= p.drop_last());
}

/// Whitespace before the `-->` that closes the configuration comment changes nothing.
pub proof fn law_trailing_whitespace_changes_nothing(body: Seq<char>, ws: Seq<char>, name: Seq<char>)
    requires
        !contains(body + ws, "-->"@),
        forall|i: int| 0 <= i < ws.len() ==> is_ws(#[trigger] ws[i]),
    ensures
        config_from_html(config_open() + (body + ws) + "-->"@, name)
            == config_from_html(config_open() + body + "-->"@, name),
{
    reveal_strlit("-->");
    let close = "-->"@;
    lemma_find_from(body, close, 0);
    if let Some(k) = find_from(body, close, 0) {
        assert((body + ws).subrange(k, k + 3) =~= body.subrange(k, k + 3));
        lemma_no_match(body + ws, close, k);
    }
    lemma_section_of(body);
    lemma_section_of(body + ws);
    lemma_split_on_append_ws(body, ws);
    let p = split_on(body, ',');
    lemma_split_on_nonempty(body, ',');
    lemma_trim_append_ws(p.last(), ws);
    lemma_apply_parts_same_trim(default_view(name), p, p.last() + ws);
}

// ---------------------------------------------------------------------------
// What single operations do, stated over all inputs
// ---------------------------------------------------------------------------

/// The anchor count is the number of anchored edges among top, bottom, left and right, and a
/// widget anchored to any one of them has no error; one anchored to none has exactly the
/// no-anchor error.
pub proof fn law_anchor_count_counts_every_edge(c: WindowConfigView)
    ensures
        anchor_count(c) == (if c.anchor_top { 1int } else { 0int }) + (if c.anchor_bottom {
            1int
        } else {
            0int
        }) + (if c.anchor_left { 1int } else { 0int }) + (if c.anchor_right { 1int } else { 0int }),
        c.anchor_top || c.anchor_bottom || c.anchor_left || c.anchor_right ==> anchor_count(c) >= 1
            && expected_errors(c).len() == 0,
        !(c.anchor_top || c.anchor_bottom || c.anchor_left || c.anchor_right) ==> anchor_count(c)
            == 0 && expected_errors(c) == seq![ValidationIssue::NoAnchors],
        !c.anchor_bottom ==> anchor_count(WindowConfigView { anchor_bottom: true, ..c })
            == anchor_count(c) + 1,
{
}

/// Where the window has a handler of the called name, that handler runs whether or not a
/// shared one of the same name exists, and its result goes back exactly when the call has
/// an id and the page is connected. No result ever goes back to a call without an id.
pub proof fn law_window_handler_replies_iff_id_and_connected(has_remote: bool, has_id: bool, connected: bool)
    ensures
        plan_dispatch_spec(true, has_remote, has_id, connected) == (DispatchPlan::Local {
            reply: has_id && connected,
        }),
        plan_dispatch_spec(true, has_remote, has_id, connected) == plan_dispatch_spec(
            true,
            !has_remote,
            has_id,
            connected,
        ),
        forall|l: bool, r: bool, c: bool|
            match #[trigger] plan_dispatch_spec(l, r, false, c) {
                DispatchPlan::Local { reply } => !reply,
                DispatchPlan::Remote { reply } => !reply,
                _ => true,
            },
{
}

/// A client read from hyprctl is focused exactly when it is first in the focus history
/// (focus history id 0); every other place in the history means not focused. Its other
/// fields are the record's, with the workspace taken from the record's workspace id.
pub proof fn law_client_focused_iff_first_in_history(r: ClientRaw)
    ensures
        client_of(r).focused <==> r.focus_history_id == 0,
        r.focus_history_id != 0 ==> !client_of(r).focused,
        client_of(r).workspace == r.workspace.id,
        client_of(r).address == r.address && client_of(r).title == r.title && client_of(r).class
            == r.class,
        client_of(r).pid == r.pid && client_of(r).monitor == r.monitor,
        client_of(r).floating == r.floating && client_of(r).fullscreen == r.fullscreen,
{
}

/// The type of an event line is what stands before its first `>>`, once the line is trimmed.
/// A type other than exactly `workspace`, `focusedmon` or `activewindow` (one that merely
/// starts with `workspace`, say) is an unknown event; `workspace` and `focusedmon` are a
/// workspace change, whatever data follows.
pub proof fn law_event_type_decides_event(line: Seq<char>, event_type: Seq<char>, data: Seq<char>)
    requires
        trim(line).len() > 0,
        split_once(trim(line), ">>"@) == Some((event_type, data)),
    ensures
        event_type != "workspace"@ && event_type != "focusedmon"@ && event_type != "activewindow"@
            ==> parse_event(line) == Some(EventView::Unknown),
        event_type == "workspace"@ || event_type == "focusedmon"@ ==> parse_event(line) == Some(
            EventView::WorkspaceChanged,
        ),
        event_type == "activewindow"@ ==> (parse_event(line) is None <==> split_once(
            data,
            seq![','],
        ) is None),
{
    reveal_strlit("workspace");
    reveal_strlit("focusedmon");
    reveal_strlit("activewindow");
    assert("workspace"@.len() == 9 && "focusedmon"@.len() == 10 && "activewindow"@.len() == 12);
}

/// One `key=value` setting changes only the field its key names: every other field keeps its
/// value, the name is never changed, and only `anchor` touches the anchors. A numeric key
/// sets its field to the number the value writes, or to the key's default.
pub proof fn law_entry_changes_only_its_field(c: WindowConfigView, key: Seq<char>, value: Seq<char>)
    ensures
        ({
            let r = apply_entry(c, key, value);
            &&& r.name == c.name
            &&& key != "layer"@ ==> r.layer == c.layer
            &&& key != "height"@ ==> r.height == c.height
            &&& key != "width"@ ==> r.width == c.width
            &&& key != "margin_top"@ ==> r.margin_top == c.margin_top
            &&& key != "margin_bottom"@ ==> r.margin_bottom == c.margin_bottom
            &&& key != "margin_left"@ ==> r.margin_left == c.margin_left
            &&& key != "margin_right"@ ==> r.margin_right == c.margin_right
            &&& key != "exclusive_zone"@ ==> r.exclusive_zone == c.exclusive_zone
            &&& key != "anchor"@ ==> r.anchor_top == c.anchor_top && r.anchor_bottom
                == c.anchor_bottom && r.anchor_left == c.anchor_left && r.anchor_right
                == c.anchor_right
            &&& key == "height"@ ==> r.height == (match crate::numbers::parse_i32(value) {
                Some(v) => v,
                None => 40,
            })
            &&& key == "width"@ ==> r.width == (match crate::numbers::parse_i32(value) {
                Some(v) => v,
                None => 0,
            })
            &&& key == "margin_top"@ ==> r.margin_top == (match crate::numbers::parse_i32(value) {
                Some(v) => v,
                None => 0,
            })
            &&& key == "margin_bottom"@ ==> r.margin_bottom == (match crate::numbers::parse_i32(
                value,
            ) {
                Some(v) => v,
                None => 0,
            })
            &&& key == "margin_left"@ ==> r.margin_left == (match crate::numbers::parse_i32(value) {
                Some(v) => v,
                None => 0,
            })
            &&& key == "margin_right"@ ==> r.margin_right == (match crate::numbers::parse_i32(
                value,
            ) {
                Some(v) => v,
                None => 0,
            })
            &&& key == "exclusive_zone"@ ==> r.exclusive_zone == (match crate::numbers::parse_i32(
                value,
            ) {
                Some(v) => v,
                None => -1i32,
            })
        }),
{
    reveal_strlit("layer");
    reveal_strlit("height");
    reveal_strlit("width");
    reveal_strlit("margin_top");
    reveal_strlit("margin_bottom");
    reveal_strlit("margin_left");
    reveal_strlit("margin_right");
    reveal_strlit("exclusive_zone");
    reveal_strlit("anchor");
    assert("layer"@.len() == 5 && "height"@.len() == 6 && "width"@.len() == 5
        && "margin_top"@.len() == 10 && "margin_bottom"@.len() == 13 && "margin_left"@.len() == 11
        && "margin_right"@.len() == 12 && "exclusive_zone"@.len() == 14 && "anchor"@.len() == 6);
    assert("layer"@[0] != "width"@[0]);
    assert("height"@[0] != "anchor"@[0]);
    lemma_edges(clear_anchors(c), split_on(value, '|'));
}

} // verus!
