//! The protocol between widget scripts and the shell: how a call is routed, and the JSON
//! text of replies and events handed to the page's `window.__magnetar` callback.
use vstd::prelude::*;

use crate::compositor::{Client, Workspace};
use crate::error::{error_text, MagnetarError};
use crate::json::{
    json_member, json_str, json_string, member_of, message_of, opt_text, quote_json, read_message,
    str_of,
};
use crate::numbers::{decimal, decimal_string};
use crate::text::push_str;

verus! {

/// The script that hands `payload_json` to the page's callback, if the page installed one.
pub open spec fn callback_script_spec(payload_json: Seq<char>) -> Seq<char> {
    "if (window.__magnetar) { window.__magnetar("@ + payload_json + "); }"@
}

/// The script that hands `payload_json` to the page's callback, if the page installed one.
pub fn callback_script(payload_json: &str) -> (r: String)
    ensures
        r@ == callback_script_spec(payload_json@),
{
    let mut r = String::new();
    push_str(&mut r, "if (window.__magnetar) { window.__magnetar(");
    push_str(&mut r, payload_json);
    push_str(&mut r, "); }");
    proof {
        assert(r@ =~= callback_script_spec(payload_json@));
    }
    r
}

/// The reply to call `id`, carrying `data_json`: the object `{"data":..,"id":..}`.
pub open spec fn response_payload_spec(id: Seq<char>, data_json: Seq<char>) -> Seq<char> {
    "{\"data\":"@ + data_json + ",\"id\":"@ + json_string(id) + "}"@
}

/// The reply to call `id`, carrying `data_json` (see [`response_payload_spec`]).
pub fn response_payload(id: &str, data_json: &str) -> (r: String)
    ensures
        r@ == response_payload_spec(id@, data_json@),
{
    let q = quote_json(id);
    let mut r = String::new();
    push_str(&mut r, "{\"data\":");
    push_str(&mut r, data_json);
    push_str(&mut r, ",\"id\":");
    push_str(&mut r, q.as_str());
    push_str(&mut r, "}");
    proof {
        assert(r@ =~= response_payload_spec(id@, data_json@));
    }
    r
}

/// The event `event` with `data_json`: the object `{"data":..,"event":..}`.
pub open spec fn event_payload_spec(event: Seq<char>, data_json: Seq<char>) -> Seq<char> {
    "{\"data\":"@ + data_json + ",\"event\":"@ + json_string(event) + "}"@
}

/// The event `event` with `data_json` (see [`event_payload_spec`]).
pub fn event_payload(event: &str, data_json: &str) -> (r: String)
    ensures
        r@ == event_payload_spec(event@, data_json@),
{
    let q = quote_json(event);
    let mut r = String::new();
    push_str(&mut r, "{\"data\":");
    push_str(&mut r, data_json);
    push_str(&mut r, ",\"event\":");
    push_str(&mut r, q.as_str());
    push_str(&mut r, "}");
    proof {
        assert(r@ =~= event_payload_spec(event@, data_json@));
    }
    r
}

/// The reply of a handler that succeeded without data: `{"success":true}`.
pub fn success_reply() -> (r: String)
    ensures
        r@ == "{\"success\":true}"@,
{
    String::from_str("{\"success\":true}")
}

/// The reply of a handler that failed with `e`: `{"error":"<message>"}`.
pub open spec fn error_reply_spec(e: MagnetarError) -> Seq<char> {
    "{\"error\":"@ + json_string(error_text(e)) + "}"@
}

/// The reply of a handler that failed with `e` (see [`error_reply_spec`]).
pub fn error_reply(e: &MagnetarError) -> (r: String)
    ensures
        r@ == error_reply_spec(*e),
{
    let m = e.message();
    let q = quote_json(m.as_str());
    let mut r = String::new();
    push_str(&mut r, "{\"error\":");
    push_str(&mut r, q.as_str());
    push_str(&mut r, "}");
    proof {
        assert(r@ =~= error_reply_spec(*e));
    }
    r
}

/// The reply to `hyprland.exec`: success, or failure with the error's message.
pub open spec fn dispatch_reply_spec(result: Result<(), MagnetarError>) -> Seq<char> {
    match result {
        Ok(_) => "{\"success\":true}"@,
        Err(e) => "{\"error\":"@ + json_string(error_text(e)) + ",\"success\":false}"@,
    }
}

/// The reply to `hyprland.exec` (see [`dispatch_reply_spec`]).
pub fn dispatch_reply(result: &Result<(), MagnetarError>) -> (r: String)
    ensures
        r@ == dispatch_reply_spec(*result),
{
    match result {
        Ok(_) => success_reply(),
        Err(e) => {
            let m = e.message();
            let q = quote_json(m.as_str());
            let mut r = String::new();
            push_str(&mut r, "{\"error\":");
            push_str(&mut r, q.as_str());
            push_str(&mut r, ",\"success\":false}");
            proof {
                assert(r@ =~= dispatch_reply_spec(*result));
            }
            r
        },
    }
}

/// The reply to `hyprland.activeworkspace`: its id, monitor and name, or the error.
pub open spec fn workspace_reply_spec(result: Result<Workspace, MagnetarError>) -> Seq<char> {
    match result {
        Ok(ws) => "{\"id\":"@ + decimal(ws.id as int) + ",\"monitor\":"@ + json_string(ws.monitor@)
            + ",\"name\":"@ + json_string(ws.name@) + "}"@,
        Err(e) => error_reply_spec(e),
    }
}

/// The reply to `hyprland.activeworkspace` (see [`workspace_reply_spec`]).
pub fn workspace_reply(result: &Result<Workspace, MagnetarError>) -> (r: String)
    ensures
        r@ == workspace_reply_spec(*result),
{
    match result {
        Ok(ws) => {
            let id = decimal_string(ws.id);
            let monitor = quote_json(ws.monitor.as_str());
            let name = quote_json(ws.name.as_str());
            let mut r = String::new();
            push_str(&mut r, "{\"id\":");
            push_str(&mut r, id.as_str());
            push_str(&mut r, ",\"monitor\":");
            push_str(&mut r, monitor.as_str());
            push_str(&mut r, ",\"name\":");
            push_str(&mut r, name.as_str());
            push_str(&mut r, "}");
            proof {
                assert(r@ =~= workspace_reply_spec(*result));
            }
            r
        },
        Err(e) => error_reply(e),
    }
}

/// The reply to `hyprland.activewindow`: its class and title, or the error.
pub open spec fn window_reply_spec(result: Result<Client, MagnetarError>) -> Seq<char> {
    match result {
        Ok(c) => "{\"class\":"@ + json_string(c.class@) + ",\"title\":"@ + json_string(c.title@)
            + "}"@,
        Err(e) => error_reply_spec(e),
    }
}

/// The reply to `hyprland.activewindow` (see [`window_reply_spec`]).
pub fn window_reply(result: &Result<Client, MagnetarError>) -> (r: String)
    ensures
        r@ == window_reply_spec(*result),
{
    match result {
        Ok(c) => {
            let class = quote_json(c.class.as_str());
            let title = quote_json(c.title.as_str());
            let mut r = String::new();
            push_str(&mut r, "{\"class\":");
            push_str(&mut r, class.as_str());
            push_str(&mut r, ",\"title\":");
            push_str(&mut r, title.as_str());
            push_str(&mut r, "}");
            proof {
                assert(r@ =~= window_reply_spec(*result));
            }
            r
        },
        Err(e) => error_reply(e),
    }
}

/// A text, or the empty text where there is none.
pub open spec fn or_empty(t: Option<Seq<char>>) -> Seq<char> {
    match t {
        Some(t) => t,
        None => Seq::empty(),
    }
}

/// A JSON text, or `null` where there is none.
pub open spec fn or_null(t: Option<Seq<char>>) -> Seq<char> {
    match t {
        Some(t) => t,
        None => "null"@,
    }
}

/// A call from a widget script: the name of the handler it asks for, and the id its reply
/// goes back with (none: no reply is sent).
#[derive(Debug)]
pub struct Call {
    pub command: String,
    pub id: Option<String>,
}

/// Reads a call from the text of a script's message: a text that is not JSON is dropped;
/// otherwise a command that is not a string names the empty handler, an id that is not a
/// string asks for no reply, and the handler's argument is the `data` member's JSON text, or
/// `null` where the message has none.
pub fn decode_message(payload: &str) -> (r: Option<(Call, String)>)
    ensures
        message_of(payload@) is None <==> r is None,
        match (message_of(payload@), r) {
            (Some((c, i, d)), Some((call, data))) => call.command@ == or_empty(c) && opt_text(
                call.id,
            ) == i && data@ == or_null(d),
            _ => true,
        },
{
    match read_message(payload) {
        None => None,
        Some((command, id, data)) => {
            let command = match command {
                Some(c) => c,
                None => String::new(),
            };
            let data = match data {
                Some(d) => d,
                None => String::from_str("null"),
            };
            Some((Call { command, id }, data))
        },
    }
}

/// The string member `key` of the object that the JSON text `text` holds, if there is one.
pub open spec fn member_str(text: Seq<char>, key: Seq<char>) -> Option<Seq<char>> {
    match member_of(text, key) {
        Some(m) => str_of(m),
        None => None,
    }
}

/// The arguments of a `broadcast` call with the JSON argument `data`: the event name (its
/// `event` member where that is a string, else the empty text) and the event's data (the
/// JSON text of its `data` member, else `null`).
pub fn broadcast_args(data: &str) -> (r: (String, String))
    ensures
        r.0@ == or_empty(member_str(data@, "event"@)),
        r.1@ == or_null(member_of(data@, "data"@)),
{
    let event = match json_member(data, "event") {
        Some(m) => json_str(m.as_str()),
        None => None,
    };
    let event = match event {
        Some(e) => e,
        None => String::new(),
    };
    let payload = match json_member(data, "data") {
        Some(d) => d,
        None => String::from_str("null"),
    };
    (event, payload)
}

/// The compositor command of a `hyprland.exec` call with the JSON argument `data`: the
/// string it holds, else the empty text.
pub fn exec_request(data: &str) -> (r: String)
    ensures
        r@ == or_empty(str_of(data@)),
{
    match json_str(data) {
        Some(s) => s,
        None => String::new(),
    }
}

/// What to do with a call from a widget script.
#[derive(Clone, Copy, Debug, PartialEq, Eq, Structural)]
pub enum DispatchPlan {
    /// Run the handler of this window on the main thread; send its result back when `reply`.
    Local { reply: bool },
    /// Run the shared asynchronous handler; send its result back when `reply`.
    Remote { reply: bool },
    /// A shared handler exists but the page is not connected yet: drop the call.
    NotConnected,
    /// No handler has this name: drop the call.
    Unknown,
}

/// How a call is handled: a handler of the window comes first, then a shared one; a result
/// goes back only to a call with an id, over a connected page.
pub open spec fn plan_dispatch_spec(has_local: bool, has_remote: bool, has_id: bool, connected: bool) -> DispatchPlan {
    if has_local {
        DispatchPlan::Local { reply: has_id && connected }
    } else if has_remote {
        if connected {
            DispatchPlan::Remote { reply: has_id }
        } else {
            DispatchPlan::NotConnected
        }
    } else {
        DispatchPlan::Unknown
    }
}

/// Decides how a call is handled (see [`plan_dispatch_spec`]).
pub fn plan_dispatch(has_local: bool, has_remote: bool, has_id: bool, connected: bool) -> (r: DispatchPlan)
    ensures
        r == plan_dispatch_spec(has_local, has_remote, has_id, connected),
{
    if has_local {
        DispatchPlan::Local { reply: has_id && connected }
    } else if has_remote {
        if connected {
            DispatchPlan::Remote { reply: has_id }
        } else {
            DispatchPlan::NotConnected
        }
    } else {
        DispatchPlan::Unknown
    }
}

} // verus!
