//! The compositor events forwarded to widgets, and how each Hyprland event is handled.
use vstd::prelude::*;

use crate::compositor::Workspace;
use crate::error::MagnetarError;
use crate::hyprland::HyprlandEvent;
use crate::json::{json_string, quote_json};
use crate::numbers::{decimal, decimal_string};
use crate::text::push_str;

verus! {

/// An event sent to every widget.
#[derive(Debug)]
pub enum FrontendEvent {
    WorkspaceChanged { id: i32 },
    ActiveWindowChanged { title: String, class: String },
}

impl Clone for FrontendEvent {
    fn clone(&self) -> (r: Self)
        ensures
            r == *self,
    {
        match self {
            FrontendEvent::WorkspaceChanged { id } => FrontendEvent::WorkspaceChanged { id: *id },
            FrontendEvent::ActiveWindowChanged { title, class } => FrontendEvent::ActiveWindowChanged {
                title: title.clone(),
                class: class.clone(),
            },
        }
    }
}

/// What to do on an event from Hyprland.
#[derive(Debug)]
pub enum EventReaction {
    /// Ask for the active workspace, then send [`FrontendEvent::WorkspaceChanged`] with its id.
    QueryActiveWorkspace,
    /// Send this event to the widgets.
    Forward(FrontendEvent),
    /// Nothing.
    Ignore,
}

/// The reaction to a Hyprland event: a workspace change needs the new workspace's id, a new
/// active window is forwarded with its title and class, anything else is ignored.
pub fn react(event: HyprlandEvent) -> (r: EventReaction)
    ensures
        match event {
            HyprlandEvent::WorkspaceChanged => r is QueryActiveWorkspace,
            HyprlandEvent::ActiveWindowChanged { title, class } => r matches EventReaction::Forward(
                FrontendEvent::ActiveWindowChanged { title: t, class: c },
            ) && t == title && c == class,
            HyprlandEvent::Unknown => r is Ignore,
        },
{
    match event {
        HyprlandEvent::WorkspaceChanged => EventReaction::QueryActiveWorkspace,
        HyprlandEvent::ActiveWindowChanged { title, class } => EventReaction::Forward(
            FrontendEvent::ActiveWindowChanged { title, class },
        ),
        HyprlandEvent::Unknown => EventReaction::Ignore,
    }
}

/// The event that follows the answer to the active-workspace query: the workspace's id, or
/// nothing when the query failed.
pub fn workspace_changed(answer: Result<Workspace, MagnetarError>) -> (r: Option<FrontendEvent>)
    ensures
        match answer {
            Ok(ws) => r == Some(FrontendEvent::WorkspaceChanged { id: ws.id }),
            Err(_) => r is None,
        },
{
    match answer {
        Ok(ws) => Some(FrontendEvent::WorkspaceChanged { id: ws.id }),
        Err(_) => None,
    }
}

/// The name widgets listen to for an event.
pub open spec fn event_name(e: FrontendEvent) -> Seq<char> {
    match e {
        FrontendEvent::WorkspaceChanged { .. } => "workspace:changed"@,
        FrontendEvent::ActiveWindowChanged { .. } => "activewindow:changed"@,
    }
}

/// The JSON data of an event: `{"id":..}`, or `{"class":..,"title":..}`.
pub open spec fn event_data(e: FrontendEvent) -> Seq<char> {
    match e {
        FrontendEvent::WorkspaceChanged { id } => "{\"id\":"@ + decimal(id as int) + "}"@,
        FrontendEvent::ActiveWindowChanged { title, class } => "{\"class\":"@ + json_string(class@)
            + ",\"title\":"@ + json_string(title@) + "}"@,
    }
}

impl FrontendEvent {
    /// The name widgets listen to for this event (see [`event_name`]).
    pub fn name(&self) -> (r: &'static str)
        ensures
            r@ == event_name(*self),
    {
        match self {
            FrontendEvent::WorkspaceChanged { .. } => "workspace:changed",
            FrontendEvent::ActiveWindowChanged { .. } => "activewindow:changed",
        }
    }

    /// The JSON data of this event (see [`event_data`]).
    pub fn data_json(&self) -> (r: String)
        ensures
            r@ == event_data(*self),
    {
        let mut r = String::new();
        match self {
            FrontendEvent::WorkspaceChanged { id } => {
                let d = decimal_string(*id);
                push_str(&mut r, "{\"id\":");
                push_str(&mut r, d.as_str());
                push_str(&mut r, "}");
            },
            FrontendEvent::ActiveWindowChanged { title, class } => {
                let c = quote_json(class.as_str());
                let t = quote_json(title.as_str());
                push_str(&mut r, "{\"class\":");
                push_str(&mut r, c.as_str());
                push_str(&mut r, ",\"title\":");
                push_str(&mut r, t.as_str());
                push_str(&mut r, "}");
            },
        }
        proof {
            assert(r@ =~= event_data(*self));
        }
        r
    }
}

} // verus!
