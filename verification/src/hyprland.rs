//! Hyprland: its event stream, the `hyprctl` commands, and the JSON records it answers with.
use vstd::prelude::*;

use crate::compositor::{Client, Workspace};
use crate::error::MagnetarError;
use crate::text::{
    chars_eq_str, find_from_exec, lemma_find_from, push_str, split_once, sub_chars, to_chars,
    trim, trim_exec, from_chars,
};

verus! {

/// A connection to one Hyprland instance.
pub struct Hyprland {
    signature: String,
}

impl View for Hyprland {
    type V = Seq<char>;

    /// The instance signature.
    closed spec fn view(&self) -> Seq<char> {
        self.signature@
    }
}

impl Clone for Hyprland {
    fn clone(&self) -> (r: Self)
        ensures
            r == *self,
    {
        Hyprland { signature: self.signature.clone() }
    }
}

impl Hyprland {
    /// Connects to the Hyprland instance with the given signature (the value of
    /// `HYPRLAND_INSTANCE_SIGNATURE`, `None` where it is not set).
    pub fn connect(signature: Option<String>) -> (r: Result<Self, MagnetarError>)
        ensures
            match signature {
                Some(sig) => r matches Ok(h) && h@ == sig@,
                None => r matches Err(MagnetarError::Compositor(m))
                    && m@ == "HYPRLAND_INSTANCE_SIGNATURE not set"@,
            },
    {
        match signature {
            Some(sig) => Ok(Hyprland { signature: sig }),
            None => Err(
                MagnetarError::Compositor(String::from_str("HYPRLAND_INSTANCE_SIGNATURE not set")),
            ),
        }
    }

    /// The instance signature.
    pub fn signature(&self) -> (r: &str)
        ensures
            r@ == self@,
    {
        self.signature.as_str()
    }
}


// ---------------------------------------------------------------------------
// Events
// ---------------------------------------------------------------------------

/// An event line of Hyprland's event socket, as far as widgets care.
#[derive(Debug)]
pub enum HyprlandEvent {
    WorkspaceChanged,
    ActiveWindowChanged { title: String, class: String },
    Unknown,
}

impl Clone for HyprlandEvent {
    fn clone(&self) -> (r: Self)
        ensures
            r == *self,
    {
        match self {
            HyprlandEvent::WorkspaceChanged => HyprlandEvent::WorkspaceChanged,
            HyprlandEvent::ActiveWindowChanged { title, class } => HyprlandEvent::ActiveWindowChanged {
                title: title.clone(),
                class: class.clone(),
            },
            HyprlandEvent::Unknown => HyprlandEvent::Unknown,
        }
    }
}

/// The mathematical value of a [`HyprlandEvent`].
pub enum EventView {
    WorkspaceChanged,
    ActiveWindowChanged { title: Seq<char>, class: Seq<char> },
    Unknown,
}

impl View for HyprlandEvent {
    type V = EventView;

    open spec fn view(&self) -> EventView {
        match self {
            HyprlandEvent::WorkspaceChanged => EventView::WorkspaceChanged,
            HyprlandEvent::ActiveWindowChanged { title, class } => EventView::ActiveWindowChanged {
                title: title@,
                class: class@,
            },
            HyprlandEvent::Unknown => EventView::Unknown,
        }
    }
}

/// The view of an optional event.
pub open spec fn opt_event_view(e: Option<HyprlandEvent>) -> Option<EventView> {
    match e {
        Some(ev) => Some(ev@),
        None => None,
    }
}

/// The event an event line writes. The line is trimmed; an empty line, or one without
/// `>>` between the event type and its data, is no event. `workspace` and `focusedmon` mean
/// the active workspace changed; `activewindow` carries `class,title`, and is no event
/// without the comma; every other type is an unknown event.
pub open spec fn parse_event(line: Seq<char>) -> Option<EventView> {
    let t = trim(line);
    if t.len() == 0 {
        None
    } else {
        match split_once(t, ">>"@) {
            None => None,
            Some(td) => if td.0 == "workspace"@ || td.0 == "focusedmon"@ {
                Some(EventView::WorkspaceChanged)
            } else if td.0 == "activewindow"@ {
                match split_once(td.1, seq![',']) {
                    None => None,
                    Some(ct) => Some(EventView::ActiveWindowChanged { title: ct.1, class: ct.0 }),
                }
            } else {
                Some(EventView::Unknown)
            },
        }
    }
}

impl HyprlandEvent {
    /// Reads one line of Hyprland's event socket (see [`parse_event`]).
    pub fn parse(line: &str) -> (r: Option<Self>)
        ensures
            opt_event_view(r) == parse_event(line@),
    {
        let l = to_chars(line);
        let t = trim_exec(l.as_slice());
        if t.len() == 0 {
            return None;
        }
        let sep = to_chars(">>");
        let k = match find_from_exec(t.as_slice(), sep.as_slice(), 0) {
            Some(k) => k,
            None => return None,
        };
        proof {
            lemma_find_from(t@, sep@, 0);
        }
        let ty = sub_chars(t.as_slice(), 0, k);
        let data = sub_chars(t.as_slice(), k + sep.len(), t.len());
        if chars_eq_str(ty.as_slice(), "workspace") || chars_eq_str(ty.as_slice(), "focusedmon") {
            Some(HyprlandEvent::WorkspaceChanged)
        } else if chars_eq_str(ty.as_slice(), "activewindow") {
            let comma = vec![','];
            assert(comma@ =~= seq![',']);
            let j = match find_from_exec(data.as_slice(), comma.as_slice(), 0) {
                Some(j) => j,
                None => return None,
            };
            proof {
                lemma_find_from(data@, comma@, 0);
            }
            let class = sub_chars(data.as_slice(), 0, j);
            let title = sub_chars(data.as_slice(), j + 1, data.len());
            Some(
                HyprlandEvent::ActiveWindowChanged {
                    title: from_chars(title.as_slice()),
                    class: from_chars(class.as_slice()),
                },
            )
        } else {
            Some(HyprlandEvent::Unknown)
        }
    }
}

// ---------------------------------------------------------------------------
// Sockets and hyprctl
// ---------------------------------------------------------------------------

/// The socket path of an instance under the runtime directory `xdg_runtime`.
pub open spec fn xdg_socket_path_spec(xdg_runtime: Seq<char>, signature: Seq<char>, socket_name: Seq<char>) -> Seq<char> {
    xdg_runtime + "/hypr/"@ + signature + "/"@ + socket_name
}

/// The socket path of an instance under `/tmp`.
pub open spec fn tmp_socket_path_spec(signature: Seq<char>, socket_name: Seq<char>) -> Seq<char> {
    "/tmp/hypr/"@ + signature + "/"@ + socket_name
}

impl Hyprland {
    /// `<xdg_runtime>/hypr/<signature>/<socket_name>`.
    pub fn xdg_socket_path(xdg_runtime: &str, signature: &str, socket_name: &str) -> (r: String)
        ensures
            r@ == xdg_socket_path_spec(xdg_runtime@, signature@, socket_name@),
    {
        let mut r = String::new();
        push_str(&mut r, xdg_runtime);
        push_str(&mut r, "/hypr/");
        push_str(&mut r, signature);
        push_str(&mut r, "/");
        push_str(&mut r, socket_name);
        proof {
            assert(r@ =~= xdg_socket_path_spec(xdg_runtime@, signature@, socket_name@));
        }
        r
    }

    /// `/tmp/hypr/<signature>/<socket_name>`.
    pub fn tmp_socket_path(signature: &str, socket_name: &str) -> (r: String)
        ensures
            r@ == tmp_socket_path_spec(signature@, socket_name@),
    {
        let mut r = String::new();
        push_str(&mut r, "/tmp/hypr/");
        push_str(&mut r, signature);
        push_str(&mut r, "/");
        push_str(&mut r, socket_name);
        proof {
            assert(r@ =~= tmp_socket_path_spec(signature@, socket_name@));
        }
        r
    }

    /// The path of a Hyprland socket: the one under `XDG_RUNTIME_DIR` (`xdg_runtime`, `None`
    /// where it is not set) when that file exists (`xdg_path_exists`, what the file system
    /// answered for [`Hyprland::xdg_socket_path`]), else the one under `/tmp`.
    pub fn get_socket_path(
        xdg_runtime: Option<&str>,
        xdg_path_exists: bool,
        signature: &str,
        socket_name: &str,
    ) -> (r: String)
        ensures
            r@ == match xdg_runtime {
                Some(x) if xdg_path_exists => xdg_socket_path_spec(x@, signature@, socket_name@),
                _ => tmp_socket_path_spec(signature@, socket_name@),
            },
    {
        match xdg_runtime {
            Some(x) if xdg_path_exists => Self::xdg_socket_path(x, signature, socket_name),
            _ => Self::tmp_socket_path(signature, socket_name),
        }
    }
}

/// The queries this crate asks `hyprctl` for; each answers in JSON.
#[derive(Clone, Copy, Debug, PartialEq, Eq, Structural)]
pub enum HyprctlQuery {
    Workspaces,
    ActiveWorkspace,
    ActiveWindow,
    Clients,
}

/// The `hyprctl` subcommand of a query.
pub open spec fn query_name(q: HyprctlQuery) -> Seq<char> {
    match q {
        HyprctlQuery::Workspaces => "workspaces"@,
        HyprctlQuery::ActiveWorkspace => "activeworkspace"@,
        HyprctlQuery::ActiveWindow => "activewindow"@,
        HyprctlQuery::Clients => "clients"@,
    }
}

/// The arguments of `hyprctl` for a query: `-j` (JSON output) and the subcommand.
pub fn query_args(q: HyprctlQuery) -> (r: Vec<&'static str>)
    ensures
        r@.len() == 2,
        r@[0]@ == "-j"@,
        r@[1]@ == query_name(q),
{
    let name = match q {
        HyprctlQuery::Workspaces => "workspaces",
        HyprctlQuery::ActiveWorkspace => "activeworkspace",
        HyprctlQuery::ActiveWindow => "activewindow",
        HyprctlQuery::Clients => "clients",
    };
    let mut r: Vec<&'static str> = Vec::new();
    r.push("-j");
    r.push(name);
    r
}

/// The arguments of `hyprctl` that dispatch `command`.
pub fn dispatch_args<'a>(command: &'a str) -> (r: Vec<&'a str>)
    ensures
        r@.len() == 2,
        r@[0]@ == "dispatch"@,
        r@[1] == command,
{
    let mut r: Vec<&'a str> = Vec::new();
    r.push("dispatch");
    r.push(command);
    r
}

/// The text `String::from_utf8_lossy` makes of `bytes`.
pub uninterp spec fn lossy_text(bytes: Seq<u8>) -> Seq<char>;

/// Calls `String::from_utf8_lossy`. The contract claims that the result depends on the bytes
/// alone (named [`lossy_text`]) and, as its documentation says, that valid UTF-8 is decoded
/// unchanged; how invalid sequences are replaced is not stated.
#[verifier::external_body]
fn from_utf8_lossy(bytes: &[u8]) -> (r: String)
    ensures
        r@ == lossy_text(bytes@),
        vstd::utf8::valid_utf8(bytes@) ==> r@ == vstd::utf8::decode_utf8(bytes@),
{
    String::from_utf8_lossy(bytes).into_owned()
}

/// The outcome of a finished `hyprctl` run: its standard output when it succeeded, else a
/// compositor error with its standard error as text.
pub fn hyprctl_output(success: bool, stdout: Vec<u8>, stderr: &[u8]) -> (r: Result<Vec<u8>, MagnetarError>)
    ensures
        success ==> r == Ok::<Vec<u8>, MagnetarError>(stdout),
        !success ==> (r matches Err(MagnetarError::Compositor(m)) && m@ == lossy_text(stderr@)),
        !success && vstd::utf8::valid_utf8(stderr@) ==> (r matches Err(MagnetarError::Compositor(m))
            && m@ == vstd::utf8::decode_utf8(stderr@)),
{
    if success {
        Ok(stdout)
    } else {
        Err(MagnetarError::Compositor(from_utf8_lossy(stderr)))
    }
}

// ---------------------------------------------------------------------------
// Records of hyprctl's JSON answers
// ---------------------------------------------------------------------------

/// A workspace as `hyprctl -j` describes it.
#[derive(Debug)]
pub struct WorkspaceRaw {
    pub id: i32,
    pub name: String,
    pub monitor: String,
    pub windows: i32,
    pub urgent: bool,
}

/// The workspace reference inside a client record.
#[derive(Debug)]
pub struct WorkspaceId {
    pub id: i32,
}

/// A client as `hyprctl -j` describes it.
#[derive(Debug)]
pub struct ClientRaw {
    pub address: String,
    pub title: String,
    pub class: String,
    pub pid: i32,
    pub workspace: WorkspaceId,
    pub monitor: i32,
    pub floating: bool,
    pub fullscreen: bool,
    pub focus_history_id: i32,
}

/// The workspace a record describes.
pub open spec fn workspace_of(r: WorkspaceRaw) -> Workspace {
    Workspace { id: r.id, name: r.name, monitor: r.monitor, windows: r.windows, urgent: r.urgent }
}

/// The client a record describes; it is focused when it is first in the focus history.
pub open spec fn client_of(r: ClientRaw) -> Client {
    Client {
        address: r.address,
        title: r.title,
        class: r.class,
        pid: r.pid,
        workspace: r.workspace.id,
        monitor: r.monitor,
        floating: r.floating,
        fullscreen: r.fullscreen,
        focused: r.focus_history_id == 0,
    }
}

impl From<WorkspaceRaw> for Workspace {
    fn from(r: WorkspaceRaw) -> (w: Self)
        ensures
            w == workspace_of(r),
    {
        Workspace { id: r.id, name: r.name, monitor: r.monitor, windows: r.windows, urgent: r.urgent }
    }
}

impl vstd::std_specs::convert::FromSpecImpl<WorkspaceRaw> for Workspace {
    open spec fn obeys_from_spec() -> bool {
        true
    }

    open spec fn from_spec(r: WorkspaceRaw) -> Self {
        workspace_of(r)
    }
}

impl From<ClientRaw> for Client {
    fn from(r: ClientRaw) -> (c: Self)
        ensures
            c == client_of(r),
    {
        Client {
            address: r.address,
            title: r.title,
            class: r.class,
            pid: r.pid,
            workspace: r.workspace.id,
            monitor: r.monitor,
            floating: r.floating,
            fullscreen: r.fullscreen,
            focused: r.focus_history_id == 0,
        }
    }
}

impl vstd::std_specs::convert::FromSpecImpl<ClientRaw> for Client {
    open spec fn obeys_from_spec() -> bool {
        true
    }

    open spec fn from_spec(r: ClientRaw) -> Self {
        client_of(r)
    }
}

/// A JSON value read where a flag is expected.
#[derive(Debug)]
pub enum FlexibleBool {
    /// `true` or `false`.
    Bool(bool),
    /// A number, with its value where it is an integer that fits in an `i64`.
    Number(Option<i64>),
    /// Anything else, with its debug text.
    Other(String),
}

/// Reads a flag that Hyprland writes either as a boolean or as an integer (non-zero is true).
/// On failure, the error is the description of the unexpected value.
pub fn deserialize_bool_flexible(v: FlexibleBool) -> (r: Result<bool, String>)
    ensures
        match v {
            FlexibleBool::Bool(b) => r == Ok::<bool, String>(b),
            FlexibleBool::Number(Some(i)) => r == Ok::<bool, String>(i != 0),
            FlexibleBool::Number(None) => r matches Err(m) && m@ == "non-integer number"@,
            FlexibleBool::Other(d) => r == Err::<bool, String>(d),
        },
{
    match v {
        FlexibleBool::Bool(b) => Ok(b),
        FlexibleBool::Number(Some(i)) => Ok(i != 0),
        FlexibleBool::Number(None) => Err(String::from_str("non-integer number")),
        FlexibleBool::Other(d) => Err(d),
    }
}

} // verus!
