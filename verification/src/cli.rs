//! The command line: its commands, and the decisions and texts behind them.
use vstd::prelude::*;

use crate::compositor::Client;
use crate::templates::{NOTIFICATION_TEMPLATE, OVERLAY_TEMPLATE, SIDEBAR_TEMPLATE, TOPBAR_TEMPLATE};
use crate::text::{
    find_from, find_from_exec, lemma_find_from, matches_at, push_chars, push_str, replace_all,
    to_chars,
};

verus! {

/// The command line of `magnetar`.
#[derive(Debug)]
pub struct Cli {
    pub command: Option<Commands>,
    /// Logging level (error, warn, info, debug, trace).
    pub log_level: Option<String>,
    /// No colors in the output.
    pub no_color: bool,
}

/// The commands of `magnetar`.
#[derive(Debug)]
pub enum Commands {
    /// Start the shell (the default).
    Run { config_dir: Option<String> },
    /// Widget management.
    Widget(WidgetCommands),
    /// Compositor (Hyprland) commands.
    Compositor(CompositorCommands),
    /// System information and diagnostics.
    Info { verbose: bool },
    /// Create a widget from a template.
    New { name: String, template: String, output: Option<String> },
    /// Check a widget's configuration.
    Validate { file: String },
}

/// Widget management commands.
#[derive(Debug)]
pub enum WidgetCommands {
    /// List the available widgets.
    List { verbose: bool },
    /// Reload widgets without restarting.
    Reload { name: Option<String> },
    /// Show a widget's configuration.
    Inspect { widget: String },
}

/// Compositor commands.
#[derive(Debug)]
pub enum CompositorCommands {
    /// The current compositor.
    Info,
    /// List the workspaces.
    Workspaces { format: String },
    /// List the windows, optionally of one workspace.
    Clients { format: String, workspace: Option<i32> },
    /// The active workspace.
    Active,
    /// Run a compositor command.
    Exec { command: Vec<String> },
}

/// Whether the command line starts the graphical shell: no command, or `run`. Every other
/// command does its work and exits.
pub fn launches_gui(command: &Option<Commands>) -> (r: bool)
    ensures
        r == (command is None || command matches Some(Commands::Run { .. })),
{
    match command {
        None => true,
        Some(Commands::Run { .. }) => true,
        Some(_) => false,
    }
}

/// How a listing is printed.
#[derive(Clone, Copy, Debug, PartialEq, Eq, Structural)]
pub enum OutputFormat {
    Table,
    Json,
}

impl OutputFormat {
    /// The format a `--format` value names: `json`, or a table for anything else.
    pub fn parse(format: &str) -> (r: Self)
        ensures
            r == (if format@ == "json"@ {
                OutputFormat::Json
            } else {
                OutputFormat::Table
            }),
    {
        let f = to_chars(format);
        if crate::text::chars_eq_str(f.as_slice(), "json") {
            OutputFormat::Json
        } else {
            OutputFormat::Table
        }
    }
}

/// The words joined with `sep` between each two.
pub open spec fn join(words: Seq<Seq<char>>, sep: Seq<char>) -> Seq<char>
    decreases words.len(),
{
    if words.len() == 0 {
        Seq::empty()
    } else if words.len() == 1 {
        words[0]
    } else {
        join(words.drop_last(), sep) + sep + words.last()
    }
}

/// The views of a list of strings.
pub open spec fn string_views(v: Seq<String>) -> Seq<Seq<char>> {
    v.map_values(|s: String| s@)
}

/// The compositor command that `magnetar compositor exec` runs: its words joined with
/// spaces, or nothing when no word was given.
pub fn join_command(words: &Vec<String>) -> (r: Option<String>)
    ensures
        words@.len() == 0 ==> r is None,
        words@.len() > 0 ==> (r matches Some(s) && s@ == join(string_views(words@), " "@)),
{
    let n = words.len();
    if n == 0 {
        return None;
    }
    let ghost views = string_views(words@);
    let mut r = String::new();
    for i in 0..n
        invariant
            n == words@.len(),
            views == string_views(words@),
            r@ == join(views.take(i as int), " "@),
    {
        proof {
            assert(views.take(i + 1).drop_last() =~= views.take(i as int));
        }
        if i > 0 {
            push_str(&mut r, " ");
        }
        push_str(&mut r, words[i].as_str());
        proof {
            if i == 0 {
                assert(views.take(1) =~= seq![words@[0]@]);
            }
        }
    }
    proof {
        assert(views.take(n as int) =~= views);
    }
    Some(r)
}

/// `s` cut to fit a column of `max_len` bytes: unchanged when it fits, else its first
/// `max_len - 1` bytes followed by `…`.
pub fn truncate(s: &str, max_len: usize) -> (r: String)
    requires
        s.len() <= max_len || (max_len >= 1 && vstd::utf8::is_char_boundary(
            vstd::utf8::encode_utf8(s@),
            max_len - 1,
        )),
    ensures
        s.len() <= max_len ==> r@ == s@,
        s.len() > max_len ==> r@ == vstd::utf8::decode_utf8(
            vstd::utf8::encode_utf8(s@).subrange(0, max_len - 1),
        ) + "…"@,
{
    if s.len() <= max_len {
        String::from_str(s)
    } else {
        let (head, _) = s.split_at(max_len - 1);
        proof {
            vstd::utf8::encode_utf8_decode_utf8(head@);
        }
        let mut r = String::from_str(head);
        push_str(&mut r, "…");
        r
    }
}

/// The marks of a client's state in a listing: `F` when floating, `⛶` when fullscreen,
/// a space for each that does not hold.
pub fn client_flags(c: &Client) -> (r: String)
    ensures
        r@ == (if c.floating {
            "F"@
        } else {
            " "@
        }) + (if c.fullscreen {
            "⛶"@
        } else {
            " "@
        }),
{
    let mut r = String::new();
    push_str(&mut r, if c.floating { "F" } else { " " });
    push_str(&mut r, if c.fullscreen { "⛶" } else { " " });
    r
}

/// The template a `--template` value names, if it names one.
pub open spec fn template_named(template: Seq<char>) -> Option<Seq<char>> {
    if template == "topbar"@ {
        Some(TOPBAR_TEMPLATE@)
    } else if template == "sidebar"@ {
        Some(SIDEBAR_TEMPLATE@)
    } else if template == "overlay"@ {
        Some(OVERLAY_TEMPLATE@)
    } else if template == "notification"@ {
        Some(NOTIFICATION_TEMPLATE@)
    } else {
        None
    }
}

/// The template a `--template` value names: `topbar`, `sidebar`, `overlay` or `notification`.
pub fn template_for(template: &str) -> (r: Option<&'static str>)
    ensures
        match r {
            Some(t) => template_named(template@) == Some(t@),
            None => template_named(template@) is None,
        },
{
    let t = to_chars(template);
    if crate::text::chars_eq_str(t.as_slice(), "topbar") {
        Some(TOPBAR_TEMPLATE)
    } else if crate::text::chars_eq_str(t.as_slice(), "sidebar") {
        Some(SIDEBAR_TEMPLATE)
    } else if crate::text::chars_eq_str(t.as_slice(), "overlay") {
        Some(OVERLAY_TEMPLATE)
    } else if crate::text::chars_eq_str(t.as_slice(), "notification") {
        Some(NOTIFICATION_TEMPLATE)
    } else {
        None
    }
}

/// The placeholder of the widget's name in a template.
pub open spec fn name_placeholder() -> Seq<char> {
    "{{NAME}}"@
}

/// A search in a suffix finds what the search in the whole finds, shifted.
proof fn lemma_find_in_suffix(s: Seq<char>, pat: Seq<char>, i: int, j: int)
    requires
        0 <= i <= s.len(),
        0 <= j,
    ensures
        find_from(s.subrange(i, s.len() as int), pat, j) == match find_from(s, pat, i + j) {
            Some(k) => Some(k - i),
            None => None::<int>,
        },
    decreases s.len() + 1 - i - j,
{
    let t = s.subrange(i, s.len() as int);
    if j + pat.len() > t.len() {
    } else {
        assert(t.subrange(j, j + pat.len()) =~= s.subrange(i + j, i + j + pat.len()));
        if !matches_at(t, pat, j) {
            lemma_find_in_suffix(s, pat, i, j + 1);
        }
    }
}

/// A template with every `{{NAME}}` replaced by `name`.
pub fn render_template(template: &str, name: &str) -> (r: String)
    ensures
        r@ == replace_all(template@, name_placeholder(), name@),
{
    let t = to_chars(template);
    let pat = to_chars("{{NAME}}");
    let rep = to_chars(name);
    proof {
        reveal_strlit("{{NAME}}");
    }
    assert(pat@.len() == 8);
    let n = t.len();
    let mut r = String::new();
    let mut i: usize = 0;
    proof {
        assert(t@.subrange(0, n as int) =~= t@);
    }
    while i <= n
        invariant
            n == t@.len(),
            t@ == template@,
            i <= n,
            pat@ == name_placeholder(),
            pat@.len() == 8,
            rep@ == name@,
            r@ + replace_all(t@.subrange(i as int, n as int), pat@, rep@) == replace_all(
                t@,
                pat@,
                rep@,
            ),
        decreases n + 1 - i,
    {
        let ghost suffix = t@.subrange(i as int, n as int);
        proof {
            lemma_find_in_suffix(t@, pat@, i as int, 0);
            lemma_find_from(t@, pat@, i as int);
        }
        match find_from_exec(t.as_slice(), pat.as_slice(), i) {
            None => {
                let ghost r0 = r@;
                let rest = crate::text::sub_chars(t.as_slice(), i, n);
                push_chars(&mut r, rest.as_slice());
                proof {
                    assert(find_from(suffix, pat@, 0) is None);
                    assert(replace_all(suffix, pat@, rep@) == suffix);
                    assert(r@ == r0 + suffix);
                }
                return r;
            },
            Some(k) => {
                let ghost r0 = r@;
                let before = crate::text::sub_chars(t.as_slice(), i, k);
                push_chars(&mut r, before.as_slice());
                push_chars(&mut r, rep.as_slice());
                proof {
                    let kk = k - i;
                    assert(suffix.subrange(0, kk) =~= t@.subrange(i as int, k as int));
                    assert(suffix.subrange(kk + 8, suffix.len() as int) =~= t@.subrange(
                        k + 8,
                        n as int,
                    ));
                    let tail = replace_all(t@.subrange(k + 8, n as int), pat@, rep@);
                    assert(replace_all(suffix, pat@, rep@) == t@.subrange(i as int, k as int)
                        + rep@ + tail);
                    assert(r@ + tail =~= r0 + (t@.subrange(i as int, k as int) + rep@ + tail));
                }
                i = k + 8;
            },
        }
    }
    r
}

} // verus!
