//! Where widgets are looked for, which files are widgets, and what a loaded widget holds.
use vstd::prelude::*;

use crate::config::{default_view, config_from_html, Layer, WindowConfig, WindowConfigView};
use crate::text::{from_chars, push_str, sub_chars, to_chars};

verus! {

/// A widget: its window configuration and its page.
#[derive(Debug)]
pub struct Widget {
    pub config: WindowConfig,
    pub html: String,
}

/// The directories searched for widgets.
#[derive(Debug)]
pub struct WidgetLoader {
    search_paths: Vec<String>,
}

/// The configuration directory under the home directory `home`.
pub open spec fn config_dir_spec(home: Seq<char>) -> Seq<char> {
    home + "/.config/magnetar"@
}

/// The configuration directory under the home directory `home`: `<home>/.config/magnetar`.
pub fn config_dir(home: &str) -> (r: String)
    ensures
        r@ == config_dir_spec(home@),
{
    let mut r = String::new();
    push_str(&mut r, home);
    push_str(&mut r, "/.config/magnetar");
    r
}

/// The search paths for a home directory (`HOME`, `None` where it is not set): the
/// configuration directory under it, then the current directory.
pub open spec fn search_paths_for(home: Option<Seq<char>>) -> Seq<Seq<char>> {
    match home {
        Some(h) => seq![config_dir_spec(h), "."@],
        None => seq!["."@],
    }
}

impl WidgetLoader {
    /// A loader searching the configuration directory under `home` (the value of `HOME`,
    /// `None` where it is not set), then the current directory.
    pub fn new(home: Option<String>) -> (r: Self)
        ensures
            r.search_paths_view() == search_paths_for(
                match home {
                    Some(h) => Some(h@),
                    None => None,
                },
            ),
    {
        let mut search_paths: Vec<String> = Vec::new();
        if let Some(h) = home {
            search_paths.push(config_dir(h.as_str()));
        }
        search_paths.push(String::from_str("."));
        proof {
            assert(search_paths@.map_values(|p: String| p@) =~= search_paths_for(
                match home {
                    Some(h) => Some(h@),
                    None => None,
                },
            ));
        }
        WidgetLoader { search_paths }
    }

    /// A loader searching only the directory `dir` (the shell's `--config-dir`).
    pub fn with_config_dir(dir: String) -> (r: Self)
        ensures
            r.search_paths_view() == seq![dir@],
    {
        let mut search_paths: Vec<String> = Vec::new();
        search_paths.push(dir);
        proof {
            assert(search_paths@.map_values(|p: String| p@) =~= seq![dir@]);
        }
        WidgetLoader { search_paths }
    }

    /// The loader of the shell: the directory given with `--config-dir` when there is one,
    /// else the configuration directory under `home` and the current directory.
    pub fn for_shell(config_dir: Option<String>, home: Option<String>) -> (r: Self)
        ensures
            r.search_paths_view() == match config_dir {
                Some(d) => seq![d@],
                None => search_paths_for(
                    match home {
                        Some(h) => Some(h@),
                        None => None,
                    },
                ),
            },
    {
        match config_dir {
            Some(d) => Self::with_config_dir(d),
            None => Self::new(home),
        }
    }

    /// The search paths, in the order they are searched.
    pub closed spec fn search_paths_view(&self) -> Seq<Seq<char>> {
        self.search_paths@.map_values(|p: String| p@)
    }

    /// The search paths, in the order they are searched.
    pub fn search_paths(&self) -> (r: &Vec<String>)
        ensures
            r@.map_values(|p: String| p@) == self.search_paths_view(),
    {
        &self.search_paths
    }
}

/// The last index of `c` in `s`.
pub open spec fn last_index_of(s: Seq<char>, c: char) -> Option<int>
    decreases s.len(),
{
    if s.len() == 0 {
        None
    } else if s.last() == c {
        Some(s.len() - 1)
    } else {
        last_index_of(s.drop_last(), c)
    }
}

/// A file name split into stem and extension as `Path::file_stem` and `Path::extension` do:
/// at the last `.`, unless the name is `..` or that dot is its first character.
pub open spec fn stem_and_extension(f: Seq<char>) -> (Seq<char>, Option<Seq<char>>) {
    if f == ".."@ {
        (f, None)
    } else {
        match last_index_of(f, '.') {
            None => (f, None),
            Some(i) => if i == 0 {
                (f, None)
            } else {
                (f.subrange(0, i), Some(f.subrange(i + 1, f.len() as int)))
            },
        }
    }
}

proof fn lemma_last_index_of(s: Seq<char>, c: char, i: int)
    requires
        0 <= i <= s.len(),
        forall|k: int| i <= k < s.len() ==> s[k] != c,
    ensures
        last_index_of(s, c) == last_index_of(s.subrange(0, i), c),
    decreases s.len() - i,
{
    if i < s.len() {
        assert(s.drop_last().subrange(0, i) =~= s.subrange(0, i));
        lemma_last_index_of(s.drop_last(), c, i);
    } else {
        assert(s.subrange(0, i) =~= s);
    }
}

/// Splits a file name into stem and extension (see [`stem_and_extension`]).
fn split_file_name(f: &[char]) -> (r: (Vec<char>, Option<Vec<char>>))
    ensures
        r.0@ == stem_and_extension(f@).0,
        match r.1 {
            Some(e) => stem_and_extension(f@).1 == Some(e@),
            None => stem_and_extension(f@).1 is None,
        },
{
    let whole = sub_chars(f, 0, f.len());
    assert(whole@ =~= f@);
    if crate::text::chars_eq_str(f, "..") {
        return (whole, None);
    }
    let mut j = f.len();
    while j > 0 && f[j - 1] != '.'
        invariant
            j <= f@.len(),
            forall|k: int| j <= k < f@.len() ==> f@[k] != '.',
        decreases j,
    {
        j = j - 1;
    }
    proof {
        lemma_last_index_of(f@, '.', j as int);
        if j > 0 {
            let p = f@.subrange(0, j as int);
            assert(p.last() == '.');
        } else {
            assert(f@.subrange(0, 0) =~= Seq::<char>::empty());
        }
    }
    if j <= 1 {
        (whole, None)
    } else {
        let stem = sub_chars(f, 0, j - 1);
        let ext = sub_chars(f, j, f.len());
        (stem, Some(ext))
    }
}

/// Whether a directory entry with this file name is a widget: its extension is `html`.
pub fn is_widget_file(file_name: &str) -> (r: bool)
    ensures
        r == (stem_and_extension(file_name@).1 == Some("html"@)),
{
    let f = to_chars(file_name);
    let (_, ext) = split_file_name(f.as_slice());
    match ext {
        Some(e) => crate::text::chars_eq_str(e.as_slice(), "html"),
        None => false,
    }
}

/// The name of the widget in the file `file_name` (`None` where the name is not valid
/// UTF-8): the file's stem, or `widget`.
pub fn widget_name(file_name: Option<&str>) -> (r: String)
    ensures
        match file_name {
            Some(f) => r@ == stem_and_extension(f@).0,
            None => r@ == "widget"@,
        },
{
    match file_name {
        Some(f) => {
            let chars = to_chars(f);
            let (stem, _) = split_file_name(chars.as_slice());
            from_chars(stem.as_slice())
        },
        None => String::from_str("widget"),
    }
}

/// The file a new widget called `name` is written to: `<name>.html`.
pub fn widget_file_name(name: &str) -> (r: String)
    ensures
        r@ == name@ + ".html"@,
{
    let mut r = String::new();
    push_str(&mut r, name);
    push_str(&mut r, ".html");
    r
}

/// The directory `magnetar new` writes to: the one given with `--output`, else the
/// configuration directory under `home` (the value of `HOME`), else the current directory.
pub fn new_widget_dir(output: Option<String>, home: Option<&str>) -> (r: String)
    ensures
        match output {
            Some(o) => r@ == o@,
            None => match home {
                Some(h) => r@ == config_dir_spec(h@),
                None => r@ == "."@,
            },
        },
{
    match output {
        Some(o) => o,
        None => match home {
            Some(h) => config_dir(h),
            None => String::from_str("."),
        },
    }
}

impl Widget {
    /// The widget in the file `file_name` (see [`widget_name`]) whose page is `html`.
    pub fn load(file_name: Option<&str>, html: String) -> (r: Self)
        ensures
            r.html == html,
            r.config@ == config_from_html(
                html@,
                match file_name {
                    Some(f) => stem_and_extension(f@).0,
                    None => "widget"@,
                },
            ),
    {
        let name = widget_name(file_name);
        let config = WindowConfig::from_html(html.as_str(), name);
        Widget { config, html }
    }
}

/// The page shown when no page of the default bar can be read.
pub open spec fn missing_topbar_page() -> Seq<char> {
    "<html><body style=\"background:#1e1e2e;color:#cdd6f4;padding:20px;\">\n            <h1>ERROR: topbar.html not found</h1>\n        </body></html>"@
}

/// The widget used when no widget is found: a bar called `topbar` on the overlay layer,
/// 40 pixels high, showing `page` (the content of `topbar.html`, `None` where it could not be
/// read, which shows an error page instead).
pub fn default_widget(page: Option<String>) -> (r: Widget)
    ensures
        r.config@ == (WindowConfigView { layer: Layer::Overlay, height: 40, ..default_view("topbar"@) }),
        match page {
            Some(p) => r.html == p,
            None => r.html@ == missing_topbar_page(),
        },
{
    let html = match page {
        Some(p) => p,
        None => String::from_str(
            "<html><body style=\"background:#1e1e2e;color:#cdd6f4;padding:20px;\">\n            <h1>ERROR: topbar.html not found</h1>\n        </body></html>",
        ),
    };
    let mut config = WindowConfig::named(String::from_str("topbar"));
    config.layer = Layer::Overlay;
    config.height = 40;
    Widget { config, html }
}

} // verus!
