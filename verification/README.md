# magnetar

A widget shell for Wayland compositors, built for Hyprland. Widgets are HTML pages. Each page
describes its layer-shell window in a comment such as
`<!-- magnetar: layer=top, height=40, anchor=top|left|right -->`.

- `src/`: the verified library, checked by Verus. It holds the configuration parser, widget
  validation, Hyprland event parsing and hyprctl handling, how calls from pages are read and
  routed, the text of replies and events, and the command line's decisions. `src/laws.rs`
  holds properties that span several functions.
- `tests/`: tests of the library on concrete values.
- `app/`: the program around the library: command-line parsing, files and environment,
  hyprctl processes and the event socket, the GTK/WebKit windows, logging and the Tokio
  runtime.
