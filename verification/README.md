# desktoprecorder

A screen recorder for Linux, on top of GStreamer, with a command line and a
GTK4/libadwaita window. What it decides and computes is a library verified
with Verus.

- `src/` is the verified library: options, durations, capture sources, the
  plans that pipelines are assembled from, the course of a recording, the
  negotiation with the desktop portal, the hotkey, the settings, and the form
  and states of the window. `src/outside.rs` holds everything that is taken
  on trust from code outside it.
- `app/` is the program around it: GStreamer, GTK, X11, D-Bus, files and
  signals. It carries out what the library asks for.
- `tests/` runs the library.

Plans, recordings, negotiations and the window all work the same way: the
library says what to do next, and is told what came of it.

Settings of the window are kept in
`$XDG_CONFIG_HOME/desktoprecorder/config.toml`, or under `~/.config` where
that variable is not set, empty or not an absolute path.

```bash
desktoprecorder record --output demo.mkv --duration 10s
desktoprecorder record --output demo.mkv --duration 1h --monitor 0 --audio mic
desktoprecorder list-sources
desktoprecorder gui
```
