# quickpeek

The verified core of QuickPeek, a space-to-preview image viewer for Wayland
desktops: a daemon that owns a D-Bus name, shows a picture in a borderless
window and toggles it from a compositor key binding, previewing the file
selected in Dolphin.

- `src/` — the library, verified with Verus:
  - `text.rs`: trimming, affixes, ASCII case, decimal notation, Unix path joins;
  - `dbus.rs`: the service's names and the reading of `RequestName` replies;
  - `state.rs`: where the last selection is remembered, how it is saved and read back;
  - `window.rs`: the command line, the preview window's state and what a toggle does;
  - `atspi.rs`: roles, active windows, window titles and the derivation of the selected path;
  - `resolver.rs`: the Dolphin selection lookup as a state machine;
  - `probe.rs`: the questions asked of the file system.
- `app/` — the program: GTK window, D-Bus calls, files and the environment.
- `tests/` — tests of the library.
