# blur_auto_clicker input layer

The decisions of an auto clicker's input layer, verified with Verus:

- `src/keysym.rs` — virtual-key codes to X11 keysyms and back, with the
  round-trip laws.
- `src/keystate.rs` — keymap bits, pressed-key snapshots and the 256-slot
  key-state table (generic modifiers mirror their sides).
- `src/screen.rs` — the virtual screen and the stable top-to-bottom,
  left-to-right order of monitors.
- `src/windows.rs` — decoding window properties and the process-id to title map.
- `src/window_tree.rs` — the walks through the window tree, as step machines.
- `src/picker.rs` — the stop-zone picker: message classification, drag
  normalization and the picker's state machine (hooks and polling).
- `src/autostart.rs` — where the autostart entry lives and what it contains.

`app/` holds the I/O around it: the Xlib/XTEST/Xinerama calls, the files and
registry values of autostart, and the threads and hooks of the picker. The
application that hosts the picker (its overlay window and front-end events) is
reached through the `PickerHost` trait.
