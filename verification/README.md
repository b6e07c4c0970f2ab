# rectanglewin

A keyboard-driven window tiler for Windows: global hotkeys (Win+Alt by
default) move the focused window to a half, a quarter, a section (thirds,
fourths or fifths), the centre, the whole work area, or the next or previous
display, and Undo puts it back where it was.

## Layout

- `src/` is the library, verified with Verus:
  - `rect.rs`: rectangles and their conversions;
  - `frame.rs`: from a window's visible bounds to the rectangle the OS
    positions (widened by the window's invisible frame);
  - `engine.rs`: the actions and the layout calculation;
  - `shortcut.rs`: formatting and parsing shortcut text such as `Win+Alt+Left`;
  - `text.rs`: the character-level string handling the parser needs;
  - `config.rs`: default bindings and the conversions to and from the stored
    and displayed forms;
  - `hotkey.rs`: the decisions of the low-level keyboard hook;
  - `manager.rs`: per-window memory for Undo, the two steps of an action
    around the OS call that moves the window (`plan` and `finish`), which
    windows may be moved, display order and neighbours, and what a drag does
    to a snapped window.
- `app/` is the tray application around it: configuration file I/O, the
  Win32 calls and the tauri commands.
- `tests/` runs the library on concrete values.

Gap sizes are configured as floating-point numbers; the application truncates
them to whole pixels before handing them to the library.
