# writer

A minimal plain-text editor for macOS. The library (`src/`, verified with Verus) holds
the editor's rules: the file name and window title of a path, the document state behind
New / Open / Save / Save As as a state machine that answers each event with a list of
commands, the menu bar and delegate-class tables, and the window and text-view settings.
`app/` is the Cocoa front end: Objective-C FFI, panels, file reads and writes, and the
event loop, performing the commands the library hands back.

- `src/path.rs`: the final component of a '/'-separated path, and laws about it.
- `src/editor.rs`: the editor state machine, window titles, and laws tying commands together.
- `src/menu.rs`: menu bar and delegate class, with the laws that every delegate-targeted
  item is handled and that key equivalents are distinct.
- `src/runtime.rs`: the bound message-send entry point and NSString text decoding.
- `src/window.rs`: integer and flag settings of the window and text view.
