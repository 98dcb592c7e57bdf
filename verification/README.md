# minibin

A recycle-bin tray application for Windows. The verified library (`src/`)
holds its decisions: which icon level a bin of a given size shows, the
tooltip text, the flags for emptying the bin, what each menu command and
tray event does to the configuration and which action it asks for, the
default configuration, the UTF-16 shell paths, and the decoding of icon
files into RGBA pixels. `app/` is the program around it: the tray icon and
its menu, the event loop, the shell calls and the configuration file.

- `src/tray.rs`: the application state, events, actions and their laws.
- `src/conf.rs`: the configuration and its defaults.
- `src/text.rs`: decimal writing of numbers.
- `src/wide.rs`: NUL-terminated UTF-16 encoding.
- `src/trash.rs`: the bin's shell path and the reading of its size query.
- `src/icon.rs`: icon decoding through the `image` crate.
- `src/lib.rs`: the fill levels, the menu messages, the window procedure's
  decision.

The program expects the five icon files `0.ico`, `25.ico`, `50.ico`,
`75.ico` and `100.ico` in an `icons` directory beside the executable.
