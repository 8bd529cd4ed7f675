# mdcmd

`mdc` is a terminal file browser and Markdown viewer. This crate holds its
logic as a library verified with Verus, and a thin terminal front end.

- `src/` — the verified library:
  - `markdown.rs`: the Markdown line renderer and its map from screen lines
    back to source lines;
  - `browser.rs`: the browser's state and what every key does to it, with the
    work a key asks for handed back as an `Effect`;
  - `screen.rs`: what the screen shows (rows, titles, tab and status bars,
    notices, geometry);
  - `listing.rs`, `files.rs`, `config.rs`, `commands.rs`: listing order, file
    kinds, pins, the file commands' decisions, and reading the pins from the
    settings file's text;
  - `keys.rs`, `palette.rs`, `style.rs`, `chars.rs`, `docpicker.rs`: key
    encodings, colours, styled text, character-level string helpers, and the
    document-picker messages;
  - `laws.rs`: properties of the library as a whole, proved.
- `app/` — the front end: terminal setup, drawing with ratatui, the disk, the
  settings file, the clipboard, terminals and the embedded editor.
- `tests/` — tests of the library on concrete values.
