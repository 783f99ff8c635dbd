# vimrust

The core of a terminal text editor, driven over line-delimited JSON: a client sends
requests (resize, open, save, type, delete, move the cursor, work the prompt, switch
modes, run a command) and gets frames to draw, acknowledgements and errors back.

The library is written in Verus. Every decision the core makes is a verified function
whose contract states its result over a mathematical model:

- `src/protocol/` — the values exchanged with a client: requests, frames, prompt
  frames, acknowledgements, status messages, paths.
- `src/engine/` — the editor: the buffer (`file`), rendering and cursor columns
  (`line_view`), the editor and its edits (`editor`), selections and case rewriting
  (`selection`, `transform`), modes (`mode`), the prompt with its command and key
  binding lists, history and path completion (`prompt_ui_state`, `command_list`,
  `keymap_list`, `history`, `completion`), the command language (`command_text`), and
  the request session (`rpc`).
- `src/engine/session_laws.rs` and the `law_` proof functions next to the code state
  what holds across requests: a saved document reads back unchanged, backspace undoes
  a typed character, a repeated resize asks for no frame, a failed read or write
  changes nothing, and more.

The session never touches the file system itself: `Session::accept` answers with the
outcome or with the read, write or directory listing it needs, and `Session::resume`
takes the result. `app/` is the process around it: standard input and output, the
file system, the environment, and the JSON encoding.
