//! The editor core: text buffer, cursor, selection, prompt and the request session.
pub mod command_line;
pub mod command_list;
pub mod command_text;
pub mod command_ui_state;
pub mod completion;
pub mod editor;
pub mod file;
pub mod history;
pub mod keymap_list;
pub mod line_view;
pub mod mode;
pub mod placeholder;
pub mod prompt_entry;
pub mod prompt_input;
pub mod query;
pub mod rpc;
pub mod selection;
pub mod session_laws;
pub mod signal;
pub mod transform;
pub mod prompt_ui_state;
