//! The values the editor core and its clients exchange.
pub mod command_ui;
pub mod frame;
pub mod path;
pub mod prompt_ui;
pub mod rpc;
pub mod status;
pub mod version;
