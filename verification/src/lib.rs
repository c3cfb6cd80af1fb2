//! Cairn terminal UI.

pub mod body;
pub mod chars;
pub mod chrome;
pub mod clipboard;
pub mod command_laws;
pub mod commands;
pub mod completion;
pub mod completion_laws;
pub mod composer_keys;
pub mod composer_laws;
pub mod edit;
pub mod enter;
pub mod events;
pub mod host;
pub mod input;
pub mod keyboard;
pub mod keys;
pub mod laws;
pub mod layout;
pub mod lines;
pub mod list_laws;
pub mod listings;
pub mod llm;
pub mod pane_laws;
pub mod panel_laws;
pub mod panels;
pub mod permission;
pub mod pickers;
pub mod preferences;
pub mod prompt_laws;
pub mod prompt_panels;
pub mod render;
pub mod request;
pub mod result_laws;
pub mod scroll;
pub mod session;
pub mod session_laws;
pub mod session_ops;
pub mod sorting;
pub mod state;
pub mod status;
pub mod text;
pub mod text_laws;
pub mod theme;
pub mod tool_display;
pub mod transcript;
pub mod tui;
pub mod turn_laws;
pub mod wire;

pub use state::Tui;
pub use text::sanitize_terminal_output;
pub use transcript::OutputLine;
