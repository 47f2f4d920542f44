//! The terminal user interface: focus, state and the launcher back end.

pub mod focus;
pub mod state;
pub mod backend;
pub mod mod_files;
pub mod launch_command;
pub mod update;
pub mod events;
pub mod theme;
pub mod navigation;
pub mod targets;
pub mod dispatch;
pub mod loader_meta;
pub mod input;
pub mod discover;
pub mod installs;
pub mod launching;
pub mod mod_updates;
pub mod content;
pub mod launch_files;
pub mod settings_editor;
pub mod actions;
