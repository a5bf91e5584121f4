pub mod language;
pub mod text;
pub mod paths;
pub mod settings;
pub mod codecs;
pub mod naming;
pub mod preview;
pub mod commands;
pub mod progress;
pub mod executor;
pub mod presets;
pub mod ui;
pub mod session;
pub mod panels;
pub mod history;
pub mod workflow;
pub mod command_laws;
