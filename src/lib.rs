pub mod abilities;
pub mod args;
pub mod command;
pub mod laws;
pub mod plugin;
