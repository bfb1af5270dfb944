//! Environment-variable toolkit: a command-line grammar, name validation,
//! output formatting and the state machine of the interactive editor.
pub mod text;
pub mod keys;
pub mod state;
pub mod controller;
pub mod models;
pub mod cli;
pub mod utils;
pub mod variables;
pub mod config;
pub mod view;
pub mod interactive;
