//! Verified core of phantom: headless TUI interaction for agents and tests.

mod text;
pub mod keys;
pub mod tmux;
pub mod color;
pub mod pattern;
pub mod types;
pub mod exit_codes;
pub mod protocol;
pub mod error;
pub mod screen;
pub mod capture;
pub mod wait;
pub mod cli;
pub mod engine;
pub mod input;
pub mod script;
pub mod report;
pub mod client;
pub mod mcp;
pub mod paths;
pub mod monitor;
pub mod render;
pub mod runner;
