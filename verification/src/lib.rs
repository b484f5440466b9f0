pub mod bus_handler;
pub mod cli;
pub mod config;
pub mod discovery;
pub mod error;
pub mod handler;
pub mod pipeline;
pub mod repl;
pub mod text;
pub mod tool_registry;
