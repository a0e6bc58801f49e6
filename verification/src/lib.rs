pub mod command;
pub mod executor;
pub mod input;
pub mod state;
