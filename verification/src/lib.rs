pub mod commands;
pub mod paths;
pub mod workflow;
