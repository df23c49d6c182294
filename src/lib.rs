pub mod command;
pub mod mirror;
pub mod orchestrator;
pub mod outcome;
pub mod pkg;
pub mod table;
pub mod task;
pub mod text;
