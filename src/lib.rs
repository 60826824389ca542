pub mod status;
pub mod text;
pub mod config;
pub mod backends;
pub mod cli;
pub mod select;
pub mod report;
