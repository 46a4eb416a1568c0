pub mod backend;
pub mod cache;
pub mod config;
pub mod cli;
pub mod env;
pub mod output;
pub mod providers;
pub mod status_map;
pub mod text;
pub mod usage;
