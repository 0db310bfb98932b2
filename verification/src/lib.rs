pub mod builder;
pub mod command;
pub mod config;
pub mod handle;
pub mod inspect;
pub mod laws;
pub mod paths;
pub mod pod;
pub mod stage;
pub mod text;
pub mod topology;

