pub mod command;
pub mod configuration;
pub mod install;
pub mod laws;
pub mod model;
pub mod platform;
pub mod release;
pub mod resolver;
