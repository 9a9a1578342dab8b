//! What each subcommand decides and prints.

pub mod status;
pub mod stop;
pub mod info;
pub mod install;
pub mod live;
pub mod remove;
pub mod list;
pub mod devices;
