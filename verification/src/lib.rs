//! Verified core of the mimik voice changer: the decisions and the text that
//! its commands produce, the device report, the stream checks of the live
//! pipeline, and the stop procedure.

pub mod audio;
pub mod cli;
pub mod commands;
pub mod text;
pub mod voice;
