//! Audio devices and the live pipeline: what is reported about them and
//! what is checked before audio flows.

pub mod devices;
pub mod pipeline;
