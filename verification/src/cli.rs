//! The command line: one subcommand per action of the voice changer.

use vstd::prelude::*;

verus! {

/// The parsed command line.
#[derive(Debug, Clone)]
pub struct Cli {
    pub command: Commands,
}

/// The subcommands.
#[derive(Debug, Clone)]
pub enum Commands {
    /// List available input and output audio devices
    Devices,
    /// Start live microphone processing
    Live {
        /// Voice to apply, such as robot or demon
        voice: Option<String>,
    },
    /// List installed voices
    List,
    /// Search downloadable voices
    Search {
        /// Name or keyword to search for
        voice: String,
    },
    /// Install a voice
    Install {
        /// Voice name or local pack path
        voice: String,
    },
    /// Remove an installed voice
    Remove {
        /// Name of the installed voice
        voice: String,
    },
    /// Show detailed information about a voice
    Info {
        /// Name of the voice
        voice: String,
    },
    /// Show the current Mimik status
    Status,
    /// Stop voice processing and return to clean passthrough
    Stop,
}

} // verus!
