//! The voice manifest: what `manifest.toml` of a voice pack declares.

use vstd::prelude::*;

verus! {

/// The contents of a voice pack's `manifest.toml`.
#[derive(Debug, Clone)]
pub struct VoiceManifest {
    pub id: String,
    pub name: String,
    pub version: String,
    pub engine: String,
    pub description: Option<String>,
}

impl VoiceManifest {
    /// A voice that ships with mimik: its engine is `built-in`.
    pub open spec fn spec_is_built_in(&self) -> bool {
        self.engine@ == "built-in"@
    }

    /// A voice that the DSP engine runs: its engine is `dsp`.
    pub open spec fn spec_is_dsp(&self) -> bool {
        self.engine@ == "dsp"@
    }

    pub fn is_built_in(&self) -> (r: bool)
        ensures
            r == self.spec_is_built_in(),
    {
        self.engine == String::from_str("built-in")
    }

    pub fn is_dsp(&self) -> (r: bool)
        ensures
            r == self.spec_is_dsp(),
    {
        self.engine == String::from_str("dsp")
    }
}

} // verus!
