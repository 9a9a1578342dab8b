//! `mimik devices`: the report of the host's audio devices.

use vstd::prelude::*;
use crate::audio::devices::{
    first_failure, outcome_matches, print_devices, spec_print_devices, HostReport, Report,
};
use crate::text::views;

verus! {

/// What `mimik devices` prints about the host, and whether it failed.
pub fn run(host: &HostReport) -> (r: Report)
    ensures
        views(r.lines@) == spec_print_devices(*host),
        outcome_matches(r.outcome, first_failure(*host)),
{
    print_devices(host)
}

} // verus!
