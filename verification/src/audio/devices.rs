//! The report of the host's audio devices (`mimik devices`).

use vstd::prelude::*;
use crate::text::{append_decimal, spec_decimal, views};

verus! {

/// A sample format of an audio stream, as the audio host names it.
#[derive(Clone, Copy, Debug, PartialEq, Eq, Structural)]
pub enum SampleFormat {
    I8,
    I16,
    I24,
    I32,
    I64,
    U8,
    U16,
    U24,
    U32,
    U64,
    F32,
    F64,
    DsdU8,
    DsdU16,
    DsdU32,
    /// A format that the audio host added after the formats above.
    Other,
}

/// How a format is written in reports (its `Debug` form).
pub open spec fn format_name(f: SampleFormat) -> Seq<char> {
    match f {
        SampleFormat::I8 => "I8"@,
        SampleFormat::I16 => "I16"@,
        SampleFormat::I24 => "I24"@,
        SampleFormat::I32 => "I32"@,
        SampleFormat::I64 => "I64"@,
        SampleFormat::U8 => "U8"@,
        SampleFormat::U16 => "U16"@,
        SampleFormat::U24 => "U24"@,
        SampleFormat::U32 => "U32"@,
        SampleFormat::U64 => "U64"@,
        SampleFormat::F32 => "F32"@,
        SampleFormat::F64 => "F64"@,
        SampleFormat::DsdU8 => "DsdU8"@,
        SampleFormat::DsdU16 => "DsdU16"@,
        SampleFormat::DsdU32 => "DsdU32"@,
        SampleFormat::Other => "Other"@,
    }
}

impl SampleFormat {
    /// The name of the format in reports.
    pub fn name(&self) -> (r: &'static str)
        ensures
            r@ == format_name(*self),
    {
        match self {
            SampleFormat::I8 => "I8",
            SampleFormat::I16 => "I16",
            SampleFormat::I24 => "I24",
            SampleFormat::I32 => "I32",
            SampleFormat::I64 => "I64",
            SampleFormat::U8 => "U8",
            SampleFormat::U16 => "U16",
            SampleFormat::U24 => "U24",
            SampleFormat::U32 => "U32",
            SampleFormat::U64 => "U64",
            SampleFormat::F32 => "F32",
            SampleFormat::F64 => "F64",
            SampleFormat::DsdU8 => "DsdU8",
            SampleFormat::DsdU16 => "DsdU16",
            SampleFormat::DsdU32 => "DsdU32",
            SampleFormat::Other => "Other",
        }
    }
}

/// A device's default stream configuration.
#[derive(Clone, Copy, Debug, PartialEq, Eq, Structural)]
pub struct StreamConfigInfo {
    pub channels: u16,
    pub sample_rate: u32,
    pub format: SampleFormat,
}

/// Input or output.
#[derive(Clone, Copy, Debug, PartialEq, Eq, Structural)]
pub enum DeviceKind {
    Input,
    Output,
}

/// What the host told about one device: its name (`None`: the host could
/// not describe it) and its default configuration, or why there is none.
#[derive(Debug)]
pub struct DeviceEntry {
    pub name: Option<String>,
    pub config: Result<StreamConfigInfo, String>,
}

/// The devices of one direction: the name of the default device, if any,
/// and the devices, or why they could not be enumerated.
#[derive(Debug)]
pub struct DeviceListing {
    pub default_name: Option<String>,
    pub devices: Result<Vec<DeviceEntry>, String>,
}

/// Everything that the device report shows about a host.
#[derive(Debug)]
pub struct HostReport {
    pub host_name: String,
    pub input: DeviceListing,
    pub output: DeviceListing,
}

/// The devices of one direction could not be enumerated.
#[derive(Debug)]
pub struct EnumerationError {
    pub kind: DeviceKind,
    pub cause: String,
}

pub open spec fn spec_enumeration_message(kind: DeviceKind) -> Seq<char> {
    match kind {
        DeviceKind::Input => "Failed to enumerate input devices"@,
        DeviceKind::Output => "Failed to enumerate output devices"@,
    }
}

impl EnumerationError {
    /// The text that reports the error (its cause is reported under it).
    pub fn message(&self) -> (r: String)
        ensures
            r@ == spec_enumeration_message(self.kind),
    {
        match self.kind {
            DeviceKind::Input => String::from_str("Failed to enumerate input devices"),
            DeviceKind::Output => String::from_str("Failed to enumerate output devices"),
        }
    }
}

/// Printed lines, and whether the report ended in an error.
#[derive(Debug)]
pub struct Report {
    pub lines: Vec<String>,
    pub outcome: Result<(), EnumerationError>,
}

pub open spec fn header(kind: DeviceKind) -> Seq<char> {
    match kind {
        DeviceKind::Input => "Input devices"@,
        DeviceKind::Output => "Output devices"@,
    }
}

pub open spec fn unknown_name(kind: DeviceKind) -> Seq<char> {
    match kind {
        DeviceKind::Input => "Unknown input device"@,
        DeviceKind::Output => "Unknown output device"@,
    }
}

pub open spec fn none_found(kind: DeviceKind) -> Seq<char> {
    match kind {
        DeviceKind::Input => "  No input devices found"@,
        DeviceKind::Output => "  No output devices found"@,
    }
}

pub open spec fn display_name(kind: DeviceKind, d: DeviceEntry) -> Seq<char> {
    match d.name {
        Some(n) => n@,
        None => unknown_name(kind),
    }
}

/// The device's shown name is the default device's name.
pub open spec fn is_default(default_name: Option<String>, name: Seq<char>) -> bool {
    default_name matches Some(dn) && dn@ == name
}

pub open spec fn name_line(
    kind: DeviceKind,
    default_name: Option<String>,
    index: nat,
    d: DeviceEntry,
) -> Seq<char> {
    "  "@ + spec_decimal(index) + ": "@ + display_name(kind, d) + if is_default(
        default_name,
        display_name(kind, d),
    ) {
        " [default]"@
    } else {
        Seq::<char>::empty()
    }
}

pub open spec fn config_line(d: DeviceEntry) -> Seq<char> {
    match d.config {
        Ok(c) => "     channels: "@ + spec_decimal(c.channels as nat) + ", sample rate: "@
            + spec_decimal(c.sample_rate as nat) + " Hz, format: "@ + format_name(c.format),
        Err(e) => "     configuration unavailable: "@ + e@,
    }
}

/// Two lines per device, or one line saying that there is none.
pub open spec fn device_lines(
    kind: DeviceKind,
    default_name: Option<String>,
    devices: Seq<DeviceEntry>,
) -> Seq<Seq<char>> {
    if devices.len() == 0 {
        seq![none_found(kind)]
    } else {
        Seq::new(
            2 * devices.len(),
            |j: int|
                if j % 2 == 0 {
                    name_line(kind, default_name, (j / 2) as nat, devices[j / 2])
                } else {
                    config_line(devices[j / 2])
                },
        )
    }
}

/// The lines about one direction: a header, then its devices unless they
/// could not be enumerated.
pub open spec fn listing_lines(kind: DeviceKind, l: DeviceListing) -> Seq<Seq<char>> {
    seq![header(kind)] + match l.devices {
        Ok(devs) => device_lines(kind, l.default_name, devs@),
        Err(_) => Seq::<Seq<char>>::empty(),
    }
}

pub open spec fn listing_failure(l: DeviceListing) -> Option<Seq<char>> {
    match l.devices {
        Ok(_) => None,
        Err(e) => Some(e@),
    }
}

/// The report's result matches the failure of a listing.
pub open spec fn outcome_matches(
    outcome: Result<(), EnumerationError>,
    failure: Option<(DeviceKind, Seq<char>)>,
) -> bool {
    match outcome {
        Ok(()) => failure is None,
        Err(e) => failure == Some((e.kind, e.cause@)),
    }
}

fn push_listing(kind: DeviceKind, l: &DeviceListing, lines: &mut Vec<String>) -> (r: Result<
    (),
    EnumerationError,
>)
    ensures
        views(final(lines)@) == views(old(lines)@) + listing_lines(kind, *l),
        outcome_matches(
            r,
            match listing_failure(*l) {
                None => None,
                Some(c) => Some((kind, c)),
            },
        ),
{
    let ghost start = views(lines@);
    match kind {
        DeviceKind::Input => lines.push(String::from_str("Input devices")),
        DeviceKind::Output => lines.push(String::from_str("Output devices")),
    }
    let ghost base = views(lines@);
    assert(base =~= start + seq![header(kind)]);
    match &l.devices {
        Err(cause) => {
            assert(views(lines@) =~= start + listing_lines(kind, *l));
            Err(EnumerationError { kind, cause: cause.clone() })
        },
        Ok(devs) => {
            if devs.len() == 0 {
                match kind {
                    DeviceKind::Input => lines.push(String::from_str("  No input devices found")),
                    DeviceKind::Output => lines.push(
                        String::from_str("  No output devices found"),
                    ),
                }
                assert(views(lines@) =~= start + listing_lines(kind, *l));
                return Ok(());
            }
            let ghost f = |j: int|
                if j % 2 == 0 {
                    name_line(kind, l.default_name, (j / 2) as nat, devs@[j / 2])
                } else {
                    config_line(devs@[j / 2])
                };
            let mut i: usize = 0;
            while i < devs.len()
                invariant
                    i <= devs.len(),
                    base == start + seq![header(kind)],
                    views(lines@) == base + Seq::new(2 * i as nat, f),
                    f == (|j: int|
                        if j % 2 == 0 {
                            name_line(kind, l.default_name, (j / 2) as nat, devs@[j / 2])
                        } else {
                            config_line(devs@[j / 2])
                        }),
                decreases devs.len() - i,
            {
                let d = &devs[i];
                let mut a = String::from_str("  ");
                append_decimal(&mut a, i as u64);
                a.append(": ");
                let shown = match &d.name {
                    Some(n) => n.clone(),
                    None => match kind {
                        DeviceKind::Input => String::from_str("Unknown input device"),
                        DeviceKind::Output => String::from_str("Unknown output device"),
                    },
                };
                a.append(shown.as_str());
                let default = match &l.default_name {
                    Some(dn) => *dn == shown,
                    None => false,
                };
                if default {
                    a.append(" [default]");
                }
                let mut b: String;
                match &d.config {
                    Ok(c) => {
                        b = String::from_str("     channels: ");
                        append_decimal(&mut b, c.channels as u64);
                        b.append(", sample rate: ");
                        append_decimal(&mut b, c.sample_rate as u64);
                        b.append(" Hz, format: ");
                        b.append(c.format.name());
                    },
                    Err(e) => {
                        b = String::from_str("     configuration unavailable: ");
                        b.append(e.as_str());
                    },
                }
                proof {
                    assert(shown@ == display_name(kind, devs@[i as int]));
                    assert(a@ == name_line(kind, l.default_name, i as nat, devs@[i as int]));
                    assert(b@ == config_line(devs@[i as int]));
                }
                let ghost before = lines@;
                lines.push(a);
                lines.push(b);
                proof {
                    let j0 = 2 * i as int;
                    assert(f(j0) == name_line(kind, l.default_name, i as nat, devs@[i as int]));
                    assert(f(j0 + 1) == config_line(devs@[i as int]));
                    assert(views(lines@) =~= views(before).push(a@).push(b@));
                    assert(Seq::new(2 * (i + 1) as nat, f) =~= Seq::new(2 * i as nat, f).push(
                        f(j0),
                    ).push(f(j0 + 1)));
                    assert(views(lines@) =~= base + Seq::new(2 * (i + 1) as nat, f));
                }
                i = i + 1;
            }
            assert(views(lines@) =~= start + listing_lines(kind, *l));
            Ok(())
        },
    }
}

/// The lines about the input devices.
pub fn print_input_devices(listing: &DeviceListing) -> (r: Report)
    ensures
        views(r.lines@) == listing_lines(DeviceKind::Input, *listing),
        outcome_matches(
            r.outcome,
            match listing_failure(*listing) {
                None => None,
                Some(c) => Some((DeviceKind::Input, c)),
            },
        ),
{
    let mut lines: Vec<String> = Vec::new();
    let outcome = push_listing(DeviceKind::Input, listing, &mut lines);
    assert(views(lines@) =~= listing_lines(DeviceKind::Input, *listing));
    Report { lines, outcome }
}

/// The lines about the output devices.
pub fn print_output_devices(listing: &DeviceListing) -> (r: Report)
    ensures
        views(r.lines@) == listing_lines(DeviceKind::Output, *listing),
        outcome_matches(
            r.outcome,
            match listing_failure(*listing) {
                None => None,
                Some(c) => Some((DeviceKind::Output, c)),
            },
        ),
{
    let mut lines: Vec<String> = Vec::new();
    let outcome = push_listing(DeviceKind::Output, listing, &mut lines);
    assert(views(lines@) =~= listing_lines(DeviceKind::Output, *listing));
    Report { lines, outcome }
}

/// The whole device report: the host, then its input devices, then its
/// output devices; it stops at the first direction that cannot be
/// enumerated.
pub open spec fn spec_print_devices(h: HostReport) -> Seq<Seq<char>> {
    let head = seq!["Audio host: "@ + h.host_name@, Seq::<char>::empty()] + listing_lines(
        DeviceKind::Input,
        h.input,
    );
    match h.input.devices {
        Err(_) => head,
        Ok(_) => head + seq![Seq::<char>::empty()] + listing_lines(DeviceKind::Output, h.output),
    }
}

pub open spec fn first_failure(h: HostReport) -> Option<(DeviceKind, Seq<char>)> {
    match listing_failure(h.input) {
        Some(c) => Some((DeviceKind::Input, c)),
        None => match listing_failure(h.output) {
            Some(c) => Some((DeviceKind::Output, c)),
            None => None,
        },
    }
}

/// The device report.
pub fn print_devices(host: &HostReport) -> (r: Report)
    ensures
        views(r.lines@) == spec_print_devices(*host),
        outcome_matches(r.outcome, first_failure(*host)),
{
    let mut lines: Vec<String> = Vec::new();
    let mut a = String::from_str("Audio host: ");
    a.append(host.host_name.as_str());
    lines.push(a);
    lines.push(String::new());
    assert(views(lines@) =~= seq!["Audio host: "@ + host.host_name@, Seq::<char>::empty()]);
    let first = push_listing(DeviceKind::Input, &host.input, &mut lines);
    if first.is_err() {
        return Report { lines, outcome: first };
    }
    let ghost mid = views(lines@);
    lines.push(String::new());
    assert(views(lines@) =~= mid + seq![Seq::<char>::empty()]);
    let second = push_listing(DeviceKind::Output, &host.output, &mut lines);
    Report { lines, outcome: second }
}

} // verus!
