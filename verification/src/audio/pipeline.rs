//! The checks and messages of the live passthrough pipeline: which output
//! device it writes to, and which stream configurations it accepts.

use vstd::prelude::*;
use crate::audio::devices::{format_name, SampleFormat, StreamConfigInfo};
use crate::text::{append_decimal, contains, spec_contains, spec_decimal, views};

verus! {

/// The name that marks the virtual microphone device.
pub open spec fn virtual_device_name() -> Seq<char> {
    "BlackHole 2ch"@
}

/// The device's name marks it as the virtual microphone.
pub open spec fn is_virtual_device(name: Option<String>) -> bool {
    name matches Some(n) && spec_contains(n@, virtual_device_name())
}

/// The output device that the pipeline writes to: the first whose name
/// contains `BlackHole 2ch` (`None` in `names`: the device could not be
/// described).
pub fn select_output_device(names: &Vec<Option<String>>) -> (r: Option<usize>)
    ensures
        match r {
            Some(i) => i < names.len() && is_virtual_device(names@[i as int]) && forall|k: int|
                0 <= k < i ==> !is_virtual_device(#[trigger] names@[k]),
            None => forall|k: int| 0 <= k < names.len() ==> !is_virtual_device(#[trigger] names@[k]),
        },
{
    let mut i: usize = 0;
    while i < names.len()
        invariant
            i <= names.len(),
            forall|k: int| 0 <= k < i ==> !is_virtual_device(#[trigger] names@[k]),
        decreases names.len() - i,
    {
        let hit = match &names[i] {
            Some(n) => contains(n.as_str(), "BlackHole 2ch"),
            None => false,
        };
        if hit {
            return Some(i);
        }
        i = i + 1;
    }
    None
}

/// Why the pipeline did not start.
#[derive(Debug, Clone, Copy, PartialEq, Eq, Structural)]
pub enum PipelineError {
    /// There is no default input device.
    NoInputDevice,
    /// No output device is the virtual microphone.
    VirtualDeviceNotFound,
    /// The input stream's samples are not 32-bit floats.
    UnsupportedInputFormat(SampleFormat),
    /// The output stream's samples are not 32-bit floats.
    UnsupportedOutputFormat(SampleFormat),
    /// Input and output run at different sample rates.
    SampleRateMismatch { input: u32, output: u32 },
}

pub open spec fn spec_pipeline_message(e: PipelineError) -> Seq<char> {
    match e {
        PipelineError::NoInputDevice => "No default input microphone found"@,
        PipelineError::VirtualDeviceNotFound => "BlackHole 2ch was not found. Install it from existential.audio/blackhole"@,
        PipelineError::UnsupportedInputFormat(f) => "Input format "@ + format_name(f)
            + " is not supported yet"@,
        PipelineError::UnsupportedOutputFormat(f) => "Output format "@ + format_name(f)
            + " is not supported yet"@,
        PipelineError::SampleRateMismatch { input, output } => "Sample rate mismatch: input "@
            + spec_decimal(input as nat) + " Hz vs output "@ + spec_decimal(output as nat)
            + " Hz"@,
    }
}

impl PipelineError {
    /// The text that reports the error.
    pub fn message(&self) -> (r: String)
        ensures
            r@ == spec_pipeline_message(*self),
    {
        match self {
            PipelineError::NoInputDevice => String::from_str("No default input microphone found"),
            PipelineError::VirtualDeviceNotFound => String::from_str(
                "BlackHole 2ch was not found. Install it from existential.audio/blackhole",
            ),
            PipelineError::UnsupportedInputFormat(f) => {
                let mut s = String::from_str("Input format ");
                s.append(f.name());
                s.append(" is not supported yet");
                s
            },
            PipelineError::UnsupportedOutputFormat(f) => {
                let mut s = String::from_str("Output format ");
                s.append(f.name());
                s.append(" is not supported yet");
                s
            },
            PipelineError::SampleRateMismatch { input, output } => {
                let mut s = String::from_str("Sample rate mismatch: input ");
                append_decimal(&mut s, *input as u64);
                s.append(" Hz vs output ");
                append_decimal(&mut s, *output as u64);
                s.append(" Hz");
                s
            },
        }
    }
}

/// The checks on the two streams, in order: the input carries 32-bit
/// floats, so does the output, and both run at one sample rate.
pub open spec fn spec_check_streams(input: StreamConfigInfo, output: StreamConfigInfo) -> Result<
    (),
    PipelineError,
> {
    if input.format != SampleFormat::F32 {
        Err(PipelineError::UnsupportedInputFormat(input.format))
    } else if output.format != SampleFormat::F32 {
        Err(PipelineError::UnsupportedOutputFormat(output.format))
    } else if input.sample_rate != output.sample_rate {
        Err(
            PipelineError::SampleRateMismatch {
                input: input.sample_rate,
                output: output.sample_rate,
            },
        )
    } else {
        Ok(())
    }
}

/// With two 32-bit float streams, the pipeline starts exactly when the two
/// sample rates are equal, and otherwise reports both rates, whichever is
/// the higher.
pub proof fn lemma_check_streams_rates(input: StreamConfigInfo, output: StreamConfigInfo)
    requires
        input.format == SampleFormat::F32,
        output.format == SampleFormat::F32,
    ensures
        (spec_check_streams(input, output) is Ok) <==> input.sample_rate == output.sample_rate,
        input.sample_rate != output.sample_rate ==> spec_check_streams(input, output) == Err::<
            (),
            PipelineError,
        >(
            PipelineError::SampleRateMismatch {
                input: input.sample_rate,
                output: output.sample_rate,
            },
        ),
{
}

/// A stream whose samples are not 32-bit floats stops the pipeline: the
/// input's format is reported first, then the output's.
pub proof fn lemma_check_streams_formats(input: StreamConfigInfo, output: StreamConfigInfo)
    ensures
        input.format != SampleFormat::F32 ==> spec_check_streams(input, output) == Err::<
            (),
            PipelineError,
        >(PipelineError::UnsupportedInputFormat(input.format)),
        input.format == SampleFormat::F32 && output.format != SampleFormat::F32
            ==> spec_check_streams(input, output) == Err::<(), PipelineError>(
            PipelineError::UnsupportedOutputFormat(output.format),
        ),
{
}

pub fn check_streams(input: &StreamConfigInfo, output: &StreamConfigInfo) -> (r: Result<
    (),
    PipelineError,
>)
    ensures
        r == spec_check_streams(*input, *output),
{
    if input.format != SampleFormat::F32 {
        Err(PipelineError::UnsupportedInputFormat(input.format))
    } else if output.format != SampleFormat::F32 {
        Err(PipelineError::UnsupportedOutputFormat(output.format))
    } else if input.sample_rate != output.sample_rate {
        Err(
            PipelineError::SampleRateMismatch {
                input: input.sample_rate,
                output: output.sample_rate,
            },
        )
    } else {
        Ok(())
    }
}

pub open spec fn config_summary(label: Seq<char>, c: StreamConfigInfo) -> Seq<char> {
    label + spec_decimal(c.channels as nat) + " ch @ "@ + spec_decimal(c.sample_rate as nat)
        + " Hz  "@ + format_name(c.format)
}

/// The lines that name the two devices.
pub open spec fn spec_device_lines(input_name: Seq<char>, output_name: Seq<char>) -> Seq<Seq<char>> {
    seq!["Input:  "@ + input_name, "Output: "@ + output_name]
}

/// The lines that describe the two streams' configurations.
pub open spec fn spec_stream_lines(input: StreamConfigInfo, output: StreamConfigInfo) -> Seq<
    Seq<char>,
> {
    seq![config_summary("Input:  "@, input), config_summary("Output: "@, output)]
}

/// The names of the two devices, printed as soon as they are known.
pub fn device_lines(input_name: &str, output_name: &str) -> (r: Vec<String>)
    ensures
        views(r@) == spec_device_lines(input_name@, output_name@),
{
    let mut lines: Vec<String> = Vec::new();
    let mut a = String::from_str("Input:  ");
    a.append(input_name);
    lines.push(a);
    let mut b = String::from_str("Output: ");
    b.append(output_name);
    lines.push(b);
    assert(views(lines@) =~= spec_device_lines(input_name@, output_name@));
    lines
}

/// What the pipeline prints about its streams before it starts them, and
/// whether it may start them.
#[derive(Debug)]
pub struct Preparation {
    pub lines: Vec<String>,
    pub outcome: Result<(), PipelineError>,
}

fn summary(label: &str, c: &StreamConfigInfo) -> (r: String)
    ensures
        r@ == config_summary(label@, *c),
{
    let mut s = String::from_str(label);
    append_decimal(&mut s, c.channels as u64);
    s.append(" ch @ ");
    append_decimal(&mut s, c.sample_rate as u64);
    s.append(" Hz  ");
    s.append(c.format.name());
    s
}

/// The checks and messages of the pipeline once both devices' default
/// configurations are known: it shows the configurations, then checks them.
pub fn run_passthrough(input: &StreamConfigInfo, output: &StreamConfigInfo) -> (r: Preparation)
    ensures
        views(r.lines@) == spec_stream_lines(*input, *output),
        r.outcome == spec_check_streams(*input, *output),
{
    let mut lines: Vec<String> = Vec::new();
    lines.push(summary("Input:  ", input));
    lines.push(summary("Output: ", output));
    assert(views(lines@) =~= spec_stream_lines(*input, *output));
    Preparation { lines, outcome: check_streams(input, output) }
}

pub open spec fn spec_live_lines() -> Seq<Seq<char>> {
    seq!["Mimik is live."@, "Speak into your microphone."@, "Press Ctrl+C to stop."@]
}

/// The lines printed once audio flows.
pub fn live_lines() -> (r: Vec<String>)
    ensures
        views(r@) == spec_live_lines(),
{
    let mut lines: Vec<String> = Vec::new();
    lines.push(String::from_str("Mimik is live."));
    lines.push(String::from_str("Speak into your microphone."));
    lines.push(String::from_str("Press Ctrl+C to stop."));
    assert(views(lines@) =~= spec_live_lines());
    lines
}

} // verus!
