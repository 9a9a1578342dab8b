use mimik::audio::devices::{
    DeviceEntry, DeviceKind, DeviceListing, HostReport, SampleFormat, StreamConfigInfo,
    print_devices, print_input_devices, print_output_devices,
};
use mimik::audio::pipeline::{
    check_streams, device_lines, live_lines, run_passthrough, select_output_device, PipelineError,
};
use mimik::commands::devices;

fn cfg(channels: u16, sample_rate: u32, format: SampleFormat) -> StreamConfigInfo {
    StreamConfigInfo { channels, sample_rate, format }
}

fn entry(name: Option<&str>, config: Result<StreamConfigInfo, &str>) -> DeviceEntry {
    DeviceEntry { name: name.map(|s| s.to_string()), config: config.map_err(|e| e.to_string()) }
}

fn host() -> HostReport {
    HostReport {
        host_name: "CoreAudio".to_string(),
        input: DeviceListing {
            default_name: Some("MacBook Pro Microphone".to_string()),
            devices: Ok(vec![
                entry(Some("MacBook Pro Microphone"), Ok(cfg(1, 48000, SampleFormat::F32))),
                entry(None, Err("device busy")),
            ]),
        },
        output: DeviceListing {
            default_name: None,
            devices: Ok(vec![]),
        },
    }
}

#[test]
fn device_report_lines() {
    let r = print_devices(&host());
    assert!(r.outcome.is_ok());
    assert_eq!(
        r.lines,
        vec![
            "Audio host: CoreAudio",
            "",
            "Input devices",
            "  0: MacBook Pro Microphone [default]",
            "     channels: 1, sample rate: 48000 Hz, format: F32",
            "  1: Unknown input device",
            "     configuration unavailable: device busy",
            "",
            "Output devices",
            "  No output devices found",
        ]
    );
}

#[test]
fn devices_command_is_the_report() {
    let r = devices::run(&host());
    assert_eq!(r.lines, print_devices(&host()).lines);
}

#[test]
fn device_report_stops_at_input_failure() {
    let mut h = host();
    h.input.devices = Err("no backend".to_string());
    let r = print_devices(&h);
    assert_eq!(r.lines, vec!["Audio host: CoreAudio", "", "Input devices"]);
    let e = r.outcome.unwrap_err();
    assert_eq!(e.kind, DeviceKind::Input);
    assert_eq!(e.cause, "no backend");
    assert_eq!(e.message(), "Failed to enumerate input devices");
}

#[test]
fn device_report_output_failure() {
    let mut h = host();
    h.output.devices = Err("gone".to_string());
    let r = print_devices(&h);
    assert_eq!(r.lines.last().unwrap(), "Output devices");
    let e = r.outcome.unwrap_err();
    assert_eq!(e.kind, DeviceKind::Output);
    assert_eq!(e.message(), "Failed to enumerate output devices");
}

#[test]
fn output_listing_marks_default_and_unknown() {
    let l = DeviceListing {
        default_name: Some("Unknown output device".to_string()),
        devices: Ok(vec![
            entry(Some("BlackHole 2ch"), Ok(cfg(2, 44100, SampleFormat::I16))),
            entry(None, Ok(cfg(8, 96000, SampleFormat::DsdU32))),
        ]),
    };
    let r = print_output_devices(&l);
    assert_eq!(
        r.lines,
        vec![
            "Output devices",
            "  0: BlackHole 2ch",
            "     channels: 2, sample rate: 44100 Hz, format: I16",
            "  1: Unknown output device [default]",
            "     channels: 8, sample rate: 96000 Hz, format: DsdU32",
        ]
    );
    let r = print_input_devices(&DeviceListing { default_name: None, devices: Ok(vec![]) });
    assert_eq!(r.lines, vec!["Input devices", "  No input devices found"]);
}

#[test]
fn format_names() {
    assert_eq!(SampleFormat::U24.name(), "U24");
    assert_eq!(SampleFormat::F64.name(), "F64");
    assert_eq!(SampleFormat::DsdU8.name(), "DsdU8");
}

#[test]
fn virtual_device_selection() {
    let names = vec![
        Some("MacBook Pro Speakers".to_string()),
        None,
        Some("BlackHole 16ch".to_string()),
        Some("Multi: BlackHole 2ch".to_string()),
        Some("BlackHole 2ch".to_string()),
    ];
    assert_eq!(select_output_device(&names), Some(3));
    assert_eq!(select_output_device(&names[..3].to_vec()), None);
    assert_eq!(select_output_device(&vec![]), None);
}

#[test]
fn stream_checks() {
    let f = cfg(2, 48000, SampleFormat::F32);
    assert_eq!(check_streams(&f, &f), Ok(()));
    assert_eq!(
        check_streams(&cfg(1, 48000, SampleFormat::I16), &cfg(2, 44100, SampleFormat::U8)),
        Err(PipelineError::UnsupportedInputFormat(SampleFormat::I16))
    );
    assert_eq!(
        check_streams(&f, &cfg(2, 44100, SampleFormat::U8)),
        Err(PipelineError::UnsupportedOutputFormat(SampleFormat::U8))
    );
    assert_eq!(
        check_streams(&f, &cfg(2, 44100, SampleFormat::F32)),
        Err(PipelineError::SampleRateMismatch { input: 48000, output: 44100 })
    );
}

#[test]
fn pipeline_messages() {
    assert_eq!(PipelineError::NoInputDevice.message(), "No default input microphone found");
    assert_eq!(
        PipelineError::VirtualDeviceNotFound.message(),
        "BlackHole 2ch was not found. Install it from existential.audio/blackhole"
    );
    assert_eq!(
        PipelineError::UnsupportedInputFormat(SampleFormat::I24).message(),
        "Input format I24 is not supported yet"
    );
    assert_eq!(
        PipelineError::UnsupportedOutputFormat(SampleFormat::F64).message(),
        "Output format F64 is not supported yet"
    );
    assert_eq!(
        PipelineError::SampleRateMismatch { input: 48000, output: 44100 }.message(),
        "Sample rate mismatch: input 48000 Hz vs output 44100 Hz"
    );
}

#[test]
fn passthrough_preparation() {
    assert_eq!(
        device_lines("MacBook Pro Microphone", "BlackHole 2ch"),
        vec!["Input:  MacBook Pro Microphone", "Output: BlackHole 2ch"]
    );
    let p = run_passthrough(&cfg(1, 48000, SampleFormat::F32), &cfg(2, 48000, SampleFormat::F32));
    assert_eq!(p.lines, vec!["Input:  1 ch @ 48000 Hz  F32", "Output: 2 ch @ 48000 Hz  F32"]);
    assert_eq!(p.outcome, Ok(()));
    let p = run_passthrough(&cfg(1, 48000, SampleFormat::I16), &cfg(2, 48000, SampleFormat::F32));
    assert_eq!(p.lines, vec!["Input:  1 ch @ 48000 Hz  I16", "Output: 2 ch @ 48000 Hz  F32"]);
    assert_eq!(p.outcome, Err(PipelineError::UnsupportedInputFormat(SampleFormat::I16)));
    assert_eq!(live_lines(), vec!["Mimik is live.", "Speak into your microphone.", "Press Ctrl+C to stop."]);
}
