use mimik::commands::info;
use mimik::commands::install::{self, InstallAction, InstallError, InstallEvent, InstallState};
use mimik::commands::list;
use mimik::commands::live::{self, LiveError, LiveStart};
use mimik::commands::live::EffectKind::{
    Chorus, Compressor, DeEsser, Equalizer, FormantShift, HighPass, Limiter, NoiseGate, PitchShift,
    Reverb, Vibrato,
};
use mimik::commands::remove::{self, RemoveAction, RemoveError, RemoveEvent, RemoveState};
use mimik::commands::status::{self, PidFile};
use mimik::commands::stop::{step, StopAction, StopEvent, StopState, MAX_POLLS, POLL_INTERVAL_MS};
use mimik::voice::VoiceManifest;

fn manifest(id: &str, engine: &str, description: Option<&str>) -> VoiceManifest {
    VoiceManifest {
        id: id.to_string(),
        name: format!("{id} name"),
        version: "0.1.0".to_string(),
        engine: engine.to_string(),
        description: description.map(|d| d.to_string()),
    }
}

#[test]
fn pid_file_with_voice() {
    let r = status::parse_pid_file("4242\nsoft-feminine\n").unwrap();
    assert_eq!(r.pid, 4242);
    assert_eq!(r.voice, "soft-feminine");
}

#[test]
fn pid_file_without_voice_reads_clean() {
    let r = status::parse_pid_file("17").unwrap();
    assert_eq!(r.pid, 17);
    assert_eq!(r.voice, "clean");
    let r = status::parse_pid_file("17\n").unwrap();
    assert_eq!(r.voice, "clean");
}

#[test]
fn pid_file_with_crlf() {
    let r = status::parse_pid_file("99\r\ntom\r\n").unwrap();
    assert_eq!(r.pid, 99);
    assert_eq!(r.voice, "tom");
}

#[test]
fn pid_file_empty_voice_line() {
    let r = status::parse_pid_file("5\n\nrest").unwrap();
    assert_eq!(r.voice, "");
}

#[test]
fn corrupt_pid_files() {
    for c in ["", "\n", "abc\ntom", "-3\ntom", " 12\n", "99999999999\n", "12 \n"] {
        assert!(status::parse_pid_file(c).is_none(), "{c:?}");
    }
}

#[test]
fn pid_file_roundtrip_scenario() {
    for (pid, voice) in [(1u32, "tom"), (u32::MAX, "a b"), (0, "x\r")] {
        let text = format!("{pid}\n{voice}");
        let r = status::parse_pid_file(&text).unwrap();
        assert_eq!((r.pid, r.voice.as_str()), (pid, voice));
    }
}

#[test]
fn status_when_absent() {
    let r = status::run(&status::inspect(None), true);
    assert_eq!(r.lines, vec!["Status: stopped"]);
    assert!(!r.remove_pid_file);
}

#[test]
fn status_when_corrupt() {
    let f = status::inspect(Some("garbage"));
    assert!(matches!(f, PidFile::Corrupt));
    let r = status::run(&f, true);
    assert_eq!(r.lines, vec!["Status: stopped (corrupt PID file)"]);
    assert!(!r.remove_pid_file);
}

#[test]
fn status_when_running() {
    let f = status::inspect(Some("321\nrobot"));
    let r = status::run(&f, true);
    assert_eq!(r.lines, vec!["Status: running", "Voice:  robot", "PID:    321"]);
    assert!(!r.remove_pid_file);
}

#[test]
fn status_when_dead_removes_file() {
    let f = status::inspect(Some("321\nrobot"));
    let r = status::run(&f, false);
    assert_eq!(r.lines, vec!["Status: stopped"]);
    assert!(r.remove_pid_file);
}

fn finish(a: &StopAction) -> (bool, String) {
    match a {
        StopAction::Finish { remove_pid_file, message } => (*remove_pid_file, message.clone()),
        other => panic!("expected a finish, got {other:?}"),
    }
}

#[test]
fn stop_without_pid_file() {
    let (s, a) = step(StopState::Start, StopEvent::Begin);
    assert!(matches!(a, StopAction::CheckFile));
    let (s, a) = step(s, StopEvent::FileExists(false));
    assert!(matches!(s, StopState::Finished));
    assert_eq!(finish(&a), (false, "Mimik is not running.".to_string()));
}

#[test]
fn stop_with_corrupt_pid_file() {
    let (s, _) = step(StopState::Start, StopEvent::Begin);
    let (s, a) = step(s, StopEvent::FileExists(true));
    assert!(matches!(a, StopAction::ReadFile));
    let (_, a) = step(s, StopEvent::FileRead("nonsense".to_string()));
    assert_eq!(finish(&a), (true, "Mimik is not running (corrupt PID file).".to_string()));
}

#[test]
fn stop_with_dead_process() {
    let (s, _) = step(StopState::Start, StopEvent::Begin);
    let (s, _) = step(s, StopEvent::FileExists(true));
    let (s, a) = step(s, StopEvent::FileRead("77\ntom\n".to_string()));
    assert!(matches!(a, StopAction::Probe(77)));
    let (_, a) = step(s, StopEvent::Alive(false));
    assert_eq!(finish(&a), (true, "Mimik is not running.".to_string()));
}

#[test]
fn stop_process_that_exits() {
    let (s, _) = step(StopState::Start, StopEvent::Begin);
    let (s, _) = step(s, StopEvent::FileExists(true));
    let (s, _) = step(s, StopEvent::FileRead("77".to_string()));
    let (s, a) = step(s, StopEvent::Alive(true));
    match &a {
        StopAction::Terminate { pid, notice } => {
            assert_eq!(*pid, 77);
            assert_eq!(notice, "Stopping voice 'clean' (PID 77)...");
        }
        other => panic!("{other:?}"),
    }
    let (s, a) = step(s, StopEvent::TermSent);
    assert!(matches!(a, StopAction::Sleep(100)));
    let (s, a) = step(s, StopEvent::Slept);
    assert!(matches!(a, StopAction::Probe(77)));
    let (s, a) = step(s, StopEvent::Alive(true));
    assert!(matches!(a, StopAction::Sleep(100)));
    let (s, _) = step(s, StopEvent::Slept);
    let (s, a) = step(s, StopEvent::Alive(false));
    assert!(matches!(s, StopState::Finished));
    assert_eq!(finish(&a), (true, "Stopped.".to_string()));
}

#[test]
fn stop_gives_up_after_two_seconds() {
    let (mut s, _) = step(StopState::Start, StopEvent::Begin);
    let mut event = StopEvent::FileExists(true);
    let mut slept = 0u64;
    let mut sleeps = 0u32;
    loop {
        let (ns, a) = step(s, event);
        s = ns;
        event = match a {
            StopAction::ReadFile => StopEvent::FileRead("1000\nrobot".to_string()),
            StopAction::Probe(_) => StopEvent::Alive(true),
            StopAction::Terminate { ref notice, .. } => {
                assert_eq!(notice, "Stopping voice 'robot' (PID 1000)...");
                StopEvent::TermSent
            }
            StopAction::Sleep(ms) => {
                slept += ms;
                sleeps += 1;
                StopEvent::Slept
            }
            StopAction::Finish { remove_pid_file, ref message } => {
                assert!(remove_pid_file);
                assert_eq!(message, "Stopped.");
                break;
            }
            other => panic!("{other:?}"),
        };
    }
    assert_eq!(sleeps, MAX_POLLS);
    assert_eq!(slept, 2000);
    assert_eq!(POLL_INTERVAL_MS, 100);
}

#[test]
fn stop_ignores_events_that_do_not_fit() {
    let (s, a) = step(StopState::Start, StopEvent::Slept);
    assert!(matches!(s, StopState::Start));
    assert!(matches!(a, StopAction::Nothing));
    let (s, a) = step(StopState::Finished, StopEvent::Alive(true));
    assert!(matches!(s, StopState::Finished));
    assert!(matches!(a, StopAction::Nothing));
}

#[test]
fn remove_not_installed() {
    let e = remove::check_installed("ghost", false).unwrap_err();
    assert_eq!(
        e.message(),
        "Voice 'ghost' is not installed.\nRun `mimik list` to see installed voices."
    );
    assert!(remove::check_installed("tom", true).is_ok());
}

#[test]
fn remove_refuses_built_in() {
    let m = manifest("tom", "built-in", None);
    let e = remove::check_removable("tom", &m).unwrap_err();
    assert!(matches!(e, RemoveError::BuiltIn { .. }));
    assert_eq!(e.message(), "'tom' is a built-in voice and cannot be removed.");
    assert!(remove::check_removable("mine", &manifest("mine", "dsp", None)).is_ok());
}

#[test]
fn remove_messages() {
    assert_eq!(RemoveError::ManifestUnreadable.message(), "Could not read manifest for this voice");
    assert_eq!(
        RemoveError::RemoveFailed { dir: "assets/voices/x".to_string() }.message(),
        "Failed to remove assets/voices/x"
    );
    assert_eq!(remove::removed_line(&manifest("my-voice", "dsp", None)), "Removed voice 'my-voice name' (my-voice).");
}

#[test]
fn install_source_checks() {
    let e = install::check_source("./nope", false, false).unwrap_err();
    assert_eq!(e.message(), "Path not found: ./nope");
    let e = install::check_source("./file.zip", true, false).unwrap_err();
    assert_eq!(
        e.message(),
        "Expected a directory containing manifest.toml.\nZip-based .mimikpack archives are not yet supported."
    );
    assert!(install::check_source("./pack", true, true).is_ok());
}

#[test]
fn install_refuses_installed_voice() {
    let m = manifest("my-voice", "dsp", None);
    let e = install::check_destination(&m, true).unwrap_err();
    assert_eq!(
        e.message(),
        "Voice 'my-voice' is already installed.\nRun `mimik remove my-voice` first if you want to replace it."
    );
    assert!(install::check_destination(&m, false).is_ok());
}

#[test]
fn install_messages() {
    assert_eq!(
        InstallError::InvalidManifest.message(),
        "Invalid voice pack: missing or malformed manifest.toml"
    );
    assert_eq!(
        InstallError::CopyFailed { dest: "assets/voices/v".to_string() }.message(),
        "Failed copying files to assets/voices/v"
    );
}

#[test]
fn install_report() {
    let m = manifest("my-voice", "dsp", Some("A custom voice"));
    assert_eq!(
        install::installed_lines(&m),
        vec![
            "Installed:   my-voice name (my-voice)",
            "Engine:      dsp",
            "Version:     0.1.0",
            "Description: A custom voice",
            "",
            "Run `mimik live my-voice` to use it.",
        ]
    );
    let m = manifest("v", "dsp", None);
    assert_eq!(install::installed_lines(&m).len(), 5);
}

#[test]
fn info_unknown_voice() {
    assert_eq!(
        info::run("nobody", None, &vec![]),
        vec!["Unknown voice: 'nobody'", "Run 'mimik list' to see installed voices."]
    );
}

#[test]
fn info_dsp_voice_shows_effects() {
    let m = manifest("soft", "dsp", Some("Soft"));
    assert!(info::shows_effects(&m));
    let effects = vec!["Pitch:       +4 semitones".to_string()];
    assert_eq!(
        info::run("soft", Some(&m), &effects),
        vec![
            "Name:        soft name",
            "ID:          soft",
            "Engine:      dsp",
            "Version:     0.1.0",
            "Description: Soft",
            "Pitch:       +4 semitones",
            "Status:      installed",
        ]
    );
}

#[test]
fn info_other_engine_hides_effects() {
    let m = manifest("tom", "built-in", None);
    assert!(!info::shows_effects(&m));
    let effects = vec!["Pitch:       +7 semitones".to_string()];
    assert_eq!(
        info::run("tom", Some(&m), &effects),
        vec![
            "Name:        tom name",
            "ID:          tom",
            "Engine:      built-in",
            "Version:     0.1.0",
            "Status:      installed",
        ]
    );
}

#[test]
fn live_without_voice_passes_through() {
    assert!(matches!(live::run(&None), LiveStart::Passthrough));
}

#[test]
fn live_with_voice_runs_its_chain() {
    match live::run(&Some("robot".to_string())) {
        LiveStart::Voice { voice } => assert_eq!(voice, "robot"),
        other => panic!("{other:?}"),
    }
}

#[test]
fn live_plan_errors() {
    let e = live::plan("ghost", None, None).unwrap_err();
    assert!(matches!(e, LiveError::UnknownVoice { .. }));
    assert_eq!(e.message(), "Unknown voice: 'ghost'\nRun 'mimik list' to see installed voices.");
    let m = manifest("soft", "dsp", None);
    let e = live::plan("soft", Some(&m), None).unwrap_err();
    assert_eq!(e.message(), "Voice 'soft' has no valid preset.toml");
}

#[test]
fn chain_order_follows_pitch_shift() {
    // The README's example preset.
    let kinds = vec![NoiseGate, HighPass, PitchShift, FormantShift, Reverb, Limiter];
    let m = manifest("my-voice", "dsp", None);
    let p = live::plan("my-voice", Some(&m), Some(&kinds)).unwrap();
    assert_eq!(p.pre, vec![0, 1]);
    assert_eq!(p.pitch, Some(2));
    assert_eq!(p.formant, Some(3));
    assert_eq!(p.post, vec![4, 5]);
}

#[test]
fn formant_goes_with_the_shifter_wherever_listed() {
    let p = live::arrange(&vec![FormantShift, Compressor, PitchShift, Equalizer]);
    assert_eq!(p.pre, vec![1]);
    assert_eq!(p.pitch, Some(2));
    assert_eq!(p.formant, Some(0));
    assert_eq!(p.post, vec![3]);
}

#[test]
fn chain_without_pitch_shift() {
    let p = live::arrange(&vec![NoiseGate, FormantShift, Limiter]);
    assert_eq!(p.pre, vec![0, 2]);
    assert_eq!(p.pitch, None);
    assert_eq!(p.formant, Some(1));
    assert!(p.post.is_empty());
    let p = live::arrange(&vec![]);
    assert!(p.pre.is_empty() && p.post.is_empty() && p.pitch.is_none() && p.formant.is_none());
}

#[test]
fn chain_with_repeated_shifts() {
    let p = live::arrange(&vec![Chorus, PitchShift, Vibrato, PitchShift, DeEsser, FormantShift, FormantShift]);
    assert_eq!(p.pre, vec![0]);
    assert_eq!(p.pitch, Some(1));
    assert_eq!(p.formant, Some(5));
    assert_eq!(p.post, vec![2, 4]);
}

#[test]
fn pid_file_contents_reads_back() {
    let text = status::pid_file_contents(4242, "soft-feminine");
    assert_eq!(text, "4242\nsoft-feminine");
    let r = status::parse_pid_file(&text).unwrap();
    assert_eq!((r.pid, r.voice.as_str()), (4242, "soft-feminine"));
}

fn run_install(path: &str, source: (bool, bool), m: Option<VoiceManifest>, dest_exists: bool, copy_ok: bool) -> (Vec<String>, InstallAction) {
    let mut trace = Vec::new();
    let mut state = InstallState::Start;
    let mut event = InstallEvent::Begin { path: path.to_string() };
    let mut m = Some(m);
    loop {
        let (ns, a) = install::install_step(state, event);
        state = ns;
        event = match &a {
            InstallAction::CheckSource(p) => { trace.push(format!("check {p}")); InstallEvent::SourceChecked { exists: source.0, is_dir: source.1 } }
            InstallAction::LoadManifest => { trace.push("load".to_string()); InstallEvent::ManifestLoaded(m.take().unwrap()) }
            InstallAction::CheckDestination { id } => { trace.push(format!("dest {id}")); InstallEvent::DestinationChecked { dest: format!("assets/voices/{id}"), exists: dest_exists } }
            InstallAction::Copy { dest } => { trace.push(format!("copy {dest}")); InstallEvent::Copied(copy_ok) }
            _ => return (trace, a),
        };
    }
}

#[test]
fn install_machine_success() {
    let (trace, a) = run_install("./pack", (true, true), Some(manifest("v", "dsp", None)), false, true);
    assert_eq!(trace, vec!["check ./pack", "load", "dest v", "copy assets/voices/v"]);
    match a {
        InstallAction::Report(lines) => assert_eq!(lines, install::installed_lines(&manifest("v", "dsp", None))),
        other => panic!("{other:?}"),
    }
}

#[test]
fn install_machine_refusals_never_copy() {
    let fail = |src, m, dest| {
        let (trace, a) = run_install("./pack", src, m, dest, true);
        assert!(!trace.iter().any(|t| t.starts_with("copy")));
        match a { InstallAction::Fail(e) => e.message(), other => panic!("{other:?}") }
    };
    assert_eq!(fail((false, false), None, false), "Path not found: ./pack");
    assert!(fail((true, false), None, false).starts_with("Expected a directory"));
    assert_eq!(fail((true, true), None, false), "Invalid voice pack: missing or malformed manifest.toml");
    assert!(fail((true, true), Some(manifest("v", "dsp", None)), true).starts_with("Voice 'v' is already installed."));
    let (_, a) = run_install("./pack", (true, true), Some(manifest("v", "dsp", None)), false, false);
    match a { InstallAction::Fail(e) => assert_eq!(e.message(), "Failed copying files to assets/voices/v"), other => panic!("{other:?}") }
}

fn run_remove(voice: &str, exists: bool, m: Option<VoiceManifest>, delete_ok: bool) -> (Vec<String>, RemoveAction) {
    let mut trace = Vec::new();
    let mut state = RemoveState::Start;
    let mut event = RemoveEvent::Begin { voice: voice.to_string() };
    let mut m = Some(m);
    loop {
        let (ns, a) = remove::remove_step(state, event);
        state = ns;
        event = match &a {
            RemoveAction::CheckInstalled(v) => { trace.push(format!("check {v}")); RemoveEvent::InstallChecked { dir: format!("assets/voices/{v}"), exists } }
            RemoveAction::LoadManifest => { trace.push("load".to_string()); RemoveEvent::ManifestLoaded(m.take().unwrap()) }
            RemoveAction::Delete { dir } => { trace.push(format!("delete {dir}")); RemoveEvent::Deleted(delete_ok) }
            _ => return (trace, a),
        };
    }
}

#[test]
fn remove_machine_success() {
    let (trace, a) = run_remove("mine", true, Some(manifest("mine", "dsp", None)), true);
    assert_eq!(trace, vec!["check mine", "load", "delete assets/voices/mine"]);
    match a { RemoveAction::Report(l) => assert_eq!(l, "Removed voice 'mine name' (mine)."), other => panic!("{other:?}") }
}

#[test]
fn remove_machine_never_deletes_built_in() {
    let (trace, a) = run_remove("tom", true, Some(manifest("tom", "built-in", None)), true);
    assert_eq!(trace, vec!["check tom", "load"]);
    match a { RemoveAction::Fail(e) => assert_eq!(e.message(), "'tom' is a built-in voice and cannot be removed."), other => panic!("{other:?}") }
    let (trace, a) = run_remove("ghost", false, None, true);
    assert_eq!(trace, vec!["check ghost"]);
    assert!(matches!(a, RemoveAction::Fail(RemoveError::NotInstalled { .. })));
    let (_, a) = run_remove("x", true, None, true);
    assert!(matches!(a, RemoveAction::Fail(RemoveError::ManifestUnreadable)));
    let (_, a) = run_remove("x", true, Some(manifest("x", "dsp", None)), false);
    match a { RemoveAction::Fail(e) => assert_eq!(e.message(), "Failed to remove assets/voices/x"), other => panic!("{other:?}") }
}

#[test]
fn list_sorts_by_name() {
    let names: Vec<Vec<u8>> = ["tom", "Zed", "alpha", "a", "soft-feminine", "ab"]
        .iter()
        .map(|s| s.as_bytes().to_vec())
        .collect();
    let sorted = list::sort_voice_dirs(names.clone());
    let mut expected = names;
    expected.sort();
    assert_eq!(sorted, expected);
    assert!(list::sort_voice_dirs(vec![]).is_empty());
}

#[test]
fn list_name_order() {
    assert!(list::name_le(&b"a".to_vec(), &b"ab".to_vec()));
    assert!(!list::name_le(&b"b".to_vec(), &b"ab".to_vec()));
    assert!(list::name_le(&b"".to_vec(), &b"".to_vec()));
    assert!(list::name_le(&b"Z".to_vec(), &b"a".to_vec()));
}

#[test]
fn list_rows() {
    assert_eq!(list::format_row("tom", "built-in", "1.0.0"), format!("{:<12} {:<12} {}", "tom", "built-in", "1.0.0"));
    assert_eq!(
        list::format_row("a-very-long-id", "dsp", "2"),
        "a-very-long-id dsp          2"
    );
}

#[test]
fn list_output_skips_unreadable() {
    let ms = vec![Some(manifest("alpha", "dsp", None)), None, Some(manifest("tom", "built-in", None))];
    assert_eq!(
        list::run(&ms),
        vec![
            "Installed voices".to_string(),
            "".to_string(),
            format!("{:<12} {:<12} {}", "NAME", "ENGINE", "VERSION"),
            format!("{:<12} {:<12} {}", "alpha", "dsp", "0.1.0"),
            format!("{:<12} {:<12} {}", "tom", "built-in", "0.1.0"),
        ]
    );
}

#[test]
fn manifest_engine_predicates() {
    assert!(manifest("x", "built-in", None).is_built_in());
    assert!(!manifest("x", "dsp", None).is_built_in());
    assert!(manifest("x", "dsp", None).is_dsp());
    assert!(!manifest("x", "DSP", None).is_dsp());
}

#[test]
fn stop_and_status_agree() {
    for content in ["12\ntom", "12", "junk", ""] {
        for alive in [true, false] {
            let report = status::run(&status::inspect(Some(content)), alive);
            let running = report.lines[0] == "Status: running";
            let (mid, _) = step(StopState::ReadingFile, StopEvent::FileRead(content.to_string()));
            let (_, a) = step(mid, StopEvent::Alive(alive));
            assert_eq!(matches!(a, StopAction::Terminate { .. }), running, "{content:?} {alive}");
        }
    }
}
