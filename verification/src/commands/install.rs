//! `mimik install <path>`: copying a voice pack into the voices directory
//! after its manifest was read, as a state machine. The caller performs each
//! action (file access) and hands the outcome back as the next event.

use vstd::prelude::*;
use crate::text::views;
use crate::voice::VoiceManifest;

verus! {

/// Why a voice pack was not installed.
#[derive(Debug, Clone)]
pub enum InstallError {
    /// Nothing exists at the given path.
    PathNotFound { path: String },
    /// The path is not a directory.
    NotADirectory,
    /// The pack's manifest is missing or malformed.
    InvalidManifest,
    /// A voice with the pack's id is installed already.
    AlreadyInstalled { id: String },
    /// Copying the pack failed.
    CopyFailed { dest: String },
}

pub open spec fn spec_install_message(e: InstallError) -> Seq<char> {
    match e {
        InstallError::PathNotFound { path } => "Path not found: "@ + path@,
        InstallError::NotADirectory => "Expected a directory containing manifest.toml.\nZip-based .mimikpack archives are not yet supported."@,
        InstallError::InvalidManifest => "Invalid voice pack: missing or malformed manifest.toml"@,
        InstallError::AlreadyInstalled { id } => "Voice '"@ + id@
            + "' is already installed.\nRun `mimik remove "@ + id@
            + "` first if you want to replace it."@,
        InstallError::CopyFailed { dest } => "Failed copying files to "@ + dest@,
    }
}

impl InstallError {
    /// The text that reports the error.
    pub fn message(&self) -> (r: String)
        ensures
            r@ == spec_install_message(*self),
    {
        match self {
            InstallError::PathNotFound { path } => {
                let mut s = String::from_str("Path not found: ");
                s.append(path.as_str());
                s
            },
            InstallError::NotADirectory => String::from_str(
                "Expected a directory containing manifest.toml.\nZip-based .mimikpack archives are not yet supported.",
            ),
            InstallError::InvalidManifest => String::from_str(
                "Invalid voice pack: missing or malformed manifest.toml",
            ),
            InstallError::AlreadyInstalled { id } => {
                let mut s = String::from_str("Voice '");
                s.append(id.as_str());
                s.append("' is already installed.\nRun `mimik remove ");
                s.append(id.as_str());
                s.append("` first if you want to replace it.");
                s
            },
            InstallError::CopyFailed { dest } => {
                let mut s = String::from_str("Failed copying files to ");
                s.append(dest.as_str());
                s
            },
        }
    }
}

/// The first check: the path must exist and be a directory.
pub fn check_source(path: &str, exists: bool, is_dir: bool) -> (r: Result<(), InstallError>)
    ensures
        !exists ==> (r matches Err(InstallError::PathNotFound { path: p }) && p@ == path@),
        exists && !is_dir ==> r matches Err(InstallError::NotADirectory),
        exists && is_dir ==> r is Ok,
{
    if !exists {
        Err(InstallError::PathNotFound { path: String::from_str(path) })
    } else if !is_dir {
        Err(InstallError::NotADirectory)
    } else {
        Ok(())
    }
}

/// The check after the manifest was read: no voice with its id may be
/// installed already (`installed`: the destination directory exists).
pub fn check_destination(manifest: &VoiceManifest, installed: bool) -> (r: Result<(), InstallError>)
    ensures
        !installed ==> r is Ok,
        installed ==> (r matches Err(InstallError::AlreadyInstalled { id }) && id@ == manifest.id@),
{
    if installed {
        Err(InstallError::AlreadyInstalled { id: manifest.id.clone() })
    } else {
        Ok(())
    }
}

pub open spec fn spec_installed_lines(m: VoiceManifest) -> Seq<Seq<char>> {
    seq![
        "Installed:   "@ + m.name@ + " ("@ + m.id@ + ")"@,
        "Engine:      "@ + m.engine@,
        "Version:     "@ + m.version@,
    ] + match m.description {
        Some(d) => seq!["Description: "@ + d@],
        None => Seq::<Seq<char>>::empty(),
    } + seq![Seq::<char>::empty(), "Run `mimik live "@ + m.id@ + "` to use it."@]
}

/// The lines printed after the pack was copied.
pub fn installed_lines(m: &VoiceManifest) -> (r: Vec<String>)
    ensures
        views(r@) == spec_installed_lines(*m),
{
    let mut lines: Vec<String> = Vec::new();
    let mut a = String::from_str("Installed:   ");
    a.append(m.name.as_str());
    a.append(" (");
    a.append(m.id.as_str());
    a.append(")");
    lines.push(a);
    let mut b = String::from_str("Engine:      ");
    b.append(m.engine.as_str());
    lines.push(b);
    let mut c = String::from_str("Version:     ");
    c.append(m.version.as_str());
    lines.push(c);
    match &m.description {
        Some(d) => {
            let mut e = String::from_str("Description: ");
            e.append(d.as_str());
            lines.push(e);
        },
        None => {},
    }
    lines.push(String::new());
    let mut f = String::from_str("Run `mimik live ");
    f.append(m.id.as_str());
    f.append("` to use it.");
    lines.push(f);
    assert(views(lines@) =~= spec_installed_lines(*m));
    lines
}

/// Where the installation stands.
#[derive(Debug)]
pub enum InstallState {
    /// Nothing done yet.
    Start,
    /// Waiting to learn what the pack's path is.
    CheckingSource { path: String },
    /// Waiting for the pack's manifest.
    LoadingManifest,
    /// Waiting to learn whether a voice with the manifest's id is installed.
    CheckingDestination { manifest: VoiceManifest },
    /// Waiting for the pack to be copied to `dest`.
    Copying { manifest: VoiceManifest, dest: String },
    /// Done.
    Finished,
}

/// The outcome of the last action.
#[derive(Debug)]
pub enum InstallEvent {
    /// The installation of the pack at `path` begins.
    Begin { path: String },
    /// Whether the path exists and is a directory.
    SourceChecked { exists: bool, is_dir: bool },
    /// The pack's manifest (`None`: missing or malformed).
    ManifestLoaded(Option<VoiceManifest>),
    /// Whether the voice's destination directory `dest` exists.
    DestinationChecked { dest: String, exists: bool },
    /// Whether copying succeeded.
    Copied(bool),
}

/// What the caller does next.
#[derive(Debug)]
pub enum InstallAction {
    /// Check whether this path exists and is a directory.
    CheckSource(String),
    /// Read the pack's manifest.
    LoadManifest,
    /// Check whether the voice with this id is installed.
    CheckDestination { id: String },
    /// Copy the pack to `dest`.
    Copy { dest: String },
    /// Stop with this error.
    Fail(InstallError),
    /// Print these lines and stop.
    Report(Vec<String>),
    /// The event does not fit the state: nothing to do.
    Nothing,
}

/// One step of the installation: from state `s` and event `e` to state `ns`
/// and action `a`.
pub open spec fn install_step_spec(
    s: InstallState,
    e: InstallEvent,
    ns: InstallState,
    a: InstallAction,
) -> bool {
    match (s, e) {
        (InstallState::Start, InstallEvent::Begin { path }) => {
            &&& ns matches InstallState::CheckingSource { path: p }
            &&& p@ == path@
            &&& a matches InstallAction::CheckSource(q)
            &&& q@ == path@
        },
        (InstallState::CheckingSource { path }, InstallEvent::SourceChecked { exists, is_dir }) => if !exists {
            &&& ns is Finished
            &&& a matches InstallAction::Fail(InstallError::PathNotFound { path: p })
            &&& p@ == path@
        } else if !is_dir {
            ns is Finished && a matches InstallAction::Fail(InstallError::NotADirectory)
        } else {
            ns is LoadingManifest && a is LoadManifest
        },
        (InstallState::LoadingManifest, InstallEvent::ManifestLoaded(m)) => match m {
            None => ns is Finished && a matches InstallAction::Fail(InstallError::InvalidManifest),
            Some(m) => {
                &&& ns == InstallState::CheckingDestination { manifest: m }
                &&& a matches InstallAction::CheckDestination { id }
                &&& id@ == m.id@
            },
        },
        (
            InstallState::CheckingDestination { manifest },
            InstallEvent::DestinationChecked { dest, exists },
        ) => if exists {
            &&& ns is Finished
            &&& a matches InstallAction::Fail(InstallError::AlreadyInstalled { id })
            &&& id@ == manifest.id@
        } else {
            &&& ns matches InstallState::Copying { manifest: m, dest: d }
            &&& m == manifest
            &&& d@ == dest@
            &&& a matches InstallAction::Copy { dest: d2 }
            &&& d2@ == dest@
        },
        (InstallState::Copying { manifest, dest }, InstallEvent::Copied(ok)) => if ok {
            &&& ns is Finished
            &&& a matches InstallAction::Report(lines)
            &&& views(lines@) == spec_installed_lines(manifest)
        } else {
            &&& ns is Finished
            &&& a matches InstallAction::Fail(InstallError::CopyFailed { dest: d })
            &&& d@ == dest@
        },
        _ => ns == s && a is Nothing,
    }
}

/// One step of the installation.
pub fn install_step(s: InstallState, e: InstallEvent) -> (r: (InstallState, InstallAction))
    ensures
        install_step_spec(s, e, r.0, r.1),
{
    match (s, e) {
        (InstallState::Start, InstallEvent::Begin { path }) => {
            let q = path.clone();
            (InstallState::CheckingSource { path }, InstallAction::CheckSource(q))
        },
        (InstallState::CheckingSource { path }, InstallEvent::SourceChecked { exists, is_dir }) => {
            match check_source(path.as_str(), exists, is_dir) {
                Ok(()) => (InstallState::LoadingManifest, InstallAction::LoadManifest),
                Err(err) => (InstallState::Finished, InstallAction::Fail(err)),
            }
        },
        (InstallState::LoadingManifest, InstallEvent::ManifestLoaded(m)) => match m {
            None => (InstallState::Finished, InstallAction::Fail(InstallError::InvalidManifest)),
            Some(m) => {
                let id = m.id.clone();
                (InstallState::CheckingDestination { manifest: m }, InstallAction::CheckDestination { id })
            },
        },
        (
            InstallState::CheckingDestination { manifest },
            InstallEvent::DestinationChecked { dest, exists },
        ) => match check_destination(&manifest, exists) {
            Err(err) => (InstallState::Finished, InstallAction::Fail(err)),
            Ok(()) => {
                let d = dest.clone();
                (InstallState::Copying { manifest, dest }, InstallAction::Copy { dest: d })
            },
        },
        (InstallState::Copying { manifest, dest }, InstallEvent::Copied(ok)) => {
            if ok {
                (InstallState::Finished, InstallAction::Report(installed_lines(&manifest)))
            } else {
                (InstallState::Finished, InstallAction::Fail(InstallError::CopyFailed { dest }))
            }
        },
        (s, _) => (s, InstallAction::Nothing),
    }
}

/// The source check looks only at what the path is, never at how it is
/// written: a directory always goes on to the manifest, a missing path is
/// reported by its text, and anything else is refused as no directory.
pub proof fn lemma_install_source_decision(
    path: String,
    exists: bool,
    is_dir: bool,
    ns: InstallState,
    a: InstallAction,
)
    requires
        install_step_spec(
            InstallState::CheckingSource { path },
            InstallEvent::SourceChecked { exists, is_dir },
            ns,
            a,
        ),
    ensures
        exists && is_dir ==> ns is LoadingManifest && a is LoadManifest,
        !exists ==> ns is Finished && (a matches InstallAction::Fail(
            InstallError::PathNotFound { path: p },
        ) && p@ == path@),
        exists && !is_dir ==> ns is Finished && a matches InstallAction::Fail(
            InstallError::NotADirectory,
        ),
{
}

/// Once the manifest is read, the pack is copied exactly when no voice with
/// its id is installed, to the destination that was checked.
pub proof fn lemma_install_destination_decision(
    manifest: VoiceManifest,
    dest: String,
    exists: bool,
    ns: InstallState,
    a: InstallAction,
)
    requires
        install_step_spec(
            InstallState::CheckingDestination { manifest },
            InstallEvent::DestinationChecked { dest, exists },
            ns,
            a,
        ),
    ensures
        (a is Copy) <==> !exists,
        a matches InstallAction::Copy { dest: d } ==> d@ == dest@,
        exists ==> (a matches InstallAction::Fail(InstallError::AlreadyInstalled { id })
            && id@ == manifest.id@),
{
}

/// `states`, `events` and `actions` are a run of the installation.
pub open spec fn is_install_run(
    states: Seq<InstallState>,
    events: Seq<InstallEvent>,
    actions: Seq<InstallAction>,
) -> bool {
    &&& states.len() == events.len() + 1
    &&& actions.len() == events.len()
    &&& forall|i: int|
        0 <= i < events.len() ==> #[trigger] install_step_spec(
            states[i],
            events[i],
            states[i + 1],
            actions[i],
        )
}

/// The source path was found to be a directory at some step before `m`.
pub open spec fn source_accepted(events: Seq<InstallEvent>, m: int) -> bool {
    exists|i: int|
        0 <= i < m && #[trigger] events[i] == (InstallEvent::SourceChecked { exists: true, is_dir: true })
}

/// The manifest `manifest` was read at some step before `m`.
pub open spec fn manifest_read(events: Seq<InstallEvent>, m: int, manifest: VoiceManifest) -> bool {
    exists|i: int| 0 <= i < m && #[trigger] events[i] == InstallEvent::ManifestLoaded(Some(manifest))
}

proof fn lemma_install_states_after_checks(
    states: Seq<InstallState>,
    events: Seq<InstallEvent>,
    actions: Seq<InstallAction>,
    m: int,
)
    requires
        is_install_run(states, events, actions),
        states[0] is Start,
        0 <= m < states.len(),
    ensures
        states[m] is LoadingManifest ==> source_accepted(events, m),
        states[m] matches InstallState::CheckingDestination { manifest } ==> source_accepted(
            events,
            m,
        ) && manifest_read(events, m, manifest),
        states[m] matches InstallState::Copying { manifest, .. } ==> source_accepted(events, m)
            && manifest_read(events, m, manifest),
    decreases m,
{
    if m > 0 {
        let k = m - 1;
        assert(install_step_spec(states[k], events[k], states[k + 1], actions[k]));
        lemma_install_states_after_checks(states, events, actions, k);
        if source_accepted(events, k) {
            let i = choose|i: int|
                0 <= i < k && #[trigger] events[i] == (InstallEvent::SourceChecked {
                    exists: true,
                    is_dir: true,
                });
            assert(0 <= i < m);
        }
        match states[m] {
            InstallState::CheckingDestination { manifest } => {
                if manifest_read(events, k, manifest) {
                    let i = choose|i: int|
                        0 <= i < k && #[trigger] events[i] == InstallEvent::ManifestLoaded(
                            Some(manifest),
                        );
                    assert(0 <= i < m);
                } else {
                    assert(events[k] == InstallEvent::ManifestLoaded(Some(manifest)));
                }
            },
            InstallState::Copying { manifest, .. } => {
                let i = choose|i: int|
                    0 <= i < k && #[trigger] events[i] == InstallEvent::ManifestLoaded(
                        Some(manifest),
                    );
                assert(0 <= i < m);
            },
            _ => {},
        }
    }
}

/// An installation copies a pack only after its path was found to be a
/// directory, its manifest was read, and no voice with the manifest's id
/// was found installed: an installed voice is never overwritten.
pub proof fn lemma_install_copies_only_after_checks(
    states: Seq<InstallState>,
    events: Seq<InstallEvent>,
    actions: Seq<InstallAction>,
    k: int,
)
    requires
        is_install_run(states, events, actions),
        states[0] is Start,
        0 <= k < actions.len(),
        actions[k] is Copy,
    ensures
        source_accepted(events, k),
        states[k] matches InstallState::CheckingDestination { manifest } && manifest_read(
            events,
            k,
            manifest,
        ),
        events[k] matches InstallEvent::DestinationChecked { exists, .. } && !exists,
{
    assert(install_step_spec(states[k], events[k], states[k + 1], actions[k]));
    lemma_install_states_after_checks(states, events, actions, k);
}

} // verus!
