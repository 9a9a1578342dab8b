//! `mimik remove <voice>`: deleting an installed voice, as a state machine.
//! The caller performs each action (file access) and hands the outcome back
//! as the next event. Built-in voices stay.

use vstd::prelude::*;
use crate::voice::VoiceManifest;
use crate::text::views;

verus! {

/// Why a voice was not removed.
#[derive(Debug, Clone)]
pub enum RemoveError {
    /// No voice of this name is installed.
    NotInstalled { voice: String },
    /// The voice's manifest could not be read.
    ManifestUnreadable,
    /// The voice ships with mimik.
    BuiltIn { voice: String },
    /// Deleting the voice's directory failed.
    RemoveFailed { dir: String },
}

pub open spec fn spec_remove_message(e: RemoveError) -> Seq<char> {
    match e {
        RemoveError::NotInstalled { voice } => "Voice '"@ + voice@
            + "' is not installed.\nRun `mimik list` to see installed voices."@,
        RemoveError::ManifestUnreadable => "Could not read manifest for this voice"@,
        RemoveError::BuiltIn { voice } => "'"@ + voice@
            + "' is a built-in voice and cannot be removed."@,
        RemoveError::RemoveFailed { dir } => "Failed to remove "@ + dir@,
    }
}

impl RemoveError {
    /// The text that reports the error.
    pub fn message(&self) -> (r: String)
        ensures
            r@ == spec_remove_message(*self),
    {
        match self {
            RemoveError::NotInstalled { voice } => {
                let mut s = String::from_str("Voice '");
                s.append(voice.as_str());
                s.append("' is not installed.\nRun `mimik list` to see installed voices.");
                s
            },
            RemoveError::ManifestUnreadable => String::from_str(
                "Could not read manifest for this voice",
            ),
            RemoveError::BuiltIn { voice } => {
                let mut s = String::from_str("'");
                s.append(voice.as_str());
                s.append("' is a built-in voice and cannot be removed.");
                s
            },
            RemoveError::RemoveFailed { dir } => {
                let mut s = String::from_str("Failed to remove ");
                s.append(dir.as_str());
                s
            },
        }
    }
}

/// The first check: the voice's directory must exist.
pub fn check_installed(voice: &str, installed: bool) -> (r: Result<(), RemoveError>)
    ensures
        installed ==> r is Ok,
        !installed ==> (r matches Err(RemoveError::NotInstalled { voice: v }) && v@ == voice@),
{
    if installed {
        Ok(())
    } else {
        Err(RemoveError::NotInstalled { voice: String::from_str(voice) })
    }
}

/// The second check: a built-in voice is never removed.
pub fn check_removable(voice: &str, manifest: &VoiceManifest) -> (r: Result<(), RemoveError>)
    ensures
        !manifest.spec_is_built_in() ==> r is Ok,
        manifest.spec_is_built_in() ==> (r matches Err(RemoveError::BuiltIn { voice: v })
            && v@ == voice@),
{
    if manifest.is_built_in() {
        Err(RemoveError::BuiltIn { voice: String::from_str(voice) })
    } else {
        Ok(())
    }
}

pub open spec fn spec_removed_line(m: VoiceManifest) -> Seq<char> {
    "Removed voice '"@ + m.name@ + "' ("@ + m.id@ + ")."@
}

/// The line printed once the voice is gone.
pub fn removed_line(m: &VoiceManifest) -> (r: String)
    ensures
        r@ == spec_removed_line(*m),
{
    let mut s = String::from_str("Removed voice '");
    s.append(m.name.as_str());
    s.append("' (");
    s.append(m.id.as_str());
    s.append(").");
    s
}

/// Where the removal stands.
#[derive(Debug)]
pub enum RemoveState {
    /// Nothing done yet.
    Start,
    /// Waiting to learn whether the voice's directory exists.
    CheckingInstalled { voice: String },
    /// Waiting for the voice's manifest.
    LoadingManifest { voice: String, dir: String },
    /// Waiting for the voice's directory to be deleted.
    Deleting { manifest: VoiceManifest, dir: String },
    /// Done.
    Finished,
}

/// The outcome of the last action.
#[derive(Debug)]
pub enum RemoveEvent {
    /// The removal of `voice` begins.
    Begin { voice: String },
    /// Whether the voice's directory `dir` exists.
    InstallChecked { dir: String, exists: bool },
    /// The voice's manifest (`None`: it could not be read).
    ManifestLoaded(Option<VoiceManifest>),
    /// Whether deleting the directory succeeded.
    Deleted(bool),
}

/// What the caller does next.
#[derive(Debug)]
pub enum RemoveAction {
    /// Check whether the voice's directory exists.
    CheckInstalled(String),
    /// Read the voice's manifest.
    LoadManifest,
    /// Delete the directory.
    Delete { dir: String },
    /// Stop with this error.
    Fail(RemoveError),
    /// Print this line and stop.
    Report(String),
    /// The event does not fit the state: nothing to do.
    Nothing,
}

/// One step of the removal: from state `s` and event `e` to state `ns` and
/// action `a`.
pub open spec fn remove_step_spec(s: RemoveState, e: RemoveEvent, ns: RemoveState, a: RemoveAction) -> bool {
    match (s, e) {
        (RemoveState::Start, RemoveEvent::Begin { voice }) => {
            &&& ns matches RemoveState::CheckingInstalled { voice: v }
            &&& v@ == voice@
            &&& a matches RemoveAction::CheckInstalled(w)
            &&& w@ == voice@
        },
        (RemoveState::CheckingInstalled { voice }, RemoveEvent::InstallChecked { dir, exists }) => if exists {
            &&& ns matches RemoveState::LoadingManifest { voice: v, dir: d }
            &&& v@ == voice@
            &&& d@ == dir@
            &&& a is LoadManifest
        } else {
            &&& ns is Finished
            &&& a matches RemoveAction::Fail(RemoveError::NotInstalled { voice: v })
            &&& v@ == voice@
        },
        (RemoveState::LoadingManifest { voice, dir }, RemoveEvent::ManifestLoaded(m)) => match m {
            None => ns is Finished && a matches RemoveAction::Fail(RemoveError::ManifestUnreadable),
            Some(m) => if m.spec_is_built_in() {
                &&& ns is Finished
                &&& a matches RemoveAction::Fail(RemoveError::BuiltIn { voice: v })
                &&& v@ == voice@
            } else {
                &&& ns matches RemoveState::Deleting { manifest, dir: d }
                &&& manifest == m
                &&& d@ == dir@
                &&& a matches RemoveAction::Delete { dir: d2 }
                &&& d2@ == dir@
            },
        },
        (RemoveState::Deleting { manifest, dir }, RemoveEvent::Deleted(ok)) => if ok {
            &&& ns is Finished
            &&& a matches RemoveAction::Report(line)
            &&& line@ == spec_removed_line(manifest)
        } else {
            &&& ns is Finished
            &&& a matches RemoveAction::Fail(RemoveError::RemoveFailed { dir: d })
            &&& d@ == dir@
        },
        _ => ns == s && a is Nothing,
    }
}

/// One step of the removal.
pub fn remove_step(s: RemoveState, e: RemoveEvent) -> (r: (RemoveState, RemoveAction))
    ensures
        remove_step_spec(s, e, r.0, r.1),
{
    match (s, e) {
        (RemoveState::Start, RemoveEvent::Begin { voice }) => {
            let w = voice.clone();
            (RemoveState::CheckingInstalled { voice }, RemoveAction::CheckInstalled(w))
        },
        (RemoveState::CheckingInstalled { voice }, RemoveEvent::InstallChecked { dir, exists }) => {
            match check_installed(voice.as_str(), exists) {
                Ok(()) => (RemoveState::LoadingManifest { voice, dir }, RemoveAction::LoadManifest),
                Err(err) => (RemoveState::Finished, RemoveAction::Fail(err)),
            }
        },
        (RemoveState::LoadingManifest { voice, dir }, RemoveEvent::ManifestLoaded(m)) => {
            match m {
                None => (RemoveState::Finished, RemoveAction::Fail(RemoveError::ManifestUnreadable)),
                Some(m) => match check_removable(voice.as_str(), &m) {
                    Err(err) => (RemoveState::Finished, RemoveAction::Fail(err)),
                    Ok(()) => {
                        let d = dir.clone();
                        (RemoveState::Deleting { manifest: m, dir }, RemoveAction::Delete { dir: d })
                    },
                },
            }
        },
        (RemoveState::Deleting { manifest, dir }, RemoveEvent::Deleted(ok)) => {
            if ok {
                (RemoveState::Finished, RemoveAction::Report(removed_line(&manifest)))
            } else {
                (RemoveState::Finished, RemoveAction::Fail(RemoveError::RemoveFailed { dir }))
            }
        },
        (s, _) => (s, RemoveAction::Nothing),
    }
}

/// Once an installed voice's manifest is read, its directory is deleted
/// exactly when the manifest does not declare a built-in voice.
pub proof fn lemma_remove_manifest_decision(
    voice: String,
    dir: String,
    m: VoiceManifest,
    ns: RemoveState,
    a: RemoveAction,
)
    requires
        remove_step_spec(
            RemoveState::LoadingManifest { voice, dir },
            RemoveEvent::ManifestLoaded(Some(m)),
            ns,
            a,
        ),
    ensures
        (a is Delete) <==> !m.spec_is_built_in(),
        a matches RemoveAction::Delete { dir: d } ==> d@ == dir@,
        m.spec_is_built_in() ==> (a matches RemoveAction::Fail(RemoveError::BuiltIn { voice: v })
            && v@ == voice@),
{
}

/// `states`, `events` and `actions` are a run of the removal.
pub open spec fn is_remove_run(
    states: Seq<RemoveState>,
    events: Seq<RemoveEvent>,
    actions: Seq<RemoveAction>,
) -> bool {
    &&& states.len() == events.len() + 1
    &&& actions.len() == events.len()
    &&& forall|i: int|
        0 <= i < events.len() ==> #[trigger] remove_step_spec(
            states[i],
            events[i],
            states[i + 1],
            actions[i],
        )
}

/// The voice's directory `dir` was found to exist at some step before `m`.
pub open spec fn found_installed(events: Seq<RemoveEvent>, m: int, dir: Seq<char>) -> bool {
    exists|i: int|
        0 <= i < m && (#[trigger] events[i] matches RemoveEvent::InstallChecked { dir: d, exists }
            && exists && d@ == dir)
}

proof fn lemma_remove_states_after_check(
    states: Seq<RemoveState>,
    events: Seq<RemoveEvent>,
    actions: Seq<RemoveAction>,
    m: int,
)
    requires
        is_remove_run(states, events, actions),
        states[0] is Start,
        0 <= m < states.len(),
    ensures
        states[m] matches RemoveState::LoadingManifest { dir, .. } ==> found_installed(
            events,
            m,
            dir@,
        ),
        states[m] matches RemoveState::Deleting { dir, .. } ==> found_installed(events, m, dir@),
    decreases m,
{
    if m > 0 {
        let k = m - 1;
        assert(remove_step_spec(states[k], events[k], states[k + 1], actions[k]));
        lemma_remove_states_after_check(states, events, actions, k);
        if let RemoveState::LoadingManifest { dir, .. } = states[m] {
            if found_installed(events, k, dir@) {
                let i = choose|i: int|
                    0 <= i < k && (#[trigger] events[i] matches RemoveEvent::InstallChecked {
                        dir: d,
                        exists,
                    } && exists && d@ == dir@);
                assert(0 <= i < m);
            } else {
                assert(events[k] matches RemoveEvent::InstallChecked { dir: d, exists } && exists
                    && d@ == dir@);
            }
        }
        if let RemoveState::Deleting { dir, .. } = states[m] {
            let d0 = match states[k] {
                RemoveState::LoadingManifest { dir, .. } => dir,
                RemoveState::Deleting { dir, .. } => dir,
                _ => dir,
            };
            assert(d0@ == dir@);
            let i = choose|i: int|
                0 <= i < k && (#[trigger] events[i] matches RemoveEvent::InstallChecked {
                    dir: d,
                    exists,
                } && exists && d@ == d0@);
            assert(0 <= i < m);
        }
    }
}

/// A removal deletes a directory only after that directory was found to
/// exist, and only once the voice's manifest was read and does not declare
/// a built-in voice.
pub proof fn lemma_remove_deletes_only_checked_voices(
    states: Seq<RemoveState>,
    events: Seq<RemoveEvent>,
    actions: Seq<RemoveAction>,
    k: int,
)
    requires
        is_remove_run(states, events, actions),
        states[0] is Start,
        0 <= k < actions.len(),
        actions[k] is Delete,
    ensures
        events[k] matches RemoveEvent::ManifestLoaded(Some(m)) && !m.spec_is_built_in(),
        actions[k] matches RemoveAction::Delete { dir } && found_installed(events, k, dir@),
{
    assert(remove_step_spec(states[k], events[k], states[k + 1], actions[k]));
    lemma_remove_states_after_check(states, events, actions, k);
}

} // verus!
