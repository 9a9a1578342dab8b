//! `mimik stop`: the steps that end a running pipeline, as a state machine.
//! The caller performs each action (file access, process signals, sleeping)
//! and hands the outcome back as the next event.

use vstd::prelude::*;
use crate::commands::status::{parse_pid_file, reports_running, spec_inspect, spec_parse_pid_file};
use crate::text::{append_decimal, spec_decimal};

verus! {

/// How long the stop procedure sleeps between two checks of the process.
pub const POLL_INTERVAL_MS: u64 = 100;

/// How many checks the stop procedure makes before it gives up waiting.
pub const MAX_POLLS: u32 = 20;

/// Where the stop procedure stands.
#[derive(Debug)]
pub enum StopState {
    /// Nothing done yet.
    Start,
    /// Waiting to learn whether the PID file exists.
    CheckingFile,
    /// Waiting for the PID file's contents.
    ReadingFile,
    /// Waiting to learn whether the recorded process is alive.
    Probing { pid: u32, voice: String },
    /// Waiting for the termination signal to have been sent.
    Terminating { pid: u32 },
    /// Sleeping before the next check; `sleeps` counts the sleeps so far.
    Sleeping { pid: u32, sleeps: u32 },
    /// Waiting to learn whether the process is still alive.
    Polling { pid: u32, sleeps: u32 },
    /// Done.
    Finished,
}

/// The outcome of the last action.
#[derive(Debug)]
pub enum StopEvent {
    /// The procedure begins.
    Begin,
    /// Whether the PID file exists.
    FileExists(bool),
    /// The PID file's contents.
    FileRead(String),
    /// Whether the process answers a null signal.
    Alive(bool),
    /// The termination signal was sent.
    TermSent,
    /// The sleep is over.
    Slept,
}

/// What the caller does next.
#[derive(Debug)]
pub enum StopAction {
    /// Check whether the PID file exists.
    CheckFile,
    /// Read the PID file.
    ReadFile,
    /// Check whether the process answers a null signal.
    Probe(u32),
    /// Print `notice`, then send the process a termination signal.
    Terminate { pid: u32, notice: String },
    /// Sleep this many milliseconds.
    Sleep(u64),
    /// Delete the PID file if `remove_pid_file`, print `message`, and stop.
    Finish { remove_pid_file: bool, message: String },
    /// The event does not fit the state: nothing to do.
    Nothing,
}

pub open spec fn not_running_message() -> Seq<char> {
    "Mimik is not running."@
}

pub open spec fn corrupt_message() -> Seq<char> {
    "Mimik is not running (corrupt PID file)."@
}

pub open spec fn stopped_message() -> Seq<char> {
    "Stopped."@
}

pub open spec fn stopping_notice(pid: u32, voice: Seq<char>) -> Seq<char> {
    "Stopping voice '"@ + voice + "' (PID "@ + spec_decimal(pid as nat) + ")..."@
}

pub open spec fn is_finish(a: StopAction, remove: bool, message: Seq<char>) -> bool {
    &&& a matches StopAction::Finish { remove_pid_file, message: m }
    &&& remove_pid_file == remove
    &&& m@ == message
}

/// One step of the stop procedure: from state `s` and event `e` to state
/// `ns` and action `a`.
pub open spec fn step_spec(s: StopState, e: StopEvent, ns: StopState, a: StopAction) -> bool {
    match (s, e) {
        (StopState::Start, StopEvent::Begin) => ns is CheckingFile && a is CheckFile,
        (StopState::CheckingFile, StopEvent::FileExists(exists)) => if exists {
            ns is ReadingFile && a is ReadFile
        } else {
            ns is Finished && is_finish(a, false, not_running_message())
        },
        (StopState::ReadingFile, StopEvent::FileRead(content)) => match spec_parse_pid_file(
            content@,
        ) {
            None => ns is Finished && is_finish(a, true, corrupt_message()),
            Some((pid, voice)) => {
                &&& ns matches StopState::Probing { pid: p, voice: v }
                &&& p == pid
                &&& v@ == voice
                &&& a == StopAction::Probe(pid)
            },
        },
        (StopState::Probing { pid, voice }, StopEvent::Alive(alive)) => if alive {
            &&& ns == StopState::Terminating { pid }
            &&& a matches StopAction::Terminate { pid: p, notice }
            &&& p == pid
            &&& notice@ == stopping_notice(pid, voice@)
        } else {
            ns is Finished && is_finish(a, true, not_running_message())
        },
        (StopState::Terminating { pid }, StopEvent::TermSent) => ns == StopState::Sleeping {
            pid,
            sleeps: 1,
        } && a == StopAction::Sleep(POLL_INTERVAL_MS),
        (StopState::Sleeping { pid, sleeps }, StopEvent::Slept) => ns == StopState::Polling {
            pid,
            sleeps,
        } && a == StopAction::Probe(pid),
        (StopState::Polling { pid, sleeps }, StopEvent::Alive(alive)) => if !alive || sleeps
            >= MAX_POLLS {
            ns is Finished && is_finish(a, true, stopped_message())
        } else {
            ns == StopState::Sleeping { pid, sleeps: (sleeps + 1) as u32 } && a
                == StopAction::Sleep(POLL_INTERVAL_MS)
        },
        _ => ns == s && a is Nothing,
    }
}

/// One step of the stop procedure.
pub fn step(s: StopState, e: StopEvent) -> (r: (StopState, StopAction))
    ensures
        step_spec(s, e, r.0, r.1),
{
    match (s, e) {
        (StopState::Start, StopEvent::Begin) => (StopState::CheckingFile, StopAction::CheckFile),
        (StopState::CheckingFile, StopEvent::FileExists(exists)) => {
            if exists {
                (StopState::ReadingFile, StopAction::ReadFile)
            } else {
                (
                    StopState::Finished,
                    StopAction::Finish {
                        remove_pid_file: false,
                        message: String::from_str("Mimik is not running."),
                    },
                )
            }
        },
        (StopState::ReadingFile, StopEvent::FileRead(content)) => {
            match parse_pid_file(content.as_str()) {
                None => (
                    StopState::Finished,
                    StopAction::Finish {
                        remove_pid_file: true,
                        message: String::from_str("Mimik is not running (corrupt PID file)."),
                    },
                ),
                Some(rec) => {
                    let pid = rec.pid;
                    (StopState::Probing { pid, voice: rec.voice }, StopAction::Probe(pid))
                },
            }
        },
        (StopState::Probing { pid, voice }, StopEvent::Alive(alive)) => {
            if alive {
                let mut notice = String::from_str("Stopping voice '");
                notice.append(voice.as_str());
                notice.append("' (PID ");
                append_decimal(&mut notice, pid as u64);
                notice.append(")...");
                (StopState::Terminating { pid }, StopAction::Terminate { pid, notice })
            } else {
                (
                    StopState::Finished,
                    StopAction::Finish {
                        remove_pid_file: true,
                        message: String::from_str("Mimik is not running."),
                    },
                )
            }
        },
        (StopState::Terminating { pid }, StopEvent::TermSent) => (
            StopState::Sleeping { pid, sleeps: 1 },
            StopAction::Sleep(POLL_INTERVAL_MS),
        ),
        (StopState::Sleeping { pid, sleeps }, StopEvent::Slept) => (
            StopState::Polling { pid, sleeps },
            StopAction::Probe(pid),
        ),
        (StopState::Polling { pid, sleeps }, StopEvent::Alive(alive)) => {
            if !alive || sleeps >= MAX_POLLS {
                (
                    StopState::Finished,
                    StopAction::Finish {
                        remove_pid_file: true,
                        message: String::from_str("Stopped."),
                    },
                )
            } else {
                (
                    StopState::Sleeping { pid, sleeps: sleeps + 1 },
                    StopAction::Sleep(POLL_INTERVAL_MS),
                )
            }
        },
        (s, _) => (s, StopAction::Nothing),
    }
}

/// How many more sleeps the procedure may still issue from state `s`.
pub open spec fn sleep_budget(s: StopState) -> nat {
    match s {
        StopState::Sleeping { sleeps, .. } => if sleeps <= MAX_POLLS {
            (MAX_POLLS - sleeps) as nat
        } else {
            0
        },
        StopState::Polling { sleeps, .. } => if sleeps <= MAX_POLLS {
            (MAX_POLLS - sleeps) as nat
        } else {
            0
        },
        StopState::Finished => 0,
        _ => MAX_POLLS as nat,
    }
}

/// The milliseconds that an action sleeps.
pub open spec fn sleep_ms(a: StopAction) -> nat {
    match a {
        StopAction::Sleep(ms) => ms as nat,
        _ => 0,
    }
}

/// The milliseconds that a sequence of actions sleeps in all.
pub open spec fn total_sleep_ms(actions: Seq<StopAction>) -> nat
    decreases actions.len(),
{
    if actions.len() == 0 {
        0
    } else {
        total_sleep_ms(actions.drop_last()) + sleep_ms(actions.last())
    }
}

/// `states`, `events` and `actions` are a run of the procedure: each state
/// and event lead by `step` to the next state and the action.
pub open spec fn is_run(
    states: Seq<StopState>,
    events: Seq<StopEvent>,
    actions: Seq<StopAction>,
) -> bool {
    &&& states.len() == events.len() + 1
    &&& actions.len() == events.len()
    &&& forall|i: int|
        0 <= i < events.len() ==> #[trigger] step_spec(states[i], events[i], states[i + 1], actions[i])
}

proof fn lemma_step_budget(s: StopState, e: StopEvent, ns: StopState, a: StopAction)
    requires
        step_spec(s, e, ns, a),
    ensures
        sleep_ms(a) + POLL_INTERVAL_MS * sleep_budget(ns) <= POLL_INTERVAL_MS * sleep_budget(s),
{
}

/// Along any run, the time slept and the time that may still be slept
/// together never exceed what the first state allowed.
pub proof fn lemma_run_sleeps_within_budget(
    states: Seq<StopState>,
    events: Seq<StopEvent>,
    actions: Seq<StopAction>,
)
    requires
        is_run(states, events, actions),
    ensures
        total_sleep_ms(actions) + POLL_INTERVAL_MS * sleep_budget(states.last())
            <= POLL_INTERVAL_MS * sleep_budget(states[0]),
    decreases events.len(),
{
    let n = events.len();
    if n > 0 {
        let ps = states.drop_last();
        let pe = events.drop_last();
        let pa = actions.drop_last();
        assert forall|i: int| 0 <= i < pe.len() implies #[trigger] step_spec(
            ps[i],
            pe[i],
            ps[i + 1],
            pa[i],
        ) by {
            assert(step_spec(states[i], events[i], states[i + 1], actions[i]));
        }
        lemma_run_sleeps_within_budget(ps, pe, pa);
        let k = n - 1;
        assert(step_spec(states[k], events[k], states[k + 1], actions[k]));
        lemma_step_budget(states[k], events[k], states[k + 1], actions[k]);
        assert(ps.last() == states[k]);
        assert(states.last() == states[k + 1]);
    }
}

/// Stopping waits at most two seconds for the process to exit: a run from
/// the start sleeps at most 2000 ms in all.
pub proof fn lemma_stop_waits_at_most_two_seconds(
    states: Seq<StopState>,
    events: Seq<StopEvent>,
    actions: Seq<StopAction>,
)
    requires
        is_run(states, events, actions),
        states[0] is Start,
    ensures
        total_sleep_ms(actions) <= 2000,
{
    lemma_run_sleeps_within_budget(states, events, actions);
}

/// `mimik stop` signals the pipeline exactly when `mimik status`, given the
/// same PID file contents and the same answer of the process, reports it
/// running.
pub proof fn lemma_stop_signals_exactly_when_status_reports_running(
    content: String,
    alive: bool,
    mid: StopState,
    first: StopAction,
    last: StopState,
    second: StopAction,
)
    requires
        step_spec(StopState::ReadingFile, StopEvent::FileRead(content), mid, first),
        step_spec(mid, StopEvent::Alive(alive), last, second),
    ensures
        (second is Terminate) == reports_running(spec_inspect(Some(content@)), alive),
{
}

} // verus!
