//! `mimik status`: reading the PID file and reporting whether the pipeline
//! runs.

use vstd::prelude::*;
use crate::text::{
    append_decimal, chars_of, is_digit, lemma_decimal_digits, lemma_newline_index,
    lemma_parse_decimal_roundtrip, newline_index, parse_u32, spec_decimal, spec_lines,
    spec_parse_u32, strip_cr, take_line, views,
};

verus! {

/// What the PID file records: the pipeline's process id and its voice.
#[derive(Debug, Clone)]
pub struct PidRecord {
    pub pid: u32,
    pub voice: String,
}

/// The state of the PID file.
#[derive(Debug, Clone)]
pub enum PidFile {
    /// There is no PID file.
    Absent,
    /// The file exists but its first line is no process id.
    Corrupt,
    /// The file names a process and a voice.
    Recorded(PidRecord),
}

/// The PID file's contents read as a process id on the first line and the
/// voice on the second (`clean` where there is no second line).
pub open spec fn spec_parse_pid_file(content: Seq<char>) -> Option<(u32, Seq<char>)> {
    let lines = spec_lines(content);
    if lines.len() == 0 {
        None
    } else {
        match spec_parse_u32(lines[0]) {
            None => None,
            Some(pid) => Some((pid, if lines.len() > 1 { lines[1] } else { "clean"@ })),
        }
    }
}

/// The record that a PID file's contents hold, if any.
pub fn parse_pid_file(content: &str) -> (r: Option<PidRecord>)
    ensures
        match r {
            None => spec_parse_pid_file(content@) is None,
            Some(rec) => spec_parse_pid_file(content@) == Some((rec.pid, rec.voice@)),
        },
{
    let v = chars_of(content);
    assert(v@.skip(0) =~= content@);
    let first = take_line(&v, 0);
    match first {
        None => None,
        Some((line, next)) => {
            let pid = parse_u32(line.as_str());
            match pid {
                None => None,
                Some(pid) => {
                    let second = take_line(&v, next);
                    let voice = match second {
                        Some((l, _)) => l,
                        None => {
                            assert(v@.skip(next as int) =~= Seq::<char>::empty());
                            String::from_str("clean")
                        },
                    };
                    Some(PidRecord { pid, voice })
                },
            }
        },
    }
}

pub open spec fn spec_inspect(content: Option<Seq<char>>) -> Option<Option<(u32, Seq<char>)>> {
    match content {
        None => None,
        Some(c) => Some(spec_parse_pid_file(c)),
    }
}

/// What a `PidFile` says: no file (`None`), a corrupt file (`Some(None)`),
/// or a process id and voice.
pub open spec fn file_model(f: PidFile) -> Option<Option<(u32, Seq<char>)>> {
    match f {
        PidFile::Absent => None,
        PidFile::Corrupt => Some(None),
        PidFile::Recorded(rec) => Some(Some((rec.pid, rec.voice@))),
    }
}

/// Classifies the PID file from its contents (`None`: there is no file).
pub fn inspect(content: Option<&str>) -> (r: PidFile)
    ensures
        file_model(r) == spec_inspect(
            match content {
                Some(c) => Some(c@),
                None => None,
            },
        ),
{
    match content {
        None => PidFile::Absent,
        Some(c) => match parse_pid_file(c) {
            None => PidFile::Corrupt,
            Some(rec) => PidFile::Recorded(rec),
        },
    }
}

/// What `mimik status` prints, and whether it deletes the PID file.
#[derive(Debug)]
pub struct StatusReport {
    pub lines: Vec<String>,
    pub remove_pid_file: bool,
}

pub open spec fn running_lines(pid: u32, voice: Seq<char>) -> Seq<Seq<char>> {
    seq!["Status: running"@, "Voice:  "@ + voice, "PID:    "@ + spec_decimal(pid as nat)]
}

/// The status reports a running pipeline: the file names a process and the
/// process answers.
pub open spec fn reports_running(m: Option<Option<(u32, Seq<char>)>>, alive: bool) -> bool {
    m matches Some(Some(_)) && alive
}

pub open spec fn spec_status_lines(m: Option<Option<(u32, Seq<char>)>>, alive: bool) -> Seq<
    Seq<char>,
> {
    match m {
        None => seq!["Status: stopped"@],
        Some(None) => seq!["Status: stopped (corrupt PID file)"@],
        Some(Some((pid, voice))) => if alive {
            running_lines(pid, voice)
        } else {
            seq!["Status: stopped"@]
        },
    }
}

/// The status deletes the PID file of a process that no longer answers.
pub open spec fn removes_pid_file(m: Option<Option<(u32, Seq<char>)>>, alive: bool) -> bool {
    m matches Some(Some(_)) && !alive
}

/// The status report; `alive` says whether the recorded process answers
/// (it is not looked at for a missing or corrupt file).
pub fn run(file: &PidFile, alive: bool) -> (r: StatusReport)
    ensures
        views(r.lines@) == spec_status_lines(file_model(*file), alive),
        r.remove_pid_file == removes_pid_file(file_model(*file), alive),
{
    let mut lines: Vec<String> = Vec::new();
    let mut remove = false;
    match file {
        PidFile::Absent => {
            lines.push(String::from_str("Status: stopped"));
        },
        PidFile::Corrupt => {
            lines.push(String::from_str("Status: stopped (corrupt PID file)"));
        },
        PidFile::Recorded(rec) => {
            if alive {
                lines.push(String::from_str("Status: running"));
                let mut v = String::from_str("Voice:  ");
                v.append(rec.voice.as_str());
                lines.push(v);
                let mut p = String::from_str("PID:    ");
                append_decimal(&mut p, rec.pid as u64);
                lines.push(p);
            } else {
                lines.push(String::from_str("Status: stopped"));
                remove = true;
            }
        },
    }
    assert(views(lines@) =~= spec_status_lines(file_model(*file), alive));
    StatusReport { lines, remove_pid_file: remove }
}

/// What the live pipeline writes to the PID file: its process id, then its
/// voice on the next line.
pub fn pid_file_contents(pid: u32, voice: &str) -> (r: String)
    ensures
        r@ == spec_decimal(pid as nat) + seq!['\n'] + voice@,
{
    let mut s = String::new();
    append_decimal(&mut s, pid as u64);
    crate::text::push_char(&mut s, '\n');
    s.append(voice);
    assert(s@ =~= spec_decimal(pid as nat) + seq!['\n'] + voice@);
    s
}

proof fn lemma_no_newline_index(s: Seq<char>)
    requires
        forall|k: int| 0 <= k < s.len() ==> s[k] != '\n',
    ensures
        newline_index(s) == s.len(),
{
    lemma_newline_index(s);
    if newline_index(s) < s.len() {
        assert(s[newline_index(s)] == '\n');
    }
}

/// A PID file that holds a process id and, on the next line, a voice name
/// (not empty, without line breaks), as `pid_file_contents` writes it, reads
/// back as that id and that voice.
pub proof fn lemma_pid_file_roundtrip(pid: u32, voice: Seq<char>)
    requires
        voice.len() > 0,
        forall|k: int| 0 <= k < voice.len() ==> voice[k] != '\n',
    ensures
        spec_parse_pid_file(spec_decimal(pid as nat) + seq!['\n'] + voice) == Some((pid, voice)),
{
    let d = spec_decimal(pid as nat);
    let s = d + seq!['\n'] + voice;
    lemma_decimal_digits(pid as nat);
    lemma_parse_decimal_roundtrip(pid);
    assert forall|k: int| 0 <= k < d.len() implies s[k] != '\n' by {
        assert(s[k] == d[k]);
        assert(is_digit(d[k]));
    }
    assert(s[d.len() as int] == '\n');
    lemma_newline_index(s);
    if newline_index(s) < d.len() {
        assert(s[newline_index(s)] == '\n');
    }
    assert(newline_index(s) == d.len());
    assert(s.take(d.len() as int) =~= d);
    assert(is_digit(d.last()));
    assert(strip_cr(d) == d);
    assert(s.skip(d.len() as int + 1) =~= voice);
    lemma_no_newline_index(voice);
    assert(spec_lines(voice) == seq![voice]);
    let ls = spec_lines(s);
    assert(ls == seq![d] + seq![voice]);
    assert(ls[0] == d);
    assert(ls[1] == voice);
}

} // verus!
