//! How the worker is invoked, and what is read back from its output.
use vstd::prelude::*;

use crate::supervisor::SupervisorError;
use crate::text::matches_at;

verus! {

/// The line prefix that marks the transcription in the worker's stdout.
pub open spec fn sentinel() -> Seq<char> {
    "TRANSCRIPTION:"@
}

/// The text returned by a transcription whose output held no sentinel line.
pub open spec fn no_text_result() -> Seq<char> {
    "Transcription complete (no text)"@
}

/// Index of the first `'\n'` at or after `i`, or the length of `s`.
pub open spec fn line_end(s: Seq<char>, i: int) -> int
    decreases s.len() - i,
{
    if i >= s.len() || i < 0 || s[i] == '\n' {
        i
    } else {
        line_end(s, i + 1)
    }
}

/// End of the content of the line that starts at `start`: a `'\r'` right
/// before the line's `'\n'` is not part of the line.
pub open spec fn content_end(s: Seq<char>, start: int) -> int {
    let e = line_end(s, start);
    if e < s.len() && e > start && s[e - 1] == '\r' {
        e - 1
    } else {
        e
    }
}

/// Whether `s[start..end]` begins with `p`.
pub open spec fn starts_with_at(s: Seq<char>, start: int, end: int, p: Seq<char>) -> bool {
    end - start >= p.len() && s.subrange(start, start + p.len()) == p
}

/// Whether a line of `s` starts at index `i`.
pub open spec fn is_line_start(s: Seq<char>, i: int) -> bool {
    i == 0 || s[i - 1] == '\n'
}

/// The rest of the first line, starting at or after index `i`, that begins
/// with the sentinel.
pub open spec fn sentinel_payload_from(s: Seq<char>, i: int) -> Option<Seq<char>>
    decreases s.len() - i,
{
    if i >= s.len() || i < 0 {
        None
    } else if is_line_start(s, i) && starts_with_at(s, i, content_end(s, i), sentinel()) {
        Some(s.subrange(i + sentinel().len(), content_end(s, i)))
    } else {
        sentinel_payload_from(s, i + 1)
    }
}

/// The transcription carried by the worker's stdout `s`: the rest of its
/// first line that begins with the sentinel.
pub open spec fn transcription_of(s: Seq<char>) -> Option<Seq<char>> {
    sentinel_payload_from(s, 0)
}

/// A line ends at a newline or at the end of the text, with no newline before.
proof fn lemma_line_end_bounds(s: Seq<char>, i: int)
    requires
        0 <= i <= s.len(),
    ensures
        i <= line_end(s, i) <= s.len(),
        line_end(s, i) < s.len() ==> s[line_end(s, i)] == '\n',
        forall|k: int| i <= k < line_end(s, i) ==> s[k] != '\n',
    decreases s.len() - i,
{
    if i < s.len() && s[i] != '\n' {
        lemma_line_end_bounds(s, i + 1);
    }
}

/// No line starts strictly inside a line, so a search from just after a
/// line start skips to the next line.
proof fn lemma_skip_line(s: Seq<char>, i: int, j: int)
    requires
        0 <= i < j <= line_end(s, i) + 1,
        line_end(s, i) < s.len(),
        forall|k: int| i <= k < line_end(s, i) ==> s[k] != '\n',
    ensures
        sentinel_payload_from(s, j) == sentinel_payload_from(s, line_end(s, i) + 1),
    decreases line_end(s, i) + 1 - j,
{
    if j < line_end(s, i) + 1 {
        assert(!is_line_start(s, j));
        lemma_skip_line(s, i, j + 1);
    }
}

/// A search that starts inside the last line finds nothing.
proof fn lemma_skip_line_to_end(s: Seq<char>, i: int, j: int)
    requires
        0 <= i < j,
        line_end(s, i) >= s.len(),
        forall|k: int| i <= k < line_end(s, i) ==> s[k] != '\n',
    ensures
        sentinel_payload_from(s, j) is None,
    decreases s.len() - j,
{
    if j < s.len() {
        assert(!is_line_start(s, j));
        lemma_skip_line_to_end(s, i, j + 1);
    }
}

/// Index of the first `'\n'` at or after `i` in `s`, or its length; `len`
/// is the length of `s`.
fn find_line_end(s: &str, len: usize, i: usize) -> (r: usize)
    requires
        len == s@.len(),
        i <= len,
    ensures
        r == line_end(s@, i as int),
{
    let mut j = i;
    while j < len && s.get_char(j) != '\n'
        invariant
            len == s@.len(),
            i <= j <= len,
            line_end(s@, i as int) == line_end(s@, j as int),
        decreases len - j,
    {
        j = j + 1;
    }
    j
}

/// Whether `s[start..end]` begins with the sentinel; `len` is the length
/// of `s`.
fn sentinel_at(s: &str, len: usize, start: usize, end: usize) -> (r: bool)
    requires
        len == s@.len(),
        start <= end <= len,
    ensures
        r == starts_with_at(s@, start as int, end as int, sentinel()),
{
    let p = "TRANSCRIPTION:";
    proof {
        reveal_strlit("TRANSCRIPTION:");
    }
    let plen = p.unicode_len();
    end - start >= plen && matches_at(s, len, p, plen, start)
}

/// The transcription in the worker's stdout: the rest of the first line
/// that begins with `TRANSCRIPTION:`, if any line does.
pub fn find_transcription(stdout: &str) -> (r: Option<String>)
    ensures
        match r {
            Some(t) => transcription_of(stdout@) == Some(t@),
            None => transcription_of(stdout@) is None,
        },
{
    proof {
        reveal_strlit("TRANSCRIPTION:");
    }
    let plen = "TRANSCRIPTION:".unicode_len();
    let len = stdout.unicode_len();
    let mut start: usize = 0;
    while start < len
        invariant
            len == stdout@.len(),
            start <= len,
            plen == sentinel().len(),
            is_line_start(stdout@, start as int),
            transcription_of(stdout@) == sentinel_payload_from(stdout@, start as int),
        decreases len - start,
    {
        let e = find_line_end(stdout, len, start);
        proof {
            lemma_line_end_bounds(stdout@, start as int);
        }
        let end = if e < len && e > start && stdout.get_char(e - 1) == '\r' {
            e - 1
        } else {
            e
        };
        if sentinel_at(stdout, len, start, end) {
            let text = stdout.substring_char(start + plen, end);
            return Some(String::from_str(text));
        }
        if e >= len {
            proof {
                lemma_skip_line_to_end(stdout@, start as int, start as int + 1);
            }
            return None;
        }
        proof {
            lemma_skip_line(stdout@, start as int, start as int + 1);
        }
        start = e + 1;
    }
    None
}

/// The result of a transcription run, from the worker's stdout: the
/// transcription when a sentinel line is present, and a fixed "no text"
/// message otherwise, which is not an error.
pub fn transcription_result(stdout: &str) -> (r: String)
    ensures
        r@ == match transcription_of(stdout@) {
            Some(t) => t,
            None => no_text_result(),
        },
{
    match find_transcription(stdout) {
        Some(t) => t,
        None => String::from_str("Transcription complete (no text)"),
    }
}

/// The outcome of a transcription run, classified by the worker's exit
/// status as any one-shot run is: on failure its stderr as the error (the
/// stdout is discarded); on success the transcription in its stdout, or the
/// fixed "no text" message when no sentinel line is present.
pub fn transcription_outcome(success: bool, stdout: &str, stderr: String) -> (r: Result<
    String,
    SupervisorError,
>)
    ensures
        !success ==> r == Err::<String, SupervisorError>(SupervisorError::WorkerExit(stderr)),
        success ==> (r matches Ok(t) && t@ == match transcription_of(stdout@) {
            Some(text) => text,
            None => no_text_result(),
        }),
{
    if success {
        Ok(transcription_result(stdout))
    } else {
        Err(SupervisorError::WorkerExit(stderr))
    }
}

/// One invocation of the worker.
#[derive(Clone, Debug, PartialEq, Eq)]
pub enum WorkerCommand {
    /// Start capturing audio; runs until stopped.
    StartCapture,
    /// Transcribe the audio file at the given path.
    Transcribe(String),
    /// Run a knowledge-graph weave pass.
    Weave,
    /// Answer the given question.
    Ask(String),
    /// Check that a microphone is available.
    CheckMicrophone,
    /// Check that the language-model runtime is installed.
    CheckDependency,
    /// Install the language-model runtime.
    InstallDependency,
}

/// The mode flag that selects `c` in the worker.
pub open spec fn mode_flag(c: WorkerCommand) -> Seq<char> {
    match c {
        WorkerCommand::StartCapture => "--spool-start"@,
        WorkerCommand::Transcribe(_) => "--spool-transcribe"@,
        WorkerCommand::Weave => "--weave"@,
        WorkerCommand::Ask(_) => "--ask"@,
        WorkerCommand::CheckMicrophone => "--check-mic"@,
        WorkerCommand::CheckDependency => "--check-ollama"@,
        WorkerCommand::InstallDependency => "--install-ollama"@,
    }
}

/// The argument that follows the mode flag, if `c` takes one.
pub open spec fn mode_operand(c: WorkerCommand) -> Seq<Seq<char>> {
    match c {
        WorkerCommand::Transcribe(path) => seq![path@],
        WorkerCommand::Ask(query) => seq![query@],
        _ => seq![],
    }
}

/// The interpreter arguments that run the worker in mode `c`:
/// `-m engine <flag> [operand]`.
pub open spec fn worker_argv(c: WorkerCommand) -> Seq<Seq<char>> {
    seq!["-m"@, "engine"@, mode_flag(c)] + mode_operand(c)
}

/// The interpreter arguments that run the worker in mode `command`.
pub fn worker_args(command: &WorkerCommand) -> (r: Vec<String>)
    ensures
        r@.map_values(|a: String| a@) == worker_argv(*command),
{
    let mut args: Vec<String> = Vec::new();
    args.push(String::from_str("-m"));
    args.push(String::from_str("engine"));
    let flag = match command {
        WorkerCommand::StartCapture => "--spool-start",
        WorkerCommand::Transcribe(_) => "--spool-transcribe",
        WorkerCommand::Weave => "--weave",
        WorkerCommand::Ask(_) => "--ask",
        WorkerCommand::CheckMicrophone => "--check-mic",
        WorkerCommand::CheckDependency => "--check-ollama",
        WorkerCommand::InstallDependency => "--install-ollama",
    };
    args.push(String::from_str(flag));
    match command {
        WorkerCommand::Transcribe(path) => args.push(path.clone()),
        WorkerCommand::Ask(query) => args.push(query.clone()),
        _ => {},
    }
    assert(args@.map_values(|a: String| a@) =~= worker_argv(*command));
    args
}

} // verus!
