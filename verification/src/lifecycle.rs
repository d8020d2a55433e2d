//! The engine's verbs other than `run`: the arguments of each call and the
//! reading of what the engine answered.

use vstd::prelude::*;
use crate::config::ContainerState;
use crate::errors::{Error, ErrorKind};
use crate::text::{
    chars_of, lemma_split_nonempty, same_text, split, split_text, string_of, texts,
};

verus! {

/// What a finished engine process left behind: its exit code, where it
/// ended with one, and the bytes it wrote.
#[derive(Clone, Debug)]
pub struct ProcessOutput {
    pub status: Option<i32>,
    pub stdout: Vec<u8>,
    pub stderr: Vec<u8>,
}

/// What came of an attempt to run the engine.
#[derive(Clone, Debug)]
pub enum Launch {
    /// The process ran to its end.
    Completed(ProcessOutput),
    /// The process could not be launched; the text is the system's error.
    Failed(String),
}

/// A container as the engine lists it.
#[derive(Clone, Debug)]
pub struct ContainerRecord {
    pub id: String,
    pub name: String,
}

impl ProcessOutput {
    /// The process ended with exit code zero.
    pub open spec fn succeeded(&self) -> bool {
        self.status == Some(0i32)
    }

    /// Whether the process ended with exit code zero.
    pub fn success(&self) -> (out: bool)
        ensures
            out == self.succeeded(),
    {
        match self.status {
            Some(code) => code == 0,
            None => false,
        }
    }
}

/// The arguments that ask an engine for its version.
pub fn version_arguments() -> (out: Vec<String>)
    ensures
        texts(out@) == seq!["--version"@],
{
    let mut out: Vec<String> = Vec::new();
    out.push(String::from_str("--version"));
    proof {
        assert(texts(out@) =~= seq!["--version"@]);
    }
    out
}

/// The arguments that list the running containers, one `id|name` per line.
pub fn list_arguments() -> (out: Vec<String>)
    ensures
        texts(out@) == seq!["ps"@, "--format"@, "{{.ID}}|{{.Names}}"@],
{
    let mut out: Vec<String> = Vec::new();
    out.push(String::from_str("ps"));
    out.push(String::from_str("--format"));
    out.push(String::from_str("{{.ID}}|{{.Names}}"));
    proof {
        assert(texts(out@) =~= seq!["ps"@, "--format"@, "{{.ID}}|{{.Names}}"@]);
    }
    out
}

/// The arguments that ask whether `container` is running.
pub fn inspect_arguments(container: &str) -> (out: Vec<String>)
    ensures
        texts(out@) == seq!["inspect"@, "--format"@, "{{.State.Running}}"@, container@],
{
    let mut out: Vec<String> = Vec::new();
    out.push(String::from_str("inspect"));
    out.push(String::from_str("--format"));
    out.push(String::from_str("{{.State.Running}}"));
    out.push(String::from_str(container));
    proof {
        assert(texts(out@) =~= seq![
            "inspect"@,
            "--format"@,
            "{{.State.Running}}"@,
            container@,
        ]);
    }
    out
}

/// The arguments that start `container`.
pub fn start_arguments(container: &str) -> (out: Vec<String>)
    ensures
        texts(out@) == seq!["start"@, container@],
{
    let mut out: Vec<String> = Vec::new();
    out.push(String::from_str("start"));
    out.push(String::from_str(container));
    proof {
        assert(texts(out@) =~= seq!["start"@, container@]);
    }
    out
}

/// The arguments that run `command` through a shell inside `container`.
pub fn exec_arguments(container: &str, command: &str) -> (out: Vec<String>)
    ensures
        texts(out@) == seq!["exec"@, container@, "sh"@, "-c"@, command@],
{
    let mut out: Vec<String> = Vec::new();
    out.push(String::from_str("exec"));
    out.push(String::from_str(container));
    out.push(String::from_str("sh"));
    out.push(String::from_str("-c"));
    out.push(String::from_str(command));
    proof {
        assert(texts(out@) =~= seq!["exec"@, container@, "sh"@, "-c"@, command@]);
    }
    out
}

/// A line without the carriage return that may end it.
pub open spec fn without_carriage_return(line: Seq<char>) -> Seq<char> {
    if line.len() > 0 && line.last() == '\r' {
        line.drop_last()
    } else {
        line
    }
}

/// The lines of `s`. A line ends at a line feed; a carriage return just
/// before that line feed belongs to the line ending. Text after the last
/// line feed is a line of its own unless it is empty.
pub open spec fn lines(s: Seq<char>) -> Seq<Seq<char>> {
    let parts = split(s, '\n');
    let ended = parts.drop_last().map_values(|l: Seq<char>| without_carriage_return(l));
    if parts.last().len() == 0 {
        ended
    } else {
        ended.push(parts.last())
    }
}

/// The record that a line holds: its two fields when `|` splits it into
/// exactly two, else none.
pub open spec fn record_of(line: Seq<char>) -> Option<(Seq<char>, Seq<char>)> {
    let fields = split(line, '|');
    if fields.len() == 2 {
        Some((fields[0], fields[1]))
    } else {
        None
    }
}

/// The records of the lines that hold one, in the order of the lines.
pub open spec fn records_of(lines: Seq<Seq<char>>) -> Seq<(Seq<char>, Seq<char>)>
    decreases lines.len(),
{
    if lines.len() == 0 {
        Seq::empty()
    } else {
        let before = records_of(lines.drop_last());
        match record_of(lines.last()) {
            Some(record) => before.push(record),
            None => before,
        }
    }
}

/// The id and name of each record, as character sequences.
pub open spec fn record_texts(records: Seq<ContainerRecord>) -> Seq<(Seq<char>, Seq<char>)> {
    Seq::new(records.len(), |i: int| (records[i].id@, records[i].name@))
}

fn strip_carriage_return(line: &str) -> (out: String)
    ensures
        out@ == without_carriage_return(line@),
{
    let chars = chars_of(line);
    let n = chars.len();
    if n > 0 && chars[n - 1] == '\r' {
        string_of(&chars, 0, n - 1)
    } else {
        let out = string_of(&chars, 0, n);
        proof {
            assert(chars@.subrange(0, n as int) =~= chars@);
        }
        out
    }
}

/// Splits `s` into its lines.
pub fn split_lines(s: &str) -> (out: Vec<String>)
    ensures
        texts(out@) == lines(s@),
{
    let mut parts = split_text(s, '\n');
    proof {
        lemma_split_nonempty(s@, '\n');
    }
    let ghost all = texts(parts@);
    let tail = parts.pop().unwrap();
    proof {
        assert(texts(parts@) =~= all.drop_last());
        assert(tail@ == all.last());
    }
    let ghost ended = all.drop_last().map_values(|l: Seq<char>| without_carriage_return(l));
    let mut out: Vec<String> = Vec::new();
    let mut i: usize = 0;
    while i < parts.len()
        invariant
            i <= parts.len(),
            all.len() >= 1,
            texts(parts@) == all.drop_last(),
            ended == all.drop_last().map_values(|l: Seq<char>| without_carriage_return(l)),
            texts(out@) == ended.take(i as int),
        decreases parts.len() - i,
    {
        let line = strip_carriage_return(parts[i].as_str());
        proof {
            assert(texts(parts@)[i as int] == parts@[i as int]@);
            assert(ended.len() == parts.len());
            assert(ended[i as int] == without_carriage_return(all.drop_last()[i as int]));
            assert(texts(out@.push(line)) =~= texts(out@).push(line@));
            assert(ended.take(i + 1) =~= ended.take(i as int).push(ended[i as int]));
        }
        out.push(line);
        i += 1;
    }
    proof {
        assert(ended.take(i as int) =~= ended);
    }
    if tail.as_str().unicode_len() > 0 {
        proof {
            assert(texts(out@.push(tail)) =~= ended.push(tail@));
        }
        out.push(tail);
    }
    out
}

/// The containers that the engine's listing names. A line that does not
/// split into exactly two fields is passed over.
pub fn parse_container_list(stdout: &str) -> (out: Vec<ContainerRecord>)
    ensures
        record_texts(out@) == records_of(lines(stdout@)),
{
    let all = split_lines(stdout);
    let mut out: Vec<ContainerRecord> = Vec::new();
    let mut i: usize = 0;
    proof {
        assert(texts(all@).take(0) =~= Seq::<Seq<char>>::empty());
        assert(record_texts(out@) =~= records_of(texts(all@).take(0)));
    }
    while i < all.len()
        invariant
            i <= all.len(),
            texts(all@) == lines(stdout@),
            record_texts(out@) == records_of(texts(all@).take(i as int)),
        decreases all.len() - i,
    {
        let fields = split_text(all[i].as_str(), '|');
        proof {
            let next = texts(all@).take(i + 1);
            assert(next.drop_last() =~= texts(all@).take(i as int));
            assert(next.last() == all@[i as int]@);
        }
        if fields.len() == 2 {
            let record = ContainerRecord { id: fields[0].clone(), name: fields[1].clone() };
            proof {
                assert(texts(fields@)[0] == fields@[0]@);
                assert(texts(fields@)[1] == fields@[1]@);
                assert(record_texts(out@.push(record)) =~= record_texts(out@).push(
                    (record.id@, record.name@),
                ));
            }
            out.push(record);
        }
        i += 1;
    }
    proof {
        assert(texts(all@).take(i as int) =~= texts(all@));
    }
    out
}

/// What `str::trim` of the standard library returns for a text: the text
/// without the white space at its two ends.
pub uninterp spec fn trimmed(s: Seq<char>) -> Seq<char>;

/// `str::trim` of the standard library. The contract only names the result.
#[verifier::external_body]
fn trim<'a>(s: &'a str) -> (out: &'a str)
    ensures
        out@ == trimmed(s@),
{
    s.trim()
}

/// The state that an already trimmed answer stands for: running exactly
/// when the answer is the word `true`.
pub open spec fn state_of(answer: Seq<char>) -> ContainerState {
    if answer == "true"@ {
        ContainerState::Running
    } else {
        ContainerState::Stopped
    }
}

/// Reads an already trimmed answer of the engine.
pub fn state_of_answer(answer: &str) -> (out: ContainerState)
    ensures
        out == state_of(answer@),
{
    if same_text(answer, "true") {
        ContainerState::Running
    } else {
        ContainerState::Stopped
    }
}

/// Reads the engine's answer to an inspection. Anything but the word
/// `true`, white space at the ends aside, counts as stopped.
pub fn container_state(stdout: &str) -> (out: ContainerState)
    ensures
        out == state_of(trimmed(stdout@)),
{
    state_of_answer(trim(stdout))
}

/// What `String::from_utf8_lossy` of the standard library returns for
/// these bytes: the text they encode, with the replacement character in
/// place of each sequence that is not valid UTF-8.
pub uninterp spec fn lossy_text(bytes: Seq<u8>) -> Seq<char>;

/// `String::from_utf8_lossy` of the standard library, its result as an
/// owned string. The contract only names the result.
#[verifier::external_body]
pub(crate) fn decode(bytes: &Vec<u8>) -> (out: String)
    ensures
        out@ == lossy_text(bytes@),
{
    String::from_utf8_lossy(bytes).into_owned()
}

/// Why a launch counts as failed, if it does: the launch error where the
/// engine did not run, the text of its error output where it ran and did
/// not end with exit code zero.
pub open spec fn failure_of(launch: &Launch) -> Option<Seq<char>> {
    match launch {
        Launch::Failed(reason) => Some(reason@),
        Launch::Completed(output) => if output.succeeded() {
            None
        } else {
            Some(lossy_text(output.stderr@))
        },
    }
}

/// Judges a launch of a verb whose failure is of `kind`.
pub fn check_launch(launch: &Launch, kind: ErrorKind) -> (out: Result<(), Error>)
    ensures
        match failure_of(launch) {
            Some(detail) => out matches Err(e) && e.kind == kind && e.detail@ == detail,
            None => out is Ok,
        },
{
    match launch {
        Launch::Failed(reason) => Err(Error::with_detail(kind, reason.as_str())),
        Launch::Completed(output) => {
            if output.success() {
                Ok(())
            } else {
                Err(Error { kind, detail: decode(&output.stderr) })
            }
        },
    }
}

/// Judges the launch that was to run a command inside a container: a
/// process that did not launch and one that reported failure are told
/// apart by the kind of the error.
pub fn check_exec(launch: &Launch) -> (out: Result<(), Error>)
    ensures
        match launch {
            Launch::Failed(reason) => out matches Err(e) && e.kind == ErrorKind::HookLaunchFailed
                && e.detail@ == reason@,
            Launch::Completed(output) => if output.succeeded() {
                out is Ok
            } else {
                out matches Err(e) && e.kind == ErrorKind::HookFailed && e.detail@
                    == lossy_text(output.stderr@)
            },
        },
{
    match launch {
        Launch::Failed(reason) => Err(
            Error::with_detail(ErrorKind::HookLaunchFailed, reason.as_str()),
        ),
        Launch::Completed(output) => {
            if output.success() {
                Ok(())
            } else {
                Err(Error { kind: ErrorKind::HookFailed, detail: decode(&output.stderr) })
            }
        },
    }
}

} // verus!
