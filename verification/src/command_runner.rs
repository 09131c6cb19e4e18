//! External command runner: plans the execution of a user-supplied
//! shell-style command line and classifies its outcome, never propagating a
//! failure as a hard error.
//!
//! Spawning the planned executable needs the operating system, so it stays
//! with the caller: this module turns a command line into a plan, and the
//! captured exit status and output back into a success or a failure with a
//! descriptive message.

use vstd::prelude::*;
use vstd::string::StringExecFns;
use vstd::pervasive::unreached;
use crate::decimal::int_rep;
use crate::decimal::i32_to_decimal;

verus! {

/// What `shell_words::split` yields for a line: its words after quote
/// removal, or nothing when a quote is unbalanced.
pub uninterp spec fn split_tokens(line: Seq<char>) -> Option<Seq<Seq<char>>>;

/// What `shell_words::join` yields for an argument list.
pub uninterp spec fn join_of(tokens: Seq<Seq<char>>) -> Seq<char>;

/// What `String::from_utf8` yields for a byte buffer: its text, or nothing
/// when the bytes are not valid UTF-8.
pub uninterp spec fn utf8_decode(bytes: Seq<u8>) -> Option<Seq<char>>;

/// A shell-style blank: the delimiters the tokenizer skips between words.
pub open spec fn blank_char(c: char) -> bool {
    c == ' ' || c == '\t' || c == '\n'
}

/// A line of nothing but blanks (the empty line among them).
pub open spec fn all_blank(line: Seq<char>) -> bool {
    forall|i: int| 0 <= i < line.len() ==> blank_char(line[i])
}

/// Declares `shell_words::ParseError`, the tokenizer's error, so that the
/// trusted split can return it as it stands.
#[verifier::external_type_specification]
#[verifier::external_body]
pub struct ExParseError(shell_words::ParseError);

/// Relies on `shell_words::split`: POSIX shell word splitting, a pure
/// function of the line. Its source fails exactly on an unterminated quote,
/// and yields no words for a line of nothing but blanks.
#[verifier::external_body]
fn split_words(line: &str) -> (r: Result<Vec<String>, shell_words::ParseError>)
    ensures
        r is Ok <==> split_tokens(line@) is Some,
        r matches Ok(ts) ==> Some(ts.deep_view()) == split_tokens(line@),
        r is Err ==> !all_blank(line@),
        r matches Ok(ts) ==> (all_blank(line@) ==> ts@.len() == 0),
{
    shell_words::split(line)
}

/// Relies on `shell_words::join`, documented as the inverse of
/// `shell_words::split`: every word is quoted so that splitting the joined
/// line yields exactly the original words.
#[verifier::external_body]
fn join_words(tokens: &Vec<String>) -> (r: String)
    ensures
        r@ == join_of(tokens.deep_view()),
        split_tokens(r@) == Some(tokens.deep_view()),
{
    shell_words::join(tokens)
}

/// Relies on `String::from_utf8`: decodes exactly the byte buffers that are
/// valid UTF-8, as a pure function of the bytes.
#[verifier::external_body]
fn decode_utf8(bytes: Vec<u8>) -> (r: Option<String>)
    ensures
        r is Some <==> utf8_decode(bytes@) is Some,
        r matches Some(s) ==> Some(s@) == utf8_decode(bytes@),
{
    String::from_utf8(bytes).ok()
}

/// What a command line asks for: nothing, a spawn, or no attempt at all
/// because its quoting is broken.
pub enum CommandPlan {
    /// The line tokenizes to no words: a successful no-op, no process spawned.
    NoOp,
    /// The line cannot be tokenized (an unterminated quote): the terminal
    /// error of this attempt.
    Invalid,
    /// The first word names the executable, the rest are its arguments.
    Spawn { executable: String, args: Vec<String> },
}

/// The plan a command line calls for, over the tokenizer's result.
pub open spec fn plan_matches(line: Seq<char>, p: CommandPlan) -> bool {
    match split_tokens(line) {
        None => p is Invalid,
        Some(ts) => if ts.len() == 0 {
            p is NoOp
        } else {
            match p {
                CommandPlan::Spawn { executable, args } => executable@ == ts[0]
                    && args.deep_view() == ts.drop_first(),
                _ => false,
            }
        },
    }
}

/// Tokenizes a command line by POSIX shell quoting rules and plans its
/// execution: an untokenizable line is invalid, a wordless line a no-op, and
/// otherwise the first word is the executable and the rest its arguments.
pub fn plan_command(command_line: &str) -> (r: CommandPlan)
    ensures
        plan_matches(command_line@, r),
        all_blank(command_line@) ==> r is NoOp,
{
    match split_words(command_line) {
        Err(_) => CommandPlan::Invalid,
        Ok(mut tokens) => {
            if tokens.len() == 0 {
                CommandPlan::NoOp
            } else {
                let ghost v0 = tokens@;
                let ghost t0 = tokens.deep_view();
                let executable = tokens.remove(0);
                proof {
                    assert(executable@ == t0[0]);
                    assert forall|k: int| 0 <= k < tokens.deep_view().len() implies tokens.deep_view()[k]
                        == t0.drop_first()[k] by {
                        assert(tokens@[k] == v0.remove(0)[k]);
                        assert(v0.remove(0)[k] == v0[k + 1]);
                    }
                    assert(tokens.deep_view() =~= t0.drop_first());
                }
                CommandPlan::Spawn { executable, args: tokens }
            }
        },
    }
}

/// Post-switch side effect: given the command line the configuration resolves
/// for a switch direction, or none, the plan for it, or none. Spawning the
/// planned executable is the caller's part.
pub fn switch(execute_command: Option<&str>) -> (r: Option<CommandPlan>)
    ensures
        r is Some <==> execute_command is Some,
        execute_command matches Some(cmd) ==> (r matches Some(p) && plan_matches(cmd@, p)),
{
    match execute_command {
        Some(cmd) => Some(plan_command(cmd)),
        None => None,
    }
}

/// Splitting undoes joining: tokenizing the joined form of any argument list
/// yields the list unchanged.
pub fn join_then_split(tokens: &Vec<String>) -> (r: Vec<String>)
    ensures
        r.deep_view() == tokens.deep_view(),
{
    let line = join_words(tokens);
    match split_words(line.as_str()) {
        Ok(ts) => ts,
        Err(_) => {
            proof {
                assert(false);
            }
            unreached()
        },
    }
}

/// One captured output stream of a finished command, rendered for diagnosis.
pub enum StreamText {
    /// The stream carried no bytes.
    Empty,
    /// The stream decoded as UTF-8 text.
    Text(String),
    /// The stream carried bytes that are not valid UTF-8; that output existed
    /// is kept, its bytes are not.
    NotText,
}

/// How the command ended when it did not succeed.
pub enum FailureKind {
    /// It exited on its own with this non-zero code.
    ExitCode(i32),
    /// It was terminated by a signal, so no exit code exists.
    Signal,
}

/// A recoverable account of a failed command: how it ended and what it wrote,
/// for the caller to log.
pub struct CommandFailure {
    pub kind: FailureKind,
    pub stdout: StreamText,
    pub stderr: StreamText,
}

/// The rendering a captured stream calls for.
pub open spec fn stream_matches(bytes: Seq<u8>, t: StreamText) -> bool {
    match t {
        StreamText::Empty => bytes.len() == 0,
        StreamText::Text(s) => bytes.len() > 0 && utf8_decode(bytes) == Some(s@),
        StreamText::NotText => bytes.len() > 0 && utf8_decode(bytes) is None,
    }
}

/// Renders one captured stream: empty, decoded text, or a marker that output
/// existed without being valid text.
fn render_stream(bytes: Vec<u8>) -> (r: StreamText)
    ensures
        stream_matches(bytes@, r),
{
    if bytes.len() == 0 {
        StreamText::Empty
    } else {
        match decode_utf8(bytes) {
            Some(s) => StreamText::Text(s),
            None => StreamText::NotText,
        }
    }
}

/// Classifies a finished command from its exit code (none when a signal ended
/// it) and its captured streams: exit code zero is the one success, and every
/// failure keeps the code or the signal fact and both streams.
pub fn classify_output(exit_code: Option<i32>, stdout: Vec<u8>, stderr: Vec<u8>) -> (r: Result<
    (),
    CommandFailure,
>)
    ensures
        r is Ok <==> exit_code == Some(0i32),
        r matches Err(f) ==> match exit_code {
            Some(c) => f.kind == FailureKind::ExitCode(c),
            None => f.kind == FailureKind::Signal,
        },
        r matches Err(f) ==> stream_matches(stdout@, f.stdout) && stream_matches(
            stderr@,
            f.stderr,
        ),
{
    let succeeded = match &exit_code {
        Some(c) => *c == 0,
        None => false,
    };
    if succeeded {
        Ok(())
    } else {
        let kind = match exit_code {
            Some(c) => FailureKind::ExitCode(c),
            None => FailureKind::Signal,
        };
        Err(
            CommandFailure {
                kind,
                stdout: render_stream(stdout),
                stderr: render_stream(stderr),
            },
        )
    }
}

/// The first part of a failure message: the exit code or the signal fact.
pub open spec fn kind_text(k: FailureKind) -> Seq<char> {
    match k {
        FailureKind::ExitCode(c) => "Exited with status "@ + int_rep(c as int) + "\n"@,
        FailureKind::Signal => "Exited because of a signal\n"@,
    }
}

/// The standard-output part of a failure message.
pub open spec fn stdout_text(t: StreamText) -> Seq<char> {
    match t {
        StreamText::Empty => "No stdout\n"@,
        StreamText::Text(s) => "Stdout = ["@ + s@ + "]\n"@,
        StreamText::NotText => "Stdout was not UTF-8"@,
    }
}

/// The standard-error part of a failure message.
pub open spec fn stderr_text(t: StreamText) -> Seq<char> {
    match t {
        StreamText::Empty => "No stderr\n"@,
        StreamText::Text(s) => "Stderr = ["@ + s@ + "]\n"@,
        StreamText::NotText => "Stderr was not UTF-8"@,
    }
}

/// The whole failure message: how the command ended and both streams, each
/// part separated by one space.
pub open spec fn message_of(f: CommandFailure) -> Seq<char> {
    kind_text(f.kind) + " "@ + stdout_text(f.stdout) + " "@ + stderr_text(f.stderr)
}

impl CommandFailure {
    /// The descriptive message of this failure: the numeric exit code or the
    /// signal fact, then each captured stream as text, as a marker of absent
    /// output, or as a marker of output that was not valid text.
    pub fn message(&self) -> (r: String)
        ensures
            r@ == message_of(*self),
    {
        let mut m = match &self.kind {
            FailureKind::ExitCode(c) => {
                let mut k = String::from_str("Exited with status ");
                let digits = i32_to_decimal(*c);
                k.append(digits.as_str());
                k.append("\n");
                proof {
                    reveal_strlit("Exited with status ");
                    reveal_strlit("\n");
                    assert(k@ =~= kind_text(self.kind));
                }
                k
            },
            FailureKind::Signal => {
                let k = String::from_str("Exited because of a signal\n");
                proof {
                    reveal_strlit("Exited because of a signal\n");
                }
                k
            },
        };
        m.append(" ");
        match &self.stdout {
            StreamText::Empty => m.append("No stdout\n"),
            StreamText::Text(s) => {
                m.append("Stdout = [");
                m.append(s.as_str());
                m.append("]\n");
            },
            StreamText::NotText => m.append("Stdout was not UTF-8"),
        }
        proof {
            reveal_strlit(" ");
            reveal_strlit("No stdout\n");
            reveal_strlit("Stdout = [");
            reveal_strlit("]\n");
            reveal_strlit("Stdout was not UTF-8");
            assert(m@ =~= kind_text(self.kind) + " "@ + stdout_text(self.stdout));
        }
        m.append(" ");
        match &self.stderr {
            StreamText::Empty => m.append("No stderr\n"),
            StreamText::Text(s) => {
                m.append("Stderr = [");
                m.append(s.as_str());
                m.append("]\n");
            },
            StreamText::NotText => m.append("Stderr was not UTF-8"),
        }
        proof {
            reveal_strlit("No stderr\n");
            reveal_strlit("Stderr = [");
            reveal_strlit("Stderr was not UTF-8");
            assert(m@ =~= message_of(*self));
        }
        m
    }
}

} // verus!
