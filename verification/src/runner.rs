//! The command runner's rules: what is run how, how the output of a running
//! program is gathered line by line, how raw output becomes text and when an
//! exit counts as an error. Spawning and reading are the caller's part.

use crate::error::{outcome, Error, ErrorKind, RetryableCondition};
use crate::text::{push_text, texts};
use vstd::prelude::*;
use vstd::string::*;

verus! {

/// How a command is run.
#[derive(Clone, Copy, Debug, PartialEq, Eq, Structural)]
pub struct RunOptions {
    /// The program's error stream is merged into its output stream.
    pub capture_combined_stderr: bool,
    /// An exit with a failure is an error.
    pub enforce_zero_exit: bool,
    /// Every line goes to the sink as soon as it is read.
    pub emit_line_sink: bool,
}

/// How the output of a command is read.
#[derive(Clone, Copy, Debug, PartialEq, Eq, Structural)]
pub enum Reading {
    /// Line by line while the program runs, into an `OutputCollector`.
    Lines,
    /// The output stream as a whole once the program has ended, as UTF-16
    /// with the low byte first; the error stream is not read.
    Utf16Output,
    /// Both streams as a whole once the program has ended, as UTF-8.
    Utf8Streams,
}

/// A command line with the options to run it.
#[derive(Clone, Debug)]
pub struct Invocation {
    pub program: String,
    pub args: Vec<String>,
    pub options: RunOptions,
    pub reading: Reading,
}

/// What an `Invocation` stands for.
pub struct InvocationModel {
    pub program: Seq<char>,
    pub args: Seq<Seq<char>>,
    pub options: RunOptions,
    pub reading: Reading,
}

impl View for Invocation {
    type V = InvocationModel;

    open spec fn view(&self) -> InvocationModel {
        InvocationModel {
            program: self.program@,
            args: texts(self.args@),
            options: self.options,
            reading: self.reading,
        }
    }
}

/// How a program ended.
#[derive(Clone, Copy, Debug, PartialEq, Eq, Structural)]
pub struct ExitStatus {
    pub success: bool,
    /// The exit code, where the program ended with one.
    pub code: Option<i32>,
}

/// What a completed command gave.
#[derive(Clone, Debug)]
pub struct CommandResult {
    pub exit_success: bool,
    pub stdout: String,
    pub stderr: String,
}

/// What a `CommandResult` stands for.
pub struct CommandModel {
    pub exit_success: bool,
    pub stdout: Seq<char>,
    pub stderr: Seq<char>,
}

impl View for CommandResult {
    type V = CommandModel;

    open spec fn view(&self) -> CommandModel {
        CommandModel { exit_success: self.exit_success, stdout: self.stdout@, stderr: self.stderr@ }
    }
}

/// The number of lines of output that an error carries at most.
pub const TAIL_LINES: usize = 8;

/// The exit code with which a shell reports that it may not run a command.
pub const PERMISSION_DENIED_CODE: i32 = 126;

/// The lines one after the other, each followed by a line feed.
pub open spec fn concat_lines(lines: Seq<Seq<char>>) -> Seq<char>
    decreases lines.len(),
{
    if lines.len() == 0 {
        Seq::empty()
    } else {
        concat_lines(lines.drop_last()) + lines.last() + seq!['\n']
    }
}

/// The last `n` of `lines`, or all of them where there are fewer.
pub open spec fn last_lines(lines: Seq<Seq<char>>, n: nat) -> Seq<Seq<char>> {
    if lines.len() <= n {
        lines
    } else {
        lines.subrange(lines.len() - n, lines.len() as int)
    }
}

/// Gathers the output of a running program, line by line.
pub struct OutputCollector {
    options: RunOptions,
    lines: Vec<String>,
}

impl OutputCollector {
    /// The options that the command runs with.
    pub closed spec fn options(&self) -> RunOptions {
        self.options
    }

    /// The lines gathered so far, in the order in which they came.
    pub closed spec fn lines(&self) -> Seq<Seq<char>> {
        texts(self.lines@)
    }

    /// A collector that has gathered nothing yet.
    pub fn new(options: RunOptions) -> (r: OutputCollector)
        ensures
            r.options() == options,
            r.lines() == Seq::<Seq<char>>::empty(),
    {
        let r = OutputCollector { options, lines: Vec::new() };
        assert(r.lines() =~= Seq::<Seq<char>>::empty());
        r
    }

    /// Takes the next line of output. Returns the line for the sink where
    /// lines are emitted, before it joins the lines gathered.
    pub fn push_line(&mut self, line: String) -> (r: Option<String>)
        ensures
            final(self).options() == old(self).options(),
            final(self).lines() == old(self).lines().push(line@),
            match r {
                Some(sunk) => old(self).options().emit_line_sink && sunk@ == line@,
                None => !old(self).options().emit_line_sink,
            },
    {
        let emitted = if self.options.emit_line_sink {
            Some(line.clone())
        } else {
            None
        };
        self.lines.push(line);
        assert(self.lines() =~= old(self).lines().push(line@));
        emitted
    }

    /// All output gathered so far: every line, followed by a line feed.
    pub fn buffer(&self) -> (r: String)
        ensures
            r@ == concat_lines(self.lines()),
    {
        let mut r = String::new();
        let mut i: usize = 0;
        while i < self.lines.len()
            invariant
                i <= self.lines.len(),
                r@ == concat_lines(self.lines().subrange(0, i as int)),
            decreases self.lines.len() - i,
        {
            proof {
                reveal_strlit("\n");
                let next = self.lines().subrange(0, i + 1);
                assert(next.drop_last() =~= self.lines().subrange(0, i as int));
                assert(next.last() == self.lines[i as int]@);
                assert("\n"@ =~= seq!['\n']);
            }
            r.append(self.lines[i].as_str());
            r.append("\n");
            i += 1;
        }
        assert(self.lines().subrange(0, i as int) =~= self.lines());
        r
    }

    /// The last lines gathered, `TAIL_LINES` at most.
    pub fn tail(&self) -> (r: Vec<String>)
        ensures
            texts(r@) == last_lines(self.lines(), TAIL_LINES as nat),
    {
        let n = self.lines.len();
        let start: usize = if n <= TAIL_LINES {
            0
        } else {
            n - TAIL_LINES
        };
        let mut r: Vec<String> = Vec::new();
        let mut i: usize = start;
        while i < n
            invariant
                start <= i <= n == self.lines.len(),
                texts(r@) == self.lines().subrange(start as int, i as int),
            decreases n - i,
        {
            let line = self.lines[i].clone();
            let ghost before = r@;
            r.push(line);
            proof {
                let want = self.lines().subrange(start as int, i + 1);
                assert(texts(before).len() == before.len());
                assert forall|k: int| 0 <= k < want.len() implies texts(r@)[k] == want[k] by {
                    if k < before.len() {
                        assert(texts(before)[k] == before[k]@);
                        assert(self.lines().subrange(start as int, i as int)[k] == want[k]);
                    }
                }
                assert(texts(r@) =~= want);
            }
            i += 1;
        }
        assert(self.lines().subrange(0, n as int) =~= self.lines());
        r
    }

    /// The error for output that stopped being text in the middle: it carries
    /// the last lines read before and all of them.
    pub fn fail_decode(&self) -> (r: Error)
        ensures
            r.spec_kind() == ErrorKind::DecodeFailure,
            r matches Error::DecodeFailure { tail_lines, output } && texts(tail_lines@)
                == last_lines(self.lines(), TAIL_LINES as nat) && output@ == concat_lines(
                self.lines(),
            ),
    {
        Error::DecodeFailure { tail_lines: self.tail(), output: self.buffer() }
    }

    /// What the run comes to once the program has ended with `status`: an
    /// error where a failure counts as one, else the output gathered.
    pub fn finish(&self, status: ExitStatus) -> (r: Result<CommandResult, Error>)
        ensures
            outcome(r) == finished(self.options(), self.lines(), status),
            r matches Err(Error::NonZeroExit { tail_lines, .. }) ==> texts(tail_lines@)
                == last_lines(self.lines(), TAIL_LINES as nat),
    {
        if self.options.enforce_zero_exit && !status.success {
            Err(Error::NonZeroExit { tail_lines: self.tail(), code: status.code })
        } else {
            Ok(
                CommandResult {
                    exit_success: status.success,
                    stdout: self.buffer(),
                    stderr: String::new(),
                },
            )
        }
    }
}

/// What a run comes to that gathered `lines` and ended with `status`.
pub open spec fn finished(options: RunOptions, lines: Seq<Seq<char>>, status: ExitStatus) -> Result<
    CommandModel,
    ErrorKind,
> {
    if options.enforce_zero_exit && !status.success {
        Err(ErrorKind::NonZeroExit(status.code))
    } else {
        Ok(
            CommandModel {
                exit_success: status.success,
                stdout: concat_lines(lines),
                stderr: Seq::empty(),
            },
        )
    }
}

/// What the sink has received once `lines` have arrived: all of them in
/// order where lines are emitted, else nothing.
pub open spec fn emitted(options: RunOptions, lines: Seq<Seq<char>>) -> Seq<Seq<char>> {
    if options.emit_line_sink {
        lines
    } else {
        Seq::empty()
    }
}

/// The lines gathered and the lines handed to the sink once `arrived` have
/// been pushed, one after the other, to a collector that had gathered
/// `gathered` and handed `sunk` to the sink.
pub open spec fn pushed_all(
    options: RunOptions,
    gathered: Seq<Seq<char>>,
    sunk: Seq<Seq<char>>,
    arrived: Seq<Seq<char>>,
) -> (Seq<Seq<char>>, Seq<Seq<char>>)
    decreases arrived.len(),
{
    if arrived.len() == 0 {
        (gathered, sunk)
    } else {
        pushed_all(
            options,
            gathered.push(arrived[0]),
            if options.emit_line_sink {
                sunk.push(arrived[0])
            } else {
                sunk
            },
            arrived.drop_first(),
        )
    }
}

/// Pushing lines one after the other adds them, in their order, to the lines
/// gathered, and to what the sink received where lines are emitted.
pub proof fn lemma_pushed_all(
    options: RunOptions,
    gathered: Seq<Seq<char>>,
    sunk: Seq<Seq<char>>,
    arrived: Seq<Seq<char>>,
)
    ensures
        pushed_all(options, gathered, sunk, arrived) == (
            gathered + arrived,
            sunk + emitted(options, arrived),
        ),
    decreases arrived.len(),
{
    if arrived.len() == 0 {
        assert(gathered + arrived =~= gathered);
        assert(sunk + emitted(options, arrived) =~= sunk);
    } else {
        let rest = arrived.drop_first();
        let next_sunk = if options.emit_line_sink {
            sunk.push(arrived[0])
        } else {
            sunk
        };
        lemma_pushed_all(options, gathered.push(arrived[0]), next_sunk, rest);
        assert(gathered.push(arrived[0]) + rest =~= gathered + arrived);
        assert(next_sunk + emitted(options, rest) =~= sunk + emitted(options, arrived));
    }
}

/// A program that writes the lines `arrived` and exits with success: the
/// sink, where there is one, receives exactly these lines in their order,
/// and the result holds exactly these lines, each followed by a line feed.
pub proof fn lemma_lines_then_success(options: RunOptions, arrived: Seq<Seq<char>>, code: Option<i32>)
    ensures
        pushed_all(options, Seq::empty(), Seq::empty(), arrived) == (
            arrived,
            emitted(options, arrived),
        ),
        options.emit_line_sink ==> pushed_all(options, Seq::empty(), Seq::empty(), arrived).1
            == arrived,
        finished(
            options,
            pushed_all(options, Seq::empty(), Seq::empty(), arrived).0,
            ExitStatus { success: true, code },
        ) == Ok::<CommandModel, ErrorKind>(
            CommandModel { exit_success: true, stdout: concat_lines(arrived), stderr: Seq::empty() },
        ),
{
    lemma_pushed_all(options, Seq::empty(), Seq::empty(), arrived);
    assert(Seq::<Seq<char>>::empty() + arrived =~= arrived);
    assert(Seq::<Seq<char>>::empty() + emitted(options, arrived) =~= emitted(options, arrived));
}

/// The buffer grows by each line and a line feed, in the order of arrival.
pub proof fn lemma_concat_lines_push(lines: Seq<Seq<char>>, line: Seq<char>)
    ensures
        concat_lines(lines.push(line)) == concat_lines(lines) + line + seq!['\n'],
{
    assert(lines.push(line).drop_last() =~= lines);
}

/// The command line for `program` with `args`. The error stream is always
/// merged into the output; `emit_event` sends each line to the sink, and
/// `check_status` makes an exit with a failure an error.
pub fn exec_script(program: &str, args: Vec<String>, emit_event: bool, check_status: bool) -> (r:
    Invocation)
    ensures
        r@ == streamed(program@, texts(args@), emit_event, check_status),
{
    Invocation {
        program: program.to_owned(),
        args,
        options: RunOptions {
            capture_combined_stderr: true,
            enforce_zero_exit: check_status,
            emit_line_sink: emit_event,
        },
        reading: Reading::Lines,
    }
}

/// The command line for `program` with `args` whose output is read line by
/// line, with the error stream merged into it.
pub open spec fn streamed(
    program: Seq<char>,
    args: Seq<Seq<char>>,
    emit_event: bool,
    check_status: bool,
) -> InvocationModel {
    InvocationModel {
        program,
        args,
        options: RunOptions {
            capture_combined_stderr: true,
            enforce_zero_exit: check_status,
            emit_line_sink: emit_event,
        },
        reading: Reading::Lines,
    }
}

/// The shell of Windows.
pub const WINDOWS_SHELL: &'static str = "cmd";

/// What tells the shell of Windows to run what follows and end.
pub const WINDOWS_SHELL_RUN: &'static str = "/C";

/// The command line that has the shell of Windows run `args`, read as
/// `reading` says. Nothing is emitted, and an exit with a failure is no
/// error: the result says how the command ended.
pub open spec fn shell_command(args: Seq<Seq<char>>, reading: Reading) -> InvocationModel {
    InvocationModel {
        program: WINDOWS_SHELL@,
        args: seq![WINDOWS_SHELL_RUN@] + args,
        options: RunOptions {
            capture_combined_stderr: false,
            enforce_zero_exit: false,
            emit_line_sink: false,
        },
        reading,
    }
}

/// The command line that has the shell of Windows run `args`.
pub fn windows_shell(args: &Vec<String>, reading: Reading) -> (r: Invocation)
    ensures
        r@ == shell_command(texts(args@), reading),
{
    let mut all: Vec<String> = Vec::new();
    assert(texts(all@) =~= Seq::<Seq<char>>::empty());
    push_text(&mut all, WINDOWS_SHELL_RUN);
    let mut i: usize = 0;
    while i < args.len()
        invariant
            i <= args.len(),
            texts(all@) == seq![WINDOWS_SHELL_RUN@] + texts(args@).subrange(0, i as int),
        decreases args.len() - i,
    {
        assert(texts(args@).len() == args@.len());
        push_text(&mut all, args[i].as_str());
        assert(texts(all@) =~= seq![WINDOWS_SHELL_RUN@] + texts(args@).subrange(0, i + 1));
        i += 1;
    }
    assert(texts(args@).subrange(0, args@.len() as int) =~= texts(args@));
    assert(texts(args@).len() == args@.len());
    Invocation {
        program: WINDOWS_SHELL.to_owned(),
        args: all,
        options: RunOptions {
            capture_combined_stderr: false,
            enforce_zero_exit: false,
            emit_line_sink: false,
        },
        reading,
    }
}

/// The front-end that asks the user for elevated rights.
pub const ELEVATION_PROGRAM: &'static str = "/usr/bin/pkexec";

/// The shell that runs a script under the front-end.
pub const ELEVATED_SHELL: &'static str = "/usr/bin/sh";

/// The command line that runs the script at `script` with elevated rights:
/// lines are emitted and an exit with a failure is an error.
pub fn elevated_script(script: &str) -> (r: Invocation)
    ensures
        r@ == streamed(ELEVATION_PROGRAM@, seq![ELEVATED_SHELL@, script@], true, true),
{
    let mut args: Vec<String> = Vec::new();
    args.push(ELEVATED_SHELL.to_owned());
    args.push(script.to_owned());
    assert(texts(args@) =~= seq![ELEVATED_SHELL@, script@]);
    exec_script(ELEVATION_PROGRAM, args, true, true)
}

/// What the caller of an elevated script learns from the outcome of running
/// it: the refusal of the front-end, an exit with the code
/// `PERMISSION_DENIED_CODE` that counts as an error, becomes the condition
/// `PermissionDenied`, on which the caller asks again; every other outcome
/// stays as it is.
pub open spec fn after_elevation(ran: Result<CommandModel, ErrorKind>) -> Result<
    CommandModel,
    ErrorKind,
> {
    if ran == Err::<CommandModel, ErrorKind>(ErrorKind::NonZeroExit(Some(PERMISSION_DENIED_CODE))) {
        Err(ErrorKind::Retry(RetryableCondition::PermissionDenied))
    } else {
        ran
    }
}

/// What the caller of an elevated script gets for `result`, the result of
/// running it.
pub fn copy_and_exec(result: Result<CommandResult, Error>) -> (r: Result<CommandResult, Error>)
    ensures
        outcome(r) == after_elevation(outcome(result)),
        outcome(r) == outcome(result) ==> r == result,
{
    match result {
        Err(Error::NonZeroExit { tail_lines, code }) => {
            if code == Some(PERMISSION_DENIED_CODE) {
                Err(Error::RetryError(RetryableCondition::PermissionDenied))
            } else {
                Err(Error::NonZeroExit { tail_lines, code })
            }
        },
        other => other,
    }
}

/// An elevated script that exits with the code of a refusal never ends in a
/// hard failure: whatever it printed, the caller gets the condition
/// `PermissionDenied`.
pub proof fn lemma_refusal_is_retryable(options: RunOptions, lines: Seq<Seq<char>>)
    requires
        options.enforce_zero_exit,
    ensures
        after_elevation(
            finished(
                options,
                lines,
                ExitStatus { success: false, code: Some(PERMISSION_DENIED_CODE) },
            ),
        ) == Err::<CommandModel, ErrorKind>(ErrorKind::Retry(RetryableCondition::PermissionDenied)),
{
}

} // verus!
