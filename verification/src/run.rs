//! The life of one container, from its start to its removal.
//!
//! A container is started, waited for, asked for its logs and removed. Each of these takes one
//! run of docker, which the caller performs. A stage gives the command to run; what came of it
//! decides how the run goes on.
use vstd::prelude::*;
use vstd::string::*;
use vstd::utf8::{encode_utf8, encode_utf8_decode_utf8, encode_utf8_valid_utf8};

use tokio::time::error::Elapsed;

use crate::command::{
    logs_command, logs_of, removal_command, removal_of, wait_command, wait_for, Command,
    CommandView,
};
use crate::duration::Duration;
use crate::error::{Error, Outcome, Result};
use crate::output::{ExitStatus, Output, OutputView};
use crate::text::{
    decimal, first_line, first_line_ends_at_line_feed, from_utf8_lossy, get_first_line, i32_value,
    is_digit, is_number, is_whitespace, is_word, lemma_signed_decimal, lemma_unsigned_decimal,
    lemma_word_line, lossy_agrees, number_value, only_signed_numbers_are_read,
    only_unsigned_numbers_are_read, parse_i32, parse_u32, signed_decimal, signed_numbers_are_read,
    trim, trimmed, trimming_leaves_the_core, u32_value, unsigned_numbers_are_read, utf8_lossy,
};

verus! {

// ---------------------------------------------------------------------------
// Replies of docker
// ---------------------------------------------------------------------------
/// The name of a container in what docker prints when it has started one: the first line, without
/// the white space around it.
pub open spec fn id_in(text: Seq<char>) -> Option<Seq<char>> {
    match first_line(text) {
        Some(line) => Some(trimmed(line)),
        None => None,
    }
}

/// What docker reports by printing `text`: the first line, if there is one, without the white
/// space around it.
pub open spec fn report_in(text: Seq<char>) -> Seq<char> {
    match first_line(text) {
        Some(line) => trimmed(line),
        None => Seq::empty(),
    }
}

/// The exit code in what docker prints when a container has stopped: the number in the first
/// line, or the largest there is where that line holds none.
pub open spec fn code_in(text: Seq<char>) -> i32 {
    match i32_value(report_in(text)) {
        Some(code) => code,
        None => i32::MAX,
    }
}

/// The exit code in what docker prints when a container has stopped, on systems whose exit codes
/// have no sign: the number in the first line, or the largest there is where that line holds none.
pub open spec fn unsigned_code_in(text: Seq<char>) -> u32 {
    match u32_value(report_in(text)) {
        Some(code) => code,
        None => u32::MAX,
    }
}

/// The `i32` with the same bits as `code`, by which an exit code without a sign is known.
pub open spec fn with_sign(code: u32) -> i32 {
    if code <= i32::MAX {
        code as i32
    } else {
        (code - 0x1_0000_0000) as i32
    }
}

/// Whether the exit codes of a system have a sign.
pub enum Codes {
    Signed,
    Unsigned,
}

/// The status that docker reports, when a container has stopped, by printing `text`.
pub open spec fn status_in(codes: Codes, text: Seq<char>) -> ExitStatus {
    match codes {
        Codes::Signed => ExitStatus::Exited(code_in(text)),
        Codes::Unsigned => ExitStatus::Exited(with_sign(unsigned_code_in(text))),
    }
}

/// Docker's report of an exit code without a sign, a number on a line of its own, is read as that
/// code.
pub proof fn lemma_unsigned_code_in(code: u32)
    ensures
        unsigned_code_in(decimal(code as nat).push('\n')) == code,
{
    lemma_unsigned_decimal(code);
    lemma_word_line(decimal(code as nat));
}

/// Docker's report of an exit code, a number on a line of its own, is read as that code.
pub proof fn lemma_code_in(code: i32)
    ensures
        code_in(signed_decimal(code as int).push('\n')) == code,
{
    lemma_signed_decimal(code);
    lemma_word_line(signed_decimal(code as int));
}

/// Docker's report of a container, its name on a line of its own, is read as that name.
pub proof fn lemma_id_in(id: Seq<char>)
    requires
        is_word(id),
    ensures
        id_in(id.push('\n')) == Some(id),
{
    lemma_word_line(id);
}

/// What docker prints is read up to the first line feed, and without the white space around it;
/// nothing else is taken away, and what stands behind the first line does not matter. Only where
/// docker prints nothing at all is there nothing to read.
pub proof fn first_line_is_read_whole(
    before: Seq<char>,
    core: Seq<char>,
    after: Seq<char>,
    tail: Seq<char>,
)
    requires
        forall|i: int| 0 <= i < before.len() ==> is_whitespace(#[trigger] before[i]),
        forall|i: int| 0 <= i < before.len() ==> before[i] != '\n',
        forall|i: int| 0 <= i < after.len() ==> is_whitespace(#[trigger] after[i]),
        forall|i: int| 0 <= i < after.len() ==> after[i] != '\n',
        forall|i: int| 0 <= i < core.len() ==> core[i] != '\n',
        core.len() > 0 ==> !is_whitespace(core[0]) && !is_whitespace(core[core.len() - 1]),
        tail.len() > 0 ==> tail[0] == '\n',
    ensures
        id_in(Seq::empty()) is None,
        report_in(Seq::empty()) == Seq::<char>::empty(),
        (before + core + after + tail).len() > 0 ==> id_in(before + core + after + tail) == Some(
            core,
        ),
        report_in(before + core + after + tail) == core,
{
    let line = before + core + after;
    let text = line + tail;
    assert forall|i: int| 0 <= i < line.len() implies line[i] != '\n' by {
        if i < before.len() {
            assert(line[i] == before[i]);
        } else if i < before.len() + core.len() {
            assert(line[i] == core[i - before.len()]);
        } else {
            assert(line[i] == after[i - before.len() - core.len()]);
        }
    }
    trimming_leaves_the_core(before, core, after);
    if tail.len() == 0 {
        assert(text =~= line);
        first_line_ends_at_line_feed(line, tail);
        if line.len() == 0 {
            assert(core =~= Seq::<char>::empty());
        }
    } else {
        let rest = tail.drop_first();
        if line.len() > 0 && line.last() == '\r' {
            let cut = line.drop_last();
            assert(text =~= cut + seq!['\r', '\n'] + rest);
            first_line_ends_at_line_feed(cut, rest);
            if after.len() > 0 {
                assert(cut =~= before + core + after.drop_last());
                trimming_leaves_the_core(before, core, after.drop_last());
            } else if core.len() > 0 {
                assert(line.last() == core[core.len() - 1]);
                assert(is_whitespace('\r'));
            } else {
                assert(cut =~= before.drop_last() + core + after);
                trimming_leaves_the_core(before.drop_last(), core, after);
            }
        } else {
            assert(text =~= line.push('\n') + rest);
            first_line_ends_at_line_feed(line, rest);
        }
    }
}

/// The exit code is the number that docker reports, signed or not, and the largest there is where
/// it reports anything else or a number that is too large.
pub proof fn exit_code_is_the_number_reported(text: Seq<char>, digits: Seq<char>)
    requires
        is_number(digits),
    ensures
        ({
            let n = number_value(digits) as int;
            &&& report_in(text) == digits || report_in(text) == seq!['+'] + digits ==> {
                &&& n <= 0x7fff_ffff ==> code_in(text) == n
                &&& n > 0x7fff_ffff ==> code_in(text) == 0x7fff_ffff
                &&& n <= 0xffff_ffff ==> unsigned_code_in(text) == n
                &&& n > 0xffff_ffff ==> unsigned_code_in(text) == 0xffff_ffff
            }
            &&& report_in(text) == seq!['-'] + digits ==> {
                &&& n <= 0x8000_0000 ==> code_in(text) == -n
                &&& n > 0x8000_0000 ==> code_in(text) == 0x7fff_ffff
                &&& unsigned_code_in(text) == 0xffff_ffff
            }
        }),
{
    signed_numbers_are_read(digits);
    unsigned_numbers_are_read(digits);
    let minus = seq!['-'] + digits;
    if u32_value(minus) is Some {
        only_unsigned_numbers_are_read(minus);
        assert(is_digit(minus[0]));
    }
}

/// Where docker's report is no number there is no exit code but the largest.
pub proof fn no_number_is_no_exit_code(text: Seq<char>)
    requires
        !is_number(report_in(text)),
        report_in(text).len() > 0 ==> !((report_in(text)[0] == '-' || report_in(text)[0] == '+')
            && is_number(report_in(text).drop_first())),
    ensures
        code_in(text) == 0x7fff_ffff,
        unsigned_code_in(text) == 0xffff_ffff,
{
    if i32_value(report_in(text)) is Some {
        only_signed_numbers_are_read(report_in(text));
    }
    if u32_value(report_in(text)) is Some {
        only_unsigned_numbers_are_read(report_in(text));
    }
}

/// A container's status is that it exited with the code that docker reports. A code without a sign
/// that an `i32` can hold stays as it is, and a larger one wraps around.
pub proof fn status_is_the_code_reported(text: Seq<char>)
    ensures
        status_in(Codes::Signed, text) == ExitStatus::Exited(code_in(text)),
        status_in(Codes::Unsigned, text) matches ExitStatus::Exited(code) && code == if (
        unsigned_code_in(text) <= 0x7fff_ffff) {
            unsigned_code_in(text) as int
        } else {
            unsigned_code_in(text) - 0x1_0000_0000
        },
{
}

/// The name of a container in what docker prints when it has started one.
pub fn container_id(text: &str) -> (res: Result<String>)
    ensures
        match id_in(text@) {
            Some(id) => res matches Ok(s) && s@ == id,
            None => res == Err::<String, Error>(Error::MissingCompilerId),
        },
{
    match get_first_line(text) {
        Some(line) => Ok(trim(line).to_string()),
        None => Err(Error::MissingCompilerId),
    }
}

fn reported(text: &str) -> (report: &str)
    ensures
        report@ == report_in(text@),
{
    match get_first_line(text) {
        Some(line) => trim(line),
        None => {
            proof {
                reveal_strlit("");
            }
            assert(""@ =~= Seq::<char>::empty());
            ""
        },
    }
}

/// The exit code in what docker prints when a container has stopped.
pub fn exit_code(text: &str) -> (code: i32)
    ensures
        code == code_in(text@),
{
    match parse_i32(reported(text)) {
        Some(code) => code,
        None => i32::MAX,
    }
}

/// The exit code in what docker prints when a container has stopped, on systems whose exit codes
/// have no sign.
pub fn exit_code_unsigned(text: &str) -> (code: u32)
    ensures
        code == unsigned_code_in(text@),
{
    match parse_u32(reported(text)) {
        Some(code) => code,
        None => u32::MAX,
    }
}

// ---------------------------------------------------------------------------
// Stages
// ---------------------------------------------------------------------------
/// What is known of a run that has not started yet.
pub struct LaunchView {
    pub command: CommandView,
    pub hard_timeout: Duration,
}

/// What is known of a run once its container has been started.
pub struct WaitView {
    pub id: Seq<char>,
    pub hard_timeout: Duration,
}

/// What is known of a run once its container has stopped, or has run out of time.
pub struct LogsView {
    pub id: Seq<char>,
    pub hard_timeout: Duration,
    pub waited: core::result::Result<ExitStatus, Elapsed>,
}

/// What is known of a run once its output has been collected.
pub struct RemovalView {
    pub logs: LogsView,
    pub output: OutputView,
}

/// What starting a container leads to.
pub enum LaunchedView {
    /// Docker did not start the container, and left this.
    Refused(OutputView),
    /// The container runs.
    Running(WaitView),
}

impl WaitView {
    /// The command of this stage.
    pub open spec fn command(self) -> CommandView {
        wait_for(self.id)
    }
}

impl LogsView {
    /// The command of this stage.
    pub open spec fn command(self) -> CommandView {
        logs_of(self.id)
    }
}

impl RemovalView {
    /// The command of this stage.
    pub open spec fn command(self) -> CommandView {
        removal_of(self.logs.id)
    }
}

/// What follows an attempt to start a container.
pub open spec fn after_launch(
    launch: LaunchView,
    ran: Outcome<OutputView>,
) -> Result<LaunchedView> {
    match ran {
        Err(source) => Err(Error::UnableToStartCompiler { source }),
        Ok(output) => if !output.status.is_success() {
            Ok(LaunchedView::Refused(output))
        } else {
            match id_in(utf8_lossy(output.stdout)) {
                None => Err(Error::MissingCompilerId),
                Some(id) => Ok(
                    LaunchedView::Running(WaitView { id, hard_timeout: launch.hard_timeout }),
                ),
            }
        },
    }
}

/// What follows the wait for a container: it ended, it could not be waited for, or the time ran
/// out.
pub open spec fn after_wait(
    codes: Codes,
    wait: WaitView,
    ran: core::result::Result<Outcome<OutputView>, Elapsed>,
) -> Result<LogsView> {
    let WaitView { id, hard_timeout } = wait;
    match ran {
        Ok(Ok(output)) => {
            let status = status_in(codes, utf8_lossy(output.stdout));
            Ok(LogsView { id, hard_timeout, waited: Ok(status) })
        },
        Ok(Err(source)) => Err(Error::UnableToWaitForCompiler { source }),
        Err(elapsed) => Ok(LogsView { id, hard_timeout, waited: Err(elapsed) }),
    }
}

/// What follows the attempt to collect the output of a container.
pub open spec fn after_logs(logs: LogsView, ran: Outcome<OutputView>) -> Result<RemovalView> {
    match ran {
        Err(source) => Err(Error::UnableToGetOutputFromCompiler { source }),
        Ok(output) => Ok(RemovalView { logs, output }),
    }
}

/// What the run comes to, once the command that removes its container has been run.
pub open spec fn after_removal(
    removal: RemovalView,
    ran: Outcome<ExitStatus>,
) -> Result<OutputView> {
    match ran {
        Err(source) => Err(Error::UnableToRemoveCompiler { source }),
        Ok(_) => match removal.logs.waited {
            Err(source) => Err(
                Error::CompilerExecutionTimedOut { source, timeout: removal.logs.hard_timeout },
            ),
            Ok(status) => Ok(OutputView { status, ..removal.output }),
        },
    }
}

/// The output that a run of a program left, as a value of the specification.
pub open spec fn ran_view(ran: Outcome<Output>) -> Outcome<OutputView> {
    match ran {
        Ok(output) => Ok(output@),
        Err(e) => Err(e),
    }
}

/// The output that a run with a limit left, as a value of the specification.
pub open spec fn limited_view(
    ran: core::result::Result<Outcome<Output>, Elapsed>,
) -> core::result::Result<Outcome<OutputView>, Elapsed> {
    match ran {
        Ok(ran) => Ok(ran_view(ran)),
        Err(e) => Err(e),
    }
}

/// A run that has not started yet.
#[derive(Debug)]
pub struct Launch {
    command: Command,
    hard_timeout: Duration,
}

/// A run whose container has been started.
#[derive(Debug)]
pub struct Wait {
    id: String,
    hard_timeout: Duration,
}

/// A run whose container has stopped, or has run out of time.
#[derive(Debug)]
pub struct Logs {
    id: String,
    hard_timeout: Duration,
    waited: core::result::Result<ExitStatus, Elapsed>,
}

/// A run whose output has been collected.
#[derive(Debug)]
pub struct Removal {
    logs: Logs,
    output: Output,
}

/// What starting a container leads to.
#[derive(Debug)]
pub enum Launched {
    /// Docker did not start the container, and left this.
    Refused(Output),
    /// The container runs.
    Running(Wait),
}

impl View for Launch {
    type V = LaunchView;

    closed spec fn view(&self) -> LaunchView {
        LaunchView { command: self.command@, hard_timeout: self.hard_timeout }
    }
}

impl View for Wait {
    type V = WaitView;

    closed spec fn view(&self) -> WaitView {
        WaitView { id: self.id@, hard_timeout: self.hard_timeout }
    }
}

impl View for Logs {
    type V = LogsView;

    closed spec fn view(&self) -> LogsView {
        LogsView { id: self.id@, hard_timeout: self.hard_timeout, waited: self.waited }
    }
}

impl View for Removal {
    type V = RemovalView;

    closed spec fn view(&self) -> RemovalView {
        RemovalView { logs: self.logs@, output: self.output@ }
    }
}

impl View for Launched {
    type V = LaunchedView;

    open spec fn view(&self) -> LaunchedView {
        match self {
            Launched::Refused(output) => LaunchedView::Refused(output@),
            Launched::Running(wait) => LaunchedView::Running(wait@),
        }
    }
}

/// Begins the run of a container that `command` starts, and that may run for `hard_timeout`.
pub fn run_command_with_timeout(command: Command, hard_timeout: Duration) -> (launch: Launch)
    ensures
        launch@ == (LaunchView { command: command@, hard_timeout }),
{
    Launch { command, hard_timeout }
}

impl Launch {
    /// The command that starts the container. It is to be run to its end.
    pub fn command(&self) -> (command: &Command)
        ensures
            command@ == self@.command,
    {
        &self.command
    }

    /// Goes on once the command has been run.
    pub fn resume(self, ran: Outcome<Output>) -> (res: Result<Launched>)
        ensures
            match after_launch(self@, ran_view(ran)) {
                Ok(next) => res matches Ok(launched) && launched@ == next,
                Err(e) => res == Err::<Launched, Error>(e),
            },
            ran matches Ok(output) ==> output.status.is_success() ==> lossy_agrees(output.stdout@),
            // The container is the one that docker names, whole.
            forall|id: Seq<char>|
                ran matches Ok(output) && output.status == ExitStatus::Exited(0) && output.stdout@
                    == #[trigger] encode_utf8(id.push('\n')) && id.len() > 0 && (forall|i: int|
                    0 <= i < id.len() ==> !is_whitespace(#[trigger] id[i])) ==> (
                res matches Ok(Launched::Running(wait)) && wait@.id == id && wait@.hard_timeout
                    == self@.hard_timeout),
            // A container that docker did not start leaves what docker left.
            ran matches Ok(output) ==> output.status != ExitStatus::Exited(0) ==> (
            res matches Ok(Launched::Refused(left)) && left.status == output.status && left.stdout@
                == output.stdout@ && left.stderr@ == output.stderr@),
            ran matches Ok(output) ==> output.status == ExitStatus::Exited(0) ==> (res
                == Err::<Launched, Error>(Error::MissingCompilerId) <==> output.stdout@.len()
                == 0),
            ran matches Ok(output) ==> output.status == ExitStatus::Exited(0)
                && output.stdout@.len() > 0 ==> (res matches Ok(Launched::Running(wait))
                && wait@.hard_timeout == self@.hard_timeout),
            ran matches Err(source) ==> res == Err::<Launched, Error>(
                Error::UnableToStartCompiler { source },
            ),
    {
        let output = match ran {
            Ok(output) => output,
            Err(source) => {
                return Err(Error::UnableToStartCompiler { source });
            },
        };
        // Exit early, in case we don't have the container
        if !output.status.success() {
            return Ok(Launched::Refused(output));
        }
        let text = from_utf8_lossy(output.stdout.as_slice());
        proof {
            assert forall|id: Seq<char>|
                output.stdout@ == #[trigger] encode_utf8(id.push('\n')) && id.len() > 0 && (
                forall|i: int|
                    0 <= i < id.len() ==> !is_whitespace(#[trigger] id[i])) implies id_in(text@)
                == Some(id) by {
                encode_utf8_valid_utf8(id.push('\n'));
                encode_utf8_decode_utf8(id.push('\n'));
                lemma_id_in(id);
            }
        }
        match container_id(text.as_str()) {
            Ok(id) => Ok(Launched::Running(Wait { id, hard_timeout: self.hard_timeout })),
            Err(e) => Err(e),
        }
    }
}

impl Wait {
    /// The command that ends when the container does. It is to be run to its end, but for no
    /// longer than the hard timeout.
    pub fn command(&self) -> (command: Command)
        ensures
            command@ == self@.command(),
            command@.program == "docker"@,
            command@.args == seq!["wait"@, self@.id],
            !command@.kill_on_drop && !command@.discard_stdout,
    {
        wait_command(self.id.as_str())
    }

    /// How long the container may run.
    pub fn hard_timeout(&self) -> (timeout: Duration)
        ensures
            timeout == self@.hard_timeout,
    {
        self.hard_timeout
    }

    /// Goes on once the command has been run, or has run out of time, on a system whose exit codes
    /// have a sign.
    pub fn resume(self, ran: core::result::Result<Outcome<Output>, Elapsed>) -> (res: Result<Logs>)
        ensures
            match after_wait(Codes::Signed, self@, limited_view(ran)) {
                Ok(next) => res matches Ok(logs) && logs@ == next,
                Err(e) => res == Err::<Logs, Error>(e),
            },
            ran matches Ok(Ok(output)) ==> lossy_agrees(output.stdout@),
            forall|code: i32|
                ran matches Ok(Ok(output)) && output.stdout@ == encode_utf8(
                    (#[trigger] signed_decimal(code as int)).push('\n'),
                ) ==> (res matches Ok(logs) && logs@.waited == Ok::<ExitStatus, Elapsed>(
                    ExitStatus::Exited(code),
                )),
            // Whether it ended in time or not, it stays the same container.
            ran matches Ok(Ok(output)) ==> (res matches Ok(logs) && logs@.id == self@.id
                && logs@.hard_timeout == self@.hard_timeout && logs@.waited is Ok),
            ran matches Err(elapsed) ==> (res matches Ok(logs) && logs@.id == self@.id
                && logs@.hard_timeout == self@.hard_timeout && logs@.waited == Err::<
                ExitStatus,
                Elapsed,
            >(elapsed)),
            ran matches Ok(Err(source)) ==> res == Err::<Logs, Error>(
                Error::UnableToWaitForCompiler { source },
            ),
    {
        let waited = match ran {
            Ok(Ok(output)) => {
                let text = from_utf8_lossy(output.stdout.as_slice());
                Ok(ExitStatus::Exited(exit_code(text.as_str())))
            },
            Ok(Err(source)) => {
                return Err(Error::UnableToWaitForCompiler { source });
            },
            Err(elapsed) => Err(elapsed),
        };
        proof {
            assert forall|code: i32|
                ran matches Ok(Ok(output)) && output.stdout@ == encode_utf8(
                    (#[trigger] signed_decimal(code as int)).push('\n'),
                ) implies waited == Ok::<ExitStatus, Elapsed>(ExitStatus::Exited(code)) by {
                let text = signed_decimal(code as int).push('\n');
                encode_utf8_valid_utf8(text);
                encode_utf8_decode_utf8(text);
                lemma_code_in(code);
            }
        }
        Ok(Logs { id: self.id, hard_timeout: self.hard_timeout, waited })
    }

    /// Goes on once the command has been run, or has run out of time, on a system whose exit codes
    /// have no sign.
    pub fn resume_unsigned(self, ran: core::result::Result<Outcome<Output>, Elapsed>) -> (res:
        Result<Logs>)
        ensures
            match after_wait(Codes::Unsigned, self@, limited_view(ran)) {
                Ok(next) => res matches Ok(logs) && logs@ == next,
                Err(e) => res == Err::<Logs, Error>(e),
            },
            ran matches Ok(Ok(output)) ==> lossy_agrees(output.stdout@),
            forall|code: u32|
                ran matches Ok(Ok(output)) && output.stdout@ == encode_utf8(
                    (#[trigger] decimal(code as nat)).push('\n'),
                ) ==> (res matches Ok(logs) && logs@.waited == Ok::<ExitStatus, Elapsed>(
                    ExitStatus::Exited(with_sign(code)),
                )),
            // Whether it ended in time or not, it stays the same container.
            ran matches Ok(Ok(output)) ==> (res matches Ok(logs) && logs@.id == self@.id
                && logs@.hard_timeout == self@.hard_timeout && logs@.waited is Ok),
            ran matches Err(elapsed) ==> (res matches Ok(logs) && logs@.id == self@.id
                && logs@.hard_timeout == self@.hard_timeout && logs@.waited == Err::<
                ExitStatus,
                Elapsed,
            >(elapsed)),
            ran matches Ok(Err(source)) ==> res == Err::<Logs, Error>(
                Error::UnableToWaitForCompiler { source },
            ),
    {
        let waited = match ran {
            Ok(Ok(output)) => {
                let text = from_utf8_lossy(output.stdout.as_slice());
                let code: u32 = exit_code_unsigned(text.as_str());
                let code: i32 = if code <= 0x7fff_ffff {
                    code as i32
                } else {
                    (code as i64 - 0x1_0000_0000) as i32
                };
                Ok(ExitStatus::Exited(code))
            },
            Ok(Err(source)) => {
                return Err(Error::UnableToWaitForCompiler { source });
            },
            Err(elapsed) => Err(elapsed),
        };
        proof {
            assert forall|code: u32|
                ran matches Ok(Ok(output)) && output.stdout@ == encode_utf8(
                    (#[trigger] decimal(code as nat)).push('\n'),
                ) implies waited == Ok::<ExitStatus, Elapsed>(
                ExitStatus::Exited(with_sign(code)),
            ) by {
                let text = decimal(code as nat).push('\n');
                encode_utf8_valid_utf8(text);
                encode_utf8_decode_utf8(text);
                lemma_unsigned_code_in(code);
            }
        }
        Ok(Logs { id: self.id, hard_timeout: self.hard_timeout, waited })
    }
}

impl Logs {
    /// The command that prints what the container has written. It is to be run to its end.
    pub fn command(&self) -> (command: Command)
        ensures
            command@ == self@.command(),
            command@.program == "docker"@,
            command@.args == seq!["logs"@, self@.id],
            !command@.kill_on_drop && !command@.discard_stdout,
    {
        logs_command(self.id.as_str())
    }

    /// Goes on once the command has been run.
    pub fn resume(self, ran: Outcome<Output>) -> (res: Result<Removal>)
        ensures
            match after_logs(self@, ran_view(ran)) {
                Ok(next) => res matches Ok(removal) && removal@ == next,
                Err(e) => res == Err::<Removal, Error>(e),
            },
            ran matches Ok(output) ==> (res matches Ok(removal) && removal@.logs == self@
                && removal@.output.stdout == output.stdout@ && removal@.output.stderr
                == output.stderr@),
            ran matches Err(source) ==> res == Err::<Removal, Error>(
                Error::UnableToGetOutputFromCompiler { source },
            ),
    {
        match ran {
            Ok(output) => Ok(Removal { logs: self, output }),
            Err(source) => Err(Error::UnableToGetOutputFromCompiler { source }),
        }
    }
}

impl Removal {
    /// The command that removes the container, and kills it if it is still running.
    pub fn command(&self) -> (command: Command)
        ensures
            command@ == self@.command(),
            command@.program == "docker"@,
            command@.args == seq!["rm"@, "--force"@, self@.logs.id],
            !command@.kill_on_drop && command@.discard_stdout,
    {
        removal_command(self.logs.id.as_str())
    }

    /// Ends the run once the command has been run.
    pub fn resume(self, ran: Outcome<ExitStatus>) -> (res: Result<Output>)
        ensures
            match after_removal(self@, ran) {
                Ok(next) => res matches Ok(output) && output@ == next,
                Err(e) => res == Err::<Output, Error>(e),
            },
            ran is Ok ==> (self@.logs.waited matches Ok(status) ==> (res matches Ok(output)
                && output.status == status && output.stdout@ == self@.output.stdout
                && output.stderr@ == self@.output.stderr)),
            ran is Ok ==> (self@.logs.waited matches Err(source) ==> res == Err::<Output, Error>(
                Error::CompilerExecutionTimedOut { source, timeout: self@.logs.hard_timeout },
            )),
            ran matches Err(source) ==> res == Err::<Output, Error>(
                Error::UnableToRemoveCompiler { source },
            ),
    {
        match ran {
            Ok(_) => {},
            Err(source) => {
                return Err(Error::UnableToRemoveCompiler { source });
            },
        }
        match self.logs.waited {
            Ok(status) => Ok(
                Output { status, stdout: self.output.stdout, stderr: self.output.stderr },
            ),
            Err(source) => Err(
                Error::CompilerExecutionTimedOut { source, timeout: self.logs.hard_timeout },
            ),
        }
    }
}

} // verus!
