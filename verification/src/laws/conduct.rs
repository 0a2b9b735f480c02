//! What a sandbox does, told by what goes into it and what comes out of it.
use vstd::prelude::*;
use vstd::utf8::{
    decode_utf8, encode_utf8, encode_utf8_decode_utf8, encode_utf8_valid_utf8, valid_utf8,
};

use tokio::time::error::Elapsed;

use crate::builder::{
    ordered, BuilderView, PreparationView, DOCKER_PROCESS_TIMEOUT_HARD,
    DOCKER_PROCESS_TIMEOUT_SOFT,
};
use crate::command::{texts, CommandView};
use crate::completed::{text_read, CompletedView};
use crate::duration::{lemma_seconds, Duration};
use crate::error::{Error, Outcome};
use crate::laws::{lemma_volume_args, lemma_volume_args_len, run_commands, run_result, Replies};
use crate::mount::{MountId, MountView, RequestView};
use crate::output::{ExitStatus, Output, OutputView};
use crate::path::{
    unix_paths_are_joined_by_a_slash, windows_paths_are_joined_by_a_backslash, PathStyle,
};
use crate::run::{
    after_launch, exit_code_is_the_number_reported, first_line_is_read_whole, limited_view,
    no_number_is_no_exit_code, ran_view, Codes, LaunchView, LaunchedView, WaitView,
};
use crate::sandbox::SandboxView;
use crate::text::{
    decimal, decimal_has_no_leading_zero, is_number, is_whitespace, number_value, utf8_lossy,
};

verus! {

// ---------------------------------------------------------------------------
// Builders
// ---------------------------------------------------------------------------
/// A new builder has the image and the directories that it was made for, and nothing else: no
/// entry point, no mounts and no timeouts.
pub proof fn new_builder_is_empty(preparation: PreparationView)
    ensures
        ({
            let builder = preparation.empty_builder();
            &&& builder.serial == preparation.serial
            &&& builder.style == preparation.style
            &&& builder.image == preparation.image
            &&& builder.scratch == preparation.scratch
            &&& builder.inputs == preparation.inputs
            &&& builder.entry_point.len() == 0
            &&& builder.mounts.len() == 0
            &&& builder.soft_timeout is None
            &&& builder.hard_timeout is None
        }),
{
}

/// A mount holds exactly the contents that were given, for exactly the path that was given, and
/// comes behind those that were there. Nothing else of the builder changes.
pub proof fn mount_holds_what_was_given(
    builder: BuilderView,
    container_path: Seq<char>,
    contents: Seq<char>,
)
    ensures
        ({
            let after = builder.mount(container_path, contents);
            &&& after.mounts.len() == builder.mounts.len() + 1
            &&& after.mounts.last().contents == contents
            &&& after.mounts.last().container_path == container_path
            &&& after.mounts.drop_last() == builder.mounts
            &&& after.serial == builder.serial
            &&& after.style == builder.style
            &&& after.image == builder.image
            &&& after.entry_point == builder.entry_point
            &&& after.scratch == builder.scratch
            &&& after.inputs == builder.inputs
            &&& after.soft_timeout == builder.soft_timeout
            &&& after.hard_timeout == builder.hard_timeout
        }),
{
    assert(builder.mount(container_path, contents).mounts.drop_last() =~= builder.mounts);
}

/// The local file of a mount is named by the number of the mount, and stands in the directory
/// `inputs` of the scratch directory.
pub proof fn local_file_is_named_by_its_number(builder: BuilderView, index: int)
    requires
        builder.wf(),
        0 <= index < builder.mounts.len(),
        builder.scratch.len() > 0,
        builder.scratch.last() != '/',
        builder.style == PathStyle::Windows ==> builder.scratch.last() != '\\'
            && builder.scratch.last() != ':',
    ensures
        is_number(decimal(index as nat)),
        number_value(decimal(index as nat)) == index,
        builder.style == PathStyle::Unix ==> builder.mounts[index].local_path == builder.scratch
            + seq!['/'] + "inputs"@ + seq!['/'] + (decimal(index as nat) + ".txt"@),
        builder.style == PathStyle::Windows ==> builder.mounts[index].local_path == builder.scratch
            + seq!['\\'] + "inputs"@ + seq!['\\'] + (decimal(index as nat) + ".txt"@),
{
    reveal_strlit("inputs");
    decimal_has_no_leading_zero(index as nat);
    let name = decimal(index as nat) + ".txt"@;
    unix_paths_are_joined_by_a_slash(builder.scratch, "inputs"@);
    unix_paths_are_joined_by_a_slash(builder.inputs, name);
    windows_paths_are_joined_by_a_backslash(builder.scratch, "inputs"@, 'C');
    windows_paths_are_joined_by_a_backslash(builder.inputs, name, 'C');
    if builder.style == PathStyle::Unix {
        assert(builder.inputs == builder.scratch + seq!['/'] + "inputs"@);
        assert(builder.inputs.last() == "inputs"@[5]);
    } else {
        assert(builder.inputs == builder.scratch + seq!['\\'] + "inputs"@);
        assert(builder.inputs.last() == "inputs"@[5]);
    }
}

/// A sandbox has all that its builder was told: the image, every word of the entry point, both
/// timeouts where they were set, four and eight seconds where they were not, and each mount.
pub proof fn sandbox_is_what_the_builder_was_told(builder: BuilderView)
    ensures
        ({
            let sandbox = builder.sandbox();
            &&& sandbox.serial == builder.serial
            &&& sandbox.image == builder.image
            &&& sandbox.scratch == builder.scratch
            &&& sandbox.inputs == builder.inputs
            &&& sandbox.entry_point == builder.entry_point
            &&& builder.soft_timeout matches Some(soft) ==> sandbox.soft_timeout == soft
            &&& builder.hard_timeout matches Some(hard) ==> sandbox.hard_timeout == hard
            &&& builder.soft_timeout is None ==> sandbox.soft_timeout@ == 4_000_000_000
            &&& builder.hard_timeout is None ==> sandbox.hard_timeout@ == 8_000_000_000
            &&& sandbox.mounts.len() == builder.mounts.len()
            &&& forall|i: int|
                #![trigger sandbox.mounts[i]]
                0 <= i < builder.mounts.len() ==> sandbox.mounts[i].local_path
                    == builder.mounts[i].local_path && sandbox.mounts[i].container_path
                    == builder.mounts[i].container_path
            &&& sandbox.launch().hard_timeout == sandbox.hard_timeout
        }),
{
    lemma_seconds(DOCKER_PROCESS_TIMEOUT_SOFT);
    lemma_seconds(DOCKER_PROCESS_TIMEOUT_HARD);
}

/// Timeouts may be set exactly if the soft one is at most as long as the hard one; they may be
/// equal.
pub proof fn timeouts_that_may_be_set(soft: Duration, hard: Duration)
    ensures
        ordered(soft, hard) <==> soft@ <= hard@,
{
}

// ---------------------------------------------------------------------------
// Commands
// ---------------------------------------------------------------------------
/// A list of strings holds as many texts as it has strings, each of them whole.
pub proof fn texts_are_those_of_the_strings(strings: Seq<String>)
    ensures
        texts(strings).len() == strings.len(),
        forall|i: int| 0 <= i < strings.len() ==> texts(strings)[i] == (#[trigger] strings[i])@,
{
}

/// Arguments are added behind those that are there, all of them, in order.
pub proof fn arguments_are_added_at_the_end(command: CommandView, args: Seq<Seq<char>>)
    ensures
        command.with_args(args).args == command.args + args,
        command.with_args(args).program == command.program,
        command.with_args(args).kill_on_drop == command.kill_on_drop,
        command.with_args(args).discard_stdout == command.discard_stdout,
{
}

/// What is run to execute a sandbox confines the container in the same way whatever the sandbox:
/// without capabilities but for overwriting files, without new privileges, without a network, and
/// with bounded memory.
pub proof fn container_is_confined(sandbox: SandboxView)
    ensures
        ({
            let command = sandbox.launch().command;
            &&& command.program == "docker"@
            &&& command.kill_on_drop
            &&& !command.discard_stdout
            &&& command.args.len() == 16 + 2 * sandbox.mounts.len() + sandbox.entry_point.len()
            &&& command.args[0] == "run"@
            &&& command.args[1] == "--detach"@
            &&& command.args[2] == "--cap-drop=ALL"@
            &&& command.args[3] == "--cap-add=DAC_OVERRIDE"@
            &&& command.args[4] == "--security-opt=no-new-privileges"@
            &&& command.args[5] == "--workdir"@
            &&& command.args[6] == "/playground"@
            &&& command.args[7] == "--net"@
            &&& command.args[8] == "none"@
            &&& command.args[9] == "--memory"@
            &&& command.args[10] == "512m"@
            &&& command.args[11] == "--memory-swap"@
            &&& command.args[12] == "512m"@
        }),
{
    lemma_volume_args_len(sandbox.mounts);
}

/// The container is told the soft timeout, in whole seconds, as the value of
/// `PLAYGROUND_TIMEOUT`.
pub proof fn soft_timeout_is_told_in_seconds(sandbox: SandboxView)
    ensures
        ({
            let args = sandbox.launch().command.args;
            &&& args == sandbox.execution_command().args
            &&& args[13] == "--env"@
            &&& args[14].take(19) == "PLAYGROUND_TIMEOUT="@
            &&& is_number(args[14].skip(19))
            &&& number_value(args[14].skip(19)) == sandbox.soft_timeout@ / 1_000_000_000
            &&& args[14][19] == '0' ==> sandbox.soft_timeout@ < 1_000_000_000
        }),
{
    let seconds = sandbox.soft_timeout@ / 1_000_000_000;
    let value = sandbox.launch().command.args[14];
    reveal_strlit("PLAYGROUND_TIMEOUT=");
    lemma_volume_args_len(sandbox.mounts);
    decimal_has_no_leading_zero(seconds);
    assert(value.take(19) =~= "PLAYGROUND_TIMEOUT="@);
    assert(value.skip(19) =~= decimal(seconds));
    assert(value[19] == value.skip(19)[0]);
}

/// Soft timeouts that differ in whole seconds are told differently.
pub proof fn different_soft_timeouts_are_told_apart(a: SandboxView, b: SandboxView)
    requires
        a.soft_timeout@ / 1_000_000_000 != b.soft_timeout@ / 1_000_000_000,
    ensures
        a.launch().command.args[14] != b.launch().command.args[14],
{
    soft_timeout_is_told_in_seconds(a);
    soft_timeout_is_told_in_seconds(b);
}

/// Behind the settings the container is given each mount as a volume: the local path, a colon and
/// the path inside, both whole.
pub proof fn volumes_name_both_paths(sandbox: SandboxView, index: int)
    requires
        0 <= index < sandbox.mounts.len(),
    ensures
        ({
            let args = sandbox.launch().command.args;
            let mount = sandbox.mounts[index];
            &&& args[15 + 2 * index] == "--volume"@
            &&& args[16 + 2 * index] == mount.local_path + seq![':'] + mount.container_path
        }),
{
    lemma_volume_args(sandbox.mounts, index);
    let mount = sandbox.mounts[index];
    assert(mount.local_path.push(':') + mount.container_path =~= mount.local_path + seq![':']
        + mount.container_path);
}

/// Behind the volumes stand the image and then the entry point, word for word.
pub proof fn entry_point_follows_the_image(sandbox: SandboxView)
    ensures
        ({
            let args = sandbox.launch().command.args;
            let image_at: int = 15 + 2 * sandbox.mounts.len() as int;
            &&& args.len() == image_at + 1 + sandbox.entry_point.len()
            &&& args[image_at] == sandbox.image
            &&& forall|k: int|
                #![trigger sandbox.entry_point[k]]
                0 <= k < sandbox.entry_point.len() ==> args[image_at + 1 + k]
                    == sandbox.entry_point[k]
        }),
{
    lemma_volume_args_len(sandbox.mounts);
}

/// The command up to the image is the same, whether it is asked for by itself or as part of what
/// is run.
pub proof fn docker_command_stops_before_the_image(sandbox: SandboxView)
    ensures
        ({
            let command = sandbox.launch().command;
            &&& command == sandbox.execution_command()
            &&& sandbox.docker_command().args == command.args.take(
                15 + 2 * sandbox.mounts.len() as int,
            )
            &&& sandbox.docker_command().program == command.program
            &&& sandbox.docker_command().kill_on_drop == command.kill_on_drop
            &&& sandbox.docker_command().discard_stdout == command.discard_stdout
        }),
{
    lemma_volume_args_len(sandbox.mounts);
    assert(sandbox.docker_command().args =~= sandbox.launch().command.args.take(
        15 + 2 * sandbox.mounts.len() as int,
    ));
}

/// What a builder was told reaches docker: what is run ends in the image and in every word of the
/// entry point, and the run is bounded by the hard timeout.
pub proof fn builder_reaches_docker(builder: BuilderView)
    ensures
        ({
            let launch = builder.sandbox().launch();
            let n = launch.command.args.len() - builder.entry_point.len();
            &&& n == 16 + 2 * builder.mounts.len()
            &&& launch.command.args.skip(n) == builder.entry_point
            &&& launch.command.args[n - 1] == builder.image
            &&& builder.hard_timeout matches Some(hard) ==> launch.hard_timeout == hard
            &&& builder.soft_timeout matches Some(soft) ==> number_value(
                launch.command.args[14].skip(19),
            ) == soft@ / 1_000_000_000
        }),
{
    let sandbox = builder.sandbox();
    let launch = sandbox.launch();
    sandbox_is_what_the_builder_was_told(builder);
    entry_point_follows_the_image(sandbox);
    soft_timeout_is_told_in_seconds(sandbox);
    let n = launch.command.args.len() - builder.entry_point.len();
    assert(launch.command.args.skip(n) =~= builder.entry_point) by {
        assert forall|k: int| 0 <= k < builder.entry_point.len() implies launch.command.args.skip(
            n,
        )[k] == builder.entry_point[k] by {
            assert(launch.command.args[n + k] == sandbox.entry_point[k]);
        }
    }
}

// ---------------------------------------------------------------------------
// Runs
// ---------------------------------------------------------------------------
/// Is `text` the line `id`, but for white space around it and further lines behind it?
pub open spec fn prints(
    text: Seq<char>,
    before: Seq<char>,
    id: Seq<char>,
    after: Seq<char>,
    tail: Seq<char>,
) -> bool {
    &&& text == before + id + after + tail
    &&& forall|i: int|
        0 <= i < before.len() ==> is_whitespace(#[trigger] before[i]) && before[i] != '\n'
    &&& forall|i: int|
        0 <= i < after.len() ==> is_whitespace(#[trigger] after[i]) && after[i] != '\n'
    &&& forall|i: int| 0 <= i < id.len() ==> id[i] != '\n'
    &&& id.len() > 0 ==> !is_whitespace(id[0]) && !is_whitespace(id[id.len() - 1])
    &&& tail.len() > 0 ==> tail[0] == '\n'
}

/// A word on a line of its own is printed as such.
pub proof fn a_line_prints_its_word(word: Seq<char>)
    requires
        word.len() > 0,
        forall|i: int| 0 <= i < word.len() ==> !is_whitespace(#[trigger] word[i]),
    ensures
        prints(word.push('\n'), Seq::empty(), word, Seq::empty(), seq!['\n']),
{
    assert(word.push('\n') =~= Seq::<char>::empty() + word + Seq::<char>::empty() + seq!['\n']);
    assert forall|i: int| 0 <= i < word.len() implies word[i] != '\n' by {
        assert(!is_whitespace(word[i]));
    }
    assert(!is_whitespace(word[0]));
    assert(!is_whitespace(word[word.len() - 1]));
}

/// Once docker has started a container and printed its name, every further command of the run is
/// about that container, under the name that was printed, whole: it is waited for, its logs are
/// fetched, and it is removed.
pub proof fn run_is_about_the_container_named(
    codes: Codes,
    launch: LaunchView,
    replies: Replies,
    before: Seq<char>,
    id: Seq<char>,
    after: Seq<char>,
    tail: Seq<char>,
)
    requires
        replies.launched is Ok,
        replies.launched->Ok_0.status == ExitStatus::Exited(0),
        utf8_lossy(replies.launched->Ok_0.stdout).len() > 0,
        prints(utf8_lossy(replies.launched->Ok_0.stdout), before, id, after, tail),
    ensures
        ({
            let commands = run_commands(codes, launch, replies);
            &&& commands.len() >= 2
            &&& commands[0] == launch.command
            &&& commands[1] == CommandView {
                program: "docker"@,
                args: seq!["wait"@, id],
                kill_on_drop: false,
                discard_stdout: false,
            }
            &&& (replies.waited is Ok && replies.waited->Ok_0 is Err) ==> commands.len() == 2
            &&& !(replies.waited is Ok && replies.waited->Ok_0 is Err) ==> {
                &&& commands.len() >= 3
                &&& commands[2] == CommandView {
                    program: "docker"@,
                    args: seq!["logs"@, id],
                    kill_on_drop: false,
                    discard_stdout: false,
                }
                &&& replies.logged is Err ==> commands.len() == 3
                &&& replies.logged is Ok ==> {
                    &&& commands.len() == 4
                    &&& commands[3] == CommandView {
                        program: "docker"@,
                        args: seq!["rm"@, "--force"@, id],
                        kill_on_drop: false,
                        discard_stdout: true,
                    }
                }
            }
        }),
{
    first_line_is_read_whole(before, id, after, tail);
    assert(Seq::<Seq<char>>::empty() + seq!["wait"@, id] =~= seq!["wait"@, id]);
    assert(Seq::<Seq<char>>::empty() + seq!["logs"@, id] =~= seq!["logs"@, id]);
    assert(Seq::<Seq<char>>::empty() + seq!["rm"@, "--force"@, id] =~= seq![
        "rm"@,
        "--force"@,
        id,
    ]);
}

/// Docker prints the name of a container that it has started on a line of its own. Whatever word
/// that name is, it is the one that the run goes on with: the container is waited for, asked for
/// its logs and removed under it, and may run for as long as the launch says.
pub proof fn container_keeps_the_name_printed(
    codes: Codes,
    launch: LaunchView,
    replies: Replies,
    id: Seq<char>,
)
    requires
        replies.launched is Ok,
        replies.launched->Ok_0.status == ExitStatus::Exited(0),
        replies.launched->Ok_0.stdout == encode_utf8(id.push('\n')),
        utf8_lossy(replies.launched->Ok_0.stdout) == decode_utf8(replies.launched->Ok_0.stdout),
        id.len() > 0,
        forall|i: int| 0 <= i < id.len() ==> !is_whitespace(#[trigger] id[i]),
        !(replies.waited is Ok && replies.waited->Ok_0 is Err),
        replies.logged is Ok,
    ensures
        after_launch(launch, replies.launched) == Ok::<LaunchedView, Error>(
            LaunchedView::Running(WaitView { id, hard_timeout: launch.hard_timeout }),
        ),
        run_commands(codes, launch, replies) == seq![
            launch.command,
            CommandView {
                program: "docker"@,
                args: seq!["wait"@, id],
                kill_on_drop: false,
                discard_stdout: false,
            },
            CommandView {
                program: "docker"@,
                args: seq!["logs"@, id],
                kill_on_drop: false,
                discard_stdout: false,
            },
            CommandView {
                program: "docker"@,
                args: seq!["rm"@, "--force"@, id],
                kill_on_drop: false,
                discard_stdout: true,
            },
        ],
{
    let nothing = Seq::<char>::empty();
    encode_utf8_decode_utf8(id.push('\n'));
    a_line_prints_its_word(id);
    first_line_is_read_whole(nothing, id, nothing, seq!['\n']);
    run_is_about_the_container_named(codes, launch, replies, nothing, id, nothing, seq!['\n']);
    let commands = run_commands(codes, launch, replies);
    assert(commands =~= seq![commands[0], commands[1], commands[2], commands[3]]);
}

/// Is a container started that ends in time, and is then asked for its logs and removed?
pub open spec fn ends_in_time(
    replies: Replies,
    started: (Seq<char>, Seq<char>, Seq<char>, Seq<char>),
) -> bool {
    &&& replies.launched is Ok
    &&& replies.launched->Ok_0.status == ExitStatus::Exited(0)
    &&& utf8_lossy(replies.launched->Ok_0.stdout).len() > 0
    &&& prints(
        utf8_lossy(replies.launched->Ok_0.stdout),
        started.0,
        started.1,
        started.2,
        started.3,
    )
    &&& replies.waited is Ok
    &&& replies.waited->Ok_0 is Ok
    &&& replies.logged is Ok
    &&& replies.removed is Ok
}

/// What comes of a run whose container was started: where it ended in time, and its output was
/// fetched and it was removed, all that it wrote to either stream and how it ended; where it did
/// not, the error of that step, with its cause.
pub proof fn run_comes_to_what_its_steps_came_to(
    codes: Codes,
    launch: LaunchView,
    replies: Replies,
    before: Seq<char>,
    id: Seq<char>,
    after: Seq<char>,
    tail: Seq<char>,
)
    requires
        replies.launched is Ok,
        replies.launched->Ok_0.status == ExitStatus::Exited(0),
        utf8_lossy(replies.launched->Ok_0.stdout).len() > 0,
        prints(utf8_lossy(replies.launched->Ok_0.stdout), before, id, after, tail),
    ensures
        ({
            let result = run_result(codes, launch, replies);
            match replies.waited {
                Ok(Err(cause)) => result == Err::<OutputView, Error>(
                    Error::UnableToWaitForCompiler { source: cause },
                ),
                _ => match replies.logged {
                    Err(cause) => result == Err::<OutputView, Error>(
                        Error::UnableToGetOutputFromCompiler { source: cause },
                    ),
                    Ok(logs) => match replies.removed {
                        Err(cause) => result == Err::<OutputView, Error>(
                            Error::UnableToRemoveCompiler { source: cause },
                        ),
                        Ok(_) => match replies.waited {
                            Err(elapsed) => result == Err::<OutputView, Error>(
                                Error::CompilerExecutionTimedOut {
                                    source: elapsed,
                                    timeout: launch.hard_timeout,
                                },
                            ),
                            _ => {
                                &&& result is Ok
                                &&& result->Ok_0.stdout == logs.stdout
                                &&& result->Ok_0.stderr == logs.stderr
                                &&& result->Ok_0.status is Exited
                            },
                        },
                    },
                },
            }
        }),
{
    first_line_is_read_whole(before, id, after, tail);
}

/// What comes of a run whose container was not started: the failure to run docker, docker's own
/// output where it reports one, or that no container was named.
pub proof fn run_without_a_container(codes: Codes, launch: LaunchView, replies: Replies)
    ensures
        replies.launched matches Err(cause) ==> run_result(codes, launch, replies) == Err::<
            OutputView,
            Error,
        >(Error::UnableToStartCompiler { source: cause }),
        replies.launched matches Ok(output) ==> output.status != ExitStatus::Exited(0)
            ==> run_result(codes, launch, replies) == Ok::<OutputView, Error>(output),
        replies.launched matches Ok(output) ==> output.status == ExitStatus::Exited(0)
            && utf8_lossy(output.stdout) == Seq::<char>::empty() ==> run_result(
            codes,
            launch,
            replies,
        ) == Err::<OutputView, Error>(Error::MissingCompilerId),
        (replies.launched is Err || replies.launched->Ok_0.status != ExitStatus::Exited(0)
            || utf8_lossy(replies.launched->Ok_0.stdout) == Seq::<char>::empty()) ==> run_commands(
            codes,
            launch,
            replies,
        ) == seq![launch.command],
{
    let nothing = Seq::<char>::empty();
    first_line_is_read_whole(nothing, nothing, nothing, nothing);
    assert(seq![launch.command] + Seq::<CommandView>::empty() =~= seq![launch.command]);
}

/// The exit code of a run is the number that docker prints for it, whatever number that is, with
/// white space around it or further lines behind it. Where codes have no sign, one beyond the
/// largest `i32` is known by the negative number with the same bits. Where the number is out of
/// range the code is the largest there is.
pub proof fn run_ends_with_the_code_printed(
    launch: LaunchView,
    replies: Replies,
    started: (Seq<char>, Seq<char>, Seq<char>, Seq<char>),
    ended: (Seq<char>, Seq<char>, Seq<char>, Seq<char>),
    digits: Seq<char>,
)
    requires
        ends_in_time(replies, started),
        prints(utf8_lossy(replies.waited->Ok_0->Ok_0.stdout), ended.0, ended.1, ended.2, ended.3),
        is_number(digits),
        ended.1 == digits || ended.1 == seq!['+'] + digits || ended.1 == seq!['-'] + digits,
    ensures
        ({
            let n = number_value(digits) as int;
            let signed = run_result(Codes::Signed, launch, replies);
            let unsigned = run_result(Codes::Unsigned, launch, replies);
            &&& signed is Ok && unsigned is Ok
            &&& ended.1 != seq!['-'] + digits ==> {
                &&& n <= 0x7fff_ffff ==> signed->Ok_0.status == ExitStatus::Exited(n as i32)
                &&& n > 0x7fff_ffff ==> signed->Ok_0.status == ExitStatus::Exited(0x7fff_ffff)
                &&& n <= 0x7fff_ffff ==> unsigned->Ok_0.status == ExitStatus::Exited(n as i32)
                &&& 0x7fff_ffff < n <= 0xffff_ffff ==> unsigned->Ok_0.status
                    == ExitStatus::Exited((n - 0x1_0000_0000) as i32)
                &&& n > 0xffff_ffff ==> unsigned->Ok_0.status == ExitStatus::Exited((-1) as i32)
            }
            &&& ended.1 == seq!['-'] + digits ==> {
                &&& n <= 0x8000_0000 ==> signed->Ok_0.status == ExitStatus::Exited((-n) as i32)
                &&& n > 0x8000_0000 ==> signed->Ok_0.status == ExitStatus::Exited(0x7fff_ffff)
                &&& unsigned->Ok_0.status == ExitStatus::Exited((-1) as i32)
            }
        }),
{
    first_line_is_read_whole(started.0, started.1, started.2, started.3);
    first_line_is_read_whole(ended.0, ended.1, ended.2, ended.3);
    exit_code_is_the_number_reported(utf8_lossy(replies.waited->Ok_0->Ok_0.stdout), digits);
}

/// Where docker prints no number, the exit code of a run is the largest there is.
pub proof fn run_ends_without_a_number(
    launch: LaunchView,
    replies: Replies,
    started: (Seq<char>, Seq<char>, Seq<char>, Seq<char>),
    ended: (Seq<char>, Seq<char>, Seq<char>, Seq<char>),
)
    requires
        ends_in_time(replies, started),
        prints(utf8_lossy(replies.waited->Ok_0->Ok_0.stdout), ended.0, ended.1, ended.2, ended.3),
        !is_number(ended.1),
        ended.1.len() > 0 ==> !((ended.1[0] == '-' || ended.1[0] == '+') && is_number(
            ended.1.drop_first(),
        )),
    ensures
        ({
            let signed = run_result(Codes::Signed, launch, replies);
            let unsigned = run_result(Codes::Unsigned, launch, replies);
            &&& signed is Ok && unsigned is Ok
            &&& signed->Ok_0.status == ExitStatus::Exited(0x7fff_ffff)
            &&& unsigned->Ok_0.status == ExitStatus::Exited((-1) as i32)
        }),
{
    first_line_is_read_whole(started.0, started.1, started.2, started.3);
    first_line_is_read_whole(ended.0, ended.1, ended.2, ended.3);
    no_number_is_no_exit_code(utf8_lossy(replies.waited->Ok_0->Ok_0.stdout));
}

/// A run sees what a command left as it was left: how it ended and all that it wrote to either
/// stream, or the error that kept it from being run, or that its time was over.
pub proof fn outputs_are_seen_whole(
    ran: Outcome<Output>,
    limited: core::result::Result<Outcome<Output>, Elapsed>,
)
    ensures
        ran matches Ok(output) ==> (ran_view(ran) matches Ok(seen) && seen.status == output.status
            && seen.stdout == output.stdout@ && seen.stderr == output.stderr@),
        ran matches Err(cause) ==> ran_view(ran) == Err::<OutputView, std::io::Error>(cause),
        limited matches Ok(Ok(output)) ==> (limited_view(limited) matches Ok(Ok(seen))
            && seen.status == output.status && seen.stdout == output.stdout@ && seen.stderr
            == output.stderr@),
        limited matches Ok(Err(cause)) ==> limited_view(limited) == Ok::<
            Outcome<OutputView>,
            Elapsed,
        >(Err(cause)),
        limited matches Err(elapsed) ==> limited_view(limited) == Err::<
            Outcome<OutputView>,
            Elapsed,
        >(elapsed),
{
}

// ---------------------------------------------------------------------------
// Completed sandboxes
// ---------------------------------------------------------------------------
/// A completed sandbox tells what its run left, and has the files of the sandbox that was run.
pub proof fn completed_sandbox_is_the_one_that_ran(sandbox: SandboxView, output: OutputView)
    ensures
        ({
            let completed = sandbox.running().completed(output);
            &&& completed.stdout == utf8_lossy(output.stdout)
            &&& completed.stderr == utf8_lossy(output.stderr)
            &&& completed.status == output.status
            &&& completed.scratch == sandbox.scratch
            &&& completed.serial == sandbox.serial
            &&& completed.mounts == sandbox.mounts
        }),
{
}

/// An id is one of a completed sandbox exactly if it was given for that sandbox and its file is
/// among those mounted.
pub proof fn ids_are_told_by_sandbox_and_place(completed: CompletedView, id: MountId)
    ensures
        completed.is_mount(id) <==> id.serial() == completed.serial && id.index()
            < completed.mounts.len(),
{
}

/// A mounted file reads as the text that it holds, whichever that is.
pub proof fn file_reads_as_its_text(text: Seq<char>)
    ensures
        text_read(Ok(encode_utf8(text))) == Ok::<Seq<char>, Error>(text),
{
    encode_utf8_valid_utf8(text);
    encode_utf8_decode_utf8(text);
}

/// A mounted file that cannot be read, or that holds no text, is an error.
pub proof fn file_without_text_is_an_error(read: Outcome<Seq<u8>>)
    ensures
        read is Err ==> text_read(read) == Err::<Seq<char>, Error>(
            Error::ContainerPathExtensionMissing,
        ),
        read matches Ok(bytes) ==> !valid_utf8(bytes) ==> text_read(read) == Err::<
            Seq<char>,
            Error,
        >(Error::ContainerPathExtensionMissing),
        read matches Ok(bytes) ==> valid_utf8(bytes) ==> text_read(read) == Ok::<Seq<char>, Error>(
            decode_utf8(bytes),
        ),
{
}

/// A process has succeeded exactly if it exited with code zero, and it has an exit code exactly
/// if it exited.
pub proof fn success_is_exit_code_zero(status: ExitStatus)
    ensures
        status.is_success() <==> status == ExitStatus::Exited(0),
        status.is_success() <==> status.exit_code() == Some(0i32),
        status matches ExitStatus::Exited(code) ==> status.exit_code() == Some(code),
        status is Signaled ==> status.exit_code() is None,
{
}

/// A request leads to a mount of the file and the path that it names.
pub proof fn mount_is_of_the_paths_requested(request: RequestView)
    ensures
        request.mounted() == (MountView {
            local_path: request.local_path,
            container_path: request.container_path,
        }),
{
}

} // verus!
