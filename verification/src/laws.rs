//! What holds of sandboxes as a whole.
pub mod conduct;

use vstd::prelude::*;
use vstd::utf8::{encode_utf8, encode_utf8_decode_utf8, encode_utf8_valid_utf8};

use tokio::time::error::Elapsed;

use crate::builder::{
    after_write, ordered, BuildStepView, BuilderView, DOCKER_PROCESS_TIMEOUT_HARD,
    DOCKER_PROCESS_TIMEOUT_SOFT,
};
use crate::command::{basic_secure, logs_of, removal_of, volume_args, wait_for, CommandView};
use crate::completed::{text_read, CompletedView};
use crate::duration::lemma_seconds;
use crate::error::{Error, Outcome, Result};
use crate::mount::{file_name, lemma_local_paths_distinct, MountId, MountView, RequestView};
use crate::output::{ExitStatus, OutputView};
use crate::path::joined;
use crate::run::{
    after_launch, after_logs, after_removal, after_wait, id_in, status_in, Codes, LaunchView,
    LaunchedView, WaitView,
};
use crate::sandbox::SandboxView;
use crate::text::utf8_lossy;

verus! {

// ---------------------------------------------------------------------------
// Builders
// ---------------------------------------------------------------------------
/// One more mount changes nothing but the list of mounts, and there it leaves the earlier ones in
/// their places: an id, once given, keeps naming the same file.
pub proof fn mounting_keeps_earlier_mounts(
    builder: BuilderView,
    container_path: Seq<char>,
    contents: Seq<char>,
    index: int,
)
    requires
        0 <= index < builder.mounts.len(),
    ensures
        builder.mount(container_path, contents).mounts[index] == builder.mounts[index],
        (BuilderView {
            mounts: builder.mounts,
            ..builder.mount(container_path, contents)
        }) == builder,
{
}

/// No two mounts of a builder share a local file.
pub proof fn mounts_share_no_file(builder: BuilderView, i: int, j: int)
    requires
        builder.wf(),
        0 <= i < builder.mounts.len(),
        0 <= j < builder.mounts.len(),
        i != j,
    ensures
        builder.mounts[i].local_path != builder.mounts[j].local_path,
{
    if builder.mounts[i].local_path == builder.mounts[j].local_path {
        lemma_local_paths_distinct(builder.style, builder.inputs, i as nat, j as nat);
    }
}

/// Every file that a builder has written lies below its scratch directory.
pub proof fn files_lie_in_scratch(builder: BuilderView, index: int)
    requires
        builder.wf(),
        0 <= index < builder.mounts.len(),
    ensures
        builder.scratch.is_prefix_of(builder.mounts[index].local_path),
{
    assert(builder.scratch.is_prefix_of(builder.inputs));
    assert(builder.inputs.is_prefix_of(
        joined(builder.style, builder.inputs, file_name(index as nat)),
    ));
}

/// The soft timeout of a sandbox is never longer than its hard timeout.
pub proof fn timeouts_are_ordered(builder: BuilderView)
    requires
        builder.wf(),
    ensures
        ordered(builder.sandbox().soft_timeout, builder.sandbox().hard_timeout),
        builder.sandbox().soft_timeout@ <= builder.sandbox().hard_timeout@,
{
    lemma_seconds(DOCKER_PROCESS_TIMEOUT_SOFT);
    lemma_seconds(DOCKER_PROCESS_TIMEOUT_HARD);
}

/// A sandbox for which no timeouts were set may run for eight seconds, and is told to stop after
/// four.
pub proof fn default_timeouts(builder: BuilderView)
    requires
        builder.soft_timeout is None,
        builder.hard_timeout is None,
    ensures
        builder.sandbox().soft_timeout@ == 4_000_000_000,
        builder.sandbox().hard_timeout@ == 8_000_000_000,
{
    lemma_seconds(DOCKER_PROCESS_TIMEOUT_SOFT);
    lemma_seconds(DOCKER_PROCESS_TIMEOUT_HARD);
}

// ---------------------------------------------------------------------------
// Builds
// ---------------------------------------------------------------------------
/// What a build comes to that stands at `step`, if `written` tells how each of its writes goes.
/// It has to tell of as many writes as the build makes.
pub open spec fn build_result(step: BuildStepView, written: Seq<Outcome<()>>) -> Result<SandboxView>
    decreases written.len(),
{
    match step {
        BuildStepView::Built(sandbox) => Ok(sandbox),
        BuildStepView::Write(pending) => if written.len() == 0 {
            arbitrary()
        } else {
            match after_write(pending, written[0]) {
                Ok(next) => build_result(next, written.drop_first()),
                Err(e) => Err(e),
            }
        },
    }
}

/// The requests whose contents a build has written, or has tried to, that stands at `step`.
pub open spec fn build_writes(step: BuildStepView, written: Seq<Outcome<()>>) -> Seq<RequestView>
    decreases written.len(),
{
    match step {
        BuildStepView::Built(sandbox) => Seq::empty(),
        BuildStepView::Write(pending) => if written.len() == 0 {
            Seq::empty()
        } else {
            seq![pending.request] + match after_write(pending, written[0]) {
                Ok(next) => build_writes(next, written.drop_first()),
                Err(e) => Seq::empty(),
            }
        },
    }
}

/// The mounts that requests lead to.
pub open spec fn mounted(requests: Seq<RequestView>) -> Seq<MountView> {
    requests.map_values(|r: RequestView| r.mounted())
}

proof fn lemma_build_succeeds(
    builder: BuilderView,
    mounts: Seq<MountView>,
    written: Seq<Outcome<()>>,
)
    requires
        written.len() == builder.mounts.len(),
        forall|i: int| 0 <= i < written.len() ==> (#[trigger] written[i]) is Ok,
    ensures
        build_result(builder.step(mounts), written) == Ok::<SandboxView, Error>(
            builder.sandbox_with(mounts + mounted(builder.mounts)),
        ),
        build_writes(builder.step(mounts), written) == builder.mounts,
    decreases written.len(),
{
    if written.len() == 0 {
        assert(mounts + mounted(builder.mounts) =~= mounts);
    } else {
        let more = mounts.push(builder.mounts[0].mounted());
        assert(written[0] is Ok);
        lemma_build_succeeds(builder.rest(), more, written.drop_first());
        assert(more + mounted(builder.rest().mounts) =~= mounts + mounted(builder.mounts));
        assert(seq![builder.mounts[0]] + builder.rest().mounts =~= builder.mounts);
    }
}

/// A build that can write all its files writes the contents of each mount, in order, and gives
/// the sandbox that the builder describes.
pub proof fn build_succeeds(builder: BuilderView, written: Seq<Outcome<()>>)
    requires
        written.len() == builder.mounts.len(),
        forall|i: int| 0 <= i < written.len() ==> (#[trigger] written[i]) is Ok,
    ensures
        build_result(builder.step(Seq::empty()), written) == Ok::<SandboxView, Error>(
            builder.sandbox(),
        ),
        build_writes(builder.step(Seq::empty()), written) == builder.mounts,
{
    lemma_build_succeeds(builder, Seq::empty(), written);
    assert(Seq::<MountView>::empty() + mounted(builder.mounts) =~= mounted(builder.mounts));
}

proof fn lemma_build_fails(
    builder: BuilderView,
    mounts: Seq<MountView>,
    written: Seq<Outcome<()>>,
    k: int,
)
    requires
        0 <= k < builder.mounts.len(),
        written.len() == builder.mounts.len(),
        forall|i: int| 0 <= i < k ==> (#[trigger] written[i]) is Ok,
        written[k] is Err,
    ensures
        build_result(builder.step(mounts), written) == Err::<SandboxView, Error>(
            Error::UnableToCreateSourceFile { source: written[k]->Err_0 },
        ),
        build_writes(builder.step(mounts), written) == builder.mounts.take(k + 1),
    decreases written.len(),
{
    if k == 0 {
        assert(seq![builder.mounts[0]] + Seq::<RequestView>::empty() =~= builder.mounts.take(1));
    } else {
        let more = mounts.push(builder.mounts[0].mounted());
        assert(written[0] is Ok);
        lemma_build_fails(builder.rest(), more, written.drop_first(), k - 1);
        assert(seq![builder.mounts[0]] + builder.rest().mounts.take(k) =~= builder.mounts.take(
            k + 1,
        ));
    }
}

/// A build ends at the first file that it cannot write: it gives that failure as the error, and
/// writes no other file.
pub proof fn build_fails_at_first_failure(builder: BuilderView, written: Seq<Outcome<()>>, k: int)
    requires
        0 <= k < builder.mounts.len(),
        written.len() == builder.mounts.len(),
        forall|i: int| 0 <= i < k ==> (#[trigger] written[i]) is Ok,
        written[k] is Err,
    ensures
        build_result(builder.step(Seq::empty()), written) == Err::<SandboxView, Error>(
            Error::UnableToCreateSourceFile { source: written[k]->Err_0 },
        ),
        build_writes(builder.step(Seq::empty()), written) == builder.mounts.take(k + 1),
{
    lemma_build_fails(builder, Seq::empty(), written, k);
}

// ---------------------------------------------------------------------------
// Commands
// ---------------------------------------------------------------------------
proof fn lemma_volume_args(mounts: Seq<MountView>, index: int)
    requires
        0 <= index < mounts.len(),
    ensures
        volume_args(mounts).len() == 2 * mounts.len(),
        volume_args(mounts)[2 * index] == "--volume"@,
        volume_args(mounts)[2 * index + 1] == mounts[index].volume(),
    decreases mounts.len(),
{
    lemma_volume_args_len(mounts);
    lemma_volume_args_len(mounts.drop_last());
    if index < mounts.len() - 1 {
        lemma_volume_args(mounts.drop_last(), index);
    }
}

proof fn lemma_volume_args_len(mounts: Seq<MountView>)
    ensures
        volume_args(mounts).len() == 2 * mounts.len(),
    decreases mounts.len(),
{
    if mounts.len() > 0 {
        lemma_volume_args_len(mounts.drop_last());
    }
}

/// How docker is invoked to execute a sandbox: the settings that confine the container come
/// first and are the same for every sandbox but for the soft timeout; then one volume for each
/// mount, in order; then the image; and behind it, untouched, what is to be run in it.
pub proof fn execution_command_form(sandbox: SandboxView)
    ensures
        ({
            let command = sandbox.execution_command();
            let settings = basic_secure(sandbox.soft_timeout@ / 1_000_000_000);
            let image_at: int = settings.args.len() as int + 2 * sandbox.mounts.len();
            &&& command.program == "docker"@
            &&& command.kill_on_drop
            &&& settings.args.is_prefix_of(command.args)
            &&& command.args.len() == image_at + 1 + sandbox.entry_point.len()
            &&& command.args[image_at] == sandbox.image
            &&& command.args.skip(image_at + 1) == sandbox.entry_point
        }),
{
    lemma_volume_args_len(sandbox.mounts);
    let command = sandbox.execution_command();
    let settings = basic_secure(sandbox.soft_timeout@ / 1_000_000_000);
    let image_at: int = settings.args.len() as int + 2 * sandbox.mounts.len();
    assert(settings.args.is_prefix_of(command.args));
    assert(command.args.skip(image_at + 1) =~= sandbox.entry_point);
}

/// Each mount of a sandbox is a volume of its container: between the settings and the image, the
/// mount number `index` puts `--volume`, then its local path, a colon and its path inside.
pub proof fn every_mount_is_a_volume(sandbox: SandboxView, index: int)
    requires
        0 <= index < sandbox.mounts.len(),
    ensures
        ({
            let args = sandbox.execution_command().args;
            let at = basic_secure(sandbox.soft_timeout@ / 1_000_000_000).args.len() + 2 * index;
            &&& args[at] == "--volume"@
            &&& args[at + 1] == sandbox.mounts[index].volume()
        }),
{
    lemma_volume_args(sandbox.mounts, index);
}

// ---------------------------------------------------------------------------
// Mounted files
// ---------------------------------------------------------------------------
/// A mounted file can be followed from the builder to the completed sandbox: for the id that
/// names the mount number `index`, the completed sandbox reads the very file that the build wrote
/// the contents to and that the container saw under the path asked for, whatever the run left.
pub proof fn mounts_survive_execution(builder: BuilderView, output: OutputView, index: int)
    requires
        0 <= index < builder.mounts.len(),
    ensures
        ({
            let sandbox = builder.sandbox();
            let completed = sandbox.running().completed(output);
            &&& completed.scratch == builder.scratch
            &&& completed.mounts.len() == builder.mounts.len()
            &&& completed.mounts[index] == builder.mounts[index].mounted()
            &&& completed.mounts[index] == sandbox.mounts[index]
        }),
{
}

/// An id names a file of the sandbox that it was given for, and of no other: a sandbox that is
/// built with another serial number does not take it, whatever it has mounted.
pub proof fn an_id_belongs_to_one_sandbox(
    id: MountId,
    builder: BuilderView,
    other: BuilderView,
    output: OutputView,
)
    requires
        id.serial() == builder.serial,
        id.index() < builder.mounts.len(),
        other.serial != builder.serial,
    ensures
        builder.sandbox().running().completed(output).is_mount(id),
        !other.sandbox().running().completed(output).is_mount(id),
{
}

/// What stands on disk once each of `writes` has been performed, in order.
pub open spec fn stored(writes: Seq<RequestView>) -> Map<Seq<char>, Seq<u8>>
    decreases writes.len(),
{
    if writes.len() == 0 {
        Map::empty()
    } else {
        stored(writes.drop_last()).insert(
            writes.last().local_path,
            encode_utf8(writes.last().contents),
        )
    }
}

proof fn lemma_stored(writes: Seq<RequestView>, index: int)
    requires
        0 <= index < writes.len(),
        forall|j: int|
            index < j < writes.len() ==> (#[trigger] writes[j]).local_path
                != writes[index].local_path,
    ensures
        stored(writes).contains_key(writes[index].local_path),
        stored(writes)[writes[index].local_path] == encode_utf8(writes[index].contents),
    decreases writes.len(),
{
    if index < writes.len() - 1 {
        lemma_stored(writes.drop_last(), index);
        assert(writes[writes.len() - 1].local_path != writes[index].local_path);
    }
}

/// The contents of a mount can be read back: once a build has written all its files, the file
/// that the completed sandbox reads for the mount number `index` holds the contents that were
/// asked for, so that, unless the run changes them, they are what is read.
pub proof fn contents_read_back(
    builder: BuilderView,
    written: Seq<Outcome<()>>,
    output: OutputView,
    index: int,
)
    requires
        builder.wf(),
        written.len() == builder.mounts.len(),
        forall|i: int| 0 <= i < written.len() ==> (#[trigger] written[i]) is Ok,
        0 <= index < builder.mounts.len(),
    ensures
        ({
            let disk = stored(build_writes(builder.step(Seq::empty()), written));
            let sandbox = builder.sandbox();
            let path = sandbox.running().completed(output).mounts[index].local_path;
            &&& disk.contains_key(path)
            &&& text_read(Ok(disk[path])) == Ok::<Seq<char>, Error>(builder.mounts[index].contents)
        }),
{
    build_succeeds(builder, written);
    mounts_survive_execution(builder, output, index);
    assert forall|j: int| index < j < builder.mounts.len() implies (
    #[trigger] builder.mounts[j]).local_path != builder.mounts[index].local_path by {
        mounts_share_no_file(builder, index, j);
    }
    lemma_stored(builder.mounts, index);
    encode_utf8_valid_utf8(builder.mounts[index].contents);
    encode_utf8_decode_utf8(builder.mounts[index].contents);
}

// ---------------------------------------------------------------------------
// Runs
// ---------------------------------------------------------------------------
/// What came of the commands of a run, in so far as they are performed.
pub struct Replies {
    pub launched: Outcome<OutputView>,
    pub waited: core::result::Result<Outcome<OutputView>, Elapsed>,
    pub logged: Outcome<OutputView>,
    pub removed: Outcome<ExitStatus>,
}

/// What a run comes to.
pub open spec fn run_result(
    codes: Codes,
    launch: LaunchView,
    replies: Replies,
) -> Result<OutputView> {
    match after_launch(launch, replies.launched) {
        Err(e) => Err(e),
        Ok(LaunchedView::Refused(output)) => Ok(output),
        Ok(LaunchedView::Running(wait)) => match after_wait(codes, wait, replies.waited) {
            Err(e) => Err(e),
            Ok(logs) => match after_logs(logs, replies.logged) {
                Err(e) => Err(e),
                Ok(removal) => after_removal(removal, replies.removed),
            },
        },
    }
}

/// The commands that a run performs, in order.
pub open spec fn run_commands(
    codes: Codes,
    launch: LaunchView,
    replies: Replies,
) -> Seq<CommandView> {
    seq![launch.command] + match after_launch(launch, replies.launched) {
        Ok(LaunchedView::Running(wait)) => seq![wait.command()] + match after_wait(
            codes,
            wait,
            replies.waited,
        ) {
            Err(_) => Seq::empty(),
            Ok(logs) => seq![logs.command()] + match after_logs(logs, replies.logged) {
                Err(_) => Seq::empty(),
                Ok(removal) => seq![removal.command()],
            },
        },
        _ => Seq::empty(),
    }
}

/// Does the run start the container `wait.id`?
pub open spec fn starts(launch: LaunchView, replies: Replies, wait: WaitView) -> bool {
    after_launch(launch, replies.launched) == Ok::<LaunchedView, Error>(
        LaunchedView::Running(wait),
    )
}

/// Where docker does not start the container, its answer is the outcome, and nothing else is run.
pub proof fn refused_launch_is_the_outcome(codes: Codes, launch: LaunchView, replies: Replies)
    requires
        replies.launched is Ok,
        !replies.launched->Ok_0.status.is_success(),
    ensures
        run_result(codes, launch, replies) == Ok::<OutputView, Error>(replies.launched->Ok_0),
        run_commands(codes, launch, replies) == seq![launch.command],
{
    assert(run_commands(codes, launch, replies) =~= seq![launch.command]);
}

/// Where a container has been started and waited for, to its end or to the end of its time, and
/// its output was collected, the last command of the run is the one that removes it. All the
/// commands behind the first one name the container that was started.
pub proof fn removal_is_the_last_command(
    codes: Codes,
    launch: LaunchView,
    replies: Replies,
    wait: WaitView,
)
    requires
        starts(launch, replies, wait),
        !(replies.waited is Ok && replies.waited->Ok_0 is Err),
        replies.logged is Ok,
    ensures
        run_commands(codes, launch, replies) == seq![
            launch.command,
            wait_for(wait.id),
            logs_of(wait.id),
            removal_of(wait.id),
        ],
{
    assert(run_commands(codes, launch, replies) =~= seq![
        launch.command,
        wait_for(wait.id),
        logs_of(wait.id),
        removal_of(wait.id),
    ]);
}

/// The outcome of a container that ends in time: what it has written, and the exit code that
/// docker reports for it.
pub proof fn outcome_in_time(
    codes: Codes,
    launch: LaunchView,
    replies: Replies,
    wait: WaitView,
)
    requires
        starts(launch, replies, wait),
        replies.waited is Ok,
        replies.waited->Ok_0 is Ok,
        replies.logged is Ok,
        replies.removed is Ok,
    ensures
        run_result(codes, launch, replies) == Ok::<OutputView, Error>(
            OutputView {
                status: status_in(codes, utf8_lossy(replies.waited->Ok_0->Ok_0.stdout)),
                stdout: replies.logged->Ok_0.stdout,
                stderr: replies.logged->Ok_0.stderr,
            },
        ),
{
}

/// What a completed sandbox tells, where its container ended in time: all that the container has
/// written to either stream, and the exit code that docker reports for it. Its files stay where
/// they were.
pub proof fn completed_sandbox_tells_the_run(
    codes: Codes,
    sandbox: SandboxView,
    replies: Replies,
    wait: WaitView,
)
    requires
        starts(sandbox.launch(), replies, wait),
        replies.waited is Ok,
        replies.waited->Ok_0 is Ok,
        replies.logged is Ok,
        replies.removed is Ok,
    ensures
        ({
            let result = run_result(codes, sandbox.launch(), replies);
            &&& result is Ok
            &&& sandbox.running().completed(result->Ok_0) == CompletedView {
                serial: sandbox.serial,
                mounts: sandbox.mounts,
                stdout: utf8_lossy(replies.logged->Ok_0.stdout),
                stderr: utf8_lossy(replies.logged->Ok_0.stderr),
                status: status_in(codes, utf8_lossy(replies.waited->Ok_0->Ok_0.stdout)),
                scratch: sandbox.scratch,
            }
        }),
{
    outcome_in_time(codes, sandbox.launch(), replies, wait);
}

/// The hard timeout holds: a run whose container outlasts it is never a success, and where the
/// container could be dealt with the error is that it took longer than the hard timeout.
pub proof fn hard_timeout_is_enforced(
    codes: Codes,
    launch: LaunchView,
    replies: Replies,
    wait: WaitView,
)
    requires
        starts(launch, replies, wait),
        replies.waited is Err,
    ensures
        run_result(codes, launch, replies) is Err,
        replies.logged is Ok && replies.removed is Ok ==> run_result(codes, launch, replies)
            == Err::<OutputView, Error>(
            Error::CompilerExecutionTimedOut {
                source: replies.waited->Err_0,
                timeout: launch.hard_timeout,
            },
        ),
{
}

/// A run is a success exactly where docker refused to start the container, or where it was started
/// and named, ended in time, and both the command for its output and the one that removes it could
/// be run.
pub proof fn success_means_refused_or_in_time(
    codes: Codes,
    launch: LaunchView,
    replies: Replies,
)
    ensures
        run_result(codes, launch, replies) is Ok <==> {
            &&& replies.launched is Ok
            &&& {
                ||| !replies.launched->Ok_0.status.is_success()
                ||| {
                    &&& id_in(utf8_lossy(replies.launched->Ok_0.stdout)) is Some
                    &&& replies.waited is Ok
                    &&& replies.waited->Ok_0 is Ok
                    &&& replies.logged is Ok
                    &&& replies.removed is Ok
                }
            }
        },
{
}

} // verus!
