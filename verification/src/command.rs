//! Invocations of docker.
use vstd::prelude::*;
use vstd::string::*;

use crate::duration::Duration;
use crate::mount::{Mount, MountView};
use crate::text::{decimal, to_decimal};

verus! {

/// What a [`Command`] runs.
pub struct CommandView {
    /// The program.
    pub program: Seq<char>,
    /// The arguments, in order.
    pub args: Seq<Seq<char>>,
    /// Is the process to be killed when its handle is dropped?
    pub kill_on_drop: bool,
    /// Is what the process writes to its standard output to be thrown away?
    pub discard_stdout: bool,
}

impl CommandView {
    /// The same command with `args` behind its own arguments.
    pub open spec fn with_args(self, args: Seq<Seq<char>>) -> CommandView {
        CommandView { args: self.args + args, ..self }
    }
}

/// The texts that a list of strings holds.
pub open spec fn texts(strings: Seq<String>) -> Seq<Seq<char>> {
    strings.map_values(|s: String| s@)
}

/// One run of a program: its arguments, and how the process is to be treated.
#[derive(Debug)]
pub struct Command {
    program: String,
    args: Vec<String>,
    kill_on_drop: bool,
    discard_stdout: bool,
}

impl View for Command {
    type V = CommandView;

    closed spec fn view(&self) -> CommandView {
        CommandView {
            program: self.program@,
            args: texts(self.args@),
            kill_on_drop: self.kill_on_drop,
            discard_stdout: self.discard_stdout,
        }
    }
}

/// Docker without any argument.
pub open spec fn docker() -> CommandView {
    CommandView {
        program: "docker"@,
        args: Seq::empty(),
        kill_on_drop: false,
        discard_stdout: false,
    }
}

/// How docker starts a container that may run code: detached, without privileges or network, and
/// with bounded memory. `seconds` is the soft timeout that the container itself enforces.
pub open spec fn basic_secure(seconds: nat) -> CommandView {
    CommandView {
        program: "docker"@,
        args: seq![
            "run"@,
            "--detach"@,
            "--cap-drop=ALL"@,
            "--cap-add=DAC_OVERRIDE"@,
            "--security-opt=no-new-privileges"@,
            "--workdir"@,
            "/playground"@,
            "--net"@,
            "none"@,
            "--memory"@,
            "512m"@,
            "--memory-swap"@,
            "512m"@,
            "--env"@,
            "PLAYGROUND_TIMEOUT="@ + decimal(seconds),
        ],
        kill_on_drop: true,
        discard_stdout: false,
    }
}

/// The arguments that make `mounts` volumes of a container.
pub open spec fn volume_args(mounts: Seq<MountView>) -> Seq<Seq<char>>
    decreases mounts.len(),
{
    if mounts.len() == 0 {
        Seq::empty()
    } else {
        volume_args(mounts.drop_last()) + seq!["--volume"@, mounts.last().volume()]
    }
}

/// How docker waits for the container `id` to stop.
pub open spec fn wait_for(id: Seq<char>) -> CommandView {
    docker().with_args(seq!["wait"@, id])
}

/// How docker tells what the container `id` has written.
pub open spec fn logs_of(id: Seq<char>) -> CommandView {
    docker().with_args(seq!["logs"@, id])
}

/// How docker removes the container `id`, and kills it first if need be.
pub open spec fn removal_of(id: Seq<char>) -> CommandView {
    CommandView { discard_stdout: true, ..docker().with_args(seq!["rm"@, "--force"@, id]) }
}

impl Command {
    fn docker() -> (c: Command)
        ensures
            c@ == docker(),
    {
        let c = Command {
            program: "docker".to_string(),
            args: Vec::new(),
            kill_on_drop: false,
            discard_stdout: false,
        };
        assert(c@.args =~= docker().args);
        c
    }

    /// Adds one argument.
    pub(crate) fn arg(&mut self, arg: &str)
        ensures
            final(self)@ == old(self)@.with_args(seq![arg@]),
            final(self)@.args == old(self)@.args.push(arg@),
    {
        self.args.push(arg.to_string());
        assert(self@.args =~= old(self)@.args + seq![arg@]);
    }

    /// Adds several arguments.
    pub(crate) fn args(&mut self, args: &Vec<String>)
        ensures
            final(self)@ == old(self)@.with_args(texts(args@)),
            final(self)@.args.len() == old(self)@.args.len() + args@.len(),
            forall|i: int|
                0 <= i < args@.len() ==> final(self)@.args[old(self)@.args.len() + i] == (
                #[trigger] args@[i])@,
    {
        let mut i: usize = 0;
        assert(self@.args =~= old(self)@.args + texts(args@.take(0)));
        while i < args.len()
            invariant
                i <= args.len(),
                self@ == old(self)@.with_args(texts(args@.take(i as int))),
            decreases args.len() - i,
        {
            self.arg(args[i].as_str());
            assert(texts(args@.take(i + 1)) =~= texts(args@.take(i as int)).push(args@[i as int]@));
            i = i + 1;
            assert(self@.args =~= old(self)@.args + texts(args@.take(i as int)));
        }
        assert(args@.take(i as int) =~= args@);
        assert(forall|j: int| 0 <= j < args@.len() ==> texts(args@)[j] == (#[trigger] args@[j])@);
    }

    /// Adds a volume for each of `mounts`.
    pub(crate) fn volumes(&mut self, mounts: &Vec<Mount>)
        ensures
            final(self)@ == old(self)@.with_args(volume_args(mounts@.map_values(|m: Mount| m@))),
    {
        let ghost views = mounts@.map_values(|m: Mount| m@);
        let mut i: usize = 0;
        assert(self@.args =~= old(self)@.args + volume_args(views.take(0)));
        while i < mounts.len()
            invariant
                i <= mounts.len(),
                views == mounts@.map_values(|m: Mount| m@),
                self@ == old(self)@.with_args(volume_args(views.take(i as int))),
            decreases mounts.len() - i,
        {
            self.arg("--volume");
            self.arg(mounts[i].to_command().as_str());
            assert(views.take(i + 1).drop_last() =~= views.take(i as int));
            i = i + 1;
            assert(self@.args =~= old(self)@.args + volume_args(views.take(i as int)));
        }
        assert(views.take(i as int) =~= views);
    }

    /// The program.
    pub fn get_program(&self) -> (program: &str)
        ensures
            program@ == self@.program,
    {
        self.program.as_str()
    }

    /// The arguments, in order.
    pub fn get_args(&self) -> (args: &Vec<String>)
        ensures
            texts(args@) == self@.args,
            args@.len() == self@.args.len(),
            forall|i: int| 0 <= i < args@.len() ==> (#[trigger] args@[i])@ == self@.args[i],
    {
        &self.args
    }

    /// Is the process to be killed when its handle is dropped?
    pub fn kill_on_drop(&self) -> (b: bool)
        ensures
            b == self@.kill_on_drop,
    {
        self.kill_on_drop
    }

    /// Is what the process writes to its standard output to be thrown away?
    pub fn discard_stdout(&self) -> (b: bool)
        ensures
            b == self@.discard_stdout,
    {
        self.discard_stdout
    }
}

/// How docker starts a container that may run code.
pub fn basic_secure_docker_command(soft_timeout: Duration) -> (c: Command)
    ensures
        c@ == basic_secure(soft_timeout@ / 1_000_000_000),
        c@.program == "docker"@,
        c@.kill_on_drop,
        !c@.discard_stdout,
        c@.args.len() == 15,
        c@.args.take(14) == seq![
            "run"@,
            "--detach"@,
            "--cap-drop=ALL"@,
            "--cap-add=DAC_OVERRIDE"@,
            "--security-opt=no-new-privileges"@,
            "--workdir"@,
            "/playground"@,
            "--net"@,
            "none"@,
            "--memory"@,
            "512m"@,
            "--memory-swap"@,
            "512m"@,
            "--env"@,
        ],
        c@.args[14] == "PLAYGROUND_TIMEOUT="@ + decimal(soft_timeout@ / 1_000_000_000),
{
    let mut c = Command::docker();
    c.arg("run");
    c.arg("--detach");
    c.arg("--cap-drop=ALL");
    // Needed to allow overwriting the file
    c.arg("--cap-add=DAC_OVERRIDE");
    c.arg("--security-opt=no-new-privileges");
    c.arg("--workdir");
    c.arg("/playground");
    c.arg("--net");
    c.arg("none");
    c.arg("--memory");
    c.arg("512m");
    c.arg("--memory-swap");
    c.arg("512m");
    c.arg("--env");
    let mut limit = "PLAYGROUND_TIMEOUT=".to_string();
    limit.append(to_decimal(soft_timeout.as_secs() as u128).as_str());
    c.arg(limit.as_str());
    c.kill_on_drop = true;
    assert(c@.args =~= basic_secure(soft_timeout@ / 1_000_000_000).args);
    c
}

/// How docker waits for the container `id` to stop.
pub(crate) fn wait_command(id: &str) -> (c: Command)
    ensures
        c@ == wait_for(id@),
{
    let mut c = Command::docker();
    c.arg("wait");
    c.arg(id);
    assert(c@.args =~= wait_for(id@).args);
    c
}

/// How docker tells what the container `id` has written.
pub(crate) fn logs_command(id: &str) -> (c: Command)
    ensures
        c@ == logs_of(id@),
{
    let mut c = Command::docker();
    c.arg("logs");
    c.arg(id);
    assert(c@.args =~= logs_of(id@).args);
    c
}

/// How docker removes the container `id`.
pub(crate) fn removal_command(id: &str) -> (c: Command)
    ensures
        c@ == removal_of(id@),
{
    let mut c = Command::docker();
    c.arg("rm");
    c.arg("--force");
    c.arg(id);
    c.discard_stdout = true;
    assert(c@.args =~= removal_of(id@).args);
    c
}

} // verus!
