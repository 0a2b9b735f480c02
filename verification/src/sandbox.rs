//! Sandboxes that are ready to be run.
use vstd::prelude::*;

use crate::command::{
    basic_secure, basic_secure_docker_command, texts, volume_args, Command, CommandView,
};
use crate::completed::{CompletedSandbox, CompletedView};
use crate::duration::Duration;
use crate::error::{Error, Result};
use crate::mount::{Mount, MountView};
use crate::output::{Output, OutputView};
use crate::run::{run_command_with_timeout, Launch, LaunchView};
use crate::text::{lossy_agrees, utf8_lossy};

verus! {

/// What a [`Sandbox`] holds.
pub struct SandboxView {
    pub serial: u64,
    pub image: Seq<char>,
    pub scratch: Seq<char>,
    pub inputs: Seq<char>,
    pub mounts: Seq<MountView>,
    pub entry_point: Seq<Seq<char>>,
    pub soft_timeout: Duration,
    pub hard_timeout: Duration,
}

impl SandboxView {
    /// Docker's invocation up to the image: the settings of the container, then its volumes.
    pub open spec fn docker_command(self) -> CommandView {
        basic_secure(self.soft_timeout@ / 1_000_000_000).with_args(volume_args(self.mounts))
    }

    /// Docker's invocation: behind the settings and volumes stand the image and what is to be run
    /// in it.
    pub open spec fn execution_command(self) -> CommandView {
        self.docker_command().with_args(seq![self.image]).with_args(self.entry_point)
    }

    /// What is left of this sandbox while it runs.
    pub open spec fn running(self) -> ExecutionView {
        ExecutionView { serial: self.serial, mounts: self.mounts, scratch: self.scratch }
    }

    /// The run that executes this sandbox.
    pub open spec fn launch(self) -> LaunchView {
        LaunchView { command: self.execution_command(), hard_timeout: self.hard_timeout }
    }
}

/// A sandbox that is ready to be run.
#[derive(Debug)]
pub struct Sandbox {
    serial: u64,
    image: String,
    scratch: String,
    inputs: String,
    mounts: Vec<Mount>,
    entry_point: Vec<String>,
    soft_timeout: Duration,
    hard_timeout: Duration,
}

impl View for Sandbox {
    type V = SandboxView;

    closed spec fn view(&self) -> SandboxView {
        SandboxView {
            serial: self.serial,
            image: self.image@,
            scratch: self.scratch@,
            inputs: self.inputs@,
            mounts: self.mounts@.map_values(|m: Mount| m@),
            entry_point: texts(self.entry_point@),
            soft_timeout: self.soft_timeout,
            hard_timeout: self.hard_timeout,
        }
    }
}

/// What is left of a sandbox while it runs.
pub struct ExecutionView {
    pub serial: u64,
    pub mounts: Seq<MountView>,
    pub scratch: Seq<char>,
}

impl ExecutionView {
    /// The sandbox once its run has left `output`.
    pub open spec fn completed(self, output: OutputView) -> CompletedView {
        CompletedView {
            serial: self.serial,
            mounts: self.mounts,
            stdout: utf8_lossy(output.stdout),
            stderr: utf8_lossy(output.stderr),
            status: output.status,
            scratch: self.scratch,
        }
    }
}

/// A sandbox that is being run.
#[derive(Debug)]
pub struct Execution {
    serial: u64,
    mounts: Vec<Mount>,
    scratch: String,
}

impl View for Execution {
    type V = ExecutionView;

    closed spec fn view(&self) -> ExecutionView {
        ExecutionView {
            serial: self.serial,
            mounts: self.mounts@.map_values(|m: Mount| m@),
            scratch: self.scratch@,
        }
    }
}

impl Sandbox {
    pub(crate) fn new(
        serial: u64,
        image: String,
        scratch: String,
        inputs: String,
        mounts: Vec<Mount>,
        entry_point: Vec<String>,
        soft_timeout: Duration,
        hard_timeout: Duration,
    ) -> (s: Sandbox)
        ensures
            s@ == (SandboxView {
                serial,
                image: image@,
                scratch: scratch@,
                inputs: inputs@,
                mounts: mounts@.map_values(|m: Mount| m@),
                entry_point: texts(entry_point@),
                soft_timeout,
                hard_timeout,
            }),
    {
        Sandbox {
            serial,
            image,
            scratch,
            inputs,
            mounts,
            entry_point,
            soft_timeout,
            hard_timeout,
        }
    }

    /// Executes the current sandbox: gives the run to perform, and the sandbox that waits for
    /// what comes of it.
    pub fn execute(self) -> (res: (Launch, Execution))
        ensures
            res.0@ == self@.launch(),
            res.1@ == self@.running(),
            res.0@.command == self@.execution_command(),
            res.0@.hard_timeout == self@.hard_timeout,
            res.1@ == (ExecutionView {
                serial: self@.serial,
                mounts: self@.mounts,
                scratch: self@.scratch,
            }),
    {
        let command = self.execution_command();
        let launch = run_command_with_timeout(command, self.hard_timeout);
        (launch, Execution { serial: self.serial, mounts: self.mounts, scratch: self.scratch })
    }

    /// Builds a command to execute our entry point.
    pub fn execution_command(&self) -> (c: Command)
        ensures
            c@ == self@.execution_command(),
    {
        let mut c = self.docker_command();
        // Last argument to docker should be the image name,
        // which we then follow up with the internal entry point.
        c.arg(self.image.as_str());
        c.args(&self.entry_point);
        c
    }

    /// Builds a basic command for invoking docker.
    pub fn docker_command(&self) -> (c: Command)
        ensures
            c@ == self@.docker_command(),
    {
        let mut c = basic_secure_docker_command(self.soft_timeout);
        c.volumes(&self.mounts);
        c
    }
}

impl Execution {
    /// Completes the sandbox with what its run came to.
    pub fn complete(self, ran: Result<Output>) -> (res: Result<CompletedSandbox>)
        ensures
            match ran {
                Ok(output) => {
                    &&& res matches Ok(c) && c@ == self@.completed(output@) && c@ == (
                    CompletedView {
                        serial: self@.serial,
                        mounts: self@.mounts,
                        stdout: utf8_lossy(output.stdout@),
                        stderr: utf8_lossy(output.stderr@),
                        status: output.status,
                        scratch: self@.scratch,
                    })
                    &&& lossy_agrees(output.stdout@)
                    &&& lossy_agrees(output.stderr@)
                },
                Err(e) => res == Err::<CompletedSandbox, Error>(e),
            },
    {
        match ran {
            Ok(output) => Ok(
                CompletedSandbox::new(self.serial, self.mounts, self.scratch, output),
            ),
            Err(e) => Err(e),
        }
    }
}

} // verus!
