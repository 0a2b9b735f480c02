//! Sandboxes that have been run.
use vstd::prelude::*;
use vstd::utf8::{decode_utf8, valid_utf8};

use crate::error::{Error, Outcome, Result};
use crate::mount::{Mount, MountId, MountView};
use crate::output::{ExitStatus, Output};
use crate::text::{from_utf8_lossy, lossy_agrees, utf8_lossy};

verus! {

/// What a [`CompletedSandbox`] holds.
pub struct CompletedView {
    pub serial: u64,
    pub mounts: Seq<MountView>,
    pub stdout: Seq<char>,
    pub stderr: Seq<char>,
    pub status: ExitStatus,
    pub scratch: Seq<char>,
}

impl CompletedView {
    /// Is `id` that of a file mounted in this sandbox? One of a sandbox with another serial number
    /// is not.
    pub open spec fn is_mount(self, id: MountId) -> bool {
        id.serial() == self.serial && id.index() < self.mounts.len()
    }
}

/// A sandbox that has been run.
#[derive(Debug)]
pub struct CompletedSandbox {
    serial: u64,
    mounts: Vec<Mount>,
    stdout: String,
    stderr: String,
    status: ExitStatus,
    scratch: String,
}

impl View for CompletedSandbox {
    type V = CompletedView;

    closed spec fn view(&self) -> CompletedView {
        CompletedView {
            serial: self.serial,
            mounts: self.mounts@.map_values(|m: Mount| m@),
            stdout: self.stdout@,
            stderr: self.stderr@,
            status: self.status,
            scratch: self.scratch@,
        }
    }
}

/// What reading a mounted file comes to: its text, or an error where it cannot be read or is not
/// UTF-8.
pub open spec fn text_read(read: Outcome<Seq<u8>>) -> Result<Seq<char>> {
    match read {
        Ok(bytes) if valid_utf8(bytes) => Ok(decode_utf8(bytes)),
        _ => Err(Error::ContainerPathExtensionMissing),
    }
}

impl CompletedSandbox {
    pub(crate) fn new(serial: u64, mounts: Vec<Mount>, scratch: String, output: Output) -> (c:
        CompletedSandbox)
        ensures
            c@ == (CompletedView {
                serial,
                mounts: mounts@.map_values(|m: Mount| m@),
                stdout: utf8_lossy(output.stdout@),
                stderr: utf8_lossy(output.stderr@),
                status: output.status,
                scratch: scratch@,
            }),
            lossy_agrees(output.stdout@),
            lossy_agrees(output.stderr@),
    {
        // Process the output into something usable.
        let stdout = from_utf8_lossy(output.stdout.as_slice());
        let stderr = from_utf8_lossy(output.stderr.as_slice());
        CompletedSandbox { serial, mounts, stdout, stderr, status: output.status, scratch }
    }

    /// Returns the contents of `stdout` from within the sandbox.
    pub fn stdout(&self) -> (s: &str)
        ensures
            s@ == self@.stdout,
    {
        self.stdout.as_str()
    }

    /// Returns the contents of `stderr` from within the sandbox.
    pub fn stderr(&self) -> (s: &str)
        ensures
            s@ == self@.stderr,
    {
        self.stderr.as_str()
    }

    /// Returns the exit status of the sandbox.
    pub fn status(&self) -> (status: ExitStatus)
        ensures
            status == self@.status,
    {
        self.status
    }

    /// The directory that holds the mounted files. They can be read for as long as it exists.
    pub fn scratch(&self) -> (path: &str)
        ensures
            path@ == self@.scratch,
    {
        self.scratch.as_str()
    }

    /// Is `id` that of a file mounted in this sandbox?
    pub fn has_mount(&self, id: MountId) -> (b: bool)
        ensures
            b == self@.is_mount(id),
            b <==> id.serial() == self@.serial && id.index() < self@.mounts.len(),
    {
        id.owner() == self.serial && id.position() < self.mounts.len()
    }

    /// The local file that was mounted under `id`.
    pub fn mount_path(&self, id: MountId) -> (path: &str)
        requires
            self@.is_mount(id),
        ensures
            path@ == self@.mounts[id.index() as int].local_path,
    {
        self.mounts[id.position()].local_path()
    }

    /// Returns the contents of a mounted file, where `read` is what reading the file at
    /// [`mount_path`](CompletedSandbox::mount_path) came to.
    pub fn get_mount_output(&self, id: MountId, read: Outcome<Vec<u8>>) -> (res: Result<String>)
        requires
            self@.is_mount(id),
        ensures
            match text_read(
                match read {
                    Ok(bytes) => Ok(bytes@),
                    Err(e) => Err(e),
                },
            ) {
                Ok(text) => res matches Ok(s) && s@ == text,
                Err(e) => res == Err::<String, Error>(e),
            },
            read matches Ok(bytes) ==> valid_utf8(bytes@) ==> (res matches Ok(s) && s@
                == decode_utf8(bytes@)),
            read matches Ok(bytes) ==> !valid_utf8(bytes@) ==> res == Err::<String, Error>(
                Error::ContainerPathExtensionMissing,
            ),
            read is Err ==> res == Err::<String, Error>(Error::ContainerPathExtensionMissing),
    {
        match read {
            Ok(bytes) => match String::from_utf8(bytes) {
                Ok(contents) => Ok(contents),
                Err(_) => Err(Error::ContainerPathExtensionMissing),
            },
            Err(_) => Err(Error::ContainerPathExtensionMissing),
        }
    }
}

} // verus!
