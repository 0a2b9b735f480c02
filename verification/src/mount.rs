//! Files that are made available inside a container.
use vstd::prelude::*;
use vstd::string::*;

use crate::error::{Error, Outcome, Result};
use crate::path::{is_file_name, join, joined, lemma_joined_injective, PathStyle};
use crate::text::{decimal, is_digit, lemma_decimal_injective, lemma_decimal_value, to_decimal};

verus! {

/// Identifies a file that has been mounted in a container.
#[derive(Clone, Copy, Debug)]
pub struct MountId {
    serial: u64,
    index: usize,
}

impl MountId {
    /// The serial number of the sandbox that the file was mounted in.
    pub closed spec fn serial(self) -> u64 {
        self.serial
    }

    /// The place of the file among those mounted there, counted from zero.
    pub closed spec fn index(self) -> nat {
        self.index as nat
    }

    pub(crate) fn new(serial: u64, index: usize) -> (id: MountId)
        ensures
            id.serial() == serial,
            id.index() == index,
    {
        MountId { serial, index }
    }

    pub(crate) fn owner(&self) -> (serial: u64)
        ensures
            serial == self.serial(),
    {
        self.serial
    }

    pub(crate) fn position(&self) -> (index: usize)
        ensures
            index == self.index(),
    {
        self.index
    }
}

/// What a [`MountRequest`] asks for.
pub struct RequestView {
    pub local_path: Seq<char>,
    pub container_path: Seq<char>,
    pub contents: Seq<char>,
}

impl RequestView {
    /// The mount that this request leads to.
    pub open spec fn mounted(self) -> MountView {
        MountView { local_path: self.local_path, container_path: self.container_path }
    }
}

/// Where a [`Mount`] stands on either side.
pub struct MountView {
    pub local_path: Seq<char>,
    pub container_path: Seq<char>,
}

impl MountView {
    /// The mount as a volume of docker's: the local path, a colon and the path in the container.
    pub open spec fn volume(self) -> Seq<char> {
        self.local_path.push(':') + self.container_path
    }
}

/// Some contents that will be available inside the container.
#[derive(Debug)]
pub struct MountRequest {
    local_path: String,
    container_path: String,
    contents: String,
}

impl View for MountRequest {
    type V = RequestView;

    closed spec fn view(&self) -> RequestView {
        RequestView {
            local_path: self.local_path@,
            container_path: self.container_path@,
            contents: self.contents@,
        }
    }
}

/// A local file that a container sees under a path of its own.
#[derive(Debug)]
pub struct Mount {
    local_path: String,
    container_path: String,
}

impl View for Mount {
    type V = MountView;

    closed spec fn view(&self) -> MountView {
        MountView { local_path: self.local_path@, container_path: self.container_path@ }
    }
}

/// The name of the local file behind the mount number `index`.
pub open spec fn file_name(index: nat) -> Seq<char> {
    decimal(index) + ".txt"@
}

/// The local path, under the directory `inputs`, of the file behind the mount number `index`.
pub open spec fn local_path_of(style: PathStyle, inputs: Seq<char>, index: nat) -> Seq<char> {
    joined(style, inputs, file_name(index))
}

/// The name of a local file is a single component.
pub proof fn lemma_file_name(index: nat)
    ensures
        is_file_name(file_name(index)),
{
    reveal_strlit(".txt");
    lemma_decimal_value(index);
    let digits = decimal(index);
    let name = file_name(index);
    assert forall|i: int| 0 <= i < name.len() implies #[trigger] name[i] != '/' && name[i] != '\\'
        && name[i] != ':' by {
        if i < digits.len() {
            assert(is_digit(digits[i]));
        }
    }
}

/// No two mounts under one directory share a local file.
pub proof fn lemma_local_paths_distinct(style: PathStyle, inputs: Seq<char>, i: nat, j: nat)
    requires
        local_path_of(style, inputs, i) == local_path_of(style, inputs, j),
    ensures
        i == j,
{
    reveal_strlit(".txt");
    let a = file_name(i);
    let b = file_name(j);
    lemma_joined_injective(style, inputs, a, b);
    assert(a.take(a.len() - 4) =~= decimal(i));
    assert(b.take(b.len() - 4) =~= decimal(j));
    lemma_decimal_injective(i, j);
}

impl MountRequest {
    /// Asks for `contents` at `container_path`, by way of the file number `index` in the
    /// directory `inputs`.
    pub fn new(
        style: PathStyle,
        inputs: &str,
        index: usize,
        container_path: &str,
        contents: &str,
    ) -> (r: MountRequest)
        ensures
            r@ == (RequestView {
                local_path: local_path_of(style, inputs@, index as nat),
                container_path: container_path@,
                contents: contents@,
            }),
    {
        let mut name = to_decimal(index as u128);
        name.append(".txt");
        proof {
            lemma_file_name(index as nat);
        }
        MountRequest {
            local_path: join(style, inputs, name.as_str()),
            container_path: container_path.to_string(),
            contents: contents.to_string(),
        }
    }

    /// The file that the contents are to be stored in.
    pub fn local_path(&self) -> (path: &str)
        ensures
            path@ == self@.local_path,
    {
        self.local_path.as_str()
    }

    /// What is to be stored.
    pub fn contents(&self) -> (contents: &str)
        ensures
            contents@ == self@.contents,
    {
        self.contents.as_str()
    }

    /// Performs the requested mount, once the contents have been written to the local path:
    /// `written` says how that went.
    pub fn mount(self, written: Outcome<()>) -> (res: Result<Mount>)
        ensures
            match written {
                Ok(_) => res matches Ok(mount) && mount@ == self@.mounted() && mount@.local_path
                    == self@.local_path && mount@.container_path == self@.container_path,
                Err(source) => res == Err::<Mount, Error>(
                    Error::UnableToCreateSourceFile { source },
                ),
            },
    {
        match written {
            Ok(_) => Ok(
                Mount { local_path: self.local_path, container_path: self.container_path },
            ),
            Err(source) => Err(Error::UnableToCreateSourceFile { source }),
        }
    }
}

impl Mount {
    /// The local file.
    pub fn local_path(&self) -> (path: &str)
        ensures
            path@ == self@.local_path,
    {
        self.local_path.as_str()
    }

    /// The mount as docker's `--volume` takes it.
    pub fn to_command(&self) -> (s: String)
        ensures
            s@ == self@.volume(),
            s@ == self@.local_path + seq![':'] + self@.container_path,
    {
        let mut s = self.local_path.clone();
        proof {
            reveal_strlit(":");
        }
        s.append(":");
        assert(s@ =~= self.local_path@.push(':'));
        s.append(self.container_path.as_str());
        assert(s@ =~= self@.local_path + seq![':'] + self@.container_path);
        s
    }
}

} // verus!
