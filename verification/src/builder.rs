//! Putting a sandbox together.
use vstd::prelude::*;

use crate::command::texts;
use crate::duration::{seconds, Duration};
use crate::error::{Error, Outcome, Result};
use crate::mount::{local_path_of, Mount, MountId, MountRequest, MountView, RequestView};
use crate::path::{is_file_name, join, joined, PathStyle};
use crate::sandbox::{Sandbox, SandboxView};
use crate::text::decimal;

verus! {

/// What the name of a scratch directory starts with.
pub const SCRATCH_PREFIX: &'static str = "playground";

/// The soft timeout of a sandbox that sets none, in seconds.
pub const DOCKER_PROCESS_TIMEOUT_SOFT: u64 = 4;

/// The hard timeout of a sandbox that sets none, in seconds.
pub const DOCKER_PROCESS_TIMEOUT_HARD: u64 = 8;

// ---------------------------------------------------------------------------
// Models
// ---------------------------------------------------------------------------
/// What a [`Preparation`] holds.
pub struct PreparationView {
    pub serial: u64,
    pub style: PathStyle,
    pub image: Seq<char>,
    pub scratch: Seq<char>,
    pub inputs: Seq<char>,
}

impl PreparationView {
    /// What holds of every preparation: its inputs are below its scratch directory.
    pub open spec fn wf(self) -> bool {
        self.inputs == joined(self.style, self.scratch, "inputs"@)
    }

    /// The builder that this leads to.
    pub open spec fn empty_builder(self) -> BuilderView {
        BuilderView {
            serial: self.serial,
            style: self.style,
            image: self.image,
            entry_point: Seq::empty(),
            scratch: self.scratch,
            inputs: self.inputs,
            mounts: Seq::empty(),
            soft_timeout: None,
            hard_timeout: None,
        }
    }
}

/// What a [`SandboxBuilder`] holds.
pub struct BuilderView {
    pub serial: u64,
    pub style: PathStyle,
    pub image: Seq<char>,
    pub entry_point: Seq<Seq<char>>,
    pub scratch: Seq<char>,
    pub inputs: Seq<char>,
    pub mounts: Seq<RequestView>,
    pub soft_timeout: Option<Duration>,
    pub hard_timeout: Option<Duration>,
}

/// Is the soft timeout no longer than the hard one?
pub open spec fn ordered(soft_timeout: Duration, hard_timeout: Duration) -> bool {
    soft_timeout@ <= hard_timeout@
}

impl BuilderView {
    /// What holds of every builder: its inputs are below its scratch directory, each mount has
    /// the local file of its number, and the timeouts are set together, the soft one no longer
    /// than the hard one.
    pub open spec fn wf(self) -> bool {
        &&& self.inputs == joined(self.style, self.scratch, "inputs"@)
        &&& forall|i: int|
            0 <= i < self.mounts.len() ==> (#[trigger] self.mounts[i]).local_path == local_path_of(
                self.style,
                self.inputs,
                i as nat,
            )
        &&& match (self.soft_timeout, self.hard_timeout) {
            (Some(soft), Some(hard)) => ordered(soft, hard),
            (None, None) => true,
            _ => false,
        }
    }

    /// The request to have `contents` at `container_path`, next to those already made.
    pub open spec fn request(self, container_path: Seq<char>, contents: Seq<char>) -> RequestView {
        RequestView {
            local_path: local_path_of(self.style, self.inputs, self.mounts.len()),
            container_path,
            contents,
        }
    }

    /// The builder with one more mount.
    pub open spec fn mount(self, container_path: Seq<char>, contents: Seq<char>) -> BuilderView {
        BuilderView { mounts: self.mounts.push(self.request(container_path, contents)), ..self }
    }

    /// The sandbox that the builder describes, with `mounts` for its mounts.
    pub open spec fn sandbox_with(self, mounts: Seq<MountView>) -> SandboxView {
        SandboxView {
            serial: self.serial,
            image: self.image,
            scratch: self.scratch,
            inputs: self.inputs,
            mounts,
            entry_point: self.entry_point,
            soft_timeout: match self.soft_timeout {
                Some(timeout) => timeout,
                None => seconds(DOCKER_PROCESS_TIMEOUT_SOFT),
            },
            hard_timeout: match self.hard_timeout {
                Some(timeout) => timeout,
                None => seconds(DOCKER_PROCESS_TIMEOUT_HARD),
            },
        }
    }

    /// The sandbox that the builder describes.
    pub open spec fn sandbox(self) -> SandboxView {
        self.sandbox_with(self.mounts.map_values(|r: RequestView| r.mounted()))
    }

    /// What is left to build behind the first mount.
    pub open spec fn rest(self) -> BuilderView {
        BuilderView { mounts: self.mounts.drop_first(), ..self }
    }

    /// Where a build stands when `mounts` are done and this is left.
    pub open spec fn step(self, mounts: Seq<MountView>) -> BuildStepView {
        if self.mounts.len() > 0 {
            BuildStepView::Write(
                PendingView { mounts, request: self.mounts[0], rest: self.rest() },
            )
        } else {
            BuildStepView::Built(self.sandbox_with(mounts))
        }
    }
}

/// What a [`PendingMount`] holds.
pub struct PendingView {
    /// The mounts whose files have been written.
    pub mounts: Seq<MountView>,
    /// The mount whose file is to be written.
    pub request: RequestView,
    /// All else, with the mounts that come later.
    pub rest: BuilderView,
}

/// Where a build stands.
pub enum BuildStepView {
    Write(PendingView),
    Built(SandboxView),
}

/// What follows the attempt to write a file.
pub open spec fn after_write(pending: PendingView, written: Outcome<()>) -> Result<BuildStepView> {
    match written {
        Err(source) => Err(Error::UnableToCreateSourceFile { source }),
        Ok(_) => Ok(pending.rest.step(pending.mounts.push(pending.request.mounted()))),
    }
}

// ---------------------------------------------------------------------------
// Builder
// ---------------------------------------------------------------------------
/// A builder whose scratch directory exists, but not the directory for its inputs.
#[derive(Debug)]
pub struct Preparation {
    serial: u64,
    style: PathStyle,
    image: String,
    scratch: String,
    inputs: String,
}

impl View for Preparation {
    type V = PreparationView;

    closed spec fn view(&self) -> PreparationView {
        PreparationView {
            serial: self.serial,
            style: self.style,
            image: self.image@,
            scratch: self.scratch@,
            inputs: self.inputs@,
        }
    }
}

/// Builder struct to construct a [`Sandbox`].
#[derive(Debug)]
pub struct SandboxBuilder {
    /// What tells this sandbox from any other
    serial: u64,
    /// How the paths of this system are written
    style: PathStyle,
    /// The name of the docker image that will be used for this sandbox
    image: String,
    /// The entry point to call
    entry_point: Vec<String>,
    /// Temporary directory where all the good stuff is happening
    scratch: String,
    /// Folder which will contain any inputs that need to be mounted
    inputs: String,
    /// Keep track of the files we wish to mount
    mounts: Vec<MountRequest>,
    /// The length of the soft timeout
    soft_timeout: Option<Duration>,
    /// The length of the hard timeout
    hard_timeout: Option<Duration>,
}

impl View for SandboxBuilder {
    type V = BuilderView;

    closed spec fn view(&self) -> BuilderView {
        BuilderView {
            serial: self.serial,
            style: self.style,
            image: self.image@,
            entry_point: texts(self.entry_point@),
            scratch: self.scratch@,
            inputs: self.inputs@,
            mounts: self.mounts@.map_values(|r: MountRequest| r@),
            soft_timeout: self.soft_timeout,
            hard_timeout: self.hard_timeout,
        }
    }
}

impl Preparation {
    /// The directory to create.
    pub fn inputs(&self) -> (path: &str)
        ensures
            path@ == self@.inputs,
    {
        self.inputs.as_str()
    }

    /// Goes on once the directory has been created.
    pub fn resume(self, created: Outcome<()>) -> (res: Result<SandboxBuilder>)
        ensures
            match created {
                Ok(_) => res matches Ok(b) && b@ == self@.empty_builder() && (self@.wf()
                    ==> b@.wf()) && b@ == (BuilderView {
                    serial: self@.serial,
                    style: self@.style,
                    image: self@.image,
                    entry_point: Seq::empty(),
                    scratch: self@.scratch,
                    inputs: self@.inputs,
                    mounts: Seq::empty(),
                    soft_timeout: None,
                    hard_timeout: None,
                }),
                Err(source) => res == Err::<SandboxBuilder, Error>(
                    Error::UnableToCreateTempDir { source },
                ),
            },
    {
        match created {
            Ok(_) => {
                let b = SandboxBuilder {
                    serial: self.serial,
                    style: self.style,
                    image: self.image,
                    entry_point: Vec::new(),
                    scratch: self.scratch,
                    inputs: self.inputs,
                    mounts: Vec::new(),
                    soft_timeout: None,
                    hard_timeout: None,
                };
                assert(b@.entry_point =~= Seq::empty());
                assert(b@.mounts =~= Seq::empty());
                Ok(b)
            },
            Err(source) => Err(Error::UnableToCreateTempDir { source }),
        }
    }
}

impl SandboxBuilder {
    /// Creates a new empty sandbox for `image`, where `scratch` is the temporary directory that
    /// has been created for it, a path in the given `style`. Its files can be told from those of
    /// every sandbox that has another `serial`.
    pub fn new(image: &str, serial: u64, style: PathStyle, scratch: Outcome<String>) -> (res:
        Result<Preparation>)
        ensures
            match scratch {
                Ok(scratch) => res matches Ok(p) && p@ == (PreparationView {
                    serial,
                    style,
                    image: image@,
                    scratch: scratch@,
                    inputs: joined(style, scratch@, "inputs"@),
                }) && p@.wf(),
                Err(source) => res == Err::<Preparation, Error>(
                    Error::UnableToCreateTempDir { source },
                ),
            },
    {
        match scratch {
            Ok(scratch) => {
                // Make a subdirectory to keep our mounts in.
                proof {
                    reveal_strlit("inputs");
                }
                assert(is_file_name("inputs"@));
                let inputs = join(style, scratch.as_str(), "inputs");
                Ok(Preparation { serial, style, image: image.to_string(), scratch, inputs })
            },
            Err(source) => Err(Error::UnableToCreateTempDir { source }),
        }
    }

    /// Set the entry point for this container.
    pub fn entry_point(&mut self, entry_point: &[&str]) -> (res: &mut Self)
        ensures
            res@ == (BuilderView {
                entry_point: entry_point@.map_values(|s: &str| s@),
                ..old(self)@
            }),
            old(self)@.wf() ==> res@.wf(),
            *final(self) == *final(res),
    {
        let mut words: Vec<String> = Vec::new();
        let mut i: usize = 0;
        while i < entry_point.len()
            invariant
                i == words.len(),
                i <= entry_point.len(),
                forall|j: int| 0 <= j < i ==> (#[trigger] words@[j])@ == entry_point@[j]@,
            decreases entry_point.len() - i,
        {
            words.push(entry_point[i].to_string());
            i = i + 1;
        }
        assert(texts(words@) =~= entry_point@.map_values(|s: &str| s@));
        self.entry_point = words;
        self
    }

    /// Sets the soft and hard timeout for this container.
    pub fn with_timeout(&mut self, soft_timeout: Duration, hard_timeout: Duration) -> (res:
        &mut Self)
        requires
            ordered(soft_timeout, hard_timeout),
        ensures
            res@ == (BuilderView {
                soft_timeout: Some(soft_timeout),
                hard_timeout: Some(hard_timeout),
                ..old(self)@
            }),
            old(self)@.wf() ==> res@.wf(),
            *final(self) == *final(res),
    {
        self.soft_timeout = Some(soft_timeout);
        self.hard_timeout = Some(hard_timeout);
        self
    }

    /// Mounts `contents` at the given path within the container.
    pub fn mount(&mut self, container_path: &str, contents: &str) -> (res: Result<MountId>)
        ensures
            res matches Ok(id) && id.serial() == old(self)@.serial && id.index() == old(
                self,
            )@.mounts.len(),
            final(self)@ == old(self)@.mount(container_path@, contents@),
            final(self)@ == (BuilderView { mounts: final(self)@.mounts, ..old(self)@ }),
            final(self)@.mounts.len() == old(self)@.mounts.len() + 1,
            final(self)@.mounts.drop_last() == old(self)@.mounts,
            final(self)@.mounts.last().contents == contents@,
            final(self)@.mounts.last().container_path == container_path@,
            final(self)@.mounts.last().local_path == joined(
                old(self)@.style,
                old(self)@.inputs,
                decimal(old(self)@.mounts.len()) + ".txt"@,
            ),
            old(self)@.wf() ==> final(self)@.wf(),
    {
        let index: usize = self.mounts.len();
        let request = MountRequest::new(
            self.style,
            self.inputs.as_str(),
            index,
            container_path,
            contents,
        );
        self.mounts.push(request);
        assert(self@.mounts =~= old(self)@.mount(container_path@, contents@).mounts);
        assert(self@.mounts.drop_last() =~= old(self)@.mounts);
        Ok(MountId::new(self.serial, index))
    }

    /// Finalizes the container, constructing a [`Sandbox`] which can be executed. After this
    /// point there is no way to mount additional files or change any configuration options.
    pub fn build(self) -> (step: BuildStep)
        ensures
            step@ == self@.step(Seq::empty()),
            self@.mounts.len() > 0 ==> (step matches BuildStep::Write(pending)
                && pending@.mounts.len() == 0 && pending@.request == self@.mounts[0]
                && pending@.rest == (BuilderView { mounts: self@.mounts.drop_first(), ..self@ })),
            self@.mounts.len() == 0 ==> {
                &&& step matches BuildStep::Built(sandbox)
                &&& sandbox@.mounts.len() == 0
                &&& sandbox@.serial == self@.serial
                &&& sandbox@.image == self@.image
                &&& sandbox@.scratch == self@.scratch
                &&& sandbox@.inputs == self@.inputs
                &&& sandbox@.entry_point == self@.entry_point
                &&& self@.soft_timeout matches Some(soft) ==> sandbox@.soft_timeout == soft
                &&& self@.hard_timeout matches Some(hard) ==> sandbox@.hard_timeout == hard
                &&& self@.soft_timeout is None ==> sandbox@.soft_timeout@ == 4_000_000_000
                &&& self@.hard_timeout is None ==> sandbox@.hard_timeout@ == 8_000_000_000
            },
    {
        let mounts: Vec<Mount> = Vec::new();
        assert(mounts@.map_values(|m: Mount| m@) =~= Seq::empty());
        self.next_step(mounts)
    }

    fn next_step(self, mounts: Vec<Mount>) -> (step: BuildStep)
        ensures
            step@ == self@.step(mounts@.map_values(|m: Mount| m@)),
            self@.mounts.len() > 0 ==> (step matches BuildStep::Write(pending) && pending@.mounts
                == mounts@.map_values(|m: Mount| m@) && pending@.request == self@.mounts[0]
                && pending@.rest == (BuilderView { mounts: self@.mounts.drop_first(), ..self@ })),
            self@.mounts.len() == 0 ==> {
                &&& step matches BuildStep::Built(sandbox)
                &&& sandbox@.mounts == mounts@.map_values(|m: Mount| m@)
                &&& sandbox@.serial == self@.serial
                &&& sandbox@.image == self@.image
                &&& sandbox@.scratch == self@.scratch
                &&& sandbox@.inputs == self@.inputs
                &&& sandbox@.entry_point == self@.entry_point
                &&& self@.soft_timeout matches Some(soft) ==> sandbox@.soft_timeout == soft
                &&& self@.hard_timeout matches Some(hard) ==> sandbox@.hard_timeout == hard
                &&& self@.soft_timeout is None ==> sandbox@.soft_timeout@ == 4_000_000_000
                &&& self@.hard_timeout is None ==> sandbox@.hard_timeout@ == 8_000_000_000
            },
    {
        let mut rest = self;
        if rest.mounts.len() > 0 {
            let request = rest.mounts.remove(0);
            assert(rest@.mounts =~= self@.rest().mounts);
            BuildStep::Write(PendingMount { mounts, request, rest })
        } else {
            let soft_timeout = match rest.soft_timeout {
                Some(timeout) => timeout,
                None => Duration::from_secs(DOCKER_PROCESS_TIMEOUT_SOFT),
            };
            let hard_timeout = match rest.hard_timeout {
                Some(timeout) => timeout,
                None => Duration::from_secs(DOCKER_PROCESS_TIMEOUT_HARD),
            };
            BuildStep::Built(
                Sandbox::new(
                    rest.serial,
                    rest.image,
                    rest.scratch,
                    rest.inputs,
                    mounts,
                    rest.entry_point,
                    soft_timeout,
                    hard_timeout,
                ),
            )
        }
    }
}

// ---------------------------------------------------------------------------
// Build
// ---------------------------------------------------------------------------
/// A build that has a file to write.
#[derive(Debug)]
pub struct PendingMount {
    /// The mounts whose files have been written.
    mounts: Vec<Mount>,
    /// The mount whose file is to be written.
    request: MountRequest,
    /// All else, with the mounts that come later.
    rest: SandboxBuilder,
}

impl View for PendingMount {
    type V = PendingView;

    closed spec fn view(&self) -> PendingView {
        PendingView {
            mounts: self.mounts@.map_values(|m: Mount| m@),
            request: self.request@,
            rest: self.rest@,
        }
    }
}

/// Where a build stands.
#[derive(Debug)]
pub enum BuildStep {
    /// A file is to be written.
    Write(PendingMount),
    /// The sandbox is ready.
    Built(Sandbox),
}

impl View for BuildStep {
    type V = BuildStepView;

    open spec fn view(&self) -> BuildStepView {
        match self {
            BuildStep::Write(pending) => BuildStepView::Write(pending@),
            BuildStep::Built(sandbox) => BuildStepView::Built(sandbox@),
        }
    }
}

impl PendingMount {
    /// The file to write, and what to write to it.
    pub fn request(&self) -> (request: &MountRequest)
        ensures
            request@ == self@.request,
    {
        &self.request
    }

    /// Goes on once the file has been written.
    pub fn resume(self, written: Outcome<()>) -> (res: Result<BuildStep>)
        ensures
            match after_write(self@, written) {
                Ok(next) => res matches Ok(step) && step@ == next,
                Err(e) => res == Err::<BuildStep, Error>(e),
            },
            written matches Err(source) ==> res == Err::<BuildStep, Error>(
                Error::UnableToCreateSourceFile { source },
            ),
            written is Ok && self@.rest.mounts.len() > 0 ==> {
                &&& res matches Ok(BuildStep::Write(pending))
                &&& pending@.mounts.len() == self@.mounts.len() + 1
                &&& pending@.mounts.drop_last() == self@.mounts
                &&& pending@.mounts.last().local_path == self@.request.local_path
                &&& pending@.mounts.last().container_path == self@.request.container_path
                &&& pending@.request == self@.rest.mounts[0]
                &&& pending@.rest == (BuilderView {
                    mounts: self@.rest.mounts.drop_first(),
                    ..self@.rest
                })
            },
            written is Ok && self@.rest.mounts.len() == 0 ==> {
                &&& res matches Ok(BuildStep::Built(sandbox))
                &&& sandbox@.mounts.len() == self@.mounts.len() + 1
                &&& sandbox@.mounts.drop_last() == self@.mounts
                &&& sandbox@.mounts.last().local_path == self@.request.local_path
                &&& sandbox@.mounts.last().container_path == self@.request.container_path
                &&& sandbox@.serial == self@.rest.serial
                &&& sandbox@.image == self@.rest.image
                &&& sandbox@.scratch == self@.rest.scratch
                &&& sandbox@.inputs == self@.rest.inputs
                &&& sandbox@.entry_point == self@.rest.entry_point
                &&& self@.rest.soft_timeout matches Some(soft) ==> sandbox@.soft_timeout == soft
                &&& self@.rest.hard_timeout matches Some(hard) ==> sandbox@.hard_timeout == hard
                &&& self@.rest.soft_timeout is None ==> sandbox@.soft_timeout@ == 4_000_000_000
                &&& self@.rest.hard_timeout is None ==> sandbox@.hard_timeout@ == 8_000_000_000
            },
    {
        let mut mounts = self.mounts;
        match self.request.mount(written) {
            Ok(mount) => {
                mounts.push(mount);
                assert(mounts@.map_values(|m: Mount| m@) =~= self@.mounts.push(
                    self@.request.mounted(),
                ));
                assert(mounts@.map_values(|m: Mount| m@).drop_last() =~= self@.mounts);
                Ok(self.rest.next_step(mounts))
            },
            Err(e) => Err(e),
        }
    }
}

} // verus!
