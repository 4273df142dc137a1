use vstd::prelude::*;

verus! {

/// Identifier of a job, a ticket or a record: the 128 bits of a UUID.
pub type JobId = u128;

/// A frame number as Blender counts them.
pub type Frame = i32;

/// What part of a scene a job renders.
#[derive(Debug, Clone, Copy, PartialEq, Eq)]
pub enum RenderMode {
    /// Every frame from `start` to `end`.
    Animation { start: Frame, end: Frame },
    /// A single frame.
    Frame(Frame),
}

impl RenderMode {
    /// The first and the last frame of the mode; a single frame is both.
    pub open spec fn range(self) -> (int, int) {
        match self {
            RenderMode::Animation { start, end } => (start as int, end as int),
            RenderMode::Frame(f) => (f as int, f as int),
        }
    }

    pub fn get_range(&self) -> (r: (Frame, Frame))
        ensures
            (r.0 as int, r.1 as int) == self.range(),
    {
        match self {
            RenderMode::Animation { start, end } => (*start, *end),
            RenderMode::Frame(f) => (*f, *f),
        }
    }
}

/// A semantic version number, as the blender version of a job is written.
#[derive(Debug)]
pub struct Version {
    pub major: u64,
    pub minor: u64,
    pub patch: u64,
    /// Pre-release identifiers, without the leading `-` (empty when none).
    pub pre: String,
    /// Build metadata, without the leading `+` (empty when none).
    pub build: String,
}

impl Version {
    pub fn new(major: u64, minor: u64, patch: u64) -> (v: Version)
        ensures
            v.major == major,
            v.minor == minor,
            v.patch == patch,
            v.pre@ == Seq::<char>::empty(),
            v.build@ == Seq::<char>::empty(),
    {
        Version { major, minor, patch, pre: String::new(), build: String::new() }
    }

    /// An equal copy of the version.
    pub fn duplicate(&self) -> (v: Version)
        ensures
            v == *self,
    {
        Version {
            major: self.major,
            minor: self.minor,
            patch: self.patch,
            pre: self.pre.clone(),
            build: self.build.clone(),
        }
    }
}

/// A render job: which frames of which project, with which Blender, to where.
#[derive(Debug)]
pub struct Job {
    pub mode: RenderMode,
    /// Path of the `.blend` project file.
    pub project_file: String,
    pub blender_version: Version,
    /// Directory that receives the rendered images.
    pub output: String,
}

impl Job {
    pub fn get_range(&self) -> (r: (Frame, Frame))
        ensures
            (r.0 as int, r.1 as int) == self.mode.range(),
    {
        self.mode.get_range()
    }

    /// An equal copy of the job.
    pub fn duplicate(&self) -> (j: Job)
        ensures
            j == *self,
    {
        Job {
            mode: self.mode,
            project_file: self.project_file.clone(),
            blender_version: self.blender_version.duplicate(),
            output: self.output.clone(),
        }
    }
}

/// A stored item together with the identifier that its record was given.
#[derive(Debug)]
pub struct WithId<T> {
    pub id: JobId,
    pub item: T,
}

impl WithId<Job> {
    /// An equal copy of the stored job.
    pub fn duplicate(&self) -> (j: WithId<Job>)
        ensures
            j == *self,
    {
        WithId { id: self.id, item: self.item.duplicate() }
    }
}

/// A unit of work handed to one node: the frames `start..end` of a job.
#[derive(Debug)]
pub struct Ticket {
    pub job_id: JobId,
    pub blend_path: String,
    pub blender_version: Version,
    pub output: String,
    pub start: Frame,
    pub end: Frame,
}

impl Ticket {
    pub fn new(
        job_id: JobId,
        blend_path: String,
        blender_version: Version,
        output: String,
        start: Frame,
        end: Frame,
    ) -> (t: Ticket)
        ensures
            t.job_id == job_id,
            t.blend_path == blend_path,
            t.blender_version == blender_version,
            t.output == output,
            t.start == start,
            t.end == end,
    {
        Ticket { job_id, blend_path, blender_version, output, start, end }
    }

    /// The ticket of a stored job for the frames `start..=end`: it renders the
    /// job's project with the job's Blender into the job's output directory.
    pub fn from_job(job: &WithId<Job>, start: Frame, end: Frame) -> (t: Ticket)
        ensures
            t.job_id == job.id,
            t.blend_path == job.item.project_file,
            t.blender_version == job.item.blender_version,
            t.output == job.item.output,
            t.start == start,
            t.end == end,
    {
        Ticket::new(
            job.id,
            job.item.project_file.clone(),
            job.item.blender_version.duplicate(),
            job.item.output.clone(),
            start,
            end,
        )
    }
}

} // verus!
