use vstd::prelude::*;

use crate::models::{Job, JobId, WithId};

verus! {

/// Why the job queue refused a request.
#[derive(Debug, Clone, Copy, PartialEq, Eq)]
pub enum JobManagerError {
    BadInput,
    InvalidJob,
    BlenderError,
    UnexpectedError,
}

impl JobManagerError {
    /// The message that reports the error.
    pub fn message(&self) -> (m: &'static str)
        ensures
            m@ == match self {
                JobManagerError::BadInput => "Received bad input"@,
                JobManagerError::InvalidJob => "Invalid job"@,
                JobManagerError::BlenderError => "Blender errors"@,
                JobManagerError::UnexpectedError => "Unexpected error"@,
            },
    {
        match self {
            JobManagerError::BadInput => "Received bad input",
            JobManagerError::InvalidJob => "Invalid job",
            JobManagerError::BlenderError => "Blender errors",
            JobManagerError::UnexpectedError => "Unexpected error",
        }
    }
}

/// The jobs that this machine holds, in the order they were queued.
pub struct JobManager {
    jobs: Vec<WithId<Job>>,
}

/// The job carries the identifier `id`.
pub open spec fn has_id(id: JobId) -> spec_fn(WithId<Job>) -> bool {
    |j: WithId<Job>| j.id == id
}

/// Filtering keeps a sequence whose elements all pass unchanged.
proof fn filter_keeps_passing(jobs: Seq<WithId<Job>>, id: JobId)
    requires
        forall|i: int| 0 <= i < jobs.len() ==> #[trigger] jobs[i].id == id,
    ensures
        jobs.filter(has_id(id)) == jobs,
    decreases jobs.len(),
{
    reveal(Seq::filter);
    if jobs.len() > 0 {
        let rest = jobs.drop_last();
        assert forall|i: int| 0 <= i < rest.len() implies #[trigger] rest[i].id == id by {
            assert(rest[i] == jobs[i]);
        }
        filter_keeps_passing(rest, id);
        assert(jobs.filter(has_id(id)) =~= rest.push(jobs.last()));
    }
}

/// Keeping the jobs of one id leaves only jobs of that id, never adds any,
/// keeps a queue that holds only that id unchanged, and doing it twice is
/// the same as doing it once.
pub proof fn queue_keep_laws(jobs: Seq<WithId<Job>>, id: JobId)
    ensures
        forall|i: int|
            0 <= i < jobs.filter(has_id(id)).len() ==> (#[trigger] jobs.filter(has_id(id))[i]).id == id,
        jobs.filter(has_id(id)).len() <= jobs.len(),
        (forall|i: int| 0 <= i < jobs.len() ==> #[trigger] jobs[i].id == id) ==> jobs.filter(
            has_id(id),
        ) == jobs,
        jobs.filter(has_id(id)).filter(has_id(id)) == jobs.filter(has_id(id)),
{
    broadcast use vstd::seq_lib::group_filter_ensures;

    let kept = jobs.filter(has_id(id));
    assert forall|i: int| 0 <= i < kept.len() implies (#[trigger] kept[i]).id == id by {
        jobs.lemma_filter_pred(has_id(id), i);
    }
    filter_keeps_passing(kept, id);
    if forall|i: int| 0 <= i < jobs.len() ==> #[trigger] jobs[i].id == id {
        filter_keeps_passing(jobs, id);
    }
}

impl View for JobManager {
    type V = Seq<WithId<Job>>;

    closed spec fn view(&self) -> Seq<WithId<Job>> {
        self.jobs@
    }
}

impl Default for JobManager {
    fn default() -> (m: Self)
        ensures
            m@ == Seq::<WithId<Job>>::empty(),
    {
        JobManager { jobs: Vec::new() }
    }
}

impl JobManager {
    /// Appends a job to the end of the queue; it always succeeds.
    pub fn add_to_queue(&mut self, job: WithId<Job>) -> (r: Result<(), JobManagerError>)
        ensures
            final(self)@ == old(self)@.push(job),
            r is Ok,
    {
        self.jobs.push(job);
        Ok(())
    }

    /// Keeps, in their order, exactly the queued jobs whose identifier is `id`,
    /// and drops every other job; it always succeeds.
    pub fn remove_from_queue(&mut self, id: JobId) -> (r: Result<(), JobManagerError>)
        ensures
            final(self)@ == old(self)@.filter(has_id(id)),
            r is Ok,
    {
        let mut kept: Vec<WithId<Job>> = Vec::new();
        let n = self.jobs.len();
        let mut i: usize = 0;
        while i < n
            invariant
                0 <= i <= n,
                n == self.jobs.len(),
                self.jobs@ == old(self)@,
                kept@ == self.jobs@.take(i as int).filter(has_id(id)),
            decreases n - i,
        {
            proof {
                self.jobs@.take(i as int).lemma_filter_push(self.jobs@[i as int], has_id(id));
                assert(self.jobs@.take(i as int).push(self.jobs@[i as int]) =~= self.jobs@.take(i + 1));
            }
            if self.jobs[i].id == id {
                kept.push(self.jobs[i].duplicate());
            }
            i = i + 1;
        }
        proof {
            assert(self.jobs@.take(n as int) =~= self.jobs@);
        }
        self.jobs = kept;
        Ok(())
    }

    /// The queued jobs, in order.
    pub fn as_ref(&self) -> (jobs: &Vec<WithId<Job>>)
        ensures
            jobs@ == self@,
    {
        &self.jobs
    }
}

} // verus!
