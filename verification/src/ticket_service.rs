use vstd::prelude::*;

use crate::models::{Frame, Job, Ticket, WithId};

verus! {

/// Splits jobs into tickets of at most `max_frame_alloc` frames each.
#[derive(Debug, Clone, Copy)]
pub struct TicketService {
    max_frame_alloc: u32,
}

/// The frame bounds of the tickets cut from `start..end`: each one begins
/// where the last ended and spans at most `max` frames.
pub open spec fn ticket_bounds(start: int, end: int, max: int) -> Seq<(int, int)>
    decreases end - start,
{
    if start < end && max > 0 {
        let until = if end - start <= max { end } else { start + max };
        seq![(start, until)] + ticket_bounds(until, end, max)
    } else {
        Seq::empty()
    }
}

/// `t` is the ticket of `job` for the frames `bounds.0..bounds.1`.
pub open spec fn is_ticket_of(t: Ticket, job: WithId<Job>, bounds: (int, int)) -> bool {
    &&& t.job_id == job.id
    &&& t.blend_path == job.item.project_file
    &&& t.blender_version == job.item.blender_version
    &&& t.output@ == Seq::<char>::empty()
    &&& t.start as int == bounds.0
    &&& t.end as int == bounds.1
}

/// The tickets cut from `start..end` partition it: none when the range is
/// empty; otherwise the first begins at `start`, the last ends at `end`, each
/// begins where the one before ended, each holds between one and `max`
/// frames, and there are as many as `max`-frame blocks are needed to cover
/// the range (the frame count divided by `max`, rounded up).
pub proof fn ticket_bounds_partition(start: int, end: int, max: int)
    requires
        max > 0,
    ensures
        start >= end ==> ticket_bounds(start, end, max).len() == 0,
        start < end ==> {
            let b = ticket_bounds(start, end, max);
            &&& b.len() > 0
            &&& b[0].0 == start
            &&& b[b.len() - 1].1 == end
            &&& b.len() == (end - start + max - 1) / max
        },
        forall|i: int|
            #![trigger ticket_bounds(start, end, max)[i]]
            0 <= i < ticket_bounds(start, end, max).len() ==> {
                let t = ticket_bounds(start, end, max)[i];
                &&& start <= t.0 < t.1 <= end
                &&& t.1 - t.0 <= max
            },
        forall|i: int|
            0 <= i < ticket_bounds(start, end, max).len() - 1 ==> (#[trigger] ticket_bounds(
                start,
                end,
                max,
            )[i]).1 == ticket_bounds(start, end, max)[i + 1].0,
    decreases end - start,
{
    if start < end {
        let until = if end - start <= max { end } else { start + max };
        let b = ticket_bounds(start, end, max);
        let rest = ticket_bounds(until, end, max);
        ticket_bounds_partition(until, end, max);
        assert(b == seq![(start, until)] + rest);
        assert forall|i: int| 0 < i < b.len() implies b[i] == rest[i - 1] by {}
        if end - start <= max {
            assert(rest.len() == 0);
            assert((end - start + max - 1) / max == 1) by (nonlinear_arith)
                requires
                    0 < end - start <= max,
            ;
        } else {
            let x = end - start + max - 1;
            assert((x - max) / max + 1 == x / max) by (nonlinear_arith)
                requires
                    x >= max,
                    max > 0,
            ;
        }
        assert forall|i: int|
            0 <= i < b.len() - 1 implies (#[trigger] b[i]).1 == b[i + 1].0 by {
            if i > 0 {
                assert(rest[i - 1].1 == rest[i].0);
            }
        }
    }
}

impl TicketService {
    /// The largest number of frames that one ticket may span.
    pub closed spec fn max_frames(&self) -> int {
        self.max_frame_alloc as int
    }

    pub fn new(max_frame_alloc: u32) -> (s: Self)
        ensures
            s.max_frames() == max_frame_alloc,
    {
        TicketService { max_frame_alloc }
    }

    /// Cuts the frame range of `job` into tickets, in order. A job without
    /// frames has no tickets, whatever the block size.
    pub fn generate_tickets(&self, job: WithId<Job>) -> (tickets: Vec<Ticket>)
        requires
            job.item.mode.range().0 < job.item.mode.range().1 ==> 0 < self.max_frames() <= i32::MAX,
        ensures
            tickets.len() == ticket_bounds(
                job.item.mode.range().0,
                job.item.mode.range().1,
                self.max_frames(),
            ).len(),
            forall|i: int|
                0 <= i < tickets.len() ==> is_ticket_of(
                    #[trigger] tickets[i],
                    job,
                    ticket_bounds(
                        job.item.mode.range().0,
                        job.item.mode.range().1,
                        self.max_frames(),
                    )[i],
                ),
    {
        let ghost all = ticket_bounds(job.item.mode.range().0, job.item.mode.range().1, self.max_frames());
        let max: u32 = self.max_frame_alloc;
        let mut collection: Vec<Ticket> = Vec::new();
        let (mut idx, end) = job.item.get_range();
        let ghost mut done: Seq<(int, int)> = Seq::empty();
        while idx < end
            invariant
                job.item.mode.range().0 < end ==> 0 < max <= i32::MAX,
                job.item.mode.range().0 <= idx,
                max == self.max_frames(),
                end == job.item.mode.range().1,
                all == ticket_bounds(job.item.mode.range().0, job.item.mode.range().1, self.max_frames()),
                all == done + ticket_bounds(idx as int, end as int, max as int),
                collection.len() == done.len(),
                forall|i: int| 0 <= i < collection.len() ==> is_ticket_of(#[trigger] collection[i], job, done[i]),
            decreases end - idx,
        {
            let until: Frame = if (end as i64) - (idx as i64) <= max as i64 {
                end
            } else {
                idx + max as i32
            };
            let ticket = Ticket::new(
                job.id,
                job.item.project_file.clone(),
                job.item.blender_version.duplicate(),
                String::new(),
                idx,
                until,
            );
            collection.push(ticket);
            proof {
                let rest = ticket_bounds(until as int, end as int, max as int);
                assert(ticket_bounds(idx as int, end as int, max as int) == seq![(idx as int, until as int)] + rest);
                assert(done + (seq![(idx as int, until as int)] + rest) =~= done.push((idx as int, until as int)) + rest);
                done = done.push((idx as int, until as int));
            }
            idx = until;
        }
        proof {
            assert(done + ticket_bounds(idx as int, end as int, max as int) =~= done);
        }
        collection
    }
}

} // verus!
