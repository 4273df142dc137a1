use vstd::hash_map::HashMapWithView;
use vstd::prelude::*;
use vstd::string::*;

use crate::external::{
    decimal_text, parse_uuid, parse_version, u64_text, uuid_error_message, uuid_error_text,
    uuid_parse, version_parse,
};
use crate::host::JobError;
use crate::models::{Frame, Job, JobId, RenderMode, Ticket, Version, WithId};

verus! {

/// A rendered frame of a job and the path of its image.
#[derive(Debug)]
pub struct RenderInfo {
    pub job_id: JobId,
    pub frame: Frame,
    pub render_path: String,
}

/// Why the render store failed (its message).
#[derive(Debug)]
pub enum RenderError {
    DatabaseError(String),
}

/// A row of the render table, as read.
#[derive(Debug)]
pub struct RenderDAO {
    pub id: String,
    pub job_id: String,
    pub frame: i64,
    pub render_path: String,
}

/// The row's identifiers both read as UUIDs.
pub open spec fn render_row_ids_parse(row: RenderDAO) -> bool {
    uuid_parse(row.id@) is Some && uuid_parse(row.job_id@) is Some
}

impl RenderDAO {
    /// The record of the row: its identifiers read as UUIDs, its frame number
    /// cut to 32 bits as a cast does, its path as stored. A row whose record id
    /// or job id is not a UUID is a database error.
    pub fn to_record(&self) -> (r: Result<WithId<RenderInfo>, RenderError>)
        ensures
            render_row_ids_parse(*self) <==> r is Ok,
            r matches Ok(rec) ==> {
                &&& Some(rec.id) == uuid_parse(self.id@)
                &&& Some(rec.item.job_id) == uuid_parse(self.job_id@)
                &&& rec.item.frame == self.frame as i32
                &&& rec.item.render_path@ == self.render_path@
            },
            uuid_parse(self.id@) is None ==> (r matches Err(RenderError::DatabaseError(m)) && m@
                == uuid_error_message(self.id@)),
            uuid_parse(self.id@) is Some && uuid_parse(self.job_id@) is None ==> (r matches Err(
                RenderError::DatabaseError(m),
            ) && m@ == uuid_error_message(self.job_id@)),
    {
        let id = match parse_uuid(self.id.as_str()) {
            Ok(id) => id,
            Err(_) => return Err(RenderError::DatabaseError(uuid_error_text(self.id.as_str()))),
        };
        let job_id = match parse_uuid(self.job_id.as_str()) {
            Ok(id) => id,
            Err(_) => return Err(RenderError::DatabaseError(uuid_error_text(self.job_id.as_str()))),
        };
        let info = RenderInfo { job_id, frame: self.frame as i32, render_path: self.render_path.clone() };
        Ok(WithId { id, item: info })
    }
}

/// The frames of a set of render rows with the paths of their images: each row
/// whose identifiers read adds its frame, and a later row of the same frame
/// replaces an earlier one; rows that do not read are skipped.
pub open spec fn frame_paths(rows: Seq<RenderDAO>) -> Map<Frame, Seq<char>>
    decreases rows.len(),
{
    if rows.len() == 0 {
        Map::empty()
    } else {
        let last = rows.last();
        let before = frame_paths(rows.drop_last());
        if render_row_ids_parse(last) {
            before.insert(last.frame as i32, last.render_path@)
        } else {
            before
        }
    }
}

/// Collects the rendered frames of the rows read from the render table.
pub fn collect_frames(rows: &Vec<RenderDAO>) -> (m: HashMapWithView<Frame, String>)
    ensures
        m@.map_values(|p: String| p@) == frame_paths(rows@),
{
    let mut map: HashMapWithView<Frame, String> = HashMapWithView::new();
    let mut i: usize = 0;
    proof {
        assert(map@.map_values(|p: String| p@) =~= frame_paths(rows@.take(0)));
    }
    while i < rows.len()
        invariant
            0 <= i <= rows.len(),
            map@.map_values(|p: String| p@) == frame_paths(rows@.take(i as int)),
        decreases rows.len() - i,
    {
        let ghost before = map@;
        proof {
            assert(rows@.take(i + 1).drop_last() =~= rows@.take(i as int));
        }
        match rows[i].to_record() {
            Ok(record) => {
                map.insert(record.item.frame, record.item.render_path);
                proof {
                    assert(map@.map_values(|p: String| p@) =~= before.map_values(|p: String| p@).insert(
                        rows@[i as int].frame as i32,
                        rows@[i as int].render_path@,
                    ));
                }
            },
            Err(_) => {},
        }
        i = i + 1;
    }
    proof {
        assert(rows@.take(rows.len() as int) =~= rows@);
    }
    map
}

/// A row of the job table, as read: its id text, and the mode, project file,
/// Blender version and output path stored with it.
#[derive(Debug)]
pub struct JobDAO {
    pub id: String,
    pub mode: RenderMode,
    pub project_file: String,
    pub blender_version: Version,
    pub output_path: String,
}

impl JobDAO {
    /// The job of the row. `checked` is the outcome of making the job from its
    /// parts (the check that its project file is a Blender project), made by
    /// the caller. An id that is not a UUID is a database error with the
    /// parse error's message; then a failed check is that check's error;
    /// otherwise the job carries the row's id and parts.
    pub fn dto_to_obj(self, checked: Result<(), JobError>) -> (r: Result<WithId<Job>, JobError>)
        ensures
            uuid_parse(self.id@) is None ==> (r matches Err(JobError::DatabaseError(m)) && m@
                == uuid_error_message(self.id@)),
            uuid_parse(self.id@) matches Some(u) ==> match checked {
                Err(e) => r == Err::<WithId<Job>, JobError>(e),
                Ok(_) => r matches Ok(j) && j.id == u && j.item.mode == self.mode
                    && j.item.project_file == self.project_file && j.item.blender_version
                    == self.blender_version && j.item.output == self.output_path,
            },
    {
        let id = match parse_uuid(self.id.as_str()) {
            Ok(id) => id,
            Err(_) => return Err(JobError::DatabaseError(uuid_error_text(self.id.as_str()))),
        };
        match checked {
            Err(e) => Err(e),
            Ok(_) => Ok(
                WithId {
                    id,
                    item: Job {
                        mode: self.mode,
                        project_file: self.project_file,
                        blender_version: self.blender_version,
                        output: self.output_path,
                    },
                },
            ),
        }
    }
}

/// A row of the ticket table, as read.
#[derive(Debug)]
pub struct TicketDAO {
    pub id: String,
    pub job_id: String,
    pub blend_path: String,
    pub blender_version: String,
    pub start: i64,
    pub end: i64,
}

/// The row's identifiers read as UUIDs and its Blender version as a version.
pub open spec fn ticket_row_parses(row: TicketDAO) -> bool {
    &&& uuid_parse(row.id@) is Some
    &&& uuid_parse(row.job_id@) is Some
    &&& version_parse(row.blender_version@) is Some
}

/// The ticket stored in a well-formed row: its identifiers and version as read,
/// its project path as stored, its frames cut to 32 bits, no output yet.
pub open spec fn is_ticket_of_row(rec: WithId<Ticket>, row: TicketDAO) -> bool {
    let v = version_parse(row.blender_version@).unwrap();
    &&& Some(rec.id) == uuid_parse(row.id@)
    &&& Some(rec.item.job_id) == uuid_parse(row.job_id@)
    &&& rec.item.blend_path@ == row.blend_path@
    &&& (rec.item.blender_version.major, rec.item.blender_version.minor, rec.item.blender_version.patch)
        == (v.0, v.1, v.2)
    &&& rec.item.blender_version.pre@ == v.3
    &&& rec.item.blender_version.build@ == v.4
    &&& rec.item.output@ == Seq::<char>::empty()
    &&& rec.item.start == row.start as i32
    &&& rec.item.end == row.end as i32
}

impl TicketDAO {
    /// The ticket stored in a row whose identifiers and version read.
    pub fn dto_to_ticket(self) -> (rec: WithId<Ticket>)
        requires
            ticket_row_parses(self),
        ensures
            is_ticket_of_row(rec, self),
    {
        let id = match parse_uuid(self.id.as_str()) {
            Ok(id) => id,
            Err(_) => vstd::pervasive::unreached(),
        };
        let job_id = match parse_uuid(self.job_id.as_str()) {
            Ok(id) => id,
            Err(_) => vstd::pervasive::unreached(),
        };
        let version = match parse_version(self.blender_version.as_str()) {
            Ok(v) => v,
            Err(_) => vstd::pervasive::unreached(),
        };
        let item = Ticket::new(
            job_id,
            self.blend_path,
            version,
            String::new(),
            self.start as i32,
            self.end as i32,
        );
        WithId { id, item }
    }

    /// The ticket of a row, or `None` when its identifiers or version do not
    /// read (such a row is refused rather than decoded).
    pub fn try_dto_to_ticket(self) -> (rec: Option<WithId<Ticket>>)
        ensures
            ticket_row_parses(self) <==> rec is Some,
            rec matches Some(r) ==> is_ticket_of_row(r, self),
    {
        let ok_id = parse_uuid(self.id.as_str()).is_ok();
        let ok_job = parse_uuid(self.job_id.as_str()).is_ok();
        let ok_version = parse_version(self.blender_version.as_str()).is_ok();
        if ok_id && ok_job && ok_version {
            Some(self.dto_to_ticket())
        } else {
            None
        }
    }
}

/// A file offered to the farm, as the host records it.
#[derive(Debug)]
pub struct Advertise {
    pub id: JobId,
    pub ad_name: String,
    pub file_path: String,
}

/// A row of the advertisement table, as read.
#[derive(Debug)]
pub struct AdvertiseDAO {
    pub id: String,
    pub ad_name: String,
    pub file_path: String,
}

impl AdvertiseDAO {
    /// The advertisement stored in a row whose id reads as a UUID.
    pub fn dto_to_obj(self) -> (a: Advertise)
        requires
            uuid_parse(self.id@) is Some,
        ensures
            Some(a.id) == uuid_parse(self.id@),
            a.ad_name == self.ad_name,
            a.file_path == self.file_path,
    {
        let id = match parse_uuid(self.id.as_str()) {
            Ok(id) => id,
            Err(_) => vstd::pervasive::unreached(),
        };
        Advertise { id, ad_name: self.ad_name, file_path: self.file_path }
    }

    /// The advertisement of a row, or `None` when its id does not read.
    pub fn try_dto_to_obj(self) -> (a: Option<Advertise>)
        ensures
            uuid_parse(self.id@) is Some <==> a is Some,
            a matches Some(ad) ==> Some(ad.id) == uuid_parse(self.id@) && ad.ad_name == self.ad_name
                && ad.file_path == self.file_path,
    {
        if parse_uuid(self.id.as_str()).is_ok() {
            Some(self.dto_to_obj())
        } else {
            None
        }
    }
}

/// The outcome of updating a job, from the number of rows the update touched
/// (or the database's failure): exactly one row is success; none means the job
/// was not found; more is reported with their count.
pub fn update_outcome(rows: Result<u64, String>) -> (r: Result<(), JobError>)
    ensures
        match rows {
            Ok(n) => if n == 1 {
                r is Ok
            } else if n == 0 {
                r matches Err(JobError::DatabaseError(m)) && m@
                    == "Unable to find record! No record was affected!"@
            } else {
                r matches Err(JobError::DatabaseError(m)) && m@ == "More than one records was affected! "@
                    + decimal_text(n as nat)
            },
            Err(msg) => r == Err::<(), JobError>(JobError::DatabaseError(msg)),
        },
{
    match rows {
        Ok(n) => if n == 1 {
            Ok(())
        } else if n == 0 {
            Err(JobError::DatabaseError(String::from_str("Unable to find record! No record was affected!")))
        } else {
            let count = u64_text(n);
            Err(JobError::DatabaseError(String::from_str("More than one records was affected! ").concat(count.as_str())))
        },
        Err(msg) => Err(JobError::DatabaseError(msg)),
    }
}

/// The jobs among the decoded rows of the job table: rows that failed to decode
/// are left out, the rest keep their order.
pub open spec fn decoded_jobs(rows: Seq<Result<WithId<Job>, JobError>>) -> Seq<WithId<Job>>
    decreases rows.len(),
{
    if rows.len() == 0 {
        Seq::empty()
    } else {
        let before = decoded_jobs(rows.drop_last());
        match rows.last() {
            Ok(job) => before.push(job),
            Err(_) => before,
        }
    }
}

/// Keeps the jobs that decoded, in order.
pub fn keep_decoded(rows: Vec<Result<WithId<Job>, JobError>>) -> (jobs: Vec<WithId<Job>>)
    ensures
        jobs@ == decoded_jobs(rows@),
{
    let mut rows = rows;
    let ghost all = rows@;
    let mut jobs: Vec<WithId<Job>> = Vec::new();
    while rows.len() > 0
        invariant
            rows.len() <= all.len(),
            rows@ == all.skip(all.len() - rows.len()),
            jobs@ == decoded_jobs(all.take(all.len() - rows.len())),
        decreases rows.len(),
    {
        let ghost k = all.len() - rows.len();
        let r = rows.remove(0);
        proof {
            assert(all.take(k + 1).drop_last() =~= all.take(k));
            assert(all.skip(k)[0] == all[k]);
            assert(rows@ =~= all.skip(k + 1));
        }
        match r {
            Ok(job) => jobs.push(job),
            Err(_) => {},
        }
    }
    proof {
        assert(all.take(all.len() as int) =~= all);
    }
    jobs
}

} // verus!
