use vstd::prelude::*;

use vstd::hash_map::StringHashMap;
use vstd::string::*;

use crate::events::{ComputerSpec, Event, JobEvent, ServerEvent};
use crate::external::{
    hex_lower, joined_path, parse_peer_id, parse_uuid, parse_version, path_head, path_join,
    path_parent, peer_id_parse, plain_base, relative_part, simple_path, uuid_error_debug,
    uuid_error_debug_text, uuid_parse, uuid_text, uuid_to_string, version_parse,
};
use crate::models::{Frame, Job, JobId, Ticket, Version, WithId};
use crate::server::ProviderRule;

verus! {

/// Rust's integer division, which rounds toward zero.
pub open spec fn trunc_div(a: int, b: int) -> int {
    if a >= 0 {
        if b > 0 { a / b } else { -(a / (-b)) }
    } else {
        if b > 0 { -((-a) / b) } else { (-a) / (-b) }
    }
}

/// The inclusive frame bounds of the tasks that the host plans for the frames
/// `start..=end` in blocks of `chunks`: task `i` begins at block
/// `start + i * chunks` (one frame later for every task but the first) and ends
/// `chunks` frames later, or at `end` when that comes first.
pub open spec fn task_bounds(start: int, end: int, chunks: int) -> Seq<(int, int)> {
    Seq::new(
        (trunc_div(end - start, chunks) + 1) as nat,
        |i: int|
            {
                let block = start + i * chunks;
                (
                    if i > 0 { block + 1 } else { block },
                    if block + chunks < end { block + chunks } else { end },
                )
            },
    )
}

/// For a positive block size and `start <= end`, the planned tasks cover the
/// frames `start..=end` in order without overlap: there are one more of them
/// than whole blocks fit in the range, the first begins at `start`, each later
/// one begins one frame after the previous one ended, every task but the last
/// is nonempty and its bounds lie at most `chunks` apart, and the last ends at `end` (it is
/// empty, beginning at `end + 1`, when the blocks fill the range exactly).
pub proof fn task_bounds_cover(start: int, end: int, chunks: int)
    requires
        chunks > 0,
        start <= end,
    ensures
        ({
            let b = task_bounds(start, end, chunks);
            &&& b.len() == (end - start) / chunks + 1
            &&& b[0].0 == start
            &&& b[b.len() - 1].1 == end
            &&& b[b.len() - 1].0 <= end + 1
            &&& forall|i: int|
                0 <= i < b.len() - 1 ==> {
                    &&& (#[trigger] b[i]).0 <= b[i].1
                    &&& b[i].1 - b[i].0 <= chunks
                    &&& b[i + 1].0 == b[i].1 + 1
                }
        }),
{
    let b = task_bounds(start, end, chunks);
    let n = (end - start) / chunks;
    assert(n * chunks <= end - start < (n + 1) * chunks && n >= 0) by (nonlinear_arith)
        requires
            n == (end - start) / chunks,
            chunks > 0,
            end - start >= 0,
    ;
    assert(b.len() == n + 1);
    assert forall|i: int| 0 <= i < b.len() - 1 implies {
        &&& (#[trigger] b[i]).0 <= b[i].1
        &&& b[i].1 - b[i].0 <= chunks
        &&& b[i + 1].0 == b[i].1 + 1
    } by {
        assert((i + 1) * chunks <= n * chunks && (i + 1) * chunks == i * chunks + chunks && i * chunks >= 0) by (nonlinear_arith)
            requires
                0 <= i < n,
                chunks > 0,
        ;
    }
    assert(n * chunks + chunks == (n + 1) * chunks) by (nonlinear_arith);
}

/// Which Blender installations a listing asks for: a set of two flags.
#[derive(Debug, Clone, Copy, PartialEq, Eq)]
pub struct QueryMode {
    bits: u8,
}

impl QueryMode {
    /// The flag bits: 1 for installations on this machine, 2 for the versions
    /// offered online.
    pub closed spec fn bits(self) -> u8 {
        self.bits
    }

    pub fn local() -> (q: QueryMode)
        ensures
            q.bits() == 1,
    {
        QueryMode { bits: 1 }
    }

    pub fn online() -> (q: QueryMode)
        ensures
            q.bits() == 2,
    {
        QueryMode { bits: 2 }
    }

    /// Both sets of flags together.
    pub fn union(self, other: QueryMode) -> (q: QueryMode)
        ensures
            q.bits() == self.bits() | other.bits(),
    {
        QueryMode { bits: self.bits | other.bits }
    }

    /// Whether every flag of `other` is set here.
    pub fn contains(&self, other: QueryMode) -> (b: bool)
        ensures
            b == (self.bits() & other.bits() == other.bits()),
    {
        self.bits & other.bits == other.bits
    }
}

/// Joining two sets of flags asks for everything that either asks for: the
/// union contains each of them, and the union of the local and online flags
/// asks for both listings.
pub proof fn query_mode_union(a: QueryMode, b: QueryMode)
    ensures
        (a.bits() | b.bits()) & a.bits() == a.bits(),
        (a.bits() | b.bits()) & b.bits() == b.bits(),
        (1u8 | 2u8) & 1u8 == 1u8,
        (1u8 | 2u8) & 2u8 == 2u8,
{
    let x = a.bits();
    let y = b.bits();
    assert((x | y) & x == x) by (bit_vector);
    assert((x | y) & y == y) by (bit_vector);
    assert((1u8 | 2u8) & 1u8 == 1u8) by (bit_vector);
    assert((1u8 | 2u8) & 2u8 == 2u8) by (bit_vector);
}

/// Where a Blender comes from: an executable on this machine, or a download.
#[derive(Debug)]
pub enum Origin {
    Local(String),
    Online(String),
}

/// A Blender version and where to get it.
#[derive(Debug)]
pub struct BlenderQuery {
    pub version: Version,
    pub origin: Origin,
}

impl BlenderQuery {
    pub fn is_install_locally(&self) -> (b: bool)
        ensures
            b == self.origin is Local,
    {
        match self.origin {
            Origin::Local(_) => true,
            _ => false,
        }
    }

    /// The executable's path, or the download address.
    pub fn link(&self) -> (l: String)
        ensures
            l@ == match self.origin {
                Origin::Local(p) => p@,
                Origin::Online(u) => u@,
            },
    {
        match &self.origin {
            Origin::Local(path) => path.clone(),
            Origin::Online(url) => url.clone(),
        }
    }

    /// The directory of a local executable; empty for a download, or for a
    /// path without a parent.
    pub fn parent_dir(&self) -> (d: String)
        ensures
            self.origin is Online ==> d@ == Seq::<char>::empty(),
            self.origin matches Origin::Local(p) ==> d@.len() <= p@.len() && d@ == p@.subrange(
                0,
                d@.len() as int,
            ),
            self.origin matches Origin::Local(p) ==> (simple_path(p@) ==> d@ == path_head(p@)),
    {
        match &self.origin {
            Origin::Local(path) => match path_parent(path.as_str()) {
                Some(p) => p,
                None => String::new(),
            },
            Origin::Online(_) => String::new(),
        }
    }
}

/// The listing of Blender versions asked for with `flags`: first the local
/// installations (version, executable path), when asked for, then the online
/// versions (version, download address), when asked for.
pub open spec fn blender_listing_spec(
    flags: QueryMode,
    local: Seq<(Version, String)>,
    online: Seq<(Version, String)>,
) -> Seq<BlenderQuery> {
    (if flags.bits() & 1 == 1u8 {
        local.map_values(|e: (Version, String)| query_of(e, true))
    } else {
        Seq::empty()
    }) + (if flags.bits() & 2 == 2u8 {
        online.map_values(|e: (Version, String)| query_of(e, false))
    } else {
        Seq::empty()
    })
}

/// The listing entry of a version found on this machine (`local`) or online.
pub open spec fn query_of(e: (Version, String), local: bool) -> BlenderQuery {
    BlenderQuery {
        version: e.0,
        origin: if local { Origin::Local(e.1) } else { Origin::Online(e.1) },
    }
}

fn append_queries(versions: &mut Vec<BlenderQuery>, entries: &Vec<(Version, String)>, local: bool)
    ensures
        final(versions)@ == old(versions)@ + entries@.map_values(
            |e: (Version, String)| query_of(e, local),
        ),
{
    let ghost start = versions@;
    let mut i: usize = 0;
    while i < entries.len()
        invariant
            0 <= i <= entries.len(),
            versions@ == start + entries@.take(i as int).map_values(
                |e: (Version, String)| query_of(e, local),
            ),
        decreases entries.len() - i,
    {
        let entry = &entries[i];
        let origin = if local {
            Origin::Local(entry.1.clone())
        } else {
            Origin::Online(entry.1.clone())
        };
        versions.push(BlenderQuery { version: entry.0.duplicate(), origin });
        proof {
            assert(entries@.take(i + 1).map_values(|e: (Version, String)| query_of(e, local))
                =~= entries@.take(i as int).map_values(|e: (Version, String)| query_of(e, local)).push(
                query_of(entries@[i as int], local),
            ));
        }
        i = i + 1;
    }
    proof {
        assert(entries@.take(entries.len() as int) =~= entries@);
    }
}

/// A question of the user interface about the nodes of the farm.
#[derive(Debug)]
pub enum WorkerAction {
    /// The node with this peer id (text).
    Get(String),
    List,
}

impl WorkerAction {
    /// Two questions are the same when both ask for the same node, or both
    /// ask for the list.
    pub fn same_request(&self, other: &WorkerAction) -> (b: bool)
        ensures
            b == match (self, other) {
                (WorkerAction::Get(l), WorkerAction::Get(r)) => l@ == r@,
                (WorkerAction::List, WorkerAction::List) => true,
                _ => false,
            },
    {
        match (self, other) {
            (WorkerAction::Get(l), WorkerAction::Get(r)) => *l == *r,
            (WorkerAction::List, WorkerAction::List) => true,
            _ => false,
        }
    }
}

/// Where the host keeps projects and rendered images.
#[derive(Debug)]
pub struct ServerSetting {
    pub blend_dir: String,
    pub render_dir: String,
}

impl ServerSetting {
    pub fn duplicate(&self) -> (s: ServerSetting)
        ensures
            s == *self,
    {
        ServerSetting { blend_dir: self.blend_dir.clone(), render_dir: self.render_dir.clone() }
    }
}

/// A request of the user interface about jobs.
#[derive(Debug)]
pub enum JobAction {
    Find(JobId),
    Update(WithId<Job>),
    Create(Job),
    Kill(JobId),
    AskForCompletedList(JobId),
    All,
    Advertise(JobId),
}

/// A call to the job store.
#[derive(Debug)]
pub enum JobStoreCall {
    GetJob(JobId),
    UpdateJob(WithId<Job>),
    AddJob(Job),
    DeleteJob(JobId),
    ListAll,
}

/// Why the job store refused a request (its message).
#[derive(Debug)]
pub enum JobError {
    DatabaseError(String),
    InvalidFile(String),
}

/// How the host carries out a job request: the store call to make first, if
/// any, then the message to broadcast, if any.
#[derive(Debug)]
pub struct JobPlan {
    pub call: Option<JobStoreCall>,
    pub broadcast: Option<ServerEvent>,
}

/// How the host answers a network event.
#[derive(Debug)]
pub enum HostReaction {
    /// Drop the node from the worker store and from the peers: its peer id
    /// text, and the bytes of the peer id it reads as.
    ForgetWorker(String, Vec<u8>),
    ServeFile(String),
    /// A node lists the images it finished for a job: look the job up and
    /// compare.
    CompareImages(JobId, Vec<String>),
    /// A node finished an image of a job: make the job's render directory
    /// (`TauriApp::image_directory`) and fetch the file of that name from the
    /// network into it.
    FetchImage(JobId, String),
    Ignore,
}

/// The program that opens a directory in the file browser of the operating
/// system named `os` (`windows`, `macos` or `linux`); none for other systems.
pub fn open_program(os: &str) -> (p: Option<&'static str>)
    ensures
        os@ == "windows"@ ==> (p matches Some(s) && s@ == "explorer"@),
        os@ == "macos"@ ==> (p matches Some(s) && s@ == "open"@),
        os@ == "linux"@ ==> (p matches Some(s) && s@ == "xdg-open"@),
        os@ != "windows"@ && os@ != "macos"@ && os@ != "linux"@ ==> p is None,
{
    proof {
        reveal_strlit("windows");
        reveal_strlit("macos");
        reveal_strlit("linux");
        assert("macos"@[0] != "windows"@[0]);
        assert("linux"@[0] != "windows"@[0] && "linux"@[0] != "macos"@[0]);
    }
    let name = os.to_owned();
    if name == String::from_str("windows") {
        Some("explorer")
    } else if name == String::from_str("macos") {
        Some("open")
    } else if name == String::from_str("linux") {
        Some("xdg-open")
    } else {
        None
    }
}

/// A job id given as text by the user interface, or `None` when it is not a
/// UUID.
pub fn job_id_from_text(text: &str) -> (id: Option<JobId>)
    ensures
        id == uuid_parse(text@),
{
    match parse_uuid(text) {
        Ok(id) => Some(id),
        Err(_) => None,
    }
}

/// The command that deleting a job given by its id text sends to the host: kill
/// that job. A text that is not a UUID is refused with the parse error's debug
/// text, and nothing is sent.
pub fn delete_job_command(text: &str) -> (r: Result<JobAction, String>)
    ensures
        match uuid_parse(text@) {
            Some(id) => r == Ok::<JobAction, String>(JobAction::Kill(id)),
            None => r matches Err(msg) && msg@ == uuid_error_debug_text(text@),
        },
{
    match parse_uuid(text) {
        Ok(id) => Ok(JobAction::Kill(id)),
        Err(_) => Err(uuid_error_debug(text)),
    }
}

/// The job whose page is asked for by its id text. A text that is not a UUID
/// is refused with `Unable to parse uuid? ` and a line break before the parse
/// error's debug text.
pub fn job_detail_id(text: &str) -> (r: Result<JobId, String>)
    ensures
        match uuid_parse(text@) {
            Some(id) => r == Ok::<JobId, String>(id),
            None => r matches Err(msg) && msg@ == "Unable to parse uuid? \n"@ + uuid_error_debug_text(
                text@,
            ),
        },
{
    match parse_uuid(text) {
        Ok(id) => Ok(id),
        Err(_) => Err(String::from_str("Unable to parse uuid? \n").concat(uuid_error_debug(text).as_str())),
    }
}

/// A Blender version given as text by the user interface, or `None` when it is
/// not a version.
pub fn version_from_text(text: &str) -> (v: Option<Version>)
    ensures
        v is Some <==> version_parse(text@) is Some,
        v matches Some(ver) ==> version_parse(text@) == Some(
            (ver.major, ver.minor, ver.patch, ver.pre@, ver.build@),
        ),
{
    match parse_version(text) {
        Ok(v) => Some(v),
        Err(_) => None,
    }
}

/// The version whose installation is asked for by its text: the request to
/// fetch it is sent only when the text is a version; otherwise the request is
/// refused with `Err(())`.
pub fn fetch_blender_request(text: &str) -> (r: Result<Version, ()>)
    ensures
        match version_parse(text@) {
            Some(parts) => r matches Ok(v) && parts == (v.major, v.minor, v.patch, v.pre@, v.build@),
            None => r == Err::<Version, ()>(()),
        },
{
    match parse_version(text) {
        Ok(v) => Ok(v),
        Err(_) => Err(()),
    }
}

/// The answer to a request for a Blender installation, from what the host sent
/// back: the installation it found, or `Err(())` when it found none.
pub fn fetch_blender_reply<B>(reply: Option<B>) -> (r: Result<B, ()>)
    ensures
        match reply {
            Some(b) => r == Ok::<B, ()>(b),
            None => r == Err::<B, ()>(()),
        },
{
    match reply {
        Some(b) => Ok(b),
        None => Err(()),
    }
}

/// The versions of a Blender listing, in order; none when the listing failed.
pub fn listed_versions(listing: Option<Vec<BlenderQuery>>) -> (v: Vec<Version>)
    ensures
        match listing {
            Some(list) => v@ == list@.map_values(|q: BlenderQuery| q.version),
            None => v@ == Seq::<Version>::empty(),
        },
{
    match listing {
        Some(list) => {
            let mut out: Vec<Version> = Vec::new();
            let mut i: usize = 0;
            while i < list.len()
                invariant
                    0 <= i <= list.len(),
                    out@ == list@.take(i as int).map_values(|q: BlenderQuery| q.version),
                decreases list.len() - i,
            {
                out.push(list[i].version.duplicate());
                proof {
                    assert(list@.take(i + 1).map_values(|q: BlenderQuery| q.version) =~= list@.take(
                        i as int,
                    ).map_values(|q: BlenderQuery| q.version).push(list@[i as int].version));
                }
                i = i + 1;
            }
            proof {
                assert(list@.take(list.len() as int) =~= list@);
            }
            out
        },
        None => Vec::new(),
    }
}

/// The job that the front page shows first: the first listed one, if any.
pub fn front_job(jobs: &Option<Vec<WithId<Job>>>) -> (id: Option<JobId>)
    ensures
        match jobs {
            Some(list) => if list.len() > 0 { id == Some(list[0].id) } else { id is None },
            None => id is None,
        },
{
    match jobs {
        Some(list) => if list.len() > 0 { Some(list[0].id) } else { None },
        None => None,
    }
}

/// An identifier's hyphenated text is a relative path part: it begins with
/// two hexadecimal digits.
pub proof fn uuid_text_is_relative(id: u128)
    ensures
        relative_part(uuid_text(id)),
{
    let t = uuid_text(id);
    let d0 = (id as int / vstd::arithmetic::power2::pow2((4 * 31) as nat) as int) % 16;
    let d1 = (id as int / vstd::arithmetic::power2::pow2((4 * 30) as nat) as int) % 16;
    assert(0 <= d0 < 16 && 0 <= d1 < 16);
    assert(t[0] == hex_lower(d0));
    assert(t[1] == hex_lower(d1));
}

/// The desktop host: it keeps the jobs, hands out their frames and follows the
/// nodes of the farm.
pub struct TauriApp {
    peers: StringHashMap<ComputerSpec>,
    settings: ServerSetting,
}

impl TauriApp {
    /// The known nodes, by peer id.
    pub closed spec fn peers(&self) -> Map<Seq<char>, ComputerSpec> {
        self.peers@
    }

    pub closed spec fn settings(&self) -> ServerSetting {
        self.settings
    }

    /// A host that knows no node yet, with the settings given.
    pub fn new(settings: ServerSetting) -> (app: Self)
        ensures
            app.peers() == Map::<Seq<char>, ComputerSpec>::empty(),
            app.settings() == settings,
    {
        TauriApp { peers: StringHashMap::new(), settings }
    }

    /// Records the machine of a node.
    pub fn add_peer(&mut self, peer_id: String, spec: ComputerSpec)
        ensures
            final(self).peers() == old(self).peers().insert(peer_id@, spec),
            final(self).settings() == old(self).settings(),
    {
        self.peers.insert(peer_id, spec);
    }

    /// Forgets a node.
    pub fn forget_peer(&mut self, peer_id: &str)
        ensures
            final(self).peers() == old(self).peers().remove(peer_id@),
            final(self).settings() == old(self).settings(),
    {
        self.peers.remove(peer_id);
    }

    /// A copy of the current settings, as handed to the user interface.
    pub fn current_settings(&self) -> (s: ServerSetting)
        ensures
            s == self.settings(),
    {
        self.settings.duplicate()
    }

    /// Takes new settings (which the caller then saves).
    pub fn update_settings(&mut self, new_settings: ServerSetting)
        ensures
            final(self).settings() == new_settings,
            final(self).peers() == old(self).peers(),
    {
        self.settings = new_settings;
    }

    /// How a job request is carried out: lookups, updates, creations and the
    /// listing go to the store; killing a job deletes it from the store and
    /// then tells the farm to drop it; asking for its finished frames only asks
    /// the farm.
    pub fn job_plan(action: JobAction) -> (p: JobPlan)
        ensures
            match action {
                JobAction::Find(id) => p.call == Some(JobStoreCall::GetJob(id)) && p.broadcast is None,
                JobAction::Update(job) => p.call == Some(JobStoreCall::UpdateJob(job))
                    && p.broadcast is None,
                JobAction::Create(job) => p.call == Some(JobStoreCall::AddJob(job))
                    && p.broadcast is None,
                JobAction::Kill(id) => p.call == Some(JobStoreCall::DeleteJob(id)) && p.broadcast
                    == Some(ServerEvent::RemoveJob(id)),
                JobAction::AskForCompletedList(id) => p.call is None && p.broadcast == Some(
                    ServerEvent::RequestJobInfo(id),
                ),
                JobAction::All => p.call == Some(JobStoreCall::ListAll) && p.broadcast is None,
                JobAction::Advertise(id) => p.call == Some(JobStoreCall::GetJob(id))
                    && p.broadcast is None,
            },
    {
        match action {
            JobAction::Find(id) => JobPlan { call: Some(JobStoreCall::GetJob(id)), broadcast: None },
            JobAction::Update(job) => JobPlan {
                call: Some(JobStoreCall::UpdateJob(job)),
                broadcast: None,
            },
            JobAction::Create(job) => JobPlan { call: Some(JobStoreCall::AddJob(job)), broadcast: None },
            JobAction::Kill(id) => JobPlan {
                call: Some(JobStoreCall::DeleteJob(id)),
                broadcast: Some(ServerEvent::RemoveJob(id)),
            },
            JobAction::AskForCompletedList(id) => JobPlan {
                call: None,
                broadcast: Some(ServerEvent::RequestJobInfo(id)),
            },
            JobAction::All => JobPlan { call: Some(JobStoreCall::ListAll), broadcast: None },
            JobAction::Advertise(id) => JobPlan { call: Some(JobStoreCall::GetJob(id)), broadcast: None },
        }
    }

    /// The directory into which a finished image of job `job_id` is fetched:
    /// the render directory joined with the job id's hyphenated text.
    pub fn image_directory(&self, job_id: JobId) -> (d: String)
        ensures
            plain_base(self.settings().render_dir@) ==> joined_path(
                d@,
                self.settings().render_dir@,
                uuid_text(job_id),
            ),
    {
        let id = uuid_to_string(job_id);
        proof {
            uuid_text_is_relative(job_id);
        }
        path_join(self.settings.render_dir.as_str(), id.as_str())
    }

    /// The answer to a request for all jobs: the jobs when the store listed
    /// some, nothing when it listed none or failed.
    pub fn job_list_reply(listed: Result<Vec<WithId<Job>>, JobError>) -> (r: Option<Vec<WithId<Job>>>)
        ensures
            match listed {
                Ok(jobs) => if jobs.len() == 0 { r is None } else { r == Some(jobs) },
                Err(_) => r is None,
            },
    {
        match listed {
            Ok(jobs) => if jobs.len() == 0 { None } else { Some(jobs) },
            Err(_) => None,
        }
    }

    /// The answer to a request to create a job: the stored job, or the store's
    /// failure reported as a database error with its message.
    pub fn created_reply(added: Result<WithId<Job>, String>) -> (r: Result<WithId<Job>, JobError>)
        ensures
            match added {
                Ok(job) => r == Ok::<WithId<Job>, JobError>(job),
                Err(msg) => r == Err::<WithId<Job>, JobError>(JobError::DatabaseError(msg)),
            },
    {
        match added {
            Ok(job) => Ok(job),
            Err(msg) => Err(JobError::DatabaseError(msg)),
        }
    }

    /// The file that advertising a job offers to the farm: its project file,
    /// when the job is stored.
    pub fn advertised_file(found: Option<WithId<Job>>) -> (o: Option<ProviderRule>)
        ensures
            match found {
                Some(job) => o == Some(ProviderRule::Default(job.item.project_file)),
                None => o is None,
            },
    {
        match found {
            Some(job) => Some(ProviderRule::Default(job.item.project_file)),
            None => None,
        }
    }

    /// What the host does with a network event. A departed node is named by
    /// its peer id's text, which must read as a peer id.
    pub fn react_to_network(event: Event) -> (r: HostReaction)
        requires
            !(event matches Event::JobUpdate(JobEvent::Error(_))),
            !(event matches Event::JobUpdate(JobEvent::RequestTask(_))),
            event matches Event::ServerStatus(ServerEvent::Disconnected { peer_id, .. })
                ==> peer_id_parse(peer_id@) is Some,
        ensures
            match event {
                Event::ServerStatus(ServerEvent::Disconnected { peer_id, .. }) => r matches HostReaction::ForgetWorker(p, b)
                    && p == peer_id && peer_id_parse(peer_id@) == Some(b@),
                Event::InboundRequest(name) => r == HostReaction::ServeFile(name),
                Event::JobUpdate(JobEvent::ImageCompletedList { job_id, files }) => r
                    == HostReaction::CompareImages(job_id, files),
                Event::JobUpdate(JobEvent::ImageCompleted { job_id, file_name, .. }) => r
                    == HostReaction::FetchImage(job_id, file_name),
                _ => r is Ignore,
            },
    {
        match event {
            Event::ServerStatus(ServerEvent::Disconnected { peer_id, .. }) => match parse_peer_id(
                peer_id.as_str(),
            ) {
                Some(bytes) => HostReaction::ForgetWorker(peer_id, bytes),
                None => vstd::pervasive::unreached(),
            },
            Event::InboundRequest(name) => HostReaction::ServeFile(name),
            Event::JobUpdate(job_event) => match job_event {
                JobEvent::ImageCompletedList { job_id, files } => HostReaction::CompareImages(
                    job_id,
                    files,
                ),
                JobEvent::ImageCompleted { job_id, file_name, .. } => HostReaction::FetchImage(
                    job_id,
                    file_name,
                ),
                JobEvent::Error(_) => vstd::pervasive::unreached(),
                JobEvent::RequestTask(_) => vstd::pervasive::unreached(),
                _ => HostReaction::Ignore,
            },
            _ => HostReaction::Ignore,
        }
    }

    /// What the host does with a network event, when it can: `None` for a
    /// departed node whose peer id text does not read as a peer id, and for the
    /// events that the host does not handle (a job error, a request for a
    /// task); otherwise what `react_to_network` does.
    pub fn try_react_to_network(event: Event) -> (r: Option<HostReaction>)
        ensures
            match event {
                Event::ServerStatus(ServerEvent::Disconnected { peer_id, .. }) => match peer_id_parse(
                    peer_id@,
                ) {
                    Some(b) => r matches Some(HostReaction::ForgetWorker(p, q)) && p == peer_id && q@
                        == b,
                    None => r is None,
                },
                Event::JobUpdate(JobEvent::Error(_)) => r is None,
                Event::JobUpdate(JobEvent::RequestTask(_)) => r is None,
                Event::InboundRequest(name) => r == Some(HostReaction::ServeFile(name)),
                Event::JobUpdate(JobEvent::ImageCompletedList { job_id, files }) => r == Some(
                    HostReaction::CompareImages(job_id, files),
                ),
                Event::JobUpdate(JobEvent::ImageCompleted { job_id, file_name, .. }) => r == Some(
                    HostReaction::FetchImage(job_id, file_name),
                ),
                _ => r == Some(HostReaction::Ignore),
            },
    {
        let handled = match &event {
            Event::ServerStatus(ServerEvent::Disconnected { peer_id, .. }) => parse_peer_id(
                peer_id.as_str(),
            ).is_some(),
            Event::JobUpdate(JobEvent::Error(_)) => false,
            Event::JobUpdate(JobEvent::RequestTask(_)) => false,
            _ => true,
        };
        if handled {
            Some(TauriApp::react_to_network(event))
        } else {
            None
        }
    }

    /// The message with which the host answers the discovery of a node: it is
    /// online at its own address, with its machine.
    pub fn discovery_reply(multiaddr: String, spec: ComputerSpec) -> (e: ServerEvent)
        ensures
            e == ServerEvent::Online(multiaddr, spec),
    {
        ServerEvent::Online(multiaddr, spec)
    }

    /// The Blender versions listed for a query with `flags`.
    pub fn blender_listing(
        flags: QueryMode,
        local: &Vec<(Version, String)>,
        online: &Vec<(Version, String)>,
    ) -> (l: Vec<BlenderQuery>)
        ensures
            l@ == blender_listing_spec(flags, local@, online@),
    {
        let mut versions: Vec<BlenderQuery> = Vec::new();
        if flags.contains(QueryMode::local()) {
            append_queries(&mut versions, local, true);
        }
        let ghost after_local = versions@;
        if flags.contains(QueryMode::online()) {
            append_queries(&mut versions, online, false);
        }
        proof {
            assert(Seq::<BlenderQuery>::empty() + after_local =~= after_local);
            assert(after_local + Seq::<BlenderQuery>::empty() =~= after_local);
        }
        versions
    }

    /// Plans the tasks of a job, `chunks` frames at a time.
    pub fn generate_tasks(job: &WithId<Job>, chunks: i32) -> (tasks: Vec<Ticket>)
        requires
            chunks != 0,
            i32::MIN <= job.item.mode.range().1 - job.item.mode.range().0 <= i32::MAX,
            trunc_div(job.item.mode.range().1 - job.item.mode.range().0, chunks as int) >= 0,
            forall|i: int|
                0 <= i < task_bounds(job.item.mode.range().0, job.item.mode.range().1, chunks as int).len()
                    ==> {
                    let t = #[trigger] task_bounds(
                        job.item.mode.range().0,
                        job.item.mode.range().1,
                        chunks as int,
                    )[i];
                    &&& i32::MIN <= t.0 <= i32::MAX
                    &&& i32::MIN <= t.1 <= i32::MAX
                },
        ensures
            tasks.len() == task_bounds(job.item.mode.range().0, job.item.mode.range().1, chunks as int).len(),
            forall|i: int|
                0 <= i < tasks.len() ==> {
                    let b = task_bounds(job.item.mode.range().0, job.item.mode.range().1, chunks as int)[i];
                    &&& (#[trigger] tasks[i]).job_id == job.id
                    &&& tasks[i].blend_path == job.item.project_file
                    &&& tasks[i].blender_version == job.item.blender_version
                    &&& tasks[i].output == job.item.output
                    &&& tasks[i].start as int == b.0
                    &&& tasks[i].end as int == b.1
                },
    {
        let ghost bounds = task_bounds(job.item.mode.range().0, job.item.mode.range().1, chunks as int);
        let (time_start, time_end) = job.item.get_range();
        let step: i64 = time_end as i64 - time_start as i64;
        let c: i64 = chunks as i64;
        let a: u64 = if step >= 0 { step as u64 } else { (-step) as u64 };
        let b: u64 = if c > 0 { c as u64 } else { (-c) as u64 };
        let q: u64 = a / b;
        let max_step: i64 = if (step >= 0) == (c > 0) { q as i64 } else { -(q as i64) };
        assert(max_step == trunc_div(step as int, c as int));
        let mut tasks: Vec<Ticket> = Vec::new();
        let mut i: i64 = 0;
        while i <= max_step
            invariant
                0 <= i <= max_step + 1,
                max_step + 1 == bounds.len(),
                bounds == task_bounds(time_start as int, time_end as int, chunks as int),
                (time_start as int, time_end as int) == job.item.mode.range(),
                c == chunks,
                c != 0,
                max_step <= i32::MAX as i64 + 1,
                forall|k: int|
                    0 <= k < bounds.len() ==> {
                        let t = #[trigger] bounds[k];
                        &&& i32::MIN <= t.0 <= i32::MAX
                        &&& i32::MIN <= t.1 <= i32::MAX
                    },
                tasks.len() == i,
                forall|k: int|
                    0 <= k < i ==> {
                        let t = bounds[k];
                        &&& (#[trigger] tasks[k]).job_id == job.id
                        &&& tasks[k].blend_path == job.item.project_file
                        &&& tasks[k].blender_version == job.item.blender_version
                        &&& tasks[k].output == job.item.output
                        &&& tasks[k].start as int == t.0
                        &&& tasks[k].end as int == t.1
                    },
            decreases max_step + 1 - i,
        {
            let ghost t = bounds[i as int];
            assert(i32::MIN <= t.0 <= i32::MAX && i32::MIN <= t.1 <= i32::MAX);
            assert(-0x1_0000_0000 <= i * c <= 0x1_0000_0000);
            let block: i64 = time_start as i64 + i * c;
            let start: i64 = if i > 0 { block + 1 } else { block };
            let end: i64 = if block + c < time_end as i64 { block + c } else { time_end as i64 };
            tasks.push(Ticket::from_job(job, start as Frame, end as Frame));
            i = i + 1;
        }
        tasks
    }
}

} // verus!
