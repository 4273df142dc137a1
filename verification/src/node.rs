use vstd::prelude::*;

use crate::events::{BlenderEvent, Event, JobEvent, NodeEvent};
use crate::external::{file_name_of, path_file_name, portable_path};
use crate::models::{Frame, JobId, Ticket, WithId};
use crate::server::ProviderRule;

verus! {

/// Orders that the render node gives itself.
#[derive(Debug)]
pub enum CmdCommand {
    Render(Ticket),
    /// Dial the peer (id, address).
    Dial(String, String),
    RequestTask,
}

/// How the render node answers a network event.
#[derive(Debug)]
pub enum NodeReaction {
    /// A peer (id, address) was found: pass it to `CliApp::on_discovered`.
    Discovered(String, String),
    /// A ticket addressed to the peer id (text): check it with
    /// `CliApp::accepts_render`, then store and render it.
    ConsiderRender(String, Ticket),
    /// Remove every task of the job from the local queue.
    DeleteJobTasks(JobId),
    ServeFile(String),
    Ignore,
}

/// One step of following the Blender process that renders a ticket.
#[derive(Debug)]
pub struct RenderProgress {
    /// Offer this rendered image to the network.
    pub provide: Option<ProviderRule>,
    /// Tell the network about it.
    pub announce: Option<JobEvent>,
    /// Keep listening to the process.
    pub go_on: bool,
}

/// One step of a subscription to a render started from the local queue.
#[derive(Debug)]
pub struct SubscriptionStep {
    /// Record that this frame of the job was rendered to this path.
    pub record: Option<(JobId, Frame, String)>,
    pub announce: Option<JobEvent>,
    pub go_on: bool,
}

/// The next step of the node's queue worker.
#[derive(Debug)]
pub enum PollStep {
    /// Follow the render of this queued task.
    Subscribe(WithId<Ticket>),
    /// The queue is empty: ask the farm for work, then stop polling.
    RequestTaskAndStop,
}

/// A render node run from the command line.
pub struct CliApp {
    host: Option<(String, String)>,
}

impl CliApp {
    /// The peer (id, address) that this node works for, if any.
    pub closed spec fn host(&self) -> Option<(Seq<char>, Seq<char>)> {
        match self.host {
            Some((p, a)) => Some((p@, a@)),
            None => None,
        }
    }

    /// A node that works for no host yet.
    pub fn new() -> (app: Self)
        ensures
            app.host() is None,
    {
        CliApp { host: None }
    }

    /// Whether the node works for a host.
    pub fn has_host(&self) -> (b: bool)
        ensures
            b == self.host() is Some,
    {
        self.host.is_some()
    }

    /// A peer was discovered. A node without a host dials it and takes it as
    /// its host, whether or not the dial succeeds; a node with a host does not
    /// dial. Either way the node asks the discovered peer for work: the
    /// request, from the node's own peer id `own_id`, goes to that peer.
    pub fn on_discovered(&mut self, own_id: String, peer: String, addr: String) -> (r: (
        Option<(String, String)>,
        (String, JobEvent),
    ))
        ensures
            r.1 == (peer, JobEvent::RequestTask(own_id)),
            old(self).host() is None ==> r.0 == Some((peer, addr)) && final(self).host() == Some(
                (peer@, addr@),
            ),
            old(self).host() is Some ==> r.0 is None && final(self).host() == old(self).host(),
    {
        let request = (peer.clone(), JobEvent::RequestTask(own_id));
        if self.host.is_none() {
            self.host = Some((peer.clone(), addr.clone()));
            (Some((peer, addr)), request)
        } else {
            (None, request)
        }
    }

    /// The outcome of a dial ordered by the local user: a successful dial makes
    /// the peer the host; a failed one changes nothing.
    pub fn on_dial_result(&mut self, peer: String, addr: String, succeeded: bool)
        ensures
            succeeded ==> final(self).host() == Some((peer@, addr@)),
            !succeeded ==> final(self).host() == old(self).host(),
    {
        if succeeded {
            self.host = Some((peer, addr));
        }
    }

    /// What the node does with a network event.
    pub fn react_to_network(event: Event) -> (r: NodeReaction)
        requires
            !(event matches Event::NodeStatus(NodeEvent::Hello(_, _))),
        ensures
            match event {
                Event::Discovered(p, a) => r == NodeReaction::Discovered(p, a),
                Event::JobUpdate(JobEvent::Render(p, t)) => r == NodeReaction::ConsiderRender(p, t),
                Event::JobUpdate(JobEvent::Remove(id)) => r == NodeReaction::DeleteJobTasks(id),
                Event::InboundRequest(name) => r == NodeReaction::ServeFile(name),
                _ => r is Ignore,
            },
    {
        match event {
            Event::Discovered(p, a) => NodeReaction::Discovered(p, a),
            Event::JobUpdate(JobEvent::Render(p, t)) => NodeReaction::ConsiderRender(p, t),
            Event::JobUpdate(JobEvent::Remove(id)) => NodeReaction::DeleteJobTasks(id),
            Event::InboundRequest(name) => NodeReaction::ServeFile(name),
            Event::NodeStatus(NodeEvent::Hello(_, _)) => vstd::pervasive::unreached(),
            _ => NodeReaction::Ignore,
        }
    }

    /// Whether a ticket addressed to `target` is for this node: `target` is the
    /// addressed peer id as it reads once parsed (`None` when it does not parse)
    /// and `own_id` this node's peer id.
    pub fn accepts_render(target: Option<String>, own_id: &String) -> (b: bool)
        ensures
            b == (target matches Some(t) && t@ == own_id@),
    {
        match target {
            Some(t) => t == *own_id,
            None => false,
        }
    }

    /// Follows the Blender process rendering a ticket of job `job_id`. A
    /// completed image is offered to the network under its own file name and,
    /// when that name is known (`file_name`), announced; the process's exit ends
    /// the watch; every other report is only shown.
    pub fn render_progress(job_id: JobId, event: BlenderEvent, file_name: Option<String>) -> (p:
        RenderProgress)
        ensures
            match event {
                BlenderEvent::Completed { frame, result } => {
                    &&& p.provide == Some(ProviderRule::Default(result))
                    &&& match file_name {
                        Some(n) => p.announce == Some(
                            JobEvent::ImageCompleted { job_id, frame, file_name: n },
                        ),
                        None => p.announce is None,
                    }
                    &&& p.go_on
                },
                BlenderEvent::Exit => p.provide is None && p.announce is None && !p.go_on,
                _ => p.provide is None && p.announce is None && p.go_on,
            },
    {
        match event {
            BlenderEvent::Completed { frame, result } => {
                let announce = match file_name {
                    Some(n) => Some(JobEvent::ImageCompleted { job_id, frame, file_name: n }),
                    None => None,
                };
                RenderProgress { provide: Some(ProviderRule::Default(result)), announce, go_on: true }
            },
            BlenderEvent::Exit => RenderProgress { provide: None, announce: None, go_on: false },
            _ => RenderProgress { provide: None, announce: None, go_on: true },
        }
    }

    /// Follows the Blender process rendering a ticket of job `job_id`, naming a
    /// completed image by the file name of the path it was written to (as
    /// `render_progress` does with that name).
    pub fn follow_render(job_id: JobId, event: BlenderEvent) -> (p: RenderProgress)
        ensures
            match event {
                BlenderEvent::Completed { frame, result } => {
                    &&& p.provide == Some(ProviderRule::Default(result))
                    &&& p.go_on
                    &&& match p.announce {
                        Some(JobEvent::ImageCompleted { job_id: j, frame: f, .. }) => j == job_id && f
                            == frame,
                        Some(_) => false,
                        None => true,
                    }
                    &&& portable_path(result@) ==> match file_name_of(result@) {
                        Some(n) => p.announce matches Some(JobEvent::ImageCompleted { file_name, .. })
                            && file_name@ == n,
                        None => p.announce is None,
                    }
                },
                BlenderEvent::Exit => p.provide is None && p.announce is None && !p.go_on,
                _ => p.provide is None && p.announce is None && p.go_on,
            },
    {
        let file_name = match &event {
            BlenderEvent::Completed { result, .. } => path_file_name(result.as_str()),
            _ => None,
        };
        CliApp::render_progress(job_id, event, file_name)
    }

    /// Follows a render started from the local queue; `None` means the process
    /// stopped reporting. A completed frame is recorded and announced with the
    /// path it was written to; an exit or silence ends the subscription.
    pub fn subscription_step(job_id: JobId, event: Option<BlenderEvent>) -> (s: SubscriptionStep)
        ensures
            match event {
                Some(BlenderEvent::Completed { frame, result }) => {
                    &&& s.record == Some((job_id, frame, result))
                    &&& s.announce == Some(
                        JobEvent::ImageCompleted { job_id, frame, file_name: result },
                    )
                    &&& s.go_on
                },
                Some(BlenderEvent::Exit) | None => s.record is None && s.announce is None
                    && !s.go_on,
                _ => s.record is None && s.announce is None && s.go_on,
            },
    {
        match event {
            Some(BlenderEvent::Completed { frame, result }) => {
                let name = result.clone();
                SubscriptionStep {
                    record: Some((job_id, frame, result)),
                    announce: Some(JobEvent::ImageCompleted { job_id, frame, file_name: name }),
                    go_on: true,
                }
            },
            Some(BlenderEvent::Exit) | None => SubscriptionStep {
                record: None,
                announce: None,
                go_on: false,
            },
            _ => SubscriptionStep { record: None, announce: None, go_on: true },
        }
    }

    /// What the render loop passes on of one report of the Blender process, and
    /// whether it keeps listening: every report is passed on, and an error (or a
    /// failure to read the process, given as its message) ends the loop.
    pub fn forward_status(status: Result<BlenderEvent, String>) -> (f: (BlenderEvent, bool))
        ensures
            match status {
                Ok(BlenderEvent::Error(e)) => f == (BlenderEvent::Error(e), false),
                Ok(ev) => f == (ev, true),
                Err(e) => f == (BlenderEvent::Error(e), false),
            },
    {
        match status {
            Ok(BlenderEvent::Error(e)) => (BlenderEvent::Error(e), false),
            Ok(ev) => (ev, true),
            Err(e) => (BlenderEvent::Error(e), false),
        }
    }

    /// The announcement owed when rendering a ticket on order fails.
    pub fn render_outcome(result: Result<(), String>) -> (e: Option<JobEvent>)
        ensures
            match result {
                Ok(()) => e is None,
                Err(msg) => e == Some(JobEvent::Failed(msg)),
            },
    {
        match result {
            Ok(()) => None,
            Err(msg) => Some(JobEvent::Failed(msg)),
        }
    }

    /// The request for work that a node with this peer id sends.
    pub fn task_request(own_id: String) -> (e: JobEvent)
        ensures
            e == JobEvent::RequestTask(own_id),
    {
        JobEvent::RequestTask(own_id)
    }

    /// The queue worker's next step after polling the task store.
    pub fn poll_step(polled: Result<Option<WithId<Ticket>>, String>) -> (s: PollStep)
        requires
            polled is Ok,
        ensures
            match polled {
                Ok(Some(t)) => s == PollStep::Subscribe(t),
                Ok(None) => s is RequestTaskAndStop,
                Err(_) => false,
            },
    {
        match polled {
            Ok(Some(t)) => PollStep::Subscribe(t),
            Ok(None) => PollStep::RequestTaskAndStop,
            Err(_) => vstd::pervasive::unreached(),
        }
    }
}

} // verus!
