use vstd::prelude::*;

use crate::models::{Frame, JobId, Ticket};

verus! {

/// What a node tells about its machine.
#[derive(Debug)]
pub struct ComputerSpec {
    pub host: String,
    pub os: String,
    pub arch: String,
    pub cpu: String,
    pub cores: u64,
    /// Memory in bytes.
    pub memory: u64,
    pub gpu: Option<String>,
}

/// A node of the farm as the host records it: its peer id (in base-58 text)
/// and its machine.
#[derive(Debug)]
pub struct Worker {
    pub machine_id: String,
    pub spec: ComputerSpec,
}

/// What a running Blender process reports.
#[derive(Debug)]
pub enum BlenderEvent {
    Log(String),
    Warning(String),
    Rendering { current: u64, total: u64 },
    /// A frame was written to the path `result`.
    Completed { frame: Frame, result: String },
    Unhandled(String),
    Exit,
    Error(String),
}

/// Messages about jobs that travel between the host and the nodes.
#[derive(Debug)]
pub enum JobEvent {
    /// The node whose peer id is the text asks to render the ticket.
    Render(String, Ticket),
    ImageCompleted { job_id: JobId, frame: Frame, file_name: String },
    ImageCompletedList { job_id: JobId, files: Vec<String> },
    AskForCompletedJobFrameList(JobId),
    TicketComplete(JobId, Frame),
    TaskComplete,
    Error(String),
    /// The node whose peer id is the text asks for work.
    RequestTask(String),
    Failed(String),
    Remove(JobId),
}

/// Status messages that the host and the servers broadcast.
#[derive(Debug)]
pub enum ServerEvent {
    /// A node at the address came online with the machine described.
    Online(String, ComputerSpec),
    Disconnected { peer_id: String, reason: Option<String> },
    Joined(String),
    Rendering(JobId),
    BlenderStatus(BlenderEvent),
    RequestJobInfo(JobId),
    RemoveJob(JobId),
    /// The node at the address asks for a ticket.
    RequestTicket(String),
    NewTickets(Ticket),
}

/// Status messages that the render nodes exchange.
#[derive(Debug)]
pub enum NodeEvent {
    Hello(String, ComputerSpec),
    Disconnected { peer_id: String, reason: Option<String> },
    BlenderStatus(BlenderEvent),
}

/// Membership changes of a message channel: peer id and channel name.
#[derive(Debug)]
pub enum ChannelStatus {
    Joined(String, String),
    Disconnected(String, String),
}

/// What the network layer hands to the application.
#[derive(Debug)]
pub enum Event {
    /// A peer (id, address) was found on the local network.
    Discovered(String, String),
    JobUpdate(JobEvent),
    /// A peer asks for the file offered under the name.
    InboundRequest(String),
    ServerStatus(ServerEvent),
    NodeStatus(NodeEvent),
    Channel(ChannelStatus),
    ReceivedFileData(Vec<u8>),
}

} // verus!
