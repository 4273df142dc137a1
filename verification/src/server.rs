use vstd::prelude::*;

use crate::events::{ComputerSpec, Event, ServerEvent};
use crate::models::{JobId, Ticket, Version, WithId};

verus! {

/// Orders that a server takes from its local user.
#[derive(Debug)]
pub enum ServerCommand {
    Start,
    AddTicket(Ticket),
    DeleteTicket(JobId),
    /// The peer (id text) asks whether a Blender package of this file name is here.
    CheckBlender(String, String),
    /// List the rendered frames of a job.
    Fetch(JobId),
    Abort,
}

/// How a server answers one input.
#[derive(Debug)]
pub enum ServerReaction {
    /// Count the remaining tickets, then greet the peer at the address with
    /// `Server::greeting`.
    GreetDiscovered(String),
    /// Count the remaining tickets, then consult `Server::serves_ticket_request`
    /// for the peer at the address.
    ConsiderTicketRequest(String),
    /// Remove every ticket of the job.
    DeleteJobTickets(JobId),
    AddTicket(Ticket),
    DeleteTicket(JobId),
    /// Look up the rendered frames of the job and publish them.
    PublishRenders(JobId),
    /// Look up the rendered frames of the job and hand them to the local user.
    ReplyRenders(JobId),
    /// Answer a peer that asks for an offered file.
    ServeFile(String),
    /// Start working through the ticket queue.
    StartWorkers,
    /// Look for a compressed Blender package of this file name, and offer it
    /// with `Server::package_offer`.
    LookUpPackage(String),
    /// Nothing to do but, at most, report the input.
    Ignore,
    /// The input channel was closed: stop serving.
    Shutdown,
}

/// A file offered to the other nodes: under its own file name, or under a
/// chosen name (name, path).
#[derive(Debug)]
pub enum ProviderRule {
    Default(String),
    Custom(String, String),
}

/// The next step of the ticket worker.
#[derive(Debug)]
pub enum WorkerStep {
    /// Render the ticket with the Blender of this version; when that Blender is
    /// not installed, first delete the ticket (its record id) and fetch that
    /// Blender.
    Render { record: JobId, ticket: Ticket },
    /// The queue gave nothing: the worker is done.
    Finish,
}

/// A render server: it holds tickets and works through them.
pub struct Server {}

impl Server {
    /// What the server does with one network event; `None` means the network
    /// closed its channel.
    pub fn react_to_network(event: Option<Event>) -> (r: ServerReaction)
        ensures
            match event {
                None => r is Shutdown,
                Some(Event::Discovered(_, addr)) => r == ServerReaction::GreetDiscovered(addr),
                Some(Event::InboundRequest(name)) => r == ServerReaction::ServeFile(name),
                Some(Event::ServerStatus(ServerEvent::RemoveJob(id))) => r
                    == ServerReaction::DeleteJobTickets(id),
                Some(Event::ServerStatus(ServerEvent::NewTickets(t))) => r == ServerReaction::AddTicket(
                    t,
                ),
                Some(Event::ServerStatus(ServerEvent::RequestTicket(addr))) => r
                    == ServerReaction::ConsiderTicketRequest(addr),
                Some(Event::ServerStatus(ServerEvent::RequestJobInfo(id))) => r
                    == ServerReaction::PublishRenders(id),
                _ => r is Ignore,
            },
    {
        match event {
            None => ServerReaction::Shutdown,
            Some(Event::Discovered(_, addr)) => ServerReaction::GreetDiscovered(addr),
            Some(Event::InboundRequest(name)) => ServerReaction::ServeFile(name),
            Some(Event::ServerStatus(status)) => match status {
                ServerEvent::RemoveJob(id) => ServerReaction::DeleteJobTickets(id),
                ServerEvent::NewTickets(t) => ServerReaction::AddTicket(t),
                ServerEvent::RequestTicket(addr) => ServerReaction::ConsiderTicketRequest(addr),
                ServerEvent::RequestJobInfo(id) => ServerReaction::PublishRenders(id),
                _ => ServerReaction::Ignore,
            },
            Some(_) => ServerReaction::Ignore,
        }
    }

    /// What the server does with an order of its local user; `None` means the
    /// order channel was closed.
    pub fn react_to_command(cmd: Option<ServerCommand>) -> (r: ServerReaction)
        requires
            !(cmd matches Some(ServerCommand::Abort)),
        ensures
            match cmd {
                None => r is Shutdown,
                Some(ServerCommand::Start) => r is StartWorkers,
                Some(ServerCommand::AddTicket(t)) => r == ServerReaction::AddTicket(t),
                Some(ServerCommand::DeleteTicket(id)) => r == ServerReaction::DeleteTicket(id),
                Some(ServerCommand::CheckBlender(_, zip)) => r == ServerReaction::LookUpPackage(zip),
                Some(ServerCommand::Fetch(id)) => r == ServerReaction::ReplyRenders(id),
                Some(ServerCommand::Abort) => false,
            },
    {
        match cmd {
            None => ServerReaction::Shutdown,
            Some(ServerCommand::Start) => ServerReaction::StartWorkers,
            Some(ServerCommand::AddTicket(t)) => ServerReaction::AddTicket(t),
            Some(ServerCommand::DeleteTicket(id)) => ServerReaction::DeleteTicket(id),
            Some(ServerCommand::CheckBlender(_, zip)) => ServerReaction::LookUpPackage(zip),
            Some(ServerCommand::Fetch(id)) => ServerReaction::ReplyRenders(id),
            Some(ServerCommand::Abort) => vstd::pervasive::unreached(),
        }
    }

    /// The messages sent to a newly discovered peer, in order. `remaining` is
    /// the number of tickets left in the queue, or `None` when the ticket store
    /// could not be read. A server whose queue is empty first asks the peer for
    /// a ticket (giving its own address); every peer is then told that this
    /// server is online, with the (empty) public address and the machine spec.
    pub fn greeting(remaining: Option<usize>, local_addr: String, spec: ComputerSpec) -> (m: Vec<
        ServerEvent,
    >)
        ensures
            m.len() == if remaining == Some(0usize) { 2int } else { 1int },
            remaining == Some(0usize) ==> m[0] == ServerEvent::RequestTicket(local_addr),
            m[m.len() - 1] matches ServerEvent::Online(addr, s) && addr@ == Seq::<char>::empty()
                && s == spec,
    {
        let mut m: Vec<ServerEvent> = Vec::new();
        if remaining == Some(0usize) {
            m.push(ServerEvent::RequestTicket(local_addr));
        }
        m.push(ServerEvent::Online(String::new(), spec));
        m
    }

    /// Whether the server takes up a peer's request for a ticket: it turns it
    /// down only when its own queue holds more than three tickets.
    pub fn serves_ticket_request(remaining: Option<usize>) -> (b: bool)
        ensures
            b == !(remaining matches Some(n) && n > 3),
    {
        match remaining {
            Some(n) => n <= 3,
            None => true,
        }
    }

    /// The offer of a Blender package that a peer asked for, when one was found
    /// at `found`.
    pub fn package_offer(zip_file_name: String, found: Option<String>) -> (o: Option<ProviderRule>)
        ensures
            match found {
                Some(path) => o == Some(ProviderRule::Custom(zip_file_name, path)),
                None => o is None,
            },
    {
        match found {
            Some(path) => Some(ProviderRule::Custom(zip_file_name, path)),
            None => None,
        }
    }

    /// The worker's next step after polling the ticket queue: `None` means the
    /// queue was empty or could not be read.
    pub fn worker_step(polled: Option<WithId<Ticket>>) -> (s: WorkerStep)
        ensures
            match polled {
                Some(rec) => s == WorkerStep::Render { record: rec.id, ticket: rec.item },
                None => s is Finish,
            },
    {
        match polled {
            Some(rec) => WorkerStep::Render { record: rec.id, ticket: rec.item },
            None => WorkerStep::Finish,
        }
    }
}

} // verus!
