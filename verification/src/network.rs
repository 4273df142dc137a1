use vstd::prelude::*;
use vstd::string::*;

use crate::models::{Frame, Job, JobId};

verus! {

/// Why the network layer failed.
#[derive(Debug)]
pub enum NetworkError {
    NotConnected,
    Invalid,
    BadInput,
    SendError(String),
}

impl NetworkError {
    /// The message that reports the error.
    pub fn message(&self) -> (m: String)
        ensures
            m@ == match self {
                NetworkError::NotConnected => "Not Connected"@,
                NetworkError::Invalid => "Invalid connection"@,
                NetworkError::BadInput => "Bad Input"@,
                NetworkError::SendError(e) => "Send Error: "@ + e@,
            },
    {
        match self {
            NetworkError::NotConnected => String::from_str("Not Connected"),
            NetworkError::Invalid => String::from_str("Invalid connection"),
            NetworkError::BadInput => String::from_str("Bad Input"),
            NetworkError::SendError(e) => String::from_str("Send Error: ").concat(e.as_str()),
        }
    }
}

/// The network service failed in an unforeseen way.
#[derive(Debug, Clone, Copy, PartialEq, Eq)]
pub enum Networkerror {
    Unexpected,
}

impl Networkerror {
    pub fn message(&self) -> (m: &'static str)
        ensures
            m@ == "Unexpected error"@,
    {
        "Unexpected error"
    }
}

/// What the nodes tell each other over the shared message topic.
#[derive(Debug)]
pub enum NetEvent {
    Render(Job),
    Status(String),
    /// A peer (id text) was found on the local network.
    NodeDiscovered(String),
    /// A peer (id text) left the local network.
    NodeDisconnected(String),
}

/// Orders for the network service.
#[derive(Debug)]
pub enum Command {
    StartJob(Job),
    /// A frame was written to the path.
    FrameCompleted(String, Frame),
    EndJob { job_id: JobId },
    Status(String),
    /// Ask the peer (id text) for the file of this name.
    RequestFile { file_name: String, peer: String },
    /// Answer a request for a file with its bytes.
    RespondFile { file: Vec<u8> },
}

/// What the network service does with an order.
#[derive(Debug)]
pub enum CommandOutcome {
    /// Publish the event on the shared topic.
    Publish(NetEvent),
    /// Leave the service loop.
    StopLoop,
}

/// What the swarm reports to the network service.
#[derive(Debug)]
pub enum SwarmReport {
    /// Peers (id texts) found on the local network.
    Discovered(Vec<String>),
    /// Peers (id texts) whose local-network record expired.
    Expired(Vec<String>),
    /// A message on the shared topic, decoded (`None` when it does not decode).
    Message(Option<NetEvent>),
    Other,
}

/// One action of the network service.
#[derive(Debug)]
pub enum SwarmAction {
    /// Take the peer into the message topic's explicit peers.
    AddPeer(String),
    /// Drop the peer from the message topic's explicit peers.
    RemovePeer(String),
    /// Hand the event to the application.
    Deliver(NetEvent),
}

/// The actions owed for each peer of a report, in order: for a discovery, add
/// it and announce it; for an expiry, remove it and announce its departure.
pub open spec fn peer_actions(peers: Seq<String>, found: bool) -> Seq<SwarmAction> {
    Seq::new(
        2 * peers.len(),
        |i: int|
            if i % 2 == 0 {
                if found {
                    SwarmAction::AddPeer(peers[i / 2])
                } else {
                    SwarmAction::RemovePeer(peers[i / 2])
                }
            } else {
                if found {
                    SwarmAction::Deliver(NetEvent::NodeDiscovered(peers[i / 2]))
                } else {
                    SwarmAction::Deliver(NetEvent::NodeDisconnected(peers[i / 2]))
                }
            },
    )
}

/// The peer-to-peer network service.
pub struct NetworkService {}

impl NetworkService {
    /// What the service does with an order: a status is published; a finished
    /// frame ends the service loop.
    pub fn command_outcome(cmd: Command) -> (o: CommandOutcome)
        requires
            cmd is Status || cmd is FrameCompleted,
        ensures
            match cmd {
                Command::Status(s) => o == CommandOutcome::Publish(NetEvent::Status(s)),
                _ => o is StopLoop,
            },
    {
        match cmd {
            Command::Status(s) => CommandOutcome::Publish(NetEvent::Status(s)),
            Command::FrameCompleted(..) => CommandOutcome::StopLoop,
            _ => vstd::pervasive::unreached(),
        }
    }

    /// What the service does with a report of the swarm.
    pub fn swarm_actions(report: SwarmReport) -> (a: Vec<SwarmAction>)
        ensures
            match report {
                SwarmReport::Discovered(peers) => a@ == peer_actions(peers@, true),
                SwarmReport::Expired(peers) => a@ == peer_actions(peers@, false),
                SwarmReport::Message(Some(ev)) => a@ == seq![SwarmAction::Deliver(ev)],
                _ => a@ == Seq::<SwarmAction>::empty(),
            },
    {
        match report {
            SwarmReport::Discovered(peers) => peer_actions_exec(&peers, true),
            SwarmReport::Expired(peers) => peer_actions_exec(&peers, false),
            SwarmReport::Message(Some(ev)) => {
                let mut a = Vec::new();
                a.push(SwarmAction::Deliver(ev));
                a
            },
            _ => Vec::new(),
        }
    }
}

fn peer_actions_exec(peers: &Vec<String>, found: bool) -> (a: Vec<SwarmAction>)
    ensures
        a@ == peer_actions(peers@, found),
{
    let mut a: Vec<SwarmAction> = Vec::new();
    let mut i: usize = 0;
    while i < peers.len()
        invariant
            0 <= i <= peers.len(),
            a@ == peer_actions(peers@.take(i as int), found),
        decreases peers.len() - i,
    {
        let p = &peers[i];
        if found {
            a.push(SwarmAction::AddPeer(p.clone()));
            a.push(SwarmAction::Deliver(NetEvent::NodeDiscovered(p.clone())));
        } else {
            a.push(SwarmAction::RemovePeer(p.clone()));
            a.push(SwarmAction::Deliver(NetEvent::NodeDisconnected(p.clone())));
        }
        proof {
            let next = peers@.take(i + 1);
            assert forall|k: int| 0 <= k < 2 * (i + 1) implies #[trigger] peer_actions(next, found)[k]
                == a@[k] by {
                assert(k / 2 <= i);
                if k < 2 * i {
                    assert(peers@.take(i as int)[k / 2] == next[k / 2]);
                }
            }
            assert(peer_actions(next, found) =~= a@);
        }
        i = i + 1;
    }
    proof {
        assert(peers@.take(peers.len() as int) =~= peers@);
    }
    a
}

} // verus!
