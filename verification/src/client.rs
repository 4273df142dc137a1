use vstd::prelude::*;
use vstd::string::*;

use crate::external::{decimal_text, u64_text};

verus! {

/// The IPv4 address `a.b.c.d` with port 0, as a socket address is written.
pub open spec fn socket_text(ip: (u8, u8, u8, u8)) -> Seq<char> {
    decimal_text(ip.0 as nat) + "."@ + decimal_text(ip.1 as nat) + "."@ + decimal_text(ip.2 as nat)
        + "."@ + decimal_text(ip.3 as nat) + ":0"@
}

/// Where a client listens: this machine's local IPv4 address, or the loopback
/// address 127.0.0.1 when it has none, on port 0 (any free port).
pub open spec fn listen_text(local_ip: Option<(u8, u8, u8, u8)>) -> Seq<char> {
    match local_ip {
        Some(ip) => socket_text(ip),
        None => socket_text((127u8, 0u8, 0u8, 1u8)),
    }
}

/// The address a client listens on, from the local IPv4 address that was
/// looked up (`None` when there is none).
pub fn listen_address(local_ip: Option<(u8, u8, u8, u8)>) -> (a: String)
    ensures
        a@ == listen_text(local_ip),
{
    let ip = match local_ip {
        Some(ip) => ip,
        None => (127u8, 0u8, 0u8, 1u8),
    };
    proof {
        reveal_strlit(".");
        reveal_strlit(":0");
    }
    let mut t = u64_text(ip.0 as u64);
    t.append(".");
    t.append(u64_text(ip.1 as u64).as_str());
    t.append(".");
    t.append(u64_text(ip.2 as u64).as_str());
    t.append(".");
    t.append(u64_text(ip.3 as u64).as_str());
    t.append(":0");
    t
}

/// Orders that the user gives the network thread of a client.
#[derive(Debug)]
pub enum ToNetwork {
    /// Connect to the server at the address.
    Connect(String),
    /// Send the file at the path to the server.
    SendFile(String),
    Ping { host: bool },
    Exit,
}

/// What the server asks of a client.
#[derive(Debug)]
pub enum FromNetwork {
    SendFile(String),
    RequestJob,
    /// A server announces its address; a client announces none.
    Ping { server_addr: Option<String> },
}

/// The messages that travel between clients and servers.
#[derive(Debug)]
pub enum NetMessage {
    /// A file: its name and its bytes.
    SendFile(String, Vec<u8>),
    RequestJob,
    /// A ping, with the sender's address when a server sends it.
    Ping(Option<String>),
}

/// What the network thread reports back to the client.
#[derive(Debug)]
pub enum NetResponse {
    Joined { socket: String },
    Disconnected { socket: String },
    Info { socket: String, name: String },
    Status { socket: String, status: String },
    Ping,
    /// A received file was stored at the path.
    FileTransfer(String),
}

/// A connection of the network layer: its resource id and the peer address.
#[derive(Debug, PartialEq, Eq)]
pub struct Endpoint {
    pub id: u64,
    pub addr: String,
}

impl Endpoint {
    pub fn duplicate(&self) -> (e: Endpoint)
        ensures
            e == *self,
    {
        Endpoint { id: self.id, addr: self.addr.clone() }
    }
}

/// What the network layer reports to the client's thread.
#[derive(Debug)]
pub enum ClientNetEvent {
    Connected(Endpoint),
    Accepted(Endpoint),
    /// A message from the endpoint, decoded (`None` when it does not decode).
    Message(Endpoint, Option<NetMessage>),
    Disconnected(Endpoint),
}

/// One action of the client's network thread.
#[derive(Debug)]
pub enum ClientAction {
    /// Open a connection to the address.
    Dial(String),
    /// Read the file at the path and send it, with its name, to the endpoint.
    SendFile(Endpoint, String),
    /// Send the message to the endpoint.
    Send(Endpoint, NetMessage),
    /// Store a received file (name, bytes) in the temporary directory and
    /// report it.
    StoreFile(String, Vec<u8>),
    /// Report to the client.
    Report(NetResponse),
    /// Stop the network layer and the thread.
    Stop,
    Ignore,
}

/// A client of a render server: it knows the server it is connected to, if any.
pub struct Client {
    host: Option<Endpoint>,
    addr: String,
}

impl Client {
    /// The server the client is connected to.
    pub closed spec fn host(&self) -> Option<Endpoint> {
        self.host
    }

    /// The address the client listens on.
    pub closed spec fn addr(&self) -> Seq<char> {
        self.addr@
    }

    /// A client, connected to no server, that listens on this machine's local
    /// IPv4 address (`local_ip`, as looked up), or on 127.0.0.1 when there is
    /// none, at port 0.
    pub fn new(local_ip: Option<(u8, u8, u8, u8)>) -> (c: Self)
        ensures
            c.host() is None,
            c.addr() == listen_text(local_ip),
    {
        Client { host: None, addr: listen_address(local_ip) }
    }

    /// The order to connect to `addr`, given only when not connected yet.
    pub fn connect(&self, addr: String) -> (o: Option<ToNetwork>)
        ensures
            self.host() is None ==> o == Some(ToNetwork::Connect(addr)),
            self.host() is Some ==> o is None,
    {
        if self.host.is_none() {
            Some(ToNetwork::Connect(addr))
        } else {
            None
        }
    }

    pub fn is_connected(&self) -> (b: bool)
        ensures
            b == self.host() is Some,
    {
        self.host.is_some()
    }

    /// The address the client listens on.
    pub fn as_ref(&self) -> (a: &String)
        ensures
            a@ == self.addr(),
    {
        &self.addr
    }

    /// What the network thread does with an order of the user: a file is sent
    /// only while connected to a server.
    pub fn on_command(&self, cmd: ToNetwork) -> (a: ClientAction)
        requires
            !(cmd is Ping),
        ensures
            match cmd {
                ToNetwork::Connect(addr) => a == ClientAction::Dial(addr),
                ToNetwork::SendFile(path) => match self.host() {
                    Some(h) => a == ClientAction::SendFile(h, path),
                    None => a is Ignore,
                },
                ToNetwork::Exit => a is Stop,
                ToNetwork::Ping { .. } => false,
            },
    {
        match cmd {
            ToNetwork::Connect(addr) => ClientAction::Dial(addr),
            ToNetwork::SendFile(path) => match &self.host {
                Some(h) => ClientAction::SendFile(h.duplicate(), path),
                None => ClientAction::Ignore,
            },
            ToNetwork::Exit => ClientAction::Stop,
            ToNetwork::Ping { .. } => vstd::pervasive::unreached(),
        }
    }

    /// What the network thread does with an event of the network layer, and how
    /// the connection changes: a connection made by the client becomes its
    /// server and is asked for a job; an accepted one becomes its server; a
    /// server's ping is answered by connecting to it when not connected; a
    /// received file is stored; losing the connection forgets the server and
    /// reports it.
    pub fn on_net_event(&mut self, event: ClientNetEvent) -> (a: ClientAction)
        ensures
            final(self).addr() == old(self).addr(),
            match event {
                ClientNetEvent::Connected(ep) => final(self).host() == Some(ep) && a
                    == ClientAction::Send(ep, NetMessage::RequestJob),
                ClientNetEvent::Accepted(ep) => final(self).host() == Some(ep) && a is Ignore,
                ClientNetEvent::Message(_, msg) => final(self).host() == old(self).host() && match msg {
                    Some(NetMessage::Ping(Some(server))) => if old(self).host() is None {
                        a == ClientAction::Dial(server)
                    } else {
                        a is Ignore
                    },
                    Some(NetMessage::SendFile(name, data)) => a == ClientAction::StoreFile(name, data),
                    _ => a is Ignore,
                },
                ClientNetEvent::Disconnected(ep) => final(self).host() is None && a
                    == ClientAction::Report(NetResponse::Disconnected { socket: ep.addr }),
            },
    {
        match event {
            ClientNetEvent::Connected(ep) => {
                self.host = Some(ep.duplicate());
                ClientAction::Send(ep, NetMessage::RequestJob)
            },
            ClientNetEvent::Accepted(ep) => {
                self.host = Some(ep);
                ClientAction::Ignore
            },
            ClientNetEvent::Message(_, msg) => match msg {
                Some(NetMessage::Ping(Some(server))) => if self.host.is_none() {
                    ClientAction::Dial(server)
                } else {
                    ClientAction::Ignore
                },
                Some(NetMessage::SendFile(name, data)) => ClientAction::StoreFile(name, data),
                _ => ClientAction::Ignore,
            },
            ClientNetEvent::Disconnected(ep) => {
                self.host = None;
                ClientAction::Report(NetResponse::Disconnected { socket: ep.addr })
            },
        }
    }
}

} // verus!
