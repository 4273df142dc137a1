use blendfarm::client::{listen_address, Client, ClientAction, ClientNetEvent, Endpoint, NetMessage, NetResponse, ToNetwork};
use blendfarm::display::{DisplayApp, DisplayEvent, DisplayReaction, UiCommand};
use blendfarm::events::{BlenderEvent, ComputerSpec, Event, JobEvent, ServerEvent};
use blendfarm::host::{HostReaction, JobAction, JobError, JobStoreCall, TauriApp};
use blendfarm::models::{Job, RenderMode, Ticket, Version, WithId};
use blendfarm::network::{Command, CommandOutcome, NetEvent, NetworkService, SwarmAction, SwarmReport};
use blendfarm::node::{CliApp, NodeReaction, PollStep};
use blendfarm::server::{ProviderRule, Server, ServerCommand, ServerReaction, WorkerStep};
use blendfarm::transfer::{ChunkOutcome, FileSender, Receiver, ReceiverMsg, SendStep, SenderMsg};

fn spec() -> ComputerSpec {
    ComputerSpec {
        host: "node-a".to_string(),
        os: "linux".to_string(),
        arch: "x86_64".to_string(),
        cpu: "cpu".to_string(),
        cores: 8,
        memory: 16 * 1024 * 1024 * 1024,
        gpu: None,
    }
}

fn ticket(job_id: u128) -> Ticket {
    Ticket::new(job_id, "/p.blend".to_string(), Version::new(4, 2, 0), String::new(), 1, 5)
}

fn job() -> Job {
    Job {
        mode: RenderMode::Frame(3),
        project_file: "/p.blend".to_string(),
        blender_version: Version::new(4, 2, 0),
        output: "/o".to_string(),
    }
}

#[test]
fn server_greets_with_a_ticket_request_when_idle() {
    let m = Server::greeting(Some(0), "/ip4/1.2.3.4".to_string(), spec());
    assert_eq!(m.len(), 2);
    assert!(matches!(&m[0], ServerEvent::RequestTicket(a) if a == "/ip4/1.2.3.4"));
    assert!(matches!(&m[1], ServerEvent::Online(a, s) if a.is_empty() && s.host == "node-a"));
    let m = Server::greeting(Some(2), "/ip4/1.2.3.4".to_string(), spec());
    assert_eq!(m.len(), 1);
    assert!(matches!(&m[0], ServerEvent::Online(..)));
    assert_eq!(Server::greeting(None, String::new(), spec()).len(), 1);
}

#[test]
fn server_turns_down_requests_when_busy() {
    assert!(Server::serves_ticket_request(Some(3)));
    assert!(!Server::serves_ticket_request(Some(4)));
    assert!(Server::serves_ticket_request(None));
}

#[test]
fn server_reactions() {
    assert!(matches!(Server::react_to_network(None), ServerReaction::Shutdown));
    assert!(matches!(
        Server::react_to_network(Some(Event::Discovered("p".to_string(), "addr".to_string()))),
        ServerReaction::GreetDiscovered(a) if a == "addr"
    ));
    assert!(matches!(
        Server::react_to_network(Some(Event::ServerStatus(ServerEvent::RemoveJob(9)))),
        ServerReaction::DeleteJobTickets(9)
    ));
    assert!(matches!(
        Server::react_to_network(Some(Event::ServerStatus(ServerEvent::NewTickets(ticket(4))))),
        ServerReaction::AddTicket(t) if t.job_id == 4
    ));
    assert!(matches!(
        Server::react_to_network(Some(Event::ServerStatus(ServerEvent::Joined("p".to_string())))),
        ServerReaction::Ignore
    ));
    assert!(matches!(Server::react_to_command(Some(ServerCommand::Fetch(2))), ServerReaction::ReplyRenders(2)));
    assert!(matches!(Server::react_to_command(None), ServerReaction::Shutdown));
    assert!(matches!(
        Server::package_offer("b.tar.xz".to_string(), Some("/c/b.tar.xz".to_string())),
        Some(ProviderRule::Custom(n, p)) if n == "b.tar.xz" && p == "/c/b.tar.xz"
    ));
    assert!(Server::package_offer("b.tar.xz".to_string(), None).is_none());
    assert!(matches!(Server::worker_step(Some(WithId { id: 5, item: ticket(1) })), WorkerStep::Render { record: 5, .. }));
    assert!(matches!(Server::worker_step(None), WorkerStep::Finish));
}

const PEER: &str = "QmYyQSo1c1Ym7orWxLYvCrM2EmxFTANf8wXmmE7DWjhx5N";

#[test]
fn host_checks_departed_peer_ids() {
    let departed = |p: &str| Event::ServerStatus(ServerEvent::Disconnected { peer_id: p.to_string(), reason: None });
    assert!(matches!(TauriApp::try_react_to_network(departed(PEER)), Some(HostReaction::ForgetWorker(p, _)) if p == PEER));
    assert!(TauriApp::try_react_to_network(departed("not a peer")).is_none());
    assert!(TauriApp::try_react_to_network(Event::JobUpdate(JobEvent::RequestTask("x".to_string()))).is_none());
    assert!(matches!(TauriApp::try_react_to_network(Event::InboundRequest("f".to_string())), Some(HostReaction::ServeFile(f)) if f == "f"));
}

#[test]
fn node_takes_the_first_discovered_peer_as_host() {
    let mut app = CliApp::new();
    assert!(!app.has_host());
    let (dial, request) = app.on_discovered("me".to_string(), "a".to_string(), "addr-a".to_string());
    assert_eq!(dial, Some(("a".to_string(), "addr-a".to_string())));
    assert!(matches!(request, (p, JobEvent::RequestTask(me)) if p == "a" && me == "me"));
    assert!(app.has_host());
    let (dial, request) = app.on_discovered("me".to_string(), "b".to_string(), "addr-b".to_string());
    assert_eq!(dial, None);
    assert!(matches!(request, (p, JobEvent::RequestTask(me)) if p == "b" && me == "me"));
    let mut other = CliApp::new();
    other.on_dial_result("c".to_string(), "addr-c".to_string(), false);
    assert!(!other.has_host());
    other.on_dial_result("c".to_string(), "addr-c".to_string(), true);
    assert!(other.has_host());
}

#[test]
fn node_renders_only_its_own_tickets() {
    let own = "12D3KooWown".to_string();
    assert!(CliApp::accepts_render(Some("12D3KooWown".to_string()), &own));
    assert!(!CliApp::accepts_render(Some("12D3KooWother".to_string()), &own));
    assert!(!CliApp::accepts_render(None, &own));
    assert!(matches!(
        CliApp::react_to_network(Event::JobUpdate(JobEvent::Remove(3))),
        NodeReaction::DeleteJobTasks(3)
    ));
    assert!(matches!(
        CliApp::react_to_network(Event::JobUpdate(JobEvent::Render("x".to_string(), ticket(1)))),
        NodeReaction::ConsiderRender(p, _) if p == "x"
    ));
}

#[test]
fn node_follows_blender() {
    let p = CliApp::render_progress(
        7,
        BlenderEvent::Completed { frame: 3, result: "/r/0003.png".to_string() },
        Some("0003.png".to_string()),
    );
    assert!(p.go_on);
    assert!(matches!(p.provide, Some(ProviderRule::Default(ref path)) if path == "/r/0003.png"));
    assert!(matches!(p.announce, Some(JobEvent::ImageCompleted { job_id: 7, frame: 3, ref file_name }) if file_name == "0003.png"));
    let f = CliApp::follow_render(7, BlenderEvent::Completed { frame: 4, result: "/r/out/0004.png".to_string() });
    assert!(f.go_on);
    assert!(matches!(f.provide, Some(ProviderRule::Default(ref path)) if path == "/r/out/0004.png"));
    assert!(matches!(f.announce, Some(JobEvent::ImageCompleted { job_id: 7, frame: 4, ref file_name }) if file_name == "0004.png"));
    assert!(!CliApp::follow_render(7, BlenderEvent::Exit).go_on);
    let exit = CliApp::render_progress(7, BlenderEvent::Exit, None);
    assert!(!exit.go_on);
    let log = CliApp::render_progress(7, BlenderEvent::Log("x".to_string()), None);
    assert!(log.go_on && log.provide.is_none());

    let s = CliApp::subscription_step(7, Some(BlenderEvent::Completed { frame: 2, result: "/r/2.png".to_string() }));
    assert!(s.go_on);
    assert_eq!(s.record, Some((7, 2, "/r/2.png".to_string())));
    assert!(!CliApp::subscription_step(7, None).go_on);

    let (e, go_on) = CliApp::forward_status(Ok(BlenderEvent::Error("bad".to_string())));
    assert!(!go_on && matches!(e, BlenderEvent::Error(m) if m == "bad"));
    let (_, go_on) = CliApp::forward_status(Ok(BlenderEvent::Rendering { current: 1, total: 2 }));
    assert!(go_on);
    let (e, go_on) = CliApp::forward_status(Err("closed".to_string()));
    assert!(!go_on && matches!(e, BlenderEvent::Error(m) if m == "closed"));

    assert!(matches!(CliApp::render_outcome(Err("no blender".to_string())), Some(JobEvent::Failed(m)) if m == "no blender"));
    assert!(CliApp::render_outcome(Ok(())).is_none());
    assert!(matches!(CliApp::task_request("me".to_string()), JobEvent::RequestTask(m) if m == "me"));
    assert!(matches!(CliApp::poll_step(Ok(None)), PollStep::RequestTaskAndStop));
    assert!(matches!(CliApp::poll_step(Ok(Some(WithId { id: 1, item: ticket(1) }))), PollStep::Subscribe(_)));
}

#[test]
fn host_job_requests() {
    let plan = TauriApp::job_plan(JobAction::Kill(4));
    assert!(matches!(plan.call, Some(JobStoreCall::DeleteJob(4))));
    assert!(matches!(plan.broadcast, Some(ServerEvent::RemoveJob(4))));
    let plan = TauriApp::job_plan(JobAction::AskForCompletedList(5));
    assert!(plan.call.is_none());
    assert!(matches!(plan.broadcast, Some(ServerEvent::RequestJobInfo(5))));
    assert!(TauriApp::job_list_reply(Ok(Vec::new())).is_none());
    assert_eq!(TauriApp::job_list_reply(Ok(vec![WithId { id: 1, item: job() }])).unwrap().len(), 1);
    assert!(TauriApp::job_list_reply(Err(JobError::DatabaseError("x".to_string()))).is_none());
    assert!(matches!(TauriApp::created_reply(Err("locked".to_string())), Err(JobError::DatabaseError(m)) if m == "locked"));
    assert!(matches!(
        TauriApp::advertised_file(Some(WithId { id: 1, item: job() })),
        Some(ProviderRule::Default(p)) if p == "/p.blend"
    ));
    assert!(matches!(
        TauriApp::react_to_network(Event::ServerStatus(ServerEvent::Disconnected { peer_id: PEER.to_string(), reason: None })),
        HostReaction::ForgetWorker(p, b) if p == PEER && b.len() == 34 && b[0] == 0x12 && b[1] == 0x20
    ));
    assert!(matches!(
        TauriApp::react_to_network(Event::JobUpdate(JobEvent::ImageCompleted { job_id: 2, frame: 1, file_name: "f.png".to_string() })),
        HostReaction::FetchImage(2, f) if f == "f.png"
    ));
    assert!(matches!(TauriApp::react_to_network(Event::Discovered("a".to_string(), "b".to_string())), HostReaction::Ignore));
}

#[test]
fn network_service_reports() {
    assert!(matches!(
        NetworkService::command_outcome(Command::Status("ok".to_string())),
        CommandOutcome::Publish(NetEvent::Status(s)) if s == "ok"
    ));
    assert!(matches!(NetworkService::command_outcome(Command::FrameCompleted("/f".to_string(), 1)), CommandOutcome::StopLoop));
    let a = NetworkService::swarm_actions(SwarmReport::Discovered(vec!["p1".to_string(), "p2".to_string()]));
    assert_eq!(a.len(), 4);
    assert!(matches!(&a[0], SwarmAction::AddPeer(p) if p == "p1"));
    assert!(matches!(&a[1], SwarmAction::Deliver(NetEvent::NodeDiscovered(p)) if p == "p1"));
    assert!(matches!(&a[2], SwarmAction::AddPeer(p) if p == "p2"));
    let a = NetworkService::swarm_actions(SwarmReport::Expired(vec!["p1".to_string()]));
    assert!(matches!(&a[0], SwarmAction::RemovePeer(p) if p == "p1"));
    assert!(matches!(&a[1], SwarmAction::Deliver(NetEvent::NodeDisconnected(p)) if p == "p1"));
    assert!(NetworkService::swarm_actions(SwarmReport::Message(None)).is_empty());
    assert_eq!(NetworkService::swarm_actions(SwarmReport::Message(Some(NetEvent::Status("s".to_string())))).len(), 1);
}

#[test]
fn client_connection_cycle() {
    let mut c = Client::new(Some((10, 0, 0, 2)));
    assert!(!c.is_connected());
    assert_eq!(c.as_ref(), "10.0.0.2:0");
    assert_eq!(Client::new(None).as_ref(), "127.0.0.1:0");
    assert_eq!(listen_address(Some((192, 168, 255, 17))), "192.168.255.17:0");
    assert!(matches!(c.connect("10.0.0.1:15000".to_string()), Some(ToNetwork::Connect(a)) if a == "10.0.0.1:15000"));
    assert!(matches!(c.on_command(ToNetwork::SendFile("/f".to_string())), ClientAction::Ignore));
    let ep = Endpoint { id: 1, addr: "10.0.0.1:15000".to_string() };
    let a = c.on_net_event(ClientNetEvent::Connected(ep));
    assert!(matches!(a, ClientAction::Send(e, NetMessage::RequestJob) if e.id == 1));
    assert!(c.is_connected());
    assert!(c.connect("x".to_string()).is_none());
    assert!(matches!(c.on_command(ToNetwork::SendFile("/f".to_string())), ClientAction::SendFile(e, p) if e.id == 1 && p == "/f"));
    let ping = ClientNetEvent::Message(Endpoint { id: 2, addr: "s".to_string() }, Some(NetMessage::Ping(Some("10.0.0.9:1".to_string()))));
    assert!(matches!(c.on_net_event(ping), ClientAction::Ignore));
    let a = c.on_net_event(ClientNetEvent::Disconnected(Endpoint { id: 1, addr: "10.0.0.1:15000".to_string() }));
    assert!(matches!(a, ClientAction::Report(NetResponse::Disconnected { socket }) if socket == "10.0.0.1:15000"));
    assert!(!c.is_connected());
    let ping = ClientNetEvent::Message(Endpoint { id: 2, addr: "s".to_string() }, Some(NetMessage::Ping(Some("10.0.0.9:1".to_string()))));
    assert!(matches!(c.on_net_event(ping), ClientAction::Dial(a) if a == "10.0.0.9:1"));
    assert!(matches!(c.on_command(ToNetwork::Exit), ClientAction::Stop));
}

#[test]
fn receiver_completes_at_the_announced_size() {
    let mut r = Receiver::new();
    assert!(r.on_file_request(1, "scene".to_string(), 10, true));
    assert!(!r.on_file_request(2, "other".to_string(), 10, false));
    assert_eq!(r.on_chunk(1, 4), ChunkOutcome::Partial);
    assert_eq!(r.on_chunk(1, 6), ChunkOutcome::Complete);
    assert!(!r.on_disconnected(1));
    assert!(r.on_file_request(3, "x".to_string(), 5, true));
    assert!(r.on_disconnected(3));
}

#[test]
fn sender_sends_until_the_file_is_read() {
    let mut s = FileSender::new("scene.blend".to_string(), 3);
    assert!(matches!(s.on_connected(true), SendStep::Send(SenderMsg::FileRequest(n, 3)) if n == "scene.blend"));
    assert!(matches!(s.on_connected(false), SendStep::Ignore));
    assert!(matches!(s.on_answer(ReceiverMsg::CanReceive(true)), SendStep::SendChunk));
    assert!(matches!(s.on_answer(ReceiverMsg::CanReceive(false)), SendStep::Stop));
    assert!(matches!(s.on_chunk_read(vec![1, 2, 3]), SendStep::Send(SenderMsg::Chunk(d)) if d == vec![1, 2, 3]));
    assert!(matches!(s.on_chunk_read(Vec::new()), SendStep::Stop));
    assert!(matches!(s.on_disconnected(), SendStep::Stop));
}

#[test]
fn display_reactions() {
    let r = DisplayApp::ui_reaction(UiCommand::StartJob(job()), Some("p.blend".to_string()));
    assert_eq!(r.provide, Some("p.blend".to_string()));
    assert!(r.send_job.is_some());
    let r = DisplayApp::ui_reaction(UiCommand::UploadFile("/x/y.png".to_string()), None);
    assert!(r.provide.is_none() && r.send_job.is_none());
    assert!(matches!(
        DisplayApp::net_reaction(DisplayEvent::NodeDiscovered("p".to_string())),
        DisplayReaction::Emit("node_discover", p, true) if p == "p"
    ));
    assert!(matches!(
        DisplayApp::net_reaction(DisplayEvent::NodeDisconnected("p".to_string())),
        DisplayReaction::Emit("node_disconnect", p, false) if p == "p"
    ));
    assert!(matches!(
        DisplayApp::net_reaction(DisplayEvent::Status("p".to_string(), "s".to_string())),
        DisplayReaction::Ignore
    ));
    assert!(matches!(
        DisplayApp::net_reaction(DisplayEvent::Identity("p".to_string(), spec())),
        DisplayReaction::EmitIdentity(p, s) if p == "p" && s.host == spec().host
    ));
    let r = DisplayApp::carry_out(UiCommand::StartJob(job()));
    assert_eq!(r.provide, Some("p.blend".to_string()));
    assert!(r.send_job.is_some());
    let r = DisplayApp::carry_out(UiCommand::UploadFile("/x/y.png".to_string()));
    assert_eq!(r.provide, Some("y.png".to_string()));
    assert!(r.send_job.is_none());
    let r = DisplayApp::carry_out(UiCommand::UploadFile("/x/..".to_string()));
    assert!(r.provide.is_none());
}
