use vstd::prelude::*;

use crate::events::ComputerSpec;
use crate::external::{file_name_of, path_file_name, portable_path};
use crate::models::{Job, JobId};

verus! {

/// What the user asks of the desktop application.
#[derive(Debug)]
pub enum UiCommand {
    StartJob(Job),
    StopJob(JobId),
    /// Offer the file at the path to the farm.
    UploadFile(String),
}

/// How the desktop application carries out a command of the user.
#[derive(Debug)]
pub struct UiReaction {
    /// Offer to the farm the file of this name.
    pub provide: Option<String>,
    /// Send the job to the farm.
    pub send_job: Option<Job>,
}

/// What the network tells the desktop application; peers are named by their
/// id (text).
#[derive(Debug)]
pub enum DisplayEvent {
    Render(String, Job),
    Status(String, String),
    NodeDiscovered(String),
    NodeDisconnected(String),
    /// A peer describes its machine.
    Identity(String, ComputerSpec),
}

/// How the desktop application answers a network event.
#[derive(Debug)]
pub enum DisplayReaction {
    /// Emit the named event to the window with the peer id (text), and, when
    /// the flag is set, share this machine's description with the farm.
    Emit(&'static str, String, bool),
    /// Emit `node_identity` to the window with the peer id and its machine.
    EmitIdentity(String, ComputerSpec),
    Ignore,
}

/// The desktop application that shows the farm.
#[derive(Debug, Default)]
pub struct DisplayApp {}

impl DisplayApp {
    /// Carries out a command; `file_name` is the file name of the job's project
    /// file, or of the uploaded path (`None` when the path has none). A started
    /// job has its project offered and is sent to the farm; an upload is offered
    /// when it has a file name.
    pub fn ui_reaction(cmd: UiCommand, file_name: Option<String>) -> (r: UiReaction)
        requires
            !(cmd is StopJob),
        ensures
            match cmd {
                UiCommand::StartJob(job) => r.provide == file_name && r.send_job == Some(job),
                UiCommand::UploadFile(_) => r.provide == file_name && r.send_job is None,
                UiCommand::StopJob(_) => false,
            },
    {
        match cmd {
            UiCommand::StartJob(job) => UiReaction { provide: file_name, send_job: Some(job) },
            UiCommand::UploadFile(_) => UiReaction { provide: file_name, send_job: None },
            UiCommand::StopJob(_) => vstd::pervasive::unreached(),
        }
    }

    /// Carries out a command, naming the offered file by the file name of the
    /// job's project file or of the uploaded path (as `ui_reaction` does with
    /// that name).
    pub fn carry_out(cmd: UiCommand) -> (r: UiReaction)
        requires
            !(cmd is StopJob),
        ensures
            match cmd {
                UiCommand::StartJob(job) => {
                    &&& r.send_job == Some(job)
                    &&& portable_path(job.project_file@) ==> match file_name_of(job.project_file@) {
                        Some(n) => r.provide matches Some(m) && m@ == n,
                        None => r.provide is None,
                    }
                },
                UiCommand::UploadFile(path) => {
                    &&& r.send_job is None
                    &&& portable_path(path@) ==> match file_name_of(path@) {
                        Some(n) => r.provide matches Some(m) && m@ == n,
                        None => r.provide is None,
                    }
                },
                UiCommand::StopJob(_) => false,
            },
    {
        let file_name = match &cmd {
            UiCommand::StartJob(job) => path_file_name(job.project_file.as_str()),
            UiCommand::UploadFile(path) => path_file_name(path.as_str()),
            UiCommand::StopJob(_) => None,
        };
        DisplayApp::ui_reaction(cmd, file_name)
    }

    /// Answers a network event: a discovered node is shown (as
    /// `node_discover`) and this machine's description is shared with it; a
    /// departed one is shown as `node_disconnect`; a node's description is
    /// shown as `node_identity`; the rest is only reported.
    pub fn net_reaction(event: DisplayEvent) -> (r: DisplayReaction)
        ensures
            match event {
                DisplayEvent::NodeDiscovered(p) => r matches DisplayReaction::Emit(name, peer, share)
                    && name@ == "node_discover"@ && peer == p && share,
                DisplayEvent::NodeDisconnected(p) => r matches DisplayReaction::Emit(name, peer, share)
                    && name@ == "node_disconnect"@ && peer == p && !share,
                DisplayEvent::Identity(p, spec) => r == DisplayReaction::EmitIdentity(p, spec),
                _ => r is Ignore,
            },
    {
        match event {
            DisplayEvent::NodeDiscovered(p) => DisplayReaction::Emit("node_discover", p, true),
            DisplayEvent::NodeDisconnected(p) => DisplayReaction::Emit("node_disconnect", p, false),
            DisplayEvent::Identity(p, spec) => DisplayReaction::EmitIdentity(p, spec),
            _ => DisplayReaction::Ignore,
        }
    }
}

} // verus!
