//! Verified core of a network render farm for Blender: job and ticket
//! planning, the bookkeeping of shared files and queued jobs, the decisions
//! that the host, the render nodes and the transfer peers take on each event,
//! record decoding and the HTML fragments that the desktop front end shows.

pub mod models;
pub mod external;
pub mod ticket_service;
pub mod host;
pub mod job_manager;
pub mod file_service;
pub mod events;
pub mod server;
pub mod node;
pub mod network;
pub mod client;
pub mod transfer;
pub mod display;
pub mod server_settings;
pub mod records;
pub mod html;
pub mod images;
pub mod html_laws;
