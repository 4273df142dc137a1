use blendfarm::file_service::FileService;
use blendfarm::host::{open_program, BlenderQuery, Origin, QueryMode, ServerSetting, TauriApp, WorkerAction};
use blendfarm::job_manager::{JobManager, JobManagerError};
use blendfarm::models::{Job, RenderMode, Version, WithId};
use blendfarm::network::{NetworkError, Networkerror};
use blendfarm::server_settings::ServerSettings;

fn job(id: u128) -> WithId<Job> {
    WithId {
        id,
        item: Job {
            mode: RenderMode::Frame(1),
            project_file: format!("/p/{id}.blend"),
            blender_version: Version::new(4, 1, 0),
            output: "/out".to_string(),
        },
    }
}

#[test]
fn file_service_read_after_write() {
    let mut files = FileService::new(Vec::new());
    assert!(files.get_file_path("scene").is_none());
    files.add_providing_file("scene", "/tmp/scene.blend");
    files.add_providing_file("other", "/tmp/other.blend");
    assert_eq!(files.get_file_path("scene").unwrap(), "/tmp/scene.blend");
    files.add_providing_file("scene", "/tmp/scene2.blend");
    assert_eq!(files.get_file_path("scene").unwrap(), "/tmp/scene2.blend");
    assert_eq!(files.remove_providing_file("scene").unwrap(), "/tmp/scene2.blend");
    assert!(files.get_file_path("scene").is_none());
    assert!(files.remove_providing_file("scene").is_none());
    assert_eq!(files.get_file_path("other").unwrap(), "/tmp/other.blend");
}

#[test]
fn job_queue_add_and_keep() {
    let mut m = JobManager::default();
    assert!(m.add_to_queue(job(1)).is_ok());
    assert!(m.add_to_queue(job(2)).is_ok());
    assert!(m.add_to_queue(job(1)).is_ok());
    assert_eq!(m.as_ref().iter().map(|j| j.id).collect::<Vec<_>>(), vec![1, 2, 1]);
    assert!(m.remove_from_queue(1).is_ok());
    assert_eq!(m.as_ref().iter().map(|j| j.id).collect::<Vec<_>>(), vec![1, 1]);
    assert!(m.remove_from_queue(1).is_ok());
    assert_eq!(m.as_ref().len(), 2);
    assert!(m.remove_from_queue(9).is_ok());
    assert!(m.as_ref().is_empty());
}

#[test]
fn error_messages() {
    assert_eq!(JobManagerError::BadInput.message(), "Received bad input");
    assert_eq!(JobManagerError::InvalidJob.message(), "Invalid job");
    assert_eq!(JobManagerError::BlenderError.message(), "Blender errors");
    assert_eq!(JobManagerError::UnexpectedError.message(), "Unexpected error");
    assert_eq!(NetworkError::NotConnected.message(), "Not Connected");
    assert_eq!(NetworkError::Invalid.message(), "Invalid connection");
    assert_eq!(NetworkError::BadInput.message(), "Bad Input");
    assert_eq!(NetworkError::SendError("closed".to_string()).message(), "Send Error: closed");
    assert_eq!(Networkerror::Unexpected.message(), "Unexpected error");
}

#[test]
fn server_settings_defaults() {
    let s = ServerSettings::default();
    assert_eq!(s.port, 15000);
    assert_eq!(s.broadcast_port, 16342);
    assert_eq!(s.blender_data, "BlenderData");
    assert_eq!(s.render_data, "RenderData");
    assert_eq!(s.blender_files, "BlenderFiles");
}

#[test]
fn query_modes() {
    let local = QueryMode::local();
    let online = QueryMode::online();
    let both = local.union(online);
    assert!(both.contains(local));
    assert!(both.contains(online));
    assert!(local.contains(local));
    assert!(!local.contains(online));
    assert!(!online.contains(both));
}

#[test]
fn blender_listing_follows_flags() {
    let local = vec![(Version::new(4, 2, 0), "/opt/blender".to_string())];
    let online = vec![
        (Version::new(4, 3, 0), "https://download/4.3".to_string()),
        (Version::new(4, 4, 1), "https://download/4.4".to_string()),
    ];
    let only_local = TauriApp::blender_listing(QueryMode::local(), &local, &online);
    assert_eq!(only_local.len(), 1);
    assert!(only_local[0].is_install_locally());
    assert_eq!(only_local[0].link(), "/opt/blender");
    let all = TauriApp::blender_listing(QueryMode::local().union(QueryMode::online()), &local, &online);
    assert_eq!(all.iter().map(|q| q.link()).collect::<Vec<_>>(), vec!["/opt/blender", "https://download/4.3", "https://download/4.4"]);
    assert_eq!(all[2].version.patch, 1);
    let only_online = TauriApp::blender_listing(QueryMode::online(), &local, &online);
    assert_eq!(only_online.len(), 2);
    assert!(!only_online[0].is_install_locally());
}

#[test]
fn blender_query_parent_dir() {
    let q = BlenderQuery { version: Version::new(4, 2, 0), origin: Origin::Local("/opt/blender/blender".to_string()) };
    assert_eq!(q.parent_dir(), "/opt/blender");
    let web = BlenderQuery { version: Version::new(4, 2, 0), origin: Origin::Online("https://x/y".to_string()) };
    assert_eq!(web.parent_dir(), "");
    assert_eq!(web.link(), "https://x/y");
    let bare = BlenderQuery { version: Version::new(4, 2, 0), origin: Origin::Local("/".to_string()) };
    assert_eq!(bare.parent_dir(), "");
    let top = BlenderQuery { version: Version::new(4, 2, 0), origin: Origin::Local("/blender".to_string()) };
    assert_eq!(top.parent_dir(), "/");
    let single = BlenderQuery { version: Version::new(4, 2, 0), origin: Origin::Local("blender".to_string()) };
    assert_eq!(single.parent_dir(), "");
    let relative = BlenderQuery { version: Version::new(4, 2, 0), origin: Origin::Local("apps/blender 4/blender".to_string()) };
    assert_eq!(relative.parent_dir(), "apps/blender 4");
}

#[test]
fn worker_actions_compare_by_node() {
    let a = WorkerAction::Get("12D3KooW".to_string());
    let b = WorkerAction::Get("12D3KooW".to_string());
    let c = WorkerAction::Get("other".to_string());
    assert!(a.same_request(&b));
    assert!(!a.same_request(&c));
    assert!(WorkerAction::List.same_request(&WorkerAction::List));
    assert!(!WorkerAction::List.same_request(&a));
}

#[test]
fn host_settings_and_peers() {
    let mut app = TauriApp::new(ServerSetting { blend_dir: "/b".to_string(), render_dir: "/r".to_string() });
    assert_eq!(app.current_settings().render_dir, "/r");
    app.update_settings(ServerSetting { blend_dir: "/b2".to_string(), render_dir: "/r2".to_string() });
    assert_eq!(app.current_settings().blend_dir, "/b2");
}

#[test]
fn directory_programs() {
    assert_eq!(open_program("windows"), Some("explorer"));
    assert_eq!(open_program("macos"), Some("open"));
    assert_eq!(open_program("linux"), Some("xdg-open"));
    assert_eq!(open_program("freebsd"), None);
}

#[test]
fn file_service_keeps_stored_offers() {
    let stored = vec![
        ("scene".to_string(), "/tmp/scene.blend".to_string()),
        ("frame".to_string(), "/tmp/0001.png".to_string()),
        ("scene".to_string(), "/tmp/scene2.blend".to_string()),
    ];
    let files = FileService::new(stored);
    assert_eq!(files.get_file_path("scene").unwrap(), "/tmp/scene2.blend");
    assert_eq!(files.get_file_path("frame").unwrap(), "/tmp/0001.png");
    assert!(files.get_file_path("other").is_none());
}

#[test]
fn finished_images_go_to_the_job_directory() {
    let app = TauriApp::new(ServerSetting { blend_dir: "/b".to_string(), render_dir: "/home/me/renders".to_string() });
    let d = app.image_directory(0x67e55044_10b1_426f_9247_bb680e5fe0c8);
    let sep = std::path::MAIN_SEPARATOR;
    assert_eq!(d, format!("/home/me/renders{sep}67e55044-10b1-426f-9247-bb680e5fe0c8"));
    let dotted = TauriApp::new(ServerSetting { blend_dir: "/b".to_string(), render_dir: "/home/me/.blendfarm (2)/réndus".to_string() });
    assert_eq!(dotted.image_directory(1), format!("/home/me/.blendfarm (2)/réndus{sep}00000000-0000-0000-0000-000000000001"));
    let trailing = TauriApp::new(ServerSetting { blend_dir: "/b".to_string(), render_dir: "/r/".to_string() });
    assert_eq!(trailing.image_directory(1), "/r/00000000-0000-0000-0000-000000000001");
    let empty = TauriApp::new(ServerSetting { blend_dir: "/b".to_string(), render_dir: String::new() });
    assert_eq!(empty.image_directory(1), "00000000-0000-0000-0000-000000000001");
}
