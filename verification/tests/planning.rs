use blendfarm::host::TauriApp;
use blendfarm::models::{Job, RenderMode, Version, WithId};
use blendfarm::ticket_service::TicketService;

fn scaffold_job(mode: RenderMode) -> Job {
    Job {
        mode,
        project_file: "/projects/test.blend".to_string(),
        blender_version: Version::new(4, 2, 0),
        output: "/renders".to_string(),
    }
}

fn bounds(tickets: &[blendfarm::models::Ticket]) -> Vec<(i32, i32)> {
    tickets.iter().map(|t| (t.start, t.end)).collect()
}

#[test]
fn assure_generate_ticket_succeed() {
    let services = TicketService::new(15);
    let job = scaffold_job(RenderMode::Animation { start: 1, end: 60 });
    let id = 0x1234_5678_9abc_def0_1234_5678_9abc_def0u128;
    let collection = services.generate_tickets(WithId { id, item: job });
    assert!(collection.iter().count() > 1);
}

#[test]
fn tickets_partition_the_range() {
    let services = TicketService::new(15);
    let job = scaffold_job(RenderMode::Animation { start: 1, end: 40 });
    let tickets = services.generate_tickets(WithId { id: 7, item: job });
    assert_eq!(bounds(&tickets), vec![(1, 16), (16, 31), (31, 40)]);
    for t in &tickets {
        assert_eq!(t.job_id, 7);
        assert_eq!(t.blend_path, "/projects/test.blend");
        assert_eq!(t.output, "");
        assert_eq!((t.blender_version.major, t.blender_version.minor, t.blender_version.patch), (4, 2, 0));
    }
}

#[test]
fn tickets_of_a_single_frame_are_none() {
    let services = TicketService::new(15);
    let job = scaffold_job(RenderMode::Frame(5));
    assert!(services.generate_tickets(WithId { id: 1, item: job }).is_empty());
}

#[test]
fn tickets_when_the_block_exceeds_the_range() {
    let services = TicketService::new(100);
    let job = scaffold_job(RenderMode::Animation { start: -5, end: 3 });
    let tickets = services.generate_tickets(WithId { id: 1, item: job });
    assert_eq!(bounds(&tickets), vec![(-5, 3)]);
}

#[test]
fn tickets_near_the_frame_limit() {
    let services = TicketService::new(10);
    let job = scaffold_job(RenderMode::Animation { start: i32::MAX - 15, end: i32::MAX });
    let tickets = services.generate_tickets(WithId { id: 1, item: job });
    assert_eq!(bounds(&tickets), vec![(i32::MAX - 15, i32::MAX - 5), (i32::MAX - 5, i32::MAX)]);
}

#[test]
fn tasks_cover_the_range_inclusively() {
    let job = WithId { id: 3, item: scaffold_job(RenderMode::Animation { start: 1, end: 10 }) };
    let tasks = TauriApp::generate_tasks(&job, 3);
    assert_eq!(bounds(&tasks), vec![(1, 4), (5, 7), (8, 10), (11, 10)]);
    for t in &tasks {
        assert_eq!(t.output, "/renders");
        assert_eq!(t.job_id, 3);
    }
}

#[test]
fn tasks_when_blocks_do_not_fill_the_range() {
    let job = WithId { id: 3, item: scaffold_job(RenderMode::Animation { start: 0, end: 7 }) };
    let tasks = TauriApp::generate_tasks(&job, 3);
    assert_eq!(bounds(&tasks), vec![(0, 3), (4, 6), (7, 7)]);
}

#[test]
fn tasks_of_a_single_frame() {
    let job = WithId { id: 3, item: scaffold_job(RenderMode::Frame(12)) };
    let tasks = TauriApp::generate_tasks(&job, 5);
    assert_eq!(bounds(&tasks), vec![(12, 12)]);
}

#[test]
fn tasks_with_a_negative_block() {
    let job = WithId { id: 3, item: scaffold_job(RenderMode::Animation { start: 10, end: 4 }) };
    let tasks = TauriApp::generate_tasks(&job, -2);
    assert_eq!(bounds(&tasks), vec![(10, 4), (9, 4), (7, 4), (5, 2)]);
}

#[test]
fn tickets_of_an_empty_range_need_no_block_size() {
    let services = TicketService::new(0);
    let job = scaffold_job(RenderMode::Animation { start: 10, end: 5 });
    assert!(services.generate_tickets(WithId { id: 1, item: job }).is_empty());
    let job = scaffold_job(RenderMode::Frame(4));
    assert!(services.generate_tickets(WithId { id: 1, item: job }).is_empty());
}
