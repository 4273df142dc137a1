use blendfarm::host::{
    delete_job_command, fetch_blender_reply, fetch_blender_request, job_detail_id, job_id_from_text,
    version_from_text, JobAction, JobError,
};
use blendfarm::models::{Job, RenderMode, Version, WithId};
use blendfarm::records::{
    collect_frames, keep_decoded, update_outcome, AdvertiseDAO, JobDAO, RenderDAO, RenderError, TicketDAO,
};

const ID: &str = "67e55044-10b1-426f-9247-bb680e5fe0c8";
const JOB: &str = "a1a2a3a4-b1b2-c1c2-d1d2-d3d4d5d6d7d8";

#[test]
fn render_rows_decode() {
    let row = RenderDAO { id: ID.to_string(), job_id: JOB.to_string(), frame: 12, render_path: "/r/12.png".to_string() };
    let rec = row.to_record().expect("a well-formed row");
    assert_eq!(rec.id, 0x67e55044_10b1_426f_9247_bb680e5fe0c8);
    assert_eq!(rec.item.job_id, 0xa1a2a3a4_b1b2_c1c2_d1d2_d3d4d5d6d7d8);
    assert_eq!(rec.item.frame, 12);
    assert_eq!(rec.item.render_path, "/r/12.png");
    let wide = RenderDAO { id: ID.to_string(), job_id: JOB.to_string(), frame: (1i64 << 32) + 5, render_path: String::new() };
    assert_eq!(wide.to_record().unwrap().item.frame, 5);
    let bad = RenderDAO { id: "not-a-uuid".to_string(), job_id: JOB.to_string(), frame: 1, render_path: String::new() };
    assert!(matches!(bad.to_record(), Err(RenderError::DatabaseError(_))));
}

#[test]
fn later_renders_of_a_frame_win() {
    let rows = vec![
        RenderDAO { id: ID.to_string(), job_id: JOB.to_string(), frame: 1, render_path: "/a".to_string() },
        RenderDAO { id: "bad".to_string(), job_id: JOB.to_string(), frame: 2, render_path: "/b".to_string() },
        RenderDAO { id: ID.to_string(), job_id: JOB.to_string(), frame: 1, render_path: "/c".to_string() },
        RenderDAO { id: ID.to_string(), job_id: JOB.to_string(), frame: 3, render_path: "/d".to_string() },
    ];
    let m = collect_frames(&rows);
    assert_eq!(m.len(), 2);
    assert_eq!(m.get(&1).unwrap(), "/c");
    assert_eq!(m.get(&3).unwrap(), "/d");
    assert!(m.get(&2).is_none());
}

#[test]
fn ticket_rows_decode() {
    let row = TicketDAO {
        id: ID.to_string(),
        job_id: JOB.to_string(),
        blend_path: "/p.blend".to_string(),
        blender_version: "4.2.1-beta.1+build5".to_string(),
        start: 1,
        end: 15,
    };
    let rec = row.try_dto_to_ticket().expect("a well-formed row");
    assert_eq!(rec.item.job_id, 0xa1a2a3a4_b1b2_c1c2_d1d2_d3d4d5d6d7d8);
    assert_eq!((rec.item.blender_version.major, rec.item.blender_version.minor, rec.item.blender_version.patch), (4, 2, 1));
    assert_eq!(rec.item.blender_version.pre, "beta.1");
    assert_eq!(rec.item.blender_version.build, "build5");
    assert_eq!((rec.item.start, rec.item.end), (1, 15));
    assert_eq!(rec.item.output, "");
    let bad = TicketDAO {
        id: ID.to_string(),
        job_id: JOB.to_string(),
        blend_path: String::new(),
        blender_version: "four".to_string(),
        start: 1,
        end: 2,
    };
    assert!(bad.try_dto_to_ticket().is_none());
}

#[test]
fn advertise_rows_decode() {
    let ad = AdvertiseDAO { id: ID.to_string(), ad_name: "scene".to_string(), file_path: "/s.blend".to_string() }
        .try_dto_to_obj()
        .unwrap();
    assert_eq!(ad.id, 0x67e55044_10b1_426f_9247_bb680e5fe0c8);
    assert_eq!(ad.ad_name, "scene");
    assert!(AdvertiseDAO { id: "x".to_string(), ad_name: String::new(), file_path: String::new() }
        .try_dto_to_obj()
        .is_none());
}

#[test]
fn update_outcomes() {
    assert!(update_outcome(Ok(1)).is_ok());
    assert!(matches!(update_outcome(Ok(0)), Err(JobError::DatabaseError(m)) if m == "Unable to find record! No record was affected!"));
    assert!(matches!(update_outcome(Ok(12)), Err(JobError::DatabaseError(m)) if m == "More than one records was affected! 12"));
    assert!(matches!(update_outcome(Err("busy".to_string())), Err(JobError::DatabaseError(m)) if m == "busy"));
}

#[test]
fn decoded_jobs_keep_their_order() {
    let job = |id: u128| WithId {
        id,
        item: Job { mode: RenderMode::Frame(1), project_file: String::new(), blender_version: Version::new(1, 0, 0), output: String::new() },
    };
    let rows = vec![Ok(job(1)), Err(JobError::InvalidFile("x".to_string())), Ok(job(3))];
    assert_eq!(keep_decoded(rows).iter().map(|j| j.id).collect::<Vec<_>>(), vec![1, 3]);
}

#[test]
fn texts_from_the_user_interface() {
    assert_eq!(job_id_from_text(ID), Some(0x67e55044_10b1_426f_9247_bb680e5fe0c8));
    assert_eq!(job_id_from_text("67e5504410b1426f9247bb680e5fe0c8"), Some(0x67e55044_10b1_426f_9247_bb680e5fe0c8));
    assert_eq!(job_id_from_text("nope"), None);
    let v = version_from_text("4.1.0").unwrap();
    assert_eq!((v.major, v.minor, v.patch), (4, 1, 0));
    assert!(version_from_text("4.1").is_none());
}

#[test]
fn job_requests_from_the_user_interface() {
    assert!(matches!(delete_job_command(ID), Ok(JobAction::Kill(0x67e55044_10b1_426f_9247_bb680e5fe0c8))));
    let expected = format!("{:?}", uuid::Uuid::parse_str("nope").unwrap_err());
    assert!(matches!(delete_job_command("nope"), Err(msg) if msg == expected));
    assert_eq!(job_detail_id(ID), Ok(0x67e55044_10b1_426f_9247_bb680e5fe0c8));
    assert!(matches!(job_detail_id("nope"), Err(msg) if msg == format!("Unable to parse uuid? \n{expected}")));
}

#[test]
fn blender_fetch_requests() {
    let v = fetch_blender_request("4.2.1").unwrap();
    assert_eq!((v.major, v.minor, v.patch), (4, 2, 1));
    assert_eq!(fetch_blender_request("latest").map(|v| v.major), Err(()));
    assert_eq!(fetch_blender_reply(Some(5)), Ok(5));
    assert_eq!(fetch_blender_reply::<u8>(None), Err(()));
}

#[test]
fn job_rows_decode() {
    let row = |id: &str| JobDAO {
        id: id.to_string(),
        mode: RenderMode::Animation { start: 1, end: 10 },
        project_file: "/p/scene.blend".to_string(),
        blender_version: Version::new(4, 2, 0),
        output_path: "/out".to_string(),
    };
    let job = row(ID).dto_to_obj(Ok(())).ok().unwrap();
    assert_eq!(job.id, 0x67e55044_10b1_426f_9247_bb680e5fe0c8);
    assert_eq!(job.item.project_file, "/p/scene.blend");
    assert_eq!(job.item.output, "/out");
    assert!(matches!(row(ID).dto_to_obj(Err(JobError::InvalidFile("bad".to_string()))), Err(JobError::InvalidFile(m)) if m == "bad"));
    let expected = uuid::Uuid::parse_str("x").unwrap_err().to_string();
    assert!(matches!(row("x").dto_to_obj(Ok(())), Err(JobError::DatabaseError(m)) if m == expected));
    let bad = RenderDAO { id: ID.to_string(), job_id: "x".to_string(), frame: 1, render_path: String::new() };
    assert!(matches!(bad.to_record(), Err(RenderError::DatabaseError(m)) if m == expected));
}
