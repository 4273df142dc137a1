use blendfarm::events::{ComputerSpec, Worker};
use blendfarm::host::{BlenderQuery, Origin};
use blendfarm::html::{
    available_versions_page, blender_table, convert_file_src, created_job_page, deleted_job_page,
    edit_settings_page, get_settings_page, hx_vals_text, import_blend_form, index_page,
    list_workers_page, output_field, render_job_detail_page, render_list_job, setting_page,
    get_worker, worker_page, JobDetail, JobEntry,
};
use blendfarm::images::{png_images, sort_texts};
use blendfarm::models::Version;

const ID: u128 = 0x67e55044_10b1_426f_9247_bb680e5fe0c8;

#[test]
fn empty_job_list() {
    assert_eq!(render_list_job(&None), "<div>No job found!</div>");
    assert_eq!(render_list_job(&Some(Vec::new())), "");
}

#[test]
fn job_list_rows() {
    let html = render_list_job(&Some(vec![JobEntry { id: ID, file_name: "a<b>.blend".to_string() }]));
    assert_eq!(
        html,
        "<div><table><tbody><tr tauri-invoke=\"get_job_detail\" hx-vals=\"{&quot;jobId&quot;:&quot;67e55044-10b1-426f-9247-bb680e5fe0c8&quot;}\" hx-target=\"#workplace\"><td style=\"width:100%\">a&lt;b&gt;.blend</td></tr></tbody></table></div>"
    );
}

#[test]
fn json_payloads_are_escaped() {
    assert_eq!(hx_vals_text("path", "C:\\a \"b\"\n"), "{\"path\":\"C:\\\\a \\\"b\\\"\\n\"}");
    assert_eq!(hx_vals_text("k", "\u{1}"), "{\"k\":\"\\u0001\"}");
}

#[test]
fn missing_job_page() {
    assert_eq!(render_job_detail_page(&None, false), "<div><p>Job do not exist.. How did you get here?</p></div>");
}

#[test]
fn job_page() {
    let detail = JobDetail {
        id: ID,
        project_file: "/p/s.blend".to_string(),
        project_file_name: "s.blend".to_string(),
        output: "/o".to_string(),
        version: Version::new(4, 2, 0),
        start: -1,
        end: 20,
        images: Some(vec!["/o/a b.png".to_string()]),
    };
    let html = render_job_detail_page(&Some(detail), false);
    assert_eq!(
        html,
        "<div class=\"content\"><h2>Job Detail: s.blend</h2><div><button tauri-invoke=\"open_dir\" hx-vals=\"{&quot;path&quot;:&quot;/p/s.blend&quot;}\">File path:</button>/p/s.blend</div><div><button tauri-invoke=\"open_dir\" hx-vals=\"{&quot;path&quot;:&quot;/o&quot;}\">Output:</button>/o</div><div>Target Blender Version: 4.2.0</div><div>Start: -1 | End: 20</div><button tauri-invoke=\"delete_job\" hx-vals=\"{&quot;jobId&quot;:&quot;67e55044-10b1-426f-9247-bb680e5fe0c8&quot;}\" hx-target=\"#workplace\">Delete Job</button><p><tr><td><img width=\"120px\" src=\"asset://localhost/%2Fo%2Fa%20b.png\"></td></tr></div>"
    );
    let none = JobDetail {
        id: ID,
        project_file: String::new(),
        project_file_name: String::new(),
        output: String::new(),
        version: Version::new(1, 0, 0),
        start: 0,
        end: 0,
        images: None,
    };
    assert!(render_job_detail_page(&Some(none), false).contains("<p><div>No image found in output directory...</div></div>"));
}

#[test]
fn asset_addresses() {
    assert_eq!(convert_file_src("/tmp/é x.png", false), "asset://localhost/%2Ftmp%2F%C3%A9%20x.png");
    assert_eq!(convert_file_src("C:\\r\\1.png", true), "http://asset.localhost/C%3A%5Cr%5C1.png");
    assert_eq!(convert_file_src("a-b_c.d~", false), "asset://localhost/a-b_c.d~");
}

#[test]
fn version_texts() {
    let v = Version { major: 4, minor: 10, patch: 0, pre: "rc.1".to_string(), build: "x".to_string() };
    assert_eq!(v.to_text(), "4.10.0-rc.1+x");
    assert_eq!(Version::new(3, 6, 12).to_text(), "3.6.12");
    assert_eq!(
        available_versions_page(&vec![Version::new(4, 2, 0), Version::new(3, 6, 1)]),
        "<div><li>4.2.0</li><li>3.6.1</li></div>"
    );
    assert_eq!(available_versions_page(&Vec::new()), "<div></div>");
}

#[test]
fn settings_pages() {
    assert!(setting_page().starts_with("<div class=\"content\"><h1>Settings</h1>"));
    assert!(setting_page().contains("<tbody id=\"blender-table\" tauri-invoke=\"list_blender_installed\" hx-trigger=\"load\" hx-target=\"this\"></tbody>"));
    let view = get_settings_page("/b", "/r&d");
    assert_eq!(
        view,
        "<div tauri-invoke=\"open_path\" hx-target=\"this\" hx-swap=\"outerHTML\"><h3>Blender File Cache Path:</h3><button tauri-invoke=\"open_dir\" hx-vals=\"{&quot;path&quot;:&quot;/b&quot;}\">\u{1F4C1}</button><label word-wrap=\"break-word\" hx-info=\"{&quot;path&quot;:&quot;/b&quot;}\">/b</label><h3>Render cache directory:</h3><button tauri-invoke=\"open_dir\" hx-vals=\"{&quot;path&quot;:&quot;/r&amp;d&quot;}\">\u{1F4C1}</button><label word-wrap=\"break-word\" hx-info=\"{&quot;path&quot;:&quot;/r&amp;d&quot;}\">/r&amp;d</label><br><button tauri-invoke=\"edit_settings\">Edit</button></div>"
    );
    let form = edit_settings_page("/b", "/r");
    assert!(form.contains("name=\"cachePath\" class=\"form-input\" readonly=\"true\" tauri-invoke=\"select_directory\" hx-trigger=\"click\" hx-target=\"this\" value=\"/b\">"));
    assert!(form.ends_with("<button tauri-invoke=\"get_settings\">Cancel</button></form>"));
}

#[test]
fn blender_rows() {
    let list = vec![BlenderQuery { version: Version::new(4, 2, 0), origin: Origin::Local("/opt/b".to_string()) }];
    assert_eq!(
        blender_table(&list),
        "<tr><td><label title=\"/opt/b\">4.2.0</label></td><td><button tauri-invoke=\"open_dir\" hx-vals=\"{&quot;path&quot;:&quot;/opt/b&quot;}\">\u{1F4C1}</button><button tauri-invoke=\"delete_blender\" hx-vals=\"{&quot;path&quot;:&quot;/opt/b&quot;}\">\u{1F5D1}\u{FE0E}</button></td></tr>"
    );
}

fn worker(gpu: Option<&str>) -> Worker {
    Worker {
        machine_id: "12D3KooW".to_string(),
        spec: ComputerSpec {
            host: "node".to_string(),
            os: "linux".to_string(),
            arch: "x86_64".to_string(),
            cpu: "Ryzen".to_string(),
            cores: 16,
            memory: 34359738368 + 5,
            gpu: gpu.map(|g| g.to_string()),
        },
    }
}

#[test]
fn worker_pages() {
    assert_eq!(list_workers_page(&None), "<div></div>");
    assert_eq!(list_workers_page(&Some(Vec::new())), "<div></div>");
    assert_eq!(
        list_workers_page(&Some(vec![worker(None)])),
        "<div><table tauri-invoke=\"get_worker\" hx-vals=\"{&quot;machineId&quot;:&quot;12D3KooW&quot;}\" hx-target=\"#workplace\"><tbody><tr><td style=\"width:100%\"><div>node</div><div>linux | x86_64</div></td></tr></tbody></table></div>"
    );
    let page = worker_page(&worker(Some("RTX")));
    assert!(page.starts_with("<div class=\"content\"><h1>Computer: node</h1>"));
    assert!(page.contains("<td><p>Ryzen</p><span>(16 cores)</span></td><td>32GB</td><td><label>RTX</label></td>"));
    assert!(worker_page(&worker(None)).contains("<label>N/A</label>"));
}

#[test]
fn page_compositions() {
    assert_eq!(created_job_page("D", "L"), "<div hx-target=\"#workplace\">D</div><div id=\"joblist\" hx-swap-oob=\"true\">L</div>");
    assert_eq!(deleted_job_page("L"), "<div class=\"group\" id=\"joblist\" hx-swap-oob=\"true\">L</div>");
    assert_eq!(output_field("/o\"x"), "<input type=\"text\" class=\"form-input\" placeholder=\"Output Path\" name=\"output\" value=\"/o&quot;x\" readonly=\"true\">");
    let index = index_page("L", "D");
    assert!(index.contains("<div class=\"group\" id=\"joblist\">L</div>"));
    assert!(index.ends_with("<main id=\"workplace\">D</main>"));
}

#[test]
fn job_form() {
    let form = import_blend_form("/p.blend", "/out", &Version::new(4, 2, 0), 1, 250, &vec![Version::new(4, 2, 0)]);
    assert!(form.contains("<select name=\"version\" value=\"4.2.0\" style=\"width:100%; height:100%;\"><option value=\"4.2.0\">4.2.0</option></select>"));
    assert!(form.contains("name=\"start\" type=\"number\" value=\"1\">"));
    assert!(form.contains("name=\"end\" type=\"number\" value=\"250\">"));
    assert!(form.contains("<input name=\"path\" type=\"hidden\" value=\"/p.blend\">"));
}

#[test]
fn missing_and_found_workers() {
    assert_eq!(get_worker(None), Err(()));
    let w = worker(None);
    let page = worker_page(&w);
    assert_eq!(get_worker(Some(worker(None))), Ok(page));
}

#[test]
fn png_images_are_listed_in_order() {
    let entries = vec![
        "/r/0010.png".to_string(),
        "/r/notes.txt".to_string(),
        "/r/0002.png".to_string(),
        "/r/.png".to_string(),
        "/r/0001.PNG".to_string(),
        "/r/0003.png".to_string(),
    ];
    assert_eq!(png_images(entries), vec!["/r/0002.png".to_string(), "/r/0003.png".to_string(), "/r/0010.png".to_string()]);
    let entries = vec![
        "/r/scène (2).png".to_string(),
        "/r/a..png".to_string(),
        "/r/..png".to_string(),
        "/r/dir.png/".to_string(),
        "/r/x.png/..".to_string(),
        "/r/b.png.bak".to_string(),
    ];
    assert_eq!(
        png_images(entries),
        vec!["/r/..png".to_string(), "/r/a..png".to_string(), "/r/dir.png/".to_string(), "/r/scène (2).png".to_string()]
    );
    assert_eq!(
        sort_texts(vec!["b".to_string(), "ab".to_string(), "a".to_string(), "b".to_string()]),
        vec!["a".to_string(), "ab".to_string(), "b".to_string(), "b".to_string()]
    );
}
