//! The HTML fragments that the desktop front end swaps into its page. Text
//! spliced into them is escaped as the template engine escapes it; attribute
//! payloads are JSON objects.

use vstd::prelude::*;
use vstd::string::*;

use crate::external::{
    decimal_text, html_escape, html_text, i32_text, json_quote, json_string, signed_decimal_text,
    u64_text, url_encode, url_encode_bytes, uuid_text, uuid_to_string,
};
use crate::events::Worker;
use crate::host::{BlenderQuery, Origin};
use crate::models::{Frame, JobId, Version};

verus! {

/// The id of the element that holds the main view.
pub const WORKPLACE: &'static str = "workplace";

/// The concatenation of the parts, in order.
pub open spec fn concat_all(parts: Seq<Seq<char>>) -> Seq<char>
    decreases parts.len(),
{
    if parts.len() == 0 {
        Seq::empty()
    } else {
        concat_all(parts.drop_last()) + parts.last()
    }
}

/// The one-entry JSON object `{"key":"value"}` that an element hands to the
/// command it invokes.
pub open spec fn hx_vals(key: Seq<char>, value: Seq<char>) -> Seq<char> {
    seq!['{'] + json_string(key) + seq![':'] + json_string(value) + seq!['}']
}

pub fn hx_vals_text(key: &str, value: &str) -> (t: String)
    ensures
        t@ == hx_vals(key@, value@),
{
    let mut t = String::from_str("{");
    t.append(json_quote(key).as_str());
    t.append(":");
    t.append(json_quote(value).as_str());
    t.append("}");
    proof {
        reveal_strlit("{");
        reveal_strlit(":");
        reveal_strlit("}");
        assert(t@ =~= hx_vals(key@, value@));
    }
    t
}

/// Appends text escaped for HTML.
fn push_escaped(out: &mut String, s: &str)
    ensures
        final(out)@ == old(out)@ + html_escape(s@),
{
    let e = html_text(s);
    out.append(e.as_str());
}

/// The text form of a version: `major.minor.patch`, then `-pre` and `+build`
/// when those are not empty.
pub open spec fn version_text(v: Version) -> Seq<char> {
    decimal_text(v.major as nat) + seq!['.'] + decimal_text(v.minor as nat) + seq!['.']
        + decimal_text(v.patch as nat) + (if v.pre@.len() > 0 {
        seq!['-'] + v.pre@
    } else {
        Seq::empty()
    }) + (if v.build@.len() > 0 {
        seq!['+'] + v.build@
    } else {
        Seq::empty()
    })
}

impl Version {
    pub fn to_text(&self) -> (t: String)
        ensures
            t@ == version_text(*self),
    {
        proof {
            reveal_strlit(".");
            reveal_strlit("-");
            reveal_strlit("+");
        }
        let mut t = u64_text(self.major);
        t.append(".");
        t.append(u64_text(self.minor).as_str());
        t.append(".");
        t.append(u64_text(self.patch).as_str());
        let ghost before_pre = t@;
        if !self.pre.as_str().is_empty() {
            t.append("-");
            t.append(self.pre.as_str());
        } else {
            assert(t@ =~= before_pre + Seq::<char>::empty());
        }
        let ghost before_build = t@;
        if !self.build.as_str().is_empty() {
            t.append("+");
            t.append(self.build.as_str());
        } else {
            assert(t@ =~= before_build + Seq::<char>::empty());
        }
        proof {
            reveal_strlit(".");
            reveal_strlit("-");
            reveal_strlit("+");
            assert(t@ =~= version_text(*self));
        }
        t
    }
}

/// Where the webview finds a local file: the platform's asset address
/// (`http://asset.localhost/` on Windows and Android, `asset://localhost/`
/// elsewhere) followed by the file's absolute path, percent-encoded.
pub open spec fn asset_url(canonical_path: Seq<char>, windows_like: bool) -> Seq<char> {
    (if windows_like {
        "http://asset.localhost/"@
    } else {
        "asset://localhost/"@
    }) + url_encode_bytes(vstd::utf8::encode_utf8(canonical_path))
}

/// The address under which the webview shows the file at `canonical_path`
/// (an absolute path, already resolved).
pub fn convert_file_src(canonical_path: &str, windows_like: bool) -> (u: String)
    ensures
        u@ == asset_url(canonical_path@, windows_like),
{
    let base = if windows_like {
        String::from_str("http://asset.localhost/")
    } else {
        String::from_str("asset://localhost/")
    };
    let encoded = url_encode(canonical_path);
    base.concat(encoded.as_str())
}

/// A job as the job list shows it: its id and its project's file name.
#[derive(Debug)]
pub struct JobEntry {
    pub id: JobId,
    pub file_name: String,
}

/// One job of the job list: a row that opens the job's details.
pub open spec fn job_row(e: JobEntry) -> Seq<char> {
    "<div><table><tbody><tr tauri-invoke=\"get_job_detail\" hx-vals=\""@ + html_escape(
        hx_vals("jobId"@, uuid_text(e.id)),
    ) + "\" hx-target=\"#workplace\"><td style=\"width:100%\">"@ + html_escape(e.file_name@)
        + "</td></tr></tbody></table></div>"@
}

/// The job list: a row for each job, or a notice when there are none.
pub open spec fn job_list_html(collection: Option<Seq<JobEntry>>) -> Seq<char> {
    match collection {
        Some(list) => concat_all(list.map_values(|e: JobEntry| job_row(e))),
        None => "<div>No job found!</div>"@,
    }
}

fn job_row_text(e: &JobEntry) -> (t: String)
    ensures
        t@ == job_row(*e),
{
    let mut t = String::from_str(
        "<div><table><tbody><tr tauri-invoke=\"get_job_detail\" hx-vals=\"",
    );
    let id = uuid_to_string(e.id);
    push_escaped(&mut t, hx_vals_text("jobId", id.as_str()).as_str());
    t.append("\" hx-target=\"#");
    t.append(WORKPLACE);
    t.append("\"><td style=\"width:100%\">");
    push_escaped(&mut t, e.file_name.as_str());
    t.append("</td></tr></tbody></table></div>");
    proof {
        reveal_strlit("\" hx-target=\"#");
        reveal_strlit("workplace");
        reveal_strlit("\"><td style=\"width:100%\">");
        reveal_strlit("\" hx-target=\"#workplace\"><td style=\"width:100%\">");
        assert(t@ =~= job_row(*e));
    }
    t
}

/// Renders the job list shown beside the main view.
pub fn render_list_job(collection: &Option<Vec<JobEntry>>) -> (html: String)
    ensures
        html@ == job_list_html(
            match collection {
                Some(v) => Some(v@),
                None => None,
            },
        ),
{
    match collection {
        Some(list) => {
            let mut out = String::new();
            let mut i: usize = 0;
            while i < list.len()
                invariant
                    0 <= i <= list.len(),
                    out@ == concat_all(list@.take(i as int).map_values(|e: JobEntry| job_row(e))),
                decreases list.len() - i,
            {
                let row = job_row_text(&list[i]);
                out.append(row.as_str());
                proof {
                    assert(list@.take(i + 1).map_values(|e: JobEntry| job_row(e)).drop_last()
                        =~= list@.take(i as int).map_values(|e: JobEntry| job_row(e)));
                }
                i = i + 1;
            }
            proof {
                assert(list@.take(list.len() as int) =~= list@);
            }
            out
        },
        None => String::from_str("<div>No job found!</div>"),
    }
}

} // verus!

verus! {

/// What the job page shows of a job: its id, its project file (path and file
/// name), its output directory, its Blender version, its frame range, and the
/// absolute paths of the images found in its output directory (`None` when the
/// directory could not be read).
#[derive(Debug)]
pub struct JobDetail {
    pub id: JobId,
    pub project_file: String,
    pub project_file_name: String,
    pub output: String,
    pub version: Version,
    pub start: Frame,
    pub end: Frame,
    pub images: Option<Vec<String>>,
}

/// A rendered image of the job page.
pub open spec fn image_row(path: Seq<char>, windows_like: bool) -> Seq<char> {
    "<tr><td><img width=\"120px\" src=\""@ + html_escape(asset_url(path, windows_like))
        + "\"></td></tr>"@
}

/// The images part of the job page.
pub open spec fn images_html(images: Option<Seq<String>>, windows_like: bool) -> Seq<char> {
    match images {
        Some(list) => concat_all(list.map_values(|p: String| image_row(p@, windows_like))),
        None => "<div>No image found in output directory...</div>"@,
    }
}

/// The job page: the job's project, output, version and frames, a button that
/// deletes it, and its rendered images; a notice when there is no such job.
pub open spec fn job_detail_html(job: Option<JobDetail>, windows_like: bool) -> Seq<char> {
    match job {
        Some(j) => "<div class=\"content\"><h2>Job Detail: "@ + html_escape(j.project_file_name@)
            + "</h2><div><button tauri-invoke=\"open_dir\" hx-vals=\""@ + html_escape(
            hx_vals("path"@, j.project_file@),
        ) + "\">File path:</button>"@ + html_escape(j.project_file@)
            + "</div><div><button tauri-invoke=\"open_dir\" hx-vals=\""@ + html_escape(
            hx_vals("path"@, j.output@),
        ) + "\">Output:</button>"@ + html_escape(j.output@)
            + "</div><div>Target Blender Version: "@ + html_escape(version_text(j.version))
            + "</div><div>Start: "@ + signed_decimal_text(j.start as int) + " | End: "@
            + signed_decimal_text(j.end as int)
            + "</div><button tauri-invoke=\"delete_job\" hx-vals=\""@ + html_escape(
            hx_vals("jobId"@, uuid_text(j.id)),
        ) + "\" hx-target=\"#workplace\">Delete Job</button><p>"@ + images_html(
            match j.images {
                Some(v) => Some(v@),
                None => None,
            },
            windows_like,
        ) + "</div>"@,
        None => "<div><p>Job do not exist.. How did you get here?</p></div>"@,
    }
}

fn images_text(images: &Option<Vec<String>>, windows_like: bool) -> (t: String)
    ensures
        t@ == images_html(
            match images {
                Some(v) => Some(v@),
                None => None,
            },
            windows_like,
        ),
{
    match images {
        Some(list) => {
            let mut out = String::new();
            let mut i: usize = 0;
            while i < list.len()
                invariant
                    0 <= i <= list.len(),
                    out@ == concat_all(
                        list@.take(i as int).map_values(|p: String| image_row(p@, windows_like)),
                    ),
                decreases list.len() - i,
            {
                let ghost before = out@;
                out.append("<tr><td><img width=\"120px\" src=\"");
                let url = convert_file_src(list[i].as_str(), windows_like);
                push_escaped(&mut out, url.as_str());
                out.append("\"></td></tr>");
                proof {
                    assert(out@ =~= before + image_row(list@[i as int]@, windows_like));
                    assert(list@.take(i + 1).map_values(|p: String| image_row(p@, windows_like)).drop_last()
                        =~= list@.take(i as int).map_values(|p: String| image_row(p@, windows_like)));
                }
                i = i + 1;
            }
            proof {
                assert(list@.take(list.len() as int) =~= list@);
            }
            out
        },
        None => String::from_str("<div>No image found in output directory...</div>"),
    }
}

/// Renders the page of a job.
pub fn render_job_detail_page(job: &Option<JobDetail>, windows_like: bool) -> (html: String)
    ensures
        html@ == job_detail_html(*job, windows_like),
{
    match job {
        Some(j) => {
            let mut t = String::from_str("<div class=\"content\"><h2>Job Detail: ");
            push_escaped(&mut t, j.project_file_name.as_str());
            t.append("</h2><div><button tauri-invoke=\"open_dir\" hx-vals=\"");
            push_escaped(&mut t, hx_vals_text("path", j.project_file.as_str()).as_str());
            t.append("\">File path:</button>");
            push_escaped(&mut t, j.project_file.as_str());
            t.append("</div><div><button tauri-invoke=\"open_dir\" hx-vals=\"");
            push_escaped(&mut t, hx_vals_text("path", j.output.as_str()).as_str());
            t.append("\">Output:</button>");
            push_escaped(&mut t, j.output.as_str());
            t.append("</div><div>Target Blender Version: ");
            push_escaped(&mut t, j.version.to_text().as_str());
            t.append("</div><div>Start: ");
            t.append(i32_text(j.start).as_str());
            t.append(" | End: ");
            t.append(i32_text(j.end).as_str());
            t.append("</div><button tauri-invoke=\"delete_job\" hx-vals=\"");
            let id = uuid_to_string(j.id);
            push_escaped(&mut t, hx_vals_text("jobId", id.as_str()).as_str());
            t.append("\" hx-target=\"#workplace\">Delete Job</button><p>");
            t.append(images_text(&j.images, windows_like).as_str());
            t.append("</div>");
            proof {
                assert(t@ =~= job_detail_html(*job, windows_like));
            }
            t
        },
        None => String::from_str("<div><p>Job do not exist.. How did you get here?</p></div>"),
    }
}

} // verus!

verus! {

/// The folder icon of the settings pages.
pub const FOLDER_ICON: &'static str = "\u{1F4C1}";

/// The waste-basket icon (text presentation) of the Blender table.
pub const BIN_ICON: &'static str = "\u{1F5D1}\u{FE0E}";

/// The settings page: the settings, loaded into the `settings` element, and
/// the Blender installations, loaded into the `blender-table` element.
pub open spec fn setting_page_html() -> Seq<char> {
    "<div class=\"content\"><h1>Settings</h1><p>Here we list out all possible configuration this tool can offer to user.\n                    Exposing rich and deep components to customize your workflow</p><div class=\"group\" id=\"settings\" tauri-invoke=\"get_settings\" hx-trigger=\"load\" hx-target=\"this\"></div><h3>Blender Installation</h3><button tauri-invoke=\"add_blender_installation\">Add from Local Storage</button><button tauri-invoke=\"install_from_internet\">Install version</button><div class=\"group\"><table><thead><th>Version</th><th>Executable Path</th></thead><tbody id=\"blender-table\" tauri-invoke=\"list_blender_installed\" hx-trigger=\"load\" hx-target=\"this\"></tbody></table></div></div>"@
}

pub fn setting_page() -> (html: String)
    ensures
        html@ == setting_page_html(),
{
    String::from_str(
        "<div class=\"content\"><h1>Settings</h1><p>Here we list out all possible configuration this tool can offer to user.\n                    Exposing rich and deep components to customize your workflow</p><div class=\"group\" id=\"settings\" tauri-invoke=\"get_settings\" hx-trigger=\"load\" hx-target=\"this\"></div><h3>Blender Installation</h3><button tauri-invoke=\"add_blender_installation\">Add from Local Storage</button><button tauri-invoke=\"install_from_internet\">Install version</button><div class=\"group\"><table><thead><th>Version</th><th>Executable Path</th></thead><tbody id=\"blender-table\" tauri-invoke=\"list_blender_installed\" hx-trigger=\"load\" hx-target=\"this\"></tbody></table></div></div>",
    )
}

/// A directory of the settings view: a button that opens it and its path.
pub open spec fn settings_dir_html(path: Seq<char>) -> Seq<char> {
    "<button tauri-invoke=\"open_dir\" hx-vals=\""@ + html_escape(hx_vals("path"@, path)) + "\">"@
        + FOLDER_ICON@ + "</button><label word-wrap=\"break-word\" hx-info=\""@ + html_escape(
        hx_vals("path"@, path),
    ) + "\">"@ + html_escape(path) + "</label>"@
}

/// The settings view: the project cache and render directories, and an edit
/// button.
pub open spec fn settings_view_html(blend_dir: Seq<char>, render_dir: Seq<char>) -> Seq<char> {
    "<div tauri-invoke=\"open_path\" hx-target=\"this\" hx-swap=\"outerHTML\"><h3>Blender File Cache Path:</h3>"@
        + settings_dir_html(blend_dir) + "<h3>Render cache directory:</h3>"@ + settings_dir_html(
        render_dir,
    ) + "<br><button tauri-invoke=\"edit_settings\">Edit</button></div>"@
}

fn settings_dir_text(path: &str) -> (t: String)
    ensures
        t@ == settings_dir_html(path@),
{
    let vals = hx_vals_text("path", path);
    let mut t = String::from_str("<button tauri-invoke=\"open_dir\" hx-vals=\"");
    push_escaped(&mut t, vals.as_str());
    t.append("\">");
    t.append(FOLDER_ICON);
    t.append("</button><label word-wrap=\"break-word\" hx-info=\"");
    push_escaped(&mut t, vals.as_str());
    t.append("\">");
    push_escaped(&mut t, path);
    t.append("</label>");
    proof {
        assert(t@ =~= settings_dir_html(path@));
    }
    t
}

/// Renders the settings view.
pub fn get_settings_page(blend_dir: &str, render_dir: &str) -> (html: String)
    ensures
        html@ == settings_view_html(blend_dir@, render_dir@),
{
    let mut t = String::from_str(
        "<div tauri-invoke=\"open_path\" hx-target=\"this\" hx-swap=\"outerHTML\"><h3>Blender File Cache Path:</h3>",
    );
    t.append(settings_dir_text(blend_dir).as_str());
    t.append("<h3>Render cache directory:</h3>");
    t.append(settings_dir_text(render_dir).as_str());
    t.append("<br><button tauri-invoke=\"edit_settings\">Edit</button></div>");
    proof {
        assert(t@ =~= settings_view_html(blend_dir@, render_dir@));
    }
    t
}

/// The settings form: the two directories, each picked with a directory
/// dialog, and save and cancel buttons.
pub open spec fn settings_form_html(blend_dir: Seq<char>, render_dir: Seq<char>) -> Seq<char> {
    "<form tauri-invoke=\"update_settings\" hx-target=\"this\" hx-swap=\"outerHTML\"><h3>Blender File Cache Path:</h3><input name=\"cachePath\" class=\"form-input\" readonly=\"true\" tauri-invoke=\"select_directory\" hx-trigger=\"click\" hx-target=\"this\" value=\""@
        + html_escape(blend_dir)
        + "\"><h3>Render cache directory:</h3><input name=\"renderPath\" class=\"form-input\" readonly=\"true\" tauri-invoke=\"select_directory\" hx-trigger=\"click\" hx-target=\"this\" value=\""@
        + html_escape(render_dir)
        + "\"><br><button tauri-invoke=\"update_settings\">Save</button><button tauri-invoke=\"get_settings\">Cancel</button></form>"@
}

/// Renders the settings form.
pub fn edit_settings_page(blend_dir: &str, render_dir: &str) -> (html: String)
    ensures
        html@ == settings_form_html(blend_dir@, render_dir@),
{
    let mut t = String::from_str(
        "<form tauri-invoke=\"update_settings\" hx-target=\"this\" hx-swap=\"outerHTML\"><h3>Blender File Cache Path:</h3><input name=\"cachePath\" class=\"form-input\" readonly=\"true\" tauri-invoke=\"select_directory\" hx-trigger=\"click\" hx-target=\"this\" value=\"",
    );
    push_escaped(&mut t, blend_dir);
    t.append(
        "\"><h3>Render cache directory:</h3><input name=\"renderPath\" class=\"form-input\" readonly=\"true\" tauri-invoke=\"select_directory\" hx-trigger=\"click\" hx-target=\"this\" value=\"",
    );
    push_escaped(&mut t, render_dir);
    t.append(
        "\"><br><button tauri-invoke=\"update_settings\">Save</button><button tauri-invoke=\"get_settings\">Cancel</button></form>",
    );
    proof {
        assert(t@ =~= settings_form_html(blend_dir@, render_dir@));
    }
    t
}

/// The list of Blender versions that can be used.
pub open spec fn versions_html(versions: Seq<Version>) -> Seq<char> {
    "<div>"@ + concat_all(
        versions.map_values(|v: Version| "<li>"@ + html_escape(version_text(v)) + "</li>"@),
    ) + "</div>"@
}

/// Renders the list of Blender versions that can be used.
pub fn available_versions_page(versions: &Vec<Version>) -> (html: String)
    ensures
        html@ == versions_html(versions@),
{
    let mut out = String::new();
    let mut i: usize = 0;
    while i < versions.len()
        invariant
            0 <= i <= versions.len(),
            out@ == concat_all(
                versions@.take(i as int).map_values(
                    |v: Version| "<li>"@ + html_escape(version_text(v)) + "</li>"@,
                ),
            ),
        decreases versions.len() - i,
    {
        let ghost before = out@;
        out.append("<li>");
        push_escaped(&mut out, versions[i].to_text().as_str());
        out.append("</li>");
        proof {
            assert(versions@.take(i + 1).map_values(
                |v: Version| "<li>"@ + html_escape(version_text(v)) + "</li>"@,
            ).drop_last() =~= versions@.take(i as int).map_values(
                |v: Version| "<li>"@ + html_escape(version_text(v)) + "</li>"@,
            ));
            assert(out@ =~= before + ("<li>"@ + html_escape(version_text(versions@[i as int]))
                + "</li>"@));
        }
        i = i + 1;
    }
    proof {
        assert(versions@.take(versions.len() as int) =~= versions@);
    }
    let mut t = String::from_str("<div>");
    t.append(out.as_str());
    t.append("</div>");
    t
}

/// A row of the Blender table: the version (titled with its link), a button
/// that opens the link and one that deletes the installation.
pub open spec fn blender_row(version: Seq<char>, link: Seq<char>) -> Seq<char> {
    "<tr><td><label title=\""@ + html_escape(link) + "\">"@ + html_escape(version)
        + "</label></td><td><button tauri-invoke=\"open_dir\" hx-vals=\""@ + html_escape(
        hx_vals("path"@, link),
    ) + "\">"@ + FOLDER_ICON@ + "</button><button tauri-invoke=\"delete_blender\" hx-vals=\""@
        + html_escape(hx_vals("path"@, link)) + "\">"@ + BIN_ICON@ + "</button></td></tr>"@
}

/// Renders one row of the Blender table from a version's text and its link.
pub fn blender_row_text(version: &str, link: &str) -> (t: String)
    ensures
        t@ == blender_row(version@, link@),
{
    let vals = hx_vals_text("path", link);
    let mut t = String::from_str("<tr><td><label title=\"");
    push_escaped(&mut t, link);
    t.append("\">");
    push_escaped(&mut t, version);
    t.append("</label></td><td><button tauri-invoke=\"open_dir\" hx-vals=\"");
    push_escaped(&mut t, vals.as_str());
    t.append("\">");
    t.append(FOLDER_ICON);
    t.append("</button><button tauri-invoke=\"delete_blender\" hx-vals=\"");
    push_escaped(&mut t, vals.as_str());
    t.append("\">");
    t.append(BIN_ICON);
    t.append("</button></td></tr>");
    proof {
        assert(t@ =~= blender_row(version@, link@));
    }
    t
}

/// The response to creating a job: the new job's page for the main view, and
/// the refreshed job list swapped in out of band.
pub open spec fn created_job_html(detail: Seq<char>, list: Seq<char>) -> Seq<char> {
    "<div hx-target=\"#workplace\">"@ + detail + "</div><div id=\"joblist\" hx-swap-oob=\"true\">"@
        + list + "</div>"@
}

pub fn created_job_page(detail: &str, list: &str) -> (html: String)
    ensures
        html@ == created_job_html(detail@, list@),
{
    let mut t = String::from_str("<div hx-target=\"#workplace\">");
    t.append(detail);
    t.append("</div><div id=\"joblist\" hx-swap-oob=\"true\">");
    t.append(list);
    t.append("</div>");
    t
}

/// The response to deleting a job: the refreshed job list, swapped in out of
/// band.
pub open spec fn deleted_job_html(list: Seq<char>) -> Seq<char> {
    "<div class=\"group\" id=\"joblist\" hx-swap-oob=\"true\">"@ + list + "</div>"@
}

pub fn deleted_job_page(list: &str) -> (html: String)
    ensures
        html@ == deleted_job_html(list@),
{
    let mut t = String::from_str("<div class=\"group\" id=\"joblist\" hx-swap-oob=\"true\">");
    t.append(list);
    t.append("</div>");
    t
}

/// The output field of the job form, filled with the chosen directory.
pub open spec fn output_field_html(path: Seq<char>) -> Seq<char> {
    "<input type=\"text\" class=\"form-input\" placeholder=\"Output Path\" name=\"output\" value=\""@
        + html_escape(path) + "\" readonly=\"true\">"@
}

pub fn output_field(path: &str) -> (html: String)
    ensures
        html@ == output_field_html(path@),
{
    let mut t = String::from_str(
        "<input type=\"text\" class=\"form-input\" placeholder=\"Output Path\" name=\"output\" value=\"",
    );
    push_escaped(&mut t, path);
    t.append("\" readonly=\"true\">");
    t
}

} // verus!

verus! {

/// The link of a listed Blender: its executable's path or its download address.
pub open spec fn query_link(q: BlenderQuery) -> Seq<char> {
    match q.origin {
        Origin::Local(p) => p@,
        Origin::Online(u) => u@,
    }
}

/// The table of Blender installations.
pub open spec fn blender_table_html(list: Seq<BlenderQuery>) -> Seq<char> {
    concat_all(list.map_values(|q: BlenderQuery| blender_row(version_text(q.version), query_link(q))))
}

/// Renders the table of Blender installations.
pub fn blender_table(list: &Vec<BlenderQuery>) -> (html: String)
    ensures
        html@ == blender_table_html(list@),
{
    let mut out = String::new();
    let mut i: usize = 0;
    while i < list.len()
        invariant
            0 <= i <= list.len(),
            out@ == concat_all(
                list@.take(i as int).map_values(
                    |q: BlenderQuery| blender_row(version_text(q.version), query_link(q)),
                ),
            ),
        decreases list.len() - i,
    {
        let q = &list[i];
        let row = blender_row_text(q.version.to_text().as_str(), q.link().as_str());
        out.append(row.as_str());
        proof {
            assert(list@.take(i + 1).map_values(
                |q: BlenderQuery| blender_row(version_text(q.version), query_link(q)),
            ).drop_last() =~= list@.take(i as int).map_values(
                |q: BlenderQuery| blender_row(version_text(q.version), query_link(q)),
            ));
        }
        i = i + 1;
    }
    proof {
        assert(list@.take(list.len() as int) =~= list@);
    }
    out
}

/// One node of the node list: its host name, system and architecture, as a
/// table that opens the node's page.
pub open spec fn worker_row(w: Worker) -> Seq<char> {
    "<div><table tauri-invoke=\"get_worker\" hx-vals=\""@ + html_escape(
        hx_vals("machineId"@, w.machine_id@),
    ) + "\" hx-target=\"#workplace\"><tbody><tr><td style=\"width:100%\"><div>"@ + html_escape(
        w.spec.host@,
    ) + "</div><div>"@ + html_escape(w.spec.os@) + " | "@ + html_escape(w.spec.arch@)
        + "</div></td></tr></tbody></table></div>"@
}

/// The node list: a row per node; an empty block when there are none or the
/// store could not be read (`None`).
pub open spec fn worker_list_html(workers: Option<Seq<Worker>>) -> Seq<char> {
    match workers {
        Some(list) => if list.len() == 0 {
            "<div></div>"@
        } else {
            concat_all(list.map_values(|w: Worker| worker_row(w)))
        },
        None => "<div></div>"@,
    }
}

fn worker_row_text(w: &Worker) -> (t: String)
    ensures
        t@ == worker_row(*w),
{
    let mut t = String::from_str("<div><table tauri-invoke=\"get_worker\" hx-vals=\"");
    push_escaped(&mut t, hx_vals_text("machineId", w.machine_id.as_str()).as_str());
    t.append("\" hx-target=\"#workplace\"><tbody><tr><td style=\"width:100%\"><div>");
    push_escaped(&mut t, w.spec.host.as_str());
    t.append("</div><div>");
    push_escaped(&mut t, w.spec.os.as_str());
    t.append(" | ");
    push_escaped(&mut t, w.spec.arch.as_str());
    t.append("</div></td></tr></tbody></table></div>");
    proof {
        assert(t@ =~= worker_row(*w));
    }
    t
}

/// Renders the node list.
pub fn list_workers_page(workers: &Option<Vec<Worker>>) -> (html: String)
    ensures
        html@ == worker_list_html(
            match workers {
                Some(v) => Some(v@),
                None => None,
            },
        ),
{
    match workers {
        Some(list) => {
            if list.len() == 0 {
                return String::from_str("<div></div>");
            }
            let mut out = String::new();
            let mut i: usize = 0;
            while i < list.len()
                invariant
                    0 <= i <= list.len(),
                    out@ == concat_all(list@.take(i as int).map_values(|w: Worker| worker_row(w))),
                decreases list.len() - i,
            {
                out.append(worker_row_text(&list[i]).as_str());
                proof {
                    assert(list@.take(i + 1).map_values(|w: Worker| worker_row(w)).drop_last()
                        =~= list@.take(i as int).map_values(|w: Worker| worker_row(w)));
                }
                i = i + 1;
            }
            proof {
                assert(list@.take(list.len() as int) =~= list@);
            }
            out
        },
        None => String::from_str("<div></div>"),
    }
}

/// The page of a node: its machine (system, processor and core count, memory
/// in whole GiB, graphics card or `N/A`) and an empty task list.
pub open spec fn worker_page_html(w: Worker) -> Seq<char> {
    "<div class=\"content\"><h1>"@ + html_escape("Computer: "@ + w.spec.host@)
        + "</h1><h3>Hardware Info:</h3><table><tr><th>System</th><th>CPU</th><th>Memory</th><th>GPU</th></tr><tr><td><p>"@
        + html_escape(w.spec.os@) + "</p><span>"@ + html_escape(w.spec.arch@) + "</span></td><td><p>"@
        + html_escape(w.spec.cpu@) + "</p><span>"@ + html_escape(
        "("@ + decimal_text(w.spec.cores as nat) + " cores)"@,
    ) + "</span></td><td>"@ + html_escape(
        decimal_text((w.spec.memory / 1073741824u64) as nat) + "GB"@,
    ) + "</td><td>"@ + match w.spec.gpu {
        Some(g) => "<label>"@ + html_escape(g@) + "</label>"@,
        None => "<label>N/A</label>"@,
    }
        + "</td></tr></table><h3>Task List</h3><table><tr><th>Project Name</th><th>Progresss</th></tr></table></div>"@
}

/// Renders the page of a node.
pub fn worker_page(w: &Worker) -> (html: String)
    ensures
        html@ == worker_page_html(*w),
{
    let mut t = String::from_str("<div class=\"content\"><h1>");
    push_escaped(&mut t, String::from_str("Computer: ").concat(w.spec.host.as_str()).as_str());
    t.append(
        "</h1><h3>Hardware Info:</h3><table><tr><th>System</th><th>CPU</th><th>Memory</th><th>GPU</th></tr><tr><td><p>",
    );
    push_escaped(&mut t, w.spec.os.as_str());
    t.append("</p><span>");
    push_escaped(&mut t, w.spec.arch.as_str());
    t.append("</span></td><td><p>");
    push_escaped(&mut t, w.spec.cpu.as_str());
    t.append("</p><span>");
    let cores = String::from_str("(").concat(u64_text(w.spec.cores).as_str()).concat(" cores)");
    push_escaped(&mut t, cores.as_str());
    t.append("</span></td><td>");
    let gib: u64 = w.spec.memory / (1024 * 1024 * 1024);
    let memory = u64_text(gib).concat("GB");
    push_escaped(&mut t, memory.as_str());
    t.append("</td><td>");
    let ghost before_gpu = t@;
    match &w.spec.gpu {
        Some(g) => {
            t.append("<label>");
            push_escaped(&mut t, g.as_str());
            t.append("</label>");
        },
        None => {
            t.append("<label>N/A</label>");
        },
    }
    t.append(
        "</td></tr></table><h3>Task List</h3><table><tr><th>Project Name</th><th>Progresss</th></tr></table></div>",
    );
    proof {
        assert(t@ =~= worker_page_html(*w));
    }
    t
}

/// The answer to a request for a node's page, given what the worker store
/// found under its machine id: the node's page, or `Err(())` when the store
/// knows no such node.
pub fn get_worker(found: Option<Worker>) -> (r: Result<String, ()>)
    ensures
        match found {
            Some(w) => r matches Ok(html) && html@ == worker_page_html(w),
            None => r == Err::<String, ()>(()),
        },
{
    match found {
        Some(w) => Ok(worker_page(&w)),
        None => Err(()),
    }
}

/// The whole front page: the navigation and job list in the side bar, and the
/// given job page in the main view.
pub open spec fn index_html(list: Seq<char>, detail: Seq<char>) -> Seq<char> {
    "<div><div class=\"sidebar\"><nav><ul class=\"nav-menu-items\"><li key=\"setting\" class=\"nav-bar\" tauri-invoke=\"setting_page\" hx-target=\"#workplace\"><span>Setting</span></li></ul></nav><div><h3>Jobs</h3><button tauri-invoke=\"open_dialog_for_blend_file\" hx-target=\"body\" hx-swap=\"beforeend\">Import</button><div class=\"group\" id=\"joblist\">"@
        + list + "</div></div></div></div><main id=\"workplace\">"@ + detail + "</main>"@
}

/// Renders the front page from the rendered job list and job page.
pub fn index_page(list: &str, detail: &str) -> (html: String)
    ensures
        html@ == index_html(list@, detail@),
{
    let mut t = String::from_str(
        "<div><div class=\"sidebar\"><nav><ul class=\"nav-menu-items\"><li key=\"setting\" class=\"nav-bar\" tauri-invoke=\"setting_page\" hx-target=\"#workplace\"><span>Setting</span></li></ul></nav><div><h3>Jobs</h3><button tauri-invoke=\"open_dialog_for_blend_file\" hx-target=\"body\" hx-swap=\"beforeend\">Import</button><div class=\"group\" id=\"joblist\">",
    );
    t.append(list);
    t.append("</div></div></div></div><main id=\"workplace\">");
    t.append(detail);
    t.append("</main>");
    t
}

} // verus!

verus! {

/// One choice of the version menu of the job form.
pub open spec fn version_option(v: Version) -> Seq<char> {
    "<option value=\""@ + html_escape(version_text(v)) + "\">"@ + html_escape(version_text(v))
        + "</option>"@
}

/// The form that creates a render job from a project file: the output
/// directory (picked with a dialog), the Blender version (offering the given
/// versions, the project's last version preselected), the first and last
/// frames, and the project's path in a hidden field.
pub open spec fn import_form_html(
    file_path: Seq<char>,
    output: Seq<char>,
    last_version: Version,
    frame_start: int,
    frame_end: int,
    versions: Seq<Version>,
) -> Seq<char> {
    "<div id=\"modal\" _=\"on closeModal add .closing then wait for animationend then remove me\"><div class=\"modal-underlay\" _=\"on click trigger closeModal\"></div><div class=\"modal-content\"><form method=\"dialog\" tauri-invoke=\"create_job\" hx-target=\"#workplace\" _=\"on submit trigger closeModal\"><h1>Create new Render Job</h1><label>Project File Path:</label><p>Need to update this method. Please see the source code</p><br><label>Output destination:</label><div tauri-invoke=\"update_output_field\" hx-target=\"this\">"@
        + output_field_html(output)
        + "</div><br><div name=\"mode\"><table><tr><th><label id=\"versionLabel\" htmlfor=\"version\">Version</label></th><th><label id=\"frameStartLabel\" htmlfor=\"start\">Start</label></th><th><label id=\"frameEndLabel\" htmlfor=\"end\">End</label></th></tr><tr><td><select name=\"version\" value=\""@
        + html_escape(version_text(last_version))
        + "\" style=\"width:100%; height:100%;\">"@ + concat_all(
        versions.map_values(|v: Version| version_option(v)),
    ) + "</select></td><td style=\"width:33%\"><input class=\"form-input\" name=\"start\" type=\"number\" value=\""@
        + signed_decimal_text(frame_start)
        + "\"></td><td style=\"width:33%\"><input class=\"form-input\" name=\"end\" type=\"number\" value=\""@
        + signed_decimal_text(frame_end) + "\"></td><input name=\"path\" type=\"hidden\" value=\""@
        + html_escape(file_path)
        + "\"></tr></table></div><menu><button type=\"button\" value=\"cancel\" _=\"on click trigger closeModal\">Cancel</button><button type=\"submit\">Ok</button></menu></form></div></div>"@
}

fn version_options(versions: &Vec<Version>) -> (t: String)
    ensures
        t@ == concat_all(versions@.map_values(|v: Version| version_option(v))),
{
    let mut out = String::new();
    let mut i: usize = 0;
    while i < versions.len()
        invariant
            0 <= i <= versions.len(),
            out@ == concat_all(versions@.take(i as int).map_values(|v: Version| version_option(v))),
        decreases versions.len() - i,
    {
        let ghost before = out@;
        let text = versions[i].to_text();
        out.append("<option value=\"");
        push_escaped(&mut out, text.as_str());
        out.append("\">");
        push_escaped(&mut out, text.as_str());
        out.append("</option>");
        proof {
            assert(out@ =~= before + version_option(versions@[i as int]));
            assert(versions@.take(i + 1).map_values(|v: Version| version_option(v)).drop_last()
                =~= versions@.take(i as int).map_values(|v: Version| version_option(v)));
        }
        i = i + 1;
    }
    proof {
        assert(versions@.take(versions.len() as int) =~= versions@);
    }
    out
}

/// Renders the form that creates a render job from a project file.
pub fn import_blend_form(
    file_path: &str,
    output: &str,
    last_version: &Version,
    frame_start: i32,
    frame_end: i32,
    versions: &Vec<Version>,
) -> (html: String)
    ensures
        html@ == import_form_html(
            file_path@,
            output@,
            *last_version,
            frame_start as int,
            frame_end as int,
            versions@,
        ),
{
    let mut t = String::from_str(
        "<div id=\"modal\" _=\"on closeModal add .closing then wait for animationend then remove me\"><div class=\"modal-underlay\" _=\"on click trigger closeModal\"></div><div class=\"modal-content\"><form method=\"dialog\" tauri-invoke=\"create_job\" hx-target=\"#workplace\" _=\"on submit trigger closeModal\"><h1>Create new Render Job</h1><label>Project File Path:</label><p>Need to update this method. Please see the source code</p><br><label>Output destination:</label><div tauri-invoke=\"update_output_field\" hx-target=\"this\">",
    );
    t.append(output_field(output).as_str());
    t.append(
        "</div><br><div name=\"mode\"><table><tr><th><label id=\"versionLabel\" htmlfor=\"version\">Version</label></th><th><label id=\"frameStartLabel\" htmlfor=\"start\">Start</label></th><th><label id=\"frameEndLabel\" htmlfor=\"end\">End</label></th></tr><tr><td><select name=\"version\" value=\"",
    );
    push_escaped(&mut t, last_version.to_text().as_str());
    t.append("\" style=\"width:100%; height:100%;\">");
    t.append(version_options(versions).as_str());
    t.append(
        "</select></td><td style=\"width:33%\"><input class=\"form-input\" name=\"start\" type=\"number\" value=\"",
    );
    t.append(i32_text(frame_start).as_str());
    t.append(
        "\"></td><td style=\"width:33%\"><input class=\"form-input\" name=\"end\" type=\"number\" value=\"",
    );
    t.append(i32_text(frame_end).as_str());
    t.append("\"></td><input name=\"path\" type=\"hidden\" value=\"");
    push_escaped(&mut t, file_path);
    t.append(
        "\"></tr></table></div><menu><button type=\"button\" value=\"cancel\" _=\"on click trigger closeModal\">Cancel</button><button type=\"submit\">Ok</button></menu></form></div></div>",
    );
    proof {
        assert(t@ =~= import_form_html(
            file_path@,
            output@,
            *last_version,
            frame_start as int,
            frame_end as int,
            versions@,
        ));
    }
    t
}

} // verus!
