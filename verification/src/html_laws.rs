//! What the pages of the front end show, stated over their inputs: each list
//! page is the rows of its entries in order, and each row or page shows the
//! values it is built from, in order.

use vstd::prelude::*;

use crate::events::Worker;
use crate::external::{decimal_text, html_escape, signed_decimal_text, uuid_text};
use crate::html::{
    asset_url, concat_all, hx_vals, image_row, images_html, import_form_html, job_detail_html,
    job_list_html, job_row, output_field_html, version_option, version_text, worker_page_html,
    JobDetail, JobEntry,
};
use crate::models::Version;

verus! {

/// `x` stands in `s` from position `k` on.
pub open spec fn infix_at(s: Seq<char>, x: Seq<char>, k: int) -> bool {
    0 <= k && k + x.len() <= s.len() && s.subrange(k, k + x.len()) == x
}

/// The texts `xs` all stand in `s`, one after the other, without overlapping.
pub open spec fn shows_in_order(s: Seq<char>, xs: Seq<Seq<char>>) -> bool
    decreases xs.len(),
{
    if xs.len() == 0 {
        true
    } else {
        exists|k: int|
            #[trigger] infix_at(s, xs[0], k) && shows_in_order(s.skip(k + xs[0].len()), xs.drop_first())
    }
}

/// The texts `xs` with the texts `cs` around and between them: `cs[0]`,
/// `xs[0]`, `cs[1]`, and so on, ending with the last of `cs`.
pub open spec fn interleave(cs: Seq<Seq<char>>, xs: Seq<Seq<char>>) -> Seq<char>
    decreases xs.len(),
{
    if xs.len() == 0 || cs.len() == 0 {
        if cs.len() == 0 {
            Seq::empty()
        } else {
            cs[0]
        }
    } else {
        cs[0] + xs[0] + interleave(cs.drop_first(), xs.drop_first())
    }
}

proof fn interleave_shows(cs: Seq<Seq<char>>, xs: Seq<Seq<char>>)
    requires
        cs.len() == xs.len() + 1,
    ensures
        shows_in_order(interleave(cs, xs), xs),
    decreases xs.len(),
{
    if xs.len() > 0 {
        let r = interleave(cs.drop_first(), xs.drop_first());
        interleave_shows(cs.drop_first(), xs.drop_first());
        let s = interleave(cs, xs);
        let k = cs[0].len() as int;
        assert(s == cs[0] + xs[0] + r);
        assert(s.subrange(k, k + xs[0].len()) =~= xs[0]);
        assert(infix_at(s, xs[0], k));
        assert(s.skip(k + xs[0].len()) =~= r);
    }
}

proof fn shows_cons(c: Seq<char>, x: Seq<char>, r: Seq<char>, xs: Seq<Seq<char>>)
    requires
        shows_in_order(r, xs),
    ensures
        shows_in_order(c + x + r, seq![x] + xs),
{
    let s = c + x + r;
    let ys = seq![x] + xs;
    let k = c.len() as int;
    assert(ys[0] == x);
    assert(ys.drop_first() =~= xs);
    assert(s.subrange(k, k + x.len()) =~= x);
    assert(infix_at(s, ys[0], k));
    assert(s.skip(k + x.len()) =~= r);
}

proof fn shows_shift(a: Seq<char>, s: Seq<char>, xs: Seq<Seq<char>>)
    requires
        shows_in_order(s, xs),
    ensures
        shows_in_order(a + s, xs),
{
    if xs.len() > 0 {
        let k = choose|k: int|
            #[trigger] infix_at(s, xs[0], k) && shows_in_order(s.skip(k + xs[0].len()), xs.drop_first());
        let t = a + s;
        let m = a.len() + k;
        assert(t.subrange(m, m + xs[0].len()) =~= s.subrange(k, k + xs[0].len()));
        assert(infix_at(t, xs[0], m));
        assert(t.skip(m + xs[0].len()) =~= s.skip(k + xs[0].len()));
    }
}

proof fn shows_append(s1: Seq<char>, xs1: Seq<Seq<char>>, s2: Seq<char>, xs2: Seq<Seq<char>>)
    requires
        shows_in_order(s1, xs1),
        shows_in_order(s2, xs2),
    ensures
        shows_in_order(s1 + s2, xs1 + xs2),
    decreases xs1.len(),
{
    if xs1.len() == 0 {
        shows_shift(s1, s2, xs2);
        assert(xs1 + xs2 =~= xs2);
    } else {
        let k = choose|k: int|
            #[trigger] infix_at(s1, xs1[0], k) && shows_in_order(s1.skip(k + xs1[0].len()), xs1.drop_first());
        let rest = s1.skip(k + xs1[0].len());
        shows_append(rest, xs1.drop_first(), s2, xs2);
        let t = s1 + s2;
        let ys = xs1 + xs2;
        assert(ys[0] == xs1[0]);
        assert(ys.drop_first() =~= xs1.drop_first() + xs2);
        assert(t.subrange(k, k + xs1[0].len()) =~= s1.subrange(k, k + xs1[0].len()));
        assert(infix_at(t, ys[0], k));
        assert(t.skip(k + ys[0].len()) =~= rest + s2);
    }
}

proof fn concat_all_append(a: Seq<Seq<char>>, b: Seq<Seq<char>>)
    ensures
        concat_all(a + b) == concat_all(a) + concat_all(b),
    decreases b.len(),
{
    if b.len() == 0 {
        assert(a + b =~= a);
        assert(concat_all(a) + concat_all(b) =~= concat_all(a));
    } else {
        concat_all_append(a, b.drop_last());
        assert((a + b).drop_last() =~= a + b.drop_last());
        assert((a + b).last() == b.last());
        assert(concat_all(a + b) =~= concat_all(a) + concat_all(b));
    }
}

proof fn concat_all_single(x: Seq<char>)
    ensures
        concat_all(seq![x]) == x,
{
    assert(seq![x].drop_last() =~= Seq::<Seq<char>>::empty());
    assert(concat_all(Seq::<Seq<char>>::empty()) == Seq::<char>::empty());
    assert(Seq::<char>::empty() + x =~= x);
}

// ---------------------------------------------------------------- job list

/// The job list of two lists one after the other is the list of the first
/// followed by the list of the second; the list of one job is that job's row;
/// an empty list shows nothing.
pub proof fn job_list_concatenates(a: Seq<JobEntry>, b: Seq<JobEntry>, e: JobEntry)
    ensures
        job_list_html(Some(a + b)) == job_list_html(Some(a)) + job_list_html(Some(b)),
        job_list_html(Some(seq![e])) == job_row(e),
        job_list_html(Some(Seq::<JobEntry>::empty())) == Seq::<char>::empty(),
{
    let f = |x: JobEntry| job_row(x);
    assert((a + b).map_values(f) =~= a.map_values(f) + b.map_values(f));
    concat_all_append(a.map_values(f), b.map_values(f));
    assert(seq![e].map_values(f) =~= seq![job_row(e)]);
    concat_all_single(job_row(e));
    assert(Seq::<JobEntry>::empty().map_values(f) =~= Seq::<Seq<char>>::empty());
}

/// The job list holds, after the rows of the jobs before it, the row of job
/// `i` itself, and then the rows of the jobs after it.
pub proof fn job_list_row_of_each_job(l: Seq<JobEntry>, i: int)
    requires
        0 <= i < l.len(),
    ensures
        job_list_html(Some(l)) == job_list_html(Some(l.take(i))) + job_row(l[i]) + job_list_html(
            Some(l.skip(i + 1)),
        ),
{
    assert(l =~= l.take(i) + seq![l[i]] + l.skip(i + 1));
    job_list_concatenates(l.take(i) + seq![l[i]], l.skip(i + 1), l[i]);
    job_list_concatenates(l.take(i), seq![l[i]], l[i]);
}

/// A job's row invokes the command that opens a job's page, hands it the
/// job's own id, and then shows the job's file name.
pub proof fn job_row_shows_its_job(e: JobEntry)
    ensures
        shows_in_order(
            job_row(e),
            seq![
                "get_job_detail"@,
                html_escape(hx_vals("jobId"@, uuid_text(e.id))),
                html_escape(e.file_name@),
            ],
        ),
{
    let xs = seq![
        "get_job_detail"@,
        html_escape(hx_vals("jobId"@, uuid_text(e.id))),
        html_escape(e.file_name@),
    ];
    let cs = seq![
        "<div><table><tbody><tr tauri-invoke=\""@,
        "\" hx-vals=\""@,
        "\" hx-target=\"#workplace\"><td style=\"width:100%\">"@,
        "</td></tr></tbody></table></div>"@,
    ];
    reveal_strlit("<div><table><tbody><tr tauri-invoke=\"get_job_detail\" hx-vals=\"");
    reveal_strlit("<div><table><tbody><tr tauri-invoke=\"");
    reveal_strlit("get_job_detail");
    reveal_strlit("\" hx-vals=\"");
    reveal_with_fuel(interleave, 4);
    assert(interleave(cs, xs) =~= job_row(e));
    interleave_shows(cs, xs);
}

// ---------------------------------------------------------------- job page images

/// The images part of two lists one after the other is that of the first
/// followed by that of the second; that of one image is its row; an empty
/// list shows nothing.
pub proof fn images_concatenate(a: Seq<String>, b: Seq<String>, p: String, windows_like: bool)
    ensures
        images_html(Some(a + b), windows_like) == images_html(Some(a), windows_like) + images_html(
            Some(b),
            windows_like,
        ),
        images_html(Some(seq![p]), windows_like) == image_row(p@, windows_like),
        images_html(Some(Seq::<String>::empty()), windows_like) == Seq::<char>::empty(),
{
    let f = |x: String| image_row(x@, windows_like);
    assert((a + b).map_values(f) =~= a.map_values(f) + b.map_values(f));
    concat_all_append(a.map_values(f), b.map_values(f));
    assert(seq![p].map_values(f) =~= seq![image_row(p@, windows_like)]);
    concat_all_single(image_row(p@, windows_like));
    assert(Seq::<String>::empty().map_values(f) =~= Seq::<Seq<char>>::empty());
}

/// The images part holds, after the rows of the images before it, the row of
/// image `k` itself, and then the rows of the images after it.
pub proof fn images_row_of_each_image(l: Seq<String>, k: int, windows_like: bool)
    requires
        0 <= k < l.len(),
    ensures
        images_html(Some(l), windows_like) == images_html(Some(l.take(k)), windows_like) + image_row(
            l[k]@,
            windows_like,
        ) + images_html(Some(l.skip(k + 1)), windows_like),
{
    assert(l =~= l.take(k) + seq![l[k]] + l.skip(k + 1));
    images_concatenate(l.take(k) + seq![l[k]], l.skip(k + 1), l[k], windows_like);
    images_concatenate(l.take(k), seq![l[k]], l[k], windows_like);
}

/// An image's row shows the image at its own asset address.
pub proof fn image_row_shows_its_image(path: Seq<char>, windows_like: bool)
    ensures
        shows_in_order(image_row(path, windows_like), seq![html_escape(asset_url(path, windows_like))]),
{
    let xs = seq![html_escape(asset_url(path, windows_like))];
    let cs = seq!["<tr><td><img width=\"120px\" src=\""@, "\"></td></tr>"@];
    reveal_with_fuel(interleave, 2);
    assert(interleave(cs, xs) =~= image_row(path, windows_like));
    interleave_shows(cs, xs);
}

/// The images part that a job page shows for the images it lists.
pub open spec fn listed_images(j: JobDetail, windows_like: bool) -> Seq<char> {
    images_html(
        match j.images {
            Some(v) => Some(v@),
            None => None,
        },
        windows_like,
    )
}

spec fn job_page_head(j: JobDetail) -> Seq<char> {
    "<div class=\"content\"><h2>Job Detail: "@ + html_escape(j.project_file_name@)
        + "</h2><div><button tauri-invoke=\"open_dir\" hx-vals=\""@ + html_escape(
        hx_vals("path"@, j.project_file@),
    ) + "\">File path:</button>"@ + html_escape(j.project_file@)
        + "</div><div><button tauri-invoke=\"open_dir\" hx-vals=\""@ + html_escape(
        hx_vals("path"@, j.output@),
    ) + "\">Output:</button>"@ + html_escape(j.output@)
}

spec fn job_page_tail(j: JobDetail, windows_like: bool) -> Seq<char> {
    "</div><div>Target Blender Version: "@ + html_escape(version_text(j.version))
        + "</div><div>Start: "@ + signed_decimal_text(j.start as int) + " | End: "@
        + signed_decimal_text(j.end as int) + "</div><button tauri-invoke=\"delete_job\" hx-vals=\""@
        + html_escape(hx_vals("jobId"@, uuid_text(j.id)))
        + "\" hx-target=\"#workplace\">Delete Job</button><p>"@ + listed_images(j, windows_like)
        + "</div>"@
}

#[verifier::spinoff_prover]
proof fn job_page_head_shows(j: JobDetail)
    ensures
        shows_in_order(
            job_page_head(j),
            seq![
                html_escape(j.project_file_name@),
                html_escape(hx_vals("path"@, j.project_file@)),
                html_escape(j.project_file@),
                html_escape(hx_vals("path"@, j.output@)),
                html_escape(j.output@),
            ],
        ),
{
    let x1 = html_escape(j.project_file_name@);
    let x2 = html_escape(hx_vals("path"@, j.project_file@));
    let x3 = html_escape(j.project_file@);
    let x4 = html_escape(hx_vals("path"@, j.output@));
    let x5 = html_escape(j.output@);
    let c0 = "<div class=\"content\"><h2>Job Detail: "@;
    let c1 = "</h2><div><button tauri-invoke=\"open_dir\" hx-vals=\""@;
    let c2 = "\">File path:</button>"@;
    let c3 = "</div><div><button tauri-invoke=\"open_dir\" hx-vals=\""@;
    let c4 = "\">Output:</button>"@;
    let e = Seq::<char>::empty();
    let t4 = c4 + x5 + e;
    shows_cons(c4, x5, e, Seq::<Seq<char>>::empty());
    let t3 = c3 + x4 + t4;
    shows_cons(c3, x4, t4, seq![x5] + Seq::<Seq<char>>::empty());
    let t2 = c2 + x3 + t3;
    shows_cons(c2, x3, t3, seq![x4] + (seq![x5] + Seq::<Seq<char>>::empty()));
    let t1 = c1 + x2 + t2;
    shows_cons(c1, x2, t2, seq![x3] + (seq![x4] + (seq![x5] + Seq::<Seq<char>>::empty())));
    let t0 = c0 + x1 + t1;
    shows_cons(c0, x1, t1, seq![x2] + (seq![x3] + (seq![x4] + (seq![x5] + Seq::<Seq<char>>::empty()))));
    assert(seq![x1] + (seq![x2] + (seq![x3] + (seq![x4] + (seq![x5] + Seq::<Seq<char>>::empty()))))
        =~= seq![x1, x2, x3, x4, x5]);
    assert(t0 =~= job_page_head(j));
}

#[verifier::spinoff_prover]
proof fn job_page_tail_shows(j: JobDetail, windows_like: bool)
    ensures
        shows_in_order(
            job_page_tail(j, windows_like),
            seq![
                html_escape(version_text(j.version)),
                signed_decimal_text(j.start as int),
                signed_decimal_text(j.end as int),
                html_escape(hx_vals("jobId"@, uuid_text(j.id))),
                listed_images(j, windows_like),
            ],
        ),
{
    let x6 = html_escape(version_text(j.version));
    let x7 = signed_decimal_text(j.start as int);
    let x8 = signed_decimal_text(j.end as int);
    let x9 = html_escape(hx_vals("jobId"@, uuid_text(j.id)));
    let x10 = listed_images(j, windows_like);
    let c5 = "</div><div>Target Blender Version: "@;
    let c6 = "</div><div>Start: "@;
    let c7 = " | End: "@;
    let c8 = "</div><button tauri-invoke=\"delete_job\" hx-vals=\""@;
    let c9 = "\" hx-target=\"#workplace\">Delete Job</button><p>"@;
    let c10 = "</div>"@;
    let t9 = c9 + x10 + c10;
    shows_cons(c9, x10, c10, Seq::<Seq<char>>::empty());
    let t8 = c8 + x9 + t9;
    shows_cons(c8, x9, t9, seq![x10] + Seq::<Seq<char>>::empty());
    let t7 = c7 + x8 + t8;
    shows_cons(c7, x8, t8, seq![x9] + (seq![x10] + Seq::<Seq<char>>::empty()));
    let t6 = c6 + x7 + t7;
    shows_cons(c6, x7, t7, seq![x8] + (seq![x9] + (seq![x10] + Seq::<Seq<char>>::empty())));
    let t5 = c5 + x6 + t6;
    shows_cons(c5, x6, t6, seq![x7] + (seq![x8] + (seq![x9] + (seq![x10] + Seq::<Seq<char>>::empty()))));
    assert(seq![x6] + (seq![x7] + (seq![x8] + (seq![x9] + (seq![x10] + Seq::<Seq<char>>::empty()))))
        =~= seq![x6, x7, x8, x9, x10]);
    assert(t5 =~= job_page_tail(j, windows_like));
}

/// A job's page shows, in this order, its project's file name, the project
/// file handed to the button that opens it and shown, the output directory
/// handed to its button and shown, the Blender version, the first and last
/// frames, the job's own id handed to the delete button, and the images it
/// lists.
pub proof fn job_page_shows_its_job(j: JobDetail, windows_like: bool)
    ensures
        shows_in_order(
            job_detail_html(Some(j), windows_like),
            seq![
                html_escape(j.project_file_name@),
                html_escape(hx_vals("path"@, j.project_file@)),
                html_escape(j.project_file@),
                html_escape(hx_vals("path"@, j.output@)),
                html_escape(j.output@),
                html_escape(version_text(j.version)),
                signed_decimal_text(j.start as int),
                signed_decimal_text(j.end as int),
                html_escape(hx_vals("jobId"@, uuid_text(j.id))),
                listed_images(j, windows_like),
            ],
        ),
{
    let head = seq![
        html_escape(j.project_file_name@),
        html_escape(hx_vals("path"@, j.project_file@)),
        html_escape(j.project_file@),
        html_escape(hx_vals("path"@, j.output@)),
        html_escape(j.output@),
    ];
    let tail = seq![
        html_escape(version_text(j.version)),
        signed_decimal_text(j.start as int),
        signed_decimal_text(j.end as int),
        html_escape(hx_vals("jobId"@, uuid_text(j.id))),
        listed_images(j, windows_like),
    ];
    job_page_head_shows(j);
    job_page_tail_shows(j, windows_like);
    shows_append(job_page_head(j), head, job_page_tail(j, windows_like), tail);
    assert(job_detail_html(Some(j), windows_like) =~= job_page_head(j) + job_page_tail(j, windows_like));
    assert(head + tail =~= seq![
        html_escape(j.project_file_name@),
        html_escape(hx_vals("path"@, j.project_file@)),
        html_escape(j.project_file@),
        html_escape(hx_vals("path"@, j.output@)),
        html_escape(j.output@),
        html_escape(version_text(j.version)),
        signed_decimal_text(j.start as int),
        signed_decimal_text(j.end as int),
        html_escape(hx_vals("jobId"@, uuid_text(j.id))),
        listed_images(j, windows_like),
    ]);
}

// ---------------------------------------------------------------- node page

/// What a node's page shows of the GPU: its name, or `N/A` without one.
pub open spec fn gpu_shown(gpu: Option<String>) -> Seq<char> {
    match gpu {
        Some(g) => html_escape(g@),
        None => "N/A"@,
    }
}

/// A node's page shows, in this order, its host name, system, architecture,
/// processor, core count, memory in whole GiB, and graphics card.
#[verifier::spinoff_prover]
#[verifier::rlimit(50)]
pub proof fn worker_page_shows_its_machine(w: Worker)
    ensures
        shows_in_order(
            worker_page_html(w),
            seq![
                html_escape("Computer: "@ + w.spec.host@),
                html_escape(w.spec.os@),
                html_escape(w.spec.arch@),
                html_escape(w.spec.cpu@),
                html_escape("("@ + decimal_text(w.spec.cores as nat) + " cores)"@),
                html_escape(decimal_text((w.spec.memory / 1073741824u64) as nat) + "GB"@),
                gpu_shown(w.spec.gpu),
            ],
        ),
{
    let x1 = html_escape("Computer: "@ + w.spec.host@);
    let x2 = html_escape(w.spec.os@);
    let x3 = html_escape(w.spec.arch@);
    let x4 = html_escape(w.spec.cpu@);
    let x5 = html_escape("("@ + decimal_text(w.spec.cores as nat) + " cores)"@);
    let x6 = html_escape(decimal_text((w.spec.memory / 1073741824u64) as nat) + "GB"@);
    let x7 = gpu_shown(w.spec.gpu);
    let c0 = "<div class=\"content\"><h1>"@;
    let c1 = "</h1><h3>Hardware Info:</h3><table><tr><th>System</th><th>CPU</th><th>Memory</th><th>GPU</th></tr><tr><td><p>"@;
    let c2 = "</p><span>"@;
    let c3 = "</span></td><td><p>"@;
    let c4 = "</p><span>"@;
    let c5 = "</span></td><td>"@;
    let c6 = "</td><td>"@ + "<label>"@;
    let c7 = "</label>"@
        + "</td></tr></table><h3>Task List</h3><table><tr><th>Project Name</th><th>Progresss</th></tr></table></div>"@;
    let t7 = c7;
    assert(shows_in_order(t7, Seq::<Seq<char>>::empty()));
    let t6 = c6 + x7 + t7;
    shows_cons(c6, x7, t7, Seq::<Seq<char>>::empty());
    let t5 = c5 + x6 + t6;
    shows_cons(c5, x6, t6, seq![x7]);
    let t4 = c4 + x5 + t5;
    shows_cons(c4, x5, t5, seq![x6] + seq![x7]);
    let t3 = c3 + x4 + t4;
    shows_cons(c3, x4, t4, seq![x5] + (seq![x6] + seq![x7]));
    let t2 = c2 + x3 + t3;
    shows_cons(c2, x3, t3, seq![x4] + (seq![x5] + (seq![x6] + seq![x7])));
    let t1 = c1 + x2 + t2;
    shows_cons(c1, x2, t2, seq![x3] + (seq![x4] + (seq![x5] + (seq![x6] + seq![x7]))));
    let t0 = c0 + x1 + t1;
    shows_cons(c0, x1, t1, seq![x2] + (seq![x3] + (seq![x4] + (seq![x5] + (seq![x6] + seq![x7])))));
    assert(seq![x1] + (seq![x2] + (seq![x3] + (seq![x4] + (seq![x5] + (seq![x6] + seq![x7])))))
        =~= seq![x1, x2, x3, x4, x5, x6, x7]);
    reveal_strlit("<label>N/A</label>");
    reveal_strlit("<label>");
    reveal_strlit("N/A");
    reveal_strlit("</label>");
    assert(t0 =~= worker_page_html(w));
}

// ---------------------------------------------------------------- job form

/// The options of a version menu: one per version, in order.
pub open spec fn version_menu(versions: Seq<Version>) -> Seq<char> {
    concat_all(versions.map_values(|v: Version| version_option(v)))
}

/// The menu of two lists of versions one after the other is the menu of the
/// first followed by that of the second, and the menu of one version is its
/// option; so option `k` of the menu is that of version `k`.
pub proof fn version_menu_lists_each_version(a: Seq<Version>, b: Seq<Version>, v: Version)
    ensures
        version_menu(a + b) == version_menu(a) + version_menu(b),
        version_menu(seq![v]) == version_option(v),
        version_menu(Seq::<Version>::empty()) == Seq::<char>::empty(),
{
    let f = |x: Version| version_option(x);
    assert((a + b).map_values(f) =~= a.map_values(f) + b.map_values(f));
    concat_all_append(a.map_values(f), b.map_values(f));
    assert(seq![v].map_values(f) =~= seq![version_option(v)]);
    concat_all_single(version_option(v));
    assert(Seq::<Version>::empty().map_values(f) =~= Seq::<Seq<char>>::empty());
}

/// A version's option offers the version's text as its value and shows it.
pub proof fn version_option_shows_its_version(v: Version)
    ensures
        shows_in_order(
            version_option(v),
            seq![html_escape(version_text(v)), html_escape(version_text(v))],
        ),
{
    let x = html_escape(version_text(v));
    let t2 = "</option>"@;
    let t1 = "\">"@ + x + t2;
    shows_cons("\">"@, x, t2, Seq::<Seq<char>>::empty());
    let t0 = "<option value=\""@ + x + t1;
    shows_cons("<option value=\""@, x, t1, seq![x]);
    assert(seq![x] + seq![x] =~= seq![x, x]);
    assert(t0 =~= version_option(v));
}

/// The job form for a list of versions is the form for no versions with the
/// menu of those versions placed right before the menu's closing tag: the
/// rest of the form does not depend on the versions offered.
pub proof fn import_form_offers_each_version(
    file_path: Seq<char>,
    output: Seq<char>,
    last_version: Version,
    frame_start: int,
    frame_end: int,
    versions: Seq<Version>,
)
    ensures
        ({
            let bare = import_form_html(
                file_path,
                output,
                last_version,
                frame_start,
                frame_end,
                Seq::<Version>::empty(),
            );
            exists|k: int|
                #![trigger bare.skip(k)]
                0 <= k <= bare.len() && import_form_html(
                    file_path,
                    output,
                    last_version,
                    frame_start,
                    frame_end,
                    versions,
                ) == bare.take(k) + version_menu(versions) + bare.skip(k) && bare.skip(k).take(9)
                    == "</select>"@
        }),
{
    let head = "<div id=\"modal\" _=\"on closeModal add .closing then wait for animationend then remove me\"><div class=\"modal-underlay\" _=\"on click trigger closeModal\"></div><div class=\"modal-content\"><form method=\"dialog\" tauri-invoke=\"create_job\" hx-target=\"#workplace\" _=\"on submit trigger closeModal\"><h1>Create new Render Job</h1><label>Project File Path:</label><p>Need to update this method. Please see the source code</p><br><label>Output destination:</label><div tauri-invoke=\"update_output_field\" hx-target=\"this\">"@
        + output_field_html(output)
        + "</div><br><div name=\"mode\"><table><tr><th><label id=\"versionLabel\" htmlfor=\"version\">Version</label></th><th><label id=\"frameStartLabel\" htmlfor=\"start\">Start</label></th><th><label id=\"frameEndLabel\" htmlfor=\"end\">End</label></th></tr><tr><td><select name=\"version\" value=\""@
        + html_escape(version_text(last_version)) + "\" style=\"width:100%; height:100%;\">"@;
    let close = "</select></td><td style=\"width:33%\"><input class=\"form-input\" name=\"start\" type=\"number\" value=\""@;
    let tail = close + signed_decimal_text(frame_start)
        + "\"></td><td style=\"width:33%\"><input class=\"form-input\" name=\"end\" type=\"number\" value=\""@
        + signed_decimal_text(frame_end) + "\"></td><input name=\"path\" type=\"hidden\" value=\""@
        + html_escape(file_path)
        + "\"></tr></table></div><menu><button type=\"button\" value=\"cancel\" _=\"on click trigger closeModal\">Cancel</button><button type=\"submit\">Ok</button></menu></form></div></div>"@;
    let bare = import_form_html(
        file_path,
        output,
        last_version,
        frame_start,
        frame_end,
        Seq::<Version>::empty(),
    );
    version_menu_lists_each_version(versions, versions, last_version);
    assert(bare =~= head + tail);
    assert(import_form_html(file_path, output, last_version, frame_start, frame_end, versions)
        =~= head + version_menu(versions) + tail);
    let k = head.len() as int;
    assert(bare.take(k) =~= head);
    assert(bare.skip(k) =~= tail);
    reveal_strlit(
        "</select></td><td style=\"width:33%\"><input class=\"form-input\" name=\"start\" type=\"number\" value=\"",
    );
    reveal_strlit("</select>");
    assert(tail.take(9) =~= "</select>"@);
}

/// The job form shows, in this order, the output field, the project's last
/// version preselected, the menu of the versions offered, the first and last
/// frames, and the project's path.
#[verifier::spinoff_prover]
#[verifier::rlimit(50)]
pub proof fn import_form_shows_its_fields(
    file_path: Seq<char>,
    output: Seq<char>,
    last_version: Version,
    frame_start: int,
    frame_end: int,
    versions: Seq<Version>,
)
    ensures
        shows_in_order(
            import_form_html(file_path, output, last_version, frame_start, frame_end, versions),
            seq![
                output_field_html(output),
                html_escape(version_text(last_version)),
                version_menu(versions),
                signed_decimal_text(frame_start),
                signed_decimal_text(frame_end),
                html_escape(file_path),
            ],
        ),
{
    let x1 = output_field_html(output);
    let x2 = html_escape(version_text(last_version));
    let x3 = version_menu(versions);
    let x4 = signed_decimal_text(frame_start);
    let x5 = signed_decimal_text(frame_end);
    let x6 = html_escape(file_path);
    let c0 = "<div id=\"modal\" _=\"on closeModal add .closing then wait for animationend then remove me\"><div class=\"modal-underlay\" _=\"on click trigger closeModal\"></div><div class=\"modal-content\"><form method=\"dialog\" tauri-invoke=\"create_job\" hx-target=\"#workplace\" _=\"on submit trigger closeModal\"><h1>Create new Render Job</h1><label>Project File Path:</label><p>Need to update this method. Please see the source code</p><br><label>Output destination:</label><div tauri-invoke=\"update_output_field\" hx-target=\"this\">"@;
    let c1 = "</div><br><div name=\"mode\"><table><tr><th><label id=\"versionLabel\" htmlfor=\"version\">Version</label></th><th><label id=\"frameStartLabel\" htmlfor=\"start\">Start</label></th><th><label id=\"frameEndLabel\" htmlfor=\"end\">End</label></th></tr><tr><td><select name=\"version\" value=\""@;
    let c2 = "\" style=\"width:100%; height:100%;\">"@;
    let c3 = "</select></td><td style=\"width:33%\"><input class=\"form-input\" name=\"start\" type=\"number\" value=\""@;
    let c4 = "\"></td><td style=\"width:33%\"><input class=\"form-input\" name=\"end\" type=\"number\" value=\""@;
    let c5 = "\"></td><input name=\"path\" type=\"hidden\" value=\""@;
    let c6 = "\"></tr></table></div><menu><button type=\"button\" value=\"cancel\" _=\"on click trigger closeModal\">Cancel</button><button type=\"submit\">Ok</button></menu></form></div></div>"@;
    let e = Seq::<Seq<char>>::empty();
    let t5 = c5 + x6 + c6;
    shows_cons(c5, x6, c6, e);
    let t4 = c4 + x5 + t5;
    shows_cons(c4, x5, t5, seq![x6]);
    let t3 = c3 + x4 + t4;
    shows_cons(c3, x4, t4, seq![x5] + seq![x6]);
    let t2 = c2 + x3 + t3;
    shows_cons(c2, x3, t3, seq![x4] + (seq![x5] + seq![x6]));
    let t1 = c1 + x2 + t2;
    shows_cons(c1, x2, t2, seq![x3] + (seq![x4] + (seq![x5] + seq![x6])));
    let t0 = c0 + x1 + t1;
    shows_cons(c0, x1, t1, seq![x2] + (seq![x3] + (seq![x4] + (seq![x5] + seq![x6]))));
    assert(seq![x1] + (seq![x2] + (seq![x3] + (seq![x4] + (seq![x5] + seq![x6]))))
        =~= seq![x1, x2, x3, x4, x5, x6]);
    assert(t0 =~= import_form_html(file_path, output, last_version, frame_start, frame_end, versions));
}

} // verus!
