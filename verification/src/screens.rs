//! The bodies of the summary-side pages, put together from the stored data
//! and the request.

use vstd::prelude::*;

use crate::filter::{filter_logs, filter_logs_spec};
use crate::meeting::{meeting_label, meeting_label_spec};
use crate::model::{
    count_where, lemma_filter_count, AttendanceQuery, FilterQuery, OptionItem, ProjectReportQuery,
    WeeklyLogView,
};
use crate::pages::{
    render_attendance_form, render_attendance_form_spec, render_filter, render_filter_spec,
    render_log_form, render_log_form_spec, render_project_report_form,
    render_project_report_form_spec, render_summary_tools, render_summary_tools_spec,
};
use crate::reports::{
    render_attendance_table, render_attendance_table_spec, render_table, render_table_spec,
    render_work_panels, render_work_panels_spec,
};
use crate::templates;
use crate::text::{esc_spec, int_decimal, push_esc, push_i64};

verus! {

/// The summary page: the two tools, the filter form, and the table of the
/// entries that pass the filters.
pub open spec fn render_summary_body_spec(
    filters: FilterQuery,
    logs: Seq<WeeklyLogView>,
    projects: Seq<OptionItem>,
    specialties: Seq<OptionItem>,
    persons: Seq<OptionItem>,
) -> Seq<char> {
    render_summary_tools_spec(projects) + render_filter_spec(filters, projects, specialties, persons)
        + render_table_spec(filter_logs_spec(logs, filters))
}

/// The body of the summary page.
pub fn render_summary_body(
    filters: &FilterQuery,
    logs: Vec<WeeklyLogView>,
    projects: &[OptionItem],
    specialties: &[OptionItem],
    persons: &[OptionItem],
) -> (r: String)
    ensures
        r@ == render_summary_body_spec(*filters, logs@, projects@, specialties@, persons@),
{
    let filtered = filter_logs(logs, filters);
    let mut body = render_summary_tools(projects);
    let f = render_filter(filters, projects, specialties, persons);
    body.append(f.as_str());
    let t = render_table(filtered.as_slice());
    body.append(t.as_str());
    body
}

/// The meeting and project of a report, when all three are chosen and positive.
pub open spec fn report_choice(q: ProjectReportQuery) -> Option<(i64, i64, i64)> {
    match (q.meeting_month, q.meeting_count, q.project_id) {
        (Some(m), Some(c), Some(p)) => if m > 0 && c > 0 && p > 0 {
            Some((m, c, p))
        } else {
            None
        },
        _ => None,
    }
}

/// The label of the first project with the id, or `所选项目`.
pub open spec fn project_name_spec(projects: Seq<OptionItem>, id: i64) -> Seq<char>
    decreases projects.len(),
{
    if projects.len() == 0 {
        templates::SELECTED_PROJECT_FALLBACK@
    } else if projects[0].id == id {
        projects[0].label@
    } else {
        project_name_spec(projects.drop_first(), id)
    }
}

/// The entries of one meeting and one project, in their order.
pub open spec fn report_logs_spec(logs: Seq<WeeklyLogView>, month: i64, count: i64, project_id: i64) -> Seq<
    WeeklyLogView,
> {
    logs.filter(
        |l: WeeklyLogView|
            l.meeting_month == month && l.meeting_count == count && l.project_id == project_id,
    )
}

/// A project report holds the entries of the chosen meeting and project and
/// no others: every entry in it is one of the entries and has the chosen
/// month, meeting number and project; every such entry is in it; and it has
/// as many entries as there are such entries.
pub proof fn lemma_report_logs_exact(logs: Seq<WeeklyLogView>, month: i64, count: i64, project_id: i64)
    ensures
        forall|i: int|
            0 <= i < report_logs_spec(logs, month, count, project_id).len() ==> {
                let l = #[trigger] report_logs_spec(logs, month, count, project_id)[i];
                &&& l.meeting_month == month
                &&& l.meeting_count == count
                &&& l.project_id == project_id
                &&& logs.contains(l)
            },
        forall|i: int|
            0 <= i < logs.len() && logs[i].meeting_month == month && logs[i].meeting_count == count
                && logs[i].project_id == project_id ==> #[trigger] report_logs_spec(
                logs,
                month,
                count,
                project_id,
            ).contains(logs[i]),
        report_logs_spec(logs, month, count, project_id).len() == count_where(
            logs,
            |l: WeeklyLogView|
                l.meeting_month == month && l.meeting_count == count && l.project_id == project_id,
        ),
{
    broadcast use vstd::seq_lib::group_filter_ensures;

    let p = |l: WeeklyLogView|
        l.meeting_month == month && l.meeting_count == count && l.project_id == project_id;
    let r = report_logs_spec(logs, month, count, project_id);
    assert(r == logs.filter(p));
    lemma_filter_count(logs, p);
    assert forall|i: int| 0 <= i < r.len() implies {
        let l = #[trigger] r[i];
        &&& l.meeting_month == month
        &&& l.meeting_count == count
        &&& l.project_id == project_id
        &&& logs.contains(l)
    } by {
        assert(p(logs.filter(p)[i]));
        assert(r.contains(r[i]));
        logs.lemma_filter_contains_rev(p, r[i]);
    }
    assert forall|i: int|
        0 <= i < logs.len() && logs[i].meeting_month == month && logs[i].meeting_count == count
            && logs[i].project_id == project_id implies #[trigger] r.contains(logs[i]) by {
        assert(p(logs[i]));
        assert(logs.filter(p).contains(logs[i]));
    }
}

/// The project report page: the choice form, and for a full choice a heading
/// with project and meeting and the two work panels of its entries.
pub open spec fn render_project_report_body_spec(
    query: ProjectReportQuery,
    projects: Seq<OptionItem>,
    logs: Seq<WeeklyLogView>,
) -> Seq<char> {
    render_project_report_form_spec(query, projects) + match report_choice(query) {
        Some((m, c, p)) => templates::REPORT_HEADING_0@ + esc_spec(project_name_spec(projects, p))
            + templates::REPORT_HEADING_1@ + esc_spec(meeting_label_spec(m, c))
            + templates::REPORT_HEADING_2@ + render_work_panels_spec(
            report_logs_spec(logs, m, c, p),
        ),
        None => Seq::empty(),
    }
}

fn project_name(projects: &[OptionItem], id: i64) -> (r: String)
    ensures
        r@ == project_name_spec(projects@, id),
{
    let n = projects.len();
    let mut i: usize = 0;
    assert(projects@.skip(0) == projects@);
    while i < n
        invariant
            n == projects@.len(),
            i <= n,
            project_name_spec(projects@, id) == project_name_spec(projects@.skip(i as int), id),
        decreases n - i,
    {
        assert(projects@.skip(i as int)[0] == projects@[i as int]);
        if projects[i].id == id {
            return projects[i].label.clone();
        }
        assert(projects@.skip(i as int).drop_first() == projects@.skip(i + 1));
        i = i + 1;
    }
    assert(projects@.skip(n as int).len() == 0);
    String::from_str(templates::SELECTED_PROJECT_FALLBACK)
}

fn report_logs(logs: Vec<WeeklyLogView>, month: i64, count: i64, project_id: i64) -> (r: Vec<
    WeeklyLogView,
>)
    ensures
        r@ == report_logs_spec(logs@, month, count, project_id),
{
    let ghost all = logs@;
    let mut out: Vec<WeeklyLogView> = Vec::new();
    for log in it: logs.into_iter()
        invariant
            it.seq() == all,
            out@ == report_logs_spec(all.take(it.index() as int), month, count, project_id),
    {
        let ghost i = it.index() as int;
        proof {
            reveal_with_fuel(Seq::<_>::filter, 1);
            assert(all.take(i + 1).drop_last() == all.take(i));
            assert(all.take(i + 1).last() == log);
        }
        if log.meeting_month == month && log.meeting_count == count && log.project_id
            == project_id {
            out.push(log);
        }
    }
    assert(all.take(all.len() as int) == all);
    out
}

/// The body of the project report page.
pub fn render_project_report_body(
    query: &ProjectReportQuery,
    projects: &[OptionItem],
    logs: Vec<WeeklyLogView>,
) -> (r: String)
    ensures
        r@ == render_project_report_body_spec(*query, projects@, logs@),
{
    let mut body = render_project_report_form(query, projects);
    match (query.meeting_month, query.meeting_count, query.project_id) {
        (Some(month), Some(count), Some(project_id)) => {
            if month > 0 && count > 0 && project_id > 0 {
                let ghost before = body@;
                let filtered = report_logs(logs, month, count, project_id);
                let name = project_name(projects, project_id);
                body.append(templates::REPORT_HEADING_0);
                push_esc(&mut body, name.as_str());
                body.append(templates::REPORT_HEADING_1);
                let label = meeting_label(month, count);
                push_esc(&mut body, label.as_str());
                body.append(templates::REPORT_HEADING_2);
                let panels = render_work_panels(filtered.as_slice());
                body.append(panels.as_str());
                return body;
            }
        },
        _ => {},
    }
    assert(body@ + Seq::<char>::empty() == body@);
    body
}

/// The statistics page: the choice form, and for a chosen meeting its table.
pub open spec fn render_attendance_body_spec(
    query: AttendanceQuery,
    persons: Seq<OptionItem>,
    logs: Seq<WeeklyLogView>,
) -> Seq<char> {
    render_attendance_form_spec(query) + match (query.meeting_month, query.meeting_count) {
        (Some(m), Some(c)) => if m > 0 && c > 0 {
            render_attendance_table_spec(persons, logs, m, c)
        } else {
            Seq::empty()
        },
        _ => Seq::empty(),
    }
}

/// The body of the statistics page.
pub fn render_attendance_body(
    query: &AttendanceQuery,
    persons: &[OptionItem],
    logs: &[WeeklyLogView],
) -> (r: String)
    ensures
        r@ == render_attendance_body_spec(*query, persons@, logs@),
{
    let mut body = render_attendance_form(query);
    match (query.meeting_month, query.meeting_count) {
        (Some(month), Some(count)) => {
            if month > 0 && count > 0 {
                let table = render_attendance_table(persons, logs, month, count);
                body.append(table.as_str());
                return body;
            }
        },
        _ => {},
    }
    assert(body@ + Seq::<char>::empty() == body@);
    body
}

/// The edit page: the prefilled form posting back to the entry's edit path,
/// or a notice when the entry does not exist.
pub open spec fn render_edit_body_spec(
    id: i64,
    log: Option<&WeeklyLogView>,
    projects: Seq<OptionItem>,
    specialties: Seq<OptionItem>,
    persons: Seq<OptionItem>,
) -> Seq<char> {
    match log {
        Some(l) => render_log_form_spec(
            templates::EDIT_PATH_0@ + int_decimal(id as int),
            templates::EDIT_TITLE@,
            Some(l),
            projects,
            specialties,
            persons,
            templates::SAVE_LABEL@,
            true,
        ),
        None => templates::LOG_NOT_FOUND@,
    }
}

/// The body of the edit page.
pub fn render_edit_body(
    id: i64,
    log: Option<&WeeklyLogView>,
    projects: &[OptionItem],
    specialties: &[OptionItem],
    persons: &[OptionItem],
) -> (r: String)
    ensures
        r@ == render_edit_body_spec(id, log, projects@, specialties@, persons@),
{
    match log {
        Some(l) => {
            let mut action = String::from_str(templates::EDIT_PATH_0);
            push_i64(&mut action, id);
            render_log_form(
                action.as_str(),
                templates::EDIT_TITLE,
                Some(l),
                projects,
                specialties,
                persons,
                templates::SAVE_LABEL,
                true,
            )
        },
        None => String::from_str(templates::LOG_NOT_FOUND),
    }
}

} // verus!
