//! The summary views of stored log entries: the full table, the per-project
//! report grouped by specialty, and the submission statistics per person.

use vstd::prelude::*;

use crate::meeting::{meeting_label, meeting_label_spec};
use crate::model::{count_where, lemma_filter_count, OptionItem, WeeklyLogView};
use crate::sorted::{
    ascending, join_spec, join_texts, latest_text, lemma_sorted_distinct, lemma_text_max_greatest,
    sorted_distinct, sorted_distinct_spec, text_max, texts,
};
use crate::templates;
use crate::text::{esc_spec, fmt_usize, int_decimal, lex_lt, nat_decimal, push_esc, push_i64};
use crate::widgets::disabled_hint;

verus! {

// ---------------------------------------------------------------------------
// Full table
// ---------------------------------------------------------------------------

/// One row of the log table, with its edit link and delete form.
pub open spec fn log_row_spec(log: WeeklyLogView) -> Seq<char> {
    templates::LOG_ROW_0@ + esc_spec(meeting_label_spec(log.meeting_month, log.meeting_count))
        + templates::LOG_ROW_1@ + esc_spec(log.project_no@) + templates::LOG_ROW_2@ + esc_spec(
        log.specialty@,
    ) + templates::LOG_ROW_3@ + esc_spec(log.module_owner@) + templates::LOG_ROW_4@ + esc_spec(
        log.last_work_item@,
    ) + templates::LOG_ROW_5@ + esc_spec(log.completer@) + templates::LOG_ROW_6@ + esc_spec(
        log.progress@,
    ) + templates::LOG_ROW_7@ + esc_spec(log.reason@) + templates::LOG_ROW_8@ + esc_spec(
        log.next_work_item@,
    ) + templates::LOG_ROW_9@ + esc_spec(log.created_at@) + templates::LOG_ROW_10@ + int_decimal(
        log.id as int,
    ) + templates::LOG_ROW_11@ + int_decimal(log.id as int) + templates::LOG_ROW_12@
}

pub open spec fn log_rows_spec(logs: Seq<WeeklyLogView>) -> Seq<char>
    decreases logs.len(),
{
    if logs.len() == 0 {
        Seq::empty()
    } else {
        log_rows_spec(logs.drop_last()) + log_row_spec(logs.last())
    }
}

/// The table of all given entries, or a "no records" row.
pub open spec fn render_table_spec(logs: Seq<WeeklyLogView>) -> Seq<char> {
    templates::LOG_TABLE_0@ + (if logs.len() == 0 {
        templates::NO_LOGS_ROW@
    } else {
        log_rows_spec(logs)
    }) + templates::LOG_TABLE_1@
}

fn push_log_row(out: &mut String, log: &WeeklyLogView)
    ensures
        final(out)@ == old(out)@ + log_row_spec(*log),
{
    let ghost before = out@;
    out.append(templates::LOG_ROW_0);
    let label = meeting_label(log.meeting_month, log.meeting_count);
    push_esc(out, label.as_str());
    out.append(templates::LOG_ROW_1);
    push_esc(out, log.project_no.as_str());
    out.append(templates::LOG_ROW_2);
    push_esc(out, log.specialty.as_str());
    out.append(templates::LOG_ROW_3);
    push_esc(out, log.module_owner.as_str());
    out.append(templates::LOG_ROW_4);
    push_esc(out, log.last_work_item.as_str());
    out.append(templates::LOG_ROW_5);
    push_esc(out, log.completer.as_str());
    out.append(templates::LOG_ROW_6);
    push_esc(out, log.progress.as_str());
    out.append(templates::LOG_ROW_7);
    push_esc(out, log.reason.as_str());
    out.append(templates::LOG_ROW_8);
    push_esc(out, log.next_work_item.as_str());
    out.append(templates::LOG_ROW_9);
    push_esc(out, log.created_at.as_str());
    out.append(templates::LOG_ROW_10);
    push_i64(out, log.id);
    out.append(templates::LOG_ROW_11);
    push_i64(out, log.id);
    out.append(templates::LOG_ROW_12);
    assert(out@ =~= before + log_row_spec(*log));
}

/// The table of log entries on the summary page.
pub fn render_table(logs: &[WeeklyLogView]) -> (r: String)
    ensures
        r@ == render_table_spec(logs@),
{
    let mut rows = String::new();
    let n = logs.len();
    let mut i: usize = 0;
    while i < n
        invariant
            n == logs@.len(),
            i <= n,
            rows@ == log_rows_spec(logs@.take(i as int)),
        decreases n - i,
    {
        assert(logs@.take(i + 1).drop_last() == logs@.take(i as int));
        push_log_row(&mut rows, &logs[i]);
        i = i + 1;
    }
    assert(logs@.take(n as int) == logs@);
    if n == 0 {
        rows.append(templates::NO_LOGS_ROW);
        assert(rows@ =~= templates::NO_LOGS_ROW@);
    }
    let mut html = String::from_str(templates::LOG_TABLE_0);
    html.append(rows.as_str());
    html.append(templates::LOG_TABLE_1);
    html
}

// ---------------------------------------------------------------------------
// Work panels grouped by specialty
// ---------------------------------------------------------------------------

/// The specialties of the entries.
pub open spec fn specialties_of(logs: Seq<WeeklyLogView>) -> Seq<Seq<char>> {
    logs.map_values(|l: WeeklyLogView| l.specialty@)
}

/// The specialties a report groups by: each one once, in ascending order.
pub open spec fn group_keys(logs: Seq<WeeklyLogView>) -> Seq<Seq<char>> {
    sorted_distinct_spec(specialties_of(logs))
}

/// The entries of one specialty, in their order.
pub open spec fn group_spec(logs: Seq<WeeklyLogView>, key: Seq<char>) -> Seq<WeeklyLogView> {
    logs.filter(|l: WeeklyLogView| l.specialty@ == key)
}

/// An entry in the "last week" panel: progress, project, reporter, owner,
/// the work done and the reason.
pub open spec fn last_item_spec(log: WeeklyLogView) -> Seq<char> {
    templates::LAST_WORK_ITEM_0@ + esc_spec(log.progress@) + templates::LAST_WORK_ITEM_1@ + esc_spec(
        log.project_no@,
    ) + templates::LAST_WORK_ITEM_2@ + esc_spec(log.completer@) + templates::LAST_WORK_ITEM_3@
        + esc_spec(log.module_owner@) + templates::LAST_WORK_ITEM_4@ + esc_spec(
        log.last_work_item@,
    ) + templates::LAST_WORK_ITEM_5@ + esc_spec(log.reason@) + templates::LAST_WORK_ITEM_6@
}

/// An entry in the "this week" panel: project, reporter and the plan.
pub open spec fn next_item_spec(log: WeeklyLogView) -> Seq<char> {
    templates::NEXT_WORK_ITEM_0@ + esc_spec(log.project_no@) + templates::NEXT_WORK_ITEM_1@
        + esc_spec(log.completer@) + templates::NEXT_WORK_ITEM_2@ + esc_spec(log.next_work_item@)
        + templates::NEXT_WORK_ITEM_3@
}

pub open spec fn last_items_spec(logs: Seq<WeeklyLogView>) -> Seq<char>
    decreases logs.len(),
{
    if logs.len() == 0 {
        Seq::empty()
    } else {
        last_items_spec(logs.drop_last()) + last_item_spec(logs.last())
    }
}

pub open spec fn next_items_spec(logs: Seq<WeeklyLogView>) -> Seq<char>
    decreases logs.len(),
{
    if logs.len() == 0 {
        Seq::empty()
    } else {
        next_items_spec(logs.drop_last()) + next_item_spec(logs.last())
    }
}

pub open spec fn group_head_spec(key: Seq<char>) -> Seq<char> {
    templates::WORK_GROUP_0@ + esc_spec(key) + templates::WORK_GROUP_1@
}

/// The "last week" groups for the given specialties.
pub open spec fn last_groups_spec(logs: Seq<WeeklyLogView>, keys: Seq<Seq<char>>) -> Seq<char>
    decreases keys.len(),
{
    if keys.len() == 0 {
        Seq::empty()
    } else {
        last_groups_spec(logs, keys.drop_last()) + group_head_spec(keys.last()) + last_items_spec(
            group_spec(logs, keys.last()),
        ) + templates::DIV_CLOSE@
    }
}

/// The "this week" groups for the given specialties.
pub open spec fn next_groups_spec(logs: Seq<WeeklyLogView>, keys: Seq<Seq<char>>) -> Seq<char>
    decreases keys.len(),
{
    if keys.len() == 0 {
        Seq::empty()
    } else {
        next_groups_spec(logs, keys.drop_last()) + group_head_spec(keys.last()) + next_items_spec(
            group_spec(logs, keys.last()),
        ) + templates::DIV_CLOSE@
    }
}

/// The two panels side by side: last week's work and this week's plan, each
/// grouped by specialty in ascending order, entries in their given order.
pub open spec fn render_work_panels_spec(logs: Seq<WeeklyLogView>) -> Seq<char> {
    let keys = group_keys(logs);
    let empty_note = if logs.len() == 0 {
        templates::NO_RECORDS@
    } else {
        Seq::empty()
    };
    templates::WORK_PANELS_0@ + last_groups_spec(logs, keys) + empty_note + templates::WORK_PANELS_1@
        + next_groups_spec(logs, keys) + empty_note + templates::WORK_PANELS_2@
}

/// A project report shows every entry in the group of its own specialty:
/// the groups are the specialties of the entries, each once and in ascending
/// order, none of them empty; an entry is in a group exactly when it has that
/// specialty, and each group holds only given entries.
pub proof fn lemma_work_groups_partition(logs: Seq<WeeklyLogView>)
    ensures
        ascending(group_keys(logs)),
        forall|j: int| 0 <= j < group_keys(logs).len() ==> #[trigger] group_spec(logs, group_keys(logs)[j]).len() > 0,
        forall|i: int|
            0 <= i < logs.len() ==> group_keys(logs).contains(#[trigger] logs[i].specialty@)
                && group_spec(logs, logs[i].specialty@).contains(logs[i]),
        forall|k: Seq<char>, l: WeeklyLogView|
            #[trigger] group_spec(logs, k).contains(l) ==> l.specialty@ == k && logs.contains(l),
{
    broadcast use vstd::seq_lib::group_filter_ensures;

    let keys = group_keys(logs);
    let names = specialties_of(logs);
    lemma_sorted_distinct(names);
    assert forall|j: int| 0 <= j < keys.len() implies #[trigger] group_spec(logs, keys[j]).len() > 0 by {
        assert(keys.contains(keys[j]));
        assert(names.contains(keys[j]));
        let i = choose|i: int| 0 <= i < names.len() && names[i] == keys[j];
        let p = |l: WeeklyLogView| l.specialty@ == keys[j];
        assert(p(logs[i]));
        assert(logs.filter(p).contains(logs[i]));
    }
    assert forall|i: int| 0 <= i < logs.len() implies group_keys(logs).contains(
        #[trigger] logs[i].specialty@,
    ) && group_spec(logs, logs[i].specialty@).contains(logs[i]) by {
        assert(names[i] == logs[i].specialty@);
        assert(names.contains(names[i]));
        let p = |l: WeeklyLogView| l.specialty@ == logs[i].specialty@;
        assert(p(logs[i]));
        assert(logs.filter(p).contains(logs[i]));
    }
    assert forall|k: Seq<char>, l: WeeklyLogView| #[trigger] group_spec(logs, k).contains(
        l,
    ) implies l.specialty@ == k && logs.contains(l) by {
        let p = |m: WeeklyLogView| m.specialty@ == k;
        let g = logs.filter(p);
        let q = choose|q: int| 0 <= q < g.len() && g[q] == l;
        assert(p(g[q]));
        logs.lemma_filter_contains_rev(p, l);
    }
}

fn push_last_item(out: &mut String, log: &WeeklyLogView)
    ensures
        final(out)@ == old(out)@ + last_item_spec(*log),
{
    let ghost before = out@;
    out.append(templates::LAST_WORK_ITEM_0);
    push_esc(out, log.progress.as_str());
    out.append(templates::LAST_WORK_ITEM_1);
    push_esc(out, log.project_no.as_str());
    out.append(templates::LAST_WORK_ITEM_2);
    push_esc(out, log.completer.as_str());
    out.append(templates::LAST_WORK_ITEM_3);
    push_esc(out, log.module_owner.as_str());
    out.append(templates::LAST_WORK_ITEM_4);
    push_esc(out, log.last_work_item.as_str());
    out.append(templates::LAST_WORK_ITEM_5);
    push_esc(out, log.reason.as_str());
    out.append(templates::LAST_WORK_ITEM_6);
    assert(out@ =~= before + last_item_spec(*log));
}

fn push_next_item(out: &mut String, log: &WeeklyLogView)
    ensures
        final(out)@ == old(out)@ + next_item_spec(*log),
{
    let ghost before = out@;
    out.append(templates::NEXT_WORK_ITEM_0);
    push_esc(out, log.project_no.as_str());
    out.append(templates::NEXT_WORK_ITEM_1);
    push_esc(out, log.completer.as_str());
    out.append(templates::NEXT_WORK_ITEM_2);
    push_esc(out, log.next_work_item.as_str());
    out.append(templates::NEXT_WORK_ITEM_3);
    assert(out@ =~= before + next_item_spec(*log));
}

/// Appends the group of one specialty to both panels.
fn push_group(last: &mut String, next: &mut String, logs: &[WeeklyLogView], key: &String)
    ensures
        final(last)@ == old(last)@ + group_head_spec(key@) + last_items_spec(
            group_spec(logs@, key@),
        ) + templates::DIV_CLOSE@,
        final(next)@ == old(next)@ + group_head_spec(key@) + next_items_spec(
            group_spec(logs@, key@),
        ) + templates::DIV_CLOSE@,
{
    last.append(templates::WORK_GROUP_0);
    push_esc(last, key.as_str());
    last.append(templates::WORK_GROUP_1);
    next.append(templates::WORK_GROUP_0);
    push_esc(next, key.as_str());
    next.append(templates::WORK_GROUP_1);
    let ghost last_head = last@;
    let ghost next_head = next@;
    let ghost k = key@;
    let n = logs.len();
    let mut j: usize = 0;
    while j < n
        invariant
            n == logs@.len(),
            j <= n,
            k == key@,
            last@ == last_head + last_items_spec(group_spec(logs@.take(j as int), k)),
            next@ == next_head + next_items_spec(group_spec(logs@.take(j as int), k)),
        decreases n - j,
    {
        let log = &logs[j];
        proof {
            reveal_with_fuel(Seq::<_>::filter, 1);
            assert(logs@.take(j + 1).drop_last() == logs@.take(j as int));
            assert(logs@.take(j + 1).last() == *log);
        }
        if log.specialty == *key {
            let ghost g = group_spec(logs@.take(j as int), k);
            assert(g.push(*log).drop_last() == g);
            push_last_item(last, log);
            push_next_item(next, log);
        }
        j = j + 1;
    }
    assert(logs@.take(n as int) == logs@);
    last.append(templates::DIV_CLOSE);
    next.append(templates::DIV_CLOSE);
}

/// The two work panels of a project report.
pub fn render_work_panels(logs: &[WeeklyLogView]) -> (r: String)
    ensures
        r@ == render_work_panels_spec(logs@),
{
    let mut names: Vec<String> = Vec::new();
    let n = logs.len();
    let mut i: usize = 0;
    while i < n
        invariant
            n == logs@.len(),
            i <= n,
            texts(names@) == specialties_of(logs@.take(i as int)),
        decreases n - i,
    {
        names.push(logs[i].specialty.clone());
        assert(specialties_of(logs@.take(i + 1)) =~= specialties_of(logs@.take(i as int)).push(
            logs@[i as int].specialty@,
        ));
        assert(texts(names@) =~= specialties_of(logs@.take(i + 1)));
        i = i + 1;
    }
    assert(logs@.take(n as int) == logs@);
    let keys = sorted_distinct(&names);
    let mut last_html = String::new();
    let mut next_html = String::new();
    let m = keys.len();
    let mut g: usize = 0;
    while g < m
        invariant
            m == keys@.len(),
            g <= m,
            last_html@ == last_groups_spec(logs@, texts(keys@).take(g as int)),
            next_html@ == next_groups_spec(logs@, texts(keys@).take(g as int)),
        decreases m - g,
    {
        assert(texts(keys@).take(g + 1).drop_last() == texts(keys@).take(g as int));
        assert(texts(keys@).take(g + 1).last() == keys@[g as int]@);
        push_group(&mut last_html, &mut next_html, logs, &keys[g]);
        g = g + 1;
    }
    assert(texts(keys@).take(m as int) == texts(keys@));
    if n == 0 {
        last_html.append(templates::NO_RECORDS);
        next_html.append(templates::NO_RECORDS);
    } else {
        assert(last_html@ + Seq::<char>::empty() == last_html@);
        assert(next_html@ + Seq::<char>::empty() == next_html@);
    }
    let mut html = String::from_str(templates::WORK_PANELS_0);
    html.append(last_html.as_str());
    html.append(templates::WORK_PANELS_1);
    html.append(next_html.as_str());
    html.append(templates::WORK_PANELS_2);
    html
}

// ---------------------------------------------------------------------------
// Submission statistics
// ---------------------------------------------------------------------------

/// The entries a person reported for the given meeting.
pub open spec fn person_logs_spec(logs: Seq<WeeklyLogView>, month: i64, count: i64, person_id: i64) -> Seq<
    WeeklyLogView,
> {
    logs.filter(
        |l: WeeklyLogView|
            l.meeting_month == month && l.meeting_count == count && l.completer_id == person_id,
    )
}

/// The cells of a statistics row from their contents.
pub open spec fn attendance_row_text(
    person: OptionItem,
    n: nat,
    projects: Seq<char>,
    specialties: Seq<char>,
    latest: Seq<char>,
) -> Seq<char> {
    templates::ATTENDANCE_ROW_0@ + esc_spec(person.label@) + disabled_hint(person.is_active)
        + templates::ATTENDANCE_ROW_2@ + (if n == 0 {
        templates::NOT_FILED@
    } else {
        templates::FILED@
    }) + templates::ATTENDANCE_ROW_3@ + nat_decimal(n) + templates::ATTENDANCE_ROW_4@ + esc_spec(
        projects,
    ) + templates::ATTENDANCE_ROW_5@ + esc_spec(specialties) + templates::ATTENDANCE_ROW_6@
        + esc_spec(latest) + templates::ATTENDANCE_ROW_7@
}

fn push_attendance_cells(
    out: &mut String,
    person: &OptionItem,
    found: usize,
    projects: &str,
    specialties: &str,
    latest: &str,
)
    ensures
        final(out)@ == old(out)@ + attendance_row_text(
            *person,
            found as nat,
            projects@,
            specialties@,
            latest@,
        ),
{
    let ghost before = out@;
    out.append(templates::ATTENDANCE_ROW_0);
    push_esc(out, person.label.as_str());
    if !person.is_active {
        out.append(templates::DISABLED_HINT);
    }
    out.append(templates::ATTENDANCE_ROW_2);
    if found == 0 {
        out.append(templates::NOT_FILED);
    } else {
        out.append(templates::FILED);
    }
    out.append(templates::ATTENDANCE_ROW_3);
    let c = fmt_usize(found);
    out.append(c.as_str());
    out.append(templates::ATTENDANCE_ROW_4);
    push_esc(out, projects);
    out.append(templates::ATTENDANCE_ROW_5);
    push_esc(out, specialties);
    out.append(templates::ATTENDANCE_ROW_6);
    push_esc(out, latest);
    out.append(templates::ATTENDANCE_ROW_7);
    assert(out@ =~= before + attendance_row_text(
        *person,
        found as nat,
        projects@,
        specialties@,
        latest@,
    ));
}

/// One row of the statistics: the person (marked when disabled), whether
/// they reported, how many entries, their distinct projects and specialties
/// in ascending order joined by `、`, and the latest submission time or `-`.
pub open spec fn attendance_row_spec(
    person: OptionItem,
    logs: Seq<WeeklyLogView>,
    month: i64,
    count: i64,
) -> Seq<char> {
    let pl = person_logs_spec(logs, month, count, person.id);
    let projects = sorted_distinct_spec(pl.map_values(|l: WeeklyLogView| l.project_no@));
    let specialties = sorted_distinct_spec(pl.map_values(|l: WeeklyLogView| l.specialty@));
    let latest = match text_max(pl.map_values(|l: WeeklyLogView| l.created_at@)) {
        Some(t) => t,
        None => templates::NO_SUBMISSION@,
    };
    attendance_row_text(
        person,
        pl.len(),
        join_spec(projects, templates::LIST_SEP@),
        join_spec(specialties, templates::LIST_SEP@),
        latest,
    )
}

/// The number of entries of a meeting whose reporter is `person_id`.
pub open spec fn reported_by(logs: Seq<WeeklyLogView>, month: i64, count: i64, person_id: i64) -> nat {
    count_where(
        logs,
        |l: WeeklyLogView|
            l.meeting_month == month && l.meeting_count == count && l.completer_id == person_id,
    )
}

/// The statistics count a person's entries by reporter only: every entry
/// counted for a person is one of the entries, of the chosen meeting, with the
/// person as reporter; every such entry is counted; and a person's row shows
/// `已填报` or `未填报` and the number of entries of the meeting whose reporter
/// the person is.
pub proof fn lemma_attendance_counts_reporter(
    person: OptionItem,
    logs: Seq<WeeklyLogView>,
    month: i64,
    count: i64,
)
    ensures
        forall|i: int|
            0 <= i < person_logs_spec(logs, month, count, person.id).len() ==> {
                let l = #[trigger] person_logs_spec(logs, month, count, person.id)[i];
                &&& l.meeting_month == month
                &&& l.meeting_count == count
                &&& l.completer_id == person.id
                &&& logs.contains(l)
            },
        forall|i: int|
            0 <= i < logs.len() && logs[i].meeting_month == month && logs[i].meeting_count == count
                && logs[i].completer_id == person.id ==> #[trigger] person_logs_spec(
                logs,
                month,
                count,
                person.id,
            ).contains(logs[i]),
        exists|projects: Seq<char>, specialties: Seq<char>, latest: Seq<char>|
            attendance_row_spec(person, logs, month, count) == #[trigger] attendance_row_text(
                person,
                reported_by(logs, month, count, person.id),
                projects,
                specialties,
                latest,
            ),
{
    broadcast use vstd::seq_lib::group_filter_ensures;

    let p = |l: WeeklyLogView|
        l.meeting_month == month && l.meeting_count == count && l.completer_id == person.id;
    let r = person_logs_spec(logs, month, count, person.id);
    assert(r == logs.filter(p));
    lemma_filter_count(logs, p);
    assert forall|i: int| 0 <= i < r.len() implies {
        let l = #[trigger] r[i];
        &&& l.meeting_month == month
        &&& l.meeting_count == count
        &&& l.completer_id == person.id
        &&& logs.contains(l)
    } by {
        assert(p(logs.filter(p)[i]));
        assert(r.contains(r[i]));
        logs.lemma_filter_contains_rev(p, r[i]);
    }
    assert forall|i: int|
        0 <= i < logs.len() && logs[i].meeting_month == month && logs[i].meeting_count == count
            && logs[i].completer_id == person.id implies #[trigger] r.contains(logs[i]) by {
        assert(p(logs[i]));
        assert(logs.filter(p).contains(logs[i]));
    }
    let projects = join_spec(
        sorted_distinct_spec(r.map_values(|l: WeeklyLogView| l.project_no@)),
        templates::LIST_SEP@,
    );
    let specialties = join_spec(
        sorted_distinct_spec(r.map_values(|l: WeeklyLogView| l.specialty@)),
        templates::LIST_SEP@,
    );
    let latest = match text_max(r.map_values(|l: WeeklyLogView| l.created_at@)) {
        Some(t) => t,
        None => templates::NO_SUBMISSION@,
    };
    assert(reported_by(logs, month, count, person.id) == r.len());
    assert(attendance_row_spec(person, logs, month, count) == attendance_row_text(
        person,
        reported_by(logs, month, count, person.id),
        projects,
        specialties,
        latest,
    ));
}

/// Entry `l` belongs to meeting `month`/`count` and was reported by `person_id`.
pub open spec fn reported_entry(l: WeeklyLogView, month: i64, count: i64, person_id: i64) -> bool {
    l.meeting_month == month && l.meeting_count == count && l.completer_id == person_id
}

/// `keys` lists, ascending and each once, the values `f` takes on the entries
/// of the meeting reported by `person_id`.
pub open spec fn lists_reported_values(
    keys: Seq<Seq<char>>,
    logs: Seq<WeeklyLogView>,
    month: i64,
    count: i64,
    person_id: i64,
    f: spec_fn(WeeklyLogView) -> Seq<char>,
) -> bool {
    &&& ascending(keys)
    &&& forall|x: Seq<char>|
        #[trigger] keys.contains(x) <==> exists|i: int|
            0 <= i < logs.len() && reported_entry(logs[i], month, count, person_id) && f(
                #[trigger] logs[i],
            ) == x
}

/// `latest` is the greatest submission time of the entries of the meeting
/// reported by `person_id`, or `-` when there is none.
pub open spec fn is_latest_time(
    latest: Seq<char>,
    logs: Seq<WeeklyLogView>,
    month: i64,
    count: i64,
    person_id: i64,
) -> bool {
    if reported_by(logs, month, count, person_id) == 0 {
        latest == templates::NO_SUBMISSION@
    } else {
        &&& exists|i: int|
            0 <= i < logs.len() && reported_entry(#[trigger] logs[i], month, count, person_id)
                && logs[i].created_at@ == latest
        &&& forall|i: int|
            0 <= i < logs.len() && reported_entry(#[trigger] logs[i], month, count, person_id)
                ==> !lex_lt(latest, logs[i].created_at@)
    }
}

proof fn lemma_reported_values(
    logs: Seq<WeeklyLogView>,
    month: i64,
    count: i64,
    person_id: i64,
    f: spec_fn(WeeklyLogView) -> Seq<char>,
)
    ensures
        forall|x: Seq<char>|
            #[trigger] person_logs_spec(logs, month, count, person_id).map_values(f).contains(x)
                <==> exists|i: int|
                0 <= i < logs.len() && reported_entry(logs[i], month, count, person_id) && f(
                    #[trigger] logs[i],
                ) == x,
{
    broadcast use vstd::seq_lib::group_filter_ensures;

    let p = |l: WeeklyLogView|
        l.meeting_month == month && l.meeting_count == count && l.completer_id == person_id;
    let r = person_logs_spec(logs, month, count, person_id);
    assert(r == logs.filter(p));
    let v = r.map_values(f);
    assert forall|x: Seq<char>| #[trigger] v.contains(x) <==> exists|i: int|
        0 <= i < logs.len() && reported_entry(logs[i], month, count, person_id) && f(
            #[trigger] logs[i],
        ) == x by {
        if v.contains(x) {
            let j = choose|j: int| 0 <= j < v.len() && v[j] == x;
            assert(p(logs.filter(p)[j]));
            assert(r.contains(r[j]));
            logs.lemma_filter_contains_rev(p, r[j]);
            let i = choose|i: int| 0 <= i < logs.len() && logs[i] == r[j];
            assert(reported_entry(logs[i], month, count, person_id) && f(logs[i]) == x);
        }
        if exists|i: int|
            0 <= i < logs.len() && reported_entry(logs[i], month, count, person_id) && f(
                #[trigger] logs[i],
            ) == x {
            let i = choose|i: int|
                0 <= i < logs.len() && reported_entry(logs[i], month, count, person_id) && f(
                    #[trigger] logs[i],
                ) == x;
            assert(p(logs[i]));
            assert(r.contains(logs[i]));
            let j = choose|j: int| 0 <= j < r.len() && r[j] == logs[i];
            assert(v[j] == x);
        }
    }
}

/// The cells of a person's statistics row: the projects cell joins by `、`
/// the distinct project numbers of the entries of the meeting the person
/// reported, in ascending order; the specialties cell likewise; the last cell
/// is the latest submission time among those entries, or `-`.
pub proof fn lemma_attendance_row_contents(
    person: OptionItem,
    logs: Seq<WeeklyLogView>,
    month: i64,
    count: i64,
)
    ensures
        exists|projects: Seq<Seq<char>>, specialties: Seq<Seq<char>>, latest: Seq<char>|
            {
                &&& attendance_row_spec(person, logs, month, count) == #[trigger] attendance_row_text(
                    person,
                    reported_by(logs, month, count, person.id),
                    join_spec(projects, templates::LIST_SEP@),
                    join_spec(specialties, templates::LIST_SEP@),
                    latest,
                )
                &&& lists_reported_values(
                    projects,
                    logs,
                    month,
                    count,
                    person.id,
                    |l: WeeklyLogView| l.project_no@,
                )
                &&& lists_reported_values(
                    specialties,
                    logs,
                    month,
                    count,
                    person.id,
                    |l: WeeklyLogView| l.specialty@,
                )
                &&& is_latest_time(latest, logs, month, count, person.id)
            },
{
    lemma_attendance_counts_reporter(person, logs, month, count);
    let r = person_logs_spec(logs, month, count, person.id);
    lemma_filter_count(
        logs,
        |l: WeeklyLogView|
            l.meeting_month == month && l.meeting_count == count && l.completer_id == person.id,
    );
    assert(reported_by(logs, month, count, person.id) == r.len());
    let fp = |l: WeeklyLogView| l.project_no@;
    let fs = |l: WeeklyLogView| l.specialty@;
    let ft = |l: WeeklyLogView| l.created_at@;
    let kp = sorted_distinct_spec(r.map_values(fp));
    let ks = sorted_distinct_spec(r.map_values(fs));
    lemma_sorted_distinct(r.map_values(fp));
    lemma_sorted_distinct(r.map_values(fs));
    lemma_reported_values(logs, month, count, person.id, fp);
    lemma_reported_values(logs, month, count, person.id, fs);
    lemma_reported_values(logs, month, count, person.id, ft);
    let times = r.map_values(ft);
    lemma_text_max_greatest(times);
    let latest = match text_max(times) {
        Some(t) => t,
        None => templates::NO_SUBMISSION@,
    };
    assert(lists_reported_values(kp, logs, month, count, person.id, fp));
    assert(lists_reported_values(ks, logs, month, count, person.id, fs));
    if r.len() > 0 {
        assert(times.contains(latest));
        assert forall|i: int|
            0 <= i < logs.len() && reported_entry(#[trigger] logs[i], month, count, person.id)
                implies !lex_lt(latest, logs[i].created_at@) by {
            assert(times.contains(ft(logs[i])));
            let j = choose|j: int| 0 <= j < times.len() && times[j] == ft(logs[i]);
            assert(!lex_lt(latest, times[j]));
        }
    }
    assert(is_latest_time(latest, logs, month, count, person.id));
    assert(attendance_row_spec(person, logs, month, count) == attendance_row_text(
        person,
        reported_by(logs, month, count, person.id),
        join_spec(kp, templates::LIST_SEP@),
        join_spec(ks, templates::LIST_SEP@),
        latest,
    ));
}

pub open spec fn attendance_rows_spec(
    persons: Seq<OptionItem>,
    logs: Seq<WeeklyLogView>,
    month: i64,
    count: i64,
) -> Seq<char>
    decreases persons.len(),
{
    if persons.len() == 0 {
        Seq::empty()
    } else {
        attendance_rows_spec(persons.drop_last(), logs, month, count) + attendance_row_spec(
            persons.last(),
            logs,
            month,
            count,
        )
    }
}

/// The statistics table of one meeting: a row per person of the list.
pub open spec fn render_attendance_table_spec(
    persons: Seq<OptionItem>,
    logs: Seq<WeeklyLogView>,
    month: i64,
    count: i64,
) -> Seq<char> {
    templates::ATTENDANCE_TABLE_0@ + esc_spec(meeting_label_spec(month, count))
        + templates::ATTENDANCE_TABLE_1@ + (if persons.len() == 0 {
        templates::NO_PERSONS_ROW@
    } else {
        attendance_rows_spec(persons, logs, month, count)
    }) + templates::ATTENDANCE_TABLE_2@
}

/// The projects, specialties and submission times of a person's entries for
/// a meeting, and how many entries there are.
fn person_entries(logs: &[WeeklyLogView], month: i64, count: i64, person_id: i64) -> (r: (
    Vec<String>,
    Vec<String>,
    Vec<String>,
    usize,
))
    ensures
        texts(r.0@) == person_logs_spec(logs@, month, count, person_id).map_values(
            |l: WeeklyLogView| l.project_no@,
        ),
        texts(r.1@) == person_logs_spec(logs@, month, count, person_id).map_values(
            |l: WeeklyLogView| l.specialty@,
        ),
        texts(r.2@) == person_logs_spec(logs@, month, count, person_id).map_values(
            |l: WeeklyLogView| l.created_at@,
        ),
        r.3 == person_logs_spec(logs@, month, count, person_id).len(),
{
    let ghost pred = |l: WeeklyLogView|
        l.meeting_month == month && l.meeting_count == count && l.completer_id == person_id;
    let mut projects: Vec<String> = Vec::new();
    let mut specialties: Vec<String> = Vec::new();
    let mut times: Vec<String> = Vec::new();
    let mut found: usize = 0;
    let n = logs.len();
    let mut j: usize = 0;
    while j < n
        invariant
            n == logs@.len(),
            j <= n,
            pred == (|l: WeeklyLogView|
                l.meeting_month == month && l.meeting_count == count && l.completer_id
                    == person_id),
            found == logs@.take(j as int).filter(pred).len(),
            found <= j,
            texts(projects@) == logs@.take(j as int).filter(pred).map_values(
                |l: WeeklyLogView| l.project_no@,
            ),
            texts(specialties@) == logs@.take(j as int).filter(pred).map_values(
                |l: WeeklyLogView| l.specialty@,
            ),
            texts(times@) == logs@.take(j as int).filter(pred).map_values(
                |l: WeeklyLogView| l.created_at@,
            ),
        decreases n - j,
    {
        let log = &logs[j];
        let ghost f = logs@.take(j as int).filter(pred);
        proof {
            reveal_with_fuel(Seq::<_>::filter, 1);
            assert(logs@.take(j + 1).drop_last() == logs@.take(j as int));
            assert(logs@.take(j + 1).last() == *log);
        }
        if log.meeting_month == month && log.meeting_count == count && log.completer_id
            == person_id {
            let ghost old_p = projects@;
            let ghost old_s = specialties@;
            let ghost old_t = times@;
            projects.push(log.project_no.clone());
            specialties.push(log.specialty.clone());
            times.push(log.created_at.clone());
            assert(texts(projects@) =~= texts(old_p).push(log.project_no@));
            assert(texts(specialties@) =~= texts(old_s).push(log.specialty@));
            assert(texts(times@) =~= texts(old_t).push(log.created_at@));
            found = found + 1;
            assert(f.push(*log).map_values(|l: WeeklyLogView| l.project_no@) =~= f.map_values(
                |l: WeeklyLogView| l.project_no@,
            ).push(log.project_no@));
            assert(f.push(*log).map_values(|l: WeeklyLogView| l.specialty@) =~= f.map_values(
                |l: WeeklyLogView| l.specialty@,
            ).push(log.specialty@));
            assert(f.push(*log).map_values(|l: WeeklyLogView| l.created_at@) =~= f.map_values(
                |l: WeeklyLogView| l.created_at@,
            ).push(log.created_at@));
        }
        j = j + 1;
    }
    assert(logs@.take(n as int) == logs@);
    (projects, specialties, times, found)
}

fn push_attendance_row(
    out: &mut String,
    person: &OptionItem,
    logs: &[WeeklyLogView],
    month: i64,
    count: i64,
)
    ensures
        final(out)@ == old(out)@ + attendance_row_spec(*person, logs@, month, count),
{
    let (projects, specialties, times, found) = person_entries(logs, month, count, person.id);
    let ghost pl = person_logs_spec(logs@, month, count, person.id);
    let project_list = join_texts(&sorted_distinct(&projects), templates::LIST_SEP);
    let specialty_list = join_texts(&sorted_distinct(&specialties), templates::LIST_SEP);
    let latest: String = match latest_text(&times) {
        Some(t) => t,
        None => String::from_str(templates::NO_SUBMISSION),
    };
    let ghost latest_spec = match text_max(pl.map_values(|l: WeeklyLogView| l.created_at@)) {
        Some(t) => t,
        None => templates::NO_SUBMISSION@,
    };
    assert(latest@ == latest_spec);
    push_attendance_cells(
        out,
        person,
        found,
        project_list.as_str(),
        specialty_list.as_str(),
        latest.as_str(),
    );
}

/// The submission statistics of one meeting.
pub fn render_attendance_table(persons: &[OptionItem], logs: &[WeeklyLogView], month: i64, count: i64) -> (r:
    String)
    ensures
        r@ == render_attendance_table_spec(persons@, logs@, month, count),
{
    let mut rows = String::new();
    let n = persons.len();
    let mut i: usize = 0;
    while i < n
        invariant
            n == persons@.len(),
            i <= n,
            rows@ == attendance_rows_spec(persons@.take(i as int), logs@, month, count),
        decreases n - i,
    {
        assert(persons@.take(i + 1).drop_last() == persons@.take(i as int));
        push_attendance_row(&mut rows, &persons[i], logs, month, count);
        i = i + 1;
    }
    assert(persons@.take(n as int) == persons@);
    if n == 0 {
        rows.append(templates::NO_PERSONS_ROW);
        assert(rows@ =~= templates::NO_PERSONS_ROW@);
    }
    let mut html = String::from_str(templates::ATTENDANCE_TABLE_0);
    let label = meeting_label(month, count);
    push_esc(&mut html, label.as_str());
    html.append(templates::ATTENDANCE_TABLE_1);
    html.append(rows.as_str());
    html.append(templates::ATTENDANCE_TABLE_2);
    html
}

} // verus!
