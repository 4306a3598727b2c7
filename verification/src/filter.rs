//! Selecting log entries on the summary page.

use vstd::prelude::*;

use crate::model::{count_where, lemma_filter_count, opt_text, FilterQuery, WeeklyLogView};
use crate::templates;
use crate::text::{same_text, trim, trim_spec};

verus! {

/// A filter text counts only when it is not blank; it counts trimmed.
pub open spec fn text_present(o: Option<Seq<char>>) -> Option<Seq<char>> {
    match o {
        Some(v) => if trim_spec(v).len() > 0 {
            Some(trim_spec(v))
        } else {
            None
        },
        None => None,
    }
}

/// The trimmed text, when there is one and it is not blank.
pub fn has_text(value: &Option<String>) -> (r: Option<String>)
    ensures
        opt_text(r) == text_present(opt_text(*value)),
{
    match value {
        Some(v) => {
            let t = trim(v.as_str());
            if t.unicode_len() > 0 {
                Some(t)
            } else {
                None
            }
        },
        None => None,
    }
}

/// A numeric filter restricts only when it is present and positive.
pub open spec fn id_filter_allows(filter: Option<i64>, value: i64) -> bool {
    match filter {
        Some(f) => f > 0 ==> value == f,
        None => true,
    }
}

/// Whether a log entry passes the summary filters. The person filter matches
/// the module owner or the reporter; the progress filter `全部` matches all.
pub open spec fn log_matches(log: WeeklyLogView, q: FilterQuery) -> bool {
    &&& id_filter_allows(q.meeting_month, log.meeting_month)
    &&& id_filter_allows(q.meeting_count, log.meeting_count)
    &&& id_filter_allows(q.project_id, log.project_id)
    &&& id_filter_allows(q.specialty_id, log.specialty_id)
    &&& match q.person_id {
        Some(p) => p > 0 ==> (log.module_owner_id == p || log.completer_id == p),
        None => true,
    }
    &&& match text_present(opt_text(q.progress)) {
        Some(pg) => pg == templates::PROGRESS_ALL@ || log.progress@ == pg,
        None => true,
    }
}

/// The entries that pass the filters, in their order.
pub open spec fn filter_logs_spec(logs: Seq<WeeklyLogView>, q: FilterQuery) -> Seq<WeeklyLogView> {
    logs.filter(|l: WeeklyLogView| log_matches(l, q))
}

fn id_allows(filter: Option<i64>, value: i64) -> (r: bool)
    ensures
        r == id_filter_allows(filter, value),
{
    match filter {
        Some(f) => !(f > 0 && value != f),
        None => true,
    }
}

fn keep_log(log: &WeeklyLogView, filters: &FilterQuery, progress: &Option<String>) -> (r: bool)
    requires
        opt_text(*progress) == text_present(opt_text(filters.progress)),
    ensures
        r == log_matches(*log, *filters),
{
    if !id_allows(filters.meeting_month, log.meeting_month) {
        return false;
    }
    if !id_allows(filters.meeting_count, log.meeting_count) {
        return false;
    }
    if !id_allows(filters.project_id, log.project_id) {
        return false;
    }
    if !id_allows(filters.specialty_id, log.specialty_id) {
        return false;
    }
    match filters.person_id {
        Some(person_id) => {
            if person_id > 0 && log.module_owner_id != person_id && log.completer_id != person_id {
                return false;
            }
        },
        None => {},
    }
    match progress {
        Some(p) => {
            if !same_text(p.as_str(), templates::PROGRESS_ALL) && !same_text(
                log.progress.as_str(),
                p.as_str(),
            ) {
                return false;
            }
        },
        None => {},
    }
    true
}

/// The entries that pass the summary filters, in their order.
pub fn filter_logs(logs: Vec<WeeklyLogView>, filters: &FilterQuery) -> (r: Vec<WeeklyLogView>)
    ensures
        r@ == filter_logs_spec(logs@, *filters),
{
    let progress = has_text(&filters.progress);
    let ghost all = logs@;
    let ghost q = *filters;
    let mut out: Vec<WeeklyLogView> = Vec::new();
    for log in it: logs.into_iter()
        invariant
            it.seq() == all,
            q == *filters,
            opt_text(progress) == text_present(opt_text(filters.progress)),
            out@ == filter_logs_spec(all.take(it.index() as int), q),
    {
        let ghost i = it.index() as int;
        proof {
            reveal_with_fuel(Seq::<_>::filter, 1);
            assert(all.take(i + 1).drop_last() == all.take(i));
            assert(all.take(i + 1).last() == log);
        }
        if keep_log(&log, filters, &progress) {
            out.push(log);
        }
    }
    assert(all.take(all.len() as int) == all);
    out
}

/// Filtering again with the same filters changes nothing.
pub proof fn lemma_filter_logs_idempotent(logs: Seq<WeeklyLogView>, q: FilterQuery)
    ensures
        filter_logs_spec(filter_logs_spec(logs, q), q) == filter_logs_spec(logs, q),
    decreases logs.len(),
{
    reveal_with_fuel(Seq::<_>::filter, 1);
    if logs.len() > 0 {
        lemma_filter_logs_idempotent(logs.drop_last(), q);
        let f = filter_logs_spec(logs.drop_last(), q);
        if log_matches(logs.last(), q) {
            assert(f.push(logs.last()).drop_last() == f);
        }
    }
}

/// The summary shows exactly the entries that pass the filters: every entry
/// shown passes them and is one of the entries, every entry that passes them
/// is shown, and nothing is added.
pub proof fn lemma_filter_logs_exact(logs: Seq<WeeklyLogView>, q: FilterQuery)
    ensures
        filter_logs_spec(logs, q).len() <= logs.len(),
        forall|i: int|
            0 <= i < filter_logs_spec(logs, q).len() ==> log_matches(
                #[trigger] filter_logs_spec(logs, q)[i],
                q,
            ) && logs.contains(filter_logs_spec(logs, q)[i]),
        forall|i: int|
            0 <= i < logs.len() && log_matches(logs[i], q) ==> #[trigger] filter_logs_spec(
                logs,
                q,
            ).contains(logs[i]),
{
    broadcast use vstd::seq_lib::group_filter_ensures;

    let p = |l: WeeklyLogView| log_matches(l, q);
    let r = filter_logs_spec(logs, q);
    assert(r == logs.filter(p));
    assert forall|i: int| 0 <= i < r.len() implies log_matches(#[trigger] r[i], q) && logs.contains(
        r[i],
    ) by {
        assert(p(logs.filter(p)[i]));
        assert(r.contains(r[i]));
        logs.lemma_filter_contains_rev(p, r[i]);
    }
    assert forall|i: int| 0 <= i < logs.len() && log_matches(logs[i], q) implies #[trigger] r.contains(
        logs[i],
    ) by {
        assert(p(logs[i]));
        assert(logs.filter(p).contains(logs[i]));
    }
}

/// An entry passes the summary filters: each present positive number equals
/// the entry's (the person as module owner or as reporter), and a present
/// progress that is neither blank nor `全部` equals the entry's, both trimmed.
pub open spec fn fits_filters(l: WeeklyLogView, q: FilterQuery) -> bool {
    &&& (q.meeting_month is Some && q.meeting_month.unwrap() > 0 ==> l.meeting_month
        == q.meeting_month.unwrap())
    &&& (q.meeting_count is Some && q.meeting_count.unwrap() > 0 ==> l.meeting_count
        == q.meeting_count.unwrap())
    &&& (q.project_id is Some && q.project_id.unwrap() > 0 ==> l.project_id
        == q.project_id.unwrap())
    &&& (q.specialty_id is Some && q.specialty_id.unwrap() > 0 ==> l.specialty_id
        == q.specialty_id.unwrap())
    &&& (q.person_id is Some && q.person_id.unwrap() > 0 ==> (l.module_owner_id
        == q.person_id.unwrap() || l.completer_id == q.person_id.unwrap()))
    &&& (q.progress is Some && trim_spec(q.progress.unwrap()@).len() > 0 && trim_spec(
        q.progress.unwrap()@,
    ) != templates::PROGRESS_ALL@ ==> l.progress@ == trim_spec(q.progress.unwrap()@))
}

/// What the summary shows, filter by filter: every entry shown is one of the
/// entries and agrees with each present positive meeting month, meeting
/// number, project, specialty and person (owner or reporter) and with a real
/// progress; every entry that passes all of them is shown; and as many are
/// shown as pass.
pub proof fn lemma_filter_logs_by_field(logs: Seq<WeeklyLogView>, q: FilterQuery)
    ensures
        forall|i: int|
            0 <= i < filter_logs_spec(logs, q).len() ==> logs.contains(
                #[trigger] filter_logs_spec(logs, q)[i],
            ),
        forall|i: int|
            0 <= i < filter_logs_spec(logs, q).len() && q.meeting_month is Some
                && q.meeting_month.unwrap() > 0 ==> #[trigger] filter_logs_spec(logs, q)[i].meeting_month
                == q.meeting_month.unwrap(),
        forall|i: int|
            0 <= i < filter_logs_spec(logs, q).len() && q.meeting_count is Some
                && q.meeting_count.unwrap() > 0 ==> #[trigger] filter_logs_spec(logs, q)[i].meeting_count
                == q.meeting_count.unwrap(),
        forall|i: int|
            0 <= i < filter_logs_spec(logs, q).len() && q.project_id is Some && q.project_id.unwrap()
                > 0 ==> #[trigger] filter_logs_spec(logs, q)[i].project_id == q.project_id.unwrap(),
        forall|i: int|
            0 <= i < filter_logs_spec(logs, q).len() && q.specialty_id is Some
                && q.specialty_id.unwrap() > 0 ==> #[trigger] filter_logs_spec(logs, q)[i].specialty_id
                == q.specialty_id.unwrap(),
        forall|i: int|
            0 <= i < filter_logs_spec(logs, q).len() && q.person_id is Some && q.person_id.unwrap()
                > 0 ==> (#[trigger] filter_logs_spec(logs, q)[i].module_owner_id
                == q.person_id.unwrap() || filter_logs_spec(logs, q)[i].completer_id
                == q.person_id.unwrap()),
        forall|i: int|
            0 <= i < filter_logs_spec(logs, q).len() && q.progress is Some && trim_spec(
                q.progress.unwrap()@,
            ).len() > 0 && trim_spec(q.progress.unwrap()@) != templates::PROGRESS_ALL@
                ==> #[trigger] filter_logs_spec(logs, q)[i].progress@ == trim_spec(
                q.progress.unwrap()@,
            ),
        forall|i: int|
            0 <= i < logs.len() && fits_filters(logs[i], q) ==> #[trigger] filter_logs_spec(
                logs,
                q,
            ).contains(logs[i]),
        filter_logs_spec(logs, q).len() == count_where(logs, |l: WeeklyLogView| fits_filters(l, q)),
{
    let p = |l: WeeklyLogView| log_matches(l, q);
    let f = |l: WeeklyLogView| fits_filters(l, q);
    assert forall|l: WeeklyLogView| #[trigger] p(l) == f(l) by {}
    assert(p =~= f);
    lemma_filter_logs_exact(logs, q);
    lemma_filter_count(logs, f);
    let r = filter_logs_spec(logs, q);
    assert forall|i: int| 0 <= i < r.len() implies fits_filters(#[trigger] r[i], q) by {
        assert(log_matches(r[i], q));
    }
    assert forall|i: int| 0 <= i < logs.len() && fits_filters(logs[i], q) implies #[trigger] r.contains(
        logs[i],
    ) by {
        assert(p(logs[i]));
    }
}

/// Filters that are absent, not positive, blank or `全部` keep every entry.
pub proof fn lemma_filter_logs_unrestricted(logs: Seq<WeeklyLogView>, q: FilterQuery)
    requires
        forall|m: i64| q.meeting_month == Some(m) ==> m <= 0,
        forall|c: i64| q.meeting_count == Some(c) ==> c <= 0,
        forall|p: i64| q.project_id == Some(p) ==> p <= 0,
        forall|s: i64| q.specialty_id == Some(s) ==> s <= 0,
        forall|p: i64| q.person_id == Some(p) ==> p <= 0,
        text_present(opt_text(q.progress)) is None || text_present(opt_text(q.progress))
            == Some(templates::PROGRESS_ALL@),
    ensures
        filter_logs_spec(logs, q) == logs,
    decreases logs.len(),
{
    reveal_with_fuel(Seq::<_>::filter, 1);
    if logs.len() > 0 {
        lemma_filter_logs_unrestricted(logs.drop_last(), q);
        assert(log_matches(logs.last(), q));
        assert(logs.drop_last().push(logs.last()) == logs);
    }
}

} // verus!
