//! The values a log entry is stored with.

use vstd::prelude::*;

use crate::meeting::{meeting_label, meeting_label_spec};
use crate::model::WeeklyLogForm;
use crate::text::{trim, trim_spec};

verus! {

/// The column values of a stored log entry. The meeting name also fills the
/// two date columns of older databases; the next owner is the reporter.
pub struct LogRow {
    pub legacy_period: String,
    pub meeting_month: i64,
    pub meeting_count: i64,
    pub project_id: i64,
    pub specialty_id: i64,
    pub module_owner_id: i64,
    pub last_work_item: String,
    pub completer_id: i64,
    pub progress: String,
    pub reason: String,
    pub next_work_item: String,
    pub next_owner_id: i64,
}

/// The values to store for a submitted work item: its texts trimmed, the
/// meeting name as the legacy period, the reporter as the next owner.
pub fn log_row(form: &WeeklyLogForm) -> (r: LogRow)
    ensures
        r.legacy_period@ == meeting_label_spec(form.meeting_month, form.meeting_count),
        r.meeting_month == form.meeting_month,
        r.meeting_count == form.meeting_count,
        r.project_id == form.project_id,
        r.specialty_id == form.specialty_id,
        r.module_owner_id == form.module_owner_id,
        r.last_work_item@ == trim_spec(form.last_work_item@),
        r.completer_id == form.completer_id,
        r.progress@ == trim_spec(form.progress@),
        r.reason@ == trim_spec(form.reason@),
        r.next_work_item@ == trim_spec(form.next_work_item@),
        r.next_owner_id == form.completer_id,
{
    LogRow {
        legacy_period: meeting_label(form.meeting_month, form.meeting_count),
        meeting_month: form.meeting_month,
        meeting_count: form.meeting_count,
        project_id: form.project_id,
        specialty_id: form.specialty_id,
        module_owner_id: form.module_owner_id,
        last_work_item: trim(form.last_work_item.as_str()),
        completer_id: form.completer_id,
        progress: trim(form.progress.as_str()),
        reason: trim(form.reason.as_str()),
        next_work_item: trim(form.next_work_item.as_str()),
        next_owner_id: form.completer_id,
    }
}

} // verus!
