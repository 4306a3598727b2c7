//! The records the application keeps and the queries its pages take.

use vstd::prelude::*;

use crate::templates;

verus! {

/// One entry of an option list (a person, a project number or a specialty).
#[derive(Debug, Clone)]
pub struct OptionItem {
    pub id: i64,
    pub label: String,
    pub is_active: bool,
    pub sort_order: i64,
}

/// The three option lists.
#[derive(Debug, Clone, Copy, PartialEq, Eq)]
pub enum OptionKind {
    Person,
    Project,
    Specialty,
}

impl OptionKind {
    pub open spec fn table_text(self) -> Seq<char> {
        match self {
            OptionKind::Person => templates::TABLE_PERSON@,
            OptionKind::Project => templates::TABLE_PROJECT@,
            OptionKind::Specialty => templates::TABLE_SPECIALTY@,
        }
    }

    pub open spec fn label_column_text(self) -> Seq<char> {
        match self {
            OptionKind::Person => templates::LABEL_COLUMN_PERSON@,
            OptionKind::Project => templates::LABEL_COLUMN_PROJECT@,
            OptionKind::Specialty => templates::LABEL_COLUMN_SPECIALTY@,
        }
    }

    pub open spec fn title_text(self) -> Seq<char> {
        match self {
            OptionKind::Person => templates::TITLE_PERSON@,
            OptionKind::Project => templates::TITLE_PROJECT@,
            OptionKind::Specialty => templates::TITLE_SPECIALTY@,
        }
    }

    pub open spec fn path_text(self) -> Seq<char> {
        match self {
            OptionKind::Person => templates::PATH_PERSON@,
            OptionKind::Project => templates::PATH_PROJECT@,
            OptionKind::Specialty => templates::PATH_SPECIALTY@,
        }
    }

    pub open spec fn input_label_text(self) -> Seq<char> {
        match self {
            OptionKind::Person => templates::INPUT_LABEL_PERSON@,
            OptionKind::Project => templates::INPUT_LABEL_PROJECT@,
            OptionKind::Specialty => templates::INPUT_LABEL_SPECIALTY@,
        }
    }

    /// The database table that holds the list.
    pub fn table(self) -> (r: &'static str)
        ensures
            r@ == self.table_text(),
    {
        match self {
            OptionKind::Person => templates::TABLE_PERSON,
            OptionKind::Project => templates::TABLE_PROJECT,
            OptionKind::Specialty => templates::TABLE_SPECIALTY,
        }
    }

    /// The column that holds an entry's label.
    pub fn label_column(self) -> (r: &'static str)
        ensures
            r@ == self.label_column_text(),
    {
        match self {
            OptionKind::Person => templates::LABEL_COLUMN_PERSON,
            OptionKind::Project => templates::LABEL_COLUMN_PROJECT,
            OptionKind::Specialty => templates::LABEL_COLUMN_SPECIALTY,
        }
    }

    /// The heading of the list's maintenance page.
    pub fn title(self) -> (r: &'static str)
        ensures
            r@ == self.title_text(),
    {
        match self {
            OptionKind::Person => templates::TITLE_PERSON,
            OptionKind::Project => templates::TITLE_PROJECT,
            OptionKind::Specialty => templates::TITLE_SPECIALTY,
        }
    }

    /// The URL path of the list's maintenance page.
    pub fn path(self) -> (r: &'static str)
        ensures
            r@ == self.path_text(),
    {
        match self {
            OptionKind::Person => templates::PATH_PERSON,
            OptionKind::Project => templates::PATH_PROJECT,
            OptionKind::Specialty => templates::PATH_SPECIALTY,
        }
    }

    /// The label of the input field for a new entry.
    pub fn input_label(self) -> (r: &'static str)
        ensures
            r@ == self.input_label_text(),
    {
        match self {
            OptionKind::Person => templates::INPUT_LABEL_PERSON,
            OptionKind::Project => templates::INPUT_LABEL_PROJECT,
            OptionKind::Specialty => templates::INPUT_LABEL_SPECIALTY,
        }
    }
}

/// A stored log entry together with the labels of the options it refers to.
#[derive(Debug, Clone)]
pub struct WeeklyLogView {
    pub id: i64,
    pub meeting_month: i64,
    pub meeting_count: i64,
    pub project_id: i64,
    pub project_no: String,
    pub specialty_id: i64,
    pub specialty: String,
    pub module_owner_id: i64,
    pub module_owner: String,
    pub last_work_item: String,
    pub completer_id: i64,
    pub completer: String,
    pub progress: String,
    pub reason: String,
    pub next_work_item: String,
    pub next_owner_id: i64,
    pub next_owner: String,
    pub created_at: String,
}

/// One work item as submitted.
#[derive(Debug)]
pub struct WeeklyLogForm {
    pub meeting_month: i64,
    pub meeting_count: i64,
    pub project_id: i64,
    pub specialty_id: i64,
    pub module_owner_id: i64,
    pub last_work_item: String,
    pub completer_id: i64,
    pub progress: String,
    pub reason: String,
    pub next_work_item: String,
}

/// The value of a submitted work item, its texts as character sequences.
pub struct LogFormValue {
    pub meeting_month: i64,
    pub meeting_count: i64,
    pub project_id: i64,
    pub specialty_id: i64,
    pub module_owner_id: i64,
    pub last_work_item: Seq<char>,
    pub completer_id: i64,
    pub progress: Seq<char>,
    pub reason: Seq<char>,
    pub next_work_item: Seq<char>,
}

impl View for WeeklyLogForm {
    type V = LogFormValue;

    open spec fn view(&self) -> LogFormValue {
        LogFormValue {
            meeting_month: self.meeting_month,
            meeting_count: self.meeting_count,
            project_id: self.project_id,
            specialty_id: self.specialty_id,
            module_owner_id: self.module_owner_id,
            last_work_item: self.last_work_item@,
            completer_id: self.completer_id,
            progress: self.progress@,
            reason: self.reason@,
            next_work_item: self.next_work_item@,
        }
    }
}

/// The filters of the summary page; an absent or non-positive number, and an
/// absent, blank or `全部` progress, do not restrict.
#[derive(Debug, Default, Clone)]
pub struct FilterQuery {
    pub meeting_month: Option<i64>,
    pub meeting_count: Option<i64>,
    pub project_id: Option<i64>,
    pub specialty_id: Option<i64>,
    pub person_id: Option<i64>,
    pub progress: Option<String>,
}

/// The choice of meeting and project for a project report.
#[derive(Debug, Default, Clone)]
pub struct ProjectReportQuery {
    pub meeting_month: Option<i64>,
    pub meeting_count: Option<i64>,
    pub project_id: Option<i64>,
}

/// The choice of meeting for the submission statistics.
#[derive(Debug, Default, Clone)]
pub struct AttendanceQuery {
    pub meeting_month: Option<i64>,
    pub meeting_count: Option<i64>,
}

/// An optional text, seen as characters.
pub open spec fn opt_text(o: Option<String>) -> Option<Seq<char>> {
    match o {
        Some(s) => Some(s@),
        None => None,
    }
}

/// An optional borrowed text, seen as characters.
pub open spec fn opt_str(o: Option<&str>) -> Option<Seq<char>> {
    match o {
        Some(s) => Some(s@),
        None => None,
    }
}

/// How many entries satisfy `p`, counted one by one.
pub open spec fn count_where(logs: Seq<WeeklyLogView>, p: spec_fn(WeeklyLogView) -> bool) -> nat
    decreases logs.len(),
{
    if logs.len() == 0 {
        0
    } else {
        count_where(logs.drop_last(), p) + if p(logs.last()) {
            1nat
        } else {
            0nat
        }
    }
}

/// Keeping the entries that satisfy `p` keeps as many as satisfy it.
pub proof fn lemma_filter_count(logs: Seq<WeeklyLogView>, p: spec_fn(WeeklyLogView) -> bool)
    ensures
        logs.filter(p).len() == count_where(logs, p),
    decreases logs.len(),
{
    reveal_with_fuel(Seq::<_>::filter, 1);
    if logs.len() > 0 {
        lemma_filter_count(logs.drop_last(), p);
    }
}

} // verus!
