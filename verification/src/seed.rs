//! The sample data that an empty database can be filled with on request.

use vstd::prelude::*;

use crate::model::{LogFormValue, WeeklyLogForm};
use crate::text::same_text;

verus! {

/// Sample data is asked for by the switch `1`.
pub fn seed_requested(switch: &str) -> (r: bool)
    ensures
        r == (switch@ == "1"@),
{
    same_text(switch, "1")
}

/// The sample data is loaded only when asked for and no log has been stored
/// yet.
pub fn should_seed(switch: &str, log_count: i64) -> (r: bool)
    ensures
        r == (switch@ == "1"@ && log_count <= 0),
{
    seed_requested(switch) && log_count <= 0
}

/// The texts of a sequence of borrowed strings.
pub open spec fn strs(v: Seq<&'static str>) -> Seq<Seq<char>> {
    v.map_values(|s: &'static str| s@)
}

/// The sample persons, in the order they are created.
pub open spec fn sample_persons_spec() -> Seq<Seq<char>> {
    seq!["张三"@, "李四"@, "王二"@, "何仪周"@, "吴海玉"@, "王丽"@, "董向明"@]
}

/// The sample project numbers, in the order they are created.
pub open spec fn sample_projects_spec() -> Seq<Seq<char>> {
    seq!["CH-20A"@, "2603"@, "2601"@, "002"@]
}

/// The sample specialties, in the order they are created.
pub open spec fn sample_specialties_spec() -> Seq<Seq<char>> {
    seq!["保障性"@, "六性"@, "适航性"@, "技术出版物设计"@]
}

/// The sample persons.
pub fn sample_persons() -> (r: Vec<&'static str>)
    ensures
        strs(r@) == sample_persons_spec(),
{
    let mut v: Vec<&'static str> = Vec::new();
    v.push("张三");
    v.push("李四");
    v.push("王二");
    v.push("何仪周");
    v.push("吴海玉");
    v.push("王丽");
    v.push("董向明");
    assert(strs(v@) =~= sample_persons_spec());
    v
}

/// The sample project numbers.
pub fn sample_projects() -> (r: Vec<&'static str>)
    ensures
        strs(r@) == sample_projects_spec(),
{
    let mut v: Vec<&'static str> = Vec::new();
    v.push("CH-20A");
    v.push("2603");
    v.push("2601");
    v.push("002");
    assert(strs(v@) =~= sample_projects_spec());
    v
}

/// The sample specialties.
pub fn sample_specialties() -> (r: Vec<&'static str>)
    ensures
        strs(r@) == sample_specialties_spec(),
{
    let mut v: Vec<&'static str> = Vec::new();
    v.push("保障性");
    v.push("六性");
    v.push("适航性");
    v.push("技术出版物设计");
    assert(strs(v@) =~= sample_specialties_spec());
    v
}

/// A sample work item, its options named by label.
pub struct SampleLog {
    pub meeting_month: i64,
    pub meeting_count: i64,
    pub project_no: &'static str,
    pub specialty: &'static str,
    pub module_owner: &'static str,
    pub last_work_item: &'static str,
    pub completer: &'static str,
    pub progress: &'static str,
    pub reason: &'static str,
    pub next_work_item: &'static str,
}

/// A sample work item as plain values.
pub struct SampleLogValue {
    pub meeting_month: i64,
    pub meeting_count: i64,
    pub project_no: Seq<char>,
    pub specialty: Seq<char>,
    pub module_owner: Seq<char>,
    pub last_work_item: Seq<char>,
    pub completer: Seq<char>,
    pub progress: Seq<char>,
    pub reason: Seq<char>,
    pub next_work_item: Seq<char>,
}

impl View for SampleLog {
    type V = SampleLogValue;

    open spec fn view(&self) -> SampleLogValue {
        SampleLogValue {
            meeting_month: self.meeting_month,
            meeting_count: self.meeting_count,
            project_no: self.project_no@,
            specialty: self.specialty@,
            module_owner: self.module_owner@,
            last_work_item: self.last_work_item@,
            completer: self.completer@,
            progress: self.progress@,
            reason: self.reason@,
            next_work_item: self.next_work_item@,
        }
    }
}

/// A sample work item from its values.
pub open spec fn sample_value(
    meeting_month: i64,
    meeting_count: i64,
    project_no: &'static str,
    specialty: &'static str,
    module_owner: &'static str,
    last_work_item: &'static str,
    completer: &'static str,
    progress: &'static str,
    reason: &'static str,
    next_work_item: &'static str,
) -> SampleLogValue {
    SampleLogValue {
        meeting_month,
        meeting_count,
        project_no: project_no@,
        specialty: specialty@,
        module_owner: module_owner@,
        last_work_item: last_work_item@,
        completer: completer@,
        progress: progress@,
        reason: reason@,
        next_work_item: next_work_item@,
    }
}

/// The sample work items, in the order they are stored.
pub open spec fn sample_logs_spec() -> Seq<SampleLogValue> {
    seq![
        sample_value(6, 1, "CH-20A", "保障性", "何仪周", "手册策划", "李四", "完成", "XXX", "手册策划"),
        sample_value(6, 1, "CH-20A", "保障性", "何仪周", "模板编制", "李四", "完成", "XXX", "模板编制"),
        sample_value(6, 1, "CH-20A", "保障性", "何仪周", "下发手册", "李四", "完成", "XXX", "下发手册"),
        sample_value(6, 1, "CH-20A", "保障性", "何仪周", "手册排版", "张三", "完成", "无", "手册排版"),
        sample_value(6, 1, "CH-20A", "六性", "吴海玉", "手册编制", "王二", "未完成", "XXX", "手册编制"),
        sample_value(6, 1, "CH-20A", "六性", "吴海玉", "模板设计", "王二", "完成", "XXX", "模板设计"),
        sample_value(6, 1, "2603", "六性", "吴海玉", "手册定稿", "李四", "完成", "XXX", "手册定稿"),
        sample_value(6, 2, "2601", "适航性", "王丽", "完成方案编制", "张三", "完成", "无", "下发模板"),
        sample_value(6, 2, "002", "适航性", "王丽", "法规研制", "李四", "未完成", "XXX", "继续"),
        sample_value(7, 1, "CH-20A", "技术出版物设计", "董向明", "法规研制", "李四", "未完成", "XXX", "继续"),
    ]
}

/// The plain values of a sequence of sample work items.
pub open spec fn sample_views(v: Seq<SampleLog>) -> Seq<SampleLogValue> {
    v.map_values(|s: SampleLog| s@)
}

/// Appends one sample work item.
fn push_sample(
    v: &mut Vec<SampleLog>,
    meeting_month: i64,
    meeting_count: i64,
    project_no: &'static str,
    specialty: &'static str,
    module_owner: &'static str,
    last_work_item: &'static str,
    completer: &'static str,
    progress: &'static str,
    reason: &'static str,
    next_work_item: &'static str,
)
    ensures
        sample_views(final(v)@) == sample_views(old(v)@).push(
            sample_value(
                meeting_month,
                meeting_count,
                project_no,
                specialty,
                module_owner,
                last_work_item,
                completer,
                progress,
                reason,
                next_work_item,
            ),
        ),
{
    v.push(
        SampleLog {
            meeting_month,
            meeting_count,
            project_no,
            specialty,
            module_owner,
            last_work_item,
            completer,
            progress,
            reason,
            next_work_item,
        },
    );
    assert(sample_views(v@) =~= sample_views(old(v)@).push(
        sample_value(
            meeting_month,
            meeting_count,
            project_no,
            specialty,
            module_owner,
            last_work_item,
            completer,
            progress,
            reason,
            next_work_item,
        ),
    ));
}

/// The sample work items.
pub fn sample_logs() -> (r: Vec<SampleLog>)
    ensures
        sample_views(r@) == sample_logs_spec(),
{
    let mut v: Vec<SampleLog> = Vec::new();
    assert(sample_views(v@) =~= Seq::<SampleLogValue>::empty());
    push_sample(&mut v, 6, 1, "CH-20A", "保障性", "何仪周", "手册策划", "李四", "完成", "XXX", "手册策划");
    push_sample(&mut v, 6, 1, "CH-20A", "保障性", "何仪周", "模板编制", "李四", "完成", "XXX", "模板编制");
    push_sample(&mut v, 6, 1, "CH-20A", "保障性", "何仪周", "下发手册", "李四", "完成", "XXX", "下发手册");
    push_sample(&mut v, 6, 1, "CH-20A", "保障性", "何仪周", "手册排版", "张三", "完成", "无", "手册排版");
    push_sample(&mut v, 6, 1, "CH-20A", "六性", "吴海玉", "手册编制", "王二", "未完成", "XXX", "手册编制");
    push_sample(&mut v, 6, 1, "CH-20A", "六性", "吴海玉", "模板设计", "王二", "完成", "XXX", "模板设计");
    push_sample(&mut v, 6, 1, "2603", "六性", "吴海玉", "手册定稿", "李四", "完成", "XXX", "手册定稿");
    push_sample(&mut v, 6, 2, "2601", "适航性", "王丽", "完成方案编制", "张三", "完成", "无", "下发模板");
    push_sample(&mut v, 6, 2, "002", "适航性", "王丽", "法规研制", "李四", "未完成", "XXX", "继续");
    push_sample(&mut v, 7, 1, "CH-20A", "技术出版物设计", "董向明", "法规研制", "李四", "未完成", "XXX", "继续");
    assert(sample_views(v@) =~= sample_logs_spec());
    v
}

impl SampleLog {
    /// The submission of this sample item, once its options have ids.
    pub fn to_form(&self, project_id: i64, specialty_id: i64, module_owner_id: i64, completer_id: i64) -> (r:
        WeeklyLogForm)
        ensures
            r@ == (LogFormValue {
                meeting_month: self.meeting_month,
                meeting_count: self.meeting_count,
                project_id,
                specialty_id,
                module_owner_id,
                last_work_item: self.last_work_item@,
                completer_id,
                progress: self.progress@,
                reason: self.reason@,
                next_work_item: self.next_work_item@,
            }),
    {
        WeeklyLogForm {
            meeting_month: self.meeting_month,
            meeting_count: self.meeting_count,
            project_id,
            specialty_id,
            module_owner_id,
            last_work_item: String::from_str(self.last_work_item),
            completer_id,
            progress: String::from_str(self.progress),
            reason: String::from_str(self.reason),
            next_work_item: String::from_str(self.next_work_item),
        }
    }
}

} // verus!
