use weekly_log::filter::{filter_logs, has_text};
use weekly_log::model::{AttendanceQuery, FilterQuery, OptionItem, ProjectReportQuery, WeeklyLogView};
use weekly_log::reports::{render_attendance_table, render_table, render_work_panels};
use weekly_log::screens::{render_attendance_body, render_edit_body, render_project_report_body};

fn log(
    id: i64,
    month: i64,
    count: i64,
    project: (i64, &str),
    specialty: (i64, &str),
    owner: i64,
    completer: i64,
    progress: &str,
    created_at: &str,
) -> WeeklyLogView {
    WeeklyLogView {
        id,
        meeting_month: month,
        meeting_count: count,
        project_id: project.0,
        project_no: project.1.to_string(),
        specialty_id: specialty.0,
        specialty: specialty.1.to_string(),
        module_owner_id: owner,
        module_owner: format!("owner{}", owner),
        last_work_item: format!("last{}", id),
        completer_id: completer,
        completer: format!("person{}", completer),
        progress: progress.to_string(),
        reason: "<why>".to_string(),
        next_work_item: format!("next{}", id),
        next_owner_id: completer,
        next_owner: format!("person{}", completer),
        created_at: created_at.to_string(),
    }
}

fn sample() -> Vec<WeeklyLogView> {
    vec![
        log(1, 6, 1, (1, "CH-20A"), (1, "保障性"), 10, 20, "完成", "2024-06-01 09:00:00"),
        log(2, 6, 1, (1, "CH-20A"), (2, "六性"), 11, 21, "未完成", "2024-06-01 10:00:00"),
        log(3, 6, 2, (2, "2601"), (1, "保障性"), 10, 20, "完成", "2024-06-08 09:00:00"),
        log(4, 7, 1, (1, "CH-20A"), (1, "保障性"), 12, 20, "进行中", "2024-07-01 09:00:00"),
        log(5, 6, 1, (2, "2601"), (2, "六性"), 10, 20, "完成", "2024-06-02 08:00:00"),
    ]
}

fn ids(logs: &[WeeklyLogView]) -> Vec<i64> {
    logs.iter().map(|l| l.id).collect()
}

#[test]
fn has_text_trims_and_drops_blank() {
    assert_eq!(has_text(&Some("  完成 ".to_string())), Some("完成".to_string()));
    assert_eq!(has_text(&Some(" \t".to_string())), None);
    assert_eq!(has_text(&None), None);
}

#[test]
fn filter_by_meeting_and_project() {
    let q = FilterQuery { meeting_month: Some(6), meeting_count: Some(1), project_id: Some(1), ..Default::default() };
    assert_eq!(ids(&filter_logs(sample(), &q)), vec![1, 2]);
}

#[test]
fn filter_person_matches_owner_or_reporter() {
    let q = FilterQuery { person_id: Some(10), ..Default::default() };
    assert_eq!(ids(&filter_logs(sample(), &q)), vec![1, 3, 5]);
    let q = FilterQuery { person_id: Some(21), ..Default::default() };
    assert_eq!(ids(&filter_logs(sample(), &q)), vec![2]);
}

#[test]
fn filter_progress_and_all() {
    let q = FilterQuery { progress: Some(" 完成 ".to_string()), ..Default::default() };
    assert_eq!(ids(&filter_logs(sample(), &q)), vec![1, 3, 5]);
    let q = FilterQuery { progress: Some("全部".to_string()), specialty_id: Some(2), ..Default::default() };
    assert_eq!(ids(&filter_logs(sample(), &q)), vec![2, 5]);
}

#[test]
fn filter_zero_and_absent_keep_everything() {
    let q = FilterQuery {
        meeting_month: Some(0),
        meeting_count: Some(-1),
        project_id: None,
        specialty_id: Some(0),
        person_id: Some(0),
        progress: Some("  ".to_string()),
    };
    assert_eq!(ids(&filter_logs(sample(), &q)), vec![1, 2, 3, 4, 5]);
}

#[test]
fn filter_twice_is_filter_once() {
    let q = FilterQuery { meeting_month: Some(6), progress: Some("完成".to_string()), ..Default::default() };
    let once = filter_logs(sample(), &q);
    let once_ids = ids(&once);
    assert_eq!(ids(&filter_logs(once, &q)), once_ids);
}

#[test]
fn table_rows_and_empty_table() {
    let html = render_table(&sample()[..1]);
    assert!(html.contains("<td class=\"table-short\">6月第1次例会</td>"));
    assert!(html.contains("&lt;why&gt;"));
    assert!(html.contains("href=\"/summary/logs/edit/1\""));
    assert!(html.contains("action=\"/summary/logs/delete/1\""));
    assert!(render_table(&[]).contains("<tr><td colspan=\"11\" class=\"muted\">暂无记录。</td></tr>"));
}

#[test]
fn work_panels_group_by_specialty_in_order() {
    let logs = sample();
    let html = render_work_panels(&logs);
    let a = html.find("<h3>保障性</h3>").unwrap();
    let b = html.find("<h3>六性</h3>").unwrap();
    assert!(a < b, "groups follow string order");
    assert_eq!(html.matches("<div class=\"work-group\">").count(), 4);
    let first = html.find("last1").unwrap();
    let third = html.find("last3").unwrap();
    assert!(first < third);
    assert!(!html.contains("暂无记录"));
    let empty = render_work_panels(&[]);
    assert_eq!(empty.matches("<div class=\"muted\">暂无记录。</div>").count(), 2);
}

#[test]
fn attendance_counts_and_lists() {
    let persons = vec![
        OptionItem { id: 20, label: "张三".to_string(), is_active: true, sort_order: 1 },
        OptionItem { id: 22, label: "李四".to_string(), is_active: false, sort_order: 2 },
    ];
    let html = render_attendance_table(&persons, &sample(), 6, 1);
    assert!(html.contains("<h2>6月第1次例会 填报统计表</h2>"));
    assert!(html.contains(
        "<tr>\n<td>张三</td>\n<td><span class=\"pill ok\">已填报</span></td>\n<td>2</td>\n<td>2601、CH-20A</td>\n<td>保障性、六性</td>\n<td>2024-06-02 08:00:00</td>\n</tr>"
    ));
    assert!(html.contains(
        "<tr>\n<td>李四（已禁用）</td>\n<td><span class=\"pill no\">未填报</span></td>\n<td>0</td>\n<td></td>\n<td></td>\n<td>-</td>\n</tr>"
    ));
    assert!(render_attendance_table(&[], &sample(), 6, 1).contains("暂无人员名单"));
}

#[test]
fn project_report_needs_full_choice() {
    let projects = vec![OptionItem { id: 1, label: "CH-20A".to_string(), is_active: true, sort_order: 1 }];
    let q = ProjectReportQuery { meeting_month: Some(6), meeting_count: Some(1), project_id: Some(1) };
    let html = render_project_report_body(&q, &projects, sample());
    assert!(html.contains("<h2>CH-20A - 6月第1次例会</h2>"));
    assert!(html.contains("last1") && html.contains("last2") && !html.contains("last5"));
    let q = ProjectReportQuery { meeting_month: Some(6), meeting_count: Some(1), project_id: Some(2) };
    assert!(render_project_report_body(&q, &projects, sample()).contains("<h2>所选项目 - 6月第1次例会</h2>"));
    let q = ProjectReportQuery { meeting_month: Some(6), meeting_count: None, project_id: Some(1) };
    assert!(!render_project_report_body(&q, &projects, sample()).contains("work-group"));
}

#[test]
fn attendance_body_needs_positive_meeting() {
    let q = AttendanceQuery { meeting_month: Some(6), meeting_count: Some(0) };
    assert!(!render_attendance_body(&q, &[], &sample()).contains("填报统计表"));
    let q = AttendanceQuery { meeting_month: Some(6), meeting_count: Some(1) };
    assert!(render_attendance_body(&q, &[], &sample()).contains("填报统计表"));
}

#[test]
fn edit_body_for_missing_entry() {
    assert_eq!(render_edit_body(3, None, &[], &[], &[]), "<div class=\"card warning\">记录不存在。</div>");
    let logs = sample();
    let html = render_edit_body(3, Some(&logs[2]), &[], &[], &[]);
    assert!(html.contains("action=\"/summary/logs/edit/3\""));
    assert!(html.contains("<textarea name=\"last_work_item\" required>last3</textarea>"));
    assert!(html.contains("<option value=\"6\" selected>6月</option>"));
    assert!(html.contains("<option value=\"完成\" selected>完成</option>"));
    assert!(html.contains("class=\"warning\""));
}

#[test]
fn filter_shows_exactly_the_matching_entries() {
    let q = FilterQuery { specialty_id: Some(1), person_id: Some(20), ..Default::default() };
    let all = sample();
    let shown = filter_logs(all.clone(), &q);
    assert!(shown.len() <= all.len());
    for l in &all {
        let matches = l.specialty_id == 1 && (l.module_owner_id == 20 || l.completer_id == 20);
        assert_eq!(shown.iter().any(|s| s.id == l.id), matches);
    }
    assert_eq!(ids(&shown), vec![1, 3, 4]);
}

#[test]
fn work_panels_show_each_entry_once_under_its_specialty() {
    let logs = sample();
    let html = render_work_panels(&logs);
    for l in &logs {
        assert_eq!(html.matches(&format!("<strong>上周工作：</strong>last{}<", l.id)).count(), 1);
        assert_eq!(html.matches(&format!("<strong>本周计划工作：</strong>next{}<", l.id)).count(), 1);
    }
    assert_eq!(html.matches("<h3>保障性</h3>").count(), 2);
    assert_eq!(html.matches("<h3>六性</h3>").count(), 2);
    let group_b = html.find("<h3>六性</h3>").unwrap();
    let entry2 = html.find("last2<").unwrap();
    let entry1 = html.find("last1<").unwrap();
    assert!(entry1 < group_b && group_b < entry2);
}
