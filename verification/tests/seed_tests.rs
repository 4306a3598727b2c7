use weekly_log::pages::render_fill_success;
use weekly_log::seed::{
    sample_logs, sample_persons, sample_projects, sample_specialties, seed_requested, should_seed,
};
use weekly_log::storage::log_row;

#[test]
fn seeding_needs_the_switch_and_an_empty_table() {
    assert!(seed_requested("1"));
    assert!(!seed_requested("0"));
    assert!(!seed_requested(""));
    assert!(!seed_requested(" 1"));
    assert!(should_seed("1", 0));
    assert!(!should_seed("1", 1));
    assert!(!should_seed("1", 42));
    assert!(!should_seed("true", 0));
    assert!(!should_seed("", 0));
}

#[test]
fn sample_option_lists() {
    assert_eq!(sample_persons(), vec!["张三", "李四", "王二", "何仪周", "吴海玉", "王丽", "董向明"]);
    assert_eq!(sample_projects(), vec!["CH-20A", "2603", "2601", "002"]);
    assert_eq!(sample_specialties(), vec!["保障性", "六性", "适航性", "技术出版物设计"]);
}

#[test]
fn sample_logs_name_known_options() {
    let logs = sample_logs();
    assert_eq!(logs.len(), 10);
    let persons = sample_persons();
    let projects = sample_projects();
    let specialties = sample_specialties();
    for log in &logs {
        assert!(projects.contains(&log.project_no));
        assert!(specialties.contains(&log.specialty));
        assert!(persons.contains(&log.module_owner));
        assert!(persons.contains(&log.completer));
    }
    assert_eq!(logs[0].meeting_month, 6);
    assert_eq!(logs[0].last_work_item, "手册策划");
    assert_eq!(logs[7].meeting_count, 2);
    assert_eq!(logs[7].next_work_item, "下发模板");
    assert_eq!(logs[9].meeting_month, 7);
    assert_eq!(logs[9].specialty, "技术出版物设计");
    assert_eq!(logs[9].progress, "未完成");
}

#[test]
fn sample_log_becomes_a_submission() {
    let logs = sample_logs();
    let form = logs[3].to_form(11, 12, 13, 14);
    assert_eq!(form.meeting_month, 6);
    assert_eq!(form.meeting_count, 1);
    assert_eq!(form.project_id, 11);
    assert_eq!(form.specialty_id, 12);
    assert_eq!(form.module_owner_id, 13);
    assert_eq!(form.completer_id, 14);
    assert_eq!(form.last_work_item, "手册排版");
    assert_eq!(form.progress, "完成");
    assert_eq!(form.reason, "无");
    assert_eq!(form.next_work_item, "手册排版");
    let row = log_row(&form);
    assert_eq!(row.legacy_period, "6月第1次例会");
    assert_eq!(row.next_owner_id, 14);
}

#[test]
fn success_page() {
    let html = render_fill_success();
    assert!(html.contains("<h2>提交成功</h2>"));
    assert!(html.contains("href=\"/fill/new\""));
}
