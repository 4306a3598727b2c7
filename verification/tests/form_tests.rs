use weekly_log::form::{parse_log_pairs, parse_multi_log_form};
use weekly_log::model::WeeklyLogForm;
use weekly_log::storage::log_row;

fn item_fields(project: &str, last: &str, next: &str) -> String {
    format!(
        "&project_id={}&specialty_id=2&module_owner_id=3&last_work_item={}&completer_id=4&progress=%E5%AE%8C%E6%88%90&reason=&next_work_item={}",
        project, last, next
    )
}

fn parse(body: &str) -> Result<Vec<WeeklyLogForm>, String> {
    parse_multi_log_form(body.as_bytes())
}

#[test]
fn parses_items_and_skips_blank_ones() {
    let body = format!(
        "meeting_month=6&meeting_count=2{}{}",
        item_fields("1", "%E6%89%8B%E5%86%8C+%E7%BC%96%E5%88%B6", "next+step"),
        item_fields("9", "", "+")
    );
    let forms = parse(&body).unwrap();
    assert_eq!(forms.len(), 1);
    let f = &forms[0];
    assert_eq!((f.meeting_month, f.meeting_count), (6, 2));
    assert_eq!((f.project_id, f.specialty_id, f.module_owner_id, f.completer_id), (1, 2, 3, 4));
    assert_eq!(f.last_work_item, "手册 编制");
    assert_eq!(f.next_work_item, "next step");
    assert_eq!(f.progress, "完成");
    assert_eq!(f.reason, "");
}

#[test]
fn decoding_reads_plus_and_percent() {
    let body = format!("meeting_month=+6+&meeting_count=%31{}", item_fields("%2B7", "a", "b"));
    let forms = parse(&body).unwrap();
    assert_eq!(forms[0].meeting_month, 6);
    assert_eq!(forms[0].meeting_count, 1);
    assert_eq!(forms[0].project_id, 7);
}

#[test]
fn missing_meeting_field() {
    let body = format!("meeting_count=1{}", item_fields("1", "a", "b"));
    assert_eq!(parse(&body).unwrap_err(), "缺少字段：meeting_month");
    let blank = format!("meeting_month=+&meeting_count=1{}", item_fields("1", "a", "b"));
    assert_eq!(parse(&blank).unwrap_err(), "缺少字段：meeting_month");
    let no_count = format!("meeting_month=1{}", item_fields("1", "a", "b"));
    assert_eq!(parse(&no_count).unwrap_err(), "缺少字段：meeting_count");
}

#[test]
fn invalid_meeting_number() {
    let body = format!("meeting_month=six&meeting_count=1{}", item_fields("1", "a", "b"));
    assert_eq!(parse(&body).unwrap_err(), "字段 meeting_month 的值无效。");
    let body = format!("meeting_month=6&meeting_count=1.5{}", item_fields("1", "a", "b"));
    assert_eq!(parse(&body).unwrap_err(), "字段 meeting_count 的值无效。");
}

#[test]
fn meeting_out_of_range() {
    let body = format!("meeting_month=13&meeting_count=1{}", item_fields("1", "a", "b"));
    assert_eq!(parse(&body).unwrap_err(), "月份必须在 1 到 12 之间。");
    let body = format!("meeting_month=12&meeting_count=21{}", item_fields("1", "a", "b"));
    assert_eq!(parse(&body).unwrap_err(), "例会次数必须在 1 到 20 之间。");
}

#[test]
fn no_work_items() {
    assert_eq!(parse("meeting_month=1&meeting_count=1").unwrap_err(), "至少需要填写一条工作项。");
}

#[test]
fn column_lengths_must_agree() {
    let body = "meeting_month=1&meeting_count=1&project_id=1&project_id=2&specialty_id=1&module_owner_id=1&module_owner_id=1";
    assert_eq!(parse(body).unwrap_err(), "工作项字段数量不一致：specialty_id。");
    let body = format!("meeting_month=1&meeting_count=1{}&progress=x", item_fields("1", "a", "b"));
    assert_eq!(parse(&body).unwrap_err(), "工作项字段数量不一致：progress。");
}

#[test]
fn half_filled_items_are_refused_with_their_number() {
    let body = format!(
        "meeting_month=1&meeting_count=1{}{}",
        item_fields("1", "a", "b"),
        item_fields("1", "a", "")
    );
    assert_eq!(parse(&body).unwrap_err(), "第 2 条工作项缺少本周计划工作项。");
    let body = format!("meeting_month=1&meeting_count=1{}", item_fields("1", "", "b"));
    assert_eq!(parse(&body).unwrap_err(), "第 1 条工作项缺少上周工作项。");
}

#[test]
fn all_items_blank() {
    let body = format!("meeting_month=1&meeting_count=1{}", item_fields("1", "", "+"));
    assert_eq!(parse(&body).unwrap_err(), "至少需要填写一条有效工作项。");
}

#[test]
fn invalid_item_id() {
    let body = format!("meeting_month=1&meeting_count=1{}", item_fields("x", "a", "b"));
    assert_eq!(parse(&body).unwrap_err(), "字段 project_id 的值无效。");
}

#[test]
fn missing_reason_column_is_empty() {
    let body = "meeting_month=3&meeting_count=4&project_id=1&specialty_id=2&module_owner_id=3&last_work_item=a&completer_id=4&progress=p&next_work_item=b";
    let forms = parse(body).unwrap();
    assert_eq!(forms[0].reason, "");
    assert_eq!(forms[0].progress, "p");
}

#[test]
fn first_value_of_a_meeting_field_counts() {
    let pairs: Vec<(String, String)> = vec![
        ("meeting_month", "2"),
        ("meeting_month", "x"),
        ("meeting_count", " 3 "),
        ("project_id", "1"),
        ("specialty_id", "1"),
        ("module_owner_id", "1"),
        ("last_work_item", " a "),
        ("completer_id", "1"),
        ("progress", " p "),
        ("reason", " r "),
        ("next_work_item", "b"),
    ]
    .into_iter()
    .map(|(k, v)| (k.to_string(), v.to_string()))
    .collect();
    let forms = parse_log_pairs(&pairs).unwrap();
    assert_eq!((forms[0].meeting_month, forms[0].meeting_count), (2, 3));
    assert_eq!((forms[0].last_work_item.as_str(), forms[0].reason.as_str()), ("a", "r"));
}

#[test]
fn stored_row_values() {
    let form = WeeklyLogForm {
        meeting_month: 7,
        meeting_count: 1,
        project_id: 10,
        specialty_id: 11,
        module_owner_id: 12,
        last_work_item: " 法规研制 ".to_string(),
        completer_id: 13,
        progress: "未完成\n".to_string(),
        reason: " XXX".to_string(),
        next_work_item: "继续 ".to_string(),
    };
    let row = log_row(&form);
    assert_eq!(row.legacy_period, "7月第1次例会");
    assert_eq!(row.last_work_item, "法规研制");
    assert_eq!(row.progress, "未完成");
    assert_eq!(row.reason, "XXX");
    assert_eq!(row.next_work_item, "继续");
    assert_eq!(row.next_owner_id, 13);
    assert_eq!(row.completer_id, 13);
    assert_eq!((row.project_id, row.specialty_id, row.module_owner_id), (10, 11, 12));
}
