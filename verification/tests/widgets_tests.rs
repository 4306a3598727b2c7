use weekly_log::model::{OptionItem, OptionKind};
use weekly_log::widgets::{
    meeting_count_select, month_select, progress_filter_select, progress_select,
    render_filter_select, render_select,
};

fn item(id: i64, label: &str, is_active: bool) -> OptionItem {
    OptionItem { id, label: label.to_string(), is_active, sort_order: 0 }
}

#[test]
fn render_select_marks_selected_and_disabled() {
    let options = vec![item(1, "CH-20A", true), item(2, "A&B", false)];
    assert_eq!(
        render_select("project_id", &options, Some(2), "请选择项目号"),
        "<div class=\"search-select\"><input class=\"select-search\" type=\"search\" placeholder=\"输入首字母或关键词筛选项目号\" oninput=\"filterLinkedSelect(this)\"><select name=\"project_id\" required><option value=\"\">请选择项目号</option><option value=\"1\" data-key=\"CH-20A\">CH-20A</option><option value=\"2\" selected data-key=\"A&amp;B\">A&amp;B（已禁用）</option></select></div>"
    );
}

#[test]
fn render_select_without_options() {
    let html = render_select("x\"y", &[], None, "人员");
    assert!(html.contains("placeholder=\"输入首字母或关键词筛选人员\""));
    assert!(html.contains("<select name=\"x&quot;y\" required>"));
    assert!(html.ends_with("<option value=\"\">人员</option></select></div>"));
}

#[test]
fn render_filter_select_lists_all_entries() {
    let options = vec![item(5, "张三", true), item(6, "李四", false)];
    assert_eq!(
        render_filter_select("person_id", &options, None, "全部人员"),
        "<select name=\"person_id\"><option value=\"0\">全部人员</option><option value=\"5\">张三</option><option value=\"6\">李四（已禁用）</option></select>"
    );
    assert!(render_filter_select("person_id", &options, Some(5), "全部人员")
        .contains("<option value=\"5\" selected>张三</option>"));
}

#[test]
fn month_select_required_form() {
    assert_eq!(
        month_select("meeting_month", Some(3), false),
        "<select name=\"meeting_month\" required><option value=\"\">请选择月份</option><option value=\"1\">1月</option><option value=\"2\">2月</option><option value=\"3\" selected>3月</option><option value=\"4\">4月</option><option value=\"5\">5月</option><option value=\"6\">6月</option><option value=\"7\">7月</option><option value=\"8\">8月</option><option value=\"9\">9月</option><option value=\"10\">10月</option><option value=\"11\">11月</option><option value=\"12\">12月</option></select>"
    );
}

#[test]
fn month_select_with_all_entry() {
    let html = month_select("meeting_month", Some(0), true);
    assert!(html.starts_with("<select name=\"meeting_month\"><option value=\"0\">全部月份</option><option value=\"1\">1月</option>"));
    assert!(!html.contains("selected"));
    assert_eq!(html.matches("<option").count(), 13);
}

#[test]
fn meeting_count_select_offers_twenty() {
    let html = meeting_count_select("meeting_count", Some(20), false);
    assert!(html.starts_with("<select name=\"meeting_count\" required><option value=\"\">请选择例会次数</option><option value=\"1\">第1次例会</option>"));
    assert!(html.contains("<option value=\"20\" selected>第20次例会</option></select>"));
    assert_eq!(html.matches("<option").count(), 21);
    let all = meeting_count_select("meeting_count", None, true);
    assert!(all.contains("<option value=\"0\">全部次数</option>"));
}

#[test]
fn progress_select_choices() {
    assert_eq!(
        progress_select(Some("未完成")),
        "<select name=\"progress\" required><option value=\"\">请选择完成进度</option><option value=\"完成\">完成</option><option value=\"进行中\">进行中</option><option value=\"未完成\" selected>未完成</option><option value=\"暂停\">暂停</option></select>"
    );
    assert!(!progress_select(None).contains("selected"));
    assert!(!progress_select(Some("其他")).contains("selected"));
}

#[test]
fn progress_filter_select_defaults_to_all() {
    assert_eq!(
        progress_filter_select(None),
        "<select name=\"progress\"><option value=\"全部\" selected>全部</option><option value=\"完成\">完成</option><option value=\"进行中\">进行中</option><option value=\"未完成\">未完成</option><option value=\"暂停\">暂停</option></select>"
    );
    assert_eq!(
        progress_filter_select(Some("暂停")),
        "<select name=\"progress\"><option value=\"全部\">全部</option><option value=\"完成\">完成</option><option value=\"进行中\">进行中</option><option value=\"未完成\">未完成</option><option value=\"暂停\" selected>暂停</option></select>"
    );
    assert_eq!(progress_filter_select(Some("")).matches("selected").count(), 0);
}

#[test]
fn option_kind_texts() {
    assert_eq!(OptionKind::Person.table(), "persons");
    assert_eq!(OptionKind::Project.table(), "projects");
    assert_eq!(OptionKind::Specialty.table(), "specialties");
    assert_eq!(OptionKind::Person.label_column(), "name");
    assert_eq!(OptionKind::Project.label_column(), "project_no");
    assert_eq!(OptionKind::Specialty.label_column(), "name");
    assert_eq!(OptionKind::Person.title(), "人员名单");
    assert_eq!(OptionKind::Project.title(), "项目号选项");
    assert_eq!(OptionKind::Specialty.title(), "专业方向选项");
    assert_eq!(OptionKind::Person.path(), "/summary/options/persons");
    assert_eq!(OptionKind::Project.path(), "/summary/options/projects");
    assert_eq!(OptionKind::Specialty.path(), "/summary/options/specialties");
    assert_eq!(OptionKind::Person.input_label(), "人员姓名");
    assert_eq!(OptionKind::Project.input_label(), "项目号");
    assert_eq!(OptionKind::Specialty.input_label(), "专业方向");
}
