use weekly_log::model::{OptionItem, OptionKind};
use weekly_log::options::{
    check_deletable, check_not_duplicate, delete_option_sql, fetch_options_sql, find_option_sql,
    insert_option_sql, new_option_label, reference_count_sql, toggle_option_sql,
};
use weekly_log::pages::{render_fill_form, render_option_admin, render_options_home, render_page};

#[test]
fn option_sql_statements() {
    assert_eq!(find_option_sql(OptionKind::Project), "SELECT id FROM projects WHERE project_no = ?1");
    assert_eq!(
        insert_option_sql(OptionKind::Person),
        "INSERT INTO persons (name, is_active, sort_order, created_at)\n         VALUES (?1, 1, (SELECT COALESCE(MAX(sort_order), 0) + 1 FROM persons), ?2)"
    );
    assert_eq!(
        fetch_options_sql(OptionKind::Specialty, true),
        "SELECT id, name AS label, is_active, sort_order\n         FROM specialties\n         WHERE is_active = 1\n         ORDER BY is_active DESC, sort_order ASC, label ASC"
    );
    assert!(!fetch_options_sql(OptionKind::Specialty, false).contains("WHERE"));
    assert_eq!(
        toggle_option_sql(OptionKind::Person),
        "UPDATE persons SET is_active = CASE WHEN is_active = 1 THEN 0 ELSE 1 END WHERE id = ?1"
    );
    assert_eq!(delete_option_sql(OptionKind::Project), "DELETE FROM projects WHERE id = ?1");
    assert_eq!(
        reference_count_sql(OptionKind::Person),
        "SELECT COUNT(*) FROM weekly_logs WHERE module_owner_id = ?1 OR completer_id = ?1 OR next_owner_id = ?1"
    );
}

#[test]
fn new_option_rules() {
    assert_eq!(new_option_label("  王丽 "), Ok("王丽".to_string()));
    assert_eq!(new_option_label(" \n"), Err("配置项名称不能为空。".to_string()));
    assert_eq!(check_not_duplicate("王丽", None), Ok(()));
    assert_eq!(check_not_duplicate("王丽", Some(3)), Err("配置项“王丽”已存在，请勿重复新增。".to_string()));
}

#[test]
fn delete_option_rules() {
    assert_eq!(check_deletable(0), Ok(()));
    assert_eq!(
        check_deletable(3),
        Err("该选项已被 3 条日志引用，不能删除。可以使用“禁用”让填报端不再显示它。".to_string())
    );
}

#[test]
fn option_admin_page() {
    let items = vec![
        OptionItem { id: 4, label: "CH-20A".to_string(), is_active: true, sort_order: 1 },
        OptionItem { id: 9, label: "<old>".to_string(), is_active: false, sort_order: 2 },
    ];
    let html = render_option_admin(OptionKind::Project, &items, Some("出错&了"), true);
    assert!(html.contains("<h2>项目号选项</h2>"));
    assert!(html.contains("<div class=\"warning\">出错&amp;了</div>"));
    assert!(html.contains("action=\"/summary/options/projects/4/toggle\""));
    assert!(html.contains("<button class=\"btn secondary small\" type=\"submit\">设为禁用</button>"));
    assert!(html.contains("<td>&lt;old&gt;</td>"));
    assert!(html.contains("<button class=\"btn small\" type=\"submit\">重新启用</button>"));
    assert!(html.contains("placeholder=\"请输入项目号\""));
    let ok = render_option_admin(OptionKind::Person, &[], Some("好"), false);
    assert!(ok.contains("<div class=\"success\">好</div>"));
    assert!(ok.contains("暂无选项。"));
    assert!(!render_option_admin(OptionKind::Person, &[], None, true).contains("class=\"warning\""));
    assert!(render_options_home().contains("/summary/options/specialties"));
}

#[test]
fn page_frame_escapes_title_only() {
    let html = render_page("A<B", "<p>body</p>");
    assert!(html.starts_with("<!doctype html>"));
    assert!(html.contains("<title>A&lt;B</title>"));
    assert!(html.contains("<main>\n<p>body</p>\n</main>"));
    assert!(html.contains("* { box-sizing: border-box; }"));
    assert!(html.ends_with("</html>"));
}

#[test]
fn fill_form_warnings() {
    let html = render_fill_form(&[], &[], &[], Some("错误<1>"));
    assert!(html.contains("填报前需要先维护人员名单"));
    assert!(html.contains("<div class=\"warning\">错误&lt;1&gt;</div>"));
    assert!(html.contains("action=\"/fill/new\""));
    assert!(html.contains("工作项 1"));
}
