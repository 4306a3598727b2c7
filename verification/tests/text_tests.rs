use weekly_log::meeting::{meeting_label, validate_meeting};
use weekly_log::text::{
    esc, fmt_i64, fmt_usize, parse_i64, same_text, strip_leading, text_less, trim,
};

#[test]
fn esc_replaces_all_markup_characters() {
    assert_eq!(
        esc("<a href='x'>Tom & \"Jerry\"</a>"),
        "&lt;a href=&#x27;x&#x27;&gt;Tom &amp; &quot;Jerry&quot;&lt;/a&gt;"
    );
}

#[test]
fn esc_keeps_plain_and_chinese_text() {
    assert_eq!(esc("手册策划 CH-20A"), "手册策划 CH-20A");
    assert_eq!(esc(""), "");
}

#[test]
fn esc_does_not_escape_twice() {
    assert_eq!(esc("&amp;"), "&amp;amp;");
}

#[test]
fn trim_removes_unicode_whitespace() {
    assert_eq!(trim("  完成\t\n"), "完成");
    assert_eq!(trim("\u{3000}全角空格\u{3000}"), "全角空格");
    assert_eq!(trim("   "), "");
    assert_eq!(trim("a b"), "a b");
}

#[test]
fn trim_twice_is_trim_once() {
    let once = trim(" \u{a0} x y \r\n");
    assert_eq!(trim(&once), once);
}

#[test]
fn strip_leading_removes_every_copy() {
    assert_eq!(strip_leading("请选择项目号", "请选择"), "项目号");
    assert_eq!(strip_leading("请选择请选择人员", "请选择"), "人员");
    assert_eq!(strip_leading("专业方向", "请选择"), "专业方向");
    assert_eq!(strip_leading("abc", ""), "abc");
}

#[test]
fn decimal_formatting() {
    assert_eq!(fmt_i64(0), "0");
    assert_eq!(fmt_i64(42), "42");
    assert_eq!(fmt_i64(-7), "-7");
    assert_eq!(fmt_i64(i64::MIN), "-9223372036854775808");
    assert_eq!(fmt_i64(i64::MAX), "9223372036854775807");
    assert_eq!(fmt_usize(1000), "1000");
}

#[test]
fn parse_follows_std() {
    for s in ["0", "12", "+5", "-5", "007", "9223372036854775807", "-9223372036854775808"] {
        assert_eq!(parse_i64(s), s.parse::<i64>().ok(), "{}", s);
    }
    for s in ["", "-", "+", "1a", " 1", "9223372036854775808", "-9223372036854775809", "+-1", "１"] {
        assert_eq!(parse_i64(s), None, "{}", s);
        assert!(s.parse::<i64>().is_err());
    }
}

#[test]
fn decimal_round_trip() {
    for n in [0i64, 1, -1, 19, -20, 123456789, i64::MIN, i64::MAX] {
        assert_eq!(parse_i64(&fmt_i64(n)), Some(n));
    }
}

#[test]
fn text_order_matches_string_order() {
    let words = ["", "a", "ab", "b", "保障性", "六性", "适航性", "技术出版物设计", "Z"];
    for a in words {
        for b in words {
            assert_eq!(text_less(a, b), a < b, "{} {}", a, b);
            assert_eq!(same_text(a, b), a == b);
        }
    }
}

#[test]
fn meeting_label_names_month_and_number() {
    assert_eq!(meeting_label(6, 1), "6月第1次例会");
    assert_eq!(meeting_label(12, 20), "12月第20次例会");
    assert_eq!(meeting_label(-1, 0), "-1月第0次例会");
}

#[test]
fn validate_meeting_ranges() {
    assert_eq!(validate_meeting(1, 1), Ok(()));
    assert_eq!(validate_meeting(12, 20), Ok(()));
    assert_eq!(validate_meeting(0, 1), Err("月份必须在 1 到 12 之间。".to_string()));
    assert_eq!(validate_meeting(13, 1), Err("月份必须在 1 到 12 之间。".to_string()));
    assert_eq!(validate_meeting(5, 0), Err("例会次数必须在 1 到 20 之间。".to_string()));
    assert_eq!(validate_meeting(5, 21), Err("例会次数必须在 1 到 20 之间。".to_string()));
    assert_eq!(validate_meeting(0, 0), Err("月份必须在 1 到 12 之间。".to_string()));
}

#[test]
fn distinct_meetings_have_distinct_names() {
    assert_ne!(meeting_label(1, 11), meeting_label(11, 1));
    assert_ne!(meeting_label(1, 2), meeting_label(12, 0));
    let mut names = Vec::new();
    for month in 1..=12 {
        for count in 1..=20 {
            names.push(meeting_label(month, count));
        }
    }
    let total = names.len();
    names.sort();
    names.dedup();
    assert_eq!(names.len(), total);
}

fn unescape_by_passes(t: &str) -> String {
    t.replace("&#x27;", "'")
        .replace("&quot;", "\"")
        .replace("&gt;", ">")
        .replace("&lt;", "<")
        .replace("&amp;", "&")
}

#[test]
fn escaping_is_undone_by_replace_passes() {
    for s in ["", "plain 文本", "a&b", "&lt;tag&gt;", "&amp;quot;", "'\"<>&", "&#x27;&&;", "x<&'y\"z>"] {
        assert_eq!(unescape_by_passes(&esc(s)), s);
    }
}

#[test]
fn every_ampersand_in_escaped_text_starts_an_entity() {
    let entities = ["&amp;", "&lt;", "&gt;", "&quot;", "&#x27;"];
    for s in ["a&b", "&&&", "&lt;", "'\"<>&", "no markup"] {
        let e = esc(s);
        for (k, c) in e.char_indices() {
            if c == '&' {
                assert!(entities.iter().any(|ent| e[k..].starts_with(ent)), "{} at {}", e, k);
            }
        }
    }
}
