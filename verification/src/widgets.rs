//! The select boxes of the forms.

use vstd::prelude::*;

use crate::model::{opt_str, OptionItem};
use crate::templates;
use crate::text::{esc_spec, int_decimal, push_esc, push_i64, same_text, strip_leading,
    strip_leading_spec};

verus! {

/// ` selected` on the chosen option, nothing on the others.
pub open spec fn selected_attr(is_selected: bool) -> Seq<char> {
    if is_selected {
        templates::SELECTED_ATTR@
    } else {
        Seq::empty()
    }
}

/// `（已禁用）` after the label of a disabled option.
pub open spec fn disabled_hint(is_active: bool) -> Seq<char> {
    if is_active {
        Seq::empty()
    } else {
        templates::DISABLED_HINT@
    }
}

fn push_selected(out: &mut String, is_selected: bool)
    ensures
        final(out)@ == old(out)@ + selected_attr(is_selected),
{
    if is_selected {
        out.append(templates::SELECTED_ATTR);
    } else {
        assert(old(out)@ + Seq::<char>::empty() == old(out)@);
    }
}

fn push_disabled(out: &mut String, is_active: bool)
    ensures
        final(out)@ == old(out)@ + disabled_hint(is_active),
{
    if !is_active {
        out.append(templates::DISABLED_HINT);
    } else {
        assert(old(out)@ + Seq::<char>::empty() == old(out)@);
    }
}

// ---------------------------------------------------------------------------
// Searchable select of options
// ---------------------------------------------------------------------------

/// One option of a searchable select; its label is also its search key.
pub open spec fn search_option_spec(item: OptionItem, selected: Option<i64>) -> Seq<char> {
    templates::SEARCH_OPTION_0@ + int_decimal(item.id as int) + templates::SEARCH_OPTION_1@
        + selected_attr(selected == Some(item.id)) + templates::SEARCH_OPTION_2@ + esc_spec(
        item.label@,
    ) + templates::SEARCH_OPTION_3@ + esc_spec(item.label@) + disabled_hint(item.is_active)
        + templates::SEARCH_OPTION_5@
}

pub open spec fn search_options_spec(items: Seq<OptionItem>, selected: Option<i64>) -> Seq<char>
    decreases items.len(),
{
    if items.len() == 0 {
        Seq::empty()
    } else {
        search_options_spec(items.drop_last(), selected) + search_option_spec(items.last(), selected)
    }
}

fn push_search_option(out: &mut String, item: &OptionItem, selected: Option<i64>)
    ensures
        final(out)@ == old(out)@ + search_option_spec(*item, selected),
{
    let ghost before = out@;
    out.append(templates::SEARCH_OPTION_0);
    push_i64(out, item.id);
    out.append(templates::SEARCH_OPTION_1);
    push_selected(out, selected == Some(item.id));
    out.append(templates::SEARCH_OPTION_2);
    push_esc(out, item.label.as_str());
    out.append(templates::SEARCH_OPTION_3);
    push_esc(out, item.label.as_str());
    push_disabled(out, item.is_active);
    out.append(templates::SEARCH_OPTION_5);
    assert(out@ =~= before + search_option_spec(*item, selected));
}

/// A required select of options with a search box in front; the search
/// hint is the placeholder without its leading `请选择`.
pub open spec fn render_select_spec(
    name: Seq<char>,
    options: Seq<OptionItem>,
    selected: Option<i64>,
    placeholder: Seq<char>,
) -> Seq<char> {
    templates::SEARCH_SELECT_0@ + esc_spec(
        strip_leading_spec(placeholder, templates::CHOOSE_PREFIX@),
    ) + templates::SEARCH_SELECT_1@ + esc_spec(name) + templates::SEARCH_SELECT_2@ + esc_spec(
        placeholder,
    ) + templates::SEARCH_SELECT_3@ + search_options_spec(options, selected)
        + templates::SEARCH_SELECT_CLOSE@
}

/// The searchable select of an option list.
pub fn render_select(name: &str, options: &[OptionItem], selected: Option<i64>, placeholder: &str) -> (r:
    String)
    ensures
        r@ == render_select_spec(name@, options@, selected, placeholder@),
{
    let mut html = String::from_str(templates::SEARCH_SELECT_0);
    let hint = strip_leading(placeholder, templates::CHOOSE_PREFIX);
    push_esc(&mut html, hint.as_str());
    html.append(templates::SEARCH_SELECT_1);
    push_esc(&mut html, name);
    html.append(templates::SEARCH_SELECT_2);
    push_esc(&mut html, placeholder);
    html.append(templates::SEARCH_SELECT_3);
    let ghost head = html@;
    let n = options.len();
    let mut i: usize = 0;
    while i < n
        invariant
            n == options@.len(),
            i <= n,
            html@ == head + search_options_spec(options@.take(i as int), selected),
        decreases n - i,
    {
        let item = &options[i];
        assert(options@.take(i + 1).drop_last() == options@.take(i as int));
        push_search_option(&mut html, item, selected);
        i = i + 1;
    }
    assert(options@.take(n as int) == options@);
    html.append(templates::SEARCH_SELECT_CLOSE);
    html
}

// ---------------------------------------------------------------------------
// Filter select of options
// ---------------------------------------------------------------------------

pub open spec fn filter_option_spec(item: OptionItem, selected: Option<i64>) -> Seq<char> {
    templates::FILTER_OPTION_0@ + int_decimal(item.id as int) + templates::FILTER_OPTION_1@
        + selected_attr(selected == Some(item.id)) + templates::FILTER_OPTION_2@ + esc_spec(
        item.label@,
    ) + disabled_hint(item.is_active) + templates::FILTER_OPTION_4@
}

pub open spec fn filter_options_spec(items: Seq<OptionItem>, selected: Option<i64>) -> Seq<char>
    decreases items.len(),
{
    if items.len() == 0 {
        Seq::empty()
    } else {
        filter_options_spec(items.drop_last(), selected) + filter_option_spec(items.last(), selected)
    }
}

fn push_filter_option(out: &mut String, item: &OptionItem, selected: Option<i64>)
    ensures
        final(out)@ == old(out)@ + filter_option_spec(*item, selected),
{
    let ghost before = out@;
    out.append(templates::FILTER_OPTION_0);
    push_i64(out, item.id);
    out.append(templates::FILTER_OPTION_1);
    push_selected(out, selected == Some(item.id));
    out.append(templates::FILTER_OPTION_2);
    push_esc(out, item.label.as_str());
    push_disabled(out, item.is_active);
    out.append(templates::FILTER_OPTION_4);
    assert(out@ =~= before + filter_option_spec(*item, selected));
}

/// A select of options whose first entry, value 0, stands for all.
pub open spec fn render_filter_select_spec(
    name: Seq<char>,
    options: Seq<OptionItem>,
    selected: Option<i64>,
    all_label: Seq<char>,
) -> Seq<char> {
    templates::FILTER_SELECT_0@ + esc_spec(name) + templates::FILTER_SELECT_1@ + esc_spec(all_label)
        + templates::FILTER_SELECT_2@ + filter_options_spec(options, selected)
        + templates::SELECT_CLOSE@
}

/// The filter select of an option list.
pub fn render_filter_select(
    name: &str,
    options: &[OptionItem],
    selected: Option<i64>,
    all_label: &str,
) -> (r: String)
    ensures
        r@ == render_filter_select_spec(name@, options@, selected, all_label@),
{
    let mut html = String::from_str(templates::FILTER_SELECT_0);
    push_esc(&mut html, name);
    html.append(templates::FILTER_SELECT_1);
    push_esc(&mut html, all_label);
    html.append(templates::FILTER_SELECT_2);
    let ghost head = html@;
    let n = options.len();
    let mut i: usize = 0;
    while i < n
        invariant
            n == options@.len(),
            i <= n,
            html@ == head + filter_options_spec(options@.take(i as int), selected),
        decreases n - i,
    {
        let item = &options[i];
        assert(options@.take(i + 1).drop_last() == options@.take(i as int));
        push_filter_option(&mut html, item, selected);
        i = i + 1;
    }
    assert(options@.take(n as int) == options@);
    html.append(templates::SELECT_CLOSE);
    html
}

// ---------------------------------------------------------------------------
// Month and meeting number
// ---------------------------------------------------------------------------

/// `<select name="…">`, with ` required` unless an "all" entry is offered.
pub open spec fn select_open_spec(name: Seq<char>, include_all: bool) -> Seq<char> {
    templates::SELECT_NAME_0@ + esc_spec(name) + templates::SELECT_NAME_1@ + (if include_all {
        Seq::empty()
    } else {
        templates::REQUIRED_ATTR@
    }) + templates::SELECT_NAME_2@
}

fn push_select_open(out: &mut String, name: &str, include_all: bool)
    ensures
        final(out)@ == old(out)@ + select_open_spec(name@, include_all),
{
    out.append(templates::SELECT_NAME_0);
    push_esc(out, name);
    out.append(templates::SELECT_NAME_1);
    if !include_all {
        out.append(templates::REQUIRED_ATTR);
    }
    out.append(templates::SELECT_NAME_2);
}

pub open spec fn month_option_spec(month: int, selected: Option<i64>) -> Seq<char> {
    templates::MONTH_OPTION_0@ + int_decimal(month) + templates::MONTH_OPTION_1@ + selected_attr(
        selected is Some && selected->0 == month,
    ) + templates::MONTH_OPTION_2@ + int_decimal(month) + templates::MONTH_OPTION_3@
}

/// The options for months 1 to `n`.
pub open spec fn month_options_spec(n: int, selected: Option<i64>) -> Seq<char>
    decreases n,
{
    if n <= 0 {
        Seq::empty()
    } else {
        month_options_spec(n - 1, selected) + month_option_spec(n, selected)
    }
}

/// A select of the months 1 to 12, with either an "all months" entry or a
/// required placeholder first.
pub open spec fn month_select_spec(name: Seq<char>, selected: Option<i64>, include_all: bool) -> Seq<
    char,
> {
    select_open_spec(name, include_all) + (if include_all {
        templates::MONTH_ALL_OPTION@
    } else {
        templates::MONTH_PLACEHOLDER_OPTION@
    }) + month_options_spec(12, selected) + templates::SELECT_CLOSE@
}

/// The month select.
pub fn month_select(name: &str, selected: Option<i64>, include_all: bool) -> (r: String)
    ensures
        r@ == month_select_spec(name@, selected, include_all),
{
    let mut html = String::new();
    push_select_open(&mut html, name, include_all);
    if include_all {
        html.append(templates::MONTH_ALL_OPTION);
    } else {
        html.append(templates::MONTH_PLACEHOLDER_OPTION);
    }
    let ghost head = html@;
    let mut month: i64 = 1;
    while month <= 12
        invariant
            1 <= month <= 13,
            html@ == head + month_options_spec(month - 1, selected),
        decreases 13 - month,
    {
        let ghost before = html@;
        html.append(templates::MONTH_OPTION_0);
        push_i64(&mut html, month);
        html.append(templates::MONTH_OPTION_1);
        push_selected(&mut html, selected == Some(month));
        html.append(templates::MONTH_OPTION_2);
        push_i64(&mut html, month);
        html.append(templates::MONTH_OPTION_3);
        assert(html@ =~= before + month_option_spec(month as int, selected));
        month = month + 1;
    }
    html.append(templates::SELECT_CLOSE);
    html
}

pub open spec fn count_option_spec(count: int, selected: Option<i64>) -> Seq<char> {
    templates::COUNT_OPTION_0@ + int_decimal(count) + templates::COUNT_OPTION_1@ + selected_attr(
        selected is Some && selected->0 == count,
    ) + templates::COUNT_OPTION_2@ + int_decimal(count) + templates::COUNT_OPTION_3@
}

/// The options for meeting numbers 1 to `n`.
pub open spec fn count_options_spec(n: int, selected: Option<i64>) -> Seq<char>
    decreases n,
{
    if n <= 0 {
        Seq::empty()
    } else {
        count_options_spec(n - 1, selected) + count_option_spec(n, selected)
    }
}

/// A select of the meeting numbers 1 to 20, with either an "all" entry or a
/// required placeholder first.
pub open spec fn meeting_count_select_spec(
    name: Seq<char>,
    selected: Option<i64>,
    include_all: bool,
) -> Seq<char> {
    select_open_spec(name, include_all) + (if include_all {
        templates::COUNT_ALL_OPTION@
    } else {
        templates::COUNT_PLACEHOLDER_OPTION@
    }) + count_options_spec(20, selected) + templates::SELECT_CLOSE@
}

/// The meeting-number select.
pub fn meeting_count_select(name: &str, selected: Option<i64>, include_all: bool) -> (r: String)
    ensures
        r@ == meeting_count_select_spec(name@, selected, include_all),
{
    let mut html = String::new();
    push_select_open(&mut html, name, include_all);
    if include_all {
        html.append(templates::COUNT_ALL_OPTION);
    } else {
        html.append(templates::COUNT_PLACEHOLDER_OPTION);
    }
    let ghost head = html@;
    let mut count: i64 = 1;
    while count <= 20
        invariant
            1 <= count <= 21,
            html@ == head + count_options_spec(count - 1, selected),
        decreases 21 - count,
    {
        let ghost before = html@;
        html.append(templates::COUNT_OPTION_0);
        push_i64(&mut html, count);
        html.append(templates::COUNT_OPTION_1);
        push_selected(&mut html, selected == Some(count));
        html.append(templates::COUNT_OPTION_2);
        push_i64(&mut html, count);
        html.append(templates::COUNT_OPTION_3);
        assert(html@ =~= before + count_option_spec(count as int, selected));
        count = count + 1;
    }
    html.append(templates::SELECT_CLOSE);
    html
}

// ---------------------------------------------------------------------------
// Progress
// ---------------------------------------------------------------------------

pub open spec fn progress_option_spec(choice: Seq<char>, is_selected: bool) -> Seq<char> {
    templates::PROGRESS_OPTION_0@ + esc_spec(choice) + templates::PROGRESS_OPTION_1@ + selected_attr(
        is_selected,
    ) + templates::PROGRESS_OPTION_2@ + esc_spec(choice) + templates::PROGRESS_OPTION_3@
}

fn push_progress_option(out: &mut String, choice: &str, is_selected: bool)
    ensures
        final(out)@ == old(out)@ + progress_option_spec(choice@, is_selected),
{
    let ghost before = out@;
    out.append(templates::PROGRESS_OPTION_0);
    push_esc(out, choice);
    out.append(templates::PROGRESS_OPTION_1);
    push_selected(out, is_selected);
    out.append(templates::PROGRESS_OPTION_2);
    push_esc(out, choice);
    out.append(templates::PROGRESS_OPTION_3);
    assert(out@ =~= before + progress_option_spec(choice@, is_selected));
}

fn chosen(selected: Option<&str>, choice: &str) -> (r: bool)
    ensures
        r == (opt_str(selected) == Some(choice@)),
{
    match selected {
        Some(s) => same_text(s, choice),
        None => false,
    }
}

/// The required progress select: 完成, 进行中, 未完成, 暂停.
pub open spec fn progress_select_spec(selected: Option<Seq<char>>) -> Seq<char> {
    templates::PROGRESS_SELECT_OPEN@ + progress_option_spec(
        templates::PROGRESS_DONE@,
        selected == Some(templates::PROGRESS_DONE@),
    ) + progress_option_spec(
        templates::PROGRESS_ACTIVE@,
        selected == Some(templates::PROGRESS_ACTIVE@),
    ) + progress_option_spec(
        templates::PROGRESS_UNDONE@,
        selected == Some(templates::PROGRESS_UNDONE@),
    ) + progress_option_spec(
        templates::PROGRESS_PAUSED@,
        selected == Some(templates::PROGRESS_PAUSED@),
    ) + templates::SELECT_CLOSE@
}

/// The progress select of the log forms.
pub fn progress_select(selected: Option<&str>) -> (r: String)
    ensures
        r@ == progress_select_spec(opt_str(selected)),
{
    let mut html = String::from_str(templates::PROGRESS_SELECT_OPEN);
    push_progress_option(&mut html, templates::PROGRESS_DONE, chosen(selected, templates::PROGRESS_DONE));
    push_progress_option(&mut html, templates::PROGRESS_ACTIVE, chosen(selected, templates::PROGRESS_ACTIVE));
    push_progress_option(&mut html, templates::PROGRESS_UNDONE, chosen(selected, templates::PROGRESS_UNDONE));
    push_progress_option(&mut html, templates::PROGRESS_PAUSED, chosen(selected, templates::PROGRESS_PAUSED));
    html.append(templates::SELECT_CLOSE);
    html
}

/// The progress filter: 全部 (chosen when nothing is), then the four states.
pub open spec fn progress_filter_select_spec(selected: Option<Seq<char>>) -> Seq<char> {
    templates::PROGRESS_FILTER_OPEN@ + progress_option_spec(
        templates::PROGRESS_ALL@,
        selected == Some(templates::PROGRESS_ALL@) || selected is None,
    ) + progress_option_spec(
        templates::PROGRESS_DONE@,
        selected == Some(templates::PROGRESS_DONE@),
    ) + progress_option_spec(
        templates::PROGRESS_ACTIVE@,
        selected == Some(templates::PROGRESS_ACTIVE@),
    ) + progress_option_spec(
        templates::PROGRESS_UNDONE@,
        selected == Some(templates::PROGRESS_UNDONE@),
    ) + progress_option_spec(
        templates::PROGRESS_PAUSED@,
        selected == Some(templates::PROGRESS_PAUSED@),
    ) + templates::SELECT_CLOSE@
}

/// The progress select of the summary filters.
pub fn progress_filter_select(selected: Option<&str>) -> (r: String)
    ensures
        r@ == progress_filter_select_spec(opt_str(selected)),
{
    let mut html = String::from_str(templates::PROGRESS_FILTER_OPEN);
    let all_chosen = chosen(selected, templates::PROGRESS_ALL) || selected.is_none();
    push_progress_option(&mut html, templates::PROGRESS_ALL, all_chosen);
    push_progress_option(&mut html, templates::PROGRESS_DONE, chosen(selected, templates::PROGRESS_DONE));
    push_progress_option(&mut html, templates::PROGRESS_ACTIVE, chosen(selected, templates::PROGRESS_ACTIVE));
    push_progress_option(&mut html, templates::PROGRESS_UNDONE, chosen(selected, templates::PROGRESS_UNDONE));
    push_progress_option(&mut html, templates::PROGRESS_PAUSED, chosen(selected, templates::PROGRESS_PAUSED));
    html.append(templates::SELECT_CLOSE);
    html
}

} // verus!
