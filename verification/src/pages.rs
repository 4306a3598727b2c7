//! The forms of the reporting side and of the summary side, the option
//! maintenance pages, and the page frame around every body.

use vstd::prelude::*;

use crate::model::{
    opt_str, opt_text, AttendanceQuery, OptionItem, OptionKind, ProjectReportQuery, FilterQuery,
    WeeklyLogView,
};
use crate::templates;
use crate::text::{esc_spec, int_decimal, lemma_starts_with_extend, push_esc, push_i64, starts_with_at};
use crate::widgets::{
    meeting_count_select, meeting_count_select_spec, month_select, month_select_spec,
    progress_filter_select, progress_filter_select_spec, progress_select, progress_select_spec,
    render_filter_select, render_filter_select_spec, render_select, render_select_spec,
};

verus! {

/// The warning shown when one of the option lists is empty.
pub open spec fn missing_options_warning(
    projects: Seq<OptionItem>,
    specialties: Seq<OptionItem>,
    persons: Seq<OptionItem>,
) -> Seq<char> {
    if projects.len() == 0 || specialties.len() == 0 || persons.len() == 0 {
        templates::OPTIONS_MISSING_WARNING@
    } else {
        Seq::empty()
    }
}

fn push_missing_warning(
    out: &mut String,
    projects: &[OptionItem],
    specialties: &[OptionItem],
    persons: &[OptionItem],
)
    ensures
        final(out)@ == old(out)@ + missing_options_warning(projects@, specialties@, persons@),
{
    if projects.len() == 0 || specialties.len() == 0 || persons.len() == 0 {
        out.append(templates::OPTIONS_MISSING_WARNING);
    } else {
        assert(old(out)@ + Seq::<char>::empty() == old(out)@);
    }
}

fn push_owned(out: &mut String, s: String)
    ensures
        final(out)@ == old(out)@ + s@,
{
    out.append(s.as_str());
}

// ---------------------------------------------------------------------------
// Editing one log entry
// ---------------------------------------------------------------------------

pub open spec fn log_field(log: Option<&WeeklyLogView>, f: spec_fn(WeeklyLogView) -> i64) -> Option<
    i64,
> {
    match log {
        Some(l) => Some(f(*l)),
        None => None,
    }
}

pub open spec fn log_text(log: Option<&WeeklyLogView>, f: spec_fn(WeeklyLogView) -> Seq<char>) -> Seq<
    char,
> {
    match log {
        Some(l) => f(*l),
        None => Seq::empty(),
    }
}

/// The single-entry form, prefilled from `log` when there is one.
pub open spec fn render_log_form_spec(
    action: Seq<char>,
    title: Seq<char>,
    log: Option<&WeeklyLogView>,
    projects: Seq<OptionItem>,
    specialties: Seq<OptionItem>,
    persons: Seq<OptionItem>,
    submit_label: Seq<char>,
    show_admin_links: bool,
) -> Seq<char> {
    let progress = match log {
        Some(l) => Some(l.progress@),
        None => None,
    };
    templates::LOG_FORM_0@ + esc_spec(title) + templates::LOG_FORM_1@ + (if show_admin_links {
        templates::ADMIN_OPTION_LINK@
    } else {
        Seq::empty()
    }) + templates::LOG_FORM_2@ + missing_options_warning(projects, specialties, persons)
        + templates::LOG_FORM_3@ + esc_spec(action) + templates::LOG_FORM_4@ + month_select_spec(
        templates::FIELD_MEETING_MONTH@,
        log_field(log, |l: WeeklyLogView| l.meeting_month),
        false,
    ) + templates::LOG_FORM_5@ + meeting_count_select_spec(
        templates::FIELD_MEETING_COUNT@,
        log_field(log, |l: WeeklyLogView| l.meeting_count),
        false,
    ) + templates::LOG_FORM_6@ + render_select_spec(
        templates::FIELD_PROJECT_ID@,
        projects,
        log_field(log, |l: WeeklyLogView| l.project_id),
        templates::PLACEHOLDER_PROJECT@,
    ) + templates::LOG_FORM_7@ + render_select_spec(
        templates::FIELD_SPECIALTY_ID@,
        specialties,
        log_field(log, |l: WeeklyLogView| l.specialty_id),
        templates::PLACEHOLDER_SPECIALTY@,
    ) + templates::LOG_FORM_8@ + render_select_spec(
        templates::FIELD_MODULE_OWNER_ID@,
        persons,
        log_field(log, |l: WeeklyLogView| l.module_owner_id),
        templates::PLACEHOLDER_MODULE_OWNER@,
    ) + templates::LOG_FORM_9@ + render_select_spec(
        templates::FIELD_COMPLETER_ID@,
        persons,
        log_field(log, |l: WeeklyLogView| l.completer_id),
        templates::PLACEHOLDER_COMPLETER@,
    ) + templates::LOG_FORM_10@ + progress_select_spec(progress) + templates::LOG_FORM_11@
        + esc_spec(log_text(log, |l: WeeklyLogView| l.last_work_item@)) + templates::LOG_FORM_12@
        + esc_spec(log_text(log, |l: WeeklyLogView| l.reason@)) + templates::LOG_FORM_13@ + esc_spec(
        log_text(log, |l: WeeklyLogView| l.next_work_item@),
    ) + templates::LOG_FORM_14@ + esc_spec(submit_label) + templates::LOG_FORM_15@ + (
    if show_admin_links {
        templates::ADMIN_BACK_LINK@
    } else {
        Seq::empty()
    }) + templates::LOG_FORM_16@
}

/// The edit form of an entry is prefilled with that entry's values: it holds
/// the month select with the entry's month chosen, the meeting-number select
/// with its number, the `project_id` and `specialty_id` selects with its
/// project and specialty, the `module_owner_id` select with its module owner,
/// the `completer_id` select with its reporter, and the progress select with
/// its progress.
pub proof fn lemma_edit_form_prefilled(
    action: Seq<char>,
    title: Seq<char>,
    log: &WeeklyLogView,
    projects: Seq<OptionItem>,
    specialties: Seq<OptionItem>,
    persons: Seq<OptionItem>,
    submit_label: Seq<char>,
    show_admin_links: bool,
)
    ensures
        ({
            let t = render_log_form_spec(
                action,
                title,
                Some(log),
                projects,
                specialties,
                persons,
                submit_label,
                show_admin_links,
            );
            &&& exists|i: int|
                starts_with_at(
                    t,
                    i,
                    month_select_spec(templates::FIELD_MEETING_MONTH@, Some(log.meeting_month), false),
                )
            &&& exists|i: int|
                starts_with_at(
                    t,
                    i,
                    meeting_count_select_spec(
                        templates::FIELD_MEETING_COUNT@,
                        Some(log.meeting_count),
                        false,
                    ),
                )
            &&& exists|i: int|
                starts_with_at(
                    t,
                    i,
                    render_select_spec(
                        templates::FIELD_PROJECT_ID@,
                        projects,
                        Some(log.project_id),
                        templates::PLACEHOLDER_PROJECT@,
                    ),
                )
            &&& exists|i: int|
                starts_with_at(
                    t,
                    i,
                    render_select_spec(
                        templates::FIELD_SPECIALTY_ID@,
                        specialties,
                        Some(log.specialty_id),
                        templates::PLACEHOLDER_SPECIALTY@,
                    ),
                )
            &&& exists|i: int|
                starts_with_at(
                    t,
                    i,
                    render_select_spec(
                        templates::FIELD_MODULE_OWNER_ID@,
                        persons,
                        Some(log.module_owner_id),
                        templates::PLACEHOLDER_MODULE_OWNER@,
                    ),
                )
            &&& exists|i: int|
                starts_with_at(
                    t,
                    i,
                    render_select_spec(
                        templates::FIELD_COMPLETER_ID@,
                        persons,
                        Some(log.completer_id),
                        templates::PLACEHOLDER_COMPLETER@,
                    ),
                )
            &&& exists|i: int| starts_with_at(t, i, progress_select_spec(Some(log.progress@)))
        }),
{
    let t = render_log_form_spec(
        action,
        title,
        Some(log),
        projects,
        specialties,
        persons,
        submit_label,
        show_admin_links,
    );
    assert forall|a: Seq<char>, b: Seq<char>, k: int, p: Seq<char>| starts_with_at(
        a,
        k,
        p,
    ) implies #[trigger] starts_with_at(a + b, k, p) by {
        lemma_starts_with_extend(a, b, k, p);
    }
    assert forall|a: Seq<char>, x: Seq<char>| #[trigger] starts_with_at(a + x, a.len() as int, x) by {
        assert((a + x).subrange(a.len() as int, (a.len() + x.len()) as int) =~= x);
    }
    let p0 = templates::LOG_FORM_0@ + esc_spec(title) + templates::LOG_FORM_1@ + (
    if show_admin_links {
        templates::ADMIN_OPTION_LINK@
    } else {
        Seq::empty()
    }) + templates::LOG_FORM_2@ + missing_options_warning(projects, specialties, persons)
        + templates::LOG_FORM_3@ + esc_spec(action) + templates::LOG_FORM_4@;
    let ms = month_select_spec(templates::FIELD_MEETING_MONTH@, Some(log.meeting_month), false);
    let p1 = p0 + ms + templates::LOG_FORM_5@;
    let cs = meeting_count_select_spec(templates::FIELD_MEETING_COUNT@, Some(log.meeting_count), false);
    let p2 = p1 + cs + templates::LOG_FORM_6@;
    let ps = render_select_spec(
        templates::FIELD_PROJECT_ID@,
        projects,
        Some(log.project_id),
        templates::PLACEHOLDER_PROJECT@,
    );
    let p3 = p2 + ps + templates::LOG_FORM_7@;
    let ss = render_select_spec(
        templates::FIELD_SPECIALTY_ID@,
        specialties,
        Some(log.specialty_id),
        templates::PLACEHOLDER_SPECIALTY@,
    );
    let p4 = p3 + ss + templates::LOG_FORM_8@;
    let os = render_select_spec(
        templates::FIELD_MODULE_OWNER_ID@,
        persons,
        Some(log.module_owner_id),
        templates::PLACEHOLDER_MODULE_OWNER@,
    );
    let p5 = p4 + os + templates::LOG_FORM_9@;
    let rs = render_select_spec(
        templates::FIELD_COMPLETER_ID@,
        persons,
        Some(log.completer_id),
        templates::PLACEHOLDER_COMPLETER@,
    );
    let p6 = p5 + rs + templates::LOG_FORM_10@;
    let gs = progress_select_spec(Some(log.progress@));
    assert(starts_with_at(p0 + ms, p0.len() as int, ms));
    assert(starts_with_at(p1 + cs, p1.len() as int, cs));
    assert(starts_with_at(p2 + ps, p2.len() as int, ps));
    assert(starts_with_at(p3 + ss, p3.len() as int, ss));
    assert(starts_with_at(p4 + os, p4.len() as int, os));
    assert(starts_with_at(p5 + rs, p5.len() as int, rs));
    assert(starts_with_at(p6 + gs, p6.len() as int, gs));
    assert(starts_with_at(t, p0.len() as int, ms));
    assert(starts_with_at(t, p1.len() as int, cs));
    assert(starts_with_at(t, p2.len() as int, ps));
    assert(starts_with_at(t, p3.len() as int, ss));
    assert(starts_with_at(t, p4.len() as int, os));
    assert(starts_with_at(t, p5.len() as int, rs));
    assert(starts_with_at(t, p6.len() as int, gs));
}

/// A piece that ends a text grows with what is appended to the text.
proof fn lemma_starts_with_grow(a: Seq<char>, k: int, p: Seq<char>, q: Seq<char>)
    requires
        starts_with_at(a, k, p),
        k + p.len() == a.len(),
    ensures
        starts_with_at(a + q, k, p + q),
{
    assert((a + q).subrange(k, k + (p + q).len()) =~= p + q);
}

/// The edit form of an entry shows its last week's work, reason and plan,
/// escaped, each in the text area of that name (`last_work_item`, `reason`,
/// `next_work_item`), in this order.
pub proof fn lemma_edit_form_texts(
    action: Seq<char>,
    title: Seq<char>,
    log: &WeeklyLogView,
    projects: Seq<OptionItem>,
    specialties: Seq<OptionItem>,
    persons: Seq<OptionItem>,
    submit_label: Seq<char>,
    show_admin_links: bool,
)
    ensures
        exists|i: int|
            starts_with_at(
                render_log_form_spec(
                    action,
                    title,
                    Some(log),
                    projects,
                    specialties,
                    persons,
                    submit_label,
                    show_admin_links,
                ),
                i,
                templates::LOG_FORM_11@ + esc_spec(log.last_work_item@) + templates::LOG_FORM_12@
                    + esc_spec(log.reason@) + templates::LOG_FORM_13@ + esc_spec(
                    log.next_work_item@,
                ) + templates::LOG_FORM_14@,
            ),
{
    let t = render_log_form_spec(
        action,
        title,
        Some(log),
        projects,
        specialties,
        persons,
        submit_label,
        show_admin_links,
    );
    let pre = templates::LOG_FORM_0@ + esc_spec(title) + templates::LOG_FORM_1@ + (
    if show_admin_links {
        templates::ADMIN_OPTION_LINK@
    } else {
        Seq::empty()
    }) + templates::LOG_FORM_2@ + missing_options_warning(projects, specialties, persons)
        + templates::LOG_FORM_3@ + esc_spec(action) + templates::LOG_FORM_4@ + month_select_spec(
        templates::FIELD_MEETING_MONTH@,
        Some(log.meeting_month),
        false,
    ) + templates::LOG_FORM_5@ + meeting_count_select_spec(
        templates::FIELD_MEETING_COUNT@,
        Some(log.meeting_count),
        false,
    ) + templates::LOG_FORM_6@ + render_select_spec(
        templates::FIELD_PROJECT_ID@,
        projects,
        Some(log.project_id),
        templates::PLACEHOLDER_PROJECT@,
    ) + templates::LOG_FORM_7@ + render_select_spec(
        templates::FIELD_SPECIALTY_ID@,
        specialties,
        Some(log.specialty_id),
        templates::PLACEHOLDER_SPECIALTY@,
    ) + templates::LOG_FORM_8@ + render_select_spec(
        templates::FIELD_MODULE_OWNER_ID@,
        persons,
        Some(log.module_owner_id),
        templates::PLACEHOLDER_MODULE_OWNER@,
    ) + templates::LOG_FORM_9@ + render_select_spec(
        templates::FIELD_COMPLETER_ID@,
        persons,
        Some(log.completer_id),
        templates::PLACEHOLDER_COMPLETER@,
    ) + templates::LOG_FORM_10@ + progress_select_spec(Some(log.progress@));
    let el = esc_spec(log.last_work_item@);
    let er = esc_spec(log.reason@);
    let en = esc_spec(log.next_work_item@);
    let block = templates::LOG_FORM_11@ + el + templates::LOG_FORM_12@ + er + templates::LOG_FORM_13@
        + en + templates::LOG_FORM_14@;
    let b1 = templates::LOG_FORM_11@;
    let b2 = b1 + el;
    let b3 = b2 + templates::LOG_FORM_12@;
    let b4 = b3 + er;
    let b5 = b4 + templates::LOG_FORM_13@;
    let b6 = b5 + en;
    let x1 = pre + b1;
    assert(x1.subrange(pre.len() as int, (pre.len() + b1.len()) as int) =~= b1);
    lemma_starts_with_grow(x1, pre.len() as int, b1, el);
    lemma_starts_with_grow(x1 + el, pre.len() as int, b2, templates::LOG_FORM_12@);
    lemma_starts_with_grow(x1 + el + templates::LOG_FORM_12@, pre.len() as int, b3, er);
    lemma_starts_with_grow(
        x1 + el + templates::LOG_FORM_12@ + er,
        pre.len() as int,
        b4,
        templates::LOG_FORM_13@,
    );
    lemma_starts_with_grow(
        x1 + el + templates::LOG_FORM_12@ + er + templates::LOG_FORM_13@,
        pre.len() as int,
        b5,
        en,
    );
    lemma_starts_with_grow(
        x1 + el + templates::LOG_FORM_12@ + er + templates::LOG_FORM_13@ + en,
        pre.len() as int,
        b6,
        templates::LOG_FORM_14@,
    );
    let x = x1 + el + templates::LOG_FORM_12@ + er + templates::LOG_FORM_13@ + en
        + templates::LOG_FORM_14@;
    assert(starts_with_at(x, pre.len() as int, block));
    let s1 = esc_spec(submit_label);
    let s2 = templates::LOG_FORM_15@;
    let s3 = if show_admin_links {
        templates::ADMIN_BACK_LINK@
    } else {
        Seq::empty()
    };
    let s4 = templates::LOG_FORM_16@;
    lemma_starts_with_extend(x, s1, pre.len() as int, block);
    lemma_starts_with_extend(x + s1, s2, pre.len() as int, block);
    lemma_starts_with_extend(x + s1 + s2, s3, pre.len() as int, block);
    lemma_starts_with_extend(x + s1 + s2 + s3, s4, pre.len() as int, block);
    assert(t == x + s1 + s2 + s3 + s4);
    assert(starts_with_at(t, pre.len() as int, block));
}

/// The form that edits one log entry.
#[verifier::rlimit(50)]
pub fn render_log_form(
    action: &str,
    title: &str,
    log: Option<&WeeklyLogView>,
    projects: &[OptionItem],
    specialties: &[OptionItem],
    persons: &[OptionItem],
    submit_label: &str,
    show_admin_links: bool,
) -> (r: String)
    ensures
        r@ == render_log_form_spec(
            action@,
            title@,
            log,
            projects@,
            specialties@,
            persons@,
            submit_label@,
            show_admin_links,
        ),
{
    let meeting_month = match log {
        Some(l) => Some(l.meeting_month),
        None => None,
    };
    let meeting_count = match log {
        Some(l) => Some(l.meeting_count),
        None => None,
    };
    let project_id = match log {
        Some(l) => Some(l.project_id),
        None => None,
    };
    let specialty_id = match log {
        Some(l) => Some(l.specialty_id),
        None => None,
    };
    let module_owner_id = match log {
        Some(l) => Some(l.module_owner_id),
        None => None,
    };
    let completer_id = match log {
        Some(l) => Some(l.completer_id),
        None => None,
    };
    let last_work_item: &str = match log {
        Some(l) => l.last_work_item.as_str(),
        None => "",
    };
    let progress: Option<&str> = match log {
        Some(l) => Some(l.progress.as_str()),
        None => None,
    };
    let reason: &str = match log {
        Some(l) => l.reason.as_str(),
        None => "",
    };
    let next_work_item: &str = match log {
        Some(l) => l.next_work_item.as_str(),
        None => "",
    };
    proof {
        reveal_strlit("");
    }
    let mut html = String::from_str(templates::LOG_FORM_0);
    push_esc(&mut html, title);
    html.append(templates::LOG_FORM_1);
    if show_admin_links {
        html.append(templates::ADMIN_OPTION_LINK);
    }
    html.append(templates::LOG_FORM_2);
    push_missing_warning(&mut html, projects, specialties, persons);
    html.append(templates::LOG_FORM_3);
    push_esc(&mut html, action);
    html.append(templates::LOG_FORM_4);
    push_owned(&mut html, month_select(templates::FIELD_MEETING_MONTH, meeting_month, false));
    html.append(templates::LOG_FORM_5);
    push_owned(&mut html, meeting_count_select(templates::FIELD_MEETING_COUNT, meeting_count, false));
    html.append(templates::LOG_FORM_6);
    push_owned(
        &mut html,
        render_select(templates::FIELD_PROJECT_ID, projects, project_id, templates::PLACEHOLDER_PROJECT),
    );
    html.append(templates::LOG_FORM_7);
    push_owned(
        &mut html,
        render_select(
            templates::FIELD_SPECIALTY_ID,
            specialties,
            specialty_id,
            templates::PLACEHOLDER_SPECIALTY,
        ),
    );
    html.append(templates::LOG_FORM_8);
    push_owned(
        &mut html,
        render_select(
            templates::FIELD_MODULE_OWNER_ID,
            persons,
            module_owner_id,
            templates::PLACEHOLDER_MODULE_OWNER,
        ),
    );
    html.append(templates::LOG_FORM_9);
    push_owned(
        &mut html,
        render_select(
            templates::FIELD_COMPLETER_ID,
            persons,
            completer_id,
            templates::PLACEHOLDER_COMPLETER,
        ),
    );
    html.append(templates::LOG_FORM_10);
    push_owned(&mut html, progress_select(progress));
    html.append(templates::LOG_FORM_11);
    push_esc(&mut html, last_work_item);
    html.append(templates::LOG_FORM_12);
    push_esc(&mut html, reason);
    html.append(templates::LOG_FORM_13);
    push_esc(&mut html, next_work_item);
    html.append(templates::LOG_FORM_14);
    push_esc(&mut html, submit_label);
    html.append(templates::LOG_FORM_15);
    if show_admin_links {
        html.append(templates::ADMIN_BACK_LINK);
    }
    html.append(templates::LOG_FORM_16);
    assert(opt_str(progress) == (match log {
        Some(l) => Some(l.progress@),
        None => None,
    }));
    html
}

// ---------------------------------------------------------------------------
// Reporting several work items
// ---------------------------------------------------------------------------

/// One blank work item of the reporting form.
pub open spec fn render_fill_work_item_spec(
    projects: Seq<OptionItem>,
    specialties: Seq<OptionItem>,
    persons: Seq<OptionItem>,
) -> Seq<char> {
    templates::FILL_ITEM_0@ + render_select_spec(
        templates::FIELD_PROJECT_ID@,
        projects,
        None,
        templates::PLACEHOLDER_PROJECT@,
    ) + templates::FILL_ITEM_1@ + render_select_spec(
        templates::FIELD_SPECIALTY_ID@,
        specialties,
        None,
        templates::PLACEHOLDER_SPECIALTY@,
    ) + templates::FILL_ITEM_2@ + render_select_spec(
        templates::FIELD_MODULE_OWNER_ID@,
        persons,
        None,
        templates::PLACEHOLDER_MODULE_OWNER@,
    ) + templates::FILL_ITEM_3@ + render_select_spec(
        templates::FIELD_COMPLETER_ID@,
        persons,
        None,
        templates::PLACEHOLDER_COMPLETER@,
    ) + templates::FILL_ITEM_4@ + progress_select_spec(None) + templates::FILL_ITEM_5@
}

/// One blank work item of the reporting form.
pub fn render_fill_work_item(
    projects: &[OptionItem],
    specialties: &[OptionItem],
    persons: &[OptionItem],
) -> (r: String)
    ensures
        r@ == render_fill_work_item_spec(projects@, specialties@, persons@),
{
    let mut html = String::from_str(templates::FILL_ITEM_0);
    push_owned(
        &mut html,
        render_select(templates::FIELD_PROJECT_ID, projects, None, templates::PLACEHOLDER_PROJECT),
    );
    html.append(templates::FILL_ITEM_1);
    push_owned(
        &mut html,
        render_select(
            templates::FIELD_SPECIALTY_ID,
            specialties,
            None,
            templates::PLACEHOLDER_SPECIALTY,
        ),
    );
    html.append(templates::FILL_ITEM_2);
    push_owned(
        &mut html,
        render_select(
            templates::FIELD_MODULE_OWNER_ID,
            persons,
            None,
            templates::PLACEHOLDER_MODULE_OWNER,
        ),
    );
    html.append(templates::FILL_ITEM_3);
    push_owned(
        &mut html,
        render_select(templates::FIELD_COMPLETER_ID, persons, None, templates::PLACEHOLDER_COMPLETER),
    );
    html.append(templates::FILL_ITEM_4);
    push_owned(&mut html, progress_select(None));
    html.append(templates::FILL_ITEM_5);
    html
}

/// A warning box around an escaped message.
pub open spec fn warning_div_spec(msg: Seq<char>) -> Seq<char> {
    templates::WARNING_DIV_0@ + esc_spec(msg) + templates::WARNING_DIV_1@
}

/// The reporting form: the meeting, then one blank work item; the warnings
/// for empty option lists and for a refused submission come first.
pub open spec fn render_fill_form_spec(
    projects: Seq<OptionItem>,
    specialties: Seq<OptionItem>,
    persons: Seq<OptionItem>,
    error: Option<Seq<char>>,
) -> Seq<char> {
    templates::FILL_FORM_0@ + missing_options_warning(projects, specialties, persons) + (
    match error {
        Some(msg) => warning_div_spec(msg),
        None => Seq::empty(),
    }) + templates::FILL_FORM_1@ + month_select_spec(templates::FIELD_MEETING_MONTH@, None, false)
        + templates::FILL_FORM_2@ + meeting_count_select_spec(
        templates::FIELD_MEETING_COUNT@,
        None,
        false,
    ) + templates::FILL_FORM_3@ + render_fill_work_item_spec(projects, specialties, persons)
        + templates::FILL_FORM_4@
}

/// The reporting form.
pub fn render_fill_form(
    projects: &[OptionItem],
    specialties: &[OptionItem],
    persons: &[OptionItem],
    error: Option<&str>,
) -> (r: String)
    ensures
        r@ == render_fill_form_spec(projects@, specialties@, persons@, opt_str(error)),
{
    let mut html = String::from_str(templates::FILL_FORM_0);
    push_missing_warning(&mut html, projects, specialties, persons);
    match error {
        Some(msg) => {
            html.append(templates::WARNING_DIV_0);
            push_esc(&mut html, msg);
            html.append(templates::WARNING_DIV_1);
        },
        None => {},
    }
    html.append(templates::FILL_FORM_1);
    push_owned(&mut html, month_select(templates::FIELD_MEETING_MONTH, None, false));
    html.append(templates::FILL_FORM_2);
    push_owned(&mut html, meeting_count_select(templates::FIELD_MEETING_COUNT, None, false));
    html.append(templates::FILL_FORM_3);
    push_owned(&mut html, render_fill_work_item(projects, specialties, persons));
    html.append(templates::FILL_FORM_4);
    html
}

// ---------------------------------------------------------------------------
// Summary side
// ---------------------------------------------------------------------------

/// The filter form of the summary page, showing the current filters.
pub open spec fn render_filter_spec(
    filters: FilterQuery,
    projects: Seq<OptionItem>,
    specialties: Seq<OptionItem>,
    persons: Seq<OptionItem>,
) -> Seq<char> {
    templates::FILTER_FORM_0@ + month_select_spec(
        templates::FIELD_MEETING_MONTH@,
        filters.meeting_month,
        true,
    ) + templates::FILTER_FORM_1@ + meeting_count_select_spec(
        templates::FIELD_MEETING_COUNT@,
        filters.meeting_count,
        true,
    ) + templates::FILTER_FORM_2@ + render_filter_select_spec(
        templates::FIELD_PROJECT_ID@,
        projects,
        filters.project_id,
        templates::ALL_PROJECTS@,
    ) + templates::FILTER_FORM_3@ + render_filter_select_spec(
        templates::FIELD_SPECIALTY_ID@,
        specialties,
        filters.specialty_id,
        templates::ALL_SPECIALTIES@,
    ) + templates::FILTER_FORM_4@ + render_filter_select_spec(
        templates::FIELD_PERSON_ID@,
        persons,
        filters.person_id,
        templates::ALL_PERSONS@,
    ) + templates::FILTER_FORM_5@ + progress_filter_select_spec(opt_text(filters.progress))
        + templates::FILTER_FORM_6@
}

/// The filter form of the summary page.
pub fn render_filter(
    filters: &FilterQuery,
    projects: &[OptionItem],
    specialties: &[OptionItem],
    persons: &[OptionItem],
) -> (r: String)
    ensures
        r@ == render_filter_spec(*filters, projects@, specialties@, persons@),
{
    let progress: Option<&str> = match &filters.progress {
        Some(p) => Some(p.as_str()),
        None => None,
    };
    let mut html = String::from_str(templates::FILTER_FORM_0);
    push_owned(&mut html, month_select(templates::FIELD_MEETING_MONTH, filters.meeting_month, true));
    html.append(templates::FILTER_FORM_1);
    push_owned(
        &mut html,
        meeting_count_select(templates::FIELD_MEETING_COUNT, filters.meeting_count, true),
    );
    html.append(templates::FILTER_FORM_2);
    push_owned(
        &mut html,
        render_filter_select(
            templates::FIELD_PROJECT_ID,
            projects,
            filters.project_id,
            templates::ALL_PROJECTS,
        ),
    );
    html.append(templates::FILTER_FORM_3);
    push_owned(
        &mut html,
        render_filter_select(
            templates::FIELD_SPECIALTY_ID,
            specialties,
            filters.specialty_id,
            templates::ALL_SPECIALTIES,
        ),
    );
    html.append(templates::FILTER_FORM_4);
    push_owned(
        &mut html,
        render_filter_select(
            templates::FIELD_PERSON_ID,
            persons,
            filters.person_id,
            templates::ALL_PERSONS,
        ),
    );
    html.append(templates::FILTER_FORM_5);
    push_owned(&mut html, progress_filter_select(progress));
    html.append(templates::FILTER_FORM_6);
    assert(opt_str(progress) == opt_text(filters.progress));
    html
}

/// The two entry points of the summary page: project report and statistics.
pub open spec fn render_summary_tools_spec(projects: Seq<OptionItem>) -> Seq<char> {
    templates::SUMMARY_TOOLS_0@ + month_select_spec(templates::FIELD_MEETING_MONTH@, None, false)
        + templates::SUMMARY_TOOLS_1@ + meeting_count_select_spec(
        templates::FIELD_MEETING_COUNT@,
        None,
        false,
    ) + templates::SUMMARY_TOOLS_2@ + render_filter_select_spec(
        templates::FIELD_PROJECT_ID@,
        projects,
        None,
        templates::PICK_PROJECT@,
    ) + templates::SUMMARY_TOOLS_3@ + month_select_spec(templates::FIELD_MEETING_MONTH@, None, false)
        + templates::SUMMARY_TOOLS_4@ + meeting_count_select_spec(
        templates::FIELD_MEETING_COUNT@,
        None,
        false,
    ) + templates::SUMMARY_TOOLS_5@
}

/// The two entry points of the summary page.
pub fn render_summary_tools(projects: &[OptionItem]) -> (r: String)
    ensures
        r@ == render_summary_tools_spec(projects@),
{
    let mut html = String::from_str(templates::SUMMARY_TOOLS_0);
    push_owned(&mut html, month_select(templates::FIELD_MEETING_MONTH, None, false));
    html.append(templates::SUMMARY_TOOLS_1);
    push_owned(&mut html, meeting_count_select(templates::FIELD_MEETING_COUNT, None, false));
    html.append(templates::SUMMARY_TOOLS_2);
    push_owned(
        &mut html,
        render_filter_select(templates::FIELD_PROJECT_ID, projects, None, templates::PICK_PROJECT),
    );
    html.append(templates::SUMMARY_TOOLS_3);
    push_owned(&mut html, month_select(templates::FIELD_MEETING_MONTH, None, false));
    html.append(templates::SUMMARY_TOOLS_4);
    push_owned(&mut html, meeting_count_select(templates::FIELD_MEETING_COUNT, None, false));
    html.append(templates::SUMMARY_TOOLS_5);
    html
}

/// The choice of meeting and project on the project report page.
pub open spec fn render_project_report_form_spec(
    query: ProjectReportQuery,
    projects: Seq<OptionItem>,
) -> Seq<char> {
    templates::PROJECT_REPORT_FORM_0@ + month_select_spec(
        templates::FIELD_MEETING_MONTH@,
        query.meeting_month,
        false,
    ) + templates::PROJECT_REPORT_FORM_1@ + meeting_count_select_spec(
        templates::FIELD_MEETING_COUNT@,
        query.meeting_count,
        false,
    ) + templates::PROJECT_REPORT_FORM_2@ + render_filter_select_spec(
        templates::FIELD_PROJECT_ID@,
        projects,
        query.project_id,
        templates::PICK_PROJECT@,
    ) + templates::PROJECT_REPORT_FORM_3@
}

/// The choice of meeting and project on the project report page.
pub fn render_project_report_form(query: &ProjectReportQuery, projects: &[OptionItem]) -> (r:
    String)
    ensures
        r@ == render_project_report_form_spec(*query, projects@),
{
    let mut html = String::from_str(templates::PROJECT_REPORT_FORM_0);
    push_owned(&mut html, month_select(templates::FIELD_MEETING_MONTH, query.meeting_month, false));
    html.append(templates::PROJECT_REPORT_FORM_1);
    push_owned(
        &mut html,
        meeting_count_select(templates::FIELD_MEETING_COUNT, query.meeting_count, false),
    );
    html.append(templates::PROJECT_REPORT_FORM_2);
    push_owned(
        &mut html,
        render_filter_select(
            templates::FIELD_PROJECT_ID,
            projects,
            query.project_id,
            templates::PICK_PROJECT,
        ),
    );
    html.append(templates::PROJECT_REPORT_FORM_3);
    html
}

/// The choice of meeting on the statistics page.
pub open spec fn render_attendance_form_spec(query: AttendanceQuery) -> Seq<char> {
    templates::ATTENDANCE_FORM_0@ + month_select_spec(
        templates::FIELD_MEETING_MONTH@,
        query.meeting_month,
        false,
    ) + templates::ATTENDANCE_FORM_1@ + meeting_count_select_spec(
        templates::FIELD_MEETING_COUNT@,
        query.meeting_count,
        false,
    ) + templates::ATTENDANCE_FORM_2@
}

/// The choice of meeting on the statistics page.
pub fn render_attendance_form(query: &AttendanceQuery) -> (r: String)
    ensures
        r@ == render_attendance_form_spec(*query),
{
    let mut html = String::from_str(templates::ATTENDANCE_FORM_0);
    push_owned(&mut html, month_select(templates::FIELD_MEETING_MONTH, query.meeting_month, false));
    html.append(templates::ATTENDANCE_FORM_1);
    push_owned(
        &mut html,
        meeting_count_select(templates::FIELD_MEETING_COUNT, query.meeting_count, false),
    );
    html.append(templates::ATTENDANCE_FORM_2);
    html
}

/// The page shown after a successful submission.
pub fn render_fill_success() -> (r: String)
    ensures
        r@ == templates::FILL_SUCCESS@,
{
    String::from_str(templates::FILL_SUCCESS)
}

// ---------------------------------------------------------------------------
// Option maintenance
// ---------------------------------------------------------------------------

/// The start page of option maintenance.
pub fn render_options_home() -> (r: String)
    ensures
        r@ == templates::OPTIONS_HOME@,
{
    String::from_str(templates::OPTIONS_HOME)
}

/// One row of an option list: label, state, and the toggle and delete forms.
pub open spec fn option_row_spec(kind: OptionKind, item: OptionItem) -> Seq<char> {
    templates::OPTION_ROW_0@ + esc_spec(item.label@) + templates::OPTION_ROW_1@ + (
    if item.is_active {
        templates::STATUS_ON@
    } else {
        templates::STATUS_OFF@
    }) + templates::OPTION_ROW_2@ + kind.path_text() + templates::OPTION_ROW_3@ + int_decimal(
        item.id as int,
    ) + templates::OPTION_ROW_4@ + (if item.is_active {
        templates::BUTTON_CLASS_ON@
    } else {
        templates::BUTTON_CLASS_OFF@
    }) + templates::OPTION_ROW_5@ + (if item.is_active {
        templates::BUTTON_DISABLE@
    } else {
        templates::BUTTON_ENABLE@
    }) + templates::OPTION_ROW_6@ + kind.path_text() + templates::OPTION_ROW_7@ + int_decimal(
        item.id as int,
    ) + templates::OPTION_ROW_8@
}

pub open spec fn option_rows_spec(kind: OptionKind, items: Seq<OptionItem>) -> Seq<char>
    decreases items.len(),
{
    if items.len() == 0 {
        Seq::empty()
    } else {
        option_rows_spec(kind, items.drop_last()) + option_row_spec(kind, items.last())
    }
}

fn push_option_row(out: &mut String, kind: OptionKind, item: &OptionItem)
    ensures
        final(out)@ == old(out)@ + option_row_spec(kind, *item),
{
    let ghost before = out@;
    out.append(templates::OPTION_ROW_0);
    push_esc(out, item.label.as_str());
    out.append(templates::OPTION_ROW_1);
    if item.is_active {
        out.append(templates::STATUS_ON);
    } else {
        out.append(templates::STATUS_OFF);
    }
    out.append(templates::OPTION_ROW_2);
    out.append(kind.path());
    out.append(templates::OPTION_ROW_3);
    push_i64(out, item.id);
    out.append(templates::OPTION_ROW_4);
    if item.is_active {
        out.append(templates::BUTTON_CLASS_ON);
    } else {
        out.append(templates::BUTTON_CLASS_OFF);
    }
    out.append(templates::OPTION_ROW_5);
    if item.is_active {
        out.append(templates::BUTTON_DISABLE);
    } else {
        out.append(templates::BUTTON_ENABLE);
    }
    out.append(templates::OPTION_ROW_6);
    out.append(kind.path());
    out.append(templates::OPTION_ROW_7);
    push_i64(out, item.id);
    out.append(templates::OPTION_ROW_8);
    assert(out@ =~= before + option_row_spec(kind, *item));
}

/// The notice above an option list: a warning for an error, a success box
/// otherwise, nothing without a message.
pub open spec fn notice_spec(notice: Option<Seq<char>>, notice_is_error: bool) -> Seq<char> {
    match notice {
        Some(msg) => if notice_is_error {
            warning_div_spec(msg)
        } else {
            templates::SUCCESS_DIV_0@ + esc_spec(msg) + templates::SUCCESS_DIV_1@
        },
        None => Seq::empty(),
    }
}

/// The maintenance page of one option list.
pub open spec fn render_option_admin_spec(
    kind: OptionKind,
    items: Seq<OptionItem>,
    notice: Option<Seq<char>>,
    notice_is_error: bool,
) -> Seq<char> {
    templates::OPTION_ADMIN_0@ + kind.title_text() + templates::OPTION_ADMIN_1@ + notice_spec(
        notice,
        notice_is_error,
    ) + templates::OPTION_ADMIN_2@ + kind.path_text() + templates::OPTION_ADMIN_3@
        + kind.input_label_text() + templates::OPTION_ADMIN_4@ + kind.input_label_text()
        + templates::OPTION_ADMIN_5@ + (if items.len() == 0 {
        templates::NO_OPTIONS_ROW@
    } else {
        option_rows_spec(kind, items)
    }) + templates::OPTION_ADMIN_6@
}

/// The maintenance page of one option list.
pub fn render_option_admin(
    kind: OptionKind,
    items: &[OptionItem],
    notice: Option<&str>,
    notice_is_error: bool,
) -> (r: String)
    ensures
        r@ == render_option_admin_spec(kind, items@, opt_str(notice), notice_is_error),
{
    let mut rows = String::new();
    let n = items.len();
    let mut i: usize = 0;
    while i < n
        invariant
            n == items@.len(),
            i <= n,
            rows@ == option_rows_spec(kind, items@.take(i as int)),
        decreases n - i,
    {
        let item = &items[i];
        assert(items@.take(i + 1).drop_last() == items@.take(i as int));
        push_option_row(&mut rows, kind, item);
        i = i + 1;
    }
    assert(items@.take(n as int) == items@);
    if n == 0 {
        rows.append(templates::NO_OPTIONS_ROW);
        assert(rows@ =~= templates::NO_OPTIONS_ROW@);
    }
    let mut html = String::from_str(templates::OPTION_ADMIN_0);
    html.append(kind.title());
    html.append(templates::OPTION_ADMIN_1);
    match notice {
        Some(msg) => {
            if notice_is_error {
                html.append(templates::WARNING_DIV_0);
                push_esc(&mut html, msg);
                html.append(templates::WARNING_DIV_1);
            } else {
                html.append(templates::SUCCESS_DIV_0);
                push_esc(&mut html, msg);
                html.append(templates::SUCCESS_DIV_1);
            }
        },
        None => {},
    }
    html.append(templates::OPTION_ADMIN_2);
    html.append(kind.path());
    html.append(templates::OPTION_ADMIN_3);
    html.append(kind.input_label());
    html.append(templates::OPTION_ADMIN_4);
    html.append(kind.input_label());
    html.append(templates::OPTION_ADMIN_5);
    html.append(rows.as_str());
    html.append(templates::OPTION_ADMIN_6);
    html
}

// ---------------------------------------------------------------------------
// Page frame
// ---------------------------------------------------------------------------

/// The whole HTML document: head with the escaped title, styles, the header,
/// the body as given, and the scripts of the searchable selects.
pub open spec fn render_page_spec(title: Seq<char>, body: Seq<char>) -> Seq<char> {
    templates::PAGE_0@ + esc_spec(title) + templates::PAGE_1@ + body + templates::PAGE_2@
}

/// The HTML document around a page body.
pub fn render_page(title: &str, body: &str) -> (r: String)
    ensures
        r@ == render_page_spec(title@, body@),
{
    let mut html = String::from_str(templates::PAGE_0);
    push_esc(&mut html, title);
    html.append(templates::PAGE_1);
    html.append(body);
    html.append(templates::PAGE_2);
    html
}

} // verus!
