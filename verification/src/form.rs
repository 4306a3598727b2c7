//! The reporting form: a url-encoded body with one meeting and any number of
//! work items, each item spread over repeated fields.

use vstd::prelude::*;

use crate::meeting::validate_meeting_spec;
use crate::meeting::{validate_meeting, valid_meeting};
use crate::model::{LogFormValue, WeeklyLogForm};
use crate::sorted::texts;
use crate::templates;
use crate::text::{
    fmt_usize, lemma_trim_idempotent, nat_decimal, parse_i64, parse_i64_spec, same_text, trim,
    trim_spec,
};

verus! {

/// The (name, value) pairs that `form_urlencoded::parse` decodes from a body:
/// `&`-separated, empty pieces skipped, split at the first `=`, `+` read as a
/// space, percent escapes decoded, invalid UTF-8 replaced.
pub uninterp spec fn urlencoded_pairs(body: Seq<u8>) -> Seq<(Seq<char>, Seq<char>)>;

/// `url::form_urlencoded::parse`, with each pair made owned. Its result is
/// named `urlencoded_pairs` of the body; nothing more about the decoding is
/// claimed here.
#[verifier::external_body]
fn decode_form_body(body: &[u8]) -> (r: Vec<(String, String)>)
    ensures
        r.deep_view() == urlencoded_pairs(body@),
{
    url::form_urlencoded::parse(body).into_owned().collect()
}

/// The values submitted under `name`, in order.
pub open spec fn field_values_spec(pairs: Seq<(Seq<char>, Seq<char>)>, name: Seq<char>) -> Seq<
    Seq<char>,
>
    decreases pairs.len(),
{
    if pairs.len() == 0 {
        Seq::empty()
    } else {
        let rest = field_values_spec(pairs.drop_last(), name);
        if pairs.last().0 == name {
            rest.push(pairs.last().1)
        } else {
            rest
        }
    }
}

/// A field that must be there: its first value, trimmed and not blank.
pub open spec fn required_field_spec(pairs: Seq<(Seq<char>, Seq<char>)>, name: Seq<char>) -> Result<
    Seq<char>,
    Seq<char>,
> {
    let vs = field_values_spec(pairs, name);
    if vs.len() > 0 && trim_spec(vs[0]).len() > 0 {
        Ok(trim_spec(vs[0]))
    } else {
        Err(templates::MISSING_FIELD_0@ + name)
    }
}

/// A numeric field: the trimmed value read as an `i64`.
pub open spec fn id_field_spec(name: Seq<char>, value: Seq<char>) -> Result<i64, Seq<char>> {
    match parse_i64_spec(trim_spec(value)) {
        Some(v) => Ok(v),
        None => Err(templates::INVALID_FIELD_0@ + name + templates::INVALID_FIELD_1@),
    }
}

/// The repeated fields of the work items, one column each.
pub struct Columns {
    pub project: Seq<Seq<char>>,
    pub specialty: Seq<Seq<char>>,
    pub owner: Seq<Seq<char>>,
    pub last: Seq<Seq<char>>,
    pub completer: Seq<Seq<char>>,
    pub progress: Seq<Seq<char>>,
    pub reason: Seq<Seq<char>>,
    pub next: Seq<Seq<char>>,
}

pub open spec fn columns_spec(pairs: Seq<(Seq<char>, Seq<char>)>) -> Columns {
    Columns {
        project: field_values_spec(pairs, templates::FIELD_PROJECT_ID@),
        specialty: field_values_spec(pairs, templates::FIELD_SPECIALTY_ID@),
        owner: field_values_spec(pairs, templates::FIELD_MODULE_OWNER_ID@),
        last: field_values_spec(pairs, templates::FIELD_LAST_WORK_ITEM@),
        completer: field_values_spec(pairs, templates::FIELD_COMPLETER_ID@),
        progress: field_values_spec(pairs, templates::FIELD_PROGRESS@),
        reason: field_values_spec(pairs, templates::FIELD_REASON@),
        next: field_values_spec(pairs, templates::FIELD_NEXT_WORK_ITEM@),
    }
}

/// The first column, in form order, whose length differs from the project
/// column's; the reason column may be shorter or longer.
pub open spec fn length_mismatch_spec(c: Columns) -> Option<Seq<char>> {
    let n = c.project.len();
    if c.specialty.len() != n {
        Some(templates::FIELD_SPECIALTY_ID@)
    } else if c.owner.len() != n {
        Some(templates::FIELD_MODULE_OWNER_ID@)
    } else if c.last.len() != n {
        Some(templates::FIELD_LAST_WORK_ITEM@)
    } else if c.completer.len() != n {
        Some(templates::FIELD_COMPLETER_ID@)
    } else if c.progress.len() != n {
        Some(templates::FIELD_PROGRESS@)
    } else if c.next.len() != n {
        Some(templates::FIELD_NEXT_WORK_ITEM@)
    } else {
        None
    }
}

/// Work item `i` (counting from 0): skipped when both work texts are blank,
/// refused when one of them is, otherwise its ids are read in form order.
pub open spec fn item_spec(c: Columns, month: i64, count: i64, i: int) -> Result<
    Option<LogFormValue>,
    Seq<char>,
> {
    let last = trim_spec(c.last[i]);
    let next = trim_spec(c.next[i]);
    if last.len() == 0 && next.len() == 0 {
        Ok(None)
    } else if last.len() == 0 {
        Err(
            templates::MISSING_LAST_ITEM_0@ + nat_decimal((i + 1) as nat)
                + templates::MISSING_LAST_ITEM_1@,
        )
    } else if next.len() == 0 {
        Err(
            templates::MISSING_NEXT_ITEM_0@ + nat_decimal((i + 1) as nat)
                + templates::MISSING_NEXT_ITEM_1@,
        )
    } else {
        match id_field_spec(templates::FIELD_PROJECT_ID@, c.project[i]) {
            Err(e) => Err(e),
            Ok(project_id) => match id_field_spec(templates::FIELD_SPECIALTY_ID@, c.specialty[i]) {
                Err(e) => Err(e),
                Ok(specialty_id) => match id_field_spec(
                    templates::FIELD_MODULE_OWNER_ID@,
                    c.owner[i],
                ) {
                    Err(e) => Err(e),
                    Ok(module_owner_id) => match id_field_spec(
                        templates::FIELD_COMPLETER_ID@,
                        c.completer[i],
                    ) {
                        Err(e) => Err(e),
                        Ok(completer_id) => Ok(
                            Some(
                                LogFormValue {
                                    meeting_month: month,
                                    meeting_count: count,
                                    project_id,
                                    specialty_id,
                                    module_owner_id,
                                    last_work_item: last,
                                    completer_id,
                                    progress: trim_spec(c.progress[i]),
                                    reason: if i < c.reason.len() {
                                        trim_spec(c.reason[i])
                                    } else {
                                        Seq::empty()
                                    },
                                    next_work_item: next,
                                },
                            ),
                        ),
                    },
                },
            },
        }
    }
}

/// The first `n` work items; the first refusal wins.
pub open spec fn items_spec(c: Columns, month: i64, count: i64, n: nat) -> Result<
    Seq<LogFormValue>,
    Seq<char>,
>
    decreases n,
{
    if n == 0 {
        Ok(Seq::empty())
    } else {
        match items_spec(c, month, count, (n - 1) as nat) {
            Err(e) => Err(e),
            Ok(forms) => match item_spec(c, month, count, n - 1) {
                Err(e) => Err(e),
                Ok(None) => Ok(forms),
                Ok(Some(f)) => Ok(forms.push(f)),
            },
        }
    }
}

/// The work items of a submission, or the message that refuses it. The
/// meeting fields come first, then the item count, the column lengths, each
/// item in turn, and at last the demand for one item that is not blank.
pub open spec fn parse_log_pairs_spec(pairs: Seq<(Seq<char>, Seq<char>)>) -> Result<
    Seq<LogFormValue>,
    Seq<char>,
> {
    match required_field_spec(pairs, templates::FIELD_MEETING_MONTH@) {
        Err(e) => Err(e),
        Ok(month_text) => match id_field_spec(templates::FIELD_MEETING_MONTH@, month_text) {
            Err(e) => Err(e),
            Ok(month) => match required_field_spec(pairs, templates::FIELD_MEETING_COUNT@) {
                Err(e) => Err(e),
                Ok(count_text) => match id_field_spec(templates::FIELD_MEETING_COUNT@, count_text) {
                    Err(e) => Err(e),
                    Ok(count) => match validate_meeting_spec(month, count) {
                        Err(e) => Err(e),
                        Ok(_) => {
                            let c = columns_spec(pairs);
                            if c.project.len() == 0 {
                                Err(templates::NO_WORK_ITEMS@)
                            } else {
                                match length_mismatch_spec(c) {
                                    Some(name) => Err(
                                        templates::LENGTH_MISMATCH_0@ + name
                                            + templates::LENGTH_MISMATCH_1@,
                                    ),
                                    None => match items_spec(c, month, count, c.project.len()) {
                                        Err(e) => Err(e),
                                        Ok(forms) => if forms.len() == 0 {
                                            Err(templates::NO_VALID_WORK_ITEMS@)
                                        } else {
                                            Ok(forms)
                                        },
                                    },
                                }
                            }
                        },
                    },
                },
            },
        },
    }
}

/// What every accepted work item satisfies: it belongs to the given meeting,
/// its work texts are not blank, and all its texts are trimmed.
pub open spec fn accepted_item(f: LogFormValue, month: i64, count: i64) -> bool {
    &&& f.meeting_month == month
    &&& f.meeting_count == count
    &&& f.last_work_item.len() > 0
    &&& f.next_work_item.len() > 0
    &&& trim_spec(f.last_work_item) == f.last_work_item
    &&& trim_spec(f.next_work_item) == f.next_work_item
    &&& trim_spec(f.progress) == f.progress
    &&& trim_spec(f.reason) == f.reason
}

proof fn lemma_item_accepted(c: Columns, month: i64, count: i64, i: int)
    ensures
        item_spec(c, month, count, i) matches Ok(Some(f)) ==> accepted_item(f, month, count),
{
    lemma_trim_idempotent(c.last[i]);
    lemma_trim_idempotent(c.next[i]);
    lemma_trim_idempotent(c.progress[i]);
    if i < c.reason.len() {
        lemma_trim_idempotent(c.reason[i]);
    } else {
        let e = Seq::<char>::empty();
        assert(e.skip(0) =~= e);
        assert(e.take(0) =~= e);
    }
}

proof fn lemma_items_accepted(c: Columns, month: i64, count: i64, n: nat)
    ensures
        items_spec(c, month, count, n) matches Ok(fs) ==> forall|k: int|
            0 <= k < fs.len() ==> accepted_item(#[trigger] fs[k], month, count),
    decreases n,
{
    if n > 0 {
        lemma_items_accepted(c, month, count, (n - 1) as nat);
        lemma_item_accepted(c, month, count, n - 1);
    }
}

/// An accepted submission holds at least one work item; all of them belong
/// to one valid meeting, none has a blank work text, and all texts are
/// trimmed.
pub proof fn lemma_accepted_submission(pairs: Seq<(Seq<char>, Seq<char>)>)
    ensures
        parse_log_pairs_spec(pairs) matches Ok(fs) ==> {
            &&& fs.len() > 0
            &&& valid_meeting(fs[0].meeting_month, fs[0].meeting_count)
            &&& forall|k: int|
                0 <= k < fs.len() ==> accepted_item(
                    #[trigger] fs[k],
                    fs[0].meeting_month,
                    fs[0].meeting_count,
                )
        },
{
    let c = columns_spec(pairs);
    match required_field_spec(pairs, templates::FIELD_MEETING_MONTH@) {
        Ok(mt) => match id_field_spec(templates::FIELD_MEETING_MONTH@, mt) {
            Ok(month) => match required_field_spec(pairs, templates::FIELD_MEETING_COUNT@) {
                Ok(ct) => match id_field_spec(templates::FIELD_MEETING_COUNT@, ct) {
                    Ok(count) => {
                        lemma_items_accepted(c, month, count, c.project.len());
                    },
                    Err(_) => {},
                },
                Err(_) => {},
            },
            Err(_) => {},
        },
        Err(_) => {},
    }
}

/// Row `r` of the work-item columns has neither work text.
pub open spec fn row_blank(c: Columns, r: int) -> bool {
    trim_spec(c.last[r]).len() == 0 && trim_spec(c.next[r]).len() == 0
}

/// Work item `f` is read from row `r`: each id is the row's own value
/// trimmed and read as a number, and each text is the row's own value
/// trimmed (an absent reason is empty).
pub open spec fn item_from_row(c: Columns, r: int, f: LogFormValue) -> bool {
    &&& parse_i64_spec(trim_spec(c.project[r])) == Some(f.project_id)
    &&& parse_i64_spec(trim_spec(c.specialty[r])) == Some(f.specialty_id)
    &&& parse_i64_spec(trim_spec(c.owner[r])) == Some(f.module_owner_id)
    &&& parse_i64_spec(trim_spec(c.completer[r])) == Some(f.completer_id)
    &&& f.last_work_item == trim_spec(c.last[r])
    &&& f.next_work_item == trim_spec(c.next[r])
    &&& f.progress == trim_spec(c.progress[r])
    &&& f.reason == (if r < c.reason.len() {
        trim_spec(c.reason[r])
    } else {
        Seq::<char>::empty()
    })
}

/// `rows` lists, in ascending order, the rows below `n` that are not blank,
/// and work item `k` is read from row `rows[k]`.
pub open spec fn items_from_rows(c: Columns, fs: Seq<LogFormValue>, rows: Seq<int>, n: int) -> bool {
    &&& rows.len() == fs.len()
    &&& forall|k: int| 0 <= k < rows.len() ==> 0 <= #[trigger] rows[k] < n
    &&& forall|k1: int, k2: int|
        0 <= k1 < k2 < rows.len() ==> #[trigger] rows[k1] < #[trigger] rows[k2]
    &&& forall|k: int| 0 <= k < rows.len() ==> item_from_row(c, #[trigger] rows[k], fs[k])
    &&& forall|r: int| 0 <= r < n ==> (!row_blank(c, r) <==> #[trigger] rows.contains(r))
}

proof fn rows_of_items(c: Columns, month: i64, count: i64, n: nat) -> (rows: Seq<int>)
    requires
        n <= c.specialty.len(),
        n <= c.owner.len(),
        n <= c.last.len(),
        n <= c.completer.len(),
        n <= c.progress.len(),
        n <= c.next.len(),
        n <= c.project.len(),
    ensures
        items_spec(c, month, count, n) matches Ok(fs) ==> items_from_rows(c, fs, rows, n as int),
    decreases n,
{
    if n == 0 {
        Seq::<int>::empty()
    } else {
        let m = (n - 1) as nat;
        let prev = rows_of_items(c, month, count, m);
        match items_spec(c, month, count, m) {
            Ok(fs0) => match item_spec(c, month, count, m as int) {
                Ok(Some(f)) => {
                    let rows = prev.push(m as int);
                    assert(!row_blank(c, m as int));
                    assert(item_from_row(c, m as int, f));
                    let fs = fs0.push(f);
                    assert forall|k: int| 0 <= k < rows.len() implies item_from_row(
                        c,
                        #[trigger] rows[k],
                        fs[k],
                    ) by {
                        if k < prev.len() {
                            assert(rows[k] == prev[k] && fs[k] == fs0[k]);
                        }
                    }
                    assert forall|r: int| 0 <= r < n implies (!row_blank(c, r)
                        <==> #[trigger] rows.contains(r)) by {
                        if r < m {
                            if prev.contains(r) {
                                let q = choose|q: int| 0 <= q < prev.len() && prev[q] == r;
                                assert(rows[q] == r);
                            }
                            if rows.contains(r) {
                                let q = choose|q: int| 0 <= q < rows.len() && rows[q] == r;
                                assert(q < prev.len());
                                assert(prev[q] == r);
                            }
                        } else {
                            assert(rows[rows.len() - 1] == r);
                        }
                    }
                    rows
                },
                Ok(None) => {
                    assert(row_blank(c, m as int));
                    assert forall|r: int| 0 <= r < n implies (!row_blank(c, r)
                        <==> #[trigger] prev.contains(r)) by {
                        if r == m && prev.contains(r) {
                            let q = choose|q: int| 0 <= q < prev.len() && prev[q] == r;
                            assert(prev[q] < m);
                        }
                    }
                    prev
                },
                Err(_) => prev,
            },
            Err(_) => prev,
        }
    }
}

/// Each accepted work item is read from its own row of the form: the items
/// follow the rows that are not blank, in form order, one item per row, and
/// each item's ids and texts are the values submitted in that row; every item
/// carries the meeting month and number read from the first value of the
/// meeting fields.
pub proof fn lemma_items_follow_their_rows(pairs: Seq<(Seq<char>, Seq<char>)>)
    ensures
        parse_log_pairs_spec(pairs) matches Ok(fs) ==> {
            &&& exists|rows: Seq<int>|
                items_from_rows(
                    columns_spec(pairs),
                    fs,
                    rows,
                    columns_spec(pairs).project.len() as int,
                )
            &&& forall|k: int|
                0 <= k < fs.len() ==> parse_i64_spec(
                    trim_spec(field_values_spec(pairs, templates::FIELD_MEETING_MONTH@)[0]),
                ) == Some(#[trigger] fs[k].meeting_month) && parse_i64_spec(
                    trim_spec(field_values_spec(pairs, templates::FIELD_MEETING_COUNT@)[0]),
                ) == Some(fs[k].meeting_count)
        },
{
    let c = columns_spec(pairs);
    match required_field_spec(pairs, templates::FIELD_MEETING_MONTH@) {
        Ok(mt) => match id_field_spec(templates::FIELD_MEETING_MONTH@, mt) {
            Ok(month) => match required_field_spec(pairs, templates::FIELD_MEETING_COUNT@) {
                Ok(ct) => match id_field_spec(templates::FIELD_MEETING_COUNT@, ct) {
                    Ok(count) => {
                        lemma_trim_idempotent(
                            field_values_spec(pairs, templates::FIELD_MEETING_MONTH@)[0],
                        );
                        lemma_trim_idempotent(
                            field_values_spec(pairs, templates::FIELD_MEETING_COUNT@)[0],
                        );
                        lemma_items_accepted(c, month, count, c.project.len());
                        if length_mismatch_spec(c) is None {
                            let rows = rows_of_items(c, month, count, c.project.len());
                            if let Ok(fs) = items_spec(c, month, count, c.project.len()) {
                                assert(items_from_rows(c, fs, rows, c.project.len() as int));
                            }
                        }
                    },
                    Err(_) => {},
                },
                Err(_) => {},
            },
            Err(_) => {},
        },
        Err(_) => {},
    }
}

/// The values of a list of submitted work items.
pub open spec fn forms_view(forms: Seq<WeeklyLogForm>) -> Seq<LogFormValue> {
    forms.map_values(|f: WeeklyLogForm| f@)
}

/// The values submitted under `name`, in order.
fn field_values(pairs: &Vec<(String, String)>, name: &str) -> (r: Vec<String>)
    ensures
        texts(r@) == field_values_spec(pairs.deep_view(), name@),
{
    let mut out: Vec<String> = Vec::new();
    let n = pairs.len();
    let mut i: usize = 0;
    while i < n
        invariant
            n == pairs@.len(),
            i <= n,
            texts(out@) == field_values_spec(pairs.deep_view().take(i as int), name@),
        decreases n - i,
    {
        let ghost dv = pairs.deep_view();
        assert(dv.take(i + 1).drop_last() == dv.take(i as int));
        assert(dv.take(i + 1).last() == dv[i as int]);
        assert(dv[i as int] == (pairs@[i as int].0@, pairs@[i as int].1@));
        let ghost before = out@;
        if same_text(pairs[i].0.as_str(), name) {
            out.push(pairs[i].1.clone());
            assert(texts(out@) =~= texts(before).push(pairs@[i as int].1@));
        }
        i = i + 1;
    }
    assert(pairs.deep_view().take(n as int) == pairs.deep_view());
    out
}

fn missing_field(name: &str) -> (r: String)
    ensures
        r@ == templates::MISSING_FIELD_0@ + name@,
{
    let mut msg = String::from_str(templates::MISSING_FIELD_0);
    msg.append(name);
    msg
}

/// A field that must be there: its first value, trimmed and not blank.
fn required_field(pairs: &Vec<(String, String)>, name: &str) -> (r: Result<String, String>)
    ensures
        match r {
            Ok(v) => required_field_spec(pairs.deep_view(), name@) == Ok::<Seq<char>, Seq<char>>(
                v@,
            ),
            Err(e) => required_field_spec(pairs.deep_view(), name@) == Err::<Seq<char>, Seq<char>>(
                e@,
            ),
        },
{
    let values = field_values(pairs, name);
    if values.len() > 0 {
        assert(texts(values@)[0] == values@[0]@);
        let t = trim(values[0].as_str());
        if t.unicode_len() > 0 {
            return Ok(t);
        }
    }
    Err(missing_field(name))
}

/// A numeric field: the trimmed value read as an `i64`.
fn id_field(name: &str, value: &str) -> (r: Result<i64, String>)
    ensures
        match r {
            Ok(v) => id_field_spec(name@, value@) == Ok::<i64, Seq<char>>(v),
            Err(e) => id_field_spec(name@, value@) == Err::<i64, Seq<char>>(e@),
        },
{
    let t = trim(value);
    match parse_i64(t.as_str()) {
        Some(v) => Ok(v),
        None => {
            let mut msg = String::from_str(templates::INVALID_FIELD_0);
            msg.append(name);
            msg.append(templates::INVALID_FIELD_1);
            Err(msg)
        },
    }
}

/// The columns as submitted.
struct FormColumns {
    project: Vec<String>,
    specialty: Vec<String>,
    owner: Vec<String>,
    last: Vec<String>,
    completer: Vec<String>,
    progress: Vec<String>,
    reason: Vec<String>,
    next: Vec<String>,
}

impl FormColumns {
    spec fn value(&self) -> Columns {
        Columns {
            project: texts(self.project@),
            specialty: texts(self.specialty@),
            owner: texts(self.owner@),
            last: texts(self.last@),
            completer: texts(self.completer@),
            progress: texts(self.progress@),
            reason: texts(self.reason@),
            next: texts(self.next@),
        }
    }
}

fn collect_columns(pairs: &Vec<(String, String)>) -> (r: FormColumns)
    ensures
        r.value() == columns_spec(pairs.deep_view()),
{
    FormColumns {
        project: field_values(pairs, templates::FIELD_PROJECT_ID),
        specialty: field_values(pairs, templates::FIELD_SPECIALTY_ID),
        owner: field_values(pairs, templates::FIELD_MODULE_OWNER_ID),
        last: field_values(pairs, templates::FIELD_LAST_WORK_ITEM),
        completer: field_values(pairs, templates::FIELD_COMPLETER_ID),
        progress: field_values(pairs, templates::FIELD_PROGRESS),
        reason: field_values(pairs, templates::FIELD_REASON),
        next: field_values(pairs, templates::FIELD_NEXT_WORK_ITEM),
    }
}

fn length_mismatch(c: &FormColumns) -> (r: Option<&'static str>)
    ensures
        match r {
            Some(name) => length_mismatch_spec(c.value()) == Some(name@),
            None => length_mismatch_spec(c.value()) is None,
        },
{
    let n = c.project.len();
    if c.specialty.len() != n {
        Some(templates::FIELD_SPECIALTY_ID)
    } else if c.owner.len() != n {
        Some(templates::FIELD_MODULE_OWNER_ID)
    } else if c.last.len() != n {
        Some(templates::FIELD_LAST_WORK_ITEM)
    } else if c.completer.len() != n {
        Some(templates::FIELD_COMPLETER_ID)
    } else if c.progress.len() != n {
        Some(templates::FIELD_PROGRESS)
    } else if c.next.len() != n {
        Some(templates::FIELD_NEXT_WORK_ITEM)
    } else {
        None
    }
}

fn numbered_message(head: &str, i: usize, tail: &str) -> (r: String)
    requires
        i < usize::MAX,
    ensures
        r@ == head@ + nat_decimal((i + 1) as nat) + tail@,
{
    let mut msg = String::from_str(head);
    let number = fmt_usize(i + 1);
    msg.append(number.as_str());
    msg.append(tail);
    msg
}

/// Work item `i` of the columns.
fn parse_item(c: &FormColumns, month: i64, count: i64, i: usize) -> (r: Result<
    Option<WeeklyLogForm>,
    String,
>)
    requires
        i < c.project@.len(),
        length_mismatch_spec(c.value()) is None,
    ensures
        match r {
            Ok(None) => item_spec(c.value(), month, count, i as int) == Ok::<
                Option<LogFormValue>,
                Seq<char>,
            >(None),
            Ok(Some(f)) => item_spec(c.value(), month, count, i as int) == Ok::<
                Option<LogFormValue>,
                Seq<char>,
            >(Some(f@)),
            Err(e) => item_spec(c.value(), month, count, i as int) == Err::<
                Option<LogFormValue>,
                Seq<char>,
            >(e@),
        },
{
    let ghost v = c.value();
    let n = c.project.len();
    assert(i < n);
    assert(v.last[i as int] == c.last@[i as int]@);
    assert(v.next[i as int] == c.next@[i as int]@);
    assert(v.project[i as int] == c.project@[i as int]@);
    assert(v.specialty[i as int] == c.specialty@[i as int]@);
    assert(v.owner[i as int] == c.owner@[i as int]@);
    assert(v.completer[i as int] == c.completer@[i as int]@);
    assert(v.progress[i as int] == c.progress@[i as int]@);
    let last_work_item = trim(c.last[i].as_str());
    let next_work_item = trim(c.next[i].as_str());
    let last_empty = last_work_item.unicode_len() == 0;
    let next_empty = next_work_item.unicode_len() == 0;
    if last_empty && next_empty {
        return Ok(None);
    }
    if last_empty {
        return Err(
            numbered_message(templates::MISSING_LAST_ITEM_0, i, templates::MISSING_LAST_ITEM_1),
        );
    }
    if next_empty {
        return Err(
            numbered_message(templates::MISSING_NEXT_ITEM_0, i, templates::MISSING_NEXT_ITEM_1),
        );
    }
    let project_id = match id_field(templates::FIELD_PROJECT_ID, c.project[i].as_str()) {
        Ok(v) => v,
        Err(e) => {
            return Err(e);
        },
    };
    let specialty_id = match id_field(templates::FIELD_SPECIALTY_ID, c.specialty[i].as_str()) {
        Ok(v) => v,
        Err(e) => {
            return Err(e);
        },
    };
    let module_owner_id = match id_field(templates::FIELD_MODULE_OWNER_ID, c.owner[i].as_str()) {
        Ok(v) => v,
        Err(e) => {
            return Err(e);
        },
    };
    let completer_id = match id_field(templates::FIELD_COMPLETER_ID, c.completer[i].as_str()) {
        Ok(v) => v,
        Err(e) => {
            return Err(e);
        },
    };
    let progress = trim(c.progress[i].as_str());
    let reason = if i < c.reason.len() {
        assert(v.reason[i as int] == c.reason@[i as int]@);
        trim(c.reason[i].as_str())
    } else {
        String::new()
    };
    Ok(
        Some(
            WeeklyLogForm {
                meeting_month: month,
                meeting_count: count,
                project_id,
                specialty_id,
                module_owner_id,
                last_work_item,
                completer_id,
                progress,
                reason,
                next_work_item,
            },
        ),
    )
}

proof fn lemma_items_error_persists(c: Columns, month: i64, count: i64, n: nat, m: nat, e: Seq<char>)
    requires
        n <= m,
        items_spec(c, month, count, n) == Err::<Seq<LogFormValue>, Seq<char>>(e),
    ensures
        items_spec(c, month, count, m) == Err::<Seq<LogFormValue>, Seq<char>>(e),
    decreases m - n,
{
    if n < m {
        lemma_items_error_persists(c, month, count, n, (m - 1) as nat, e);
    }
}

/// The work items of decoded form pairs, or the message that refuses them.
pub fn parse_log_pairs(pairs: &Vec<(String, String)>) -> (r: Result<Vec<WeeklyLogForm>, String>)
    ensures
        match r {
            Ok(forms) => parse_log_pairs_spec(pairs.deep_view()) == Ok::<
                Seq<LogFormValue>,
                Seq<char>,
            >(forms_view(forms@)),
            Err(e) => parse_log_pairs_spec(pairs.deep_view()) == Err::<Seq<LogFormValue>, Seq<char>>(
                e@,
            ),
        },
{
    let month_text = match required_field(pairs, templates::FIELD_MEETING_MONTH) {
        Ok(v) => v,
        Err(e) => {
            return Err(e);
        },
    };
    let meeting_month = match id_field(templates::FIELD_MEETING_MONTH, month_text.as_str()) {
        Ok(v) => v,
        Err(e) => {
            return Err(e);
        },
    };
    let count_text = match required_field(pairs, templates::FIELD_MEETING_COUNT) {
        Ok(v) => v,
        Err(e) => {
            return Err(e);
        },
    };
    let meeting_count = match id_field(templates::FIELD_MEETING_COUNT, count_text.as_str()) {
        Ok(v) => v,
        Err(e) => {
            return Err(e);
        },
    };
    match validate_meeting(meeting_month, meeting_count) {
        Ok(()) => {},
        Err(e) => {
            return Err(e);
        },
    }
    let c = collect_columns(pairs);
    let ghost cv = c.value();
    let count = c.project.len();
    if count == 0 {
        return Err(String::from_str(templates::NO_WORK_ITEMS));
    }
    match length_mismatch(&c) {
        Some(name) => {
            let mut msg = String::from_str(templates::LENGTH_MISMATCH_0);
            msg.append(name);
            msg.append(templates::LENGTH_MISMATCH_1);
            return Err(msg);
        },
        None => {},
    }
    let mut forms: Vec<WeeklyLogForm> = Vec::new();
    assert(forms_view(forms@) =~= Seq::<LogFormValue>::empty());
    let mut i: usize = 0;
    while i < count
        invariant
            count == c.project@.len(),
            cv == c.value(),
            cv == columns_spec(pairs.deep_view()),
            length_mismatch_spec(cv) is None,
            required_field_spec(pairs.deep_view(), templates::FIELD_MEETING_MONTH@) == Ok::<
                Seq<char>,
                Seq<char>,
            >(month_text@),
            id_field_spec(templates::FIELD_MEETING_MONTH@, month_text@) == Ok::<i64, Seq<char>>(
                meeting_month,
            ),
            required_field_spec(pairs.deep_view(), templates::FIELD_MEETING_COUNT@) == Ok::<
                Seq<char>,
                Seq<char>,
            >(count_text@),
            id_field_spec(templates::FIELD_MEETING_COUNT@, count_text@) == Ok::<i64, Seq<char>>(
                meeting_count,
            ),
            validate_meeting_spec(meeting_month, meeting_count) is Ok,
            i <= count,
            items_spec(cv, meeting_month, meeting_count, i as nat) == Ok::<
                Seq<LogFormValue>,
                Seq<char>,
            >(forms_view(forms@)),
        decreases count - i,
    {
        let ghost before = forms@;
        match parse_item(&c, meeting_month, meeting_count, i) {
            Ok(None) => {},
            Ok(Some(f)) => {
                forms.push(f);
                assert(forms_view(forms@) =~= forms_view(before).push(f@));
            },
            Err(e) => {
                proof {
                    assert(items_spec(cv, meeting_month, meeting_count, (i + 1) as nat) == Err::<
                        Seq<LogFormValue>,
                        Seq<char>,
                    >(e@));
                    lemma_items_error_persists(
                        cv,
                        meeting_month,
                        meeting_count,
                        (i + 1) as nat,
                        count as nat,
                        e@,
                    );
                }
                return Err(e);
            },
        }
        i = i + 1;
    }
    if forms.len() == 0 {
        return Err(String::from_str(templates::NO_VALID_WORK_ITEMS));
    }
    Ok(forms)
}

/// The work items of a url-encoded reporting form, or the message that
/// refuses it.
pub fn parse_multi_log_form(body: &[u8]) -> (r: Result<Vec<WeeklyLogForm>, String>)
    ensures
        match r {
            Ok(forms) => parse_log_pairs_spec(urlencoded_pairs(body@)) == Ok::<
                Seq<LogFormValue>,
                Seq<char>,
            >(forms_view(forms@)),
            Err(e) => parse_log_pairs_spec(urlencoded_pairs(body@)) == Err::<
                Seq<LogFormValue>,
                Seq<char>,
            >(e@),
        },
{
    let pairs = decode_form_body(body);
    parse_log_pairs(&pairs)
}

} // verus!
