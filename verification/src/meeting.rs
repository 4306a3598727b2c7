//! Meetings are named by month and by their number within the month.

use vstd::prelude::*;

use crate::templates;
use crate::text::{
    fmt_i64, int_decimal, is_digit, lemma_decimal_roundtrip, lemma_nat_decimal_digits, nat_decimal,
};

verus! {

/// `{month}月第{count}次例会`.
pub open spec fn meeting_label_spec(month: i64, count: i64) -> Seq<char> {
    int_decimal(month as int) + templates::MEETING_LABEL_1@ + int_decimal(count as int) + templates::MEETING_LABEL_2@
}

/// The name of a meeting, such as `6月第1次例会`.
pub fn meeting_label(month: i64, count: i64) -> (r: String)
    ensures
        r@ == meeting_label_spec(month, count),
{
    let mut out = fmt_i64(month);
    out.append(templates::MEETING_LABEL_1);
    let c = fmt_i64(count);
    out.append(c.as_str());
    out.append(templates::MEETING_LABEL_2);
    out
}

/// A character that a decimal number can hold.
spec fn numeric_char(c: char) -> bool {
    is_digit(c) || c == '-'
}

proof fn lemma_int_decimal_numeric(n: int)
    ensures
        forall|k: int| 0 <= k < int_decimal(n).len() ==> numeric_char(#[trigger] int_decimal(n)[k]),
{
    if n < 0 {
        lemma_nat_decimal_digits((-n) as nat);
        let d = nat_decimal((-n) as nat);
        assert forall|k: int| 0 <= k < int_decimal(n).len() implies numeric_char(
            #[trigger] int_decimal(n)[k],
        ) by {
            if k > 0 {
                assert(int_decimal(n)[k] == d[k - 1]);
            }
        }
    } else {
        lemma_nat_decimal_digits(n as nat);
    }
}

/// A number followed by a marker that no number holds can be read back: two
/// such texts are equal only with equal numbers and equal rests.
proof fn lemma_split_at_marker(a1: Seq<char>, r1: Seq<char>, a2: Seq<char>, r2: Seq<char>, x: Seq<char>)
    requires
        forall|k: int| 0 <= k < a1.len() ==> numeric_char(#[trigger] a1[k]),
        forall|k: int| 0 <= k < a2.len() ==> numeric_char(#[trigger] a2[k]),
        x.len() > 0,
        !numeric_char(x[0]),
        a1 + (x + r1) == a2 + (x + r2),
    ensures
        a1 == a2,
        r1 == r2,
{
    let s = a1 + (x + r1);
    if a1.len() < a2.len() {
        assert(s[a1.len() as int] == x[0]);
        assert((a2 + (x + r2))[a1.len() as int] == a2[a1.len() as int]);
    } else if a2.len() < a1.len() {
        assert((a2 + (x + r2))[a2.len() as int] == x[0]);
        assert(s[a2.len() as int] == a1[a2.len() as int]);
    }
    assert(a1 =~= s.take(a1.len() as int));
    assert(a2 =~= (a2 + (x + r2)).take(a2.len() as int));
    assert(r1 =~= s.skip((a1.len() + x.len()) as int));
    assert(r2 =~= (a2 + (x + r2)).skip((a2.len() + x.len()) as int));
}

/// Different meetings have different names: the name gives back the month
/// and the number.
pub proof fn lemma_meeting_label_injective(month1: i64, count1: i64, month2: i64, count2: i64)
    requires
        meeting_label_spec(month1, count1) == meeting_label_spec(month2, count2),
    ensures
        month1 == month2,
        count1 == count2,
{
    reveal_strlit("月第");
    reveal_strlit("次例会");
    let x = templates::MEETING_LABEL_1@;
    let y = templates::MEETING_LABEL_2@;
    let a1 = int_decimal(month1 as int);
    let a2 = int_decimal(month2 as int);
    let b1 = int_decimal(count1 as int);
    let b2 = int_decimal(count2 as int);
    lemma_int_decimal_numeric(month1 as int);
    lemma_int_decimal_numeric(month2 as int);
    assert(!numeric_char(x[0]));
    assert(meeting_label_spec(month1, count1) =~= a1 + (x + (b1 + y)));
    assert(meeting_label_spec(month2, count2) =~= a2 + (x + (b2 + y)));
    lemma_split_at_marker(a1, b1 + y, a2, b2 + y, x);
    assert(b1 =~= (b1 + y).take(b1.len() as int));
    assert(b2 =~= (b2 + y).take(b2.len() as int));
    lemma_decimal_roundtrip(month1);
    lemma_decimal_roundtrip(month2);
    lemma_decimal_roundtrip(count1);
    lemma_decimal_roundtrip(count2);
}

/// A meeting is month 1 to 12 and number 1 to 20 within the month.
pub open spec fn valid_meeting(month: i64, count: i64) -> bool {
    1 <= month <= 12 && 1 <= count <= 20
}

/// The answer to a meeting choice: the month is checked first.
pub open spec fn validate_meeting_spec(month: i64, count: i64) -> Result<(), Seq<char>> {
    if !(1 <= month <= 12) {
        Err(templates::MONTH_RANGE_ERROR@)
    } else if !(1 <= count <= 20) {
        Err(templates::COUNT_RANGE_ERROR@)
    } else {
        Ok(())
    }
}

/// Checks a meeting choice; the error names the first field out of range.
pub fn validate_meeting(month: i64, count: i64) -> (r: Result<(), String>)
    ensures
        r is Ok <==> valid_meeting(month, count),
        match r {
            Ok(()) => validate_meeting_spec(month, count) == Ok::<(), Seq<char>>(()),
            Err(e) => validate_meeting_spec(month, count) == Err::<(), Seq<char>>(e@),
        },
{
    if !(1 <= month && month <= 12) {
        return Err(String::from_str(templates::MONTH_RANGE_ERROR));
    }
    if !(1 <= count && count <= 20) {
        return Err(String::from_str(templates::COUNT_RANGE_ERROR));
    }
    Ok(())
}

} // verus!
