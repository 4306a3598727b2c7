//! Maintenance of the option lists: the SQL statements for each list and
//! the rules that refuse a blank or repeated entry and the deletion of one
//! that log entries still use.

use vstd::prelude::*;

use crate::model::OptionKind;
use crate::templates;
use crate::text::{int_decimal, push_i64, trim, trim_spec};

verus! {

/// `SELECT id FROM {table} WHERE {label column} = ?1`.
pub open spec fn find_option_sql_spec(kind: OptionKind) -> Seq<char> {
    templates::FIND_OPTION_SQL_0@ + kind.table_text() + templates::FIND_OPTION_SQL_1@
        + kind.label_column_text() + templates::FIND_OPTION_SQL_2@
}

/// The query that looks an entry up by its label.
pub fn find_option_sql(kind: OptionKind) -> (r: String)
    ensures
        r@ == find_option_sql_spec(kind),
{
    let mut sql = String::from_str(templates::FIND_OPTION_SQL_0);
    sql.append(kind.table());
    sql.append(templates::FIND_OPTION_SQL_1);
    sql.append(kind.label_column());
    sql.append(templates::FIND_OPTION_SQL_2);
    sql
}

/// An insert that puts the new entry, active, after all others.
pub open spec fn insert_option_sql_spec(kind: OptionKind) -> Seq<char> {
    templates::INSERT_OPTION_SQL_0@ + kind.table_text() + templates::INSERT_OPTION_SQL_1@
        + kind.label_column_text() + templates::INSERT_OPTION_SQL_2@ + kind.table_text()
        + templates::INSERT_OPTION_SQL_3@
}

/// The insert of a new entry with its label and creation time as parameters.
pub fn insert_option_sql(kind: OptionKind) -> (r: String)
    ensures
        r@ == insert_option_sql_spec(kind),
{
    let mut sql = String::from_str(templates::INSERT_OPTION_SQL_0);
    sql.append(kind.table());
    sql.append(templates::INSERT_OPTION_SQL_1);
    sql.append(kind.label_column());
    sql.append(templates::INSERT_OPTION_SQL_2);
    sql.append(kind.table());
    sql.append(templates::INSERT_OPTION_SQL_3);
    sql
}

/// The query of a list: active entries first, then by sort order and label;
/// with `active_only` the disabled ones are left out.
pub open spec fn fetch_options_sql_spec(kind: OptionKind, active_only: bool) -> Seq<char> {
    templates::FETCH_OPTIONS_SQL_0@ + kind.label_column_text() + templates::FETCH_OPTIONS_SQL_1@
        + kind.table_text() + templates::FETCH_OPTIONS_SQL_2@ + (if active_only {
        templates::ACTIVE_ONLY_CLAUSE@
    } else {
        Seq::empty()
    }) + templates::FETCH_OPTIONS_SQL_3@
}

/// The query of a list.
pub fn fetch_options_sql(kind: OptionKind, active_only: bool) -> (r: String)
    ensures
        r@ == fetch_options_sql_spec(kind, active_only),
{
    let mut sql = String::from_str(templates::FETCH_OPTIONS_SQL_0);
    sql.append(kind.label_column());
    sql.append(templates::FETCH_OPTIONS_SQL_1);
    sql.append(kind.table());
    sql.append(templates::FETCH_OPTIONS_SQL_2);
    if active_only {
        sql.append(templates::ACTIVE_ONLY_CLAUSE);
    }
    sql.append(templates::FETCH_OPTIONS_SQL_3);
    sql
}

/// The update that flips an entry between active and disabled.
pub open spec fn toggle_option_sql_spec(kind: OptionKind) -> Seq<char> {
    templates::TOGGLE_OPTION_SQL_0@ + kind.table_text() + templates::TOGGLE_OPTION_SQL_1@
}

/// The update that flips an entry between active and disabled.
pub fn toggle_option_sql(kind: OptionKind) -> (r: String)
    ensures
        r@ == toggle_option_sql_spec(kind),
{
    let mut sql = String::from_str(templates::TOGGLE_OPTION_SQL_0);
    sql.append(kind.table());
    sql.append(templates::TOGGLE_OPTION_SQL_1);
    sql
}

/// The delete of one entry.
pub open spec fn delete_option_sql_spec(kind: OptionKind) -> Seq<char> {
    templates::DELETE_OPTION_SQL_0@ + kind.table_text() + templates::DELETE_OPTION_SQL_1@
}

/// The delete of one entry.
pub fn delete_option_sql(kind: OptionKind) -> (r: String)
    ensures
        r@ == delete_option_sql_spec(kind),
{
    let mut sql = String::from_str(templates::DELETE_OPTION_SQL_0);
    sql.append(kind.table());
    sql.append(templates::DELETE_OPTION_SQL_1);
    sql
}

/// The count of log entries that use an entry: a person as module owner,
/// reporter or next owner; a project or a specialty as such.
pub open spec fn reference_count_sql_spec(kind: OptionKind) -> Seq<char> {
    match kind {
        OptionKind::Person => templates::PERSON_REFERENCES_SQL@,
        OptionKind::Project => templates::PROJECT_REFERENCES_SQL@,
        OptionKind::Specialty => templates::SPECIALTY_REFERENCES_SQL@,
    }
}

/// The count of log entries that use an entry.
pub fn reference_count_sql(kind: OptionKind) -> (r: &'static str)
    ensures
        r@ == reference_count_sql_spec(kind),
{
    match kind {
        OptionKind::Person => templates::PERSON_REFERENCES_SQL,
        OptionKind::Project => templates::PROJECT_REFERENCES_SQL,
        OptionKind::Specialty => templates::SPECIALTY_REFERENCES_SQL,
    }
}

/// The label of a new entry is the trimmed input; a blank one is refused.
pub open spec fn new_option_label_spec(label: Seq<char>) -> Result<Seq<char>, Seq<char>> {
    if trim_spec(label).len() == 0 {
        Err(templates::EMPTY_OPTION_ERROR@)
    } else {
        Ok(trim_spec(label))
    }
}

/// The label of a new entry, or the message that refuses a blank one.
pub fn new_option_label(label: &str) -> (r: Result<String, String>)
    ensures
        match r {
            Ok(l) => new_option_label_spec(label@) == Ok::<Seq<char>, Seq<char>>(l@),
            Err(e) => new_option_label_spec(label@) == Err::<Seq<char>, Seq<char>>(e@),
        },
{
    let t = trim(label);
    if t.unicode_len() == 0 {
        Err(String::from_str(templates::EMPTY_OPTION_ERROR))
    } else {
        Ok(t)
    }
}

/// A new entry whose label is already in the list is refused with a message
/// that names the label.
pub open spec fn check_not_duplicate_spec(label: Seq<char>, existing: Option<i64>) -> Result<
    (),
    Seq<char>,
> {
    match existing {
        Some(_) => Err(
            templates::DUPLICATE_OPTION_ERROR_0@ + label + templates::DUPLICATE_OPTION_ERROR_1@,
        ),
        None => Ok(()),
    }
}

/// Refuses a new entry whose label was found in the list.
pub fn check_not_duplicate(label: &str, existing: Option<i64>) -> (r: Result<(), String>)
    ensures
        r is Ok <==> existing is None,
        match r {
            Ok(()) => check_not_duplicate_spec(label@, existing) == Ok::<(), Seq<char>>(()),
            Err(e) => check_not_duplicate_spec(label@, existing) == Err::<(), Seq<char>>(e@),
        },
{
    match existing {
        Some(_) => {
            let mut msg = String::from_str(templates::DUPLICATE_OPTION_ERROR_0);
            msg.append(label);
            msg.append(templates::DUPLICATE_OPTION_ERROR_1);
            Err(msg)
        },
        None => Ok(()),
    }
}

/// An entry that log entries use is not deleted; the message says how many
/// use it and suggests disabling it instead.
pub open spec fn check_deletable_spec(reference_count: i64) -> Result<(), Seq<char>> {
    if reference_count > 0 {
        Err(
            templates::OPTION_IN_USE_ERROR_0@ + int_decimal(reference_count as int)
                + templates::OPTION_IN_USE_ERROR_1@,
        )
    } else {
        Ok(())
    }
}

/// Refuses to delete an entry that log entries use.
pub fn check_deletable(reference_count: i64) -> (r: Result<(), String>)
    ensures
        r is Ok <==> reference_count <= 0,
        match r {
            Ok(()) => check_deletable_spec(reference_count) == Ok::<(), Seq<char>>(()),
            Err(e) => check_deletable_spec(reference_count) == Err::<(), Seq<char>>(e@),
        },
{
    if reference_count > 0 {
        let mut msg = String::from_str(templates::OPTION_IN_USE_ERROR_0);
        push_i64(&mut msg, reference_count);
        msg.append(templates::OPTION_IN_USE_ERROR_1);
        Err(msg)
    } else {
        Ok(())
    }
}

} // verus!
