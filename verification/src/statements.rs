//! The entity-agnostic statement builders of the repository: INSERT with a
//! RETURNING clause, SELECT by key or by any single column, SELECT of all
//! rows with an optional ordering column, and DELETE returning the removed
//! key.  Table and column names are caller-supplied literals, never data.
//!
//! Every builder pins the exact statement text, so the placeholder count —
//! and with it the bind order a caller owes — is fixed by the contract.

use crate::update::join_comma;
use vstd::prelude::*;
use vstd::string::*;

verus! {

/// One value bound to a statement placeholder, typed as the column expects.
#[derive(Clone, Debug, PartialEq, Eq)]
pub enum BindValue {
    /// An absent optional value.
    Null,
    /// An integer column value: a key, a count, a flag.
    Int(i64),
    /// A text column value: a string, a date, an encoded enum token.
    Text(String),
}

/// Whether `v` binds exactly the given text.
pub open spec fn spec_text_bind(v: BindValue, s: Seq<char>) -> bool {
    v matches BindValue::Text(t) && t@ == s
}

/// Whether `v` binds the given optional text, with `Null` for its absence.
pub open spec fn spec_opt_text_bind(v: BindValue, s: Option<Seq<char>>) -> bool {
    match s {
        Some(x) => spec_text_bind(v, x),
        None => v == BindValue::Null,
    }
}

/// Whether `v` binds exactly the given integer.
pub open spec fn spec_int_bind(v: BindValue, n: int) -> bool {
    v matches BindValue::Int(m) && m == n
}

/// Whether `v` binds the given optional integer, with `Null` for its absence.
pub open spec fn spec_opt_int_bind(v: BindValue, n: Option<int>) -> bool {
    match n {
        Some(x) => spec_int_bind(v, x),
        None => v == BindValue::Null,
    }
}

/// The character sequences a list of string slices spells out.
pub open spec fn views_of_strs(parts: Seq<&str>) -> Seq<Seq<char>> {
    parts.map_values(|p: &str| p@)
}

/// Joins name parts with a comma and a space between each two.
pub fn join_with_commas(parts: &Vec<&str>) -> (r: String)
    ensures
        r@ == join_comma(views_of_strs(parts@)),
{
    let mut out = String::new();
    let mut i: usize = 0;
    while i < parts.len()
        invariant
            0 <= i <= parts@.len(),
            out@ == join_comma(views_of_strs(parts@).take(i as int)),
        decreases parts@.len() - i,
    {
        proof {
            assert(views_of_strs(parts@).take(i + 1).drop_last() =~= views_of_strs(
                parts@,
            ).take(i as int));
            assert(views_of_strs(parts@).take(i + 1).last() == parts@[i as int]@);
        }
        if i > 0 {
            out.append(", ");
        }
        out.append(parts[i]);
        proof {
            if i == 0 {
                assert(Seq::<char>::empty() + parts@[0]@ =~= parts@[0]@);
            }
        }
        i = i + 1;
    }
    proof {
        assert(views_of_strs(parts@).take(parts@.len() as int) =~= views_of_strs(parts@));
    }
    out
}

/// `n` placeholders, one per bound value.
pub open spec fn placeholder_list(n: nat) -> Seq<Seq<char>> {
    Seq::new(n, |i: int| "?"@)
}

/// Joins `n` placeholders with commas: `?, ?, ?` for three.
pub fn placeholders(n: usize) -> (r: String)
    ensures
        r@ == join_comma(placeholder_list(n as nat)),
{
    let mut out = String::new();
    let mut i: usize = 0;
    while i < n
        invariant
            0 <= i <= n,
            out@ == join_comma(placeholder_list(i as nat)),
        decreases n - i,
    {
        proof {
            assert(placeholder_list((i + 1) as nat).drop_last() =~= placeholder_list(
                i as nat,
            ));
            assert(placeholder_list((i + 1) as nat).last() == "?"@);
        }
        if i > 0 {
            out.append(", ");
        }
        out.append("?");
        proof {
            if i == 0 {
                assert(Seq::<char>::empty() + "?"@ =~= "?"@);
            }
        }
        i = i + 1;
    }
    out
}

/// The INSERT statement for a table and column list, returning the full new
/// row.  It carries exactly one placeholder per listed column, in order.
pub open spec fn spec_insert_sql(table: Seq<char>, columns: Seq<&str>) -> Seq<char> {
    "INSERT INTO "@ + table + " ("@ + join_comma(views_of_strs(columns)) + ") VALUES ("@
        + join_comma(placeholder_list(columns.len())) + ") RETURNING *"@
}

/// Builds the INSERT statement for a table and its provided columns.
pub fn build_insert_sql(table: &str, columns: &Vec<&str>) -> (r: String)
    ensures
        r@ == spec_insert_sql(table@, columns@),
{
    let mut out = String::new();
    out.append("INSERT INTO ");
    out.append(table);
    out.append(" (");
    let names = join_with_commas(columns);
    out.append(names.as_str());
    out.append(") VALUES (");
    let marks = placeholders(columns.len());
    out.append(marks.as_str());
    out.append(") RETURNING *");
    proof {
        assert(out@ =~= spec_insert_sql(table@, columns@));
    }
    out
}

/// The SELECT of the single row whose `key_col` equals the one placeholder.
pub open spec fn spec_select_by_column_sql(table: Seq<char>, key_col: Seq<char>) -> Seq<
    char,
> {
    "SELECT * FROM "@ + table + " WHERE "@ + key_col + " = ?"@
}

/// Builds the SELECT for the rows matching one column; with the primary-key
/// column this reads a single record.
pub fn build_select_by_column_sql(table: &str, key_col: &str) -> (r: String)
    ensures
        r@ == spec_select_by_column_sql(table@, key_col@),
{
    let mut out = String::new();
    out.append("SELECT * FROM ");
    out.append(table);
    out.append(" WHERE ");
    out.append(key_col);
    out.append(" = ?");
    proof {
        assert(out@ =~= spec_select_by_column_sql(table@, key_col@));
    }
    out
}

/// The SELECT of every row, ordered by a natural-key column when one is
/// given; ordering is entity-specific, not part of the generic contract.
pub open spec fn spec_select_all_sql(table: Seq<char>, order_by: Option<&str>) -> Seq<char> {
    match order_by {
        Some(col) => "SELECT * FROM "@ + table + " ORDER BY "@ + col@ + " ASC"@,
        None => "SELECT * FROM "@ + table,
    }
}

/// Builds the SELECT of all rows of a table.
pub fn build_select_all_sql(table: &str, order_by: Option<&str>) -> (r: String)
    ensures
        r@ == spec_select_all_sql(table@, order_by),
{
    let mut out = String::new();
    out.append("SELECT * FROM ");
    out.append(table);
    match order_by {
        Some(col) => {
            out.append(" ORDER BY ");
            out.append(col);
            out.append(" ASC");
            proof {
                assert(out@ =~= spec_select_all_sql(table@, order_by));
            }
        },
        None => {
            proof {
                assert(out@ =~= spec_select_all_sql(table@, order_by));
            }
        },
    }
    out
}

/// The DELETE of the row whose `key_col` equals the one placeholder,
/// returning the removed key — or no row, which callers turn into NotFound.
pub open spec fn spec_delete_sql(table: Seq<char>, key_col: Seq<char>) -> Seq<char> {
    "DELETE FROM "@ + table + " WHERE "@ + key_col + " = ? RETURNING "@ + key_col
}

/// Builds the DELETE statement for a table's primary key.
pub fn build_delete_sql(table: &str, key_col: &str) -> (r: String)
    ensures
        r@ == spec_delete_sql(table@, key_col@),
{
    let mut out = String::new();
    out.append("DELETE FROM ");
    out.append(table);
    out.append(" WHERE ");
    out.append(key_col);
    out.append(" = ? RETURNING ");
    out.append(key_col);
    proof {
        assert(out@ =~= spec_delete_sql(table@, key_col@));
    }
    out
}

/// The SELECT of the pending reminders from a date onward, soonest first:
/// the one entity-specific query that filters on two columns at once.
pub open spec fn spec_upcoming_reminders_sql() -> Seq<char> {
    "SELECT * FROM reminder WHERE reminder_date >= ? AND is_completed = 0 ORDER BY reminder_date ASC"@
}

/// Builds the upcoming-reminders SELECT; its one placeholder is the current
/// date.
pub fn build_upcoming_reminders_sql() -> (r: String)
    ensures
        r@ == spec_upcoming_reminders_sql(),
{
    let out: String = String::from_str(
        "SELECT * FROM reminder WHERE reminder_date >= ? AND is_completed = 0 ORDER BY reminder_date ASC",
    );
    out
}

} // verus!
