//! The partial-update statement builder.
//!
//! From a table name, a key column, a key value and a sparse field list it
//! produces the text of an UPDATE statement and the bound values in the
//! exact order the statement's placeholders expect.  A field with no value
//! is skipped entirely — it appears neither in the SET clause nor among the
//! binds, which is how an unspecified column is left untouched.  The
//! `updated_at` stamp is always the second-to-last bind and the key value
//! always the last.

use crate::text::i64_to_string;
use crate::text::spec_i64_str;
use vstd::prelude::*;
use vstd::string::*;

verus! {

/// How many fields of the sparse list carry a value.
pub open spec fn count_set<'a>(fields: Seq<(&'a str, Option<&'a str>)>) -> nat
    decreases fields.len(),
{
    if fields.len() == 0 {
        0
    } else {
        count_set(fields.drop_last()) + if fields.last().1 is Some {
            1nat
        } else {
            0nat
        }
    }
}

/// The values of the fields that carry one, in list order.
pub open spec fn set_values<'a>(fields: Seq<(&'a str, Option<&'a str>)>) -> Seq<Seq<char>>
    decreases fields.len(),
{
    if fields.len() == 0 {
        Seq::empty()
    } else {
        let prev = set_values(fields.drop_last());
        match fields.last().1 {
            Some(v) => prev.push(v@),
            None => prev,
        }
    }
}

/// The SET assignment text for one column.
pub open spec fn column_assignment(col: Seq<char>) -> Seq<char> {
    col + " = ?"@
}

/// One SET assignment per field that carries a value, in list order.
pub open spec fn set_assignments<'a>(fields: Seq<(&'a str, Option<&'a str>)>) -> Seq<
    Seq<char>,
>
    decreases fields.len(),
{
    if fields.len() == 0 {
        Seq::empty()
    } else {
        let prev = set_assignments(fields.drop_last());
        match fields.last().1 {
            Some(v) => prev.push(column_assignment(fields.last().0@)),
            None => prev,
        }
    }
}

/// Every assignment of the statement: the set fields, then `updated_at`.
pub open spec fn all_assignments<'a>(fields: Seq<(&'a str, Option<&'a str>)>) -> Seq<
    Seq<char>,
> {
    set_assignments(fields).push("updated_at = ?"@)
}

/// The parts joined with a comma and a space between each two.
pub open spec fn join_comma(parts: Seq<Seq<char>>) -> Seq<char>
    decreases parts.len(),
{
    if parts.len() == 0 {
        Seq::empty()
    } else if parts.len() == 1 {
        parts[0]
    } else {
        join_comma(parts.drop_last()) + ", "@ + parts.last()
    }
}

/// The full text of the generated UPDATE statement.
pub open spec fn spec_update_sql<'a>(
    table: Seq<char>,
    id_col: Seq<char>,
    fields: Seq<(&'a str, Option<&'a str>)>,
) -> Seq<char> {
    "UPDATE "@ + table + " SET "@ + join_comma(all_assignments(fields)) + " WHERE "@ + id_col
        + " = ? RETURNING *"@
}

/// The bound values of the statement: set values, the stamp, then the key.
pub open spec fn spec_update_binds<'a>(
    fields: Seq<(&'a str, Option<&'a str>)>,
    stamp: Seq<char>,
    id: int,
) -> Seq<Seq<char>> {
    set_values(fields).push(stamp).push(spec_i64_str(id))
}

/// Whether an owned bind list spells out exactly the modelled values.
pub open spec fn binds_match(binds: Seq<String>, model: Seq<Seq<char>>) -> bool {
    binds.len() == model.len() && (forall|j: int| 0 <= j < model.len() ==> binds[j]@ == model[j])
}

/// Each part followed by a comma and a space, concatenated.
spec fn join_trailing(parts: Seq<Seq<char>>) -> Seq<char>
    decreases parts.len(),
{
    if parts.len() == 0 {
        Seq::empty()
    } else {
        join_trailing(parts.drop_last()) + parts.last() + ", "@
    }
}

proof fn lemma_join_comma_trailing(parts: Seq<Seq<char>>)
    requires
        parts.len() > 0,
    ensures
        join_comma(parts) + ", "@ == join_trailing(parts),
    decreases parts.len(),
{
    if parts.len() == 1 {
        assert(join_trailing(parts.drop_last()) =~= Seq::<char>::empty());
        assert(join_comma(parts) + ", "@ =~= join_trailing(parts));
    } else {
        lemma_join_comma_trailing(parts.drop_last());
        assert(join_comma(parts) + ", "@ =~= join_trailing(parts.drop_last()) + parts.last()
            + ", "@);
    }
}

proof fn lemma_join_comma_push(parts: Seq<Seq<char>>, last_part: Seq<char>)
    ensures
        join_comma(parts.push(last_part)) == join_trailing(parts) + last_part,
{
    let whole = parts.push(last_part);
    assert(whole.drop_last() =~= parts);
    assert(whole.last() == last_part);
    if parts.len() == 0 {
        assert(join_comma(whole) == last_part);
        assert(join_trailing(parts) + last_part =~= last_part);
    } else {
        lemma_join_comma_trailing(parts);
        assert(join_comma(whole) == join_comma(parts) + ", "@ + last_part);
        assert(join_comma(parts) + ", "@ + last_part =~= (join_comma(parts) + ", "@)
            + last_part);
    }
}

proof fn lemma_chunks_are_trailing_assignments<'a>(fields: Seq<(&'a str, Option<&'a str>)>)
    ensures
        join_trailing(set_assignments(fields)) == set_chunks(fields),
    decreases fields.len(),
{
    if fields.len() == 0 {
        assert(join_trailing(set_assignments(fields)) =~= Seq::<char>::empty());
    } else {
        lemma_chunks_are_trailing_assignments(fields.drop_last());
        match fields.last().1 {
            Some(_) => {
                let prev = set_assignments(fields.drop_last());
                let asg = column_assignment(fields.last().0@);
                assert(set_assignments(fields).drop_last() =~= prev);
                assert(join_trailing(set_assignments(fields)) == join_trailing(prev) + asg
                    + ", "@);
                assert(join_trailing(prev) + asg + ", "@ =~= set_chunks(fields.drop_last()) + (
                asg + ", "@));
            },
            None => {},
        }
    }
}

/// The SET text the building loop accumulates: one `col = ?, ` chunk per set
/// field, in list order.
spec fn set_chunks<'a>(fields: Seq<(&'a str, Option<&'a str>)>) -> Seq<char>
    decreases fields.len(),
{
    if fields.len() == 0 {
        Seq::empty()
    } else {
        set_chunks(fields.drop_last()) + match fields.last().1 {
            Some(_) => column_assignment(fields.last().0@) + ", "@,
            None => Seq::empty(),
        }
    }
}

proof fn lemma_set_sizes<'a>(fields: Seq<(&'a str, Option<&'a str>)>)
    ensures
        set_values(fields).len() == count_set(fields),
        set_assignments(fields).len() == count_set(fields),
    decreases fields.len(),
{
    if fields.len() > 0 {
        lemma_set_sizes(fields.drop_last());
    }
}

/// Bind-count invariant: a sparse list with `k` set fields yields exactly
/// `k + 2` binds, and a SET clause of exactly `k + 1` assignments.
pub proof fn lemma_update_shape<'a>(
    fields: Seq<(&'a str, Option<&'a str>)>,
    stamp: Seq<char>,
    id: int,
)
    ensures
        spec_update_binds(fields, stamp, id).len() == count_set(fields) + 2,
        all_assignments(fields).len() == count_set(fields) + 1,
{
    lemma_set_sizes(fields);
}

/// A request that sets no field still produces one assignment — the
/// `updated_at` stamp — and binds only the stamp and the key.
pub proof fn lemma_noop_update<'a>(
    table: Seq<char>,
    id_col: Seq<char>,
    fields: Seq<(&'a str, Option<&'a str>)>,
    stamp: Seq<char>,
    id: int,
)
    requires
        forall|j: int| 0 <= j < fields.len() ==> fields[j].1 is None,
    ensures
        spec_update_sql(table, id_col, fields) == "UPDATE "@ + table + " SET "@
            + "updated_at = ?"@ + " WHERE "@ + id_col + " = ? RETURNING *"@,
        spec_update_binds(fields, stamp, id) =~= seq![stamp, spec_i64_str(id)],
{
    lemma_all_none_sets_nothing(fields);
    assert(all_assignments(fields) =~= seq!["updated_at = ?"@]);
    assert(join_comma(all_assignments(fields)) == "updated_at = ?"@);
    assert(set_values(fields).push(stamp).push(spec_i64_str(id)) =~= seq![
        stamp,
        spec_i64_str(id),
    ]);
}

proof fn lemma_all_none_sets_nothing<'a>(fields: Seq<(&'a str, Option<&'a str>)>)
    requires
        forall|j: int| 0 <= j < fields.len() ==> fields[j].1 is None,
    ensures
        set_assignments(fields) =~= Seq::<Seq<char>>::empty(),
        set_values(fields) =~= Seq::<Seq<char>>::empty(),
    decreases fields.len(),
{
    if fields.len() > 0 {
        assert(fields.last().1 is None);
        lemma_all_none_sets_nothing(fields.drop_last());
    }
}

/// Relies on chrono's `Utc::now` and `DateTime::to_rfc3339` for the
/// `updated_at` stamp.  The value depends on the clock, so nothing is
/// promised of it.
#[verifier::external_body]
fn now_rfc3339() -> (r: String) {
    chrono::Utc::now().to_rfc3339()
}

/// Builds the UPDATE statement for a sparse field list around a caller-chosen
/// `updated_at` stamp, deterministically.
pub fn build_update_sql_at<'a>(
    table: &str,
    id_field: &str,
    id: i64,
    fields: &Vec<(&'a str, Option<&'a str>)>,
    stamp: &str,
) -> (r: (String, Vec<String>))
    ensures
        r.0@ == spec_update_sql(table@, id_field@, fields@),
        binds_match(r.1@, spec_update_binds(fields@, stamp@, id as int)),
{
    let ghost all_fields = fields@;
    let mut sql = String::new();
    sql.append("UPDATE ");
    sql.append(table);
    sql.append(" SET ");
    let mut binds: Vec<String> = Vec::new();
    let mut i: usize = 0;
    while i < fields.len()
        invariant
            0 <= i <= fields.len(),
            fields@ == all_fields,
            sql@ == "UPDATE "@ + table@ + " SET "@ + set_chunks(all_fields.take(i as int)),
            binds_match(binds@, set_values(all_fields.take(i as int))),
        decreases fields.len() - i,
    {
        let (col, val) = fields[i];
        proof {
            assert(all_fields.take(i + 1).drop_last() =~= all_fields.take(i as int));
            assert(all_fields.take(i + 1).last() == all_fields[i as int]);
            reveal_strlit(" = ?");
            reveal_strlit(" = ?, ");
            assert(" = ?"@ + ", "@ =~= " = ?, "@) by {
                reveal_strlit(", ");
            }
        }
        match val {
            Some(v) => {
                sql.append(col);
                sql.append(" = ?, ");
                binds.push(v.to_owned());
                proof {
                    assert(sql@ =~= "UPDATE "@ + table@ + " SET "@ + set_chunks(
                        all_fields.take(i + 1),
                    ));
                }
            },
            None => {
                proof {
                    assert(set_chunks(all_fields.take(i + 1)) =~= set_chunks(
                        all_fields.take(i as int),
                    ));
                }
            },
        }
        i = i + 1;
    }
    proof {
        assert(all_fields.take(fields@.len() as int) =~= all_fields);
    }
    sql.append("updated_at = ? WHERE ");
    sql.append(id_field);
    sql.append(" = ? RETURNING *");
    binds.push(stamp.to_owned());
    binds.push(i64_to_string(id));
    proof {
        lemma_chunks_are_trailing_assignments(all_fields);
        lemma_join_comma_push(set_assignments(all_fields), "updated_at = ?"@);
        assert("updated_at = ? WHERE "@ =~= "updated_at = ?"@ + " WHERE "@) by {
            reveal_strlit("updated_at = ? WHERE ");
            reveal_strlit("updated_at = ?");
            reveal_strlit(" WHERE ");
        }
        assert(sql@ =~= spec_update_sql(table@, id_field@, all_fields));
        assert(binds@.len() == set_values(all_fields).len() + 2);
        assert(spec_update_binds(all_fields, stamp@, id as int).len() == set_values(all_fields).len() + 2);
        assert(binds_match(binds@, spec_update_binds(all_fields, stamp@, id as int)));
    }
    (sql, binds)
}

/// Builds the UPDATE statement and bind list for a sparse field list,
/// stamping `updated_at` with the present time.  Every bind except the
/// clock-dependent stamp is pinned: the set values in list order, then the
/// stamp, then the key value.
pub fn build_update_sql<'a>(
    table: &str,
    id_field: &str,
    id: i64,
    fields: Vec<(&'a str, Option<&'a str>)>,
) -> (r: (String, Vec<String>))
    ensures
        r.0@ == spec_update_sql(table@, id_field@, fields@),
        r.1@.len() == count_set(fields@) + 2,
        forall|j: int|
            0 <= j < count_set(fields@) ==> r.1@[j]@ == set_values(fields@)[j],
        r.1@[r.1@.len() - 1]@ == spec_i64_str(id as int),
{
    let stamp = now_rfc3339();
    let r = build_update_sql_at(table, id_field, id, &fields, stamp.as_str());
    proof {
        lemma_set_sizes(fields@);
        let vals = set_values(fields@);
        let model = spec_update_binds(fields@, stamp@, id as int);
        assert(forall|j: int|
            0 <= j < vals.len() ==> model[j] == vals.push(stamp@)[j] && vals.push(stamp@)[j]
                == vals[j]);
        assert(model[model.len() - 1] == spec_i64_str(id as int));
    }
    r
}

} // verus!
