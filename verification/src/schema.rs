//! The embedded schema script and the statement splitter that prepares it
//! for execution.
//!
//! The script is applied only when the store holds no tables yet; it is cut
//! on `;`, each fragment is trimmed, and empty fragments are dropped, so
//! every returned statement is non-empty.

use crate::text::spec_trim;
use crate::text::trim_str;
use vstd::prelude::*;
use vstd::string::*;

verus! {

/// The full schema of the store, applied statement by statement on first run.
pub const INIT_SQL: &'static str = "CREATE TABLE company (\n    id INTEGER PRIMARY KEY AUTOINCREMENT,\n    name TEXT NOT NULL,\n    street_address TEXT,\n    zip_code TEXT,\n    city TEXT,\n    country TEXT,\n    default_work_type TEXT,\n    industry TEXT,\n    website TEXT,\n    phone_number TEXT,\n    created_at TEXT NOT NULL DEFAULT (strftime('%Y-%m-%dT%H:%M:%f', 'now') || '+00:00'),\n    updated_at TEXT NOT NULL DEFAULT (strftime('%Y-%m-%dT%H:%M:%f', 'now') || '+00:00')\n);\n\nCREATE TABLE job_listing (\n    id INTEGER PRIMARY KEY AUTOINCREMENT,\n    company_id INTEGER NOT NULL REFERENCES company(id),\n    title TEXT NOT NULL,\n    work_type TEXT,\n    category TEXT,\n    seniority_level TEXT,\n    salary_min INTEGER,\n    salary_max INTEGER,\n    currency TEXT,\n    description TEXT,\n    url TEXT,\n    created_at TEXT NOT NULL DEFAULT (strftime('%Y-%m-%dT%H:%M:%f', 'now') || '+00:00'),\n    updated_at TEXT NOT NULL DEFAULT (strftime('%Y-%m-%dT%H:%M:%f', 'now') || '+00:00')\n);\n\nCREATE TABLE application (\n    id INTEGER PRIMARY KEY AUTOINCREMENT,\n    job_listing_id INTEGER REFERENCES job_listing(id),\n    stage TEXT,\n    applied_date TEXT NOT NULL,\n    application_notes TEXT,\n    created_at TEXT NOT NULL DEFAULT (strftime('%Y-%m-%dT%H:%M:%f', 'now') || '+00:00'),\n    updated_at TEXT NOT NULL DEFAULT (strftime('%Y-%m-%dT%H:%M:%f', 'now') || '+00:00')\n);\n\nCREATE TABLE person (\n    id INTEGER PRIMARY KEY AUTOINCREMENT,\n    first_name TEXT NOT NULL,\n    last_name TEXT NOT NULL,\n    email TEXT,\n    phone_number TEXT,\n    role TEXT,\n    linkedin_url TEXT,\n    company_id INTEGER REFERENCES company(id),\n    created_at TEXT NOT NULL DEFAULT (strftime('%Y-%m-%dT%H:%M:%f', 'now') || '+00:00'),\n    updated_at TEXT NOT NULL DEFAULT (strftime('%Y-%m-%dT%H:%M:%f', 'now') || '+00:00')\n);\n\nCREATE TABLE interaction (\n    id INTEGER PRIMARY KEY AUTOINCREMENT,\n    interaction_type TEXT NOT NULL,\n    interaction_date TEXT NOT NULL,\n    subject TEXT,\n    summary TEXT,\n    medium TEXT,\n    application_id INTEGER REFERENCES application(id),\n    person_id INTEGER REFERENCES person(id),\n    company_id INTEGER REFERENCES company(id),\n    created_at TEXT NOT NULL DEFAULT (strftime('%Y-%m-%dT%H:%M:%f', 'now') || '+00:00'),\n    updated_at TEXT NOT NULL DEFAULT (strftime('%Y-%m-%dT%H:%M:%f', 'now') || '+00:00')\n);\n\nCREATE TABLE contact (\n    id INTEGER PRIMARY KEY AUTOINCREMENT,\n    contact_type TEXT NOT NULL,\n    contact_date TEXT NOT NULL,\n    location TEXT,\n    person_id INTEGER REFERENCES person(id),\n    application_id INTEGER REFERENCES application(id),\n    created_at TEXT NOT NULL DEFAULT (strftime('%Y-%m-%dT%H:%M:%f', 'now') || '+00:00'),\n    updated_at TEXT NOT NULL DEFAULT (strftime('%Y-%m-%dT%H:%M:%f', 'now') || '+00:00')\n);\n\nCREATE TABLE note (\n    id INTEGER PRIMARY KEY AUTOINCREMENT,\n    interaction_id INTEGER REFERENCES interaction(id),\n    job_listing_id INTEGER REFERENCES job_listing(id),\n    application_id INTEGER REFERENCES application(id),\n    person_id INTEGER REFERENCES person(id),\n    company_id INTEGER REFERENCES company(id),\n    note_type TEXT,\n    title TEXT,\n    content TEXT,\n    created_at TEXT NOT NULL DEFAULT (strftime('%Y-%m-%dT%H:%M:%f', 'now') || '+00:00'),\n    updated_at TEXT NOT NULL DEFAULT (strftime('%Y-%m-%dT%H:%M:%f', 'now') || '+00:00')\n);\n\nCREATE TABLE reminder (\n    id INTEGER PRIMARY KEY AUTOINCREMENT,\n    application_id INTEGER REFERENCES application(id),\n    interaction_id INTEGER REFERENCES interaction(id),\n    note_id INTEGER REFERENCES note(id),\n    job_listing_id INTEGER REFERENCES job_listing(id),\n    company_id INTEGER REFERENCES company(id),\n    person_id INTEGER REFERENCES person(id),\n    reminder_date TEXT NOT NULL,\n    title TEXT NOT NULL,\n    message TEXT,\n    is_completed INTEGER NOT NULL DEFAULT 0,\n    created_at TEXT NOT NULL DEFAULT (strftime('%Y-%m-%dT%H:%M:%f', 'now') || '+00:00'),\n    updated_at TEXT NOT NULL DEFAULT (strftime('%Y-%m-%dT%H:%M:%f', 'now') || '+00:00')\n);\n\nCREATE TABLE user (\n    id INTEGER PRIMARY KEY AUTOINCREMENT,\n    first_name TEXT,\n    last_name TEXT,\n    email TEXT,\n    phone_number TEXT,\n    street_address TEXT,\n    zip_code TEXT,\n    city TEXT,\n    country TEXT,\n    created_at TEXT NOT NULL DEFAULT (strftime('%Y-%m-%dT%H:%M:%f', 'now') || '+00:00'),\n    updated_at TEXT NOT NULL DEFAULT (strftime('%Y-%m-%dT%H:%M:%f', 'now') || '+00:00')\n);\n\nCREATE TABLE contact_note (\n    id INTEGER PRIMARY KEY AUTOINCREMENT,\n    contact_id INTEGER NOT NULL REFERENCES contact(id),\n    note_type TEXT,\n    content TEXT,\n    created_at TEXT NOT NULL DEFAULT (strftime('%Y-%m-%dT%H:%M:%f', 'now') || '+00:00'),\n    updated_at TEXT NOT NULL DEFAULT (strftime('%Y-%m-%dT%H:%M:%f', 'now') || '+00:00')\n);\n\nCREATE TABLE job_listing_contact (\n    id INTEGER PRIMARY KEY AUTOINCREMENT,\n    job_listing_id INTEGER NOT NULL REFERENCES job_listing(id),\n    person_id INTEGER NOT NULL REFERENCES person(id),\n    role TEXT,\n    created_at TEXT NOT NULL DEFAULT (strftime('%Y-%m-%dT%H:%M:%f', 'now') || '+00:00'),\n    updated_at TEXT NOT NULL DEFAULT (strftime('%Y-%m-%dT%H:%M:%f', 'now') || '+00:00')\n);\n";

/// The position of the first `;` in `s`, or `s.len()` if there is none.
pub open spec fn first_semi(s: Seq<char>) -> nat
    decreases s.len(),
{
    if s.len() == 0 {
        0
    } else if s[0] == ';' {
        0
    } else {
        1 + first_semi(s.drop_first())
    }
}

proof fn lemma_first_semi_facts(s: Seq<char>)
    ensures
        first_semi(s) <= s.len(),
        forall|j: int| 0 <= j < first_semi(s) ==> s[j] != ';',
        first_semi(s) < s.len() ==> s[first_semi(s) as int] == ';',
    decreases s.len(),
{
    if s.len() > 0 && s[0] != ';' {
        lemma_first_semi_facts(s.drop_first());
        assert(forall|j: int|
            1 <= j < first_semi(s) ==> s[j] == s.drop_first()[j - 1] && s.drop_first()[j - 1]
                != ';');
    }
}

proof fn lemma_first_semi_of_prefix(s: Seq<char>, i: int)
    requires
        0 <= i <= s.len(),
        forall|j: int| 0 <= j < i ==> s[j] != ';',
        i < s.len() ==> s[i] == ';',
    ensures
        first_semi(s) == i,
    decreases i,
{
    if i == 0 {
        if s.len() > 0 {
            assert(s[0] == ';');
        }
    } else {
        assert(s[0] != ';');
        lemma_first_semi_of_prefix(s.drop_first(), i - 1);
    }
}

/// The fragments of `s` between its `;` separators, in order.
pub open spec fn spec_split_semi(s: Seq<char>) -> Seq<Seq<char>>
    decreases s.len(),
{
    if first_semi(s) >= s.len() {
        seq![s]
    } else {
        seq![s.take(first_semi(s) as int)] + spec_split_semi(s.skip(first_semi(s) as int + 1))
    }
}

/// The trimmed, non-empty fragments, in order.
pub open spec fn keep_statements(pieces: Seq<Seq<char>>) -> Seq<Seq<char>>
    decreases pieces.len(),
{
    if pieces.len() == 0 {
        Seq::empty()
    } else {
        let prev = keep_statements(pieces.drop_last());
        let t = spec_trim(pieces.last());
        if t.len() > 0 {
            prev.push(t)
        } else {
            prev
        }
    }
}

/// What the splitter returns for a script: fragments cut on `;`, trimmed,
/// with empty ones dropped.
pub open spec fn spec_statements(s: Seq<char>) -> Seq<Seq<char>> {
    keep_statements(spec_split_semi(s))
}

/// The character sequences a list of owned strings spells out.
pub open spec fn views_of(vs: Seq<String>) -> Seq<Seq<char>> {
    vs.map_values(|v: String| v@)
}

/// The splitter never yields an empty statement, whatever the script: the
/// empty fragments between stray separators are dropped, so each returned
/// statement is something the store can execute.
pub proof fn lemma_statements_nonempty(s: Seq<char>)
    ensures
        forall|i: int| 0 <= i < spec_statements(s).len() ==> spec_statements(s)[i].len() > 0,
{
    lemma_kept_nonempty(spec_split_semi(s));
}

proof fn lemma_kept_nonempty(pieces: Seq<Seq<char>>)
    ensures
        forall|i: int|
            0 <= i < keep_statements(pieces).len() ==> keep_statements(pieces)[i].len() > 0,
    decreases pieces.len(),
{
    if pieces.len() > 0 {
        lemma_kept_nonempty(pieces.drop_last());
        let prev = keep_statements(pieces.drop_last());
        let t = spec_trim(pieces.last());
        if t.len() > 0 {
            assert forall|i: int| 0 <= i < prev.push(t).len() implies prev.push(t)[i].len()
                > 0 by {
                if i < prev.len() {
                    assert(prev.push(t)[i] == prev[i]);
                } else {
                    assert(prev.push(t)[i] == t);
                }
            }
        }
    }
}

/// Finds the first `;`, or the length when there is none.
fn find_semi(s: &str) -> (r: usize)
    ensures
        r == first_semi(s@),
{
    let n = s.unicode_len();
    let mut i: usize = 0;
    while i < n && s.get_char(i) != ';'
        invariant
            0 <= i <= n,
            n == s@.len(),
            forall|j: int| 0 <= j < i ==> s@[j] != ';',
        decreases n - i,
    {
        i = i + 1;
    }
    proof {
        lemma_first_semi_of_prefix(s@, i as int);
    }
    i
}

fn split_semi(s: &str, out: &mut Vec<String>)
    ensures
        views_of(final(out)@) == views_of(old(out)@) + spec_split_semi(s@),
    decreases s@.len(),
{
    let n = s.unicode_len();
    let idx = find_semi(s);
    proof {
        lemma_first_semi_facts(s@);
    }
    if idx >= n {
        out.push(s.to_owned());
        proof {
            assert(views_of(out@) =~= views_of(old(out)@) + spec_split_semi(s@));
        }
    } else {
        let head = s.substring_char(0, idx);
        out.push(head.to_owned());
        let ghost mid = out@;
        let tail = s.substring_char(idx + 1, n);
        split_semi(tail, out);
        proof {
            assert(s@.subrange(0, idx as int) =~= s@.take(idx as int));
            assert(s@.subrange(idx + 1, n as int) =~= s@.skip(idx + 1));
            assert(views_of(mid) =~= views_of(old(out)@) + seq![s@.take(idx as int)]);
            assert(views_of(out@) =~= views_of(old(out)@) + spec_split_semi(s@));
        }
    }
}

/// Cuts a schema script on `;`, trims each fragment, and drops the empty
/// ones, keeping the order of the script.
pub fn split_statements(script: &str) -> (r: Vec<String>)
    ensures
        views_of(r@) == spec_statements(script@),
{
    let mut pieces: Vec<String> = Vec::new();
    split_semi(script, &mut pieces);
    proof {
        assert(views_of(pieces@) =~= spec_split_semi(script@));
    }
    let mut out: Vec<String> = Vec::new();
    let mut i: usize = 0;
    while i < pieces.len()
        invariant
            0 <= i <= pieces@.len(),
            views_of(pieces@) == spec_split_semi(script@),
            views_of(out@) == keep_statements(views_of(pieces@).take(i as int)),
        decreases pieces@.len() - i,
    {
        proof {
            assert(views_of(pieces@).take(i + 1).drop_last() =~= views_of(pieces@).take(
                i as int,
            ));
            assert(views_of(pieces@).take(i + 1).last() == pieces@[i as int]@);
        }
        let t = trim_str(pieces[i].as_str());
        if !t.is_empty() {
            out.push(t.to_owned());
        }
        proof {
            assert(views_of(out@) =~= keep_statements(views_of(pieces@).take(i + 1)));
        }
        i = i + 1;
    }
    proof {
        assert(views_of(pieces@).take(pieces@.len() as int) =~= views_of(pieces@));
    }
    out
}

/// The schema script, already split into executable statements.
pub fn schema_statements() -> (r: Vec<String>)
    ensures
        views_of(r@) == spec_statements(INIT_SQL@),
{
    split_statements(INIT_SQL)
}

/// Whether a store with `table_count` existing tables still needs the schema
/// applied: only a completely empty store does.
pub fn needs_init(table_count: i64) -> (r: bool)
    ensures
        r == (table_count == 0),
{
    table_count == 0
}

} // verus!
