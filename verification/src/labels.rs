//! Display labels for records, derived from their own fields, with a
//! fallback built from the record id when the fields are blank.

use crate::text::i64_to_string;
use crate::text::spec_i64_str;
use crate::text::spec_trim;
use crate::text::trim_str;
use vstd::prelude::*;
use vstd::string::*;

verus! {

/// The label of a person: "last, first", whichever of the two is present,
/// or "Person ID: <id>" when both are blank.  Names are trimmed first.
pub open spec fn spec_person_label(
    last_name: Seq<char>,
    first_name: Seq<char>,
    id: int,
) -> Seq<char> {
    let l = spec_trim(last_name);
    let f = spec_trim(first_name);
    if l.len() > 0 && f.len() > 0 {
        l + ", "@ + f
    } else if l.len() > 0 {
        l
    } else if f.len() > 0 {
        f
    } else {
        "Person ID: "@ + spec_i64_str(id)
    }
}

/// The label of a reminder: its trimmed title, or "Reminder ID: <id>" when
/// the title is blank.
pub open spec fn spec_reminder_label(title: Seq<char>, id: int) -> Seq<char> {
    let t = spec_trim(title);
    if t.len() > 0 {
        t
    } else {
        "Reminder ID: "@ + spec_i64_str(id)
    }
}

/// The fallback label of any record: built from the id when one is known.
pub open spec fn spec_record_fallback(id: Option<int>) -> Seq<char> {
    match id {
        Some(i) => "Record ID: "@ + spec_i64_str(i),
        None => "Unnamed record"@,
    }
}

/// The display label attached to a serialized record: the provided label
/// as it stands when it is not blank, else the fallback from the id.
pub open spec fn spec_record_label(label: Option<Seq<char>>, id: Option<int>) -> Seq<char> {
    match label {
        Some(l) => if spec_trim(l).len() > 0 {
            l
        } else {
            spec_record_fallback(id)
        },
        None => spec_record_fallback(id),
    }
}

/// Picks the display label of a record: a non-blank provided label wins,
/// untrimmed; otherwise the fallback built from the record's id.
pub fn record_label(label: Option<&str>, id: Option<i64>) -> (r: String)
    ensures
        r@ == spec_record_label(
            match label {
                Some(l) => Some(l@),
                None => None,
            },
            match id {
                Some(i) => Some(i as int),
                None => None,
            },
        ),
{
    match label {
        Some(l) => {
            let trimmed = trim_str(l);
            if !trimmed.is_empty() {
                l.to_owned()
            } else {
                record_fallback(id)
            }
        },
        None => record_fallback(id),
    }
}

fn record_fallback(id: Option<i64>) -> (r: String)
    ensures
        r@ == spec_record_fallback(
            match id {
                Some(i) => Some(i as int),
                None => None,
            },
        ),
{
    match id {
        Some(i) => {
            let mut out = String::new();
            out.append("Record ID: ");
            let digits = i64_to_string(i);
            out.append(digits.as_str());
            proof {
                assert(Seq::<char>::empty() + "Record ID: "@ + digits@ =~= "Record ID: "@
                    + digits@);
            }
            out
        },
        None => {
            let out: String = String::from_str("Unnamed record");
            out
        },
    }
}

/// Formats the display label of a person.
pub fn format_person_label(last_name: &str, first_name: &str, id: i64) -> (r: String)
    ensures
        r@ == spec_person_label(last_name@, first_name@, id as int),
{
    let last_trimmed = trim_str(last_name);
    let first_trimmed = trim_str(first_name);
    if !last_trimmed.is_empty() && !first_trimmed.is_empty() {
        let mut out = last_trimmed.to_owned();
        out.append(", ");
        out.append(first_trimmed);
        out
    } else if !last_trimmed.is_empty() {
        last_trimmed.to_owned()
    } else if !first_trimmed.is_empty() {
        first_trimmed.to_owned()
    } else {
        let mut out = String::new();
        out.append("Person ID: ");
        let digits = i64_to_string(id);
        out.append(digits.as_str());
        proof {
            assert(Seq::<char>::empty() + "Person ID: "@ + digits@ =~= "Person ID: "@
                + digits@);
        }
        out
    }
}

/// Formats the display label of a reminder.
pub fn format_reminder_label(title: &str, id: i64) -> (r: String)
    ensures
        r@ == spec_reminder_label(title@, id as int),
{
    let t = trim_str(title);
    if !t.is_empty() {
        t.to_owned()
    } else {
        let mut out = String::new();
        out.append("Reminder ID: ");
        let digits = i64_to_string(id);
        out.append(digits.as_str());
        proof {
            assert(Seq::<char>::empty() + "Reminder ID: "@ + digits@ =~= "Reminder ID: "@
                + digits@);
        }
        out
    }
}

} // verus!
