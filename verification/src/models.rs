//! The error taxonomy of the repository and the typed records whose rows
//! the library decodes itself.
//!
//! Enum-typed columns pass through the codec exactly once, here, at the
//! repository boundary: a stored token outside its enumeration's set is a
//! decode error, never a default.

use crate::enums::DecodeError;
use crate::enums::NoteType;
use crate::enums::Role;
use crate::enums::spec_decode_note;
use crate::enums::spec_decode_role;
use vstd::prelude::*;

verus! {

/// What a repository call can fail with.  Nothing here is retried: bootstrap
/// and connection failures are fatal to the caller, the rest are returned.
#[derive(Clone, Debug, PartialEq, Eq)]
pub enum DbError {
    /// No row matches the given key.
    NotFound,
    /// A foreign-key or uniqueness constraint rejected the mutation.
    ConstraintViolation,
    /// A stored value does not match any known enum token.
    Decode(DecodeError),
    /// The connection or the disk failed during a call.
    Connection(String),
}

/// Decodes an optional stored note-type token; an absent column stays
/// absent, a present one must be a known token.
pub fn decode_note_type_opt(s: Option<&str>) -> (r: Result<Option<NoteType>, DecodeError>)
    ensures
        match r {
            Ok(v) => match (s, v) {
                (None, None) => true,
                (Some(t), Some(x)) => spec_decode_note(t@) == Some(x),
                _ => false,
            },
            Err(e) => s matches Some(t) && spec_decode_note(t@) is None && (
            e matches DecodeError::UnknownToken(u) && u@ == t@),
        },
{
    match s {
        None => Ok(None),
        Some(t) => match NoteType::decode(t) {
            Ok(v) => Ok(Some(v)),
            Err(e) => Err(e),
        },
    }
}

/// Decodes an optional stored role token; an absent column stays absent, a
/// present one must be a known token.
pub fn decode_role_opt(s: Option<&str>) -> (r: Result<Option<Role>, DecodeError>)
    ensures
        match r {
            Ok(v) => match (s, v) {
                (None, None) => true,
                (Some(t), Some(x)) => spec_decode_role(t@) == Some(x),
                _ => false,
            },
            Err(e) => s matches Some(t) && spec_decode_role(t@) is None && (
            e matches DecodeError::UnknownToken(u) && u@ == t@),
        },
{
    match s {
        None => Ok(None),
        Some(t) => match Role::decode(t) {
            Ok(v) => Ok(Some(v)),
            Err(e) => Err(e),
        },
    }
}

/// The single local user's record.
#[derive(Clone, Debug, PartialEq, Eq)]
pub struct User {
    pub id: i64,
    pub first_name: Option<String>,
    pub last_name: Option<String>,
    pub email: Option<String>,
    pub phone_number: Option<String>,
    pub street_address: Option<String>,
    pub zip_code: Option<String>,
    pub city: Option<String>,
    pub country: Option<String>,
    pub created_at: String,
    pub updated_at: String,
}

/// A note attached to a contact.
#[derive(Clone, Debug, PartialEq, Eq)]
pub struct ContactNote {
    pub id: i64,
    pub contact_id: i64,
    pub note_type: Option<NoteType>,
    pub content: Option<String>,
    pub created_at: String,
    pub updated_at: String,
}

impl ContactNote {
    /// Decodes a returned row into the typed record; every plain column is
    /// carried over unchanged and the note-type token passes the codec.
    pub fn from_row(
        id: i64,
        contact_id: i64,
        note_type: Option<String>,
        content: Option<String>,
        created_at: String,
        updated_at: String,
    ) -> (r: Result<ContactNote, DecodeError>)
        ensures
            match r {
                Ok(c) => c.id == id && c.contact_id == contact_id && c.content == content
                    && c.created_at == created_at && c.updated_at == updated_at && (match (
                    note_type,
                    c.note_type,
                ) {
                    (None, None) => true,
                    (Some(t), Some(x)) => spec_decode_note(t@) == Some(x),
                    _ => false,
                }),
                Err(e) => note_type matches Some(t) && spec_decode_note(t@) is None,
            },
    {
        let decoded = match note_type {
            None => None,
            Some(t) => match NoteType::decode(t.as_str()) {
                Ok(v) => Some(v),
                Err(e) => {
                    return Err(e);
                },
            },
        };
        Ok(ContactNote { id, contact_id, note_type: decoded, content, created_at, updated_at })
    }
}

/// The link between a job listing and a person, with the person's role
/// toward that listing.
#[derive(Clone, Debug, PartialEq, Eq)]
pub struct JobListingContact {
    pub id: i64,
    pub job_listing_id: i64,
    pub person_id: i64,
    pub role: Option<Role>,
    pub created_at: String,
    pub updated_at: String,
}

impl JobListingContact {
    /// Decodes a returned row into the typed record; every plain column is
    /// carried over unchanged and the role token passes the codec.
    pub fn from_row(
        id: i64,
        job_listing_id: i64,
        person_id: i64,
        role: Option<String>,
        created_at: String,
        updated_at: String,
    ) -> (r: Result<JobListingContact, DecodeError>)
        ensures
            match r {
                Ok(c) => c.id == id && c.job_listing_id == job_listing_id && c.person_id
                    == person_id && c.created_at == created_at && c.updated_at == updated_at
                    && (match (role, c.role) {
                    (None, None) => true,
                    (Some(t), Some(x)) => spec_decode_role(t@) == Some(x),
                    _ => false,
                }),
                Err(e) => role matches Some(t) && spec_decode_role(t@) is None,
            },
    {
        let decoded = match role {
            None => None,
            Some(t) => match Role::decode(t.as_str()) {
                Ok(v) => Some(v),
                Err(e) => {
                    return Err(e);
                },
            },
        };
        Ok(JobListingContact {
            id,
            job_listing_id,
            person_id,
            role: decoded,
            created_at,
            updated_at,
        })
    }
}

} // verus!
