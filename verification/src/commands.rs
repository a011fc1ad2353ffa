//! The typed requests of the command surface, one enumeration per entity.
//!
//! The surface that receives these — deserialization, dispatch, response
//! shaping — is asynchronous I/O and lives outside the library; these types
//! carry the decoded payloads it hands in.  Dates travel as `YYYY-MM-DD`
//! strings; absent optional fields of an update mean "leave unchanged".

use crate::enums::Currency;
use crate::enums::InteractionType;
use crate::enums::NoteType;
use crate::enums::Role;
use crate::enums::SeniorityLevel;
use crate::enums::Stage;
use crate::enums::WorkType;
use vstd::prelude::*;

verus! {

/// A request against the application records.
#[derive(Clone, Debug, PartialEq, Eq)]
pub enum ApplicationCommand {
    Create {
        job_listing_id: Option<i64>,
        stage: Option<Stage>,
        applied_date: String,
        application_notes: Option<String>,
    },
    Update {
        id: i64,
        job_listing_id: Option<i64>,
        stage: Option<Stage>,
        applied_date: Option<String>,
        application_notes: Option<String>,
    },
    GetById { id: i64 },
    ListAll,
    Delete { id: i64 },
}

/// A request against the company records.
#[derive(Clone, Debug, PartialEq, Eq)]
pub enum CompanyCommand {
    Create {
        name: String,
        street_address: Option<String>,
        zip_code: Option<String>,
        city: Option<String>,
        country: Option<String>,
        default_work_type: Option<WorkType>,
        industry: Option<String>,
        website: Option<String>,
        phone_number: Option<String>,
    },
    Update {
        id: i64,
        name: Option<String>,
        street_address: Option<String>,
        zip_code: Option<String>,
        city: Option<String>,
        country: Option<String>,
        default_work_type: Option<WorkType>,
        industry: Option<String>,
        website: Option<String>,
        phone_number: Option<String>,
    },
    GetById { id: i64 },
    ListAll,
    Delete { id: i64 },
}

/// A request against the interaction records.
#[derive(Clone, Debug, PartialEq, Eq)]
pub enum InteractionCommand {
    Create {
        interaction_type: InteractionType,
        interaction_date: String,
        subject: Option<String>,
        summary: Option<String>,
        medium: Option<String>,
        application_id: Option<i64>,
        person_id: Option<i64>,
        company_id: Option<i64>,
    },
    Update {
        id: i64,
        interaction_type: Option<InteractionType>,
        interaction_date: Option<String>,
        subject: Option<String>,
        summary: Option<String>,
        medium: Option<String>,
        application_id: Option<i64>,
        person_id: Option<i64>,
        company_id: Option<i64>,
    },
    GetById { id: i64 },
    ListAll,
    Delete { id: i64 },
}

/// A request against the job-listing records.
#[derive(Clone, Debug, PartialEq, Eq)]
pub enum JobListingCommand {
    Create {
        company_id: i64,
        title: String,
        work_type: Option<WorkType>,
        category: Option<String>,
        seniority_level: Option<SeniorityLevel>,
        salary_min: Option<i64>,
        salary_max: Option<i64>,
        currency: Option<Currency>,
        description: Option<String>,
        url: Option<String>,
    },
    Update {
        id: i64,
        company_id: Option<i64>,
        title: Option<String>,
        work_type: Option<WorkType>,
        category: Option<String>,
        seniority_level: Option<SeniorityLevel>,
        salary_min: Option<i64>,
        salary_max: Option<i64>,
        currency: Option<Currency>,
        description: Option<String>,
        url: Option<String>,
    },
    GetById { id: i64 },
    ListAll,
    Delete { id: i64 },
}

/// A request against the note records.
#[derive(Clone, Debug, PartialEq, Eq)]
pub enum NoteCommand {
    Create {
        interaction_id: Option<i64>,
        job_listing_id: Option<i64>,
        application_id: Option<i64>,
        person_id: Option<i64>,
        company_id: Option<i64>,
        note_type: Option<NoteType>,
        title: Option<String>,
        content: Option<String>,
    },
    Update {
        id: i64,
        interaction_id: Option<i64>,
        job_listing_id: Option<i64>,
        application_id: Option<i64>,
        person_id: Option<i64>,
        company_id: Option<i64>,
        note_type: Option<NoteType>,
        title: Option<String>,
        content: Option<String>,
    },
    GetById { id: i64 },
    ListAll,
    Delete { id: i64 },
}

/// A request against the person records.
#[derive(Clone, Debug, PartialEq, Eq)]
pub enum PersonCommand {
    Create {
        first_name: String,
        last_name: String,
        email: Option<String>,
        phone_number: Option<String>,
        role: Option<Role>,
        linkedin_url: Option<String>,
        company_id: Option<i64>,
    },
    Update {
        id: i64,
        first_name: Option<String>,
        last_name: Option<String>,
        email: Option<String>,
        phone_number: Option<String>,
        role: Option<Role>,
        linkedin_url: Option<String>,
        company_id: Option<i64>,
    },
    GetById { id: i64 },
    ListAll,
    Delete { id: i64 },
}

/// A request against the reminder records.
#[derive(Clone, Debug, PartialEq, Eq)]
pub enum ReminderCommand {
    Create {
        application_id: Option<i64>,
        interaction_id: Option<i64>,
        note_id: Option<i64>,
        job_listing_id: Option<i64>,
        company_id: Option<i64>,
        person_id: Option<i64>,
        reminder_date: String,
        title: String,
        message: Option<String>,
        is_completed: bool,
    },
    Update {
        id: i64,
        application_id: Option<i64>,
        interaction_id: Option<i64>,
        note_id: Option<i64>,
        job_listing_id: Option<i64>,
        company_id: Option<i64>,
        person_id: Option<i64>,
        reminder_date: Option<String>,
        title: Option<String>,
        message: Option<String>,
        is_completed: Option<bool>,
    },
    GetById { id: i64 },
    ListAll,
    Delete { id: i64 },
}

} // verus!
