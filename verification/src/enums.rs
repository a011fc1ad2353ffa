//! The codec between each closed enumeration and the fixed token stored in
//! its TEXT column (or, for the completion flag, its INTEGER column).
//!
//! `as_str` is the encode side and is total; `decode` fails on any string
//! outside the enumeration's token set and never coerces to a default.

use crate::text::str_eq;
use vstd::prelude::*;
use vstd::string::*;

verus! {

/// A stored value did not match any known token of its enumeration.
#[derive(Clone, Debug, PartialEq, Eq)]
pub enum DecodeError {
    UnknownToken(String),
}

impl DecodeError {
    /// The offending token, for rendering outside the library.
    pub fn token(&self) -> (r: &str)
        ensures
            self matches DecodeError::UnknownToken(t) && r@ == t@,
    {
        match self {
            DecodeError::UnknownToken(t) => t.as_str(),
        }
    }
}

#[derive(Clone, Copy, Debug, PartialEq, Eq, Structural)]
pub enum WorkType {
    FullTime,
    PartTime,
    Internship,
    Contract,
    Freelance,
    Remote,
    InOffice,
    Hybrid,
    Other,
}

/// The stored token of a work type.
pub open spec fn spec_work_type_token(v: WorkType) -> Seq<char> {
    match v {
        WorkType::FullTime => "full_time"@,
        WorkType::PartTime => "part_time"@,
        WorkType::Internship => "internship"@,
        WorkType::Contract => "contract"@,
        WorkType::Freelance => "freelance"@,
        WorkType::Remote => "remote"@,
        WorkType::InOffice => "in_office"@,
        WorkType::Hybrid => "hybrid"@,
        WorkType::Other => "other"@,
    }
}

/// The work type a stored string stands for, if any.
pub open spec fn spec_decode_work_type(s: Seq<char>) -> Option<WorkType> {
    if s == "full_time"@ {
        Some(WorkType::FullTime)
    } else if s == "part_time"@ {
        Some(WorkType::PartTime)
    } else if s == "internship"@ {
        Some(WorkType::Internship)
    } else if s == "contract"@ {
        Some(WorkType::Contract)
    } else if s == "freelance"@ {
        Some(WorkType::Freelance)
    } else if s == "remote"@ {
        Some(WorkType::Remote)
    } else if s == "in_office"@ {
        Some(WorkType::InOffice)
    } else if s == "hybrid"@ {
        Some(WorkType::Hybrid)
    } else if s == "other"@ {
        Some(WorkType::Other)
    } else {
        None
    }
}

impl WorkType {
    pub fn as_str(&self) -> (r: &'static str)
        ensures
            r@ == spec_work_type_token(*self),
    {
        match self {
            WorkType::FullTime => "full_time",
            WorkType::PartTime => "part_time",
            WorkType::Internship => "internship",
            WorkType::Contract => "contract",
            WorkType::Freelance => "freelance",
            WorkType::Remote => "remote",
            WorkType::InOffice => "in_office",
            WorkType::Hybrid => "hybrid",
            WorkType::Other => "other",
        }
    }

    pub fn decode(s: &str) -> (r: Result<WorkType, DecodeError>)
        ensures
            match r {
                Ok(v) => spec_decode_work_type(s@) == Some(v),
                Err(DecodeError::UnknownToken(t)) => spec_decode_work_type(s@) is None && t@
                    == s@,
            },
    {
        if str_eq(s, "full_time") {
            Ok(WorkType::FullTime)
        } else if str_eq(s, "part_time") {
            Ok(WorkType::PartTime)
        } else if str_eq(s, "internship") {
            Ok(WorkType::Internship)
        } else if str_eq(s, "contract") {
            Ok(WorkType::Contract)
        } else if str_eq(s, "freelance") {
            Ok(WorkType::Freelance)
        } else if str_eq(s, "remote") {
            Ok(WorkType::Remote)
        } else if str_eq(s, "in_office") {
            Ok(WorkType::InOffice)
        } else if str_eq(s, "hybrid") {
            Ok(WorkType::Hybrid)
        } else if str_eq(s, "other") {
            Ok(WorkType::Other)
        } else {
            Err(DecodeError::UnknownToken(s.to_owned()))
        }
    }
}

/// Decoding the token of any work type gives that work type back.
pub proof fn lemma_work_type_round_trip(v: WorkType)
    ensures
        spec_decode_work_type(spec_work_type_token(v)) == Some(v),
{
    reveal_strlit("full_time");
    reveal_strlit("part_time");
    reveal_strlit("internship");
    reveal_strlit("contract");
    reveal_strlit("freelance");
    reveal_strlit("remote");
    reveal_strlit("in_office");
    reveal_strlit("hybrid");
    reveal_strlit("other");
    assert("full_time"@[0] == 'f' && "full_time"@[1] == 'u');
    assert("part_time"@[0] == 'p');
    assert("internship"@[0] == 'i' && "internship"@[2] == 't');
    assert("contract"@[0] == 'c');
    assert("freelance"@[0] == 'f' && "freelance"@[1] == 'r');
    assert("remote"@[0] == 'r');
    assert("in_office"@[0] == 'i' && "in_office"@[2] == '_');
    assert("hybrid"@[0] == 'h');
    assert("other"@[0] == 'o');
}

#[derive(Clone, Copy, Debug, PartialEq, Eq, Structural)]
pub enum SeniorityLevel {
    Junior,
    Mid,
    Senior,
    Lead,
    Manager,
    Other,
}

/// The stored token of a seniority level.
pub open spec fn spec_seniority_token(v: SeniorityLevel) -> Seq<char> {
    match v {
        SeniorityLevel::Junior => "junior"@,
        SeniorityLevel::Mid => "mid"@,
        SeniorityLevel::Senior => "senior"@,
        SeniorityLevel::Lead => "lead"@,
        SeniorityLevel::Manager => "manager"@,
        SeniorityLevel::Other => "other"@,
    }
}

/// The seniority level a stored string stands for, if any.
pub open spec fn spec_decode_seniority(s: Seq<char>) -> Option<SeniorityLevel> {
    if s == "junior"@ {
        Some(SeniorityLevel::Junior)
    } else if s == "mid"@ {
        Some(SeniorityLevel::Mid)
    } else if s == "senior"@ {
        Some(SeniorityLevel::Senior)
    } else if s == "lead"@ {
        Some(SeniorityLevel::Lead)
    } else if s == "manager"@ {
        Some(SeniorityLevel::Manager)
    } else if s == "other"@ {
        Some(SeniorityLevel::Other)
    } else {
        None
    }
}

impl SeniorityLevel {
    pub fn as_str(&self) -> (r: &'static str)
        ensures
            r@ == spec_seniority_token(*self),
    {
        match self {
            SeniorityLevel::Junior => "junior",
            SeniorityLevel::Mid => "mid",
            SeniorityLevel::Senior => "senior",
            SeniorityLevel::Lead => "lead",
            SeniorityLevel::Manager => "manager",
            SeniorityLevel::Other => "other",
        }
    }

    pub fn decode(s: &str) -> (r: Result<SeniorityLevel, DecodeError>)
        ensures
            match r {
                Ok(v) => spec_decode_seniority(s@) == Some(v),
                Err(DecodeError::UnknownToken(t)) => spec_decode_seniority(s@) is None && t@
                    == s@,
            },
    {
        if str_eq(s, "junior") {
            Ok(SeniorityLevel::Junior)
        } else if str_eq(s, "mid") {
            Ok(SeniorityLevel::Mid)
        } else if str_eq(s, "senior") {
            Ok(SeniorityLevel::Senior)
        } else if str_eq(s, "lead") {
            Ok(SeniorityLevel::Lead)
        } else if str_eq(s, "manager") {
            Ok(SeniorityLevel::Manager)
        } else if str_eq(s, "other") {
            Ok(SeniorityLevel::Other)
        } else {
            Err(DecodeError::UnknownToken(s.to_owned()))
        }
    }
}

/// Decoding the token of any seniority level gives that level back.
pub proof fn lemma_seniority_round_trip(v: SeniorityLevel)
    ensures
        spec_decode_seniority(spec_seniority_token(v)) == Some(v),
{
    reveal_strlit("junior");
    reveal_strlit("mid");
    reveal_strlit("senior");
    reveal_strlit("lead");
    reveal_strlit("manager");
    reveal_strlit("other");
    assert("junior"@[0] == 'j');
    assert("mid"@[0] == 'm' && "mid"@[1] == 'i');
    assert("senior"@[0] == 's');
    assert("lead"@[0] == 'l');
    assert("manager"@[0] == 'm' && "manager"@[1] == 'a');
    assert("other"@[0] == 'o');
}

#[derive(Clone, Copy, Debug, PartialEq, Eq, Structural)]
pub enum Currency {
    USD,
    EUR,
    GBP,
    DKK,
    Other,
}

/// The stored token of a currency.
pub open spec fn spec_currency_token(v: Currency) -> Seq<char> {
    match v {
        Currency::USD => "USD"@,
        Currency::EUR => "EUR"@,
        Currency::GBP => "GBP"@,
        Currency::DKK => "DKK"@,
        Currency::Other => "other"@,
    }
}

/// The currency a stored string stands for, if any.
pub open spec fn spec_decode_currency(s: Seq<char>) -> Option<Currency> {
    if s == "USD"@ {
        Some(Currency::USD)
    } else if s == "EUR"@ {
        Some(Currency::EUR)
    } else if s == "GBP"@ {
        Some(Currency::GBP)
    } else if s == "DKK"@ {
        Some(Currency::DKK)
    } else if s == "other"@ {
        Some(Currency::Other)
    } else {
        None
    }
}

impl Currency {
    pub fn as_str(&self) -> (r: &'static str)
        ensures
            r@ == spec_currency_token(*self),
    {
        match self {
            Currency::USD => "USD",
            Currency::EUR => "EUR",
            Currency::GBP => "GBP",
            Currency::DKK => "DKK",
            Currency::Other => "other",
        }
    }

    pub fn decode(s: &str) -> (r: Result<Currency, DecodeError>)
        ensures
            match r {
                Ok(v) => spec_decode_currency(s@) == Some(v),
                Err(DecodeError::UnknownToken(t)) => spec_decode_currency(s@) is None && t@
                    == s@,
            },
    {
        if str_eq(s, "USD") {
            Ok(Currency::USD)
        } else if str_eq(s, "EUR") {
            Ok(Currency::EUR)
        } else if str_eq(s, "GBP") {
            Ok(Currency::GBP)
        } else if str_eq(s, "DKK") {
            Ok(Currency::DKK)
        } else if str_eq(s, "other") {
            Ok(Currency::Other)
        } else {
            Err(DecodeError::UnknownToken(s.to_owned()))
        }
    }
}

/// Decoding the token of any currency gives that currency back.
pub proof fn lemma_currency_round_trip(v: Currency)
    ensures
        spec_decode_currency(spec_currency_token(v)) == Some(v),
{
    reveal_strlit("USD");
    reveal_strlit("EUR");
    reveal_strlit("GBP");
    reveal_strlit("DKK");
    reveal_strlit("other");
    assert("USD"@[0] == 'U');
    assert("EUR"@[0] == 'E');
    assert("GBP"@[0] == 'G');
    assert("DKK"@[0] == 'D');
    assert("other"@[0] == 'o');
}

#[derive(Clone, Copy, Debug, PartialEq, Eq, Structural)]
pub enum Role {
    Recruiter,
    HiringManager,
    TeamLead,
    HR,
    Manager,
    Founder,
    Developer,
    Other,
}

/// The stored token of a person's role.
pub open spec fn spec_role_token(v: Role) -> Seq<char> {
    match v {
        Role::Recruiter => "recruiter"@,
        Role::HiringManager => "hiring_manager"@,
        Role::TeamLead => "team_lead"@,
        Role::HR => "hr"@,
        Role::Manager => "manager"@,
        Role::Founder => "founder"@,
        Role::Developer => "developer"@,
        Role::Other => "other"@,
    }
}

/// The role a stored string stands for, if any.
pub open spec fn spec_decode_role(s: Seq<char>) -> Option<Role> {
    if s == "recruiter"@ {
        Some(Role::Recruiter)
    } else if s == "hiring_manager"@ {
        Some(Role::HiringManager)
    } else if s == "team_lead"@ {
        Some(Role::TeamLead)
    } else if s == "hr"@ {
        Some(Role::HR)
    } else if s == "manager"@ {
        Some(Role::Manager)
    } else if s == "founder"@ {
        Some(Role::Founder)
    } else if s == "developer"@ {
        Some(Role::Developer)
    } else if s == "other"@ {
        Some(Role::Other)
    } else {
        None
    }
}

impl Role {
    pub fn as_str(&self) -> (r: &'static str)
        ensures
            r@ == spec_role_token(*self),
    {
        match self {
            Role::Recruiter => "recruiter",
            Role::HiringManager => "hiring_manager",
            Role::TeamLead => "team_lead",
            Role::HR => "hr",
            Role::Manager => "manager",
            Role::Founder => "founder",
            Role::Developer => "developer",
            Role::Other => "other",
        }
    }

    pub fn decode(s: &str) -> (r: Result<Role, DecodeError>)
        ensures
            match r {
                Ok(v) => spec_decode_role(s@) == Some(v),
                Err(DecodeError::UnknownToken(t)) => spec_decode_role(s@) is None && t@ == s@,
            },
    {
        if str_eq(s, "recruiter") {
            Ok(Role::Recruiter)
        } else if str_eq(s, "hiring_manager") {
            Ok(Role::HiringManager)
        } else if str_eq(s, "team_lead") {
            Ok(Role::TeamLead)
        } else if str_eq(s, "hr") {
            Ok(Role::HR)
        } else if str_eq(s, "manager") {
            Ok(Role::Manager)
        } else if str_eq(s, "founder") {
            Ok(Role::Founder)
        } else if str_eq(s, "developer") {
            Ok(Role::Developer)
        } else if str_eq(s, "other") {
            Ok(Role::Other)
        } else {
            Err(DecodeError::UnknownToken(s.to_owned()))
        }
    }
}

/// Decoding the token of any role gives that role back.
pub proof fn lemma_role_round_trip(v: Role)
    ensures
        spec_decode_role(spec_role_token(v)) == Some(v),
{
    reveal_strlit("recruiter");
    reveal_strlit("hiring_manager");
    reveal_strlit("team_lead");
    reveal_strlit("hr");
    reveal_strlit("manager");
    reveal_strlit("founder");
    reveal_strlit("developer");
    reveal_strlit("other");
    assert("recruiter"@[0] == 'r');
    assert("hiring_manager"@[0] == 'h' && "hiring_manager"@[1] == 'i');
    assert("team_lead"@[0] == 't');
    assert("hr"@[0] == 'h' && "hr"@[1] == 'r');
    assert("manager"@[0] == 'm');
    assert("founder"@[0] == 'f');
    assert("developer"@[0] == 'd');
    assert("other"@[0] == 'o');
}

#[derive(Clone, Copy, Debug, PartialEq, Eq, Structural)]
pub enum Stage {
    Applied,
    Screening,
    Assessment,
    Interviewing,
    Offered,
    Negotiation,
    Accepted,
    Rejected,
    Withdrawn,
    OnHold,
    Other,
}

/// The stored token of an application stage.
pub open spec fn spec_stage_token(v: Stage) -> Seq<char> {
    match v {
        Stage::Applied => "applied"@,
        Stage::Screening => "screening"@,
        Stage::Assessment => "assessment"@,
        Stage::Interviewing => "interviewing"@,
        Stage::Offered => "offered"@,
        Stage::Negotiation => "negotiation"@,
        Stage::Accepted => "accepted"@,
        Stage::Rejected => "rejected"@,
        Stage::Withdrawn => "withdrawn"@,
        Stage::OnHold => "on_hold"@,
        Stage::Other => "other"@,
    }
}

/// The stage a stored string stands for, if any.
pub open spec fn spec_decode_stage(s: Seq<char>) -> Option<Stage> {
    if s == "applied"@ {
        Some(Stage::Applied)
    } else if s == "screening"@ {
        Some(Stage::Screening)
    } else if s == "assessment"@ {
        Some(Stage::Assessment)
    } else if s == "interviewing"@ {
        Some(Stage::Interviewing)
    } else if s == "offered"@ {
        Some(Stage::Offered)
    } else if s == "negotiation"@ {
        Some(Stage::Negotiation)
    } else if s == "accepted"@ {
        Some(Stage::Accepted)
    } else if s == "rejected"@ {
        Some(Stage::Rejected)
    } else if s == "withdrawn"@ {
        Some(Stage::Withdrawn)
    } else if s == "on_hold"@ {
        Some(Stage::OnHold)
    } else if s == "other"@ {
        Some(Stage::Other)
    } else {
        None
    }
}

impl Stage {
    pub fn as_str(&self) -> (r: &'static str)
        ensures
            r@ == spec_stage_token(*self),
    {
        match self {
            Stage::Applied => "applied",
            Stage::Screening => "screening",
            Stage::Assessment => "assessment",
            Stage::Interviewing => "interviewing",
            Stage::Offered => "offered",
            Stage::Negotiation => "negotiation",
            Stage::Accepted => "accepted",
            Stage::Rejected => "rejected",
            Stage::Withdrawn => "withdrawn",
            Stage::OnHold => "on_hold",
            Stage::Other => "other",
        }
    }

    pub fn decode(s: &str) -> (r: Result<Stage, DecodeError>)
        ensures
            match r {
                Ok(v) => spec_decode_stage(s@) == Some(v),
                Err(DecodeError::UnknownToken(t)) => spec_decode_stage(s@) is None && t@ == s@,
            },
    {
        if str_eq(s, "applied") {
            Ok(Stage::Applied)
        } else if str_eq(s, "screening") {
            Ok(Stage::Screening)
        } else if str_eq(s, "assessment") {
            Ok(Stage::Assessment)
        } else if str_eq(s, "interviewing") {
            Ok(Stage::Interviewing)
        } else if str_eq(s, "offered") {
            Ok(Stage::Offered)
        } else if str_eq(s, "negotiation") {
            Ok(Stage::Negotiation)
        } else if str_eq(s, "accepted") {
            Ok(Stage::Accepted)
        } else if str_eq(s, "rejected") {
            Ok(Stage::Rejected)
        } else if str_eq(s, "withdrawn") {
            Ok(Stage::Withdrawn)
        } else if str_eq(s, "on_hold") {
            Ok(Stage::OnHold)
        } else if str_eq(s, "other") {
            Ok(Stage::Other)
        } else {
            Err(DecodeError::UnknownToken(s.to_owned()))
        }
    }
}

/// Decoding the token of any stage gives that stage back.
pub proof fn lemma_stage_round_trip(v: Stage)
    ensures
        spec_decode_stage(spec_stage_token(v)) == Some(v),
{
    reveal_strlit("applied");
    reveal_strlit("screening");
    reveal_strlit("assessment");
    reveal_strlit("interviewing");
    reveal_strlit("offered");
    reveal_strlit("negotiation");
    reveal_strlit("accepted");
    reveal_strlit("rejected");
    reveal_strlit("withdrawn");
    reveal_strlit("on_hold");
    reveal_strlit("other");
    assert("applied"@[0] == 'a' && "applied"@[1] == 'p');
    assert("screening"@[0] == 's');
    assert("assessment"@[0] == 'a' && "assessment"@[1] == 's');
    assert("interviewing"@[0] == 'i');
    assert("offered"@[0] == 'o' && "offered"@[1] == 'f');
    assert("negotiation"@[0] == 'n' && "negotiation"@[1] == 'e');
    assert("accepted"@[0] == 'a' && "accepted"@[1] == 'c');
    assert("rejected"@[0] == 'r');
    assert("withdrawn"@[0] == 'w');
    assert("on_hold"@[0] == 'o' && "on_hold"@[1] == 'n');
    assert("other"@[0] == 'o' && "other"@[1] == 't');
}

#[derive(Clone, Copy, Debug, PartialEq, Eq, Structural)]
pub enum InteractionType {
    Email,
    Phone,
    Interview,
    Meeting,
    FollowUp,
    OfferDiscussion,
    Other,
}

/// The stored token of an interaction type.
pub open spec fn spec_interaction_token(v: InteractionType) -> Seq<char> {
    match v {
        InteractionType::Email => "email"@,
        InteractionType::Phone => "phone"@,
        InteractionType::Interview => "interview"@,
        InteractionType::Meeting => "meeting"@,
        InteractionType::FollowUp => "follow_up"@,
        InteractionType::OfferDiscussion => "offer_discussion"@,
        InteractionType::Other => "other"@,
    }
}

/// The interaction type a stored string stands for, if any.
pub open spec fn spec_decode_interaction(s: Seq<char>) -> Option<InteractionType> {
    if s == "email"@ {
        Some(InteractionType::Email)
    } else if s == "phone"@ {
        Some(InteractionType::Phone)
    } else if s == "interview"@ {
        Some(InteractionType::Interview)
    } else if s == "meeting"@ {
        Some(InteractionType::Meeting)
    } else if s == "follow_up"@ {
        Some(InteractionType::FollowUp)
    } else if s == "offer_discussion"@ {
        Some(InteractionType::OfferDiscussion)
    } else if s == "other"@ {
        Some(InteractionType::Other)
    } else {
        None
    }
}

impl InteractionType {
    pub fn as_str(&self) -> (r: &'static str)
        ensures
            r@ == spec_interaction_token(*self),
    {
        match self {
            InteractionType::Email => "email",
            InteractionType::Phone => "phone",
            InteractionType::Interview => "interview",
            InteractionType::Meeting => "meeting",
            InteractionType::FollowUp => "follow_up",
            InteractionType::OfferDiscussion => "offer_discussion",
            InteractionType::Other => "other",
        }
    }

    pub fn decode(s: &str) -> (r: Result<InteractionType, DecodeError>)
        ensures
            match r {
                Ok(v) => spec_decode_interaction(s@) == Some(v),
                Err(DecodeError::UnknownToken(t)) => spec_decode_interaction(s@) is None && t@
                    == s@,
            },
    {
        if str_eq(s, "email") {
            Ok(InteractionType::Email)
        } else if str_eq(s, "phone") {
            Ok(InteractionType::Phone)
        } else if str_eq(s, "interview") {
            Ok(InteractionType::Interview)
        } else if str_eq(s, "meeting") {
            Ok(InteractionType::Meeting)
        } else if str_eq(s, "follow_up") {
            Ok(InteractionType::FollowUp)
        } else if str_eq(s, "offer_discussion") {
            Ok(InteractionType::OfferDiscussion)
        } else if str_eq(s, "other") {
            Ok(InteractionType::Other)
        } else {
            Err(DecodeError::UnknownToken(s.to_owned()))
        }
    }
}

/// Decoding the token of any interaction type gives that type back.
pub proof fn lemma_interaction_round_trip(v: InteractionType)
    ensures
        spec_decode_interaction(spec_interaction_token(v)) == Some(v),
{
    reveal_strlit("email");
    reveal_strlit("phone");
    reveal_strlit("interview");
    reveal_strlit("meeting");
    reveal_strlit("follow_up");
    reveal_strlit("offer_discussion");
    reveal_strlit("other");
    assert("email"@[0] == 'e');
    assert("phone"@[0] == 'p');
    assert("interview"@[0] == 'i');
    assert("meeting"@[0] == 'm');
    assert("follow_up"@[0] == 'f');
    assert("offer_discussion"@[0] == 'o' && "offer_discussion"@[1] == 'f');
    assert("other"@[0] == 'o' && "other"@[1] == 't');
}

#[derive(Clone, Copy, Debug, PartialEq, Eq, Structural)]
pub enum ContactType {
    Email,
    Phone,
    Interview,
    Meeting,
    FollowUp,
    OfferDiscussion,
    Other,
}

/// The stored token of a contact type.
pub open spec fn spec_contact_token(v: ContactType) -> Seq<char> {
    match v {
        ContactType::Email => "email"@,
        ContactType::Phone => "phone"@,
        ContactType::Interview => "interview"@,
        ContactType::Meeting => "meeting"@,
        ContactType::FollowUp => "follow_up"@,
        ContactType::OfferDiscussion => "offer_discussion"@,
        ContactType::Other => "other"@,
    }
}

/// The contact type a stored string stands for, if any.
pub open spec fn spec_decode_contact(s: Seq<char>) -> Option<ContactType> {
    if s == "email"@ {
        Some(ContactType::Email)
    } else if s == "phone"@ {
        Some(ContactType::Phone)
    } else if s == "interview"@ {
        Some(ContactType::Interview)
    } else if s == "meeting"@ {
        Some(ContactType::Meeting)
    } else if s == "follow_up"@ {
        Some(ContactType::FollowUp)
    } else if s == "offer_discussion"@ {
        Some(ContactType::OfferDiscussion)
    } else if s == "other"@ {
        Some(ContactType::Other)
    } else {
        None
    }
}

impl ContactType {
    pub fn as_str(&self) -> (r: &'static str)
        ensures
            r@ == spec_contact_token(*self),
    {
        match self {
            ContactType::Email => "email",
            ContactType::Phone => "phone",
            ContactType::Interview => "interview",
            ContactType::Meeting => "meeting",
            ContactType::FollowUp => "follow_up",
            ContactType::OfferDiscussion => "offer_discussion",
            ContactType::Other => "other",
        }
    }

    pub fn decode(s: &str) -> (r: Result<ContactType, DecodeError>)
        ensures
            match r {
                Ok(v) => spec_decode_contact(s@) == Some(v),
                Err(DecodeError::UnknownToken(t)) => spec_decode_contact(s@) is None && t@
                    == s@,
            },
    {
        if str_eq(s, "email") {
            Ok(ContactType::Email)
        } else if str_eq(s, "phone") {
            Ok(ContactType::Phone)
        } else if str_eq(s, "interview") {
            Ok(ContactType::Interview)
        } else if str_eq(s, "meeting") {
            Ok(ContactType::Meeting)
        } else if str_eq(s, "follow_up") {
            Ok(ContactType::FollowUp)
        } else if str_eq(s, "offer_discussion") {
            Ok(ContactType::OfferDiscussion)
        } else if str_eq(s, "other") {
            Ok(ContactType::Other)
        } else {
            Err(DecodeError::UnknownToken(s.to_owned()))
        }
    }
}

/// Decoding the token of any contact type gives that type back.
pub proof fn lemma_contact_round_trip(v: ContactType)
    ensures
        spec_decode_contact(spec_contact_token(v)) == Some(v),
{
    reveal_strlit("email");
    reveal_strlit("phone");
    reveal_strlit("interview");
    reveal_strlit("meeting");
    reveal_strlit("follow_up");
    reveal_strlit("offer_discussion");
    reveal_strlit("other");
    assert("email"@[0] == 'e');
    assert("phone"@[0] == 'p');
    assert("interview"@[0] == 'i');
    assert("meeting"@[0] == 'm');
    assert("follow_up"@[0] == 'f');
    assert("offer_discussion"@[0] == 'o' && "offer_discussion"@[1] == 'f');
    assert("other"@[0] == 'o' && "other"@[1] == 't');
}

#[derive(Clone, Copy, Debug, PartialEq, Eq, Structural)]
pub enum NoteType {
    General,
    Feedback,
    Reminder,
    Summary,
    Other,
}

/// The stored token of a note type.
pub open spec fn spec_note_token(v: NoteType) -> Seq<char> {
    match v {
        NoteType::General => "general"@,
        NoteType::Feedback => "feedback"@,
        NoteType::Reminder => "reminder"@,
        NoteType::Summary => "summary"@,
        NoteType::Other => "other"@,
    }
}

/// The note type a stored string stands for, if any.
pub open spec fn spec_decode_note(s: Seq<char>) -> Option<NoteType> {
    if s == "general"@ {
        Some(NoteType::General)
    } else if s == "feedback"@ {
        Some(NoteType::Feedback)
    } else if s == "reminder"@ {
        Some(NoteType::Reminder)
    } else if s == "summary"@ {
        Some(NoteType::Summary)
    } else if s == "other"@ {
        Some(NoteType::Other)
    } else {
        None
    }
}

impl NoteType {
    pub fn as_str(&self) -> (r: &'static str)
        ensures
            r@ == spec_note_token(*self),
    {
        match self {
            NoteType::General => "general",
            NoteType::Feedback => "feedback",
            NoteType::Reminder => "reminder",
            NoteType::Summary => "summary",
            NoteType::Other => "other",
        }
    }

    pub fn decode(s: &str) -> (r: Result<NoteType, DecodeError>)
        ensures
            match r {
                Ok(v) => spec_decode_note(s@) == Some(v),
                Err(DecodeError::UnknownToken(t)) => spec_decode_note(s@) is None && t@ == s@,
            },
    {
        if str_eq(s, "general") {
            Ok(NoteType::General)
        } else if str_eq(s, "feedback") {
            Ok(NoteType::Feedback)
        } else if str_eq(s, "reminder") {
            Ok(NoteType::Reminder)
        } else if str_eq(s, "summary") {
            Ok(NoteType::Summary)
        } else if str_eq(s, "other") {
            Ok(NoteType::Other)
        } else {
            Err(DecodeError::UnknownToken(s.to_owned()))
        }
    }
}

/// Decoding the token of any note type gives that type back.
pub proof fn lemma_note_round_trip(v: NoteType)
    ensures
        spec_decode_note(spec_note_token(v)) == Some(v),
{
    reveal_strlit("general");
    reveal_strlit("feedback");
    reveal_strlit("reminder");
    reveal_strlit("summary");
    reveal_strlit("other");
    assert("general"@[0] == 'g');
    assert("feedback"@[0] == 'f');
    assert("reminder"@[0] == 'r');
    assert("summary"@[0] == 's');
    assert("other"@[0] == 'o');
}

#[derive(Clone, Copy, Debug, PartialEq, Eq, Structural)]
pub enum ReminderStatus {
    Pending,
    Completed,
}

/// The stored integer of a completion flag.
pub open spec fn spec_reminder_status_int(v: ReminderStatus) -> int {
    match v {
        ReminderStatus::Pending => 0,
        ReminderStatus::Completed => 1,
    }
}

/// The completion flag a stored integer stands for, if any.
pub open spec fn spec_decode_reminder_status(n: int) -> Option<ReminderStatus> {
    if n == 0 {
        Some(ReminderStatus::Pending)
    } else if n == 1 {
        Some(ReminderStatus::Completed)
    } else {
        None
    }
}

impl ReminderStatus {
    pub fn as_int(&self) -> (r: i32)
        ensures
            r == spec_reminder_status_int(*self),
    {
        match self {
            ReminderStatus::Pending => 0,
            ReminderStatus::Completed => 1,
        }
    }

    /// Reads a stored completion flag; anything but 0 or 1 is rejected.
    pub fn decode(n: i32) -> (r: Result<ReminderStatus, DecodeError>)
        ensures
            match r {
                Ok(v) => spec_decode_reminder_status(n as int) == Some(v),
                Err(DecodeError::UnknownToken(t)) => spec_decode_reminder_status(n as int)
                    is None && t@ == crate::text::spec_i64_str(n as int),
            },
    {
        if n == 0 {
            Ok(ReminderStatus::Pending)
        } else if n == 1 {
            Ok(ReminderStatus::Completed)
        } else {
            Err(DecodeError::UnknownToken(crate::text::i64_to_string(n as i64)))
        }
    }
}

/// Decoding the stored integer of any completion flag gives that flag back.
pub proof fn lemma_reminder_status_round_trip(v: ReminderStatus)
    ensures
        spec_decode_reminder_status(spec_reminder_status_int(v)) == Some(v),
{
}

} // verus!
