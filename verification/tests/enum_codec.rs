//! The codec round-trips every variant of every enumeration, and rejects
//! every string outside the fixed token sets.

use jobtrackr::enums::ContactType;
use jobtrackr::enums::Currency;
use jobtrackr::enums::DecodeError;
use jobtrackr::enums::InteractionType;
use jobtrackr::enums::NoteType;
use jobtrackr::enums::ReminderStatus;
use jobtrackr::enums::Role;
use jobtrackr::enums::SeniorityLevel;
use jobtrackr::enums::Stage;
use jobtrackr::enums::WorkType;

#[test]
fn work_type_round_trip() {
    let all = [
        (WorkType::FullTime, "full_time"),
        (WorkType::PartTime, "part_time"),
        (WorkType::Internship, "internship"),
        (WorkType::Contract, "contract"),
        (WorkType::Freelance, "freelance"),
        (WorkType::Remote, "remote"),
        (WorkType::InOffice, "in_office"),
        (WorkType::Hybrid, "hybrid"),
        (WorkType::Other, "other"),
    ];
    for (v, token) in all {
        assert_eq!(v.as_str(), token);
        assert_eq!(WorkType::decode(token), Ok(v));
    }
}

#[test]
fn seniority_round_trip() {
    let all = [
        (SeniorityLevel::Junior, "junior"),
        (SeniorityLevel::Mid, "mid"),
        (SeniorityLevel::Senior, "senior"),
        (SeniorityLevel::Lead, "lead"),
        (SeniorityLevel::Manager, "manager"),
        (SeniorityLevel::Other, "other"),
    ];
    for (v, token) in all {
        assert_eq!(v.as_str(), token);
        assert_eq!(SeniorityLevel::decode(token), Ok(v));
    }
}

#[test]
fn currency_round_trip() {
    let all = [
        (Currency::USD, "USD"),
        (Currency::EUR, "EUR"),
        (Currency::GBP, "GBP"),
        (Currency::DKK, "DKK"),
        (Currency::Other, "other"),
    ];
    for (v, token) in all {
        assert_eq!(v.as_str(), token);
        assert_eq!(Currency::decode(token), Ok(v));
    }
}

#[test]
fn role_round_trip() {
    let all = [
        (Role::Recruiter, "recruiter"),
        (Role::HiringManager, "hiring_manager"),
        (Role::TeamLead, "team_lead"),
        (Role::HR, "hr"),
        (Role::Manager, "manager"),
        (Role::Founder, "founder"),
        (Role::Developer, "developer"),
        (Role::Other, "other"),
    ];
    for (v, token) in all {
        assert_eq!(v.as_str(), token);
        assert_eq!(Role::decode(token), Ok(v));
    }
}

#[test]
fn stage_round_trip() {
    let all = [
        (Stage::Applied, "applied"),
        (Stage::Screening, "screening"),
        (Stage::Assessment, "assessment"),
        (Stage::Interviewing, "interviewing"),
        (Stage::Offered, "offered"),
        (Stage::Negotiation, "negotiation"),
        (Stage::Accepted, "accepted"),
        (Stage::Rejected, "rejected"),
        (Stage::Withdrawn, "withdrawn"),
        (Stage::OnHold, "on_hold"),
        (Stage::Other, "other"),
    ];
    for (v, token) in all {
        assert_eq!(v.as_str(), token);
        assert_eq!(Stage::decode(token), Ok(v));
    }
}

#[test]
fn interaction_type_round_trip() {
    let all = [
        (InteractionType::Email, "email"),
        (InteractionType::Phone, "phone"),
        (InteractionType::Interview, "interview"),
        (InteractionType::Meeting, "meeting"),
        (InteractionType::FollowUp, "follow_up"),
        (InteractionType::OfferDiscussion, "offer_discussion"),
        (InteractionType::Other, "other"),
    ];
    for (v, token) in all {
        assert_eq!(v.as_str(), token);
        assert_eq!(InteractionType::decode(token), Ok(v));
    }
}

#[test]
fn contact_type_round_trip() {
    let all = [
        (ContactType::Email, "email"),
        (ContactType::Phone, "phone"),
        (ContactType::Interview, "interview"),
        (ContactType::Meeting, "meeting"),
        (ContactType::FollowUp, "follow_up"),
        (ContactType::OfferDiscussion, "offer_discussion"),
        (ContactType::Other, "other"),
    ];
    for (v, token) in all {
        assert_eq!(v.as_str(), token);
        assert_eq!(ContactType::decode(token), Ok(v));
    }
}

#[test]
fn note_type_round_trip() {
    let all = [
        (NoteType::General, "general"),
        (NoteType::Feedback, "feedback"),
        (NoteType::Reminder, "reminder"),
        (NoteType::Summary, "summary"),
        (NoteType::Other, "other"),
    ];
    for (v, token) in all {
        assert_eq!(v.as_str(), token);
        assert_eq!(NoteType::decode(token), Ok(v));
    }
}

#[test]
fn reminder_status_round_trip() {
    assert_eq!(ReminderStatus::Pending.as_int(), 0);
    assert_eq!(ReminderStatus::Completed.as_int(), 1);
    assert_eq!(ReminderStatus::decode(0), Ok(ReminderStatus::Pending));
    assert_eq!(ReminderStatus::decode(1), Ok(ReminderStatus::Completed));
    assert_eq!(
        ReminderStatus::decode(2),
        Err(DecodeError::UnknownToken(String::from("2")))
    );
    assert_eq!(
        ReminderStatus::decode(-1),
        Err(DecodeError::UnknownToken(String::from("-1")))
    );
}

#[test]
fn unknown_tokens_are_rejected() {
    assert_eq!(
        WorkType::decode("fulltime"),
        Err(DecodeError::UnknownToken(String::from("fulltime")))
    );
    assert_eq!(
        WorkType::decode(""),
        Err(DecodeError::UnknownToken(String::from("")))
    );
    assert_eq!(
        WorkType::decode("FULL_TIME"),
        Err(DecodeError::UnknownToken(String::from("FULL_TIME")))
    );
    assert_eq!(
        SeniorityLevel::decode("principal"),
        Err(DecodeError::UnknownToken(String::from("principal")))
    );
    assert_eq!(
        Currency::decode("usd"),
        Err(DecodeError::UnknownToken(String::from("usd")))
    );
    assert_eq!(
        Role::decode("ceo"),
        Err(DecodeError::UnknownToken(String::from("ceo")))
    );
    assert_eq!(
        Stage::decode("ghosted"),
        Err(DecodeError::UnknownToken(String::from("ghosted")))
    );
    assert_eq!(
        InteractionType::decode("fax"),
        Err(DecodeError::UnknownToken(String::from("fax")))
    );
    assert_eq!(
        ContactType::decode("telegram"),
        Err(DecodeError::UnknownToken(String::from("telegram")))
    );
    assert_eq!(
        NoteType::decode("misc"),
        Err(DecodeError::UnknownToken(String::from("misc")))
    );
}

#[test]
fn tokens_do_not_cross_enumerations() {
    assert!(WorkType::decode("junior").is_err());
    assert!(SeniorityLevel::decode("full_time").is_err());
    assert!(Stage::decode("recruiter").is_err());
    assert!(Role::decode("applied").is_err());
    assert!(NoteType::decode("email").is_err());
}
