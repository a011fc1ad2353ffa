//! The typed command requests carry their payloads as the surface hands
//! them in: enum-typed fields stay typed, absent update fields stay absent.

use jobtrackr::commands::ApplicationCommand;
use jobtrackr::commands::CompanyCommand;
use jobtrackr::commands::ReminderCommand;
use jobtrackr::enums::Stage;
use jobtrackr::enums::WorkType;

#[test]
fn create_commands_carry_their_payload() {
    let command = CompanyCommand::Create {
        name: String::from("Acme Corp"),
        street_address: None,
        zip_code: None,
        city: Some(String::from("Berlin")),
        country: None,
        default_work_type: Some(WorkType::Remote),
        industry: None,
        website: None,
        phone_number: None,
    };
    match command {
        CompanyCommand::Create { name, city, default_work_type, country, .. } => {
            assert_eq!(name, "Acme Corp");
            assert_eq!(city.as_deref(), Some("Berlin"));
            assert_eq!(default_work_type, Some(WorkType::Remote));
            assert_eq!(country, None);
        }
        _ => panic!("the constructed command must be a create"),
    }
}

#[test]
fn update_commands_keep_unset_fields_absent() {
    let command = ApplicationCommand::Update {
        id: 11,
        job_listing_id: None,
        stage: Some(Stage::Interviewing),
        applied_date: None,
        application_notes: None,
    };
    match command {
        ApplicationCommand::Update { id, stage, applied_date, .. } => {
            assert_eq!(id, 11);
            assert_eq!(stage, Some(Stage::Interviewing));
            assert_eq!(applied_date, None);
        }
        _ => panic!("the constructed command must be an update"),
    }
}

#[test]
fn key_only_commands_compare_by_their_key() {
    assert_eq!(
        ReminderCommand::GetById { id: 3 },
        ReminderCommand::GetById { id: 3 }
    );
    assert_ne!(
        ReminderCommand::Delete { id: 3 },
        ReminderCommand::Delete { id: 4 }
    );
    assert_ne!(ReminderCommand::ListAll, ReminderCommand::Delete { id: 3 });
}
