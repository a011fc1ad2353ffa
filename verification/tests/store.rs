//! The library's statements and codec against a real SQLite store: schema
//! bootstrap, the CRUD round trip, the no-op update, and constraint
//! failures.

use jobtrackr::bootstrap::db_location_of;
use jobtrackr::bootstrap::BootstrapAction;
use jobtrackr::bootstrap::BootstrapEvent;
use jobtrackr::bootstrap::Bootstrapper;
use jobtrackr::enums::NoteType;
use jobtrackr::enums::WorkType;
use jobtrackr::models::ContactNote;
use jobtrackr::models::DbError;
use jobtrackr::models::JobListingContact;
use jobtrackr::schema::schema_statements;
use jobtrackr::statements::build_delete_sql;
use jobtrackr::statements::build_insert_sql;
use jobtrackr::statements::build_select_all_sql;
use jobtrackr::statements::build_select_by_column_sql;
use jobtrackr::statements::build_upcoming_reminders_sql;
use jobtrackr::update::build_update_sql;
use sqlx::Row;

fn runtime() -> tokio::runtime::Runtime {
    tokio::runtime::Runtime::new().unwrap()
}

async fn fresh_pool() -> sqlx::SqlitePool {
    let pool = sqlx::sqlite::SqlitePoolOptions::new()
        .max_connections(1)
        .connect("sqlite::memory:")
        .await
        .unwrap();
    for statement in schema_statements() {
        sqlx::query(&statement).execute(&pool).await.unwrap();
    }
    pool
}

/// Waits for the wall clock to enter the next second, so that a re-stamped
/// `updated_at` is strictly later than `created_at` even at second
/// resolution.
fn wait_for_clock_tick() {
    let start = chrono::Utc::now().timestamp();
    while chrono::Utc::now().timestamp() == start {}
}

/// The classification the application layer applies to a failed statement.
fn classify(e: sqlx::Error) -> DbError {
    match e {
        sqlx::Error::RowNotFound => DbError::NotFound,
        sqlx::Error::Database(d)
            if d.is_foreign_key_violation() || d.is_unique_violation() =>
        {
            DbError::ConstraintViolation
        }
        other => DbError::Connection(other.to_string()),
    }
}

#[test]
fn company_crud_round_trip() {
    runtime().block_on(async {
        let pool = fresh_pool().await;

        // Create with a name and an encoded work type.
        let columns = vec!["name", "default_work_type"];
        let insert = build_insert_sql("company", &columns);
        let row = sqlx::query(&insert)
            .bind("Acme Corp")
            .bind(WorkType::Remote.as_str())
            .fetch_one(&pool)
            .await
            .unwrap();
        let id: i64 = row.get("id");

        // Read back: the stored token decodes to the same variant, and the
        // two server-assigned stamps are equal at creation.
        let select = build_select_by_column_sql("company", "id");
        let row = sqlx::query(&select).bind(id).fetch_one(&pool).await.unwrap();
        assert_eq!(row.get::<String, _>("name"), "Acme Corp");
        let token: Option<String> = row.get("default_work_type");
        assert_eq!(WorkType::decode(&token.unwrap()), Ok(WorkType::Remote));
        let created_at: String = row.get("created_at");
        let updated_at: String = row.get("updated_at");
        assert_eq!(created_at, updated_at);

        // Update only the work type; `created_at` must not move and
        // `updated_at` must be strictly later.
        wait_for_clock_tick();
        let fields = vec![("default_work_type", Some(WorkType::Contract.as_str()))];
        let (update, binds) = build_update_sql("company", "id", id, fields);
        let mut query = sqlx::query(&update);
        for bind in &binds {
            query = query.bind(bind.as_str());
        }
        let row = query.fetch_one(&pool).await.unwrap();
        let token: Option<String> = row.get("default_work_type");
        assert_eq!(WorkType::decode(&token.unwrap()), Ok(WorkType::Contract));
        assert_eq!(row.get::<String, _>("name"), "Acme Corp");
        assert_eq!(row.get::<String, _>("created_at"), created_at);
        let new_updated_at: String = row.get("updated_at");
        let before = chrono::DateTime::parse_from_rfc3339(&updated_at).unwrap();
        let after = chrono::DateTime::parse_from_rfc3339(&new_updated_at).unwrap();
        assert!(after > before);

        // Delete returns the removed key; a later read finds nothing.
        let delete = build_delete_sql("company", "id");
        let row = sqlx::query(&delete).bind(id).fetch_one(&pool).await.unwrap();
        assert_eq!(row.get::<i64, _>("id"), id);
        let gone = sqlx::query(&select).bind(id).fetch_optional(&pool).await.unwrap();
        assert!(gone.is_none());
        let err = match sqlx::query(&select).bind(id).fetch_one(&pool).await {
            Err(e) => e,
            Ok(_) => panic!("a deleted row must not be found"),
        };
        assert_eq!(classify(err), DbError::NotFound);
    });
}

#[test]
fn noop_update_changes_only_updated_at() {
    runtime().block_on(async {
        let pool = fresh_pool().await;
        let columns = vec!["name", "street_address", "city", "default_work_type"];
        let insert = build_insert_sql("company", &columns);
        let row = sqlx::query(&insert)
            .bind("Acme Corp")
            .bind("Main Street 1")
            .bind("Berlin")
            .bind(WorkType::Hybrid.as_str())
            .fetch_one(&pool)
            .await
            .unwrap();
        let id: i64 = row.get("id");

        let select = build_select_by_column_sql("company", "id");
        let before = sqlx::query(&select).bind(id).fetch_one(&pool).await.unwrap();

        wait_for_clock_tick();
        let fields: Vec<(&str, Option<&str>)> = vec![
            ("name", None),
            ("street_address", None),
            ("zip_code", None),
            ("city", None),
            ("country", None),
            ("default_work_type", None),
            ("industry", None),
            ("website", None),
            ("phone_number", None),
        ];
        let (update, binds) = build_update_sql("company", "id", id, fields);
        let mut query = sqlx::query(&update);
        for bind in &binds {
            query = query.bind(bind.as_str());
        }
        query.fetch_one(&pool).await.unwrap();

        let after = sqlx::query(&select).bind(id).fetch_one(&pool).await.unwrap();
        let plain_columns = [
            "name",
            "street_address",
            "zip_code",
            "city",
            "country",
            "default_work_type",
            "industry",
            "website",
            "phone_number",
        ];
        for column in plain_columns {
            assert_eq!(
                before.get::<Option<String>, _>(column),
                after.get::<Option<String>, _>(column),
                "column {} must not change on a no-op update",
                column
            );
        }
        assert_eq!(before.get::<i64, _>("id"), after.get::<i64, _>("id"));
        assert_eq!(
            before.get::<String, _>("created_at"),
            after.get::<String, _>("created_at")
        );
        assert_ne!(
            before.get::<String, _>("updated_at"),
            after.get::<String, _>("updated_at")
        );
    });
}

#[test]
fn missing_foreign_key_rejects_the_insert() {
    runtime().block_on(async {
        let pool = fresh_pool().await;
        let columns = vec!["company_id", "title"];
        let insert = build_insert_sql("job_listing", &columns);
        let err = match sqlx::query(&insert)
            .bind(9999i64)
            .bind("Backend Engineer")
            .fetch_one(&pool)
            .await
        {
            Err(e) => e,
            Ok(_) => panic!("an insert with a dangling key must fail"),
        };
        assert_eq!(classify(err), DbError::ConstraintViolation);
        let count: i64 = sqlx::query("SELECT COUNT(*) AS c FROM job_listing")
            .fetch_one(&pool)
            .await
            .unwrap()
            .get("c");
        assert_eq!(count, 0, "no row may be persisted by a rejected insert");
    });
}

async fn connect(url: &str) -> sqlx::SqlitePool {
    sqlx::sqlite::SqlitePoolOptions::new()
        .max_connections(1)
        .connect(url)
        .await
        .unwrap()
}

/// Drives the bootstrap machine against a shared in-memory store, standing
/// in for the filesystem steps that an in-memory store does not have.
async fn run_bootstrap(url: &str) {
    let mut machine = Bootstrapper::new(db_location_of("/home/someone"), schema_statements());
    let mut pool: Option<sqlx::SqlitePool> = None;
    loop {
        match machine.current_action() {
            BootstrapAction::CreateDirAll { .. }
            | BootstrapAction::CreateFileIfMissing { .. } => {
                machine.advance(BootstrapEvent::Proceeded);
            }
            BootstrapAction::OpenConnection { .. } => {
                pool = Some(connect(url).await);
                machine.advance(BootstrapEvent::Proceeded);
            }
            BootstrapAction::CountTables => {
                let tables: i64 =
                    sqlx::query("SELECT COUNT(name) AS c FROM sqlite_master WHERE type='table'")
                        .fetch_one(pool.as_ref().unwrap())
                        .await
                        .unwrap()
                        .get("c");
                machine.advance(BootstrapEvent::Counted { tables });
            }
            BootstrapAction::RunStatement { sql } => {
                sqlx::query(&sql).execute(pool.as_ref().unwrap()).await.unwrap();
                machine.advance(BootstrapEvent::Proceeded);
            }
            BootstrapAction::CloseConnection => {
                pool.take().unwrap().close().await;
                machine.advance(BootstrapEvent::Proceeded);
            }
            BootstrapAction::CheckFileExists { .. } => {
                machine.advance(BootstrapEvent::FileChecked { exists: true });
            }
            BootstrapAction::Finished => break,
            BootstrapAction::Aborted => panic!("bootstrap must not fail in this test"),
        }
    }
}

#[test]
fn bootstrap_twice_applies_the_schema_once() {
    runtime().block_on(async {
        let url = "sqlite:file:bootstrap_twice?mode=memory&cache=shared";
        // The anchor connection keeps the shared in-memory store alive
        // across the close/reopen inside bootstrap.
        let anchor = connect(url).await;

        run_bootstrap(url).await;
        // 11 tables of the schema, plus sqlite_sequence for AUTOINCREMENT.
        let tables_after_first: i64 =
            sqlx::query("SELECT COUNT(name) AS c FROM sqlite_master WHERE type='table'")
                .fetch_one(&anchor)
                .await
                .unwrap()
                .get("c");
        assert_eq!(tables_after_first, 12);
        sqlx::query("INSERT INTO company (name) VALUES ('Marker')")
            .execute(&anchor)
            .await
            .unwrap();

        // The second run must find the tables and apply nothing: unchanged
        // table count, and the marker row untouched.
        run_bootstrap(url).await;
        let tables_after_second: i64 =
            sqlx::query("SELECT COUNT(name) AS c FROM sqlite_master WHERE type='table'")
                .fetch_one(&anchor)
                .await
                .unwrap()
                .get("c");
        assert_eq!(tables_after_second, 12);
        let companies: i64 = sqlx::query("SELECT COUNT(*) AS c FROM company")
            .fetch_one(&anchor)
            .await
            .unwrap()
            .get("c");
        assert_eq!(companies, 1);
        let name: String = sqlx::query("SELECT name FROM company")
            .fetch_one(&anchor)
            .await
            .unwrap()
            .get("name");
        assert_eq!(name, "Marker");
    });
}

#[test]
fn contact_note_rows_decode_through_the_codec() {
    runtime().block_on(async {
        let pool = fresh_pool().await;
        let contact_insert = build_insert_sql("contact", &vec!["contact_type", "contact_date"]);
        let contact_id: i64 = sqlx::query(&contact_insert)
            .bind("email")
            .bind("2025-10-26")
            .fetch_one(&pool)
            .await
            .unwrap()
            .get("id");

        let insert = build_insert_sql("contact_note", &vec!["contact_id", "note_type", "content"]);
        let row = sqlx::query(&insert)
            .bind(contact_id)
            .bind(NoteType::General.as_str())
            .bind("Prep note")
            .fetch_one(&pool)
            .await
            .unwrap();
        let note = ContactNote::from_row(
            row.get("id"),
            row.get("contact_id"),
            row.get("note_type"),
            row.get("content"),
            row.get("created_at"),
            row.get("updated_at"),
        )
        .unwrap();
        assert_eq!(note.contact_id, contact_id);
        assert_eq!(note.note_type, Some(NoteType::General));
        assert_eq!(note.content.as_deref(), Some("Prep note"));

        // A corrupted token must surface as a decode error, never a default.
        let bad = ContactNote::from_row(
            1,
            contact_id,
            Some(String::from("memo")),
            None,
            String::from("t"),
            String::from("t"),
        );
        assert!(bad.is_err());
    });
}

#[test]
fn job_listing_contact_rows_decode_through_the_codec() {
    runtime().block_on(async {
        let pool = fresh_pool().await;
        let company_id: i64 = sqlx::query(&build_insert_sql("company", &vec!["name"]))
            .bind("Acme Corp")
            .fetch_one(&pool)
            .await
            .unwrap()
            .get("id");
        let listing_id: i64 =
            sqlx::query(&build_insert_sql("job_listing", &vec!["company_id", "title"]))
                .bind(company_id)
                .bind("Backend Engineer")
                .fetch_one(&pool)
                .await
                .unwrap()
                .get("id");
        let person_id: i64 =
            sqlx::query(&build_insert_sql("person", &vec!["first_name", "last_name"]))
                .bind("Alice")
                .bind("Johnson")
                .fetch_one(&pool)
                .await
                .unwrap()
                .get("id");

        let insert = build_insert_sql(
            "job_listing_contact",
            &vec!["job_listing_id", "person_id", "role"],
        );
        let row = sqlx::query(&insert)
            .bind(listing_id)
            .bind(person_id)
            .bind(jobtrackr::enums::Role::Recruiter.as_str())
            .fetch_one(&pool)
            .await
            .unwrap();
        let link = JobListingContact::from_row(
            row.get("id"),
            row.get("job_listing_id"),
            row.get("person_id"),
            row.get("role"),
            row.get("created_at"),
            row.get("updated_at"),
        )
        .unwrap();
        assert_eq!(link.job_listing_id, listing_id);
        assert_eq!(link.person_id, person_id);
        assert_eq!(link.role, Some(jobtrackr::enums::Role::Recruiter));
    });
}

#[test]
fn upcoming_reminders_are_pending_and_ordered() {
    runtime().block_on(async {
        let pool = fresh_pool().await;
        let insert = build_insert_sql(
            "reminder",
            &vec!["reminder_date", "title", "is_completed"],
        );
        for (date, title, done) in [
            ("2031-05-01", "later", 0i64),
            ("1990-01-01", "long past", 0i64),
            ("2030-01-01", "sooner", 0i64),
            ("2030-06-01", "already done", 1i64),
        ] {
            sqlx::query(&insert)
                .bind(date)
                .bind(title)
                .bind(done)
                .fetch_one(&pool)
                .await
                .unwrap();
        }
        let upcoming = build_upcoming_reminders_sql();
        let rows = sqlx::query(&upcoming)
            .bind("2020-01-01")
            .fetch_all(&pool)
            .await
            .unwrap();
        let titles: Vec<String> = rows.iter().map(|r| r.get("title")).collect();
        assert_eq!(titles, vec!["sooner", "later"]);

        let all = sqlx::query(&build_select_all_sql("reminder", Some("reminder_date")))
            .fetch_all(&pool)
            .await
            .unwrap();
        assert_eq!(all.len(), 4);
        assert_eq!(all[0].get::<String, _>("title"), "long past");
    });
}
