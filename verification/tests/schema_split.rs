//! The statement splitter and the bootstrap state machine.

use jobtrackr::bootstrap::db_location_of;
use jobtrackr::bootstrap::BootstrapAction;
use jobtrackr::bootstrap::BootstrapEvent;
use jobtrackr::bootstrap::BootstrapPhase;
use jobtrackr::bootstrap::Bootstrapper;
use jobtrackr::schema::needs_init;
use jobtrackr::schema::schema_statements;
use jobtrackr::schema::split_statements;
use jobtrackr::schema::INIT_SQL;

#[test]
fn splitting_cuts_trims_and_drops_empties() {
    assert_eq!(split_statements(""), Vec::<String>::new());
    assert_eq!(split_statements("   \n  "), Vec::<String>::new());
    assert_eq!(split_statements(";;;"), Vec::<String>::new());
    assert_eq!(split_statements("a"), vec!["a"]);
    assert_eq!(split_statements("a;b"), vec!["a", "b"]);
    assert_eq!(split_statements("a; ;b;"), vec!["a", "b"]);
    assert_eq!(
        split_statements("  CREATE TABLE t (x);\n\nINSERT INTO t VALUES (1) ;  "),
        vec!["CREATE TABLE t (x)", "INSERT INTO t VALUES (1)"]
    );
}

#[test]
fn schema_script_splits_into_one_statement_per_table() {
    let statements = schema_statements();
    assert_eq!(statements.len(), 11);
    for s in &statements {
        assert!(s.starts_with("CREATE TABLE "));
        assert!(!s.ends_with(';'));
    }
    assert!(INIT_SQL.contains("CREATE TABLE company"));
    assert!(INIT_SQL.contains("CREATE TABLE user"));
}

#[test]
fn only_an_empty_store_needs_the_schema() {
    assert!(needs_init(0));
    assert!(!needs_init(1));
    assert!(!needs_init(11));
    assert!(!needs_init(-1));
}

fn machine(statements: Vec<&str>) -> Bootstrapper {
    let location = db_location_of("/home/someone");
    Bootstrapper::new(location, statements.into_iter().map(String::from).collect())
}

#[test]
fn fresh_store_runs_every_statement_then_reconnects() {
    let mut b = machine(vec!["CREATE TABLE a (x)", "CREATE TABLE b (y)"]);
    assert_eq!(b.phase, BootstrapPhase::EnsureDir);
    assert_eq!(
        b.current_action(),
        BootstrapAction::CreateDirAll { path: String::from("/home/someone/.JobTrackr") }
    );
    b.advance(BootstrapEvent::Proceeded);
    assert_eq!(
        b.current_action(),
        BootstrapAction::CreateFileIfMissing {
            path: String::from("/home/someone/.JobTrackr/jobtrackr.db")
        }
    );
    b.advance(BootstrapEvent::Proceeded);
    assert_eq!(
        b.current_action(),
        BootstrapAction::OpenConnection {
            url: String::from("sqlite:///home/someone/.JobTrackr/jobtrackr.db")
        }
    );
    b.advance(BootstrapEvent::Proceeded);
    assert_eq!(b.current_action(), BootstrapAction::CountTables);
    b.advance(BootstrapEvent::Counted { tables: 0 });
    assert_eq!(
        b.current_action(),
        BootstrapAction::RunStatement { sql: String::from("CREATE TABLE a (x)") }
    );
    b.advance(BootstrapEvent::Proceeded);
    assert_eq!(
        b.current_action(),
        BootstrapAction::RunStatement { sql: String::from("CREATE TABLE b (y)") }
    );
    b.advance(BootstrapEvent::Proceeded);
    assert_eq!(b.current_action(), BootstrapAction::CloseConnection);
    b.advance(BootstrapEvent::Proceeded);
    assert_eq!(
        b.current_action(),
        BootstrapAction::CheckFileExists {
            path: String::from("/home/someone/.JobTrackr/jobtrackr.db")
        }
    );
    b.advance(BootstrapEvent::FileChecked { exists: true });
    assert_eq!(
        b.current_action(),
        BootstrapAction::OpenConnection {
            url: String::from("sqlite:///home/someone/.JobTrackr/jobtrackr.db")
        }
    );
    assert!(!b.is_terminal());
    b.advance(BootstrapEvent::Proceeded);
    assert_eq!(b.current_action(), BootstrapAction::Finished);
    assert!(b.is_terminal());
}

#[test]
fn initialized_store_skips_every_schema_statement() {
    let mut b = machine(vec!["CREATE TABLE a (x)"]);
    b.advance(BootstrapEvent::Proceeded);
    b.advance(BootstrapEvent::Proceeded);
    b.advance(BootstrapEvent::Proceeded);
    assert_eq!(b.current_action(), BootstrapAction::CountTables);
    b.advance(BootstrapEvent::Counted { tables: 11 });
    // No RunStatement and no CloseConnection: straight to the file check.
    assert_eq!(
        b.current_action(),
        BootstrapAction::CheckFileExists {
            path: String::from("/home/someone/.JobTrackr/jobtrackr.db")
        }
    );
    b.advance(BootstrapEvent::FileChecked { exists: true });
    assert!(matches!(
        b.current_action(),
        BootstrapAction::OpenConnection { .. }
    ));
    b.advance(BootstrapEvent::Proceeded);
    assert_eq!(b.current_action(), BootstrapAction::Finished);
}

#[test]
fn failures_are_terminal() {
    let mut b = machine(vec!["CREATE TABLE a (x)"]);
    b.advance(BootstrapEvent::Failed);
    assert_eq!(b.phase, BootstrapPhase::Failed);
    assert_eq!(b.current_action(), BootstrapAction::Aborted);
    assert!(b.is_terminal());
    b.advance(BootstrapEvent::Proceeded);
    assert_eq!(b.phase, BootstrapPhase::Failed);

    let mut c = machine(vec!["CREATE TABLE a (x)"]);
    c.advance(BootstrapEvent::Proceeded);
    c.advance(BootstrapEvent::Proceeded);
    c.advance(BootstrapEvent::Proceeded);
    c.advance(BootstrapEvent::Counted { tables: 0 });
    c.advance(BootstrapEvent::Failed);
    assert_eq!(c.current_action(), BootstrapAction::Aborted);

    // A missing file after initialization is fatal too.
    let mut d = machine(vec![]);
    d.advance(BootstrapEvent::Proceeded);
    d.advance(BootstrapEvent::Proceeded);
    d.advance(BootstrapEvent::Proceeded);
    d.advance(BootstrapEvent::Counted { tables: 5 });
    d.advance(BootstrapEvent::FileChecked { exists: false });
    assert_eq!(d.phase, BootstrapPhase::Failed);
}

#[test]
fn report_that_does_not_fit_the_phase_is_fatal() {
    let mut b = machine(vec!["CREATE TABLE a (x)"]);
    b.advance(BootstrapEvent::Counted { tables: 0 });
    assert_eq!(b.phase, BootstrapPhase::Failed);
}
