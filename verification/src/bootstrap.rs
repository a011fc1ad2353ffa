//! The schema-bootstrap plan.
//!
//! Bootstrap must run outside work — directory and file creation,
//! connecting, counting tables, running schema statements — that the
//! library cannot perform itself.  The `Bootstrapper` state machine owns
//! every decision of that run: a driver performs the action the machine
//! asks for, reports what happened, and the machine picks the next step.
//! Any failure is terminal: the store is unusable, so nothing is retried.
//!
//! The plan applies the schema only when the table count came back zero,
//! which is what makes a second bootstrap of the same store a no-op.

use vstd::prelude::*;
use vstd::string::*;

verus! {

/// Where the store lives on disk, resolved from the user's home directory.
#[derive(Clone, Debug)]
pub struct DbLocation {
    /// The per-user directory holding the store.
    pub base_dir: String,
    /// The store file inside `base_dir`.
    pub db_path: String,
    /// The connection URL for the store file.
    pub db_url: String,
}

/// The directory the store lives in, under the given home directory.
pub open spec fn spec_base_dir(home: Seq<char>) -> Seq<char> {
    home + "/.JobTrackr"@
}

/// The store file under the given home directory.
pub open spec fn spec_db_path(home: Seq<char>) -> Seq<char> {
    spec_base_dir(home) + "/jobtrackr.db"@
}

/// The connection URL of the store file under the given home directory.
pub open spec fn spec_db_url(home: Seq<char>) -> Seq<char> {
    "sqlite://"@ + spec_db_path(home)
}

/// Whether `loc` is the store location for the given home directory.
pub open spec fn location_of(loc: DbLocation, home: Seq<char>) -> bool {
    loc.base_dir@ == spec_base_dir(home) && loc.db_path@ == spec_db_path(home) && loc.db_url@
        == spec_db_url(home)
}

/// Whether `loc` is the store location for some home directory.
pub open spec fn is_store_location(loc: DbLocation) -> bool {
    exists|home: Seq<char>| location_of(loc, home)
}

/// Builds the fixed store location under a home directory.
pub fn db_location_of(home: &str) -> (r: DbLocation)
    ensures
        location_of(r, home@),
{
    let mut base_dir = home.to_owned();
    base_dir.append("/.JobTrackr");
    let mut db_path = base_dir.clone();
    db_path.append("/jobtrackr.db");
    let mut db_url = String::new();
    db_url.append("sqlite://");
    db_url.append(db_path.as_str());
    proof {
        assert(Seq::<char>::empty() + "sqlite://"@ + db_path@ =~= "sqlite://"@ + db_path@);
    }
    DbLocation { base_dir, db_path, db_url }
}

/// Relies on `dirs::home_dir` to resolve the user's home directory.  The
/// result depends on the environment, so nothing is promised of it.
#[verifier::external_body]
fn home_dir_string() -> (r: Option<String>) {
    dirs::home_dir().and_then(|p| p.into_os_string().into_string().ok())
}

/// Resolves the fixed on-disk store location, or `None` when the
/// environment offers no home directory — a fatal condition for callers.
pub fn resolve_db_location() -> (r: Option<DbLocation>)
    ensures
        r matches Some(loc) ==> is_store_location(loc),
{
    match home_dir_string() {
        None => None,
        Some(home) => {
            let loc = db_location_of(home.as_str());
            proof {
                assert(location_of(loc, home@));
                assert(is_store_location(loc));
            }
            Some(loc)
        },
    }
}

/// One piece of outside work the driver must perform next.
#[derive(Clone, Debug, PartialEq, Eq)]
pub enum BootstrapAction {
    /// Create the store's directory, recursively, if missing.
    CreateDirAll { path: String },
    /// Create the store file, empty, if missing.
    CreateFileIfMissing { path: String },
    /// Open a connection pool capped at one connection.
    OpenConnection { url: String },
    /// Count the tables the store holds.
    CountTables,
    /// Run one schema statement.
    RunStatement { sql: String },
    /// Close the connection opened before the schema ran.
    CloseConnection,
    /// Check that the store file physically exists.
    CheckFileExists { path: String },
    /// Bootstrap is complete; the store is ready.
    Finished,
    /// Bootstrap failed; the store is unusable and startup must abort.
    Aborted,
}

/// What the driver reports back after performing an action.
#[derive(Clone, Copy, Debug, PartialEq, Eq, Structural)]
pub enum BootstrapEvent {
    /// The action succeeded and carries no further information.
    Proceeded,
    /// The table count came back.
    Counted { tables: i64 },
    /// The file check came back.
    FileChecked { exists: bool },
    /// The action failed; bootstrap is fatal from here.
    Failed,
}

/// Where the bootstrap run stands.
#[derive(Clone, Copy, Debug, PartialEq, Eq, Structural)]
pub enum BootstrapPhase {
    EnsureDir,
    EnsureFile,
    Connect,
    Count,
    Apply { next: usize },
    Close,
    Verify,
    Reconnect,
    Done,
    Failed,
}

/// The bootstrap state machine: the location, the split schema script, and
/// the current phase.
pub struct Bootstrapper {
    pub location: DbLocation,
    pub statements: Vec<String>,
    pub phase: BootstrapPhase,
}

impl Bootstrapper {
    /// A phase that points at a schema statement stays within the script.
    pub open spec fn wf(self) -> bool {
        self.phase matches BootstrapPhase::Apply { next } ==> next < self.statements@.len()
    }

    /// Starts a bootstrap run at the first step.
    pub fn new(location: DbLocation, statements: Vec<String>) -> (r: Bootstrapper)
        ensures
            r.location == location,
            r.statements == statements,
            r.phase == BootstrapPhase::EnsureDir,
            r.wf(),
    {
        Bootstrapper { location, statements, phase: BootstrapPhase::EnsureDir }
    }
}

/// The outside work owed in the machine's current phase.
pub open spec fn action_for(b: Bootstrapper, a: BootstrapAction) -> bool {
    match b.phase {
        BootstrapPhase::EnsureDir => a matches BootstrapAction::CreateDirAll { path } && path@
            == b.location.base_dir@,
        BootstrapPhase::EnsureFile => a matches BootstrapAction::CreateFileIfMissing { path }
            && path@ == b.location.db_path@,
        BootstrapPhase::Connect => a matches BootstrapAction::OpenConnection { url } && url@
            == b.location.db_url@,
        BootstrapPhase::Count => a == BootstrapAction::CountTables,
        BootstrapPhase::Apply { next } => a matches BootstrapAction::RunStatement { sql }
            && next < b.statements@.len() && sql@ == b.statements@[next as int]@,
        BootstrapPhase::Close => a == BootstrapAction::CloseConnection,
        BootstrapPhase::Verify => a matches BootstrapAction::CheckFileExists { path } && path@
            == b.location.db_path@,
        BootstrapPhase::Reconnect => a matches BootstrapAction::OpenConnection { url } && url@
            == b.location.db_url@,
        BootstrapPhase::Done => a == BootstrapAction::Finished,
        BootstrapPhase::Failed => a == BootstrapAction::Aborted,
    }
}

/// The phase that follows `b.phase` once the driver reports `event`.  Any
/// failure, and any report that does not fit the phase, is terminal.
pub open spec fn spec_next(b: Bootstrapper, event: BootstrapEvent) -> BootstrapPhase {
    match b.phase {
        BootstrapPhase::EnsureDir => if event == BootstrapEvent::Proceeded {
            BootstrapPhase::EnsureFile
        } else {
            BootstrapPhase::Failed
        },
        BootstrapPhase::EnsureFile => if event == BootstrapEvent::Proceeded {
            BootstrapPhase::Connect
        } else {
            BootstrapPhase::Failed
        },
        BootstrapPhase::Connect => if event == BootstrapEvent::Proceeded {
            BootstrapPhase::Count
        } else {
            BootstrapPhase::Failed
        },
        BootstrapPhase::Count => match event {
            BootstrapEvent::Counted { tables } => if tables == 0 {
                if b.statements@.len() > 0 {
                    BootstrapPhase::Apply { next: 0 }
                } else {
                    BootstrapPhase::Close
                }
            } else {
                BootstrapPhase::Verify
            },
            _ => BootstrapPhase::Failed,
        },
        BootstrapPhase::Apply { next } => if event == BootstrapEvent::Proceeded {
            if next + 1 < b.statements@.len() {
                BootstrapPhase::Apply { next: (next + 1) as usize }
            } else {
                BootstrapPhase::Close
            }
        } else {
            BootstrapPhase::Failed
        },
        BootstrapPhase::Close => if event == BootstrapEvent::Proceeded {
            BootstrapPhase::Verify
        } else {
            BootstrapPhase::Failed
        },
        BootstrapPhase::Verify => match event {
            BootstrapEvent::FileChecked { exists } => if exists {
                BootstrapPhase::Reconnect
            } else {
                BootstrapPhase::Failed
            },
            _ => BootstrapPhase::Failed,
        },
        BootstrapPhase::Reconnect => if event == BootstrapEvent::Proceeded {
            BootstrapPhase::Done
        } else {
            BootstrapPhase::Failed
        },
        BootstrapPhase::Done => BootstrapPhase::Done,
        BootstrapPhase::Failed => BootstrapPhase::Failed,
    }
}

impl Bootstrapper {
    /// The action the driver must perform next.
    pub fn current_action(&self) -> (r: BootstrapAction)
        requires
            self.wf(),
        ensures
            action_for(*self, r),
    {
        match self.phase {
            BootstrapPhase::EnsureDir => BootstrapAction::CreateDirAll {
                path: self.location.base_dir.clone(),
            },
            BootstrapPhase::EnsureFile => BootstrapAction::CreateFileIfMissing {
                path: self.location.db_path.clone(),
            },
            BootstrapPhase::Connect => BootstrapAction::OpenConnection {
                url: self.location.db_url.clone(),
            },
            BootstrapPhase::Count => BootstrapAction::CountTables,
            BootstrapPhase::Apply { next } => BootstrapAction::RunStatement {
                sql: self.statements[next].clone(),
            },
            BootstrapPhase::Close => BootstrapAction::CloseConnection,
            BootstrapPhase::Verify => BootstrapAction::CheckFileExists {
                path: self.location.db_path.clone(),
            },
            BootstrapPhase::Reconnect => BootstrapAction::OpenConnection {
                url: self.location.db_url.clone(),
            },
            BootstrapPhase::Done => BootstrapAction::Finished,
            BootstrapPhase::Failed => BootstrapAction::Aborted,
        }
    }

    /// Moves to the next phase after the driver's report.
    pub fn advance(&mut self, event: BootstrapEvent)
        requires
            old(self).wf(),
        ensures
            final(self).phase == spec_next(*old(self), event),
            final(self).location == old(self).location,
            final(self).statements == old(self).statements,
            final(self).wf(),
    {
        let next_phase = match self.phase {
            BootstrapPhase::EnsureDir => if event == BootstrapEvent::Proceeded {
                BootstrapPhase::EnsureFile
            } else {
                BootstrapPhase::Failed
            },
            BootstrapPhase::EnsureFile => if event == BootstrapEvent::Proceeded {
                BootstrapPhase::Connect
            } else {
                BootstrapPhase::Failed
            },
            BootstrapPhase::Connect => if event == BootstrapEvent::Proceeded {
                BootstrapPhase::Count
            } else {
                BootstrapPhase::Failed
            },
            BootstrapPhase::Count => match event {
                BootstrapEvent::Counted { tables } => if tables == 0 {
                    if self.statements.len() > 0 {
                        BootstrapPhase::Apply { next: 0 }
                    } else {
                        BootstrapPhase::Close
                    }
                } else {
                    BootstrapPhase::Verify
                },
                _ => BootstrapPhase::Failed,
            },
            BootstrapPhase::Apply { next } => {
                let n = self.statements.len();
                proof {
                    assert(next < n);
                }
                if event == BootstrapEvent::Proceeded {
                    if next + 1 < n {
                        BootstrapPhase::Apply { next: next + 1 }
                    } else {
                        BootstrapPhase::Close
                    }
                } else {
                    BootstrapPhase::Failed
                }
            },
            BootstrapPhase::Close => if event == BootstrapEvent::Proceeded {
                BootstrapPhase::Verify
            } else {
                BootstrapPhase::Failed
            },
            BootstrapPhase::Verify => match event {
                BootstrapEvent::FileChecked { exists } => if exists {
                    BootstrapPhase::Reconnect
                } else {
                    BootstrapPhase::Failed
                },
                _ => BootstrapPhase::Failed,
            },
            BootstrapPhase::Reconnect => if event == BootstrapEvent::Proceeded {
                BootstrapPhase::Done
            } else {
                BootstrapPhase::Failed
            },
            BootstrapPhase::Done => BootstrapPhase::Done,
            BootstrapPhase::Failed => BootstrapPhase::Failed,
        };
        self.phase = next_phase;
    }

    /// Whether the run is over, well or badly.
    pub fn is_terminal(&self) -> (r: bool)
        ensures
            r == (self.phase == BootstrapPhase::Done || self.phase == BootstrapPhase::Failed),
    {
        match self.phase {
            BootstrapPhase::Done => true,
            BootstrapPhase::Failed => true,
            _ => false,
        }
    }
}

/// A phase from which the run can never again reach a schema statement.
pub open spec fn past_schema(phase: BootstrapPhase) -> bool {
    match phase {
        BootstrapPhase::Verify => true,
        BootstrapPhase::Reconnect => true,
        BootstrapPhase::Done => true,
        BootstrapPhase::Failed => true,
        _ => false,
    }
}

/// Idempotent bootstrap, first half: when the store already holds tables,
/// the count step moves straight past every schema step.
pub proof fn lemma_nonzero_count_skips_schema(b: Bootstrapper, tables: i64)
    requires
        b.phase == BootstrapPhase::Count,
        tables != 0,
    ensures
        spec_next(b, BootstrapEvent::Counted { tables }) == BootstrapPhase::Verify,
        past_schema(spec_next(b, BootstrapEvent::Counted { tables })),
{
}

/// Idempotent bootstrap, second half: once past the schema steps, the run
/// stays past them whatever the driver reports, and no phase past them owes
/// a schema statement.  Together with the first half: a bootstrap of an
/// already-initialized store never runs a schema statement.
pub proof fn lemma_past_schema_stays(b: Bootstrapper, event: BootstrapEvent, a: BootstrapAction)
    requires
        past_schema(b.phase),
    ensures
        past_schema(spec_next(b, event)),
        action_for(b, a) ==> !(a matches BootstrapAction::RunStatement { sql }),
{
}

} // verus!
