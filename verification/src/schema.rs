//! The schema initializer: an explicit operation that idempotently
//! ensures the application database and the `users` table exist.
//!
//! The initializer runs as a small state machine. It first checks the
//! server's catalog for the application database, creates it when it is
//! absent, and then issues a guarded create-table statement that creates
//! the `users` table only when no such table exists. Any statement
//! failure ends the run with a server error carrying the underlying
//! database message; nothing done so far is rolled back.

use vstd::prelude::*;
use vstd::string::*;

verus! {

/// The SQL text that checks the server catalog for the application
/// database.
pub open spec fn db_check_sql() -> Seq<char> {
    "SELECT name FROM sys.databases WHERE name = 'RustCrudApp'"@
}

/// The SQL text that creates the application database.
pub open spec fn create_db_sql() -> Seq<char> {
    "CREATE DATABASE RustCrudApp"@
}

/// The SQL text that creates the `users` table only if it does not
/// exist: integer identity primary key counting from 1, bounded name and
/// email, and a timestamp defaulting to the server's clock. It names the
/// table through the application database so the right catalog is hit
/// even on an administrative connection.
pub open spec fn create_table_sql() -> Seq<char> {
    "IF NOT EXISTS (SELECT * FROM RustCrudApp.sys.objects WHERE object_id = OBJECT_ID(N'RustCrudApp.dbo.users') AND type in (N'U')) BEGIN CREATE TABLE RustCrudApp.dbo.users (id INT IDENTITY(1,1) PRIMARY KEY, name NVARCHAR(100) NOT NULL, email NVARCHAR(100) NOT NULL, created_at DATETIME2 DEFAULT GETDATE()); END"@
}

/// Where an initializer run stands: about to check for the database,
/// about to create it, about to create the table, finished with a status
/// message, or failed with a server error message.
pub enum InitState {
    CheckDb,
    CreateDb,
    CreateTable,
    Done(String),
    Failed(String),
}

/// What one database round trip reported: a catalog row was found, no
/// catalog row matched, a statement executed, or the statement failed
/// with the database's error text.
pub enum QueryOutcome {
    RowFound,
    NoRow,
    Succeeded,
    Error(String),
}

/// The statement the current state issues, if the run is still going.
pub fn init_statement(state: &InitState) -> (r: Option<&'static str>)
    ensures
        state is CheckDb ==> (r matches Some(s) && s@ == db_check_sql()),
        state is CreateDb ==> (r matches Some(s) && s@ == create_db_sql()),
        state is CreateTable ==> (r matches Some(s) && s@ == create_table_sql()),
        state is Done || state is Failed ==> r is None,
{
    match state {
        InitState::CheckDb => Some("SELECT name FROM sys.databases WHERE name = 'RustCrudApp'"),
        InitState::CreateDb => Some("CREATE DATABASE RustCrudApp"),
        InitState::CreateTable => Some(
            "IF NOT EXISTS (SELECT * FROM RustCrudApp.sys.objects WHERE object_id = OBJECT_ID(N'RustCrudApp.dbo.users') AND type in (N'U')) BEGIN CREATE TABLE RustCrudApp.dbo.users (id INT IDENTITY(1,1) PRIMARY KEY, name NVARCHAR(100) NOT NULL, email NVARCHAR(100) NOT NULL, created_at DATETIME2 DEFAULT GETDATE()); END",
        ),
        InitState::Done(_) => None,
        InitState::Failed(_) => None,
    }
}

/// One step of the initializer: from the current state and the round
/// trip's outcome to the next state. A found database skips its
/// creation; a missing one is created first; the final step issues the
/// guarded create-table statement; any failure ends the run with the
/// database's message behind a fixed prefix.
pub fn init_step(state: InitState, outcome: QueryOutcome) -> (r: InitState)
    requires
        state is CheckDb || state is CreateDb || state is CreateTable,
        state is CheckDb ==> !(outcome is Succeeded),
        state is CreateDb || state is CreateTable ==> (outcome is Succeeded || outcome is Error),
    ensures
        state is CheckDb && outcome is RowFound ==> r is CreateTable,
        state is CheckDb && outcome is NoRow ==> r is CreateDb,
        state is CheckDb ==> (outcome matches QueryOutcome::Error(e) ==> (r matches
            InitState::Failed(m) && m@ == "Failed to check DB: "@ + e@)),
        state is CreateDb && outcome is Succeeded ==> r is CreateTable,
        state is CreateDb ==> (outcome matches QueryOutcome::Error(e) ==> (r matches
            InitState::Failed(m) && m@ == "Failed to create DB: "@ + e@)),
        state is CreateTable && outcome is Succeeded ==> (r matches InitState::Done(m) && m@
            == "Database and table initialized successfully"@),
        state is CreateTable ==> (outcome matches QueryOutcome::Error(e) ==> (r matches
            InitState::Failed(m) && m@ == "Failed to create table: "@ + e@)),
{
    match (state, outcome) {
        (InitState::CheckDb, QueryOutcome::RowFound) => InitState::CreateTable,
        (InitState::CheckDb, QueryOutcome::NoRow) => InitState::CreateDb,
        (InitState::CheckDb, QueryOutcome::Error(e)) => InitState::Failed(
            String::from_str("Failed to check DB: ").concat(e.as_str()),
        ),
        (InitState::CreateDb, QueryOutcome::Error(e)) => InitState::Failed(
            String::from_str("Failed to create DB: ").concat(e.as_str()),
        ),
        (InitState::CreateTable, QueryOutcome::Error(e)) => InitState::Failed(
            String::from_str("Failed to create table: ").concat(e.as_str()),
        ),
        (InitState::CreateDb, _) => InitState::CreateTable,
        (InitState::CreateTable, _) => InitState::Done(
            String::from_str("Database and table initialized successfully"),
        ),
        (s, _) => s,
    }
}

/// Mathematical view of the server catalog: whether the application
/// database exists, and how many `users` tables it holds.
pub struct CatalogView {
    pub has_db: bool,
    pub tables: nat,
}

/// Effect of the create-database statement on the catalog.
pub open spec fn spec_apply_create_db(c: CatalogView) -> CatalogView {
    CatalogView { has_db: true, tables: c.tables }
}

/// Effect of the guarded create-table statement: a table appears only
/// when none exists.
pub open spec fn spec_apply_create_table(c: CatalogView) -> CatalogView {
    CatalogView {
        has_db: c.has_db,
        tables: if c.tables == 0 {
            1nat
        } else {
            c.tables
        },
    }
}

/// One full failure-free run of the initializer against a catalog: the
/// database is created only when the check finds none, then the guarded
/// create-table statement runs.
pub open spec fn spec_init(c: CatalogView) -> CatalogView {
    if c.has_db {
        spec_apply_create_table(c)
    } else {
        spec_apply_create_table(spec_apply_create_db(c))
    }
}

/// The executable model of the server catalog, mirroring `CatalogView`.
pub struct Catalog {
    pub has_db: bool,
    pub tables: u32,
}

impl View for Catalog {
    type V = CatalogView;

    open spec fn view(&self) -> CatalogView {
        CatalogView { has_db: self.has_db, tables: self.tables as nat }
    }
}

/// One full failure-free run of the initializer, driven against the
/// catalog model: the check's outcome comes from the catalog, each
/// statement applies its effect, and the run always ends with the
/// success message — repeating it can therefore never produce an error.
pub fn run_init(cat: &mut Catalog) -> (r: InitState)
    ensures
        final(cat)@ == spec_init(old(cat)@),
        (r matches InitState::Done(m) && m@ == "Database and table initialized successfully"@),
{
    let outcome = if cat.has_db {
        QueryOutcome::RowFound
    } else {
        QueryOutcome::NoRow
    };
    let mut state = init_step(InitState::CheckDb, outcome);
    state = match state {
        InitState::CreateDb => {
            cat.has_db = true;
            init_step(InitState::CreateDb, QueryOutcome::Succeeded)
        },
        s => s,
    };
    if cat.tables == 0 {
        cat.tables = 1;
    }
    init_step(state, QueryOutcome::Succeeded)
}

/// Law: the initializer is idempotent. A second failure-free run leaves
/// the catalog exactly as the first left it (so it reports success, not
/// an error), the database then exists, and a server that started with
/// at most one `users` table ends with exactly one.
pub proof fn lemma_init_idempotent(c: CatalogView)
    ensures
        spec_init(spec_init(c)) == spec_init(c),
        spec_init(c).has_db,
        spec_init(c).tables >= 1,
        c.tables <= 1 ==> spec_init(c).tables == 1,
{
}

} // verus!
