use backend::schema::init_statement;
use backend::schema::init_step;
use backend::schema::run_init;
use backend::schema::Catalog;
use backend::schema::InitState;
use backend::schema::QueryOutcome;

#[test]
fn statements_per_state() {
    assert_eq!(
        init_statement(&InitState::CheckDb),
        Some("SELECT name FROM sys.databases WHERE name = 'RustCrudApp'")
    );
    assert_eq!(init_statement(&InitState::CreateDb), Some("CREATE DATABASE RustCrudApp"));
    let table = init_statement(&InitState::CreateTable).expect("statement");
    assert!(table.starts_with("IF NOT EXISTS"));
    assert!(table.contains("CREATE TABLE RustCrudApp.dbo.users"));
    assert!(table.contains("id INT IDENTITY(1,1) PRIMARY KEY"));
    assert!(table.contains("created_at DATETIME2 DEFAULT GETDATE()"));
    assert_eq!(init_statement(&InitState::Done("ok".to_string())), None);
    assert_eq!(init_statement(&InitState::Failed("no".to_string())), None);
}

#[test]
fn run_on_fresh_server_creates_db_then_table() {
    let s = init_step(InitState::CheckDb, QueryOutcome::NoRow);
    assert!(matches!(s, InitState::CreateDb));
    let s = init_step(s, QueryOutcome::Succeeded);
    assert!(matches!(s, InitState::CreateTable));
    let s = init_step(s, QueryOutcome::Succeeded);
    match s {
        InitState::Done(m) => assert_eq!(m, "Database and table initialized successfully"),
        _ => panic!("expected a finished run"),
    }
}

#[test]
fn second_run_skips_database_creation() {
    let s = init_step(InitState::CheckDb, QueryOutcome::RowFound);
    assert!(matches!(s, InitState::CreateTable));
    let s = init_step(s, QueryOutcome::Succeeded);
    match s {
        InitState::Done(m) => assert_eq!(m, "Database and table initialized successfully"),
        _ => panic!("expected a finished run"),
    }
}

#[test]
fn running_the_initializer_twice_errors_never_and_keeps_one_table() {
    let mut cat = Catalog { has_db: false, tables: 0 };
    let first = run_init(&mut cat);
    assert!(matches!(first, InitState::Done(_)));
    assert!(cat.has_db);
    assert_eq!(cat.tables, 1);
    let second = run_init(&mut cat);
    match second {
        InitState::Done(m) => assert_eq!(m, "Database and table initialized successfully"),
        _ => panic!("second run must not fail"),
    }
    assert!(cat.has_db);
    assert_eq!(cat.tables, 1);
}

#[test]
fn failures_carry_prefixed_database_message() {
    let s = init_step(InitState::CheckDb, QueryOutcome::Error("boom".to_string()));
    match s {
        InitState::Failed(m) => assert_eq!(m, "Failed to check DB: boom"),
        _ => panic!("expected a failed run"),
    }
    let s = init_step(InitState::CreateDb, QueryOutcome::Error("down".to_string()));
    match s {
        InitState::Failed(m) => assert_eq!(m, "Failed to create DB: down"),
        _ => panic!("expected a failed run"),
    }
    let s = init_step(InitState::CreateTable, QueryOutcome::Error("denied".to_string()));
    match s {
        InitState::Failed(m) => assert_eq!(m, "Failed to create table: denied"),
        _ => panic!("expected a failed run"),
    }
}
