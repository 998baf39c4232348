use backend::plan::create_user_plan;
use backend::plan::delete_user_plan;
use backend::plan::fetch_user_plan;
use backend::plan::list_users_plan;
use backend::plan::update_user_plan;
use backend::plan::SqlParam;
use backend::response::db_error_response;
use backend::response::delete_response;
use backend::response::init_response;
use backend::response::list_response;
use backend::response::user_response;
use backend::response::INTERNAL_SERVER_ERROR;
use backend::response::NO_CONTENT;
use backend::schema::InitState;
use backend::CreateUser;
use backend::UpdateUser;
use backend::User;

fn text_of(p: &SqlParam) -> &str {
    match p {
        SqlParam::Text(s) => s,
        SqlParam::Int(_) => panic!("expected a text parameter"),
    }
}

fn int_of(p: &SqlParam) -> i32 {
    match p {
        SqlParam::Int(i) => *i,
        SqlParam::Text(_) => panic!("expected an integer parameter"),
    }
}

#[test]
fn list_plan_selects_all_rows() {
    let (sql, params) = list_users_plan();
    assert_eq!(
        sql,
        "SELECT id, name, email, CONVERT(VARCHAR, created_at, 120) as created_at FROM users"
    );
    assert!(params.is_empty());
}

#[test]
fn create_plan_binds_name_then_email() {
    let input = CreateUser { name: "Ada".to_string(), email: "ada@example.com".to_string() };
    let (sql, params) = create_user_plan(&input);
    assert_eq!(sql, "INSERT INTO users (name, email) OUTPUT INSERTED.id VALUES (@p1, @p2)");
    assert_eq!(params.len(), 2);
    assert_eq!(text_of(&params[0]), "Ada");
    assert_eq!(text_of(&params[1]), "ada@example.com");
}

#[test]
fn fetch_plan_binds_the_id() {
    let (sql, params) = fetch_user_plan(42);
    assert_eq!(
        sql,
        "SELECT id, name, email, CONVERT(VARCHAR, created_at, 120) as created_at FROM users WHERE id = @p1"
    );
    assert_eq!(params.len(), 1);
    assert_eq!(int_of(&params[0]), 42);
}

#[test]
fn update_plan_binds_fields_then_id() {
    let input = UpdateUser { name: "Ada L.".to_string(), email: "ada@example.com".to_string() };
    let (sql, params) = update_user_plan(1, &input);
    assert_eq!(sql, "UPDATE users SET name = @p1, email = @p2 WHERE id = @p3");
    assert_eq!(params.len(), 3);
    assert_eq!(text_of(&params[0]), "Ada L.");
    assert_eq!(text_of(&params[1]), "ada@example.com");
    assert_eq!(int_of(&params[2]), 1);
}

#[test]
fn delete_plan_binds_the_id() {
    let (sql, params) = delete_user_plan(999);
    assert_eq!(sql, "DELETE FROM users WHERE id = @p1");
    assert_eq!(params.len(), 1);
    assert_eq!(int_of(&params[0]), 999);
}

#[test]
fn every_database_failure_is_one_server_error() {
    let (code, msg) = db_error_response("connection reset".to_string());
    assert_eq!(code, INTERNAL_SERVER_ERROR);
    assert_eq!(code, 500);
    assert_eq!(msg, "connection reset");
}

#[test]
fn list_outcome_maps_to_rows_or_error() {
    let rows = vec![User {
        id: 1,
        name: "Ada".to_string(),
        email: "ada@example.com".to_string(),
        created_at: Some("2024-01-01 00:00:00".to_string()),
    }];
    match list_response(Ok(rows)) {
        Ok(users) => {
            assert_eq!(users.len(), 1);
            assert_eq!(users[0].name, "Ada");
        },
        Err(_) => panic!("expected rows"),
    }
    match list_response(Err("timeout".to_string())) {
        Ok(_) => panic!("expected an error"),
        Err((code, msg)) => {
            assert_eq!(code, 500);
            assert_eq!(msg, "timeout");
        },
    }
}

#[test]
fn refetched_row_maps_to_user_or_error() {
    let user = User {
        id: 1,
        name: "Ada".to_string(),
        email: "ada@example.com".to_string(),
        created_at: Some("2024-01-01 00:00:00".to_string()),
    };
    match user_response(Ok(user)) {
        Ok(u) => assert_eq!(u.id, 1),
        Err(_) => panic!("expected a user"),
    }
    match user_response(Err("no rows returned".to_string())) {
        Ok(_) => panic!("expected an error"),
        Err((code, msg)) => {
            assert_eq!(code, 500);
            assert_eq!(msg, "no rows returned");
        },
    }
}

#[test]
fn delete_outcome_is_no_content_or_error() {
    match delete_response(Ok(())) {
        Ok(code) => {
            assert_eq!(code, NO_CONTENT);
            assert_eq!(code, 204);
        },
        Err(_) => panic!("expected empty success"),
    }
    match delete_response(Err("deadlock".to_string())) {
        Ok(_) => panic!("expected an error"),
        Err((code, msg)) => {
            assert_eq!(code, 500);
            assert_eq!(msg, "deadlock");
        },
    }
}

#[test]
fn initializer_end_states_map_to_responses() {
    match init_response(InitState::Done("Database and table initialized successfully".to_string()))
    {
        Ok(m) => assert_eq!(m, "Database and table initialized successfully"),
        Err(_) => panic!("expected success"),
    }
    match init_response(InitState::Failed("Failed to check DB: boom".to_string())) {
        Ok(_) => panic!("expected an error"),
        Err((code, msg)) => {
            assert_eq!(code, 500);
            assert_eq!(msg, "Failed to check DB: boom");
        },
    }
}
