//! The mapping from resource operations to parameterized SQL.
//!
//! Each of the four handlers issues fixed statement text with positional
//! placeholders and binds its inputs in a fixed order; nothing from the
//! request is ever spliced into the statement text itself. The functions
//! here produce exactly that text and that parameter list.

use vstd::prelude::*;

use crate::models::CreateUser;
use crate::models::UpdateUser;

verus! {

/// Mathematical view of one bound parameter.
pub enum ParamView {
    Int(int),
    Text(Seq<char>),
}

/// One bound statement parameter: the row id, or a text field.
pub enum SqlParam {
    Int(i32),
    Text(String),
}

impl View for SqlParam {
    type V = ParamView;

    open spec fn view(&self) -> ParamView {
        match self {
            SqlParam::Int(i) => ParamView::Int(*i as int),
            SqlParam::Text(s) => ParamView::Text(s@),
        }
    }
}

/// Statement text of a list: every row, with the timestamp projected to
/// a fixed textual format.
pub open spec fn select_users_sql() -> Seq<char> {
    "SELECT id, name, email, CONVERT(VARCHAR, created_at, 120) as created_at FROM users"@
}

/// Statement text of a fetch-one by id, same projection as the list.
pub open spec fn select_user_by_id_sql() -> Seq<char> {
    "SELECT id, name, email, CONVERT(VARCHAR, created_at, 120) as created_at FROM users WHERE id = @p1"@
}

/// Statement text of an insert that hands back the generated id.
pub open spec fn insert_user_sql() -> Seq<char> {
    "INSERT INTO users (name, email) OUTPUT INSERTED.id VALUES (@p1, @p2)"@
}

/// Statement text of an update overwriting both mutable fields.
pub open spec fn update_user_sql() -> Seq<char> {
    "UPDATE users SET name = @p1, email = @p2 WHERE id = @p3"@
}

/// Statement text of a delete by id.
pub open spec fn delete_user_sql() -> Seq<char> {
    "DELETE FROM users WHERE id = @p1"@
}

/// The list operation: the select-all statement, no parameters.
pub fn list_users_plan() -> (r: (&'static str, Vec<SqlParam>))
    ensures
        r.0@ == select_users_sql(),
        r.1@.len() == 0,
{
    ("SELECT id, name, email, CONVERT(VARCHAR, created_at, 120) as created_at FROM users", Vec::new())
}

/// The insert step of a create: the payload's name and email bound in
/// that order.
pub fn create_user_plan(input: &CreateUser) -> (r: (&'static str, Vec<SqlParam>))
    ensures
        r.0@ == insert_user_sql(),
        r.1@.len() == 2,
        r.1@[0]@ == ParamView::Text(input@.0),
        r.1@[1]@ == ParamView::Text(input@.1),
{
    let mut params: Vec<SqlParam> = Vec::new();
    params.push(SqlParam::Text(input.name.clone()));
    params.push(SqlParam::Text(input.email.clone()));
    ("INSERT INTO users (name, email) OUTPUT INSERTED.id VALUES (@p1, @p2)", params)
}

/// The re-fetch step of a create or update: the row's id bound.
pub fn fetch_user_plan(id: i32) -> (r: (&'static str, Vec<SqlParam>))
    ensures
        r.0@ == select_user_by_id_sql(),
        r.1@.len() == 1,
        r.1@[0]@ == ParamView::Int(id as int),
{
    let mut params: Vec<SqlParam> = Vec::new();
    params.push(SqlParam::Int(id));
    (
        "SELECT id, name, email, CONVERT(VARCHAR, created_at, 120) as created_at FROM users WHERE id = @p1",
        params,
    )
}

/// The update operation: both fields then the path-carried id, in
/// placeholder order.
pub fn update_user_plan(id: i32, input: &UpdateUser) -> (r: (&'static str, Vec<SqlParam>))
    ensures
        r.0@ == update_user_sql(),
        r.1@.len() == 3,
        r.1@[0]@ == ParamView::Text(input@.0),
        r.1@[1]@ == ParamView::Text(input@.1),
        r.1@[2]@ == ParamView::Int(id as int),
{
    let mut params: Vec<SqlParam> = Vec::new();
    params.push(SqlParam::Text(input.name.clone()));
    params.push(SqlParam::Text(input.email.clone()));
    params.push(SqlParam::Int(id));
    ("UPDATE users SET name = @p1, email = @p2 WHERE id = @p3", params)
}

/// The delete operation: the path-carried id bound.
pub fn delete_user_plan(id: i32) -> (r: (&'static str, Vec<SqlParam>))
    ensures
        r.0@ == delete_user_sql(),
        r.1@.len() == 1,
        r.1@[0]@ == ParamView::Int(id as int),
{
    let mut params: Vec<SqlParam> = Vec::new();
    params.push(SqlParam::Int(id));
    ("DELETE FROM users WHERE id = @p1", params)
}

} // verus!
