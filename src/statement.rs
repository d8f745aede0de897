use crate::task::{opt_text, NewTask, PatchModel, TaskPatch};
use vstd::prelude::*;

verus! {

/// A value bound to a numbered placeholder (`$1`, `$2`, ...) of a statement.
#[derive(Clone, Debug, PartialEq, Eq)]
pub enum Param {
    Int(i32),
    Text(String),
    OptInt(Option<i32>),
    OptText(Option<String>),
}

/// The value of a bound parameter.
pub enum ParamModel {
    Int(i32),
    Text(Seq<char>),
    OptInt(Option<i32>),
    OptText(Option<Seq<char>>),
}

impl View for Param {
    type V = ParamModel;

    open spec fn view(&self) -> ParamModel {
        match self {
            Param::Int(v) => ParamModel::Int(*v),
            Param::Text(s) => ParamModel::Text(s@),
            Param::OptInt(v) => ParamModel::OptInt(*v),
            Param::OptText(s) => ParamModel::OptText(opt_text(*s)),
        }
    }
}

/// SQL text with its parameters, `params[k]` bound to placeholder `$k+1`. User
/// input only ever travels as a parameter, never inside the text.
#[derive(Clone, Debug, PartialEq, Eq)]
pub struct Statement {
    pub sql: String,
    pub params: Vec<Param>,
}

impl Statement {
    pub open spec fn params_view(&self) -> Seq<ParamModel> {
        self.params@.map_values(|p: Param| p@)
    }
}

pub open spec fn list_sql() -> Seq<char> {
    "SELECT * FROM tasks ORDER BY task_id"@
}

pub open spec fn create_sql() -> Seq<char> {
    "INSERT INTO tasks (name, priority) VALUES ($1, $2) RETURNING task_id"@
}

pub open spec fn delete_sql() -> Seq<char> {
    "DELETE FROM tasks WHERE task_id = $1"@
}

/// The update text: one `SET` item for each field that is supplied, numbered
/// in order after the id's `$1`. The id is set to itself so that the list is
/// never empty.
pub open spec fn update_sql(has_name: bool, has_priority: bool) -> Seq<char> {
    "UPDATE tasks SET task_id = $1"@ + (if has_name {
        ", name = $2"@
    } else {
        Seq::empty()
    }) + (if !has_priority {
        Seq::empty()
    } else if has_name {
        ", priority = $3"@
    } else {
        ", priority = $2"@
    }) + " WHERE task_id = $1"@
}

/// The update parameters: the id, then each supplied field in the order of
/// the text.
pub open spec fn update_params(task_id: i32, p: PatchModel) -> Seq<ParamModel> {
    seq![ParamModel::Int(task_id)] + (match p.name {
        Some(n) => seq![ParamModel::Text(n)],
        None => Seq::empty(),
    }) + (match p.priority {
        Some(v) => seq![ParamModel::Int(v)],
        None => Seq::empty(),
    })
}

/// All tasks, by ascending id.
pub fn list_statement() -> (r: Statement)
    ensures
        r.sql@ == list_sql(),
        r.params_view() == Seq::<ParamModel>::empty(),
{
    let r = Statement { sql: String::from_str("SELECT * FROM tasks ORDER BY task_id"), params: Vec::new() };
    assert(r.params_view() =~= Seq::<ParamModel>::empty());
    r
}

/// Inserts one task and returns its id. A missing name is bound as null.
pub fn create_statement(task: &NewTask) -> (r: Statement)
    ensures
        r.sql@ == create_sql(),
        r.params_view() == seq![ParamModel::OptText(opt_text(task.name)), ParamModel::OptInt(task.priority)],
{
    let name = match &task.name {
        Some(n) => Some(n.clone()),
        None => None,
    };
    let mut params: Vec<Param> = Vec::new();
    params.push(Param::OptText(name));
    params.push(Param::OptInt(task.priority));
    let r = Statement {
        sql: String::from_str("INSERT INTO tasks (name, priority) VALUES ($1, $2) RETURNING task_id"),
        params,
    };
    assert(r.params_view() =~= seq![ParamModel::OptText(opt_text(task.name)), ParamModel::OptInt(task.priority)]);
    r
}

/// Updates the supplied fields of one task.
pub fn update_statement(task_id: i32, patch: &TaskPatch) -> (r: Statement)
    ensures
        r.sql@ == update_sql(patch.name is Some, patch.priority is Some),
        r.params_view() == update_params(task_id, patch@),
{
    let mut sql = String::from_str("UPDATE tasks SET task_id = $1");
    let mut params: Vec<Param> = Vec::new();
    params.push(Param::Int(task_id));
    match &patch.name {
        Some(n) => {
            sql.append(", name = $2");
            params.push(Param::Text(n.clone()));
        },
        None => {},
    }
    match patch.priority {
        Some(v) => {
            if patch.name.is_some() {
                sql.append(", priority = $3");
            } else {
                sql.append(", priority = $2");
            }
            params.push(Param::Int(v));
        },
        None => {},
    }
    sql.append(" WHERE task_id = $1");
    let r = Statement { sql, params };
    assert(r.sql@ =~= update_sql(patch.name is Some, patch.priority is Some));
    assert(r.params_view() =~= update_params(task_id, patch@));
    r
}

/// Deletes one task.
pub fn delete_statement(task_id: i32) -> (r: Statement)
    ensures
        r.sql@ == delete_sql(),
        r.params_view() == seq![ParamModel::Int(task_id)],
{
    let mut params: Vec<Param> = Vec::new();
    params.push(Param::Int(task_id));
    let r = Statement { sql: String::from_str("DELETE FROM tasks WHERE task_id = $1"), params };
    assert(r.params_view() =~= seq![ParamModel::Int(task_id)]);
    r
}

} // verus!
