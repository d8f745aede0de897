use task_service::statement::{create_statement, delete_statement, list_statement, update_statement, Param};
use task_service::task::{NewTask, TaskPatch};

#[test]
fn update_with_both_fields() {
    let s = update_statement(3, &TaskPatch { name: Some("n".to_string()), priority: Some(0) });
    assert_eq!(s.sql, "UPDATE tasks SET task_id = $1, name = $2, priority = $3 WHERE task_id = $1");
    assert_eq!(s.params, vec![Param::Int(3), Param::Text("n".to_string()), Param::Int(0)]);
}

#[test]
fn update_with_priority_only() {
    let s = update_statement(3, &TaskPatch { name: None, priority: Some(-1) });
    assert_eq!(s.sql, "UPDATE tasks SET task_id = $1, priority = $2 WHERE task_id = $1");
    assert_eq!(s.params, vec![Param::Int(3), Param::Int(-1)]);
}

#[test]
fn update_with_name_only() {
    let s = update_statement(8, &TaskPatch { name: Some("x'; DROP TABLE tasks".to_string()), priority: None });
    assert_eq!(s.sql, "UPDATE tasks SET task_id = $1, name = $2 WHERE task_id = $1");
    assert_eq!(s.params, vec![Param::Int(8), Param::Text("x'; DROP TABLE tasks".to_string())]);
}

#[test]
fn update_with_nothing() {
    let s = update_statement(8, &TaskPatch { name: None, priority: None });
    assert_eq!(s.sql, "UPDATE tasks SET task_id = $1 WHERE task_id = $1");
    assert_eq!(s.params, vec![Param::Int(8)]);
}

#[test]
fn other_statements() {
    let l = list_statement();
    assert_eq!(l.sql, "SELECT * FROM tasks ORDER BY task_id");
    assert!(l.params.is_empty());
    let c = create_statement(&NewTask { name: Some("a".to_string()), priority: Some(5) });
    assert_eq!(c.sql, "INSERT INTO tasks (name, priority) VALUES ($1, $2) RETURNING task_id");
    assert_eq!(c.params, vec![Param::OptText(Some("a".to_string())), Param::OptInt(Some(5))]);
    let c = create_statement(&NewTask { name: None, priority: None });
    assert_eq!(c.params, vec![Param::OptText(None), Param::OptInt(None)]);
    let d = delete_statement(4);
    assert_eq!(d.sql, "DELETE FROM tasks WHERE task_id = $1");
    assert_eq!(d.params, vec![Param::Int(4)]);
}
