use task_service::envelope::{respond_created, respond_done, respond_rows, Response};
use task_service::service::{create_task, delete_task, get_tasks, update_task};
use task_service::table::{StoreError, TaskTable};
use task_service::task::{NewTask, Task, TaskPatch};

fn new_task(name: &str, priority: Option<i32>) -> NewTask {
    NewTask { name: Some(name.to_string()), priority }
}

fn ok() -> Response {
    Response { status: 200, body: "{\"success\":true}".to_string() }
}

const NOT_NULL: &str = "error returned from database: null value in column \\\"name\\\" of relation \\\"tasks\\\" violates not-null constraint";

#[test]
fn create_then_list_has_one_entry() {
    let mut t = TaskTable::new();
    let r = create_task(&mut t, new_task("a", Some(5)));
    assert_eq!(r.status, 201);
    assert_eq!(r.body, "{\"data\":{\"task_id\":1},\"success\":true}");
    let rows = t.list();
    assert_eq!(rows.len(), 1);
    assert_eq!(rows[0], Task { task_id: 1, name: "a".to_string(), priority: Some(5) });
    assert!(rows[0].task_id > 0);
    let l = get_tasks(&t);
    assert_eq!(l.status, 200);
    assert_eq!(l.body, "{\"data\":[{\"name\":\"a\",\"priority\":5,\"task_id\":1}],\"success\":true}");
}

#[test]
fn ids_unique_and_ascending() {
    let mut t = TaskTable::new();
    for n in ["x", "y", "z"] {
        create_task(&mut t, new_task(n, None));
    }
    delete_task(&mut t, 2);
    let r = create_task(&mut t, new_task("w", Some(1)));
    assert_eq!(r.body, "{\"data\":{\"task_id\":4},\"success\":true}");
    let ids: Vec<i32> = t.list().iter().map(|r| r.task_id).collect();
    assert_eq!(ids, vec![1, 3, 4]);
    assert_eq!(
        get_tasks(&t).body,
        "{\"data\":[{\"name\":\"x\",\"priority\":null,\"task_id\":1},{\"name\":\"z\",\"priority\":null,\"task_id\":3},{\"name\":\"w\",\"priority\":1,\"task_id\":4}],\"success\":true}"
    );
}

#[test]
fn update_priority_only_keeps_name() {
    let mut t = TaskTable::new();
    create_task(&mut t, new_task("a", Some(5)));
    let r = update_task(&mut t, 1, &TaskPatch { name: None, priority: Some(9) });
    assert_eq!(r, ok());
    assert_eq!(t.list()[0], Task { task_id: 1, name: "a".to_string(), priority: Some(9) });
}

#[test]
fn update_name_only_keeps_priority() {
    let mut t = TaskTable::new();
    create_task(&mut t, new_task("a", Some(5)));
    create_task(&mut t, new_task("b", None));
    let r = update_task(&mut t, 1, &TaskPatch { name: Some("c".to_string()), priority: None });
    assert_eq!(r, ok());
    assert_eq!(t.list()[0], Task { task_id: 1, name: "c".to_string(), priority: Some(5) });
    assert_eq!(t.list()[1], Task { task_id: 2, name: "b".to_string(), priority: None });
}

#[test]
fn update_both_fields() {
    let mut t = TaskTable::new();
    create_task(&mut t, new_task("a", None));
    update_task(&mut t, 1, &TaskPatch { name: Some("b".to_string()), priority: Some(-3) });
    assert_eq!(
        get_tasks(&t).body,
        "{\"data\":[{\"name\":\"b\",\"priority\":-3,\"task_id\":1}],\"success\":true}"
    );
}

#[test]
fn delete_twice_reports_success() {
    let mut t = TaskTable::new();
    create_task(&mut t, new_task("a", Some(5)));
    assert_eq!(delete_task(&mut t, 1), ok());
    assert_eq!(delete_task(&mut t, 1), ok());
    assert!(t.list().is_empty());
    assert_eq!(get_tasks(&t).body, "{\"data\":[],\"success\":true}");
}

#[test]
fn update_missing_id_reports_success() {
    let mut t = TaskTable::new();
    create_task(&mut t, new_task("a", Some(5)));
    let r = update_task(&mut t, 42, &TaskPatch { name: Some("b".to_string()), priority: Some(1) });
    assert_eq!(r, ok());
    assert_eq!(t.list().len(), 1);
    assert_eq!(t.list()[0], Task { task_id: 1, name: "a".to_string(), priority: Some(5) });
}

#[test]
fn table_counts_affected_rows() {
    let mut t = TaskTable::new();
    assert_eq!(t.insert(new_task("a", None)), Ok(1));
    assert_eq!(t.update(1, &TaskPatch { name: None, priority: Some(2) }), 1);
    assert_eq!(t.update(5, &TaskPatch { name: None, priority: Some(2) }), 0);
    assert_eq!(t.delete(5), 0);
    assert_eq!(t.delete(1), 1);
    assert_eq!(t.delete(1), 0);
}

#[test]
fn create_without_name_fails() {
    let mut t = TaskTable::new();
    let r = create_task(&mut t, NewTask { name: None, priority: Some(5) });
    assert_eq!(r.status, 500);
    assert_eq!(r.body, format!("{{\"message\":\"{}\",\"success\":false}}", NOT_NULL));
    assert!(r.body.contains("\"success\":false"));
    assert!(t.list().is_empty());
    let next = create_task(&mut t, new_task("a", None));
    assert_eq!(next.body, "{\"data\":{\"task_id\":1},\"success\":true}");
}

#[test]
fn store_error_messages() {
    assert_eq!(
        StoreError::NameMissing.message(),
        "error returned from database: null value in column \"name\" of relation \"tasks\" violates not-null constraint"
    );
    assert_eq!(
        StoreError::IdsExhausted.message(),
        "error returned from database: nextval: reached maximum value of sequence \"tasks_task_id_seq\" (2147483647)"
    );
    let mut t = TaskTable::new();
    assert_eq!(t.insert(NewTask { name: None, priority: None }), Err(StoreError::NameMissing));
}

#[test]
fn outcome_errors_become_failure_envelopes() {
    let msg = "pool timed out".to_string();
    let expected = Response {
        status: 500,
        body: "{\"message\":\"pool timed out\",\"success\":false}".to_string(),
    };
    assert_eq!(respond_rows(&Err(msg.clone())), expected);
    assert_eq!(respond_created(&Err(msg.clone())), expected);
    assert_eq!(respond_done(&Err(msg)), expected);
}

#[test]
fn outcome_successes() {
    assert_eq!(respond_done(&Ok(0)), ok());
    assert_eq!(
        respond_created(&Ok(-7)),
        Response { status: 201, body: "{\"data\":{\"task_id\":-7},\"success\":true}".to_string() }
    );
    let rows = vec![Task { task_id: 2147483647, name: "é".to_string(), priority: Some(-2147483648) }];
    assert_eq!(
        respond_rows(&Ok(rows)).body,
        "{\"data\":[{\"name\":\"é\",\"priority\":-2147483648,\"task_id\":2147483647}],\"success\":true}"
    );
}
