use task_service::envelope::{created_response, error_response, list_response, ok_response};
use task_service::task::Task;

#[test]
fn error_message_is_escaped() {
    let r = error_response("say \"hi\"\\\n\t\r\u{8}\u{c}\u{1}\u{1f}\u{7f}");
    assert_eq!(r.status, 500);
    assert_eq!(
        r.body,
        "{\"message\":\"say \\\"hi\\\"\\\\\\n\\t\\r\\b\\f\\u0001\\u001f\u{7f}\",\"success\":false}"
    );
}

#[test]
fn empty_message() {
    assert_eq!(error_response("").body, "{\"message\":\"\",\"success\":false}");
}

#[test]
fn names_are_escaped_in_listing() {
    let rows = vec![
        Task { task_id: 1, name: "a\"b".to_string(), priority: None },
        Task { task_id: 10, name: String::new(), priority: Some(0) },
    ];
    let r = list_response(&rows);
    assert_eq!(r.status, 200);
    assert_eq!(
        r.body,
        "{\"data\":[{\"name\":\"a\\\"b\",\"priority\":null,\"task_id\":1},{\"name\":\"\",\"priority\":0,\"task_id\":10}],\"success\":true}"
    );
}

#[test]
fn created_and_ok() {
    let c = created_response(305);
    assert_eq!(c.status, 201);
    assert_eq!(c.body, "{\"data\":{\"task_id\":305},\"success\":true}");
    let o = ok_response();
    assert_eq!(o.status, 200);
    assert_eq!(o.body, "{\"success\":true}");
}
