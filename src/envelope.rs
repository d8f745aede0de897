use crate::json::{int_json, int_text, json_string, quote};
use crate::table::models;
use crate::task::{Task, TaskModel};
use vstd::prelude::*;

verus! {

pub const STATUS_OK: u16 = 200;

pub const STATUS_CREATED: u16 = 201;

pub const STATUS_INTERNAL_ERROR: u16 = 500;

/// An HTTP answer: a status code and a JSON envelope
/// `{"data": ..., "message": ..., "success": ...}` with its keys in sorted order.
#[derive(Clone, Debug, PartialEq, Eq)]
pub struct Response {
    pub status: u16,
    pub body: String,
}

pub open spec fn priority_json(p: Option<i32>) -> Seq<char> {
    match p {
        Some(v) => int_text(v as int),
        None => "null"@,
    }
}

/// One task as a JSON object.
pub open spec fn task_json(t: TaskModel) -> Seq<char> {
    "{\"name\":"@ + json_string(t.name) + ",\"priority\":"@ + priority_json(t.priority)
        + ",\"task_id\":"@ + int_text(t.task_id as int) + "}"@
}

/// The tasks as JSON objects, separated by commas.
pub open spec fn items_json(rows: Seq<TaskModel>) -> Seq<char>
    decreases rows.len(),
{
    if rows.len() == 0 {
        Seq::empty()
    } else if rows.len() == 1 {
        task_json(rows[0])
    } else {
        items_json(rows.drop_last()) + ","@ + task_json(rows.last())
    }
}

pub open spec fn list_body(rows: Seq<TaskModel>) -> Seq<char> {
    "{\"data\":["@ + items_json(rows) + "],\"success\":true}"@
}

pub open spec fn created_body(task_id: i32) -> Seq<char> {
    "{\"data\":{\"task_id\":"@ + int_text(task_id as int) + "},\"success\":true}"@
}

pub open spec fn ok_body() -> Seq<char> {
    "{\"success\":true}"@
}

pub open spec fn error_body(message: Seq<char>) -> Seq<char> {
    "{\"message\":"@ + json_string(message) + ",\"success\":false}"@
}

fn append_task(out: &mut String, t: &Task)
    ensures
        final(out)@ == old(out)@ + task_json(t@),
{
    out.append("{\"name\":");
    let name = quote(t.name.as_str());
    out.append(name.as_str());
    out.append(",\"priority\":");
    match t.priority {
        Some(v) => {
            let p = int_json(v);
            out.append(p.as_str());
        },
        None => out.append("null"),
    }
    out.append(",\"task_id\":");
    let id = int_json(t.task_id);
    out.append(id.as_str());
    out.append("}");
    assert(final(out)@ =~= old(out)@ + task_json(t@));
}

/// 200 with every row, in the order given.
pub fn list_response(rows: &Vec<Task>) -> (r: Response)
    ensures
        r.status == STATUS_OK,
        r.body@ == list_body(models(rows@)),
{
    let mut body = String::from_str("{\"data\":[");
    let ghost head = body@;
    let mut i: usize = 0;
    while i < rows.len()
        invariant
            i <= rows@.len(),
            body@ == head + items_json(models(rows@).take(i as int)),
        decreases rows.len() - i,
    {
        let ghost ms = models(rows@);
        let ghost before = body@;
        if i > 0 {
            body.append(",");
        }
        append_task(&mut body, &rows[i]);
        proof {
            let next = ms.take(i + 1);
            assert(next.drop_last() =~= ms.take(i as int));
            assert(next.last() == rows@[i as int]@);
            if i == 0 {
                assert(ms.take(0) =~= Seq::<TaskModel>::empty());
                assert(next[0] == rows@[0]@);
            }
            assert(body@ =~= head + items_json(next));
        }
        i += 1;
    }
    body.append("],\"success\":true}");
    assert(models(rows@).take(rows@.len() as int) =~= models(rows@));
    assert(body@ =~= list_body(models(rows@)));
    Response { status: STATUS_OK, body }
}

/// 201 with the id of the new task.
pub fn created_response(task_id: i32) -> (r: Response)
    ensures
        r.status == STATUS_CREATED,
        r.body@ == created_body(task_id),
{
    let mut body = String::from_str("{\"data\":{\"task_id\":");
    let id = int_json(task_id);
    body.append(id.as_str());
    body.append("},\"success\":true}");
    assert(body@ =~= created_body(task_id));
    Response { status: STATUS_CREATED, body }
}

/// 200 with no data.
pub fn ok_response() -> (r: Response)
    ensures
        r.status == STATUS_OK,
        r.body@ == ok_body(),
{
    Response { status: STATUS_OK, body: String::from_str("{\"success\":true}") }
}

/// 500 with the store's message.
pub fn error_response(message: &str) -> (r: Response)
    ensures
        r.status == STATUS_INTERNAL_ERROR,
        r.body@ == error_body(message@),
{
    let mut body = String::from_str("{\"message\":");
    let m = quote(message);
    body.append(m.as_str());
    body.append(",\"success\":false}");
    assert(body@ =~= error_body(message@));
    Response { status: STATUS_INTERNAL_ERROR, body }
}

/// The answer to a list: the rows on success, else the store's message.
pub fn respond_rows(result: &Result<Vec<Task>, String>) -> (r: Response)
    ensures
        match result {
            Ok(rows) => r.status == STATUS_OK && r.body@ == list_body(models(rows@)),
            Err(m) => r.status == STATUS_INTERNAL_ERROR && r.body@ == error_body(m@),
        },
{
    match result {
        Ok(rows) => list_response(rows),
        Err(m) => error_response(m.as_str()),
    }
}

/// The answer to a create: the new id on success, else the store's message.
pub fn respond_created(result: &Result<i32, String>) -> (r: Response)
    ensures
        match result {
            Ok(id) => r.status == STATUS_CREATED && r.body@ == created_body(*id),
            Err(m) => r.status == STATUS_INTERNAL_ERROR && r.body@ == error_body(m@),
        },
{
    match result {
        Ok(id) => created_response(*id),
        Err(m) => error_response(m.as_str()),
    }
}

/// The answer to an update or a delete, given how many rows it affected or
/// the store's message. Zero rows affected is still a success.
pub fn respond_done(result: &Result<u64, String>) -> (r: Response)
    ensures
        match result {
            Ok(_) => r.status == STATUS_OK && r.body@ == ok_body(),
            Err(m) => r.status == STATUS_INTERNAL_ERROR && r.body@ == error_body(m@),
        },
{
    match result {
        Ok(_) => ok_response(),
        Err(m) => error_response(m.as_str()),
    }
}

} // verus!
