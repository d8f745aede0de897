use crate::envelope::{
    created_body, error_body, list_body, list_response, ok_body, respond_created, respond_done,
    Response, STATUS_CREATED, STATUS_INTERNAL_ERROR, STATUS_OK,
};
use crate::table::{deleted, insert_error, inserted, patched, store_error_text, TaskTable};
use crate::task::{opt_text, NewTask, TaskPatch};
use vstd::prelude::*;

verus! {

/// `GET /tasks`: every task, by ascending id.
pub fn get_tasks(table: &TaskTable) -> (r: Response)
    requires
        table.wf(),
    ensures
        r.status == STATUS_OK,
        r.body@ == list_body(table@.rows),
{
    list_response(table.list())
}

/// `POST /tasks`: inserts the task and answers with its id, or with the
/// store's refusal.
pub fn create_task(table: &mut TaskTable, task: NewTask) -> (r: Response)
    requires
        old(table).wf(),
    ensures
        final(table).wf(),
        match insert_error(old(table)@, opt_text(task.name)) {
            None => r.status == STATUS_CREATED
                && r.body@ == created_body(old(table)@.next_id as i32)
                && final(table)@ == inserted(old(table)@, task.name->Some_0@, task.priority),
            Some(e) => r.status == STATUS_INTERNAL_ERROR
                && r.body@ == error_body(store_error_text(e))
                && final(table)@ == old(table)@,
        },
{
    let outcome = match table.insert(task) {
        Ok(id) => Ok(id),
        Err(e) => Err(e.message()),
    };
    respond_created(&outcome)
}

/// `PATCH /tasks/{task_id}`: sets the supplied fields. Success does not
/// depend on whether the task exists.
pub fn update_task(table: &mut TaskTable, task_id: i32, patch: &TaskPatch) -> (r: Response)
    requires
        old(table).wf(),
    ensures
        final(table).wf(),
        final(table)@ == patched(old(table)@, task_id, patch@),
        r.status == STATUS_OK,
        r.body@ == ok_body(),
{
    let n = table.update(task_id, patch);
    respond_done(&Ok(n))
}

/// `DELETE /tasks/{task_id}`: removes the task. Success does not depend on
/// whether the task exists.
pub fn delete_task(table: &mut TaskTable, task_id: i32) -> (r: Response)
    requires
        old(table).wf(),
    ensures
        final(table).wf(),
        final(table)@ == deleted(old(table)@, task_id),
        r.status == STATUS_OK,
        r.body@ == ok_body(),
{
    let n = table.delete(task_id);
    respond_done(&Ok(n))
}

} // verus!
