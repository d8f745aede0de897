use crate::table::{
    deleted, insert_error, inserted, patched, StoreError, TableModel, MAX_TASK_ID,
};
use crate::task::{PatchModel, TaskModel};
use vstd::prelude::*;

verus! {

/// Creating a task in an empty table, then listing, yields exactly that task
/// with the name and priority given, under a fresh positive id.
pub proof fn lemma_create_then_list(m: TableModel, name: Seq<char>, priority: Option<i32>)
    requires
        m.wf(),
        m.rows.len() == 0,
        m.next_id <= MAX_TASK_ID,
    ensures
        insert_error(m, Some(name)) is None,
        inserted(m, name, priority).rows.len() == 1,
        inserted(m, name, priority).rows[0] == (TaskModel { task_id: m.next_id as i32, name, priority }),
        inserted(m, name, priority).rows[0].task_id > 0,
{
}

/// In a well-formed table no two rows share an id.
pub proof fn lemma_ids_unique(m: TableModel)
    requires
        m.wf(),
    ensures
        forall|i: int, j: int|
            0 <= i < m.rows.len() && 0 <= j < m.rows.len() && i != j
                ==> m.rows[i].task_id != m.rows[j].task_id,
{
    assert forall|i: int, j: int|
        0 <= i < m.rows.len() && 0 <= j < m.rows.len() && i != j implies m.rows[i].task_id
            != m.rows[j].task_id by {
        if i < j {
            assert(m.rows[i].task_id < m.rows[j].task_id);
        } else {
            assert(m.rows[j].task_id < m.rows[i].task_id);
        }
    }
}

/// Creating, updating and deleting keep ids positive and ascending, so a
/// listing stays in ascending id order; a created task's id is larger than
/// every id in the table before.
pub proof fn lemma_operations_keep_ids_ascending(
    m: TableModel,
    name: Seq<char>,
    priority: Option<i32>,
    id: i32,
    p: PatchModel,
)
    requires
        m.wf(),
    ensures
        m.next_id <= MAX_TASK_ID ==> inserted(m, name, priority).wf(),
        forall|i: int| 0 <= i < m.rows.len() ==> #[trigger] m.rows[i].task_id < m.next_id,
        patched(m, id, p).wf(),
        deleted(m, id).wf(),
{
    let u = patched(m, id, p);
    assert forall|i: int| 0 <= i < u.rows.len() implies #[trigger] u.rows[i].task_id
        == m.rows[i].task_id by {}
    if m.has_id(id) {
        let k = m.index_of(id);
        let d = deleted(m, id);
        assert forall|a: int, b: int| 0 <= a < b < d.rows.len() implies d.rows[a].task_id
            < d.rows[b].task_id by {
            let a0 = if a < k { a } else { a + 1 };
            let b0 = if b < k { b } else { b + 1 };
            assert(d.rows[a] == m.rows[a0]);
            assert(d.rows[b] == m.rows[b0]);
        }
        assert forall|i: int| 0 <= i < d.rows.len() implies 1 <= #[trigger] d.rows[i].task_id
            < d.next_id by {
            let i0 = if i < k { i } else { i + 1 };
            assert(d.rows[i] == m.rows[i0]);
        }
    }
}

/// An update that supplies only the priority leaves every name as it was; one
/// that supplies only the name leaves every priority as it was. Either one sets
/// its field on the task it names and leaves the other tasks alone.
pub proof fn lemma_update_one_field(m: TableModel, id: i32, name: Seq<char>, priority: i32)
    requires
        m.wf(),
    ensures
        ({
            let u = patched(m, id, PatchModel { name: None, priority: Some(priority) });
            &&& u.rows.len() == m.rows.len()
            &&& forall|i: int| 0 <= i < m.rows.len() ==> (#[trigger] u.rows[i]).name == m.rows[i].name
                && u.rows[i].task_id == m.rows[i].task_id
                && u.rows[i].priority == (if m.rows[i].task_id == id {
                    Some(priority)
                } else {
                    m.rows[i].priority
                })
        }),
        ({
            let u = patched(m, id, PatchModel { name: Some(name), priority: None });
            &&& u.rows.len() == m.rows.len()
            &&& forall|i: int| 0 <= i < m.rows.len() ==> (#[trigger] u.rows[i]).priority
                == m.rows[i].priority
                && u.rows[i].task_id == m.rows[i].task_id
                && u.rows[i].name == (if m.rows[i].task_id == id {
                    name
                } else {
                    m.rows[i].name
                })
        }),
{
}

/// Deleting a task twice leaves the table as deleting it once did, and the
/// task is no longer listed.
pub proof fn lemma_delete_twice(m: TableModel, id: i32)
    requires
        m.wf(),
    ensures
        deleted(deleted(m, id), id) == deleted(m, id),
        !deleted(m, id).has_id(id),
{
    lemma_ids_unique(m);
    if m.has_id(id) {
        let k = m.index_of(id);
        let d = deleted(m, id);
        assert forall|i: int| 0 <= i < d.rows.len() implies #[trigger] d.rows[i].task_id != id by {
            let i0 = if i < k { i } else { i + 1 };
            assert(d.rows[i] == m.rows[i0]);
        }
    }
}

/// Updating an id that no task has changes nothing.
pub proof fn lemma_update_missing_id(m: TableModel, id: i32, p: PatchModel)
    requires
        !m.has_id(id),
    ensures
        patched(m, id, p) == m,
{
    assert(patched(m, id, p).rows =~= m.rows);
}

/// Creating a task without a name never succeeds: the store refuses it.
pub proof fn lemma_create_without_name(m: TableModel)
    ensures
        insert_error(m, None) is Some,
        m.next_id <= MAX_TASK_ID ==> insert_error(m, None) == Some(StoreError::NameMissing),
{
}

} // verus!
