use crate::task::{apply_patch, opt_text, NewTask, PatchModel, Task, TaskModel, TaskPatch};
use vstd::prelude::*;

verus! {

/// The largest id that the table's id sequence hands out.
pub const MAX_TASK_ID: i64 = 0x7fff_ffff;

/// The value of a tasks table: its rows in storage order, and the id that
/// the next insert receives.
pub struct TableModel {
    pub rows: Seq<TaskModel>,
    pub next_id: int,
}

/// Row ids strictly increase along `rows`.
pub open spec fn ascending(rows: Seq<TaskModel>) -> bool {
    forall|i: int, j: int| 0 <= i < j < rows.len() ==> rows[i].task_id < rows[j].task_id
}

impl TableModel {
    /// Ids are positive, below the next id, and in ascending order (so unique).
    pub open spec fn wf(self) -> bool {
        &&& ascending(self.rows)
        &&& 1 <= self.next_id <= MAX_TASK_ID + 1
        &&& forall|i: int| 0 <= i < self.rows.len() ==> 1 <= #[trigger] self.rows[i].task_id < self.next_id
    }

    pub open spec fn has_id(self, id: i32) -> bool {
        exists|i: int| 0 <= i < self.rows.len() && #[trigger] self.rows[i].task_id == id
    }

    /// The position of the row with id `id`, when there is one.
    pub open spec fn index_of(self, id: i32) -> int {
        choose|i: int| 0 <= i < self.rows.len() && #[trigger] self.rows[i].task_id == id
    }
}

/// Why the store refuses an insert.
#[derive(Clone, Copy, Debug, PartialEq, Eq, Structural)]
pub enum StoreError {
    /// The name column is `NOT NULL` and no name was given.
    NameMissing,
    /// The id sequence has handed out its largest value.
    IdsExhausted,
}

impl StoreError {
    /// The text the store reports for this error.
    pub fn message(&self) -> (r: String)
        ensures
            r@ == store_error_text(*self),
    {
        match self {
            StoreError::NameMissing => String::from_str(
                "error returned from database: null value in column \"name\" of relation \"tasks\" violates not-null constraint",
            ),
            StoreError::IdsExhausted => String::from_str(
                "error returned from database: nextval: reached maximum value of sequence \"tasks_task_id_seq\" (2147483647)",
            ),
        }
    }
}

pub open spec fn store_error_text(e: StoreError) -> Seq<char> {
    match e {
        StoreError::NameMissing => "error returned from database: null value in column \"name\" of relation \"tasks\" violates not-null constraint"@,
        StoreError::IdsExhausted => "error returned from database: nextval: reached maximum value of sequence \"tasks_task_id_seq\" (2147483647)"@,
    }
}

/// Which error, if any, an insert of a task with name `name` meets. The id is
/// drawn before the row's constraints are checked.
pub open spec fn insert_error(m: TableModel, name: Option<Seq<char>>) -> Option<StoreError> {
    if m.next_id > MAX_TASK_ID {
        Some(StoreError::IdsExhausted)
    } else if name is None {
        Some(StoreError::NameMissing)
    } else {
        None
    }
}

/// The table after a successful insert: a new last row under the next id.
pub open spec fn inserted(m: TableModel, name: Seq<char>, priority: Option<i32>) -> TableModel {
    TableModel {
        rows: m.rows.push(TaskModel { task_id: m.next_id as i32, name, priority }),
        next_id: m.next_id + 1,
    }
}

/// The table after an update: the row with id `id`, if any, takes the patch.
pub open spec fn patched(m: TableModel, id: i32, p: PatchModel) -> TableModel {
    TableModel {
        rows: m.rows.map_values(|t: TaskModel| if t.task_id == id { apply_patch(t, p) } else { t }),
        next_id: m.next_id,
    }
}

/// The table after a delete: the row with id `id`, if any, is gone.
pub open spec fn deleted(m: TableModel, id: i32) -> TableModel {
    if m.has_id(id) {
        TableModel { rows: m.rows.remove(m.index_of(id)), next_id: m.next_id }
    } else {
        m
    }
}

/// The rows of `rows` as values.
pub open spec fn models(rows: Seq<Task>) -> Seq<TaskModel> {
    rows.map_values(|t: Task| t@)
}

/// The tasks table, held in memory, with the semantics of the statements
/// that the service sends to its store.
pub struct TaskTable {
    rows: Vec<Task>,
    next_id: i64,
}

impl View for TaskTable {
    type V = TableModel;

    closed spec fn view(&self) -> TableModel {
        TableModel { rows: models(self.rows@), next_id: self.next_id as int }
    }
}

impl TaskTable {
    pub open spec fn wf(&self) -> bool {
        self@.wf()
    }

    /// An empty table whose first id is 1.
    pub fn new() -> (r: TaskTable)
        ensures
            r.wf(),
            r@.rows.len() == 0,
            r@.next_id == 1,
    {
        let r = TaskTable { rows: Vec::new(), next_id: 1 };
        assert(r@.rows =~= Seq::<TaskModel>::empty());
        r
    }

    /// All rows, ordered by ascending id.
    pub fn list(&self) -> (r: &Vec<Task>)
        requires
            self.wf(),
        ensures
            models(r@) == self@.rows,
            ascending(models(r@)),
    {
        &self.rows
    }

    /// The position of the row with id `task_id`.
    fn find(&self, task_id: i32) -> (r: Option<usize>)
        requires
            self.wf(),
        ensures
            match r {
                Some(i) => i < self@.rows.len() && self@.rows[i as int].task_id == task_id
                    && i == self@.index_of(task_id) && self@.has_id(task_id),
                None => !self@.has_id(task_id),
            },
    {
        let mut i: usize = 0;
        while i < self.rows.len()
            invariant
                self.wf(),
                i <= self.rows.len(),
                self@.rows.len() == self.rows@.len(),
                forall|j: int| 0 <= j < i ==> self@.rows[j].task_id != task_id,
            decreases self.rows.len() - i,
        {
            if self.rows[i].task_id == task_id {
                assert(self@.rows[i as int].task_id == task_id);
                let ghost k = self@.index_of(task_id);
                assert(self@.rows[k].task_id == task_id);
                assert(k == i) by {
                    if k < i {
                        assert(self@.rows[k].task_id < self@.rows[i as int].task_id);
                    } else if k > i {
                        assert(self@.rows[i as int].task_id < self@.rows[k].task_id);
                    }
                }
                return Some(i);
            }
            i += 1;
        }
        None
    }

    /// Inserts a row under the next id and returns that id; or refuses, as
    /// `insert_error` says, and leaves the table as it was.
    pub fn insert(&mut self, task: NewTask) -> (r: Result<i32, StoreError>)
        requires
            old(self).wf(),
        ensures
            final(self).wf(),
            match r {
                Ok(id) => insert_error(old(self)@, opt_text(task.name)) is None
                    && id == old(self)@.next_id
                    && final(self)@ == inserted(old(self)@, task.name->Some_0@, task.priority),
                Err(e) => insert_error(old(self)@, opt_text(task.name)) == Some(e)
                    && final(self)@ == old(self)@,
            },
    {
        if self.next_id > MAX_TASK_ID {
            return Err(StoreError::IdsExhausted);
        }
        match task.name {
            None => Err(StoreError::NameMissing),
            Some(name) => {
                let id = self.next_id as i32;
                let ghost before = self@;
                self.rows.push(Task { task_id: id, name, priority: task.priority });
                self.next_id = self.next_id + 1;
                assert(self@.rows =~= before.rows.push(
                    TaskModel { task_id: id, name: task.name->Some_0@, priority: task.priority },
                ));
                Ok(id)
            },
        }
    }
    /// Applies `patch` to the row with id `task_id` and returns how many rows
    /// it changed. An id that no row has changes nothing and is no error.
    pub fn update(&mut self, task_id: i32, patch: &TaskPatch) -> (r: u64)
        requires
            old(self).wf(),
        ensures
            final(self).wf(),
            final(self)@ == patched(old(self)@, task_id, patch@),
            r == (if old(self)@.has_id(task_id) { 1u64 } else { 0u64 }),
    {
        match self.find(task_id) {
            None => {
                assert(patched(self@, task_id, patch@).rows =~= self@.rows);
                0
            },
            Some(i) => {
                let ghost before = self@;
                let name = match &patch.name {
                    Some(n) => n.clone(),
                    None => self.rows[i].name.clone(),
                };
                let priority = match patch.priority {
                    Some(v) => Some(v),
                    None => self.rows[i].priority,
                };
                self.rows.set(i, Task { task_id, name, priority });
                let ghost after = patched(before, task_id, patch@);
                assert forall|j: int| 0 <= j < self@.rows.len() implies self@.rows[j] == after.rows[j] by {
                    if j < i {
                        assert(before.rows[j].task_id < before.rows[i as int].task_id);
                    } else if j > i {
                        assert(before.rows[i as int].task_id < before.rows[j].task_id);
                    }
                }
                assert(self@.rows =~= after.rows);
                1
            },
        }
    }

    /// Removes the row with id `task_id` and returns how many rows it removed.
    /// An id that no row has removes nothing and is no error.
    pub fn delete(&mut self, task_id: i32) -> (r: u64)
        requires
            old(self).wf(),
        ensures
            final(self).wf(),
            final(self)@ == deleted(old(self)@, task_id),
            r == (if old(self)@.has_id(task_id) { 1u64 } else { 0u64 }),
    {
        match self.find(task_id) {
            None => 0,
            Some(i) => {
                let ghost before = self@;
                let _gone = self.rows.remove(i);
                assert(self@.rows =~= before.rows.remove(i as int));
                let ghost rows = self@.rows;
                assert forall|a: int, b: int| 0 <= a < b < rows.len() implies rows[a].task_id < rows[b].task_id by {
                    let a0 = if a < i { a } else { a + 1 };
                    let b0 = if b < i { b } else { b + 1 };
                    assert(rows[a] == before.rows[a0]);
                    assert(rows[b] == before.rows[b0]);
                }
                1
            },
        }
    }
}

} // verus!
