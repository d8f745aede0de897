use vstd::prelude::*;

verus! {

/// One row of the tasks table.
#[derive(Clone, Debug, PartialEq, Eq)]
pub struct Task {
    pub task_id: i32,
    pub name: String,
    pub priority: Option<i32>,
}

/// The value of a task: its id, the characters of its name, its priority.
pub struct TaskModel {
    pub task_id: i32,
    pub name: Seq<char>,
    pub priority: Option<i32>,
}

impl View for Task {
    type V = TaskModel;

    open spec fn view(&self) -> TaskModel {
        TaskModel { task_id: self.task_id, name: self.name@, priority: self.priority }
    }
}

/// The characters of an optional string.
pub open spec fn opt_text(s: Option<String>) -> Option<Seq<char>> {
    match s {
        Some(t) => Some(t@),
        None => None,
    }
}

/// What a create request carries. A missing name is handed on to the store,
/// which refuses it.
#[derive(Clone, Debug, PartialEq, Eq)]
pub struct NewTask {
    pub name: Option<String>,
    pub priority: Option<i32>,
}

/// What an update request carries: each field that is present replaces the
/// stored one, each field that is absent leaves it as it is.
#[derive(Clone, Debug, PartialEq, Eq)]
pub struct TaskPatch {
    pub name: Option<String>,
    pub priority: Option<i32>,
}

/// The value of a patch.
pub struct PatchModel {
    pub name: Option<Seq<char>>,
    pub priority: Option<i32>,
}

impl View for TaskPatch {
    type V = PatchModel;

    open spec fn view(&self) -> PatchModel {
        PatchModel { name: opt_text(self.name), priority: self.priority }
    }
}

/// `t` with the fields that `p` carries put in place; the id is kept.
pub open spec fn apply_patch(t: TaskModel, p: PatchModel) -> TaskModel {
    TaskModel {
        task_id: t.task_id,
        name: match p.name {
            Some(n) => n,
            None => t.name,
        },
        priority: match p.priority {
            Some(v) => Some(v),
            None => t.priority,
        },
    }
}

} // verus!
