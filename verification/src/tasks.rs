//! The queue of autonomous sub-goals.
//!
//! Tasks are kept in the order they were pushed. The next task to run is the
//! first pending one in that order, so the queue is first in, first out,
//! whatever later pushes add.

use crate::outside::{current_time, fresh_id};
use vstd::prelude::*;
use vstd::string::StringExecFns;

verus! {

/// Where a task stands.
#[derive(Debug, PartialEq, Eq)]
pub enum TaskStatus {
    Pending,
    InProgress,
    Completed,
    Failed(String),
}

/// Model of a [`TaskStatus`].
pub enum TaskStatusView {
    Pending,
    InProgress,
    Completed,
    Failed(Seq<char>),
}

impl DeepView for TaskStatus {
    type V = TaskStatusView;

    open spec fn deep_view(&self) -> TaskStatusView {
        match self {
            TaskStatus::Pending => TaskStatusView::Pending,
            TaskStatus::InProgress => TaskStatusView::InProgress,
            TaskStatus::Completed => TaskStatusView::Completed,
            TaskStatus::Failed(reason) => TaskStatusView::Failed(reason@),
        }
    }
}

impl View for TaskStatus {
    type V = TaskStatusView;

    open spec fn view(&self) -> TaskStatusView {
        self.deep_view()
    }
}

impl Clone for TaskStatus {
    fn clone(&self) -> (res: Self)
        ensures
            res@ == self@,
    {
        match self {
            TaskStatus::Pending => TaskStatus::Pending,
            TaskStatus::InProgress => TaskStatus::InProgress,
            TaskStatus::Completed => TaskStatus::Completed,
            TaskStatus::Failed(reason) => TaskStatus::Failed(reason.clone()),
        }
    }
}

/// The mark that stands for a status in a list of tasks.
pub open spec fn status_symbol(status: TaskStatusView) -> Seq<char> {
    match status {
        TaskStatusView::Pending => " [ ] "@,
        TaskStatusView::InProgress => " [*] "@,
        TaskStatusView::Completed => " [x] "@,
        TaskStatusView::Failed(_) => " [!] "@,
    }
}

impl TaskStatus {
    /// The mark that stands for the status in a list of tasks.
    pub fn symbol(&self) -> (res: String)
        ensures
            res@ == status_symbol(self@),
    {
        match self {
            TaskStatus::Pending => String::from_str(" [ ] "),
            TaskStatus::InProgress => String::from_str(" [*] "),
            TaskStatus::Completed => String::from_str(" [x] "),
            TaskStatus::Failed(_) => String::from_str(" [!] "),
        }
    }

    /// Whether the task still waits to be run.
    pub fn is_pending(&self) -> (res: bool)
        ensures
            res == (self@ is Pending),
    {
        match self {
            TaskStatus::Pending => true,
            _ => false,
        }
    }

    /// Whether the task is neither finished nor failed.
    pub fn is_live(&self) -> (res: bool)
        ensures
            res == is_live(self@),
    {
        match self {
            TaskStatus::Pending => true,
            TaskStatus::InProgress => true,
            _ => false,
        }
    }
}

/// One autonomous sub-goal. The identifier is the 128-bit value of a random
/// UUID, the creation time an RFC 3339 text.
#[derive(Debug, PartialEq, Eq)]
pub struct Task {
    pub id: u128,
    pub description: String,
    pub status: TaskStatus,
    pub created_at: String,
}

/// Model of a [`Task`].
pub struct TaskView {
    pub id: u128,
    pub description: Seq<char>,
    pub status: TaskStatusView,
    pub created_at: Seq<char>,
}

impl DeepView for Task {
    type V = TaskView;

    open spec fn deep_view(&self) -> TaskView {
        TaskView {
            id: self.id,
            description: self.description@,
            status: self.status@,
            created_at: self.created_at@,
        }
    }
}

impl View for Task {
    type V = TaskView;

    open spec fn view(&self) -> TaskView {
        self.deep_view()
    }
}

impl Clone for Task {
    fn clone(&self) -> (res: Self)
        ensures
            res@ == self@,
    {
        Task {
            id: self.id,
            description: self.description.clone(),
            status: self.status.clone(),
            created_at: self.created_at.clone(),
        }
    }
}

/// Whether a status is pending or in progress.
pub open spec fn is_live(status: TaskStatusView) -> bool {
    status is Pending || status is InProgress
}

/// Whether position `i` holds the first pending task of `tasks`.
pub open spec fn first_pending_at(tasks: Seq<TaskView>, i: int) -> bool {
    &&& 0 <= i < tasks.len()
    &&& tasks[i].status is Pending
    &&& forall|j: int| 0 <= j < i ==> !((#[trigger] tasks[j]).status is Pending)
}

/// Whether no task of `tasks` is pending.
pub open spec fn none_pending(tasks: Seq<TaskView>) -> bool {
    forall|j: int| 0 <= j < tasks.len() ==> !((#[trigger] tasks[j]).status is Pending)
}

/// Whether position `i` holds the first task of `tasks` with identifier `id`.
pub open spec fn first_with_id_at(tasks: Seq<TaskView>, id: u128, i: int) -> bool {
    &&& 0 <= i < tasks.len()
    &&& tasks[i].id == id
    &&& forall|j: int| 0 <= j < i ==> (#[trigger] tasks[j]).id != id
}

/// `tasks` with the status of the first task that has identifier `id`
/// replaced; unchanged when no task has it.
pub open spec fn with_status(tasks: Seq<TaskView>, id: u128, status: TaskStatusView) -> Seq<
    TaskView,
> {
    Seq::new(
        tasks.len(),
        |i: int|
            if first_with_id_at(tasks, id, i) {
                TaskView { status: status, ..tasks[i] }
            } else {
                tasks[i]
            },
    )
}

/// The tasks that are pending or in progress, in their order.
pub open spec fn live_tasks(tasks: Seq<TaskView>) -> Seq<TaskView>
    decreases tasks.len(),
{
    if tasks.len() == 0 {
        Seq::empty()
    } else if is_live(tasks.last().status) {
        live_tasks(tasks.drop_last()).push(tasks.last())
    } else {
        live_tasks(tasks.drop_last())
    }
}

/// The task that a push creates.
pub open spec fn new_task(id: u128, description: Seq<char>, created_at: Seq<char>) -> TaskView {
    TaskView { id, description, status: TaskStatusView::Pending, created_at }
}

/// The directive that the autonomous loop sends for a task.
pub open spec fn task_prompt(description: Seq<char>) -> Seq<char> {
    "Current Task: "@ + description + "\n\nExecute the next step for this "@
        + "task using available tools. If the task is finished, explain what you did. If you need to break it down further, you can use the 'push_task' tool."@
}

/// The tasks of one agent, in the order they were pushed.
#[derive(Debug, PartialEq, Eq)]
pub struct TaskStack {
    pub tasks: Vec<Task>,
}

impl DeepView for TaskStack {
    type V = Seq<TaskView>;

    open spec fn deep_view(&self) -> Seq<TaskView> {
        self.tasks.deep_view()
    }
}

impl View for TaskStack {
    type V = Seq<TaskView>;

    open spec fn view(&self) -> Seq<TaskView> {
        self.tasks.deep_view()
    }
}

impl TaskStack {
    /// A queue without tasks.
    pub fn new() -> (res: Self)
        ensures
            res@ == Seq::<TaskView>::empty(),
    {
        let res = TaskStack { tasks: Vec::new() };
        assert(res@ =~= Seq::<TaskView>::empty());
        res
    }

    /// Appends a pending task with the given identifier and creation time.
    pub fn push_task(&mut self, id: u128, created_at: String, description: String)
        ensures
            final(self)@ == old(self)@.push(new_task(id, description@, created_at@)),
    {
        let ghost before = self@;
        self.tasks.push(Task { id, description, status: TaskStatus::Pending, created_at });
        assert(self@ =~= before.push(new_task(id, description@, created_at@)));
    }

    /// Appends a pending task under a fresh random identifier, stamped with
    /// the current time, and returns the identifier. The tasks that were
    /// there are not changed.
    pub fn push(&mut self, description: String) -> (id: u128)
        ensures
            final(self)@.len() == old(self)@.len() + 1,
            final(self)@.drop_last() == old(self)@,
            final(self)@.last() == new_task(id, description@, final(self)@.last().created_at),
    {
        let ghost before = self@;
        let id = fresh_id();
        let created_at = current_time();
        self.push_task(id, created_at, description);
        assert(self@.drop_last() =~= before);
        id
    }

    /// Position of the first pending task.
    fn find_pending(&self) -> (res: Option<usize>)
        ensures
            match res {
                Some(i) => first_pending_at(self@, i as int),
                None => none_pending(self@),
            },
    {
        let mut i: usize = 0;
        while i < self.tasks.len()
            invariant
                i <= self.tasks.len(),
                forall|j: int| 0 <= j < i ==> !((#[trigger] self@[j]).status is Pending),
            decreases self.tasks.len() - i,
        {
            assert(self@[i as int] == self.tasks[i as int]@);
            if self.tasks[i].status.is_pending() {
                return Some(i);
            }
            i += 1;
        }
        None
    }

    /// Position of the first task with identifier `id`.
    fn find_id(&self, id: u128) -> (res: Option<usize>)
        ensures
            match res {
                Some(i) => first_with_id_at(self@, id, i as int),
                None => forall|j: int| 0 <= j < self@.len() ==> (#[trigger] self@[j]).id != id,
            },
    {
        let mut i: usize = 0;
        while i < self.tasks.len()
            invariant
                i <= self.tasks.len(),
                forall|j: int| 0 <= j < i ==> (#[trigger] self@[j]).id != id,
            decreases self.tasks.len() - i,
        {
            assert(self@[i as int] == self.tasks[i as int]@);
            if self.tasks[i].id == id {
                return Some(i);
            }
            i += 1;
        }
        None
    }

    /// Takes the first pending task out of the queue. Without a pending
    /// task the queue is left as it is.
    pub fn pop(&mut self) -> (res: Option<Task>)
        ensures
            match res {
                Some(task) => exists|i: int|
                    first_pending_at(old(self)@, i) && task@ == old(self)@[i] && final(self)@
                        == old(self)@.remove(i),
                None => none_pending(old(self)@) && final(self)@ == old(self)@,
            },
    {
        let ghost before = self@;
        match self.find_pending() {
            Some(i) => {
                assert(before[i as int] == self.tasks[i as int]@);
                let task = self.tasks.remove(i);
                assert(self@ =~= before.remove(i as int));
                Some(task)
            },
            None => None,
        }
    }

    /// The first pending task, left in the queue.
    pub fn peek(&self) -> (res: Option<&Task>)
        ensures
            match res {
                Some(task) => exists|i: int| first_pending_at(self@, i) && task@ == self@[i],
                None => none_pending(self@),
            },
    {
        match self.find_pending() {
            Some(i) => {
                assert(self@[i as int] == self.tasks[i as int]@);
                Some(&self.tasks[i])
            },
            None => None,
        }
    }

    /// Sets the status of the first task with identifier `id`. Without such
    /// a task nothing changes.
    pub fn update_status(&mut self, id: u128, status: TaskStatus)
        ensures
            final(self)@ == with_status(old(self)@, id, status@),
    {
        let ghost before = self@;
        match self.find_id(id) {
            Some(i) => {
                assert(before[i as int] == self.tasks[i as int]@);
                let old_task = self.tasks.remove(i);
                let task = Task {
                    id: old_task.id,
                    description: old_task.description,
                    status,
                    created_at: old_task.created_at,
                };
                self.tasks.insert(i, task);
                assert(self@ =~= with_status(before, id, status@)) by {
                    assert forall|j: int| 0 <= j < before.len() implies #[trigger] self@[j]
                        == with_status(before, id, status@)[j] by {
                        if j < i {
                            assert(self.tasks@[j] == old(self).tasks@[j]);
                        } else if j > i {
                            assert(self.tasks@[j] == old(self).tasks@[j]);
                        }
                    }
                }
            },
            None => {
                assert(self@ =~= with_status(before, id, status@));
            },
        }
    }

    /// Marks the first task with identifier `id` as failed with the reason
    /// `cancelled`.
    pub fn cancel_task(&mut self, id: u128)
        ensures
            final(self)@ == with_status(old(self)@, id, TaskStatusView::Failed("cancelled"@)),
    {
        self.update_status(id, TaskStatus::Failed(String::from_str("cancelled")));
    }

    /// Drops the tasks that are finished or failed and keeps the pending
    /// and running ones in their order.
    pub fn clear_completed(&mut self)
        ensures
            final(self)@ == live_tasks(old(self)@),
    {
        let ghost before = self@;
        let mut kept: Vec<Task> = Vec::new();
        let mut i: usize = 0;
        assert(before.take(0) =~= Seq::<TaskView>::empty());
        assert(kept.deep_view() =~= Seq::<TaskView>::empty());
        while i < self.tasks.len()
            invariant
                i <= self.tasks.len(),
                before == self@,
                kept.deep_view() == live_tasks(before.take(i as int)),
            decreases self.tasks.len() - i,
        {
            let task = &self.tasks[i];
            let ghost prefix = before.take(i as int + 1);
            assert(prefix.drop_last() =~= before.take(i as int));
            assert(prefix.last() == task@);
            if task.status.is_live() {
                let ghost kept_before = kept.deep_view();
                kept.push(task.clone());
                assert(kept.deep_view() =~= kept_before.push(task@));
            }
            i += 1;
        }
        assert(before.take(i as int) =~= before);
        self.tasks = kept;
    }
}

} // verus!
