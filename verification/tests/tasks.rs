use pecan::tasks::{Task, TaskStack, TaskStatus};

fn stack(statuses: Vec<TaskStatus>) -> TaskStack {
    let mut s = TaskStack::new();
    let mut id: u128 = 1;
    for status in statuses {
        s.push_task(id, "2024-01-01T00:00:00+00:00".to_string(), format!("task {}", id));
        s.update_status(id, status);
        id += 1;
    }
    s
}

fn ids(s: &TaskStack) -> Vec<u128> {
    s.tasks.iter().map(|t| t.id).collect()
}

#[test]
fn push_creates_pending_task_at_the_end() {
    let mut s = TaskStack::new();
    let a = s.push("first".to_string());
    let b = s.push("second".to_string());
    assert_ne!(a, b);
    assert_eq!(s.tasks.len(), 2);
    assert_eq!(s.tasks[0].id, a);
    assert_eq!(s.tasks[0].description, "first");
    assert_eq!(s.tasks[0].status, TaskStatus::Pending);
    assert_eq!(s.tasks[1].id, b);
    assert!(chrono::DateTime::parse_from_rfc3339(&s.tasks[1].created_at).is_ok());
}

#[test]
fn push_task_keeps_given_values() {
    let mut s = TaskStack::new();
    s.push_task(42, "then".to_string(), "do it".to_string());
    assert_eq!(
        s.tasks,
        vec![Task {
            id: 42,
            description: "do it".to_string(),
            status: TaskStatus::Pending,
            created_at: "then".to_string(),
        }]
    );
}

#[test]
fn pop_takes_first_pending_in_push_order() {
    let mut s = stack(vec![
        TaskStatus::Completed,
        TaskStatus::Pending,
        TaskStatus::InProgress,
        TaskStatus::Pending,
    ]);
    let first = s.pop().unwrap();
    assert_eq!(first.id, 2);
    assert_eq!(ids(&s), vec![1, 3, 4]);
    let second = s.pop().unwrap();
    assert_eq!(second.id, 4);
    assert_eq!(ids(&s), vec![1, 3]);
    assert!(s.pop().is_none());
    assert_eq!(ids(&s), vec![1, 3]);
}

#[test]
fn pop_is_first_in_first_out() {
    let mut s = TaskStack::new();
    let a = s.push("a".to_string());
    let b = s.push("b".to_string());
    let c = s.push("c".to_string());
    assert_eq!(s.pop().unwrap().id, a);
    let d = s.push("d".to_string());
    assert_eq!(s.pop().unwrap().id, b);
    assert_eq!(s.pop().unwrap().id, c);
    assert_eq!(s.pop().unwrap().id, d);
    assert!(s.pop().is_none());
}

#[test]
fn peek_leaves_the_queue_alone() {
    let s = stack(vec![TaskStatus::Failed("x".to_string()), TaskStatus::Pending]);
    assert_eq!(s.peek().unwrap().id, 2);
    assert_eq!(s.tasks.len(), 2);
    let none = stack(vec![TaskStatus::Completed]);
    assert!(none.peek().is_none());
    assert!(TaskStack::new().peek().is_none());
}

#[test]
fn cancel_marks_task_failed() {
    let mut s = stack(vec![TaskStatus::Pending, TaskStatus::Pending]);
    s.cancel_task(2);
    assert_eq!(s.tasks[0].status, TaskStatus::Pending);
    assert_eq!(s.tasks[1].status, TaskStatus::Failed("cancelled".to_string()));
    s.cancel_task(99);
    assert_eq!(s.tasks.len(), 2);
    assert_eq!(s.tasks[0].status, TaskStatus::Pending);
}

#[test]
fn update_status_changes_only_the_first_match() {
    let mut s = TaskStack::new();
    s.push_task(1, "t".to_string(), "a".to_string());
    s.push_task(1, "t".to_string(), "b".to_string());
    s.push_task(2, "t".to_string(), "c".to_string());
    s.update_status(1, TaskStatus::InProgress);
    assert_eq!(s.tasks[0].status, TaskStatus::InProgress);
    assert_eq!(s.tasks[0].description, "a");
    assert_eq!(s.tasks[1].status, TaskStatus::Pending);
    assert_eq!(s.tasks[2].status, TaskStatus::Pending);
    s.update_status(7, TaskStatus::Completed);
    assert_eq!(s.tasks[2].status, TaskStatus::Pending);
}

#[test]
fn clear_completed_keeps_pending_and_running() {
    let mut s = stack(vec![
        TaskStatus::Completed,
        TaskStatus::Pending,
        TaskStatus::Failed("why".to_string()),
        TaskStatus::InProgress,
        TaskStatus::Completed,
    ]);
    s.clear_completed();
    assert_eq!(ids(&s), vec![2, 4]);
    assert_eq!(s.tasks[0].status, TaskStatus::Pending);
    assert_eq!(s.tasks[1].status, TaskStatus::InProgress);
    s.clear_completed();
    assert_eq!(ids(&s), vec![2, 4]);
}

#[test]
fn status_predicates() {
    assert!(TaskStatus::Pending.is_pending());
    assert!(!TaskStatus::InProgress.is_pending());
    assert!(TaskStatus::InProgress.is_live());
    assert!(!TaskStatus::Completed.is_live());
    assert!(!TaskStatus::Failed("x".to_string()).is_live());
    assert_eq!(TaskStatus::Failed("x".to_string()).clone(), TaskStatus::Failed("x".to_string()));
}
