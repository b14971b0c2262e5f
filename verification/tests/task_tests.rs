use chrono::{DateTime, Utc};
use task_service::models::task::{Task, Timestamp};
use uuid::Uuid;

#[test]
fn test_new_task() {
    let title = "テストタイトル";

    let task = Task::new(title.to_string());

    assert_eq!(task.title, title);
    assert!(!task.completed);
    assert_eq!(task.created_at, task.updated_at);
    assert_eq!(Uuid::from_u128(task.id).get_version_num(), 7);

    let now = Utc::now();
    let created_at =
        DateTime::<Utc>::from_timestamp(task.created_at.secs, task.created_at.nanos).unwrap();
    let diff = now.signed_duration_since(created_at);
    assert!(diff.num_seconds().abs() < 1);
}

#[test]
fn new_task_accepts_an_empty_title() {
    let task = Task::new(String::new());
    assert_eq!(task.title, "");
    assert!(!task.completed);
    assert_ne!(task.id, 0);
}

#[test]
fn new_tasks_get_distinct_ordered_ids() {
    let first = Task::new("a".to_string());
    let second = Task::new("b".to_string());
    assert_ne!(first.id, second.id);
    assert!(first.id < second.id);
    assert!(!Uuid::from_u128(first.id).is_nil());
    assert_eq!((second.id >> 62) & 0x3, 2);
}

#[test]
fn new_task_is_stamped_after_a_past_instant() {
    let task = Task::new("a".to_string());
    // 2020-01-01T00:00:00Z
    assert!(task.created_at.secs > 1_577_836_800);
    assert!(task.created_at.nanos < 1_000_000_000);
}

#[test]
fn from_parts_builds_the_exact_record() {
    let at = Timestamp { secs: 1_700_000_000, nanos: 42 };
    let task = Task::from_parts(7, "A".to_string(), at);
    assert_eq!(
        task,
        Task { id: 7, title: "A".to_string(), completed: false, created_at: at, updated_at: at }
    );
}

#[test]
fn clone_keeps_every_field() {
    let at = Timestamp { secs: 5, nanos: 6 };
    let task = Task {
        id: 9,
        title: "x".to_string(),
        completed: true,
        created_at: at,
        updated_at: Timestamp { secs: 6, nanos: 0 },
    };
    assert_eq!(task.clone(), task);
}

#[test]
fn tasks_differ_when_one_field_differs() {
    let at = Timestamp { secs: 5, nanos: 6 };
    let task = Task::from_parts(1, "x".to_string(), at);
    let mut other = task.clone();
    other.completed = true;
    assert_ne!(task, other);
    let mut other = task.clone();
    other.title = "y".to_string();
    assert_ne!(task, other);
}

#[test]
fn timestamps_order_by_seconds_then_nanoseconds() {
    let a = Timestamp { secs: 1, nanos: 500 };
    let b = Timestamp { secs: 1, nanos: 501 };
    let c = Timestamp { secs: 2, nanos: 0 };
    let d = Timestamp { secs: -1, nanos: 999 };
    assert!(a.not_after(a));
    assert!(a.not_after(b));
    assert!(!b.not_after(a));
    assert!(b.not_after(c));
    assert!(!c.not_after(a));
    assert!(d.not_after(a));
    assert_eq!(a.latest(b), b);
    assert_eq!(b.latest(a), b);
    assert_eq!(c.latest(a), c);
    assert_eq!(a.latest(a), a);
}
