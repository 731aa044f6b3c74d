use shutdown_scheduler::error::SchedulerError;
use shutdown_scheduler::scheduler::TaskScheduler;
use shutdown_scheduler::task::{Task, TaskInfo, TaskStatus};

const NOW: i64 = 1_700_000_000;

fn scheduler_with(tasks: &[(&str, &str, i64)]) -> TaskScheduler {
    let mut scheduler = TaskScheduler::new();
    for (id, action, execute_at) in tasks {
        let created =
            scheduler.create_task_at(action.to_string(), *execute_at, NOW, id.to_string());
        assert_eq!(created, Ok(id.to_string()));
    }
    scheduler
}

fn info_of(infos: &[TaskInfo], id: &str) -> TaskInfo {
    let mut found: Vec<TaskInfo> = infos.iter().filter(|info| info.id == id).cloned().collect();
    assert_eq!(found.len(), 1);
    found.remove(0)
}

#[test]
fn new_scheduler_has_no_tasks() {
    let scheduler = TaskScheduler::new();
    assert_eq!(scheduler.len(), 0);
    assert!(scheduler.get_tasks_at(NOW).is_empty());
}

#[test]
fn create_task_in_the_past_is_refused() {
    let mut scheduler = scheduler_with(&[("a", "lock", NOW + 10)]);
    let answer = scheduler.create_task_at("shutdown".to_string(), NOW - 1, NOW, "b".to_string());
    assert_eq!(answer, Err(SchedulerError::InvalidSchedule));
    assert_eq!(scheduler.len(), 1);
    assert_eq!(scheduler.get_tasks_at(NOW).len(), 1);
}

#[test]
fn create_task_at_the_clock_reading_is_refused() {
    let mut scheduler = TaskScheduler::new();
    let answer = scheduler.create_task_at("shutdown".to_string(), NOW, NOW, "a".to_string());
    assert_eq!(answer, Err(SchedulerError::InvalidSchedule));
    assert_eq!(scheduler.len(), 0);
}

#[test]
fn create_task_one_second_ahead_succeeds() {
    let mut scheduler = TaskScheduler::new();
    let answer = scheduler.create_task_at("shutdown".to_string(), NOW + 1, NOW, "a".to_string());
    assert_eq!(answer, Ok("a".to_string()));
    assert_eq!(scheduler.len(), 1);
}

#[test]
fn past_time_is_refused_before_the_id_is_looked_at() {
    let mut scheduler = scheduler_with(&[("a", "lock", NOW + 10)]);
    let answer = scheduler.create_task_at("lock".to_string(), NOW, NOW, "a".to_string());
    assert_eq!(answer, Err(SchedulerError::InvalidSchedule));
}

#[test]
fn create_task_with_an_id_in_use_is_refused() {
    let mut scheduler = scheduler_with(&[("a", "lock", NOW + 10)]);
    assert_eq!(scheduler.cancel_task("a"), Ok(()));
    let answer = scheduler.create_task_at("shutdown".to_string(), NOW + 5, NOW, "a".to_string());
    assert_eq!(answer, Err(SchedulerError::DuplicateId));
    assert_eq!(scheduler.len(), 1);
    let infos = scheduler.get_tasks_at(NOW);
    assert_eq!(infos[0].action, "lock");
    assert_eq!(infos[0].status, "cancelled");
    assert_eq!(infos[0].execute_at, NOW + 10);
}

#[test]
fn created_task_is_shown_pending_with_the_time_left() {
    let mut scheduler = TaskScheduler::new();
    let id = scheduler
        .create_task_at("restart".to_string(), NOW + 4242, NOW, "task-1".to_string())
        .unwrap();
    let infos = scheduler.get_tasks_at(NOW);
    assert_eq!(infos.len(), 1);
    assert_eq!(infos[0].id, id);
    assert_eq!(infos[0].id, "task-1");
    assert_eq!(infos[0].action, "restart");
    assert_eq!(infos[0].execute_at, NOW + 4242);
    assert_eq!(infos[0].status, "pending");
    assert_eq!(infos[0].remaining_seconds, 4242);
}

#[test]
fn tasks_are_shown_in_the_order_of_creation() {
    let scheduler =
        scheduler_with(&[("c", "lock", NOW + 3), ("a", "sleep", NOW + 1), ("b", "restart", NOW + 2)]);
    let ids: Vec<String> = scheduler.get_tasks_at(NOW).into_iter().map(|info| info.id).collect();
    assert_eq!(ids, vec!["c".to_string(), "a".to_string(), "b".to_string()]);
}

#[test]
fn remaining_seconds_decrease_without_any_write() {
    let scheduler = scheduler_with(&[("a", "lock", NOW + 10)]);
    assert_eq!(scheduler.get_tasks_at(NOW)[0].remaining_seconds, 10);
    assert_eq!(scheduler.get_tasks_at(NOW + 1)[0].remaining_seconds, 9);
    assert_eq!(scheduler.get_tasks_at(NOW + 9)[0].remaining_seconds, 1);
    assert_eq!(scheduler.get_tasks_at(NOW)[0].remaining_seconds, 10);
    assert_eq!(scheduler.get_tasks_at(NOW)[0].status, "pending");
}

#[test]
fn remaining_seconds_are_never_negative() {
    let scheduler = scheduler_with(&[("a", "lock", NOW + 10)]);
    assert_eq!(scheduler.get_tasks_at(NOW + 10)[0].remaining_seconds, 0);
    assert_eq!(scheduler.get_tasks_at(NOW + 11)[0].remaining_seconds, 0);
    assert_eq!(scheduler.get_tasks_at(i64::MAX)[0].remaining_seconds, 0);
}

#[test]
fn remaining_seconds_stop_at_the_largest_number() {
    let mut scheduler = TaskScheduler::new();
    scheduler.create_task_at("lock".to_string(), i64::MAX, -2, "a".to_string()).unwrap();
    assert_eq!(scheduler.get_tasks_at(0)[0].remaining_seconds, i64::MAX);
    assert_eq!(scheduler.get_tasks_at(1)[0].remaining_seconds, i64::MAX - 1);
    assert_eq!(scheduler.get_tasks_at(-1)[0].remaining_seconds, i64::MAX);
    assert_eq!(scheduler.get_tasks_at(i64::MIN)[0].remaining_seconds, i64::MAX);
}

#[test]
fn task_info_at_gives_the_projection_of_one_task() {
    let task = Task::new("id-7".to_string(), "hibernate".to_string(), 500);
    assert_eq!(task.id(), "id-7");
    assert_eq!(task.action(), "hibernate");
    assert_eq!(task.execute_at(), 500);
    assert_eq!(task.status(), TaskStatus::Pending);
    let info = task.info_at(120);
    assert_eq!(info.id, "id-7");
    assert_eq!(info.action, "hibernate");
    assert_eq!(info.execute_at, 500);
    assert_eq!(info.status, "pending");
    assert_eq!(info.remaining_seconds, 380);
}

#[test]
fn status_tags_are_the_four_names() {
    assert_eq!(TaskStatus::Pending.tag(), "pending");
    assert_eq!(TaskStatus::Executing.tag(), "executing");
    assert_eq!(TaskStatus::Completed.tag(), "completed");
    assert_eq!(TaskStatus::Cancelled.tag(), "cancelled");
}

#[test]
fn cancel_pending_task_succeeds() {
    let mut scheduler = scheduler_with(&[("a", "lock", NOW + 10), ("b", "sleep", NOW + 20)]);
    assert_eq!(scheduler.cancel_task("b"), Ok(()));
    let infos = scheduler.get_tasks_at(NOW);
    assert_eq!(info_of(&infos, "a").status, "pending");
    assert_eq!(info_of(&infos, "b").status, "cancelled");
    assert_eq!(scheduler.len(), 2);
}

#[test]
fn cancel_twice_fails_the_second_time() {
    let mut scheduler = scheduler_with(&[("a", "lock", NOW + 10)]);
    assert_eq!(scheduler.cancel_task("a"), Ok(()));
    assert_eq!(scheduler.cancel_task("a"), Err(SchedulerError::InvalidState));
    assert_eq!(scheduler.get_tasks_at(NOW)[0].status, "cancelled");
}

#[test]
fn cancel_unknown_id_is_not_found() {
    let mut scheduler = scheduler_with(&[("a", "lock", NOW + 10)]);
    assert_eq!(scheduler.cancel_task("b"), Err(SchedulerError::NotFound));
    assert_eq!(scheduler.cancel_task(""), Err(SchedulerError::NotFound));
    assert_eq!(scheduler.get_tasks_at(NOW)[0].status, "pending");
    let mut empty = TaskScheduler::new();
    assert_eq!(empty.cancel_task("a"), Err(SchedulerError::NotFound));
}

#[test]
fn cancel_completed_task_is_invalid_state() {
    let mut scheduler = scheduler_with(&[("a", "lock", NOW + 10)]);
    scheduler.check_and_execute_at(NOW + 10);
    assert_eq!(scheduler.cancel_task("a"), Err(SchedulerError::InvalidState));
    assert_eq!(scheduler.get_tasks_at(NOW + 10)[0].status, "completed");
}

#[test]
fn cancel_executing_task_is_invalid_state() {
    let mut scheduler = scheduler_with(&[("a", "lock", NOW + 10)]);
    scheduler.promote_due(NOW + 10);
    assert_eq!(scheduler.cancel_task("a"), Err(SchedulerError::InvalidState));
    assert_eq!(scheduler.get_tasks_at(NOW + 10)[0].status, "executing");
}

#[test]
fn scenario_cancel_right_after_create() {
    let mut scheduler = TaskScheduler::new();
    let id = scheduler
        .create_task_at("shutdown".to_string(), NOW + 100, NOW, "t".to_string())
        .unwrap();
    assert_eq!(scheduler.cancel_task(&id), Ok(()));
    let infos = scheduler.get_tasks_at(NOW);
    assert_eq!(infos.len(), 1);
    assert_eq!(infos[0].status, "cancelled");
    assert_eq!(infos[0].remaining_seconds, 100);
}

#[test]
fn scenario_past_time_leaves_the_store_unchanged() {
    let mut scheduler = scheduler_with(&[("a", "lock", NOW + 10), ("b", "lock", NOW + 10)]);
    let before = scheduler.len();
    let answer = scheduler.create_task_at("shutdown".to_string(), NOW - 1, NOW, "c".to_string());
    assert_eq!(answer, Err(SchedulerError::InvalidSchedule));
    assert_eq!(scheduler.len(), before);
    assert_eq!(scheduler.cancel_task("c"), Err(SchedulerError::NotFound));
}

#[test]
fn scenario_due_task_is_completed_and_dispatched_once() {
    let mut scheduler = TaskScheduler::new();
    let id = scheduler
        .create_task_at("shutdown".to_string(), NOW + 2, NOW, "t".to_string())
        .unwrap();
    let mut recorded: Vec<String> = Vec::new();
    for second in 1..=3 {
        for order in scheduler.check_and_execute_at(NOW + second) {
            assert_eq!(order.task_id, id);
            recorded.push(order.action);
        }
    }
    let infos = scheduler.get_tasks_at(NOW + 3);
    assert_eq!(infos[0].status, "completed");
    assert_eq!(infos[0].remaining_seconds, 0);
    assert_eq!(recorded, vec!["shutdown".to_string()]);
}

#[test]
fn task_is_not_promoted_before_its_time() {
    let mut scheduler = scheduler_with(&[("a", "lock", NOW + 10)]);
    assert!(scheduler.check_and_execute_at(NOW + 9).is_empty());
    assert_eq!(scheduler.get_tasks_at(NOW + 9)[0].status, "pending");
    let orders = scheduler.check_and_execute_at(NOW + 10);
    assert_eq!(orders.len(), 1);
    assert_eq!(orders[0].task_id, "a");
    assert_eq!(orders[0].action, "lock");
    assert_eq!(scheduler.get_tasks_at(NOW + 10)[0].status, "completed");
}

#[test]
fn due_task_passes_through_executing() {
    let mut scheduler = scheduler_with(&[("a", "lock", NOW + 10), ("b", "sleep", NOW + 50)]);
    let orders = scheduler.promote_due(NOW + 12);
    assert_eq!(orders.len(), 1);
    assert_eq!(orders[0].task_id, "a");
    assert_eq!(orders[0].action, "lock");
    let infos = scheduler.get_tasks_at(NOW + 12);
    assert_eq!(info_of(&infos, "a").status, "executing");
    assert_eq!(info_of(&infos, "b").status, "pending");
    assert!(scheduler.promote_due(NOW + 12).is_empty());
    scheduler.complete_dispatched(&orders);
    let infos = scheduler.get_tasks_at(NOW + 12);
    assert_eq!(info_of(&infos, "a").status, "completed");
    assert_eq!(info_of(&infos, "b").status, "pending");
}

#[test]
fn completion_touches_only_executing_tasks_that_are_named() {
    let mut scheduler = scheduler_with(&[
        ("a", "lock", NOW + 10),
        ("b", "sleep", NOW + 10),
        ("c", "restart", NOW + 50),
        ("d", "restart", NOW + 60),
    ]);
    assert_eq!(scheduler.cancel_task("d"), Ok(()));
    let mut orders = scheduler.promote_due(NOW + 10);
    assert_eq!(orders.len(), 2);
    let kept = orders.remove(1);
    assert_eq!(kept.task_id, "b");
    let mut named = orders.clone();
    for id in ["c", "d", "nobody"] {
        let mut order = kept.clone();
        order.task_id = id.to_string();
        named.push(order);
    }
    scheduler.complete_dispatched(&named);
    let infos = scheduler.get_tasks_at(NOW + 10);
    assert_eq!(info_of(&infos, "a").status, "completed");
    assert_eq!(info_of(&infos, "b").status, "executing");
    assert_eq!(info_of(&infos, "c").status, "pending");
    assert_eq!(info_of(&infos, "d").status, "cancelled");
    assert!(scheduler.check_and_execute_at(NOW + 11).is_empty());
    assert_eq!(info_of(&scheduler.get_tasks_at(NOW + 11), "b").status, "executing");
}

#[test]
fn orders_come_in_the_order_of_the_tasks() {
    let mut scheduler = scheduler_with(&[
        ("a", "lock", NOW + 30),
        ("b", "sleep", NOW + 10),
        ("c", "restart", NOW + 90),
        ("d", "shutdown", NOW + 20),
    ]);
    let orders = scheduler.check_and_execute_at(NOW + 30);
    let named: Vec<(String, String)> =
        orders.into_iter().map(|order| (order.task_id, order.action)).collect();
    assert_eq!(
        named,
        vec![
            ("a".to_string(), "lock".to_string()),
            ("b".to_string(), "sleep".to_string()),
            ("d".to_string(), "shutdown".to_string()),
        ]
    );
    let infos = scheduler.get_tasks_at(NOW + 30);
    assert_eq!(info_of(&infos, "c").status, "pending");
    assert_eq!(info_of(&infos, "a").status, "completed");
}

#[test]
fn cancelled_task_is_never_promoted() {
    let mut scheduler = scheduler_with(&[("a", "lock", NOW + 10)]);
    assert_eq!(scheduler.cancel_task("a"), Ok(()));
    for now in [NOW + 9, NOW + 10, NOW + 11, NOW + 1_000_000, i64::MAX] {
        assert!(scheduler.promote_due(now).is_empty());
        assert!(scheduler.check_and_execute_at(now).is_empty());
        assert_eq!(scheduler.get_tasks_at(now)[0].status, "cancelled");
    }
}

#[test]
fn completed_task_is_not_dispatched_again() {
    let mut scheduler = scheduler_with(&[("a", "lock", NOW + 10)]);
    assert_eq!(scheduler.check_and_execute_at(NOW + 10).len(), 1);
    assert!(scheduler.check_and_execute_at(NOW + 10).is_empty());
    assert!(scheduler.check_and_execute_at(NOW + 11).is_empty());
    assert_eq!(scheduler.get_tasks_at(NOW + 11)[0].status, "completed");
}

#[test]
fn error_messages_name_the_reason() {
    assert_eq!(SchedulerError::InvalidSchedule.message(), "执行时间必须晚于当前时间");
    assert_eq!(SchedulerError::NotFound.message(), "任务不存在");
    assert_eq!(SchedulerError::InvalidState.message(), "只能取消待执行的任务");
    assert_eq!(SchedulerError::DuplicateId.message(), "任务标识已被占用");
}

#[test]
fn find_task_looks_a_task_up_by_its_id() {
    let mut scheduler = scheduler_with(&[("a", "lock", NOW + 10), ("b", "sleep", NOW + 20)]);
    let task = scheduler.find_task("b").unwrap();
    assert_eq!(task.id(), "b");
    assert_eq!(task.action(), "sleep");
    assert_eq!(task.execute_at(), NOW + 20);
    assert_eq!(task.status(), TaskStatus::Pending);
    assert_eq!(scheduler.find_task("c").err(), Some(SchedulerError::NotFound));
    scheduler.cancel_task("b").unwrap();
    assert_eq!(scheduler.find_task("b").unwrap().status(), TaskStatus::Cancelled);
    assert_eq!(scheduler.find_task("a").unwrap().status(), TaskStatus::Pending);
}
