use shutdown_scheduler::events::Reminder;
use shutdown_scheduler::scheduler::TaskScheduler;

const NOW: i64 = 1_700_000_000;

fn scheduler_with(tasks: &[(&str, &str, i64)]) -> TaskScheduler {
    let mut scheduler = TaskScheduler::new();
    for (id, action, execute_at) in tasks {
        scheduler.create_task_at(action.to_string(), *execute_at, NOW, id.to_string()).unwrap();
    }
    scheduler
}

fn plain(notices: Vec<Reminder>) -> Vec<(String, String, i64)> {
    notices.into_iter().map(|notice| (notice.task_id, notice.action, notice.threshold)).collect()
}

fn notice(id: &str, action: &str, threshold: i64) -> (String, String, i64) {
    (id.to_string(), action.to_string(), threshold)
}

#[test]
fn reminder_goes_out_when_the_time_left_equals_the_threshold() {
    let scheduler = scheduler_with(&[("a", "shutdown", NOW + 1000)]);
    assert_eq!(plain(scheduler.reminders_at(NOW + 700, &[300, 60])), vec![notice("a", "shutdown", 300)]);
    assert_eq!(plain(scheduler.reminders_at(NOW + 940, &[300, 60])), vec![notice("a", "shutdown", 60)]);
}

#[test]
fn reminder_goes_out_at_no_other_second() {
    let scheduler = scheduler_with(&[("a", "shutdown", NOW + 1000)]);
    let mut sent = 0;
    for now in NOW..=NOW + 1100 {
        let notices = scheduler.reminders_at(now, &[300]);
        if now == NOW + 700 {
            assert_eq!(notices.len(), 1);
        } else {
            assert!(notices.is_empty());
        }
        sent += notices.len();
    }
    assert_eq!(sent, 1);
}

#[test]
fn reminder_goes_out_once_over_a_run_of_ticks() {
    let mut scheduler = scheduler_with(&[("a", "shutdown", NOW + 400)]);
    let mut reminders = Vec::new();
    let mut dispatches = Vec::new();
    for now in NOW..=NOW + 500 {
        let outcome = scheduler.tick_at(now, &[300, 60]);
        reminders.extend(plain(outcome.reminders).into_iter().map(|sent| (now, sent)));
        dispatches.extend(outcome.dispatches.into_iter().map(|order| (now, order.task_id, order.action)));
    }
    assert_eq!(
        reminders,
        vec![(NOW + 100, notice("a", "shutdown", 300)), (NOW + 340, notice("a", "shutdown", 60))]
    );
    assert_eq!(dispatches, vec![(NOW + 400, "a".to_string(), "shutdown".to_string())]);
    assert_eq!(scheduler.get_tasks_at(NOW + 500)[0].status, "completed");
}

#[test]
fn reminder_is_missed_when_the_tick_skips_the_second() {
    let mut scheduler = scheduler_with(&[("a", "shutdown", NOW + 400)]);
    assert!(scheduler.tick_at(NOW + 99, &[300]).reminders.is_empty());
    assert!(scheduler.tick_at(NOW + 101, &[300]).reminders.is_empty());
}

#[test]
fn no_reminder_for_a_cancelled_task() {
    let mut scheduler = scheduler_with(&[("a", "shutdown", NOW + 400), ("b", "lock", NOW + 400)]);
    scheduler.cancel_task("a").unwrap();
    assert_eq!(plain(scheduler.reminders_at(NOW + 100, &[300, 60])), vec![notice("b", "lock", 300)]);
    assert_eq!(plain(scheduler.reminders_at(NOW + 340, &[300, 60])), vec![notice("b", "lock", 60)]);
}

#[test]
fn no_reminder_for_a_task_that_has_run() {
    let mut scheduler = scheduler_with(&[("a", "shutdown", NOW + 400)]);
    scheduler.check_and_execute_at(NOW + 400);
    assert!(scheduler.reminders_at(NOW + 400, &[0]).is_empty());
    assert!(scheduler.reminders_at(NOW + 100, &[300]).is_empty());
    let mut executing = scheduler_with(&[("a", "shutdown", NOW + 400)]);
    executing.promote_due(NOW + 400);
    assert!(executing.reminders_at(NOW + 400, &[0]).is_empty());
}

#[test]
fn reminders_come_task_by_task_and_threshold_by_threshold() {
    let scheduler = scheduler_with(&[
        ("a", "shutdown", NOW + 400),
        ("b", "lock", NOW + 160),
        ("c", "sleep", NOW + 400),
        ("d", "restart", NOW + 401),
    ]);
    assert_eq!(
        plain(scheduler.reminders_at(NOW + 100, &[60, 300])),
        vec![notice("a", "shutdown", 300), notice("b", "lock", 60), notice("c", "sleep", 300)]
    );
}

#[test]
fn threshold_given_twice_is_reported_twice() {
    let scheduler = scheduler_with(&[("a", "shutdown", NOW + 400)]);
    assert_eq!(
        plain(scheduler.reminders_at(NOW + 100, &[300, 60, 300])),
        vec![notice("a", "shutdown", 300), notice("a", "shutdown", 300)]
    );
}

#[test]
fn no_thresholds_no_reminders() {
    let scheduler = scheduler_with(&[("a", "shutdown", NOW + 400)]);
    assert!(scheduler.reminders_at(NOW + 100, &[]).is_empty());
    assert!(TaskScheduler::new().reminders_at(NOW, &[300, 60]).is_empty());
}

#[test]
fn distance_beyond_the_largest_number_matches_no_threshold() {
    let mut scheduler = TaskScheduler::new();
    scheduler.create_task_at("lock".to_string(), i64::MAX, -2, "a".to_string()).unwrap();
    assert!(scheduler.reminders_at(-1, &[i64::MAX, i64::MIN, 0, -1]).is_empty());
    assert_eq!(plain(scheduler.reminders_at(0, &[i64::MAX])), vec![notice("a", "lock", i64::MAX)]);
}

#[test]
fn tick_reports_reminders_of_the_state_before_promotion() {
    let mut scheduler = scheduler_with(&[("a", "shutdown", NOW + 400)]);
    let outcome = scheduler.tick_at(NOW + 400, &[0]);
    assert_eq!(plain(outcome.reminders), vec![notice("a", "shutdown", 0)]);
    assert_eq!(outcome.dispatches.len(), 1);
    let outcome = scheduler.tick_at(NOW + 400, &[0]);
    assert!(outcome.reminders.is_empty());
    assert!(outcome.dispatches.is_empty());
}
