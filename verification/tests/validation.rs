//! Task-creation validation and the admin bootstrap.

use task_bounty::errors::CoreError;
use task_bounty::errors::TaskError;
use task_bounty::init_admin::init_admin;
use task_bounty::task_manager::create_task;

#[test]
fn init_admin_records_authority() {
    let admin = init_admin(42, 255);
    assert_eq!(admin.authority, 42);
    assert_eq!(admin.bump, 255);
}

#[test]
fn create_task_valid_inputs() {
    let r = create_task(7, 1, 100, 2, 3600, "Qm1".to_string(), 0, 9);
    let t = r.expect("valid arguments must create a task");
    assert_eq!(t.task_id, 1);
    assert_eq!(t.creator, 7);
    assert_eq!(t.reward_per_response, 100);
    assert_eq!(t.max_responses, 2);
    assert_eq!(t.deadline, 3600);
    assert_eq!(t.responses_received, 0);
    assert!(!t.is_complete);
    assert_eq!(t.bump, 9);
    assert_eq!(t.cid, "Qm1");
}

#[test]
fn create_task_zero_id_rejected() {
    let r = create_task(7, 0, 100, 2, 3600, "Qm1".to_string(), 0, 0);
    assert_eq!(r.unwrap_err(), CoreError::Task(TaskError::InvalidTaskId));
}

#[test]
fn create_task_zero_reward_rejected() {
    let r = create_task(7, 1, 0, 2, 3600, "Qm1".to_string(), 0, 0);
    assert_eq!(r.unwrap_err(), CoreError::Task(TaskError::InvalidReward));
}

#[test]
fn create_task_zero_max_responses_rejected() {
    let r = create_task(7, 1, 100, 0, 3600, "Qm1".to_string(), 0, 0);
    assert_eq!(r.unwrap_err(), CoreError::Task(TaskError::InvalidMaxResponses));
}

#[test]
fn create_task_deadline_equal_to_now_rejected() {
    let r = create_task(7, 1, 100, 2, 500, "Qm1".to_string(), 500, 0);
    assert_eq!(r.unwrap_err(), CoreError::Task(TaskError::InvalidDeadline));
}

#[test]
fn create_task_deadline_in_the_past_rejected() {
    let r = create_task(7, 1, 100, 2, 499, "Qm1".to_string(), 500, 0);
    assert_eq!(r.unwrap_err(), CoreError::Task(TaskError::InvalidDeadline));
}

#[test]
fn create_task_empty_cid_rejected() {
    let r = create_task(7, 1, 100, 2, 3600, String::new(), 0, 0);
    assert_eq!(r.unwrap_err(), CoreError::Task(TaskError::InvalidCID));
}

#[test]
fn create_task_oversized_cid_rejected() {
    let cid = "q".repeat(101);
    let r = create_task(7, 1, 100, 2, 3600, cid, 0, 0);
    assert_eq!(r.unwrap_err(), CoreError::Task(TaskError::InvalidCID));
}

#[test]
fn create_task_cid_of_exactly_100_bytes_accepted() {
    let cid = "q".repeat(100);
    let r = create_task(7, 1, 100, 2, 3600, cid, 0, 0);
    assert!(r.is_ok());
}

#[test]
fn create_task_checks_run_in_order() {
    // Several arguments invalid at once: the first failing check decides.
    let r = create_task(7, 0, 0, 0, 0, String::new(), 0, 0);
    assert_eq!(r.unwrap_err(), CoreError::Task(TaskError::InvalidTaskId));
    let r = create_task(7, 1, 0, 0, 0, String::new(), 0, 0);
    assert_eq!(r.unwrap_err(), CoreError::Task(TaskError::InvalidReward));
    let r = create_task(7, 1, 5, 0, 0, String::new(), 0, 0);
    assert_eq!(r.unwrap_err(), CoreError::Task(TaskError::InvalidMaxResponses));
    let r = create_task(7, 1, 5, 3, 0, String::new(), 0, 0);
    assert_eq!(r.unwrap_err(), CoreError::Task(TaskError::InvalidDeadline));
    let r = create_task(7, 1, 5, 3, 60, String::new(), 0, 0);
    assert_eq!(r.unwrap_err(), CoreError::Task(TaskError::InvalidCID));
}
