use corebrum::schema::Job;
use corebrum::schema::TaskDefinition;
use corebrum::schema::TaskSource;
use corebrum::schema::TaskStatus;
use corebrum::schema::DEFAULT_TIMEOUT_SECONDS;
use corebrum::system::now_ms;

fn schema_sample_definition() -> TaskDefinition {
    TaskDefinition {
        name: "echo".to_string(),
        version: "1.0".to_string(),
        description: None,
        inputs: vec![],
        outputs: vec![],
        source: TaskSource::Inline { code: "print('{}')".to_string(), language: "python".to_string() },
        requirements: None,
    }
}

#[test]
fn terminal_statuses_are_the_four_final_ones() {
    assert!(!TaskStatus::Pending.is_terminal());
    assert!(!TaskStatus::Claimed.is_terminal());
    assert!(!TaskStatus::Assigned.is_terminal());
    assert!(!TaskStatus::Running.is_terminal());
    assert!(TaskStatus::Completed.is_terminal());
    assert!(TaskStatus::Failed.is_terminal());
    assert!(TaskStatus::Timeout.is_terminal());
    assert!(TaskStatus::Cancelled.is_terminal());
}

#[test]
fn timeline_only_moves_forward() {
    let order = [
        TaskStatus::Pending,
        TaskStatus::Claimed,
        TaskStatus::Assigned,
        TaskStatus::Running,
        TaskStatus::Completed,
    ];
    for i in 0..order.len() {
        for j in 0..order.len() {
            assert_eq!(order[i].can_advance_to(&order[j]), i < j);
        }
    }
}

#[test]
fn terminal_statuses_have_no_successor() {
    let finals =
        [TaskStatus::Completed, TaskStatus::Failed, TaskStatus::Timeout, TaskStatus::Cancelled];
    let all = [
        TaskStatus::Pending,
        TaskStatus::Claimed,
        TaskStatus::Assigned,
        TaskStatus::Running,
        TaskStatus::Completed,
        TaskStatus::Failed,
        TaskStatus::Timeout,
        TaskStatus::Cancelled,
    ];
    for from in finals.iter() {
        for to in all.iter() {
            assert!(!from.can_advance_to(to));
        }
    }
    assert!(TaskStatus::Running.can_advance_to(&TaskStatus::Timeout));
    assert!(TaskStatus::Running.can_advance_to(&TaskStatus::Cancelled));
    assert!(!TaskStatus::Running.can_advance_to(&TaskStatus::Assigned));
}

#[test]
fn user_task_fills_in_the_defaults() {
    let job = Job::user_task(
        "id-1".to_string(),
        42,
        "user_tasks".to_string(),
        schema_sample_definition(),
        "{\"n\":1}".to_string(),
    );
    assert_eq!(job.task_id, "id-1");
    assert_eq!(job.created_at_ms, 42);
    assert_eq!(job.queue, "user_tasks");
    assert_eq!(job.task_definition, Some(schema_sample_definition()));
    assert_eq!(job.inputs, "{\"n\":1}");
    assert_eq!(job.priority, Some(0));
    assert_eq!(job.timeout_seconds, Some(300));
    assert_eq!(DEFAULT_TIMEOUT_SECONDS, 300);
}

#[test]
fn new_user_task_draws_a_fresh_identifier() {
    let first =
        Job::new_user_task("q".to_string(), schema_sample_definition(), "{}".to_string());
    let second =
        Job::new_user_task("q".to_string(), schema_sample_definition(), "{}".to_string());
    assert_eq!(first.task_id.chars().count(), 36);
    assert_eq!(second.task_id.chars().count(), 36);
    assert_ne!(first.task_id, second.task_id);
    assert_eq!(first.task_id.matches('-').count(), 4);
    assert_eq!(first.queue, "q");
    assert_eq!(first.inputs, "{}");
    assert_eq!(first.priority, Some(0));
    assert_eq!(first.timeout_seconds, Some(300));
    assert_eq!(first.task_definition, Some(schema_sample_definition()));
}

#[test]
fn new_user_task_is_stamped_with_the_clock() {
    let before = now_ms();
    let job = Job::new_user_task("q".to_string(), schema_sample_definition(), "{}".to_string());
    let after = now_ms();
    assert!(before <= job.created_at_ms);
    assert!(job.created_at_ms <= after);
    // later than the first of January 2020
    assert!(job.created_at_ms > 1_577_836_800_000);
}

#[test]
fn clones_are_equal_to_their_source() {
    let job = Job::user_task(
        "id-2".to_string(),
        7,
        "q".to_string(),
        schema_sample_definition(),
        "[]".to_string(),
    );
    assert_eq!(job.clone(), job);
    let git = TaskSource::Git {
        repo: "https://example.org/r.git".to_string(),
        path: "a/b.py".to_string(),
        branch: Some("main".to_string()),
    };
    assert_eq!(git.clone(), git);
    let docker = TaskSource::Docker {
        image: "img".to_string(),
        command: vec!["run".to_string(), "--fast".to_string()],
    };
    assert_eq!(docker.clone(), docker);
}

#[test]
fn plain_job_carries_no_definition() {
    let job = Job::plain("id-3".to_string(), 11, "perception".to_string(), "[1,2]".to_string());
    assert_eq!(job.task_id, "id-3");
    assert_eq!(job.created_at_ms, 11);
    assert_eq!(job.queue, "perception");
    assert_eq!(job.task_definition, None);
    assert_eq!(job.inputs, "[1,2]");
    assert_eq!(job.priority, Some(0));
    assert_eq!(job.timeout_seconds, Some(300));
    let fresh = Job::new("perception".to_string(), "[1,2]".to_string());
    assert_eq!(fresh.task_id.chars().count(), 36);
    assert_ne!(fresh.task_id, Job::new("perception".to_string(), "[1,2]".to_string()).task_id);
    assert_eq!(fresh.task_definition, None);
    assert_eq!(fresh.queue, "perception");
    assert_eq!(fresh.inputs, "[1,2]");
    assert!(fresh.created_at_ms > 1_577_836_800_000);
}
