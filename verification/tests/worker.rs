use corebrum::bus::Message;
use corebrum::executor::ExecutionOutcome;
use corebrum::schema::Assign;
use corebrum::schema::Claim;
use corebrum::schema::Job;
use corebrum::schema::OutputValue;
use corebrum::schema::TaskStatus;
use corebrum::worker::WorkerAction;
use corebrum::worker::WorkerAgent;
use corebrum::worker::WorkerEvent;
use corebrum::worker::WorkerSettings;
use corebrum::worker::DEFAULT_ASSIGNMENT_WINDOW_MS;
use corebrum::worker::DEFAULT_LEASE_MS;

fn worker_job(task_id: &str) -> Job {
    Job {
        task_id: task_id.to_string(),
        queue: "user_tasks".to_string(),
        task_definition: None,
        inputs: "{\"number\":10}".to_string(),
        priority: Some(0),
        created_at_ms: 1,
        timeout_seconds: Some(300),
    }
}

fn worker_assign(task_id: &str, worker_id: &str) -> Assign {
    Assign {
        task_id: task_id.to_string(),
        worker_id: worker_id.to_string(),
        assigned_at_ms: 0,
        deadline_s: 30,
    }
}

fn worker_after_claim(worker_id: &str, task_id: &str, now_ms: u64) -> WorkerAgent {
    let worker = WorkerAgent::new(worker_id.to_string(), 100);
    let (worker, _) = worker.step(WorkerEvent::JobAnnounced { job: worker_job(task_id), now_ms });
    worker
}

#[test]
fn new_worker_is_idle() {
    let worker = WorkerAgent::new("worker-1".to_string(), 100);
    assert!(worker.is_idle());
    assert!(!worker.is_awaiting_assignment());
    assert!(!worker.is_executing());
    assert_eq!(worker.worker_id(), "worker-1");
    assert_eq!(DEFAULT_ASSIGNMENT_WINDOW_MS, 2000);
    assert_eq!(DEFAULT_LEASE_MS, 200);
}

#[test]
fn announcement_is_answered_with_a_claim() {
    let worker = WorkerAgent::new("worker-1".to_string(), 100);
    let (worker, actions) =
        worker.step(WorkerEvent::JobAnnounced { job: worker_job("t1"), now_ms: 5000 });
    assert!(worker.is_awaiting_assignment());
    assert_eq!(actions.len(), 2);
    match &actions[0] {
        WorkerAction::Publish(publication) => {
            assert_eq!(publication.topic, "comp/tasks/t1/claim");
            assert_eq!(
                publication.message,
                Message::Claim(Claim {
                    task_id: "t1".to_string(),
                    worker_id: "worker-1".to_string(),
                    eta_ms: 100,
                    lease_until_ms: 5200,
                    claimed_at_ms: 5000,
                })
            );
        }
        other => panic!("expected a publication, got {:?}", other),
    }
    assert_eq!(
        actions[1],
        WorkerAction::AwaitAssignment { topic: "comp/tasks/t1/assign".to_string() }
    );
}

#[test]
fn lease_end_stops_at_the_last_instant() {
    let worker = WorkerAgent::with_settings(WorkerSettings {
        worker_id: "w".to_string(),
        eta_ms: 1,
        lease_ms: 200,
        assignment_window_ms: 10,
    });
    let (_, actions) =
        worker.step(WorkerEvent::JobAnnounced { job: worker_job("t"), now_ms: u64::MAX - 5 });
    match &actions[0] {
        WorkerAction::Publish(publication) => match &publication.message {
            Message::Claim(claim) => assert_eq!(claim.lease_until_ms, u64::MAX),
            other => panic!("expected a claim, got {:?}", other),
        },
        other => panic!("expected a publication, got {:?}", other),
    }
}

#[test]
fn matching_assignment_starts_the_execution() {
    let worker = worker_after_claim("worker-1", "t1", 1000);
    let (worker, actions) = worker.step(WorkerEvent::AssignObserved {
        assign: worker_assign("t1", "worker-1"),
        now_ms: 1300,
    });
    assert!(worker.is_executing());
    assert_eq!(actions.len(), 2);
    match &actions[0] {
        WorkerAction::Publish(publication) => {
            assert_eq!(publication.topic, "comp/tasks/t1/status");
            match &publication.message {
                Message::Status(status) => {
                    assert_eq!(status.task_id, "t1");
                    assert_eq!(status.worker_id, "worker-1");
                    assert_eq!(status.status, TaskStatus::Running);
                    assert_eq!(status.message, Some("Task is running".to_string()));
                    assert_eq!(status.progress_percent, Some(30));
                    assert_eq!(status.timestamp_ms, 1300);
                }
                other => panic!("expected a status, got {:?}", other),
            }
        }
        other => panic!("expected a publication, got {:?}", other),
    }
    assert_eq!(actions[1], WorkerAction::Execute { job: worker_job("t1") });
}

#[test]
fn assignment_to_another_worker_is_ignored() {
    let worker = worker_after_claim("worker-1", "t1", 1000);
    let (worker, actions) = worker.step(WorkerEvent::AssignObserved {
        assign: worker_assign("t1", "worker-2"),
        now_ms: 1100,
    });
    assert!(actions.is_empty());
    assert!(worker.is_awaiting_assignment());
    // its own assignment may still follow
    let (worker, actions) = worker.step(WorkerEvent::AssignObserved {
        assign: worker_assign("t1", "worker-1"),
        now_ms: 1200,
    });
    assert!(worker.is_executing());
    assert_eq!(actions.len(), 2);
}

#[test]
fn assignment_of_another_task_is_ignored() {
    let worker = worker_after_claim("worker-1", "t1", 1000);
    let (worker, actions) = worker.step(WorkerEvent::AssignObserved {
        assign: worker_assign("t2", "worker-1"),
        now_ms: 1100,
    });
    assert!(actions.is_empty());
    assert!(worker.is_awaiting_assignment());
}

#[test]
fn worker_never_executes_without_an_assignment() {
    let events = vec![
        WorkerEvent::Tick { now_ms: 1 },
        WorkerEvent::AssignObserved { assign: worker_assign("t1", "worker-1"), now_ms: 2 },
        WorkerEvent::ExecutionFinished { outcome: ExecutionOutcome::TimedOut, now_ms: 3 },
        WorkerEvent::JobAnnounced { job: worker_job("t1"), now_ms: 4 },
        WorkerEvent::Tick { now_ms: 5 },
        WorkerEvent::JobAnnounced { job: worker_job("t2"), now_ms: 6 },
        WorkerEvent::ExecutionFinished { outcome: ExecutionOutcome::TimedOut, now_ms: 7 },
        WorkerEvent::AssignObserved { assign: worker_assign("t2", "worker-1"), now_ms: 8 },
        WorkerEvent::AssignObserved { assign: worker_assign("t1", "worker-9"), now_ms: 9 },
        WorkerEvent::Tick { now_ms: 5000 },
        WorkerEvent::AssignObserved { assign: worker_assign("t1", "worker-1"), now_ms: 5001 },
    ];
    let mut worker = WorkerAgent::new("worker-1".to_string(), 100);
    for event in events {
        let (next, actions) = worker.step(event);
        for action in actions.iter() {
            assert!(!matches!(action, WorkerAction::Execute { .. }));
        }
        worker = next;
    }
    assert!(worker.is_idle());
}

#[test]
fn assignment_window_elapses_silently() {
    let worker = worker_after_claim("worker-1", "t1", 10_000);
    let (worker, actions) = worker.step(WorkerEvent::Tick { now_ms: 11_999 });
    assert!(actions.is_empty());
    assert!(worker.is_awaiting_assignment());
    let (worker, actions) = worker.step(WorkerEvent::Tick { now_ms: 12_000 });
    assert!(actions.is_empty());
    assert!(worker.is_idle());
    // the worker listens again and claims the next job
    let (worker, actions) =
        worker.step(WorkerEvent::JobAnnounced { job: worker_job("t2"), now_ms: 12_500 });
    assert!(worker.is_awaiting_assignment());
    assert_eq!(actions.len(), 2);
}

#[test]
fn late_assignment_is_not_honoured() {
    let worker = worker_after_claim("worker-1", "t1", 10_000);
    let (worker, actions) = worker.step(WorkerEvent::AssignObserved {
        assign: worker_assign("t1", "worker-1"),
        now_ms: 12_000,
    });
    assert!(actions.is_empty());
    assert!(worker.is_idle());
}

#[test]
fn busy_worker_leaves_announcements_alone() {
    let worker = worker_after_claim("worker-1", "t1", 0);
    let (worker, actions) =
        worker.step(WorkerEvent::JobAnnounced { job: worker_job("t2"), now_ms: 1 });
    assert!(actions.is_empty());
    assert!(worker.is_awaiting_assignment());
    let (worker, _) = worker.step(WorkerEvent::AssignObserved {
        assign: worker_assign("t1", "worker-1"),
        now_ms: 2,
    });
    let (worker, actions) =
        worker.step(WorkerEvent::JobAnnounced { job: worker_job("t3"), now_ms: 3 });
    assert!(actions.is_empty());
    assert!(worker.is_executing());
    let (worker, actions) = worker.step(WorkerEvent::Tick { now_ms: 1_000_000 });
    assert!(actions.is_empty());
    assert!(worker.is_executing());
}

fn worker_finish(outcome: ExecutionOutcome) -> Vec<WorkerAction> {
    let worker = worker_after_claim("worker-1", "t1", 1000);
    let (worker, _) = worker.step(WorkerEvent::AssignObserved {
        assign: worker_assign("t1", "worker-1"),
        now_ms: 1100,
    });
    let (worker, actions) =
        worker.step(WorkerEvent::ExecutionFinished { outcome, now_ms: 1850 });
    assert!(worker.is_idle());
    actions
}

#[test]
fn completed_execution_is_reported() {
    let outputs =
        vec![OutputValue { name: "factorial".to_string(), value: "3628800".to_string() }];
    let actions = worker_finish(ExecutionOutcome::Completed { outputs: outputs.clone() });
    assert_eq!(actions.len(), 2);
    match &actions[0] {
        WorkerAction::Publish(publication) => {
            assert_eq!(publication.topic, "comp/tasks/t1/result");
            match &publication.message {
                Message::Result(result) => {
                    assert_eq!(result.task_id, "t1");
                    assert_eq!(result.worker_id, "worker-1");
                    assert_eq!(result.status, TaskStatus::Completed);
                    assert_eq!(result.outputs, outputs);
                    assert_eq!(result.error, None);
                    assert_eq!(result.execution_time_ms, Some(750));
                    assert_eq!(result.completed_at_ms, 1850);
                }
                other => panic!("expected a result, got {:?}", other),
            }
        }
        other => panic!("expected a publication, got {:?}", other),
    }
    match &actions[1] {
        WorkerAction::Publish(publication) => {
            assert_eq!(publication.topic, "comp/tasks/t1/status");
            match &publication.message {
                Message::Status(status) => {
                    assert_eq!(status.status, TaskStatus::Completed);
                    assert_eq!(status.message, Some("Task completed successfully".to_string()));
                    assert_eq!(status.progress_percent, Some(100));
                    assert_eq!(status.timestamp_ms, 1850);
                }
                other => panic!("expected a status, got {:?}", other),
            }
        }
        other => panic!("expected a publication, got {:?}", other),
    }
}

#[test]
fn failed_execution_is_reported_as_failed() {
    let actions =
        worker_finish(ExecutionOutcome::Failed { message: "Unsupported language: cobol".to_string() });
    match &actions[0] {
        WorkerAction::Publish(publication) => match &publication.message {
            Message::Result(result) => {
                assert_eq!(result.status, TaskStatus::Failed);
                assert!(result.outputs.is_empty());
                assert_eq!(result.error, Some("Unsupported language: cobol".to_string()));
            }
            other => panic!("expected a result, got {:?}", other),
        },
        other => panic!("expected a publication, got {:?}", other),
    }
    match &actions[1] {
        WorkerAction::Publish(publication) => match &publication.message {
            Message::Status(status) => {
                assert_eq!(status.status, TaskStatus::Failed);
                assert_eq!(status.message, Some("Unsupported language: cobol".to_string()));
            }
            other => panic!("expected a status, got {:?}", other),
        },
        other => panic!("expected a publication, got {:?}", other),
    }
}

#[test]
fn timed_out_execution_is_reported_as_timeout() {
    let actions = worker_finish(ExecutionOutcome::TimedOut);
    match &actions[0] {
        WorkerAction::Publish(publication) => match &publication.message {
            Message::Result(result) => {
                assert_eq!(result.status, TaskStatus::Timeout);
                assert!(result.outputs.is_empty());
                assert_eq!(result.error, Some("Task exceeded its timeout".to_string()));
            }
            other => panic!("expected a result, got {:?}", other),
        },
        other => panic!("expected a publication, got {:?}", other),
    }
    match &actions[1] {
        WorkerAction::Publish(publication) => match &publication.message {
            Message::Status(status) => assert_eq!(status.status, TaskStatus::Timeout),
            other => panic!("expected a status, got {:?}", other),
        },
        other => panic!("expected a publication, got {:?}", other),
    }
}

#[test]
fn execution_time_is_zero_when_the_clock_goes_back() {
    let worker = worker_after_claim("worker-1", "t1", 1000);
    let (worker, _) = worker.step(WorkerEvent::AssignObserved {
        assign: worker_assign("t1", "worker-1"),
        now_ms: 1100,
    });
    let (_, actions) = worker
        .step(WorkerEvent::ExecutionFinished { outcome: ExecutionOutcome::TimedOut, now_ms: 900 });
    match &actions[0] {
        WorkerAction::Publish(publication) => match &publication.message {
            Message::Result(result) => assert_eq!(result.execution_time_ms, Some(0)),
            other => panic!("expected a result, got {:?}", other),
        },
        other => panic!("expected a publication, got {:?}", other),
    }
}

#[test]
fn worker_resumes_after_reporting() {
    let worker = worker_after_claim("worker-1", "t1", 0);
    let (worker, _) = worker.step(WorkerEvent::AssignObserved {
        assign: worker_assign("t1", "worker-1"),
        now_ms: 1,
    });
    let (worker, _) = worker.step(WorkerEvent::ExecutionFinished {
        outcome: ExecutionOutcome::Failed { message: "boom".to_string() },
        now_ms: 2,
    });
    let (worker, actions) =
        worker.step(WorkerEvent::JobAnnounced { job: worker_job("t2"), now_ms: 3 });
    assert!(worker.is_awaiting_assignment());
    assert_eq!(actions.len(), 2);
}

#[test]
fn every_execution_is_reported_once() {
    let mut worker = WorkerAgent::new("worker-1".to_string(), 100);
    let mut executions = 0;
    let mut results = 0;
    let mut now_ms = 0;
    for round in 0..6 {
        let task_id = format!("t{}", round);
        let events = vec![
            WorkerEvent::JobAnnounced { job: worker_job(&task_id), now_ms: now_ms + 1 },
            WorkerEvent::AssignObserved {
                assign: worker_assign(&task_id, if round % 2 == 0 { "worker-1" } else { "worker-2" }),
                now_ms: now_ms + 2,
            },
            WorkerEvent::ExecutionFinished {
                outcome: ExecutionOutcome::Failed { message: "x".to_string() },
                now_ms: now_ms + 3,
            },
            WorkerEvent::ExecutionFinished { outcome: ExecutionOutcome::TimedOut, now_ms: now_ms + 4 },
            WorkerEvent::Tick { now_ms: now_ms + 5000 },
        ];
        now_ms += 10_000;
        for event in events {
            let (next, actions) = worker.step(event);
            worker = next;
            for action in actions {
                match action {
                    WorkerAction::Execute { .. } => executions += 1,
                    WorkerAction::Publish(publication) => {
                        if matches!(publication.message, Message::Result(_)) {
                            results += 1;
                        }
                    }
                    WorkerAction::AwaitAssignment { .. } => {}
                }
            }
        }
        assert!(worker.is_idle());
    }
    assert_eq!(executions, 3);
    assert_eq!(results, 3);
}
