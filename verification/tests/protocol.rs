use corebrum::assigner::assignment_publications;
use corebrum::assigner::ArbitrationPolicy;
use corebrum::assigner::Assigner;
use corebrum::bus::Message;
use corebrum::bus::Publication;
use corebrum::executor::DynamicTaskExecutor;
use corebrum::executor::ExecutionOutcome;
use corebrum::executor::ExecutorAction;
use corebrum::executor::ExecutorEvent;
use corebrum::schema::Assign;
use corebrum::schema::Claim;
use corebrum::schema::Job;
use corebrum::schema::Status;
use corebrum::schema::Result;
use corebrum::schema::TaskSource;
use corebrum::schema::TaskStatus;
use corebrum::submitter::announce;
use corebrum::submitter::submit;
use corebrum::tasks::factorial_task_definition;
use corebrum::worker::WorkerAction;
use corebrum::worker::WorkerAgent;
use corebrum::worker::WorkerEvent;

#[test]
fn submission_announces_the_job_on_its_queue() {
    let definition = factorial_task_definition(10);
    let submission =
        submit("user_tasks".to_string(), definition.clone(), "{\"number\":10}".to_string());
    assert_eq!(submission.task_id.chars().count(), 36);
    assert_eq!(submission.publication.topic, "comp/queues/user_tasks/announce");
    match &submission.publication.message {
        Message::Job(job) => {
            assert_eq!(job.task_id, submission.task_id);
            assert_eq!(job.queue, "user_tasks");
            assert_eq!(job.task_definition, Some(definition));
            assert_eq!(job.inputs, "{\"number\":10}");
            assert_eq!(job.priority, Some(0));
            assert_eq!(job.timeout_seconds, Some(300));
        }
        other => panic!("expected a job, got {:?}", other),
    }
}

#[test]
fn announcement_goes_to_the_queue_of_the_job() {
    let job = Job::user_task(
        "id-7".to_string(),
        9,
        "gpu".to_string(),
        factorial_task_definition(3),
        "{}".to_string(),
    );
    let submission = announce(job.clone());
    assert_eq!(submission.task_id, "id-7");
    assert_eq!(submission.publication.topic, "comp/queues/gpu/announce");
    assert_eq!(submission.publication.message, Message::Job(job));
}

#[test]
fn publications_go_to_the_topic_of_their_task() {
    let claim = Claim {
        task_id: "a".to_string(),
        worker_id: "w".to_string(),
        eta_ms: 1,
        lease_until_ms: 2,
        claimed_at_ms: 3,
    };
    assert_eq!(Publication::of_claim(claim.clone()).topic, "comp/tasks/a/claim");
    assert_eq!(Publication::of_claim(claim.clone()).message, Message::Claim(claim));
    let assign = Assign {
        task_id: "b".to_string(),
        worker_id: "w".to_string(),
        assigned_at_ms: 1,
        deadline_s: 2,
    };
    assert_eq!(Publication::of_assign(assign.clone()).topic, "comp/tasks/b/assign");
    assert_eq!(Publication::of_assign(assign.clone()).message, Message::Assign(assign));
    let status = Status {
        task_id: "c".to_string(),
        worker_id: "w".to_string(),
        status: TaskStatus::Pending,
        message: None,
        progress_percent: None,
        timestamp_ms: 0,
    };
    assert_eq!(Publication::of_status(status.clone()).topic, "comp/tasks/c/status");
    assert_eq!(Publication::of_status(status.clone()).message, Message::Status(status));
    let result = Result {
        task_id: "d".to_string(),
        worker_id: "w".to_string(),
        status: TaskStatus::Cancelled,
        outputs: vec![],
        error: Some("cancelled".to_string()),
        execution_time_ms: None,
        completed_at_ms: 0,
    };
    assert_eq!(Publication::of_result(result.clone()).topic, "comp/tasks/d/result");
    assert_eq!(Publication::of_result(result.clone()).message, Message::Result(result));
}

/// Runs the executor on `job` as a driver would whose interpreter prints `stdout`.
fn protocol_execute(job: &Job, stdout: &str) -> ExecutionOutcome {
    let (mut executor, mut action) = DynamicTaskExecutor::new().execute_job(job);
    let mut steps = 0;
    while !executor.is_finished() {
        steps += 1;
        assert!(steps <= 8);
        let report = match action {
            ExecutorAction::Run { .. } => ExecutorEvent::Exited {
                success: true,
                stdout: stdout.as_bytes().to_vec(),
                stderr: String::new(),
            },
            ExecutorAction::Fetch { .. } | ExecutorAction::ReadFile { .. } => {
                ExecutorEvent::Text { content: "pass".to_string() }
            }
            ExecutorAction::GitClone { .. } => ExecutorEvent::Exited {
                success: true,
                stdout: vec![],
                stderr: String::new(),
            },
            ExecutorAction::Nothing => panic!("the executor stalled"),
            _ => ExecutorEvent::Done,
        };
        let (next, asked) = executor.advance(report);
        executor = next;
        action = asked;
    }
    executor.outcome().unwrap()
}

/// One task through the whole handshake, with two workers racing for it.
fn protocol_round(policy: ArbitrationPolicy, job: Job, stdout: &str) -> (Assign, Vec<Publication>) {
    let mut assigner = Assigner::new(policy);
    let mut workers = vec![
        WorkerAgent::new("worker-2".to_string(), 200),
        WorkerAgent::new("worker-1".to_string(), 100),
    ];
    let mut published: Vec<Publication> = Vec::new();
    let mut claims: Vec<Claim> = Vec::new();

    // announcement reaches the assigner and both workers
    assigner.on_job(job.clone(), 1000);
    let mut next_workers = Vec::new();
    for (i, worker) in workers.drain(..).enumerate() {
        let now_ms = 1001 + i as u64;
        let (worker, actions) = worker.step(WorkerEvent::JobAnnounced { job: job.clone(), now_ms });
        for action in actions {
            if let WorkerAction::Publish(publication) = action {
                if let Message::Claim(claim) = &publication.message {
                    claims.push(claim.clone());
                }
                published.push(publication);
            }
        }
        next_workers.push(worker);
    }
    workers = next_workers;

    // claims reach the assigner, then time passes
    let mut made: Vec<Assign> = Vec::new();
    for claim in claims {
        let now_ms = claim.claimed_at_ms + 10;
        made.extend(assigner.on_claim(claim, now_ms));
    }
    made.extend(assigner.on_tick(1200));
    assert_eq!(made.len(), 1);
    let assign = made.pop().unwrap();
    published.extend(assignment_publications(assign.clone()));

    // both workers observe the assignment
    let mut executions = 0;
    for worker in workers {
        let (worker, actions) =
            worker.step(WorkerEvent::AssignObserved { assign: assign.clone(), now_ms: 1300 });
        let mut to_run: Option<Job> = None;
        for action in actions {
            match action {
                WorkerAction::Publish(publication) => published.push(publication),
                WorkerAction::Execute { job } => to_run = Some(job),
                WorkerAction::AwaitAssignment { .. } => panic!("unexpected subscription"),
            }
        }
        match to_run {
            Some(job) => {
                executions += 1;
                assert_eq!(worker.worker_id(), &assign.worker_id);
                let outcome = protocol_execute(&job, stdout);
                let (worker, actions) =
                    worker.step(WorkerEvent::ExecutionFinished { outcome, now_ms: 1400 });
                assert!(worker.is_idle());
                for action in actions {
                    if let WorkerAction::Publish(publication) = action {
                        published.push(publication);
                    }
                }
            }
            None => {
                assert!(worker.is_awaiting_assignment());
                let (worker, actions) = worker.step(WorkerEvent::Tick { now_ms: 4000 });
                assert!(actions.is_empty());
                assert!(worker.is_idle());
            }
        }
    }
    assert_eq!(executions, 1);
    (assign, published)
}

fn protocol_results(published: &[Publication]) -> Vec<&Result> {
    published
        .iter()
        .filter_map(|publication| match &publication.message {
            Message::Result(result) => Some(result),
            _ => None,
        })
        .collect()
}

fn protocol_statuses(published: &[Publication]) -> Vec<TaskStatus> {
    published
        .iter()
        .filter_map(|publication| match &publication.message {
            Message::Status(status) => Some(status.status),
            _ => None,
        })
        .collect()
}

#[test]
fn factorial_task_runs_through_the_whole_handshake() {
    let job = Job::new_user_task(
        "user_tasks".to_string(),
        factorial_task_definition(10),
        "{\"number\": 10}".to_string(),
    );
    let (assign, published) = protocol_round(
        ArbitrationPolicy::Immediate,
        job.clone(),
        "{\"factorial\": 3628800, \"input_number\": 10}\n",
    );
    assert_eq!(assign.task_id, job.task_id);
    // the first claim received wins
    assert_eq!(assign.worker_id, "worker-2");
    let results = protocol_results(&published);
    assert_eq!(results.len(), 1);
    let result = results[0];
    assert_eq!(result.task_id, job.task_id);
    assert_eq!(result.worker_id, "worker-2");
    assert_eq!(result.status, TaskStatus::Completed);
    assert_eq!(result.error, None);
    let factorial = result.outputs.iter().find(|output| output.name == "factorial").unwrap();
    assert_eq!(factorial.value, "3628800");
    assert_eq!(
        protocol_statuses(&published),
        vec![TaskStatus::Assigned, TaskStatus::Running, TaskStatus::Completed]
    );
    for publication in published.iter() {
        assert!(publication.topic.starts_with(&format!("comp/tasks/{}/", job.task_id)));
    }
}

#[test]
fn best_effort_handshake_picks_the_faster_worker() {
    let job = Job::new_user_task(
        "user_tasks".to_string(),
        factorial_task_definition(5),
        "{\"number\": 5}".to_string(),
    );
    let (assign, published) = protocol_round(
        ArbitrationPolicy::Windowed { window_ms: 100 },
        job,
        "{\"factorial\": 120}",
    );
    assert_eq!(assign.worker_id, "worker-1");
    let results = protocol_results(&published);
    assert_eq!(results.len(), 1);
    assert_eq!(results[0].worker_id, "worker-1");
    assert_eq!(results[0].status, TaskStatus::Completed);
}

#[test]
fn unsupported_source_ends_in_a_failed_result() {
    for (source, message) in [
        (TaskSource::Wasm { wasm_bytes: vec![0, 1, 2] }, "WASM execution not yet implemented"),
        (
            TaskSource::Docker { image: "img".to_string(), command: vec![] },
            "Docker execution not yet implemented",
        ),
    ] {
        let mut definition = factorial_task_definition(10);
        definition.source = source;
        let job = Job::new_user_task("user_tasks".to_string(), definition, "{}".to_string());
        let (_, published) = protocol_round(ArbitrationPolicy::Immediate, job, "{}");
        let results = protocol_results(&published);
        assert_eq!(results.len(), 1);
        assert_eq!(results[0].status, TaskStatus::Failed);
        assert_eq!(results[0].error, Some(message.to_string()));
        assert!(results[0].outputs.is_empty());
        assert_eq!(
            protocol_statuses(&published),
            vec![TaskStatus::Assigned, TaskStatus::Running, TaskStatus::Failed]
        );
    }
}
