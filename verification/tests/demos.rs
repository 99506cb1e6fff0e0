use corebrum::assigner::ArbitrationPolicy;
use corebrum::bus::Message;
use corebrum::demos::FixedUserDefinedDemo;
use corebrum::demos::FixedZenohDemo;
use corebrum::demos::SimpleUserDefinedDemo;
use corebrum::demos::SimpleZenohDemo;
use corebrum::demos::UserDefinedDemo;
use corebrum::demos::WorkingUserZenohDemo;
use corebrum::schema::Job;
use corebrum::signal::RunFlag;
use corebrum::tasks::factorial_task_definition;
use corebrum::tasks::fibonacci_task_definition;
use corebrum::worker::WorkerAction;
use corebrum::worker::WorkerEvent;

fn demos_job(task_id: &str) -> Job {
    Job {
        task_id: task_id.to_string(),
        queue: "user_tasks".to_string(),
        task_definition: None,
        inputs: "{}".to_string(),
        priority: None,
        created_at_ms: 0,
        timeout_seconds: None,
    }
}

#[test]
fn run_flag_is_up_until_lowered() {
    let flag = RunFlag::new();
    assert!(flag.is_up());
    let share = flag.share();
    assert!(share.is_up());
    share.lower();
    assert!(!flag.is_up());
    assert!(!share.is_up());
    assert!(RunFlag::new().is_up());
}

#[test]
fn fixed_user_demo_runs_the_direct_handshake() {
    let demo = FixedUserDefinedDemo::new();
    assert!(demo.is_running());
    let profile = demo.profile();
    assert_eq!(profile.policy, ArbitrationPolicy::Immediate);
    assert_eq!(profile.deadline_s, 30);
    assert_eq!(profile.assignment_window_ms, 1000);
    assert_eq!(profile.lease_ms, 200);
    assert_eq!(profile.settle_ms, 0);
    assert_eq!(profile.poll_ms, 0);
    assert_eq!(profile.assign_delay_ms, 0);
    assert_eq!(profile.fixed_eta_ms, None);
}

#[test]
fn zenoh_demos_run_the_paced_handshake() {
    let profiles = [
        FixedZenohDemo::new().profile(),
        SimpleZenohDemo::new().profile(),
        WorkingUserZenohDemo::new().profile(),
    ];
    for profile in profiles {
        assert_eq!(profile.policy, ArbitrationPolicy::Immediate);
        assert_eq!(profile.deadline_s, 30);
        assert_eq!(profile.assignment_window_ms, 2000);
        assert_eq!(profile.lease_ms, 200);
        assert_eq!(profile.settle_ms, 100);
        assert_eq!(profile.poll_ms, 100);
        assert_eq!(profile.assign_delay_ms, 200);
        assert_eq!(profile.fixed_eta_ms, None);
    }
}

#[test]
fn user_defined_demo_arbitrates_over_a_window() {
    let profile = UserDefinedDemo::new().profile();
    assert_eq!(profile.policy, ArbitrationPolicy::Windowed { window_ms: 100 });
    assert_eq!(profile.assignment_window_ms, 1000);
    assert_eq!(profile.poll_ms, 10);
    assert_eq!(profile.fixed_eta_ms, Some(5000));
    let assigner = profile.assigner();
    assert_eq!(assigner.policy(), ArbitrationPolicy::Windowed { window_ms: 100 });
    assert_eq!(assigner.pending_count(), 0);
}

#[test]
fn stopping_a_demo_reaches_every_share() {
    let demo = FixedZenohDemo::new();
    let share = demo.share();
    assert!(share.is_running());
    demo.stop();
    assert!(!demo.is_running());
    assert!(!share.is_running());
    assert_eq!(share.profile().assignment_window_ms, 2000);
    assert!(FixedZenohDemo::new().is_running());
    let simple = SimpleUserDefinedDemo::new();
    assert!(simple.is_running());
    simple.stop();
    assert!(!simple.is_running());
    assert!(!simple.executor().is_in_flight());
}

#[test]
fn profile_configures_its_workers() {
    let profile = FixedZenohDemo::new().profile();
    let worker = profile.worker("worker-2".to_string(), 200);
    assert_eq!(worker.worker_id(), "worker-2");
    let (worker, actions) =
        worker.step(WorkerEvent::JobAnnounced { job: demos_job("t"), now_ms: 1000 });
    match &actions[0] {
        WorkerAction::Publish(publication) => match &publication.message {
            Message::Claim(claim) => {
                assert_eq!(claim.eta_ms, 200);
                assert_eq!(claim.lease_until_ms, 1200);
            }
            other => panic!("expected a claim, got {:?}", other),
        },
        other => panic!("expected a publication, got {:?}", other),
    }
    let (worker, _) = worker.step(WorkerEvent::Tick { now_ms: 2999 });
    assert!(worker.is_awaiting_assignment());
    let (worker, _) = worker.step(WorkerEvent::Tick { now_ms: 3000 });
    assert!(worker.is_idle());
}

#[test]
fn windowed_profile_gives_every_claim_the_same_estimate() {
    let profile = UserDefinedDemo::new().profile();
    for latency in [100, 150] {
        let worker = profile.worker("w".to_string(), latency);
        let (worker, actions) =
            worker.step(WorkerEvent::JobAnnounced { job: demos_job("t"), now_ms: 0 });
        match &actions[0] {
            WorkerAction::Publish(publication) => match &publication.message {
                Message::Claim(claim) => assert_eq!(claim.eta_ms, 5000),
                other => panic!("expected a claim, got {:?}", other),
            },
            other => panic!("expected a publication, got {:?}", other),
        }
        let (worker, _) = worker.step(WorkerEvent::Tick { now_ms: 999 });
        assert!(worker.is_awaiting_assignment());
        let (worker, _) = worker.step(WorkerEvent::Tick { now_ms: 1000 });
        assert!(worker.is_idle());
    }
}

#[test]
fn demos_offer_the_sample_tasks() {
    assert_eq!(
        FixedUserDefinedDemo::create_factorial_task_definition(10),
        factorial_task_definition(10)
    );
    assert_eq!(
        FixedUserDefinedDemo::create_fibonacci_task_definition(15),
        fibonacci_task_definition(15)
    );
    assert_eq!(FixedZenohDemo::create_factorial_task_definition(8), factorial_task_definition(8));
    assert_eq!(
        SimpleUserDefinedDemo::create_factorial_task_definition(12),
        factorial_task_definition(12)
    );
    assert_eq!(
        SimpleUserDefinedDemo::create_fibonacci_task_definition(20),
        fibonacci_task_definition(20)
    );
    assert_eq!(UserDefinedDemo::create_factorial_task_definition(3), factorial_task_definition(3));
    assert_eq!(UserDefinedDemo::create_fibonacci_task_definition(1), fibonacci_task_definition(1));
    assert_ne!(factorial_task_definition(3), factorial_task_definition(4));
}
