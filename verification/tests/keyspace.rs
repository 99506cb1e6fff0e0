use corebrum::keyspace::k_all_claims;
use corebrum::keyspace::k_all_results;
use corebrum::keyspace::k_announce;
use corebrum::keyspace::k_assign;
use corebrum::keyspace::k_claim;
use corebrum::keyspace::k_queue_announce;
use corebrum::keyspace::k_result;
use corebrum::keyspace::k_status;
use corebrum::keyspace::k_task;
use corebrum::keyspace::NS;
use corebrum::keyspace::QUEUE;

#[test]
fn announce_key_names_namespace_and_queue() {
    assert_eq!(NS, "comp");
    assert_eq!(QUEUE, "user_tasks");
    assert_eq!(k_announce(), "comp/queues/user_tasks/announce");
}

#[test]
fn announce_key_of_any_queue() {
    assert_eq!(k_queue_announce("gpu"), "comp/queues/gpu/announce");
    assert_eq!(k_queue_announce(QUEUE), k_announce());
    assert_eq!(k_queue_announce(""), "comp/queues//announce");
}

#[test]
fn task_keys_share_the_task_prefix() {
    assert_eq!(k_task("t-1"), "comp/tasks/t-1");
    assert_eq!(k_claim("t-1"), "comp/tasks/t-1/claim");
    assert_eq!(k_assign("t-1"), "comp/tasks/t-1/assign");
    assert_eq!(k_status("t-1"), "comp/tasks/t-1/status");
    assert_eq!(k_result("t-1"), "comp/tasks/t-1/result");
}

#[test]
fn wildcard_keys_cover_all_tasks() {
    assert_eq!(k_all_claims(), "comp/tasks/*/claim");
    assert_eq!(k_all_results(), "comp/tasks/*/result");
}

#[test]
fn keys_of_different_tasks_differ() {
    assert_ne!(k_claim("a"), k_claim("b"));
    assert_ne!(k_result("a"), k_result("b"));
    assert_ne!(k_queue_announce("a"), k_queue_announce("b"));
}

#[test]
fn channels_of_one_task_differ() {
    let keys = vec![k_claim("x"), k_assign("x"), k_status("x"), k_result("x")];
    for i in 0..keys.len() {
        for j in 0..keys.len() {
            if i != j {
                assert_ne!(keys[i], keys[j]);
            }
        }
    }
}

#[test]
fn keys_keep_unicode_task_ids() {
    assert_eq!(k_claim("tâche-é"), "comp/tasks/tâche-é/claim");
}
