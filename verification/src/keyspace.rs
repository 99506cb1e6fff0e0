//! Topic names of the dispatch protocol.
//!
//! Every channel of a task lives under `<namespace>/tasks/<task_id>/`, and the
//! announcements of a queue under `<namespace>/queues/<queue>/announce`.

use vstd::prelude::*;
use vstd::string::*;

verus! {

/// Namespace under which every topic of the protocol lives.
pub const NS: &'static str = "comp";

/// Queue that `k_announce` addresses.
pub const QUEUE: &'static str = "user_tasks";

/// Topic on which the jobs of `queue` are announced.
pub open spec fn announce_topic(queue: Seq<char>) -> Seq<char> {
    NS@ + "/queues/"@ + queue + "/announce"@
}

/// Common prefix of the four channels of one task.
pub open spec fn task_topic(task_id: Seq<char>) -> Seq<char> {
    NS@ + "/tasks/"@ + task_id
}

/// Topic of the claims for a task.
pub open spec fn claim_topic(task_id: Seq<char>) -> Seq<char> {
    task_topic(task_id) + "/claim"@
}

/// Topic of the assignment of a task.
pub open spec fn assign_topic(task_id: Seq<char>) -> Seq<char> {
    task_topic(task_id) + "/assign"@
}

/// Topic of the status records of a task.
pub open spec fn status_topic(task_id: Seq<char>) -> Seq<char> {
    task_topic(task_id) + "/status"@
}

/// Topic of the result of a task.
pub open spec fn result_topic(task_id: Seq<char>) -> Seq<char> {
    task_topic(task_id) + "/result"@
}

/// Announce topic of an arbitrary queue.
pub fn k_queue_announce(queue: &str) -> (key: String)
    ensures
        key@ == announce_topic(queue@),
{
    let mut key = String::from_str(NS);
    key.append("/queues/");
    key.append(queue);
    key.append("/announce");
    key
}

/// Announce topic of the default queue.
pub fn k_announce() -> (key: String)
    ensures
        key@ == announce_topic(QUEUE@),
{
    k_queue_announce(QUEUE)
}

/// Common prefix of the topics of the task `task_id`.
pub fn k_task(task_id: &str) -> (key: String)
    ensures
        key@ == task_topic(task_id@),
{
    let mut key = String::from_str(NS);
    key.append("/tasks/");
    key.append(task_id);
    key
}

/// Topic on which workers claim the task `task_id`.
pub fn k_claim(task_id: &str) -> (key: String)
    ensures
        key@ == claim_topic(task_id@),
{
    let mut key = k_task(task_id);
    key.append("/claim");
    key
}

/// Topic on which the task `task_id` is assigned.
pub fn k_assign(task_id: &str) -> (key: String)
    ensures
        key@ == assign_topic(task_id@),
{
    let mut key = k_task(task_id);
    key.append("/assign");
    key
}

/// Topic of the status records of the task `task_id`.
pub fn k_status(task_id: &str) -> (key: String)
    ensures
        key@ == status_topic(task_id@),
{
    let mut key = k_task(task_id);
    key.append("/status");
    key
}

/// Topic of the result of the task `task_id`.
pub fn k_result(task_id: &str) -> (key: String)
    ensures
        key@ == result_topic(task_id@),
{
    let mut key = k_task(task_id);
    key.append("/result");
    key
}

/// Pattern that covers the claim topic of every task.
pub open spec fn all_claims_pattern() -> Seq<char> {
    claim_topic("*"@)
}

/// Pattern that covers the result topic of every task.
pub open spec fn all_results_pattern() -> Seq<char> {
    result_topic("*"@)
}

/// The pattern to subscribe to for the claims of all tasks.
pub fn k_all_claims() -> (pattern: String)
    ensures
        pattern@ == all_claims_pattern(),
{
    k_claim("*")
}

/// The pattern to subscribe to for the results of all tasks.
pub fn k_all_results() -> (pattern: String)
    ensures
        pattern@ == all_results_pattern(),
{
    k_result("*")
}

/// Text that is written between the same prefix and the same suffix is the
/// same text if the whole is.
proof fn lemma_middle_is_determined(
    prefix: Seq<char>,
    a: Seq<char>,
    b: Seq<char>,
    suffix: Seq<char>,
)
    requires
        prefix + a + suffix == prefix + b + suffix,
    ensures
        a == b,
{
    let left = prefix + a + suffix;
    let right = prefix + b + suffix;
    assert(left.len() == right.len());
    assert(a.len() == b.len());
    assert forall|i: int| 0 <= i < a.len() implies a[i] == b[i] by {
        assert(left[prefix.len() + i] == a[i]);
        assert(right[prefix.len() + i] == b[i]);
    }
    assert(a =~= b);
}

/// Different tasks have different topics, and different queues different
/// announce topics: each topic determines the identifier it was made from.
pub proof fn law_topics_determine_their_task(a: Seq<char>, b: Seq<char>)
    ensures
        task_topic(a) == task_topic(b) ==> a == b,
        claim_topic(a) == claim_topic(b) ==> a == b,
        assign_topic(a) == assign_topic(b) ==> a == b,
        status_topic(a) == status_topic(b) ==> a == b,
        result_topic(a) == result_topic(b) ==> a == b,
        announce_topic(a) == announce_topic(b) ==> a == b,
{
    let prefix = NS@ + "/tasks/"@;
    if task_topic(a) == task_topic(b) {
        assert(prefix + a + Seq::<char>::empty() =~= task_topic(a));
        assert(prefix + b + Seq::<char>::empty() =~= task_topic(b));
        lemma_middle_is_determined(prefix, a, b, Seq::empty());
    }
    if claim_topic(a) == claim_topic(b) {
        lemma_middle_is_determined(prefix, a, b, "/claim"@);
    }
    if assign_topic(a) == assign_topic(b) {
        lemma_middle_is_determined(prefix, a, b, "/assign"@);
    }
    if status_topic(a) == status_topic(b) {
        lemma_middle_is_determined(prefix, a, b, "/status"@);
    }
    if result_topic(a) == result_topic(b) {
        lemma_middle_is_determined(prefix, a, b, "/result"@);
    }
    if announce_topic(a) == announce_topic(b) {
        lemma_middle_is_determined(NS@ + "/queues/"@, a, b, "/announce"@);
    }
}

/// The four channels never meet: whatever the task identifiers are, a claim
/// topic is no assign, status or result topic, and so on for each pair.
pub proof fn law_channels_are_disjoint(a: Seq<char>, b: Seq<char>)
    ensures
        claim_topic(a) != assign_topic(b),
        claim_topic(a) != status_topic(b),
        claim_topic(a) != result_topic(b),
        assign_topic(a) != status_topic(b),
        assign_topic(a) != result_topic(b),
        status_topic(a) != result_topic(b),
{
    reveal_strlit("/claim");
    reveal_strlit("/assign");
    reveal_strlit("/status");
    reveal_strlit("/result");
    assert(claim_topic(a).last() == 'm');
    assert(assign_topic(b).last() == 'n');
    assert(assign_topic(a).last() == 'n');
    assert(status_topic(b).last() == 's');
    assert(status_topic(a).last() == 's');
    assert(result_topic(b).last() == 't');
}

} // verus!
