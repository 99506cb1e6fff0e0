//! What holds of every history of the assigner: no task is assigned twice,
//! and every assignment answers a claim for an announced task.

use vstd::prelude::*;
use crate::assigner::best_claim;
use crate::assigner::decision;
use crate::assigner::first_claim;
use crate::assigner::outbids;
use crate::assigner::pending_position;
use crate::assigner::sweep_decides;
use crate::assigner::sweep_keeps;
use crate::assigner::window_elapsed;
use crate::assigner::ArbitrationPolicy;
use crate::assigner::AssignerEventView;
use crate::assigner::AssignerView;
use crate::assigner::PendingJobView;
use crate::schema::AssignView;
use crate::schema::ClaimView;

verus! {

/// `event` announces the task `task_id`.
pub open spec fn announces(event: AssignerEventView, task_id: Seq<char>) -> bool {
    event matches AssignerEventView::JobAnnounced { job, .. } && job.task_id == task_id
}

/// `event` is a claim of `worker_id` for `task_id`.
pub open spec fn claims_for(event: AssignerEventView, task_id: Seq<char>, worker_id: Seq<char>)
    -> bool {
    event matches AssignerEventView::ClaimReceived { claim, .. } && claim.task_id == task_id
        && claim.worker_id == worker_id
}

/// Some event of the history announces `task_id`.
pub open spec fn announced_in(events: Seq<AssignerEventView>, task_id: Seq<char>) -> bool {
    exists|k: int| 0 <= k < events.len() && announces(#[trigger] events[k], task_id)
}

/// Some event of the history is a claim of `worker_id` for `task_id`.
pub open spec fn claimed_in(
    events: Seq<AssignerEventView>,
    task_id: Seq<char>,
    worker_id: Seq<char>,
) -> bool {
    exists|k: int| 0 <= k < events.len() && claims_for(#[trigger] events[k], task_id, worker_id)
}

/// No two announcements of the history carry the same task identifier.
pub open spec fn announced_once(events: Seq<AssignerEventView>) -> bool {
    forall|i: int, j: int, task_id: Seq<char>|
        0 <= i < j < events.len() && #[trigger] announces(events[i], task_id) ==> !#[trigger] announces(
            events[j],
            task_id,
        )
}

/// No two of the assignments name the same task.
pub open spec fn one_assignment_each(made: Seq<AssignView>) -> bool {
    forall|i: int, j: int|
        0 <= i < j < made.len() ==> (#[trigger] made[i]).task_id != (#[trigger] made[j]).task_id
}

/// `task_id` is among the pending jobs.
pub open spec fn holds_task(pending: Seq<PendingJobView>, task_id: Seq<char>) -> bool {
    exists|k: int| 0 <= k < pending.len() && (#[trigger] pending[k]).job.task_id == task_id
}

/// `pending_position` finds the first pending entry of the task, and finds
/// none only where there is none.
pub proof fn law_pending_position_is_first(pending: Seq<PendingJobView>, task_id: Seq<char>)
    ensures
        match pending_position(pending, task_id) {
            Some(i) => 0 <= i < pending.len() && pending[i].job.task_id == task_id && forall|
                j: int,
            |
                0 <= j < i ==> (#[trigger] pending[j]).job.task_id != task_id,
            None => forall|j: int|
                0 <= j < pending.len() ==> (#[trigger] pending[j]).job.task_id != task_id,
        },
    decreases pending.len(),
{
    if pending.len() > 0 {
        let front = pending.drop_last();
        law_pending_position_is_first(front, task_id);
        assert(forall|j: int| 0 <= j < front.len() ==> front[j] == pending[j]);
    }
}

/// `first_claim` finds the first claim received for the task, and finds none
/// only where there is none.
pub proof fn law_first_claim_is_first(claims: Seq<ClaimView>, task_id: Seq<char>)
    ensures
        match first_claim(claims, task_id) {
            Some(f) => 0 <= f < claims.len() && claims[f].task_id == task_id && forall|j: int|
                0 <= j < f ==> (#[trigger] claims[j]).task_id != task_id,
            None => forall|j: int|
                0 <= j < claims.len() ==> (#[trigger] claims[j]).task_id != task_id,
        },
    decreases claims.len(),
{
    if claims.len() > 0 {
        let front = claims.drop_last();
        law_first_claim_is_first(front, task_id);
        assert(forall|j: int| 0 <= j < front.len() ==> front[j] == claims[j]);
    }
}

/// The best bid for a task is a claim for that task which no claim for the
/// task outbids and which outbids every earlier claim for the task: the
/// lowest estimate wins, among equal estimates the earliest claim, and among
/// claims equal in both the one received first. There is none only where the
/// task has no claim.
pub proof fn law_best_bid_wins(claims: Seq<ClaimView>, task_id: Seq<char>)
    ensures
        match best_claim(claims, task_id) {
            Some(b) => {
                &&& 0 <= b < claims.len()
                &&& claims[b].task_id == task_id
                &&& forall|j: int|
                    0 <= j < claims.len() && (#[trigger] claims[j]).task_id == task_id ==> !outbids(
                        claims[j],
                        claims[b],
                    )
                &&& forall|j: int|
                    0 <= j < b && (#[trigger] claims[j]).task_id == task_id ==> outbids(
                        claims[b],
                        claims[j],
                    )
            },
            None => forall|j: int|
                0 <= j < claims.len() ==> (#[trigger] claims[j]).task_id != task_id,
        },
    decreases claims.len(),
{
    if claims.len() > 0 {
        let front = claims.drop_last();
        law_best_bid_wins(front, task_id);
        assert(forall|j: int| 0 <= j < front.len() ==> front[j] == claims[j]);
    }
}

/// Only one index can be the best bid in the sense of `law_best_bid_wins`.
pub proof fn law_best_bid_is_unique(claims: Seq<ClaimView>, task_id: Seq<char>, b: int)
    requires
        0 <= b < claims.len(),
        claims[b].task_id == task_id,
        forall|j: int|
            0 <= j < claims.len() && (#[trigger] claims[j]).task_id == task_id ==> !outbids(
                claims[j],
                claims[b],
            ),
        forall|j: int|
            0 <= j < b && (#[trigger] claims[j]).task_id == task_id ==> outbids(
                claims[b],
                claims[j],
            ),
    ensures
        best_claim(claims, task_id) == Some(b),
{
    law_best_bid_wins(claims, task_id);
    let found = best_claim(claims, task_id);
    assert(found is Some) by {
        if found is None {
            assert(claims[b].task_id != task_id);
        }
    }
    let c = found->0;
    if c < b {
        // `b` would have to outbid the earlier `c`, which nothing outbids
        assert(claims[c].task_id == task_id);
        assert(outbids(claims[b], claims[c]));
    } else if b < c {
        // `c` would have to outbid the earlier `b`, which nothing outbids
        assert(outbids(claims[c], claims[b]));
    }
}

/// What a sweep keeps was pending and is not due; what it decides is the
/// best bid of a pending job that is due.
proof fn lemma_sweep_members(
    pending: Seq<PendingJobView>,
    claims: Seq<ClaimView>,
    window_ms: u64,
    now_ms: u64,
    deadline_s: u64,
)
    ensures
        forall|k: int|
            0 <= k < sweep_keeps(pending, window_ms, now_ms).len() ==> kept_from(
                pending,
                #[trigger] sweep_keeps(pending, window_ms, now_ms)[k],
                window_ms,
                now_ms,
            ),
        forall|k: int|
            0 <= k < sweep_decides(pending, claims, window_ms, now_ms, deadline_s).len()
                ==> decided_from(
                pending,
                claims,
                #[trigger] sweep_decides(pending, claims, window_ms, now_ms, deadline_s)[k],
                window_ms,
                now_ms,
                deadline_s,
            ),
    decreases pending.len(),
{
    if pending.len() > 0 {
        let front = pending.drop_last();
        let last = pending.len() - 1;
        lemma_sweep_members(front, claims, window_ms, now_ms, deadline_s);
        let keeps = sweep_keeps(pending, window_ms, now_ms);
        let decides = sweep_decides(pending, claims, window_ms, now_ms, deadline_s);
        let keeps_front = sweep_keeps(front, window_ms, now_ms);
        let decides_front = sweep_decides(front, claims, window_ms, now_ms, deadline_s);
        assert forall|k: int| 0 <= k < keeps.len() implies kept_from(
            pending,
            #[trigger] keeps[k],
            window_ms,
            now_ms,
        ) by {
            if k < keeps_front.len() {
                assert(kept_from(front, keeps_front[k], window_ms, now_ms));
                let j = choose|j: int|
                    0 <= j < front.len() && #[trigger] front[j] == keeps_front[k] && !window_elapsed(
                        front[j].received_at_ms,
                        window_ms,
                        now_ms,
                    );
                assert(pending[j] == keeps[k]);
            } else {
                assert(pending[last] == keeps[k]);
            }
        }
        assert forall|k: int| 0 <= k < decides.len() implies decided_from(
            pending,
            claims,
            #[trigger] decides[k],
            window_ms,
            now_ms,
            deadline_s,
        ) by {
            if k < decides_front.len() {
                assert(decided_from(
                    front,
                    claims,
                    decides_front[k],
                    window_ms,
                    now_ms,
                    deadline_s,
                ));
                let j = choose|j: int|
                    0 <= j < front.len() && due_with_winner(
                        #[trigger] front[j],
                        claims,
                        decides_front[k],
                        window_ms,
                        now_ms,
                        deadline_s,
                    );
                assert(due_with_winner(
                    pending[j],
                    claims,
                    decides[k],
                    window_ms,
                    now_ms,
                    deadline_s,
                ));
            } else {
                assert(due_with_winner(
                    pending[last],
                    claims,
                    decides[k],
                    window_ms,
                    now_ms,
                    deadline_s,
                ));
            }
        }
    }
}

/// `entry` is a pending job that is not due at `now_ms`.
pub open spec fn kept_from(
    pending: Seq<PendingJobView>,
    entry: PendingJobView,
    window_ms: u64,
    now_ms: u64,
) -> bool {
    exists|j: int|
        0 <= j < pending.len() && #[trigger] pending[j] == entry && !window_elapsed(
            pending[j].received_at_ms,
            window_ms,
            now_ms,
        )
}

/// `entry` is due at `now_ms`, and `made` assigns it to the best bid for it.
pub open spec fn due_with_winner(
    entry: PendingJobView,
    claims: Seq<ClaimView>,
    made: AssignView,
    window_ms: u64,
    now_ms: u64,
    deadline_s: u64,
) -> bool {
    &&& window_elapsed(entry.received_at_ms, window_ms, now_ms)
    &&& best_claim(claims, entry.job.task_id) matches Some(b) && made == decision(
        entry.job.task_id,
        claims[b],
        now_ms,
        deadline_s,
    )
}

/// `made` settles one of the pending jobs that are due.
pub open spec fn decided_from(
    pending: Seq<PendingJobView>,
    claims: Seq<ClaimView>,
    made: AssignView,
    window_ms: u64,
    now_ms: u64,
    deadline_s: u64,
) -> bool {
    exists|j: int|
        0 <= j < pending.len() && due_with_winner(
            #[trigger] pending[j],
            claims,
            made,
            window_ms,
            now_ms,
            deadline_s,
        )
}

/// Everything in the state and among the assignments goes back to an event of
/// the history: pending jobs to announcements, claims to claim events, and
/// assignments to both.
pub open spec fn traced(
    state: AssignerView,
    made: Seq<AssignView>,
    events: Seq<AssignerEventView>,
) -> bool {
    &&& forall|k: int|
        0 <= k < state.pending.len() ==> announced_in(
            events,
            (#[trigger] state.pending[k]).job.task_id,
        )
    &&& forall|k: int|
        0 <= k < state.claims.len() ==> claimed_in(
            events,
            (#[trigger] state.claims[k]).task_id,
            state.claims[k].worker_id,
        )
    &&& forall|k: int|
        0 <= k < made.len() ==> announced_in(events, (#[trigger] made[k]).task_id) && claimed_in(
            events,
            made[k].task_id,
            made[k].worker_id,
        )
}

/// No task is pending twice, none is assigned twice, and none that is
/// assigned is still pending.
pub open spec fn exclusive(state: AssignerView, made: Seq<AssignView>) -> bool {
    &&& state.well_formed()
    &&& one_assignment_each(made)
    &&& forall|k: int|
        0 <= k < made.len() ==> !holds_task(state.pending, (#[trigger] made[k]).task_id)
}

proof fn lemma_history_grows(events: Seq<AssignerEventView>, event: AssignerEventView)
    ensures
        forall|task_id: Seq<char>| #[trigger]
            announced_in(events, task_id) ==> announced_in(events.push(event), task_id),
        forall|task_id: Seq<char>, worker_id: Seq<char>| #[trigger]
            claimed_in(events, task_id, worker_id) ==> claimed_in(
                events.push(event),
                task_id,
                worker_id,
            ),
        forall|task_id: Seq<char>|
            announces(event, task_id) ==> #[trigger] announced_in(events.push(event), task_id),
        forall|task_id: Seq<char>, worker_id: Seq<char>|
            claims_for(event, task_id, worker_id) ==> #[trigger] claimed_in(
                events.push(event),
                task_id,
                worker_id,
            ),
{
    let longer = events.push(event);
    assert forall|task_id: Seq<char>| #[trigger] announced_in(events, task_id) implies announced_in(
        longer,
        task_id,
    ) by {
        let k = choose|k: int| 0 <= k < events.len() && announces(#[trigger] events[k], task_id);
        assert(announces(longer[k], task_id));
    }
    assert forall|task_id: Seq<char>, worker_id: Seq<char>| #[trigger]
        claimed_in(events, task_id, worker_id) implies claimed_in(longer, task_id, worker_id) by {
        let k = choose|k: int|
            0 <= k < events.len() && claims_for(#[trigger] events[k], task_id, worker_id);
        assert(claims_for(longer[k], task_id, worker_id));
    }
    assert forall|task_id: Seq<char>| announces(event, task_id) implies #[trigger] announced_in(
        longer,
        task_id,
    ) by {
        assert(announces(longer[events.len() as int], task_id));
    }
    assert forall|task_id: Seq<char>, worker_id: Seq<char>|
        claims_for(event, task_id, worker_id) implies #[trigger] claimed_in(
        longer,
        task_id,
        worker_id,
    ) by {
        assert(claims_for(longer[events.len() as int], task_id, worker_id));
    }
}

proof fn lemma_step_traced(
    state: AssignerView,
    made: Seq<AssignView>,
    events: Seq<AssignerEventView>,
    event: AssignerEventView,
)
    requires
        traced(state, made, events),
    ensures
        traced(state.step(event).0, made + state.step(event).1, events.push(event)),
{
    let longer = events.push(event);
    let (after, new) = state.step(event);
    let all = made + new;
    lemma_history_grows(events, event);
    match event {
        AssignerEventView::JobAnnounced { job, now_ms } => {
            law_pending_position_is_first(state.pending, job.task_id);
            assert(announces(event, job.task_id));
            assert(all =~= made);
            assert forall|k: int| 0 <= k < after.pending.len() implies announced_in(
                longer,
                (#[trigger] after.pending[k]).job.task_id,
            ) by {
                if k < state.pending.len() && after.pending[k] == state.pending[k] {
                } else {
                    assert(after.pending[k].job.task_id == job.task_id);
                }
            }
        },
        AssignerEventView::ClaimReceived { claim, now_ms } => {
            let claims = state.claims.push(claim);
            assert(claims_for(event, claim.task_id, claim.worker_id));
            assert forall|k: int| 0 <= k < claims.len() implies claimed_in(
                longer,
                (#[trigger] claims[k]).task_id,
                claims[k].worker_id,
            ) by {
                if k < state.claims.len() {
                    assert(claims[k] == state.claims[k]);
                }
            }
            law_pending_position_is_first(state.pending, claim.task_id);
            law_first_claim_is_first(claims, claim.task_id);
            if new.len() == 0 {
                assert(all =~= made);
            } else {
                let i = pending_position(state.pending, claim.task_id)->0;
                let f = first_claim(claims, claim.task_id)->0;
                assert(after.pending == state.pending.remove(i));
                assert forall|k: int| 0 <= k < after.pending.len() implies announced_in(
                    longer,
                    (#[trigger] after.pending[k]).job.task_id,
                ) by {
                    if k < i {
                        assert(after.pending[k] == state.pending[k]);
                    } else {
                        assert(after.pending[k] == state.pending[k + 1]);
                    }
                }
                assert forall|k: int| 0 <= k < all.len() implies announced_in(
                    longer,
                    (#[trigger] all[k]).task_id,
                ) && claimed_in(longer, all[k].task_id, all[k].worker_id) by {
                    if k < made.len() {
                        assert(all[k] == made[k]);
                    } else {
                        assert(all[k] == new[0]);
                        assert(state.pending[i].job.task_id == claim.task_id);
                        assert(claims[f].task_id == claim.task_id);
                    }
                }
            }
        },
        AssignerEventView::Tick { now_ms } => {
            match state.policy {
                ArbitrationPolicy::Immediate => {
                    assert(all =~= made);
                },
                ArbitrationPolicy::Windowed { window_ms } => {
                    lemma_sweep_members(
                        state.pending,
                        state.claims,
                        window_ms,
                        now_ms,
                        state.deadline_s,
                    );
                    assert forall|k: int| 0 <= k < after.pending.len() implies announced_in(
                        longer,
                        (#[trigger] after.pending[k]).job.task_id,
                    ) by {
                        assert(kept_from(state.pending, after.pending[k], window_ms, now_ms));
                    }
                    assert forall|k: int| 0 <= k < all.len() implies announced_in(
                        longer,
                        (#[trigger] all[k]).task_id,
                    ) && claimed_in(longer, all[k].task_id, all[k].worker_id) by {
                        if k < made.len() {
                            assert(all[k] == made[k]);
                        } else {
                            let d = new[k - made.len()];
                            assert(all[k] == d);
                            assert(decided_from(
                                state.pending,
                                state.claims,
                                d,
                                window_ms,
                                now_ms,
                                state.deadline_s,
                            ));
                            let j = choose|j: int|
                                0 <= j < state.pending.len() && due_with_winner(
                                    #[trigger] state.pending[j],
                                    state.claims,
                                    d,
                                    window_ms,
                                    now_ms,
                                    state.deadline_s,
                                );
                            let id = state.pending[j].job.task_id;
                            law_best_bid_wins(state.claims, id);
                            let b = best_claim(state.claims, id)->0;
                            assert(state.claims[b].task_id == id);
                        }
                    }
                },
            }
        },
    }
}

proof fn lemma_step_exclusive(
    state: AssignerView,
    made: Seq<AssignView>,
    events: Seq<AssignerEventView>,
    event: AssignerEventView,
)
    requires
        traced(state, made, events),
        exclusive(state, made),
        announced_once(events.push(event)),
    ensures
        exclusive(state.step(event).0, made + state.step(event).1),
{
    let longer = events.push(event);
    let (after, new) = state.step(event);
    let all = made + new;
    match event {
        AssignerEventView::JobAnnounced { job, now_ms } => {
            assert(all =~= made);
            assert(!announced_in(events, job.task_id)) by {
                if announced_in(events, job.task_id) {
                    let k = choose|k: int|
                        0 <= k < events.len() && announces(#[trigger] events[k], job.task_id);
                    assert(announces(longer[k], job.task_id));
                    assert(announces(longer[events.len() as int], job.task_id));
                }
            }
            law_pending_position_is_first(state.pending, job.task_id);
            assert(pending_position(state.pending, job.task_id) is None) by {
                if pending_position(state.pending, job.task_id) is Some {
                    let i = pending_position(state.pending, job.task_id)->0;
                    assert(announced_in(events, state.pending[i].job.task_id));
                }
            }
            let entry = PendingJobView { job, received_at_ms: now_ms };
            assert(after.pending == state.pending.push(entry));
            assert forall|i: int, j: int| 0 <= i < j < after.pending.len() implies after.pending[i].job.task_id
                != after.pending[j].job.task_id by {
                if j == state.pending.len() {
                    assert(after.pending[i] == state.pending[i]);
                    assert(announced_in(events, state.pending[i].job.task_id));
                } else {
                    assert(after.pending[i] == state.pending[i]);
                    assert(after.pending[j] == state.pending[j]);
                }
            }
            assert forall|k: int| 0 <= k < all.len() implies !holds_task(
                after.pending,
                (#[trigger] all[k]).task_id,
            ) by {
                let id = made[k].task_id;
                assert(announced_in(events, id));
                if holds_task(after.pending, id) {
                    let m = choose|m: int|
                        0 <= m < after.pending.len() && (#[trigger] after.pending[m]).job.task_id
                            == id;
                    if m < state.pending.len() {
                        assert(after.pending[m] == state.pending[m]);
                        assert(holds_task(state.pending, id));
                    }
                }
            }
        },
        AssignerEventView::ClaimReceived { claim, now_ms } => {
            let claims = state.claims.push(claim);
            law_pending_position_is_first(state.pending, claim.task_id);
            law_first_claim_is_first(claims, claim.task_id);
            if new.len() == 0 {
                assert(all =~= made);
                assert(after.pending == state.pending);
            } else {
                let i = pending_position(state.pending, claim.task_id)->0;
                let id = claim.task_id;
                assert(after.pending == state.pending.remove(i));
                lemma_remove_exclusive(state.pending, i);
                assert(new[0].task_id == id);
                assert(holds_task(state.pending, id)) by {
                    assert(state.pending[i].job.task_id == id);
                }
                assert forall|a: int, b: int| 0 <= a < b < all.len() implies (#[trigger] all[a]).task_id
                    != (#[trigger] all[b]).task_id by {
                    if b < made.len() {
                        assert(all[a] == made[a] && all[b] == made[b]);
                    } else {
                        assert(all[a] == made[a]);
                        assert(all[b] == new[0]);
                    }
                }
                assert forall|k: int| 0 <= k < all.len() implies !holds_task(
                    after.pending,
                    (#[trigger] all[k]).task_id,
                ) by {
                    if k < made.len() {
                        assert(all[k] == made[k]);
                    } else {
                        assert(all[k] == new[0]);
                    }
                }
            }
        },
        AssignerEventView::Tick { now_ms } => {
            match state.policy {
                ArbitrationPolicy::Immediate => {
                    assert(all =~= made);
                },
                ArbitrationPolicy::Windowed { window_ms } => {
                    lemma_sweep_exclusive(
                        state.pending,
                        state.claims,
                        window_ms,
                        now_ms,
                        state.deadline_s,
                    );
                    lemma_sweep_members(
                        state.pending,
                        state.claims,
                        window_ms,
                        now_ms,
                        state.deadline_s,
                    );
                    assert forall|a: int, b: int| 0 <= a < b < all.len() implies (#[trigger] all[a]).task_id
                        != (#[trigger] all[b]).task_id by {
                        if b < made.len() {
                            assert(all[a] == made[a] && all[b] == made[b]);
                        } else if a < made.len() {
                            assert(all[a] == made[a]);
                            let d = new[b - made.len()];
                            assert(all[b] == d);
                            lemma_decided_is_held(
                                state.pending,
                                state.claims,
                                d,
                                window_ms,
                                now_ms,
                                state.deadline_s,
                            );
                        } else {
                            assert(all[a] == new[a - made.len()]);
                            assert(all[b] == new[b - made.len()]);
                        }
                    }
                    assert forall|k: int| 0 <= k < all.len() implies !holds_task(
                        after.pending,
                        (#[trigger] all[k]).task_id,
                    ) by {
                        let id = all[k].task_id;
                        if holds_task(after.pending, id) {
                            let m = choose|m: int|
                                0 <= m < after.pending.len() && (
                                #[trigger] after.pending[m]).job.task_id == id;
                            assert(kept_from(state.pending, after.pending[m], window_ms, now_ms));
                            let j = choose|j: int|
                                0 <= j < state.pending.len() && #[trigger] state.pending[j]
                                    == after.pending[m] && !window_elapsed(
                                    state.pending[j].received_at_ms,
                                    window_ms,
                                    now_ms,
                                );
                            if k < made.len() {
                                assert(all[k] == made[k]);
                                assert(holds_task(state.pending, id));
                            } else {
                                let d = new[k - made.len()];
                                assert(all[k] == d);
                                assert(decided_from(
                                    state.pending,
                                    state.claims,
                                    d,
                                    window_ms,
                                    now_ms,
                                    state.deadline_s,
                                ));
                                let e = choose|e: int|
                                    0 <= e < state.pending.len() && due_with_winner(
                                        #[trigger] state.pending[e],
                                        state.claims,
                                        d,
                                        window_ms,
                                        now_ms,
                                        state.deadline_s,
                                    );
                                assert(state.pending[e].job.task_id == id);
                                assert(e != j);
                            }
                        }
                    }
                },
            }
        },
    }
}

/// Removing an entry leaves the others distinct, and the task of the removed
/// entry is pending no more.
proof fn lemma_remove_exclusive(pending: Seq<PendingJobView>, i: int)
    requires
        0 <= i < pending.len(),
        forall|a: int, b: int|
            0 <= a < b < pending.len() ==> pending[a].job.task_id != pending[b].job.task_id,
    ensures
        forall|a: int, b: int|
            0 <= a < b < pending.remove(i).len() ==> pending.remove(i)[a].job.task_id
                != pending.remove(i)[b].job.task_id,
        !holds_task(pending.remove(i), pending[i].job.task_id),
        forall|task_id: Seq<char>| #[trigger]
            holds_task(pending.remove(i), task_id) ==> holds_task(pending, task_id),
{
    let rest = pending.remove(i);
    assert forall|a: int| 0 <= a < rest.len() implies #[trigger] rest[a] == pending[if a < i {
        a
    } else {
        a + 1
    }] by {}
    assert forall|a: int, b: int| 0 <= a < b < rest.len() implies rest[a].job.task_id
        != rest[b].job.task_id by {
        assert(rest[a] == pending[if a < i { a } else { a + 1 }]);
        assert(rest[b] == pending[if b < i { b } else { b + 1 }]);
    }
    if holds_task(rest, pending[i].job.task_id) {
        let m = choose|m: int|
            0 <= m < rest.len() && (#[trigger] rest[m]).job.task_id == pending[i].job.task_id;
        assert(rest[m] == pending[if m < i { m } else { m + 1 }]);
    }
    assert forall|task_id: Seq<char>| #[trigger] holds_task(rest, task_id) implies holds_task(
        pending,
        task_id,
    ) by {
        let m = choose|m: int| 0 <= m < rest.len() && (#[trigger] rest[m]).job.task_id == task_id;
        assert(rest[m] == pending[if m < i { m } else { m + 1 }]);
        assert(pending[if m < i { m } else { m + 1 }].job.task_id == task_id);
    }
}

/// The task that a sweep decides was pending.
proof fn lemma_decided_is_held(
    pending: Seq<PendingJobView>,
    claims: Seq<ClaimView>,
    made: AssignView,
    window_ms: u64,
    now_ms: u64,
    deadline_s: u64,
)
    requires
        decided_from(pending, claims, made, window_ms, now_ms, deadline_s),
    ensures
        holds_task(pending, made.task_id),
{
    let j = choose|j: int|
        0 <= j < pending.len() && due_with_winner(
            #[trigger] pending[j],
            claims,
            made,
            window_ms,
            now_ms,
            deadline_s,
        );
    assert(pending[j].job.task_id == made.task_id);
}

/// Where no task is pending twice, a sweep keeps no task twice and decides
/// none twice.
proof fn lemma_sweep_exclusive(
    pending: Seq<PendingJobView>,
    claims: Seq<ClaimView>,
    window_ms: u64,
    now_ms: u64,
    deadline_s: u64,
)
    requires
        forall|a: int, b: int|
            0 <= a < b < pending.len() ==> pending[a].job.task_id != pending[b].job.task_id,
    ensures
        forall|a: int, b: int|
            0 <= a < b < sweep_keeps(pending, window_ms, now_ms).len() ==> sweep_keeps(
                pending,
                window_ms,
                now_ms,
            )[a].job.task_id != sweep_keeps(pending, window_ms, now_ms)[b].job.task_id,
        one_assignment_each(sweep_decides(pending, claims, window_ms, now_ms, deadline_s)),
    decreases pending.len(),
{
    if pending.len() > 0 {
        let front = pending.drop_last();
        let last = pending.len() - 1;
        assert(forall|j: int| 0 <= j < front.len() ==> front[j] == pending[j]);
        lemma_sweep_exclusive(front, claims, window_ms, now_ms, deadline_s);
        lemma_sweep_members(front, claims, window_ms, now_ms, deadline_s);
        let keeps = sweep_keeps(pending, window_ms, now_ms);
        let decides = sweep_decides(pending, claims, window_ms, now_ms, deadline_s);
        let keeps_front = sweep_keeps(front, window_ms, now_ms);
        let decides_front = sweep_decides(front, claims, window_ms, now_ms, deadline_s);
        assert forall|a: int, b: int| 0 <= a < b < keeps.len() implies keeps[a].job.task_id
            != keeps[b].job.task_id by {
            if b < keeps_front.len() {
                assert(keeps[a] == keeps_front[a] && keeps[b] == keeps_front[b]);
            } else {
                assert(keeps[b] == pending[last]);
                assert(kept_from(front, keeps_front[a], window_ms, now_ms));
                let j = choose|j: int|
                    0 <= j < front.len() && #[trigger] front[j] == keeps_front[a] && !window_elapsed(
                        front[j].received_at_ms,
                        window_ms,
                        now_ms,
                    );
                assert(pending[j].job.task_id != pending[last].job.task_id);
            }
        }
        assert forall|a: int, b: int| 0 <= a < b < decides.len() implies (#[trigger] decides[a]).task_id
            != (#[trigger] decides[b]).task_id by {
            if b < decides_front.len() {
                assert(decides[a] == decides_front[a] && decides[b] == decides_front[b]);
            } else {
                assert(decides[b].task_id == pending[last].job.task_id);
                assert(decided_from(
                    front,
                    claims,
                    decides_front[a],
                    window_ms,
                    now_ms,
                    deadline_s,
                ));
                let j = choose|j: int|
                    0 <= j < front.len() && due_with_winner(
                        #[trigger] front[j],
                        claims,
                        decides_front[a],
                        window_ms,
                        now_ms,
                        deadline_s,
                    );
                assert(pending[j].job.task_id != pending[last].job.task_id);
            }
        }
    }
}

proof fn lemma_run_traced(
    policy: ArbitrationPolicy,
    deadline_s: u64,
    events: Seq<AssignerEventView>,
)
    ensures
        traced(
            AssignerView::init(policy, deadline_s).run(events).0,
            AssignerView::init(policy, deadline_s).run(events).1,
            events,
        ),
    decreases events.len(),
{
    let start = AssignerView::init(policy, deadline_s);
    if events.len() > 0 {
        let front = events.drop_last();
        lemma_run_traced(policy, deadline_s, front);
        let (before, made) = start.run(front);
        lemma_step_traced(before, made, front, events.last());
        assert(front.push(events.last()) =~= events);
    }
}

proof fn lemma_run_exclusive(
    policy: ArbitrationPolicy,
    deadline_s: u64,
    events: Seq<AssignerEventView>,
)
    requires
        announced_once(events),
    ensures
        exclusive(
            AssignerView::init(policy, deadline_s).run(events).0,
            AssignerView::init(policy, deadline_s).run(events).1,
        ),
    decreases events.len(),
{
    let start = AssignerView::init(policy, deadline_s);
    if events.len() > 0 {
        let front = events.drop_last();
        assert(announced_once(front)) by {
            assert(forall|k: int| 0 <= k < front.len() ==> front[k] == events[k]);
        }
        lemma_run_exclusive(policy, deadline_s, front);
        lemma_run_traced(policy, deadline_s, front);
        let (before, made) = start.run(front);
        assert(front.push(events.last()) =~= events);
        lemma_step_exclusive(before, made, front, events.last());
    }
}

/// No task is ever assigned twice: whatever the assigner observes, in
/// whatever order and under either policy, the assignments that it makes name
/// pairwise different tasks, provided that no two announcements carry the
/// same task identifier.
pub proof fn law_one_assignment_per_task(
    policy: ArbitrationPolicy,
    deadline_s: u64,
    events: Seq<AssignerEventView>,
)
    requires
        announced_once(events),
    ensures
        one_assignment_each(AssignerView::init(policy, deadline_s).run(events).1),
{
    lemma_run_exclusive(policy, deadline_s, events);
}

/// Every assignment answers a claim: the task that it names was announced,
/// and the worker that it names claimed that task.
pub proof fn law_assignments_answer_claims(
    policy: ArbitrationPolicy,
    deadline_s: u64,
    events: Seq<AssignerEventView>,
)
    ensures
        forall|k: int|
            0 <= k < AssignerView::init(policy, deadline_s).run(events).1.len() ==> {
                let made = #[trigger] AssignerView::init(policy, deadline_s).run(events).1[k];
                announced_in(events, made.task_id) && claimed_in(
                    events,
                    made.task_id,
                    made.worker_id,
                )
            },
{
    lemma_run_traced(policy, deadline_s, events);
}

/// The assigner never holds a task twice: every state that a history leads to
/// is well formed.
pub proof fn law_pending_tasks_distinct(
    policy: ArbitrationPolicy,
    deadline_s: u64,
    events: Seq<AssignerEventView>,
)
    requires
        announced_once(events),
    ensures
        AssignerView::init(policy, deadline_s).run(events).0.well_formed(),
{
    lemma_run_exclusive(policy, deadline_s, events);
}

/// Every assignment names the worker of the first claim received for its task.
spec fn names_first_claimant(state: AssignerView, made: Seq<AssignView>) -> bool {
    forall|k: int|
        0 <= k < made.len() ==> (first_claim(state.claims, (#[trigger] made[k]).task_id) matches Some(
            f,
        ) && 0 <= f < state.claims.len() && state.claims[f].worker_id == made[k].worker_id)
}

/// Once a task has a first claim, later claims do not change which one it is.
proof fn lemma_first_claim_is_stable(claims: Seq<ClaimView>, claim: ClaimView, task_id: Seq<char>)
    ensures
        first_claim(claims, task_id) matches Some(f) ==> first_claim(claims.push(claim), task_id)
            == Some(f) && 0 <= f < claims.len() && claims.push(claim)[f] == claims[f],
{
    law_first_claim_is_first(claims, task_id);
    assert(claims.push(claim).drop_last() =~= claims);
}

proof fn lemma_run_names_first_claimant(deadline_s: u64, events: Seq<AssignerEventView>)
    ensures
        AssignerView::init(ArbitrationPolicy::Immediate, deadline_s).run(events).0.policy
            == ArbitrationPolicy::Immediate,
        names_first_claimant(
            AssignerView::init(ArbitrationPolicy::Immediate, deadline_s).run(events).0,
            AssignerView::init(ArbitrationPolicy::Immediate, deadline_s).run(events).1,
        ),
    decreases events.len(),
{
    let start = AssignerView::init(ArbitrationPolicy::Immediate, deadline_s);
    if events.len() > 0 {
        let front = events.drop_last();
        lemma_run_names_first_claimant(deadline_s, front);
        let (before, made) = start.run(front);
        let (after, new) = before.step(events.last());
        let all = made + new;
        match events.last() {
            AssignerEventView::JobAnnounced { job, now_ms } => {
                assert(all =~= made);
            },
            AssignerEventView::ClaimReceived { claim, now_ms } => {
                let claims = before.claims.push(claim);
                assert(after.claims == claims);
                law_first_claim_is_first(claims, claim.task_id);
                assert forall|k: int| 0 <= k < all.len() implies (first_claim(
                    after.claims,
                    (#[trigger] all[k]).task_id,
                ) matches Some(f) && 0 <= f < after.claims.len() && after.claims[f].worker_id
                    == all[k].worker_id) by {
                    if k < made.len() {
                        assert(all[k] == made[k]);
                        lemma_first_claim_is_stable(before.claims, claim, made[k].task_id);
                    } else {
                        assert(all[k] == new[k - made.len()]);
                    }
                }
            },
            AssignerEventView::Tick { now_ms } => {
                assert(all =~= made);
            },
        }
    }
}

/// Under the immediate policy the assignments of one task never disagree:
/// whatever is observed, even a job that is announced more than once, all
/// assignments that name the same task name the same worker.
pub proof fn law_immediate_assignments_agree(deadline_s: u64, events: Seq<AssignerEventView>)
    ensures
        ({
            let made = AssignerView::init(ArbitrationPolicy::Immediate, deadline_s).run(events).1;
            forall|i: int, j: int|
                0 <= i < made.len() && 0 <= j < made.len() && (#[trigger] made[i]).task_id == (
                #[trigger] made[j]).task_id ==> made[i].worker_id == made[j].worker_id
        }),
{
    lemma_run_names_first_claimant(deadline_s, events);
}

} // verus!
