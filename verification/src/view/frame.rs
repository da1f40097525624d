//! How much of a planned frame a viewport lets through.
//!
//! A renderer plans a frame as a list of requests and issues them in order.
//! The first request that the viewport refuses ends the frame: it is not
//! recorded, and neither is anything planned after it.

use super::call::DrawCallView;
use vstd::prelude::*;

verus! {

/// Whether the viewport accepts every request of the list.
pub open spec fn all_accepted(calls: Seq<DrawCallView>, height: nat, width: nat) -> bool {
    forall|i: int| 0 <= i < calls.len() ==> (#[trigger] calls[i]).accepted(height, width)
}

/// The number of requests at the head of `plan` that the viewport accepts
/// before it refuses one.
pub open spec fn accepted_len(plan: Seq<DrawCallView>, height: nat, width: nat) -> nat
    decreases plan.len(),
{
    if plan.len() == 0 || !plan[0].accepted(height, width) {
        0
    } else {
        1 + accepted_len(plan.drop_first(), height, width)
    }
}

/// The requests of `plan` that are recorded: those before the first refusal.
pub open spec fn drawn(plan: Seq<DrawCallView>, height: nat, width: nat) -> Seq<DrawCallView> {
    plan.take(accepted_len(plan, height, width) as int)
}

/// The recorded requests are a prefix of the plan, each of them accepted, and
/// right after them comes either the end of the plan or a refused request.
pub proof fn lemma_accepted_len_bounds(plan: Seq<DrawCallView>, height: nat, width: nat)
    ensures
        accepted_len(plan, height, width) <= plan.len(),
        all_accepted(drawn(plan, height, width), height, width),
        accepted_len(plan, height, width) < plan.len() ==> !plan[accepted_len(
            plan,
            height,
            width,
        ) as int].accepted(height, width),
        accepted_len(plan, height, width) == plan.len() <==> all_accepted(plan, height, width),
    decreases plan.len(),
{
    if plan.len() == 0 || !plan[0].accepted(height, width) {
    } else {
        let rest = plan.drop_first();
        lemma_accepted_len_bounds(rest, height, width);
        let n = accepted_len(rest, height, width);
        assert forall|i: int| 0 <= i < drawn(plan, height, width).len() implies (#[trigger] drawn(
            plan,
            height,
            width,
        )[i]).accepted(height, width) by {
            if i > 0 {
                assert(drawn(plan, height, width)[i] == drawn(rest, height, width)[i - 1]);
            }
        }
        if n < rest.len() {
            assert(plan[n as int + 1] == rest[n as int]);
        }
        if all_accepted(rest, height, width) {
            assert forall|i: int| 0 <= i < plan.len() implies (#[trigger] plan[i]).accepted(
                height,
                width,
            ) by {
                if i > 0 {
                    assert(plan[i] == rest[i - 1]);
                }
            }
        }
        if all_accepted(plan, height, width) {
            assert forall|i: int| 0 <= i < rest.len() implies (#[trigger] rest[i]).accepted(
                height,
                width,
            ) by {
                assert(rest[i] == plan[i + 1]);
            }
        }
    }
}

/// If the first `k` requests of a plan are accepted and the next one is
/// refused, exactly those `k` are recorded.
pub proof fn lemma_drawn_stops(plan: Seq<DrawCallView>, height: nat, width: nat, k: int)
    requires
        0 <= k < plan.len(),
        all_accepted(plan.take(k), height, width),
        !plan[k].accepted(height, width),
    ensures
        accepted_len(plan, height, width) == k,
        drawn(plan, height, width) == plan.take(k),
        !all_accepted(plan, height, width),
    decreases k,
{
    if k > 0 {
        let rest = plan.drop_first();
        assert(plan.take(k)[0].accepted(height, width));
        assert forall|i: int| 0 <= i < rest.take(k - 1).len() implies (#[trigger] rest.take(
            k - 1,
        )[i]).accepted(height, width) by {
            assert(rest.take(k - 1)[i] == plan.take(k)[i + 1]);
        }
        assert(rest[k - 1] == plan[k]);
        lemma_drawn_stops(rest, height, width, k - 1);
    }
}

/// If every request of a plan is accepted, the whole plan is recorded.
pub proof fn lemma_drawn_whole(plan: Seq<DrawCallView>, height: nat, width: nat)
    requires
        all_accepted(plan, height, width),
    ensures
        accepted_len(plan, height, width) == plan.len(),
        drawn(plan, height, width) == plan,
{
    lemma_accepted_len_bounds(plan, height, width);
    assert(plan.take(plan.len() as int) =~= plan);
}

/// One more request of the plan is about to be issued. If the viewport
/// refuses it, the frame ends with what has been recorded; if not, the record
/// grows by it and is still a prefix of the plan.
pub proof fn lemma_next_call(plan: Seq<DrawCallView>, height: nat, width: nat, done: int)
    requires
        0 <= done < plan.len(),
        all_accepted(plan.take(done), height, width),
    ensures
        plan.take(done).push(plan[done]) == plan.take(done + 1),
        !plan[done].accepted(height, width) ==> drawn(plan, height, width) == plan.take(done)
            && !all_accepted(plan, height, width),
        plan[done].accepted(height, width) ==> all_accepted(plan.take(done + 1), height, width),
{
    assert(plan.take(done).push(plan[done]) =~= plan.take(done + 1));
    if plan[done].accepted(height, width) {
        let longer = plan.take(done + 1);
        assert forall|i: int| 0 <= i < longer.len() implies (#[trigger] longer[i]).accepted(
            height,
            width,
        ) by {
            if i < done {
                assert(longer[i] == plan.take(done)[i]);
            }
        }
    } else {
        lemma_drawn_stops(plan, height, width, done);
    }
}

/// Whether a plan commits exactly once, as its last request.
pub open spec fn commits_last(plan: Seq<DrawCallView>) -> bool {
    plan.len() > 0 && forall|i: int|
        0 <= i < plan.len() ==> ((#[trigger] plan[i]) == DrawCallView::Present <==> i == plan.len()
            - 1)
}

/// Whether a record ends with the commit.
pub open spec fn committed(calls: Seq<DrawCallView>) -> bool {
    calls.len() > 0 && calls.last() == DrawCallView::Present
}

/// A frame that commits last is committed only if the viewport accepted all
/// of it: once a request has been refused, the commit is not recorded, neither
/// at the end of the record nor anywhere in it.
pub proof fn lemma_commit_needs_whole_frame(plan: Seq<DrawCallView>, height: nat, width: nat)
    requires
        commits_last(plan),
    ensures
        committed(drawn(plan, height, width)) <==> all_accepted(plan, height, width),
        drawn(plan, height, width).contains(DrawCallView::Present) <==> all_accepted(
            plan,
            height,
            width,
        ),
{
    lemma_accepted_len_bounds(plan, height, width);
    let record = drawn(plan, height, width);
    if all_accepted(plan, height, width) {
        lemma_drawn_whole(plan, height, width);
        assert(record[plan.len() - 1] == DrawCallView::Present);
    } else {
        assert forall|i: int| 0 <= i < record.len() implies record[i] != DrawCallView::Present by {
            assert(record[i] == plan[i]);
        }
    }
}

} // verus!
