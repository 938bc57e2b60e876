use vstd::prelude::*;
use crate::error::OpenfourrError;
use crate::fees::{fee_of, lemma_fee_bounded, payout_of};
use crate::identity::Identity;
use crate::lifecycle::{auto_refund_refusal, GRACE_PERIOD, refund_transfer, winner_transfers};
use crate::market::{is_status_step, Marketplace};
use crate::state::{custody, is_terminal, total_amount, Escrow, SubmissionStatus, Task, TaskStatus};

verus! {

/// Escrow zero-sum: whichever way a funded task's escrow is drained, the
/// transfers out of it add up to exactly the bounty it holds, and in the
/// terminal state that follows it holds nothing.
pub proof fn escrow_zero_sum(
    task: Task,
    escrow: Escrow,
    agent: Identity,
    treasury: Identity,
    fee_bps: u16,
)
    requires
        custody(task, escrow),
        !is_terminal(task.status),
        fee_bps <= 10000,
    ensures
        total_amount(
            winner_transfers(
                task.id,
                agent,
                treasury,
                payout_of(task.bounty_amount as int, fee_bps as int) as u64,
                fee_of(task.bounty_amount as int, fee_bps as int) as u64,
            ),
        ) == escrow.balance,
        refund_transfer(task).amount == escrow.balance,
        escrow.balance == task.bounty_amount,
        custody(
            Task { status: TaskStatus::Completed, ..task },
            Escrow { balance: 0, ..escrow },
        ),
        custody(
            Task { status: TaskStatus::Cancelled, ..task },
            Escrow { balance: 0, ..escrow },
        ),
{
    reveal_with_fuel(total_amount, 3);
    lemma_fee_bounded(task.bounty_amount as int, fee_bps as int);
    let ts = winner_transfers(
        task.id,
        agent,
        treasury,
        payout_of(task.bounty_amount as int, fee_bps as int) as u64,
        fee_of(task.bounty_amount as int, fee_bps as int) as u64,
    );
    if fee_of(task.bounty_amount as int, fee_bps as int) > 0 {
        assert(ts.drop_last().drop_last() =~= Seq::<crate::state::Transfer>::empty());
    } else {
        assert(ts.drop_last() =~= Seq::<crate::state::Transfer>::empty());
    }
}

/// Single winner: in every reachable state, at most one submission of a task
/// is Selected, and a Selected submission belongs to a Completed task that
/// names it as its winner.
pub proof fn single_winner(m: Marketplace)
    requires
        m.wf(),
    ensures
        forall|k: int, l: int|
            0 <= k < m.submissions@.len() && 0 <= l < m.submissions@.len()
                && #[trigger] m.submissions@[k].task_id == #[trigger] m.submissions@[l].task_id
                && m.submissions@[k].status == SubmissionStatus::Selected
                && m.submissions@[l].status == SubmissionStatus::Selected ==> k == l,
        forall|k: int|
            0 <= k < m.submissions@.len() && (#[trigger] m.submissions@[k]).status
                == SubmissionStatus::Selected ==> m.tasks@[m.submissions@[k].task_id as int].status
                == TaskStatus::Completed && m.tasks@[m.submissions@[k].task_id as int].winning_submission
                == Some(m.submissions@[k].agent),
{
}

/// Monotone lifecycle: no allowed status step enters Open from another
/// status, and none leaves Completed or Cancelled.
pub proof fn monotone_lifecycle(before: TaskStatus, after: TaskStatus)
    requires
        is_status_step(before, after),
    ensures
        after == TaskStatus::Open ==> before == TaskStatus::Open,
        is_terminal(before) ==> after == before,
{
}

/// Two allowed status steps make one: the rule holds over any run of
/// operations, not just a single one.
pub proof fn status_steps_compose(a: TaskStatus, b: TaskStatus, c: TaskStatus)
    requires
        is_status_step(a, b),
        is_status_step(b, c),
    ensures
        is_status_step(a, c),
{
}

/// Submission uniqueness: in every reachable state, no two submissions share
/// both their task and their agent.
pub proof fn submission_uniqueness(m: Marketplace)
    requires
        m.wf(),
    ensures
        forall|k: int, l: int|
            0 <= k < m.submissions@.len() && 0 <= l < m.submissions@.len()
                && #[trigger] m.submissions@[k].task_id == #[trigger] m.submissions@[l].task_id
                && m.submissions@[k].agent@ == m.submissions@[l].agent@ ==> k == l,
{
}

/// Auto-refund liveness: an Open task past its deadline and the grace period
/// is refunded by the first call, and refused by every later one, since it is
/// then Cancelled with an empty escrow.
pub proof fn auto_refund_liveness(task: Task, escrow: Escrow, now: i64, later: i64)
    requires
        custody(task, escrow),
        task.status == TaskStatus::Open,
        now > task.deadline + GRACE_PERIOD,
    ensures
        auto_refund_refusal(task, now) is None,
        refund_transfer(task).amount == escrow.balance,
        custody(
            Task { status: TaskStatus::Cancelled, ..task },
            Escrow { balance: 0, ..escrow },
        ),
        auto_refund_refusal(Task { status: TaskStatus::Cancelled, ..task }, later) == Some(
            OpenfourrError::TaskNotOpen,
        ),
{
}

} // verus!
