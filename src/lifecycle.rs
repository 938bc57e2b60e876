use vstd::prelude::*;
use crate::error::OpenfourrError;
use crate::events::{ApplicationSubmitted, AutoRefunded, TaskCancelled, TaskCreated, WinnerSelected};
use crate::fees::{fee_of, payout_of, split_bounty};
use crate::identity::Identity;
use crate::state::{
    byte_len, custody, text_len, total_amount, AgentProfile, Endpoint, Escrow, Platform, Submission,
    SubmissionStatus, Task, TaskStatus, Transfer,
};

verus! {

/// Seconds in an hour.
pub const HOUR: i64 = 3600;

/// How long after its deadline an unresolved task may be refunded by anyone.
pub const GRACE_PERIOD: i64 = 604800;

/// The first check that refuses `select_winner`, if any.
pub open spec fn select_winner_refusal(
    caller: Identity,
    task: Task,
    submission: Submission,
    agent: AgentProfile,
    platform: Platform,
    rating: u8,
) -> Option<OpenfourrError> {
    let payout = payout_of(task.bounty_amount as int, platform.fee_bps as int);
    if caller@ != task.client@ {
        Some(OpenfourrError::Unauthorized)
    } else if submission.task_id != task.id || agent.owner@ != submission.agent@ {
        Some(OpenfourrError::AccountMismatch)
    } else if !(1 <= rating <= 5) {
        Some(OpenfourrError::InvalidRating)
    } else if task.status != TaskStatus::Open {
        Some(OpenfourrError::TaskNotOpen)
    } else if submission.status != SubmissionStatus::Pending {
        Some(OpenfourrError::SubmissionNotPending)
    } else if agent.tasks_completed + 1 > u64::MAX || agent.total_earned + payout > u64::MAX
        || agent.rating_sum + rating > u64::MAX || agent.rating_count + 1 > u64::MAX
        || platform.total_completed + 1 > u64::MAX || platform.total_volume
        + task.bounty_amount > u64::MAX {
        Some(OpenfourrError::Overflow)
    } else {
        None
    }
}

/// The transfers that pay a winner: the payout to the agent, then the fee to
/// the treasury when there is one.
pub open spec fn winner_transfers(
    task_id: u64,
    agent: Identity,
    treasury: Identity,
    payout: u64,
    fee: u64,
) -> Seq<Transfer> {
    let to_agent = Transfer {
        from: Endpoint::Escrow(task_id),
        to: Endpoint::Wallet(agent),
        amount: payout,
    };
    let to_treasury = Transfer {
        from: Endpoint::Escrow(task_id),
        to: Endpoint::Wallet(treasury),
        amount: fee,
    };
    if fee > 0 {
        seq![to_agent, to_treasury]
    } else {
        seq![to_agent]
    }
}

/// The client picks the winning submission. The escrow pays the agent the
/// bounty less the platform fee and the treasury the fee; the submission
/// becomes Selected and the task Completed, and the agent's and the platform's
/// counters record the payout.
pub fn select_winner(
    caller: &Identity,
    task: &mut Task,
    submission: &mut Submission,
    agent: &mut AgentProfile,
    escrow: &mut Escrow,
    platform: &mut Platform,
    rating: u8,
    now: i64,
) -> (r: Result<(Vec<Transfer>, WinnerSelected), OpenfourrError>)
    requires
        old(platform).wf(),
        custody(*old(task), *old(escrow)),
    ensures
        match select_winner_refusal(
            *caller,
            *old(task),
            *old(submission),
            *old(agent),
            *old(platform),
            rating,
        ) {
            Some(e) => {
                &&& r == Err::<(Vec<Transfer>, WinnerSelected), OpenfourrError>(e)
                &&& *final(task) == *old(task)
                &&& *final(submission) == *old(submission)
                &&& *final(agent) == *old(agent)
                &&& *final(escrow) == *old(escrow)
                &&& *final(platform) == *old(platform)
            },
            None => {
                let bounty = old(task).bounty_amount;
                let fee = fee_of(bounty as int, old(platform).fee_bps as int);
                let payout = payout_of(bounty as int, old(platform).fee_bps as int);
                &&& r is Ok
                &&& r->Ok_0.0@ == winner_transfers(
                    old(task).id,
                    old(submission).agent,
                    old(platform).authority,
                    payout as u64,
                    fee as u64,
                )
                &&& total_amount(r->Ok_0.0@) == bounty
                &&& r->Ok_0.1 == (WinnerSelected {
                    task_id: old(task).id,
                    agent: old(agent).owner,
                    payout: payout as u64,
                    rating,
                })
                &&& *final(task) == (Task {
                    status: TaskStatus::Completed,
                    winning_submission: Some(old(submission).agent),
                    completed_at: Some(now),
                    ..*old(task)
                })
                &&& *final(submission) == (Submission {
                    status: SubmissionStatus::Selected,
                    ..*old(submission)
                })
                &&& *final(agent) == (AgentProfile {
                    tasks_completed: (old(agent).tasks_completed + 1) as u64,
                    total_earned: (old(agent).total_earned + payout) as u64,
                    rating_sum: (old(agent).rating_sum + rating) as u64,
                    rating_count: (old(agent).rating_count + 1) as u64,
                    ..*old(agent)
                })
                &&& *final(escrow) == (Escrow { balance: 0, ..*old(escrow) })
                &&& *final(platform) == (Platform {
                    total_completed: (old(platform).total_completed + 1) as u64,
                    total_volume: (old(platform).total_volume + bounty) as u64,
                    ..*old(platform)
                })
            },
        },
{
    if !caller.same_as(&task.client) {
        return Err(OpenfourrError::Unauthorized);
    }
    if submission.task_id != task.id || !agent.owner.same_as(&submission.agent) {
        return Err(OpenfourrError::AccountMismatch);
    }
    if !(1 <= rating && rating <= 5) {
        return Err(OpenfourrError::InvalidRating);
    }
    if task.status != TaskStatus::Open {
        return Err(OpenfourrError::TaskNotOpen);
    }
    if submission.status != SubmissionStatus::Pending {
        return Err(OpenfourrError::SubmissionNotPending);
    }
    let (fee, payout) = split_bounty(task.bounty_amount, platform.fee_bps);
    if agent.tasks_completed == u64::MAX || agent.total_earned > u64::MAX - payout
        || agent.rating_sum > u64::MAX - (rating as u64) || agent.rating_count == u64::MAX
        || platform.total_completed == u64::MAX || platform.total_volume > u64::MAX
        - task.bounty_amount {
        return Err(OpenfourrError::Overflow);
    }
    let mut transfers: Vec<Transfer> = Vec::new();
    transfers.push(
        Transfer {
            from: Endpoint::Escrow(task.id),
            to: Endpoint::Wallet(submission.agent),
            amount: payout,
        },
    );
    if fee > 0 {
        transfers.push(
            Transfer {
                from: Endpoint::Escrow(task.id),
                to: Endpoint::Wallet(platform.authority),
                amount: fee,
            },
        );
    }
    proof {
        let ts = transfers@;
        reveal_with_fuel(total_amount, 3);
        assert(ts =~= winner_transfers(task.id, submission.agent, platform.authority, payout, fee));
        if fee > 0 {
            assert(ts.drop_last().drop_last() =~= Seq::<Transfer>::empty());
            assert(total_amount(ts.drop_last()) == payout);
        } else {
            assert(ts.drop_last() =~= Seq::<Transfer>::empty());
        }
        assert(total_amount(ts) == task.bounty_amount);
    }
    escrow.balance = 0;
    submission.status = SubmissionStatus::Selected;
    task.status = TaskStatus::Completed;
    task.winning_submission = Some(submission.agent);
    task.completed_at = Some(now);
    agent.tasks_completed = agent.tasks_completed + 1;
    agent.total_earned = agent.total_earned + payout;
    agent.rating_sum = agent.rating_sum + rating as u64;
    agent.rating_count = agent.rating_count + 1;
    platform.total_completed = platform.total_completed + 1;
    platform.total_volume = platform.total_volume + task.bounty_amount;
    let event = WinnerSelected { task_id: task.id, agent: agent.owner, payout, rating };
    Ok((transfers, event))
}


/// The first check that refuses `create_task`, if any.
pub open spec fn create_task_refusal(
    platform: Platform,
    title: Seq<char>,
    description: Seq<char>,
    bounty_amount: u64,
    deadline_hours: u64,
    now: i64,
) -> Option<OpenfourrError> {
    if byte_len(title) > 100 {
        Some(OpenfourrError::TitleTooLong)
    } else if byte_len(description) > 2000 {
        Some(OpenfourrError::DescriptionTooLong)
    } else if bounty_amount == 0 {
        Some(OpenfourrError::InvalidBounty)
    } else if !(1 <= deadline_hours <= 720) {
        Some(OpenfourrError::InvalidDeadline)
    } else if now + deadline_hours * HOUR > i64::MAX || platform.total_tasks == u64::MAX {
        Some(OpenfourrError::Overflow)
    } else {
        None
    }
}

/// A client posts a task. It takes the platform's next sequence id, opens with
/// no submissions and no messages, and falls due `deadline_hours` hours from
/// now. The bounty moves from the client's wallet into the task's escrow.
pub fn create_task(
    platform: &mut Platform,
    client: &Identity,
    title: String,
    description: String,
    requirements: String,
    category: String,
    bounty_amount: u64,
    deadline_hours: u64,
    now: i64,
) -> (r: Result<(Task, Escrow, Transfer, TaskCreated), OpenfourrError>)
    ensures
        match create_task_refusal(
            *old(platform),
            title@,
            description@,
            bounty_amount,
            deadline_hours,
            now,
        ) {
            Some(e) => {
                &&& r == Err::<(Task, Escrow, Transfer, TaskCreated), OpenfourrError>(e)
                &&& *final(platform) == *old(platform)
            },
            None => {
                let id = old(platform).total_tasks;
                let deadline = (now + deadline_hours * HOUR) as i64;
                &&& r is Ok
                &&& r->Ok_0.0 == (Task {
                    id,
                    client: *client,
                    title,
                    description,
                    requirements,
                    category,
                    bounty_amount,
                    created_at: now,
                    deadline,
                    status: TaskStatus::Open,
                    submission_count: 0,
                    message_count: 0,
                    extension_requested: false,
                    extension_hours: 0,
                    dispute_raised_by: None,
                    winning_submission: None,
                    completed_at: None,
                })
                &&& r->Ok_0.1 == (Escrow { task_id: id, balance: bounty_amount })
                &&& r->Ok_0.2 == (Transfer {
                    from: Endpoint::Wallet(*client),
                    to: Endpoint::Escrow(id),
                    amount: bounty_amount,
                })
                &&& r->Ok_0.3 == (TaskCreated {
                    task_id: id,
                    client: *client,
                    title,
                    bounty: bounty_amount,
                    deadline,
                })
                &&& custody(r->Ok_0.0, r->Ok_0.1)
                &&& r->Ok_0.0.wf()
                &&& *final(platform) == (Platform { total_tasks: (id + 1) as u64, ..*old(platform) })
            },
        },
{
    if text_len(&title) > 100 {
        return Err(OpenfourrError::TitleTooLong);
    }
    if text_len(&description) > 2000 {
        return Err(OpenfourrError::DescriptionTooLong);
    }
    if bounty_amount == 0 {
        return Err(OpenfourrError::InvalidBounty);
    }
    if !(deadline_hours > 0 && deadline_hours <= 720) {
        return Err(OpenfourrError::InvalidDeadline);
    }
    let span: i64 = (deadline_hours as i64) * HOUR;
    if now > i64::MAX - span || platform.total_tasks == u64::MAX {
        return Err(OpenfourrError::Overflow);
    }
    let id = platform.total_tasks;
    let deadline = now + span;
    platform.total_tasks = id + 1;
    let event = TaskCreated {
        task_id: id,
        client: *client,
        title: title.clone(),
        bounty: bounty_amount,
        deadline,
    };
    let task = Task {
        id,
        client: *client,
        title,
        description,
        requirements,
        category,
        bounty_amount,
        created_at: now,
        deadline,
        status: TaskStatus::Open,
        submission_count: 0,
        message_count: 0,
        extension_requested: false,
        extension_hours: 0,
        dispute_raised_by: None,
        winning_submission: None,
        completed_at: None,
    };
    let escrow = Escrow { task_id: id, balance: bounty_amount };
    let funding = Transfer {
        from: Endpoint::Wallet(*client),
        to: Endpoint::Escrow(id),
        amount: bounty_amount,
    };
    Ok((task, escrow, funding, event))
}

/// The refund of a whole escrow to the task's client.
pub open spec fn refund_transfer(task: Task) -> Transfer {
    Transfer {
        from: Endpoint::Escrow(task.id),
        to: Endpoint::Wallet(task.client),
        amount: task.bounty_amount,
    }
}

/// The first check that refuses `cancel_task`, if any.
pub open spec fn cancel_task_refusal(caller: Identity, task: Task) -> Option<OpenfourrError> {
    if caller@ != task.client@ {
        Some(OpenfourrError::Unauthorized)
    } else if task.status != TaskStatus::Open {
        Some(OpenfourrError::CannotCancel)
    } else if task.submission_count != 0 {
        Some(OpenfourrError::HasSubmissions)
    } else {
        None
    }
}

/// The client withdraws an open task that nobody has submitted to: the whole
/// bounty goes back to the client and the task is Cancelled.
pub fn cancel_task(caller: &Identity, task: &mut Task, escrow: &mut Escrow) -> (r: Result<
    (Transfer, TaskCancelled),
    OpenfourrError,
>)
    requires
        custody(*old(task), *old(escrow)),
    ensures
        match cancel_task_refusal(*caller, *old(task)) {
            Some(e) => {
                &&& r == Err::<(Transfer, TaskCancelled), OpenfourrError>(e)
                &&& *final(task) == *old(task)
                &&& *final(escrow) == *old(escrow)
            },
            None => {
                &&& r == Ok::<(Transfer, TaskCancelled), OpenfourrError>(
                    (refund_transfer(*old(task)), TaskCancelled { task_id: old(task).id }),
                )
                &&& r->Ok_0.0.amount == old(escrow).balance
                &&& *final(task) == (Task { status: TaskStatus::Cancelled, ..*old(task) })
                &&& *final(escrow) == (Escrow { balance: 0, ..*old(escrow) })
            },
        },
{
    if !caller.same_as(&task.client) {
        return Err(OpenfourrError::Unauthorized);
    }
    if task.status != TaskStatus::Open {
        return Err(OpenfourrError::CannotCancel);
    }
    if task.submission_count != 0 {
        return Err(OpenfourrError::HasSubmissions);
    }
    let refund = Transfer {
        from: Endpoint::Escrow(task.id),
        to: Endpoint::Wallet(task.client),
        amount: task.bounty_amount,
    };
    escrow.balance = 0;
    task.status = TaskStatus::Cancelled;
    Ok((refund, TaskCancelled { task_id: task.id }))
}

/// Whether the grace period after a task's deadline is over at `now`.
pub open spec fn grace_period_over(task: Task, now: i64) -> bool {
    now > task.deadline + GRACE_PERIOD
}

/// The first check that refuses `auto_refund_expired`, if any.
pub open spec fn auto_refund_refusal(task: Task, now: i64) -> Option<OpenfourrError> {
    if task.status != TaskStatus::Open {
        Some(OpenfourrError::TaskNotOpen)
    } else if !grace_period_over(task, now) {
        Some(OpenfourrError::GracePeriodNotOver)
    } else {
        None
    }
}

/// Anyone may refund an open task whose deadline passed more than the grace
/// period ago: the whole bounty goes back to the client and the task is
/// Cancelled.
pub fn auto_refund_expired(task: &mut Task, escrow: &mut Escrow, now: i64) -> (r: Result<
    (Transfer, AutoRefunded),
    OpenfourrError,
>)
    requires
        custody(*old(task), *old(escrow)),
    ensures
        match auto_refund_refusal(*old(task), now) {
            Some(e) => {
                &&& r == Err::<(Transfer, AutoRefunded), OpenfourrError>(e)
                &&& *final(task) == *old(task)
                &&& *final(escrow) == *old(escrow)
            },
            None => {
                &&& r == Ok::<(Transfer, AutoRefunded), OpenfourrError>(
                    (refund_transfer(*old(task)), AutoRefunded { task_id: old(task).id }),
                )
                &&& r->Ok_0.0.amount == old(escrow).balance
                &&& *final(task) == (Task { status: TaskStatus::Cancelled, ..*old(task) })
                &&& *final(escrow) == (Escrow { balance: 0, ..*old(escrow) })
            },
        },
{
    if task.status != TaskStatus::Open {
        return Err(OpenfourrError::TaskNotOpen);
    }
    if (now as i128) <= (task.deadline as i128) + (GRACE_PERIOD as i128) {
        return Err(OpenfourrError::GracePeriodNotOver);
    }
    let refund = Transfer {
        from: Endpoint::Escrow(task.id),
        to: Endpoint::Wallet(task.client),
        amount: task.bounty_amount,
    };
    escrow.balance = 0;
    task.status = TaskStatus::Cancelled;
    Ok((refund, AutoRefunded { task_id: task.id }))
}


/// The first check that refuses `submit_application`, if any.
pub open spec fn submit_refusal(
    caller: Identity,
    task: Task,
    agent: AgentProfile,
    submission_url: Seq<char>,
    now: i64,
) -> Option<OpenfourrError> {
    if caller@ != agent.owner@ {
        Some(OpenfourrError::Unauthorized)
    } else if task.status != TaskStatus::Open {
        Some(OpenfourrError::TaskNotOpen)
    } else if !agent.is_active {
        Some(OpenfourrError::AgentNotActive)
    } else if now >= task.deadline {
        Some(OpenfourrError::TaskExpired)
    } else if byte_len(submission_url) > 500 {
        Some(OpenfourrError::UrlTooLong)
    } else if task.submission_count == u64::MAX {
        Some(OpenfourrError::Overflow)
    } else {
        None
    }
}

/// An active agent submits work to an open task before its deadline. The new
/// submission is Pending, and the task counts it; its status stays Open.
pub fn submit_application(
    caller: &Identity,
    task: &mut Task,
    agent: &AgentProfile,
    submission_url: String,
    submission_notes: String,
    now: i64,
) -> (r: Result<(Submission, ApplicationSubmitted), OpenfourrError>)
    ensures
        match submit_refusal(*caller, *old(task), *agent, submission_url@, now) {
            Some(e) => {
                &&& r == Err::<(Submission, ApplicationSubmitted), OpenfourrError>(e)
                &&& *final(task) == *old(task)
            },
            None => {
                &&& r is Ok
                &&& r->Ok_0.0 == (Submission {
                    task_id: old(task).id,
                    agent: agent.owner,
                    submission_url,
                    submission_notes,
                    submitted_at: now,
                    status: SubmissionStatus::Pending,
                })
                &&& r->Ok_0.1 == (ApplicationSubmitted {
                    task_id: old(task).id,
                    agent: agent.owner,
                    submission_url,
                })
                &&& *final(task) == (Task {
                    submission_count: (old(task).submission_count + 1) as u64,
                    ..*old(task)
                })
            },
        },
{
    if !caller.same_as(&agent.owner) {
        return Err(OpenfourrError::Unauthorized);
    }
    if task.status != TaskStatus::Open {
        return Err(OpenfourrError::TaskNotOpen);
    }
    if !agent.is_active {
        return Err(OpenfourrError::AgentNotActive);
    }
    if now >= task.deadline {
        return Err(OpenfourrError::TaskExpired);
    }
    if text_len(&submission_url) > 500 {
        return Err(OpenfourrError::UrlTooLong);
    }
    if task.submission_count == u64::MAX {
        return Err(OpenfourrError::Overflow);
    }
    task.submission_count = task.submission_count + 1;
    let event = ApplicationSubmitted {
        task_id: task.id,
        agent: agent.owner,
        submission_url: submission_url.clone(),
    };
    let submission = Submission {
        task_id: task.id,
        agent: agent.owner,
        submission_url,
        submission_notes,
        submitted_at: now,
        status: SubmissionStatus::Pending,
    };
    Ok((submission, event))
}

} // verus!
