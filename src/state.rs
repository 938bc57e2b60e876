use vstd::prelude::*;
use crate::identity::Identity;

verus! {

/// Where a task stands. `InProgress`, `PendingReview` and `Rejected` belong to an
/// older single-assignment design: no operation of this library enters them.
#[derive(Clone, Copy, Debug, PartialEq, Eq, Structural)]
pub enum TaskStatus {
    Open,
    InProgress,
    PendingReview,
    Completed,
    Rejected,
    Cancelled,
    Disputed,
}

#[derive(Clone, Copy, Debug, PartialEq, Eq, Structural)]
pub enum SubmissionStatus {
    Pending,
    Selected,
    NotSelected,
}

/// The platform singleton: fee rate and aggregate counters. `total_tasks` is
/// also the sequence id that the next task receives.
#[derive(Clone, Debug)]
pub struct Platform {
    pub authority: Identity,
    pub fee_bps: u16,
    pub total_tasks: u64,
    pub total_completed: u64,
    pub total_volume: u64,
}

impl Platform {
    /// The fee rate is a share of the bounty, at most the whole of it.
    pub open spec fn wf(&self) -> bool {
        self.fee_bps <= 10000
    }
}

/// A registered agent: one per owning identity.
#[derive(Clone, Debug)]
pub struct AgentProfile {
    pub owner: Identity,
    pub name: String,
    pub bio: String,
    pub skills: Vec<String>,
    pub hourly_rate: u64,
    pub tasks_completed: u64,
    pub tasks_failed: u64,
    pub total_earned: u64,
    pub rating_sum: u64,
    pub rating_count: u64,
    pub registered_at: i64,
    pub is_active: bool,
}

/// A bounty-funded task. `winning_submission` names the winning submission by
/// its agent: a submission is keyed by its task and its agent.
#[derive(Clone, Debug)]
pub struct Task {
    pub id: u64,
    pub client: Identity,
    pub title: String,
    pub description: String,
    pub requirements: String,
    pub category: String,
    pub bounty_amount: u64,
    pub created_at: i64,
    pub deadline: i64,
    pub status: TaskStatus,
    pub submission_count: u64,
    pub message_count: u64,
    pub extension_requested: bool,
    pub extension_hours: u64,
    pub dispute_raised_by: Option<Identity>,
    pub winning_submission: Option<Identity>,
    pub completed_at: Option<i64>,
}

/// One agent's entry for a task.
#[derive(Clone, Debug)]
pub struct Submission {
    pub task_id: u64,
    pub agent: Identity,
    pub submission_url: String,
    pub submission_notes: String,
    pub submitted_at: i64,
    pub status: SubmissionStatus,
}

/// One entry of a task's append-only message log.
#[derive(Clone, Debug)]
pub struct Message {
    pub task_id: u64,
    pub message_id: u64,
    pub sender: Identity,
    pub content: String,
    pub sent_at: i64,
}

/// The sub-account that holds a task's bounty between funding and disbursal.
#[derive(Clone, Copy, Debug)]
pub struct Escrow {
    pub task_id: u64,
    pub balance: u64,
}

/// An account that funds move between.
#[derive(Clone, Copy, Debug)]
pub enum Endpoint {
    /// An ordinary account, controlled by the holder of the identity.
    Wallet(Identity),
    /// The escrow sub-account of the task with this sequence id.
    Escrow(u64),
}

/// A balance transfer that the ledger carries out in the same indivisible
/// operation as the record update that called for it.
#[derive(Clone, Copy, Debug)]
pub struct Transfer {
    pub from: Endpoint,
    pub to: Endpoint,
    pub amount: u64,
}

/// The sum of the amounts of a sequence of transfers.
pub open spec fn total_amount(ts: Seq<Transfer>) -> int
    decreases ts.len(),
{
    if ts.len() == 0 {
        0
    } else {
        total_amount(ts.drop_last()) + ts.last().amount
    }
}

/// The length of a text in UTF-8 bytes, as `str::len` reports it.
pub open spec fn byte_len(s: Seq<char>) -> usize {
    vstd::utf8::encode_utf8(s).len() as usize
}

/// The length of a text in UTF-8 bytes.
pub fn text_len(s: &String) -> (r: usize)
    ensures
        r == byte_len(s@),
{
    s.as_str().len()
}

/// Whether a status is final: no operation leaves it.
pub open spec fn is_terminal(s: TaskStatus) -> bool {
    s == TaskStatus::Completed || s == TaskStatus::Cancelled
}

/// The custody rule that ties a task to its escrow: the escrow belongs to the
/// task, holds the whole bounty until a terminal state, and nothing after it.
pub open spec fn custody(task: Task, escrow: Escrow) -> bool {
    &&& escrow.task_id == task.id
    &&& task.bounty_amount > 0
    &&& (is_terminal(task.status) ==> escrow.balance == 0)
    &&& (!is_terminal(task.status) ==> escrow.balance == task.bounty_amount)
}

impl Task {
    /// A pending extension asks for 1 to 168 hours; none pending asks for none.
    pub open spec fn wf(&self) -> bool {
        &&& (self.extension_requested ==> 1 <= self.extension_hours <= 168)
        &&& (!self.extension_requested ==> self.extension_hours == 0)
    }
}

} // verus!
