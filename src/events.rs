use vstd::prelude::*;
use crate::identity::Identity;

verus! {

/// A task was created and its bounty moved into escrow.
#[derive(Clone, Debug)]
pub struct TaskCreated {
    pub task_id: u64,
    pub client: Identity,
    pub title: String,
    pub bounty: u64,
    pub deadline: i64,
}

/// An agent submitted work for a task.
#[derive(Clone, Debug)]
pub struct ApplicationSubmitted {
    pub task_id: u64,
    pub agent: Identity,
    pub submission_url: String,
}

/// The client picked a winner and the escrow paid out.
#[derive(Clone, Copy, Debug)]
pub struct WinnerSelected {
    pub task_id: u64,
    pub agent: Identity,
    pub payout: u64,
    pub rating: u8,
}

/// The client withdrew a task that nobody had submitted to.
#[derive(Clone, Copy, Debug)]
pub struct TaskCancelled {
    pub task_id: u64,
}

#[derive(Clone, Copy, Debug)]
pub struct ExtensionRequested {
    pub task_id: u64,
    pub agent: Identity,
    pub extra_hours: u64,
}

#[derive(Clone, Copy, Debug)]
pub struct ExtensionApproved {
    pub task_id: u64,
    pub new_deadline: i64,
}

#[derive(Clone, Copy, Debug)]
pub struct ExtensionDenied {
    pub task_id: u64,
}

#[derive(Clone, Copy, Debug)]
pub struct DisputeRaised {
    pub task_id: u64,
    pub raised_by: Identity,
}

/// An abandoned task was refunded to its client after the grace period.
#[derive(Clone, Copy, Debug)]
pub struct AutoRefunded {
    pub task_id: u64,
}

} // verus!
