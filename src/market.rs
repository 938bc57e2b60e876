use vstd::prelude::*;
use crate::error::OpenfourrError;
use crate::events::{
    ApplicationSubmitted, AutoRefunded, DisputeRaised, ExtensionApproved, ExtensionDenied,
    ExtensionRequested, TaskCancelled, TaskCreated, WinnerSelected,
};
use crate::identity::Identity;
use crate::lifecycle::{
    auto_refund_refusal, cancel_task_refusal, create_task_refusal, refund_transfer,
    select_winner_refusal, submit_refusal,
};
use crate::negotiation::{
    approve_refusal, deny_refusal, dispute_refusal, extended_deadline, request_refusal,
};
use crate::registry::profile_refusal;
use crate::state::{
    byte_len, custody, total_amount, AgentProfile, Escrow, Message, Platform, Submission, SubmissionStatus, Task,
    TaskStatus, Transfer,
};

verus! {

/// Whether a task status is one that the operations of this library reach.
pub open spec fn is_reachable(s: TaskStatus) -> bool {
    s == TaskStatus::Open || s == TaskStatus::Completed || s == TaskStatus::Cancelled || s
        == TaskStatus::Disputed
}

/// The status changes that an operation may make: none, or from Open to one
/// of Completed, Cancelled and Disputed.
pub open spec fn is_status_step(before: TaskStatus, after: TaskStatus) -> bool {
    before == after || (before == TaskStatus::Open && (after == TaskStatus::Completed || after
        == TaskStatus::Cancelled || after == TaskStatus::Disputed))
}

/// The number of submissions to task `t`.
pub open spec fn submissions_to(subs: Seq<Submission>, t: u64) -> nat
    decreases subs.len(),
{
    if subs.len() == 0 {
        0
    } else {
        submissions_to(subs.drop_last(), t) + if subs.last().task_id == t {
            1nat
        } else {
            0nat
        }
    }
}

/// Appending a submission counts it for its own task only.
proof fn lemma_submissions_to_push(subs: Seq<Submission>, s: Submission, t: u64)
    ensures
        submissions_to(subs.push(s), t) == submissions_to(subs, t) + if s.task_id == t {
            1nat
        } else {
            0nat
        },
{
    assert(subs.push(s).drop_last() =~= subs);
}

/// Changing a submission but not its task leaves every count as it was.
proof fn lemma_submissions_to_update(subs: Seq<Submission>, k: int, s: Submission, t: u64)
    requires
        0 <= k < subs.len(),
        subs[k].task_id == s.task_id,
    ensures
        submissions_to(subs.update(k, s), t) == submissions_to(subs, t),
    decreases subs.len(),
{
    let u = subs.update(k, s);
    if k == subs.len() - 1 {
        assert(u.drop_last() =~= subs.drop_last());
    } else {
        assert(u.drop_last() =~= subs.drop_last().update(k, s));
        lemma_submissions_to_update(subs.drop_last(), k, s, t);
    }
}

/// A task that no submission names has none counted.
proof fn lemma_submissions_to_zero(subs: Seq<Submission>, t: u64)
    requires
        forall|k: int| 0 <= k < subs.len() ==> (#[trigger] subs[k]).task_id != t,
    ensures
        submissions_to(subs, t) == 0,
    decreases subs.len(),
{
    if subs.len() > 0 {
        lemma_submissions_to_zero(subs.drop_last(), t);
    }
}

/// An operation that changes only task `t` and its escrow keeps the records
/// well formed, as long as the task stays well formed and its status is
/// Completed after exactly when it was before, with the same winner.
proof fn lemma_one_task_changed(before: Marketplace, after: Marketplace, t: int)
    requires
        before.wf(),
        0 <= t < before.tasks@.len(),
        after.platform == before.platform,
        after.agents@ == before.agents@,
        after.submissions@ == before.submissions@,
        after.tasks@ == before.tasks@.update(t, after.tasks@[t]),
        after.escrows@ == before.escrows@.update(t, after.escrows@[t]),
        after.tasks@[t].id == before.tasks@[t].id,
        after.tasks@[t].submission_count == before.tasks@[t].submission_count,
        after.tasks@[t].wf(),
        is_reachable(after.tasks@[t].status),
        custody(after.tasks@[t], after.escrows@[t]),
        (after.tasks@[t].status == TaskStatus::Completed) == (before.tasks@[t].status
            == TaskStatus::Completed),
        before.tasks@[t].status == TaskStatus::Completed ==> after.tasks@[t].winning_submission
            == before.tasks@[t].winning_submission,
        is_status_step(before.tasks@[t].status, after.tasks@[t].status),
    ensures
        after.wf(),
        after.steps_from(&before),
{
    assert forall|i: int| 0 <= i < after.tasks@.len() implies {
        let tk = #[trigger] after.tasks@[i];
        &&& tk.id == i
        &&& custody(tk, after.escrows@[i])
        &&& tk.wf()
        &&& is_reachable(tk.status)
        &&& tk.submission_count == submissions_to(after.submissions@, i as u64)
    } by {
        if i != t {
            assert(after.tasks@[i] == before.tasks@[i]);
        }
    }
    assert forall|i: int| 0 <= i < before.tasks@.len() implies is_status_step(
        #[trigger] before.tasks@[i].status,
        after.tasks@[i].status,
    ) by {
        if i != t {
            assert(after.tasks@[i] == before.tasks@[i]);
        }
    }
    assert forall|x: int, y: int|
        0 <= x < after.agents@.len() && 0 <= y < after.agents@.len() && x != y
            implies #[trigger] after.agents@[x].owner@ != #[trigger] after.agents@[y].owner@ by {
        assert(before.agents@[x].owner@ != before.agents@[y].owner@);
    }
    assert forall|x: int|
        0 <= x < after.submissions@.len() && (#[trigger] after.submissions@[x]).status
            == SubmissionStatus::Selected implies {
        let tk = after.tasks@[after.submissions@[x].task_id as int];
        &&& tk.status == TaskStatus::Completed
        &&& tk.winning_submission == Some(after.submissions@[x].agent)
    } by {
        let j = after.submissions@[x].task_id as int;
        if j != t {
            assert(after.tasks@[j] == before.tasks@[j]);
        }
    }
}

/// All records of the marketplace, keyed as the ledger keys them: a task and
/// its escrow by the task's sequence id (their index), an agent profile by its
/// owner, a submission by its task and its agent.
pub struct Marketplace {
    pub platform: Platform,
    pub agents: Vec<AgentProfile>,
    pub tasks: Vec<Task>,
    pub escrows: Vec<Escrow>,
    pub submissions: Vec<Submission>,
    pub messages: Vec<Message>,
}

impl Marketplace {
    /// One profile per owner.
    pub open spec fn agents_unique(&self) -> bool {
        forall|a: int, b: int|
            0 <= a < self.agents@.len() && 0 <= b < self.agents@.len() && a != b
                ==> #[trigger] self.agents@[a].owner@ != #[trigger] self.agents@[b].owner@
    }

    /// One submission per task and agent.
    pub open spec fn submissions_unique(&self) -> bool {
        forall|k: int, l: int|
            0 <= k < self.submissions@.len() && 0 <= l < self.submissions@.len() && k != l
                && #[trigger] self.submissions@[k].task_id == #[trigger] self.submissions@[l].task_id
                ==> self.submissions@[k].agent@ != self.submissions@[l].agent@
    }

    /// At most one submission per task is Selected, and only of a Completed
    /// task, which names it as its winner.
    pub open spec fn single_winner(&self) -> bool {
        &&& forall|k: int, l: int|
            0 <= k < self.submissions@.len() && 0 <= l < self.submissions@.len() && k != l
                && #[trigger] self.submissions@[k].task_id == #[trigger] self.submissions@[l].task_id
                && self.submissions@[k].status == SubmissionStatus::Selected
                ==> self.submissions@[l].status != SubmissionStatus::Selected
        &&& forall|k: int|
            0 <= k < self.submissions@.len() && (#[trigger] self.submissions@[k]).status
                == SubmissionStatus::Selected ==> {
                let t = self.tasks@[self.submissions@[k].task_id as int];
                &&& t.status == TaskStatus::Completed
                &&& t.winning_submission == Some(self.submissions@[k].agent)
            }
    }

    /// What holds of the records between any two operations.
    pub open spec fn wf(&self) -> bool {
        &&& self.platform.wf()
        &&& self.tasks@.len() == self.platform.total_tasks
        &&& self.escrows@.len() == self.tasks@.len()
        &&& forall|i: int|
            0 <= i < self.tasks@.len() ==> {
                let t = #[trigger] self.tasks@[i];
                &&& t.id == i
                &&& custody(t, self.escrows@[i])
                &&& t.wf()
                &&& is_reachable(t.status)
                &&& t.submission_count == submissions_to(self.submissions@, i as u64)
            }
        &&& forall|k: int|
            0 <= k < self.submissions@.len() ==> (#[trigger] self.submissions@[k]).task_id
                < self.tasks@.len()
        &&& self.agents_unique()
        &&& self.submissions_unique()
        &&& self.single_winner()
    }

    /// The same records as `before`, one for one.
    pub open spec fn same_records(&self, before: &Marketplace) -> bool {
        &&& self.platform == before.platform
        &&& self.agents@ == before.agents@
        &&& self.tasks@ == before.tasks@
        &&& self.escrows@ == before.escrows@
        &&& self.submissions@ == before.submissions@
        &&& self.messages@ == before.messages@
    }

    /// Every task that was there before is still there, with its status moved
    /// on by an allowed step at most.
    pub open spec fn steps_from(&self, before: &Marketplace) -> bool {
        &&& before.tasks@.len() <= self.tasks@.len()
        &&& forall|i: int|
            0 <= i < before.tasks@.len() ==> is_status_step(
                #[trigger] before.tasks@[i].status,
                self.tasks@[i].status,
            )
    }

    /// An empty marketplace whose platform charges `fee_bps`.
    pub fn new(authority: &Identity, fee_bps: u16) -> (r: Marketplace)
        requires
            fee_bps <= 10000,
        ensures
            r.wf(),
            r.platform == crate::registry::initialize_spec(*authority, fee_bps),
            r.agents@.len() == 0,
            r.tasks@.len() == 0,
            r.submissions@.len() == 0,
            r.messages@.len() == 0,
    {
        Marketplace {
            platform: crate::registry::initialize(authority, fee_bps),
            agents: Vec::new(),
            tasks: Vec::new(),
            escrows: Vec::new(),
            submissions: Vec::new(),
            messages: Vec::new(),
        }
    }

    /// The index of the profile that `owner` holds, if any.
    pub fn find_agent(&self, owner: &Identity) -> (r: Option<usize>)
        ensures
            match r {
                Some(a) => a < self.agents@.len() && self.agents@[a as int].owner@ == owner@,
                None => forall|a: int|
                    0 <= a < self.agents@.len() ==> (#[trigger] self.agents@[a]).owner@ != owner@,
            },
    {
        let mut a: usize = 0;
        while a < self.agents.len()
            invariant
                0 <= a <= self.agents@.len(),
                forall|b: int| 0 <= b < a ==> (#[trigger] self.agents@[b]).owner@ != owner@,
            decreases self.agents@.len() - a,
        {
            if self.agents[a].owner.same_as(owner) {
                return Some(a);
            }
            a = a + 1;
        }
        None
    }

    /// The index of the submission of `agent` to task `task_id`, if any.
    pub fn find_submission(&self, task_id: u64, agent: &Identity) -> (r: Option<usize>)
        ensures
            match r {
                Some(k) => k < self.submissions@.len() && self.submissions@[k as int].task_id
                    == task_id && self.submissions@[k as int].agent@ == agent@,
                None => forall|k: int|
                    0 <= k < self.submissions@.len() ==> !((#[trigger] self.submissions@[k]).task_id
                        == task_id && self.submissions@[k].agent@ == agent@),
            },
    {
        let mut k: usize = 0;
        while k < self.submissions.len()
            invariant
                0 <= k <= self.submissions@.len(),
                forall|l: int|
                    0 <= l < k ==> !((#[trigger] self.submissions@[l]).task_id == task_id
                        && self.submissions@[l].agent@ == agent@),
            decreases self.submissions@.len() - k,
        {
            if self.submissions[k].task_id == task_id && self.submissions[k].agent.same_as(agent) {
                return Some(k);
            }
            k = k + 1;
        }
        None
    }

    /// Whether `owner` holds a profile.
    pub open spec fn has_agent(&self, owner: Identity) -> bool {
        exists|a: int| 0 <= a < self.agents@.len() && (#[trigger] self.agents@[a]).owner@ == owner@
    }

    /// Registers a profile for `owner`, who must not hold one yet.
    pub fn register_agent(
        &mut self,
        owner: &Identity,
        name: String,
        bio: String,
        skills: Vec<String>,
        hourly_rate: u64,
        now: i64,
    ) -> (r: Result<usize, OpenfourrError>)
        requires
            old(self).wf(),
        ensures
            final(self).wf(),
            final(self).steps_from(old(self)),
            old(self).has_agent(*owner) ==> r == Err::<usize, OpenfourrError>(
                OpenfourrError::AlreadyExists,
            ),
            !old(self).has_agent(*owner) && profile_refusal(name@, bio@, skills@.len()) is Some
                ==> r == Err::<usize, OpenfourrError>(
                profile_refusal(name@, bio@, skills@.len())->Some_0,
            ),
            r is Err ==> final(self).same_records(old(self)),
            r is Ok <==> !old(self).has_agent(*owner) && profile_refusal(
                name@,
                bio@,
                skills@.len(),
            ) is None,
            r is Ok ==> {
                &&& r->Ok_0 == old(self).agents@.len()
                &&& final(self).agents@.len() == old(self).agents@.len() + 1
                &&& final(self).agents@.last().owner == *owner
                &&& final(self).agents@.last().is_active
                &&& final(self).agents@.drop_last() == old(self).agents@
                &&& final(self).tasks@ == old(self).tasks@
                &&& final(self).submissions@ == old(self).submissions@
            },
    {
        if let Some(a) = self.find_agent(owner) {
            return Err(OpenfourrError::AlreadyExists);
        }
        let profile = crate::registry::register_agent(owner, name, bio, skills, hourly_rate, now)?;
        let a = self.agents.len();
        self.agents.push(profile);
        proof {
            assert(self.agents@.drop_last() =~= old(self).agents@);
        }
        Ok(a)
    }

    /// A client posts a task with a fresh sequence id and funds its escrow.
    pub fn create_task(
        &mut self,
        client: &Identity,
        title: String,
        description: String,
        requirements: String,
        category: String,
        bounty_amount: u64,
        deadline_hours: u64,
        now: i64,
    ) -> (r: Result<(Transfer, TaskCreated), OpenfourrError>)
        requires
            old(self).wf(),
        ensures
            final(self).wf(),
            final(self).steps_from(old(self)),
            match create_task_refusal(
                old(self).platform,
                title@,
                description@,
                bounty_amount,
                deadline_hours,
                now,
            ) {
                Some(e) => r == Err::<(Transfer, TaskCreated), OpenfourrError>(e) && *final(self)
                    == *old(self),
                None => {
                    &&& r is Ok
                    &&& final(self).tasks@.len() == old(self).tasks@.len() + 1
                    &&& final(self).tasks@.drop_last() == old(self).tasks@
                    &&& final(self).tasks@.last().status == TaskStatus::Open
                    &&& final(self).tasks@.last().client == *client
                    &&& final(self).tasks@.last().bounty_amount == bounty_amount
                    &&& final(self).escrows@.last().balance == bounty_amount
                    &&& r->Ok_0.0.amount == bounty_amount
                    &&& final(self).submissions@ == old(self).submissions@
                    &&& final(self).agents@ == old(self).agents@
                },
            },
    {
        let (task, escrow, funding, event) = crate::lifecycle::create_task(
            &mut self.platform,
            client,
            title,
            description,
            requirements,
            category,
            bounty_amount,
            deadline_hours,
            now,
        )?;
        proof {
            assert forall|k: int| 0 <= k < self.submissions@.len() implies (
            #[trigger] self.submissions@[k]).task_id != task.id by {}
            lemma_submissions_to_zero(self.submissions@, task.id);
        }
        self.tasks.push(task);
        self.escrows.push(escrow);
        proof {
            assert(self.tasks@.drop_last() =~= old(self).tasks@);
            assert forall|i: int| 0 <= i < self.tasks@.len() implies {
                let t = #[trigger] self.tasks@[i];
                &&& t.id == i
                &&& custody(t, self.escrows@[i])
                &&& t.wf()
                &&& is_reachable(t.status)
                &&& t.submission_count == submissions_to(self.submissions@, i as u64)
            } by {
                if i < old(self).tasks@.len() {
                    assert(self.tasks@[i] == old(self).tasks@[i]);
                    assert(self.escrows@[i] == old(self).escrows@[i]);
                }
            }
        }
        Ok((funding, event))
    }

    /// Whether `agent` has a submission to task `task_id`.
    pub open spec fn has_submission(&self, task_id: u64, agent: Identity) -> bool {
        exists|k: int|
            0 <= k < self.submissions@.len() && (#[trigger] self.submissions@[k]).task_id
                == task_id && self.submissions@[k].agent@ == agent@
    }

    /// The caller's agent profile enters work for task `task_id`. The task
    /// and the profile must exist, and the caller may enter a task only once.
    pub fn submit_application(
        &mut self,
        caller: &Identity,
        task_id: u64,
        submission_url: String,
        submission_notes: String,
        now: i64,
    ) -> (r: Result<ApplicationSubmitted, OpenfourrError>)
        requires
            old(self).wf(),
        ensures
            final(self).wf(),
            final(self).steps_from(old(self)),
            r is Err ==> final(self).same_records(old(self)),
            task_id >= old(self).tasks@.len() || !old(self).has_agent(*caller) ==> r
                == Err::<ApplicationSubmitted, OpenfourrError>(OpenfourrError::NotFound),
            task_id < old(self).tasks@.len() && old(self).has_agent(*caller)
                && old(self).has_submission(task_id, *caller) ==> r == Err::<
                ApplicationSubmitted,
                OpenfourrError,
            >(OpenfourrError::AlreadyExists),
            forall|a: int|
                0 <= a < old(self).agents@.len() && #[trigger] old(self).agents@[a].owner@ == caller@
                    && task_id < old(self).tasks@.len() && !old(self).has_submission(
                    task_id,
                    *caller,
                ) ==> match submit_refusal(
                    *caller,
                    old(self).tasks@[task_id as int],
                    old(self).agents@[a],
                    submission_url@,
                    now,
                ) {
                    Some(e) => r == Err::<ApplicationSubmitted, OpenfourrError>(e),
                    None => r is Ok,
                },
            r is Ok ==> {
                &&& final(self).submissions@.len() == old(self).submissions@.len() + 1
                &&& final(self).submissions@.drop_last() == old(self).submissions@
                &&& final(self).submissions@.last().task_id == task_id
                &&& final(self).submissions@.last().agent@ == caller@
                &&& final(self).submissions@.last().status == SubmissionStatus::Pending
                &&& final(self).tasks@[task_id as int].submission_count == old(
                    self,
                ).tasks@[task_id as int].submission_count + 1
            },
    {
        if task_id >= self.tasks.len() as u64 {
            return Err(OpenfourrError::NotFound);
        }
        let a = match self.find_agent(caller) {
            Some(a) => a,
            None => {
                return Err(OpenfourrError::NotFound);
            },
        };
        if let Some(k) = self.find_submission(task_id, caller) {
            return Err(OpenfourrError::AlreadyExists);
        }
        let t = task_id as usize;
        proof {
            assert forall|a2: int|
                0 <= a2 < old(self).agents@.len() && #[trigger] old(self).agents@[a2].owner@
                    == caller@ implies a2 == a by {}
        }
        let (submission, event) = match crate::lifecycle::submit_application(
            caller,
            &mut self.tasks[t],
            &self.agents[a],
            submission_url,
            submission_notes,
            now,
        ) {
            Ok(done) => done,
            Err(e) => {
                proof {
                    assert(self.tasks@ =~= old(self).tasks@);
                }
                return Err(e);
            },
        };
        proof {
            lemma_submissions_to_push(self.submissions@, submission, task_id);
            assert forall|i: int| 0 <= i < self.tasks@.len() && i != t implies
                #[trigger] submissions_to(self.submissions@.push(submission), i as u64)
                == submissions_to(self.submissions@, i as u64) by {
                lemma_submissions_to_push(self.submissions@, submission, i as u64);
            }
        }
        self.submissions.push(submission);
        proof {
            assert(self.submissions@.drop_last() =~= old(self).submissions@);
            assert forall|i: int| 0 <= i < self.tasks@.len() implies {
                let tk = #[trigger] self.tasks@[i];
                &&& tk.id == i
                &&& custody(tk, self.escrows@[i])
                &&& tk.wf()
                &&& is_reachable(tk.status)
                &&& tk.submission_count == submissions_to(self.submissions@, i as u64)
            } by {
                if i != t {
                    assert(self.tasks@[i] == old(self).tasks@[i]);
                    assert(submissions_to(self.submissions@, i as u64) == submissions_to(
                        old(self).submissions@,
                        i as u64,
                    ));
                }
            }
            let n = old(self).submissions@.len() as int;
            assert forall|k: int, l: int|
                0 <= k < self.submissions@.len() && 0 <= l < self.submissions@.len() && k != l
                    && #[trigger] self.submissions@[k].task_id
                    == #[trigger] self.submissions@[l].task_id implies self.submissions@[k].agent@
                    != self.submissions@[l].agent@ by {
                if k < n && l < n {
                    assert(self.submissions@[k] == old(self).submissions@[k]);
                    assert(self.submissions@[l] == old(self).submissions@[l]);
                } else if k < n {
                    assert(self.submissions@[k] == old(self).submissions@[k]);
                } else {
                    assert(self.submissions@[l] == old(self).submissions@[l]);
                }
            }
            assert forall|k: int|
                0 <= k < self.submissions@.len() && (#[trigger] self.submissions@[k]).status
                    == SubmissionStatus::Selected implies {
                let tk = self.tasks@[self.submissions@[k].task_id as int];
                &&& tk.status == TaskStatus::Completed
                &&& tk.winning_submission == Some(self.submissions@[k].agent)
            } by {
                assert(k < n);
                assert(self.submissions@[k] == old(self).submissions@[k]);
            }
            assert forall|k: int, l: int|
                0 <= k < self.submissions@.len() && 0 <= l < self.submissions@.len() && k != l
                    && #[trigger] self.submissions@[k].task_id
                    == #[trigger] self.submissions@[l].task_id && self.submissions@[k].status
                    == SubmissionStatus::Selected implies self.submissions@[l].status
                != SubmissionStatus::Selected by {
                assert(k < n);
                assert(self.submissions@[k] == old(self).submissions@[k]);
                if l < n {
                    assert(self.submissions@[l] == old(self).submissions@[l]);
                }
            }
        }
        Ok(event)
    }

    /// The client of task `task_id` picks the submission of `agent` as the
    /// winner; the escrow pays out and every count records it.
    pub fn select_winner(
        &mut self,
        caller: &Identity,
        task_id: u64,
        agent: &Identity,
        rating: u8,
        now: i64,
    ) -> (r: Result<(Vec<Transfer>, WinnerSelected), OpenfourrError>)
        requires
            old(self).wf(),
        ensures
            final(self).wf(),
            final(self).steps_from(old(self)),
            r is Err ==> final(self).same_records(old(self)),
            task_id >= old(self).tasks@.len() || !old(self).has_submission(task_id, *agent)
                || !old(self).has_agent(*agent) ==> r == Err::<
                (Vec<Transfer>, WinnerSelected),
                OpenfourrError,
            >(OpenfourrError::NotFound),
            forall|k: int, a: int|
                0 <= k < old(self).submissions@.len() && 0 <= a < old(self).agents@.len()
                    && #[trigger] old(self).submissions@[k].task_id == task_id && old(
                    self,
                ).submissions@[k].agent@ == agent@ && #[trigger] old(self).agents@[a].owner@
                    == agent@ ==> match select_winner_refusal(
                    *caller,
                    old(self).tasks@[task_id as int],
                    old(self).submissions@[k],
                    old(self).agents@[a],
                    old(self).platform,
                    rating,
                ) {
                    Some(e) => r == Err::<(Vec<Transfer>, WinnerSelected), OpenfourrError>(e),
                    None => {
                        &&& r is Ok
                        &&& final(self).tasks@[task_id as int].status == TaskStatus::Completed
                        &&& final(self).submissions@[k].status == SubmissionStatus::Selected
                        &&& final(self).escrows@[task_id as int].balance == 0
                        &&& total_amount(r->Ok_0.0@) == old(self).tasks@[task_id as int].bounty_amount
                    },
                },
    {
        if task_id >= self.tasks.len() as u64 {
            return Err(OpenfourrError::NotFound);
        }
        let k = match self.find_submission(task_id, agent) {
            Some(k) => k,
            None => {
                return Err(OpenfourrError::NotFound);
            },
        };
        let a = match self.find_agent(agent) {
            Some(a) => a,
            None => {
                return Err(OpenfourrError::NotFound);
            },
        };
        let t = task_id as usize;
        proof {
            assert(self.tasks@[t as int].id == t);
        }
        let result = crate::lifecycle::select_winner(
            caller,
            &mut self.tasks[t],
            &mut self.submissions[k],
            &mut self.agents[a],
            &mut self.escrows[t],
            &mut self.platform,
            rating,
            now,
        );
        proof {
            assert forall|k2: int, a2: int|
                0 <= k2 < old(self).submissions@.len() && 0 <= a2 < old(self).agents@.len()
                    && #[trigger] old(self).submissions@[k2].task_id == task_id && old(
                    self,
                ).submissions@[k2].agent@ == agent@ && #[trigger] old(self).agents@[a2].owner@
                    == agent@ implies k2 == k && a2 == a by {}
            if result is Err {
                assert(self.tasks@ =~= old(self).tasks@);
                assert(self.submissions@ =~= old(self).submissions@);
                assert(self.agents@ =~= old(self).agents@);
                assert(self.escrows@ =~= old(self).escrows@);
            } else {
                let subs = self.submissions@;
                let osubs = old(self).submissions@;
                assert forall|i: int| 0 <= i < self.tasks@.len() implies {
                    let tk = #[trigger] self.tasks@[i];
                    &&& tk.id == i
                    &&& custody(tk, self.escrows@[i])
                    &&& tk.wf()
                    &&& is_reachable(tk.status)
                    &&& tk.submission_count == submissions_to(subs, i as u64)
                } by {
                    lemma_submissions_to_update(osubs, k as int, subs[k as int], i as u64);
                    assert(subs =~= osubs.update(k as int, subs[k as int]));
                    if i != t {
                        assert(self.tasks@[i] == old(self).tasks@[i]);
                    }
                }
                assert forall|k2: int|
                    0 <= k2 < subs.len() implies (#[trigger] subs[k2]).task_id
                    < self.tasks@.len() by {
                    if k2 != k {
                        assert(subs[k2] == osubs[k2]);
                    }
                }
                assert forall|x: int, y: int|
                    0 <= x < self.agents@.len() && 0 <= y < self.agents@.len() && x != y
                        implies #[trigger] self.agents@[x].owner@ != #[trigger] self.agents@[y].owner@ by {
                    assert(old(self).agents@[x].owner@ != old(self).agents@[y].owner@);
                }
                assert forall|x: int, y: int|
                    0 <= x < subs.len() && 0 <= y < subs.len() && x != y
                        && #[trigger] subs[x].task_id == #[trigger] subs[y].task_id implies subs[x].agent@
                    != subs[y].agent@ by {
                    assert(osubs[x].task_id == osubs[y].task_id);
                }
                assert forall|x: int|
                    0 <= x < subs.len() && (#[trigger] subs[x]).status
                        == SubmissionStatus::Selected implies {
                    let tk = self.tasks@[subs[x].task_id as int];
                    &&& tk.status == TaskStatus::Completed
                    &&& tk.winning_submission == Some(subs[x].agent)
                } by {
                    if x != k {
                        assert(subs[x] == osubs[x]);
                        assert(osubs[x].task_id != t);
                    }
                }
                assert forall|x: int, y: int|
                    0 <= x < subs.len() && 0 <= y < subs.len() && x != y
                        && #[trigger] subs[x].task_id == #[trigger] subs[y].task_id
                        && subs[x].status == SubmissionStatus::Selected implies subs[y].status
                    != SubmissionStatus::Selected by {
                    if x != k && y != k {
                        assert(subs[x] == osubs[x]);
                        assert(subs[y] == osubs[y]);
                    } else if x == k {
                        assert(subs[y] == osubs[y]);
                        assert(osubs[y].task_id == t);
                    } else {
                        assert(subs[x] == osubs[x]);
                        assert(osubs[x].task_id == t);
                    }
                }
            }
        }
        result
    }

    /// The client of task `task_id` withdraws it, if nobody has submitted to
    /// it; the whole bounty goes back to the client.
    pub fn cancel_task(&mut self, caller: &Identity, task_id: u64) -> (r: Result<
        (Transfer, TaskCancelled),
        OpenfourrError,
    >)
        requires
            old(self).wf(),
        ensures
            final(self).wf(),
            final(self).steps_from(old(self)),
            r is Err ==> final(self).same_records(old(self)),
            task_id >= old(self).tasks@.len() ==> r == Err::<(Transfer, TaskCancelled), OpenfourrError>(
                OpenfourrError::NotFound,
            ),
            task_id < old(self).tasks@.len() ==> match cancel_task_refusal(
                *caller,
                old(self).tasks@[task_id as int],
            ) {
                Some(e) => r == Err::<(Transfer, TaskCancelled), OpenfourrError>(e),
                None => {
                    &&& r is Ok
                    &&& r->Ok_0.0 == refund_transfer(old(self).tasks@[task_id as int])
                    &&& final(self).tasks@[task_id as int].status == TaskStatus::Cancelled
                    &&& final(self).escrows@[task_id as int].balance == 0
                },
            },
    {
        if task_id >= self.tasks.len() as u64 {
            return Err(OpenfourrError::NotFound);
        }
        let t = task_id as usize;
        let result = crate::lifecycle::cancel_task(caller, &mut self.tasks[t], &mut self.escrows[t]);
        proof {
            if result is Err {
                assert(self.tasks@ =~= old(self).tasks@);
                assert(self.escrows@ =~= old(self).escrows@);
            } else {
                lemma_one_task_changed(*old(self), *self, t as int);
            }
        }
        result
    }

    /// Anyone refunds task `task_id` to its client once it has stayed Open
    /// past its deadline and the grace period.
    pub fn auto_refund_expired(&mut self, task_id: u64, now: i64) -> (r: Result<
        (Transfer, AutoRefunded),
        OpenfourrError,
    >)
        requires
            old(self).wf(),
        ensures
            final(self).wf(),
            final(self).steps_from(old(self)),
            r is Err ==> final(self).same_records(old(self)),
            task_id >= old(self).tasks@.len() ==> r == Err::<(Transfer, AutoRefunded), OpenfourrError>(
                OpenfourrError::NotFound,
            ),
            task_id < old(self).tasks@.len() ==> match auto_refund_refusal(
                old(self).tasks@[task_id as int],
                now,
            ) {
                Some(e) => r == Err::<(Transfer, AutoRefunded), OpenfourrError>(e),
                None => {
                    &&& r is Ok
                    &&& r->Ok_0.0 == refund_transfer(old(self).tasks@[task_id as int])
                    &&& final(self).tasks@[task_id as int].status == TaskStatus::Cancelled
                    &&& final(self).escrows@[task_id as int].balance == 0
                },
            },
    {
        if task_id >= self.tasks.len() as u64 {
            return Err(OpenfourrError::NotFound);
        }
        let t = task_id as usize;
        let result = crate::lifecycle::auto_refund_expired(
            &mut self.tasks[t],
            &mut self.escrows[t],
            now,
        );
        proof {
            if result is Err {
                assert(self.tasks@ =~= old(self).tasks@);
                assert(self.escrows@ =~= old(self).escrows@);
            } else {
                lemma_one_task_changed(*old(self), *self, t as int);
            }
        }
        result
    }

    /// Any party flags task `task_id` as Disputed, if it is Open and has
    /// submissions.
    pub fn raise_dispute(&mut self, raiser: &Identity, task_id: u64) -> (r: Result<
        DisputeRaised,
        OpenfourrError,
    >)
        requires
            old(self).wf(),
        ensures
            final(self).wf(),
            final(self).steps_from(old(self)),
            r is Err ==> final(self).same_records(old(self)),
            task_id >= old(self).tasks@.len() ==> r == Err::<DisputeRaised, OpenfourrError>(
                OpenfourrError::NotFound,
            ),
            task_id < old(self).tasks@.len() ==> match dispute_refusal(
                old(self).tasks@[task_id as int],
            ) {
                Some(e) => r == Err::<DisputeRaised, OpenfourrError>(e),
                None => r is Ok && final(self).tasks@[task_id as int].status == TaskStatus::Disputed,
            },
    {
        if task_id >= self.tasks.len() as u64 {
            return Err(OpenfourrError::NotFound);
        }
        let t = task_id as usize;
        let result = crate::negotiation::raise_dispute(raiser, &mut self.tasks[t]);
        proof {
            assert(self.escrows@ =~= old(self).escrows@.update(t as int, self.escrows@[t as int]));
            if result is Err {
                assert(self.tasks@ =~= old(self).tasks@);
            } else {
                lemma_one_task_changed(*old(self), *self, t as int);
            }
        }
        result
    }

    /// An agent with a submission to task `task_id` asks for more time.
    pub fn request_extension(&mut self, caller: &Identity, task_id: u64, extra_hours: u64) -> (r:
        Result<ExtensionRequested, OpenfourrError>)
        requires
            old(self).wf(),
        ensures
            final(self).wf(),
            final(self).steps_from(old(self)),
            r is Err ==> final(self).same_records(old(self)),
            task_id >= old(self).tasks@.len() ==> r == Err::<ExtensionRequested, OpenfourrError>(
                OpenfourrError::NotFound,
            ),
            task_id < old(self).tasks@.len() && !old(self).has_submission(task_id, *caller) ==> r
                == Err::<ExtensionRequested, OpenfourrError>(OpenfourrError::Unauthorized),
            forall|k: int|
                0 <= k < old(self).submissions@.len() && #[trigger] old(self).submissions@[k].task_id
                    == task_id && old(self).submissions@[k].agent@ == caller@ ==> match request_refusal(
                    *caller,
                    old(self).tasks@[task_id as int],
                    old(self).submissions@[k],
                    extra_hours,
                ) {
                    Some(e) => r == Err::<ExtensionRequested, OpenfourrError>(e),
                    None => {
                        &&& r is Ok
                        &&& final(self).tasks@[task_id as int].extension_requested
                        &&& final(self).tasks@[task_id as int].extension_hours == extra_hours
                        &&& final(self).tasks@[task_id as int].deadline == old(
                            self,
                        ).tasks@[task_id as int].deadline
                    },
                },
    {
        if task_id >= self.tasks.len() as u64 {
            return Err(OpenfourrError::NotFound);
        }
        let k = match self.find_submission(task_id, caller) {
            Some(k) => k,
            None => {
                return Err(OpenfourrError::Unauthorized);
            },
        };
        let t = task_id as usize;
        let result = crate::negotiation::request_extension(
            caller,
            &mut self.tasks[t],
            &self.submissions[k],
            extra_hours,
        );
        proof {
            assert forall|k2: int|
                0 <= k2 < old(self).submissions@.len() && #[trigger] old(self).submissions@[k2].task_id
                    == task_id && old(self).submissions@[k2].agent@ == caller@ implies k2 == k by {}
            assert(self.escrows@ =~= old(self).escrows@.update(t as int, self.escrows@[t as int]));
            if result is Err {
                assert(self.tasks@ =~= old(self).tasks@);
            } else {
                lemma_one_task_changed(*old(self), *self, t as int);
            }
        }
        result
    }

    /// The client of task `task_id` grants the pending extension request.
    pub fn approve_extension(&mut self, caller: &Identity, task_id: u64) -> (r: Result<
        ExtensionApproved,
        OpenfourrError,
    >)
        requires
            old(self).wf(),
        ensures
            final(self).wf(),
            final(self).steps_from(old(self)),
            r is Err ==> final(self).same_records(old(self)),
            task_id >= old(self).tasks@.len() ==> r == Err::<ExtensionApproved, OpenfourrError>(
                OpenfourrError::NotFound,
            ),
            task_id < old(self).tasks@.len() ==> match approve_refusal(
                *caller,
                old(self).tasks@[task_id as int],
            ) {
                Some(e) => r == Err::<ExtensionApproved, OpenfourrError>(e),
                None => {
                    &&& r is Ok
                    &&& final(self).tasks@[task_id as int].deadline == extended_deadline(
                        old(self).tasks@[task_id as int],
                    )
                    &&& !final(self).tasks@[task_id as int].extension_requested
                },
            },
    {
        if task_id >= self.tasks.len() as u64 {
            return Err(OpenfourrError::NotFound);
        }
        let t = task_id as usize;
        let result = crate::negotiation::approve_extension(caller, &mut self.tasks[t]);
        proof {
            assert(self.escrows@ =~= old(self).escrows@.update(t as int, self.escrows@[t as int]));
            if result is Err {
                assert(self.tasks@ =~= old(self).tasks@);
            } else {
                lemma_one_task_changed(*old(self), *self, t as int);
            }
        }
        result
    }

    /// The client of task `task_id` turns the pending extension request down.
    pub fn deny_extension(&mut self, caller: &Identity, task_id: u64) -> (r: Result<
        ExtensionDenied,
        OpenfourrError,
    >)
        requires
            old(self).wf(),
        ensures
            final(self).wf(),
            final(self).steps_from(old(self)),
            r is Err ==> final(self).same_records(old(self)),
            task_id >= old(self).tasks@.len() ==> r == Err::<ExtensionDenied, OpenfourrError>(
                OpenfourrError::NotFound,
            ),
            task_id < old(self).tasks@.len() ==> match deny_refusal(
                *caller,
                old(self).tasks@[task_id as int],
            ) {
                Some(e) => r == Err::<ExtensionDenied, OpenfourrError>(e),
                None => {
                    &&& r is Ok
                    &&& final(self).tasks@[task_id as int].deadline == old(
                        self,
                    ).tasks@[task_id as int].deadline
                    &&& !final(self).tasks@[task_id as int].extension_requested
                },
            },
    {
        if task_id >= self.tasks.len() as u64 {
            return Err(OpenfourrError::NotFound);
        }
        let t = task_id as usize;
        let result = crate::negotiation::deny_extension(caller, &mut self.tasks[t]);
        proof {
            assert(self.escrows@ =~= old(self).escrows@.update(t as int, self.escrows@[t as int]));
            if result is Err {
                assert(self.tasks@ =~= old(self).tasks@);
            } else {
                lemma_one_task_changed(*old(self), *self, t as int);
            }
        }
        result
    }

    /// The client of task `task_id`, or an agent with a submission to it,
    /// appends a message to its log.
    pub fn send_message(&mut self, sender: &Identity, task_id: u64, content: String, now: i64) -> (r:
        Result<u64, OpenfourrError>)
        requires
            old(self).wf(),
        ensures
            final(self).wf(),
            final(self).steps_from(old(self)),
            r is Err ==> final(self).same_records(old(self)),
            task_id >= old(self).tasks@.len() ==> r == Err::<u64, OpenfourrError>(
                OpenfourrError::NotFound,
            ),
            task_id < old(self).tasks@.len() ==> {
                let tk = old(self).tasks@[task_id as int];
                let participant = sender@ == tk.client@ || old(self).has_submission(
                    task_id,
                    *sender,
                );
                &&& byte_len(content@) > 500 ==> r == Err::<u64, OpenfourrError>(
                    OpenfourrError::MessageTooLong,
                )
                &&& byte_len(content@) == 0 ==> r == Err::<u64, OpenfourrError>(
                    OpenfourrError::MessageEmpty,
                )
                &&& 0 < byte_len(content@) <= 500 && !participant ==> r == Err::<u64, OpenfourrError>(
                    OpenfourrError::NotTaskParticipant,
                )
                &&& 0 < byte_len(content@) <= 500 && participant && tk.message_count < u64::MAX
                    ==> r == Ok::<u64, OpenfourrError>(tk.message_count)
                &&& r is Ok ==> {
                    &&& final(self).messages@ == old(self).messages@.push(
                        Message {
                            task_id,
                            message_id: tk.message_count,
                            sender: *sender,
                            content,
                            sent_at: now,
                        },
                    )
                    &&& final(self).tasks@[task_id as int].message_count == tk.message_count + 1
                }
            },
    {
        if task_id >= self.tasks.len() as u64 {
            return Err(OpenfourrError::NotFound);
        }
        let t = task_id as usize;
        let found = self.find_submission(task_id, sender);
        let submission = match found {
            Some(k) => Some(&self.submissions[k]),
            None => None,
        };
        let result = crate::negotiation::send_message(sender, &mut self.tasks[t], submission, content, now);
        proof {
            assert(self.escrows@ =~= old(self).escrows@.update(t as int, self.escrows@[t as int]));
            if result is Err {
                assert(self.tasks@ =~= old(self).tasks@);
            } else {
                lemma_one_task_changed(*old(self), *self, t as int);
            }
        }
        match result {
            Ok(message) => {
                let id = message.message_id;
                self.messages.push(message);
                Ok(id)
            },
            Err(e) => Err(e),
        }
    }
}

} // verus!
