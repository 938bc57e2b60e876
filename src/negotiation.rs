use vstd::prelude::*;
use crate::error::OpenfourrError;
use crate::events::{DisputeRaised, ExtensionApproved, ExtensionDenied, ExtensionRequested};
use crate::identity::Identity;
use crate::lifecycle::HOUR;
use crate::state::{byte_len, text_len, Message, Submission, Task, TaskStatus};

verus! {

/// Whether `who` may take part in a task's conversation: its client, or the
/// agent of a submission to it.
pub open spec fn is_participant(who: Identity, task: Task, submission: Option<Submission>) -> bool {
    who@ == task.client@ || (submission is Some && submission->Some_0.task_id == task.id
        && submission->Some_0.agent@ == who@)
}

/// The first check that refuses `send_message`, if any.
pub open spec fn message_refusal(
    sender: Identity,
    task: Task,
    submission: Option<Submission>,
    content: Seq<char>,
) -> Option<OpenfourrError> {
    if byte_len(content) > 500 {
        Some(OpenfourrError::MessageTooLong)
    } else if byte_len(content) == 0 {
        Some(OpenfourrError::MessageEmpty)
    } else if !is_participant(sender, task, submission) {
        Some(OpenfourrError::NotTaskParticipant)
    } else if task.message_count == u64::MAX {
        Some(OpenfourrError::Overflow)
    } else {
        None
    }
}

/// A participant appends a message to the task's log; it takes the task's
/// message counter as its id, and the counter moves on by one.
pub fn send_message(
    sender: &Identity,
    task: &mut Task,
    submission: Option<&Submission>,
    content: String,
    now: i64,
) -> (r: Result<Message, OpenfourrError>)
    ensures
        match message_refusal(
            *sender,
            *old(task),
            match submission {
                Some(s) => Some(*s),
                None => None,
            },
            content@,
        ) {
            Some(e) => {
                &&& r == Err::<Message, OpenfourrError>(e)
                &&& *final(task) == *old(task)
            },
            None => {
                &&& r == Ok::<Message, OpenfourrError>(
                    Message {
                        task_id: old(task).id,
                        message_id: old(task).message_count,
                        sender: *sender,
                        content,
                        sent_at: now,
                    },
                )
                &&& *final(task) == (Task {
                    message_count: (old(task).message_count + 1) as u64,
                    ..*old(task)
                })
            },
        },
{
    let len = text_len(&content);
    if len > 500 {
        return Err(OpenfourrError::MessageTooLong);
    }
    if len == 0 {
        return Err(OpenfourrError::MessageEmpty);
    }
    let is_client = sender.same_as(&task.client);
    let is_agent = match submission {
        Some(s) => s.task_id == task.id && s.agent.same_as(sender),
        None => false,
    };
    if !(is_client || is_agent) {
        return Err(OpenfourrError::NotTaskParticipant);
    }
    if task.message_count == u64::MAX {
        return Err(OpenfourrError::Overflow);
    }
    let message = Message {
        task_id: task.id,
        message_id: task.message_count,
        sender: *sender,
        content,
        sent_at: now,
    };
    task.message_count = task.message_count + 1;
    Ok(message)
}

/// The first check that refuses `request_extension`, if any.
pub open spec fn request_refusal(
    caller: Identity,
    task: Task,
    submission: Submission,
    extra_hours: u64,
) -> Option<OpenfourrError> {
    if submission.task_id != task.id || submission.agent@ != caller@ {
        Some(OpenfourrError::Unauthorized)
    } else if task.status != TaskStatus::Open {
        Some(OpenfourrError::TaskNotOpen)
    } else if !(1 <= extra_hours <= 168) {
        Some(OpenfourrError::InvalidExtension)
    } else if task.extension_requested {
        Some(OpenfourrError::ExtensionAlreadyRequested)
    } else {
        None
    }
}

/// An agent with a submission to an open task asks for 1 to 168 more hours.
/// One request may be pending at a time.
pub fn request_extension(
    caller: &Identity,
    task: &mut Task,
    submission: &Submission,
    extra_hours: u64,
) -> (r: Result<ExtensionRequested, OpenfourrError>)
    requires
        old(task).wf(),
    ensures
        final(task).wf(),
        match request_refusal(*caller, *old(task), *submission, extra_hours) {
            Some(e) => {
                &&& r == Err::<ExtensionRequested, OpenfourrError>(e)
                &&& *final(task) == *old(task)
            },
            None => {
                &&& r == Ok::<ExtensionRequested, OpenfourrError>(
                    ExtensionRequested { task_id: old(task).id, agent: *caller, extra_hours },
                )
                &&& *final(task) == (Task {
                    extension_requested: true,
                    extension_hours: extra_hours,
                    ..*old(task)
                })
            },
        },
{
    if submission.task_id != task.id || !submission.agent.same_as(caller) {
        return Err(OpenfourrError::Unauthorized);
    }
    if task.status != TaskStatus::Open {
        return Err(OpenfourrError::TaskNotOpen);
    }
    if !(extra_hours > 0 && extra_hours <= 168) {
        return Err(OpenfourrError::InvalidExtension);
    }
    if task.extension_requested {
        return Err(OpenfourrError::ExtensionAlreadyRequested);
    }
    task.extension_requested = true;
    task.extension_hours = extra_hours;
    Ok(ExtensionRequested { task_id: task.id, agent: *caller, extra_hours })
}

/// The deadline after approving the pending extension of a task.
pub open spec fn extended_deadline(task: Task) -> int {
    task.deadline + task.extension_hours * HOUR
}

/// The first check that refuses `approve_extension`, if any.
pub open spec fn approve_refusal(caller: Identity, task: Task) -> Option<OpenfourrError> {
    if caller@ != task.client@ {
        Some(OpenfourrError::Unauthorized)
    } else if !task.extension_requested {
        Some(OpenfourrError::NoExtensionRequested)
    } else if extended_deadline(task) > i64::MAX {
        Some(OpenfourrError::Overflow)
    } else {
        None
    }
}

/// The client grants the pending request: the deadline moves on by the hours
/// asked for, and no request is pending any more.
pub fn approve_extension(caller: &Identity, task: &mut Task) -> (r: Result<
    ExtensionApproved,
    OpenfourrError,
>)
    requires
        old(task).wf(),
    ensures
        final(task).wf(),
        match approve_refusal(*caller, *old(task)) {
            Some(e) => {
                &&& r == Err::<ExtensionApproved, OpenfourrError>(e)
                &&& *final(task) == *old(task)
            },
            None => {
                let deadline = extended_deadline(*old(task)) as i64;
                &&& r == Ok::<ExtensionApproved, OpenfourrError>(
                    ExtensionApproved { task_id: old(task).id, new_deadline: deadline },
                )
                &&& *final(task) == (Task {
                    deadline,
                    extension_requested: false,
                    extension_hours: 0,
                    ..*old(task)
                })
            },
        },
{
    if !caller.same_as(&task.client) {
        return Err(OpenfourrError::Unauthorized);
    }
    if !task.extension_requested {
        return Err(OpenfourrError::NoExtensionRequested);
    }
    let extra: i64 = (task.extension_hours as i64) * HOUR;
    if task.deadline > i64::MAX - extra {
        return Err(OpenfourrError::Overflow);
    }
    task.deadline = task.deadline + extra;
    task.extension_requested = false;
    task.extension_hours = 0;
    Ok(ExtensionApproved { task_id: task.id, new_deadline: task.deadline })
}

/// The first check that refuses `deny_extension`, if any.
pub open spec fn deny_refusal(caller: Identity, task: Task) -> Option<OpenfourrError> {
    if caller@ != task.client@ {
        Some(OpenfourrError::Unauthorized)
    } else if !task.extension_requested {
        Some(OpenfourrError::NoExtensionRequested)
    } else {
        None
    }
}

/// The client turns the pending request down; the deadline stays.
pub fn deny_extension(caller: &Identity, task: &mut Task) -> (r: Result<
    ExtensionDenied,
    OpenfourrError,
>)
    requires
        old(task).wf(),
    ensures
        final(task).wf(),
        match deny_refusal(*caller, *old(task)) {
            Some(e) => {
                &&& r == Err::<ExtensionDenied, OpenfourrError>(e)
                &&& *final(task) == *old(task)
            },
            None => {
                &&& r == Ok::<ExtensionDenied, OpenfourrError>(
                    ExtensionDenied { task_id: old(task).id },
                )
                &&& *final(task) == (Task {
                    extension_requested: false,
                    extension_hours: 0,
                    ..*old(task)
                })
            },
        },
{
    if !caller.same_as(&task.client) {
        return Err(OpenfourrError::Unauthorized);
    }
    if !task.extension_requested {
        return Err(OpenfourrError::NoExtensionRequested);
    }
    task.extension_requested = false;
    task.extension_hours = 0;
    Ok(ExtensionDenied { task_id: task.id })
}

/// The first check that refuses `raise_dispute`, if any.
pub open spec fn dispute_refusal(task: Task) -> Option<OpenfourrError> {
    if task.status != TaskStatus::Open {
        Some(OpenfourrError::TaskNotOpen)
    } else if task.submission_count == 0 {
        Some(OpenfourrError::NoSubmissions)
    } else {
        None
    }
}

/// Any party flags an open task that has submissions as Disputed. No
/// operation leads out of Disputed.
pub fn raise_dispute(raiser: &Identity, task: &mut Task) -> (r: Result<
    DisputeRaised,
    OpenfourrError,
>)
    ensures
        match dispute_refusal(*old(task)) {
            Some(e) => {
                &&& r == Err::<DisputeRaised, OpenfourrError>(e)
                &&& *final(task) == *old(task)
            },
            None => {
                &&& r == Ok::<DisputeRaised, OpenfourrError>(
                    DisputeRaised { task_id: old(task).id, raised_by: *raiser },
                )
                &&& *final(task) == (Task {
                    status: TaskStatus::Disputed,
                    dispute_raised_by: Some(*raiser),
                    ..*old(task)
                })
            },
        },
{
    if task.status != TaskStatus::Open {
        return Err(OpenfourrError::TaskNotOpen);
    }
    if task.submission_count == 0 {
        return Err(OpenfourrError::NoSubmissions);
    }
    task.status = TaskStatus::Disputed;
    task.dispute_raised_by = Some(*raiser);
    Ok(DisputeRaised { task_id: task.id, raised_by: *raiser })
}

} // verus!
