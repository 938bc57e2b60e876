use openfourr::error::OpenfourrError;
use openfourr::identity::Identity;
use openfourr::market::Marketplace;
use openfourr::state::{Endpoint, SubmissionStatus, TaskStatus};

fn id(b: u8) -> Identity {
    Identity::new([b; 32])
}

const NOW: i64 = 1_700_000_000;
const HOUR: i64 = 3600;

fn authority() -> Identity {
    id(9)
}

fn client() -> Identity {
    id(1)
}

fn agent_a() -> Identity {
    id(2)
}

fn agent_b() -> Identity {
    id(3)
}

/// A marketplace with a 250 bps fee, two registered agents and one open task
/// with the given bounty and deadline.
fn market_with_task(bounty: u64, deadline_hours: u64) -> Marketplace {
    let mut m = Marketplace::new(&authority(), 250);
    m.register_agent(&agent_a(), "alpha".to_string(), "bio".to_string(), vec![], 10, NOW)
        .unwrap();
    m.register_agent(&agent_b(), "beta".to_string(), "bio".to_string(), vec![], 10, NOW)
        .unwrap();
    m.create_task(
        &client(),
        "Write docs".to_string(),
        "Describe the API".to_string(),
        "Markdown".to_string(),
        "docs".to_string(),
        bounty,
        deadline_hours,
        NOW,
    )
    .unwrap();
    m
}

#[test]
fn happy_path_pays_winner_net_of_fee() {
    let mut m = market_with_task(1_000_000, 24);
    m.submit_application(&agent_a(), 0, "https://a.example".to_string(), "done".to_string(), NOW + 10)
        .unwrap();
    let (transfers, event) = m.select_winner(&client(), 0, &agent_a(), 5, NOW + 20).unwrap();
    assert_eq!(event.payout, 975_000);
    assert_eq!(event.rating, 5);
    assert_eq!(transfers.len(), 2);
    assert_eq!(transfers[0].amount, 975_000);
    assert!(matches!(transfers[0].from, Endpoint::Escrow(0)));
    assert!(matches!(transfers[0].to, Endpoint::Wallet(w) if w.same_as(&agent_a())));
    assert_eq!(transfers[1].amount, 25_000);
    assert!(matches!(transfers[1].to, Endpoint::Wallet(w) if w.same_as(&authority())));
    let agent = &m.agents[0];
    assert_eq!(agent.tasks_completed, 1);
    assert_eq!(agent.total_earned, 975_000);
    assert_eq!(agent.rating_sum, 5);
    assert_eq!(agent.rating_count, 1);
    assert_eq!(m.platform.total_completed, 1);
    assert_eq!(m.platform.total_volume, 1_000_000);
    assert_eq!(m.tasks[0].status, TaskStatus::Completed);
    assert_eq!(m.tasks[0].completed_at, Some(NOW + 20));
    assert!(m.tasks[0].winning_submission.unwrap().same_as(&agent_a()));
    assert_eq!(m.submissions[0].status, SubmissionStatus::Selected);
    assert_eq!(m.escrows[0].balance, 0);
}

#[test]
fn cancel_blocked_after_submission() {
    let mut m = market_with_task(500, 24);
    m.submit_application(&agent_a(), 0, "u".to_string(), "n".to_string(), NOW + 1).unwrap();
    let r = m.cancel_task(&client(), 0);
    assert_eq!(r.unwrap_err(), OpenfourrError::HasSubmissions);
    assert_eq!(m.tasks[0].status, TaskStatus::Open);
    assert_eq!(m.escrows[0].balance, 500);
}

#[test]
fn expired_submission_rejected() {
    let mut m = market_with_task(500, 1);
    let r = m.submit_application(&agent_a(), 0, "u".to_string(), "n".to_string(), NOW + HOUR + 1);
    assert_eq!(r.unwrap_err(), OpenfourrError::TaskExpired);
    let r = m.submit_application(&agent_a(), 0, "u".to_string(), "n".to_string(), NOW + HOUR);
    assert_eq!(r.unwrap_err(), OpenfourrError::TaskExpired);
    assert_eq!(m.tasks[0].submission_count, 0);
}

#[test]
fn extension_round_trip() {
    let mut m = market_with_task(500, 24);
    m.submit_application(&agent_a(), 0, "u".to_string(), "n".to_string(), NOW + 1).unwrap();
    let old_deadline = m.tasks[0].deadline;
    let req = m.request_extension(&agent_a(), 0, 48).unwrap();
    assert_eq!(req.extra_hours, 48);
    assert!(m.tasks[0].extension_requested);
    let ok = m.approve_extension(&client(), 0).unwrap();
    assert_eq!(ok.new_deadline, old_deadline + 48 * 3600);
    assert_eq!(m.tasks[0].deadline, old_deadline + 48 * 3600);
    assert!(!m.tasks[0].extension_requested);
    assert_eq!(m.tasks[0].extension_hours, 0);
}

#[test]
fn denied_extension_keeps_deadline() {
    let mut m = market_with_task(500, 24);
    m.submit_application(&agent_a(), 0, "u".to_string(), "n".to_string(), NOW + 1).unwrap();
    let old_deadline = m.tasks[0].deadline;
    m.request_extension(&agent_a(), 0, 10).unwrap();
    assert_eq!(
        m.request_extension(&agent_a(), 0, 10).unwrap_err(),
        OpenfourrError::ExtensionAlreadyRequested
    );
    m.deny_extension(&client(), 0).unwrap();
    assert_eq!(m.tasks[0].deadline, old_deadline);
    assert!(!m.tasks[0].extension_requested);
    assert_eq!(m.deny_extension(&client(), 0).unwrap_err(), OpenfourrError::NoExtensionRequested);
    assert_eq!(m.approve_extension(&client(), 0).unwrap_err(), OpenfourrError::NoExtensionRequested);
}

#[test]
fn extension_errors() {
    let mut m = market_with_task(500, 24);
    assert_eq!(m.request_extension(&agent_a(), 0, 5).unwrap_err(), OpenfourrError::Unauthorized);
    m.submit_application(&agent_a(), 0, "u".to_string(), "n".to_string(), NOW + 1).unwrap();
    assert_eq!(m.request_extension(&agent_a(), 0, 0).unwrap_err(), OpenfourrError::InvalidExtension);
    assert_eq!(m.request_extension(&agent_a(), 0, 169).unwrap_err(), OpenfourrError::InvalidExtension);
    m.request_extension(&agent_a(), 0, 168).unwrap();
    assert_eq!(m.approve_extension(&agent_a(), 0).unwrap_err(), OpenfourrError::Unauthorized);
    assert_eq!(m.request_extension(&agent_a(), 7, 5).unwrap_err(), OpenfourrError::NotFound);
}

#[test]
fn escrow_drained_exactly_once_on_cancel() {
    let mut m = market_with_task(777, 24);
    assert_eq!(m.escrows[0].balance, 777);
    let (refund, event) = m.cancel_task(&client(), 0).unwrap();
    assert_eq!(event.task_id, 0);
    assert_eq!(refund.amount, 777);
    assert!(matches!(refund.from, Endpoint::Escrow(0)));
    assert!(matches!(refund.to, Endpoint::Wallet(w) if w.same_as(&client())));
    assert_eq!(m.escrows[0].balance, 0);
    assert_eq!(m.tasks[0].status, TaskStatus::Cancelled);
    assert_eq!(m.cancel_task(&client(), 0).unwrap_err(), OpenfourrError::CannotCancel);
    assert_eq!(m.platform.total_volume, 0);
}

#[test]
fn winner_transfers_sum_to_bounty_with_odd_amount() {
    let mut m = market_with_task(999, 24);
    m.submit_application(&agent_a(), 0, "u".to_string(), "n".to_string(), NOW + 1).unwrap();
    let (transfers, event) = m.select_winner(&client(), 0, &agent_a(), 3, NOW + 2).unwrap();
    // 999 * 250 / 10000 = 24.975, rounded down: the remainder goes to the agent.
    assert_eq!(event.payout, 975);
    assert_eq!(transfers[1].amount, 24);
    let total: u64 = transfers.iter().map(|t| t.amount).sum();
    assert_eq!(total, 999);
}

#[test]
fn zero_fee_pays_everything_to_agent() {
    let mut m = Marketplace::new(&authority(), 0);
    m.register_agent(&agent_a(), "a".to_string(), "b".to_string(), vec![], 1, NOW).unwrap();
    m.create_task(&client(), "t".to_string(), "d".to_string(), "r".to_string(), "c".to_string(), 10, 1, NOW)
        .unwrap();
    m.submit_application(&agent_a(), 0, "u".to_string(), "n".to_string(), NOW + 1).unwrap();
    let (transfers, event) = m.select_winner(&client(), 0, &agent_a(), 1, NOW + 2).unwrap();
    assert_eq!(transfers.len(), 1);
    assert_eq!(transfers[0].amount, 10);
    assert_eq!(event.payout, 10);
}

#[test]
fn only_one_winner_per_task() {
    let mut m = market_with_task(1000, 24);
    m.submit_application(&agent_a(), 0, "u".to_string(), "n".to_string(), NOW + 1).unwrap();
    m.submit_application(&agent_b(), 0, "u".to_string(), "n".to_string(), NOW + 2).unwrap();
    m.select_winner(&client(), 0, &agent_a(), 4, NOW + 3).unwrap();
    let r = m.select_winner(&client(), 0, &agent_b(), 4, NOW + 4);
    assert_eq!(r.unwrap_err(), OpenfourrError::TaskNotOpen);
    assert_eq!(m.submissions[1].status, SubmissionStatus::Pending);
    assert_eq!(m.agents[1].tasks_completed, 0);
    assert_eq!(m.platform.total_completed, 1);
}

#[test]
fn select_winner_errors() {
    let mut m = market_with_task(1000, 24);
    assert_eq!(m.select_winner(&client(), 0, &agent_a(), 5, NOW).unwrap_err(), OpenfourrError::NotFound);
    m.submit_application(&agent_a(), 0, "u".to_string(), "n".to_string(), NOW + 1).unwrap();
    assert_eq!(m.select_winner(&agent_a(), 0, &agent_a(), 5, NOW).unwrap_err(), OpenfourrError::Unauthorized);
    assert_eq!(m.select_winner(&client(), 0, &agent_a(), 0, NOW).unwrap_err(), OpenfourrError::InvalidRating);
    assert_eq!(m.select_winner(&client(), 0, &agent_a(), 6, NOW).unwrap_err(), OpenfourrError::InvalidRating);
    assert_eq!(m.select_winner(&client(), 3, &agent_a(), 5, NOW).unwrap_err(), OpenfourrError::NotFound);
    assert_eq!(m.tasks[0].status, TaskStatus::Open);
    assert_eq!(m.escrows[0].balance, 1000);
}

#[test]
fn one_submission_per_task_and_agent() {
    let mut m = market_with_task(1000, 24);
    m.submit_application(&agent_a(), 0, "u".to_string(), "n".to_string(), NOW + 1).unwrap();
    let r = m.submit_application(&agent_a(), 0, "v".to_string(), "m".to_string(), NOW + 2);
    assert_eq!(r.unwrap_err(), OpenfourrError::AlreadyExists);
    assert_eq!(m.submissions.len(), 1);
    assert_eq!(m.tasks[0].submission_count, 1);
}

#[test]
fn submit_errors() {
    let mut m = market_with_task(1000, 24);
    let stranger = id(7);
    let r = m.submit_application(&stranger, 0, "u".to_string(), "n".to_string(), NOW + 1);
    assert_eq!(r.unwrap_err(), OpenfourrError::NotFound);
    let r = m.submit_application(&agent_a(), 0, "x".repeat(501), "n".to_string(), NOW + 1);
    assert_eq!(r.unwrap_err(), OpenfourrError::UrlTooLong);
    m.submit_application(&agent_a(), 0, "x".repeat(500), "n".to_string(), NOW + 1).unwrap();
    m.agents[1].is_active = false;
    let r = m.submit_application(&agent_b(), 0, "u".to_string(), "n".to_string(), NOW + 1);
    assert_eq!(r.unwrap_err(), OpenfourrError::AgentNotActive);
    m.raise_dispute(&agent_a(), 0).unwrap();
    m.agents[1].is_active = true;
    let r = m.submit_application(&agent_b(), 0, "u".to_string(), "n".to_string(), NOW + 1);
    assert_eq!(r.unwrap_err(), OpenfourrError::TaskNotOpen);
}

#[test]
fn auto_refund_after_grace_period_only_once() {
    let mut m = market_with_task(1000, 1);
    let deadline = m.tasks[0].deadline;
    let grace = 7 * 24 * 3600;
    let r = m.auto_refund_expired(0, deadline + grace);
    assert_eq!(r.unwrap_err(), OpenfourrError::GracePeriodNotOver);
    let (refund, event) = m.auto_refund_expired(0, deadline + grace + 1).unwrap();
    assert_eq!(event.task_id, 0);
    assert_eq!(refund.amount, 1000);
    assert!(matches!(refund.to, Endpoint::Wallet(w) if w.same_as(&client())));
    assert_eq!(m.tasks[0].status, TaskStatus::Cancelled);
    assert_eq!(m.escrows[0].balance, 0);
    let r = m.auto_refund_expired(0, deadline + grace + 100);
    assert_eq!(r.unwrap_err(), OpenfourrError::TaskNotOpen);
    assert_eq!(m.auto_refund_expired(5, NOW).unwrap_err(), OpenfourrError::NotFound);
}

#[test]
fn dispute_is_a_dead_end() {
    let mut m = market_with_task(1000, 24);
    assert_eq!(m.raise_dispute(&agent_a(), 0).unwrap_err(), OpenfourrError::NoSubmissions);
    m.submit_application(&agent_a(), 0, "u".to_string(), "n".to_string(), NOW + 1).unwrap();
    let ev = m.raise_dispute(&agent_a(), 0).unwrap();
    assert!(ev.raised_by.same_as(&agent_a()));
    assert_eq!(m.tasks[0].status, TaskStatus::Disputed);
    assert!(m.tasks[0].dispute_raised_by.unwrap().same_as(&agent_a()));
    assert_eq!(m.escrows[0].balance, 1000);
    assert_eq!(m.raise_dispute(&client(), 0).unwrap_err(), OpenfourrError::TaskNotOpen);
    assert_eq!(m.cancel_task(&client(), 0).unwrap_err(), OpenfourrError::CannotCancel);
    assert_eq!(m.select_winner(&client(), 0, &agent_a(), 5, NOW).unwrap_err(), OpenfourrError::TaskNotOpen);
    let far = m.tasks[0].deadline + 30 * 24 * 3600;
    assert_eq!(m.auto_refund_expired(0, far).unwrap_err(), OpenfourrError::TaskNotOpen);
}

#[test]
fn cancel_by_other_than_client_is_refused() {
    let mut m = market_with_task(1000, 24);
    assert_eq!(m.cancel_task(&agent_a(), 0).unwrap_err(), OpenfourrError::Unauthorized);
    assert_eq!(m.cancel_task(&client(), 1).unwrap_err(), OpenfourrError::NotFound);
}

#[test]
fn messages_take_sequential_ids() {
    let mut m = market_with_task(1000, 24);
    assert_eq!(m.send_message(&client(), 0, "hello".to_string(), NOW).unwrap(), 0);
    assert_eq!(
        m.send_message(&agent_a(), 0, "hi".to_string(), NOW).unwrap_err(),
        OpenfourrError::NotTaskParticipant
    );
    m.submit_application(&agent_a(), 0, "u".to_string(), "n".to_string(), NOW + 1).unwrap();
    assert_eq!(m.send_message(&agent_a(), 0, "hi".to_string(), NOW + 2).unwrap(), 1);
    assert_eq!(m.messages.len(), 2);
    assert_eq!(m.messages[1].message_id, 1);
    assert!(m.messages[1].sender.same_as(&agent_a()));
    assert_eq!(m.messages[1].content, "hi");
    assert_eq!(m.tasks[0].message_count, 2);
    assert_eq!(m.send_message(&client(), 0, String::new(), NOW).unwrap_err(), OpenfourrError::MessageEmpty);
    assert_eq!(
        m.send_message(&client(), 0, "m".repeat(501), NOW).unwrap_err(),
        OpenfourrError::MessageTooLong
    );
    assert_eq!(m.send_message(&client(), 0, "m".repeat(500), NOW).unwrap(), 2);
    assert_eq!(m.send_message(&client(), 4, "x".to_string(), NOW).unwrap_err(), OpenfourrError::NotFound);
}

#[test]
fn task_ids_follow_the_platform_counter() {
    let mut m = market_with_task(1000, 24);
    let (funding, event) = m
        .create_task(&client(), "second".to_string(), "d".to_string(), "r".to_string(), "c".to_string(), 5, 720, NOW)
        .unwrap();
    assert_eq!(event.task_id, 1);
    assert_eq!(event.deadline, NOW + 720 * 3600);
    assert_eq!(event.title, "second");
    assert_eq!(funding.amount, 5);
    assert!(matches!(funding.from, Endpoint::Wallet(w) if w.same_as(&client())));
    assert!(matches!(funding.to, Endpoint::Escrow(1)));
    assert_eq!(m.platform.total_tasks, 2);
    assert_eq!(m.tasks[1].id, 1);
    assert_eq!(m.tasks[1].created_at, NOW);
    assert_eq!(m.escrows[1].balance, 5);
}

#[test]
fn create_task_errors() {
    let mut m = Marketplace::new(&authority(), 100);
    let mk = |m: &mut Marketplace, title: String, desc: String, bounty: u64, hours: u64, now: i64| {
        m.create_task(&client(), title, desc, String::new(), String::new(), bounty, hours, now)
    };
    assert_eq!(mk(&mut m, "t".repeat(101), "d".into(), 1, 1, NOW).unwrap_err(), OpenfourrError::TitleTooLong);
    assert_eq!(
        mk(&mut m, "t".into(), "d".repeat(2001), 1, 1, NOW).unwrap_err(),
        OpenfourrError::DescriptionTooLong
    );
    assert_eq!(mk(&mut m, "t".into(), "d".into(), 0, 1, NOW).unwrap_err(), OpenfourrError::InvalidBounty);
    assert_eq!(mk(&mut m, "t".into(), "d".into(), 1, 0, NOW).unwrap_err(), OpenfourrError::InvalidDeadline);
    assert_eq!(mk(&mut m, "t".into(), "d".into(), 1, 721, NOW).unwrap_err(), OpenfourrError::InvalidDeadline);
    assert_eq!(mk(&mut m, "t".into(), "d".into(), 1, 1, i64::MAX - 10).unwrap_err(), OpenfourrError::Overflow);
    assert_eq!(m.platform.total_tasks, 0);
    assert!(mk(&mut m, "t".repeat(100), "d".repeat(2000), 1, 1, NOW).is_ok());
    assert_eq!(m.platform.total_tasks, 1);
}

#[test]
fn duplicate_registration_is_refused() {
    let mut m = Marketplace::new(&authority(), 0);
    assert_eq!(
        m.register_agent(&agent_a(), "a".to_string(), "b".to_string(), vec![], 1, NOW).unwrap(),
        0
    );
    let r = m.register_agent(&agent_a(), "a2".to_string(), "b".to_string(), vec![], 1, NOW);
    assert_eq!(r.unwrap_err(), OpenfourrError::AlreadyExists);
    assert_eq!(m.agents.len(), 1);
    assert_eq!(m.find_agent(&agent_a()), Some(0));
    assert_eq!(m.find_agent(&agent_b()), None);
}
