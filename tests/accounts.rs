use openfourr::error::OpenfourrError;
use openfourr::fees::split_bounty;
use openfourr::identity::Identity;
use openfourr::lifecycle::{create_task, select_winner};
use openfourr::negotiation::send_message;
use openfourr::registry::{initialize, register_agent, update_agent};
use openfourr::state::{text_len, SubmissionStatus, TaskStatus};

fn id(b: u8) -> Identity {
    Identity::new([b; 32])
}

#[test]
fn fee_split_examples() {
    assert_eq!(split_bounty(1_000_000, 250), (25_000, 975_000));
    assert_eq!(split_bounty(999, 250), (24, 975));
    assert_eq!(split_bounty(7, 0), (0, 7));
    assert_eq!(split_bounty(7, 10000), (7, 0));
    assert_eq!(split_bounty(u64::MAX, 10000), (u64::MAX, 0));
    let (fee, payout) = split_bounty(u64::MAX, 9999);
    assert_eq!(fee as u128 + payout as u128, u64::MAX as u128);
    assert_eq!(fee as u128, (u64::MAX as u128) * 9999 / 10000);
}

#[test]
fn initialize_starts_counters_at_zero() {
    let p = initialize(&id(4), 300);
    assert!(p.authority.same_as(&id(4)));
    assert_eq!(p.fee_bps, 300);
    assert_eq!(p.total_tasks, 0);
    assert_eq!(p.total_completed, 0);
    assert_eq!(p.total_volume, 0);
}

#[test]
fn identity_comparison() {
    let mut bytes = [5u8; 32];
    assert!(Identity::new(bytes).same_as(&Identity::new(bytes)));
    bytes[31] = 6;
    assert!(!Identity::new(bytes).same_as(&id(5)));
    assert!(!id(5).same_as(&id(6)));
}

#[test]
fn text_length_counts_utf8_bytes() {
    assert_eq!(text_len(&"abc".to_string()), 3);
    assert_eq!(text_len(&"é".to_string()), 2);
    assert_eq!(text_len(&String::new()), 0);
}

#[test]
fn register_agent_bounds() {
    let owner = id(2);
    let ok = register_agent(&owner, "n".repeat(32), "b".repeat(500), vec!["s".to_string(); 10], 50, 77).unwrap();
    assert!(ok.is_active);
    assert_eq!(ok.registered_at, 77);
    assert_eq!(ok.hourly_rate, 50);
    assert_eq!(ok.tasks_completed + ok.tasks_failed + ok.total_earned + ok.rating_sum + ok.rating_count, 0);
    assert_eq!(
        register_agent(&owner, "n".repeat(33), String::new(), vec![], 0, 0).unwrap_err(),
        OpenfourrError::NameTooLong
    );
    // Sixteen two-byte characters fit; seventeen do not.
    assert!(register_agent(&owner, "é".repeat(16), String::new(), vec![], 0, 0).is_ok());
    assert_eq!(
        register_agent(&owner, "é".repeat(17), String::new(), vec![], 0, 0).unwrap_err(),
        OpenfourrError::NameTooLong
    );
    assert_eq!(
        register_agent(&owner, String::new(), "b".repeat(501), vec![], 0, 0).unwrap_err(),
        OpenfourrError::BioTooLong
    );
    assert_eq!(
        register_agent(&owner, String::new(), String::new(), vec!["s".to_string(); 11], 0, 0).unwrap_err(),
        OpenfourrError::TooManySkills
    );
}

#[test]
fn update_agent_replaces_only_given_fields() {
    let owner = id(2);
    let mut a = register_agent(&owner, "old".to_string(), "bio".to_string(), vec![], 5, 0).unwrap();
    update_agent(&owner, &mut a, Some("new".to_string()), None, None, Some(9), Some(false)).unwrap();
    assert_eq!(a.name, "new");
    assert_eq!(a.bio, "bio");
    assert_eq!(a.hourly_rate, 9);
    assert!(!a.is_active);
    assert_eq!(
        update_agent(&id(3), &mut a, None, None, None, Some(1), None).unwrap_err(),
        OpenfourrError::Unauthorized
    );
    assert_eq!(
        update_agent(&owner, &mut a, None, Some("b".repeat(501)), None, Some(1), None).unwrap_err(),
        OpenfourrError::BioTooLong
    );
    assert_eq!(a.hourly_rate, 9);
    assert_eq!(
        update_agent(&owner, &mut a, None, None, Some(vec![String::new(); 11]), None, None).unwrap_err(),
        OpenfourrError::TooManySkills
    );
    assert_eq!(
        update_agent(&owner, &mut a, Some("n".repeat(33)), None, None, None, None).unwrap_err(),
        OpenfourrError::NameTooLong
    );
}

#[test]
fn submission_not_pending_is_refused() {
    let client = id(1);
    let owner = id(2);
    let mut platform = initialize(&id(9), 100);
    let (mut task, mut escrow, _, _) =
        create_task(&mut platform, &client, "t".into(), "d".into(), "r".into(), "c".into(), 100, 2, 0).unwrap();
    let mut agent = register_agent(&owner, "a".into(), "b".into(), vec![], 0, 0).unwrap();
    let (mut sub, _) =
        openfourr::lifecycle::submit_application(&owner, &mut task, &agent, "u".into(), "n".into(), 1).unwrap();
    sub.status = SubmissionStatus::NotSelected;
    let r = select_winner(&client, &mut task, &mut sub, &mut agent, &mut escrow, &mut platform, 5, 2);
    assert_eq!(r.unwrap_err(), OpenfourrError::SubmissionNotPending);
    assert_eq!(task.status, TaskStatus::Open);
    assert_eq!(escrow.balance, 100);
    let other = register_agent(&id(3), "o".into(), "b".into(), vec![], 0, 0).unwrap();
    let mut other = other;
    sub.status = SubmissionStatus::Pending;
    let r = select_winner(&client, &mut task, &mut sub, &mut other, &mut escrow, &mut platform, 5, 2);
    assert_eq!(r.unwrap_err(), OpenfourrError::AccountMismatch);
}

#[test]
fn agent_counter_overflow_is_refused() {
    let client = id(1);
    let owner = id(2);
    let mut platform = initialize(&id(9), 0);
    let (mut task, mut escrow, _, _) =
        create_task(&mut platform, &client, "t".into(), "d".into(), "r".into(), "c".into(), 100, 2, 0).unwrap();
    let mut agent = register_agent(&owner, "a".into(), "b".into(), vec![], 0, 0).unwrap();
    let (mut sub, _) =
        openfourr::lifecycle::submit_application(&owner, &mut task, &agent, "u".into(), "n".into(), 1).unwrap();
    agent.total_earned = u64::MAX - 50;
    let r = select_winner(&client, &mut task, &mut sub, &mut agent, &mut escrow, &mut platform, 5, 2);
    assert_eq!(r.unwrap_err(), OpenfourrError::Overflow);
    assert_eq!(escrow.balance, 100);
}

#[test]
fn message_from_foreign_submission_is_refused() {
    let client = id(1);
    let owner = id(2);
    let mut platform = initialize(&id(9), 0);
    let (mut t0, _, _, _) =
        create_task(&mut platform, &client, "a".into(), "d".into(), "r".into(), "c".into(), 1, 2, 0).unwrap();
    let (mut t1, _, _, _) =
        create_task(&mut platform, &client, "b".into(), "d".into(), "r".into(), "c".into(), 1, 2, 0).unwrap();
    let agent = register_agent(&owner, "a".into(), "b".into(), vec![], 0, 0).unwrap();
    let (sub0, _) =
        openfourr::lifecycle::submit_application(&owner, &mut t0, &agent, "u".into(), "n".into(), 1).unwrap();
    let r = send_message(&owner, &mut t1, Some(&sub0), "hi".into(), 3);
    assert_eq!(r.unwrap_err(), OpenfourrError::NotTaskParticipant);
    let msg = send_message(&owner, &mut t0, Some(&sub0), "hi".into(), 3).unwrap();
    assert_eq!(msg.task_id, 0);
    assert_eq!(msg.sent_at, 3);
}

#[test]
fn error_messages() {
    assert_eq!(OpenfourrError::TaskExpired.message(), "Task expired");
    assert_eq!(OpenfourrError::HasSubmissions.message(), "Has submissions");
}
