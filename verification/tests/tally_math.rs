use agora_governor::errors::GovernorError;
use agora_governor::model::ProposalType;
use agora_governor::tally::evaluate_tally;

fn policy(quorum: u16, approval_threshold: u16) -> ProposalType {
    ProposalType { quorum, approval_threshold, name: String::from("policy"), module: None }
}

#[test]
fn quorum_boundary_is_inclusive() {
    // Supply 1000 at 20% needs 200 cast votes: 199 misses, 200 meets.
    let p = policy(2000, 0);
    assert_eq!(evaluate_tally(1000, &p, 99, 100).err(), Some(GovernorError::QuorumNotReached));
    assert_eq!(evaluate_tally(1000, &p, 100, 100), Ok(()));
}

#[test]
fn quorum_need_rounds_down() {
    // Supply 999 at 20% needs floor(999 * 2000 / 10000) = 199 cast votes.
    let p = policy(2000, 0);
    assert_eq!(evaluate_tally(999, &p, 199, 0), Ok(()));
    assert_eq!(evaluate_tally(999, &p, 198, 0).err(), Some(GovernorError::QuorumNotReached));
}

#[test]
fn approval_boundary_is_inclusive() {
    // 150 of 250 votes in favor is exactly 6000 parts per 10000.
    assert_eq!(evaluate_tally(1000, &policy(2000, 6000), 150, 100), Ok(()));
    assert_eq!(
        evaluate_tally(1000, &policy(2000, 6001), 150, 100).err(),
        Some(GovernorError::ApprovalThresholdNotMet)
    );
}

#[test]
fn approval_share_rounds_down() {
    // 1 of 3 votes in favor is floor(10000 / 3) = 3333 parts per 10000.
    assert_eq!(evaluate_tally(0, &policy(0, 3333), 1, 2), Ok(()));
    assert_eq!(
        evaluate_tally(0, &policy(0, 3334), 1, 2).err(),
        Some(GovernorError::ApprovalThresholdNotMet)
    );
}

#[test]
fn zero_votes_miss_every_quorum() {
    assert_eq!(evaluate_tally(1000, &policy(1, 0), 0, 0).err(), Some(GovernorError::QuorumNotReached));
    assert_eq!(evaluate_tally(1000, &policy(0, 0), 0, 0).err(), Some(GovernorError::QuorumNotReached));
    assert_eq!(evaluate_tally(0, &policy(10000, 0), 0, 0).err(), Some(GovernorError::QuorumNotReached));
}

#[test]
fn raising_for_votes_never_unmeets_quorum() {
    // With the approval threshold at zero, passing is exactly reaching
    // quorum; once more votes in favor reach it, still more never lose it.
    let p = policy(2000, 0);
    let mut reached = false;
    for for_votes in 0..300 {
        let ok = evaluate_tally(1000, &p, for_votes, 100).is_ok();
        if reached {
            assert!(ok);
        }
        if ok {
            reached = true;
        }
    }
    assert!(reached);
}

#[test]
fn quorum_is_checked_before_approval() {
    // Both checks would fail; the quorum failure wins.
    assert_eq!(
        evaluate_tally(1000, &policy(2000, 10000), 10, 10).err(),
        Some(GovernorError::QuorumNotReached)
    );
}

#[test]
fn unanimous_support_reaches_full_approval() {
    assert_eq!(evaluate_tally(1000, &policy(2000, 10000), 200, 0), Ok(()));
}

#[test]
fn largest_tallies_do_not_overflow() {
    let p = policy(10000, 10000);
    assert_eq!(evaluate_tally(u64::MAX, &p, u64::MAX, 0), Ok(()));
    assert_eq!(
        evaluate_tally(u64::MAX, &p, u64::MAX - 1, 1).err(),
        Some(GovernorError::ApprovalThresholdNotMet)
    );
}
