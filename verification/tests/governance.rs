use governance_ledger::governance::{GovernanceError, GovernancePallet, ProposalStatus};
use governance_ledger::runtime::Runtime;

#[test]
fn test_governance_should_work() {
    let alice = 1u64;
    let bob = 2u64;
    let charlie = 3u64;

    let mut governance = GovernancePallet::<Runtime>::new();

    // Create a proposal
    let proposal_id = governance
        .create_proposal(alice, "Increase validator rewards".to_string())
        .unwrap();

    // Cast votes
    governance.vote(alice, proposal_id, true).unwrap(); // Yes vote
    governance.vote(bob, proposal_id, true).unwrap(); // Yes vote
    governance.vote(charlie, proposal_id, false).unwrap(); // No vote

    // Check proposal status before finalization
    let proposal = governance.get_proposal(proposal_id).unwrap();
    assert_eq!(proposal.yes_votes, 2);
    assert_eq!(proposal.no_votes, 1);

    // Finalize proposal
    let status = governance.finalize_proposal(proposal_id).unwrap();
    assert!(matches!(status, ProposalStatus::Approved));

    // Check proposal is now approved
    let finalized_proposal = governance.get_proposal(proposal_id).unwrap();
    assert!(matches!(finalized_proposal.status, ProposalStatus::Approved));
}

#[test]
fn counters_equal_vote_record_count() {
    let mut governance = GovernancePallet::<Runtime>::new();
    let first = governance.create_proposal(1, "first".to_string()).unwrap();
    let second = governance.create_proposal(1, "second".to_string()).unwrap();

    governance.vote(1, first, true).unwrap();
    governance.vote(2, first, false).unwrap();
    governance.vote(3, first, false).unwrap();
    governance.vote(1, second, true).unwrap();

    for id in [first, second] {
        let proposal = governance.get_proposal(id).unwrap();
        let recorded = governance
            .votes
            .iter()
            .filter(|record| record.proposal_id == id)
            .count();
        assert_eq!((proposal.yes_votes + proposal.no_votes) as usize, recorded);
    }
}

#[test]
fn duplicate_vote_always_rejected() {
    let mut governance = GovernancePallet::<Runtime>::new();
    let id = governance.create_proposal(1, "one vote each".to_string()).unwrap();
    governance.vote(7, id, true).unwrap();

    // Same voter again, with either vote value: rejected, counters unchanged.
    assert_eq!(governance.vote(7, id, true), Err(GovernanceError::DuplicateVote));
    assert_eq!(governance.vote(7, id, false), Err(GovernanceError::DuplicateVote));
    let proposal = governance.get_proposal(id).unwrap();
    assert_eq!(proposal.yes_votes, 1);
    assert_eq!(proposal.no_votes, 0);
    assert_eq!(governance.votes.len(), 1);
}

#[test]
fn vote_on_missing_proposal_rejected() {
    let mut governance = GovernancePallet::<Runtime>::new();
    assert_eq!(governance.vote(1, 0, true), Err(GovernanceError::ProposalNotFound));
    assert_eq!(governance.votes.len(), 0);

    let id = governance.create_proposal(1, "only this one".to_string()).unwrap();
    assert_eq!(governance.vote(1, id + 1, true), Err(GovernanceError::ProposalNotFound));
    assert_eq!(governance.votes.len(), 0);
}

#[test]
fn finalize_at_most_once() {
    let mut governance = GovernancePallet::<Runtime>::new();
    let id = governance.create_proposal(1, "finalize once".to_string()).unwrap();
    governance.vote(2, id, true).unwrap();

    assert_eq!(governance.finalize_proposal(id), Ok(ProposalStatus::Approved));
    assert_eq!(governance.finalize_proposal(id), Err(GovernanceError::AlreadyFinalized));

    let proposal = governance.get_proposal(id).unwrap();
    assert!(matches!(proposal.status, ProposalStatus::Approved));
    assert_eq!(proposal.yes_votes, 1);
    assert_eq!(proposal.no_votes, 0);
}

#[test]
fn finalize_on_missing_proposal_rejected() {
    let mut governance = GovernancePallet::<Runtime>::new();
    assert_eq!(governance.finalize_proposal(3), Err(GovernanceError::ProposalNotFound));
}

#[test]
fn decision_rule_majority_yes_approves() {
    let mut governance = GovernancePallet::<Runtime>::new();
    let id = governance.create_proposal(1, "two to one".to_string()).unwrap();
    governance.vote(1, id, true).unwrap();
    governance.vote(2, id, true).unwrap();
    governance.vote(3, id, false).unwrap();
    assert_eq!(governance.finalize_proposal(id), Ok(ProposalStatus::Approved));
}

#[test]
fn decision_rule_tie_rejects() {
    let mut governance = GovernancePallet::<Runtime>::new();
    let id = governance.create_proposal(1, "one all".to_string()).unwrap();
    governance.vote(1, id, true).unwrap();
    governance.vote(2, id, false).unwrap();
    assert_eq!(governance.finalize_proposal(id), Ok(ProposalStatus::Rejected));
}

#[test]
fn decision_rule_no_votes_rejects() {
    let mut governance = GovernancePallet::<Runtime>::new();
    let id = governance.create_proposal(1, "nobody voted".to_string()).unwrap();
    assert_eq!(governance.finalize_proposal(id), Ok(ProposalStatus::Rejected));
}

#[test]
fn proposal_ids_strictly_increase() {
    let mut governance = GovernancePallet::<Runtime>::new();
    let a = governance.create_proposal(1, "a".to_string()).unwrap();
    let b = governance.create_proposal(2, "b".to_string()).unwrap();
    let c = governance.create_proposal(1, "c".to_string()).unwrap();
    assert_eq!(a, 0);
    assert_eq!(b, 1);
    assert_eq!(c, 2);
    assert!(a < b && b < c);
}

#[test]
fn full_proposal_lifecycle() {
    let mut governance = GovernancePallet::<Runtime>::new();
    let id = governance.create_proposal(10, "lifecycle".to_string()).unwrap();

    governance.vote(10, id, true).unwrap();
    governance.vote(11, id, true).unwrap();
    governance.vote(12, id, false).unwrap();

    let proposal = governance.get_proposal(id).unwrap();
    assert_eq!(proposal.yes_votes, 2);
    assert_eq!(proposal.no_votes, 1);
    assert!(matches!(proposal.status, ProposalStatus::Active));

    assert_eq!(governance.finalize_proposal(id), Ok(ProposalStatus::Approved));
    assert_eq!(governance.vote(13, id, true), Err(GovernanceError::ProposalNotActive));
    assert_eq!(governance.finalize_proposal(id), Err(GovernanceError::AlreadyFinalized));
}

#[test]
fn proposal_details_are_copies() {
    let mut governance = GovernancePallet::<Runtime>::new();
    let id = governance.create_proposal(42, "read me".to_string()).unwrap();

    let (description, creator) = governance.get_proposal_details(id).unwrap();
    assert_eq!(description, "read me".to_string());
    assert_eq!(creator, 42);

    assert_eq!(
        governance.get_proposal_details(id + 1),
        Err(GovernanceError::ProposalNotFound)
    );
}

#[test]
fn get_proposal_absent_is_none() {
    let governance = GovernancePallet::<Runtime>::new();
    assert!(governance.get_proposal(0).is_none());
}
