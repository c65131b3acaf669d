use dao::{
    quorum_reached, quorum_threshold, AccountId, Governor, GovernorError, Proposal, Transfer,
    VoteType,
};

fn account(b: u8) -> AccountId {
    AccountId { bytes: [b; 32] }
}

fn create_contract() -> Governor {
    Governor::new(account(0x01), 50)
}

/// Runs a whole execution: the check, the ledger's answer, the commit.
fn execute_with_ledger(
    g: &mut Governor,
    proposal_id: u64,
    ledger_ok: bool,
) -> Result<Transfer, GovernorError> {
    let t = g.execution_transfer(proposal_id)?;
    g.execute(proposal_id, ledger_ok)?;
    Ok(t)
}

#[test]
fn propose_works() {
    let django = account(0x04);
    let mut governor = create_contract();
    assert_eq!(
        governor.propose(django, 0, 1),
        Err(GovernorError::AmountShouldNotBeZero)
    );
    assert_eq!(
        governor.propose(django, 100, 0),
        Err(GovernorError::DurationError)
    );
    let result = governor.propose(django, 100, 1);
    assert_eq!(result, Ok(0));
    let proposal = governor.get_proposal(0).unwrap();
    let now = governor.now();
    assert_eq!(
        proposal,
        Proposal {
            id: 0,
            to: django,
            amount: 100,
            vote_start: 0,
            vote_end: now + 1,
            for_votes: 0,
            against_votes: 0,
            executed: false,
        }
    );
    assert_eq!(governor.next_proposal_id(), 1);
}

#[test]
fn quorum_not_reached() {
    let mut governor = create_contract();
    let result = governor.propose(account(0x02), 100, 1);
    assert_eq!(result, Ok(0));
    assert_eq!(governor.vote(0, VoteType::Yes(10), account(0x0a)), Ok(()));
    assert_eq!(governor.vote(0, VoteType::No(40), account(0x0b)), Ok(()));
    governor.advance_clock(1);
    let execute = execute_with_ledger(&mut governor, 0, true);
    assert_eq!(execute, Err(GovernorError::QuorumNotReached));
    assert!(!governor.get_proposal(0).unwrap().executed);
}

#[test]
fn zero_amount_refused_for_any_duration() {
    let mut g = create_contract();
    for d in [0u64, 1, 60, u64::MAX] {
        assert_eq!(g.propose(account(2), 0, d), Err(GovernorError::AmountShouldNotBeZero));
    }
    assert_eq!(g.propose(account(2), u128::MAX, 0), Err(GovernorError::DurationError));
    assert_eq!(g.next_proposal_id(), 0);
    assert_eq!(g.get_proposal(0), None);
}

#[test]
fn ids_are_sequential_and_failures_do_not_consume() {
    let mut g = create_contract();
    assert_eq!(g.propose(account(2), 5, 10), Ok(0));
    assert_eq!(g.propose(account(2), 0, 10), Err(GovernorError::AmountShouldNotBeZero));
    assert_eq!(g.next_proposal_id(), 1);
    assert_eq!(g.propose(account(3), 7, 10), Ok(1));
    assert_eq!(g.propose(account(3), 7, 0), Err(GovernorError::DurationError));
    assert_eq!(g.propose(account(4), 9, 10), Ok(2));
    assert_eq!(g.next_proposal_id(), 3);
    assert_eq!(g.get_proposal(1).unwrap().id, 1);
    assert_eq!(g.get_proposal(2).unwrap().to, account(4));
}

#[test]
fn second_vote_by_same_caller_refused() {
    let mut g = create_contract();
    g.propose(account(2), 100, 60).unwrap();
    let voter = account(9);
    assert!(!g.has_voted(0, &voter));
    assert_eq!(g.vote(0, VoteType::Yes(30), voter), Ok(()));
    assert!(g.has_voted(0, &voter));
    assert_eq!(g.vote(0, VoteType::No(50), voter), Err(GovernorError::AlreadyVoted));
    assert_eq!(g.vote(0, VoteType::Yes(50), voter), Err(GovernorError::AlreadyVoted));
    let p = g.get_proposal(0).unwrap();
    assert_eq!((p.for_votes, p.against_votes), (30, 0));
    // Another voter, or the same voter on another proposal, is accepted.
    assert_eq!(g.vote(0, VoteType::No(5), account(8)), Ok(()));
    g.propose(account(2), 100, 60).unwrap();
    assert_eq!(g.vote(1, VoteType::No(7), voter), Ok(()));
    let p0 = g.get_proposal(0).unwrap();
    let p1 = g.get_proposal(1).unwrap();
    assert_eq!((p0.for_votes, p0.against_votes), (30, 5));
    assert_eq!((p1.for_votes, p1.against_votes), (0, 7));
}

#[test]
fn vote_after_period_refused() {
    let mut g = create_contract();
    g.propose(account(2), 100, 60).unwrap();
    assert_eq!(g.vote(0, VoteType::Yes(1), account(7)), Ok(()));
    g.advance_clock(59);
    assert_eq!(g.vote(0, VoteType::No(2), account(8)), Ok(()));
    g.advance_clock(60);
    assert_eq!(g.vote(0, VoteType::Yes(100), account(9)), Err(GovernorError::VotePeriodEnded));
    let p = g.get_proposal(0).unwrap();
    assert_eq!((p.for_votes, p.against_votes), (1, 2));
    assert!(!g.has_voted(0, &account(9)));
}

#[test]
fn vote_on_missing_proposal_refused() {
    let mut g = create_contract();
    assert_eq!(g.vote(0, VoteType::Yes(1), account(7)), Err(GovernorError::ProposalNotFound));
    g.propose(account(2), 100, 60).unwrap();
    assert_eq!(g.vote(1, VoteType::Yes(1), account(7)), Err(GovernorError::ProposalNotFound));
    assert_eq!(g.vote(u64::MAX, VoteType::Yes(1), account(7)), Err(GovernorError::ProposalNotFound));
}

#[test]
fn execute_before_end_refused() {
    let mut g = create_contract();
    g.propose(account(2), 100, 60).unwrap();
    g.vote(0, VoteType::Yes(10), account(7)).unwrap();
    assert_eq!(g.execution_transfer(0), Err(GovernorError::VotePeriodNotEnded));
    assert_eq!(g.execute(0, true), Err(GovernorError::VotePeriodNotEnded));
    g.advance_clock(59);
    assert_eq!(g.execute(0, true), Err(GovernorError::VotePeriodNotEnded));
    assert!(!g.get_proposal(0).unwrap().executed);
}

#[test]
fn execute_twice_refused() {
    let mut g = create_contract();
    g.propose(account(2), 100, 10).unwrap();
    g.advance_clock(10);
    assert_eq!(
        execute_with_ledger(&mut g, 0, true),
        Ok(Transfer { to: account(2), amount: 100 })
    );
    assert_eq!(g.execute(0, true), Err(GovernorError::ProposalAlreadyExecuted));
    assert_eq!(g.execution_transfer(0), Err(GovernorError::ProposalAlreadyExecuted));
}

#[test]
fn execute_missing_proposal_refused() {
    let mut g = create_contract();
    assert_eq!(g.execution_transfer(0), Err(GovernorError::ProposalNotFound));
    assert_eq!(g.execute(3, true), Err(GovernorError::ProposalNotFound));
}

#[test]
fn failed_transfer_leaves_proposal_open() {
    let mut g = create_contract();
    g.propose(account(2), 100, 10).unwrap();
    g.vote(0, VoteType::Yes(3), account(5)).unwrap();
    g.advance_clock(20);
    assert_eq!(execute_with_ledger(&mut g, 0, false), Err(GovernorError::TransferFailed));
    assert!(!g.get_proposal(0).unwrap().executed);
    assert_eq!(execute_with_ledger(&mut g, 0, true), Ok(Transfer { to: account(2), amount: 100 }));
    assert!(g.get_proposal(0).unwrap().executed);
}

#[test]
fn quorum_arithmetic() {
    assert_eq!(quorum_threshold(50, 50), 25);
    assert!(quorum_reached(40, 10, 50));
    assert!(!quorum_reached(10, 40, 50));
    assert_eq!(quorum_threshold(60, 50), 30);
    assert_eq!(quorum_threshold(99, 50), 49);
    assert_eq!(quorum_threshold(7, 0), 0);
    assert_eq!(quorum_threshold(7, 100), 7);
    assert_eq!(quorum_threshold(u128::MAX, 100), u128::MAX);
    assert_eq!(quorum_threshold(u128::MAX, 50), u128::MAX / 2);
    assert!(quorum_reached(0, 0, 100));
    assert!(!quorum_reached(99, 1, 100));
}

#[test]
fn quorum_passes_in_governor() {
    let mut g = create_contract();
    g.propose(account(2), 100, 5).unwrap();
    g.vote(0, VoteType::Yes(40), account(7)).unwrap();
    g.vote(0, VoteType::No(10), account(8)).unwrap();
    g.advance_clock(5);
    assert_eq!(execute_with_ledger(&mut g, 0, true), Ok(Transfer { to: account(2), amount: 100 }));
}

#[test]
fn end_to_end() {
    let beneficiary = account(0x0d);
    let mut g = create_contract();
    let t = 1000;
    g.advance_clock(t);
    assert_eq!(g.now(), t);
    assert_eq!(g.propose(beneficiary, 100, 60), Ok(0));
    let p = g.get_proposal(0).unwrap();
    assert_eq!((p.vote_start, p.vote_end), (t, t + 60));
    assert_eq!(g.vote(0, VoteType::Yes(60), account(0x0a)), Ok(()));
    g.advance_clock(t + 60);
    assert_eq!(
        execute_with_ledger(&mut g, 0, true),
        Ok(Transfer { to: beneficiary, amount: 100 })
    );
    assert!(g.get_proposal(0).unwrap().executed);
    assert_eq!(g.execute(0, true), Err(GovernorError::ProposalAlreadyExecuted));
}

#[test]
fn clock_never_goes_back() {
    let mut g = create_contract();
    g.advance_clock(50);
    g.advance_clock(20);
    assert_eq!(g.now(), 50);
    assert_eq!(g.quorum_percent(), 50);
    assert_eq!(g.governance_token(), account(0x01));
}

#[test]
fn account_comparison_and_weight() {
    let mut b = [3u8; 32];
    assert!(account(3).same_as(&AccountId { bytes: b }));
    b[31] = 4;
    assert!(!account(3).same_as(&AccountId { bytes: b }));
    assert_eq!(VoteType::Yes(7).weight(), 7);
    assert_eq!(VoteType::No(8).weight(), 8);
}
