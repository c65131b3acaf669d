use vstd::arithmetic::div_mod::lemma_fundamental_div_mod_converse;
use vstd::prelude::*;

verus! {

/// Sequential identifier of a proposal.
pub type ProposalId = u64;

/// Logical time, as given by the host's clock.
pub type Timestamp = u64;

/// A quantity of the governance token.
pub type Balance = u128;

/// The largest weight a single vote can carry.
pub open spec fn max_weight() -> int {
    u64::MAX as int
}

/// Identity of an account: its 32 raw bytes.
#[derive(Clone, Copy, Debug, PartialEq, Eq)]
pub struct AccountId {
    pub bytes: [u8; 32],
}

impl View for AccountId {
    type V = Seq<u8>;

    open spec fn view(&self) -> Seq<u8> {
        self.bytes@
    }
}

impl AccountId {
    /// Compares two identities byte by byte.
    pub fn same_as(&self, other: &AccountId) -> (r: bool)
        ensures
            r == (self@ == other@),
    {
        let mut i: usize = 0;
        while i < 32
            invariant
                0 <= i <= 32,
                self.bytes@.len() == 32,
                other.bytes@.len() == 32,
                forall|k: int| 0 <= k < i ==> self.bytes@[k] == other.bytes@[k],
            decreases 32 - i,
        {
            if self.bytes[i] != other.bytes[i] {
                assert(self@[i as int] != other@[i as int]);
                return false;
            }
            i = i + 1;
        }
        assert(self@ =~= other@);
        true
    }
}

/// A ballot: in favour of or against a proposal, with the weight cast.
#[derive(Clone, Copy, Debug, PartialEq, Eq, Structural)]
pub enum VoteType {
    Yes(u64),
    No(u64),
}

impl VoteType {
    pub open spec fn spec_weight(self) -> u64 {
        match self {
            VoteType::Yes(w) => w,
            VoteType::No(w) => w,
        }
    }

    /// The weight carried by the ballot, whichever side it takes.
    pub fn weight(&self) -> (r: u64)
        ensures
            r == self.spec_weight(),
    {
        match self {
            VoteType::Yes(w) => *w,
            VoteType::No(w) => *w,
        }
    }
}

/// Why a governance call was refused.
#[derive(Clone, Copy, Debug, PartialEq, Eq, Structural)]
pub enum GovernorError {
    AmountShouldNotBeZero,
    DurationError,
    ProposalNotFound,
    ProposalAlreadyExecuted,
    VotePeriodEnded,
    VotePeriodNotEnded,
    AlreadyVoted,
    QuorumNotReached,
    /// The ledger did not carry out the transfer of an executed proposal.
    TransferFailed,
}

/// A spending request: `amount` goes to `to` if the proposal passes.
#[derive(Clone, Copy, Debug, PartialEq, Eq)]
pub struct Proposal {
    pub id: ProposalId,
    pub to: AccountId,
    pub amount: Balance,
    pub vote_start: Timestamp,
    pub vote_end: Timestamp,
    pub for_votes: u128,
    pub against_votes: u128,
    pub executed: bool,
}

impl Proposal {
    /// The proposal after `vote` is added to its tally.
    pub open spec fn tallied(self, vote: VoteType) -> Proposal {
        match vote {
            VoteType::Yes(w) => Proposal { for_votes: (self.for_votes + w) as u128, ..self },
            VoteType::No(w) => Proposal { against_votes: (self.against_votes + w) as u128, ..self },
        }
    }

    /// Total weight cast on the proposal.
    pub open spec fn total_votes(self) -> int {
        self.for_votes + self.against_votes
    }
}

/// One voter's ballot on one proposal, as kept in the vote ledger.
#[derive(Clone, Copy, Debug, PartialEq, Eq)]
pub struct ProposalVote {
    pub proposal_id: ProposalId,
    pub voter: AccountId,
    pub weight: u64,
}

/// The fund transfer that executing a proposal asks of the ledger.
#[derive(Clone, Copy, Debug, PartialEq, Eq)]
pub struct Transfer {
    pub to: AccountId,
    pub amount: Balance,
}

/// `percent` percent of `total`, rounded down.
pub open spec fn threshold_of(total: int, percent: int) -> int {
    total * percent / 100
}

/// `quorum_percent` percent of `total`, rounded down: the "for" weight that
/// a proposal with `total` cast weight needs to pass.
pub fn quorum_threshold(total: u128, quorum_percent: u8) -> (r: u128)
    requires
        quorum_percent <= 100,
    ensures
        r == threshold_of(total as int, quorum_percent as int),
{
    let q = quorum_percent as u128;
    let whole = total / 100;
    let rest = total % 100;
    assert(whole * q <= whole * 100) by (nonlinear_arith)
        requires q <= 100, whole >= 0;
    assert(rest * q <= 100 * 100) by (nonlinear_arith)
        requires q <= 100, 0 <= rest < 100;
    let part = rest * q / 100;
    assert(part <= rest) by (nonlinear_arith)
        requires part == rest * q / 100, q <= 100, rest >= 0;
    proof {
        let t = total as int;
        let qi = q as int;
        assert(t * qi == (whole * qi + part) * 100 + (rest * qi) % 100) by (nonlinear_arith)
            requires
                t == whole * 100 + rest,
                part == (rest * qi) / 100,
                rest * qi == ((rest * qi) / 100) * 100 + (rest * qi) % 100,
        ;
        lemma_fundamental_div_mod_converse(t * qi, 100, whole * qi + part, (rest * qi) % 100);
    }
    whole * q + part
}

/// Whether `for_votes` clears the quorum of the cast weight.
pub fn quorum_reached(for_votes: u128, against_votes: u128, quorum_percent: u8) -> (r: bool)
    requires
        for_votes + against_votes <= u128::MAX,
        quorum_percent <= 100,
    ensures
        r == (for_votes >= threshold_of(for_votes + against_votes, quorum_percent as int)),
{
    for_votes >= quorum_threshold(for_votes + against_votes, quorum_percent)
}

/// The abstract state of a governor.
pub struct GovernorView {
    pub governance_token: AccountId,
    pub quorum_percent: u8,
    pub now: Timestamp,
    pub proposals: Seq<Proposal>,
    pub votes: Seq<ProposalVote>,
}

impl GovernorView {
    /// Proposal `i` is well formed at its position.
    pub open spec fn proposal_wf(self, i: int) -> bool {
        let p = self.proposals[i];
        &&& p.id == i
        &&& p.amount > 0
        &&& p.vote_start < p.vote_end
        &&& p.total_votes() <= self.votes.len() * max_weight()
        &&& (p.executed ==> p.vote_end <= self.now)
    }

    /// The invariant that every governor keeps.
    pub open spec fn wf(self) -> bool {
        &&& self.quorum_percent <= 100
        &&& forall|i: int| 0 <= i < self.proposals.len() ==> #[trigger] self.proposal_wf(i)
        &&& forall|k: int|
            0 <= k < self.votes.len() ==> #[trigger] self.votes[k].proposal_id
                < self.proposals.len()
        &&& forall|j: int, k: int|
            0 <= j < k < self.votes.len() ==> !(#[trigger] self.votes[j].proposal_id
                == #[trigger] self.votes[k].proposal_id && self.votes[j].voter@
                == self.votes[k].voter@)
    }

    /// The id the next successful proposal receives.
    pub open spec fn next_proposal_id(self) -> int {
        self.proposals.len() as int
    }

    /// The vote ledger holds a ballot of `voter` on `proposal_id`.
    pub open spec fn has_voted(self, proposal_id: ProposalId, voter: Seq<u8>) -> bool {
        exists|k: int|
            0 <= k < self.votes.len() && #[trigger] self.votes[k].proposal_id == proposal_id
                && self.votes[k].voter@ == voter
    }

    /// What `propose` answers.
    pub open spec fn propose_outcome(self, amount: Balance, duration: u64) -> Result<
        ProposalId,
        GovernorError,
    > {
        if amount == 0 {
            Err(GovernorError::AmountShouldNotBeZero)
        } else if duration == 0 {
            Err(GovernorError::DurationError)
        } else {
            Ok(self.proposals.len() as ProposalId)
        }
    }

    /// The state after a successful `propose`.
    pub open spec fn with_proposal(self, to: AccountId, amount: Balance, duration: u64) -> Self {
        let p = Proposal {
            id: self.proposals.len() as ProposalId,
            to,
            amount,
            vote_start: self.now,
            vote_end: (self.now + duration) as Timestamp,
            for_votes: 0,
            against_votes: 0,
            executed: false,
        };
        GovernorView { proposals: self.proposals.push(p), ..self }
    }

    /// What `vote` answers.
    pub open spec fn vote_outcome(self, proposal_id: ProposalId, voter: Seq<u8>) -> Result<
        (),
        GovernorError,
    > {
        if proposal_id >= self.proposals.len() {
            Err(GovernorError::ProposalNotFound)
        } else if self.now >= self.proposals[proposal_id as int].vote_end {
            Err(GovernorError::VotePeriodEnded)
        } else if self.has_voted(proposal_id, voter) {
            Err(GovernorError::AlreadyVoted)
        } else {
            Ok(())
        }
    }

    /// The state after a successful `vote`.
    pub open spec fn with_vote(self, proposal_id: ProposalId, vote: VoteType, voter: AccountId) -> Self {
        let i = proposal_id as int;
        GovernorView {
            proposals: self.proposals.update(i, self.proposals[i].tallied(vote)),
            votes: self.votes.push(
                ProposalVote { proposal_id, voter, weight: vote.spec_weight() },
            ),
            ..self
        }
    }

    /// What executing a proposal checks, and the transfer it then asks for.
    pub open spec fn execution_check(self, proposal_id: ProposalId) -> Result<
        Transfer,
        GovernorError,
    > {
        if proposal_id >= self.proposals.len() {
            Err(GovernorError::ProposalNotFound)
        } else {
            let p = self.proposals[proposal_id as int];
            if p.executed {
                Err(GovernorError::ProposalAlreadyExecuted)
            } else if self.now < p.vote_end {
                Err(GovernorError::VotePeriodNotEnded)
            } else if p.for_votes < threshold_of(p.total_votes(), self.quorum_percent as int) {
                Err(GovernorError::QuorumNotReached)
            } else {
                Ok(Transfer { to: p.to, amount: p.amount })
            }
        }
    }

    /// What `execute` answers, given whether the ledger carried out the transfer.
    pub open spec fn execute_outcome(self, proposal_id: ProposalId, transferred: bool) -> Result<
        (),
        GovernorError,
    > {
        match self.execution_check(proposal_id) {
            Err(e) => Err(e),
            Ok(_) => if transferred {
                Ok(())
            } else {
                Err(GovernorError::TransferFailed)
            },
        }
    }

    /// The state after a successful `execute`.
    pub open spec fn with_executed(self, proposal_id: ProposalId) -> Self {
        let i = proposal_id as int;
        GovernorView {
            proposals: self.proposals.update(i, Proposal { executed: true, ..self.proposals[i] }),
            ..self
        }
    }
}

/// The governance module: the proposal store, the vote ledger and the
/// configuration, with the logical time last reported by the host.
pub struct Governor {
    governance_token: AccountId,
    quorum_percent: u8,
    now: Timestamp,
    proposals: Vec<Proposal>,
    votes: Vec<ProposalVote>,
}

impl View for Governor {
    type V = GovernorView;

    closed spec fn view(&self) -> GovernorView {
        GovernorView {
            governance_token: self.governance_token,
            quorum_percent: self.quorum_percent,
            now: self.now,
            proposals: self.proposals@,
            votes: self.votes@,
        }
    }
}

impl Governor {
    /// A governor with no proposals and no votes, whose clock stands at 0.
    /// `quorum_percent` lies in `0..=100`.
    pub fn new(governance_token: AccountId, quorum_percent: u8) -> (r: Self)
        requires
            quorum_percent <= 100,
        ensures
            r@.wf(),
            r@.governance_token == governance_token,
            r@.quorum_percent == quorum_percent,
            r@.now == 0,
            r@.proposals.len() == 0,
            r@.votes.len() == 0,
    {
        Governor { governance_token, quorum_percent, now: 0, proposals: Vec::new(), votes: Vec::new() }
    }

    /// Whether `voter` already has a ballot on `proposal_id` in the vote ledger.
    pub fn has_voted(&self, proposal_id: ProposalId, voter: &AccountId) -> (r: bool)
        ensures
            r == self@.has_voted(proposal_id, voter@),
    {
        let mut i: usize = 0;
        while i < self.votes.len()
            invariant
                0 <= i <= self.votes@.len(),
                forall|k: int|
                    0 <= k < i ==> !(#[trigger] self.votes@[k].proposal_id == proposal_id
                        && self.votes@[k].voter@ == voter@),
            decreases self.votes@.len() - i,
        {
            let record = &self.votes[i];
            if record.proposal_id == proposal_id && record.voter.same_as(voter) {
                assert(self@.votes[i as int].proposal_id == proposal_id);
                return true;
            }
            i = i + 1;
        }
        false
    }

    /// Casts `caller`'s ballot on `proposal_id`. The proposal must exist, its
    /// voting period must still be open and `caller` must not have voted on
    /// it yet; then the ballot is recorded and its weight added to the tally.
    /// A refused ballot changes nothing.
    pub fn vote(&mut self, proposal_id: ProposalId, vote: VoteType, caller: AccountId) -> (r: Result<
        (),
        GovernorError,
    >)
        requires
            old(self)@.wf(),
        ensures
            final(self)@.wf(),
            r == old(self)@.vote_outcome(proposal_id, caller@),
            r is Ok ==> final(self)@ == old(self)@.with_vote(proposal_id, vote, caller),
            r is Err ==> final(self)@ == old(self)@,
            proposal_id < old(self)@.proposals.len() && old(self)@.now
                >= old(self)@.proposals[proposal_id as int].vote_end ==> r == Err::<
                (),
                GovernorError,
            >(GovernorError::VotePeriodEnded),
    {
        if proposal_id >= self.proposals.len() as u64 {
            return Err(GovernorError::ProposalNotFound);
        }
        let idx = proposal_id as usize;
        let mut p = self.proposals[idx];
        if self.now >= p.vote_end {
            return Err(GovernorError::VotePeriodEnded);
        }
        if self.has_voted(proposal_id, &caller) {
            return Err(GovernorError::AlreadyVoted);
        }
        let ghost pre = self@;
        let weight = vote.weight();
        self.votes.push(ProposalVote { proposal_id, voter: caller, weight });
        // The ledger's length is a usize: it bounds the tally.
        let ballots = self.votes.len();
        assert(pre.proposal_wf(idx as int));
        assert(usize::MAX <= max_weight());
        assert(p.total_votes() + weight <= ballots * max_weight());
        match vote {
            VoteType::Yes(w) => {
                p.for_votes = p.for_votes + w as u128;
            },
            VoteType::No(w) => {
                p.against_votes = p.against_votes + w as u128;
            },
        }
        self.proposals.set(idx, p);
        assert(self@ == pre.with_vote(proposal_id, vote, caller));
        proof {
            let post = self@;
            assert forall|i: int| 0 <= i < post.proposals.len() implies #[trigger] post.proposal_wf(i) by {
                assert(pre.proposal_wf(i));
            }
            assert forall|j: int, k: int|
                0 <= j < k < post.votes.len() implies !(#[trigger] post.votes[j].proposal_id
                    == #[trigger] post.votes[k].proposal_id && post.votes[j].voter@
                    == post.votes[k].voter@) by {
                if k == pre.votes.len() {
                    if post.votes[j].proposal_id == proposal_id && post.votes[j].voter@ == caller@ {
                        assert(pre.votes[j] == post.votes[j]);
                    }
                }
            }
            assert forall|k: int| 0 <= k < post.votes.len() implies #[trigger] post.votes[k].proposal_id
                < post.proposals.len() by {
                if k < pre.votes.len() {
                    assert(pre.votes[k] == post.votes[k]);
                }
            }
        }
        Ok(())
    }

    /// Checks that `proposal_id` can be executed now and returns the transfer
    /// the ledger must make for it: the proposal exists, has not been
    /// executed, its voting period has ended, and its "for" weight reaches
    /// the quorum of the cast weight. Nothing changes.
    pub fn execution_transfer(&self, proposal_id: ProposalId) -> (r: Result<Transfer, GovernorError>)
        requires
            self@.wf(),
        ensures
            r == self@.execution_check(proposal_id),
    {
        if proposal_id >= self.proposals.len() as u64 {
            return Err(GovernorError::ProposalNotFound);
        }
        let p = self.proposals[proposal_id as usize];
        if p.executed {
            return Err(GovernorError::ProposalAlreadyExecuted);
        }
        if self.now < p.vote_end {
            return Err(GovernorError::VotePeriodNotEnded);
        }
        // The ledger's length is a usize: it bounds the tally.
        let ballots = self.votes.len();
        assert(self@.proposal_wf(proposal_id as int));
        assert(usize::MAX <= max_weight());
        assert(p.total_votes() <= ballots * max_weight());
        if !quorum_reached(p.for_votes, p.against_votes, self.quorum_percent) {
            return Err(GovernorError::QuorumNotReached);
        }
        Ok(Transfer { to: p.to, amount: p.amount })
    }

    /// Executes `proposal_id`. `transferred` tells whether the ledger carried
    /// out the transfer that `execution_transfer` asked for. The checks of
    /// `execution_transfer` run again; only when they pass and the transfer
    /// was made is the proposal marked executed. Any refusal changes nothing.
    pub fn execute(&mut self, proposal_id: ProposalId, transferred: bool) -> (r: Result<
        (),
        GovernorError,
    >)
        requires
            old(self)@.wf(),
        ensures
            final(self)@.wf(),
            r == old(self)@.execute_outcome(proposal_id, transferred),
            r is Ok ==> final(self)@ == old(self)@.with_executed(proposal_id),
            r is Err ==> final(self)@ == old(self)@,
            proposal_id < old(self)@.proposals.len() && old(self)@.now
                < old(self)@.proposals[proposal_id as int].vote_end ==> r == Err::<
                (),
                GovernorError,
            >(GovernorError::VotePeriodNotEnded),
            proposal_id < old(self)@.proposals.len() && old(self)@.proposals[proposal_id as int].executed
                ==> r == Err::<(), GovernorError>(GovernorError::ProposalAlreadyExecuted),
    {
        proof {
            if proposal_id < self@.proposals.len() {
                assert(self@.proposal_wf(proposal_id as int));
            }
        }
        match self.execution_transfer(proposal_id) {
            Err(e) => Err(e),
            Ok(_) => {
                if !transferred {
                    return Err(GovernorError::TransferFailed);
                }
                let ghost pre = self@;
                let len = self.proposals.len();
                assert(proposal_id < len);
                let idx = proposal_id as usize;
                let mut p = self.proposals[idx];
                p.executed = true;
                self.proposals.set(idx, p);
                assert(self@ == pre.with_executed(proposal_id));
                assert forall|i: int| 0 <= i < self@.proposals.len() implies #[trigger] self@.proposal_wf(i) by {
                    assert(pre.proposal_wf(i));
                }
                Ok(())
            },
        }
    }

    /// Moves the clock to the host's time `t`; the clock never goes back, so
    /// an earlier `t` leaves it where it is.
    pub fn advance_clock(&mut self, t: Timestamp)
        requires
            old(self)@.wf(),
        ensures
            final(self)@.wf(),
            final(self)@ == (GovernorView {
                now: if t > old(self)@.now { t } else { old(self)@.now },
                ..old(self)@
            }),
    {
        let ghost pre = self@;
        if t > self.now {
            self.now = t;
        }
        assert forall|i: int| 0 <= i < self@.proposals.len() implies #[trigger] self@.proposal_wf(i) by {
            assert(pre.proposal_wf(i));
        }
    }

    /// The current logical time.
    pub fn now(&self) -> (r: Timestamp)
        ensures
            r == self@.now,
    {
        self.now
    }

    /// Submits a proposal to transfer `amount` to `to`, open for votes from
    /// now for `duration`. A zero amount or a zero duration is refused and
    /// changes nothing; otherwise the proposal takes the next id. The end of
    /// the voting period must fit in a timestamp.
    pub fn propose(&mut self, to: AccountId, amount: Balance, duration: u64) -> (r: Result<
        ProposalId,
        GovernorError,
    >)
        requires
            old(self)@.wf(),
            old(self)@.now + duration <= u64::MAX,
        ensures
            final(self)@.wf(),
            r == old(self)@.propose_outcome(amount, duration),
            r is Ok ==> final(self)@ == old(self)@.with_proposal(to, amount, duration),
            r is Err ==> final(self)@ == old(self)@,
            amount == 0 ==> r == Err::<ProposalId, GovernorError>(
                GovernorError::AmountShouldNotBeZero,
            ),
            amount > 0 && duration == 0 ==> r == Err::<ProposalId, GovernorError>(
                GovernorError::DurationError,
            ),
            r matches Ok(id) ==> id == old(self)@.next_proposal_id() && final(self)@.next_proposal_id()
                == old(self)@.next_proposal_id() + 1,
            r is Err ==> final(self)@.next_proposal_id() == old(self)@.next_proposal_id(),
    {
        if amount == 0 {
            return Err(GovernorError::AmountShouldNotBeZero);
        }
        if duration == 0 {
            return Err(GovernorError::DurationError);
        }
        let ghost pre = self@;
        let id = self.proposals.len() as u64;
        self.proposals.push(
            Proposal {
                id,
                to,
                amount,
                vote_start: self.now,
                vote_end: self.now + duration,
                for_votes: 0,
                against_votes: 0,
                executed: false,
            },
        );
        assert(self@ == pre.with_proposal(to, amount, duration));
        assert forall|i: int| 0 <= i < self@.proposals.len() implies #[trigger] self@.proposal_wf(i) by {
            if i < pre.proposals.len() {
                assert(pre.proposal_wf(i));
            }
        }
        Ok(id)
    }

    /// The proposal with id `proposal_id`, if there is one.
    pub fn get_proposal(&self, proposal_id: ProposalId) -> (r: Option<Proposal>)
        ensures
            r == (if proposal_id < self@.proposals.len() {
                Some(self@.proposals[proposal_id as int])
            } else {
                None
            }),
    {
        if proposal_id < self.proposals.len() as u64 {
            Some(self.proposals[proposal_id as usize])
        } else {
            None
        }
    }

    /// The id that the next successful proposal will receive.
    pub fn next_proposal_id(&self) -> (r: ProposalId)
        ensures
            r == self@.next_proposal_id(),
    {
        self.proposals.len() as u64
    }

    /// The share, in percent, of the cast weight that must vote in favour.
    pub fn quorum_percent(&self) -> (r: u8)
        ensures
            r == self@.quorum_percent,
    {
        self.quorum_percent
    }

    /// The governance token this governor was set up with.
    pub fn governance_token(&self) -> (r: AccountId)
        ensures
            r == self@.governance_token,
    {
        self.governance_token
    }
}

/// Proposal ids are the positions in the store: they start at 0 and
/// strictly increase in the order the proposals were made.
pub proof fn lemma_ids_increase(g: GovernorView)
    requires
        g.wf(),
    ensures
        g.proposals.len() > 0 ==> g.proposals[0].id == 0,
        forall|i: int, j: int|
            0 <= i < j < g.proposals.len() ==> #[trigger] g.proposals[i].id
                < #[trigger] g.proposals[j].id,
{
    if g.proposals.len() > 0 {
        assert(g.proposal_wf(0));
    }
    assert forall|i: int, j: int| 0 <= i < j < g.proposals.len() implies #[trigger] g.proposals[i].id
        < #[trigger] g.proposals[j].id by {
        assert(g.proposal_wf(i));
        assert(g.proposal_wf(j));
    }
}

/// Once a voter's ballot on a proposal is accepted, a second ballot by the
/// same voter on the same proposal is refused with `AlreadyVoted`.
pub proof fn lemma_one_vote_per_voter(
    g: GovernorView,
    proposal_id: ProposalId,
    vote: VoteType,
    caller: AccountId,
)
    requires
        g.wf(),
        g.vote_outcome(proposal_id, caller@) is Ok,
    ensures
        g.with_vote(proposal_id, vote, caller).vote_outcome(proposal_id, caller@) == Err::<
            (),
            GovernorError,
        >(GovernorError::AlreadyVoted),
{
    let h = g.with_vote(proposal_id, vote, caller);
    assert(h.votes[g.votes.len() as int].proposal_id == proposal_id);
}

/// A proposal is executed at most once: after a successful execution every
/// further attempt is refused with `ProposalAlreadyExecuted`, whatever the
/// ledger would answer.
pub proof fn lemma_execute_once(
    g: GovernorView,
    proposal_id: ProposalId,
    transferred: bool,
    again: bool,
)
    requires
        g.wf(),
        g.execute_outcome(proposal_id, transferred) is Ok,
    ensures
        g.with_executed(proposal_id).execute_outcome(proposal_id, again) == Err::<
            (),
            GovernorError,
        >(GovernorError::ProposalAlreadyExecuted),
{
}

} // verus!
