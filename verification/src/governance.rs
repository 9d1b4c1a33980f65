//! Governance engine: proposals, per-voter vote records and the global
//! governance configuration, with the propose / vote / tally / execute
//! state machine.

use vstd::prelude::*;

use crate::AccountId;
use crate::errors::RealStackError;

verus! {

/// Kinds of governance proposals. Only `Text` has an effect defined by this
/// core (a no-op); the other tags are extension points whose effects an
/// external collaborator supplies.
#[derive(Clone, Copy, Debug, PartialEq, Eq, Structural)]
pub enum ProposalType {
    /// General text proposal with no on-chain execution
    Text,
    /// Update platform parameters
    PlatformParameters,
    /// Add a new asset category
    AddAssetCategory,
    /// Update fee configuration
    UpdateFees,
    /// Upgrade the program
    ProgramUpgrade,
    /// Transfer funds from treasury
    TreasuryTransfer,
    /// Asset-specific action
    AssetAction,
    /// Community fund allocation
    CommunityFunding,
}

/// One governance proposal. Created active with zero tallies; executed at
/// most once, after its voting window has passed.
#[derive(Clone, Debug)]
pub struct Proposal {
    /// Title of the proposal
    pub title: String,
    /// Detailed description of the proposal
    pub description: String,
    /// Account that created the proposal
    pub proposer: AccountId,
    /// Whether the proposal is currently active
    pub is_active: bool,
    /// Creation timestamp
    pub creation_timestamp: i64,
    /// When voting ends
    pub voting_ends_at: i64,
    /// Total yes votes
    pub yes_votes: u64,
    /// Total no votes
    pub no_votes: u64,
    /// Whether the proposal has been executed
    pub executed: bool,
    /// Proposal type
    pub proposal_type: ProposalType,
    /// Target accounts affected by this proposal
    pub target_accounts: Vec<AccountId>,
    /// Execution data (e.g., parameters for the execution action)
    pub execution_data: Vec<u8>,
    /// Minimum voting period in seconds
    pub min_voting_period: i64,
    /// Quorum requirements (minimum participation)
    pub quorum_votes: u64,
    /// Threshold for approval (percentage of yes votes needed)
    pub approval_threshold_percentage: u8,
    /// The timestamp when the proposal was executed
    pub executed_at: i64,
    /// The account that executed the proposal
    pub executor: Option<AccountId>,
}

impl Proposal {
    /// Fixed maximum size of one serialized proposal record.
    pub const LEN: usize = 8 + 100 + 1000 + 32 + 1 + 8 + 8 + 8 + 8 + 1 + 1 + 64 + 128 + 8 + 8
        + 1 + 8 + 33;
}

/// One cast vote, keyed by the (proposal, voter) pair.
#[derive(Clone, Copy, Debug, PartialEq, Eq, Structural)]
pub struct VoteRecord {
    /// The proposal being voted on
    pub proposal: AccountId,
    /// The voter
    pub voter: AccountId,
    /// Whether the vote was yes
    pub is_yes_vote: bool,
    /// Vote weight
    pub vote_weight: u64,
    /// When the vote was cast
    pub timestamp: i64,
}

impl VoteRecord {
    /// Fixed maximum size of one serialized vote record.
    pub const LEN: usize = 8 + 32 + 32 + 1 + 8 + 8;
}

/// Global governance parameters, read at proposal creation and when voting.
#[derive(Clone, Copy, Debug, PartialEq, Eq, Structural)]
pub struct GovernanceConfig {
    /// Authority that can update governance parameters
    pub authority: AccountId,
    /// Minimum period for voting (in seconds)
    pub min_voting_period: i64,
    /// Maximum period for voting (in seconds)
    pub max_voting_period: i64,
    /// Minimum votes needed for quorum
    pub min_quorum_votes: u64,
    /// Approval threshold percentage (e.g., 60 means 60% yes votes needed)
    pub approval_threshold: u8,
    /// Minimum token balance to create a proposal
    pub min_proposal_balance: u64,
    /// Minimum token balance to vote
    pub min_vote_balance: u64,
    /// Whether governance is active
    pub governance_active: bool,
}

impl GovernanceConfig {
    /// Fixed maximum size of the serialized governance configuration.
    pub const LEN: usize = 8 + 32 + 8 + 8 + 8 + 1 + 8 + 8 + 1;
}

/// Whether `records` holds a vote by `voter` on `proposal`.
pub open spec fn ledger_has_vote(
    records: Seq<VoteRecord>,
    proposal: AccountId,
    voter: AccountId,
) -> bool {
    exists|i: int|
        0 <= i < records.len() && records[i].proposal == proposal && records[i].voter == voter
}

/// The standing invariant of the vote store: at most one record per
/// (proposal, voter) pair.
pub open spec fn ledger_wf(records: Seq<VoteRecord>) -> bool {
    forall|i: int, j: int|
        0 <= i < j < records.len() ==> !(records[i].proposal == records[j].proposal
            && records[i].voter == records[j].voter)
}

/// Total weight of yes votes recorded for `proposal`.
pub open spec fn yes_weight(records: Seq<VoteRecord>, proposal: AccountId) -> int
    decreases records.len(),
{
    if records.len() == 0 {
        0
    } else {
        yes_weight(records.drop_last(), proposal) + if records.last().proposal == proposal
            && records.last().is_yes_vote {
            records.last().vote_weight as int
        } else {
            0
        }
    }
}

/// Total weight of no votes recorded for `proposal`.
pub open spec fn no_weight(records: Seq<VoteRecord>, proposal: AccountId) -> int
    decreases records.len(),
{
    if records.len() == 0 {
        0
    } else {
        no_weight(records.drop_last(), proposal) + if records.last().proposal == proposal
            && !records.last().is_yes_vote {
            records.last().vote_weight as int
        } else {
            0
        }
    }
}

/// The proposal's stored tallies agree with the votes recorded for it.
pub open spec fn tallies_match(p: Proposal, proposal: AccountId, records: Seq<VoteRecord>) -> bool {
    p.yes_votes == yes_weight(records, proposal) && p.no_votes == no_weight(records, proposal)
}

/// The store of every cast vote, keyed by the (proposal, voter) pair: a
/// second vote by the same voter on the same proposal collides with the
/// existing record and is rejected, never overwritten.
#[derive(Clone, Debug)]
pub struct VoteLedger {
    /// The recorded votes, in the order they were cast.
    pub records: Vec<VoteRecord>,
}

impl VoteLedger {
    /// Whether a vote by `voter` on `proposal` is recorded.
    pub open spec fn has_vote(&self, proposal: AccountId, voter: AccountId) -> bool {
        ledger_has_vote(self.records@, proposal, voter)
    }

    /// At most one record per (proposal, voter) pair.
    pub open spec fn wf(&self) -> bool {
        ledger_wf(self.records@)
    }

    /// An empty vote store.
    pub fn new() -> (ledger: VoteLedger)
        ensures
            ledger.records@ == Seq::<VoteRecord>::empty(),
            ledger.wf(),
    {
        VoteLedger { records: Vec::new() }
    }

    /// Look up whether a vote by `voter` on `proposal` is recorded.
    pub fn contains_vote(&self, proposal: AccountId, voter: AccountId) -> (found: bool)
        ensures
            found == self.has_vote(proposal, voter),
    {
        let mut i: usize = 0;
        while i < self.records.len()
            invariant
                i <= self.records.len(),
                forall|k: int|
                    0 <= k < i ==> !(self.records@[k].proposal == proposal && self.records@[k].voter
                        == voter),
            decreases self.records.len() - i,
        {
            if self.records[i].proposal == proposal && self.records[i].voter == voter {
                return true;
            }
            i = i + 1;
        }
        false
    }
}

proof fn lemma_weight_push(records: Seq<VoteRecord>, rec: VoteRecord, proposal: AccountId)
    ensures
        yes_weight(records.push(rec), proposal) == yes_weight(records, proposal) + (
        if rec.proposal == proposal && rec.is_yes_vote {
            rec.vote_weight as int
        } else {
            0
        }),
        no_weight(records.push(rec), proposal) == no_weight(records, proposal) + (
        if rec.proposal == proposal && !rec.is_yes_vote {
            rec.vote_weight as int
        } else {
            0
        }),
{
    assert(records.push(rec).drop_last() =~= records);
    assert(records.push(rec).last() == rec);
}

/// Law: in a well-formed vote store any two records for the same
/// (proposal, voter) pair are the same record, so the tallies count each
/// voter's weight on a proposal at most once.
pub proof fn lemma_one_vote_per_pair(records: Seq<VoteRecord>, i: int, j: int)
    requires
        ledger_wf(records),
        0 <= i < records.len(),
        0 <= j < records.len(),
        records[i].proposal == records[j].proposal,
        records[i].voter == records[j].voter,
    ensures
        i == j,
{
}

/// Create a proposal: requires a non-empty title and description and a
/// voting deadline between `now` plus the configured minimum and maximum
/// voting periods (computed with checked addition). Quorum and approval
/// threshold are copied from the configuration at creation time; later
/// configuration changes do not affect an existing proposal.
pub fn create_proposal(
    proposer: AccountId,
    title: String,
    description: String,
    voting_ends_at: i64,
    cfg: &GovernanceConfig,
    now: i64,
) -> (r: Result<Proposal, RealStackError>)
    ensures
        r is Ok <==> title@.len() != 0 && description@.len() != 0 && i64::MIN <= now
            + cfg.min_voting_period <= i64::MAX && i64::MIN <= now + cfg.max_voting_period
            <= i64::MAX && now + cfg.min_voting_period <= voting_ends_at <= now
            + cfg.max_voting_period,
        title@.len() == 0 || description@.len() == 0 ==> r == Err::<Proposal, RealStackError>(
            RealStackError::InvalidParameters,
        ),
        title@.len() != 0 && description@.len() != 0 && !(i64::MIN <= now + cfg.min_voting_period
            <= i64::MAX && i64::MIN <= now + cfg.max_voting_period <= i64::MAX) ==> r == Err::<
            Proposal,
            RealStackError,
        >(RealStackError::MathOverflow),
        title@.len() != 0 && description@.len() != 0 && i64::MIN <= now + cfg.min_voting_period
            <= i64::MAX && i64::MIN <= now + cfg.max_voting_period <= i64::MAX && !(now
            + cfg.min_voting_period <= voting_ends_at <= now + cfg.max_voting_period) ==> r
            == Err::<Proposal, RealStackError>(RealStackError::InvalidVotingPeriod),
        r is Ok ==> ({
            let p = r->Ok_0;
            &&& p.title == title
            &&& p.description == description
            &&& p.proposer == proposer
            &&& p.is_active
            &&& p.creation_timestamp == now
            &&& p.voting_ends_at == voting_ends_at
            &&& p.yes_votes == 0
            &&& p.no_votes == 0
            &&& !p.executed
            &&& p.proposal_type == ProposalType::Text
            &&& p.target_accounts@ == Seq::<AccountId>::empty()
            &&& p.execution_data@ == Seq::<u8>::empty()
            &&& p.min_voting_period == cfg.min_voting_period
            &&& p.quorum_votes == cfg.min_quorum_votes
            &&& p.approval_threshold_percentage == cfg.approval_threshold
            &&& p.executed_at == 0
            &&& p.executor is None
        }),
{
    if title.as_str().is_empty() || description.as_str().is_empty() {
        return Err(RealStackError::InvalidParameters);
    }
    let min_end_time = match now.checked_add(cfg.min_voting_period) {
        Some(t) => t,
        None => {
            return Err(RealStackError::MathOverflow);
        },
    };
    let max_end_time = match now.checked_add(cfg.max_voting_period) {
        Some(t) => t,
        None => {
            return Err(RealStackError::MathOverflow);
        },
    };
    if voting_ends_at < min_end_time || voting_ends_at > max_end_time {
        return Err(RealStackError::InvalidVotingPeriod);
    }
    Ok(
        Proposal {
            title,
            description,
            proposer,
            is_active: true,
            creation_timestamp: now,
            voting_ends_at,
            yes_votes: 0,
            no_votes: 0,
            executed: false,
            proposal_type: ProposalType::Text,
            target_accounts: Vec::new(),
            execution_data: Vec::new(),
            min_voting_period: cfg.min_voting_period,
            quorum_votes: cfg.min_quorum_votes,
            approval_threshold_percentage: cfg.approval_threshold,
            executed_at: 0,
            executor: None,
        },
    )
}

proof fn lemma_wf_push(records: Seq<VoteRecord>, rec: VoteRecord)
    requires
        ledger_wf(records),
        !ledger_has_vote(records, rec.proposal, rec.voter),
    ensures
        ledger_wf(records.push(rec)),
{
    let pushed = records.push(rec);
    assert forall|i: int, j: int| 0 <= i < j < pushed.len() implies !(pushed[i].proposal
        == pushed[j].proposal && pushed[i].voter == pushed[j].voter) by {
        if j == records.len() {
            if pushed[i].proposal == rec.proposal && pushed[i].voter == rec.voter {
                assert(records[i].proposal == rec.proposal && records[i].voter == rec.voter);
                assert(ledger_has_vote(records, rec.proposal, rec.voter));
            }
        }
    }
}

/// Cast a vote by `voter` on the proposal stored at `proposal_id`. A
/// duplicate (proposal, voter) key collides with the existing record and
/// is rejected first, the way the store refuses a write to an address that
/// already exists. The vote must land while the proposal is active and
/// before its deadline, with at least the configured minimum weight; the
/// weight then accumulates into the yes or no tally with checked addition.
/// Either the vote record and the tally are both recorded or nothing is.
pub fn vote_on_proposal(
    proposal: &mut Proposal,
    ledger: &mut VoteLedger,
    proposal_id: AccountId,
    voter: AccountId,
    vote_yes: bool,
    vote_weight: u64,
    cfg: &GovernanceConfig,
    now: i64,
) -> (r: Result<(), RealStackError>)
    ensures
        old(ledger).has_vote(proposal_id, voter) ==> r == Err::<(), RealStackError>(
            RealStackError::InvalidParameters,
        ),
        !old(ledger).has_vote(proposal_id, voter) && !old(proposal).is_active ==> r == Err::<
            (),
            RealStackError,
        >(RealStackError::ProposalInactive),
        !old(ledger).has_vote(proposal_id, voter) && old(proposal).is_active && now >= old(
            proposal,
        ).voting_ends_at ==> r == Err::<(), RealStackError>(RealStackError::VotingPeriodEnded),
        !old(ledger).has_vote(proposal_id, voter) && old(proposal).is_active && now < old(
            proposal,
        ).voting_ends_at && vote_weight < cfg.min_vote_balance ==> r == Err::<(), RealStackError>(
            RealStackError::InvalidParameters,
        ),
        !old(ledger).has_vote(proposal_id, voter) && old(proposal).is_active && now < old(
            proposal,
        ).voting_ends_at && vote_weight >= cfg.min_vote_balance && (if vote_yes {
            old(proposal).yes_votes + vote_weight > u64::MAX
        } else {
            old(proposal).no_votes + vote_weight > u64::MAX
        }) ==> r == Err::<(), RealStackError>(RealStackError::MathOverflow),
        r is Err ==> *final(proposal) == *old(proposal) && *final(ledger) == *old(ledger),
        r is Ok <==> !old(ledger).has_vote(proposal_id, voter) && old(proposal).is_active && now
            < old(proposal).voting_ends_at && vote_weight >= cfg.min_vote_balance && (if vote_yes {
            old(proposal).yes_votes + vote_weight <= u64::MAX
        } else {
            old(proposal).no_votes + vote_weight <= u64::MAX
        }),
        r is Ok ==> final(ledger).records@ == old(ledger).records@.push(
            VoteRecord {
                proposal: proposal_id,
                voter,
                is_yes_vote: vote_yes,
                vote_weight,
                timestamp: now,
            },
        ),
        r is Ok && vote_yes ==> *final(proposal) == (Proposal {
            yes_votes: (old(proposal).yes_votes + vote_weight) as u64,
            ..*old(proposal)
        }),
        r is Ok && !vote_yes ==> *final(proposal) == (Proposal {
            no_votes: (old(proposal).no_votes + vote_weight) as u64,
            ..*old(proposal)
        }),
        old(ledger).wf() ==> final(ledger).wf(),
        old(ledger).wf() && tallies_match(*old(proposal), proposal_id, old(ledger).records@)
            ==> tallies_match(*final(proposal), proposal_id, final(ledger).records@),
{
    if ledger.contains_vote(proposal_id, voter) {
        return Err(RealStackError::InvalidParameters);
    }
    if !proposal.is_active {
        return Err(RealStackError::ProposalInactive);
    }
    if now >= proposal.voting_ends_at {
        return Err(RealStackError::VotingPeriodEnded);
    }
    if vote_weight < cfg.min_vote_balance {
        return Err(RealStackError::InvalidParameters);
    }
    if vote_yes {
        match proposal.yes_votes.checked_add(vote_weight) {
            Some(total) => {
                proposal.yes_votes = total;
            },
            None => {
                return Err(RealStackError::MathOverflow);
            },
        }
    } else {
        match proposal.no_votes.checked_add(vote_weight) {
            Some(total) => {
                proposal.no_votes = total;
            },
            None => {
                return Err(RealStackError::MathOverflow);
            },
        }
    }
    let record = VoteRecord {
        proposal: proposal_id,
        voter,
        is_yes_vote: vote_yes,
        vote_weight,
        timestamp: now,
    };
    ledger.records.push(record);
    proof {
        lemma_weight_push(old(ledger).records@, record, proposal_id);
        if old(ledger).wf() {
            lemma_wf_push(old(ledger).records@, record);
        }
    }
    Ok(())
}

/// The integer-truncated percentage of yes votes among all cast votes,
/// taken as zero when no vote was cast.
pub open spec fn yes_percentage(yes_votes: u64, no_votes: u64) -> int {
    if yes_votes + no_votes > 0 {
        (yes_votes * 100) / (yes_votes + no_votes)
    } else {
        0
    }
}

/// Whether the cast votes approve a proposal: the truncated yes percentage
/// reaches the approval threshold.
pub open spec fn proposal_approved(yes_votes: u64, no_votes: u64, threshold: u8) -> bool {
    yes_percentage(yes_votes, no_votes) >= threshold
}

/// Execute a proposal, at or after its voting deadline and at most once.
/// The quorum check requires the total cast weight to reach the proposal's
/// quorum; the yes percentage is computed in widened arithmetic,
/// truncating toward zero. Approval and rejection both consume the single
/// execution attempt: the proposal is deactivated and marked executed
/// either way, the returned flag reports whether the threshold was
/// reached, and any later attempt fails as already executed.
pub fn execute_proposal(proposal: &mut Proposal, executor: AccountId, now: i64) -> (r: Result<
    bool,
    RealStackError,
>)
    ensures
        old(proposal).executed ==> r == Err::<bool, RealStackError>(
            RealStackError::ProposalAlreadyExecuted,
        ),
        !old(proposal).executed && !old(proposal).is_active ==> r == Err::<bool, RealStackError>(
            RealStackError::ProposalInactive,
        ),
        !old(proposal).executed && old(proposal).is_active && now < old(proposal).voting_ends_at
            ==> r == Err::<bool, RealStackError>(RealStackError::VotingPeriodNotEnded),
        !old(proposal).executed && old(proposal).is_active && now >= old(proposal).voting_ends_at
            && old(proposal).yes_votes + old(proposal).no_votes > u64::MAX ==> r == Err::<
            bool,
            RealStackError,
        >(RealStackError::MathOverflow),
        !old(proposal).executed && old(proposal).is_active && now >= old(proposal).voting_ends_at
            && old(proposal).yes_votes + old(proposal).no_votes <= u64::MAX && old(
            proposal,
        ).yes_votes + old(proposal).no_votes < old(proposal).quorum_votes ==> r == Err::<
            bool,
            RealStackError,
        >(RealStackError::InvalidParameters),
        r is Err ==> *final(proposal) == *old(proposal),
        r is Ok <==> old(proposal).is_active && now >= old(proposal).voting_ends_at && !old(
            proposal,
        ).executed && old(proposal).quorum_votes <= old(proposal).yes_votes + old(proposal).no_votes
            <= u64::MAX,
        r is Ok ==> r == Ok::<bool, RealStackError>(
            proposal_approved(
                old(proposal).yes_votes,
                old(proposal).no_votes,
                old(proposal).approval_threshold_percentage,
            ),
        ) && *final(proposal) == (Proposal {
            executed: true,
            is_active: false,
            executed_at: now,
            executor: Some(executor),
            ..*old(proposal)
        }),
{
    if proposal.executed {
        return Err(RealStackError::ProposalAlreadyExecuted);
    }
    if !proposal.is_active {
        return Err(RealStackError::ProposalInactive);
    }
    if now < proposal.voting_ends_at {
        return Err(RealStackError::VotingPeriodNotEnded);
    }
    let total_votes = match proposal.yes_votes.checked_add(proposal.no_votes) {
        Some(t) => t,
        None => {
            return Err(RealStackError::MathOverflow);
        },
    };
    if total_votes < proposal.quorum_votes {
        return Err(RealStackError::InvalidParameters);
    }
    let approved = if total_votes > 0 {
        let pct = (proposal.yes_votes as u128 * 100) / (total_votes as u128);
        pct >= proposal.approval_threshold_percentage as u128
    } else {
        proposal.approval_threshold_percentage == 0
    };
    proposal.executed = true;
    proposal.is_active = false;
    proposal.executed_at = now;
    proposal.executor = Some(executor);
    Ok(approved)
}

} // verus!
