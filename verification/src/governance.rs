//! Token-weighted governance: proposals, votes, quorum and a timelock.
//!
//! A proposal is pending until its voting delay has passed, active during
//! its voting period, and then defeated or succeeded by its tally; a
//! succeeded proposal can be queued on the timelock and a queued one
//! executed. The host keeps the storage, reads token balances, the total
//! supply and the ledger time, schedules and executes the proposal's calls
//! on the timelock, checks authorisation and publishes events; the decisions
//! are made here.
use vstd::prelude::*;
use crate::account::AccountId;

verus! {

/// Why a governance operation fails.
#[derive(Clone, Copy, Debug, PartialEq, Eq, Structural)]
pub enum Error {
    NotInitialized,
    AlreadyInitialized,
    Unauthorized,
    ProposalNotFound,
    InvalidState,
    InvalidVote,
    AlreadyVoted,
    QuorumNotMet,
    ProposalThresholdNotMet,
}

/// The life-cycle state of a proposal.
#[derive(Clone, Copy, Debug, PartialEq, Eq, Structural)]
pub enum ProposalState {
    Pending,
    Active,
    Canceled,
    Defeated,
    Succeeded,
    Queued,
    Expired,
    Executed,
}

/// The governor's configuration.
pub struct GovernanceConfig {
    /// The voting token.
    pub token: AccountId,
    /// The timelock that schedules and runs proposals.
    pub timelock: AccountId,
    /// Quorum in basis points of the total supply.
    pub quorum_bps: u32,
    /// Share of for-votes among for and against votes, in basis points,
    /// needed to succeed (e.g. 5001 for more than half).
    pub threshold_bps: u32,
    /// Voting period, in seconds.
    pub voting_period: u64,
    /// Delay before voting starts, in seconds.
    pub voting_delay: u64,
    /// Minimum token balance to propose.
    pub proposal_threshold: i128,
}

/// A proposal's record, by what the decisions read.
pub struct Proposal {
    pub id: u32,
    pub proposer: AccountId,
    pub start_time: u64,
    pub end_time: u64,
    pub for_votes: i128,
    pub against_votes: i128,
    pub abstain_votes: i128,
    pub executed: bool,
    pub canceled: bool,
    pub queued: bool,
}

/// Rust's integer division, which rounds toward zero.
pub open spec fn trunc_div(x: int, d: int) -> int {
    if x == 0 {
        0
    } else if x > 0 && d > 0 {
        x / d
    } else if x < 0 && d < 0 {
        (x * -1) / (d * -1)
    } else if x < 0 {
        ((x * -1) / d) * -1
    } else {
        (x / (d * -1)) * -1
    }
}

/// `x / d` for `i128`, rounding toward zero.
fn div_toward_zero(x: i128, d: i128) -> (r: i128)
    requires
        d != 0,
        i128::MIN <= trunc_div(x as int, d as int) <= i128::MAX,
    ensures
        r == trunc_div(x as int, d as int),
{
    match x.checked_div(d) {
        Some(q) => q,
        None => 0,
    }
}

/// The state decided without the tally: `None` once voting has ended and
/// the votes must be counted.
pub open spec fn timed_state(p: Proposal, now: u64) -> Option<ProposalState> {
    if p.canceled {
        Some(ProposalState::Canceled)
    } else if p.executed {
        Some(ProposalState::Executed)
    } else if now < p.start_time {
        Some(ProposalState::Pending)
    } else if now <= p.end_time {
        Some(ProposalState::Active)
    } else {
        None
    }
}

/// All votes cast.
pub open spec fn total_votes(p: Proposal) -> int {
    p.for_votes + p.against_votes + p.abstain_votes
}

/// The votes that count for the majority: for and against.
pub open spec fn support_votes(p: Proposal) -> int {
    p.for_votes + p.against_votes
}

/// The state after voting, from the tally: defeated without quorum or
/// majority, else queued or succeeded.
pub open spec fn tallied_state(p: Proposal, c: GovernanceConfig, total_supply: i128) -> ProposalState {
    if trunc_div(total_votes(p) * 10000, total_supply as int) < c.quorum_bps {
        ProposalState::Defeated
    } else if support_votes(p) == 0 || trunc_div(p.for_votes * 10000, support_votes(p))
        < c.threshold_bps {
        ProposalState::Defeated
    } else if p.queued {
        ProposalState::Queued
    } else {
        ProposalState::Succeeded
    }
}

/// The state of a proposal at time `now`, given the token's total supply.
pub open spec fn proposal_state(p: Proposal, now: u64, c: GovernanceConfig, total_supply: i128) -> ProposalState {
    match timed_state(p, now) {
        Some(s) => s,
        None => tallied_state(p, c, total_supply),
    }
}

/// The tally's arithmetic stays within `i128` and does not divide by zero.
pub open spec fn tally_fits(p: Proposal, total_supply: i128) -> bool {
    &&& i128::MIN <= p.for_votes + p.against_votes <= i128::MAX
    &&& i128::MIN <= total_votes(p) <= i128::MAX
    &&& i128::MIN <= total_votes(p) * 10000 <= i128::MAX
    &&& total_supply != 0
    &&& i128::MIN <= trunc_div(total_votes(p) * 10000, total_supply as int) <= i128::MAX
    &&& i128::MIN <= p.for_votes * 10000 <= i128::MAX
    &&& (support_votes(p) != 0 ==> i128::MIN <= trunc_div(p.for_votes * 10000, support_votes(p))
        <= i128::MAX)
}

/// The proposal after a vote, or the error.
pub open spec fn cast_vote_result(
    proposal: Option<Proposal>,
    now: u64,
    already_voted: bool,
    weight: i128,
    support: u32,
) -> Result<Proposal, Error> {
    match proposal {
        None => Err(Error::ProposalNotFound),
        Some(p) => if now < p.start_time || now > p.end_time {
            Err(Error::InvalidState)
        } else if already_voted {
            Err(Error::AlreadyVoted)
        } else if weight == 0 {
            Err(Error::Unauthorized)
        } else if support == 0 {
            Ok(Proposal { against_votes: (p.against_votes + weight) as i128, ..p })
        } else if support == 1 {
            Ok(Proposal { for_votes: (p.for_votes + weight) as i128, ..p })
        } else if support == 2 {
            Ok(Proposal { abstain_votes: (p.abstain_votes + weight) as i128, ..p })
        } else {
            Err(Error::InvalidVote)
        },
    }
}

/// The new proposal, or the error.
pub open spec fn propose_result(
    c: GovernanceConfig,
    proposer: AccountId,
    proposer_balance: i128,
    latest_id: Option<u32>,
    now: u64,
) -> Result<Proposal, Error> {
    if proposer_balance < c.proposal_threshold {
        Err(Error::ProposalThresholdNotMet)
    } else {
        let id = (match latest_id {
            Some(i) => i,
            None => 0,
        } + 1) as u32;
        let start = (now + c.voting_delay) as u64;
        Ok(
            Proposal {
                id,
                proposer,
                start_time: start,
                end_time: (start + c.voting_period) as u64,
                for_votes: 0,
                against_votes: 0,
                abstain_votes: 0,
                executed: false,
                canceled: false,
                queued: false,
            },
        )
    }
}

/// The governor contract; its operations are transitions of the stored
/// configuration and proposals.
pub struct GovernorContract;

impl GovernorContract {
    /// The proposal after `queue` in state `s`, or the error.
    pub open spec fn spec_queue(p: Proposal, s: ProposalState) -> Result<Proposal, Error> {
        if s != ProposalState::Succeeded {
            Err(Error::InvalidState)
        } else {
            Ok(Proposal { queued: true, ..p })
        }
    }

    /// Configure the governor; fails when a configuration is already stored.
    pub fn init(
        already_configured: bool,
        token: AccountId,
        timelock: AccountId,
        quorum_bps: u32,
        threshold_bps: u32,
        voting_period: u64,
        voting_delay: u64,
        proposal_threshold: i128,
    ) -> (r: Result<GovernanceConfig, Error>)
        ensures
            already_configured ==> r is Err && r->Err_0 == Error::AlreadyInitialized,
            !already_configured ==> (r matches Ok(c) && c.token@ == token@ && c.timelock@ == timelock@
                && c.quorum_bps == quorum_bps && c.threshold_bps == threshold_bps && c.voting_period
                == voting_period && c.voting_delay == voting_delay && c.proposal_threshold
                == proposal_threshold),
    {
        if already_configured {
            return Err(Error::AlreadyInitialized);
        }
        Ok(
            GovernanceConfig {
                token,
                timelock,
                quorum_bps,
                threshold_bps,
                voting_period,
                voting_delay,
                proposal_threshold,
            },
        )
    }

    /// Create a proposal: the proposer's token balance must reach the
    /// proposal threshold; the proposal gets the id after `latest_id` and a
    /// voting window starting `voting_delay` after `now`. (The caller aborts
    /// on arithmetic overflow.)
    pub fn propose(
        config: &GovernanceConfig,
        proposer: AccountId,
        proposer_balance: i128,
        latest_id: Option<u32>,
        now: u64,
    ) -> (r: Result<Proposal, Error>)
        requires
            proposer_balance >= config.proposal_threshold ==> {
                &&& (match latest_id {
                    Some(i) => i,
                    None => 0,
                }) < u32::MAX
                &&& now + config.voting_delay + config.voting_period <= u64::MAX
            },
        ensures
            r == propose_result(*config, proposer, proposer_balance, latest_id, now),
    {
        if proposer_balance < config.proposal_threshold {
            return Err(Error::ProposalThresholdNotMet);
        }
        let id: u32 = match latest_id {
            Some(i) => i,
            None => 0,
        } + 1;
        let start_time = now + config.voting_delay;
        let end_time = start_time + config.voting_period;
        Ok(
            Proposal {
                id,
                proposer,
                start_time,
                end_time,
                for_votes: 0,
                against_votes: 0,
                abstain_votes: 0,
                executed: false,
                canceled: false,
                queued: false,
            },
        )
    }

    /// Record a vote of `weight` (the voter's token balance) at time `now`:
    /// `support` 0 is against, 1 for, 2 abstain. (The caller aborts when the
    /// chosen count overflows.)
    pub fn cast_vote(proposal: Option<Proposal>, now: u64, already_voted: bool, weight: i128, support: u32) -> (r:
        Result<Proposal, Error>)
        requires
            proposal matches Some(p) ==> {
                &&& support == 0 ==> i128::MIN <= p.against_votes + weight <= i128::MAX
                &&& support == 1 ==> i128::MIN <= p.for_votes + weight <= i128::MAX
                &&& support == 2 ==> i128::MIN <= p.abstain_votes + weight <= i128::MAX
            },
        ensures
            r == cast_vote_result(proposal, now, already_voted, weight, support),
    {
        let mut p = match proposal {
            Some(p) => p,
            None => return Err(Error::ProposalNotFound),
        };
        if now < p.start_time || now > p.end_time {
            return Err(Error::InvalidState);
        }
        if already_voted {
            return Err(Error::AlreadyVoted);
        }
        if weight == 0 {
            return Err(Error::Unauthorized);
        }
        if support == 0 {
            p.against_votes = p.against_votes + weight;
        } else if support == 1 {
            p.for_votes = p.for_votes + weight;
        } else if support == 2 {
            p.abstain_votes = p.abstain_votes + weight;
        } else {
            return Err(Error::InvalidVote);
        }
        Ok(p)
    }

    /// The state of a proposal at time `now` as far as it is decided without
    /// the tally; `Ok(None)` once voting has ended and `tally` decides.
    pub fn state(proposal: Option<&Proposal>, now: u64) -> (r: Result<Option<ProposalState>, Error>)
        ensures
            match proposal {
                None => r == Err::<Option<ProposalState>, Error>(Error::ProposalNotFound),
                Some(p) => r == Ok::<Option<ProposalState>, Error>(timed_state(*p, now)),
            },
    {
        let p = match proposal {
            Some(p) => p,
            None => return Err(Error::ProposalNotFound),
        };
        if p.canceled {
            return Ok(Some(ProposalState::Canceled));
        }
        if p.executed {
            return Ok(Some(ProposalState::Executed));
        }
        if now < p.start_time {
            return Ok(Some(ProposalState::Pending));
        }
        if now <= p.end_time {
            return Ok(Some(ProposalState::Active));
        }
        Ok(None)
    }

    /// The state of a proposal whose voting has ended, from its votes and
    /// the token's total supply. (The caller aborts when the arithmetic
    /// overflows or the supply is zero.)
    pub fn tally(p: &Proposal, config: &GovernanceConfig, total_supply: i128) -> (r: ProposalState)
        requires
            tally_fits(*p, total_supply),
        ensures
            r == tallied_state(*p, *config, total_supply),
    {
        let total_votes = p.for_votes + p.against_votes + p.abstain_votes;
        let quorum_share = div_toward_zero(total_votes * 10000, total_supply);
        if quorum_share < config.quorum_bps as i128 {
            return ProposalState::Defeated;
        }
        let support_votes = p.for_votes + p.against_votes;
        if support_votes == 0 {
            return ProposalState::Defeated;
        }
        let for_share = div_toward_zero(p.for_votes * 10000, support_votes);
        if for_share < config.threshold_bps as i128 {
            return ProposalState::Defeated;
        }
        if p.queued {
            return ProposalState::Queued;
        }
        ProposalState::Succeeded
    }

    /// Mark a succeeded proposal as queued; the caller then schedules its
    /// calls on the timelock. `state` is the proposal's current state.
    pub fn queue(proposal: Option<Proposal>, state: ProposalState) -> (r: Result<Proposal, Error>)
        ensures
            match proposal {
                None => r == Err::<Proposal, Error>(Error::ProposalNotFound),
                Some(p) => if state != ProposalState::Succeeded {
                    r == Err::<Proposal, Error>(Error::InvalidState)
                } else {
                    r == Ok::<Proposal, Error>(Proposal { queued: true, ..p })
                },
            },
    {
        let mut p = match proposal {
            Some(p) => p,
            None => return Err(Error::ProposalNotFound),
        };
        if state != ProposalState::Succeeded {
            return Err(Error::InvalidState);
        }
        p.queued = true;
        Ok(p)
    }

    /// Mark a queued proposal as executed; the caller runs its calls through
    /// the timelock. `state` is the proposal's current state.
    pub fn execute(proposal: Option<Proposal>, state: ProposalState) -> (r: Result<Proposal, Error>)
        ensures
            match proposal {
                None => r == Err::<Proposal, Error>(Error::ProposalNotFound),
                Some(p) => if p.executed || state != ProposalState::Queued {
                    r == Err::<Proposal, Error>(Error::InvalidState)
                } else {
                    r == Ok::<Proposal, Error>(Proposal { executed: true, ..p })
                },
            },
    {
        let mut p = match proposal {
            Some(p) => p,
            None => return Err(Error::ProposalNotFound),
        };
        if p.executed || state != ProposalState::Queued {
            return Err(Error::InvalidState);
        }
        p.executed = true;
        Ok(p)
    }
}

/// For a non-negative numerator and a positive denominator, the rounded
/// share is below a whole number `t` exactly when the exact share is.
proof fn lemma_share_below(x: int, d: int, t: int)
    requires
        x >= 0,
        d > 0,
    ensures
        (trunc_div(x, d) < t) == (x < t * d),
{
    assert(trunc_div(x, d) == x / d);
    assert((x / d < t) == (x < t * d)) by (nonlinear_arith)
        requires
            x >= 0,
            d > 0,
    {
        assert(x == d * (x / d) + x % d);
        assert(0 <= x % d < d);
    }
}

/// The tally follows the configured quorum and threshold, as exact
/// proportions: with non-negative votes and a positive supply, a proposal
/// whose votes are fewer than `quorum_bps` basis points of the supply is
/// defeated; one that meets the quorum is defeated when it has no for or
/// against votes or when its for-votes are fewer than `threshold_bps` basis
/// points of the for and against votes, and otherwise it is queued (when
/// queued) or succeeded.
pub proof fn law_tally_follows_quorum_and_threshold(p: Proposal, c: GovernanceConfig, total_supply: i128)
    requires
        p.for_votes >= 0,
        p.against_votes >= 0,
        p.abstain_votes >= 0,
        total_supply > 0,
    ensures
        total_votes(p) * 10000 < c.quorum_bps * total_supply ==> tallied_state(p, c, total_supply)
            == ProposalState::Defeated,
        total_votes(p) * 10000 >= c.quorum_bps * total_supply && support_votes(p) == 0 ==> tallied_state(
            p,
            c,
            total_supply,
        ) == ProposalState::Defeated,
        total_votes(p) * 10000 >= c.quorum_bps * total_supply && support_votes(p) > 0 ==> (tallied_state(
            p,
            c,
            total_supply,
        ) == ProposalState::Defeated <==> p.for_votes * 10000 < c.threshold_bps * support_votes(p)),
        total_votes(p) * 10000 >= c.quorum_bps * total_supply && support_votes(p) > 0 && p.for_votes * 10000
            >= c.threshold_bps * support_votes(p) ==> tallied_state(p, c, total_supply) == if p.queued {
            ProposalState::Queued
        } else {
            ProposalState::Succeeded
        },
{
    lemma_share_below(total_votes(p) * 10000, total_supply as int, c.quorum_bps as int);
    if support_votes(p) > 0 {
        lemma_share_below(p.for_votes * 10000, support_votes(p), c.threshold_bps as int);
    }
}

/// A vote adds its weight to exactly the chosen count, so the total grows by
/// the weight; votes outside the voting window and repeated votes are
/// refused.
pub proof fn law_votes_count_once_in_the_window(p: Proposal, now: u64, weight: i128, support: u32)
    requires
        support <= 2,
        i128::MIN <= p.against_votes + weight <= i128::MAX,
        i128::MIN <= p.for_votes + weight <= i128::MAX,
        i128::MIN <= p.abstain_votes + weight <= i128::MAX,
    ensures
        cast_vote_result(Some(p), now, false, weight, support) matches Ok(q) ==> {
            &&& total_votes(q) == total_votes(p) + weight
            &&& q.start_time == p.start_time && q.end_time == p.end_time && q.id == p.id
            &&& q.executed == p.executed && q.canceled == p.canceled && q.queued == p.queued
        },
        p.start_time <= now <= p.end_time ==> cast_vote_result(Some(p), now, true, weight, support)
            == Err::<Proposal, Error>(Error::AlreadyVoted),
        (now < p.start_time || now > p.end_time) ==> cast_vote_result(Some(p), now, false, weight, support)
            == Err::<Proposal, Error>(Error::InvalidState),
{
}

/// Cancellation and execution decide the state whatever the time and the
/// votes.
pub proof fn law_final_states_take_precedence(p: Proposal, now: u64, c: GovernanceConfig, total_supply: i128)
    ensures
        p.canceled ==> proposal_state(p, now, c, total_supply) == ProposalState::Canceled,
        !p.canceled && p.executed ==> proposal_state(p, now, c, total_supply) == ProposalState::Executed,
        !p.canceled && !p.executed && now < p.start_time ==> proposal_state(p, now, c, total_supply)
            == ProposalState::Pending,
        !p.canceled && !p.executed && p.start_time <= now <= p.end_time ==> proposal_state(
            p,
            now,
            c,
            total_supply,
        ) == ProposalState::Active,
{
}

/// The life cycle: only a succeeded proposal can be queued, and it is then
/// queued; only a queued proposal can be executed, and it is then executed.
pub proof fn law_queue_then_execute(p: Proposal, now: u64, c: GovernanceConfig, total_supply: i128)
    ensures
        ({
            let s = proposal_state(p, now, c, total_supply);
            s != ProposalState::Succeeded ==> (match GovernorContract::spec_queue(p, s) {
                Ok(_) => false,
                Err(e) => e == Error::InvalidState,
            })
        }),
        proposal_state(p, now, c, total_supply) == ProposalState::Succeeded ==> {
            let q = Proposal { queued: true, ..p };
            &&& proposal_state(q, now, c, total_supply) == ProposalState::Queued
            &&& proposal_state(Proposal { executed: true, ..q }, now, c, total_supply)
                == ProposalState::Executed
        },
{
}

/// A new proposal takes the next id and a voting window that starts no
/// earlier than now and ends no earlier than it starts; it has no votes.
pub proof fn law_new_proposals(
    c: GovernanceConfig,
    proposer: AccountId,
    balance: i128,
    latest_id: Option<u32>,
    now: u64,
)
    requires
        (match latest_id {
            Some(i) => i,
            None => 0,
        }) < u32::MAX,
        now + c.voting_delay + c.voting_period <= u64::MAX,
    ensures
        propose_result(c, proposer, balance, latest_id, now) matches Ok(p) ==> {
            &&& p.id == (match latest_id {
                Some(i) => i,
                None => 0,
            }) + 1
            &&& now <= p.start_time <= p.end_time
            &&& total_votes(p) == 0
            &&& proposal_state(p, now, c, 1) == if c.voting_delay > 0 {
                ProposalState::Pending
            } else {
                ProposalState::Active
            }
        },
        balance < c.proposal_threshold ==> propose_result(c, proposer, balance, latest_id, now) == Err::<
            Proposal,
            Error,
        >(Error::ProposalThresholdNotMet),
{
}

} // verus!
