//! Committee-gated market resolution: proposals, approvals and the
//! resolve transition itself.
//!
//! A proposal names a market, an outcome and an expiry; committee
//! members approve it at most once each.  A market resolves only
//! against a proposal that gathered enough approvals, has not expired,
//! and carries the very outcome being applied.

use vstd::prelude::*;

use crate::AccountId;
use crate::contains_account;
use crate::market::{Market, MarketResolved, MarketStatus, PredictionMarketError};
use crate::platform::PlatformState;

verus! {

/// An open proposal to resolve one market on one outcome.
pub struct ResolutionProposal {
    /// The market this proposal is about.
    pub market: AccountId,
    pub proposed_outcome: u8,
    /// Committee members that approved, each at most once.
    pub approvals: Vec<AccountId>,
    pub required_approvals: u8,
    /// Last timestamp at which the proposal may still be acted on.
    pub expiry_time: i64,
}

impl ResolutionProposal {
    /// The approvals hold no duplicates and only committee members of
    /// the given platform.
    pub open spec fn wf(self, ps: PlatformState) -> bool {
        &&& forall|i: int, j: int|
            0 <= i < j < self.approvals@.len() ==> self.approvals@[i] != self.approvals@[j]
        &&& forall|i: int|
            0 <= i < self.approvals@.len() ==> ps.resolution_committee@.contains(
                #[trigger] self.approvals@[i],
            )
    }

    /// Whether enough committee members have approved.
    pub fn is_approved(&self) -> (r: bool)
        ensures
            r == (self.approvals@.len() >= self.required_approvals),
    {
        self.approvals.len() >= self.required_approvals as usize
    }

    /// Whether the proposal can no longer be acted on.
    pub fn is_expired(&self, current_time: i64) -> (r: bool)
        ensures
            r == (current_time > self.expiry_time),
    {
        current_time > self.expiry_time
    }
}

/// Opens a proposal to resolve `market` on `proposed_outcome`.  Only a
/// committee member may propose; the fresh proposal starts with no
/// approvals and supersedes any earlier proposal the host still holds
/// for the same unresolved market.
pub fn propose_resolution(
    platform_state: &PlatformState,
    proposer: AccountId,
    market: AccountId,
    proposed_outcome: u8,
    required_approvals: u8,
    expiry_time: i64,
) -> (r: Result<ResolutionProposal, PredictionMarketError>)
    ensures
        r is Ok <==> platform_state.resolution_committee@.contains(proposer),
        r is Err ==> r->Err_0 == PredictionMarketError::UnauthorizedResolver,
        r matches Ok(proposal) ==> {
            &&& proposal.market == market
            &&& proposal.proposed_outcome == proposed_outcome
            &&& proposal.approvals@ =~= Seq::<AccountId>::empty()
            &&& proposal.required_approvals == required_approvals
            &&& proposal.expiry_time == expiry_time
            &&& proposal.wf(*platform_state)
        },
{
    if !platform_state.is_resolution_committee_member(proposer) {
        return Err(PredictionMarketError::UnauthorizedResolver);
    }
    Ok(
        ResolutionProposal {
            market,
            proposed_outcome,
            approvals: Vec::new(),
            required_approvals,
            expiry_time,
        },
    )
}

/// The first rejection an `approve_resolution` call runs into, if any.
pub open spec fn approve_resolution_check(
    proposal: ResolutionProposal,
    ps: PlatformState,
    member: AccountId,
    now: i64,
) -> Option<PredictionMarketError> {
    if !ps.resolution_committee@.contains(member) {
        Some(PredictionMarketError::Unauthorized)
    } else if now > proposal.expiry_time {
        Some(PredictionMarketError::ProposalExpired)
    } else if proposal.approvals@.contains(member) {
        Some(PredictionMarketError::AlreadyApproved)
    } else {
        None
    }
}

/// Records one committee member's approval.  Non-members are rejected,
/// an expired proposal takes no approvals, and a member counts at most
/// once: approving twice fails instead of double-counting.
pub fn approve_resolution(
    proposal: &mut ResolutionProposal,
    platform_state: &PlatformState,
    member: AccountId,
    now: i64,
) -> (r: Result<(), PredictionMarketError>)
    requires
        old(proposal).wf(*platform_state),
    ensures
        final(proposal).wf(*platform_state),
        r is Ok <==> approve_resolution_check(*old(proposal), *platform_state, member, now)
            is None,
        approve_resolution_check(*old(proposal), *platform_state, member, now) matches Some(e)
            ==> r == Err::<(), PredictionMarketError>(e),
        r is Err ==> *final(proposal) == *old(proposal),
        r is Ok ==> *final(proposal) == (ResolutionProposal {
            approvals: final(proposal).approvals,
            ..*old(proposal)
        }) && final(proposal).approvals@ == old(proposal).approvals@.push(member),
{
    if !platform_state.is_resolution_committee_member(member) {
        return Err(PredictionMarketError::Unauthorized);
    }
    if now > proposal.expiry_time {
        return Err(PredictionMarketError::ProposalExpired);
    }
    if contains_account(&proposal.approvals, member) {
        return Err(PredictionMarketError::AlreadyApproved);
    }
    proposal.approvals.push(member);
    Ok(())
}

/// The first rejection a `resolve_market` call runs into, if any.
pub open spec fn resolve_market_check(
    market: Market,
    ps: PlatformState,
    proposal: ResolutionProposal,
    resolver: AccountId,
    winning_option: u8,
    now: i64,
) -> Option<PredictionMarketError> {
    if !ps.resolution_committee@.contains(resolver) {
        Some(PredictionMarketError::UnauthorizedResolver)
    } else if proposal.market != market.key {
        Some(PredictionMarketError::InvalidResolutionProposal)
    } else if market.is_resolved() {
        Some(PredictionMarketError::MarketAlreadyResolved)
    } else if now > proposal.expiry_time {
        Some(PredictionMarketError::ProposalExpired)
    } else if proposal.approvals@.len() < proposal.required_approvals {
        Some(PredictionMarketError::InvalidResolutionProposal)
    } else if proposal.proposed_outcome != winning_option {
        Some(PredictionMarketError::InvalidResolutionProposal)
    } else if winning_option as int >= market.options@.len() {
        Some(PredictionMarketError::InvalidOptionIndex)
    } else {
        None
    }
}

/// Resolves a market on `winning_option`.  The resolver must sit on the
/// committee, and the proposal must reference this market, still be
/// alive, carry enough approvals, and propose exactly this outcome.  A
/// market resolves once: a second attempt fails
/// `MarketAlreadyResolved`.  On success only the status and the winning
/// option change; the pools stay exactly as the bets left them.
pub fn resolve_market(
    market: &mut Market,
    platform_state: &PlatformState,
    proposal: &ResolutionProposal,
    resolver: AccountId,
    winning_option: u8,
    now: i64,
) -> (r: Result<MarketResolved, PredictionMarketError>)
    requires
        old(market).wf(),
    ensures
        final(market).wf(),
        r is Ok <==> resolve_market_check(
            *old(market),
            *platform_state,
            *proposal,
            resolver,
            winning_option,
            now,
        ) is None,
        resolve_market_check(
            *old(market),
            *platform_state,
            *proposal,
            resolver,
            winning_option,
            now,
        ) matches Some(e) ==> r == Err::<MarketResolved, PredictionMarketError>(e),
        r is Err ==> *final(market) == *old(market),
        r is Ok ==> *final(market) == (Market {
            status: MarketStatus::Resolved,
            winning_option: Some(winning_option),
            ..*old(market)
        }),
        r matches Ok(event) ==> event == (MarketResolved {
            market: old(market).key,
            resolver,
            winning_option,
            resolution_time: now,
        }),
{
    if !platform_state.is_resolution_committee_member(resolver) {
        return Err(PredictionMarketError::UnauthorizedResolver);
    }
    if proposal.market.0 != market.key.0 {
        return Err(PredictionMarketError::InvalidResolutionProposal);
    }
    if market.status == MarketStatus::Resolved {
        return Err(PredictionMarketError::MarketAlreadyResolved);
    }
    if proposal.is_expired(now) {
        return Err(PredictionMarketError::ProposalExpired);
    }
    if !proposal.is_approved() {
        return Err(PredictionMarketError::InvalidResolutionProposal);
    }
    if proposal.proposed_outcome != winning_option {
        return Err(PredictionMarketError::InvalidResolutionProposal);
    }
    if winning_option as usize >= market.options.len() {
        return Err(PredictionMarketError::InvalidOptionIndex);
    }
    market.status = MarketStatus::Resolved;
    market.winning_option = Some(winning_option);
    Ok(MarketResolved { market: market.key, resolver, winning_option, resolution_time: now })
}

} // verus!
