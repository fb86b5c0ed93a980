//! Committee-gated resolution: proposals, idempotent approvals,
//! expiry, and the one-shot resolve transition.

use market_system::AccountId;
use market_system::market::{Market, MarketStatus, PredictionMarketError, ReentrancyGuard};
use market_system::platform::PlatformState;
use market_system::resolution::{
    approve_resolution, propose_resolution, resolve_market, ResolutionProposal,
};

fn platform() -> PlatformState {
    PlatformState {
        authority: AccountId(1),
        token_mint: AccountId(2),
        treasury: AccountId(3),
        bet_burn_rate: 250,
        claim_burn_rate: 150,
        platform_fee_rate: 100,
        total_burned: 0,
        total_volume: 0,
        is_paused: false,
        resolution_committee: vec![AccountId(10), AccountId(11), AccountId(12)],
    }
}

fn active_market() -> Market {
    Market {
        key: AccountId(100),
        creator: AccountId(5),
        question: "q?".to_string(),
        options: vec!["yes".to_string(), "no".to_string()],
        category: "c".to_string(),
        resolution_date: 10_000,
        status: MarketStatus::Active,
        pools: vec![300, 700],
        total_pool: 1000,
        creator_stake: 100_000_000,
        winning_option: None,
        is_paused: false,
        reentrancy_guard: ReentrancyGuard { entered: false },
    }
}

#[test]
fn proposals_come_from_committee_members_only() {
    let ps = platform();
    let r = propose_resolution(&ps, AccountId(99), AccountId(100), 0, 2, 20_000);
    assert_eq!(r.err(), Some(PredictionMarketError::UnauthorizedResolver));

    let proposal = propose_resolution(&ps, AccountId(10), AccountId(100), 0, 2, 20_000)
        .expect("member proposes");
    assert_eq!(proposal.market, AccountId(100));
    assert_eq!(proposal.proposed_outcome, 0);
    assert!(proposal.approvals.is_empty());
    assert_eq!(proposal.required_approvals, 2);
    assert_eq!(proposal.expiry_time, 20_000);
    assert!(!proposal.is_approved());
}

#[test]
fn approvals_count_each_member_once() {
    let ps = platform();
    let mut proposal = propose_resolution(&ps, AccountId(10), AccountId(100), 0, 2, 20_000)
        .expect("member proposes");

    let r = approve_resolution(&mut proposal, &ps, AccountId(99), 1_000);
    assert_eq!(r, Err(PredictionMarketError::Unauthorized));

    approve_resolution(&mut proposal, &ps, AccountId(10), 1_000).expect("first approval");
    let r = approve_resolution(&mut proposal, &ps, AccountId(10), 1_100);
    assert_eq!(r, Err(PredictionMarketError::AlreadyApproved));
    assert_eq!(proposal.approvals.len(), 1);
    assert!(!proposal.is_approved());

    approve_resolution(&mut proposal, &ps, AccountId(11), 1_200).expect("second approval");
    assert!(proposal.is_approved());

    let r = approve_resolution(&mut proposal, &ps, AccountId(12), 20_001);
    assert_eq!(r, Err(PredictionMarketError::ProposalExpired));
    assert_eq!(proposal.approvals.len(), 2);
}

#[test]
fn resolve_needs_an_approved_live_matching_proposal() {
    let ps = platform();
    let mut market = active_market();
    let mut proposal = propose_resolution(&ps, AccountId(10), AccountId(100), 0, 2, 20_000)
        .expect("member proposes");
    approve_resolution(&mut proposal, &ps, AccountId(10), 1_000).expect("first approval");

    // Not enough approvals yet.
    let r = resolve_market(&mut market, &ps, &proposal, AccountId(10), 0, 1_500);
    assert_eq!(r.err(), Some(PredictionMarketError::InvalidResolutionProposal));

    approve_resolution(&mut proposal, &ps, AccountId(11), 1_200).expect("second approval");

    // The proposal must reference the market at hand.
    let foreign = ResolutionProposal {
        market: AccountId(200),
        proposed_outcome: 0,
        approvals: vec![AccountId(10), AccountId(11)],
        required_approvals: 2,
        expiry_time: 20_000,
    };
    let r = resolve_market(&mut market, &ps, &foreign, AccountId(10), 0, 1_500);
    assert_eq!(r.err(), Some(PredictionMarketError::InvalidResolutionProposal));

    // The outcome applied must be the outcome proposed.
    let r = resolve_market(&mut market, &ps, &proposal, AccountId(10), 1, 1_500);
    assert_eq!(r.err(), Some(PredictionMarketError::InvalidResolutionProposal));

    // An expired proposal resolves nothing.
    let r = resolve_market(&mut market, &ps, &proposal, AccountId(10), 0, 20_001);
    assert_eq!(r.err(), Some(PredictionMarketError::ProposalExpired));

    let event = resolve_market(&mut market, &ps, &proposal, AccountId(10), 0, 1_500)
        .expect("approved, live, matching");
    assert_eq!(market.status, MarketStatus::Resolved);
    assert_eq!(market.winning_option, Some(0));
    assert_eq!(event.market, AccountId(100));
    assert_eq!(event.resolver, AccountId(10));
    assert_eq!(event.winning_option, 0);
    assert_eq!(event.resolution_time, 1_500);

    // A market resolves once.
    let r = resolve_market(&mut market, &ps, &proposal, AccountId(10), 0, 1_600);
    assert_eq!(r.err(), Some(PredictionMarketError::MarketAlreadyResolved));
    assert_eq!(market.winning_option, Some(0));
}
