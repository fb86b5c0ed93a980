//! The points economy: minting, redemption gates (minimum, cooldown,
//! balance), the audit record, and the one-time identity binding.

use market_system::AccountId;
use market_system::points::{
    initialize_points_system, link_twitter_account, mint_points, redeem_points, InitializeParams,
    PointsError, PointsSystem, RedemptionStatus, UserPointsStats, UserProfile,
};

fn points_system() -> PointsSystem {
    initialize_points_system(
        AccountId(1),
        AccountId(2),
        InitializeParams {
            redemption_contract: AccountId(3),
            believe_app_endpoint: "points endpoint".to_string(),
            min_redemption_amount: 100,
            cooldown_period: 3600,
        },
    )
}

fn fresh_stats(user: AccountId) -> UserPointsStats {
    UserPointsStats {
        user,
        total_earned: 0,
        total_redeemed: 0,
        last_earned_at: 0,
        last_redeemed_at: None,
    }
}

fn fresh_profile(wallet: AccountId) -> UserProfile {
    UserProfile {
        wallet,
        twitter_id: None,
        twitter_username: None,
        twitter_linked_at: None,
        twitter_followers: None,
    }
}

#[test]
fn initialize_zeroes_the_counters() {
    let system = points_system();
    assert_eq!(system.authority, AccountId(1));
    assert_eq!(system.mint, AccountId(2));
    assert_eq!(system.min_redemption_amount, 100);
    assert_eq!(system.cooldown_period, 3600);
    assert_eq!(system.total_minted, 0);
    assert_eq!(system.total_redeemed, 0);
}

#[test]
fn mint_validates_amount_and_label() {
    let mut system = points_system();
    let mut stats = fresh_stats(AccountId(7));

    let r = mint_points(&mut system, &mut stats, AccountId(7), 0, "bet".to_string(), 1_000);
    assert_eq!(r.err(), Some(PointsError::InvalidAmount));

    let long_label: String = "a".repeat(51);
    let r = mint_points(&mut system, &mut stats, AccountId(7), 10, long_label, 1_000);
    assert_eq!(r.err(), Some(PointsError::ActivityTypeTooLong));
    assert_eq!(system.total_minted, 0);
    assert_eq!(stats.total_earned, 0);

    let event = mint_points(&mut system, &mut stats, AccountId(7), 10, "bet".to_string(), 1_000)
        .expect("valid mint");
    assert_eq!(system.total_minted, 10);
    assert_eq!(stats.total_earned, 10);
    assert_eq!(stats.last_earned_at, 1_000);
    assert_eq!(event.user, AccountId(7));
    assert_eq!(event.amount, 10);
    assert_eq!(event.activity_type, "bet".to_string());
    assert_eq!(event.timestamp, 1_000);
}

#[test]
fn mint_surfaces_counter_overflow() {
    let mut system = points_system();
    system.total_minted = u64::MAX;
    let mut stats = fresh_stats(AccountId(7));
    let r = mint_points(&mut system, &mut stats, AccountId(7), 1, "bet".to_string(), 1_000);
    assert_eq!(r.err(), Some(PointsError::ArithmeticError));
    assert_eq!(system.total_minted, u64::MAX);
    assert_eq!(stats.total_earned, 0);
}

#[test]
fn redeem_respects_minimum_cooldown_and_balance() {
    let mut system = points_system();
    let mut stats = fresh_stats(AccountId(7));

    let r = redeem_points(&mut system, &mut stats, AccountId(7), 99, 500, AccountId(50), 10_000);
    assert_eq!(r.err(), Some(PointsError::BelowMinimumRedemption));

    let r = redeem_points(&mut system, &mut stats, AccountId(7), 200, 150, AccountId(50), 10_000);
    assert_eq!(r.err(), Some(PointsError::InsufficientBalance));
    assert_eq!(system.total_redeemed, 0);
    assert_eq!(stats.last_redeemed_at, None);

    let (record, event) =
        redeem_points(&mut system, &mut stats, AccountId(7), 200, 500, AccountId(50), 10_000)
            .expect("first redemption passes");
    assert_eq!(system.total_redeemed, 200);
    assert_eq!(stats.total_redeemed, 200);
    assert_eq!(stats.last_redeemed_at, Some(10_000));
    assert_eq!(record.user, AccountId(7));
    assert_eq!(record.amount, 200);
    assert_eq!(record.timestamp, 10_000);
    assert_eq!(record.status, RedemptionStatus::Pending);
    assert_eq!(record.believe_app_request_id, None);
    assert_eq!(event.redemption_id, AccountId(50));

    // A second call 1800 s later sits inside the 3600 s cooldown.
    let r = redeem_points(&mut system, &mut stats, AccountId(7), 200, 500, AccountId(51), 11_800);
    assert_eq!(r.err(), Some(PointsError::CooldownNotMet));
    assert_eq!(system.total_redeemed, 200);

    // 3601 s later the cooldown has elapsed.
    let (record, _) =
        redeem_points(&mut system, &mut stats, AccountId(7), 200, 300, AccountId(51), 13_601)
            .expect("cooldown elapsed");
    assert_eq!(record.timestamp, 13_601);
    assert_eq!(system.total_redeemed, 400);
    assert_eq!(stats.total_redeemed, 400);
    assert_eq!(stats.last_redeemed_at, Some(13_601));
}

#[test]
fn link_twitter_binds_once() {
    let mut profile = fresh_profile(AccountId(7));

    let long_id: String = "i".repeat(51);
    let r = link_twitter_account(&mut profile, AccountId(7), long_id, "name".to_string(), 1_000);
    assert_eq!(r.err(), Some(PointsError::InvalidTwitterId));

    let long_name: String = "n".repeat(51);
    let r = link_twitter_account(&mut profile, AccountId(7), "id".to_string(), long_name, 1_000);
    assert_eq!(r.err(), Some(PointsError::InvalidTwitterUsername));
    assert_eq!(profile.twitter_id, None);

    let event = link_twitter_account(
        &mut profile,
        AccountId(7),
        "id".to_string(),
        "name".to_string(),
        1_000,
    )
    .expect("first binding");
    assert_eq!(profile.wallet, AccountId(7));
    assert_eq!(profile.twitter_id, Some("id".to_string()));
    assert_eq!(profile.twitter_username, Some("name".to_string()));
    assert_eq!(profile.twitter_linked_at, Some(1_000));
    assert_eq!(event.twitter_id, "id".to_string());
    assert_eq!(event.timestamp, 1_000);

    let r = link_twitter_account(
        &mut profile,
        AccountId(7),
        "other".to_string(),
        "other".to_string(),
        2_000,
    );
    assert_eq!(r.err(), Some(PointsError::TwitterAlreadyLinked));
    assert_eq!(profile.twitter_id, Some("id".to_string()));
}
