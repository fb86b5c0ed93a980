//! The points economy: a non-transferable loyalty token with minting
//! against platform activity and redemptions gated by a minimum amount,
//! a per-user cooldown and the user's balance.  The actual token mint
//! and burn are the host's job; this module keeps the accounting and
//! builds the audit records.

use vstd::prelude::*;

use crate::AccountId;
use crate::security_checks::safe_add;

verus! {

/// Failure outcomes of the points operations.
#[derive(Clone, Copy, PartialEq, Eq, Structural, Debug)]
pub enum PointsError {
    InvalidAmount,
    ActivityTypeTooLong,
    BelowMinimumRedemption,
    CooldownNotMet,
    InsufficientBalance,
    InvalidTwitterId,
    InvalidTwitterUsername,
    TwitterAlreadyLinked,
    /// A counter would overflow; surfaced, never wrapped.
    ArithmeticError,
}

/// The points singleton: configuration plus system-wide counters.
pub struct PointsSystem {
    pub authority: AccountId,
    pub mint: AccountId,
    pub redemption_contract: AccountId,
    /// Endpoint of the off-chain settlement service, up to 200 chars.
    pub believe_app_endpoint: String,
    pub min_redemption_amount: u64,
    /// Seconds a user must wait between redemptions.
    pub cooldown_period: i64,
    pub total_minted: u64,
    pub total_redeemed: u64,
}

/// Per-user points statistics.
pub struct UserPointsStats {
    pub user: AccountId,
    pub total_earned: u64,
    pub total_redeemed: u64,
    pub last_earned_at: i64,
    /// Set after the first redemption; drives the cooldown.
    pub last_redeemed_at: Option<i64>,
}

/// Per-user profile carrying the one-time external identity binding.
pub struct UserProfile {
    pub wallet: AccountId,
    pub twitter_id: Option<String>,
    pub twitter_username: Option<String>,
    pub twitter_linked_at: Option<i64>,
    pub twitter_followers: Option<u32>,
}

/// Lifecycle of a redemption, advanced only by the off-chain
/// settlement callback.
#[derive(Clone, Copy, PartialEq, Eq, Structural, Debug)]
pub enum RedemptionStatus {
    Pending,
    Processing,
    Completed,
    Failed,
}

/// One redemption in the append-only audit trail.
pub struct RedemptionRecord {
    pub user: AccountId,
    pub amount: u64,
    pub timestamp: i64,
    pub status: RedemptionStatus,
    /// Request id the settlement service assigns, once it has.
    pub believe_app_request_id: Option<String>,
}

/// Configuration handed to `initialize_points_system`.
pub struct InitializeParams {
    pub redemption_contract: AccountId,
    pub believe_app_endpoint: String,
    pub min_redemption_amount: u64,
    pub cooldown_period: i64,
}

/// Record of minted points, for the event sink.
#[derive(PartialEq, Eq, Debug)]
pub struct PointsMinted {
    pub user: AccountId,
    pub amount: u64,
    pub activity_type: String,
    pub timestamp: i64,
}

/// Record of redeemed points, for the event sink.
#[derive(Clone, Copy, PartialEq, Eq, Structural, Debug)]
pub struct PointsRedeemed {
    pub user: AccountId,
    pub amount: u64,
    pub redemption_id: AccountId,
    pub timestamp: i64,
}

/// Record of an external identity binding, for the event sink.
#[derive(PartialEq, Eq, Debug)]
pub struct TwitterLinked {
    pub user: AccountId,
    pub twitter_id: String,
    pub twitter_username: String,
    pub timestamp: i64,
}

/// Sets up the points system with zeroed counters.
pub fn initialize_points_system(
    authority: AccountId,
    mint: AccountId,
    params: InitializeParams,
) -> (r: PointsSystem)
    ensures
        r.authority == authority,
        r.mint == mint,
        r.redemption_contract == params.redemption_contract,
        r.believe_app_endpoint@ == params.believe_app_endpoint@,
        r.min_redemption_amount == params.min_redemption_amount,
        r.cooldown_period == params.cooldown_period,
        r.total_minted == 0,
        r.total_redeemed == 0,
{
    PointsSystem {
        authority,
        mint: mint,
        redemption_contract: params.redemption_contract,
        believe_app_endpoint: params.believe_app_endpoint,
        min_redemption_amount: params.min_redemption_amount,
        cooldown_period: params.cooldown_period,
        total_minted: 0,
        total_redeemed: 0,
    }
}

/// Longest allowed activity label, in characters.
pub const MAX_ACTIVITY_TYPE_LEN: usize = 50;

/// Longest allowed external identity fields, in characters.
pub const MAX_TWITTER_FIELD_LEN: usize = 50;

/// The first rejection a `mint_points` call runs into, if any.
pub open spec fn mint_points_check(
    system: PointsSystem,
    stats: UserPointsStats,
    amount: u64,
    activity_type: Seq<char>,
) -> Option<PointsError> {
    if amount == 0 {
        Some(PointsError::InvalidAmount)
    } else if activity_type.len() > MAX_ACTIVITY_TYPE_LEN {
        Some(PointsError::ActivityTypeTooLong)
    } else if system.total_minted + amount > u64::MAX {
        Some(PointsError::ArithmeticError)
    } else if stats.total_earned + amount > u64::MAX {
        Some(PointsError::ArithmeticError)
    } else {
        None
    }
}

/// Credits `amount` points to a user: the system and user totals grow
/// by exactly the amount, the earn timestamp moves to `now`, and the
/// event carries the activity label.  The host mints the actual tokens
/// and only the authority reaches this operation.  Zero amounts and
/// over-long labels are rejected; a failed call changes nothing.
pub fn mint_points(
    points_system: &mut PointsSystem,
    user_stats: &mut UserPointsStats,
    user: AccountId,
    amount: u64,
    activity_type: String,
    now: i64,
) -> (r: Result<PointsMinted, PointsError>)
    ensures
        r is Ok <==> mint_points_check(
            *old(points_system),
            *old(user_stats),
            amount,
            activity_type@,
        ) is None,
        mint_points_check(*old(points_system), *old(user_stats), amount, activity_type@)
            matches Some(e) ==> r == Err::<PointsMinted, PointsError>(e),
        r is Err ==> *final(points_system) == *old(points_system) && *final(user_stats) == *old(
            user_stats,
        ),
        r is Ok ==> *final(points_system) == (PointsSystem {
            total_minted: (old(points_system).total_minted + amount) as u64,
            ..*old(points_system)
        }),
        r is Ok ==> *final(user_stats) == (UserPointsStats {
            total_earned: (old(user_stats).total_earned + amount) as u64,
            last_earned_at: now,
            ..*old(user_stats)
        }),
        r matches Ok(event) ==> event.user == user && event.amount == amount
            && event.activity_type@ == activity_type@ && event.timestamp == now,
{
    if amount == 0 {
        return Err(PointsError::InvalidAmount);
    }
    if activity_type.as_str().unicode_len() > MAX_ACTIVITY_TYPE_LEN {
        return Err(PointsError::ActivityTypeTooLong);
    }
    let new_minted = match safe_add(points_system.total_minted, amount) {
        Ok(v) => v,
        Err(_) => {
            return Err(PointsError::ArithmeticError);
        },
    };
    let new_earned = match safe_add(user_stats.total_earned, amount) {
        Ok(v) => v,
        Err(_) => {
            return Err(PointsError::ArithmeticError);
        },
    };
    points_system.total_minted = new_minted;
    user_stats.total_earned = new_earned;
    user_stats.last_earned_at = now;
    Ok(PointsMinted { user, amount, activity_type, timestamp: now })
}

/// The first rejection a `redeem_points` call runs into, if any.
/// `balance` is the user's token balance as the host read it.
pub open spec fn redeem_points_check(
    system: PointsSystem,
    stats: UserPointsStats,
    amount: u64,
    balance: u64,
    now: i64,
) -> Option<PointsError> {
    if amount < system.min_redemption_amount {
        Some(PointsError::BelowMinimumRedemption)
    } else if stats.last_redeemed_at matches Some(last) && now - last < system.cooldown_period {
        Some(PointsError::CooldownNotMet)
    } else if balance < amount {
        Some(PointsError::InsufficientBalance)
    } else if system.total_redeemed + amount > u64::MAX {
        Some(PointsError::ArithmeticError)
    } else if stats.total_redeemed + amount > u64::MAX {
        Some(PointsError::ArithmeticError)
    } else {
        None
    }
}

/// Redeems `amount` points: gated by the configured minimum, by the
/// cooldown since the user's previous redemption, and by the balance
/// the host read; on success the totals grow by exactly the amount,
/// the cooldown restarts at `now`, and a `Pending` audit record is
/// appended for the off-chain settlement service.  The host burns the
/// actual tokens.  A failed call changes nothing.
pub fn redeem_points(
    points_system: &mut PointsSystem,
    user_stats: &mut UserPointsStats,
    user: AccountId,
    amount: u64,
    balance: u64,
    redemption_id: AccountId,
    now: i64,
) -> (r: Result<(RedemptionRecord, PointsRedeemed), PointsError>)
    ensures
        r is Ok <==> redeem_points_check(
            *old(points_system),
            *old(user_stats),
            amount,
            balance,
            now,
        ) is None,
        redeem_points_check(*old(points_system), *old(user_stats), amount, balance, now)
            matches Some(e) ==> r == Err::<(RedemptionRecord, PointsRedeemed), PointsError>(e),
        r is Err ==> *final(points_system) == *old(points_system) && *final(user_stats) == *old(
            user_stats,
        ),
        r is Ok ==> *final(points_system) == (PointsSystem {
            total_redeemed: (old(points_system).total_redeemed + amount) as u64,
            ..*old(points_system)
        }),
        r is Ok ==> *final(user_stats) == (UserPointsStats {
            total_redeemed: (old(user_stats).total_redeemed + amount) as u64,
            last_redeemed_at: Some(now),
            ..*old(user_stats)
        }),
        r matches Ok((record, event)) ==> {
            &&& record.user == user
            &&& record.amount == amount
            &&& record.timestamp == now
            &&& record.status == RedemptionStatus::Pending
            &&& record.believe_app_request_id is None
            &&& event == (PointsRedeemed { user, amount, redemption_id, timestamp: now })
        },
{
    if amount < points_system.min_redemption_amount {
        return Err(PointsError::BelowMinimumRedemption);
    }
    let cooldown_blocks = match user_stats.last_redeemed_at {
        Some(last) => match now.checked_sub(last) {
            Some(elapsed) => elapsed < points_system.cooldown_period,
            None => now < last,
        },
        None => false,
    };
    if cooldown_blocks {
        return Err(PointsError::CooldownNotMet);
    }
    if balance < amount {
        return Err(PointsError::InsufficientBalance);
    }
    let new_system_redeemed = match safe_add(points_system.total_redeemed, amount) {
        Ok(v) => v,
        Err(_) => {
            return Err(PointsError::ArithmeticError);
        },
    };
    let new_user_redeemed = match safe_add(user_stats.total_redeemed, amount) {
        Ok(v) => v,
        Err(_) => {
            return Err(PointsError::ArithmeticError);
        },
    };
    points_system.total_redeemed = new_system_redeemed;
    user_stats.total_redeemed = new_user_redeemed;
    user_stats.last_redeemed_at = Some(now);
    let record = RedemptionRecord {
        user,
        amount,
        timestamp: now,
        status: RedemptionStatus::Pending,
        believe_app_request_id: None,
    };
    let event = PointsRedeemed { user, amount, redemption_id, timestamp: now };
    Ok((record, event))
}

/// The first rejection a `link_twitter_account` call runs into, if any.
pub open spec fn link_twitter_check(
    profile: UserProfile,
    twitter_id: Seq<char>,
    twitter_username: Seq<char>,
) -> Option<PointsError> {
    if twitter_id.len() > MAX_TWITTER_FIELD_LEN {
        Some(PointsError::InvalidTwitterId)
    } else if twitter_username.len() > MAX_TWITTER_FIELD_LEN {
        Some(PointsError::InvalidTwitterUsername)
    } else if profile.twitter_id is Some {
        Some(PointsError::TwitterAlreadyLinked)
    } else {
        None
    }
}

/// Binds an external identity to a wallet, once: a profile that already
/// carries a binding rejects any further one.  A failed call changes
/// nothing.
pub fn link_twitter_account(
    user_profile: &mut UserProfile,
    user: AccountId,
    twitter_id: String,
    twitter_username: String,
    now: i64,
) -> (r: Result<TwitterLinked, PointsError>)
    ensures
        r is Ok <==> link_twitter_check(*old(user_profile), twitter_id@, twitter_username@)
            is None,
        link_twitter_check(*old(user_profile), twitter_id@, twitter_username@) matches Some(e)
            ==> r == Err::<TwitterLinked, PointsError>(e),
        r is Err ==> *final(user_profile) == *old(user_profile),
        r is Ok ==> {
            &&& final(user_profile).wallet == user
            &&& final(user_profile).twitter_id == Some(twitter_id)
            &&& final(user_profile).twitter_username == Some(twitter_username)
            &&& final(user_profile).twitter_linked_at == Some(now)
            &&& final(user_profile).twitter_followers == old(user_profile).twitter_followers
        },
        r matches Ok(event) ==> event.user == user && event.twitter_id@ == twitter_id@
            && event.twitter_username@ == twitter_username@ && event.timestamp == now,
{
    if twitter_id.as_str().unicode_len() > MAX_TWITTER_FIELD_LEN {
        return Err(PointsError::InvalidTwitterId);
    }
    if twitter_username.as_str().unicode_len() > MAX_TWITTER_FIELD_LEN {
        return Err(PointsError::InvalidTwitterUsername);
    }
    if user_profile.twitter_id.is_some() {
        return Err(PointsError::TwitterAlreadyLinked);
    }
    user_profile.wallet = user;
    user_profile.twitter_id = Some(twitter_id.clone());
    user_profile.twitter_username = Some(twitter_username.clone());
    user_profile.twitter_linked_at = Some(now);
    Ok(TwitterLinked { user, twitter_id, twitter_username, timestamp: now })
}

/// Redemptions respect the cooldown: once a redemption has stamped
/// `last_redeemed_at`, a second attempt for at least the minimum amount
/// is rejected with exactly `CooldownNotMet` while the cooldown still
/// runs, and goes through once it has elapsed, given sufficient balance
/// and counters with room for the amount.
pub proof fn lemma_redemption_cooldown(
    system: PointsSystem,
    stats: UserPointsStats,
    first_time: i64,
    amount: u64,
    balance: u64,
    second_time: i64,
)
    requires
        stats.last_redeemed_at == Some(first_time),
        amount >= system.min_redemption_amount,
    ensures
        second_time - first_time < system.cooldown_period ==> redeem_points_check(
            system,
            stats,
            amount,
            balance,
            second_time,
        ) == Some(PointsError::CooldownNotMet),
        second_time - first_time >= system.cooldown_period && balance >= amount
            && system.total_redeemed + amount <= u64::MAX && stats.total_redeemed + amount
            <= u64::MAX ==> redeem_points_check(system, stats, amount, balance, second_time)
            is None,
{
}

} // verus!
