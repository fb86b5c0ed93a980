//! The per-market pooled-stake ledger: the `Market` record, its
//! well-formedness invariant (the option pools always add up to the
//! total pool), market creation with full input validation, and the
//! per-market pause switch.

use vstd::prelude::*;

use crate::AccountId;
use crate::platform::PlatformState;
use crate::security_checks::MAX_TOTAL_POOL_SIZE;

verus! {

/// Lifecycle of a market.  `Paused` and `Expired` are carried for the
/// persisted layout; in this ledger pausing is the `is_paused` flag and
/// expiry is the derived predicate `spec_market_expired`.
#[derive(Clone, Copy, PartialEq, Eq, Structural, Debug)]
pub enum MarketStatus {
    Active,
    Paused,
    Resolved,
    Expired,
}

/// Re-entry lock around a market's external calls.  Set before the first
/// external call of an operation and cleared only when the operation is
/// done, so a nested re-entry is rejected.
#[derive(Clone, Copy, PartialEq, Eq, Structural, Debug)]
pub struct ReentrancyGuard {
    pub entered: bool,
}

/// Failure outcomes of the market state machine.
#[derive(Clone, Copy, PartialEq, Eq, Structural, Debug)]
pub enum PredictionMarketError {
    Unauthorized,
    UnauthorizedResolver,
    MarketNotActive,
    MarketAlreadyResolved,
    MarketNotResolved,
    MarketExpired,
    InvalidOptionIndex,
    NotAWinner,
    RewardAlreadyClaimed,
    InvalidResolutionProposal,
    ProposalExpired,
    AlreadyApproved,
    ReentrancyDetected,
    InvalidQuestionLength,
    InvalidOptionsCount,
    InvalidOptionLength,
    InvalidEndTimestamp,
    InvalidCategoryLength,
    InsufficientCreatorStake,
    PlatformPaused,
    MarketPaused,
    BetTooSmall,
    BetTooLarge,
    PoolOverflow,
    DivisionByZero,
    CalculationError,
    TransferFailed,
}

/// A prediction market: the question, its options, the per-option stake
/// pools and the resolution state.
pub struct Market {
    /// Address of this market, assigned by the host at creation.
    pub key: AccountId,
    pub creator: AccountId,
    pub question: String,
    /// Between 2 and 10 options, each 1 to 50 characters.
    pub options: Vec<String>,
    pub category: String,
    /// Timestamp after which (plus a grace buffer) no bets are taken.
    pub resolution_date: i64,
    pub status: MarketStatus,
    /// Stake pooled on each option; parallel to `options`.
    pub pools: Vec<u64>,
    /// Always the sum of `pools`.
    pub total_pool: u64,
    pub creator_stake: u64,
    /// The winning option index; present exactly when resolved.
    pub winning_option: Option<u8>,
    pub is_paused: bool,
    pub reentrancy_guard: ReentrancyGuard,
}

/// One user's accumulated position on one market.
pub struct Prediction {
    pub user: AccountId,
    /// The market this position belongs to.
    pub market: AccountId,
    /// The option the whole position sits on.
    pub option_index: u8,
    /// Net stake (after burn) accumulated on that option.
    pub net_amount: u64,
    /// Whether the reward for this position has been paid out.
    pub claimed: bool,
}

/// Sum of a sequence of pool balances, as an unbounded integer.
pub open spec fn pool_sum(pools: Seq<u64>) -> int
    decreases pools.len(),
{
    if pools.len() == 0 {
        0
    } else {
        pool_sum(pools.drop_last()) + pools.last()
    }
}

/// A pool sum is never negative.
pub proof fn lemma_pool_sum_nonneg(pools: Seq<u64>)
    ensures
        pool_sum(pools) >= 0,
    decreases pools.len(),
{
    if pools.len() > 0 {
        lemma_pool_sum_nonneg(pools.drop_last());
    }
}

/// Replacing one pool balance moves the sum by exactly the difference.
pub proof fn lemma_pool_sum_update(pools: Seq<u64>, i: int, v: u64)
    requires
        0 <= i < pools.len(),
    ensures
        pool_sum(pools.update(i, v)) == pool_sum(pools) - pools[i] + v,
    decreases pools.len(),
{
    let updated = pools.update(i, v);
    if i == pools.len() - 1 {
        assert(updated.drop_last() =~= pools.drop_last());
    } else {
        assert(updated.drop_last() =~= pools.drop_last().update(i, v));
        lemma_pool_sum_update(pools.drop_last(), i, v);
        assert(updated.last() == pools.last());
    }
}

/// Each pool balance is at most the sum of all of them.
pub proof fn lemma_pool_le_sum(pools: Seq<u64>, i: int)
    requires
        0 <= i < pools.len(),
    ensures
        pools[i] <= pool_sum(pools),
    decreases pools.len(),
{
    if i == pools.len() - 1 {
        lemma_pool_sum_nonneg(pools.drop_last());
    } else {
        lemma_pool_le_sum(pools.drop_last(), i);
    }
}

impl Market {
    /// The ledger invariant of a market: well-shaped text fields, pools
    /// parallel to options and adding up to `total_pool`, the total
    /// within the global cap, and the winning option present exactly
    /// when the market is resolved.
    pub open spec fn wf(self) -> bool {
        &&& 2 <= self.options@.len() <= 10
        &&& self.pools@.len() == self.options@.len()
        &&& forall|i: int|
            0 <= i < self.options@.len() ==> 1 <= (#[trigger] self.options@[i])@.len() <= 50
        &&& 1 <= self.question@.len() <= 200
        &&& 1 <= self.category@.len() <= 50
        &&& pool_sum(self.pools@) == self.total_pool
        &&& self.total_pool <= MAX_TOTAL_POOL_SIZE
        &&& (self.winning_option is Some <==> self.status is Resolved)
        &&& (self.winning_option matches Some(w) ==> (w as int) < self.options@.len())
    }

    /// Whether the market takes bets, status-wise.
    pub open spec fn is_active(self) -> bool {
        self.status is Active
    }

    /// Whether the market has been resolved.
    pub open spec fn is_resolved(self) -> bool {
        self.status is Resolved
    }
}

impl Default for ReentrancyGuard {
    /// A fresh guard is not entered.
    fn default() -> (r: Self)
        ensures
            !r.entered,
    {
        ReentrancyGuard { entered: false }
    }
}

impl ReentrancyGuard {
    /// Takes the lock; a second take before `exit` is the re-entry this
    /// guard exists to reject.
    pub fn enter(&mut self) -> (r: Result<(), PredictionMarketError>)
        ensures
            r is Ok <==> !old(self).entered,
            r is Err ==> r->Err_0 == PredictionMarketError::ReentrancyDetected && *final(self)
                == *old(self),
            r is Ok ==> final(self).entered,
    {
        if self.entered {
            return Err(PredictionMarketError::ReentrancyDetected);
        }
        self.entered = true;
        Ok(())
    }

    /// Releases the lock.
    pub fn exit(&mut self)
        ensures
            !final(self).entered,
    {
        self.entered = false;
    }
}

/// Grace buffer past the resolution date, in seconds, during which bets
/// are still taken despite minor timestamp drift.
pub const TIME_BUFFER: i64 = 300;

/// Whether `current_time` is past the market's resolution date plus the
/// grace buffer.
pub open spec fn spec_market_expired(market: Market, current_time: i64) -> bool {
    current_time > market.resolution_date + TIME_BUFFER
}

/// Expiry as bet placement sees it: strictly after the resolution date
/// plus a buffer that absorbs minor timestamp manipulation.
pub fn is_market_expired(market: &Market, current_time: i64) -> (r: bool)
    ensures
        r == spec_market_expired(*market, current_time),
{
    match market.resolution_date.checked_add(TIME_BUFFER) {
        Some(deadline) => current_time > deadline,
        None => false,
    }
}

/// Record of a market creation, for the event sink.
#[derive(PartialEq, Eq, Debug)]
pub struct MarketCreated {
    pub market: AccountId,
    pub creator: AccountId,
    pub question: String,
    pub options: Vec<String>,
    pub category: String,
    pub end_timestamp: i64,
    pub creator_stake: u64,
}

/// Record of a market resolution, for the event sink.
#[derive(Clone, Copy, PartialEq, Eq, Structural, Debug)]
pub struct MarketResolved {
    pub market: AccountId,
    pub resolver: AccountId,
    pub winning_option: u8,
    pub resolution_time: i64,
}

/// Record of a placed prediction, for the event sink.
#[derive(Clone, Copy, PartialEq, Eq, Structural, Debug)]
pub struct PredictionPlaced {
    pub user: AccountId,
    pub market: AccountId,
    pub option_index: u8,
    pub amount: u64,
    pub net_amount: u64,
    pub burn_amount: u64,
}

/// Record of a paid-out reward, for the event sink.
#[derive(Clone, Copy, PartialEq, Eq, Structural, Debug)]
pub struct RewardClaimed {
    pub user: AccountId,
    pub market: AccountId,
    pub amount: u64,
    pub net_amount: u64,
    pub burn_amount: u64,
}

/// Record of a market being paused, for the event sink.
#[derive(Clone, Copy, PartialEq, Eq, Structural, Debug)]
pub struct MarketPaused {
    pub market: AccountId,
    pub admin: AccountId,
    pub timestamp: i64,
}

/// Record of a market being unpaused, for the event sink.
#[derive(Clone, Copy, PartialEq, Eq, Structural, Debug)]
pub struct MarketUnpaused {
    pub market: AccountId,
    pub admin: AccountId,
    pub timestamp: i64,
}

/// Clones a list of option labels, text preserved exactly.
fn clone_options(options: &Vec<String>) -> (r: Vec<String>)
    ensures
        r@ == options@,
{
    let mut out: Vec<String> = Vec::new();
    let mut i: usize = 0;
    while i < options.len()
        invariant
            i <= options@.len(),
            out@ =~= options@.subrange(0, i as int),
        decreases options@.len() - i,
    {
        out.push(options[i].clone());
        assert(out@ =~= options@.subrange(0, i + 1 as int));
        i += 1;
    }
    assert(out@ =~= options@);
    out
}

/// Longest allowed question, in characters.
pub const MAX_QUESTION_LEN: usize = 200;

/// Longest allowed option label and category, in characters.
pub const MAX_LABEL_LEN: usize = 50;

/// Fewest and most options a market may carry.
pub const MIN_OPTIONS: usize = 2;

/// Most options a market may carry.
pub const MAX_OPTIONS: usize = 10;

/// Farthest a market may end in the future: one year in seconds.
pub const MAX_END_HORIZON: i64 = 31536000;

/// Smallest stake a creator must put up: 100 tokens with 6 decimals.
pub const MIN_CREATOR_STAKE: u64 = 100 * 1_000_000;

/// The first rejection a `create_market` call runs into, if any.
pub open spec fn create_market_check(
    access: crate::access_control::AccessControl,
    creator: AccountId,
    question: Seq<char>,
    options: Seq<String>,
    category: Seq<char>,
    end_timestamp: i64,
    creator_stake: u64,
    now: i64,
) -> Option<PredictionMarketError> {
    if question.len() == 0 || question.len() > MAX_QUESTION_LEN {
        Some(PredictionMarketError::InvalidQuestionLength)
    } else if options.len() < MIN_OPTIONS || options.len() > MAX_OPTIONS {
        Some(PredictionMarketError::InvalidOptionsCount)
    } else if exists|i: int|
        0 <= i < options.len() && !(1 <= (#[trigger] options[i])@.len() <= MAX_LABEL_LEN) {
        Some(PredictionMarketError::InvalidOptionLength)
    } else if !(now < end_timestamp <= now + MAX_END_HORIZON) {
        Some(PredictionMarketError::InvalidEndTimestamp)
    } else if category.len() == 0 || category.len() > MAX_LABEL_LEN {
        Some(PredictionMarketError::InvalidCategoryLength)
    } else if creator_stake < MIN_CREATOR_STAKE {
        Some(PredictionMarketError::InsufficientCreatorStake)
    } else if !access.is_creator(creator) {
        Some(PredictionMarketError::Unauthorized)
    } else {
        None
    }
}

/// Creates a market after validating every input: question, option count
/// and labels, end timestamp within one year, category, minimum creator
/// stake, and the creator's place on the allow-list.  The new market is
/// active, unpaused, with every pool at zero.
pub fn create_market(
    access: &crate::access_control::AccessControl,
    market_key: AccountId,
    creator: AccountId,
    question: String,
    options: Vec<String>,
    category: String,
    end_timestamp: i64,
    creator_stake: u64,
    now: i64,
) -> (r: Result<(Market, MarketCreated), PredictionMarketError>)
    ensures
        r is Ok <==> create_market_check(
            *access,
            creator,
            question@,
            options@,
            category@,
            end_timestamp,
            creator_stake,
            now,
        ) is None,
        create_market_check(
            *access,
            creator,
            question@,
            options@,
            category@,
            end_timestamp,
            creator_stake,
            now,
        ) matches Some(e) ==> r == Err::<(Market, MarketCreated), PredictionMarketError>(e),
        r matches Ok((market, event)) ==> {
            &&& market.wf()
            &&& market.key == market_key
            &&& market.creator == creator
            &&& market.question@ == question@
            &&& market.options@ == options@
            &&& market.category@ == category@
            &&& market.resolution_date == end_timestamp
            &&& market.status is Active
            &&& market.pools@.len() == options@.len()
            &&& forall|i: int| 0 <= i < market.pools@.len() ==> market.pools@[i] == 0
            &&& market.total_pool == 0
            &&& market.creator_stake == creator_stake
            &&& market.winning_option is None
            &&& !market.is_paused
            &&& !market.reentrancy_guard.entered
            &&& event.market == market_key
            &&& event.creator == creator
            &&& event.question@ == question@
            &&& event.options@ == options@
            &&& event.category@ == category@
            &&& event.end_timestamp == end_timestamp
            &&& event.creator_stake == creator_stake
        },
{
    let question_len = question.as_str().unicode_len();
    if question_len == 0 || question_len > MAX_QUESTION_LEN {
        return Err(PredictionMarketError::InvalidQuestionLength);
    }
    if options.len() < MIN_OPTIONS || options.len() > MAX_OPTIONS {
        return Err(PredictionMarketError::InvalidOptionsCount);
    }
    let mut i: usize = 0;
    while i < options.len()
        invariant
            i <= options@.len(),
            1 <= question@.len() <= MAX_QUESTION_LEN,
            MIN_OPTIONS <= options@.len() <= MAX_OPTIONS,
            forall|k: int| 0 <= k < i ==> 1 <= (#[trigger] options@[k])@.len() <= MAX_LABEL_LEN,
        decreases options@.len() - i,
    {
        let label_len = options[i].as_str().unicode_len();
        if label_len == 0 || label_len > MAX_LABEL_LEN {
            proof {
                assert(0 <= i < options@.len() && !(1 <= (options@[i as int])@.len()
                    <= MAX_LABEL_LEN));
            }
            return Err(PredictionMarketError::InvalidOptionLength);
        }
        i += 1;
    }
    let horizon = now.checked_add(MAX_END_HORIZON);
    let in_window = match horizon {
        Some(limit) => end_timestamp > now && end_timestamp <= limit,
        None => end_timestamp > now,
    };
    if !in_window {
        return Err(PredictionMarketError::InvalidEndTimestamp);
    }
    let category_len = category.as_str().unicode_len();
    if category_len == 0 || category_len > MAX_LABEL_LEN {
        return Err(PredictionMarketError::InvalidCategoryLength);
    }
    if creator_stake < MIN_CREATOR_STAKE {
        return Err(PredictionMarketError::InsufficientCreatorStake);
    }
    if !crate::contains_account(&access.market_creators, creator) {
        return Err(PredictionMarketError::Unauthorized);
    }
    let mut pools: Vec<u64> = Vec::new();
    let mut j: usize = 0;
    while j < options.len()
        invariant
            j <= options@.len(),
            pools@.len() == j,
            forall|k: int| 0 <= k < j ==> pools@[k] == 0,
            pool_sum(pools@) == 0,
        decreases options@.len() - j,
    {
        let ghost before = pools@;
        pools.push(0);
        proof {
            assert(pools@.drop_last() =~= before);
        }
        j += 1;
    }
    let event = MarketCreated {
        market: market_key,
        creator,
        question: question.clone(),
        options: clone_options(&options),
        category: category.clone(),
        end_timestamp,
        creator_stake,
    };
    let market = Market {
        key: market_key,
        creator,
        question,
        options,
        category,
        resolution_date: end_timestamp,
        status: MarketStatus::Active,
        pools,
        total_pool: 0,
        creator_stake,
        winning_option: None,
        is_paused: false,
        reentrancy_guard: ReentrancyGuard::default(),
    };
    Ok((market, event))
}

/// Pauses one market.  Only the platform authority may call; only the
/// pause flag changes.
pub fn pause_market(
    market: &mut Market,
    platform_state: &PlatformState,
    admin: AccountId,
    now: i64,
) -> (r: Result<MarketPaused, PredictionMarketError>)
    ensures
        r is Ok <==> admin == platform_state.authority,
        r is Err ==> r->Err_0 == PredictionMarketError::Unauthorized && *final(market) == *old(
            market,
        ),
        r is Ok ==> *final(market) == (Market { is_paused: true, ..*old(market) }),
        r matches Ok(event) ==> event == (MarketPaused {
            market: old(market).key,
            admin,
            timestamp: now,
        }),
{
    if !platform_state.is_admin(admin) {
        return Err(PredictionMarketError::Unauthorized);
    }
    market.is_paused = true;
    Ok(MarketPaused { market: market.key, admin, timestamp: now })
}

/// Unpauses one market.  Only the platform authority may call; only the
/// pause flag changes.
pub fn unpause_market(
    market: &mut Market,
    platform_state: &PlatformState,
    admin: AccountId,
    now: i64,
) -> (r: Result<MarketUnpaused, PredictionMarketError>)
    ensures
        r is Ok <==> admin == platform_state.authority,
        r is Err ==> r->Err_0 == PredictionMarketError::Unauthorized && *final(market) == *old(
            market,
        ),
        r is Ok ==> *final(market) == (Market { is_paused: false, ..*old(market) }),
        r matches Ok(event) ==> event == (MarketUnpaused {
            market: old(market).key,
            admin,
            timestamp: now,
        }),
{
    if !platform_state.is_admin(admin) {
        return Err(PredictionMarketError::Unauthorized);
    }
    market.is_paused = false;
    Ok(MarketUnpaused { market: market.key, admin, timestamp: now })
}

} // verus!
