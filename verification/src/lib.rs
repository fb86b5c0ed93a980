//! Ledger state machine of a pooled-stake prediction-market platform.
//!
//! The crate covers market creation, bet placement, resolution through a
//! committee of approvers, reward claims, fee/burn accounting, a liquidity
//! pool ledger, and a points economy with redemption cooldowns.  Every
//! monetary computation is checked: overflow, underflow and division by
//! zero surface as errors instead of wrapping.
//!
//! The host environment (account storage, signatures, the fungible-token
//! service, the clock and the event sink) stays outside: operations take
//! the current time and any externally read balances as arguments, and
//! return the events and transfer amounts for the host to act on.  An
//! operation that fails leaves every entity exactly as it was.

use vstd::prelude::*;

pub mod access_control;
pub mod betting;
pub mod burn_events;
pub mod claims;
pub mod liquidity_pool;
pub mod market;
pub mod platform;
pub mod points;
pub mod resolution;
pub mod security_checks;

verus! {

/// Identity of an account-addressed entity: a user, a market, a mint,
/// a treasury.  The host hands these out; the ledger only compares them.
#[derive(Clone, Copy, PartialEq, Eq, Structural, Debug)]
pub struct AccountId(pub u64);

/// Linear membership test on a sequence of identities.
pub(crate) fn contains_account(accounts: &Vec<AccountId>, target: AccountId) -> (r: bool)
    ensures
        r == accounts@.contains(target),
{
    let mut i: usize = 0;
    while i < accounts.len()
        invariant
            i <= accounts@.len(),
            forall|k: int| 0 <= k < i ==> accounts@[k] != target,
        decreases accounts@.len() - i,
    {
        if accounts[i].0 == target.0 {
            return true;
        }
        i += 1;
    }
    false
}

} // verus!
