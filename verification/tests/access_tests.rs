//! The creator allow-list: capacity, duplicates, removal and the
//! admin gate.

use market_system::AccountId;
use market_system::access_control::{
    add_market_creator, initialize_access_control, remove_market_creator, AccessControlError,
    MAX_CREATORS,
};

#[test]
fn allow_list_caps_at_thirty_two() {
    let mut access = initialize_access_control(AccountId(1));
    for i in 0..MAX_CREATORS as u64 {
        add_market_creator(&mut access, AccountId(1), AccountId(1000 + i))
            .expect("room in the allow-list");
    }
    assert_eq!(access.market_creators.len(), 32);

    // A full set rejects one more, distinctly from the duplicate case.
    let r = add_market_creator(&mut access, AccountId(1), AccountId(2000));
    assert_eq!(r, Err(AccessControlError::TooManyCreators));
    assert_eq!(access.market_creators.len(), 32);
}

#[test]
fn duplicates_fail_distinctly_from_the_full_set() {
    let mut access = initialize_access_control(AccountId(1));
    add_market_creator(&mut access, AccountId(1), AccountId(42)).expect("first insert");
    let r = add_market_creator(&mut access, AccountId(1), AccountId(42));
    assert_eq!(r, Err(AccessControlError::DuplicateCreator));
    assert_eq!(access.market_creators.len(), 1);
}

#[test]
fn removal_needs_a_present_creator_and_the_admin() {
    let mut access = initialize_access_control(AccountId(1));
    add_market_creator(&mut access, AccountId(1), AccountId(42)).expect("insert");
    add_market_creator(&mut access, AccountId(1), AccountId(43)).expect("insert");

    let r = remove_market_creator(&mut access, AccountId(2), AccountId(42));
    assert_eq!(r, Err(AccessControlError::Unauthorized));

    let r = remove_market_creator(&mut access, AccountId(1), AccountId(44));
    assert_eq!(r, Err(AccessControlError::NotFound));

    remove_market_creator(&mut access, AccountId(1), AccountId(42)).expect("present");
    assert_eq!(access.market_creators, vec![AccountId(43)]);

    let r = remove_market_creator(&mut access, AccountId(1), AccountId(42));
    assert_eq!(r, Err(AccessControlError::NotFound));
}
