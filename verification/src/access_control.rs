//! Admin identity plus a bounded allow-list of market creators.

use vstd::prelude::*;

use crate::AccountId;

verus! {

/// Failure outcomes of the creator allow-list operations.
#[derive(Clone, Copy, PartialEq, Eq, Structural, Debug)]
pub enum AccessControlError {
    Unauthorized,
    TooManyCreators,
    DuplicateCreator,
    NotFound,
}

/// The admin and the set of identities allowed to create markets,
/// kept as a duplicate-free sequence of at most `MAX_CREATORS` entries.
pub struct AccessControl {
    pub admin: AccountId,
    pub market_creators: Vec<AccountId>,
}

/// Hard capacity of the creator allow-list.
pub const MAX_CREATORS: usize = 32;

impl AccessControl {
    /// The allow-list holds no duplicates and at most `MAX_CREATORS` entries.
    pub open spec fn wf(self) -> bool {
        &&& self.market_creators@.len() <= MAX_CREATORS
        &&& forall|i: int, j: int|
            0 <= i < j < self.market_creators@.len() ==> self.market_creators@[i]
                != self.market_creators@[j]
    }

    /// Whether `who` may create markets.
    pub open spec fn is_creator(self, who: AccountId) -> bool {
        self.market_creators@.contains(who)
    }
}

/// Looks `target` up in the allow-list; the returned index is the first hit.
fn find_creator(creators: &Vec<AccountId>, target: AccountId) -> (r: Option<usize>)
    ensures
        r matches Some(i) ==> i < creators@.len() && creators@[i as int] == target,
        r is None ==> !creators@.contains(target),
{
    let mut i: usize = 0;
    while i < creators.len()
        invariant
            i <= creators@.len(),
            forall|k: int| 0 <= k < i ==> creators@[k] != target,
        decreases creators@.len() - i,
    {
        if creators[i].0 == target.0 {
            return Some(i);
        }
        i += 1;
    }
    None
}

/// Sets up access control with `admin` in charge and no creators yet.
pub fn initialize_access_control(admin: AccountId) -> (r: AccessControl)
    ensures
        r.admin == admin,
        r.market_creators@ =~= Seq::<AccountId>::empty(),
        r.wf(),
{
    AccessControl { admin, market_creators: Vec::new() }
}

/// Adds `new_creator` to the allow-list.  Only the admin may call; a full
/// list and a duplicate entry fail distinctly; otherwise the identity is
/// appended and everything else stays as it was.
pub fn add_market_creator(
    access_control: &mut AccessControl,
    caller: AccountId,
    new_creator: AccountId,
) -> (r: Result<(), AccessControlError>)
    requires
        old(access_control).wf(),
    ensures
        final(access_control).wf(),
        final(access_control).admin == old(access_control).admin,
        caller != old(access_control).admin ==> r == Err::<(), AccessControlError>(
            AccessControlError::Unauthorized,
        ),
        caller == old(access_control).admin && old(access_control).market_creators@.len()
            >= MAX_CREATORS ==> r == Err::<(), AccessControlError>(
            AccessControlError::TooManyCreators,
        ),
        caller == old(access_control).admin && old(access_control).market_creators@.len()
            < MAX_CREATORS && old(access_control).is_creator(new_creator) ==> r == Err::<
            (),
            AccessControlError,
        >(AccessControlError::DuplicateCreator),
        r is Ok <==> caller == old(access_control).admin && old(
            access_control,
        ).market_creators@.len() < MAX_CREATORS && !old(access_control).is_creator(new_creator),
        r is Ok ==> final(access_control).market_creators@ =~= old(
            access_control,
        ).market_creators@.push(new_creator),
        r is Ok ==> final(access_control).is_creator(new_creator),
        r is Ok ==> forall|who: AccountId|
            who != new_creator ==> (final(access_control).is_creator(who) <==> old(
                access_control,
            ).is_creator(who)),
        r is Err ==> *final(access_control) == *old(access_control),
{
    if caller.0 != access_control.admin.0 {
        return Err(AccessControlError::Unauthorized);
    }
    if access_control.market_creators.len() >= MAX_CREATORS {
        return Err(AccessControlError::TooManyCreators);
    }
    if find_creator(&access_control.market_creators, new_creator).is_some() {
        return Err(AccessControlError::DuplicateCreator);
    }
    let ghost before = access_control.market_creators@;
    access_control.market_creators.push(new_creator);
    proof {
        lemma_push_membership(before, new_creator);
    }
    Ok(())
}

/// Appending an element adds exactly that element's membership: the
/// new element is in, and nothing else changes.
proof fn lemma_push_membership(s: Seq<AccountId>, target: AccountId)
    ensures
        s.push(target).contains(target),
        forall|who: AccountId| who != target ==> (s.push(target).contains(who) <==> s.contains(who)),
{
    let t = s.push(target);
    assert(t[s.len() as int] == target);
    assert forall|who: AccountId| who != target && s.contains(who) implies t.contains(who) by {
        let k = choose|k: int| 0 <= k < s.len() && s[k] == who;
        assert(t[k] == who);
    }
    assert forall|who: AccountId| who != target && t.contains(who) implies s.contains(who) by {
        let k = choose|k: int| 0 <= k < t.len() && t[k] == who;
        assert(s[k] == who);
    }
}

/// Removes `creator` from the allow-list.  Only the admin may call; an
/// absent identity fails with `NotFound`; otherwise exactly that identity
/// leaves the list.
pub fn remove_market_creator(
    access_control: &mut AccessControl,
    caller: AccountId,
    creator: AccountId,
) -> (r: Result<(), AccessControlError>)
    requires
        old(access_control).wf(),
    ensures
        final(access_control).wf(),
        final(access_control).admin == old(access_control).admin,
        caller != old(access_control).admin ==> r == Err::<(), AccessControlError>(
            AccessControlError::Unauthorized,
        ),
        caller == old(access_control).admin && !old(access_control).is_creator(creator) ==> r
            == Err::<(), AccessControlError>(AccessControlError::NotFound),
        r is Ok <==> caller == old(access_control).admin && old(access_control).is_creator(
            creator,
        ),
        r is Ok ==> !final(access_control).is_creator(creator),
        r is Ok ==> final(access_control).market_creators@.len() == old(
            access_control,
        ).market_creators@.len() - 1,
        r is Ok ==> forall|who: AccountId|
            who != creator ==> (final(access_control).is_creator(who) <==> old(
                access_control,
            ).is_creator(who)),
        r is Err ==> *final(access_control) == *old(access_control),
{
    if caller.0 != access_control.admin.0 {
        return Err(AccessControlError::Unauthorized);
    }
    match find_creator(&access_control.market_creators, creator) {
        Some(index) => {
            let ghost before = access_control.market_creators@;
            access_control.market_creators.remove(index);
            proof {
                lemma_remove_membership(before, index as int, creator);
            }
            Ok(())
        },
        None => Err(AccessControlError::NotFound),
    }
}

/// Removing index `i` from a duplicate-free sequence removes exactly the
/// element that stood there: no other membership changes.
proof fn lemma_remove_membership(s: Seq<AccountId>, i: int, target: AccountId)
    requires
        0 <= i < s.len(),
        s[i] == target,
        forall|p: int, q: int| 0 <= p < q < s.len() ==> s[p] != s[q],
    ensures
        !s.remove(i).contains(target),
        forall|who: AccountId| who != target ==> (s.remove(i).contains(who) <==> s.contains(who)),
        forall|p: int, q: int| 0 <= p < q < s.remove(i).len() ==> s.remove(i)[p] != s.remove(i)[q],
{
    let t = s.remove(i);
    assert forall|k: int| 0 <= k < t.len() implies t[k] != target by {
        if k < i {
            assert(t[k] == s[k]);
        } else {
            assert(t[k] == s[k + 1]);
        }
    }
    assert forall|who: AccountId| who != target && s.contains(who) implies t.contains(who) by {
        let k = choose|k: int| 0 <= k < s.len() && s[k] == who;
        if k < i {
            assert(t[k] == who);
        } else {
            assert(t[k - 1] == who);
        }
    }
    assert forall|who: AccountId| who != target && t.contains(who) implies s.contains(who) by {
        let k = choose|k: int| 0 <= k < t.len() && t[k] == who;
        if k < i {
            assert(s[k] == who);
        } else {
            assert(s[k + 1] == who);
        }
    }
}

} // verus!
