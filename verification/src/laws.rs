use vstd::prelude::*;

use crate::model::spec_add_member;
use crate::model::spec_remove_member;
use crate::model::RegistryView;
use crate::types::Error;
use crate::types::Event;
use crate::types::Origin;

verus! {

/// Idempotent overwrite: adding twice under the same account id succeeds
/// both times, and the second name wins.
pub proof fn lemma_idempotent_overwrite(
    s: RegistryView,
    account_id: u64,
    name1: Seq<u8>,
    name2: Seq<u8>,
)
    requires
        name1.len() <= s.max_name_bytes,
        name2.len() <= s.max_name_bytes,
    ensures
        ({
            let s1 = spec_add_member(s, Origin::Root, account_id, name1).0;
            let r1 = spec_add_member(s, Origin::Root, account_id, name1).1;
            let s2 = spec_add_member(s1, Origin::Root, account_id, name2).0;
            let r2 = spec_add_member(s1, Origin::Root, account_id, name2).1;
            &&& r1 == Ok::<(), Error>(())
            &&& r2 == Ok::<(), Error>(())
            &&& s2.members.contains_key(account_id)
            &&& s2.members[account_id].name == name2
        }),
{
}

/// Removing an account that is not present fails with `MemberNotFound`
/// and leaves the whole state — store and event log — unchanged.
pub proof fn lemma_remove_absent_unchanged(s: RegistryView, account_id: u64)
    requires
        !s.members.contains_key(account_id),
    ensures
        spec_remove_member(s, Origin::Root, account_id) == (
            (s, Err::<(), Error>(Error::MemberNotFound))
        ),
{
}

/// Add/remove round trip: adding a valid member and then removing it
/// succeeds on both calls, after which the account is absent.
pub proof fn lemma_add_remove_round_trip(s: RegistryView, account_id: u64, name: Seq<u8>)
    requires
        name.len() <= s.max_name_bytes,
    ensures
        ({
            let s1 = spec_add_member(s, Origin::Root, account_id, name).0;
            let r1 = spec_add_member(s, Origin::Root, account_id, name).1;
            let s2 = spec_remove_member(s1, Origin::Root, account_id).0;
            let r2 = spec_remove_member(s1, Origin::Root, account_id).1;
            &&& r1 == Ok::<(), Error>(())
            &&& r2 == Ok::<(), Error>(())
            &&& !s2.members.contains_key(account_id)
        }),
{
}

/// Bound enforcement: a name over the configured bound is rejected,
/// whatever the origin, with the state unchanged; for the root authority
/// the error is precisely `NameTooLong`.
pub proof fn lemma_bound_enforcement(
    s: RegistryView,
    origin: Origin,
    account_id: u64,
    name: Seq<u8>,
)
    requires
        name.len() > s.max_name_bytes,
    ensures
        spec_add_member(s, origin, account_id, name).0 == s,
        spec_add_member(s, origin, account_id, name).1 is Err,
        origin.spec_is_root() ==> spec_add_member(s, origin, account_id, name).1 == Err::<
            (),
            Error,
        >(Error::NameTooLong),
{
}

/// Authorization gate: a non-root origin is rejected with `BadOrigin` by
/// both operations, with the state unchanged.
pub proof fn lemma_authorization_gate(
    s: RegistryView,
    origin: Origin,
    account_id: u64,
    name: Seq<u8>,
)
    requires
        !origin.spec_is_root(),
    ensures
        spec_add_member(s, origin, account_id, name) == ((s, Err::<(), Error>(Error::BadOrigin))),
        spec_remove_member(s, origin, account_id) == ((s, Err::<(), Error>(Error::BadOrigin))),
{
}

/// Notification correctness: a successful AddMember appends exactly one
/// `MemberAdded` for that account, a successful RemoveMember exactly one
/// `MemberRemoved`, and a failed call appends nothing.
pub proof fn lemma_notification_correctness(
    s: RegistryView,
    origin: Origin,
    account_id: u64,
    name: Seq<u8>,
)
    ensures
        ({
            let s1 = spec_add_member(s, origin, account_id, name).0;
            let r1 = spec_add_member(s, origin, account_id, name).1;
            &&& r1 is Ok ==> s1.events == s.events.push(Event::MemberAdded { member: account_id })
            &&& r1 is Err ==> s1.events == s.events
        }),
        ({
            let s1 = spec_remove_member(s, origin, account_id).0;
            let r1 = spec_remove_member(s, origin, account_id).1;
            &&& r1 is Ok ==> s1.events == s.events.push(
                Event::MemberRemoved { member: account_id },
            )
            &&& r1 is Err ==> s1.events == s.events
        }),
{
}

} // verus!
