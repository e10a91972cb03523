use vstd::prelude::*;

use crate::types::Error;
use crate::types::Event;
use crate::types::MemberView;
use crate::types::Origin;

verus! {

/// The abstract state of the registry: the configured name bound, the
/// store mapping each account id to its member record, and the log of
/// every notification emitted so far, oldest first.
pub ghost struct RegistryView {
    pub max_name_bytes: nat,
    pub members: Map<u64, MemberView>,
    pub events: Seq<Event>,
}

impl RegistryView {
    /// Well-formedness: every stored member is recorded under its own
    /// account id, and every stored name respects the configured bound.
    pub open spec fn wf(self) -> bool {
        forall|k: u64| #[trigger] self.members.contains_key(k) ==> self.members[k].id == k
            && self.members[k].name.len() <= self.max_name_bytes
    }
}

/// One AddMember step on the abstract state. The origin must be root and
/// the name must fit the configured bound; the member is then stored
/// under its account id, silently overwriting any previous entry, and
/// exactly one `MemberAdded` notification is appended. A failed call
/// leaves the state unchanged.
pub open spec fn spec_add_member(
    s: RegistryView,
    origin: Origin,
    account_id: u64,
    name: Seq<u8>,
) -> (RegistryView, Result<(), Error>) {
    if !origin.spec_is_root() {
        (s, Err(Error::BadOrigin))
    } else if name.len() > s.max_name_bytes {
        (s, Err(Error::NameTooLong))
    } else {
        (
            (RegistryView {
                members: s.members.insert(account_id, MemberView { id: account_id, name }),
                events: s.events.push(Event::MemberAdded { member: account_id }),
                ..s
            }),
            Ok(()),
        )
    }
}

/// One RemoveMember step on the abstract state. The origin must be root
/// and the account must be present; the entry is then deleted and exactly
/// one `MemberRemoved` notification is appended. A failed call leaves the
/// state unchanged.
pub open spec fn spec_remove_member(
    s: RegistryView,
    origin: Origin,
    account_id: u64,
) -> (RegistryView, Result<(), Error>) {
    if !origin.spec_is_root() {
        (s, Err(Error::BadOrigin))
    } else if !s.members.contains_key(account_id) {
        (s, Err(Error::MemberNotFound))
    } else {
        (
            (RegistryView {
                members: s.members.remove(account_id),
                events: s.events.push(Event::MemberRemoved { member: account_id }),
                ..s
            }),
            Ok(()),
        )
    }
}

} // verus!
