use std::collections::HashMap;
use vstd::prelude::*;

use crate::model::spec_add_member;
use crate::model::spec_remove_member;
use crate::model::RegistryView;
use crate::types::Config;
use crate::types::Error;
use crate::types::Event;
use crate::types::Member;
use crate::types::MemberView;
use crate::types::Origin;

verus! {

/// The membership registry. It owns the store (account id to member
/// record) and the log of emitted notifications; the configured name
/// bound is fixed at construction.
pub struct Pallet {
    config: Config,
    members: HashMap<u64, Member>,
    events: Vec<Event>,
}

impl View for Pallet {
    type V = RegistryView;

    closed spec fn view(&self) -> RegistryView {
        RegistryView {
            max_name_bytes: self.config.max_bytes_in_member_name as nat,
            members: self.members@.map_values(|m: Member| m@),
            events: self.events@,
        }
    }
}

impl Pallet {
    /// An empty registry under the given configuration.
    pub fn new(config: Config) -> (r: Pallet)
        ensures
            r@.wf(),
            r@.max_name_bytes == config.max_bytes_in_member_name as nat,
            r@.members == Map::<u64, MemberView>::empty(),
            r@.events == Seq::<Event>::empty(),
    {
        let r = Pallet { config, members: HashMap::new(), events: Vec::new() };
        proof {
            assert(r@.members =~= Map::<u64, MemberView>::empty());
        }
        r
    }

    /// Add a member: the root authority stores `member_name` under
    /// `member_account_id`, silently overwriting any existing entry, and
    /// one `MemberAdded` notification is emitted. A non-root origin or a
    /// name over the configured bound is rejected with the registry
    /// unchanged.
    pub fn add_member(
        &mut self,
        origin: Origin,
        member_account_id: u64,
        member_name: Vec<u8>,
    ) -> (r: Result<(), Error>)
        requires
            old(self)@.wf(),
        ensures
            final(self)@.wf(),
            (final(self)@, r) == spec_add_member(
                old(self)@,
                origin,
                member_account_id,
                member_name@,
            ),
    {
        if !origin.is_root() {
            return Err(Error::BadOrigin);
        }
        if member_name.len() > self.config.max_bytes_in_member_name as usize {
            return Err(Error::NameTooLong);
        }
        self.do_add_member(member_account_id, member_name)
    }

    /// Remove a member: the root authority deletes the entry stored under
    /// `member_account_id` and one `MemberRemoved` notification is
    /// emitted. A non-root origin or an absent account is rejected with
    /// the registry unchanged.
    pub fn remove_member(&mut self, origin: Origin, member_account_id: u64) -> (r: Result<
        (),
        Error,
    >)
        requires
            old(self)@.wf(),
        ensures
            final(self)@.wf(),
            (final(self)@, r) == spec_remove_member(old(self)@, origin, member_account_id),
    {
        if !origin.is_root() {
            return Err(Error::BadOrigin);
        }
        self.do_remove_member(member_account_id)
    }

    /// Store a member record under its account id, overwriting any
    /// previous entry, then emit the `MemberAdded` notification.
    fn do_add_member(&mut self, member_account_id: u64, member_name: Vec<u8>) -> (r: Result<
        (),
        Error,
    >)
        requires
            member_name@.len() <= old(self)@.max_name_bytes,
        ensures
            r == Ok::<(), Error>(()),
            final(self)@.max_name_bytes == old(self)@.max_name_bytes,
            final(self)@.members == old(self)@.members.insert(
                member_account_id,
                MemberView { id: member_account_id, name: member_name@ },
            ),
            final(self)@.events == old(self)@.events.push(
                Event::MemberAdded { member: member_account_id },
            ),
    {
        let ghost old_members = self.members@;
        let new_member = Member { id: member_account_id, name: member_name };
        self.members.insert(member_account_id, new_member);
        proof {
            assert(self.members@.map_values(|m: Member| m@) =~= old_members.map_values(
                |m: Member| m@,
            ).insert(member_account_id, new_member@));
        }
        self.deposit_event(Event::MemberAdded { member: member_account_id });
        Ok(())
    }

    /// Delete the entry stored under the given account id, then emit the
    /// `MemberRemoved` notification; fail with `MemberNotFound`, touching
    /// nothing, when no such entry exists.
    fn do_remove_member(&mut self, member_account_id: u64) -> (r: Result<(), Error>)
        ensures
            old(self)@.members.contains_key(member_account_id) ==> {
                &&& r == Ok::<(), Error>(())
                &&& final(self)@.max_name_bytes == old(self)@.max_name_bytes
                &&& final(self)@.members == old(self)@.members.remove(member_account_id)
                &&& final(self)@.events == old(self)@.events.push(
                    Event::MemberRemoved { member: member_account_id },
                )
            },
            !old(self)@.members.contains_key(member_account_id) ==> {
                &&& r == Err::<(), Error>(Error::MemberNotFound)
                &&& final(self)@ == old(self)@
            },
    {
        if !self.members.contains_key(&member_account_id) {
            return Err(Error::MemberNotFound);
        }

        let ghost old_members = self.members@;
        self.members.remove(&member_account_id);
        proof {
            assert(self.members@.map_values(|m: Member| m@) =~= old_members.map_values(
                |m: Member| m@,
            ).remove(member_account_id));
        }
        self.deposit_event(Event::MemberRemoved { member: member_account_id });
        Ok(())
    }

    /// Append one notification to the event log; the store and the
    /// configuration are untouched.
    fn deposit_event(&mut self, event: Event)
        ensures
            final(self)@ == (RegistryView { events: old(self)@.events.push(event), ..old(self)@ }),
    {
        self.events.push(event);
    }

    /// Whether an entry is currently stored under `account_id`.
    pub fn is_member(&self, account_id: u64) -> (r: bool)
        ensures
            r == self@.members.contains_key(account_id),
    {
        self.members.contains_key(&account_id)
    }

    /// The member record stored under `account_id`, if any.
    pub fn member(&self, account_id: u64) -> (r: Option<&Member>)
        ensures
            match r {
                Some(m) => self@.members.contains_key(account_id) && m@ == self@.members[
                    account_id
                ],
                None => !self@.members.contains_key(account_id),
            },
    {
        self.members.get(&account_id)
    }

    /// How many members are currently stored.
    pub fn member_count(&self) -> (r: usize)
        ensures
            r as nat == self@.members.len(),
    {
        proof {
            assert(self@.members.dom() =~= self.members@.dom());
        }
        self.members.len()
    }

    /// Every notification emitted so far, oldest first.
    pub fn events(&self) -> (r: &Vec<Event>)
        ensures
            r@ == self@.events,
    {
        &self.events
    }
}

} // verus!
