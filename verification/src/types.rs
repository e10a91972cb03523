use vstd::prelude::*;

verus! {

/// Configuration injected by the host: the maximum number of bytes a
/// member name may hold.
#[derive(Clone, Copy, Debug)]
pub struct Config {
    pub max_bytes_in_member_name: u32,
}

/// The provenance of a call: the root authority, a signed account, or an
/// unsigned call. Only the root authority may mutate the registry.
#[derive(Clone, Copy, Debug, PartialEq, Eq, Structural)]
pub enum Origin {
    Root,
    Signed(u64),
    Unsigned,
}

impl Origin {
    /// Whether this origin is the root authority.
    pub open spec fn spec_is_root(self) -> bool {
        self is Root
    }

    /// The authorization gate: only a `Root` origin passes.
    pub fn is_root(&self) -> (r: bool)
        ensures
            r == self.spec_is_root(),
    {
        match self {
            Origin::Root => true,
            Origin::Signed(_) => false,
            Origin::Unsigned => false,
        }
    }
}

/// One registered member: the account id it is stored under and its
/// bounded display name.
#[derive(Clone, Debug, PartialEq, Eq)]
pub struct Member {
    pub id: u64,
    pub name: Vec<u8>,
}

/// The abstract value of a `Member`.
pub ghost struct MemberView {
    pub id: u64,
    pub name: Seq<u8>,
}

impl View for Member {
    type V = MemberView;

    open spec fn view(&self) -> MemberView {
        MemberView { id: self.id, name: self.name@ }
    }
}

/// Notifications emitted after a successful mutation commits.
#[derive(Clone, Copy, Debug, PartialEq, Eq, Structural)]
pub enum Event {
    MemberAdded { member: u64 },
    MemberRemoved { member: u64 },
}

/// Everything a call can fail with: the caller is not the root authority,
/// the proposed name exceeds the configured bound, or the member to
/// remove does not exist. A failed call never changes the registry.
#[derive(Clone, Copy, Debug, PartialEq, Eq, Structural)]
pub enum Error {
    BadOrigin,
    NameTooLong,
    MemberNotFound,
}

} // verus!
