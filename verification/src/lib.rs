//! A minimal membership registry: a root authority may add or remove
//! members, each identified by an account id and carrying a display name
//! bounded by a configured maximum length. Adding overwrites any existing
//! entry for the same account; removing an absent account fails with
//! `MemberNotFound`. Every successful mutation emits exactly one
//! notification event; failed calls change nothing and emit nothing.

pub mod laws;
pub mod model;
pub mod registry;
pub mod types;

pub use registry::Pallet;
pub use types::Config;
pub use types::Error;
pub use types::Event;
pub use types::Member;
pub use types::Origin;
