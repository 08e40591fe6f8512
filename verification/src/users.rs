//! Users as the directory lists them.

use vstd::prelude::*;

verus! {

/// The identifier of a user.
#[derive(Debug, Clone, Copy, PartialEq, Eq, Structural)]
pub struct UserId(pub u64);

/// A user of the system.
#[derive(Debug, Clone, PartialEq, Eq)]
pub struct User {
    pub id: UserId,
    pub name: String,
    pub email: String,
    pub created_at: String,
}

} // verus!
