//! Role router: maps an identity's security level to the logical data-store
//! partition that every downstream operation must use. This is the single
//! place where the authorization-to-storage mapping is defined.

use vstd::prelude::*;

verus! {

/// One of the four logical data-store partitions. Each holds the same
/// logical schema; which one an operation targets is selected from the
/// caller's security level.
#[derive(Clone, Copy, Debug, PartialEq, Eq, Structural)]
pub enum StorePartition {
    Admin,
    Auth,
    Moderator,
    User,
}

/// The partition a given security level is routed to.
pub open spec fn route_spec(security_lvl: i32) -> StorePartition {
    if security_lvl == 0 {
        StorePartition::Admin
    } else if security_lvl == 1 {
        StorePartition::Moderator
    } else if security_lvl == 2 {
        StorePartition::User
    } else {
        StorePartition::Auth
    }
}

/// Maps a security level to its store partition: 0 is the admin store,
/// 1 the moderator store, 2 the user store, and any other level falls
/// back to the auth store reserved for unauthenticated tiers.
pub fn route(security_lvl: i32) -> (p: StorePartition)
    ensures
        p == route_spec(security_lvl),
        security_lvl == 0 ==> p == StorePartition::Admin,
        security_lvl == 1 ==> p == StorePartition::Moderator,
        security_lvl == 2 ==> p == StorePartition::User,
        security_lvl != 0 && security_lvl != 1 && security_lvl != 2 ==> p == StorePartition::Auth,
{
    if security_lvl == 0 {
        StorePartition::Admin
    } else if security_lvl == 1 {
        StorePartition::Moderator
    } else if security_lvl == 2 {
        StorePartition::User
    } else {
        StorePartition::Auth
    }
}

/// The fixed partition used by unauthenticated paths (registration and
/// the public read endpoints), which never go through the router.
pub fn default_partition() -> (p: StorePartition)
    ensures
        p == StorePartition::Admin,
{
    StorePartition::Admin
}

} // verus!
