//! The groups API: the shapes its endpoints return, the URLs they live at,
//! and the little logic that sits between the request layer and them.
use vstd::prelude::*;

pub mod join_requests;
pub mod metadata;
pub mod permissions;
pub mod relationships;
pub mod revenue;
pub mod roles;
pub mod social_links;

verus! {

/// A group as listed by the groups API.
#[derive(Debug, Clone)]
pub struct Group {
    pub id: usize,
    pub name: String,
}

/// A user as it appears in group listings.
#[derive(Debug, Clone)]
pub struct MinimalGroupUser {
    pub user_id: usize,
    pub username: String,
    pub display_name: String,
}

/// A group a user belongs to, with the user's role in it.
#[derive(Debug, Clone)]
pub struct GroupMembership {
    pub group: Group,
    pub role: roles::GroupRole,
}

} // verus!
