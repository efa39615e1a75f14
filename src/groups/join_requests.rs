use vstd::prelude::*;
use crate::groups::MinimalGroupUser;
use crate::url::{decimal, group_url, groups_root, push_decimal};
use vstd::string::StringExecFns;

verus! {

/// The body of a batch accept or decline of join requests.
#[derive(Debug, Clone)]
pub struct BatchRequest {
    pub user_ids: Vec<usize>,
}

/// A pending request to join a group.
#[derive(Debug, Clone)]
pub struct JoinRequest {
    pub requestor: MinimalGroupUser,
    pub created: String,
}

/// The paginated listing of a group's join requests; a batch of them is
/// accepted (POST) or declined (DELETE) at the same place.
pub fn join_requests_url(group_id: usize) -> (r: String)
    ensures
        r@ == groups_root() + decimal(group_id as nat) + "/join-requests"@,
{
    let mut s = group_url(group_id as u64);
    s.append("/join-requests");
    s
}

/// One user's join request: read (GET), accepted (POST) or declined
/// (DELETE).
pub fn join_request_url(group_id: usize, user_id: usize) -> (r: String)
    ensures
        r@ == groups_root() + decimal(group_id as nat) + "/join-requests/users/"@ + decimal(
            user_id as nat,
        ),
{
    let mut s = group_url(group_id as u64);
    s.append("/join-requests/users/");
    push_decimal(&mut s, user_id as u64);
    s
}

} // verus!
