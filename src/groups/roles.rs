use vstd::prelude::*;
use vstd::string::StringExecFns;
use crate::error::{Error, RobloxError};
use crate::groups::GroupMembership;
use crate::paging::{sort_order_name, SortOrder};
use crate::url::{decimal, group_url, groups_root, push_decimal};

verus! {

/// A role of a group.
#[derive(Debug, Clone)]
pub struct GroupRole {
    pub id: usize,
    pub name: String,
    pub description: Option<String>,
    pub rank: usize,
    pub member_count: Option<usize>,
}

/// The answer of the roles listing.
#[derive(Debug, Clone)]
pub struct GroupRoleResponse {
    pub group_id: usize,
    pub roles: Vec<GroupRole>,
}

/// The domain error code for a user who is not in the group asked about.
pub const NOT_IN_GROUP_CODE: i64 = 200;

/// The message that goes with [`NOT_IN_GROUP_CODE`].
pub const NOT_IN_GROUP_MESSAGE: &'static str = "The user is not in the group.";

/// The listing of a group's roles.
pub fn roles_url(group_id: usize) -> (r: String)
    ensures
        r@ == groups_root() + decimal(group_id as nat) + "/roles"@,
{
    let mut s = group_url(group_id as u64);
    s.append("/roles");
    s
}

/// The listing of the users on a role, in the given order (ascending when
/// none is given).
pub fn users_on_role_url(group_id: usize, role_id: usize, sort_order: Option<SortOrder>) -> (r:
    String)
    ensures
        r@ == groups_root() + decimal(group_id as nat) + "/roles/"@ + decimal(role_id as nat)
            + "/users?sortOrder="@ + sort_order_name(
            match sort_order {
                Some(o) => o,
                None => SortOrder::Asc,
            },
        ),
{
    let mut s = group_url(group_id as u64);
    s.append("/roles/");
    push_decimal(&mut s, role_id as u64);
    s.append("/users?sortOrder=");
    let order = match sort_order {
        Some(o) => o,
        None => SortOrder::Asc,
    };
    s.append(order.get_sort_order_string());
    s
}

/// The listing of every group a user is in, with the user's role there.
pub fn user_memberships_url(user_id: usize) -> (r: String)
    ensures
        r@ == "https://groups.roblox.com/v2/users/"@ + decimal(user_id as nat) + "/groups/roles"@,
{
    let mut s = String::from_str("https://groups.roblox.com/v2/users/");
    push_decimal(&mut s, user_id as u64);
    s.append("/groups/roles");
    s
}

/// Whether membership `i` is in group `group_id`, and none before it is.
pub open spec fn first_in_group(ms: Seq<GroupMembership>, group_id: usize, i: int) -> bool {
    0 <= i < ms.len() && ms[i].group.id == group_id && forall|j: int|
        0 <= j < i ==> #[trigger] ms[j].group.id != group_id
}

/// The user's role in `group_id`, read from the user's memberships: the
/// role of the first membership in that group, or the domain error
/// [`NOT_IN_GROUP_CODE`] when there is none.
pub fn role_in_group(memberships: Vec<GroupMembership>, group_id: usize) -> (r: Result<
    GroupRole,
    Error,
>)
    ensures
        r is Ok <==> exists|i: int|
            0 <= i < memberships@.len() && #[trigger] memberships@[i].group.id == group_id,
        r is Ok ==> exists|i: int|
            first_in_group(memberships@, group_id, i) && r->Ok_0 == #[trigger] memberships@[i].role,
        r is Err ==> r->Err_0 is RobloxError && r->Err_0->RobloxError_0.code == NOT_IN_GROUP_CODE
            && r->Err_0->RobloxError_0.message@ == "The user is not in the group."@
            && r->Err_0->RobloxError_0.user_facing_message is Some
            && r->Err_0->RobloxError_0.user_facing_message->Some_0@
            == "The user is not in the group."@,
{
    let mut list = memberships;
    let mut i: usize = 0;
    while i < list.len()
        invariant
            list@ == memberships@,
            0 <= i <= list@.len(),
            forall|j: int| 0 <= j < i ==> #[trigger] list@[j].group.id != group_id,
        decreases list@.len() - i,
    {
        if list[i].group.id == group_id {
            assert(first_in_group(memberships@, group_id, i as int));
            let found = list.swap_remove(i);
            assert(found == memberships@[i as int]);
            return Ok(found.role);
        }
        i = i + 1;
    }
    proof {
        reveal_strlit("The user is not in the group.");
    }
    Err(
        Error::RobloxError(
            RobloxError {
                code: NOT_IN_GROUP_CODE,
                message: String::from_str(NOT_IN_GROUP_MESSAGE),
                user_facing_message: Some(String::from_str(NOT_IN_GROUP_MESSAGE)),
            },
        ),
    )
}

} // verus!
