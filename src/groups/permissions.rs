use vstd::prelude::*;
use crate::groups::roles::GroupRole;
use crate::url::{group_url_signed, groups_root, push_signed, signed_decimal};
use vstd::string::StringExecFns;

verus! {

/// Everything a role may or may not do in a group.
#[derive(Debug, Clone, Copy, PartialEq, Eq, Structural)]
pub struct GroupPermissions {
    pub group_posts_permissions: GroupPostPermissions,
    pub group_membership_permissions: GroupMembershipPermissions,
    pub group_management_permissions: GroupManagementPermissions,
    pub group_economy_permissions: GroupEconomyPermissions,
    pub group_open_cloud_permissions: GroupOpenCloudPermissions,
}

#[derive(Debug, Clone, Copy, PartialEq, Eq, Structural)]
pub struct GroupPostPermissions {
    pub view_wall: bool,
    pub post_to_wall: bool,
    pub delete_from_wall: bool,
    pub view_status: bool,
    pub post_to_status: bool,
}

#[derive(Debug, Clone, Copy, PartialEq, Eq, Structural)]
pub struct GroupMembershipPermissions {
    pub change_rank: bool,
    pub invite_members: bool,
    pub remove_members: bool,
}

#[derive(Debug, Clone, Copy, PartialEq, Eq, Structural)]
pub struct GroupManagementPermissions {
    pub manage_relationships: bool,
    pub manage_clan: bool,
    pub view_audit_logs: bool,
}

#[derive(Debug, Clone, Copy, PartialEq, Eq, Structural)]
pub struct GroupEconomyPermissions {
    pub spend_group_funds: bool,
    pub advertise_group: bool,
    pub create_items: bool,
    pub manage_items: bool,
    pub add_group_places: bool,
    pub manage_group_games: bool,
    pub view_group_payouts: bool,
    pub view_analytics: bool,
}

#[derive(Debug, Clone, Copy, PartialEq, Eq, Structural)]
pub struct GroupOpenCloudPermissions {
    pub use_cloud_authentication: bool,
    pub administer_cloud_authentication: bool,
}

/// A role of a group with what it may do.
#[derive(Debug, Clone)]
pub struct RolePermissions {
    pub group_id: i64,
    pub role: GroupRole,
    pub permissions: GroupPermissions,
}

/// A change to a role's permissions; `None` leaves a permission as it is.
#[derive(Debug, Clone, Copy, PartialEq, Eq, Structural)]
pub struct UpdateRolePermissionsRequestPermissions {
    pub delete_from_wall: Option<bool>,
    pub post_to_wall: Option<bool>,
    pub invite_members: Option<bool>,
    pub post_to_status: Option<bool>,
    pub remove_members: Option<bool>,
    pub view_status: Option<bool>,
    pub view_wall: Option<bool>,
    pub change_rank: Option<bool>,
    pub advertise_group: Option<bool>,
    pub manage_relationships: Option<bool>,
    pub add_group_places: Option<bool>,
    pub view_audit_logs: Option<bool>,
    pub create_items: Option<bool>,
    pub manage_items: Option<bool>,
    pub spend_group_funds: Option<bool>,
    pub manage_clan: Option<bool>,
    pub manage_group_games: Option<bool>,
    pub use_cloud_authentication: Option<bool>,
    pub administer_cloud_authentication: Option<bool>,
    pub view_analytics: Option<bool>,
}

/// The body of a permissions update.
#[derive(Debug, Clone, Copy, PartialEq, Eq, Structural)]
pub struct UpdateRolePermissionsRequest {
    pub permissions: UpdateRolePermissionsRequestPermissions,
}

/// Where one role's permissions are read (GET) and changed (PATCH).
pub fn role_permissions_url(group_id: i64, role_id: i64) -> (r: String)
    ensures
        r@ == groups_root() + signed_decimal(group_id as int) + "/roles/"@ + signed_decimal(
            role_id as int,
        ) + "/permissions"@,
{
    let mut s = group_url_signed(group_id);
    s.append("/roles/");
    push_signed(&mut s, role_id);
    s.append("/permissions");
    s
}

/// Where the guest role's permissions are read.
pub fn guest_permissions_url(group_id: i64) -> (r: String)
    ensures
        r@ == groups_root() + signed_decimal(group_id as int) + "/roles/guest/permissions"@,
{
    let mut s = group_url_signed(group_id);
    s.append("/roles/guest/permissions");
    s
}

/// Where the permissions of every role of a group are listed.
pub fn permissions_url(group_id: i64) -> (r: String)
    ensures
        r@ == groups_root() + signed_decimal(group_id as int) + "/roles/permissions"@,
{
    let mut s = group_url_signed(group_id);
    s.append("/roles/permissions");
    s
}

} // verus!
