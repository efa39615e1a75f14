use vstd::prelude::*;

verus! {

/// Limits and costs that apply when configuring a group.
#[derive(Debug, Clone)]
pub struct GroupConfigMetadata {
    pub group_configuration: GroupConfigurationMetadata,
    pub recurring_payouts_configuration: GroupRecurringPayoutsConfigurationMetadata,
    pub role_configuration: GroupRoleConfigurationMetadata,
    pub group_name_change_configuration: GroupNameChangeConfigurationMetadata,
    pub is_premium_payouts_enabled: bool,
    pub is_default_emblem_policy_enabled: bool,
}

#[derive(Debug, Clone, Copy, PartialEq, Eq, Structural)]
pub struct GroupConfigurationMetadata {
    pub name_max_length: i64,
    pub description_max_length: i64,
    pub icon_max_file_size_mb: i64,
    pub cost: i64,
    pub is_using_two_step_webview_component: bool,
}

#[derive(Debug, Clone, Copy, PartialEq, Eq, Structural)]
pub struct GroupRecurringPayoutsConfigurationMetadata {
    pub max_payout_partners: i64,
}

#[derive(Debug, Clone, Copy, PartialEq, Eq, Structural)]
pub struct GroupRoleConfigurationMetadata {
    pub name_max_length: i64,
    pub description_max_length: i64,
    pub limit: i64,
    pub cost: i64,
    pub min_rank: i64,
    pub max_rank: i64,
}

#[derive(Debug, Clone, Copy, PartialEq, Eq, Structural)]
pub struct GroupNameChangeConfigurationMetadata {
    pub cost: i64,
    pub cooldown_in_days: i64,
    pub ownership_cooldown_in_days: i64,
}

/// Limits that apply to a user's groups.
#[derive(Debug, Clone, Copy, PartialEq, Eq, Structural)]
pub struct GroupMetadata {
    pub group_limit: i64,
    pub current_group_count: i64,
    pub group_status_max_length: i64,
    pub group_post_max_length: i64,
    pub is_group_wall_notifications_enabled: bool,
    pub group_wall_notifications_subscribe_interval_in_milliseconds: i64,
    pub are_profile_groups_hidden: bool,
    pub is_group_details_policy_enabled: bool,
    pub show_previous_group_names: bool,
}

/// Where the group configuration metadata is read.
pub const CONFIG_METADATA_URL: &'static str =
    "https://groups.roblox.com/v1/groups/configuration/metadata";

/// Where the group metadata is read.
pub const METADATA_URL: &'static str = "https://groups.roblox.com/v1/groups/metadata";

} // verus!
