use roblox_groups::error::Error;
use roblox_groups::groups::join_requests::{join_request_url, join_requests_url};
use roblox_groups::groups::permissions::{guest_permissions_url, permissions_url, role_permissions_url};
use roblox_groups::groups::relationships::{
    batch_requests_url, merge_relationships, relationship_requests_url, relationships_url, request_url,
    GroupRelationships, RelationshipType,
};
use roblox_groups::groups::revenue::{payout_restrictions_url, payouts_url};
use roblox_groups::groups::roles::{role_in_group, roles_url, user_memberships_url, users_on_role_url, GroupRole};
use roblox_groups::groups::social_links::{social_link_url, social_links_url, SocialLinkType};
use roblox_groups::groups::{Group, GroupMembership};
use roblox_groups::paging::SortOrder;
use roblox_groups::url::{group_url, group_url_signed, push_decimal, push_signed};

fn group(id: usize) -> Group {
    Group { id, name: format!("group {}", id) }
}

fn role(id: usize, name: &str) -> GroupRole {
    GroupRole { id, name: name.to_string(), description: None, rank: id, member_count: None }
}

#[test]
fn decimal_formatting() {
    let mut s = String::new();
    push_decimal(&mut s, 0);
    assert_eq!(s, "0");
    let mut s = String::from("n=");
    push_decimal(&mut s, 1234567890);
    assert_eq!(s, "n=1234567890");
    let mut s = String::new();
    push_decimal(&mut s, u64::MAX);
    assert_eq!(s, u64::MAX.to_string());
    let mut s = String::new();
    push_signed(&mut s, -42);
    assert_eq!(s, "-42");
    let mut s = String::new();
    push_signed(&mut s, i64::MIN);
    assert_eq!(s, i64::MIN.to_string());
    assert_eq!(group_url(7), "https://groups.roblox.com/v1/groups/7");
    assert_eq!(group_url_signed(-7), "https://groups.roblox.com/v1/groups/-7");
}

#[test]
fn relationship_type_strings() {
    assert_eq!(RelationshipType::Enemy.get_relationship_type_string(), "Enemies");
    assert_eq!(RelationshipType::Ally.get_relationship_type_string(), "Allies");
    assert_eq!(RelationshipType::All.get_relationship_type_string(), "All");
    assert_eq!(RelationshipType::All.expand(), vec![RelationshipType::Enemy, RelationshipType::Ally]);
    assert_eq!(RelationshipType::Ally.expand(), vec![RelationshipType::Ally]);
}

#[test]
fn relationship_urls() {
    assert_eq!(
        relationships_url(5, RelationshipType::Enemy),
        "https://groups.roblox.com/v1/groups/5/relationships/Enemies?model.startRowIndex=0&model.maxRows=1000"
    );
    assert_eq!(
        relationship_requests_url(5, RelationshipType::Ally),
        "https://groups.roblox.com/v1/groups/5/relationships/Allies/requests?model.startRowIndex=0&model.maxRows=1000"
    );
    assert_eq!(
        batch_requests_url(12, RelationshipType::Ally),
        "https://groups.roblox.com/v1/groups/12/relationships/Allies/requests"
    );
    assert_eq!(
        request_url(12, RelationshipType::Enemy, 99),
        "https://groups.roblox.com/v1/groups/12/relationships/Enemies/requests/99"
    );
}

#[test]
fn merged_relationships_concatenate_and_sum() {
    let enemies = GroupRelationships {
        group_id: 1,
        relationship_type: RelationshipType::Enemy,
        total_group_count: 2,
        groups: vec![group(10), group(11)],
    };
    let allies = GroupRelationships {
        group_id: 1,
        relationship_type: RelationshipType::Ally,
        total_group_count: 1,
        groups: vec![group(20)],
    };
    let all = merge_relationships(1, RelationshipType::All, enemies, allies);
    assert_eq!(all.group_id, 1);
    assert_eq!(all.relationship_type, RelationshipType::All);
    assert_eq!(all.total_group_count, 3);
    let ids: Vec<usize> = all.groups.iter().map(|g| g.id).collect();
    assert_eq!(ids, vec![10, 11, 20]);
}

#[test]
fn role_in_group_picks_first_match() {
    let ms = vec![
        GroupMembership { group: group(1), role: role(1, "a") },
        GroupMembership { group: group(2), role: role(2, "b") },
        GroupMembership { group: group(2), role: role(3, "c") },
    ];
    match role_in_group(ms, 2) {
        Ok(r) => assert_eq!(r.name, "b"),
        Err(_) => panic!("the user is in group 2"),
    }
}

#[test]
fn role_in_group_reports_absence() {
    let ms = vec![GroupMembership { group: group(1), role: role(1, "a") }];
    match role_in_group(ms, 9) {
        Err(Error::RobloxError(e)) => {
            assert_eq!(e.code, 200);
            assert_eq!(e.message, "The user is not in the group.");
            assert_eq!(e.user_facing_message.as_deref(), Some("The user is not in the group."));
        }
        _ => panic!("expected the not-in-group error"),
    }
    assert!(role_in_group(vec![], 1).is_err());
}

#[test]
fn role_urls() {
    assert_eq!(roles_url(3), "https://groups.roblox.com/v1/groups/3/roles");
    assert_eq!(
        users_on_role_url(3, 44, None),
        "https://groups.roblox.com/v1/groups/3/roles/44/users?sortOrder=Asc"
    );
    assert_eq!(
        users_on_role_url(3, 44, Some(SortOrder::Desc)),
        "https://groups.roblox.com/v1/groups/3/roles/44/users?sortOrder=Desc"
    );
    assert_eq!(user_memberships_url(8), "https://groups.roblox.com/v2/users/8/groups/roles");
}

#[test]
fn other_group_urls() {
    assert_eq!(join_requests_url(4), "https://groups.roblox.com/v1/groups/4/join-requests");
    assert_eq!(join_request_url(4, 5), "https://groups.roblox.com/v1/groups/4/join-requests/users/5");
    assert_eq!(role_permissions_url(4, 6), "https://groups.roblox.com/v1/groups/4/roles/6/permissions");
    assert_eq!(guest_permissions_url(4), "https://groups.roblox.com/v1/groups/4/roles/guest/permissions");
    assert_eq!(permissions_url(4), "https://groups.roblox.com/v1/groups/4/roles/permissions");
    assert_eq!(payout_restrictions_url(4), "https://groups.roblox.com/v1/groups/4/payout-restrictions");
    assert_eq!(payouts_url(4), "https://groups.roblox.com/v1/groups/4/payouts");
    assert_eq!(social_links_url(4), "https://groups.roblox.com/v1/groups/4/social-links");
    assert_eq!(social_link_url(4, 77), "https://groups.roblox.com/v1/groups/4/social-links/77");
    assert_eq!(SocialLinkType::YouTube.name(), "YouTube");
    assert_eq!(SocialLinkType::RobloxGroup.name(), "RobloxGroup");
}
