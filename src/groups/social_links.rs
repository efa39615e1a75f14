use vstd::prelude::*;
use crate::url::{group_url_signed, groups_root, push_signed, signed_decimal};
use vstd::string::StringExecFns;

verus! {

/// The sites a group's social link can point to.
#[derive(Debug, Clone, Copy, PartialEq, Eq, Structural)]
pub enum SocialLinkType {
    Facebook,
    Twitter,
    YouTube,
    Twitch,
    GooglePlus,
    Discord,
    RobloxGroup,
    Amazon,
    Guilded,
}

pub open spec fn social_link_type_name(t: SocialLinkType) -> Seq<char> {
    match t {
        SocialLinkType::Facebook => "Facebook"@,
        SocialLinkType::Twitter => "Twitter"@,
        SocialLinkType::YouTube => "YouTube"@,
        SocialLinkType::Twitch => "Twitch"@,
        SocialLinkType::GooglePlus => "GooglePlus"@,
        SocialLinkType::Discord => "Discord"@,
        SocialLinkType::RobloxGroup => "RobloxGroup"@,
        SocialLinkType::Amazon => "Amazon"@,
        SocialLinkType::Guilded => "Guilded"@,
    }
}

impl SocialLinkType {
    /// The name of the site, as the API writes it.
    pub fn name(&self) -> (r: &'static str)
        ensures
            r@ == social_link_type_name(*self),
    {
        match self {
            SocialLinkType::Facebook => "Facebook",
            SocialLinkType::Twitter => "Twitter",
            SocialLinkType::YouTube => "YouTube",
            SocialLinkType::Twitch => "Twitch",
            SocialLinkType::GooglePlus => "GooglePlus",
            SocialLinkType::Discord => "Discord",
            SocialLinkType::RobloxGroup => "RobloxGroup",
            SocialLinkType::Amazon => "Amazon",
            SocialLinkType::Guilded => "Guilded",
        }
    }
}

/// A link from a group to another site.
#[derive(Debug, Clone)]
pub struct SocialLink {
    /// Set when read from the API; left out when adding a link.
    pub id: Option<i64>,
    pub link_type: SocialLinkType,
    pub url: String,
    pub title: String,
}

/// Where a group's social links are listed (GET) and added (POST).
pub fn social_links_url(group_id: i64) -> (r: String)
    ensures
        r@ == groups_root() + signed_decimal(group_id as int) + "/social-links"@,
{
    let mut s = group_url_signed(group_id);
    s.append("/social-links");
    s
}

/// Where one social link is changed (PATCH) or deleted (DELETE).
pub fn social_link_url(group_id: i64, social_link_id: i64) -> (r: String)
    ensures
        r@ == groups_root() + signed_decimal(group_id as int) + "/social-links/"@ + signed_decimal(
            social_link_id as int,
        ),
{
    let mut s = group_url_signed(group_id);
    s.append("/social-links/");
    push_signed(&mut s, social_link_id);
    s
}

} // verus!
