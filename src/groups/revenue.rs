use vstd::prelude::*;
use crate::url::{group_url_signed, groups_root, signed_decimal};
use vstd::string::StringExecFns;

verus! {

/// Which kinds of payout a group may make.
#[derive(Debug, Clone, Copy, PartialEq, Eq, Structural)]
pub struct PayoutRestrictions {
    pub can_use_recurring_payout: bool,
    pub can_use_one_time_payout: bool,
}

/// Where a group's payout restrictions are read.
pub fn payout_restrictions_url(group_id: i64) -> (r: String)
    ensures
        r@ == groups_root() + signed_decimal(group_id as int) + "/payout-restrictions"@,
{
    let mut s = group_url_signed(group_id);
    s.append("/payout-restrictions");
    s
}

/// Where a group's recurring payouts are listed.
pub fn payouts_url(group_id: i64) -> (r: String)
    ensures
        r@ == groups_root() + signed_decimal(group_id as int) + "/payouts"@,
{
    let mut s = group_url_signed(group_id);
    s.append("/payouts");
    s
}

} // verus!
