use vstd::prelude::*;
use vstd::string::{StrSliceExecFns, StringExecFns};

verus! {

/// The decimal digits, in order.
pub const DIGITS: &'static str = "0123456789";

/// The digit `d` (below ten) as text.
pub open spec fn digit(d: nat) -> Seq<char> {
    "0123456789"@.subrange(d as int, d + 1int)
}

/// `n` written in decimal, without leading zeros.
pub open spec fn decimal(n: nat) -> Seq<char>
    decreases n,
{
    if n < 10 {
        digit(n)
    } else {
        decimal(n / 10) + digit(n % 10)
    }
}

/// `n` written in decimal, with a leading `-` when negative.
pub open spec fn signed_decimal(n: int) -> Seq<char> {
    if n < 0 {
        "-"@ + decimal((-n) as nat)
    } else {
        decimal(n as nat)
    }
}

/// The root of the groups API, up to and including `/groups/`.
pub open spec fn groups_root() -> Seq<char> {
    "https://groups.roblox.com/v1/groups/"@
}

pub const GROUPS_ROOT: &'static str = "https://groups.roblox.com/v1/groups/";

/// Appends `n` in decimal.
pub fn push_decimal(s: &mut String, n: u64)
    ensures
        final(s)@ == old(s)@ + decimal(n as nat),
    decreases n,
{
    proof {
        reveal_strlit("0123456789");
    }
    if n >= 10 {
        push_decimal(s, n / 10);
    }
    let d = (n % 10) as usize;
    let text = DIGITS.substring_char(d, d + 1);
    s.append(text);
    assert(final(s)@ =~= old(s)@ + decimal(n as nat));
}

/// Appends `n` in decimal, with a leading `-` when negative.
pub fn push_signed(s: &mut String, n: i64)
    ensures
        final(s)@ == old(s)@ + signed_decimal(n as int),
{
    if n < 0 {
        s.append("-");
        let magnitude: u64 = ((-(n + 1)) as u64) + 1;
        push_decimal(s, magnitude);
        assert(final(s)@ =~= old(s)@ + signed_decimal(n as int));
    } else {
        push_decimal(s, n as u64);
    }
}

/// `https://groups.roblox.com/v1/groups/<id>`, ready for a path to follow.
pub fn group_url(group_id: u64) -> (r: String)
    ensures
        r@ == groups_root() + decimal(group_id as nat),
{
    let mut s = String::from_str(GROUPS_ROOT);
    push_decimal(&mut s, group_id);
    s
}

/// [`group_url`] for an id given as a signed integer.
pub fn group_url_signed(group_id: i64) -> (r: String)
    ensures
        r@ == groups_root() + signed_decimal(group_id as int),
{
    let mut s = String::from_str(GROUPS_ROOT);
    push_signed(&mut s, group_id);
    s
}

} // verus!
