use vstd::prelude::*;
use crate::roblox::{lower_of, lowercase};

verus! {

/// A pending request to link a chat account, with the time it was made in
/// milliseconds since the Unix epoch.
#[derive(Clone, Debug)]
pub struct VerificationBody {
    pub discord_id: String,
    pub creation_time: u64,
}

/// A chat account linked to a member.
#[derive(Clone, Debug)]
pub struct VerifiedStruct {
    pub roblox_id: u32,
    pub discord_id: String,
}

/// A code handed out to link a chat account, with the time it was made in
/// milliseconds since the Unix epoch.
#[derive(Clone, Debug)]
pub struct VerificationCodeBody {
    pub discord_id: String,
    pub creation_time: u64,
}

/// How long, in milliseconds, a pending link request stays valid.
pub const CLEANUP_TIMEOUT: u64 = 60000 * 5;

/// A record made at `creation_time` has outlived `timeout` at time `now`.
pub open spec fn expired(creation_time: u64, now: u64, timeout: u64) -> bool {
    now >= creation_time && now - creation_time >= timeout
}

pub fn is_expired(creation_time: u64, now: u64, timeout: u64) -> (r: bool)
    ensures
        r == expired(creation_time, now, timeout),
{
    now >= creation_time && now - creation_time >= timeout
}

/// The keys of the requests that have expired at time `now`, in listing
/// order.
pub open spec fn expired_keys_of(s: Seq<(String, VerificationBody)>, now: u64, timeout: u64) -> Seq<String>
    decreases s.len(),
{
    if s.len() == 0 {
        Seq::empty()
    } else {
        let prev = expired_keys_of(s.drop_last(), now, timeout);
        if expired(s.last().1.creation_time, now, timeout) {
            prev.push(s.last().0)
        } else {
            prev
        }
    }
}

/// Picks the pending link requests to delete at time `now`: those that have
/// outlived `timeout`.
pub fn key_cleanup(codes: &Vec<(String, VerificationBody)>, now: u64, timeout: u64) -> (r: Vec<String>)
    ensures
        r@ == expired_keys_of(codes@, now, timeout),
{
    let mut r: Vec<String> = Vec::new();
    let mut i: usize = 0;
    while i < codes.len()
        invariant
            i <= codes@.len(),
            r@ == expired_keys_of(codes@.take(i as int), now, timeout),
        decreases codes@.len() - i,
    {
        proof {
            assert(codes@.take(i as int + 1).drop_last() == codes@.take(i as int));
        }
        if is_expired(codes[i].1.creation_time, now, timeout) {
            r.push(codes[i].0.clone());
        }
        i = i + 1;
    }
    proof {
        assert(codes@.take(codes@.len() as int) == codes@);
    }
    r
}

/// The key of the first listed code handed out to `discord_id`.
pub open spec fn code_of(s: Seq<(String, VerificationCodeBody)>, discord_id: Seq<char>) -> Option<String>
    decreases s.len(),
{
    if s.len() == 0 {
        None
    } else if s[0].1.discord_id@ == discord_id {
        Some(s[0].0)
    } else {
        code_of(s.skip(1), discord_id)
    }
}

/// The code already handed out to `discord_id`, if any, so that it is
/// handed out again rather than a second one made.
pub fn already_has_code(discord_id: &String, codes: &Vec<(String, VerificationCodeBody)>) -> (r: Option<String>)
    ensures
        r == code_of(codes@, discord_id@),
{
    let mut i: usize = 0;
    proof {
        assert(codes@.skip(0) == codes@);
    }
    while i < codes.len()
        invariant
            i <= codes@.len(),
            code_of(codes@, discord_id@) == code_of(codes@.skip(i as int), discord_id@),
        decreases codes@.len() - i,
    {
        proof {
            assert(codes@.skip(i as int).skip(1) == codes@.skip(i as int + 1));
            assert(codes@.skip(i as int)[0] == codes@[i as int]);
        }
        if codes[i].1.discord_id == *discord_id {
            return Some(codes[i].0.clone());
        }
        i = i + 1;
    }
    None
}

/// The key under which a pending link request for a user name is kept: the
/// name in lower case, so that the name matches whatever its case.
pub fn awaiting_key(roblox_username: &str) -> (r: String)
    ensures
        r@ == lower_of(roblox_username@),
{
    lowercase(roblox_username)
}

} // verus!
