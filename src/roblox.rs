use vstd::prelude::*;
use crate::membership::GroupLookup;
use crate::ranks::{role_id, Ranks};

verus! {

/// A user profile as the group service returns it.
#[derive(Clone, Debug)]
pub struct UsernameResponse {
    pub description: String,
    pub created: String,
    pub is_banned: bool,
    pub external_app_display_name: Option<String>,
    pub id: u32,
    pub name: String,
    pub display_name: String,
}

#[derive(Clone, Debug)]
pub struct GroupInfo {
    pub id: u32,
    pub name: String,
    pub member_count: u32,
}

#[derive(Clone, Debug)]
pub struct RoleInfo {
    pub id: u32,
    pub name: String,
    pub rank: u32,
}

/// A group a user belongs to, with the role held there.
#[derive(Clone, Debug)]
pub struct UserGroupInfo {
    pub group: GroupInfo,
    pub role: RoleInfo,
}

/// The groups a user belongs to, as the group service lists them.
#[derive(Clone, Debug)]
pub struct GroupResponse {
    pub data: Option<Vec<UserGroupInfo>>,
}

/// One user found by name.
#[derive(Clone, Debug)]
pub struct UserIdResponse {
    pub requested_username: String,
    pub has_verified_badge: bool,
    pub id: u32,
    pub name: String,
    pub display_name: String,
}

#[derive(Clone, Debug)]
pub struct LogoutBody {
    pub session: String,
}

/// The body of a rank-set request.
#[derive(Clone, Copy, Debug, PartialEq, Eq, Structural)]
pub struct SetRankBody {
    pub role_id: u32,
}

/// The rank held in group `group_id` according to the first listed entry for
/// that group.
pub open spec fn rank_in_group(s: Seq<UserGroupInfo>, group_id: u32) -> Option<u32>
    decreases s.len(),
{
    if s.len() == 0 {
        None
    } else if s[0].group.id == group_id {
        Some(s[0].role.rank)
    } else {
        rank_in_group(s.skip(1), group_id)
    }
}

/// The rank a user holds in group `group_id` according to the listing;
/// `None` where the user is not in the group.
pub fn get_rank_in_group(response: &GroupResponse, group_id: u32) -> (r: Option<u32>)
    ensures
        r == match response.data {
            Some(v) => rank_in_group(v@, group_id),
            None => None,
        },
{
    match &response.data {
        None => None,
        Some(data) => {
            let mut i: usize = 0;
            proof {
                assert(data@.skip(0) == data@);
            }
            while i < data.len()
                invariant
                    response.data == Some(*data),
                    i <= data@.len(),
                    rank_in_group(data@, group_id) == rank_in_group(data@.skip(i as int), group_id),
                decreases data@.len() - i,
            {
                proof {
                    assert(data@.skip(i as int).skip(1) == data@.skip(i as int + 1));
                    assert(data@.skip(i as int)[0] == data@[i as int]);
                }
                if data[i].group.id == group_id {
                    proof {
                        let rest = data@.skip(i as int);
                        assert(rest.len() > 0 && rest[0].group.id == group_id);
                        assert(rank_in_group(rest, group_id) == Some(rest[0].role.rank));
                    }
                    return Some(data[i].role.rank);
                }
                i = i + 1;
            }
            None
        },
    }
}

/// Reads the outcome of a group listing request (`None` where the request
/// failed) as the answer to a lookup of the user in group `group_id`.
pub fn lookup_in_group(response: Option<GroupResponse>, group_id: u32) -> (r: GroupLookup)
    ensures
        r == match response {
            None => GroupLookup::Unavailable,
            Some(g) => match g.data {
                Some(v) => match rank_in_group(v@, group_id) {
                    Some(rank) => GroupLookup::InGroup(rank as u64),
                    None => GroupLookup::NotInGroup,
                },
                None => GroupLookup::NotInGroup,
            },
        },
{
    match response {
        None => GroupLookup::Unavailable,
        Some(g) => match get_rank_in_group(&g, group_id) {
            Some(rank) => GroupLookup::InGroup(rank as u64),
            None => GroupLookup::NotInGroup,
        },
    }
}

/// The request body that sets a member to `rank`.
pub fn set_rank_body(rank: Ranks) -> (r: SetRankBody)
    ensures
        r.role_id == role_id(rank),
{
    SetRankBody { role_id: rank.to_role_id() }
}

/// A rank-set request succeeded only when the service answered 200.
pub fn rank_set_succeeded(status: u16) -> (r: bool)
    ensures
        r == (status == 200),
{
    status == 200
}

/// How long, in seconds, a session token is used before it is fetched anew.
pub const TOKEN_MAX_AGE_SECS: u64 = 60000;

/// The step before a rank-set request.
#[derive(Clone, Debug)]
pub enum TokenStep {
    /// Send the request with this cached token.
    Reuse(String),
    /// Fetch a new token first.
    Refresh,
}

/// Why an account could not be set up.
#[derive(Clone, Copy, Debug, PartialEq, Eq, Structural)]
pub enum AccountError {
    /// The session cookie lacks the service's warning prefix, so it was not
    /// copied whole.
    MissingWarning,
    /// Logging in with the cookie failed.
    LoginFailed,
}

/// The account the library acts with towards the group service: its session
/// cookie and the cached session token, with the time it was fetched.
#[derive(Clone, Debug)]
pub struct RobloxAccount {
    pub cookie: String,
    pub token: String,
    pub last_token_get: Option<u64>,
}

/// The cached token cannot be used at time `now`: there is none, or it is
/// older than the maximum age.
pub open spec fn token_stale(a: RobloxAccount, now: u64) -> bool {
    match a.last_token_get {
        None => true,
        Some(t) => a.token@.len() == 0 || (now > t && now - t > TOKEN_MAX_AGE_SECS),
    }
}

impl RobloxAccount {
    pub fn new(cookie: String) -> (r: RobloxAccount)
        ensures
            r.cookie == cookie,
            r.token@.len() == 0,
            r.last_token_get is None,
    {
        RobloxAccount { cookie, token: String::new(), last_token_get: None }
    }

    /// Decides, at time `now` in seconds, whether a rank-set request can use
    /// the cached token or must fetch a new one first.
    pub fn token_step(&self, now: u64) -> (r: TokenStep)
        ensures
            r is Refresh <==> token_stale(*self, now),
            r matches TokenStep::Reuse(t) ==> t@ == self.token@,
    {
        let stale = match self.last_token_get {
            None => true,
            Some(t) => self.token.as_str().unicode_len() == 0 || (now > t && now - t > TOKEN_MAX_AGE_SECS),
        };
        if stale {
            TokenStep::Refresh
        } else {
            TokenStep::Reuse(self.token.clone())
        }
    }

    /// Records the outcome of fetching a token at time `now` (`None` where
    /// the fetch failed) and returns the token to send. A failed fetch
    /// leaves the account as it was; the rank-set attempt then fails.
    pub fn record_token(&mut self, fetched: Option<String>, now: u64) -> (r: Option<String>)
        ensures
            r == fetched,
            fetched is Some ==> final(self).token == fetched->0 && final(self).last_token_get == Some(now)
                && final(self).cookie == old(self).cookie,
            fetched is None ==> *final(self) == *old(self),
    {
        match fetched {
            Some(t) => {
                self.token = t.clone();
                self.last_token_get = Some(now);
                Some(t)
            },
            None => None,
        }
    }
}

/// `pat` occurs in `s`.
pub open spec fn seq_contains(s: Seq<char>, pat: Seq<char>) -> bool {
    exists|i: int| 0 <= i && i + pat.len() <= s.len() && #[trigger] s.subrange(i, i + pat.len()) == pat
}

/// The lower-case form of a text, by Unicode's rules.
pub uninterp spec fn lower_of(s: Seq<char>) -> Seq<char>;

/// Relies on `str::to_lowercase`: the result depends on the text alone.
#[verifier::external_body]
pub(crate) fn lowercase(s: &str) -> (r: String)
    ensures
        r@ == lower_of(s@),
{
    s.to_lowercase()
}

/// Whether `pat` occurs in `s`, by comparing `pat` with each window of `s`.
pub fn text_contains(s: &str, pat: &str) -> (r: bool)
    ensures
        r == seq_contains(s@, pat@),
{
    let n = s.unicode_len();
    let m = pat.unicode_len();
    if m == 0 {
        proof {
            assert(s@.subrange(0int, 0int + pat@.len()) =~= pat@);
        }
        return true;
    }
    if m > n {
        return false;
    }
    let mut i: usize = 0;
    while i <= n - m
        invariant
            n == s@.len(),
            m == pat@.len(),
            1 <= m <= n,
            i <= n - m + 1,
            forall|k: int| 0 <= k < i ==> #[trigger] s@.subrange(k, k + m) != pat@,
        decreases n - m + 1 - i,
    {
        let mut j: usize = 0;
        let mut same = true;
        while j < m && same
            invariant
                n == s@.len(),
                m == pat@.len(),
                i + m <= n,
                j <= m,
                same ==> forall|t: int| 0 <= t < j ==> s@[i + t] == #[trigger] pat@[t],
                !same ==> exists|t: int| 0 <= t < j && s@[i + t] != #[trigger] pat@[t],
            decreases m - j,
        {
            if s.get_char(i + j) != pat.get_char(j) {
                same = false;
            }
            j = j + 1;
        }
        if same {
            proof {
                assert(s@.subrange(i as int, i + m) =~= pat@);
            }
            return true;
        }
        proof {
            let t = choose|t: int| 0 <= t < j && s@[i + t] != #[trigger] pat@[t];
            assert(s@.subrange(i as int, i + m)[t] == s@[i + t]);
        }
        i = i + 1;
    }
    proof {
        assert forall|k: int| 0 <= k && k + pat@.len() <= s@.len() implies #[trigger] s@.subrange(k, k + pat@.len()) != pat@ by {
            assert(k < i);
        }
    }
    false
}

/// Whether a cookie, already in lower case, carries the service's warning
/// prefix, the sign that it was copied whole.
pub fn has_cookie_warning(lowered: &str) -> (r: bool)
    ensures
        r == seq_contains(lowered@, "warning:-"@),
{
    text_contains(lowered, "warning:-")
}

/// Sets up the account for a session cookie. `login` is the outcome of a
/// test login with it, or `None` where none was made. The cookie must carry
/// the warning prefix, in any case, and a test login that was made must
/// have succeeded.
pub fn create_user(cookie: String, login: Option<bool>) -> (r: Result<RobloxAccount, AccountError>)
    ensures
        r == Err::<RobloxAccount, AccountError>(AccountError::MissingWarning)
            <==> !seq_contains(lower_of(cookie@), "warning:-"@),
        r == Err::<RobloxAccount, AccountError>(AccountError::LoginFailed)
            <==> seq_contains(lower_of(cookie@), "warning:-"@) && login == Some(false),
        r is Ok ==> r->Ok_0.cookie == cookie && r->Ok_0.token@.len() == 0 && r->Ok_0.last_token_get is None,
{
    let lowered = lowercase(cookie.as_str());
    if !has_cookie_warning(lowered.as_str()) {
        return Err(AccountError::MissingWarning);
    }
    match login {
        Some(false) => Err(AccountError::LoginFailed),
        _ => Ok(RobloxAccount::new(cookie)),
    }
}

/// The position of the first text in `s` equal to `t`.
pub open spec fn first_index_of(s: Seq<Seq<char>>, t: Seq<char>) -> Option<int>
    decreases s.len(),
{
    if s.len() == 0 {
        None
    } else if s.last() == t {
        match first_index_of(s.drop_last(), t) {
            Some(i) => Some(i),
            None => Some(s.len() - 1),
        }
    } else {
        first_index_of(s.drop_last(), t)
    }
}

/// The position of the first of `names` equal to `name`.
pub fn first_match(name: &String, names: &Vec<String>) -> (r: Option<usize>)
    ensures
        r matches Some(i) ==> first_index_of(names@.map_values(|n: String| n@), name@) == Some(i as int),
        r is None ==> first_index_of(names@.map_values(|n: String| n@), name@) is None,
{
    let ghost views = names@.map_values(|n: String| n@);
    let mut i: usize = 0;
    while i < names.len()
        invariant
            i <= names@.len(),
            views == names@.map_values(|n: String| n@),
            first_index_of(views.take(i as int), name@) is None,
        decreases names@.len() - i,
    {
        proof {
            assert(views.take(i as int + 1).drop_last() == views.take(i as int));
            assert(views.take(i as int + 1).last() == names@[i as int]@);
        }
        if names[i] == *name {
            proof {
                lemma_first_index_prefix(views, i as int + 1, name@);
            }
            return Some(i);
        }
        i = i + 1;
    }
    proof {
        assert(views.take(i as int) == views);
    }
    None
}

proof fn lemma_first_index_in_range(s: Seq<Seq<char>>, t: Seq<char>)
    ensures
        first_index_of(s, t) matches Some(i) ==> 0 <= i < s.len() && s[i] == t,
    decreases s.len(),
{
    if s.len() > 0 {
        lemma_first_index_in_range(s.drop_last(), t);
    }
}

proof fn lemma_first_index_prefix(s: Seq<Seq<char>>, k: int, t: Seq<char>)
    requires
        0 <= k <= s.len(),
        first_index_of(s.take(k), t) is Some,
    ensures
        first_index_of(s, t) == first_index_of(s.take(k), t),
    decreases s.len() - k,
{
    if k < s.len() {
        let p = s.take(k + 1);
        assert(p.drop_last() == s.take(k));
        lemma_first_index_prefix(s, k + 1, t);
    } else {
        assert(s.take(k) == s);
    }
}

/// The id found for a requested user name: that of the first found user
/// whose name equals it ignoring case.
pub open spec fn id_for_name(requested: Seq<char>, found: Seq<(String, u32)>) -> Option<u32> {
    match first_index_of(found.map_values(|f: (String, u32)| lower_of(f.0@)), lower_of(requested)) {
        Some(j) => Some(found[j].1),
        None => None,
    }
}

/// Pairs each requested user name with the id the service found for it,
/// matching names ignoring case; `None` where it found none.
pub fn match_user_ids(requested: &Vec<String>, found: &Vec<(String, u32)>) -> (r: Vec<Option<u32>>)
    ensures
        r@.len() == requested@.len(),
        forall|i: int| 0 <= i < requested@.len() ==> #[trigger] r@[i] == id_for_name(requested@[i]@, found@),
{
    let mut lowered: Vec<String> = Vec::new();
    let mut j: usize = 0;
    while j < found.len()
        invariant
            j <= found@.len(),
            lowered@.len() == j,
            forall|k: int| 0 <= k < j ==> #[trigger] lowered@[k]@ == lower_of(found@[k].0@),
        decreases found@.len() - j,
    {
        lowered.push(lowercase(found[j].0.as_str()));
        j = j + 1;
    }
    proof {
        assert(lowered@.map_values(|n: String| n@) =~= found@.map_values(|f: (String, u32)| lower_of(f.0@)));
    }
    let mut r: Vec<Option<u32>> = Vec::new();
    let mut i: usize = 0;
    while i < requested.len()
        invariant
            i <= requested@.len(),
            r@.len() == i,
            lowered@.len() == found@.len(),
            lowered@.map_values(|n: String| n@) == found@.map_values(|f: (String, u32)| lower_of(f.0@)),
            forall|k: int| 0 <= k < i ==> #[trigger] r@[k] == id_for_name(requested@[k]@, found@),
        decreases requested@.len() - i,
    {
        let name = lowercase(requested[i].as_str());
        let id = match first_match(&name, &lowered) {
            Some(k) => {
                proof {
                    lemma_first_index_in_range(lowered@.map_values(|n: String| n@), name@);
                }
                Some(found[k].1)
            },
            None => None,
        };
        r.push(id);
        i = i + 1;
    }
    r
}

} // verus!
