//! The magic-link flow: asking for a link and redeeming it.
//!
//! The database and mail work happen between the steps; each function here
//! takes what that work returned and says what comes next.
use vstd::prelude::*;

use crate::auth::User;
use crate::crypto::{hash, is_token, token, token_hash};
use crate::error::{is_bad, E, R};
use crate::text::{byte_len, byte_len_exceeds, chars_of, concat3};
use crate::validation::{email_msg, email_of, email_valid, normalized_email};

verus! {

/// The status that answers every accepted link request.
pub const ACCEPTED: u16 = 202;

/// The length of the window in which link requests are counted, in seconds.
pub open spec fn rate_window() -> int {
    3600
}

/// The shortest token, in bytes, that is looked up at all.
pub open spec fn min_token_bytes() -> nat {
    32
}

/// The callback address that carries `raw` to the frontend.
pub open spec fn callback(base: Seq<char>, raw: Seq<char>) -> Seq<char> {
    base + "/auth/callback?token="@ + raw
}

/// A stored token, as the lookup by its hash finds it.
pub struct TokenRow {
    pub id: i64,
    pub user_id: i64,
    pub expires_at: i64,
    pub used_at: Option<i64>,
}

/// Whether a stored user counts as active for signing in.
pub open spec fn may_sign_in(u: User) -> bool {
    u.is_active == 1
}

/// Whether a stored token can still be redeemed at `now`: it is unused and not expired.
pub open spec fn redeemable(row: TokenRow, now: i64) -> bool {
    row.used_at is None && row.expires_at > now
}

/// A token as it is stored: only its hash, never the raw token.
pub struct TokenRecord {
    pub user_id: i64,
    pub token_hash: String,
    pub expires_at: i64,
    pub created_at: i64,
}

/// The next step of a link request.
pub enum LinkStep {
    /// Look up the user with this normalized address.
    FindUser(String),
    /// Count the links this user asked for in the last hour.
    CountRecent(User),
    /// Store the record, then mail `url` to the user. When `retire_unused`
    /// holds, the user's unused tokens are first marked used at the record's
    /// creation time, so the new link revokes the older ones.
    Issue { user: User, record: TokenRecord, url: String, retire_unused: bool },
    /// Answer the request.
    Reply(R<u16>),
}

/// The next step of a redemption, inside one transaction.
pub enum ConsumeStep {
    /// Load the user the token belongs to.
    LoadUser { token_id: i64, user_id: i64 },
    /// Mark the token used, if it is still unused.
    MarkUsed { token_id: i64, user: User },
    /// Record the login time, commit, and sign the user in.
    Finish(User),
    /// Stop: the token gives no login.
    Reject,
}

/// The step after looking up the address of a link request: only an active
/// user gets a link.
pub open spec fn found_step(found: Option<User>) -> LinkStep {
    match found {
        Some(u) => if may_sign_in(u) {
            LinkStep::CountRecent(u)
        } else {
            LinkStep::Reply(Ok(ACCEPTED))
        },
        None => LinkStep::Reply(Ok(ACCEPTED)),
    }
}

/// The step after looking up a token's hash at `now`.
pub open spec fn token_found_step(row: Option<TokenRow>, now: i64) -> ConsumeStep {
    match row {
        Some(t) => if redeemable(t, now) {
            ConsumeStep::LoadUser { token_id: t.id, user_id: t.user_id }
        } else {
            ConsumeStep::Reject
        },
        None => ConsumeStep::Reject,
    }
}

/// The step after loading the token's user: only an active user signs in.
pub open spec fn user_loaded_step(token_id: i64, user: Option<User>) -> ConsumeStep {
    match user {
        Some(u) => if may_sign_in(u) {
            ConsumeStep::MarkUsed { token_id, user: u }
        } else {
            ConsumeStep::Reject
        },
        None => ConsumeStep::Reject,
    }
}

/// The step after marking the token used: only a mark that changed exactly
/// one row signs the user in.
pub open spec fn marked_step(user: User, rows_affected: u64) -> ConsumeStep {
    if rows_affected == 1 {
        ConsumeStep::Finish(user)
    } else {
        ConsumeStep::Reject
    }
}

/// The earliest creation time that counts toward the hourly limit.
pub fn rate_window_start(now: i64) -> (r: i64)
    requires
        now - rate_window() >= i64::MIN,
    ensures
        r == now - rate_window(),
        r == now - 3600,
{
    now - 3600
}

/// The address mailed to the user.
pub fn callback_url(base: &str, raw: &str) -> (r: String)
    ensures
        r@ == callback(base@, raw@),
{
    concat3(base, "/auth/callback?token=", raw)
}

/// The record stored for `raw`, created at `now` and valid for `ttl_minutes`.
pub fn token_record(user_id: i64, raw: &str, now: i64, ttl_minutes: i64) -> (r: TokenRecord)
    requires
        i64::MIN <= ttl_minutes * 60 <= i64::MAX,
        i64::MIN <= now + ttl_minutes * 60 <= i64::MAX,
    ensures
        r.user_id == user_id,
        r.token_hash@ == token_hash(raw@),
        r.expires_at == now + ttl_minutes * 60,
        r.created_at == now,
        raw@.len() != 64 ==> r.token_hash@ != raw@,
{
    let h = hash(raw);
    TokenRecord { user_id, token_hash: h, expires_at: now + ttl_minutes * 60, created_at: now }
}

/// The first step of a link request: normalize and check the address.
pub fn link_begin(email: &str) -> (r: LinkStep)
    ensures
        email_valid(normalized_email(email@)) ==> (r matches LinkStep::FindUser(e) && e@
            == normalized_email(email@)),
        !email_valid(normalized_email(email@)) ==> (r matches LinkStep::Reply(Err(x)) && is_bad(
            x,
            email_msg(),
        )),
{
    match email_of(email) {
        Ok(e) => LinkStep::FindUser(e),
        Err(x) => LinkStep::Reply(Err(x)),
    }
}

/// The step after the lookup: an unknown or inactive address is answered
/// exactly like a link that was sent, so the answer reveals nothing.
pub fn link_found(found: Option<User>) -> (r: LinkStep)
    ensures
        r == found_step(found),
        match found {
            Some(u) => if u.is_active == 1 {
                r == LinkStep::CountRecent(u)
            } else {
                r == LinkStep::Reply(Ok::<u16, E>(ACCEPTED))
            },
            None => r == LinkStep::Reply(Ok::<u16, E>(ACCEPTED)),
        },
{
    match found {
        Some(u) => {
            if u.is_active == 1 {
                LinkStep::CountRecent(u)
            } else {
                LinkStep::Reply(Ok(ACCEPTED))
            }
        },
        None => LinkStep::Reply(Ok(ACCEPTED)),
    }
}

/// The step after counting the user's recent links: at the hourly limit no
/// link is issued but the request is answered as any other, so the answer
/// does not reveal that the address belongs to a user; below the limit a
/// fresh token valid for `ttl_minutes` is issued.
pub fn link_counted(
    user: User,
    recent: i64,
    base: &str,
    ttl_minutes: i64,
    per_hour: i64,
    now: i64,
) -> (r: LinkStep)
    requires
        i64::MIN <= ttl_minutes * 60 <= i64::MAX,
        i64::MIN <= now + ttl_minutes * 60 <= i64::MAX,
    ensures
        recent >= per_hour ==> r == LinkStep::Reply(Ok(ACCEPTED)),
        step_answer(r) == Some(Ok::<u16, E>(ACCEPTED)),
        recent < per_hour ==> (r matches LinkStep::Issue { user: u, record, url, retire_unused } && {
            &&& u == user
            &&& retire_unused
            &&& record.user_id == user.id
            &&& record.expires_at == now + ttl_minutes * 60
            &&& record.created_at == now
            &&& exists|t: Seq<char>|
                is_token(t) && record.token_hash@ == token_hash(t) && record.token_hash@ != t
                    && url@ == callback(base@, t)
        }),
{
    if recent >= per_hour {
        return LinkStep::Reply(Ok(ACCEPTED));
    }
    let raw = token();
    let record = token_record(user.id, raw.as_str(), now, ttl_minutes);
    let url = callback_url(base, raw.as_str());
    assert(is_token(raw@) && record.token_hash@ == token_hash(raw@) && record.token_hash@ != raw@
        && url@ == callback(base@, raw@));
    LinkStep::Issue { user, record, url, retire_unused: true }
}

/// The answer once an issued link has been stored and mailed.
/// A failure to store or mail the link is only logged: the client gets the
/// same answer as for any other address.
pub fn link_sent(delivery: R<()>) -> (r: R<u16>)
    ensures
        r == Ok::<u16, E>(ACCEPTED),
{
    Ok(ACCEPTED)
}

/// The answer a step of a link request leads to: a reply is the answer
/// itself, and an issued link is answered by `link_sent` whether or not it
/// could be stored and mailed; the lookup and the count have not answered yet.
pub open spec fn step_answer(step: LinkStep) -> Option<R<u16>> {
    match step {
        LinkStep::Reply(r) => Some(r),
        LinkStep::Issue { .. } => Some(Ok(ACCEPTED)),
        _ => None,
    }
}

/// A stored token row after a new link for `user_id` retired the user's
/// unused tokens at `at`.
pub open spec fn retired(row: TokenRow, user_id: i64, at: i64) -> TokenRow {
    if row.user_id == user_id && row.used_at is None {
        marked_used(row, at)
    } else {
        row
    }
}

/// The row that storing `record` under the id `id` creates.
pub open spec fn stored_row(record: TokenRecord, id: i64) -> TokenRow {
    TokenRow { id, user_id: record.user_id, expires_at: record.expires_at, used_at: None }
}

/// What the conditional mark `used_at = at WHERE used_at IS NULL` does to a
/// row: the row after it, and the number of rows it changed.
pub open spec fn mark(row: TokenRow, at: i64) -> (TokenRow, u64) {
    if row.used_at is None {
        (marked_used(row, at), 1)
    } else {
        (row, 0)
    }
}

/// The number of times in `times` that fall in `[lo, hi]`.
pub open spec fn count_in(times: Seq<int>, lo: int, hi: int) -> nat
    decreases times.len(),
{
    if times.len() == 0 {
        0
    } else {
        count_in(times.drop_last(), lo, hi) + if lo <= times.last() <= hi {
            1nat
        } else {
            0nat
        }
    }
}

/// Whether `times` never decrease.
pub open spec fn ascending(times: Seq<int>) -> bool {
    forall|i: int, j: int| 0 <= i <= j < times.len() ==> times[i] <= times[j]
}

/// Whether each token creation time in `times` passed the hourly limit when
/// its request was counted: fewer than `per_hour` earlier tokens created in
/// the window that `rate_window_start` opens.
pub open spec fn issued_within_limit(times: Seq<int>, per_hour: int) -> bool {
    forall|i: int|
        0 <= i < times.len() ==> #[trigger] count_in(times.take(i), times[i] - rate_window(), times[i])
            < per_hour
}

/// A stored token row once its redemption has marked it used at `at`.
pub open spec fn marked_used(row: TokenRow, at: i64) -> TokenRow {
    TokenRow { used_at: Some(at), ..row }
}

/// The first step of a redemption: a token shorter than 32 bytes is refused
/// outright; otherwise the hash to look up.
pub fn verify_begin(raw: &str) -> (r: R<String>)
    ensures
        byte_len(raw@) < min_token_bytes() ==> r == Err::<String, E>(E::Unauthorized),
        byte_len(raw@) >= min_token_bytes() ==> (r matches Ok(h) && h@ == token_hash(raw@)),
        byte_len(raw@) < 32 ==> r == Err::<String, E>(E::Unauthorized),
        byte_len(raw@) >= 32 ==> r is Ok,
{
    let cs = chars_of(raw);
    if !byte_len_exceeds(&cs, 31) {
        return Err(E::Unauthorized);
    }
    Ok(hash(raw))
}

/// The step after looking up the token's hash at `now`: a used or expired
/// token is refused.
pub fn consume_found(row: Option<TokenRow>, now: i64) -> (r: ConsumeStep)
    ensures
        r == token_found_step(row, now),
        match row {
            Some(t) => if t.used_at is None && t.expires_at > now {
                r == (ConsumeStep::LoadUser { token_id: t.id, user_id: t.user_id })
            } else {
                r == ConsumeStep::Reject
            },
            None => r == ConsumeStep::Reject,
        },
{
    match row {
        Some(t) => {
            if t.used_at.is_none() && t.expires_at > now {
                ConsumeStep::LoadUser { token_id: t.id, user_id: t.user_id }
            } else {
                ConsumeStep::Reject
            }
        },
        None => ConsumeStep::Reject,
    }
}

/// The step after loading the token's user: an inactive or missing user is refused.
pub fn consume_loaded(token_id: i64, user: Option<User>) -> (r: ConsumeStep)
    ensures
        r == user_loaded_step(token_id, user),
        match user {
            Some(u) => if u.is_active == 1 {
                r == (ConsumeStep::MarkUsed { token_id, user: u })
            } else {
                r == ConsumeStep::Reject
            },
            None => r == ConsumeStep::Reject,
        },
{
    match user {
        Some(u) => {
            if u.is_active == 1 {
                ConsumeStep::MarkUsed { token_id, user: u }
            } else {
                ConsumeStep::Reject
            }
        },
        None => ConsumeStep::Reject,
    }
}

/// The step after marking the token used.
pub fn consume_marked(user: User, rows_affected: u64) -> (r: ConsumeStep)
    ensures
        r == marked_step(user, rows_affected),
        rows_affected == 1 ==> r == ConsumeStep::Finish(user),
        rows_affected != 1 ==> r == ConsumeStep::Reject,
{
    if rows_affected == 1 {
        ConsumeStep::Finish(user)
    } else {
        ConsumeStep::Reject
    }
}

/// The answer to a redemption: the signed-in user, or `Unauthorized` when
/// the token gave no login.
pub fn verify_result(consumed: Option<User>) -> (r: R<User>)
    ensures
        r == match consumed {
            Some(u) => Ok::<User, E>(u),
            None => Err::<User, E>(E::Unauthorized),
        },
{
    match consumed {
        Some(u) => Ok(u),
        None => Err(E::Unauthorized),
    }
}

} // verus!
