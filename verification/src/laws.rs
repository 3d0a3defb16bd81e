//! Properties that span several functions of the library.
use vstd::prelude::*;
use vstd::utf8::*;

use crate::auth::{is_active_admin, User};
use crate::config::{
    all_digits, bool_text, checked_error, config_of, database_dir, digits_value, first_index,
    i64_text, int_text, is_digit, is_first_index, path_parent, Config, EnvVars,
};
use crate::crypto::{is_token, url_safe_char};
use crate::dto::{shows, UserOut};
use crate::error::{code_of, message_of, status_of, E, R};
use crate::links::{
    ascending, callback, count_in, found_step, issued_within_limit, mark, marked_step, marked_used,
    min_token_bytes, rate_window, retired, step_answer, stored_row, token_found_step,
    user_loaded_step, ConsumeStep, LinkStep, TokenRecord, TokenRow, ACCEPTED,
};
use crate::mail::{html_body, text_body};
use crate::text::{byte_len, ends_with_char, lower_case, strip_trailing, trim_start, trimmed, white_space};
use crate::users::{
    active_admins, admins_to_spare, all_guarded, apply_changes, guarded_at, removes_admin,
    requested_active, requested_role, rotates_sessions,
};
use crate::validation::{email_valid, name_value, normalized_email, role_valid};

verus! {

/// Every token that a link carries is long enough for a redemption to look
/// it up: a link request issues tokens of 43 URL-safe characters, and a
/// redemption refuses only tokens shorter than 32 bytes.
pub proof fn law_issued_token_is_looked_up(t: Seq<char>)
    requires
        is_token(t),
    ensures
        byte_len(t) >= min_token_bytes(),
{
    assert(is_ascii_chars(t)) by {
        assert forall|i: int| 0 <= i < t.len() implies '\0' <= #[trigger] t[i] <= '\u{7f}' by {
            assert(url_safe_char(t[i]));
        }
    }
    is_ascii_chars_encode_utf8(t);
}

/// The answer to a link request with a valid address, given what the
/// lookup found and the step the hourly count led to (when it was reached).
pub open spec fn link_answer(found: Option<User>, counted: LinkStep) -> Option<R<u16>> {
    if found_step(found) is CountRecent {
        step_answer(counted)
    } else {
        step_answer(found_step(found))
    }
}

/// A request with a valid address gets the same answer, 202, whether the
/// address is unknown, inactive, at the hourly limit or sent a link, and
/// whether or not the link could be stored and mailed: two requests whose
/// lookups differ only in whether the address is a user's are answered
/// alike. `counted1` and `counted2` are the steps `link_counted` gave,
/// which it states are answered 202.
pub proof fn law_same_answer_for_every_address(
    found1: Option<User>,
    counted1: LinkStep,
    found2: Option<User>,
    counted2: LinkStep,
)
    requires
        step_answer(counted1) == Some(Ok::<u16, E>(ACCEPTED)),
        step_answer(counted2) == Some(Ok::<u16, E>(ACCEPTED)),
    ensures
        link_answer(found1, counted1) == Some(Ok::<u16, E>(ACCEPTED)),
        link_answer(found1, counted1) == link_answer(found2, counted2),
{
}

/// A used or expired token never signs anyone in: the redemption stops at
/// the lookup.
pub proof fn law_spent_token_rejected(row: TokenRow, now: i64)
    requires
        row.used_at is Some || row.expires_at <= now,
    ensures
        token_found_step(Some(row), now) == ConsumeStep::Reject,
{
}

/// Only an active user signs in with a token: an inactive user, or a token
/// whose user is gone, is refused.
pub proof fn law_inactive_user_rejected(token_id: i64, user: User)
    requires
        user.is_active != 1,
    ensures
        user_loaded_step(token_id, Some(user)) == ConsumeStep::Reject,
        user_loaded_step(token_id, None) == ConsumeStep::Reject,
{
}

/// Every active user whose token passed the lookup goes on to the mark that
/// spends the token, whatever the user's role, name or login history: the
/// step carries the token and the user unchanged.
pub proof fn law_active_user_proceeds(token_id: i64, user: User)
    requires
        user.is_active == 1,
    ensures
        user_loaded_step(token_id, Some(user)) == (ConsumeStep::MarkUsed { token_id, user }),
{
}

/// A token that is unused and not yet expired passes the lookup: the next
/// step loads the user it belongs to.
pub proof fn law_fresh_token_loads_user(row: TokenRow, now: i64)
    requires
        row.used_at is None,
        now < row.expires_at,
    ensures
        token_found_step(Some(row), now) == (ConsumeStep::LoadUser {
            token_id: row.id,
            user_id: row.user_id,
        }),
{
}

/// A mark that spent the token, changing exactly one row, signs the user in.
pub proof fn law_spent_mark_signs_in(user: User)
    ensures
        marked_step(user, 1) == ConsumeStep::Finish(user),
{
}

/// Every active user found by address goes on to the hourly count, and so
/// is sent a link below the limit, whatever the user's role; an unknown or
/// inactive address is answered at once with 202 and gets no link.
pub proof fn law_active_user_gets_link(user: User)
    ensures
        user.is_active == 1 ==> found_step(Some(user)) == LinkStep::CountRecent(user),
        user.is_active != 1 ==> found_step(Some(user)) == LinkStep::Reply(Ok::<u16, E>(ACCEPTED)),
        found_step(None) == LinkStep::Reply(Ok::<u16, E>(ACCEPTED)),
{
}

/// A magic link signs a user in at most once. Once a redemption has marked
/// the row used, every later redemption of the same token stops at the
/// lookup; a redemption that ran alongside it and found the row still
/// unused is stopped when its own mark changes no row.
pub proof fn law_link_signs_in_once(row: TokenRow, used_at: i64, later: i64, user: User)
    ensures
        token_found_step(Some(marked_used(row, used_at)), later) == ConsumeStep::Reject,
        marked_step(user, 0) == ConsumeStep::Reject,
{
}

/// Two redemptions of one token that both passed the lookup: the database
/// applies their conditional marks one after the other, so at most one of
/// them changes the row and signs its user in, and `used_at` is written once.
pub proof fn law_concurrent_redemptions(row: TokenRow, at1: i64, at2: i64, user1: User, user2: User)
    ensures
        ({
            let (after1, rows1) = mark(row, at1);
            let (after2, rows2) = mark(after1, at2);
            &&& !(marked_step(user1, rows1) is Finish && marked_step(user2, rows2) is Finish)
            &&& rows1 == 1 ==> after2 == after1 && after1.used_at == Some(at1)
        }),
{
}

/// A new link revokes the user's older ones: after the request retires the
/// user's unused tokens and stores the new record, an older token of the
/// user no longer signs in, while the new one does until it expires.
pub proof fn law_new_link_revokes_older(
    old: TokenRow,
    record: TokenRecord,
    id: i64,
    at: i64,
    later: i64,
)
    requires
        old.user_id == record.user_id,
    ensures
        token_found_step(Some(retired(old, record.user_id, at)), later) == ConsumeStep::Reject,
        later < record.expires_at ==> token_found_step(Some(stored_row(record, id)), later)
            == (ConsumeStep::LoadUser { token_id: id, user_id: record.user_id }),
{
}

proof fn lemma_count_within(s: Seq<int>, lo1: int, hi1: int, lo2: int, x: int)
    requires
        lo2 <= lo1,
        forall|k: int| 0 <= k < s.len() ==> s[k] <= x,
    ensures
        count_in(s, lo1, hi1) <= count_in(s, lo2, x),
    decreases s.len(),
{
    if s.len() > 0 {
        lemma_count_within(s.drop_last(), lo1, hi1, lo2, x);
        assert(s.last() == s[s.len() - 1]);
    }
}

/// Within any window of an hour, at most `per_hour` tokens are created for a
/// user (and so at most `per_hour` links are mailed): `times` are the
/// creation times of the user's tokens, in the order the requests ran, each
/// created only when fewer than `per_hour` tokens had been created in the
/// hour before.
pub proof fn law_hourly_limit(times: Seq<int>, per_hour: int, start: int)
    requires
        0 <= per_hour,
        ascending(times),
        issued_within_limit(times, per_hour),
    ensures
        count_in(times, start, start + rate_window()) <= per_hour,
    decreases times.len(),
{
    if times.len() == 0 {
        return;
    }
    let n = times.len() - 1;
    let p = times.drop_last();
    let x = times.last();
    assert(p =~= times.take(n));
    assert(ascending(p));
    assert(issued_within_limit(p, per_hour)) by {
        assert forall|i: int| 0 <= i < p.len() implies #[trigger] count_in(p.take(i), p[i] - rate_window(), p[i]) < per_hour by {
            assert(p.take(i) =~= times.take(i));
            assert(count_in(times.take(i), times[i] - rate_window(), times[i]) < per_hour);
        }
    }
    if start <= x <= start + rate_window() {
        assert(x == times[n]);
        assert(count_in(times.take(n), times[n] - rate_window(), times[n]) < per_hour);
        assert forall|k: int| 0 <= k < p.len() implies p[k] <= x by {
            assert(p[k] == times[k]);
        }
        lemma_count_within(p, start, start + rate_window(), x - rate_window(), x);
    } else {
        law_hourly_limit(p, per_hour, start);
    }
}

/// Demoting the last active admin to a user, or deactivating them, is
/// refused: such an update is flagged for the last-admin check, and the
/// check refuses when at most one active admin is left.
pub proof fn law_last_admin_kept(old: User, new_role: Seq<char>, active: bool, count: i64)
    requires
        is_active_admin(old),
        new_role == "user"@ || !active,
        count <= 1,
    ensures
        removes_admin(old, new_role, active),
        !admins_to_spare(count),
{
    reveal_strlit("user");
    reveal_strlit("admin");
    assert("user"@.len() != "admin"@.len());
}

/// An update takes an active admin away, in the sense of `law_an_admin_remains`,
/// exactly when `update_plan` flags it for the last-admin check: the stored
/// user `v` after the update has the planned role and status.
pub proof fn law_check_flags_admin_removal(old: User, v: User, new_role: Seq<char>, active: bool)
    requires
        v.role@ == new_role,
        (v.is_active != 0) == active,
    ensures
        removes_admin(old, new_role, active) == (is_active_admin(old) && !is_active_admin(v)),
{
}

proof fn lemma_admins_after_change(users: Seq<User>, i: int, v: User)
    requires
        0 <= i < users.len(),
    ensures
        active_admins(users.update(i, v)) + (if is_active_admin(users[i]) { 1int } else { 0int })
            == active_admins(users) + (if is_active_admin(v) { 1int } else { 0int }),
    decreases users.len(),
{
    let n = users.len() - 1;
    let u = users.update(i, v);
    if i == n {
        assert(u.drop_last() =~= users.drop_last());
    } else {
        assert(u.drop_last() =~= users.drop_last().update(i, v));
        lemma_admins_after_change(users.drop_last(), i, v);
    }
}

/// The last active admin is kept whatever changes run, one after another as
/// the database's transactions do: if an active admin was stored and every
/// change that takes an active admin away passed the last-admin check in
/// its own transaction, an active admin is still stored after all of them.
pub proof fn law_an_admin_remains(users: Seq<User>, changes: Seq<(int, User)>)
    requires
        active_admins(users) >= 1,
        all_guarded(users, changes),
    ensures
        active_admins(apply_changes(users, changes)) >= 1,
    decreases changes.len(),
{
    if changes.len() > 0 {
        let n = changes.len() - 1;
        let rest = changes.drop_last();
        assert(all_guarded(users, rest)) by {
            assert forall|k: int| 0 <= k < rest.len() implies #[trigger] guarded_at(users, rest, k) by {
                assert(rest.take(k) =~= changes.take(k));
                assert(rest[k] == changes[k]);
                assert(guarded_at(users, changes, k));
            }
        }
        law_an_admin_remains(users, rest);
        assert(changes.take(n) =~= rest);
        let before = apply_changes(users, changes.take(n));
        assert(guarded_at(users, changes, n));
        lemma_admins_after_change(before, changes[n].0, changes[n].1);
    }
}

/// An update keeps what it does not carry: with no role the stored role is
/// planned, with no status the stored status; a carried role or status is
/// planned as it was sent.
pub proof fn law_update_keeps_unset_fields(old: User, role: String, active: bool)
    ensures
        requested_role(old, None) == old.role@,
        requested_active(old, None) == (old.is_active != 0),
        requested_role(old, Some(role)) == role@,
        requested_active(old, Some(active)) == active,
{
}

/// An update is flagged for the last-admin check exactly when the stored
/// user is an active admin and the update makes them a non-admin or inactive.
pub proof fn law_admin_removal_flagged(old: User, new_role: Seq<char>, active: bool)
    ensures
        removes_admin(old, new_role, active) == (old.role@ == "admin"@ && old.is_active != 0 && (
        new_role != "admin"@ || !active)),
{
}

/// The admin panel shows each user's stored fields unchanged: id, address,
/// display name, role, creation and last login time, and the status as a flag.
pub proof fn law_shown_fields(out: UserOut, user: User)
    requires
        shows(out, user),
    ensures
        out.id == user.id,
        out.email == user.email,
        out.display_name == user.display_name,
        out.role == user.role,
        out.is_active == (user.is_active != 0),
        out.created_at == user.created_at,
        out.last_login_at == user.last_login_at,
{
}

/// A set variable is used as it is written (the base address without its
/// trailing slashes, a number or flag as it parses); the default applies
/// only to an unset one, and the required ones are always set.
pub proof fn law_configured_values(vars: EnvVars, c: Config)
    requires
        config_of(vars, c),
    ensures
        c.addr@ == match vars.bind_addr {
            Some(s) => s@,
            None => "127.0.0.1:3000"@,
        },
        c.db@ == match vars.database_url {
            Some(s) => s@,
            None => "sqlite://./data/app.db?mode=rwc"@,
        },
        c.base@ == strip_trailing(
            match vars.base_url {
                Some(s) => s@,
                None => "http://localhost:3000"@,
            },
            '/',
        ),
        c.cors@ == match vars.cors_origin {
            Some(s) => s@,
            None => "http://localhost:5173"@,
        },
        c.dist@ == match vars.dist_dir {
            Some(s) => s@,
            None => "./frontend/dist"@,
        },
        c.cookie@ == match vars.cookie_name {
            Some(s) => s@,
            None => "app_session"@,
        },
        match vars.session_secure {
            Some(s) => bool_text(s@) == Some(c.secure),
            None => !c.secure,
        },
        match vars.session_hours {
            Some(s) => i64_text(s@) == Some(c.session_hours),
            None => c.session_hours == 168,
        },
        match vars.link_ttl {
            Some(s) => i64_text(s@) == Some(c.ttl),
            None => c.ttl == 15,
        },
        match vars.links_per_hour {
            Some(s) => i64_text(s@) == Some(c.per_hour),
            None => c.per_hour == 5,
        },
        vars.postmark_token matches Some(s) && c.token@ == s@,
        vars.postmark_from matches Some(s) && c.from@ == s@,
        c.stream@ == match vars.postmark_stream {
            Some(s) => s@,
            None => "outbound"@,
        },
        vars.bootstrap_admin matches Some(s) && c.admin@ == s@,
{
    reveal_strlit("true");
    reveal_strlit("false");
    assert("false"@.len() != "true"@.len());
}

/// A configuration is built only when every check passes: an unparsable
/// base address, an unparsable bind address or a missing required variable
/// is always reported, and with all of them right and the optional ones
/// unset the defaults are taken.
pub proof fn law_configuration_checked(vars: EnvVars, url_ok: bool, addr_ok: bool)
    ensures
        !url_ok ==> checked_error(vars, url_ok, addr_ok) == Some("Érvénytelen APP_BASE_URL"@),
        url_ok && !addr_ok ==> checked_error(vars, url_ok, addr_ok) == Some(
            "Érvénytelen BIND_ADDR"@,
        ),
        vars.postmark_token is None || vars.postmark_from is None || vars.bootstrap_admin is None
            ==> checked_error(vars, url_ok, addr_ok) is Some,
        url_ok && addr_ok && vars.session_secure is None && vars.session_hours is None
            && vars.link_ttl is None && vars.links_per_hour is None && vars.postmark_token is Some
            && vars.postmark_from is Some && vars.bootstrap_admin is Some ==> checked_error(
            vars,
            url_ok,
            addr_ok,
        ) is None,
{
    reveal_strlit("true");
    reveal_strlit("false");
    assert("false"@.len() != "true"@.len());
}

/// The client never sees the text of an internal error: every internal
/// error shows the same generic message.
pub proof fn law_internal_text_hidden(a: String, b: String)
    ensures
        message_of(E::Internal(a)) == message_of(E::Internal(b)),
{
}

/// Only two roles exist: `admin` and `user`, written exactly so.
pub proof fn law_two_roles(v: Seq<char>)
    ensures
        role_valid(v) <==> (v == "admin"@ || v == "user"@),
{
}

/// An active admin is a user with the role `admin` whose status is not
/// inactive; no other user passes the admin guard or counts for the
/// last-admin check.
pub proof fn law_active_admin(u: User)
    ensures
        is_active_admin(u) <==> (u.role@ == "admin"@ && u.is_active != 0),
{
}

/// An update ends the user's sessions exactly when it changes the role or
/// the status.
pub proof fn law_sessions_end_on_change(old: User, new_role: Seq<char>, active: bool)
    ensures
        rotates_sessions(old, new_role, active) <==> (new_role != old.role@ || active != (
        old.is_active != 0)),
{
}

/// A normalized address is accepted exactly when it is at most 254 bytes
/// long and holds an `@` that is neither its first nor its last character.
pub proof fn law_address_rules(e: Seq<char>)
    ensures
        byte_len(e) > 254 ==> !email_valid(e),
        !e.contains('@') ==> !email_valid(e),
        e.len() > 0 && e[0] == '@' ==> !email_valid(e),
        e.len() > 0 && e[e.len() - 1] == '@' ==> !email_valid(e),
        byte_len(e) <= 254 && e.contains('@') && e[0] != '@' && e[e.len() - 1] != '@'
            ==> email_valid(e),
{
}

/// A display name is stored trimmed: an absent or blank name is stored as
/// no name, a name longer than 120 bytes once trimmed is refused, and any
/// other is stored as its trimmed text.
pub proof fn law_name_rules(v: String)
    ensures
        name_value(None) == Some(None::<Seq<char>>),
        trimmed(v@).len() == 0 ==> name_value(Some(v)) == Some(None::<Seq<char>>),
        byte_len(trimmed(v@)) > 120 ==> name_value(Some(v)) is None,
        trimmed(v@).len() > 0 && byte_len(trimmed(v@)) <= 120 ==> name_value(Some(v)) == Some(
            Some(trimmed(v@)),
        ),
{
    if trimmed(v@).len() == 0 {
        assert(trimmed(v@) =~= Seq::<char>::empty());
        assert(encode_utf8(Seq::<char>::empty()) =~= Seq::<u8>::empty());
    }
}

proof fn lemma_trim_start_append_space(v: Seq<char>, c: char)
    requires
        white_space(c),
    ensures
        trim_start(v + seq![c]) == if trim_start(v).len() > 0 {
            trim_start(v) + seq![c]
        } else {
            Seq::<char>::empty()
        },
    decreases v.len(),
{
    let w = v + seq![c];
    if v.len() == 0 {
        assert(w =~= seq![c]);
        assert(w.drop_first() =~= Seq::<char>::empty());
        assert(trim_start(v) =~= Seq::<char>::empty());
    } else if white_space(v[0]) {
        assert(w.drop_first() =~= v.drop_first() + seq![c]);
        lemma_trim_start_append_space(v.drop_first(), c);
    } else {
        assert(w[0] == v[0]);
    }
}

/// Surrounding white space never changes a normalized address or a stored
/// text: one more white-space character before or after it is trimmed away.
pub proof fn law_surrounding_space_ignored(v: Seq<char>, c: char)
    requires
        white_space(c),
    ensures
        trimmed(seq![c] + v) == trimmed(v),
        trimmed(v + seq![c]) == trimmed(v),
        normalized_email(seq![c] + v) == normalized_email(v),
        normalized_email(v + seq![c]) == normalized_email(v),
{
    assert((seq![c] + v).drop_first() =~= v);
    assert((seq![c] + v)[0] == c);
    lemma_trim_start_append_space(v, c);
    let t = trim_start(v);
    if t.len() > 0 {
        assert((t + seq![c]).drop_last() =~= t);
        assert((t + seq![c]).last() == c);
    } else {
        assert(t =~= Seq::<char>::empty());
    }
}

/// The callback address starts with the base address and ends with the
/// raw token, so the link a user gets carries the token it was issued.
pub proof fn law_callback_carries_token(base: Seq<char>, raw: Seq<char>)
    ensures
        callback(base, raw).subrange(0, base.len() as int) == base,
        callback(base, raw).subrange(
            base.len() as int,
            (base.len() + "/auth/callback?token="@.len()) as int,
        ) == "/auth/callback?token="@,
        callback(base, raw).subrange(callback(base, raw).len() - raw.len(), callback(base, raw).len() as int)
            == raw,
{
    let u = callback(base, raw);
    assert(u.subrange(0, base.len() as int) =~= base);
    assert(u.subrange(base.len() as int, (base.len() + "/auth/callback?token="@.len()) as int)
        =~= "/auth/callback?token="@);
    assert(u.subrange(u.len() - raw.len(), u.len() as int) =~= raw);
}

/// Both bodies of the link e-mail carry the link: the HTML body as the
/// target of its anchor, the plain-text body after `Belépés: `.
pub proof fn law_mail_carries_link(url: Seq<char>)
    ensures
        html_body(url).subrange(12, 12 + url.len() as int) == url,
        text_body(url).subrange(9, 9 + url.len() as int) == url,
{
    reveal_strlit("<p><a href=\"");
    reveal_strlit("Belépés: ");
    assert(html_body(url).subrange(12, 12 + url.len() as int) =~= url);
    assert(text_body(url).subrange(9, 9 + url.len() as int) =~= url);
}

/// A request error is answered with a 4xx status and only a server failure
/// with 500, so a client can tell its own mistakes from the server's.
pub proof fn law_error_statuses(e: E)
    ensures
        (status_of(e) == 500) <==> (e is Internal),
        !(e is Internal) ==> 400 <= status_of(e) < 500,
{
}

proof fn lemma_first_index_is(s: Seq<char>, c: char, k: int)
    requires
        is_first_index(s, c, k),
    ensures
        first_index(s, c) == k,
{
    let f = first_index(s, c);
    assert(is_first_index(s, c, f));
    if f < k {
        assert(s[f] != c);
    }
    if k < f {
        assert(s[k] != c);
    }
}

proof fn lemma_database_path(url: Seq<char>, p: Seq<char>)
    requires
        !p.contains('?'),
        url.len() >= 9 + p.len(),
        url.subrange(0, 9) == "sqlite://"@,
        url.subrange(9, 9 + p.len() as int) == p,
        url.len() == 9 + p.len() || url[9 + p.len() as int] == '?',
    ensures
        database_dir(url) == match path_parent(p) {
            Some(d) => if d.len() > 0 {
                Some(d)
            } else {
                None
            },
            None => None,
        },
{
    reveal_strlit("sqlite://");
    let prefix = "sqlite://"@;
    assert(prefix.is_prefix_of(url));
    let rest = url.skip(9);
    assert forall|j: int| 0 <= j < p.len() implies #[trigger] rest[j] != '?' by {
        assert(rest[j] == url.subrange(9, 9 + p.len() as int)[j]);
        if p[j] == '?' {
            assert(p.contains('?'));
        }
    }
    assert(is_first_index(rest, '?', p.len() as int));
    lemma_first_index_is(rest, '?', p.len() as int);
    assert(rest.take(p.len() as int) =~= p);
}

/// The database directory is the parent of the file path that follows
/// `sqlite://`, up to the query that begins at the first `?`; a URL that is
/// not a `sqlite://` one names no directory to create.
pub proof fn law_database_directory(url: Seq<char>, p: Seq<char>, q: Seq<char>)
    requires
        !p.contains('?'),
    ensures
        !"sqlite://"@.is_prefix_of(url) ==> database_dir(url) is None,
        database_dir("sqlite://"@ + p) == match path_parent(p) {
            Some(d) => if d.len() > 0 {
                Some(d)
            } else {
                None
            },
            None => None,
        },
        database_dir("sqlite://"@ + p + seq!['?'] + q) == database_dir("sqlite://"@ + p),
{
    reveal_strlit("sqlite://");
    let u0 = "sqlite://"@ + p;
    let u1 = "sqlite://"@ + p + seq!['?'] + q;
    assert(u0.subrange(0, 9) =~= "sqlite://"@);
    assert(u0.subrange(9, 9 + p.len() as int) =~= p);
    lemma_database_path(u0, p);
    assert(u1.subrange(0, 9) =~= "sqlite://"@);
    assert(u1.subrange(9, 9 + p.len() as int) =~= p);
    assert(u1[9 + p.len() as int] == '?');
    lemma_database_path(u1, p);
}

/// An address is normalized by trimming its surrounding white space and
/// then lowercasing it.
pub proof fn law_address_normalized(v: Seq<char>)
    ensures
        normalized_email(v) == lower_case(trimmed(v)),
{
}

/// Each kind of error is answered with its own status and its own code, and
/// the client reads the reason of a malformed request or a conflict as it
/// was given.
pub proof fn law_error_kinds(e1: E, e2: E, v: String)
    ensures
        message_of(E::Bad(v)) == v@,
        message_of(E::Conflict(v)) == v@,
        status_of(e1) == status_of(e2) ==> {
            &&& (e1 is Bad <==> e2 is Bad)
            &&& (e1 is Unauthorized <==> e2 is Unauthorized)
            &&& (e1 is Forbidden <==> e2 is Forbidden)
            &&& (e1 is NotFound <==> e2 is NotFound)
            &&& (e1 is Conflict <==> e2 is Conflict)
            &&& (e1 is Rate <==> e2 is Rate)
            &&& (e1 is Internal <==> e2 is Internal)
        },
        code_of(e1) == code_of(e2) ==> {
            &&& (e1 is Bad <==> e2 is Bad)
            &&& (e1 is Unauthorized <==> e2 is Unauthorized)
            &&& (e1 is Forbidden <==> e2 is Forbidden)
            &&& (e1 is NotFound <==> e2 is NotFound)
            &&& (e1 is Conflict <==> e2 is Conflict)
            &&& (e1 is Rate <==> e2 is Rate)
            &&& (e1 is Internal <==> e2 is Internal)
        },
{
    reveal_strlit("bad_request");
    reveal_strlit("unauthorized");
    reveal_strlit("forbidden");
    reveal_strlit("not_found");
    reveal_strlit("conflict");
    reveal_strlit("rate_limited");
    reveal_strlit("internal_error");
    if code_of(e1) == code_of(e2) {
        assert(code_of(e1).len() == code_of(e2).len());
        assert(code_of(e1)[0] == code_of(e2)[0]);
    }
}

/// A number setting is read as decimal digits with an optional sign: the
/// digits give their value, `-` negates it, `+` keeps it; an empty text or a
/// lone sign is no number.
pub proof fn law_number_text(d: Seq<char>)
    requires
        d.len() > 0,
        all_digits(d),
    ensures
        int_text(d) == Some(digits_value(d)),
        int_text(seq!['-'] + d) == Some(-digits_value(d)),
        int_text(seq!['+'] + d) == Some(digits_value(d)),
        int_text(Seq::<char>::empty()) is None,
        int_text(seq!['-']) is None,
        int_text(seq!['+']) is None,
{
    assert(is_digit(d[0]));
    assert((seq!['-'] + d).drop_first() =~= d);
    assert((seq!['+'] + d).drop_first() =~= d);
    assert(seq!['-'].drop_first() =~= Seq::<char>::empty());
    assert(seq!['+'].drop_first() =~= Seq::<char>::empty());
}

/// The base address loses its trailing slashes and nothing else: the result
/// does not end with a slash, is the start of the address, and only slashes
/// were dropped.
pub proof fn law_trailing_slashes_dropped(s: Seq<char>, c: char)
    ensures
        !ends_with_char(strip_trailing(s, c), c),
        strip_trailing(s, c).is_prefix_of(s),
        forall|i: int| strip_trailing(s, c).len() <= i < s.len() ==> s[i] == c,
    decreases s.len(),
{
    if s.len() > 0 && s.last() == c {
        law_trailing_slashes_dropped(s.drop_last(), c);
        let t = strip_trailing(s.drop_last(), c);
        assert(t.is_prefix_of(s)) by {
            assert(s.subrange(0, t.len() as int) =~= s.drop_last().subrange(0, t.len() as int));
        }
        assert forall|i: int| t.len() <= i < s.len() implies s[i] == c by {
            if i < s.len() - 1 {
                assert(s[i] == s.drop_last()[i]);
            }
        }
    } else {
        assert(s.subrange(0, s.len() as int) =~= s);
    }
}

/// The stored hash of a token is lowercase hexadecimal text: two digits
/// `0`-`9` or `a`-`f` per byte of the digest.
pub proof fn law_hex_digits(bytes: Seq<u8>)
    ensures
        crate::crypto::hex_lower(bytes).len() == 2 * bytes.len(),
        forall|i: int|
            0 <= i < crate::crypto::hex_lower(bytes).len() ==> {
                let h = #[trigger] crate::crypto::hex_lower(bytes)[i];
                ('0' <= h <= '9') || ('a' <= h <= 'f')
            },
    decreases bytes.len(),
{
    if bytes.len() > 0 {
        law_hex_digits(bytes.drop_last());
        let b = bytes.last();
        let hi = b / 16;
        let lo = b % 16;
        lemma_hex_char(hi);
        lemma_hex_char(lo);
        let p = crate::crypto::hex_lower(bytes.drop_last());
        let h = crate::crypto::hex_lower(bytes);
        assert(h == p + seq![crate::crypto::hex_char(hi), crate::crypto::hex_char(lo)]);
        assert forall|i: int| 0 <= i < h.len() implies {
            let x = #[trigger] h[i];
            ('0' <= x <= '9') || ('a' <= x <= 'f')
        } by {
            if i < p.len() {
                assert(h[i] == p[i]);
            }
        }
    }
}

proof fn lemma_hex_char(n: u8)
    requires
        n < 16,
    ensures
        ('0' <= crate::crypto::hex_char(n) <= '9') || ('a' <= crate::crypto::hex_char(n) <= 'f'),
{
}

} // verus!
