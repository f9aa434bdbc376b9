//! What holds of the library as a whole, proved from the definitions that
//! the contracts of its functions are written in.

use vstd::prelude::*;
use crate::account::AccountView;
use crate::account::accounts_wf;
use crate::account::by_name;
use crate::account::is_named;
use crate::account::is_numbered;
use crate::account::owner_id;
use crate::authentication::authenticated;
use crate::authentication::current_user;
use crate::authentication::logged_in;
use crate::authentication::rejection;
use crate::authentication::user_of;
use crate::authentication::welcome;
use crate::error::AuthError;
use crate::lemmas::lemma_cookie_literals;
use crate::lemmas::lemma_filter_keeps;
use crate::lemmas::lemma_filter_loses_one;
use crate::lemmas::lemma_find_live_is;
use crate::lemmas::lemma_oldest_among;
use crate::lemmas::lemma_push_keeps_wf;
use crate::lemmas::lemma_rejection;
use crate::lemmas::lemma_swept;
use crate::lemmas::lemma_validated_wf;
use crate::lemmas::lemma_with_room;
use crate::manager::creatable;
use crate::manager::created;
use crate::manager::new_session;
use crate::manager::swept;
use crate::manager::validated;
use crate::manager::with_room;
use crate::password::verification_outcome;
use crate::session::SessionConfig;
use crate::session::SessionView;
use crate::session::accepted;
use crate::session::idle_too_long;
use crate::session::live;
use crate::session::usable;
use crate::table::deactivated;
use crate::table::dead;
use crate::table::evicted;
use crate::table::find_live;
use crate::table::has_id;
use crate::table::inactive;
use crate::table::invalidated;
use crate::table::is_live_match;
use crate::table::is_oldest_active;
use crate::table::lemma_deactivated_wf;
use crate::table::lemma_filter_source;
use crate::table::lemma_filter_wf;
use crate::table::lemma_oldest_active_unique;
use crate::table::live_of;
use crate::table::oldest_active;
use crate::table::purged;
use crate::table::table_wf;
use crate::table::touched;

verus! {

/// A purge removes exactly the records that expired before `now` or were
/// invalidated: every other record stays, nothing is added, and a record
/// that is live at `now` is never removed.
pub proof fn law_purge_removes_only_dead_records(t: Seq<SessionView>, now: i64)
    ensures
        forall|k: int|
            0 <= k < purged(t, now).len() ==> !dead(#[trigger] purged(t, now)[k], now)
                && t.contains(purged(t, now)[k]),
        forall|i: int|
            0 <= i < t.len() && !dead(#[trigger] t[i], now) ==> purged(t, now).contains(t[i]),
        forall|i: int|
            0 <= i < t.len() && live(#[trigger] t[i], now) ==> purged(t, now).contains(t[i]),
        forall|i: int|
            0 <= i < t.len() && dead(#[trigger] t[i], now) ==> !purged(t, now).contains(t[i]),
{
    let keep = |s: SessionView| !dead(s, now);
    let p = purged(t, now);
    lemma_filter_source(t, keep);
    assert forall|k: int| 0 <= k < p.len() implies !dead(#[trigger] p[k], now) && t.contains(
        p[k],
    ) by {
        let i = choose|i: int| k <= i < t.len() && t[i] == p[k];
        assert(t[i] == p[k]);
    }
    assert forall|i: int| 0 <= i < t.len() && !dead(#[trigger] t[i], now) implies p.contains(
        t[i],
    ) by {
        lemma_filter_keeps(t, keep, i);
        let k = choose|k: int| 0 <= k < p.len() && #[trigger] p[k] == t[i];
        assert(p[k] == t[i]);
    }
    assert forall|i: int| 0 <= i < t.len() && dead(#[trigger] t[i], now) implies !p.contains(
        t[i],
    ) by {
        if p.contains(t[i]) {
            let k = choose|k: int| 0 <= k < p.len() && p[k] == t[i];
            assert(!dead(p[k], now));
        }
    }
}

/// A password or a stored hash that is empty is invalid input, whatever the
/// other is.
pub proof fn law_empty_arguments_are_invalid(password: Seq<char>, stored_hash: Seq<char>)
    requires
        password.len() == 0 || stored_hash.len() == 0,
    ensures
        verification_outcome(password, stored_hash) == Err::<bool, AuthError>(
            AuthError::InvalidInput,
        ),
{
}

/// A login under an unknown name and a login under a known name with a
/// wrong password fail alike: both are invalid credentials, both get the
/// same answer, which says nothing but that, and neither touches the
/// sessions.
pub proof fn law_failed_logins_look_alike(
    accounts: Seq<AccountView>,
    t: Seq<SessionView>,
    config: SessionConfig,
    now: i64,
    session_id: Seq<char>,
    unknown: Seq<char>,
    any_password: Seq<char>,
    known: Seq<char>,
    wrong_password: Seq<char>,
    ip: Option<Seq<char>>,
    user_agent: Option<Seq<char>>,
)
    requires
        by_name(accounts, unknown).is_none(),
        by_name(accounts, known) matches Some(account) && verification_outcome(
            wrong_password,
            account.password_hash,
        ) == Ok::<bool, AuthError>(false),
    ensures
        authenticated(accounts, unknown, any_password) == Err::<AccountView, AuthError>(
            AuthError::InvalidCredentials,
        ),
        authenticated(accounts, known, wrong_password) == Err::<AccountView, AuthError>(
            AuthError::InvalidCredentials,
        ),
        logged_in(accounts, t, config, now, session_id, unknown, any_password, ip, user_agent) == (
            t,
            Ok::<_, AuthError>(rejection()),
        ),
        logged_in(accounts, t, config, now, session_id, known, wrong_password, ip, user_agent) == (
            t,
            Ok::<_, AuthError>(rejection()),
        ),
        !rejection().success,
        rejection().message == "Invalid credentials"@,
        rejection().session_id.is_none(),
        rejection().user.is_none(),
{
}

/// A session that has been invalidated never validates again, at any time
/// and from any client, and stays invalidated.
pub proof fn law_invalidated_session_stays_invalid(
    t: Seq<SessionView>,
    config: SessionConfig,
    now: i64,
    id: Seq<char>,
    ip: Option<Seq<char>>,
    user_agent: Option<Seq<char>>,
)
    requires
        table_wf(t),
        invalidated(t, id),
    ensures
        validated(t, config, now, id, ip, user_agent).1.is_none(),
        invalidated(validated(t, config, now, id, ip, user_agent).0, id),
        table_wf(validated(t, config, now, id, ip, user_agent).0),
{
    let sw = swept(t, config, now);
    lemma_swept(t, config, now);
    assert forall|k: int| 0 <= k < sw.len() && (#[trigger] sw[k]).session_id == id implies
        !sw[k].is_active by {
        assert(t.contains(sw[k]));
        let i = choose|i: int| 0 <= i < t.len() && t[i] == sw[k];
        assert(t[i].session_id == id);
    }
    assert forall|k: int| !is_live_match(sw, id, now, k) by {
        if 0 <= k < sw.len() && sw[k].session_id == id {
            assert(!sw[k].is_active);
        }
    }
}

/// A session is valid right after its creation, for the client that opened
/// it, and invalid from the moment it expires on, for every client: so at
/// one second past its lifetime.
pub proof fn law_new_session_is_valid_until_it_expires(
    t: Seq<SessionView>,
    config: SessionConfig,
    now: i64,
    id: Seq<char>,
    account_id: i32,
    ip: Option<Seq<char>>,
    user_agent: Option<Seq<char>>,
    later: i64,
    other_ip: Option<Seq<char>>,
    other_user_agent: Option<Seq<char>>,
)
    requires
        table_wf(t),
        config.wf(),
        created(t, config, now, id, account_id, ip, user_agent).1.is_ok(),
        later >= now + config.lifetime(),
    ensures
        ({
            let (after, made) = created(t, config, now, id, account_id, ip, user_agent);
            let s = new_session(config, now, id, account_id, ip, user_agent);
            &&& made == Ok::<SessionView, AuthError>(s)
            &&& table_wf(after)
            &&& s.expires_at == now + config.lifetime()
            &&& usable(s, config, now)
            &&& validated(after, config, now, id, ip, user_agent).1 == Some(s)
            &&& !usable(s, config, later)
            &&& validated(after, config, later, id, other_ip, other_user_agent).1.is_none()
        }),
{
    let (after, made) = created(t, config, now, id, account_id, ip, user_agent);
    let s = new_session(config, now, id, account_id, ip, user_agent);
    let room = with_room(t, config, account_id, now);
    lemma_with_room(t, config, account_id, now);
    assert(has_id(room, id) == has_id(t, id));
    lemma_push_keeps_wf(room, s);
    assert(after == room.push(s));
    assert(after[after.len() - 1] == s);

    // Right after creation.
    lemma_swept(after, config, now);
    let sw = swept(after, config, now);
    assert(live(after[after.len() - 1], now));
    assert(sw.contains(s));
    let k = choose|k: int| 0 <= k < sw.len() && sw[k] == s;
    lemma_find_live_is(sw, id, now, k);
    assert(accepted(s, config, now, ip, user_agent));

    // From its expiry on.
    lemma_swept(after, config, later);
    let sl = swept(after, config, later);
    assert forall|k: int| !is_live_match(sl, id, later, k) by {
        if 0 <= k < sl.len() && sl[k].session_id == id {
            assert(after.contains(sl[k]));
            let i = choose|i: int| 0 <= i < after.len() && after[i] == sl[k];
            if i < after.len() - 1 {
                assert(after[i].session_id != after[after.len() - 1].session_id);
            }
        }
    }
}

/// A session that has gone unused for longer than the idle allowance fails
/// validation although it has not expired, and the failed validation
/// invalidates it.
pub proof fn law_idle_session_is_rejected_and_invalidated(
    t: Seq<SessionView>,
    config: SessionConfig,
    now: i64,
    id: Seq<char>,
    ip: Option<Seq<char>>,
    user_agent: Option<Seq<char>>,
    i: int,
)
    requires
        table_wf(t),
        0 <= i < t.len(),
        t[i].session_id == id,
        t[i].is_active,
        now < t[i].expires_at,
        idle_too_long(t[i], config, now),
    ensures
        validated(t, config, now, id, ip, user_agent).1.is_none(),
        invalidated(validated(t, config, now, id, ip, user_agent).0, id),
        table_wf(validated(t, config, now, id, ip, user_agent).0),
{
    lemma_rejection(t, config, now, id, ip, user_agent, i);
}

/// Presenting a session from an address other than the one that opened it
/// fails validation where sessions are bound to addresses, and invalidates
/// the session for good: no later validation succeeds, not even from the
/// address that opened it.
pub proof fn law_foreign_address_invalidates_session(
    t: Seq<SessionView>,
    config: SessionConfig,
    now: i64,
    id: Seq<char>,
    ip: Option<Seq<char>>,
    user_agent: Option<Seq<char>>,
    i: int,
    later: i64,
    later_ip: Option<Seq<char>>,
    later_user_agent: Option<Seq<char>>,
)
    requires
        table_wf(t),
        config.bind_to_ip,
        0 <= i < t.len(),
        t[i].session_id == id,
        live(t[i], now),
        crate::session::differs(t[i].ip_address, ip),
    ensures
        validated(t, config, now, id, ip, user_agent).1.is_none(),
        invalidated(validated(t, config, now, id, ip, user_agent).0, id),
        validated(
            validated(t, config, now, id, ip, user_agent).0,
            config,
            later,
            id,
            later_ip,
            later_user_agent,
        ).1.is_none(),
{
    lemma_rejection(t, config, now, id, ip, user_agent, i);
    law_invalidated_session_stays_invalid(
        validated(t, config, now, id, ip, user_agent).0,
        config,
        later,
        id,
        later_ip,
        later_user_agent,
    );
}

/// The same of the user agent, where sessions are bound to user agents.
pub proof fn law_foreign_user_agent_invalidates_session(
    t: Seq<SessionView>,
    config: SessionConfig,
    now: i64,
    id: Seq<char>,
    ip: Option<Seq<char>>,
    user_agent: Option<Seq<char>>,
    i: int,
    later: i64,
    later_ip: Option<Seq<char>>,
    later_user_agent: Option<Seq<char>>,
)
    requires
        table_wf(t),
        config.bind_to_user_agent,
        0 <= i < t.len(),
        t[i].session_id == id,
        live(t[i], now),
        crate::session::differs(t[i].user_agent, user_agent),
    ensures
        validated(t, config, now, id, ip, user_agent).1.is_none(),
        invalidated(validated(t, config, now, id, ip, user_agent).0, id),
        validated(
            validated(t, config, now, id, ip, user_agent).0,
            config,
            later,
            id,
            later_ip,
            later_user_agent,
        ).1.is_none(),
{
    lemma_rejection(t, config, now, id, ip, user_agent, i);
    law_invalidated_session_stays_invalid(
        validated(t, config, now, id, ip, user_agent).0,
        config,
        later,
        id,
        later_ip,
        later_user_agent,
    );
}

/// Validation succeeds for exactly the sessions that are in the table, not
/// invalidated, not expired, not idle for too long, and presented by the
/// client that opened them as far as the policy binds them. A session that
/// validates is returned as the table holds it.
pub proof fn law_validation_accepts_exactly_the_usable(
    t: Seq<SessionView>,
    config: SessionConfig,
    now: i64,
    id: Seq<char>,
    ip: Option<Seq<char>>,
    user_agent: Option<Seq<char>>,
)
    requires
        table_wf(t),
    ensures
        validated(t, config, now, id, ip, user_agent).1.is_some() <==> exists|i: int|
            0 <= i < t.len() && (#[trigger] t[i]).session_id == id && usable(t[i], config, now)
                && crate::session::bound_to(t[i], config, ip, user_agent),
        forall|i: int|
            0 <= i < t.len() && (#[trigger] t[i]).session_id == id && usable(t[i], config, now)
                && crate::session::bound_to(t[i], config, ip, user_agent) ==> validated(
                t,
                config,
                now,
                id,
                ip,
                user_agent,
            ).1 == Some(t[i]),
{
    let sw = swept(t, config, now);
    lemma_swept(t, config, now);
    assert forall|i: int|
        0 <= i < t.len() && (#[trigger] t[i]).session_id == id && usable(t[i], config, now)
            && crate::session::bound_to(t[i], config, ip, user_agent) implies validated(
        t,
        config,
        now,
        id,
        ip,
        user_agent,
    ).1 == Some(t[i]) by {
        assert(sw.contains(t[i]));
        let k = choose|k: int| 0 <= k < sw.len() && sw[k] == t[i];
        lemma_find_live_is(sw, id, now, k);
    }
    if validated(t, config, now, id, ip, user_agent).1.is_some() {
        let k = choose|k: int| is_live_match(sw, id, now, k);
        assert(is_live_match(sw, id, now, k));
        assert(t.contains(sw[k]));
        let i = choose|i: int| 0 <= i < t.len() && t[i] == sw[k];
        assert(t[i].session_id == id && usable(t[i], config, now));
    }
}

/// Where an account holds exactly as many live sessions as the policy
/// allows, creating one more succeeds, leaves it with exactly that many,
/// and invalidates the one that was its oldest.
///
/// This is stated of an account whose oldest session that has not been
/// invalidated has not expired either: eviction goes by the former, the
/// count by the latter, and an expired session that was never invalidated
/// would be evicted in place of a live one.
pub proof fn law_session_limit_evicts_the_oldest(
    t: Seq<SessionView>,
    config: SessionConfig,
    now: i64,
    id: Seq<char>,
    account_id: i32,
    ip: Option<Seq<char>>,
    user_agent: Option<Seq<char>>,
    max: u32,
)
    requires
        table_wf(t),
        creatable(config, now),
        !has_id(t, id),
        config.max_concurrent_sessions == Some(max),
        max >= 1,
        live_of(t, account_id, now).len() == max,
        forall|k: int| is_oldest_active(t, account_id, k) ==> t[k].expires_at > now,
    ensures
        ({
            let (after, made) = created(t, config, now, id, account_id, ip, user_agent);
            &&& made == Ok::<SessionView, AuthError>(
                new_session(config, now, id, account_id, ip, user_agent),
            )
            &&& live_of(after, account_id, now).len() == max
            &&& oldest_active(t, account_id) matches Some(k) && {
                &&& is_oldest_active(t, account_id, k)
                &&& live(t[k], now)
                &&& after[k] == inactive(t[k])
                &&& after.len() == t.len() + 1
                &&& forall|i: int| 0 <= i < t.len() && i != k ==> after[i] == t[i]
            }
        }),
{
    reveal(Seq::filter);
    let wanted = |s: SessionView| s.account_id == account_id && live(s, now);
    let s = new_session(config, now, id, account_id, ip, user_agent);
    let l = live_of(t, account_id, now);

    // The account has a session that has not been invalidated.
    lemma_filter_source(t, wanted);
    assert(wanted(l[0]));
    let w = choose|i: int| 0 <= i < t.len() && t[i] == l[0];
    assert(t[w].account_id == account_id && t[w].is_active);

    // So it has an oldest one, which is evicted.
    let k = lemma_oldest_among(t, account_id, t.len() as int);
    assert(is_oldest_active(t, account_id, k));
    let c = choose|i: int| is_oldest_active(t, account_id, i);
    lemma_oldest_active_unique(t, account_id, k, c);
    let room = with_room(t, config, account_id, now);
    assert(room == t.update(k, inactive(t[k])));
    lemma_with_room(t, config, account_id, now);
    assert(has_id(room, id) == has_id(t, id));

    // Which leaves one live session less, and the new one makes up for it.
    lemma_filter_loses_one(t, wanted, k, inactive(t[k]));
    let after = room.push(s);
    assert(after.drop_last() =~= room);
    assert(wanted(s));
}

/// A login that goes through hands out a session under which the account's
/// user is found, from the same client and at the same time; once that
/// session is logged out, no user is found under it any more.
pub proof fn law_login_then_logout(
    accounts: Seq<AccountView>,
    t: Seq<SessionView>,
    config: SessionConfig,
    now: i64,
    id: Seq<char>,
    username: Seq<char>,
    password: Seq<char>,
    ip: Option<Seq<char>>,
    user_agent: Option<Seq<char>>,
    later: i64,
    later_ip: Option<Seq<char>>,
    later_user_agent: Option<Seq<char>>,
)
    requires
        accounts_wf(accounts),
        table_wf(t),
        config.wf(),
        logged_in(accounts, t, config, now, id, username, password, ip, user_agent).1 matches Ok(
            response,
        ) && response.success,
    ensures
        ({
            let (t1, answer) = logged_in(
                accounts,
                t,
                config,
                now,
                id,
                username,
                password,
                ip,
                user_agent,
            );
            let (t2, user) = current_user(accounts, t1, config, now, id, ip, user_agent);
            let t3 = deactivated(t2, id);
            &&& by_name(accounts, username) matches Some(account) && {
                &&& answer == Ok::<_, AuthError>(
                    welcome(
                        account,
                        new_session(config, now, id, owner_id(account), ip, user_agent),
                    ),
                )
                &&& user == Some(user_of(account, id))
            }
            &&& current_user(
                accounts,
                t3,
                config,
                later,
                id,
                later_ip,
                later_user_agent,
            ).1.is_none()
        }),
{
    let account = by_name(accounts, username).unwrap();
    let (t1, answer) = logged_in(accounts, t, config, now, id, username, password, ip, user_agent);
    let owner = owner_id(account);
    let s = new_session(config, now, id, owner, ip, user_agent);
    assert(rejection().success == false);
    assert(created(t, config, now, id, owner, ip, user_agent).1.is_ok());
    law_new_session_is_valid_until_it_expires(
        t,
        config,
        now,
        id,
        owner,
        ip,
        user_agent,
        (now + config.lifetime()) as i64,
        ip,
        user_agent,
    );
    assert(validated(t1, config, now, id, ip, user_agent).1 == Some(s));

    // The account is found again under its identifier.
    let n = choose|i: int| is_named(accounts, username, i);
    assert(accounts[n] == account);
    assert(is_numbered(accounts, owner, n));
    let m = choose|i: int| is_numbered(accounts, owner, i);
    if m < n {
        assert(accounts[m].account_id != accounts[n].account_id);
    } else if n < m {
        assert(accounts[n].account_id != accounts[m].account_id);
    }

    // After the logout.
    let t2 = current_user(accounts, t1, config, now, id, ip, user_agent).0;
    assert(t2 == validated(t1, config, now, id, ip, user_agent).0);
    lemma_validated_wf(t1, config, now, id, ip, user_agent);
    let t3 = deactivated(t2, id);
    lemma_deactivated_wf(t2, id);
    law_invalidated_session_stays_invalid(t3, config, later, id, later_ip, later_user_agent);
}

/// A value that was written into a cookie is read back as it was written:
/// the text that sets a cookie, read as a cookie string, holds the value
/// under the name.
///
/// This is stated of names without `;` and `=` and of values without `;`,
/// neither with white space at an end where the parser would trim it.
pub proof fn law_cookie_round_trip(
    config: crate::cookies::CookieConfigView,
    name: Seq<char>,
    value: Seq<char>,
    max_age: int,
)
    requires
        forall|i: int| 0 <= i < name.len() ==> name[i] != ';' && name[i] != '=',
        forall|i: int| 0 <= i < value.len() ==> value[i] != ';',
        name.len() > 0 ==> !crate::text::is_space(name[0]) && !crate::text::is_space(name.last()),
        value.len() > 0 ==> !crate::text::is_space(value.last()),
    ensures
        crate::cookies::cookie_value(
            crate::cookies::cookie_text(config, name, value, max_age),
            name,
        ) == Some(value),
{
    lemma_cookie_literals();
    let s = crate::cookies::cookie_text(config, name, value, max_age);
    let pair = name + "="@ + value;
    let tail = "; Path="@ + config.path + "; Max-Age="@ + crate::text::decimal(max_age)
        + crate::cookies::secure_text(config.secure) + crate::cookies::same_site_text(
        config.same_site,
    ) + crate::cookies::domain_text(config.domain);
    assert(s =~= pair + tail);
    let n = name.len() as int;
    let end = pair.len() as int;
    assert(tail[0] == ';');
    assert(s[end] == ';');
    assert(s[n] == '=');
    assert forall|j: int| 0 <= j < end implies s[j] == pair[j] by {}
    assert forall|j: int| 0 <= j < n implies s[j] == name[j] by {}
    assert forall|j: int| n < j < end implies s[j] == value[j - n - 1] by {}

    assert(crate::cookies::is_first_at(s, ';', 0, s.len() as int, end)) by {
        assert forall|j: int| 0 <= j < end implies s[j] != ';' by {
            if j < n {
                assert(s[j] == name[j]);
            } else if j > n {
                assert(s[j] == value[j - n - 1]);
            }
        }
    }
    crate::cookies::lemma_first_at(s, ';', 0, s.len() as int, end);
    assert(crate::cookies::is_trim_start(s, 0, end, 0)) by {
        if n > 0 {
            assert(s[0] == name[0]);
        }
    }
    crate::cookies::lemma_trim_start(s, 0, end, 0);
    assert(crate::cookies::is_trim_end(s, 0, end, end)) by {
        if value.len() > 0 {
            assert(s[end - 1] == value[value.len() - 1]);
        } else {
            assert(end - 1 == n);
        }
    }
    crate::cookies::lemma_trim_end(s, 0, end, end);
    assert(crate::cookies::is_first_at(s, '=', 0, end, n)) by {
        assert forall|j: int| 0 <= j < n implies s[j] != '=' by {
            assert(s[j] == name[j]);
        }
    }
    crate::cookies::lemma_first_at(s, '=', 0, end, n);
    assert(crate::cookies::is_trim_end(s, 0, n, n)) by {
        if n > 0 {
            assert(s[n - 1] == name[n - 1]);
        }
    }
    crate::cookies::lemma_trim_end(s, 0, n, n);
    assert(s.subrange(0, n) =~= name);
    assert(s.subrange(n + 1, end) =~= value);
}

/// Creating a session keeps the table well formed: identifiers stay unique,
/// and every record expires after it was created.
pub proof fn law_creation_keeps_the_table_well_formed(
    t: Seq<SessionView>,
    config: SessionConfig,
    now: i64,
    id: Seq<char>,
    account_id: i32,
    ip: Option<Seq<char>>,
    user_agent: Option<Seq<char>>,
)
    requires
        table_wf(t),
    ensures
        table_wf(created(t, config, now, id, account_id, ip, user_agent).0),
{
    lemma_with_room(t, config, account_id, now);
    if creatable(config, now) {
        let room = with_room(t, config, account_id, now);
        if !has_id(room, id) {
            lemma_push_keeps_wf(room, new_session(config, now, id, account_id, ip, user_agent));
        }
    }
}

/// A purge changes nothing that a lookup at the same time can see: the rows
/// it removes are rows that no lookup finds.
pub proof fn law_purge_does_not_change_lookups(t: Seq<SessionView>, id: Seq<char>, now: i64)
    requires
        table_wf(t),
    ensures
        find_live(purged(t, now), id, now) == find_live(t, id, now),
{
    let keep = |s: SessionView| !dead(s, now);
    let p = purged(t, now);
    lemma_filter_wf(t, keep);
    lemma_filter_source(t, keep);
    if exists|i: int| is_live_match(t, id, now, i) {
        let i = choose|i: int| is_live_match(t, id, now, i);
        lemma_filter_keeps(t, keep, i);
        let k = choose|k: int| 0 <= k < p.len() && #[trigger] p[k] == t[i];
        lemma_find_live_is(p, id, now, k);
    } else {
        assert forall|k: int| !is_live_match(p, id, now, k) by {
            if 0 <= k < p.len() {
                let i = choose|i: int| k <= i < t.len() && t[i] == p[k];
                assert(!is_live_match(t, id, now, i));
            }
        }
    }
}

/// The policy, with purging on validation switched on or off.
pub open spec fn purging(config: SessionConfig, on: bool) -> SessionConfig {
    SessionConfig { cleanup_expired: on, ..config }
}

/// Whether or not validation purges first, it gives the same answer.
pub proof fn law_answer_does_not_depend_on_purging(
    t: Seq<SessionView>,
    config: SessionConfig,
    now: i64,
    id: Seq<char>,
    ip: Option<Seq<char>>,
    user_agent: Option<Seq<char>>,
)
    requires
        table_wf(t),
    ensures
        validated(t, purging(config, true), now, id, ip, user_agent).1 == validated(
            t,
            purging(config, false),
            now,
            id,
            ip,
            user_agent,
        ).1,
{
    law_purge_does_not_change_lookups(t, id, now);
}

/// Invalidating a session twice is the same as invalidating it once.
pub proof fn law_invalidation_is_idempotent(t: Seq<SessionView>, id: Seq<char>)
    ensures
        deactivated(deactivated(t, id), id) == deactivated(t, id),
        invalidated(deactivated(t, id), id),
{
    assert(deactivated(deactivated(t, id), id) =~= deactivated(t, id));
}

/// Once every session of an account has been invalidated, the account has
/// no live session, at any time.
pub proof fn law_account_invalidation_leaves_no_live_session(
    t: Seq<SessionView>,
    account_id: i32,
    now: i64,
)
    ensures
        live_of(crate::table::account_deactivated(t, account_id), account_id, now).len() == 0,
{
    let d = crate::table::account_deactivated(t, account_id);
    let wanted = |s: SessionView| s.account_id == account_id && live(s, now);
    lemma_filter_source(d, wanted);
    let l = d.filter(wanted);
    if l.len() > 0 {
        let i = choose|i: int| 0 <= i < d.len() && d[i] == l[0];
        assert(wanted(l[0]));
        assert(!d[i].is_active || d[i].account_id != account_id);
    }
}

/// No operation on an existing table makes an invalidated session active
/// again: not an access, not the invalidation of another session or of an
/// account, not an eviction, not a purge.
pub proof fn law_no_operation_revives_a_session(
    t: Seq<SessionView>,
    id: Seq<char>,
    other: Seq<char>,
    account_id: i32,
    now: i64,
)
    requires
        invalidated(t, id),
    ensures
        invalidated(touched(t, other, now), id),
        invalidated(deactivated(t, other), id),
        invalidated(crate::table::account_deactivated(t, account_id), id),
        invalidated(evicted(t, account_id), id),
        invalidated(purged(t, now), id),
{
    let a = touched(t, other, now);
    assert forall|i: int| 0 <= i < a.len() && (#[trigger] a[i]).session_id == id implies
        !a[i].is_active by {
        assert(t[i].session_id == id);
    }
    let b = deactivated(t, other);
    assert forall|i: int| 0 <= i < b.len() && (#[trigger] b[i]).session_id == id implies
        !b[i].is_active by {
        assert(t[i].session_id == id);
    }
    let c = crate::table::account_deactivated(t, account_id);
    assert forall|i: int| 0 <= i < c.len() && (#[trigger] c[i]).session_id == id implies
        !c[i].is_active by {
        assert(t[i].session_id == id);
    }
    let d = evicted(t, account_id);
    assert forall|i: int| 0 <= i < d.len() && (#[trigger] d[i]).session_id == id implies
        !d[i].is_active by {
        assert(t[i].session_id == id);
    }
    let e = purged(t, now);
    lemma_filter_source(t, |s: SessionView| !dead(s, now));
    assert forall|k: int| 0 <= k < e.len() && (#[trigger] e[k]).session_id == id implies
        !e[k].is_active by {
        let i = choose|i: int| k <= i < t.len() && t[i] == e[k];
        assert(t[i].session_id == id);
    }
}

/// The time of a session's last access never moves back: an access leaves
/// it where it was or moves it forward to the time of the access, and
/// changes nothing else of any session.
pub proof fn law_last_access_never_moves_back(t: Seq<SessionView>, id: Seq<char>, now: i64, i: int)
    requires
        0 <= i < t.len(),
    ensures
        touched(t, id, now).len() == t.len(),
        touched(t, id, now)[i].last_accessed >= t[i].last_accessed,
        touched(t, id, now)[i] == t[i] || touched(t, id, now)[i] == crate::table::accessed(
            t[i],
            now,
        ),
        t[i].session_id == id && t[i].is_active && now >= t[i].last_accessed ==> touched(
            t,
            id,
            now,
        )[i].last_accessed == now,
{
}

/// Renewing a session invalidates the old one, whether or not the new one
/// can be created.
pub proof fn law_renewal_invalidates_the_old_session(
    t: Seq<SessionView>,
    config: SessionConfig,
    now: i64,
    old_id: Seq<char>,
    id: Seq<char>,
    account_id: i32,
    ip: Option<Seq<char>>,
    user_agent: Option<Seq<char>>,
)
    requires
        old_id != id,
    ensures
        invalidated(
            crate::manager::renewed(t, config, now, old_id, id, account_id, ip, user_agent).0,
            old_id,
        ),
{
    let d = deactivated(t, old_id);
    assert(invalidated(d, old_id));
    let room = with_room(d, config, account_id, now);
    assert forall|i: int| 0 <= i < room.len() && (#[trigger] room[i]).session_id == old_id implies
        !room[i].is_active by {
        assert(d[i].session_id == old_id);
    }
    let after = crate::manager::renewed(t, config, now, old_id, id, account_id, ip, user_agent).0;
    assert forall|i: int| 0 <= i < after.len() && (#[trigger] after[i]).session_id == old_id implies
        !after[i].is_active by {
        if i < room.len() {
            assert(room[i].session_id == old_id);
        }
    }
}

} // verus!
