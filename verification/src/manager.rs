//! The session manager: creating, validating, renewing, invalidating and
//! purging sessions under a policy.
//!
//! Each operation is first a function on the table (`created`, `validated`,
//! `renewed`), which says what it does; the executable functions are proved
//! to do exactly that to the store.

use vstd::prelude::*;
use crate::clock::unix_now;
use crate::error::AuthError;
use crate::session::accepted;
use crate::session::check_session;
use crate::session::default_policy;
use crate::session::session_found;
use crate::session::session_result;
use crate::session::text_of;
use crate::session::Session;
use crate::session::SessionConfig;
use crate::session::SessionView;
use crate::store::lemma_store_wf;
use crate::store::views_of;
use crate::store::SessionStore;
use crate::table::account_deactivated;
use crate::table::deactivated;
use crate::table::evicted;
use crate::table::find_live;
use crate::table::has_id;
use crate::table::is_listing;
use crate::table::live_count;
use crate::table::live_of;
use crate::table::purged;
use crate::table::table_wf;
use crate::table::touched;
use crate::token::fresh_session_id;

verus! {

/// Whether a session can be created at `now`: the policy gives it a
/// lifetime, and its expiry is a time that can be written down.
pub open spec fn creatable(config: SessionConfig, now: i64) -> bool {
    config.duration_hours > 0 && now + config.lifetime() <= i64::MAX
}

/// The record of a session created at `now`.
pub open spec fn new_session(
    config: SessionConfig,
    now: i64,
    session_id: Seq<char>,
    account_id: i32,
    ip: Option<Seq<char>>,
    user_agent: Option<Seq<char>>,
) -> SessionView {
    SessionView {
        session_id,
        account_id,
        created_at: now,
        expires_at: (now + config.lifetime()) as i64,
        last_accessed: now,
        ip_address: ip,
        user_agent,
        is_active: true,
    }
}

/// Whether the account holds as many live sessions as the policy allows,
/// or more.
pub open spec fn at_limit(
    t: Seq<SessionView>,
    config: SessionConfig,
    account_id: i32,
    now: i64,
) -> bool {
    match config.max_concurrent_sessions {
        Some(max) => live_of(t, account_id, now).len() >= max,
        None => false,
    }
}

/// The table once room has been made for a new session of the account: at
/// the limit, the oldest session is evicted.
pub open spec fn with_room(
    t: Seq<SessionView>,
    config: SessionConfig,
    account_id: i32,
    now: i64,
) -> Seq<SessionView> {
    if at_limit(t, config, account_id, now) {
        evicted(t, account_id)
    } else {
        t
    }
}

/// What creating a session does to the table, and what it returns.
///
/// Eviction comes before insertion and is not undone when the insertion is
/// refused because the identifier is taken.
pub open spec fn created(
    t: Seq<SessionView>,
    config: SessionConfig,
    now: i64,
    session_id: Seq<char>,
    account_id: i32,
    ip: Option<Seq<char>>,
    user_agent: Option<Seq<char>>,
) -> (Seq<SessionView>, Result<SessionView, AuthError>) {
    if !creatable(config, now) {
        (t, Err(AuthError::InvalidInput))
    } else {
        let room = with_room(t, config, account_id, now);
        if has_id(room, session_id) {
            (room, Err(AuthError::StorageError))
        } else {
            let s = new_session(config, now, session_id, account_id, ip, user_agent);
            (room.push(s), Ok(s))
        }
    }
}

/// The table that validation looks the session up in: purged first, where
/// the policy says so.
pub open spec fn swept(t: Seq<SessionView>, config: SessionConfig, now: i64) -> Seq<SessionView> {
    if config.cleanup_expired {
        purged(t, now)
    } else {
        t
    }
}

/// What validating a session does to the table, and what it returns.
///
/// A session that is found but not accepted is invalidated on the spot. One
/// that is accepted is returned as it was found, and the access is recorded
/// where the policy extends sessions on access.
pub open spec fn validated(
    t: Seq<SessionView>,
    config: SessionConfig,
    now: i64,
    session_id: Seq<char>,
    ip: Option<Seq<char>>,
    user_agent: Option<Seq<char>>,
) -> (Seq<SessionView>, Option<SessionView>) {
    let t0 = swept(t, config, now);
    match find_live(t0, session_id, now) {
        None => (t0, None),
        Some(s) => if accepted(s, config, now, ip, user_agent) {
            (
                if config.extend_on_access {
                    touched(t0, session_id, now)
                } else {
                    t0
                },
                Some(s),
            )
        } else {
            (deactivated(t0, session_id), None)
        },
    }
}

/// What renewing a session does: the old one is invalidated, then a new one
/// is created for the same account.
pub open spec fn renewed(
    t: Seq<SessionView>,
    config: SessionConfig,
    now: i64,
    old_session_id: Seq<char>,
    session_id: Seq<char>,
    account_id: i32,
    ip: Option<Seq<char>>,
    user_agent: Option<Seq<char>>,
) -> (Seq<SessionView>, Result<SessionView, AuthError>) {
    created(
        deactivated(t, old_session_id),
        config,
        now,
        session_id,
        account_id,
        ip,
        user_agent,
    )
}

/// Creates a session for the account at `now` under the identifier given.
///
/// Fails with `InvalidInput` where the policy gives sessions no lifetime or
/// the expiry would lie beyond the last `i64` second, and with
/// `StorageError` where the identifier is taken.
pub fn create_session_at(
    store: &mut SessionStore,
    config: &SessionConfig,
    now: i64,
    session_id: String,
    account_id: i32,
    ip_address: Option<String>,
    user_agent: Option<String>,
) -> (result: Result<Session, AuthError>)
    ensures
        table_wf(final(store)@),
        (final(store)@, session_result(result)) == created(
            old(store)@,
            *config,
            now,
            session_id@,
            account_id,
            text_of(ip_address),
            text_of(user_agent),
        ),
{
    proof {
        lemma_store_wf(*store);
    }
    if config.duration_hours <= 0 {
        return Err(AuthError::InvalidInput);
    }
    let expiry: i128 = (now as i128) + (config.duration_hours as i128) * 3600;
    if expiry > i64::MAX as i128 {
        return Err(AuthError::InvalidInput);
    }
    let expires_at: i64 = expiry as i64;
    match config.max_concurrent_sessions {
        Some(max) => {
            let active = store.count_active_for_account(account_id, now);
            if active >= max {
                store.invalidate_oldest(account_id);
            }
        },
        None => {},
    }
    let session = Session {
        session_id,
        account_id,
        created_at: now,
        expires_at,
        last_accessed: now,
        ip_address,
        user_agent,
        is_active: true,
    };
    let copy = session.clone();
    match store.insert(session) {
        Ok(()) => Ok(copy),
        Err(e) => Err(e),
    }
}

/// Validates the session with the identifier at `now`, presented by a client
/// with the given address and user agent.
pub fn validate_session_at(
    store: &mut SessionStore,
    config: &SessionConfig,
    now: i64,
    session_id: &String,
    current_ip: &Option<String>,
    current_user_agent: &Option<String>,
) -> (found: Option<Session>)
    ensures
        table_wf(final(store)@),
        (final(store)@, session_found(found)) == validated(
            old(store)@,
            *config,
            now,
            session_id@,
            text_of(*current_ip),
            text_of(*current_user_agent),
        ),
{
    if config.cleanup_expired {
        let _ = store.delete_expired_or_inactive(now);
    }
    match store.find_active_unexpired(session_id, now) {
        None => None,
        Some(session) => {
            match check_session(&session, config, now, current_ip, current_user_agent) {
                Ok(()) => {
                    if config.extend_on_access {
                        store.update_last_accessed(session_id, now);
                    }
                    Some(session)
                },
                Err(_) => {
                    store.set_inactive(session_id);
                    None
                },
            }
        },
    }
}

/// Invalidates the old session, then creates a new one for the account.
pub fn renew_session_at(
    store: &mut SessionStore,
    config: &SessionConfig,
    now: i64,
    old_session_id: &String,
    session_id: String,
    account_id: i32,
    ip_address: Option<String>,
    user_agent: Option<String>,
) -> (result: Result<Session, AuthError>)
    ensures
        table_wf(final(store)@),
        (final(store)@, session_result(result)) == renewed(
            old(store)@,
            *config,
            now,
            old_session_id@,
            session_id@,
            account_id,
            text_of(ip_address),
            text_of(user_agent),
        ),
{
    store.set_inactive(old_session_id);
    create_session_at(store, config, now, session_id, account_id, ip_address, user_agent)
}

/// Creates a session for the account, under the default policy, at the
/// current time and under a fresh random identifier.
pub fn create_session(
    store: &mut SessionStore,
    account_id: i32,
    ip_address: Option<String>,
    user_agent: Option<String>,
) -> (result: Result<Session, AuthError>)
    ensures
        table_wf(final(store)@),
        exists|now: i64, session_id: Seq<char>|
            session_id.len() == 36 && (final(store)@, session_result(result)) == #[trigger] created(
                old(store)@,
                default_policy(),
                now,
                session_id,
                account_id,
                text_of(ip_address),
                text_of(user_agent),
            ),
{
    let config = SessionConfig::default();
    let session_id = fresh_session_id();
    let now = unix_now();
    create_session_at(store, &config, now, session_id, account_id, ip_address, user_agent)
}

/// Validates the session at the current time under the default policy,
/// against the address and user agent of the client presenting it.
pub fn get_session_with_validation(
    store: &mut SessionStore,
    session_id: String,
    current_ip: Option<String>,
    current_user_agent: Option<String>,
) -> (found: Option<Session>)
    ensures
        table_wf(final(store)@),
        exists|now: i64|
            (final(store)@, session_found(found)) == #[trigger] validated(
                old(store)@,
                default_policy(),
                now,
                session_id@,
                text_of(current_ip),
                text_of(current_user_agent),
            ),
{
    let config = SessionConfig::default();
    let now = unix_now();
    validate_session_at(store, &config, now, &session_id, &current_ip, &current_user_agent)
}

/// Validates the session at the current time without any client context:
/// only liveness and idle time are checked.
pub fn get_session(store: &mut SessionStore, session_id: String) -> (found: Option<Session>)
    ensures
        table_wf(final(store)@),
        exists|now: i64|
            (final(store)@, session_found(found)) == #[trigger] validated(
                old(store)@,
                default_policy(),
                now,
                session_id@,
                None,
                None,
            ),
{
    get_session_with_validation(store, session_id, None, None)
}

/// Counts the account's live sessions at the current time.
pub fn count_active_sessions(store: &SessionStore, account_id: i32) -> (count: u32)
    ensures
        exists|now: i64| count == #[trigger] live_count(store@, account_id, now),
{
    let now = unix_now();
    store.count_active_for_account(account_id, now)
}

/// Invalidates the account's oldest session that has not been invalidated.
pub fn invalidate_oldest_session(store: &mut SessionStore, account_id: i32)
    ensures
        table_wf(final(store)@),
        final(store)@ == evicted(old(store)@, account_id),
{
    store.invalidate_oldest(account_id)
}

/// Records an access to the session at the current time.
pub fn update_session_access(store: &mut SessionStore, session_id: String)
    ensures
        table_wf(final(store)@),
        exists|now: i64| final(store)@ == #[trigger] touched(old(store)@, session_id@, now),
{
    let now = unix_now();
    store.update_last_accessed(&session_id, now)
}

/// Invalidates the session. Doing so again changes nothing.
pub fn invalidate_session(store: &mut SessionStore, session_id: String)
    ensures
        table_wf(final(store)@),
        final(store)@ == deactivated(old(store)@, session_id@),
{
    store.set_inactive(&session_id)
}

/// Invalidates every session of the account.
pub fn invalidate_all_user_sessions(store: &mut SessionStore, account_id: i32)
    ensures
        table_wf(final(store)@),
        final(store)@ == account_deactivated(old(store)@, account_id),
{
    store.set_inactive_for_account(account_id)
}

/// Removes the records that have expired by the current time or were
/// invalidated, and tells how many went.
pub fn cleanup_expired_sessions(store: &mut SessionStore) -> (removed: u64)
    ensures
        table_wf(final(store)@),
        exists|now: i64| final(store)@ == #[trigger] purged(old(store)@, now),
        removed == old(store)@.len() - final(store)@.len(),
{
    let now = unix_now();
    store.delete_expired_or_inactive(now)
}

/// Lists the account's live sessions at the current time, the most recently
/// accessed first.
pub fn get_user_sessions(store: &SessionStore, account_id: i32) -> (list: Vec<Session>)
    ensures
        exists|now: i64| #[trigger] is_listing(views_of(list@), store@, account_id, now),
{
    let now = unix_now();
    store.list_active_for_account(account_id, now)
}

/// Invalidates the old session and creates a new one for the account, under
/// the default policy, at the current time and under a fresh identifier.
pub fn renew_session_id(
    store: &mut SessionStore,
    old_session_id: String,
    account_id: i32,
    ip_address: Option<String>,
    user_agent: Option<String>,
) -> (result: Result<Session, AuthError>)
    ensures
        table_wf(final(store)@),
        exists|now: i64, session_id: Seq<char>|
            session_id.len() == 36 && (final(store)@, session_result(result)) == #[trigger] renewed(
                old(store)@,
                default_policy(),
                now,
                old_session_id@,
                session_id,
                account_id,
                text_of(ip_address),
                text_of(user_agent),
            ),
{
    let config = SessionConfig::default();
    let session_id = fresh_session_id();
    let now = unix_now();
    renew_session_at(
        store,
        &config,
        now,
        &old_session_id,
        session_id,
        account_id,
        ip_address,
        user_agent,
    )
}

} // verus!
