//! A session record, the policy that governs it, and what it means for a
//! record to be live, idle, or bound to another client.

use vstd::prelude::*;
use crate::error::AuthError;

verus! {

/// What a client knows of its own session while the server is being asked.
#[derive(Clone, Copy, Debug, PartialEq, Eq, Structural)]
pub enum SessionState {
    Loading,
    Valid,
    Invalid,
}

/// One session, as the store keeps it. Times are seconds since the Unix epoch.
#[derive(Debug)]
pub struct Session {
    pub session_id: String,
    pub account_id: i32,
    pub created_at: i64,
    pub expires_at: i64,
    pub last_accessed: i64,
    pub ip_address: Option<String>,
    pub user_agent: Option<String>,
    pub is_active: bool,
}

/// The mathematical content of a `Session`.
pub ghost struct SessionView {
    pub session_id: Seq<char>,
    pub account_id: i32,
    pub created_at: i64,
    pub expires_at: i64,
    pub last_accessed: i64,
    pub ip_address: Option<Seq<char>>,
    pub user_agent: Option<Seq<char>>,
    pub is_active: bool,
}

/// The characters of an optional string.
pub open spec fn text_of(value: Option<String>) -> Option<Seq<char>> {
    match value {
        Some(s) => Some(s@),
        None => None,
    }
}

impl View for Session {
    type V = SessionView;

    open spec fn view(&self) -> SessionView {
        SessionView {
            session_id: self.session_id@,
            account_id: self.account_id,
            created_at: self.created_at,
            expires_at: self.expires_at,
            last_accessed: self.last_accessed,
            ip_address: text_of(self.ip_address),
            user_agent: text_of(self.user_agent),
            is_active: self.is_active,
        }
    }
}

/// The mathematical content of an optional session.
pub open spec fn session_found(r: Option<Session>) -> Option<SessionView> {
    match r {
        Some(s) => Some(s@),
        None => None,
    }
}

/// The mathematical content of a session or an error.
pub open spec fn session_result(r: Result<Session, AuthError>) -> Result<SessionView, AuthError> {
    match r {
        Ok(s) => Ok(s@),
        Err(e) => Err(e),
    }
}

/// A copy of an optional string.
pub fn copy_text(value: &Option<String>) -> (copy: Option<String>)
    ensures
        text_of(copy) == text_of(*value),
{
    match value {
        Some(s) => Some(s.clone()),
        None => None,
    }
}

impl Clone for Session {
    fn clone(&self) -> (copy: Session)
        ensures
            copy@ == self@,
    {
        Session {
            session_id: self.session_id.clone(),
            account_id: self.account_id,
            created_at: self.created_at,
            expires_at: self.expires_at,
            last_accessed: self.last_accessed,
            ip_address: copy_text(&self.ip_address),
            user_agent: copy_text(&self.user_agent),
            is_active: self.is_active,
        }
    }
}

/// The policy that sessions are created and validated under.
#[derive(Clone, Copy, Debug)]
pub struct SessionConfig {
    /// How long a session lasts from its creation, in hours.
    pub duration_hours: i64,
    /// Whether a successful validation counts as an access.
    pub extend_on_access: bool,
    /// Whether validation first purges dead rows.
    pub cleanup_expired: bool,
    /// Whether a session is bound to the address that opened it.
    pub bind_to_ip: bool,
    /// Whether a session is bound to the user agent that opened it.
    pub bind_to_user_agent: bool,
    /// How many live sessions an account may hold, if limited.
    pub max_concurrent_sessions: Option<u32>,
    /// How long a session may go without access, in minutes.
    pub session_timeout_minutes: i64,
}

impl SessionConfig {
    /// A policy under which a session can exist and can be used at all:
    /// it lasts for some time, and the idle allowance is not negative.
    pub open spec fn wf(self) -> bool {
        self.duration_hours > 0 && self.session_timeout_minutes >= 0
    }

    /// The lifetime of a session, in seconds.
    pub open spec fn lifetime(self) -> int {
        self.duration_hours * 3600
    }

    /// The idle allowance, in seconds.
    pub open spec fn idle_allowance(self) -> int {
        self.session_timeout_minutes * 60
    }
}

/// The policy that applies where none is given: a day's lifetime, half an
/// hour idle, five sessions per account, bound to address and user agent,
/// extended on access, purging on validation.
pub open spec fn default_policy() -> SessionConfig {
    SessionConfig {
        duration_hours: 24,
        extend_on_access: true,
        cleanup_expired: true,
        bind_to_ip: true,
        bind_to_user_agent: true,
        max_concurrent_sessions: Some(5u32),
        session_timeout_minutes: 30,
    }
}

impl Default for SessionConfig {
    fn default() -> (config: SessionConfig)
        ensures
            config == default_policy(),
    {
        SessionConfig {
            duration_hours: 24,
            extend_on_access: true,
            cleanup_expired: true,
            bind_to_ip: true,
            bind_to_user_agent: true,
            max_concurrent_sessions: Some(5),
            session_timeout_minutes: 30,
        }
    }
}

/// A record whose expiry lies after its creation.
pub open spec fn row_wf(s: SessionView) -> bool {
    s.created_at < s.expires_at
}

/// Not invalidated and not yet expired at `now`: what a lookup can find.
pub open spec fn live(s: SessionView, now: i64) -> bool {
    s.is_active && s.expires_at > now
}

/// Whether more time than the idle allowance has passed since the last access.
pub open spec fn idle_too_long(s: SessionView, config: SessionConfig, now: i64) -> bool {
    now - s.last_accessed > config.idle_allowance()
}

/// Whether a session passes validation at `now`, leaving binding aside.
pub open spec fn usable(s: SessionView, config: SessionConfig, now: i64) -> bool {
    live(s, now) && !idle_too_long(s, config, now)
}

/// Whether a value captured at creation and the one presented now are both
/// there and differ. A side that is absent binds nothing.
pub open spec fn differs(stored: Option<Seq<char>>, current: Option<Seq<char>>) -> bool {
    match (stored, current) {
        (Some(a), Some(b)) => a != b,
        _ => false,
    }
}

/// Whether the client presenting a session is, as far as the policy asks,
/// the one that opened it.
pub open spec fn bound_to(
    s: SessionView,
    config: SessionConfig,
    ip: Option<Seq<char>>,
    user_agent: Option<Seq<char>>,
) -> bool {
    &&& config.bind_to_ip ==> !differs(s.ip_address, ip)
    &&& config.bind_to_user_agent ==> !differs(s.user_agent, user_agent)
}

/// Whether a live session is accepted at `now` from the given client.
pub open spec fn accepted(
    s: SessionView,
    config: SessionConfig,
    now: i64,
    ip: Option<Seq<char>>,
    user_agent: Option<Seq<char>>,
) -> bool {
    bound_to(s, config, ip, user_agent) && !idle_too_long(s, config, now)
}

/// Tells whether a stored and a presented value are both there and differ.
pub fn values_differ(stored: &Option<String>, current: &Option<String>) -> (d: bool)
    ensures
        d == differs(text_of(*stored), text_of(*current)),
{
    match stored {
        Some(a) => match current {
            Some(b) => {
                let same = *a == *b;
                !same
            },
            None => false,
        },
        None => false,
    }
}

/// Tells whether `session` has gone unused for longer than the policy allows.
pub fn is_idle_too_long(session: &Session, config: &SessionConfig, now: i64) -> (idle: bool)
    ensures
        idle == idle_too_long(session@, *config, now),
{
    let elapsed: i128 = (now as i128) - (session.last_accessed as i128);
    let allowance: i128 = (config.session_timeout_minutes as i128) * 60;
    elapsed > allowance
}

/// Decides whether a live session is accepted: the address is compared
/// first, then the user agent, then the idle time. A session that fails any
/// of them is a security violation, and the caller is to invalidate it.
pub fn check_session(
    session: &Session,
    config: &SessionConfig,
    now: i64,
    current_ip: &Option<String>,
    current_user_agent: &Option<String>,
) -> (verdict: Result<(), AuthError>)
    ensures
        verdict == if accepted(
            session@,
            *config,
            now,
            text_of(*current_ip),
            text_of(*current_user_agent),
        ) {
            Ok::<(), AuthError>(())
        } else {
            Err::<(), AuthError>(AuthError::SecurityViolation)
        },
{
    let mut is_valid = true;
    if config.bind_to_ip && values_differ(&session.ip_address, current_ip) {
        is_valid = false;
    }
    if config.bind_to_user_agent && is_valid && values_differ(
        &session.user_agent,
        current_user_agent,
    ) {
        is_valid = false;
    }
    if is_idle_too_long(session, config, now) {
        is_valid = false;
    }
    if is_valid {
        Ok(())
    } else {
        Err(AuthError::SecurityViolation)
    }
}

} // verus!
