//! What is known of the client that opened a session, as the basis for
//! comparing a later request against them.

use vstd::prelude::*;
use crate::clock::unix_now;
use crate::session::differs;
use crate::session::text_of;
use crate::session::values_differ;
use crate::session::Session;

verus! {

/// The address and user agent that opened a session, and when.
#[derive(Clone, Debug)]
pub struct SessionSecurityContext {
    pub ip_address: Option<String>,
    pub user_agent: Option<String>,
    pub created_at: i64,
}

/// The whole hours in a number of seconds, rounded towards zero.
pub open spec fn whole_hours(seconds: int) -> int {
    if seconds >= 0 {
        seconds / 3600
    } else {
        -((-seconds) / 3600)
    }
}

impl SessionSecurityContext {
    /// The context that a session was opened in.
    pub fn of_session(session: &Session) -> (context: SessionSecurityContext)
        ensures
            text_of(context.ip_address) == session@.ip_address,
            text_of(context.user_agent) == session@.user_agent,
            context.created_at == session.created_at,
    {
        SessionSecurityContext {
            ip_address: crate::session::copy_text(&session.ip_address),
            user_agent: crate::session::copy_text(&session.user_agent),
            created_at: session.created_at,
        }
    }

    /// Whether a request with the given address and user agent can come from
    /// the client that opened the session.
    pub open spec fn matches(
        self,
        current_ip: Option<Seq<char>>,
        current_user_agent: Option<Seq<char>>,
    ) -> bool {
        !differs(text_of(self.ip_address), current_ip) && !differs(
            text_of(self.user_agent),
            current_user_agent,
        )
    }

    /// Tells whether a request with the given address and user agent can
    /// come from the client that opened the session. What either
    /// side lacks is not compared.
    pub fn validate_context(
        &self,
        current_ip: &Option<String>,
        current_user_agent: &Option<String>,
    ) -> (ok: bool)
        ensures
            ok == self.matches(text_of(*current_ip), text_of(*current_user_agent)),
    {
        if values_differ(&self.ip_address, current_ip) {
            return false;
        }
        if values_differ(&self.user_agent, current_user_agent) {
            return false;
        }
        true
    }

    /// Tells whether, at `now`, the session is at most `max_age_hours` whole
    /// hours old.
    pub fn is_within_age_limit_at(&self, now: i64, max_age_hours: i64) -> (ok: bool)
        ensures
            ok == (whole_hours(now - self.created_at) <= max_age_hours),
    {
        let age: i128 = (now as i128) - (self.created_at as i128);
        let hours: i128 = if age >= 0 {
            age / 3600
        } else {
            -((-age) / 3600)
        };
        hours <= max_age_hours as i128
    }

    /// Tells whether the session is, by the clock, at most `max_age_hours`
    /// whole hours old.
    pub fn is_within_age_limit(&self, max_age_hours: i64) -> (ok: bool)
        ensures
            exists|now: i64|
                ok == (#[trigger] whole_hours(now - self.created_at) <= max_age_hours),
    {
        let now = unix_now();
        let ok = self.is_within_age_limit_at(now, max_age_hours);
        assert(ok == (whole_hours(now - self.created_at) <= max_age_hours));
        ok
    }
}

} // verus!
