//! The authentication service: login, logout, and finding the user behind a
//! session.

use vstd::prelude::*;
use crate::account::by_id;
use crate::account::by_name;
use crate::account::account_result;
use crate::account::owner_id;
use crate::account::Account;
use crate::account::AccountStore;
use crate::account::AccountView;
use crate::clock::unix_now;
use crate::error::AuthError;
use crate::manager::create_session_at;
use crate::manager::created;
use crate::manager::validate_session_at;
use crate::manager::validated;
use crate::password::check_password;
use crate::password::verification_outcome;
use crate::session::default_policy;
use crate::session::text_of;
use crate::session::SessionConfig;
use crate::session::SessionView;
use crate::store::lemma_store_wf;
use crate::store::SessionStore;
use crate::table::deactivated;
use crate::table::table_wf;
use crate::token::fresh_session_id;

verus! {

/// The user behind a validated session.
#[derive(Debug)]
pub struct CurrentUser {
    pub account_id: i32,
    pub username: String,
    pub role_id: i32,
    pub session_id: String,
}

/// The mathematical content of a `CurrentUser`.
pub ghost struct CurrentUserView {
    pub account_id: i32,
    pub username: Seq<char>,
    pub role_id: i32,
    pub session_id: Seq<char>,
}

impl View for CurrentUser {
    type V = CurrentUserView;

    open spec fn view(&self) -> CurrentUserView {
        CurrentUserView {
            account_id: self.account_id,
            username: self.username@,
            role_id: self.role_id,
            session_id: self.session_id@,
        }
    }
}

impl Clone for CurrentUser {
    fn clone(&self) -> (copy: CurrentUser)
        ensures
            copy@ == self@,
    {
        CurrentUser {
            account_id: self.account_id,
            username: self.username.clone(),
            role_id: self.role_id,
            session_id: self.session_id.clone(),
        }
    }
}

impl PartialEq for CurrentUser {
    fn eq(&self, other: &CurrentUser) -> (same: bool) {
        self.account_id == other.account_id && self.username == other.username && self.role_id
            == other.role_id && self.session_id == other.session_id
    }
}

impl vstd::std_specs::cmp::PartialEqSpecImpl for CurrentUser {
    open spec fn obeys_eq_spec() -> bool {
        true
    }

    open spec fn eq_spec(&self, other: &CurrentUser) -> bool {
        self.account_id == other.account_id && self.username@ == other.username@ && self.role_id
            == other.role_id && self.session_id@ == other.session_id@
    }
}

/// What a client sends to log in.
#[derive(Clone, Debug)]
pub struct LoginRequest {
    pub username: String,
    pub password: String,
}

/// What a login attempt is answered with.
#[derive(Clone, Debug)]
pub struct LoginResponse {
    pub success: bool,
    pub message: String,
    pub session_id: Option<String>,
    pub user: Option<CurrentUser>,
}

/// The mathematical content of a `LoginResponse`.
pub ghost struct LoginResponseView {
    pub success: bool,
    pub message: Seq<char>,
    pub session_id: Option<Seq<char>>,
    pub user: Option<CurrentUserView>,
}

/// The mathematical content of an optional user.
pub open spec fn user_found(user: Option<CurrentUser>) -> Option<CurrentUserView> {
    match user {
        Some(u) => Some(u@),
        None => None,
    }
}

impl View for LoginResponse {
    type V = LoginResponseView;

    open spec fn view(&self) -> LoginResponseView {
        LoginResponseView {
            success: self.success,
            message: self.message@,
            session_id: text_of(self.session_id),
            user: user_found(self.user),
        }
    }
}

/// The mathematical content of what a login returns.
pub open spec fn login_result(r: Result<LoginResponse, AuthError>) -> Result<
    LoginResponseView,
    AuthError,
> {
    match r {
        Ok(response) => Ok(response@),
        Err(e) => Err(e),
    }
}

/// The answer to a login that is turned down. It is the same whether the
/// user is unknown or the password wrong.
pub open spec fn rejection() -> LoginResponseView {
    LoginResponseView {
        success: false,
        message: AuthError::InvalidCredentials.spec_message(),
        session_id: None,
        user: None,
    }
}

/// The user that a session of an account stands for.
pub open spec fn user_of(account: AccountView, session_id: Seq<char>) -> CurrentUserView {
    CurrentUserView {
        account_id: owner_id(account),
        username: account.username,
        role_id: account.role_id,
        session_id,
    }
}

/// The answer to a login that went through.
pub open spec fn welcome(account: AccountView, session: SessionView) -> LoginResponseView {
    LoginResponseView {
        success: true,
        message: "Login successful"@,
        session_id: Some(session.session_id),
        user: Some(user_of(account, session.session_id)),
    }
}

/// The account that a name and a password identify.
///
/// An unknown name and a wrong password are the same failure, invalid
/// credentials; a password or a stored hash that cannot be verified at all
/// is the error that verification gives.
pub open spec fn authenticated(
    accounts: Seq<AccountView>,
    username: Seq<char>,
    password: Seq<char>,
) -> Result<AccountView, AuthError> {
    match by_name(accounts, username) {
        None => Err(AuthError::InvalidCredentials),
        Some(account) => match verification_outcome(password, account.password_hash) {
            Err(e) => Err(e),
            Ok(false) => Err(AuthError::InvalidCredentials),
            Ok(true) => Ok(account),
        },
    }
}

/// Whether the name and password are those of an account: `Ok(false)` for
/// an unknown name as for a wrong password.
pub open spec fn credentials_check(
    accounts: Seq<AccountView>,
    username: Seq<char>,
    password: Seq<char>,
) -> Result<bool, AuthError> {
    match authenticated(accounts, username, password) {
        Ok(_) => Ok(true),
        Err(AuthError::InvalidCredentials) => Ok(false),
        Err(e) => Err(e),
    }
}

/// What a login does to the session table, and what it returns.
///
/// The user is authenticated first, and only then a session created.
/// Invalid credentials are answered, not reported as an error; an error of
/// the hasher or of the store is passed on as such.
pub open spec fn logged_in(
    accounts: Seq<AccountView>,
    t: Seq<SessionView>,
    config: SessionConfig,
    now: i64,
    session_id: Seq<char>,
    username: Seq<char>,
    password: Seq<char>,
    ip: Option<Seq<char>>,
    user_agent: Option<Seq<char>>,
) -> (Seq<SessionView>, Result<LoginResponseView, AuthError>) {
    match authenticated(accounts, username, password) {
        Err(AuthError::InvalidCredentials) => (t, Ok(rejection())),
        Err(e) => (t, Err(e)),
        Ok(account) => {
            let (after, made) = created(
                t,
                config,
                now,
                session_id,
                owner_id(account),
                ip,
                user_agent,
            );
            match made {
                Ok(session) => (after, Ok(welcome(account, session))),
                Err(e) => (after, Err(e)),
            }
        },
    }
}

/// What asking for the user behind a session does to the session table, and
/// what it returns: the session is validated, then its account looked up.
pub open spec fn current_user(
    accounts: Seq<AccountView>,
    t: Seq<SessionView>,
    config: SessionConfig,
    now: i64,
    session_id: Seq<char>,
    ip: Option<Seq<char>>,
    user_agent: Option<Seq<char>>,
) -> (Seq<SessionView>, Option<CurrentUserView>) {
    let (after, found) = validated(t, config, now, session_id, ip, user_agent);
    match found {
        None => (after, None),
        Some(session) => match by_id(accounts, session.account_id) {
            None => (after, None),
            Some(account) => (after, Some(user_of(account, session_id))),
        },
    }
}

/// The answer to a login that is turned down.
pub fn reject_login() -> (response: LoginResponse)
    ensures
        response@ == rejection(),
{
    LoginResponse {
        success: false,
        message: AuthError::InvalidCredentials.message(),
        session_id: None,
        user: None,
    }
}

/// The number under which an account owns its sessions.
pub fn owner_of(account: &Account) -> (id: i32)
    ensures
        id == owner_id(account@),
{
    match account.account_id {
        Some(id) => id,
        None => 0,
    }
}

/// Finds the account that a name and a password identify.
pub fn authenticate(accounts: &AccountStore, username: &String, password: &String) -> (result:
    Result<Account, AuthError>)
    ensures
        account_result(result) == authenticated(accounts@, username@, password@),
{
    let account = match accounts.find_by_username(username) {
        Some(account) => account,
        None => {
            return Err(AuthError::InvalidCredentials);
        },
    };
    match check_password(password.as_str(), account.password_hash.as_str()) {
        Ok(true) => Ok(account),
        Ok(false) => Err(AuthError::InvalidCredentials),
        Err(e) => Err(e),
    }
}

/// Logs a user in at `now`, creating the session under the identifier given.
pub fn login_at(
    accounts: &AccountStore,
    sessions: &mut SessionStore,
    config: &SessionConfig,
    now: i64,
    session_id: String,
    username: &String,
    password: &String,
    ip_address: Option<String>,
    user_agent: Option<String>,
) -> (result: Result<LoginResponse, AuthError>)
    ensures
        table_wf(final(sessions)@),
        (final(sessions)@, login_result(result)) == logged_in(
            accounts@,
            old(sessions)@,
            *config,
            now,
            session_id@,
            username@,
            password@,
            text_of(ip_address),
            text_of(user_agent),
        ),
{
    proof {
        lemma_store_wf(*sessions);
    }
    let account = match authenticate(accounts, username, password) {
        Ok(account) => account,
        Err(AuthError::InvalidCredentials) => {
            return Ok(reject_login());
        },
        Err(e) => {
            return Err(e);
        },
    };
    let session = match create_session_at(
        sessions,
        config,
        now,
        session_id,
        owner_of(&account),
        ip_address,
        user_agent,
    ) {
        Ok(session) => session,
        Err(e) => {
            return Err(e);
        },
    };
    let token = session.session_id.clone();
    Ok(
        LoginResponse {
            success: true,
            message: "Login successful".to_owned(),
            session_id: Some(token),
            user: Some(
                CurrentUser {
                    account_id: owner_of(&account),
                    username: account.username,
                    role_id: account.role_id,
                    session_id: session.session_id,
                },
            ),
        },
    )
}

/// Finds the user behind a session at `now`, as presented by a client with
/// the given address and user agent.
pub fn current_user_at(
    accounts: &AccountStore,
    sessions: &mut SessionStore,
    config: &SessionConfig,
    now: i64,
    session_id: String,
    current_ip: &Option<String>,
    current_user_agent: &Option<String>,
) -> (user: Option<CurrentUser>)
    ensures
        table_wf(final(sessions)@),
        (final(sessions)@, user_found(user)) == current_user(
            accounts@,
            old(sessions)@,
            *config,
            now,
            session_id@,
            text_of(*current_ip),
            text_of(*current_user_agent),
        ),
{
    match validate_session_at(sessions, config, now, &session_id, current_ip, current_user_agent) {
        Some(session) => match accounts.find_by_id(session.account_id) {
            Some(account) => Some(
                CurrentUser {
                    account_id: owner_of(&account),
                    username: account.username,
                    role_id: account.role_id,
                    session_id,
                },
            ),
            None => None,
        },
        None => None,
    }
}

/// Logs a user in under the default policy, at the current time, with a
/// fresh random session identifier.
pub fn login_with_session_and_cookies(
    accounts: &AccountStore,
    sessions: &mut SessionStore,
    username: String,
    password: String,
    ip_address: Option<String>,
    user_agent: Option<String>,
) -> (result: Result<LoginResponse, AuthError>)
    ensures
        table_wf(final(sessions)@),
        exists|now: i64, session_id: Seq<char>|
            session_id.len() == 36 && (final(sessions)@, login_result(result))
                == #[trigger] logged_in(
                accounts@,
                old(sessions)@,
                default_policy(),
                now,
                session_id,
                username@,
                password@,
                text_of(ip_address),
                text_of(user_agent),
            ),
{
    let config = SessionConfig::default();
    let session_id = fresh_session_id();
    let now = unix_now();
    login_at(
        accounts,
        sessions,
        &config,
        now,
        session_id,
        &username,
        &password,
        ip_address,
        user_agent,
    )
}

/// The same as `login_with_session_and_cookies`.
pub fn login_with_session(
    accounts: &AccountStore,
    sessions: &mut SessionStore,
    username: String,
    password: String,
    ip_address: Option<String>,
    user_agent: Option<String>,
) -> (result: Result<LoginResponse, AuthError>)
    ensures
        table_wf(final(sessions)@),
        exists|now: i64, session_id: Seq<char>|
            session_id.len() == 36 && (final(sessions)@, login_result(result))
                == #[trigger] logged_in(
                accounts@,
                old(sessions)@,
                default_policy(),
                now,
                session_id,
                username@,
                password@,
                text_of(ip_address),
                text_of(user_agent),
            ),
{
    login_with_session_and_cookies(accounts, sessions, username, password, ip_address, user_agent)
}

/// Finds the user behind a session at the current time under the default
/// policy, without any client context.
pub fn get_current_user(
    accounts: &AccountStore,
    sessions: &mut SessionStore,
    session_id: String,
) -> (user: Option<CurrentUser>)
    ensures
        table_wf(final(sessions)@),
        exists|now: i64|
            (final(sessions)@, user_found(user)) == #[trigger] current_user(
                accounts@,
                old(sessions)@,
                default_policy(),
                now,
                session_id@,
                None,
                None,
            ),
{
    let config = SessionConfig::default();
    let now = unix_now();
    current_user_at(accounts, sessions, &config, now, session_id, &None, &None)
}

/// Finds the user behind a session at the current time under the default
/// policy, as presented by a client with the given address and user agent.
pub fn get_current_user_with_context(
    accounts: &AccountStore,
    sessions: &mut SessionStore,
    session_id: String,
    current_ip: Option<String>,
    current_user_agent: Option<String>,
) -> (user: Option<CurrentUser>)
    ensures
        table_wf(final(sessions)@),
        exists|now: i64|
            (final(sessions)@, user_found(user)) == #[trigger] current_user(
                accounts@,
                old(sessions)@,
                default_policy(),
                now,
                session_id@,
                text_of(current_ip),
                text_of(current_user_agent),
            ),
{
    let config = SessionConfig::default();
    let now = unix_now();
    current_user_at(accounts, sessions, &config, now, session_id, &current_ip, &current_user_agent)
}

/// Logs a session out: it is invalidated, whether or not it was still
/// valid. Logging out never fails.
pub fn logout_with_cookies(sessions: &mut SessionStore, session_id: String)
    ensures
        table_wf(final(sessions)@),
        final(sessions)@ == deactivated(old(sessions)@, session_id@),
{
    sessions.set_inactive(&session_id)
}

/// Tells whether the name and password are those of an account, without
/// creating a session.
pub fn validate_login(accounts: &AccountStore, username: String, password: String) -> (result:
    Result<bool, AuthError>)
    ensures
        result == credentials_check(accounts@, username@, password@),
{
    match authenticate(accounts, &username, &password) {
        Ok(_) => Ok(true),
        Err(AuthError::InvalidCredentials) => Ok(false),
        Err(e) => Err(e),
    }
}

} // verus!
