use session_auth::account::get_account_by_id;
use session_auth::account::get_account_by_username;
use session_auth::account::save_new_account;
use session_auth::account::Account;
use session_auth::account::AccountStore;
use session_auth::account::Role;
use session_auth::authentication::authenticate;
use session_auth::authentication::current_user_at;
use session_auth::authentication::get_current_user;
use session_auth::authentication::get_current_user_with_context;
use session_auth::authentication::login_at;
use session_auth::authentication::login_with_session;
use session_auth::authentication::login_with_session_and_cookies;
use session_auth::authentication::logout_with_cookies;
use session_auth::authentication::reject_login;
use session_auth::authentication::validate_login;
use session_auth::authentication::CurrentUser;
use session_auth::error::AuthError;
use session_auth::session::SessionConfig;
use session_auth::store::SessionStore;

const KNOWN_HASH: &str =
    "$argon2id$v=19$m=256,t=2,p=1$c29tZXNhbHQ$nf65EOgLrQMR/uIPnA4rEsF5h7TKyQwu9U1bMCHGi/4";
const T0: i64 = 1_700_000_000;

fn accounts() -> AccountStore {
    let mut store = AccountStore::new();
    store.insert("admin".to_string(), KNOWN_HASH.to_string(), 1).unwrap();
    store.insert("guest".to_string(), KNOWN_HASH.to_string(), 3).unwrap();
    store
}

fn login(
    accounts: &AccountStore,
    sessions: &mut SessionStore,
    id: &str,
    username: &str,
    password: &str,
) -> Result<session_auth::authentication::LoginResponse, AuthError> {
    login_at(
        accounts,
        sessions,
        &SessionConfig::default(),
        T0,
        id.to_string(),
        &username.to_string(),
        &password.to_string(),
        Some("10.0.0.1".to_string()),
        None,
    )
}

#[test]
fn unknown_user_and_wrong_password_get_the_same_answer() {
    let accounts = accounts();
    let mut sessions = SessionStore::new();
    let unknown = login(&accounts, &mut sessions, "s-1", "unknown-user", "anything").unwrap();
    let wrong = login(&accounts, &mut sessions, "s-2", "admin", "wrong-password").unwrap();
    for response in [&unknown, &wrong] {
        assert!(!response.success);
        assert_eq!(response.message, "Invalid credentials");
        assert!(response.session_id.is_none());
        assert!(response.user.is_none());
    }
    assert_eq!(sessions.len(), 0);
    let canned = reject_login();
    assert_eq!(canned.message, unknown.message);
    assert_eq!(canned.success, unknown.success);
}

#[test]
fn login_then_current_user_then_logout() {
    let accounts = accounts();
    let mut sessions = SessionStore::new();
    let response = login(&accounts, &mut sessions, "s-1", "admin", "password").unwrap();
    assert!(response.success);
    assert_eq!(response.message, "Login successful");
    let token = response.session_id.unwrap();
    assert_eq!(token, "s-1");
    let expected = CurrentUser {
        account_id: 1,
        username: "admin".to_string(),
        role_id: 1,
        session_id: "s-1".to_string(),
    };
    assert!(response.user.unwrap() == expected);

    let config = SessionConfig::default();
    let user =
        current_user_at(&accounts, &mut sessions, &config, T0 + 5, token.clone(), &None, &None)
            .unwrap();
    assert!(user == expected);
    let admin = accounts.find_by_username(&"admin".to_string()).unwrap();
    assert_eq!(Some(user.account_id), admin.account_id);

    logout_with_cookies(&mut sessions, token.clone());
    assert!(
        current_user_at(&accounts, &mut sessions, &config, T0 + 6, token, &None, &None).is_none()
    );
}

#[test]
fn logout_of_an_unknown_session_changes_nothing() {
    let accounts = accounts();
    let mut sessions = SessionStore::new();
    login(&accounts, &mut sessions, "s-1", "admin", "password").unwrap();
    logout_with_cookies(&mut sessions, "s-9".to_string());
    logout_with_cookies(&mut sessions, String::new());
    assert_eq!(sessions.count_active_for_account(1, T0), 1);
}

#[test]
fn empty_password_for_a_known_user_is_an_error() {
    let accounts = accounts();
    let mut sessions = SessionStore::new();
    let r = login(&accounts, &mut sessions, "s-1", "admin", "");
    assert_eq!(r.unwrap_err(), AuthError::InvalidInput);
    let r = login(&accounts, &mut sessions, "s-1", "nobody", "").unwrap();
    assert!(!r.success);
}

#[test]
fn broken_stored_hash_is_an_error_not_a_rejection() {
    let mut accounts = AccountStore::new();
    accounts.insert("broken".to_string(), "garbage".to_string(), 2).unwrap();
    let mut sessions = SessionStore::new();
    let r = login(&accounts, &mut sessions, "s-1", "broken", "password");
    assert_eq!(r.unwrap_err(), AuthError::InvalidInput);
}

#[test]
fn storage_error_on_login_is_not_a_rejection() {
    let accounts = accounts();
    let mut sessions = SessionStore::new();
    login(&accounts, &mut sessions, "s-1", "admin", "password").unwrap();
    let again = login(&accounts, &mut sessions, "s-1", "guest", "password");
    assert_eq!(again.unwrap_err(), AuthError::StorageError);
}

#[test]
fn current_user_is_none_when_the_account_is_gone() {
    let accounts = accounts();
    let mut sessions = SessionStore::new();
    login(&accounts, &mut sessions, "s-1", "guest", "password").unwrap();
    let elsewhere = AccountStore::new();
    let config = SessionConfig::default();
    let user = current_user_at(
        &elsewhere,
        &mut sessions,
        &config,
        T0,
        "s-1".to_string(),
        &None,
        &None,
    );
    assert!(user.is_none());
}

#[test]
fn current_user_with_foreign_context_is_none() {
    let accounts = accounts();
    let mut sessions = SessionStore::new();
    login(&accounts, &mut sessions, "s-1", "guest", "password").unwrap();
    let config = SessionConfig::default();
    let user = current_user_at(
        &accounts,
        &mut sessions,
        &config,
        T0,
        "s-1".to_string(),
        &Some("10.6.6.6".to_string()),
        &None,
    );
    assert!(user.is_none());
}

#[test]
fn validate_login_answers_without_a_session() {
    let accounts = accounts();
    assert_eq!(validate_login(&accounts, "admin".to_string(), "password".to_string()), Ok(true));
    assert_eq!(validate_login(&accounts, "admin".to_string(), "nope".to_string()), Ok(false));
    assert_eq!(validate_login(&accounts, "nobody".to_string(), "password".to_string()), Ok(false));
    assert_eq!(
        validate_login(&accounts, "admin".to_string(), String::new()),
        Err(AuthError::InvalidInput)
    );
}

#[test]
fn clock_driven_login_round_trip() {
    let mut accounts = AccountStore::new();
    let saved =
        save_new_account(&mut accounts, "admin".to_string(), "correct-pw".to_string(), Role::Admin)
            .unwrap();
    assert_eq!(saved.account_id, Some(1));
    assert_eq!(saved.role_id, 1);
    let mut sessions = SessionStore::new();
    let response = login_with_session_and_cookies(
        &accounts,
        &mut sessions,
        "admin".to_string(),
        "correct-pw".to_string(),
        Some("10.0.0.1".to_string()),
        Some("agent/1".to_string()),
    )
    .unwrap();
    assert!(response.success);
    let token = response.session_id.unwrap();
    assert_eq!(token.len(), 36);
    let user = get_current_user(&accounts, &mut sessions, token.clone()).unwrap();
    assert_eq!(user.account_id, 1);
    assert_eq!(user.username, "admin");
    assert_eq!(user.session_id, token);
    let same = get_current_user_with_context(
        &accounts,
        &mut sessions,
        token.clone(),
        Some("10.0.0.1".to_string()),
        Some("agent/1".to_string()),
    );
    assert!(same.is_some());
    logout_with_cookies(&mut sessions, token.clone());
    assert!(get_current_user(&accounts, &mut sessions, token).is_none());

    let wrong = login_with_session(
        &accounts,
        &mut sessions,
        "admin".to_string(),
        "wrong-pw".to_string(),
        None,
        None,
    )
    .unwrap();
    assert!(!wrong.success);
    assert_eq!(wrong.message, "Invalid credentials");
}

#[test]
fn accounts_get_consecutive_identifiers() {
    let mut store = AccountStore::new();
    let a = store.insert("a".to_string(), "h".to_string(), 2).unwrap();
    let b = store.insert("b".to_string(), "h".to_string(), 3).unwrap();
    assert_eq!(a.account_id, Some(1));
    assert_eq!(b.account_id, Some(2));
    assert_eq!(store.len(), 2);
    assert_eq!(store.find_by_id(2).unwrap().username, "b");
    assert!(store.find_by_id(3).is_none());
    assert_eq!(store.find_by_username(&"a".to_string()).unwrap().role_id, 2);
    assert!(store.find_by_username(&"c".to_string()).is_none());
    assert_eq!(get_account_by_id(&store, 1).unwrap().username, "a");
    assert!(get_account_by_id(&store, 0).is_none());
    assert_eq!(get_account_by_username(&store, "b".to_string()).unwrap().account_id, Some(2));
    assert!(get_account_by_username(&store, String::new()).is_none());
    assert_eq!(store.accounts().len(), 2);
}

#[test]
fn account_store_refuses_what_it_cannot_hold() {
    let mut store = AccountStore::new();
    store.insert("a".to_string(), "h".to_string(), 2).unwrap();
    assert_eq!(
        store.insert("a".to_string(), "h".to_string(), 2).unwrap_err(),
        AuthError::StorageError
    );
    assert_eq!(
        store.insert(String::new(), "h".to_string(), 2).unwrap_err(),
        AuthError::InvalidInput
    );
    let far = Account {
        account_id: Some(i32::MAX),
        username: "far".to_string(),
        password_hash: "h".to_string(),
        role_id: 2,
    };
    assert_eq!(store.add(far.clone()), Ok(()));
    assert_eq!(store.add(far), Err(AuthError::StorageError));
    assert_eq!(
        store.insert("b".to_string(), "h".to_string(), 2).unwrap_err(),
        AuthError::StorageError
    );
    let nameless = Account {
        account_id: None,
        username: "n".to_string(),
        password_hash: "h".to_string(),
        role_id: 2,
    };
    assert_eq!(store.add(nameless), Err(AuthError::InvalidInput));
    let taken = Account {
        account_id: Some(1),
        username: "other".to_string(),
        password_hash: "h".to_string(),
        role_id: 2,
    };
    assert_eq!(store.add(taken), Err(AuthError::StorageError));
    assert_eq!(store.len(), 2);
}

#[test]
fn account_with_an_empty_password_is_not_saved() {
    let mut store = AccountStore::new();
    let r = save_new_account(&mut store, "a".to_string(), String::new(), Role::User);
    assert_eq!(r.unwrap_err(), AuthError::InvalidInput);
    assert_eq!(store.len(), 0);
}

#[test]
fn roles_and_their_numbers() {
    assert_eq!(Role::Admin.id(), 1);
    assert_eq!(Role::User.id(), 2);
    assert_eq!(Role::Guest.id(), 3);
    assert_eq!(Role::from_id(1), Some(Role::Admin));
    assert_eq!(Role::from_id(3), Some(Role::Guest));
    assert_eq!(Role::from_id(0), None);
    assert_eq!(Role::from_id(4), None);
}

#[test]
fn unknown_user_and_wrong_password_are_invalid_credentials() {
    let accounts = accounts();
    let name = "admin".to_string();
    let found = authenticate(&accounts, &name, &"password".to_string()).unwrap();
    assert_eq!(found.account_id, Some(1));
    assert_eq!(
        authenticate(&accounts, &name, &"wrong".to_string()).unwrap_err(),
        AuthError::InvalidCredentials
    );
    assert_eq!(
        authenticate(&accounts, &"nobody".to_string(), &"password".to_string()).unwrap_err(),
        AuthError::InvalidCredentials
    );
    assert_eq!(
        authenticate(&accounts, &name, &String::new()).unwrap_err(),
        AuthError::InvalidInput
    );
}
