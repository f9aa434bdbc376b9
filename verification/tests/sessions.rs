use session_auth::error::AuthError;
use session_auth::manager::cleanup_expired_sessions;
use session_auth::manager::count_active_sessions;
use session_auth::manager::create_session;
use session_auth::manager::create_session_at;
use session_auth::manager::get_session;
use session_auth::manager::get_session_with_validation;
use session_auth::manager::get_user_sessions;
use session_auth::manager::invalidate_all_user_sessions;
use session_auth::manager::invalidate_oldest_session;
use session_auth::manager::invalidate_session;
use session_auth::manager::renew_session_at;
use session_auth::manager::renew_session_id;
use session_auth::manager::update_session_access;
use session_auth::manager::validate_session_at;
use session_auth::session::check_session;
use session_auth::session::Session;
use session_auth::session::SessionConfig;
use session_auth::store::SessionStore;

const T0: i64 = 1_700_000_000;
const DAY: i64 = 24 * 3600;

fn unix_now() -> i64 {
    let since = std::time::SystemTime::now().duration_since(std::time::UNIX_EPOCH).unwrap();
    since.as_secs() as i64
}

fn policy() -> SessionConfig {
    SessionConfig::default()
}

fn ip(text: &str) -> Option<String> {
    Some(text.to_string())
}

fn open(store: &mut SessionStore, id: &str, account: i32, now: i64) -> Session {
    create_session_at(
        store,
        &policy(),
        now,
        id.to_string(),
        account,
        ip("10.0.0.1"),
        ip("agent/1"),
    )
    .unwrap()
}

fn present(store: &mut SessionStore, id: &str, now: i64, from: &str) -> Option<Session> {
    validate_session_at(store, &policy(), now, &id.to_string(), &ip(from), &ip("agent/1"))
}

#[test]
fn default_policy_values() {
    let config = SessionConfig::default();
    assert_eq!(config.duration_hours, 24);
    assert_eq!(config.session_timeout_minutes, 30);
    assert_eq!(config.max_concurrent_sessions, Some(5));
    assert!(config.bind_to_ip);
    assert!(config.bind_to_user_agent);
    assert!(config.extend_on_access);
    assert!(config.cleanup_expired);
}

#[test]
fn created_session_has_the_fields_given() {
    let mut store = SessionStore::new();
    let s = open(&mut store, "s-1", 7, T0);
    assert_eq!(s.session_id, "s-1");
    assert_eq!(s.account_id, 7);
    assert_eq!(s.created_at, T0);
    assert_eq!(s.expires_at, T0 + 86_400);
    assert_eq!(s.last_accessed, T0);
    assert_eq!(s.ip_address, ip("10.0.0.1"));
    assert_eq!(s.user_agent, ip("agent/1"));
    assert!(s.is_active);
    assert_eq!(store.len(), 1);
}

#[test]
fn session_is_valid_right_after_creation() {
    let mut store = SessionStore::new();
    open(&mut store, "s-1", 7, T0);
    let found = present(&mut store, "s-1", T0, "10.0.0.1").unwrap();
    assert_eq!(found.session_id, "s-1");
    assert_eq!(found.account_id, 7);
}

#[test]
fn session_is_invalid_one_second_past_its_lifetime() {
    let mut store = SessionStore::new();
    open(&mut store, "s-1", 7, T0);
    assert!(present(&mut store, "s-1", T0 + DAY + 1, "10.0.0.1").is_none());
}

#[test]
fn session_is_invalid_at_the_second_it_expires() {
    let mut config = policy();
    config.session_timeout_minutes = 100_000;
    let mut store = SessionStore::new();
    create_session_at(&mut store, &config, T0, "s-1".to_string(), 7, None, None).unwrap();
    let id = "s-1".to_string();
    assert!(validate_session_at(&mut store, &config, T0 + DAY - 1, &id, &None, &None).is_some());
    assert!(validate_session_at(&mut store, &config, T0 + DAY, &id, &None, &None).is_none());
}

#[test]
fn idle_session_fails_validation_and_is_invalidated() {
    let mut store = SessionStore::new();
    open(&mut store, "s-1", 7, T0);
    let late = T0 + 30 * 60 + 1;
    assert!(late < T0 + DAY);
    assert!(present(&mut store, "s-1", late, "10.0.0.1").is_none());
    // The row is still there, invalidated: nothing finds it, even at once.
    assert_eq!(store.len(), 1);
    assert!(store.find_active_unexpired(&"s-1".to_string(), T0).is_none());
    assert!(present(&mut store, "s-1", T0, "10.0.0.1").is_none());
}

#[test]
fn session_idle_for_exactly_the_allowance_is_still_valid() {
    let mut store = SessionStore::new();
    open(&mut store, "s-1", 7, T0);
    assert!(present(&mut store, "s-1", T0 + 30 * 60, "10.0.0.1").is_some());
}

#[test]
fn access_extends_the_idle_allowance() {
    let mut store = SessionStore::new();
    open(&mut store, "s-1", 7, T0);
    let found = present(&mut store, "s-1", T0 + 1000, "10.0.0.1").unwrap();
    // What is returned is the session as it was found.
    assert_eq!(found.last_accessed, T0);
    let again = present(&mut store, "s-1", T0 + 1000 + 1800, "10.0.0.1").unwrap();
    assert_eq!(again.last_accessed, T0 + 1000);
}

#[test]
fn without_extension_the_allowance_runs_from_creation() {
    let mut config = policy();
    config.extend_on_access = false;
    let mut store = SessionStore::new();
    create_session_at(&mut store, &config, T0, "s-1".to_string(), 7, None, None).unwrap();
    let id = "s-1".to_string();
    let found = validate_session_at(&mut store, &config, T0 + 1000, &id, &None, &None).unwrap();
    assert_eq!(found.last_accessed, T0);
    assert!(validate_session_at(&mut store, &config, T0 + 1801, &id, &None, &None).is_none());
}

#[test]
fn foreign_address_fails_and_invalidates_for_good() {
    let mut store = SessionStore::new();
    open(&mut store, "s-1", 7, T0);
    assert!(present(&mut store, "s-1", T0 + 1, "10.9.9.9").is_none());
    assert!(present(&mut store, "s-1", T0 + 2, "10.0.0.1").is_none());
}

#[test]
fn foreign_user_agent_fails_and_invalidates_for_good() {
    let mut store = SessionStore::new();
    open(&mut store, "s-1", 7, T0);
    let id = "s-1".to_string();
    let config = policy();
    assert!(validate_session_at(&mut store, &config, T0, &id, &ip("10.0.0.1"), &ip("agent/2"))
        .is_none());
    assert!(validate_session_at(&mut store, &config, T0, &id, &ip("10.0.0.1"), &ip("agent/1"))
        .is_none());
}

#[test]
fn foreign_address_passes_where_binding_is_off() {
    let mut config = policy();
    config.bind_to_ip = false;
    let mut store = SessionStore::new();
    create_session_at(&mut store, &config, T0, "s-1".to_string(), 7, ip("10.0.0.1"), None)
        .unwrap();
    let id = "s-1".to_string();
    assert!(validate_session_at(&mut store, &config, T0, &id, &ip("10.9.9.9"), &None).is_some());
}

#[test]
fn absent_context_binds_nothing() {
    let mut store = SessionStore::new();
    let config = policy();
    create_session_at(&mut store, &config, T0, "bare".to_string(), 7, None, None).unwrap();
    open(&mut store, "full", 7, T0);
    let bare = "bare".to_string();
    let full = "full".to_string();
    assert!(validate_session_at(&mut store, &config, T0, &bare, &ip("1.2.3.4"), &ip("x"))
        .is_some());
    assert!(validate_session_at(&mut store, &config, T0, &full, &None, &None).is_some());
}

#[test]
fn check_session_reports_a_security_violation() {
    let mut store = SessionStore::new();
    let s = open(&mut store, "s-1", 7, T0);
    let config = policy();
    assert_eq!(check_session(&s, &config, T0, &ip("10.0.0.1"), &ip("agent/1")), Ok(()));
    assert_eq!(
        check_session(&s, &config, T0, &ip("10.0.0.2"), &ip("agent/1")),
        Err(AuthError::SecurityViolation)
    );
    assert_eq!(
        check_session(&s, &config, T0 + 1801, &ip("10.0.0.1"), &ip("agent/1")),
        Err(AuthError::SecurityViolation)
    );
}

#[test]
fn unknown_session_is_not_found() {
    let mut store = SessionStore::new();
    open(&mut store, "s-1", 7, T0);
    assert!(present(&mut store, "s-2", T0, "10.0.0.1").is_none());
    assert_eq!(store.len(), 1);
}

#[test]
fn sixth_session_evicts_the_oldest() {
    let mut store = SessionStore::new();
    for k in 0..5 {
        let id = format!("s-{}", k);
        open(&mut store, &id, 7, T0 + k);
    }
    assert_eq!(store.count_active_for_account(7, T0 + 10), 5);
    let sixth = open(&mut store, "s-5", 7, T0 + 10);
    assert!(sixth.is_active);
    assert_eq!(store.count_active_for_account(7, T0 + 10), 5);
    assert_eq!(store.len(), 6);
    assert!(store.find_active_unexpired(&"s-0".to_string(), T0 + 10).is_none());
    for k in 1..6 {
        let id = format!("s-{}", k);
        assert!(store.find_active_unexpired(&id, T0 + 10).is_some());
    }
}

#[test]
fn limit_counts_each_account_on_its_own() {
    let mut store = SessionStore::new();
    for k in 0..5 {
        let id = format!("a-{}", k);
        open(&mut store, &id, 1, T0 + k);
    }
    open(&mut store, "b-0", 2, T0 + 10);
    assert_eq!(store.count_active_for_account(1, T0 + 10), 5);
    assert_eq!(store.count_active_for_account(2, T0 + 10), 1);
    assert!(store.find_active_unexpired(&"a-0".to_string(), T0 + 10).is_some());
}

#[test]
fn no_limit_means_no_eviction() {
    let mut config = policy();
    config.max_concurrent_sessions = None;
    let mut store = SessionStore::new();
    for k in 0..8 {
        let id = format!("s-{}", k);
        create_session_at(&mut store, &config, T0 + k, id, 7, None, None).unwrap();
    }
    assert_eq!(store.count_active_for_account(7, T0 + 10), 8);
}

#[test]
fn taken_identifier_is_a_storage_error() {
    let mut store = SessionStore::new();
    open(&mut store, "s-1", 7, T0);
    let again =
        create_session_at(&mut store, &policy(), T0 + 1, "s-1".to_string(), 8, None, None);
    assert_eq!(again.unwrap_err(), AuthError::StorageError);
    assert_eq!(store.len(), 1);
}

#[test]
fn policy_without_lifetime_is_invalid_input() {
    let mut config = policy();
    config.duration_hours = 0;
    let mut store = SessionStore::new();
    let r = create_session_at(&mut store, &config, T0, "s-1".to_string(), 7, None, None);
    assert_eq!(r.unwrap_err(), AuthError::InvalidInput);
    assert_eq!(store.len(), 0);
}

#[test]
fn expiry_beyond_the_last_second_is_invalid_input() {
    let mut store = SessionStore::new();
    let config = policy();
    let id = "s-1".to_string();
    let r = create_session_at(&mut store, &config, i64::MAX - 86_399, id.clone(), 7, None, None);
    assert_eq!(r.unwrap_err(), AuthError::InvalidInput);
    let ok =
        create_session_at(&mut store, &config, i64::MAX - 86_400, id, 7, None, None).unwrap();
    assert_eq!(ok.expires_at, i64::MAX);
}

#[test]
fn invalidating_twice_is_the_same_as_once() {
    let mut store = SessionStore::new();
    open(&mut store, "s-1", 7, T0);
    open(&mut store, "s-2", 7, T0);
    invalidate_session(&mut store, "s-1".to_string());
    invalidate_session(&mut store, "s-1".to_string());
    invalidate_session(&mut store, "nobody".to_string());
    assert!(present(&mut store, "s-1", T0, "10.0.0.1").is_none());
    assert!(store.find_active_unexpired(&"s-2".to_string(), T0).is_some());
}

#[test]
fn invalidating_an_account_spares_the_others() {
    let mut store = SessionStore::new();
    open(&mut store, "a-1", 1, T0);
    open(&mut store, "a-2", 1, T0);
    open(&mut store, "b-1", 2, T0);
    invalidate_all_user_sessions(&mut store, 1);
    assert_eq!(store.count_active_for_account(1, T0), 0);
    assert_eq!(store.count_active_for_account(2, T0), 1);
    assert_eq!(store.len(), 3);
}

#[test]
fn oldest_goes_by_creation_then_by_place() {
    let mut store = SessionStore::new();
    open(&mut store, "late", 1, T0 + 5);
    open(&mut store, "early-1", 1, T0);
    open(&mut store, "early-2", 1, T0);
    open(&mut store, "other", 2, T0 - 5);
    assert_eq!(store.find_oldest_active_for_account(1).unwrap().session_id, "early-1");
    invalidate_oldest_session(&mut store, 1);
    assert_eq!(store.find_oldest_active_for_account(1).unwrap().session_id, "early-2");
    invalidate_oldest_session(&mut store, 1);
    invalidate_oldest_session(&mut store, 1);
    assert!(store.find_oldest_active_for_account(1).is_none());
    invalidate_oldest_session(&mut store, 1);
    assert_eq!(store.count_active_for_account(2, T0), 1);
}

#[test]
fn purge_removes_expired_and_invalidated_rows_only() {
    let mut store = SessionStore::new();
    open(&mut store, "live", 1, T0);
    open(&mut store, "gone", 1, T0);
    open(&mut store, "old", 1, T0 - DAY - 1);
    open(&mut store, "edge", 1, T0 - DAY);
    store.set_inactive(&"gone".to_string());
    assert_eq!(store.len(), 4);
    // `old` expired a second ago, `edge` expires this very second.
    assert_eq!(store.delete_expired_or_inactive(T0), 2);
    assert_eq!(store.len(), 2);
    assert!(store.find_active_unexpired(&"live".to_string(), T0).is_some());
    assert!(store.find_active_unexpired(&"edge".to_string(), T0 - 1).is_some());
    assert!(store.find_active_unexpired(&"edge".to_string(), T0).is_none());
    assert_eq!(store.delete_expired_or_inactive(T0), 0);
    assert_eq!(store.delete_expired_or_inactive(T0 + 1), 1);
}

#[test]
fn validation_purges_where_the_policy_says_so() {
    let mut store = SessionStore::new();
    open(&mut store, "a", 1, T0);
    open(&mut store, "b", 1, T0);
    store.set_inactive(&"a".to_string());
    assert!(present(&mut store, "b", T0, "10.0.0.1").is_some());
    assert_eq!(store.len(), 1);

    let mut keep = policy();
    keep.cleanup_expired = false;
    let mut store = SessionStore::new();
    open(&mut store, "a", 1, T0);
    open(&mut store, "b", 1, T0);
    store.set_inactive(&"a".to_string());
    let id = "b".to_string();
    assert!(validate_session_at(&mut store, &keep, T0, &id, &None, &None).is_some());
    assert_eq!(store.len(), 2);
}

#[test]
fn listing_is_most_recent_first() {
    let mut store = SessionStore::new();
    open(&mut store, "a", 1, T0);
    open(&mut store, "b", 1, T0 + 1);
    open(&mut store, "c", 1, T0 + 2);
    open(&mut store, "x", 2, T0 + 3);
    open(&mut store, "d", 1, T0 + 3);
    store.set_inactive(&"c".to_string());
    store.update_last_accessed(&"a".to_string(), T0 + 100);
    let ids: Vec<String> = store
        .list_active_for_account(1, T0 + 200)
        .into_iter()
        .map(|s| s.session_id)
        .collect();
    assert_eq!(ids, vec!["a".to_string(), "d".to_string(), "b".to_string()]);
    assert!(store.list_active_for_account(1, T0 + DAY + 50).is_empty());
    assert!(store.list_active_for_account(3, T0).is_empty());
}

#[test]
fn last_access_never_moves_back() {
    let mut store = SessionStore::new();
    open(&mut store, "a", 1, T0);
    store.update_last_accessed(&"a".to_string(), T0 + 50);
    store.update_last_accessed(&"a".to_string(), T0 + 20);
    let s = store.find_active_unexpired(&"a".to_string(), T0).unwrap();
    assert_eq!(s.last_accessed, T0 + 50);
}

#[test]
fn access_to_an_invalidated_session_is_not_recorded() {
    let mut store = SessionStore::new();
    open(&mut store, "a", 1, T0);
    store.set_inactive(&"a".to_string());
    store.update_last_accessed(&"a".to_string(), T0 + 50);
    assert!(store.find_active_unexpired(&"a".to_string(), T0).is_none());
    assert_eq!(store.len(), 1);
}

#[test]
fn store_refuses_a_row_that_expires_before_it_begins() {
    let mut store = SessionStore::new();
    let mut s = open(&mut store, "a", 1, T0);
    s.session_id = "b".to_string();
    s.expires_at = s.created_at;
    assert_eq!(store.insert(s.clone()), Err(AuthError::InvalidInput));
    s.expires_at = s.created_at + 1;
    assert_eq!(store.insert(s.clone()), Ok(()));
    assert_eq!(store.insert(s), Err(AuthError::StorageError));
    assert_eq!(store.len(), 2);
}

#[test]
fn renewal_replaces_the_old_session() {
    let mut store = SessionStore::new();
    open(&mut store, "old", 7, T0);
    let new = renew_session_at(
        &mut store,
        &policy(),
        T0 + 60,
        &"old".to_string(),
        "new".to_string(),
        7,
        ip("10.0.0.1"),
        ip("agent/1"),
    )
    .unwrap();
    assert_eq!(new.session_id, "new");
    assert_eq!(new.created_at, T0 + 60);
    assert!(present(&mut store, "old", T0 + 61, "10.0.0.1").is_none());
    assert!(present(&mut store, "new", T0 + 61, "10.0.0.1").is_some());
}

#[test]
fn clock_driven_session_round_trip() {
    let mut store = SessionStore::new();
    let before = unix_now();
    let s = create_session(&mut store, 3, ip("10.0.0.1"), ip("agent/1")).unwrap();
    let after = unix_now();
    assert!(before <= s.created_at && s.created_at <= after);
    assert_eq!(s.expires_at, s.created_at + 86_400);
    assert_eq!(s.session_id.len(), 36);
    assert_eq!(count_active_sessions(&store, 3), 1);
    let found = get_session_with_validation(
        &mut store,
        s.session_id.clone(),
        ip("10.0.0.1"),
        ip("agent/1"),
    );
    assert_eq!(found.unwrap().session_id, s.session_id);
    assert!(get_session(&mut store, s.session_id.clone()).is_some());
    update_session_access(&mut store, s.session_id.clone());
    assert_eq!(get_user_sessions(&store, 3).len(), 1);
    let renewed =
        renew_session_id(&mut store, s.session_id.clone(), 3, ip("10.0.0.1"), ip("agent/1"))
            .unwrap();
    assert_ne!(renewed.session_id, s.session_id);
    assert!(get_session(&mut store, s.session_id.clone()).is_none());
    assert_eq!(cleanup_expired_sessions(&mut store), 0);
    invalidate_session(&mut store, renewed.session_id.clone());
    assert_eq!(cleanup_expired_sessions(&mut store), 1);
    assert_eq!(store.len(), 0);
}

#[test]
fn session_identifiers_are_fresh() {
    let mut store = SessionStore::new();
    let a = create_session(&mut store, 1, None, None).unwrap().session_id;
    let b = create_session(&mut store, 1, None, None).unwrap().session_id;
    assert_eq!(a.len(), 36);
    assert_eq!(a.chars().filter(|c| *c == '-').count(), 4);
    assert!(a.chars().all(|c| c == '-' || c.is_ascii_hexdigit()));
    assert_ne!(a, b);
}

#[test]
fn sessions_are_stamped_with_the_present() {
    let mut store = SessionStore::new();
    let s = create_session(&mut store, 1, None, None).unwrap();
    assert!(s.created_at > 1_600_000_000);
    assert_eq!(s.last_accessed, s.created_at);
}
