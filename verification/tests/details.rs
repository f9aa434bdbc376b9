use session_auth::blog::BlogPost;
use session_auth::blog::BlogPostFormData;
use session_auth::context::SessionSecurityContext;
use session_auth::cookies::clear_client_cookie;
use session_auth::cookies::get_client_cookie;
use session_auth::cookies::set_client_cookie;
use session_auth::cookies::CookieConfig;
use session_auth::cookies::SameSite;
use session_auth::error::AuthError;
use session_auth::persistence::concluded;
use session_auth::persistence::unreadable;
use session_auth::persistence::Operation;
use session_auth::repo::Repository;
use session_auth::session::SessionState;
use session_auth::text::chars_of;
use session_auth::text::is_whitespace;
use session_auth::text::push_decimal;

fn context() -> SessionSecurityContext {
    SessionSecurityContext {
        ip_address: Some("10.0.0.1".to_string()),
        user_agent: None,
        created_at: 1000,
    }
}

#[test]
fn context_compares_only_what_both_sides_have() {
    let c = context();
    let here = Some("10.0.0.1".to_string());
    let there = Some("10.0.0.2".to_string());
    let agent = Some("agent".to_string());
    assert!(c.validate_context(&here, &agent));
    assert!(c.validate_context(&None, &None));
    assert!(!c.validate_context(&there, &agent));
    let full = SessionSecurityContext { user_agent: Some("agent".to_string()), ..context() };
    assert!(full.validate_context(&here, &agent));
    assert!(!full.validate_context(&here, &Some("other".to_string())));
}

#[test]
fn age_is_counted_in_whole_hours() {
    let c = context();
    assert!(c.is_within_age_limit_at(1000, 0));
    assert!(c.is_within_age_limit_at(1000 + 3599, 0));
    assert!(!c.is_within_age_limit_at(1000 + 3600, 0));
    assert!(c.is_within_age_limit_at(1000 + 3600, 1));
    assert!(c.is_within_age_limit_at(1000 + 24 * 3600 + 3599, 24));
    assert!(!c.is_within_age_limit_at(1000 + 25 * 3600, 24));
    // A context from the future is zero hours old until a whole hour ahead.
    assert!(c.is_within_age_limit_at(1000 - 3599, 0));
    assert!(!c.is_within_age_limit_at(1000 - 3599, -1));
    assert!(c.is_within_age_limit_at(1000 - 3600, -1));
    assert!(c.is_within_age_limit_at(i64::MIN, 0));
    assert!(!c.is_within_age_limit_at(i64::MAX, i64::MAX / 3600 - 1));
}

#[test]
fn age_by_the_clock() {
    let old = context();
    assert!(!old.is_within_age_limit(24));
    assert!(old.is_within_age_limit(i64::MAX));
}

#[test]
fn default_cookie_attributes() {
    let config = CookieConfig::default();
    assert_eq!(config.name, "session_id");
    assert_eq!(config.max_age_seconds, 86_400);
    assert!(!config.secure);
    assert!(config.http_only);
    assert_eq!(config.same_site, SameSite::Lax);
    assert_eq!(config.path, "/");
    assert!(config.domain.is_none());
}

#[test]
fn error_messages_reveal_nothing() {
    assert_eq!(AuthError::InvalidCredentials.message(), "Invalid credentials");
    assert_eq!(AuthError::SecurityViolation.message(), "Invalid credentials");
    assert_eq!(AuthError::StorageError.message(), "Please try again");
    assert_eq!(AuthError::InvalidInput.message(), "Invalid input");
}

#[test]
fn plain_values() {
    let repo = Repository {
        name: "site".to_string(),
        description: None,
        pushed_at: "2024-01-01T00:00:00Z".to_string(),
    };
    assert_eq!(repo.name, "site");
    assert!(SessionState::Valid != SessionState::Invalid);
    assert!(SessionState::Loading == SessionState::Loading);
}

#[test]
fn cookie_text_with_default_attributes() {
    assert_eq!(
        set_client_cookie("session_id", "abc", None),
        "session_id=abc; Path=/; Max-Age=86400; SameSite=Lax"
    );
    assert_eq!(
        set_client_cookie("session_id", "abc", Some(60)),
        "session_id=abc; Path=/; Max-Age=60; SameSite=Lax"
    );
    assert_eq!(set_client_cookie("k", "", Some(0)), "k=; Path=/; Max-Age=0; SameSite=Lax");
    assert_eq!(
        set_client_cookie("k", "v", Some(-15)),
        "k=v; Path=/; Max-Age=-15; SameSite=Lax"
    );
    assert_eq!(
        set_client_cookie("k", "v", Some(i64::MIN)),
        "k=v; Path=/; Max-Age=-9223372036854775808; SameSite=Lax"
    );
    assert_eq!(
        set_client_cookie("k", "v", Some(i64::MAX)),
        "k=v; Path=/; Max-Age=9223372036854775807; SameSite=Lax"
    );
}

#[test]
fn cookie_text_with_every_attribute() {
    let config = CookieConfig {
        name: "sid".to_string(),
        max_age_seconds: 10,
        secure: true,
        http_only: true,
        same_site: SameSite::Strict,
        path: "/app".to_string(),
        domain: Some("example.org".to_string()),
    };
    assert_eq!(
        config.setting("sid", "x y", 1005),
        "sid=x y; Path=/app; Max-Age=1005; Secure; SameSite=Strict; Domain=example.org"
    );
    let open = CookieConfig { same_site: SameSite::Unrestricted, secure: false, ..config };
    assert_eq!(
        open.setting("sid", "v", 7),
        "sid=v; Path=/app; Max-Age=7; SameSite=None; Domain=example.org"
    );
    assert_eq!(
        open.clearing("sid"),
        "sid=; Path=/app; Max-Age=-1; Expires=Thu, 01 Jan 1970 00:00:00 GMT"
    );
}

#[test]
fn clearing_text_with_default_attributes() {
    assert_eq!(
        clear_client_cookie("session_id"),
        "session_id=; Path=/; Max-Age=-1; Expires=Thu, 01 Jan 1970 00:00:00 GMT"
    );
}

#[test]
fn cookie_is_read_back_by_name() {
    let cookies = "theme=dark; session_id=abc-123; lang=en";
    assert_eq!(get_client_cookie(cookies, "session_id"), Some("abc-123".to_string()));
    assert_eq!(get_client_cookie(cookies, "theme"), Some("dark".to_string()));
    assert_eq!(get_client_cookie(cookies, "lang"), Some("en".to_string()));
    assert_eq!(get_client_cookie(cookies, "missing"), None);
    assert_eq!(get_client_cookie(cookies, "session"), None);
    assert_eq!(get_client_cookie("", "session_id"), None);
    assert_eq!(get_client_cookie(";;;", "session_id"), None);
}

#[test]
fn cookie_parsing_edge_cases() {
    // White space around a pair and behind its name goes; the rest stays.
    assert_eq!(get_client_cookie("  a = 1 ;b=2", "a"), Some(" 1".to_string()));
    assert_eq!(get_client_cookie("\ta=1\u{a0};b=2", "a"), Some("1".to_string()));
    // The first pair of a name counts; the value runs to the next `;`.
    assert_eq!(get_client_cookie("a=1; a=2", "a"), Some("1".to_string()));
    assert_eq!(get_client_cookie("a=x=y; b=2", "a"), Some("x=y".to_string()));
    assert_eq!(get_client_cookie("a=; b=2", "a"), Some(String::new()));
    // A piece without `=` is no pair, and names are compared as given.
    assert_eq!(get_client_cookie("a; b=2", "a"), None);
    assert_eq!(get_client_cookie("a=1", " a"), None);
    assert_eq!(get_client_cookie("=v", ""), Some("v".to_string()));
    assert_eq!(
        get_client_cookie("k\u{e9}y=w\u{e4}rt; x=1", "k\u{e9}y"),
        Some("w\u{e4}rt".to_string())
    );
}

#[test]
fn session_identifier_round_trips_through_the_cookie() {
    let id = "6f9619ff-8b86-4d01-b42d-00cf4fc964ff";
    let text = set_client_cookie("session_id", id, None);
    assert_eq!(get_client_cookie(&text, "session_id"), Some(id.to_string()));
    let cleared = clear_client_cookie("session_id");
    assert_eq!(get_client_cookie(&cleared, "session_id"), Some(String::new()));
}

#[test]
fn characters_of_a_string() {
    assert_eq!(chars_of("a\u{e9}z"), vec!['a', '\u{e9}', 'z']);
    assert!(chars_of("").is_empty());
}

#[test]
fn white_space_is_what_unicode_says() {
    for c in ['\t', '\n', '\u{b}', '\u{c}', '\r', ' ', '\u{85}', '\u{a0}', '\u{1680}', '\u{2000}',
        '\u{200a}', '\u{2028}', '\u{2029}', '\u{202f}', '\u{205f}', '\u{3000}']
    {
        assert!(is_whitespace(c));
    }
    for c in ['a', '0', '=', ';', '\u{8}', '\u{e}', '\u{200b}', '\u{1f}', '\u{feff}'] {
        assert!(!is_whitespace(c));
    }
    let mut c = '\0';
    loop {
        assert_eq!(is_whitespace(c), c.is_whitespace());
        if c == '\u{ffff}' {
            break;
        }
        c = char::from_u32(c as u32 + 1).unwrap_or('\u{e000}');
    }
}

#[test]
fn integers_in_decimal() {
    let mut out = String::from("n=");
    push_decimal(&mut out, 0);
    out.push(',');
    push_decimal(&mut out, 7);
    out.push(',');
    push_decimal(&mut out, 10);
    out.push(',');
    push_decimal(&mut out, -1);
    out.push(',');
    push_decimal(&mut out, 1_234_567_890);
    assert_eq!(out, "n=0,7,10,-1,1234567890");
}

#[test]
fn blog_post_conversions() {
    let form = BlogPostFormData { title: "T".to_string(), content: "C".to_string() };
    let post = BlogPost::from_form_data(form);
    assert_eq!(post.id, None);
    assert_eq!(post.title, "T");
    assert_eq!(post.content, "C");
    let stored = BlogPost { id: Some(4), ..post };
    let model = stored.to_model();
    assert_eq!(model.id, Some(4));
    assert_eq!(model.title, "T");
    assert_eq!(model.content, "C");
}

#[test]
fn store_failures_fail_what_depends_on_them() {
    let all = [
        Operation::CreateSession,
        Operation::ValidateSession,
        Operation::RenewSession,
        Operation::InvalidateSession,
        Operation::InvalidateAccount,
        Operation::Cleanup,
        Operation::ListSessions,
        Operation::CountSessions,
        Operation::Login,
        Operation::Logout,
        Operation::CurrentUser,
        Operation::SaveAccount,
    ];
    for op in all {
        assert_eq!(concluded(op, 7, true), Ok(7));
        let best_effort = matches!(
            op,
            Operation::ValidateSession
                | Operation::CurrentUser
                | Operation::Logout
                | Operation::ListSessions
                | Operation::CountSessions
        );
        assert_eq!(op.must_write(), !best_effort);
        assert_eq!(
            concluded(op, 7, false),
            if best_effort { Ok(7) } else { Err(AuthError::StorageError) }
        );
        assert_eq!(op.must_read(), op != Operation::Logout);
    }
    assert_eq!(unreadable(Operation::Login), Err(AuthError::StorageError));
    assert_eq!(unreadable(Operation::ValidateSession), Err(AuthError::StorageError));
    assert_eq!(unreadable(Operation::Logout), Ok(()));
}

#[test]
fn blog_posts_compare_by_content() {
    let empty = BlogPost::default();
    assert!(empty.id.is_none() && empty.title.is_empty() && empty.content.is_empty());
    let a = BlogPost { id: Some(1), title: "T".to_string(), content: "C".to_string() };
    assert!(a == a.clone());
    assert!(a != BlogPost { id: Some(2), ..a.clone() });
    assert!(a != BlogPost { title: "U".to_string(), ..a.clone() });
    assert!(a != empty);
}
