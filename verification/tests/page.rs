//! The form of the page.

use calendar_settings::config::{
    AuthMethod, CalDavCalendar, CalendarConfig, EncryptionMode, SourceConfig, SourceType,
};
use calendar_settings::page::{form_url_valid, parse_scopes, Page};

fn empty_config() -> CalendarConfig {
    CalendarConfig {
        sources: Vec::new(),
        sync_interval_minutes: 15,
        upcoming_count: 5,
        encryption_mode: EncryptionMode::Off,
    }
}

fn test_page() -> Page {
    let mut p = Page::default(empty_config(), 0);
    p.form_oidc_scopes = "openid".into();
    p.form_source_id = "test-form".into();
    p
}

fn path_exists(p: &Page) -> bool {
    std::path::Path::new(p.form_path()).exists()
}

#[test]
fn form_valid_empty_name() {
    let mut p = test_page();
    p.form_name = "".into();
    p.form_url = "https://dav.example.com".into();
    p.form_source_type = 0;
    assert!(!p.form_valid(path_exists(&p)));
}

#[test]
fn form_valid_caldav_invalid_url() {
    let mut p = test_page();
    p.form_name = "My Calendar".into();
    p.form_url = "ftp://bad-scheme.com".into();
    p.form_source_type = 0;
    assert!(!p.form_valid(path_exists(&p)));
}

#[test]
fn form_valid_caldav_valid() {
    let mut p = test_page();
    p.form_name = "My Calendar".into();
    p.form_url = "https://dav.example.com/calendars/".into();
    p.form_source_type = 0;
    assert!(p.form_valid(path_exists(&p)));
}

#[test]
fn form_valid_ics_url_valid() {
    let mut p = test_page();
    p.form_name = "ICS Feed".into();
    p.form_url = "https://example.com/feed.ics".into();
    p.form_source_type = 1; // ICS URL
    assert!(p.form_valid(path_exists(&p)));
}

#[test]
fn form_valid_ics_file_nonexistent() {
    let mut p = test_page();
    p.form_name = "Local File".into();
    p.form_url = "/nonexistent/path/to/calendar.ics".into();
    p.form_source_type = 2; // ICS File
    assert!(!p.form_valid(path_exists(&p)));
}

#[test]
fn form_valid_ics_file_existing() {
    let mut p = test_page();
    p.form_name = "Root".into();
    p.form_url = " / ".into();
    p.form_source_type = 2;
    assert_eq!(p.form_path(), "/");
    assert!(p.form_valid(path_exists(&p)));
}

#[test]
fn blank_name_or_unknown_type() {
    let mut p = test_page();
    p.form_name = " \t\u{a0}".into();
    p.form_url = "http://x".into();
    assert!(!p.form_valid(false));
    p.form_name = "x".into();
    assert!(p.form_valid(false));
    p.form_source_type = 7;
    p.form_url = " ".into();
    assert!(!p.form_valid(true));
    p.form_url = "anything".into();
    assert!(p.form_valid(false));
}

#[test]
fn addresses_are_trimmed_before_they_are_judged() {
    assert!(form_url_valid(0, "  https://a", false));
    assert!(form_url_valid(1, "\nhttp://a\n", false));
    assert!(!form_url_valid(1, "HTTPS://a", false));
    assert!(!form_url_valid(2, "  ", true));
}

#[test]
fn first_page_is_empty() {
    let p = Page::default(empty_config(), 1_700_000_000_123_456_789);
    assert_eq!(p.form_source_id, "form-1700000000123456789");
    assert_eq!(p.form_color, "#1a73e8");
    assert_eq!(p.form_oidc_scopes, "openid, profile, email, offline_access");
    assert!(!p.editing);
    assert_eq!(p.editing_source_id, None);
    assert_eq!(p.discovering_source, None);
    assert_eq!(p.calendar_config, empty_config());
}

#[test]
fn scopes_are_split_trimmed_and_never_empty() {
    assert_eq!(parse_scopes(" openid ,, email,\t"), vec!["openid", "email"]);
    assert_eq!(parse_scopes(""), Vec::<String>::new());
}

#[test]
fn scopes_come_back_from_one_line() {
    let scopes = vec!["openid".to_string(), "offline_access".to_string(), "a b".to_string()];
    let mut p = test_page();
    p.fill_auth_form(&AuthMethod::Oidc {
        issuer_url: "https://id".into(),
        client_id: "c".into(),
        has_token: true,
        has_client_secret: true,
        scopes: scopes.clone(),
    });
    assert_eq!(p.form_oidc_scopes, "openid, offline_access, a b");
    assert_eq!(parse_scopes(&p.form_oidc_scopes), scopes);
}

#[test]
fn form_is_filled_without_secrets() {
    let mut p = test_page();
    p.form_password = "old".into();
    p.form_token = "old".into();
    p.form_oidc_client_secret = "old".into();
    p.fill_form_from_source(&SourceConfig {
        id: "s".into(),
        name: "Work".into(),
        color: "#d50000".into(),
        enabled: true,
        ca_cert_path: Some("/ca.pem".into()),
        source_type: SourceType::CalDav {
            url: "https://dav".into(),
            auth: AuthMethod::Basic { username: "me".into() },
            calendars: vec![CalDavCalendar {
                href: "/c".into(),
                display_name: "C".into(),
                color: String::new(),
                enabled: true,
            }],
        },
    });
    assert_eq!(p.form_name, "Work");
    assert_eq!(p.form_color, "#d50000");
    assert_eq!(p.form_ca_cert_path, "/ca.pem");
    assert_eq!(p.form_source_type, 0);
    assert_eq!(p.form_auth_method, 1);
    assert_eq!(p.form_username, "me");
    assert_eq!(p.form_password, "");
    // What belongs to other ways to sign in is left alone.
    assert_eq!(p.form_token, "old");

    p.fill_auth_form(&AuthMethod::Bearer);
    assert_eq!((p.form_auth_method, p.form_token.as_str()), (2, ""));
    p.fill_auth_form(&AuthMethod::Anonymous);
    assert_eq!(p.form_auth_method, 0);

    p.fill_form_from_source(&SourceConfig {
        id: "f".into(),
        name: "File".into(),
        color: String::new(),
        enabled: true,
        ca_cert_path: None,
        source_type: SourceType::IcsFile { path: "/a.ics".into() },
    });
    assert_eq!((p.form_source_type, p.form_auth_method), (2, 0));
    assert_eq!(p.form_url, "/a.ics");
    assert_eq!(p.form_ca_cert_path, "");
}

#[test]
fn reset_closes_and_empties_the_form() {
    let mut p = test_page();
    p.editing = true;
    p.editing_source_id = Some("s".into());
    p.form_name = "n".into();
    p.form_password = "secret".into();
    p.form_token = "secret".into();
    p.form_oidc_client_secret = "secret".into();
    p.form_auth_method = 3;
    p.form_source_type = 2;
    p.form_oidc_logged_in = true;
    p.form_editing_cal_color = Some(1);
    p.reset_form(42);
    assert!(!p.editing);
    assert_eq!(p.editing_source_id, None);
    assert_eq!(p.form_name, "");
    assert_eq!(p.form_password, "");
    assert_eq!(p.form_token, "");
    assert_eq!(p.form_oidc_client_secret, "");
    assert_eq!((p.form_auth_method, p.form_source_type), (0, 0));
    assert!(!p.form_oidc_logged_in);
    assert_eq!(p.form_editing_cal_color, None);
    assert_eq!(p.form_source_id, "form-42");
    assert_eq!(p.form_oidc_scopes, "openid, profile, email, offline_access");
}

#[test]
fn authentication_of_the_form() {
    let mut p = test_page();
    p.form_username = "me".into();
    p.form_oidc_issuer = "https://id".into();
    p.form_oidc_client_id = "c".into();
    p.form_oidc_client_secret = "s".into();
    assert_eq!(p.form_auth(true), AuthMethod::Anonymous);
    p.form_auth_method = 1;
    assert_eq!(p.form_auth(true), AuthMethod::Basic { username: "me".into() });
    p.form_auth_method = 2;
    assert_eq!(p.form_auth(true), AuthMethod::Bearer);
    p.form_auth_method = 3;
    assert_eq!(
        p.form_auth(true),
        AuthMethod::Oidc {
            issuer_url: "https://id".into(),
            client_id: "c".into(),
            has_token: true,
            has_client_secret: true,
            scopes: vec!["openid".into()],
        }
    );
    p.form_auth_method = 4;
    assert_eq!(p.form_auth(true), AuthMethod::Anonymous);
    assert_eq!(p.form_ca(), None);
    p.form_ca_cert_path = " /ca ".into();
    assert_eq!(p.form_ca(), Some(" /ca ".to_string()));
}

#[test]
fn entering_takes_the_stored_configuration() {
    let mut p = test_page();
    let mut stored = empty_config();
    stored.sync_interval_minutes = 99;
    p.on_enter(None);
    assert_eq!(p.calendar_config.sync_interval_minutes, 15);
    p.on_enter(Some(stored));
    assert_eq!(p.calendar_config.sync_interval_minutes, 99);
}
