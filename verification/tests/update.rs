//! How the page reacts to events.

use calendar_settings::config::{
    AuthMethod, CalDavCalendar, CalendarConfig, EncryptionMode, SourceConfig, SourceType,
};
use calendar_settings::discovery::InlineCredentials;
use calendar_settings::labels::{Label, Text};
use calendar_settings::message::Message;
use calendar_settings::page::Page;
use calendar_settings::secrets::SecretKind;
use calendar_settings::task::{Outcome, SecretWrite, Task};
use calendar_settings::update::{Facts, FreshSource};

fn facts() -> Facts {
    Facts {
        now_nanos: 7,
        form_path_exists: false,
        fresh: FreshSource { id: "fresh".into(), enabled: true, ca_cert_path: None },
        stored_config: None,
    }
}

fn calendar(href: &str, color: &str) -> CalDavCalendar {
    CalDavCalendar {
        href: href.into(),
        display_name: format!("name of {href}"),
        color: color.into(),
        enabled: true,
    }
}

fn source(id: &str, source_type: SourceType) -> SourceConfig {
    SourceConfig {
        id: id.into(),
        name: format!("name of {id}"),
        color: "#111111".into(),
        enabled: true,
        ca_cert_path: None,
        source_type,
    }
}

fn caldav(auth: AuthMethod, calendars: Vec<CalDavCalendar>) -> SourceType {
    SourceType::CalDav { url: "https://dav".into(), auth, calendars }
}

fn oidc(has_token: bool, has_client_secret: bool) -> AuthMethod {
    AuthMethod::Oidc {
        issuer_url: "https://id".into(),
        client_id: "client".into(),
        has_token,
        has_client_secret,
        scopes: vec!["openid".into(), "email".into()],
    }
}

fn page(sources: Vec<SourceConfig>) -> Page {
    Page::default(
        CalendarConfig {
            sources,
            sync_interval_minutes: 15,
            upcoming_count: 5,
            encryption_mode: EncryptionMode::Auto,
        },
        1,
    )
}

fn three_sources() -> Vec<SourceConfig> {
    vec![
        source("a", caldav(AuthMethod::Anonymous, vec![calendar("/1", "#010101")])),
        source("b", caldav(oidc(true, false), vec![calendar("/1", "#020202"), calendar("/2", "")])),
        source("c", SourceType::IcsFile { path: "/c.ics".into() }),
    ]
}

fn send(p: &mut Page, message: Message) -> Outcome {
    p.update(message, facts())
}

fn saving(task: Task) -> Outcome {
    Outcome { save_config: true, clear_cache: false, forget_secrets: None, task }
}

fn only(task: Task) -> Outcome {
    Outcome { save_config: false, clear_cache: false, forget_secrets: None, task }
}

fn nothing() -> Outcome {
    only(Task::Idle)
}

fn keyring(writes: Vec<SecretWrite>, done: Message) -> Task {
    Task::Keyring { clear: None, writes, done }
}

fn write(source_id: &str, kind: SecretKind, secret: &str) -> SecretWrite {
    SecretWrite { source_id: source_id.into(), kind, secret: secret.into() }
}

fn ids(p: &Page) -> Vec<String> {
    p.calendar_config.sources.iter().map(|s| s.id.clone()).collect()
}

#[test]
fn adding_opens_an_empty_form() {
    let mut p = page(Vec::new());
    p.form_name = "left over".into();
    assert_eq!(send(&mut p, Message::AddSource), nothing());
    assert!(p.editing);
    assert_eq!(p.editing_source_id, None);
    assert_eq!(p.form_name, "");
    assert_eq!(p.form_source_id, "form-7");
}

#[test]
fn editing_opens_the_form_on_a_source() {
    let mut p = page(three_sources());
    p.form_password = "typed".into();
    assert_eq!(send(&mut p, Message::EditSource("b".into())), nothing());
    assert!(p.editing);
    assert_eq!(p.editing_source_id, Some("b".to_string()));
    assert_eq!(p.form_name, "name of b");
    assert_eq!(p.form_auth_method, 3);
    assert_eq!(p.form_oidc_scopes, "openid, email");
    assert_eq!(p.form_password, "");
    let mut q = page(three_sources());
    assert_eq!(send(&mut q, Message::EditSource("x".into())), nothing());
    assert!(!q.editing);
}

#[test]
fn removing_a_source() {
    let mut p = page(three_sources());
    p.calendar_config.sources.push(source("b", SourceType::IcsFile { path: "/d".into() }));
    let outcome = send(&mut p, Message::RemoveSource("b".into()));
    assert_eq!(ids(&p), vec!["a", "c"]);
    assert_eq!(
        outcome,
        Outcome {
            save_config: true,
            clear_cache: false,
            forget_secrets: Some("b".into()),
            task: Task::Idle
        }
    );
    let before = p.calendar_config.clone();
    send(&mut p, Message::RemoveSource("b".into()));
    assert_eq!(p.calendar_config, before);
}

#[test]
fn toggling_a_source_twice() {
    let mut p = page(three_sources());
    assert_eq!(send(&mut p, Message::ToggleSource("c".into())), saving(Task::Idle));
    assert!(!p.calendar_config.sources[2].enabled);
    assert!(p.calendar_config.sources[0].enabled);
    send(&mut p, Message::ToggleSource("c".into()));
    assert_eq!(p.calendar_config.sources, three_sources());
    assert_eq!(send(&mut p, Message::ToggleSource("x".into())), saving(Task::Idle));
    assert_eq!(p.calendar_config.sources, three_sources());
}

fn filled(source_type: usize, auth_method: usize) -> Page {
    let mut p = page(Vec::new());
    p.editing = true;
    p.form_name = "New".into();
    p.form_url = "https://new".into();
    p.form_color = "#222222".into();
    p.form_source_type = source_type;
    p.form_auth_method = auth_method;
    p.form_username = "me".into();
    p.form_password = "pw".into();
    p.form_token = "tok".into();
    p.form_oidc_issuer = "https://id".into();
    p.form_oidc_client_id = "client".into();
    p.form_oidc_scopes = "openid".into();
    p.form_source_id = "form-1".into();
    p
}

#[test]
fn saving_a_new_source_with_calendars() {
    let mut p = filled(0, 1);
    p.form_discovered_calendars = vec![calendar("/1", "")];
    p.form_ca_cert_path = "/ca".into();
    let outcome = send(&mut p, Message::SaveSource);
    assert_eq!(
        p.calendar_config.sources,
        vec![SourceConfig {
            id: "fresh".into(),
            name: "New".into(),
            color: "#222222".into(),
            enabled: true,
            ca_cert_path: Some("/ca".into()),
            source_type: SourceType::CalDav {
                url: "https://new".into(),
                auth: AuthMethod::Basic { username: "me".into() },
                calendars: vec![calendar("/1", "")],
            },
        }]
    );
    assert_eq!(
        outcome,
        saving(keyring(vec![write("fresh", SecretKind::Password, "pw")], Message::ConfigReload))
    );
    assert!(!p.editing);
    assert_eq!(p.form_password, "");
    assert_eq!(p.form_discovered_calendars, Vec::new());
}

#[test]
fn saving_other_new_sources() {
    let mut p = filled(1, 2);
    assert_eq!(
        send(&mut p, Message::SaveSource),
        saving(keyring(vec![write("fresh", SecretKind::BearerToken, "tok")], Message::ConfigReload))
    );
    assert_eq!(
        p.calendar_config.sources[0].source_type,
        SourceType::IcsUrl { url: "https://new".into(), auth: AuthMethod::Bearer }
    );

    let mut p = filled(2, 0);
    let mut f = facts();
    f.form_path_exists = true;
    f.fresh = FreshSource { id: "x".into(), enabled: false, ca_cert_path: Some("/d".into()) };
    assert_eq!(
        p.update(Message::SaveSource, f),
        saving(keyring(Vec::new(), Message::ConfigReload))
    );
    let saved = &p.calendar_config.sources[0];
    assert_eq!(saved.source_type, SourceType::IcsFile { path: "https://new".into() });
    assert_eq!((saved.id.as_str(), saved.enabled), ("x", false));
    assert_eq!(saved.ca_cert_path, Some("/d".to_string()));
}

#[test]
fn saving_an_oidc_source_before_and_after_sign_in() {
    let mut p = filled(0, 3);
    p.form_oidc_client_secret = "cs".into();
    assert_eq!(
        send(&mut p, Message::SaveSource),
        saving(keyring(
            vec![write("fresh", SecretKind::OidcClientSecret, "cs")],
            Message::ConfigReload
        ))
    );
    let mut p = filled(0, 3);
    p.form_oidc_client_secret = "cs".into();
    p.form_oidc_logged_in = true;
    assert_eq!(
        send(&mut p, Message::SaveSource),
        saving(keyring(Vec::new(), Message::ConfigReload))
    );
    assert_eq!(ids(&p), vec!["form-1"]);
    assert_eq!(
        p.calendar_config.sources[0].source_type,
        SourceType::CalDav {
            url: "https://new".into(),
            auth: AuthMethod::Oidc {
                issuer_url: "https://id".into(),
                client_id: "client".into(),
                has_token: true,
                has_client_secret: true,
                scopes: vec!["openid".into()],
            },
            calendars: Vec::new(),
        }
    );
}

#[test]
fn invalid_form_is_not_saved() {
    let mut p = filled(0, 1);
    p.form_url = "nowhere".into();
    for message in [Message::SaveSource, Message::SaveEditSource, Message::FormDiscover] {
        assert_eq!(send(&mut p, message), nothing());
        assert_eq!(p.calendar_config.sources, Vec::new());
        assert_eq!(p.form_password, "pw");
        assert!(p.editing);
    }
}

#[test]
fn untouched_form_changes_nothing() {
    let mut p = page(three_sources());
    for id in ["a", "b"] {
        send(&mut p, Message::EditSource(id.into()));
        assert_eq!(
            send(&mut p, Message::SaveEditSource),
            saving(keyring(Vec::new(), Message::ConfigReload))
        );
        assert_eq!(p.calendar_config.sources, three_sources());
        assert!(!p.editing);
    }
}

#[test]
fn saving_an_edited_source() {
    let mut p = page(three_sources());
    send(&mut p, Message::EditSource("b".into()));
    send(&mut p, Message::FormName("B".into()));
    send(&mut p, Message::FormAuth(1));
    send(&mut p, Message::FormUsername("me".into()));
    send(&mut p, Message::FormPassword("pw".into()));
    assert_eq!(
        send(&mut p, Message::SaveEditSource),
        saving(Task::Keyring {
            clear: Some("b".into()),
            writes: vec![write("b", SecretKind::Password, "pw")],
            done: Message::ConfigReload,
        })
    );
    let b = &p.calendar_config.sources[1];
    assert_eq!(b.name, "B");
    assert_eq!(
        b.source_type,
        caldav(
            AuthMethod::Basic { username: "me".into() },
            vec![calendar("/1", "#020202"), calendar("/2", "")]
        )
    );
}

#[test]
fn editing_keeps_the_token_and_may_change_the_type() {
    let mut p = page(three_sources());
    send(&mut p, Message::EditSource("b".into()));
    send(&mut p, Message::FormOidcClientSecret("cs".into()));
    assert_eq!(
        send(&mut p, Message::SaveEditSource),
        saving(keyring(vec![write("b", SecretKind::OidcClientSecret, "cs")], Message::ConfigReload))
    );
    match &p.calendar_config.sources[1].source_type {
        SourceType::CalDav { auth, .. } => assert_eq!(*auth, oidc(true, true)),
        _ => panic!("another type"),
    }

    send(&mut p, Message::EditSource("c".into()));
    send(&mut p, Message::FormSourceType(0));
    send(&mut p, Message::FormUrl("http://c".into()));
    send(&mut p, Message::FormAuth(2));
    assert_eq!(
        send(&mut p, Message::SaveEditSource),
        saving(Task::Keyring {
            clear: Some("c".into()),
            writes: Vec::new(),
            done: Message::ConfigReload
        })
    );
    assert_eq!(
        p.calendar_config.sources[2].source_type,
        SourceType::CalDav {
            url: "http://c".into(),
            auth: AuthMethod::Bearer,
            calendars: Vec::new()
        }
    );
    send(&mut p, Message::EditSource("a".into()));
    send(&mut p, Message::FormSourceType(1));
    send(&mut p, Message::SaveEditSource);
    assert_eq!(
        p.calendar_config.sources[0].source_type,
        SourceType::IcsUrl { url: "https://dav".into(), auth: AuthMethod::Anonymous }
    );
}

#[test]
fn old_secrets_go_with_the_number_of_the_authentication() {
    for (number, clear) in [(3, None), (0, Some("b")), (4, Some("b")), (259, None)] {
        let mut p = page(three_sources());
        send(&mut p, Message::EditSource("b".into()));
        send(&mut p, Message::FormAuth(number));
        assert_eq!(
            send(&mut p, Message::SaveEditSource),
            saving(Task::Keyring {
                clear: clear.map(str::to_string),
                writes: Vec::new(),
                done: Message::ConfigReload,
            })
        );
    }
}

#[test]
fn editing_a_source_that_has_gone() {
    let mut p = filled(0, 1);
    p.editing_source_id = Some("gone".into());
    assert_eq!(
        send(&mut p, Message::SaveEditSource),
        saving(keyring(vec![write("gone", SecretKind::Password, "pw")], Message::ConfigReload))
    );
    assert_eq!(p.calendar_config.sources, Vec::new());
}

#[test]
fn fields_hold_what_is_written() {
    let mut p = page(Vec::new());
    let t = || "text".to_string();
    for message in [
        Message::FormName(t()),
        Message::FormUrl(t()),
        Message::FormUsername(t()),
        Message::FormPassword(t()),
        Message::FormToken(t()),
        Message::FormColor(t()),
        Message::FormOidcIssuer(t()),
        Message::FormOidcClientId(t()),
        Message::FormOidcClientSecret(t()),
        Message::FormOidcScopes(t()),
        Message::FormCaCertPath(t()),
        Message::FormCalColorInput(t()),
        Message::CalendarColorInput(t()),
        Message::FormSourceType(2),
        Message::FormAuth(3),
    ] {
        assert_eq!(send(&mut p, message), nothing());
    }
    for value in [
        &p.form_name,
        &p.form_url,
        &p.form_username,
        &p.form_password,
        &p.form_token,
        &p.form_color,
        &p.form_oidc_issuer,
        &p.form_oidc_client_id,
        &p.form_oidc_client_secret,
        &p.form_oidc_scopes,
        &p.form_ca_cert_path,
        &p.form_cal_color_input,
        &p.calendar_color_input,
    ] {
        assert_eq!(value, "text");
    }
    assert_eq!((p.form_source_type, p.form_auth_method), (2, 3));
    assert_eq!(send(&mut p, Message::CancelForm), nothing());
    assert_eq!((p.form_source_type, p.form_auth_method), (0, 0));
    assert_eq!(p.form_password, "");
}

#[test]
fn certificate_file_is_chosen() {
    let mut p = page(Vec::new());
    assert_eq!(send(&mut p, Message::BrowseCaCert), only(Task::BrowseCaCert));
    assert_eq!(
        send(&mut p, Message::CaCertBrowsed(Ok("file:///etc/my%20ca.pem".into()))),
        nothing()
    );
    assert_eq!(p.form_ca_cert_path, "/etc/my ca.pem");
    for result in [
        Ok("https://example.com/ca.pem".to_string()),
        Ok("no address".to_string()),
        Err("cancelled".to_string()),
    ] {
        assert_eq!(send(&mut p, Message::CaCertBrowsed(result)), nothing());
        assert_eq!(p.form_ca_cert_path, "/etc/my ca.pem");
    }
    p.choose_ca_cert(None);
    assert_eq!(p.form_ca_cert_path, "/etc/my ca.pem");
    p.choose_ca_cert(Some("/x".into()));
    assert_eq!(p.form_ca_cert_path, "/x");
}

#[test]
fn discovery_for_the_form() {
    for (method, credentials) in [
        (0, InlineCredentials::Anonymous),
        (1, InlineCredentials::Basic { username: "me".into(), password: "pw".into() }),
        (2, InlineCredentials::Bearer { token: "tok".into() }),
        (9, InlineCredentials::Anonymous),
    ] {
        let mut p = filled(0, method);
        p.form_discovery_error = Some(Text::Plain("old".into()));
        assert_eq!(
            send(&mut p, Message::FormDiscover),
            only(Task::DiscoverForm {
                url: "https://new".into(),
                credentials,
                ca_cert_path: None
            })
        );
        assert!(p.form_discovering);
        assert_eq!(p.form_discovery_error, None);
    }
    let mut p = filled(1, 0);
    assert_eq!(send(&mut p, Message::FormDiscover), nothing());
    assert!(!p.form_discovering);
}

#[test]
fn discovery_for_the_form_needs_a_sign_in() {
    let mut p = filled(0, 3);
    assert_eq!(send(&mut p, Message::FormDiscover), nothing());
    assert!(!p.form_discovering);
    assert_eq!(p.form_discovery_error, Some(Text::Label(Label::OidcLoginFirst)));
    p.form_oidc_logged_in = true;
    p.form_ca_cert_path = "/ca".into();
    assert_eq!(
        send(&mut p, Message::FormDiscover),
        only(Task::DiscoverFormWithToken {
            source_id: "form-1".into(),
            url: "https://new".into(),
            ca_cert_path: Some("/ca".into()),
        })
    );
    assert!(p.form_discovering);
}

#[test]
fn discovered_calendars_of_the_form() {
    let mut p = filled(0, 0);
    p.form_discovering = true;
    send(&mut p, Message::FormDiscoverError("why".into()));
    assert!(!p.form_discovering);
    assert_eq!(p.form_discovery_error, Some(Text::Plain("why".into())));
    send(&mut p, Message::FormDiscovered(vec![calendar("/1", "#010101"), calendar("/2", "")]));
    assert_eq!(p.form_discovery_error, None);
    assert_eq!(p.form_discovered_calendars.len(), 2);

    send(&mut p, Message::FormToggleCalendar(1));
    send(&mut p, Message::FormToggleCalendar(5));
    assert!(p.form_discovered_calendars[0].enabled && !p.form_discovered_calendars[1].enabled);

    send(&mut p, Message::FormCalendarColor(0));
    assert_eq!(p.form_cal_color_input, "#010101");
    send(&mut p, Message::FormCalColorPreset("#0b8043".into()));
    assert_eq!(p.form_cal_color_input, "#0b8043");
    assert_eq!(p.form_discovered_calendars[0].color, "#0b8043");
    send(&mut p, Message::FormCalColorInput("#abcdef".into()));
    send(&mut p, Message::FormCalColorSave);
    assert_eq!(p.form_discovered_calendars[0].color, "#abcdef");
    assert_eq!(p.form_editing_cal_color, None);

    send(&mut p, Message::FormCalendarColor(9));
    assert_eq!(p.form_cal_color_input, "#1a73e8");
    assert_eq!(p.form_editing_cal_color, Some(9));
    send(&mut p, Message::FormCalColorSave);
    send(&mut p, Message::FormCalendarColor(1));
    send(&mut p, Message::FormCalColorCancel);
    assert_eq!(p.form_editing_cal_color, None);
    send(&mut p, Message::FormCalColorPreset("#d50000".into()));
    assert_eq!(p.form_discovered_calendars[0].color, "#abcdef");
    assert_eq!(p.form_discovered_calendars[1].color, "");
}

#[test]
fn sign_in_for_the_form() {
    let mut p = filled(0, 3);
    assert_eq!(
        send(&mut p, Message::FormOidcLogin),
        only(Task::FormLogin {
            issuer_url: "https://id".into(),
            client_id: "client".into(),
            client_secret: None,
            scopes: vec!["openid".into()],
        })
    );
    p.form_oidc_client_secret = "cs".into();
    p.form_oidc_scopes = "a, b,".into();
    assert_eq!(
        send(&mut p, Message::FormOidcLogin),
        only(Task::FormLogin {
            issuer_url: "https://id".into(),
            client_id: "client".into(),
            client_secret: Some("cs".into()),
            scopes: vec!["a".into(), "b".into()],
        })
    );
    assert_eq!(send(&mut p, Message::FormOidcLoginResult(Err("why".into()))), nothing());
    assert_eq!(p.form_discovery_error, Some(Text::Plain("why".into())));
    assert!(!p.form_oidc_logged_in);
}

#[test]
fn sign_in_with_a_complete_form_saves_and_discovers() {
    let mut p = filled(0, 3);
    p.form_oidc_client_secret = "cs".into();
    p.form_discovered_calendars = vec![calendar("/1", "")];
    let result = Ok(("at".to_string(), Some("rt".to_string())));
    let done = Message::OidcSavedAndDiscover("form-1".into(), "at".into());
    assert_eq!(
        send(&mut p, Message::FormOidcLoginResult(result)),
        saving(keyring(
            vec![
                write("form-1", SecretKind::OidcAccessToken, "at"),
                write("form-1", SecretKind::OidcRefreshToken, "rt"),
                write("form-1", SecretKind::OidcClientSecret, "cs"),
            ],
            done.clone()
        ))
    );
    assert_eq!(ids(&p), vec!["form-1"]);
    assert!(!p.editing);
    let auth = AuthMethod::Oidc {
        issuer_url: "https://id".into(),
        client_id: "client".into(),
        has_token: true,
        has_client_secret: true,
        scopes: vec!["openid".into()],
    };
    assert_eq!(
        p.calendar_config.sources[0].source_type,
        SourceType::CalDav {
            url: "https://new".into(),
            auth,
            calendars: Vec::new()
        }
    );
    assert_eq!(
        send(&mut p, done),
        only(Task::DiscoverWithCredentials {
            source_id: "form-1".into(),
            url: "https://new".into(),
            credentials: InlineCredentials::Bearer { token: "at".into() },
            ca_cert_path: None
        })
    );
    assert!(p.editing);
    assert_eq!(p.editing_source_id, Some("form-1".to_string()));
    assert_eq!(p.discovering_source, Some("form-1".to_string()));
}

#[test]
fn only_a_caldav_source_is_discovered_after_its_sign_in() {
    let mut p = page(three_sources());
    p.calendar_config.sources[1].ca_cert_path = Some("/ca.pem".into());
    p.discovery_error = Some(Text::Plain("old".into()));
    let saved = |id: &str| Message::OidcSavedAndDiscover(id.into(), "at".into());
    assert_eq!(
        send(&mut p, saved("b")),
        only(Task::DiscoverWithCredentials {
            source_id: "b".into(),
            url: "https://dav".into(),
            credentials: InlineCredentials::Bearer { token: "at".into() },
            ca_cert_path: Some("/ca.pem".into())
        })
    );
    assert_eq!(p.discovery_error, None);
    assert_eq!(p.editing_source_id, Some("b".to_string()));
    assert_eq!(send(&mut p, saved("c")), nothing());
    assert_eq!(p.editing_source_id, Some("c".to_string()));
    assert_eq!(send(&mut p, saved("x")), nothing());
    assert_eq!(p.editing_source_id, Some("c".to_string()));
    assert_eq!(p.discovering_source, Some("x".to_string()));
}

#[test]
fn sign_in_with_an_incomplete_form_keeps_the_tokens() {
    let mut p = filled(0, 3);
    p.form_name = String::new();
    assert_eq!(
        send(&mut p, Message::FormOidcLoginResult(Ok(("at".into(), None)))),
        only(keyring(
            vec![write("form-1", SecretKind::OidcAccessToken, "at")],
            Message::FormDiscover
        ))
    );
    assert!(p.form_oidc_logged_in);
    send(&mut p, Message::FormName("Late".into()));
    send(&mut p, Message::FormDiscovered(vec![calendar("/1", "")]));
    send(&mut p, Message::SaveSource);
    assert_eq!(ids(&p), vec!["form-1"]);
}

#[test]
fn discovery_for_a_source() {
    let mut p = page(three_sources());
    p.discovery_error = Some(Text::Plain("old".into()));
    assert_eq!(
        send(&mut p, Message::Discover("b".into())),
        only(Task::Discover {
            source_id: "b".into(),
            url: "https://dav".into(),
            auth: oidc(true, false),
            ca_cert_path: None
        })
    );
    assert_eq!(p.discovering_source, Some("b".to_string()));
    assert_eq!(p.discovery_error, None);
    assert_eq!(send(&mut p, Message::Discover("c".into())), nothing());
    assert_eq!(send(&mut p, Message::Discover("x".into())), nothing());
    assert_eq!(p.discovering_source, Some("x".to_string()));
}

#[test]
fn discovered_calendars_are_merged() {
    let mut p = page(three_sources());
    p.discovering_source = Some("b".into());
    let found = vec![calendar("/2", "#ffffff"), calendar("/3", ""), calendar("/3", "#333333")];
    assert_eq!(
        send(&mut p, Message::Discovered("b".into(), found.clone())),
        saving(Task::Idle)
    );
    assert_eq!(p.discovering_source, None);
    let expected = vec![calendar("/1", "#020202"), calendar("/2", ""), calendar("/3", "")];
    assert_eq!(p.calendar_config.sources[1].source_type, caldav(oidc(true, false), expected));
    let before = p.calendar_config.clone();
    send(&mut p, Message::Discovered("b".into(), found));
    assert_eq!(p.calendar_config, before);
    send(&mut p, Message::Discovered("c".into(), vec![calendar("/9", "")]));
    assert_eq!(p.calendar_config, before);
}

#[test]
fn tokens_are_refreshed_once() {
    let refresh = || {
        only(Task::Refresh {
            source_id: "b".into(),
            issuer_url: "https://id".into(),
            client_id: "client".into(),
            needs_secret: false,
        })
    };
    let failed = || Message::DiscoverError("b".into(), "Authentication expired for b".into());
    let mut p = page(three_sources());
    assert_eq!(send(&mut p, failed()), refresh());
    assert_eq!(p.discovery_error, None);
    assert_eq!(send(&mut p, failed()), nothing());
    assert_eq!(
        p.discovery_error,
        Some(Text::Plain("Authentication expired for b".into()))
    );
    send(&mut p, Message::Discovered("b".into(), Vec::new()));
    assert_eq!(send(&mut p, failed()), refresh());
    send(&mut p, Message::OidcResult(Ok(("b".into(), "at".into(), None))));
    assert_eq!(send(&mut p, failed()), refresh());
    assert_eq!(send(&mut p, Message::OidcRefresh("b".into())), refresh());
}

#[test]
fn other_errors_are_shown() {
    let mut p = page(three_sources());
    for (id, error) in [("b", "offline"), ("a", "expired"), ("c", "expired"), ("x", "expired")] {
        assert_eq!(send(&mut p, Message::DiscoverError(id.into(), error.into())), nothing());
        assert_eq!(p.discovery_error, Some(Text::Plain(error.into())));
    }
    assert_eq!(send(&mut p, Message::OidcRefresh("a".into())), nothing());
}

#[test]
fn calendars_are_toggled() {
    let mut p = page(three_sources());
    assert_eq!(
        send(&mut p, Message::ToggleCalendar("b".into(), "/2".into())),
        saving(Task::Idle)
    );
    match &p.calendar_config.sources[1].source_type {
        SourceType::CalDav { calendars, .. } => {
            assert!(calendars[0].enabled && !calendars[1].enabled);
        }
        _ => panic!("another type"),
    }
    send(&mut p, Message::ToggleCalendar("b".into(), "/2".into()));
    assert_eq!(p.calendar_config.sources, three_sources());
    for (id, href) in [("b", "/9"), ("c", "/1"), ("x", "/1")] {
        assert_eq!(
            send(&mut p, Message::ToggleCalendar(id.into(), href.into())),
            saving(Task::Idle)
        );
        assert_eq!(p.calendar_config.sources, three_sources());
    }
}

fn colors(p: &Page, source: usize) -> Vec<String> {
    match &p.calendar_config.sources[source].source_type {
        SourceType::CalDav { calendars, .. } => calendars.iter().map(|c| c.color.clone()).collect(),
        _ => Vec::new(),
    }
}

#[test]
fn colors_of_calendars() {
    let mut p = page(three_sources());
    for (id, href, expected) in [
        ("b", "/1", "#020202"),
        ("b", "/2", ""),
        ("b", "/9", "#111111"),
        ("c", "/1", "#1a73e8"),
        ("x", "/1", "#1a73e8"),
    ] {
        assert_eq!(send(&mut p, Message::EditCalendarColor(id.into(), href.into())), nothing());
        assert_eq!(p.calendar_color_input, expected);
    }
    send(&mut p, Message::EditCalendarColor("b".into(), "/2".into()));
    assert_eq!(
        send(&mut p, Message::CalendarColorPreset("#d50000".into())),
        saving(Task::Idle)
    );
    assert_eq!(colors(&p, 1), vec!["#020202", "#d50000"]);
    send(&mut p, Message::CalendarColorInput("#aaaaaa".into()));
    assert_eq!(send(&mut p, Message::SaveCalendarColor), saving(Task::Idle));
    assert_eq!(colors(&p, 1), vec!["#020202", "#aaaaaa"]);
    assert_eq!(colors(&p, 0), vec!["#010101"]);
    assert_eq!(p.editing_calendar_color, None);
    assert_eq!(send(&mut p, Message::SaveCalendarColor), nothing());
    assert_eq!(send(&mut p, Message::CalendarColorPreset("#000000".into())), nothing());
    assert_eq!(p.calendar_color_input, "#000000");
    assert_eq!(colors(&p, 1), vec!["#020202", "#aaaaaa"]);
    send(&mut p, Message::EditCalendarColor("b".into(), "/1".into()));
    assert_eq!(send(&mut p, Message::CancelCalendarColor), nothing());
    assert_eq!(p.editing_calendar_color, None);
}

#[test]
fn sign_in_for_a_source() {
    let mut p = page(vec![source("s", SourceType::IcsUrl {
        url: "https://ics".into(),
        auth: oidc(false, true),
    })]);
    assert_eq!(
        send(&mut p, Message::OidcLogin("s".into())),
        only(Task::Login {
            source_id: "s".into(),
            issuer_url: "https://id".into(),
            client_id: "client".into(),
            needs_secret: true,
            scopes: vec!["openid".into(), "email".into()],
        })
    );
    assert_eq!(send(&mut p, Message::OidcLogin("x".into())), nothing());
    assert_eq!(send(&mut p, Message::OidcResult(Err("why".into()))), nothing());
    p.discovery_error = Some(Text::Plain("old".into()));
    assert_eq!(
        send(&mut p, Message::OidcResult(Ok(("s".into(), "at".into(), Some("rt".into()))))),
        saving(keyring(
            vec![
                write("s", SecretKind::OidcAccessToken, "at"),
                write("s", SecretKind::OidcRefreshToken, "rt")
            ],
            Message::Discover("s".into())
        ))
    );
    assert_eq!(p.discovery_error, None);
    assert_eq!(
        p.calendar_config.sources[0].source_type,
        SourceType::IcsUrl { url: "https://ics".into(), auth: oidc(true, true) }
    );
}

#[test]
fn refreshed_tokens_are_stored() {
    let mut p = page(three_sources());
    p.discovery_error = Some(Text::Plain("old".into()));
    assert_eq!(
        send(&mut p, Message::OidcRefreshResult(Ok(("b".into(), "at".into(), None)))),
        only(keyring(
            vec![write("b", SecretKind::OidcAccessToken, "at")],
            Message::Discover("b".into())
        ))
    );
    assert_eq!(p.discovery_error, None);
}

#[test]
fn failed_refresh_asks_to_sign_in() {
    let mut p = page(three_sources());
    let report = |s: &str| Message::OidcRefreshResult(Err(s.to_string()));
    assert_eq!(
        send(&mut p, report(" b : server said: no")),
        only(Task::Login {
            source_id: "b".into(),
            issuer_url: "https://id".into(),
            client_id: "client".into(),
            needs_secret: false,
            scopes: vec!["openid".into(), "email".into()],
        })
    );
    assert_eq!(p.discovery_error, Some(Text::Label(Label::AuthExpiredReauth)));
    assert_eq!(send(&mut p, report(" : why")), nothing());
    assert_eq!(p.discovery_error, Some(Text::Plain(" : why".into())));
}

#[test]
fn missing_refresh_token_asks_for_no_source() {
    for id in ["b", "", ": b"] {
        let mut p = page(three_sources());
        let sources = p.calendar_config.clone();
        let report = format!("No refresh token stored for {id}");
        assert_eq!(send(&mut p, Message::OidcRefreshResult(Err(report))), nothing());
        assert_eq!(p.discovery_error, Some(Text::Label(Label::AuthExpiredReauth)));
        assert_eq!(p.calendar_config, sources);
    }
}

#[test]
fn sync_settings() {
    let mut p = page(Vec::new());
    assert_eq!(send(&mut p, Message::SyncInterval(60)), saving(Task::Idle));
    assert_eq!(send(&mut p, Message::UpcomingCount(9)), saving(Task::Idle));
    assert_eq!(p.calendar_config.sync_interval_minutes, 60);
    assert_eq!(p.calendar_config.upcoming_count, 9);
}

#[test]
fn another_encryption_mode_drops_the_cache() {
    let mut p = page(Vec::new());
    let changed = || Outcome {
        save_config: true,
        clear_cache: true,
        forget_secrets: None,
        task: Task::Idle,
    };
    assert_eq!(send(&mut p, Message::EncryptionModeChanged(1)), nothing());
    assert_eq!(send(&mut p, Message::EncryptionModeChanged(0)), changed());
    assert_eq!(p.calendar_config.encryption_mode, EncryptionMode::Off);
    assert_eq!(send(&mut p, Message::EncryptionModeChanged(8)), changed());
    assert_eq!(p.calendar_config.encryption_mode, EncryptionMode::Manual);
    assert_eq!(send(&mut p, Message::EncryptionModeChanged(2)), nothing());
    assert_eq!(send(&mut p, Message::EncryptionModeChanged(1)), changed());
    assert_eq!(p.calendar_config.encryption_mode, EncryptionMode::Auto);
}

#[test]
fn reloading_takes_what_is_stored() {
    let mut p = page(three_sources());
    let mut f = facts();
    f.stored_config = Some(p.calendar_config.clone());
    assert_eq!(p.update(Message::ConfigReload, f), nothing());
    assert_eq!(p.calendar_config.sources, three_sources());
    assert_eq!(send(&mut p, Message::ConfigReload), nothing());
    assert_eq!(p.calendar_config.sources, three_sources());
    let mut f = facts();
    f.stored_config = Some(page(Vec::new()).calendar_config);
    p.update(Message::ConfigReload, f);
    assert_eq!(p.calendar_config.sources, Vec::new());
}

#[test]
fn form_forgets_its_secrets() {
    for message in [
        Message::CancelForm,
        Message::AddSource,
        Message::SaveSource,
        Message::EditSource("a".into()),
    ] {
        let mut p = filled(0, 1);
        p.calendar_config.sources = three_sources();
        p.form_oidc_client_secret = "cs".into();
        send(&mut p, message);
        assert_eq!(p.form_password, "");
        assert_eq!(p.form_token, "");
        assert_eq!(p.form_oidc_client_secret, "");
    }
}

#[test]
fn other_events_keep_the_list_of_sources() {
    let mut p = page(three_sources());
    for message in [
        Message::ToggleSource("a".into()),
        Message::EditSource("b".into()),
        Message::FormName("renamed".into()),
        Message::SaveEditSource,
        Message::Discovered("b".into(), vec![calendar("/9", "")]),
        Message::ToggleCalendar("b".into(), "/9".into()),
        Message::EditCalendarColor("b".into(), "/9".into()),
        Message::CalendarColorPreset("#616161".into()),
        Message::SaveCalendarColor,
        Message::OidcResult(Ok(("b".into(), "at".into(), None))),
        Message::SyncInterval(1),
    ] {
        send(&mut p, message);
        assert_eq!(ids(&p), vec!["a", "b", "c"]);
    }
}

#[test]
fn ids_stay_apart() {
    let mut p = filled(0, 3);
    p.calendar_config.sources = three_sources();
    send(&mut p, Message::FormOidcLoginResult(Ok(("at".into(), None))));
    assert_eq!(ids(&p), vec!["a", "b", "c", "form-1"]);
    send(&mut p, Message::AddSource);
    send(&mut p, Message::FormName("n".into()));
    send(&mut p, Message::FormUrl("https://n".into()));
    send(&mut p, Message::SaveSource);
    assert_eq!(ids(&p), vec!["a", "b", "c", "form-1", "fresh"]);
    send(&mut p, Message::RemoveSource("b".into()));
    assert_eq!(ids(&p), vec!["a", "c", "form-1", "fresh"]);
}
