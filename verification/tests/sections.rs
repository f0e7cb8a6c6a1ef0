//! What the page shows.

use calendar_settings::config::{
    AuthMethod, CalDavCalendar, CalendarConfig, EncryptionMode, SourceConfig, SourceType,
};
use calendar_settings::form::source_form_section;
use calendar_settings::labels::{Label, Text};
use calendar_settings::message::Message;
use calendar_settings::page::Page;
use calendar_settings::sections::{sources_section, sync_settings_section};
use calendar_settings::widgets::{ButtonStyle, Icon, Item, Section, TextField, Widget};

fn page(sources: Vec<SourceConfig>) -> Page {
    Page::default(
        CalendarConfig {
            sources,
            sync_interval_minutes: 15,
            upcoming_count: 5,
            encryption_mode: EncryptionMode::Auto,
        },
        1,
    )
}

fn calendar(href: &str, color: &str) -> CalDavCalendar {
    CalDavCalendar {
        href: href.into(),
        display_name: format!("Calendar {href}"),
        color: color.into(),
        enabled: true,
    }
}

fn source(id: &str, source_type: SourceType) -> SourceConfig {
    SourceConfig {
        id: id.into(),
        name: format!("Source {id}"),
        color: "#111111".into(),
        enabled: false,
        ca_cert_path: None,
        source_type,
    }
}

fn oidc(has_token: bool) -> AuthMethod {
    AuthMethod::Oidc {
        issuer_url: "https://id".into(),
        client_id: "client".into(),
        has_token,
        has_client_secret: false,
        scopes: Vec::new(),
    }
}

fn caldav(auth: AuthMethod, calendars: Vec<CalDavCalendar>) -> SourceType {
    SourceType::CalDav { url: "https://dav".into(), auth, calendars }
}

fn widgets(item: &Item) -> Vec<&Widget> {
    item.rows.iter().flat_map(|row| row.widgets.iter()).collect()
}

fn titles(section: &Section) -> Vec<Text> {
    section.items.iter().map(|item| item.title.clone()).collect()
}

fn label(l: Label) -> Text {
    Text::Label(l)
}

fn plain(s: &str) -> Text {
    Text::Plain(s.into())
}

fn button(style: ButtonStyle, label: Label, on_press: Option<Message>) -> Widget {
    Widget::Button { style, label, on_press }
}

fn last_buttons(section: &Section) -> Vec<&Widget> {
    widgets(section.items.last().unwrap())
}

#[test]
fn form_and_list_take_turns() {
    let mut p = page(Vec::new());
    assert!(sources_section(&p).is_some());
    assert!(sync_settings_section(&p).is_some());
    assert!(source_form_section(&p, false).is_none());
    p.editing = true;
    assert!(sources_section(&p).is_none());
    assert!(sync_settings_section(&p).is_none());
    assert!(source_form_section(&p, false).is_some());
}

#[test]
fn list_without_sources() {
    let mut p = page(Vec::new());
    p.discovery_error = Some(plain("why"));
    let section = sources_section(&p).unwrap();
    assert_eq!(section.title, Label::Sources);
    assert_eq!(titles(&section), vec![label(Label::NoSources), label(Label::DiscoverError)]);
    assert_eq!(
        widgets(&section.items[0]),
        vec![&button(ButtonStyle::Standard, Label::AddSource, Some(Message::AddSource))]
    );
    assert_eq!(section.items[1].description, Some(plain("why")));
    assert_eq!(widgets(&section.items[1]), vec![&Widget::Space]);
}

#[test]
fn source_without_calendars_of_its_own() {
    let p = page(vec![source("f", SourceType::IcsFile { path: "/f".into() })]);
    let section = sources_section(&p).unwrap();
    assert_eq!(titles(&section), vec![plain("Source f"), plain("")]);
    assert_eq!(section.items[0].description, Some(label(Label::TypeIcsFile)));
    assert_eq!(
        widgets(&section.items[0]),
        vec![
            &Widget::Swatch { size: 12, color: "#111111".into() },
            &Widget::Toggler { is_on: false, on_toggle: Message::ToggleSource("f".into()) },
            &Widget::IconButton { icon: Icon::Edit, on_press: Message::EditSource("f".into()) },
            &Widget::IconButton { icon: Icon::Remove, on_press: Message::RemoveSource("f".into()) },
        ]
    );
    assert_eq!(section.items[0].rows[0].spacing, 8);
}

#[test]
fn source_that_is_new() {
    let mut p = page(vec![source("d", caldav(oidc(false), Vec::new()))]);
    let section = sources_section(&p).unwrap();
    assert_eq!(titles(&section), vec![plain("Source d"), plain(""), plain(""), plain("")]);
    assert_eq!(section.items[0].description, Some(label(Label::TypeCalDav)));
    assert_eq!(
        widgets(&section.items[0])[..2],
        [
            &Widget::IconButton { icon: Icon::SignIn, on_press: Message::OidcLogin("d".into()) },
            &Widget::IconButton { icon: Icon::Discover, on_press: Message::Discover("d".into()) },
        ]
    );
    assert_eq!(
        widgets(&section.items[1]),
        vec![&button(
            ButtonStyle::Standard,
            Label::Discover,
            Some(Message::Discover("d".into()))
        )]
    );
    assert_eq!(
        widgets(&section.items[2]),
        vec![&button(
            ButtonStyle::Suggested,
            Label::OidcLogin,
            Some(Message::OidcLogin("d".into()))
        )]
    );
    p.discovering_source = Some("d".into());
    let section = sources_section(&p).unwrap();
    assert_eq!(
        widgets(&section.items[1]),
        vec![&button(ButtonStyle::Standard, Label::Discovering, None)]
    );
}

#[test]
fn calendars_of_a_source() {
    let mut p = page(vec![source(
        "d",
        caldav(oidc(true), vec![calendar("/1", ""), calendar("/2", "#222222")]),
    )]);
    p.editing_calendar_color = Some(("d".into(), "/2".into()));
    p.calendar_color_input = "#D50000".into();
    let section = sources_section(&p).unwrap();
    assert_eq!(
        titles(&section),
        vec![
            plain("Source d"),
            plain("    Calendar /1"),
            plain("    Calendar /2"),
            plain(""),
            plain(""),
            plain("")
        ]
    );
    assert_eq!(
        widgets(&section.items[1]),
        vec![
            &Widget::Swatch { size: 10, color: "#111111".into() },
            &Widget::Toggler {
                is_on: true,
                on_toggle: Message::ToggleCalendar("d".into(), "/1".into())
            },
            &Widget::IconButton {
                icon: Icon::Color,
                on_press: Message::EditCalendarColor("d".into(), "/1".into())
            },
        ]
    );
    assert_eq!(
        widgets(&section.items[2])[0],
        &Widget::Swatch { size: 10, color: "#222222".into() }
    );
    let editor = &section.items[3];
    assert_eq!(editor.rows[0].spacing, 4);
    assert_eq!(editor.rows[0].widgets.len(), 12);
    // Capital letters make another color here.
    assert_eq!(
        editor.rows[0].widgets[1],
        Widget::ColorButton {
            style: ButtonStyle::Standard,
            color: "#d50000",
            on_press: Message::CalendarColorPreset("#d50000".into())
        }
    );
    assert_eq!(
        editor.rows[1].widgets,
        vec![
            Widget::Input {
                field: TextField::CalendarColor,
                placeholder: Label::SourceColor,
                value: "#D50000".into(),
                secret: false,
                width: 100
            },
            button(ButtonStyle::Standard, Label::Save, Some(Message::SaveCalendarColor)),
            button(ButtonStyle::Standard, Label::Cancel, Some(Message::CancelCalendarColor)),
        ]
    );
    p.calendar_color_input = "#d50000".into();
    let section = sources_section(&p).unwrap();
    match &section.items[3].rows[0].widgets[1] {
        Widget::ColorButton { style, .. } => assert_eq!(*style, ButtonStyle::Suggested),
        _ => panic!("no color"),
    }
}

#[test]
fn settings() {
    let section = sync_settings_section(&page(Vec::new())).unwrap();
    assert_eq!(section.title, Label::SyncSettings);
    assert_eq!(
        titles(&section),
        vec![
            label(Label::SyncInterval),
            label(Label::UpcomingCount),
            label(Label::EncryptionMode)
        ]
    );
    assert_eq!(
        widgets(&section.items[0]),
        vec![&Widget::IntervalSpin {
            name: "sync interval",
            label: "15".into(),
            value: 15,
            step: 1,
            min: 1,
            max: 1440
        }]
    );
    assert_eq!(
        widgets(&section.items[1]),
        vec![&Widget::CountSpin {
            name: "upcoming count",
            label: "5".into(),
            value: 5,
            step: 1,
            min: 1,
            max: 50
        }]
    );
    let mode = |style, l, n| button(style, l, Some(Message::EncryptionModeChanged(n)));
    assert_eq!(
        widgets(&section.items[2]),
        vec![
            &mode(ButtonStyle::Standard, Label::EncryptionNone, 0),
            &mode(ButtonStyle::Suggested, Label::EncryptionAuto, 1),
            &mode(ButtonStyle::Standard, Label::EncryptionManual, 2),
        ]
    );
}

fn form(p: &Page, path_exists: bool) -> Section {
    source_form_section(p, path_exists).unwrap()
}

fn open_form() -> Page {
    let mut p = page(Vec::new());
    p.editing = true;
    p.form_name = "N".into();
    p.form_url = "https://n".into();
    p
}

#[test]
fn form_for_a_new_source() {
    let p = open_form();
    let section = form(&p, false);
    assert_eq!(section.title, Label::AddSource);
    assert_eq!(
        titles(&section),
        vec![
            label(Label::SourceName),
            label(Label::SourceType),
            label(Label::SourceUrl),
            label(Label::Auth),
            label(Label::CaCert),
            plain("")
        ]
    );
    assert_eq!(
        widgets(&section.items[0]),
        vec![&Widget::Input {
            field: TextField::Name,
            placeholder: Label::SourceName,
            value: "N".into(),
            secret: false,
            width: 300
        }]
    );
    assert_eq!(
        widgets(&section.items[1]),
        vec![
            &button(ButtonStyle::Suggested, Label::TypeCalDav, Some(Message::FormSourceType(0))),
            &button(ButtonStyle::Standard, Label::TypeIcsUrl, Some(Message::FormSourceType(1))),
            &button(ButtonStyle::Standard, Label::TypeIcsFile, Some(Message::FormSourceType(2))),
        ]
    );
    assert_eq!(
        widgets(&section.items[3]),
        vec![
            &button(ButtonStyle::Suggested, Label::AuthNone, Some(Message::FormAuth(0))),
            &button(ButtonStyle::Standard, Label::AuthBasic, Some(Message::FormAuth(1))),
            &button(ButtonStyle::Standard, Label::AuthBearer, Some(Message::FormAuth(2))),
            &button(ButtonStyle::Standard, Label::AuthOidc, Some(Message::FormAuth(3))),
        ]
    );
    assert_eq!(
        widgets(&section.items[4]),
        vec![
            &Widget::Input {
                field: TextField::CaCertPath,
                placeholder: Label::CaCert,
                value: String::new(),
                secret: false,
                width: 350
            },
            &button(ButtonStyle::Standard, Label::Browse, Some(Message::BrowseCaCert)),
        ]
    );
    assert_eq!(
        last_buttons(&section),
        vec![
            &button(ButtonStyle::Suggested, Label::Discover, Some(Message::FormDiscover)),
            &button(ButtonStyle::Standard, Label::Cancel, Some(Message::CancelForm)),
        ]
    );
}

#[test]
fn complaints_of_the_form() {
    let mut p = open_form();
    let complaints = |p: &Page, exists: bool| -> Vec<Text> {
        titles(&form(p, exists))
            .into_iter()
            .filter(|t| {
                matches!(
                    t,
                    Text::Label(Label::NameRequired)
                        | Text::Label(Label::UrlInvalid)
                        | Text::Label(Label::FileNotFound)
                )
            })
            .collect()
    };
    assert_eq!(complaints(&p, false), Vec::new());
    p.form_name = "  ".into();
    p.form_url = "nowhere".into();
    assert_eq!(complaints(&p, false), vec![label(Label::NameRequired), label(Label::UrlInvalid)]);
    p.form_name = String::new();
    p.form_source_type = 2;
    assert_eq!(complaints(&p, false), vec![label(Label::FileNotFound)]);
    assert_eq!(complaints(&p, true), Vec::new());
    p.form_source_type = 3;
    assert_eq!(complaints(&p, false), Vec::new());
    p.form_source_type = 0;
    p.form_url = String::new();
    assert_eq!(complaints(&p, false), Vec::new());
}

#[test]
fn fields_of_each_way_to_sign_in() {
    let mut p = open_form();
    p.form_source_type = 1;
    let fields = |p: &Page| -> Vec<(TextField, bool, u16)> {
        let section = form(p, false);
        section
            .items
            .iter()
            .flat_map(|item| widgets(item))
            .filter_map(|widget| match widget {
                Widget::Input { field, secret, width, .. } => Some((*field, *secret, *width)),
                _ => None,
            })
            .collect()
    };
    let around = |inner: Vec<(TextField, bool, u16)>| {
        let mut all = vec![(TextField::Name, false, 300), (TextField::Url, false, 400)];
        all.extend(inner);
        all.extend([(TextField::CaCertPath, false, 350), (TextField::Color, false, 120)]);
        all
    };
    assert_eq!(fields(&p), around(Vec::new()));
    p.form_auth_method = 1;
    assert_eq!(
        fields(&p),
        around(vec![(TextField::Username, false, 300), (TextField::Password, true, 300)])
    );
    p.form_auth_method = 2;
    assert_eq!(fields(&p), around(vec![(TextField::Token, true, 300)]));
    p.form_auth_method = 3;
    assert_eq!(
        fields(&p),
        around(vec![
            (TextField::OidcIssuer, false, 400),
            (TextField::OidcClientId, false, 300),
            (TextField::OidcClientSecret, true, 300),
            (TextField::OidcScopes, false, 300)
        ])
    );
    let section = form(&p, false);
    assert!(section.items.iter().any(|item| item.title == label(Label::OidcCallbackUrl)
        && widgets(item) == vec![&Widget::Body(label(Label::OidcCallbackPattern))]));
    p.form_source_type = 2;
    assert_eq!(
        fields(&p),
        vec![
            (TextField::Name, false, 300),
            (TextField::Url, false, 400),
            (TextField::Color, false, 120)
        ]
    );
}

#[test]
fn color_of_a_source_ignores_case() {
    let mut p = open_form();
    p.form_source_type = 1;
    p.form_color = "#D50000".into();
    let section = form(&p, false);
    let item = section.items.iter().find(|i| i.title == label(Label::SourceColor)).unwrap();
    let chosen: Vec<&Widget> = item.rows[0]
        .widgets
        .iter()
        .filter(|w| matches!(w, Widget::ColorButton { style: ButtonStyle::Suggested, .. }))
        .collect();
    assert_eq!(
        chosen,
        vec![&Widget::ColorButton {
            style: ButtonStyle::Suggested,
            color: "#d50000",
            on_press: Message::FormColor("#d50000".into())
        }]
    );
}

#[test]
fn form_signs_in_before_it_discovers() {
    let mut p = open_form();
    p.form_auth_method = 3;
    p.form_discovery_error = Some(plain("why"));
    let section = form(&p, false);
    let error = &section.items[section.items.len() - 2];
    assert_eq!(widgets(error), vec![&Widget::FramedBody(plain("why"))]);
    assert_eq!(
        last_buttons(&section)[0],
        &button(ButtonStyle::Suggested, Label::OidcLogin, Some(Message::FormOidcLogin))
    );
    p.form_name = String::new();
    assert_eq!(
        last_buttons(&form(&p, false))[0],
        &button(ButtonStyle::Suggested, Label::OidcLogin, None)
    );
    p.form_oidc_logged_in = true;
    assert_eq!(
        last_buttons(&form(&p, false))[0],
        &button(ButtonStyle::Suggested, Label::Discover, None)
    );
    p.form_name = "N".into();
    p.form_discovering = true;
    assert_eq!(
        last_buttons(&form(&p, false))[0],
        &button(ButtonStyle::Suggested, Label::Discovering, None)
    );
}

#[test]
fn discovered_calendars_in_the_form() {
    let mut p = open_form();
    p.form_discovered_calendars = vec![calendar("/1", ""), calendar("/2", "#222222")];
    p.form_discovered_calendars[0].enabled = false;
    p.form_editing_cal_color = Some(1);
    p.form_cal_color_input = "#222222".into();
    let section = form(&p, false);
    let n = section.items.len();
    assert_eq!(
        titles(&section)[n - 4..],
        [plain("Calendar /1"), plain("Calendar /2"), plain(""), plain("")]
    );
    assert_eq!(
        widgets(&section.items[n - 4]),
        vec![
            &Widget::Swatch { size: 10, color: "#1a73e8".into() },
            &Widget::Toggler { is_on: false, on_toggle: Message::FormToggleCalendar(0) },
            &Widget::IconButton { icon: Icon::Color, on_press: Message::FormCalendarColor(0) },
        ]
    );
    assert_eq!(
        section.items[n - 2].rows[1].widgets[0],
        Widget::Input {
            field: TextField::DiscoveredColor,
            placeholder: Label::SourceColor,
            value: "#222222".into(),
            secret: false,
            width: 100
        }
    );
    assert_eq!(
        last_buttons(&section),
        vec![
            &button(ButtonStyle::Suggested, Label::Save, Some(Message::SaveSource)),
            &button(ButtonStyle::Standard, Label::Discover, Some(Message::FormDiscover)),
            &button(ButtonStyle::Standard, Label::Cancel, Some(Message::CancelForm)),
        ]
    );
    p.form_discovered_calendars[1].enabled = false;
    p.form_discovering = true;
    assert_eq!(
        last_buttons(&form(&p, false))[..2],
        [
            &button(ButtonStyle::Suggested, Label::Save, None),
            &button(ButtonStyle::Standard, Label::Discover, None)
        ]
    );
}

#[test]
fn form_for_a_saved_source() {
    let mut p = page(vec![source("d", caldav(AuthMethod::Bearer, vec![calendar("/1", "")]))]);
    p.editing = true;
    p.editing_source_id = Some("d".into());
    p.form_name = "N".into();
    p.form_url = "https://n".into();
    let section = form(&p, false);
    assert_eq!(section.title, Label::EditSource);
    let n = section.items.len();
    assert_eq!(
        titles(&section)[n - 3..],
        [label(Label::Sources), plain("Calendar /1"), plain("")]
    );
    assert_eq!(
        last_buttons(&section),
        vec![
            &button(ButtonStyle::Suggested, Label::Save, Some(Message::SaveEditSource)),
            &button(ButtonStyle::Standard, Label::Discover, Some(Message::Discover("d".into()))),
            &button(ButtonStyle::Standard, Label::Cancel, Some(Message::CancelForm)),
        ]
    );
    p.discovering_source = Some("d".into());
    assert_eq!(
        last_buttons(&form(&p, false))[1],
        &button(ButtonStyle::Standard, Label::Discovering, None)
    );
    p.discovering_source = None;
    p.form_name = String::new();
    assert_eq!(
        last_buttons(&form(&p, false))[..2],
        [
            &button(ButtonStyle::Suggested, Label::Save, None),
            &button(ButtonStyle::Standard, Label::Discover, None)
        ]
    );
}

#[test]
fn form_for_other_sources() {
    let mut p = open_form();
    p.form_source_type = 2;
    assert_eq!(
        last_buttons(&form(&p, true)),
        vec![
            &button(ButtonStyle::Suggested, Label::Save, Some(Message::SaveSource)),
            &button(ButtonStyle::Standard, Label::Cancel, Some(Message::CancelForm)),
        ]
    );
    assert_eq!(
        last_buttons(&form(&p, false))[0],
        &button(ButtonStyle::Suggested, Label::Save, None)
    );
    p.editing_source_id = Some("x".into());
    assert_eq!(
        last_buttons(&form(&p, true))[0],
        &button(ButtonStyle::Suggested, Label::Save, Some(Message::SaveEditSource))
    );
    p.form_source_type = 0;
    let section = form(&p, false);
    assert_eq!(section.items.last().unwrap().title, plain(""));
    assert_eq!(last_buttons(&section).len(), 3);
}

#[test]
fn fields_report_what_is_written() {
    let v = || "v".to_string();
    for (field, message) in [
        (TextField::Name, Message::FormName(v())),
        (TextField::Url, Message::FormUrl(v())),
        (TextField::Username, Message::FormUsername(v())),
        (TextField::Password, Message::FormPassword(v())),
        (TextField::Token, Message::FormToken(v())),
        (TextField::OidcIssuer, Message::FormOidcIssuer(v())),
        (TextField::OidcClientId, Message::FormOidcClientId(v())),
        (TextField::OidcClientSecret, Message::FormOidcClientSecret(v())),
        (TextField::OidcScopes, Message::FormOidcScopes(v())),
        (TextField::CaCertPath, Message::FormCaCertPath(v())),
        (TextField::Color, Message::FormColor(v())),
        (TextField::DiscoveredColor, Message::FormCalColorInput(v())),
        (TextField::CalendarColor, Message::CalendarColorInput(v())),
    ] {
        assert_eq!(field.message(v()), message);
    }
}

#[test]
fn names_of_icons_and_labels() {
    assert_eq!(Icon::SignIn.name(), "system-lock-screen-symbolic");
    assert_eq!(Icon::Discover.name(), "view-refresh-symbolic");
    assert_eq!(Icon::Edit.name(), "edit-symbolic");
    assert_eq!(Icon::Remove.name(), "edit-delete-symbolic");
    assert_eq!(Icon::Color.name(), "preferences-color-symbolic");
    assert_eq!(Label::OidcLoginFirst.key(), "calendar-form-oidc-login-first");
    assert_eq!(Label::AuthExpiredReauth.key(), "calendar-auth-expired-reauth");
    assert_eq!(Label::NoSources.key(), "calendar-no-sources");
}
