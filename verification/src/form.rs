//! The form in which a source is added or edited, as the page shows it.

use vstd::prelude::*;

use crate::config;
use crate::config::{CalDavCalendar, SourceType};
use crate::labels;
use crate::labels::{Label, Text};
use crate::message;
use crate::message::Message;
use crate::page;
use crate::page::{Page, DEFAULT_COLOR};
use crate::sections;
use crate::sections::ColorTarget;
use crate::text;
use crate::update;
use crate::widgets;
use crate::widgets::{ButtonStyle, Icon, Item, Row, Section, TextField, Widget, WIDE, NARROW};

verus! {

// ── What is shown ────────────────────────────────────────────────────────

/// A field of the form.
pub open spec fn field(
    field: TextField,
    placeholder: Label,
    value: Seq<char>,
    secret: bool,
    width: u16,
) -> widgets::WidgetView {
    widgets::WidgetView::Input { field, placeholder, value, secret, width }
}

/// A line with a field of the form.
pub open spec fn field_line(
    title: Label,
    field: TextField,
    placeholder: Label,
    value: Seq<char>,
    secret: bool,
    width: u16,
) -> widgets::ItemView {
    widgets::control_item(
        labels::TextView::Label(title),
        self::field(field, placeholder, value, secret, width),
    )
}

/// A line with a text alone.
pub open spec fn note_line(label: Label) -> widgets::ItemView {
    widgets::control_item(labels::TextView::Label(label), widgets::WidgetView::Space)
}

/// A button that can always be pressed.
pub open spec fn live_button(
    style: ButtonStyle,
    label: Label,
    on_press: message::MessageView,
) -> widgets::WidgetView {
    widgets::WidgetView::Button { style, label, on_press: Some(on_press) }
}

/// A button that can be pressed only if `live`.
pub open spec fn guarded_button(
    style: ButtonStyle,
    label: Label,
    live: bool,
    on_press: message::MessageView,
) -> widgets::WidgetView {
    widgets::WidgetView::Button {
        style,
        label,
        on_press: if live {
            Some(on_press)
        } else {
            None
        },
    }
}

/// The button that closes the form.
pub open spec fn cancel_button() -> widgets::WidgetView {
    live_button(ButtonStyle::Standard, Label::Cancel, message::MessageView::CancelForm)
}

/// A line with buttons.
pub open spec fn button_line(buttons: Seq<widgets::WidgetView>) -> widgets::ItemView {
    widgets::row_item(widgets::no_title(), WIDE, buttons)
}

/// The button of a type of source.
pub open spec fn type_button(current: usize, number: usize, label: Label) -> widgets::WidgetView {
    live_button(
        sections::choice_style(number == current),
        label,
        message::MessageView::FormSourceType(number),
    )
}

/// The button of a way to prove who one is.
pub open spec fn auth_button(current: usize, number: usize, label: Label) -> widgets::WidgetView {
    live_button(
        sections::choice_style(number == current),
        label,
        message::MessageView::FormAuth(number),
    )
}

/// What the address of a source of this type is called.
pub open spec fn url_label(source_type: usize) -> Label {
    if source_type == 2 {
        Label::SourcePath
    } else {
        Label::SourceUrl
    }
}

/// The lines with name, type and address.
pub open spec fn basic_lines(page: page::PageView) -> Seq<widgets::ItemView> {
    let kind = page.form_source_type;
    seq![
        field_line(
            Label::SourceName,
            TextField::Name,
            Label::SourceName,
            page.form_name,
            false,
            300,
        ),
        widgets::row_item(
            labels::TextView::Label(Label::SourceType),
            NARROW,
            seq![
                type_button(kind, 0, Label::TypeCalDav),
                type_button(kind, 1, Label::TypeIcsUrl),
                type_button(kind, 2, Label::TypeIcsFile),
            ],
        ),
        field_line(url_label(kind), TextField::Url, url_label(kind), page.form_url, false, 400),
    ]
}

/// What is wrong with the name and the address. Nothing is said of a field that is still empty.
pub open spec fn complaint_lines(page: page::PageView, path_exists: bool) -> Seq<
    widgets::ItemView,
> {
    let kind = page.form_source_type;
    let name = if page.form_name.len() > 0 && text::is_blank(page.form_name) {
        seq![note_line(Label::NameRequired)]
    } else {
        Seq::<widgets::ItemView>::empty()
    };
    let url = if page.form_url.len() > 0 && kind <= 2 && !page::url_valid(
        kind,
        page.form_url,
        path_exists,
    ) {
        seq![
            note_line(
                if kind == 2 {
                    Label::FileNotFound
                } else {
                    Label::UrlInvalid
                },
            ),
        ]
    } else {
        Seq::<widgets::ItemView>::empty()
    };
    name + url
}

/// The fields of the way to prove who one is.
pub open spec fn credential_lines(page: page::PageView) -> Seq<widgets::ItemView> {
    if page.form_auth_method == 1 {
        seq![
            field_line(
                Label::Username,
                TextField::Username,
                Label::Username,
                page.form_username,
                false,
                300,
            ),
            field_line(
                Label::Password,
                TextField::Password,
                Label::Password,
                page.form_password,
                true,
                300,
            ),
        ]
    } else if page.form_auth_method == 2 {
        seq![
            field_line(
                Label::Token,
                TextField::Token,
                Label::Token,
                page.form_token,
                true,
                300,
            ),
        ]
    } else if page.form_auth_method == 3 {
        seq![
            field_line(
                Label::OidcIssuer,
                TextField::OidcIssuer,
                Label::OidcIssuer,
                page.form_oidc_issuer,
                false,
                400,
            ),
            field_line(
                Label::OidcClientId,
                TextField::OidcClientId,
                Label::OidcClientId,
                page.form_oidc_client_id,
                false,
                300,
            ),
            field_line(
                Label::OidcClientSecret,
                TextField::OidcClientSecret,
                Label::OidcClientSecretHint,
                page.form_oidc_client_secret,
                true,
                300,
            ),
            field_line(
                Label::OidcScopes,
                TextField::OidcScopes,
                Label::OidcScopes,
                page.form_oidc_scopes,
                false,
                300,
            ),
            widgets::control_item(
                labels::TextView::Label(Label::OidcCallbackUrl),
                widgets::WidgetView::Body(labels::TextView::Label(Label::OidcCallbackPattern)),
            ),
        ]
    } else {
        Seq::empty()
    }
}

/// The lines on how a source proves who it is; a file needs none.
pub open spec fn auth_lines(page: page::PageView) -> Seq<widgets::ItemView> {
    let method = page.form_auth_method;
    let choice = widgets::row_item(
        labels::TextView::Label(Label::Auth),
        NARROW,
        seq![
            auth_button(method, 0, Label::AuthNone),
            auth_button(method, 1, Label::AuthBasic),
            auth_button(method, 2, Label::AuthBearer),
            auth_button(method, 3, Label::AuthOidc),
        ],
    );
    let certificate = widgets::row_item(
        labels::TextView::Label(Label::CaCert),
        WIDE,
        seq![
            field(TextField::CaCertPath, Label::CaCert, page.form_ca_cert_path, false, 350),
            live_button(
                ButtonStyle::Standard,
                Label::Browse,
                message::MessageView::BrowseCaCert,
            ),
        ],
    );
    if page.form_source_type == 0 || page.form_source_type == 1 {
        seq![choice] + credential_lines(page) + seq![certificate]
    } else {
        Seq::empty()
    }
}

/// The line with the color of a source. A source with calendars of its own has their colors.
pub open spec fn color_lines(page: page::PageView) -> Seq<widgets::ItemView> {
    if page.form_source_type != 0 {
        seq![
            widgets::ItemView {
                title: labels::TextView::Label(Label::SourceColor),
                description: None,
                rows: seq![
                    sections::preset_row(ColorTarget::Source, page.form_color),
                    widgets::RowView {
                        spacing: WIDE,
                        widgets: seq![
                            field(
                                TextField::Color,
                                Label::SourceColor,
                                page.form_color,
                                false,
                                120,
                            ),
                        ],
                    },
                ],
            },
        ]
    } else {
        Seq::empty()
    }
}

/// The lines of a calendar that was discovered: one more while its color is edited.
pub open spec fn discovered_lines(
    page: page::PageView,
    index: usize,
    calendar: config::CalDavCalendarView,
) -> Seq<widgets::ItemView> {
    let line = widgets::row_item(
        labels::TextView::Plain(calendar.display_name),
        WIDE,
        seq![
            widgets::WidgetView::Swatch {
                size: 10,
                color: sections::shown_color(calendar.color, DEFAULT_COLOR@),
            },
            widgets::WidgetView::Toggler {
                is_on: calendar.enabled,
                on_toggle: message::MessageView::FormToggleCalendar(index),
            },
            widgets::WidgetView::IconButton {
                icon: Icon::Color,
                on_press: message::MessageView::FormCalendarColor(index),
            },
        ],
    );
    if page.form_editing_cal_color == Some(index) {
        seq![
            line,
            sections::color_editor(
                ColorTarget::Discovered,
                TextField::DiscoveredColor,
                page.form_cal_color_input,
                message::MessageView::FormCalColorSave,
                message::MessageView::FormCalColorCancel,
            ),
        ]
    } else {
        seq![line]
    }
}

/// The lines of the calendars that were discovered.
pub open spec fn all_discovered_lines(
    page: page::PageView,
    calendars: Seq<config::CalDavCalendarView>,
) -> Seq<widgets::ItemView>
    decreases calendars.len(),
{
    if calendars.len() == 0 {
        Seq::empty()
    } else {
        all_discovered_lines(page, calendars.drop_last()) + discovered_lines(
            page,
            (calendars.len() - 1) as usize,
            calendars.last(),
        )
    }
}

/// Whether some calendar is on.
pub open spec fn some_enabled(calendars: Seq<config::CalDavCalendarView>) -> bool {
    exists|i: int| 0 <= i < calendars.len() && (#[trigger] calendars[i]).enabled
}

/// The end of the form while a source with calendars of its own is added. Its calendars are
/// discovered first, after a sign-in where that is needed; it can be saved once one of them is
/// on.
pub open spec fn adding_lines(page: page::PageView, path_exists: bool) -> Seq<widgets::ItemView> {
    let valid = page.form_valid(path_exists);
    let calendars = page.form_discovered_calendars;
    let error = match page.form_discovery_error {
        Some(error) => seq![
            widgets::control_item(widgets::no_title(), widgets::WidgetView::FramedBody(error)),
        ],
        None => Seq::<widgets::ItemView>::empty(),
    };
    let first = if page.form_auth_method == 3 && !page.form_oidc_logged_in {
        guarded_button(
            ButtonStyle::Suggested,
            Label::OidcLogin,
            valid,
            message::MessageView::FormOidcLogin,
        )
    } else {
        guarded_button(
            ButtonStyle::Suggested,
            sections::discover_label(page.form_discovering),
            valid && !page.form_discovering,
            message::MessageView::FormDiscover,
        )
    };
    if calendars.len() == 0 {
        error + seq![button_line(seq![first, cancel_button()])]
    } else {
        error + all_discovered_lines(page, calendars) + seq![
            button_line(
                seq![
                    guarded_button(
                        ButtonStyle::Suggested,
                        Label::Save,
                        some_enabled(calendars),
                        message::MessageView::SaveSource,
                    ),
                    guarded_button(
                        ButtonStyle::Standard,
                        Label::Discover,
                        !page.form_discovering,
                        message::MessageView::FormDiscover,
                    ),
                    cancel_button(),
                ],
            ),
        ]
    }
}

/// The end of the form while a source with calendars of its own is edited.
pub open spec fn editing_lines(
    page: page::PageView,
    id: Seq<char>,
    path_exists: bool,
) -> Seq<widgets::ItemView> {
    let valid = page.form_valid(path_exists);
    let discovering = page.discovering_source == Some(id);
    let calendars = match config::find_source(page.calendar_config.sources, id) {
        Some(source) => match source.source_type {
            config::SourceTypeView::CalDav { calendars, .. } => (if calendars.len() > 0 {
                seq![note_line(Label::Sources)]
            } else {
                Seq::<widgets::ItemView>::empty()
            }) + sections::all_calendar_lines(page, source, Seq::empty(), calendars),
            _ => Seq::empty(),
        },
        None => Seq::empty(),
    };
    calendars + seq![
        button_line(
            seq![
                guarded_button(
                    ButtonStyle::Suggested,
                    Label::Save,
                    valid,
                    message::MessageView::SaveEditSource,
                ),
                guarded_button(
                    ButtonStyle::Standard,
                    sections::discover_label(discovering),
                    !discovering && valid,
                    message::MessageView::Discover(id),
                ),
                cancel_button(),
            ],
        ),
    ]
}

/// The end of the form of any other source.
pub open spec fn plain_lines(page: page::PageView, path_exists: bool) -> Seq<widgets::ItemView> {
    seq![
        button_line(
            seq![
                guarded_button(
                    ButtonStyle::Suggested,
                    Label::Save,
                    page.form_valid(path_exists),
                    if page.editing_source_id is Some {
                        message::MessageView::SaveEditSource
                    } else {
                        message::MessageView::SaveSource
                    },
                ),
                cancel_button(),
            ],
        ),
    ]
}

/// The end of the form.
pub open spec fn closing_lines(page: page::PageView, path_exists: bool) -> Seq<widgets::ItemView> {
    if page.form_source_type != 0 {
        plain_lines(page, path_exists)
    } else {
        match page.editing_source_id {
            None => adding_lines(page, path_exists),
            Some(id) => editing_lines(page, id, path_exists),
        }
    }
}

/// The form, given whether the path in it names something that exists. It is shown only while it
/// is open.
pub open spec fn form_shown(page: page::PageView, path_exists: bool) -> Option<
    widgets::SectionView,
> {
    if page.editing {
        Some(
            widgets::SectionView {
                title: if page.editing_source_id is Some {
                    Label::EditSource
                } else {
                    Label::AddSource
                },
                items: basic_lines(page) + complaint_lines(page, path_exists) + auth_lines(page)
                    + color_lines(page) + closing_lines(page, path_exists),
            },
        )
    } else {
        None
    }
}

// ── The form itself ──────────────────────────────────────────────────────

/// A field of the form.
fn input(
    field: TextField,
    placeholder: Label,
    value: &String,
    secret: bool,
    width: u16,
) -> (r: Widget)
    ensures
        r.deep_view() == self::field(field, placeholder, value@, secret, width),
{
    Widget::Input { field, placeholder, value: value.clone(), secret, width }
}

/// A line with a field of the form.
fn input_item(
    title: Label,
    field: TextField,
    placeholder: Label,
    value: &String,
    secret: bool,
    width: u16,
) -> (r: Item)
    ensures
        r.deep_view() == field_line(title, field, placeholder, value@, secret, width),
{
    widgets::item_with(Text::Label(title), input(field, placeholder, value, secret, width))
}

/// A line with a text alone.
fn note_item(label: Label) -> (r: Item)
    ensures
        r.deep_view() == note_line(label),
{
    widgets::item_with(Text::Label(label), Widget::Space)
}

/// A button that can always be pressed.
fn button(style: ButtonStyle, label: Label, on_press: Message) -> (r: Widget)
    ensures
        r.deep_view() == live_button(style, label, on_press.deep_view()),
{
    widgets::button(style, label, Some(on_press))
}

/// A button that can be pressed only if `live`.
fn button_if(live: bool, style: ButtonStyle, label: Label, on_press: Message) -> (r: Widget)
    ensures
        r.deep_view() == guarded_button(style, label, live, on_press.deep_view()),
{
    let on_press = if live {
        Some(on_press)
    } else {
        None
    };
    widgets::button(style, label, on_press)
}

/// The button that closes the form.
fn cancel() -> (r: Widget)
    ensures
        r.deep_view() == cancel_button(),
{
    button(ButtonStyle::Standard, Label::Cancel, Message::CancelForm)
}

/// The button of a type of source.
fn choose_type(current: usize, number: usize, label: Label) -> (r: Widget)
    ensures
        r.deep_view() == type_button(current, number, label),
{
    button(sections::style_of(number == current), label, Message::FormSourceType(number))
}

/// The button of a way to prove who one is.
fn choose_auth(current: usize, number: usize, label: Label) -> (r: Widget)
    ensures
        r.deep_view() == auth_button(current, number, label),
{
    button(sections::style_of(number == current), label, Message::FormAuth(number))
}

/// The lines with name, type and address.
fn basic_items(page: &Page) -> (r: Vec<Item>)
    ensures
        r.deep_view() == basic_lines(page@),
{
    let kind = page.form_source_type;
    let types = vec![
        choose_type(kind, 0, Label::TypeCalDav),
        choose_type(kind, 1, Label::TypeIcsUrl),
        choose_type(kind, 2, Label::TypeIcsFile),
    ];
    assert(types.deep_view() =~= basic_lines(page@)[1].rows[0].widgets);
    let url = if kind == 2 {
        Label::SourcePath
    } else {
        Label::SourceUrl
    };
    let items = vec![
        input_item(
            Label::SourceName,
            TextField::Name,
            Label::SourceName,
            &page.form_name,
            false,
            300,
        ),
        widgets::item_of(Text::Label(Label::SourceType), NARROW, types),
        input_item(url, TextField::Url, url, &page.form_url, false, 400),
    ];
    assert(items.deep_view() =~= basic_lines(page@));
    items
}

/// Adds what is wrong with the name and the address.
fn add_complaints(items: &mut Vec<Item>, page: &Page, path_exists: bool)
    ensures
        final(items).deep_view() == old(items).deep_view() + complaint_lines(page@, path_exists),
{
    let ghost before = items.deep_view();
    let kind = page.form_source_type;
    if !page.form_name.as_str().is_empty() && text::blank(page.form_name.as_str()) {
        widgets::push_item(items, note_item(Label::NameRequired));
    }
    if !page.form_url.as_str().is_empty() && kind <= 2 && !page::form_url_valid(
        kind,
        page.form_url.as_str(),
        path_exists,
    ) {
        let complaint = if kind == 2 {
            Label::FileNotFound
        } else {
            Label::UrlInvalid
        };
        widgets::push_item(items, note_item(complaint));
    }
    assert(items.deep_view() =~= before + complaint_lines(page@, path_exists));
}

/// Adds the fields of the way to prove who one is.
fn add_credentials(items: &mut Vec<Item>, page: &Page)
    ensures
        final(items).deep_view() == old(items).deep_view() + credential_lines(page@),
{
    let ghost before = items.deep_view();
    match page.form_auth_method {
        1 => {
            widgets::push_item(
                items,
                input_item(
                    Label::Username,
                    TextField::Username,
                    Label::Username,
                    &page.form_username,
                    false,
                    300,
                ),
            );
            widgets::push_item(
                items,
                input_item(
                    Label::Password,
                    TextField::Password,
                    Label::Password,
                    &page.form_password,
                    true,
                    300,
                ),
            );
        },
        2 => {
            widgets::push_item(
                items,
                input_item(
                    Label::Token,
                    TextField::Token,
                    Label::Token,
                    &page.form_token,
                    true,
                    300,
                ),
            );
        },
        3 => {
            widgets::push_item(
                items,
                input_item(
                    Label::OidcIssuer,
                    TextField::OidcIssuer,
                    Label::OidcIssuer,
                    &page.form_oidc_issuer,
                    false,
                    400,
                ),
            );
            widgets::push_item(
                items,
                input_item(
                    Label::OidcClientId,
                    TextField::OidcClientId,
                    Label::OidcClientId,
                    &page.form_oidc_client_id,
                    false,
                    300,
                ),
            );
            widgets::push_item(
                items,
                input_item(
                    Label::OidcClientSecret,
                    TextField::OidcClientSecret,
                    Label::OidcClientSecretHint,
                    &page.form_oidc_client_secret,
                    true,
                    300,
                ),
            );
            widgets::push_item(
                items,
                input_item(
                    Label::OidcScopes,
                    TextField::OidcScopes,
                    Label::OidcScopes,
                    &page.form_oidc_scopes,
                    false,
                    300,
                ),
            );
            widgets::push_item(
                items,
                widgets::item_with(
                    Text::Label(Label::OidcCallbackUrl),
                    Widget::Body(Text::Label(Label::OidcCallbackPattern)),
                ),
            );
        },
        _ => {},
    }
    assert(items.deep_view() =~= before + credential_lines(page@));
}

/// Adds the lines on how a source proves who it is.
fn add_auth(items: &mut Vec<Item>, page: &Page)
    ensures
        final(items).deep_view() == old(items).deep_view() + auth_lines(page@),
{
    let ghost before = items.deep_view();
    let method = page.form_auth_method;
    if page.form_source_type == 0 || page.form_source_type == 1 {
        let methods = vec![
            choose_auth(method, 0, Label::AuthNone),
            choose_auth(method, 1, Label::AuthBasic),
            choose_auth(method, 2, Label::AuthBearer),
            choose_auth(method, 3, Label::AuthOidc),
        ];
        assert(methods.deep_view() =~= auth_lines(page@)[0].rows[0].widgets);
        widgets::push_item(
            items,
            widgets::item_of(Text::Label(Label::Auth), NARROW, methods),
        );
        add_credentials(items, page);
        let certificate = vec![
            input(TextField::CaCertPath, Label::CaCert, &page.form_ca_cert_path, false, 350),
            button(ButtonStyle::Standard, Label::Browse, Message::BrowseCaCert),
        ];
        assert(certificate.deep_view() =~= auth_lines(page@).last().rows[0].widgets);
        widgets::push_item(
            items,
            widgets::item_of(Text::Label(Label::CaCert), WIDE, certificate),
        );
    }
    assert(items.deep_view() =~= before + auth_lines(page@));
}

/// Adds the line with the color of a source.
fn add_color(items: &mut Vec<Item>, page: &Page)
    ensures
        final(items).deep_view() == old(items).deep_view() + color_lines(page@),
{
    let ghost before = items.deep_view();
    if page.form_source_type != 0 {
        let ghost expected = color_lines(page@)[0];
        let other = vec![
            input(TextField::Color, Label::SourceColor, &page.form_color, false, 120),
        ];
        assert(other.deep_view() =~= expected.rows[1].widgets);
        let rows = vec![
            sections::color_row(ColorTarget::Source, &page.form_color),
            Row { spacing: WIDE, widgets: other },
        ];
        assert(rows.deep_view() =~= expected.rows);
        let title = Text::Label(Label::SourceColor);
        widgets::push_item(items, Item { title, description: None, rows });
    }
    assert(items.deep_view() =~= before + color_lines(page@));
}

/// Adds the lines of a calendar that was discovered.
fn add_discovered(items: &mut Vec<Item>, page: &Page, index: usize, calendar: &CalDavCalendar)
    ensures
        final(items).deep_view() == old(items).deep_view() + discovered_lines(
            page@,
            index,
            calendar.deep_view(),
        ),
{
    let ghost before = items.deep_view();
    let ghost expected = discovered_lines(page@, index, calendar.deep_view());
    let color = if calendar.color.as_str().is_empty() {
        DEFAULT_COLOR.to_owned()
    } else {
        calendar.color.clone()
    };
    let controls = vec![
        Widget::Swatch { size: 10, color },
        Widget::Toggler {
            is_on: calendar.enabled,
            on_toggle: Message::FormToggleCalendar(index),
        },
        Widget::IconButton { icon: Icon::Color, on_press: Message::FormCalendarColor(index) },
    ];
    assert(controls.deep_view() =~= expected[0].rows[0].widgets);
    let title = Text::Plain(calendar.display_name.clone());
    widgets::push_item(items, widgets::item_of(title, WIDE, controls));
    if page.form_editing_cal_color == Some(index) {
        widgets::push_item(
            items,
            sections::edit_color(
                ColorTarget::Discovered,
                TextField::DiscoveredColor,
                &page.form_cal_color_input,
                Message::FormCalColorSave,
                Message::FormCalColorCancel,
            ),
        );
    }
    assert(items.deep_view() =~= before + expected);
}

/// Adds the lines of the calendars that were discovered, and says whether one of them is on.
fn add_all_discovered(items: &mut Vec<Item>, page: &Page) -> (r: bool)
    ensures
        final(items).deep_view() == old(items).deep_view() + all_discovered_lines(
            page@,
            page@.form_discovered_calendars,
        ),
        r == some_enabled(page@.form_discovered_calendars),
{
    let calendars = &page.form_discovered_calendars;
    let ghost before = items.deep_view();
    let ghost all = calendars.deep_view();
    let mut has_enabled = false;
    let mut i: usize = 0;
    assert(items.deep_view() =~= before + all_discovered_lines(page@, all.take(0)));
    while i < calendars.len()
        invariant
            i <= calendars.len(),
            all == calendars.deep_view(),
            items.deep_view() == before + all_discovered_lines(page@, all.take(i as int)),
            has_enabled == (exists|k: int| 0 <= k < i && (#[trigger] all[k]).enabled),
        decreases calendars.len() - i,
    {
        assert(all[i as int] == calendars@[i as int].deep_view());
        assert(all.take(i + 1).drop_last() =~= all.take(i as int));
        add_discovered(items, page, i, &calendars[i]);
        has_enabled = has_enabled || calendars[i].enabled;
        i += 1;
        assert(items.deep_view() =~= before + all_discovered_lines(page@, all.take(i as int)));
    }
    assert(all.take(all.len() as int) =~= all);
    has_enabled
}

/// Adds the end of the form while a source with calendars of its own is added.
fn add_adding(items: &mut Vec<Item>, page: &Page, path_exists: bool)
    ensures
        final(items).deep_view() == old(items).deep_view() + adding_lines(page@, path_exists),
{
    let ghost before = items.deep_view();
    let ghost expected = adding_lines(page@, path_exists);
    let valid = page.form_valid(path_exists);
    if let Some(error) = &page.form_discovery_error {
        widgets::push_item(
            items,
            widgets::item_with(widgets::empty_text(), Widget::FramedBody(error.clone())),
        );
    }
    let buttons = if page.form_discovered_calendars.len() == 0 {
        let first = if page.form_auth_method == 3 && !page.form_oidc_logged_in {
            button_if(valid, ButtonStyle::Suggested, Label::OidcLogin, Message::FormOidcLogin)
        } else {
            button_if(
                valid && !page.form_discovering,
                ButtonStyle::Suggested,
                sections::label_of_discovery(page.form_discovering),
                Message::FormDiscover,
            )
        };
        vec![first, cancel()]
    } else {
        let has_enabled = add_all_discovered(items, page);
        vec![
            button_if(has_enabled, ButtonStyle::Suggested, Label::Save, Message::SaveSource),
            button_if(
                !page.form_discovering,
                ButtonStyle::Standard,
                Label::Discover,
                Message::FormDiscover,
            ),
            cancel(),
        ]
    };
    assert(buttons.deep_view() =~= expected.last().rows[0].widgets);
    widgets::push_item(items, widgets::item_of(widgets::empty_text(), WIDE, buttons));
    assert(items.deep_view() =~= before + expected);
}

/// Adds the end of the form while a source with calendars of its own is edited.
fn add_editing(items: &mut Vec<Item>, page: &Page, id: &String, path_exists: bool)
    ensures
        final(items).deep_view() == old(items).deep_view() + editing_lines(
            page@,
            id@,
            path_exists,
        ),
{
    let ghost before = items.deep_view();
    let ghost expected = editing_lines(page@, id@, path_exists);
    if let Some(i) = config::find_source_index(&page.calendar_config.sources, id) {
        let source = &page.calendar_config.sources[i];
        assert(page@.calendar_config.sources[i as int] == source.deep_view());
        if let SourceType::CalDav { calendars, .. } = &source.source_type {
            if calendars.len() > 0 {
                widgets::push_item(items, note_item(Label::Sources));
            }
            proof {
                reveal_strlit("");
                assert(""@ =~= Seq::<char>::empty());
            }
            sections::add_calendars(items, page, source, "", calendars);
        }
    }
    let valid = page.form_valid(path_exists);
    let discovering = sections::is_discovering(page, id);
    let buttons = vec![
        button_if(valid, ButtonStyle::Suggested, Label::Save, Message::SaveEditSource),
        button_if(
            !discovering && valid,
            ButtonStyle::Standard,
            sections::label_of_discovery(discovering),
            Message::Discover(id.clone()),
        ),
        cancel(),
    ];
    assert(buttons.deep_view() =~= expected.last().rows[0].widgets);
    widgets::push_item(items, widgets::item_of(widgets::empty_text(), WIDE, buttons));
    assert(items.deep_view() =~= before + expected);
}

/// Adds the end of the form of any other source.
fn add_plain(items: &mut Vec<Item>, page: &Page, path_exists: bool)
    ensures
        final(items).deep_view() == old(items).deep_view() + plain_lines(page@, path_exists),
{
    let ghost before = items.deep_view();
    let ghost expected = plain_lines(page@, path_exists);
    let save = if page.editing_source_id.is_some() {
        Message::SaveEditSource
    } else {
        Message::SaveSource
    };
    let valid = page.form_valid(path_exists);
    let buttons = vec![
        button_if(valid, ButtonStyle::Suggested, Label::Save, save),
        cancel(),
    ];
    assert(buttons.deep_view() =~= expected[0].rows[0].widgets);
    widgets::push_item(items, widgets::item_of(widgets::empty_text(), WIDE, buttons));
    assert(items.deep_view() =~= before + expected);
}

/// The form, if it is shown, given whether the path in it names something that exists.
pub fn source_form_section(page: &Page, path_exists: bool) -> (r: Option<Section>)
    ensures
        r.deep_view() == form_shown(page@, path_exists),
{
    if !page.editing {
        return None;
    }
    let title = if page.editing_source_id.is_some() {
        Label::EditSource
    } else {
        Label::AddSource
    };
    let mut items = basic_items(page);
    add_complaints(&mut items, page, path_exists);
    add_auth(&mut items, page);
    add_color(&mut items, page);
    if page.form_source_type != 0 {
        add_plain(&mut items, page, path_exists);
    } else {
        match &page.editing_source_id {
            None => {
                add_adding(&mut items, page, path_exists);
            },
            Some(id) => {
                add_editing(&mut items, page, id, path_exists);
            },
        }
    }
    Some(Section { title, items })
}

// ── Laws ─────────────────────────────────────────────────────────────────

/// The form takes the whole page: the list of sources and the sync settings are shown exactly while
/// it is not.
pub proof fn form_and_list_take_turns(page: page::PageView, path_exists: bool)
    ensures
        form_shown(page, path_exists) is Some <==> sections::sources_shown(page) is None,
        form_shown(page, path_exists) is Some <==> sections::settings_shown(page) is None,
{
}

/// Whether what is written in a field is a secret.
pub open spec fn is_secret(field: TextField) -> bool {
    field == TextField::Password || field == TextField::Token || field
        == TextField::OidcClientSecret
}

/// Whether a control shows no secret.
pub open spec fn hides_secret(widget: widgets::WidgetView) -> bool {
    widget matches widgets::WidgetView::Input { field, secret, .. } ==> is_secret(field) ==> secret
}

/// Whether a line shows no secret.
pub open spec fn line_hides_secrets(item: widgets::ItemView) -> bool {
    forall|r: int, w: int|
        0 <= r < item.rows.len() && 0 <= w < item.rows[r].widgets.len() ==> hides_secret(
            #[trigger] item.rows[r].widgets[w],
        )
}

/// Whether lines show no secret.
pub open spec fn hide_secrets(items: Seq<widgets::ItemView>) -> bool {
    forall|i: int| 0 <= i < items.len() ==> line_hides_secrets(#[trigger] items[i])
}

/// The lines of calendars of a saved source show no secret.
proof fn lemma_calendars_hide_secrets(
    page: page::PageView,
    source: config::SourceConfigView,
    indent: Seq<char>,
    calendars: Seq<config::CalDavCalendarView>,
)
    ensures
        hide_secrets(sections::all_calendar_lines(page, source, indent, calendars)),
    decreases calendars.len(),
{
    if calendars.len() > 0 {
        lemma_calendars_hide_secrets(page, source, indent, calendars.drop_last());
    }
}

/// The lines of calendars that were discovered show no secret.
proof fn lemma_discovered_hide_secrets(
    page: page::PageView,
    calendars: Seq<config::CalDavCalendarView>,
)
    ensures
        hide_secrets(all_discovered_lines(page, calendars)),
    decreases calendars.len(),
{
    if calendars.len() > 0 {
        lemma_discovered_hide_secrets(page, calendars.drop_last());
    }
}

/// The fields of the way to prove who one is show no secret.
proof fn lemma_credentials_hide_secrets(page: page::PageView)
    ensures
        hide_secrets(credential_lines(page)),
{
}

/// The end of the form shows no secret.
proof fn lemma_closing_hides_secrets(page: page::PageView, path_exists: bool)
    ensures
        hide_secrets(closing_lines(page, path_exists)),
{
    lemma_discovered_hide_secrets(page, page.form_discovered_calendars);
    if let Some(id) = page.editing_source_id {
        if let Some(source) = config::find_source(page.calendar_config.sources, id) {
            if let config::SourceTypeView::CalDav { calendars, .. } = source.source_type {
                lemma_calendars_hide_secrets(page, source, Seq::empty(), calendars);
            }
        }
    }
}

/// Passwords, tokens and client secrets are never readable in the form.
pub proof fn form_hides_secrets(page: page::PageView, path_exists: bool)
    ensures
        form_shown(page, path_exists) matches Some(section) ==> hide_secrets(section.items),
{
    lemma_credentials_hide_secrets(page);
    lemma_closing_hides_secrets(page, path_exists);
    assert(hide_secrets(basic_lines(page)));
    assert(hide_secrets(complaint_lines(page, path_exists)));
    assert(hide_secrets(auth_lines(page)));
    assert(hide_secrets(color_lines(page)));
}

/// What a field of the form reports is what it then shows.
pub proof fn field_shows_what_was_written(
    page: page::PageView,
    field: TextField,
    value: Seq<char>,
    facts: update::FactsView,
)
    ensures
        field_text(page.updated(widgets::field_message(field, value), facts).0, field) == value,
{
}

/// The text of the page that a field shows.
pub open spec fn field_text(page: page::PageView, field: TextField) -> Seq<char> {
    match field {
        TextField::Name => page.form_name,
        TextField::Url => page.form_url,
        TextField::Username => page.form_username,
        TextField::Password => page.form_password,
        TextField::Token => page.form_token,
        TextField::OidcIssuer => page.form_oidc_issuer,
        TextField::OidcClientId => page.form_oidc_client_id,
        TextField::OidcClientSecret => page.form_oidc_client_secret,
        TextField::OidcScopes => page.form_oidc_scopes,
        TextField::CaCertPath => page.form_ca_cert_path,
        TextField::Color => page.form_color,
        TextField::DiscoveredColor => page.form_cal_color_input,
        TextField::CalendarColor => page.calendar_color_input,
    }
}

} // verus!
