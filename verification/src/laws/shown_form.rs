//! What the form shows, told by what the page holds.

use vstd::prelude::*;

use crate::config;
use crate::form;
use crate::labels;
use crate::labels::Label;
use crate::laws::events;
use crate::laws::shown;
use crate::message;
use crate::page;
use crate::page::DEFAULT_COLOR;
use crate::sections;
use crate::sections::ColorTarget;
use crate::text;
use crate::widgets;
use crate::widgets::{ButtonStyle, Icon, TextField};

verus! {

// ── How the laws speak ───────────────────────────────────────────────────

/// A field with this text in it.
pub open spec fn input(
    field: TextField,
    placeholder: Label,
    value: Seq<char>,
    secret: bool,
    width: u16,
) -> widgets::WidgetView {
    widgets::WidgetView::Input { field, placeholder, value, secret, width }
}

/// A button for one of several choices, marked if it is the chosen one.
pub open spec fn choice(chosen: bool, label: Label, event: message::MessageView) ->
    widgets::WidgetView {
    widgets::WidgetView::Button {
        style: if chosen {
            ButtonStyle::Suggested
        } else {
            ButtonStyle::Standard
        },
        label,
        on_press: Some(event),
    }
}

/// A button that can be pressed only if `live`.
pub open spec fn button(
    style: ButtonStyle,
    label: Label,
    live: bool,
    event: message::MessageView,
) -> widgets::WidgetView {
    widgets::WidgetView::Button {
        style,
        label,
        on_press: if live {
            Some(event)
        } else {
            None
        },
    }
}

/// Whether the source in the form is one on the web.
pub open spec fn on_the_web(page: page::PageView) -> bool {
    page.form_source_type == 0 || page.form_source_type == 1
}

// ── What belongs to the form ─────────────────────────────────────────────

/// Name, address and type: what was written, and which type is chosen.
pub open spec fn basics_have(page: page::PageView, w: widgets::WidgetView) -> bool {
    let kind = page.form_source_type;
    let url_label = if kind == 2 {
        Label::SourcePath
    } else {
        Label::SourceUrl
    };
    ||| w == input(TextField::Name, Label::SourceName, page.form_name, false, 300)
    ||| w == input(TextField::Url, url_label, page.form_url, false, 400)
    ||| w == choice(kind == 0, Label::TypeCalDav, message::MessageView::FormSourceType(0))
    ||| w == choice(kind == 1, Label::TypeIcsUrl, message::MessageView::FormSourceType(1))
    ||| w == choice(kind == 2, Label::TypeIcsFile, message::MessageView::FormSourceType(2))
}

/// The fields of the authentication that the form stands on, with what was written in them. Secrets
/// are hidden.
pub open spec fn credentials_have(page: page::PageView, w: widgets::WidgetView) -> bool {
    ||| page.form_auth_method == 1 && {
        ||| w == input(TextField::Username, Label::Username, page.form_username, false, 300)
        ||| w == input(TextField::Password, Label::Password, page.form_password, true, 300)
    }
    ||| page.form_auth_method == 2 && w == input(
        TextField::Token,
        Label::Token,
        page.form_token,
        true,
        300,
    )
    ||| page.form_auth_method == 3 && {
        ||| w == input(TextField::OidcIssuer, Label::OidcIssuer, page.form_oidc_issuer, false, 400)
        ||| w == input(
            TextField::OidcClientId,
            Label::OidcClientId,
            page.form_oidc_client_id,
            false,
            300,
        )
        ||| w == input(
            TextField::OidcClientSecret,
            Label::OidcClientSecretHint,
            page.form_oidc_client_secret,
            true,
            300,
        )
        ||| w == input(TextField::OidcScopes, Label::OidcScopes, page.form_oidc_scopes, false, 300)
        ||| w == widgets::WidgetView::Body(labels::TextView::Label(Label::OidcCallbackPattern))
    }
}

/// Authentication and certificate of a source on the web.
pub open spec fn auth_has(page: page::PageView, w: widgets::WidgetView) -> bool {
    let method = page.form_auth_method;
    on_the_web(page) && {
        ||| w == choice(method == 0, Label::AuthNone, message::MessageView::FormAuth(0))
        ||| w == choice(method == 1, Label::AuthBasic, message::MessageView::FormAuth(1))
        ||| w == choice(method == 2, Label::AuthBearer, message::MessageView::FormAuth(2))
        ||| w == choice(method == 3, Label::AuthOidc, message::MessageView::FormAuth(3))
        ||| credentials_have(page, w)
        ||| w == input(TextField::CaCertPath, Label::CaCert, page.form_ca_cert_path, false, 350)
        ||| w == button(
            ButtonStyle::Standard,
            Label::Browse,
            true,
            message::MessageView::BrowseCaCert,
        )
    }
}

/// The color of a source that has no calendars of its own.
pub open spec fn color_has(page: page::PageView, w: widgets::WidgetView) -> bool {
    page.form_source_type != 0 && {
        ||| w is ColorButton && shown::is_color_editor(
            w,
            ColorTarget::Source,
            TextField::Color,
            page.form_color,
            message::MessageView::CancelForm,
            message::MessageView::CancelForm,
        )
        ||| w == input(TextField::Color, Label::SourceColor, page.form_color, false, 120)
    }
}

/// A calendar that was discovered: a square in its color, or in the default where it has none, a
/// switch that is on exactly if the calendar is, a button to edit its color, and, while that is
/// done, the controls of the editing.
pub open spec fn discovered_has(
    page: page::PageView,
    index: usize,
    calendar: config::CalDavCalendarView,
    w: widgets::WidgetView,
) -> bool {
    ||| w == (widgets::WidgetView::Swatch {
        size: 10,
        color: if calendar.color.len() == 0 {
            DEFAULT_COLOR@
        } else {
            calendar.color
        },
    })
    ||| w == (widgets::WidgetView::Toggler {
        is_on: calendar.enabled,
        on_toggle: message::MessageView::FormToggleCalendar(index),
    })
    ||| w == (widgets::WidgetView::IconButton {
        icon: Icon::Color,
        on_press: message::MessageView::FormCalendarColor(index),
    })
    ||| page.form_editing_cal_color == Some(index) && shown::is_color_editor(
        w,
        ColorTarget::Discovered,
        TextField::DiscoveredColor,
        page.form_cal_color_input,
        message::MessageView::FormCalColorSave,
        message::MessageView::FormCalColorCancel,
    )
}

/// Whether a control belongs to one of the calendars that were discovered.
pub open spec fn some_discovered_has(
    page: page::PageView,
    calendars: Seq<config::CalDavCalendarView>,
    w: widgets::WidgetView,
) -> bool {
    exists|k: int|
        0 <= k < calendars.len() && discovered_has(page, k as usize, #[trigger] calendars[k], w)
}

/// The end of the form while a source with calendars of its own is added: an error, if there is
/// one, the sign-in or the discovery that comes first, and once calendars were discovered these,
/// with a button to save that can be pressed exactly if one of them is on.
pub open spec fn adding_has(
    page: page::PageView,
    path_exists: bool,
    w: widgets::WidgetView,
) -> bool {
    let valid = page.form_valid(path_exists);
    let calendars = page.form_discovered_calendars;
    let some_on = exists|k: int| 0 <= k < calendars.len() && (#[trigger] calendars[k]).enabled;
    ||| page.form_discovery_error matches Some(error) && w == widgets::WidgetView::FramedBody(error)
    ||| calendars.len() == 0 && (if page.form_auth_method == 3 && !page.form_oidc_logged_in {
        w == button(
            ButtonStyle::Suggested,
            Label::OidcLogin,
            valid,
            message::MessageView::FormOidcLogin,
        )
    } else {
        w == button(
            ButtonStyle::Suggested,
            if page.form_discovering {
                Label::Discovering
            } else {
                Label::Discover
            },
            valid && !page.form_discovering,
            message::MessageView::FormDiscover,
        )
    })
    ||| calendars.len() > 0 && {
        ||| some_discovered_has(page, calendars, w)
        ||| w == button(
            ButtonStyle::Suggested,
            Label::Save,
            some_on,
            message::MessageView::SaveSource,
        )
        ||| w == button(
            ButtonStyle::Standard,
            Label::Discover,
            !page.form_discovering,
            message::MessageView::FormDiscover,
        )
    }
}

/// The end of the form while a source with calendars of its own is edited: its calendars, a button
/// to save that can be pressed exactly if the form is valid, and one to discover.
pub open spec fn editing_has(
    page: page::PageView,
    id: Seq<char>,
    path_exists: bool,
    w: widgets::WidgetView,
) -> bool {
    let valid = page.form_valid(path_exists);
    let discovering = page.discovering_source == Some(id);
    ||| exists|i: int|
        #![trigger page.calendar_config.sources[i]]
        events::means(page.calendar_config.sources, id, i) && (
        page.calendar_config.sources[i].source_type matches config::SourceTypeView::CalDav {
            calendars,
            ..
        } && shown::some_has(page, page.calendar_config.sources[i], calendars, w))
    ||| w == button(
        ButtonStyle::Suggested,
        Label::Save,
        valid,
        message::MessageView::SaveEditSource,
    )
    ||| w == button(
        ButtonStyle::Standard,
        if discovering {
            Label::Discovering
        } else {
            Label::Discover
        },
        valid && !discovering,
        message::MessageView::Discover(id),
    )
}

/// The end of the form. It can always be cancelled.
pub open spec fn closing_has(page: page::PageView, path_exists: bool, w: widgets::WidgetView) ->
    bool {
    ||| w == button(ButtonStyle::Standard, Label::Cancel, true, message::MessageView::CancelForm)
    ||| match page.editing_source_id {
        _ if page.form_source_type != 0 => w == button(
            ButtonStyle::Suggested,
            Label::Save,
            page.form_valid(path_exists),
            if page.editing_source_id is Some {
                message::MessageView::SaveEditSource
            } else {
                message::MessageView::SaveSource
            },
        ),
        Some(id) => editing_has(page, id, path_exists, w),
        None => adding_has(page, path_exists, w),
    }
}

/// Whether a control belongs to the form.
pub open spec fn form_has(page: page::PageView, path_exists: bool, w: widgets::WidgetView) -> bool {
    ||| basics_have(page, w)
    ||| auth_has(page, w)
    ||| color_has(page, w)
    ||| closing_has(page, path_exists, w)
}

// ── Proofs ───────────────────────────────────────────────────────────────

/// What stands on a line with one control.
proof fn lemma_one_control(
    title: labels::TextView,
    control: widgets::WidgetView,
    w: widgets::WidgetView,
)
    ensures
        shown::line_shows(widgets::control_item(title, control), w) <==> w == control,
{
    let item = widgets::control_item(title, control);
    shown::lemma_one_row(item, w);
    shown::lemma_in_few(control, w, w, w, w);
}

/// What stands on the first lines.
proof fn lemma_basics(page: page::PageView, path_exists: bool, w: widgets::WidgetView)
    requires
        !(w is Space),
    ensures
        shown::shows(form::basic_lines(page), w) <==> basics_have(page, w),
        !shown::shows(form::complaint_lines(page, path_exists), w),
{
    let lines = form::basic_lines(page);
    let types = lines[1].rows[0].widgets;
    assert(lines =~= seq![lines[0]].push(lines[1]).push(lines[2]));
    shown::lemma_shows_one_more(seq![lines[0]], lines[1], w);
    shown::lemma_shows_one_more(seq![lines[0]], lines[0], w);
    shown::lemma_shows_one_more(seq![lines[0]].push(lines[1]), lines[2], w);
    lemma_one_control(lines[0].title, lines[0].rows[0].widgets[0], w);
    lemma_one_control(lines[2].title, lines[2].rows[0].widgets[0], w);
    assert(lines[0] == widgets::control_item(lines[0].title, lines[0].rows[0].widgets[0]));
    assert(lines[2] == widgets::control_item(lines[2].title, lines[2].rows[0].widgets[0]));
    shown::lemma_one_row(lines[1], w);
    shown::lemma_in_few(types[0], types[1], types[2], w, w);
    assert(types =~= seq![types[0], types[1], types[2]]);
    let complaints = form::complaint_lines(page, path_exists);
    assert forall|i: int| 0 <= i < complaints.len() implies !shown::line_shows(
        #[trigger] complaints[i],
        w,
    ) by {
        lemma_one_control(complaints[i].title, widgets::WidgetView::Space, w);
    }
}

/// What stands on lines with one control each.
proof fn lemma_single_controls(lines: Seq<widgets::ItemView>, w: widgets::WidgetView)
    requires
        forall|i: int|
            0 <= i < lines.len() ==> (#[trigger] lines[i]).rows.len() == 1
                && lines[i].rows[0].widgets.len() == 1,
    ensures
        shown::shows(lines, w) <==> exists|i: int|
            0 <= i < lines.len() && (#[trigger] lines[i]).rows[0].widgets[0] == w,
{
    assert forall|i: int| 0 <= i < lines.len() implies (shown::line_shows(#[trigger] lines[i], w)
        <==> lines[i].rows[0].widgets[0] == w) by {
        shown::lemma_one_row(lines[i], w);
        let row = lines[i].rows[0].widgets;
        shown::lemma_in_few(row[0], w, w, w, w);
        assert(row =~= seq![row[0]]);
    }
    if exists|i: int| 0 <= i < lines.len() && (#[trigger] lines[i]).rows[0].widgets[0] == w {
        let i = choose|i: int|
            0 <= i < lines.len() && (#[trigger] lines[i]).rows[0].widgets[0] == w;
        assert(shown::line_shows(lines[i], w));
    }
}

/// What stands on the lines of the authentication that the form stands on.
proof fn lemma_credentials(page: page::PageView, w: widgets::WidgetView)
    ensures
        shown::shows(form::credential_lines(page), w) <==> credentials_have(page, w),
{
    let lines = form::credential_lines(page);
    lemma_single_controls(lines, w);
    if page.form_auth_method == 1 {
        assert(lines.len() == 2);
        assert(lines[0].rows[0].widgets[0] == input(
            TextField::Username,
            Label::Username,
            page.form_username,
            false,
            300,
        ));
        assert(lines[1].rows[0].widgets[0] == input(
            TextField::Password,
            Label::Password,
            page.form_password,
            true,
            300,
        ));
    } else if page.form_auth_method == 2 {
        assert(lines.len() == 1);
        assert(lines[0].rows[0].widgets[0] == input(
            TextField::Token,
            Label::Token,
            page.form_token,
            true,
            300,
        ));
    } else if page.form_auth_method == 3 {
        assert(lines.len() == 5);
        assert(lines[0].rows[0].widgets[0] == input(
            TextField::OidcIssuer,
            Label::OidcIssuer,
            page.form_oidc_issuer,
            false,
            400,
        ));
        assert(lines[1].rows[0].widgets[0] == input(
            TextField::OidcClientId,
            Label::OidcClientId,
            page.form_oidc_client_id,
            false,
            300,
        ));
        assert(lines[2].rows[0].widgets[0] == input(
            TextField::OidcClientSecret,
            Label::OidcClientSecretHint,
            page.form_oidc_client_secret,
            true,
            300,
        ));
        assert(lines[3].rows[0].widgets[0] == input(
            TextField::OidcScopes,
            Label::OidcScopes,
            page.form_oidc_scopes,
            false,
            300,
        ));
        assert(lines[4].rows[0].widgets[0] == widgets::WidgetView::Body(
            labels::TextView::Label(Label::OidcCallbackPattern),
        ));
    } else {
        assert(lines.len() == 0);
    }
}

/// What stands on the lines of authentication and certificate.
proof fn lemma_auth(page: page::PageView, w: widgets::WidgetView)
    ensures
        shown::shows(form::auth_lines(page), w) <==> auth_has(page, w),
{
    let lines = form::auth_lines(page);
    lemma_credentials(page, w);
    if on_the_web(page) {
        let choices = lines[0];
        let certificate = lines.last();
        let middle = form::credential_lines(page);
        assert(lines =~= seq![choices] + middle + seq![certificate]);
        shown::lemma_shows_both(seq![choices], middle, w);
        shown::lemma_shows_both(seq![choices] + middle, seq![certificate], w);
        shown::lemma_shows_one_more(middle, choices, w);
        shown::lemma_shows_one_more(middle, certificate, w);
        shown::lemma_one_row(choices, w);
        shown::lemma_one_row(certificate, w);
        let four = choices.rows[0].widgets;
        let two = certificate.rows[0].widgets;
        shown::lemma_in_few(four[0], four[1], four[2], four[3], w);
        assert(four =~= seq![four[0], four[1], four[2], four[3]]);
        shown::lemma_in_few(two[0], two[1], w, w, w);
        assert(two =~= seq![two[0], two[1]]);
    } else {
        assert(lines =~= Seq::empty());
    }
}

/// What stands on the line of the color.
proof fn lemma_color(page: page::PageView, w: widgets::WidgetView)
    ensures
        shown::shows(form::color_lines(page), w) <==> color_has(page, w),
{
    let lines = form::color_lines(page);
    if page.form_source_type != 0 {
        let item = lines[0];
        assert(lines =~= seq![item]);
        shown::lemma_shows_one_more(lines, item, w);
        shown::lemma_two_rows(item, w);
        shown::lemma_presets(ColorTarget::Source, page.form_color, w);
        let row = item.rows[1].widgets;
        shown::lemma_in_few(row[0], w, w, w, w);
        assert(row =~= seq![row[0]]);
    }
}

/// What stands on the lines of a discovered calendar.
proof fn lemma_discovered(
    page: page::PageView,
    index: usize,
    calendar: config::CalDavCalendarView,
    w: widgets::WidgetView,
)
    ensures
        shown::shows(form::discovered_lines(page, index, calendar), w) <==> discovered_has(
            page,
            index,
            calendar,
            w,
        ),
{
    let lines = form::discovered_lines(page, index, calendar);
    let line = lines[0];
    let row = line.rows[0].widgets;
    shown::lemma_one_row(line, w);
    shown::lemma_in_few(row[0], row[1], row[2], w, w);
    assert(row =~= seq![row[0], row[1], row[2]]);
    shown::lemma_shows_one_more(seq![line], line, w);
    if page.form_editing_cal_color == Some(index) {
        shown::lemma_color_editor(
            ColorTarget::Discovered,
            TextField::DiscoveredColor,
            page.form_cal_color_input,
            message::MessageView::FormCalColorSave,
            message::MessageView::FormCalColorCancel,
            w,
        );
        shown::lemma_shows_one_more(seq![line], lines[1], w);
        assert(lines =~= seq![line].push(lines[1]));
    } else {
        assert(lines =~= seq![line]);
    }
}

/// What stands on the lines of the discovered calendars.
proof fn lemma_all_discovered(
    page: page::PageView,
    calendars: Seq<config::CalDavCalendarView>,
    w: widgets::WidgetView,
)
    ensures
        shown::shows(form::all_discovered_lines(page, calendars), w) <==> some_discovered_has(
            page,
            calendars,
            w,
        ),
    decreases calendars.len(),
{
    if calendars.len() > 0 {
        let front = calendars.drop_last();
        let last = calendars.len() - 1;
        lemma_all_discovered(page, front, w);
        lemma_discovered(page, last as usize, calendars.last(), w);
        shown::lemma_shows_both(
            form::all_discovered_lines(page, front),
            form::discovered_lines(page, last as usize, calendars.last()),
            w,
        );
        if some_discovered_has(page, front, w) {
            let k = choose|k: int|
                0 <= k < front.len() && discovered_has(page, k as usize, #[trigger] front[k], w);
            assert(calendars[k] == front[k]);
        }
        assert(calendars[last] == calendars.last());
        if some_discovered_has(page, calendars, w) {
            let k = choose|k: int|
                0 <= k < calendars.len() && discovered_has(
                    page,
                    k as usize,
                    #[trigger] calendars[k],
                    w,
                );
            if k < last {
                assert(front[k] == calendars[k]);
            }
        }
    }
}

/// What stands on a line with two or three buttons.
proof fn lemma_buttons(item: widgets::ItemView, w: widgets::WidgetView)
    requires
        item.rows.len() == 1,
        item.rows[0].widgets.len() == 2 || item.rows[0].widgets.len() == 3,
    ensures
        ({
            let row = item.rows[0].widgets;
            shown::line_shows(item, w) <==> w == row[0] || w == row[1] || (row.len() == 3 && w
                == row[2])
        }),
{
    let row = item.rows[0].widgets;
    shown::lemma_one_row(item, w);
    shown::lemma_in_few(row[0], row[1], row[2], w, w);
    if row.len() == 2 {
        assert(row =~= seq![row[0], row[1]]);
    } else {
        assert(row =~= seq![row[0], row[1], row[2]]);
    }
}

/// What stands at the end of the form while a source is added.
proof fn lemma_adding(page: page::PageView, path_exists: bool, w: widgets::WidgetView)
    ensures
        shown::shows(form::adding_lines(page, path_exists), w) <==> adding_has(
            page,
            path_exists,
            w,
        ) || w == button(
            ButtonStyle::Standard,
            Label::Cancel,
            true,
            message::MessageView::CancelForm,
        ),
{
    let lines = form::adding_lines(page, path_exists);
    let calendars = page.form_discovered_calendars;
    let error = match page.form_discovery_error {
        Some(error) => seq![
            widgets::control_item(widgets::no_title(), widgets::WidgetView::FramedBody(error)),
        ],
        None => Seq::<widgets::ItemView>::empty(),
    };
    let last = lines.last();
    shown::lemma_shows_one_more(error, last, w);
    if let Some(e) = page.form_discovery_error {
        lemma_one_control(widgets::no_title(), widgets::WidgetView::FramedBody(e), w);
        shown::lemma_shows_one_more(error, error[0], w);
        assert(error =~= seq![error[0]]);
    }
    lemma_buttons(last, w);
    if calendars.len() == 0 {
        assert(lines =~= error.push(last));
    } else {
        let middle = form::all_discovered_lines(page, calendars);
        lemma_all_discovered(page, calendars, w);
        shown::lemma_shows_both(error, middle, w);
        shown::lemma_shows_one_more(error + middle, last, w);
        assert(lines =~= (error + middle).push(last));
    }
}

/// What stands at the end of the form while a source is edited.
proof fn lemma_editing(
    page: page::PageView,
    id: Seq<char>,
    path_exists: bool,
    w: widgets::WidgetView,
)
    requires
        !(w is Space),
    ensures
        shown::shows(form::editing_lines(page, id, path_exists), w) <==> editing_has(
            page,
            id,
            path_exists,
            w,
        ) || w == button(
            ButtonStyle::Standard,
            Label::Cancel,
            true,
            message::MessageView::CancelForm,
        ),
{
    let all = page.calendar_config.sources;
    let lines = form::editing_lines(page, id, path_exists);
    let last = lines.last();
    let front = lines.drop_last();
    assert(lines =~= front.push(last));
    shown::lemma_shows_one_more(front, last, w);
    lemma_buttons(last, w);
    if config::has_source(all, id) {
        let i = config::source_index(all, id);
        assert(config::is_first_source(all, id, i));
        assert(events::means(all, id, i));
        assert forall|j: int| events::means(all, id, j) implies j == i by {
            events::lemma_found(all, id, j);
        }
        if let config::SourceTypeView::CalDav { calendars, .. } = all[i].source_type {
            let under = sections::all_calendar_lines(page, all[i], Seq::empty(), calendars);
            let note = if calendars.len() > 0 {
                seq![form::note_line(Label::Sources)]
            } else {
                Seq::<widgets::ItemView>::empty()
            };
            assert(front =~= note + under);
            shown::lemma_shows_both(note, under, w);
            shown::lemma_all_calendar_lines(page, all[i], Seq::empty(), calendars, w);
            shown::lemma_shows_one_more(note, form::note_line(Label::Sources), w);
            lemma_one_control(
                labels::TextView::Label(Label::Sources),
                widgets::WidgetView::Space,
                w,
            );
        } else {
            assert(front =~= Seq::empty());
        }
    } else {
        assert(front =~= Seq::empty());
        assert forall|j: int| !events::means(all, id, j) by {
            if events::means(all, id, j) {
                events::lemma_found(all, id, j);
            }
        }
    }
}

/// What stands at the end of the form.
proof fn lemma_closing(page: page::PageView, path_exists: bool, w: widgets::WidgetView)
    requires
        !(w is Space),
    ensures
        shown::shows(form::closing_lines(page, path_exists), w) <==> closing_has(
            page,
            path_exists,
            w,
        ),
{
    if page.form_source_type != 0 {
        let lines = form::plain_lines(page, path_exists);
        assert(lines =~= seq![lines[0]]);
        shown::lemma_shows_one_more(lines, lines[0], w);
        lemma_buttons(lines[0], w);
    } else {
        match page.editing_source_id {
            None => {
                lemma_adding(page, path_exists, w);
            },
            Some(id) => {
                lemma_editing(page, id, path_exists, w);
            },
        }
    }
}

/// The form shows what is written in it, which choices are made, and the calendars that belong to
/// it, as they stand, with the buttons that lead on. Each can be pressed exactly while it makes
/// sense. The form is shown exactly while it is open, and says whether a source is added or edited.
pub proof fn form_shows_what_it_holds(
    page: page::PageView,
    path_exists: bool,
    w: widgets::WidgetView,
)
    requires
        !(w is Space),
    ensures
        form::form_shown(page, path_exists) is Some <==> page.editing,
        form::form_shown(page, path_exists) matches Some(section) ==> (section.title
            == if page.editing_source_id is Some {
            Label::EditSource
        } else {
            Label::AddSource
        }) && (shown::shows(section.items, w) <==> form_has(page, path_exists, w)),
{
    if page.editing {
        let basics = form::basic_lines(page);
        let complaints = form::complaint_lines(page, path_exists);
        let auth = form::auth_lines(page);
        let color = form::color_lines(page);
        let closing = form::closing_lines(page, path_exists);
        lemma_basics(page, path_exists, w);
        lemma_auth(page, w);
        lemma_color(page, w);
        lemma_closing(page, path_exists, w);
        shown::lemma_shows_both(basics, complaints, w);
        shown::lemma_shows_both(basics + complaints, auth, w);
        shown::lemma_shows_both(basics + complaints + auth, color, w);
        shown::lemma_shows_both(basics + complaints + auth + color, closing, w);
    }
}

/// The form complains of a name that is blank but not empty, and of an address that is not empty
/// and does not fit the type of the source. Nothing is said of a field that is still empty. What it
/// complains of stands right below the fields.
pub proof fn form_complains_of_what_is_wrong(page: page::PageView, path_exists: bool)
    requires
        page.editing,
    ensures
        ({
            let items = form::form_shown(page, path_exists)->0.items;
            let blank_name = page.form_name.len() > 0 && text::trimmed(page.form_name).len() == 0;
            let address = text::trimmed(page.form_url);
            let bad_address = page.form_url.len() > 0 && page.form_source_type <= 2 && (
            if page.form_source_type == 2 {
                address.len() == 0 || !path_exists
            } else {
                !"http://"@.is_prefix_of(address) && !"https://"@.is_prefix_of(address)
            });
            let complaint = labels::TextView::Label(
                if page.form_source_type == 2 {
                    Label::FileNotFound
                } else {
                    Label::UrlInvalid
                },
            );
            let name_required = labels::TextView::Label(Label::NameRequired);
            &&& items.len() > 4
            &&& items[3].title == name_required <==> blank_name
            &&& !blank_name ==> (items[3].title == complaint <==> bad_address)
            &&& blank_name ==> (items[4].title == complaint <==> bad_address)
        }),
{
    let items = form::form_shown(page, path_exists)->0.items;
    let complaints = form::complaint_lines(page, path_exists);
    let rest = form::auth_lines(page) + form::color_lines(page) + form::closing_lines(
        page,
        path_exists,
    );
    assert(items =~= form::basic_lines(page) + complaints + rest);
    assert(rest.len() >= 2);
    let first = rest[0];
    assert(first.title == labels::TextView::Label(Label::Auth) || first.title
        == labels::TextView::Label(Label::SourceColor));
}

/// What the line of a field is called; the fields in which the color of a calendar is edited have
/// no title.
pub open spec fn title_of_field(page: page::PageView, field: TextField) -> labels::TextView {
    match field {
        TextField::Name => labels::TextView::Label(Label::SourceName),
        TextField::Url => labels::TextView::Label(
            if page.form_source_type == 2 {
                Label::SourcePath
            } else {
                Label::SourceUrl
            },
        ),
        TextField::Username => labels::TextView::Label(Label::Username),
        TextField::Password => labels::TextView::Label(Label::Password),
        TextField::Token => labels::TextView::Label(Label::Token),
        TextField::OidcIssuer => labels::TextView::Label(Label::OidcIssuer),
        TextField::OidcClientId => labels::TextView::Label(Label::OidcClientId),
        TextField::OidcClientSecret => labels::TextView::Label(Label::OidcClientSecret),
        TextField::OidcScopes => labels::TextView::Label(Label::OidcScopes),
        TextField::CaCertPath => labels::TextView::Label(Label::CaCert),
        TextField::Color => labels::TextView::Label(Label::SourceColor),
        TextField::DiscoveredColor => labels::TextView::Plain(Seq::empty()),
        TextField::CalendarColor => labels::TextView::Plain(Seq::empty()),
    }
}

/// Whether a line is called by what stands on it.
pub open spec fn is_well_titled(page: page::PageView, item: widgets::ItemView) -> bool {
    forall|r: int, k: int|
        0 <= r < item.rows.len() && 0 <= k < item.rows[r].widgets.len() ==> match (
        #[trigger] item.rows[r].widgets[k]) {
            widgets::WidgetView::Input { field, .. } => item.title == title_of_field(page, field),
            widgets::WidgetView::Button {
                on_press: Some(message::MessageView::FormSourceType(_)),
                ..
            } => item.title == labels::TextView::Label(Label::SourceType),
            widgets::WidgetView::Button {
                on_press: Some(message::MessageView::FormAuth(_)),
                ..
            } => item.title == labels::TextView::Label(Label::Auth),
            widgets::WidgetView::Body(_) => item.title == labels::TextView::Label(
                Label::OidcCallbackUrl,
            ),
            _ => true,
        }
}

/// Whether lines are called by what stands on them.
pub open spec fn are_well_titled(page: page::PageView, items: Seq<widgets::ItemView>) -> bool {
    forall|i: int| 0 <= i < items.len() ==> is_well_titled(page, #[trigger] items[i])
}

/// The line in which a color is edited has no title.
proof fn lemma_editor_titled(
    page: page::PageView,
    target: ColorTarget,
    field: TextField,
    current: Seq<char>,
    save: message::MessageView,
    cancel: message::MessageView,
)
    requires
        field == TextField::DiscoveredColor || field == TextField::CalendarColor,
        save is FormCalColorSave || save is SaveCalendarColor,
        cancel is FormCalColorCancel || cancel is CancelCalendarColor,
    ensures
        is_well_titled(page, sections::color_editor(target, field, current, save, cancel)),
{
}

/// The lines of calendars of a saved source have no field of the form.
proof fn lemma_calendars_titled(
    page: page::PageView,
    source: config::SourceConfigView,
    indent: Seq<char>,
    calendars: Seq<config::CalDavCalendarView>,
)
    ensures
        are_well_titled(page, sections::all_calendar_lines(page, source, indent, calendars)),
    decreases calendars.len(),
{
    if calendars.len() > 0 {
        lemma_calendars_titled(page, source, indent, calendars.drop_last());
        lemma_editor_titled(
            page,
            ColorTarget::Calendar,
            TextField::CalendarColor,
            page.calendar_color_input,
            message::MessageView::SaveCalendarColor,
            message::MessageView::CancelCalendarColor,
        );
        let lines = sections::calendar_lines(page, source, indent, calendars.last());
        assert(is_well_titled(page, lines[0]));
        assert(are_well_titled(page, lines));
    }
}

/// The lines of discovered calendars have no field of the form.
proof fn lemma_discovered_titled(
    page: page::PageView,
    calendars: Seq<config::CalDavCalendarView>,
)
    ensures
        are_well_titled(page, form::all_discovered_lines(page, calendars)),
    decreases calendars.len(),
{
    if calendars.len() > 0 {
        lemma_discovered_titled(page, calendars.drop_last());
        lemma_editor_titled(
            page,
            ColorTarget::Discovered,
            TextField::DiscoveredColor,
            page.form_cal_color_input,
            message::MessageView::FormCalColorSave,
            message::MessageView::FormCalColorCancel,
        );
        let lines = form::discovered_lines(
            page,
            (calendars.len() - 1) as usize,
            calendars.last(),
        );
        assert(is_well_titled(page, lines[0]));
        assert(are_well_titled(page, lines));
    }
}

/// The lines at the end of the form have no field of the form.
proof fn lemma_closing_titled(page: page::PageView, path_exists: bool)
    ensures
        are_well_titled(page, form::closing_lines(page, path_exists)),
{
    lemma_discovered_titled(page, page.form_discovered_calendars);
    if let Some(id) = page.editing_source_id {
        if let Some(source) = config::find_source(page.calendar_config.sources, id) {
            if let config::SourceTypeView::CalDav { calendars, .. } = source.source_type {
                lemma_calendars_titled(page, source, Seq::empty(), calendars);
            }
        }
    }
}

/// Every field of the form stands on a line that says what it is for, and so do the choices of the
/// type and of the authentication.
pub proof fn form_says_what_its_fields_are_for(page: page::PageView, path_exists: bool)
    requires
        page.editing,
    ensures
        are_well_titled(page, form::form_shown(page, path_exists)->0.items),
{
    lemma_closing_titled(page, path_exists);
    assert(are_well_titled(page, form::basic_lines(page)));
    assert(are_well_titled(page, form::complaint_lines(page, path_exists)));
    assert(are_well_titled(page, form::credential_lines(page)));
    assert(are_well_titled(page, form::auth_lines(page)));
    assert(are_well_titled(page, form::color_lines(page)));
}

/// The lines of the first discovered calendars come first.
proof fn lemma_discovered_in_order(
    page: page::PageView,
    calendars: Seq<config::CalDavCalendarView>,
    k: int,
)
    requires
        0 <= k < calendars.len(),
    ensures
        ({
            let all = form::all_discovered_lines(page, calendars);
            let at = form::all_discovered_lines(page, calendars.take(k)).len() as int;
            at < all.len() && is_line_of_discovered(all[at], k as usize, calendars[k])
        }),
    decreases calendars.len(),
{
    let front = calendars.drop_last();
    let before = form::all_discovered_lines(page, front);
    let all = form::all_discovered_lines(page, calendars);
    if k < front.len() {
        lemma_discovered_in_order(page, front, k);
        assert(front.take(k) =~= calendars.take(k));
        let at = form::all_discovered_lines(page, front.take(k)).len() as int;
        assert(all[at] == before[at]);
    } else {
        assert(calendars.take(k) =~= front);
        let line = form::discovered_lines(page, k as usize, calendars.last())[0];
        assert(all[before.len() as int] == line);
        assert(line.rows[0].widgets[1] == (widgets::WidgetView::Toggler {
            is_on: calendars[k].enabled,
            on_toggle: message::MessageView::FormToggleCalendar(k as usize),
        }));
    }
}

/// Whether a line is that of a discovered calendar: it has its name, and the switch that belongs to
/// it.
pub open spec fn is_line_of_discovered(
    item: widgets::ItemView,
    index: usize,
    calendar: config::CalDavCalendarView,
) -> bool {
    &&& item.title == labels::TextView::Plain(calendar.display_name)
    &&& shown::line_shows(
        item,
        widgets::WidgetView::Toggler {
            is_on: calendar.enabled,
            on_toggle: message::MessageView::FormToggleCalendar(index),
        },
    )
}

/// While a source with calendars of its own is added, the form lists the discovered calendars in
/// their order, each with its name and the switch that turns it.
pub proof fn form_lists_the_discovered_calendars(
    page: page::PageView,
    path_exists: bool,
    k: int,
) -> (at: int)
    requires
        page.editing,
        page.form_source_type == 0,
        page.editing_source_id is None,
        0 <= k < page.form_discovered_calendars.len(),
    ensures
        ({
            let items = form::form_shown(page, path_exists)->0.items;
            let calendars = page.form_discovered_calendars;
            &&& 0 <= at < items.len()
            &&& is_line_of_discovered(items[at], k as usize, calendars[k])
            &&& at == form::all_discovered_lines(page, calendars.take(k)).len() + items.len() - 1
                - form::all_discovered_lines(page, calendars).len()
        }),
{
    let items = form::form_shown(page, path_exists)->0.items;
    let calendars = page.form_discovered_calendars;
    let all = form::all_discovered_lines(page, calendars);
    let closing = form::closing_lines(page, path_exists);
    let before = items.len() - closing.len();
    lemma_discovered_in_order(page, calendars, k);
    let at = form::all_discovered_lines(page, calendars.take(k)).len() as int;
    let error: int = if page.form_discovery_error is Some {
        1
    } else {
        0
    };
    assert(closing.len() == error + all.len() + 1);
    assert(closing[error + at] == all[at]);
    assert(items[before + (error + at)] == closing[error + at]);
    before + error + at
}

// ── Field by field ───────────────────────────────────────────────────────

/// The text of the page that belongs to a field.
pub open spec fn text_of_field(page: page::PageView, field: TextField) -> Seq<char> {
    match field {
        TextField::Name => page.form_name,
        TextField::Url => page.form_url,
        TextField::Username => page.form_username,
        TextField::Password => page.form_password,
        TextField::Token => page.form_token,
        TextField::OidcIssuer => page.form_oidc_issuer,
        TextField::OidcClientId => page.form_oidc_client_id,
        TextField::OidcClientSecret => page.form_oidc_client_secret,
        TextField::OidcScopes => page.form_oidc_scopes,
        TextField::CaCertPath => page.form_ca_cert_path,
        TextField::Color => page.form_color,
        TextField::DiscoveredColor => page.form_cal_color_input,
        TextField::CalendarColor => page.calendar_color_input,
    }
}

/// A field of the form shows the text that the page holds for it, and hides it exactly if it is a
/// password, a token or a client secret.
pub proof fn fields_show_what_was_written(
    page: page::PageView,
    path_exists: bool,
    field: TextField,
    placeholder: Label,
    value: Seq<char>,
    secret: bool,
    width: u16,
)
    requires
        page.editing,
        shown::shows(
            form::form_shown(page, path_exists)->0.items,
            widgets::WidgetView::Input { field, placeholder, value, secret, width },
        ),
    ensures
        value == text_of_field(page, field),
        secret <==> field == TextField::Password || field == TextField::Token || field
            == TextField::OidcClientSecret,
{
    let w = widgets::WidgetView::Input { field, placeholder, value, secret, width };
    form_shows_what_it_holds(page, path_exists, w);
}

/// The fields that belong to the type and the authentication of the form are there, and those of
/// another authentication are not.
pub proof fn fields_follow_the_choices(page: page::PageView, path_exists: bool)
    requires
        page.editing,
    ensures
        ({
            let items = form::form_shown(page, path_exists)->0.items;
            let web = page.form_source_type == 0 || page.form_source_type == 1;
            let method = page.form_auth_method;
            let password = input(
                TextField::Password,
                Label::Password,
                page.form_password,
                true,
                300,
            );
            let token = input(TextField::Token, Label::Token, page.form_token, true, 300);
            let issuer = input(
                TextField::OidcIssuer,
                Label::OidcIssuer,
                page.form_oidc_issuer,
                false,
                400,
            );
            let color = input(TextField::Color, Label::SourceColor, page.form_color, false, 120);
            &&& shown::shows(
                items,
                input(TextField::Name, Label::SourceName, page.form_name, false, 300),
            )
            &&& shown::shows(items, password) <==> web && method == 1
            &&& shown::shows(items, token) <==> web && method == 2
            &&& shown::shows(items, issuer) <==> web && method == 3
            &&& shown::shows(items, color) <==> page.form_source_type != 0
        }),
{
    form_shows_what_it_holds(
        page,
        path_exists,
        input(TextField::Name, Label::SourceName, page.form_name, false, 300),
    );
    form_shows_what_it_holds(
        page,
        path_exists,
        input(TextField::Password, Label::Password, page.form_password, true, 300),
    );
    form_shows_what_it_holds(
        page,
        path_exists,
        input(TextField::Token, Label::Token, page.form_token, true, 300),
    );
    form_shows_what_it_holds(
        page,
        path_exists,
        input(TextField::OidcIssuer, Label::OidcIssuer, page.form_oidc_issuer, false, 400),
    );
    form_shows_what_it_holds(
        page,
        path_exists,
        input(TextField::Color, Label::SourceColor, page.form_color, false, 120),
    );
}

/// The form can be saved from its own button exactly when that is due: an edit and a source without
/// calendars of its own when the form is valid, and a new source with calendars of its own once
/// some were discovered and one of them is on.
pub proof fn form_is_saved_when_it_is_due(page: page::PageView, path_exists: bool)
    requires
        page.editing,
    ensures
        ({
            let items = form::form_shown(page, path_exists)->0.items;
            let save = |event: message::MessageView|
                widgets::WidgetView::Button {
                    style: ButtonStyle::Suggested,
                    label: Label::Save,
                    on_press: Some(event),
                };
            let calendars = page.form_discovered_calendars;
            let some_on = exists|k: int|
                0 <= k < calendars.len() && (#[trigger] calendars[k]).enabled;
            &&& shown::shows(items, save(message::MessageView::SaveEditSource))
                <==> page.editing_source_id is Some && page.form_valid(path_exists)
            &&& shown::shows(items, save(message::MessageView::SaveSource))
                <==> page.editing_source_id is None && (if page.form_source_type == 0 {
                some_on
            } else {
                page.form_valid(path_exists)
            })
        }),
{
    let save = |event: message::MessageView|
        widgets::WidgetView::Button {
            style: ButtonStyle::Suggested,
            label: Label::Save,
            on_press: Some(event),
        };
    form_shows_what_it_holds(page, path_exists, save(message::MessageView::SaveEditSource));
    form_shows_what_it_holds(page, path_exists, save(message::MessageView::SaveSource));
}

/// A switch in the form for a discovered calendar is on exactly if that calendar is, and each
/// discovered calendar has one while a source is added.
pub proof fn switch_of_a_discovered_calendar_follows_it(
    page: page::PageView,
    path_exists: bool,
    k: int,
    is_on: bool,
)
    requires
        page.editing,
        page.form_source_type == 0,
        page.editing_source_id is None,
        0 <= k < page.form_discovered_calendars.len() <= usize::MAX,
    ensures
        shown::shows(
            form::form_shown(page, path_exists)->0.items,
            widgets::WidgetView::Toggler {
                is_on,
                on_toggle: message::MessageView::FormToggleCalendar(k as usize),
            },
        ) <==> is_on == page.form_discovered_calendars[k].enabled,
{
    let calendars = page.form_discovered_calendars;
    let switch = widgets::WidgetView::Toggler {
        is_on,
        on_toggle: message::MessageView::FormToggleCalendar(k as usize),
    };
    form_shows_what_it_holds(page, path_exists, switch);
    if is_on == calendars[k].enabled {
        assert(discovered_has(page, k as usize, calendars[k], switch));
    }
}

/// Exactly one of the types that are offered is marked, the one that the form stands on, and so it
/// is with the ways to prove who one is.
pub proof fn choices_mark_what_was_chosen(
    page: page::PageView,
    path_exists: bool,
    style: ButtonStyle,
    label: Label,
    n: usize,
)
    requires
        page.editing,
    ensures
        shown::shows(
            form::form_shown(page, path_exists)->0.items,
            widgets::WidgetView::Button {
                style,
                label,
                on_press: Some(message::MessageView::FormSourceType(n)),
            },
        ) ==> n <= 2 && (style == ButtonStyle::Suggested <==> page.form_source_type == n) && (label
            == Label::TypeCalDav <==> n == 0) && (label == Label::TypeIcsUrl <==> n == 1),
        shown::shows(
            form::form_shown(page, path_exists)->0.items,
            widgets::WidgetView::Button {
                style,
                label,
                on_press: Some(message::MessageView::FormAuth(n)),
            },
        ) ==> n <= 3 && (style == ButtonStyle::Suggested <==> page.form_auth_method == n) && (label
            == Label::AuthNone <==> n == 0) && (label == Label::AuthBasic <==> n == 1) && (label
            == Label::AuthBearer <==> n == 2),
{
    form_shows_what_it_holds(
        page,
        path_exists,
        widgets::WidgetView::Button {
            style,
            label,
            on_press: Some(message::MessageView::FormSourceType(n)),
        },
    );
    form_shows_what_it_holds(
        page,
        path_exists,
        widgets::WidgetView::Button {
            style,
            label,
            on_press: Some(message::MessageView::FormAuth(n)),
        },
    );
}

} // verus!
