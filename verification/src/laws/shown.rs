//! What the list of sources and the settings show, told by what the page holds.

use vstd::prelude::*;

use crate::color;
use crate::config;
use crate::config::EncryptionMode;
use crate::labels;
use crate::labels::Label;
use crate::laws::events;
use crate::message;
use crate::page;
use crate::sections;
use crate::sections::ColorTarget;
use crate::text;
use crate::update;
use crate::widgets;
use crate::widgets::{ButtonStyle, Icon, TextField};

verus! {

// ── How the laws speak ───────────────────────────────────────────────────

/// Whether a control stands on a line.
pub open spec fn line_shows(item: widgets::ItemView, w: widgets::WidgetView) -> bool {
    exists|r: int, k: int|
        0 <= r < item.rows.len() && 0 <= k < item.rows[r].widgets.len()
            && #[trigger] item.rows[r].widgets[k] == w
}

/// Whether a control stands on some line.
pub open spec fn shows(items: Seq<widgets::ItemView>, w: widgets::WidgetView) -> bool {
    exists|i: int| 0 <= i < items.len() && line_shows(#[trigger] items[i], w)
}

/// What stands on the lines of two lists.
pub proof fn lemma_shows_both(
    a: Seq<widgets::ItemView>,
    b: Seq<widgets::ItemView>,
    w: widgets::WidgetView,
)
    ensures
        shows(a + b, w) <==> shows(a, w) || shows(b, w),
{
    if shows(a, w) {
        let i = choose|i: int| 0 <= i < a.len() && line_shows(#[trigger] a[i], w);
        assert((a + b)[i] == a[i]);
    }
    if shows(b, w) {
        let i = choose|i: int| 0 <= i < b.len() && line_shows(#[trigger] b[i], w);
        assert((a + b)[a.len() + i] == b[i]);
    }
    if shows(a + b, w) {
        let i = choose|i: int| 0 <= i < (a + b).len() && line_shows(#[trigger] (a + b)[i], w);
        if i < a.len() {
            assert(a[i] == (a + b)[i]);
        } else {
            assert(b[i - a.len()] == (a + b)[i]);
        }
    }
}

/// What stands on one line more.
pub proof fn lemma_shows_one_more(
    a: Seq<widgets::ItemView>,
    item: widgets::ItemView,
    w: widgets::WidgetView,
)
    ensures
        shows(a.push(item), w) <==> shows(a, w) || line_shows(item, w),
        shows(seq![item], w) <==> line_shows(item, w),
        !shows(Seq::empty(), w),
{
    assert(a.push(item) =~= a + seq![item]);
    lemma_shows_both(a, seq![item], w);
    if line_shows(item, w) {
        assert(seq![item][0] == item);
    }
}

/// What stands on a line with one row.
pub proof fn lemma_one_row(item: widgets::ItemView, w: widgets::WidgetView)
    requires
        item.rows.len() == 1,
    ensures
        line_shows(item, w) <==> item.rows[0].widgets.contains(w),
{
    let row = item.rows[0].widgets;
    if row.contains(w) {
        let k = row.index_of(w);
        assert(item.rows[0].widgets[k] == w);
    }
}

/// What stands on a line with two rows.
pub proof fn lemma_two_rows(item: widgets::ItemView, w: widgets::WidgetView)
    requires
        item.rows.len() == 2,
    ensures
        line_shows(item, w) <==> item.rows[0].widgets.contains(w) || item.rows[1].widgets.contains(
            w,
        ),
{
    if item.rows[0].widgets.contains(w) {
        let k = item.rows[0].widgets.index_of(w);
        assert(item.rows[0].widgets[k] == w);
    }
    if item.rows[1].widgets.contains(w) {
        let k = item.rows[1].widgets.index_of(w);
        assert(item.rows[1].widgets[k] == w);
    }
}

/// What is in two rows.
pub proof fn lemma_in_both(
    a: Seq<widgets::WidgetView>,
    b: Seq<widgets::WidgetView>,
    w: widgets::WidgetView,
)
    ensures
        (a + b).contains(w) <==> a.contains(w) || b.contains(w),
{
    if a.contains(w) {
        assert((a + b)[a.index_of(w)] == w);
    }
    if b.contains(w) {
        assert((a + b)[a.len() + b.index_of(w)] == w);
    }
    if (a + b).contains(w) {
        let i = (a + b).index_of(w);
        if i < a.len() {
            assert(a[i] == w);
        } else {
            assert(b[i - a.len()] == w);
        }
    }
}

/// What is in a row of one, two, three or four controls.
pub proof fn lemma_in_few(
    a: widgets::WidgetView,
    b: widgets::WidgetView,
    c: widgets::WidgetView,
    d: widgets::WidgetView,
    w: widgets::WidgetView,
)
    ensures
        seq![a].contains(w) <==> w == a,
        seq![a, b].contains(w) <==> w == a || w == b,
        seq![a, b, c].contains(w) <==> w == a || w == b || w == c,
        seq![a, b, c, d].contains(w) <==> w == a || w == b || w == c || w == d,
        !Seq::<widgets::WidgetView>::empty().contains(w),
{
    assert(seq![a][0] == a);
    assert(seq![a, b][0] == a && seq![a, b][1] == b);
    assert(seq![a, b, c][0] == a && seq![a, b, c][1] == b && seq![a, b, c][2] == c);
    assert(seq![a, b, c, d][0] == a && seq![a, b, c, d][1] == b && seq![a, b, c, d][2] == c
        && seq![a, b, c, d][3] == d);
}

// ── Colors that are offered ──────────────────────────────────────────────

/// Whether a control belongs to the editing of a color, which stands on this one so far: one button
/// for each color that is offered, marked where it is the one, a field with the color, and a button
/// each to save and to cancel.
pub open spec fn is_color_editor(
    w: widgets::WidgetView,
    target: ColorTarget,
    field: TextField,
    current: Seq<char>,
    save: message::MessageView,
    cancel: message::MessageView,
) -> bool {
    match w {
        widgets::WidgetView::ColorButton { style, color, on_press } => {
            &&& color::preset_colors().contains(color)
            &&& match target {
                ColorTarget::Calendar => on_press == message::MessageView::CalendarColorPreset(
                    color,
                ) && (style == ButtonStyle::Suggested <==> current == color),
                ColorTarget::Source => on_press == message::MessageView::FormColor(color) && (style
                    == ButtonStyle::Suggested <==> same_but_for_case(current, color)),
                ColorTarget::Discovered => on_press == message::MessageView::FormCalColorPreset(
                    color,
                ) && (style == ButtonStyle::Suggested <==> same_but_for_case(current, color)),
            }
        },
        widgets::WidgetView::Input { field: shown, placeholder, value, secret, width } => shown
            == field && placeholder == Label::SourceColor && value == current && !secret && width
            == 100,
        widgets::WidgetView::Button { style, label, on_press } => {
            &&& style == ButtonStyle::Standard
            &&& (label == Label::Save && on_press == Some(save)) || (label == Label::Cancel
                && on_press == Some(cancel))
        },
        _ => false,
    }
}

/// Whether two texts are the same, but for the case of the letters of ASCII.
pub open spec fn same_but_for_case(a: Seq<char>, b: Seq<char>) -> bool {
    &&& a.len() == b.len()
    &&& forall|i: int|
        0 <= i < a.len() ==> {
            ||| #[trigger] a[i] == b[i]
            ||| 'A' <= a[i] <= 'Z' && b[i] as int == a[i] as int + 32
            ||| 'A' <= b[i] <= 'Z' && a[i] as int == b[i] as int + 32
        }
}

/// Two texts have the same small letters exactly if they are the same but for the case of letters.
pub proof fn lemma_same_but_for_case(a: Seq<char>, b: Seq<char>)
    ensures
        text::lowered(a) == text::lowered(b) <==> same_but_for_case(a, b),
{
    let x = text::lowered(a);
    let y = text::lowered(b);
    if x == y {
        assert(x.len() == y.len());
        assert forall|i: int| 0 <= i < a.len() implies {
            ||| #[trigger] a[i] == b[i]
            ||| 'A' <= a[i] <= 'Z' && b[i] as int == a[i] as int + 32
            ||| 'A' <= b[i] <= 'Z' && a[i] as int == b[i] as int + 32
        } by {
            assert(x[i] == y[i]);
        }
    }
    if same_but_for_case(a, b) {
        assert forall|i: int| 0 <= i < a.len() implies x[i] == y[i] by {
            assert(a[i] == b[i] || ('A' <= a[i] <= 'Z' && b[i] as int == a[i] as int + 32) || (
            'A' <= b[i] <= 'Z' && a[i] as int == b[i] as int + 32));
        }
        assert(x =~= y);
    }
}

/// The buttons of the colors that are offered, for any use of them.
pub proof fn lemma_presets(target: ColorTarget, current: Seq<char>, w: widgets::WidgetView)
    ensures
        sections::preset_row(target, current).widgets.contains(w) <==> w is ColorButton
            && is_color_editor(
            w,
            target,
            TextField::Name,
            current,
            message::MessageView::CancelForm,
            message::MessageView::CancelForm,
        ),
{
    let row = sections::preset_buttons(target, current);
    let colors = color::preset_colors();
    if row.contains(w) {
        let i = row.index_of(w);
        lemma_same_but_for_case(current, colors[i]);
        assert(colors.contains(colors[i]));
    }
    if let widgets::WidgetView::ColorButton { style, color, on_press } = w {
        if colors.contains(color) {
            let i = colors.index_of(color);
            lemma_same_but_for_case(current, color);
            assert(row[i] == sections::preset_button(target, current, color));
        }
    }
}

/// What stands on the line in which a color is edited.
pub proof fn lemma_color_editor(
    target: ColorTarget,
    field: TextField,
    current: Seq<char>,
    save: message::MessageView,
    cancel: message::MessageView,
    w: widgets::WidgetView,
)
    ensures
        line_shows(sections::color_editor(target, field, current, save, cancel), w)
            <==> is_color_editor(w, target, field, current, save, cancel),
{
    let item = sections::color_editor(target, field, current, save, cancel);
    lemma_two_rows(item, w);
    lemma_presets(target, current, w);
    let row = item.rows[1].widgets;
    lemma_in_few(row[0], row[1], row[2], w, w);
    assert(row =~= seq![row[0], row[1], row[2]]);
}

// ── The list of sources ──────────────────────────────────────────────────

/// Whether a control belongs to a calendar of a saved source: a square in its color, or in that of
/// its source where it has none, a switch that is on exactly if the calendar is, a button to edit
/// its color, and, while that is done, the controls of the editing.
pub open spec fn calendar_has(
    page: page::PageView,
    source: config::SourceConfigView,
    calendar: config::CalDavCalendarView,
    w: widgets::WidgetView,
) -> bool {
    ||| w matches widgets::WidgetView::Swatch { size, color } && size == 10 && color == (
    if calendar.color.len() == 0 {
        source.color
    } else {
        calendar.color
    })
    ||| w matches widgets::WidgetView::Toggler { is_on, on_toggle } && on_toggle
        == message::MessageView::ToggleCalendar(source.id, calendar.href) && is_on
        == calendar.enabled
    ||| w matches widgets::WidgetView::IconButton { icon, on_press } && on_press
        == message::MessageView::EditCalendarColor(source.id, calendar.href) && icon == Icon::Color
    ||| page.editing_calendar_color == Some((source.id, calendar.href)) && is_color_editor(
        w,
        ColorTarget::Calendar,
        TextField::CalendarColor,
        page.calendar_color_input,
        message::MessageView::SaveCalendarColor,
        message::MessageView::CancelCalendarColor,
    )
}

/// Whether a control belongs to a source itself: a switch that is on exactly if the source is, the
/// buttons to edit and to remove it, a square in its color unless it has calendars of its own, a
/// button to sign in if it does so through OIDC, and one to discover while it has no calendars.
pub open spec fn source_has(source: config::SourceConfigView, w: widgets::WidgetView) -> bool {
    match w {
        widgets::WidgetView::Toggler { is_on, on_toggle } => is_on == source.enabled && on_toggle
            == message::MessageView::ToggleSource(source.id),
        widgets::WidgetView::Swatch { size, color } => size == 12 && color == source.color
            && !(source.source_type is CalDav),
        widgets::WidgetView::IconButton { icon, on_press } => match on_press {
            message::MessageView::EditSource(id) => id == source.id && icon == Icon::Edit,
            message::MessageView::RemoveSource(id) => id == source.id && icon == Icon::Remove,
            message::MessageView::OidcLogin(id) => id == source.id && icon == Icon::SignIn
                && events::auth_in(source.source_type) matches Some(
                config::AuthMethodView::Oidc { .. },
            ),
            message::MessageView::Discover(id) => id == source.id && icon == Icon::Discover
                && (source.source_type matches config::SourceTypeView::CalDav { calendars, .. }
                && calendars.len() == 0),
            _ => false,
        },
        _ => false,
    }
}

/// Whether a control starts something for a source, on a line below it: a discovery of calendars,
/// which cannot be started while one is under way, or the sign-in that it still needs.
pub open spec fn source_offers(
    page: page::PageView,
    source: config::SourceConfigView,
    w: widgets::WidgetView,
) -> bool {
    ||| source.source_type is CalDav && w == (widgets::WidgetView::Button {
        style: ButtonStyle::Standard,
        label: if page.discovering_source == Some(source.id) {
            Label::Discovering
        } else {
            Label::Discover
        },
        on_press: if page.discovering_source == Some(source.id) {
            None
        } else {
            Some(message::MessageView::Discover(source.id))
        },
    })
    ||| (events::auth_in(source.source_type) matches Some(
        config::AuthMethodView::Oidc { has_token, .. },
    ) && !has_token) && w == (widgets::WidgetView::Button {
        style: ButtonStyle::Suggested,
        label: Label::OidcLogin,
        on_press: Some(message::MessageView::OidcLogin(source.id)),
    })
}

/// Whether a control belongs to a source or to one of its calendars.
pub open spec fn source_shows(
    page: page::PageView,
    source: config::SourceConfigView,
    w: widgets::WidgetView,
) -> bool {
    ||| source_has(source, w)
    ||| source_offers(page, source, w)
    ||| source.source_type matches config::SourceTypeView::CalDav { calendars, .. } && some_has(
        page,
        source,
        calendars,
        w,
    )
}

/// Whether a control belongs to one of these calendars.
pub open spec fn some_has(
    page: page::PageView,
    source: config::SourceConfigView,
    calendars: Seq<config::CalDavCalendarView>,
    w: widgets::WidgetView,
) -> bool {
    exists|k: int|
        0 <= k < calendars.len() && calendar_has(page, source, #[trigger] calendars[k], w)
}

/// What stands on the lines of a calendar of a saved source.
proof fn lemma_calendar_lines(
    page: page::PageView,
    source: config::SourceConfigView,
    indent: Seq<char>,
    calendar: config::CalDavCalendarView,
    w: widgets::WidgetView,
)
    ensures
        shows(sections::calendar_lines(page, source, indent, calendar), w) <==> calendar_has(
            page,
            source,
            calendar,
            w,
        ),
{
    let lines = sections::calendar_lines(page, source, indent, calendar);
    let line = sections::calendar_line(source, indent + calendar.display_name, calendar);
    let row = line.rows[0].widgets;
    lemma_one_row(line, w);
    lemma_in_few(row[0], row[1], row[2], w, w);
    assert(row =~= seq![row[0], row[1], row[2]]);
    lemma_shows_one_more(seq![line], line, w);
    if page.editing_calendar_color == Some((source.id, calendar.href)) {
        let editor = sections::color_editor(
            ColorTarget::Calendar,
            TextField::CalendarColor,
            page.calendar_color_input,
            message::MessageView::SaveCalendarColor,
            message::MessageView::CancelCalendarColor,
        );
        lemma_color_editor(
            ColorTarget::Calendar,
            TextField::CalendarColor,
            page.calendar_color_input,
            message::MessageView::SaveCalendarColor,
            message::MessageView::CancelCalendarColor,
            w,
        );
        lemma_shows_one_more(seq![line], editor, w);
        assert(lines =~= seq![line].push(editor));
    }
}

/// What stands on the lines of the calendars of a saved source.
pub proof fn lemma_all_calendar_lines(
    page: page::PageView,
    source: config::SourceConfigView,
    indent: Seq<char>,
    calendars: Seq<config::CalDavCalendarView>,
    w: widgets::WidgetView,
)
    ensures
        shows(sections::all_calendar_lines(page, source, indent, calendars), w) <==> some_has(
            page,
            source,
            calendars,
            w,
        ),
    decreases calendars.len(),
{
    if calendars.len() > 0 {
        let front = calendars.drop_last();
        let last = calendars.last();
        lemma_all_calendar_lines(page, source, indent, front, w);
        lemma_calendar_lines(page, source, indent, last, w);
        lemma_shows_both(
            sections::all_calendar_lines(page, source, indent, front),
            sections::calendar_lines(page, source, indent, last),
            w,
        );
        if some_has(page, source, front, w) {
            let k = choose|k: int|
                0 <= k < front.len() && calendar_has(page, source, #[trigger] front[k], w);
            assert(calendars[k] == front[k]);
        }
        assert(calendars[calendars.len() - 1] == last);
        if some_has(page, source, calendars, w) {
            let k = choose|k: int|
                0 <= k < calendars.len() && calendar_has(page, source, #[trigger] calendars[k], w);
            if k < calendars.len() - 1 {
                assert(front[k] == calendars[k]);
            }
        }
    }
}

/// What stands on the line of a source.
proof fn lemma_source_line(source: config::SourceConfigView, w: widgets::WidgetView)
    ensures
        line_shows(sections::source_line(source), w) <==> source_has(source, w),
{
    let swatch = if source.source_type is CalDav {
        Seq::<widgets::WidgetView>::empty()
    } else {
        seq![widgets::WidgetView::Swatch { size: 12, color: source.color }]
    };
    let sign_in = if source.source_type.uses_oidc() {
        seq![
            widgets::WidgetView::IconButton {
                icon: Icon::SignIn,
                on_press: message::MessageView::OidcLogin(source.id),
            },
        ]
    } else {
        Seq::<widgets::WidgetView>::empty()
    };
    let discover = match source.source_type {
        config::SourceTypeView::CalDav { calendars, .. } if calendars.len() == 0 => seq![
            widgets::WidgetView::IconButton {
                icon: Icon::Discover,
                on_press: message::MessageView::Discover(source.id),
            },
        ],
        _ => Seq::<widgets::WidgetView>::empty(),
    };
    let controls = sections::source_controls(source);
    let rest = controls.skip((swatch + sign_in + discover).len() as int);
    lemma_one_row(sections::source_line(source), w);
    lemma_in_both(swatch, sign_in, w);
    lemma_in_both(swatch + sign_in, discover, w);
    lemma_in_both(swatch + sign_in + discover, rest, w);
    assert(controls =~= swatch + sign_in + discover + rest);
    lemma_in_few(rest[0], rest[1], rest[2], w, w);
    assert(rest =~= seq![rest[0], rest[1], rest[2]]);
    lemma_in_few(widgets::WidgetView::Swatch { size: 12, color: source.color }, w, w, w, w);
    lemma_in_few(
        widgets::WidgetView::IconButton {
            icon: Icon::SignIn,
            on_press: message::MessageView::OidcLogin(source.id),
        },
        w,
        w,
        w,
        w,
    );
    lemma_in_few(
        widgets::WidgetView::IconButton {
            icon: Icon::Discover,
            on_press: message::MessageView::Discover(source.id),
        },
        w,
        w,
        w,
        w,
    );
}

/// What stands on the lines of a source.
proof fn lemma_source_lines(
    page: page::PageView,
    source: config::SourceConfigView,
    w: widgets::WidgetView,
)
    ensures
        shows(sections::source_lines(page, source), w) <==> source_shows(page, source, w),
{
    let calendars = match source.source_type {
        config::SourceTypeView::CalDav { calendars, .. } => sections::all_calendar_lines(
            page,
            source,
            sections::INDENT@,
            calendars,
        ).push(sections::discover_line(page, source.id)),
        _ => Seq::empty(),
    };
    let line = sections::source_line(source);
    let all = sections::source_lines(page, source);
    let login = all.skip((seq![line] + calendars).len() as int);
    assert(all =~= seq![line] + calendars + login);
    lemma_source_line(source, w);
    lemma_shows_one_more(seq![line], line, w);
    lemma_shows_both(seq![line], calendars, w);
    lemma_shows_both(seq![line] + calendars, login, w);
    if let config::SourceTypeView::CalDav { calendars: own, .. } = source.source_type {
        let discover = sections::discover_line(page, source.id);
        lemma_all_calendar_lines(page, source, sections::INDENT@, own, w);
        lemma_shows_one_more(
            sections::all_calendar_lines(page, source, sections::INDENT@, own),
            discover,
            w,
        );
        lemma_one_row(discover, w);
        lemma_in_few(discover.rows[0].widgets[0], w, w, w, w);
        assert(discover.rows[0].widgets =~= seq![discover.rows[0].widgets[0]]);
    }
    if login.len() > 0 {
        let item = login[0];
        assert(login =~= seq![item]);
        lemma_shows_one_more(seq![item], item, w);
        lemma_one_row(item, w);
        lemma_in_few(item.rows[0].widgets[0], w, w, w, w);
        assert(item.rows[0].widgets =~= seq![item.rows[0].widgets[0]]);
    } else {
        lemma_shows_one_more(login, line, w);
    }
}

/// Whether a control belongs to one of these sources.
pub open spec fn some_source_shows(
    page: page::PageView,
    all: Seq<config::SourceConfigView>,
    w: widgets::WidgetView,
) -> bool {
    exists|i: int| 0 <= i < all.len() && source_shows(page, #[trigger] all[i], w)
}

/// What stands on the lines of sources.
proof fn lemma_all_source_lines(
    page: page::PageView,
    all: Seq<config::SourceConfigView>,
    w: widgets::WidgetView,
)
    ensures
        shows(sections::all_source_lines(page, all), w) <==> some_source_shows(page, all, w),
    decreases all.len(),
{
    if all.len() > 0 {
        let front = all.drop_last();
        lemma_all_source_lines(page, front, w);
        lemma_source_lines(page, all.last(), w);
        lemma_shows_both(
            sections::all_source_lines(page, front),
            sections::source_lines(page, all.last()),
            w,
        );
        if some_source_shows(page, front, w) {
            let i = choose|i: int|
                0 <= i < front.len() && source_shows(page, #[trigger] front[i], w);
            assert(all[i] == front[i]);
        }
        assert(all[all.len() - 1] == all.last());
        if some_source_shows(page, all, w) {
            let i = choose|i: int| 0 <= i < all.len() && source_shows(page, #[trigger] all[i], w);
            if i < all.len() - 1 {
                assert(front[i] == all[i]);
            }
        }
    }
}

/// The list shows for every source and every calendar what belongs to it, as it stands, and besides
/// that only the button that adds a source. It is shown exactly while the form is closed.
pub proof fn list_shows_the_sources_as_they_stand(page: page::PageView, w: widgets::WidgetView)
    requires
        !(w is Space),
    ensures
        sections::sources_shown(page) is Some <==> !page.editing,
        sections::sources_shown(page) matches Some(section) ==> section.title == Label::Sources && (
        shows(section.items, w) <==> some_source_shows(page, page.calendar_config.sources, w) || w
            == (widgets::WidgetView::Button {
            style: ButtonStyle::Standard,
            label: Label::AddSource,
            on_press: Some(message::MessageView::AddSource),
        })),
{
    let all = page.calendar_config.sources;
    if !page.editing {
        let items = sections::sources_shown(page)->0.items;
        let list = if all.len() == 0 {
            seq![
                sections::add_source_line(labels::TextView::Label(Label::NoSources)),
            ]
        } else {
            sections::all_source_lines(page, all).push(
                sections::add_source_line(widgets::no_title()),
            )
        };
        let error = items.skip(list.len() as int);
        assert(items =~= list + error);
        lemma_shows_both(list, error, w);
        lemma_all_source_lines(page, all, w);
        let add = list.last();
        lemma_shows_one_more(sections::all_source_lines(page, all), add, w);
        lemma_one_row(add, w);
        lemma_in_few(add.rows[0].widgets[0], w, w, w, w);
        assert(add.rows[0].widgets =~= seq![add.rows[0].widgets[0]]);
        if let Some(e) = page.discovery_error {
            let item = sections::error_line(e);
            assert(error =~= seq![item]);
            lemma_shows_one_more(error, item, w);
            lemma_one_row(item, w);
            lemma_in_few(item.rows[0].widgets[0], w, w, w, w);
            assert(item.rows[0].widgets =~= seq![item.rows[0].widgets[0]]);
        } else {
            assert(error =~= Seq::empty());
            lemma_shows_one_more(error, add, w);
        }
    }
}

/// The switch of a source is on exactly if the source is: after a toggle it shows the opposite of
/// what it showed before, and the switches of all other sources show the same.
pub proof fn switch_of_a_source_follows_it(
    page: page::PageView,
    id: Seq<char>,
    i: int,
    other: Seq<char>,
    is_on: bool,
    facts: update::FactsView,
)
    requires
        !page.editing,
        events::means(page.calendar_config.sources, id, i),
        forall|j: int|
            0 <= j < page.calendar_config.sources.len() && j != i ==> (
            #[trigger] page.calendar_config.sources[j]).id != id,
        other != id,
    ensures
        ({
            let before = sections::sources_shown(page)->0.items;
            let toggled = page.updated(message::MessageView::ToggleSource(id), facts).0;
            let after = sections::sources_shown(toggled)->0.items;
            let switch = |is_on: bool, id: Seq<char>|
                widgets::WidgetView::Toggler {
                    is_on,
                    on_toggle: message::MessageView::ToggleSource(id),
                };
            let enabled = page.calendar_config.sources[i].enabled;
            &&& shows(before, switch(enabled, id)) && !shows(before, switch(!enabled, id))
            &&& shows(after, switch(!enabled, id)) && !shows(after, switch(enabled, id))
            &&& shows(after, switch(is_on, other)) <==> shows(before, switch(is_on, other))
        }),
{
    let toggled = page.updated(message::MessageView::ToggleSource(id), facts).0;
    let enabled = page.calendar_config.sources[i].enabled;
    let switch = |is_on: bool, id: Seq<char>|
        widgets::WidgetView::Toggler { is_on, on_toggle: message::MessageView::ToggleSource(id) };
    let before = page.calendar_config.sources;
    let after = toggled.calendar_config.sources;
    events::toggle_turns_one_source(page, id, i, facts);
    list_shows_the_sources_as_they_stand(page, switch(enabled, id));
    list_shows_the_sources_as_they_stand(page, switch(!enabled, id));
    list_shows_the_sources_as_they_stand(page, switch(is_on, other));
    list_shows_the_sources_as_they_stand(toggled, switch(enabled, id));
    list_shows_the_sources_as_they_stand(toggled, switch(!enabled, id));
    list_shows_the_sources_as_they_stand(toggled, switch(is_on, other));
    assert(source_shows(page, before[i], switch(enabled, id)));
    assert(source_shows(toggled, after[i], switch(!enabled, id)));
    if some_source_shows(page, before, switch(is_on, other)) {
        let j = choose|j: int|
            0 <= j < before.len() && source_shows(page, #[trigger] before[j], switch(is_on, other));
        assert(source_shows(toggled, after[j], switch(is_on, other)));
    }
    if some_source_shows(toggled, after, switch(is_on, other)) {
        let j = choose|j: int|
            0 <= j < after.len() && source_shows(
                toggled,
                #[trigger] after[j],
                switch(is_on, other),
            );
        assert(source_shows(page, before[j], switch(is_on, other)));
    }
}

/// Whether a line is that of a source: it has its name, says of which type it is, and holds what
/// belongs to it.
pub open spec fn is_line_of_source(
    item: widgets::ItemView,
    source: config::SourceConfigView,
) -> bool {
    &&& item.title == labels::TextView::Plain(source.name)
    &&& item.description == Some(
        labels::TextView::Label(
            match source.source_type {
                config::SourceTypeView::CalDav { .. } => Label::TypeCalDav,
                config::SourceTypeView::IcsUrl { .. } => Label::TypeIcsUrl,
                config::SourceTypeView::IcsFile { .. } => Label::TypeIcsFile,
            },
        ),
    )
    &&& line_shows(
        item,
        widgets::WidgetView::Toggler {
            is_on: source.enabled,
            on_toggle: message::MessageView::ToggleSource(source.id),
        },
    )
}

/// Whether a line is that of a calendar: it has its name, and the switch that belongs to it.
pub open spec fn is_line_of_calendar(
    item: widgets::ItemView,
    indent: Seq<char>,
    source: config::SourceConfigView,
    calendar: config::CalDavCalendarView,
) -> bool {
    &&& item.title == labels::TextView::Plain(indent + calendar.display_name)
    &&& item.description is None
    &&& line_shows(
        item,
        widgets::WidgetView::Toggler {
            is_on: calendar.enabled,
            on_toggle: message::MessageView::ToggleCalendar(source.id, calendar.href),
        },
    )
}

/// The lines of the first calendars come first.
pub proof fn lemma_calendar_lines_in_order(
    page: page::PageView,
    source: config::SourceConfigView,
    indent: Seq<char>,
    calendars: Seq<config::CalDavCalendarView>,
    k: int,
)
    requires
        0 <= k < calendars.len(),
    ensures
        ({
            let all = sections::all_calendar_lines(page, source, indent, calendars);
            let at = sections::all_calendar_lines(page, source, indent, calendars.take(k)).len();
            at < all.len() && is_line_of_calendar(all[at as int], indent, source, calendars[k])
        }),
    decreases calendars.len(),
{
    let front = calendars.drop_last();
    let before = sections::all_calendar_lines(page, source, indent, front);
    let all = sections::all_calendar_lines(page, source, indent, calendars);
    if k < front.len() {
        lemma_calendar_lines_in_order(page, source, indent, front, k);
        assert(front.take(k) =~= calendars.take(k));
        let at = sections::all_calendar_lines(page, source, indent, front.take(k)).len();
        assert(all[at as int] == before[at as int]);
    } else {
        assert(calendars.take(k) =~= front);
        let line = sections::calendar_line(
            source,
            indent + calendars.last().display_name,
            calendars.last(),
        );
        assert(all[before.len() as int] == line);
        assert(line.rows[0].widgets[1] == (widgets::WidgetView::Toggler {
            is_on: calendars[k].enabled,
            on_toggle: message::MessageView::ToggleCalendar(source.id, calendars[k].href),
        }));
    }
}

/// The lines of the first sources come first.
proof fn lemma_source_lines_in_order(
    page: page::PageView,
    all: Seq<config::SourceConfigView>,
    i: int,
)
    requires
        0 <= i < all.len(),
    ensures
        ({
            let lines = sections::all_source_lines(page, all);
            let at = sections::all_source_lines(page, all.take(i)).len() as int;
            let own = sections::source_lines(page, all[i]);
            at + own.len() <= lines.len() && lines.subrange(at, at + own.len()) == own
        }),
    decreases all.len(),
{
    let front = all.drop_last();
    let before = sections::all_source_lines(page, front);
    let lines = sections::all_source_lines(page, all);
    let own = sections::source_lines(page, all[i]);
    if i < front.len() {
        lemma_source_lines_in_order(page, front, i);
        assert(front.take(i) =~= all.take(i));
        let at = sections::all_source_lines(page, front.take(i)).len() as int;
        assert(lines.subrange(at, at + own.len()) =~= before.subrange(at, at + own.len()));
    } else {
        assert(all.take(i) =~= front);
        let at = before.len() as int;
        assert(lines.subrange(at, at + own.len()) =~= own);
    }
}

/// The sources stand in the list in their order, each with its name and its type, and below each
/// its calendars in their order, indented. A calendar that comes later stands further down, and so
/// does a source.
pub proof fn list_keeps_the_order(page: page::PageView, i: int, k: int)
    requires
        !page.editing,
        0 <= i < page.calendar_config.sources.len(),
    ensures
        ({
            let all = page.calendar_config.sources;
            let items = sections::sources_shown(page)->0.items;
            let at = sections::all_source_lines(page, all.take(i)).len() as int;
            let end = sections::all_source_lines(page, all.take(i + 1)).len();
            &&& at < end < items.len()
            &&& is_line_of_source(items[at], all[i])
            &&& all[i].source_type matches config::SourceTypeView::CalDav { calendars, .. } ==> 0
                <= k < calendars.len() ==> {
                let below = sections::all_calendar_lines(
                    page,
                    all[i],
                    sections::INDENT@,
                    calendars.take(k),
                ).len();
                &&& at + 1 + below < end
                &&& is_line_of_calendar(items[at + 1 + below], "    "@, all[i], calendars[k])
            }
        }),
{
    let all = page.calendar_config.sources;
    let items = sections::sources_shown(page)->0.items;
    let lines = sections::all_source_lines(page, all);
    let own = sections::source_lines(page, all[i]);
    let at = sections::all_source_lines(page, all.take(i)).len() as int;
    lemma_source_lines_in_order(page, all, i);
    assert(all.take(i + 1).drop_last() =~= all.take(i));
    assert forall|j: int| 0 <= j < own.len() implies items[at + j] == own[j] by {
        assert(lines.subrange(at, at + own.len())[j] == own[j]);
        assert(items[at + j] == lines[at + j]);
    }
    assert(items[at + 0] == own[0]);
    lemma_source_line(
        all[i],
        widgets::WidgetView::Toggler {
            is_on: all[i].enabled,
            on_toggle: message::MessageView::ToggleSource(all[i].id),
        },
    );
    if let config::SourceTypeView::CalDav { calendars, .. } = all[i].source_type {
        if 0 <= k < calendars.len() {
            lemma_calendar_lines_in_order(page, all[i], sections::INDENT@, calendars, k);
            let below = sections::all_calendar_lines(
                page,
                all[i],
                sections::INDENT@,
                calendars.take(k),
            ).len() as int;
            let under = sections::all_calendar_lines(page, all[i], sections::INDENT@, calendars);
            assert(own[1 + below] == under[below]);
            assert(items[at + (1 + below)] == own[1 + below]);
        }
    }
}

/// The list ends with the button that adds a source, which says so where there is none yet, and
/// below it with the error of a discovery, if there is one.
pub proof fn list_ends_with_the_error(page: page::PageView)
    requires
        !page.editing,
    ensures
        ({
            let items = sections::sources_shown(page)->0.items;
            let lines = sections::all_source_lines(page, page.calendar_config.sources);
            let last = items[lines.len() as int];
            &&& items.len() == lines.len() + if page.discovery_error is Some {
                2int
            } else {
                1int
            }
            &&& last.title == if page.calendar_config.sources.len() == 0 {
                labels::TextView::Label(Label::NoSources)
            } else {
                labels::TextView::Plain(Seq::empty())
            }
            &&& line_shows(
                last,
                widgets::WidgetView::Button {
                    style: ButtonStyle::Standard,
                    label: Label::AddSource,
                    on_press: Some(message::MessageView::AddSource),
                },
            )
            &&& page.discovery_error matches Some(error) ==> items.last().title
                == labels::TextView::Label(Label::DiscoverError) && items.last().description
                == Some(error)
        }),
{
    let items = sections::sources_shown(page)->0.items;
    let lines = sections::all_source_lines(page, page.calendar_config.sources);
    let last = items[lines.len() as int];
    assert(last.rows[0].widgets[0] == (widgets::WidgetView::Button {
        style: ButtonStyle::Standard,
        label: Label::AddSource,
        on_press: Some(message::MessageView::AddSource),
    }));
}

// ── Settings ─────────────────────────────────────────────────────────────

/// The settings show the interval and the count as they stand, within their limits, and mark
/// exactly the encryption mode that is chosen. Pressing the button of a mode chooses the mode that
/// the button names. They are shown exactly while the form is closed.
pub proof fn settings_are_shown_as_they_stand(page: page::PageView, facts: update::FactsView)
    ensures
        sections::settings_shown(page) is Some <==> !page.editing,
        sections::settings_shown(page) matches Some(section) ==> {
            let items = section.items;
            let settings = page.calendar_config;
            &&& section.title == Label::SyncSettings
            &&& items.len() == 3
            &&& items[0].title == labels::TextView::Label(Label::SyncInterval)
            &&& items[0].rows.len() == 1 && items[0].rows[0].widgets.len() == 1
            &&& items[0].rows[0].widgets[0] matches widgets::WidgetView::IntervalSpin {
                label,
                value,
                step,
                min,
                max,
                ..
            } && value == settings.sync_interval_minutes && label == text::decimal(value as nat)
                && step == 1 && min == 1 && max == 1440
            &&& items[1].title == labels::TextView::Label(Label::UpcomingCount)
            &&& items[1].rows.len() == 1 && items[1].rows[0].widgets.len() == 1
            &&& items[1].rows[0].widgets[0] matches widgets::WidgetView::CountSpin {
                label,
                value,
                step,
                min,
                max,
                ..
            } && value == settings.upcoming_count && label == text::decimal(value as nat) && step
                == 1 && min == 1 && max == 50
            &&& items[2].title == labels::TextView::Label(Label::EncryptionMode)
            &&& items[2].rows.len() == 1 && items[2].rows[0].widgets.len() == 3
            &&& chooses_mode(
                page,
                facts,
                items[2].rows[0].widgets[0],
                Label::EncryptionNone,
                EncryptionMode::Off,
            )
            &&& chooses_mode(
                page,
                facts,
                items[2].rows[0].widgets[1],
                Label::EncryptionAuto,
                EncryptionMode::Auto,
            )
            &&& chooses_mode(
                page,
                facts,
                items[2].rows[0].widgets[2],
                Label::EncryptionManual,
                EncryptionMode::Manual,
            )
        },
{
    if !page.editing {
        let row = sections::settings_shown(page)->0.items[2].rows[0].widgets;
        crate::laws::calendars::encryption_mode_follows_its_number(page, 0, facts);
        crate::laws::calendars::encryption_mode_follows_its_number(page, 1, facts);
        crate::laws::calendars::encryption_mode_follows_its_number(page, 2, facts);
        assert(row[0] == sections::mode_button(
            page.calendar_config.encryption_mode,
            0,
            Label::EncryptionNone,
        ));
    }
}

/// Whether a control is the button of an encryption mode: it has the mode's label, is marked
/// exactly if the mode is chosen, and chooses it when it is pressed.
pub open spec fn chooses_mode(
    page: page::PageView,
    facts: update::FactsView,
    w: widgets::WidgetView,
    label: Label,
    mode: EncryptionMode,
) -> bool {
    w matches widgets::WidgetView::Button { style, label: shown, on_press } && shown == label && (
    style == ButtonStyle::Suggested <==> page.calendar_config.encryption_mode == mode)
        && (on_press matches Some(event) && page.updated(
        event,
        facts,
    ).0.calendar_config.encryption_mode == mode)
}

// ── Source by source ─────────────────────────────────────────────────────

/// Each source has in the list a switch that is on exactly if the source is, and the buttons to
/// edit and to remove it. One that signs in through OIDC has a button to do so.
pub proof fn each_source_has_its_controls(page: page::PageView, i: int)
    requires
        !page.editing,
        0 <= i < page.calendar_config.sources.len(),
    ensures
        ({
            let source = page.calendar_config.sources[i];
            let items = sections::sources_shown(page)->0.items;
            let press = |icon: Icon, on_press: message::MessageView|
                widgets::WidgetView::IconButton { icon, on_press };
            &&& shows(
                items,
                widgets::WidgetView::Toggler {
                    is_on: source.enabled,
                    on_toggle: message::MessageView::ToggleSource(source.id),
                },
            )
            &&& shows(items, press(Icon::Edit, message::MessageView::EditSource(source.id)))
            &&& shows(items, press(Icon::Remove, message::MessageView::RemoveSource(source.id)))
            &&& events::auth_in(source.source_type) matches Some(
                config::AuthMethodView::Oidc { .. },
            ) ==> shows(items, press(Icon::SignIn, message::MessageView::OidcLogin(source.id)))
            &&& !(source.source_type is CalDav) ==> shows(
                items,
                widgets::WidgetView::Swatch { size: 12, color: source.color },
            )
        }),
{
    let all = page.calendar_config.sources;
    let source = all[i];
    let press = |icon: Icon, on_press: message::MessageView|
        widgets::WidgetView::IconButton { icon, on_press };
    let switch = widgets::WidgetView::Toggler {
        is_on: source.enabled,
        on_toggle: message::MessageView::ToggleSource(source.id),
    };
    let edit = press(Icon::Edit, message::MessageView::EditSource(source.id));
    let remove = press(Icon::Remove, message::MessageView::RemoveSource(source.id));
    let sign_in = press(Icon::SignIn, message::MessageView::OidcLogin(source.id));
    let swatch = widgets::WidgetView::Swatch { size: 12, color: source.color };
    list_shows_the_sources_as_they_stand(page, switch);
    list_shows_the_sources_as_they_stand(page, edit);
    list_shows_the_sources_as_they_stand(page, remove);
    list_shows_the_sources_as_they_stand(page, sign_in);
    list_shows_the_sources_as_they_stand(page, swatch);
    assert(source_shows(page, all[i], switch));
    assert(source_shows(page, all[i], edit));
    assert(source_shows(page, all[i], remove));
}

/// A switch in the list belongs to a source that is on exactly if the switch is, or to a calendar
/// of a source that is.
pub proof fn each_switch_has_its_source(
    page: page::PageView,
    is_on: bool,
    on_toggle: message::MessageView,
)
    requires
        !page.editing,
        shows(
            sections::sources_shown(page)->0.items,
            widgets::WidgetView::Toggler { is_on, on_toggle },
        ),
    ensures
        exists|i: int|
            0 <= i < page.calendar_config.sources.len() && is_turned_by(
                #[trigger] page.calendar_config.sources[i],
                is_on,
                on_toggle,
            ),
{
    let all = page.calendar_config.sources;
    let switch = widgets::WidgetView::Toggler { is_on, on_toggle };
    list_shows_the_sources_as_they_stand(page, switch);
    let i = choose|i: int| 0 <= i < all.len() && source_shows(page, #[trigger] all[i], switch);
    assert(is_turned_by(all[i], is_on, on_toggle));
}

/// Whether an event turns a source, or a calendar of it, that is on or off as told.
pub open spec fn is_turned_by(
    source: config::SourceConfigView,
    is_on: bool,
    event: message::MessageView,
) -> bool {
    ||| event == message::MessageView::ToggleSource(source.id) && source.enabled == is_on
    ||| source.source_type matches config::SourceTypeView::CalDav { calendars, .. } && exists|
        k: int,
    |
        0 <= k < calendars.len() && event == message::MessageView::ToggleCalendar(
            source.id,
            (#[trigger] calendars[k]).href,
        ) && calendars[k].enabled == is_on
}

/// Each calendar of a source has in the list a switch that is on exactly if the calendar is, a
/// square in its color, or in that of its source where it has none, and a button to edit the color.
pub proof fn each_calendar_has_its_controls(page: page::PageView, i: int, k: int)
    requires
        !page.editing,
        0 <= i < page.calendar_config.sources.len(),
        page.calendar_config.sources[i].source_type matches config::SourceTypeView::CalDav {
            calendars,
            ..
        } && 0 <= k < calendars.len(),
    ensures
        ({
            let source = page.calendar_config.sources[i];
            let calendar = source.source_type->CalDav_calendars[k];
            let items = sections::sources_shown(page)->0.items;
            &&& shows(
                items,
                widgets::WidgetView::Toggler {
                    is_on: calendar.enabled,
                    on_toggle: message::MessageView::ToggleCalendar(source.id, calendar.href),
                },
            )
            &&& shows(
                items,
                widgets::WidgetView::Swatch {
                    size: 10,
                    color: if calendar.color.len() > 0 {
                        calendar.color
                    } else {
                        source.color
                    },
                },
            )
            &&& shows(
                items,
                widgets::WidgetView::IconButton {
                    icon: Icon::Color,
                    on_press: message::MessageView::EditCalendarColor(source.id, calendar.href),
                },
            )
        }),
{
    let all = page.calendar_config.sources;
    let source = all[i];
    let calendars = source.source_type->CalDav_calendars;
    let calendar = calendars[k];
    let switch = widgets::WidgetView::Toggler {
        is_on: calendar.enabled,
        on_toggle: message::MessageView::ToggleCalendar(source.id, calendar.href),
    };
    let swatch = widgets::WidgetView::Swatch {
        size: 10,
        color: if calendar.color.len() > 0 {
            calendar.color
        } else {
            source.color
        },
    };
    let edit = widgets::WidgetView::IconButton {
        icon: Icon::Color,
        on_press: message::MessageView::EditCalendarColor(source.id, calendar.href),
    };
    list_shows_the_sources_as_they_stand(page, switch);
    list_shows_the_sources_as_they_stand(page, swatch);
    list_shows_the_sources_as_they_stand(page, edit);
    assert(calendar_has(page, source, calendars[k], switch));
    assert(calendar_has(page, source, calendars[k], swatch));
    assert(calendar_has(page, source, calendars[k], edit));
    assert(source_shows(page, all[i], switch));
    assert(source_shows(page, all[i], swatch));
    assert(source_shows(page, all[i], edit));
}

/// The buttons in the list do what they show: pressing one is an event for the source that it
/// stands with, and a discovery can be started exactly while none is under way for that source.
pub proof fn discovery_can_be_started_once(page: page::PageView, i: int)
    requires
        !page.editing,
        0 <= i < page.calendar_config.sources.len(),
        page.calendar_config.sources[i].source_type is CalDav,
    ensures
        ({
            let id = page.calendar_config.sources[i].id;
            let items = sections::sources_shown(page)->0.items;
            let start = widgets::WidgetView::Button {
                style: ButtonStyle::Standard,
                label: Label::Discover,
                on_press: Some(message::MessageView::Discover(id)),
            };
            shows(items, start) <==> page.discovering_source != Some(id)
        }),
{
    let all = page.calendar_config.sources;
    let id = all[i].id;
    let start = widgets::WidgetView::Button {
        style: ButtonStyle::Standard,
        label: Label::Discover,
        on_press: Some(message::MessageView::Discover(id)),
    };
    list_shows_the_sources_as_they_stand(page, start);
    if page.discovering_source != Some(id) {
        assert(source_shows(page, all[i], start));
    }
}

} // verus!
