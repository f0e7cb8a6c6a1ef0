//! The list of sources and the sync settings, as the page shows them.

use vstd::prelude::*;

use crate::color;
use crate::config;
use crate::config::{AuthMethod, CalDavCalendar, EncryptionMode, SourceConfig, SourceType};
use crate::labels;
use crate::labels::{Label, Text};
use crate::message;
use crate::message::Message;
use crate::page;
use crate::page::Page;
use crate::text;
use crate::widgets;
use crate::widgets::{ButtonStyle, Icon, Item, Row, Section, TextField, Widget, NARROW, WIDE};

verus! {

/// What a color is chosen for.
#[derive(Debug, Clone, Copy, PartialEq, Eq, Structural)]
pub enum ColorTarget {
    /// A calendar of a saved source.
    Calendar,
    /// The source in the form.
    Source,
    /// A calendar that was discovered for the form.
    Discovered,
}

/// How much a button stands out that is chosen, or is not.
pub open spec fn choice_style(chosen: bool) -> ButtonStyle {
    if chosen {
        ButtonStyle::Suggested
    } else {
        ButtonStyle::Standard
    }
}

/// How much a button stands out that is chosen, or is not.
pub fn style_of(chosen: bool) -> (r: ButtonStyle)
    ensures
        r == choice_style(chosen),
{
    if chosen {
        ButtonStyle::Suggested
    } else {
        ButtonStyle::Standard
    }
}

/// The event of choosing a color that is offered.
pub open spec fn preset_message(target: ColorTarget, color: Seq<char>) -> message::MessageView {
    match target {
        ColorTarget::Calendar => message::MessageView::CalendarColorPreset(color),
        ColorTarget::Source => message::MessageView::FormColor(color),
        ColorTarget::Discovered => message::MessageView::FormCalColorPreset(color),
    }
}

/// Whether a color that is offered counts as the current one. For a calendar of a saved source
/// capital and small letters differ.
pub open spec fn is_current_color(
    target: ColorTarget,
    current: Seq<char>,
    color: Seq<char>,
) -> bool {
    match target {
        ColorTarget::Calendar => current == color,
        _ => text::lowered(current) == text::lowered(color),
    }
}

/// The button of a color that is offered.
pub open spec fn preset_button(
    target: ColorTarget,
    current: Seq<char>,
    color: Seq<char>,
) -> widgets::WidgetView {
    widgets::WidgetView::ColorButton {
        style: choice_style(is_current_color(target, current, color)),
        color,
        on_press: preset_message(target, color),
    }
}

/// The buttons of the colors that are offered.
pub open spec fn preset_buttons(target: ColorTarget, current: Seq<char>) -> Seq<
    widgets::WidgetView,
> {
    color::preset_colors().map_values(|c: Seq<char>| preset_button(target, current, c))
}

/// The buttons of the colors that are offered, in a row.
pub open spec fn preset_row(target: ColorTarget, current: Seq<char>) -> widgets::RowView {
    widgets::RowView { spacing: NARROW, widgets: preset_buttons(target, current) }
}

/// The buttons of the colors that are offered, in a row.
pub fn color_row(target: ColorTarget, current: &String) -> (r: Row)
    ensures
        r.deep_view() == preset_row(target, current@),
{
    let presets = color::color_presets();
    let mut buttons: Vec<Widget> = Vec::new();
    let mut i: usize = 0;
    assert(buttons.deep_view() =~= preset_buttons(target, current@).take(0));
    while i < presets.len()
        invariant
            i <= presets.len(),
            presets.deep_view() == color::preset_colors(),
            buttons.deep_view() == preset_buttons(target, current@).take(i as int),
        decreases presets.len() - i,
    {
        let preset = presets[i];
        assert(preset@ == presets.deep_view()[i as int]);
        let is_current = match target {
            ColorTarget::Calendar => text::same_text(current.as_str(), preset),
            _ => text::eq_ignore_ascii_case(current.as_str(), preset),
        };
        let on_press = match target {
            ColorTarget::Calendar => Message::CalendarColorPreset(preset.to_owned()),
            ColorTarget::Source => Message::FormColor(preset.to_owned()),
            ColorTarget::Discovered => Message::FormCalColorPreset(preset.to_owned()),
        };
        let style = style_of(is_current);
        widgets::push_widget(&mut buttons, Widget::ColorButton { style, color: preset, on_press });
        assert(preset_buttons(target, current@).take(i + 1) =~= preset_buttons(
            target,
            current@,
        ).take(i as int).push(preset_button(target, current@, preset@)));
        i += 1;
    }
    assert(preset_buttons(target, current@).take(presets.len() as int) =~= preset_buttons(
        target,
        current@,
    ));
    Row { spacing: NARROW, widgets: buttons }
}

/// The line in which the color of one calendar is edited: what is offered, and below it a field to
/// write another color in.
pub open spec fn color_editor(
    target: ColorTarget,
    field: TextField,
    current: Seq<char>,
    save: message::MessageView,
    cancel: message::MessageView,
) -> widgets::ItemView {
    widgets::ItemView {
        title: widgets::no_title(),
        description: None,
        rows: seq![
            preset_row(target, current),
            widgets::RowView {
                spacing: WIDE,
                widgets: seq![
                    widgets::WidgetView::Input {
                        field,
                        placeholder: Label::SourceColor,
                        value: current,
                        secret: false,
                        width: 100,
                    },
                    widgets::WidgetView::Button {
                        style: ButtonStyle::Standard,
                        label: Label::Save,
                        on_press: Some(save),
                    },
                    widgets::WidgetView::Button {
                        style: ButtonStyle::Standard,
                        label: Label::Cancel,
                        on_press: Some(cancel),
                    },
                ],
            },
        ],
    }
}

/// The line in which the color of one calendar is edited.
pub fn edit_color(
    target: ColorTarget,
    field: TextField,
    current: &String,
    save: Message,
    cancel: Message,
) -> (r: Item)
    ensures
        r.deep_view() == color_editor(
            target,
            field,
            current@,
            save.deep_view(),
            cancel.deep_view(),
        ),
{
    let ghost expected = color_editor(
        target,
        field,
        current@,
        save.deep_view(),
        cancel.deep_view(),
    );
    let controls = vec![
        Widget::Input {
            field,
            placeholder: Label::SourceColor,
            value: current.clone(),
            secret: false,
            width: 100,
        },
        widgets::button(ButtonStyle::Standard, Label::Save, Some(save)),
        widgets::button(ButtonStyle::Standard, Label::Cancel, Some(cancel)),
    ];
    assert(controls.deep_view() =~= expected.rows[1].widgets);
    let rows = vec![color_row(target, current), Row { spacing: WIDE, widgets: controls }];
    assert(rows.deep_view() =~= expected.rows);
    Item { title: widgets::empty_text(), description: None, rows }
}

// ── Calendars of a saved source ──────────────────────────────────────────

/// The color that a calendar is shown in: its own, or another where it has none.
pub open spec fn shown_color(own: Seq<char>, other: Seq<char>) -> Seq<char> {
    if own.len() == 0 {
        other
    } else {
        own
    }
}

/// The line of a calendar of a saved source.
pub open spec fn calendar_line(
    source: config::SourceConfigView,
    title: Seq<char>,
    calendar: config::CalDavCalendarView,
) -> widgets::ItemView {
    widgets::row_item(
        labels::TextView::Plain(title),
        WIDE,
        seq![
            widgets::WidgetView::Swatch {
                size: 10,
                color: shown_color(calendar.color, source.color),
            },
            widgets::WidgetView::Toggler {
                is_on: calendar.enabled,
                on_toggle: message::MessageView::ToggleCalendar(source.id, calendar.href),
            },
            widgets::WidgetView::IconButton {
                icon: Icon::Color,
                on_press: message::MessageView::EditCalendarColor(source.id, calendar.href),
            },
        ],
    )
}

/// The lines of a calendar of a saved source: one more while its color is edited.
pub open spec fn calendar_lines(
    page: page::PageView,
    source: config::SourceConfigView,
    indent: Seq<char>,
    calendar: config::CalDavCalendarView,
) -> Seq<widgets::ItemView> {
    let line = calendar_line(source, indent + calendar.display_name, calendar);
    if page.editing_calendar_color == Some((source.id, calendar.href)) {
        seq![
            line,
            color_editor(
                ColorTarget::Calendar,
                TextField::CalendarColor,
                page.calendar_color_input,
                message::MessageView::SaveCalendarColor,
                message::MessageView::CancelCalendarColor,
            ),
        ]
    } else {
        seq![line]
    }
}

/// The lines of calendars of a saved source.
pub open spec fn all_calendar_lines(
    page: page::PageView,
    source: config::SourceConfigView,
    indent: Seq<char>,
    calendars: Seq<config::CalDavCalendarView>,
) -> Seq<widgets::ItemView>
    decreases calendars.len(),
{
    if calendars.len() == 0 {
        Seq::empty()
    } else {
        all_calendar_lines(page, source, indent, calendars.drop_last()) + calendar_lines(
            page,
            source,
            indent,
            calendars.last(),
        )
    }
}

/// The line of a calendar of a saved source.
fn show_calendar(source: &SourceConfig, title: String, calendar: &CalDavCalendar) -> (r: Item)
    ensures
        r.deep_view() == calendar_line(source.deep_view(), title@, calendar.deep_view()),
{
    let color = if calendar.color.as_str().is_empty() {
        source.color.clone()
    } else {
        calendar.color.clone()
    };
    let controls = vec![
        Widget::Swatch { size: 10, color },
        Widget::Toggler {
            is_on: calendar.enabled,
            on_toggle: Message::ToggleCalendar(source.id.clone(), calendar.href.clone()),
        },
        Widget::IconButton {
            icon: Icon::Color,
            on_press: Message::EditCalendarColor(source.id.clone(), calendar.href.clone()),
        },
    ];
    assert(controls.deep_view() =~= calendar_line(
        source.deep_view(),
        title@,
        calendar.deep_view(),
    ).rows[0].widgets);
    widgets::item_of(Text::Plain(title), WIDE, controls)
}

/// Adds the lines of a calendar of a saved source.
fn add_calendar(
    items: &mut Vec<Item>,
    page: &Page,
    source: &SourceConfig,
    indent: &str,
    calendar: &CalDavCalendar,
)
    ensures
        final(items).deep_view() == old(items).deep_view() + calendar_lines(
            page@,
            source.deep_view(),
            indent@,
            calendar.deep_view(),
        ),
{
    let ghost before = items.deep_view();
    let title = indent.to_owned().concat(calendar.display_name.as_str());
    widgets::push_item(items, show_calendar(source, title, calendar));
    if let Some((edited_id, edited_href)) = &page.editing_calendar_color {
        if *edited_id == source.id && *edited_href == calendar.href {
            widgets::push_item(
                items,
                edit_color(
                    ColorTarget::Calendar,
                    TextField::CalendarColor,
                    &page.calendar_color_input,
                    Message::SaveCalendarColor,
                    Message::CancelCalendarColor,
                ),
            );
        }
    }
    assert(items.deep_view() =~= before + calendar_lines(
        page@,
        source.deep_view(),
        indent@,
        calendar.deep_view(),
    ));
}

/// Adds the lines of the calendars of a saved source.
pub fn add_calendars(
    items: &mut Vec<Item>,
    page: &Page,
    source: &SourceConfig,
    indent: &str,
    calendars: &Vec<CalDavCalendar>,
)
    ensures
        final(items).deep_view() == old(items).deep_view() + all_calendar_lines(
            page@,
            source.deep_view(),
            indent@,
            calendars.deep_view(),
        ),
{
    let ghost before = items.deep_view();
    let ghost all = calendars.deep_view();
    let mut i: usize = 0;
    assert(items.deep_view() =~= before + all_calendar_lines(
        page@,
        source.deep_view(),
        indent@,
        all.take(0),
    ));
    while i < calendars.len()
        invariant
            i <= calendars.len(),
            all == calendars.deep_view(),
            items.deep_view() == before + all_calendar_lines(
                page@,
                source.deep_view(),
                indent@,
                all.take(i as int),
            ),
        decreases calendars.len() - i,
    {
        assert(all[i as int] == calendars@[i as int].deep_view());
        assert(all.take(i + 1).drop_last() =~= all.take(i as int));
        add_calendar(items, page, source, indent, &calendars[i]);
        i += 1;
        assert(items.deep_view() =~= before + all_calendar_lines(
            page@,
            source.deep_view(),
            indent@,
            all.take(i as int),
        ));
    }
    assert(all.take(all.len() as int) =~= all);
}

// ── The list of sources ──────────────────────────────────────────────────

/// The name of a type of source.
pub open spec fn type_label(source_type: config::SourceTypeView) -> Label {
    match source_type {
        config::SourceTypeView::CalDav { .. } => Label::TypeCalDav,
        config::SourceTypeView::IcsUrl { .. } => Label::TypeIcsUrl,
        config::SourceTypeView::IcsFile { .. } => Label::TypeIcsFile,
    }
}

/// The controls of a source. Sources with calendars of their own show no color, and offer
/// discovery here only while they have no calendars. Signing in anew is offered to those who
/// sign in through OIDC.
pub open spec fn source_controls(source: config::SourceConfigView) -> Seq<widgets::WidgetView> {
    let swatch = if source.source_type is CalDav {
        Seq::<widgets::WidgetView>::empty()
    } else {
        seq![widgets::WidgetView::Swatch { size: 12, color: source.color }]
    };
    let sign_in = if source.source_type.uses_oidc() {
        seq![
            widgets::WidgetView::IconButton {
                icon: Icon::SignIn,
                on_press: message::MessageView::OidcLogin(source.id),
            },
        ]
    } else {
        Seq::<widgets::WidgetView>::empty()
    };
    let discover = match source.source_type {
        config::SourceTypeView::CalDav { calendars, .. } if calendars.len() == 0 => seq![
            widgets::WidgetView::IconButton {
                icon: Icon::Discover,
                on_press: message::MessageView::Discover(source.id),
            },
        ],
        _ => Seq::<widgets::WidgetView>::empty(),
    };
    swatch + sign_in + discover + seq![
        widgets::WidgetView::Toggler {
            is_on: source.enabled,
            on_toggle: message::MessageView::ToggleSource(source.id),
        },
        widgets::WidgetView::IconButton {
            icon: Icon::Edit,
            on_press: message::MessageView::EditSource(source.id),
        },
        widgets::WidgetView::IconButton {
            icon: Icon::Remove,
            on_press: message::MessageView::RemoveSource(source.id),
        },
    ]
}

/// The line of a source.
pub open spec fn source_line(source: config::SourceConfigView) -> widgets::ItemView {
    widgets::ItemView {
        description: Some(labels::TextView::Label(type_label(source.source_type))),
        ..widgets::row_item(labels::TextView::Plain(source.name), WIDE, source_controls(source))
    }
}

/// The label of a button that starts a discovery.
pub open spec fn discover_label(discovering: bool) -> Label {
    if discovering {
        Label::Discovering
    } else {
        Label::Discover
    }
}

/// The label of a button that starts a discovery.
pub fn label_of_discovery(discovering: bool) -> (r: Label)
    ensures
        r == discover_label(discovering),
{
    if discovering {
        Label::Discovering
    } else {
        Label::Discover
    }
}

/// The line that starts the discovery of a source. It cannot be pressed while one is under way.
pub open spec fn discover_line(page: page::PageView, id: Seq<char>) -> widgets::ItemView {
    let discovering = page.discovering_source == Some(id);
    widgets::control_item(
        widgets::no_title(),
        widgets::WidgetView::Button {
            style: ButtonStyle::Standard,
            label: discover_label(discovering),
            on_press: if discovering {
                None
            } else {
                Some(message::MessageView::Discover(id))
            },
        },
    )
}

/// The indent of the calendars of a source.
pub const INDENT: &'static str = "    ";

/// The lines of a source: itself, its calendars with a button to look for more, and a button to
/// sign in where that is still to be done.
pub open spec fn source_lines(page: page::PageView, source: config::SourceConfigView) -> Seq<
    widgets::ItemView,
> {
    let calendars = match source.source_type {
        config::SourceTypeView::CalDav { calendars, .. } => all_calendar_lines(
            page,
            source,
            INDENT@,
            calendars,
        ).push(discover_line(page, source.id)),
        _ => Seq::empty(),
    };
    let login = match source.source_type.auth() {
        Some(config::AuthMethodView::Oidc { has_token, .. }) if !has_token => seq![
            widgets::control_item(
                widgets::no_title(),
                widgets::WidgetView::Button {
                    style: ButtonStyle::Suggested,
                    label: Label::OidcLogin,
                    on_press: Some(message::MessageView::OidcLogin(source.id)),
                },
            ),
        ],
        _ => Seq::<widgets::ItemView>::empty(),
    };
    seq![source_line(source)] + calendars + login
}

/// The lines of sources.
pub open spec fn all_source_lines(
    page: page::PageView,
    all: Seq<config::SourceConfigView>,
) -> Seq<widgets::ItemView>
    decreases all.len(),
{
    if all.len() == 0 {
        Seq::empty()
    } else {
        all_source_lines(page, all.drop_last()) + source_lines(page, all.last())
    }
}

/// The line of a button that adds a source.
pub open spec fn add_source_line(title: labels::TextView) -> widgets::ItemView {
    widgets::control_item(
        title,
        widgets::WidgetView::Button {
            style: ButtonStyle::Standard,
            label: Label::AddSource,
            on_press: Some(message::MessageView::AddSource),
        },
    )
}

/// The line of an error of a discovery.
pub open spec fn error_line(error: labels::TextView) -> widgets::ItemView {
    widgets::ItemView {
        description: Some(error),
        ..widgets::control_item(
            labels::TextView::Label(Label::DiscoverError),
            widgets::WidgetView::Space,
        )
    }
}

/// The list of sources. It is not shown while the form is open.
pub open spec fn sources_shown(page: page::PageView) -> Option<widgets::SectionView> {
    let all = page.calendar_config.sources;
    let list = if all.len() == 0 {
        seq![add_source_line(labels::TextView::Label(Label::NoSources))]
    } else {
        all_source_lines(page, all).push(add_source_line(widgets::no_title()))
    };
    let error = match page.discovery_error {
        Some(error) => seq![error_line(error)],
        None => Seq::<widgets::ItemView>::empty(),
    };
    if page.editing {
        None
    } else {
        Some(widgets::SectionView { title: Label::Sources, items: list + error })
    }
}

/// The controls of a source.
fn controls_of(source: &SourceConfig) -> (r: Vec<Widget>)
    ensures
        r.deep_view() == source_controls(source.deep_view()),
{
    let id = &source.id;
    let mut controls: Vec<Widget> = Vec::new();
    match &source.source_type {
        SourceType::CalDav { .. } => {},
        _ => {
            widgets::push_widget(
                &mut controls,
                Widget::Swatch { size: 12, color: source.color.clone() },
            );
        },
    }
    if source.source_type.uses_oidc() {
        let on_press = Message::OidcLogin(id.clone());
        widgets::push_widget(&mut controls, Widget::IconButton { icon: Icon::SignIn, on_press });
    }
    if let SourceType::CalDav { calendars, .. } = &source.source_type {
        if calendars.len() == 0 {
            let on_press = Message::Discover(id.clone());
            widgets::push_widget(
                &mut controls,
                Widget::IconButton { icon: Icon::Discover, on_press },
            );
        }
    }
    let on_toggle = Message::ToggleSource(id.clone());
    widgets::push_widget(&mut controls, Widget::Toggler { is_on: source.enabled, on_toggle });
    let on_press = Message::EditSource(id.clone());
    widgets::push_widget(&mut controls, Widget::IconButton { icon: Icon::Edit, on_press });
    let on_press = Message::RemoveSource(id.clone());
    widgets::push_widget(&mut controls, Widget::IconButton { icon: Icon::Remove, on_press });
    assert(controls.deep_view() =~= source_controls(source.deep_view()));
    controls
}

/// The line of a source.
fn show_source(source: &SourceConfig) -> (r: Item)
    ensures
        r.deep_view() == source_line(source.deep_view()),
{
    let description = match &source.source_type {
        SourceType::CalDav { .. } => Label::TypeCalDav,
        SourceType::IcsUrl { .. } => Label::TypeIcsUrl,
        SourceType::IcsFile { .. } => Label::TypeIcsFile,
    };
    let mut item = widgets::item_of(Text::Plain(source.name.clone()), WIDE, controls_of(source));
    item.description = Some(Text::Label(description));
    item
}

/// Whether the calendars of the source with this id are being looked for.
pub fn is_discovering(page: &Page, id: &String) -> (r: bool)
    ensures
        r == (page@.discovering_source == Some(id@)),
{
    match &page.discovering_source {
        Some(discovering) => *discovering == *id,
        None => false,
    }
}

/// The line that starts the discovery of a source.
fn show_discover(page: &Page, id: &String) -> (r: Item)
    ensures
        r.deep_view() == discover_line(page@, id@),
{
    let discovering = is_discovering(page, id);
    let on_press = if discovering {
        None
    } else {
        Some(Message::Discover(id.clone()))
    };
    widgets::item_with(
        widgets::empty_text(),
        widgets::button(ButtonStyle::Standard, label_of_discovery(discovering), on_press),
    )
}

/// Adds the lines of a source.
fn add_source(items: &mut Vec<Item>, page: &Page, source: &SourceConfig)
    ensures
        final(items).deep_view() == old(items).deep_view() + source_lines(
            page@,
            source.deep_view(),
        ),
{
    let ghost before = items.deep_view();
    widgets::push_item(items, show_source(source));
    if let SourceType::CalDav { calendars, .. } = &source.source_type {
        add_calendars(items, page, source, INDENT, calendars);
        widgets::push_item(items, show_discover(page, &source.id));
    }
    if let Some(AuthMethod::Oidc { has_token, .. }) = source.source_type.auth() {
        if !*has_token {
            let on_press = Some(Message::OidcLogin(source.id.clone()));
            widgets::push_item(
                items,
                widgets::item_with(
                    widgets::empty_text(),
                    widgets::button(ButtonStyle::Suggested, Label::OidcLogin, on_press),
                ),
            );
        }
    }
    assert(items.deep_view() =~= before + source_lines(page@, source.deep_view()));
}

/// The line of a button that adds a source.
fn show_add_source(title: Text) -> (r: Item)
    ensures
        r.deep_view() == add_source_line(title.deep_view()),
{
    widgets::item_with(
        title,
        widgets::button(ButtonStyle::Standard, Label::AddSource, Some(Message::AddSource)),
    )
}

/// The list of sources, if it is shown.
pub fn sources_section(page: &Page) -> (r: Option<Section>)
    ensures
        r.deep_view() == sources_shown(page@),
{
    if page.editing {
        return None;
    }
    let sources = &page.calendar_config.sources;
    let ghost all = sources.deep_view();
    let mut items: Vec<Item> = Vec::new();
    if sources.len() == 0 {
        widgets::push_item(&mut items, show_add_source(Text::Label(Label::NoSources)));
    } else {
        let mut i: usize = 0;
        assert(items.deep_view() =~= all_source_lines(page@, all.take(0)));
        while i < sources.len()
            invariant
                i <= sources.len(),
                all == sources.deep_view(),
                items.deep_view() == all_source_lines(page@, all.take(i as int)),
            decreases sources.len() - i,
        {
            assert(all[i as int] == sources@[i as int].deep_view());
            assert(all.take(i + 1).drop_last() =~= all.take(i as int));
            add_source(&mut items, page, &sources[i]);
            i += 1;
        }
        assert(all.take(all.len() as int) =~= all);
        widgets::push_item(&mut items, show_add_source(widgets::empty_text()));
    }
    if let Some(error) = &page.discovery_error {
        let mut item = widgets::item_with(Text::Label(Label::DiscoverError), Widget::Space);
        item.description = Some(error.clone());
        widgets::push_item(&mut items, item);
    }
    assert(items.deep_view() =~= sources_shown(page@)->0.items);
    Some(Section { title: Label::Sources, items })
}

// ── Sync settings ────────────────────────────────────────────────────────

/// The number of an encryption mode.
pub open spec fn mode_number(mode: EncryptionMode) -> usize {
    match mode {
        EncryptionMode::Off => 0,
        EncryptionMode::Auto => 1,
        EncryptionMode::Manual => 2,
    }
}

/// The button of an encryption mode.
pub open spec fn mode_button(mode: EncryptionMode, number: usize, label: Label) ->
    widgets::WidgetView {
    widgets::WidgetView::Button {
        style: choice_style(number == mode_number(mode)),
        label,
        on_press: Some(message::MessageView::EncryptionModeChanged(number)),
    }
}

/// The sync settings. They are not shown while the form is open.
pub open spec fn settings_shown(page: page::PageView) -> Option<widgets::SectionView> {
    let settings = page.calendar_config;
    let interval = widgets::WidgetView::IntervalSpin {
        name: "sync interval"@,
        label: text::decimal(settings.sync_interval_minutes as nat),
        value: settings.sync_interval_minutes,
        step: 1,
        min: 1,
        max: 1440,
    };
    let count = widgets::WidgetView::CountSpin {
        name: "upcoming count"@,
        label: text::decimal(settings.upcoming_count as nat),
        value: settings.upcoming_count,
        step: 1,
        min: 1,
        max: 50,
    };
    let modes = seq![
        mode_button(settings.encryption_mode, 0, Label::EncryptionNone),
        mode_button(settings.encryption_mode, 1, Label::EncryptionAuto),
        mode_button(settings.encryption_mode, 2, Label::EncryptionManual),
    ];
    if page.editing {
        None
    } else {
        Some(
            widgets::SectionView {
                title: Label::SyncSettings,
                items: seq![
                    widgets::control_item(labels::TextView::Label(Label::SyncInterval), interval),
                    widgets::control_item(labels::TextView::Label(Label::UpcomingCount), count),
                    widgets::row_item(
                        labels::TextView::Label(Label::EncryptionMode),
                        NARROW,
                        modes,
                    ),
                ],
            },
        )
    }
}

/// The button of an encryption mode.
fn show_mode(mode: EncryptionMode, number: usize, label: Label) -> (r: Widget)
    ensures
        r.deep_view() == mode_button(mode, number, label),
{
    let current: usize = match mode {
        EncryptionMode::Off => 0,
        EncryptionMode::Auto => 1,
        EncryptionMode::Manual => 2,
    };
    let on_press = Some(Message::EncryptionModeChanged(number));
    widgets::button(style_of(number == current), label, on_press)
}

/// The sync settings, if they are shown.
pub fn sync_settings_section(page: &Page) -> (r: Option<Section>)
    ensures
        r.deep_view() == settings_shown(page@),
{
    if page.editing {
        return None;
    }
    let settings = &page.calendar_config;
    let interval = Widget::IntervalSpin {
        name: "sync interval",
        label: text::decimal_text(settings.sync_interval_minutes as u128),
        value: settings.sync_interval_minutes,
        step: 1,
        min: 1,
        max: 1440,
    };
    let count = Widget::CountSpin {
        name: "upcoming count",
        label: text::decimal_text(settings.upcoming_count as u128),
        value: settings.upcoming_count,
        step: 1,
        min: 1,
        max: 50,
    };
    let modes = vec![
        show_mode(settings.encryption_mode, 0, Label::EncryptionNone),
        show_mode(settings.encryption_mode, 1, Label::EncryptionAuto),
        show_mode(settings.encryption_mode, 2, Label::EncryptionManual),
    ];
    assert(modes.deep_view() =~= settings_shown(page@)->0.items[2].rows[0].widgets);
    let items = vec![
        widgets::item_with(Text::Label(Label::SyncInterval), interval),
        widgets::item_with(Text::Label(Label::UpcomingCount), count),
        widgets::item_of(Text::Label(Label::EncryptionMode), NARROW, modes),
    ];
    assert(items.deep_view() =~= settings_shown(page@)->0.items);
    Some(Section { title: Label::SyncSettings, items })
}

} // verus!
