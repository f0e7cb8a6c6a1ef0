//! What the page shows, without how it is drawn.

use vstd::prelude::*;

use crate::labels;
use crate::labels::{Label, Text};
use crate::message;
use crate::message::Message;

verus! {

/// How much a button stands out.
#[derive(Debug, Clone, Copy, PartialEq, Eq, Structural)]
pub enum ButtonStyle {
    Standard,
    Suggested,
}

/// The picture on a button.
#[derive(Debug, Clone, Copy, PartialEq, Eq, Structural)]
pub enum Icon {
    SignIn,
    Discover,
    Edit,
    Remove,
    Color,
}

/// The name under which the icon theme knows a picture.
pub open spec fn icon_name(icon: Icon) -> Seq<char> {
    match icon {
        Icon::SignIn => "system-lock-screen-symbolic"@,
        Icon::Discover => "view-refresh-symbolic"@,
        Icon::Edit => "edit-symbolic"@,
        Icon::Remove => "edit-delete-symbolic"@,
        Icon::Color => "preferences-color-symbolic"@,
    }
}

impl Icon {
    /// The name under which the icon theme knows the picture.
    pub fn name(self) -> (r: &'static str)
        ensures
            r@ == icon_name(self),
    {
        match self {
            Icon::SignIn => "system-lock-screen-symbolic",
            Icon::Discover => "view-refresh-symbolic",
            Icon::Edit => "edit-symbolic",
            Icon::Remove => "edit-delete-symbolic",
            Icon::Color => "preferences-color-symbolic",
        }
    }
}

/// A field that the user writes in.
#[derive(Debug, Clone, Copy, PartialEq, Eq, Structural)]
pub enum TextField {
    Name,
    Url,
    Username,
    Password,
    Token,
    OidcIssuer,
    OidcClientId,
    OidcClientSecret,
    OidcScopes,
    CaCertPath,
    Color,
    DiscoveredColor,
    CalendarColor,
}

/// The event of a field that now holds this text.
pub open spec fn field_message(field: TextField, value: Seq<char>) -> message::MessageView {
    match field {
        TextField::Name => message::MessageView::FormName(value),
        TextField::Url => message::MessageView::FormUrl(value),
        TextField::Username => message::MessageView::FormUsername(value),
        TextField::Password => message::MessageView::FormPassword(value),
        TextField::Token => message::MessageView::FormToken(value),
        TextField::OidcIssuer => message::MessageView::FormOidcIssuer(value),
        TextField::OidcClientId => message::MessageView::FormOidcClientId(value),
        TextField::OidcClientSecret => message::MessageView::FormOidcClientSecret(value),
        TextField::OidcScopes => message::MessageView::FormOidcScopes(value),
        TextField::CaCertPath => message::MessageView::FormCaCertPath(value),
        TextField::Color => message::MessageView::FormColor(value),
        TextField::DiscoveredColor => message::MessageView::FormCalColorInput(value),
        TextField::CalendarColor => message::MessageView::CalendarColorInput(value),
    }
}

impl TextField {
    /// The event of the field, when it now holds this text.
    pub fn message(self, value: String) -> (r: Message)
        ensures
            r.deep_view() == field_message(self, value@),
    {
        match self {
            TextField::Name => Message::FormName(value),
            TextField::Url => Message::FormUrl(value),
            TextField::Username => Message::FormUsername(value),
            TextField::Password => Message::FormPassword(value),
            TextField::Token => Message::FormToken(value),
            TextField::OidcIssuer => Message::FormOidcIssuer(value),
            TextField::OidcClientId => Message::FormOidcClientId(value),
            TextField::OidcClientSecret => Message::FormOidcClientSecret(value),
            TextField::OidcScopes => Message::FormOidcScopes(value),
            TextField::CaCertPath => Message::FormCaCertPath(value),
            TextField::Color => Message::FormColor(value),
            TextField::DiscoveredColor => Message::FormCalColorInput(value),
            TextField::CalendarColor => Message::CalendarColorInput(value),
        }
    }
}

/// One control of the page.
#[allow(inconsistent_fields)]
#[derive(Debug, PartialEq, Eq)]
pub enum Widget {
    /// A square in a color.
    Swatch { size: u16, color: String },
    IconButton { icon: Icon, on_press: Message },
    Toggler { is_on: bool, on_toggle: Message },
    /// A button; one without an event cannot be pressed.
    Button { style: ButtonStyle, label: Label, on_press: Option<Message> },
    /// A button that is a square in a color.
    ColorButton { style: ButtonStyle, color: &'static str, on_press: Message },
    Input { field: TextField, placeholder: Label, value: String, secret: bool, width: u16 },
    /// A text that stands by itself.
    Body(Text),
    /// A text in a frame with some room round it.
    FramedBody(Text),
    /// A number that can be counted up and down; its event is [`Message::SyncInterval`].
    IntervalSpin { name: &'static str, label: String, value: u64, step: u64, min: u64, max: u64 },
    /// A number that can be counted up and down; its event is [`Message::UpcomingCount`].
    CountSpin {
        name: &'static str,
        label: String,
        value: usize,
        step: usize,
        min: usize,
        max: usize,
    },
    /// Nothing, as wide as there is room.
    Space,
}

/// The model of a [`Widget`].
#[allow(inconsistent_fields)]
pub enum WidgetView {
    Swatch { size: u16, color: Seq<char> },
    IconButton { icon: Icon, on_press: message::MessageView },
    Toggler { is_on: bool, on_toggle: message::MessageView },
    Button { style: ButtonStyle, label: Label, on_press: Option<message::MessageView> },
    ColorButton { style: ButtonStyle, color: Seq<char>, on_press: message::MessageView },
    Input { field: TextField, placeholder: Label, value: Seq<char>, secret: bool, width: u16 },
    Body(labels::TextView),
    FramedBody(labels::TextView),
    IntervalSpin {
        name: Seq<char>,
        label: Seq<char>,
        value: u64,
        step: u64,
        min: u64,
        max: u64,
    },
    CountSpin {
        name: Seq<char>,
        label: Seq<char>,
        value: usize,
        step: usize,
        min: usize,
        max: usize,
    },
    Space,
}

impl DeepView for Widget {
    type V = WidgetView;

    open spec fn deep_view(&self) -> WidgetView {
        match self {
            Widget::Swatch { size, color } => WidgetView::Swatch { size: *size, color: color@ },
            Widget::IconButton { icon, on_press } => WidgetView::IconButton {
                icon: *icon,
                on_press: on_press.deep_view(),
            },
            Widget::Toggler { is_on, on_toggle } => WidgetView::Toggler {
                is_on: *is_on,
                on_toggle: on_toggle.deep_view(),
            },
            Widget::Button { style, label, on_press } => WidgetView::Button {
                style: *style,
                label: *label,
                on_press: on_press.deep_view(),
            },
            Widget::ColorButton { style, color, on_press } => WidgetView::ColorButton {
                style: *style,
                color: color@,
                on_press: on_press.deep_view(),
            },
            Widget::Input { field, placeholder, value, secret, width } => WidgetView::Input {
                field: *field,
                placeholder: *placeholder,
                value: value@,
                secret: *secret,
                width: *width,
            },
            Widget::Body(text) => WidgetView::Body(text.deep_view()),
            Widget::FramedBody(text) => WidgetView::FramedBody(text.deep_view()),
            Widget::IntervalSpin { name, label, value, step, min, max } =>
                WidgetView::IntervalSpin {
                name: name@,
                label: label@,
                value: *value,
                step: *step,
                min: *min,
                max: *max,
            },
            Widget::CountSpin { name, label, value, step, min, max } => WidgetView::CountSpin {
                name: name@,
                label: label@,
                value: *value,
                step: *step,
                min: *min,
                max: *max,
            },
            Widget::Space => WidgetView::Space,
        }
    }
}

/// Controls side by side.
#[derive(Debug, PartialEq, Eq)]
pub struct Row {
    pub spacing: u16,
    pub widgets: Vec<Widget>,
}

/// The model of a [`Row`].
pub struct RowView {
    pub spacing: u16,
    pub widgets: Seq<WidgetView>,
}

impl DeepView for Row {
    type V = RowView;

    open spec fn deep_view(&self) -> RowView {
        RowView { spacing: self.spacing, widgets: self.widgets.deep_view() }
    }
}

/// One line of a section: a title, and rows of controls one below the other.
#[derive(Debug, PartialEq, Eq)]
pub struct Item {
    pub title: Text,
    pub description: Option<Text>,
    pub rows: Vec<Row>,
}

/// The model of an [`Item`].
pub struct ItemView {
    pub title: labels::TextView,
    pub description: Option<labels::TextView>,
    pub rows: Seq<RowView>,
}

impl DeepView for Item {
    type V = ItemView;

    open spec fn deep_view(&self) -> ItemView {
        ItemView {
            title: self.title.deep_view(),
            description: self.description.deep_view(),
            rows: self.rows.deep_view(),
        }
    }
}

/// A section of the page.
#[derive(Debug, PartialEq, Eq)]
pub struct Section {
    pub title: Label,
    pub items: Vec<Item>,
}

/// The model of a [`Section`].
pub struct SectionView {
    pub title: Label,
    pub items: Seq<ItemView>,
}

impl DeepView for Section {
    type V = SectionView;

    open spec fn deep_view(&self) -> SectionView {
        SectionView { title: self.title, items: self.items.deep_view() }
    }
}

/// The space between controls that belong together.
pub const NARROW: u16 = 4;

/// The space between controls.
pub const WIDE: u16 = 8;

/// A line with one row of controls.
pub open spec fn row_item(
    title: labels::TextView,
    spacing: u16,
    widgets: Seq<WidgetView>,
) -> ItemView {
    ItemView { title, description: None, rows: seq![RowView { spacing, widgets }] }
}

/// A line with one control.
pub open spec fn control_item(title: labels::TextView, widget: WidgetView) -> ItemView {
    row_item(title, WIDE, seq![widget])
}

/// A text that is empty.
pub open spec fn no_title() -> labels::TextView {
    labels::TextView::Plain(Seq::empty())
}

/// A line with one row of controls.
pub fn item_of(title: Text, spacing: u16, widgets: Vec<Widget>) -> (r: Item)
    ensures
        r.deep_view() == row_item(title.deep_view(), spacing, widgets.deep_view()),
{
    let rows = vec![Row { spacing, widgets }];
    assert(rows.deep_view() =~= seq![RowView { spacing, widgets: widgets.deep_view() }]);
    Item { title, description: None, rows }
}

/// A line with one control.
pub fn item_with(title: Text, widget: Widget) -> (r: Item)
    ensures
        r.deep_view() == control_item(title.deep_view(), widget.deep_view()),
{
    let widgets = vec![widget];
    assert(widgets.deep_view() =~= seq![widget.deep_view()]);
    item_of(title, WIDE, widgets)
}

/// A text that is empty.
pub fn empty_text() -> (r: Text)
    ensures
        r.deep_view() == no_title(),
{
    Text::Plain(String::new())
}

/// Adds a control to a row.
pub fn push_widget(widgets: &mut Vec<Widget>, widget: Widget)
    ensures
        final(widgets).deep_view() == old(widgets).deep_view().push(widget.deep_view()),
{
    let ghost before = widgets.deep_view();
    widgets.push(widget);
    assert(widgets.deep_view() =~= before.push(widget.deep_view()));
}

/// Adds a line to a section.
pub fn push_item(items: &mut Vec<Item>, item: Item)
    ensures
        final(items).deep_view() == old(items).deep_view().push(item.deep_view()),
{
    let ghost before = items.deep_view();
    items.push(item);
    assert(items.deep_view() =~= before.push(item.deep_view()));
}

/// A button.
pub fn button(style: ButtonStyle, label: Label, on_press: Option<Message>) -> (r: Widget)
    ensures
        r.deep_view() == (WidgetView::Button { style, label, on_press: on_press.deep_view() }),
{
    Widget::Button { style, label, on_press }
}

} // verus!
