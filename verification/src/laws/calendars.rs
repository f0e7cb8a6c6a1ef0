//! What becomes of calendars, of their colors, and of the settings.

use vstd::prelude::*;

use crate::config;
use crate::config::EncryptionMode;
use crate::laws::events;
use crate::message;
use crate::page;
use crate::page::DEFAULT_COLOR;
use crate::sources;
use crate::task;
use crate::update;

verus! {

/// Whether an address means the calendar at this position: it is the first that has the address.
pub open spec fn means(all: Seq<config::CalDavCalendarView>, href: Seq<char>, k: int) -> bool {
    &&& 0 <= k < all.len()
    &&& all[k].href == href
    &&& forall|j: int| 0 <= j < k ==> (#[trigger] all[j]).href != href
}

/// Whether an address means no calendar.
pub open spec fn means_none(all: Seq<config::CalDavCalendarView>, href: Seq<char>) -> bool {
    forall|j: int| 0 <= j < all.len() ==> (#[trigger] all[j]).href != href
}

/// A search for an address finds the calendar that the address means.
proof fn lemma_found(all: Seq<config::CalDavCalendarView>, href: Seq<char>, k: int)
    requires
        means(all, href, k),
    ensures
        config::has_calendar(all, href),
        config::calendar_index(all, href) == k,
{
    assert(config::is_first_calendar(all, href, k));
    config::lemma_first_calendar(all, href, k);
}

/// A search for an address that means no calendar finds none.
proof fn lemma_not_found(all: Seq<config::CalDavCalendarView>, href: Seq<char>)
    requires
        means_none(all, href),
    ensures
        !config::has_calendar(all, href),
{
    if config::has_calendar(all, href) {
        let k = config::calendar_index(all, href);
        assert(config::is_first_calendar(all, href, k));
        assert(all[k].href != href);
    }
}

/// A source with other calendars, and nothing else changed.
pub open spec fn recalendared(
    source: config::SourceConfigView,
    calendars: Seq<config::CalDavCalendarView>,
) -> config::SourceConfigView {
    config::SourceConfigView {
        source_type: config::SourceTypeView::CalDav {
            url: source.source_type->CalDav_url,
            auth: source.source_type->CalDav_auth,
            calendars,
        },
        ..source
    }
}

/// The calendars of a source with calendars of its own.
pub open spec fn own(source: config::SourceConfigView) -> Seq<config::CalDavCalendarView> {
    source.source_type->CalDav_calendars
}

/// The list with another calendar in the place of one.
pub open spec fn with_calendar(
    all: Seq<config::SourceConfigView>,
    i: int,
    k: int,
    calendar: config::CalDavCalendarView,
) -> Seq<config::SourceConfigView> {
    all.update(i, recalendared(all[i], own(all[i]).update(k, calendar)))
}

// ── Calendars of saved sources ───────────────────────────────────────────

/// A toggle turns exactly the calendar that the address means, of the source that the id means,
/// from on to off or from off to on, and the change is saved.
pub proof fn toggle_turns_one_calendar(
    page: page::PageView,
    id: Seq<char>,
    href: Seq<char>,
    i: int,
    k: int,
    facts: update::FactsView,
)
    requires
        events::means(page.calendar_config.sources, id, i),
        page.calendar_config.sources[i].source_type is CalDav,
        means(own(page.calendar_config.sources[i]), href, k),
    ensures
        ({
            let all = page.calendar_config.sources;
            let calendar = own(all[i])[k];
            page.updated(message::MessageView::ToggleCalendar(id, href), facts) == (
                events::relisted(
                    page,
                    with_calendar(
                        all,
                        i,
                        k,
                        config::CalDavCalendarView { enabled: !calendar.enabled, ..calendar },
                    ),
                ),
                events::saving(task::TaskView::Idle),
            )
        }),
{
    events::lemma_found(page.calendar_config.sources, id, i);
    lemma_found(own(page.calendar_config.sources[i]), href, k);
}

/// A toggle of a calendar that is not there changes nothing.
pub proof fn toggle_of_no_calendar_changes_nothing(
    page: page::PageView,
    id: Seq<char>,
    href: Seq<char>,
    i: int,
    facts: update::FactsView,
)
    requires
        events::means(page.calendar_config.sources, id, i),
        page.calendar_config.sources[i].source_type is CalDav ==> means_none(
            own(page.calendar_config.sources[i]),
            href,
        ),
    ensures
        page.updated(message::MessageView::ToggleCalendar(id, href), facts) == (
            page,
            events::saving(task::TaskView::Idle),
        ),
{
    events::lemma_found(page.calendar_config.sources, id, i);
    if page.calendar_config.sources[i].source_type is CalDav {
        lemma_not_found(own(page.calendar_config.sources[i]), href);
    } else {
        lemma_not_found(Seq::empty(), href);
    }
}

/// Editing the color of a calendar starts with the color that it has, or with that of its source
/// where the calendar is not there, or with the default where there is no such source. Nothing is
/// changed yet.
pub proof fn color_editing_starts_with_the_color(
    page: page::PageView,
    id: Seq<char>,
    href: Seq<char>,
    i: int,
    k: int,
    facts: update::FactsView,
)
    ensures
        ({
            let all = page.calendar_config.sources;
            let edit = page.updated(message::MessageView::EditCalendarColor(id, href), facts);
            let color = edit.0.calendar_color_input;
            &&& edit == (
                page::PageView {
                    editing_calendar_color: Some((id, href)),
                    calendar_color_input: color,
                    ..page
                },
                events::asking(task::TaskView::Idle),
            )
            &&& events::means(all, id, i) && all[i].source_type is CalDav ==> {
                &&& means(own(all[i]), href, k) ==> color == own(all[i])[k].color
                &&& means_none(own(all[i]), href) ==> color == all[i].color
            }
            &&& events::means(all, id, i) && !(all[i].source_type is CalDav) ==> color
                == DEFAULT_COLOR@
            &&& events::means_none(all, id) ==> color == DEFAULT_COLOR@
        }),
{
    let all = page.calendar_config.sources;
    if events::means(all, id, i) {
        events::lemma_found(all, id, i);
        if all[i].source_type is CalDav {
            if means(own(all[i]), href, k) {
                lemma_found(own(all[i]), href, k);
            }
            if means_none(own(all[i]), href) {
                lemma_not_found(own(all[i]), href);
            }
        }
    }
    if events::means_none(all, id) {
        events::lemma_not_found(all, id);
    }
}

/// A color that is saved or chosen goes to exactly the calendar whose color is edited, and the
/// change is saved: on saving the color in the field, after which nothing is edited any more, and
/// on a choice the chosen color, which then also stands in the field.
pub proof fn color_goes_to_the_calendar_that_is_edited(
    page: page::PageView,
    color: Seq<char>,
    id: Seq<char>,
    href: Seq<char>,
    i: int,
    k: int,
    facts: update::FactsView,
)
    requires
        page.editing_calendar_color == Some((id, href)),
        events::means(page.calendar_config.sources, id, i),
        page.calendar_config.sources[i].source_type is CalDav,
        means(own(page.calendar_config.sources[i]), href, k),
    ensures
        ({
            let all = page.calendar_config.sources;
            let calendar = own(all[i])[k];
            let recolored = |c: Seq<char>|
                events::relisted(
                    page,
                    with_calendar(all, i, k, config::CalDavCalendarView { color: c, ..calendar }),
                );
            &&& page.updated(message::MessageView::SaveCalendarColor, facts) == (
                page::PageView {
                    editing_calendar_color: None,
                    ..recolored(page.calendar_color_input)
                },
                events::saving(task::TaskView::Idle),
            )
            &&& page.updated(message::MessageView::CalendarColorPreset(color), facts) == (
                page::PageView { calendar_color_input: color, ..recolored(color) },
                events::saving(task::TaskView::Idle),
            )
        }),
{
    events::lemma_found(page.calendar_config.sources, id, i);
    lemma_found(own(page.calendar_config.sources[i]), href, k);
}

/// Without a calendar whose color is edited, neither saving nor choosing a color changes a source
/// or has anything saved. Cancelling only ends the editing.
pub proof fn colors_of_nothing_change_nothing(
    page: page::PageView,
    color: Seq<char>,
    facts: update::FactsView,
)
    ensures
        page.editing_calendar_color is None ==> page.updated(
            message::MessageView::SaveCalendarColor,
            facts,
        ) == (page, events::asking(task::TaskView::Idle)),
        page.editing_calendar_color is None ==> page.updated(
            message::MessageView::CalendarColorPreset(color),
            facts,
        ) == (
            page::PageView { calendar_color_input: color, ..page },
            events::asking(task::TaskView::Idle),
        ),
        page.updated(message::MessageView::CancelCalendarColor, facts) == (
            page::PageView { editing_calendar_color: None, ..page },
            events::asking(task::TaskView::Idle),
        ),
{
}

/// A color for a calendar that is no longer there changes no source.
pub proof fn color_of_a_lost_calendar_changes_no_source(
    page: page::PageView,
    color: Seq<char>,
    id: Seq<char>,
    href: Seq<char>,
    i: int,
    facts: update::FactsView,
)
    requires
        page.editing_calendar_color == Some((id, href)),
        events::means_none(page.calendar_config.sources, id) || events::means(
            page.calendar_config.sources,
            id,
            i,
        ) && (page.calendar_config.sources[i].source_type is CalDav ==> means_none(
            own(page.calendar_config.sources[i]),
            href,
        )),
    ensures
        page.updated(message::MessageView::SaveCalendarColor, facts) == (
            page::PageView { editing_calendar_color: None, ..page },
            events::saving(task::TaskView::Idle),
        ),
        page.updated(message::MessageView::CalendarColorPreset(color), facts) == (
            page::PageView { calendar_color_input: color, ..page },
            events::saving(task::TaskView::Idle),
        ),
{
    let all = page.calendar_config.sources;
    if events::means_none(all, id) {
        events::lemma_not_found(all, id);
    } else {
        events::lemma_found(all, id, i);
        if all[i].source_type is CalDav {
            lemma_not_found(own(all[i]), href);
        } else {
            lemma_not_found(Seq::empty(), href);
        }
    }
}

/// A merge goes through what was discovered in its order, and takes each calendar whose address is
/// not there yet, at the end.
pub proof fn merging_goes_through_what_was_discovered(
    known: Seq<config::CalDavCalendarView>,
    discovered: Seq<config::CalDavCalendarView>,
    next: config::CalDavCalendarView,
)
    ensures
        sources::merged(known, Seq::empty()) == known,
        ({
            let before = sources::merged(known, discovered);
            sources::merged(known, discovered.push(next)) == if means_none(before, next.href) {
                before.push(next)
            } else {
                before
            }
        }),
{
    let before = sources::merged(known, discovered);
    assert(discovered.push(next).drop_last() =~= discovered);
    if means_none(before, next.href) {
        lemma_not_found(before, next.href);
    } else {
        let j = choose|j: int| 0 <= j < before.len() && (#[trigger] before[j]).href == next.href;
        crate::laws::lemma_calendar_found(before, j);
    }
}

/// Calendars that were discovered are merged into the source that was asked for them. Nothing else
/// in the list changes. The source counts as reached: its discovery is over, and its tokens may be
/// refreshed again. The list is saved.
pub proof fn discovered_calendars_go_to_their_source(
    page: page::PageView,
    id: Seq<char>,
    found: Seq<config::CalDavCalendarView>,
    i: int,
    facts: update::FactsView,
)
    ensures
        ({
            let before = page.calendar_config.sources;
            let discovered = page.updated(message::MessageView::Discovered(id, found), facts);
            let after = discovered.0.calendar_config.sources;
            &&& discovered == (
                page::PageView {
                    discovering_source: None,
                    refresh_attempted: page.refresh_attempted.remove(id),
                    ..events::relisted(page, after)
                },
                events::saving(task::TaskView::Idle),
            )
            &&& events::means(before, id, i) && before[i].source_type is CalDav ==> after
                == before.update(
                i,
                recalendared(before[i], sources::merged(own(before[i]), found)),
            )
            &&& events::means(before, id, i) && !(before[i].source_type is CalDav) ==> after
                == before
            &&& events::means_none(before, id) ==> after == before
        }),
{
    let before = page.calendar_config.sources;
    assert(page.updated(message::MessageView::Discovered(id, found), facts).0 == page.discovered(
        id,
        found,
    ));
    if events::means(before, id, i) {
        events::lemma_found(before, id, i);
        assert(before.update(i, before[i]) =~= before);
    }
    if events::means_none(before, id) {
        events::lemma_not_found(before, id);
    }
}

// ── Calendars in the form ────────────────────────────────────────────────

/// A toggle in the form turns exactly the discovered calendar at this position, and nothing where
/// there is none.
pub proof fn toggle_turns_one_discovered_calendar(
    page: page::PageView,
    index: usize,
    facts: update::FactsView,
)
    ensures
        ({
            let all = page.form_discovered_calendars;
            let calendar = all[index as int];
            page.updated(message::MessageView::FormToggleCalendar(index), facts) == (
                if index < all.len() {
                    page::PageView {
                        form_discovered_calendars: all.update(
                            index as int,
                            config::CalDavCalendarView { enabled: !calendar.enabled, ..calendar },
                        ),
                        ..page
                    }
                } else {
                    page
                },
                events::asking(task::TaskView::Idle),
            )
        }),
{
}

/// Editing the color of a discovered calendar starts with the color that it has, and changes
/// nothing yet. Cancelling only ends it.
pub proof fn color_editing_in_the_form_starts_with_the_color(
    page: page::PageView,
    index: usize,
    facts: update::FactsView,
)
    ensures
        page.updated(message::MessageView::FormCalendarColor(index), facts) == (
            page::PageView {
                form_editing_cal_color: Some(index),
                form_cal_color_input: if index < page.form_discovered_calendars.len() {
                    page.form_discovered_calendars[index as int].color
                } else {
                    DEFAULT_COLOR@
                },
                ..page
            },
            events::asking(task::TaskView::Idle),
        ),
        page.updated(message::MessageView::FormCalColorCancel, facts) == (
            page::PageView { form_editing_cal_color: None, ..page },
            events::asking(task::TaskView::Idle),
        ),
{
}

/// The page with the color of the discovered calendar that is edited, if it is there.
pub open spec fn with_form_color(page: page::PageView, color: Seq<char>) -> page::PageView {
    let all = page.form_discovered_calendars;
    match page.form_editing_cal_color {
        Some(index) if index < all.len() => page::PageView {
            form_discovered_calendars: all.update(
                index as int,
                config::CalDavCalendarView { color, ..all[index as int] },
            ),
            ..page
        },
        _ => page,
    }
}

/// A color that is saved or chosen in the form goes to exactly the discovered calendar whose color
/// is edited: on saving the color in the field, after which nothing is edited any more, and on a
/// choice the chosen color, which then also stands in the field.
pub proof fn color_goes_to_the_discovered_calendar(
    page: page::PageView,
    color: Seq<char>,
    facts: update::FactsView,
)
    ensures
        page.updated(message::MessageView::FormCalColorSave, facts) == (
            page::PageView {
                form_editing_cal_color: None,
                ..with_form_color(page, page.form_cal_color_input)
            },
            events::asking(task::TaskView::Idle),
        ),
        page.updated(message::MessageView::FormCalColorPreset(color), facts) == (
            page::PageView { form_cal_color_input: color, ..with_form_color(page, color) },
            events::asking(task::TaskView::Idle),
        ),
{
}

// ── Settings ─────────────────────────────────────────────────────────────

/// A new interval or a new count is taken over as it is, and saved.
pub proof fn settings_are_taken_over(
    page: page::PageView,
    interval: u64,
    count: usize,
    facts: update::FactsView,
)
    ensures
        page.updated(message::MessageView::SyncInterval(interval), facts) == (
            page::PageView {
                calendar_config: config::CalendarConfigView {
                    sync_interval_minutes: interval,
                    ..page.calendar_config
                },
                ..page
            },
            events::saving(task::TaskView::Idle),
        ),
        page.updated(message::MessageView::UpcomingCount(count), facts) == (
            page::PageView {
                calendar_config: config::CalendarConfigView {
                    upcoming_count: count,
                    ..page.calendar_config
                },
                ..page
            },
            events::saving(task::TaskView::Idle),
        ),
{
}

/// The encryption mode follows its number: nought is off, one is automatic, and any other is
/// manual. A mode that is new is saved and drops the cached events; the one that is there already
/// does nothing.
pub proof fn encryption_mode_follows_its_number(
    page: page::PageView,
    number: usize,
    facts: update::FactsView,
)
    ensures
        ({
            let changed = page.updated(message::MessageView::EncryptionModeChanged(number), facts);
            let mode = changed.0.calendar_config.encryption_mode;
            &&& changed.0 == page::PageView {
                calendar_config: config::CalendarConfigView {
                    encryption_mode: mode,
                    ..page.calendar_config
                },
                ..page
            }
            &&& mode == EncryptionMode::Off <==> number == 0
            &&& mode == EncryptionMode::Auto <==> number == 1
            &&& mode == EncryptionMode::Manual <==> number >= 2
            &&& changed.1 == if mode == page.calendar_config.encryption_mode {
                events::asking(task::TaskView::Idle)
            } else {
                task::OutcomeView { clear_cache: true, ..events::saving(task::TaskView::Idle) }
            }
        }),
{
    assert(page.updated(message::MessageView::EncryptionModeChanged(number), facts)
        == page.change_encryption(number));
}

/// A reload takes the configuration that is stored, and else keeps the one that is there. It
/// changes nothing else.
pub proof fn reload_takes_what_is_stored(page: page::PageView, facts: update::FactsView)
    ensures
        page.updated(message::MessageView::ConfigReload, facts) == (
            page::PageView {
                calendar_config: if facts.stored_config is Some {
                    facts.stored_config->0
                } else {
                    page.calendar_config
                },
                ..page
            },
            events::asking(task::TaskView::Idle),
        ),
{
}

} // verus!
