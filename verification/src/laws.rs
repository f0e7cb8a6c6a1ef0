//! Laws that the page keeps, whatever the user does.

use vstd::prelude::*;

use crate::config;
use crate::discovery;
use crate::labels;
use crate::labels::Label;
use crate::message;
use crate::page;
use crate::secrets::SecretKind;
use crate::sources;
use crate::task;
use crate::text;
use crate::update;

pub mod calendars;
pub mod events;
pub mod protocols;
pub mod reaching;
pub mod saving;
pub mod shown;
pub mod shown_form;
pub mod texts;

verus! {

// ── Sources ──────────────────────────────────────────────────────────────

/// Turning a source off and on again, or on and off, leaves the page as it was.
pub proof fn toggling_a_source_twice_changes_nothing(
    page: page::PageView,
    id: Seq<char>,
    first: update::FactsView,
    second: update::FactsView,
)
    ensures
        page.updated(message::MessageView::ToggleSource(id), first).0.updated(
            message::MessageView::ToggleSource(id),
            second,
        ).0 == page,
{
    let before = page.sources();
    let once = page.updated(message::MessageView::ToggleSource(id), first).0;
    if config::has_source(before, id) {
        let i = config::source_index(before, id);
        assert(config::is_first_source(before, id, i));
        assert(config::is_first_source(once.sources(), id, i));
        config::lemma_first_source(once.sources(), id, i);
        assert(once.sources().update(i, sources::toggled_source(once.sources()[i])) =~= before);
    }
}

/// A source that was removed is gone, the others are all still there in their order, and its
/// secrets are to be forgotten.
pub proof fn removing_a_source_removes_it_alone(
    page: page::PageView,
    id: Seq<char>,
    facts: update::FactsView,
)
    ensures
        ({
            let after = page.updated(message::MessageView::RemoveSource(id), facts);
            &&& !config::has_source(after.0.sources(), id)
            &&& after.0.sources() == page.sources().filter(
                |s: config::SourceConfigView| s.id != id,
            )
            &&& forall|s: config::SourceConfigView|
                s.id != id ==> (page.sources().contains(s) <==> #[trigger]
                after.0.sources().contains(s))
            &&& forall|other: Seq<char>|
                other != id ==> #[trigger] config::find_source(after.0.sources(), other)
                    == config::find_source(page.sources(), other)
            &&& after.1.forget_secrets == Some(id)
        }),
{
    let before = page.sources();
    let kept = |s: config::SourceConfigView| s.id != id;
    let after = before.filter(kept);
    if config::has_source(after, id) {
        let i = config::source_index(after, id);
        assert(config::is_first_source(after, id, i));
        before.lemma_filter_pred(kept, i);
    }
    assert forall|s: config::SourceConfigView| s.id != id implies (before.contains(s)
        <==> #[trigger] after.contains(s)) by {
        if before.contains(s) {
            before.lemma_filter_contains(kept, before.index_of(s));
        }
        if after.contains(s) {
            before.lemma_filter_contains_rev(kept, s);
        }
    }
    assert forall|other: Seq<char>| other != id implies #[trigger] config::find_source(
        after,
        other,
    ) == config::find_source(before, other) by {
        lemma_find_among_kept(before, id, other);
    }
}

/// A search for an id finds the same source after the sources with another id are removed.
proof fn lemma_find_among_kept(
    all: Seq<config::SourceConfigView>,
    removed: Seq<char>,
    id: Seq<char>,
)
    requires
        id != removed,
    ensures
        config::find_source(sources::without_source(all, removed), id) == config::find_source(
            all,
            id,
        ),
    decreases all.len(),
{
    let kept = |s: config::SourceConfigView| s.id != removed;
    reveal(Seq::filter);
    if all.len() > 0 {
        let front = all.drop_last();
        lemma_find_among_kept(front, removed, id);
        lemma_find_in_extended(front, all.last(), id);
        assert(front.push(all.last()) =~= all);
        if kept(all.last()) {
            lemma_find_in_extended(front.filter(kept), all.last(), id);
        }
    } else {
        assert(all.filter(kept) =~= all);
    }
}

/// Where a search for an id finds a source after one more is added at the end.
proof fn lemma_find_in_extended(
    front: Seq<config::SourceConfigView>,
    last: config::SourceConfigView,
    id: Seq<char>,
)
    ensures
        config::find_source(front.push(last), id) == if config::has_source(front, id) {
            config::find_source(front, id)
        } else if last.id == id {
            Some(last)
        } else {
            None
        },
{
    let all = front.push(last);
    if config::has_source(front, id) {
        let i = config::source_index(front, id);
        assert(config::is_first_source(front, id, i));
        assert(config::is_first_source(all, id, i));
        config::lemma_first_source(all, id, i);
    } else {
        lemma_absent(front, id);
        if last.id == id {
            assert(config::is_first_source(all, id, front.len() as int));
            config::lemma_first_source(all, id, front.len() as int);
        } else if config::has_source(all, id) {
            let i = config::source_index(all, id);
            assert(config::is_first_source(all, id, i));
            assert(front[i].id == id);
        }
    }
}

/// Where no source is the first with an id, no source has it.
proof fn lemma_absent(all: Seq<config::SourceConfigView>, id: Seq<char>)
    requires
        !config::has_source(all, id),
    ensures
        forall|i: int| 0 <= i < all.len() ==> (#[trigger] all[i]).id != id,
    decreases all.len(),
{
    if all.len() > 0 {
        let front = all.drop_last();
        if config::has_source(front, id) {
            let i = config::source_index(front, id);
            assert(config::is_first_source(front, id, i));
            assert forall|j: int| 0 <= j < i implies (#[trigger] all[j]).id != id by {
                assert(front[j].id != id);
            }
            assert(config::is_first_source(all, id, i));
        } else {
            lemma_absent(front, id);
            if all.last().id == id {
                assert forall|j: int| 0 <= j < all.len() - 1 implies (#[trigger] all[j]).id
                    != id by {
                    assert(front[j].id != id);
                }
                assert(config::is_first_source(all, id, all.len() - 1));
            }
            assert forall|i: int| 0 <= i < all.len() implies (#[trigger] all[i]).id != id by {
                if i < all.len() - 1 {
                    assert(front[i].id != id);
                }
            }
        }
    }
}

/// The ids of the sources, in their order.
pub open spec fn source_ids(all: Seq<config::SourceConfigView>) -> Seq<Seq<char>> {
    all.map_values(|s: config::SourceConfigView| s.id)
}

/// Only saving from the form, removing, and reading the settings store change which sources there
/// are: every other event leaves their ids and their order alone.
pub proof fn other_events_keep_the_list_of_sources(
    page: page::PageView,
    event: message::MessageView,
    facts: update::FactsView,
)
    requires
        !(event is SaveSource),
        !(event is RemoveSource),
        !(event matches message::MessageView::FormOidcLoginResult(Ok(_))),
        !(event is ConfigReload),
    ensures
        source_ids(page.updated(event, facts).0.sources()) == source_ids(page.sources()),
{
    let all = page.sources();
    match event {
        message::MessageView::ToggleSource(id) => {
            lemma_change_keeps_ids(
                all,
                id,
                |s: config::SourceConfigView| sources::toggled_source(s),
            );
        },
        message::MessageView::SaveEditSource => {
            if let Some(id) = page.editing_source_id {
                let auth = page.form_auth(sources::holds_token(config::find_source(all, id)));
                lemma_change_keeps_ids(
                    all,
                    id,
                    |s: config::SourceConfigView| page.edited(s, auth),
                );
            }
        },
        message::MessageView::Discovered(id, found) => {
            lemma_change_keeps_ids(
                all,
                id,
                |s: config::SourceConfigView|
                    sources::with_calendars(
                        s,
                        sources::merged(sources::calendars_of(s.source_type), found),
                    ),
            );
        },
        message::MessageView::ToggleCalendar(id, href) => {
            lemma_calendars_keep_ids(all, id, href, sources::toggled_calendar());
        },
        message::MessageView::CalendarColorPreset(color) => {
            if let Some(t) = page.editing_calendar_color {
                lemma_calendars_keep_ids(all, t.0, t.1, sources::recolored_calendar(color));
            }
        },
        message::MessageView::SaveCalendarColor => {
            if let Some(t) = page.editing_calendar_color {
                let color = page.calendar_color_input;
                lemma_calendars_keep_ids(all, t.0, t.1, sources::recolored_calendar(color));
            }
        },
        message::MessageView::OidcResult(Ok(t)) => {
            lemma_change_keeps_ids(all, t.0, |s: config::SourceConfigView| sources::signed_in(s));
        },
        _ => {},
    }
}

/// A change of one source that keeps its id keeps the ids of all.
proof fn lemma_change_keeps_ids(
    all: Seq<config::SourceConfigView>,
    id: Seq<char>,
    change: spec_fn(config::SourceConfigView) -> config::SourceConfigView,
)
    requires
        forall|s: config::SourceConfigView| (#[trigger] change(s)).id == s.id,
    ensures
        source_ids(sources::change_source(all, id, change)) == source_ids(all),
{
    if config::has_source(all, id) {
        let i = config::source_index(all, id);
        assert(config::is_first_source(all, id, i));
    }
    assert(source_ids(sources::change_source(all, id, change)) =~= source_ids(all));
}

/// A change of one calendar keeps the ids of all sources.
proof fn lemma_calendars_keep_ids(
    all: Seq<config::SourceConfigView>,
    id: Seq<char>,
    href: Seq<char>,
    change: spec_fn(config::CalDavCalendarView) -> config::CalDavCalendarView,
)
    ensures
        source_ids(sources::change_calendar(all, id, href, change)) == source_ids(all),
{
    if config::has_source(all, id) {
        let i = config::source_index(all, id);
        assert(config::is_first_source(all, id, i));
    }
    assert(source_ids(sources::change_calendar(all, id, href, change)) =~= source_ids(all));
}

/// Adding a source from the form puts it at the end, and leaves the others as they are.
pub proof fn saving_a_new_source_adds_it_at_the_end(page: page::PageView, facts: update::FactsView)
    requires
        page.form_valid(facts.form_path_exists),
    ensures
        ({
            let after = page.updated(message::MessageView::SaveSource, facts).0.sources();
            &&& after.len() == page.sources().len() + 1
            &&& after.drop_last() == page.sources()
            &&& after.last().name == page.form_name
            &&& after.last().color == page.form_color
        }),
{
    let after = page.updated(message::MessageView::SaveSource, facts).0.sources();
    assert(after.drop_last() =~= page.sources());
}

/// Removing sources keeps the ids of the others apart.
proof fn lemma_removal_keeps_ids_apart(all: Seq<config::SourceConfigView>, removed: Seq<char>)
    requires
        source_ids(all).no_duplicates(),
    ensures
        source_ids(sources::without_source(all, removed)).no_duplicates(),
    decreases all.len(),
{
    let kept = |s: config::SourceConfigView| s.id != removed;
    reveal(Seq::filter);
    if all.len() > 0 {
        let front = all.drop_last();
        let last = all.last();
        assert(source_ids(front) =~= source_ids(all).drop_last());
        lemma_removal_keeps_ids_apart(front, removed);
        let rest = front.filter(kept);
        if kept(last) {
            assert forall|i: int| 0 <= i < rest.len() implies (#[trigger] rest[i]).id
                != last.id by {
                assert(rest.contains(rest[i]));
                front.lemma_filter_contains_rev(kept, rest[i]);
                let k = front.index_of(rest[i]);
                assert(source_ids(all)[k] == rest[i].id);
                assert(source_ids(all)[all.len() - 1] == last.id);
            }
            assert(source_ids(rest.push(last)) =~= source_ids(rest).push(last.id));
        }
    }
}

/// If all sources have different ids, and one that is about to be saved has yet another, they all
/// still have different ids afterwards, whatever the event is. What the settings store holds is
/// not looked at.
pub proof fn ids_stay_apart(
    page: page::PageView,
    event: message::MessageView,
    facts: update::FactsView,
)
    requires
        source_ids(page.sources()).no_duplicates(),
        !(event is ConfigReload),
        event is SaveSource ==> !config::has_source(page.sources(), page.id_to_save(facts.fresh)),
        event is FormOidcLoginResult ==> !config::has_source(page.sources(), page.form_source_id),
    ensures
        source_ids(page.updated(event, facts).0.sources()).no_duplicates(),
{
    let all = page.sources();
    match event {
        message::MessageView::RemoveSource(id) => {
            lemma_removal_keeps_ids_apart(all, id);
        },
        message::MessageView::SaveSource => {
            let id = page.id_to_save(facts.fresh);
            lemma_absent(all, id);
            assert(page.updated(event, facts) == page.save_source(facts));
            if page.form_valid(facts.form_path_exists) {
                let after = page.save_source(facts).0.sources();
                assert(source_ids(after) =~= source_ids(all).push(id));
            }
        },
        message::MessageView::FormOidcLoginResult(Ok(t)) => {
            let id = page.form_source_id;
            lemma_absent(all, id);
            let signed_in = page.form_signed_in(t.0, t.1, facts);
            assert(page.updated(event, facts) == signed_in);
            if page.form_valid(facts.form_path_exists) && page.form_source_type == 0 {
                assert(source_ids(signed_in.0.sources()) =~= source_ids(all).push(id));
            }
        },
        _ => {
            other_events_keep_the_list_of_sources(page, event, facts);
        },
    }
}

// ── Calendars ────────────────────────────────────────────────────────────

/// Turning a calendar off and on again, or on and off, leaves the page as it was.
pub proof fn toggling_a_calendar_twice_changes_nothing(
    page: page::PageView,
    id: Seq<char>,
    href: Seq<char>,
    first: update::FactsView,
    second: update::FactsView,
)
    ensures
        page.updated(message::MessageView::ToggleCalendar(id, href), first).0.updated(
            message::MessageView::ToggleCalendar(id, href),
            second,
        ).0 == page,
{
    let before = page.sources();
    let once = page.updated(message::MessageView::ToggleCalendar(id, href), first).0.sources();
    if config::has_source(before, id) {
        let i = config::source_index(before, id);
        assert(config::is_first_source(before, id, i));
        let known = sources::calendars_of(before[i].source_type);
        if config::has_calendar(known, href) {
            let k = config::calendar_index(known, href);
            assert(config::is_first_calendar(known, href, k));
            assert(config::is_first_source(once, id, i));
            config::lemma_first_source(once, id, i);
            let changed = sources::calendars_of(once[i].source_type);
            assert(changed == known.update(k, sources::toggled_calendar()(known[k])));
            assert(config::is_first_calendar(changed, href, k));
            config::lemma_first_calendar(changed, href, k);
            assert(changed.update(k, sources::toggled_calendar()(changed[k])) =~= known);
            assert(before.update(i, once[i]).update(i, before[i]) =~= before);
        }
    }
}

/// The addresses of the calendars, in their order.
pub open spec fn calendar_hrefs(all: Seq<config::CalDavCalendarView>) -> Seq<Seq<char>> {
    all.map_values(|c: config::CalDavCalendarView| c.href)
}

/// Where no calendar is the first with an address, no calendar has it.
proof fn lemma_no_such_calendar(all: Seq<config::CalDavCalendarView>, href: Seq<char>)
    requires
        !config::has_calendar(all, href),
    ensures
        forall|i: int| 0 <= i < all.len() ==> (#[trigger] all[i]).href != href,
    decreases all.len(),
{
    if all.len() > 0 {
        let front = all.drop_last();
        if config::has_calendar(front, href) {
            let i = config::calendar_index(front, href);
            assert(config::is_first_calendar(front, href, i));
            assert forall|j: int| 0 <= j < i implies (#[trigger] all[j]).href != href by {
                assert(front[j].href != href);
            }
            assert(config::is_first_calendar(all, href, i));
        } else {
            lemma_no_such_calendar(front, href);
            if all.last().href == href {
                assert forall|j: int| 0 <= j < all.len() - 1 implies (#[trigger] all[j]).href
                    != href by {
                    assert(front[j].href != href);
                }
                assert(config::is_first_calendar(all, href, all.len() - 1));
            }
            assert forall|i: int| 0 <= i < all.len() implies (#[trigger] all[i]).href != href by {
                if i < all.len() - 1 {
                    assert(front[i].href != href);
                }
            }
        }
    }
}

/// An address that some calendar has is found.
pub proof fn lemma_calendar_found(all: Seq<config::CalDavCalendarView>, i: int)
    requires
        0 <= i < all.len(),
    ensures
        config::has_calendar(all, all[i].href),
{
    if !config::has_calendar(all, all[i].href) {
        lemma_no_such_calendar(all, all[i].href);
    }
}

/// A merge leaves the calendars that were there at the front, untouched: names, colors and
/// whether they are on are kept.
pub proof fn merging_keeps_known_calendars(
    known: Seq<config::CalDavCalendarView>,
    discovered: Seq<config::CalDavCalendarView>,
)
    ensures
        known.is_prefix_of(sources::merged(known, discovered)),
    decreases discovered.len(),
{
    if discovered.len() > 0 {
        merging_keeps_known_calendars(known, discovered.drop_last());
    }
}

/// After a merge every discovered address is there.
pub proof fn merging_adds_every_discovered_calendar(
    known: Seq<config::CalDavCalendarView>,
    discovered: Seq<config::CalDavCalendarView>,
)
    ensures
        forall|i: int|
            0 <= i < discovered.len() ==> config::has_calendar(
                sources::merged(known, discovered),
                (#[trigger] discovered[i]).href,
            ),
    decreases discovered.len(),
{
    if discovered.len() > 0 {
        let front = discovered.drop_last();
        let before = sources::merged(known, front);
        let after = sources::merged(known, discovered);
        merging_adds_every_discovered_calendar(known, front);
        assert forall|i: int| 0 <= i < discovered.len() implies config::has_calendar(
            after,
            (#[trigger] discovered[i]).href,
        ) by {
            if i < discovered.len() - 1 {
                assert(front[i] == discovered[i]);
                let k = config::calendar_index(before, front[i].href);
                assert(config::is_first_calendar(before, front[i].href, k));
                lemma_calendar_found(after, k);
            } else if !config::has_calendar(before, discovered.last().href) {
                lemma_calendar_found(after, after.len() - 1);
            }
        }
    }
}

/// Every calendar after a merge was there before, or was discovered.
pub proof fn merging_invents_no_calendar(
    known: Seq<config::CalDavCalendarView>,
    discovered: Seq<config::CalDavCalendarView>,
)
    ensures
        forall|i: int|
            0 <= i < sources::merged(known, discovered).len() ==> known.contains(
                #[trigger] sources::merged(known, discovered)[i],
            ) || discovered.contains(sources::merged(known, discovered)[i]),
    decreases discovered.len(),
{
    let after = sources::merged(known, discovered);
    if discovered.len() > 0 {
        let front = discovered.drop_last();
        let before = sources::merged(known, front);
        merging_invents_no_calendar(known, front);
        assert forall|i: int| 0 <= i < after.len() implies known.contains(#[trigger] after[i])
            || discovered.contains(after[i]) by {
            if i < before.len() {
                assert(after[i] == before[i]);
                if front.contains(before[i]) {
                    let k = front.index_of(before[i]);
                    assert(discovered[k] == before[i]);
                }
            } else {
                assert(discovered[discovered.len() - 1] == after[i]);
            }
        }
    } else {
        assert forall|i: int| 0 <= i < after.len() implies known.contains(#[trigger] after[i]) by {
            assert(known[i] == after[i]);
        }
    }
}

/// If no address occurred twice before a merge, none does after it.
pub proof fn merging_keeps_addresses_apart(
    known: Seq<config::CalDavCalendarView>,
    discovered: Seq<config::CalDavCalendarView>,
)
    requires
        calendar_hrefs(known).no_duplicates(),
    ensures
        calendar_hrefs(sources::merged(known, discovered)).no_duplicates(),
    decreases discovered.len(),
{
    if discovered.len() > 0 {
        let before = sources::merged(known, discovered.drop_last());
        let last = discovered.last();
        merging_keeps_addresses_apart(known, discovered.drop_last());
        if !config::has_calendar(before, last.href) {
            lemma_no_such_calendar(before, last.href);
            assert(calendar_hrefs(before.push(last)) =~= calendar_hrefs(before).push(last.href));
        }
    }
}

/// A merge of calendars that are all there already changes nothing.
proof fn lemma_merge_of_known(
    known: Seq<config::CalDavCalendarView>,
    discovered: Seq<config::CalDavCalendarView>,
)
    requires
        forall|i: int|
            0 <= i < discovered.len() ==> config::has_calendar(
                known,
                (#[trigger] discovered[i]).href,
            ),
    ensures
        sources::merged(known, discovered) == known,
    decreases discovered.len(),
{
    if discovered.len() > 0 {
        let front = discovered.drop_last();
        assert forall|i: int| 0 <= i < front.len() implies config::has_calendar(
            known,
            (#[trigger] front[i]).href,
        ) by {
            assert(discovered[i] == front[i]);
        }
        lemma_merge_of_known(known, front);
        assert(discovered[discovered.len() - 1] == discovered.last());
    }
}

/// Finding the same calendars once more changes nothing.
pub proof fn merging_twice_is_merging_once(
    known: Seq<config::CalDavCalendarView>,
    discovered: Seq<config::CalDavCalendarView>,
)
    ensures
        sources::merged(sources::merged(known, discovered), discovered) == sources::merged(
            known,
            discovered,
        ),
{
    merging_adds_every_discovered_calendar(known, discovered);
    lemma_merge_of_known(sources::merged(known, discovered), discovered);
}

/// A source that was put in the place of one with its id is found there, and putting it there once
/// more changes nothing.
proof fn lemma_find_replaced(
    sources: Seq<config::SourceConfigView>,
    id: Seq<char>,
    source: config::SourceConfigView,
)
    requires
        config::has_source(sources, id),
        source.id == id,
    ensures
        config::find_source(config::replace_source(sources, id, source), id) == Some(source),
        config::replace_source(config::replace_source(sources, id, source), id, source)
            == config::replace_source(sources, id, source),
{
    let i = config::source_index(sources, id);
    let replaced = sources.update(i, source);
    assert(config::is_first_source(sources, id, i));
    assert(config::is_first_source(replaced, id, i));
    config::lemma_first_source(replaced, id, i);
    assert(replaced.update(i, source) =~= replaced);
}

/// Discovering the same calendars of a source once more leaves the configuration as it is.
pub proof fn discovering_twice_changes_nothing_more(
    page: page::PageView,
    id: Seq<char>,
    calendars: Seq<config::CalDavCalendarView>,
    first: update::FactsView,
    second: update::FactsView,
)
    ensures
        ({
            let event = message::MessageView::Discovered(id, calendars);
            let once = page.updated(event, first).0;
            once.updated(event, second).0.calendar_config == once.calendar_config
        }),
{
    let event = message::MessageView::Discovered(id, calendars);
    let once = page.discovered(id, calendars);
    assert(page.updated(event, first).0 == once);
    assert(once.updated(event, second).0 == once.discovered(id, calendars));
    if let Some(source) = config::find_source(page.sources(), id) {
        let known = sources::calendars_of(source.source_type);
        let after = sources::with_calendars(source, sources::merged(known, calendars));
        merging_twice_is_merging_once(known, calendars);
        lemma_find_replaced(page.sources(), id, after);
        assert(once.sources() == config::replace_source(page.sources(), id, after));
        assert(once.discovered(id, calendars).sources() == once.sources());
    }
}

// ── The settings store ───────────────────────────────────────────────────

/// No change of the configuration is lost: an event that changes it asks for it to be saved,
/// unless the change came out of the settings store.
pub proof fn every_change_is_saved(
    page: page::PageView,
    event: message::MessageView,
    facts: update::FactsView,
)
    requires
        !(event is ConfigReload),
        page.updated(event, facts).0.calendar_config != page.calendar_config,
    ensures
        page.updated(event, facts).1.save_config,
{
}

/// Reading back what was saved changes nothing.
pub proof fn reloading_what_was_saved_changes_nothing(
    page: page::PageView,
    facts: update::FactsView,
)
    requires
        facts.stored_config == Some(page.calendar_config),
    ensures
        page.updated(message::MessageView::ConfigReload, facts).0 == page,
{
}

/// The cached events are dropped exactly when another encryption mode is chosen.
pub proof fn cache_is_dropped_with_its_encryption(
    page: page::PageView,
    event: message::MessageView,
    facts: update::FactsView,
)
    requires
        !(event is ConfigReload),
    ensures
        page.updated(event, facts).1.clear_cache
            <==> page.updated(event, facts).0.calendar_config.encryption_mode
            != page.calendar_config.encryption_mode,
{
    if let message::MessageView::EncryptionModeChanged(number) = event {
        assert(page.updated(event, facts) == page.change_encryption(number));
    } else {
        lemma_mode_is_kept(page, event, facts);
        lemma_cache_is_kept(page, event, facts);
    }
}

/// The events after which the configuration is saved.
pub open spec fn is_saved_event(event: message::MessageView) -> bool {
    ||| event is RemoveSource
    ||| event is ToggleSource
    ||| event is SaveSource
    ||| event is SaveEditSource
    ||| event is FormOidcLoginResult
    ||| event is Discovered
    ||| event is ToggleCalendar
    ||| event is CalendarColorPreset
    ||| event is SaveCalendarColor
    ||| event is OidcResult
    ||| event is SyncInterval
    ||| event is UpcomingCount
    ||| event is EncryptionModeChanged
}

/// No other event has the configuration saved.
proof fn lemma_other_events_are_not_saved(
    page: page::PageView,
    event: message::MessageView,
    facts: update::FactsView,
)
    requires
        page.updated(event, facts).1.save_config,
    ensures
        is_saved_event(event),
{
}

/// Other events leave the encryption mode alone.
proof fn lemma_mode_is_kept(
    page: page::PageView,
    event: message::MessageView,
    facts: update::FactsView,
)
    requires
        !(event is ConfigReload),
        !(event is EncryptionModeChanged),
    ensures
        page.updated(event, facts).0.calendar_config.encryption_mode
            == page.calendar_config.encryption_mode,
{
    if page.updated(event, facts).0.calendar_config != page.calendar_config {
        every_change_is_saved(page, event, facts);
        lemma_other_events_are_not_saved(page, event, facts);
    }
}

/// Other events leave the cached events alone.
proof fn lemma_cache_is_kept(
    page: page::PageView,
    event: message::MessageView,
    facts: update::FactsView,
)
    requires
        !(event is EncryptionModeChanged),
    ensures
        !page.updated(event, facts).1.clear_cache,
{
}

/// Choosing the same encryption mode once more does nothing.
pub proof fn choosing_a_mode_twice_is_choosing_it_once(
    page: page::PageView,
    number: usize,
    first: update::FactsView,
    second: update::FactsView,
)
    ensures
        ({
            let once = page.updated(
                message::MessageView::EncryptionModeChanged(number),
                first,
            ).0;
            once.updated(message::MessageView::EncryptionModeChanged(number), second) == (
                once,
                task::OutcomeView::nothing(),
            )
        }),
{
    let once = page.change_encryption(number).0;
    assert(page.updated(message::MessageView::EncryptionModeChanged(number), first).0 == once);
    assert(once.calendar_config.encryption_mode == update::encryption_mode(number));
}

// ── The form ─────────────────────────────────────────────────────────────

/// Whether no secret is in the form.
pub open spec fn holds_no_secret(page: page::PageView) -> bool {
    &&& page.form_password == Seq::<char>::empty()
    &&& page.form_token == Seq::<char>::empty()
    &&& page.form_oidc_client_secret == Seq::<char>::empty()
}

/// A form that is opened, closed or saved holds no secret afterwards, unless the event did nothing
/// at all: secrets that were stored are never filled in, and secrets that were typed are dropped.
pub proof fn form_forgets_its_secrets(
    page: page::PageView,
    event: message::MessageView,
    facts: update::FactsView,
)
    requires
        event is AddSource || event is EditSource || event is SaveSource || event is SaveEditSource
            || event is CancelForm,
    ensures
        page.updated(event, facts).0 == page || holds_no_secret(page.updated(event, facts).0),
{
}

/// A form that cannot be saved is not: nothing changes, and nothing is asked of the caller.
pub proof fn invalid_form_is_not_saved(page: page::PageView, facts: update::FactsView)
    requires
        !page.form_valid(facts.form_path_exists),
    ensures
        page.updated(message::MessageView::SaveSource, facts) == (
            page,
            task::OutcomeView::nothing(),
        ),
        page.updated(message::MessageView::SaveEditSource, facts) == (
            page,
            task::OutcomeView::nothing(),
        ),
        page.updated(message::MessageView::FormDiscover, facts) == (
            page,
            task::OutcomeView::nothing(),
        ),
{
}

/// Whether a source comes out of the form as it went in: its certificate path is not blank, and
/// if it signs in through OIDC, its scopes can be written in one line and it has no client
/// secret.
pub open spec fn fits_the_form(source: config::SourceConfigView) -> bool {
    &&& source.ca_cert_path matches Some(path) ==> !text::is_blank(path)
    &&& source.source_type.auth() matches Some(
        config::AuthMethodView::Oidc { has_client_secret, scopes, .. },
    ) ==> !has_client_secret && page::scope_list(text::joined(scopes, ", "@)) == scopes
}

/// Opening the form on a source and saving it untouched leaves every source as it was, deletes no
/// secret and stores none.
pub proof fn saving_an_untouched_form_changes_no_source(
    page: page::PageView,
    id: Seq<char>,
    first: update::FactsView,
    second: update::FactsView,
)
    requires
        config::find_source(page.sources(), id) matches Some(source) && fits_the_form(source),
        page.updated(message::MessageView::EditSource(id), first).0.form_valid(
            second.form_path_exists,
        ),
    ensures
        ({
            let saved = page.updated(message::MessageView::EditSource(id), first).0.updated(
                message::MessageView::SaveEditSource,
                second,
            );
            &&& saved.0.sources() == page.sources()
            &&& saved.1.task matches task::TaskView::Keyring { clear, writes, .. } && clear is None
                && writes.len() == 0
        }),
{
    let all = page.sources();
    let opened = page.updated(message::MessageView::EditSource(id), first).0;
    let i = config::source_index(all, id);
    assert(config::is_first_source(all, id, i));
    let source = all[i];
    let auth = opened.form_auth(sources::holds_token(Some(source)));
    assert(opened.sources() == all);
    assert(opened.edited(source, auth) == source);
    assert(all.update(i, source) =~= all);
}

/// Saving an edited source changes that source alone. It keeps its id, whether it is on, and, while
/// it has calendars of its own, those. Its old secrets are deleted exactly if the number of the
/// authentication in the form, in eight bits, is another than its own was. If the form stands on
/// one of the four ways to prove who one is that it offers, and the saved source is of a type that
/// has them, that is exactly if the source now does so in another way.
pub proof fn saving_an_edit_changes_one_source(
    page: page::PageView,
    id: Seq<char>,
    facts: update::FactsView,
)
    requires
        page.editing_source_id == Some(id),
        page.form_valid(facts.form_path_exists),
        config::has_source(page.sources(), id),
    ensures
        ({
            let saved = page.updated(message::MessageView::SaveEditSource, facts);
            let before = page.sources();
            let after = saved.0.sources();
            let i = config::source_index(before, id);
            &&& after == before.update(i, after[i])
            &&& after[i].id == id
            &&& after[i].enabled == before[i].enabled
            &&& page.form_source_type == 0 ==> sources::calendars_of(after[i].source_type)
                == sources::calendars_of(before[i].source_type)
            &&& saved.1.task matches task::TaskView::Keyring { clear, .. } && clear == (
            if sources::auth_number(before[i].source_type.auth()) != page.form_auth_method as u8 {
                Some(id)
            } else {
                None
            })
            &&& page.form_auth_method < 4 && after[i].source_type.auth() is Some ==> (
            saved.1.task->clear is Some <==> sources::auth_number(after[i].source_type.auth())
                != sources::auth_number(before[i].source_type.auth()))
        }),
{
    let before = page.sources();
    let i = config::source_index(before, id);
    assert(config::is_first_source(before, id, i));
    let saved = page.save_edit_source(facts);
    assert(page.updated(message::MessageView::SaveEditSource, facts) == saved);
    assert(saved.0.sources() =~= before.update(i, saved.0.sources()[i]));
}

/// What follows a text without a separator in it belongs to its last piece.
proof fn lemma_last_piece(front: Seq<char>, rest: Seq<char>, sep: char)
    requires
        !rest.contains(sep),
    ensures
        ({
            let pieces = text::split_on(front, sep);
            text::split_on(front + rest, sep) == pieces.update(
                pieces.len() - 1,
                pieces.last() + rest,
            )
        }),
    decreases rest.len(),
{
    let pieces = text::split_on(front, sep);
    text::lemma_split_on_some(front, sep);
    if rest.len() == 0 {
        assert(front + rest =~= front);
        assert(pieces.last() + rest =~= pieces.last());
        assert(pieces.update(pieces.len() - 1, pieces.last() + rest) =~= pieces);
    } else {
        let shorter = rest.drop_last();
        assert forall|i: int| 0 <= i < shorter.len() implies shorter[i] != sep by {
            assert(rest[i] != sep);
        }
        lemma_last_piece(front, shorter, sep);
        assert((front + rest).drop_last() =~= front + shorter);
        assert(rest[rest.len() - 1] != sep);
        assert((pieces.last() + shorter).push(rest.last()) =~= pieces.last() + rest);
        assert(text::split_on(front + rest, sep) =~= pieces.update(
            pieces.len() - 1,
            pieces.last() + rest,
        ));
    }
}

/// Whether a scope can be written in a list in one line.
pub open spec fn is_writable_scope(scope: Seq<char>) -> bool {
    &&& scope.len() > 0
    &&& !scope.contains(',')
    &&& text::trimmed(scope) == scope
}

/// The pieces of a list of scopes in one line.
proof fn lemma_pieces_of_scopes(scopes: Seq<Seq<char>>)
    requires
        scopes.len() > 0,
        forall|i: int| 0 <= i < scopes.len() ==> is_writable_scope(#[trigger] scopes[i]),
    ensures
        text::split_on(text::joined(scopes, ", "@), ',') == Seq::new(
            scopes.len(),
            |i: int|
                if i == 0 {
                    scopes[i]
                } else {
                    seq![' '] + scopes[i]
                },
        ),
    decreases scopes.len(),
{
    reveal_strlit(", ");
    let pieces = Seq::new(
        scopes.len(),
        |i: int|
            if i == 0 {
                scopes[i]
            } else {
                seq![' '] + scopes[i]
            },
    );
    let line = text::joined(scopes, ", "@);
    assert(is_writable_scope(scopes[scopes.len() - 1]));
    if scopes.len() == 1 {
        lemma_one_piece(scopes[0], ',');
        assert(pieces =~= seq![scopes[0]]);
    } else {
        let front = scopes.drop_last();
        assert forall|i: int| 0 <= i < front.len() implies is_writable_scope(
            #[trigger] front[i],
        ) by {
            assert(front[i] == scopes[i]);
        }
        lemma_pieces_of_scopes(front);
        let before = text::joined(front, ", "@);
        let rest = seq![' '] + scopes.last();
        assert(line =~= before.push(',') + rest);
        assert forall|i: int| 0 <= i < rest.len() implies rest[i] != ',' by {
            if i > 0 {
                assert(scopes.last()[i - 1] != ',');
            }
        }
        lemma_last_piece(before.push(','), rest, ',');
        assert(before.push(',').drop_last() =~= before);
        assert(Seq::<char>::empty() + rest =~= rest);
        assert(text::split_on(line, ',') =~= pieces);
    }
}

/// A filter that lets everything through changes nothing.
proof fn lemma_all_kept(all: Seq<Seq<char>>, kept: spec_fn(Seq<char>) -> bool)
    requires
        forall|i: int| 0 <= i < all.len() ==> kept(#[trigger] all[i]),
    ensures
        all.filter(kept) == all,
    decreases all.len(),
{
    reveal(Seq::filter);
    if all.len() > 0 {
        let front = all.drop_last();
        assert forall|i: int| 0 <= i < front.len() implies kept(#[trigger] front[i]) by {
            assert(front[i] == all[i]);
        }
        lemma_all_kept(front, kept);
        assert(kept(all[all.len() - 1]));
        assert(front.push(all.last()) =~= all);
    } else {
        assert(all.filter(kept) =~= all);
    }
}

/// Scopes that the form shows in one line are read back as they were, if none of them is empty, has
/// white space at an end, or has a comma in it.
pub proof fn shown_scopes_are_read_back(scopes: Seq<Seq<char>>)
    requires
        forall|i: int| 0 <= i < scopes.len() ==> is_writable_scope(#[trigger] scopes[i]),
    ensures
        page::scope_list(text::joined(scopes, ", "@)) == scopes,
{
    let line = text::joined(scopes, ", "@);
    let trim = |s: Seq<char>| text::trimmed(s);
    let kept = |s: Seq<char>| s.len() > 0;
    let pieces = text::split_on(line, ',').map_values(trim);
    reveal(Seq::filter);
    if scopes.len() == 0 {
        assert(pieces =~= seq![text::trimmed(line)]);
        lemma_all_kept(pieces.drop_last(), kept);
        assert(pieces.filter(kept) =~= scopes);
    } else {
        lemma_pieces_of_scopes(scopes);
        assert forall|i: int| 0 <= i < scopes.len() implies pieces[i] == scopes[i] by {
            assert(is_writable_scope(scopes[i]));
            if i > 0 {
                assert((seq![' '] + scopes[i]).skip(1) =~= scopes[i]);
            }
        }
        assert(pieces =~= scopes);
        assert forall|i: int| 0 <= i < pieces.len() implies kept(#[trigger] pieces[i]) by {
            assert(is_writable_scope(scopes[i]));
        }
        lemma_all_kept(pieces, kept);
    }
}

// ── Sign-in ──────────────────────────────────────────────────────────────

/// The page after these events, one after the other.
pub open spec fn after(
    page: page::PageView,
    events: Seq<(message::MessageView, update::FactsView)>,
) -> page::PageView
    decreases events.len(),
{
    if events.len() == 0 {
        page
    } else {
        after(page, events.drop_last()).updated(events.last().0, events.last().1).0
    }
}

/// Whether an event tells that the source with this id has been reached, or has signed in anew.
pub open spec fn clears_refresh(event: message::MessageView, id: Seq<char>) -> bool {
    match event {
        message::MessageView::Discovered(found, _) => found == id,
        message::MessageView::OidcResult(Ok(t)) => t.0 == id,
        _ => false,
    }
}

/// Only reaching a source, or signing in for it, makes a page forget that its tokens were
/// refreshed.
proof fn lemma_refresh_is_remembered(
    page: page::PageView,
    id: Seq<char>,
    event: message::MessageView,
    facts: update::FactsView,
)
    requires
        page.refresh_attempted.contains(id),
        !clears_refresh(event, id),
    ensures
        page.updated(event, facts).0.refresh_attempted.contains(id),
{
}

/// As [`lemma_refresh_is_remembered`], for any number of events.
proof fn lemma_refresh_stays_remembered(
    page: page::PageView,
    id: Seq<char>,
    events: Seq<(message::MessageView, update::FactsView)>,
)
    requires
        page.refresh_attempted.contains(id),
        forall|i: int| 0 <= i < events.len() ==> !clears_refresh((#[trigger] events[i]).0, id),
    ensures
        after(page, events).refresh_attempted.contains(id),
    decreases events.len(),
{
    if events.len() > 0 {
        let front = events.drop_last();
        assert forall|i: int| 0 <= i < front.len() implies !clears_refresh(
            (#[trigger] front[i]).0,
            id,
        ) by {
            assert(front[i] == events[i]);
        }
        lemma_refresh_stays_remembered(page, id, front);
        assert(events[events.len() - 1] == events.last());
        lemma_refresh_is_remembered(after(page, front), id, events.last().0, events.last().1);
    }
}

/// Refreshing never loops: once a failed discovery led to a refresh of a source's tokens, no
/// failed discovery of that source does so again, and its error is shown, until the source was
/// reached or its user signed in anew.
pub proof fn tokens_are_refreshed_once(
    page: page::PageView,
    id: Seq<char>,
    first_error: Seq<char>,
    first: update::FactsView,
    events: Seq<(message::MessageView, update::FactsView)>,
    second_error: Seq<char>,
    second: update::FactsView,
)
    requires
        page.updated(
            message::MessageView::DiscoverError(id, first_error),
            first,
        ).1.task is Refresh,
        forall|i: int| 0 <= i < events.len() ==> !clears_refresh((#[trigger] events[i]).0, id),
    ensures
        ({
            let refreshed = page.updated(
                message::MessageView::DiscoverError(id, first_error),
                first,
            ).0;
            let failed = after(refreshed, events).updated(
                message::MessageView::DiscoverError(id, second_error),
                second,
            );
            &&& failed.1 == task::OutcomeView::nothing()
            &&& failed.0.discovery_error == Some(labels::TextView::Plain(second_error))
        }),
{
    let refreshed = page.discover_failed(id, first_error).0;
    assert(page.updated(message::MessageView::DiscoverError(id, first_error), first)
        == page.discover_failed(id, first_error));
    lemma_refresh_stays_remembered(refreshed, id, events);
    let later = after(refreshed, events);
    assert(later.updated(message::MessageView::DiscoverError(id, second_error), second)
        == later.discover_failed(id, second_error));
}

/// Whether an event opens, closes or fills the form, or signs in for it.
pub open spec fn resets_form(event: message::MessageView) -> bool {
    ||| event is AddSource
    ||| event is EditSource
    ||| event is SaveSource
    ||| event is SaveEditSource
    ||| event is CancelForm
    ||| event is FormOidcLoginResult
    ||| event is OidcSavedAndDiscover
}

/// Other events keep the id of the form, and whether the user signed in.
proof fn lemma_form_id_is_kept(
    page: page::PageView,
    event: message::MessageView,
    facts: update::FactsView,
)
    requires
        !resets_form(event),
    ensures
        page.updated(event, facts).0.form_source_id == page.form_source_id,
        page.updated(event, facts).0.form_oidc_logged_in == page.form_oidc_logged_in,
{
}

/// As [`lemma_form_id_is_kept`], for any number of events.
proof fn lemma_form_id_stays(
    page: page::PageView,
    events: Seq<(message::MessageView, update::FactsView)>,
)
    requires
        forall|i: int| 0 <= i < events.len() ==> !resets_form((#[trigger] events[i]).0),
    ensures
        after(page, events).form_source_id == page.form_source_id,
        after(page, events).form_oidc_logged_in == page.form_oidc_logged_in,
    decreases events.len(),
{
    if events.len() > 0 {
        let front = events.drop_last();
        assert forall|i: int| 0 <= i < front.len() implies !resets_form(
            (#[trigger] front[i]).0,
        ) by {
            assert(front[i] == events[i]);
        }
        lemma_form_id_stays(page, front);
        assert(events[events.len() - 1] == events.last());
        lemma_form_id_is_kept(after(page, front), events.last().0, events.last().1);
    }
}

/// Tokens of a sign-in before the form is complete are not lost: the source that is saved from the
/// form later has the id under which they were stored.
pub proof fn early_tokens_are_found_later(
    page: page::PageView,
    access_token: Seq<char>,
    refresh_token: Option<Seq<char>>,
    first: update::FactsView,
    events: Seq<(message::MessageView, update::FactsView)>,
    last: update::FactsView,
)
    requires
        !page.form_valid(first.form_path_exists) || page.form_source_type != 0,
        forall|i: int| 0 <= i < events.len() ==> !resets_form((#[trigger] events[i]).0),
        after(
            page.updated(
                message::MessageView::FormOidcLoginResult(Ok((access_token, refresh_token))),
                first,
            ).0,
            events,
        ).form_valid(last.form_path_exists),
    ensures
        ({
            let signed_in = page.updated(
                message::MessageView::FormOidcLoginResult(Ok((access_token, refresh_token))),
                first,
            );
            let saved = after(signed_in.0, events).updated(
                message::MessageView::SaveSource,
                last,
            ).0;
            signed_in.1.task matches task::TaskView::Keyring { writes, .. } && writes
                == update::token_writes(saved.sources().last().id, access_token, refresh_token)
        }),
{
    let event = message::MessageView::FormOidcLoginResult(Ok((access_token, refresh_token)));
    let signed_in = page.form_signed_in(access_token, refresh_token, first);
    assert(page.updated(event, first) == signed_in);
    lemma_form_id_stays(signed_in.0, events);
    let later = after(signed_in.0, events);
    assert(later.updated(message::MessageView::SaveSource, last) == later.save_source(last));
}

/// A sign-in with a complete form saves the source, opens the form on it, and asks for its
/// calendars with the very token that the sign-in gave.
pub proof fn sign_in_saves_and_discovers(
    page: page::PageView,
    access_token: Seq<char>,
    refresh_token: Option<Seq<char>>,
    first: update::FactsView,
    second: update::FactsView,
)
    requires
        page.form_valid(first.form_path_exists),
        page.form_source_type == 0,
        !config::has_source(page.sources(), page.form_source_id),
    ensures
        ({
            let id = page.form_source_id;
            let signed_in = page.updated(
                message::MessageView::FormOidcLoginResult(Ok((access_token, refresh_token))),
                first,
            );
            &&& signed_in.1.save_config
            &&& signed_in.1.task matches task::TaskView::Keyring { done, .. } && {
                let opened = signed_in.0.updated(done, second);
                &&& opened.0.editing
                &&& opened.0.editing_source_id == Some(id)
                &&& opened.0.discovering_source == Some(id)
                &&& opened.1 == task::OutcomeView::only(
                    task::TaskView::DiscoverWithCredentials {
                        source_id: id,
                        url: page.form_url,
                        credentials: discovery::InlineCredentialsView::Bearer {
                            token: access_token,
                        },
                        ca_cert_path: signed_in.0.sources().last().ca_cert_path,
                    },
                )
            }
        }),
{
    let id = page.form_source_id;
    let event = message::MessageView::FormOidcLoginResult(Ok((access_token, refresh_token)));
    let signed_in = page.form_signed_in(access_token, refresh_token, first);
    assert(page.updated(event, first) == signed_in);
    lemma_find_in_extended(page.sources(), signed_in.0.sources().last(), id);
    let done = message::MessageView::OidcSavedAndDiscover(id, access_token);
    assert(signed_in.0.updated(done, second) == signed_in.0.saved_and_discover(
        id,
        access_token,
        second.now_nanos,
    ));
}

/// After a sign-in for a saved source its calendars are asked for with the new token, which is
/// stored first.
pub proof fn sign_in_renews_a_source(
    page: page::PageView,
    id: Seq<char>,
    access_token: Seq<char>,
    refresh_token: Option<Seq<char>>,
    first: update::FactsView,
    second: update::FactsView,
)
    requires
        config::find_source(page.sources(), id) matches Some(source) && source.source_type is CalDav
            && source.source_type.uses_oidc(),
    ensures
        ({
            let signed_in = page.updated(
                message::MessageView::OidcResult(Ok((id, access_token, refresh_token))),
                first,
            );
            &&& signed_in.1.task matches task::TaskView::Keyring { writes, done, .. } && writes
                == update::token_writes(id, access_token, refresh_token) && {
                let asked = signed_in.0.updated(done, second);
                asked.1.task matches task::TaskView::Discover { source_id, auth, .. } && source_id
                    == id && discovery::auth_step(auth, id, None)
                    == discovery::AuthStepView::Load(SecretKind::OidcAccessToken)
            }
        }),
{
    let all = page.sources();
    let i = config::source_index(all, id);
    assert(config::is_first_source(all, id, i));
    let signed_in = page.source_signed_in(id, access_token, refresh_token);
    assert(page.updated(
        message::MessageView::OidcResult(Ok((id, access_token, refresh_token))),
        first,
    ) == signed_in);
    assert(config::is_first_source(signed_in.0.sources(), id, i));
    config::lemma_first_source(signed_in.0.sources(), id, i);
    assert(signed_in.0.updated(message::MessageView::Discover(id), second)
        == signed_in.0.discover(id));
}

/// The first piece of a text that begins with `front` and the separator is `front`.
proof fn lemma_first_piece(front: Seq<char>, sep: char, rest: Seq<char>)
    requires
        !front.contains(sep),
    ensures
        text::split_on(front.push(sep) + rest, sep).len() >= 2,
        text::split_on(front.push(sep) + rest, sep)[0] == front,
    decreases rest.len(),
{
    let whole = front.push(sep) + rest;
    if rest.len() == 0 {
        assert(whole =~= front.push(sep));
        assert(whole.drop_last() =~= front);
        lemma_one_piece(front, sep);
    } else {
        lemma_first_piece(front, sep, rest.drop_last());
        assert(whole.drop_last() =~= front.push(sep) + rest.drop_last());
    }
}

/// A text without the separator is one piece.
pub proof fn lemma_one_piece(s: Seq<char>, sep: char)
    requires
        !s.contains(sep),
    ensures
        text::split_on(s, sep) == seq![s],
    decreases s.len(),
{
    if s.len() > 0 {
        assert forall|i: int| 0 <= i < s.drop_last().len() implies s.drop_last()[i] != sep by {
            assert(s[i] != sep);
        }
        lemma_one_piece(s.drop_last(), sep);
        assert(s[s.len() - 1] != sep);
        assert(s.drop_last().push(s.last()) =~= s);
        assert(text::split_on(s, sep) =~= seq![s]);
    } else {
        assert(s =~= Seq::empty());
    }
}

/// Where a refresh was tried with a stored token and failed, the user is asked to sign in for that
/// very source: the report begins with its id. An id with a colon in it, or with white space at an
/// end, could not be read back.
pub proof fn failed_refresh_asks_to_sign_in(
    page: page::PageView,
    id: Seq<char>,
    reason: Seq<char>,
    facts: update::FactsView,
)
    requires
        id.len() > 0,
        !id.contains(':'),
        text::trimmed(id) == id,
    ensures
        page.updated(
            message::MessageView::OidcRefreshResult(Err(task::refresh_failure(id, reason))),
            facts,
        ) == (
            page::PageView {
                discovery_error: Some(labels::TextView::Label(Label::AuthExpiredReauth)),
                ..page
            },
            page.login(id),
        ),
{
    reveal_strlit(": ");
    let report = task::refresh_failure(id, reason);
    assert(report =~= id.push(':') + (seq![' '] + reason));
    lemma_first_piece(id, ':', seq![' '] + reason);
    assert(page.updated(message::MessageView::OidcRefreshResult(Err(report)), facts)
        == page.refresh_failed(report));
}

/// The first piece of a text begins with whatever comes before every separator.
pub proof fn lemma_first_piece_begins(front: Seq<char>, rest: Seq<char>, sep: char)
    requires
        !front.contains(sep),
    ensures
        front.is_prefix_of(text::split_on(front + rest, sep)[0]),
    decreases rest.len(),
{
    let whole = front + rest;
    if rest.len() == 0 {
        assert(whole =~= front);
        lemma_one_piece(front, sep);
    } else {
        let shorter = front + rest.drop_last();
        lemma_first_piece_begins(front, rest.drop_last(), sep);
        text::lemma_split_on_some(shorter, sep);
        assert(whole.drop_last() =~= shorter);
        let before = text::split_on(shorter, sep);
        assert(front.is_prefix_of(before[0].push(whole.last())));
    }
}

/// What a text begins with stays there when it is trimmed, if neither of its ends is white space.
pub proof fn lemma_trimmed_begins(front: Seq<char>, s: Seq<char>)
    requires
        front.len() > 0,
        !text::is_white_space(front[0]),
        !text::is_white_space(front.last()),
        front.is_prefix_of(s),
    ensures
        front.is_prefix_of(text::trimmed(s)),
    decreases s.len(),
{
    assert(s[0] == front[0]);
    if text::is_white_space(s.last()) {
        if s.len() == front.len() {
            assert(s =~= front);
        }
        let shorter = s.drop_last();
        assert(front.is_prefix_of(shorter));
        lemma_trimmed_begins(front, shorter);
        assert(shorter[0] == front[0]);
    }
}

/// Where no refresh token is stored, the report does not begin with the id of the source: the user
/// reads that a new sign-in is needed, and is asked to sign in for no source. A source whose own id
/// begins as the report does could be taken for it.
pub proof fn missing_refresh_token_asks_for_no_source(
    page: page::PageView,
    id: Seq<char>,
    facts: update::FactsView,
)
    requires
        forall|i: int|
            0 <= i < page.sources().len() ==> !"No refresh token stored for"@.is_prefix_of(
                (#[trigger] page.sources()[i]).id,
            ),
    ensures
        page.updated(
            message::MessageView::OidcRefreshResult(Err(task::missing_refresh_token(id))),
            facts,
        ) == (
            page::PageView {
                discovery_error: Some(labels::TextView::Label(Label::AuthExpiredReauth)),
                ..page
            },
            task::OutcomeView::nothing(),
        ),
{
    reveal_strlit("No refresh token stored for");
    reveal_strlit("No refresh token stored for ");
    let front = "No refresh token stored for"@;
    let report = task::missing_refresh_token(id);
    assert(report =~= front + (seq![' '] + id));
    assert(!front.contains(':'));
    lemma_first_piece_begins(front, seq![' '] + id, ':');
    lemma_trimmed_begins(front, text::split_on(report, ':')[0]);
    let named = update::reported_source(report);
    if config::has_source(page.sources(), named) {
        let i = config::source_index(page.sources(), named);
        assert(config::is_first_source(page.sources(), named, i));
        assert(page.sources()[i].id == named);
    }
    assert(page.updated(message::MessageView::OidcRefreshResult(Err(report)), facts)
        == page.refresh_failed(report));
}

} // verus!
