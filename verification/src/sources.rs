//! Rules on sources and their calendars, and how lists of them change.

use vstd::prelude::*;

use crate::config;
use crate::config::{AuthMethod, CalDavCalendar, SourceConfig, SourceType};
use crate::page::DEFAULT_COLOR;

verus! {

/// The number that the form gives to an authentication.
pub open spec fn auth_number(auth: Option<config::AuthMethodView>) -> u8 {
    match auth {
        None => 0,
        Some(config::AuthMethodView::Anonymous) => 0,
        Some(config::AuthMethodView::Basic { .. }) => 1,
        Some(config::AuthMethodView::Bearer) => 2,
        Some(config::AuthMethodView::Oidc { .. }) => 3,
    }
}

/// Whether the source has an OIDC token.
pub open spec fn holds_token(source: Option<config::SourceConfigView>) -> bool {
    source matches Some(s) && s.source_type.auth() matches Some(
        config::AuthMethodView::Oidc { has_token, .. },
    ) && has_token
}

/// The source, turned on if it was off and off if it was on.
pub open spec fn toggled_source(source: config::SourceConfigView) -> config::SourceConfigView {
    config::SourceConfigView { enabled: !source.enabled, ..source }
}

/// The sources that do not have this id.
pub open spec fn without_source(sources: Seq<config::SourceConfigView>, id: Seq<char>) -> Seq<
    config::SourceConfigView,
> {
    sources.filter(|s: config::SourceConfigView| s.id != id)
}

/// The calendars of a source; a source without calendars of its own has none.
pub open spec fn calendars_of(source: config::SourceTypeView) -> Seq<config::CalDavCalendarView> {
    match source {
        config::SourceTypeView::CalDav { calendars, .. } => calendars,
        _ => Seq::empty(),
    }
}

/// The source with these calendars, if it is of a type that has calendars of its own.
pub open spec fn with_calendars(
    source: config::SourceConfigView,
    calendars: Seq<config::CalDavCalendarView>,
) -> config::SourceConfigView {
    match source.source_type {
        config::SourceTypeView::CalDav { url, auth, .. } => config::SourceConfigView {
            source_type: config::SourceTypeView::CalDav { url, auth, calendars },
            ..source
        },
        _ => source,
    }
}

/// `known`, and after it each calendar of `discovered` whose address was not there before.
pub open spec fn merged(
    known: Seq<config::CalDavCalendarView>,
    discovered: Seq<config::CalDavCalendarView>,
) -> Seq<config::CalDavCalendarView>
    decreases discovered.len(),
{
    if discovered.len() == 0 {
        known
    } else {
        let before = merged(known, discovered.drop_last());
        if config::has_calendar(before, discovered.last().href) {
            before
        } else {
            before.push(discovered.last())
        }
    }
}

/// The sources, with `change` done to the first calendar with this address of the first source
/// with this id.
pub open spec fn change_calendar(
    sources: Seq<config::SourceConfigView>,
    id: Seq<char>,
    href: Seq<char>,
    change: spec_fn(config::CalDavCalendarView) -> config::CalDavCalendarView,
) -> Seq<config::SourceConfigView> {
    match config::find_source(sources, id) {
        None => sources,
        Some(source) => {
            let calendars = calendars_of(source.source_type);
            if config::has_calendar(calendars, href) {
                let i = config::calendar_index(calendars, href);
                config::replace_source(
                    sources,
                    id,
                    with_calendars(source, calendars.update(i, change(calendars[i]))),
                )
            } else {
                sources
            }
        },
    }
}

/// The calendar, turned on if it was off and off if it was on.
pub open spec fn toggled_calendar() -> spec_fn(config::CalDavCalendarView) ->
    config::CalDavCalendarView {
    |c: config::CalDavCalendarView| config::CalDavCalendarView { enabled: !c.enabled, ..c }
}

/// The calendar in another color.
pub open spec fn recolored_calendar(color: Seq<char>) -> spec_fn(config::CalDavCalendarView) ->
    config::CalDavCalendarView {
    |c: config::CalDavCalendarView| config::CalDavCalendarView { color, ..c }
}

/// The color to start with when the color of a calendar is edited: its own, or that of its
/// source where the calendar is not there, or the default.
pub open spec fn color_to_edit(
    sources: Seq<config::SourceConfigView>,
    id: Seq<char>,
    href: Seq<char>,
) -> Seq<char> {
    match config::find_source(sources, id) {
        Some(source) => match source.source_type {
            config::SourceTypeView::CalDav { calendars, .. } => if config::has_calendar(
                calendars,
                href,
            ) {
                calendars[config::calendar_index(calendars, href)].color
            } else {
                source.color
            },
            _ => DEFAULT_COLOR@,
        },
        None => DEFAULT_COLOR@,
    }
}

/// The authentication, with a token if it is OIDC.
pub open spec fn signed_in_auth(auth: config::AuthMethodView) -> config::AuthMethodView {
    match auth {
        config::AuthMethodView::Oidc { issuer_url, client_id, has_client_secret, scopes, .. } =>
            config::AuthMethodView::Oidc {
            issuer_url,
            client_id,
            has_token: true,
            has_client_secret,
            scopes,
        },
        _ => auth,
    }
}

/// The source, with a token if it signs in through OIDC.
pub open spec fn signed_in(source: config::SourceConfigView) -> config::SourceConfigView {
    config::SourceConfigView {
        source_type: match source.source_type {
            config::SourceTypeView::CalDav { url, auth, calendars } =>
                config::SourceTypeView::CalDav { url, auth: signed_in_auth(auth), calendars },
            config::SourceTypeView::IcsUrl { url, auth } => config::SourceTypeView::IcsUrl {
                url,
                auth: signed_in_auth(auth),
            },
            config::SourceTypeView::IcsFile { path } => config::SourceTypeView::IcsFile { path },
        },
        ..source
    }
}

/// The sources, with `change` done to the first one that has this id.
pub open spec fn change_source(
    sources: Seq<config::SourceConfigView>,
    id: Seq<char>,
    change: spec_fn(config::SourceConfigView) -> config::SourceConfigView,
) -> Seq<config::SourceConfigView> {
    match config::find_source(sources, id) {
        Some(source) => config::replace_source(sources, id, change(source)),
        None => sources,
    }
}

// ── Changes of sources and calendars ─────────────────────────────────────

/// Turns the first source with this id on if it is off, and off if it is on.
pub fn toggle_source(sources: &mut Vec<SourceConfig>, id: &String)
    ensures
        final(sources).deep_view() == change_source(
            old(sources).deep_view(),
            id@,
            |source: config::SourceConfigView| toggled_source(source),
        ),
{
    let ghost before = sources.deep_view();
    if let Some(i) = config::find_source_index(sources, id) {
        sources[i].enabled = !sources[i].enabled;
        assert(sources.deep_view() =~= before.update(i as int, toggled_source(before[i as int])));
    }
}

/// Removes every source with this id.
pub fn remove_source(sources: &mut Vec<SourceConfig>, id: &String)
    ensures
        final(sources).deep_view() == without_source(old(sources).deep_view(), id@),
{
    let ghost all = sources.deep_view();
    let ghost kept = |s: config::SourceConfigView| s.id != id@;
    let mut i: usize = 0;
    let ghost mut seen: int = 0;
    proof {
        reveal(Seq::filter);
        assert(all.take(0) =~= Seq::empty());
        assert(all.take(0).filter(kept) + all.skip(0) =~= all);
    }
    while i < sources.len()
        invariant
            0 <= seen <= all.len(),
            i == all.take(seen).filter(kept).len(),
            kept == (|s: config::SourceConfigView| s.id != id@),
            sources.deep_view() == all.take(seen).filter(kept) + all.skip(seen),
        decreases sources.len() - i,
    {
        let ghost before = sources.deep_view();
        let ghost head = all.take(seen).filter(kept);
        proof {
            reveal(Seq::filter);
            assert(before[i as int] == sources@[i as int].deep_view());
            assert(before[i as int] == all[seen]);
            assert(all.take(seen + 1).drop_last() =~= all.take(seen));
            assert(all.skip(seen) =~= seq![all[seen]] + all.skip(seen + 1));
        }
        if sources[i].id == *id {
            let ghost listed = sources@;
            sources.remove(i);
            assert(sources@ == listed.remove(i as int));
            assert(sources.deep_view() =~= before.remove(i as int));
            assert(before.remove(i as int) =~= head + all.skip(seen + 1));
        } else {
            i += 1;
            assert(sources.deep_view() =~= head.push(all[seen]) + all.skip(seen + 1));
        }
        proof {
            seen = seen + 1;
        }
    }
    assert(all.skip(seen) =~= Seq::empty());
    assert(all.take(seen) =~= all);
    assert(sources.deep_view() =~= all.filter(kept));
}

/// Adds each discovered calendar whose address is not there yet.
pub fn merge_calendars(known: &mut Vec<CalDavCalendar>, discovered: Vec<CalDavCalendar>)
    ensures
        final(known).deep_view() == merged(old(known).deep_view(), discovered.deep_view()),
{
    let ghost first = known.deep_view();
    let ghost all = discovered.deep_view();
    let mut i: usize = 0;
    assert(all.take(0) =~= Seq::empty());
    while i < discovered.len()
        invariant
            i <= discovered.len(),
            all == discovered.deep_view(),
            known.deep_view() == merged(first, all.take(i as int)),
        decreases discovered.len() - i,
    {
        let ghost before = known.deep_view();
        proof {
            assert(all[i as int] == discovered@[i as int].deep_view());
            assert(all.take(i + 1).drop_last() =~= all.take(i as int));
        }
        if config::find_calendar_index(known, &discovered[i].href).is_none() {
            known.push(discovered[i].clone());
            assert(known.deep_view() =~= before.push(all[i as int]));
        }
        i += 1;
    }
    assert(all.take(all.len() as int) =~= all);
}

/// Adds the discovered calendars to the first source with this id.
pub fn add_calendars(sources: &mut Vec<SourceConfig>, id: &String, discovered: Vec<CalDavCalendar>)
    ensures
        final(sources).deep_view() == change_source(
            old(sources).deep_view(),
            id@,
            |source: config::SourceConfigView|
                with_calendars(
                    source,
                    merged(calendars_of(source.source_type), discovered.deep_view()),
                ),
        ),
{
    let ghost before = sources.deep_view();
    if let Some(i) = config::find_source_index(sources, id) {
        let ghost source = before[i as int];
        let ghost merger = merged(calendars_of(source.source_type), discovered.deep_view());
        match &mut sources[i].source_type {
            SourceType::CalDav { calendars, .. } => {
                merge_calendars(calendars, discovered);
            },
            _ => {},
        }
        assert(sources.deep_view() =~= before.update(i as int, with_calendars(source, merger)));
    }
}

/// Turns a calendar on if it is off, and off if it is on.
pub fn toggle_calendar(sources: &mut Vec<SourceConfig>, id: &String, href: &String)
    ensures
        final(sources).deep_view() == change_calendar(
            old(sources).deep_view(),
            id@,
            href@,
            toggled_calendar(),
        ),
{
    let ghost before = sources.deep_view();
    if let Some(i) = config::find_source_index(sources, id) {
        let ghost source = before[i as int];
        let ghost known = calendars_of(source.source_type);
        match &mut sources[i].source_type {
            SourceType::CalDav { calendars, .. } => {
                if let Some(k) = config::find_calendar_index(calendars, href) {
                    calendars[k].enabled = !calendars[k].enabled;
                    assert(calendars.deep_view() =~= known.update(
                        k as int,
                        toggled_calendar()(known[k as int]),
                    ));
                }
            },
            _ => {},
        }
        proof {
            lemma_no_calendar(href@);
            if config::has_calendar(known, href@) {
                let k = config::calendar_index(known, href@);
                assert(sources.deep_view() =~= before.update(
                    i as int,
                    with_calendars(source, known.update(k, toggled_calendar()(known[k]))),
                ));
            } else {
                assert(sources.deep_view() =~= before);
            }
        }
    }
}

/// Gives a calendar another color.
pub fn recolor_calendar(sources: &mut Vec<SourceConfig>, id: &String, href: &String, color: String)
    ensures
        final(sources).deep_view() == change_calendar(
            old(sources).deep_view(),
            id@,
            href@,
            recolored_calendar(color@),
        ),
{
    let ghost before = sources.deep_view();
    if let Some(i) = config::find_source_index(sources, id) {
        let ghost source = before[i as int];
        let ghost known = calendars_of(source.source_type);
        match &mut sources[i].source_type {
            SourceType::CalDav { calendars, .. } => {
                if let Some(k) = config::find_calendar_index(calendars, href) {
                    calendars[k].color = color;
                    assert(calendars.deep_view() =~= known.update(
                        k as int,
                        recolored_calendar(color@)(known[k as int]),
                    ));
                }
            },
            _ => {},
        }
        proof {
            lemma_no_calendar(href@);
            if config::has_calendar(known, href@) {
                let k = config::calendar_index(known, href@);
                assert(sources.deep_view() =~= before.update(
                    i as int,
                    with_calendars(source, known.update(k, recolored_calendar(color@)(known[k]))),
                ));
            } else {
                assert(sources.deep_view() =~= before);
            }
        }
    }
}

/// Among no calendars, none has this address.
proof fn lemma_no_calendar(href: Seq<char>)
    ensures
        !config::has_calendar(Seq::empty(), href),
{
}

/// Notes that the first source with this id has a token, if it signs in through OIDC.
pub fn mark_signed_in(sources: &mut Vec<SourceConfig>, id: &String)
    ensures
        final(sources).deep_view() == change_source(
            old(sources).deep_view(),
            id@,
            |source: config::SourceConfigView| signed_in(source),
        ),
{
    let ghost before = sources.deep_view();
    if let Some(i) = config::find_source_index(sources, id) {
        match &mut sources[i].source_type {
            SourceType::CalDav { auth, .. } => {
                mark_token(auth);
            },
            SourceType::IcsUrl { auth, .. } => {
                mark_token(auth);
            },
            SourceType::IcsFile { .. } => {},
        }
        assert(sources.deep_view() =~= before.update(i as int, signed_in(before[i as int])));
    }
}

/// Notes that an authentication has a token, if it is OIDC.
fn mark_token(auth: &mut AuthMethod)
    ensures
        final(auth).deep_view() == signed_in_auth(old(auth).deep_view()),
{
    match auth {
        AuthMethod::Oidc { has_token, .. } => {
            *has_token = true;
        },
        _ => {},
    }
}

/// The color to start with when the color of a calendar is edited.
pub fn calendar_color(sources: &Vec<SourceConfig>, id: &String, href: &String) -> (r: String)
    ensures
        r@ == color_to_edit(sources.deep_view(), id@, href@),
{
    if let Some(i) = config::find_source_index(sources, id) {
        assert(sources.deep_view()[i as int] == sources@[i as int].deep_view());
        if let SourceType::CalDav { calendars, .. } = &sources[i].source_type {
            return match config::find_calendar_index(calendars, href) {
                Some(k) => calendars[k].color.clone(),
                None => sources[i].color.clone(),
            };
        }
    }
    DEFAULT_COLOR.to_owned()
}

/// The number that the form gives to the authentication of a source.
pub fn auth_index(source_type: &SourceType) -> (r: u8)
    ensures
        r == auth_number(source_type.deep_view().auth()),
{
    match source_type.auth() {
        None => 0,
        Some(auth) => match auth {
            AuthMethod::Anonymous => 0,
            AuthMethod::Basic { .. } => 1,
            AuthMethod::Bearer => 2,
            AuthMethod::Oidc { .. } => 3,
        },
    }
}

/// Whether a source has an OIDC token.
pub fn has_token(source: &SourceConfig) -> (r: bool)
    ensures
        r == holds_token(Some(source.deep_view())),
{
    match source.source_type.auth() {
        Some(AuthMethod::Oidc { has_token, .. }) => *has_token,
        _ => false,
    }
}

} // verus!
