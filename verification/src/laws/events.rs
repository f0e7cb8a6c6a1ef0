//! What each event does to the sources, to the form and to the keyring, told by what was there
//! before and by what the event carries.

use vstd::prelude::*;

use crate::config;
use crate::message;
use crate::page;
use crate::page::{DEFAULT_COLOR, DEFAULT_SCOPES};
use crate::secrets::SecretKind;
use crate::task;
use crate::text;
use crate::update;

verus! {

// ── How the laws speak ───────────────────────────────────────────────────

/// Whether an id means the source at this position: it is the first that has the id.
pub open spec fn means(all: Seq<config::SourceConfigView>, id: Seq<char>, i: int) -> bool {
    &&& 0 <= i < all.len()
    &&& all[i].id == id
    &&& forall|j: int| 0 <= j < i ==> (#[trigger] all[j]).id != id
}

/// Whether an id means no source.
pub open spec fn means_none(all: Seq<config::SourceConfigView>, id: Seq<char>) -> bool {
    forall|j: int| 0 <= j < all.len() ==> (#[trigger] all[j]).id != id
}

/// How a source proves who it is, if its type has a way to do so.
pub open spec fn auth_in(source_type: config::SourceTypeView) -> Option<config::AuthMethodView> {
    match source_type {
        config::SourceTypeView::CalDav { auth, .. } => Some(auth),
        config::SourceTypeView::IcsUrl { auth, .. } => Some(auth),
        config::SourceTypeView::IcsFile { .. } => None,
    }
}

/// The page with another list of sources, and nothing else changed.
pub open spec fn relisted(page: page::PageView, all: Seq<config::SourceConfigView>) ->
    page::PageView {
    page::PageView {
        calendar_config: config::CalendarConfigView { sources: all, ..page.calendar_config },
        ..page
    }
}

/// This work is asked of the caller, and nothing else.
pub open spec fn asking(task: task::TaskView) -> task::OutcomeView {
    task::OutcomeView { save_config: false, clear_cache: false, forget_secrets: None, task }
}

/// This work is asked of the caller, and that the configuration is saved.
pub open spec fn saving(task: task::TaskView) -> task::OutcomeView {
    task::OutcomeView { save_config: true, clear_cache: false, forget_secrets: None, task }
}

/// A write of one secret.
pub open spec fn write(source_id: Seq<char>, kind: SecretKind, secret: Seq<char>) ->
    task::SecretWriteView {
    task::SecretWriteView { source_id, kind, secret }
}

/// Whether the form of the page is closed and as good as new, at this time.
pub open spec fn form_is_blank(page: page::PageView, now_nanos: u128) -> bool {
    &&& page.editing_source_id is None
    &&& page.form_name.len() == 0
    &&& page.form_url.len() == 0
    &&& page.form_source_type == 0
    &&& page.form_auth_method == 0
    &&& page.form_username.len() == 0
    &&& page.form_password.len() == 0
    &&& page.form_token.len() == 0
    &&& page.form_color == DEFAULT_COLOR@
    &&& page.form_oidc_issuer.len() == 0
    &&& page.form_oidc_client_id.len() == 0
    &&& page.form_oidc_client_secret.len() == 0
    &&& page.form_oidc_scopes == DEFAULT_SCOPES@
    &&& page.form_ca_cert_path.len() == 0
    &&& page.form_discovered_calendars.len() == 0
    &&& !page.form_discovering
    &&& page.form_discovery_error is None
    &&& page.form_source_id == "form-"@ + text::decimal(now_nanos as nat)
    &&& !page.form_oidc_logged_in
    &&& page.form_editing_cal_color is None
    &&& page.form_cal_color_input.len() == 0
}

/// Whether two pages are the same outside the form.
pub open spec fn same_beside_form(a: page::PageView, b: page::PageView) -> bool {
    &&& a.calendar_config == b.calendar_config
    &&& same_in_list(a, b)
}

/// Whether two pages are the same in what belongs to the list of sources, but for the sources.
pub open spec fn same_in_list(a: page::PageView, b: page::PageView) -> bool {
    &&& a.discovering_source == b.discovering_source
    &&& a.discovery_error == b.discovery_error
    &&& a.refresh_attempted == b.refresh_attempted
    &&& a.editing_calendar_color == b.editing_calendar_color
    &&& a.calendar_color_input == b.calendar_color_input
}

/// Whether two configurations are the same but for the sources.
pub open spec fn same_settings(
    a: config::CalendarConfigView,
    b: config::CalendarConfigView,
) -> bool {
    &&& a.sync_interval_minutes == b.sync_interval_minutes
    &&& a.upcoming_count == b.upcoming_count
    &&& a.encryption_mode == b.encryption_mode
}

/// A search for an id finds the source that the id means.
pub proof fn lemma_found(all: Seq<config::SourceConfigView>, id: Seq<char>, i: int)
    requires
        means(all, id, i),
    ensures
        config::has_source(all, id),
        config::source_index(all, id) == i,
        config::find_source(all, id) == Some(all[i]),
{
    assert(config::is_first_source(all, id, i));
    config::lemma_first_source(all, id, i);
}

/// A search for an id that means no source finds none.
pub proof fn lemma_not_found(all: Seq<config::SourceConfigView>, id: Seq<char>)
    requires
        means_none(all, id),
    ensures
        !config::has_source(all, id),
        config::find_source(all, id) is None,
{
    if config::has_source(all, id) {
        let i = config::source_index(all, id);
        assert(config::is_first_source(all, id, i));
        assert(all[i].id != id);
    }
}

// ── The list of sources ──────────────────────────────────────────────────

/// A toggle turns exactly the source that the id means from on to off or from off to on, and the
/// change is saved.
pub proof fn toggle_turns_one_source(
    page: page::PageView,
    id: Seq<char>,
    i: int,
    facts: update::FactsView,
)
    requires
        means(page.calendar_config.sources, id, i),
    ensures
        ({
            let before = page.calendar_config.sources;
            page.updated(message::MessageView::ToggleSource(id), facts) == (
                relisted(
                    page,
                    before.update(
                        i,
                        config::SourceConfigView { enabled: !before[i].enabled, ..before[i] },
                    ),
                ),
                saving(task::TaskView::Idle),
            )
        }),
{
    lemma_found(page.calendar_config.sources, id, i);
}

/// A removal asks for nothing but that the list is saved and the secrets of that source are
/// forgotten, and changes nothing but the list. No other event has secrets forgotten.
#[verifier::spinoff_prover]
#[verifier::rlimit(40)]
pub proof fn only_a_removal_forgets_secrets(
    page: page::PageView,
    event: message::MessageView,
    facts: update::FactsView,
)
    ensures
        event matches message::MessageView::RemoveSource(id) ==> {
            let removed = page.updated(event, facts);
            &&& removed.0 == relisted(page, removed.0.calendar_config.sources)
            &&& removed.1 == (task::OutcomeView {
                forget_secrets: Some(id),
                ..saving(task::TaskView::Idle)
            })
        },
        !(event is RemoveSource) ==> page.updated(event, facts).1.forget_secrets is None,
{
}

// ── The form ─────────────────────────────────────────────────────────────

/// A form that is opened to add a source is blank, whatever was in it before. Cancelling leaves a
/// form that is closed and blank. Neither touches anything else, nor asks for anything.
pub proof fn form_opens_blank_and_closes_blank(page: page::PageView, facts: update::FactsView)
    ensures
        ({
            let opened = page.updated(message::MessageView::AddSource, facts);
            &&& opened.0.editing
            &&& form_is_blank(opened.0, facts.now_nanos)
            &&& same_beside_form(opened.0, page)
            &&& opened.1 == asking(task::TaskView::Idle)
        }),
        ({
            let closed = page.updated(message::MessageView::CancelForm, facts);
            &&& !closed.0.editing
            &&& form_is_blank(closed.0, facts.now_nanos)
            &&& same_beside_form(closed.0, page)
            &&& closed.1 == asking(task::TaskView::Idle)
        }),
{
}

/// A page starts on its configuration with a form that is closed and blank, nothing under way and
/// nothing to report.
pub proof fn page_starts_blank(configuration: config::CalendarConfigView, now_nanos: u128)
    ensures
        ({
            let page = page::first_view(configuration, now_nanos);
            &&& page.calendar_config == configuration
            &&& !page.editing
            &&& form_is_blank(page, now_nanos)
            &&& page.discovering_source is None
            &&& page.discovery_error is None
            &&& page.refresh_attempted == Set::<Seq<char>>::empty()
            &&& page.editing_calendar_color is None
            &&& page.calendar_color_input.len() == 0
        }),
{
}

/// The form that is opened on a source shows what the source holds: name, color, certificate, type,
/// address, and how it proves who it is. It shows no secret, and nothing that was in it before.
pub proof fn form_shows_the_source(
    page: page::PageView,
    id: Seq<char>,
    i: int,
    facts: update::FactsView,
)
    requires
        means(page.calendar_config.sources, id, i),
    ensures
        ({
            let source = page.calendar_config.sources[i];
            let edit = page.updated(message::MessageView::EditSource(id), facts);
            let opened = edit.0;
            &&& edit.1 == asking(task::TaskView::Idle)
            &&& same_beside_form(opened, page)
            &&& opened.editing
            &&& opened.editing_source_id == Some(id)
            &&& opened.form_name == source.name
            &&& opened.form_color == source.color
            &&& opened.form_ca_cert_path == match source.ca_cert_path {
                Some(path) => path,
                None => Seq::empty(),
            }
            &&& match source.source_type {
                config::SourceTypeView::CalDav { url, .. } => opened.form_source_type == 0
                    && opened.form_url == url,
                config::SourceTypeView::IcsUrl { url, .. } => opened.form_source_type == 1
                    && opened.form_url == url,
                config::SourceTypeView::IcsFile { path } => opened.form_source_type == 2
                    && opened.form_url == path,
            }
            &&& match auth_in(source.source_type) {
                Some(config::AuthMethodView::Basic { username }) => opened.form_auth_method == 1
                    && opened.form_username == username,
                Some(config::AuthMethodView::Bearer) => opened.form_auth_method == 2,
                Some(config::AuthMethodView::Oidc { issuer_url, client_id, scopes, .. }) =>
                    opened.form_auth_method == 3 && opened.form_oidc_issuer == issuer_url
                    && opened.form_oidc_client_id == client_id && opened.form_oidc_scopes
                    == text::joined(scopes, ", "@),
                _ => opened.form_auth_method == 0,
            }
            &&& !(auth_in(source.source_type) is Some && auth_in(source.source_type)->0 is Basic)
                ==> opened.form_username.len() == 0
            &&& !(auth_in(source.source_type) is Some && auth_in(source.source_type)->0 is Oidc)
                ==> opened.form_oidc_issuer.len() == 0 && opened.form_oidc_client_id.len() == 0
                && opened.form_oidc_scopes == DEFAULT_SCOPES@
            &&& opened.form_password.len() == 0
            &&& opened.form_token.len() == 0
            &&& opened.form_oidc_client_secret.len() == 0
            &&& opened.form_discovered_calendars.len() == 0
            &&& !opened.form_discovering
            &&& opened.form_discovery_error is None
            &&& opened.form_source_id == "form-"@ + text::decimal(facts.now_nanos as nat)
            &&& !opened.form_oidc_logged_in
            &&& opened.form_editing_cal_color is None
            &&& opened.form_cal_color_input.len() == 0
        }),
{
    lemma_found(page.calendar_config.sources, id, i);
}

/// An id that means no source opens, toggles, discovers, signs in and refreshes nothing.
pub proof fn unknown_ids_do_nothing(
    page: page::PageView,
    id: Seq<char>,
    href: Seq<char>,
    facts: update::FactsView,
)
    requires
        means_none(page.calendar_config.sources, id),
    ensures
        page.updated(message::MessageView::EditSource(id), facts) == (
            page,
            asking(task::TaskView::Idle),
        ),
        page.updated(message::MessageView::ToggleSource(id), facts) == (
            page,
            saving(task::TaskView::Idle),
        ),
        page.updated(message::MessageView::ToggleCalendar(id, href), facts) == (
            page,
            saving(task::TaskView::Idle),
        ),
        page.updated(message::MessageView::Discover(id), facts).1 == asking(task::TaskView::Idle),
        page.updated(message::MessageView::OidcLogin(id), facts) == (
            page,
            asking(task::TaskView::Idle),
        ),
        page.updated(message::MessageView::OidcRefresh(id), facts) == (
            page,
            asking(task::TaskView::Idle),
        ),
{
    lemma_not_found(page.calendar_config.sources, id);
}

/// The page after something was written or chosen in a field: it is there, and nothing else has
/// changed. `None` where the event is of another kind.
pub open spec fn with_field(page: page::PageView, event: message::MessageView) -> Option<
    page::PageView,
> {
    match event {
        message::MessageView::FormName(v) => Some(page::PageView { form_name: v, ..page }),
        message::MessageView::FormUrl(v) => Some(page::PageView { form_url: v, ..page }),
        message::MessageView::FormSourceType(v) => Some(
            page::PageView { form_source_type: v, ..page },
        ),
        message::MessageView::FormAuth(v) => Some(page::PageView { form_auth_method: v, ..page }),
        message::MessageView::FormUsername(v) => Some(page::PageView { form_username: v, ..page }),
        message::MessageView::FormPassword(v) => Some(page::PageView { form_password: v, ..page }),
        message::MessageView::FormToken(v) => Some(page::PageView { form_token: v, ..page }),
        message::MessageView::FormColor(v) => Some(page::PageView { form_color: v, ..page }),
        message::MessageView::FormOidcIssuer(v) => Some(
            page::PageView { form_oidc_issuer: v, ..page },
        ),
        message::MessageView::FormOidcClientId(v) => Some(
            page::PageView { form_oidc_client_id: v, ..page },
        ),
        message::MessageView::FormOidcClientSecret(v) => Some(
            page::PageView { form_oidc_client_secret: v, ..page },
        ),
        message::MessageView::FormOidcScopes(v) => Some(
            page::PageView { form_oidc_scopes: v, ..page },
        ),
        message::MessageView::FormCaCertPath(v) => Some(
            page::PageView { form_ca_cert_path: v, ..page },
        ),
        message::MessageView::FormCalColorInput(v) => Some(
            page::PageView { form_cal_color_input: v, ..page },
        ),
        message::MessageView::CalendarColorInput(v) => Some(
            page::PageView { calendar_color_input: v, ..page },
        ),
        _ => None,
    }
}

/// What is written or chosen in a field is there afterwards, nothing else has changed, and nothing
/// is asked of the caller.
#[verifier::spinoff_prover]
#[verifier::rlimit(40)]
pub proof fn field_takes_what_is_written(
    page: page::PageView,
    event: message::MessageView,
    facts: update::FactsView,
)
    ensures
        with_field(page, event) matches Some(written) ==> page.updated(event, facts) == (
            written,
            asking(task::TaskView::Idle),
        ),
{
}

/// A certificate that was chosen stands in the form as if its path had been written there. A choice
/// that failed, or that names no file, leaves the page as it was.
pub proof fn chosen_certificate_stands_in_the_form(
    page: page::PageView,
    address: Seq<char>,
    error: Seq<char>,
    facts: update::FactsView,
)
    ensures
        page.updated(message::MessageView::BrowseCaCert, facts) == (
            page,
            asking(task::TaskView::BrowseCaCert),
        ),
        ({
            let chosen = page.updated(message::MessageView::CaCertBrowsed(Ok(address)), facts);
            match update::file_url_path(address) {
                Some(path) => chosen == page.updated(
                    message::MessageView::FormCaCertPath(path),
                    facts,
                ),
                None => chosen == (page, asking(task::TaskView::Idle)),
            }
        }),
        page.updated(message::MessageView::CaCertBrowsed(Err(error)), facts) == (
            page,
            asking(task::TaskView::Idle),
        ),
{
}

/// The form can be saved exactly if its name is not blank and its address fits its type: a web
/// address for the two types on the web, and else any that is not blank, which for a file has to
/// name something that exists.
pub proof fn form_is_valid_by_name_and_address(page: page::PageView, path_exists: bool)
    ensures
        page.form_valid(path_exists) <==> {
            let name = text::trimmed(page.form_name);
            let address = text::trimmed(page.form_url);
            let on_the_web = page.form_source_type == 0 || page.form_source_type == 1;
            &&& name.len() > 0
            &&& on_the_web ==> "http://"@.is_prefix_of(address) || "https://"@.is_prefix_of(address)
            &&& !on_the_web ==> address.len() > 0
            &&& page.form_source_type == 2 ==> path_exists
        },
{
}

} // verus!
