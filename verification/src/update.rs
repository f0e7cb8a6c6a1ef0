//! How the page reacts to events.

use vstd::prelude::*;

use crate::config;
use crate::config::{
    AuthMethod, CalDavCalendar, CalendarConfig, EncryptionMode, SourceConfig, SourceType,
};
use crate::discovery;
use crate::discovery::InlineCredentials;
use crate::labels;
use crate::labels::{Label, Text};
use crate::message;
use crate::message::Message;
use crate::page;
use crate::page::{Page, DEFAULT_COLOR};
use crate::secrets::SecretKind;
use crate::sources;
use crate::task;
use crate::task::{Outcome, SecretWrite, Task};
use crate::text;

verus! {

/// What a source that was just made has before the form is applied to it.
pub struct FreshSource {
    pub id: String,
    pub enabled: bool,
    pub ca_cert_path: Option<String>,
}

/// The model of a [`FreshSource`].
pub struct FreshSourceView {
    pub id: Seq<char>,
    pub enabled: bool,
    pub ca_cert_path: Option<Seq<char>>,
}

/// What the page has to know of the world when an event comes.
pub struct Facts {
    /// The time since the Unix epoch.
    pub now_nanos: u128,
    /// Whether [`Page::form_path`] names something that exists.
    pub form_path_exists: bool,
    /// What a new source starts out with.
    pub fresh: FreshSource,
    /// The configuration in the settings store, if it can be read.
    pub stored_config: Option<CalendarConfig>,
}

/// The model of [`Facts`].
pub struct FactsView {
    pub now_nanos: u128,
    pub form_path_exists: bool,
    pub fresh: FreshSourceView,
    pub stored_config: Option<config::CalendarConfigView>,
}

impl DeepView for FreshSource {
    type V = FreshSourceView;

    open spec fn deep_view(&self) -> FreshSourceView {
        FreshSourceView {
            id: self.id@,
            enabled: self.enabled,
            ca_cert_path: self.ca_cert_path.deep_view(),
        }
    }
}

impl DeepView for Facts {
    type V = FactsView;

    open spec fn deep_view(&self) -> FactsView {
        FactsView {
            now_nanos: self.now_nanos,
            form_path_exists: self.form_path_exists,
            fresh: self.fresh.deep_view(),
            stored_config: self.stored_config.deep_view(),
        }
    }
}

/// The secrets to store for new tokens.
pub open spec fn token_writes(
    source_id: Seq<char>,
    access_token: Seq<char>,
    refresh_token: Option<Seq<char>>,
) -> Seq<task::SecretWriteView> {
    let access = seq![
        task::SecretWriteView {
            source_id,
            kind: SecretKind::OidcAccessToken,
            secret: access_token,
        },
    ];
    match refresh_token {
        Some(secret) => access.push(
            task::SecretWriteView { source_id, kind: SecretKind::OidcRefreshToken, secret },
        ),
        None => access,
    }
}

/// A secret to store, as a list.
pub open spec fn one_write(source_id: Seq<char>, kind: SecretKind, secret: Seq<char>) -> Seq<
    task::SecretWriteView,
> {
    seq![task::SecretWriteView { source_id, kind, secret }]
}

/// The encryption mode that a number stands for.
pub open spec fn encryption_mode(number: usize) -> EncryptionMode {
    if number == 0 {
        EncryptionMode::Off
    } else if number == 1 {
        EncryptionMode::Auto
    } else {
        EncryptionMode::Manual
    }
}

/// The id of the source that a report of a failed refresh begins with.
pub open spec fn reported_source(report: Seq<char>) -> Seq<char> {
    text::trimmed(text::split_on(report, ':')[0])
}

/// The path of the file that an address names, as [`file_path`] gives it.
pub uninterp spec fn file_url_path(address: Seq<char>) -> Option<Seq<char>>;

/// The path of the file that an address names, if it names one.
///
/// Calls `url::Url::to_file_path` on the address, read with `url::Url::parse`, and takes the path
/// as text with `std::path::Path::to_string_lossy`. What is claimed is only that the answer is
/// determined by the text of the address. That is said of Unix, which the desktop of this page
/// runs on; for Windows the outside function is built to read drives and hosts as well.
#[verifier::external_body]
fn file_path(address: &str) -> (r: Option<String>)
    ensures
        r.deep_view() == file_url_path(address@),
{
    match url::Url::parse(address) {
        Ok(parsed) => match parsed.to_file_path() {
            Ok(path) => Some(path.to_string_lossy().into_owned()),
            Err(_) => None,
        },
        Err(_) => None,
    }
}

// ── What each event does ─────────────────────────────────────────────────

impl page::PageView {
    /// The sources of the page.
    pub open spec fn sources(self) -> Seq<config::SourceConfigView> {
        self.calendar_config.sources
    }

    /// The page with an empty form that is open.
    pub open spec fn adding(self, now_nanos: u128) -> page::PageView {
        page::PageView { editing: true, ..self.reset(now_nanos) }
    }

    /// The page with the form open on the source with this id, if there is one.
    pub open spec fn editing_source(self, id: Seq<char>, now_nanos: u128) -> page::PageView {
        match config::find_source(self.sources(), id) {
            Some(source) => page::PageView {
                editing: true,
                editing_source_id: Some(id),
                ..self.reset(now_nanos)
            }.filled(source),
            None => self,
        }
    }

    /// The source that the form describes.
    pub open spec fn form_source(
        self,
        fresh: FreshSourceView,
        id: Seq<char>,
        source_type: config::SourceTypeView,
    ) -> config::SourceConfigView {
        config::SourceConfigView {
            id,
            name: self.form_name,
            color: self.form_color,
            enabled: fresh.enabled,
            ca_cert_path: match self.form_ca() {
                Some(path) => Some(path),
                None => fresh.ca_cert_path,
            },
            source_type,
        }
    }

    /// The id of a source that is saved from the form: the one under which tokens were stored,
    /// if the user signed in, and else a new one.
    pub open spec fn id_to_save(self, fresh: FreshSourceView) -> Seq<char> {
        if self.form_oidc_logged_in {
            self.form_source_id
        } else {
            fresh.id
        }
    }

    /// The type of a source that is saved from the form.
    pub open spec fn type_to_save(self) -> config::SourceTypeView {
        let auth = self.form_auth(self.form_oidc_logged_in);
        if self.form_source_type == 0 {
            config::SourceTypeView::CalDav {
                url: self.form_url,
                auth,
                calendars: self.form_discovered_calendars,
            }
        } else if self.form_source_type == 1 {
            config::SourceTypeView::IcsUrl { url: self.form_url, auth }
        } else {
            config::SourceTypeView::IcsFile { path: self.form_url }
        }
    }

    /// The secrets to store for a source that is saved from the form.
    pub open spec fn writes_to_save(self, id: Seq<char>) -> Seq<task::SecretWriteView> {
        if self.form_auth_method == 1 {
            one_write(id, SecretKind::Password, self.form_password)
        } else if self.form_auth_method == 2 {
            one_write(id, SecretKind::BearerToken, self.form_token)
        } else if self.form_auth_method == 3 && self.form_oidc_client_secret.len() > 0
            && !self.form_oidc_logged_in {
            one_write(id, SecretKind::OidcClientSecret, self.form_oidc_client_secret)
        } else {
            Seq::empty()
        }
    }

    /// A new source is saved.
    pub open spec fn save_source(self, facts: FactsView) -> (page::PageView, task::OutcomeView) {
        if !self.form_valid(facts.form_path_exists) {
            (self, task::OutcomeView::nothing())
        } else {
            let id = self.id_to_save(facts.fresh);
            let source = self.form_source(facts.fresh, id, self.type_to_save());
            (
                self.with_sources(self.sources().push(source)).reset(facts.now_nanos),
                task::OutcomeView::saving(
                    task::TaskView::Keyring {
                        clear: None,
                        writes: self.writes_to_save(id),
                        done: message::MessageView::ConfigReload,
                    },
                ),
            )
        }
    }

    /// A source as the form changes it. The calendars that it has are kept.
    pub open spec fn edited(
        self,
        source: config::SourceConfigView,
        auth: config::AuthMethodView,
    ) -> config::SourceConfigView {
        config::SourceConfigView {
            name: self.form_name,
            color: self.form_color,
            ca_cert_path: self.form_ca(),
            source_type: if self.form_source_type == 0 {
                config::SourceTypeView::CalDav {
                    url: self.form_url,
                    auth,
                    calendars: sources::calendars_of(source.source_type),
                }
            } else if self.form_source_type == 1 {
                config::SourceTypeView::IcsUrl { url: self.form_url, auth }
            } else {
                config::SourceTypeView::IcsFile { path: self.form_url }
            },
            ..source
        }
    }

    /// Whether the number of the authentication that the form stands on, in eight bits, is another
    /// than that of the source with this id.
    pub open spec fn auth_changes(self, id: Seq<char>) -> bool {
        config::find_source(self.sources(), id) matches Some(source) && sources::auth_number(
            source.source_type.auth(),
        ) != self.form_auth_method as u8
    }

    /// The secrets to store for a source that was edited: only those that were typed in.
    pub open spec fn writes_to_edit(self, id: Seq<char>) -> Seq<task::SecretWriteView> {
        if self.form_auth_method == 1 && self.form_password.len() > 0 {
            one_write(id, SecretKind::Password, self.form_password)
        } else if self.form_auth_method == 2 && self.form_token.len() > 0 {
            one_write(id, SecretKind::BearerToken, self.form_token)
        } else if self.form_auth_method == 3 && self.form_oidc_client_secret.len() > 0 {
            one_write(id, SecretKind::OidcClientSecret, self.form_oidc_client_secret)
        } else {
            Seq::empty()
        }
    }

    /// The source that is being edited is saved.
    pub open spec fn save_edit_source(self, facts: FactsView) -> (
        page::PageView,
        task::OutcomeView,
    ) {
        match self.editing_source_id {
            Some(id) if self.form_valid(facts.form_path_exists) => {
                let source = config::find_source(self.sources(), id);
                let auth = self.form_auth(sources::holds_token(source));
                let sources = sources::change_source(
                    self.sources(),
                    id,
                    |source: config::SourceConfigView| self.edited(source, auth),
                );
                (
                    self.with_sources(sources).reset(facts.now_nanos),
                    task::OutcomeView::saving(
                        task::TaskView::Keyring {
                            clear: if self.auth_changes(id) {
                                Some(id)
                            } else {
                                None
                            },
                            writes: self.writes_to_edit(id),
                            done: message::MessageView::ConfigReload,
                        },
                    ),
                )
            },
            _ => (self, task::OutcomeView::nothing()),
        }
    }

    /// A certificate file was chosen, and this is its path, if it has one.
    pub open spec fn ca_cert_chosen(self, path: Option<Seq<char>>) -> page::PageView {
        match path {
            Some(path) => page::PageView { form_ca_cert_path: path, ..self },
            None => self,
        }
    }

    /// The calendars of the source in the form are asked for.
    pub open spec fn form_discover(self, facts: FactsView) -> (page::PageView, task::OutcomeView) {
        let asking = page::PageView { form_discovering: true, form_discovery_error: None, ..self };
        if !self.form_valid(facts.form_path_exists) || self.form_source_type != 0 {
            (self, task::OutcomeView::nothing())
        } else if self.form_auth_method == 3 && !self.form_oidc_logged_in {
            (
                page::PageView {
                    form_discovering: false,
                    form_discovery_error: Some(labels::TextView::Label(Label::OidcLoginFirst)),
                    ..self
                },
                task::OutcomeView::nothing(),
            )
        } else if self.form_auth_method == 3 {
            (
                asking,
                task::OutcomeView::only(
                    task::TaskView::DiscoverFormWithToken {
                        source_id: self.form_source_id,
                        url: self.form_url,
                        ca_cert_path: self.form_ca(),
                    },
                ),
            )
        } else {
            let credentials = if self.form_auth_method == 1 {
                discovery::InlineCredentialsView::Basic {
                    username: self.form_username,
                    password: self.form_password,
                }
            } else if self.form_auth_method == 2 {
                discovery::InlineCredentialsView::Bearer { token: self.form_token }
            } else {
                discovery::InlineCredentialsView::Anonymous
            };
            (
                asking,
                task::OutcomeView::only(
                    task::TaskView::DiscoverForm {
                        url: self.form_url,
                        credentials,
                        ca_cert_path: self.form_ca(),
                    },
                ),
            )
        }
    }

    /// The page with `change` done to the discovered calendar at this position, if there is one.
    pub open spec fn change_discovered(
        self,
        index: usize,
        change: spec_fn(config::CalDavCalendarView) -> config::CalDavCalendarView,
    ) -> page::PageView {
        let calendars = self.form_discovered_calendars;
        if index < calendars.len() {
            page::PageView {
                form_discovered_calendars: calendars.update(
                    index as int,
                    change(calendars[index as int]),
                ),
                ..self
            }
        } else {
            self
        }
    }

    /// The page with the discovered calendar whose color is edited in this color.
    pub open spec fn recolor_discovered(self, color: Seq<char>) -> page::PageView {
        match self.form_editing_cal_color {
            Some(index) => self.change_discovered(index, sources::recolored_calendar(color)),
            None => self,
        }
    }

    /// The color of a discovered calendar is to be edited.
    pub open spec fn edit_discovered_color(self, index: usize) -> page::PageView {
        page::PageView {
            form_cal_color_input: if index < self.form_discovered_calendars.len() {
                self.form_discovered_calendars[index as int].color
            } else {
                DEFAULT_COLOR@
            },
            form_editing_cal_color: Some(index),
            ..self
        }
    }

    /// A sign-in with what is in the form is asked for.
    pub open spec fn form_login(self) -> task::OutcomeView {
        task::OutcomeView::only(
            task::TaskView::FormLogin {
                issuer_url: self.form_oidc_issuer,
                client_id: self.form_oidc_client_id,
                client_secret: if self.form_oidc_client_secret.len() == 0 {
                    None
                } else {
                    Some(self.form_oidc_client_secret)
                },
                scopes: page::scope_list(self.form_oidc_scopes),
            },
        )
    }

    /// A sign-in for the form succeeded. The source is saved at once if the form is complete,
    /// and else the tokens are kept for later.
    pub open spec fn form_signed_in(
        self,
        access_token: Seq<char>,
        refresh_token: Option<Seq<char>>,
        facts: FactsView,
    ) -> (page::PageView, task::OutcomeView) {
        let id = self.form_source_id;
        let logged_in = page::PageView { form_oidc_logged_in: true, ..self };
        if self.form_valid(facts.form_path_exists) && self.form_source_type == 0 {
            let source = self.form_source(
                facts.fresh,
                id,
                config::SourceTypeView::CalDav {
                    url: self.form_url,
                    auth: self.form_oidc(true),
                    calendars: Seq::empty(),
                },
            );
            let writes = token_writes(id, access_token, refresh_token);
            (
                logged_in.with_sources(self.sources().push(source)).reset(facts.now_nanos),
                task::OutcomeView::saving(
                    task::TaskView::Keyring {
                        clear: None,
                        writes: if self.form_oidc_client_secret.len() > 0 {
                            writes + one_write(
                                id,
                                SecretKind::OidcClientSecret,
                                self.form_oidc_client_secret,
                            )
                        } else {
                            writes
                        },
                        done: message::MessageView::OidcSavedAndDiscover(id, access_token),
                    },
                ),
            )
        } else {
            (
                logged_in,
                task::OutcomeView::only(
                    task::TaskView::Keyring {
                        clear: None,
                        writes: token_writes(id, access_token, refresh_token),
                        done: message::MessageView::FormDiscover,
                    },
                ),
            )
        }
    }

    /// The calendars of a saved source are asked for.
    pub open spec fn discover(self, id: Seq<char>) -> (page::PageView, task::OutcomeView) {
        (
            page::PageView { discovering_source: Some(id), discovery_error: None, ..self },
            match config::find_source(self.sources(), id) {
                Some(source) => match source.source_type {
                    config::SourceTypeView::CalDav { url, auth, .. } => task::OutcomeView::only(
                        task::TaskView::Discover {
                            source_id: id,
                            url,
                            auth,
                            ca_cert_path: source.ca_cert_path,
                        },
                    ),
                    _ => task::OutcomeView::nothing(),
                },
                None => task::OutcomeView::nothing(),
            },
        )
    }

    /// A sign-in saved the source: the form opens on it, and its calendars are asked for with the
    /// access token at hand.
    pub open spec fn saved_and_discover(
        self,
        id: Seq<char>,
        access_token: Seq<char>,
        now_nanos: u128,
    ) -> (page::PageView, task::OutcomeView) {
        (
            self.editing_source(id, now_nanos).discover(id).0,
            match config::find_source(self.sources(), id) {
                Some(source) => match source.source_type {
                    config::SourceTypeView::CalDav { url, .. } => task::OutcomeView::only(
                        task::TaskView::DiscoverWithCredentials {
                            source_id: id,
                            url,
                            credentials: discovery::InlineCredentialsView::Bearer {
                                token: access_token,
                            },
                            ca_cert_path: source.ca_cert_path,
                        },
                    ),
                    _ => task::OutcomeView::nothing(),
                },
                None => task::OutcomeView::nothing(),
            },
        )
    }

    /// The calendars of a saved source were found.
    pub open spec fn discovered(
        self,
        id: Seq<char>,
        calendars: Seq<config::CalDavCalendarView>,
    ) -> page::PageView {
        page::PageView {
            discovering_source: None,
            refresh_attempted: self.refresh_attempted.remove(id),
            ..self.with_sources(
                sources::change_source(
                    self.sources(),
                    id,
                    |source: config::SourceConfigView|
                        sources::with_calendars(
                            source,
                            sources::merged(sources::calendars_of(source.source_type), calendars),
                        ),
                ),
            )
        }
    }

    /// Whether an error tells that the source with this id has to sign in again, and a refresh
    /// of its tokens was not tried yet.
    pub open spec fn may_refresh(self, id: Seq<char>, error: Seq<char>) -> bool {
        &&& text::holds_text(error, "Authentication expired"@) || text::holds_text(
            error,
            "expired"@,
        )
        &&& config::find_source(self.sources(), id) matches Some(source)
            && source.source_type.uses_oidc()
        &&& !self.refresh_attempted.contains(id)
    }

    /// The calendars of a saved source could not be found.
    pub open spec fn discover_failed(self, id: Seq<char>, error: Seq<char>) -> (
        page::PageView,
        task::OutcomeView,
    ) {
        let stopped = page::PageView { discovering_source: None, ..self };
        if self.may_refresh(id, error) {
            (
                page::PageView {
                    refresh_attempted: self.refresh_attempted.insert(id),
                    ..stopped
                },
                self.refresh(id),
            )
        } else {
            (
                page::PageView {
                    discovery_error: Some(labels::TextView::Plain(error)),
                    ..stopped
                },
                task::OutcomeView::nothing(),
            )
        }
    }

    /// New tokens for a source are asked for with its refresh token.
    pub open spec fn refresh(self, id: Seq<char>) -> task::OutcomeView {
        match config::find_source(self.sources(), id) {
            Some(source) => match source.source_type.auth() {
                Some(
                    config::AuthMethodView::Oidc { issuer_url, client_id, has_client_secret, .. },
                ) => task::OutcomeView::only(
                    task::TaskView::Refresh {
                        source_id: id,
                        issuer_url,
                        client_id,
                        needs_secret: has_client_secret,
                    },
                ),
                _ => task::OutcomeView::nothing(),
            },
            None => task::OutcomeView::nothing(),
        }
    }

    /// The user is asked to sign in for a source.
    pub open spec fn login(self, id: Seq<char>) -> task::OutcomeView {
        match config::find_source(self.sources(), id) {
            Some(source) => match source.source_type.auth() {
                Some(
                    config::AuthMethodView::Oidc {
                        issuer_url,
                        client_id,
                        has_client_secret,
                        scopes,
                        ..
                    },
                ) => task::OutcomeView::only(
                    task::TaskView::Login {
                        source_id: id,
                        issuer_url,
                        client_id,
                        needs_secret: has_client_secret,
                        scopes,
                    },
                ),
                _ => task::OutcomeView::nothing(),
            },
            None => task::OutcomeView::nothing(),
        }
    }

    /// The page with the calendar whose color is edited in this color.
    pub open spec fn recolor(self, color: Seq<char>) -> page::PageView {
        match self.editing_calendar_color {
            Some(target) => self.with_sources(
                sources::change_calendar(
                    self.sources(),
                    target.0,
                    target.1,
                    sources::recolored_calendar(color),
                ),
            ),
            None => self,
        }
    }

    /// A sign-in for a saved source succeeded.
    pub open spec fn source_signed_in(
        self,
        id: Seq<char>,
        access_token: Seq<char>,
        refresh_token: Option<Seq<char>>,
    ) -> (page::PageView, task::OutcomeView) {
        (
            page::PageView {
                refresh_attempted: self.refresh_attempted.remove(id),
                discovery_error: None,
                ..self.with_sources(
                    sources::change_source(
                        self.sources(),
                        id,
                        |source: config::SourceConfigView| sources::signed_in(source),
                    ),
                )
            },
            task::OutcomeView::saving(
                task::TaskView::Keyring {
                    clear: None,
                    writes: token_writes(id, access_token, refresh_token),
                    done: message::MessageView::Discover(id),
                },
            ),
        )
    }

    /// New tokens for a source came.
    pub open spec fn refreshed(
        self,
        id: Seq<char>,
        access_token: Seq<char>,
        refresh_token: Option<Seq<char>>,
    ) -> (page::PageView, task::OutcomeView) {
        (
            page::PageView { discovery_error: None, ..self },
            task::OutcomeView::only(
                task::TaskView::Keyring {
                    clear: None,
                    writes: token_writes(id, access_token, refresh_token),
                    done: message::MessageView::Discover(id),
                },
            ),
        )
    }

    /// New tokens for a source did not come. What the report begins with, up to its first colon, is
    /// taken for the id of a source, and the user is asked to sign in for that source.
    pub open spec fn refresh_failed(self, report: Seq<char>) -> (
        page::PageView,
        task::OutcomeView,
    ) {
        if reported_source(report).len() > 0 {
            (
                page::PageView {
                    discovery_error: Some(labels::TextView::Label(Label::AuthExpiredReauth)),
                    ..self
                },
                self.login(reported_source(report)),
            )
        } else {
            (
                page::PageView {
                    discovery_error: Some(labels::TextView::Plain(report)),
                    ..self
                },
                task::OutcomeView::nothing(),
            )
        }
    }

    /// Another encryption mode is chosen. The cached events are dropped if it is a new one.
    pub open spec fn change_encryption(self, number: usize) -> (
        page::PageView,
        task::OutcomeView,
    ) {
        let mode = encryption_mode(number);
        if self.calendar_config.encryption_mode == mode {
            (self, task::OutcomeView::nothing())
        } else {
            (
                page::PageView {
                    calendar_config: config::CalendarConfigView {
                        encryption_mode: mode,
                        ..self.calendar_config
                    },
                    ..self
                },
                task::OutcomeView {
                    clear_cache: true,
                    ..task::OutcomeView::saving(task::TaskView::Idle)
                },
            )
        }
    }

    /// What an event makes of the page, and what it asks of the caller.
    pub open spec fn updated(self, event: message::MessageView, facts: FactsView) -> (
        page::PageView,
        task::OutcomeView,
    ) {
        let nothing = task::OutcomeView::nothing();
        let saving = task::OutcomeView::saving(task::TaskView::Idle);
        match event {
            message::MessageView::AddSource => (self.adding(facts.now_nanos), nothing),
            message::MessageView::EditSource(id) => (
                self.editing_source(id, facts.now_nanos),
                nothing,
            ),
            message::MessageView::RemoveSource(id) => (
                self.with_sources(sources::without_source(self.sources(), id)),
                task::OutcomeView { forget_secrets: Some(id), ..saving },
            ),
            message::MessageView::ToggleSource(id) => (
                self.with_sources(
                    sources::change_source(
                        self.sources(),
                        id,
                        |source: config::SourceConfigView| sources::toggled_source(source),
                    ),
                ),
                saving,
            ),
            message::MessageView::SaveSource => self.save_source(facts),
            message::MessageView::SaveEditSource => self.save_edit_source(facts),
            message::MessageView::CancelForm => (self.reset(facts.now_nanos), nothing),
            message::MessageView::FormName(v) => (page::PageView { form_name: v, ..self }, nothing),
            message::MessageView::FormUrl(v) => (page::PageView { form_url: v, ..self }, nothing),
            message::MessageView::FormSourceType(v) => (
                page::PageView { form_source_type: v, ..self },
                nothing,
            ),
            message::MessageView::FormAuth(v) => (
                page::PageView { form_auth_method: v, ..self },
                nothing,
            ),
            message::MessageView::FormUsername(v) => (
                page::PageView { form_username: v, ..self },
                nothing,
            ),
            message::MessageView::FormPassword(v) => (
                page::PageView { form_password: v, ..self },
                nothing,
            ),
            message::MessageView::FormToken(v) => (
                page::PageView { form_token: v, ..self },
                nothing,
            ),
            message::MessageView::FormColor(v) => (
                page::PageView { form_color: v, ..self },
                nothing,
            ),
            message::MessageView::FormOidcIssuer(v) => (
                page::PageView { form_oidc_issuer: v, ..self },
                nothing,
            ),
            message::MessageView::FormOidcClientId(v) => (
                page::PageView { form_oidc_client_id: v, ..self },
                nothing,
            ),
            message::MessageView::FormOidcClientSecret(v) => (
                page::PageView { form_oidc_client_secret: v, ..self },
                nothing,
            ),
            message::MessageView::FormOidcScopes(v) => (
                page::PageView { form_oidc_scopes: v, ..self },
                nothing,
            ),
            message::MessageView::FormCaCertPath(v) => (
                page::PageView { form_ca_cert_path: v, ..self },
                nothing,
            ),
            message::MessageView::BrowseCaCert => (
                self,
                task::OutcomeView::only(task::TaskView::BrowseCaCert),
            ),
            message::MessageView::CaCertBrowsed(Ok(address)) => (
                self.ca_cert_chosen(file_url_path(address)),
                nothing,
            ),
            message::MessageView::CaCertBrowsed(Err(_)) => (self, nothing),
            message::MessageView::FormDiscover => self.form_discover(facts),
            message::MessageView::FormDiscovered(calendars) => (
                page::PageView {
                    form_discovering: false,
                    form_discovery_error: None,
                    form_discovered_calendars: calendars,
                    ..self
                },
                nothing,
            ),
            message::MessageView::FormDiscoverError(error) => (
                page::PageView {
                    form_discovering: false,
                    form_discovery_error: Some(labels::TextView::Plain(error)),
                    ..self
                },
                nothing,
            ),
            message::MessageView::FormToggleCalendar(index) => (
                self.change_discovered(index, sources::toggled_calendar()),
                nothing,
            ),
            message::MessageView::FormCalendarColor(index) => (
                self.edit_discovered_color(index),
                nothing,
            ),
            message::MessageView::FormCalColorInput(v) => (
                page::PageView { form_cal_color_input: v, ..self },
                nothing,
            ),
            message::MessageView::FormCalColorPreset(color) => (
                page::PageView {
                    form_cal_color_input: color,
                    ..self.recolor_discovered(color)
                },
                nothing,
            ),
            message::MessageView::FormCalColorSave => (
                page::PageView {
                    form_editing_cal_color: None,
                    ..self.recolor_discovered(self.form_cal_color_input)
                },
                nothing,
            ),
            message::MessageView::FormCalColorCancel => (
                page::PageView { form_editing_cal_color: None, ..self },
                nothing,
            ),
            message::MessageView::FormOidcLogin => (self, self.form_login()),
            message::MessageView::FormOidcLoginResult(Ok(tokens)) => self.form_signed_in(
                tokens.0,
                tokens.1,
                facts,
            ),
            message::MessageView::FormOidcLoginResult(Err(error)) => (
                page::PageView {
                    form_discovery_error: Some(labels::TextView::Plain(error)),
                    ..self
                },
                nothing,
            ),
            message::MessageView::OidcSavedAndDiscover(id, access_token) =>
                self.saved_and_discover(id, access_token, facts.now_nanos),
            message::MessageView::Discover(id) => self.discover(id),
            message::MessageView::Discovered(id, calendars) => (
                self.discovered(id, calendars),
                saving,
            ),
            message::MessageView::DiscoverError(id, error) => self.discover_failed(id, error),
            message::MessageView::ToggleCalendar(id, href) => (
                self.with_sources(
                    sources::change_calendar(
                        self.sources(),
                        id,
                        href,
                        sources::toggled_calendar(),
                    ),
                ),
                saving,
            ),
            message::MessageView::EditCalendarColor(id, href) => (
                page::PageView {
                    calendar_color_input: sources::color_to_edit(self.sources(), id, href),
                    editing_calendar_color: Some((id, href)),
                    ..self
                },
                nothing,
            ),
            message::MessageView::CalendarColorInput(v) => (
                page::PageView { calendar_color_input: v, ..self },
                nothing,
            ),
            message::MessageView::CalendarColorPreset(color) => (
                page::PageView { calendar_color_input: color, ..self.recolor(color) },
                if self.editing_calendar_color is Some {
                    saving
                } else {
                    nothing
                },
            ),
            message::MessageView::SaveCalendarColor => (
                page::PageView {
                    editing_calendar_color: None,
                    ..self.recolor(self.calendar_color_input)
                },
                if self.editing_calendar_color is Some {
                    saving
                } else {
                    nothing
                },
            ),
            message::MessageView::CancelCalendarColor => (
                page::PageView { editing_calendar_color: None, ..self },
                nothing,
            ),
            message::MessageView::OidcLogin(id) => (self, self.login(id)),
            message::MessageView::OidcResult(Ok(t)) => self.source_signed_in(t.0, t.1, t.2),
            message::MessageView::OidcResult(Err(_)) => (self, nothing),
            message::MessageView::OidcRefresh(id) => (self, self.refresh(id)),
            message::MessageView::OidcRefreshResult(Ok(t)) => self.refreshed(t.0, t.1, t.2),
            message::MessageView::OidcRefreshResult(Err(report)) => self.refresh_failed(report),
            message::MessageView::SyncInterval(v) => (
                page::PageView {
                    calendar_config: config::CalendarConfigView {
                        sync_interval_minutes: v,
                        ..self.calendar_config
                    },
                    ..self
                },
                saving,
            ),
            message::MessageView::UpcomingCount(v) => (
                page::PageView {
                    calendar_config: config::CalendarConfigView {
                        upcoming_count: v,
                        ..self.calendar_config
                    },
                    ..self
                },
                saving,
            ),
            message::MessageView::EncryptionModeChanged(v) => self.change_encryption(v),
            message::MessageView::ConfigReload => (
                page::PageView {
                    calendar_config: match facts.stored_config {
                        Some(stored) => stored,
                        None => self.calendar_config,
                    },
                    ..self
                },
                nothing,
            ),
        }
    }
}

// ── The page itself ──────────────────────────────────────────────────────

/// The secrets to store for new tokens.
fn token_secrets(
    source_id: &String,
    access_token: &String,
    refresh_token: &Option<String>,
) -> (r: Vec<SecretWrite>)
    ensures
        r.deep_view() == token_writes(source_id@, access_token@, refresh_token.deep_view()),
{
    let mut writes: Vec<SecretWrite> = Vec::new();
    writes.push(
        SecretWrite {
            source_id: source_id.clone(),
            kind: SecretKind::OidcAccessToken,
            secret: access_token.clone(),
        },
    );
    if let Some(secret) = refresh_token {
        writes.push(
            SecretWrite {
                source_id: source_id.clone(),
                kind: SecretKind::OidcRefreshToken,
                secret: secret.clone(),
            },
        );
    }
    assert(writes.deep_view() =~= token_writes(
        source_id@,
        access_token@,
        refresh_token.deep_view(),
    ));
    writes
}

/// A secret to store, as a list.
fn one_secret(source_id: &String, kind: SecretKind, secret: &String) -> (r: Vec<SecretWrite>)
    ensures
        r.deep_view() == one_write(source_id@, kind, secret@),
{
    let mut writes: Vec<SecretWrite> = Vec::new();
    writes.push(SecretWrite { source_id: source_id.clone(), kind, secret: secret.clone() });
    assert(writes.deep_view() =~= one_write(source_id@, kind, secret@));
    writes
}

/// No secret to store.
fn no_secrets() -> (r: Vec<SecretWrite>)
    ensures
        r.deep_view() == Seq::<task::SecretWriteView>::empty(),
{
    let writes: Vec<SecretWrite> = Vec::new();
    assert(writes.deep_view() =~= Seq::empty());
    writes
}

/// Whether an event belongs to the list of sources.
spec fn is_source_event(message: Message) -> bool {
    match message {
        Message::AddSource
        | Message::EditSource(_)
        | Message::RemoveSource(_)
        | Message::ToggleSource(_)
        | Message::SaveSource
        | Message::SaveEditSource
        | Message::CancelForm => true,
        _ => false,
    }
}

/// Whether an event is a change of a field of the form.
spec fn is_field_event(message: Message) -> bool {
    match message {
        Message::FormName(_)
        | Message::FormUrl(_)
        | Message::FormSourceType(_)
        | Message::FormAuth(_)
        | Message::FormUsername(_)
        | Message::FormPassword(_)
        | Message::FormToken(_)
        | Message::FormColor(_)
        | Message::FormOidcIssuer(_)
        | Message::FormOidcClientId(_)
        | Message::FormOidcClientSecret(_)
        | Message::FormOidcScopes(_)
        | Message::FormCaCertPath(_)
        | Message::BrowseCaCert
        | Message::CaCertBrowsed(_) => true,
        _ => false,
    }
}

/// Whether an event belongs to discovery and sign-in while a source is being added.
spec fn is_form_event(message: Message) -> bool {
    match message {
        Message::FormDiscover
        | Message::FormDiscovered(_)
        | Message::FormDiscoverError(_)
        | Message::FormToggleCalendar(_)
        | Message::FormCalendarColor(_)
        | Message::FormCalColorInput(_)
        | Message::FormCalColorPreset(_)
        | Message::FormCalColorSave
        | Message::FormCalColorCancel
        | Message::FormOidcLogin
        | Message::FormOidcLoginResult(_)
        | Message::OidcSavedAndDiscover(_, _) => true,
        _ => false,
    }
}

/// Whether an event belongs to the calendars of saved sources.
spec fn is_calendar_event(message: Message) -> bool {
    match message {
        Message::Discover(_)
        | Message::Discovered(_, _)
        | Message::DiscoverError(_, _)
        | Message::ToggleCalendar(_, _)
        | Message::EditCalendarColor(_, _)
        | Message::CalendarColorInput(_)
        | Message::CalendarColorPreset(_)
        | Message::SaveCalendarColor
        | Message::CancelCalendarColor => true,
        _ => false,
    }
}

/// Whether an event belongs to the sign-in of saved sources.
spec fn is_sign_in_event(message: Message) -> bool {
    match message {
        Message::OidcLogin(_)
        | Message::OidcResult(_)
        | Message::OidcRefresh(_)
        | Message::OidcRefreshResult(_) => true,
        _ => false,
    }
}

/// Whether an event belongs to the sync settings, or to the settings store.
spec fn is_settings_event(message: Message) -> bool {
    match message {
        Message::SyncInterval(_)
        | Message::UpcomingCount(_)
        | Message::EncryptionModeChanged(_)
        | Message::ConfigReload => true,
        _ => false,
    }
}

impl Page {
    /// Adds a source at the end.
    fn push_source(&mut self, source: SourceConfig)
        ensures
            final(self)@ == old(self)@.with_sources(old(self)@.sources().push(source.deep_view())),
    {
        let ghost before = self.calendar_config.sources.deep_view();
        self.calendar_config.sources.push(source);
        assert(self.calendar_config.sources.deep_view() =~= before.push(source.deep_view()));
    }

    /// Opens the form on the source with this id, if there is one.
    fn edit_source(&mut self, id: &String, now_nanos: u128)
        ensures
            final(self)@ == old(self)@.editing_source(id@, now_nanos),
    {
        if let Some(i) = config::find_source_index(&self.calendar_config.sources, id) {
            assert(self@.sources()[i as int]
                == self.calendar_config.sources@[i as int].deep_view());
            let source = self.calendar_config.sources[i].clone();
            self.reset_form(now_nanos);
            self.editing = true;
            self.editing_source_id = Some(id.clone());
            self.fill_form_from_source(&source);
        }
    }

    /// The source that the form describes.
    fn source_from_form(
        &self,
        fresh: FreshSource,
        id: String,
        source_type: SourceType,
    ) -> (r: SourceConfig)
        ensures
            r.deep_view() == self@.form_source(
                fresh.deep_view(),
                id@,
                source_type.deep_view(),
            ),
    {
        let ca_cert_path = match self.form_ca() {
            Some(path) => Some(path),
            None => fresh.ca_cert_path,
        };
        SourceConfig {
            id,
            name: self.form_name.clone(),
            color: self.form_color.clone(),
            enabled: fresh.enabled,
            ca_cert_path,
            source_type,
        }
    }

    /// Saves a new source.
    pub fn save_source(&mut self, facts: Facts) -> (r: Outcome)
        ensures
            (final(self)@, r.deep_view()) == old(self)@.save_source(facts.deep_view()),
    {
        if !self.form_valid(facts.form_path_exists) {
            return Outcome::nothing();
        }
        let auth = self.form_auth(self.form_oidc_logged_in);
        let source_type = match self.form_source_type {
            0 => SourceType::CalDav {
                url: self.form_url.clone(),
                auth,
                calendars: config::clone_calendars(&self.form_discovered_calendars),
            },
            1 => SourceType::IcsUrl { url: self.form_url.clone(), auth },
            _ => SourceType::IcsFile { path: self.form_url.clone() },
        };
        let id = if self.form_oidc_logged_in {
            self.form_source_id.clone()
        } else {
            facts.fresh.id.clone()
        };
        let writes = match self.form_auth_method {
            1 => one_secret(&id, SecretKind::Password, &self.form_password),
            2 => one_secret(&id, SecretKind::BearerToken, &self.form_token),
            3 => {
                if !self.form_oidc_client_secret.as_str().is_empty() && !self.form_oidc_logged_in {
                    one_secret(&id, SecretKind::OidcClientSecret, &self.form_oidc_client_secret)
                } else {
                    no_secrets()
                }
            },
            _ => no_secrets(),
        };
        let source = self.source_from_form(facts.fresh, id, source_type);
        self.push_source(source);
        self.reset_form(facts.now_nanos);
        Outcome::saving(Task::Keyring { clear: None, writes, done: Message::ConfigReload })
    }

    /// Makes of the first source with this id what the form says.
    fn apply_form(&mut self, id: &String, auth: AuthMethod)
        ensures
            final(self)@ == old(self)@.with_sources(
                sources::change_source(
                    old(self)@.sources(),
                    id@,
                    |source: config::SourceConfigView|
                        old(self)@.edited(source, auth.deep_view()),
                ),
            ),
    {
        let ghost page = self@;
        if let Some(i) = config::find_source_index(&self.calendar_config.sources, id) {
            let ca_cert_path = self.form_ca();
            let source = &self.calendar_config.sources[i];
            assert(page.sources()[i as int] == source.deep_view());
            let ghost before = source.deep_view();
            let source_type = match self.form_source_type {
                0 => {
                    let calendars = match &source.source_type {
                        SourceType::CalDav { calendars, .. } => config::clone_calendars(calendars),
                        _ => Vec::new(),
                    };
                    assert(calendars.deep_view() =~= sources::calendars_of(before.source_type));
                    SourceType::CalDav { url: self.form_url.clone(), auth, calendars }
                },
                1 => SourceType::IcsUrl { url: self.form_url.clone(), auth },
                _ => SourceType::IcsFile { path: self.form_url.clone() },
            };
            self.calendar_config.sources[i].name = self.form_name.clone();
            self.calendar_config.sources[i].color = self.form_color.clone();
            self.calendar_config.sources[i].ca_cert_path = ca_cert_path;
            self.calendar_config.sources[i].source_type = source_type;
            assert(self@.sources() =~= page.sources().update(
                i as int,
                page.edited(before, auth.deep_view()),
            ));
        }
    }

    /// Saves the source that is being edited.
    pub fn save_edit_source(&mut self, facts: Facts) -> (r: Outcome)
        ensures
            (final(self)@, r.deep_view()) == old(self)@.save_edit_source(facts.deep_view()),
    {
        let id = match &self.editing_source_id {
            Some(id) => id.clone(),
            None => return Outcome::nothing(),
        };
        if !self.form_valid(facts.form_path_exists) {
            return Outcome::nothing();
        }
        let mut clear: Option<String> = None;
        let mut has_token = false;
        if let Some(i) = config::find_source_index(&self.calendar_config.sources, &id) {
            let source = &self.calendar_config.sources[i];
            assert(self@.sources()[i as int] == source.deep_view());
            if sources::auth_index(&source.source_type) != self.form_auth_method as u8 {
                clear = Some(id.clone());
            }
            has_token = sources::has_token(source);
        }
        let auth = self.form_auth(has_token);
        let writes = match self.form_auth_method {
            1 => {
                if !self.form_password.as_str().is_empty() {
                    one_secret(&id, SecretKind::Password, &self.form_password)
                } else {
                    no_secrets()
                }
            },
            2 => {
                if !self.form_token.as_str().is_empty() {
                    one_secret(&id, SecretKind::BearerToken, &self.form_token)
                } else {
                    no_secrets()
                }
            },
            3 => {
                if !self.form_oidc_client_secret.as_str().is_empty() {
                    one_secret(&id, SecretKind::OidcClientSecret, &self.form_oidc_client_secret)
                } else {
                    no_secrets()
                }
            },
            _ => no_secrets(),
        };
        self.apply_form(&id, auth);
        self.reset_form(facts.now_nanos);
        Outcome::saving(Task::Keyring { clear, writes, done: Message::ConfigReload })
    }

    /// Takes over the path of the certificate file that was chosen, if it has one.
    pub fn choose_ca_cert(&mut self, path: Option<String>)
        ensures
            final(self)@ == old(self)@.ca_cert_chosen(path.deep_view()),
    {
        if let Some(path) = path {
            self.form_ca_cert_path = path;
        }
    }

    /// Asks for the calendars of the source in the form.
    pub fn form_discover(&mut self, facts: Facts) -> (r: Outcome)
        ensures
            (final(self)@, r.deep_view()) == old(self)@.form_discover(facts.deep_view()),
    {
        if !self.form_valid(facts.form_path_exists) || self.form_source_type != 0 {
            return Outcome::nothing();
        }
        self.form_discovering = true;
        self.form_discovery_error = None;
        let url = self.form_url.clone();
        let ca_cert_path = self.form_ca();
        let credentials = match self.form_auth_method {
            1 => InlineCredentials::Basic {
                username: self.form_username.clone(),
                password: self.form_password.clone(),
            },
            2 => InlineCredentials::Bearer { token: self.form_token.clone() },
            3 => {
                if !self.form_oidc_logged_in {
                    self.form_discovering = false;
                    self.form_discovery_error = Some(Text::Label(Label::OidcLoginFirst));
                    return Outcome::nothing();
                }
                let source_id = self.form_source_id.clone();
                return Outcome::only(Task::DiscoverFormWithToken { source_id, url, ca_cert_path });
            },
            _ => InlineCredentials::Anonymous,
        };
        Outcome::only(Task::DiscoverForm { url, credentials, ca_cert_path })
    }

    /// Turns a discovered calendar on if it is off, and off if it is on.
    fn toggle_discovered(&mut self, index: usize)
        ensures
            final(self)@ == old(self)@.change_discovered(index, sources::toggled_calendar()),
    {
        let ghost before = self@.form_discovered_calendars;
        if index < self.form_discovered_calendars.len() {
            self.form_discovered_calendars[index].enabled =
                !self.form_discovered_calendars[index].enabled;
            assert(self@.form_discovered_calendars =~= before.update(
                index as int,
                sources::toggled_calendar()(before[index as int]),
            ));
        }
    }

    /// Gives the discovered calendar whose color is edited this color.
    fn recolor_discovered(&mut self, color: String)
        ensures
            final(self)@ == old(self)@.recolor_discovered(color@),
    {
        let ghost before = self@.form_discovered_calendars;
        if let Some(index) = self.form_editing_cal_color {
            if index < self.form_discovered_calendars.len() {
                self.form_discovered_calendars[index].color = color;
                assert(self@.form_discovered_calendars =~= before.update(
                    index as int,
                    sources::recolored_calendar(color@)(before[index as int]),
                ));
            }
        }
    }

    /// Starts editing the color of a discovered calendar.
    fn edit_discovered_color(&mut self, index: usize)
        ensures
            final(self)@ == old(self)@.edit_discovered_color(index),
    {
        self.form_cal_color_input = if index < self.form_discovered_calendars.len() {
            assert(self@.form_discovered_calendars[index as int]
                == self.form_discovered_calendars@[index as int].deep_view());
            self.form_discovered_calendars[index].color.clone()
        } else {
            DEFAULT_COLOR.to_owned()
        };
        self.form_editing_cal_color = Some(index);
    }

    /// Asks for a sign-in with what is in the form.
    fn form_login(&self) -> (r: Outcome)
        ensures
            r.deep_view() == self@.form_login(),
    {
        let client_secret = if self.form_oidc_client_secret.as_str().is_empty() {
            None
        } else {
            Some(self.form_oidc_client_secret.clone())
        };
        Outcome::only(
            Task::FormLogin {
                issuer_url: self.form_oidc_issuer.clone(),
                client_id: self.form_oidc_client_id.clone(),
                client_secret,
                scopes: page::parse_scopes(self.form_oidc_scopes.as_str()),
            },
        )
    }

    /// Reacts to a sign-in for the form that succeeded.
    pub fn form_signed_in(
        &mut self,
        access_token: String,
        refresh_token: Option<String>,
        facts: Facts,
    ) -> (r: Outcome)
        ensures
            (final(self)@, r.deep_view()) == old(self)@.form_signed_in(
                access_token@,
                refresh_token.deep_view(),
                facts.deep_view(),
            ),
    {
        self.form_oidc_logged_in = true;
        let id = self.form_source_id.clone();
        let mut writes = token_secrets(&id, &access_token, &refresh_token);
        if self.form_valid(facts.form_path_exists) && self.form_source_type == 0 {
            let calendars: Vec<CalDavCalendar> = Vec::new();
            assert(calendars.deep_view() =~= Seq::empty());
            let source_type = SourceType::CalDav {
                url: self.form_url.clone(),
                auth: self.form_oidc(true),
                calendars,
            };
            if !self.form_oidc_client_secret.as_str().is_empty() {
                let ghost before = writes.deep_view();
                let secret = SecretWrite {
                    source_id: id.clone(),
                    kind: SecretKind::OidcClientSecret,
                    secret: self.form_oidc_client_secret.clone(),
                };
                writes.push(secret);
                assert(writes.deep_view() =~= before + one_write(
                    id@,
                    SecretKind::OidcClientSecret,
                    self@.form_oidc_client_secret,
                ));
            }
            let source = self.source_from_form(facts.fresh, id.clone(), source_type);
            self.push_source(source);
            self.reset_form(facts.now_nanos);
            let done = Message::OidcSavedAndDiscover(id, access_token);
            return Outcome::saving(Task::Keyring { clear: None, writes, done });
        }
        Outcome::only(Task::Keyring { clear: None, writes, done: Message::FormDiscover })
    }

    /// Asks for the calendars of a saved source.
    pub fn discover(&mut self, id: String) -> (r: Outcome)
        ensures
            (final(self)@, r.deep_view()) == old(self)@.discover(id@),
    {
        self.discovering_source = Some(id.clone());
        self.discovery_error = None;
        if let Some(i) = config::find_source_index(&self.calendar_config.sources, &id) {
            let source = &self.calendar_config.sources[i];
            assert(self@.sources()[i as int] == source.deep_view());
            if let SourceType::CalDav { url, auth, .. } = &source.source_type {
                return Outcome::only(
                    Task::Discover {
                        source_id: id,
                        url: url.clone(),
                        auth: auth.clone(),
                        ca_cert_path: config::clone_text(&source.ca_cert_path),
                    },
                );
            }
        }
        Outcome::nothing()
    }

    /// Opens the form on a source that a sign-in saved, and asks for its calendars with the access
    /// token at hand.
    pub fn saved_and_discover(
        &mut self,
        id: String,
        access_token: String,
        now_nanos: u128,
    ) -> (r: Outcome)
        ensures
            (final(self)@, r.deep_view()) == old(self)@.saved_and_discover(
                id@,
                access_token@,
                now_nanos,
            ),
    {
        self.edit_source(&id, now_nanos);
        self.discovering_source = Some(id.clone());
        self.discovery_error = None;
        if let Some(i) = config::find_source_index(&self.calendar_config.sources, &id) {
            let source = &self.calendar_config.sources[i];
            assert(self@.sources()[i as int] == source.deep_view());
            if let SourceType::CalDav { url, .. } = &source.source_type {
                return Outcome::only(
                    Task::DiscoverWithCredentials {
                        source_id: id,
                        url: url.clone(),
                        credentials: InlineCredentials::Bearer { token: access_token },
                        ca_cert_path: config::clone_text(&source.ca_cert_path),
                    },
                );
            }
        }
        Outcome::nothing()
    }

    /// Takes over the calendars that were found for a saved source.
    pub fn take_discovered(&mut self, id: String, calendars: Vec<CalDavCalendar>)
        ensures
            final(self)@ == old(self)@.discovered(id@, calendars.deep_view()),
    {
        self.discovering_source = None;
        sources::add_calendars(&mut self.calendar_config.sources, &id, calendars);
        self.refresh_attempted.remove(id.as_str());
    }

    /// Reacts to a discovery for a saved source that failed.
    pub fn discover_failed(&mut self, id: String, error: String) -> (r: Outcome)
        ensures
            (final(self)@, r.deep_view()) == old(self)@.discover_failed(id@, error@),
    {
        self.discovering_source = None;
        if text::contains(error.as_str(), "Authentication expired") || text::contains(
            error.as_str(),
            "expired",
        ) {
            let is_oidc = match config::find_source_index(&self.calendar_config.sources, &id) {
                Some(i) => {
                    assert(self@.sources()[i as int]
                        == self.calendar_config.sources@[i as int].deep_view());
                    self.calendar_config.sources[i].source_type.uses_oidc()
                },
                None => false,
            };
            if is_oidc && !self.refresh_attempted.contains(id.as_str()) {
                self.refresh_attempted.insert(id.clone());
                return self.refresh(id);
            }
        }
        self.discovery_error = Some(Text::Plain(error));
        Outcome::nothing()
    }

    /// Asks for new tokens for a source.
    pub fn refresh(&self, id: String) -> (r: Outcome)
        ensures
            r.deep_view() == self@.refresh(id@),
    {
        if let Some(i) = config::find_source_index(&self.calendar_config.sources, &id) {
            let source = &self.calendar_config.sources[i];
            assert(self@.sources()[i as int] == source.deep_view());
            if let Some(AuthMethod::Oidc { issuer_url, client_id, has_client_secret, .. }) =
                source.source_type.auth() {
                return Outcome::only(
                    Task::Refresh {
                        source_id: id,
                        issuer_url: issuer_url.clone(),
                        client_id: client_id.clone(),
                        needs_secret: *has_client_secret,
                    },
                );
            }
        }
        Outcome::nothing()
    }

    /// Asks the user to sign in for a source.
    pub fn login(&self, id: String) -> (r: Outcome)
        ensures
            r.deep_view() == self@.login(id@),
    {
        if let Some(i) = config::find_source_index(&self.calendar_config.sources, &id) {
            let source = &self.calendar_config.sources[i];
            assert(self@.sources()[i as int] == source.deep_view());
            if let Some(
                AuthMethod::Oidc { issuer_url, client_id, has_client_secret, scopes, .. },
            ) = source.source_type.auth() {
                return Outcome::only(
                    Task::Login {
                        source_id: id,
                        issuer_url: issuer_url.clone(),
                        client_id: client_id.clone(),
                        needs_secret: *has_client_secret,
                        scopes: config::clone_texts(scopes),
                    },
                );
            }
        }
        Outcome::nothing()
    }

    /// Gives the calendar whose color is edited this color, and says whether there is one.
    fn recolor(&mut self, color: String) -> (r: bool)
        ensures
            final(self)@ == old(self)@.recolor(color@),
            r == (old(self)@.editing_calendar_color is Some),
    {
        if let Some((id, href)) = &self.editing_calendar_color {
            sources::recolor_calendar(&mut self.calendar_config.sources, id, href, color);
            true
        } else {
            false
        }
    }

    /// Reacts to a sign-in for a saved source that succeeded.
    pub fn source_signed_in(
        &mut self,
        id: String,
        access_token: String,
        refresh_token: Option<String>,
    ) -> (r: Outcome)
        ensures
            (final(self)@, r.deep_view()) == old(self)@.source_signed_in(
                id@,
                access_token@,
                refresh_token.deep_view(),
            ),
    {
        sources::mark_signed_in(&mut self.calendar_config.sources, &id);
        self.refresh_attempted.remove(id.as_str());
        self.discovery_error = None;
        let writes = token_secrets(&id, &access_token, &refresh_token);
        Outcome::saving(Task::Keyring { clear: None, writes, done: Message::Discover(id) })
    }

    /// Reacts to new tokens for a source.
    pub fn refreshed(
        &mut self,
        id: String,
        access_token: String,
        refresh_token: Option<String>,
    ) -> (r: Outcome)
        ensures
            (final(self)@, r.deep_view()) == old(self)@.refreshed(
                id@,
                access_token@,
                refresh_token.deep_view(),
            ),
    {
        self.discovery_error = None;
        let writes = token_secrets(&id, &access_token, &refresh_token);
        Outcome::only(Task::Keyring { clear: None, writes, done: Message::Discover(id) })
    }

    /// Reacts to a refresh that failed.
    pub fn refresh_failed(&mut self, report: String) -> (r: Outcome)
        ensures
            (final(self)@, r.deep_view()) == old(self)@.refresh_failed(report@),
    {
        let pieces = text::split(report.as_str(), ':');
        proof {
            text::lemma_split_on_some(report@, ':');
            assert(pieces.deep_view()[0] == pieces@[0]@);
        }
        let id = text::trim(pieces[0].as_str());
        if !id.is_empty() {
            self.discovery_error = Some(Text::Label(Label::AuthExpiredReauth));
            return self.login(id.to_owned());
        }
        self.discovery_error = Some(Text::Plain(report));
        Outcome::nothing()
    }

    /// Changes the encryption mode.
    pub fn change_encryption(&mut self, number: usize) -> (r: Outcome)
        ensures
            (final(self)@, r.deep_view()) == old(self)@.change_encryption(number),
    {
        let mode = match number {
            0 => EncryptionMode::Off,
            1 => EncryptionMode::Auto,
            _ => EncryptionMode::Manual,
        };
        if self.calendar_config.encryption_mode != mode {
            self.calendar_config.encryption_mode = mode;
            return Outcome {
                save_config: true,
                clear_cache: true,
                forget_secrets: None,
                task: Task::Idle,
            };
        }
        Outcome::nothing()
    }

    /// Reacts to an event of the list of sources.
    fn source_event(&mut self, message: Message, facts: Facts) -> (r: Outcome)
        requires
            is_source_event(message),
        ensures
            (final(self)@, r.deep_view()) == old(self)@.updated(
                message.deep_view(),
                facts.deep_view(),
            ),
    {
        match message {
            Message::AddSource => {
                self.reset_form(facts.now_nanos);
                self.editing = true;
            },
            Message::EditSource(id) => {
                self.edit_source(&id, facts.now_nanos);
            },
            Message::RemoveSource(id) => {
                sources::remove_source(&mut self.calendar_config.sources, &id);
                return Outcome {
                    save_config: true,
                    clear_cache: false,
                    forget_secrets: Some(id),
                    task: Task::Idle,
                };
            },
            Message::ToggleSource(id) => {
                sources::toggle_source(&mut self.calendar_config.sources, &id);
                return Outcome::saving(Task::Idle);
            },
            Message::SaveSource => {
                return self.save_source(facts);
            },
            Message::SaveEditSource => {
                return self.save_edit_source(facts);
            },
            Message::CancelForm => {
                self.reset_form(facts.now_nanos);
            },
            _ => {},
        }
        Outcome::nothing()
    }

    /// Reacts to a change of a field of the form.
    fn field_event(&mut self, message: Message, facts: Facts) -> (r: Outcome)
        requires
            is_field_event(message),
        ensures
            (final(self)@, r.deep_view()) == old(self)@.updated(
                message.deep_view(),
                facts.deep_view(),
            ),
    {
        match message {
            Message::FormName(v) => {
                self.form_name = v;
            },
            Message::FormUrl(v) => {
                self.form_url = v;
            },
            Message::FormSourceType(v) => {
                self.form_source_type = v;
            },
            Message::FormAuth(v) => {
                self.form_auth_method = v;
            },
            Message::FormUsername(v) => {
                self.form_username = v;
            },
            Message::FormPassword(v) => {
                self.form_password = v;
            },
            Message::FormToken(v) => {
                self.form_token = v;
            },
            Message::FormColor(v) => {
                self.form_color = v;
            },
            Message::FormOidcIssuer(v) => {
                self.form_oidc_issuer = v;
            },
            Message::FormOidcClientId(v) => {
                self.form_oidc_client_id = v;
            },
            Message::FormOidcClientSecret(v) => {
                self.form_oidc_client_secret = v;
            },
            Message::FormOidcScopes(v) => {
                self.form_oidc_scopes = v;
            },
            Message::FormCaCertPath(v) => {
                self.form_ca_cert_path = v;
            },
            Message::BrowseCaCert => {
                return Outcome::only(Task::BrowseCaCert);
            },
            Message::CaCertBrowsed(result) => {
                if let Ok(address) = result {
                    self.choose_ca_cert(file_path(address.as_str()));
                }
            },
            _ => {},
        }
        Outcome::nothing()
    }

    /// Reacts to an event of discovery and sign-in while a source is being added.
    fn form_event(&mut self, message: Message, facts: Facts) -> (r: Outcome)
        requires
            is_form_event(message),
        ensures
            (final(self)@, r.deep_view()) == old(self)@.updated(
                message.deep_view(),
                facts.deep_view(),
            ),
    {
        match message {
            Message::FormDiscover => {
                return self.form_discover(facts);
            },
            Message::FormDiscovered(calendars) => {
                self.form_discovering = false;
                self.form_discovery_error = None;
                self.form_discovered_calendars = calendars;
            },
            Message::FormDiscoverError(error) => {
                self.form_discovering = false;
                self.form_discovery_error = Some(Text::Plain(error));
            },
            Message::FormToggleCalendar(index) => {
                self.toggle_discovered(index);
            },
            Message::FormCalendarColor(index) => {
                self.edit_discovered_color(index);
            },
            Message::FormCalColorInput(v) => {
                self.form_cal_color_input = v;
            },
            Message::FormCalColorPreset(color) => {
                self.form_cal_color_input = color.clone();
                self.recolor_discovered(color);
            },
            Message::FormCalColorSave => {
                self.recolor_discovered(self.form_cal_color_input.clone());
                self.form_editing_cal_color = None;
            },
            Message::FormCalColorCancel => {
                self.form_editing_cal_color = None;
            },
            Message::FormOidcLogin => {
                return self.form_login();
            },
            Message::FormOidcLoginResult(result) => match result {
                Ok((access_token, refresh_token)) => {
                    return self.form_signed_in(access_token, refresh_token, facts);
                },
                Err(error) => {
                    self.form_discovery_error = Some(Text::Plain(error));
                },
            },
            Message::OidcSavedAndDiscover(id, access_token) => {
                return self.saved_and_discover(id, access_token, facts.now_nanos);
            },
            _ => {},
        }
        Outcome::nothing()
    }

    /// Reacts to an event of the calendars of saved sources.
    fn calendar_event(&mut self, message: Message, facts: Facts) -> (r: Outcome)
        requires
            is_calendar_event(message),
        ensures
            (final(self)@, r.deep_view()) == old(self)@.updated(
                message.deep_view(),
                facts.deep_view(),
            ),
    {
        match message {
            Message::Discover(id) => {
                return self.discover(id);
            },
            Message::Discovered(id, calendars) => {
                self.take_discovered(id, calendars);
                return Outcome::saving(Task::Idle);
            },
            Message::DiscoverError(id, error) => {
                return self.discover_failed(id, error);
            },
            Message::ToggleCalendar(id, href) => {
                sources::toggle_calendar(&mut self.calendar_config.sources, &id, &href);
                return Outcome::saving(Task::Idle);
            },
            Message::EditCalendarColor(id, href) => {
                self.calendar_color_input =
                    sources::calendar_color(&self.calendar_config.sources, &id, &href);
                self.editing_calendar_color = Some((id, href));
            },
            Message::CalendarColorInput(v) => {
                self.calendar_color_input = v;
            },
            Message::CalendarColorPreset(color) => {
                self.calendar_color_input = color.clone();
                if self.recolor(color) {
                    return Outcome::saving(Task::Idle);
                }
            },
            Message::SaveCalendarColor => {
                let changed = self.recolor(self.calendar_color_input.clone());
                self.editing_calendar_color = None;
                if changed {
                    return Outcome::saving(Task::Idle);
                }
            },
            Message::CancelCalendarColor => {
                self.editing_calendar_color = None;
            },
            _ => {},
        }
        Outcome::nothing()
    }

    /// Reacts to an event of the sign-in of saved sources.
    fn sign_in_event(&mut self, message: Message, facts: Facts) -> (r: Outcome)
        requires
            is_sign_in_event(message),
        ensures
            (final(self)@, r.deep_view()) == old(self)@.updated(
                message.deep_view(),
                facts.deep_view(),
            ),
    {
        match message {
            Message::OidcLogin(id) => {
                return self.login(id);
            },
            Message::OidcResult(result) => {
                if let Ok((id, access_token, refresh_token)) = result {
                    return self.source_signed_in(id, access_token, refresh_token);
                }
            },
            Message::OidcRefresh(id) => {
                return self.refresh(id);
            },
            Message::OidcRefreshResult(result) => match result {
                Ok((id, access_token, refresh_token)) => {
                    return self.refreshed(id, access_token, refresh_token);
                },
                Err(report) => {
                    return self.refresh_failed(report);
                },
            },
            _ => {},
        }
        Outcome::nothing()
    }

    /// Reacts to an event of the sync settings, or of the settings store.
    fn settings_event(&mut self, message: Message, facts: Facts) -> (r: Outcome)
        requires
            is_settings_event(message),
        ensures
            (final(self)@, r.deep_view()) == old(self)@.updated(
                message.deep_view(),
                facts.deep_view(),
            ),
    {
        match message {
            Message::SyncInterval(v) => {
                self.calendar_config.sync_interval_minutes = v;
                return Outcome::saving(Task::Idle);
            },
            Message::UpcomingCount(v) => {
                self.calendar_config.upcoming_count = v;
                return Outcome::saving(Task::Idle);
            },
            Message::EncryptionModeChanged(v) => {
                return self.change_encryption(v);
            },
            Message::ConfigReload => {
                self.on_enter(facts.stored_config);
            },
            _ => {},
        }
        Outcome::nothing()
    }

    /// Reacts to an event: changes the page, and says what the caller has to do.
    pub fn update(&mut self, message: Message, facts: Facts) -> (r: Outcome)
        ensures
            (final(self)@, r.deep_view()) == old(self)@.updated(
                message.deep_view(),
                facts.deep_view(),
            ),
    {
        match message {
            Message::AddSource
            | Message::EditSource(_)
            | Message::RemoveSource(_)
            | Message::ToggleSource(_)
            | Message::SaveSource
            | Message::SaveEditSource
            | Message::CancelForm => self.source_event(message, facts),
            Message::FormName(_)
            | Message::FormUrl(_)
            | Message::FormSourceType(_)
            | Message::FormAuth(_)
            | Message::FormUsername(_)
            | Message::FormPassword(_)
            | Message::FormToken(_)
            | Message::FormColor(_)
            | Message::FormOidcIssuer(_)
            | Message::FormOidcClientId(_)
            | Message::FormOidcClientSecret(_)
            | Message::FormOidcScopes(_)
            | Message::FormCaCertPath(_)
            | Message::BrowseCaCert
            | Message::CaCertBrowsed(_) => self.field_event(message, facts),
            Message::FormDiscover
            | Message::FormDiscovered(_)
            | Message::FormDiscoverError(_)
            | Message::FormToggleCalendar(_)
            | Message::FormCalendarColor(_)
            | Message::FormCalColorInput(_)
            | Message::FormCalColorPreset(_)
            | Message::FormCalColorSave
            | Message::FormCalColorCancel
            | Message::FormOidcLogin
            | Message::FormOidcLoginResult(_)
            | Message::OidcSavedAndDiscover(_, _) => self.form_event(message, facts),
            Message::Discover(_)
            | Message::Discovered(_, _)
            | Message::DiscoverError(_, _)
            | Message::ToggleCalendar(_, _)
            | Message::EditCalendarColor(_, _)
            | Message::CalendarColorInput(_)
            | Message::CalendarColorPreset(_)
            | Message::SaveCalendarColor
            | Message::CancelCalendarColor => self.calendar_event(message, facts),
            Message::OidcLogin(_)
            | Message::OidcResult(_)
            | Message::OidcRefresh(_)
            | Message::OidcRefreshResult(_) => self.sign_in_event(message, facts),
            Message::SyncInterval(_)
            | Message::UpcomingCount(_)
            | Message::EncryptionModeChanged(_)
            | Message::ConfigReload => self.settings_event(message, facts),
        }
    }
}

} // verus!
