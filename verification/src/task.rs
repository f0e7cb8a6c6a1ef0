//! Work that the page hands to its caller, and what the page makes of the results.

use vstd::prelude::*;

use crate::auth;
use crate::auth::OidcTokens;
use crate::config;
use crate::config::{AuthMethod, CalDavCalendar};
use crate::discovery;
use crate::discovery::InlineCredentials;
use crate::message;
use crate::message::Message;
use crate::secrets;
use crate::secrets::SecretKind;

verus! {

/// A secret to be stored.
#[derive(Debug, PartialEq, Eq)]
pub struct SecretWrite {
    pub source_id: String,
    pub kind: SecretKind,
    pub secret: String,
}

/// The model of a [`SecretWrite`].
pub struct SecretWriteView {
    pub source_id: Seq<char>,
    pub kind: SecretKind,
    pub secret: Seq<char>,
}

impl DeepView for SecretWrite {
    type V = SecretWriteView;

    open spec fn deep_view(&self) -> SecretWriteView {
        SecretWriteView { source_id: self.source_id@, kind: self.kind, secret: self.secret@ }
    }
}

/// Work for the caller, which ends in a message to the page.
#[derive(Debug, PartialEq, Eq)]
pub enum Task {
    /// Nothing to do, and no message.
    Idle,
    /// Delete the secrets of the source in `clear`, if any, then store each of `writes` in
    /// order, and then send `done`. Failures do not stop the work.
    Keyring { clear: Option<String>, writes: Vec<SecretWrite>, done: Message },
    /// Let the user choose a certificate file.
    BrowseCaCert,
    /// Discover with these credentials; see [`form_discovery_message`].
    DiscoverForm { url: String, credentials: InlineCredentials, ca_cert_path: Option<String> },
    /// Load the access token of the source and discover with it; see [`form_token_credentials`].
    DiscoverFormWithToken { source_id: String, url: String, ca_cert_path: Option<String> },
    /// Sign in; see [`form_login_message`].
    FormLogin {
        issuer_url: String,
        client_id: String,
        client_secret: Option<String>,
        scopes: Vec<String>,
    },
    /// Discover with the stored secrets of the source; see [`discovery_message`].
    Discover {
        source_id: String,
        url: String,
        auth: AuthMethod,
        ca_cert_path: Option<String>,
    },
    /// Discover for the source with these credentials; see [`discovery_message`].
    DiscoverWithCredentials {
        source_id: String,
        url: String,
        credentials: InlineCredentials,
        ca_cert_path: Option<String>,
    },
    /// Load the client secret if it is needed, and sign in; see [`optional_secret`] and
    /// [`login_message`].
    Login {
        source_id: String,
        issuer_url: String,
        client_id: String,
        needs_secret: bool,
        scopes: Vec<String>,
    },
    /// Load the refresh token, then the client secret if it is needed, and ask for new tokens;
    /// see [`refresh_token`], [`optional_secret`] and [`refresh_message`].
    Refresh { source_id: String, issuer_url: String, client_id: String, needs_secret: bool },
}

/// The model of a [`Task`].
pub enum TaskView {
    Idle,
    Keyring {
        clear: Option<Seq<char>>,
        writes: Seq<SecretWriteView>,
        done: message::MessageView,
    },
    BrowseCaCert,
    DiscoverForm {
        url: Seq<char>,
        credentials: discovery::InlineCredentialsView,
        ca_cert_path: Option<Seq<char>>,
    },
    DiscoverFormWithToken {
        source_id: Seq<char>,
        url: Seq<char>,
        ca_cert_path: Option<Seq<char>>,
    },
    FormLogin {
        issuer_url: Seq<char>,
        client_id: Seq<char>,
        client_secret: Option<Seq<char>>,
        scopes: Seq<Seq<char>>,
    },
    Discover {
        source_id: Seq<char>,
        url: Seq<char>,
        auth: config::AuthMethodView,
        ca_cert_path: Option<Seq<char>>,
    },
    DiscoverWithCredentials {
        source_id: Seq<char>,
        url: Seq<char>,
        credentials: discovery::InlineCredentialsView,
        ca_cert_path: Option<Seq<char>>,
    },
    Login {
        source_id: Seq<char>,
        issuer_url: Seq<char>,
        client_id: Seq<char>,
        needs_secret: bool,
        scopes: Seq<Seq<char>>,
    },
    Refresh {
        source_id: Seq<char>,
        issuer_url: Seq<char>,
        client_id: Seq<char>,
        needs_secret: bool,
    },
}

impl DeepView for Task {
    type V = TaskView;

    open spec fn deep_view(&self) -> TaskView {
        match self {
            Task::Idle => TaskView::Idle,
            Task::Keyring { clear, writes, done } => TaskView::Keyring {
                clear: clear.deep_view(),
                writes: writes.deep_view(),
                done: done.deep_view(),
            },
            Task::BrowseCaCert => TaskView::BrowseCaCert,
            Task::DiscoverForm { url, credentials, ca_cert_path } => TaskView::DiscoverForm {
                url: url@,
                credentials: credentials.deep_view(),
                ca_cert_path: ca_cert_path.deep_view(),
            },
            Task::DiscoverFormWithToken { source_id, url, ca_cert_path } =>
                TaskView::DiscoverFormWithToken {
                source_id: source_id@,
                url: url@,
                ca_cert_path: ca_cert_path.deep_view(),
            },
            Task::FormLogin { issuer_url, client_id, client_secret, scopes } =>
                TaskView::FormLogin {
                issuer_url: issuer_url@,
                client_id: client_id@,
                client_secret: client_secret.deep_view(),
                scopes: scopes.deep_view(),
            },
            Task::Discover { source_id, url, auth, ca_cert_path } => TaskView::Discover {
                source_id: source_id@,
                url: url@,
                auth: auth.deep_view(),
                ca_cert_path: ca_cert_path.deep_view(),
            },
            Task::DiscoverWithCredentials { source_id, url, credentials, ca_cert_path } =>
                TaskView::DiscoverWithCredentials {
                source_id: source_id@,
                url: url@,
                credentials: credentials.deep_view(),
                ca_cert_path: ca_cert_path.deep_view(),
            },
            Task::Login { source_id, issuer_url, client_id, needs_secret, scopes } =>
                TaskView::Login {
                source_id: source_id@,
                issuer_url: issuer_url@,
                client_id: client_id@,
                needs_secret: *needs_secret,
                scopes: scopes.deep_view(),
            },
            Task::Refresh { source_id, issuer_url, client_id, needs_secret } => TaskView::Refresh {
                source_id: source_id@,
                issuer_url: issuer_url@,
                client_id: client_id@,
                needs_secret: *needs_secret,
            },
        }
    }
}

/// What an event asks of the caller, besides the change of the page.
#[derive(Debug, PartialEq, Eq)]
pub struct Outcome {
    /// Write the configuration to the settings store, as the page now holds it.
    pub save_config: bool,
    /// Delete the cached events.
    pub clear_cache: bool,
    /// Delete the secrets of this source, without waiting for it.
    pub forget_secrets: Option<String>,
    pub task: Task,
}

/// The model of an [`Outcome`].
pub struct OutcomeView {
    pub save_config: bool,
    pub clear_cache: bool,
    pub forget_secrets: Option<Seq<char>>,
    pub task: TaskView,
}

impl DeepView for Outcome {
    type V = OutcomeView;

    open spec fn deep_view(&self) -> OutcomeView {
        OutcomeView {
            save_config: self.save_config,
            clear_cache: self.clear_cache,
            forget_secrets: self.forget_secrets.deep_view(),
            task: self.task.deep_view(),
        }
    }
}

impl OutcomeView {
    /// Nothing is asked of the caller.
    pub open spec fn nothing() -> OutcomeView {
        OutcomeView::only(TaskView::Idle)
    }

    /// Only this work is asked of the caller.
    pub open spec fn only(task: TaskView) -> OutcomeView {
        OutcomeView { save_config: false, clear_cache: false, forget_secrets: None, task }
    }

    /// Only that the configuration is saved, and this work, are asked of the caller.
    pub open spec fn saving(task: TaskView) -> OutcomeView {
        OutcomeView { save_config: true, ..OutcomeView::only(task) }
    }
}

impl Outcome {
    /// Nothing is asked of the caller.
    pub fn nothing() -> (r: Outcome)
        ensures
            r.deep_view() == OutcomeView::nothing(),
    {
        Outcome::only(Task::Idle)
    }

    /// Only this work is asked of the caller.
    pub fn only(task: Task) -> (r: Outcome)
        ensures
            r.deep_view() == OutcomeView::only(task.deep_view()),
    {
        Outcome { save_config: false, clear_cache: false, forget_secrets: None, task }
    }

    /// Only that the configuration is saved, and this work, are asked of the caller.
    pub fn saving(task: Task) -> (r: Outcome)
        ensures
            r.deep_view() == OutcomeView::saving(task.deep_view()),
    {
        Outcome { save_config: true, clear_cache: false, forget_secrets: None, task }
    }
}

// ── What becomes of the results ──────────────────────────────────────────

/// The model of what a discovery gave.
pub open spec fn calendars_view(r: Result<Vec<CalDavCalendar>, String>) -> Result<
    Seq<config::CalDavCalendarView>,
    Seq<char>,
> {
    match r {
        Ok(calendars) => Ok(calendars.deep_view()),
        Err(e) => Err(e@),
    }
}

/// The event that ends a discovery for the form.
pub open spec fn form_discovery_event(
    result: Result<Seq<config::CalDavCalendarView>, Seq<char>>,
) -> message::MessageView {
    match result {
        Ok(calendars) => message::MessageView::FormDiscovered(calendars),
        Err(e) => message::MessageView::FormDiscoverError(e),
    }
}

/// The event that ends a discovery for a saved source.
pub open spec fn discovery_event(
    source_id: Seq<char>,
    result: Result<Seq<config::CalDavCalendarView>, Seq<char>>,
) -> message::MessageView {
    match result {
        Ok(calendars) => message::MessageView::Discovered(source_id, calendars),
        Err(e) => message::MessageView::DiscoverError(source_id, e),
    }
}

/// The credentials of a discovery with a stored access token, given what loading it gave. An
/// empty token stands for one that is not there.
pub open spec fn token_credentials(loaded: Result<Option<Seq<char>>, Seq<char>>) ->
    discovery::InlineCredentialsView {
    discovery::InlineCredentialsView::Bearer {
        token: match loaded {
            Ok(Some(token)) => token,
            _ => Seq::empty(),
        },
    }
}

/// The secret that was loaded, if it was there and could be read.
pub open spec fn secret_if_loaded(loaded: Result<Option<Seq<char>>, Seq<char>>) -> Option<
    Seq<char>,
> {
    match loaded {
        Ok(secret) => secret,
        Err(_) => None,
    }
}

/// The event that ends a sign-in for the form.
pub open spec fn form_login_event(result: Result<auth::OidcTokensView, Seq<char>>) ->
    message::MessageView {
    message::MessageView::FormOidcLoginResult(
        match result {
            Ok(t) => Ok((t.access_token, t.refresh_token)),
            Err(e) => Err(e),
        },
    )
}

/// The event that ends a sign-in for a saved source.
pub open spec fn login_event(
    source_id: Seq<char>,
    result: Result<auth::OidcTokensView, Seq<char>>,
) -> message::MessageView {
    message::MessageView::OidcResult(
        match result {
            Ok(t) => Ok((source_id, t.access_token, t.refresh_token)),
            Err(e) => Err(e),
        },
    )
}

/// The event that ends a refresh.
pub open spec fn refresh_event(
    source_id: Seq<char>,
    result: Result<auth::OidcTokensView, Seq<char>>,
) -> message::MessageView {
    message::MessageView::OidcRefreshResult(
        match result {
            Ok(t) => Ok((source_id, t.access_token, t.refresh_token)),
            Err(e) => Err(refresh_failure(source_id, e)),
        },
    )
}

/// The message that ends a discovery for the form.
pub fn form_discovery_message(result: Result<Vec<CalDavCalendar>, String>) -> (r: Message)
    ensures
        r.deep_view() == form_discovery_event(calendars_view(result)),
        r.deep_view() == match calendars_view(result) {
            Ok(calendars) => message::MessageView::FormDiscovered(calendars),
            Err(e) => message::MessageView::FormDiscoverError(e),
        },
{
    match result {
        Ok(calendars) => Message::FormDiscovered(calendars),
        Err(e) => Message::FormDiscoverError(e),
    }
}

/// The message that ends a discovery for a saved source.
pub fn discovery_message(
    source_id: String,
    result: Result<Vec<CalDavCalendar>, String>,
) -> (r: Message)
    ensures
        r.deep_view() == discovery_event(source_id@, calendars_view(result)),
        r.deep_view() == match calendars_view(result) {
            Ok(calendars) => message::MessageView::Discovered(source_id@, calendars),
            Err(e) => message::MessageView::DiscoverError(source_id@, e),
        },
{
    match result {
        Ok(calendars) => Message::Discovered(source_id, calendars),
        Err(e) => Message::DiscoverError(source_id, e),
    }
}

/// The credentials of a discovery with a stored access token, given what loading it gave. An
/// empty token stands for one that is not there.
pub fn form_token_credentials(loaded: Result<Option<String>, String>) -> (r: InlineCredentials)
    ensures
        r.deep_view() == token_credentials(secrets::loaded_view(loaded)),
        r.deep_view() == (discovery::InlineCredentialsView::Bearer {
            token: match secrets::loaded_view(loaded) {
                Ok(Some(token)) => token,
                _ => Seq::empty(),
            },
        }),
{
    let token = match loaded {
        Ok(Some(token)) => token,
        _ => String::new(),
    };
    InlineCredentials::Bearer { token }
}

/// The secret that was loaded, if it was there and could be read.
pub fn optional_secret(loaded: Result<Option<String>, String>) -> (r: Option<String>)
    ensures
        r.deep_view() == secret_if_loaded(secrets::loaded_view(loaded)),
        r.deep_view() == match secrets::loaded_view(loaded) {
            Ok(secret) => secret,
            Err(_) => None,
        },
{
    match loaded {
        Ok(secret) => secret,
        Err(_) => None,
    }
}

/// The message that ends a sign-in for the form.
pub fn form_login_message(result: Result<OidcTokens, String>) -> (r: Message)
    ensures
        r.deep_view() == form_login_event(auth::tokens_view(result)),
        r.deep_view() == message::MessageView::FormOidcLoginResult(
            match auth::tokens_view(result) {
                Ok(t) => Ok((t.access_token, t.refresh_token)),
                Err(e) => Err(e),
            },
        ),
{
    match result {
        Ok(t) => Message::FormOidcLoginResult(Ok((t.access_token, t.refresh_token))),
        Err(e) => Message::FormOidcLoginResult(Err(e)),
    }
}

/// The message that ends a sign-in for a saved source.
pub fn login_message(source_id: String, result: Result<OidcTokens, String>) -> (r: Message)
    ensures
        r.deep_view() == login_event(source_id@, auth::tokens_view(result)),
        r.deep_view() == message::MessageView::OidcResult(
            match auth::tokens_view(result) {
                Ok(t) => Ok((source_id@, t.access_token, t.refresh_token)),
                Err(e) => Err(e),
            },
        ),
{
    match result {
        Ok(t) => Message::OidcResult(Ok((source_id, t.access_token, t.refresh_token))),
        Err(e) => Message::OidcResult(Err(e)),
    }
}

/// How it is reported that there is no refresh token. The id of the source comes last.
pub open spec fn missing_refresh_token(source_id: Seq<char>) -> Seq<char> {
    "No refresh token stored for "@ + source_id
}

/// The refresh token to use, given what loading it gave, or the event that ends the refresh where
/// there is none.
pub open spec fn token_to_refresh(
    source_id: Seq<char>,
    loaded: Result<Option<Seq<char>>, Seq<char>>,
) -> Result<Seq<char>, message::MessageView> {
    match loaded {
        Ok(Some(token)) => Ok(token),
        _ => Err(message::MessageView::OidcRefreshResult(Err(missing_refresh_token(source_id)))),
    }
}

/// The refresh token to use, given what loading it gave, or the message that ends the refresh
/// where there is none.
pub fn refresh_token(source_id: &String, loaded: Result<Option<String>, String>) -> (r: Result<
    String,
    Message,
>)
    ensures
        match token_to_refresh(source_id@, secrets::loaded_view(loaded)) {
            Ok(token) => r matches Ok(t) && t@ == token,
            Err(event) => r matches Err(m) && m.deep_view() == event,
        },
        match secrets::loaded_view(loaded) {
            Ok(Some(token)) => r matches Ok(t) && t@ == token,
            _ => r matches Err(m) && m.deep_view() == message::MessageView::OidcRefreshResult(
                Err(missing_refresh_token(source_id@)),
            ),
        },
{
    match loaded {
        Ok(Some(token)) => Ok(token),
        _ => Err(
            Message::OidcRefreshResult(
                Err("No refresh token stored for ".to_owned().concat(source_id.as_str())),
            ),
        ),
    }
}

/// How the failure of a refresh is reported: the id of the source comes first.
pub open spec fn refresh_failure(source_id: Seq<char>, reason: Seq<char>) -> Seq<char> {
    source_id + ": "@ + reason
}

/// The message that ends a refresh.
pub fn refresh_message(source_id: String, result: Result<OidcTokens, String>) -> (r: Message)
    ensures
        r.deep_view() == refresh_event(source_id@, auth::tokens_view(result)),
        r.deep_view() == message::MessageView::OidcRefreshResult(
            match auth::tokens_view(result) {
                Ok(t) => Ok((source_id@, t.access_token, t.refresh_token)),
                Err(e) => Err(refresh_failure(source_id@, e)),
            },
        ),
{
    match result {
        Ok(t) => Message::OidcRefreshResult(Ok((source_id, t.access_token, t.refresh_token))),
        Err(e) => Message::OidcRefreshResult(Err(source_id.concat(": ").concat(e.as_str()))),
    }
}

} // verus!
