//! Events that the page reacts to.

use vstd::prelude::*;

use crate::auth;
use crate::config;
use crate::config::CalDavCalendar;

verus! {

/// An event that the page reacts to.
#[derive(Debug, PartialEq, Eq)]
pub enum Message {
    // Source management
    AddSource,
    EditSource(String),
    RemoveSource(String),
    ToggleSource(String),
    SaveSource,
    SaveEditSource,
    CancelForm,
    // Form fields
    FormName(String),
    FormUrl(String),
    FormSourceType(usize),
    FormAuth(usize),
    FormUsername(String),
    FormPassword(String),
    FormToken(String),
    FormColor(String),
    FormOidcIssuer(String),
    FormOidcClientId(String),
    FormOidcClientSecret(String),
    FormOidcScopes(String),
    FormCaCertPath(String),
    BrowseCaCert,
    /// The address of the file that was chosen, or why none was.
    CaCertBrowsed(Result<String, String>),
    // Discovery while a source is being added
    FormDiscover,
    FormDiscovered(Vec<CalDavCalendar>),
    FormDiscoverError(String),
    FormToggleCalendar(usize),
    FormCalendarColor(usize),
    FormCalColorInput(String),
    FormCalColorPreset(String),
    FormCalColorSave,
    FormCalColorCancel,
    FormOidcLogin,
    /// Access token and refresh token, or why there are none.
    FormOidcLoginResult(Result<(String, Option<String>), String>),
    /// After a sign-in saved the source: open the form on it and discover its calendars. Carries
    /// the source id and the access token, so that discovery uses inline credentials.
    OidcSavedAndDiscover(String, String),
    // Discovery for saved sources
    Discover(String),
    Discovered(String, Vec<CalDavCalendar>),
    DiscoverError(String, String),
    ToggleCalendar(String, String),
    // Colors of calendars
    EditCalendarColor(String, String),
    CalendarColorInput(String),
    CalendarColorPreset(String),
    SaveCalendarColor,
    CancelCalendarColor,
    // Sign-in of saved sources
    OidcLogin(String),
    /// Source id, access token and refresh token, or why there are none.
    OidcResult(Result<(String, String, Option<String>), String>),
    OidcRefresh(String),
    /// Source id, access token and refresh token, or why there are none.
    OidcRefreshResult(Result<(String, String, Option<String>), String>),
    // Sync settings
    SyncInterval(u64),
    UpcomingCount(usize),
    EncryptionModeChanged(usize),
    // Configuration
    ConfigReload,
}

/// The model of a [`Message`].
pub enum MessageView {
    AddSource,
    EditSource(Seq<char>),
    RemoveSource(Seq<char>),
    ToggleSource(Seq<char>),
    SaveSource,
    SaveEditSource,
    CancelForm,
    FormName(Seq<char>),
    FormUrl(Seq<char>),
    FormSourceType(usize),
    FormAuth(usize),
    FormUsername(Seq<char>),
    FormPassword(Seq<char>),
    FormToken(Seq<char>),
    FormColor(Seq<char>),
    FormOidcIssuer(Seq<char>),
    FormOidcClientId(Seq<char>),
    FormOidcClientSecret(Seq<char>),
    FormOidcScopes(Seq<char>),
    FormCaCertPath(Seq<char>),
    BrowseCaCert,
    CaCertBrowsed(Result<Seq<char>, Seq<char>>),
    FormDiscover,
    FormDiscovered(Seq<config::CalDavCalendarView>),
    FormDiscoverError(Seq<char>),
    FormToggleCalendar(usize),
    FormCalendarColor(usize),
    FormCalColorInput(Seq<char>),
    FormCalColorPreset(Seq<char>),
    FormCalColorSave,
    FormCalColorCancel,
    FormOidcLogin,
    FormOidcLoginResult(Result<(Seq<char>, Option<Seq<char>>), Seq<char>>),
    OidcSavedAndDiscover(Seq<char>, Seq<char>),
    Discover(Seq<char>),
    Discovered(Seq<char>, Seq<config::CalDavCalendarView>),
    DiscoverError(Seq<char>, Seq<char>),
    ToggleCalendar(Seq<char>, Seq<char>),
    EditCalendarColor(Seq<char>, Seq<char>),
    CalendarColorInput(Seq<char>),
    CalendarColorPreset(Seq<char>),
    SaveCalendarColor,
    CancelCalendarColor,
    OidcLogin(Seq<char>),
    OidcResult(Result<(Seq<char>, Seq<char>, Option<Seq<char>>), Seq<char>>),
    OidcRefresh(Seq<char>),
    OidcRefreshResult(Result<(Seq<char>, Seq<char>, Option<Seq<char>>), Seq<char>>),
    SyncInterval(u64),
    UpcomingCount(usize),
    EncryptionModeChanged(usize),
    ConfigReload,
}

/// The model of the tokens of a sign-in, or the reason why there are none.
pub open spec fn pair_view(r: Result<(String, Option<String>), String>) -> Result<
    (Seq<char>, Option<Seq<char>>),
    Seq<char>,
> {
    match r {
        Ok(t) => Ok((t.0@, t.1.deep_view())),
        Err(e) => Err(e@),
    }
}

/// The model of a source id with its tokens, or the reason why there are none.
pub open spec fn triple_view(r: Result<(String, String, Option<String>), String>) -> Result<
    (Seq<char>, Seq<char>, Option<Seq<char>>),
    Seq<char>,
> {
    match r {
        Ok(t) => Ok((t.0@, t.1@, t.2.deep_view())),
        Err(e) => Err(e@),
    }
}

impl DeepView for Message {
    type V = MessageView;

    open spec fn deep_view(&self) -> MessageView {
        match self {
            Message::AddSource => MessageView::AddSource,
            Message::EditSource(a) => MessageView::EditSource(a@),
            Message::RemoveSource(a) => MessageView::RemoveSource(a@),
            Message::ToggleSource(a) => MessageView::ToggleSource(a@),
            Message::SaveSource => MessageView::SaveSource,
            Message::SaveEditSource => MessageView::SaveEditSource,
            Message::CancelForm => MessageView::CancelForm,
            Message::FormName(a) => MessageView::FormName(a@),
            Message::FormUrl(a) => MessageView::FormUrl(a@),
            Message::FormSourceType(a) => MessageView::FormSourceType(*a),
            Message::FormAuth(a) => MessageView::FormAuth(*a),
            Message::FormUsername(a) => MessageView::FormUsername(a@),
            Message::FormPassword(a) => MessageView::FormPassword(a@),
            Message::FormToken(a) => MessageView::FormToken(a@),
            Message::FormColor(a) => MessageView::FormColor(a@),
            Message::FormOidcIssuer(a) => MessageView::FormOidcIssuer(a@),
            Message::FormOidcClientId(a) => MessageView::FormOidcClientId(a@),
            Message::FormOidcClientSecret(a) => MessageView::FormOidcClientSecret(a@),
            Message::FormOidcScopes(a) => MessageView::FormOidcScopes(a@),
            Message::FormCaCertPath(a) => MessageView::FormCaCertPath(a@),
            Message::BrowseCaCert => MessageView::BrowseCaCert,
            Message::CaCertBrowsed(a) => MessageView::CaCertBrowsed(auth::code_view(*a)),
            Message::FormDiscover => MessageView::FormDiscover,
            Message::FormDiscovered(a) => MessageView::FormDiscovered(a.deep_view()),
            Message::FormDiscoverError(a) => MessageView::FormDiscoverError(a@),
            Message::FormToggleCalendar(a) => MessageView::FormToggleCalendar(*a),
            Message::FormCalendarColor(a) => MessageView::FormCalendarColor(*a),
            Message::FormCalColorInput(a) => MessageView::FormCalColorInput(a@),
            Message::FormCalColorPreset(a) => MessageView::FormCalColorPreset(a@),
            Message::FormCalColorSave => MessageView::FormCalColorSave,
            Message::FormCalColorCancel => MessageView::FormCalColorCancel,
            Message::FormOidcLogin => MessageView::FormOidcLogin,
            Message::FormOidcLoginResult(a) => MessageView::FormOidcLoginResult(pair_view(*a)),
            Message::OidcSavedAndDiscover(a, b) => MessageView::OidcSavedAndDiscover(a@, b@),
            Message::Discover(a) => MessageView::Discover(a@),
            Message::Discovered(a, b) => MessageView::Discovered(a@, b.deep_view()),
            Message::DiscoverError(a, b) => MessageView::DiscoverError(a@, b@),
            Message::ToggleCalendar(a, b) => MessageView::ToggleCalendar(a@, b@),
            Message::EditCalendarColor(a, b) => MessageView::EditCalendarColor(a@, b@),
            Message::CalendarColorInput(a) => MessageView::CalendarColorInput(a@),
            Message::CalendarColorPreset(a) => MessageView::CalendarColorPreset(a@),
            Message::SaveCalendarColor => MessageView::SaveCalendarColor,
            Message::CancelCalendarColor => MessageView::CancelCalendarColor,
            Message::OidcLogin(a) => MessageView::OidcLogin(a@),
            Message::OidcResult(a) => MessageView::OidcResult(triple_view(*a)),
            Message::OidcRefresh(a) => MessageView::OidcRefresh(a@),
            Message::OidcRefreshResult(a) => MessageView::OidcRefreshResult(triple_view(*a)),
            Message::SyncInterval(a) => MessageView::SyncInterval(*a),
            Message::UpcomingCount(a) => MessageView::UpcomingCount(*a),
            Message::EncryptionModeChanged(a) => MessageView::EncryptionModeChanged(*a),
            Message::ConfigReload => MessageView::ConfigReload,
        }
    }
}

/// A copy of a choice or of the reason why there is none.
fn clone_choice(r: &Result<String, String>) -> (c: Result<String, String>)
    ensures
        auth::code_view(c) == auth::code_view(*r),
{
    match r {
        Ok(a) => Ok(a.clone()),
        Err(e) => Err(e.clone()),
    }
}

/// A copy of the tokens of a sign-in, or of the reason why there are none.
fn clone_pair(r: &Result<(String, Option<String>), String>) -> (c: Result<
    (String, Option<String>),
    String,
>)
    ensures
        pair_view(c) == pair_view(*r),
{
    match r {
        Ok(t) => Ok((t.0.clone(), config::clone_text(&t.1))),
        Err(e) => Err(e.clone()),
    }
}

/// A copy of a source id with its tokens, or of the reason why there are none.
fn clone_triple(r: &Result<(String, String, Option<String>), String>) -> (c: Result<
    (String, String, Option<String>),
    String,
>)
    ensures
        triple_view(c) == triple_view(*r),
{
    match r {
        Ok(t) => Ok((t.0.clone(), t.1.clone(), config::clone_text(&t.2))),
        Err(e) => Err(e.clone()),
    }
}

impl Clone for Message {
    fn clone(&self) -> (r: Self)
        ensures
            r.deep_view() == self.deep_view(),
    {
        match self {
            Message::AddSource => Message::AddSource,
            Message::EditSource(a) => Message::EditSource(a.clone()),
            Message::RemoveSource(a) => Message::RemoveSource(a.clone()),
            Message::ToggleSource(a) => Message::ToggleSource(a.clone()),
            Message::SaveSource => Message::SaveSource,
            Message::SaveEditSource => Message::SaveEditSource,
            Message::CancelForm => Message::CancelForm,
            Message::FormName(a) => Message::FormName(a.clone()),
            Message::FormUrl(a) => Message::FormUrl(a.clone()),
            Message::FormSourceType(a) => Message::FormSourceType(*a),
            Message::FormAuth(a) => Message::FormAuth(*a),
            Message::FormUsername(a) => Message::FormUsername(a.clone()),
            Message::FormPassword(a) => Message::FormPassword(a.clone()),
            Message::FormToken(a) => Message::FormToken(a.clone()),
            Message::FormColor(a) => Message::FormColor(a.clone()),
            Message::FormOidcIssuer(a) => Message::FormOidcIssuer(a.clone()),
            Message::FormOidcClientId(a) => Message::FormOidcClientId(a.clone()),
            Message::FormOidcClientSecret(a) => Message::FormOidcClientSecret(a.clone()),
            Message::FormOidcScopes(a) => Message::FormOidcScopes(a.clone()),
            Message::FormCaCertPath(a) => Message::FormCaCertPath(a.clone()),
            Message::BrowseCaCert => Message::BrowseCaCert,
            Message::CaCertBrowsed(a) => Message::CaCertBrowsed(clone_choice(a)),
            Message::FormDiscover => Message::FormDiscover,
            Message::FormDiscovered(a) => Message::FormDiscovered(config::clone_calendars(a)),
            Message::FormDiscoverError(a) => Message::FormDiscoverError(a.clone()),
            Message::FormToggleCalendar(a) => Message::FormToggleCalendar(*a),
            Message::FormCalendarColor(a) => Message::FormCalendarColor(*a),
            Message::FormCalColorInput(a) => Message::FormCalColorInput(a.clone()),
            Message::FormCalColorPreset(a) => Message::FormCalColorPreset(a.clone()),
            Message::FormCalColorSave => Message::FormCalColorSave,
            Message::FormCalColorCancel => Message::FormCalColorCancel,
            Message::FormOidcLogin => Message::FormOidcLogin,
            Message::FormOidcLoginResult(a) => Message::FormOidcLoginResult(clone_pair(a)),
            Message::OidcSavedAndDiscover(a, b) => Message::OidcSavedAndDiscover(
                a.clone(),
                b.clone(),
            ),
            Message::Discover(a) => Message::Discover(a.clone()),
            Message::Discovered(a, b) => Message::Discovered(a.clone(), config::clone_calendars(b)),
            Message::DiscoverError(a, b) => Message::DiscoverError(a.clone(), b.clone()),
            Message::ToggleCalendar(a, b) => Message::ToggleCalendar(a.clone(), b.clone()),
            Message::EditCalendarColor(a, b) => Message::EditCalendarColor(a.clone(), b.clone()),
            Message::CalendarColorInput(a) => Message::CalendarColorInput(a.clone()),
            Message::CalendarColorPreset(a) => Message::CalendarColorPreset(a.clone()),
            Message::SaveCalendarColor => Message::SaveCalendarColor,
            Message::CancelCalendarColor => Message::CancelCalendarColor,
            Message::OidcLogin(a) => Message::OidcLogin(a.clone()),
            Message::OidcResult(a) => Message::OidcResult(clone_triple(a)),
            Message::OidcRefresh(a) => Message::OidcRefresh(a.clone()),
            Message::OidcRefreshResult(a) => Message::OidcRefreshResult(clone_triple(a)),
            Message::SyncInterval(a) => Message::SyncInterval(*a),
            Message::UpcomingCount(a) => Message::UpcomingCount(*a),
            Message::EncryptionModeChanged(a) => Message::EncryptionModeChanged(*a),
            Message::ConfigReload => Message::ConfigReload,
        }
    }
}

} // verus!
