//! CalDAV calendar discovery via PROPFIND.
//!
//! The caller talks to the server and the keyring. Each operation here is a machine: it is told
//! what just happened and says what to do next.

use vstd::prelude::*;

use crate::config;
use crate::config::{AuthMethod, CalDavCalendar};
use crate::secrets;
use crate::secrets::SecretKind;
use crate::text;

verus! {

/// The request method of a discovery.
pub const METHOD: &'static str = "PROPFIND";

/// The content type of a request body.
pub const CONTENT_TYPE: &'static str = "application/xml; charset=utf-8";

/// Why a discovery came to nothing.
#[derive(Debug, PartialEq, Eq)]
pub enum DiscoveryError {
    /// The source with this id has to sign in again.
    AuthExpired(String),
    Other(String),
}

/// The model of a [`DiscoveryError`].
pub enum DiscoveryErrorView {
    AuthExpired(Seq<char>),
    Other(Seq<char>),
}

impl DeepView for DiscoveryError {
    type V = DiscoveryErrorView;

    open spec fn deep_view(&self) -> DiscoveryErrorView {
        match self {
            DiscoveryError::AuthExpired(id) => DiscoveryErrorView::AuthExpired(id@),
            DiscoveryError::Other(e) => DiscoveryErrorView::Other(e@),
        }
    }
}

/// What a request proves its sender with.
#[derive(Debug, PartialEq, Eq)]
pub enum InlineCredentials {
    Anonymous,
    Basic { username: String, password: String },
    Bearer { token: String },
}

/// The model of [`InlineCredentials`].
pub enum InlineCredentialsView {
    Anonymous,
    Basic { username: Seq<char>, password: Seq<char> },
    Bearer { token: Seq<char> },
}

impl DeepView for InlineCredentials {
    type V = InlineCredentialsView;

    open spec fn deep_view(&self) -> InlineCredentialsView {
        match self {
            InlineCredentials::Anonymous => InlineCredentialsView::Anonymous,
            InlineCredentials::Basic { username, password } => InlineCredentialsView::Basic {
                username: username@,
                password: password@,
            },
            InlineCredentials::Bearer { token } => InlineCredentialsView::Bearer { token: token@ },
        }
    }
}

/// `Other`, with a message and the reason after it.
fn other(message: &str, reason: &String) -> (r: DiscoveryError)
    ensures
        r.deep_view() == DiscoveryErrorView::Other(message@ + reason@),
{
    DiscoveryError::Other(message.to_owned().concat(reason.as_str()))
}

// ── Authentication of a request ──────────────────────────────────────────

/// What the authentication of a request comes to.
#[derive(Debug, PartialEq, Eq)]
pub enum AuthStep {
    /// Load this secret of the source first.
    Load(SecretKind),
    /// Send the request with these credentials.
    Ready(InlineCredentials),
    Fail(DiscoveryError),
}

/// The model of an [`AuthStep`].
pub enum AuthStepView {
    Load(SecretKind),
    Ready(InlineCredentialsView),
    Fail(DiscoveryErrorView),
}

impl DeepView for AuthStep {
    type V = AuthStepView;

    open spec fn deep_view(&self) -> AuthStepView {
        match self {
            AuthStep::Load(kind) => AuthStepView::Load(*kind),
            AuthStep::Ready(c) => AuthStepView::Ready(c.deep_view()),
            AuthStep::Fail(e) => AuthStepView::Fail(e.deep_view()),
        }
    }
}

/// The model of what loading a secret gave, if it was loaded at all.
pub open spec fn loading_view(r: Option<Result<Option<String>, String>>) -> Option<
    Result<Option<Seq<char>>, Seq<char>>,
> {
    match r {
        Some(l) => Some(secrets::loaded_view(l)),
        None => None,
    }
}

/// How a request of a source proves its sender, given what loading the secret gave, or `None`
/// where nothing was loaded yet.
///
/// Without a password an empty one is sent. A missing bearer token is an error; a missing OIDC
/// token means that the source has to sign in again.
pub open spec fn auth_step(
    auth: config::AuthMethodView,
    source_id: Seq<char>,
    loaded: Option<Result<Option<Seq<char>>, Seq<char>>>,
) -> AuthStepView {
    match auth {
        config::AuthMethodView::Anonymous => AuthStepView::Ready(InlineCredentialsView::Anonymous),
        config::AuthMethodView::Basic { username } => match loaded {
            None => AuthStepView::Load(SecretKind::Password),
            Some(Err(e)) => AuthStepView::Fail(
                DiscoveryErrorView::Other("Failed to load password from keyring: "@ + e),
            ),
            Some(Ok(password)) => AuthStepView::Ready(
                InlineCredentialsView::Basic {
                    username,
                    password: match password {
                        Some(p) => p,
                        None => Seq::empty(),
                    },
                },
            ),
        },
        config::AuthMethodView::Bearer => match loaded {
            None => AuthStepView::Load(SecretKind::BearerToken),
            Some(Err(e)) => AuthStepView::Fail(
                DiscoveryErrorView::Other("Failed to load bearer token from keyring: "@ + e),
            ),
            Some(Ok(None)) => AuthStepView::Fail(
                DiscoveryErrorView::Other("Bearer token not found in keyring"@),
            ),
            Some(Ok(Some(token))) => AuthStepView::Ready(InlineCredentialsView::Bearer { token }),
        },
        config::AuthMethodView::Oidc { has_token, .. } => if !has_token {
            AuthStepView::Fail(DiscoveryErrorView::AuthExpired(source_id))
        } else {
            match loaded {
                None => AuthStepView::Load(SecretKind::OidcAccessToken),
                Some(Err(e)) => AuthStepView::Fail(
                    DiscoveryErrorView::Other("Failed to load OIDC token from keyring: "@ + e),
                ),
                Some(Ok(None)) => AuthStepView::Fail(DiscoveryErrorView::AuthExpired(source_id)),
                Some(Ok(Some(token))) => AuthStepView::Ready(
                    InlineCredentialsView::Bearer { token },
                ),
            }
        },
    }
}

/// Says how a request of a source proves its sender, given what loading the secret gave, or
/// `None` where nothing was loaded yet.
pub fn apply_auth(
    auth: &AuthMethod,
    source_id: &str,
    loaded: Option<Result<Option<String>, String>>,
) -> (r: AuthStep)
    ensures
        r.deep_view() == auth_step(auth.deep_view(), source_id@, loading_view(loaded)),
{
    match auth {
        AuthMethod::Anonymous => AuthStep::Ready(InlineCredentials::Anonymous),
        AuthMethod::Basic { username } => match loaded {
            None => AuthStep::Load(SecretKind::Password),
            Some(Err(e)) => AuthStep::Fail(other("Failed to load password from keyring: ", &e)),
            Some(Ok(password)) => AuthStep::Ready(
                InlineCredentials::Basic {
                    username: username.clone(),
                    password: match password {
                        Some(p) => p,
                        None => String::new(),
                    },
                },
            ),
        },
        AuthMethod::Bearer => match loaded {
            None => AuthStep::Load(SecretKind::BearerToken),
            Some(Err(e)) => AuthStep::Fail(
                other("Failed to load bearer token from keyring: ", &e),
            ),
            Some(Ok(None)) => AuthStep::Fail(
                DiscoveryError::Other("Bearer token not found in keyring".to_owned()),
            ),
            Some(Ok(Some(token))) => AuthStep::Ready(InlineCredentials::Bearer { token }),
        },
        AuthMethod::Oidc { has_token, .. } => {
            if !*has_token {
                return AuthStep::Fail(DiscoveryError::AuthExpired(source_id.to_owned()));
            }
            match loaded {
                None => AuthStep::Load(SecretKind::OidcAccessToken),
                Some(Err(e)) => AuthStep::Fail(
                    other("Failed to load OIDC token from keyring: ", &e),
                ),
                Some(Ok(None)) => AuthStep::Fail(
                    DiscoveryError::AuthExpired(source_id.to_owned()),
                ),
                Some(Ok(Some(token))) => AuthStep::Ready(InlineCredentials::Bearer { token }),
            }
        },
    }
}

// ── One request ──────────────────────────────────────────────────────────

/// The body of a request, by what it asks for.
#[derive(Debug, Clone, Copy, PartialEq, Eq, Structural)]
pub enum PropfindBody {
    Principal,
    HomeSet,
    Calendars,
}

/// A request, ready to be sent.
#[derive(Debug, PartialEq, Eq)]
pub struct PropfindRequest {
    pub method: &'static str,
    pub url: String,
    pub depth: String,
    pub content_type: &'static str,
    pub body: PropfindBody,
    pub credentials: InlineCredentials,
}

/// The model of a [`PropfindRequest`].
pub struct PropfindRequestView {
    pub method: Seq<char>,
    pub url: Seq<char>,
    pub depth: Seq<char>,
    pub content_type: Seq<char>,
    pub body: PropfindBody,
    pub credentials: InlineCredentialsView,
}

/// What just happened to a request.
pub enum PropfindEvent {
    Started,
    SecretLoaded(Result<Option<String>, String>),
    /// The status code of the response, or why there is none.
    Sent(Result<u16, String>),
    BodyRead(Result<String, String>),
}

/// What to do next with a request.
#[derive(Debug, PartialEq, Eq)]
pub enum PropfindAction {
    LoadSecret(SecretKind),
    Send(PropfindRequest),
    ReadBody,
    Done(Result<String, DiscoveryError>),
}

/// The model of a [`PropfindEvent`].
pub enum PropfindEventView {
    Started,
    SecretLoaded(Result<Option<Seq<char>>, Seq<char>>),
    Sent(Result<u16, Seq<char>>),
    BodyRead(Result<Seq<char>, Seq<char>>),
}

/// The model of a [`PropfindAction`].
pub enum PropfindActionView {
    LoadSecret(SecretKind),
    Send(PropfindRequestView),
    ReadBody,
    Done(Result<Seq<char>, DiscoveryErrorView>),
}

impl DeepView for PropfindRequest {
    type V = PropfindRequestView;

    open spec fn deep_view(&self) -> PropfindRequestView {
        PropfindRequestView {
            method: self.method@,
            url: self.url@,
            depth: self.depth@,
            content_type: self.content_type@,
            body: self.body,
            credentials: self.credentials.deep_view(),
        }
    }
}

impl DeepView for PropfindEvent {
    type V = PropfindEventView;

    open spec fn deep_view(&self) -> PropfindEventView {
        match self {
            PropfindEvent::Started => PropfindEventView::Started,
            PropfindEvent::SecretLoaded(r) => PropfindEventView::SecretLoaded(
                secrets::loaded_view(*r),
            ),
            PropfindEvent::Sent(r) => PropfindEventView::Sent(secrets::text_result(*r)),
            PropfindEvent::BodyRead(Ok(body)) => PropfindEventView::BodyRead(Ok(body@)),
            PropfindEvent::BodyRead(Err(e)) => PropfindEventView::BodyRead(Err(e@)),
        }
    }
}

/// The model of the text that a request gave.
pub open spec fn body_view(r: Result<String, DiscoveryError>) -> Result<
    Seq<char>,
    DiscoveryErrorView,
> {
    match r {
        Ok(body) => Ok(body@),
        Err(e) => Err(e.deep_view()),
    }
}

impl DeepView for PropfindAction {
    type V = PropfindActionView;

    open spec fn deep_view(&self) -> PropfindActionView {
        match self {
            PropfindAction::LoadSecret(kind) => PropfindActionView::LoadSecret(*kind),
            PropfindAction::Send(request) => PropfindActionView::Send(request.deep_view()),
            PropfindAction::ReadBody => PropfindActionView::ReadBody,
            PropfindAction::Done(r) => PropfindActionView::Done(body_view(*r)),
        }
    }
}

/// A status code in words, as `reqwest` displays it.
pub uninterp spec fn status_line(code: u16) -> Seq<char>;

/// Calls `StatusCode::from_u16` of `reqwest` and displays what it gives: the code in words. The
/// code must be one that an HTTP response can have, since the outside function accepts no
/// other. The phrases are the outside crate's own and have only a name here.
#[verifier::external_body]
fn status_text(code: u16) -> (r: String)
    requires
        100 <= code <= 999,
    ensures
        r@ == status_line(code),
{
    reqwest::StatusCode::from_u16(code).unwrap().to_string()
}

/// The step that an authentication comes to.
pub open spec fn auth_action(
    url: Seq<char>,
    depth: Seq<char>,
    body: PropfindBody,
    step: AuthStepView,
) -> PropfindActionView {
    match step {
        AuthStepView::Load(kind) => PropfindActionView::LoadSecret(kind),
        AuthStepView::Ready(credentials) => PropfindActionView::Send(
            PropfindRequestView {
                method: METHOD@,
                url,
                depth,
                content_type: CONTENT_TYPE@,
                body,
                credentials,
            },
        ),
        AuthStepView::Fail(e) => PropfindActionView::Done(Err(e)),
    }
}

/// The step that follows a response with this status code, whose display is `in_words`.
pub open spec fn status_action(
    url: Seq<char>,
    source_id: Seq<char>,
    code: u16,
    in_words: Seq<char>,
) -> PropfindActionView {
    if code == 401 {
        PropfindActionView::Done(Err(DiscoveryErrorView::AuthExpired(source_id)))
    } else if 200 <= code < 300 {
        PropfindActionView::ReadBody
    } else {
        PropfindActionView::Done(
            Err(
                DiscoveryErrorView::Other(
                    "PROPFIND to "@ + url + " returned status "@ + in_words,
                ),
            ),
        )
    }
}

/// The step that follows an event of a request.
pub open spec fn propfind_step(
    url: Seq<char>,
    depth: Seq<char>,
    body: PropfindBody,
    auth: config::AuthMethodView,
    source_id: Seq<char>,
    event: PropfindEventView,
) -> PropfindActionView {
    match event {
        PropfindEventView::Started => auth_action(
            url,
            depth,
            body,
            auth_step(auth, source_id, None),
        ),
        PropfindEventView::SecretLoaded(loaded) => auth_action(
            url,
            depth,
            body,
            auth_step(auth, source_id, Some(loaded)),
        ),
        PropfindEventView::Sent(Err(e)) => PropfindActionView::Done(
            Err(DiscoveryErrorView::Other("PROPFIND request to "@ + url + " failed: "@ + e)),
        ),
        PropfindEventView::Sent(Ok(code)) => status_action(
            url,
            source_id,
            code,
            status_line(code),
        ),
        PropfindEventView::BodyRead(Ok(text)) => PropfindActionView::Done(Ok(text)),
        PropfindEventView::BodyRead(Err(e)) => PropfindActionView::Done(
            Err(DiscoveryErrorView::Other("Failed to read PROPFIND response: "@ + e)),
        ),
    }
}

/// The step that an authentication comes to.
fn authenticate(url: &str, depth: &str, body: PropfindBody, step: AuthStep) -> (r: PropfindAction)
    ensures
        r.deep_view() == auth_action(url@, depth@, body, step.deep_view()),
{
    match step {
        AuthStep::Load(kind) => PropfindAction::LoadSecret(kind),
        AuthStep::Ready(credentials) => PropfindAction::Send(
            PropfindRequest {
                method: METHOD,
                url: url.to_owned(),
                depth: depth.to_owned(),
                content_type: CONTENT_TYPE,
                body,
                credentials,
            },
        ),
        AuthStep::Fail(e) => PropfindAction::Done(Err(e)),
    }
}

/// Says what to do about a response with this status code, whose display is `in_words`.
pub fn judge_status(url: &str, source_id: &str, code: u16, in_words: &str) -> (r: PropfindAction)
    ensures
        r.deep_view() == status_action(url@, source_id@, code, in_words@),
{
    if code == 401 {
        PropfindAction::Done(Err(DiscoveryError::AuthExpired(source_id.to_owned())))
    } else if 200 <= code && code < 300 {
        PropfindAction::ReadBody
    } else {
        PropfindAction::Done(
            Err(
                DiscoveryError::Other(
                    "PROPFIND to ".to_owned().concat(url).concat(" returned status ").concat(
                        in_words,
                    ),
                ),
            ),
        )
    }
}

/// Says what to do next with a request, after `event`.
pub fn propfind(
    url: &str,
    depth: &str,
    body: PropfindBody,
    auth: &AuthMethod,
    source_id: &str,
    event: PropfindEvent,
) -> (r: PropfindAction)
    requires
        event matches PropfindEvent::Sent(Ok(code)) ==> 100 <= code <= 999,
    ensures
        r.deep_view() == propfind_step(
            url@,
            depth@,
            body,
            auth.deep_view(),
            source_id@,
            event.deep_view(),
        ),
{
    match event {
        PropfindEvent::Started => authenticate(
            url,
            depth,
            body,
            apply_auth(auth, source_id, None),
        ),
        PropfindEvent::SecretLoaded(loaded) => authenticate(
            url,
            depth,
            body,
            apply_auth(auth, source_id, Some(loaded)),
        ),
        PropfindEvent::Sent(Err(e)) => PropfindAction::Done(
            Err(
                DiscoveryError::Other(
                    "PROPFIND request to ".to_owned().concat(url).concat(" failed: ").concat(
                        e.as_str(),
                    ),
                ),
            ),
        ),
        PropfindEvent::Sent(Ok(code)) => {
            let in_words = status_text(code);
            judge_status(url, source_id, code, in_words.as_str())
        },
        PropfindEvent::BodyRead(Ok(text)) => PropfindAction::Done(Ok(text)),
        PropfindEvent::BodyRead(Err(e)) => PropfindAction::Done(
            Err(other("Failed to read PROPFIND response: ", &e)),
        ),
    }
}

// ── The discovery of a source's calendars ────────────────────────────────

/// Which address of the server is being looked up.
#[derive(Debug, Clone, Copy, PartialEq, Eq, Structural)]
pub enum Lookup {
    /// The principal of the user who signed in.
    Principal,
    /// The collection that holds the user's calendars.
    HomeSet,
}

/// What just happened in a discovery.
pub enum DiscoverEvent {
    Started,
    ClientReady(Result<(), DiscoveryError>),
    /// The response to the request of a lookup.
    Answered(Lookup, Result<String, DiscoveryError>),
    /// The block that was asked for, if the response has it.
    BlockExtracted(Lookup, Option<String>),
    /// The address in that block, if it has one.
    HrefExtracted(Lookup, Option<String>),
    /// That address, made absolute.
    Resolved(Lookup, String),
    /// The response to the request for the calendars.
    Listed(Result<String, DiscoveryError>),
    Parsed(Vec<CalDavCalendar>),
}

/// What to do next in a discovery.
#[derive(Debug, PartialEq, Eq)]
pub enum DiscoverAction {
    GetClient { ca_cert_path: Option<String> },
    Propfind { url: String, depth: &'static str, body: PropfindBody },
    ExtractInner { lookup: Lookup, xml: String, tag: &'static str },
    ExtractText { lookup: Lookup, xml: String, tag: &'static str },
    Resolve { lookup: Lookup, base: String, href: String },
    ParseCalendars { xml: String, base: String },
    Done(Result<Vec<CalDavCalendar>, DiscoveryError>),
}

/// The model of a [`DiscoverEvent`].
pub enum DiscoverEventView {
    Started,
    ClientReady(Result<(), DiscoveryErrorView>),
    Answered(Lookup, Result<Seq<char>, DiscoveryErrorView>),
    BlockExtracted(Lookup, Option<Seq<char>>),
    HrefExtracted(Lookup, Option<Seq<char>>),
    Resolved(Lookup, Seq<char>),
    Listed(Result<Seq<char>, DiscoveryErrorView>),
    Parsed(Seq<config::CalDavCalendarView>),
}

/// The model of a [`DiscoverAction`].
pub enum DiscoverActionView {
    GetClient { ca_cert_path: Option<Seq<char>> },
    Propfind { url: Seq<char>, depth: Seq<char>, body: PropfindBody },
    ExtractInner { lookup: Lookup, xml: Seq<char>, tag: Seq<char> },
    ExtractText { lookup: Lookup, xml: Seq<char>, tag: Seq<char> },
    Resolve { lookup: Lookup, base: Seq<char>, href: Seq<char> },
    ParseCalendars { xml: Seq<char>, base: Seq<char> },
    Done(Result<Seq<config::CalDavCalendarView>, DiscoveryErrorView>),
}

impl DeepView for DiscoverEvent {
    type V = DiscoverEventView;

    open spec fn deep_view(&self) -> DiscoverEventView {
        match self {
            DiscoverEvent::Started => DiscoverEventView::Started,
            DiscoverEvent::ClientReady(Ok(_)) => DiscoverEventView::ClientReady(Ok(())),
            DiscoverEvent::ClientReady(Err(e)) => DiscoverEventView::ClientReady(
                Err(e.deep_view()),
            ),
            DiscoverEvent::Answered(lookup, r) => DiscoverEventView::Answered(
                *lookup,
                body_view(*r),
            ),
            DiscoverEvent::BlockExtracted(lookup, block) => DiscoverEventView::BlockExtracted(
                *lookup,
                block.deep_view(),
            ),
            DiscoverEvent::HrefExtracted(lookup, href) => DiscoverEventView::HrefExtracted(
                *lookup,
                href.deep_view(),
            ),
            DiscoverEvent::Resolved(lookup, url) => DiscoverEventView::Resolved(*lookup, url@),
            DiscoverEvent::Listed(r) => DiscoverEventView::Listed(body_view(*r)),
            DiscoverEvent::Parsed(calendars) => DiscoverEventView::Parsed(calendars.deep_view()),
        }
    }
}

impl DeepView for DiscoverAction {
    type V = DiscoverActionView;

    open spec fn deep_view(&self) -> DiscoverActionView {
        match self {
            DiscoverAction::GetClient { ca_cert_path } => DiscoverActionView::GetClient {
                ca_cert_path: ca_cert_path.deep_view(),
            },
            DiscoverAction::Propfind { url, depth, body } => DiscoverActionView::Propfind {
                url: url@,
                depth: depth@,
                body: *body,
            },
            DiscoverAction::ExtractInner { lookup, xml, tag } => DiscoverActionView::ExtractInner {
                lookup: *lookup,
                xml: xml@,
                tag: tag@,
            },
            DiscoverAction::ExtractText { lookup, xml, tag } => DiscoverActionView::ExtractText {
                lookup: *lookup,
                xml: xml@,
                tag: tag@,
            },
            DiscoverAction::Resolve { lookup, base, href } => DiscoverActionView::Resolve {
                lookup: *lookup,
                base: base@,
                href: href@,
            },
            DiscoverAction::ParseCalendars { xml, base } => DiscoverActionView::ParseCalendars {
                xml: xml@,
                base: base@,
            },
            DiscoverAction::Done(Ok(calendars)) => DiscoverActionView::Done(
                Ok(calendars.deep_view()),
            ),
            DiscoverAction::Done(Err(e)) => DiscoverActionView::Done(Err(e.deep_view())),
        }
    }
}

/// The server address that everything is resolved against: without slashes at its end.
pub open spec fn base_url(server_url: Seq<char>) -> Seq<char> {
    text::without_back(server_url, '/')
}

/// The tag of the block that answers a lookup.
pub open spec fn lookup_tag(lookup: Lookup) -> Seq<char> {
    match lookup {
        Lookup::Principal => "current-user-principal"@,
        Lookup::HomeSet => "calendar-home-set"@,
    }
}

/// The step that follows an event of a discovery.
///
/// The principal is asked for at the server address, the home set at the principal, and the
/// calendars at the home set. An address that a response does not give is taken as empty.
pub open spec fn discover_step(
    server_url: Seq<char>,
    ca_cert_path: Option<Seq<char>>,
    event: DiscoverEventView,
) -> DiscoverActionView {
    match event {
        DiscoverEventView::Started => DiscoverActionView::GetClient { ca_cert_path },
        DiscoverEventView::ClientReady(Err(e)) => DiscoverActionView::Done(Err(e)),
        DiscoverEventView::ClientReady(Ok(_)) => DiscoverActionView::Propfind {
            url: base_url(server_url),
            depth: "0"@,
            body: PropfindBody::Principal,
        },
        DiscoverEventView::Answered(_, Err(e)) => DiscoverActionView::Done(Err(e)),
        DiscoverEventView::Answered(lookup, Ok(xml)) => DiscoverActionView::ExtractInner {
            lookup,
            xml,
            tag: lookup_tag(lookup),
        },
        DiscoverEventView::BlockExtracted(lookup, Some(block)) => DiscoverActionView::ExtractText {
            lookup,
            xml: block,
            tag: "href"@,
        },
        DiscoverEventView::BlockExtracted(lookup, None) => DiscoverActionView::Resolve {
            lookup,
            base: base_url(server_url),
            href: Seq::empty(),
        },
        DiscoverEventView::HrefExtracted(lookup, href) => DiscoverActionView::Resolve {
            lookup,
            base: base_url(server_url),
            href: match href {
                Some(h) => h,
                None => Seq::empty(),
            },
        },
        DiscoverEventView::Resolved(Lookup::Principal, url) => DiscoverActionView::Propfind {
            url,
            depth: "0"@,
            body: PropfindBody::HomeSet,
        },
        DiscoverEventView::Resolved(Lookup::HomeSet, url) => DiscoverActionView::Propfind {
            url,
            depth: "1"@,
            body: PropfindBody::Calendars,
        },
        DiscoverEventView::Listed(Err(e)) => DiscoverActionView::Done(Err(e)),
        DiscoverEventView::Listed(Ok(xml)) => DiscoverActionView::ParseCalendars {
            xml,
            base: base_url(server_url),
        },
        DiscoverEventView::Parsed(calendars) => DiscoverActionView::Done(Ok(calendars)),
    }
}

/// Says what to do next to discover the calendars on a server, after `event`.
pub fn discover_calendars(
    server_url: &str,
    ca_cert_path: &Option<String>,
    event: DiscoverEvent,
) -> (r: DiscoverAction)
    ensures
        r.deep_view() == discover_step(
            server_url@,
            ca_cert_path.deep_view(),
            event.deep_view(),
        ),
{
    match event {
        DiscoverEvent::Started => DiscoverAction::GetClient {
            ca_cert_path: config::clone_text(ca_cert_path),
        },
        DiscoverEvent::ClientReady(Err(e)) => DiscoverAction::Done(Err(e)),
        DiscoverEvent::ClientReady(Ok(_)) => DiscoverAction::Propfind {
            url: text::trim_end_matches(server_url, '/').to_owned(),
            depth: "0",
            body: PropfindBody::Principal,
        },
        DiscoverEvent::Answered(_, Err(e)) => DiscoverAction::Done(Err(e)),
        DiscoverEvent::Answered(lookup, Ok(xml)) => DiscoverAction::ExtractInner {
            lookup,
            xml,
            tag: match lookup {
                Lookup::Principal => "current-user-principal",
                Lookup::HomeSet => "calendar-home-set",
            },
        },
        DiscoverEvent::BlockExtracted(lookup, Some(block)) => DiscoverAction::ExtractText {
            lookup,
            xml: block,
            tag: "href",
        },
        DiscoverEvent::BlockExtracted(lookup, None) => DiscoverAction::Resolve {
            lookup,
            base: text::trim_end_matches(server_url, '/').to_owned(),
            href: String::new(),
        },
        DiscoverEvent::HrefExtracted(lookup, href) => DiscoverAction::Resolve {
            lookup,
            base: text::trim_end_matches(server_url, '/').to_owned(),
            href: match href {
                Some(h) => h,
                None => String::new(),
            },
        },
        DiscoverEvent::Resolved(Lookup::Principal, url) => DiscoverAction::Propfind {
            url,
            depth: "0",
            body: PropfindBody::HomeSet,
        },
        DiscoverEvent::Resolved(Lookup::HomeSet, url) => DiscoverAction::Propfind {
            url,
            depth: "1",
            body: PropfindBody::Calendars,
        },
        DiscoverEvent::Listed(Err(e)) => DiscoverAction::Done(Err(e)),
        DiscoverEvent::Listed(Ok(xml)) => DiscoverAction::ParseCalendars {
            xml,
            base: text::trim_end_matches(server_url, '/').to_owned(),
        },
        DiscoverEvent::Parsed(calendars) => DiscoverAction::Done(Ok(calendars)),
    }
}

// ── Laws ─────────────────────────────────────────────────────────────────

/// A request that the server refuses for want of a valid sign-in ends the whole discovery with the
/// error that makes the source sign in again, whichever request it was.
pub proof fn refused_request_means_signing_in_again(
    server_url: Seq<char>,
    ca_cert_path: Option<Seq<char>>,
    auth: config::AuthMethodView,
    source_id: Seq<char>,
    url: Seq<char>,
    depth: Seq<char>,
    body: PropfindBody,
    lookup: Lookup,
)
    ensures
        ({
            let expired = DiscoveryErrorView::AuthExpired(source_id);
            let refused = PropfindEventView::Sent(Ok(401));
            &&& propfind_step(url, depth, body, auth, source_id, refused)
                == PropfindActionView::Done(Err(expired))
            &&& discover_step(
                server_url,
                ca_cert_path,
                DiscoverEventView::Answered(lookup, Err(expired)),
            ) == DiscoverActionView::Done(Err(expired))
            &&& discover_step(server_url, ca_cert_path, DiscoverEventView::Listed(Err(expired)))
                == DiscoverActionView::Done(Err(expired))
        }),
{
}

/// A source that has to sign in and has not sends no request and loads no secret.
pub proof fn source_without_token_sends_nothing(
    auth: config::AuthMethodView,
    source_id: Seq<char>,
    url: Seq<char>,
    depth: Seq<char>,
    body: PropfindBody,
)
    requires
        auth matches config::AuthMethodView::Oidc { has_token, .. } && !has_token,
    ensures
        propfind_step(url, depth, body, auth, source_id, PropfindEventView::Started)
            == PropfindActionView::Done(Err(DiscoveryErrorView::AuthExpired(source_id))),
{
}

/// What the keyring and the server answer while a request is made.
pub struct RequestWorldView {
    pub loaded: Result<Option<Seq<char>>, Seq<char>>,
    pub sent: Result<u16, Seq<char>>,
    pub body: Result<Seq<char>, Seq<char>>,
}

impl RequestWorldView {
    /// What happens in answer to an action.
    pub open spec fn reply(self, action: PropfindActionView) -> PropfindEventView {
        match action {
            PropfindActionView::LoadSecret(_) => PropfindEventView::SecretLoaded(self.loaded),
            PropfindActionView::Send(_) => PropfindEventView::Sent(self.sent),
            PropfindActionView::ReadBody => PropfindEventView::BodyRead(self.body),
            PropfindActionView::Done(_) => PropfindEventView::Started,
        }
    }
}

/// What a request gives from an event on, or `None` where it has not ended after `limit` steps.
pub open spec fn requesting(
    world: RequestWorldView,
    url: Seq<char>,
    depth: Seq<char>,
    body: PropfindBody,
    auth: config::AuthMethodView,
    source_id: Seq<char>,
    event: PropfindEventView,
    limit: nat,
) -> Option<Result<Seq<char>, DiscoveryErrorView>>
    decreases limit,
{
    if limit == 0 {
        None
    } else {
        match propfind_step(url, depth, body, auth, source_id, event) {
            PropfindActionView::Done(r) => Some(r),
            action => requesting(
                world,
                url,
                depth,
                body,
                auth,
                source_id,
                world.reply(action),
                (limit - 1) as nat,
            ),
        }
    }
}

/// What becomes of a request that was sent.
pub open spec fn answer_result(
    world: RequestWorldView,
    url: Seq<char>,
    source_id: Seq<char>,
) -> Result<Seq<char>, DiscoveryErrorView> {
    match world.sent {
        Err(e) => Err(
            DiscoveryErrorView::Other("PROPFIND request to "@ + url + " failed: "@ + e),
        ),
        Ok(code) => if code == 401 {
            Err(DiscoveryErrorView::AuthExpired(source_id))
        } else if 200 <= code < 300 {
            match world.body {
                Ok(text) => Ok(text),
                Err(e) => Err(
                    DiscoveryErrorView::Other("Failed to read PROPFIND response: "@ + e),
                ),
            }
        } else {
            Err(
                DiscoveryErrorView::Other(
                    "PROPFIND to "@ + url + " returned status "@ + status_line(code),
                ),
            )
        },
    }
}

/// What a request gives, by what the keyring and the server answer.
pub open spec fn request_result(
    world: RequestWorldView,
    url: Seq<char>,
    auth: config::AuthMethodView,
    source_id: Seq<char>,
) -> Result<Seq<char>, DiscoveryErrorView> {
    let loaded = match auth_step(auth, source_id, None) {
        AuthStepView::Load(_) => auth_step(auth, source_id, Some(world.loaded)),
        step => step,
    };
    match loaded {
        AuthStepView::Fail(e) => Err(e),
        _ => answer_result(world, url, source_id),
    }
}

/// A request ends after four steps at the most, with the text of the response or with the first
/// thing that failed. Its secret is loaded at most once.
pub proof fn requests_end(
    world: RequestWorldView,
    url: Seq<char>,
    depth: Seq<char>,
    body: PropfindBody,
    auth: config::AuthMethodView,
    source_id: Seq<char>,
)
    ensures
        requesting(world, url, depth, body, auth, source_id, PropfindEventView::Started, 4) == Some(
            request_result(world, url, auth, source_id),
        ),
{
    reveal_with_fuel(requesting, 5);
}

/// A server, and what is read out of its answers.
pub struct ServerView {
    pub client: Result<(), DiscoveryErrorView>,
    pub propfind: spec_fn(Seq<char>, Seq<char>, PropfindBody) -> Result<
        Seq<char>,
        DiscoveryErrorView,
    >,
    pub extract_inner: spec_fn(Seq<char>, Seq<char>) -> Option<Seq<char>>,
    pub extract_text: spec_fn(Seq<char>, Seq<char>) -> Option<Seq<char>>,
    pub resolve: spec_fn(Seq<char>, Seq<char>) -> Seq<char>,
    pub parse: spec_fn(Seq<char>, Seq<char>) -> Seq<config::CalDavCalendarView>,
}

impl ServerView {
    /// What happens in answer to an action.
    pub open spec fn reply(self, action: DiscoverActionView) -> DiscoverEventView {
        match action {
            DiscoverActionView::GetClient { .. } => DiscoverEventView::ClientReady(self.client),
            DiscoverActionView::Propfind { url, depth, body } => {
                let answer = (self.propfind)(url, depth, body);
                match body {
                    PropfindBody::Principal => DiscoverEventView::Answered(
                        Lookup::Principal,
                        answer,
                    ),
                    PropfindBody::HomeSet => DiscoverEventView::Answered(Lookup::HomeSet, answer),
                    PropfindBody::Calendars => DiscoverEventView::Listed(answer),
                }
            },
            DiscoverActionView::ExtractInner { lookup, xml, tag } =>
                DiscoverEventView::BlockExtracted(lookup, (self.extract_inner)(xml, tag)),
            DiscoverActionView::ExtractText { lookup, xml, tag } =>
                DiscoverEventView::HrefExtracted(lookup, (self.extract_text)(xml, tag)),
            DiscoverActionView::Resolve { lookup, base, href } => DiscoverEventView::Resolved(
                lookup,
                (self.resolve)(base, href),
            ),
            DiscoverActionView::ParseCalendars { xml, base } => DiscoverEventView::Parsed(
                (self.parse)(xml, base),
            ),
            DiscoverActionView::Done(_) => DiscoverEventView::Started,
        }
    }

    /// The address that an answer gives for a lookup, made absolute. Where it gives none, the
    /// empty address is.
    pub open spec fn looked_up(self, base: Seq<char>, lookup: Lookup, xml: Seq<char>) -> Seq<char> {
        let href = match (self.extract_inner)(xml, lookup_tag(lookup)) {
            Some(block) => match (self.extract_text)(block, "href"@) {
                Some(href) => href,
                None => Seq::empty(),
            },
            None => Seq::empty(),
        };
        (self.resolve)(base, href)
    }

    /// What a discovery gives: the principal is asked for at the server address, the home set at
    /// the principal, and the calendars at the home set. The first error is the answer.
    pub open spec fn discovered(self, server_url: Seq<char>) -> Result<
        Seq<config::CalDavCalendarView>,
        DiscoveryErrorView,
    > {
        let base = base_url(server_url);
        match self.client {
            Err(e) => Err(e),
            Ok(_) => match (self.propfind)(base, "0"@, PropfindBody::Principal) {
                Err(e) => Err(e),
                Ok(xml) => {
                    let principal = self.looked_up(base, Lookup::Principal, xml);
                    match (self.propfind)(principal, "0"@, PropfindBody::HomeSet) {
                        Err(e) => Err(e),
                        Ok(xml) => {
                            let home = self.looked_up(base, Lookup::HomeSet, xml);
                            match (self.propfind)(home, "1"@, PropfindBody::Calendars) {
                                Err(e) => Err(e),
                                Ok(xml) => Ok((self.parse)(xml, base)),
                            }
                        },
                    }
                },
            },
        }
    }
}

/// What a discovery gives from an event on, or `None` where it has not ended after `limit` steps.
pub open spec fn discovering(
    server: ServerView,
    server_url: Seq<char>,
    ca_cert_path: Option<Seq<char>>,
    event: DiscoverEventView,
    limit: nat,
) -> Option<Result<Seq<config::CalDavCalendarView>, DiscoveryErrorView>>
    decreases limit,
{
    if limit == 0 {
        None
    } else {
        match discover_step(server_url, ca_cert_path, event) {
            DiscoverActionView::Done(r) => Some(r),
            action => discovering(
                server,
                server_url,
                ca_cert_path,
                server.reply(action),
                (limit - 1) as nat,
            ),
        }
    }
}

/// From the request of a lookup that is answered on, a discovery goes on with the address that was
/// looked up, after two or three steps.
proof fn lemma_lookup(
    server: ServerView,
    server_url: Seq<char>,
    ca_cert_path: Option<Seq<char>>,
    lookup: Lookup,
    xml: Seq<char>,
    limit: nat,
) -> (rest: nat)
    requires
        limit >= 3,
    ensures
        limit - 3 <= rest <= limit - 2,
        discovering(
            server,
            server_url,
            ca_cert_path,
            DiscoverEventView::Answered(lookup, Ok(xml)),
            limit,
        ) == discovering(
            server,
            server_url,
            ca_cert_path,
            DiscoverEventView::Resolved(
                lookup,
                server.looked_up(base_url(server_url), lookup, xml),
            ),
            rest,
        ),
{
    reveal_with_fuel(discovering, 4);
    if (server.extract_inner)(xml, lookup_tag(lookup)) is Some {
        (limit - 3) as nat
    } else {
        (limit - 2) as nat
    }
}

/// A discovery ends after twelve steps at the most, with the calendars that the server lists or
/// with the first error.
pub proof fn discovery_ends(
    server: ServerView,
    server_url: Seq<char>,
    ca_cert_path: Option<Seq<char>>,
)
    ensures
        discovering(server, server_url, ca_cert_path, DiscoverEventView::Started, 12) == Some(
            server.discovered(server_url),
        ),
{
    reveal_with_fuel(discovering, 4);
    let base = base_url(server_url);
    if server.client is Ok {
        if let Ok(xml) = (server.propfind)(base, "0"@, PropfindBody::Principal) {
            let rest = lemma_lookup(server, server_url, ca_cert_path, Lookup::Principal, xml, 10);
            let principal = server.looked_up(base, Lookup::Principal, xml);
            if let Ok(xml) = (server.propfind)(principal, "0"@, PropfindBody::HomeSet) {
                let rest = lemma_lookup(
                    server,
                    server_url,
                    ca_cert_path,
                    Lookup::HomeSet,
                    xml,
                    (rest - 1) as nat,
                );
            }
        }
    }
}

} // verus!
