//! OIDC sign-in for CalDAV sources.
//!
//! The caller talks to the provider, the browser and the network. Each operation here is a
//! machine: it is told what just happened and says what to do next.

use vstd::prelude::*;

use crate::config;
use crate::secrets;
use crate::text;

verus! {

/// Where the callback server listens: on a free port of the loopback interface.
pub const LISTEN_ADDRESS: &'static str = "127.0.0.1:0";

/// How long the provider may take to describe itself or to exchange a code, in seconds.
pub const PROVIDER_TIMEOUT_SECS: u64 = 30;

/// How long the user may take to sign in, in nanoseconds.
pub const CALLBACK_DEADLINE_NANOS: u128 = 120_000_000_000;

/// How many requests to the callback server are looked at.
pub const MAX_CALLBACK_ATTEMPTS: u32 = 10;

/// How many bytes of a request are read.
pub const REQUEST_LIMIT: usize = 4096;

/// What a sign-in gives.
#[derive(Debug, PartialEq, Eq)]
pub struct OidcTokens {
    pub access_token: String,
    pub refresh_token: Option<String>,
}

/// The model of [`OidcTokens`].
pub struct OidcTokensView {
    pub access_token: Seq<char>,
    pub refresh_token: Option<Seq<char>>,
}

impl DeepView for OidcTokens {
    type V = OidcTokensView;

    open spec fn deep_view(&self) -> OidcTokensView {
        OidcTokensView {
            access_token: self.access_token@,
            refresh_token: self.refresh_token.deep_view(),
        }
    }
}

/// The model of what a sign-in or a refresh gave.
pub open spec fn tokens_view(r: Result<OidcTokens, String>) -> Result<OidcTokensView, Seq<char>> {
    match r {
        Ok(t) => Ok(t.deep_view()),
        Err(e) => Err(e@),
    }
}

/// The model of a text or the reason why there is none.
pub open spec fn code_view(r: Result<String, String>) -> Result<Seq<char>, Seq<char>> {
    match r {
        Ok(c) => Ok(c@),
        Err(e) => Err(e@),
    }
}

// ── Sign-in ──────────────────────────────────────────────────────────────

/// What became of the request for the provider's description.
pub enum ProviderReply {
    Ready,
    Failed(String),
    TimedOut,
}

/// What became of the exchange of a code for tokens.
pub enum ExchangeReply {
    Tokens(OidcTokens),
    Failed(String),
    TimedOut,
}

/// How the code challenge of PKCE (Proof Key for Code Exchange) is made of its verifier.
#[derive(Debug, Clone, Copy, PartialEq, Eq, Structural)]
pub enum PkceMethod {
    /// The challenge is the SHA-256 hash of the verifier.
    Sha256,
}

/// What just happened in a sign-in. What a later step needs comes along with the event: the port
/// that the callback server listens on, and then the PKCE verifier.
pub enum LoginEvent {
    Started,
    Bound(Result<(), String>),
    PortRead(Result<u16, String>),
    ProviderAnswered(u16, ProviderReply),
    /// The browser was asked to open the authorization page, whether it could or not. This state
    /// and the challenge of this verifier were sent with it.
    BrowserOpened { state: String, pkce_verifier: String },
    /// The code that the callback brought.
    CallbackEnded { code: Result<String, String>, pkce_verifier: String },
    Exchanged(ExchangeReply),
}

/// What to do next in a sign-in.
#[derive(Debug, PartialEq, Eq)]
pub enum LoginAction {
    Bind { address: &'static str },
    ReadPort,
    AskProvider { issuer_url: String, timeout_secs: u64, port: u16 },
    /// Build the authorization page's address and open it in the browser.
    Authorize {
        client_id: String,
        client_secret: Option<String>,
        redirect_url: String,
        scopes: Vec<String>,
        pkce: PkceMethod,
    },
    /// Wait for a callback with this state; see [`wait_for_callback`].
    AwaitCallback { expected_state: String, pkce_verifier: String },
    /// Exchange the code for tokens, and send the verifier with it.
    Exchange { code: String, pkce_verifier: String, timeout_secs: u64 },
    Done(Result<OidcTokens, String>),
}

/// The model of a [`ProviderReply`].
pub enum ProviderReplyView {
    Ready,
    Failed(Seq<char>),
    TimedOut,
}

/// The model of an [`ExchangeReply`].
pub enum ExchangeReplyView {
    Tokens(OidcTokensView),
    Failed(Seq<char>),
    TimedOut,
}

/// The model of a [`LoginEvent`].
pub enum LoginEventView {
    Started,
    Bound(Result<(), Seq<char>>),
    PortRead(Result<u16, Seq<char>>),
    ProviderAnswered(u16, ProviderReplyView),
    BrowserOpened { state: Seq<char>, pkce_verifier: Seq<char> },
    CallbackEnded { code: Result<Seq<char>, Seq<char>>, pkce_verifier: Seq<char> },
    Exchanged(ExchangeReplyView),
}

/// The model of a [`LoginAction`].
pub enum LoginActionView {
    Bind { address: Seq<char> },
    ReadPort,
    AskProvider { issuer_url: Seq<char>, timeout_secs: u64, port: u16 },
    Authorize {
        client_id: Seq<char>,
        client_secret: Option<Seq<char>>,
        redirect_url: Seq<char>,
        scopes: Seq<Seq<char>>,
        pkce: PkceMethod,
    },
    AwaitCallback { expected_state: Seq<char>, pkce_verifier: Seq<char> },
    Exchange { code: Seq<char>, pkce_verifier: Seq<char>, timeout_secs: u64 },
    Done(Result<OidcTokensView, Seq<char>>),
}

impl DeepView for ProviderReply {
    type V = ProviderReplyView;

    open spec fn deep_view(&self) -> ProviderReplyView {
        match self {
            ProviderReply::Ready => ProviderReplyView::Ready,
            ProviderReply::Failed(e) => ProviderReplyView::Failed(e@),
            ProviderReply::TimedOut => ProviderReplyView::TimedOut,
        }
    }
}

impl DeepView for ExchangeReply {
    type V = ExchangeReplyView;

    open spec fn deep_view(&self) -> ExchangeReplyView {
        match self {
            ExchangeReply::Tokens(t) => ExchangeReplyView::Tokens(t.deep_view()),
            ExchangeReply::Failed(e) => ExchangeReplyView::Failed(e@),
            ExchangeReply::TimedOut => ExchangeReplyView::TimedOut,
        }
    }
}

impl DeepView for LoginEvent {
    type V = LoginEventView;

    open spec fn deep_view(&self) -> LoginEventView {
        match self {
            LoginEvent::Started => LoginEventView::Started,
            LoginEvent::Bound(r) => LoginEventView::Bound(secrets::text_result(*r)),
            LoginEvent::PortRead(r) => LoginEventView::PortRead(secrets::text_result(*r)),
            LoginEvent::ProviderAnswered(port, reply) => LoginEventView::ProviderAnswered(
                *port,
                reply.deep_view(),
            ),
            LoginEvent::BrowserOpened { state, pkce_verifier } => LoginEventView::BrowserOpened {
                state: state@,
                pkce_verifier: pkce_verifier@,
            },
            LoginEvent::CallbackEnded { code, pkce_verifier } => LoginEventView::CallbackEnded {
                code: code_view(*code),
                pkce_verifier: pkce_verifier@,
            },
            LoginEvent::Exchanged(reply) => LoginEventView::Exchanged(reply.deep_view()),
        }
    }
}

impl DeepView for LoginAction {
    type V = LoginActionView;

    open spec fn deep_view(&self) -> LoginActionView {
        match self {
            LoginAction::Bind { address } => LoginActionView::Bind { address: address@ },
            LoginAction::ReadPort => LoginActionView::ReadPort,
            LoginAction::AskProvider { issuer_url, timeout_secs, port } =>
                LoginActionView::AskProvider {
                issuer_url: issuer_url@,
                timeout_secs: *timeout_secs,
                port: *port,
            },
            LoginAction::Authorize { client_id, client_secret, redirect_url, scopes, pkce } =>
                LoginActionView::Authorize {
                client_id: client_id@,
                client_secret: client_secret.deep_view(),
                redirect_url: redirect_url@,
                scopes: scopes.deep_view(),
                pkce: *pkce,
            },
            LoginAction::AwaitCallback { expected_state, pkce_verifier } =>
                LoginActionView::AwaitCallback {
                expected_state: expected_state@,
                pkce_verifier: pkce_verifier@,
            },
            LoginAction::Exchange { code, pkce_verifier, timeout_secs } =>
                LoginActionView::Exchange {
                code: code@,
                pkce_verifier: pkce_verifier@,
                timeout_secs: *timeout_secs,
            },
            LoginAction::Done(r) => LoginActionView::Done(tokens_view(*r)),
        }
    }
}

/// The address that the provider sends the browser back to.
pub open spec fn redirect_address(port: u16) -> Seq<char> {
    "http://127.0.0.1:"@ + text::decimal(port as nat) + "/callback"@
}

/// The scopes that are asked for: the given ones, or a default where none are given.
pub open spec fn scopes_to_ask(scopes: Seq<Seq<char>>) -> Seq<Seq<char>> {
    if scopes.len() == 0 {
        seq!["openid"@, "offline_access"@]
    } else {
        scopes
    }
}

/// The address that the provider sends the browser back to.
pub fn redirect_url(port: u16) -> (r: String)
    ensures
        r@ == redirect_address(port),
{
    "http://127.0.0.1:".to_owned().concat(text::decimal_text(port as u128).as_str()).concat(
        "/callback",
    )
}

/// The scopes that are asked for: the given ones, or a default where none are given.
pub fn effective_scopes(scopes: &Vec<String>) -> (r: Vec<String>)
    ensures
        r.deep_view() == scopes_to_ask(scopes.deep_view()),
{
    if scopes.len() == 0 {
        let r: Vec<String> = vec!["openid".to_owned(), "offline_access".to_owned()];
        assert(r.deep_view() =~= scopes_to_ask(scopes.deep_view()));
        r
    } else {
        config::clone_texts(scopes)
    }
}

/// Why `openidconnect` refuses a text as an issuer's address, if it does.
pub uninterp spec fn issuer_url_error(address: Seq<char>) -> Option<Seq<char>>;

/// Why `openidconnect` refuses a text as a redirect address, if it does.
pub uninterp spec fn redirect_url_error(address: Seq<char>) -> Option<Seq<char>>;

/// Calls `IssuerUrl::new` of `openidconnect`: nothing where it accepts the text as an address,
/// and else its error in words. What it accepts is the URL grammar and has only a name here.
#[verifier::external_body]
fn check_issuer_url(address: &str) -> (r: Option<String>)
    ensures
        r.deep_view() == issuer_url_error(address@),
{
    openidconnect::IssuerUrl::new(address.to_owned()).err().map(|e| e.to_string())
}

/// Calls `RedirectUrl::new` of `openidconnect`: nothing where it accepts the text as an address,
/// and else its error in words. What it accepts is the URL grammar and has only a name here.
#[verifier::external_body]
fn check_redirect_url(address: &str) -> (r: Option<String>)
    ensures
        r.deep_view() == redirect_url_error(address@),
{
    openidconnect::RedirectUrl::new(address.to_owned()).err().map(|e| e.to_string())
}

/// The step that follows the check of the issuer's address.
pub open spec fn issuer_step(issuer_url: Seq<char>, port: u16, error: Option<Seq<char>>) ->
    LoginActionView {
    match error {
        Some(e) => LoginActionView::Done(Err("Invalid issuer URL: "@ + e)),
        None => LoginActionView::AskProvider {
            issuer_url,
            timeout_secs: PROVIDER_TIMEOUT_SECS,
            port,
        },
    }
}

/// The step that follows the check of the redirect address.
pub open spec fn redirect_step(
    client_id: Seq<char>,
    client_secret: Option<Seq<char>>,
    scopes: Seq<Seq<char>>,
    port: u16,
    error: Option<Seq<char>>,
) -> LoginActionView {
    match error {
        Some(e) => LoginActionView::Done(Err("Invalid redirect URL: "@ + e)),
        None => LoginActionView::Authorize {
            client_id,
            client_secret,
            redirect_url: redirect_address(port),
            scopes: scopes_to_ask(scopes),
            pkce: PkceMethod::Sha256,
        },
    }
}

/// The step that follows an event of a sign-in.
pub open spec fn login_step(
    issuer_url: Seq<char>,
    client_id: Seq<char>,
    client_secret: Option<Seq<char>>,
    scopes: Seq<Seq<char>>,
    event: LoginEventView,
) -> LoginActionView {
    match event {
        LoginEventView::Started => LoginActionView::Bind { address: LISTEN_ADDRESS@ },
        LoginEventView::Bound(Ok(_)) => LoginActionView::ReadPort,
        LoginEventView::Bound(Err(e)) => LoginActionView::Done(
            Err("Failed to bind callback server: "@ + e),
        ),
        LoginEventView::PortRead(Ok(port)) => issuer_step(
            issuer_url,
            port,
            issuer_url_error(issuer_url),
        ),
        LoginEventView::PortRead(Err(e)) => LoginActionView::Done(
            Err("Failed to get callback port: "@ + e),
        ),
        LoginEventView::ProviderAnswered(port, ProviderReplyView::Ready) => redirect_step(
            client_id,
            client_secret,
            scopes,
            port,
            redirect_url_error(redirect_address(port)),
        ),
        LoginEventView::ProviderAnswered(_, ProviderReplyView::Failed(e)) => LoginActionView::Done(
            Err("OIDC discovery failed: "@ + e),
        ),
        LoginEventView::ProviderAnswered(_, ProviderReplyView::TimedOut) => LoginActionView::Done(
            Err("OIDC discovery timed out (30s)"@),
        ),
        LoginEventView::BrowserOpened { state, pkce_verifier } => LoginActionView::AwaitCallback {
            expected_state: state,
            pkce_verifier,
        },
        LoginEventView::CallbackEnded { code: Ok(code), pkce_verifier } =>
            LoginActionView::Exchange {
            code,
            pkce_verifier,
            timeout_secs: PROVIDER_TIMEOUT_SECS,
        },
        LoginEventView::CallbackEnded { code: Err(e), .. } => LoginActionView::Done(Err(e)),
        LoginEventView::Exchanged(ExchangeReplyView::Tokens(tokens)) => LoginActionView::Done(
            Ok(tokens),
        ),
        LoginEventView::Exchanged(ExchangeReplyView::Failed(e)) => LoginActionView::Done(
            Err("Token exchange failed: "@ + e),
        ),
        LoginEventView::Exchanged(ExchangeReplyView::TimedOut) => LoginActionView::Done(
            Err("Token exchange timed out (30s)"@),
        ),
    }
}

/// Ends a sign-in with a message and the reason after it.
fn give_up(message: &str, reason: &String) -> (r: LoginAction)
    ensures
        r.deep_view() == LoginActionView::Done(Err(message@ + reason@)),
{
    LoginAction::Done(Err(message.to_owned().concat(reason.as_str())))
}

/// Says what to do once the issuer's address was checked, with the error that the check gave.
pub fn after_issuer_check(issuer_url: &str, port: u16, error: &Option<String>) -> (r: LoginAction)
    ensures
        r.deep_view() == issuer_step(issuer_url@, port, error.deep_view()),
{
    match error {
        Some(e) => give_up("Invalid issuer URL: ", e),
        None => LoginAction::AskProvider {
            issuer_url: issuer_url.to_owned(),
            timeout_secs: PROVIDER_TIMEOUT_SECS,
            port,
        },
    }
}

/// Says what to do once the redirect address was checked, with the error that the check gave.
pub fn after_redirect_check(
    client_id: &str,
    client_secret: &Option<String>,
    scopes: &Vec<String>,
    port: u16,
    error: &Option<String>,
) -> (r: LoginAction)
    ensures
        r.deep_view() == redirect_step(
            client_id@,
            client_secret.deep_view(),
            scopes.deep_view(),
            port,
            error.deep_view(),
        ),
{
    match error {
        Some(e) => give_up("Invalid redirect URL: ", e),
        None => LoginAction::Authorize {
            client_id: client_id.to_owned(),
            client_secret: config::clone_text(client_secret),
            redirect_url: redirect_url(port),
            scopes: effective_scopes(scopes),
            pkce: PkceMethod::Sha256,
        },
    }
}

/// Says what to do next to sign in, after `event`.
pub fn oidc_login(
    issuer_url: &str,
    client_id: &str,
    client_secret: &Option<String>,
    scopes: &Vec<String>,
    event: LoginEvent,
) -> (r: LoginAction)
    ensures
        r.deep_view() == login_step(
            issuer_url@,
            client_id@,
            client_secret.deep_view(),
            scopes.deep_view(),
            event.deep_view(),
        ),
{
    match event {
        LoginEvent::Started => LoginAction::Bind { address: LISTEN_ADDRESS },
        LoginEvent::Bound(Ok(_)) => LoginAction::ReadPort,
        LoginEvent::Bound(Err(e)) => give_up("Failed to bind callback server: ", &e),
        LoginEvent::PortRead(Ok(port)) => after_issuer_check(
            issuer_url,
            port,
            &check_issuer_url(issuer_url),
        ),
        LoginEvent::PortRead(Err(e)) => give_up("Failed to get callback port: ", &e),
        LoginEvent::ProviderAnswered(port, ProviderReply::Ready) => {
            let address = redirect_url(port);
            after_redirect_check(
                client_id,
                client_secret,
                scopes,
                port,
                &check_redirect_url(address.as_str()),
            )
        },
        LoginEvent::ProviderAnswered(_, ProviderReply::Failed(e)) => give_up(
            "OIDC discovery failed: ",
            &e,
        ),
        LoginEvent::ProviderAnswered(_, ProviderReply::TimedOut) => LoginAction::Done(
            Err("OIDC discovery timed out (30s)".to_owned()),
        ),
        LoginEvent::BrowserOpened { state, pkce_verifier } => LoginAction::AwaitCallback {
            expected_state: state,
            pkce_verifier,
        },
        LoginEvent::CallbackEnded { code: Ok(code), pkce_verifier } => LoginAction::Exchange {
            code,
            pkce_verifier,
            timeout_secs: PROVIDER_TIMEOUT_SECS,
        },
        LoginEvent::CallbackEnded { code: Err(e), .. } => LoginAction::Done(Err(e)),
        LoginEvent::Exchanged(ExchangeReply::Tokens(tokens)) => LoginAction::Done(Ok(tokens)),
        LoginEvent::Exchanged(ExchangeReply::Failed(e)) => give_up("Token exchange failed: ", &e),
        LoginEvent::Exchanged(ExchangeReply::TimedOut) => LoginAction::Done(
            Err("Token exchange timed out (30s)".to_owned()),
        ),
    }
}

// ── One request to the callback server ───────────────────────────────────

/// What an answered request means for the sign-in.
#[derive(Debug, PartialEq, Eq)]
pub enum Verdict {
    /// Wait for another request.
    Retry,
    /// The sign-in failed, for this reason.
    Refuse(String),
    /// The sign-in goes on with this code.
    Accept(String),
}

/// What to do with a request to the callback server.
#[derive(Debug, PartialEq, Eq)]
pub enum CallbackReply {
    /// Close the connection without an answer, and wait for another request.
    Close,
    Answer { status: &'static str, body: &'static str, verdict: Verdict },
}

/// The model of a [`Verdict`].
pub enum VerdictView {
    Retry,
    Refuse(Seq<char>),
    Accept(Seq<char>),
}

/// The model of a [`CallbackReply`].
pub enum CallbackReplyView {
    Close,
    Answer { status: Seq<char>, body: Seq<char>, verdict: VerdictView },
}

impl DeepView for Verdict {
    type V = VerdictView;

    open spec fn deep_view(&self) -> VerdictView {
        match self {
            Verdict::Retry => VerdictView::Retry,
            Verdict::Refuse(e) => VerdictView::Refuse(e@),
            Verdict::Accept(code) => VerdictView::Accept(code@),
        }
    }
}

impl DeepView for CallbackReply {
    type V = CallbackReplyView;

    open spec fn deep_view(&self) -> CallbackReplyView {
        match self {
            CallbackReply::Close => CallbackReplyView::Close,
            CallbackReply::Answer { status, body, verdict } => CallbackReplyView::Answer {
                status: status@,
                body: body@,
                verdict: verdict.deep_view(),
            },
        }
    }
}

/// The page that a user sees whose sign-in worked.
pub const SUCCESS_PAGE: &'static str =
    "<html><body><h1>Authentication successful!</h1><p>You can close this window and return to COSMIC Settings.</p></body></html>";

/// The pairs of names and values of a query, as `url` reads it.
pub uninterp spec fn form_pairs(query: Seq<char>) -> Seq<(Seq<char>, Seq<char>)>;

/// Calls `form_urlencoded::parse` of `url` on the bytes of the query: its names and values in
/// order, decoded. The decoding has only a name here.
#[verifier::external_body]
fn query_pairs(query: &str) -> (r: Vec<(String, String)>)
    ensures
        r.deep_view() == form_pairs(query@),
{
    url::form_urlencoded::parse(query.as_bytes()).into_owned().collect()
}

/// The value of a query parameter: the last one, where its name comes more than once.
pub open spec fn parameter(pairs: Seq<(Seq<char>, Seq<char>)>, name: Seq<char>) -> Option<Seq<char>>
    decreases pairs.len(),
{
    if pairs.len() == 0 {
        None
    } else if pairs.last().0 == name {
        Some(pairs.last().1)
    } else {
        parameter(pairs.drop_last(), name)
    }
}

/// The value of a query parameter: the last one, where its name comes more than once.
fn find_parameter(pairs: &Vec<(String, String)>, name: &str) -> (r: Option<String>)
    ensures
        r.deep_view() == parameter(pairs.deep_view(), name@),
{
    let mut end: usize = pairs.len();
    assert(pairs.deep_view().take(end as int) =~= pairs.deep_view());
    while end > 0
        invariant
            end <= pairs.len(),
            parameter(pairs.deep_view(), name@) == parameter(
                pairs.deep_view().take(end as int),
                name@,
            ),
        decreases end,
    {
        assert(pairs.deep_view().take(end as int).last() == (
            pairs@[end - 1].0@,
            pairs@[end - 1].1@,
        ));
        if text::same_text(pairs[end - 1].0.as_str(), name) {
            return Some(pairs[end - 1].1.clone());
        }
        assert(pairs.deep_view().take(end as int).drop_last() =~= pairs.deep_view().take(end - 1));
        end -= 1;
    }
    None
}

/// The first line of a request.
pub open spec fn first_line(request: Seq<char>) -> Seq<char> {
    match text::split_once_on(request, '\n') {
        Some(parts) => parts.0,
        None => request,
    }
}

/// The target that a request names: the second word of its first line.
pub open spec fn request_target(request: Seq<char>) -> Option<Seq<char>> {
    let words = text::words_of(first_line(request));
    if words.len() > 1 {
        Some(words[1])
    } else {
        None
    }
}

/// An answer after which another request is waited for.
pub open spec fn retry_reply(status: Seq<char>, body: Seq<char>) -> CallbackReplyView {
    CallbackReplyView::Answer { status, body, verdict: VerdictView::Retry }
}

/// What to do with a callback that brings these parameters.
///
/// The code is accepted if and only if the state is the one that the sign-in began with. Another
/// state ends the sign-in.
pub open spec fn parameters_reply(
    pairs: Seq<(Seq<char>, Seq<char>)>,
    expected_state: Seq<char>,
) -> CallbackReplyView {
    match (parameter(pairs, "code"@), parameter(pairs, "state"@)) {
        (None, _) => retry_reply("400 Bad Request"@, "Missing code parameter"@),
        (Some(_), None) => retry_reply("400 Bad Request"@, "Missing state parameter"@),
        (Some(code), Some(state)) => if state == expected_state {
            CallbackReplyView::Answer {
                status: "200 OK"@,
                body: SUCCESS_PAGE@,
                verdict: VerdictView::Accept(code),
            }
        } else {
            CallbackReplyView::Answer {
                status: "403 Forbidden"@,
                body: "State mismatch"@,
                verdict: VerdictView::Refuse("CSRF state mismatch"@),
            }
        },
    }
}

/// What to do with a request to the callback server.
pub open spec fn request_reply(request: Seq<char>, expected_state: Seq<char>) -> CallbackReplyView {
    match request_target(request) {
        None => CallbackReplyView::Close,
        Some(target) => match text::split_once_on(target, '?') {
            None => retry_reply("400 Bad Request"@, "Missing parameters"@),
            Some(parts) => if "/callback"@.is_suffix_of(parts.0) {
                parameters_reply(form_pairs(parts.1), expected_state)
            } else {
                retry_reply("404 Not Found"@, "Not the callback endpoint"@)
            },
        },
    }
}

/// An answer after which another request is waited for.
fn retry(status: &'static str, body: &'static str) -> (r: CallbackReply)
    ensures
        r.deep_view() == retry_reply(status@, body@),
{
    CallbackReply::Answer { status, body, verdict: Verdict::Retry }
}

/// Says what to do with a callback that brings these parameters.
pub fn answer_parameters(pairs: &Vec<(String, String)>, expected_state: &str) -> (r: CallbackReply)
    ensures
        r.deep_view() == parameters_reply(pairs.deep_view(), expected_state@),
{
    let code = match find_parameter(pairs, "code") {
        Some(code) => code,
        None => {
            return retry("400 Bad Request", "Missing code parameter");
        },
    };
    let state = match find_parameter(pairs, "state") {
        Some(state) => state,
        None => {
            return retry("400 Bad Request", "Missing state parameter");
        },
    };
    if text::same_text(state.as_str(), expected_state) {
        CallbackReply::Answer {
            status: "200 OK",
            body: SUCCESS_PAGE,
            verdict: Verdict::Accept(code),
        }
    } else {
        CallbackReply::Answer {
            status: "403 Forbidden",
            body: "State mismatch",
            verdict: Verdict::Refuse("CSRF state mismatch".to_owned()),
        }
    }
}

/// Says what to do with a request to the callback server.
pub fn answer_request(request: &str, expected_state: &str) -> (r: CallbackReply)
    ensures
        r.deep_view() == request_reply(request@, expected_state@),
{
    let line = match text::split_once(request, '\n') {
        Some((line, _)) => line,
        None => request,
    };
    let words = text::split_whitespace(line);
    assert(words.deep_view() == text::words_of(first_line(request@)));
    if words.len() < 2 {
        return CallbackReply::Close;
    }
    match text::split_once(words[1].as_str(), '?') {
        None => retry("400 Bad Request", "Missing parameters"),
        Some((path, query)) => {
            if text::ends_with(path, "/callback") {
                answer_parameters(&query_pairs(query), expected_state)
            } else {
                retry("404 Not Found", "Not the callback endpoint")
            }
        },
    }
}

/// The bytes of an answer, as text.
pub open spec fn response_text(status: Seq<char>, body: Seq<char>) -> Seq<char> {
    "HTTP/1.1 "@ + status + "\r\nContent-Type: text/html; charset=utf-8\r\nContent-Length: "@
        + text::decimal(vstd::utf8::encode_utf8(body).len()) + "\r\n\r\n"@ + body
}

/// An answer, ready to be sent: its length is that of the body in bytes.
pub fn send_response(status: &str, body: &str) -> (r: String)
    ensures
        r@ == response_text(status@, body@),
{
    let length = body.as_bytes().len();
    "HTTP/1.1 ".to_owned().concat(status).concat(
        "\r\nContent-Type: text/html; charset=utf-8\r\nContent-Length: ",
    ).concat(text::decimal_text(length as u128).as_str()).concat("\r\n\r\n").concat(body)
}

// ── Waiting for the callback ─────────────────────────────────────────────

/// What became of waiting for a connection.
pub enum AcceptReply {
    Connected,
    Failed(String),
    TimedOut,
}

/// What just happened while the callback is waited for. An event carries the number of attempts
/// that its action came with; the time is that since the waiting began.
pub enum WaitEvent {
    Started,
    Accepted { reply: AcceptReply, attempts: u32 },
    /// What was read of the request.
    Received { request: Result<Vec<u8>, String>, attempts: u32 },
    /// The request was acted on.
    Replied { reply: CallbackReply, attempts: u32, elapsed_nanos: u128 },
}

/// What to do next while the callback is waited for. The attempts are the requests that will have
/// been acted on once the action is done.
#[derive(Debug, PartialEq, Eq)]
pub enum WaitAction {
    Accept { within_nanos: u128, attempts: u32 },
    Read { limit: usize, attempts: u32 },
    Reply { reply: CallbackReply, attempts: u32 },
    Done(Result<String, String>),
}

/// The model of an [`AcceptReply`].
pub enum AcceptReplyView {
    Connected,
    Failed(Seq<char>),
    TimedOut,
}

/// The model of a [`WaitEvent`].
pub enum WaitEventView {
    Started,
    Accepted { reply: AcceptReplyView, attempts: u32 },
    Received { request: Result<Seq<u8>, Seq<char>>, attempts: u32 },
    Replied { reply: CallbackReplyView, attempts: u32, elapsed_nanos: u128 },
}

/// The model of a [`WaitAction`].
pub enum WaitActionView {
    Accept { within_nanos: u128, attempts: u32 },
    Read { limit: usize, attempts: u32 },
    Reply { reply: CallbackReplyView, attempts: u32 },
    Done(Result<Seq<char>, Seq<char>>),
}

impl DeepView for AcceptReply {
    type V = AcceptReplyView;

    open spec fn deep_view(&self) -> AcceptReplyView {
        match self {
            AcceptReply::Connected => AcceptReplyView::Connected,
            AcceptReply::Failed(e) => AcceptReplyView::Failed(e@),
            AcceptReply::TimedOut => AcceptReplyView::TimedOut,
        }
    }
}

impl DeepView for WaitEvent {
    type V = WaitEventView;

    open spec fn deep_view(&self) -> WaitEventView {
        match self {
            WaitEvent::Started => WaitEventView::Started,
            WaitEvent::Accepted { reply, attempts } => WaitEventView::Accepted {
                reply: reply.deep_view(),
                attempts: *attempts,
            },
            WaitEvent::Received { request: Ok(bytes), attempts } => WaitEventView::Received {
                request: Ok(bytes@),
                attempts: *attempts,
            },
            WaitEvent::Received { request: Err(e), attempts } => WaitEventView::Received {
                request: Err(e@),
                attempts: *attempts,
            },
            WaitEvent::Replied { reply, attempts, elapsed_nanos } => WaitEventView::Replied {
                reply: reply.deep_view(),
                attempts: *attempts,
                elapsed_nanos: *elapsed_nanos,
            },
        }
    }
}

impl DeepView for WaitAction {
    type V = WaitActionView;

    open spec fn deep_view(&self) -> WaitActionView {
        match self {
            WaitAction::Accept { within_nanos, attempts } => WaitActionView::Accept {
                within_nanos: *within_nanos,
                attempts: *attempts,
            },
            WaitAction::Read { limit, attempts } => WaitActionView::Read {
                limit: *limit,
                attempts: *attempts,
            },
            WaitAction::Reply { reply, attempts } => WaitActionView::Reply {
                reply: reply.deep_view(),
                attempts: *attempts,
            },
            WaitAction::Done(r) => WaitActionView::Done(code_view(*r)),
        }
    }
}

/// The text that the standard library reads from bytes, whatever is not UTF-8 replaced.
pub uninterp spec fn lossy_text(bytes: Seq<u8>) -> Seq<char>;

/// Calls `String::from_utf8_lossy`: the text that the bytes encode where they are UTF-8. What
/// stands for bytes that are not has only a name here.
#[verifier::external_body]
fn text_from_bytes(bytes: &Vec<u8>) -> (r: String)
    ensures
        r@ == lossy_text(bytes@),
        vstd::utf8::valid_utf8(bytes@) ==> r@ == vstd::utf8::decode_utf8(bytes@),
{
    String::from_utf8_lossy(bytes).into_owned()
}

/// The step with which the next request is waited for, unless there were too many or the time is
/// up.
pub open spec fn accept_step(attempts: u32, elapsed_nanos: u128) -> WaitActionView {
    if attempts >= MAX_CALLBACK_ATTEMPTS {
        WaitActionView::Done(Err("Too many invalid callback requests"@))
    } else if elapsed_nanos >= CALLBACK_DEADLINE_NANOS {
        WaitActionView::Done(Err("Authentication timed out (120 s)"@))
    } else {
        WaitActionView::Accept {
            within_nanos: (CALLBACK_DEADLINE_NANOS - elapsed_nanos) as u128,
            attempts,
        }
    }
}

/// One attempt more. Past the limit the number does not matter, and stays.
pub open spec fn next_attempt(attempts: u32) -> u32 {
    if attempts < MAX_CALLBACK_ATTEMPTS {
        (attempts + 1) as u32
    } else {
        attempts
    }
}

/// The step that follows an event while the callback is waited for.
pub open spec fn wait_step(expected_state: Seq<char>, event: WaitEventView) -> WaitActionView {
    match event {
        WaitEventView::Started => accept_step(0, 0),
        WaitEventView::Accepted { reply: AcceptReplyView::Connected, attempts } =>
            WaitActionView::Read { limit: REQUEST_LIMIT, attempts },
        WaitEventView::Accepted { reply: AcceptReplyView::Failed(e), .. } => WaitActionView::Done(
            Err("Failed to accept callback: "@ + e),
        ),
        WaitEventView::Accepted { reply: AcceptReplyView::TimedOut, .. } => WaitActionView::Done(
            Err("Authentication timed out (120 s)"@),
        ),
        WaitEventView::Received { request: Ok(bytes), attempts } => WaitActionView::Reply {
            reply: request_reply(lossy_text(bytes), expected_state),
            attempts: next_attempt(attempts),
        },
        WaitEventView::Received { request: Err(e), .. } => WaitActionView::Done(
            Err("Failed to read callback: "@ + e),
        ),
        WaitEventView::Replied { reply, attempts, elapsed_nanos } => match reply {
            CallbackReplyView::Answer { verdict: VerdictView::Accept(code), .. } =>
                WaitActionView::Done(Ok(code)),
            CallbackReplyView::Answer { verdict: VerdictView::Refuse(e), .. } =>
                WaitActionView::Done(Err(e)),
            _ => accept_step(attempts, elapsed_nanos),
        },
    }
}

/// Waits for the next request, unless there were too many or the time is up.
fn accept_next(attempts: u32, elapsed_nanos: u128) -> (r: WaitAction)
    ensures
        r.deep_view() == accept_step(attempts, elapsed_nanos),
{
    if attempts >= MAX_CALLBACK_ATTEMPTS {
        WaitAction::Done(Err("Too many invalid callback requests".to_owned()))
    } else if elapsed_nanos >= CALLBACK_DEADLINE_NANOS {
        WaitAction::Done(Err("Authentication timed out (120 s)".to_owned()))
    } else {
        WaitAction::Accept { within_nanos: CALLBACK_DEADLINE_NANOS - elapsed_nanos, attempts }
    }
}

/// Says what to do next while the callback is waited for, after `event`. A request that is UTF-8
/// is read as the text that its bytes encode.
pub fn wait_for_callback(expected_state: &str, event: WaitEvent) -> (r: WaitAction)
    ensures
        r.deep_view() == wait_step(expected_state@, event.deep_view()),
        event.deep_view() matches WaitEventView::Received { request: Ok(bytes), .. }
            ==> vstd::utf8::valid_utf8(bytes) ==> lossy_text(bytes) == vstd::utf8::decode_utf8(
            bytes,
        ),
{
    match event {
        WaitEvent::Started => accept_next(0, 0),
        WaitEvent::Accepted { reply: AcceptReply::Connected, attempts } => WaitAction::Read {
            limit: REQUEST_LIMIT,
            attempts,
        },
        WaitEvent::Accepted { reply: AcceptReply::Failed(e), .. } => WaitAction::Done(
            Err("Failed to accept callback: ".to_owned().concat(e.as_str())),
        ),
        WaitEvent::Accepted { reply: AcceptReply::TimedOut, .. } => WaitAction::Done(
            Err("Authentication timed out (120 s)".to_owned()),
        ),
        WaitEvent::Received { request: Ok(bytes), attempts } => {
            let request = text_from_bytes(&bytes);
            WaitAction::Reply {
                reply: answer_request(request.as_str(), expected_state),
                attempts: if attempts < MAX_CALLBACK_ATTEMPTS {
                    attempts + 1
                } else {
                    attempts
                },
            }
        },
        WaitEvent::Received { request: Err(e), .. } => WaitAction::Done(
            Err("Failed to read callback: ".to_owned().concat(e.as_str())),
        ),
        WaitEvent::Replied { reply, attempts, elapsed_nanos } => match reply {
            CallbackReply::Close => accept_next(attempts, elapsed_nanos),
            CallbackReply::Answer { verdict, .. } => match verdict {
                Verdict::Accept(code) => WaitAction::Done(Ok(code)),
                Verdict::Refuse(e) => WaitAction::Done(Err(e)),
                Verdict::Retry => accept_next(attempts, elapsed_nanos),
            },
        },
    }
}

// ── Laws ─────────────────────────────────────────────────────────────────

/// A code is accepted only together with the state that the sign-in began with: both come as
/// parameters of one request to the callback address.
pub proof fn code_comes_with_its_state(
    request: Seq<char>,
    expected_state: Seq<char>,
    code: Seq<char>,
)
    requires
        request_reply(request, expected_state) matches CallbackReplyView::Answer {
            verdict: VerdictView::Accept(accepted),
            ..
        } && accepted == code,
    ensures
        request_target(request) matches Some(target) && text::split_once_on(
            target,
            '?',
        ) matches Some(parts) && "/callback"@.is_suffix_of(parts.0) && parameter(
            form_pairs(parts.1),
            "state"@,
        ) == Some(expected_state) && parameter(form_pairs(parts.1), "code"@) == Some(code),
{
}

/// A code with any other state ends the sign-in with an error, whatever the code is.
pub proof fn foreign_state_ends_the_sign_in(
    pairs: Seq<(Seq<char>, Seq<char>)>,
    expected_state: Seq<char>,
)
    requires
        parameter(pairs, "code"@) is Some,
        parameter(pairs, "state"@) matches Some(state) && state != expected_state,
    ensures
        parameters_reply(pairs, expected_state) == (CallbackReplyView::Answer {
            status: "403 Forbidden"@,
            body: "State mismatch"@,
            verdict: VerdictView::Refuse("CSRF state mismatch"@),
        }),
{
}

/// What happens round a callback server, by the number of the attempt.
pub struct CallbackWorldView {
    pub accepted: spec_fn(u32) -> AcceptReplyView,
    pub received: spec_fn(u32) -> Result<Seq<u8>, Seq<char>>,
    /// The time that has passed once so many requests were acted on.
    pub elapsed_nanos: spec_fn(u32) -> u128,
}

/// What waiting gives from an event on, or `None` where it has not ended after `limit` steps.
pub open spec fn waiting(
    world: CallbackWorldView,
    expected_state: Seq<char>,
    event: WaitEventView,
    limit: nat,
) -> Option<Result<Seq<char>, Seq<char>>>
    decreases limit,
{
    if limit == 0 {
        None
    } else {
        let rest = (limit - 1) as nat;
        match wait_step(expected_state, event) {
            WaitActionView::Done(r) => Some(r),
            WaitActionView::Accept { attempts, .. } => waiting(
                world,
                expected_state,
                WaitEventView::Accepted { reply: (world.accepted)(attempts), attempts },
                rest,
            ),
            WaitActionView::Read { attempts, .. } => waiting(
                world,
                expected_state,
                WaitEventView::Received { request: (world.received)(attempts), attempts },
                rest,
            ),
            WaitActionView::Reply { reply, attempts } => waiting(
                world,
                expected_state,
                WaitEventView::Replied {
                    reply,
                    attempts,
                    elapsed_nanos: (world.elapsed_nanos)(attempts),
                },
                rest,
            ),
        }
    }
}

/// The code and the state that the request of an attempt brings to the callback address, if it
/// brings both.
pub open spec fn brought(world: CallbackWorldView, attempt: u32) -> Option<
    (Seq<char>, Seq<char>),
> {
    match (world.received)(attempt) {
        Err(_) => None,
        Ok(bytes) => match request_target(lossy_text(bytes)) {
            None => None,
            Some(target) => match text::split_once_on(target, '?') {
                None => None,
                Some(parts) => {
                    let pairs = form_pairs(parts.1);
                    match (parameter(pairs, "code"@), parameter(pairs, "state"@)) {
                        (Some(code), Some(state)) => if "/callback"@.is_suffix_of(parts.0) {
                            Some((code, state))
                        } else {
                            None
                        },
                        _ => None,
                    }
                },
            },
        },
    }
}

/// Whether the request of an attempt is the first that brings both a code and a state, and it
/// brings this code with the expected state.
pub open spec fn is_first_to_bring(
    world: CallbackWorldView,
    expected_state: Seq<char>,
    attempt: u32,
    code: Seq<char>,
) -> bool {
    &&& brought(world, attempt) == Some((code, expected_state))
    &&& forall|earlier: u32| earlier < attempt ==> #[trigger] brought(world, earlier) is None
}

/// Whether the first request that brings both a code and a state is among those that are looked at,
/// and brings this code with the expected state.
pub open spec fn code_is_brought(
    world: CallbackWorldView,
    expected_state: Seq<char>,
    code: Seq<char>,
) -> bool {
    exists|attempt: u32|
        attempt < MAX_CALLBACK_ATTEMPTS && #[trigger] is_first_to_bring(
            world,
            expected_state,
            attempt,
            code,
        )
}

/// How a request is acted on, by what it brings.
pub proof fn lemma_reply_by_what_is_brought(
    world: CallbackWorldView,
    expected_state: Seq<char>,
    attempt: u32,
)
    ensures
        (world.received)(attempt) matches Ok(bytes) ==> match (
            request_reply(lossy_text(bytes), expected_state),
            brought(world, attempt),
        ) {
            (CallbackReplyView::Close, b) => b is None,
            (CallbackReplyView::Answer { verdict: VerdictView::Retry, .. }, b) => b is None,
            (CallbackReplyView::Answer { verdict: VerdictView::Refuse(_), .. }, b) => {
                b matches Some(pair) && pair.1 != expected_state
            },
            (CallbackReplyView::Answer { verdict: VerdictView::Accept(code), .. }, b) => b == Some(
                (code, expected_state),
            ),
        },
{
}

/// Waiting ends after every event that leads to the next attempt. If no request so far brought both
/// a code and a state, it gives a code only if the first one to come that brings both brings it.
proof fn lemma_waiting_ends(
    world: CallbackWorldView,
    expected_state: Seq<char>,
    attempt: u32,
    event: WaitEventView,
    limit: nat,
    code: Seq<char>,
)
    requires
        attempt <= MAX_CALLBACK_ATTEMPTS,
        exists|elapsed: u128| #[trigger]
            accept_step(attempt, elapsed) == wait_step(expected_state, event),
        limit > 3 * (MAX_CALLBACK_ATTEMPTS - attempt),
        forall|earlier: u32| earlier < attempt ==> #[trigger] brought(world, earlier) is None,
    ensures
        waiting(world, expected_state, event, limit) is Some,
        waiting(world, expected_state, event, limit) == Some(
            Ok::<Seq<char>, Seq<char>>(code),
        ) ==> code_is_brought(world, expected_state, code),
    decreases limit,
{
    reveal_with_fuel(waiting, 4);
    if wait_step(expected_state, event) is Accept {
        if (world.accepted)(attempt) is Connected {
            if let Ok(bytes) = (world.received)(attempt) {
                let reply = request_reply(lossy_text(bytes), expected_state);
                let attempts = next_attempt(attempt);
                let elapsed_nanos = (world.elapsed_nanos)(attempts);
                let replied = WaitEventView::Replied { reply, attempts, elapsed_nanos };
                lemma_reply_by_what_is_brought(world, expected_state, attempt);
                match reply {
                    CallbackReplyView::Answer { verdict: VerdictView::Accept(accepted), .. } => {
                        assert(is_first_to_bring(world, expected_state, attempt, accepted));
                    },
                    CallbackReplyView::Answer { verdict: VerdictView::Refuse(_), .. } => {},
                    _ => {
                        assert(accept_step(attempts, elapsed_nanos) == wait_step(
                            expected_state,
                            replied,
                        ));
                        lemma_waiting_ends(
                            world,
                            expected_state,
                            attempts,
                            replied,
                            (limit - 3) as nat,
                            code,
                        );
                    },
                }
            }
        }
    }
}

/// Waiting for the callback comes to an end, whatever is sent to the server: after ten requests at
/// the most, each of them in three steps.
pub proof fn waiting_ends(world: CallbackWorldView, expected_state: Seq<char>)
    ensures
        waiting(world, expected_state, WaitEventView::Started, 31) is Some,
{
    assert(accept_step(0, 0) == wait_step(expected_state, WaitEventView::Started));
    lemma_waiting_ends(world, expected_state, 0, WaitEventView::Started, 31, Seq::empty());
}

/// Waiting gives a code only if one of the first ten requests brought it to the callback address
/// together with the state that the sign-in began with, and no request before that one brought both
/// a code and a state there.
pub proof fn only_the_expected_state_signs_in(
    world: CallbackWorldView,
    expected_state: Seq<char>,
    code: Seq<char>,
)
    requires
        waiting(world, expected_state, WaitEventView::Started, 31) == Some(
            Ok::<Seq<char>, Seq<char>>(code),
        ),
    ensures
        code_is_brought(world, expected_state, code),
{
    assert(accept_step(0, 0) == wait_step(expected_state, WaitEventView::Started));
    lemma_waiting_ends(world, expected_state, 0, WaitEventView::Started, 31, code);
}

/// Each wait for a request ends at the deadline.
pub proof fn waiting_keeps_the_deadline(attempts: u32, elapsed_nanos: u128)
    ensures
        accept_step(attempts, elapsed_nanos) matches WaitActionView::Accept { within_nanos, .. }
            ==> elapsed_nanos + within_nanos == CALLBACK_DEADLINE_NANOS,
{
}

/// What the outside world answers in a sign-in.
pub struct LoginWorldView {
    pub bound: Result<(), Seq<char>>,
    pub port: Result<u16, Seq<char>>,
    pub provider: ProviderReplyView,
    /// The state and the PKCE verifier that an authorization is begun with.
    pub begun: (Seq<char>, Seq<char>),
    /// The code that a callback with this state brings.
    pub callback: spec_fn(Seq<char>) -> Result<Seq<char>, Seq<char>>,
    /// What the exchange of a code with a PKCE verifier gives.
    pub exchange: spec_fn(Seq<char>, Seq<char>) -> ExchangeReplyView,
}

impl LoginWorldView {
    /// What happens in answer to an action.
    pub open spec fn reply(self, action: LoginActionView) -> LoginEventView {
        match action {
            LoginActionView::Bind { .. } => LoginEventView::Bound(self.bound),
            LoginActionView::ReadPort => LoginEventView::PortRead(self.port),
            LoginActionView::AskProvider { port, .. } => LoginEventView::ProviderAnswered(
                port,
                self.provider,
            ),
            LoginActionView::Authorize { .. } => LoginEventView::BrowserOpened {
                state: self.begun.0,
                pkce_verifier: self.begun.1,
            },
            LoginActionView::AwaitCallback { expected_state, pkce_verifier } =>
                LoginEventView::CallbackEnded {
                code: (self.callback)(expected_state),
                pkce_verifier,
            },
            LoginActionView::Exchange { code, pkce_verifier, .. } => LoginEventView::Exchanged(
                (self.exchange)(code, pkce_verifier),
            ),
            LoginActionView::Done(_) => LoginEventView::Started,
        }
    }
}

/// What a sign-in gives from an event on, or `None` where it has not ended after `limit` steps.
pub open spec fn signing_in(
    world: LoginWorldView,
    issuer_url: Seq<char>,
    client_id: Seq<char>,
    client_secret: Option<Seq<char>>,
    scopes: Seq<Seq<char>>,
    event: LoginEventView,
    limit: nat,
) -> Option<Result<OidcTokensView, Seq<char>>>
    decreases limit,
{
    if limit == 0 {
        None
    } else {
        match login_step(issuer_url, client_id, client_secret, scopes, event) {
            LoginActionView::Done(r) => Some(r),
            action => signing_in(
                world,
                issuer_url,
                client_id,
                client_secret,
                scopes,
                world.reply(action),
                (limit - 1) as nat,
            ),
        }
    }
}

/// What a sign-in gives, by what the outside world answers: the first thing that fails is
/// reported, and otherwise there are tokens. The callback is awaited with the state that the
/// authorization was begun with, and the code is exchanged with its PKCE verifier.
pub open spec fn sign_in_result(world: LoginWorldView, issuer_url: Seq<char>) -> Result<
    OidcTokensView,
    Seq<char>,
> {
    match (world.bound, world.port) {
        (Err(e), _) => Err("Failed to bind callback server: "@ + e),
        (_, Err(e)) => Err("Failed to get callback port: "@ + e),
        (Ok(_), Ok(port)) => match issuer_url_error(issuer_url) {
            Some(e) => Err("Invalid issuer URL: "@ + e),
            None => match world.provider {
                ProviderReplyView::Failed(e) => Err("OIDC discovery failed: "@ + e),
                ProviderReplyView::TimedOut => Err("OIDC discovery timed out (30s)"@),
                ProviderReplyView::Ready => match redirect_url_error(redirect_address(port)) {
                    Some(e) => Err("Invalid redirect URL: "@ + e),
                    None => match (world.callback)(world.begun.0) {
                        Err(e) => Err(e),
                        Ok(code) => match (world.exchange)(code, world.begun.1) {
                            ExchangeReplyView::Failed(e) => Err("Token exchange failed: "@ + e),
                            ExchangeReplyView::TimedOut => Err("Token exchange timed out (30s)"@),
                            ExchangeReplyView::Tokens(tokens) => Ok(tokens),
                        },
                    },
                },
            },
        },
    }
}

/// A sign-in ends after seven steps at the most, with the tokens or with the first thing that
/// failed. Only a callback with the state that the authorization was begun with counts, and the
/// code goes into the exchange together with the PKCE verifier of that authorization.
pub proof fn sign_in_ends(
    world: LoginWorldView,
    issuer_url: Seq<char>,
    client_id: Seq<char>,
    client_secret: Option<Seq<char>>,
    scopes: Seq<Seq<char>>,
)
    ensures
        signing_in(
            world,
            issuer_url,
            client_id,
            client_secret,
            scopes,
            LoginEventView::Started,
            7,
        ) == Some(sign_in_result(world, issuer_url)),
{
    reveal_with_fuel(signing_in, 8);
}

/// The whole authorization that a sign-in asks for, once the provider is known: the scopes, the
/// redirect address on the port that the callback server listens on, and a PKCE challenge that is
/// the hash of its verifier. Nothing else is authorized.
pub proof fn authorization_uses_pkce(
    issuer_url: Seq<char>,
    client_id: Seq<char>,
    client_secret: Option<Seq<char>>,
    scopes: Seq<Seq<char>>,
    event: LoginEventView,
)
    requires
        login_step(issuer_url, client_id, client_secret, scopes, event) is Authorize,
    ensures
        event matches LoginEventView::ProviderAnswered(port, _) && login_step(
            issuer_url,
            client_id,
            client_secret,
            scopes,
            event,
        ) == (LoginActionView::Authorize {
            client_id,
            client_secret,
            redirect_url: redirect_address(port),
            scopes: scopes_to_ask(scopes),
            pkce: PkceMethod::Sha256,
        }),
{
}

/// Some scope is always asked for.
pub proof fn some_scope_is_asked_for(scopes: Seq<Seq<char>>)
    ensures
        scopes_to_ask(scopes).len() > 0,
{
}

} // verus!
