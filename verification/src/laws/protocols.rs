//! What is sent to keyring, server and provider, and what is made of their answers.

use vstd::prelude::*;

use crate::auth;
use crate::auth::PkceMethod;
use crate::config;
use crate::discovery;
use crate::discovery::{Lookup, PropfindBody};
use crate::laws;
use crate::laws::events;
use crate::laws::reaching;
use crate::laws::saving;
use crate::laws::texts;
use crate::message;
use crate::page;
use crate::secrets;
use crate::secrets::{FoundItems, ItemRef, SecretKind};
use crate::task;
use crate::text;
use crate::update;

verus! {

// ── Sign-in ──────────────────────────────────────────────────────────────

/// A sign-in goes by what it is given: the provider is asked at the issuer's address, and the
/// authorization is for this client, with its secret, for these scopes, or for two usual ones where
/// none are given, and comes back to the port on which the callback server listens. The server
/// listens on this machine only, and neither the provider's description nor the exchange may take
/// more than half a minute.
pub proof fn sign_in_goes_by_what_it_is_given(
    issuer_url: Seq<char>,
    client_id: Seq<char>,
    client_secret: Option<Seq<char>>,
    scopes: Seq<Seq<char>>,
    port: u16,
    code: Seq<char>,
    verifier: Seq<char>,
)
    ensures
        ({
            let step = |event: auth::LoginEventView|
                auth::login_step(issuer_url, client_id, client_secret, scopes, event);
            let redirect = "http://127.0.0.1:"@ + text::decimal(port as nat) + "/callback"@;
            &&& step(auth::LoginEventView::Started) == (auth::LoginActionView::Bind {
                address: "127.0.0.1:0"@,
            })
            &&& auth::issuer_url_error(issuer_url) is None ==> step(
                auth::LoginEventView::PortRead(Ok(port)),
            ) == (auth::LoginActionView::AskProvider { issuer_url, timeout_secs: 30, port })
            &&& auth::redirect_url_error(redirect) is None ==> step(
                auth::LoginEventView::ProviderAnswered(port, auth::ProviderReplyView::Ready),
            ) == (auth::LoginActionView::Authorize {
                client_id,
                client_secret,
                redirect_url: redirect,
                scopes: if scopes.len() > 0 {
                    scopes
                } else {
                    seq!["openid"@, "offline_access"@]
                },
                pkce: PkceMethod::Sha256,
            })
            &&& step(
                auth::LoginEventView::CallbackEnded { code: Ok(code), pkce_verifier: verifier },
            ) == (auth::LoginActionView::Exchange {
                code,
                pkce_verifier: verifier,
                timeout_secs: 30,
            })
        }),
{
}

/// A text whose front has no separator is parted behind that front.
proof fn lemma_parted(front: Seq<char>, sep: char, back: Seq<char>)
    requires
        !front.contains(sep),
    ensures
        text::split_once_on(front.push(sep) + back, sep) == Some((front, back)),
{
    let whole = front.push(sep) + back;
    assert(whole[front.len() as int] == sep);
    texts::parts_make_the_text(whole, sep);
    let parts = text::split_once_on(whole, sep)->0;
    if parts.0.len() < front.len() {
        assert(whole[parts.0.len() as int] == sep);
        assert(front[parts.0.len() as int] == sep);
    }
    if parts.0.len() > front.len() {
        assert(parts.0[front.len() as int] == sep);
    }
    assert(parts.0 =~= whole.take(front.len() as int));
    assert(parts.0 =~= front);
    assert(parts.1 =~= whole.skip((front.len() + 1) as int));
    assert(parts.1 =~= back);
}

/// The target of a browser's request is the second word of its first line, whatever comes after.
pub proof fn request_names_its_target(
    method: Seq<char>,
    target: Seq<char>,
    version: Seq<char>,
    rest: Seq<char>,
)
    requires
        texts::is_word(method),
        texts::is_word(target),
        texts::is_word(version),
    ensures
        auth::request_target(
            (method.push(' ') + (target.push(' ') + version)).push('\n') + rest,
        ) == Some(target),
        auth::request_target(method.push(' ') + (target.push(' ') + version)) == Some(target),
{
    let line = method.push(' ') + (target.push(' ') + version);
    assert forall|i: int| 0 <= i < line.len() implies line[i] != '\n' by {
        if i < method.len() {
            assert(!text::is_white_space(method[i]));
        } else if method.len() < i < method.len() + 1 + target.len() {
            assert(!text::is_white_space(target[i - method.len() - 1]));
        } else if i > method.len() + 1 + target.len() {
            assert(!text::is_white_space(version[i - method.len() - target.len() - 2]));
        }
    }
    lemma_parted(line, '\n', rest);
    texts::words_are_parted_by_white_space(method, ' ', target.push(' ') + version);
    texts::words_are_parted_by_white_space(target, ' ', version);
    assert(text::words_of(line) =~= seq![method] + (seq![target] + text::words_of(version)));
    assert(text::words_of(line)[1] == target);
    texts::parts_make_the_text(line, '\n');
}

/// A request to the callback address is judged by its parameters: with a code and the expected
/// state the code is accepted, with a code and another state the sign-in is refused, and without
/// one of them the browser may try again. A request to another address, or without parameters, may
/// be followed by another one too, and one without a target is not answered.
pub proof fn callback_is_judged_by_its_parameters(
    request: Seq<char>,
    path: Seq<char>,
    query: Seq<char>,
    expected_state: Seq<char>,
)
    requires
        auth::request_target(request) == Some(path.push('?') + query),
        !path.contains('?'),
    ensures
        ({
            let reply = auth::request_reply(request, expected_state);
            let code = auth::parameter(auth::form_pairs(query), "code"@);
            let state = auth::parameter(auth::form_pairs(query), "state"@);
            let answer = |status: Seq<char>, body: Seq<char>, verdict: auth::VerdictView|
                auth::CallbackReplyView::Answer { status, body, verdict };
            if !"/callback"@.is_suffix_of(path) {
                reply == answer(
                    "404 Not Found"@,
                    "Not the callback endpoint"@,
                    auth::VerdictView::Retry,
                )
            } else if code is None {
                reply == answer(
                    "400 Bad Request"@,
                    "Missing code parameter"@,
                    auth::VerdictView::Retry,
                )
            } else if state is None {
                reply == answer(
                    "400 Bad Request"@,
                    "Missing state parameter"@,
                    auth::VerdictView::Retry,
                )
            } else if state == Some(expected_state) {
                reply == answer(
                    "200 OK"@,
                    auth::SUCCESS_PAGE@,
                    auth::VerdictView::Accept(code->0),
                )
            } else {
                reply == answer(
                    "403 Forbidden"@,
                    "State mismatch"@,
                    auth::VerdictView::Refuse("CSRF state mismatch"@),
                )
            }
        }),
{
    lemma_parted(path, '?', query);
}

/// A request without a target is not answered, and one without parameters may be followed by
/// another one.
pub proof fn request_without_parameters_is_not_judged(
    request: Seq<char>,
    expected_state: Seq<char>,
)
    ensures
        auth::request_target(request) is None ==> auth::request_reply(request, expected_state)
            is Close,
        auth::request_target(request) matches Some(target) ==> !target.contains('?')
            ==> auth::request_reply(request, expected_state) == (auth::CallbackReplyView::Answer {
            status: "400 Bad Request"@,
            body: "Missing parameters"@,
            verdict: auth::VerdictView::Retry,
        }),
{
}

/// A request is waited for as long as fewer than ten came and two minutes are not over, and then
/// exactly until they are.
pub proof fn requests_are_waited_for_two_minutes(attempts: u32, elapsed_nanos: u128)
    ensures
        auth::accept_step(attempts, elapsed_nanos) == if attempts >= 10 {
            auth::WaitActionView::Done(Err("Too many invalid callback requests"@))
        } else if elapsed_nanos >= 120_000_000_000 {
            auth::WaitActionView::Done(Err("Authentication timed out (120 s)"@))
        } else {
            auth::WaitActionView::Accept {
                within_nanos: (120_000_000_000 - elapsed_nanos) as u128,
                attempts,
            }
        },
{
}

/// From an attempt on, waiting comes to the callback that brings the code.
proof fn lemma_waiting_reaches(
    world: auth::CallbackWorldView,
    expected_state: Seq<char>,
    code: Seq<char>,
    attempt: u32,
    n: u32,
    event: auth::WaitEventView,
    limit: nat,
)
    requires
        attempt <= n < 10,
        forall|j: u32|
            j <= n ==> (#[trigger] (world.accepted)(j)) is Connected && (world.received)(j) is Ok,
        forall|j: u32| j < n ==> #[trigger] auth::brought(world, j) is None,
        forall|j: u32| j <= n ==> #[trigger] (world.elapsed_nanos)(j) < 120_000_000_000,
        auth::brought(world, n) == Some((code, expected_state)),
        exists|elapsed: u128|
            elapsed < 120_000_000_000 && #[trigger] auth::accept_step(attempt, elapsed)
                == auth::wait_step(expected_state, event),
        limit > 3 * (n - attempt) + 3,
    ensures
        auth::waiting(world, expected_state, event, limit) == Some(
            Ok::<Seq<char>, Seq<char>>(code),
        ),
    decreases n - attempt,
{
    reveal_with_fuel(auth::waiting, 5);
    assert((world.accepted)(attempt) is Connected);
    let bytes = (world.received)(attempt)->Ok_0;
    let reply = auth::request_reply(auth::lossy_text(bytes), expected_state);
    let attempts = auth::next_attempt(attempt);
    let elapsed_nanos = (world.elapsed_nanos)(attempts);
    let replied = auth::WaitEventView::Replied { reply, attempts, elapsed_nanos };
    auth::lemma_reply_by_what_is_brought(world, expected_state, attempt);
    if attempt < n {
        assert(auth::brought(world, attempt) is None);
        assert(elapsed_nanos < 120_000_000_000);
        assert(auth::accept_step(attempts, elapsed_nanos) == auth::wait_step(
            expected_state,
            replied,
        ));
        lemma_waiting_reaches(
            world,
            expected_state,
            code,
            attempts,
            n,
            replied,
            (limit - 3) as nat,
        );
    } else {
        assert(reply matches auth::CallbackReplyView::Answer {
            verdict: auth::VerdictView::Accept(accepted),
            ..
        } && accepted == code);
        assert(auth::wait_step(expected_state, replied) == auth::WaitActionView::Done(Ok(code)));
    }
}

/// The callback that the provider sends is not missed: if requests come that can be read, the first
/// of them that brings both a code and a state brings the expected state, and it is among the first
/// ten and comes in time, then waiting gives its code.
pub proof fn expected_callback_signs_in(
    world: auth::CallbackWorldView,
    expected_state: Seq<char>,
    code: Seq<char>,
    n: u32,
)
    requires
        n < 10,
        forall|j: u32|
            j <= n ==> (#[trigger] (world.accepted)(j)) is Connected && (world.received)(j) is Ok,
        forall|j: u32| j < n ==> #[trigger] auth::brought(world, j) is None,
        forall|j: u32| j <= n ==> #[trigger] (world.elapsed_nanos)(j) < 120_000_000_000,
        auth::brought(world, n) == Some((code, expected_state)),
    ensures
        auth::waiting(world, expected_state, auth::WaitEventView::Started, 31) == Some(
            Ok::<Seq<char>, Seq<char>>(code),
        ),
{
    let started = auth::WaitEventView::Started;
    assert(auth::accept_step(0, 0) == auth::wait_step(expected_state, started));
    lemma_waiting_reaches(world, expected_state, code, 0, n, started, 31);
}

/// What comes of one connection: a connection that fails or is not made in time ends the waiting,
/// and so does a request that cannot be read. Else four kibibytes of it are read at the most, and
/// it is counted.
pub proof fn each_request_is_read_and_counted(
    expected_state: Seq<char>,
    attempts: u32,
    bytes: Seq<u8>,
    error: Seq<char>,
)
    requires
        attempts < 10,
    ensures
        ({
            let step = |event: auth::WaitEventView| auth::wait_step(expected_state, event);
            let accepted = |reply: auth::AcceptReplyView|
                step(auth::WaitEventView::Accepted { reply, attempts });
            let received = |request: Result<Seq<u8>, Seq<char>>|
                step(auth::WaitEventView::Received { request, attempts });
            &&& accepted(auth::AcceptReplyView::Connected) == (auth::WaitActionView::Read {
                limit: 4096,
                attempts,
            })
            &&& accepted(auth::AcceptReplyView::Failed(error)) == auth::WaitActionView::Done(
                Err("Failed to accept callback: "@ + error),
            )
            &&& accepted(auth::AcceptReplyView::TimedOut) == auth::WaitActionView::Done(
                Err("Authentication timed out (120 s)"@),
            )
            &&& received(Err(error)) == auth::WaitActionView::Done(
                Err("Failed to read callback: "@ + error),
            )
            &&& received(Ok(bytes)) == (auth::WaitActionView::Reply {
                reply: auth::request_reply(auth::lossy_text(bytes), expected_state),
                attempts: (attempts + 1) as u32,
            })
        }),
{
}

/// What a request that was acted on means: a code ends the waiting with it, a refusal ends it with
/// its reason, and after anything else the next request is waited for.
pub proof fn waiting_ends_with_the_verdict(
    expected_state: Seq<char>,
    status: Seq<char>,
    body: Seq<char>,
    word: Seq<char>,
    attempts: u32,
    elapsed_nanos: u128,
)
    ensures
        ({
            let after = |reply: auth::CallbackReplyView|
                auth::wait_step(
                    expected_state,
                    auth::WaitEventView::Replied { reply, attempts, elapsed_nanos },
                );
            let answer = |verdict: auth::VerdictView|
                auth::CallbackReplyView::Answer { status, body, verdict };
            &&& after(answer(auth::VerdictView::Accept(word))) == auth::WaitActionView::Done(
                Ok(word),
            )
            &&& after(answer(auth::VerdictView::Refuse(word))) == auth::WaitActionView::Done(
                Err(word),
            )
            &&& after(answer(auth::VerdictView::Retry)) == after(auth::CallbackReplyView::Close)
            &&& attempts >= 10 ==> after(auth::CallbackReplyView::Close)
                == auth::WaitActionView::Done(Err("Too many invalid callback requests"@))
            &&& attempts < 10 && elapsed_nanos < 120_000_000_000 ==> after(
                auth::CallbackReplyView::Close,
            ) is Accept
        }),
{
}

/// An answer begins with its status, ends with its body after an empty line, and tells the length
/// of the body in bytes.
pub proof fn answer_tells_its_length(status: Seq<char>, body: Seq<char>)
    ensures
        auth::response_text(status, body) == "HTTP/1.1 "@ + status
            + "\r\nContent-Type: text/html; charset=utf-8\r\nContent-Length: "@ + text::decimal(
            vstd::utf8::encode_utf8(body).len(),
        ) + "\r\n\r\n"@ + body,
{
}

// ── Requests to a server ─────────────────────────────────────────────────

/// A request proves its sender with the secret that belongs to the authentication of the source:
/// the user name with the stored password, or an empty one, or the stored token. No secret is
/// loaded where none is needed.
pub proof fn request_proves_its_sender(
    username: Seq<char>,
    source_id: Seq<char>,
    secret: Seq<char>,
    error: Seq<char>,
    oidc: config::AuthMethodView,
)
    requires
        oidc matches config::AuthMethodView::Oidc { has_token, .. } && has_token,
    ensures
        ({
            let basic = config::AuthMethodView::Basic { username };
            let step = |
                auth: config::AuthMethodView,
                loaded: Option<Result<Option<Seq<char>>, Seq<char>>>,
            | discovery::auth_step(auth, source_id, loaded);
            let with = |password: Seq<char>|
                discovery::AuthStepView::Ready(
                    discovery::InlineCredentialsView::Basic { username, password },
                );
            let bearer = discovery::AuthStepView::Ready(
                discovery::InlineCredentialsView::Bearer { token: secret },
            );
            let other = |e: Seq<char>|
                discovery::AuthStepView::Fail(discovery::DiscoveryErrorView::Other(e));
            let expired = discovery::AuthStepView::Fail(
                discovery::DiscoveryErrorView::AuthExpired(source_id),
            );
            &&& step(config::AuthMethodView::Anonymous, None) == discovery::AuthStepView::Ready(
                discovery::InlineCredentialsView::Anonymous,
            )
            &&& step(basic, None) == discovery::AuthStepView::Load(SecretKind::Password)
            &&& step(basic, Some(Ok(Some(secret)))) == with(secret)
            &&& step(basic, Some(Ok(None))) == with(Seq::empty())
            &&& step(basic, Some(Err(error))) == other(
                "Failed to load password from keyring: "@ + error,
            )
            &&& step(config::AuthMethodView::Bearer, None) == discovery::AuthStepView::Load(
                SecretKind::BearerToken,
            )
            &&& step(config::AuthMethodView::Bearer, Some(Ok(Some(secret)))) == bearer
            &&& step(config::AuthMethodView::Bearer, Some(Ok(None))) == other(
                "Bearer token not found in keyring"@,
            )
            &&& step(config::AuthMethodView::Bearer, Some(Err(error))) == other(
                "Failed to load bearer token from keyring: "@ + error,
            )
            &&& step(oidc, None) == discovery::AuthStepView::Load(SecretKind::OidcAccessToken)
            &&& step(oidc, Some(Ok(Some(secret)))) == bearer
            &&& step(oidc, Some(Ok(None))) == expired
            &&& step(oidc, Some(Err(error))) == other(
                "Failed to load OIDC token from keyring: "@ + error,
            )
        }),
{
}

/// A request is sent to the address that was asked for, at the depth and with the body that were
/// asked for, and with the credentials of the source.
pub proof fn request_asks_what_was_asked_for(
    url: Seq<char>,
    depth: Seq<char>,
    body: PropfindBody,
    auth: config::AuthMethodView,
    source_id: Seq<char>,
    event: discovery::PropfindEventView,
)
    requires
        discovery::propfind_step(url, depth, body, auth, source_id, event) is Send,
    ensures
        discovery::propfind_step(
            url,
            depth,
            body,
            auth,
            source_id,
            event,
        ) matches discovery::PropfindActionView::Send(request) && request.method == "PROPFIND"@
            && request.url == url && request.depth == depth && request.content_type
            == "application/xml; charset=utf-8"@ && request.body == body && discovery::auth_step(
            auth,
            source_id,
            match event {
                discovery::PropfindEventView::SecretLoaded(loaded) => Some(loaded),
                _ => None,
            },
        ) == discovery::AuthStepView::Ready(request.credentials),
{
}

/// The body of an answer is read exactly if the answer tells of success. One that tells that the
/// sender is not known means that the source has to sign in again; any other is an error that names
/// the address and the status.
pub proof fn answer_is_judged_by_its_status(
    url: Seq<char>,
    source_id: Seq<char>,
    code: u16,
    in_words: Seq<char>,
)
    ensures
        ({
            let step = discovery::status_action(url, source_id, code, in_words);
            &&& step is ReadBody <==> 200 <= code <= 299
            &&& step == discovery::PropfindActionView::Done(
                Err(discovery::DiscoveryErrorView::AuthExpired(source_id)),
            ) <==> code == 401
            &&& code != 401 && !(200 <= code <= 299) ==> step
                == discovery::PropfindActionView::Done(
                Err(
                    discovery::DiscoveryErrorView::Other(
                        "PROPFIND to "@ + url + " returned status "@ + in_words,
                    ),
                ),
            )
        }),
{
}

/// A discovery uses the certificate that it is given, starts at the server's address without the
/// slashes at its end, and looks for the principal and for the home set under their names.
pub proof fn discovery_starts_at_the_server(
    server_url: Seq<char>,
    ca_cert_path: Option<Seq<char>>,
    xml: Seq<char>,
    lookup: Lookup,
)
    ensures
        ({
            let step = |event: discovery::DiscoverEventView|
                discovery::discover_step(server_url, ca_cert_path, event);
            &&& step(discovery::DiscoverEventView::Started)
                == (discovery::DiscoverActionView::GetClient { ca_cert_path })
            &&& step(discovery::DiscoverEventView::ClientReady(Ok(())))
                == (discovery::DiscoverActionView::Propfind {
                url: text::without_back(server_url, '/'),
                depth: "0"@,
                body: PropfindBody::Principal,
            })
            &&& step(discovery::DiscoverEventView::Answered(lookup, Ok(xml)))
                == (discovery::DiscoverActionView::ExtractInner {
                lookup,
                xml,
                tag: if lookup == Lookup::Principal {
                    "current-user-principal"@
                } else {
                    "calendar-home-set"@
                },
            })
            &&& step(discovery::DiscoverEventView::BlockExtracted(lookup, None))
                == (discovery::DiscoverActionView::Resolve {
                lookup,
                base: text::without_back(server_url, '/'),
                href: Seq::empty(),
            })
            &&& step(discovery::DiscoverEventView::Listed(Ok(xml)))
                == (discovery::DiscoverActionView::ParseCalendars {
                xml,
                base: text::without_back(server_url, '/'),
            })
        }),
{
}

// ── Secrets ──────────────────────────────────────────────────────────────

/// A secret is filed as the text that it is, in the place of an older one, under the id of its
/// source and the name of its kind, and its label shows both.
pub proof fn secret_is_filed_in_the_place_of_an_older_one(
    source_id: Seq<char>,
    kind: SecretKind,
    secret: Seq<char>,
)
    ensures
        ({
            let name = match kind {
                SecretKind::Password => "password"@,
                SecretKind::BearerToken => "bearer_token"@,
                SecretKind::OidcAccessToken => "oidc_access_token"@,
                SecretKind::OidcRefreshToken => "oidc_refresh_token"@,
                SecretKind::OidcClientSecret => "oidc_client_secret"@,
            };
            secrets::create_step(source_id, kind, secret) == (secrets::StoreActionView::CreateItem {
                label: "COSMIC Calendar – "@ + source_id + " – "@ + name,
                attributes: seq![
                    ("application"@, "com.system76.CosmicAppletTime"@),
                    ("source_id"@, source_id),
                    ("secret_kind"@, name),
                ],
                secret: vstd::utf8::encode_utf8(secret),
                replace: true,
                content_type: "text/plain"@,
            })
        }),
{
}

/// A secret whose bytes are no text is never handed out: loading it fails.
pub proof fn unreadable_secret_is_not_handed_out(
    source_id: Seq<char>,
    kind: SecretKind,
    bytes: Seq<u8>,
)
    requires
        !vstd::utf8::valid_utf8(bytes),
    ensures
        secrets::load_step(
            source_id,
            kind,
            secrets::LoadEventView::Read(Ok(bytes)),
        ) matches secrets::LoadActionView::Done(
            Err(e),
        ) && "Secret is not valid UTF-8: "@.is_prefix_of(e),
{
}

/// A deletion that cannot reach the keyring fails with the reason.
pub proof fn deletion_needs_the_keyring(source_id: Seq<char>, error: Seq<char>)
    ensures
        secrets::delete_step(source_id, secrets::DeleteEventView::Started)
            == secrets::DeleteActionView::Connect,
        secrets::delete_step(source_id, secrets::DeleteEventView::Connected(Err(error)))
            == secrets::DeleteActionView::Done(
            Err("Failed to connect to Secret Service: "@ + error),
        ),
{
}

/// A deletion takes every item that its search found, locked or not, and no other.
pub proof fn deletion_takes_every_item(
    source_id: Seq<char>,
    kind: SecretKind,
    found: FoundItems,
    item: ItemRef,
)
    ensures
        secrets::delete_step(
            source_id,
            secrets::DeleteEventView::Searched(kind, Ok(found)),
        ) matches secrets::DeleteActionView::Delete { kind: deleted, items } && deleted == kind && (
        items.contains(item) <==> match item {
            ItemRef::Unlocked(i) => i < found.unlocked,
            ItemRef::Locked(i) => i < found.locked,
        }) && items.len() == found.unlocked + found.locked,
{
    let items = secrets::all_items(found);
    match item {
        ItemRef::Unlocked(i) => {
            if i < found.unlocked {
                assert(items[i as int] == item);
            }
        },
        ItemRef::Locked(i) => {
            if i < found.locked {
                assert(items[found.unlocked + i] == item);
            }
        },
    }
}

// ── Results of the work ──────────────────────────────────────────────────

/// What a discovery found or failed with reaches the source, or the form, that it was made for.
pub proof fn discovery_reaches_whom_it_was_made_for(
    source_id: Seq<char>,
    calendars: Seq<config::CalDavCalendarView>,
    error: Seq<char>,
)
    ensures
        task::discovery_event(source_id, Ok(calendars)) == message::MessageView::Discovered(
            source_id,
            calendars,
        ),
        task::discovery_event(source_id, Err(error)) == message::MessageView::DiscoverError(
            source_id,
            error,
        ),
        task::form_discovery_event(Ok(calendars)) == message::MessageView::FormDiscovered(
            calendars,
        ),
        task::form_discovery_event(Err(error)) == message::MessageView::FormDiscoverError(error),
{
}

/// A token that was loaded is the one that a discovery for the form sends. A client secret that was
/// loaded is the one that is used.
pub proof fn loaded_secrets_are_used(secret: Seq<char>, error: Seq<char>)
    ensures
        task::token_credentials(Ok(Some(secret))) == (discovery::InlineCredentialsView::Bearer {
            token: secret,
        }),
        task::token_credentials(Ok(None)) == task::token_credentials(Err(error)),
        task::token_credentials(Ok(None)) == (discovery::InlineCredentialsView::Bearer {
            token: Seq::empty(),
        }),
        task::secret_if_loaded(Ok(Some(secret))) == Some(secret),
        task::secret_if_loaded(Ok(None)) is None,
        task::secret_if_loaded(Err(error)) is None,
{
}

/// A refresh token that was loaded is the one that is used. Without one there is no refresh: the
/// user reads that a new sign-in is needed.
pub proof fn refresh_uses_the_stored_token(
    page: page::PageView,
    id: Seq<char>,
    token: Seq<char>,
    loaded: Result<Option<Seq<char>>, Seq<char>>,
    facts: update::FactsView,
)
    requires
        !(loaded matches Ok(Some(_))),
    ensures
        task::token_to_refresh(id, Ok(Some(token))) == Ok::<Seq<char>, message::MessageView>(token),
        task::token_to_refresh(id, loaded) matches Err(event) && page.updated(
            event,
            facts,
        ).0.discovery_error == Some(
            crate::labels::TextView::Label(crate::labels::Label::AuthExpiredReauth),
        ),
{
    reveal_strlit("No refresh token stored for");
    reveal_strlit("No refresh token stored for ");
    let front = "No refresh token stored for"@;
    let report = task::missing_refresh_token(id);
    assert(report =~= front + (seq![' '] + id));
    assert(!front.contains(':'));
    laws::lemma_first_piece_begins(front, seq![' '] + id, ':');
    laws::lemma_trimmed_begins(front, text::split_on(report, ':')[0]);
    reaching::failed_refresh_leads_to_a_sign_in(page, report, facts);
}

/// Tokens that a sign-in or a refresh gave are stored, both of them, under the id of the source
/// that they were asked for; those of a sign-in for the form under the id of the form.
pub proof fn tokens_that_came_are_stored(
    page: page::PageView,
    id: Seq<char>,
    tokens: auth::OidcTokensView,
    facts: update::FactsView,
)
    ensures
        ({
            let event = task::login_event(id, Ok(tokens));
            page.updated(event, facts).1.task matches task::TaskView::Keyring { writes, .. }
                && saving::stores_tokens(writes, id, tokens.access_token, tokens.refresh_token)
        }),
        ({
            let event = task::refresh_event(id, Ok(tokens));
            page.updated(event, facts).1.task matches task::TaskView::Keyring { writes, .. }
                && saving::stores_tokens(writes, id, tokens.access_token, tokens.refresh_token)
        }),
        ({
            let event = task::form_login_event(Ok(tokens));
            page.updated(event, facts).1.task matches task::TaskView::Keyring { writes, .. }
                && writes.len() > 0 && writes[0] == events::write(
                page.form_source_id,
                SecretKind::OidcAccessToken,
                tokens.access_token,
            ) && (tokens.refresh_token matches Some(t) ==> writes.len() > 1 && writes[1]
                == events::write(page.form_source_id, SecretKind::OidcRefreshToken, t))
        }),
{
    reaching::sign_in_stores_every_token(
        page,
        id,
        tokens.access_token,
        tokens.refresh_token,
        0,
        facts,
    );
    reaching::refresh_stores_every_new_token(
        page,
        id,
        tokens.access_token,
        tokens.refresh_token,
        facts,
    );
    saving::sign_in_for_the_form_stores_its_tokens(
        page,
        tokens.access_token,
        tokens.refresh_token,
        facts,
    );
}

/// A sign-in that failed for a saved source changes nothing, and one for the form is told there. A
/// refresh that failed asks the user to sign in for that very source.
pub proof fn failures_are_told(
    page: page::PageView,
    id: Seq<char>,
    reason: Seq<char>,
    facts: update::FactsView,
)
    requires
        id.len() > 0,
        !id.contains(':'),
        text::trimmed(id) == id,
    ensures
        page.updated(task::login_event(id, Err(reason)), facts) == (
            page,
            events::asking(task::TaskView::Idle),
        ),
        page.updated(task::form_login_event(Err(reason)), facts).0.form_discovery_error == Some(
            crate::labels::TextView::Plain(reason),
        ),
        page.updated(task::refresh_event(id, Err(reason)), facts).1 == page.updated(
            message::MessageView::OidcLogin(id),
            facts,
        ).1,
{
    reaching::failed_sign_in_changes_nothing(page, reason, facts);
    reaching::sign_in_for_the_form_uses_what_was_typed(page, reason, facts);
    laws::failed_refresh_asks_to_sign_in(page, id, reason, facts);
    assert(page.updated(message::MessageView::OidcLogin(id), facts).1 == page.login(id));
}

/// Entering the page takes the configuration that is stored, exactly as a reload does.
pub proof fn entering_is_reloading(page: page::PageView, facts: update::FactsView)
    ensures
        page.entered(facts.stored_config) == page.updated(
            message::MessageView::ConfigReload,
            facts,
        ).0,
{
}

// ── Whole runs that succeed ──────────────────────────────────────────────

/// What the keyring holds is what loading gives: the first item that is open, or else the first one
/// that is locked, once it is unlocked. Where nothing is found there is no secret.
pub proof fn loading_gives_what_the_keyring_holds(
    world: secrets::LoadWorldView,
    source_id: Seq<char>,
    kind: SecretKind,
    secret: Seq<char>,
    found: FoundItems,
)
    requires
        world.connected is Ok,
        world.found == Ok::<FoundItems, Seq<char>>(found),
        world.unlocked is Ok,
    ensures
        ({
            let bytes = Ok::<Seq<u8>, Seq<char>>(vstd::utf8::encode_utf8(secret));
            let loaded = secrets::loading(
                world,
                source_id,
                kind,
                secrets::LoadEventView::Started,
                5,
            );
            let it = Some(Ok::<Option<Seq<char>>, Seq<char>>(Some(secret)));
            &&& found.unlocked > 0 && (world.read)(ItemRef::Unlocked(0)) == bytes ==> loaded == it
            &&& found.unlocked == 0 && found.locked > 0 && (world.read)(ItemRef::Locked(0)) == bytes
                ==> loaded == it
            &&& found.unlocked == 0 && found.locked == 0 ==> loaded == Some(
                Ok::<Option<Seq<char>>, Seq<char>>(None),
            )
        }),
{
    secrets::loading_ends(world, source_id, kind);
    vstd::utf8::encode_utf8_valid_utf8(secret);
    vstd::utf8::encode_utf8_decode_utf8(secret);
    reveal_with_fuel(secrets::loading, 6);
}

/// A secret is stored once the keyring is open: it is unlocked first unless it is known to be, and
/// storing then succeeds.
pub proof fn storing_opens_the_keyring_first(
    world: secrets::StoreWorldView,
    source_id: Seq<char>,
    kind: SecretKind,
    secret: Seq<char>,
)
    requires
        world.connected is Ok,
        world.opened is Ok,
        world.created is Ok,
        world.unlocked is Ok,
    ensures
        ({
            let actions = secrets::storing(
                world,
                source_id,
                kind,
                secret,
                secrets::StoreEventView::Started,
                6,
            );
            let is_open = world.locked == Ok::<bool, Seq<char>>(false);
            let last = actions.len() - 1;
            &&& actions.len() >= 2
            &&& actions[last] == secrets::StoreActionView::Done(Ok(()))
            &&& actions[last - 1] matches secrets::StoreActionView::CreateItem {
                secret: bytes,
                ..
            } && bytes == vstd::utf8::encode_utf8(secret)
            &&& actions.contains(secrets::StoreActionView::Unlock) <==> !is_open
        }),
{
    reveal_with_fuel(secrets::storing, 7);
    let actions = secrets::storing(
        world,
        source_id,
        kind,
        secret,
        secrets::StoreEventView::Started,
        6,
    );
    if world.locked != Ok::<bool, Seq<char>>(false) {
        assert(actions[3] == secrets::StoreActionView::Unlock);
    }
}

/// A request whose sender can be proved, and that the server answers with success, gives the text
/// of the answer. An answer that the sender is not known means that the source has to sign in
/// again.
pub proof fn request_gives_the_answer(
    world: discovery::RequestWorldView,
    url: Seq<char>,
    depth: Seq<char>,
    body: PropfindBody,
    auth: config::AuthMethodView,
    source_id: Seq<char>,
    code: u16,
    secret: Seq<char>,
    answer: Seq<char>,
)
    requires
        world.sent == Ok::<u16, Seq<char>>(code),
        world.loaded == Ok::<Option<Seq<char>>, Seq<char>>(Some(secret)),
        world.body == Ok::<Seq<char>, Seq<char>>(answer),
        auth matches config::AuthMethodView::Oidc { has_token, .. } ==> has_token,
    ensures
        ({
            let result = discovery::requesting(
                world,
                url,
                depth,
                body,
                auth,
                source_id,
                discovery::PropfindEventView::Started,
                4,
            );
            &&& 200 <= code <= 299 ==> result == Some(
                Ok::<Seq<char>, discovery::DiscoveryErrorView>(answer),
            )
            &&& code == 401 ==> result == Some(
                Err::<Seq<char>, discovery::DiscoveryErrorView>(
                    discovery::DiscoveryErrorView::AuthExpired(source_id),
                ),
            )
            &&& code != 401 && !(200 <= code <= 299) ==> result matches Some(
                Err(discovery::DiscoveryErrorView::Other(_)),
            )
        }),
{
    reveal_with_fuel(discovery::requesting, 5);
}

/// A discovery asks the server's address for the principal, the principal for the home set, and the
/// home set for the calendars, and gives the calendars that are read out of the last answer.
pub proof fn discovery_follows_the_addresses(
    server: discovery::ServerView,
    server_url: Seq<char>,
    ca_cert_path: Option<Seq<char>>,
    answers: (Seq<char>, Seq<char>, Seq<char>),
    blocks: (Seq<char>, Seq<char>),
    hrefs: (Seq<char>, Seq<char>),
)
    requires
        ({
            let base = text::without_back(server_url, '/');
            let principal = (server.resolve)(base, hrefs.0);
            let home = (server.resolve)(base, hrefs.1);
            &&& server.client is Ok
            &&& (server.propfind)(base, "0"@, PropfindBody::Principal) == Ok::<
                Seq<char>,
                discovery::DiscoveryErrorView,
            >(answers.0)
            &&& (server.extract_inner)(answers.0, "current-user-principal"@) == Some(blocks.0)
            &&& (server.extract_text)(blocks.0, "href"@) == Some(hrefs.0)
            &&& (server.propfind)(principal, "0"@, PropfindBody::HomeSet) == Ok::<
                Seq<char>,
                discovery::DiscoveryErrorView,
            >(answers.1)
            &&& (server.extract_inner)(answers.1, "calendar-home-set"@) == Some(blocks.1)
            &&& (server.extract_text)(blocks.1, "href"@) == Some(hrefs.1)
            &&& (server.propfind)(home, "1"@, PropfindBody::Calendars) == Ok::<
                Seq<char>,
                discovery::DiscoveryErrorView,
            >(answers.2)
        }),
    ensures
        discovery::discovering(
            server,
            server_url,
            ca_cert_path,
            discovery::DiscoverEventView::Started,
            12,
        ) == Some(
            Ok::<Seq<config::CalDavCalendarView>, discovery::DiscoveryErrorView>(
                (server.parse)(answers.2, text::without_back(server_url, '/')),
            ),
        ),
{
    discovery::discovery_ends(server, server_url, ca_cert_path);
}

/// A sign-in in which nothing fails gives the tokens that the provider gives for the code of the
/// callback, together with the verifier of the authorization.
pub proof fn sign_in_gives_the_tokens(
    world: auth::LoginWorldView,
    issuer_url: Seq<char>,
    client_id: Seq<char>,
    client_secret: Option<Seq<char>>,
    scopes: Seq<Seq<char>>,
    port: u16,
    code: Seq<char>,
    tokens: auth::OidcTokensView,
)
    requires
        world.bound is Ok,
        world.port == Ok::<u16, Seq<char>>(port),
        auth::issuer_url_error(issuer_url) is None,
        world.provider is Ready,
        auth::redirect_url_error(
            "http://127.0.0.1:"@ + text::decimal(port as nat) + "/callback"@,
        ) is None,
        (world.callback)(world.begun.0) == Ok::<Seq<char>, Seq<char>>(code),
        (world.exchange)(code, world.begun.1) == auth::ExchangeReplyView::Tokens(tokens),
    ensures
        auth::signing_in(
            world,
            issuer_url,
            client_id,
            client_secret,
            scopes,
            auth::LoginEventView::Started,
            7,
        ) == Some(Ok::<auth::OidcTokensView, Seq<char>>(tokens)),
{
    auth::sign_in_ends(world, issuer_url, client_id, client_secret, scopes);
}

} // verus!
