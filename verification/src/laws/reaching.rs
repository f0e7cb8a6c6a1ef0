//! How sources are reached: discovery of their calendars, sign-in, and refresh of tokens.

use vstd::prelude::*;

use crate::config;
use crate::discovery;
use crate::labels;
use crate::labels::Label;
use crate::laws::events;
use crate::laws::saving;
use crate::message;
use crate::page;
use crate::secrets::SecretKind;
use crate::task;
use crate::text;
use crate::update;

verus! {

// ── Discovery ────────────────────────────────────────────────────────────

/// The discovery of a saved source goes to its own address, with its own authentication and its own
/// certificate. A source without calendars of its own is not asked for any. In any case the source
/// counts as being discovered, and an earlier error is no longer shown.
pub proof fn discovery_uses_the_sources_own_settings(
    page: page::PageView,
    id: Seq<char>,
    i: int,
    facts: update::FactsView,
)
    ensures
        ({
            let asked = page.updated(message::MessageView::Discover(id), facts);
            &&& asked.0 == page::PageView {
                discovering_source: Some(id),
                discovery_error: None,
                ..page
            }
            &&& events::means(page.calendar_config.sources, id, i) ==> {
                let source = page.calendar_config.sources[i];
                match source.source_type {
                    config::SourceTypeView::CalDav { url, auth, .. } => {
                        &&& asked.1.task matches task::TaskView::Discover {
                            source_id,
                            url: asked_url,
                            auth: asked_auth,
                            ca_cert_path,
                        } && source_id == source.id && asked_url == url && asked_auth == auth
                            && ca_cert_path == source.ca_cert_path
                        &&& asked.1 == events::asking(asked.1.task)
                    },
                    _ => asked.1 == events::asking(task::TaskView::Idle),
                }
            }
        }),
{
    assert(page.updated(message::MessageView::Discover(id), facts) == page.discover(id));
    if events::means(page.calendar_config.sources, id, i) {
        events::lemma_found(page.calendar_config.sources, id, i);
    }
}

/// A source that a sign-in saved is opened in the form, and its calendars are asked for at its own
/// address, with its own certificate and the token of the sign-in.
pub proof fn saved_source_is_opened_and_discovered(
    page: page::PageView,
    id: Seq<char>,
    access_token: Seq<char>,
    i: int,
    facts: update::FactsView,
)
    ensures
        ({
            let opened = page.updated(
                message::MessageView::OidcSavedAndDiscover(id, access_token),
                facts,
            );
            &&& opened.0 == page.updated(message::MessageView::EditSource(id), facts).0.updated(
                message::MessageView::Discover(id),
                facts,
            ).0
            &&& events::means(page.calendar_config.sources, id, i) ==> {
                let source = page.calendar_config.sources[i];
                match source.source_type {
                    config::SourceTypeView::CalDav { url, .. } => opened.1 == events::asking(
                        task::TaskView::DiscoverWithCredentials {
                            source_id: source.id,
                            url,
                            credentials: discovery::InlineCredentialsView::Bearer {
                                token: access_token,
                            },
                            ca_cert_path: source.ca_cert_path,
                        },
                    ),
                    _ => opened.1 == events::asking(task::TaskView::Idle),
                }
            }
            &&& events::means_none(page.calendar_config.sources, id) ==> opened.1
                == events::asking(task::TaskView::Idle)
        }),
{
    let edited = page.editing_source(id, facts.now_nanos);
    assert(page.updated(message::MessageView::EditSource(id), facts).0 == edited);
    assert(edited.updated(message::MessageView::Discover(id), facts) == edited.discover(id));
    assert(page.updated(message::MessageView::OidcSavedAndDiscover(id, access_token), facts)
        == page.saved_and_discover(id, access_token, facts.now_nanos));
    if events::means(page.calendar_config.sources, id, i) {
        events::lemma_found(page.calendar_config.sources, id, i);
    }
    if events::means_none(page.calendar_config.sources, id) {
        events::lemma_not_found(page.calendar_config.sources, id);
    }
}

/// A discovery for the form goes to the address in the form, with the certificate in it and with
/// what was typed for the authentication that the form stands on. After a sign-in the token is used
/// that was stored under the id of the form; before it there is no request, and the user is told
/// to sign in first.
pub proof fn discovery_for_the_form_uses_what_was_typed(
    page: page::PageView,
    facts: update::FactsView,
)
    requires
        page.form_valid(facts.form_path_exists),
        page.form_source_type == 0,
    ensures
        ({
            let asked = page.updated(message::MessageView::FormDiscover, facts);
            let certificate = if saving::names_certificate(page) {
                Some(page.form_ca_cert_path)
            } else {
                None
            };
            let under_way = page::PageView {
                form_discovering: true,
                form_discovery_error: None,
                ..page
            };
            if page.form_auth_method == 3 && !page.form_oidc_logged_in {
                asked == (
                    page::PageView {
                        form_discovering: false,
                        form_discovery_error: Some(labels::TextView::Label(Label::OidcLoginFirst)),
                        ..page
                    },
                    events::asking(task::TaskView::Idle),
                )
            } else if page.form_auth_method == 3 {
                asked == (
                    under_way,
                    events::asking(
                        task::TaskView::DiscoverFormWithToken {
                            source_id: page.form_source_id,
                            url: page.form_url,
                            ca_cert_path: certificate,
                        },
                    ),
                )
            } else {
                &&& asked.0 == under_way
                &&& asked.1 == events::asking(asked.1.task)
                &&& asked.1.task matches task::TaskView::DiscoverForm {
                    url,
                    credentials,
                    ca_cert_path,
                } && url == page.form_url && ca_cert_path == certificate && match credentials {
                    discovery::InlineCredentialsView::Basic { username, password } =>
                        page.form_auth_method == 1 && username == page.form_username && password
                        == page.form_password,
                    discovery::InlineCredentialsView::Bearer { token } => page.form_auth_method == 2
                        && token == page.form_token,
                    discovery::InlineCredentialsView::Anonymous => page.form_auth_method != 1
                        && page.form_auth_method != 2,
                }
            }
        }),
{
    assert(page.updated(message::MessageView::FormDiscover, facts) == page.form_discover(facts));
}

/// A discovery for the form that is not valid, or for a source without calendars of its own, does
/// nothing.
pub proof fn form_without_calendars_discovers_nothing(
    page: page::PageView,
    facts: update::FactsView,
)
    requires
        !page.form_valid(facts.form_path_exists) || page.form_source_type != 0,
    ensures
        page.updated(message::MessageView::FormDiscover, facts) == (
            page,
            events::asking(task::TaskView::Idle),
        ),
{
}

/// What a discovery for the form found is shown as it is, in the place of what was there, and an
/// earlier error is gone. What it failed with is shown too, and the calendars stay.
pub proof fn form_shows_what_was_discovered(
    page: page::PageView,
    calendars: Seq<config::CalDavCalendarView>,
    error: Seq<char>,
    facts: update::FactsView,
)
    ensures
        page.updated(message::MessageView::FormDiscovered(calendars), facts) == (
            page::PageView {
                form_discovered_calendars: calendars,
                form_discovering: false,
                form_discovery_error: None,
                ..page
            },
            events::asking(task::TaskView::Idle),
        ),
        page.updated(message::MessageView::FormDiscoverError(error), facts) == (
            page::PageView {
                form_discovering: false,
                form_discovery_error: Some(labels::TextView::Plain(error)),
                ..page
            },
            events::asking(task::TaskView::Idle),
        ),
{
}

/// Whether one text stands in another.
pub open spec fn stands_in(part: Seq<char>, whole: Seq<char>) -> bool {
    exists|at: int|
        0 <= at <= whole.len() - part.len() && #[trigger] whole.subrange(at, at + part.len())
            == part
}

/// What stands in a part of a text stands in the text.
proof fn lemma_expired_is_told(error: Seq<char>)
    ensures
        text::holds_text(error, "expired"@) <==> stands_in("expired"@, error),
        text::holds_text(error, "Authentication expired"@) ==> text::holds_text(error, "expired"@),
{
    reveal_strlit("expired");
    reveal_strlit("Authentication expired");
    let short = "expired"@;
    let long = "Authentication expired"@;
    if text::holds_text(error, short) {
        let at = choose|at: int| text::stands_at(error, short, at);
        assert(error.subrange(at, at + short.len()) == short);
    }
    if stands_in(short, error) {
        let at = choose|at: int|
            0 <= at <= error.len() - short.len() && #[trigger] error.subrange(at, at + short.len())
                == short;
        assert(text::stands_at(error, short, at));
    }
    if text::holds_text(error, long) {
        let at = choose|at: int| text::stands_at(error, long, at);
        let found = error.subrange(at, at + long.len());
        assert(found == long);
        assert(long.subrange(15, 22) =~= short);
        assert(error.subrange(at + 15, at + 22) =~= found.subrange(15, 22));
        assert(text::stands_at(error, short, at + 15));
    }
}

/// A discovery that failed leads to a refresh of the tokens exactly if the error tells that they
/// expired, the source signs in through OIDC, and no refresh was tried yet. That is then
/// remembered. In any other case the error is shown. Either way the discovery is over.
pub proof fn failed_discovery_refreshes_or_is_shown(
    page: page::PageView,
    id: Seq<char>,
    error: Seq<char>,
    i: int,
    facts: update::FactsView,
)
    requires
        events::means(page.calendar_config.sources, id, i),
    ensures
        ({
            let failed = page.updated(message::MessageView::DiscoverError(id, error), facts);
            let oidc = events::auth_in(
                page.calendar_config.sources[i].source_type,
            ) matches Some(config::AuthMethodView::Oidc { .. });
            if stands_in("expired"@, error) && oidc && !page.refresh_attempted.contains(id) {
                failed == (
                    page::PageView {
                        discovering_source: None,
                        refresh_attempted: page.refresh_attempted.insert(id),
                        ..page
                    },
                    page.updated(message::MessageView::OidcRefresh(id), facts).1,
                )
            } else {
                failed == (
                    page::PageView {
                        discovering_source: None,
                        discovery_error: Some(labels::TextView::Plain(error)),
                        ..page
                    },
                    events::asking(task::TaskView::Idle),
                )
            }
        }),
{
    events::lemma_found(page.calendar_config.sources, id, i);
    lemma_expired_is_told(error);
    assert(page.updated(message::MessageView::DiscoverError(id, error), facts)
        == page.discover_failed(id, error));
    assert(page.updated(message::MessageView::OidcRefresh(id), facts).1 == page.refresh(id));
}

/// A discovery that failed for a source that is not there is shown.
pub proof fn failed_discovery_of_nothing_is_shown(
    page: page::PageView,
    id: Seq<char>,
    error: Seq<char>,
    facts: update::FactsView,
)
    requires
        events::means_none(page.calendar_config.sources, id),
    ensures
        page.updated(message::MessageView::DiscoverError(id, error), facts) == (
            page::PageView {
                discovering_source: None,
                discovery_error: Some(labels::TextView::Plain(error)),
                ..page
            },
            events::asking(task::TaskView::Idle),
        ),
{
    events::lemma_not_found(page.calendar_config.sources, id);
    assert(page.updated(message::MessageView::DiscoverError(id, error), facts)
        == page.discover_failed(id, error));
}

// ── Sign-in and refresh ──────────────────────────────────────────────────

/// A sign-in and a refresh go to the issuer of the source, as the client that the source names. A
/// client secret is loaded exactly if the source has one, and a sign-in asks for the source's
/// scopes. A source that does not sign in through OIDC is not asked to.
pub proof fn sign_in_uses_the_sources_own_settings(
    page: page::PageView,
    id: Seq<char>,
    i: int,
    facts: update::FactsView,
)
    requires
        events::means(page.calendar_config.sources, id, i),
    ensures
        ({
            let sign_in = page.updated(message::MessageView::OidcLogin(id), facts);
            let refresh = page.updated(message::MessageView::OidcRefresh(id), facts);
            &&& sign_in.0 == page
            &&& refresh.0 == page
            &&& match events::auth_in(page.calendar_config.sources[i].source_type) {
                Some(
                    config::AuthMethodView::Oidc {
                        issuer_url,
                        client_id,
                        has_client_secret,
                        scopes,
                        ..
                    },
                ) => {
                    &&& sign_in.1 == events::asking(
                        task::TaskView::Login {
                            source_id: id,
                            issuer_url,
                            client_id,
                            needs_secret: has_client_secret,
                            scopes,
                        },
                    )
                    &&& refresh.1 == events::asking(
                        task::TaskView::Refresh {
                            source_id: id,
                            issuer_url,
                            client_id,
                            needs_secret: has_client_secret,
                        },
                    )
                },
                _ => {
                    &&& sign_in.1 == events::asking(task::TaskView::Idle)
                    &&& refresh.1 == events::asking(task::TaskView::Idle)
                },
            }
        }),
{
    events::lemma_found(page.calendar_config.sources, id, i);
}

/// A sign-in for the form goes to the issuer in the form, as the client in the form, with the
/// client secret that was typed, if one was, and for the scopes in the form.
pub proof fn sign_in_for_the_form_uses_what_was_typed(
    page: page::PageView,
    error: Seq<char>,
    facts: update::FactsView,
)
    ensures
        ({
            let asked = page.updated(message::MessageView::FormOidcLogin, facts);
            &&& asked.0 == page
            &&& asked.1 == events::asking(asked.1.task)
            &&& asked.1.task matches task::TaskView::FormLogin {
                issuer_url,
                client_id,
                client_secret,
                scopes,
            } && issuer_url == page.form_oidc_issuer && client_id == page.form_oidc_client_id
                && scopes == page::scope_list(page.form_oidc_scopes) && match client_secret {
                Some(secret) => secret == page.form_oidc_client_secret && secret.len() > 0,
                None => page.form_oidc_client_secret.len() == 0,
            }
        }),
        page.updated(message::MessageView::FormOidcLoginResult(Err(error)), facts) == (
            page::PageView {
                form_discovery_error: Some(labels::TextView::Plain(error)),
                ..page
            },
            events::asking(task::TaskView::Idle),
        ),
{
}

/// New tokens of a refresh replace the old ones: the access token is stored, and so is the refresh
/// token if the provider gave a new one, each under the id of the source and its own kind, and
/// nothing else. Then the source is discovered again. The configuration is not touched.
pub proof fn refresh_stores_every_new_token(
    page: page::PageView,
    id: Seq<char>,
    access_token: Seq<char>,
    refresh_token: Option<Seq<char>>,
    facts: update::FactsView,
)
    ensures
        ({
            let refreshed = page.updated(
                message::MessageView::OidcRefreshResult(Ok((id, access_token, refresh_token))),
                facts,
            );
            &&& refreshed.0 == page::PageView { discovery_error: None, ..page }
            &&& refreshed.1 == events::asking(refreshed.1.task)
            &&& refreshed.1.task matches task::TaskView::Keyring { clear, writes, done }
                && clear is None && saving::stores_tokens(writes, id, access_token, refresh_token)
                && done == message::MessageView::Discover(id) && writes == (match refresh_token {
                Some(t) => seq![
                    task::SecretWriteView {
                        source_id: id,
                        kind: SecretKind::OidcAccessToken,
                        secret: access_token,
                    },
                    task::SecretWriteView {
                        source_id: id,
                        kind: SecretKind::OidcRefreshToken,
                        secret: t,
                    },
                ],
                None => seq![
                    task::SecretWriteView {
                        source_id: id,
                        kind: SecretKind::OidcAccessToken,
                        secret: access_token,
                    },
                ],
            })
        }),
{
    let refreshed = page.refreshed(id, access_token, refresh_token);
    assert(page.updated(
        message::MessageView::OidcRefreshResult(Ok((id, access_token, refresh_token))),
        facts,
    ) == refreshed);
    if let Some(t) = refresh_token {
        assert(refreshed.1.task->writes =~= seq![
            events::write(id, SecretKind::OidcAccessToken, access_token),
            events::write(id, SecretKind::OidcRefreshToken, t),
        ]);
    }
}

/// A sign-in for a saved source stores its tokens, each under the id of the source and its own
/// kind, and nothing else. The source then counts as one that has a token, may be refreshed once
/// more, and is discovered next. Nothing else changes in the list.
pub proof fn sign_in_stores_every_token(
    page: page::PageView,
    id: Seq<char>,
    access_token: Seq<char>,
    refresh_token: Option<Seq<char>>,
    i: int,
    facts: update::FactsView,
)
    ensures
        ({
            let signed_in = page.updated(
                message::MessageView::OidcResult(Ok((id, access_token, refresh_token))),
                facts,
            );
            let before = page.calendar_config.sources;
            let after = signed_in.0.calendar_config.sources;
            &&& signed_in.0 == page::PageView {
                refresh_attempted: page.refresh_attempted.remove(id),
                discovery_error: None,
                ..events::relisted(page, after)
            }
            &&& signed_in.1 == events::saving(signed_in.1.task)
            &&& signed_in.1.task matches task::TaskView::Keyring { clear, writes, done }
                && clear is None && saving::stores_tokens(writes, id, access_token, refresh_token)
                && done == message::MessageView::Discover(id) && writes == (match refresh_token {
                Some(t) => seq![
                    task::SecretWriteView {
                        source_id: id,
                        kind: SecretKind::OidcAccessToken,
                        secret: access_token,
                    },
                    task::SecretWriteView {
                        source_id: id,
                        kind: SecretKind::OidcRefreshToken,
                        secret: t,
                    },
                ],
                None => seq![
                    task::SecretWriteView {
                        source_id: id,
                        kind: SecretKind::OidcAccessToken,
                        secret: access_token,
                    },
                ],
            })
            &&& events::means_none(before, id) ==> after == before
            &&& events::means(before, id, i) ==> after == before.update(i, after[i])
                && has_signed_in(before[i], after[i])
        }),
{
    let before = page.calendar_config.sources;
    let signed_in = page.source_signed_in(id, access_token, refresh_token);
    assert(page.updated(
        message::MessageView::OidcResult(Ok((id, access_token, refresh_token))),
        facts,
    ) == signed_in);
    if let Some(t) = refresh_token {
        assert(signed_in.1.task->writes =~= seq![
            events::write(id, SecretKind::OidcAccessToken, access_token),
            events::write(id, SecretKind::OidcRefreshToken, t),
        ]);
    }
    if events::means(before, id, i) {
        events::lemma_found(before, id, i);
        assert(signed_in.0.calendar_config.sources =~= before.update(
            i,
            signed_in.0.calendar_config.sources[i],
        ));
    }
    if events::means_none(before, id) {
        events::lemma_not_found(before, id);
    }
}

/// Whether a source is the same as before, but that it has a token if it signs in through OIDC.
pub open spec fn has_signed_in(
    before: config::SourceConfigView,
    after: config::SourceConfigView,
) -> bool {
    &&& after == config::SourceConfigView { source_type: after.source_type, ..before }
    &&& match (before.source_type, after.source_type) {
        (
            config::SourceTypeView::CalDav { url, auth, calendars },
            config::SourceTypeView::CalDav { url: new_url, auth: new_auth, calendars: kept },
        ) => new_url == url && kept == calendars && auth_has_signed_in(auth, new_auth),
        (
            config::SourceTypeView::IcsUrl { url, auth },
            config::SourceTypeView::IcsUrl { url: new_url, auth: new_auth },
        ) => new_url == url && auth_has_signed_in(auth, new_auth),
        _ => before.source_type is IcsFile && after.source_type == before.source_type,
    }
}

/// Whether an authentication is the same as before, but that it has a token if it is OIDC.
pub open spec fn auth_has_signed_in(
    before: config::AuthMethodView,
    after: config::AuthMethodView,
) -> bool {
    match before {
        config::AuthMethodView::Oidc { issuer_url, client_id, has_client_secret, scopes, .. } =>
            after matches config::AuthMethodView::Oidc {
            issuer_url: new_issuer,
            client_id: new_client,
            has_token,
            has_client_secret: new_has_secret,
            scopes: new_scopes,
        } && new_issuer == issuer_url && new_client == client_id && has_token && new_has_secret
            == has_client_secret && new_scopes == scopes,
        _ => after == before,
    }
}

/// A sign-in for a saved source that failed changes nothing.
pub proof fn failed_sign_in_changes_nothing(
    page: page::PageView,
    error: Seq<char>,
    facts: update::FactsView,
)
    ensures
        page.updated(message::MessageView::OidcResult(Err(error)), facts) == (
            page,
            events::asking(task::TaskView::Idle),
        ),
{
}

/// A refresh that failed leads to the sign-in of the source that the report begins with, up to its
/// first colon, and the user reads why. A report that begins with no id is shown itself.
pub proof fn failed_refresh_leads_to_a_sign_in(
    page: page::PageView,
    report: Seq<char>,
    facts: update::FactsView,
)
    ensures
        ({
            let failed = page.updated(message::MessageView::OidcRefreshResult(Err(report)), facts);
            let id = text::trimmed(text::split_on(report, ':')[0]);
            if id.len() > 0 {
                failed == (
                    page::PageView {
                        discovery_error: Some(labels::TextView::Label(Label::AuthExpiredReauth)),
                        ..page
                    },
                    page.updated(message::MessageView::OidcLogin(id), facts).1,
                )
            } else {
                failed == (
                    page::PageView {
                        discovery_error: Some(labels::TextView::Plain(report)),
                        ..page
                    },
                    events::asking(task::TaskView::Idle),
                )
            }
        }),
{
    assert(page.updated(message::MessageView::OidcRefreshResult(Err(report)), facts)
        == page.refresh_failed(report));
    let id = text::trimmed(text::split_on(report, ':')[0]);
    assert(page.updated(message::MessageView::OidcLogin(id), facts).1 == page.login(id));
}

} // verus!
