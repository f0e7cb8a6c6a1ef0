//! What is saved of a form: the source, and the secrets that were typed.

use vstd::prelude::*;

use crate::config;
use crate::discovery;
use crate::laws::events;
use crate::message;
use crate::page;
use crate::secrets::SecretKind;
use crate::task;
use crate::text;
use crate::update;

verus! {

/// Whether an authentication is the one that the form stands on, with what was written for it.
pub open spec fn is_auth_of_form(
    page: page::PageView,
    auth: config::AuthMethodView,
    has_token: bool,
) -> bool {
    if page.form_auth_method == 1 {
        auth matches config::AuthMethodView::Basic { username } && username == page.form_username
    } else if page.form_auth_method == 2 {
        auth is Bearer
    } else if page.form_auth_method == 3 {
        auth matches config::AuthMethodView::Oidc {
            issuer_url,
            client_id,
            has_token: holds,
            has_client_secret,
            scopes,
        } && issuer_url == page.form_oidc_issuer && client_id == page.form_oidc_client_id && holds
            == has_token && (has_client_secret <==> page.form_oidc_client_secret.len() > 0)
            && scopes == page::scope_list(page.form_oidc_scopes)
    } else {
        auth is Anonymous
    }
}

/// Whether a type of source is the one that the form stands on, with its address and its
/// authentication, and with these calendars where it has calendars of its own.
pub open spec fn is_type_of_form(
    page: page::PageView,
    source_type: config::SourceTypeView,
    has_token: bool,
    calendars: Seq<config::CalDavCalendarView>,
) -> bool {
    if page.form_source_type == 0 {
        source_type matches config::SourceTypeView::CalDav { url, auth, calendars: own } && url
            == page.form_url && own == calendars && is_auth_of_form(page, auth, has_token)
    } else if page.form_source_type == 1 {
        source_type matches config::SourceTypeView::IcsUrl { url, auth } && url == page.form_url
            && is_auth_of_form(page, auth, has_token)
    } else {
        source_type matches config::SourceTypeView::IcsFile { path } && path == page.form_url
    }
}

/// Whether the user wrote a certificate path in the form.
pub open spec fn names_certificate(page: page::PageView) -> bool {
    text::trimmed(page.form_ca_cert_path).len() > 0
}

/// Saving a new source puts at the end of the list what the form says, field for field, with the
/// calendars as the form shows them: address, name, color, and whether each is on. The form closes.
pub proof fn new_source_is_what_the_form_says(page: page::PageView, facts: update::FactsView)
    requires
        page.form_valid(facts.form_path_exists),
    ensures
        ({
            let before = page.calendar_config.sources;
            let saved = page.updated(message::MessageView::SaveSource, facts).0;
            let new = saved.calendar_config.sources.last();
            &&& saved.calendar_config.sources == before.push(new)
            &&& events::same_settings(saved.calendar_config, page.calendar_config)
            &&& events::same_in_list(saved, page)
            &&& !saved.editing
            &&& events::form_is_blank(saved, facts.now_nanos)
            &&& new.name == page.form_name
            &&& new.color == page.form_color
            &&& new.enabled == facts.fresh.enabled
            &&& new.ca_cert_path == if names_certificate(page) {
                Some(page.form_ca_cert_path)
            } else {
                facts.fresh.ca_cert_path
            }
            &&& is_type_of_form(
                page,
                new.source_type,
                page.form_oidc_logged_in,
                page.form_discovered_calendars,
            )
            &&& page.form_oidc_logged_in ==> new.id == page.form_source_id
            &&& !page.form_oidc_logged_in ==> new.id == facts.fresh.id
        }),
{
    let saved = page.save_source(facts);
    assert(page.updated(message::MessageView::SaveSource, facts) == saved);
    assert(saved.0.sources().last() == page.form_source(
        facts.fresh,
        page.id_to_save(facts.fresh),
        page.type_to_save(),
    ));
}

/// Saving a new source stores what was typed for its authentication, under its own id, and nothing
/// else: the password, the bearer token, or the client secret, which after a sign-in is there
/// already. Nothing is deleted, and the configuration is saved.
pub proof fn new_source_stores_its_secret(page: page::PageView, facts: update::FactsView)
    requires
        page.form_valid(facts.form_path_exists),
    ensures
        ({
            let saved = page.updated(message::MessageView::SaveSource, facts);
            let id = saved.0.calendar_config.sources.last().id;
            let method = page.form_auth_method;
            saved.1 == events::saving(
                task::TaskView::Keyring {
                    clear: None,
                    writes: if method == 1 {
                        seq![events::write(id, SecretKind::Password, page.form_password)]
                    } else if method == 2 {
                        seq![events::write(id, SecretKind::BearerToken, page.form_token)]
                    } else if method == 3 && page.form_oidc_client_secret.len() > 0
                        && !page.form_oidc_logged_in {
                        seq![
                            events::write(
                                id,
                                SecretKind::OidcClientSecret,
                                page.form_oidc_client_secret,
                            ),
                        ]
                    } else {
                        Seq::empty()
                    },
                    done: message::MessageView::ConfigReload,
                },
            )
        }),
{
    let saved = page.save_source(facts);
    assert(page.updated(message::MessageView::SaveSource, facts) == saved);
}

/// Saving an edit makes of the source what the form says, field for field. What the form does not
/// show stays: the id, whether the source is on, its calendars, and its token. No other source
/// changes, and the form closes.
pub proof fn edited_source_is_what_the_form_says(
    page: page::PageView,
    id: Seq<char>,
    i: int,
    facts: update::FactsView,
)
    requires
        page.editing_source_id == Some(id),
        page.form_valid(facts.form_path_exists),
        events::means(page.calendar_config.sources, id, i),
    ensures
        ({
            let before = page.calendar_config.sources;
            let saved = page.updated(message::MessageView::SaveEditSource, facts).0;
            let new = saved.calendar_config.sources[i];
            &&& saved.calendar_config.sources == before.update(i, new)
            &&& events::same_settings(saved.calendar_config, page.calendar_config)
            &&& events::same_in_list(saved, page)
            &&& !saved.editing
            &&& events::form_is_blank(saved, facts.now_nanos)
            &&& new.id == id
            &&& new.enabled == before[i].enabled
            &&& new.name == page.form_name
            &&& new.color == page.form_color
            &&& new.ca_cert_path == if names_certificate(page) {
                Some(page.form_ca_cert_path)
            } else {
                None
            }
            &&& is_type_of_form(
                page,
                new.source_type,
                events::auth_in(before[i].source_type) matches Some(
                    config::AuthMethodView::Oidc { has_token, .. },
                ) && has_token,
                match before[i].source_type {
                    config::SourceTypeView::CalDav { calendars, .. } => calendars,
                    _ => Seq::empty(),
                },
            )
        }),
{
    let before = page.calendar_config.sources;
    events::lemma_found(before, id, i);
    let saved = page.save_edit_source(facts);
    assert(page.updated(message::MessageView::SaveEditSource, facts) == saved);
    assert(saved.0.calendar_config.sources =~= before.update(
        i,
        saved.0.calendar_config.sources[i],
    ));
}

/// Saving an edit stores a secret only if one was typed for the authentication that the form stands
/// on: that very text, under the id of the source and the kind that belongs to the authentication.
pub proof fn edit_stores_what_was_typed(
    page: page::PageView,
    id: Seq<char>,
    facts: update::FactsView,
)
    requires
        page.editing_source_id == Some(id),
        page.form_valid(facts.form_path_exists),
    ensures
        ({
            let method = page.form_auth_method;
            let saved = page.updated(message::MessageView::SaveEditSource, facts).1;
            &&& saved.task matches task::TaskView::Keyring { clear, writes, done } && done
                == message::MessageView::ConfigReload && (clear is Some ==> clear == Some(id))
                && writes == (if method == 1 && page.form_password.len() > 0 {
                seq![events::write(id, SecretKind::Password, page.form_password)]
            } else if method == 2 && page.form_token.len() > 0 {
                seq![events::write(id, SecretKind::BearerToken, page.form_token)]
            } else if method == 3 && page.form_oidc_client_secret.len() > 0 {
                seq![
                    events::write(id, SecretKind::OidcClientSecret, page.form_oidc_client_secret),
                ]
            } else {
                Seq::empty()
            })
            &&& saved == events::saving(saved.task)
        }),
{
    let saved = page.save_edit_source(facts);
    assert(page.updated(message::MessageView::SaveEditSource, facts) == saved);
}

/// Whether a request of a source with this authentication looks for the secret that a write stores,
/// and sends it once it is loaded, or nothing is stored.
pub open spec fn requests_send_it(
    source: config::SourceConfigView,
    writes: Seq<task::SecretWriteView>,
) -> bool {
    events::auth_in(source.source_type) matches Some(auth) ==> writes.len() <= 1 && (writes.len()
        == 1 ==> writes[0].source_id == source.id && match auth {
        config::AuthMethodView::Anonymous => false,
        config::AuthMethodView::Basic { username } => {
            let kind = writes[0].kind;
            let secret = writes[0].secret;
            &&& discovery::auth_step(auth, source.id, None) == discovery::AuthStepView::Load(kind)
            &&& discovery::auth_step(auth, source.id, Some(Ok(Some(secret))))
                == discovery::AuthStepView::Ready(
                discovery::InlineCredentialsView::Basic { username, password: secret },
            )
        },
        config::AuthMethodView::Bearer => {
            let kind = writes[0].kind;
            let secret = writes[0].secret;
            &&& discovery::auth_step(auth, source.id, None) == discovery::AuthStepView::Load(kind)
            &&& discovery::auth_step(auth, source.id, Some(Ok(Some(secret))))
                == discovery::AuthStepView::Ready(
                discovery::InlineCredentialsView::Bearer { token: secret },
            )
        },
        config::AuthMethodView::Oidc { .. } => writes[0].kind == SecretKind::OidcClientSecret,
    })
}

/// What is typed as a password or token is what the requests of the saved source send: it is stored
/// under the id of the source and the kind that a request loads, and is sent once it is loaded.
pub proof fn typed_secret_is_the_one_that_is_sent(
    page: page::PageView,
    id: Seq<char>,
    i: int,
    facts: update::FactsView,
)
    requires
        page.form_valid(facts.form_path_exists),
    ensures
        ({
            let saved = page.updated(message::MessageView::SaveSource, facts);
            saved.1.task matches task::TaskView::Keyring { writes, .. } && requests_send_it(
                saved.0.calendar_config.sources.last(),
                writes,
            )
        }),
        page.editing_source_id == Some(id) && events::means(page.calendar_config.sources, id, i)
            ==> ({
            let saved = page.updated(message::MessageView::SaveEditSource, facts);
            saved.1.task matches task::TaskView::Keyring { writes, .. } && requests_send_it(
                saved.0.calendar_config.sources[i],
                writes,
            )
        }),
{
    new_source_is_what_the_form_says(page, facts);
    new_source_stores_its_secret(page, facts);
    if page.editing_source_id == Some(id) && events::means(page.calendar_config.sources, id, i) {
        edited_source_is_what_the_form_says(page, id, i, facts);
        edit_stores_what_was_typed(page, id, facts);
    }
}

/// The old secrets of an edited source are deleted exactly if it proved who it was in a way that
/// has another number than the one that the form stands on.
pub proof fn edit_deletes_secrets_of_another_way(
    page: page::PageView,
    id: Seq<char>,
    i: int,
    facts: update::FactsView,
)
    requires
        page.editing_source_id == Some(id),
        page.form_valid(facts.form_path_exists),
        events::means(page.calendar_config.sources, id, i),
        page.form_auth_method < 256,
    ensures
        ({
            let number: int = match events::auth_in(page.calendar_config.sources[i].source_type) {
                Some(config::AuthMethodView::Basic { .. }) => 1,
                Some(config::AuthMethodView::Bearer) => 2,
                Some(config::AuthMethodView::Oidc { .. }) => 3,
                _ => 0,
            };
            page.updated(
                message::MessageView::SaveEditSource,
                facts,
            ).1.task matches task::TaskView::Keyring { clear, .. } && (clear == Some(id) <==> number
                != page.form_auth_method) && (clear is None <==> number == page.form_auth_method)
        }),
{
    events::lemma_found(page.calendar_config.sources, id, i);
    let saved = page.save_edit_source(facts);
    assert(page.updated(message::MessageView::SaveEditSource, facts) == saved);
}

/// An edit of a source that is no longer there changes no source, and deletes nothing. Without a
/// source to edit, or with a form that is not valid, saving an edit does nothing at all.
pub proof fn edit_of_nothing_changes_nothing(page: page::PageView, facts: update::FactsView)
    ensures
        page.editing_source_id matches Some(id) ==> page.form_valid(facts.form_path_exists)
            && events::means_none(page.calendar_config.sources, id) ==> {
            let saved = page.updated(message::MessageView::SaveEditSource, facts);
            &&& saved.0.calendar_config == page.calendar_config
            &&& saved.1.task matches task::TaskView::Keyring { clear, .. } && clear is None
        },
        page.editing_source_id is None ==> page.updated(
            message::MessageView::SaveEditSource,
            facts,
        ) == (page, events::asking(task::TaskView::Idle)),
{
    let saved = page.save_edit_source(facts);
    assert(page.updated(message::MessageView::SaveEditSource, facts) == saved);
    if let Some(id) = page.editing_source_id {
        if events::means_none(page.calendar_config.sources, id) {
            events::lemma_not_found(page.calendar_config.sources, id);
        }
    }
}

/// A sign-in with a complete form for a source with calendars of its own saves the source as the
/// form says, with a token and without calendars yet, under the id of the form. The form closes.
pub proof fn signed_in_source_is_what_the_form_says(
    page: page::PageView,
    access_token: Seq<char>,
    refresh_token: Option<Seq<char>>,
    facts: update::FactsView,
)
    requires
        page.form_valid(facts.form_path_exists),
        page.form_source_type == 0,
    ensures
        ({
            let saved = page.updated(
                message::MessageView::FormOidcLoginResult(Ok((access_token, refresh_token))),
                facts,
            ).0;
            let new = saved.calendar_config.sources.last();
            &&& saved.calendar_config.sources == page.calendar_config.sources.push(new)
            &&& events::same_settings(saved.calendar_config, page.calendar_config)
            &&& events::same_in_list(saved, page)
            &&& !saved.editing
            &&& events::form_is_blank(saved, facts.now_nanos)
            &&& new.id == page.form_source_id
            &&& new.name == page.form_name
            &&& new.color == page.form_color
            &&& new.enabled == facts.fresh.enabled
            &&& new.ca_cert_path == if names_certificate(page) {
                Some(page.form_ca_cert_path)
            } else {
                facts.fresh.ca_cert_path
            }
            &&& new.source_type matches config::SourceTypeView::CalDav { url, auth, calendars }
                && url == page.form_url && calendars.len() == 0 && is_auth_of_form(
                page::PageView { form_auth_method: 3, ..page },
                auth,
                true,
            )
        }),
{
    let event = message::MessageView::FormOidcLoginResult(Ok((access_token, refresh_token)));
    let saved = page.form_signed_in(access_token, refresh_token, facts);
    assert(page.updated(event, facts) == saved);
    assert(saved.0.calendar_config.sources.last().name == page.form_name);
}

/// The secrets of new tokens: the access token, and the refresh token if there is one, each under
/// its own kind.
pub open spec fn stores_tokens(
    writes: Seq<task::SecretWriteView>,
    id: Seq<char>,
    access_token: Seq<char>,
    refresh_token: Option<Seq<char>>,
) -> bool {
    &&& writes.len() == if refresh_token is Some {
        2nat
    } else {
        1nat
    }
    &&& writes[0] == events::write(id, SecretKind::OidcAccessToken, access_token)
    &&& refresh_token matches Some(t) ==> writes[1] == events::write(
        id,
        SecretKind::OidcRefreshToken,
        t,
    )
}

/// A sign-in for the form stores its tokens under the id of the form, each under its kind. With a
/// complete form for a source with calendars of its own, a client secret that was typed is stored
/// with them, and the source is opened and discovered next. Else the form stays as it is, knows of
/// the sign-in, and the discovery for the form comes next.
pub proof fn sign_in_for_the_form_stores_its_tokens(
    page: page::PageView,
    access_token: Seq<char>,
    refresh_token: Option<Seq<char>>,
    facts: update::FactsView,
)
    ensures
        ({
            let id = page.form_source_id;
            let complete = page.form_valid(facts.form_path_exists) && page.form_source_type == 0;
            let secret = page.form_oidc_client_secret;
            let signed_in = page.updated(
                message::MessageView::FormOidcLoginResult(Ok((access_token, refresh_token))),
                facts,
            );
            &&& signed_in.1.task matches task::TaskView::Keyring { clear, writes, done } && {
                &&& clear is None
                &&& complete && secret.len() > 0 ==> writes.len() > 0 && writes.last()
                    == events::write(id, SecretKind::OidcClientSecret, secret) && stores_tokens(
                    writes.drop_last(),
                    id,
                    access_token,
                    refresh_token,
                )
                &&& !(complete && secret.len() > 0) ==> stores_tokens(
                    writes,
                    id,
                    access_token,
                    refresh_token,
                )
                &&& complete ==> done == message::MessageView::OidcSavedAndDiscover(
                    id,
                    access_token,
                )
                &&& !complete ==> done == message::MessageView::FormDiscover
            }
            &&& complete ==> signed_in.1 == events::saving(signed_in.1.task)
            &&& !complete ==> signed_in.1 == events::asking(signed_in.1.task) && signed_in.0
                == page::PageView { form_oidc_logged_in: true, ..page }
        }),
{
    let event = message::MessageView::FormOidcLoginResult(Ok((access_token, refresh_token)));
    let signed_in = page.form_signed_in(access_token, refresh_token, facts);
    assert(page.updated(event, facts) == signed_in);
    let writes = signed_in.1.task->writes;
    let tokens = update::token_writes(page.form_source_id, access_token, refresh_token);
    assert(stores_tokens(tokens, page.form_source_id, access_token, refresh_token));
    if page.form_valid(facts.form_path_exists) && page.form_source_type == 0
        && page.form_oidc_client_secret.len() > 0 {
        assert(writes.drop_last() =~= tokens);
    }
}

} // verus!
