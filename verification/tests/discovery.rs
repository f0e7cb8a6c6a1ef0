//! Discovery of calendars.

use calendar_settings::config::{AuthMethod, CalDavCalendar};
use calendar_settings::discovery::{
    apply_auth, discover_calendars, judge_status, propfind, AuthStep, DiscoverAction,
    DiscoverEvent, DiscoveryError, InlineCredentials, Lookup, PropfindAction, PropfindBody,
    PropfindEvent, PropfindRequest,
};
use calendar_settings::secrets::SecretKind;

fn oidc(has_token: bool) -> AuthMethod {
    AuthMethod::Oidc {
        issuer_url: "https://id".to_string(),
        client_id: "c".to_string(),
        has_token,
        has_client_secret: false,
        scopes: Vec::new(),
    }
}

fn basic() -> AuthMethod {
    AuthMethod::Basic { username: "me".to_string() }
}

fn other(message: &str) -> DiscoveryError {
    DiscoveryError::Other(message.to_string())
}

fn secret(s: &str) -> Option<Result<Option<String>, String>> {
    Some(Ok(Some(s.to_string())))
}

fn bearer(token: &str) -> AuthStep {
    AuthStep::Ready(InlineCredentials::Bearer { token: token.to_string() })
}

#[test]
fn credentials_come_from_the_keyring() {
    assert_eq!(
        apply_auth(&AuthMethod::Anonymous, "s", None),
        AuthStep::Ready(InlineCredentials::Anonymous)
    );
    assert_eq!(apply_auth(&basic(), "s", None), AuthStep::Load(SecretKind::Password));
    assert_eq!(
        apply_auth(&basic(), "s", secret("p")),
        AuthStep::Ready(InlineCredentials::Basic {
            username: "me".to_string(),
            password: "p".to_string()
        })
    );
    assert_eq!(
        apply_auth(&AuthMethod::Bearer, "s", None),
        AuthStep::Load(SecretKind::BearerToken)
    );
    assert_eq!(apply_auth(&AuthMethod::Bearer, "s", secret("t")), bearer("t"));
    assert_eq!(apply_auth(&oidc(true), "s", None), AuthStep::Load(SecretKind::OidcAccessToken));
    assert_eq!(apply_auth(&oidc(true), "s", secret("t")), bearer("t"));
}

#[test]
fn missing_credentials() {
    let expired = || AuthStep::Fail(DiscoveryError::AuthExpired("s".to_string()));
    assert_eq!(
        apply_auth(&basic(), "s", Some(Ok(None))),
        AuthStep::Ready(InlineCredentials::Basic {
            username: "me".to_string(),
            password: String::new()
        })
    );
    assert_eq!(
        apply_auth(&AuthMethod::Bearer, "s", Some(Ok(None))),
        AuthStep::Fail(other("Bearer token not found in keyring"))
    );
    assert_eq!(apply_auth(&oidc(true), "s", Some(Ok(None))), expired());
    assert_eq!(apply_auth(&oidc(false), "s", None), expired());
    let why = || Some(Err("why".to_string()));
    assert_eq!(
        apply_auth(&basic(), "s", why()),
        AuthStep::Fail(other("Failed to load password from keyring: why"))
    );
    assert_eq!(
        apply_auth(&AuthMethod::Bearer, "s", why()),
        AuthStep::Fail(other("Failed to load bearer token from keyring: why"))
    );
    assert_eq!(
        apply_auth(&oidc(true), "s", why()),
        AuthStep::Fail(other("Failed to load OIDC token from keyring: why"))
    );
}

fn ask(auth: &AuthMethod, event: PropfindEvent) -> PropfindAction {
    propfind("https://dav", "1", PropfindBody::Calendars, auth, "s", event)
}

#[test]
fn request_is_sent_with_its_credentials() {
    let request = |credentials| {
        PropfindAction::Send(PropfindRequest {
            method: "PROPFIND",
            url: "https://dav".to_string(),
            depth: "1".to_string(),
            content_type: "application/xml; charset=utf-8",
            body: PropfindBody::Calendars,
            credentials,
        })
    };
    assert_eq!(
        ask(&AuthMethod::Anonymous, PropfindEvent::Started),
        request(InlineCredentials::Anonymous)
    );
    assert_eq!(
        ask(&basic(), PropfindEvent::Started),
        PropfindAction::LoadSecret(SecretKind::Password)
    );
    assert_eq!(
        ask(&basic(), PropfindEvent::SecretLoaded(Ok(Some("p".to_string())))),
        request(InlineCredentials::Basic { username: "me".to_string(), password: "p".to_string() })
    );
    assert_eq!(
        ask(&oidc(false), PropfindEvent::Started),
        PropfindAction::Done(Err(DiscoveryError::AuthExpired("s".to_string())))
    );
}

#[test]
fn responses_are_judged() {
    let auth = AuthMethod::Anonymous;
    assert_eq!(ask(&auth, PropfindEvent::Sent(Ok(207))), PropfindAction::ReadBody);
    assert_eq!(ask(&auth, PropfindEvent::Sent(Ok(200))), PropfindAction::ReadBody);
    assert_eq!(
        ask(&auth, PropfindEvent::Sent(Ok(401))),
        PropfindAction::Done(Err(DiscoveryError::AuthExpired("s".to_string())))
    );
    assert_eq!(
        ask(&auth, PropfindEvent::Sent(Ok(404))),
        PropfindAction::Done(Err(other("PROPFIND to https://dav returned status 404 Not Found")))
    );
    for code in [100_u16, 199, 300, 403, 599, 999] {
        let words = reqwest::StatusCode::from_u16(code).unwrap().to_string();
        assert_eq!(
            ask(&auth, PropfindEvent::Sent(Ok(code))),
            PropfindAction::Done(Err(other(&format!(
                "PROPFIND to https://dav returned status {words}"
            ))))
        );
    }
    assert_eq!(
        judge_status("u", "s", 500, "in words"),
        PropfindAction::Done(Err(other("PROPFIND to u returned status in words")))
    );
    assert_eq!(
        ask(&auth, PropfindEvent::Sent(Err("why".to_string()))),
        PropfindAction::Done(Err(other("PROPFIND request to https://dav failed: why")))
    );
    assert_eq!(
        ask(&auth, PropfindEvent::BodyRead(Ok("<x/>".to_string()))),
        PropfindAction::Done(Ok("<x/>".to_string()))
    );
    assert_eq!(
        ask(&auth, PropfindEvent::BodyRead(Err("why".to_string()))),
        PropfindAction::Done(Err(other("Failed to read PROPFIND response: why")))
    );
}

fn discover(event: DiscoverEvent) -> DiscoverAction {
    discover_calendars("https://dav//", &Some("/ca".to_string()), event)
}

#[test]
fn discovery_asks_three_questions() {
    let base = || "https://dav".to_string();
    assert_eq!(
        discover(DiscoverEvent::Started),
        DiscoverAction::GetClient { ca_cert_path: Some("/ca".to_string()) }
    );
    assert_eq!(
        discover(DiscoverEvent::ClientReady(Ok(()))),
        DiscoverAction::Propfind { url: base(), depth: "0", body: PropfindBody::Principal }
    );
    for (lookup, tag) in [
        (Lookup::Principal, "current-user-principal"),
        (Lookup::HomeSet, "calendar-home-set"),
    ] {
        assert_eq!(
            discover(DiscoverEvent::Answered(lookup, Ok("xml".to_string()))),
            DiscoverAction::ExtractInner { lookup, xml: "xml".to_string(), tag }
        );
        assert_eq!(
            discover(DiscoverEvent::BlockExtracted(lookup, Some("block".to_string()))),
            DiscoverAction::ExtractText { lookup, xml: "block".to_string(), tag: "href" }
        );
        assert_eq!(
            discover(DiscoverEvent::HrefExtracted(lookup, Some("/p".to_string()))),
            DiscoverAction::Resolve { lookup, base: base(), href: "/p".to_string() }
        );
        // What a response does not say counts as empty.
        assert_eq!(
            discover(DiscoverEvent::BlockExtracted(lookup, None)),
            DiscoverAction::Resolve { lookup, base: base(), href: String::new() }
        );
        assert_eq!(
            discover(DiscoverEvent::HrefExtracted(lookup, None)),
            DiscoverAction::Resolve { lookup, base: base(), href: String::new() }
        );
    }
    assert_eq!(
        discover(DiscoverEvent::Resolved(Lookup::Principal, "https://dav/p".to_string())),
        DiscoverAction::Propfind {
            url: "https://dav/p".to_string(),
            depth: "0",
            body: PropfindBody::HomeSet
        }
    );
    assert_eq!(
        discover(DiscoverEvent::Resolved(Lookup::HomeSet, "https://dav/h".to_string())),
        DiscoverAction::Propfind {
            url: "https://dav/h".to_string(),
            depth: "1",
            body: PropfindBody::Calendars
        }
    );
    assert_eq!(
        discover(DiscoverEvent::Listed(Ok("xml".to_string()))),
        DiscoverAction::ParseCalendars { xml: "xml".to_string(), base: base() }
    );
    let calendars = || {
        vec![CalDavCalendar {
            href: "/c".to_string(),
            display_name: "C".to_string(),
            color: String::new(),
            enabled: true,
        }]
    };
    assert_eq!(discover(DiscoverEvent::Parsed(calendars())), DiscoverAction::Done(Ok(calendars())));
}

#[test]
fn discovery_ends_with_the_first_error() {
    let expired = || DiscoveryError::AuthExpired("s".to_string());
    for event in [
        DiscoverEvent::ClientReady(Err(expired())),
        DiscoverEvent::Answered(Lookup::Principal, Err(expired())),
        DiscoverEvent::Answered(Lookup::HomeSet, Err(expired())),
        DiscoverEvent::Listed(Err(expired())),
    ] {
        assert_eq!(discover(event), DiscoverAction::Done(Err(expired())));
    }
}
