//! Whole runs of the protocols, against a world that answers as it is told.

use calendar_settings::auth::{
    oidc_login, wait_for_callback, AcceptReply, ExchangeReply, LoginAction, LoginEvent, OidcTokens,
    PkceMethod, ProviderReply, WaitAction, WaitEvent,
};
use calendar_settings::config::{AuthMethod, CalDavCalendar};
use calendar_settings::discovery::{
    discover_calendars, propfind, DiscoverAction, DiscoverEvent, DiscoveryError, Lookup,
    PropfindAction, PropfindBody, PropfindEvent,
};
use calendar_settings::secrets::{
    load_secret, store_secret, FoundItems, ItemRef, LoadAction, LoadEvent, SecretKind, StoreAction,
    StoreEvent,
};

/// Stores a secret in a keyring with this lock, and gives what was filed.
fn store(
    locked: Result<bool, String>,
    unlocked: Result<(), String>,
) -> (Option<Vec<u8>>, Result<(), String>) {
    let mut filed = None;
    let mut event = StoreEvent::Started;
    loop {
        event = match store_secret("id", SecretKind::Password, "pä", &event) {
            StoreAction::Connect => StoreEvent::Connected(Ok(())),
            StoreAction::OpenDefaultCollection => StoreEvent::Opened(Ok(())),
            StoreAction::ReadLock => StoreEvent::LockRead(locked.clone()),
            StoreAction::Unlock => StoreEvent::Unlocked(unlocked.clone()),
            StoreAction::CreateItem { secret, .. } => {
                filed = Some(secret);
                StoreEvent::Created(Ok(()))
            }
            StoreAction::Done(result) => return (filed, result),
        };
    }
}

#[test]
fn storing_ends() {
    let bytes = || Some("pä".as_bytes().to_vec());
    let no = || Err("no".to_string());
    assert_eq!(store(Ok(false), no()), (bytes(), Ok(())));
    assert_eq!(store(Ok(true), Ok(())), (bytes(), Ok(())));
    assert_eq!(
        store(Err("?".to_string()), no()),
        (None, Err("Failed to unlock keyring: no".to_string()))
    );
}

/// Loads a secret from a keyring in which a search finds this.
fn load(found: FoundItems) -> Result<Option<String>, String> {
    let mut event = LoadEvent::Started;
    loop {
        event = match load_secret("id", SecretKind::Password, event) {
            LoadAction::Connect => LoadEvent::Connected(Ok(())),
            LoadAction::Search { .. } => LoadEvent::Searched(Ok(found)),
            LoadAction::Unlock(_) => LoadEvent::Unlocked(Ok(())),
            LoadAction::Read(ItemRef::Unlocked(i)) => {
                LoadEvent::Read(Ok(format!("open {i}").into_bytes()))
            }
            LoadAction::Read(ItemRef::Locked(i)) => {
                LoadEvent::Read(Ok(format!("locked {i}").into_bytes()))
            }
            LoadAction::Done(result) => return result,
        };
    }
}

#[test]
fn loading_ends() {
    assert_eq!(load(FoundItems { unlocked: 2, locked: 1 }), Ok(Some("open 0".to_string())));
    assert_eq!(load(FoundItems { unlocked: 0, locked: 1 }), Ok(Some("locked 0".to_string())));
    assert_eq!(load(FoundItems { unlocked: 0, locked: 0 }), Ok(None));
}

/// Waits for a callback while these requests come.
fn wait(requests: &[&str]) -> (usize, Result<String, String>) {
    let mut looked_at = 0;
    let mut event = WaitEvent::Started;
    loop {
        event = match wait_for_callback("state", event) {
            WaitAction::Accept { attempts, .. } => {
                WaitEvent::Accepted { reply: AcceptReply::Connected, attempts }
            }
            WaitAction::Read { attempts, .. } => {
                let request = Ok(requests[looked_at].as_bytes().to_vec());
                looked_at += 1;
                WaitEvent::Received { request, attempts }
            }
            WaitAction::Reply { reply, attempts } => {
                assert_eq!(attempts as usize, looked_at);
                WaitEvent::Replied { reply, attempts, elapsed_nanos: u128::from(attempts) }
            }
            WaitAction::Done(result) => return (looked_at, result),
        };
    }
}

#[test]
fn waiting_ends() {
    let good = "GET /callback?code=c&state=state HTTP/1.1";
    let bad = "GET /favicon.ico HTTP/1.1";
    let forged = "GET /callback?code=evil&state=other HTTP/1.1";
    assert_eq!(wait(&[bad, "", good]), (3, Ok("c".to_string())));
    assert_eq!(wait(&[bad, forged, good]), (2, Err("CSRF state mismatch".to_string())));
    assert_eq!(
        wait(&[bad, bad, bad, bad, bad, bad, bad, bad, bad, bad, good]),
        (10, Err("Too many invalid callback requests".to_string()))
    );
}

#[test]
fn sign_in_ends() {
    let mut event = LoginEvent::Started;
    let mut steps = 0;
    let result = loop {
        steps += 1;
        event = match oidc_login("https://id", "client", &None, &Vec::new(), event) {
            LoginAction::Bind { .. } => LoginEvent::Bound(Ok(())),
            LoginAction::ReadPort => LoginEvent::PortRead(Ok(4711)),
            LoginAction::AskProvider { port, .. } => {
                LoginEvent::ProviderAnswered(port, ProviderReply::Ready)
            }
            LoginAction::Authorize { redirect_url, scopes, pkce, .. } => {
                assert_eq!(pkce, PkceMethod::Sha256);
                assert_eq!(redirect_url, "http://127.0.0.1:4711/callback");
                assert_eq!(scopes, vec!["openid", "offline_access"]);
                LoginEvent::BrowserOpened {
                    state: "state".to_string(),
                    pkce_verifier: "verifier".to_string(),
                }
            }
            LoginAction::AwaitCallback { expected_state, pkce_verifier } => {
                LoginEvent::CallbackEnded {
                    code: Ok(format!("code of {expected_state}")),
                    pkce_verifier,
                }
            }
            LoginAction::Exchange { code, pkce_verifier, .. } => {
                LoginEvent::Exchanged(ExchangeReply::Tokens(OidcTokens {
                    access_token: format!("for {code} with {pkce_verifier}"),
                    refresh_token: None,
                }))
            }
            LoginAction::Done(result) => break result,
        };
    };
    assert_eq!(steps, 7);
    assert_eq!(
        result,
        Ok(OidcTokens {
            access_token: "for code of state with verifier".to_string(),
            refresh_token: None
        })
    );
}

fn request(auth: &AuthMethod, code: u16) -> Result<String, DiscoveryError> {
    let mut event = PropfindEvent::Started;
    loop {
        event = match propfind("https://dav", "0", PropfindBody::Principal, auth, "s", event) {
            PropfindAction::LoadSecret(_) => {
                PropfindEvent::SecretLoaded(Ok(Some("secret".to_string())))
            }
            PropfindAction::Send(_) => PropfindEvent::Sent(Ok(code)),
            PropfindAction::ReadBody => PropfindEvent::BodyRead(Ok("<xml/>".to_string())),
            PropfindAction::Done(result) => return result,
        };
    }
}

#[test]
fn requests_end() {
    for auth in [AuthMethod::Anonymous, AuthMethod::Bearer] {
        assert_eq!(request(&auth, 207), Ok("<xml/>".to_string()));
        assert_eq!(request(&auth, 401), Err(DiscoveryError::AuthExpired("s".to_string())));
    }
}

/// Discovers on a server that says this much, and gives the requests that were made.
fn discover(says_home: bool) -> (Vec<(String, String)>, usize) {
    let mut requests = Vec::new();
    let mut event = DiscoverEvent::Started;
    loop {
        event = match discover_calendars("https://dav/", &None, event) {
            DiscoverAction::GetClient { .. } => DiscoverEvent::ClientReady(Ok(())),
            DiscoverAction::Propfind { url, depth, body } => {
                requests.push((url, depth.to_string()));
                let answer = Ok("xml".to_string());
                match body {
                    PropfindBody::Principal => DiscoverEvent::Answered(Lookup::Principal, answer),
                    PropfindBody::HomeSet => DiscoverEvent::Answered(Lookup::HomeSet, answer),
                    PropfindBody::Calendars => DiscoverEvent::Listed(answer),
                }
            }
            DiscoverAction::ExtractInner { lookup, tag, .. } => DiscoverEvent::BlockExtracted(
                lookup,
                if says_home || lookup == Lookup::Principal { Some(tag.to_string()) } else { None },
            ),
            DiscoverAction::ExtractText { lookup, xml, .. } => {
                DiscoverEvent::HrefExtracted(lookup, Some(format!("/{xml}")))
            }
            DiscoverAction::Resolve { lookup, base, href } => {
                DiscoverEvent::Resolved(lookup, format!("{base}{href}"))
            }
            DiscoverAction::ParseCalendars { xml, base } => {
                assert_eq!((xml.as_str(), base.as_str()), ("xml", "https://dav"));
                DiscoverEvent::Parsed(vec![CalDavCalendar {
                    href: "/c".to_string(),
                    display_name: "C".to_string(),
                    color: String::new(),
                    enabled: true,
                }])
            }
            DiscoverAction::Done(result) => return (requests, result.unwrap().len()),
        };
    }
}

#[test]
fn discovery_ends() {
    let made = |list: &[(&str, &str)]| -> Vec<(String, String)> {
        list.iter().map(|(url, depth)| (url.to_string(), depth.to_string())).collect()
    };
    assert_eq!(
        discover(true),
        (
            made(&[
                ("https://dav", "0"),
                ("https://dav/current-user-principal", "0"),
                ("https://dav/calendar-home-set", "1")
            ]),
            1
        )
    );
    assert_eq!(
        discover(false),
        (
            made(&[
                ("https://dav", "0"),
                ("https://dav/current-user-principal", "0"),
                ("https://dav", "1")
            ]),
            1
        )
    );
}
