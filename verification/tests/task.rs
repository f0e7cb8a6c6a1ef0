//! What becomes of the results of work.

use calendar_settings::auth::OidcTokens;
use calendar_settings::discovery::InlineCredentials;
use calendar_settings::message::Message;
use calendar_settings::task::{
    discovery_message, form_discovery_message, form_login_message, form_token_credentials,
    login_message, optional_secret, refresh_message, refresh_token,
};

fn tokens() -> Result<OidcTokens, String> {
    Ok(OidcTokens { access_token: "at".to_string(), refresh_token: Some("rt".to_string()) })
}

fn why<T>() -> Result<T, String> {
    Err("why".to_string())
}

#[test]
fn discoveries_end_in_messages() {
    assert_eq!(form_discovery_message(Ok(Vec::new())), Message::FormDiscovered(Vec::new()));
    assert_eq!(
        form_discovery_message(why()),
        Message::FormDiscoverError("why".to_string())
    );
    assert_eq!(
        discovery_message("s".to_string(), Ok(Vec::new())),
        Message::Discovered("s".to_string(), Vec::new())
    );
    assert_eq!(
        discovery_message("s".to_string(), why()),
        Message::DiscoverError("s".to_string(), "why".to_string())
    );
}

#[test]
fn sign_ins_end_in_messages() {
    let some = || Some("rt".to_string());
    assert_eq!(
        form_login_message(tokens()),
        Message::FormOidcLoginResult(Ok(("at".to_string(), some())))
    );
    assert_eq!(form_login_message(why()), Message::FormOidcLoginResult(why()));
    assert_eq!(
        login_message("s".to_string(), tokens()),
        Message::OidcResult(Ok(("s".to_string(), "at".to_string(), some())))
    );
    assert_eq!(login_message("s".to_string(), why()), Message::OidcResult(why()));
    assert_eq!(
        refresh_message("s".to_string(), tokens()),
        Message::OidcRefreshResult(Ok(("s".to_string(), "at".to_string(), some())))
    );
    assert_eq!(
        refresh_message("s".to_string(), why()),
        Message::OidcRefreshResult(Err("s: why".to_string()))
    );
}

#[test]
fn loaded_secrets() {
    let some = || Ok(Some("x".to_string()));
    let bearer = |token: &str| InlineCredentials::Bearer { token: token.to_string() };
    assert_eq!(form_token_credentials(some()), bearer("x"));
    assert_eq!(form_token_credentials(Ok(None)), bearer(""));
    assert_eq!(form_token_credentials(why()), bearer(""));
    assert_eq!(optional_secret(some()), Some("x".to_string()));
    assert_eq!(optional_secret(Ok(None)), None);
    assert_eq!(optional_secret(why()), None);
    let missing =
        || Message::OidcRefreshResult(Err("No refresh token stored for s".to_string()));
    assert_eq!(refresh_token(&"s".to_string(), some()), Ok("x".to_string()));
    assert_eq!(refresh_token(&"s".to_string(), Ok(None)), Err(missing()));
    assert_eq!(refresh_token(&"s".to_string(), why()), Err(missing()));
}

#[test]
fn messages_are_copied() {
    for message in [
        Message::AddSource,
        Message::FormOidcLoginResult(Ok(("a".to_string(), None))),
        Message::OidcResult(why()),
        Message::CaCertBrowsed(Ok("file:///x".to_string())),
    ] {
        assert_eq!(message.clone(), message);
    }
}
