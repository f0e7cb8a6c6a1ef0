//! Sign-in.

use calendar_settings::auth::{
    after_issuer_check, after_redirect_check, answer_parameters, answer_request, effective_scopes,
    oidc_login, redirect_url, send_response, wait_for_callback, AcceptReply, CallbackReply,
    ExchangeReply, LoginAction, LoginEvent, OidcTokens, PkceMethod, ProviderReply, Verdict,
    WaitAction, WaitEvent, SUCCESS_PAGE,
};

fn step(issuer: &str, scopes: &[&str], event: LoginEvent) -> LoginAction {
    let scopes: Vec<String> = scopes.iter().map(|s| s.to_string()).collect();
    oidc_login(issuer, "client", &Some("secret".to_string()), &scopes, event)
}

fn failed(message: &str) -> LoginAction {
    LoginAction::Done(Err(message.to_string()))
}

#[test]
fn sign_in_takes_its_steps() {
    let issuer = "https://id.example.com";
    assert_eq!(
        step(issuer, &[], LoginEvent::Started),
        LoginAction::Bind { address: "127.0.0.1:0" }
    );
    assert_eq!(step(issuer, &[], LoginEvent::Bound(Ok(()))), LoginAction::ReadPort);
    assert_eq!(
        step(issuer, &[], LoginEvent::PortRead(Ok(4711))),
        LoginAction::AskProvider { issuer_url: issuer.to_string(), timeout_secs: 30, port: 4711 }
    );
    assert_eq!(
        step(issuer, &["email"], LoginEvent::ProviderAnswered(4711, ProviderReply::Ready)),
        LoginAction::Authorize {
            client_id: "client".to_string(),
            client_secret: Some("secret".to_string()),
            redirect_url: "http://127.0.0.1:4711/callback".to_string(),
            scopes: vec!["email".to_string()],
            pkce: PkceMethod::Sha256,
        }
    );
    let verifier = || "v".to_string();
    let opened = LoginEvent::BrowserOpened { state: "s".to_string(), pkce_verifier: verifier() };
    assert_eq!(
        step(issuer, &[], opened),
        LoginAction::AwaitCallback {
            expected_state: "s".to_string(),
            pkce_verifier: verifier()
        }
    );
    let ended = LoginEvent::CallbackEnded { code: Ok("c".to_string()), pkce_verifier: verifier() };
    assert_eq!(
        step(issuer, &[], ended),
        LoginAction::Exchange {
            code: "c".to_string(),
            pkce_verifier: verifier(),
            timeout_secs: 30
        }
    );
    let tokens = || OidcTokens {
        access_token: "a".to_string(),
        refresh_token: Some("r".to_string()),
    };
    assert_eq!(
        step(issuer, &[], LoginEvent::Exchanged(ExchangeReply::Tokens(tokens()))),
        LoginAction::Done(Ok(tokens()))
    );
}

#[test]
fn sign_in_reports_each_failure() {
    let issuer = "https://id";
    let why = || "why".to_string();
    assert_eq!(
        step(issuer, &[], LoginEvent::Bound(Err(why()))),
        failed("Failed to bind callback server: why")
    );
    assert_eq!(
        step(issuer, &[], LoginEvent::PortRead(Err(why()))),
        failed("Failed to get callback port: why")
    );
    assert_eq!(
        step(issuer, &[], LoginEvent::ProviderAnswered(1, ProviderReply::Failed(why()))),
        failed("OIDC discovery failed: why")
    );
    assert_eq!(
        step(issuer, &[], LoginEvent::ProviderAnswered(1, ProviderReply::TimedOut)),
        failed("OIDC discovery timed out (30s)")
    );
    let ended = LoginEvent::CallbackEnded { code: Err(why()), pkce_verifier: "v".to_string() };
    assert_eq!(step(issuer, &[], ended), failed("why"));
    assert_eq!(
        step(issuer, &[], LoginEvent::Exchanged(ExchangeReply::Failed(why()))),
        failed("Token exchange failed: why")
    );
    assert_eq!(
        step(issuer, &[], LoginEvent::Exchanged(ExchangeReply::TimedOut)),
        failed("Token exchange timed out (30s)")
    );
}

#[test]
fn issuer_address_is_checked() {
    let expected = match openidconnect::IssuerUrl::new("no address".to_string()) {
        Ok(_) => panic!("accepted"),
        Err(e) => format!("Invalid issuer URL: {e}"),
    };
    assert_eq!(step("no address", &[], LoginEvent::PortRead(Ok(1))), failed(&expected));
    assert_eq!(
        after_issuer_check("x", 1, &Some("bad".to_string())),
        failed("Invalid issuer URL: bad")
    );
}

#[test]
fn redirect_address_is_checked() {
    for port in [0, 1, 80, 65535] {
        assert!(openidconnect::RedirectUrl::new(redirect_url(port)).is_ok());
    }
    assert_eq!(
        after_redirect_check("c", &None, &Vec::new(), 1, &Some("bad".to_string())),
        failed("Invalid redirect URL: bad")
    );
}

#[test]
fn some_scopes_are_always_asked_for() {
    assert_eq!(effective_scopes(&Vec::new()), vec!["openid", "offline_access"]);
    assert_eq!(effective_scopes(&vec!["x".to_string()]), vec!["x"]);
}

fn reply(status: &'static str, body: &'static str, verdict: Verdict) -> CallbackReply {
    CallbackReply::Answer { status, body, verdict }
}

#[test]
fn callback_with_its_state_is_accepted() {
    let request = "GET /callback?code=a%20b&state=s%2B1 HTTP/1.1\r\nHost: x\r\n\r\n";
    assert_eq!(
        answer_request(request, "s+1"),
        reply("200 OK", SUCCESS_PAGE, Verdict::Accept("a b".to_string()))
    );
    assert_eq!(
        answer_request("GET /x/callback?state=s&code=c", "s"),
        reply("200 OK", SUCCESS_PAGE, Verdict::Accept("c".to_string()))
    );
}

#[test]
fn callback_with_another_state_ends_the_sign_in() {
    assert_eq!(
        answer_request("GET /callback?code=c&state=other HTTP/1.1", "s"),
        reply(
            "403 Forbidden",
            "State mismatch",
            Verdict::Refuse("CSRF state mismatch".to_string())
        )
    );
}

#[test]
fn other_requests_are_answered_and_passed_over() {
    assert_eq!(answer_request("", "s"), CallbackReply::Close);
    assert_eq!(answer_request("GET", "s"), CallbackReply::Close);
    assert_eq!(answer_request("\nGET /callback?code=c&state=s", "s"), CallbackReply::Close);
    assert_eq!(
        answer_request("GET /callback HTTP/1.1", "s"),
        reply("400 Bad Request", "Missing parameters", Verdict::Retry)
    );
    assert_eq!(
        answer_request("GET /favicon.ico?code=c&state=s HTTP/1.1", "s"),
        reply("404 Not Found", "Not the callback endpoint", Verdict::Retry)
    );
    assert_eq!(
        answer_request("GET /callback?state=s HTTP/1.1", "s"),
        reply("400 Bad Request", "Missing code parameter", Verdict::Retry)
    );
    assert_eq!(
        answer_request("GET /callback?code=c HTTP/1.1", "s"),
        reply("400 Bad Request", "Missing state parameter", Verdict::Retry)
    );
}

#[test]
fn last_value_of_a_parameter_counts() {
    let pairs = |list: &[(&str, &str)]| -> Vec<(String, String)> {
        list.iter().map(|(k, v)| (k.to_string(), v.to_string())).collect()
    };
    assert_eq!(
        answer_parameters(
            &pairs(&[("code", "1"), ("state", "x"), ("code", "2"), ("state", "s")]),
            "s"
        ),
        reply("200 OK", SUCCESS_PAGE, Verdict::Accept("2".to_string()))
    );
    assert_eq!(
        answer_parameters(&pairs(&[]), "s"),
        reply("400 Bad Request", "Missing code parameter", Verdict::Retry)
    );
}

#[test]
fn success_page() {
    assert_eq!(
        SUCCESS_PAGE,
        "<html><body>\
         <h1>Authentication successful!</h1>\
         <p>You can close this window and return to COSMIC Settings.</p>\
         </body></html>"
    );
}

#[test]
fn answer_gives_its_length_in_bytes() {
    assert_eq!(
        send_response("404 Not Found", "né"),
        "HTTP/1.1 404 Not Found\r\n\
         Content-Type: text/html; charset=utf-8\r\n\
         Content-Length: 3\r\n\r\n\
         né"
    );
}

fn wait(event: WaitEvent) -> WaitAction {
    wait_for_callback("s", event)
}

fn accepted(reply: AcceptReply, attempts: u32) -> WaitEvent {
    WaitEvent::Accepted { reply, attempts }
}

fn received(request: Result<&[u8], &str>, attempts: u32) -> WaitEvent {
    let request = request.map(<[u8]>::to_vec).map_err(str::to_string);
    WaitEvent::Received { request, attempts }
}

fn replied(reply: CallbackReply, attempts: u32, elapsed_nanos: u128) -> WaitEvent {
    WaitEvent::Replied { reply, attempts, elapsed_nanos }
}

#[test]
fn waiting_is_limited() {
    let retry = || reply("400 Bad Request", "Missing parameters", Verdict::Retry);
    assert_eq!(
        wait(WaitEvent::Started),
        WaitAction::Accept { within_nanos: 120_000_000_000, attempts: 0 }
    );
    assert_eq!(
        wait(replied(CallbackReply::Close, 1, 5)),
        WaitAction::Accept { within_nanos: 119_999_999_995, attempts: 1 }
    );
    assert_eq!(
        wait(replied(retry(), 9, 119_999_999_999)),
        WaitAction::Accept { within_nanos: 1, attempts: 9 }
    );
    assert_eq!(
        wait(replied(retry(), 9, 120_000_000_000)),
        WaitAction::Done(Err("Authentication timed out (120 s)".to_string()))
    );
    assert_eq!(
        wait(replied(retry(), 10, 0)),
        WaitAction::Done(Err("Too many invalid callback requests".to_string()))
    );
    assert_eq!(
        wait(accepted(AcceptReply::TimedOut, 3)),
        WaitAction::Done(Err("Authentication timed out (120 s)".to_string()))
    );
}

#[test]
fn waiting_ends_with_a_verdict() {
    let accept = reply("200 OK", SUCCESS_PAGE, Verdict::Accept("c".to_string()));
    assert_eq!(wait(replied(accept, 10, u128::MAX)), WaitAction::Done(Ok("c".to_string())));
    let refuse = reply("403 Forbidden", "State mismatch", Verdict::Refuse("no".to_string()));
    assert_eq!(wait(replied(refuse, 1, 0)), WaitAction::Done(Err("no".to_string())));
}

#[test]
fn waiting_reads_one_request() {
    assert_eq!(
        wait(accepted(AcceptReply::Connected, 4)),
        WaitAction::Read { limit: 4096, attempts: 4 }
    );
    assert_eq!(
        wait(accepted(AcceptReply::Failed("why".to_string()), 0)),
        WaitAction::Done(Err("Failed to accept callback: why".to_string()))
    );
    assert_eq!(
        wait(received(Err("why"), 0)),
        WaitAction::Done(Err("Failed to read callback: why".to_string()))
    );
    assert_eq!(
        wait(received(Ok(b"GET /callback?code=c&state=s HTTP/1.1"), 4)),
        WaitAction::Reply {
            reply: reply("200 OK", SUCCESS_PAGE, Verdict::Accept("c".to_string())),
            attempts: 5
        }
    );
    assert_eq!(
        wait(received(Ok(b""), 9)),
        WaitAction::Reply { reply: CallbackReply::Close, attempts: 10 }
    );
    assert_eq!(
        wait(received(Ok(b""), u32::MAX)),
        WaitAction::Reply { reply: CallbackReply::Close, attempts: u32::MAX }
    );
    assert_eq!(
        wait(received(Ok("GET /callback?code=\u{e4}&state=s".as_bytes()), 0)),
        WaitAction::Reply {
            reply: reply("200 OK", SUCCESS_PAGE, Verdict::Accept("\u{e4}".to_string())),
            attempts: 1
        }
    );
    // Bytes that are no text are replaced, and the request is judged all the same.
    assert_eq!(
        wait(received(Ok(b"G\xff /callback?code=\xff&state=s"), 0)),
        WaitAction::Reply {
            reply: reply("200 OK", SUCCESS_PAGE, Verdict::Accept("\u{fffd}".to_string())),
            attempts: 1
        }
    );
}
