use envtrackernode::auth::{access_session_id, refresh_session_id};
use envtrackernode::auth::{
    auth_endpoints, authorization_location, callback_finish, callback_plan, callback_query_accepted,
    checked_link_redirect, link_decision, link_redirect_accepted, login_page, stringify_query,
    token_step, CallbackFinish, CallbackPlan, CallbackQuery, ClientJsonWeb, IssuedTokens, LinkDecision,
    LinkQuery, TokenEvent, TokenForm, TokenStage, TokenStep, REFRESH_SESSION_MINUTES,
};

fn home() -> ClientJsonWeb {
    ClientJsonWeb {
        client_id: "gh-client".to_string(),
        project_id: "my-project".to_string(),
        auth_uri: "https://accounts.google.com/o/oauth2/v2/auth".to_string(),
        token_uri: "https://oauth2.googleapis.com/token".to_string(),
        auth_provider_x509_cert_url: "https://www.googleapis.com/oauth2/v1/certs".to_string(),
        client_secret: "gh-secret".to_string(),
    }
}

fn link_query(client: Option<&str>, redirect: Option<&str>, state: Option<&str>) -> LinkQuery {
    LinkQuery {
        client_id: client.map(|s| s.to_string()),
        redirect_uri: redirect.map(|s| s.to_string()),
        state: state.map(|s| s.to_string()),
        scope: None,
        response_type: Some("code".to_string()),
    }
}

const CALLBACK: &str = "https://example.com/google_home/callback";
const GOOD_REDIRECT: &str = "https://oauth-redirect.googleusercontent.com/r/my-project";

#[test]
fn stringify_query_encodes_every_reserved_byte() {
    let (decoded, encoded) = stringify_query(Some("a=b c&d=é"));
    assert_eq!(decoded, "?a=b c&d=é");
    assert_eq!(encoded, "%3Fa%3Db%20c%26d%3D%C3%A9");
}

#[test]
fn stringify_query_keeps_unreserved_bytes() {
    let (decoded, encoded) = stringify_query(Some("A-z_0.9~"));
    assert_eq!(decoded, "?A-z_0.9~");
    assert_eq!(encoded, "%3FA-z_0.9~");
}

#[test]
fn stringify_query_without_query_is_empty() {
    let (decoded, encoded) = stringify_query(None);
    assert_eq!(decoded, "");
    assert_eq!(encoded, "");
}

#[test]
fn endpoints_resolve_under_the_base() {
    let e = auth_endpoints("https://example.com").expect("base parses");
    assert_eq!(e.base, "https://example.com/");
    assert_eq!(e.base_path, "/");
    assert_eq!(e.link_callback, "https://example.com/google_home/callback");
    assert_eq!(e.login_callback, "https://example.com/auth/callback");
    assert_eq!(e.logout_path, "/google_home");
}

#[test]
fn endpoints_resolve_under_a_base_path() {
    let e = auth_endpoints("https://example.com/app/").expect("base parses");
    assert_eq!(e.base_path, "/app/");
    assert_eq!(e.link_callback, "https://example.com/app/google_home/callback");
    assert_eq!(e.logout_path, "/app/google_home");
}

#[test]
fn endpoints_of_an_unparsable_base_are_none() {
    assert!(auth_endpoints("not a url").is_none());
}

#[test]
fn redirect_acceptance_checks_path_and_host() {
    assert!(link_redirect_accepted("/r/p1", Some("oauth-redirect.googleusercontent.com"), "p1"));
    assert!(link_redirect_accepted("/r/p1", Some("oauth-redirect-sandbox.googleusercontent.com"), "p1"));
    assert!(!link_redirect_accepted("/r/p2", Some("oauth-redirect.googleusercontent.com"), "p1"));
    assert!(!link_redirect_accepted("/r/p1", Some("evil.example.com"), "p1"));
    assert!(!link_redirect_accepted("/r/p1", None, "p1"));
}

#[test]
fn checked_redirect_parses_and_filters() {
    assert_eq!(checked_link_redirect(GOOD_REDIRECT, "my-project"), Some(GOOD_REDIRECT.to_string()));
    assert_eq!(
        checked_link_redirect("https://OAUTH-REDIRECT.googleusercontent.com/r/my-project", "my-project"),
        Some(GOOD_REDIRECT.to_string())
    );
    assert_eq!(checked_link_redirect("https://evil.example.com/r/my-project", "my-project"), None);
    assert_eq!(checked_link_redirect(GOOD_REDIRECT, "other"), None);
    assert_eq!(checked_link_redirect("no url", "my-project"), None);
}

#[test]
fn authorization_location_appends_the_pairs_in_order() {
    let loc = authorization_location("https://accounts.google.com/o/oauth2/v2/auth", "gh-client", CALLBACK, "st 1");
    assert_eq!(
        loc.as_deref(),
        Some(
            "https://accounts.google.com/o/oauth2/v2/auth?client_id=gh-client&redirect_uri=https%3A%2F%2Fexample.com%2Fgoogle_home%2Fcallback&state=st+1&response_type=code&scope=openid&access_type=offline&prompt=consent"
        )
    );
    assert_eq!(authorization_location("relative/path", "gh-client", CALLBACK, "s"), None);
}

#[test]
fn link_refuses_an_invalid_session() {
    let q = link_query(Some("gh-client"), Some(GOOD_REDIRECT), Some("st1"));
    let sid = "sess1".to_string();
    assert!(matches!(link_decision(false, &q, &home(), Some(&sid), &CALLBACK.to_string()), LinkDecision::Unauthorized));
}

#[test]
fn link_shows_the_query_of_another_client() {
    let q = link_query(Some("someone-else"), Some(GOOD_REDIRECT), Some("st1"));
    let sid = "sess1".to_string();
    assert!(matches!(link_decision(true, &q, &home(), Some(&sid), &CALLBACK.to_string()), LinkDecision::ShowQuery));
    let q = link_query(None, Some(GOOD_REDIRECT), Some("st1"));
    assert!(matches!(link_decision(true, &q, &home(), Some(&sid), &CALLBACK.to_string()), LinkDecision::ShowQuery));
}

#[test]
fn link_refuses_without_cookie_redirect_or_state() {
    let sid = "sess1".to_string();
    let q = link_query(Some("gh-client"), Some(GOOD_REDIRECT), Some("st1"));
    assert!(matches!(link_decision(true, &q, &home(), None, &CALLBACK.to_string()), LinkDecision::Unauthorized));
    let q = link_query(Some("gh-client"), Some("https://evil.example.com/r/my-project"), Some("st1"));
    assert!(matches!(link_decision(true, &q, &home(), Some(&sid), &CALLBACK.to_string()), LinkDecision::Unauthorized));
    let q = link_query(Some("gh-client"), None, Some("st1"));
    assert!(matches!(link_decision(true, &q, &home(), Some(&sid), &CALLBACK.to_string()), LinkDecision::Unauthorized));
    let q = link_query(Some("gh-client"), Some(GOOD_REDIRECT), None);
    assert!(matches!(link_decision(true, &q, &home(), Some(&sid), &CALLBACK.to_string()), LinkDecision::Unauthorized));
}

#[test]
fn link_stores_the_verifier_and_redirects_to_google() {
    let q = link_query(Some("gh-client"), Some(GOOD_REDIRECT), Some("st1"));
    let sid = "sess1".to_string();
    match link_decision(true, &q, &home(), Some(&sid), &CALLBACK.to_string()) {
        LinkDecision::Store { state, verifier, location } => {
            assert_eq!(state, "st1");
            assert_eq!(verifier, format!("sess1|{GOOD_REDIRECT}|my-project"));
            assert_eq!(
                location,
                "https://accounts.google.com/o/oauth2/v2/auth?client_id=gh-client&redirect_uri=https%3A%2F%2Fexample.com%2Fgoogle_home%2Fcallback&state=st1&response_type=code&scope=openid&access_type=offline&prompt=consent"
            );
        }
        _ => panic!("expected Store"),
    }
}

#[test]
fn link_refuses_an_unparsable_authorization_endpoint() {
    let mut h = home();
    h.auth_uri = "::".to_string();
    let q = link_query(Some("gh-client"), Some(GOOD_REDIRECT), Some("st1"));
    let sid = "sess1".to_string();
    assert!(matches!(link_decision(true, &q, &h, Some(&sid), &CALLBACK.to_string()), LinkDecision::Unauthorized));
}

fn callback_query(iss: &str, prompt: &str) -> CallbackQuery {
    CallbackQuery {
        code: "c1".to_string(),
        iss: iss.to_string(),
        state: "s1".to_string(),
        scope: "openid".to_string(),
        prompt: prompt.to_string(),
    }
}

#[test]
fn callback_needs_google_issuer_and_consent() {
    assert!(callback_query_accepted(&callback_query("https://accounts.google.com", "consent")));
    assert!(!callback_query_accepted(&callback_query("https://evil.example.com", "consent")));
    assert!(!callback_query_accepted(&callback_query("https://accounts.google.com", "none")));
}

#[test]
fn callback_plan_reads_the_verifier() {
    let v = format!("sess1|{GOOD_REDIRECT}|my-project");
    match callback_plan(Some(&v), "my-project") {
        CallbackPlan::Continue { session_id, redirect_uri } => {
            assert_eq!(session_id, "sess1");
            assert_eq!(redirect_uri.as_deref(), Some(GOOD_REDIRECT));
        }
        CallbackPlan::Reject => panic!("expected Continue"),
    }
    let short = "sess1".to_string();
    match callback_plan(Some(&short), "my-project") {
        CallbackPlan::Continue { session_id, redirect_uri } => {
            assert_eq!(session_id, "sess1");
            assert_eq!(redirect_uri, None);
        }
        CallbackPlan::Reject => panic!("expected Continue"),
    }
}

#[test]
fn callback_plan_rejects_unknown_state_and_other_project() {
    assert!(matches!(callback_plan(None, "my-project"), CallbackPlan::Reject));
    let v = format!("sess1|{GOOD_REDIRECT}|another");
    assert!(matches!(callback_plan(Some(&v), "my-project"), CallbackPlan::Reject));
}

#[test]
fn callback_finish_remembers_the_code_and_redirects() {
    let red = GOOD_REDIRECT.to_string();
    match callback_finish("sess1", Some(&red), "c1", "s1") {
        CallbackFinish::Store { code, verifier, location } => {
            assert_eq!(code, "c1");
            assert_eq!(verifier, format!("sess1|{GOOD_REDIRECT}"));
            assert_eq!(location.as_deref(), Some("https://oauth-redirect.googleusercontent.com/r/my-project?code=c1&state=s1"));
        }
        CallbackFinish::Reject => panic!("expected Store"),
    }
    assert!(matches!(callback_finish("sess1", None, "c1", "s1"), CallbackFinish::Reject));
}

fn form(grant: &str, code: Option<&str>, refresh: Option<&str>) -> TokenForm {
    TokenForm {
        client_id: "gh-client".to_string(),
        client_secret: "gh-secret".to_string(),
        grant_type: grant.to_string(),
        code: code.map(|s| s.to_string()),
        refresh_token: refresh.map(|s| s.to_string()),
        redirect_uri: GOOD_REDIRECT.to_string(),
    }
}

fn pairs(v: &[(String, String)]) -> Vec<(&str, &str)> {
    v.iter().map(|(a, b)| (a.as_str(), b.as_str())).collect()
}

#[test]
fn token_request_from_another_client_is_refused() {
    let mut f = form("authorization_code", Some("c1"), None);
    f.client_secret = "wrong".to_string();
    let (st, step) = token_step(&f, &home(), &CALLBACK.to_string(), TokenStage::Begin, TokenEvent::Start);
    assert!(matches!(st, TokenStage::Done));
    assert!(matches!(step, TokenStep::Refuse));
}

#[test]
fn token_request_with_unknown_grant_is_refused() {
    let f = form("password", Some("c1"), Some("r1"));
    let (_, step) = token_step(&f, &home(), &CALLBACK.to_string(), TokenStage::Begin, TokenEvent::Start);
    assert!(matches!(step, TokenStep::Refuse));
    let f = form("authorization_code", None, Some("r1"));
    let (_, step) = token_step(&f, &home(), &CALLBACK.to_string(), TokenStage::Begin, TokenEvent::Start);
    assert!(matches!(step, TokenStep::Refuse));
}

#[test]
fn token_code_grant_runs_to_completion() {
    let f = form("authorization_code", Some("c1"), None);
    let cb = CALLBACK.to_string();
    let h = home();
    let (st, step) = token_step(&f, &h, &cb, TokenStage::Begin, TokenEvent::Start);
    assert!(matches!(&step, TokenStep::LookupCode(c) if c == "c1"));
    let (st, step) = token_step(&f, &h, &cb, st, TokenEvent::CodeFound(Some(format!("sess1|{GOOD_REDIRECT}"))));
    assert!(matches!(&step, TokenStep::InvalidateCode(c) if c == "c1"));
    let (st, step) = token_step(&f, &h, &cb, st, TokenEvent::Written(true));
    assert!(matches!(&step, TokenStep::LookupSession(s) if s == "sess1"));
    let (st, step) = token_step(&f, &h, &cb, st, TokenEvent::SessionFound(Some(None)));
    assert!(matches!(step, TokenStep::ValidateSession));
    let (st, step) = token_step(&f, &h, &cb, st, TokenEvent::Validated(true));
    match &step {
        TokenStep::RequestTokens(p) => assert_eq!(
            pairs(p),
            vec![
                ("grant_type", "authorization_code"),
                ("code", "c1"),
                ("redirect_uri", CALLBACK),
                ("client_id", "gh-client"),
                ("client_secret", "gh-secret"),
            ]
        ),
        _ => panic!("expected RequestTokens"),
    }
    let issued = IssuedTokens { access_token: "a1".to_string(), refresh_token: Some("r1".to_string()) };
    let (st, step) = token_step(&f, &h, &cb, st, TokenEvent::Issued(Some(issued)));
    assert!(matches!(&step, TokenStep::StoreIssued(k) if k == "google_home_auth_token|a1"));
    let (st, step) = token_step(&f, &h, &cb, st, TokenEvent::Written(true));
    assert!(matches!(&step, TokenStep::StoreIssued(k) if k == "google_home_refresh_token|r1"));
    let (st, step) = token_step(&f, &h, &cb, st, TokenEvent::Written(true));
    assert!(matches!(&step, TokenStep::Extend(k, m) if k == "google_home_refresh_token|r1" && *m == REFRESH_SESSION_MINUTES));
    assert_eq!(REFRESH_SESSION_MINUTES, 60 * 24 * 365);
    let (st, step) = token_step(&f, &h, &cb, st, TokenEvent::Written(true));
    assert!(matches!(&step, TokenStep::EndSession(s) if s == "sess1"));
    let (st, step) = token_step(&f, &h, &cb, st, TokenEvent::Written(true));
    assert!(matches!(step, TokenStep::Grant));
    assert!(matches!(st, TokenStage::Done));
}

#[test]
fn token_code_grant_with_other_redirect_discards_the_code() {
    let mut f = form("authorization_code", Some("c1"), None);
    f.redirect_uri = "https://elsewhere.example.com/".to_string();
    let cb = CALLBACK.to_string();
    let h = home();
    let st = TokenStage::Validation {
        code: "c1".to_string(),
        session_id: "sess1".to_string(),
        redirect: GOOD_REDIRECT.to_string(),
    };
    let (st, step) = token_step(&f, &h, &cb, st, TokenEvent::Validated(true));
    assert!(matches!(&step, TokenStep::InvalidateCode(c) if c == "c1"));
    let (_, step) = token_step(&f, &h, &cb, st, TokenEvent::Written(true));
    assert!(matches!(step, TokenStep::Refuse));
}

#[test]
fn token_code_without_redirect_in_verifier_is_discarded() {
    let f = form("authorization_code", Some("c1"), None);
    let cb = CALLBACK.to_string();
    let h = home();
    let st = TokenStage::CodeLookup { code: "c1".to_string() };
    let (st, step) = token_step(&f, &h, &cb, st, TokenEvent::CodeFound(Some("sess1".to_string())));
    assert!(matches!(&step, TokenStep::InvalidateCode(c) if c == "c1"));
    assert!(matches!(st, TokenStage::Discard));
    let (_, step) = token_step(&f, &h, &cb, st, TokenEvent::Written(false));
    assert!(matches!(step, TokenStep::Refuse));
}

#[test]
fn token_issue_without_refresh_token_is_refused() {
    let f = form("authorization_code", Some("c1"), None);
    let cb = CALLBACK.to_string();
    let h = home();
    let st = TokenStage::LinkTokens { session_id: "sess1".to_string() };
    let issued = IssuedTokens { access_token: "a1".to_string(), refresh_token: None };
    let (st, step) = token_step(&f, &h, &cb, st, TokenEvent::Issued(Some(issued)));
    assert!(matches!(&step, TokenStep::StoreIssued(k) if k == "google_home_auth_token|a1"));
    let (_, step) = token_step(&f, &h, &cb, st, TokenEvent::Written(true));
    assert!(matches!(step, TokenStep::Refuse));
}

#[test]
fn token_refresh_grant_runs_to_completion() {
    let f = form("refresh_token", None, Some("r1"));
    let cb = CALLBACK.to_string();
    let h = home();
    let (st, step) = token_step(&f, &h, &cb, TokenStage::Begin, TokenEvent::Start);
    assert!(matches!(&step, TokenStep::LookupSession(s) if s == "google_home_refresh_token|r1"));
    let (st, step) = token_step(&f, &h, &cb, st, TokenEvent::SessionFound(Some(Some("r1".to_string()))));
    match &step {
        TokenStep::RequestTokens(p) => assert_eq!(
            pairs(p),
            vec![
                ("grant_type", "refresh_token"),
                ("refresh_token", "r1"),
                ("client_id", "gh-client"),
                ("client_secret", "gh-secret"),
            ]
        ),
        _ => panic!("expected RequestTokens"),
    }
    let issued = IssuedTokens { access_token: "a2".to_string(), refresh_token: None };
    let (st, step) = token_step(&f, &h, &cb, st, TokenEvent::Issued(Some(issued)));
    assert!(matches!(&step, TokenStep::StoreRefreshed(k) if k == "google_home_refresh_token|r1"));
    let (st, step) = token_step(&f, &h, &cb, st, TokenEvent::Written(true));
    assert!(matches!(&step, TokenStep::Extend(k, _) if k == "google_home_refresh_token|r1"));
    let (_, step) = token_step(&f, &h, &cb, st, TokenEvent::Written(true));
    assert!(matches!(step, TokenStep::Grant));
}

#[test]
fn token_refresh_with_mismatched_token_is_refused() {
    let f = form("refresh_token", None, Some("r1"));
    let cb = CALLBACK.to_string();
    let st = TokenStage::RefreshLookup { refresh_token: "r1".to_string() };
    let (_, step) = token_step(&f, &home(), &cb, st, TokenEvent::SessionFound(Some(Some("r2".to_string()))));
    assert!(matches!(step, TokenStep::Refuse));
    let st = TokenStage::RefreshLookup { refresh_token: "r1".to_string() };
    let (_, step) = token_step(&f, &home(), &cb, st, TokenEvent::SessionFound(Some(None)));
    assert!(matches!(step, TokenStep::Refuse));
}

#[test]
fn token_failed_write_is_refused() {
    let f = form("refresh_token", None, Some("r1"));
    let cb = CALLBACK.to_string();
    let st = TokenStage::RefreshedStored { key: "google_home_refresh_token|r1".to_string() };
    let (st, step) = token_step(&f, &home(), &cb, st, TokenEvent::Written(false));
    assert!(matches!(step, TokenStep::Refuse));
    assert!(matches!(st, TokenStage::Done));
}

#[test]
fn token_session_keys_are_distinct() {
    assert_eq!(access_session_id("t"), "google_home_auth_token|t");
    assert_eq!(refresh_session_id("t"), "google_home_refresh_token|t");
    assert_ne!(access_session_id("x"), refresh_session_id("x"));
}

#[test]
fn login_page_for_a_visitor_links_to_sign_in() {
    let e = auth_endpoints("https://example.com/app/").unwrap();
    let page = login_page(None, &e, Some("state=a b"), "{}");
    assert_eq!(
        page,
        "\n                    <a href='https://example.com/app/auth?redirect=/app/google_home%3Fstate%3Da%20b'>\n                        GOOGLE LOGIN\n                    </a>\n                    "
    );
}

#[test]
fn login_page_for_a_user_offers_the_link() {
    let e = auth_endpoints("https://example.com/").unwrap();
    let page = login_page(Some(("me@example.com", None)), &e, Some("x=1"), "Q");
    assert_eq!(
        page,
        "\n                            Hello World for Google Home (me@example.com): expires (no expiry)\n                            <br />\n                            <a href='https://example.com/google_home/link?x=1'>Authorize Link</a>\n                            <br />\n                            <a href='https://example.com/auth/logout'>Logout</a>\n                            <br />\n                            <pre><code>Q</code></pre>\n                        "
    );
}
