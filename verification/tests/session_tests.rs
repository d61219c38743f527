use base64::engine::general_purpose::URL_SAFE_NO_PAD;
use base64::Engine;
use envtrackernode::auth::{session_outcome, session_subject, stringify_query, token_key_id, url_encoded, validated_email, SessionError};
use envtrackernode::error::NodeError;

/// An unsigned token with this header and these claims.
fn token(header: &str, claims: &str) -> String {
    format!("{}.{}.c2ln", URL_SAFE_NO_PAD.encode(header), URL_SAFE_NO_PAD.encode(claims))
}

const CLAIMS: &str = r#"{"sub":"user-7","iss":"https://accounts.google.com","aud":"client-1","exp":1,"iat":1,"email":"u@example.com"}"#;

fn audience() -> Vec<String> {
    vec!["client-1".to_string()]
}

#[test]
fn subject_and_key_id_are_read_from_the_token() {
    let t = token(r#"{"alg":"RS256","kid":"k1"}"#, CLAIMS);
    assert_eq!(session_subject(&t).as_deref(), Some("user-7"));
    assert_eq!(token_key_id(&t).as_deref(), Some("k1"));
}

#[test]
fn token_without_key_id_has_none() {
    let t = token(r#"{"alg":"RS256"}"#, CLAIMS);
    assert_eq!(session_subject(&t).as_deref(), Some("user-7"));
    assert_eq!(token_key_id(&t), None);
    assert_eq!(validated_email(&t, Some("pem"), &audience()), Err(SessionError::NoKeyId));
}

#[test]
fn malformed_token_is_refused_first() {
    assert_eq!(session_subject("not a token"), None);
    assert_eq!(token_key_id("not a token"), None);
    assert_eq!(validated_email("not a token", None, &audience()), Err(SessionError::Malformed));
    let no_subject = token(r#"{"alg":"RS256","kid":"k1"}"#, r#"{"iss":"x","aud":"a","exp":1,"iat":1}"#);
    assert_eq!(session_subject(&no_subject), None);
    assert_eq!(validated_email(&no_subject, Some("pem"), &audience()), Err(SessionError::Malformed));
}

#[test]
fn token_with_unknown_key_is_refused() {
    let t = token(r#"{"alg":"RS256","kid":"k1"}"#, CLAIMS);
    assert_eq!(validated_email(&t, None, &audience()), Err(SessionError::UnknownKey));
}

#[test]
fn token_failing_its_check_is_invalid() {
    let t = token(r#"{"alg":"RS256","kid":"k1"}"#, CLAIMS);
    assert_eq!(validated_email(&t, Some("not a certificate"), &audience()), Err(SessionError::Invalid));
}

#[test]
fn checked_token_outcome() {
    assert_eq!(session_outcome(None), Err(SessionError::Invalid));
    assert_eq!(session_outcome(Some(None)), Err(SessionError::NoEmail));
    assert_eq!(session_outcome(Some(Some("u@example.com".to_string()))), Ok("u@example.com".to_string()));
}

#[test]
fn percent_encoding_matches_urlencoding() {
    for s in ["", "abc", "A-z_0.9~", "a=b c&d=é", "?x=/y#z", "日本語", "%25"] {
        assert_eq!(url_encoded(s), urlencoding::encode(s).into_owned(), "{s}");
    }
    assert_eq!(url_encoded("a b/é"), "a%20b%2F%C3%A9");
    let (decoded, encoded) = stringify_query(Some("q=1 2"));
    assert_eq!(decoded, "?q=1 2");
    assert_eq!(encoded, "%3Fq%3D1%202");
}

#[test]
fn node_error_displays_its_debug_form() {
    let e = NodeError::new("db write guard not secured.");
    assert_eq!(e.to_string(), "NodeError {\n    _msg: \"db write guard not secured.\",\n}");
    assert_eq!(e.to_string(), format!("{:#?}", *e));
    let quoted = NodeError::new("say \"hi\"\n");
    assert_eq!(quoted.to_string(), format!("{:#?}", *quoted));
}
