use waystation::exchange::{
    code_exchange_outcome, credential_from_tokens, expires_at, refresh_outcome,
    refreshed_credential, token_response_from_json, user_info_outcome, way_key_contents,
};
use waystation::json::JsonValue;
use waystation::model::{AuthData, AuthError, TokenResponse, UserInfo};
use waystation::pkce::{generate_code_challenge, generate_code_verifier, generate_state};
use waystation::query::parse_callback;
use waystation::session::{AuthConfig, AuthSession, TokenRequest};
use waystation::store::{credential_to_json, load_credential, StoredRecord};

fn s(v: &str) -> String {
    v.to_string()
}

fn obj(members: Vec<(&str, JsonValue)>) -> JsonValue {
    JsonValue::Object(members.into_iter().map(|(k, v)| (k.to_string(), v)).collect())
}

fn form_value(req: &TokenRequest, key: &str) -> Option<String> {
    req.form.iter().find(|(k, _)| k == key).map(|(_, v)| v.clone())
}

fn url_param(url: &str, key: &str) -> Option<String> {
    let parsed = url::Url::parse(url).unwrap();
    let found = parsed.query_pairs().find(|(k, _)| k == key).map(|(_, v)| v.into_owned());
    found
}

fn session() -> AuthSession {
    AuthSession::new(AuthConfig::waystation())
}

fn full_credential() -> AuthData {
    AuthData {
        access_token: s("at-1"),
        refresh_token: Some(s("r1")),
        id_token: Some(s("id-1")),
        expires_at: Some(1_700_000_000),
        user_info: Some(UserInfo {
            sub: s("user_42"),
            name: Some(s("Ada \"Countess\" Lovelace")),
            email: None,
            picture: Some(s("https://example.com/p.png")),
        }),
    }
}

fn tokens(refresh: Option<&str>, id: Option<&str>, expires_in: Option<u64>) -> TokenResponse {
    TokenResponse {
        access_token: s("at-2"),
        refresh_token: refresh.map(s),
        id_token: id.map(s),
        token_type: s("Bearer"),
        expires_in,
    }
}

#[test]
fn challenge_matches_published_example() {
    let c = generate_code_challenge("dBjftJeZ4CVP-mB92K27uhbUJU1p1r_wW1gFWFOEjXk");
    assert_eq!(c, "E9Melhoa2OwvFrEMTJguCHaoeK1t8URWbuGJSstw-cM");
}

#[test]
fn challenge_is_deterministic() {
    let v = generate_code_verifier();
    assert_eq!(generate_code_challenge(&v), generate_code_challenge(&v));
    assert_eq!(generate_code_challenge(&v).len(), 43);
}

#[test]
fn verifiers_are_long_alphanumeric_and_distinct() {
    let a = generate_code_verifier();
    let b = generate_code_verifier();
    assert_eq!(a.len(), 64);
    assert!(a.chars().all(|c| c.is_ascii_alphanumeric()));
    assert_ne!(a, b);
}

#[test]
fn states_are_32_alphanumeric_and_distinct() {
    let a = generate_state();
    let b = generate_state();
    assert_eq!(a.len(), 32);
    assert!(a.chars().all(|c| c.is_ascii_alphanumeric()));
    assert_ne!(a, b);
}

#[test]
fn authorization_url_is_exact() {
    let mut sess = session();
    let url = sess.begin_login(s("verifier-1"), s("state-1")).unwrap();
    let challenge = generate_code_challenge("verifier-1");
    assert_eq!(
        url,
        format!(
            "https://clerk.waystation.ai/oauth/authorize?client_id=5xEs1bi3TY8JNVHx\
             &redirect_uri=waystation%3A%2F%2Foauth%2Fcallback&response_type=code\
             &scope=profile+email&code_challenge={}&code_challenge_method=S256&state=state-1",
            challenge
        )
    );
    let p = sess.pending.as_ref().unwrap();
    assert_eq!(p.code_verifier, "verifier-1");
    assert_eq!(p.state, "state-1");
}

#[test]
fn malformed_authorize_url_is_configuration_error() {
    let mut cfg = AuthConfig::waystation();
    cfg.authorize_url = s("not a url");
    let mut sess = AuthSession::new(cfg);
    let r = sess.begin_login(s("v"), s("st"));
    assert!(matches!(r, Err(AuthError::Configuration)));
    assert!(sess.pending.is_some());
}

#[test]
fn second_login_replaces_pending() {
    let mut sess = session();
    sess.begin_login(s("v1"), s("s1")).unwrap();
    sess.begin_login(s("v2"), s("s2")).unwrap();
    let r = sess.accept_redirect("waystation://oauth/callback?code=abc&state=s1");
    assert!(matches!(r, Err(AuthError::StateMismatch)));
}

#[test]
fn login_then_matching_callback_exchanges_code() {
    let mut sess = session();
    let url = sess.login().unwrap();
    let state = url_param(&url, "state").unwrap();
    let challenge = url_param(&url, "code_challenge").unwrap();
    assert_eq!(url_param(&url, "code_challenge_method").unwrap(), "S256");
    let callback = format!("waystation://oauth/callback?code=abc&state={}", state);
    let req = sess.accept_redirect(&callback).unwrap();
    assert_eq!(req.url, "https://clerk.waystation.ai/oauth/token");
    let verifier = form_value(&req, "code_verifier").unwrap();
    assert_eq!(generate_code_challenge(&verifier), challenge);
    let keys: Vec<&str> = req.form.iter().map(|(k, _)| k.as_str()).collect();
    assert_eq!(keys, vec!["client_id", "code", "code_verifier", "grant_type", "redirect_uri"]);
    assert_eq!(form_value(&req, "code").unwrap(), "abc");
    assert_eq!(form_value(&req, "client_id").unwrap(), "5xEs1bi3TY8JNVHx");
    assert_eq!(form_value(&req, "grant_type").unwrap(), "authorization_code");
    assert_eq!(form_value(&req, "redirect_uri").unwrap(), "waystation://oauth/callback");
    assert!(sess.pending.is_none());
}

#[test]
fn wrong_state_is_rejected_and_clears_pending() {
    let mut sess = session();
    sess.login().unwrap();
    let r = sess.accept_redirect("waystation://oauth/callback?code=abc&state=WRONG");
    assert!(matches!(r, Err(AuthError::StateMismatch)));
    assert!(sess.pending.is_none());
}

#[test]
fn state_prefix_is_not_a_match() {
    let mut sess = session();
    sess.begin_login(s("v"), s("abcdef")).unwrap();
    let r = sess.accept_redirect("waystation://oauth/callback?code=x&state=abc");
    assert!(matches!(r, Err(AuthError::StateMismatch)));
}

#[test]
fn same_callback_twice_fails_the_second_time() {
    let mut sess = session();
    sess.begin_login(s("v"), s("st")).unwrap();
    let cb = "waystation://oauth/callback?code=abc&state=st";
    assert!(sess.accept_redirect(cb).is_ok());
    assert!(matches!(sess.accept_redirect(cb), Err(AuthError::NoPendingAuthorization)));
}

#[test]
fn callback_without_login_has_no_pending() {
    let mut sess = session();
    let r = sess.accept_redirect("waystation://oauth/callback?code=abc&state=st");
    assert!(matches!(r, Err(AuthError::NoPendingAuthorization)));
}

#[test]
fn callback_without_code_keeps_pending() {
    let mut sess = session();
    sess.begin_login(s("v"), s("st")).unwrap();
    let r = sess.accept_redirect("waystation://oauth/callback?error=access_denied&state=st");
    assert!(matches!(r, Err(AuthError::MissingCode)));
    assert!(sess.pending.is_some());
}

#[test]
fn callback_without_state_is_missing_state() {
    let mut sess = session();
    sess.begin_login(s("v"), s("st")).unwrap();
    let r = sess.accept_redirect("waystation://oauth/callback?code=abc");
    assert!(matches!(r, Err(AuthError::MissingState)));
    assert!(sess.pending.is_some());
}

#[test]
fn unparseable_callback_is_rejected() {
    let mut sess = session();
    let r = sess.accept_redirect("no scheme here");
    assert!(matches!(r, Err(AuthError::InvalidCallbackUri)));
}

#[test]
fn callback_parameters_are_decoded_and_last_wins() {
    let (code, state) =
        parse_callback("waystation://oauth/callback?code=a%20b&state=one&state=two").unwrap();
    assert_eq!(code, "a b");
    assert_eq!(state, "two");
}

#[test]
fn token_endpoint_refusal_surfaces_body() {
    let body = s("{\"error\":\"invalid_grant\"}");
    let parsed = obj(vec![("error", JsonValue::Str(s("invalid_grant")))]);
    let r = code_exchange_outcome(400, body, Some(parsed));
    match r {
        Err(AuthError::TokenExchangeFailed(b)) => assert_eq!(b, "{\"error\":\"invalid_grant\"}"),
        other => panic!("unexpected {:?}", other),
    }
}

#[test]
fn refresh_refusal_is_token_refresh_failed() {
    let r = refresh_outcome(401, s("denied"), None);
    assert!(matches!(r, Err(AuthError::TokenRefreshFailed(ref b)) if b == "denied"));
}

#[test]
fn successful_token_response_is_read() {
    let body = obj(vec![
        ("access_token", JsonValue::Str(s("at"))),
        ("token_type", JsonValue::Str(s("Bearer"))),
        ("expires_in", JsonValue::Unsigned(3600)),
        ("refresh_token", JsonValue::Null),
        ("scope", JsonValue::Str(s("profile email"))),
    ]);
    let t = code_exchange_outcome(200, s("..."), Some(body)).unwrap();
    assert_eq!(t.access_token, "at");
    assert_eq!(t.token_type, "Bearer");
    assert_eq!(t.expires_in, Some(3600));
    assert_eq!(t.refresh_token, None);
    assert_eq!(t.id_token, None);
}

#[test]
fn success_without_token_is_malformed() {
    let body = obj(vec![("token_type", JsonValue::Str(s("Bearer")))]);
    assert!(matches!(
        code_exchange_outcome(200, s("{}"), Some(body)),
        Err(AuthError::MalformedTokenResponse)
    ));
    assert!(matches!(
        code_exchange_outcome(204, s(""), None),
        Err(AuthError::MalformedTokenResponse)
    ));
    let wrong_type = obj(vec![
        ("access_token", JsonValue::Str(s("at"))),
        ("token_type", JsonValue::Str(s("Bearer"))),
        ("expires_in", JsonValue::Number(s("-5"))),
    ]);
    assert!(token_response_from_json(&wrong_type).is_none());
}

#[test]
fn user_info_failure_is_absent() {
    let profile = obj(vec![("sub", JsonValue::Str(s("u1"))), ("email", JsonValue::Str(s("a@b.c")))]);
    let u = user_info_outcome(200, Some(profile)).unwrap();
    assert_eq!(u.sub, "u1");
    assert_eq!(u.email.as_deref(), Some("a@b.c"));
    assert_eq!(u.name, None);
    let profile = obj(vec![("sub", JsonValue::Str(s("u1")))]);
    assert!(user_info_outcome(500, Some(profile)).is_none());
    assert!(user_info_outcome(200, None).is_none());
    assert!(user_info_outcome(200, Some(obj(vec![("name", JsonValue::Str(s("x")))]))).is_none());
}

#[test]
fn exchange_computes_absolute_expiry() {
    let c = credential_from_tokens(tokens(Some("r"), None, Some(3600)), None, 1_000);
    assert_eq!(c.access_token, "at-2");
    assert_eq!(c.refresh_token.as_deref(), Some("r"));
    assert_eq!(c.expires_at, Some(4_600));
    assert!(c.user_info.is_none());
    assert_eq!(expires_at(1_000, None), None);
    assert_eq!(expires_at(u64::MAX - 1, Some(10)), Some(u64::MAX));
}

#[test]
fn refresh_keeps_prior_refresh_token() {
    let prior = full_credential();
    let c = refreshed_credential(prior, tokens(None, None, Some(60)), 100);
    assert_eq!(c.access_token, "at-2");
    assert_eq!(c.refresh_token.as_deref(), Some("r1"));
    assert_eq!(c.id_token.as_deref(), Some("id-1"));
    assert_eq!(c.expires_at, Some(160));
    assert_eq!(c.user_info.unwrap().sub, "user_42");
}

#[test]
fn refresh_takes_new_tokens_when_sent() {
    let c = refreshed_credential(full_credential(), tokens(Some("r2"), Some("id-2"), None), 100);
    assert_eq!(c.refresh_token.as_deref(), Some("r2"));
    assert_eq!(c.id_token.as_deref(), Some("id-2"));
    assert_eq!(c.expires_at, None);
}

#[test]
fn refresh_request_needs_refresh_token() {
    let sess = session();
    assert!(matches!(sess.refresh_request(&None), Err(AuthError::NoCredential)));
    let mut c = full_credential();
    c.refresh_token = None;
    assert!(matches!(sess.refresh_request(&Some(c)), Err(AuthError::NoRefreshToken)));
    let req = sess.refresh_request(&Some(full_credential())).unwrap();
    assert_eq!(req.url, "https://clerk.waystation.ai/oauth/token");
    assert_eq!(
        req.form,
        vec![
            (s("client_id"), s("5xEs1bi3TY8JNVHx")),
            (s("refresh_token"), s("r1")),
            (s("grant_type"), s("refresh_token")),
        ]
    );
}

#[test]
fn save_then_load_round_trips() {
    let c = full_credential();
    let loaded = load_credential(StoredRecord::Document(credential_to_json(&c))).unwrap().unwrap();
    assert_eq!(loaded.access_token, c.access_token);
    assert_eq!(loaded.refresh_token, c.refresh_token);
    assert_eq!(loaded.id_token, c.id_token);
    assert_eq!(loaded.expires_at, c.expires_at);
    let (a, b) = (loaded.user_info.unwrap(), c.user_info.unwrap());
    assert_eq!(a.sub, b.sub);
    assert_eq!(a.name, b.name);
    assert_eq!(a.email, b.email);
    assert_eq!(a.picture, b.picture);
}

#[test]
fn minimal_credential_round_trips() {
    let c = AuthData {
        access_token: s(""),
        refresh_token: None,
        id_token: None,
        expires_at: None,
        user_info: None,
    };
    let loaded = load_credential(StoredRecord::Document(credential_to_json(&c))).unwrap().unwrap();
    assert_eq!(loaded.access_token, "");
    assert!(loaded.refresh_token.is_none() && loaded.id_token.is_none());
    assert!(loaded.expires_at.is_none() && loaded.user_info.is_none());
}

#[test]
fn missing_file_loads_nothing() {
    assert!(matches!(load_credential(StoredRecord::Absent), Ok(None)));
}

#[test]
fn corrupt_file_is_reported() {
    assert!(matches!(load_credential(StoredRecord::Unreadable), Err(AuthError::CorruptCredential)));
    let no_token = obj(vec![("refresh_token", JsonValue::Str(s("r")))]);
    assert!(matches!(
        load_credential(StoredRecord::Document(no_token)),
        Err(AuthError::CorruptCredential)
    ));
    let bad_expiry = obj(vec![
        ("access_token", JsonValue::Str(s("a"))),
        ("expires_at", JsonValue::Str(s("soon"))),
    ]);
    assert!(matches!(
        load_credential(StoredRecord::Document(bad_expiry)),
        Err(AuthError::CorruptCredential)
    ));
    assert!(matches!(
        load_credential(StoredRecord::Document(JsonValue::Array(vec![]))),
        Err(AuthError::CorruptCredential)
    ));
}

#[test]
fn stored_fields_may_be_absent_or_null() {
    let doc = obj(vec![
        ("access_token", JsonValue::Str(s("a"))),
        ("id_token", JsonValue::Null),
        ("user_info", JsonValue::Null),
        ("extra", JsonValue::Bool(true)),
    ]);
    let c = load_credential(StoredRecord::Document(doc)).unwrap().unwrap();
    assert_eq!(c.access_token, "a");
    assert!(c.refresh_token.is_none() && c.id_token.is_none() && c.user_info.is_none());
}

#[test]
fn credential_json_has_expected_shape() {
    let j = credential_to_json(&full_credential());
    match j {
        JsonValue::Object(ms) => {
            let keys: Vec<&str> = ms.iter().map(|(k, _)| k.as_str()).collect();
            assert_eq!(keys, vec!["access_token", "refresh_token", "id_token", "expires_at", "user_info"]);
            assert!(matches!(&ms[3].1, JsonValue::Unsigned(1_700_000_000)));
        }
        other => panic!("unexpected {:?}", other),
    }
}

#[test]
fn way_key_is_bearer_token() {
    assert_eq!(way_key_contents("abc"), "Bearer abc");
}
