use login_service::error::LoginError;
use login_service::identity::{user_id_for, TOKEN_LIFETIME_SECS};
use login_service::json_object::JsonObject;
use login_service::login::{LoginAction, LoginConfig, LoginEvent, LoginFlow, LoginRequest};
use login_service::oauth::{HttpMethod, ThirdParty};
use login_service::user_store::PutOutcome;

fn s(x: &str) -> String {
    x.to_string()
}

fn config() -> LoginConfig {
    LoginConfig {
        google_client_id: s("g-id"),
        google_client_secret: s("g-secret"),
        facebook_client_id: s("fb-id"),
        facebook_client_secret: s("fb-secret"),
        hash_salt: s("pepper"),
    }
}

fn request(third_party: ThirdParty) -> LoginRequest {
    LoginRequest { third_party, code: s("auth-code") }
}

fn fields(members: &[(&str, &str)]) -> JsonObject {
    let mut obj = JsonObject::new();
    for (k, v) in members {
        obj.insert(s(k), s(v));
    }
    obj
}

fn expect_call(action: Option<LoginAction>) -> (HttpMethod, String, Vec<(String, String)>) {
    match action {
        Some(LoginAction::Call(call)) => (call.method, call.url, call.params),
        _ => panic!("expected a provider call"),
    }
}

fn expect_refusal(action: Option<LoginAction>) -> LoginError {
    match action {
        Some(LoginAction::Respond(Err(e))) => e,
        _ => panic!("expected a refusal"),
    }
}

fn expect_reply(action: Option<LoginAction>) -> (String, bool) {
    match action {
        Some(LoginAction::Respond(Ok(reply))) => (reply.access_token, reply.is_new),
        _ => panic!("expected a reply"),
    }
}

fn facebook_at_store() -> LoginFlow {
    let (mut flow, first) = LoginFlow::begin(config(), &request(ThirdParty::Facebook));
    let (method, url, params) = expect_call(Some(first));
    assert_eq!(method, HttpMethod::PostForm);
    assert_eq!(url, "https://graph.facebook.com/oauth/access_token");
    assert_eq!(params[0], (s("code"), s("auth-code")));
    assert_eq!(params[1], (s("client_id"), s("fb-id")));
    assert_eq!(params[2], (s("client_secret"), s("fb-secret")));
    match flow.step(LoginEvent::Fields(fields(&[("sub", "fb-user-7"), ("name", "X")]))) {
        Some(LoginAction::Store(put)) => assert_eq!(put.table, "users"),
        _ => panic!("expected the store write"),
    }
    assert_eq!(flow.open_id(), Some(s("fb-user-7")));
    flow
}

#[test]
fn facebook_sign_in_of_a_new_account() {
    let mut flow = facebook_at_store();
    let claims = match flow.step_at(LoginEvent::Stored(PutOutcome::Written), 1_700_000_000) {
        Some(LoginAction::Sign(claims)) => claims,
        _ => panic!("expected claims to sign"),
    };
    assert_eq!(claims.exp, 1_700_000_000 + 5_184_000);
    assert_eq!(claims.open_id, "fb-user-7");
    assert_eq!(claims.user_id, user_id_for("pepper", "fb-user-7"));
    assert_eq!(flow.open_id(), None);
    let (token, is_new) = expect_reply(flow.step(LoginEvent::Signed { token: s("jwt") }));
    assert_eq!(token, "jwt");
    assert!(is_new);
    assert!(flow.is_finished());
}

#[test]
fn returning_account_is_not_new() {
    let mut flow = facebook_at_store();
    assert!(matches!(
        flow.step_at(LoginEvent::Stored(PutOutcome::ConditionFailed), 0),
        Some(LoginAction::Sign(_))
    ));
    let (_, is_new) = expect_reply(flow.step(LoginEvent::Signed { token: s("t") }));
    assert!(!is_new);
}

#[test]
fn store_failure_is_a_db_error() {
    let mut flow = facebook_at_store();
    assert_eq!(expect_refusal(flow.step(LoginEvent::Stored(PutOutcome::Failed))), LoginError::Database);
    assert!(flow.is_finished());
}

#[test]
fn step_reads_the_clock_for_the_expiry() {
    let mut flow = facebook_at_store();
    let claims = match flow.step(LoginEvent::Stored(PutOutcome::Written)) {
        Some(LoginAction::Sign(claims)) => claims,
        _ => panic!("expected claims to sign"),
    };
    // Any sensible clock reads after 2020 and before 2200.
    assert!(claims.exp > 1_577_836_800 + TOKEN_LIFETIME_SECS);
    assert!(claims.exp < 7_258_118_400 + TOKEN_LIFETIME_SECS);
}

#[test]
fn google_sign_in() {
    let (mut flow, first) = LoginFlow::begin(config(), &request(ThirdParty::Google));
    let (method, url, params) = expect_call(Some(first));
    assert_eq!(method, HttpMethod::PostForm);
    assert_eq!(url, "https://oauth2.googleapis.com/token");
    assert_eq!(params[1], (s("client_id"), s("g-id")));
    assert_eq!(params[4], (s("grant_type"), s("authorization_code")));
    let (method, url, params) =
        expect_call(flow.step(LoginEvent::GoogleTokens { id_token: s("id-tok") }));
    assert_eq!(method, HttpMethod::GetQuery);
    assert_eq!(url, "https://oauth2.googleapis.com/tokeninfo?");
    assert_eq!(params, vec![(s("id_token"), s("id-tok"))]);
    assert!(matches!(
        flow.step(LoginEvent::Fields(fields(&[("sub", "g-555"), ("aud", "g-id")]))),
        Some(LoginAction::Store(_))
    ));
    let claims = match flow.step_at(LoginEvent::Stored(PutOutcome::Written), 100) {
        Some(LoginAction::Sign(claims)) => claims,
        _ => panic!("expected claims to sign"),
    };
    assert_eq!(claims.open_id, "g-555");
    assert_eq!(claims.exp, 5_184_100);
    let (token, is_new) = expect_reply(flow.step(LoginEvent::Signed { token: s("signed") }));
    assert_eq!((token.as_str(), is_new), ("signed", true));
}

#[test]
fn unsupported_provider_is_refused() {
    let (flow, first) = LoginFlow::begin(config(), &request(ThirdParty::Unsupported));
    assert_eq!(expect_refusal(Some(first)), LoginError::InvalidThirdParty);
    assert!(flow.is_finished());
}

#[test]
fn provider_failures() {
    let (mut flow, _) = LoginFlow::begin(config(), &request(ThirdParty::Facebook));
    assert_eq!(expect_refusal(flow.step(LoginEvent::RequestFailed)), LoginError::OauthRequest);

    let (mut flow, _) = LoginFlow::begin(config(), &request(ThirdParty::Facebook));
    assert_eq!(expect_refusal(flow.step(LoginEvent::BodyUnreadable)), LoginError::OauthJson);

    let (mut flow, _) = LoginFlow::begin(config(), &request(ThirdParty::Facebook));
    let no_sub = fields(&[("error", "bad code")]);
    assert_eq!(expect_refusal(flow.step(LoginEvent::Fields(no_sub))), LoginError::OauthJson);

    let (mut flow, _) = LoginFlow::begin(config(), &request(ThirdParty::Google));
    assert_eq!(expect_refusal(flow.step(LoginEvent::RequestFailed)), LoginError::OauthRequest);

    let (mut flow, _) = LoginFlow::begin(config(), &request(ThirdParty::Google));
    assert_eq!(expect_refusal(flow.step(LoginEvent::BodyUnreadable)), LoginError::OauthJson);
}

#[test]
fn tokeninfo_failures() {
    let at_tokeninfo = || {
        let (mut flow, _) = LoginFlow::begin(config(), &request(ThirdParty::Google));
        assert!(flow.step(LoginEvent::GoogleTokens { id_token: s("t") }).is_some());
        flow
    };
    let mut flow = at_tokeninfo();
    assert_eq!(expect_refusal(flow.step(LoginEvent::RequestFailed)), LoginError::TokeninfoRequest);
    let mut flow = at_tokeninfo();
    assert_eq!(expect_refusal(flow.step(LoginEvent::BodyUnreadable)), LoginError::OauthJson);
    let mut flow = at_tokeninfo();
    assert_eq!(
        expect_refusal(flow.step(LoginEvent::Fields(JsonObject::new()))),
        LoginError::OauthJson
    );
}

#[test]
fn unexpected_events_are_not_accepted() {
    let (mut flow, _) = LoginFlow::begin(config(), &request(ThirdParty::Facebook));
    assert!(flow.step(LoginEvent::GoogleTokens { id_token: s("t") }).is_none());
    assert!(flow.step(LoginEvent::Signed { token: s("t") }).is_none());
    // The flow is still waiting for Facebook.
    assert_eq!(expect_refusal(flow.step(LoginEvent::RequestFailed)), LoginError::OauthRequest);
}

#[test]
fn finished_flow_accepts_nothing() {
    let (mut flow, _) = LoginFlow::begin(config(), &request(ThirdParty::Unsupported));
    assert!(flow.step(LoginEvent::RequestFailed).is_none());
    assert!(flow.step(LoginEvent::Stored(PutOutcome::Written)).is_none());
    assert!(flow.step(LoginEvent::Signed { token: s("t") }).is_none());
    assert!(flow.is_finished());
}

#[test]
fn same_subject_same_user_id_whether_new_or_returning() {
    let mut first = facebook_at_store();
    let mut second = facebook_at_store();
    let a = match first.step_at(LoginEvent::Stored(PutOutcome::Written), 10) {
        Some(LoginAction::Sign(c)) => c.user_id,
        _ => panic!(),
    };
    let b = match second.step_at(LoginEvent::Stored(PutOutcome::ConditionFailed), 99_999) {
        Some(LoginAction::Sign(c)) => c.user_id,
        _ => panic!(),
    };
    assert_eq!(a, b);
}
