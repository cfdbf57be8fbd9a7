use login_service::error::{LoginError, StatusCode};
use login_service::json_object::JsonObject;
use login_service::oauth::{
    facebook_token_call, google_token_call, tokeninfo_call, AnswerFormat, HttpMethod,
};
use login_service::user_store::{account_is_new, new_user_put, AttrValue, PutOutcome, ReturnValues};

fn s(x: &str) -> String {
    x.to_string()
}

fn pairs(v: &[(&str, &str)]) -> Vec<(String, String)> {
    v.iter().map(|(a, b)| (s(a), s(b))).collect()
}

#[test]
fn error_messages_and_codes() {
    let all = [
        (LoginError::OauthRequest, "oauth request error"),
        (LoginError::OauthJson, "oauth json error"),
        (LoginError::TokeninfoRequest, "tokeninfo request error"),
        (LoginError::InvalidThirdParty, "third party is invalid"),
        (LoginError::Database, "db error"),
    ];
    for (e, m) in all {
        assert_eq!(e.message(), m);
        assert_eq!(e.code(), StatusCode::InvalidArgument);
    }
}

#[test]
fn json_object_get_after_insert() {
    let mut obj = JsonObject::new();
    assert_eq!(obj.get(&s("sub")), None);
    obj.insert(s("sub"), s("42"));
    obj.insert(s("email"), s("a@b.c"));
    assert_eq!(obj.get(&s("sub")), Some(s("42")));
    assert_eq!(obj.get(&s("email")), Some(s("a@b.c")));
    obj.insert(s("sub"), s("43"));
    assert_eq!(obj.get(&s("sub")), Some(s("43")));
    assert_eq!(obj.get(&s("email")), Some(s("a@b.c")));
    assert_eq!(obj.get(&s("name")), None);
}

#[test]
fn facebook_token_call_contents() {
    let call = facebook_token_call(&s("the-code"), &s("fb-id"), &s("fb-secret"));
    assert_eq!(call.method, HttpMethod::PostForm);
    assert_eq!(call.url, "https://graph.facebook.com/oauth/access_token");
    assert_eq!(call.answer, AnswerFormat::StringMembers);
    assert_eq!(
        call.params,
        pairs(&[
            ("code", "the-code"),
            ("client_id", "fb-id"),
            ("client_secret", "fb-secret"),
            ("redirect_uri", "https://example.com"),
        ])
    );
}

#[test]
fn google_token_call_contents() {
    let call = google_token_call(&s("c0de"), &s("g-id"), &s("g-secret"));
    assert_eq!(call.method, HttpMethod::PostForm);
    assert_eq!(call.url, "https://oauth2.googleapis.com/token");
    assert_eq!(call.answer, AnswerFormat::TokenSet);
    assert_eq!(
        call.params,
        pairs(&[
            ("code", "c0de"),
            ("client_id", "g-id"),
            ("client_secret", "g-secret"),
            ("redirect_uri", "https://example.com"),
            ("grant_type", "authorization_code"),
        ])
    );
}

#[test]
fn tokeninfo_call_contents() {
    let call = tokeninfo_call(&s("eyJ.id.token"));
    assert_eq!(call.method, HttpMethod::GetQuery);
    assert_eq!(call.url, "https://oauth2.googleapis.com/tokeninfo?");
    assert_eq!(call.answer, AnswerFormat::StringMembers);
    assert_eq!(call.params, pairs(&[("id_token", "eyJ.id.token")]));
}

#[test]
fn new_user_put_contents() {
    let put = new_user_put();
    assert_eq!(put.table, "users");
    assert_eq!(
        put.item,
        vec![(s("openid"), AttrValue::S(s("0"))), (s("amount"), AttrValue::N(s("0")))]
    );
    assert_eq!(put.condition, "attribute_not_exists(amount)");
    assert_eq!(put.return_values, ReturnValues::AllOld);
}

#[test]
fn store_outcomes() {
    assert_eq!(account_is_new(PutOutcome::Written), Ok(true));
    assert_eq!(account_is_new(PutOutcome::ConditionFailed), Ok(false));
    assert_eq!(account_is_new(PutOutcome::Failed), Err(LoginError::Database));
}

#[test]
fn empty_hook_runs() {
    login_service::test();
}
