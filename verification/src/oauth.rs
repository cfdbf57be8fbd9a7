//! The calls made to the identity providers while a user signs in.
//!
//! Facebook is asked once: its token endpoint is sent the authorization code and the
//! service's client credentials. Google is asked twice: its token endpoint is sent the
//! same plus the grant type, and its token-information endpoint is then sent the ID
//! token that the first answer carried.

use vstd::prelude::*;

verus! {

/// The identity provider a sign-in request names.
#[derive(Clone, Copy, Debug, PartialEq, Eq, Structural)]
pub enum ThirdParty {
    Facebook,
    Google,
    /// Any provider this service does not support.
    Unsupported,
}

/// Facebook's token endpoint.
pub const FACEBOOK_TOKEN_URL: &'static str = "https://graph.facebook.com/oauth/access_token";

/// Google's token endpoint.
pub const GOOGLE_TOKEN_URL: &'static str = "https://oauth2.googleapis.com/token";

/// Google's token-information endpoint.
pub const GOOGLE_TOKENINFO_URL: &'static str = "https://oauth2.googleapis.com/tokeninfo?";

/// The redirect URI the service registers with both providers.
pub const REDIRECT_URI: &'static str = "https://example.com";

/// The grant type of an authorization-code exchange.
pub const GRANT_TYPE: &'static str = "authorization_code";

/// How the parameters of a call travel.
#[derive(Clone, Copy, Debug, PartialEq, Eq, Structural)]
pub enum HttpMethod {
    /// A POST whose body is the URL-encoded form of the parameters.
    PostForm,
    /// A GET whose query string holds the parameters.
    GetQuery,
}

/// What shape of JSON answer a call is read as.
#[derive(Clone, Copy, Debug, PartialEq, Eq, Structural)]
pub enum AnswerFormat {
    /// Google's token set: `id_token`, `expires_in`, `scope` and `token_type`.
    TokenSet,
    /// An object whose members are all strings.
    StringMembers,
}

/// One HTTP call to an identity provider.
pub struct OAuthCall {
    pub method: HttpMethod,
    pub url: String,
    /// The parameters, as (name, value) pairs in the order they are sent.
    pub params: Vec<(String, String)>,
    /// How the answer is to be read.
    pub answer: AnswerFormat,
}

/// The contents of an [`OAuthCall`].
pub struct OAuthCallView {
    pub method: HttpMethod,
    pub url: Seq<char>,
    pub params: Seq<(Seq<char>, Seq<char>)>,
    pub answer: AnswerFormat,
}

/// The text of each (name, value) pair.
pub open spec fn params_view(params: Seq<(String, String)>) -> Seq<(Seq<char>, Seq<char>)> {
    params.map_values(|p: (String, String)| (p.0@, p.1@))
}

impl View for OAuthCall {
    type V = OAuthCallView;

    open spec fn view(&self) -> OAuthCallView {
        OAuthCallView {
            method: self.method,
            url: self.url@,
            params: params_view(self.params@),
            answer: self.answer,
        }
    }
}

/// The call that exchanges an authorization code at Facebook's token endpoint.
pub open spec fn spec_facebook_token_call(
    code: Seq<char>,
    client_id: Seq<char>,
    client_secret: Seq<char>,
) -> OAuthCallView {
    OAuthCallView {
        method: HttpMethod::PostForm,
        url: FACEBOOK_TOKEN_URL@,
        params: seq![
            ("code"@, code),
            ("client_id"@, client_id),
            ("client_secret"@, client_secret),
            ("redirect_uri"@, REDIRECT_URI@),
        ],
        answer: AnswerFormat::StringMembers,
    }
}

/// The call that exchanges an authorization code at Google's token endpoint.
pub open spec fn spec_google_token_call(
    code: Seq<char>,
    client_id: Seq<char>,
    client_secret: Seq<char>,
) -> OAuthCallView {
    OAuthCallView {
        method: HttpMethod::PostForm,
        url: GOOGLE_TOKEN_URL@,
        params: seq![
            ("code"@, code),
            ("client_id"@, client_id),
            ("client_secret"@, client_secret),
            ("redirect_uri"@, REDIRECT_URI@),
            ("grant_type"@, GRANT_TYPE@),
        ],
        answer: AnswerFormat::TokenSet,
    }
}

/// The call that asks Google who an ID token belongs to.
pub open spec fn spec_tokeninfo_call(id_token: Seq<char>) -> OAuthCallView {
    OAuthCallView {
        method: HttpMethod::GetQuery,
        url: GOOGLE_TOKENINFO_URL@,
        params: seq![("id_token"@, id_token)],
        answer: AnswerFormat::StringMembers,
    }
}

/// A parameter named `name` with value `value`.
fn param(name: &str, value: &String) -> (p: (String, String))
    ensures
        p.0@ == name@,
        p.1@ == value@,
{
    (name.to_owned(), value.clone())
}

/// The call that exchanges `code` at Facebook's token endpoint, with the service's
/// Facebook client credentials.
pub fn facebook_token_call(code: &String, client_id: &String, client_secret: &String) -> (call:
    OAuthCall)
    ensures
        call@ == spec_facebook_token_call(code@, client_id@, client_secret@),
{
    let redirect_uri = REDIRECT_URI.to_owned();
    let mut params: Vec<(String, String)> = Vec::new();
    params.push(param("code", code));
    params.push(param("client_id", client_id));
    params.push(param("client_secret", client_secret));
    params.push(param("redirect_uri", &redirect_uri));
    let call = OAuthCall {
        method: HttpMethod::PostForm,
        url: FACEBOOK_TOKEN_URL.to_owned(),
        params,
        answer: AnswerFormat::StringMembers,
    };
    assert(call@.params =~= spec_facebook_token_call(code@, client_id@, client_secret@).params);
    call
}

/// The call that exchanges `code` at Google's token endpoint, with the service's
/// Google client credentials and the authorization-code grant type.
pub fn google_token_call(code: &String, client_id: &String, client_secret: &String) -> (call:
    OAuthCall)
    ensures
        call@ == spec_google_token_call(code@, client_id@, client_secret@),
{
    let redirect_uri = REDIRECT_URI.to_owned();
    let grant_type = GRANT_TYPE.to_owned();
    let mut params: Vec<(String, String)> = Vec::new();
    params.push(param("code", code));
    params.push(param("client_id", client_id));
    params.push(param("client_secret", client_secret));
    params.push(param("redirect_uri", &redirect_uri));
    params.push(param("grant_type", &grant_type));
    let call = OAuthCall {
        method: HttpMethod::PostForm,
        url: GOOGLE_TOKEN_URL.to_owned(),
        params,
        answer: AnswerFormat::TokenSet,
    };
    assert(call@.params =~= spec_google_token_call(code@, client_id@, client_secret@).params);
    call
}

/// The call that asks Google's token-information endpoint about `id_token`.
pub fn tokeninfo_call(id_token: &String) -> (call: OAuthCall)
    ensures
        call@ == spec_tokeninfo_call(id_token@),
{
    let mut params: Vec<(String, String)> = Vec::new();
    params.push(param("id_token", id_token));
    let call = OAuthCall {
        method: HttpMethod::GetQuery,
        url: GOOGLE_TOKENINFO_URL.to_owned(),
        params,
        answer: AnswerFormat::StringMembers,
    };
    assert(call@.params =~= spec_tokeninfo_call(id_token@).params);
    call
}

} // verus!
