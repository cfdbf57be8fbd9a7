//! The sign-in exchange as a state machine.
//!
//! [`LoginFlow::begin`] reads the request and says which provider call to make first.
//! Each outside result is then handed to [`LoginFlow::step`], which answers with the next
//! thing to do: call a provider, write to the user store, sign the token claims, or
//! answer the request. After the answer the flow accepts nothing more.
//!
//! Facebook: token call, then the store write, then signing, then the answer.
//! Google: token call, token-information call, store write, signing, answer.
//! Every failure along the way is answered at once with its [`LoginError`].

use vstd::prelude::*;
use crate::clock::{is_clock_reading, read_clock, ClockLog};
use crate::error::LoginError;
use crate::identity::{spec_user_id, token_claims, user_id_for, TokenClaims, TOKEN_LIFETIME_SECS};
use crate::json_object::JsonObject;
use crate::oauth::{
    facebook_token_call, google_token_call, spec_facebook_token_call, spec_google_token_call,
    spec_tokeninfo_call, tokeninfo_call, OAuthCall, OAuthCallView, ThirdParty,
};
use crate::user_store::{
    account_is_new, new_user_put, spec_account_is_new, spec_new_user_put, PutItemRequest,
    PutItemView, PutOutcome,
};

verus! {

/// What the service needs to know to sign users in.
pub struct LoginConfig {
    pub google_client_id: String,
    pub google_client_secret: String,
    pub facebook_client_id: String,
    pub facebook_client_secret: String,
    /// The salt mixed into every user identifier.
    pub hash_salt: String,
}

/// A sign-in request: the provider and the authorization code it issued.
pub struct LoginRequest {
    pub third_party: ThirdParty,
    pub code: String,
}

/// What a successful sign-in is answered with.
pub struct LoginReply {
    /// The signed access token.
    pub access_token: String,
    /// Whether the account did not exist before this sign-in.
    pub is_new: bool,
}

/// Where a sign-in stands.
pub enum LoginState {
    /// Waiting for Facebook's token endpoint to answer.
    AwaitingFacebookToken,
    /// Waiting for Google's token endpoint to answer.
    AwaitingGoogleToken,
    /// Waiting for Google's token-information endpoint to answer.
    AwaitingTokenInfo,
    /// Waiting for the user store to answer the write for the user `open_id`.
    AwaitingStore { open_id: String },
    /// Waiting for the token claims to be signed.
    AwaitingSignature { is_new: bool },
    /// The request has been answered.
    Finished,
}

/// The contents of a [`LoginState`].
pub enum LoginStage {
    AwaitingFacebookToken,
    AwaitingGoogleToken,
    AwaitingTokenInfo,
    AwaitingStore { open_id: Seq<char> },
    AwaitingSignature { is_new: bool },
    Finished,
}

impl View for LoginState {
    type V = LoginStage;

    open spec fn view(&self) -> LoginStage {
        match self {
            LoginState::AwaitingFacebookToken => LoginStage::AwaitingFacebookToken,
            LoginState::AwaitingGoogleToken => LoginStage::AwaitingGoogleToken,
            LoginState::AwaitingTokenInfo => LoginStage::AwaitingTokenInfo,
            LoginState::AwaitingStore { open_id } => LoginStage::AwaitingStore { open_id: open_id@ },
            LoginState::AwaitingSignature { is_new } => LoginStage::AwaitingSignature {
                is_new: *is_new,
            },
            LoginState::Finished => LoginStage::Finished,
        }
    }
}

/// An outside result handed to the flow.
pub enum LoginEvent {
    /// The last call could not be sent, or its answer could not be received.
    RequestFailed,
    /// The last call's answer was not JSON of the expected shape.
    BodyUnreadable,
    /// The last call's answer was this JSON object of string members.
    Fields(JsonObject),
    /// Google's token endpoint answered with these tokens.
    GoogleTokens { id_token: String },
    /// The user store answered the write.
    Stored(PutOutcome),
    /// The token claims were signed into this token.
    Signed { token: String },
}

/// The contents of a [`LoginEvent`].
pub enum EventView {
    RequestFailed,
    BodyUnreadable,
    Fields(Map<Seq<char>, Seq<char>>),
    GoogleTokens(Seq<char>),
    Stored(PutOutcome),
    Signed(Seq<char>),
}

impl View for LoginEvent {
    type V = EventView;

    open spec fn view(&self) -> EventView {
        match self {
            LoginEvent::RequestFailed => EventView::RequestFailed,
            LoginEvent::BodyUnreadable => EventView::BodyUnreadable,
            LoginEvent::Fields(f) => EventView::Fields(f@),
            LoginEvent::GoogleTokens { id_token } => EventView::GoogleTokens(id_token@),
            LoginEvent::Stored(o) => EventView::Stored(*o),
            LoginEvent::Signed { token } => EventView::Signed(token@),
        }
    }
}

/// What the flow asks its driver to do next.
pub enum LoginAction {
    /// Make this call to an identity provider.
    Call(OAuthCall),
    /// Make this write to the user store.
    Store(PutItemRequest),
    /// Sign these claims into an access token.
    Sign(TokenClaims),
    /// Answer the request with this.
    Respond(Result<LoginReply, LoginError>),
}

/// The contents of a [`LoginAction`].
pub enum ActionView {
    Call(OAuthCallView),
    Store(PutItemView),
    Sign { exp: int, user_id: Seq<char>, open_id: Seq<char> },
    /// The access token and the new-account flag, or the refusal.
    Respond(Result<(Seq<char>, bool), LoginError>),
}

impl View for LoginAction {
    type V = ActionView;

    open spec fn view(&self) -> ActionView {
        match self {
            LoginAction::Call(c) => ActionView::Call(c@),
            LoginAction::Store(r) => ActionView::Store(r@),
            LoginAction::Sign(c) => ActionView::Sign {
                exp: c.exp as int,
                user_id: c.user_id@,
                open_id: c.open_id@,
            },
            LoginAction::Respond(r) => ActionView::Respond(
                match r {
                    Ok(reply) => Ok((reply.access_token@, reply.is_new)),
                    Err(e) => Err(*e),
                },
            ),
        }
    }
}

/// The contents of an optional action.
pub open spec fn action_view(action: Option<LoginAction>) -> Option<ActionView> {
    match action {
        Some(a) => Some(a@),
        None => None,
    }
}

/// Answer the request with `e`, and accept nothing more.
pub open spec fn refuse(e: LoginError) -> (LoginStage, ActionView) {
    (LoginStage::Finished, ActionView::Respond(Err(e)))
}

/// How a sign-in starts: Facebook and Google are asked to exchange the code with the
/// service's credentials for them; any other provider is refused at once.
pub open spec fn spec_begin(config: LoginConfig, third_party: ThirdParty, code: Seq<char>) -> (
    LoginStage,
    ActionView,
) {
    match third_party {
        ThirdParty::Facebook => (
            LoginStage::AwaitingFacebookToken,
            ActionView::Call(
                spec_facebook_token_call(
                    code,
                    config.facebook_client_id@,
                    config.facebook_client_secret@,
                ),
            ),
        ),
        ThirdParty::Google => (
            LoginStage::AwaitingGoogleToken,
            ActionView::Call(
                spec_google_token_call(code, config.google_client_id@, config.google_client_secret@),
            ),
        ),
        ThirdParty::Unsupported => refuse(LoginError::InvalidThirdParty),
    }
}

/// What follows a provider's answer that names (or fails to name) the user: with a `sub`
/// member, the user is known by its value and the store write follows; without one, the
/// request is refused.
pub open spec fn spec_after_subject(fields: Map<Seq<char>, Seq<char>>) -> (LoginStage, ActionView) {
    if fields.contains_key("sub"@) {
        (
            LoginStage::AwaitingStore { open_id: fields["sub"@] },
            ActionView::Store(spec_new_user_put()),
        )
    } else {
        refuse(LoginError::OauthJson)
    }
}

/// What follows the store's answer for user `open_id` when the clock reads `now`: unless
/// the store failed, the claims naming the user, expiring sixty days from `now`, are to be
/// signed.
pub open spec fn spec_after_store(salt: Seq<char>, open_id: Seq<char>, outcome: PutOutcome, now: int) -> (
    LoginStage,
    ActionView,
) {
    match spec_account_is_new(outcome) {
        Ok(is_new) => (
            LoginStage::AwaitingSignature { is_new },
            ActionView::Sign {
                exp: now + TOKEN_LIFETIME_SECS,
                user_id: spec_user_id(salt, open_id),
                open_id,
            },
        ),
        Err(e) => refuse(e),
    }
}

/// The next stage and action when `event` arrives at `stage`, the service's salt being
/// `salt` and the clock reading `now`; `None` where the stage expects no such event.
pub open spec fn spec_next(salt: Seq<char>, stage: LoginStage, event: EventView, now: int) -> Option<
    (LoginStage, ActionView),
> {
    match stage {
        LoginStage::AwaitingFacebookToken => match event {
            EventView::RequestFailed => Some(refuse(LoginError::OauthRequest)),
            EventView::BodyUnreadable => Some(refuse(LoginError::OauthJson)),
            EventView::Fields(fields) => Some(spec_after_subject(fields)),
            _ => None,
        },
        LoginStage::AwaitingGoogleToken => match event {
            EventView::RequestFailed => Some(refuse(LoginError::OauthRequest)),
            EventView::BodyUnreadable => Some(refuse(LoginError::OauthJson)),
            EventView::GoogleTokens(id_token) => Some(
                (LoginStage::AwaitingTokenInfo, ActionView::Call(spec_tokeninfo_call(id_token))),
            ),
            _ => None,
        },
        LoginStage::AwaitingTokenInfo => match event {
            EventView::RequestFailed => Some(refuse(LoginError::TokeninfoRequest)),
            EventView::BodyUnreadable => Some(refuse(LoginError::OauthJson)),
            EventView::Fields(fields) => Some(spec_after_subject(fields)),
            _ => None,
        },
        LoginStage::AwaitingStore { open_id } => match event {
            EventView::Stored(outcome) => Some(spec_after_store(salt, open_id, outcome, now)),
            _ => None,
        },
        LoginStage::AwaitingSignature { is_new } => match event {
            EventView::Signed(token) => Some(
                (LoginStage::Finished, ActionView::Respond(Ok((token, is_new)))),
            ),
            _ => None,
        },
        LoginStage::Finished => None,
    }
}

/// The stage after `event` and the action asked for, if any: an event the stage does not
/// expect leaves it unchanged and asks for nothing.
pub open spec fn spec_step(salt: Seq<char>, stage: LoginStage, event: EventView, now: int) -> (
    LoginStage,
    Option<ActionView>,
) {
    match spec_next(salt, stage, event, now) {
        Some((next, action)) => (next, Some(action)),
        None => (stage, None),
    }
}

/// Whether `event` at `stage` is the store's answer, the one step that reads the clock.
pub open spec fn reads_clock(stage: LoginStage, event: EventView) -> bool {
    stage is AwaitingStore && event is Stored
}

/// A sign-in in progress.
pub struct LoginFlow {
    config: LoginConfig,
    state: LoginState,
    clock: ClockLog,
}

/// The stage after a provider's answer naming (or not) the user.
fn after_subject(fields: &JsonObject) -> (r: (LoginState, LoginAction))
    ensures
        (r.0@, r.1@) == spec_after_subject(fields@),
{
    let key = "sub".to_owned();
    match fields.get(&key) {
        Some(sub) => (LoginState::AwaitingStore { open_id: sub }, LoginAction::Store(new_user_put())),
        None => (LoginState::Finished, LoginAction::Respond(Err(LoginError::OauthJson))),
    }
}

/// Answer with refusal `e`.
fn refused(e: LoginError) -> (r: (LoginState, LoginAction))
    ensures
        (r.0@, r.1@) == refuse(e),
{
    (LoginState::Finished, LoginAction::Respond(Err(e)))
}

impl LoginFlow {
    /// Where this sign-in stands.
    pub closed spec fn stage(&self) -> LoginStage {
        self.state@
    }

    /// The salt this sign-in derives the user identifier with.
    pub closed spec fn salt(&self) -> Seq<char> {
        self.config.hash_salt@
    }

    /// The clock readings this sign-in has taken, oldest first.
    pub closed spec fn clock_readings(&self) -> Seq<i64> {
        self.clock.readings()
    }

    /// Starts the sign-in of `request` under `config`, and says what to do first
    /// (see [`spec_begin`]).
    pub fn begin(config: LoginConfig, request: &LoginRequest) -> (r: (LoginFlow, LoginAction))
        ensures
            (r.0.stage(), r.1@) == spec_begin(config, request.third_party, request.code@),
            r.0.salt() == config.hash_salt@,
            r.0.clock_readings() == Seq::<i64>::empty(),
    {
        let (state, action) = match request.third_party {
            ThirdParty::Facebook => (
                LoginState::AwaitingFacebookToken,
                LoginAction::Call(
                    facebook_token_call(
                        &request.code,
                        &config.facebook_client_id,
                        &config.facebook_client_secret,
                    ),
                ),
            ),
            ThirdParty::Google => (
                LoginState::AwaitingGoogleToken,
                LoginAction::Call(
                    google_token_call(
                        &request.code,
                        &config.google_client_id,
                        &config.google_client_secret,
                    ),
                ),
            ),
            ThirdParty::Unsupported => refused(LoginError::InvalidThirdParty),
        };
        (LoginFlow { config, state, clock: ClockLog::new() }, action)
    }

    /// Hands `event` to the sign-in, the clock reading `now`, and says what to do next
    /// (see [`spec_next`]); `None`, with the sign-in unchanged, where the current stage
    /// expects no such event. Where the clock is read, the expiry must fit in an `i64`.
    pub fn step_at(&mut self, event: LoginEvent, now: i64) -> (action: Option<LoginAction>)
        requires
            reads_clock(old(self).stage(), event@) ==> now <= i64::MAX - TOKEN_LIFETIME_SECS,
        ensures
            final(self).salt() == old(self).salt(),
            final(self).clock_readings() == old(self).clock_readings(),
            (final(self).stage(), action_view(action)) == spec_step(
                old(self).salt(),
                old(self).stage(),
                event@,
                now as int,
            ),
    {
        let (next, action) = match &self.state {
            LoginState::AwaitingFacebookToken => match event {
                LoginEvent::RequestFailed => refused(LoginError::OauthRequest),
                LoginEvent::BodyUnreadable => refused(LoginError::OauthJson),
                LoginEvent::Fields(fields) => after_subject(&fields),
                _ => {
                    return None;
                },
            },
            LoginState::AwaitingGoogleToken => match event {
                LoginEvent::RequestFailed => refused(LoginError::OauthRequest),
                LoginEvent::BodyUnreadable => refused(LoginError::OauthJson),
                LoginEvent::GoogleTokens { id_token } => (
                    LoginState::AwaitingTokenInfo,
                    LoginAction::Call(tokeninfo_call(&id_token)),
                ),
                _ => {
                    return None;
                },
            },
            LoginState::AwaitingTokenInfo => match event {
                LoginEvent::RequestFailed => refused(LoginError::TokeninfoRequest),
                LoginEvent::BodyUnreadable => refused(LoginError::OauthJson),
                LoginEvent::Fields(fields) => after_subject(&fields),
                _ => {
                    return None;
                },
            },
            LoginState::AwaitingStore { open_id } => match event {
                LoginEvent::Stored(outcome) => match account_is_new(outcome) {
                    Ok(is_new) => {
                        let user_id = user_id_for(self.config.hash_salt.as_str(), open_id.as_str());
                        let claims = token_claims(now, user_id, open_id.clone());
                        (LoginState::AwaitingSignature { is_new }, LoginAction::Sign(claims))
                    },
                    Err(e) => refused(e),
                },
                _ => {
                    return None;
                },
            },
            LoginState::AwaitingSignature { is_new } => match event {
                LoginEvent::Signed { token } => (
                    LoginState::Finished,
                    LoginAction::Respond(Ok(LoginReply { access_token: token, is_new: *is_new })),
                ),
                _ => {
                    return None;
                },
            },
            LoginState::Finished => {
                return None;
            },
        };
        self.state = next;
        Some(action)
    }

    /// Hands `event` to the sign-in and says what to do next. Where the event is the
    /// store's answer, the clock is read once, the reading is added to the clock log, and
    /// the result is what [`LoginFlow::step_at`] gives for that reading: claims to be
    /// signed then expire sixty days after it. Any other event reads no clock.
    pub fn step(&mut self, event: LoginEvent) -> (action: Option<LoginAction>)
        ensures
            final(self).salt() == old(self).salt(),
            exists|now: i64|
                #![trigger is_clock_reading(now)]
                is_clock_reading(now) && (final(self).stage(), action_view(action)) == spec_step(
                    old(self).salt(),
                    old(self).stage(),
                    event@,
                    now as int,
                ),
            reads_clock(old(self).stage(), event@) ==> {
                let readings = final(self).clock_readings();
                &&& readings.len() == old(self).clock_readings().len() + 1
                &&& readings.drop_last() == old(self).clock_readings()
                &&& is_clock_reading(readings.last())
                &&& (final(self).stage(), action_view(action)) == spec_step(
                    old(self).salt(),
                    old(self).stage(),
                    event@,
                    readings.last() as int,
                )
                &&& action matches Some(LoginAction::Sign(claims)) ==> claims.exp == readings.last()
                    + 60 * 60 * 24 * 60
            },
            !reads_clock(old(self).stage(), event@) ==> {
                &&& final(self).clock_readings() == old(self).clock_readings()
                &&& (final(self).stage(), action_view(action)) == spec_step(
                    old(self).salt(),
                    old(self).stage(),
                    event@,
                    0,
                )
                &&& !(action matches Some(LoginAction::Sign(_)))
            },
    {
        let needs_clock = match (&self.state, &event) {
            (LoginState::AwaitingStore { .. }, LoginEvent::Stored(_)) => true,
            _ => false,
        };
        let now: i64 = if needs_clock {
            read_clock(&mut self.clock)
        } else {
            0
        };
        let ghost readings = self.clock.readings();
        let action = self.step_at(event, now);
        assert(is_clock_reading(now));
        proof {
            if needs_clock {
                assert(readings.last() == now);
                assert(readings.drop_last() =~= old(self).clock_readings());
            }
        }
        action
    }

    /// Whether the request has been answered.
    pub fn is_finished(&self) -> (finished: bool)
        ensures
            finished == (self.stage() is Finished),
    {
        match self.state {
            LoginState::Finished => true,
            _ => false,
        }
    }

    /// The provider's identifier of the user, once a provider has named the user and
    /// until the store answers.
    pub fn open_id(&self) -> (id: Option<String>)
        ensures
            match self.stage() {
                LoginStage::AwaitingStore { open_id } => id matches Some(s) && s@ == open_id,
                _ => id is None,
            },
    {
        match &self.state {
            LoginState::AwaitingStore { open_id } => Some(open_id.clone()),
            _ => None,
        }
    }
}

} // verus!
