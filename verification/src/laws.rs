//! Properties of the sign-in exchange that hold across its steps.

use vstd::prelude::*;
use crate::error::LoginError;
use crate::identity::{
    base85_text, lemma_encode_utf8_concat, sha256_digest, spec_user_id, TOKEN_LIFETIME_SECS,
};
use vstd::utf8::encode_utf8;
use crate::login::{
    refuse, spec_begin, spec_next, ActionView, EventView, LoginConfig, LoginStage,
};
use crate::oauth::{AnswerFormat, HttpMethod, ThirdParty};
use crate::user_store::{AttrValueView, PutItemView, PutOutcome, ReturnValues};

verus! {

/// How many more outside results a sign-in at `stage` can take before it is answered.
pub open spec fn results_left(stage: LoginStage) -> nat {
    match stage {
        LoginStage::AwaitingGoogleToken => 4,
        LoginStage::AwaitingFacebookToken => 3,
        LoginStage::AwaitingTokenInfo => 3,
        LoginStage::AwaitingStore { .. } => 2,
        LoginStage::AwaitingSignature { .. } => 1,
        LoginStage::Finished => 0,
    }
}

/// Whether `event` is a possible result of doing `action`: a provider call ends in a
/// failed request, an unreadable answer, or an answer of the shape the call expects; a
/// store write in the store's answer; a signing in the signed token. An answer to the
/// request has no result.
pub open spec fn is_result_of(action: ActionView, event: EventView) -> bool {
    match action {
        ActionView::Call(call) => match event {
            EventView::RequestFailed => true,
            EventView::BodyUnreadable => true,
            EventView::Fields(_) => call.answer == AnswerFormat::StringMembers,
            EventView::GoogleTokens(_) => call.answer == AnswerFormat::TokenSet,
            _ => false,
        },
        ActionView::Store(_) => event is Stored,
        ActionView::Sign { .. } => event is Signed,
        ActionView::Respond(_) => false,
    }
}

/// Every result of what the sign-in asks for is accepted: after the start and after each
/// step, any possible result of the action asked for leads to a next step.
pub proof fn lemma_results_accepted(
    config: LoginConfig,
    third_party: ThirdParty,
    code: Seq<char>,
    salt: Seq<char>,
    stage: LoginStage,
    earlier: EventView,
    earlier_now: int,
    event: EventView,
    now: int,
)
    ensures
        is_result_of(spec_begin(config, third_party, code).1, event) ==> spec_next(
            salt,
            spec_begin(config, third_party, code).0,
            event,
            now,
        ) is Some,
        spec_next(salt, stage, earlier, earlier_now) matches Some((next, action)) ==> (
        is_result_of(action, event) ==> spec_next(salt, next, event, now) is Some),
{
}

/// A request that names no supported provider is refused as invalid at once, before
/// anything is asked of anyone.
pub proof fn lemma_unsupported_provider_refused(config: LoginConfig, code: Seq<char>)
    ensures
        spec_begin(config, ThirdParty::Unsupported, code) == refuse(LoginError::InvalidThirdParty),
{
}

/// A sign-in is answered exactly when it finishes: the action is an answer if and only if
/// the next stage is the final one, both at the start and at every step.
pub proof fn lemma_answer_iff_finished(
    config: LoginConfig,
    third_party: ThirdParty,
    code: Seq<char>,
    salt: Seq<char>,
    stage: LoginStage,
    event: EventView,
    now: int,
)
    ensures
        (spec_begin(config, third_party, code).1 is Respond) == (spec_begin(
            config,
            third_party,
            code,
        ).0 is Finished),
        spec_next(salt, stage, event, now) matches Some((next, action)) ==> ((action is Respond)
            == (next is Finished)),
{
}

/// Once answered, a sign-in accepts no further result.
pub proof fn lemma_finished_accepts_nothing(salt: Seq<char>, event: EventView, now: int)
    ensures
        spec_next(salt, LoginStage::Finished, event, now) is None,
{
}

/// Every accepted result brings the sign-in closer to its answer, and it starts at most
/// four results away from it: no sign-in takes more than four outside results.
pub proof fn lemma_progress(
    config: LoginConfig,
    third_party: ThirdParty,
    code: Seq<char>,
    salt: Seq<char>,
    stage: LoginStage,
    event: EventView,
    now: int,
)
    ensures
        results_left(spec_begin(config, third_party, code).0) <= 4,
        spec_next(salt, stage, event, now) matches Some((next, _)) ==> results_left(next)
            < results_left(stage),
{
}

/// Facebook is asked only once: after its token answer, no further provider call follows.
pub proof fn lemma_facebook_asked_once(salt: Seq<char>, event: EventView, now: int)
    ensures
        spec_next(salt, LoginStage::AwaitingFacebookToken, event, now) matches Some((next, action))
            ==> !(action is Call) && !(next is AwaitingTokenInfo),
{
}

/// Google's token-information endpoint is asked with a GET, and about exactly the ID token
/// that Google's token endpoint handed back.
pub proof fn lemma_tokeninfo_asks_about_id_token(salt: Seq<char>, id_token: Seq<char>, now: int)
    ensures
        spec_next(salt, LoginStage::AwaitingGoogleToken, EventView::GoogleTokens(id_token), now)
            matches Some((LoginStage::AwaitingTokenInfo, ActionView::Call(call))) && call.method
            == HttpMethod::GetQuery && call.url == "https://oauth2.googleapis.com/tokeninfo?"@
            && call.params == seq![("id_token"@, id_token)] && call.answer
            == AnswerFormat::StringMembers,
{
}

/// The claims to be signed name the user exactly as the provider's `sub` member did,
/// carry the identifier derived from the salt and that subject, and expire sixty days
/// after the clock reading, whether the account is new or returning.
pub proof fn lemma_claims_name_the_subject(
    salt: Seq<char>,
    from_google: bool,
    fields: Map<Seq<char>, Seq<char>>,
    outcome: PutOutcome,
    now: int,
)
    requires
        fields.contains_key("sub"@),
        outcome != PutOutcome::Failed,
    ensures
        ({
            let provider_stage = if from_google {
                LoginStage::AwaitingTokenInfo
            } else {
                LoginStage::AwaitingFacebookToken
            };
            &&& spec_next(salt, provider_stage, EventView::Fields(fields), now) matches Some(
                (LoginStage::AwaitingStore { open_id }, ActionView::Store(_)),
            ) && open_id == fields["sub"@]
            &&& spec_next(
                salt,
                LoginStage::AwaitingStore { open_id: fields["sub"@] },
                EventView::Stored(outcome),
                now,
            ) matches Some((_, ActionView::Sign { exp, user_id, open_id }))
                && open_id == fields["sub"@] && user_id == spec_user_id(salt, fields["sub"@])
                && exp == now + TOKEN_LIFETIME_SECS
        }),
{
}

/// A provider answer without a `sub` member refuses the sign-in as a JSON error.
pub proof fn lemma_missing_subject_refused(
    salt: Seq<char>,
    from_google: bool,
    fields: Map<Seq<char>, Seq<char>>,
    now: int,
)
    requires
        !fields.contains_key("sub"@),
    ensures
        spec_next(
            salt,
            if from_google {
                LoginStage::AwaitingTokenInfo
            } else {
                LoginStage::AwaitingFacebookToken
            },
            EventView::Fields(fields),
            now,
        ) == Some(refuse(LoginError::OauthJson)),
{
}

/// The same subject always gets the same user identifier: neither whether the account is
/// new nor when the sign-in happens changes it.
pub proof fn lemma_user_id_stable(
    salt: Seq<char>,
    open_id: Seq<char>,
    outcome1: PutOutcome,
    outcome2: PutOutcome,
    now1: int,
    now2: int,
)
    requires
        outcome1 != PutOutcome::Failed,
        outcome2 != PutOutcome::Failed,
    ensures
        ({
            let stage = LoginStage::AwaitingStore { open_id };
            spec_next(salt, stage, EventView::Stored(outcome1), now1) matches Some(
                (_, ActionView::Sign { user_id: id1, .. }),
            ) && spec_next(salt, stage, EventView::Stored(outcome2), now2) matches Some(
                (_, ActionView::Sign { user_id: id2, .. }),
            ) && id1 == id2
        }),
{
}

/// The answer to a successful sign-in carries the signed token, and says the account is
/// new exactly when the store wrote the item; a store failure refuses the sign-in.
pub proof fn lemma_answer_reflects_store(
    salt: Seq<char>,
    open_id: Seq<char>,
    outcome: PutOutcome,
    token: Seq<char>,
    now1: int,
    now2: int,
)
    ensures
        ({
            let stored = spec_next(
                salt,
                LoginStage::AwaitingStore { open_id },
                EventView::Stored(outcome),
                now1,
            );
            if outcome == PutOutcome::Failed {
                stored == Some(refuse(LoginError::Database))
            } else {
                stored matches Some((signing, _)) && spec_next(
                    salt,
                    signing,
                    EventView::Signed(token),
                    now2,
                ) == Some(
                    (
                        LoginStage::Finished,
                        ActionView::Respond(Ok((token, outcome == PutOutcome::Written))),
                    ),
                )
            }
        }),
{
}

/// A sign-in starts by sending the requested provider's token endpoint, as a form POST,
/// exactly the authorization code given and the client id and secret configured for that
/// provider, with the registered redirect URI; Google is also sent the
/// authorization-code grant type, and its answer is read as a token set.
pub proof fn lemma_begin_sends_provider_credentials(config: LoginConfig, code: Seq<char>)
    ensures
        spec_begin(config, ThirdParty::Google, code) matches (
            LoginStage::AwaitingGoogleToken,
            ActionView::Call(call),
        ) && call.method == HttpMethod::PostForm && call.url
            == "https://oauth2.googleapis.com/token"@ && call.params == seq![
            ("code"@, code),
            ("client_id"@, config.google_client_id@),
            ("client_secret"@, config.google_client_secret@),
            ("redirect_uri"@, "https://example.com"@),
            ("grant_type"@, "authorization_code"@),
        ] && call.answer == AnswerFormat::TokenSet,
        spec_begin(config, ThirdParty::Facebook, code) matches (
            LoginStage::AwaitingFacebookToken,
            ActionView::Call(call),
        ) && call.method == HttpMethod::PostForm && call.url
            == "https://graph.facebook.com/oauth/access_token"@ && call.params == seq![
            ("code"@, code),
            ("client_id"@, config.facebook_client_id@),
            ("client_secret"@, config.facebook_client_secret@),
            ("redirect_uri"@, "https://example.com"@),
        ] && call.answer == AnswerFormat::StringMembers,
{
}

/// Once a provider names the user, the flow waits on that user and asks for the
/// conditional write into `users` of an item whose `openid` is the string "0" and whose
/// `amount` is the number 0, made only where no `amount` exists yet, handing back the
/// old item.
pub proof fn lemma_named_user_write(
    salt: Seq<char>,
    from_google: bool,
    fields: Map<Seq<char>, Seq<char>>,
    now: int,
)
    requires
        fields.contains_key("sub"@),
    ensures
        spec_next(
            salt,
            if from_google {
                LoginStage::AwaitingTokenInfo
            } else {
                LoginStage::AwaitingFacebookToken
            },
            EventView::Fields(fields),
            now,
        ) == Some(
            (
                LoginStage::AwaitingStore { open_id: fields["sub"@] },
                ActionView::Store(
                    (PutItemView {
                        table: "users"@,
                        item: seq![
                            ("openid"@, AttrValueView::S("0"@)),
                            ("amount"@, AttrValueView::N("0"@)),
                        ],
                        condition: "attribute_not_exists(amount)"@,
                        return_values: ReturnValues::AllOld,
                    }),
                ),
            ),
        ),
{
}

/// When the store accepts the write for user `open_id`, the claims to be signed expire
/// sixty days (5,184,000 seconds) after the clock reading, name the user by `open_id`,
/// and carry as user identifier the base85 text of the SHA-256 digest of the UTF-8 bytes
/// of the salt followed by those of `open_id`; the account is new exactly when the item
/// was written.
pub proof fn lemma_accepted_store_claims(
    salt: Seq<char>,
    open_id: Seq<char>,
    outcome: PutOutcome,
    now: int,
)
    requires
        outcome != PutOutcome::Failed,
    ensures
        spec_next(salt, LoginStage::AwaitingStore { open_id }, EventView::Stored(outcome), now)
            == Some(
            (
                LoginStage::AwaitingSignature { is_new: outcome == PutOutcome::Written },
                ActionView::Sign {
                    exp: now + 60 * 60 * 24 * 60,
                    user_id: base85_text(sha256_digest(encode_utf8(salt) + encode_utf8(open_id))),
                    open_id,
                },
            ),
        ),
{
    lemma_encode_utf8_concat(salt, open_id);
}

/// The user identifier hashes the whole salt and the whole subject: it is the base85 text
/// of the SHA-256 digest of the UTF-8 bytes of `salt` followed by those of `open_id`.
pub proof fn lemma_user_id_hashes_salt_then_subject(salt: Seq<char>, open_id: Seq<char>)
    ensures
        spec_user_id(salt, open_id) == base85_text(
            sha256_digest(encode_utf8(salt) + encode_utf8(open_id)),
        ),
{
    lemma_encode_utf8_concat(salt, open_id);
}

} // verus!
