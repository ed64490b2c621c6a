//! Decisions on the answers of the token and user-info endpoints, and the
//! credentials built from them.
use vstd::prelude::*;
use vstd::string::StringExecFns;
use crate::json::{
    lemma_object_view, member, optional_string, optional_unsigned, read_optional_string,
    read_optional_unsigned, read_required_string, required_string, JsonValue, JsonView,
};
use crate::model::{
    opt_user_view, AuthData, AuthError, CredentialView, TokenResponse,
    TokenResponseView, UserInfo, UserInfoView,
};
use crate::store::{user_info_from_json, user_info_of_json};

verus! {

/// An HTTP status in the success range.
pub open spec fn is_success(status: u16) -> bool {
    200 <= status && status <= 299
}

/// The token response a JSON value describes: an object with string
/// `access_token` and `token_type`, optional strings `refresh_token` and
/// `id_token`, and an optional unsigned `expires_in`.
pub open spec fn token_response_of_json(j: JsonView) -> Option<TokenResponseView> {
    match j {
        JsonView::Object(ms) => match (
            required_string(member(ms, "access_token"@)),
            optional_string(member(ms, "refresh_token"@)),
            optional_string(member(ms, "id_token"@)),
            required_string(member(ms, "token_type"@)),
            optional_unsigned(member(ms, "expires_in"@)),
        ) {
            (Some(access_token), Some(refresh_token), Some(id_token), Some(token_type), Some(expires_in)) => Some(
                TokenResponseView { access_token, refresh_token, id_token, token_type, expires_in },
            ),
            _ => None,
        },
        _ => None,
    }
}

pub open spec fn opt_json_view(j: Option<JsonValue>) -> Option<JsonView> {
    match j {
        Some(j) => Some(j@),
        None => None,
    }
}

/// The token response in a successful answer whose body parsed as `parsed`.
pub open spec fn token_response_in(parsed: Option<JsonView>) -> Option<TokenResponseView> {
    match parsed {
        Some(j) => token_response_of_json(j),
        None => None,
    }
}

/// The profile the user-info endpoint gave: only a successful answer whose
/// body describes a profile gives one.
pub open spec fn user_info_in(status: u16, parsed: Option<JsonView>) -> Option<UserInfoView> {
    if is_success(status) {
        match parsed {
            Some(j) => user_info_of_json(j),
            None => None,
        }
    } else {
        None
    }
}

/// The absolute expiry of a token that lives `expires_in` seconds from `now`.
pub open spec fn expiry(now: u64, expires_in: Option<u64>) -> Option<u64> {
    match expires_in {
        Some(e) => Some(now.saturating_add(e)),
        None => None,
    }
}

/// The credential a code exchange yields.
pub open spec fn exchanged_credential(
    t: TokenResponseView,
    user_info: Option<UserInfoView>,
    now: u64,
) -> CredentialView {
    CredentialView {
        access_token: t.access_token,
        refresh_token: t.refresh_token,
        id_token: t.id_token,
        expires_at: expiry(now, t.expires_in),
        user_info,
    }
}

/// The value the server sent, or the one known before when it sent none.
pub open spec fn or_prior(new: Option<Seq<char>>, prior: Option<Seq<char>>) -> Option<Seq<char>> {
    match new {
        Some(v) => Some(v),
        None => prior,
    }
}

/// The credential a refresh yields: the new tokens, the prior refresh and id
/// tokens where the server omits them, and the prior profile.
pub open spec fn refreshed_credential_of(
    prior: CredentialView,
    t: TokenResponseView,
    now: u64,
) -> CredentialView {
    CredentialView {
        access_token: t.access_token,
        refresh_token: or_prior(t.refresh_token, prior.refresh_token),
        id_token: or_prior(t.id_token, prior.id_token),
        expires_at: expiry(now, t.expires_in),
        user_info: prior.user_info,
    }
}

/// Reads a token response from a JSON value.
pub fn token_response_from_json(j: &JsonValue) -> (r: Option<TokenResponse>)
    ensures
        match r {
            Some(t) => token_response_of_json(j@) == Some(t@),
            None => token_response_of_json(j@) is None,
        },
{
    match j {
        JsonValue::Object(ms) => {
            proof {
                lemma_object_view(*ms);
            }
            let access_token = read_required_string(ms, "access_token");
            let refresh_token = read_optional_string(ms, "refresh_token");
            let id_token = read_optional_string(ms, "id_token");
            let token_type = read_required_string(ms, "token_type");
            let expires_in = read_optional_unsigned(ms, "expires_in");
            match (access_token, refresh_token, id_token, token_type, expires_in) {
                (Some(access_token), Some(refresh_token), Some(id_token), Some(token_type), Some(expires_in)) => Some(
                    TokenResponse { access_token, refresh_token, id_token, token_type, expires_in },
                ),
                _ => None,
            }
        },
        _ => None,
    }
}

/// What a token-endpoint answer means, `failed` wrapping the body of a
/// refusal.
fn token_outcome(
    status: u16,
    body: String,
    parsed: Option<JsonValue>,
    refresh: bool,
) -> (r: Result<TokenResponse, AuthError>)
    ensures
        !is_success(status) && !refresh ==> r == Err::<TokenResponse, AuthError>(
            AuthError::TokenExchangeFailed(body),
        ),
        !is_success(status) && refresh ==> r == Err::<TokenResponse, AuthError>(
            AuthError::TokenRefreshFailed(body),
        ),
        is_success(status) ==> match r {
            Ok(t) => token_response_in(opt_json_view(parsed)) == Some(t@),
            Err(e) => token_response_in(opt_json_view(parsed)) is None
                && e == AuthError::MalformedTokenResponse,
        },
{
    if status < 200 || status > 299 {
        if refresh {
            Err(AuthError::TokenRefreshFailed(body))
        } else {
            Err(AuthError::TokenExchangeFailed(body))
        }
    } else {
        match &parsed {
            Some(j) => match token_response_from_json(j) {
                Some(t) => Ok(t),
                None => Err(AuthError::MalformedTokenResponse),
            },
            None => Err(AuthError::MalformedTokenResponse),
        }
    }
}

/// What the token endpoint's answer to a code exchange means: a refusal
/// (any status outside 200..=299) is `TokenExchangeFailed` with the body
/// verbatim; a success gives the token response its body describes, or
/// `MalformedTokenResponse`. `parsed` is the body read as JSON, if it is JSON.
pub fn code_exchange_outcome(status: u16, body: String, parsed: Option<JsonValue>) -> (r: Result<
    TokenResponse,
    AuthError,
>)
    ensures
        !is_success(status) ==> r == Err::<TokenResponse, AuthError>(
            AuthError::TokenExchangeFailed(body),
        ),
        is_success(status) ==> match r {
            Ok(t) => token_response_in(opt_json_view(parsed)) == Some(t@),
            Err(e) => token_response_in(opt_json_view(parsed)) is None
                && e == AuthError::MalformedTokenResponse,
        },
{
    token_outcome(status, body, parsed, false)
}

/// What the token endpoint's answer to a refresh means, as for a code
/// exchange, a refusal being `TokenRefreshFailed`.
pub fn refresh_outcome(status: u16, body: String, parsed: Option<JsonValue>) -> (r: Result<
    TokenResponse,
    AuthError,
>)
    ensures
        !is_success(status) ==> r == Err::<TokenResponse, AuthError>(
            AuthError::TokenRefreshFailed(body),
        ),
        is_success(status) ==> match r {
            Ok(t) => token_response_in(opt_json_view(parsed)) == Some(t@),
            Err(e) => token_response_in(opt_json_view(parsed)) is None
                && e == AuthError::MalformedTokenResponse,
        },
{
    token_outcome(status, body, parsed, true)
}

/// The profile from the user-info endpoint's answer; any failure leaves it
/// absent.
pub fn user_info_outcome(status: u16, parsed: Option<JsonValue>) -> (r: Option<UserInfo>)
    ensures
        opt_user_view(r) == user_info_in(status, opt_json_view(parsed)),
{
    if status < 200 || status > 299 {
        None
    } else {
        match &parsed {
            Some(j) => user_info_from_json(j),
            None => None,
        }
    }
}

/// The absolute expiry of a token that lives `expires_in` seconds from `now`,
/// saturating at the largest time.
pub fn expires_at(now: u64, expires_in: Option<u64>) -> (r: Option<u64>)
    ensures
        r == expiry(now, expires_in),
{
    match expires_in {
        Some(e) => Some(now.saturating_add(e)),
        None => None,
    }
}

/// The credential a code exchange yields at time `now`.
pub fn credential_from_tokens(tokens: TokenResponse, user_info: Option<UserInfo>, now: u64) -> (r:
    AuthData)
    ensures
        r@ == exchanged_credential(tokens@, opt_user_view(user_info), now),
{
    AuthData {
        access_token: tokens.access_token,
        refresh_token: tokens.refresh_token,
        id_token: tokens.id_token,
        expires_at: expires_at(now, tokens.expires_in),
        user_info,
    }
}

/// The credential a refresh yields at time `now` from the prior one.
pub fn refreshed_credential(prior: AuthData, tokens: TokenResponse, now: u64) -> (r: AuthData)
    ensures
        r@ == refreshed_credential_of(prior@, tokens@, now),
{
    let refresh_token = match tokens.refresh_token {
        Some(t) => Some(t),
        None => prior.refresh_token,
    };
    let id_token = match tokens.id_token {
        Some(t) => Some(t),
        None => prior.id_token,
    };
    AuthData {
        access_token: tokens.access_token,
        refresh_token,
        id_token,
        expires_at: expires_at(now, tokens.expires_in),
        user_info: prior.user_info,
    }
}

/// A refresh whose answer omits the refresh token or the id token keeps the
/// prior one; the profile is always kept.
pub proof fn refresh_keeps_omitted_tokens(prior: CredentialView, t: TokenResponseView, now: u64)
    ensures
        t.refresh_token is None ==> refreshed_credential_of(prior, t, now).refresh_token
            == prior.refresh_token,
        t.id_token is None ==> refreshed_credential_of(prior, t, now).id_token == prior.id_token,
        refreshed_credential_of(prior, t, now).user_info == prior.user_info,
{
}

/// The content of the token file shared with other integrations.
pub fn way_key_contents(access_token: &str) -> (r: String)
    ensures
        r@ == "Bearer "@ + access_token@,
{
    let mut s = "Bearer ".to_owned();
    s.append(access_token);
    s
}

} // verus!
