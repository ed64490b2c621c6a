//! The records of the authentication flow and their mathematical views.
use vstd::prelude::*;

verus! {

/// The view of an optional string.
pub open spec fn opt_view(o: Option<String>) -> Option<Seq<char>> {
    match o {
        Some(s) => Some(s@),
        None => None,
    }
}

/// The correlation between a `login` and its callback: the PKCE verifier and
/// the CSRF state, held until the callback arrives.
#[derive(Debug)]
pub struct AuthState {
    pub code_verifier: String,
    pub state: String,
}

pub struct AuthStateView {
    pub code_verifier: Seq<char>,
    pub state: Seq<char>,
}

impl View for AuthState {
    type V = AuthStateView;

    open spec fn view(&self) -> AuthStateView {
        AuthStateView { code_verifier: self.code_verifier@, state: self.state@ }
    }
}

/// What the token endpoint answers on success.
#[derive(Debug)]
pub struct TokenResponse {
    pub access_token: String,
    pub refresh_token: Option<String>,
    pub id_token: Option<String>,
    pub token_type: String,
    pub expires_in: Option<u64>,
}

pub struct TokenResponseView {
    pub access_token: Seq<char>,
    pub refresh_token: Option<Seq<char>>,
    pub id_token: Option<Seq<char>>,
    pub token_type: Seq<char>,
    pub expires_in: Option<u64>,
}

impl View for TokenResponse {
    type V = TokenResponseView;

    open spec fn view(&self) -> TokenResponseView {
        TokenResponseView {
            access_token: self.access_token@,
            refresh_token: opt_view(self.refresh_token),
            id_token: opt_view(self.id_token),
            token_type: self.token_type@,
            expires_in: self.expires_in,
        }
    }
}

/// The profile that the user-info endpoint describes.
#[derive(Debug)]
pub struct UserInfo {
    pub sub: String,
    pub name: Option<String>,
    pub email: Option<String>,
    pub picture: Option<String>,
}

pub struct UserInfoView {
    pub sub: Seq<char>,
    pub name: Option<Seq<char>>,
    pub email: Option<Seq<char>>,
    pub picture: Option<Seq<char>>,
}

impl View for UserInfo {
    type V = UserInfoView;

    open spec fn view(&self) -> UserInfoView {
        UserInfoView {
            sub: self.sub@,
            name: opt_view(self.name),
            email: opt_view(self.email),
            picture: opt_view(self.picture),
        }
    }
}

pub open spec fn opt_user_view(u: Option<UserInfo>) -> Option<UserInfoView> {
    match u {
        Some(u) => Some(u@),
        None => None,
    }
}

/// The persisted credential. `expires_at` is an absolute time in seconds
/// since the Unix epoch.
#[derive(Debug)]
pub struct AuthData {
    pub access_token: String,
    pub refresh_token: Option<String>,
    pub id_token: Option<String>,
    pub expires_at: Option<u64>,
    pub user_info: Option<UserInfo>,
}

pub struct CredentialView {
    pub access_token: Seq<char>,
    pub refresh_token: Option<Seq<char>>,
    pub id_token: Option<Seq<char>>,
    pub expires_at: Option<u64>,
    pub user_info: Option<UserInfoView>,
}

impl View for AuthData {
    type V = CredentialView;

    open spec fn view(&self) -> CredentialView {
        CredentialView {
            access_token: self.access_token@,
            refresh_token: opt_view(self.refresh_token),
            id_token: opt_view(self.id_token),
            expires_at: self.expires_at,
            user_info: opt_user_view(self.user_info),
        }
    }
}

pub open spec fn opt_credential_view(c: Option<AuthData>) -> Option<CredentialView> {
    match c {
        Some(c) => Some(c@),
        None => None,
    }
}

/// Why an authentication step failed.
#[derive(Debug)]
pub enum AuthError {
    /// The authorization endpoint is not a valid URL.
    Configuration,
    /// The redirect callback is not a valid URL.
    InvalidCallbackUri,
    /// The callback carries no `code` parameter.
    MissingCode,
    /// The callback carries no `state` parameter.
    MissingState,
    /// No login is waiting for a callback.
    NoPendingAuthorization,
    /// The callback's `state` differs from the pending one.
    StateMismatch,
    /// The token or user-info endpoint could not be reached.
    Transport(String),
    /// The token endpoint refused the authorization code; the response body.
    TokenExchangeFailed(String),
    /// The token endpoint refused the refresh token; the response body.
    TokenRefreshFailed(String),
    /// The token endpoint answered with success but not with a token response.
    MalformedTokenResponse,
    /// No credential is stored.
    NoCredential,
    /// The stored credential has no refresh token.
    NoRefreshToken,
    /// The stored credential cannot be read as a credential record.
    CorruptCredential,
    /// The credential could not be written or removed.
    Storage(String),
}

} // verus!
