//! The authentication session: one pending authorization at a time, the
//! login and redirect steps, and the token requests they lead to.
use vstd::prelude::*;
use crate::model::{
    opt_credential_view, AuthData, AuthError, AuthState, AuthStateView, CredentialView,
};
use crate::pkce::{
    all_alphanumeric, code_challenge_of, generate_code_challenge, generate_code_verifier,
    generate_state, STATE_LEN, VERIFIER_LEN,
};
use crate::query::{append_query, callback_params, pairs_view, parse_callback, url_with_query};

verus! {

/// The endpoints and client identity of the authorization server.
#[derive(Debug)]
pub struct AuthConfig {
    pub authorize_url: String,
    pub token_url: String,
    pub user_info_url: String,
    pub client_id: String,
    pub redirect_uri: String,
    pub scope: String,
}

pub struct AuthConfigView {
    pub authorize_url: Seq<char>,
    pub token_url: Seq<char>,
    pub user_info_url: Seq<char>,
    pub client_id: Seq<char>,
    pub redirect_uri: Seq<char>,
    pub scope: Seq<char>,
}

impl View for AuthConfig {
    type V = AuthConfigView;

    open spec fn view(&self) -> AuthConfigView {
        AuthConfigView {
            authorize_url: self.authorize_url@,
            token_url: self.token_url@,
            user_info_url: self.user_info_url@,
            client_id: self.client_id@,
            redirect_uri: self.redirect_uri@,
            scope: self.scope@,
        }
    }
}

/// The WayStation authorization server and desktop client.
pub open spec fn waystation_config() -> AuthConfigView {
    AuthConfigView {
        authorize_url: "https://clerk.waystation.ai/oauth/authorize"@,
        token_url: "https://clerk.waystation.ai/oauth/token"@,
        user_info_url: "https://clerk.waystation.ai/oauth/userinfo"@,
        client_id: "5xEs1bi3TY8JNVHx"@,
        redirect_uri: "waystation://oauth/callback"@,
        scope: "profile email"@,
    }
}

impl AuthConfig {
    /// The configuration of the WayStation desktop client.
    pub fn waystation() -> (r: AuthConfig)
        ensures
            r@ == waystation_config(),
    {
        AuthConfig {
            authorize_url: "https://clerk.waystation.ai/oauth/authorize".to_owned(),
            token_url: "https://clerk.waystation.ai/oauth/token".to_owned(),
            user_info_url: "https://clerk.waystation.ai/oauth/userinfo".to_owned(),
            client_id: "5xEs1bi3TY8JNVHx".to_owned(),
            redirect_uri: "waystation://oauth/callback".to_owned(),
            scope: "profile email".to_owned(),
        }
    }
}

/// A form-encoded POST to the token endpoint.
#[derive(Debug)]
pub struct TokenRequest {
    pub url: String,
    pub form: Vec<(String, String)>,
}

pub struct TokenRequestView {
    pub url: Seq<char>,
    pub form: Seq<(Seq<char>, Seq<char>)>,
}

impl View for TokenRequest {
    type V = TokenRequestView;

    open spec fn view(&self) -> TokenRequestView {
        TokenRequestView { url: self.url@, form: pairs_view(self.form@) }
    }
}

/// The query parameters of the authorization URL.
pub open spec fn authorization_query(cfg: AuthConfigView, challenge: Seq<char>, state: Seq<char>) -> Seq<
    (Seq<char>, Seq<char>),
> {
    seq![
        ("client_id"@, cfg.client_id),
        ("redirect_uri"@, cfg.redirect_uri),
        ("response_type"@, "code"@),
        ("scope"@, cfg.scope),
        ("code_challenge"@, challenge),
        ("code_challenge_method"@, "S256"@),
        ("state"@, state),
    ]
}

/// The outcome of building the authorization URL for a verifier and a state.
pub open spec fn authorization_url(cfg: AuthConfigView, verifier: Seq<char>, state: Seq<char>) -> Result<
    Seq<char>,
    AuthError,
> {
    match url_with_query(
        cfg.authorize_url,
        authorization_query(cfg, code_challenge_of(verifier), state),
    ) {
        Some(u) => Ok(u),
        None => Err(AuthError::Configuration),
    }
}

/// The form that exchanges an authorization code for tokens.
pub open spec fn code_exchange_form(cfg: AuthConfigView, code: Seq<char>, verifier: Seq<char>) -> Seq<
    (Seq<char>, Seq<char>),
> {
    seq![
        ("client_id"@, cfg.client_id),
        ("code"@, code),
        ("code_verifier"@, verifier),
        ("grant_type"@, "authorization_code"@),
        ("redirect_uri"@, cfg.redirect_uri),
    ]
}

/// The form that exchanges a refresh token for new tokens.
pub open spec fn refresh_form(cfg: AuthConfigView, refresh_token: Seq<char>) -> Seq<
    (Seq<char>, Seq<char>),
> {
    seq![
        ("client_id"@, cfg.client_id),
        ("refresh_token"@, refresh_token),
        ("grant_type"@, "refresh_token"@),
    ]
}

pub open spec fn opt_state_view(p: Option<AuthState>) -> Option<AuthStateView> {
    match p {
        Some(p) => Some(p@),
        None => None,
    }
}

/// One step of the redirect: the pending authorization afterwards, and the
/// token request to make or the reason to reject the callback. A callback
/// without `code` or `state` leaves the pending authorization in place; any
/// other callback consumes it.
pub open spec fn redirect_step(
    cfg: AuthConfigView,
    pending: Option<AuthStateView>,
    uri: Seq<char>,
) -> (Option<AuthStateView>, Result<TokenRequestView, AuthError>) {
    match callback_params(uri) {
        Err(e) => (pending, Err(e)),
        Ok((code, state)) => match pending {
            None => (None, Err(AuthError::NoPendingAuthorization)),
            Some(p) => if state != p.state {
                (None, Err(AuthError::StateMismatch))
            } else {
                (
                    None,
                    Ok(
                        TokenRequestView {
                            url: cfg.token_url,
                            form: code_exchange_form(cfg, code, p.code_verifier),
                        },
                    ),
                )
            },
        },
    }
}

/// The refresh request for what the store holds, or why there is none.
pub open spec fn refresh_step(cfg: AuthConfigView, stored: Option<CredentialView>) -> Result<
    TokenRequestView,
    AuthError,
> {
    match stored {
        None => Err(AuthError::NoCredential),
        Some(c) => match c.refresh_token {
            None => Err(AuthError::NoRefreshToken),
            Some(t) => Ok(TokenRequestView { url: cfg.token_url, form: refresh_form(cfg, t) }),
        },
    }
}

/// After a login has left `{verifier, state}` pending, a callback that
/// carries a code and a different state is rejected with `StateMismatch`,
/// and the pending authorization is gone.
pub proof fn foreign_state_is_rejected(
    cfg: AuthConfigView,
    verifier: Seq<char>,
    state: Seq<char>,
    uri: Seq<char>,
)
    requires
        callback_params(uri) is Ok,
        callback_params(uri)->Ok_0.1 != state,
    ensures
        redirect_step(cfg, Some(AuthStateView { code_verifier: verifier, state }), uri) == (
            None::<AuthStateView>,
            Err::<TokenRequestView, AuthError>(AuthError::StateMismatch),
        ),
{
}

/// A callback that carries a code and a state consumes the pending
/// authorization: delivered a second time, it is rejected with
/// `NoPendingAuthorization`, whatever the first delivery gave.
pub proof fn pending_is_consumed_once(
    cfg: AuthConfigView,
    pending: Option<AuthStateView>,
    uri: Seq<char>,
)
    requires
        callback_params(uri) is Ok,
    ensures
        redirect_step(cfg, pending, uri).0 is None,
        redirect_step(cfg, redirect_step(cfg, pending, uri).0, uri).1
            == Err::<TokenRequestView, AuthError>(AuthError::NoPendingAuthorization),
{
}

/// After a login has left `{verifier, state}` pending, a callback with a
/// code and exactly that state leads to the code exchange that sends the
/// code with that verifier, whose S256 challenge went out with the login.
pub proof fn matching_callback_exchanges_code(
    cfg: AuthConfigView,
    verifier: Seq<char>,
    state: Seq<char>,
    uri: Seq<char>,
)
    requires
        callback_params(uri) is Ok,
        callback_params(uri)->Ok_0.1 == state,
    ensures
        redirect_step(cfg, Some(AuthStateView { code_verifier: verifier, state }), uri) == (
            None::<AuthStateView>,
            Ok::<TokenRequestView, AuthError>(
                TokenRequestView {
                    url: cfg.token_url,
                    form: code_exchange_form(cfg, callback_params(uri)->Ok_0.0, verifier),
                },
            ),
        ),
        authorization_query(cfg, code_challenge_of(verifier), state)[4] == (
            "code_challenge"@,
            code_challenge_of(verifier),
        ),
{
}

/// Matches an executable result against its view.
pub open spec fn request_result_matches(
    r: Result<TokenRequest, AuthError>,
    v: Result<TokenRequestView, AuthError>,
) -> bool {
    match (r, v) {
        (Ok(q), Ok(w)) => q@ == w,
        (Err(e), Err(f)) => e == f,
        _ => false,
    }
}

/// Appends one name/value pair.
fn push_pair(v: &mut Vec<(String, String)>, name: &str, value: &str)
    ensures
        pairs_view(final(v)@) == pairs_view(old(v)@).push((name@, value@)),
{
    v.push((name.to_owned(), value.to_owned()));
    assert(pairs_view(final(v)@) =~= pairs_view(old(v)@).push((name@, value@)));
}

/// The authentication session: the configuration and the authorization that
/// waits for its callback, if any.
#[derive(Debug)]
pub struct AuthSession {
    pub config: AuthConfig,
    pub pending: Option<AuthState>,
}

impl AuthSession {
    /// A session with no pending authorization.
    pub fn new(config: AuthConfig) -> (r: AuthSession)
        ensures
            r.config == config,
            r.pending is None,
    {
        AuthSession { config, pending: None }
    }

    /// The query parameters of the authorization URL.
    pub fn authorization_params(&self, challenge: &str, state: &str) -> (r: Vec<(String, String)>)
        ensures
            pairs_view(r@) == authorization_query(self.config@, challenge@, state@),
    {
        let mut v: Vec<(String, String)> = Vec::new();
        push_pair(&mut v, "client_id", self.config.client_id.as_str());
        push_pair(&mut v, "redirect_uri", self.config.redirect_uri.as_str());
        push_pair(&mut v, "response_type", "code");
        push_pair(&mut v, "scope", self.config.scope.as_str());
        push_pair(&mut v, "code_challenge", challenge);
        push_pair(&mut v, "code_challenge_method", "S256");
        push_pair(&mut v, "state", state);
        assert(pairs_view(v@) =~= authorization_query(self.config@, challenge@, state@));
        v
    }

    /// Starts a login with the given verifier and state: they become the
    /// pending authorization, replacing any earlier one, and the result is
    /// the authorization URL to open in the browser.
    pub fn begin_login(&mut self, code_verifier: String, state: String) -> (r: Result<
        String,
        AuthError,
    >)
        ensures
            final(self).config == old(self).config,
            opt_state_view(final(self).pending) == Some(
                AuthStateView { code_verifier: code_verifier@, state: state@ },
            ),
            match (r, authorization_url(old(self).config@, code_verifier@, state@)) {
                (Ok(u), Ok(v)) => u@ == v,
                (Err(e), Err(f)) => e == f,
                _ => false,
            },
    {
        let challenge = generate_code_challenge(code_verifier.as_str());
        let params = self.authorization_params(challenge.as_str(), state.as_str());
        let url = append_query(self.config.authorize_url.as_str(), &params);
        self.pending = Some(AuthState { code_verifier, state });
        match url {
            Some(u) => Ok(u),
            None => Err(AuthError::Configuration),
        }
    }

    /// Starts a login with a fresh verifier and state, as `begin_login` does.
    pub fn login(&mut self) -> (r: Result<String, AuthError>)
        ensures
            final(self).config == old(self).config,
            final(self).pending is Some,
            ({
                let p = final(self).pending->Some_0;
                &&& p.code_verifier@.len() == VERIFIER_LEN
                &&& all_alphanumeric(p.code_verifier@)
                &&& p.state@.len() == STATE_LEN
                &&& all_alphanumeric(p.state@)
                &&& match (r, authorization_url(old(self).config@, p.code_verifier@, p.state@)) {
                    (Ok(u), Ok(v)) => u@ == v,
                    (Err(e), Err(f)) => e == f,
                    _ => false,
                }
            }),
    {
        let code_verifier = generate_code_verifier();
        let state = generate_state();
        self.begin_login(code_verifier, state)
    }

    /// Validates a redirect callback against the pending authorization and
    /// gives the code-exchange request to make. The pending authorization is
    /// consumed once the callback has both `code` and `state`, whether the
    /// state matches or not; the comparison is exact.
    pub fn accept_redirect(&mut self, callback_uri: &str) -> (r: Result<TokenRequest, AuthError>)
        ensures
            final(self).config == old(self).config,
            opt_state_view(final(self).pending) == redirect_step(
                old(self).config@,
                opt_state_view(old(self).pending),
                callback_uri@,
            ).0,
            request_result_matches(
                r,
                redirect_step(old(self).config@, opt_state_view(old(self).pending), callback_uri@).1,
            ),
    {
        let (code, state) = match parse_callback(callback_uri) {
            Ok(p) => p,
            Err(e) => return Err(e),
        };
        let pending = self.pending.take();
        match pending {
            None => Err(AuthError::NoPendingAuthorization),
            Some(p) => {
                if !(state == p.state) {
                    Err(AuthError::StateMismatch)
                } else {
                    let mut form: Vec<(String, String)> = Vec::new();
                    push_pair(&mut form, "client_id", self.config.client_id.as_str());
                    push_pair(&mut form, "code", code.as_str());
                    push_pair(&mut form, "code_verifier", p.code_verifier.as_str());
                    push_pair(&mut form, "grant_type", "authorization_code");
                    push_pair(&mut form, "redirect_uri", self.config.redirect_uri.as_str());
                    assert(pairs_view(form@) =~= code_exchange_form(
                        self.config@,
                        code@,
                        p.code_verifier@,
                    ));
                    Ok(TokenRequest { url: self.config.token_url.clone(), form })
                }
            },
        }
    }

    /// The refresh request for the stored credential: `NoCredential` when
    /// none is stored, `NoRefreshToken` when it holds no refresh token.
    pub fn refresh_request(&self, stored: &Option<AuthData>) -> (r: Result<TokenRequest, AuthError>)
        ensures
            request_result_matches(r, refresh_step(self.config@, opt_credential_view(*stored))),
    {
        match stored {
            None => Err(AuthError::NoCredential),
            Some(c) => match &c.refresh_token {
                None => Err(AuthError::NoRefreshToken),
                Some(t) => {
                    let mut form: Vec<(String, String)> = Vec::new();
                    push_pair(&mut form, "client_id", self.config.client_id.as_str());
                    push_pair(&mut form, "refresh_token", t.as_str());
                    push_pair(&mut form, "grant_type", "refresh_token");
                    assert(pairs_view(form@) =~= refresh_form(self.config@, t@));
                    Ok(TokenRequest { url: self.config.token_url.clone(), form })
                },
            },
        }
    }
}

} // verus!
