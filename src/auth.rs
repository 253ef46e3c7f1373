//! Exchanging an API key for an IAM access token.
use vstd::prelude::*;
use vstd::string::StringSliceAdditionalSpecFns;

use crate::encoding::{form_encode, form_encoded};
use crate::http::{opt_view, Body, BodyView, HttpRequest, Method, RequestView};

verus! {

/// The endpoint that exchanges API keys for access tokens.
pub const AUTH_URL: &'static str = "https://iam.cloud.ibm.com/identity/token";

/// The form that exchanges an API key, before the key itself.
pub const GRANT_PREFIX: &'static str = "grant_type=urn:ibm:params:oauth:grant-type:apikey&apikey=";

/// Errors that may be returned when an API key is exchanged for a token.
#[derive(Debug, PartialEq, Eq)]
pub enum AuthenticationError {
    /// 400: required parameters are missing or invalid.
    ParameterValidationFailed,
    /// 401: the request held no valid authentication information.
    InvalidAPIKey,
    /// 403: the caller may not perform the action.
    NotAllowed,
    /// 500: the service failed.
    ServerError,
    /// No response came.
    ConnectionError(String),
    /// A status that the token endpoint does not document.
    UnmappedResponse(u16),
}

impl AuthenticationError {
    /// The failure that an answer of the token endpoint stands for; `None` for success.
    pub open spec fn spec_from_status(status: u16) -> Option<AuthenticationError> {
        match status {
            200 => None,
            400 => Some(AuthenticationError::ParameterValidationFailed),
            401 => Some(AuthenticationError::InvalidAPIKey),
            403 => Some(AuthenticationError::NotAllowed),
            500 => Some(AuthenticationError::ServerError),
            _ => Some(AuthenticationError::UnmappedResponse(status)),
        }
    }

    /// The failure that an answer of the token endpoint stands for; `None` for success.
    pub fn from_status(status: u16) -> (r: Option<AuthenticationError>)
        ensures
            r == Self::spec_from_status(status),
    {
        match status {
            200 => None,
            400 => Some(AuthenticationError::ParameterValidationFailed),
            401 => Some(AuthenticationError::InvalidAPIKey),
            403 => Some(AuthenticationError::NotAllowed),
            500 => Some(AuthenticationError::ServerError),
            _ => Some(AuthenticationError::UnmappedResponse(status)),
        }
    }
}

/// The fields of an access token.
pub struct TokenView {
    pub access_token: Seq<char>,
    pub refresh_token: Seq<char>,
    pub delegated_refresh_token: Option<Seq<char>>,
    pub token_type: Seq<char>,
    pub expires_in: i64,
    pub expiration: i64,
    pub scope: Option<Seq<char>>,
}

/// An access token, as the token endpoint returns it.
#[derive(Clone, Debug, PartialEq, Eq, Default)]
pub struct TokenResponse {
    access_token: String,
    refresh_token: String,
    delegated_refresh_token: Option<String>,
    token_type: String,
    expires_in: i64,
    expiration: i64,
    scope: Option<String>,
}

impl View for TokenResponse {
    type V = TokenView;

    closed spec fn view(&self) -> TokenView {
        TokenView {
            access_token: self.access_token@,
            refresh_token: self.refresh_token@,
            delegated_refresh_token: opt_view(self.delegated_refresh_token),
            token_type: self.token_type@,
            expires_in: self.expires_in,
            expiration: self.expiration,
            scope: opt_view(self.scope),
        }
    }
}

impl TokenResponse {
    /// A token with the given fields.
    pub fn new(
        access_token: String,
        refresh_token: String,
        token_type: String,
        expires_in: i64,
        expiration: i64,
        scope: Option<String>,
        delegated_refresh_token: Option<String>,
    ) -> (r: TokenResponse)
        ensures
            r@ == (TokenView {
                access_token: access_token@,
                refresh_token: refresh_token@,
                delegated_refresh_token: opt_view(delegated_refresh_token),
                token_type: token_type@,
                expires_in,
                expiration,
                scope: opt_view(scope),
            }),
    {
        TokenResponse {
            access_token,
            refresh_token,
            delegated_refresh_token,
            token_type,
            expires_in,
            expiration,
            scope,
        }
    }

    /// The bearer token itself.
    pub fn access_token(&self) -> (r: &str)
        ensures
            r@ == self@.access_token,
    {
        self.access_token.as_str()
    }

    /// The token with which a new access token can be asked for.
    pub fn refresh_token(&self) -> (r: &str)
        ensures
            r@ == self@.refresh_token,
    {
        self.refresh_token.as_str()
    }

    /// The kind of token, `Bearer`.
    pub fn token_type(&self) -> (r: &str)
        ensures
            r@ == self@.token_type,
    {
        self.token_type.as_str()
    }

    /// For how many seconds the token is valid.
    pub fn expires_in(&self) -> (r: i64)
        ensures
            r == self@.expires_in,
    {
        self.expires_in
    }

    /// When the token expires, in seconds since the Unix epoch.
    pub fn expiration(&self) -> (r: i64)
        ensures
            r == self@.expiration,
    {
        self.expiration
    }

    /// The scope of the token, if the service gave one.
    pub fn scope(&self) -> (r: Option<&String>)
        ensures
            r is Some <==> self@.scope is Some,
            r matches Some(s) ==> s@ == self@.scope->0,
    {
        match &self.scope {
            Some(s) => Some(s),
            None => None,
        }
    }

    /// The delegated refresh token, if the service gave one.
    pub fn delegated_refresh_token(&self) -> (r: Option<&String>)
        ensures
            r is Some <==> self@.delegated_refresh_token is Some,
            r matches Some(s) ==> s@ == self@.delegated_refresh_token->0,
    {
        match &self.delegated_refresh_token {
            Some(s) => Some(s),
            None => None,
        }
    }
}

/// The form that exchanges the API key whose UTF-8 bytes are `key`.
pub open spec fn token_form(key: Seq<u8>) -> Seq<char> {
    GRANT_PREFIX@ + form_encoded(key)
}

/// Holds the IAM access token with which the services are called. The token is
/// not renewed when it expires: exchange the API key again for a new one.
#[derive(Clone, Debug, PartialEq, Eq, Default)]
pub struct IamAuthenticator {
    access_token: TokenResponse,
}

impl IamAuthenticator {
    /// The token held.
    pub closed spec fn token(&self) -> TokenResponse {
        self.access_token
    }

    /// The request that exchanges `api_key` for an access token: a form POST to
    /// the token endpoint, with the key form-encoded.
    pub fn token_request(api_key: &str) -> (r: HttpRequest)
        ensures
            r@ == (RequestView {
                method: Method::Post,
                url: AUTH_URL@,
                authorization: None,
                body: BodyView::Form(token_form(api_key.spec_bytes())),
            }),
    {
        let mut form = String::from_str(GRANT_PREFIX);
        let key = form_encode(api_key);
        form.append(key.as_str());
        HttpRequest {
            method: Method::Post,
            url: String::from_str(AUTH_URL),
            authorization: None,
            body: Body::Form(form),
        }
    }

    /// The authenticator that holds the token that a successful exchange returned.
    pub fn from_token(token: TokenResponse) -> (r: IamAuthenticator)
        ensures
            r.token() == token,
    {
        IamAuthenticator { access_token: token }
    }

    /// The result of an exchange whose answer had `status`, given what decoding
    /// its body gave: on 200 the decoded token, kept field for field, or the
    /// decoding failure as a connection error; otherwise the failure that the
    /// status stands for, and no token.
    pub fn from_response(status: u16, token: Result<TokenResponse, String>) -> (r: Result<
        IamAuthenticator,
        AuthenticationError,
    >)
        ensures
            status == 200 ==> match token {
                Ok(t) => (r matches Ok(a) && a.token() == t),
                Err(m) => (r matches Err(AuthenticationError::ConnectionError(d)) && d@ == m@),
            },
            status == 400 ==> r == Err::<IamAuthenticator, _>(
                AuthenticationError::ParameterValidationFailed,
            ),
            status != 200 ==> (r matches Err(e) && Some(e) == AuthenticationError::spec_from_status(
                status,
            )),
    {
        match AuthenticationError::from_status(status) {
            Some(e) => Err(e),
            None => match token {
                Ok(t) => Ok(IamAuthenticator::from_token(t)),
                Err(m) => Err(AuthenticationError::ConnectionError(m)),
            },
        }
    }

    /// The token held, unchanged since the exchange.
    pub fn token_response(&self) -> (r: &TokenResponse)
        ensures
            *r == self.token(),
    {
        &self.access_token
    }
}

} // verus!
