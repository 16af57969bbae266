//! Request parameters, responses and configuration.
use vstd::prelude::*;

verus! {

/// The form fields of a token request.
#[derive(Clone, Debug)]
pub struct TokenParams {
    pub client_id: Option<String>,
    pub client_secret: Option<String>,
    pub username: Option<String>,
    pub password: Option<String>,
    pub pcke: Option<String>,
    pub device: Option<String>,
    pub grant_type: String,
    pub redirect_uri: Option<String>,
    pub scope: Option<String>,
    pub code: Option<String>,
    pub refresh_token: Option<String>,
}

/// What the engine reads of a token request.
pub struct TokenParamsView {
    pub username: Option<Seq<char>>,
    pub password: Option<Seq<char>>,
    pub pcke: Option<Seq<char>>,
    pub device: Option<Seq<char>>,
    pub grant_type: Seq<char>,
    pub scope: Option<Seq<char>>,
    pub code: Option<Seq<char>>,
}

impl View for TokenParams {
    type V = TokenParamsView;

    open spec fn view(&self) -> TokenParamsView {
        TokenParamsView {
            username: self.username.deep_view(),
            password: self.password.deep_view(),
            pcke: self.pcke.deep_view(),
            device: self.device.deep_view(),
            grant_type: self.grant_type@,
            scope: self.scope.deep_view(),
            code: self.code.deep_view(),
        }
    }
}

/// The query parameters of an authorization request.
#[derive(Clone, Debug)]
pub struct AuthorizationParams {
    pub client_id: String,
    pub response_type: String,
    pub redirect_uri: String,
    pub scope: String,
    pub state: Option<String>,
}

/// A row of the user table.
#[derive(Clone, Debug)]
pub struct User {
    pub id: i32,
    pub username: Option<String>,
    pub password: Option<String>,
}

/// The body of a successful token response.
#[derive(Clone, Debug)]
pub struct AccessToken {
    pub access_token: String,
    pub token_type: String,
    pub scope: Option<String>,
    pub expires_in: i64,
}

pub struct AccessTokenView {
    pub access_token: Seq<char>,
    pub token_type: Seq<char>,
    pub scope: Option<Seq<char>>,
    pub expires_in: int,
}

impl View for AccessToken {
    type V = AccessTokenView;

    open spec fn view(&self) -> AccessTokenView {
        AccessTokenView {
            access_token: self.access_token@,
            token_type: self.token_type@,
            scope: self.scope.deep_view(),
            expires_in: self.expires_in as int,
        }
    }
}

/// The body of an introspection response. Identifiers of stored rows are
/// 128-bit values (the bits of a UUID).
#[derive(Clone, Debug)]
pub struct Introspection {
    pub active: bool,
    pub client_id: String,
    pub username: Option<String>,
    pub user_id: Option<u128>,
    pub scope: Option<String>,
    pub token_type: String,
    pub issuer: String,
    pub exp: i64,
    pub iat: i64,
}

pub struct IntrospectionView {
    pub active: bool,
    pub client_id: Seq<char>,
    pub username: Option<Seq<char>>,
    pub user_id: Option<u128>,
    pub scope: Option<Seq<char>>,
    pub token_type: Seq<char>,
    pub issuer: Seq<char>,
    pub exp: int,
    pub iat: int,
}

impl View for Introspection {
    type V = IntrospectionView;

    open spec fn view(&self) -> IntrospectionView {
        IntrospectionView {
            active: self.active,
            client_id: self.client_id@,
            username: self.username.deep_view(),
            user_id: self.user_id,
            scope: self.scope.deep_view(),
            token_type: self.token_type@,
            issuer: self.issuer@,
            exp: self.exp as int,
            iat: self.iat as int,
        }
    }
}

/// Settings of the server process; `name` is the issuer label put on tokens.
#[derive(Clone, Debug)]
pub struct ServerConfig {
    pub host: String,
    pub port: u16,
    pub name: String,
    pub cert_dir: String,
}

} // verus!
