//! Client configuration, access tokens, and the requests each grant type makes.
use vstd::prelude::*;

use crate::profile::InvalidConfig;
use crate::text::{eq_str, trim_of, trimmed};

verus! {

/// The product identifier sent as User-Agent when a profile names none.
pub const PRODUCT_NAME: &'static str = "aurl";

/// The configuration of one profile.
pub struct OAuth2Config {
    pub auth_server_auth_endpoint: Option<String>,
    pub auth_server_token_endpoint: Option<String>,
    pub client_id: Option<String>,
    pub client_secret: Option<String>,
    pub scopes: Option<String>,
    pub username: Option<String>,
    pub password: Option<String>,
    pub grant_type: GrantType,
    pub redirect: Option<String>,
    pub default_content_type: Option<String>,
    pub default_user_agent: Option<String>,
    pub default_auth_header_template: Option<String>,
}

/// Why no access token could be had.
pub enum AccessTokenError {
    /// The token cache could not be used; holds the cause.
    InvalidCache(String),
    /// A configuration field the grant needs is absent, or a template is malformed.
    InvalidConfig(String),
    /// The token endpoint could not be reached or answered unusably; holds the cause.
    HttpError(String),
}

/// `e` is a configuration error whose message is `msg`.
pub open spec fn is_config_error(e: AccessTokenError, msg: Seq<char>) -> bool {
    e matches AccessTokenError::InvalidConfig(m) && m@ == msg
}

/// `r` is the value of `field`, or the configuration error naming `name` when it is absent.
pub open spec fn required(field: Option<String>, name: Seq<char>, r: Result<String, AccessTokenError>) -> bool {
    match field {
        Some(v) => r is Ok && r->Ok_0@ == v@,
        None => r is Err && is_config_error(r->Err_0, name),
    }
}

/// Takes the value out of `v`, or fails with a configuration error naming `fname`.
pub fn ok_or<T>(v: Option<T>, fname: &str) -> (r: Result<T, AccessTokenError>)
    ensures
        match v {
            Some(x) => r == Ok::<T, AccessTokenError>(x),
            None => r is Err && is_config_error(r->Err_0, fname@),
        },
{
    match v {
        Some(x) => Ok(x),
        None => Err(AccessTokenError::InvalidConfig(String::from_str(fname))),
    }
}

/// A copy of an optional string.
pub fn copy_opt(v: &Option<String>) -> (r: Option<String>)
    ensures
        r is Some == v is Some,
        r is Some ==> r->0@ == v->0@,
{
    match v {
        Some(s) => Some(s.clone()),
        None => None,
    }
}

impl OAuth2Config {
    pub fn auth_server_auth_endpoint(&self) -> (r: Result<String, AccessTokenError>)
        ensures
            required(self.auth_server_auth_endpoint, "auth_server_auth_endpoint"@, r),
    {
        ok_or(copy_opt(&self.auth_server_auth_endpoint), "auth_server_auth_endpoint")
    }

    pub fn auth_server_token_endpoint(&self) -> (r: Result<String, AccessTokenError>)
        ensures
            required(self.auth_server_token_endpoint, "auth_server_token_endpoint"@, r),
    {
        ok_or(copy_opt(&self.auth_server_token_endpoint), "auth_server_token_endpoint")
    }

    pub fn client_id(&self) -> (r: Result<String, AccessTokenError>)
        ensures
            required(self.client_id, "client_id"@, r),
    {
        ok_or(copy_opt(&self.client_id), "client_id")
    }

    pub fn username(&self) -> (r: Result<String, AccessTokenError>)
        ensures
            required(self.username, "username"@, r),
    {
        ok_or(copy_opt(&self.username), "username")
    }

    pub fn password(&self) -> (r: Result<String, AccessTokenError>)
        ensures
            required(self.password, "password"@, r),
    {
        ok_or(copy_opt(&self.password), "password")
    }

    pub fn scopes(&self) -> (r: Result<String, AccessTokenError>)
        ensures
            required(self.scopes, "scopes"@, r),
    {
        ok_or(copy_opt(&self.scopes), "scopes")
    }

    pub fn redirect(&self) -> (r: Result<String, AccessTokenError>)
        ensures
            required(self.redirect, "redirect"@, r),
    {
        ok_or(copy_opt(&self.redirect), "redirect")
    }

    /// The User-Agent of the profile, or the product identifier.
    pub fn user_agent(&self) -> (r: String)
        ensures
            r@ == user_agent_of(self.default_user_agent),
    {
        match &self.default_user_agent {
            Some(u) => u.clone(),
            None => String::from_str(PRODUCT_NAME),
        }
    }
}

/// The User-Agent sent for a profile whose configured one is `configured`.
pub open spec fn user_agent_of(configured: Option<String>) -> Seq<char> {
    match configured {
        Some(u) => u@,
        None => PRODUCT_NAME@,
    }
}


/// The OAuth2 flow a profile uses to obtain tokens.
#[derive(PartialEq, Eq, Structural, Clone, Copy, Debug)]
pub enum GrantType {
    Password,
    AuthorizationCode,
    ClientCredentials,
}

/// The grant type that a profile's `grant_type` value names, if any.
pub open spec fn grant_type_of(s: Seq<char>) -> Option<GrantType> {
    if s == "password"@ {
        Some(GrantType::Password)
    } else if s == "authorization_code"@ || s == "auth"@ {
        Some(GrantType::AuthorizationCode)
    } else if s == "client_credentials"@ || s == "client"@ {
        Some(GrantType::ClientCredentials)
    } else {
        None
    }
}

impl GrantType {
    /// Reads a grant type from its configured name.
    pub fn from_str(s: &str) -> (r: Result<GrantType, InvalidConfig>)
        ensures
            match grant_type_of(s@) {
                Some(g) => r == Ok::<GrantType, InvalidConfig>(g),
                None => r matches Err(InvalidConfig::InvalidGrantType(m)) && m@ == s@,
            },
    {
        if eq_str(s, "password") {
            Ok(GrantType::Password)
        } else if eq_str(s, "authorization_code") || eq_str(s, "auth") {
            Ok(GrantType::AuthorizationCode)
        } else if eq_str(s, "client_credentials") || eq_str(s, "client") {
            Ok(GrantType::ClientCredentials)
        } else {
            Err(InvalidConfig::InvalidGrantType(String::from_str(s)))
        }
    }
}


/// A token response of the authorization server, as it is kept in the cache.
pub struct AccessToken {
    pub access_token: String,
    pub token_type: String,
    pub refresh_token: Option<String>,
    /// Lifetime in seconds, as the server declared it.
    pub expires_in: u64,
    pub scope: Option<String>,
    pub id_token: Option<String>,
    /// Absolute expiry in seconds since the Unix epoch; set when the token is cached.
    pub ttl: Option<u64>,
}

/// `a` and `b` are the same token in every field but `ttl`.
pub open spec fn same_but_ttl(a: AccessToken, b: AccessToken) -> bool {
    &&& a.access_token@ == b.access_token@
    &&& a.token_type@ == b.token_type@
    &&& a.refresh_token == b.refresh_token
    &&& a.expires_in == b.expires_in
    &&& a.scope == b.scope
    &&& a.id_token == b.id_token
}

/// Relies on `std::time::SystemTime::now`: the seconds since the Unix epoch,
/// or `None` when the clock stands before it.
#[verifier::external_body]
fn now_epoch_secs() -> (r: Option<u64>) {
    match std::time::SystemTime::now().duration_since(std::time::SystemTime::UNIX_EPOCH) {
        Ok(d) => Some(d.as_secs()),
        Err(_) => None,
    }
}

/// Relies on `dirs::home_dir`: the current user's home directory, when it is
/// known and is valid Unicode.
#[verifier::external_body]
pub(crate) fn home_dir() -> (r: Option<String>) {
    match dirs::home_dir() {
        Some(p) => p.into_os_string().into_string().ok(),
        None => None,
    }
}

/// The cache file of `profile` under the home directory `home`.
pub open spec fn cache_path_spec(home: Seq<char>, profile: Seq<char>) -> Seq<char> {
    home + "/.aurl/token/"@ + profile + ".json"@
}

/// The base directory of this client's files under the home directory `home`.
pub open spec fn basedir_spec(home: Seq<char>) -> Seq<char> {
    home + "/.aurl"@
}

/// The absolute expiry of a token of lifetime `expires_in` issued at `now`,
/// when it fits in 64 bits.
pub open spec fn ttl_spec(now: u64, expires_in: u64) -> Option<u64> {
    if now + expires_in <= u64::MAX {
        Some((now + expires_in) as u64)
    } else {
        None
    }
}

impl AccessToken {
    /// The absolute expiry of a token of lifetime `expires_in` issued at `now`.
    pub fn ttl_at(now: u64, expires_in: u64) -> (r: Option<u64>)
        ensures
            r == ttl_spec(now, expires_in),
    {
        now.checked_add(expires_in)
    }

    /// The absolute expiry of a token of lifetime `expires_in` issued now.
    pub fn calc_ttl(expires_in: u64) -> (r: Option<u64>)
        ensures
            r matches Some(t) ==> t >= expires_in,
            r matches Some(t) ==> exists|now: u64| r == ttl_spec(now, expires_in),
    {
        match now_epoch_secs() {
            Some(now) => AccessToken::ttl_at(now, expires_in),
            None => None,
        }
    }

    /// Sets the expiry of a token issued at `now`; fails, leaving the token as
    /// it was, when the expiry does not fit in 64 bits.
    pub fn stamp_ttl_at(&mut self, now: u64) -> (ok: bool)
        ensures
            ok == ttl_spec(now, old(self).expires_in) is Some,
            same_but_ttl(*final(self), *old(self)),
            ok ==> final(self).ttl == ttl_spec(now, old(self).expires_in),
            !ok ==> final(self).ttl == old(self).ttl,
    {
        match AccessToken::ttl_at(now, self.expires_in) {
            Some(t) => {
                self.ttl = Some(t);
                true
            },
            None => false,
        }
    }

    /// Sets the expiry of the token from the current time, as is done right
    /// before it is cached; fails, leaving the token as it was, when the clock
    /// cannot be read or the expiry does not fit in 64 bits.
    pub fn stamp_ttl(&mut self) -> (ok: bool)
        ensures
            same_but_ttl(*final(self), *old(self)),
            ok ==> exists|now: u64| final(self).ttl == ttl_spec(now, old(self).expires_in) && final(self).ttl is Some,
            !ok ==> final(self).ttl == old(self).ttl,
    {
        match now_epoch_secs() {
            Some(now) => self.stamp_ttl_at(now),
            None => false,
        }
    }

    /// The base directory under the home directory `home`.
    pub fn basedir_in(home: &str) -> (r: String)
        ensures
            r@ == basedir_spec(home@),
    {
        let mut r = String::from_str(home);
        r.append("/.aurl");
        r
    }

    /// The cache file of `profile` under the home directory `home`.
    pub fn cache_file_in(home: &str, profile: &str) -> (r: String)
        ensures
            r@ == cache_path_spec(home@, profile@),
    {
        let mut r = AccessToken::basedir_in(home);
        r.append("/token/");
        r.append(profile);
        r.append(".json");
        proof {
            reveal_strlit("/.aurl");
            reveal_strlit("/token/");
            reveal_strlit("/.aurl/token/");
            assert("/.aurl"@ + "/token/"@ =~= "/.aurl/token/"@);
            assert(r@ =~= cache_path_spec(home@, profile@));
        }
        r
    }

    /// The base directory under the current user's home directory, if known.
    pub fn basedir() -> (r: Option<String>)
        ensures
            r matches Some(p) ==> exists|home: Seq<char>| p@ == basedir_spec(home),
    {
        match home_dir() {
            Some(h) => Some(AccessToken::basedir_in(h.as_str())),
            None => None,
        }
    }

    /// The cache file of `profile` under the current user's home directory, if known.
    pub fn cache_file(profile: &str) -> (r: Option<String>)
        ensures
            r matches Some(p) ==> exists|home: Seq<char>| p@ == cache_path_spec(home, profile@),
    {
        match home_dir() {
            Some(h) => Some(AccessToken::cache_file_in(h.as_str(), profile)),
            None => None,
        }
    }
}


/// The standard Base64 encoding, with padding, of `b`.
pub uninterp spec fn base64_of(b: Seq<u8>) -> Seq<char>;

/// Relies on `base64::encode`: the standard alphabet with padding; the result
/// depends on the bytes alone, and is four characters for each started group
/// of three bytes (`encoded_size` with padding).
#[verifier::external_body]
fn base64_encode(b: &[u8]) -> (r: String)
    ensures
        r@ == base64_of(b@),
        r@.len() == 4 * ((b@.len() + 2) / 3),
{
    base64::encode(b)
}

/// Relies on `rand::RngCore::try_fill_bytes` of `rand::rngs::OsRng`: fills the
/// buffer from the operating system's random source, or reports that it
/// could not; the buffer keeps its length either way.
#[verifier::external_body]
fn fill_random(buf: &mut Vec<u8>) -> (ok: bool)
    ensures
        final(buf)@.len() == old(buf)@.len(),
{
    match rand::RngCore::try_fill_bytes(&mut rand::rngs::OsRng, buf.as_mut_slice()) {
        Ok(()) => true,
        Err(_) => false,
    }
}

/// The random bytes an authorization request's `state` is made from.
pub const STATE_BYTES: usize = 16;

/// The opaque `state` value of an authorization request made from the random bytes `b`.
pub fn state_from(b: &[u8]) -> (r: String)
    ensures
        r@ == base64_of(b@),
        r@.len() == 4 * ((b@.len() + 2) / 3),
{
    base64_encode(b)
}

/// A fresh opaque `state` value for an authorization request, made from
/// `STATE_BYTES` bytes of the operating system's random source; `None` when
/// that source fails.
pub fn random() -> (r: Option<String>)
    ensures
        r matches Some(s) ==> exists|b: Seq<u8>| b.len() == STATE_BYTES && s@ == base64_of(b),
        r matches Some(s) ==> s@.len() == 24,
{
    let mut buf: Vec<u8> = Vec::new();
    let mut i: usize = 0;
    while i < STATE_BYTES
        invariant
            i <= STATE_BYTES,
            buf@.len() == i,
        decreases STATE_BYTES - i,
    {
        buf.push(0u8);
        i = i + 1;
    }
    if fill_random(&mut buf) {
        Some(state_from(buf.as_slice()))
    } else {
        None
    }
}

/// The view of a list of name/value pairs.
pub open spec fn pairs_view(v: Seq<(String, String)>) -> Seq<(Seq<char>, Seq<char>)> {
    v.map_values(|p: (String, String)| (p.0@, p.1@))
}

/// A POST to the token endpoint, authenticated with the client's credentials.
pub struct TokenRequest {
    pub endpoint: String,
    pub client_id: String,
    pub client_secret: Option<String>,
    pub user_agent: String,
    /// The form-encoded body, in order.
    pub form: Vec<(String, String)>,
}

/// The authorization request opened in the user's browser.
pub struct AuthorizationRequest {
    pub endpoint: String,
    /// The query parameters, in order.
    pub query: Vec<(String, String)>,
}

/// What a grant type does first: a token request, or an authorization
/// request that the user must complete before a code can be exchanged.
pub enum GrantPlan {
    Token(TokenRequest),
    Authorize(AuthorizationRequest),
}

fn pair(k: &str, v: String) -> (r: (String, String))
    ensures
        r.0@ == k@,
        r.1@ == v@,
{
    (String::from_str(k), v)
}

/// The first field a password grant needs that `c` lacks.
pub open spec fn password_missing(c: OAuth2Config) -> Option<Seq<char>> {
    if c.auth_server_token_endpoint is None {
        Some("auth_server_token_endpoint"@)
    } else if c.client_id is None {
        Some("client_id"@)
    } else if c.scopes is None {
        Some("scopes"@)
    } else if c.username is None {
        Some("username"@)
    } else if c.password is None {
        Some("password"@)
    } else {
        None
    }
}

/// The first field a client-credentials grant needs that `c` lacks.
pub open spec fn client_credentials_missing(c: OAuth2Config) -> Option<Seq<char>> {
    if c.auth_server_token_endpoint is None {
        Some("auth_server_token_endpoint"@)
    } else if c.client_id is None {
        Some("client_id"@)
    } else if c.scopes is None {
        Some("scopes"@)
    } else {
        None
    }
}

/// The first field an authorization request needs that `c` lacks.
pub open spec fn authorize_missing(c: OAuth2Config) -> Option<Seq<char>> {
    if c.auth_server_auth_endpoint is None {
        Some("auth_server_auth_endpoint"@)
    } else if c.client_id is None {
        Some("client_id"@)
    } else if c.scopes is None {
        Some("scopes"@)
    } else if c.redirect is None {
        Some("redirect"@)
    } else {
        None
    }
}

/// The first field the authorization-code grant needs, for its authorization
/// request and then for its code exchange, that `c` lacks.
pub open spec fn authorization_code_missing(c: OAuth2Config) -> Option<Seq<char>> {
    match authorize_missing(c) {
        Some(name) => Some(name),
        None => if c.auth_server_token_endpoint is None {
            Some("auth_server_token_endpoint"@)
        } else {
            None
        },
    }
}

/// The first field a code exchange needs that `c` lacks.
pub open spec fn code_exchange_missing(c: OAuth2Config) -> Option<Seq<char>> {
    if c.auth_server_token_endpoint is None {
        Some("auth_server_token_endpoint"@)
    } else if c.client_id is None {
        Some("client_id"@)
    } else if c.redirect is None {
        Some("redirect"@)
    } else {
        None
    }
}

/// `r` is a token request of `c` with the form `form`.
pub open spec fn token_request_of(c: OAuth2Config, r: TokenRequest, form: Seq<(Seq<char>, Seq<char>)>) -> bool {
    &&& r.endpoint@ == c.auth_server_token_endpoint->0@
    &&& r.client_id@ == c.client_id->0@
    &&& r.client_secret is Some == c.client_secret is Some
    &&& (r.client_secret is Some ==> r.client_secret->0@ == c.client_secret->0@)
    &&& r.user_agent@ == user_agent_of(c.default_user_agent)
    &&& pairs_view(r.form@) == form
}

impl OAuth2Config {
    fn token_request(&self, form: Vec<(String, String)>) -> (r: Result<TokenRequest, AccessTokenError>)
        ensures
            self.auth_server_token_endpoint is None ==> r is Err && is_config_error(r->Err_0, "auth_server_token_endpoint"@),
            self.auth_server_token_endpoint is Some && self.client_id is None ==> r is Err && is_config_error(r->Err_0, "client_id"@),
            self.auth_server_token_endpoint is Some && self.client_id is Some ==> r is Ok && token_request_of(*self, r->Ok_0, pairs_view(form@)),
    {
        let endpoint = self.auth_server_token_endpoint()?;
        let client_id = self.client_id()?;
        Ok(TokenRequest {
            endpoint,
            client_id,
            client_secret: copy_opt(&self.client_secret),
            user_agent: self.user_agent(),
            form,
        })
    }

    /// The token request of the password grant.
    pub fn password_request(&self) -> (r: Result<TokenRequest, AccessTokenError>)
        ensures
            match password_missing(*self) {
                Some(name) => r is Err && is_config_error(r->Err_0, name),
                None => r is Ok && token_request_of(*self, r->Ok_0, seq![
                    ("grant_type"@, "password"@),
                    ("scope"@, self.scopes->0@),
                    ("username"@, self.username->0@),
                    ("password"@, self.password->0@),
                ]),
            },
    {
        if self.auth_server_token_endpoint.is_none() || self.client_id.is_none() {
            return self.token_request(Vec::new());
        }
        let scope = self.scopes()?;
        let username = self.username()?;
        let password = self.password()?;
        let form: Vec<(String, String)> = vec![
            pair("grant_type", String::from_str("password")),
            pair("scope", scope),
            pair("username", username),
            pair("password", password),
        ];
        let r = self.token_request(form);
        proof {
            assert(pairs_view(form@) =~= seq![
                ("grant_type"@, "password"@),
                ("scope"@, self.scopes->0@),
                ("username"@, self.username->0@),
                ("password"@, self.password->0@),
            ]);
        }
        r
    }

    /// The token request of the client-credentials grant.
    pub fn client_credentials_request(&self) -> (r: Result<TokenRequest, AccessTokenError>)
        ensures
            match client_credentials_missing(*self) {
                Some(name) => r is Err && is_config_error(r->Err_0, name),
                None => r is Ok && token_request_of(*self, r->Ok_0, seq![
                    ("grant_type"@, "client_credentials"@),
                    ("scope"@, self.scopes->0@),
                ]),
            },
    {
        if self.auth_server_token_endpoint.is_none() || self.client_id.is_none() {
            return self.token_request(Vec::new());
        }
        let scope = self.scopes()?;
        let form: Vec<(String, String)> = vec![
            pair("grant_type", String::from_str("client_credentials")),
            pair("scope", scope),
        ];
        let r = self.token_request(form);
        proof {
            assert(pairs_view(form@) =~= seq![
                ("grant_type"@, "client_credentials"@),
                ("scope"@, self.scopes->0@),
            ]);
        }
        r
    }

    /// The authorization request of the authorization-code grant, carrying `state`.
    pub fn authorization_request(&self, state: &str) -> (r: Result<AuthorizationRequest, AccessTokenError>)
        ensures
            match authorize_missing(*self) {
                Some(name) => r is Err && is_config_error(r->Err_0, name),
                None => r is Ok && r->Ok_0.endpoint@ == self.auth_server_auth_endpoint->0@
                    && pairs_view(r->Ok_0.query@) == seq![
                        ("response_type"@, "code"@),
                        ("client_id"@, self.client_id->0@),
                        ("scope"@, self.scopes->0@),
                        ("state"@, state@),
                        ("redirect_uri"@, self.redirect->0@),
                    ],
            },
    {
        let endpoint = self.auth_server_auth_endpoint()?;
        let client_id = self.client_id()?;
        let scope = self.scopes()?;
        let redirect = self.redirect()?;
        let query: Vec<(String, String)> = vec![
            pair("response_type", String::from_str("code")),
            pair("client_id", client_id),
            pair("scope", scope),
            pair("state", String::from_str(state)),
            pair("redirect_uri", redirect),
        ];
        proof {
            assert(pairs_view(query@) =~= seq![
                ("response_type"@, "code"@),
                ("client_id"@, self.client_id->0@),
                ("scope"@, self.scopes->0@),
                ("state"@, state@),
                ("redirect_uri"@, self.redirect->0@),
            ]);
        }
        Ok(AuthorizationRequest { endpoint, query })
    }

    /// The token request that exchanges the authorization code `code`.
    pub fn code_exchange_request(&self, code: &str) -> (r: Result<TokenRequest, AccessTokenError>)
        ensures
            match code_exchange_missing(*self) {
                Some(name) => r is Err && is_config_error(r->Err_0, name),
                None => r is Ok && token_request_of(*self, r->Ok_0, seq![
                    ("code"@, code@),
                    ("grant_type"@, "authorization_code"@),
                    ("redirect_uri"@, self.redirect->0@),
                ]),
            },
    {
        if self.auth_server_token_endpoint.is_none() || self.client_id.is_none() {
            return self.token_request(Vec::new());
        }
        let redirect = self.redirect()?;
        let form: Vec<(String, String)> = vec![
            pair("code", String::from_str(code)),
            pair("grant_type", String::from_str("authorization_code")),
            pair("redirect_uri", redirect),
        ];
        let r = self.token_request(form);
        proof {
            assert(pairs_view(form@) =~= seq![
                ("code"@, code@),
                ("grant_type"@, "authorization_code"@),
                ("redirect_uri"@, self.redirect->0@),
            ]);
        }
        r
    }
}

impl GrantType {
    /// The first request this grant type makes for the configuration `config`;
    /// `state` is the opaque value an authorization request carries. Every
    /// field the grant will need is checked here, before any request is made.
    pub fn plan(&self, config: &OAuth2Config, state: &str) -> (r: Result<GrantPlan, AccessTokenError>)
        ensures
            match *self {
                GrantType::Password => match password_missing(*config) {
                    Some(name) => r is Err && is_config_error(r->Err_0, name),
                    None => r matches Ok(GrantPlan::Token(t)) && token_request_of(*config, t, seq![
                        ("grant_type"@, "password"@),
                        ("scope"@, config.scopes->0@),
                        ("username"@, config.username->0@),
                        ("password"@, config.password->0@),
                    ]),
                },
                GrantType::ClientCredentials => match client_credentials_missing(*config) {
                    Some(name) => r is Err && is_config_error(r->Err_0, name),
                    None => r matches Ok(GrantPlan::Token(t)) && token_request_of(*config, t, seq![
                        ("grant_type"@, "client_credentials"@),
                        ("scope"@, config.scopes->0@),
                    ]),
                },
                GrantType::AuthorizationCode => match authorization_code_missing(*config) {
                    Some(name) => r is Err && is_config_error(r->Err_0, name),
                    None => r matches Ok(GrantPlan::Authorize(a))
                        && a.endpoint@ == config.auth_server_auth_endpoint->0@
                        && pairs_view(a.query@) == seq![
                            ("response_type"@, "code"@),
                            ("client_id"@, config.client_id->0@),
                            ("scope"@, config.scopes->0@),
                            ("state"@, state@),
                            ("redirect_uri"@, config.redirect->0@),
                        ],
                },
            },
    {
        match self {
            GrantType::Password => match config.password_request() {
                Ok(t) => Ok(GrantPlan::Token(t)),
                Err(e) => Err(e),
            },
            GrantType::ClientCredentials => match config.client_credentials_request() {
                Ok(t) => Ok(GrantPlan::Token(t)),
                Err(e) => Err(e),
            },
            GrantType::AuthorizationCode => match config.authorization_request(state) {
                Ok(a) => {
                    // The code exchange needs the token endpoint: fail before
                    // the user is sent to the browser.
                    match config.auth_server_token_endpoint() {
                        Ok(_) => Ok(GrantPlan::Authorize(a)),
                        Err(e) => Err(e),
                    }
                },
                Err(e) => Err(e),
            },
        }
    }
}

/// The authorization code in a line the user typed: the line without
/// surrounding white space, or `None` when nothing else is left, so that the
/// user is asked again.
pub fn authorization_code(line: &str) -> (r: Option<String>)
    ensures
        trim_of(line@).len() == 0 ==> r is None,
        trim_of(line@).len() > 0 ==> r is Some && r->0@ == trim_of(line@),
{
    let t = trimmed(line);
    if t.as_str().unicode_len() == 0 {
        None
    } else {
        Some(t)
    }
}

} // verus!
