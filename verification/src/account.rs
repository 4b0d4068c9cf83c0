//! The vendor's web service: the user who signs in, what the service answers, and the requests
//! about a user's devices.

use vstd::prelude::*;
use vstd::string::StringExecFns;
use crate::error::{DecodeError, DecodeErrorView, Strictness};
use crate::json::{lemma_object_view, Json, JsonValue, Members};
use crate::record::{open, put, spec_open, spec_undeclared, start, undeclared};
use crate::text::same_text;
use crate::time::Instant;
use crate::wire::{field, spec_field, Decode, Record};

verus! {

pub const IAQUALINK_API_KEY: &'static str = "EOOEMOW4YR6QNB07";

pub const IAQUALINK_SESSION_URL: &'static str = "https://p-api.iaqualink.net/v1/mobile/session.json";

pub const IAQUALINK_LOGIN_URL: &'static str = "https://prod.zodiac-io.com/users/v1/login";

pub const IAQUALINK_DEVICES_URL: &'static str = "https://r-api.iaqualink.net/devices.json";

pub const IAQUALINK_DEVICES_V1_URL: &'static str = "https://prod.zodiac-io.com/devices/v1/";

pub const IAQUALINK_DEVICES_V2_URL: &'static str = "https://prod.zodiac-io.com/devices/v2/";

pub const IAQUALINK_AWSIOT_ENDPOINT: &'static str = "a1zi08qpbrtjyq-ats.iot.us-east-1.amazonaws.com";

pub const IAQUALINK_COMMAND_GET_DEVICES: &'static str = "get_devices";

pub const IAQUALINK_COMMAND_GET_HOME: &'static str = "get_home";

pub const IAQUALINK_COMMAND_GET_ONETOUCH: &'static str = "get_onetouch";

pub const IAQUALINK_COMMAND_SET_AUX: &'static str = "set_aux";

pub const IAQUALINK_COMMAND_SET_LIGHT: &'static str = "set_light";

pub const IAQUALINK_COMMAND_SET_POOL_HEATER: &'static str = "set_pool_heater";

pub const IAQUALINK_COMMAND_SET_POOL_PUMP: &'static str = "set_pool_pump";

pub const IAQUALINK_COMMAND_SET_SOLAR_HEATER: &'static str = "set_solar_heater";

pub const IAQUALINK_COMMAND_SET_SPA_HEATER: &'static str = "set_spa_heater";

pub const IAQUALINK_COMMAND_SET_SPA_PUMP: &'static str = "set_spa_pump";

pub const IAQUALINK_COMMAND_SET_TEMPS: &'static str = "set_temps";

/// Short-lived credentials for the message broker.
#[derive(Debug, PartialEq, Eq)]
pub struct Credentials {
    pub access_key_id: String,
    /// When the credentials stop being valid.
    pub expiration: Instant,
    pub identity_id: String,
    pub secret_key: String,
    pub session_token: String,
    /// Members that the record does not declare.
    pub extra: Vec<(String, Json)>,
}

/// Mathematical model of a [`Credentials`].
pub struct CredentialsView {
    pub access_key_id: Seq<char>,
    pub expiration: Instant,
    pub identity_id: Seq<char>,
    pub secret_key: Seq<char>,
    pub session_token: Seq<char>,
    pub extra: Members,
}

impl DeepView for Credentials {
    type V = CredentialsView;

    open spec fn deep_view(&self) -> CredentialsView {
        CredentialsView {
            access_key_id: self.access_key_id@,
            expiration: self.expiration,
            identity_id: self.identity_id@,
            secret_key: self.secret_key@,
            session_token: self.session_token@,
            extra: self.extra.deep_view(),
        }
    }
}

impl Record for Credentials {
    open spec fn spec_declares(name: Seq<char>) -> bool {
        ||| name == "AccessKeyId"@
        ||| name == "Expiration"@
        ||| name == "IdentityId"@
        ||| name == "SecretKey"@
        ||| name == "SessionToken"@
    }

    fn declares(name: &str) -> (r: bool) {
        same_text(name, "AccessKeyId") || same_text(name, "Expiration")
            || same_text(name, "IdentityId") || same_text(name, "SecretKey")
            || same_text(name, "SessionToken")
    }
}

impl Credentials {
    /// What a document is read as.
    #[verifier::opaque]
    pub open spec fn spec_read(doc: JsonValue, mode: Strictness) -> Result<CredentialsView, DecodeErrorView> {
        match spec_open::<Credentials>(doc, mode) { Err(e) => Err(e), Ok(members) =>
        match spec_field::<String>(members, "AccessKeyId"@, mode) { Err(e) => Err(e), Ok(access_key_id) =>
        match spec_field::<Instant>(members, "Expiration"@, mode) { Err(e) => Err(e), Ok(expiration) =>
        match spec_field::<String>(members, "IdentityId"@, mode) { Err(e) => Err(e), Ok(identity_id) =>
        match spec_field::<String>(members, "SecretKey"@, mode) { Err(e) => Err(e), Ok(secret_key) =>
        match spec_field::<String>(members, "SessionToken"@, mode) { Err(e) => Err(e), Ok(session_token) =>
            Ok(CredentialsView {
                access_key_id,
                expiration,
                identity_id,
                secret_key,
                session_token,
                extra: spec_undeclared::<Credentials>(members),
            })
        }}}}}}
    }
}

impl Decode for Credentials {
    open spec fn spec_decode(doc: JsonValue, mode: Strictness) -> Result<CredentialsView, DecodeErrorView> {
        Credentials::spec_read(doc, mode)
    }

    open spec fn spec_absent() -> Option<CredentialsView> {
        None
    }

    fn decode(doc: &Json, mode: Strictness) -> (r: Result<Credentials, DecodeError>) {
        reveal(Credentials::spec_read);
        let members = open::<Credentials>(doc, mode)?;
        let access_key_id = field::<String>(members, "AccessKeyId", mode)?;
        let expiration = field::<Instant>(members, "Expiration", mode)?;
        let identity_id = field::<String>(members, "IdentityId", mode)?;
        let secret_key = field::<String>(members, "SecretKey", mode)?;
        let session_token = field::<String>(members, "SessionToken", mode)?;
        let extra = undeclared::<Credentials>(members);
        Ok(Credentials {
            access_key_id,
            expiration,
            identity_id,
            secret_key,
            session_token,
            extra,
        })
    }

    fn absent() -> (r: Option<Credentials>) {
        None
    }
}

/// The identity pool that the user belongs to.
#[derive(Debug, PartialEq, Eq)]
pub struct CognitoPool {
    pub app_client_id: String,
    pub region: String,
    pub domain: String,
    pub pool_id: String,
    /// Members that the record does not declare.
    pub extra: Vec<(String, Json)>,
}

/// Mathematical model of a [`CognitoPool`].
pub struct CognitoPoolView {
    pub app_client_id: Seq<char>,
    pub region: Seq<char>,
    pub domain: Seq<char>,
    pub pool_id: Seq<char>,
    pub extra: Members,
}

impl DeepView for CognitoPool {
    type V = CognitoPoolView;

    open spec fn deep_view(&self) -> CognitoPoolView {
        CognitoPoolView {
            app_client_id: self.app_client_id@,
            region: self.region@,
            domain: self.domain@,
            pool_id: self.pool_id@,
            extra: self.extra.deep_view(),
        }
    }
}

impl Record for CognitoPool {
    open spec fn spec_declares(name: Seq<char>) -> bool {
        ||| name == "appClientId"@
        ||| name == "region"@
        ||| name == "domain"@
        ||| name == "poolId"@
    }

    fn declares(name: &str) -> (r: bool) {
        same_text(name, "appClientId") || same_text(name, "region") || same_text(name, "domain")
            || same_text(name, "poolId")
    }
}

impl CognitoPool {
    /// What a document is read as.
    #[verifier::opaque]
    pub open spec fn spec_read(doc: JsonValue, mode: Strictness) -> Result<CognitoPoolView, DecodeErrorView> {
        match spec_open::<CognitoPool>(doc, mode) { Err(e) => Err(e), Ok(members) =>
        match spec_field::<String>(members, "appClientId"@, mode) { Err(e) => Err(e), Ok(app_client_id) =>
        match spec_field::<String>(members, "region"@, mode) { Err(e) => Err(e), Ok(region) =>
        match spec_field::<String>(members, "domain"@, mode) { Err(e) => Err(e), Ok(domain) =>
        match spec_field::<String>(members, "poolId"@, mode) { Err(e) => Err(e), Ok(pool_id) =>
            Ok(CognitoPoolView {
                app_client_id,
                region,
                domain,
                pool_id,
                extra: spec_undeclared::<CognitoPool>(members),
            })
        }}}}}
    }
}

impl Decode for CognitoPool {
    open spec fn spec_decode(doc: JsonValue, mode: Strictness) -> Result<CognitoPoolView, DecodeErrorView> {
        CognitoPool::spec_read(doc, mode)
    }

    open spec fn spec_absent() -> Option<CognitoPoolView> {
        None
    }

    fn decode(doc: &Json, mode: Strictness) -> (r: Result<CognitoPool, DecodeError>) {
        reveal(CognitoPool::spec_read);
        let members = open::<CognitoPool>(doc, mode)?;
        let app_client_id = field::<String>(members, "appClientId", mode)?;
        let region = field::<String>(members, "region", mode)?;
        let domain = field::<String>(members, "domain", mode)?;
        let pool_id = field::<String>(members, "poolId", mode)?;
        let extra = undeclared::<CognitoPool>(members);
        Ok(CognitoPool { app_client_id, region, domain, pool_id, extra })
    }

    fn absent() -> (r: Option<CognitoPool>) {
        None
    }
}

/// The tokens of the user who signed in.
#[derive(Debug, PartialEq, Eq)]
pub struct PoolOAuth {
    pub access_token: String,
    pub expires_in: u16,
    pub token_type: String,
    pub refresh_token: String,
    pub id_token: String,
    /// Members that the record does not declare.
    pub extra: Vec<(String, Json)>,
}

/// Mathematical model of a [`PoolOAuth`].
pub struct PoolOAuthView {
    pub access_token: Seq<char>,
    pub expires_in: u16,
    pub token_type: Seq<char>,
    pub refresh_token: Seq<char>,
    pub id_token: Seq<char>,
    pub extra: Members,
}

impl DeepView for PoolOAuth {
    type V = PoolOAuthView;

    open spec fn deep_view(&self) -> PoolOAuthView {
        PoolOAuthView {
            access_token: self.access_token@,
            expires_in: self.expires_in,
            token_type: self.token_type@,
            refresh_token: self.refresh_token@,
            id_token: self.id_token@,
            extra: self.extra.deep_view(),
        }
    }
}

impl Record for PoolOAuth {
    open spec fn spec_declares(name: Seq<char>) -> bool {
        ||| name == "AccessToken"@
        ||| name == "ExpiresIn"@
        ||| name == "TokenType"@
        ||| name == "RefreshToken"@
        ||| name == "IdToken"@
    }

    fn declares(name: &str) -> (r: bool) {
        same_text(name, "AccessToken") || same_text(name, "ExpiresIn")
            || same_text(name, "TokenType") || same_text(name, "RefreshToken")
            || same_text(name, "IdToken")
    }
}

impl PoolOAuth {
    /// What a document is read as.
    #[verifier::opaque]
    pub open spec fn spec_read(doc: JsonValue, mode: Strictness) -> Result<PoolOAuthView, DecodeErrorView> {
        match spec_open::<PoolOAuth>(doc, mode) { Err(e) => Err(e), Ok(members) =>
        match spec_field::<String>(members, "AccessToken"@, mode) { Err(e) => Err(e), Ok(access_token) =>
        match spec_field::<u16>(members, "ExpiresIn"@, mode) { Err(e) => Err(e), Ok(expires_in) =>
        match spec_field::<String>(members, "TokenType"@, mode) { Err(e) => Err(e), Ok(token_type) =>
        match spec_field::<String>(members, "RefreshToken"@, mode) { Err(e) => Err(e), Ok(refresh_token) =>
        match spec_field::<String>(members, "IdToken"@, mode) { Err(e) => Err(e), Ok(id_token) =>
            Ok(PoolOAuthView {
                access_token,
                expires_in,
                token_type,
                refresh_token,
                id_token,
                extra: spec_undeclared::<PoolOAuth>(members),
            })
        }}}}}}
    }
}

impl Decode for PoolOAuth {
    open spec fn spec_decode(doc: JsonValue, mode: Strictness) -> Result<PoolOAuthView, DecodeErrorView> {
        PoolOAuth::spec_read(doc, mode)
    }

    open spec fn spec_absent() -> Option<PoolOAuthView> {
        None
    }

    fn decode(doc: &Json, mode: Strictness) -> (r: Result<PoolOAuth, DecodeError>) {
        reveal(PoolOAuth::spec_read);
        let members = open::<PoolOAuth>(doc, mode)?;
        let access_token = field::<String>(members, "AccessToken", mode)?;
        let expires_in = field::<u16>(members, "ExpiresIn", mode)?;
        let token_type = field::<String>(members, "TokenType", mode)?;
        let refresh_token = field::<String>(members, "RefreshToken", mode)?;
        let id_token = field::<String>(members, "IdToken", mode)?;
        let extra = undeclared::<PoolOAuth>(members);
        Ok(PoolOAuth { access_token, expires_in, token_type, refresh_token, id_token, extra })
    }

    fn absent() -> (r: Option<PoolOAuth>) {
        None
    }
}

/// What the service answers to a user who signs in.
#[derive(Debug, PartialEq, Eq)]
pub struct LoginResponse {
    pub id: u32,
    pub created_at: Instant,
    pub updated_at: Instant,
    pub email: String,
    pub username: String,
    pub first_name: Option<String>,
    pub last_name: Option<String>,
    pub address: Option<String>,
    pub address_1: Option<String>,
    pub address_2: Option<String>,
    pub postal_code: String,
    pub city: Option<String>,
    pub country: Option<String>,
    pub opt_in_1: String,
    pub opt_in_2: String,
    pub phone: String,
    pub role: String,
    pub state: String,
    pub time_zone: Option<String>,
    pub session_id: String,
    pub cognito_pool: CognitoPool,
    pub authentication_token: String,
    pub credentials: Credentials,
    pub user_pool_oauth: PoolOAuth,
    /// Members that the record does not declare.
    pub extra: Vec<(String, Json)>,
}

/// Mathematical model of a [`LoginResponse`].
pub struct LoginResponseView {
    pub id: u32,
    pub created_at: Instant,
    pub updated_at: Instant,
    pub email: Seq<char>,
    pub username: Seq<char>,
    pub first_name: Option<Seq<char>>,
    pub last_name: Option<Seq<char>>,
    pub address: Option<Seq<char>>,
    pub address_1: Option<Seq<char>>,
    pub address_2: Option<Seq<char>>,
    pub postal_code: Seq<char>,
    pub city: Option<Seq<char>>,
    pub country: Option<Seq<char>>,
    pub opt_in_1: Seq<char>,
    pub opt_in_2: Seq<char>,
    pub phone: Seq<char>,
    pub role: Seq<char>,
    pub state: Seq<char>,
    pub time_zone: Option<Seq<char>>,
    pub session_id: Seq<char>,
    pub cognito_pool: CognitoPoolView,
    pub authentication_token: Seq<char>,
    pub credentials: CredentialsView,
    pub user_pool_oauth: PoolOAuthView,
    pub extra: Members,
}

impl DeepView for LoginResponse {
    type V = LoginResponseView;

    open spec fn deep_view(&self) -> LoginResponseView {
        LoginResponseView {
            id: self.id,
            created_at: self.created_at,
            updated_at: self.updated_at,
            email: self.email@,
            username: self.username@,
            first_name: self.first_name.deep_view(),
            last_name: self.last_name.deep_view(),
            address: self.address.deep_view(),
            address_1: self.address_1.deep_view(),
            address_2: self.address_2.deep_view(),
            postal_code: self.postal_code@,
            city: self.city.deep_view(),
            country: self.country.deep_view(),
            opt_in_1: self.opt_in_1@,
            opt_in_2: self.opt_in_2@,
            phone: self.phone@,
            role: self.role@,
            state: self.state@,
            time_zone: self.time_zone.deep_view(),
            session_id: self.session_id@,
            cognito_pool: self.cognito_pool.deep_view(),
            authentication_token: self.authentication_token@,
            credentials: self.credentials.deep_view(),
            user_pool_oauth: self.user_pool_oauth.deep_view(),
            extra: self.extra.deep_view(),
        }
    }
}

impl Record for LoginResponse {
    open spec fn spec_declares(name: Seq<char>) -> bool {
        ||| name == "id"@
        ||| name == "created_at"@
        ||| name == "updated_at"@
        ||| name == "email"@
        ||| name == "username"@
        ||| name == "first_name"@
        ||| name == "last_name"@
        ||| name == "address"@
        ||| name == "address_1"@
        ||| name == "address_2"@
        ||| name == "postal_code"@
        ||| name == "city"@
        ||| name == "country"@
        ||| name == "opt_in_1"@
        ||| name == "opt_in_2"@
        ||| name == "phone"@
        ||| name == "role"@
        ||| name == "state"@
        ||| name == "time_zone"@
        ||| name == "session_id"@
        ||| name == "cognitoPool"@
        ||| name == "authentication_token"@
        ||| name == "credentials"@
        ||| name == "userPoolOAuth"@
    }

    fn declares(name: &str) -> (r: bool) {
        same_text(name, "id") || same_text(name, "created_at") || same_text(name, "updated_at")
            || same_text(name, "email") || same_text(name, "username")
            || same_text(name, "first_name") || same_text(name, "last_name")
            || same_text(name, "address") || same_text(name, "address_1")
            || same_text(name, "address_2") || same_text(name, "postal_code")
            || same_text(name, "city") || same_text(name, "country") || same_text(name, "opt_in_1")
            || same_text(name, "opt_in_2") || same_text(name, "phone") || same_text(name, "role")
            || same_text(name, "state") || same_text(name, "time_zone")
            || same_text(name, "session_id") || same_text(name, "cognitoPool")
            || same_text(name, "authentication_token") || same_text(name, "credentials")
            || same_text(name, "userPoolOAuth")
    }
}

impl LoginResponse {
    /// What a document is read as.
    #[verifier::opaque]
    pub open spec fn spec_read(doc: JsonValue, mode: Strictness) -> Result<LoginResponseView, DecodeErrorView> {
        match spec_open::<LoginResponse>(doc, mode) { Err(e) => Err(e), Ok(members) =>
        match spec_field::<u32>(members, "id"@, mode) { Err(e) => Err(e), Ok(id) =>
        match spec_field::<Instant>(members, "created_at"@, mode) { Err(e) => Err(e), Ok(created_at) =>
        match spec_field::<Instant>(members, "updated_at"@, mode) { Err(e) => Err(e), Ok(updated_at) =>
        match spec_field::<String>(members, "email"@, mode) { Err(e) => Err(e), Ok(email) =>
        match spec_field::<String>(members, "username"@, mode) { Err(e) => Err(e), Ok(username) =>
        match spec_field::<Option<String>>(members, "first_name"@, mode) { Err(e) => Err(e), Ok(first_name) =>
        match spec_field::<Option<String>>(members, "last_name"@, mode) { Err(e) => Err(e), Ok(last_name) =>
        match spec_field::<Option<String>>(members, "address"@, mode) { Err(e) => Err(e), Ok(address) =>
        match spec_field::<Option<String>>(members, "address_1"@, mode) { Err(e) => Err(e), Ok(address_1) =>
        match spec_field::<Option<String>>(members, "address_2"@, mode) { Err(e) => Err(e), Ok(address_2) =>
        match spec_field::<String>(members, "postal_code"@, mode) { Err(e) => Err(e), Ok(postal_code) =>
        match spec_field::<Option<String>>(members, "city"@, mode) { Err(e) => Err(e), Ok(city) =>
        match spec_field::<Option<String>>(members, "country"@, mode) { Err(e) => Err(e), Ok(country) =>
        match spec_field::<String>(members, "opt_in_1"@, mode) { Err(e) => Err(e), Ok(opt_in_1) =>
        match spec_field::<String>(members, "opt_in_2"@, mode) { Err(e) => Err(e), Ok(opt_in_2) =>
        match spec_field::<String>(members, "phone"@, mode) { Err(e) => Err(e), Ok(phone) =>
        match spec_field::<String>(members, "role"@, mode) { Err(e) => Err(e), Ok(role) =>
        match spec_field::<String>(members, "state"@, mode) { Err(e) => Err(e), Ok(state) =>
        match spec_field::<Option<String>>(members, "time_zone"@, mode) { Err(e) => Err(e), Ok(time_zone) =>
        match spec_field::<String>(members, "session_id"@, mode) { Err(e) => Err(e), Ok(session_id) =>
        match spec_field::<CognitoPool>(members, "cognitoPool"@, mode) { Err(e) => Err(e), Ok(cognito_pool) =>
        match spec_field::<String>(members, "authentication_token"@, mode) { Err(e) => Err(e), Ok(authentication_token) =>
        match spec_field::<Credentials>(members, "credentials"@, mode) { Err(e) => Err(e), Ok(credentials) =>
        match spec_field::<PoolOAuth>(members, "userPoolOAuth"@, mode) { Err(e) => Err(e), Ok(user_pool_oauth) =>
            Ok(LoginResponseView {
                id,
                created_at,
                updated_at,
                email,
                username,
                first_name,
                last_name,
                address,
                address_1,
                address_2,
                postal_code,
                city,
                country,
                opt_in_1,
                opt_in_2,
                phone,
                role,
                state,
                time_zone,
                session_id,
                cognito_pool,
                authentication_token,
                credentials,
                user_pool_oauth,
                extra: spec_undeclared::<LoginResponse>(members),
            })
        }}}}}}}}}}}}}}}}}}}}}}}}}
    }
}

impl Decode for LoginResponse {
    open spec fn spec_decode(doc: JsonValue, mode: Strictness) -> Result<LoginResponseView, DecodeErrorView> {
        LoginResponse::spec_read(doc, mode)
    }

    open spec fn spec_absent() -> Option<LoginResponseView> {
        None
    }

    fn decode(doc: &Json, mode: Strictness) -> (r: Result<LoginResponse, DecodeError>) {
        reveal(LoginResponse::spec_read);
        let members = open::<LoginResponse>(doc, mode)?;
        let id = field::<u32>(members, "id", mode)?;
        let created_at = field::<Instant>(members, "created_at", mode)?;
        let updated_at = field::<Instant>(members, "updated_at", mode)?;
        let email = field::<String>(members, "email", mode)?;
        let username = field::<String>(members, "username", mode)?;
        let first_name = field::<Option<String>>(members, "first_name", mode)?;
        let last_name = field::<Option<String>>(members, "last_name", mode)?;
        let address = field::<Option<String>>(members, "address", mode)?;
        let address_1 = field::<Option<String>>(members, "address_1", mode)?;
        let address_2 = field::<Option<String>>(members, "address_2", mode)?;
        let postal_code = field::<String>(members, "postal_code", mode)?;
        let city = field::<Option<String>>(members, "city", mode)?;
        let country = field::<Option<String>>(members, "country", mode)?;
        let opt_in_1 = field::<String>(members, "opt_in_1", mode)?;
        let opt_in_2 = field::<String>(members, "opt_in_2", mode)?;
        let phone = field::<String>(members, "phone", mode)?;
        let role = field::<String>(members, "role", mode)?;
        let state = field::<String>(members, "state", mode)?;
        let time_zone = field::<Option<String>>(members, "time_zone", mode)?;
        let session_id = field::<String>(members, "session_id", mode)?;
        let cognito_pool = field::<CognitoPool>(members, "cognitoPool", mode)?;
        let authentication_token = field::<String>(members, "authentication_token", mode)?;
        let credentials = field::<Credentials>(members, "credentials", mode)?;
        let user_pool_oauth = field::<PoolOAuth>(members, "userPoolOAuth", mode)?;
        let extra = undeclared::<LoginResponse>(members);
        Ok(LoginResponse {
            id,
            created_at,
            updated_at,
            email,
            username,
            first_name,
            last_name,
            address,
            address_1,
            address_2,
            postal_code,
            city,
            country,
            opt_in_1,
            opt_in_2,
            phone,
            role,
            state,
            time_zone,
            session_id,
            cognito_pool,
            authentication_token,
            credentials,
            user_pool_oauth,
            extra,
        })
    }

    fn absent() -> (r: Option<LoginResponse>) {
        None
    }
}

/// A device that is registered to the user.
#[derive(Debug, PartialEq, Eq)]
pub struct System {
    pub id: u32,
    pub name: String,
    pub created_at: String,
    pub updated_at: String,
    pub device_type: String,
    pub firmware_version: Option<String>,
    pub last_activity_at: Option<String>,
    pub owner_id: u32,
    pub serial_number: String,
    pub target_firmware_version: Option<String>,
    pub update_firmware_start_at: Option<String>,
    pub updating: bool,
    /// Members that the record does not declare.
    pub extra: Vec<(String, Json)>,
}

/// Mathematical model of a [`System`].
pub struct SystemView {
    pub id: u32,
    pub name: Seq<char>,
    pub created_at: Seq<char>,
    pub updated_at: Seq<char>,
    pub device_type: Seq<char>,
    pub firmware_version: Option<Seq<char>>,
    pub last_activity_at: Option<Seq<char>>,
    pub owner_id: u32,
    pub serial_number: Seq<char>,
    pub target_firmware_version: Option<Seq<char>>,
    pub update_firmware_start_at: Option<Seq<char>>,
    pub updating: bool,
    pub extra: Members,
}

impl DeepView for System {
    type V = SystemView;

    open spec fn deep_view(&self) -> SystemView {
        SystemView {
            id: self.id,
            name: self.name@,
            created_at: self.created_at@,
            updated_at: self.updated_at@,
            device_type: self.device_type@,
            firmware_version: self.firmware_version.deep_view(),
            last_activity_at: self.last_activity_at.deep_view(),
            owner_id: self.owner_id,
            serial_number: self.serial_number@,
            target_firmware_version: self.target_firmware_version.deep_view(),
            update_firmware_start_at: self.update_firmware_start_at.deep_view(),
            updating: self.updating,
            extra: self.extra.deep_view(),
        }
    }
}

impl Record for System {
    open spec fn spec_declares(name: Seq<char>) -> bool {
        ||| name == "id"@
        ||| name == "name"@
        ||| name == "created_at"@
        ||| name == "updated_at"@
        ||| name == "device_type"@
        ||| name == "firmware_version"@
        ||| name == "last_activity_at"@
        ||| name == "owner_id"@
        ||| name == "serial_number"@
        ||| name == "target_firmware_version"@
        ||| name == "update_firmware_start_at"@
        ||| name == "updating"@
    }

    fn declares(name: &str) -> (r: bool) {
        same_text(name, "id") || same_text(name, "name") || same_text(name, "created_at")
            || same_text(name, "updated_at") || same_text(name, "device_type")
            || same_text(name, "firmware_version") || same_text(name, "last_activity_at")
            || same_text(name, "owner_id") || same_text(name, "serial_number")
            || same_text(name, "target_firmware_version")
            || same_text(name, "update_firmware_start_at") || same_text(name, "updating")
    }
}

impl System {
    /// What a document is read as.
    #[verifier::opaque]
    pub open spec fn spec_read(doc: JsonValue, mode: Strictness) -> Result<SystemView, DecodeErrorView> {
        match spec_open::<System>(doc, mode) { Err(e) => Err(e), Ok(members) =>
        match spec_field::<u32>(members, "id"@, mode) { Err(e) => Err(e), Ok(id) =>
        match spec_field::<String>(members, "name"@, mode) { Err(e) => Err(e), Ok(name) =>
        match spec_field::<String>(members, "created_at"@, mode) { Err(e) => Err(e), Ok(created_at) =>
        match spec_field::<String>(members, "updated_at"@, mode) { Err(e) => Err(e), Ok(updated_at) =>
        match spec_field::<String>(members, "device_type"@, mode) { Err(e) => Err(e), Ok(device_type) =>
        match spec_field::<Option<String>>(members, "firmware_version"@, mode) { Err(e) => Err(e), Ok(firmware_version) =>
        match spec_field::<Option<String>>(members, "last_activity_at"@, mode) { Err(e) => Err(e), Ok(last_activity_at) =>
        match spec_field::<u32>(members, "owner_id"@, mode) { Err(e) => Err(e), Ok(owner_id) =>
        match spec_field::<String>(members, "serial_number"@, mode) { Err(e) => Err(e), Ok(serial_number) =>
        match spec_field::<Option<String>>(members, "target_firmware_version"@, mode) { Err(e) => Err(e), Ok(target_firmware_version) =>
        match spec_field::<Option<String>>(members, "update_firmware_start_at"@, mode) { Err(e) => Err(e), Ok(update_firmware_start_at) =>
        match spec_field::<bool>(members, "updating"@, mode) { Err(e) => Err(e), Ok(updating) =>
            Ok(SystemView {
                id,
                name,
                created_at,
                updated_at,
                device_type,
                firmware_version,
                last_activity_at,
                owner_id,
                serial_number,
                target_firmware_version,
                update_firmware_start_at,
                updating,
                extra: spec_undeclared::<System>(members),
            })
        }}}}}}}}}}}}}
    }
}

impl Decode for System {
    open spec fn spec_decode(doc: JsonValue, mode: Strictness) -> Result<SystemView, DecodeErrorView> {
        System::spec_read(doc, mode)
    }

    open spec fn spec_absent() -> Option<SystemView> {
        None
    }

    fn decode(doc: &Json, mode: Strictness) -> (r: Result<System, DecodeError>) {
        reveal(System::spec_read);
        let members = open::<System>(doc, mode)?;
        let id = field::<u32>(members, "id", mode)?;
        let name = field::<String>(members, "name", mode)?;
        let created_at = field::<String>(members, "created_at", mode)?;
        let updated_at = field::<String>(members, "updated_at", mode)?;
        let device_type = field::<String>(members, "device_type", mode)?;
        let firmware_version = field::<Option<String>>(members, "firmware_version", mode)?;
        let last_activity_at = field::<Option<String>>(members, "last_activity_at", mode)?;
        let owner_id = field::<u32>(members, "owner_id", mode)?;
        let serial_number = field::<String>(members, "serial_number", mode)?;
        let target_firmware_version = field::<Option<String>>(members, "target_firmware_version", mode)?;
        let update_firmware_start_at = field::<Option<String>>(members, "update_firmware_start_at", mode)?;
        let updating = field::<bool>(members, "updating", mode)?;
        let extra = undeclared::<System>(members);
        Ok(System {
            id,
            name,
            created_at,
            updated_at,
            device_type,
            firmware_version,
            last_activity_at,
            owner_id,
            serial_number,
            target_firmware_version,
            update_firmware_start_at,
            updating,
            extra,
        })
    }

    fn absent() -> (r: Option<System>) {
        None
    }
}

/// How a request is made.
#[derive(Debug, Clone, Copy, PartialEq, Eq, Structural)]
pub enum Method {
    Get,
    Post,
}

impl DeepView for Method {
    type V = Method;

    open spec fn deep_view(&self) -> Method {
        *self
    }
}

/// A request to the vendor's service, ready to be sent.
#[derive(Debug, PartialEq, Eq)]
pub struct ApiRequest {
    pub method: Method,
    /// The URL of the service.
    pub url: String,
    /// What is joined to the URL, as a relative reference.
    pub path: Option<String>,
    /// The parameters of the query, in order.
    pub query: Vec<(String, String)>,
    /// The value of the `Authorization` header.
    pub authorization: Option<String>,
    /// The JSON body.
    pub body: Option<Json>,
}

/// Mathematical model of an [`ApiRequest`].
pub struct ApiRequestView {
    pub method: Method,
    pub url: Seq<char>,
    pub path: Option<Seq<char>>,
    pub query: Seq<(Seq<char>, Seq<char>)>,
    pub authorization: Option<Seq<char>>,
    pub body: Option<JsonValue>,
}

impl DeepView for ApiRequest {
    type V = ApiRequestView;

    open spec fn deep_view(&self) -> ApiRequestView {
        ApiRequestView {
            method: self.method,
            url: self.url@,
            path: self.path.deep_view(),
            query: self.query.deep_view(),
            authorization: self.authorization.deep_view(),
            body: self.body.deep_view(),
        }
    }
}

/// The character that stands for a digit.
pub open spec fn spec_digit(digit: int) -> char {
    if digit == 0 {
        '0'
    } else if digit == 1 {
        '1'
    } else if digit == 2 {
        '2'
    } else if digit == 3 {
        '3'
    } else if digit == 4 {
        '4'
    } else if digit == 5 {
        '5'
    } else if digit == 6 {
        '6'
    } else if digit == 7 {
        '7'
    } else if digit == 8 {
        '8'
    } else {
        '9'
    }
}

/// A number in decimal digits, without leading zeros.
pub open spec fn spec_decimal(n: nat) -> Seq<char>
    decreases n,
{
    if n < 10 {
        Seq::empty().push(spec_digit(n as int))
    } else {
        spec_decimal(n / 10).push(spec_digit((n % 10) as int))
    }
}

/// The text of one digit.
fn digit(d: u32) -> (r: &'static str)
    requires
        d < 10,
    ensures
        r@ == Seq::empty().push(spec_digit(d as int)),
{
    proof {
        reveal_strlit("0");
        reveal_strlit("1");
        reveal_strlit("2");
        reveal_strlit("3");
        reveal_strlit("4");
        reveal_strlit("5");
        reveal_strlit("6");
        reveal_strlit("7");
        reveal_strlit("8");
        reveal_strlit("9");
    }
    let r = match d {
        0 => "0",
        1 => "1",
        2 => "2",
        3 => "3",
        4 => "4",
        5 => "5",
        6 => "6",
        7 => "7",
        8 => "8",
        _ => "9",
    };
    assert(r@ =~= Seq::empty().push(spec_digit(d as int)));
    r
}

/// A number in decimal digits, without leading zeros.
pub fn decimal(n: u32) -> (r: String)
    ensures
        r@ == spec_decimal(n as nat),
    decreases n,
{
    if n < 10 {
        digit(n).to_owned()
    } else {
        let ghost head = spec_decimal((n / 10) as nat);
        let r = decimal(n / 10).concat(digit(n % 10));
        assert(r@ =~= head.push(spec_digit((n % 10) as int)));
        r
    }
}

/// The user who signs in.
#[derive(Debug, PartialEq, Eq)]
pub struct Client {
    pub email: String,
    pub password: String,
}

/// Mathematical model of a [`Client`].
pub struct ClientView {
    pub email: Seq<char>,
    pub password: Seq<char>,
}

impl DeepView for Client {
    type V = ClientView;

    open spec fn deep_view(&self) -> ClientView {
        ClientView { email: self.email@, password: self.password@ }
    }
}

impl Default for Client {
    fn default() -> (r: Client)
        ensures
            r.deep_view() == (ClientView { email: Seq::empty(), password: Seq::empty() }),
    {
        Client { email: String::new(), password: String::new() }
    }
}

impl Client {
    /// The request that signs the user in: the e-mail address and the password, posted as a
    /// JSON object.
    pub open spec fn spec_sign_in(client: ClientView) -> ApiRequestView {
        ApiRequestView {
            method: Method::Post,
            url: IAQUALINK_LOGIN_URL@,
            path: None,
            query: Seq::empty(),
            authorization: None,
            body: Some(
                JsonValue::Object(
                    Seq::empty().push(("email"@, JsonValue::String(client.email))).push(
                        ("password"@, JsonValue::String(client.password)),
                    ),
                ),
            ),
        }
    }

    /// The request that lists the devices of the user who signed in.
    pub open spec fn spec_devices(login: LoginResponseView) -> ApiRequestView {
        ApiRequestView {
            method: Method::Get,
            url: IAQUALINK_DEVICES_URL@,
            path: None,
            query: Seq::empty().push(("user_id"@, spec_decimal(login.id as nat))).push(
                ("api_key"@, IAQUALINK_API_KEY@),
            ).push(("authentication_token"@, login.authentication_token)),
            authorization: None,
            body: None,
        }
    }

    /// The request that signs the user in.
    pub fn sign_in(&self) -> (r: ApiRequest)
        ensures
            r.deep_view() == Self::spec_sign_in(self.deep_view()),
    {
        let mut members = start();
        put(&mut members, "email", Json::String(self.email.clone()));
        put(&mut members, "password", Json::String(self.password.clone()));
        proof {
            lemma_object_view(members);
        }
        let query: Vec<(String, String)> = Vec::new();
        assert(query.deep_view() =~= Seq::empty());
        ApiRequest {
            method: Method::Post,
            url: IAQUALINK_LOGIN_URL.to_owned(),
            path: None,
            query,
            authorization: None,
            body: Some(Json::Object(members)),
        }
    }

    /// The request that lists the devices of the user who signed in.
    pub fn devices(&self, login_response: &LoginResponse) -> (r: ApiRequest)
        ensures
            r.deep_view() == Self::spec_devices(login_response.deep_view()),
    {
        let mut query: Vec<(String, String)> = Vec::new();
        query.push(("user_id".to_owned(), decimal(login_response.id)));
        query.push(("api_key".to_owned(), IAQUALINK_API_KEY.to_owned()));
        query.push(("authentication_token".to_owned(), login_response.authentication_token.clone()));
        assert(query.deep_view() =~= Self::spec_devices(login_response.deep_view()).query);
        ApiRequest {
            method: Method::Get,
            url: IAQUALINK_DEVICES_URL.to_owned(),
            path: None,
            query,
            authorization: None,
            body: None,
        }
    }
}

impl System {
    /// A request about this device: the path is joined to the URL behind the device's serial
    /// number, and the user's token authorizes it.
    pub open spec fn spec_request(
        system: SystemView,
        login: LoginResponseView,
        method: Method,
        url: Seq<char>,
        path: Seq<char>,
        body: Option<JsonValue>,
    ) -> ApiRequestView {
        ApiRequestView {
            method,
            url,
            path: Some(system.serial_number + "/"@ + path),
            query: Seq::empty(),
            authorization: Some(login.user_pool_oauth.token_type + " "@ + login.user_pool_oauth.id_token),
            body,
        }
    }

    /// A request about this device.
    pub fn request(
        &self,
        method: Method,
        api_url: &str,
        path: &str,
        login_response: &LoginResponse,
        body: Option<Json>,
    ) -> (r: ApiRequest)
        ensures
            r.deep_view() == Self::spec_request(
                self.deep_view(),
                login_response.deep_view(),
                method,
                api_url@,
                path@,
                body.deep_view(),
            ),
    {
        let joined = self.serial_number.clone().concat("/").concat(path);
        let authorization = login_response.user_pool_oauth.token_type.clone().concat(" ").concat(
            login_response.user_pool_oauth.id_token.as_str(),
        );
        let query: Vec<(String, String)> = Vec::new();
        assert(query.deep_view() =~= Seq::empty());
        ApiRequest {
            method,
            url: api_url.to_owned(),
            path: Some(joined),
            query,
            authorization: Some(authorization),
            body,
        }
    }

    /// The request for the site of this device.
    pub fn site(&self, login_response: &LoginResponse) -> (r: ApiRequest)
        ensures
            r.deep_view() == Self::spec_request(
                self.deep_view(),
                login_response.deep_view(),
                Method::Get,
                IAQUALINK_DEVICES_V2_URL@,
                "site"@,
                None,
            ),
    {
        self.request(Method::Get, IAQUALINK_DEVICES_V2_URL, "site", login_response, None)
    }

    /// The request for what is known of this device.
    pub fn info(&self, login_response: &LoginResponse) -> (r: ApiRequest)
        ensures
            r.deep_view() == Self::spec_request(
                self.deep_view(),
                login_response.deep_view(),
                Method::Get,
                IAQUALINK_DEVICES_V2_URL@,
                "info"@,
                None,
            ),
    {
        self.request(Method::Get, IAQUALINK_DEVICES_V2_URL, "info", login_response, None)
    }

    /// The request for the features of this device.
    pub fn features(&self, login_response: &LoginResponse) -> (r: ApiRequest)
        ensures
            r.deep_view() == Self::spec_request(
                self.deep_view(),
                login_response.deep_view(),
                Method::Get,
                IAQUALINK_DEVICES_V2_URL@,
                "features"@,
                None,
            ),
    {
        self.request(Method::Get, IAQUALINK_DEVICES_V2_URL, "features", login_response, None)
    }

    /// The request for the shadow of this device.
    pub fn shadow(&self, login_response: &LoginResponse) -> (r: ApiRequest)
        ensures
            r.deep_view() == Self::spec_request(
                self.deep_view(),
                login_response.deep_view(),
                Method::Get,
                IAQUALINK_DEVICES_V1_URL@,
                "shadow"@,
                None,
            ),
    {
        self.request(Method::Get, IAQUALINK_DEVICES_V1_URL, "shadow", login_response, None)
    }

    /// The request that writes a document to the shadow of this device.
    pub fn set_shadow(&self, login_response: &LoginResponse, value: Json) -> (r: ApiRequest)
        ensures
            r.deep_view() == Self::spec_request(
                self.deep_view(),
                login_response.deep_view(),
                Method::Post,
                IAQUALINK_DEVICES_V1_URL@,
                "shadow"@,
                Some(value@),
            ),
    {
        self.request(Method::Post, IAQUALINK_DEVICES_V1_URL, "shadow", login_response, Some(value))
    }
}

} // verus!
