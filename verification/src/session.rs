//! Logins to the service: the requests that make and change them, and how they are kept.
use crate::address::{auth_headers, bearer_header};
use crate::args::{cleaned, cleaned_opt, read_string, read_string_opt, value_or};
use crate::config::{
    cli_config, is_clean, is_clean_config, password_change_due, stored_auth_type, stored_token, AuthType,
    CliConfig, KeychainRead, ReadConfigOptions, StoredAuth, StoredConfig, TokenStorage,
};
use crate::http::{accept_reply, endpoint_url, join_url, reply_outcome, Method, Payload, Reply, Request};
use crate::text::outcome;
use vstd::prelude::*;

verus! {

/// What the service answers to a login with a password.
#[derive(Debug, PartialEq, Eq)]
pub struct ServiceLoginResponse<T = String> {
    pub access_token: Option<T>,
    pub actor: Option<T>,
    pub username: Option<T>,
    pub role: Option<T>,
    pub must_change_password: Option<bool>,
}

impl DeepView for ServiceLoginResponse {
    type V = ServiceLoginResponse<Seq<char>>;

    open spec fn deep_view(&self) -> ServiceLoginResponse<Seq<char>> {
        ServiceLoginResponse {
            access_token: self.access_token.deep_view(),
            actor: self.actor.deep_view(),
            username: self.username.deep_view(),
            role: self.role.deep_view(),
            must_change_password: self.must_change_password,
        }
    }
}

/// A login that the service granted.
#[derive(Debug, PartialEq, Eq)]
pub struct ResolvedServiceLogin<T = String> {
    pub access_token: T,
    pub actor: T,
    pub username: T,
    pub role: Option<T>,
    pub must_change_password: bool,
}

impl DeepView for ResolvedServiceLogin {
    type V = ResolvedServiceLogin<Seq<char>>;

    open spec fn deep_view(&self) -> ResolvedServiceLogin<Seq<char>> {
        ResolvedServiceLogin {
            access_token: self.access_token@,
            actor: self.actor@,
            username: self.username@,
            role: self.role.deep_view(),
            must_change_password: self.must_change_password,
        }
    }
}

/// What is left of a stored login when its session is over.
#[derive(Debug, PartialEq, Eq)]
pub struct ClearedSession<T = String> {
    pub config: StoredConfig<T>,
    /// Whether the keychain holds the token, and has to forget it.
    pub forget_keychain: bool,
}

impl DeepView for ClearedSession {
    type V = ClearedSession<Seq<char>>;

    open spec fn deep_view(&self) -> ClearedSession<Seq<char>> {
        ClearedSession { config: self.config.deep_view(), forget_keychain: self.forget_keychain }
    }
}

pub const MISSING_ACCESS_TOKEN: &'static str = "login failed: missing accessToken";

/// The request that logs in with a password.
pub open spec fn login_request(
    api_base: Seq<char>,
    username: Seq<char>,
    password: Seq<char>,
) -> Request<Seq<char>> {
    Request {
        method: Method::Post,
        url: endpoint_url(api_base, "/v1/auth/login"@),
        authorization: None,
        payload: Payload::Login { username, password },
    }
}

/// The login that an answer grants to `username`.
pub open spec fn granted_login(response: ServiceLoginResponse<Seq<char>>, username: Seq<char>) -> Result<
    ResolvedServiceLogin<Seq<char>>,
    Seq<char>,
> {
    match cleaned_opt(response.access_token) {
        None => Err(MISSING_ACCESS_TOKEN@),
        Some(access_token) => {
            let name = value_or(cleaned_opt(response.username), username);
            Ok(
                ResolvedServiceLogin {
                    access_token,
                    actor: value_or(cleaned_opt(response.actor), name),
                    username: name,
                    role: cleaned_opt(response.role),
                    must_change_password: response.must_change_password == Some(true),
                },
            )
        },
    }
}

/// What logging in came to.
pub open spec fn login_outcome(
    reply: Reply<ServiceLoginResponse<Seq<char>>, Seq<char>>,
    username: Seq<char>,
) -> Result<ResolvedServiceLogin<Seq<char>>, Seq<char>> {
    match reply_outcome(reply, "login"@) {
        Ok(response) => granted_login(response, username),
        Err(message) => Err(message),
    }
}

/// The request that changes a password.
pub open spec fn change_password_request(
    api_base: Seq<char>,
    token: Seq<char>,
    current_password: Seq<char>,
    new_password: Seq<char>,
) -> Result<Request<Seq<char>>, Seq<char>> {
    match bearer_header(token) {
        Err(message) => Err(message),
        Ok(authorization) => Ok(
            Request {
                method: Method::Post,
                url: endpoint_url(api_base, "/v1/auth/change-password"@),
                authorization: Some(authorization),
                payload: Payload::ChangePassword { current_password, new_password },
            },
        ),
    }
}

/// A request without a payload that carries a token.
pub open spec fn token_request(
    method: Method,
    url: Seq<char>,
    token: Seq<char>,
) -> Result<Request<Seq<char>>, Seq<char>> {
    match bearer_header(token) {
        Err(message) => Err(message),
        Ok(authorization) => Ok(
            Request { method, url, authorization: Some(authorization), payload: Payload::Nothing },
        ),
    }
}

/// The token as it stands in the file, where it is kept there.
pub open spec fn inline_token(kept: TokenStorage, token: Seq<char>) -> Option<Seq<char>> {
    if kept == TokenStorage::File {
        Some(token)
    } else {
        None
    }
}

/// The configuration that keeps a login with a token.
pub open spec fn admin_config(
    api_base: Seq<char>,
    token: Seq<char>,
    actor: Option<Seq<char>>,
    kept: TokenStorage,
) -> StoredConfig<Seq<char>> {
    StoredConfig {
        api_base,
        auth: Some(
            StoredAuth {
                auth_type: AuthType::CloudflareAdmin,
                token_storage: Some(kept),
                access_token: inline_token(kept, token),
                actor,
                username: None,
                role: None,
                must_change_password: None,
            },
        ),
        token_storage: Some(kept),
        token: inline_token(kept, token),
    }
}

/// The configuration that keeps a login with a password.
pub open spec fn session_config(
    api_base: Seq<char>,
    login: ResolvedServiceLogin<Seq<char>>,
    kept: TokenStorage,
    username_fallback: Seq<char>,
) -> StoredConfig<Seq<char>> {
    StoredConfig {
        api_base,
        auth: Some(
            StoredAuth {
                auth_type: AuthType::ServiceSession,
                token_storage: Some(kept),
                access_token: inline_token(kept, login.access_token),
                actor: Some(login.actor),
                username: Some(value_or(cleaned(login.username), username_fallback)),
                role: login.role,
                must_change_password: Some(false),
            },
        ),
        token_storage: None,
        token: None,
    }
}

/// What is left of a stored login when its session is over; nothing where there is none.
pub open spec fn cleared_session(stored: Option<StoredConfig<Seq<char>>>) -> Option<
    ClearedSession<Seq<char>>,
> {
    match stored {
        Some(stored) => match stored.auth {
            Some(auth) if auth.auth_type == AuthType::ServiceSession => Some(
                ClearedSession {
                    config: StoredConfig {
                        api_base: stored.api_base,
                        auth: Some(
                            StoredAuth {
                                auth_type: auth.auth_type,
                                token_storage: auth.token_storage,
                                access_token: None,
                                actor: auth.actor,
                                username: auth.username,
                                role: auth.role,
                                must_change_password: Some(false),
                            },
                        ),
                        token_storage: stored.token_storage,
                        token: None,
                    },
                    forget_keychain: crate::args::either(auth.token_storage, stored.token_storage)
                        == Some(TokenStorage::Keychain),
                },
            ),
            _ => None,
        },
        None => None,
    }
}

/// The request that logs in with a password.
pub fn build_login_request(api_base: &str, username: &str, password: &str) -> (request: Request)
    ensures
        request.deep_view() == login_request(api_base@, username@, password@),
{
    Request {
        method: Method::Post,
        url: join_url(api_base, "/v1/auth/login"),
        authorization: None,
        payload: Payload::Login { username: username.to_string(), password: password.to_string() },
    }
}

/// What logging in as `username` with a password came to.
pub fn login_with_service_session(reply: Reply<ServiceLoginResponse>, username: &str) -> (login: Result<
    ResolvedServiceLogin,
    String,
>)
    ensures
        outcome(login) == login_outcome(reply.deep_view(), username@),
{
    let response = match accept_reply(reply, "login") {
        Ok(response) => response,
        Err(message) => return Err(message),
    };
    let access_token = match read_string_opt(response.access_token.as_ref()) {
        Some(access_token) => access_token,
        None => return Err(MISSING_ACCESS_TOKEN.to_string()),
    };
    let name = match read_string_opt(response.username.as_ref()) {
        Some(name) => name,
        None => username.to_string(),
    };
    let actor = match read_string_opt(response.actor.as_ref()) {
        Some(actor) => actor,
        None => name.clone(),
    };
    let must_change_password = match response.must_change_password {
        Some(due) => due,
        None => false,
    };
    Ok(
        ResolvedServiceLogin {
            access_token,
            actor,
            username: name,
            role: read_string_opt(response.role.as_ref()),
            must_change_password,
        },
    )
}

/// The request that changes a password.
pub fn build_change_password_request(
    api_base: &str,
    token: &str,
    current_password: &str,
    new_password: &str,
) -> (request: Result<Request, String>)
    ensures
        outcome(request) == change_password_request(
            api_base@,
            token@,
            current_password@,
            new_password@,
        ),
{
    match auth_headers(token) {
        Err(message) => Err(message),
        Ok(authorization) => Ok(
            Request {
                method: Method::Post,
                url: join_url(api_base, "/v1/auth/change-password"),
                authorization: Some(authorization),
                payload: Payload::ChangePassword {
                    current_password: current_password.to_string(),
                    new_password: new_password.to_string(),
                },
            },
        ),
    }
}

/// What changing a password came to.
pub fn change_service_session_password(reply: Reply<()>) -> (changed: Result<(), String>)
    ensures
        outcome(changed) == reply_outcome(reply.deep_view(), "passwd"@),
{
    accept_reply(reply, "passwd")
}

/// A request without a payload that carries a token.
pub fn build_token_request(method: Method, url: String, token: &str) -> (request: Result<
    Request,
    String,
>)
    ensures
        outcome(request) == token_request(method, url@, token@),
{
    match auth_headers(token) {
        Err(message) => Err(message),
        Ok(authorization) => Ok(
            Request { method, url, authorization: Some(authorization), payload: Payload::Nothing },
        ),
    }
}

fn keep_inline(kept: TokenStorage, token: &str) -> (inline: Option<String>)
    ensures
        inline.deep_view() == inline_token(kept, token@),
{
    if kept == TokenStorage::File {
        Some(token.to_string())
    } else {
        None
    }
}

/// The configuration that keeps a login with a token.
pub fn persist_admin_auth(
    api_base: &str,
    token: &str,
    actor: Option<String>,
    kept: TokenStorage,
) -> (config: StoredConfig)
    ensures
        config.deep_view() == admin_config(api_base@, token@, actor.deep_view(), kept),
{
    StoredConfig {
        api_base: api_base.to_string(),
        auth: Some(
            StoredAuth {
                auth_type: AuthType::CloudflareAdmin,
                token_storage: Some(kept),
                access_token: keep_inline(kept, token),
                actor,
                username: None,
                role: None,
                must_change_password: None,
            },
        ),
        token_storage: Some(kept),
        token: keep_inline(kept, token),
    }
}

/// The configuration that keeps a login with a password.
pub fn persist_service_session_auth(
    api_base: &str,
    login: &ResolvedServiceLogin,
    kept: TokenStorage,
    username_fallback: &str,
) -> (config: StoredConfig)
    ensures
        config.deep_view() == session_config(
            api_base@,
            login.deep_view(),
            kept,
            username_fallback@,
        ),
{
    let username = match read_string(login.username.as_str()) {
        Some(username) => username,
        None => username_fallback.to_string(),
    };
    StoredConfig {
        api_base: api_base.to_string(),
        auth: Some(
            StoredAuth {
                auth_type: AuthType::ServiceSession,
                token_storage: Some(kept),
                access_token: keep_inline(kept, login.access_token.as_str()),
                actor: Some(login.actor.clone()),
                username: Some(username),
                role: login.role.clone(),
                must_change_password: Some(false),
            },
        ),
        token_storage: None,
        token: None,
    }
}

/// What is left of a stored login when its session is over; nothing where there is none.
pub fn clear_stored_service_session_auth(stored: Option<StoredConfig>) -> (cleared: Option<
    ClearedSession,
>)
    ensures
        cleared.deep_view() == cleared_session(stored.deep_view()),
{
    let stored = match stored {
        Some(stored) => stored,
        None => return None,
    };
    let auth = match stored.auth {
        Some(auth) => auth,
        None => return None,
    };
    if auth.auth_type != AuthType::ServiceSession {
        return None;
    }
    let storage = match auth.token_storage {
        Some(storage) => Some(storage),
        None => stored.token_storage,
    };
    let forget_keychain = match storage {
        Some(TokenStorage::Keychain) => true,
        _ => false,
    };
    Some(
        ClearedSession {
            config: StoredConfig {
                api_base: stored.api_base,
                auth: Some(
                    StoredAuth {
                        auth_type: auth.auth_type,
                        token_storage: auth.token_storage,
                        access_token: None,
                        actor: auth.actor,
                        username: auth.username,
                        role: auth.role,
                        must_change_password: Some(false),
                    },
                ),
                token_storage: stored.token_storage,
                token: None,
            },
            forget_keychain,
        },
    )
}

/// A login that is kept can be used: a command gets its token back, from the file where it is
/// kept there, else from a keychain that gives it back, and is not told to change a password.
pub proof fn law_kept_session_can_be_used(
    api_base: Seq<char>,
    login: ResolvedServiceLogin<Seq<char>>,
    kept: TokenStorage,
    username: Seq<char>,
    keychain: KeychainRead<Seq<char>>,
    options: ReadConfigOptions,
)
    requires
        kept == TokenStorage::Keychain ==> keychain == KeychainRead::Token(login.access_token),
    ensures
        ({
            let config = session_config(api_base, login, kept, username);
            &&& stored_token(None, config, keychain) == Ok::<Option<Seq<char>>, Seq<char>>(
                Some(login.access_token),
            )
            &&& stored_auth_type(config) == AuthType::ServiceSession
            &&& !password_change_due(config)
            &&& cli_config(options, config, None, None, keychain) == Ok::<
                CliConfig<Seq<char>>,
                Seq<char>,
            >(
                CliConfig {
                    api_base,
                    token: login.access_token,
                    auth_type: AuthType::ServiceSession,
                },
            )
        }),
{
}

/// The same of a login with a token.
pub proof fn law_kept_admin_login_can_be_used(
    api_base: Seq<char>,
    token: Seq<char>,
    actor: Option<Seq<char>>,
    kept: TokenStorage,
    keychain: KeychainRead<Seq<char>>,
    options: ReadConfigOptions,
)
    requires
        kept == TokenStorage::Keychain ==> keychain == KeychainRead::Token(token),
    ensures
        cli_config(options, admin_config(api_base, token, actor, kept), None, None, keychain)
            == Ok::<CliConfig<Seq<char>>, Seq<char>>(
            CliConfig { api_base, token, auth_type: AuthType::CloudflareAdmin },
        ),
{
}

/// A token that is kept in the keychain stands nowhere in the file.
pub proof fn law_keychain_token_is_not_in_the_file(
    api_base: Seq<char>,
    login: ResolvedServiceLogin<Seq<char>>,
    token: Seq<char>,
    actor: Option<Seq<char>>,
    username: Seq<char>,
)
    ensures
        ({
            let session = session_config(api_base, login, TokenStorage::Keychain, username);
            let admin = admin_config(api_base, token, actor, TokenStorage::Keychain);
            &&& session.token is None
            &&& session.auth matches Some(auth) && auth.access_token is None
            &&& admin.token is None
            &&& admin.auth matches Some(auth) && auth.access_token is None
        }),
{
}

/// A granted login is kept as a clean configuration, so that it reads back from its file.
pub proof fn law_granted_login_is_kept_clean(
    api_base: Seq<char>,
    response: ServiceLoginResponse<Seq<char>>,
    kept: TokenStorage,
    username: Seq<char>,
)
    requires
        is_clean(Some(api_base)),
        is_clean(Some(username)),
    ensures
        granted_login(response, username) matches Ok(login) ==> is_clean_config(
            session_config(api_base, login, kept, username),
        ),
{
    assert forall|text: Option<Seq<char>>| is_clean(#[trigger] cleaned_opt(text)) by {
        if let Some(text) = text {
            crate::text::law_trim_is_idempotent(text);
        }
    }
}

/// When a session is over, no token is left in the file, and the user who had it stays known.
pub proof fn law_cleared_session_has_no_token(stored: StoredConfig<Seq<char>>)
    requires
        stored_auth_type(stored) == AuthType::ServiceSession,
    ensures
        cleared_session(Some(stored)) matches Some(cleared) && {
            &&& cleared.config.token is None
            &&& cleared.config.auth matches Some(auth) && auth.access_token is None
                && auth.must_change_password == Some(false) && auth.username
                == stored.auth->0.username
            &&& cleared.config.api_base == stored.api_base
        },
{
}

/// A login is what the service granted: its token, and whom it names, else the user who logged
/// in. Without a token there is none.
pub proof fn law_granted_login_is_what_the_service_says(
    response: ServiceLoginResponse<Seq<char>>,
    username: Seq<char>,
)
    ensures
        ({
            let login = granted_login(response, username);
            &&& login is Ok <==> cleaned_opt(response.access_token) is Some
            &&& login matches Err(message) ==> message == "login failed: missing accessToken"@
            &&& login matches Ok(login) ==> {
                &&& cleaned_opt(response.access_token) == Some(login.access_token)
                &&& cleaned_opt(response.username) matches Some(name) ==> login.username == name
                &&& cleaned_opt(response.username) is None ==> login.username == username
                &&& cleaned_opt(response.actor) matches Some(actor) ==> login.actor == actor
                &&& cleaned_opt(response.actor) is None ==> login.actor == login.username
                &&& login.role == cleaned_opt(response.role)
                &&& login.must_change_password <==> response.must_change_password == Some(true)
            }
        }),
{
}

/// What is left of a session that is over is all but its token, and the keychain has to forget
/// the token where it was kept there. A login of another kind is left alone.
pub proof fn law_only_the_token_goes(stored: StoredConfig<Seq<char>>)
    ensures
        ({
            let cleared = cleared_session(Some(stored));
            let is_session = stored.auth matches Some(auth) && auth.auth_type
                == AuthType::ServiceSession;
            &&& cleared is Some <==> is_session
            &&& cleared matches Some(cleared) ==> (stored.auth matches Some(before)
                && cleared.config.auth matches Some(after) && {
                &&& cleared.config.api_base == stored.api_base
                &&& cleared.config.token is None
                &&& cleared.config.token_storage == stored.token_storage
                &&& after.auth_type == before.auth_type
                &&& after.access_token is None
                &&& after.token_storage == before.token_storage
                &&& after.actor == before.actor
                &&& after.username == before.username
                &&& after.role == before.role
                &&& after.must_change_password == Some(false)
                &&& before.token_storage == Some(TokenStorage::Keychain) ==> cleared.forget_keychain
                &&& before.token_storage == Some(TokenStorage::File) ==> !cleared.forget_keychain
            })
        }),
        cleared_session(None) is None,
{
}

/// A request that carries a token goes where it is sent, as it is sent.
pub proof fn law_token_request_is_sent_as_it_is(method: Method, url: Seq<char>, token: Seq<char>)
    ensures
        token_request(method, url, token) is Ok <==> bearer_header(token) is Ok,
        token_request(method, url, token) matches Ok(request) ==> {
            &&& request.method == method
            &&& request.url == url
            &&& request.payload == Payload::<Seq<char>>::Nothing
            &&& request.authorization matches Some(authorization) && bearer_header(token) == Ok::<
                Seq<char>,
                Seq<char>,
            >(authorization)
        },
{
}

} // verus!
