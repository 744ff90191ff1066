//! Logging out.
use crate::address::{api_base_from, auth_headers, bearer_header, normalize_api_base};
use crate::args::{cleaned_opt, read_string_opt};
use crate::config::{
    keychain_is_asked, read_stored_token, resolve_stored_auth_type, stored_auth_type, stored_token,
    AuthType, KeychainRead, StoredConfig,
};
use crate::http::{endpoint_url, join_url, Method, Payload, Request};
use crate::text::outcome;
use vstd::prelude::*;

verus! {

pub const LOGGED_OUT: &'static str = "logged out";

/// The request that ends a session.
pub open spec fn session_end(api_base: Seq<char>, authorization: Seq<char>) -> Request<Seq<char>> {
    Request {
        method: Method::Post,
        url: endpoint_url(api_base, "/v1/auth/logout"@),
        authorization: Some(authorization),
        payload: Payload::Nothing,
    }
}

/// The request that ends the stored session at the service, where there is one to end.
pub open spec fn logout_request(
    stored: StoredConfig<Seq<char>>,
    env_api_base: Option<Seq<char>>,
    env_token: Option<Seq<char>>,
    keychain: KeychainRead<Seq<char>>,
) -> Result<Option<Request<Seq<char>>>, Seq<char>> {
    let api_base = match cleaned_opt(env_api_base) {
        Some(value) => api_base_from(value),
        None => Ok(stored.api_base),
    };
    match api_base {
        Err(message) => Err(message),
        Ok(api_base) => if stored_auth_type(stored) != AuthType::ServiceSession {
            Ok(None)
        } else {
            match stored_token(env_token, stored, keychain) {
                Err(message) => Err(message),
                Ok(None) => Ok(None),
                Ok(Some(token)) => match bearer_header(token) {
                    Ok(authorization) => Ok(Some(session_end(api_base, authorization))),
                    Err(_) => Ok(None),
                },
            }
        },
    }
}

/// Whether the keychain has to be asked before logging out.
pub open spec fn logout_asks_keychain(
    stored: StoredConfig<Seq<char>>,
    env_token: Option<Seq<char>>,
) -> bool {
    stored_auth_type(stored) == AuthType::ServiceSession && keychain_is_asked(env_token, stored)
}

/// Whether the keychain has to be asked before logging out.
pub fn needs_keychain(stored: &StoredConfig, env_token: Option<&String>) -> (needs: bool)
    ensures
        needs == logout_asks_keychain(stored.deep_view(), env_token.deep_view()),
{
    resolve_stored_auth_type(stored) == AuthType::ServiceSession && crate::config::asks_keychain(
        env_token,
        stored,
    )
}

/// The request that ends the stored session at the service, where there is one to end. What
/// the keychain says counts only where [`needs_keychain`] holds.
pub fn logout(
    stored: &StoredConfig,
    env_api_base: Option<&String>,
    env_token: Option<&String>,
    keychain: KeychainRead,
) -> (request: Result<Option<Request>, String>)
    ensures
        outcome(request) == logout_request(
            stored.deep_view(),
            env_api_base.deep_view(),
            env_token.deep_view(),
            keychain.deep_view(),
        ),
{
    let api_base = match read_string_opt(env_api_base) {
        Some(value) => match normalize_api_base(value.as_str()) {
            Ok(api_base) => api_base,
            Err(message) => return Err(message),
        },
        None => stored.api_base.clone(),
    };
    if resolve_stored_auth_type(stored) != AuthType::ServiceSession {
        return Ok(None);
    }
    let token = match read_stored_token(env_token, stored, keychain) {
        Ok(Some(token)) => token,
        Ok(None) => return Ok(None),
        Err(message) => return Err(message),
    };
    match auth_headers(token.as_str()) {
        Ok(authorization) => Ok(
            Some(
                Request {
                    method: Method::Post,
                    url: join_url(api_base.as_str(), "/v1/auth/logout"),
                    authorization: Some(authorization),
                    payload: Payload::Nothing,
                },
            ),
        ),
        Err(_) => Ok(None),
    }
}

/// A login that was made with a token is not ended at the service, and what the keychain says
/// makes no difference to it.
pub proof fn law_only_sessions_are_ended(
    stored: StoredConfig<Seq<char>>,
    env_api_base: Option<Seq<char>>,
    env_token: Option<Seq<char>>,
    one: KeychainRead<Seq<char>>,
    other: KeychainRead<Seq<char>>,
)
    ensures
        logout_request(stored, env_api_base, env_token, one) matches Ok(Some(request))
            ==> stored_auth_type(stored) == AuthType::ServiceSession,
        !logout_asks_keychain(stored, env_token) ==> logout_request(
            stored,
            env_api_base,
            env_token,
            one,
        ) == logout_request(stored, env_api_base, env_token, other),
{
}

/// A stored session is ended at the service, with the token of the environment or else the
/// stored one, at the base URL of the environment or else the stored one.
pub proof fn law_stored_session_is_ended(
    stored: StoredConfig<Seq<char>>,
    env_api_base: Option<Seq<char>>,
    env_token: Option<Seq<char>>,
    keychain: KeychainRead<Seq<char>>,
)
    ensures
        ({
            let end = logout_request(stored, env_api_base, env_token, keychain);
            let is_session = stored.auth matches Some(auth) && auth.auth_type
                == AuthType::ServiceSession;
            &&& end matches Ok(Some(request)) ==> {
                &&& is_session
                &&& request.method == Method::Post
                &&& request.payload == Payload::<Seq<char>>::Nothing
                &&& stored_token(env_token, stored, keychain) matches Ok(Some(token)) && (
                request.authorization matches Some(authorization) && bearer_header(token) == Ok::<
                    Seq<char>,
                    Seq<char>,
                >(authorization))
                &&& cleaned_opt(env_api_base) is None ==> request.url == stored.api_base
                    + "/v1/auth/logout"@
                &&& cleaned_opt(env_api_base) matches Some(value) ==> (api_base_from(value) matches Ok(
                    base,
                ) && request.url == base + "/v1/auth/logout"@)
            }
            &&& is_session && cleaned_opt(env_api_base) is None && (stored_token(
                env_token,
                stored,
                keychain,
            ) matches Ok(Some(token)) && bearer_header(token) is Ok) ==> (end matches Ok(Some(_)))
            &&& !is_session && cleaned_opt(env_api_base) is None ==> end == Ok::<
                Option<Request<Seq<char>>>,
                Seq<char>,
            >(None)
        }),
{
}

/// The keychain is asked before logging out if and only if there is a session to end, the
/// environment has no token, and the token is kept there.
pub proof fn law_keychain_is_asked_for_a_session(
    stored: StoredConfig<Seq<char>>,
    env_token: Option<Seq<char>>,
)
    ensures
        logout_asks_keychain(stored, env_token) ==> {
            &&& stored.auth matches Some(auth) && auth.auth_type == AuthType::ServiceSession
            &&& cleaned_opt(env_token) is None
        },
        (stored.auth matches Some(auth) && auth.auth_type == AuthType::ServiceSession
            && auth.token_storage == Some(crate::config::TokenStorage::Keychain)) && cleaned_opt(
            env_token,
        ) is None ==> logout_asks_keychain(stored, env_token),
        (stored.auth matches Some(auth) && auth.token_storage == Some(
            crate::config::TokenStorage::File,
        )) ==> !logout_asks_keychain(stored, env_token),
{
}

} // verus!
