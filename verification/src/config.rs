//! The stored login: how its file is read, and which token a command works with.
use crate::args::{cleaned_opt, either, read_string, read_string_opt, value_or};
use crate::json::{json_at, json_node, node_text, text_of_node, JsonNode};
use crate::text::{
    law_clean_text_is_its_own_trim, lowercase, outcome, same_text, to_ascii_lowercase, trim, trimmed,
};
use vstd::prelude::*;

verus! {

/// Where a token is kept.
#[derive(Clone, Copy, Debug, PartialEq, Eq, Structural)]
pub enum TokenStorage {
    Keychain,
    File,
}

impl DeepView for TokenStorage {
    type V = TokenStorage;

    open spec fn deep_view(&self) -> TokenStorage {
        *self
    }
}

/// How a user logged in.
#[derive(Clone, Copy, Debug, PartialEq, Eq, Structural)]
pub enum AuthType {
    CloudflareAdmin,
    ServiceSession,
}

impl DeepView for AuthType {
    type V = AuthType;

    open spec fn deep_view(&self) -> AuthType {
        *self
    }
}

/// The login that a configuration file holds.
#[derive(Debug, PartialEq, Eq)]
pub struct StoredAuth<T = String> {
    pub auth_type: AuthType,
    pub token_storage: Option<TokenStorage>,
    pub access_token: Option<T>,
    pub actor: Option<T>,
    pub username: Option<T>,
    pub role: Option<T>,
    pub must_change_password: Option<bool>,
}

impl DeepView for StoredAuth {
    type V = StoredAuth<Seq<char>>;

    open spec fn deep_view(&self) -> StoredAuth<Seq<char>> {
        StoredAuth {
            auth_type: self.auth_type,
            token_storage: self.token_storage,
            access_token: self.access_token.deep_view(),
            actor: self.actor.deep_view(),
            username: self.username.deep_view(),
            role: self.role.deep_view(),
            must_change_password: self.must_change_password,
        }
    }
}

/// What a configuration file holds. `token_storage` and `token` are the older form of `auth`.
#[derive(Debug, PartialEq, Eq)]
pub struct StoredConfig<T = String> {
    pub api_base: T,
    pub auth: Option<StoredAuth<T>>,
    pub token_storage: Option<TokenStorage>,
    pub token: Option<T>,
}

impl DeepView for StoredConfig {
    type V = StoredConfig<Seq<char>>;

    open spec fn deep_view(&self) -> StoredConfig<Seq<char>> {
        StoredConfig {
            api_base: self.api_base@,
            auth: self.auth.deep_view(),
            token_storage: self.token_storage,
            token: self.token.deep_view(),
        }
    }
}

impl StoredConfig {
    /// The same configuration again.
    pub fn copy(&self) -> (copy: StoredConfig)
        ensures
            copy.deep_view() == self.deep_view(),
    {
        let auth = match &self.auth {
            Some(auth) => Some(
                StoredAuth {
                    auth_type: auth.auth_type,
                    token_storage: auth.token_storage,
                    access_token: auth.access_token.clone(),
                    actor: auth.actor.clone(),
                    username: auth.username.clone(),
                    role: auth.role.clone(),
                    must_change_password: auth.must_change_password,
                },
            ),
            None => None,
        };
        StoredConfig {
            api_base: self.api_base.clone(),
            auth,
            token_storage: self.token_storage,
            token: self.token.clone(),
        }
    }
}

/// What a command needs to talk to the service.
#[derive(Debug, PartialEq, Eq)]
pub struct CliConfig<T = String> {
    pub api_base: T,
    pub token: T,
    pub auth_type: AuthType,
}

impl DeepView for CliConfig {
    type V = CliConfig<Seq<char>>;

    open spec fn deep_view(&self) -> CliConfig<Seq<char>> {
        CliConfig { api_base: self.api_base@, token: self.token@, auth_type: self.auth_type }
    }
}

#[derive(Clone, Copy, Debug, PartialEq, Eq, Structural)]
pub struct ReadConfigOptions {
    /// Whether a login may be used that has to change its password first.
    pub allow_must_change_password: bool,
}

/// What reading a file came to.
#[derive(Debug, PartialEq, Eq)]
pub enum FileText<T = String> {
    Absent,
    Text(T),
    Failed(T),
}

impl DeepView for FileText {
    type V = FileText<Seq<char>>;

    open spec fn deep_view(&self) -> FileText<Seq<char>> {
        match self {
            FileText::Absent => FileText::Absent,
            FileText::Text(text) => FileText::Text(text@),
            FileText::Failed(message) => FileText::Failed(message@),
        }
    }
}

/// What asking the keychain for the token came to.
#[derive(Debug, PartialEq, Eq)]
pub enum KeychainRead<T = String> {
    Unavailable,
    Token(T),
    Failed(T),
}

impl DeepView for KeychainRead {
    type V = KeychainRead<Seq<char>>;

    open spec fn deep_view(&self) -> KeychainRead<Seq<char>> {
        match self {
            KeychainRead::Unavailable => KeychainRead::Unavailable,
            KeychainRead::Token(token) => KeychainRead::Token(token@),
            KeychainRead::Failed(message) => KeychainRead::Failed(message@),
        }
    }
}

/// What putting the token into the keychain came to.
#[derive(Debug, PartialEq, Eq)]
pub enum KeychainWrite<T = String> {
    Unavailable,
    Stored,
    Failed(T),
}

impl DeepView for KeychainWrite {
    type V = KeychainWrite<Seq<char>>;

    open spec fn deep_view(&self) -> KeychainWrite<Seq<char>> {
        match self {
            KeychainWrite::Unavailable => KeychainWrite::Unavailable,
            KeychainWrite::Stored => KeychainWrite::Stored,
            KeychainWrite::Failed(message) => KeychainWrite::Failed(message@),
        }
    }
}

pub const NOT_LOGGED_IN: &'static str = "not logged in. Run cfsurge login.";

pub const MISSING_TOKEN: &'static str = "missing API token. Run cfsurge login.";

pub const FILE_TOKEN_MISSING: &'static str = "config file token is missing. Run cfsurge login.";

pub const KEYCHAIN_NEEDED: &'static str =
    "stored token requires macOS Keychain, but it is unavailable. Run cfsurge login again.";

pub const KEYCHAIN_UNAVAILABLE: &'static str =
    "macOS Keychain is unavailable. Run cfsurge login with --token-storage file.";

pub const PASSWORD_CHANGE_REQUIRED: &'static str = "password change required. Run cfsurge passwd.";

pub const INVALID_TOKEN_STORAGE: &'static str = "invalid token storage: expected file or keychain";

pub const INVALID_LOGIN_MODE: &'static str =
    "invalid login mode: expected service-session or cloudflare-admin";

pub const NO_HOME: &'static str = "failed to resolve home directory";

/// The members of the `auth` object of a configuration file.
#[derive(Debug, PartialEq, Eq)]
pub struct AuthNodes<T = String> {
    pub auth_type: Option<JsonNode<T>>,
    pub token_storage: Option<JsonNode<T>>,
    pub access_token: Option<JsonNode<T>>,
    pub actor: Option<JsonNode<T>>,
    pub username: Option<JsonNode<T>>,
    pub role: Option<JsonNode<T>>,
    pub must_change_password: Option<JsonNode<T>>,
}

impl DeepView for AuthNodes {
    type V = AuthNodes<Seq<char>>;

    open spec fn deep_view(&self) -> AuthNodes<Seq<char>> {
        AuthNodes {
            auth_type: self.auth_type.deep_view(),
            token_storage: self.token_storage.deep_view(),
            access_token: self.access_token.deep_view(),
            actor: self.actor.deep_view(),
            username: self.username.deep_view(),
            role: self.role.deep_view(),
            must_change_password: self.must_change_password.deep_view(),
        }
    }
}

/// The members of a configuration file.
#[derive(Debug, PartialEq, Eq)]
pub struct ConfigNodes<T = String> {
    pub api_base: Option<JsonNode<T>>,
    pub auth: Option<JsonNode<T>>,
    pub auth_members: AuthNodes<T>,
    pub token_storage: Option<JsonNode<T>>,
    pub token: Option<JsonNode<T>>,
}

impl DeepView for ConfigNodes {
    type V = ConfigNodes<Seq<char>>;

    open spec fn deep_view(&self) -> ConfigNodes<Seq<char>> {
        ConfigNodes {
            api_base: self.api_base.deep_view(),
            auth: self.auth.deep_view(),
            auth_members: self.auth_members.deep_view(),
            token_storage: self.token_storage.deep_view(),
            token: self.token.deep_view(),
        }
    }
}

/// The members that a document has, if it is JSON.
pub open spec fn config_nodes(document: Seq<char>) -> Option<ConfigNodes<Seq<char>>> {
    match json_node(document, ""@) {
        None => None,
        Some(_) => Some(
            ConfigNodes {
                api_base: json_node(document, "/apiBase"@),
                auth: json_node(document, "/auth"@),
                auth_members: AuthNodes {
                    auth_type: json_node(document, "/auth/type"@),
                    token_storage: json_node(document, "/auth/tokenStorage"@),
                    access_token: json_node(document, "/auth/accessToken"@),
                    actor: json_node(document, "/auth/actor"@),
                    username: json_node(document, "/auth/username"@),
                    role: json_node(document, "/auth/role"@),
                    must_change_password: json_node(document, "/auth/mustChangePassword"@),
                },
                token_storage: json_node(document, "/tokenStorage"@),
                token: json_node(document, "/token"@),
            },
        ),
    }
}

/// The word for a token storage.
pub open spec fn storage_word(storage: TokenStorage) -> Seq<char> {
    match storage {
        TokenStorage::Keychain => "keychain"@,
        TokenStorage::File => "file"@,
    }
}

/// The word for a way to log in.
pub open spec fn auth_type_word(auth_type: AuthType) -> Seq<char> {
    match auth_type {
        AuthType::CloudflareAdmin => "cloudflare-admin"@,
        AuthType::ServiceSession => "service-session"@,
    }
}

/// The token storage that a member names, if it is a text; `fault` where it names none.
pub open spec fn storage_of_node(
    node: Option<JsonNode<Seq<char>>>,
    fault: Seq<char>,
) -> Result<Option<TokenStorage>, Seq<char>> {
    match node_text(node) {
        None => Ok(None),
        Some(word) => if word == "keychain"@ {
            Ok(Some(TokenStorage::Keychain))
        } else if word == "file"@ {
            Ok(Some(TokenStorage::File))
        } else {
            Err(fault)
        },
    }
}

/// The way to log in that a member names.
pub open spec fn auth_type_of_node(
    node: Option<JsonNode<Seq<char>>>,
    fault: Seq<char>,
) -> Result<AuthType, Seq<char>> {
    match node_text(node) {
        None => Err(fault),
        Some(word) => if trimmed(word) == "cloudflare-admin"@ {
            Ok(AuthType::CloudflareAdmin)
        } else if trimmed(word) == "service-session"@ {
            Ok(AuthType::ServiceSession)
        } else {
            Err(fault)
        },
    }
}

/// The storage that is stated, else the file where a token stands in it.
pub open spec fn storage_or_inline(
    stated: Option<TokenStorage>,
    token: Option<Seq<char>>,
) -> Option<TokenStorage> {
    match stated {
        Some(storage) => Some(storage),
        None => match token {
            Some(_) => Some(TokenStorage::File),
            None => None,
        },
    }
}

/// A flag that is present: what it says, or false where it is no flag.
pub open spec fn flag_of_node(node: Option<JsonNode<Seq<char>>>) -> Option<bool> {
    match node {
        None => None,
        Some(JsonNode::Flag(flag)) => Some(flag),
        Some(_) => Some(false),
    }
}

/// The login that the `auth` member of the file at `path` gives.
pub open spec fn stored_auth_of(
    auth: Option<JsonNode<Seq<char>>>,
    members: AuthNodes<Seq<char>>,
    path: Seq<char>,
) -> Result<Option<StoredAuth<Seq<char>>>, Seq<char>> {
    match auth {
        None => Ok(None),
        Some(JsonNode::Object) => match auth_type_of_node(
            members.auth_type,
            "invalid config file: unsupported auth.type in "@ + path,
        ) {
            Err(message) => Err(message),
            Ok(auth_type) => match storage_of_node(
                members.token_storage,
                "invalid config file: unsupported auth.tokenStorage in "@ + path,
            ) {
                Err(message) => Err(message),
                Ok(stated) => {
                    let access_token = cleaned_opt(node_text(members.access_token));
                    Ok(
                        Some(
                            StoredAuth {
                                auth_type,
                                token_storage: storage_or_inline(stated, access_token),
                                access_token,
                                actor: cleaned_opt(node_text(members.actor)),
                                username: cleaned_opt(node_text(members.username)),
                                role: cleaned_opt(node_text(members.role)),
                                must_change_password: flag_of_node(members.must_change_password),
                            },
                        ),
                    )
                },
            },
        },
        Some(_) => Err("invalid config file: unsupported auth in "@ + path),
    }
}

/// The configuration that the members of the file at `path` give.
pub open spec fn stored_config_of(
    nodes: Option<ConfigNodes<Seq<char>>>,
    path: Seq<char>,
) -> Result<StoredConfig<Seq<char>>, Seq<char>> {
    match nodes {
        None => Err("invalid config file: "@ + path),
        Some(nodes) => match cleaned_opt(node_text(nodes.api_base)) {
            None => Err("invalid config file: missing apiBase in "@ + path),
            Some(api_base) => match stored_auth_of(nodes.auth, nodes.auth_members, path) {
                Err(message) => Err(message),
                Ok(auth) => match storage_of_node(
                    nodes.token_storage,
                    "invalid config file: unsupported tokenStorage in "@ + path,
                ) {
                    Err(message) => Err(message),
                    Ok(stated) => {
                        let token = cleaned_opt(node_text(nodes.token));
                        Ok(
                            StoredConfig {
                                api_base,
                                auth,
                                token_storage: storage_or_inline(stated, token),
                                token,
                            },
                        )
                    },
                },
            },
        },
    }
}

/// The configuration that reading the file at `path` gives, if the file is there.
pub open spec fn stored_config_from(file: FileText<Seq<char>>, path: Seq<char>) -> Result<
    Option<StoredConfig<Seq<char>>>,
    Seq<char>,
> {
    match file {
        FileText::Absent => Ok(None),
        FileText::Failed(message) => Err(message),
        FileText::Text(raw) => match stored_config_of(config_nodes(raw), path) {
            Ok(config) => Ok(Some(config)),
            Err(message) => Err(message),
        },
    }
}

/// How the stored login was made; a file without `auth` is of the older form.
pub open spec fn stored_auth_type(config: StoredConfig<Seq<char>>) -> AuthType {
    match config.auth {
        Some(auth) => auth.auth_type,
        None => AuthType::CloudflareAdmin,
    }
}

/// Where the stored token is kept.
pub open spec fn stored_token_storage(config: StoredConfig<Seq<char>>) -> Option<TokenStorage> {
    match config.auth {
        Some(auth) => auth.token_storage,
        None => config.token_storage,
    }
}

/// The token that a storage gives.
pub open spec fn token_from_storage(
    storage: Option<TokenStorage>,
    inline: Option<Seq<char>>,
    keychain: KeychainRead<Seq<char>>,
) -> Result<Option<Seq<char>>, Seq<char>> {
    match storage {
        None => Ok(None),
        Some(TokenStorage::File) => match inline {
            Some(token) => Ok(Some(token)),
            None => Err(FILE_TOKEN_MISSING@),
        },
        Some(TokenStorage::Keychain) => match (keychain, inline) {
            (KeychainRead::Token(token), _) => Ok(Some(token)),
            (_, Some(token)) => Ok(Some(token)),
            (KeychainRead::Unavailable, None) => Err(KEYCHAIN_NEEDED@),
            (KeychainRead::Failed(message), None) => Err(
                "failed to read token from macOS Keychain ("@ + message + "). Run cfsurge login."@,
            ),
        },
    }
}

/// The token to work with: the one in the environment, else the stored one.
pub open spec fn stored_token(
    env_token: Option<Seq<char>>,
    config: StoredConfig<Seq<char>>,
    keychain: KeychainRead<Seq<char>>,
) -> Result<Option<Seq<char>>, Seq<char>> {
    match cleaned_opt(env_token) {
        Some(token) => Ok(Some(token)),
        None => match config.auth {
            Some(auth) => match token_from_storage(auth.token_storage, auth.access_token, keychain) {
                Ok(None) => Err(MISSING_TOKEN@),
                found => found,
            },
            None => token_from_storage(config.token_storage, config.token, keychain),
        },
    }
}

/// Whether the token can only come from the keychain.
pub open spec fn keychain_is_asked(
    env_token: Option<Seq<char>>,
    config: StoredConfig<Seq<char>>,
) -> bool {
    cleaned_opt(env_token) is None && stored_token_storage(config) == Some(TokenStorage::Keychain)
}

/// Whether the stored login has to change its password before it can do anything else.
pub open spec fn password_change_due(config: StoredConfig<Seq<char>>) -> bool {
    config.auth matches Some(auth) && auth.auth_type == AuthType::ServiceSession
        && auth.must_change_password == Some(true)
}

/// What a command needs to talk to the service.
pub open spec fn cli_config(
    options: ReadConfigOptions,
    stored: StoredConfig<Seq<char>>,
    env_api_base: Option<Seq<char>>,
    env_token: Option<Seq<char>>,
    keychain: KeychainRead<Seq<char>>,
) -> Result<CliConfig<Seq<char>>, Seq<char>> {
    match stored_token(env_token, stored, keychain) {
        Err(message) => Err(message),
        Ok(None) => Err(MISSING_TOKEN@),
        Ok(Some(token)) => if password_change_due(stored) && !options.allow_must_change_password {
            Err(PASSWORD_CHANGE_REQUIRED@)
        } else {
            Ok(
                CliConfig {
                    api_base: value_or(cleaned_opt(env_api_base), stored.api_base),
                    token,
                    auth_type: stored_auth_type(stored),
                },
            )
        },
    }
}

/// Where a token ends up that is to be kept in `storage`.
pub open spec fn kept_in(storage: TokenStorage, keychain: KeychainWrite<Seq<char>>) -> Result<
    TokenStorage,
    Seq<char>,
> {
    match storage {
        TokenStorage::File => Ok(TokenStorage::File),
        TokenStorage::Keychain => match keychain {
            KeychainWrite::Unavailable => Err(KEYCHAIN_UNAVAILABLE@),
            KeychainWrite::Failed(message) => Err(message),
            KeychainWrite::Stored => Ok(TokenStorage::Keychain),
        },
    }
}

/// The token storage that a user's text names.
pub open spec fn token_storage_input(value: Option<Seq<char>>) -> Result<
    Option<TokenStorage>,
    Seq<char>,
> {
    match value {
        None => Ok(None),
        Some(value) => {
            let word = lowercase(trimmed(value));
            if word == "file"@ {
                Ok(Some(TokenStorage::File))
            } else if word == "keychain"@ {
                Ok(Some(TokenStorage::Keychain))
            } else {
                Err(INVALID_TOKEN_STORAGE@)
            }
        },
    }
}

/// The way to log in that a user's text names.
pub open spec fn login_mode_input(value: Option<Seq<char>>) -> Result<Option<AuthType>, Seq<char>> {
    match value {
        None => Ok(None),
        Some(value) => {
            let word = lowercase(trimmed(value));
            if word == "service-session"@ || word == "service"@ || word == "password"@ {
                Ok(Some(AuthType::ServiceSession))
            } else if word == "cloudflare-admin"@ || word == "cloudflare"@ {
                Ok(Some(AuthType::CloudflareAdmin))
            } else {
                Err(INVALID_LOGIN_MODE@)
            }
        },
    }
}

/// The way to log in: the requested one, else with a token where one is given, else with a
/// password.
pub open spec fn login_mode(
    requested: Option<Seq<char>>,
    flag_token: Option<Seq<char>>,
    env_token: Option<Seq<char>>,
) -> Result<AuthType, Seq<char>> {
    match login_mode_input(requested) {
        Err(message) => Err(message),
        Ok(Some(mode)) => Ok(mode),
        Ok(None) => if flag_token is Some || env_token is Some {
            Ok(AuthType::CloudflareAdmin)
        } else {
            Ok(AuthType::ServiceSession)
        },
    }
}

/// `prefix` with the path of a file behind it.
fn at_path(prefix: &str, path: &str) -> (message: String)
    ensures
        message@ == prefix@ + path@,
{
    let mut message = prefix.to_string();
    message.append(path);
    message
}

/// The members that a document has, if it is JSON.
pub fn read_config_nodes(document: &str) -> (nodes: Option<ConfigNodes>)
    ensures
        nodes.deep_view() == config_nodes(document@),
{
    match json_at(document, "") {
        None => None,
        Some(_) => Some(
            ConfigNodes {
                api_base: json_at(document, "/apiBase"),
                auth: json_at(document, "/auth"),
                auth_members: AuthNodes {
                    auth_type: json_at(document, "/auth/type"),
                    token_storage: json_at(document, "/auth/tokenStorage"),
                    access_token: json_at(document, "/auth/accessToken"),
                    actor: json_at(document, "/auth/actor"),
                    username: json_at(document, "/auth/username"),
                    role: json_at(document, "/auth/role"),
                    must_change_password: json_at(document, "/auth/mustChangePassword"),
                },
                token_storage: json_at(document, "/tokenStorage"),
                token: json_at(document, "/token"),
            },
        ),
    }
}

/// The trimmed text of a member, unless nothing is left of it.
fn clean_text_of_node(node: Option<JsonNode>) -> (text: Option<String>)
    ensures
        text.deep_view() == cleaned_opt(node_text(node.deep_view())),
{
    match text_of_node(node) {
        Some(text) => read_string(text.as_str()),
        None => None,
    }
}

fn read_storage_node(node: Option<JsonNode>, fault: String) -> (storage: Result<
    Option<TokenStorage>,
    String,
>)
    ensures
        outcome(storage) == storage_of_node(node.deep_view(), fault@),
{
    match text_of_node(node) {
        None => Ok(None),
        Some(word) => if same_text(word.as_str(), "keychain") {
            Ok(Some(TokenStorage::Keychain))
        } else if same_text(word.as_str(), "file") {
            Ok(Some(TokenStorage::File))
        } else {
            Err(fault)
        },
    }
}

fn infer_storage(stated: Option<TokenStorage>, token: &Option<String>) -> (storage: Option<
    TokenStorage,
>)
    ensures
        storage == storage_or_inline(stated, token.deep_view()),
{
    match stated {
        Some(storage) => Some(storage),
        None => match token {
            Some(_) => Some(TokenStorage::File),
            None => None,
        },
    }
}

/// The login that the `auth` member of the file at `path` gives.
pub fn parse_stored_auth(value: Option<JsonNode>, members: AuthNodes, path: &str) -> (auth: Result<
    Option<StoredAuth>,
    String,
>)
    ensures
        outcome(auth) == stored_auth_of(value.deep_view(), members.deep_view(), path@),
{
    match value {
        None => return Ok(None),
        Some(JsonNode::Object) => {},
        Some(_) => return Err(at_path("invalid config file: unsupported auth in ", path)),
    }
    let unsupported = at_path("invalid config file: unsupported auth.type in ", path);
    let auth_type = match text_of_node(members.auth_type) {
        None => return Err(unsupported),
        Some(word) => {
            let word = trim(word.as_str());
            if same_text(word, "cloudflare-admin") {
                AuthType::CloudflareAdmin
            } else if same_text(word, "service-session") {
                AuthType::ServiceSession
            } else {
                return Err(unsupported);
            }
        },
    };
    let stated = match read_storage_node(
        members.token_storage,
        at_path("invalid config file: unsupported auth.tokenStorage in ", path),
    ) {
        Ok(stated) => stated,
        Err(message) => return Err(message),
    };
    let access_token = clean_text_of_node(members.access_token);
    let must_change_password = match members.must_change_password {
        None => None,
        Some(JsonNode::Flag(flag)) => Some(flag),
        Some(_) => Some(false),
    };
    Ok(
        Some(
            StoredAuth {
                auth_type,
                token_storage: infer_storage(stated, &access_token),
                access_token,
                actor: clean_text_of_node(members.actor),
                username: clean_text_of_node(members.username),
                role: clean_text_of_node(members.role),
                must_change_password,
            },
        ),
    )
}

/// The configuration that the members of the file at `path` give.
pub fn stored_config_of_nodes(nodes: Option<ConfigNodes>, path: &str) -> (config: Result<
    StoredConfig,
    String,
>)
    ensures
        outcome(config) == stored_config_of(nodes.deep_view(), path@),
{
    let nodes = match nodes {
        Some(nodes) => nodes,
        None => return Err(at_path("invalid config file: ", path)),
    };
    let api_base = match clean_text_of_node(nodes.api_base) {
        Some(api_base) => api_base,
        None => return Err(at_path("invalid config file: missing apiBase in ", path)),
    };
    let auth = match parse_stored_auth(nodes.auth, nodes.auth_members, path) {
        Ok(auth) => auth,
        Err(message) => return Err(message),
    };
    let stated = match read_storage_node(
        nodes.token_storage,
        at_path("invalid config file: unsupported tokenStorage in ", path),
    ) {
        Ok(stated) => stated,
        Err(message) => return Err(message),
    };
    let token = clean_text_of_node(nodes.token);
    Ok(StoredConfig { api_base, auth, token_storage: infer_storage(stated, &token), token })
}

/// The configuration that the text of the file at `path` gives.
pub fn parse_stored_config(raw: &str, path: &str) -> (config: Result<StoredConfig, String>)
    ensures
        outcome(config) == stored_config_of(config_nodes(raw@), path@),
{
    stored_config_of_nodes(read_config_nodes(raw), path)
}

/// The configuration that reading the file at `path` gives, if the file is there.
pub fn read_stored_config_if_exists(file: FileText, path: &str) -> (config: Result<
    Option<StoredConfig>,
    String,
>)
    ensures
        outcome(config) == stored_config_from(file.deep_view(), path@),
{
    match file {
        FileText::Absent => Ok(None),
        FileText::Failed(message) => Err(message),
        FileText::Text(raw) => match parse_stored_config(raw.as_str(), path) {
            Ok(config) => Ok(Some(config)),
            Err(message) => Err(message),
        },
    }
}

/// The stored configuration, which a command needs to be there.
pub fn read_stored_config(stored: Option<StoredConfig>) -> (config: Result<StoredConfig, String>)
    ensures
        outcome(config) == (match stored.deep_view() {
            Some(stored) => Ok::<StoredConfig<Seq<char>>, Seq<char>>(stored),
            None => Err(NOT_LOGGED_IN@),
        }),
{
    match stored {
        Some(stored) => Ok(stored),
        None => Err(NOT_LOGGED_IN.to_string()),
    }
}

/// How the stored login was made.
pub fn resolve_stored_auth_type(config: &StoredConfig) -> (auth_type: AuthType)
    ensures
        auth_type == stored_auth_type(config.deep_view()),
{
    match &config.auth {
        Some(auth) => auth.auth_type,
        None => AuthType::CloudflareAdmin,
    }
}

/// The token that a storage gives.
pub fn read_token_from_storage(
    token_storage: Option<TokenStorage>,
    inline_token: Option<String>,
    keychain: KeychainRead,
) -> (token: Result<Option<String>, String>)
    ensures
        outcome(token) == token_from_storage(
            token_storage,
            inline_token.deep_view(),
            keychain.deep_view(),
        ),
{
    match token_storage {
        None => Ok(None),
        Some(TokenStorage::File) => match inline_token {
            Some(token) => Ok(Some(token)),
            None => Err(FILE_TOKEN_MISSING.to_string()),
        },
        Some(TokenStorage::Keychain) => match keychain {
            KeychainRead::Token(token) => Ok(Some(token)),
            KeychainRead::Unavailable => match inline_token {
                Some(token) => Ok(Some(token)),
                None => Err(KEYCHAIN_NEEDED.to_string()),
            },
            KeychainRead::Failed(message) => match inline_token {
                Some(token) => Ok(Some(token)),
                None => {
                    let mut text = "failed to read token from macOS Keychain (".to_string();
                    text.append(message.as_str());
                    text.append("). Run cfsurge login.");
                    Err(text)
                },
            },
        },
    }
}

/// Whether the token can only come from the keychain.
pub fn asks_keychain(env_token: Option<&String>, config: &StoredConfig) -> (asks: bool)
    ensures
        asks == keychain_is_asked(env_token.deep_view(), config.deep_view()),
{
    let storage = match &config.auth {
        Some(auth) => auth.token_storage,
        None => config.token_storage,
    };
    read_string_opt(env_token).is_none() && match storage {
        Some(TokenStorage::Keychain) => true,
        _ => false,
    }
}

/// The token to work with: the one in the environment, else the stored one. What the keychain
/// says counts only where [`asks_keychain`] holds.
pub fn read_stored_token(
    env_token: Option<&String>,
    config: &StoredConfig,
    keychain: KeychainRead,
) -> (token: Result<Option<String>, String>)
    ensures
        outcome(token) == stored_token(
            env_token.deep_view(),
            config.deep_view(),
            keychain.deep_view(),
        ),
{
    if let Some(token) = read_string_opt(env_token) {
        return Ok(Some(token));
    }
    match &config.auth {
        Some(auth) => match read_token_from_storage(
            auth.token_storage,
            auth.access_token.clone(),
            keychain,
        ) {
            Ok(None) => Err(MISSING_TOKEN.to_string()),
            found => found,
        },
        None => read_token_from_storage(config.token_storage, config.token.clone(), keychain),
    }
}

/// What a command needs to talk to the service.
pub fn read_config(
    options: ReadConfigOptions,
    stored: &StoredConfig,
    env_api_base: Option<&String>,
    env_token: Option<&String>,
    keychain: KeychainRead,
) -> (config: Result<CliConfig, String>)
    ensures
        outcome(config) == cli_config(
            options,
            stored.deep_view(),
            env_api_base.deep_view(),
            env_token.deep_view(),
            keychain.deep_view(),
        ),
{
    let token = match read_stored_token(env_token, stored, keychain) {
        Ok(Some(token)) => token,
        Ok(None) => return Err(MISSING_TOKEN.to_string()),
        Err(message) => return Err(message),
    };
    let due = match &stored.auth {
        Some(auth) => auth.auth_type == AuthType::ServiceSession && match auth.must_change_password {
            Some(due) => due,
            None => false,
        },
        None => false,
    };
    if due && !options.allow_must_change_password {
        return Err(PASSWORD_CHANGE_REQUIRED.to_string());
    }
    let api_base = match read_string_opt(env_api_base) {
        Some(api_base) => api_base,
        None => stored.api_base.clone(),
    };
    Ok(CliConfig { api_base, token, auth_type: resolve_stored_auth_type(stored) })
}

/// Where a token ends up that is to be kept in `token_storage`. What the keychain said counts
/// only where the token was meant for it.
pub fn persist_token(token_storage: TokenStorage, keychain: KeychainWrite) -> (kept: Result<
    TokenStorage,
    String,
>)
    ensures
        outcome(kept) == kept_in(token_storage, keychain.deep_view()),
{
    match token_storage {
        TokenStorage::File => Ok(TokenStorage::File),
        TokenStorage::Keychain => match keychain {
            KeychainWrite::Unavailable => Err(KEYCHAIN_UNAVAILABLE.to_string()),
            KeychainWrite::Failed(message) => Err(message),
            KeychainWrite::Stored => Ok(TokenStorage::Keychain),
        },
    }
}

/// The token storage that a user's text names.
pub fn parse_token_storage_input(value: Option<String>) -> (storage: Result<
    Option<TokenStorage>,
    String,
>)
    ensures
        outcome(storage) == token_storage_input(value.deep_view()),
{
    let value = match value {
        Some(value) => value,
        None => return Ok(None),
    };
    let word = to_ascii_lowercase(trim(value.as_str()));
    if same_text(word.as_str(), "file") {
        Ok(Some(TokenStorage::File))
    } else if same_text(word.as_str(), "keychain") {
        Ok(Some(TokenStorage::Keychain))
    } else {
        Err(INVALID_TOKEN_STORAGE.to_string())
    }
}

/// The way to log in that a user's text names.
pub fn parse_login_mode_input(value: Option<String>) -> (mode: Result<Option<AuthType>, String>)
    ensures
        outcome(mode) == login_mode_input(value.deep_view()),
{
    let value = match value {
        Some(value) => value,
        None => return Ok(None),
    };
    let word = to_ascii_lowercase(trim(value.as_str()));
    let word = word.as_str();
    if same_text(word, "service-session") || same_text(word, "service") || same_text(
        word,
        "password",
    ) {
        Ok(Some(AuthType::ServiceSession))
    } else if same_text(word, "cloudflare-admin") || same_text(word, "cloudflare") {
        Ok(Some(AuthType::CloudflareAdmin))
    } else {
        Err(INVALID_LOGIN_MODE.to_string())
    }
}

/// The way to log in: the requested one, else with a token where one is given, else with a
/// password.
pub fn resolve_login_mode(
    requested_mode: Option<String>,
    token_from_flag: &Option<String>,
    token_from_env: &Option<String>,
) -> (mode: Result<AuthType, String>)
    ensures
        outcome(mode) == login_mode(
            requested_mode.deep_view(),
            token_from_flag.deep_view(),
            token_from_env.deep_view(),
        ),
{
    match parse_login_mode_input(requested_mode) {
        Err(message) => Err(message),
        Ok(Some(mode)) => Ok(mode),
        Ok(None) => if token_from_flag.is_some() || token_from_env.is_some() {
            Ok(AuthType::CloudflareAdmin)
        } else {
            Ok(AuthType::ServiceSession)
        },
    }
}

/// Where the configuration file stands, below the home directory: two directories and a file.
pub fn config_location() -> (parts: Vec<&'static str>)
    ensures
        parts.deep_view() == seq![".config"@, "cfsurge"@, "config.json"@],
{
    let mut parts: Vec<&'static str> = Vec::new();
    parts.push(".config");
    parts.push("cfsurge");
    parts.push("config.json");
    assert(parts.deep_view() =~= seq![".config"@, "cfsurge"@, "config.json"@]);
    parts
}

/// The home directory: the one that `HOME` names, else the one that `USERPROFILE` names, else
/// the one that the system knows.
pub fn home_dir<P>(from_home: Option<P>, from_profile: Option<P>, from_system: Option<P>) -> (home:
    Result<P, String>)
    ensures
        match either(from_home, either(from_profile, from_system)) {
            Some(path) => home == Ok::<P, String>(path),
            None => home matches Err(message) && message@ == NO_HOME@,
        },
{
    match from_home {
        Some(path) => Ok(path),
        None => match from_profile {
            Some(path) => Ok(path),
            None => match from_system {
                Some(path) => Ok(path),
                None => Err(NO_HOME.to_string()),
            },
        },
    }
}

/// A document with the line end that a written file closes with.
pub fn append_newline(bytes: Vec<u8>) -> (closed: Vec<u8>)
    ensures
        closed@ == bytes@.push(10),
{
    let mut closed = bytes;
    closed.push(10);
    closed
}

/// What the keychain says makes no difference where the token does not have to come from it.
pub proof fn law_keychain_counts_only_where_asked(
    env_token: Option<Seq<char>>,
    config: StoredConfig<Seq<char>>,
    one: KeychainRead<Seq<char>>,
    other: KeychainRead<Seq<char>>,
)
    requires
        !keychain_is_asked(env_token, config),
    ensures
        stored_token(env_token, config, one) == stored_token(env_token, config, other),
{
}

/// A token in the environment takes the place of whatever is stored.
pub proof fn law_environment_token_wins(
    env_token: Seq<char>,
    config: StoredConfig<Seq<char>>,
    keychain: KeychainRead<Seq<char>>,
)
    requires
        trimmed(env_token).len() > 0,
    ensures
        stored_token(Some(env_token), config, keychain) == Ok::<Option<Seq<char>>, Seq<char>>(
            Some(trimmed(env_token)),
        ),
{
}

/// A base URL in the environment takes the place of the stored one.
pub proof fn law_environment_api_base_wins(
    options: ReadConfigOptions,
    stored: StoredConfig<Seq<char>>,
    env_api_base: Option<Seq<char>>,
    env_token: Option<Seq<char>>,
    keychain: KeychainRead<Seq<char>>,
)
    ensures
        cli_config(options, stored, env_api_base, env_token, keychain) matches Ok(config) ==> {
            &&& cleaned_opt(env_api_base) matches Some(base) ==> config.api_base == base
            &&& cleaned_opt(env_api_base) is None ==> config.api_base == stored.api_base
        },
{
}

/// Unless a way to log in is asked for, a token means a login with it, and no token a login
/// with a password.
pub proof fn law_token_decides_the_login_mode(
    flag_token: Option<Seq<char>>,
    env_token: Option<Seq<char>>,
)
    ensures
        login_mode(None, flag_token, env_token) == Ok::<AuthType, Seq<char>>(
            if flag_token is None && env_token is None {
                AuthType::ServiceSession
            } else {
                AuthType::CloudflareAdmin
            },
        ),
{
}

/// A login that has to change its password can do nothing but that. Leave to use such a login
/// makes no difference to any other.
pub proof fn law_due_password_change_blocks(
    stored: StoredConfig<Seq<char>>,
    env_api_base: Option<Seq<char>>,
    env_token: Option<Seq<char>>,
    keychain: KeychainRead<Seq<char>>,
)
    ensures
        ({
            let strict = cli_config(
                ReadConfigOptions { allow_must_change_password: false },
                stored,
                env_api_base,
                env_token,
                keychain,
            );
            let lenient = cli_config(
                ReadConfigOptions { allow_must_change_password: true },
                stored,
                env_api_base,
                env_token,
                keychain,
            );
            &&& password_change_due(stored) ==> strict is Err
            &&& password_change_due(stored) && lenient is Ok ==> strict == Err::<
                CliConfig<Seq<char>>,
                Seq<char>,
            >(PASSWORD_CHANGE_REQUIRED@)
            &&& !password_change_due(stored) ==> strict == lenient
        }),
{
}

/// The word for a token storage names that storage, to the user and in a file.
pub proof fn law_storage_word_reads_back(storage: TokenStorage, fault: Seq<char>)
    ensures
        token_storage_input(Some(storage_word(storage))) == Ok::<Option<TokenStorage>, Seq<char>>(
            Some(storage),
        ),
        storage_of_node(Some(JsonNode::Text(storage_word(storage))), fault) == Ok::<
            Option<TokenStorage>,
            Seq<char>,
        >(Some(storage)),
{
    reveal_strlit("keychain");
    reveal_strlit("file");
    assert("keychain"@[0] != "file"@[0]);
    law_clean_text_is_its_own_trim(storage_word(storage));
    assert(lowercase(storage_word(storage)) =~= storage_word(storage));
}

/// The word for a way to log in names it, to the user and in a file.
pub proof fn law_auth_type_word_reads_back(auth_type: AuthType, fault: Seq<char>)
    ensures
        login_mode_input(Some(auth_type_word(auth_type))) == Ok::<Option<AuthType>, Seq<char>>(
            Some(auth_type),
        ),
        auth_type_of_node(Some(JsonNode::Text(auth_type_word(auth_type))), fault) == Ok::<
            AuthType,
            Seq<char>,
        >(auth_type),
{
    reveal_strlit("cloudflare-admin");
    reveal_strlit("service-session");
    reveal_strlit("service");
    reveal_strlit("password");
    assert("cloudflare-admin"@[0] != "service-session"@[0]);
    assert("cloudflare-admin"@[0] != "service"@[0]);
    assert("cloudflare-admin"@[0] != "password"@[0]);
    law_clean_text_is_its_own_trim(auth_type_word(auth_type));
    assert(lowercase(auth_type_word(auth_type)) =~= auth_type_word(auth_type));
}

/// A text that is there as a member of an object.
pub open spec fn text_node(text: Option<Seq<char>>) -> Option<JsonNode<Seq<char>>> {
    match text {
        Some(text) => Some(JsonNode::Text(text)),
        None => None,
    }
}

/// The members of the `auth` object that holds a login.
pub open spec fn nodes_of_auth(auth: StoredAuth<Seq<char>>) -> AuthNodes<Seq<char>> {
    AuthNodes {
        auth_type: Some(JsonNode::Text(auth_type_word(auth.auth_type))),
        token_storage: match auth.token_storage {
            Some(storage) => Some(JsonNode::Text(storage_word(storage))),
            None => None,
        },
        access_token: text_node(auth.access_token),
        actor: text_node(auth.actor),
        username: text_node(auth.username),
        role: text_node(auth.role),
        must_change_password: match auth.must_change_password {
            Some(flag) => Some(JsonNode::Flag(flag)),
            None => None,
        },
    }
}

/// The members of the file that holds a configuration.
pub open spec fn nodes_of_config(config: StoredConfig<Seq<char>>) -> ConfigNodes<Seq<char>> {
    ConfigNodes {
        api_base: Some(JsonNode::Text(config.api_base)),
        auth: match config.auth {
            Some(_) => Some(JsonNode::Object),
            None => None,
        },
        auth_members: match config.auth {
            Some(auth) => nodes_of_auth(auth),
            None => AuthNodes {
                auth_type: None,
                token_storage: None,
                access_token: None,
                actor: None,
                username: None,
                role: None,
                must_change_password: None,
            },
        },
        token_storage: match config.token_storage {
            Some(storage) => Some(JsonNode::Text(storage_word(storage))),
            None => None,
        },
        token: text_node(config.token),
    }
}

/// A text that is absent, or not empty and without white space at its ends.
pub open spec fn is_clean(text: Option<Seq<char>>) -> bool {
    cleaned_opt(text) == text
}

/// A configuration whose texts are clean, and in which no token stands without a storage.
pub open spec fn is_clean_config(config: StoredConfig<Seq<char>>) -> bool {
    &&& is_clean(Some(config.api_base))
    &&& is_clean(config.token)
    &&& config.token is Some ==> config.token_storage is Some
    &&& config.auth matches Some(auth) ==> {
        &&& is_clean(auth.access_token)
        &&& auth.access_token is Some ==> auth.token_storage is Some
        &&& is_clean(auth.actor)
        &&& is_clean(auth.username)
        &&& is_clean(auth.role)
    }
}

/// A clean configuration reads back as it is from the members of its file.
pub proof fn law_config_reads_back(config: StoredConfig<Seq<char>>, path: Seq<char>)
    requires
        is_clean_config(config),
    ensures
        stored_config_of(Some(nodes_of_config(config)), path) == Ok::<
            StoredConfig<Seq<char>>,
            Seq<char>,
        >(config),
{
    if let Some(auth) = config.auth {
        law_auth_type_word_reads_back(
            auth.auth_type,
            "invalid config file: unsupported auth.type in "@ + path,
        );
        if let Some(storage) = auth.token_storage {
            law_storage_word_reads_back(
                storage,
                "invalid config file: unsupported auth.tokenStorage in "@ + path,
            );
        }
    }
    if let Some(storage) = config.token_storage {
        law_storage_word_reads_back(
            storage,
            "invalid config file: unsupported tokenStorage in "@ + path,
        );
    }
}

/// What is read from any file is clean.
pub proof fn law_stored_config_is_clean(nodes: Option<ConfigNodes<Seq<char>>>, path: Seq<char>)
    ensures
        stored_config_of(nodes, path) matches Ok(config) ==> is_clean_config(config),
{
    assert forall|text: Option<Seq<char>>| is_clean(#[trigger] cleaned_opt(text)) by {
        if let Some(text) = text {
            crate::text::law_trim_is_idempotent(text);
        }
    }
}

/// The way to log in is the one that is asked for by one of its names; unless one is asked for,
/// a token means a login with it, and no token a login with a password.
pub proof fn law_login_mode_goes_by_its_names(
    value: Seq<char>,
    flag_token: Option<Seq<char>>,
    env_token: Option<Seq<char>>,
)
    ensures
        ({
            let word = lowercase(trimmed(value));
            let mode = login_mode(Some(value), flag_token, env_token);
            &&& mode == Ok::<AuthType, Seq<char>>(AuthType::ServiceSession) <==> word
                == "service-session"@ || word == "service"@ || word == "password"@
            &&& mode == Ok::<AuthType, Seq<char>>(AuthType::CloudflareAdmin) <==> word
                == "cloudflare-admin"@ || word == "cloudflare"@
            &&& mode matches Err(message) ==> message == INVALID_LOGIN_MODE@
        }),
{
    reveal_strlit("cloudflare-admin");
    reveal_strlit("cloudflare");
    reveal_strlit("service-session");
    reveal_strlit("service");
    reveal_strlit("password");
    assert("cloudflare-admin"@[0] == 'c' && "cloudflare"@[0] == 'c');
    assert("service-session"@[0] == 's' && "service"@[0] == 's' && "password"@[0] == 'p');
}

/// A token storage is named by its word and no other, whatever the case and the margins.
pub proof fn law_token_storage_goes_by_its_word(value: Seq<char>)
    ensures
        ({
            let word = lowercase(trimmed(value));
            let storage = token_storage_input(Some(value));
            &&& storage == Ok::<Option<TokenStorage>, Seq<char>>(Some(TokenStorage::File)) <==> word
                == "file"@
            &&& storage == Ok::<Option<TokenStorage>, Seq<char>>(Some(TokenStorage::Keychain))
                <==> word == "keychain"@
            &&& storage matches Err(message) ==> message == INVALID_TOKEN_STORAGE@
            &&& !(storage == Ok::<Option<TokenStorage>, Seq<char>>(None))
        }),
        token_storage_input(None) == Ok::<Option<TokenStorage>, Seq<char>>(None),
{
    reveal_strlit("keychain");
    reveal_strlit("file");
    assert("keychain"@[0] == 'k' && "file"@[0] == 'f');
}

/// A token that is kept in the file needs no keychain; one that is wanted in the keychain is
/// kept there or nowhere.
pub proof fn law_token_is_kept_where_it_is_wanted(
    storage: TokenStorage,
    write: KeychainWrite<Seq<char>>,
)
    ensures
        kept_in(storage, write) matches Ok(kept) ==> kept == storage,
        kept_in(storage, write) is Ok <==> storage == TokenStorage::File || write is Stored,
        kept_in(TokenStorage::Keychain, KeychainWrite::Unavailable) == Err::<
            TokenStorage,
            Seq<char>,
        >(KEYCHAIN_UNAVAILABLE@),
        write matches KeychainWrite::Failed(message) ==> kept_in(TokenStorage::Keychain, write)
            == Err::<TokenStorage, Seq<char>>(message),
{
}

/// The token to work with is the one in the environment, else the one that is stored: in the
/// file where it is kept there, and from the keychain where it is kept there. Without any the
/// command is refused.
pub proof fn law_token_comes_from_where_it_is_kept(
    config: StoredConfig<Seq<char>>,
    keychain: KeychainRead<Seq<char>>,
    env_token: Option<Seq<char>>,
)
    requires
        cleaned_opt(env_token) is None,
    ensures
        ({
            let storage = match config.auth {
                Some(auth) => auth.token_storage,
                None => config.token_storage,
            };
            let inline = match config.auth {
                Some(auth) => auth.access_token,
                None => config.token,
            };
            let token = stored_token(env_token, config, keychain);
            &&& storage == Some(TokenStorage::File) && inline is Some ==> token == Ok::<
                Option<Seq<char>>,
                Seq<char>,
            >(inline)
            &&& storage == Some(TokenStorage::File) && inline is None ==> token == Err::<
                Option<Seq<char>>,
                Seq<char>,
            >(FILE_TOKEN_MISSING@)
            &&& storage == Some(TokenStorage::Keychain) ==> (keychain matches KeychainRead::Token(
                kept,
            ) ==> token == Ok::<Option<Seq<char>>, Seq<char>>(Some(kept)))
            &&& storage == Some(TokenStorage::Keychain) && !(keychain is Token) && inline is Some
                ==> token == Ok::<Option<Seq<char>>, Seq<char>>(inline)
            &&& storage == Some(TokenStorage::Keychain) && keychain is Unavailable && inline is None
                ==> token == Err::<Option<Seq<char>>, Seq<char>>(KEYCHAIN_NEEDED@)
            &&& storage == Some(TokenStorage::Keychain) && !(keychain is Token) && inline is None
                ==> token is Err
            &&& storage is None ==> !(token matches Ok(Some(_)))
        }),
{
}

/// What a command works with: the token that was found, the base URL of the environment or else
/// the stored one, and the way in which the stored login was made.
pub proof fn law_command_works_with_what_is_stored(
    options: ReadConfigOptions,
    stored: StoredConfig<Seq<char>>,
    env_api_base: Option<Seq<char>>,
    env_token: Option<Seq<char>>,
    keychain: KeychainRead<Seq<char>>,
)
    ensures
        ({
            let config = cli_config(options, stored, env_api_base, env_token, keychain);
            let due = stored.auth matches Some(auth) && auth.auth_type == AuthType::ServiceSession
                && auth.must_change_password == Some(true);
            &&& config matches Ok(config) ==> {
                &&& stored_token(env_token, stored, keychain) == Ok::<
                    Option<Seq<char>>,
                    Seq<char>,
                >(Some(config.token))
                &&& cleaned_opt(env_token) matches Some(token) ==> config.token == token
                &&& stored.auth matches Some(auth) ==> config.auth_type == auth.auth_type
                &&& stored.auth is None ==> config.auth_type == AuthType::CloudflareAdmin
                &&& cleaned_opt(env_api_base) matches Some(base) ==> config.api_base == base
                &&& cleaned_opt(env_api_base) is None ==> config.api_base == stored.api_base
            }
            &&& config is Ok <==> (stored_token(env_token, stored, keychain) matches Ok(Some(_)))
                && (options.allow_must_change_password || !due)
            &&& (stored_token(env_token, stored, keychain) matches Ok(Some(_))) && due
                && !options.allow_must_change_password ==> config == Err::<
                CliConfig<Seq<char>>,
                Seq<char>,
            >("password change required. Run cfsurge passwd."@)
        }),
{
}

/// Each member of the file is read from its own place.
pub proof fn law_members_have_their_places(document: Seq<char>, path: Seq<char>)
    ensures
        stored_config_from(FileText::Text(document), path) matches Ok(Some(config)) ==> {
            &&& cleaned_opt(node_text(json_node(document, "/apiBase"@))) == Some(config.api_base)
            &&& config.token == cleaned_opt(node_text(json_node(document, "/token"@)))
            &&& config.auth is Some <==> json_node(document, "/auth"@) is Some
            &&& config.auth matches Some(auth) ==> {
                &&& auth.access_token == cleaned_opt(
                    node_text(json_node(document, "/auth/accessToken"@)),
                )
                &&& auth.actor == cleaned_opt(node_text(json_node(document, "/auth/actor"@)))
                &&& auth.username == cleaned_opt(node_text(json_node(document, "/auth/username"@)))
                &&& auth.role == cleaned_opt(node_text(json_node(document, "/auth/role"@)))
                &&& auth.must_change_password == Some(true) <==> json_node(
                    document,
                    "/auth/mustChangePassword"@,
                ) == Some(JsonNode::<Seq<char>>::Flag(true))
                &&& auth.auth_type == AuthType::ServiceSession <==> (node_text(
                    json_node(document, "/auth/type"@),
                ) matches Some(word) && trimmed(word) == "service-session"@)
                &&& auth.token_storage == Some(TokenStorage::Keychain) <==> node_text(
                    json_node(document, "/auth/tokenStorage"@),
                ) == Some("keychain"@)
            }
            &&& config.token_storage == Some(TokenStorage::Keychain) <==> node_text(
                json_node(document, "/tokenStorage"@),
            ) == Some("keychain"@)
        },
        stored_config_from(FileText::Absent, path) == Ok::<
            Option<StoredConfig<Seq<char>>>,
            Seq<char>,
        >(None),
        json_node(document, ""@) is None ==> stored_config_from(FileText::Text(document), path)
            == Err::<Option<StoredConfig<Seq<char>>>, Seq<char>>("invalid config file: "@ + path),
{
    reveal_strlit("cloudflare-admin");
    reveal_strlit("service-session");
    reveal_strlit("keychain");
    reveal_strlit("file");
    assert("cloudflare-admin"@[0] == 'c' && "service-session"@[0] == 's');
    assert("keychain"@[0] == 'k' && "file"@[0] == 'f');
}

/// A file that is not there holds no configuration, one that cannot be read is an error, and
/// otherwise the configuration is that of its text.
pub proof fn law_config_file_is_read_as_it_is(path: Seq<char>, raw: Seq<char>, message: Seq<char>)
    ensures
        stored_config_from(FileText::Absent, path) == Ok::<
            Option<StoredConfig<Seq<char>>>,
            Seq<char>,
        >(None),
        stored_config_from(FileText::Failed(message), path) == Err::<
            Option<StoredConfig<Seq<char>>>,
            Seq<char>,
        >(message),
        stored_config_from(FileText::Text(raw), path) matches Ok(config) ==> config is Some
            && config_nodes(raw) is Some,
{
}

} // verus!
