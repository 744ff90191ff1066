//! Logging in, with a token or with a user name and a password.
use crate::address::{auth_headers, bearer_header};
use crate::args::{cleaned_opt, either, flag_value, read_flag, read_string_opt, value_or};
use crate::config::{
    kept_in, login_mode, parse_token_storage_input, password_change_due, persist_token,
    resolve_login_mode, token_storage_input, AuthType, StoredConfig, TokenStorage,
};
use crate::http::{accept_reply, endpoint_url, join_url, reply_outcome, Method, Payload, Reply, Request};
use crate::prompt::{
    chosen_storage, not_blank, require_text, storage_of_option, AnswerKind, Choice, Question,
    NEW_PASSWORD_EMPTY,
};
use crate::resolve::{
    api_base_setting, new_password_setting, password_setting, resolve_api_base,
    resolve_login_new_password, resolve_password, resolve_token_storage_preference,
    resolve_username, token_storage_setting, username_setting, Resolved, Selected,
};
use crate::session::{
    admin_config, build_change_password_request, build_login_request, change_password_request,
    change_service_session_password, login_outcome, login_request, login_with_service_session,
    persist_admin_auth, persist_service_session_auth, session_config, ResolvedServiceLogin,
    ServiceLoginResponse,
};
use crate::slug::ApiMetadata;
use crate::talk::{Action, Environment, Event};
use vstd::prelude::*;

verus! {

pub const GENERIC_TOKEN_DASHBOARD_URL: &'static str =
    "https://dash.cloudflare.com/profile/api-tokens";

pub const NEW_PASSWORD_WITH_TOKEN: &'static str =
    "--new-password is only available with service-session login";

pub const TOKEN_WITHOUT_ADMIN: &'static str = "token-based login requires --auth cloudflare-admin";

pub const STILL_DUE: &'static str =
    "login failed: password change completed but server still requires password change";

/// What the command line and the environment say of a login.
#[derive(Debug, PartialEq, Eq)]
pub struct LoginPlan<T = String> {
    pub auth_flag: Option<T>,
    pub token_flag: Option<T>,
    /// The token in the environment, trimmed.
    pub env_token: Option<T>,
    pub new_password_flag: Option<T>,
    pub token_storage_flag: Option<T>,
    pub username: Resolved<T>,
    pub password: Resolved<T>,
    pub interactive: bool,
}

impl DeepView for LoginPlan {
    type V = LoginPlan<Seq<char>>;

    open spec fn deep_view(&self) -> LoginPlan<Seq<char>> {
        LoginPlan {
            auth_flag: self.auth_flag.deep_view(),
            token_flag: self.token_flag.deep_view(),
            env_token: self.env_token.deep_view(),
            new_password_flag: self.new_password_flag.deep_view(),
            token_storage_flag: self.token_storage_flag.deep_view(),
            username: self.username.deep_view(),
            password: self.password.deep_view(),
            interactive: self.interactive,
        }
    }
}

/// A login whose settings have been checked.
#[derive(Debug, PartialEq, Eq)]
pub struct LoginJob<T = String> {
    pub api_base: T,
    pub mode: AuthType,
    /// The token that was given.
    pub token: Option<T>,
    pub new_password: Option<T>,
    pub username: Resolved<T>,
    pub password: Resolved<T>,
    pub interactive: bool,
}

impl DeepView for LoginJob {
    type V = LoginJob<Seq<char>>;

    open spec fn deep_view(&self) -> LoginJob<Seq<char>> {
        LoginJob {
            api_base: self.api_base@,
            mode: self.mode,
            token: self.token.deep_view(),
            new_password: self.new_password.deep_view(),
            username: self.username.deep_view(),
            password: self.password.deep_view(),
            interactive: self.interactive,
        }
    }
}

/// A login in progress: what it waits for, and what it knows so far.
#[derive(Debug, PartialEq, Eq)]
pub enum Login<T = String> {
    AskApiBase { plan: LoginPlan<T>, question: Question<T> },
    ChooseStorage { job: LoginJob<T>, marked: usize },
    FetchMetadata { job: LoginJob<T>, storage: TokenStorage },
    AskToken { api_base: T, storage: TokenStorage, question: Question<T> },
    Verify { api_base: T, storage: TokenStorage, token: T, authorization: T },
    KeepToken { api_base: T, token: T, holder: Option<T> },
    AskUsername { job: LoginJob<T>, storage: TokenStorage, question: Question<T> },
    AskPassword { job: LoginJob<T>, storage: TokenStorage, username: T, question: Question<T> },
    SignIn { job: LoginJob<T>, storage: TokenStorage, username: T, password: T },
    AskNewPassword {
        api_base: T,
        storage: TokenStorage,
        username: T,
        password: T,
        token: T,
        question: Question<T>,
    },
    ChangePassword {
        api_base: T,
        storage: TokenStorage,
        username: T,
        new_password: T,
        request: Request<T>,
    },
    SignInAgain { api_base: T, storage: TokenStorage, username: T, new_password: T },
    Announce { api_base: T, storage: TokenStorage, username: T, login: ResolvedServiceLogin<T> },
    KeepSession { api_base: T, username: T, login: ResolvedServiceLogin<T> },
    Save { config: StoredConfig<T>, actor: T },
    Finished { actor: T },
    Failed { message: T },
}

impl DeepView for Login {
    type V = Login<Seq<char>>;

    open spec fn deep_view(&self) -> Login<Seq<char>> {
        match self {
            Login::AskApiBase { plan, question } => Login::AskApiBase {
                plan: plan.deep_view(),
                question: question.deep_view(),
            },
            Login::ChooseStorage { job, marked } => Login::ChooseStorage {
                job: job.deep_view(),
                marked: *marked,
            },
            Login::FetchMetadata { job, storage } => Login::FetchMetadata {
                job: job.deep_view(),
                storage: *storage,
            },
            Login::AskToken { api_base, storage, question } => Login::AskToken {
                api_base: api_base@,
                storage: *storage,
                question: question.deep_view(),
            },
            Login::Verify { api_base, storage, token, authorization } => Login::Verify {
                api_base: api_base@,
                storage: *storage,
                token: token@,
                authorization: authorization@,
            },
            Login::KeepToken { api_base, token, holder } => Login::KeepToken {
                api_base: api_base@,
                token: token@,
                holder: holder.deep_view(),
            },
            Login::AskUsername { job, storage, question } => Login::AskUsername {
                job: job.deep_view(),
                storage: *storage,
                question: question.deep_view(),
            },
            Login::AskPassword { job, storage, username, question } => Login::AskPassword {
                job: job.deep_view(),
                storage: *storage,
                username: username@,
                question: question.deep_view(),
            },
            Login::SignIn { job, storage, username, password } => Login::SignIn {
                job: job.deep_view(),
                storage: *storage,
                username: username@,
                password: password@,
            },
            Login::AskNewPassword { api_base, storage, username, password, token, question } => Login::AskNewPassword {
                api_base: api_base@,
                storage: *storage,
                username: username@,
                password: password@,
                token: token@,
                question: question.deep_view(),
            },
            Login::ChangePassword { api_base, storage, username, new_password, request } => Login::ChangePassword {
                api_base: api_base@,
                storage: *storage,
                username: username@,
                new_password: new_password@,
                request: request.deep_view(),
            },
            Login::SignInAgain { api_base, storage, username, new_password } => Login::SignInAgain {
                api_base: api_base@,
                storage: *storage,
                username: username@,
                new_password: new_password@,
            },
            Login::Announce { api_base, storage, username, login } => Login::Announce {
                api_base: api_base@,
                storage: *storage,
                username: username@,
                login: login.deep_view(),
            },
            Login::KeepSession { api_base, username, login } => Login::KeepSession {
                api_base: api_base@,
                username: username@,
                login: login.deep_view(),
            },
            Login::Save { config, actor } => Login::Save {
                config: config.deep_view(),
                actor: actor@,
            },
            Login::Finished { actor } => Login::Finished { actor: actor@ },
            Login::Failed { message } => Login::Failed { message: message@ },
        }
    }
}

/// What the command line and the environment say of a login.
pub open spec fn login_plan(
    args: Seq<Seq<char>>,
    env: Environment<Seq<char>>,
) -> LoginPlan<Seq<char>> {
    LoginPlan {
        auth_flag: flag_value(args, "--auth"@),
        token_flag: flag_value(args, "--token"@),
        env_token: cleaned_opt(env.token),
        new_password_flag: flag_value(args, "--new-password"@),
        token_storage_flag: flag_value(args, "--token-storage"@),
        username: username_setting(args, env.username, env.interactive),
        password: password_setting(args, env.password),
        interactive: env.interactive,
    }
}

/// How a login starts: with the base URL.
pub open spec fn login_start(
    args: Seq<Seq<char>>,
    env: Environment<Seq<char>>,
    stored_api_base: Option<Seq<char>>,
) -> Login<Seq<char>> {
    let plan = login_plan(args, env);
    match api_base_setting(args, env.api_base, stored_api_base, env.interactive) {
        Resolved::Known(api_base) => with_api_base(plan, api_base),
        Resolved::Ask(question) => Login::AskApiBase { plan, question },
        Resolved::Refused(message) => Login::Failed { message },
    }
}

/// With the base URL known, the settings are checked: the way to log in, a new password, and
/// the token storage.
pub open spec fn with_api_base(plan: LoginPlan<Seq<char>>, api_base: Seq<char>) -> Login<Seq<char>> {
    match login_mode(plan.auth_flag, plan.token_flag, plan.env_token) {
        Err(message) => Login::Failed { message },
        Ok(mode) => match checked_new_password(plan.new_password_flag) {
            Err(message) => Login::Failed { message },
            Ok(new_password) => match token_storage_input(plan.token_storage_flag) {
                Err(message) => Login::Failed { message },
                Ok(requested) => {
                    let job = LoginJob {
                        api_base,
                        mode,
                        token: either(plan.token_flag, plan.env_token),
                        new_password,
                        username: plan.username,
                        password: plan.password,
                        interactive: plan.interactive,
                    };
                    match token_storage_setting(requested, plan.interactive) {
                        Selected::Known(storage) => with_storage(job, storage),
                        Selected::Choose { marked } => Login::ChooseStorage { job, marked },
                    }
                },
            },
        },
    }
}

/// A new password that was given may not be blank.
pub open spec fn checked_new_password(flag: Option<Seq<char>>) -> Result<
    Option<Seq<char>>,
    Seq<char>,
> {
    match flag {
        None => Ok(None),
        Some(value) => match not_blank(value, NEW_PASSWORD_EMPTY@) {
            Ok(value) => Ok(Some(value)),
            Err(message) => Err(message),
        },
    }
}

/// With the storage known, the two ways to log in part.
pub open spec fn with_storage(job: LoginJob<Seq<char>>, storage: TokenStorage) -> Login<Seq<char>> {
    match job.mode {
        AuthType::CloudflareAdmin => if job.new_password is Some {
            Login::Failed { message: NEW_PASSWORD_WITH_TOKEN@ }
        } else {
            Login::FetchMetadata { job, storage }
        },
        AuthType::ServiceSession => if job.token is Some {
            Login::Failed { message: TOKEN_WITHOUT_ADMIN@ }
        } else {
            match job.username {
                Resolved::Known(username) => with_username(job, storage, username),
                Resolved::Ask(question) => Login::AskUsername { job, storage, question },
                Resolved::Refused(message) => Login::Failed { message },
            }
        },
    }
}

/// With the user known, the password is next.
pub open spec fn with_username(
    job: LoginJob<Seq<char>>,
    storage: TokenStorage,
    username: Seq<char>,
) -> Login<Seq<char>> {
    match job.password {
        Resolved::Known(password) => Login::SignIn { job, storage, username, password },
        Resolved::Ask(question) => Login::AskPassword { job, storage, username, question },
        Resolved::Refused(message) => Login::Failed { message },
    }
}

/// Where a token can be made: where the service says, else at the usual place.
pub open spec fn token_creation_url(metadata: Option<ApiMetadata<Seq<char>>>) -> Seq<char> {
    match metadata {
        Some(metadata) => value_or(
            cleaned_opt(metadata.token_creation_url),
            GENERIC_TOKEN_DASHBOARD_URL@,
        ),
        None => GENERIC_TOKEN_DASHBOARD_URL@,
    }
}

/// The question for a token, with a hint where to make one.
pub open spec fn token_question(metadata: Option<ApiMetadata<Seq<char>>>) -> Question<Seq<char>> {
    Question {
        guidance: Some(
            "Create a Cloudflare API token if you do not have one:\n"@ + token_creation_url(
                metadata,
            ),
        ),
        label: "Cloudflare API token"@,
        default_value: None,
        kind: AnswerKind::Anything,
    }
}

/// With a token known, the service has to verify it.
pub open spec fn with_token(api_base: Seq<char>, storage: TokenStorage, token: Seq<char>) -> Login<
    Seq<char>,
> {
    match bearer_header(token) {
        Ok(authorization) => Login::Verify { api_base, storage, token, authorization },
        Err(message) => Login::Failed { message },
    }
}

/// A verified token is kept.
pub open spec fn with_verified(
    api_base: Seq<char>,
    storage: TokenStorage,
    token: Seq<char>,
    reply: Reply<Option<Seq<char>>, Seq<char>>,
) -> Login<Seq<char>> {
    match reply_outcome(reply, "login"@) {
        Err(message) => Login::Failed { message },
        Ok(actor) => match storage {
            TokenStorage::Keychain => Login::KeepToken { api_base, token, holder: cleaned_opt(actor) },
            TokenStorage::File => save_admin(api_base, token, cleaned_opt(actor), TokenStorage::File),
        },
    }
}

/// The login with a token is written down.
pub open spec fn save_admin(
    api_base: Seq<char>,
    token: Seq<char>,
    actor: Option<Seq<char>>,
    kept: TokenStorage,
) -> Login<Seq<char>> {
    Login::Save {
        config: admin_config(api_base, token, actor, kept),
        actor: value_or(actor, "cloudflare-admin"@),
    }
}

/// A login that was granted: kept, unless the password has to be changed first.
pub open spec fn with_login(
    job: LoginJob<Seq<char>>,
    storage: TokenStorage,
    username: Seq<char>,
    password: Seq<char>,
    reply: Reply<ServiceLoginResponse<Seq<char>>, Seq<char>>,
) -> Login<Seq<char>> {
    match login_outcome(reply, username) {
        Err(message) => Login::Failed { message },
        Ok(login) => if !login.must_change_password {
            keep_session(job.api_base, storage, username, login)
        } else {
            match new_password_setting(job.new_password, job.interactive) {
                Resolved::Known(new_password) => with_new_password(
                    job.api_base,
                    storage,
                    username,
                    password,
                    login.access_token,
                    new_password,
                ),
                Resolved::Ask(question) => Login::AskNewPassword {
                    api_base: job.api_base,
                    storage,
                    username,
                    password,
                    token: login.access_token,
                    question,
                },
                Resolved::Refused(message) => Login::Failed { message },
            }
        },
    }
}

/// The password is changed with the token that the first login gave.
pub open spec fn with_new_password(
    api_base: Seq<char>,
    storage: TokenStorage,
    username: Seq<char>,
    password: Seq<char>,
    token: Seq<char>,
    new_password: Seq<char>,
) -> Login<Seq<char>> {
    match change_password_request(api_base, token, password, new_password) {
        Ok(request) => Login::ChangePassword { api_base, storage, username, new_password, request },
        Err(message) => Login::Failed { message },
    }
}

/// The login with the new password may not ask for another change.
pub open spec fn with_second_login(
    api_base: Seq<char>,
    storage: TokenStorage,
    username: Seq<char>,
    reply: Reply<ServiceLoginResponse<Seq<char>>, Seq<char>>,
) -> Login<Seq<char>> {
    match login_outcome(reply, username) {
        Err(message) => Login::Failed { message },
        Ok(login) => if login.must_change_password {
            Login::Failed { message: STILL_DUE@ }
        } else {
            Login::Announce { api_base, storage, username, login }
        },
    }
}

/// The login with a password is kept.
pub open spec fn keep_session(
    api_base: Seq<char>,
    storage: TokenStorage,
    username: Seq<char>,
    login: ResolvedServiceLogin<Seq<char>>,
) -> Login<Seq<char>> {
    match storage {
        TokenStorage::Keychain => Login::KeepSession { api_base, username, login },
        TokenStorage::File => save_session(api_base, username, login, TokenStorage::File),
    }
}

/// The login with a password is written down.
pub open spec fn save_session(
    api_base: Seq<char>,
    username: Seq<char>,
    login: ResolvedServiceLogin<Seq<char>>,
    kept: TokenStorage,
) -> Login<Seq<char>> {
    Login::Save {
        config: session_config(api_base, login, kept, username),
        actor: login.actor,
    }
}

/// What an event makes of a login in progress. An event that it does not wait for changes
/// nothing.
pub open spec fn login_next(state: Login<Seq<char>>, event: Event<Seq<char>>) -> Login<Seq<char>> {
    match (state, event) {
        (Login::AskApiBase { plan, question }, Event::Answered(api_base)) => with_api_base(
            plan,
            api_base,
        ),
        (Login::ChooseStorage { job, marked }, Event::Chosen(option)) => match storage_of_option(
            option as int,
        ) {
            Some(storage) => with_storage(job, storage),
            None => state,
        },
        (Login::FetchMetadata { job, storage }, Event::Metadata(metadata)) => match job.token {
            Some(token) => with_token(job.api_base, storage, token),
            None => Login::AskToken {
                api_base: job.api_base,
                storage,
                question: token_question(metadata),
            },
        },
        (Login::AskToken { api_base, storage, question }, Event::Answered(token)) => with_token(
            api_base,
            storage,
            token,
        ),
        (
            Login::Verify { api_base, storage, token, authorization },
            Event::Verified(reply),
        ) => with_verified(api_base, storage, token, reply),
        (Login::KeepToken { api_base, token, holder }, Event::Kept(write)) => match kept_in(
            TokenStorage::Keychain,
            write,
        ) {
            Ok(kept) => save_admin(api_base, token, holder, kept),
            Err(message) => Login::Failed { message },
        },
        (Login::AskUsername { job, storage, question }, Event::Answered(username)) => with_username(
            job,
            storage,
            username,
        ),
        (
            Login::AskPassword { job, storage, username, question },
            Event::Answered(password),
        ) => Login::SignIn { job, storage, username, password },
        (Login::SignIn { job, storage, username, password }, Event::SignedIn(reply)) => with_login(
            job,
            storage,
            username,
            password,
            reply,
        ),
        (
            Login::AskNewPassword { api_base, storage, username, password, token, question },
            Event::Answered(new_password),
        ) => with_new_password(api_base, storage, username, password, token, new_password),
        (
            Login::ChangePassword { api_base, storage, username, new_password, request },
            Event::Changed(reply),
        ) => match reply_outcome(reply, "passwd"@) {
            Ok(_) => Login::SignInAgain { api_base, storage, username, new_password },
            Err(message) => Login::Failed { message },
        },
        (
            Login::SignInAgain { api_base, storage, username, new_password },
            Event::SignedIn(reply),
        ) => with_second_login(api_base, storage, username, reply),
        (Login::Announce { api_base, storage, username, login }, Event::Done) => keep_session(
            api_base,
            storage,
            username,
            login,
        ),
        (Login::KeepSession { api_base, username, login }, Event::Kept(write)) => match kept_in(
            TokenStorage::Keychain,
            write,
        ) {
            Ok(kept) => save_session(api_base, username, login, kept),
            Err(message) => Login::Failed { message },
        },
        (Login::Save { config, actor }, Event::Done) => Login::Finished { actor },
        (Login::Finished { actor }, _) => state,
        (Login::Failed { message }, _) => state,
        (_, Event::Failed(message)) => Login::Failed { message },
        _ => state,
    }
}

/// What a login in progress asks to be done.
pub open spec fn login_action(state: Login<Seq<char>>) -> Action<Seq<char>> {
    match state {
        Login::AskApiBase { plan, question } => Action::Ask(question),
        Login::ChooseStorage { job, marked } => Action::Choose {
            choice: Choice::TokenStorage,
            marked,
        },
        Login::FetchMetadata { job, storage } => Action::FetchMetadata(
            metadata_request(job.api_base),
        ),
        Login::AskToken { api_base, storage, question } => Action::Ask(question),
        Login::Verify { api_base, storage, token, authorization } => Action::Verify(
            Request {
                method: Method::Post,
                url: endpoint_url(api_base, "/v1/auth/verify"@),
                authorization: Some(authorization),
                payload: Payload::Nothing,
            },
        ),
        Login::KeepToken { api_base, token, holder } => Action::StoreInKeychain(token),
        Login::AskUsername { job, storage, question } => Action::Ask(question),
        Login::AskPassword { job, storage, username, question } => Action::Ask(question),
        Login::SignIn { job, storage, username, password } => Action::SignIn(
            login_request(job.api_base, username, password),
        ),
        Login::AskNewPassword {
            api_base,
            storage,
            username,
            password,
            token,
            question,
        } => Action::Ask(question),
        Login::ChangePassword {
            api_base,
            storage,
            username,
            new_password,
            request,
        } => Action::ChangePassword(request),
        Login::SignInAgain { api_base, storage, username, new_password } => Action::SignIn(
            login_request(api_base, username, new_password),
        ),
        Login::Announce { api_base, storage, username, login } => Action::Say("password updated"@),
        Login::KeepSession { api_base, username, login } => Action::StoreInKeychain(
            login.access_token,
        ),
        Login::Save { config, actor } => Action::SaveConfig(config),
        Login::Finished { actor } => Action::Finish("logged in as "@ + actor),
        Login::Failed { message } => Action::Fail(message),
    }
}

/// The request for what the service says of itself.
pub open spec fn metadata_request(api_base: Seq<char>) -> Request<Seq<char>> {
    Request {
        method: Method::Get,
        url: endpoint_url(api_base, "/v1/meta"@),
        authorization: None,
        payload: Payload::Nothing,
    }
}

/// The request for what the service says of itself.
pub fn fetch_api_metadata(api_base: &str) -> (request: Request)
    ensures
        request.deep_view() == metadata_request(api_base@),
{
    Request {
        method: Method::Get,
        url: join_url(api_base, "/v1/meta"),
        authorization: None,
        payload: Payload::Nothing,
    }
}

/// What the service says of itself, if that could be had.
pub fn read_api_metadata(reply: Reply<ApiMetadata>) -> (metadata: Option<ApiMetadata>)
    ensures
        metadata.deep_view() == (match reply.deep_view() {
            Reply::Accepted(metadata) => Some(metadata),
            _ => None,
        }),
{
    match reply {
        Reply::Accepted(metadata) => Some(metadata),
        _ => None,
    }
}

fn failed(message: String) -> (state: Login)
    ensures
        state.deep_view() == (Login::Failed { message: message@ }),
{
    Login::Failed { message }
}

fn go_on_with_api_base(plan: LoginPlan, api_base: String) -> (state: Login)
    ensures
        state.deep_view() == with_api_base(plan.deep_view(), api_base@),
{
    let mode = match resolve_login_mode(plan.auth_flag, &plan.token_flag, &plan.env_token) {
        Ok(mode) => mode,
        Err(message) => return failed(message),
    };
    let new_password = match plan.new_password_flag {
        None => None,
        Some(value) => match require_text(value.as_str(), NEW_PASSWORD_EMPTY) {
            Ok(value) => Some(value),
            Err(message) => return failed(message),
        },
    };
    let requested = match parse_token_storage_input(plan.token_storage_flag) {
        Ok(requested) => requested,
        Err(message) => return failed(message),
    };
    let token = match plan.token_flag {
        Some(token) => Some(token),
        None => plan.env_token,
    };
    let job = LoginJob {
        api_base,
        mode,
        token,
        new_password,
        username: plan.username,
        password: plan.password,
        interactive: plan.interactive,
    };
    match resolve_token_storage_preference(requested, plan.interactive) {
        Selected::Known(storage) => go_on_with_storage(job, storage),
        Selected::Choose { marked } => Login::ChooseStorage { job, marked },
    }
}

fn go_on_with_storage(job: LoginJob, storage: TokenStorage) -> (state: Login)
    ensures
        state.deep_view() == with_storage(job.deep_view(), storage),
{
    match job.mode {
        AuthType::CloudflareAdmin => if job.new_password.is_some() {
            failed(NEW_PASSWORD_WITH_TOKEN.to_string())
        } else {
            Login::FetchMetadata { job, storage }
        },
        AuthType::ServiceSession => {
            if job.token.is_some() {
                return failed(TOKEN_WITHOUT_ADMIN.to_string());
            }
            let LoginJob { api_base, mode, token, new_password, username, password, interactive } =
                job;
            match username {
                Resolved::Known(name) => {
                    let job = LoginJob {
                        api_base,
                        mode,
                        token,
                        new_password,
                        username: Resolved::Known(name.clone()),
                        password,
                        interactive,
                    };
                    go_on_with_username(job, storage, name)
                },
                Resolved::Ask(question) => {
                    let asked = question.copy();
                    let job = LoginJob {
                        api_base,
                        mode,
                        token,
                        new_password,
                        username: Resolved::Ask(question),
                        password,
                        interactive,
                    };
                    Login::AskUsername { job, storage, question: asked }
                },
                Resolved::Refused(message) => failed(message),
            }
        },
    }
}

fn go_on_with_username(job: LoginJob, storage: TokenStorage, username: String) -> (state: Login)
    ensures
        state.deep_view() == with_username(job.deep_view(), storage, username@),
{
    match &job.password {
        Resolved::Known(password) => {
            let password = password.clone();
            Login::SignIn { job, storage, username, password }
        },
        Resolved::Ask(question) => {
            let question = question.copy();
            Login::AskPassword { job, storage, username, question }
        },
        Resolved::Refused(message) => failed(message.clone()),
    }
}

fn go_on_with_token(api_base: String, storage: TokenStorage, token: String) -> (state: Login)
    ensures
        state.deep_view() == with_token(api_base@, storage, token@),
{
    match auth_headers(token.as_str()) {
        Ok(authorization) => Login::Verify { api_base, storage, token, authorization },
        Err(message) => failed(message),
    }
}

fn ask_for_token(
    api_base: String,
    storage: TokenStorage,
    metadata: Option<ApiMetadata>,
) -> (state: Login)
    ensures
        state.deep_view() == (Login::AskToken {
            api_base: api_base@,
            storage,
            question: token_question(metadata.deep_view()),
        }),
{
    let stated = match metadata {
        Some(metadata) => read_string_opt(metadata.token_creation_url.as_ref()),
        None => None,
    };
    let url = match stated {
        Some(url) => url,
        None => GENERIC_TOKEN_DASHBOARD_URL.to_string(),
    };
    let mut guidance = "Create a Cloudflare API token if you do not have one:\n".to_string();
    guidance.append(url.as_str());
    Login::AskToken {
        api_base,
        storage,
        question: Question {
            guidance: Some(guidance),
            label: "Cloudflare API token".to_string(),
            default_value: None,
            kind: AnswerKind::Anything,
        },
    }
}

fn go_on_when_verified(
    api_base: String,
    storage: TokenStorage,
    token: String,
    reply: Reply<Option<String>>,
) -> (state: Login)
    ensures
        state.deep_view() == with_verified(api_base@, storage, token@, reply.deep_view()),
{
    match accept_reply(reply, "login") {
        Err(message) => failed(message),
        Ok(actor) => {
            let actor = read_string_opt(actor.as_ref());
            match storage {
                TokenStorage::Keychain => Login::KeepToken { api_base, token, holder: actor },
                TokenStorage::File => go_on_to_save_admin(
                    api_base,
                    token,
                    actor,
                    TokenStorage::File,
                ),
            }
        },
    }
}

fn go_on_to_save_admin(
    api_base: String,
    token: String,
    actor: Option<String>,
    kept: TokenStorage,
) -> (state: Login)
    ensures
        state.deep_view() == save_admin(api_base@, token@, actor.deep_view(), kept),
{
    let shown = match &actor {
        Some(actor) => actor.clone(),
        None => "cloudflare-admin".to_string(),
    };
    Login::Save {
        config: persist_admin_auth(api_base.as_str(), token.as_str(), actor, kept),
        actor: shown,
    }
}

fn go_on_with_login(
    job: LoginJob,
    storage: TokenStorage,
    username: String,
    password: String,
    reply: Reply<ServiceLoginResponse>,
) -> (state: Login)
    ensures
        state.deep_view() == with_login(
            job.deep_view(),
            storage,
            username@,
            password@,
            reply.deep_view(),
        ),
{
    let login = match login_with_service_session(reply, username.as_str()) {
        Ok(login) => login,
        Err(message) => return failed(message),
    };
    if !login.must_change_password {
        return go_on_to_keep_session(job.api_base, storage, username, login);
    }
    match resolve_login_new_password(job.new_password, job.interactive) {
        Resolved::Known(new_password) => go_on_with_new_password(
            job.api_base,
            storage,
            username,
            password,
            login.access_token,
            new_password,
        ),
        Resolved::Ask(question) => Login::AskNewPassword {
            api_base: job.api_base,
            storage,
            username,
            password,
            token: login.access_token,
            question,
        },
        Resolved::Refused(message) => failed(message),
    }
}

fn go_on_with_new_password(
    api_base: String,
    storage: TokenStorage,
    username: String,
    password: String,
    token: String,
    new_password: String,
) -> (state: Login)
    ensures
        state.deep_view() == with_new_password(
            api_base@,
            storage,
            username@,
            password@,
            token@,
            new_password@,
        ),
{
    match build_change_password_request(
        api_base.as_str(),
        token.as_str(),
        password.as_str(),
        new_password.as_str(),
    ) {
        Ok(request) => Login::ChangePassword { api_base, storage, username, new_password, request },
        Err(message) => failed(message),
    }
}

fn go_on_with_second_login(
    api_base: String,
    storage: TokenStorage,
    username: String,
    reply: Reply<ServiceLoginResponse>,
) -> (state: Login)
    ensures
        state.deep_view() == with_second_login(api_base@, storage, username@, reply.deep_view()),
{
    match login_with_service_session(reply, username.as_str()) {
        Err(message) => failed(message),
        Ok(login) => if login.must_change_password {
            failed(STILL_DUE.to_string())
        } else {
            Login::Announce { api_base, storage, username, login }
        },
    }
}

fn go_on_to_keep_session(
    api_base: String,
    storage: TokenStorage,
    username: String,
    login: ResolvedServiceLogin,
) -> (state: Login)
    ensures
        state.deep_view() == keep_session(api_base@, storage, username@, login.deep_view()),
{
    match storage {
        TokenStorage::Keychain => Login::KeepSession { api_base, username, login },
        TokenStorage::File => go_on_to_save_session(
            api_base,
            username,
            login,
            TokenStorage::File,
        ),
    }
}

fn go_on_to_save_session(
    api_base: String,
    username: String,
    login: ResolvedServiceLogin,
    kept: TokenStorage,
) -> (state: Login)
    ensures
        state.deep_view() == save_session(api_base@, username@, login.deep_view(), kept),
{
    Login::Save {
        config: persist_service_session_auth(
            api_base.as_str(),
            &login,
            kept,
            username.as_str(),
        ),
        actor: login.actor,
    }
}

impl Login {
    /// Starts a login.
    pub fn start(args: &[String], env: &Environment, stored_api_base: Option<&String>) -> (state:
        Login)
        ensures
            state.deep_view() == login_start(
                args.deep_view(),
                env.deep_view(),
                stored_api_base.deep_view(),
            ),
    {
        let plan = LoginPlan {
            auth_flag: read_flag(args, "--auth"),
            token_flag: read_flag(args, "--token"),
            env_token: read_string_opt(env.token.as_ref()),
            new_password_flag: read_flag(args, "--new-password"),
            token_storage_flag: read_flag(args, "--token-storage"),
            username: resolve_username(args, env.username.as_ref(), env.interactive),
            password: resolve_password(args, env.password.as_ref()),
            interactive: env.interactive,
        };
        match resolve_api_base(args, env.api_base.as_ref(), stored_api_base, env.interactive) {
            Resolved::Known(api_base) => go_on_with_api_base(plan, api_base),
            Resolved::Ask(question) => Login::AskApiBase { plan, question },
            Resolved::Refused(message) => failed(message),
        }
    }

    /// What the login asks to be done.
    pub fn action(&self) -> (action: Action)
        ensures
            action.deep_view() == login_action(self.deep_view()),
    {
        match self {
            Login::AskApiBase { question, .. } => Action::Ask(question.copy()),
            Login::ChooseStorage { marked, .. } => Action::Choose {
                choice: Choice::TokenStorage,
                marked: *marked,
            },
            Login::FetchMetadata { job, .. } => Action::FetchMetadata(
                fetch_api_metadata(job.api_base.as_str()),
            ),
            Login::AskToken { question, .. } => Action::Ask(question.copy()),
            Login::Verify { api_base, authorization, .. } => Action::Verify(
                Request {
                    method: Method::Post,
                    url: join_url(api_base.as_str(), "/v1/auth/verify"),
                    authorization: Some(authorization.clone()),
                    payload: Payload::Nothing,
                },
            ),
            Login::KeepToken { token, .. } => Action::StoreInKeychain(token.clone()),
            Login::AskUsername { question, .. } => Action::Ask(question.copy()),
            Login::AskPassword { question, .. } => Action::Ask(question.copy()),
            Login::SignIn { job, username, password, .. } => Action::SignIn(
                build_login_request(job.api_base.as_str(), username.as_str(), password.as_str()),
            ),
            Login::AskNewPassword { question, .. } => Action::Ask(question.copy()),
            Login::ChangePassword { request, .. } => Action::ChangePassword(request.copy()),
            Login::SignInAgain { api_base, username, new_password, .. } => Action::SignIn(
                build_login_request(api_base.as_str(), username.as_str(), new_password.as_str()),
            ),
            Login::Announce { .. } => Action::Say("password updated".to_string()),
            Login::KeepSession { login, .. } => Action::StoreInKeychain(login.access_token.clone()),
            Login::Save { config, .. } => Action::SaveConfig(config.copy()),
            Login::Finished { actor } => {
                let mut line = "logged in as ".to_string();
                line.append(actor.as_str());
                Action::Finish(line)
            },
            Login::Failed { message } => Action::Fail(message.clone()),
        }
    }

    /// Goes on with what an action came to.
    pub fn next(self, event: Event) -> (state: Login)
        ensures
            state.deep_view() == login_next(self.deep_view(), event.deep_view()),
    {
        match (self, event) {
            (Login::AskApiBase { plan, .. }, Event::Answered(api_base)) => go_on_with_api_base(
                plan,
                api_base,
            ),
            (Login::ChooseStorage { job, marked }, Event::Chosen(option)) => match chosen_storage(
                option,
            ) {
                Some(storage) => go_on_with_storage(job, storage),
                None => Login::ChooseStorage { job, marked },
            },
            (Login::FetchMetadata { job, storage }, Event::Metadata(metadata)) => match job.token {
                Some(token) => go_on_with_token(job.api_base, storage, token),
                None => ask_for_token(job.api_base, storage, metadata),
            },
            (Login::AskToken { api_base, storage, .. }, Event::Answered(token)) => go_on_with_token(
                api_base,
                storage,
                token,
            ),
            (
                Login::Verify { api_base, storage, token, .. },
                Event::Verified(reply),
            ) => go_on_when_verified(api_base, storage, token, reply),
            (Login::KeepToken { api_base, token, holder }, Event::Kept(write)) => match persist_token(
                TokenStorage::Keychain,
                write,
            ) {
                Ok(kept) => go_on_to_save_admin(api_base, token, holder, kept),
                Err(message) => failed(message),
            },
            (
                Login::AskUsername { job, storage, .. },
                Event::Answered(username),
            ) => go_on_with_username(job, storage, username),
            (
                Login::AskPassword { job, storage, username, .. },
                Event::Answered(password),
            ) => Login::SignIn { job, storage, username, password },
            (
                Login::SignIn { job, storage, username, password },
                Event::SignedIn(reply),
            ) => go_on_with_login(job, storage, username, password, reply),
            (
                Login::AskNewPassword { api_base, storage, username, password, token, .. },
                Event::Answered(new_password),
            ) => go_on_with_new_password(
                api_base,
                storage,
                username,
                password,
                token,
                new_password,
            ),
            (
                Login::ChangePassword { api_base, storage, username, new_password, .. },
                Event::Changed(reply),
            ) => match change_service_session_password(reply) {
                Ok(()) => Login::SignInAgain { api_base, storage, username, new_password },
                Err(message) => failed(message),
            },
            (
                Login::SignInAgain { api_base, storage, username, .. },
                Event::SignedIn(reply),
            ) => go_on_with_second_login(api_base, storage, username, reply),
            (
                Login::Announce { api_base, storage, username, login },
                Event::Done,
            ) => go_on_to_keep_session(api_base, storage, username, login),
            (
                Login::KeepSession { api_base, username, login },
                Event::Kept(write),
            ) => match persist_token(TokenStorage::Keychain, write) {
                Ok(kept) => go_on_to_save_session(api_base, username, login, kept),
                Err(message) => failed(message),
            },
            (Login::Save { actor, .. }, Event::Done) => Login::Finished { actor },
            (Login::Finished { actor }, _) => Login::Finished { actor },
            (Login::Failed { message }, _) => Login::Failed { message },
            (_, Event::Failed(message)) => failed(message),
            (state, _) => state,
        }
    }
}

/// What a series of events makes of a login in progress.
pub open spec fn login_run(state: Login<Seq<char>>, events: Seq<Event<Seq<char>>>) -> Login<Seq<char>>
    decreases events.len(),
{
    if events.len() == 0 {
        state
    } else {
        login_next(login_run(state, events.drop_last()), events.last())
    }
}

/// How many events of a series the login in progress goes on with.
pub open spec fn login_steps(state: Login<Seq<char>>, events: Seq<Event<Seq<char>>>) -> nat
    decreases events.len(),
{
    if events.len() == 0 {
        0
    } else {
        let before = login_run(state, events.drop_last());
        login_steps(state, events.drop_last()) + if login_next(before, events.last()) == before {
            0nat
        } else {
            1nat
        }
    }
}

/// How far a login has come.
pub open spec fn login_rank(state: Login<Seq<char>>) -> nat {
    match state {
        Login::AskApiBase { .. } => 0,
        Login::ChooseStorage { .. } => 1,
        Login::FetchMetadata { .. } => 2,
        Login::AskToken { .. } => 3,
        Login::Verify { .. } => 4,
        Login::KeepToken { .. } => 5,
        Login::AskUsername { .. } => 2,
        Login::AskPassword { .. } => 3,
        Login::SignIn { .. } => 4,
        Login::AskNewPassword { .. } => 5,
        Login::ChangePassword { .. } => 6,
        Login::SignInAgain { .. } => 7,
        Login::Announce { .. } => 8,
        Login::KeepSession { .. } => 9,
        Login::Save { .. } => 10,
        Login::Finished { .. } => 11,
        Login::Failed { .. } => 11,
    }
}

/// A login only goes forward, and is over after eleven steps at most.
pub proof fn law_login_goes_forward(state: Login<Seq<char>>, events: Seq<Event<Seq<char>>>)
    ensures
        forall|event: Event<Seq<char>>| #[trigger]
            login_next(state, event) == state || login_rank(login_next(state, event)) > login_rank(
                state,
            ),
        login_rank(login_run(state, events)) >= login_rank(state) + login_steps(state, events),
        login_steps(state, events) <= 11,
    decreases events.len(),
{
    if events.len() > 0 {
        law_login_goes_forward(state, events.drop_last());
        let before = login_run(state, events.drop_last());
        law_login_step_goes_forward(before, events.last());
    }
    assert forall|event: Event<Seq<char>>| #[trigger]
        login_next(state, event) == state || login_rank(login_next(state, event)) > login_rank(
            state,
        ) by {
        law_login_step_goes_forward(state, event);
    }
}

proof fn lemma_rank_with_api_base(plan: LoginPlan<Seq<char>>, api_base: Seq<char>)
    ensures
        login_rank(with_api_base(plan, api_base)) > 0,
{
}

proof fn lemma_rank_with_storage(job: LoginJob<Seq<char>>, storage: TokenStorage)
    ensures
        login_rank(with_storage(job, storage)) > 1,
{
}

proof fn lemma_rank_with_username(
    job: LoginJob<Seq<char>>,
    storage: TokenStorage,
    username: Seq<char>,
)
    ensures
        login_rank(with_username(job, storage, username)) > 2,
{
}

proof fn lemma_rank_with_login(
    job: LoginJob<Seq<char>>,
    storage: TokenStorage,
    username: Seq<char>,
    password: Seq<char>,
    reply: Reply<ServiceLoginResponse<Seq<char>>, Seq<char>>,
)
    ensures
        login_rank(with_login(job, storage, username, password, reply)) > 4,
{
}

proof fn lemma_rank_with_second_login(
    api_base: Seq<char>,
    storage: TokenStorage,
    username: Seq<char>,
    reply: Reply<ServiceLoginResponse<Seq<char>>, Seq<char>>,
)
    ensures
        login_rank(with_second_login(api_base, storage, username, reply)) > 7,
{
}

/// Every event that a login waits for takes it forward.
#[verifier::spinoff_prover]
#[verifier::rlimit(40)]
pub proof fn law_login_step_goes_forward(state: Login<Seq<char>>, event: Event<Seq<char>>)
    ensures
        login_next(state, event) == state || login_rank(login_next(state, event)) > login_rank(state),
{
    match (state, event) {
        (Login::AskApiBase { plan, question }, Event::Answered(api_base)) => {
            lemma_rank_with_api_base(plan, api_base);
        },
        (Login::ChooseStorage { job, marked }, Event::Chosen(option)) => {
            lemma_rank_with_storage(job, TokenStorage::File);
            lemma_rank_with_storage(job, TokenStorage::Keychain);
        },
        (Login::AskUsername { job, storage, question }, Event::Answered(username)) => {
            lemma_rank_with_username(job, storage, username);
        },
        (Login::SignIn { job, storage, username, password }, Event::SignedIn(reply)) => {
            lemma_rank_with_login(job, storage, username, password, reply);
        },
        (Login::SignInAgain { api_base, storage, username, new_password }, Event::SignedIn(reply)) => {
            lemma_rank_with_second_login(api_base, storage, username, reply);
        },
        _ => {},
    }
}

/// What a login has left behind it does not come back to: it verifies a token, changes a
/// password and writes the configuration once at most.
pub proof fn law_login_never_comes_back(
    state: Login<Seq<char>>,
    events: Seq<Event<Seq<char>>>,
    i: int,
    j: int,
)
    requires
        0 <= i <= j <= events.len(),
    ensures
        ({
            let earlier = login_run(state, events.take(i));
            let later = login_run(state, events.take(j));
            later == earlier || login_rank(later) > login_rank(earlier)
        }),
    decreases j,
{
    if i < j {
        law_login_never_comes_back(state, events, i, j - 1);
        assert(events.take(j).drop_last() =~= events.take(j - 1));
        law_login_step_goes_forward(login_run(state, events.take(j - 1)), events[j - 1]);
    }
}

/// What is over stays as it is.
pub proof fn law_finished_login_stays(state: Login<Seq<char>>, event: Event<Seq<char>>)
    requires
        state is Finished || state is Failed,
    ensures
        login_next(state, event) == state,
{
}

/// An answer of the service that grants a login.
pub open spec fn grants_login(event: Event<Seq<char>>) -> bool {
    match event {
        Event::Verified(reply) => reply is Accepted,
        Event::SignedIn(reply) => reply is Accepted,
        _ => false,
    }
}

/// A login that the service has granted.
pub open spec fn is_granted(state: Login<Seq<char>>) -> bool {
    match state {
        Login::KeepToken { .. } => true,
        Login::Announce { .. } => true,
        Login::KeepSession { .. } => true,
        Login::Save { .. } => true,
        Login::Finished { .. } => true,
        _ => false,
    }
}

/// Nothing is kept, written down or reported as a login unless the service granted it.
pub proof fn law_login_is_saved_only_when_granted(
    args: Seq<Seq<char>>,
    env: Environment<Seq<char>>,
    stored_api_base: Option<Seq<char>>,
    events: Seq<Event<Seq<char>>>,
)
    requires
        is_granted(login_run(login_start(args, env, stored_api_base), events)),
    ensures
        exists|i: int| 0 <= i < events.len() && grants_login(#[trigger] events[i]),
    decreases events.len(),
{
    let start = login_start(args, env, stored_api_base);
    if events.len() > 0 {
        let before = login_run(start, events.drop_last());
        if is_granted(before) {
            law_login_is_saved_only_when_granted(args, env, stored_api_base, events.drop_last());
            let i = choose|i: int|
                0 <= i < events.drop_last().len() && grants_login(#[trigger] events.drop_last()[i]);
            assert(events[i] == events.drop_last()[i]);
        } else {
            assert(grants_login(events[events.len() - 1]));
        }
    }
}

/// What a login may write down: a login that can be used as it is, whose token stands in the
/// file only if it is kept there.
pub open spec fn is_usable_login(config: StoredConfig<Seq<char>>) -> bool {
    &&& !password_change_due(config)
    &&& config.auth matches Some(auth) && auth.token_storage matches Some(kept) && (auth.access_token is Some
        <==> kept == TokenStorage::File)
    &&& config.token is Some ==> crate::config::stored_token_storage(config) == Some(
        TokenStorage::File,
    )
}

/// Whatever happens, a login writes nothing down but a login that can be used as it is.
pub proof fn law_saved_login_is_usable(
    args: Seq<Seq<char>>,
    env: Environment<Seq<char>>,
    stored_api_base: Option<Seq<char>>,
    events: Seq<Event<Seq<char>>>,
)
    ensures
        login_action(login_run(login_start(args, env, stored_api_base), events)) matches Action::SaveConfig(config)
            ==> is_usable_login(config),
    decreases events.len(),
{
    if events.len() > 0 {
        law_saved_login_is_usable(args, env, stored_api_base, events.drop_last());
    }
}

/// Where the service asks for a change of password and a new one was given, the change is made
/// with the token of the first login, and the second login is made with the new password.
pub proof fn law_required_password_change_is_made(
    job: LoginJob<Seq<char>>,
    storage: TokenStorage,
    username: Seq<char>,
    password: Seq<char>,
    new_password: Seq<char>,
    response: ServiceLoginResponse<Seq<char>>,
    login: ResolvedServiceLogin<Seq<char>>,
    request: Request<Seq<char>>,
)
    requires
        job.new_password == Some(new_password),
        crate::session::granted_login(response, username) == Ok::<
            ResolvedServiceLogin<Seq<char>>,
            Seq<char>,
        >(login),
        login.must_change_password,
        change_password_request(job.api_base, login.access_token, password, new_password) == Ok::<
            Request<Seq<char>>,
            Seq<char>,
        >(request),
    ensures
        ({
            let first = Login::SignIn { job, storage, username, password };
            let second = login_next(first, Event::SignedIn(Reply::Accepted(response)));
            let third = login_next(second, Event::Changed(Reply::Accepted(())));
            &&& login_action(second) == Action::ChangePassword(request)
            &&& login_action(third) == Action::SignIn(
                login_request(job.api_base, username, new_password),
            )
        }),
{
}

} // verus!
