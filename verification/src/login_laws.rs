//! What a login does with what it is given: the command line, the environment, and the answers.
use crate::address::{api_base_from, bearer_header};
use crate::args::{cleaned, cleaned_opt, either, flag_value, value_or};
use crate::config::{login_mode, AuthType, StoredConfig, TokenStorage};
use crate::http::{Method, Payload, Reply};
use crate::login::{
    login_action, login_next, login_plan, login_run, login_start, Login, LoginJob,
};
use crate::resolve::{password_setting, username_setting, Resolved};
use crate::session::{granted_login, ResolvedServiceLogin, ServiceLoginResponse};
use crate::talk::{Action, Environment, Event};
use crate::text::{lowercase, trimmed};
use vstd::prelude::*;

verus! {

/// What a login was told: by the user in answer to its questions, and by the service.
#[derive(Debug, PartialEq, Eq)]
pub struct Told<T = String> {
    /// The answer to the question `API base URL`.
    pub api_base: Option<T>,
    /// The answer to the question `Username`.
    pub username: Option<T>,
    /// The answer to the question `Password`.
    pub password: Option<T>,
    /// The answer to the question `New password`.
    pub new_password: Option<T>,
    /// The answer to the question `Cloudflare API token`.
    pub token: Option<T>,
    /// The option that was chosen.
    pub option: Option<usize>,
    /// What the service said last to a login with a password that it granted.
    pub response: Option<ServiceLoginResponse<T>>,
    /// Who the service said holds a token that it accepted.
    pub holder: Option<Option<T>>,
    /// Whether the service has changed the password.
    pub changed: bool,
}

/// Nothing was told yet.
pub open spec fn told_nothing() -> Told<Seq<char>> {
    Told {
        api_base: None,
        username: None,
        password: None,
        new_password: None,
        token: None,
        option: None,
        response: None,
        holder: None,
        changed: false,
    }
}

/// What is known to have been told when an event answers what was asked for.
pub open spec fn told_next(
    told: Told<Seq<char>>,
    asked: Action<Seq<char>>,
    event: Event<Seq<char>>,
) -> Told<Seq<char>> {
    match (asked, event) {
        (Action::Ask(question), Event::Answered(answer)) => if question.label == "API base URL"@ {
            Told { api_base: Some(answer), ..told }
        } else if question.label == "Username"@ {
            Told { username: Some(answer), ..told }
        } else if question.label == "Password"@ {
            Told { password: Some(answer), ..told }
        } else if question.label == "New password"@ {
            Told { new_password: Some(answer), ..told }
        } else if question.label == "Cloudflare API token"@ {
            Told { token: Some(answer), ..told }
        } else {
            told
        },
        (Action::Choose { choice, marked }, Event::Chosen(option)) => Told {
            option: Some(option),
            ..told
        },
        (Action::SignIn(_), Event::SignedIn(Reply::Accepted(response))) => Told {
            response: Some(response),
            ..told
        },
        (Action::Verify(_), Event::Verified(Reply::Accepted(holder))) => Told {
            holder: Some(holder),
            ..told
        },
        (Action::ChangePassword(_), Event::Changed(Reply::Accepted(_))) => Told {
            changed: true,
            ..told
        },
        _ => told,
    }
}

/// What a login was told by a series of events.
pub open spec fn told(start: Login<Seq<char>>, events: Seq<Event<Seq<char>>>) -> Told<Seq<char>>
    decreases events.len(),
{
    if events.len() == 0 {
        told_nothing()
    } else {
        told_next(
            told(start, events.drop_last()),
            login_action(login_run(start, events.drop_last())),
            events.last(),
        )
    }
}

/// Whether `base` is the base URL that was given: by the flag `--api-base`, else by the
/// environment, else by what is stored, else by the user.
pub open spec fn is_given_base(
    args: Seq<Seq<char>>,
    env: Environment<Seq<char>>,
    stored_api_base: Option<Seq<char>>,
    answer: Option<Seq<char>>,
    base: Seq<char>,
) -> bool {
    match flag_value(args, "--api-base"@) {
        Some(value) => api_base_from(value) == Ok::<Seq<char>, Seq<char>>(base),
        None => match cleaned_opt(env.api_base) {
            Some(value) => api_base_from(value) == Ok::<Seq<char>, Seq<char>>(base),
            None => match stored_api_base {
                Some(value) => api_base_from(value) == Ok::<Seq<char>, Seq<char>>(base),
                None => answer == Some(base),
            },
        },
    }
}

/// The user name that was given: by the flag, else by the environment, else by the user.
pub open spec fn given_username(
    args: Seq<Seq<char>>,
    env: Environment<Seq<char>>,
    told: Told<Seq<char>>,
) -> Option<Seq<char>> {
    either(
        cleaned_opt(flag_value(args, "--username"@)),
        either(cleaned_opt(env.username), told.username),
    )
}

/// The password that was given: by the flag, else by the environment, else by the user.
pub open spec fn given_password(
    args: Seq<Seq<char>>,
    env: Environment<Seq<char>>,
    told: Told<Seq<char>>,
) -> Option<Seq<char>> {
    either(flag_value(args, "--password"@), either(env.password, told.password))
}

/// The new password that was given: by the flag, else by the user.
pub open spec fn given_new_password(args: Seq<Seq<char>>, told: Told<Seq<char>>) -> Option<
    Seq<char>,
> {
    either(flag_value(args, "--new-password"@), told.new_password)
}

/// The token that was given: by the flag, else by the environment, else by the user.
pub open spec fn given_token(
    args: Seq<Seq<char>>,
    env: Environment<Seq<char>>,
    told: Told<Seq<char>>,
) -> Option<Seq<char>> {
    either(flag_value(args, "--token"@), either(cleaned_opt(env.token), told.token))
}

/// Where the token is wanted: as the flag says, else as a user who is there chose, else in the
/// file.
pub open spec fn wanted_storage(
    args: Seq<Seq<char>>,
    env: Environment<Seq<char>>,
    told: Told<Seq<char>>,
) -> Option<TokenStorage> {
    match flag_value(args, "--token-storage"@) {
        Some(value) => if lowercase(trimmed(value)) == "file"@ {
            Some(TokenStorage::File)
        } else if lowercase(trimmed(value)) == "keychain"@ {
            Some(TokenStorage::Keychain)
        } else {
            None
        },
        None => if !env.interactive {
            Some(TokenStorage::File)
        } else if told.option == Some(0usize) {
            Some(TokenStorage::File)
        } else if told.option == Some(1usize) {
            Some(TokenStorage::Keychain)
        } else {
            None
        },
    }
}

/// What is written down of a login with a password: the base URL and the service's answer, with
/// the token only where it is kept in the file.
pub open spec fn is_kept_session(
    config: StoredConfig<Seq<char>>,
    base: Seq<char>,
    username: Seq<char>,
    response: ServiceLoginResponse<Seq<char>>,
    storage: TokenStorage,
) -> bool {
    &&& config.api_base == base
    &&& config.token is None
    &&& config.token_storage is None
    &&& config.auth matches Some(auth) && {
        &&& auth.auth_type == AuthType::ServiceSession
        &&& auth.token_storage == Some(storage)
        &&& storage == TokenStorage::File ==> auth.access_token == cleaned_opt(
            response.access_token,
        ) && auth.access_token is Some
        &&& storage == TokenStorage::Keychain ==> auth.access_token is None
        &&& cleaned_opt(response.username) matches Some(name) ==> auth.username == Some(name)
        &&& cleaned_opt(response.username) is None ==> auth.username == Some(
            value_or(cleaned(username), username),
        )
        &&& cleaned_opt(response.actor) matches Some(actor) ==> auth.actor == Some(actor)
        &&& cleaned_opt(response.actor) is None ==> auth.actor == Some(
            value_or(cleaned_opt(response.username), username),
        )
        &&& auth.role == cleaned_opt(response.role)
        &&& auth.must_change_password == Some(false)
    }
}

/// What is written down of a login with a token: the base URL, who holds the token, and the
/// token only where it is kept in the file.
pub open spec fn is_kept_token(
    config: StoredConfig<Seq<char>>,
    base: Seq<char>,
    token: Seq<char>,
    holder: Option<Seq<char>>,
    storage: TokenStorage,
) -> bool {
    &&& config.api_base == base
    &&& config.token_storage == Some(storage)
    &&& storage == TokenStorage::File ==> config.token == Some(token)
    &&& storage == TokenStorage::Keychain ==> config.token is None
    &&& config.auth matches Some(auth) && {
        &&& auth.auth_type == AuthType::CloudflareAdmin
        &&& auth.token_storage == Some(storage)
        &&& auth.access_token == config.token
        &&& auth.actor == cleaned_opt(holder)
        &&& auth.username is None
        &&& auth.role is None
        &&& auth.must_change_password is None
    }
}

/// What a login waits for, and what it holds of what it was given.
spec fn is_faithful(
    args: Seq<Seq<char>>,
    env: Environment<Seq<char>>,
    stored: Option<Seq<char>>,
    told: Told<Seq<char>>,
    state: Login<Seq<char>>,
) -> bool {
    match state {
        Login::AskApiBase { plan, question } => {
            &&& plan == login_plan(args, env)
            &&& question.label == "API base URL"@
            &&& flag_value(args, "--api-base"@) is None
            &&& cleaned_opt(env.api_base) is None
            &&& stored is None
            &&& told == told_nothing()
        },
        Login::ChooseStorage { job, marked } => {
            &&& is_faithful_job(args, env, stored, told, job)
            &&& flag_value(args, "--token-storage"@) is None
            &&& env.interactive
            &&& has_no_reply(told)
        },
        Login::FetchMetadata { job, storage } => {
            &&& is_faithful_job(args, env, stored, told, job)
            &&& wanted_storage(args, env, told) == Some(storage)
            &&& job.mode == AuthType::CloudflareAdmin
            &&& has_no_reply(told)
        },
        Login::AskToken { api_base, storage, question } => {
            &&& is_given_base(args, env, stored, told.api_base, api_base)
            &&& wanted_storage(args, env, told) == Some(storage)
            &&& flag_value(args, "--token"@) is None
            &&& cleaned_opt(env.token) is None
            &&& question.label == "Cloudflare API token"@
            &&& is_mode(args, env, AuthType::CloudflareAdmin)
            &&& has_no_reply(told)
        },
        Login::Verify { api_base, storage, token, authorization } => {
            &&& is_given_base(args, env, stored, told.api_base, api_base)
            &&& wanted_storage(args, env, told) == Some(storage)
            &&& given_token(args, env, told) == Some(token)
            &&& bearer_header(token) == Ok::<Seq<char>, Seq<char>>(authorization)
            &&& is_mode(args, env, AuthType::CloudflareAdmin)
            &&& has_no_reply(told)
        },
        Login::KeepToken { api_base, token, holder } => {
            &&& is_given_base(args, env, stored, told.api_base, api_base)
            &&& wanted_storage(args, env, told) == Some(TokenStorage::Keychain)
            &&& given_token(args, env, told) == Some(token)
            &&& told.holder matches Some(name) && cleaned_opt(name) == holder
            &&& is_mode(args, env, AuthType::CloudflareAdmin)
        },
        Login::AskUsername { job, storage, question } => {
            &&& is_faithful_job(args, env, stored, told, job)
            &&& wanted_storage(args, env, told) == Some(storage)
            &&& job.mode == AuthType::ServiceSession
            &&& job.username == Resolved::Ask(question)
            &&& has_no_reply(told)
        },
        Login::AskPassword { job, storage, username, question } => {
            &&& is_faithful_job(args, env, stored, told, job)
            &&& wanted_storage(args, env, told) == Some(storage)
            &&& job.mode == AuthType::ServiceSession
            &&& given_username(args, env, told) == Some(username)
            &&& job.password == Resolved::Ask(question)
            &&& has_no_reply(told)
        },
        Login::SignIn { job, storage, username, password } => {
            &&& is_faithful_job(args, env, stored, told, job)
            &&& wanted_storage(args, env, told) == Some(storage)
            &&& job.mode == AuthType::ServiceSession
            &&& given_username(args, env, told) == Some(username)
            &&& given_password(args, env, told) == Some(password)
            &&& has_no_reply(told)
        },
        Login::AskNewPassword { api_base, storage, username, password, token, question } => {
            &&& is_session(args, env, stored, told, api_base, storage, username)
            &&& given_password(args, env, told) == Some(password)
            &&& told.response matches Some(response) && cleaned_opt(response.access_token) == Some(
                token,
            )
            &&& flag_value(args, "--new-password"@) is None
            &&& question.label == "New password"@
            &&& !told.changed
        },
        Login::ChangePassword { api_base, storage, username, new_password, request } => {
            &&& is_session(args, env, stored, told, api_base, storage, username)
            &&& given_new_password(args, told) == Some(new_password)
            &&& told.response matches Some(response) && (cleaned_opt(response.access_token) matches Some(
                token,
            ) && (request.authorization matches Some(authorization) && bearer_header(token) == Ok::<
                Seq<char>,
                Seq<char>,
            >(authorization)))
            &&& request.method == Method::Post
            &&& request.url == api_base + "/v1/auth/change-password"@
            &&& request.payload matches Payload::ChangePassword {
                current_password,
                new_password: fresh,
            } && given_password(args, env, told) == Some(current_password) && fresh == new_password
            &&& !told.changed
        },
        Login::SignInAgain { api_base, storage, username, new_password } => {
            &&& is_session(args, env, stored, told, api_base, storage, username)
            &&& given_new_password(args, told) == Some(new_password)
            &&& told.changed
        },
        Login::Announce { api_base, storage, username, login } => {
            &&& is_session(args, env, stored, told, api_base, storage, username)
            &&& is_granted_to(told, username, login)
            &&& told.changed
        },
        Login::KeepSession { api_base, username, login } => {
            &&& is_session(args, env, stored, told, api_base, TokenStorage::Keychain, username)
            &&& is_granted_to(told, username, login)
        },
        Login::Save { config, actor } => is_saved(args, env, stored, told, config, actor),
        Login::Finished { actor } => was_saved(args, env, stored, told, actor),
        Login::Failed { message } => true,
    }
}

spec fn was_saved(
    args: Seq<Seq<char>>,
    env: Environment<Seq<char>>,
    stored: Option<Seq<char>>,
    told: Told<Seq<char>>,
    actor: Seq<char>,
) -> bool {
    exists|saved: StoredConfig<Seq<char>>| #[trigger]
        is_saved(args, env, stored, told, saved, actor)
}

spec fn has_no_reply(told: Told<Seq<char>>) -> bool {
    told.response is None && told.holder is None && !told.changed
}

spec fn is_mode(args: Seq<Seq<char>>, env: Environment<Seq<char>>, mode: AuthType) -> bool {
    login_mode(flag_value(args, "--auth"@), flag_value(args, "--token"@), cleaned_opt(env.token))
        == Ok::<AuthType, Seq<char>>(mode)
}

spec fn is_faithful_job(
    args: Seq<Seq<char>>,
    env: Environment<Seq<char>>,
    stored: Option<Seq<char>>,
    told: Told<Seq<char>>,
    job: LoginJob<Seq<char>>,
) -> bool {
    &&& is_given_base(args, env, stored, told.api_base, job.api_base)
    &&& is_mode(args, env, job.mode)
    &&& job.token == either(flag_value(args, "--token"@), cleaned_opt(env.token))
    &&& job.new_password == flag_value(args, "--new-password"@)
    &&& job.username == username_setting(args, env.username, env.interactive)
    &&& job.password == password_setting(args, env.password)
    &&& job.interactive == env.interactive
}

spec fn is_session(
    args: Seq<Seq<char>>,
    env: Environment<Seq<char>>,
    stored: Option<Seq<char>>,
    told: Told<Seq<char>>,
    api_base: Seq<char>,
    storage: TokenStorage,
    username: Seq<char>,
) -> bool {
    &&& is_given_base(args, env, stored, told.api_base, api_base)
    &&& wanted_storage(args, env, told) == Some(storage)
    &&& given_username(args, env, told) == Some(username)
    &&& is_mode(args, env, AuthType::ServiceSession)
    &&& told.holder is None
}

spec fn is_granted_to(
    told: Told<Seq<char>>,
    username: Seq<char>,
    login: ResolvedServiceLogin<Seq<char>>,
) -> bool {
    told.response matches Some(response) && granted_login(response, username) == Ok::<
        ResolvedServiceLogin<Seq<char>>,
        Seq<char>,
    >(login)
}

/// What a login that is over has written down, and for whom.
pub open spec fn is_saved(
    args: Seq<Seq<char>>,
    env: Environment<Seq<char>>,
    stored: Option<Seq<char>>,
    told: Told<Seq<char>>,
    config: StoredConfig<Seq<char>>,
    actor: Seq<char>,
) -> bool {
    &&& is_given_base(args, env, stored, told.api_base, config.api_base)
    &&& wanted_storage(args, env, told) matches Some(storage) && (match told.holder {
        Some(holder) => {
            &&& given_token(args, env, told) matches Some(token) && is_kept_token(
                config,
                config.api_base,
                token,
                holder,
                storage,
            )
            &&& cleaned_opt(holder) matches Some(name) ==> actor == name
            &&& cleaned_opt(holder) is None ==> actor == "cloudflare-admin"@
        },
        None => {
            &&& given_username(args, env, told) matches Some(username) && (
            told.response matches Some(response) && (is_kept_session(
                config,
                config.api_base,
                username,
                response,
                storage,
            ) && actor == value_or(
                cleaned_opt(response.actor),
                value_or(cleaned_opt(response.username), username),
            )))
        },
    })
}

proof fn lemma_labels_differ()
    ensures
        "API base URL"@ != "Username"@,
        "API base URL"@ != "Password"@,
        "API base URL"@ != "New password"@,
        "API base URL"@ != "Cloudflare API token"@,
        "Username"@ != "Password"@,
        "Username"@ != "New password"@,
        "Username"@ != "Cloudflare API token"@,
        "Password"@ != "New password"@,
        "Password"@ != "Cloudflare API token"@,
        "New password"@ != "Cloudflare API token"@,
{
    reveal_strlit("API base URL");
    reveal_strlit("Username");
    reveal_strlit("Password");
    reveal_strlit("New password");
    reveal_strlit("Cloudflare API token");
    assert("API base URL"@[0] == 'A' && "Username"@[0] == 'U' && "Password"@[0] == 'P');
    assert("New password"@[0] == 'N' && "Cloudflare API token"@[0] == 'C');
}

proof fn lemma_with_storage_is_faithful(
    args: Seq<Seq<char>>,
    env: Environment<Seq<char>>,
    stored: Option<Seq<char>>,
    told: Told<Seq<char>>,
    job: LoginJob<Seq<char>>,
    storage: TokenStorage,
)
    requires
        is_faithful_job(args, env, stored, told, job),
        wanted_storage(args, env, told) == Some(storage),
        has_no_reply(told),
    ensures
        is_faithful(args, env, stored, told, crate::login::with_storage(job, storage)),
{
    lemma_labels_differ();
}

proof fn lemma_with_username_is_faithful(
    args: Seq<Seq<char>>,
    env: Environment<Seq<char>>,
    stored: Option<Seq<char>>,
    told: Told<Seq<char>>,
    job: LoginJob<Seq<char>>,
    storage: TokenStorage,
    username: Seq<char>,
)
    requires
        is_faithful_job(args, env, stored, told, job),
        wanted_storage(args, env, told) == Some(storage),
        given_username(args, env, told) == Some(username),
        job.mode == AuthType::ServiceSession,
        has_no_reply(told),
    ensures
        is_faithful(args, env, stored, told, crate::login::with_username(job, storage, username)),
{
}

proof fn lemma_with_api_base_is_faithful(
    args: Seq<Seq<char>>,
    env: Environment<Seq<char>>,
    stored: Option<Seq<char>>,
    told: Told<Seq<char>>,
    api_base: Seq<char>,
)
    requires
        is_given_base(args, env, stored, told.api_base, api_base),
        told == (Told { api_base: told.api_base, ..told_nothing() }),
    ensures
        is_faithful(
            args,
            env,
            stored,
            told,
            crate::login::with_api_base(login_plan(args, env), api_base),
        ),
{
    let plan = login_plan(args, env);
    if let Ok(mode) = login_mode(plan.auth_flag, plan.token_flag, plan.env_token) {
        let job = LoginJob {
            api_base,
            mode,
            token: either(plan.token_flag, plan.env_token),
            new_password: plan.new_password_flag,
            username: plan.username,
            password: plan.password,
            interactive: plan.interactive,
        };
        assert(is_faithful_job(args, env, stored, told, job));
        if wanted_storage(args, env, told) == Some(TokenStorage::File) {
            lemma_with_storage_is_faithful(args, env, stored, told, job, TokenStorage::File);
        }
        if wanted_storage(args, env, told) == Some(TokenStorage::Keychain) {
            lemma_with_storage_is_faithful(args, env, stored, told, job, TokenStorage::Keychain);
        }
    }
}

proof fn lemma_keep_session_is_faithful(
    args: Seq<Seq<char>>,
    env: Environment<Seq<char>>,
    stored: Option<Seq<char>>,
    told: Told<Seq<char>>,
    api_base: Seq<char>,
    storage: TokenStorage,
    username: Seq<char>,
    login: ResolvedServiceLogin<Seq<char>>,
)
    requires
        is_session(args, env, stored, told, api_base, storage, username),
        is_granted_to(told, username, login),
    ensures
        is_faithful(
            args,
            env,
            stored,
            told,
            crate::login::keep_session(api_base, storage, username, login),
        ),
        is_faithful(
            args,
            env,
            stored,
            told,
            crate::login::save_session(api_base, username, login, storage),
        ),
{
    if let Some(name) = told.response->0.username {
        crate::args::law_cleaning_is_idempotent(name);
    }
}

#[verifier::spinoff_prover]
#[verifier::rlimit(60)]
proof fn lemma_step_is_faithful(
    args: Seq<Seq<char>>,
    env: Environment<Seq<char>>,
    stored: Option<Seq<char>>,
    told: Told<Seq<char>>,
    state: Login<Seq<char>>,
    event: Event<Seq<char>>,
)
    requires
        is_faithful(args, env, stored, told, state),
    ensures
        is_faithful(
            args,
            env,
            stored,
            told_next(told, login_action(state), event),
            login_next(state, event),
        ),
{
    lemma_labels_differ();
    let after = told_next(told, login_action(state), event);
    match (state, event) {
        (Login::AskApiBase { plan, question }, Event::Answered(api_base)) => {
            lemma_with_api_base_is_faithful(args, env, stored, after, api_base);
        },
        (Login::ChooseStorage { job, marked }, Event::Chosen(option)) => {
            if option == 0 {
                lemma_with_storage_is_faithful(args, env, stored, after, job, TokenStorage::File);
            }
            if option == 1 {
                lemma_with_storage_is_faithful(args, env, stored, after, job, TokenStorage::Keychain);
            }
        },
        (Login::AskUsername { job, storage, question }, Event::Answered(username)) => {
            lemma_with_username_is_faithful(args, env, stored, after, job, storage, username);
        },
        (Login::SignIn { job, storage, username, password }, Event::SignedIn(reply)) => {
            if let Reply::Accepted(response) = reply {
                if let Ok(login) = granted_login(response, username) {
                    if !login.must_change_password {
                        lemma_keep_session_is_faithful(
                            args,
                            env,
                            stored,
                            after,
                            job.api_base,
                            storage,
                            username,
                            login,
                        );
                    }
                }
            }
        },
        (Login::Announce { api_base, storage, username, login }, Event::Done) => {
            lemma_keep_session_is_faithful(
                args,
                env,
                stored,
                after,
                api_base,
                storage,
                username,
                login,
            );
        },
        (Login::KeepSession { api_base, username, login }, Event::Kept(write)) => {
            lemma_keep_session_is_faithful(
                args,
                env,
                stored,
                after,
                api_base,
                TokenStorage::Keychain,
                username,
                login,
            );
        },
        (Login::Save { config, actor }, Event::Done) => {
            assert(is_saved(args, env, stored, after, config, actor));
            assert(was_saved(args, env, stored, after, actor));
        },
        _ => {},
    }
}

proof fn lemma_login_is_faithful(
    args: Seq<Seq<char>>,
    env: Environment<Seq<char>>,
    stored: Option<Seq<char>>,
    events: Seq<Event<Seq<char>>>,
)
    ensures
        ({
            let start = login_start(args, env, stored);
            is_faithful(args, env, stored, told(start, events), login_run(start, events))
        }),
    decreases events.len(),
{
    let start = login_start(args, env, stored);
    if events.len() > 0 {
        lemma_login_is_faithful(args, env, stored, events.drop_last());
        lemma_step_is_faithful(
            args,
            env,
            stored,
            told(start, events.drop_last()),
            login_run(start, events.drop_last()),
            events.last(),
        );
    } else {
        match crate::resolve::api_base_setting(args, env.api_base, stored, env.interactive) {
            Resolved::Known(api_base) => {
                lemma_with_api_base_is_faithful(args, env, stored, told_nothing(), api_base);
            },
            _ => {},
        }
    }
}

/// Whatever happens, a login asks the service with what it was given: with the user name and
/// the password, each from the command line, else from the environment, else as answered to the
/// question for it; after a change of password with the new one; and with the token that was
/// given.
pub proof fn law_login_asks_with_what_was_given(
    args: Seq<Seq<char>>,
    env: Environment<Seq<char>>,
    stored: Option<Seq<char>>,
    events: Seq<Event<Seq<char>>>,
)
    ensures
        ({
            let start = login_start(args, env, stored);
            let told = told(start, events);
            let action = login_action(login_run(start, events));
            &&& action matches Action::SignIn(request) ==> {
                &&& request.method == Method::Post
                &&& request.authorization is None
                &&& exists|base: Seq<char>| #[trigger]
                    is_given_base(args, env, stored, told.api_base, base) && request.url == base
                        + "/v1/auth/login"@
                &&& request.payload matches Payload::Login { username, password } && {
                    &&& given_username(args, env, told) == Some(username)
                    &&& !told.changed ==> given_password(args, env, told) == Some(password)
                    &&& told.changed ==> given_new_password(args, told) == Some(password)
                }
            }
            &&& action matches Action::ChangePassword(request) ==> {
                &&& request.method == Method::Post
                &&& exists|base: Seq<char>| #[trigger]
                    is_given_base(args, env, stored, told.api_base, base) && request.url == base
                        + "/v1/auth/change-password"@
                &&& request.payload matches Payload::ChangePassword {
                    current_password,
                    new_password,
                } && {
                    &&& given_password(args, env, told) == Some(current_password)
                    &&& given_new_password(args, told) == Some(new_password)
                }
                &&& told.response matches Some(response) && (cleaned_opt(
                    response.access_token,
                ) matches Some(token) && (request.authorization matches Some(authorization)
                    && bearer_header(token) == Ok::<Seq<char>, Seq<char>>(authorization)))
            }
            &&& action matches Action::Verify(request) ==> {
                &&& request.method == Method::Post
                &&& request.payload == Payload::<Seq<char>>::Nothing
                &&& exists|base: Seq<char>| #[trigger]
                    is_given_base(args, env, stored, told.api_base, base) && request.url == base
                        + "/v1/auth/verify"@
                &&& given_token(args, env, told) matches Some(token) && (
                request.authorization matches Some(authorization) && bearer_header(token) == Ok::<
                    Seq<char>,
                    Seq<char>,
                >(authorization))
            }
            &&& action matches Action::FetchMetadata(request) ==> {
                &&& request.method == Method::Get
                &&& request.authorization is None
                &&& exists|base: Seq<char>| #[trigger]
                    is_given_base(args, env, stored, told.api_base, base) && request.url == base
                        + "/v1/meta"@
            }
        }),
{
    lemma_login_is_faithful(args, env, stored, events);
    let start = login_start(args, env, stored);
    let told = told(start, events);
    match login_run(start, events) {
        Login::SignIn { job, storage, username, password } => {
            assert(is_given_base(args, env, stored, told.api_base, job.api_base));
        },
        Login::SignInAgain { api_base, storage, username, new_password } => {
            assert(is_given_base(args, env, stored, told.api_base, api_base));
        },
        Login::ChangePassword { api_base, storage, username, new_password, request } => {
            assert(is_given_base(args, env, stored, told.api_base, api_base));
        },
        Login::Verify { api_base, storage, token, authorization } => {
            assert(is_given_base(args, env, stored, told.api_base, api_base));
        },
        Login::FetchMetadata { job, storage } => {
            assert(is_given_base(args, env, stored, told.api_base, job.api_base));
        },
        _ => {},
    }
}

/// What a login writes down is what was given and granted: the base URL, the token, where it is
/// wanted, and whom the service named. The keychain gets the very token that was granted or
/// verified, and only where it is wanted there.
pub proof fn law_login_keeps_what_was_granted(
    args: Seq<Seq<char>>,
    env: Environment<Seq<char>>,
    stored: Option<Seq<char>>,
    events: Seq<Event<Seq<char>>>,
)
    ensures
        ({
            let start = login_start(args, env, stored);
            let told = told(start, events);
            let action = login_action(login_run(start, events));
            &&& action matches Action::SaveConfig(config) ==> exists|actor: Seq<char>| #[trigger]
                is_saved(args, env, stored, told, config, actor)
            &&& action matches Action::Finish(line) ==> exists|config: StoredConfig<Seq<char>>, actor: Seq<
                char,
            >| #[trigger]
                is_saved(args, env, stored, told, config, actor) && line == "logged in as "@ + actor
            &&& action matches Action::StoreInKeychain(token) ==> {
                &&& wanted_storage(args, env, told) == Some(TokenStorage::Keychain)
                &&& told.holder is Some ==> given_token(args, env, told) == Some(token)
                &&& told.holder is None ==> (told.response matches Some(response) && cleaned_opt(
                    response.access_token,
                ) == Some(token))
            }
        }),
{
    lemma_login_is_faithful(args, env, stored, events);
    let start = login_start(args, env, stored);
    let told = told(start, events);
    match login_run(start, events) {
        Login::Save { config, actor } => {
            assert(is_saved(args, env, stored, told, config, actor));
        },
        Login::Finished { actor } => {
            let config = choose|config: StoredConfig<Seq<char>>|
                #[trigger] is_saved(args, env, stored, told, config, actor);
            assert(is_saved(args, env, stored, told, config, actor));
        },
        _ => {},
    }
}

/// With everything given and nothing due, a login with a password asks the service once, writes
/// the login down when it is granted, and says so.
pub proof fn law_login_with_password_goes_through(
    args: Seq<Seq<char>>,
    env: Environment<Seq<char>>,
    stored: Option<Seq<char>>,
    base: Seq<char>,
    username: Seq<char>,
    password: Seq<char>,
    response: ServiceLoginResponse<Seq<char>>,
)
    requires
        !env.interactive,
        is_given_base(args, env, stored, None, base),
        either(cleaned_opt(flag_value(args, "--username"@)), cleaned_opt(env.username)) == Some(
            username,
        ),
        either(flag_value(args, "--password"@), env.password) == Some(password),
        trimmed(password).len() > 0,
        flag_value(args, "--auth"@) is None,
        flag_value(args, "--token"@) is None,
        cleaned_opt(env.token) is None,
        flag_value(args, "--new-password"@) is None,
        flag_value(args, "--token-storage"@) is None,
        cleaned_opt(response.access_token) is Some,
        response.must_change_password != Some(true),
    ensures
        ({
            let first = login_start(args, env, stored);
            let second = login_next(first, Event::SignedIn(Reply::Accepted(response)));
            let third = login_next(second, Event::Done);
            &&& login_action(first) is SignIn
            &&& login_action(second) is SaveConfig
            &&& login_action(third) is Finish
        }),
{
}

/// What is missing is asked for: the base URL, the user name and the password, in this order,
/// and then the service is asked.
pub proof fn law_login_asks_for_what_is_missing(
    args: Seq<Seq<char>>,
    env: Environment<Seq<char>>,
    base: Seq<char>,
    username: Seq<char>,
    password: Seq<char>,
)
    requires
        !env.interactive,
        flag_value(args, "--api-base"@) is None,
        cleaned_opt(env.api_base) is None,
        cleaned_opt(flag_value(args, "--username"@)) is None,
        cleaned_opt(env.username) is None,
        flag_value(args, "--password"@) is None,
        env.password is None,
        flag_value(args, "--auth"@) is None,
        flag_value(args, "--token"@) is None,
        cleaned_opt(env.token) is None,
        flag_value(args, "--new-password"@) is None,
        flag_value(args, "--token-storage"@) is None,
    ensures
        ({
            let first = login_start(args, env, None);
            let second = login_next(first, Event::Answered(base));
            let third = login_next(second, Event::Answered(username));
            let fourth = login_next(third, Event::Answered(password));
            &&& login_action(first) matches Action::Ask(question) && question.label
                == "API base URL"@
            &&& login_action(second) matches Action::Ask(question) && question.label == "Username"@
            &&& login_action(third) matches Action::Ask(question) && question.label == "Password"@
            &&& login_action(fourth) matches Action::SignIn(request) && request.payload
                == (Payload::Login { username, password }) && request.url == base
                + "/v1/auth/login"@
        }),
{
}

/// With a token given, a login has the service verify it, writes it down when it is accepted,
/// and says so.
pub proof fn law_login_with_token_goes_through(
    args: Seq<Seq<char>>,
    env: Environment<Seq<char>>,
    stored: Option<Seq<char>>,
    base: Seq<char>,
    token: Seq<char>,
    metadata: Option<crate::slug::ApiMetadata<Seq<char>>>,
    holder: Option<Seq<char>>,
)
    requires
        !env.interactive,
        is_given_base(args, env, stored, None, base),
        either(flag_value(args, "--token"@), cleaned_opt(env.token)) == Some(token),
        bearer_header(token) is Ok,
        flag_value(args, "--auth"@) is None,
        flag_value(args, "--new-password"@) is None,
        flag_value(args, "--token-storage"@) is None,
    ensures
        ({
            let first = login_start(args, env, stored);
            let second = login_next(first, Event::Metadata(metadata));
            let third = login_next(second, Event::Verified(Reply::Accepted(holder)));
            let fourth = login_next(third, Event::Done);
            &&& login_action(first) is FetchMetadata
            &&& login_action(second) is Verify
            &&& login_action(third) is SaveConfig
            &&& login_action(fourth) is Finish
        }),
{
}

/// A login that the service refuses fails with what the service said, and so does one whose
/// request was not answered.
pub proof fn law_refused_login_says_why(
    state: Login<Seq<char>>,
    status: u16,
    body: Seq<char>,
    message: Seq<char>,
)
    ensures
        ({
            let refused = "login failed: "@ + body;
            &&& login_action(state) is SignIn ==> {
                &&& login_action(
                    login_next(state, Event::SignedIn(Reply::Refused { status, body })),
                ) == Action::Fail(refused)
                &&& login_action(login_next(state, Event::SignedIn(Reply::Failed(message))))
                    == Action::Fail(message)
            }
            &&& login_action(state) is Verify ==> {
                &&& login_action(
                    login_next(state, Event::Verified(Reply::Refused { status, body })),
                ) == Action::Fail(refused)
                &&& login_action(login_next(state, Event::Verified(Reply::Failed(message))))
                    == Action::Fail(message)
            }
            &&& login_action(state) is ChangePassword ==> login_action(
                login_next(state, Event::Changed(Reply::Refused { status, body })),
            ) == Action::Fail("passwd failed: "@ + body)
            &&& login_action(state) is SaveConfig ==> login_action(
                login_next(state, Event::Failed(message)),
            ) == Action::Fail(message)
        }),
{
    reveal_strlit("login");
    reveal_strlit("passwd");
    reveal_strlit(" failed: ");
    reveal_strlit("login failed: ");
    reveal_strlit("passwd failed: ");
    assert("login"@ + " failed: "@ =~= "login failed: "@);
    assert("passwd"@ + " failed: "@ =~= "passwd failed: "@);
}

/// A login that has to change its password gets no further without a new one: a user who is
/// there is asked, and otherwise the login fails and says what to do.
pub proof fn law_due_change_needs_a_new_password(
    args: Seq<Seq<char>>,
    env: Environment<Seq<char>>,
    stored: Option<Seq<char>>,
    events: Seq<Event<Seq<char>>>,
    response: ServiceLoginResponse<Seq<char>>,
)
    requires
        login_action(login_run(login_start(args, env, stored), events)) is SignIn,
        !told(login_start(args, env, stored), events).changed,
        cleaned_opt(response.access_token) is Some,
        response.must_change_password == Some(true),
        flag_value(args, "--new-password"@) is None,
    ensures
        ({
            let state = login_run(login_start(args, env, stored), events);
            let next = login_next(state, Event::SignedIn(Reply::Accepted(response)));
            &&& env.interactive ==> (login_action(next) matches Action::Ask(question)
                && question.label == "New password"@)
            &&& !env.interactive ==> login_action(next) == Action::Fail(
                "password change required for this account. Re-run cfsurge login with --new-password <password>."@,
            )
        }),
{
    lemma_login_is_faithful(args, env, stored, events);
}

/// A password that has to be changed is changed, the user logs in with the new one, is told so,
/// and that login is kept. A service that asks for a change again is not believed.
pub proof fn law_required_change_goes_through(
    state: Login<Seq<char>>,
    response: ServiceLoginResponse<Seq<char>>,
    second: ServiceLoginResponse<Seq<char>>,
    chosen: Seq<char>,
    token: Seq<char>,
)
    requires
        state is SignIn,
        cleaned_opt(response.access_token) == Some(token),
        bearer_header(token) is Ok,
        response.must_change_password == Some(true),
        cleaned_opt(second.access_token) is Some,
    ensures
        state matches Login::SignIn { job, storage, username, password } ==> ({
            let granted = login_next(state, Event::SignedIn(Reply::Accepted(response)));
            let asked = if job.new_password is Some {
                granted
            } else {
                login_next(granted, Event::Answered(chosen))
            };
            let new_password = value_or(job.new_password, chosen);
            let changed = login_next(asked, Event::Changed(Reply::Accepted(())));
            let again = login_next(changed, Event::SignedIn(Reply::Accepted(second)));
            let announced = login_next(again, Event::Done);
            job.new_password is Some || job.interactive ==> {
                &&& job.new_password is None ==> (login_action(granted) matches Action::Ask(question)
                    && question.label == "New password"@)
                &&& login_action(asked) matches Action::ChangePassword(request) && request.payload
                    == (Payload::ChangePassword { current_password: password, new_password })
                &&& login_action(changed) matches Action::SignIn(request) && request.payload
                    == (Payload::Login { username, password: new_password })
                &&& second.must_change_password == Some(true) ==> login_action(again)
                    == Action::Fail(
                    "login failed: password change completed but server still requires password change"@,
                )
                &&& second.must_change_password != Some(true) ==> {
                    &&& login_action(again) == Action::Say("password updated"@)
                    &&& storage == TokenStorage::File ==> login_action(announced) is SaveConfig
                    &&& storage == TokenStorage::Keychain ==> login_action(announced)
                        is StoreInKeychain
                }
            }
        }),
{
}

/// A token that was not given is asked for, with a hint where to make one: where the service
/// says, else at the usual place.
pub proof fn law_missing_token_is_asked_for(
    job: LoginJob<Seq<char>>,
    storage: TokenStorage,
    metadata: Option<crate::slug::ApiMetadata<Seq<char>>>,
    token: Seq<char>,
)
    requires
        job.token is None,
        bearer_header(token) is Ok,
    ensures
        ({
            let asked = login_next(
                Login::FetchMetadata { job, storage },
                Event::Metadata(metadata),
            );
            let given = match metadata {
                Some(metadata) => cleaned_opt(metadata.token_creation_url),
                None => None,
            };
            let place = match given {
                Some(url) => url,
                None => "https://dash.cloudflare.com/profile/api-tokens"@,
            };
            &&& login_action(asked) matches Action::Ask(question) && question.label
                == "Cloudflare API token"@ && question.guidance == Some(
                "Create a Cloudflare API token if you do not have one:\n"@ + place,
            )
            &&& login_action(login_next(asked, Event::Answered(token))) matches Action::Verify(
                request,
            ) && request.url == job.api_base + "/v1/auth/verify"@
        }),
{
}

/// A user who is there and did not say where the token is to be kept gets to choose, with the
/// file marked; one who said so, and a login without a user, do not.
pub proof fn law_storage_is_the_users_choice(
    args: Seq<Seq<char>>,
    env: Environment<Seq<char>>,
    stored: Option<Seq<char>>,
    base: Seq<char>,
)
    requires
        is_given_base(args, env, stored, None, base),
        flag_value(args, "--auth"@) is None,
        flag_value(args, "--token"@) is None,
        cleaned_opt(env.token) is None,
        flag_value(args, "--new-password"@) is None,
        flag_value(args, "--token-storage"@) is None,
    ensures
        env.interactive ==> login_action(login_start(args, env, stored)) == (Action::<
            Seq<char>,
        >::Choose { choice: crate::prompt::Choice::TokenStorage, marked: 0 }),
        !env.interactive ==> !(login_action(login_start(args, env, stored)) is Choose),
{
}

/// Settings that do not go together are refused: a new password with a token, and a token with
/// another way to log in.
pub proof fn law_settings_have_to_go_together(job: LoginJob<Seq<char>>, marked: usize, option: usize)
    requires
        option < 2,
    ensures
        ({
            let next = login_action(
                login_next(Login::ChooseStorage { job, marked }, Event::Chosen(option)),
            );
            &&& job.mode == AuthType::CloudflareAdmin && job.new_password is Some ==> next
                == Action::Fail("--new-password is only available with service-session login"@)
            &&& job.mode == AuthType::CloudflareAdmin && job.new_password is None ==> next
                is FetchMetadata
            &&& job.mode == AuthType::ServiceSession && job.token is Some ==> next == Action::Fail(
                "token-based login requires --auth cloudflare-admin"@,
            )
        }),
{
}

} // verus!
