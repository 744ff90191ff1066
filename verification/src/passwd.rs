//! Changing the password of the stored login.
use crate::address::bearer_header;
use crate::args::{cleaned_opt, either, flag_value, read_flag, read_string_opt, value_or};
use crate::config::{kept_in, persist_token, AuthType, CliConfig, StoredConfig, TokenStorage};
use crate::http::{reply_outcome, Method, Payload, Reply, Request};
use crate::login_laws::is_kept_session;
use crate::prompt::{AnswerKind, Question, NEW_PASSWORD_EMPTY};
use crate::session::{
    build_change_password_request, build_login_request, change_password_request,
    change_service_session_password, clear_stored_service_session_auth, cleared_session,
    granted_login, login_outcome, login_request, login_with_service_session, persist_service_session_auth,
    session_config, ResolvedServiceLogin, ServiceLoginResponse,
};
use crate::talk::{Action, Event};
use crate::text::{trim, trimmed};
use vstd::prelude::*;

verus! {

pub const PASSWD_NEEDS_SESSION: &'static str = "passwd is only available for service-session login.";

pub const USERNAME_MISSING: &'static str =
    "stored service-session username is missing. Run cfsurge login.";

pub const RELOGIN_FAILED: &'static str =
    "password updated, but automatic re-login failed. Run cfsurge login with your new password.";

/// A change of password: of whom, and with what was said on the command line.
#[derive(Debug, PartialEq, Eq)]
pub struct PasswdJob<T = String> {
    pub api_base: T,
    pub token: T,
    pub username: T,
    pub storage: TokenStorage,
    pub new_password_flag: Option<T>,
}

impl DeepView for PasswdJob {
    type V = PasswdJob<Seq<char>>;

    open spec fn deep_view(&self) -> PasswdJob<Seq<char>> {
        PasswdJob {
            api_base: self.api_base@,
            token: self.token@,
            username: self.username@,
            storage: self.storage,
            new_password_flag: self.new_password_flag.deep_view(),
        }
    }
}

/// A change of password in progress: what it waits for, and what it knows so far.
#[derive(Debug, PartialEq, Eq)]
pub enum Passwd<T = String> {
    AskCurrent { job: PasswdJob<T> },
    AskNew { job: PasswdJob<T>, current_password: T },
    Change { job: PasswdJob<T>, new_password: T, request: Request<T> },
    SignIn { job: PasswdJob<T>, new_password: T },
    Keep { api_base: T, username: T, login: ResolvedServiceLogin<T> },
    Save { config: StoredConfig<T>, actor: T },
    /// The new login could not be made or kept: what is stored of the old one goes.
    Reload,
    Forget { config: StoredConfig<T> },
    SaveCleared { config: StoredConfig<T> },
    Finished { actor: T },
    Failed { message: T },
}

impl DeepView for Passwd {
    type V = Passwd<Seq<char>>;

    open spec fn deep_view(&self) -> Passwd<Seq<char>> {
        match self {
            Passwd::AskCurrent { job } => Passwd::AskCurrent { job: job.deep_view() },
            Passwd::AskNew { job, current_password } => Passwd::AskNew {
                job: job.deep_view(),
                current_password: current_password@,
            },
            Passwd::Change { job, new_password, request } => Passwd::Change {
                job: job.deep_view(),
                new_password: new_password@,
                request: request.deep_view(),
            },
            Passwd::SignIn { job, new_password } => Passwd::SignIn {
                job: job.deep_view(),
                new_password: new_password@,
            },
            Passwd::Keep { api_base, username, login } => Passwd::Keep {
                api_base: api_base@,
                username: username@,
                login: login.deep_view(),
            },
            Passwd::Save { config, actor } => Passwd::Save {
                config: config.deep_view(),
                actor: actor@,
            },
            Passwd::Reload => Passwd::Reload,
            Passwd::Forget { config } => Passwd::Forget { config: config.deep_view() },
            Passwd::SaveCleared { config } => Passwd::SaveCleared { config: config.deep_view() },
            Passwd::Finished { actor } => Passwd::Finished { actor: actor@ },
            Passwd::Failed { message } => Passwd::Failed { message: message@ },
        }
    }
}

/// The user name of the stored login.
pub open spec fn stored_username(stored: StoredConfig<Seq<char>>) -> Option<Seq<char>> {
    match stored.auth {
        Some(auth) => cleaned_opt(auth.username),
        None => None,
    }
}

/// Where the stored login keeps its token; the file where nothing is said.
pub open spec fn storage_in_use(stored: StoredConfig<Seq<char>>) -> TokenStorage {
    value_or(
        either(
            match stored.auth {
                Some(auth) => auth.token_storage,
                None => None,
            },
            stored.token_storage,
        ),
        TokenStorage::File,
    )
}

/// How a change of password starts.
pub open spec fn passwd_start(
    args: Seq<Seq<char>>,
    config: CliConfig<Seq<char>>,
    stored: StoredConfig<Seq<char>>,
) -> Passwd<Seq<char>> {
    if config.auth_type != AuthType::ServiceSession {
        Passwd::Failed { message: PASSWD_NEEDS_SESSION@ }
    } else {
        match stored_username(stored) {
            None => Passwd::Failed { message: USERNAME_MISSING@ },
            Some(username) => {
                let job = PasswdJob {
                    api_base: config.api_base,
                    token: config.token,
                    username,
                    storage: storage_in_use(stored),
                    new_password_flag: flag_value(args, "--new-password"@),
                };
                match flag_value(args, "--current-password"@) {
                    Some(current_password) => with_current(job, current_password),
                    None => Passwd::AskCurrent { job },
                }
            },
        }
    }
}

/// With the current password known, the new one is next.
pub open spec fn with_current(job: PasswdJob<Seq<char>>, current_password: Seq<char>) -> Passwd<
    Seq<char>,
> {
    match job.new_password_flag {
        Some(new_password) => with_both(job, current_password, new_password),
        None => Passwd::AskNew { job, current_password },
    }
}

/// With both passwords known, the service has to make the change.
pub open spec fn with_both(
    job: PasswdJob<Seq<char>>,
    current_password: Seq<char>,
    new_password: Seq<char>,
) -> Passwd<Seq<char>> {
    if trimmed(new_password).len() == 0 {
        Passwd::Failed { message: NEW_PASSWORD_EMPTY@ }
    } else {
        match change_password_request(job.api_base, job.token, current_password, new_password) {
            Ok(request) => Passwd::Change { job, new_password, request },
            Err(message) => Passwd::Failed { message },
        }
    }
}

/// The new login is written down.
pub open spec fn save_relogin(
    api_base: Seq<char>,
    username: Seq<char>,
    login: ResolvedServiceLogin<Seq<char>>,
    kept: TokenStorage,
) -> Passwd<Seq<char>> {
    Passwd::Save { config: session_config(api_base, login, kept, username), actor: login.actor }
}

/// What an event makes of a change of password in progress. An event that it does not wait for
/// changes nothing.
pub open spec fn passwd_next(state: Passwd<Seq<char>>, event: Event<Seq<char>>) -> Passwd<Seq<char>> {
    match (state, event) {
        (Passwd::AskCurrent { job }, Event::Answered(current_password)) => with_current(
            job,
            current_password,
        ),
        (Passwd::AskNew { job, current_password }, Event::Answered(new_password)) => with_both(
            job,
            current_password,
            new_password,
        ),
        (Passwd::Change { job, new_password, request }, Event::Changed(reply)) => match reply_outcome(
            reply,
            "passwd"@,
        ) {
            Ok(_) => Passwd::SignIn { job, new_password },
            Err(message) => Passwd::Failed { message },
        },
        (Passwd::SignIn { job, new_password }, Event::SignedIn(reply)) => match login_outcome(
            reply,
            job.username,
        ) {
            Ok(login) if !login.must_change_password => match job.storage {
                TokenStorage::Keychain => Passwd::Keep {
                    api_base: job.api_base,
                    username: job.username,
                    login,
                },
                TokenStorage::File => save_relogin(
                    job.api_base,
                    job.username,
                    login,
                    TokenStorage::File,
                ),
            },
            _ => Passwd::Reload,
        },
        (Passwd::Keep { api_base, username, login }, Event::Kept(write)) => match kept_in(
            TokenStorage::Keychain,
            write,
        ) {
            Ok(kept) => save_relogin(api_base, username, login, kept),
            Err(_) => Passwd::Reload,
        },
        (Passwd::Save { config, actor }, Event::Done) => Passwd::Finished { actor },
        (Passwd::Save { config, actor }, Event::Failed(_)) => Passwd::Reload,
        (Passwd::Reload, Event::Config(stored)) => match cleared_session(stored) {
            Some(cleared) => if cleared.forget_keychain {
                Passwd::Forget { config: cleared.config }
            } else {
                Passwd::SaveCleared { config: cleared.config }
            },
            None => Passwd::Failed { message: RELOGIN_FAILED@ },
        },
        (Passwd::Reload, Event::Failed(_)) => Passwd::Failed { message: RELOGIN_FAILED@ },
        (Passwd::Forget { config }, Event::Done) => Passwd::SaveCleared { config },
        (Passwd::Forget { config }, Event::Failed(_)) => Passwd::SaveCleared { config },
        (Passwd::SaveCleared { config }, Event::Done) => Passwd::Failed { message: RELOGIN_FAILED@ },
        (Passwd::SaveCleared { config }, Event::Failed(_)) => Passwd::Failed {
            message: RELOGIN_FAILED@,
        },
        (Passwd::AskCurrent { job }, Event::Failed(message)) => Passwd::Failed { message },
        (Passwd::AskNew { job, current_password }, Event::Failed(message)) => Passwd::Failed {
            message,
        },
        _ => state,
    }
}

/// A question for a password.
pub open spec fn passwd_question(label: Seq<char>) -> Question<Seq<char>> {
    Question { guidance: None, label, default_value: None, kind: AnswerKind::Anything }
}

/// What a change of password in progress asks to be done.
pub open spec fn passwd_action(state: Passwd<Seq<char>>) -> Action<Seq<char>> {
    match state {
        Passwd::AskCurrent { job } => Action::Ask(passwd_question("Current password"@)),
        Passwd::AskNew { job, current_password } => Action::Ask(passwd_question("New password"@)),
        Passwd::Change { job, new_password, request } => Action::ChangePassword(request),
        Passwd::SignIn { job, new_password } => Action::SignIn(
            login_request(job.api_base, job.username, new_password),
        ),
        Passwd::Keep { api_base, username, login } => Action::StoreInKeychain(login.access_token),
        Passwd::Save { config, actor } => Action::SaveConfig(config),
        Passwd::Reload => Action::ReadConfig,
        Passwd::Forget { config } => Action::ForgetKeychain,
        Passwd::SaveCleared { config } => Action::SaveConfig(config),
        Passwd::Finished { actor } => Action::Finish("password updated\nlogged in as "@ + actor),
        Passwd::Failed { message } => Action::Fail(message),
    }
}

fn failed(message: &str) -> (state: Passwd)
    ensures
        state.deep_view() == (Passwd::Failed { message: message@ }),
{
    Passwd::Failed { message: message.to_string() }
}

fn go_on_with_current(job: PasswdJob, current_password: String) -> (state: Passwd)
    ensures
        state.deep_view() == with_current(job.deep_view(), current_password@),
{
    match &job.new_password_flag {
        Some(new_password) => {
            let new_password = new_password.clone();
            go_on_with_both(job, current_password, new_password)
        },
        None => Passwd::AskNew { job, current_password },
    }
}

fn go_on_with_both(job: PasswdJob, current_password: String, new_password: String) -> (state: Passwd)
    ensures
        state.deep_view() == with_both(job.deep_view(), current_password@, new_password@),
{
    if trim(new_password.as_str()).is_empty() {
        return failed(NEW_PASSWORD_EMPTY);
    }
    match build_change_password_request(
        job.api_base.as_str(),
        job.token.as_str(),
        current_password.as_str(),
        new_password.as_str(),
    ) {
        Ok(request) => Passwd::Change { job, new_password, request },
        Err(message) => Passwd::Failed { message },
    }
}

fn go_on_to_save(
    api_base: String,
    username: String,
    login: ResolvedServiceLogin,
    kept: TokenStorage,
) -> (state: Passwd)
    ensures
        state.deep_view() == save_relogin(api_base@, username@, login.deep_view(), kept),
{
    Passwd::Save {
        config: persist_service_session_auth(api_base.as_str(), &login, kept, username.as_str()),
        actor: login.actor,
    }
}

impl Passwd {
    /// Starts a change of password.
    pub fn start(args: &[String], config: CliConfig, stored: &StoredConfig) -> (state: Passwd)
        ensures
            state.deep_view() == passwd_start(
                args.deep_view(),
                config.deep_view(),
                stored.deep_view(),
            ),
    {
        if config.auth_type != AuthType::ServiceSession {
            return failed(PASSWD_NEEDS_SESSION);
        }
        let (username, auth_storage) = match &stored.auth {
            Some(auth) => (read_string_opt(auth.username.as_ref()), auth.token_storage),
            None => (None, None),
        };
        let username = match username {
            Some(username) => username,
            None => return failed(USERNAME_MISSING),
        };
        let storage = match auth_storage {
            Some(storage) => storage,
            None => match stored.token_storage {
                Some(storage) => storage,
                None => TokenStorage::File,
            },
        };
        let job = PasswdJob {
            api_base: config.api_base,
            token: config.token,
            username,
            storage,
            new_password_flag: read_flag(args, "--new-password"),
        };
        match read_flag(args, "--current-password") {
            Some(current_password) => go_on_with_current(job, current_password),
            None => Passwd::AskCurrent { job },
        }
    }

    /// What the change of password asks to be done.
    pub fn action(&self) -> (action: Action)
        ensures
            action.deep_view() == passwd_action(self.deep_view()),
    {
        match self {
            Passwd::AskCurrent { .. } => Action::Ask(
                Question {
                    guidance: None,
                    label: "Current password".to_string(),
                    default_value: None,
                    kind: AnswerKind::Anything,
                },
            ),
            Passwd::AskNew { .. } => Action::Ask(
                Question {
                    guidance: None,
                    label: "New password".to_string(),
                    default_value: None,
                    kind: AnswerKind::Anything,
                },
            ),
            Passwd::Change { request, .. } => Action::ChangePassword(request.copy()),
            Passwd::SignIn { job, new_password } => Action::SignIn(
                build_login_request(
                    job.api_base.as_str(),
                    job.username.as_str(),
                    new_password.as_str(),
                ),
            ),
            Passwd::Keep { login, .. } => Action::StoreInKeychain(login.access_token.clone()),
            Passwd::Save { config, .. } => Action::SaveConfig(config.copy()),
            Passwd::Reload => Action::ReadConfig,
            Passwd::Forget { .. } => Action::ForgetKeychain,
            Passwd::SaveCleared { config } => Action::SaveConfig(config.copy()),
            Passwd::Finished { actor } => {
                let mut lines = "password updated\nlogged in as ".to_string();
                lines.append(actor.as_str());
                Action::Finish(lines)
            },
            Passwd::Failed { message } => Action::Fail(message.clone()),
        }
    }

    /// Goes on with what an action came to.
    pub fn next(self, event: Event) -> (state: Passwd)
        ensures
            state.deep_view() == passwd_next(self.deep_view(), event.deep_view()),
    {
        match (self, event) {
            (
                Passwd::AskCurrent { job },
                Event::Answered(current_password),
            ) => go_on_with_current(job, current_password),
            (
                Passwd::AskNew { job, current_password },
                Event::Answered(new_password),
            ) => go_on_with_both(job, current_password, new_password),
            (
                Passwd::Change { job, new_password, .. },
                Event::Changed(reply),
            ) => match change_service_session_password(reply) {
                Ok(()) => Passwd::SignIn { job, new_password },
                Err(message) => Passwd::Failed { message },
            },
            (Passwd::SignIn { job, .. }, Event::SignedIn(reply)) => match login_with_service_session(
                reply,
                job.username.as_str(),
            ) {
                Ok(login) => if login.must_change_password {
                    Passwd::Reload
                } else {
                    match job.storage {
                        TokenStorage::Keychain => Passwd::Keep {
                            api_base: job.api_base,
                            username: job.username,
                            login,
                        },
                        TokenStorage::File => go_on_to_save(
                            job.api_base,
                            job.username,
                            login,
                            TokenStorage::File,
                        ),
                    }
                },
                Err(_) => Passwd::Reload,
            },
            (Passwd::Keep { api_base, username, login }, Event::Kept(write)) => match persist_token(
                TokenStorage::Keychain,
                write,
            ) {
                Ok(kept) => go_on_to_save(api_base, username, login, kept),
                Err(_) => Passwd::Reload,
            },
            (Passwd::Save { actor, .. }, Event::Done) => Passwd::Finished { actor },
            (Passwd::Save { .. }, Event::Failed(_)) => Passwd::Reload,
            (Passwd::Reload, Event::Config(stored)) => match clear_stored_service_session_auth(
                stored,
            ) {
                Some(cleared) => if cleared.forget_keychain {
                    Passwd::Forget { config: cleared.config }
                } else {
                    Passwd::SaveCleared { config: cleared.config }
                },
                None => failed(RELOGIN_FAILED),
            },
            (Passwd::Reload, Event::Failed(_)) => failed(RELOGIN_FAILED),
            (Passwd::Forget { config }, Event::Done) => Passwd::SaveCleared { config },
            (Passwd::Forget { config }, Event::Failed(_)) => Passwd::SaveCleared { config },
            (Passwd::SaveCleared { .. }, Event::Done) => failed(RELOGIN_FAILED),
            (Passwd::SaveCleared { .. }, Event::Failed(_)) => failed(RELOGIN_FAILED),
            (Passwd::AskCurrent { .. }, Event::Failed(message)) => Passwd::Failed { message },
            (Passwd::AskNew { .. }, Event::Failed(message)) => Passwd::Failed { message },
            (state, _) => state,
        }
    }
}

/// What a series of events makes of a change of password in progress.
pub open spec fn passwd_run(state: Passwd<Seq<char>>, events: Seq<Event<Seq<char>>>) -> Passwd<
    Seq<char>,
>
    decreases events.len(),
{
    if events.len() == 0 {
        state
    } else {
        passwd_next(passwd_run(state, events.drop_last()), events.last())
    }
}

/// How far a change of password has come.
pub open spec fn passwd_rank(state: Passwd<Seq<char>>) -> nat {
    match state {
        Passwd::AskCurrent { .. } => 0,
        Passwd::AskNew { .. } => 1,
        Passwd::Change { .. } => 2,
        Passwd::SignIn { .. } => 3,
        Passwd::Keep { .. } => 4,
        Passwd::Save { .. } => 5,
        Passwd::Reload => 6,
        Passwd::Forget { .. } => 7,
        Passwd::SaveCleared { .. } => 8,
        Passwd::Finished { .. } => 9,
        Passwd::Failed { .. } => 9,
    }
}

/// A change of password only goes forward.
pub proof fn law_passwd_goes_forward(state: Passwd<Seq<char>>, event: Event<Seq<char>>)
    ensures
        passwd_next(state, event) == state || passwd_rank(passwd_next(state, event)) > passwd_rank(
            state,
        ),
{
}

/// What a change of password has left behind it does not come back to: the service is asked
/// for the change once at most, and for a login once at most after it.
pub proof fn law_passwd_never_comes_back(
    state: Passwd<Seq<char>>,
    events: Seq<Event<Seq<char>>>,
    i: int,
    j: int,
)
    requires
        0 <= i <= j <= events.len(),
    ensures
        ({
            let earlier = passwd_run(state, events.take(i));
            let later = passwd_run(state, events.take(j));
            later == earlier || passwd_rank(later) > passwd_rank(earlier)
        }),
    decreases j,
{
    if i < j {
        law_passwd_never_comes_back(state, events, i, j - 1);
        assert(events.take(j).drop_last() =~= events.take(j - 1));
        law_passwd_goes_forward(passwd_run(state, events.take(j - 1)), events[j - 1]);
    }
}

/// Once the service has made the change, the command succeeds with a new login, or fails with
/// the message that says so.
pub proof fn law_changed_password_is_never_hidden(
    state: Passwd<Seq<char>>,
    events: Seq<Event<Seq<char>>>,
)
    requires
        state is SignIn,
    ensures
        passwd_run(state, events) matches Passwd::Failed { message } ==> message == RELOGIN_FAILED@,
        !(passwd_run(state, events) is AskCurrent),
        !(passwd_run(state, events) is AskNew),
        !(passwd_run(state, events) is Change),
    decreases events.len(),
{
    if events.len() > 0 {
        law_changed_password_is_never_hidden(state, events.drop_last());
    }
}

/// A change that the service refused leaves what is stored alone.
pub proof fn law_refused_change_saves_nothing(
    job: PasswdJob<Seq<char>>,
    new_password: Seq<char>,
    request: Request<Seq<char>>,
    reply: Reply<(), Seq<char>>,
)
    requires
        !(reply is Accepted),
    ensures
        passwd_next(Passwd::Change { job, new_password, request }, Event::Changed(reply)) is Failed,
{
}

/// What a change of password writes down: a login that can be used as it is, or one without a
/// token.
pub proof fn law_passwd_saves_sound_logins(
    args: Seq<Seq<char>>,
    config: CliConfig<Seq<char>>,
    stored: StoredConfig<Seq<char>>,
    events: Seq<Event<Seq<char>>>,
)
    ensures
        ({
            let state = passwd_run(passwd_start(args, config, stored), events);
            &&& state matches Passwd::Save { config, actor } ==> crate::login::is_usable_login(
                config,
            )
            &&& state matches Passwd::SaveCleared { config } ==> config.token is None && (
            config.auth matches Some(auth) && auth.access_token is None)
            &&& state matches Passwd::Forget { config } ==> config.token is None && (
            config.auth matches Some(auth) && auth.access_token is None)
        }),
    decreases events.len(),
{
    if events.len() > 0 {
        law_passwd_saves_sound_logins(args, config, stored, events.drop_last());
    }
}

/// What a change of password was told: by the user in answer to its questions, and by the
/// service.
#[derive(Debug, PartialEq, Eq)]
pub struct PasswdTold<T = String> {
    /// The answer to the question `Current password`.
    pub current_password: Option<T>,
    /// The answer to the question `New password`.
    pub new_password: Option<T>,
    /// Whether the service has made the change.
    pub changed: bool,
    /// What the service said to the login with the new password.
    pub response: Option<ServiceLoginResponse<T>>,
}

/// What is known to have been told when an event answers what was asked for.
pub open spec fn passwd_told_next(
    told: PasswdTold<Seq<char>>,
    asked: Action<Seq<char>>,
    event: Event<Seq<char>>,
) -> PasswdTold<Seq<char>> {
    match (asked, event) {
        (Action::Ask(question), Event::Answered(answer)) => if question.label
            == "Current password"@ {
            PasswdTold { current_password: Some(answer), ..told }
        } else if question.label == "New password"@ {
            PasswdTold { new_password: Some(answer), ..told }
        } else {
            told
        },
        (Action::ChangePassword(_), Event::Changed(Reply::Accepted(_))) => PasswdTold {
            changed: true,
            ..told
        },
        (Action::SignIn(_), Event::SignedIn(Reply::Accepted(response))) => PasswdTold {
            response: Some(response),
            ..told
        },
        _ => told,
    }
}

/// What a change of password was told by a series of events.
pub open spec fn passwd_told(start: Passwd<Seq<char>>, events: Seq<Event<Seq<char>>>) -> PasswdTold<
    Seq<char>,
>
    decreases events.len(),
{
    if events.len() == 0 {
        PasswdTold { current_password: None, new_password: None, changed: false, response: None }
    } else {
        passwd_told_next(
            passwd_told(start, events.drop_last()),
            passwd_action(passwd_run(start, events.drop_last())),
            events.last(),
        )
    }
}

spec fn is_faithful_job(
    args: Seq<Seq<char>>,
    config: CliConfig<Seq<char>>,
    stored: StoredConfig<Seq<char>>,
    job: PasswdJob<Seq<char>>,
) -> bool {
    &&& job.api_base == config.api_base
    &&& job.token == config.token
    &&& stored.auth matches Some(auth) && cleaned_opt(auth.username) == Some(job.username)
    &&& job.storage == storage_in_use(stored)
    &&& job.new_password_flag == flag_value(args, "--new-password"@)
}

spec fn is_faithful(
    args: Seq<Seq<char>>,
    config: CliConfig<Seq<char>>,
    stored: StoredConfig<Seq<char>>,
    told: PasswdTold<Seq<char>>,
    state: Passwd<Seq<char>>,
) -> bool {
    match state {
        Passwd::AskCurrent { job } => {
            &&& is_faithful_job(args, config, stored, job)
            &&& flag_value(args, "--current-password"@) is None
            &&& !told.changed
        },
        Passwd::AskNew { job, current_password } => {
            &&& is_faithful_job(args, config, stored, job)
            &&& either(flag_value(args, "--current-password"@), told.current_password) == Some(
                current_password,
            )
            &&& flag_value(args, "--new-password"@) is None
            &&& !told.changed
        },
        Passwd::Change { job, new_password, request } => {
            &&& is_faithful_job(args, config, stored, job)
            &&& either(flag_value(args, "--new-password"@), told.new_password) == Some(new_password)
            &&& request.method == Method::Post
            &&& request.url == config.api_base + "/v1/auth/change-password"@
            &&& request.authorization matches Some(authorization) && bearer_header(config.token)
                == Ok::<Seq<char>, Seq<char>>(authorization)
            &&& request.payload matches Payload::ChangePassword {
                current_password,
                new_password: fresh,
            } && either(flag_value(args, "--current-password"@), told.current_password) == Some(
                current_password,
            ) && fresh == new_password
            &&& !told.changed
        },
        Passwd::SignIn { job, new_password } => {
            &&& is_faithful_job(args, config, stored, job)
            &&& either(flag_value(args, "--new-password"@), told.new_password) == Some(new_password)
            &&& told.changed
        },
        Passwd::Keep { api_base, username, login } => {
            &&& api_base == config.api_base
            &&& stored.auth matches Some(auth) && cleaned_opt(auth.username) == Some(username)
            &&& storage_in_use(stored) == TokenStorage::Keychain
            &&& told.response matches Some(response) && granted_login(response, username) == Ok::<
                ResolvedServiceLogin<Seq<char>>,
                Seq<char>,
            >(login)
            &&& told.changed
        },
        Passwd::Save { config: kept, actor } => {
            &&& told.changed
            &&& stored.auth matches Some(auth) && (cleaned_opt(auth.username) matches Some(username)
                && (told.response matches Some(response) && is_kept_session(
                kept,
                config.api_base,
                username,
                response,
                storage_in_use(stored),
            )))
        },
        Passwd::Failed { message } => !told.changed || message == RELOGIN_FAILED@,
        _ => told.changed,
    }
}

proof fn lemma_step_is_faithful(
    args: Seq<Seq<char>>,
    config: CliConfig<Seq<char>>,
    stored: StoredConfig<Seq<char>>,
    told: PasswdTold<Seq<char>>,
    state: Passwd<Seq<char>>,
    event: Event<Seq<char>>,
)
    requires
        is_faithful(args, config, stored, told, state),
    ensures
        is_faithful(
            args,
            config,
            stored,
            passwd_told_next(told, passwd_action(state), event),
            passwd_next(state, event),
        ),
{
    reveal_strlit("Current password");
    reveal_strlit("New password");
    assert("Current password"@[0] == 'C' && "New password"@[0] == 'N');
    if let Event::SignedIn(Reply::Accepted(response)) = event {
        if let Some(name) = response.username {
            crate::args::law_cleaning_is_idempotent(name);
        }
    }
    if let Some(response) = told.response {
        if let Some(name) = response.username {
            crate::args::law_cleaning_is_idempotent(name);
        }
    }
}

proof fn lemma_passwd_is_faithful(
    args: Seq<Seq<char>>,
    config: CliConfig<Seq<char>>,
    stored: StoredConfig<Seq<char>>,
    events: Seq<Event<Seq<char>>>,
)
    ensures
        ({
            let start = passwd_start(args, config, stored);
            is_faithful(args, config, stored, passwd_told(start, events), passwd_run(start, events))
        }),
    decreases events.len(),
{
    let start = passwd_start(args, config, stored);
    if events.len() > 0 {
        lemma_passwd_is_faithful(args, config, stored, events.drop_last());
        lemma_step_is_faithful(
            args,
            config,
            stored,
            passwd_told(start, events.drop_last()),
            passwd_run(start, events.drop_last()),
            events.last(),
        );
    }
}

/// Whatever happens, the service is asked to change the current password to the new one, each
/// from the command line or else as answered to the question for it, with the stored token; and
/// the login after the change is made as the stored user with that same new password.
pub proof fn law_password_is_changed_to_the_new_one(
    args: Seq<Seq<char>>,
    config: CliConfig<Seq<char>>,
    stored: StoredConfig<Seq<char>>,
    events: Seq<Event<Seq<char>>>,
)
    ensures
        ({
            let start = passwd_start(args, config, stored);
            let told = passwd_told(start, events);
            let action = passwd_action(passwd_run(start, events));
            let given = either(flag_value(args, "--current-password"@), told.current_password);
            let wanted = either(flag_value(args, "--new-password"@), told.new_password);
            &&& action matches Action::ChangePassword(request) ==> {
                &&& request.method == Method::Post
                &&& request.url == config.api_base + "/v1/auth/change-password"@
                &&& request.authorization matches Some(authorization) && bearer_header(config.token)
                    == Ok::<Seq<char>, Seq<char>>(authorization)
                &&& request.payload matches Payload::ChangePassword {
                    current_password,
                    new_password,
                } && given == Some(current_password) && wanted == Some(new_password)
            }
            &&& action matches Action::SignIn(request) ==> {
                &&& told.changed
                &&& request.method == Method::Post
                &&& request.url == config.api_base + "/v1/auth/login"@
                &&& request.authorization is None
                &&& request.payload matches Payload::Login { username, password } && (
                stored.auth matches Some(auth) && cleaned_opt(auth.username) == Some(username)
                    && wanted == Some(password))
            }
            &&& action matches Action::StoreInKeychain(token) ==> (told.response matches Some(
                response,
            ) && cleaned_opt(response.access_token) == Some(token))
        }),
{
    lemma_passwd_is_faithful(args, config, stored, events);
}

/// What is written down after the change is the login that the service granted, kept where the
/// former one was; what is written down otherwise holds no token.
pub proof fn law_new_login_takes_the_place_of_the_former(
    args: Seq<Seq<char>>,
    config: CliConfig<Seq<char>>,
    stored: StoredConfig<Seq<char>>,
    events: Seq<Event<Seq<char>>>,
)
    ensures
        ({
            let start = passwd_start(args, config, stored);
            let told = passwd_told(start, events);
            let state = passwd_run(start, events);
            passwd_action(state) matches Action::SaveConfig(kept) ==> (({
                &&& told.changed
                &&& stored.auth matches Some(auth) && (cleaned_opt(auth.username) matches Some(
                    username,
                ) && (told.response matches Some(response) && is_kept_session(
                    kept,
                    config.api_base,
                    username,
                    response,
                    value_or(either(auth.token_storage, stored.token_storage), TokenStorage::File),
                )))
            }) || (kept.token is None && (kept.auth matches Some(auth) && auth.access_token is None)))
        }),
{
    lemma_passwd_is_faithful(args, config, stored, events);
    law_passwd_saves_sound_logins(args, config, stored, events);
}

/// The current password and then the new one are asked for where they are not given; the
/// service makes the change, grants a login, and the command says so.
pub proof fn law_change_of_password_goes_through(
    args: Seq<Seq<char>>,
    config: CliConfig<Seq<char>>,
    stored: StoredConfig<Seq<char>>,
    auth: crate::config::StoredAuth<Seq<char>>,
    current_password: Seq<char>,
    new_password: Seq<char>,
    response: ServiceLoginResponse<Seq<char>>,
)
    requires
        config.auth_type == AuthType::ServiceSession,
        stored.auth == Some(auth),
        cleaned_opt(auth.username) is Some,
        storage_in_use(stored) == TokenStorage::File,
        flag_value(args, "--current-password"@) is None,
        flag_value(args, "--new-password"@) is None,
        trimmed(new_password).len() > 0,
        bearer_header(config.token) is Ok,
        cleaned_opt(response.access_token) is Some,
        response.must_change_password != Some(true),
    ensures
        ({
            let first = passwd_start(args, config, stored);
            let second = passwd_next(first, Event::Answered(current_password));
            let third = passwd_next(second, Event::Answered(new_password));
            let fourth = passwd_next(third, Event::Changed(Reply::Accepted(())));
            let fifth = passwd_next(fourth, Event::SignedIn(Reply::Accepted(response)));
            let sixth = passwd_next(fifth, Event::Done);
            &&& passwd_action(first) matches Action::Ask(question) && question.label
                == "Current password"@
            &&& passwd_action(second) matches Action::Ask(question) && question.label
                == "New password"@
            &&& passwd_action(third) matches Action::ChangePassword(request) && request.payload
                == (Payload::ChangePassword { current_password, new_password })
            &&& passwd_action(fourth) is SignIn
            &&& passwd_action(fifth) is SaveConfig
            &&& passwd_action(sixth) is Finish
        }),
{
}

/// A blank new password is refused, and so is a change that the service does not make, with
/// what the service said.
pub proof fn law_refused_change_says_why(
    state: Passwd<Seq<char>>,
    job: PasswdJob<Seq<char>>,
    current_password: Seq<char>,
    new_password: Seq<char>,
    status: u16,
    body: Seq<char>,
)
    ensures
        passwd_action(state) is ChangePassword ==> passwd_action(
            passwd_next(state, Event::Changed(Reply::Refused { status, body })),
        ) == Action::Fail("passwd failed: "@ + body),
        trimmed(new_password).len() == 0 ==> passwd_action(
            passwd_next(
                Passwd::AskNew { job, current_password },
                Event::Answered(new_password),
            ),
        ) == Action::Fail("new password cannot be empty"@),
{
    reveal_strlit("passwd");
    reveal_strlit(" failed: ");
    reveal_strlit("passwd failed: ");
    assert("passwd"@ + " failed: "@ =~= "passwd failed: "@);
}

/// With both passwords on the command line nothing is asked for, and only a session of a known
/// user has a password to change.
pub proof fn law_passwords_may_be_given_at_once(
    args: Seq<Seq<char>>,
    config: CliConfig<Seq<char>>,
    stored: StoredConfig<Seq<char>>,
    current_password: Seq<char>,
    new_password: Seq<char>,
)
    ensures
        ({
            let action = passwd_action(passwd_start(args, config, stored));
            let username = match stored.auth {
                Some(auth) => cleaned_opt(auth.username),
                None => None,
            };
            &&& config.auth_type != AuthType::ServiceSession ==> action == Action::Fail(
                "passwd is only available for service-session login."@,
            )
            &&& config.auth_type == AuthType::ServiceSession && username is None ==> action
                == Action::Fail("stored service-session username is missing. Run cfsurge login."@)
            &&& config.auth_type == AuthType::ServiceSession && username is Some && flag_value(
                args,
                "--current-password"@,
            ) == Some(current_password) && flag_value(args, "--new-password"@) == Some(new_password)
                ==> {
                &&& trimmed(new_password).len() == 0 ==> action == Action::Fail(
                    "new password cannot be empty"@,
                )
                &&& trimmed(new_password).len() > 0 && bearer_header(config.token) is Ok ==> (action
                    matches Action::ChangePassword(request) && request.payload
                    == (Payload::ChangePassword { current_password, new_password }) && request.url
                    == config.api_base + "/v1/auth/change-password"@)
            }
        }),
{
}

/// A changed password whose new login fails leaves the stored session without a token, and the
/// user is told to log in.
pub proof fn law_failed_new_login_clears_the_session(
    state: Passwd<Seq<char>>,
    status: u16,
    body: Seq<char>,
    message: Seq<char>,
    response: ServiceLoginResponse<Seq<char>>,
    stored: StoredConfig<Seq<char>>,
    auth: crate::config::StoredAuth<Seq<char>>,
)
    requires
        passwd_action(state) is SignIn,
        stored.auth == Some(auth),
        auth.auth_type == AuthType::ServiceSession,
    ensures
        ({
            let told =
                "password updated, but automatic re-login failed. Run cfsurge login with your new password."@;
            let refused = passwd_next(state, Event::SignedIn(Reply::Refused { status, body }));
            let failed = passwd_next(state, Event::SignedIn(Reply::Failed(message)));
            let due = passwd_next(state, Event::SignedIn(Reply::Accepted(response)));
            let read = passwd_next(refused, Event::Config(Some(stored)));
            let forgotten = passwd_next(read, Event::Done);
            &&& passwd_action(refused) is ReadConfig
            &&& passwd_action(failed) is ReadConfig
            &&& response.must_change_password == Some(true) ==> passwd_action(due) is ReadConfig
            &&& passwd_action(passwd_next(refused, Event::Config(None))) == Action::Fail(told)
            &&& auth.token_storage == Some(TokenStorage::File) ==> {
                &&& passwd_action(read) matches Action::SaveConfig(config) && config.token is None
                    && (config.auth matches Some(left) && left.access_token is None && left.username
                    == auth.username)
                &&& passwd_action(passwd_next(read, Event::Done)) == Action::Fail(told)
                &&& passwd_action(passwd_next(read, Event::Failed(message))) == Action::Fail(told)
            }
            &&& auth.token_storage == Some(TokenStorage::Keychain) ==> {
                &&& passwd_action(read) is ForgetKeychain
                &&& passwd_action(forgotten) matches Action::SaveConfig(config) && config.token
                    is None && (config.auth matches Some(left) && left.access_token is None)
                &&& passwd_action(passwd_next(forgotten, Event::Done)) == Action::Fail(told)
            }
        }),
{
}

} // verus!
