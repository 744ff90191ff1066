//! What a publish has to know before it starts, and the order in which it is refused.
use crate::access::{assert_no_deprecated_visibility_flag, no_visibility_flag, Access};
use crate::address::bearer_header;
use crate::args::{cleaned_opt, copy_args, flag_value, positional_beside, value_or};
use crate::config::{CliConfig, FileText};
use crate::credentials::{
    asks_dotenv, credentials_for, dotenv_from, dotenv_is_asked, read_basic_auth_from_cwd_dotenv,
    resolve_credentials, BasicAuthPayload,
};
use crate::dotenv::{last_assigned, DotenvCredentials};
use crate::files::FileEntry;
use crate::publish::{
    assert_slug_allowed, law_prepare_tells_the_job, publish_action, publish_start, publish_target,
    resolve_publish_target, slug_allowed_at, FilesView, JobView, PublishAction, PublishJob,
    PublishTarget,
};
use crate::site::SiteConfig;
use crate::text::{lines_of, trimmed};
use vstd::prelude::*;

verus! {

/// All that a publish has to know before it looks at the files.
#[derive(Debug, PartialEq, Eq)]
pub struct PublishPlan<T = String> {
    pub target: PublishTarget<T>,
    pub config: CliConfig<T>,
    pub basic_auth: Option<BasicAuthPayload<T>>,
}

impl DeepView for PublishPlan {
    type V = PublishPlan<Seq<char>>;

    open spec fn deep_view(&self) -> PublishPlan<Seq<char>> {
        PublishPlan {
            target: self.target.deep_view(),
            config: self.config.deep_view(),
            basic_auth: self.basic_auth.deep_view(),
        }
    }
}

/// The setting up of a publish, as the contracts speak of it.
pub type SetupView = PublishSetup<Seq<char>, Seq<Seq<char>>>;

/// The setting up of a publish: what it waits for, and what it knows so far.
#[derive(Debug, PartialEq, Eq)]
pub enum PublishSetup<T = String, A = Vec<String>> {
    ReadSite { args: A },
    ReadLogin { target: PublishTarget<T> },
    ReadVariables { target: PublishTarget<T>, config: CliConfig<T> },
    ReadDotenv {
        target: PublishTarget<T>,
        config: CliConfig<T>,
        username: Option<T>,
        password: Option<T>,
    },
    Ready { plan: PublishPlan<T> },
    Failed { message: T },
}

impl DeepView for PublishSetup {
    type V = SetupView;

    open spec fn deep_view(&self) -> SetupView {
        match self {
            PublishSetup::ReadSite { args } => PublishSetup::ReadSite { args: args.deep_view() },
            PublishSetup::ReadLogin { target } => PublishSetup::ReadLogin {
                target: target.deep_view(),
            },
            PublishSetup::ReadVariables { target, config } => PublishSetup::ReadVariables {
                target: target.deep_view(),
                config: config.deep_view(),
            },
            PublishSetup::ReadDotenv { target, config, username, password } => PublishSetup::ReadDotenv {
                target: target.deep_view(),
                config: config.deep_view(),
                username: username.deep_view(),
                password: password.deep_view(),
            },
            PublishSetup::Ready { plan } => PublishSetup::Ready { plan: plan.deep_view() },
            PublishSetup::Failed { message } => PublishSetup::Failed { message: message@ },
        }
    }
}

/// What the setting up of a publish asks to be done.
#[derive(Debug, PartialEq, Eq)]
pub enum SetupAction<T = String> {
    /// Read the site configuration.
    ReadSite,
    /// Read the stored login, which must not have a password change due.
    ReadLogin,
    /// Read the credentials in the process environment.
    ReadVariables,
    /// Read the `.env` file of the working directory.
    ReadDotenv,
    /// All is known: publish.
    Publish(PublishPlan<T>),
    /// The publish is refused with this message.
    Fail(T),
}

impl DeepView for SetupAction {
    type V = SetupAction<Seq<char>>;

    open spec fn deep_view(&self) -> SetupAction<Seq<char>> {
        match self {
            SetupAction::ReadSite => SetupAction::ReadSite,
            SetupAction::ReadLogin => SetupAction::ReadLogin,
            SetupAction::ReadVariables => SetupAction::ReadVariables,
            SetupAction::ReadDotenv => SetupAction::ReadDotenv,
            SetupAction::Publish(plan) => SetupAction::Publish(plan.deep_view()),
            SetupAction::Fail(message) => SetupAction::Fail(message@),
        }
    }
}

/// What the setting up of a publish is told.
#[derive(Debug, PartialEq, Eq)]
pub enum SetupEvent<T = String> {
    /// The site configuration that was read.
    Site(Option<SiteConfig<T>>),
    /// The stored login.
    Login(CliConfig<T>),
    /// The credentials in the process environment.
    Variables { username: Option<T>, password: Option<T> },
    /// What reading the `.env` file came to.
    Dotenv(FileText<T>),
    /// What was asked for could not be read.
    Failed(T),
}

impl DeepView for SetupEvent {
    type V = SetupEvent<Seq<char>>;

    open spec fn deep_view(&self) -> SetupEvent<Seq<char>> {
        match self {
            SetupEvent::Site(site) => SetupEvent::Site(site.deep_view()),
            SetupEvent::Login(config) => SetupEvent::Login(config.deep_view()),
            SetupEvent::Variables { username, password } => SetupEvent::Variables {
                username: username.deep_view(),
                password: password.deep_view(),
            },
            SetupEvent::Dotenv(file) => SetupEvent::Dotenv(file.deep_view()),
            SetupEvent::Failed(message) => SetupEvent::Failed(message@),
        }
    }
}

/// How the setting up of a publish starts: with the flag that is refused.
pub open spec fn setup_start(args: Seq<Seq<char>>) -> SetupView {
    match no_visibility_flag(args) {
        Ok(()) => PublishSetup::ReadSite { args },
        Err(message) => PublishSetup::Failed { message },
    }
}

/// With the site configuration known, so is what is to be published, and the login is next.
pub open spec fn with_site(args: Seq<Seq<char>>, site: Option<SiteConfig<Seq<char>>>) -> SetupView {
    match publish_target(args, site) {
        Ok(target) => PublishSetup::ReadLogin { target },
        Err(message) => PublishSetup::Failed { message },
    }
}

/// With the login known, the slug is judged, and the credentials are next where visitors have
/// to give them.
pub open spec fn with_login(
    target: PublishTarget<Seq<char>>,
    config: CliConfig<Seq<char>>,
) -> SetupView {
    match slug_allowed_at(target.slug, config.api_base) {
        Err(message) => PublishSetup::Failed { message },
        Ok(()) => if target.access == Access::Basic {
            PublishSetup::ReadVariables { target, config }
        } else {
            PublishSetup::Ready { plan: PublishPlan { target, config, basic_auth: None } }
        },
    }
}

/// With the credentials known, they are judged.
pub open spec fn with_credentials(
    target: PublishTarget<Seq<char>>,
    config: CliConfig<Seq<char>>,
    username: Option<Seq<char>>,
    password: Option<Seq<char>>,
    dotenv: DotenvCredentials<Seq<char>>,
) -> SetupView {
    match credentials_for(target.access, username, password, dotenv) {
        Ok(basic_auth) => PublishSetup::Ready { plan: PublishPlan { target, config, basic_auth } },
        Err(message) => PublishSetup::Failed { message },
    }
}

/// What an event makes of the setting up of a publish. An event that it does not wait for
/// changes nothing.
pub open spec fn setup_next(state: SetupView, event: SetupEvent<Seq<char>>) -> SetupView {
    match (state, event) {
        (PublishSetup::Ready { plan }, _) => state,
        (PublishSetup::Failed { message }, _) => state,
        (_, SetupEvent::Failed(message)) => PublishSetup::Failed { message },
        (PublishSetup::ReadSite { args }, SetupEvent::Site(site)) => with_site(args, site),
        (PublishSetup::ReadLogin { target }, SetupEvent::Login(config)) => with_login(
            target,
            config,
        ),
        (
            PublishSetup::ReadVariables { target, config },
            SetupEvent::Variables { username, password },
        ) => if dotenv_is_asked(username, password) {
            PublishSetup::ReadDotenv { target, config, username, password }
        } else {
            with_credentials(
                target,
                config,
                username,
                password,
                DotenvCredentials { username: None, password: None },
            )
        },
        (
            PublishSetup::ReadDotenv { target, config, username, password },
            SetupEvent::Dotenv(file),
        ) => match dotenv_from(file) {
            Ok(dotenv) => with_credentials(target, config, username, password, dotenv),
            Err(message) => PublishSetup::Failed { message },
        },
        _ => state,
    }
}

/// What the setting up of a publish asks to be done.
pub open spec fn setup_action(state: SetupView) -> SetupAction<Seq<char>> {
    match state {
        PublishSetup::ReadSite { args } => SetupAction::ReadSite,
        PublishSetup::ReadLogin { target } => SetupAction::ReadLogin,
        PublishSetup::ReadVariables { target, config } => SetupAction::ReadVariables,
        PublishSetup::ReadDotenv { target, config, username, password } => SetupAction::ReadDotenv,
        PublishSetup::Ready { plan } => SetupAction::Publish(plan),
        PublishSetup::Failed { message } => SetupAction::Fail(message),
    }
}

/// The site to publish, now that its files are known.
pub open spec fn job_of(plan: PublishPlan<Seq<char>>, files: FilesView) -> JobView {
    PublishJob {
        api_base: plan.config.api_base,
        token: plan.config.token,
        slug: plan.target.slug,
        access: plan.target.access,
        basic_auth: plan.basic_auth,
        rotate_share_link: plan.target.rotate_share_link,
        files,
    }
}

impl PublishPlan {
    /// A copy of this plan.
    pub fn copy(&self) -> (plan: PublishPlan)
        ensures
            plan.deep_view() == self.deep_view(),
    {
        PublishPlan {
            target: PublishTarget {
                slug: self.target.slug.clone(),
                directory: self.target.directory.clone(),
                access: self.target.access,
                rotate_share_link: self.target.rotate_share_link,
            },
            config: CliConfig {
                api_base: self.config.api_base.clone(),
                token: self.config.token.clone(),
                auth_type: self.config.auth_type,
            },
            basic_auth: match &self.basic_auth {
                Some(credentials) => Some(
                    BasicAuthPayload {
                        username: credentials.username.clone(),
                        password: credentials.password.clone(),
                    },
                ),
                None => None,
            },
        }
    }

    /// The site to publish, now that its files are known.
    pub fn job(self, files: Vec<FileEntry>) -> (job: PublishJob)
        ensures
            job.deep_view() == job_of(self.deep_view(), files.deep_view()),
    {
        PublishJob {
            api_base: self.config.api_base,
            token: self.config.token,
            slug: self.target.slug,
            access: self.target.access,
            basic_auth: self.basic_auth,
            rotate_share_link: self.target.rotate_share_link,
            files,
        }
    }
}

fn judge_credentials(
    target: PublishTarget,
    config: CliConfig,
    username: Option<String>,
    password: Option<String>,
    dotenv: DotenvCredentials,
) -> (state: PublishSetup)
    ensures
        state.deep_view() == with_credentials(
            target.deep_view(),
            config.deep_view(),
            username.deep_view(),
            password.deep_view(),
            dotenv.deep_view(),
        ),
{
    match resolve_credentials(target.access, username.as_ref(), password.as_ref(), dotenv) {
        Ok(basic_auth) => PublishSetup::Ready { plan: PublishPlan { target, config, basic_auth } },
        Err(message) => PublishSetup::Failed { message },
    }
}

impl PublishSetup {
    /// Starts to set a publish up.
    pub fn start(args: &[String]) -> (state: PublishSetup)
        ensures
            state.deep_view() == setup_start(args.deep_view()),
    {
        match assert_no_deprecated_visibility_flag(args) {
            Ok(()) => PublishSetup::ReadSite { args: copy_args(args) },
            Err(message) => PublishSetup::Failed { message },
        }
    }

    /// What is to be done next.
    pub fn action(&self) -> (action: SetupAction)
        ensures
            action.deep_view() == setup_action(self.deep_view()),
    {
        match self {
            PublishSetup::ReadSite { .. } => SetupAction::ReadSite,
            PublishSetup::ReadLogin { .. } => SetupAction::ReadLogin,
            PublishSetup::ReadVariables { .. } => SetupAction::ReadVariables,
            PublishSetup::ReadDotenv { .. } => SetupAction::ReadDotenv,
            PublishSetup::Ready { plan } => SetupAction::Publish(plan.copy()),
            PublishSetup::Failed { message } => SetupAction::Fail(message.clone()),
        }
    }

    /// Goes on with what an action came to.
    pub fn next(self, event: SetupEvent) -> (state: PublishSetup)
        ensures
            state.deep_view() == setup_next(self.deep_view(), event.deep_view()),
    {
        match (self, event) {
            (PublishSetup::Ready { plan }, _) => PublishSetup::Ready { plan },
            (PublishSetup::Failed { message }, _) => PublishSetup::Failed { message },
            (_, SetupEvent::Failed(message)) => PublishSetup::Failed { message },
            (PublishSetup::ReadSite { args }, SetupEvent::Site(site)) => {
                let words = args.as_slice();
                assert(words.deep_view() =~= args.deep_view());
                match resolve_publish_target(words, site) {
                    Ok(target) => PublishSetup::ReadLogin { target },
                    Err(message) => PublishSetup::Failed { message },
                }
            },
            (PublishSetup::ReadLogin { target }, SetupEvent::Login(config)) => {
                match assert_slug_allowed(target.slug.as_str(), config.api_base.as_str()) {
                    Err(message) => PublishSetup::Failed { message },
                    Ok(()) => if target.access == Access::Basic {
                        PublishSetup::ReadVariables { target, config }
                    } else {
                        PublishSetup::Ready { plan: PublishPlan { target, config, basic_auth: None } }
                    },
                }
            },
            (
                PublishSetup::ReadVariables { target, config },
                SetupEvent::Variables { username, password },
            ) => if asks_dotenv(username.as_ref(), password.as_ref()) {
                PublishSetup::ReadDotenv { target, config, username, password }
            } else {
                judge_credentials(
                    target,
                    config,
                    username,
                    password,
                    DotenvCredentials { username: None, password: None },
                )
            },
            (
                PublishSetup::ReadDotenv { target, config, username, password },
                SetupEvent::Dotenv(file),
            ) => match read_basic_auth_from_cwd_dotenv(file) {
                Ok(dotenv) => judge_credentials(target, config, username, password, dotenv),
                Err(message) => PublishSetup::Failed { message },
            },
            (state, _) => state,
        }
    }
}

/// What a series of events makes of the setting up of a publish.
pub open spec fn setup_run(state: SetupView, events: Seq<SetupEvent<Seq<char>>>) -> SetupView
    decreases events.len(),
{
    if events.len() == 0 {
        state
    } else {
        setup_next(setup_run(state, events.drop_last()), events.last())
    }
}

/// How far the setting up of a publish has come.
pub open spec fn setup_rank(state: SetupView) -> nat {
    match state {
        PublishSetup::ReadSite { .. } => 0,
        PublishSetup::ReadLogin { .. } => 1,
        PublishSetup::ReadVariables { .. } => 2,
        PublishSetup::ReadDotenv { .. } => 3,
        PublishSetup::Ready { .. } => 4,
        PublishSetup::Failed { .. } => 4,
    }
}

/// The credentials that a publish goes with, or why it is refused. The `.env` file counts only
/// where the environment leaves one of them open.
pub open spec fn planned_credentials(
    access: Access,
    username: Option<Seq<char>>,
    password: Option<Seq<char>>,
    file: FileText<Seq<char>>,
) -> Result<Option<BasicAuthPayload<Seq<char>>>, Seq<char>> {
    if access == Access::Basic && dotenv_is_asked(username, password) {
        match dotenv_from(file) {
            Ok(dotenv) => credentials_for(access, username, password, dotenv),
            Err(message) => Err(message),
        }
    } else {
        credentials_for(
            access,
            username,
            password,
            DotenvCredentials { username: None, password: None },
        )
    }
}

/// What a publish goes with, or the first reason to refuse it: the flag that is no longer
/// there, a fault in the site configuration, the target, the stored login, the slug, the
/// credentials.
pub open spec fn plan_of(
    args: Seq<Seq<char>>,
    site: Result<Option<SiteConfig<Seq<char>>>, Seq<char>>,
    login: Result<CliConfig<Seq<char>>, Seq<char>>,
    username: Option<Seq<char>>,
    password: Option<Seq<char>>,
    file: FileText<Seq<char>>,
) -> Result<PublishPlan<Seq<char>>, Seq<char>> {
    if let Err(message) = no_visibility_flag(args) {
        Err(message)
    } else if let Err(message) = site {
        Err(message)
    } else if let Err(message) = publish_target(args, site->Ok_0) {
        Err(message)
    } else if let Err(message) = login {
        Err(message)
    } else {
        let target = publish_target(args, site->Ok_0)->Ok_0;
        let config = login->Ok_0;
        if let Err(message) = slug_allowed_at(target.slug, config.api_base) {
            Err(message)
        } else {
            match planned_credentials(target.access, username, password, file) {
                Ok(basic_auth) => Ok(PublishPlan { target, config, basic_auth }),
                Err(message) => Err(message),
            }
        }
    }
}

/// The event that reading the site configuration gives.
pub open spec fn site_event(site: Result<Option<SiteConfig<Seq<char>>>, Seq<char>>) -> SetupEvent<
    Seq<char>,
> {
    match site {
        Ok(site) => SetupEvent::Site(site),
        Err(message) => SetupEvent::Failed(message),
    }
}

/// The event that reading the stored login gives.
pub open spec fn login_event(login: Result<CliConfig<Seq<char>>, Seq<char>>) -> SetupEvent<
    Seq<char>,
> {
    match login {
        Ok(config) => SetupEvent::Login(config),
        Err(message) => SetupEvent::Failed(message),
    }
}

/// The end of the setting up: a plan, or a refusal.
pub open spec fn settled(outcome: Result<PublishPlan<Seq<char>>, Seq<char>>) -> SetupView {
    match outcome {
        Ok(plan) => PublishSetup::Ready { plan },
        Err(message) => PublishSetup::Failed { message },
    }
}

/// The checks before a publish refuse it in one order, whatever there is to refuse: the flag
/// that is no longer there, a fault in the site configuration, the target, the stored login,
/// the slug, the credentials. With nothing to refuse, the publish has its plan.
pub proof fn law_publish_is_refused_in_order(
    args: Seq<Seq<char>>,
    site: Result<Option<SiteConfig<Seq<char>>>, Seq<char>>,
    login: Result<CliConfig<Seq<char>>, Seq<char>>,
    username: Option<Seq<char>>,
    password: Option<Seq<char>>,
    file: FileText<Seq<char>>,
)
    ensures
        setup_run(
            setup_start(args),
            seq![
                site_event(site),
                login_event(login),
                SetupEvent::Variables { username, password },
                SetupEvent::Dotenv(file),
            ],
        ) == settled(plan_of(args, site, login, username, password, file)),
{
    let events = seq![
        site_event(site),
        login_event(login),
        SetupEvent::Variables { username, password },
        SetupEvent::Dotenv(file),
    ];
    assert(events.drop_last() =~= seq![events[0], events[1], events[2]]);
    assert(events.drop_last().drop_last() =~= seq![events[0], events[1]]);
    assert(events.drop_last().drop_last().drop_last() =~= seq![events[0]]);
    assert(events.drop_last().drop_last().drop_last().drop_last() =~= Seq::empty());
    reveal_with_fuel(setup_run, 5);
}

/// A publish that is refused, or has its plan, asks for nothing more to be read: it stays as it
/// is.
pub proof fn law_settled_setup_stays(state: SetupView, events: Seq<SetupEvent<Seq<char>>>)
    requires
        state is Failed || state is Ready,
    ensures
        setup_run(state, events) == state,
        setup_action(state) is Fail || setup_action(state) is Publish,
    decreases events.len(),
{
    if events.len() > 0 {
        law_settled_setup_stays(state, events.drop_last());
    }
}

/// The flag that is no longer there is refused before anything is read.
pub proof fn law_publish_refuses_the_old_flag_first(
    args: Seq<Seq<char>>,
    events: Seq<SetupEvent<Seq<char>>>,
)
    requires
        args.contains("--visibility"@),
    ensures
        setup_action(setup_run(setup_start(args), events)) == SetupAction::Fail(
            crate::access::VISIBILITY_FLAG_GONE@,
        ),
{
    law_settled_setup_stays(setup_start(args), events);
}

/// The setting up of a publish only goes forward.
pub proof fn law_setup_goes_forward(state: SetupView, event: SetupEvent<Seq<char>>)
    ensures
        setup_next(state, event) == state || setup_rank(setup_next(state, event)) > setup_rank(
            state,
        ),
{
}

/// What the setting up of a publish has left behind it does not come back to: it reads each
/// thing once at most.
pub proof fn law_setup_never_comes_back(
    state: SetupView,
    events: Seq<SetupEvent<Seq<char>>>,
    i: int,
    j: int,
)
    requires
        0 <= i <= j <= events.len(),
    ensures
        ({
            let earlier = setup_run(state, events.take(i));
            let later = setup_run(state, events.take(j));
            later == earlier || setup_rank(later) > setup_rank(earlier)
        }),
    decreases j,
{
    if i < j {
        law_setup_never_comes_back(state, events, i, j - 1);
        assert(events.take(j).drop_last() =~= events.take(j - 1));
        law_setup_goes_forward(setup_run(state, events.take(j - 1)), events[j - 1]);
    }
}

/// What is settled while a publish is set up.
pub open spec fn is_sound_setup(state: SetupView) -> bool {
    match state {
        PublishSetup::ReadSite { args } => !args.contains("--visibility"@),
        PublishSetup::ReadLogin { target } => target.rotate_share_link ==> target.access
            == Access::Link,
        PublishSetup::ReadVariables { target, config } => target.access == Access::Basic
            && !target.rotate_share_link && slug_allowed_at(target.slug, config.api_base) is Ok,
        PublishSetup::ReadDotenv { target, config, username, password } => target.access
            == Access::Basic && !target.rotate_share_link && slug_allowed_at(
            target.slug,
            config.api_base,
        ) is Ok,
        PublishSetup::Ready { plan } => {
            &&& slug_allowed_at(plan.target.slug, plan.config.api_base) is Ok
            &&& plan.basic_auth is Some <==> plan.target.access == Access::Basic
            &&& plan.target.rotate_share_link ==> plan.target.access == Access::Link
        },
        PublishSetup::Failed { message } => true,
    }
}

/// A publish that starts has a slug that may be used at the service, credentials if and only
/// if visitors have to give them, and rotates a share link only where there is one.
pub proof fn law_plans_are_sound(args: Seq<Seq<char>>, events: Seq<SetupEvent<Seq<char>>>)
    ensures
        is_sound_setup(setup_run(setup_start(args), events)),
    decreases events.len(),
{
    if events.len() > 0 {
        law_plans_are_sound(args, events.drop_last());
    }
}

/// A publish goes with what was given: the site's access mode, the stored login as it is, the
/// slug of the flag or else of the site, and, where visitors have to give them, the user name
/// and the password from the environment or else from the `.env` file.
pub proof fn law_plan_is_what_was_given(
    args: Seq<Seq<char>>,
    site: SiteConfig<Seq<char>>,
    login: CliConfig<Seq<char>>,
    username: Option<Seq<char>>,
    password: Option<Seq<char>>,
    file: FileText<Seq<char>>,
    files: FilesView,
)
    ensures
        setup_action(
            setup_run(
                setup_start(args),
                seq![
                    SetupEvent::Site(Some(site)),
                    SetupEvent::Login(login),
                    SetupEvent::Variables { username, password },
                    SetupEvent::Dotenv(file),
                ],
            ),
        ) matches SetupAction::Publish(plan) ==> {
            &&& plan.config == login
            &&& plan.target.access == site.access
            &&& plan.target.rotate_share_link == args.contains("--rotate-share-link"@)
            &&& flag_value(args, "--slug"@) matches Some(slug) ==> plan.target.slug == slug
            &&& flag_value(args, "--slug"@) is None ==> plan.target.slug == site.slug
            &&& positional_beside(args, "--slug"@) matches Some(directory) ==> plan.target.directory
                == directory
            &&& positional_beside(args, "--slug"@) is None ==> plan.target.directory
                == site.publish_dir
            &&& site.access != Access::Basic ==> plan.basic_auth is None
            &&& site.access == Access::Basic ==> (plan.basic_auth matches Some(credentials) && {
                &&& cleaned_opt(username) matches Some(name) ==> credentials.username == name
                &&& (password is Some && trimmed(password->0).len() > 0) ==> credentials.password
                    == password->0
                &&& cleaned_opt(username) is None ==> (file matches FileText::Text(raw)
                    && cleaned_opt(last_assigned(lines_of(raw), "CFSURGE_BASIC_AUTH_USERNAME"@))
                    == Some(credentials.username))
                &&& (password is None || trimmed(password->0).len() == 0) ==> (
                file matches FileText::Text(raw) && last_assigned(
                    lines_of(raw),
                    "CFSURGE_BASIC_AUTH_PASSWORD"@,
                ) == Some(credentials.password))
            })
            &&& ({
                let job = job_of(plan, files);
                &&& job.api_base == login.api_base
                &&& job.token == login.token
                &&& job.slug == plan.target.slug
                &&& job.access == site.access
                &&& job.basic_auth == plan.basic_auth
                &&& job.rotate_share_link == plan.target.rotate_share_link
                &&& job.files == files
            })
        },
{
    law_publish_is_refused_in_order(args, Ok(Some(site)), Ok(login), username, password, file);
}

/// The access mode that the service is told when a deployment is prepared is that of the site
/// configuration, and the files, credentials and token are those that were collected, given and
/// stored.
pub proof fn law_service_is_told_what_is_configured(
    args: Seq<Seq<char>>,
    site: SiteConfig<Seq<char>>,
    login: CliConfig<Seq<char>>,
    username: Option<Seq<char>>,
    password: Option<Seq<char>>,
    file: FileText<Seq<char>>,
    files: FilesView,
)
    ensures
        setup_action(
            setup_run(
                setup_start(args),
                seq![
                    SetupEvent::Site(Some(site)),
                    SetupEvent::Login(login),
                    SetupEvent::Variables { username, password },
                    SetupEvent::Dotenv(file),
                ],
            ),
        ) matches SetupAction::Publish(plan) ==> (publish_action(publish_start(job_of(plan, files)))
            matches PublishAction::Prepare(request) ==> {
            &&& request.access == site.access
            &&& request.files == files
            &&& request.basic_auth is Some <==> site.access == Access::Basic
            &&& request.rotate_share_link == args.contains("--rotate-share-link"@)
            &&& bearer_header(login.token) == Ok::<Seq<char>, Seq<char>>(request.authorization)
        }),
{
    law_plan_is_what_was_given(args, site, login, username, password, file, files);
    law_publish_is_refused_in_order(args, Ok(Some(site)), Ok(login), username, password, file);
    if let Ok(plan) = plan_of(args, Ok(Some(site)), Ok(login), username, password, file) {
        law_prepare_tells_the_job(job_of(plan, files), Seq::empty());
    }
}

/// With nothing to refuse, the setting up of a publish reads the site and the login, and only
/// where visitors have to give credentials, also the environment, and the `.env` file only where
/// that leaves one of them open.
pub proof fn law_setup_goes_through(
    args: Seq<Seq<char>>,
    site: SiteConfig<Seq<char>>,
    login: CliConfig<Seq<char>>,
    username: Seq<char>,
    password: Seq<char>,
    raw: Seq<char>,
)
    requires
        !args.contains("--visibility"@),
        args.contains("--rotate-share-link"@) ==> site.access == Access::Link,
        slug_allowed_at(value_or(flag_value(args, "--slug"@), site.slug), login.api_base) is Ok,
    ensures
        ({
            let first = setup_start(args);
            let second = setup_next(first, SetupEvent::Site(Some(site)));
            let third = setup_next(second, SetupEvent::Login(login));
            let given = SetupEvent::Variables {
                username: Some(username),
                password: Some(password),
            };
            let nothing = SetupEvent::Variables { username: None, password: None };
            let open = setup_next(third, nothing);
            let found = crate::dotenv::dotenv_credentials(raw);
            &&& setup_action(first) is ReadSite
            &&& setup_action(second) is ReadLogin
            &&& site.access != Access::Basic ==> setup_action(third) is Publish
            &&& site.access == Access::Basic ==> {
                &&& setup_action(third) is ReadVariables
                &&& trimmed(username).len() > 0 && trimmed(password).len() > 0
                    && crate::credentials::basic_auth_of(trimmed(username), password) is Ok
                    ==> setup_action(setup_next(third, given)) is Publish
                &&& setup_action(open) is ReadDotenv
                &&& (found.username == Some(username) && found.password == Some(password) && trimmed(
                    username,
                ) == username && crate::credentials::basic_auth_of(username, password) is Ok)
                    ==> setup_action(setup_next(open, SetupEvent::Dotenv(FileText::Text(raw))))
                    is Publish
                &&& setup_action(setup_next(open, SetupEvent::Dotenv(FileText::Absent))) is Fail
            }
        }),
{
}

/// Without a site configuration the command line says what is published, for everyone to read.
pub proof fn law_setup_without_a_site(
    args: Seq<Seq<char>>,
    login: CliConfig<Seq<char>>,
    slug: Seq<char>,
    directory: Seq<char>,
)
    requires
        !args.contains("--visibility"@),
        !args.contains("--rotate-share-link"@),
        flag_value(args, "--slug"@) == Some(slug),
        positional_beside(args, "--slug"@) == Some(directory),
        slug_allowed_at(slug, login.api_base) is Ok,
    ensures
        ({
            let second = setup_next(setup_start(args), SetupEvent::Site(None));
            setup_action(setup_next(second, SetupEvent::Login(login))) matches SetupAction::Publish(
                plan,
            ) && plan.target.slug == slug && plan.target.directory == directory
                && plan.target.access == Access::Public && plan.basic_auth is None && plan.config
                == login
        }),
{
}

} // verus!
