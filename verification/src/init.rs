//! Setting up a project directory.
use crate::access::{assert_no_deprecated_visibility_flag, no_visibility_flag, Access, DEFAULT_ACCESS};
use crate::args::{cleaned_opt, copy_args, flag_value, read_string_opt};
use crate::config::StoredConfig;
use crate::login::{fetch_api_metadata, metadata_request};
use crate::login_laws::is_given_base;
use crate::prompt::{access_of_option, chosen_access, Choice, Question};
use crate::resolve::{
    access_setting, api_base_setting, publish_dir_setting, resolve_access, resolve_api_base,
    resolve_publish_dir, resolve_slug, slug_setting, Resolved, Selected,
};
use crate::site::{SiteConfig, SITE_CONFIG_FILE_NAME};
use crate::slug::{api_label, resolve_api_host_first_label, ApiMetadata};
use crate::talk::{Action, Environment, Event};
use crate::text::{lowercase, trimmed};
use vstd::prelude::*;

verus! {

/// The command line of a set-up, and what is known of the service.
#[derive(Debug, PartialEq, Eq)]
pub struct InitJob<T = String, A = Vec<String>> {
    pub args: A,
    pub interactive: bool,
    /// The service's own label, which no project may take.
    pub api_label: Option<T>,
    pub public_suffix: Option<T>,
}

impl DeepView for InitJob {
    type V = InitJob<Seq<char>, Seq<Seq<char>>>;

    open spec fn deep_view(&self) -> InitJob<Seq<char>, Seq<Seq<char>>> {
        InitJob {
            args: self.args.deep_view(),
            interactive: self.interactive,
            api_label: self.api_label.deep_view(),
            public_suffix: self.public_suffix.deep_view(),
        }
    }
}

/// A set-up, as the contracts speak of it.
pub type InitJobView = InitJob<Seq<char>, Seq<Seq<char>>>;

/// A set-up in progress, as the contracts speak of it.
pub type InitView = Init<Seq<char>, Seq<Seq<char>>>;

/// A set-up in progress: what it waits for, and what it knows so far.
#[derive(Debug, PartialEq, Eq)]
pub enum Init<T = String, A = Vec<String>> {
    ReadConfig { args: A, interactive: bool, env_api_base: Option<T> },
    AskApiBase { args: A, interactive: bool, question: Question<T> },
    FetchMetadata { args: A, interactive: bool, api_base: T },
    ReadSite { job: InitJob<T, A> },
    AskSlug { job: InitJob<T, A>, existing: Option<SiteConfig<T>>, question: Question<T> },
    AskPublishDir { job: InitJob<T, A>, slug: T, default_access: Access, question: Question<T> },
    ChooseAccess { job: InitJob<T, A>, slug: T, publish_dir: T, marked: usize },
    Save { site: SiteConfig<T>, public_suffix: Option<T> },
    Finished { slug: T, public_suffix: Option<T> },
    Failed { message: T },
}

impl DeepView for Init {
    type V = InitView;

    open spec fn deep_view(&self) -> InitView {
        match self {
            Init::ReadConfig { args, interactive, env_api_base } => Init::ReadConfig {
                args: args.deep_view(),
                interactive: *interactive,
                env_api_base: env_api_base.deep_view(),
            },
            Init::AskApiBase { args, interactive, question } => Init::AskApiBase {
                args: args.deep_view(),
                interactive: *interactive,
                question: question.deep_view(),
            },
            Init::FetchMetadata { args, interactive, api_base } => Init::FetchMetadata {
                args: args.deep_view(),
                interactive: *interactive,
                api_base: api_base@,
            },
            Init::ReadSite { job } => Init::ReadSite { job: job.deep_view() },
            Init::AskSlug { job, existing, question } => Init::AskSlug {
                job: job.deep_view(),
                existing: existing.deep_view(),
                question: question.deep_view(),
            },
            Init::AskPublishDir { job, slug, default_access, question } => Init::AskPublishDir {
                job: job.deep_view(),
                slug: slug@,
                default_access: *default_access,
                question: question.deep_view(),
            },
            Init::ChooseAccess { job, slug, publish_dir, marked } => Init::ChooseAccess {
                job: job.deep_view(),
                slug: slug@,
                publish_dir: publish_dir@,
                marked: *marked,
            },
            Init::Save { site, public_suffix } => Init::Save {
                site: site.deep_view(),
                public_suffix: public_suffix.deep_view(),
            },
            Init::Finished { slug, public_suffix } => Init::Finished {
                slug: slug@,
                public_suffix: public_suffix.deep_view(),
            },
            Init::Failed { message } => Init::Failed { message: message@ },
        }
    }
}

/// How a set-up starts: with the flag that is refused, and then the configuration.
pub open spec fn init_start(args: Seq<Seq<char>>, env: Environment<Seq<char>>) -> InitView {
    match no_visibility_flag(args) {
        Err(message) => Init::Failed { message },
        Ok(()) => Init::ReadConfig {
            args,
            interactive: env.interactive,
            env_api_base: env.api_base,
        },
    }
}

/// With the configuration known, the base URL is next.
pub open spec fn with_stored(
    args: Seq<Seq<char>>,
    interactive: bool,
    env_api_base: Option<Seq<char>>,
    stored: Option<StoredConfig<Seq<char>>>,
) -> InitView {
    let stored_api_base = match stored {
        Some(config) => Some(config.api_base),
        None => None,
    };
    match api_base_setting(args, env_api_base, stored_api_base, interactive) {
        Resolved::Known(api_base) => Init::FetchMetadata { args, interactive, api_base },
        Resolved::Ask(question) => Init::AskApiBase { args, interactive, question },
        Resolved::Refused(message) => Init::Failed { message },
    }
}

/// What is known of the service when it was asked what it says of itself.
pub open spec fn init_job(
    args: Seq<Seq<char>>,
    interactive: bool,
    api_base: Seq<char>,
    metadata: Option<ApiMetadata<Seq<char>>>,
) -> InitJobView {
    InitJob {
        args,
        interactive,
        api_label: api_label(Some(api_base), metadata),
        public_suffix: match metadata {
            Some(metadata) => cleaned_opt(metadata.public_suffix),
            None => None,
        },
    }
}

/// With the existing site known, the slug is next.
pub open spec fn with_existing(job: InitJobView, existing: Option<SiteConfig<Seq<char>>>) -> InitView {
    let default_slug = match existing {
        Some(site) => Some(site.slug),
        None => None,
    };
    match slug_setting(job.args, default_slug, job.api_label, job.interactive) {
        Resolved::Known(slug) => with_slug(job, existing, slug),
        Resolved::Ask(question) => Init::AskSlug { job, existing, question },
        Resolved::Refused(message) => Init::Failed { message },
    }
}

/// With the slug known, the directory is next.
pub open spec fn with_slug(
    job: InitJobView,
    existing: Option<SiteConfig<Seq<char>>>,
    slug: Seq<char>,
) -> InitView {
    let default_dir = match existing {
        Some(site) => site.publish_dir,
        None => "."@,
    };
    let default_access = match existing {
        Some(site) => site.access,
        None => DEFAULT_ACCESS,
    };
    match publish_dir_setting(job.args, default_dir, job.interactive) {
        Resolved::Known(publish_dir) => with_publish_dir(job, slug, default_access, publish_dir),
        Resolved::Ask(question) => Init::AskPublishDir { job, slug, default_access, question },
        Resolved::Refused(message) => Init::Failed { message },
    }
}

/// With the directory known, who may read the site is next.
pub open spec fn with_publish_dir(
    job: InitJobView,
    slug: Seq<char>,
    default_access: Access,
    publish_dir: Seq<char>,
) -> InitView {
    match access_setting(job.args, default_access, job.interactive) {
        Ok(Selected::Known(access)) => Init::Save {
            site: SiteConfig { slug, publish_dir, access },
            public_suffix: job.public_suffix,
        },
        Ok(Selected::Choose { marked }) => Init::ChooseAccess { job, slug, publish_dir, marked },
        Err(message) => Init::Failed { message },
    }
}

/// What an event makes of a set-up in progress. An event that it does not wait for changes
/// nothing.
pub open spec fn init_next(state: InitView, event: Event<Seq<char>>) -> InitView {
    match (state, event) {
        (Init::ReadConfig { args, interactive, env_api_base }, Event::Config(stored)) => with_stored(
            args,
            interactive,
            env_api_base,
            stored,
        ),
        (Init::AskApiBase { args, interactive, question }, Event::Answered(api_base)) => Init::FetchMetadata {
            args,
            interactive,
            api_base,
        },
        (Init::FetchMetadata { args, interactive, api_base }, Event::Metadata(metadata)) => Init::ReadSite {
            job: init_job(args, interactive, api_base, metadata),
        },
        (Init::ReadSite { job }, Event::Site(existing)) => with_existing(job, existing),
        (Init::AskSlug { job, existing, question }, Event::Answered(slug)) => with_slug(
            job,
            existing,
            slug,
        ),
        (
            Init::AskPublishDir { job, slug, default_access, question },
            Event::Answered(publish_dir),
        ) => with_publish_dir(job, slug, default_access, publish_dir),
        (Init::ChooseAccess { job, slug, publish_dir, marked }, Event::Chosen(option)) => match access_of_option(
            option as int,
        ) {
            Some(access) => Init::Save {
                site: SiteConfig { slug, publish_dir, access },
                public_suffix: job.public_suffix,
            },
            None => state,
        },
        (Init::Save { site, public_suffix }, Event::Done) => Init::Finished {
            slug: site.slug,
            public_suffix,
        },
        (Init::Finished { slug, public_suffix }, _) => state,
        (Init::Failed { message }, _) => state,
        (_, Event::Failed(message)) => Init::Failed { message },
        _ => state,
    }
}

/// The lines that a finished set-up shows.
pub open spec fn init_lines(slug: Seq<char>, public_suffix: Option<Seq<char>>) -> Seq<char> {
    let lines = "saved "@ + SITE_CONFIG_FILE_NAME@
        + "\nnext step: run \"cfsurge publish\" to deploy this site"@;
    match public_suffix {
        Some(suffix) => lines + "\npublic URL preview: https://"@ + slug + "."@ + suffix,
        None => lines,
    }
}

/// What a set-up in progress asks to be done.
pub open spec fn init_action(state: InitView) -> Action<Seq<char>> {
    match state {
        Init::ReadConfig { args, interactive, env_api_base } => Action::ReadConfig,
        Init::AskApiBase { args, interactive, question } => Action::Ask(question),
        Init::FetchMetadata { args, interactive, api_base } => Action::FetchMetadata(
            metadata_request(api_base),
        ),
        Init::ReadSite { job } => Action::ReadSite,
        Init::AskSlug { job, existing, question } => Action::Ask(question),
        Init::AskPublishDir { job, slug, default_access, question } => Action::Ask(question),
        Init::ChooseAccess { job, slug, publish_dir, marked } => Action::Choose {
            choice: Choice::Access,
            marked,
        },
        Init::Save { site, public_suffix } => Action::SaveSite(site),
        Init::Finished { slug, public_suffix } => Action::Finish(init_lines(slug, public_suffix)),
        Init::Failed { message } => Action::Fail(message),
    }
}

fn go_on_with_stored(
    args: Vec<String>,
    interactive: bool,
    env_api_base: Option<String>,
    stored: Option<StoredConfig>,
) -> (state: Init)
    ensures
        state.deep_view() == with_stored(
            args.deep_view(),
            interactive,
            env_api_base.deep_view(),
            stored.deep_view(),
        ),
{
    let stored_api_base = match stored {
        Some(config) => Some(config.api_base),
        None => None,
    };
    let words = args.as_slice();
    assert(words.deep_view() =~= args.deep_view());
    match resolve_api_base(words, env_api_base.as_ref(), stored_api_base.as_ref(), interactive) {
        Resolved::Known(api_base) => Init::FetchMetadata { args, interactive, api_base },
        Resolved::Ask(question) => Init::AskApiBase { args, interactive, question },
        Resolved::Refused(message) => Init::Failed { message },
    }
}

fn go_on_with_existing(job: InitJob, existing: Option<SiteConfig>) -> (state: Init)
    ensures
        state.deep_view() == with_existing(job.deep_view(), existing.deep_view()),
{
    let default_slug = match &existing {
        Some(site) => Some(site.slug.clone()),
        None => None,
    };
    let args = job.args.as_slice();
    assert(args.deep_view() =~= job.args.deep_view());
    match resolve_slug(args, default_slug, job.api_label.clone(), job.interactive) {
        Resolved::Known(slug) => go_on_with_slug(job, existing, slug),
        Resolved::Ask(question) => Init::AskSlug { job, existing, question },
        Resolved::Refused(message) => Init::Failed { message },
    }
}

fn go_on_with_slug(job: InitJob, existing: Option<SiteConfig>, slug: String) -> (state: Init)
    ensures
        state.deep_view() == with_slug(job.deep_view(), existing.deep_view(), slug@),
{
    let (default_dir, default_access) = match existing {
        Some(site) => (site.publish_dir, site.access),
        None => (".".to_string(), DEFAULT_ACCESS),
    };
    let args = job.args.as_slice();
    assert(args.deep_view() =~= job.args.deep_view());
    match resolve_publish_dir(args, default_dir, job.interactive) {
        Resolved::Known(publish_dir) => go_on_with_publish_dir(
            job,
            slug,
            default_access,
            publish_dir,
        ),
        Resolved::Ask(question) => Init::AskPublishDir { job, slug, default_access, question },
        Resolved::Refused(message) => Init::Failed { message },
    }
}

fn go_on_with_publish_dir(
    job: InitJob,
    slug: String,
    default_access: Access,
    publish_dir: String,
) -> (state: Init)
    ensures
        state.deep_view() == with_publish_dir(
            job.deep_view(),
            slug@,
            default_access,
            publish_dir@,
        ),
{
    let args = job.args.as_slice();
    assert(args.deep_view() =~= job.args.deep_view());
    match resolve_access(args, default_access, job.interactive) {
        Ok(Selected::Known(access)) => Init::Save {
            site: SiteConfig { slug, publish_dir, access },
            public_suffix: job.public_suffix,
        },
        Ok(Selected::Choose { marked }) => Init::ChooseAccess { job, slug, publish_dir, marked },
        Err(message) => Init::Failed { message },
    }
}

impl Init {
    /// Starts a set-up.
    pub fn start(args: &[String], env: &Environment) -> (state: Init)
        ensures
            state.deep_view() == init_start(args.deep_view(), env.deep_view()),
    {
        match assert_no_deprecated_visibility_flag(args) {
            Err(message) => Init::Failed { message },
            Ok(()) => Init::ReadConfig {
                args: copy_args(args),
                interactive: env.interactive,
                env_api_base: env.api_base.clone(),
            },
        }
    }

    /// What the set-up asks to be done.
    pub fn action(&self) -> (action: Action)
        ensures
            action.deep_view() == init_action(self.deep_view()),
    {
        match self {
            Init::ReadConfig { .. } => Action::ReadConfig,
            Init::AskApiBase { question, .. } => Action::Ask(question.copy()),
            Init::FetchMetadata { api_base, .. } => Action::FetchMetadata(
                fetch_api_metadata(api_base.as_str()),
            ),
            Init::ReadSite { .. } => Action::ReadSite,
            Init::AskSlug { question, .. } => Action::Ask(question.copy()),
            Init::AskPublishDir { question, .. } => Action::Ask(question.copy()),
            Init::ChooseAccess { marked, .. } => Action::Choose {
                choice: Choice::Access,
                marked: *marked,
            },
            Init::Save { site, .. } => Action::SaveSite(
                SiteConfig {
                    slug: site.slug.clone(),
                    publish_dir: site.publish_dir.clone(),
                    access: site.access,
                },
            ),
            Init::Finished { slug, public_suffix } => {
                let mut lines = "saved ".to_string();
                lines.append(SITE_CONFIG_FILE_NAME);
                lines.append("\nnext step: run \"cfsurge publish\" to deploy this site");
                if let Some(suffix) = public_suffix {
                    lines.append("\npublic URL preview: https://");
                    lines.append(slug.as_str());
                    lines.append(".");
                    lines.append(suffix.as_str());
                }
                Action::Finish(lines)
            },
            Init::Failed { message } => Action::Fail(message.clone()),
        }
    }

    /// Goes on with what an action came to.
    pub fn next(self, event: Event) -> (state: Init)
        ensures
            state.deep_view() == init_next(self.deep_view(), event.deep_view()),
    {
        match (self, event) {
            (
                Init::ReadConfig { args, interactive, env_api_base },
                Event::Config(stored),
            ) => go_on_with_stored(args, interactive, env_api_base, stored),
            (
                Init::AskApiBase { args, interactive, .. },
                Event::Answered(api_base),
            ) => Init::FetchMetadata { args, interactive, api_base },
            (Init::FetchMetadata { args, interactive, api_base }, Event::Metadata(metadata)) => {
                let label = resolve_api_host_first_label(Some(api_base.as_str()), metadata.as_ref());
                let public_suffix = match &metadata {
                    Some(metadata) => read_string_opt(metadata.public_suffix.as_ref()),
                    None => None,
                };
                Init::ReadSite { job: InitJob { args, interactive, api_label: label, public_suffix } }
            },
            (Init::ReadSite { job }, Event::Site(existing)) => go_on_with_existing(job, existing),
            (
                Init::AskSlug { job, existing, .. },
                Event::Answered(slug),
            ) => go_on_with_slug(job, existing, slug),
            (
                Init::AskPublishDir { job, slug, default_access, .. },
                Event::Answered(publish_dir),
            ) => go_on_with_publish_dir(job, slug, default_access, publish_dir),
            (
                Init::ChooseAccess { job, slug, publish_dir, marked },
                Event::Chosen(option),
            ) => match chosen_access(option) {
                Some(access) => Init::Save {
                    site: SiteConfig { slug, publish_dir, access },
                    public_suffix: job.public_suffix,
                },
                None => Init::ChooseAccess { job, slug, publish_dir, marked },
            },
            (Init::Save { site, public_suffix }, Event::Done) => Init::Finished {
                slug: site.slug,
                public_suffix,
            },
            (Init::Finished { slug, public_suffix }, _) => Init::Finished { slug, public_suffix },
            (Init::Failed { message }, _) => Init::Failed { message },
            (_, Event::Failed(message)) => Init::Failed { message },
            (state, _) => state,
        }
    }
}

/// How far a set-up has come.
pub open spec fn init_rank(state: InitView) -> nat {
    match state {
        Init::ReadConfig { .. } => 0,
        Init::AskApiBase { .. } => 1,
        Init::FetchMetadata { .. } => 2,
        Init::ReadSite { .. } => 3,
        Init::AskSlug { .. } => 4,
        Init::AskPublishDir { .. } => 5,
        Init::ChooseAccess { .. } => 6,
        Init::Save { .. } => 7,
        Init::Finished { .. } => 8,
        Init::Failed { .. } => 8,
    }
}

/// A set-up only goes forward.
pub proof fn law_init_goes_forward(state: InitView, event: Event<Seq<char>>)
    ensures
        init_next(state, event) == state || init_rank(init_next(state, event)) > init_rank(state),
{
}

/// What a series of events makes of a set-up in progress.
pub open spec fn init_run(state: InitView, events: Seq<Event<Seq<char>>>) -> InitView
    decreases events.len(),
{
    if events.len() == 0 {
        state
    } else {
        init_next(init_run(state, events.drop_last()), events.last())
    }
}

/// What a set-up has left behind it does not come back to: it puts each question, and writes
/// the site configuration, once at most.
pub proof fn law_init_never_comes_back(
    state: InitView,
    events: Seq<Event<Seq<char>>>,
    i: int,
    j: int,
)
    requires
        0 <= i <= j <= events.len(),
    ensures
        ({
            let earlier = init_run(state, events.take(i));
            let later = init_run(state, events.take(j));
            later == earlier || init_rank(later) > init_rank(earlier)
        }),
    decreases j,
{
    if i < j {
        law_init_never_comes_back(state, events, i, j - 1);
        assert(events.take(j).drop_last() =~= events.take(j - 1));
        law_init_goes_forward(init_run(state, events.take(j - 1)), events[j - 1]);
    }
}

/// The flag that is no longer there is refused before anything is read or asked.
pub proof fn law_init_refuses_the_old_flag_first(
    args: Seq<Seq<char>>,
    env: Environment<Seq<char>>,
    events: Seq<Event<Seq<char>>>,
)
    requires
        args.contains("--visibility"@),
    ensures
        init_action(init_run(init_start(args, env), events)) == Action::Fail(
            crate::access::VISIBILITY_FLAG_GONE@,
        ),
    decreases events.len(),
{
    if events.len() > 0 {
        law_init_refuses_the_old_flag_first(args, env, events.drop_last());
        let before = init_run(init_start(args, env), events.drop_last());
        assert(before is Failed);
    }
}

/// Where the service does not say what it is, the site is saved all the same: with every
/// setting on the command line and no user there, the set-up saves them as they were given,
/// and previews no address.
pub proof fn law_init_needs_no_metadata(
    args: Seq<Seq<char>>,
    api_base: Seq<char>,
    slug: Seq<char>,
    publish_dir: Seq<char>,
    access: Access,
    existing: Option<SiteConfig<Seq<char>>>,
)
    requires
        slug_setting(
            args,
            match existing {
                Some(site) => Some(site.slug),
                None => None,
            },
            api_label(Some(api_base), None),
            false,
        ) == Resolved::Known(slug),
        publish_dir_setting(
            args,
            match existing {
                Some(site) => site.publish_dir,
                None => "."@,
            },
            false,
        ) == Resolved::Known(publish_dir),
        access_setting(
            args,
            match existing {
                Some(site) => site.access,
                None => DEFAULT_ACCESS,
            },
            false,
        ) == Ok::<Selected<Access>, Seq<char>>(Selected::Known(access)),
    ensures
        ({
            let first = Init::FetchMetadata { args, interactive: false, api_base };
            let second = init_next(first, Event::Metadata(None));
            let third = init_next(second, Event::Site(existing));
            &&& init_action(third) == Action::SaveSite(SiteConfig { slug, publish_dir, access })
            &&& init_action(init_next(third, Event::Done)) == Action::Finish(init_lines(slug, None))
        }),
{
}

/// The slug that a set-up takes from the command line is well formed and not reserved.
pub proof fn law_init_takes_only_valid_slugs(
    args: Seq<Seq<char>>,
    default_slug: Option<Seq<char>>,
    label: Option<Seq<char>>,
    interactive: bool,
)
    ensures
        slug_setting(args, default_slug, label, interactive) matches Resolved::Known(slug)
            ==> crate::slug::is_slug(slug) && !crate::slug::reserved_with(label).contains(slug),
{
}

/// What a set-up was told: by the files, by the user in answer to its questions, and by the
/// service.
#[derive(Debug, PartialEq, Eq)]
pub struct InitTold<T = String> {
    /// The configuration that was read.
    pub stored: Option<StoredConfig<T>>,
    /// The answer to the question `API base URL`.
    pub api_base: Option<T>,
    /// What the service says of itself.
    pub metadata: Option<ApiMetadata<T>>,
    /// The site configuration that was read.
    pub existing: Option<SiteConfig<T>>,
    /// The answer to the question `Project slug`.
    pub slug: Option<T>,
    /// The answer to the question `Publish directory`.
    pub publish_dir: Option<T>,
    /// The option that was chosen.
    pub option: Option<usize>,
}

/// What is known to have been told when an event answers what was asked for.
pub open spec fn init_told_next(
    told: InitTold<Seq<char>>,
    asked: Action<Seq<char>>,
    event: Event<Seq<char>>,
) -> InitTold<Seq<char>> {
    match (asked, event) {
        (Action::ReadConfig, Event::Config(stored)) => InitTold { stored, ..told },
        (Action::FetchMetadata(_), Event::Metadata(metadata)) => InitTold { metadata, ..told },
        (Action::ReadSite, Event::Site(existing)) => InitTold { existing, ..told },
        (Action::Ask(question), Event::Answered(answer)) => if question.label == "API base URL"@ {
            InitTold { api_base: Some(answer), ..told }
        } else if question.label == "Project slug"@ {
            InitTold { slug: Some(answer), ..told }
        } else if question.label == "Publish directory"@ {
            InitTold { publish_dir: Some(answer), ..told }
        } else {
            told
        },
        (Action::Choose { choice, marked }, Event::Chosen(option)) => InitTold {
            option: Some(option),
            ..told
        },
        _ => told,
    }
}

/// What a set-up was told by a series of events.
pub open spec fn init_told(start: InitView, events: Seq<Event<Seq<char>>>) -> InitTold<Seq<char>>
    decreases events.len(),
{
    if events.len() == 0 {
        InitTold {
            stored: None,
            api_base: None,
            metadata: None,
            existing: None,
            slug: None,
            publish_dir: None,
            option: None,
        }
    } else {
        init_told_next(
            init_told(start, events.drop_last()),
            init_action(init_run(start, events.drop_last())),
            events.last(),
        )
    }
}

/// The slug that was given: by the flag, without its margins, else by the user.
pub open spec fn given_slug(args: Seq<Seq<char>>, told: InitTold<Seq<char>>) -> Option<Seq<char>> {
    match flag_value(args, "--slug"@) {
        Some(value) => Some(trimmed(value)),
        None => told.slug,
    }
}

/// The directory that was given: by the flag, without its margins, else by the user.
pub open spec fn given_publish_dir(args: Seq<Seq<char>>, told: InitTold<Seq<char>>) -> Option<
    Seq<char>,
> {
    match flag_value(args, "--publish-dir"@) {
        Some(value) => Some(trimmed(value)),
        None => told.publish_dir,
    }
}

/// Whether `access` is the mode that was given: by the flag, else by the choice of a user who is
/// there, else by the existing site, else public.
pub open spec fn is_given_access(
    args: Seq<Seq<char>>,
    interactive: bool,
    told: InitTold<Seq<char>>,
    access: Access,
) -> bool {
    match flag_value(args, "--access"@) {
        Some(value) => lowercase(trimmed(value)) == (match access {
            Access::Public => "public"@,
            Access::Basic => "basic"@,
            Access::Link => "link"@,
        }),
        None => if interactive {
            told.option == Some(
                match access {
                    Access::Public => 0usize,
                    Access::Basic => 1usize,
                    Access::Link => 2usize,
                },
            )
        } else {
            match told.existing {
                Some(site) => access == site.access,
                None => access == Access::Public,
            }
        },
    }
}

/// The base URL in the configuration that was read.
pub open spec fn base_of_stored(told: InitTold<Seq<char>>) -> Option<Seq<char>> {
    match told.stored {
        Some(config) => Some(config.api_base),
        None => None,
    }
}

spec fn is_faithful_job(
    args: Seq<Seq<char>>,
    env: Environment<Seq<char>>,
    told: InitTold<Seq<char>>,
    job: InitJobView,
) -> bool {
    &&& job.args == args
    &&& job.interactive == env.interactive
    &&& job.public_suffix == (match told.metadata {
        Some(metadata) => cleaned_opt(metadata.public_suffix),
        None => None,
    })
}

spec fn is_faithful(
    args: Seq<Seq<char>>,
    env: Environment<Seq<char>>,
    told: InitTold<Seq<char>>,
    state: InitView,
) -> bool {
    match state {
        Init::ReadConfig { args: words, interactive, env_api_base } => {
            &&& words == args
            &&& interactive == env.interactive
            &&& env_api_base == env.api_base
            &&& !args.contains("--visibility"@)
        },
        Init::AskApiBase { args: words, interactive, question } => {
            &&& words == args
            &&& interactive == env.interactive
            &&& question.label == "API base URL"@
            &&& flag_value(args, "--api-base"@) is None
            &&& cleaned_opt(env.api_base) is None
            &&& told.stored is None
            &&& !args.contains("--visibility"@)
        },
        Init::FetchMetadata { args: words, interactive, api_base } => {
            &&& words == args
            &&& interactive == env.interactive
            &&& is_given_base(args, env, base_of_stored(told), told.api_base, api_base)
            &&& !args.contains("--visibility"@)
        },
        Init::ReadSite { job } => is_faithful_job(args, env, told, job) && !args.contains(
            "--visibility"@,
        ),
        Init::AskSlug { job, existing, question } => {
            &&& is_faithful_job(args, env, told, job)
            &&& existing == told.existing
            &&& question.label == "Project slug"@
            &&& flag_value(args, "--slug"@) is None
            &&& !args.contains("--visibility"@)
        },
        Init::AskPublishDir { job, slug, default_access, question } => {
            &&& is_faithful_job(args, env, told, job)
            &&& given_slug(args, told) == Some(slug)
            &&& question.label == "Publish directory"@
            &&& flag_value(args, "--publish-dir"@) is None
            &&& default_access == (match told.existing {
                Some(site) => site.access,
                None => Access::Public,
            })
            &&& !args.contains("--visibility"@)
        },
        Init::ChooseAccess { job, slug, publish_dir, marked } => {
            &&& is_faithful_job(args, env, told, job)
            &&& given_slug(args, told) == Some(slug)
            &&& given_publish_dir(args, told) == Some(publish_dir)
            &&& flag_value(args, "--access"@) is None
            &&& env.interactive
        },
        Init::Save { site, public_suffix } => {
            &&& given_slug(args, told) == Some(site.slug)
            &&& given_publish_dir(args, told) == Some(site.publish_dir)
            &&& is_given_access(args, env.interactive, told, site.access)
            &&& public_suffix == (match told.metadata {
                Some(metadata) => cleaned_opt(metadata.public_suffix),
                None => None,
            })
        },
        Init::Finished { slug, public_suffix } => {
            &&& given_slug(args, told) == Some(slug)
            &&& public_suffix == (match told.metadata {
                Some(metadata) => cleaned_opt(metadata.public_suffix),
                None => None,
            })
        },
        Init::Failed { message } => true,
    }
}

proof fn lemma_labels_differ()
    ensures
        "API base URL"@ != "Project slug"@,
        "API base URL"@ != "Publish directory"@,
        "Project slug"@ != "Publish directory"@,
{
    reveal_strlit("API base URL");
    reveal_strlit("Project slug");
    reveal_strlit("Publish directory");
    assert("API base URL"@[0] == 'A');
    assert("Project slug"@[1] == 'r' && "Publish directory"@[1] == 'u');
}

proof fn lemma_with_publish_dir_is_faithful(
    args: Seq<Seq<char>>,
    env: Environment<Seq<char>>,
    told: InitTold<Seq<char>>,
    job: InitJobView,
    slug: Seq<char>,
    default_access: Access,
    publish_dir: Seq<char>,
)
    requires
        is_faithful_job(args, env, told, job),
        given_slug(args, told) == Some(slug),
        given_publish_dir(args, told) == Some(publish_dir),
        default_access == (match told.existing {
            Some(site) => site.access,
            None => Access::Public,
        }),
        !args.contains("--visibility"@),
    ensures
        is_faithful(args, env, told, with_publish_dir(job, slug, default_access, publish_dir)),
{
    crate::resolve::law_access_flag_is_obeyed(args, default_access, env.interactive);
    if let Some(value) = flag_value(args, "--access"@) {
        crate::access::law_access_goes_by_its_word(value);
    }
}

proof fn lemma_with_slug_is_faithful(
    args: Seq<Seq<char>>,
    env: Environment<Seq<char>>,
    told: InitTold<Seq<char>>,
    job: InitJobView,
    slug: Seq<char>,
)
    requires
        is_faithful_job(args, env, told, job),
        given_slug(args, told) == Some(slug),
        !args.contains("--visibility"@),
    ensures
        is_faithful(args, env, told, with_slug(job, told.existing, slug)),
{
    let default_access = match told.existing {
        Some(site) => site.access,
        None => Access::Public,
    };
    if let Some(value) = flag_value(args, "--publish-dir"@) {
        lemma_with_publish_dir_is_faithful(
            args,
            env,
            told,
            job,
            slug,
            default_access,
            trimmed(value),
        );
    }
}

#[verifier::spinoff_prover]
#[verifier::rlimit(40)]
proof fn lemma_step_is_faithful(
    args: Seq<Seq<char>>,
    env: Environment<Seq<char>>,
    told: InitTold<Seq<char>>,
    state: InitView,
    event: Event<Seq<char>>,
)
    requires
        is_faithful(args, env, told, state),
    ensures
        is_faithful(
            args,
            env,
            init_told_next(told, init_action(state), event),
            init_next(state, event),
        ),
{
    lemma_labels_differ();
    let after = init_told_next(told, init_action(state), event);
    match (state, event) {
        (Init::ReadSite { job }, Event::Site(existing)) => {
            if let Some(value) = flag_value(args, "--slug"@) {
                lemma_with_slug_is_faithful(args, env, after, job, trimmed(value));
            }
        },
        (Init::AskSlug { job, existing, question }, Event::Answered(slug)) => {
            lemma_with_slug_is_faithful(args, env, after, job, slug);
        },
        (Init::AskPublishDir { job, slug, default_access, question }, Event::Answered(dir)) => {
            lemma_with_publish_dir_is_faithful(args, env, after, job, slug, default_access, dir);
        },
        _ => {},
    }
}

proof fn lemma_init_is_faithful(
    args: Seq<Seq<char>>,
    env: Environment<Seq<char>>,
    events: Seq<Event<Seq<char>>>,
)
    ensures
        ({
            let start = init_start(args, env);
            is_faithful(args, env, init_told(start, events), init_run(start, events))
        }),
    decreases events.len(),
{
    let start = init_start(args, env);
    if events.len() > 0 {
        lemma_init_is_faithful(args, env, events.drop_last());
        lemma_step_is_faithful(
            args,
            env,
            init_told(start, events.drop_last()),
            init_run(start, events.drop_last()),
            events.last(),
        );
    }
}

/// Whatever happens, the site that a set-up saves has the slug, the directory and the access
/// mode that were given, each by its flag or else by the user or what there was before. The
/// lines at the end name what to do next and preview the address of that slug.
pub proof fn law_saved_site_is_what_was_given(
    args: Seq<Seq<char>>,
    env: Environment<Seq<char>>,
    events: Seq<Event<Seq<char>>>,
)
    ensures
        ({
            let start = init_start(args, env);
            let told = init_told(start, events);
            let action = init_action(init_run(start, events));
            &&& action matches Action::SaveSite(site) ==> {
                &&& given_slug(args, told) == Some(site.slug)
                &&& given_publish_dir(args, told) == Some(site.publish_dir)
                &&& is_given_access(args, env.interactive, told, site.access)
            }
            &&& action matches Action::FetchMetadata(request) ==> {
                &&& request.method == crate::http::Method::Get
                &&& exists|base: Seq<char>| #[trigger]
                    is_given_base(args, env, base_of_stored(told), told.api_base, base)
                        && request.url == base + "/v1/meta"@
            }
            &&& action matches Action::Finish(lines) ==> (given_slug(args, told) matches Some(slug)
                && ({
                let said =
                    "saved .cfsurge.json\nnext step: run \"cfsurge publish\" to deploy this site"@;
                let suffix = match told.metadata {
                    Some(metadata) => cleaned_opt(metadata.public_suffix),
                    None => None,
                };
                &&& suffix is None ==> lines == said
                &&& suffix matches Some(suffix) ==> lines == said
                    + "\npublic URL preview: https://"@ + slug + "."@ + suffix
            }))
        }),
{
    lemma_init_is_faithful(args, env, events);
    let start = init_start(args, env);
    let told = init_told(start, events);
    match init_run(start, events) {
        Init::FetchMetadata { args: words, interactive, api_base } => {
            assert(is_given_base(args, env, base_of_stored(told), told.api_base, api_base));
        },
        Init::Finished { slug, public_suffix } => {
            reveal_strlit("saved ");
            reveal_strlit(".cfsurge.json");
            reveal_strlit("\nnext step: run \"cfsurge publish\" to deploy this site");
            reveal_strlit(
                "saved .cfsurge.json\nnext step: run \"cfsurge publish\" to deploy this site",
            );
            assert("saved "@ + ".cfsurge.json"@
                + "\nnext step: run \"cfsurge publish\" to deploy this site"@
                =~= "saved .cfsurge.json\nnext step: run \"cfsurge publish\" to deploy this site"@);
        },
        _ => {},
    }
}

/// What is missing is asked for, one thing after the other: the base URL, the slug, the
/// directory and the access mode. Then the site is saved, and the set-up is done.
pub proof fn law_init_asks_for_what_is_missing(
    args: Seq<Seq<char>>,
    env: Environment<Seq<char>>,
    base: Seq<char>,
    metadata: Option<ApiMetadata<Seq<char>>>,
    existing: Option<SiteConfig<Seq<char>>>,
    slug: Seq<char>,
    publish_dir: Seq<char>,
    access: Access,
)
    requires
        env.interactive,
        !args.contains("--visibility"@),
        flag_value(args, "--api-base"@) is None,
        cleaned_opt(env.api_base) is None,
        flag_value(args, "--slug"@) is None,
        flag_value(args, "--publish-dir"@) is None,
        flag_value(args, "--access"@) is None,
    ensures
        ({
            let first = init_start(args, env);
            let second = init_next(first, Event::Config(None));
            let third = init_next(second, Event::Answered(base));
            let fourth = init_next(third, Event::Metadata(metadata));
            let fifth = init_next(fourth, Event::Site(existing));
            let sixth = init_next(fifth, Event::Answered(slug));
            let seventh = init_next(sixth, Event::Answered(publish_dir));
            let option = match access {
                Access::Public => 0usize,
                Access::Basic => 1usize,
                Access::Link => 2usize,
            };
            let eighth = init_next(seventh, Event::Chosen(option));
            let ninth = init_next(eighth, Event::Done);
            &&& init_action(first) is ReadConfig
            &&& init_action(second) matches Action::Ask(question) && question.label
                == "API base URL"@
            &&& init_action(third) matches Action::FetchMetadata(request) && request.url == base
                + "/v1/meta"@
            &&& init_action(fourth) is ReadSite
            &&& init_action(fifth) matches Action::Ask(question) && question.label
                == "Project slug"@ && question.kind == (crate::prompt::AnswerKind::Slug {
                api_label: api_label(Some(base), metadata),
            }) && (existing matches Some(site) ==> question.default_value
                == Some(site.slug))
            &&& init_action(sixth) matches Action::Ask(question) && question.label
                == "Publish directory"@ && (existing matches Some(site) ==> question.default_value
                == Some(site.publish_dir)) && (existing is None ==> question.default_value == Some(
                "."@,
            ))
            &&& init_action(seventh) matches Action::Choose { choice, marked } && choice
                == Choice::Access && (existing is None ==> marked == 0) && (existing matches Some(
                site,
            ) ==> marked == match site.access {
                Access::Public => 0,
                Access::Basic => 1,
                Access::Link => 2int,
            })
            &&& init_action(eighth) == Action::SaveSite(SiteConfig { slug, publish_dir, access })
            &&& init_action(ninth) is Finish
        }),
{
}

/// A set-up that has everything on its command line asks nothing: it saves what was given.
pub proof fn law_init_with_flags_goes_through(
    args: Seq<Seq<char>>,
    env: Environment<Seq<char>>,
    stored: StoredConfig<Seq<char>>,
    metadata: Option<ApiMetadata<Seq<char>>>,
    existing: Option<SiteConfig<Seq<char>>>,
    base: Seq<char>,
    slug: Seq<char>,
    publish_dir: Seq<char>,
    word: Seq<char>,
    access: Access,
)
    requires
        !args.contains("--visibility"@),
        is_given_base(args, env, Some(stored.api_base), None, base),
        flag_value(args, "--slug"@) == Some(slug),
        crate::slug::is_slug(trimmed(slug)),
        !crate::slug::reserved_with(api_label(Some(base), metadata)).contains(trimmed(slug)),
        flag_value(args, "--publish-dir"@) == Some(publish_dir),
        trimmed(publish_dir).len() > 0,
        flag_value(args, "--access"@) == Some(word),
        crate::text::lowercase(trimmed(word)) == crate::access::access_word(access),
    ensures
        ({
            let first = init_start(args, env);
            let second = init_next(first, Event::Config(Some(stored)));
            let third = init_next(second, Event::Metadata(metadata));
            let fourth = init_next(third, Event::Site(existing));
            let fifth = init_next(fourth, Event::Done);
            &&& init_action(first) is ReadConfig
            &&& init_action(second) matches Action::FetchMetadata(request) && request.url == base
                + "/v1/meta"@
            &&& init_action(third) is ReadSite
            &&& init_action(fourth) == Action::SaveSite(
                SiteConfig { slug: trimmed(slug), publish_dir: trimmed(publish_dir), access },
            )
            &&& init_action(fifth) is Finish
        }),
{
    crate::access::law_access_goes_by_its_word(word);
    crate::access::law_access_word_reads_back(access);
}

/// Where no user is there, who may read the site is what it was before, else everyone.
pub proof fn law_init_keeps_the_access_unattended(
    job: InitJobView,
    slug: Seq<char>,
    default_access: Access,
    question: crate::prompt::Question<Seq<char>>,
    publish_dir: Seq<char>,
    existing: Option<SiteConfig<Seq<char>>>,
)
    requires
        !job.interactive,
        !job.args.contains("--visibility"@),
        flag_value(job.args, "--access"@) is None,
    ensures
        init_action(
            init_next(
                Init::AskPublishDir { job, slug, default_access, question },
                Event::Answered(publish_dir),
            ),
        ) == Action::SaveSite(SiteConfig { slug, publish_dir, access: default_access }),
        init_next(Init::AskSlug { job, existing, question }, Event::Answered(slug)) matches Init::AskPublishDir {
            job: _,
            slug: _,
            default_access,
            question: _,
        } ==> {
            &&& existing is None ==> default_access == Access::Public
            &&& existing matches Some(site) ==> default_access == site.access
        },
{
}

} // verus!
