//! Removing a project: which one, with which login, and what came of it.
use crate::args::copy_args;
use crate::config::CliConfig;
use crate::http::{reply_outcome, Reply, Request};
use crate::projects::{
    remove_project, remove_project_request, removal_request, removal_target, resolve_removal_target,
};
use crate::site::SiteConfig;
use vstd::prelude::*;

verus! {

/// A removal in progress, as the contracts speak of it.
pub type RemovalView = Removal<Seq<char>, Seq<Seq<char>>>;

/// A removal in progress: what it waits for, and what it knows so far.
#[derive(Debug, PartialEq, Eq)]
pub enum Removal<T = String, A = Vec<String>> {
    ReadSite { args: A },
    ReadLogin { slug: T },
    Remove { slug: T, request: Request<T> },
    Finished { line: T },
    Failed { message: T },
}

impl DeepView for Removal {
    type V = RemovalView;

    open spec fn deep_view(&self) -> RemovalView {
        match self {
            Removal::ReadSite { args } => Removal::ReadSite { args: args.deep_view() },
            Removal::ReadLogin { slug } => Removal::ReadLogin { slug: slug@ },
            Removal::Remove { slug, request } => Removal::Remove {
                slug: slug@,
                request: request.deep_view(),
            },
            Removal::Finished { line } => Removal::Finished { line: line@ },
            Removal::Failed { message } => Removal::Failed { message: message@ },
        }
    }
}

/// What a removal in progress asks to be done.
#[derive(Debug, PartialEq, Eq)]
pub enum RemovalAction<T = String> {
    /// Read the site configuration.
    ReadSite,
    /// Read the stored login, which must not have a password change due.
    ReadLogin,
    /// Have the service remove the project.
    Remove(Request<T>),
    /// The project is removed: show this line.
    Finish(T),
    /// The removal failed with this message.
    Fail(T),
}

impl DeepView for RemovalAction {
    type V = RemovalAction<Seq<char>>;

    open spec fn deep_view(&self) -> RemovalAction<Seq<char>> {
        match self {
            RemovalAction::ReadSite => RemovalAction::ReadSite,
            RemovalAction::ReadLogin => RemovalAction::ReadLogin,
            RemovalAction::Remove(request) => RemovalAction::Remove(request.deep_view()),
            RemovalAction::Finish(line) => RemovalAction::Finish(line@),
            RemovalAction::Fail(message) => RemovalAction::Fail(message@),
        }
    }
}

/// What a removal in progress is told.
#[derive(Debug, PartialEq, Eq)]
pub enum RemovalEvent<T = String> {
    /// The site configuration that was read.
    Site(Option<SiteConfig<T>>),
    /// The stored login.
    Login(CliConfig<T>),
    /// What the service said to the removal.
    Removed(Reply<(), T>),
    /// What was asked for could not be read.
    Failed(T),
}

impl DeepView for RemovalEvent {
    type V = RemovalEvent<Seq<char>>;

    open spec fn deep_view(&self) -> RemovalEvent<Seq<char>> {
        match self {
            RemovalEvent::Site(site) => RemovalEvent::Site(site.deep_view()),
            RemovalEvent::Login(config) => RemovalEvent::Login(config.deep_view()),
            RemovalEvent::Removed(reply) => RemovalEvent::Removed(reply.deep_view()),
            RemovalEvent::Failed(message) => RemovalEvent::Failed(message@),
        }
    }
}

/// With the site configuration known, so is the project to remove, and the login is next.
pub open spec fn removal_with_site(
    args: Seq<Seq<char>>,
    site: Option<SiteConfig<Seq<char>>>,
) -> RemovalView {
    match removal_target(args, site) {
        Ok(slug) => Removal::ReadLogin { slug },
        Err(message) => Removal::Failed { message },
    }
}

/// With the login known, the slug is judged, and the removal is next.
pub open spec fn removal_with_login(slug: Seq<char>, config: CliConfig<Seq<char>>) -> RemovalView {
    match removal_request(config, slug) {
        Ok(request) => Removal::Remove { slug, request },
        Err(message) => Removal::Failed { message },
    }
}

/// What the service's answer comes to.
pub open spec fn removed(slug: Seq<char>, reply: Reply<(), Seq<char>>) -> RemovalView {
    match reply_outcome(reply, "remove"@) {
        Ok(_) => Removal::Finished { line: "removed "@ + slug },
        Err(message) => Removal::Failed { message },
    }
}

/// What an event makes of a removal in progress. An event that it does not wait for changes
/// nothing.
pub open spec fn removal_next(state: RemovalView, event: RemovalEvent<Seq<char>>) -> RemovalView {
    match (state, event) {
        (Removal::Finished { line }, _) => state,
        (Removal::Failed { message }, _) => state,
        (Removal::Remove { slug, request }, RemovalEvent::Removed(reply)) => removed(slug, reply),
        (Removal::Remove { slug, request }, _) => state,
        (_, RemovalEvent::Failed(message)) => Removal::Failed { message },
        (Removal::ReadSite { args }, RemovalEvent::Site(site)) => removal_with_site(args, site),
        (Removal::ReadLogin { slug }, RemovalEvent::Login(config)) => removal_with_login(
            slug,
            config,
        ),
        _ => state,
    }
}

/// What a removal in progress asks to be done.
pub open spec fn removal_action(state: RemovalView) -> RemovalAction<Seq<char>> {
    match state {
        Removal::ReadSite { args } => RemovalAction::ReadSite,
        Removal::ReadLogin { slug } => RemovalAction::ReadLogin,
        Removal::Remove { slug, request } => RemovalAction::Remove(request),
        Removal::Finished { line } => RemovalAction::Finish(line),
        Removal::Failed { message } => RemovalAction::Fail(message),
    }
}

impl Removal {
    /// Starts a removal.
    pub fn start(args: &[String]) -> (state: Removal)
        ensures
            state.deep_view() == (Removal::<Seq<char>, Seq<Seq<char>>>::ReadSite {
                args: args.deep_view(),
            }),
    {
        Removal::ReadSite { args: copy_args(args) }
    }

    /// What is to be done next.
    pub fn action(&self) -> (action: RemovalAction)
        ensures
            action.deep_view() == removal_action(self.deep_view()),
    {
        match self {
            Removal::ReadSite { .. } => RemovalAction::ReadSite,
            Removal::ReadLogin { .. } => RemovalAction::ReadLogin,
            Removal::Remove { request, .. } => RemovalAction::Remove(request.copy()),
            Removal::Finished { line } => RemovalAction::Finish(line.clone()),
            Removal::Failed { message } => RemovalAction::Fail(message.clone()),
        }
    }

    /// Goes on with what an action came to.
    pub fn next(self, event: RemovalEvent) -> (state: Removal)
        ensures
            state.deep_view() == removal_next(self.deep_view(), event.deep_view()),
    {
        match (self, event) {
            (Removal::Finished { line }, _) => Removal::Finished { line },
            (Removal::Failed { message }, _) => Removal::Failed { message },
            (Removal::Remove { slug, .. }, RemovalEvent::Removed(reply)) => {
                match remove_project(slug.as_str(), reply) {
                    Ok(line) => Removal::Finished { line },
                    Err(message) => Removal::Failed { message },
                }
            },
            (Removal::Remove { slug, request }, _) => Removal::Remove { slug, request },
            (_, RemovalEvent::Failed(message)) => Removal::Failed { message },
            (Removal::ReadSite { args }, RemovalEvent::Site(site)) => {
                let words = args.as_slice();
                assert(words.deep_view() =~= args.deep_view());
                match resolve_removal_target(words, site) {
                    Ok(slug) => Removal::ReadLogin { slug },
                    Err(message) => Removal::Failed { message },
                }
            },
            (Removal::ReadLogin { slug }, RemovalEvent::Login(config)) => {
                match remove_project_request(&config, slug.as_str()) {
                    Ok(request) => Removal::Remove { slug, request },
                    Err(message) => Removal::Failed { message },
                }
            },
            (state, _) => state,
        }
    }
}

/// What a series of events makes of a removal in progress.
pub open spec fn removal_run(
    state: RemovalView,
    events: Seq<RemovalEvent<Seq<char>>>,
) -> RemovalView
    decreases events.len(),
{
    if events.len() == 0 {
        state
    } else {
        removal_next(removal_run(state, events.drop_last()), events.last())
    }
}

/// How far a removal has come.
pub open spec fn removal_rank(state: RemovalView) -> nat {
    match state {
        Removal::ReadSite { .. } => 0,
        Removal::ReadLogin { .. } => 1,
        Removal::Remove { .. } => 2,
        Removal::Finished { .. } => 3,
        Removal::Failed { .. } => 3,
    }
}

/// The request that removes a project, or the first reason to refuse it: a fault in the site
/// configuration, no project named, the stored login, the slug.
pub open spec fn removal_of(
    args: Seq<Seq<char>>,
    site: Result<Option<SiteConfig<Seq<char>>>, Seq<char>>,
    login: Result<CliConfig<Seq<char>>, Seq<char>>,
) -> Result<(Seq<char>, Request<Seq<char>>), Seq<char>> {
    if let Err(message) = site {
        Err(message)
    } else if let Err(message) = removal_target(args, site->Ok_0) {
        Err(message)
    } else if let Err(message) = login {
        Err(message)
    } else {
        let slug = removal_target(args, site->Ok_0)->Ok_0;
        match removal_request(login->Ok_0, slug) {
            Ok(request) => Ok((slug, request)),
            Err(message) => Err(message),
        }
    }
}

/// The state that a removal is in once it may be asked for, or is refused.
pub open spec fn decided(
    outcome: Result<(Seq<char>, Request<Seq<char>>), Seq<char>>,
) -> RemovalView {
    match outcome {
        Ok((slug, request)) => Removal::Remove { slug, request },
        Err(message) => Removal::Failed { message },
    }
}

/// The event that reading the site configuration gives.
pub open spec fn site_event(site: Result<Option<SiteConfig<Seq<char>>>, Seq<char>>) -> RemovalEvent<
    Seq<char>,
> {
    match site {
        Ok(site) => RemovalEvent::Site(site),
        Err(message) => RemovalEvent::Failed(message),
    }
}

/// The event that reading the stored login gives.
pub open spec fn login_event(login: Result<CliConfig<Seq<char>>, Seq<char>>) -> RemovalEvent<
    Seq<char>,
> {
    match login {
        Ok(config) => RemovalEvent::Login(config),
        Err(message) => RemovalEvent::Failed(message),
    }
}

/// The checks before a removal refuse it in one order, whatever there is to refuse: a fault in
/// the site configuration, no project named, the stored login, the slug.
pub proof fn law_removal_is_refused_in_order(
    args: Seq<Seq<char>>,
    site: Result<Option<SiteConfig<Seq<char>>>, Seq<char>>,
    login: Result<CliConfig<Seq<char>>, Seq<char>>,
)
    ensures
        removal_run(Removal::ReadSite { args }, seq![site_event(site), login_event(login)])
            == decided(removal_of(args, site, login)),
{
    let events = seq![site_event(site), login_event(login)];
    assert(events.drop_last() =~= seq![events[0]]);
    assert(events.drop_last().drop_last() =~= Seq::empty());
    reveal_with_fuel(removal_run, 3);
}

/// A removal only goes forward.
pub proof fn law_removal_goes_forward(state: RemovalView, event: RemovalEvent<Seq<char>>)
    ensures
        removal_next(state, event) == state || removal_rank(removal_next(state, event))
            > removal_rank(state),
{
}

/// What a removal has left behind it does not come back to: the service is asked once at most.
pub proof fn law_removal_never_comes_back(
    state: RemovalView,
    events: Seq<RemovalEvent<Seq<char>>>,
    i: int,
    j: int,
)
    requires
        0 <= i <= j <= events.len(),
    ensures
        ({
            let earlier = removal_run(state, events.take(i));
            let later = removal_run(state, events.take(j));
            later == earlier || removal_rank(later) > removal_rank(earlier)
        }),
    decreases j,
{
    if i < j {
        law_removal_never_comes_back(state, events, i, j - 1);
        assert(events.take(j).drop_last() =~= events.take(j - 1));
        law_removal_goes_forward(removal_run(state, events.take(j - 1)), events[j - 1]);
    }
}

/// A removal that nothing stands against asks the service to delete the named project, and says
/// so when it is done; a refusal says what the service said.
pub proof fn law_removal_goes_through(
    args: Seq<Seq<char>>,
    site: Option<SiteConfig<Seq<char>>>,
    config: CliConfig<Seq<char>>,
    slug: Seq<char>,
    status: u16,
    body: Seq<char>,
    message: Seq<char>,
)
    requires
        crate::args::either(
            crate::args::positional(args),
            match site {
                Some(site) => Some(site.slug),
                None => None,
            },
        ) == Some(slug),
        crate::publish::slug_allowed_at(slug, config.api_base) is Ok,
        crate::address::bearer_header(config.token) is Ok,
    ensures
        ({
            let first = Removal::ReadSite { args };
            let second = removal_next(first, RemovalEvent::Site(site));
            let third = removal_next(second, RemovalEvent::Login(config));
            &&& removal_action(first) is ReadSite
            &&& removal_action(second) is ReadLogin
            &&& removal_action(third) matches RemovalAction::Remove(request) && request.method
                == crate::http::Method::Delete && request.url == config.api_base + "/v1/projects/"@
                + slug
            &&& removal_action(removal_next(third, RemovalEvent::Removed(Reply::Accepted(()))))
                == RemovalAction::Finish("removed "@ + slug)
            &&& removal_action(
                removal_next(third, RemovalEvent::Removed(Reply::Refused { status, body })),
            ) == RemovalAction::Fail("remove"@ + " failed: "@ + body)
            &&& removal_action(
                removal_next(third, RemovalEvent::Removed(Reply::Failed(message))),
            ) == RemovalAction::Fail(message)
        }),
{
    crate::projects::law_named_project_is_removed(args, site, config, slug);
}

} // verus!
