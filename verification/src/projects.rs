//! Listing and removing projects.
use crate::access::{access_from, access_word, normalize_access, Access, DEFAULT_ACCESS};
use crate::args::{cleaned_opt, either, positional, read_positional_arg, read_string_opt, value_or};
use crate::config::CliConfig;
use crate::http::{
    accept_reply, endpoint_url, join_project_url, join_url, project_url, reply_outcome, Method, Reply,
    Request,
};
use crate::publish::{assert_slug_allowed, slug_allowed_at};
use crate::session::{build_token_request, token_request};
use crate::site::SiteConfig;
use crate::text::outcome;
use vstd::prelude::*;

verus! {

/// What the service says of a project.
#[derive(Debug, PartialEq, Eq)]
pub struct ProjectRecord<T = String> {
    pub slug: T,
    pub hostname: Option<T>,
    pub access: Option<T>,
    pub served_url: Option<T>,
    pub public_url: Option<T>,
    pub share_url: Option<T>,
    pub active_deployment_id: Option<T>,
    pub updated_at: Option<T>,
    pub updated_by: Option<T>,
}

impl DeepView for ProjectRecord {
    type V = ProjectRecord<Seq<char>>;

    open spec fn deep_view(&self) -> ProjectRecord<Seq<char>> {
        ProjectRecord {
            slug: self.slug@,
            hostname: self.hostname.deep_view(),
            access: self.access.deep_view(),
            served_url: self.served_url.deep_view(),
            public_url: self.public_url.deep_view(),
            share_url: self.share_url.deep_view(),
            active_deployment_id: self.active_deployment_id.deep_view(),
            updated_at: self.updated_at.deep_view(),
            updated_by: self.updated_by.deep_view(),
        }
    }
}

pub const REMOVE_USAGE: &'static str =
    "usage: cfsurge remove [slug] (or configure .cfsurge.json via cfsurge init)";

/// Where a project is served, as far as the service says.
pub open spec fn project_address(project: ProjectRecord<Seq<char>>) -> Option<Seq<char>> {
    either(
        cleaned_opt(project.served_url),
        either(cleaned_opt(project.public_url), cleaned_opt(project.hostname)),
    )
}

/// The line that lists a project: slug, access mode, address, active deployment, when and by
/// whom it was updated, and share link, with tabs between them and hyphens for what is absent.
pub open spec fn project_line(project: ProjectRecord<Seq<char>>) -> Seq<char> {
    project.slug + "\t"@ + access_word(value_or(access_from(project.access), DEFAULT_ACCESS))
        + "\t"@ + value_or(project_address(project), "-"@) + "\t"@ + value_or(
        project.active_deployment_id,
        "-"@,
    ) + "\t"@ + value_or(project.updated_at, "-"@) + "\t"@ + value_or(project.updated_by, "-"@)
        + "\t"@ + value_or(cleaned_opt(project.share_url), "-"@)
}

/// The lines that list projects.
pub open spec fn project_lines(projects: Seq<ProjectRecord<Seq<char>>>) -> Seq<Seq<char>> {
    if projects.len() == 0 {
        seq!["no projects"@]
    } else {
        projects.map_values(|project: ProjectRecord<Seq<char>>| project_line(project))
    }
}

/// What listing projects came to.
pub open spec fn listed(reply: Reply<Seq<ProjectRecord<Seq<char>>>, Seq<char>>) -> Result<
    Seq<Seq<char>>,
    Seq<char>,
> {
    match reply_outcome(reply, "list"@) {
        Ok(projects) => Ok(project_lines(projects)),
        Err(message) => Err(message),
    }
}

/// The project to remove: the first word, else that of the site configuration.
pub open spec fn removal_target(
    args: Seq<Seq<char>>,
    site: Option<SiteConfig<Seq<char>>>,
) -> Result<Seq<char>, Seq<char>> {
    match either(
        positional(args),
        match site {
            Some(site) => Some(site.slug),
            None => None,
        },
    ) {
        Some(slug) => Ok(slug),
        None => Err(REMOVE_USAGE@),
    }
}

/// The request that removes a project.
pub open spec fn removal_request(config: CliConfig<Seq<char>>, slug: Seq<char>) -> Result<
    Request<Seq<char>>,
    Seq<char>,
> {
    match slug_allowed_at(slug, config.api_base) {
        Err(message) => Err(message),
        Ok(()) => token_request(
            Method::Delete,
            project_url(config.api_base, slug, Seq::empty()),
            config.token,
        ),
    }
}

fn text_or_hyphen(text: &Option<String>) -> (shown: String)
    ensures
        shown@ == value_or(text.deep_view(), "-"@),
{
    match text {
        Some(text) => text.clone(),
        None => "-".to_string(),
    }
}

/// The line that lists a project.
pub fn describe_project(project: &ProjectRecord) -> (line: String)
    ensures
        line@ == project_line(project.deep_view()),
{
    let word = match &project.access {
        Some(access) => normalize_access(Some(access.as_str())),
        None => None,
    };
    let access = match word {
        Some(access) => access,
        None => DEFAULT_ACCESS,
    };
    let address = match read_string_opt(project.served_url.as_ref()) {
        Some(url) => Some(url),
        None => match read_string_opt(project.public_url.as_ref()) {
            Some(url) => Some(url),
            None => read_string_opt(project.hostname.as_ref()),
        },
    };
    let mut line = project.slug.clone();
    line.append("\t");
    line.append(access.as_str());
    line.append("\t");
    line.append(text_or_hyphen(&address).as_str());
    line.append("\t");
    line.append(text_or_hyphen(&project.active_deployment_id).as_str());
    line.append("\t");
    line.append(text_or_hyphen(&project.updated_at).as_str());
    line.append("\t");
    line.append(text_or_hyphen(&project.updated_by).as_str());
    line.append("\t");
    line.append(text_or_hyphen(&read_string_opt(project.share_url.as_ref())).as_str());
    line
}

/// The request that lists projects.
pub fn list_projects_request(config: &CliConfig) -> (request: Result<Request, String>)
    ensures
        outcome(request) == token_request(
            Method::Get,
            endpoint_url(config.api_base@, "/v1/projects"@),
            config.token@,
        ),
{
    build_token_request(
        Method::Get,
        join_url(config.api_base.as_str(), "/v1/projects"),
        config.token.as_str(),
    )
}

/// The lines that list the projects.
pub fn list_projects(reply: Reply<Vec<ProjectRecord>>) -> (lines: Result<Vec<String>, String>)
    ensures
        outcome(lines) == listed(reply.deep_view()),
{
    let projects = match accept_reply(reply, "list") {
        Ok(projects) => projects,
        Err(message) => return Err(message),
    };
    let mut lines: Vec<String> = Vec::new();
    if projects.len() == 0 {
        lines.push("no projects".to_string());
        assert(lines.deep_view() =~= project_lines(projects.deep_view()));
        return Ok(lines);
    }
    for i in 0..projects.len()
        invariant
            projects.len() > 0,
            lines.deep_view() =~= project_lines(projects.deep_view()).take(i as int),
    {
        let line = describe_project(&projects[i]);
        let ghost before = lines.deep_view();
        lines.push(line);
        proof {
            assert(projects.deep_view()[i as int] == projects[i as int].deep_view());
            assert(lines.deep_view() =~= before.push(line@));
        }
    }
    assert(lines.deep_view() =~= project_lines(projects.deep_view()));
    Ok(lines)
}

/// The project to remove: the first word, else that of the site configuration.
pub fn resolve_removal_target(args: &[String], site: Option<SiteConfig>) -> (slug: Result<
    String,
    String,
>)
    ensures
        outcome(slug) == removal_target(args.deep_view(), site.deep_view()),
{
    match read_positional_arg(args) {
        Some(slug) => Ok(slug),
        None => match site {
            Some(site) => Ok(site.slug),
            None => Err(REMOVE_USAGE.to_string()),
        },
    }
}

/// The request that removes a project.
pub fn remove_project_request(config: &CliConfig, slug: &str) -> (request: Result<Request, String>)
    ensures
        outcome(request) == removal_request(config.deep_view(), slug@),
{
    if let Err(message) = assert_slug_allowed(slug, config.api_base.as_str()) {
        return Err(message);
    }
    let url = join_project_url(config.api_base.as_str(), slug, "");
    proof {
        reveal_strlit("");
        assert(""@ =~= Seq::<char>::empty());
    }
    build_token_request(Method::Delete, url, config.token.as_str())
}

/// What removing a project came to: the line that says so.
pub fn remove_project(slug: &str, reply: Reply<()>) -> (line: Result<String, String>)
    ensures
        outcome(line) == (match reply_outcome(reply.deep_view(), "remove"@) {
            Ok(_) => Ok::<Seq<char>, Seq<char>>("removed "@ + slug@),
            Err(message) => Err(message),
        }),
{
    match accept_reply(reply, "remove") {
        Ok(_) => {
            let mut line = "removed ".to_string();
            line.append(slug);
            Ok(line)
        },
        Err(message) => Err(message),
    }
}

/// A listing has a line for each project, in their order, or says that there are none.
pub proof fn law_listing_has_a_line_for_each_project(projects: Seq<ProjectRecord<Seq<char>>>)
    ensures
        project_lines(projects).len() == if projects.len() == 0 {
            1
        } else {
            projects.len()
        },
        forall|i: int|
            0 <= i < projects.len() ==> #[trigger] project_lines(projects)[i] == project_line(
                projects[i],
            ),
{
}

/// No request is made for a slug that is reserved or malformed.
pub proof fn law_removal_refuses_reserved_slugs(config: CliConfig<Seq<char>>, slug: Seq<char>)
    ensures
        removal_request(config, slug) is Ok ==> crate::slug::is_slug(slug)
            && !crate::slug::reserved_with(
            crate::slug::api_label(Some(config.api_base), None),
        ).contains(slug),
{
}

/// The line for a project holds the slug, the access mode, the address, the active deployment,
/// when and by whom it was updated, and the share link, in this order and each in its own
/// column.
pub proof fn law_project_line_has_seven_columns(
    slug: Seq<char>,
    access: Access,
    served_url: Seq<char>,
    active: Seq<char>,
    updated_at: Seq<char>,
    updated_by: Seq<char>,
    share_url: Seq<char>,
    hostname: Option<Seq<char>>,
    public_url: Option<Seq<char>>,
)
    requires
        crate::config::is_clean(Some(served_url)),
        crate::config::is_clean(Some(share_url)),
    ensures
        project_line(
            ProjectRecord {
                slug,
                hostname,
                access: Some(access_word(access)),
                served_url: Some(served_url),
                public_url,
                active_deployment_id: Some(active),
                updated_at: Some(updated_at),
                updated_by: Some(updated_by),
                share_url: Some(share_url),
            },
        ) == slug + "\t"@ + access_word(access) + "\t"@ + served_url + "\t"@ + active + "\t"@
            + updated_at + "\t"@ + updated_by + "\t"@ + share_url,
        project_line(
            ProjectRecord {
                slug,
                hostname: None,
                access: None,
                served_url: None,
                public_url: None,
                active_deployment_id: None,
                updated_at: None,
                updated_by: None,
                share_url: None,
            },
        ) == slug + "\t"@ + "public"@ + "\t"@ + "-"@ + "\t"@ + "-"@ + "\t"@ + "-"@ + "\t"@ + "-"@
            + "\t"@ + "-"@,
{
    crate::access::law_access_word_reads_back(access);
}

/// The address of a project is where it is served, else its public address, else its host name.
pub proof fn law_project_address_precedence(project: ProjectRecord<Seq<char>>)
    ensures
        cleaned_opt(project.served_url) is Some ==> project_address(project) == cleaned_opt(
            project.served_url,
        ),
        cleaned_opt(project.served_url) is None && cleaned_opt(project.public_url) is Some
            ==> project_address(project) == cleaned_opt(project.public_url),
        cleaned_opt(project.served_url) is None && cleaned_opt(project.public_url) is None
            ==> project_address(project) == cleaned_opt(project.hostname),
{
}

/// A listing that the service gives is shown, and a refusal says what the service said.
pub proof fn law_listing_is_shown(
    projects: Seq<ProjectRecord<Seq<char>>>,
    status: u16,
    body: Seq<char>,
    message: Seq<char>,
)
    ensures
        listed(Reply::Accepted(projects)) matches Ok(lines) && {
            &&& projects.len() == 0 ==> lines == seq!["no projects"@]
            &&& projects.len() > 0 ==> lines.len() == projects.len() && forall|i: int|
                0 <= i < projects.len() ==> #[trigger] lines[i] == project_line(projects[i])
        },
        listed(Reply::Refused { status, body }) == Err::<Seq<Seq<char>>, Seq<char>>(
            "list"@ + " failed: "@ + body,
        ),
        listed(Reply::Failed(message)) == Err::<Seq<Seq<char>>, Seq<char>>(message),
{
}

/// The project to remove is the one that was named, else that of the site configuration; it is
/// removed at its own address, with the stored token, if it may be named so at all.
pub proof fn law_named_project_is_removed(
    args: Seq<Seq<char>>,
    site: Option<SiteConfig<Seq<char>>>,
    config: CliConfig<Seq<char>>,
    slug: Seq<char>,
)
    ensures
        positional(args) matches Some(name) ==> removal_target(args, site) == Ok::<
            Seq<char>,
            Seq<char>,
        >(name),
        positional(args) is None ==> (site matches Some(site) ==> removal_target(args, Some(site))
            == Ok::<Seq<char>, Seq<char>>(site.slug)),
        positional(args) is None && site is None ==> removal_target(args, site) == Err::<
            Seq<char>,
            Seq<char>,
        >(REMOVE_USAGE@),
        removal_request(config, slug) is Ok <==> slug_allowed_at(slug, config.api_base) is Ok
            && crate::address::bearer_header(config.token) is Ok,
        removal_request(config, slug) matches Ok(request) ==> {
            &&& request.method == Method::Delete
            &&& request.url == config.api_base + "/v1/projects/"@ + slug
            &&& request.payload == crate::http::Payload::<Seq<char>>::Nothing
            &&& request.authorization matches Some(authorization) && crate::address::bearer_header(
                config.token,
            ) == Ok::<Seq<char>, Seq<char>>(authorization)
        },
{
    if removal_request(config, slug) is Ok {
        crate::slug::law_slug_needs_no_encoding(slug);
        assert(project_url(config.api_base, slug, Seq::empty()) =~= config.api_base
            + "/v1/projects/"@ + slug);
    }
}

} // verus!
