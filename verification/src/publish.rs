//! Publishing a site: preparing a deployment, uploading its files, and activating it.
use crate::access::{Access, DEFAULT_ACCESS};
use crate::address::{
    auth_headers, bearer_header, encode, same_origin, should_attach_api_auth, url_parts,
};
use crate::args::{
    cleaned_opt, either, flag_value, has_flag, positional_beside, read_flag,
    read_positional_beside, read_string_opt,
};
use crate::config::CliConfig;
use crate::credentials::BasicAuthPayload;
use crate::files::{entry_at, find_content_type, FileEntry};
use crate::http::{
    accept_reply, join_project_url, path_part, project_url, reply_outcome, Method, Payload, Reply,
    Request,
};
use crate::progress::{PublishProgressPhase, PublishProgressState};
use crate::site::SiteConfig;
use crate::slug::{api_label, assert_valid_slug, build_reserved_labels, reserved_with, slug_verdict};
use crate::text::{decimal, decimal_text, outcome};
use vstd::prelude::*;

verus! {

pub const PUBLISH_USAGE: &'static str =
    "usage: cfsurge publish [dir] [--slug <slug>] (or configure .cfsurge.json via cfsurge init)";

pub const ROTATE_WITHOUT_LINK: &'static str =
    "--rotate-share-link is only available when access=link";

pub const NO_FILES: &'static str = "publish target has no files";

pub const NO_FINAL_URL: &'static str = "activate failed: missing servedUrl/publicUrl in response";

/// The files of a site, as the contracts speak of them.
pub type FilesView = Seq<FileEntry<Seq<char>>>;

/// The uploads of a deployment, as the contracts speak of them.
pub type UploadsView = Seq<UploadUrl<Seq<char>>>;

/// A site to publish, as the contracts speak of it.
pub type JobView = PublishJob<Seq<char>, FilesView>;

/// A publish whose deployment is prepared, as the contracts speak of it.
pub type RunView = PublishRun<Seq<char>, FilesView, UploadsView>;

/// A publish in progress, as the contracts speak of it.
pub type PublishView = Publish<Seq<char>, FilesView, UploadsView>;

/// What a publish in progress is told, as the contracts speak of it.
pub type PublishEventView = PublishEvent<Seq<char>, UploadsView>;

/// What is to be published, and how.
#[derive(Debug, PartialEq, Eq)]
pub struct PublishTarget<T = String> {
    pub slug: T,
    pub directory: T,
    pub access: Access,
    pub rotate_share_link: bool,
}

impl DeepView for PublishTarget {
    type V = PublishTarget<Seq<char>>;

    open spec fn deep_view(&self) -> PublishTarget<Seq<char>> {
        PublishTarget {
            slug: self.slug@,
            directory: self.directory@,
            access: self.access,
            rotate_share_link: self.rotate_share_link,
        }
    }
}

/// Where the service wants a file.
#[derive(Debug, PartialEq, Eq)]
pub struct UploadUrl<T = String> {
    pub path: T,
    pub url: T,
}

impl DeepView for UploadUrl {
    type V = UploadUrl<Seq<char>>;

    open spec fn deep_view(&self) -> UploadUrl<Seq<char>> {
        UploadUrl { path: self.path@, url: self.url@ }
    }
}

/// A deployment that the service has prepared.
#[derive(Debug, PartialEq, Eq)]
pub struct PrepareResponse<T = String, U = Vec<UploadUrl>> {
    pub deployment_id: T,
    pub upload_urls: U,
}

impl DeepView for PrepareResponse {
    type V = PrepareResponse<Seq<char>, UploadsView>;

    open spec fn deep_view(&self) -> PrepareResponse<Seq<char>, UploadsView> {
        PrepareResponse {
            deployment_id: self.deployment_id@,
            upload_urls: self.upload_urls.deep_view(),
        }
    }
}

/// Where an activated deployment is served.
#[derive(Debug, PartialEq, Eq)]
pub struct ActivateResponse<T = String> {
    pub served_url: Option<T>,
    pub public_url: Option<T>,
    pub share_url: Option<T>,
}

impl DeepView for ActivateResponse {
    type V = ActivateResponse<Seq<char>>;

    open spec fn deep_view(&self) -> ActivateResponse<Seq<char>> {
        ActivateResponse {
            served_url: self.served_url.deep_view(),
            public_url: self.public_url.deep_view(),
            share_url: self.share_url.deep_view(),
        }
    }
}

/// A site to publish: where it goes, and its files.
#[derive(Debug, PartialEq, Eq)]
pub struct PublishJob<T = String, F = Vec<FileEntry>> {
    pub api_base: T,
    pub token: T,
    pub slug: T,
    pub access: Access,
    pub basic_auth: Option<BasicAuthPayload<T>>,
    pub rotate_share_link: bool,
    pub files: F,
}

impl DeepView for PublishJob {
    type V = JobView;

    open spec fn deep_view(&self) -> JobView {
        PublishJob {
            api_base: self.api_base@,
            token: self.token@,
            slug: self.slug@,
            access: self.access,
            basic_auth: self.basic_auth.deep_view(),
            rotate_share_link: self.rotate_share_link,
            files: self.files.deep_view(),
        }
    }
}

/// A publish whose deployment is prepared.
#[derive(Debug, PartialEq, Eq)]
pub struct PublishRun<T = String, F = Vec<FileEntry>, U = Vec<UploadUrl>> {
    pub job: PublishJob<T, F>,
    pub deployment_id: T,
    pub uploads: U,
}

impl DeepView for PublishRun {
    type V = RunView;

    open spec fn deep_view(&self) -> RunView {
        PublishRun {
            job: self.job.deep_view(),
            deployment_id: self.deployment_id@,
            uploads: self.uploads.deep_view(),
        }
    }
}

/// A publish in progress: what it waits for, and what it knows so far.
#[derive(Debug, PartialEq, Eq)]
pub enum Publish<T = String, F = Vec<FileEntry>, U = Vec<UploadUrl>> {
    /// The deployment is being prepared.
    Prepare { job: PublishJob<T, F>, authorization: T },
    /// `upload`, which has the number `done`, is under way; those before it are done.
    Upload {
        run: PublishRun<T, F, U>,
        authorization: T,
        done: usize,
        upload: UploadUrl<T>,
        content_type: T,
    },
    /// The deployment is being activated.
    Activate { run: PublishRun<T, F, U>, authorization: T },
    /// The publish has failed with `error`, and the prepared deployment is being cancelled.
    Cancel { deployment_id: T, request: Request<T>, error: T },
    Complete { slug: T, served_url: T, share_url: Option<T> },
    /// The publish has failed. There may be something to warn of.
    Failed { error: T, warning: Option<T> },
}

impl DeepView for Publish {
    type V = PublishView;

    open spec fn deep_view(&self) -> PublishView {
        match self {
            Publish::Prepare { job, authorization } => Publish::Prepare {
                job: job.deep_view(),
                authorization: authorization@,
            },
            Publish::Upload { run, authorization, done, upload, content_type } => Publish::Upload {
                run: run.deep_view(),
                authorization: authorization@,
                done: *done,
                upload: upload.deep_view(),
                content_type: content_type@,
            },
            Publish::Activate { run, authorization } => Publish::Activate {
                run: run.deep_view(),
                authorization: authorization@,
            },
            Publish::Cancel { deployment_id, request, error } => Publish::Cancel {
                deployment_id: deployment_id@,
                request: request.deep_view(),
                error: error@,
            },
            Publish::Complete { slug, served_url, share_url } => Publish::Complete {
                slug: slug@,
                served_url: served_url@,
                share_url: share_url.deep_view(),
            },
            Publish::Failed { error, warning } => Publish::Failed {
                error: error@,
                warning: warning.deep_view(),
            },
        }
    }
}

/// The request that prepares a deployment.
#[derive(Debug, PartialEq, Eq)]
pub struct PrepareRequest<T = String, F = Vec<FileEntry>> {
    pub url: T,
    pub authorization: T,
    pub files: F,
    pub access: Access,
    pub basic_auth: Option<BasicAuthPayload<T>>,
    pub rotate_share_link: bool,
}

impl DeepView for PrepareRequest {
    type V = PrepareRequest<Seq<char>, FilesView>;

    open spec fn deep_view(&self) -> PrepareRequest<Seq<char>, FilesView> {
        PrepareRequest {
            url: self.url@,
            authorization: self.authorization@,
            files: self.files.deep_view(),
            access: self.access,
            basic_auth: self.basic_auth.deep_view(),
            rotate_share_link: self.rotate_share_link,
        }
    }
}

/// The request that uploads the file at `path`.
#[derive(Debug, PartialEq, Eq)]
pub struct UploadRequest<T = String> {
    pub path: T,
    pub url: T,
    pub content_type: T,
    pub authorization: Option<T>,
}

impl DeepView for UploadRequest {
    type V = UploadRequest<Seq<char>>;

    open spec fn deep_view(&self) -> UploadRequest<Seq<char>> {
        UploadRequest {
            path: self.path@,
            url: self.url@,
            content_type: self.content_type@,
            authorization: self.authorization.deep_view(),
        }
    }
}

/// What a publish in progress asks to be done.
#[derive(Debug, PartialEq, Eq)]
pub enum PublishAction<T = String, F = Vec<FileEntry>> {
    Prepare(PrepareRequest<T, F>),
    /// Read a file of the published directory, and upload it.
    Upload(UploadRequest<T>),
    Activate(Request<T>),
    Cancel(Request<T>),
    /// The publish is done: show these lines.
    Finish(T),
    /// The publish failed: show the warning, if there is one.
    Fail { error: T, warning: Option<T> },
}

impl DeepView for PublishAction {
    type V = PublishAction<Seq<char>, FilesView>;

    open spec fn deep_view(&self) -> PublishAction<Seq<char>, FilesView> {
        match self {
            PublishAction::Prepare(request) => PublishAction::Prepare(request.deep_view()),
            PublishAction::Upload(request) => PublishAction::Upload(request.deep_view()),
            PublishAction::Activate(request) => PublishAction::Activate(request.deep_view()),
            PublishAction::Cancel(request) => PublishAction::Cancel(request.deep_view()),
            PublishAction::Finish(lines) => PublishAction::Finish(lines@),
            PublishAction::Fail { error, warning } => PublishAction::Fail {
                error: error@,
                warning: warning.deep_view(),
            },
        }
    }
}

/// What a publish in progress is told.
#[derive(Debug, PartialEq, Eq)]
pub enum PublishEvent<T = String, U = Vec<UploadUrl>> {
    Prepared(Reply<PrepareResponse<T, U>, T>),
    /// The file to upload could not be read.
    FileFailed(T),
    Uploaded(Reply<(), T>),
    Activated(Reply<ActivateResponse<T>, T>),
    Cancelled(Reply<(), T>),
    /// The deployment is cancelled by someone else already.
    CancelLeft,
}

impl DeepView for PublishEvent {
    type V = PublishEventView;

    open spec fn deep_view(&self) -> PublishEventView {
        match self {
            PublishEvent::Prepared(reply) => PublishEvent::Prepared(reply.deep_view()),
            PublishEvent::FileFailed(message) => PublishEvent::FileFailed(message@),
            PublishEvent::Uploaded(reply) => PublishEvent::Uploaded(reply.deep_view()),
            PublishEvent::Activated(reply) => PublishEvent::Activated(reply.deep_view()),
            PublishEvent::Cancelled(reply) => PublishEvent::Cancelled(reply.deep_view()),
            PublishEvent::CancelLeft => PublishEvent::CancelLeft,
        }
    }
}

/// What is to be published: the slug from the flag, the directory from the first word that is
/// neither an option nor that slug, and what is missing from the site configuration, which
/// alone says who may read the site.
pub open spec fn publish_target(
    args: Seq<Seq<char>>,
    site: Option<SiteConfig<Seq<char>>>,
) -> Result<PublishTarget<Seq<char>>, Seq<char>> {
    let site_slug = match site {
        Some(site) => Some(site.slug),
        None => None,
    };
    let site_dir = match site {
        Some(site) => Some(site.publish_dir),
        None => None,
    };
    let access = match site {
        Some(site) => site.access,
        None => DEFAULT_ACCESS,
    };
    let rotate_share_link = args.contains("--rotate-share-link"@);
    match (
        either(flag_value(args, "--slug"@), site_slug),
        either(positional_beside(args, "--slug"@), site_dir),
    ) {
        (Some(slug), Some(directory)) => if rotate_share_link && access != Access::Link {
            Err(ROTATE_WITHOUT_LINK@)
        } else {
            Ok(PublishTarget { slug, directory, access, rotate_share_link })
        },
        _ => Err(PUBLISH_USAGE@),
    }
}

/// A slug may be used at the service with this base URL.
pub open spec fn slug_allowed_at(slug: Seq<char>, api_base: Seq<char>) -> Result<(), Seq<char>> {
    slug_verdict(slug, reserved_with(api_label(Some(api_base), None)))
}

/// The address of a deployment's resource.
pub open spec fn deployment_url(
    api_base: Seq<char>,
    slug: Seq<char>,
    deployment_id: Seq<char>,
    rest: Seq<char>,
) -> Seq<char> {
    project_url(api_base, slug, "/deployments/"@ + path_part(deployment_id) + rest)
}

/// How far a publish has come.
pub open spec fn publish_progress(
    phase: PublishProgressPhase,
    completed: usize,
    total: usize,
    files: usize,
) -> PublishProgressState {
    PublishProgressState {
        phase,
        completed_uploads: completed,
        total_uploads: total,
        scanned_files: files,
        total_files: files,
    }
}

/// How a publish starts.
pub open spec fn publish_start(job: JobView) -> PublishView {
    if job.files.len() == 0 {
        Publish::Failed { error: NO_FILES@, warning: None }
    } else {
        match bearer_header(job.token) {
            Ok(authorization) => Publish::Prepare { job, authorization },
            Err(error) => Publish::Failed { error, warning: None },
        }
    }
}

/// The request that cancels a prepared deployment.
pub open spec fn cancel_request(
    api_base: Seq<char>,
    slug: Seq<char>,
    deployment_id: Seq<char>,
    authorization: Seq<char>,
) -> Request<Seq<char>> {
    Request {
        method: Method::Post,
        url: deployment_url(api_base, slug, deployment_id, "/cancel"@),
        authorization: Some(authorization),
        payload: Payload::Nothing,
    }
}

/// A publish that has failed after its deployment was prepared.
pub open spec fn cancel_run(
    run: RunView,
    authorization: Seq<char>,
    error: Seq<char>,
) -> PublishView {
    Publish::Cancel {
        deployment_id: run.deployment_id,
        request: cancel_request(run.job.api_base, run.job.slug, run.deployment_id, authorization),
        error,
    }
}

/// The upload with the number `done` is next, or activating where there is none.
pub open spec fn upload_from(
    run: RunView,
    authorization: Seq<char>,
    done: usize,
) -> PublishView {
    if done >= run.uploads.len() {
        Publish::Activate { run, authorization }
    } else {
        match entry_at(run.job.files, run.uploads[done as int].path) {
            Some(entry) => Publish::Upload {
                run,
                authorization,
                done,
                upload: run.uploads[done as int],
                content_type: entry.content_type,
            },
            None => cancel_run(
                run,
                authorization,
                "missing file descriptor for "@ + run.uploads[done as int].path,
            ),
        }
    }
}

/// How many uploads are done when the one with the number `done` is.
pub open spec fn uploads_done(run: RunView, done: usize) -> usize {
    if done < run.uploads.len() && done < usize::MAX {
        (done + 1) as usize
    } else {
        done
    }
}

/// Where the activated deployment is served.
pub open spec fn served_at(response: ActivateResponse<Seq<char>>) -> Option<Seq<char>> {
    either(cleaned_opt(response.served_url), cleaned_opt(response.public_url))
}

/// What an answer to the activation comes to.
pub open spec fn activated(
    run: RunView,
    authorization: Seq<char>,
    reply: Reply<ActivateResponse<Seq<char>>, Seq<char>>,
) -> PublishView {
    match reply_outcome(reply, "activate"@) {
        Err(error) => cancel_run(run, authorization, error),
        Ok(response) => match served_at(response) {
            None => cancel_run(run, authorization, NO_FINAL_URL@),
            Some(served_url) => Publish::Complete {
                slug: run.job.slug,
                served_url,
                share_url: cleaned_opt(response.share_url),
            },
        },
    }
}

/// What there is to warn of when a deployment was to be cancelled.
pub open spec fn cancel_warning(reply: Reply<(), Seq<char>>) -> Option<Seq<char>> {
    match reply {
        Reply::Failed(message) => Some(
            "warning: failed to cancel upload session ("@ + message + ")"@,
        ),
        Reply::Refused { status, body } => Some(
            "warning: failed to cancel upload session ("@ + (decimal(status as nat) + " "@ + body)
                + ")"@,
        ),
        Reply::Unreadable(_) => None,
        Reply::Accepted(_) => None,
    }
}

/// What an event makes of a publish in progress. An event that it does not wait for changes
/// nothing.
pub open spec fn publish_next(
    state: PublishView,
    event: PublishEventView,
) -> PublishView {
    match (state, event) {
        (Publish::Prepare { job, authorization }, PublishEvent::Prepared(reply)) => match reply_outcome(
            reply,
            "prepare"@,
        ) {
            Err(error) => Publish::Failed { error, warning: None },
            Ok(response) => upload_from(
                PublishRun {
                    job,
                    deployment_id: response.deployment_id,
                    uploads: response.upload_urls,
                },
                authorization,
                0,
            ),
        },
        (
            Publish::Upload { run, authorization, done, upload, content_type },
            PublishEvent::FileFailed(message),
        ) => cancel_run(run, authorization, message),
        (
            Publish::Upload { run, authorization, done, upload, content_type },
            PublishEvent::Uploaded(reply),
        ) => match reply_outcome(reply, "upload"@) {
            Ok(_) => upload_from(run, authorization, uploads_done(run, done)),
            Err(error) => cancel_run(
                run,
                authorization,
                match reply {
                    Reply::Refused { status, body } => "upload failed for "@ + upload.path + ": "@
                        + body,
                    _ => error,
                },
            ),
        },
        (Publish::Activate { run, authorization }, PublishEvent::Activated(reply)) => activated(
            run,
            authorization,
            reply,
        ),
        (Publish::Cancel { deployment_id, request, error }, PublishEvent::Cancelled(reply)) => Publish::Failed {
            error,
            warning: cancel_warning(reply),
        },
        (Publish::Cancel { deployment_id, request, error }, PublishEvent::CancelLeft) => Publish::Failed {
            error,
            warning: None,
        },
        _ => state,
    }
}

/// What is reported when a publish starts.
pub open spec fn start_updates(job: JobView) -> Seq<
    PublishProgressState,
> {
    if job.files.len() == 0 {
        Seq::empty()
    } else {
        seq![publish_progress(PublishProgressPhase::Preparing, 0, 0, job.files.len() as usize)]
    }
}

/// What is reported when `done` uploads are done.
pub open spec fn upload_updates(
    run: RunView,
    done: usize,
) -> Seq<PublishProgressState> {
    let total = run.uploads.len() as usize;
    let files = run.job.files.len() as usize;
    let uploading = publish_progress(PublishProgressPhase::Uploading, done, total, files);
    if done >= run.uploads.len() {
        seq![
            uploading,
            publish_progress(PublishProgressPhase::Activating, done, total, files),
        ]
    } else {
        seq![uploading]
    }
}

/// What is reported when an event takes a publish on.
pub open spec fn publish_updates(
    state: PublishView,
    event: PublishEventView,
) -> Seq<PublishProgressState> {
    match (state, event) {
        (Publish::Prepare { job, authorization }, PublishEvent::Prepared(Reply::Accepted(response))) => upload_updates(
            PublishRun {
                job,
                deployment_id: response.deployment_id,
                uploads: response.upload_urls,
            },
            0,
        ),
        (
            Publish::Upload { run, authorization, done, upload, content_type },
            PublishEvent::Uploaded(Reply::Accepted(_)),
        ) => upload_updates(run, uploads_done(run, done)),
        (
            Publish::Activate { run, authorization },
            PublishEvent::Activated(Reply::Accepted(response)),
        ) => if served_at(response) is Some {
            let total = run.uploads.len() as usize;
            seq![
                publish_progress(
                    PublishProgressPhase::Complete,
                    total,
                    total,
                    run.job.files.len() as usize,
                ),
            ]
        } else {
            Seq::empty()
        },
        _ => Seq::empty(),
    }
}

/// The lines that a finished publish shows.
pub open spec fn published_lines(
    slug: Seq<char>,
    served_url: Seq<char>,
    share_url: Option<Seq<char>>,
) -> Seq<char> {
    let line = "published "@ + slug + " -> "@ + served_url;
    match share_url {
        Some(url) => line + "\nshare url: "@ + url,
        None => line,
    }
}

/// What a publish in progress asks to be done. An upload carries the token only where it goes
/// to the service itself.
pub open spec fn publish_action(
    state: PublishView,
) -> PublishAction<Seq<char>, FilesView> {
    match state {
        Publish::Prepare { job, authorization } => PublishAction::Prepare(
            PrepareRequest {
                url: project_url(job.api_base, job.slug, "/deployments/prepare"@),
                authorization,
                files: job.files,
                access: job.access,
                basic_auth: job.basic_auth,
                rotate_share_link: job.rotate_share_link,
            },
        ),
        Publish::Upload { run, authorization, done, upload, content_type } => PublishAction::Upload(
            UploadRequest {
                path: upload.path,
                url: upload.url,
                content_type,
                authorization: if same_origin(url_parts(upload.url), url_parts(run.job.api_base)) {
                    Some(authorization)
                } else {
                    None
                },
            },
        ),
        Publish::Activate { run, authorization } => PublishAction::Activate(
            Request {
                method: Method::Post,
                url: deployment_url(
                    run.job.api_base,
                    run.job.slug,
                    run.deployment_id,
                    "/activate"@,
                ),
                authorization: Some(authorization),
                payload: Payload::Nothing,
            },
        ),
        Publish::Cancel { deployment_id, request, error } => PublishAction::Cancel(request),
        Publish::Complete { slug, served_url, share_url } => PublishAction::Finish(
            published_lines(slug, served_url, share_url),
        ),
        Publish::Failed { error, warning } => PublishAction::Fail { error, warning },
    }
}

/// The deployment that is prepared and not yet activated.
pub open spec fn open_deployment(
    state: PublishView,
) -> Option<Seq<char>> {
    match state {
        Publish::Upload { run, authorization, done, upload, content_type } => Some(run.deployment_id),
        Publish::Activate { run, authorization } => Some(run.deployment_id),
        Publish::Cancel { deployment_id, request, error } => Some(deployment_id),
        _ => None,
    }
}

/// What is to be published.
pub fn resolve_publish_target(args: &[String], site: Option<SiteConfig>) -> (target: Result<
    PublishTarget,
    String,
>)
    ensures
        outcome(target) == publish_target(args.deep_view(), site.deep_view()),
{
    let rotate_share_link = has_flag(args, "--rotate-share-link");
    let (site_slug, site_dir, access) = match site {
        Some(site) => (Some(site.slug), Some(site.publish_dir), site.access),
        None => (None, None, DEFAULT_ACCESS),
    };
    let slug = match read_flag(args, "--slug") {
        Some(slug) => Some(slug),
        None => site_slug,
    };
    let directory = match read_positional_beside(args, "--slug") {
        Some(directory) => Some(directory),
        None => site_dir,
    };
    match (slug, directory) {
        (Some(slug), Some(directory)) => if rotate_share_link && access != Access::Link {
            Err(ROTATE_WITHOUT_LINK.to_string())
        } else {
            Ok(PublishTarget { slug, directory, access, rotate_share_link })
        },
        _ => Err(PUBLISH_USAGE.to_string()),
    }
}

/// Refuses a slug that may not be used at the service with this base URL.
pub fn assert_slug_allowed(slug: &str, api_base: &str) -> (checked: Result<(), String>)
    ensures
        outcome(checked) == slug_allowed_at(slug@, api_base@),
{
    let reserved = build_reserved_labels(Some(api_base), None);
    assert_valid_slug(slug, reserved.as_slice())
}

fn join_deployment_url(api_base: &str, slug: &str, deployment_id: &str, rest: &str) -> (url: String)
    ensures
        url@ == deployment_url(api_base@, slug@, deployment_id@, rest@),
{
    let mut tail = "/deployments/".to_string();
    tail.append(encode(deployment_id).as_str());
    tail.append(rest);
    join_project_url(api_base, slug, tail.as_str())
}

/// The request that cancels a prepared deployment.
pub fn cancel_prepared_deployment(config: &CliConfig, slug: &str, deployment_id: &str) -> (request: Result<
    Request,
    String,
>)
    ensures
        outcome(request) == (match bearer_header(config.token@) {
            Ok(authorization) => Ok::<Request<Seq<char>>, Seq<char>>(
                cancel_request(config.api_base@, slug@, deployment_id@, authorization),
            ),
            Err(message) => Err(message),
        }),
{
    match auth_headers(config.token.as_str()) {
        Ok(authorization) => Ok(
            build_cancel_request(config.api_base.as_str(), slug, deployment_id, authorization),
        ),
        Err(message) => Err(message),
    }
}

fn build_cancel_request(
    api_base: &str,
    slug: &str,
    deployment_id: &str,
    authorization: String,
) -> (request: Request)
    ensures
        request.deep_view() == cancel_request(api_base@, slug@, deployment_id@, authorization@),
{
    Request {
        method: Method::Post,
        url: join_deployment_url(api_base, slug, deployment_id, "/cancel"),
        authorization: Some(authorization),
        payload: Payload::Nothing,
    }
}

/// What there is to warn of when a deployment was to be cancelled.
pub fn warn_of_cancel(reply: Reply<()>) -> (warning: Option<String>)
    ensures
        warning.deep_view() == cancel_warning(reply.deep_view()),
{
    let fault = match reply {
        Reply::Failed(message) => message,
        Reply::Refused { status, body } => {
            let mut fault = decimal_text(status as u64);
            fault.append(" ");
            fault.append(body.as_str());
            fault
        },
        Reply::Unreadable(_) => return None,
        Reply::Accepted(_) => return None,
    };
    let mut warning = "warning: failed to cancel upload session (".to_string();
    warning.append(fault.as_str());
    warning.append(")");
    Some(warning)
}

fn go_on_to_cancel(run: PublishRun, authorization: String, error: String) -> (state: Publish)
    ensures
        state.deep_view() == cancel_run(run.deep_view(), authorization@, error@),
{
    let request = build_cancel_request(
        run.job.api_base.as_str(),
        run.job.slug.as_str(),
        run.deployment_id.as_str(),
        authorization,
    );
    Publish::Cancel { deployment_id: run.deployment_id, request, error }
}

fn go_on_uploading(run: PublishRun, authorization: String, done: usize) -> (state: Publish)
    ensures
        state.deep_view() == upload_from(run.deep_view(), authorization@, done),
{
    if done >= run.uploads.len() {
        return Publish::Activate { run, authorization };
    }
    assert(run.deep_view().uploads[done as int] == run.uploads[done as int].deep_view());
    let upload = UploadUrl {
        path: run.uploads[done].path.clone(),
        url: run.uploads[done].url.clone(),
    };
    match find_content_type(&run.job.files, upload.path.as_str()) {
        Some(content_type) => Publish::Upload { run, authorization, done, upload, content_type },
        None => {
            let mut error = "missing file descriptor for ".to_string();
            error.append(upload.path.as_str());
            go_on_to_cancel(run, authorization, error)
        },
    }
}

fn go_on_when_activated(
    run: PublishRun,
    authorization: String,
    reply: Reply<ActivateResponse>,
) -> (state: Publish)
    ensures
        state.deep_view() == activated(run.deep_view(), authorization@, reply.deep_view()),
{
    let response = match accept_reply(reply, "activate") {
        Ok(response) => response,
        Err(error) => return go_on_to_cancel(run, authorization, error),
    };
    let served_url = match read_string_opt(response.served_url.as_ref()) {
        Some(url) => Some(url),
        None => read_string_opt(response.public_url.as_ref()),
    };
    match served_url {
        None => go_on_to_cancel(run, authorization, NO_FINAL_URL.to_string()),
        Some(served_url) => Publish::Complete {
            slug: run.job.slug,
            served_url,
            share_url: read_string_opt(response.share_url.as_ref()),
        },
    }
}

/// A copy of what the service is told of the files.
fn copy_files(files: &Vec<FileEntry>) -> (copy: Vec<FileEntry>)
    ensures
        copy.deep_view() == files.deep_view(),
{
    let mut copy: Vec<FileEntry> = Vec::new();
    for i in 0..files.len()
        invariant
            copy.deep_view() =~= files.deep_view().take(i as int),
    {
        let entry = &files[i];
        let ghost before = copy.deep_view();
        copy.push(
            FileEntry {
                path: entry.path.clone(),
                sha256: entry.sha256.clone(),
                size: entry.size,
                content_type: entry.content_type.clone(),
            },
        );
        assert(copy.deep_view() =~= before.push(files.deep_view()[i as int]));
    }
    assert(files.deep_view().take(files.deep_view().len() as int) =~= files.deep_view());
    copy
}

fn copy_basic_auth(basic_auth: &Option<BasicAuthPayload>) -> (copy: Option<BasicAuthPayload>)
    ensures
        copy.deep_view() == basic_auth.deep_view(),
{
    match basic_auth {
        Some(basic_auth) => Some(
            BasicAuthPayload {
                username: basic_auth.username.clone(),
                password: basic_auth.password.clone(),
            },
        ),
        None => None,
    }
}

impl Publish {
    /// Starts a publish.
    pub fn start(job: PublishJob) -> (state: Publish)
        ensures
            state.deep_view() == publish_start(job.deep_view()),
    {
        if job.files.len() == 0 {
            return Publish::Failed { error: NO_FILES.to_string(), warning: None };
        }
        match auth_headers(job.token.as_str()) {
            Ok(authorization) => Publish::Prepare { job, authorization },
            Err(error) => Publish::Failed { error, warning: None },
        }
    }

    /// What is reported when a publish starts.
    pub fn start_progress(job: &PublishJob) -> (updates: Vec<PublishProgressState>)
        ensures
            updates@ == start_updates(job.deep_view()),
    {
        let mut updates: Vec<PublishProgressState> = Vec::new();
        let files = job.files.len();
        if files > 0 {
            updates.push(
                PublishProgressState {
                    phase: PublishProgressPhase::Preparing,
                    completed_uploads: 0,
                    total_uploads: 0,
                    scanned_files: files,
                    total_files: files,
                },
            );
        }
        assert(updates@ =~= start_updates(job.deep_view()));
        updates
    }

    /// What the publish asks to be done.
    pub fn action(&self) -> (action: PublishAction)
        ensures
            action.deep_view() == publish_action(self.deep_view()),
    {
        match self {
            Publish::Prepare { job, authorization } => PublishAction::Prepare(
                PrepareRequest {
                    url: join_project_url(
                        job.api_base.as_str(),
                        job.slug.as_str(),
                        "/deployments/prepare",
                    ),
                    authorization: authorization.clone(),
                    files: copy_files(&job.files),
                    access: job.access,
                    basic_auth: copy_basic_auth(&job.basic_auth),
                    rotate_share_link: job.rotate_share_link,
                },
            ),
            Publish::Upload { run, authorization, upload, content_type, .. } => PublishAction::Upload(
                UploadRequest {
                    path: upload.path.clone(),
                    url: upload.url.clone(),
                    content_type: content_type.clone(),
                    authorization: if should_attach_api_auth(
                        upload.url.as_str(),
                        run.job.api_base.as_str(),
                    ) {
                        Some(authorization.clone())
                    } else {
                        None
                    },
                },
            ),
            Publish::Activate { run, authorization } => PublishAction::Activate(
                Request {
                    method: Method::Post,
                    url: join_deployment_url(
                        run.job.api_base.as_str(),
                        run.job.slug.as_str(),
                        run.deployment_id.as_str(),
                        "/activate",
                    ),
                    authorization: Some(authorization.clone()),
                    payload: Payload::Nothing,
                },
            ),
            Publish::Cancel { request, .. } => PublishAction::Cancel(request.copy()),
            Publish::Complete { slug, served_url, share_url } => {
                let mut lines = "published ".to_string();
                lines.append(slug.as_str());
                lines.append(" -> ");
                lines.append(served_url.as_str());
                if let Some(url) = share_url {
                    lines.append("\nshare url: ");
                    lines.append(url.as_str());
                }
                PublishAction::Finish(lines)
            },
            Publish::Failed { error, warning } => PublishAction::Fail {
                error: error.clone(),
                warning: warning.clone(),
            },
        }
    }

    /// What is reported when an event takes the publish on.
    pub fn progress(&self, event: &PublishEvent) -> (updates: Vec<PublishProgressState>)
        ensures
            updates@ == publish_updates(self.deep_view(), event.deep_view()),
    {
        let mut updates: Vec<PublishProgressState> = Vec::new();
        match (self, event) {
            (Publish::Prepare { job, .. }, PublishEvent::Prepared(Reply::Accepted(response))) => {
                report_uploads(job.files.len(), response.upload_urls.len(), 0, &mut updates);
            },
            (
                Publish::Upload { run, done, .. },
                PublishEvent::Uploaded(Reply::Accepted(_)),
            ) => {
                let total = run.uploads.len();
                let completed: usize = if *done < total {
                    *done + 1
                } else {
                    *done
                };
                report_uploads(run.job.files.len(), total, completed, &mut updates);
            },
            (Publish::Activate { run, .. }, PublishEvent::Activated(Reply::Accepted(response))) => {
                let served = read_string_opt(response.served_url.as_ref()).is_some()
                    || read_string_opt(response.public_url.as_ref()).is_some();
                if served {
                    let total = run.uploads.len();
                    let files = run.job.files.len();
                    updates.push(
                        PublishProgressState {
                            phase: PublishProgressPhase::Complete,
                            completed_uploads: total,
                            total_uploads: total,
                            scanned_files: files,
                            total_files: files,
                        },
                    );
                }
            },
            _ => {},
        }
        assert(updates@ =~= publish_updates(self.deep_view(), event.deep_view()));
        updates
    }

    /// Goes on with what an action came to.
    pub fn next(self, event: PublishEvent) -> (state: Publish)
        ensures
            state.deep_view() == publish_next(self.deep_view(), event.deep_view()),
    {
        match (self, event) {
            (Publish::Prepare { job, authorization }, PublishEvent::Prepared(reply)) => match accept_reply(
                reply,
                "prepare",
            ) {
                Err(error) => Publish::Failed { error, warning: None },
                Ok(response) => go_on_uploading(
                    PublishRun {
                        job,
                        deployment_id: response.deployment_id,
                        uploads: response.upload_urls,
                    },
                    authorization,
                    0,
                ),
            },
            (
                Publish::Upload { run, authorization, .. },
                PublishEvent::FileFailed(message),
            ) => go_on_to_cancel(run, authorization, message),
            (
                Publish::Upload { run, authorization, done, upload, .. },
                PublishEvent::Uploaded(reply),
            ) => match reply {
                Reply::Accepted(_) => {
                    let completed: usize = if done < run.uploads.len() {
                        done + 1
                    } else {
                        done
                    };
                    go_on_uploading(run, authorization, completed)
                },
                Reply::Refused { status: _, body } => {
                    let mut error = "upload failed for ".to_string();
                    error.append(upload.path.as_str());
                    error.append(": ");
                    error.append(body.as_str());
                    go_on_to_cancel(run, authorization, error)
                },
                Reply::Failed(error) => go_on_to_cancel(run, authorization, error),
                Reply::Unreadable(error) => go_on_to_cancel(run, authorization, error),
            },
            (
                Publish::Activate { run, authorization },
                PublishEvent::Activated(reply),
            ) => go_on_when_activated(run, authorization, reply),
            (Publish::Cancel { error, .. }, PublishEvent::Cancelled(reply)) => Publish::Failed {
                error,
                warning: warn_of_cancel(reply),
            },
            (Publish::Cancel { error, .. }, PublishEvent::CancelLeft) => Publish::Failed {
                error,
                warning: None,
            },
            (state, _) => state,
        }
    }

    /// The deployment that is prepared and not yet activated.
    pub fn deployment_id(&self) -> (deployment_id: Option<String>)
        ensures
            deployment_id.deep_view() == open_deployment(self.deep_view()),
    {
        match self {
            Publish::Upload { run, .. } => Some(run.deployment_id.clone()),
            Publish::Activate { run, .. } => Some(run.deployment_id.clone()),
            Publish::Cancel { deployment_id, .. } => Some(deployment_id.clone()),
            _ => None,
        }
    }
}

/// Adds what is reported when `completed` of `total` uploads are done.
fn report_uploads(
    files: usize,
    total: usize,
    completed: usize,
    updates: &mut Vec<PublishProgressState>,
)
    ensures
        final(updates)@ == old(updates)@ + (if completed >= total {
            seq![
                publish_progress(PublishProgressPhase::Uploading, completed, total, files),
                publish_progress(PublishProgressPhase::Activating, completed, total, files),
            ]
        } else {
            seq![publish_progress(PublishProgressPhase::Uploading, completed, total, files)]
        }),
{
    updates.push(
        PublishProgressState {
            phase: PublishProgressPhase::Uploading,
            completed_uploads: completed,
            total_uploads: total,
            scanned_files: files,
            total_files: files,
        },
    );
    if completed >= total {
        updates.push(
            PublishProgressState {
                phase: PublishProgressPhase::Activating,
                completed_uploads: completed,
                total_uploads: total,
                scanned_files: files,
                total_files: files,
            },
        );
    }
}

/// The command line takes the place of the site configuration for the slug and the directory;
/// who may read the site is for the configuration alone to say; and a share link is rotated
/// only where there is one.
pub proof fn law_publish_target_precedence(
    args: Seq<Seq<char>>,
    site: Option<SiteConfig<Seq<char>>>,
)
    ensures
        publish_target(args, site) matches Ok(target) ==> {
            &&& flag_value(args, "--slug"@) matches Some(slug) ==> target.slug == slug
            &&& flag_value(args, "--slug"@) is None ==> (site matches Some(site) && target.slug
                == site.slug)
            &&& positional_beside(args, "--slug"@) matches Some(directory) ==> target.directory
                == directory
            &&& positional_beside(args, "--slug"@) is None ==> (site matches Some(site)
                && target.directory == site.publish_dir)
            &&& site matches Some(site) ==> target.access == site.access
            &&& site is None ==> target.access == Access::Public
            &&& target.rotate_share_link ==> target.access == Access::Link
        },
{
}

/// What a series of events makes of a publish in progress.
pub open spec fn publish_run(state: PublishView, events: Seq<PublishEventView>) -> PublishView
    decreases events.len(),
{
    if events.len() == 0 {
        state
    } else {
        publish_next(publish_run(state, events.drop_last()), events.last())
    }
}

/// How many of these events say that an upload was accepted.
pub open spec fn accepted_uploads(events: Seq<PublishEventView>) -> nat
    decreases events.len(),
{
    if events.len() == 0 {
        0
    } else {
        accepted_uploads(events.drop_last()) + if events.last() matches PublishEvent::Uploaded(reply)
            && reply is Accepted {
            1nat
        } else {
            0nat
        }
    }
}

/// An upload that is under way is the one with its number, and what is carried for the
/// requests is the header of the job's token.
pub open spec fn is_in_step(state: PublishView) -> bool {
    match state {
        Publish::Prepare { job, authorization } => bearer_header(job.token) == Ok::<
            Seq<char>,
            Seq<char>,
        >(authorization),
        Publish::Upload { run, authorization, done, upload, content_type } => {
            &&& bearer_header(run.job.token) == Ok::<Seq<char>, Seq<char>>(authorization)
            &&& done < run.uploads.len()
            &&& upload == run.uploads[done as int]
            &&& entry_at(run.job.files, upload.path) matches Some(entry) && entry.content_type
                == content_type
        },
        Publish::Activate { run, authorization } => bearer_header(run.job.token) == Ok::<
            Seq<char>,
            Seq<char>,
        >(authorization),
        _ => true,
    }
}

/// How far a publish has come: first by stage, and within uploading by the number of uploads.
pub open spec fn publish_stage(state: PublishView) -> nat {
    match state {
        Publish::Prepare { .. } => 0,
        Publish::Upload { .. } => 1,
        Publish::Activate { .. } => 2,
        Publish::Cancel { .. } => 3,
        Publish::Complete { .. } => 4,
        Publish::Failed { .. } => 4,
    }
}

/// A publish only goes forward: through its stages, and from one upload to the next.
pub proof fn law_publish_goes_forward(state: PublishView, event: PublishEventView)
    requires
        is_in_step(state),
    ensures
        ({
            let next = publish_next(state, event);
            &&& is_in_step(next)
            &&& next == state || publish_stage(next) > publish_stage(state) || {
                &&& state matches Publish::Upload { run, authorization, done, upload, content_type }
                &&& next matches Publish::Upload { run: run2, done: done2, .. }
                &&& run2 == run
                &&& done2 == done + 1
            }
        }),
{
}

/// Whether a publish has come further: to a later stage, or to a later upload.
pub open spec fn is_further(later: PublishView, earlier: PublishView) -> bool {
    ||| publish_stage(later) > publish_stage(earlier)
    ||| {
        &&& earlier matches Publish::Upload { run, authorization, done, upload, content_type }
        &&& later matches Publish::Upload { run: run2, done: done2, .. }
        &&& run2 == run
        &&& done2 > done
    }
}

/// What a publish has left behind it does not come back to: a deployment is prepared, each
/// file uploaded, and the deployment activated or cancelled, once at most.
pub proof fn law_publish_never_comes_back(
    job: JobView,
    events: Seq<PublishEventView>,
    i: int,
    j: int,
)
    requires
        0 <= i <= j <= events.len(),
    ensures
        ({
            let earlier = publish_run(publish_start(job), events.take(i));
            let later = publish_run(publish_start(job), events.take(j));
            later == earlier || is_further(later, earlier)
        }),
    decreases j,
{
    if i < j {
        law_publish_never_comes_back(job, events, i, j - 1);
        assert(events.take(j).drop_last() =~= events.take(j - 1));
        law_publish_stays_in_step(job, events.take(j - 1));
        law_publish_goes_forward(publish_run(publish_start(job), events.take(j - 1)), events[j - 1]);
    }
}

/// What is over stays as it is.
pub proof fn law_finished_publish_stays(state: PublishView, event: PublishEventView)
    requires
        state is Complete || state is Failed,
    ensures
        publish_next(state, event) == state,
{
}

/// A publish that started, whatever happens to it, is in step.
pub proof fn law_publish_stays_in_step(job: JobView, events: Seq<PublishEventView>)
    ensures
        is_in_step(publish_run(publish_start(job), events)),
    decreases events.len(),
{
    if events.len() > 0 {
        law_publish_stays_in_step(job, events.drop_last());
        law_publish_goes_forward(publish_run(publish_start(job), events.drop_last()), events.last());
    }
}

/// Every failure after a deployment was prepared cancels that deployment, before the publish
/// is given up.
pub proof fn law_failure_after_prepare_cancels(state: PublishView, event: PublishEventView)
    requires
        state is Upload || state is Activate,
    ensures
        ({
            let next = publish_next(state, event);
            &&& !(next is Failed)
            &&& next is Cancel ==> open_deployment(next) == open_deployment(state)
        }),
{
}

proof fn lemma_prepared_once(state: PublishView, events: Seq<PublishEventView>)
    requires
        !(state is Prepare),
    ensures
        !(publish_run(state, events) is Prepare),
    decreases events.len(),
{
    if events.len() > 0 {
        lemma_prepared_once(state, events.drop_last());
    }
}

/// A publish with a prepared deployment that fails has cancelled that deployment, and fails
/// with the very error for which it did so, whatever came of the cancelling.
pub proof fn law_original_error_is_kept(
    state: PublishView,
    events: Seq<PublishEventView>,
    error: Seq<char>,
    warning: Option<Seq<char>>,
)
    requires
        open_deployment(state) is Some,
        publish_run(state, events) == (Publish::<Seq<char>, FilesView, UploadsView>::Failed {
            error,
            warning,
        }),
    ensures
        exists|i: int|
            0 <= i <= events.len() && ((#[trigger] publish_run(state, events.take(i))) matches Publish::Cancel {
                deployment_id,
                request,
                error: cancelled_for,
            } && cancelled_for == error),
    decreases events.len(),
{
    if events.len() > 0 {
        let front = events.drop_last();
        let n = front.len() as int;
        let before = publish_run(state, front);
        assert(events.take(n) =~= front);
        lemma_prepared_once(state, front);
        if before is Failed {
            law_original_error_is_kept(state, front, error, warning);
            let i = choose|i: int|
                0 <= i <= front.len() && ((#[trigger] publish_run(state, front.take(i))) matches Publish::Cancel {
                    deployment_id,
                    request,
                    error: cancelled_for,
                } && cancelled_for == error);
            assert(events.take(i) =~= front.take(i));
        } else if !(before is Cancel) {
            law_failure_after_prepare_cancels(before, events.last());
        } else {
            assert(publish_run(state, events.take(n)) is Cancel);
        }
    }
}

/// A publish that has cancelled its deployment does not complete, and one that completed has
/// cancelled nothing.
pub proof fn law_cancelled_publish_does_not_complete(
    state: PublishView,
    events: Seq<PublishEventView>,
)
    requires
        state is Cancel,
    ensures
        publish_run(state, events) == state || (publish_run(state, events) matches Publish::Failed {
            error,
            warning,
        } && error == state->Cancel_error),
    decreases events.len(),
{
    if events.len() > 0 {
        law_cancelled_publish_does_not_complete(state, events.drop_last());
    }
}

/// Nothing is cancelled unless a deployment was prepared.
pub proof fn law_cancel_needs_a_prepared_deployment(job: JobView, events: Seq<PublishEventView>)
    requires
        publish_action(publish_run(publish_start(job), events)) is Cancel,
    ensures
        exists|i: int|
            0 <= i < events.len() && (#[trigger] events[i] matches PublishEvent::Prepared(reply)
                && reply is Accepted),
{
    lemma_started_deployment(job, events);
}

proof fn lemma_started_deployment(job: JobView, events: Seq<PublishEventView>)
    requires
        open_deployment(publish_run(publish_start(job), events)) is Some,
    ensures
        exists|i: int|
            0 <= i < events.len() && (#[trigger] events[i] matches PublishEvent::Prepared(reply)
                && reply is Accepted),
    decreases events.len(),
{
    let start = publish_start(job);
    if events.len() > 0 {
        let front = events.drop_last();
        let before = publish_run(start, front);
        if open_deployment(before) is Some {
            lemma_started_deployment(job, front);
            let i = choose|i: int|
                0 <= i < front.len() && (#[trigger] front[i] matches PublishEvent::Prepared(reply)
                    && reply is Accepted);
            assert(events[i] == front[i]);
        } else {
            let last = events[events.len() - 1];
            assert(last matches PublishEvent::Prepared(reply) && reply is Accepted);
        }
    }
}

/// A deployment is activated only when every upload that the service wanted was accepted.
pub proof fn law_site_is_activated_only_when_uploaded(job: JobView, events: Seq<PublishEventView>)
    ensures
        ({
            let state = publish_run(publish_start(job), events);
            &&& state matches Publish::Upload { run, authorization, done, upload, content_type }
                ==> accepted_uploads(events) >= done
            &&& state matches Publish::Activate { run, authorization } ==> accepted_uploads(events)
                >= run.uploads.len()
        }),
    decreases events.len(),
{
    if events.len() > 0 {
        law_site_is_activated_only_when_uploaded(job, events.drop_last());
        law_publish_stays_in_step(job, events.drop_last());
    }
}

/// Whether a publish in progress is that of `job`: its requests are for that job's site at
/// that job's service, with the header of that job's token.
pub open spec fn is_publish_of(state: PublishView, job: JobView) -> bool {
    match state {
        Publish::Prepare { job: prepared, .. } => prepared == job,
        Publish::Upload { run, .. } => run.job == job,
        Publish::Activate { run, .. } => run.job == job,
        Publish::Cancel { deployment_id, request, .. } => bearer_header(job.token) matches Ok(
            authorization,
        ) && request == cancel_request(job.api_base, job.slug, deployment_id, authorization),
        _ => true,
    }
}

/// A publish stays that of the job it started with, whatever happens to it.
pub proof fn law_publish_keeps_its_job(job: JobView, events: Seq<PublishEventView>)
    ensures
        is_publish_of(publish_run(publish_start(job), events), job),
    decreases events.len(),
{
    if events.len() > 0 {
        law_publish_keeps_its_job(job, events.drop_last());
        law_publish_stays_in_step(job, events.drop_last());
    }
}

/// Whatever happens, every request of a publish bears the token of its job: preparing,
/// activating and cancelling always, at the job's own service, and an upload if and only if it
/// goes to the origin of that service.
pub proof fn law_requests_bear_the_token_of_the_job(job: JobView, events: Seq<PublishEventView>)
    ensures
        match publish_action(publish_run(publish_start(job), events)) {
            PublishAction::Prepare(request) => {
                &&& bearer_header(job.token) == Ok::<Seq<char>, Seq<char>>(request.authorization)
                &&& request.url == project_url(job.api_base, job.slug, "/deployments/prepare"@)
            },
            PublishAction::Upload(request) => {
                &&& request.authorization is Some <==> same_origin(
                    url_parts(request.url),
                    url_parts(job.api_base),
                )
                &&& request.authorization matches Some(authorization) ==> bearer_header(job.token)
                    == Ok::<Seq<char>, Seq<char>>(authorization)
            },
            PublishAction::Activate(request) => {
                &&& request.authorization matches Some(authorization) && bearer_header(job.token)
                    == Ok::<Seq<char>, Seq<char>>(authorization)
                &&& exists|id: Seq<char>|
                    request.url == #[trigger] deployment_url(
                        job.api_base,
                        job.slug,
                        id,
                        "/activate"@,
                    )
            },
            PublishAction::Cancel(request) => {
                &&& request.authorization matches Some(authorization) && bearer_header(job.token)
                    == Ok::<Seq<char>, Seq<char>>(authorization)
                &&& exists|id: Seq<char>|
                    request.url == #[trigger] deployment_url(
                        job.api_base,
                        job.slug,
                        id,
                        "/cancel"@,
                    )
            },
            _ => true,
        },
{
    law_publish_keeps_its_job(job, events);
    law_publish_stays_in_step(job, events);
}

/// An upload carries the token only where it goes to the service's own origin, and the request
/// that prepares a deployment goes to the service.
pub proof fn law_token_stays_with_the_service(state: PublishView)
    ensures
        publish_action(state) matches PublishAction::Upload(request) ==> (
        request.authorization is Some ==> same_origin(
            url_parts(request.url),
            url_parts(state->Upload_run.job.api_base),
        )),
        publish_action(state) matches PublishAction::Prepare(request) ==> request.url
            == project_url(
            state->Prepare_job.api_base,
            state->Prepare_job.slug,
            "/deployments/prepare"@,
        ),
{
}

/// Each accepted upload is reported, and a complete publish is reported last, as such.
pub proof fn law_completion_is_reported(state: PublishView, event: PublishEventView)
    requires
        !(state is Complete),
    ensures
        publish_next(state, event) is Complete <==> (publish_updates(state, event).len() == 1
            && publish_updates(state, event)[0].phase == PublishProgressPhase::Complete),
        publish_next(state, event) is Activate && !(state is Activate) ==> publish_updates(
            state,
            event,
        ).last().phase == PublishProgressPhase::Activating,
{
}

/// A publish with files, whose token a header can carry, starts by preparing a deployment: the
/// service is told the very files, the access mode, the credentials and the wish for another
/// share link that the job has.
pub proof fn law_prepare_tells_the_job(job: JobView, events: Seq<PublishEventView>)
    ensures
        publish_action(publish_run(publish_start(job), events)) matches PublishAction::Prepare(request)
            ==> {
            &&& request.files == job.files
            &&& request.access == job.access
            &&& request.basic_auth == job.basic_auth
            &&& request.rotate_share_link == job.rotate_share_link
            &&& request.url == job.api_base + "/v1/projects/"@ + path_part(job.slug)
                + "/deployments/prepare"@
            &&& bearer_header(job.token) == Ok::<Seq<char>, Seq<char>>(request.authorization)
        },
        publish_action(publish_start(job)) is Prepare <==> job.files.len() > 0 && bearer_header(
            job.token,
        ) is Ok,
        job.files.len() == 0 ==> publish_action(publish_start(job)) == (PublishAction::<
            Seq<char>,
            FilesView,
        >::Fail { error: "publish target has no files"@, warning: None }),
{
    law_requests_bear_the_token_of_the_job(job, events);
    law_publish_keeps_its_job(job, events);
}

/// What the service answered when the deployment was prepared.
pub open spec fn prepared_as(job: JobView, events: Seq<PublishEventView>) -> Option<
    PrepareResponse<Seq<char>, UploadsView>,
>
    decreases events.len(),
{
    if events.len() == 0 {
        None
    } else {
        match (
            publish_action(publish_run(publish_start(job), events.drop_last())),
            events.last(),
        ) {
            (
                PublishAction::Prepare(_),
                PublishEvent::Prepared(Reply::Accepted(response)),
            ) => Some(response),
            _ => prepared_as(job, events.drop_last()),
        }
    }
}

/// How many uploads that the publish asked for were accepted.
pub open spec fn uploads_made(job: JobView, events: Seq<PublishEventView>) -> nat
    decreases events.len(),
{
    if events.len() == 0 {
        0
    } else {
        uploads_made(job, events.drop_last()) + match (
            publish_action(publish_run(publish_start(job), events.drop_last())),
            events.last(),
        ) {
            (PublishAction::Upload(_), PublishEvent::Uploaded(Reply::Accepted(_))) => 1nat,
            _ => 0nat,
        }
    }
}

/// What the service answered when the deployment was activated.
pub open spec fn activated_as(job: JobView, events: Seq<PublishEventView>) -> Option<
    ActivateResponse<Seq<char>>,
>
    decreases events.len(),
{
    if events.len() == 0 {
        None
    } else {
        match (
            publish_action(publish_run(publish_start(job), events.drop_last())),
            events.last(),
        ) {
            (
                PublishAction::Activate(_),
                PublishEvent::Activated(Reply::Accepted(response)),
            ) => Some(response),
            _ => activated_as(job, events.drop_last()),
        }
    }
}

spec fn follows_the_service(
    job: JobView,
    prepared: Option<PrepareResponse<Seq<char>, UploadsView>>,
    made: nat,
    activated: Option<ActivateResponse<Seq<char>>>,
    state: PublishView,
) -> bool {
    match state {
        Publish::Prepare { .. } => prepared is None && made == 0,
        Publish::Upload { run, done, .. } => {
            &&& prepared == Some(
                PrepareResponse { deployment_id: run.deployment_id, upload_urls: run.uploads },
            )
            &&& run.uploads.len() <= usize::MAX ==> made == done
        },
        Publish::Activate { run, .. } => {
            &&& prepared == Some(
                PrepareResponse { deployment_id: run.deployment_id, upload_urls: run.uploads },
            )
            &&& run.uploads.len() <= usize::MAX ==> made == run.uploads.len()
        },
        Publish::Cancel { deployment_id, .. } => prepared matches Some(response)
            && response.deployment_id == deployment_id,
        Publish::Complete { slug, served_url, share_url } => {
            &&& slug == job.slug
            &&& activated matches Some(response) && {
                &&& cleaned_opt(response.served_url) matches Some(url) ==> served_url == url
                &&& cleaned_opt(response.served_url) is None ==> cleaned_opt(response.public_url)
                    == Some(served_url)
                &&& share_url == cleaned_opt(response.share_url)
            }
        },
        Publish::Failed { .. } => true,
    }
}

spec fn prepared_next(
    prepared: Option<PrepareResponse<Seq<char>, UploadsView>>,
    state: PublishView,
    event: PublishEventView,
) -> Option<PrepareResponse<Seq<char>, UploadsView>> {
    match (state, event) {
        (Publish::Prepare { .. }, PublishEvent::Prepared(Reply::Accepted(response))) => Some(
            response,
        ),
        _ => prepared,
    }
}

spec fn made_next(made: nat, state: PublishView, event: PublishEventView) -> nat {
    match (state, event) {
        (Publish::Upload { .. }, PublishEvent::Uploaded(Reply::Accepted(_))) => made + 1,
        _ => made,
    }
}

spec fn activated_next(
    activated: Option<ActivateResponse<Seq<char>>>,
    state: PublishView,
    event: PublishEventView,
) -> Option<ActivateResponse<Seq<char>>> {
    match (state, event) {
        (Publish::Activate { .. }, PublishEvent::Activated(Reply::Accepted(response))) => Some(
            response,
        ),
        _ => activated,
    }
}

proof fn lemma_step_follows_the_service(
    job: JobView,
    prepared: Option<PrepareResponse<Seq<char>, UploadsView>>,
    made: nat,
    activated: Option<ActivateResponse<Seq<char>>>,
    state: PublishView,
    event: PublishEventView,
)
    requires
        is_publish_of(state, job),
        is_in_step(state),
        follows_the_service(job, prepared, made, activated, state),
    ensures
        follows_the_service(
            job,
            prepared_next(prepared, state, event),
            made_next(made, state, event),
            activated_next(activated, state, event),
            publish_next(state, event),
        ),
{
}

proof fn lemma_publish_follows_the_service(job: JobView, events: Seq<PublishEventView>)
    ensures
        follows_the_service(
            job,
            prepared_as(job, events),
            uploads_made(job, events),
            activated_as(job, events),
            publish_run(publish_start(job), events),
        ),
    decreases events.len(),
{
    if events.len() > 0 {
        let front = events.drop_last();
        let before = publish_run(publish_start(job), front);
        let event = events.last();
        lemma_publish_follows_the_service(job, front);
        law_publish_keeps_its_job(job, front);
        law_publish_stays_in_step(job, front);
        lemma_step_follows_the_service(
            job,
            prepared_as(job, front),
            uploads_made(job, front),
            activated_as(job, front),
            before,
            event,
        );
        assert(prepared_as(job, events) == prepared_next(prepared_as(job, front), before, event));
        assert(uploads_made(job, events) == made_next(uploads_made(job, front), before, event));
        assert(activated_as(job, events) == activated_next(
            activated_as(job, front),
            before,
            event,
        ));
    }
}

/// Every file that the service asks for is uploaded, one after the other and in its order, to
/// the address that the service gave for it, with the content type of the file of that path.
pub proof fn law_uploads_go_where_the_service_says(job: JobView, events: Seq<PublishEventView>)
    ensures
        publish_action(publish_run(publish_start(job), events)) matches PublishAction::Upload(request)
            ==> (prepared_as(job, events) matches Some(response) && (response.upload_urls.len()
            <= usize::MAX ==> {
            let next = uploads_made(job, events) as int;
            &&& next < response.upload_urls.len()
            &&& request.path == response.upload_urls[next].path
            &&& request.url == response.upload_urls[next].url
            &&& entry_at(job.files, request.path) matches Some(entry) && request.content_type
                == entry.content_type
        })),
{
    lemma_publish_follows_the_service(job, events);
    law_publish_keeps_its_job(job, events);
    law_publish_stays_in_step(job, events);
}

/// The deployment that is activated or cancelled is the one that the service prepared, at the
/// address of that deployment, and it is activated only when every upload was accepted.
pub proof fn law_deployment_is_the_prepared_one(job: JobView, events: Seq<PublishEventView>)
    ensures
        ({
            let action = publish_action(publish_run(publish_start(job), events));
            let address = job.api_base + "/v1/projects/"@ + path_part(job.slug);
            &&& action matches PublishAction::Activate(request) ==> (prepared_as(
                job,
                events,
            ) matches Some(response) && {
                &&& request.method == Method::Post
                &&& request.url == address + ("/deployments/"@ + path_part(response.deployment_id)
                    + "/activate"@)
                &&& response.upload_urls.len() <= usize::MAX ==> uploads_made(job, events)
                    == response.upload_urls.len()
            })
            &&& action matches PublishAction::Cancel(request) ==> (prepared_as(
                job,
                events,
            ) matches Some(response) && {
                &&& request.method == Method::Post
                &&& request.url == address + ("/deployments/"@ + path_part(response.deployment_id)
                    + "/cancel"@)
            })
        }),
{
    lemma_publish_follows_the_service(job, events);
    law_publish_keeps_its_job(job, events);
}

/// A finished publish shows the slug with the address that the service gave, the one it is
/// served at before the public one, and the share link where there is one.
pub proof fn law_finished_publish_shows_the_address(job: JobView, events: Seq<PublishEventView>)
    ensures
        publish_action(publish_run(publish_start(job), events)) matches PublishAction::Finish(lines)
            ==> (activated_as(job, events) matches Some(response) && ({
            let served = cleaned_opt(response.served_url);
            let public = cleaned_opt(response.public_url);
            let address = if served is Some {
                served->0
            } else {
                public->0
            };
            &&& served is Some || public is Some
            &&& cleaned_opt(response.share_url) is None ==> lines == "published "@ + job.slug
                + " -> "@ + address
            &&& cleaned_opt(response.share_url) matches Some(link) ==> lines == "published "@
                + job.slug + " -> "@ + address + "\nshare url: "@ + link
        })),
{
    lemma_publish_follows_the_service(job, events);
}

/// What fails a publish is what is reported: the reason why a request was not answered or not
/// understood, or the step that was refused with what the service said.
pub proof fn law_publish_reports_its_failure(job: JobView, events: Seq<PublishEventView>)
    requires
        events.len() > 0,
    ensures
        ({
            let before = publish_action(publish_run(publish_start(job), events.drop_last()));
            let after = publish_run(publish_start(job), events);
            &&& (before is Prepare && events.last() matches PublishEvent::Prepared(
                Reply::Refused { status, body },
            )) ==> (after matches Publish::Failed { error, warning } && error
                == "prepare failed: "@ + events.last()->Prepared_0->Refused_body && warning is None)
            &&& (before is Prepare && events.last() matches PublishEvent::Prepared(
                Reply::Failed(message),
            )) ==> (after matches Publish::Failed { error, warning } && error
                == events.last()->Prepared_0->Failed_0)
            &&& (before matches PublishAction::Upload(request) && events.last()
                matches PublishEvent::Uploaded(Reply::Refused { status, body })) ==> (after
                matches Publish::Cancel { deployment_id, request, error } && error
                == "upload failed for "@ + before->Upload_0.path + ": "@
                + events.last()->Uploaded_0->Refused_body)
            &&& (before is Upload && events.last() matches PublishEvent::Uploaded(
                Reply::Failed(message),
            )) ==> (after matches Publish::Cancel { deployment_id, request, error } && error
                == events.last()->Uploaded_0->Failed_0)
            &&& (before is Upload && events.last() is FileFailed) ==> (after
                matches Publish::Cancel { deployment_id, request, error } && error
                == events.last()->FileFailed_0)
            &&& (before is Activate && events.last() matches PublishEvent::Activated(
                Reply::Refused { status, body },
            )) ==> (after matches Publish::Cancel { deployment_id, request, error } && error
                == "activate failed: "@ + events.last()->Activated_0->Refused_body)
            &&& (before is Activate && events.last() matches PublishEvent::Activated(
                Reply::Failed(message),
            )) ==> (after matches Publish::Cancel { deployment_id, request, error } && error
                == events.last()->Activated_0->Failed_0)
        }),
{
    reveal_strlit("prepare");
    reveal_strlit("activate");
    reveal_strlit(" failed: ");
    reveal_strlit("prepare failed: ");
    reveal_strlit("activate failed: ");
    assert("prepare"@ + " failed: "@ =~= "prepare failed: "@);
    assert("activate"@ + " failed: "@ =~= "activate failed: "@);
}

/// What is reported along the way: the files when a publish starts, then each upload of those
/// that the service asks for, then that the deployment is activated, then that all is done.
pub proof fn law_progress_counts_the_uploads(job: JobView, events: Seq<PublishEventView>)
    requires
        events.len() > 0,
        job.files.len() <= usize::MAX,
        prepared_as(job, events) matches Some(response) && response.upload_urls.len() <= usize::MAX,
    ensures
        ({
            let before = publish_run(publish_start(job), events.drop_last());
            let updates = publish_updates(before, events.last());
            let total = prepared_as(job, events)->0.upload_urls.len();
            let made = uploads_made(job, events);
            let moved_on = made > uploads_made(job, events.drop_last()) || prepared_as(
                job,
                events.drop_last(),
            ) is None;
            moved_on ==> {
                &&& updates.len() >= 1
                &&& updates[0].phase == PublishProgressPhase::Uploading
                &&& updates.len() == 2 <==> made >= total
                &&& updates.len() == 2 ==> updates[1].phase == PublishProgressPhase::Activating
                &&& forall|i: int|
                    0 <= i < updates.len() ==> {
                        &&& (#[trigger] updates[i]).completed_uploads == made
                        &&& updates[i].total_uploads == total
                        &&& updates[i].scanned_files == job.files.len()
                        &&& updates[i].total_files == job.files.len()
                    }
            }
        }),
{
    lemma_publish_follows_the_service(job, events.drop_last());
    lemma_publish_follows_the_service(job, events);
    law_publish_keeps_its_job(job, events.drop_last());
    law_publish_stays_in_step(job, events.drop_last());
}

/// The slug is the value of the flag, else that of the site; the directory is the positional
/// word, else that of the site; the access mode is that of the site, and public without one.
/// Where one of the first two is missing the usage is shown.
pub proof fn law_target_is_what_was_given(
    args: Seq<Seq<char>>,
    slug: Seq<char>,
    publish_dir: Seq<char>,
    access: Access,
)
    ensures
        ({
            let site = SiteConfig { slug, publish_dir, access };
            let with = publish_target(args, Some(site));
            let without = publish_target(args, None);
            let rotate = args.contains("--rotate-share-link"@);
            &&& with is Err <==> rotate && access != Access::Link
            &&& with matches Err(message) ==> message
                == "--rotate-share-link is only available when access=link"@
            &&& with matches Ok(target) ==> {
                &&& target.access == access
                &&& target.rotate_share_link == rotate
                &&& flag_value(args, "--slug"@) is None ==> target.slug == slug
                &&& flag_value(args, "--slug"@) matches Some(given) ==> target.slug == given
                &&& positional_beside(args, "--slug"@) is None ==> target.directory == publish_dir
                &&& positional_beside(args, "--slug"@) matches Some(given) ==> target.directory
                    == given
            }
            &&& without matches Ok(target) ==> target.access == Access::Public && !rotate
                && !target.rotate_share_link && flag_value(args, "--slug"@) == Some(target.slug)
                && positional_beside(args, "--slug"@) == Some(target.directory)
            &&& flag_value(args, "--slug"@) is None || positional_beside(args, "--slug"@) is None
                ==> without == Err::<PublishTarget<Seq<char>>, Seq<char>>(PUBLISH_USAGE@)
            &&& flag_value(args, "--slug"@) is Some && positional_beside(args, "--slug"@) is Some
                ==> (without is Ok <==> !rotate)
        }),
{
}

/// A publish that has files and a token that can be sent prepares a deployment; one without
/// files fails, and so does one whose token cannot be sent.
pub proof fn law_publish_starts_with_preparing(job: JobView)
    ensures
        job.files.len() > 0 && bearer_header(job.token) is Ok ==> publish_action(publish_start(job))
            is Prepare,
        job.files.len() == 0 ==> (publish_action(publish_start(job)) matches PublishAction::Fail {
            error,
            warning,
        } && error == "publish target has no files"@ && warning is None),
        job.files.len() > 0 ==> (bearer_header(job.token) matches Err(message) ==> (publish_action(
            publish_start(job),
        ) matches PublishAction::Fail { error, warning } && error == message && warning is None)),
        job.files.len() > 0 && job.files.len() <= usize::MAX ==> ({
            let updates = start_updates(job);
            &&& updates.len() == 1
            &&& updates[0].phase == PublishProgressPhase::Preparing
            &&& updates[0].completed_uploads == 0
            &&& updates[0].total_uploads == 0
            &&& updates[0].scanned_files == job.files.len()
            &&& updates[0].total_files == job.files.len()
        }),
        job.files.len() == 0 ==> start_updates(job).len() == 0,
{
}

/// Where the service accepts what it is asked for, a publish goes on: from preparing to the
/// uploads, from one upload to the next, from the last one to activating, and from there to its
/// end. An upload for a file that was not told of fails it, and so does an activation that names
/// no address.
pub proof fn law_accepted_publish_goes_on(
    state: PublishView,
    prepared: PrepareResponse<Seq<char>, UploadsView>,
    response: ActivateResponse<Seq<char>>,
    first: int,
)
    ensures
        state matches Publish::Prepare { job, authorization } ==> ({
            let next = publish_next(state, PublishEvent::Prepared(Reply::Accepted(prepared)));
            &&& prepared.upload_urls.len() == 0 ==> publish_action(next) is Activate
            &&& prepared.upload_urls.len() > 0 && 0 <= first < job.files.len()
                && job.files[first].path == prepared.upload_urls[0].path && (forall|i: int|
                0 <= i < first ==> (#[trigger] job.files[i]).path != prepared.upload_urls[0].path)
                ==> (publish_action(next) matches PublishAction::Upload(request) && request.path
                == prepared.upload_urls[0].path && request.url == prepared.upload_urls[0].url
                && request.content_type == job.files[first].content_type)
            &&& prepared.upload_urls.len() > 0 && (forall|i: int|
                0 <= i < job.files.len() ==> (#[trigger] job.files[i]).path
                    != prepared.upload_urls[0].path) ==> (next matches Publish::Cancel {
                deployment_id,
                request,
                error,
            } && deployment_id == prepared.deployment_id && error == "missing file descriptor for "@
                + prepared.upload_urls[0].path)
        }),
        state matches Publish::Upload { run, authorization, done, upload, content_type } ==> ({
            let next = publish_next(state, PublishEvent::Uploaded(Reply::Accepted(())));
            &&& done + 1 == run.uploads.len() && run.uploads.len() <= usize::MAX ==> publish_action(
                next,
            ) is Activate
            &&& done + 1 < run.uploads.len() && run.uploads.len() <= usize::MAX && 0 <= first
                < run.job.files.len() && run.job.files[first].path == run.uploads[done + 1].path && (
            forall|i: int|
                0 <= i < first ==> (#[trigger] run.job.files[i]).path != run.uploads[done + 1].path)
                ==> (publish_action(next) matches PublishAction::Upload(request) && request.path
                == run.uploads[done + 1].path && request.url == run.uploads[done + 1].url
                && request.content_type == run.job.files[first].content_type)
        }),
        state matches Publish::Activate { run, authorization } ==> ({
            let next = publish_next(state, PublishEvent::Activated(Reply::Accepted(response)));
            &&& publish_action(next) is Finish <==> cleaned_opt(response.served_url) is Some
                || cleaned_opt(response.public_url) is Some
            &&& cleaned_opt(response.served_url) is None && cleaned_opt(response.public_url) is None
                ==> (next matches Publish::Cancel { deployment_id, request, error } && deployment_id
                == run.deployment_id && error
                == "activate failed: missing servedUrl/publicUrl in response"@)
        }),
{
    if let Publish::Prepare { job, authorization } = state {
        if prepared.upload_urls.len() > 0 {
            crate::files::law_first_file_with_the_path_is_found(
                job.files,
                prepared.upload_urls[0].path,
                first,
            );
        }
    }
    if let Publish::Upload { run, authorization, done, upload, content_type } = state {
        if done + 1 < run.uploads.len() {
            crate::files::law_first_file_with_the_path_is_found(
                run.job.files,
                run.uploads[done + 1].path,
                first,
            );
        }
    }
}

/// A cancelled publish fails with the error that it was cancelled for, and with a warning where
/// the service could not be reached or did not agree.
pub proof fn law_cancelled_publish_fails_with_its_error(
    state: PublishView,
    status: u16,
    body: Seq<char>,
    message: Seq<char>,
)
    ensures
        state matches Publish::Cancel { deployment_id, request, error } ==> {
            &&& publish_action(publish_next(state, PublishEvent::Cancelled(Reply::Accepted(()))))
                == (PublishAction::<Seq<char>, FilesView>::Fail { error, warning: None })
            &&& publish_action(
                publish_next(state, PublishEvent::Cancelled(Reply::Refused { status, body })),
            ) == (PublishAction::<Seq<char>, FilesView>::Fail {
                error,
                warning: Some(
                    "warning: failed to cancel upload session ("@ + (decimal(status as nat) + " "@
                        + body) + ")"@,
                ),
            })
            &&& publish_action(
                publish_next(state, PublishEvent::Cancelled(Reply::Failed(message))),
            ) == (PublishAction::<Seq<char>, FilesView>::Fail {
                error,
                warning: Some("warning: failed to cancel upload session ("@ + message + ")"@),
            })
            &&& publish_action(publish_next(state, PublishEvent::CancelLeft))
                == (PublishAction::<Seq<char>, FilesView>::Fail { error, warning: None })
        },
{
}

/// The request that cancels a deployment is for that deployment of that project.
pub proof fn law_cancelling_names_the_deployment(
    api_base: Seq<char>,
    slug: Seq<char>,
    deployment_id: Seq<char>,
    authorization: Seq<char>,
)
    ensures
        ({
            let request = cancel_request(api_base, slug, deployment_id, authorization);
            &&& request.method == Method::Post
            &&& request.url == api_base + "/v1/projects/"@ + path_part(slug) + ("/deployments/"@
                + path_part(deployment_id) + "/cancel"@)
            &&& request.authorization == Some(authorization)
            &&& request.payload == Payload::<Seq<char>>::Nothing
        }),
{
}

/// A publish that is complete is reported with all its uploads made.
pub proof fn law_completion_counts_all_uploads(
    state: PublishView,
    response: ActivateResponse<Seq<char>>,
)
    ensures
        state matches Publish::Activate { run, authorization } ==> ({
            let updates = publish_updates(
                state,
                PublishEvent::Activated(Reply::Accepted(response)),
            );
            publish_action(
                publish_next(state, PublishEvent::Activated(Reply::Accepted(response))),
            ) is Finish && run.uploads.len() <= usize::MAX && run.job.files.len() <= usize::MAX ==> {
                &&& updates.len() == 1
                &&& updates[0].phase == PublishProgressPhase::Complete
                &&& updates[0].completed_uploads == run.uploads.len()
                &&& updates[0].total_uploads == run.uploads.len()
                &&& updates[0].scanned_files == run.job.files.len()
                &&& updates[0].total_files == run.job.files.len()
            }
        }),
{
}

/// A slug may be used at a service if and only if it is well formed, and is neither `www` nor
/// `u` nor the first label of the service's own host, or `api` where that has none.
pub proof fn law_slug_is_judged_by_the_service(slug: Seq<char>, api_base: Seq<char>)
    ensures
        slug_allowed_at(slug, api_base) is Ok <==> crate::slug::is_slug(slug) && slug != "www"@
            && slug != "u"@ && slug != (match crate::slug::first_label(url_parts(api_base)) {
            Some(label) => label,
            None => "api"@,
        }),
{
    let label = crate::slug::first_label(url_parts(api_base));
    crate::slug::law_usable_slugs(slug, crate::slug::reserved_with(label));
    crate::slug::law_reserved_labels(label);
    if crate::slug::reserved_with(label).contains(slug) {
        crate::slug::law_nothing_else_is_reserved(label, slug);
    }
}

} // verus!
