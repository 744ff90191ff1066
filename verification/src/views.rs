//! That the views, of which the contracts speak, show the values as they are.
use crate::address::UrlParts;
use crate::admin::{AdminUserRecord, AdminUserMutationPayload};
use crate::config::{StoredAuth, StoredConfig, CliConfig, FileText, KeychainRead, KeychainWrite, AuthNodes, ConfigNodes};
use crate::credentials::BasicAuthPayload;
use crate::dotenv::DotenvCredentials;
use crate::files::FileEntry;
use crate::http::{Payload, Request, Reply};
use crate::json::JsonNode;
use crate::projects::ProjectRecord;
use crate::prompt::{AnswerKind, Question, Verdict};
use crate::publish::{PublishTarget, UploadUrl, PrepareResponse, ActivateResponse, PublishJob, PrepareRequest, UploadRequest, PublishAction, PublishEvent};
use crate::removal::{RemovalAction, RemovalEvent};
use crate::resolve::Resolved;
use crate::session::{ServiceLoginResponse, ResolvedServiceLogin, ClearedSession};
use crate::setup::{PublishPlan, SetupAction, SetupEvent};
use crate::site::{SiteConfig, SiteNodes};
use crate::slug::ApiMetadata;
use crate::talk::{Action, Event, Environment};
use vstd::prelude::*;

verus! {

/// The view of the parts of an address shows every member in its own place.
pub proof fn law_address_views_are_faithful(
    url_parts: UrlParts,
)
    ensures
        url_parts.deep_view().scheme == url_parts.scheme@,
        url_parts.deep_view().host == url_parts.host.deep_view(),
        url_parts.deep_view().path == url_parts.path@,
        url_parts.deep_view().query == url_parts.query.deep_view(),
        url_parts.deep_view().fragment == url_parts.fragment.deep_view(),
        url_parts.deep_view().origin == url_parts.origin@,
{
}

/// The views of what the service says of users show every member in its own place.
pub proof fn law_admin_views_are_faithful(
    admin_user_record: AdminUserRecord,
    admin_user_mutation_payload: AdminUserMutationPayload,
)
    ensures
        admin_user_record.deep_view().username == admin_user_record.username.deep_view(),
        admin_user_record.deep_view().role == admin_user_record.role.deep_view(),
        admin_user_record.deep_view().status == admin_user_record.status.deep_view(),
        admin_user_record.deep_view().must_change_password == admin_user_record.must_change_password,
        admin_user_mutation_payload.deep_view().username == admin_user_mutation_payload.username.deep_view(),
        admin_user_mutation_payload.deep_view().temporary_password == admin_user_mutation_payload.temporary_password.deep_view(),
{
}

/// The views of what is stored, and of what files and the keychain give show every member in its own place.
pub proof fn law_config_views_are_faithful(
    stored_auth: StoredAuth,
    stored_config: StoredConfig,
    cli_config: CliConfig,
    file_text: FileText,
    keychain_read: KeychainRead,
    keychain_write: KeychainWrite,
    auth_nodes: AuthNodes,
    config_nodes: ConfigNodes,
)
    ensures
        stored_auth.deep_view().auth_type == stored_auth.auth_type,
        stored_auth.deep_view().token_storage == stored_auth.token_storage,
        stored_auth.deep_view().access_token == stored_auth.access_token.deep_view(),
        stored_auth.deep_view().actor == stored_auth.actor.deep_view(),
        stored_auth.deep_view().username == stored_auth.username.deep_view(),
        stored_auth.deep_view().role == stored_auth.role.deep_view(),
        stored_auth.deep_view().must_change_password == stored_auth.must_change_password,
        stored_config.deep_view().api_base == stored_config.api_base@,
        stored_config.deep_view().auth == stored_config.auth.deep_view(),
        stored_config.deep_view().token_storage == stored_config.token_storage,
        stored_config.deep_view().token == stored_config.token.deep_view(),
        cli_config.deep_view().api_base == cli_config.api_base@,
        cli_config.deep_view().token == cli_config.token@,
        cli_config.deep_view().auth_type == cli_config.auth_type,
        file_text is Absent ==> file_text.deep_view() is Absent,
        file_text matches FileText::Text(text) ==> (
            file_text.deep_view() matches FileText::Text(shown) && shown == text@),
        file_text matches FileText::Failed(message) ==> (
            file_text.deep_view() matches FileText::Failed(shown) && shown == message@),
        keychain_read is Unavailable ==> keychain_read.deep_view() is Unavailable,
        keychain_read matches KeychainRead::Token(token) ==> (
            keychain_read.deep_view() matches KeychainRead::Token(shown) && shown == token@),
        keychain_read matches KeychainRead::Failed(message) ==> (
            keychain_read.deep_view() matches KeychainRead::Failed(shown) && shown == message@),
        keychain_write is Unavailable ==> keychain_write.deep_view() is Unavailable,
        keychain_write is Stored ==> keychain_write.deep_view() is Stored,
        keychain_write matches KeychainWrite::Failed(message) ==> (
            keychain_write.deep_view() matches KeychainWrite::Failed(shown) && shown == message@),
        auth_nodes.deep_view().auth_type == auth_nodes.auth_type.deep_view(),
        auth_nodes.deep_view().token_storage == auth_nodes.token_storage.deep_view(),
        auth_nodes.deep_view().access_token == auth_nodes.access_token.deep_view(),
        auth_nodes.deep_view().actor == auth_nodes.actor.deep_view(),
        auth_nodes.deep_view().username == auth_nodes.username.deep_view(),
        auth_nodes.deep_view().role == auth_nodes.role.deep_view(),
        auth_nodes.deep_view().must_change_password == auth_nodes.must_change_password.deep_view(),
        config_nodes.deep_view().api_base == config_nodes.api_base.deep_view(),
        config_nodes.deep_view().auth == config_nodes.auth.deep_view(),
        config_nodes.deep_view().auth_members == config_nodes.auth_members.deep_view(),
        config_nodes.deep_view().token_storage == config_nodes.token_storage.deep_view(),
        config_nodes.deep_view().token == config_nodes.token.deep_view(),
{
}

/// The view of credentials shows every member in its own place.
pub proof fn law_credentials_views_are_faithful(
    basic_auth_payload: BasicAuthPayload,
)
    ensures
        basic_auth_payload.deep_view().username == basic_auth_payload.username@,
        basic_auth_payload.deep_view().password == basic_auth_payload.password@,
{
}

/// The view of what a `.env` file assigns shows every member in its own place.
pub proof fn law_dotenv_views_are_faithful(
    dotenv_credentials: DotenvCredentials,
)
    ensures
        dotenv_credentials.deep_view().username == dotenv_credentials.username.deep_view(),
        dotenv_credentials.deep_view().password == dotenv_credentials.password.deep_view(),
{
}

/// The view of a file shows every member in its own place.
pub proof fn law_files_views_are_faithful(
    file_entry: FileEntry,
)
    ensures
        file_entry.deep_view().path == file_entry.path@,
        file_entry.deep_view().sha256 == file_entry.sha256@,
        file_entry.deep_view().size == file_entry.size,
        file_entry.deep_view().content_type == file_entry.content_type@,
{
}

/// The views of requests and replies show every member in its own place.
pub proof fn law_http_views_are_faithful<P: DeepView>(
    payload: Payload,
    request: Request,
    reply: Reply<P>,
)
    ensures
        payload is Nothing ==> payload.deep_view() is Nothing,
        payload matches Payload::Login { username, password } ==> (
            payload.deep_view() matches Payload::Login { username: shown_username, password: shown_password }
                && shown_username == username@ && shown_password == password@),
        payload matches Payload::ChangePassword { current_password, new_password } ==> (
            payload.deep_view() matches Payload::ChangePassword { current_password: shown_current_password, new_password: shown_new_password }
                && shown_current_password == current_password@
                && shown_new_password == new_password@),
        payload matches Payload::NewUser { username, role, temporary_password } ==> (
            payload.deep_view() matches Payload::NewUser { username: shown_username, role: shown_role, temporary_password: shown_temporary_password }
                && shown_username == username@ && shown_role == role@
                && shown_temporary_password == temporary_password.deep_view()),
        request.deep_view().method == request.method,
        request.deep_view().url == request.url@,
        request.deep_view().authorization == request.authorization.deep_view(),
        request.deep_view().payload == request.payload.deep_view(),
        reply matches Reply::Failed(message) ==> (
            reply.deep_view() matches Reply::Failed(shown) && shown == message@),
        reply matches Reply::Refused { status, body } ==> (
            reply.deep_view() matches Reply::Refused { status: shown_status, body: shown_body }
                && shown_status == status && shown_body == body@),
        reply matches Reply::Unreadable(message) ==> (
            reply.deep_view() matches Reply::Unreadable(shown) && shown == message@),
        reply matches Reply::Accepted(value) ==> (
            reply.deep_view() matches Reply::Accepted(shown) && shown == value.deep_view()),
{
}

/// The view of a member of a document shows every member in its own place.
pub proof fn law_json_views_are_faithful(
    json_node: JsonNode,
)
    ensures
        json_node is Null ==> json_node.deep_view() is Null,
        json_node matches JsonNode::Flag(flag) ==> (
            json_node.deep_view() matches JsonNode::Flag(shown) && shown == flag),
        json_node is Number ==> json_node.deep_view() is Number,
        json_node matches JsonNode::Text(text) ==> (
            json_node.deep_view() matches JsonNode::Text(shown) && shown == text@),
        json_node is List ==> json_node.deep_view() is List,
        json_node is Object ==> json_node.deep_view() is Object,
{
}

/// The view of a project shows every member in its own place.
pub proof fn law_projects_views_are_faithful(
    project_record: ProjectRecord,
)
    ensures
        project_record.deep_view().slug == project_record.slug@,
        project_record.deep_view().hostname == project_record.hostname.deep_view(),
        project_record.deep_view().access == project_record.access.deep_view(),
        project_record.deep_view().served_url == project_record.served_url.deep_view(),
        project_record.deep_view().public_url == project_record.public_url.deep_view(),
        project_record.deep_view().share_url == project_record.share_url.deep_view(),
        project_record.deep_view().active_deployment_id == project_record.active_deployment_id.deep_view(),
        project_record.deep_view().updated_at == project_record.updated_at.deep_view(),
        project_record.deep_view().updated_by == project_record.updated_by.deep_view(),
{
}

/// The views of questions and answers show every member in its own place.
pub proof fn law_prompt_views_are_faithful(
    answer_kind: AnswerKind,
    question: Question,
    verdict: Verdict,
)
    ensures
        answer_kind is Anything ==> answer_kind.deep_view() is Anything,
        answer_kind is ApiBase ==> answer_kind.deep_view() is ApiBase,
        answer_kind is Username ==> answer_kind.deep_view() is Username,
        answer_kind is Password ==> answer_kind.deep_view() is Password,
        answer_kind is NewPassword ==> answer_kind.deep_view() is NewPassword,
        answer_kind matches AnswerKind::Slug { api_label } ==> (
            answer_kind.deep_view() matches AnswerKind::Slug { api_label: shown_api_label }
                && shown_api_label == api_label.deep_view()),
        answer_kind is PublishDir ==> answer_kind.deep_view() is PublishDir,
        question.deep_view().guidance == question.guidance.deep_view(),
        question.deep_view().label == question.label@,
        question.deep_view().default_value == question.default_value.deep_view(),
        question.deep_view().kind == question.kind.deep_view(),
        verdict matches Verdict::Accepted(text) ==> (
            verdict.deep_view() matches Verdict::Accepted(shown) && shown == text@),
        verdict matches Verdict::Retry(message) ==> (
            verdict.deep_view() matches Verdict::Retry(shown) && shown == message@),
        verdict matches Verdict::Failed(message) ==> (
            verdict.deep_view() matches Verdict::Failed(shown) && shown == message@),
{
}

/// The views of what is published and of what the service says of it show every member in its own place.
pub proof fn law_publish_views_are_faithful(
    publish_target: PublishTarget,
    upload_url: UploadUrl,
    prepare_response: PrepareResponse,
    activate_response: ActivateResponse,
    publish_job: PublishJob,
    prepare_request: PrepareRequest,
    upload_request: UploadRequest,
    publish_action: PublishAction,
    publish_event: PublishEvent,
)
    ensures
        publish_target.deep_view().slug == publish_target.slug@,
        publish_target.deep_view().directory == publish_target.directory@,
        publish_target.deep_view().access == publish_target.access,
        publish_target.deep_view().rotate_share_link == publish_target.rotate_share_link,
        upload_url.deep_view().path == upload_url.path@,
        upload_url.deep_view().url == upload_url.url@,
        prepare_response.deep_view().deployment_id == prepare_response.deployment_id@,
        prepare_response.deep_view().upload_urls == prepare_response.upload_urls.deep_view(),
        activate_response.deep_view().served_url == activate_response.served_url.deep_view(),
        activate_response.deep_view().public_url == activate_response.public_url.deep_view(),
        activate_response.deep_view().share_url == activate_response.share_url.deep_view(),
        publish_job.deep_view().api_base == publish_job.api_base@,
        publish_job.deep_view().token == publish_job.token@,
        publish_job.deep_view().slug == publish_job.slug@,
        publish_job.deep_view().access == publish_job.access,
        publish_job.deep_view().basic_auth == publish_job.basic_auth.deep_view(),
        publish_job.deep_view().rotate_share_link == publish_job.rotate_share_link,
        publish_job.deep_view().files == publish_job.files.deep_view(),
        prepare_request.deep_view().url == prepare_request.url@,
        prepare_request.deep_view().authorization == prepare_request.authorization@,
        prepare_request.deep_view().files == prepare_request.files.deep_view(),
        prepare_request.deep_view().access == prepare_request.access,
        prepare_request.deep_view().basic_auth == prepare_request.basic_auth.deep_view(),
        prepare_request.deep_view().rotate_share_link == prepare_request.rotate_share_link,
        upload_request.deep_view().path == upload_request.path@,
        upload_request.deep_view().url == upload_request.url@,
        upload_request.deep_view().content_type == upload_request.content_type@,
        upload_request.deep_view().authorization == upload_request.authorization.deep_view(),
        publish_action matches PublishAction::Prepare(request) ==> (
            publish_action.deep_view() matches PublishAction::Prepare(shown)
                && shown == request.deep_view()),
        publish_action matches PublishAction::Upload(request) ==> (
            publish_action.deep_view() matches PublishAction::Upload(shown)
                && shown == request.deep_view()),
        publish_action matches PublishAction::Activate(request) ==> (
            publish_action.deep_view() matches PublishAction::Activate(shown)
                && shown == request.deep_view()),
        publish_action matches PublishAction::Cancel(request) ==> (
            publish_action.deep_view() matches PublishAction::Cancel(shown)
                && shown == request.deep_view()),
        publish_action matches PublishAction::Finish(lines) ==> (
            publish_action.deep_view() matches PublishAction::Finish(shown) && shown == lines@),
        publish_action matches PublishAction::Fail { error, warning } ==> (
            publish_action.deep_view() matches PublishAction::Fail { error: shown_error, warning: shown_warning }
                && shown_error == error@ && shown_warning == warning.deep_view()),
        publish_event matches PublishEvent::Prepared(reply) ==> (
            publish_event.deep_view() matches PublishEvent::Prepared(shown)
                && shown == reply.deep_view()),
        publish_event matches PublishEvent::FileFailed(message) ==> (
            publish_event.deep_view() matches PublishEvent::FileFailed(shown) && shown == message@),
        publish_event matches PublishEvent::Uploaded(reply) ==> (
            publish_event.deep_view() matches PublishEvent::Uploaded(shown)
                && shown == reply.deep_view()),
        publish_event matches PublishEvent::Activated(reply) ==> (
            publish_event.deep_view() matches PublishEvent::Activated(shown)
                && shown == reply.deep_view()),
        publish_event matches PublishEvent::Cancelled(reply) ==> (
            publish_event.deep_view() matches PublishEvent::Cancelled(shown)
                && shown == reply.deep_view()),
        publish_event is CancelLeft ==> publish_event.deep_view() is CancelLeft,
{
}

/// The views of a removal's steps show every member in its own place.
pub proof fn law_removal_views_are_faithful(
    removal_action: RemovalAction,
    removal_event: RemovalEvent,
)
    ensures
        removal_action is ReadSite ==> removal_action.deep_view() is ReadSite,
        removal_action is ReadLogin ==> removal_action.deep_view() is ReadLogin,
        removal_action matches RemovalAction::Remove(request) ==> (
            removal_action.deep_view() matches RemovalAction::Remove(shown)
                && shown == request.deep_view()),
        removal_action matches RemovalAction::Finish(line) ==> (
            removal_action.deep_view() matches RemovalAction::Finish(shown) && shown == line@),
        removal_action matches RemovalAction::Fail(message) ==> (
            removal_action.deep_view() matches RemovalAction::Fail(shown) && shown == message@),
        removal_event matches RemovalEvent::Site(site) ==> (
            removal_event.deep_view() matches RemovalEvent::Site(shown)
                && shown == site.deep_view()),
        removal_event matches RemovalEvent::Login(config) ==> (
            removal_event.deep_view() matches RemovalEvent::Login(shown)
                && shown == config.deep_view()),
        removal_event matches RemovalEvent::Removed(reply) ==> (
            removal_event.deep_view() matches RemovalEvent::Removed(shown)
                && shown == reply.deep_view()),
        removal_event matches RemovalEvent::Failed(message) ==> (
            removal_event.deep_view() matches RemovalEvent::Failed(shown) && shown == message@),
{
}

/// The view of a setting shows every member in its own place.
pub proof fn law_resolve_views_are_faithful(
    resolved: Resolved,
)
    ensures
        resolved matches Resolved::Known(text) ==> (
            resolved.deep_view() matches Resolved::Known(shown) && shown == text@),
        resolved matches Resolved::Ask(question) ==> (
            resolved.deep_view() matches Resolved::Ask(shown) && shown == question.deep_view()),
        resolved matches Resolved::Refused(message) ==> (
            resolved.deep_view() matches Resolved::Refused(shown) && shown == message@),
{
}

/// The views of logins show every member in its own place.
pub proof fn law_session_views_are_faithful(
    service_login_response: ServiceLoginResponse,
    resolved_service_login: ResolvedServiceLogin,
    cleared_session: ClearedSession,
)
    ensures
        service_login_response.deep_view().access_token == service_login_response.access_token.deep_view(),
        service_login_response.deep_view().actor == service_login_response.actor.deep_view(),
        service_login_response.deep_view().username == service_login_response.username.deep_view(),
        service_login_response.deep_view().role == service_login_response.role.deep_view(),
        service_login_response.deep_view().must_change_password == service_login_response.must_change_password,
        resolved_service_login.deep_view().access_token == resolved_service_login.access_token@,
        resolved_service_login.deep_view().actor == resolved_service_login.actor@,
        resolved_service_login.deep_view().username == resolved_service_login.username@,
        resolved_service_login.deep_view().role == resolved_service_login.role.deep_view(),
        resolved_service_login.deep_view().must_change_password == resolved_service_login.must_change_password,
        cleared_session.deep_view().config == cleared_session.config.deep_view(),
        cleared_session.deep_view().forget_keychain == cleared_session.forget_keychain,
{
}

/// The views of a publish that is set up show every member in its own place.
pub proof fn law_setup_views_are_faithful(
    publish_plan: PublishPlan,
    setup_action: SetupAction,
    setup_event: SetupEvent,
)
    ensures
        publish_plan.deep_view().target == publish_plan.target.deep_view(),
        publish_plan.deep_view().config == publish_plan.config.deep_view(),
        publish_plan.deep_view().basic_auth == publish_plan.basic_auth.deep_view(),
        setup_action is ReadSite ==> setup_action.deep_view() is ReadSite,
        setup_action is ReadLogin ==> setup_action.deep_view() is ReadLogin,
        setup_action is ReadVariables ==> setup_action.deep_view() is ReadVariables,
        setup_action is ReadDotenv ==> setup_action.deep_view() is ReadDotenv,
        setup_action matches SetupAction::Publish(plan) ==> (
            setup_action.deep_view() matches SetupAction::Publish(shown)
                && shown == plan.deep_view()),
        setup_action matches SetupAction::Fail(message) ==> (
            setup_action.deep_view() matches SetupAction::Fail(shown) && shown == message@),
        setup_event matches SetupEvent::Site(site) ==> (
            setup_event.deep_view() matches SetupEvent::Site(shown) && shown == site.deep_view()),
        setup_event matches SetupEvent::Login(config) ==> (
            setup_event.deep_view() matches SetupEvent::Login(shown)
                && shown == config.deep_view()),
        setup_event matches SetupEvent::Variables { username, password } ==> (
            setup_event.deep_view() matches SetupEvent::Variables { username: shown_username, password: shown_password }
                && shown_username == username.deep_view()
                && shown_password == password.deep_view()),
        setup_event matches SetupEvent::Dotenv(file) ==> (
            setup_event.deep_view() matches SetupEvent::Dotenv(shown) && shown == file.deep_view()),
        setup_event matches SetupEvent::Failed(message) ==> (
            setup_event.deep_view() matches SetupEvent::Failed(shown) && shown == message@),
{
}

/// The views of a site show every member in its own place.
pub proof fn law_site_views_are_faithful(
    site_config: SiteConfig,
    site_nodes: SiteNodes,
)
    ensures
        site_config.deep_view().slug == site_config.slug@,
        site_config.deep_view().publish_dir == site_config.publish_dir@,
        site_config.deep_view().access == site_config.access,
        site_nodes.deep_view().slug == site_nodes.slug.deep_view(),
        site_nodes.deep_view().publish_dir == site_nodes.publish_dir.deep_view(),
        site_nodes.deep_view().access == site_nodes.access.deep_view(),
        site_nodes.deep_view().visibility == site_nodes.visibility.deep_view(),
{
}

/// The view of what the service says of itself shows every member in its own place.
pub proof fn law_slug_views_are_faithful(
    api_metadata: ApiMetadata,
)
    ensures
        api_metadata.deep_view().api_base == api_metadata.api_base.deep_view(),
        api_metadata.deep_view().public_suffix == api_metadata.public_suffix.deep_view(),
        api_metadata.deep_view().token_creation_url == api_metadata.token_creation_url.deep_view(),
{
}

/// The views of what a command asks for and is told show every member in its own place.
pub proof fn law_talk_views_are_faithful(
    action: Action,
    event: Event,
    environment: Environment,
)
    ensures
        action matches Action::Ask(question) ==> (
            action.deep_view() matches Action::Ask(shown) && shown == question.deep_view()),
        action matches Action::Choose { choice, marked } ==> (
            action.deep_view() matches Action::Choose { choice: shown_choice, marked: shown_marked }
                && shown_choice == choice && shown_marked == marked),
        action matches Action::FetchMetadata(request) ==> (
            action.deep_view() matches Action::FetchMetadata(shown)
                && shown == request.deep_view()),
        action matches Action::Verify(request) ==> (
            action.deep_view() matches Action::Verify(shown) && shown == request.deep_view()),
        action matches Action::SignIn(request) ==> (
            action.deep_view() matches Action::SignIn(shown) && shown == request.deep_view()),
        action matches Action::ChangePassword(request) ==> (
            action.deep_view() matches Action::ChangePassword(shown)
                && shown == request.deep_view()),
        action matches Action::StoreInKeychain(token) ==> (
            action.deep_view() matches Action::StoreInKeychain(shown) && shown == token@),
        action matches Action::SaveConfig(config) ==> (
            action.deep_view() matches Action::SaveConfig(shown) && shown == config.deep_view()),
        action is ReadConfig ==> action.deep_view() is ReadConfig,
        action is ForgetKeychain ==> action.deep_view() is ForgetKeychain,
        action is ReadSite ==> action.deep_view() is ReadSite,
        action matches Action::SaveSite(site) ==> (
            action.deep_view() matches Action::SaveSite(shown) && shown == site.deep_view()),
        action matches Action::Say(line) ==> (
            action.deep_view() matches Action::Say(shown) && shown == line@),
        action matches Action::Finish(lines) ==> (
            action.deep_view() matches Action::Finish(shown) && shown == lines@),
        action matches Action::Fail(message) ==> (
            action.deep_view() matches Action::Fail(shown) && shown == message@),
        event matches Event::Answered(answer) ==> (
            event.deep_view() matches Event::Answered(shown) && shown == answer@),
        event matches Event::Chosen(option) ==> (
            event.deep_view() matches Event::Chosen(shown) && shown == option),
        event matches Event::Metadata(metadata) ==> (
            event.deep_view() matches Event::Metadata(shown) && shown == metadata.deep_view()),
        event matches Event::Verified(reply) ==> (
            event.deep_view() matches Event::Verified(shown) && shown == reply.deep_view()),
        event matches Event::SignedIn(reply) ==> (
            event.deep_view() matches Event::SignedIn(shown) && shown == reply.deep_view()),
        event matches Event::Changed(reply) ==> (
            event.deep_view() matches Event::Changed(shown) && shown == reply.deep_view()),
        event matches Event::Kept(write) ==> (
            event.deep_view() matches Event::Kept(shown) && shown == write.deep_view()),
        event matches Event::Config(stored) ==> (
            event.deep_view() matches Event::Config(shown) && shown == stored.deep_view()),
        event matches Event::Site(site) ==> (
            event.deep_view() matches Event::Site(shown) && shown == site.deep_view()),
        event is Done ==> event.deep_view() is Done,
        event matches Event::Failed(message) ==> (
            event.deep_view() matches Event::Failed(shown) && shown == message@),
        environment.deep_view().api_base == environment.api_base.deep_view(),
        environment.deep_view().token == environment.token.deep_view(),
        environment.deep_view().username == environment.username.deep_view(),
        environment.deep_view().password == environment.password.deep_view(),
        environment.deep_view().interactive == environment.interactive,
{
}

} // verus!
