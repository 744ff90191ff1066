//! Where a command takes its settings from: the command line, the environment, what is stored,
//! and what is left to ask the user.
use crate::access::{
    access_input, assert_no_deprecated_visibility_flag, no_visibility_flag, parse_access_input,
    Access,
};
use crate::address::{api_base_from, normalize_api_base};
use crate::args::{
    cleaned_opt, flag_value, positional, read_flag, read_positional_arg, read_string,
    read_string_opt,
};
use crate::config::TokenStorage;
use crate::prompt::{
    not_blank, option_of_access, option_of_storage, access_option, require_text, storage_option,
    AnswerKind, Question, NEW_PASSWORD_EMPTY, PASSWORD_REQUIRED,
};
use crate::site::{parse_publish_dir_input, publish_dir_input};
use crate::slug::{parse_slug_input, reserve_labels, reserved_with, slug_input};
use crate::text::{lowercase, outcome, same_text, to_ascii_lowercase, trim, trimmed};
use vstd::prelude::*;

verus! {

/// A setting: known, to be asked for, or refused.
#[derive(Debug, PartialEq, Eq)]
pub enum Resolved<T = String> {
    Known(T),
    Ask(Question<T>),
    Refused(T),
}

impl DeepView for Resolved {
    type V = Resolved<Seq<char>>;

    open spec fn deep_view(&self) -> Resolved<Seq<char>> {
        match self {
            Resolved::Known(text) => Resolved::Known(text@),
            Resolved::Ask(question) => Resolved::Ask(question.deep_view()),
            Resolved::Refused(message) => Resolved::Refused(message@),
        }
    }
}

/// A setting with a few values: known, or to be chosen, with the option that is marked first.
#[derive(Debug, PartialEq, Eq)]
pub enum Selected<V> {
    Known(V),
    Choose { marked: usize },
}

impl<V> DeepView for Selected<V> {
    type V = Selected<V>;

    open spec fn deep_view(&self) -> Selected<V> {
        *self
    }
}

pub const API_BASE_PROMPT_GUIDANCE: &'static str =
    "Enter API base URL (for example: https://api.example.com)";

pub const USERNAME_PROMPT_GUIDANCE: &'static str = "Use your issued username from the admin.";

pub const SLUG_PROMPT_GUIDANCE: &'static str =
    "Project slug is used as hostname label (a-z, 0-9, hyphen).";

pub const PUBLISH_DIR_PROMPT_GUIDANCE: &'static str =
    "Publish directory is relative to the current working directory.";

pub const PASSWORD_CHANGE_GUIDANCE: &'static str = "password change required for this account.";

pub const NEW_PASSWORD_NEEDED: &'static str =
    "password change required for this account. Re-run cfsurge login with --new-password <password>.";

pub const INVALID_ROLE: &'static str = "invalid role: expected user or admin";

/// A setting that came to a value or a message.
pub open spec fn settled(result: Result<Seq<char>, Seq<char>>) -> Resolved<Seq<char>> {
    match result {
        Ok(text) => Resolved::Known(text),
        Err(message) => Resolved::Refused(message),
    }
}

/// Guidance, which only a user who is there gets to see.
pub open spec fn guidance_if(interactive: bool, guidance: Seq<char>) -> Option<Seq<char>> {
    if interactive {
        Some(guidance)
    } else {
        None
    }
}

/// A question that has no default.
pub open spec fn plain_question(
    guidance: Option<Seq<char>>,
    label: Seq<char>,
    kind: AnswerKind<Seq<char>>,
) -> Question<Seq<char>> {
    Question { guidance, label, default_value: None, kind }
}

/// The base URL: from the flag, the environment, what is stored, else from the user.
pub open spec fn api_base_setting(
    args: Seq<Seq<char>>,
    env_api_base: Option<Seq<char>>,
    stored_api_base: Option<Seq<char>>,
    interactive: bool,
) -> Resolved<Seq<char>> {
    match flag_value(args, "--api-base"@) {
        Some(value) => settled(api_base_from(value)),
        None => match cleaned_opt(env_api_base) {
            Some(value) => settled(api_base_from(value)),
            None => match stored_api_base {
                Some(value) => settled(api_base_from(value)),
                None => Resolved::Ask(
                    plain_question(
                        guidance_if(interactive, API_BASE_PROMPT_GUIDANCE@),
                        "API base URL"@,
                        AnswerKind::ApiBase,
                    ),
                ),
            },
        },
    }
}

/// The user name to log in with.
pub open spec fn username_setting(
    args: Seq<Seq<char>>,
    env_username: Option<Seq<char>>,
    interactive: bool,
) -> Resolved<Seq<char>> {
    match cleaned_opt(flag_value(args, "--username"@)) {
        Some(value) => Resolved::Known(value),
        None => match cleaned_opt(env_username) {
            Some(value) => Resolved::Known(value),
            None => Resolved::Ask(
                plain_question(
                    guidance_if(interactive, USERNAME_PROMPT_GUIDANCE@),
                    "Username"@,
                    AnswerKind::Username,
                ),
            ),
        },
    }
}

/// The password to log in with.
pub open spec fn password_setting(
    args: Seq<Seq<char>>,
    env_password: Option<Seq<char>>,
) -> Resolved<Seq<char>> {
    match flag_value(args, "--password"@) {
        Some(value) => settled(not_blank(value, PASSWORD_REQUIRED@)),
        None => match env_password {
            Some(value) => settled(not_blank(value, PASSWORD_REQUIRED@)),
            None => Resolved::Ask(plain_question(None, "Password"@, AnswerKind::Password)),
        },
    }
}

/// The new password that the flag gives.
pub open spec fn new_password_flag(args: Seq<Seq<char>>) -> Result<Option<Seq<char>>, Seq<char>> {
    match flag_value(args, "--new-password"@) {
        None => Ok(None),
        Some(value) => match not_blank(value, NEW_PASSWORD_EMPTY@) {
            Ok(value) => Ok(Some(value)),
            Err(message) => Err(message),
        },
    }
}

/// The new password of an account that has to change it.
pub open spec fn new_password_setting(
    parsed_flag: Option<Seq<char>>,
    interactive: bool,
) -> Resolved<Seq<char>> {
    match parsed_flag {
        Some(value) => Resolved::Known(value),
        None => if interactive {
            Resolved::Ask(
                plain_question(
                    Some(PASSWORD_CHANGE_GUIDANCE@),
                    "New password"@,
                    AnswerKind::NewPassword,
                ),
            )
        } else {
            Resolved::Refused(NEW_PASSWORD_NEEDED@)
        },
    }
}

/// The slug of a project, at a service whose own label is `api_label`.
pub open spec fn slug_setting(
    args: Seq<Seq<char>>,
    default_slug: Option<Seq<char>>,
    api_label: Option<Seq<char>>,
    interactive: bool,
) -> Resolved<Seq<char>> {
    match flag_value(args, "--slug"@) {
        Some(value) => settled(slug_input(value, reserved_with(api_label))),
        None => Resolved::Ask(
            Question {
                guidance: guidance_if(interactive, SLUG_PROMPT_GUIDANCE@),
                label: "Project slug"@,
                default_value: default_slug,
                kind: AnswerKind::Slug { api_label },
            },
        ),
    }
}

/// The directory to publish.
pub open spec fn publish_dir_setting(
    args: Seq<Seq<char>>,
    default_publish_dir: Seq<char>,
    interactive: bool,
) -> Resolved<Seq<char>> {
    match flag_value(args, "--publish-dir"@) {
        Some(value) => settled(publish_dir_input(value)),
        None => Resolved::Ask(
            Question {
                guidance: guidance_if(interactive, PUBLISH_DIR_PROMPT_GUIDANCE@),
                label: "Publish directory"@,
                default_value: Some(default_publish_dir),
                kind: AnswerKind::PublishDir,
            },
        ),
    }
}

/// Who may read a site: from the flag, else chosen by a user who is there, else the default.
pub open spec fn access_setting(
    args: Seq<Seq<char>>,
    default_access: Access,
    interactive: bool,
) -> Result<Selected<Access>, Seq<char>> {
    match no_visibility_flag(args) {
        Err(message) => Err(message),
        Ok(()) => match flag_value(args, "--access"@) {
            Some(value) => match access_input(value) {
                Ok(access) => Ok(Selected::Known(access)),
                Err(message) => Err(message),
            },
            None => if interactive {
                Ok(Selected::Choose { marked: option_of_access(default_access) as usize })
            } else {
                Ok(Selected::Known(default_access))
            },
        },
    }
}

/// Where to keep the token: as requested, else chosen by a user who is there, else the file.
pub open spec fn token_storage_setting(
    requested: Option<TokenStorage>,
    interactive: bool,
) -> Selected<TokenStorage> {
    match requested {
        Some(storage) => Selected::Known(storage),
        None => if interactive {
            Selected::Choose { marked: option_of_storage(TokenStorage::File) as usize }
        } else {
            Selected::Known(TokenStorage::File)
        },
    }
}

/// The user that an administrator means: from the flag, else from the user.
pub open spec fn admin_username_setting(
    args: Seq<Seq<char>>,
    flag: Seq<char>,
    label: Seq<char>,
) -> Resolved<Seq<char>> {
    match cleaned_opt(flag_value(args, flag)) {
        Some(value) => Resolved::Known(value),
        None => Resolved::Ask(plain_question(None, label, AnswerKind::Username)),
    }
}

/// The user that the first word names.
pub open spec fn admin_positional_username(args: Seq<Seq<char>>, usage: Seq<char>) -> Result<
    Seq<char>,
    Seq<char>,
> {
    match cleaned_opt(positional(args)) {
        Some(username) => Ok(username),
        None => Err(usage),
    }
}

/// The role that a text names, in lower case.
pub open spec fn user_role(value: Seq<char>) -> Result<Seq<char>, Seq<char>> {
    let role = lowercase(trimmed(value));
    if role == "user"@ || role == "admin"@ {
        Ok(role)
    } else {
        Err(INVALID_ROLE@)
    }
}

fn settle(result: Result<String, String>) -> (resolved: Resolved)
    ensures
        resolved.deep_view() == settled(outcome(result)),
{
    match result {
        Ok(text) => Resolved::Known(text),
        Err(message) => Resolved::Refused(message),
    }
}

fn guide(interactive: bool, guidance: &str) -> (shown: Option<String>)
    ensures
        shown.deep_view() == guidance_if(interactive, guidance@),
{
    if interactive {
        Some(guidance.to_string())
    } else {
        None
    }
}

/// The base URL: from the flag, the environment, what is stored, else from the user.
pub fn resolve_api_base(
    args: &[String],
    env_api_base: Option<&String>,
    stored_api_base: Option<&String>,
    interactive: bool,
) -> (api_base: Resolved)
    ensures
        api_base.deep_view() == api_base_setting(
            args.deep_view(),
            env_api_base.deep_view(),
            stored_api_base.deep_view(),
            interactive,
        ),
{
    if let Some(value) = read_flag(args, "--api-base") {
        return settle(normalize_api_base(value.as_str()));
    }
    if let Some(value) = read_string_opt(env_api_base) {
        return settle(normalize_api_base(value.as_str()));
    }
    if let Some(value) = stored_api_base {
        return settle(normalize_api_base(value.as_str()));
    }
    Resolved::Ask(
        Question {
            guidance: guide(interactive, API_BASE_PROMPT_GUIDANCE),
            label: "API base URL".to_string(),
            default_value: None,
            kind: AnswerKind::ApiBase,
        },
    )
}

/// The user name to log in with.
pub fn resolve_username(args: &[String], env_username: Option<&String>, interactive: bool) -> (username:
    Resolved)
    ensures
        username.deep_view() == username_setting(
            args.deep_view(),
            env_username.deep_view(),
            interactive,
        ),
{
    if let Some(value) = read_flag(args, "--username") {
        if let Some(username) = read_string(value.as_str()) {
            return Resolved::Known(username);
        }
    }
    if let Some(username) = read_string_opt(env_username) {
        return Resolved::Known(username);
    }
    Resolved::Ask(
        Question {
            guidance: guide(interactive, USERNAME_PROMPT_GUIDANCE),
            label: "Username".to_string(),
            default_value: None,
            kind: AnswerKind::Username,
        },
    )
}

/// The password to log in with.
pub fn resolve_password(args: &[String], env_password: Option<&String>) -> (password: Resolved)
    ensures
        password.deep_view() == password_setting(args.deep_view(), env_password.deep_view()),
{
    if let Some(value) = read_flag(args, "--password") {
        return settle(require_text(value.as_str(), PASSWORD_REQUIRED));
    }
    if let Some(value) = env_password {
        return settle(require_text(value.as_str(), PASSWORD_REQUIRED));
    }
    Resolved::Ask(
        Question {
            guidance: None,
            label: "Password".to_string(),
            default_value: None,
            kind: AnswerKind::Password,
        },
    )
}

/// The new password that the flag gives.
pub fn parse_new_password_flag(args: &[String]) -> (parsed: Result<Option<String>, String>)
    ensures
        outcome(parsed) == new_password_flag(args.deep_view()),
{
    match read_flag(args, "--new-password") {
        None => Ok(None),
        Some(value) => match require_text(value.as_str(), NEW_PASSWORD_EMPTY) {
            Ok(value) => Ok(Some(value)),
            Err(message) => Err(message),
        },
    }
}

/// The new password of an account that has to change it.
pub fn resolve_login_new_password(parsed_flag: Option<String>, interactive: bool) -> (password: Resolved)
    ensures
        password.deep_view() == new_password_setting(parsed_flag.deep_view(), interactive),
{
    if let Some(value) = parsed_flag {
        return Resolved::Known(value);
    }
    if !interactive {
        return Resolved::Refused(NEW_PASSWORD_NEEDED.to_string());
    }
    Resolved::Ask(
        Question {
            guidance: Some(PASSWORD_CHANGE_GUIDANCE.to_string()),
            label: "New password".to_string(),
            default_value: None,
            kind: AnswerKind::NewPassword,
        },
    )
}

/// The slug of a project, at a service whose own label is `api_label`.
pub fn resolve_slug(
    args: &[String],
    default_slug: Option<String>,
    api_label: Option<String>,
    interactive: bool,
) -> (slug: Resolved)
    ensures
        slug.deep_view() == slug_setting(
            args.deep_view(),
            default_slug.deep_view(),
            api_label.deep_view(),
            interactive,
        ),
{
    if let Some(value) = read_flag(args, "--slug") {
        let reserved = reserve_labels(api_label);
        return settle(parse_slug_input(value.as_str(), reserved.as_slice()));
    }
    Resolved::Ask(
        Question {
            guidance: guide(interactive, SLUG_PROMPT_GUIDANCE),
            label: "Project slug".to_string(),
            default_value: default_slug,
            kind: AnswerKind::Slug { api_label },
        },
    )
}

/// The directory to publish.
pub fn resolve_publish_dir(args: &[String], default_publish_dir: String, interactive: bool) -> (publish_dir:
    Resolved)
    ensures
        publish_dir.deep_view() == publish_dir_setting(
            args.deep_view(),
            default_publish_dir@,
            interactive,
        ),
{
    if let Some(value) = read_flag(args, "--publish-dir") {
        return settle(parse_publish_dir_input(value.as_str()));
    }
    Resolved::Ask(
        Question {
            guidance: guide(interactive, PUBLISH_DIR_PROMPT_GUIDANCE),
            label: "Publish directory".to_string(),
            default_value: Some(default_publish_dir),
            kind: AnswerKind::PublishDir,
        },
    )
}

/// Who may read a site: from the flag, else chosen by a user who is there, else the default.
pub fn resolve_access(args: &[String], default_access: Access, interactive: bool) -> (access: Result<
    Selected<Access>,
    String,
>)
    ensures
        outcome(access) == access_setting(args.deep_view(), default_access, interactive),
{
    if let Err(message) = assert_no_deprecated_visibility_flag(args) {
        return Err(message);
    }
    if let Some(value) = read_flag(args, "--access") {
        return match parse_access_input(value.as_str()) {
            Ok(access) => Ok(Selected::Known(access)),
            Err(message) => Err(message),
        };
    }
    if interactive {
        Ok(Selected::Choose { marked: access_option(default_access) })
    } else {
        Ok(Selected::Known(default_access))
    }
}

/// Where to keep the token: as requested, else chosen by a user who is there, else the file.
pub fn resolve_token_storage_preference(
    requested_token_storage: Option<TokenStorage>,
    interactive: bool,
) -> (storage: Selected<TokenStorage>)
    ensures
        storage == token_storage_setting(requested_token_storage, interactive),
{
    match requested_token_storage {
        Some(storage) => Selected::Known(storage),
        None => if interactive {
            Selected::Choose { marked: storage_option(TokenStorage::File) }
        } else {
            Selected::Known(TokenStorage::File)
        },
    }
}

/// The user that an administrator means: from the flag, else from the user.
pub fn resolve_admin_username(args: &[String], flag: &str, label: &str) -> (username: Resolved)
    ensures
        username.deep_view() == admin_username_setting(args.deep_view(), flag@, label@),
{
    if let Some(value) = read_flag(args, flag) {
        if let Some(username) = read_string(value.as_str()) {
            return Resolved::Known(username);
        }
    }
    Resolved::Ask(
        Question {
            guidance: None,
            label: label.to_string(),
            default_value: None,
            kind: AnswerKind::Username,
        },
    )
}

/// The user that the first word names.
pub fn resolve_admin_positional_username(args: &[String], usage_message: &str) -> (username: Result<
    String,
    String,
>)
    ensures
        outcome(username) == admin_positional_username(args.deep_view(), usage_message@),
{
    if let Some(word) = read_positional_arg(args) {
        if let Some(username) = read_string(word.as_str()) {
            return Ok(username);
        }
    }
    Err(usage_message.to_string())
}

/// The role that a text names, in lower case.
pub fn parse_user_role(value: &str) -> (role: Result<String, String>)
    ensures
        outcome(role) == user_role(value@),
{
    let role = to_ascii_lowercase(trim(value));
    if same_text(role.as_str(), "user") || same_text(role.as_str(), "admin") {
        Ok(role)
    } else {
        Err(INVALID_ROLE.to_string())
    }
}

/// A base URL on the command line takes the place of one in the environment, and that of a
/// stored one. The user is asked only where all three are absent.
pub proof fn law_api_base_precedence(
    args: Seq<Seq<char>>,
    env_api_base: Option<Seq<char>>,
    stored_api_base: Option<Seq<char>>,
    interactive: bool,
)
    ensures
        ({
            let setting = api_base_setting(args, env_api_base, stored_api_base, interactive);
            let flag = flag_value(args, "--api-base"@);
            &&& flag matches Some(value) ==> setting == settled(api_base_from(value))
            &&& flag is None ==> (cleaned_opt(env_api_base) matches Some(value) ==> setting
                == settled(api_base_from(value)))
            &&& setting is Ask <==> flag is None && cleaned_opt(env_api_base) is None
                && stored_api_base is None
        }),
{
}

/// A user name or password on the command line takes the place of one in the environment, and
/// the user is asked only where neither is there.
pub proof fn law_login_settings_precedence(
    args: Seq<Seq<char>>,
    env_username: Option<Seq<char>>,
    env_password: Option<Seq<char>>,
    interactive: bool,
)
    ensures
        ({
            let username = username_setting(args, env_username, interactive);
            let password = password_setting(args, env_password);
            let username_flag = cleaned_opt(flag_value(args, "--username"@));
            let password_flag = flag_value(args, "--password"@);
            &&& username_flag matches Some(name) ==> username == Resolved::Known(name)
            &&& username_flag is None ==> (cleaned_opt(env_username) matches Some(name) ==> username
                == Resolved::Known(name))
            &&& username is Ask <==> username_flag is None && cleaned_opt(env_username) is None
            &&& password_flag matches Some(value) ==> password == settled(
                not_blank(value, PASSWORD_REQUIRED@),
            )
            &&& password is Ask <==> password_flag is None && env_password is None
        }),
{
}

/// Unless a user is there to be asked, the token is kept in the file, except on request.
pub proof fn law_keychain_only_on_request(requested: Option<TokenStorage>)
    ensures
        token_storage_setting(requested, false) == Selected::Known(TokenStorage::Keychain)
            <==> requested == Some(TokenStorage::Keychain),
        requested is None ==> token_storage_setting(requested, false) == Selected::Known(
            TokenStorage::File,
        ),
{
}

/// The mode that the flag `--access` names is the mode that is taken, whatever the default is
/// and whether or not a user is there; a value that names none is refused. Without the flag a
/// user who is there chooses, with the default marked, and otherwise the default is taken.
pub proof fn law_access_flag_is_obeyed(
    args: Seq<Seq<char>>,
    default_access: Access,
    interactive: bool,
)
    requires
        !args.contains("--visibility"@),
    ensures
        ({
            let setting = access_setting(args, default_access, interactive);
            let flag = flag_value(args, "--access"@);
            &&& flag matches Some(value) ==> {
                let word = lowercase(trimmed(value));
                &&& word == "public"@ ==> setting == Ok::<Selected<Access>, Seq<char>>(
                    Selected::Known(Access::Public),
                )
                &&& word == "basic"@ ==> setting == Ok::<Selected<Access>, Seq<char>>(
                    Selected::Known(Access::Basic),
                )
                &&& word == "link"@ ==> setting == Ok::<Selected<Access>, Seq<char>>(
                    Selected::Known(Access::Link),
                )
                &&& word != "public"@ && word != "basic"@ && word != "link"@ ==> setting == Err::<
                    Selected<Access>,
                    Seq<char>,
                >("invalid access: expected public, basic, or link"@)
            }
            &&& flag is None && !interactive ==> setting == Ok::<Selected<Access>, Seq<char>>(
                Selected::Known(default_access),
            )
            &&& flag is None && interactive ==> (setting matches Ok(Selected::Choose { marked })
                && crate::prompt::access_of_option(marked as int) == Some(default_access))
        }),
{
    if let Some(value) = flag_value(args, "--access"@) {
        crate::access::law_access_goes_by_its_word(value);
    }
}

/// A setting that the command line gives is taken from it as it was given: the slug and the
/// directory without their margins, if they are sound. Otherwise the user is asked for that very
/// thing, with what there was before as the default.
pub proof fn law_set_up_settings_come_from_the_flags(
    args: Seq<Seq<char>>,
    default_slug: Option<Seq<char>>,
    api_label: Option<Seq<char>>,
    default_publish_dir: Seq<char>,
    interactive: bool,
)
    ensures
        ({
            let slug = slug_setting(args, default_slug, api_label, interactive);
            let dir = publish_dir_setting(args, default_publish_dir, interactive);
            &&& flag_value(args, "--slug"@) matches Some(value) ==> {
                &&& slug matches Resolved::Known(known) ==> known == trimmed(value)
                &&& slug is Known <==> crate::slug::is_slug(trimmed(value)) && !reserved_with(
                    api_label,
                ).contains(trimmed(value))
                &&& !(slug is Ask)
            }
            &&& flag_value(args, "--slug"@) is None ==> (slug matches Resolved::Ask(question)
                && question.label == "Project slug"@ && question.default_value == default_slug
                && question.kind == (AnswerKind::Slug { api_label }))
            &&& flag_value(args, "--publish-dir"@) matches Some(value) ==> {
                &&& dir matches Resolved::Known(known) ==> known == trimmed(value)
                &&& dir is Known <==> trimmed(value).len() > 0
                &&& !(dir is Ask)
            }
            &&& flag_value(args, "--publish-dir"@) is None ==> (dir matches Resolved::Ask(question)
                && question.label == "Publish directory"@ && question.default_value == Some(
                default_publish_dir,
            ) && question.kind == AnswerKind::<Seq<char>>::PublishDir)
        }),
{
}

/// The user name and the password that are taken are the given ones, the name without its
/// margins and the password as it is; a blank password is refused; and each question is for the
/// thing that is missing.
pub proof fn law_login_settings_are_the_given_ones(
    args: Seq<Seq<char>>,
    env_username: Option<Seq<char>>,
    env_password: Option<Seq<char>>,
    interactive: bool,
)
    ensures
        ({
            let username = username_setting(args, env_username, interactive);
            let password = password_setting(args, env_password);
            let given = match flag_value(args, "--password"@) {
                Some(value) => Some(value),
                None => env_password,
            };
            &&& username matches Resolved::Ask(question) ==> question.label == "Username"@
                && question.kind == AnswerKind::<Seq<char>>::Username
            &&& !(username is Refused)
            &&& given matches Some(value) ==> (if trimmed(value).len() > 0 {
                password == Resolved::Known(value)
            } else {
                password == Resolved::Refused("password is required"@)
            })
            &&& given is None ==> (password matches Resolved::Ask(question) && question.label
                == "Password"@ && question.kind == AnswerKind::<Seq<char>>::Password)
        }),
{
}

/// Where the token is kept is as requested; else a user who is there chooses, with the file
/// marked; else it is the file.
pub proof fn law_requested_storage_is_taken(requested: Option<TokenStorage>, interactive: bool)
    ensures
        ({
            let setting = token_storage_setting(requested, interactive);
            &&& requested matches Some(storage) ==> setting == Selected::Known(storage)
            &&& requested is None && !interactive ==> setting == Selected::Known(TokenStorage::File)
            &&& requested is None && interactive ==> (setting matches Selected::Choose { marked }
                && crate::prompt::storage_of_option(marked as int) == Some(TokenStorage::File))
        }),
{
}

/// A role is named by its word and no other, whatever the case and the margins.
pub proof fn law_role_goes_by_its_word(value: Seq<char>)
    ensures
        ({
            let word = lowercase(trimmed(value));
            &&& word == "user"@ || word == "admin"@ ==> user_role(value) == Ok::<
                Seq<char>,
                Seq<char>,
            >(word)
            &&& word != "user"@ && word != "admin"@ ==> user_role(value) == Err::<
                Seq<char>,
                Seq<char>,
            >("invalid role: expected user or admin"@)
        }),
{
}

/// The user that an administrator means is the one that was named, without its margins.
pub proof fn law_meant_user_is_the_named_one(
    args: Seq<Seq<char>>,
    flag: Seq<char>,
    label: Seq<char>,
    usage: Seq<char>,
)
    ensures
        cleaned_opt(flag_value(args, flag)) matches Some(name) ==> admin_username_setting(
            args,
            flag,
            label,
        ) == Resolved::Known(name),
        cleaned_opt(flag_value(args, flag)) is None ==> (admin_username_setting(args, flag, label)
            matches Resolved::Ask(question) && question.label == label && question.kind
            == AnswerKind::<Seq<char>>::Username),
        cleaned_opt(positional(args)) matches Some(name) ==> admin_positional_username(args, usage)
            == Ok::<Seq<char>, Seq<char>>(name),
        cleaned_opt(positional(args)) is None ==> admin_positional_username(args, usage) == Err::<
            Seq<char>,
            Seq<char>,
        >(usage),
{
}

/// A user who is there is told what is asked for; otherwise the question stands alone. None of
/// these questions but those for a slug and a directory has a default.
pub proof fn law_questions_guide_the_user(
    args: Seq<Seq<char>>,
    api_label: Option<Seq<char>>,
    default_slug: Option<Seq<char>>,
    default_publish_dir: Seq<char>,
    interactive: bool,
)
    ensures
        ({
            let told = |guidance: Seq<char>|
                if interactive {
                    Some(guidance)
                } else {
                    None
                };
            &&& api_base_setting(args, None, None, interactive) matches Resolved::Ask(question) ==> {
                &&& question.label == "API base URL"@
                &&& question.kind == AnswerKind::<Seq<char>>::ApiBase
                &&& question.default_value is None
                &&& question.guidance == told(
                    "Enter API base URL (for example: https://api.example.com)"@,
                )
            }
            &&& username_setting(args, None, interactive) matches Resolved::Ask(question)
                ==> question.guidance == told("Use your issued username from the admin."@)
                && question.default_value is None
            &&& slug_setting(args, default_slug, api_label, interactive) matches Resolved::Ask(
                question,
            ) ==> question.guidance == told(
                "Project slug is used as hostname label (a-z, 0-9, hyphen)."@,
            )
            &&& publish_dir_setting(args, default_publish_dir, interactive) matches Resolved::Ask(
                question,
            ) ==> question.guidance == told(
                "Publish directory is relative to the current working directory."@,
            )
            &&& new_password_setting(None, interactive) matches Resolved::Ask(question) ==> {
                &&& interactive
                &&& question.label == "New password"@
                &&& question.kind == AnswerKind::<Seq<char>>::NewPassword
                &&& question.guidance == Some("password change required for this account."@)
            }
        }),
{
}

} // verus!
