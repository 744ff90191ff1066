//! Administering the users of the service.
use crate::address::{auth_headers, bearer_header, encode};
use crate::args::{cleaned_opt, flag_value, read_flag, read_string, read_string_opt, value_or};
use crate::config::CliConfig;
use crate::http::{
    accept_reply, endpoint_url, join_url, path_part, reply_outcome, Method, Payload, Reply, Request,
};
use crate::resolve::{
    admin_positional_username, parse_user_role, resolve_admin_positional_username, user_role,
};
use crate::session::{build_token_request, token_request};
use crate::text::outcome;
use vstd::prelude::*;

verus! {

/// What the service says of a user.
#[derive(Debug, PartialEq, Eq)]
pub struct AdminUserRecord<T = String> {
    pub username: Option<T>,
    pub role: Option<T>,
    pub status: Option<T>,
    pub must_change_password: Option<bool>,
}

impl DeepView for AdminUserRecord {
    type V = AdminUserRecord<Seq<char>>;

    open spec fn deep_view(&self) -> AdminUserRecord<Seq<char>> {
        AdminUserRecord {
            username: self.username.deep_view(),
            role: self.role.deep_view(),
            status: self.status.deep_view(),
            must_change_password: self.must_change_password,
        }
    }
}

/// What the service says of a user that was made or changed.
#[derive(Debug, PartialEq, Eq)]
pub struct AdminUserMutationPayload<T = String> {
    pub username: Option<T>,
    pub temporary_password: Option<T>,
}

impl DeepView for AdminUserMutationPayload {
    type V = AdminUserMutationPayload<Seq<char>>;

    open spec fn deep_view(&self) -> AdminUserMutationPayload<Seq<char>> {
        AdminUserMutationPayload {
            username: self.username.deep_view(),
            temporary_password: self.temporary_password.deep_view(),
        }
    }
}

/// Whether a user may log in.
#[derive(Clone, Copy, Debug, PartialEq, Eq, Structural)]
pub enum UserSwitch {
    Disable,
    Enable,
}

pub const RESET_USAGE: &'static str = "usage: cfsurge admin users reset-password <username>";

/// The word for a switch.
pub open spec fn switch_word(switch: UserSwitch) -> Seq<char> {
    match switch {
        UserSwitch::Disable => "disable"@,
        UserSwitch::Enable => "enable"@,
    }
}

/// The line that lists a user: name, role, status, and whether a change of password is due,
/// with tabs between them and hyphens for what is absent.
pub open spec fn user_line(user: AdminUserRecord<Seq<char>>) -> Seq<char> {
    value_or(cleaned_opt(user.username), "-"@) + "\t"@ + value_or(cleaned_opt(user.role), "-"@)
        + "\t"@ + value_or(cleaned_opt(user.status), "-"@) + "\t"@ + if user.must_change_password
        == Some(true) {
        "yes"@
    } else {
        "no"@
    }
}

/// The lines that list users.
pub open spec fn user_lines(users: Seq<AdminUserRecord<Seq<char>>>) -> Seq<Seq<char>> {
    if users.len() == 0 {
        seq!["no users"@]
    } else {
        users.map_values(|user: AdminUserRecord<Seq<char>>| user_line(user))
    }
}

/// What listing users came to. An answer without users lists none.
pub open spec fn listed_users(
    reply: Reply<Option<Seq<AdminUserRecord<Seq<char>>>>, Seq<char>>,
) -> Result<Seq<Seq<char>>, Seq<char>> {
    match reply_outcome(reply, "admin users list"@) {
        Ok(users) => Ok(user_lines(value_or(users, Seq::empty()))),
        Err(message) => Err(message),
    }
}

/// The address of a user's resource.
pub open spec fn user_url(api_base: Seq<char>, username: Seq<char>, rest: Seq<char>) -> Seq<char> {
    api_base + "/v1/admin/users/"@ + path_part(username) + "/"@ + rest
}

/// The request that makes a user.
pub open spec fn new_user_request(
    args: Seq<Seq<char>>,
    config: CliConfig<Seq<char>>,
    username: Seq<char>,
) -> Result<Request<Seq<char>>, Seq<char>> {
    match user_role(value_or(flag_value(args, "--role"@), "user"@)) {
        Err(message) => Err(message),
        Ok(role) => match bearer_header(config.token) {
            Err(message) => Err(message),
            Ok(authorization) => Ok(
                Request {
                    method: Method::Post,
                    url: endpoint_url(config.api_base, "/v1/admin/users"@),
                    authorization: Some(authorization),
                    payload: Payload::NewUser {
                        username,
                        role,
                        temporary_password: cleaned_opt(
                            flag_value(args, "--temporary-password"@),
                        ),
                    },
                },
            ),
        },
    }
}

/// What the service says of a user that it made or changed; nothing where it cannot be read.
pub open spec fn mutation_of(
    reply: Reply<AdminUserMutationPayload<Seq<char>>, Seq<char>>,
    context: Seq<char>,
) -> Result<AdminUserMutationPayload<Seq<char>>, Seq<char>> {
    match reply {
        Reply::Unreadable(_) => Ok(
            AdminUserMutationPayload { username: None, temporary_password: None },
        ),
        _ => reply_outcome(reply, context),
    }
}

/// A line, and a second one with the password that the service issued, if it did.
pub open spec fn with_issued_password(line: Seq<char>, password: Option<Seq<char>>) -> Seq<char> {
    match cleaned_opt(password) {
        Some(password) => line + "\ntemporary password: "@ + password,
        None => line,
    }
}

fn clean_or_hyphen(text: &Option<String>) -> (shown: String)
    ensures
        shown@ == value_or(cleaned_opt(text.deep_view()), "-"@),
{
    match read_string_opt(text.as_ref()) {
        Some(text) => text,
        None => "-".to_string(),
    }
}

/// The line that lists a user.
pub fn describe_user(user: &AdminUserRecord) -> (line: String)
    ensures
        line@ == user_line(user.deep_view()),
{
    let due = match user.must_change_password {
        Some(due) => due,
        None => false,
    };
    let mut line = clean_or_hyphen(&user.username);
    line.append("\t");
    line.append(clean_or_hyphen(&user.role).as_str());
    line.append("\t");
    line.append(clean_or_hyphen(&user.status).as_str());
    line.append("\t");
    line.append(if due {
        "yes"
    } else {
        "no"
    });
    line
}

/// The request that lists users.
pub fn admin_users_list_request(config: &CliConfig) -> (request: Result<Request, String>)
    ensures
        outcome(request) == token_request(
            Method::Get,
            endpoint_url(config.api_base@, "/v1/admin/users"@),
            config.token@,
        ),
{
    build_token_request(
        Method::Get,
        join_url(config.api_base.as_str(), "/v1/admin/users"),
        config.token.as_str(),
    )
}

/// The lines that list the users.
pub fn admin_users_list(reply: Reply<Option<Vec<AdminUserRecord>>>) -> (lines: Result<
    Vec<String>,
    String,
>)
    ensures
        outcome(lines) == listed_users(reply.deep_view()),
{
    let users = match accept_reply(reply, "admin users list") {
        Ok(Some(users)) => users,
        Ok(None) => {
            let none: Vec<AdminUserRecord> = Vec::new();
            assert(none.deep_view() =~= Seq::<AdminUserRecord<Seq<char>>>::empty());
            none
        },
        Err(message) => return Err(message),
    };
    let mut lines: Vec<String> = Vec::new();
    if users.len() == 0 {
        lines.push("no users".to_string());
        assert(lines.deep_view() =~= user_lines(users.deep_view()));
        return Ok(lines);
    }
    for i in 0..users.len()
        invariant
            users.len() > 0,
            lines.deep_view() =~= user_lines(users.deep_view()).take(i as int),
    {
        let line = describe_user(&users[i]);
        let ghost before = lines.deep_view();
        lines.push(line);
        proof {
            assert(users.deep_view()[i as int] == users[i as int].deep_view());
            assert(lines.deep_view() =~= before.push(line@));
        }
    }
    assert(lines.deep_view() =~= user_lines(users.deep_view()));
    Ok(lines)
}

/// The request that makes a user.
pub fn admin_users_create_request(args: &[String], config: &CliConfig, username: &str) -> (request: Result<
    Request,
    String,
>)
    ensures
        outcome(request) == new_user_request(args.deep_view(), config.deep_view(), username@),
{
    let role = match read_flag(args, "--role") {
        Some(role) => role,
        None => "user".to_string(),
    };
    let role = match parse_user_role(role.as_str()) {
        Ok(role) => role,
        Err(message) => return Err(message),
    };
    let temporary_password = match read_flag(args, "--temporary-password") {
        Some(password) => read_string(password.as_str()),
        None => None,
    };
    match auth_headers(config.token.as_str()) {
        Err(message) => Err(message),
        Ok(authorization) => Ok(
            Request {
                method: Method::Post,
                url: join_url(config.api_base.as_str(), "/v1/admin/users"),
                authorization: Some(authorization),
                payload: Payload::NewUser {
                    username: username.to_string(),
                    role,
                    temporary_password,
                },
            },
        ),
    }
}

fn accept_mutation(reply: Reply<AdminUserMutationPayload>, context: &str) -> (payload: Result<
    AdminUserMutationPayload,
    String,
>)
    ensures
        outcome(payload) == mutation_of(reply.deep_view(), context@),
{
    match reply {
        Reply::Unreadable(_) => Ok(
            AdminUserMutationPayload { username: None, temporary_password: None },
        ),
        reply => accept_reply(reply, context),
    }
}

fn add_issued_password(line: String, password: &Option<String>) -> (lines: String)
    ensures
        lines@ == with_issued_password(line@, password.deep_view()),
{
    let mut lines = line;
    if let Some(password) = read_string_opt(password.as_ref()) {
        lines.append("\ntemporary password: ");
        lines.append(password.as_str());
    }
    lines
}

/// What making a user came to: the lines that say so.
pub fn admin_users_create(username: &str, reply: Reply<AdminUserMutationPayload>) -> (lines: Result<
    String,
    String,
>)
    ensures
        outcome(lines) == (match mutation_of(reply.deep_view(), "admin users create"@) {
            Ok(payload) => Ok::<Seq<char>, Seq<char>>(
                with_issued_password(
                    "created user "@ + value_or(cleaned_opt(payload.username), username@),
                    payload.temporary_password,
                ),
            ),
            Err(message) => Err(message),
        }),
{
    match accept_mutation(reply, "admin users create") {
        Err(message) => Err(message),
        Ok(payload) => {
            let mut line = "created user ".to_string();
            match read_string_opt(payload.username.as_ref()) {
                Some(name) => line.append(name.as_str()),
                None => line.append(username),
            }
            Ok(add_issued_password(line, &payload.temporary_password))
        },
    }
}

fn join_user_url(api_base: &str, username: &str, rest: &str) -> (url: String)
    ensures
        url@ == user_url(api_base@, username@, rest@),
{
    let mut url = api_base.to_string();
    url.append("/v1/admin/users/");
    url.append(encode(username).as_str());
    url.append("/");
    url.append(rest);
    url
}

/// The user whose password is to be reset.
pub fn reset_password_target(args: &[String]) -> (username: Result<String, String>)
    ensures
        outcome(username) == admin_positional_username(args.deep_view(), RESET_USAGE@),
{
    resolve_admin_positional_username(args, RESET_USAGE)
}

/// The request that resets a password.
pub fn admin_users_reset_password_request(config: &CliConfig, username: &str) -> (request: Result<
    Request,
    String,
>)
    ensures
        outcome(request) == token_request(
            Method::Post,
            user_url(config.api_base@, username@, "reset-password"@),
            config.token@,
        ),
{
    build_token_request(
        Method::Post,
        join_user_url(config.api_base.as_str(), username, "reset-password"),
        config.token.as_str(),
    )
}

/// What resetting a password came to: the lines that say so.
pub fn admin_users_reset_password(username: &str, reply: Reply<AdminUserMutationPayload>) -> (lines: Result<
    String,
    String,
>)
    ensures
        outcome(lines) == (match mutation_of(reply.deep_view(), "admin users reset-password"@) {
            Ok(payload) => Ok::<Seq<char>, Seq<char>>(
                with_issued_password(
                    "reset password for "@ + username@,
                    payload.temporary_password,
                ),
            ),
            Err(message) => Err(message),
        }),
{
    match accept_mutation(reply, "admin users reset-password") {
        Err(message) => Err(message),
        Ok(payload) => {
            let mut line = "reset password for ".to_string();
            line.append(username);
            Ok(add_issued_password(line, &payload.temporary_password))
        },
    }
}

impl UserSwitch {
    /// The word for this switch.
    pub fn as_str(self) -> (word: &'static str)
        ensures
            word@ == switch_word(self),
    {
        match self {
            UserSwitch::Disable => "disable",
            UserSwitch::Enable => "enable",
        }
    }
}

/// The user to disable or enable.
pub fn toggle_status_target(args: &[String], action: UserSwitch) -> (username: Result<String, String>)
    ensures
        outcome(username) == admin_positional_username(
            args.deep_view(),
            "usage: cfsurge admin users "@ + switch_word(action) + " <username>"@,
        ),
{
    let mut usage = "usage: cfsurge admin users ".to_string();
    usage.append(action.as_str());
    usage.append(" <username>");
    resolve_admin_positional_username(args, usage.as_str())
}

/// The request that disables or enables a user.
pub fn admin_users_toggle_status_request(
    config: &CliConfig,
    username: &str,
    action: UserSwitch,
) -> (request: Result<Request, String>)
    ensures
        outcome(request) == token_request(
            Method::Post,
            user_url(config.api_base@, username@, switch_word(action)),
            config.token@,
        ),
{
    build_token_request(
        Method::Post,
        join_user_url(config.api_base.as_str(), username, action.as_str()),
        config.token.as_str(),
    )
}

/// What disabling or enabling a user came to: the line that says so.
pub fn admin_users_toggle_status(username: &str, action: UserSwitch, reply: Reply<()>) -> (line: Result<
    String,
    String,
>)
    ensures
        outcome(line) == (match reply_outcome(
            reply.deep_view(),
            "admin users "@ + switch_word(action),
        ) {
            Ok(_) => Ok::<Seq<char>, Seq<char>>(switch_word(action) + "d user "@ + username@),
            Err(message) => Err(message),
        }),
{
    let mut context = "admin users ".to_string();
    context.append(action.as_str());
    match accept_reply(reply, context.as_str()) {
        Ok(_) => {
            let mut line = action.as_str().to_string();
            line.append("d user ");
            line.append(username);
            Ok(line)
        },
        Err(message) => Err(message),
    }
}

/// A new user gets a role of the two that there are, and that of a plain user unless another
/// was asked for.
pub proof fn law_new_user_has_a_known_role(
    args: Seq<Seq<char>>,
    config: CliConfig<Seq<char>>,
    username: Seq<char>,
)
    ensures
        new_user_request(args, config, username) matches Ok(request) ==> (
        request.payload matches Payload::NewUser { username: name, role, temporary_password } && name
            == username && (role == "user"@ || role == "admin"@) && (!args.contains("--role"@)
            ==> role == "user"@)),
{
    reveal_strlit("user");
    crate::text::law_clean_text_is_its_own_trim("user"@);
    assert(crate::text::lowercase("user"@) =~= "user"@);
    if !args.contains("--role"@) {
        crate::args::law_absent_flag_has_no_value(args, "--role"@);
    }
}

/// A new user gets the name, the role and the first password that were asked for: the role is
/// the value of `--role` in lower case and without its margins, and `user` where there is none;
/// the password is the value of `--temporary-password`. The request goes to the service with the
/// stored token.
pub proof fn law_new_user_is_as_asked_for(
    args: Seq<Seq<char>>,
    config: CliConfig<Seq<char>>,
    username: Seq<char>,
)
    ensures
        ({
            let request = new_user_request(args, config, username);
            let flag = flag_value(args, "--role"@);
            let word = match flag {
                Some(value) => crate::text::lowercase(crate::text::trimmed(value)),
                None => "user"@,
            };
            &&& request is Ok <==> (word == "user"@ || word == "admin"@) && bearer_header(
                config.token,
            ) is Ok
            &&& request matches Ok(request) ==> {
                &&& request.method == Method::Post
                &&& request.url == config.api_base + "/v1/admin/users"@
                &&& request.authorization matches Some(authorization) && bearer_header(config.token)
                    == Ok::<Seq<char>, Seq<char>>(authorization)
                &&& request.payload matches Payload::NewUser {
                    username: name,
                    role,
                    temporary_password,
                } && {
                    &&& name == username
                    &&& role == word
                    &&& temporary_password == cleaned_opt(
                        flag_value(args, "--temporary-password"@),
                    )
                }
            }
            &&& word != "user"@ && word != "admin"@ ==> request == Err::<
                Request<Seq<char>>,
                Seq<char>,
            >("invalid role: expected user or admin"@)
        }),
{
    reveal_strlit("user");
    crate::text::law_clean_text_is_its_own_trim("user"@);
    assert(crate::text::lowercase("user"@) =~= "user"@);
}

/// The requests about a user go to the address of that user, each to that of its own action.
pub proof fn law_user_has_an_address(
    api_base: Seq<char>,
    username: Seq<char>,
    rest: Seq<char>,
    switch: UserSwitch,
)
    ensures
        user_url(api_base, username, rest) == api_base + "/v1/admin/users/"@ + path_part(username)
            + "/"@ + rest,
        switch_word(UserSwitch::Disable) == "disable"@,
        switch_word(UserSwitch::Enable) == "enable"@,
{
}

/// The line for a user holds the name, the role, the status and whether a change of password is
/// due, in this order and each in its own column; what is absent or blank is a hyphen.
pub proof fn law_user_line_has_four_columns(
    username: Seq<char>,
    role: Seq<char>,
    status: Seq<char>,
    due: Option<bool>,
)
    requires
        crate::config::is_clean(Some(username)),
        crate::config::is_clean(Some(role)),
        crate::config::is_clean(Some(status)),
    ensures
        user_line(
            AdminUserRecord {
                username: Some(username),
                role: Some(role),
                status: Some(status),
                must_change_password: due,
            },
        ) == username + "\t"@ + role + "\t"@ + status + "\t"@ + (if due == Some(true) {
            "yes"@
        } else {
            "no"@
        }),
        user_line(
            AdminUserRecord {
                username: None,
                role: None,
                status: None,
                must_change_password: due,
            },
        ) == "-"@ + "\t"@ + "-"@ + "\t"@ + "-"@ + "\t"@ + (if due == Some(true) {
            "yes"@
        } else {
            "no"@
        }),
{
}

/// A listing has a line for each user, in their order; without users it says so, and a refusal
/// says what the service said.
pub proof fn law_listing_has_a_line_for_each_user(
    users: Seq<AdminUserRecord<Seq<char>>>,
    status: u16,
    body: Seq<char>,
)
    ensures
        ({
            let listed = listed_users(Reply::Accepted(Some(users)));
            &&& listed matches Ok(lines) && {
                &&& users.len() > 0 ==> lines.len() == users.len() && forall|i: int|
                    0 <= i < users.len() ==> #[trigger] lines[i] == user_line(users[i])
                &&& users.len() == 0 ==> lines == seq!["no users"@]
            }
        }),
        listed_users(Reply::Accepted(None)) == Ok::<Seq<Seq<char>>, Seq<char>>(seq!["no users"@]),
        listed_users(Reply::Refused { status, body }) == Err::<Seq<Seq<char>>, Seq<char>>(
            "admin users list"@ + " failed: "@ + body,
        ),
{
}

/// The password that the service issued is shown; an answer that cannot be read counts as one
/// that names none, and a refusal says what the service said.
pub proof fn law_issued_password_is_shown(
    line: Seq<char>,
    password: Seq<char>,
    payload: AdminUserMutationPayload<Seq<char>>,
    message: Seq<char>,
    status: u16,
    body: Seq<char>,
    context: Seq<char>,
)
    ensures
        cleaned_opt(Some(password)) matches Some(clean) ==> with_issued_password(
            line,
            Some(password),
        ) == line + "\ntemporary password: "@ + clean,
        with_issued_password(line, None) == line,
        mutation_of(Reply::Accepted(payload), context) == Ok::<
            AdminUserMutationPayload<Seq<char>>,
            Seq<char>,
        >(payload),
        mutation_of(Reply::Unreadable(message), context) == Ok::<
            AdminUserMutationPayload<Seq<char>>,
            Seq<char>,
        >(AdminUserMutationPayload { username: None, temporary_password: None }),
        mutation_of(Reply::Refused { status, body }, context) == Err::<
            AdminUserMutationPayload<Seq<char>>,
            Seq<char>,
        >(context + " failed: "@ + body),
        mutation_of(Reply::Failed(message), context) == Err::<
            AdminUserMutationPayload<Seq<char>>,
            Seq<char>,
        >(message),
{
}

/// What the service says of a user counts as it says it; an answer that cannot be read says
/// nothing, and a refusal is told.
pub proof fn law_change_of_a_user_is_told_as_it_is(
    payload: AdminUserMutationPayload<Seq<char>>,
    status: u16,
    body: Seq<char>,
    message: Seq<char>,
    context: Seq<char>,
)
    ensures
        mutation_of(Reply::Accepted(payload), context) == Ok::<
            AdminUserMutationPayload<Seq<char>>,
            Seq<char>,
        >(payload),
        mutation_of(Reply::Refused { status, body }, context) == Err::<
            AdminUserMutationPayload<Seq<char>>,
            Seq<char>,
        >(context + " failed: "@ + body),
        mutation_of(Reply::Failed(message), context) == Err::<
            AdminUserMutationPayload<Seq<char>>,
            Seq<char>,
        >(message),
        mutation_of(Reply::Unreadable(message), context) matches Ok(payload) && payload.username
            is None && payload.temporary_password is None,
        switch_word(UserSwitch::Disable) == "disable"@,
        switch_word(UserSwitch::Enable) == "enable"@,
{
}

} // verus!
