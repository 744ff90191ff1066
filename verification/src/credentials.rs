//! The user name and password of a site that asks for them.
use crate::access::Access;
use crate::args::{cleaned_opt, read_string_opt, value_or};
use crate::config::FileText;
use crate::dotenv::{dotenv_credentials, parse_dotenv_for_basic_auth, DotenvCredentials};
use crate::text::{chars_of, outcome, trim, trimmed};
use vstd::prelude::*;

verus! {

/// The credentials that visitors of a site have to give.
#[derive(Debug, PartialEq, Eq)]
pub struct BasicAuthPayload<T = String> {
    pub username: T,
    pub password: T,
}

impl DeepView for BasicAuthPayload {
    type V = BasicAuthPayload<Seq<char>>;

    open spec fn deep_view(&self) -> BasicAuthPayload<Seq<char>> {
        BasicAuthPayload { username: self.username@, password: self.password@ }
    }
}

pub const CREDENTIALS_MISSING: &'static str =
    "basic publish requires CFSURGE_BASIC_AUTH_USERNAME and CFSURGE_BASIC_AUTH_PASSWORD";

pub const INVALID_BASIC_USERNAME: &'static str =
    "invalid basic auth username: expected non-empty printable ASCII without ':'";

pub const INVALID_BASIC_PASSWORD: &'static str =
    "invalid basic auth password: expected non-empty printable ASCII";

/// A text of printable ASCII characters.
pub open spec fn is_printable(text: Seq<char>) -> bool {
    forall|i: int| 0 <= i < text.len() ==> ' ' <= #[trigger] text[i] <= '~'
}

/// A user name that a site can ask for.
pub open spec fn is_basic_username(text: Seq<char>) -> bool {
    text.len() > 0 && !text.contains(':') && is_printable(text)
}

/// A password that a site can ask for.
pub open spec fn is_basic_password(text: Seq<char>) -> bool {
    text.len() > 0 && is_printable(text)
}

/// The credentials that a user name and a password make.
pub open spec fn basic_auth_of(username: Seq<char>, password: Seq<char>) -> Result<
    BasicAuthPayload<Seq<char>>,
    Seq<char>,
> {
    if username.len() == 0 || password.len() == 0 {
        Err(CREDENTIALS_MISSING@)
    } else if !is_basic_username(username) {
        Err(INVALID_BASIC_USERNAME@)
    } else if !is_basic_password(password) {
        Err(INVALID_BASIC_PASSWORD@)
    } else {
        Ok(BasicAuthPayload { username, password })
    }
}

/// A password from the environment; one of white space alone does not count.
pub open spec fn env_password(value: Option<Seq<char>>) -> Option<Seq<char>> {
    match value {
        Some(value) if trimmed(value).len() > 0 => Some(value),
        _ => None,
    }
}

/// Whether the environment leaves one of the credentials to the `.env` file.
pub open spec fn dotenv_is_asked(
    env_username: Option<Seq<char>>,
    env_password_value: Option<Seq<char>>,
) -> bool {
    cleaned_opt(env_username) is None || env_password(env_password_value) is None
}

/// The credentials to publish with. Each comes from the environment, else from the `.env` file.
pub open spec fn basic_auth_from(
    env_username: Option<Seq<char>>,
    env_password_value: Option<Seq<char>>,
    dotenv: DotenvCredentials<Seq<char>>,
) -> Result<BasicAuthPayload<Seq<char>>, Seq<char>> {
    basic_auth_of(
        value_or(
            cleaned_opt(env_username),
            value_or(cleaned_opt(dotenv.username), Seq::empty()),
        ),
        value_or(env_password(env_password_value), value_or(dotenv.password, Seq::empty())),
    )
}

/// The credentials that publishing a site with this access mode takes: none, unless visitors
/// are to give them.
pub open spec fn credentials_for(
    access: Access,
    env_username: Option<Seq<char>>,
    env_password_value: Option<Seq<char>>,
    dotenv: DotenvCredentials<Seq<char>>,
) -> Result<Option<BasicAuthPayload<Seq<char>>>, Seq<char>> {
    if access != Access::Basic {
        Ok(None)
    } else {
        match basic_auth_from(env_username, env_password_value, dotenv) {
            Ok(credentials) => Ok(Some(credentials)),
            Err(message) => Err(message),
        }
    }
}

/// The credentials that reading the `.env` file gives.
pub open spec fn dotenv_from(file: FileText<Seq<char>>) -> Result<
    DotenvCredentials<Seq<char>>,
    Seq<char>,
> {
    match file {
        FileText::Absent => Ok(DotenvCredentials { username: None, password: None }),
        FileText::Failed(message) => Err(message),
        FileText::Text(raw) => Ok(dotenv_credentials(raw)),
    }
}

/// Whether a text is printable ASCII.
pub fn is_printable_ascii(value: &str) -> (printable: bool)
    ensures
        printable == is_printable(value@),
{
    let chars = chars_of(value);
    for i in 0..chars.len()
        invariant
            chars@ == value@,
            forall|j: int| 0 <= j < i ==> ' ' <= #[trigger] value@[j] <= '~',
    {
        let c = chars[i];
        if !(' ' <= c && c <= '~') {
            assert(!(' ' <= value@[i as int] <= '~'));
            return false;
        }
    }
    true
}

/// Whether a text is a user name that a site can ask for.
pub fn is_valid_basic_username(value: &str) -> (valid: bool)
    ensures
        valid == is_basic_username(value@),
{
    let chars = chars_of(value);
    let mut i: usize = 0;
    while i < chars.len()
        invariant
            chars@ == value@,
            i <= chars.len(),
            forall|j: int| 0 <= j < i ==> value@[j] != ':',
        decreases chars.len() - i,
    {
        if chars[i] == ':' {
            assert(value@[i as int] == ':');
            return false;
        }
        i += 1;
    }
    assert(!value@.contains(':'));
    chars.len() > 0 && is_printable_ascii(value)
}

/// Whether a text is a password that a site can ask for.
pub fn is_valid_basic_password(value: &str) -> (valid: bool)
    ensures
        valid == is_basic_password(value@),
{
    !value.is_empty() && is_printable_ascii(value)
}

/// The credentials that a user name and a password make.
pub fn validate_basic_auth_credentials(username: String, password: String) -> (checked: Result<
    BasicAuthPayload,
    String,
>)
    ensures
        outcome(checked) == basic_auth_of(username@, password@),
{
    if username.as_str().is_empty() || password.as_str().is_empty() {
        return Err(CREDENTIALS_MISSING.to_string());
    }
    if !is_valid_basic_username(username.as_str()) {
        return Err(INVALID_BASIC_USERNAME.to_string());
    }
    if !is_valid_basic_password(password.as_str()) {
        return Err(INVALID_BASIC_PASSWORD.to_string());
    }
    Ok(BasicAuthPayload { username, password })
}

/// The password from the environment; one of white space alone does not count.
fn read_env_password(value: Option<&String>) -> (password: Option<String>)
    ensures
        password.deep_view() == env_password(value.deep_view()),
{
    match value {
        Some(value) => if trim(value.as_str()).is_empty() {
            None
        } else {
            Some(value.clone())
        },
        None => None,
    }
}

/// Whether the environment leaves one of the credentials to the `.env` file.
pub fn asks_dotenv(env_username: Option<&String>, env_password: Option<&String>) -> (asks: bool)
    ensures
        asks == dotenv_is_asked(env_username.deep_view(), env_password.deep_view()),
{
    read_string_opt(env_username).is_none() || read_env_password(env_password).is_none()
}

/// The credentials that reading the `.env` file of the working directory gives.
pub fn read_basic_auth_from_cwd_dotenv(file: FileText) -> (read: Result<DotenvCredentials, String>)
    ensures
        outcome(read) == dotenv_from(file.deep_view()),
{
    match file {
        FileText::Absent => Ok(DotenvCredentials { username: None, password: None }),
        FileText::Failed(message) => Err(message),
        FileText::Text(raw) => Ok(parse_dotenv_for_basic_auth(raw.as_str())),
    }
}

/// The credentials to publish with. Each comes from the environment, else from the `.env`
/// file, which counts only where [`asks_dotenv`] holds.
pub fn resolve_basic_auth_from_env(
    env_username: Option<&String>,
    env_password: Option<&String>,
    dotenv: DotenvCredentials,
) -> (credentials: Result<BasicAuthPayload, String>)
    ensures
        outcome(credentials) == basic_auth_from(
            env_username.deep_view(),
            env_password.deep_view(),
            dotenv.deep_view(),
        ),
{
    let username = match read_string_opt(env_username) {
        Some(username) => username,
        None => match read_string_opt(dotenv.username.as_ref()) {
            Some(username) => username,
            None => {
                let empty = String::new();
                assert(empty@ =~= Seq::<char>::empty());
                empty
            },
        },
    };
    let password = match read_env_password(env_password) {
        Some(password) => password,
        None => match dotenv.password {
            Some(password) => password,
            None => {
                let empty = String::new();
                assert(empty@ =~= Seq::<char>::empty());
                empty
            },
        },
    };
    validate_basic_auth_credentials(username, password)
}

/// The credentials that publishing a site with this access mode takes. The `.env` file counts
/// only where [`asks_dotenv`] holds.
pub fn resolve_credentials(
    access: Access,
    env_username: Option<&String>,
    env_password: Option<&String>,
    dotenv: DotenvCredentials,
) -> (credentials: Result<Option<BasicAuthPayload>, String>)
    ensures
        outcome(credentials) == credentials_for(
            access,
            env_username.deep_view(),
            env_password.deep_view(),
            dotenv.deep_view(),
        ),
{
    if access != Access::Basic {
        return Ok(None);
    }
    match resolve_basic_auth_from_env(env_username, env_password, dotenv) {
        Ok(credentials) => Ok(Some(credentials)),
        Err(message) => Err(message),
    }
}

/// Where the environment gives both credentials, the `.env` file makes no difference.
pub proof fn law_environment_credentials_win(
    env_username: Option<Seq<char>>,
    env_password_value: Option<Seq<char>>,
    one: DotenvCredentials<Seq<char>>,
    other: DotenvCredentials<Seq<char>>,
)
    requires
        !dotenv_is_asked(env_username, env_password_value),
    ensures
        basic_auth_from(env_username, env_password_value, one) == basic_auth_from(
            env_username,
            env_password_value,
            other,
        ),
{
}

/// Credentials go with a site if and only if its visitors have to give them.
pub proof fn law_credentials_only_for_basic_access(
    access: Access,
    env_username: Option<Seq<char>>,
    env_password_value: Option<Seq<char>>,
    dotenv: DotenvCredentials<Seq<char>>,
)
    ensures
        credentials_for(access, env_username, env_password_value, dotenv) matches Ok(credentials)
            ==> (credentials is Some <==> access == Access::Basic),
        access != Access::Basic ==> credentials_for(
            access,
            env_username,
            env_password_value,
            dotenv,
        ) is Ok,
{
}

/// Credentials that were accepted are not empty, and the user name holds no colon: so the
/// first colon of `username:password` is where the user name ends.
pub proof fn law_accepted_credentials_part_at_the_first_colon(
    username: Seq<char>,
    password: Seq<char>,
)
    requires
        basic_auth_of(username, password) is Ok,
    ensures
        crate::text::before_first(username + seq![':'] + password, ':') == username.len(),
        username.len() > 0,
        password.len() > 0,
{
    let joined = username + seq![':'] + password;
    assert forall|i: int| 0 <= i < username.len() implies joined[i] != ':' by {
        assert(joined[i] == username[i]);
        assert(username.contains(username[i]));
    }
    assert(joined[username.len() as int] == ':');
    crate::text::lemma_before_first_is(joined, ':', username.len());
}

/// Credentials are accepted if and only if both are printable ASCII and not empty, and the user
/// name holds no colon. They are then taken as they are, and what is refused is told by its
/// reason.
pub proof fn law_accepted_credentials(username: Seq<char>, password: Seq<char>)
    ensures
        ({
            let sound = basic_auth_of(username, password);
            let printable = |text: Seq<char>|
                forall|i: int| 0 <= i < text.len() ==> ' ' <= #[trigger] text[i] <= '~';
            &&& sound is Ok <==> username.len() > 0 && password.len() > 0 && !username.contains(':')
                && printable(username) && printable(password)
            &&& sound matches Ok(payload) ==> payload.username == username && payload.password
                == password
            &&& username.len() == 0 || password.len() == 0 ==> sound == Err::<
                BasicAuthPayload<Seq<char>>,
                Seq<char>,
            >(
                "basic publish requires CFSURGE_BASIC_AUTH_USERNAME and CFSURGE_BASIC_AUTH_PASSWORD"@,
            )
            &&& username.len() > 0 && password.len() > 0 && username.contains(':') ==> sound
                == Err::<BasicAuthPayload<Seq<char>>, Seq<char>>(
                "invalid basic auth username: expected non-empty printable ASCII without ':'"@,
            )
        }),
{
}

/// Each credential comes from the environment, the user name without its margins and the
/// password as it is, and from the `.env` file only where the environment has none.
pub proof fn law_credentials_come_from_the_environment_first(
    env_username: Option<Seq<char>>,
    env_password_value: Option<Seq<char>>,
    dotenv: DotenvCredentials<Seq<char>>,
)
    ensures
        basic_auth_from(env_username, env_password_value, dotenv) matches Ok(payload) ==> {
            &&& cleaned_opt(env_username) matches Some(name) ==> payload.username == name
            &&& cleaned_opt(env_username) is None ==> cleaned_opt(dotenv.username) == Some(
                payload.username,
            )
            &&& (env_password_value is Some && trimmed(env_password_value->0).len() > 0)
                ==> payload.password == env_password_value->0
            &&& (env_password_value is None || trimmed(env_password_value->0).len() == 0)
                ==> dotenv.password == Some(payload.password)
        },
        dotenv_is_asked(env_username, env_password_value) <==> (env_username is None || trimmed(
            env_username->0,
        ).len() == 0) || (env_password_value is None || trimmed(env_password_value->0).len() == 0),
{
}

/// Without a `.env` file there are no credentials in it, one that cannot be read is an error,
/// and otherwise they are those of its text. They are asked for only where visitors give them.
pub proof fn law_dotenv_file_is_read_as_it_is(
    raw: Seq<char>,
    message: Seq<char>,
    access: Access,
    env_username: Option<Seq<char>>,
    env_password_value: Option<Seq<char>>,
    dotenv: DotenvCredentials<Seq<char>>,
)
    ensures
        dotenv_from(FileText::Absent) matches Ok(found) && found.username is None && found.password
            is None,
        dotenv_from(FileText::Failed(message)) == Err::<DotenvCredentials<Seq<char>>, Seq<char>>(
            message,
        ),
        dotenv_from(FileText::Text(raw)) == Ok::<DotenvCredentials<Seq<char>>, Seq<char>>(
            dotenv_credentials(raw),
        ),
        credentials_for(access, env_username, env_password_value, dotenv) matches Ok(found) ==> (
        found is Some <==> access == Access::Basic),
        access == Access::Basic ==> (credentials_for(
            access,
            env_username,
            env_password_value,
            dotenv,
        ) matches Ok(Some(found)) ==> basic_auth_from(env_username, env_password_value, dotenv)
            == Ok::<BasicAuthPayload<Seq<char>>, Seq<char>>(found)),
{
}

} // verus!
