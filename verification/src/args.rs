//! Command line words: which command they name, and the values they carry.
use crate::text::{same_text, trim, trimmed};
use vstd::prelude::*;

verus! {

/// The commands of the program.
#[derive(Clone, Copy, Debug, PartialEq, Eq, Structural)]
pub enum Command {
    Login,
    Init,
    Publish,
    List,
    Remove,
    Passwd,
    Admin,
    Logout,
    Version,
    Help,
}

/// The commands under `admin users`.
#[derive(Clone, Copy, Debug, PartialEq, Eq, Structural)]
pub enum AdminCommand {
    List,
    Create,
    ResetPassword,
    Disable,
    Enable,
}

impl DeepView for AdminCommand {
    type V = AdminCommand;

    open spec fn deep_view(&self) -> AdminCommand {
        *self
    }
}

pub const ADMIN_USAGE: &'static str =
    "usage: cfsurge admin users <list|create|reset-password|disable|enable> [...]";

pub const HELP_TEXT: &'static str =
    "cfsurge commands:\n  login [--api-base <url>] [--auth <service-session|cloudflare-admin>] [--username <username>] [--password <password>] [--new-password <password>] [--token <token>] [--token-storage <file|keychain>]\n  init [--api-base <url>] [--slug <slug>] [--publish-dir <dir>] [--access <public|basic|link>]\n  publish [dir] [--slug <slug>] [--rotate-share-link]\n  --version\n  list\n  remove [slug]\n  passwd [--current-password <password>] [--new-password <password>]\n  admin users list\n  admin users create --username <username> [--role <user|admin>] [--temporary-password <password>]\n  admin users reset-password <username>\n  admin users disable <username>\n  admin users enable <username>\n  logout\n  interactive choices: use \u{2191}/\u{2193} and Enter\n";

pub const DEV_CLI_VERSION: &'static str = "0.0.0-dev";

/// The command that the first word names. No word, `--help` and an unknown word ask for help.
pub open spec fn command_of(args: Seq<Seq<char>>) -> Command {
    if args.len() == 0 {
        Command::Help
    } else if args[0] == "login"@ {
        Command::Login
    } else if args[0] == "init"@ {
        Command::Init
    } else if args[0] == "publish"@ {
        Command::Publish
    } else if args[0] == "list"@ {
        Command::List
    } else if args[0] == "remove"@ {
        Command::Remove
    } else if args[0] == "passwd"@ {
        Command::Passwd
    } else if args[0] == "admin"@ {
        Command::Admin
    } else if args[0] == "logout"@ {
        Command::Logout
    } else if args[0] == "--version"@ {
        Command::Version
    } else {
        Command::Help
    }
}

/// The command that the words after `admin` name: `users`, then an action.
pub open spec fn admin_command_of(args: Seq<Seq<char>>) -> Result<AdminCommand, Seq<char>> {
    if args.len() < 2 || args[0] != "users"@ {
        Err(ADMIN_USAGE@)
    } else if args[1] == "list"@ {
        Ok(AdminCommand::List)
    } else if args[1] == "create"@ {
        Ok(AdminCommand::Create)
    } else if args[1] == "reset-password"@ {
        Ok(AdminCommand::ResetPassword)
    } else if args[1] == "disable"@ {
        Ok(AdminCommand::Disable)
    } else if args[1] == "enable"@ {
        Ok(AdminCommand::Enable)
    } else {
        Err(ADMIN_USAGE@)
    }
}

/// The word after the first occurrence of `flag`, if there is one.
pub open spec fn flag_value(args: Seq<Seq<char>>, flag: Seq<char>) -> Option<Seq<char>>
    decreases args.len(),
{
    if args.len() == 0 {
        None
    } else if args[0] == flag {
        if args.len() > 1 {
            Some(args[1])
        } else {
            None
        }
    } else {
        flag_value(args.drop_first(), flag)
    }
}

/// The first word that does not start with two hyphens.
pub open spec fn positional(args: Seq<Seq<char>>) -> Option<Seq<char>>
    decreases args.len(),
{
    if args.len() == 0 {
        None
    } else if is_option(args[0]) {
        positional(args.drop_first())
    } else {
        Some(args[0])
    }
}

/// The first word that is neither an option nor the value of the option `valued`.
pub open spec fn positional_beside(args: Seq<Seq<char>>, valued: Seq<char>) -> Option<Seq<char>>
    decreases args.len(),
{
    if args.len() == 0 {
        None
    } else if args[0] == valued {
        if args.len() > 1 {
            positional_beside(args.skip(2), valued)
        } else {
            None
        }
    } else if is_option(args[0]) {
        positional_beside(args.drop_first(), valued)
    } else {
        Some(args[0])
    }
}

/// A word that starts with two hyphens.
pub open spec fn is_option(word: Seq<char>) -> bool {
    word.len() >= 2 && word[0] == '-' && word[1] == '-'
}

/// The trimmed text, unless nothing is left of it.
pub open spec fn cleaned(text: Seq<char>) -> Option<Seq<char>> {
    if trimmed(text).len() == 0 {
        None
    } else {
        Some(trimmed(text))
    }
}

/// The trimmed text of a value that may be absent, unless nothing is left of it.
pub open spec fn cleaned_opt(text: Option<Seq<char>>) -> Option<Seq<char>> {
    match text {
        Some(text) => cleaned(text),
        None => None,
    }
}

/// `first` where it is there, else `second`.
pub open spec fn either<T>(first: Option<T>, second: Option<T>) -> Option<T> {
    match first {
        Some(value) => Some(value),
        None => second,
    }
}

/// `value` where it is there, else `fallback`.
pub open spec fn value_or<T>(value: Option<T>, fallback: T) -> T {
    match value {
        Some(value) => value,
        None => fallback,
    }
}

/// The command that the command line names.
pub fn run_with_args(args: &[String]) -> (command: Command)
    ensures
        command == command_of(args.deep_view()),
{
    if args.len() == 0 {
        return Command::Help;
    }
    let word = args[0].as_str();
    if same_text(word, "login") {
        Command::Login
    } else if same_text(word, "init") {
        Command::Init
    } else if same_text(word, "publish") {
        Command::Publish
    } else if same_text(word, "list") {
        Command::List
    } else if same_text(word, "remove") {
        Command::Remove
    } else if same_text(word, "passwd") {
        Command::Passwd
    } else if same_text(word, "admin") {
        Command::Admin
    } else if same_text(word, "logout") {
        Command::Logout
    } else if same_text(word, "--version") {
        Command::Version
    } else {
        Command::Help
    }
}

/// The command that the words after `admin` name.
pub fn admin(args: &[String]) -> (command: Result<AdminCommand, String>)
    ensures
        crate::text::outcome(command) == admin_command_of(args.deep_view()),
{
    if args.len() < 2 || !same_text(args[0].as_str(), "users") {
        return Err(ADMIN_USAGE.to_string());
    }
    let action = args[1].as_str();
    if same_text(action, "list") {
        Ok(AdminCommand::List)
    } else if same_text(action, "create") {
        Ok(AdminCommand::Create)
    } else if same_text(action, "reset-password") {
        Ok(AdminCommand::ResetPassword)
    } else if same_text(action, "disable") {
        Ok(AdminCommand::Disable)
    } else if same_text(action, "enable") {
        Ok(AdminCommand::Enable)
    } else {
        Err(ADMIN_USAGE.to_string())
    }
}

/// The word after the first occurrence of `flag`, if there is one.
pub fn read_flag(args: &[String], flag: &str) -> (value: Option<String>)
    ensures
        value.deep_view() == flag_value(args.deep_view(), flag@),
{
    let ghost words = args.deep_view();
    let mut i: usize = 0;
    assert(words.skip(0) =~= words);
    while i < args.len()
        invariant
            words == args.deep_view(),
            i <= args.len(),
            flag_value(words.skip(i as int), flag@) == flag_value(words, flag@),
        decreases args.len() - i,
    {
        assert(words.skip(i as int)[0] == words[i as int]);
        if same_text(args[i].as_str(), flag) {
            if i + 1 < args.len() {
                assert(words.skip(i as int)[1] == words[i + 1]);
                return Some(args[i + 1].clone());
            }
            return None;
        }
        assert(words.skip(i as int).drop_first() =~= words.skip(i + 1));
        i += 1;
    }
    None
}

/// Whether `flag` is among the words.
pub fn has_flag(args: &[String], flag: &str) -> (found: bool)
    ensures
        found == args.deep_view().contains(flag@),
{
    let mut i: usize = 0;
    while i < args.len()
        invariant
            i <= args.len(),
            forall|j: int| 0 <= j < i ==> args.deep_view()[j] != flag@,
        decreases args.len() - i,
    {
        if same_text(args[i].as_str(), flag) {
            assert(args.deep_view()[i as int] == flag@);
            return true;
        }
        i += 1;
    }
    false
}

/// The first word that does not start with two hyphens.
pub fn read_positional_arg(args: &[String]) -> (value: Option<String>)
    ensures
        value.deep_view() == positional(args.deep_view()),
{
    let ghost words = args.deep_view();
    let mut i: usize = 0;
    assert(words.skip(0) =~= words);
    while i < args.len()
        invariant
            words == args.deep_view(),
            i <= args.len(),
            positional(words.skip(i as int)) == positional(words),
        decreases args.len() - i,
    {
        let word = args[i].as_str();
        assert(words.skip(i as int)[0] == words[i as int]);
        let length = word.unicode_len();
        if !(length >= 2 && word.get_char(0) == '-' && word.get_char(1) == '-') {
            return Some(args[i].clone());
        }
        assert(words.skip(i as int).drop_first() =~= words.skip(i + 1));
        i += 1;
    }
    None
}

/// The first word that is neither an option nor the value of the option `valued`.
pub fn read_positional_beside(args: &[String], valued: &str) -> (value: Option<String>)
    ensures
        value.deep_view() == positional_beside(args.deep_view(), valued@),
{
    let ghost words = args.deep_view();
    let mut i: usize = 0;
    assert(words.skip(0) =~= words);
    while i < args.len()
        invariant
            words == args.deep_view(),
            i <= args.len(),
            positional_beside(words.skip(i as int), valued@) == positional_beside(words, valued@),
        decreases args.len() - i,
    {
        let word = args[i].as_str();
        assert(words.skip(i as int)[0] == words[i as int]);
        if same_text(word, valued) {
            if args.len() - i < 2 {
                return None;
            }
            assert(words.skip(i as int).skip(2) =~= words.skip(i + 2));
            i += 2;
        } else {
            let length = word.unicode_len();
            if !(length >= 2 && word.get_char(0) == '-' && word.get_char(1) == '-') {
                return Some(args[i].clone());
            }
            assert(words.skip(i as int).drop_first() =~= words.skip(i + 1));
            i += 1;
        }
    }
    None
}

/// The trimmed text, unless nothing is left of it.
pub fn read_string(value: &str) -> (text: Option<String>)
    ensures
        text.deep_view() == cleaned(value@),
{
    let text = trim(value);
    if text.is_empty() {
        None
    } else {
        Some(text.to_string())
    }
}

/// The trimmed text of a value that may be absent, unless nothing is left of it.
pub fn read_string_opt(value: Option<&String>) -> (text: Option<String>)
    ensures
        text.deep_view() == cleaned_opt(value.deep_view()),
{
    match value {
        Some(value) => read_string(value.as_str()),
        None => None,
    }
}

/// A copy of the words.
pub(crate) fn copy_args(args: &[String]) -> (copy: Vec<String>)
    ensures
        copy.deep_view() == args.deep_view(),
{
    let mut copy: Vec<String> = Vec::new();
    for i in 0..args.len()
        invariant
            copy.deep_view() =~= args.deep_view().take(i as int),
    {
        let ghost before = copy.deep_view();
        copy.push(args[i].clone());
        assert(copy.deep_view() =~= before.push(args.deep_view()[i as int]));
    }
    assert(args.deep_view().take(args.deep_view().len() as int) =~= args.deep_view());
    copy
}

/// The version to report: the one in the environment, else the one built in, else the
/// development version.
pub fn resolve_cli_version(from_env: Option<&String>, built_in: Option<&String>) -> (version: String)
    ensures
        version@ == value_or(
            either(cleaned_opt(from_env.deep_view()), built_in.deep_view()),
            DEV_CLI_VERSION@,
        ),
{
    match read_string_opt(from_env) {
        Some(version) => version,
        None => match built_in {
            Some(version) => version.clone(),
            None => DEV_CLI_VERSION.to_string(),
        },
    }
}

/// Cleaning a text that was cleaned changes nothing.
pub proof fn law_cleaning_is_idempotent(text: Seq<char>)
    ensures
        cleaned(text) matches Some(once) ==> cleaned(once) == Some(once),
{
    crate::text::law_trim_is_idempotent(text);
}

/// A flag and its value do not change which word is the positional one.
pub proof fn law_flag_value_is_not_positional(
    flag: Seq<char>,
    value: Seq<char>,
    rest: Seq<Seq<char>>,
)
    ensures
        positional_beside(seq![flag, value] + rest, flag) == positional_beside(rest, flag),
{
    assert((seq![flag, value] + rest).skip(2) =~= rest);
}

/// Where the flag is not among the words, the positional word is the first that is no option.
pub proof fn law_positional_without_the_flag(args: Seq<Seq<char>>, flag: Seq<char>)
    requires
        !args.contains(flag),
    ensures
        positional_beside(args, flag) == positional(args),
    decreases args.len(),
{
    if args.len() > 0 {
        assert(args.contains(args[0]));
        assert forall|i: int| 0 <= i < args.drop_first().len() implies args.drop_first()[i] != flag by {
            assert(args.contains(args[i + 1]));
        }
        law_positional_without_the_flag(args.drop_first(), flag);
    }
}

/// A flag that is not among the words has no value.
pub proof fn law_absent_flag_has_no_value(args: Seq<Seq<char>>, flag: Seq<char>)
    requires
        !args.contains(flag),
    ensures
        flag_value(args, flag) is None,
    decreases args.len(),
{
    if args.len() > 0 {
        assert(args.contains(args[0]));
        assert forall|i: int| 0 <= i < args.drop_first().len() implies args.drop_first()[i] != flag by {
            assert(args.contains(args[i + 1]));
        }
        law_absent_flag_has_no_value(args.drop_first(), flag);
    }
}

/// A flag has the word behind its first occurrence as its value, whatever stands around it,
/// and none where it is the last word.
pub proof fn law_flag_has_the_word_behind_it(
    before: Seq<Seq<char>>,
    flag: Seq<char>,
    value: Seq<char>,
    after: Seq<Seq<char>>,
)
    requires
        !before.contains(flag),
    ensures
        flag_value(before + seq![flag, value] + after, flag) == Some(value),
        flag_value(before + seq![flag], flag) is None,
    decreases before.len(),
{
    let whole = before + seq![flag, value] + after;
    let bare = before + seq![flag];
    if before.len() == 0 {
        assert(whole[0] == flag && whole[1] == value);
        assert(bare[0] == flag && bare.len() == 1);
    } else {
        assert(before.contains(before[0]));
        let rest = before.drop_first();
        assert forall|i: int| 0 <= i < rest.len() implies rest[i] != flag by {
            assert(before.contains(before[i + 1]));
        }
        law_flag_has_the_word_behind_it(rest, flag, value, after);
        assert(whole.drop_first() =~= rest + seq![flag, value] + after);
        assert(bare.drop_first() =~= rest + seq![flag]);
        assert(whole[0] == before[0] && bare[0] == before[0]);
    }
}

/// The positional word is the first that does not start with two hyphens.
pub proof fn law_positional_is_the_first_plain_word(
    options: Seq<Seq<char>>,
    word: Seq<char>,
    after: Seq<Seq<char>>,
)
    requires
        forall|i: int|
            0 <= i < options.len() ==> (#[trigger] options[i]).len() >= 2 && options[i][0] == '-'
                && options[i][1] == '-',
        word.len() < 2 || word[0] != '-' || word[1] != '-',
    ensures
        positional(options + seq![word] + after) == Some(word),
        positional(options) is None,
    decreases options.len(),
{
    let whole = options + seq![word] + after;
    if options.len() == 0 {
        assert(whole[0] == word);
    } else {
        let rest = options.drop_first();
        assert forall|i: int| 0 <= i < rest.len() implies (#[trigger] rest[i]).len() >= 2
            && rest[i][0] == '-' && rest[i][1] == '-' by {
            assert(rest[i] == options[i + 1]);
        }
        assert(options[0].len() >= 2);
        law_positional_is_the_first_plain_word(rest, word, after);
        assert(whole.drop_first() =~= rest + seq![word] + after);
        assert(whole[0] == options[0]);
    }
}

/// Cleaning takes the margins away, and leaves nothing of a text of white space alone.
pub proof fn law_cleaning_takes_the_margins(left: Seq<char>, core: Seq<char>, right: Seq<char>)
    requires
        forall|i: int| 0 <= i < left.len() ==> crate::text::is_white_space(#[trigger] left[i]),
        forall|i: int| 0 <= i < right.len() ==> crate::text::is_white_space(#[trigger] right[i]),
        core.len() > 0 ==> !crate::text::is_white_space(core[0]) && !crate::text::is_white_space(
            core.last(),
        ),
    ensures
        core.len() > 0 ==> cleaned_opt(Some(left + core + right)) == Some(core),
        core.len() == 0 ==> cleaned_opt(Some(left + core + right)) is None,
        cleaned_opt(None) is None,
{
    crate::text::law_trimming_takes_the_margins(left, core, right);
}

/// What comes first is taken, and what comes second only where the first is absent.
pub proof fn law_first_comes_first<T>(first: T, second: Option<T>, fallback: T)
    ensures
        either(Some(first), second) == Some(first),
        either(None, second) == second,
        value_or(Some(first), fallback) == first,
        value_or(None, fallback) == fallback,
{
}

/// Each command goes by its own word, whatever follows it; any other word, and none, asks for
/// help.
pub proof fn law_commands_go_by_their_words(word: Seq<char>, rest: Seq<Seq<char>>)
    ensures
        command_of(Seq::empty()) == Command::Help,
        ({
            let command = command_of(seq![word] + rest);
            &&& command == Command::Login <==> word == "login"@
            &&& command == Command::Init <==> word == "init"@
            &&& command == Command::Publish <==> word == "publish"@
            &&& command == Command::List <==> word == "list"@
            &&& command == Command::Remove <==> word == "remove"@
            &&& command == Command::Passwd <==> word == "passwd"@
            &&& command == Command::Admin <==> word == "admin"@
            &&& command == Command::Logout <==> word == "logout"@
            &&& command == Command::Version <==> word == "--version"@
        }),
{
    reveal_strlit("login");
    reveal_strlit("init");
    reveal_strlit("publish");
    reveal_strlit("list");
    reveal_strlit("remove");
    reveal_strlit("passwd");
    reveal_strlit("admin");
    reveal_strlit("logout");
    reveal_strlit("--version");
    assert("login"@[1] == 'o' && "list"@[1] == 'i' && "logout"@.len() == 6 && "login"@.len() == 5);
    assert("init"@[0] == 'i' && "remove"@[0] == 'r' && "admin"@[0] == 'a' && "--version"@[0] == '-');
    assert("publish"@[1] == 'u' && "passwd"@[1] == 'a');
    assert((seq![word] + rest)[0] == word);
}

/// Each command under `admin users` goes by its own word, whatever follows it; anything else
/// is answered with the usage.
pub proof fn law_admin_commands_go_by_their_words(
    group: Seq<char>,
    word: Seq<char>,
    rest: Seq<Seq<char>>,
)
    ensures
        ({
            let command = admin_command_of(seq![group, word] + rest);
            let known = group == "users"@;
            &&& command == Ok::<AdminCommand, Seq<char>>(AdminCommand::List) <==> known && word
                == "list"@
            &&& command == Ok::<AdminCommand, Seq<char>>(AdminCommand::Create) <==> known && word
                == "create"@
            &&& command == Ok::<AdminCommand, Seq<char>>(AdminCommand::ResetPassword) <==> known
                && word == "reset-password"@
            &&& command == Ok::<AdminCommand, Seq<char>>(AdminCommand::Disable) <==> known && word
                == "disable"@
            &&& command == Ok::<AdminCommand, Seq<char>>(AdminCommand::Enable) <==> known && word
                == "enable"@
            &&& command matches Err(message) ==> message == ADMIN_USAGE@
        }),
        admin_command_of(seq![group]) is Err,
        admin_command_of(Seq::empty()) is Err,
{
    reveal_strlit("list");
    reveal_strlit("create");
    reveal_strlit("reset-password");
    reveal_strlit("disable");
    reveal_strlit("enable");
    assert("list"@[0] == 'l' && "create"@[0] == 'c' && "reset-password"@[0] == 'r');
    assert("disable"@[0] == 'd' && "enable"@[0] == 'e');
    let args = seq![group, word] + rest;
    assert(args[0] == group && args[1] == word);
}

} // verus!
