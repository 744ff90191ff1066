//! What the keychain tool's output means.
use crate::config::{KeychainRead, KeychainWrite};
use crate::text::{outcome, same_text, trim, trimmed};
use vstd::prelude::*;

verus! {

pub const KEYCHAIN_SERVICE: &'static str = "cfsurge";

pub const KEYCHAIN_ACCOUNT: &'static str = "api-token";

pub const EMPTY_KEYCHAIN_TOKEN: &'static str = "empty token in keychain";

pub const NOT_FOUND_IN_KEYCHAIN: &'static str = "could not be found";

/// Whether `part` occurs in `text`.
pub open spec fn occurs_in(part: Seq<char>, text: Seq<char>) -> bool {
    exists|i: int|
        0 <= i <= text.len() - part.len() && #[trigger] text.subrange(i, i + part.len()) == part
}

/// What reading the token came to, by the tool's success and output.
pub open spec fn keychain_token(success: bool, stdout: Seq<char>, stderr: Seq<char>) -> KeychainRead<
    Seq<char>,
> {
    if !success {
        KeychainRead::Failed(trimmed(stderr))
    } else if trimmed(stdout).len() == 0 {
        KeychainRead::Failed(EMPTY_KEYCHAIN_TOKEN@)
    } else {
        KeychainRead::Token(trimmed(stdout))
    }
}

/// What storing the token came to.
pub open spec fn keychain_stored(success: bool, stderr: Seq<char>) -> KeychainWrite<Seq<char>> {
    if success {
        KeychainWrite::Stored
    } else {
        KeychainWrite::Failed(trimmed(stderr))
    }
}

/// What forgetting the token came to. A token that is not there needs no forgetting.
pub open spec fn keychain_forgotten(success: bool, stderr: Seq<char>) -> Result<(), Seq<char>> {
    if success || occurs_in(NOT_FOUND_IN_KEYCHAIN@, stderr) {
        Ok(())
    } else {
        Err(trimmed(stderr))
    }
}

/// Whether a text occurs in another.
pub fn contains_text(text: &str, part: &str) -> (found: bool)
    ensures
        found == occurs_in(part@, text@),
{
    let length = text.unicode_len();
    let width = part.unicode_len();
    if width > length {
        return false;
    }
    let mut i: usize = 0;
    while i <= length - width
        invariant
            length == text@.len(),
            width == part@.len(),
            width <= length,
            i <= length - width + 1,
            forall|j: int| 0 <= j < i ==> #[trigger] text@.subrange(j, j + part@.len()) != part@,
        decreases length - i + 1,
    {
        let window = text.substring_char(i, i + width);
        if same_text(window, part) {
            assert(text@.subrange(i as int, i + part@.len()) == part@);
            return true;
        }
        if i == length - width {
            assert forall|j: int| 0 <= j <= text@.len() - part@.len() implies #[trigger] text@.subrange(
                j,
                j + part@.len(),
            ) != part@ by {}
            return false;
        }
        i += 1;
    }
    false
}

/// What reading the token came to, by the tool's success and output.
pub fn read_token_from_mac_keychain(success: bool, stdout: &str, stderr: &str) -> (read: KeychainRead)
    ensures
        read.deep_view() == keychain_token(success, stdout@, stderr@),
{
    if !success {
        return KeychainRead::Failed(trim(stderr).to_string());
    }
    let token = trim(stdout);
    if token.is_empty() {
        return KeychainRead::Failed(EMPTY_KEYCHAIN_TOKEN.to_string());
    }
    KeychainRead::Token(token.to_string())
}

/// What storing the token came to, by the tool's success and output.
pub fn write_token_to_mac_keychain(success: bool, stderr: &str) -> (write: KeychainWrite)
    ensures
        write.deep_view() == keychain_stored(success, stderr@),
{
    if success {
        KeychainWrite::Stored
    } else {
        KeychainWrite::Failed(trim(stderr).to_string())
    }
}

/// What forgetting the token came to, by the tool's success and output.
pub fn delete_token_from_mac_keychain(success: bool, stderr: &str) -> (forgotten: Result<(), String>)
    ensures
        outcome(forgotten) == keychain_forgotten(success, stderr@),
{
    if success || contains_text(stderr, NOT_FOUND_IN_KEYCHAIN) {
        Ok(())
    } else {
        Err(trim(stderr).to_string())
    }
}

/// What there is to warn of when the keychain did not forget the token.
pub fn warn_of_keychain(message: &str) -> (warning: String)
    ensures
        warning@ == "warning: failed to clear token from macOS Keychain ("@ + message@ + ")"@,
{
    let mut warning = "warning: failed to clear token from macOS Keychain (".to_string();
    warning.append(message);
    warning.append(")");
    warning
}

/// A token that is read from the keychain is clean.
pub proof fn law_keychain_token_is_clean(success: bool, stdout: Seq<char>, stderr: Seq<char>)
    ensures
        keychain_token(success, stdout, stderr) matches KeychainRead::Token(token) ==> token.len() > 0
            && trimmed(token) == token,
{
    crate::text::law_trim_is_idempotent(stdout);
}

/// What the tool printed is the token, without its margins; a failure is told with what the tool
/// printed as its error; and a token that is not there needs no forgetting.
pub proof fn law_keychain_output_is_taken_as_it_is(
    stdout: Seq<char>,
    stderr: Seq<char>,
    before: Seq<char>,
    after: Seq<char>,
)
    ensures
        trimmed(stdout).len() > 0 ==> keychain_token(true, stdout, stderr) == KeychainRead::Token(
            trimmed(stdout),
        ),
        trimmed(stdout).len() == 0 ==> keychain_token(true, stdout, stderr) is Failed,
        keychain_token(false, stdout, stderr) == KeychainRead::<Seq<char>>::Failed(trimmed(stderr)),
        keychain_stored(true, stderr) is Stored,
        keychain_stored(false, stderr) == KeychainWrite::Failed(trimmed(stderr)),
        keychain_forgotten(true, stderr) is Ok,
        keychain_forgotten(false, before + "could not be found"@ + after) is Ok,
        keychain_forgotten(false, stderr) matches Err(message) ==> message == trimmed(stderr),
        stderr.len() < "could not be found"@.len() ==> keychain_forgotten(false, stderr) is Err,
{
    let text = before + "could not be found"@ + after;
    let at = before.len() as int;
    assert(text.subrange(at, at + "could not be found"@.len()) =~= "could not be found"@);
}

} // verus!
