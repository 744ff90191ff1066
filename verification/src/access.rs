//! Who may read a published site.
use crate::text::{lowercase, outcome, same_text, to_ascii_lowercase, trim, trimmed};
use vstd::prelude::*;

verus! {

/// Who may read a published site.
#[derive(Clone, Copy, Debug, PartialEq, Eq, Structural)]
pub enum Access {
    /// Anyone.
    Public,
    /// Whoever knows the site's user name and password.
    Basic,
    /// Whoever holds the share link.
    Link,
}

impl DeepView for Access {
    type V = Access;

    open spec fn deep_view(&self) -> Access {
        *self
    }
}

/// The former two-valued setting, which a site configuration may still hold.
#[derive(Clone, Copy, Debug, PartialEq, Eq, Structural)]
pub enum LegacyVisibility {
    Public,
    Unlisted,
}

pub const DEFAULT_ACCESS: Access = Access::Public;

pub const INVALID_ACCESS: &'static str = "invalid access: expected public, basic, or link";

pub const VISIBILITY_FLAG_GONE: &'static str =
    "--visibility is no longer supported. Use --access <public|basic|link>.";

/// The word for an access mode.
pub open spec fn access_word(access: Access) -> Seq<char> {
    match access {
        Access::Public => "public"@,
        Access::Basic => "basic"@,
        Access::Link => "link"@,
    }
}

/// The access mode whose word `word` is.
pub open spec fn access_of_word(word: Seq<char>) -> Option<Access> {
    if word == "public"@ {
        Some(Access::Public)
    } else if word == "basic"@ {
        Some(Access::Basic)
    } else if word == "link"@ {
        Some(Access::Link)
    } else {
        None
    }
}

/// The access mode that a text names, whatever its case and the white space around it.
pub open spec fn access_from(value: Option<Seq<char>>) -> Option<Access> {
    match value {
        Some(value) => access_of_word(lowercase(trimmed(value))),
        None => None,
    }
}

/// The former setting that a text names, whatever its case and the white space around it.
pub open spec fn legacy_visibility_from(value: Option<Seq<char>>) -> Option<LegacyVisibility> {
    match value {
        Some(value) => {
            let word = lowercase(trimmed(value));
            if word == "public"@ {
                Some(LegacyVisibility::Public)
            } else if word == "unlisted"@ {
                Some(LegacyVisibility::Unlisted)
            } else {
                None
            }
        },
        None => None,
    }
}

/// The access mode that a user's text names.
pub open spec fn access_input(value: Seq<char>) -> Result<Access, Seq<char>> {
    match access_from(Some(value)) {
        Some(access) => Ok(access),
        None => Err(INVALID_ACCESS@),
    }
}

/// The words `--visibility` is refused among.
pub open spec fn no_visibility_flag(args: Seq<Seq<char>>) -> Result<(), Seq<char>> {
    if args.contains("--visibility"@) {
        Err(VISIBILITY_FLAG_GONE@)
    } else {
        Ok(())
    }
}

impl Access {
    /// The word for this mode.
    pub fn as_str(self) -> (word: &'static str)
        ensures
            word@ == access_word(self),
    {
        match self {
            Access::Public => "public",
            Access::Basic => "basic",
            Access::Link => "link",
        }
    }
}

/// The access mode that a text names, whatever its case and the white space around it.
pub fn normalize_access(value: Option<&str>) -> (access: Option<Access>)
    ensures
        access == access_from(value.deep_view()),
{
    let word = match value {
        Some(value) => to_ascii_lowercase(trim(value)),
        None => return None,
    };
    if same_text(word.as_str(), "public") {
        Some(Access::Public)
    } else if same_text(word.as_str(), "basic") {
        Some(Access::Basic)
    } else if same_text(word.as_str(), "link") {
        Some(Access::Link)
    } else {
        None
    }
}

/// The former setting that a text names, whatever its case and the white space around it.
pub fn normalize_legacy_visibility(value: Option<&str>) -> (visibility: Option<LegacyVisibility>)
    ensures
        visibility == legacy_visibility_from(value.deep_view()),
{
    let word = match value {
        Some(value) => to_ascii_lowercase(trim(value)),
        None => return None,
    };
    if same_text(word.as_str(), "public") {
        Some(LegacyVisibility::Public)
    } else if same_text(word.as_str(), "unlisted") {
        Some(LegacyVisibility::Unlisted)
    } else {
        None
    }
}

/// The access mode that a user's text names.
pub fn parse_access_input(value: &str) -> (access: Result<Access, String>)
    ensures
        outcome(access) == access_input(value@),
{
    match normalize_access(Some(value)) {
        Some(access) => Ok(access),
        None => Err(INVALID_ACCESS.to_string()),
    }
}

/// Refuses the flag `--visibility`.
pub fn assert_no_deprecated_visibility_flag(args: &[String]) -> (checked: Result<(), String>)
    ensures
        outcome(checked) == no_visibility_flag(args.deep_view()),
{
    if crate::args::has_flag(args, "--visibility") {
        Err(VISIBILITY_FLAG_GONE.to_string())
    } else {
        Ok(())
    }
}

/// The word for an access mode names that mode.
pub proof fn law_access_word_reads_back(access: Access)
    ensures
        access_from(Some(access_word(access))) == Some(access),
{
    reveal_strlit("public");
    reveal_strlit("basic");
    reveal_strlit("link");
    let word = access_word(access);
    crate::text::law_clean_text_is_its_own_trim(word);
    assert(lowercase(word) =~= word);
    if access == Access::Basic {
        assert(word[0] != "public"@[0]);
    } else if access == Access::Link {
        assert(word[0] != "public"@[0]);
        assert(word[0] != "basic"@[0]);
    }
}

/// White space around a text and the case of its letters do not change the mode it names.
pub proof fn law_access_ignores_case_and_margins(value: Seq<char>)
    ensures
        access_from(Some(trimmed(value))) == access_from(Some(value)),
        access_from(Some(lowercase(trimmed(value)))) == access_from(Some(value)),
{
    let clean = trimmed(value);
    let low = lowercase(clean);
    crate::text::law_trim_is_idempotent(value);
    crate::text::law_lowercase_is_idempotent(clean);
    crate::text::law_trimmed_has_clean_ends(value);
    assert(low.len() == clean.len());
    if clean.len() > 0 {
        assert(!crate::text::is_white_space(low[0]));
        assert(!crate::text::is_white_space(low.last()));
    }
    crate::text::law_clean_text_is_its_own_trim(low);
}

/// An access mode is named by its word and no other, whatever the case and the margins.
pub proof fn law_access_goes_by_its_word(value: Seq<char>)
    ensures
        access_from(Some(value)) == Some(Access::Public) <==> lowercase(trimmed(value)) == "public"@,
        access_from(Some(value)) == Some(Access::Basic) <==> lowercase(trimmed(value)) == "basic"@,
        access_from(Some(value)) == Some(Access::Link) <==> lowercase(trimmed(value)) == "link"@,
        access_from(None) is None,
        access_input(value) == (match access_from(Some(value)) {
            Some(access) => Ok::<Access, Seq<char>>(access),
            None => Err(INVALID_ACCESS@),
        }),
        access_word(Access::Public) == "public"@,
        access_word(Access::Basic) == "basic"@,
        access_word(Access::Link) == "link"@,
{
    reveal_strlit("public");
    reveal_strlit("basic");
    reveal_strlit("link");
    assert("public"@[0] == 'p' && "basic"@[0] == 'b' && "link"@[0] == 'l');
}

/// The former setting is named by the words `public` and `unlisted` alone.
pub proof fn law_former_setting_goes_by_its_word(value: Seq<char>)
    ensures
        legacy_visibility_from(Some(value)) == Some(LegacyVisibility::Public) <==> lowercase(
            trimmed(value),
        ) == "public"@,
        legacy_visibility_from(Some(value)) == Some(LegacyVisibility::Unlisted) <==> lowercase(
            trimmed(value),
        ) == "unlisted"@,
        legacy_visibility_from(None) is None,
{
    reveal_strlit("public");
    reveal_strlit("unlisted");
    assert("public"@[0] == 'p' && "unlisted"@[0] == 'u');
}

/// The flag `--visibility` is refused wherever it stands, and nothing else is.
pub proof fn law_only_the_old_flag_is_refused(before: Seq<Seq<char>>, after: Seq<Seq<char>>)
    ensures
        no_visibility_flag(before + seq!["--visibility"@] + after) == Err::<(), Seq<char>>(
            VISIBILITY_FLAG_GONE@,
        ),
        !before.contains("--visibility"@) ==> no_visibility_flag(before) is Ok,
{
    let args = before + seq!["--visibility"@] + after;
    assert(args[before.len() as int] == "--visibility"@);
}

} // verus!
