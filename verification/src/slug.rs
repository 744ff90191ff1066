//! Project slugs: the host name labels under which sites are published.
use crate::address::{is_unreserved, parse_url, percent_encoded, url_parts, UrlParts};
use crate::args::{cleaned, cleaned_opt, either, read_string, read_string_opt, value_or};
use crate::text::{
    before_first, chars_of, copy_range, find_char, lowercase, outcome, string_of,
    to_ascii_lowercase, trim, trimmed,
};
use vstd::prelude::*;
use vstd::utf8::{encode_utf8, is_ascii_chars, is_ascii_chars_encode_utf8};

verus! {

/// What the service says of itself.
#[derive(Debug, PartialEq, Eq)]
pub struct ApiMetadata<T = String> {
    pub api_base: Option<T>,
    pub public_suffix: Option<T>,
    pub token_creation_url: Option<T>,
}

impl DeepView for ApiMetadata {
    type V = ApiMetadata<Seq<char>>;

    open spec fn deep_view(&self) -> ApiMetadata<Seq<char>> {
        ApiMetadata {
            api_base: self.api_base.deep_view(),
            public_suffix: self.public_suffix.deep_view(),
            token_creation_url: self.token_creation_url.deep_view(),
        }
    }
}

pub const MAX_SLUG_LENGTH: usize = 63;

pub const FALLBACK_API_RESERVED_LABEL: &'static str = "api";

pub const ALWAYS_RESERVED_LABEL: &'static str = "www";

pub const UNLISTED_FALLBACK_LABEL: &'static str = "u";

/// A character that a slug may hold.
pub open spec fn is_slug_char(c: char) -> bool {
    'a' <= c <= 'z' || '0' <= c <= '9' || c == '-'
}

/// A well formed slug: one to sixty-three lower case letters, digits and hyphens, with no
/// hyphen at either end.
pub open spec fn is_slug(slug: Seq<char>) -> bool {
    &&& 1 <= slug.len() <= MAX_SLUG_LENGTH
    &&& slug[0] != '-'
    &&& slug.last() != '-'
    &&& forall|i: int| 0 <= i < slug.len() ==> is_slug_char(#[trigger] slug[i])
}

/// What is wrong with a slug, if anything is.
pub open spec fn slug_fault(slug: Seq<char>, reserved: Seq<Seq<char>>) -> Option<Seq<char>> {
    if !is_slug(slug) {
        Some("invalid_slug"@)
    } else if reserved.contains(slug) {
        Some("reserved_slug"@)
    } else {
        None
    }
}

/// The message that refuses a slug, or leave to use it.
pub open spec fn slug_verdict(slug: Seq<char>, reserved: Seq<Seq<char>>) -> Result<(), Seq<char>> {
    match slug_fault(slug, reserved) {
        Some(fault) => Err("invalid slug: "@ + slug + " ("@ + fault + ")"@),
        None => Ok(()),
    }
}

/// The slug that a user's text gives.
pub open spec fn slug_input(value: Seq<char>, reserved: Seq<Seq<char>>) -> Result<
    Seq<char>,
    Seq<char>,
> {
    match slug_verdict(trimmed(value), reserved) {
        Ok(()) => Ok(trimmed(value)),
        Err(message) => Err(message),
    }
}

/// The first label of a URL's host name, in lower case.
pub open spec fn first_label(parts: Option<UrlParts<Seq<char>>>) -> Option<Seq<char>> {
    match parts {
        Some(url) => match url.host {
            Some(host) => cleaned(lowercase(host).take(before_first(lowercase(host), '.') as int)),
            None => None,
        },
        None => None,
    }
}

/// The first label of the service's host: of the base URL that the service states, else of
/// the one in use.
pub open spec fn api_label(
    api_base: Option<Seq<char>>,
    metadata: Option<ApiMetadata<Seq<char>>>,
) -> Option<Seq<char>> {
    let stated = match metadata {
        Some(metadata) => match cleaned_opt(metadata.api_base) {
            Some(base) => first_label(url_parts(base)),
            None => None,
        },
        None => None,
    };
    let in_use = match api_base {
        Some(base) => first_label(url_parts(base)),
        None => None,
    };
    either(stated, in_use)
}

/// The labels that no project may take, for a service whose own label is `label`.
pub open spec fn reserved_with(label: Option<Seq<char>>) -> Seq<Seq<char>> {
    let fixed = seq![ALWAYS_RESERVED_LABEL@, UNLISTED_FALLBACK_LABEL@];
    let own = value_or(label, FALLBACK_API_RESERVED_LABEL@);
    if fixed.contains(own) {
        fixed
    } else {
        fixed.push(own)
    }
}

/// What is wrong with a slug, if anything is.
pub fn validate_slug(slug: &str, reserved_labels: &[String]) -> (fault: Option<&'static str>)
    ensures
        fault.deep_view() == slug_fault(slug@, reserved_labels.deep_view()),
{
    let chars = chars_of(slug);
    if chars.len() == 0 || chars.len() > MAX_SLUG_LENGTH {
        return Some("invalid_slug");
    }
    if chars[0] == '-' || chars[chars.len() - 1] == '-' {
        return Some("invalid_slug");
    }
    for i in 0..chars.len()
        invariant
            chars@ == slug@,
            forall|j: int| 0 <= j < i ==> is_slug_char(#[trigger] slug@[j]),
    {
        let c = chars[i];
        if !(('a' <= c && c <= 'z') || ('0' <= c && c <= '9') || c == '-') {
            assert(!is_slug_char(slug@[i as int]));
            return Some("invalid_slug");
        }
    }
    if crate::args::has_flag(reserved_labels, slug) {
        return Some("reserved_slug");
    }
    None
}

/// Refuses a slug that is malformed or reserved.
pub fn assert_valid_slug(slug: &str, reserved_labels: &[String]) -> (checked: Result<(), String>)
    ensures
        outcome(checked) == slug_verdict(slug@, reserved_labels.deep_view()),
{
    match validate_slug(slug, reserved_labels) {
        None => Ok(()),
        Some(fault) => {
            let mut message = "invalid slug: ".to_string();
            message.append(slug);
            message.append(" (");
            message.append(fault);
            message.append(")");
            Err(message)
        },
    }
}

/// The slug that a user's text gives.
pub fn parse_slug_input(value: &str, reserved_labels: &[String]) -> (slug: Result<String, String>)
    ensures
        outcome(slug) == slug_input(value@, reserved_labels.deep_view()),
{
    let slug = trim(value);
    match assert_valid_slug(slug, reserved_labels) {
        Ok(()) => Ok(slug.to_string()),
        Err(message) => Err(message),
    }
}

/// The first label of a URL's host name, in lower case.
pub fn first_hostname_label(parts: Option<UrlParts>) -> (label: Option<String>)
    ensures
        label.deep_view() == first_label(parts.deep_view()),
{
    match parts {
        Some(url) => match url.host {
            Some(host) => {
                let lowered = to_ascii_lowercase(host.as_str());
                let chars = chars_of(lowered.as_str());
                let end = find_char(chars.as_slice(), '.');
                let label = copy_range(chars.as_slice(), 0, end);
                assert(label@ =~= lowered@.take(end as int));
                read_string(string_of(label.as_slice()).as_str())
            },
            None => None,
        },
        None => None,
    }
}

/// The first label of the host name of a URL, in lower case.
pub fn extract_first_hostname_label(value: &str) -> (label: Option<String>)
    ensures
        label.deep_view() == first_label(url_parts(value@)),
{
    first_hostname_label(parse_url(value))
}

/// The first label of the service's host: of the base URL that the service states, else of
/// the one in use.
pub fn resolve_api_host_first_label(
    api_base: Option<&str>,
    metadata: Option<&ApiMetadata>,
) -> (label: Option<String>)
    ensures
        label.deep_view() == api_label(api_base.deep_view(), metadata.deep_view()),
{
    if let Some(metadata) = metadata {
        if let Some(base) = read_string_opt(metadata.api_base.as_ref()) {
            if let Some(label) = extract_first_hostname_label(base.as_str()) {
                return Some(label);
            }
        }
    }
    match api_base {
        Some(base) => extract_first_hostname_label(base),
        None => None,
    }
}

/// The labels that no project may take, for a service whose own label is `label`.
pub fn reserve_labels(label: Option<String>) -> (reserved: Vec<String>)
    ensures
        reserved.deep_view() == reserved_with(label.deep_view()),
{
    let mut reserved: Vec<String> = Vec::new();
    reserved.push(ALWAYS_RESERVED_LABEL.to_string());
    reserved.push(UNLISTED_FALLBACK_LABEL.to_string());
    let ghost fixed = seq![ALWAYS_RESERVED_LABEL@, UNLISTED_FALLBACK_LABEL@];
    assert(reserved.deep_view() =~= fixed);
    let own = match label {
        Some(label) => label,
        None => FALLBACK_API_RESERVED_LABEL.to_string(),
    };
    if !crate::args::has_flag(reserved.as_slice(), own.as_str()) {
        reserved.push(own);
        assert(reserved.deep_view() =~= fixed.push(own@));
    }
    reserved
}

/// The labels that no project may take.
pub fn build_reserved_labels(
    api_base: Option<&str>,
    metadata: Option<&ApiMetadata>,
) -> (reserved: Vec<String>)
    ensures
        reserved.deep_view() == reserved_with(
            api_label(api_base.deep_view(), metadata.deep_view()),
        ),
{
    reserve_labels(resolve_api_host_first_label(api_base, metadata))
}

/// A slug that was accepted is accepted again as it is.
pub proof fn law_accepted_slug_is_stable(value: Seq<char>, reserved: Seq<Seq<char>>)
    ensures
        slug_input(value, reserved) matches Ok(slug) ==> is_slug(slug) && !reserved.contains(slug)
            && slug_input(slug, reserved) == Ok::<Seq<char>, Seq<char>>(slug),
{
    crate::text::law_trim_is_idempotent(value);
}

/// The labels `www` and `u`, and the first label of the service's own host, are always
/// reserved; `api` stands in where the host gives none.
pub proof fn law_reserved_labels(label: Option<Seq<char>>)
    ensures
        reserved_with(label).contains("www"@),
        reserved_with(label).contains("u"@),
        label matches Some(own) ==> reserved_with(label).contains(own),
        label is None ==> reserved_with(label).contains("api"@),
{
    let fixed = seq![ALWAYS_RESERVED_LABEL@, UNLISTED_FALLBACK_LABEL@];
    let own = value_or(label, FALLBACK_API_RESERVED_LABEL@);
    assert(fixed[0] == "www"@);
    assert(fixed[1] == "u"@);
    let all = reserved_with(label);
    assert(all[0] == fixed[0] && all[1] == fixed[1]);
    if !fixed.contains(own) {
        assert(all[2] == own);
    }
}

proof fn lemma_unreserved_encodes_to_itself(text: Seq<char>)
    requires
        is_ascii_chars(text),
        forall|i: int| 0 <= i < text.len() ==> is_unreserved(#[trigger] text[i] as u8),
    ensures
        percent_encoded(Seq::new(text.len(), |i: int| text[i] as u8)) == text,
    decreases text.len(),
{
    let bytes = Seq::new(text.len(), |i: int| text[i] as u8);
    if text.len() == 0 {
        assert(percent_encoded(bytes) =~= text);
    } else {
        let front = text.drop_last();
        assert forall|i: int| 0 <= i < front.len() implies is_unreserved(#[trigger] front[i] as u8) by {
            assert(front[i] == text[i]);
        }
        lemma_unreserved_encodes_to_itself(front);
        assert(bytes.drop_last() =~= Seq::new(front.len(), |i: int| front[i] as u8));
        assert(is_unreserved(text[text.len() - 1] as u8));
        assert(bytes.last() as char == text.last());
        assert(percent_encoded(bytes) =~= text);
    }
}

/// A well formed slug stands for itself in the path of a URL.
pub proof fn law_slug_needs_no_encoding(slug: Seq<char>)
    requires
        is_slug(slug),
    ensures
        percent_encoded(encode_utf8(slug)) == slug,
{
    assert forall|i: int| 0 <= i < slug.len() implies is_unreserved(#[trigger] slug[i] as u8) by {
        assert(is_slug_char(slug[i]));
    }
    assert forall|i: int| 0 <= i < slug.len() implies (#[trigger] slug[i] as u32) < 128 by {
        assert(is_slug_char(slug[i]));
    }
    is_ascii_chars_encode_utf8(slug);
    lemma_unreserved_encodes_to_itself(slug);
    assert(encode_utf8(slug) =~= Seq::new(slug.len(), |i: int| slug[i] as u8));
}

/// A slug may be used if and only if it is made of one to sixty-three small letters, digits and
/// hyphens, with no hyphen at either end, and is not reserved. What is refused is named together
/// with the reason.
pub proof fn law_usable_slugs(slug: Seq<char>, reserved: Seq<Seq<char>>)
    ensures
        ({
            let sound = 1 <= slug.len() && slug.len() <= 63 && slug[0] != '-' && slug[slug.len() - 1]
                != '-' && forall|i: int|
                0 <= i < slug.len() ==> ('a' <= #[trigger] slug[i] && slug[i] <= 'z') || ('0'
                    <= slug[i] && slug[i] <= '9') || slug[i] == '-';
            &&& slug_verdict(slug, reserved) is Ok <==> sound && !reserved.contains(slug)
            &&& !sound ==> slug_verdict(slug, reserved) == Err::<(), Seq<char>>(
                "invalid slug: "@ + slug + " ("@ + "invalid_slug"@ + ")"@,
            )
            &&& sound && reserved.contains(slug) ==> slug_verdict(slug, reserved) == Err::<
                (),
                Seq<char>,
            >("invalid slug: "@ + slug + " ("@ + "reserved_slug"@ + ")"@)
        }),
        slug_input(slug, reserved) matches Ok(given) ==> given == trimmed(slug),
        slug_input(slug, reserved) is Ok <==> slug_verdict(trimmed(slug), reserved) is Ok,
{
    if slug_verdict(slug, reserved) is Ok {
        assert forall|i: int| 0 <= i < slug.len() implies ('a' <= #[trigger] slug[i] && slug[i]
            <= 'z') || ('0' <= slug[i] && slug[i] <= '9') || slug[i] == '-' by {
            assert(is_slug_char(slug[i]));
        }
    }
}

/// Nothing is reserved but `www`, `u` and the service's own label, or `api` where it has none.
pub proof fn law_nothing_else_is_reserved(label: Option<Seq<char>>, slug: Seq<char>)
    requires
        reserved_with(label).contains(slug),
    ensures
        slug == "www"@ || slug == "u"@ || label == Some(slug) || (label is None && slug == "api"@),
{
    let fixed = seq![ALWAYS_RESERVED_LABEL@, UNLISTED_FALLBACK_LABEL@];
    let own = value_or(label, FALLBACK_API_RESERVED_LABEL@);
    let all = reserved_with(label);
    let i = choose|i: int| 0 <= i < all.len() && all[i] == slug;
    assert(all =~= fixed || all =~= fixed.push(own));
}

/// The service's own label is what stands before the first dot of its host, in lower case. The
/// base URL that the service states counts before the one in use.
pub proof fn law_own_label_starts_the_host(
    label: Seq<char>,
    rest: Seq<char>,
    url: UrlParts<Seq<char>>,
    api_base: Seq<char>,
    metadata: ApiMetadata<Seq<char>>,
)
    requires
        !label.contains('.'),
        label.len() > 0,
        !crate::text::is_white_space(label[0]),
        !crate::text::is_white_space(label.last()),
        forall|i: int| 0 <= i < label.len() ==> !('A' <= #[trigger] label[i] <= 'Z'),
    ensures
        url.host == Some(label + seq!['.'] + rest) ==> first_label(Some(url)) == Some(label),
        url.host == Some(label) ==> first_label(Some(url)) == Some(label),
        url.host is None ==> first_label(Some(url)) is None,
        first_label(None) is None,
        api_label(Some(api_base), None) == first_label(url_parts(api_base)),
        cleaned_opt(metadata.api_base) matches Some(stated) ==> (first_label(
            url_parts(stated),
        ) matches Some(own) ==> api_label(Some(api_base), Some(metadata)) == Some(own)),
        cleaned_opt(metadata.api_base) is None ==> api_label(Some(api_base), Some(metadata))
            == first_label(url_parts(api_base)),
{
    let host = label + seq!['.'] + rest;
    let low = lowercase(host);
    assert forall|i: int| 0 <= i < label.len() implies low[i] == label[i] && low[i] != '.' by {
        assert(host[i] == label[i]);
        assert(label.contains(label[i]));
    }
    assert(host[label.len() as int] == '.');
    crate::text::lemma_before_first_is(low, '.', label.len());
    assert(low.take(label.len() as int) =~= label);
    let alone = lowercase(label);
    assert forall|i: int| 0 <= i < label.len() implies alone[i] == label[i] && alone[i] != '.' by {
        assert(label.contains(label[i]));
    }
    crate::text::lemma_before_first_is(alone, '.', label.len());
    assert(alone.take(label.len() as int) =~= label);
    crate::text::law_clean_text_is_its_own_trim(label);
}

} // verus!
