//! Addresses of the service: its base URL, origins, and the paths of requests.
use crate::text::{decimal, outcome, same_text, trim, trimmed};
use vstd::prelude::*;
use vstd::utf8::encode_utf8;

verus! {

pub const INVALID_API_BASE: &'static str =
    "invalid API base URL: expected absolute http(s) URL like https://api.example.com";

pub const API_BASE_WITH_PATH: &'static str =
    "invalid API base URL: do not include path, query, or fragment";

pub const INVALID_HEADER: &'static str = "failed to parse header value";

/// What the library reads of a parsed URL.
#[derive(Debug, PartialEq, Eq)]
pub struct UrlParts<T = String> {
    pub scheme: T,
    pub host: Option<T>,
    pub path: T,
    pub query: Option<T>,
    pub fragment: Option<T>,
    /// The ASCII serialisation of the origin.
    pub origin: T,
}

impl DeepView for UrlParts {
    type V = UrlParts<Seq<char>>;

    open spec fn deep_view(&self) -> UrlParts<Seq<char>> {
        UrlParts {
            scheme: self.scheme@,
            host: self.host.deep_view(),
            path: self.path@,
            query: self.query.deep_view(),
            fragment: self.fragment.deep_view(),
            origin: self.origin@,
        }
    }
}

/// The parts of the absolute URL that `text` is, as the `url` crate reads it; nothing where
/// it rejects `text`.
pub uninterp spec fn url_parts(text: Seq<char>) -> Option<UrlParts<Seq<char>>>;

/// A character that a host can hold: a visible ASCII character other than a slash.
pub open spec fn is_host_char(c: char) -> bool {
    '!' <= c <= '~' && c != '/'
}

/// The origin of a scheme and a host at the scheme's own port.
pub open spec fn origin_at(scheme: Seq<char>, host: Seq<char>) -> Seq<char> {
    scheme + "://"@ + host
}

/// The origin of a scheme and a host at a port.
pub open spec fn origin_at_port(scheme: Seq<char>, host: Seq<char>, port: u16) -> Seq<char> {
    origin_at(scheme, host) + ":"@ + decimal(port as nat)
}

/// The most characters after `xn--` that the URL parser decodes in a label.
pub const MAX_DECODED_LABEL: usize = 2000;

/// Whether a label of the host in an origin is too long to be decoded: it is `xn--` and more
/// characters than the URL parser decodes.
pub open spec fn has_overlong_label(origin: Seq<char>) -> bool {
    exists|i: int|
        0 < i && i + 4 + MAX_DECODED_LABEL < origin.len() && (origin[i - 1] == '/' || origin[i - 1]
            == '.') && #[trigger] origin.subrange(i, i + 4) == "xn--"@ && (forall|j: int|
            i <= j <= i + 4 + MAX_DECODED_LABEL ==> #[trigger] origin[j] != '.' && origin[j] != ':')
}

/// What holds of every parsed `http` or `https` URL: its origin is made of its scheme, its
/// host and the port, unless that is the scheme's own; and such an origin, where no label is
/// too long to be decoded, is the address of its own root.
pub open spec fn is_web_url(url: UrlParts<Seq<char>>) -> bool {
    &&& url.host matches Some(host) && {
        &&& host.len() > 0
        &&& forall|i: int| 0 <= i < host.len() ==> is_host_char(#[trigger] host[i])
        &&& url.origin == origin_at(url.scheme, host) || exists|port: u16|
            url.origin == #[trigger] origin_at_port(url.scheme, host, port)
    }
    &&& !has_overlong_label(url.origin) ==> url_parts(url.origin) == Some(
        UrlParts { path: "/"@, query: None, fragment: None, ..url },
    )
}

/// Calls `reqwest::Url::parse` and, on the URL that it gives, the accessors `scheme`,
/// `host_str`, `path`, `query`, `fragment` and `origin().ascii_serialization()`. It is claimed
/// that the outcome is a function of the text alone, which [`url_parts`] names, and that an
/// `http` or `https` URL has a host without blanks and slashes, an origin made of scheme, host
/// and port, and an origin that parses to the same scheme, host and origin at the root, as the
/// `url` crate has it of every URL that it gives (`Url::check_invariants`). Of a host with a
/// label of `xn--` and more than [`MAX_DECODED_LABEL`] characters the last is left unsaid: the
/// parser gives such a label for a long international one, and does not decode it again.
#[verifier::external_body]
pub(crate) fn parse_url(text: &str) -> (parts: Option<UrlParts>)
    ensures
        parts.deep_view() == url_parts(text@),
        parts.deep_view() matches Some(url) ==> ((url.scheme == "http"@ || url.scheme == "https"@)
            ==> is_web_url(url)),
{
    let url = reqwest::Url::parse(text).ok()?;
    Some(UrlParts {
        scheme: url.scheme().to_string(),
        host: url.host_str().map(|host| host.to_string()),
        path: url.path().to_string(),
        query: url.query().map(|query| query.to_string()),
        fragment: url.fragment().map(|fragment| fragment.to_string()),
        origin: url.origin().ascii_serialization(),
    })
}

/// A byte that stands for itself in a URL: a letter, a digit, or one of `-`, `.`, `_`, `~`.
pub open spec fn is_unreserved(byte: u8) -> bool {
    ||| 48 <= byte <= 57
    ||| 65 <= byte <= 90
    ||| 97 <= byte <= 122
    ||| byte == 45
    ||| byte == 46
    ||| byte == 95
    ||| byte == 126
}

/// The upper case hexadecimal digit for a number below sixteen.
pub open spec fn upper_hex_digit(n: int) -> char {
    if n < 10 {
        (48 + n) as char
    } else {
        (55 + n) as char
    }
}

/// Bytes in percent encoding: an unreserved byte as itself, any other as `%` and its two
/// upper case hexadecimal digits.
pub open spec fn percent_encoded(bytes: Seq<u8>) -> Seq<char>
    decreases bytes.len(),
{
    if bytes.len() == 0 {
        Seq::empty()
    } else {
        let byte = bytes.last();
        percent_encoded(bytes.drop_last()) + if is_unreserved(byte) {
            seq![byte as char]
        } else {
            seq!['%', upper_hex_digit(byte as int / 16), upper_hex_digit(byte as int % 16)]
        }
    }
}

/// Calls `urlencoding::encode`, which percent-encodes every byte of the text's UTF-8 form
/// but the unreserved ones.
#[verifier::external_body]
pub(crate) fn encode(text: &str) -> (encoded: String)
    ensures
        encoded@ == percent_encoded(encode_utf8(text@)),
{
    urlencoding::encode(text).into_owned()
}

/// A byte that a header value can hold: a tab, or anything but a control character.
pub open spec fn is_header_byte(byte: u8) -> bool {
    byte == 9 || (byte >= 32 && byte != 127)
}

/// A text that a header value can hold.
pub open spec fn is_header_text(text: Seq<char>) -> bool {
    forall|i: int| 0 <= i < encode_utf8(text).len() ==> is_header_byte(#[trigger] encode_utf8(text)[i])
}

/// Calls `reqwest::header::HeaderValue::from_str`, which accepts a text whose bytes are all
/// at least 32 and not 127, or tabs, and whose error reads as [`INVALID_HEADER`].
#[verifier::external_body]
fn check_header_value(text: &str) -> (accepted: Result<(), String>)
    ensures
        outcome(accepted) == (if is_header_text(text@) {
            Ok::<(), Seq<char>>(())
        } else {
            Err(INVALID_HEADER@)
        }),
{
    match reqwest::header::HeaderValue::from_str(text) {
        Ok(_) => Ok(()),
        Err(error) => Err(error.to_string()),
    }
}

/// The base URL that parsed parts give: the origin of an `http` or `https` URL that has no
/// path, query or fragment.
pub open spec fn api_base_of(parts: Option<UrlParts<Seq<char>>>) -> Result<Seq<char>, Seq<char>> {
    match parts {
        None => Err(INVALID_API_BASE@),
        Some(url) => if url.scheme != "http"@ && url.scheme != "https"@ {
            Err(INVALID_API_BASE@)
        } else if url.path != "/"@ || url.query is Some || url.fragment is Some {
            Err(API_BASE_WITH_PATH@)
        } else {
            Ok(url.origin)
        },
    }
}

/// The base URL that a user's text gives.
pub open spec fn api_base_from(value: Seq<char>) -> Result<Seq<char>, Seq<char>> {
    if trimmed(value).len() == 0 {
        Err(INVALID_API_BASE@)
    } else {
        api_base_of(url_parts(trimmed(value)))
    }
}

/// The base URL in its normal form: an `http` or `https` address that does not end in a slash
/// and that, where no label of its host is too long to be decoded, gives itself.
pub open spec fn is_normal_api_base(base: Seq<char>) -> bool {
    &&& "http://"@.is_prefix_of(base) || "https://"@.is_prefix_of(base)
    &&& base.last() != '/'
    &&& !has_overlong_label(base) ==> api_base_from(base) == Ok::<Seq<char>, Seq<char>>(base)
}

/// The origin of parsed parts.
pub open spec fn origin_of(parts: Option<UrlParts<Seq<char>>>) -> Option<Seq<char>> {
    match parts {
        Some(url) => Some(url.origin),
        None => None,
    }
}

/// Whether two addresses parsed and have the same origin.
pub open spec fn same_origin(
    upload: Option<UrlParts<Seq<char>>>,
    api: Option<UrlParts<Seq<char>>>,
) -> bool {
    origin_of(upload) is Some && origin_of(upload) == origin_of(api)
}

/// The value of the `authorization` header that carries a token.
pub open spec fn bearer(token: Seq<char>) -> Seq<char> {
    "Bearer "@ + token
}

/// The value of the `authorization` header that carries a token, or the reason why none can.
pub open spec fn bearer_header(token: Seq<char>) -> Result<Seq<char>, Seq<char>> {
    if is_header_text(bearer(token)) {
        Ok(bearer(token))
    } else {
        Err(INVALID_HEADER@)
    }
}

/// The base URL that parsed parts give.
pub fn api_base_of_parts(parts: Option<UrlParts>) -> (base: Result<String, String>)
    ensures
        outcome(base) == api_base_of(parts.deep_view()),
{
    let url = match parts {
        Some(url) => url,
        None => return Err(INVALID_API_BASE.to_string()),
    };
    if !same_text(url.scheme.as_str(), "http") && !same_text(url.scheme.as_str(), "https") {
        return Err(INVALID_API_BASE.to_string());
    }
    if !same_text(url.path.as_str(), "/") || url.query.is_some() || url.fragment.is_some() {
        return Err(API_BASE_WITH_PATH.to_string());
    }
    Ok(url.origin)
}

/// The base URL of the service that a user's text gives: the origin of an absolute `http` or
/// `https` URL without path, query or fragment.
pub fn normalize_api_base(value: &str) -> (base: Result<String, String>)
    ensures
        outcome(base) == api_base_from(value@),
        base matches Ok(normal) ==> is_normal_api_base(normal@),
{
    let text = trim(value);
    if text.is_empty() {
        return Err(INVALID_API_BASE.to_string());
    }
    let parts = parse_url(text);
    proof {
        if api_base_of(parts.deep_view()) is Ok {
            lemma_origin_is_normal(parts.deep_view()->Some_0);
        }
    }
    api_base_of_parts(parts)
}

proof fn lemma_decimal_ends_in_a_digit(n: nat)
    ensures
        decimal(n).len() > 0,
        '0' <= decimal(n).last() <= '9',
{
}

proof fn lemma_origin_is_normal(url: UrlParts<Seq<char>>)
    requires
        url.scheme == "http"@ || url.scheme == "https"@,
        is_web_url(url),
    ensures
        is_normal_api_base(url.origin),
{
    reveal_strlit("http");
    reveal_strlit("https");
    reveal_strlit("://");
    reveal_strlit(":");
    reveal_strlit("http://");
    reveal_strlit("https://");
    let origin = url.origin;
    let host = url.host->Some_0;
    let front = url.scheme + "://"@;
    assert(is_host_char(host.last()));
    if origin != origin_at(url.scheme, host) {
        let port = choose|port: u16|
            origin == #[trigger] origin_at_port(url.scheme, host, port);
        lemma_decimal_ends_in_a_digit(port as nat);
        assert(origin.last() == decimal(port as nat).last());
    }
    assert(front.is_prefix_of(origin)) by {
        assert(origin.take(front.len() as int) =~= front);
    }
    if url.scheme == "http"@ {
        assert(front =~= "http://"@);
    } else {
        assert(front =~= "https://"@);
    }
    crate::text::law_clean_text_is_its_own_trim(origin);
}

/// The origin of a URL.
pub fn parse_origin(value: &str) -> (origin: Option<String>)
    ensures
        origin.deep_view() == origin_of(url_parts(value@)),
{
    match parse_url(value) {
        Some(url) => Some(url.origin),
        None => None,
    }
}

/// Whether two addresses parsed and have the same origin.
pub fn have_same_origin(upload: &Option<UrlParts>, api: &Option<UrlParts>) -> (same: bool)
    ensures
        same == same_origin(upload.deep_view(), api.deep_view()),
{
    match (upload, api) {
        (Some(upload), Some(api)) => same_text(upload.origin.as_str(), api.origin.as_str()),
        _ => false,
    }
}

/// Whether an upload goes to the service itself, and so may carry its token.
pub fn should_attach_api_auth(upload_url: &str, api_base: &str) -> (attach: bool)
    ensures
        attach == same_origin(url_parts(upload_url@), url_parts(api_base@)),
{
    let upload = parse_url(upload_url);
    let api = parse_url(api_base);
    have_same_origin(&upload, &api)
}

/// The value of the `authorization` header that carries a token, or the reason why none can.
pub fn auth_headers(token: &str) -> (header: Result<String, String>)
    ensures
        outcome(header) == bearer_header(token@),
{
    let mut value = "Bearer ".to_string();
    value.append(token);
    match check_header_value(value.as_str()) {
        Ok(()) => Ok(value),
        Err(message) => Err(message),
    }
}

/// A base URL is accepted if and only if it parses as an `http` or `https` address of a root
/// without query and fragment, and is then the origin of that address.
pub proof fn law_api_base_is_a_bare_origin(value: Seq<char>, url: UrlParts<Seq<char>>)
    requires
        url_parts(trimmed(value)) == Some(url),
        trimmed(value).len() > 0,
    ensures
        api_base_from(value) is Ok <==> (url.scheme == "http"@ || url.scheme == "https"@)
            && url.path == "/"@ && url.query is None && url.fragment is None,
        api_base_from(value) matches Ok(base) ==> base == url.origin,
        url.scheme != "http"@ && url.scheme != "https"@ ==> api_base_from(value) == Err::<
            Seq<char>,
            Seq<char>,
        >(INVALID_API_BASE@),
        (url.scheme == "http"@ || url.scheme == "https"@) && api_base_from(value) is Err
            ==> api_base_from(value) == Err::<Seq<char>, Seq<char>>(API_BASE_WITH_PATH@),
{
}

/// What is blank or does not parse is no base URL.
pub proof fn law_no_address_no_base(value: Seq<char>)
    requires
        trimmed(value).len() == 0 || url_parts(trimmed(value)) is None,
    ensures
        api_base_from(value) == Err::<Seq<char>, Seq<char>>(INVALID_API_BASE@),
{
}

/// A header carries the token as it is, behind the word `Bearer`; a token of printable ASCII
/// characters can always be carried.
pub proof fn law_header_carries_the_token(token: Seq<char>)
    ensures
        bearer_header(token) matches Ok(header) ==> header == "Bearer "@ + token,
        bearer_header(token) matches Err(message) ==> message == "failed to parse header value"@,
        (forall|i: int| 0 <= i < token.len() ==> ' ' <= #[trigger] token[i] <= '~')
            ==> bearer_header(token) is Ok,
{
    if forall|i: int| 0 <= i < token.len() ==> ' ' <= #[trigger] token[i] <= '~' {
        let value = bearer(token);
        reveal_strlit("Bearer ");
        assert forall|i: int| 0 <= i < value.len() implies ' ' <= #[trigger] value[i] <= '~' by {
            if i >= 7 {
                assert(value[i] == token[i - 7]);
            }
        }
        vstd::utf8::is_ascii_chars_encode_utf8(value);
        assert(encode_utf8(value) =~= Seq::new(value.len(), |i: int| value[i] as u8));
        assert forall|i: int| 0 <= i < encode_utf8(value).len() implies is_header_byte(
            #[trigger] encode_utf8(value)[i],
        ) by {
            assert(' ' <= value[i] <= '~');
        }
    }
}

/// Two addresses are of one origin if and only if both parse and their origins are the same.
pub proof fn law_one_origin(
    one: UrlParts<Seq<char>>,
    other: UrlParts<Seq<char>>,
    parts: Option<UrlParts<Seq<char>>>,
)
    ensures
        same_origin(Some(one), Some(other)) <==> one.origin == other.origin,
        !same_origin(None, parts),
        !same_origin(parts, None),
        same_origin(Some(one), Some(other)) == same_origin(Some(other), Some(one)),
{
}

} // verus!
