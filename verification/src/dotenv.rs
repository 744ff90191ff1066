//! The `.env` file, as far as it gives the credentials of a protected site.
use crate::text::{
    before_first, chars_of, copy_range, find_char, is_white_space, is_whitespace,
    law_clean_text_is_its_own_trim, lemma_before_first_is, lines, lines_of, same_text, string_of,
    trim, trim_end, trimmed, trimmed_end,
};
use vstd::prelude::*;

verus! {

pub const BASIC_AUTH_USERNAME_ENV: &'static str = "CFSURGE_BASIC_AUTH_USERNAME";

pub const BASIC_AUTH_PASSWORD_ENV: &'static str = "CFSURGE_BASIC_AUTH_PASSWORD";

/// The credentials that a `.env` file assigns.
#[derive(Debug, PartialEq, Eq)]
pub struct DotenvCredentials<T = String> {
    pub username: Option<T>,
    pub password: Option<T>,
}

impl DeepView for DotenvCredentials {
    type V = DotenvCredentials<Seq<char>>;

    open spec fn deep_view(&self) -> DotenvCredentials<Seq<char>> {
        DotenvCredentials {
            username: self.username.deep_view(),
            password: self.password.deep_view(),
        }
    }
}

pub open spec fn is_key_start(c: char) -> bool {
    'a' <= c <= 'z' || 'A' <= c <= 'Z' || c == '_'
}

pub open spec fn is_key_char(c: char) -> bool {
    is_key_start(c) || '0' <= c <= '9'
}

/// A variable name: a letter or underscore, then letters, digits and underscores.
pub open spec fn is_key(key: Seq<char>) -> bool {
    &&& key.len() > 0
    &&& is_key_start(key[0])
    &&& forall|i: int| 0 <= i < key.len() ==> is_key_char(#[trigger] key[i])
}

/// The name on the left of an assignment, without an `export` before it.
pub open spec fn key_of(left: Seq<char>) -> Seq<char> {
    let name = trimmed(left);
    if "export "@.is_prefix_of(name) {
        trimmed(name.skip("export "@.len() as int))
    } else {
        name
    }
}

/// What follows a closing quote may be nothing or a comment.
pub open spec fn is_blank_or_comment(text: Seq<char>) -> bool {
    trimmed(text).len() == 0 || trimmed(text)[0] == '#'
}

/// How many backslashes stand directly before position `index`.
pub open spec fn slashes_before(text: Seq<char>, index: int) -> nat
    decreases index,
{
    if 0 < index <= text.len() && text[index - 1] == '\\' {
        1 + slashes_before(text, index - 1)
    } else {
        0
    }
}

/// A character is escaped by an odd number of backslashes before it.
pub open spec fn is_escaped(text: Seq<char>, index: int) -> bool {
    slashes_before(text, index) % 2 == 1
}

/// A quotation mark that is not escaped.
pub open spec fn is_closing_quote(text: Seq<char>, index: int) -> bool {
    text[index] == '"' && !is_escaped(text, index)
}

/// The first closing quote at or after `from`; the length of the text where there is none.
pub open spec fn closing_quote(text: Seq<char>, from: int) -> int
    decreases text.len() - from,
{
    if from >= text.len() {
        text.len() as int
    } else if is_closing_quote(text, from) {
        from
    } else {
        closing_quote(text, from + 1)
    }
}

/// The character that a backslash and `c` stand for.
pub open spec fn escape_meaning(c: char) -> Option<char> {
    if c == 'n' {
        Some('\n')
    } else if c == 'r' {
        Some('\r')
    } else if c == 't' {
        Some('\t')
    } else if c == '"' {
        Some('"')
    } else if c == '\\' {
        Some('\\')
    } else {
        None
    }
}

/// The text with its escapes replaced by what they stand for. A backslash that starts no
/// escape stands for itself.
pub open spec fn unescaped(text: Seq<char>) -> Seq<char>
    decreases text.len(),
{
    if text.len() == 0 {
        Seq::empty()
    } else if text[0] == '\\' && text.len() > 1 && escape_meaning(text[1]) is Some {
        seq![escape_meaning(text[1])->0] + unescaped(text.skip(2))
    } else {
        seq![text[0]] + unescaped(text.skip(1))
    }
}

/// A number sign that starts a comment: at the start, or after white space.
pub open spec fn is_comment_start(text: Seq<char>, index: int) -> bool {
    text[index] == '#' && (index == 0 || is_white_space(text[index - 1]))
}

/// The first comment start at or after `from`; the length of the text where there is none.
pub open spec fn comment_start(text: Seq<char>, from: int) -> int
    decreases text.len() - from,
{
    if from >= text.len() {
        text.len() as int
    } else if is_comment_start(text, from) {
        from
    } else {
        comment_start(text, from + 1)
    }
}

/// An unquoted value without the comment that ends it.
pub open spec fn without_comment(text: Seq<char>) -> Seq<char> {
    let end = comment_start(text, 0);
    if end < text.len() {
        trimmed_end(text.take(end))
    } else {
        text
    }
}

/// The value of a text whose first character is a single quote: what stands before the next
/// one, if nothing but a comment follows that.
pub open spec fn single_quoted(text: Seq<char>) -> Option<Seq<char>> {
    let inner = text.skip(1);
    let end = before_first(inner, '\'') as int;
    if end >= inner.len() || !is_blank_or_comment(inner.skip(end + 1)) {
        None
    } else {
        Some(inner.take(end))
    }
}

/// The value of a text whose first character is a double quote: what stands before the
/// closing quote, unescaped, if nothing but a comment follows that.
pub open spec fn double_quoted(text: Seq<char>) -> Option<Seq<char>> {
    let end = closing_quote(text, 1);
    if end >= text.len() || !is_blank_or_comment(text.skip(end + 1)) {
        None
    } else {
        Some(unescaped(text.subrange(1, end)))
    }
}

/// The value on the right of an assignment.
pub open spec fn value_of(right: Seq<char>) -> Option<Seq<char>> {
    let text = trimmed(right);
    if text.len() == 0 {
        Some(Seq::empty())
    } else if text[0] == '"' {
        double_quoted(text)
    } else if text[0] == '\'' {
        single_quoted(text)
    } else {
        Some(without_comment(text))
    }
}

/// The assignment that a line makes, if it makes one.
pub open spec fn assignment(line: Seq<char>) -> Option<(Seq<char>, Seq<char>)> {
    let equals = before_first(line, '=') as int;
    if trimmed(line).len() == 0 || trimmed(line)[0] == '#' {
        None
    } else if equals >= line.len() || equals == 0 {
        None
    } else if !is_key(key_of(line.take(equals))) {
        None
    } else {
        match value_of(line.skip(equals + 1)) {
            Some(value) => Some((key_of(line.take(equals)), value)),
            None => None,
        }
    }
}

/// The value that the last assignment to `key` in these lines gives it.
pub open spec fn last_assigned(lines: Seq<Seq<char>>, key: Seq<char>) -> Option<Seq<char>>
    decreases lines.len(),
{
    if lines.len() == 0 {
        None
    } else {
        match assignment(lines.last()) {
            Some((name, value)) if name == key => Some(value),
            _ => last_assigned(lines.drop_last(), key),
        }
    }
}

/// The credentials that a `.env` file assigns.
pub open spec fn dotenv_credentials(raw: Seq<char>) -> DotenvCredentials<Seq<char>> {
    DotenvCredentials {
        username: last_assigned(lines_of(raw), BASIC_AUTH_USERNAME_ENV@),
        password: last_assigned(lines_of(raw), BASIC_AUTH_PASSWORD_ENV@),
    }
}

/// Whether a text is a variable name.
pub fn is_valid_dotenv_key(key: &str) -> (valid: bool)
    ensures
        valid == is_key(key@),
{
    let chars = chars_of(key);
    if chars.len() == 0 {
        return false;
    }
    let first = chars[0];
    if !(('a' <= first && first <= 'z') || ('A' <= first && first <= 'Z') || first == '_') {
        return false;
    }
    for i in 0..chars.len()
        invariant
            chars@ == key@,
            forall|j: int| 0 <= j < i ==> is_key_char(#[trigger] key@[j]),
    {
        let c = chars[i];
        if !(('a' <= c && c <= 'z') || ('A' <= c && c <= 'Z') || c == '_' || ('0' <= c && c <= '9')) {
            assert(!is_key_char(key@[i as int]));
            return false;
        }
    }
    true
}

/// Whether the character at `index` is escaped by an odd number of backslashes before it.
pub fn is_escaped_dotenv_character(value: &[char], index: usize) -> (escaped: bool)
    requires
        index <= value@.len(),
    ensures
        escaped == is_escaped(value@, index as int),
{
    let mut cursor: usize = index;
    let mut odd = false;
    while cursor > 0 && value[cursor - 1] == '\\'
        invariant
            cursor <= index <= value@.len(),
            slashes_before(value@, index as int) == slashes_before(value@, cursor as int) + (index
                - cursor),
            odd == ((index - cursor) % 2 == 1),
        decreases cursor,
    {
        cursor -= 1;
        odd = !odd;
    }
    odd
}

/// The text with its escapes replaced by what they stand for.
pub fn unescape_double_quoted_dotenv_value(value: &str) -> (text: String)
    ensures
        text@ == unescaped(value@),
{
    let chars = chars_of(value);
    let mut out = String::new();
    let mut i: usize = 0;
    assert(value@.skip(0) =~= value@);
    assert(out@ + unescaped(value@) =~= unescaped(value@));
    while i < chars.len()
        invariant
            chars@ == value@,
            i <= chars.len(),
            out@ + unescaped(value@.skip(i as int)) == unescaped(value@),
        decreases chars.len() - i,
    {
        let ghost before = out@;
        let ghost rest = value@.skip(i as int);
        assert(rest[0] == value@[i as int]);
        let c = chars[i];
        let meaning = if c == '\\' && i + 1 < chars.len() {
            assert(rest[1] == value@[i + 1]);
            let next = chars[i + 1];
            if next == 'n' {
                Some('\n')
            } else if next == 'r' {
                Some('\r')
            } else if next == 't' {
                Some('\t')
            } else if next == '"' {
                Some('"')
            } else if next == '\\' {
                Some('\\')
            } else {
                None
            }
        } else {
            None
        };
        match meaning {
            Some(meant) => {
                out.push(meant);
                assert(rest.skip(2) =~= value@.skip(i + 2));
                assert(out@ + unescaped(value@.skip(i + 2)) =~= before + unescaped(rest));
                i += 2;
            },
            None => {
                out.push(c);
                assert(rest.skip(1) =~= value@.skip(i + 1));
                assert(out@ + unescaped(value@.skip(i + 1)) =~= before + unescaped(rest));
                i += 1;
            },
        }
    }
    assert(value@.skip(i as int) =~= Seq::<char>::empty());
    assert(out@ + unescaped(Seq::<char>::empty()) =~= out@);
    out
}

/// An unquoted value without the comment that ends it.
pub fn strip_trailing_dotenv_comment(value: &str) -> (text: String)
    ensures
        text@ == without_comment(value@),
{
    let chars = chars_of(value);
    let mut i: usize = 0;
    while i < chars.len()
        invariant
            chars@ == value@,
            i <= chars.len(),
            comment_start(value@, 0) == comment_start(value@, i as int),
        decreases chars.len() - i,
    {
        if chars[i] == '#' && (i == 0 || is_whitespace(chars[i - 1])) {
            let front = copy_range(chars.as_slice(), 0, i);
            assert(front@ =~= value@.take(i as int));
            return trim_end(string_of(front.as_slice()).as_str()).to_string();
        }
        i += 1;
    }
    value.to_string()
}

/// Whether what follows a closing quote is nothing or a comment.
fn closes_cleanly(chars: &[char], from: usize) -> (clean: bool)
    requires
        from <= chars@.len(),
    ensures
        clean == is_blank_or_comment(chars@.skip(from as int)),
{
    let rest = copy_range(chars, from, chars.len());
    assert(rest@ =~= chars@.skip(from as int));
    let text = string_of(rest.as_slice());
    let trailing = trim(text.as_str());
    trailing.is_empty() || trailing.get_char(0) == '#'
}

/// The value of a text whose first character is a single quote.
pub fn parse_single_quoted_dotenv_value(value: &str) -> (parsed: Option<String>)
    requires
        value@.len() > 0,
        (value@[0] as u32) < 128,
    ensures
        parsed.deep_view() == single_quoted(value@),
{
    let chars = chars_of(value);
    let inner = copy_range(chars.as_slice(), 1, chars.len());
    assert(inner@ =~= value@.skip(1));
    let end = find_char(inner.as_slice(), '\'');
    if end >= inner.len() || !closes_cleanly(inner.as_slice(), end + 1) {
        return None;
    }
    let quoted = copy_range(inner.as_slice(), 0, end);
    assert(quoted@ =~= inner@.take(end as int));
    Some(string_of(quoted.as_slice()))
}

/// The value of a text whose first character is a double quote.
pub fn parse_double_quoted_dotenv_value(value: &str) -> (parsed: Option<String>)
    requires
        double_quoted(value@) is Some ==> (value@[0] as u32) < 128,
    ensures
        parsed.deep_view() == double_quoted(value@),
{
    let chars = chars_of(value);
    let mut end: usize = 1;
    while end < chars.len()
        invariant
            chars@ == value@,
            1 <= end,
            closing_quote(value@, 1) == closing_quote(value@, end as int),
        decreases chars.len() - end,
    {
        if chars[end] == '"' && !is_escaped_dotenv_character(chars.as_slice(), end) {
            if !closes_cleanly(chars.as_slice(), end + 1) {
                return None;
            }
            let quoted = copy_range(chars.as_slice(), 1, end);
            let text = string_of(quoted.as_slice());
            return Some(unescape_double_quoted_dotenv_value(text.as_str()));
        }
        end += 1;
    }
    None
}

/// The value on the right of an assignment.
pub fn parse_dotenv_value(raw_value: &str) -> (parsed: Option<String>)
    ensures
        parsed.deep_view() == value_of(raw_value@),
{
    let value = trim(raw_value);
    if value.is_empty() {
        let empty = String::new();
        assert(empty@ =~= Seq::<char>::empty());
        return Some(empty);
    }
    let first = value.get_char(0);
    if first == '"' {
        return parse_double_quoted_dotenv_value(value);
    }
    if first == '\'' {
        return parse_single_quoted_dotenv_value(value);
    }
    Some(strip_trailing_dotenv_comment(value))
}

/// The name on the left of an assignment, without an `export` before it.
fn parse_key(left: &str) -> (key: String)
    ensures
        key@ == key_of(left@),
{
    let name = trim(left);
    let length = name.unicode_len();
    if length >= 7 {
        let prefix = name.substring_char(0, 7);
        let found = same_text(prefix, "export ");
        proof {
            reveal_strlit("export ");
            assert(prefix@ =~= name@.take(7));
            assert("export "@.len() == 7);
            assert(found ==> "export "@.is_prefix_of(name@));
            assert("export "@.is_prefix_of(name@) ==> prefix@ =~= "export "@);
        }
        if found {
            let rest = name.substring_char(7, length);
            assert(rest@ =~= name@.skip(7));
            return trim(rest).to_string();
        }
    } else {
        proof {
            reveal_strlit("export ");
        }
    }
    name.to_string()
}

/// The assignment that a line makes, if it makes one.
pub fn parse_dotenv_line(line: &str) -> (parsed: Option<(String, String)>)
    ensures
        parsed.deep_view() == assignment(line@),
{
    let content = trim(line);
    if content.is_empty() || content.get_char(0) == '#' {
        return None;
    }
    let chars = chars_of(line);
    let equals = find_char(chars.as_slice(), '=');
    if equals >= chars.len() || equals == 0 {
        return None;
    }
    let left = copy_range(chars.as_slice(), 0, equals);
    assert(left@ =~= line@.take(equals as int));
    let key = parse_key(string_of(left.as_slice()).as_str());
    if !is_valid_dotenv_key(key.as_str()) {
        return None;
    }
    let right = copy_range(chars.as_slice(), equals + 1, chars.len());
    assert(right@ =~= line@.skip(equals + 1));
    match parse_dotenv_value(string_of(right.as_slice()).as_str()) {
        Some(value) => Some((key, value)),
        None => None,
    }
}

/// The credentials that a `.env` file assigns.
pub fn parse_dotenv_for_basic_auth(raw: &str) -> (parsed: DotenvCredentials)
    ensures
        parsed.deep_view() == dotenv_credentials(raw@),
{
    let rows = lines(raw);
    let mut username: Option<String> = None;
    let mut password: Option<String> = None;
    for i in 0..rows.len()
        invariant
            rows.deep_view() == lines_of(raw@),
            username.deep_view() == last_assigned(
                lines_of(raw@).take(i as int),
                BASIC_AUTH_USERNAME_ENV@,
            ),
            password.deep_view() == last_assigned(
                lines_of(raw@).take(i as int),
                BASIC_AUTH_PASSWORD_ENV@,
            ),
    {
        proof {
            let grown = lines_of(raw@).take(i + 1);
            assert(grown.drop_last() =~= lines_of(raw@).take(i as int));
            assert(grown.last() == rows.deep_view()[i as int]);
            reveal_strlit("CFSURGE_BASIC_AUTH_USERNAME");
            reveal_strlit("CFSURGE_BASIC_AUTH_PASSWORD");
            assert(BASIC_AUTH_USERNAME_ENV@[19] != BASIC_AUTH_PASSWORD_ENV@[19]);
        }
        if let Some((key, value)) = parse_dotenv_line(rows[i].as_str()) {
            if same_text(key.as_str(), BASIC_AUTH_USERNAME_ENV) {
                username = Some(value);
            } else if same_text(key.as_str(), BASIC_AUTH_PASSWORD_ENV) {
                password = Some(value);
            }
        }
    }
    assert(lines_of(raw@).take(rows.deep_view().len() as int) =~= lines_of(raw@));
    DotenvCredentials { username, password }
}

/// A value between single quotes.
pub open spec fn in_single_quotes(value: Seq<char>) -> Seq<char> {
    seq!['\''] + value + seq!['\'']
}

/// How a character is written between double quotes.
pub open spec fn escape(c: char) -> Seq<char> {
    if c == '\n' {
        seq!['\\', 'n']
    } else if c == '\r' {
        seq!['\\', 'r']
    } else if c == '\t' {
        seq!['\\', 't']
    } else if c == '"' || c == '\\' {
        seq!['\\', c]
    } else {
        seq![c]
    }
}

/// A value with the characters escaped that stand for something else between double quotes.
pub open spec fn escaped_text(value: Seq<char>) -> Seq<char>
    decreases value.len(),
{
    if value.len() == 0 {
        Seq::empty()
    } else {
        escaped_text(value.drop_last()) + escape(value.last())
    }
}

/// A value between double quotes.
pub open spec fn in_double_quotes(value: Seq<char>) -> Seq<char> {
    seq!['"'] + escaped_text(value) + seq!['"']
}

/// The line that gives `key` a value that is written as `right`.
pub open spec fn assignment_line(key: Seq<char>, right: Seq<char>) -> Seq<char> {
    key + seq!['='] + right
}

proof fn lemma_assignment_line(key: Seq<char>, right: Seq<char>)
    requires
        is_key(key),
        right.len() > 0,
        !is_white_space(right[0]),
        !is_white_space(right.last()),
    ensures
        assignment(assignment_line(key, right)) == (match value_of(right) {
            Some(value) => Some((key, value)),
            None => None,
        }),
        trimmed(right) == right,
{
    let line = assignment_line(key, right);
    assert(is_key_char(key[0]));
    assert(line[0] == key[0]);
    assert(line.last() == right.last());
    law_clean_text_is_its_own_trim(line);
    law_clean_text_is_its_own_trim(right);
    assert forall|i: int| 0 <= i < key.len() implies line[i] != '=' by {
        assert(is_key_char(key[i]));
        assert(line[i] == key[i]);
    }
    assert(line[key.len() as int] == '=');
    lemma_before_first_is(line, '=', key.len());
    assert(line.take(key.len() as int) =~= key);
    assert(line.skip(key.len() as int + 1) =~= right);
    assert(is_key_char(key[key.len() - 1]));
    law_clean_text_is_its_own_trim(key);
    reveal_strlit("export ");
    if "export "@.is_prefix_of(key) {
        assert(is_key_char(key[6]));
        assert(key[6] == "export "@[6]);
    }
}

/// A value without a single quote reads back as it is from between single quotes.
pub proof fn law_single_quoted_value_reads_back(key: Seq<char>, value: Seq<char>)
    requires
        is_key(key),
        !value.contains('\''),
    ensures
        assignment(assignment_line(key, in_single_quotes(value))) == Some((key, value)),
{
    let right = in_single_quotes(value);
    lemma_assignment_line(key, right);
    let inner = right.skip(1);
    assert forall|i: int| 0 <= i < value.len() implies inner[i] != '\'' by {
        assert(inner[i] == value[i]);
        assert(value.contains(value[i]));
    }
    assert(inner[value.len() as int] == '\'');
    lemma_before_first_is(inner, '\'', value.len());
    assert(inner.skip(value.len() as int + 1) =~= Seq::<char>::empty());
    assert(inner.take(value.len() as int) =~= value);
}

proof fn lemma_slashes_depend_on_front(a: Seq<char>, b: Seq<char>, index: int)
    requires
        0 <= index <= a.len(),
        index <= b.len(),
        forall|i: int| 0 <= i < index ==> a[i] == b[i],
    ensures
        slashes_before(a, index) == slashes_before(b, index),
    decreases index,
{
    if index > 0 {
        assert(a[index - 1] == b[index - 1]);
        lemma_slashes_depend_on_front(a, b, index - 1);
    }
}

/// Inside an escaped value every quotation mark is escaped, and what follows the value is not.
proof fn lemma_escaped_text_holds_no_closing_quote(value: Seq<char>)
    ensures
        ({
            let text = seq!['"'] + escaped_text(value);
            &&& slashes_before(text, text.len() as int) % 2 == 0
            &&& forall|i: int| 1 <= i < text.len() ==> !#[trigger] is_closing_quote(text, i)
        }),
    decreases value.len(),
{
    let text = seq!['"'] + escaped_text(value);
    if value.len() == 0 {
        assert(text =~= seq!['"']);
    } else {
        let front = seq!['"'] + escaped_text(value.drop_last());
        let unit = escape(value.last());
        lemma_escaped_text_holds_no_closing_quote(value.drop_last());
        assert(text =~= front + unit);
        let n = front.len() as int;
        lemma_slashes_depend_on_front(text, front, n);
        reveal_with_fuel(slashes_before, 3);
        assert(text[n] == unit[0]);
        if unit.len() == 2 {
            assert(text[n + 1] == unit[1]);
        }
        assert forall|i: int| 1 <= i < text.len() implies !#[trigger] is_closing_quote(text, i) by {
            if i < n {
                lemma_slashes_depend_on_front(text, front, i);
                assert(!is_closing_quote(front, i));
            }
        }
    }
}

proof fn lemma_closing_quote_is(text: Seq<char>, from: int, end: int)
    requires
        0 <= from <= end < text.len(),
        is_closing_quote(text, end),
        forall|i: int| from <= i < end ==> !#[trigger] is_closing_quote(text, i),
    ensures
        closing_quote(text, from) == end,
    decreases end - from,
{
    if from < end {
        assert(!is_closing_quote(text, from));
        lemma_closing_quote_is(text, from + 1, end);
    }
}

proof fn lemma_unescaped_unit(c: char, rest: Seq<char>)
    ensures
        unescaped(escape(c) + rest) == seq![c] + unescaped(rest),
{
    let text = escape(c) + rest;
    if escape(c).len() == 2 {
        assert(text.skip(2) =~= rest);
        assert(text[0] == '\\' && text[1] == escape(c)[1]);
    } else {
        assert(text.skip(1) =~= rest);
        assert(text[0] == c);
    }
}

proof fn lemma_unescaping_undoes_escaping(value: Seq<char>, rest: Seq<char>)
    ensures
        unescaped(escaped_text(value) + rest) == value + unescaped(rest),
    decreases value.len(),
{
    if value.len() == 0 {
        assert(escaped_text(value) + rest =~= rest);
        assert(value + unescaped(rest) =~= unescaped(rest));
    } else {
        let front = value.drop_last();
        let c = value.last();
        assert(escaped_text(value) + rest =~= escaped_text(front) + (escape(c) + rest));
        lemma_unescaping_undoes_escaping(front, escape(c) + rest);
        lemma_unescaped_unit(c, rest);
        assert(front + (seq![c] + unescaped(rest)) =~= value + unescaped(rest));
    }
}

/// Any value reads back as it is from between double quotes, where line ends, tabs,
/// quotation marks and backslashes are escaped.
pub proof fn law_double_quoted_value_reads_back(key: Seq<char>, value: Seq<char>)
    requires
        is_key(key),
    ensures
        assignment(assignment_line(key, in_double_quotes(value))) == Some((key, value)),
{
    let right = in_double_quotes(value);
    lemma_assignment_line(key, right);
    let text = seq!['"'] + escaped_text(value);
    let end = text.len() as int;
    lemma_escaped_text_holds_no_closing_quote(value);
    lemma_slashes_depend_on_front(right, text, end);
    assert forall|i: int| 1 <= i < end implies !#[trigger] is_closing_quote(right, i) by {
        lemma_slashes_depend_on_front(right, text, i);
        assert(!is_closing_quote(text, i));
        assert(right[i] == text[i]);
    }
    assert(right[end] == '"');
    lemma_closing_quote_is(right, 1, end);
    assert(right.skip(end + 1) =~= Seq::<char>::empty());
    assert(right.subrange(1, end) =~= escaped_text(value));
    lemma_unescaping_undoes_escaping(value, Seq::empty());
    assert(escaped_text(value) + Seq::<char>::empty() =~= escaped_text(value));
    assert(value + unescaped(Seq::<char>::empty()) =~= value);
}

/// A later assignment to a variable takes the place of an earlier one, and an assignment to
/// another variable leaves it alone.
pub proof fn law_last_assignment_wins(
    lines: Seq<Seq<char>>,
    line: Seq<char>,
    key: Seq<char>,
)
    ensures
        last_assigned(lines.push(line), key) == (match assignment(line) {
            Some((name, value)) if name == key => Some(value),
            _ => last_assigned(lines, key),
        }),
{
    assert(lines.push(line).drop_last() =~= lines);
}

proof fn lemma_no_comment(text: Seq<char>, from: int)
    requires
        0 <= from <= text.len(),
        forall|i: int| from <= i < text.len() ==> !#[trigger] is_comment_start(text, i),
    ensures
        comment_start(text, from) == text.len(),
    decreases text.len() - from,
{
    if from < text.len() {
        lemma_no_comment(text, from + 1);
    }
}

proof fn lemma_comment_start_is(text: Seq<char>, from: int, end: int)
    requires
        0 <= from <= end < text.len(),
        is_comment_start(text, end),
        forall|i: int| from <= i < end ==> !#[trigger] is_comment_start(text, i),
    ensures
        comment_start(text, from) == end,
    decreases end - from,
{
    if from < end {
        lemma_comment_start_is(text, from + 1, end);
    }
}

/// A value without quotes reads back as it is, and a comment behind white space is left out.
pub proof fn law_plain_value_reads_back(key: Seq<char>, value: Seq<char>, comment: Seq<char>)
    requires
        is_key(key),
        value.len() > 0,
        !is_white_space(value[0]),
        !is_white_space(value.last()),
        !value.contains('#'),
        value[0] != '"',
        value[0] != '\'',
        comment.len() > 0,
        !is_white_space(comment.last()),
    ensures
        assignment(assignment_line(key, value)) == Some((key, value)),
        assignment(assignment_line(key, value + seq![' ', '#'] + comment)) == Some((key, value)),
{
    lemma_assignment_line(key, value);
    assert forall|i: int| 0 <= i < value.len() implies !#[trigger] is_comment_start(value, i) by {
        assert(value.contains(value[i]));
    }
    lemma_no_comment(value, 0);
    let right = value + seq![' ', '#'] + comment;
    assert(right[0] == value[0]);
    assert(right.last() == comment.last());
    lemma_assignment_line(key, right);
    let end = value.len() as int + 1;
    assert(right[end] == '#');
    assert(right[end - 1] == ' ');
    assert forall|i: int| 0 <= i < end implies !#[trigger] is_comment_start(right, i) by {
        if i < value.len() {
            assert(right[i] == value[i]);
            assert(value.contains(value[i]));
        }
    }
    lemma_comment_start_is(right, 0, end);
    let kept = right.take(end);
    assert(kept =~= value.push(' '));
    assert(kept.drop_last() =~= value);
    assert(trimmed_end(kept) == trimmed_end(value));
}

/// A line that is blank, that starts with a number sign, or that has no equals sign assigns
/// nothing, and neither does one whose left side is no variable name.
pub proof fn law_other_lines_assign_nothing(line: Seq<char>)
    ensures
        trimmed(line).len() == 0 ==> assignment(line) is None,
        trimmed(line).len() > 0 && trimmed(line)[0] == '#' ==> assignment(line) is None,
        !line.contains('=') ==> assignment(line) is None,
        assignment(line) matches Some((key, _)) ==> {
            &&& key.len() > 0
            &&& !('0' <= key[0] <= '9')
            &&& forall|i: int|
                0 <= i < key.len() ==> 'a' <= #[trigger] key[i] <= 'z' || 'A' <= key[i] <= 'Z' || '0'
                    <= key[i] <= '9' || key[i] == '_'
        },
{
    if !line.contains('=') {
        crate::text::lemma_before_first(line, '=');
    }
    if let Some((key, _)) = assignment(line) {
        assert forall|i: int| 0 <= i < key.len() implies 'a' <= #[trigger] key[i] <= 'z' || 'A'
            <= key[i] <= 'Z' || '0' <= key[i] <= '9' || key[i] == '_' by {
            assert(is_key_char(key[i]));
        }
    }
}

/// An `export` before the variable changes nothing.
pub proof fn law_export_is_left_out(key: Seq<char>, right: Seq<char>)
    requires
        is_key(key),
        right.len() > 0,
        !is_white_space(right[0]),
        !is_white_space(right.last()),
    ensures
        assignment("export "@ + assignment_line(key, right)) == assignment(
            assignment_line(key, right),
        ),
{
    reveal_strlit("export ");
    lemma_assignment_line(key, right);
    let left = "export "@ + key;
    let line = "export "@ + assignment_line(key, right);
    assert(line =~= left + seq!['='] + right);
    assert(line[0] == 'e');
    assert(line.last() == right.last());
    law_clean_text_is_its_own_trim(line);
    assert forall|i: int| 0 <= i < left.len() implies line[i] != '=' by {
        if i >= 7 {
            assert(line[i] == key[i - 7]);
            assert(is_key_char(key[i - 7]));
        } else {
            assert(line[i] == "export "@[i]);
        }
    }
    assert(line[left.len() as int] == '=');
    lemma_before_first_is(line, '=', left.len());
    assert(line.take(left.len() as int) =~= left);
    assert(line.skip(left.len() as int + 1) =~= right);
    assert(is_key_char(key[0]));
    assert(is_key_char(key[key.len() - 1]));
    assert(left[0] == 'e');
    assert(left.last() == key.last());
    law_clean_text_is_its_own_trim(left);
    law_clean_text_is_its_own_trim(key);
    assert("export "@.is_prefix_of(left)) by {
        assert(left.subrange(0, 7) =~= "export "@);
    }
    assert(left.skip(7) =~= key);
}

/// The user name and the password are what the last lines about them assign, each to its own.
pub proof fn law_credentials_are_what_is_assigned(
    raw: Seq<char>,
    lines: Seq<Seq<char>>,
    username: Seq<char>,
    password: Seq<char>,
)
    requires
        !username.contains('\''),
        !password.contains('\''),
        lines_of(raw) == lines.push(
            "CFSURGE_BASIC_AUTH_USERNAME="@ + in_single_quotes(username),
        ).push("CFSURGE_BASIC_AUTH_PASSWORD="@ + in_single_quotes(password)),
    ensures
        dotenv_credentials(raw).username == Some(username),
        dotenv_credentials(raw).password == Some(password),
{
    let first = "CFSURGE_BASIC_AUTH_USERNAME"@;
    let second = "CFSURGE_BASIC_AUTH_PASSWORD"@;
    reveal_strlit("CFSURGE_BASIC_AUTH_USERNAME");
    reveal_strlit("CFSURGE_BASIC_AUTH_PASSWORD");
    reveal_strlit("CFSURGE_BASIC_AUTH_USERNAME=");
    reveal_strlit("CFSURGE_BASIC_AUTH_PASSWORD=");
    assert("CFSURGE_BASIC_AUTH_USERNAME="@ =~= first + seq!['=']);
    assert("CFSURGE_BASIC_AUTH_PASSWORD="@ =~= second + seq!['=']);
    assert(first[19] == 'U');
    assert(second[19] == 'P');
    law_single_quoted_value_reads_back(first, username);
    law_single_quoted_value_reads_back(second, password);
    let one = "CFSURGE_BASIC_AUTH_USERNAME="@ + in_single_quotes(username);
    let two = "CFSURGE_BASIC_AUTH_PASSWORD="@ + in_single_quotes(password);
    assert(one =~= assignment_line(first, in_single_quotes(username)));
    assert(two =~= assignment_line(second, in_single_quotes(password)));
    law_last_assignment_wins(lines, one, first);
    law_last_assignment_wins(lines.push(one), two, first);
    law_last_assignment_wins(lines.push(one), two, second);
}

/// A quoted value ends with its closing quote: without one, or with anything but a comment
/// behind it, a line assigns nothing.
pub proof fn law_quotes_have_to_be_closed(key: Seq<char>, value: Seq<char>, rest: Seq<char>)
    requires
        is_key(key),
        !value.contains('\''),
        value.len() == 0 || !is_white_space(value.last()),
        rest.len() > 0,
        !is_white_space(rest[0]),
        !is_white_space(rest.last()),
    ensures
        assignment(assignment_line(key, seq!['\''] + value)) is None,
        rest[0] != '#' ==> assignment(assignment_line(key, in_single_quotes(value) + rest)) is None,
        rest[0] == '#' ==> assignment(assignment_line(key, in_single_quotes(value) + rest)) == Some(
            (key, value),
        ),
{
    let open = seq!['\''] + value;
    assert(open.last() == if value.len() == 0 {
        '\''
    } else {
        value.last()
    });
    lemma_assignment_line(key, open);
    let inner = open.skip(1);
    assert(inner =~= value);
    crate::text::lemma_before_first(inner, '\'');
    if before_first(inner, '\'') < inner.len() {
        assert(value.contains(inner[before_first(inner, '\'') as int]));
    }
    let right = in_single_quotes(value) + rest;
    assert(right.last() == rest.last());
    lemma_assignment_line(key, right);
    let quoted = right.skip(1);
    assert forall|i: int| 0 <= i < value.len() implies quoted[i] != '\'' by {
        assert(quoted[i] == value[i]);
        assert(value.contains(value[i]));
    }
    assert(quoted[value.len() as int] == '\'');
    lemma_before_first_is(quoted, '\'', value.len());
    assert(quoted.skip(value.len() as int + 1) =~= rest);
    assert(quoted.take(value.len() as int) =~= value);
    law_clean_text_is_its_own_trim(rest);
}

/// A backslash before a character that it gives no other meaning stands for itself.
pub proof fn law_other_backslashes_stay(c: char, rest: Seq<char>)
    requires
        c != 'n' && c != 'r' && c != 't' && c != '"' && c != '\\',
    ensures
        unescaped(seq!['\\', c] + rest) == seq!['\\', c] + unescaped(rest),
        unescaped(seq!['\\']) == seq!['\\'],
{
    let text = seq!['\\', c] + rest;
    assert(text.skip(1) =~= seq![c] + rest);
    assert((seq![c] + rest).skip(1) =~= rest);
    assert(unescaped(seq![c] + rest) =~= seq![c] + unescaped(rest));
    assert(unescaped(text) =~= seq!['\\', c] + unescaped(rest));
    assert(seq!['\\'].skip(1) =~= Seq::<char>::empty());
    assert(unescaped(Seq::<char>::empty()) =~= Seq::<char>::empty());
    assert(unescaped(seq!['\\']) =~= seq!['\\']);
}

} // verus!
