//! Text primitives. Every text is modelled by the sequence of its characters.
use vstd::prelude::*;

verus! {

/// `String::push` appends one character to the end of the text.
pub assume_specification[ String::push ](text: &mut String, c: char)
    ensures
        final(text)@ == old(text)@.push(c),
;

/// What a fallible operation came to, with texts taken as character sequences.
pub open spec fn outcome<T: DeepView>(result: Result<T, String>) -> Result<T::V, Seq<char>> {
    match result {
        Ok(value) => Ok(value.deep_view()),
        Err(message) => Err(message@),
    }
}

/// A character with the Unicode `White_Space` property.
pub open spec fn is_white_space(c: char) -> bool {
    ||| 0x09 <= c as u32 <= 0x0d
    ||| c as u32 == 0x20
    ||| c as u32 == 0x85
    ||| c as u32 == 0xa0
    ||| c as u32 == 0x1680
    ||| 0x2000 <= c as u32 <= 0x200a
    ||| c as u32 == 0x2028
    ||| c as u32 == 0x2029
    ||| c as u32 == 0x202f
    ||| c as u32 == 0x205f
    ||| c as u32 == 0x3000
}

/// `text` without its leading white space.
pub open spec fn trimmed_start(text: Seq<char>) -> Seq<char>
    decreases text.len(),
{
    if text.len() > 0 && is_white_space(text[0]) {
        trimmed_start(text.drop_first())
    } else {
        text
    }
}

/// `text` without its trailing white space.
pub open spec fn trimmed_end(text: Seq<char>) -> Seq<char>
    decreases text.len(),
{
    if text.len() > 0 && is_white_space(text.last()) {
        trimmed_end(text.drop_last())
    } else {
        text
    }
}

/// `text` without white space at either end.
pub open spec fn trimmed(text: Seq<char>) -> Seq<char> {
    trimmed_end(trimmed_start(text))
}

/// The lower case form of an ASCII letter; any other character as it is.
pub open spec fn ascii_lower(c: char) -> char {
    if 'A' <= c <= 'Z' {
        (c as u32 + 32) as char
    } else {
        c
    }
}

/// `text` with its ASCII letters in lower case.
pub open spec fn lowercase(text: Seq<char>) -> Seq<char> {
    Seq::new(text.len(), |i: int| ascii_lower(text[i]))
}

/// How many characters stand before the first `c` in `text`; all of them where there is none.
pub open spec fn before_first(text: Seq<char>, c: char) -> nat
    decreases text.len(),
{
    if text.len() == 0 || text[0] == c {
        0
    } else {
        1 + before_first(text.drop_first(), c)
    }
}

/// A line without the carriage return that ends it, if one does.
pub open spec fn without_return(line: Seq<char>) -> Seq<char> {
    if line.len() > 0 && line.last() == '\r' {
        line.drop_last()
    } else {
        line
    }
}

/// The lines of `text`. A line ends at a line feed, and a carriage return directly before
/// the line feed belongs to the line ending. The last line needs no ending.
pub open spec fn lines_of(text: Seq<char>) -> Seq<Seq<char>>
    decreases text.len(),
{
    let end = before_first(text, '\n') as int;
    if text.len() == 0 {
        Seq::empty()
    } else if end >= text.len() {
        seq![text]
    } else {
        seq![without_return(text.take(end))] + lines_of(text.skip(end + 1))
    }
}

/// Texts in the order of their characters' code points, as a dictionary has them.
pub open spec fn text_le(a: Seq<char>, b: Seq<char>) -> bool
    decreases a.len(),
{
    if a.len() == 0 {
        true
    } else if b.len() == 0 {
        false
    } else if a[0] != b[0] {
        a[0] < b[0]
    } else {
        text_le(a.drop_first(), b.drop_first())
    }
}

/// The decimal digit for a number below ten.
pub open spec fn decimal_digit(n: nat) -> char {
    (48 + n) as char
}

/// A number written in decimal.
pub open spec fn decimal(n: nat) -> Seq<char>
    decreases n,
{
    if n < 10 {
        seq![decimal_digit(n)]
    } else {
        decimal(n / 10).push(decimal_digit(n % 10))
    }
}

/// The lower case hexadecimal digit for a number below sixteen.
pub open spec fn hex_digit(n: int) -> char {
    if n < 10 {
        (48 + n) as char
    } else {
        (87 + n) as char
    }
}

/// Bytes written in hexadecimal, two lower case digits for each.
pub open spec fn hex(bytes: Seq<u8>) -> Seq<char> {
    Seq::new(
        2 * bytes.len(),
        |i: int| hex_digit(if i % 2 == 0 { bytes[i / 2] as int / 16 } else { bytes[i / 2] as int % 16 }),
    )
}

pub(crate) proof fn lemma_before_first(text: Seq<char>, c: char)
    ensures
        before_first(text, c) <= text.len(),
        before_first(text, c) < text.len() ==> text[before_first(text, c) as int] == c,
        forall|i: int| 0 <= i < before_first(text, c) ==> text[i] != c,
    decreases text.len(),
{
    if text.len() > 0 && text[0] != c {
        let rest = text.drop_first();
        lemma_before_first(rest, c);
        assert forall|i: int| 0 <= i < before_first(text, c) implies text[i] != c by {
            if i > 0 {
                assert(text[i] == rest[i - 1]);
            }
        }
    }
}

pub proof fn lemma_before_first_is(text: Seq<char>, c: char, n: nat)
    requires
        n <= text.len(),
        n < text.len() ==> text[n as int] == c,
        forall|i: int| 0 <= i < n ==> text[i] != c,
    ensures
        before_first(text, c) == n,
{
    lemma_before_first(text, c);
    let m = before_first(text, c);
    if m < n {
        assert(text[m as int] != c);
    }
    if n < m {
        assert(text[n as int] != c);
    }
}

proof fn lemma_trimmed_start_skips(text: Seq<char>, n: nat)
    requires
        n <= text.len(),
        forall|i: int| 0 <= i < n ==> is_white_space(text[i]),
        n < text.len() ==> !is_white_space(text[n as int]),
    ensures
        trimmed_start(text) == text.skip(n as int),
    decreases n,
{
    if n == 0 {
        assert(text.skip(0) =~= text);
    } else {
        assert(is_white_space(text[0]));
        let rest = text.drop_first();
        assert forall|i: int| 0 <= i < n - 1 implies is_white_space(rest[i]) by {
            assert(rest[i] == text[i + 1]);
        }
        lemma_trimmed_start_skips(rest, (n - 1) as nat);
        assert(rest.skip(n - 1) =~= text.skip(n as int));
    }
}

proof fn lemma_trimmed_end_takes(text: Seq<char>, n: nat)
    requires
        n <= text.len(),
        forall|i: int| n <= i < text.len() ==> is_white_space(text[i]),
        n > 0 ==> !is_white_space(text[n - 1]),
    ensures
        trimmed_end(text) == text.take(n as int),
    decreases text.len() - n,
{
    if n == text.len() {
        assert(text.take(n as int) =~= text);
    } else {
        assert(is_white_space(text.last()));
        lemma_trimmed_end_takes(text.drop_last(), n);
        assert(text.drop_last().take(n as int) =~= text.take(n as int));
    }
}

proof fn lemma_trimmed_start_shape(text: Seq<char>)
    ensures
        trimmed_start(text).len() <= text.len(),
        trimmed_start(text) == text.skip(text.len() - trimmed_start(text).len()),
        trimmed_start(text).len() > 0 ==> !is_white_space(trimmed_start(text)[0]),
        trimmed_start(text).len() > 0 ==> trimmed_start(text).last() == text.last(),
        forall|i: int|
            0 <= i < text.len() - trimmed_start(text).len() ==> is_white_space(text[i]),
    decreases text.len(),
{
    if text.len() > 0 && is_white_space(text[0]) {
        let rest = text.drop_first();
        lemma_trimmed_start_shape(rest);
        let start = trimmed_start(rest);
        assert(rest.skip(rest.len() - start.len()) =~= text.skip(text.len() - start.len()));
        assert forall|i: int| 0 <= i < text.len() - start.len() implies is_white_space(text[i]) by {
            if i > 0 {
                assert(text[i] == rest[i - 1]);
            }
        }
    } else {
        assert(text.skip(0) =~= text);
    }
}

proof fn lemma_trimmed_end_shape(text: Seq<char>)
    ensures
        trimmed_end(text).len() <= text.len(),
        trimmed_end(text) == text.take(trimmed_end(text).len() as int),
        trimmed_end(text).len() > 0 ==> !is_white_space(trimmed_end(text).last()),
        trimmed_end(text).len() > 0 ==> trimmed_end(text)[0] == text[0],
    decreases text.len(),
{
    if text.len() > 0 && is_white_space(text.last()) {
        let front = text.drop_last();
        lemma_trimmed_end_shape(front);
        assert(front.take(trimmed_end(front).len() as int) =~= text.take(
            trimmed_end(front).len() as int,
        ));
    } else {
        assert(text.take(text.len() as int) =~= text);
    }
}

/// What trimming leaves has no white space at either end, and is never longer than the text.
pub proof fn law_trimmed_has_clean_ends(text: Seq<char>)
    ensures
        trimmed(text).len() <= text.len(),
        trimmed(text).len() > 0 ==> !is_white_space(trimmed(text)[0]) && !is_white_space(
            trimmed(text).last(),
        ),
{
    lemma_trimmed_start_shape(text);
    lemma_trimmed_end_shape(trimmed_start(text));
}

/// A text with no white space at either end is its own trimmed form.
pub proof fn law_clean_text_is_its_own_trim(text: Seq<char>)
    requires
        text.len() > 0 ==> !is_white_space(text[0]) && !is_white_space(text.last()),
    ensures
        trimmed(text) == text,
{
}

/// Trimming twice gives what trimming once gives.
pub proof fn law_trim_is_idempotent(text: Seq<char>)
    ensures
        trimmed(trimmed(text)) == trimmed(text),
{
    law_trimmed_has_clean_ends(text);
    law_clean_text_is_its_own_trim(trimmed(text));
}

/// Lowering the case twice gives what lowering it once gives.
pub proof fn law_lowercase_is_idempotent(text: Seq<char>)
    ensures
        lowercase(lowercase(text)) == lowercase(text),
{
    assert forall|c: char| #[trigger] ascii_lower(ascii_lower(c)) == ascii_lower(c) by {}
    assert(lowercase(lowercase(text)) =~= lowercase(text));
}

/// The characters of a text.
pub fn chars_of(text: &str) -> (out: Vec<char>)
    ensures
        out@ == text@,
{
    let mut out: Vec<char> = Vec::new();
    for c in iter: text.chars()
        invariant
            iter.seq() == text@,
            out@ == iter.seq().take(iter.index()),
    {
        out.push(c);
    }
    out
}

/// The text that these characters make.
pub fn string_of(chars: &[char]) -> (out: String)
    ensures
        out@ == chars@,
{
    let mut out = String::new();
    for i in 0..chars.len()
        invariant
            out@ == chars@.take(i as int),
    {
        out.push(chars[i]);
    }
    out
}

/// Whether two texts are the same.
pub fn same_text(a: &str, b: &str) -> (same: bool)
    ensures
        same == (a@ == b@),
{
    a.to_string() == b.to_string()
}

/// Whether a character has the Unicode `White_Space` property.
pub fn is_whitespace(c: char) -> (white: bool)
    ensures
        white == is_white_space(c),
{
    let code = c as u32;
    (0x09 <= code && code <= 0x0d) || code == 0x20 || code == 0x85 || code == 0xa0 || code == 0x1680
        || (0x2000 <= code && code <= 0x200a) || code == 0x2028 || code == 0x2029 || code == 0x202f
        || code == 0x205f || code == 0x3000
}

/// The text without white space at either end.
pub fn trim(text: &str) -> (out: &str)
    ensures
        out@ == trimmed(text@),
{
    let chars = chars_of(text);
    let mut start: usize = 0;
    while start < chars.len() && is_whitespace(chars[start])
        invariant
            start <= chars.len(),
            forall|i: int| 0 <= i < start ==> is_white_space(chars@[i]),
        decreases chars.len() - start,
    {
        start += 1;
    }
    let mut end: usize = chars.len();
    while end > start && is_whitespace(chars[end - 1])
        invariant
            start <= end <= chars.len(),
            forall|i: int| end <= i < chars.len() ==> is_white_space(chars@[i]),
        decreases end,
    {
        end -= 1;
    }
    proof {
        lemma_trimmed_start_skips(text@, start as nat);
        let rest = text@.skip(start as int);
        assert forall|i: int| end - start <= i < rest.len() implies is_white_space(rest[i]) by {
            assert(rest[i] == text@[i + start]);
        }
        lemma_trimmed_end_takes(rest, (end - start) as nat);
        assert(rest.take(end - start) =~= text@.subrange(start as int, end as int));
    }
    text.substring_char(start, end)
}

/// The text without trailing white space.
pub fn trim_end(text: &str) -> (out: &str)
    ensures
        out@ == trimmed_end(text@),
{
    let chars = chars_of(text);
    let mut end: usize = chars.len();
    while end > 0 && is_whitespace(chars[end - 1])
        invariant
            end <= chars.len(),
            forall|i: int| end <= i < chars.len() ==> is_white_space(chars@[i]),
        decreases end,
    {
        end -= 1;
    }
    proof {
        lemma_trimmed_end_takes(text@, end as nat);
        assert(text@.take(end as int) =~= text@.subrange(0, end as int));
    }
    text.substring_char(0, end)
}

/// The text with its ASCII letters in lower case.
pub fn to_ascii_lowercase(text: &str) -> (out: String)
    ensures
        out@ == lowercase(text@),
{
    let chars = chars_of(text);
    let mut out = String::new();
    for i in 0..chars.len()
        invariant
            chars@ == text@,
            out@ == lowercase(text@.take(i as int)),
    {
        let c = chars[i];
        let lowered = if 'A' <= c && c <= 'Z' {
            (c as u8 + 32) as char
        } else {
            c
        };
        out.push(lowered);
        assert(lowercase(text@.take(i + 1)) =~= lowercase(text@.take(i as int)).push(
            ascii_lower(text@[i as int]),
        ));
    }
    assert(text@.take(text@.len() as int) =~= text@);
    out
}

/// How many characters stand before the first `c`; all of them where there is none.
pub fn find_char(chars: &[char], c: char) -> (n: usize)
    ensures
        n == before_first(chars@, c),
        n <= chars@.len(),
{
    let mut n: usize = 0;
    while n < chars.len() && chars[n] != c
        invariant
            n <= chars@.len(),
            forall|i: int| 0 <= i < n ==> chars@[i] != c,
        decreases chars@.len() - n,
    {
        n += 1;
    }
    proof {
        lemma_before_first_is(chars@, c, n as nat);
    }
    n
}

/// A copy of a part of these characters.
pub fn copy_range(chars: &[char], from: usize, to: usize) -> (out: Vec<char>)
    requires
        from <= to <= chars@.len(),
    ensures
        out@ == chars@.subrange(from as int, to as int),
{
    let mut out: Vec<char> = Vec::new();
    for i in from..to
        invariant
            from <= to <= chars@.len(),
            out@ == chars@.subrange(from as int, i as int),
    {
        out.push(chars[i]);
        assert(chars@.subrange(from as int, i + 1) =~= chars@.subrange(from as int, i as int).push(
            chars@[i as int],
        ));
    }
    out
}

/// The lines of a text, without their endings.
pub fn lines(text: &str) -> (out: Vec<String>)
    ensures
        out.deep_view() == lines_of(text@),
{
    let chars = chars_of(text);
    let mut out: Vec<String> = Vec::new();
    let mut start: usize = 0;
    assert(text@.skip(0) =~= text@);
    assert(out.deep_view() + lines_of(text@) =~= lines_of(text@));
    while start < chars.len()
        invariant
            chars@ == text@,
            start <= chars.len(),
            out.deep_view() + lines_of(text@.skip(start as int)) == lines_of(text@),
        decreases chars.len() - start,
    {
        let ghost before = out.deep_view();
        let ghost rest = text@.skip(start as int);
        let mut end: usize = start;
        while end < chars.len() && chars[end] != '\n'
            invariant
                start <= end <= chars.len(),
                forall|i: int| start <= i < end ==> chars@[i] != '\n',
            decreases chars.len() - end,
        {
            end += 1;
        }
        proof {
            assert forall|i: int| 0 <= i < end - start implies rest[i] != '\n' by {
                assert(rest[i] == chars@[i + start]);
            }
            if end < chars.len() {
                assert(rest[end - start] == chars@[end as int]);
            }
            lemma_before_first_is(rest, '\n', (end - start) as nat);
        }
        if end >= chars.len() {
            let line = copy_range(chars.as_slice(), start, end);
            out.push(string_of(line.as_slice()));
            proof {
                assert(line@ =~= rest);
                assert(out.deep_view() =~= before + seq![rest]);
                assert(text@.skip(end as int) =~= Seq::<char>::empty());
                assert(out.deep_view() + lines_of(text@.skip(end as int)) =~= before + lines_of(rest));
            }
            start = end;
        } else {
            let stop: usize = if end > start && chars[end - 1] == '\r' {
                end - 1
            } else {
                end
            };
            let line = copy_range(chars.as_slice(), start, stop);
            out.push(string_of(line.as_slice()));
            proof {
                assert(rest.take(end - start) =~= text@.subrange(start as int, end as int));
                assert(line@ =~= without_return(rest.take(end - start)));
                assert(rest.skip(end - start + 1) =~= text@.skip(end + 1));
                assert(out.deep_view() =~= before + seq![line@]);
                assert(out.deep_view() + lines_of(text@.skip(end + 1)) =~= before + lines_of(rest));
            }
            start = end + 1;
        }
    }
    assert(text@.skip(start as int) =~= Seq::<char>::empty());
    assert(out.deep_view() + lines_of(Seq::<char>::empty()) =~= out.deep_view());
    out
}

/// Whether one text comes before another, or is the same, in dictionary order.
pub fn in_order(a: &str, b: &str) -> (ordered: bool)
    ensures
        ordered == text_le(a@, b@),
{
    let left = chars_of(a);
    let right = chars_of(b);
    let mut i: usize = 0;
    assert(a@.skip(0) =~= a@);
    assert(b@.skip(0) =~= b@);
    while i < left.len()
        invariant
            left@ == a@,
            right@ == b@,
            i <= left.len(),
            i <= right.len(),
            text_le(a@, b@) == text_le(a@.skip(i as int), b@.skip(i as int)),
        decreases left.len() - i,
    {
        if i >= right.len() {
            return false;
        }
        if left[i] != right[i] {
            return left[i] < right[i];
        }
        assert(a@.skip(i as int).drop_first() =~= a@.skip(i + 1));
        assert(b@.skip(i as int).drop_first() =~= b@.skip(i + 1));
        i += 1;
    }
    true
}

/// Dictionary order is total.
pub proof fn law_text_order_is_total(a: Seq<char>, b: Seq<char>)
    ensures
        text_le(a, b) || text_le(b, a),
        text_le(a, b) && text_le(b, a) ==> a == b,
    decreases a.len(),
{
    if a.len() > 0 && b.len() > 0 && a[0] == b[0] {
        law_text_order_is_total(a.drop_first(), b.drop_first());
        if text_le(a, b) && text_le(b, a) {
            assert(a =~= seq![a[0]] + a.drop_first());
            assert(b =~= seq![b[0]] + b.drop_first());
        }
    } else if a.len() == 0 && b.len() == 0 {
        assert(a =~= b);
    }
}

/// Dictionary order is transitive.
pub proof fn law_text_order_is_transitive(a: Seq<char>, b: Seq<char>, c: Seq<char>)
    requires
        text_le(a, b),
        text_le(b, c),
    ensures
        text_le(a, c),
    decreases a.len(),
{
    if a.len() > 0 && a[0] == b[0] && b[0] == c[0] {
        law_text_order_is_transitive(a.drop_first(), b.drop_first(), c.drop_first());
    }
}

/// A number written in decimal.
pub fn decimal_text(n: u64) -> (out: String)
    ensures
        out@ == decimal(n as nat),
    decreases n,
{
    let digit = (48 + (n % 10) as u8) as char;
    if n < 10 {
        let mut out = String::new();
        out.push(digit);
        assert(out@ =~= seq![decimal_digit(n as nat)]);
        out
    } else {
        let mut out = decimal_text(n / 10);
        out.push(digit);
        out
    }
}

/// Bytes written in hexadecimal, two lower case digits for each.
pub fn hex_text(bytes: &[u8]) -> (out: String)
    ensures
        out@ == hex(bytes@),
{
    let mut out = String::new();
    for i in 0..bytes.len()
        invariant
            out@ == hex(bytes@.take(i as int)),
    {
        let high = bytes[i] / 16;
        let low = bytes[i] % 16;
        let first = if high < 10 {
            (48 + high) as char
        } else {
            (87 + high) as char
        };
        let second = if low < 10 {
            (48 + low) as char
        } else {
            (87 + low) as char
        };
        let ghost before = out@;
        out.push(first);
        out.push(second);
        proof {
            let grown = bytes@.take(i + 1);
            assert(before.len() == 2 * i);
            assert forall|j: int| 0 <= j < 2 * i + 2 implies out@[j] == hex(grown)[j] by {
                if j < 2 * i {
                    assert(before[j] == hex(bytes@.take(i as int))[j]);
                }
            }
            assert(out@ =~= hex(grown));
        }
    }
    assert(bytes@.take(bytes@.len() as int) =~= bytes@);
    out
}

/// Bytes that read the same in hexadecimal are the same.
pub proof fn law_hex_is_injective(one: Seq<u8>, other: Seq<u8>)
    requires
        hex(one) == hex(other),
    ensures
        one == other,
{
    assert(hex(one).len() == 2 * one.len());
    assert(hex(other).len() == 2 * other.len());
    assert forall|i: int| 0 <= i < one.len() implies one[i] == other[i] by {
        let (a, b) = (one[i] as int, other[i] as int);
        assert((2 * i) / 2 == i && (2 * i) % 2 == 0);
        assert((2 * i + 1) / 2 == i && (2 * i + 1) % 2 == 1);
        assert(hex(one)[2 * i] == hex_digit(a / 16));
        assert(hex(other)[2 * i] == hex_digit(b / 16));
        assert(hex(one)[2 * i + 1] == hex_digit(a % 16));
        assert(hex(other)[2 * i + 1] == hex_digit(b % 16));
        assert(a / 16 == b / 16);
        assert(a % 16 == b % 16);
    }
    assert(one =~= other);
}

/// Trimming takes the white space at both ends away, and nothing else.
pub proof fn law_trimming_takes_the_margins(left: Seq<char>, core: Seq<char>, right: Seq<char>)
    requires
        forall|i: int| 0 <= i < left.len() ==> is_white_space(#[trigger] left[i]),
        forall|i: int| 0 <= i < right.len() ==> is_white_space(#[trigger] right[i]),
        core.len() > 0 ==> !is_white_space(core[0]) && !is_white_space(core.last()),
    ensures
        trimmed(left + core + right) == core,
{
    let text = left + core + right;
    if core.len() == 0 {
        assert forall|i: int| 0 <= i < text.len() implies is_white_space(text[i]) by {
            if i < left.len() {
                assert(text[i] == left[i]);
            } else {
                assert(text[i] == right[i - left.len()]);
            }
        }
        lemma_trimmed_start_skips(text, text.len());
        assert(trimmed_start(text) =~= Seq::<char>::empty());
    } else {
        assert(text[left.len() as int] == core[0]);
        assert forall|i: int| 0 <= i < left.len() implies is_white_space(text[i]) by {
            assert(text[i] == left[i]);
        }
        lemma_trimmed_start_skips(text, left.len());
        let rest = core + right;
        assert(text.skip(left.len() as int) =~= rest);
        assert forall|i: int| core.len() <= i < rest.len() implies is_white_space(rest[i]) by {
            assert(rest[i] == right[i - core.len()]);
        }
        assert(rest[core.len() - 1] == core.last());
        lemma_trimmed_end_takes(rest, core.len());
        assert(rest.take(core.len() as int) =~= core);
    }
}

/// Among the ASCII characters, white space is the blank and what stands from the tab to the
/// carriage return.
pub proof fn law_ascii_white_space(c: char)
    requires
        (c as u32) < 128,
    ensures
        is_white_space(c) <==> c == ' ' || '\t' <= c <= '\r',
{
}

/// Lowering the case changes the letters from `A` to `Z`, each to the small letter in its
/// place, and no other character.
pub proof fn law_lowercase_letters(text: Seq<char>, i: int)
    requires
        0 <= i < text.len(),
    ensures
        lowercase(text).len() == text.len(),
        'A' <= text[i] <= 'Z' ==> lowercase(text)[i] as int - 'a' as int == text[i] as int
            - 'A' as int,
        !('A' <= text[i] <= 'Z') ==> lowercase(text)[i] == text[i],
{
}

/// The number that decimal digits stand for.
pub open spec fn number_of(digits: Seq<char>) -> int
    decreases digits.len(),
{
    if digits.len() == 0 {
        0
    } else {
        10 * number_of(digits.drop_last()) + (digits.last() as int - '0' as int)
    }
}

/// A number is written in decimal digits that stand for it, without a needless zero in front.
pub proof fn law_decimal_stands_for_its_number(n: nat)
    ensures
        number_of(decimal(n)) == n,
        decimal(n).len() > 0,
        n > 0 ==> decimal(n)[0] != '0',
        n == 0 ==> decimal(n) == seq!['0'],
        forall|i: int| 0 <= i < decimal(n).len() ==> '0' <= #[trigger] decimal(n)[i] <= '9',
    decreases n,
{
    reveal_with_fuel(number_of, 2);
    if n < 10 {
        assert(decimal(n).drop_last() =~= Seq::<char>::empty());
    } else {
        law_decimal_stands_for_its_number(n / 10);
        assert(decimal(n).drop_last() =~= decimal(n / 10));
    }
}

/// Two texts stand in the order of the first characters in which they differ, and a text
/// stands before those that it starts.
pub proof fn law_text_order_goes_by_the_first_difference(
    front: Seq<char>,
    a: char,
    b: char,
    rest_a: Seq<char>,
    rest_b: Seq<char>,
)
    requires
        a < b,
    ensures
        text_le(front + seq![a] + rest_a, front + seq![b] + rest_b),
        !text_le(front + seq![b] + rest_b, front + seq![a] + rest_a),
        text_le(front, front + seq![a] + rest_a),
        !text_le(front + seq![a] + rest_a, front),
    decreases front.len(),
{
    let x = front + seq![a] + rest_a;
    let y = front + seq![b] + rest_b;
    if front.len() == 0 {
        assert(x[0] == a && y[0] == b);
    } else {
        let tail = front.drop_first();
        law_text_order_goes_by_the_first_difference(tail, a, b, rest_a, rest_b);
        assert(x.drop_first() =~= tail + seq![a] + rest_a);
        assert(y.drop_first() =~= tail + seq![b] + rest_b);
        assert(x[0] == front[0] && y[0] == front[0]);
    }
}

/// The number that a lower case hexadecimal digit stands for.
pub open spec fn hex_value(digit: char) -> int {
    if '0' <= digit <= '9' {
        digit as int - '0' as int
    } else {
        digit as int - 'a' as int + 10
    }
}

/// Each byte is written as two digits, from `0` to `9` and from `a` to `f`, the higher first.
pub proof fn law_hex_digits(bytes: Seq<u8>, i: int)
    requires
        0 <= i < bytes.len(),
    ensures
        hex(bytes).len() == 2 * bytes.len(),
        hex_value(hex(bytes)[2 * i]) * 16 + hex_value(hex(bytes)[2 * i + 1]) == bytes[i],
        '0' <= hex(bytes)[2 * i] <= '9' || 'a' <= hex(bytes)[2 * i] <= 'f',
        '0' <= hex(bytes)[2 * i + 1] <= '9' || 'a' <= hex(bytes)[2 * i + 1] <= 'f',
{
    assert((2 * i) / 2 == i && (2 * i) % 2 == 0);
    assert((2 * i + 1) / 2 == i && (2 * i + 1) % 2 == 1);
}

/// A line ends at a line feed, or at a carriage return and a line feed, and what follows is
/// read in the same way. A text without a line feed is one line.
pub proof fn law_lines_end_at_line_feeds(line: Seq<char>, rest: Seq<char>)
    requires
        !line.contains('\n'),
        line.len() > 0 ==> line.last() != '\r',
    ensures
        lines_of(line + seq!['\n'] + rest) == seq![line] + lines_of(rest),
        lines_of(line + seq!['\r', '\n'] + rest) == seq![line] + lines_of(rest),
        line.len() > 0 ==> lines_of(line) == seq![line],
        lines_of(Seq::empty()) == Seq::<Seq<char>>::empty(),
{
    let plain = line + seq!['\n'] + rest;
    let returned = line + seq!['\r', '\n'] + rest;
    assert forall|i: int| 0 <= i < line.len() implies plain[i] != '\n' && returned[i] != '\n' by {
        assert(plain[i] == line[i] && returned[i] == line[i]);
        assert(line.contains(line[i]));
    }
    assert(plain[line.len() as int] == '\n');
    lemma_before_first_is(plain, '\n', line.len());
    assert(plain.take(line.len() as int) =~= line);
    assert(plain.skip(line.len() as int + 1) =~= rest);
    assert(returned[line.len() as int] == '\r');
    assert(returned[line.len() as int + 1] == '\n');
    lemma_before_first_is(returned, '\n', line.len() + 1);
    assert(returned.take(line.len() as int + 1) =~= line.push('\r'));
    assert(line.push('\r').drop_last() =~= line);
    assert(returned.skip(line.len() as int + 2) =~= rest);
    if line.len() > 0 {
        assert forall|i: int| 0 <= i < line.len() implies line[i] != '\n' by {
            assert(line.contains(line[i]));
        }
        lemma_before_first_is(line, '\n', line.len());
    }
}

/// What is said of a result is said of what it holds.
pub proof fn law_outcome_is_what_the_result_holds<T: DeepView>(value: T, message: String)
    ensures
        outcome(Ok::<T, String>(value)) == Ok::<T::V, Seq<char>>(value.deep_view()),
        outcome(Err::<T, String>(message)) == Err::<T::V, Seq<char>>(message@),
{
}

} // verus!
