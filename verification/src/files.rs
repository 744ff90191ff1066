//! The files of a site: what is told of each to the service, and in which order.
use crate::text::{
    chars_of, hex, hex_text, in_order, law_text_order_is_total, law_text_order_is_transitive,
    lowercase, same_text, text_le, to_ascii_lowercase,
};
use vstd::prelude::*;

verus! {

/// What the service is told of a file.
#[derive(Debug, PartialEq, Eq)]
pub struct FileEntry<T = String> {
    pub path: T,
    pub sha256: T,
    pub size: u64,
    pub content_type: T,
}

impl DeepView for FileEntry {
    type V = FileEntry<Seq<char>>;

    open spec fn deep_view(&self) -> FileEntry<Seq<char>> {
        FileEntry {
            path: self.path@,
            sha256: self.sha256@,
            size: self.size,
            content_type: self.content_type@,
        }
    }
}

/// The SHA-256 digest of these bytes, as the `sha2` crate computes it.
pub uninterp spec fn sha256(bytes: Seq<u8>) -> Seq<u8>;

/// Calls `Sha256::digest` of the `sha2` crate. The digest is a function of the bytes,
/// which [`sha256`] names, and is thirty-two bytes long.
#[verifier::external_body]
fn sha256_digest(bytes: &[u8]) -> (digest: Vec<u8>)
    ensures
        digest@ == sha256(bytes@),
        digest@.len() == 32,
{
    <sha2::Sha256 as sha2::Digest>::digest(bytes).to_vec()
}

/// The content type for a path, by the ending of its name in lower case.
pub open spec fn content_type_of(path: Seq<char>) -> Seq<char> {
    let name = lowercase(path);
    if ".html"@.is_suffix_of(name) {
        "text/html; charset=utf-8"@
    } else if ".css"@.is_suffix_of(name) {
        "text/css; charset=utf-8"@
    } else if ".js"@.is_suffix_of(name) {
        "application/javascript; charset=utf-8"@
    } else if ".json"@.is_suffix_of(name) {
        "application/json; charset=utf-8"@
    } else if ".svg"@.is_suffix_of(name) {
        "image/svg+xml"@
    } else if ".png"@.is_suffix_of(name) {
        "image/png"@
    } else if ".jpg"@.is_suffix_of(name) || ".jpeg"@.is_suffix_of(name) {
        "image/jpeg"@
    } else if ".webp"@.is_suffix_of(name) {
        "image/webp"@
    } else {
        "application/octet-stream"@
    }
}

/// A path with slashes for backslashes.
pub open spec fn slashed(path: Seq<char>) -> Seq<char> {
    Seq::new(
        path.len(),
        |i: int|
            if path[i] == '\\' {
                '/'
            } else {
                path[i]
            },
    )
}

/// What the service is told of a file at `path` that holds `bytes`.
pub open spec fn entry_of(path: Seq<char>, bytes: Seq<u8>, size: u64) -> FileEntry<Seq<char>> {
    FileEntry {
        path: slashed(path),
        sha256: hex(sha256(bytes)),
        size,
        content_type: content_type_of(slashed(path)),
    }
}

/// The entries with this path, in their order.
pub open spec fn entries_at(entries: Seq<FileEntry<Seq<char>>>, path: Seq<char>) -> Seq<
    FileEntry<Seq<char>>,
>
    decreases entries.len(),
{
    if entries.len() == 0 {
        Seq::empty()
    } else if entries.last().path == path {
        entries_at(entries.drop_last(), path).push(entries.last())
    } else {
        entries_at(entries.drop_last(), path)
    }
}

/// Entries in the order of their paths.
pub open spec fn is_sorted(entries: Seq<FileEntry<Seq<char>>>) -> bool {
    forall|i: int, j: int|
        0 <= i <= j < entries.len() ==> text_le(#[trigger] entries[i].path, #[trigger] entries[j].path)
}

/// `sorted` holds the entries in the order of their paths, and those with one path as they
/// came.
pub open spec fn is_sorted_form(
    sorted: Seq<FileEntry<Seq<char>>>,
    entries: Seq<FileEntry<Seq<char>>>,
) -> bool {
    &&& is_sorted(sorted)
    &&& forall|path: Seq<char>| #[trigger]
        entries_at(sorted, path) == entries_at(entries, path)
}

/// The first entry with this path.
pub open spec fn entry_at(entries: Seq<FileEntry<Seq<char>>>, path: Seq<char>) -> Option<
    FileEntry<Seq<char>>,
>
    decreases entries.len(),
{
    if entries.len() == 0 {
        None
    } else if entries[0].path == path {
        Some(entries[0])
    } else {
        entry_at(entries.drop_first(), path)
    }
}

/// Whether a text ends with another.
fn ends_with(text: &str, suffix: &str) -> (found: bool)
    ensures
        found == suffix@.is_suffix_of(text@),
{
    let length = text.unicode_len();
    let tail = suffix.unicode_len();
    if length < tail {
        return false;
    }
    let end = text.substring_char(length - tail, length);
    assert(end@ =~= text@.subrange(length - tail, length as int));
    same_text(end, suffix)
}

/// The content type for a path, by the ending of its name.
pub fn guess_content_type(file_path: &str) -> (content_type: &'static str)
    ensures
        content_type@ == content_type_of(file_path@),
{
    let lowered = to_ascii_lowercase(file_path);
    let name = lowered.as_str();
    if ends_with(name, ".html") {
        "text/html; charset=utf-8"
    } else if ends_with(name, ".css") {
        "text/css; charset=utf-8"
    } else if ends_with(name, ".js") {
        "application/javascript; charset=utf-8"
    } else if ends_with(name, ".json") {
        "application/json; charset=utf-8"
    } else if ends_with(name, ".svg") {
        "image/svg+xml"
    } else if ends_with(name, ".png") {
        "image/png"
    } else if ends_with(name, ".jpg") || ends_with(name, ".jpeg") {
        "image/jpeg"
    } else if ends_with(name, ".webp") {
        "image/webp"
    } else {
        "application/octet-stream"
    }
}

/// A path with slashes for backslashes.
fn with_slashes(path: &str) -> (out: String)
    ensures
        out@ == slashed(path@),
{
    let chars = chars_of(path);
    let mut out = String::new();
    for i in 0..chars.len()
        invariant
            chars@ == path@,
            out@ =~= slashed(path@).take(i as int),
    {
        if chars[i] == '\\' {
            out.push('/');
        } else {
            out.push(chars[i]);
        }
    }
    assert(slashed(path@).take(path@.len() as int) =~= slashed(path@));
    out
}

/// The SHA-256 digest of a file's contents in hexadecimal.
pub fn hex_digest(buffer: &[u8]) -> (digest: String)
    ensures
        digest@ == hex(sha256(buffer@)),
        digest@.len() == 64,
{
    hex_text(sha256_digest(buffer).as_slice())
}

/// What the service is told of a file, whose path is relative to the published directory.
pub fn file_entry(relative_path: &str, contents: &[u8], size: u64) -> (entry: FileEntry)
    ensures
        entry.deep_view() == entry_of(relative_path@, contents@, size),
{
    let path = with_slashes(relative_path);
    let content_type = guess_content_type(path.as_str()).to_string();
    FileEntry { path, sha256: hex_digest(contents), size, content_type }
}

proof fn lemma_entries_at_splits(
    front: Seq<FileEntry<Seq<char>>>,
    back: Seq<FileEntry<Seq<char>>>,
    path: Seq<char>,
)
    ensures
        entries_at(front + back, path) == entries_at(front, path) + entries_at(back, path),
    decreases back.len(),
{
    if back.len() == 0 {
        assert(front + back =~= front);
        assert(entries_at(front, path) + entries_at(back, path) =~= entries_at(front, path));
    } else {
        assert((front + back).drop_last() =~= front + back.drop_last());
        lemma_entries_at_splits(front, back.drop_last(), path);
        assert(entries_at(front + back, path) =~= entries_at(front, path) + entries_at(back, path));
    }
}

proof fn lemma_entries_at_none(entries: Seq<FileEntry<Seq<char>>>, path: Seq<char>)
    requires
        forall|i: int| 0 <= i < entries.len() ==> #[trigger] entries[i].path != path,
    ensures
        entries_at(entries, path) == Seq::<FileEntry<Seq<char>>>::empty(),
    decreases entries.len(),
{
    if entries.len() > 0 {
        assert forall|i: int| 0 <= i < entries.drop_last().len() implies #[trigger] entries.drop_last()[i].path
            != path by {
            assert(entries.drop_last()[i] == entries[i]);
        }
        lemma_entries_at_none(entries.drop_last(), path);
    }
}

/// Putting an entry before all that come after it, or have its path, keeps the order.
proof fn lemma_insert_keeps_sorted_form(
    sorted: Seq<FileEntry<Seq<char>>>,
    entries: Seq<FileEntry<Seq<char>>>,
    entry: FileEntry<Seq<char>>,
    at: int,
)
    requires
        is_sorted_form(sorted, entries),
        0 <= at <= sorted.len(),
        forall|i: int| 0 <= i < at ==> !text_le(entry.path, #[trigger] sorted[i].path),
        forall|i: int| at <= i < sorted.len() ==> text_le(entry.path, #[trigger] sorted[i].path),
    ensures
        is_sorted_form(sorted.insert(at, entry), seq![entry] + entries),
{
    let grown = sorted.insert(at, entry);
    let front = sorted.take(at);
    let back = sorted.skip(at);
    let single = seq![entry];
    assert(sorted =~= front + back);
    assert(grown =~= front + (single + back));
    assert forall|i: int, j: int| 0 <= i <= j < grown.len() implies text_le(
        #[trigger] grown[i].path,
        #[trigger] grown[j].path,
    ) by {
        law_text_order_is_total(entry.path, entry.path);
        if i < at {
            assert(grown[i] == sorted[i]);
            law_text_order_is_total(entry.path, sorted[i].path);
        } else if i > at {
            assert(grown[i] == sorted[i - 1]);
        }
        if j < at {
            assert(grown[j] == sorted[j]);
        } else if j > at {
            assert(grown[j] == sorted[j - 1]);
        }
    }
    assert forall|path: Seq<char>| #[trigger]
        entries_at(grown, path) == entries_at(single + entries, path) by {
        lemma_entries_at_splits(front, back, path);
        lemma_entries_at_splits(front, single + back, path);
        lemma_entries_at_splits(single, back, path);
        lemma_entries_at_splits(single, entries, path);
        assert(entries_at(sorted, path) == entries_at(entries, path));
        reveal_with_fuel(entries_at, 2);
        assert(single.drop_last() =~= Seq::<FileEntry<Seq<char>>>::empty());
        if path == entry.path {
            assert(entries_at(single, path) =~= single);
            assert forall|i: int| 0 <= i < front.len() implies #[trigger] front[i].path != path by {
                assert(front[i] == sorted[i]);
                law_text_order_is_total(entry.path, entry.path);
            }
            lemma_entries_at_none(front, path);
        } else {
            assert(entries_at(single, path) =~= Seq::<FileEntry<Seq<char>>>::empty());
        }
        assert(entries_at(grown, path) =~= entries_at(single + entries, path));
    }
}

/// The entries in the order of their paths, those with one path as they came.
pub fn sort_files(entries: Vec<FileEntry>) -> (sorted: Vec<FileEntry>)
    ensures
        is_sorted_form(sorted.deep_view(), entries.deep_view()),
{
    let ghost given = entries.deep_view();
    let mut rest = entries;
    let mut sorted: Vec<FileEntry> = Vec::new();
    assert(sorted.deep_view() =~= given.skip(given.len() as int));
    while rest.len() > 0
        invariant
            rest.len() <= given.len(),
            rest.deep_view() =~= given.take(rest.len() as int),
            is_sorted_form(sorted.deep_view(), given.skip(rest.len() as int)),
        decreases rest.len(),
    {
        let ghost left = rest.len() as int;
        let ghost view = rest.deep_view();
        let entry = rest.pop().unwrap();
        proof {
            assert(entry.deep_view() == view[left - 1]);
            assert(rest.deep_view() =~= view.drop_last());
        }
        let mut low: usize = 0;
        let mut high: usize = sorted.len();
        while low < high
            invariant
                low <= high <= sorted.len(),
                is_sorted(sorted.deep_view()),
                forall|i: int|
                    0 <= i < low ==> !text_le(entry.path@, #[trigger] sorted.deep_view()[i].path),
                forall|i: int|
                    high <= i < sorted.len() ==> text_le(
                        entry.path@,
                        #[trigger] sorted.deep_view()[i].path,
                    ),
            decreases high - low,
        {
            let middle: usize = low + (high - low) / 2;
            let ghost view = sorted.deep_view();
            assert(view[middle as int].path == sorted[middle as int].path@);
            if in_order(entry.path.as_str(), sorted[middle].path.as_str()) {
                assert forall|i: int| middle <= i < sorted.len() implies text_le(
                    entry.path@,
                    #[trigger] view[i].path,
                ) by {
                    law_text_order_is_transitive(entry.path@, view[middle as int].path, view[i].path);
                }
                high = middle;
            } else {
                assert forall|i: int| 0 <= i <= middle implies !text_le(
                    entry.path@,
                    #[trigger] view[i].path,
                ) by {
                    if text_le(entry.path@, view[i].path) {
                        law_text_order_is_transitive(
                            entry.path@,
                            view[i].path,
                            view[middle as int].path,
                        );
                    }
                }
                low = middle + 1;
            }
        }
        let ghost before = sorted.deep_view();
        let ghost added = entry.deep_view();
        proof {
            lemma_insert_keeps_sorted_form(before, given.skip(left), added, low as int);
        }
        sorted.insert(low, entry);
        proof {
            assert(sorted.deep_view() =~= before.insert(low as int, added));
            assert(seq![added] + given.skip(left) =~= given.skip(left - 1));
        }
    }
    assert(given.skip(0) =~= given);
    sorted
}

proof fn lemma_entry_with_path(entries: Seq<FileEntry<Seq<char>>>, path: Seq<char>) -> (at: int)
    requires
        entries_at(entries, path).len() > 0,
    ensures
        0 <= at < entries.len(),
        entries[at].path == path,
{
    if forall|i: int| 0 <= i < entries.len() ==> #[trigger] entries[i].path != path {
        lemma_entries_at_none(entries, path);
    }
    choose|i: int| 0 <= i < entries.len() && #[trigger] entries[i].path == path
}

/// There is only one order: two sorted forms of the same entries are the same.
pub proof fn law_sorted_form_is_unique(
    one: Seq<FileEntry<Seq<char>>>,
    other: Seq<FileEntry<Seq<char>>>,
)
    requires
        is_sorted(one),
        is_sorted_form(other, one),
    ensures
        one == other,
    decreases one.len(),
{
    if one.len() == 0 {
        if other.len() > 0 {
            let path = other.last().path;
            assert(entries_at(other, path).len() > 0);
            assert(entries_at(other, path) == entries_at(one, path));
        }
        assert(one =~= other);
    } else {
        let p = one.last().path;
        assert(entries_at(other, p) == entries_at(one, p));
        let i = lemma_entry_with_path(other, p);
        let q = other.last().path;
        assert(entries_at(other, q) == entries_at(one, q));
        let j = lemma_entry_with_path(one, q);
        assert(text_le(other[i].path, other[other.len() - 1].path));
        assert(text_le(one[j].path, one[one.len() - 1].path));
        law_text_order_is_total(p, q);
        assert(entries_at(one, p).last() == one.last());
        assert(entries_at(other, p).last() == other.last());
        let first = one.drop_last();
        let second = other.drop_last();
        assert forall|path: Seq<char>| #[trigger]
            entries_at(second, path) == entries_at(first, path) by {
            assert(entries_at(other, path) == entries_at(one, path));
            if path == p {
                assert(entries_at(first, path) =~= entries_at(one, path).drop_last());
                assert(entries_at(second, path) =~= entries_at(other, path).drop_last());
            }
        }
        law_sorted_form_is_unique(first, second);
        assert(one =~= first.push(one.last()));
        assert(other =~= second.push(other.last()));
    }
}

/// The content type of the first file with this path.
pub fn find_content_type(files: &Vec<FileEntry>, path: &str) -> (found: Option<String>)
    ensures
        found.deep_view() == (match entry_at(files.deep_view(), path@) {
            Some(entry) => Some(entry.content_type),
            None => None,
        }),
{
    let ghost entries = files.deep_view();
    let mut i: usize = 0;
    assert(entries.skip(0) =~= entries);
    while i < files.len()
        invariant
            entries == files.deep_view(),
            i <= files.len(),
            entry_at(entries.skip(i as int), path@) == entry_at(entries, path@),
        decreases files.len() - i,
    {
        assert(entries.skip(i as int)[0] == entries[i as int]);
        if same_text(files[i].path.as_str(), path) {
            return Some(files[i].content_type.clone());
        }
        assert(entries.skip(i as int).drop_first() =~= entries.skip(i + 1));
        i += 1;
    }
    None
}

proof fn lemma_common_ending(name: Seq<char>, one: Seq<char>, other: Seq<char>)
    requires
        one.is_suffix_of(name),
        other.is_suffix_of(name),
    ensures
        forall|k: int|
            #![trigger one[one.len() - k]]
            #![trigger other[other.len() - k]]
            1 <= k <= one.len() && k <= other.len() ==> one[one.len() - k] == other[other.len() - k],
{
    let n = name.len() as int;
    assert(one =~= name.subrange(n - one.len(), n));
    assert(other =~= name.subrange(n - other.len(), n));
    assert forall|k: int|
        #![trigger one[one.len() - k]]
        #![trigger other[other.len() - k]]
        1 <= k <= one.len() && k <= other.len() implies one[one.len() - k] == other[other.len() - k] by {
        assert(one[one.len() - k] == name[n - k]);
        assert(other[other.len() - k] == name[n - k]);
    }
}

/// Two of the known endings never end one name.
proof fn lemma_endings_differ(name: Seq<char>, one: Seq<char>, other: Seq<char>, k: int)
    requires
        one.is_suffix_of(name),
        1 <= k <= one.len(),
        k <= other.len(),
        one[one.len() - k] != other[other.len() - k],
    ensures
        !other.is_suffix_of(name),
{
    if other.is_suffix_of(name) {
        lemma_common_ending(name, one, other);
    }
}

/// The content type goes by the ending of the name, in whatever case it is written; a name with
/// another ending is taken for bytes.
pub proof fn law_content_type_goes_by_the_ending(path: Seq<char>)
    ensures
        ({
            let name = lowercase(path);
            let kind = content_type_of(path);
            &&& ".html"@.is_suffix_of(name) ==> kind == "text/html; charset=utf-8"@
            &&& ".css"@.is_suffix_of(name) ==> kind == "text/css; charset=utf-8"@
            &&& ".js"@.is_suffix_of(name) ==> kind == "application/javascript; charset=utf-8"@
            &&& ".json"@.is_suffix_of(name) ==> kind == "application/json; charset=utf-8"@
            &&& ".svg"@.is_suffix_of(name) ==> kind == "image/svg+xml"@
            &&& ".png"@.is_suffix_of(name) ==> kind == "image/png"@
            &&& ".jpg"@.is_suffix_of(name) ==> kind == "image/jpeg"@
            &&& ".jpeg"@.is_suffix_of(name) ==> kind == "image/jpeg"@
            &&& ".webp"@.is_suffix_of(name) ==> kind == "image/webp"@
            &&& !".html"@.is_suffix_of(name) && !".css"@.is_suffix_of(name) && !".js"@.is_suffix_of(
                name,
            ) && !".json"@.is_suffix_of(name) && !".svg"@.is_suffix_of(name)
                && !".png"@.is_suffix_of(name) && !".jpg"@.is_suffix_of(name)
                && !".jpeg"@.is_suffix_of(name) && !".webp"@.is_suffix_of(name) ==> kind
                == "application/octet-stream"@
        }),
{
    let name = lowercase(path);
    reveal_strlit(".html");
    reveal_strlit(".css");
    reveal_strlit(".js");
    reveal_strlit(".json");
    reveal_strlit(".svg");
    reveal_strlit(".png");
    reveal_strlit(".jpg");
    reveal_strlit(".jpeg");
    reveal_strlit(".webp");
    assert(".html"@[4] == 'l');
    assert(".css"@[3] == 's' && ".css"@[2] == 's');
    assert(".js"@[2] == 's' && ".js"@[1] == 'j');
    assert(".json"@[4] == 'n' && ".json"@[3] == 'o');
    assert(".svg"@[3] == 'g' && ".svg"@[2] == 'v');
    assert(".png"@[3] == 'g' && ".png"@[2] == 'n');
    assert(".jpg"@[3] == 'g' && ".jpg"@[2] == 'p');
    assert(".jpeg"@[4] == 'g' && ".jpeg"@[3] == 'e');
    assert(".webp"@[4] == 'p');
    if ".css"@.is_suffix_of(name) {
        lemma_endings_differ(name, ".css"@, ".html"@, 1);
    }
    if ".js"@.is_suffix_of(name) {
        lemma_endings_differ(name, ".js"@, ".html"@, 1);
        lemma_endings_differ(name, ".js"@, ".css"@, 2);
    }
    if ".json"@.is_suffix_of(name) {
        lemma_endings_differ(name, ".json"@, ".html"@, 1);
        lemma_endings_differ(name, ".json"@, ".css"@, 1);
        lemma_endings_differ(name, ".json"@, ".js"@, 1);
    }
    if ".svg"@.is_suffix_of(name) {
        lemma_endings_differ(name, ".svg"@, ".html"@, 1);
        lemma_endings_differ(name, ".svg"@, ".css"@, 1);
        lemma_endings_differ(name, ".svg"@, ".js"@, 1);
        lemma_endings_differ(name, ".svg"@, ".json"@, 1);
    }
    if ".png"@.is_suffix_of(name) {
        lemma_endings_differ(name, ".png"@, ".html"@, 1);
        lemma_endings_differ(name, ".png"@, ".css"@, 1);
        lemma_endings_differ(name, ".png"@, ".js"@, 1);
        lemma_endings_differ(name, ".png"@, ".json"@, 1);
        lemma_endings_differ(name, ".png"@, ".svg"@, 2);
    }
    if ".jpg"@.is_suffix_of(name) {
        lemma_endings_differ(name, ".jpg"@, ".html"@, 1);
        lemma_endings_differ(name, ".jpg"@, ".css"@, 1);
        lemma_endings_differ(name, ".jpg"@, ".js"@, 1);
        lemma_endings_differ(name, ".jpg"@, ".json"@, 1);
        lemma_endings_differ(name, ".jpg"@, ".svg"@, 2);
        lemma_endings_differ(name, ".jpg"@, ".png"@, 2);
    }
    if ".jpeg"@.is_suffix_of(name) {
        lemma_endings_differ(name, ".jpeg"@, ".html"@, 1);
        lemma_endings_differ(name, ".jpeg"@, ".css"@, 1);
        lemma_endings_differ(name, ".jpeg"@, ".js"@, 1);
        lemma_endings_differ(name, ".jpeg"@, ".json"@, 1);
        lemma_endings_differ(name, ".jpeg"@, ".svg"@, 2);
        lemma_endings_differ(name, ".jpeg"@, ".png"@, 2);
    }
    if ".webp"@.is_suffix_of(name) {
        lemma_endings_differ(name, ".webp"@, ".html"@, 1);
        lemma_endings_differ(name, ".webp"@, ".css"@, 1);
        lemma_endings_differ(name, ".webp"@, ".js"@, 1);
        lemma_endings_differ(name, ".webp"@, ".json"@, 1);
        lemma_endings_differ(name, ".webp"@, ".svg"@, 1);
        lemma_endings_differ(name, ".webp"@, ".png"@, 1);
        lemma_endings_differ(name, ".webp"@, ".jpg"@, 1);
        lemma_endings_differ(name, ".webp"@, ".jpeg"@, 1);
    }
}

/// A file is told of by its path with slashes, the digest of what it holds, its size, and the
/// content type that the path stands for.
pub proof fn law_entry_tells_of_the_file(path: Seq<char>, bytes: Seq<u8>, size: u64)
    ensures
        ({
            let entry = entry_of(path, bytes, size);
            &&& entry.path.len() == path.len()
            &&& forall|i: int|
                0 <= i < path.len() ==> #[trigger] entry.path[i] == (if path[i] == '\\' {
                    '/'
                } else {
                    path[i]
                })
            &&& !path.contains('\\') ==> entry.path == path
            &&& entry.sha256 == hex(sha256(bytes))
            &&& entry.size == size
            &&& entry.content_type == content_type_of(entry.path)
        }),
{
    if !path.contains('\\') {
        assert(slashed(path) =~= path) by {
            assert forall|i: int| 0 <= i < path.len() implies slashed(path)[i] == path[i] by {
                assert(path.contains(path[i]));
            }
        }
    }
}

/// A file is found by its path if there is one, and the first one where there are more.
pub proof fn law_first_file_with_the_path_is_found(
    entries: Seq<FileEntry<Seq<char>>>,
    path: Seq<char>,
    index: int,
)
    ensures
        0 <= index < entries.len() && entries[index].path == path && (forall|i: int|
            0 <= i < index ==> (#[trigger] entries[i]).path != path) ==> entry_at(entries, path)
            == Some(entries[index]),
        (forall|i: int| 0 <= i < entries.len() ==> (#[trigger] entries[i]).path != path)
            ==> entry_at(entries, path) is None,
    decreases entries.len(),
{
    if entries.len() > 0 && entries[0].path != path {
        let rest = entries.drop_first();
        law_first_file_with_the_path_is_found(rest, path, index - 1);
        assert forall|i: int| 0 <= i < rest.len() implies #[trigger] rest[i] == entries[i + 1] by {}
    }
}

proof fn lemma_entries_at_count(entries: Seq<FileEntry<Seq<char>>>, entry: FileEntry<Seq<char>>)
    ensures
        entries_at(entries, entry.path).to_multiset().count(entry) == entries.to_multiset().count(
            entry,
        ),
    decreases entries.len(),
{
    broadcast use vstd::seq_lib::group_to_multiset_ensures;

    if entries.len() > 0 {
        let front = entries.drop_last();
        lemma_entries_at_count(front, entry);
        assert(entries =~= front.push(entries.last()));
        let found = entries_at(front, entry.path);
        if entries.last().path == entry.path {
            assert(entries_at(entries, entry.path) == found.push(entries.last()));
        }
    }
}

/// Sorting loses no file and adds none.
pub proof fn law_sorting_keeps_the_files(
    sorted: Seq<FileEntry<Seq<char>>>,
    entries: Seq<FileEntry<Seq<char>>>,
)
    requires
        is_sorted_form(sorted, entries),
    ensures
        sorted.to_multiset() == entries.to_multiset(),
        forall|i: int, j: int|
            0 <= i <= j < sorted.len() ==> text_le(
                (#[trigger] sorted[i]).path,
                (#[trigger] sorted[j]).path,
            ),
{
    assert forall|entry: FileEntry<Seq<char>>|
        sorted.to_multiset().count(entry) == entries.to_multiset().count(entry) by {
        lemma_entries_at_count(sorted, entry);
        lemma_entries_at_count(entries, entry);
        assert(entries_at(sorted, entry.path) == entries_at(entries, entry.path));
    }
    assert(sorted.to_multiset() =~= entries.to_multiset());
}

} // verus!
