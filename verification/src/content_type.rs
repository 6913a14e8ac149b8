//! The content-type table: from a file extension to a MIME type, with one
//! fallback for every extension that the table does not hold.

use crate::text::{chars_of, codes, lower_code, lower_codes, to_lower_code};
use vstd::prelude::*;
use vstd::slice::slice_subrange;

verus! {

/// The table: each extension, in lower case, with its MIME type.
pub open spec fn content_type_entries() -> Seq<(Seq<char>, Seq<char>)> {
    seq![
        ("html"@, "text/html"@),
        ("css"@, "text/css"@),
        ("ics"@, "text/calendar"@),
        ("js"@, "application/javascript"@),
        ("json"@, "application/json"@),
        ("png"@, "image/png"@),
        ("jpeg"@, "image/jpeg"@),
        ("jpg"@, "image/jpeg"@),
        ("gif"@, "image/gif"@),
        ("svg"@, "image/svg+xml"@),
        ("ico"@, "image/x-icon"@),
        ("txt"@, "text/plain"@),
        ("pdf"@, "application/pdf"@),
        ("zip"@, "application/zip"@),
        ("xml"@, "application/xml"@),
        ("vcard"@, "text/vcard"@),
        ("vcf"@, "text/vcard"@),
        ("vcard+json"@, "application/vcard+json"@),
        ("vcard+xml"@, "application/vcard+xml"@),
    ]
}

/// The MIME type of every extension that the table does not hold, and of a
/// path without an extension.
pub open spec fn fallback_type() -> Seq<char> {
    "application/octet-stream"@
}

/// The MIME type of the first entry at or after `from` whose extension has
/// the codes `key`.
pub open spec fn lookup_from(
    entries: Seq<(Seq<char>, Seq<char>)>,
    key: Seq<u32>,
    from: int,
) -> Option<Seq<char>>
    decreases entries.len() - from,
{
    if from < 0 || from >= entries.len() {
        None
    } else if codes(entries[from].0) == key {
        Some(entries[from].1)
    } else {
        lookup_from(entries, key, from + 1)
    }
}

/// The MIME type of the extension `ext`: that of the table's entry for `ext`
/// in lower case, or the fallback.
pub open spec fn resolve_spec(ext: Seq<char>) -> Seq<char> {
    match lookup_from(content_type_entries(), lower_codes(ext), 0) {
        Some(mime) => mime,
        None => fallback_type(),
    }
}

/// The index of the last `c` among the first `upto` characters of `s`, or -1.
pub open spec fn last_before(s: Seq<char>, c: char, upto: int) -> int
    decreases upto,
{
    if upto <= 0 || upto > s.len() {
        -1
    } else if s[upto - 1] == c {
        upto - 1
    } else {
        last_before(s, c, upto - 1)
    }
}

/// Where the last segment of `path` starts: right after its last slash.
pub open spec fn file_name_start(path: Seq<char>) -> int {
    last_before(path, '/', path.len() as int) + 1
}

/// The bounds of the extension of `path`: what follows the last dot of its
/// last segment. There is none where that segment has no dot, has its only
/// dot in front, or is `..`.
pub open spec fn extension_bounds(path: Seq<char>) -> Option<(int, int)> {
    let start = file_name_start(path);
    let name = path.subrange(start, path.len() as int);
    let dot = last_before(name, '.', name.len() as int);
    if dot <= 0 || (name.len() == 2 && name[0] == '.') {
        None
    } else {
        Some((start + dot + 1, path.len() as int))
    }
}

/// The MIME type under which the file at `path` is served.
pub open spec fn content_type_of(path: Seq<char>) -> Seq<char> {
    match extension_bounds(path) {
        Some((from, to)) => resolve_spec(path.subrange(from, to)),
        None => fallback_type(),
    }
}

/// A table of string pairs, each string taken by its characters.
pub open spec fn table_view(table: Seq<(&'static str, &'static str)>) -> Seq<
    (Seq<char>, Seq<char>),
> {
    Seq::new(table.len(), |i: int| (table[i].0@, table[i].1@))
}

/// Builds the content-type table: every entry in its place, and no
/// extension twice.
pub fn get_content_type_map() -> (table: Vec<(&'static str, &'static str)>)
    ensures
        table_view(table@) == content_type_entries(),
        forall|i: int, j: int|
            0 <= i < j < table@.len() ==> (#[trigger] table@[i]).0@ != (#[trigger] table@[j]).0@,
{
    let mut table: Vec<(&'static str, &'static str)> = Vec::new();
    table.push(("html", "text/html"));
    table.push(("css", "text/css"));
    table.push(("ics", "text/calendar"));
    table.push(("js", "application/javascript"));
    table.push(("json", "application/json"));
    table.push(("png", "image/png"));
    table.push(("jpeg", "image/jpeg"));
    table.push(("jpg", "image/jpeg"));
    table.push(("gif", "image/gif"));
    table.push(("svg", "image/svg+xml"));
    table.push(("ico", "image/x-icon"));
    table.push(("txt", "text/plain"));
    table.push(("pdf", "application/pdf"));
    table.push(("zip", "application/zip"));
    table.push(("xml", "application/xml"));
    table.push(("vcard", "text/vcard"));
    table.push(("vcf", "text/vcard"));
    table.push(("vcard+json", "application/vcard+json"));
    table.push(("vcard+xml", "application/vcard+xml"));
    assert(table_view(table@) =~= content_type_entries());
    proof {
        table_keys_distinct();
        assert forall|i: int, j: int| 0 <= i < j < table@.len() implies (#[trigger] table@[i]).0@
            != (#[trigger] table@[j]).0@ by {
            assert(table_view(table@)[i].0 == table@[i].0@);
            assert(table_view(table@)[j].0 == table@[j].0@);
        }
    }
    table
}

/// Tests whether `a`, with its letters folded to lower case, reads as `b`.
pub fn equals_ignoring_case(a: &[char], b: &[char]) -> (r: bool)
    ensures
        r == (lower_codes(a@) == codes(b@)),
{
    if a.len() != b.len() {
        assert(lower_codes(a@).len() != codes(b@).len());
        return false;
    }
    let mut i: usize = 0;
    while i < a.len()
        invariant
            i <= a@.len() == b@.len(),
            forall|j: int| 0 <= j < i ==> lower_code(a@[j]) == #[trigger] b@[j] as u32,
        decreases a@.len() - i,
    {
        if to_lower_code(a[i]) != b[i] as u32 {
            assert(lower_codes(a@)[i as int] != codes(b@)[i as int]);
            return false;
        }
        i += 1;
    }
    assert(lower_codes(a@) =~= codes(b@));
    true
}

/// Looks up the MIME type of the extension `ext`, given by its characters.
pub fn resolve_chars(ext: &[char]) -> (mime: &'static str)
    ensures
        mime@ == resolve_spec(ext@),
{
    let table = get_content_type_map();
    let mut i: usize = 0;
    while i < table.len()
        invariant
            i <= table@.len(),
            table_view(table@) == content_type_entries(),
            lookup_from(content_type_entries(), lower_codes(ext@), i as int) == lookup_from(
                content_type_entries(),
                lower_codes(ext@),
                0,
            ),
        decreases table@.len() - i,
    {
        let entry: (&'static str, &'static str) = table[i];
        let key = chars_of(entry.0);
        assert(table_view(table@)[i as int] == (entry.0@, entry.1@));
        if equals_ignoring_case(ext, key.as_slice()) {
            return entry.1;
        }
        i += 1;
    }
    "application/octet-stream"
}

/// Looks up the MIME type of the extension `ext`. The case of its letters
/// does not matter; an extension that the table lacks gets the fallback.
pub fn resolve(ext: &str) -> (mime: &'static str)
    ensures
        mime@ == resolve_spec(ext@),
{
    let chars = chars_of(ext);
    resolve_chars(chars.as_slice())
}

/// Finds the last `c` in `s`.
pub fn last_position(s: &[char], c: char) -> (r: Option<usize>)
    ensures
        match r {
            Some(i) => i == last_before(s@, c, s@.len() as int) && i < s@.len(),
            None => last_before(s@, c, s@.len() as int) == -1,
        },
{
    let mut i: usize = s.len();
    while i > 0
        invariant
            i <= s@.len(),
            last_before(s@, c, i as int) == last_before(s@, c, s@.len() as int),
        decreases i,
    {
        if s[i - 1] == c {
            return Some(i - 1);
        }
        i -= 1;
    }
    None
}

/// Finds the extension of `path`.
pub fn extension_of(path: &[char]) -> (r: Option<(usize, usize)>)
    ensures
        match r {
            Some((a, b)) => extension_bounds(path@) == Some((a as int, b as int)) && a <= b
                == path@.len(),
            None => extension_bounds(path@) is None,
        },
{
    let len: usize = path.len();
    let start: usize = match last_position(path, '/') {
        Some(slash) => {
            assert(slash < len);
            slash + 1
        },
        None => 0,
    };
    let name: &[char] = slice_subrange(path, start, path.len());
    if name.len() == 2 && name[0] == '.' {
        return None;
    }
    match last_position(name, '.') {
        Some(dot) => if dot == 0 {
            None
        } else {
            Some((start + dot + 1, path.len()))
        },
        None => None,
    }
}

/// The MIME type under which the file at `path` is served: that of the
/// path's extension, or the fallback where it has none.
pub fn content_type_for(path: &str) -> (mime: &'static str)
    ensures
        mime@ == content_type_of(path@),
{
    let chars = chars_of(path);
    match extension_of(chars.as_slice()) {
        Some((from, to)) => resolve_chars(slice_subrange(chars.as_slice(), from, to)),
        None => "application/octet-stream",
    }
}

/// An entry is found by its extension where no earlier entry has the same.
pub proof fn lookup_finds(entries: Seq<(Seq<char>, Seq<char>)>, key: Seq<u32>, i: int, from: int)
    requires
        0 <= from <= i < entries.len(),
        codes(entries[i].0) == key,
        forall|j: int| from <= j < i ==> codes(#[trigger] entries[j].0) != key,
    ensures
        lookup_from(entries, key, from) == Some(entries[i].1),
    decreases i - from,
{
    if from < i {
        lookup_finds(entries, key, i, from + 1);
    }
}

/// Nothing is found where no entry has the extension.
pub proof fn lookup_misses(entries: Seq<(Seq<char>, Seq<char>)>, key: Seq<u32>, from: int)
    requires
        0 <= from,
        forall|j: int| from <= j < entries.len() ==> codes(#[trigger] entries[j].0) != key,
    ensures
        lookup_from(entries, key, from) is None,
    decreases entries.len() - from,
{
    if from < entries.len() {
        lookup_misses(entries, key, from + 1);
    }
}

/// No two entries of the table have the same extension.
pub proof fn table_keys_distinct()
    ensures
        content_type_entries().len() == 19,
        forall|i: int, j: int|
            0 <= i < j < 19 ==> codes(#[trigger] content_type_entries()[i].0) != codes(
                #[trigger] content_type_entries()[j].0,
            ),
{
    reveal_strlit("html");
    reveal_strlit("css");
    reveal_strlit("ics");
    reveal_strlit("js");
    reveal_strlit("json");
    reveal_strlit("png");
    reveal_strlit("jpeg");
    reveal_strlit("jpg");
    reveal_strlit("gif");
    reveal_strlit("svg");
    reveal_strlit("ico");
    reveal_strlit("txt");
    reveal_strlit("pdf");
    reveal_strlit("zip");
    reveal_strlit("xml");
    reveal_strlit("vcard");
    reveal_strlit("vcf");
    reveal_strlit("vcard+json");
    reveal_strlit("vcard+xml");
    assert(codes("html"@)[0] == "html"@[0] as u32);
    assert(codes("css"@)[0] == "css"@[0] as u32);
    assert(codes("ics"@)[0] == "ics"@[0] as u32);
    assert(codes("js"@)[0] == "js"@[0] as u32);
    assert(codes("json"@)[0] == "json"@[0] as u32);
    assert(codes("png"@)[0] == "png"@[0] as u32);
    assert(codes("jpeg"@)[0] == "jpeg"@[0] as u32);
    assert(codes("jpg"@)[0] == "jpg"@[0] as u32);
    assert(codes("gif"@)[0] == "gif"@[0] as u32);
    assert(codes("svg"@)[0] == "svg"@[0] as u32);
    assert(codes("ico"@)[0] == "ico"@[0] as u32);
    assert(codes("txt"@)[0] == "txt"@[0] as u32);
    assert(codes("pdf"@)[0] == "pdf"@[0] as u32);
    assert(codes("zip"@)[0] == "zip"@[0] as u32);
    assert(codes("xml"@)[0] == "xml"@[0] as u32);
    assert(codes("vcard"@)[0] == "vcard"@[0] as u32);
    assert(codes("vcf"@)[0] == "vcf"@[0] as u32);
    assert(codes("vcard+json"@)[0] == "vcard+json"@[0] as u32);
    assert(codes("vcard+xml"@)[0] == "vcard+xml"@[0] as u32);
    assert(codes("json"@)[1] == "json"@[1] as u32);
    assert(codes("jpeg"@)[1] == "jpeg"@[1] as u32);
    assert(codes("png"@)[1] == "png"@[1] as u32);
    assert(codes("pdf"@)[1] == "pdf"@[1] as u32);
    assert(codes("ics"@)[2] == "ics"@[2] as u32);
    assert(codes("ico"@)[2] == "ico"@[2] as u32);
    assert(codes("html"@).len() == 4);
    assert(codes("css"@).len() == 3);
    assert(codes("ics"@).len() == 3);
    assert(codes("js"@).len() == 2);
    assert(codes("json"@).len() == 4);
    assert(codes("png"@).len() == 3);
    assert(codes("jpeg"@).len() == 4);
    assert(codes("jpg"@).len() == 3);
    assert(codes("gif"@).len() == 3);
    assert(codes("svg"@).len() == 3);
    assert(codes("ico"@).len() == 3);
    assert(codes("txt"@).len() == 3);
    assert(codes("pdf"@).len() == 3);
    assert(codes("zip"@).len() == 3);
    assert(codes("xml"@).len() == 3);
    assert(codes("vcard"@).len() == 5);
    assert(codes("vcf"@).len() == 3);
    assert(codes("vcard+json"@).len() == 10);
    assert(codes("vcard+xml"@).len() == 9);
    let e = content_type_entries();
    assert(e[0].0 == "html"@);
    assert(e[1].0 == "css"@);
    assert(e[2].0 == "ics"@);
    assert(e[3].0 == "js"@);
    assert(e[4].0 == "json"@);
    assert(e[5].0 == "png"@);
    assert(e[6].0 == "jpeg"@);
    assert(e[7].0 == "jpg"@);
    assert(e[8].0 == "gif"@);
    assert(e[9].0 == "svg"@);
    assert(e[10].0 == "ico"@);
    assert(e[11].0 == "txt"@);
    assert(e[12].0 == "pdf"@);
    assert(e[13].0 == "zip"@);
    assert(e[14].0 == "xml"@);
    assert(e[15].0 == "vcard"@);
    assert(e[16].0 == "vcf"@);
    assert(e[17].0 == "vcard+json"@);
    assert(e[18].0 == "vcard+xml"@);
    assert forall|i: int, j: int| 0 <= i < j < 19 implies codes(#[trigger] e[i].0) != codes(
        #[trigger] e[j].0,
    ) by {
        assert(i == 0 || i == 1 || i == 2 || i == 3 || i == 4 || i == 5 || i == 6 || i == 7 ||
            i == 8 || i == 9 || i == 10 || i == 11 || i == 12 || i == 13 || i == 14 ||
            i == 15 || i == 16 || i == 17 || i == 18);
        assert(j == 0 || j == 1 || j == 2 || j == 3 || j == 4 || j == 5 || j == 6 || j == 7 ||
            j == 8 || j == 9 || j == 10 || j == 11 || j == 12 || j == 13 || j == 14 ||
            j == 15 || j == 16 || j == 17 || j == 18);
    }
}

/// An extension that, in lower case, is the extension of an entry of the
/// table resolves to that entry's MIME type.
pub proof fn known_extension_resolves(ext: Seq<char>, i: int)
    requires
        0 <= i < content_type_entries().len(),
        lower_codes(ext) == codes(content_type_entries()[i].0),
    ensures
        resolve_spec(ext) == content_type_entries()[i].1,
{
    table_keys_distinct();
    lookup_finds(content_type_entries(), lower_codes(ext), i, 0);
}

/// Every extension of the table is written in lower case.
pub proof fn table_keys_lower_case()
    ensures
        forall|i: int|
            0 <= i < content_type_entries().len() ==> lower_codes(
                #[trigger] content_type_entries()[i].0,
            ) == codes(content_type_entries()[i].0),
{
    reveal_strlit("html");
    assert forall|j: int| 0 <= j < 4 implies lower_code(#[trigger] "html"@[j]) == "html"@[j] as u32 by {
        assert(j == 0 || j == 1 || j == 2 || j == 3);
    }
    assert(lower_codes("html"@) =~= codes("html"@));
    reveal_strlit("css");
    assert forall|j: int| 0 <= j < 3 implies lower_code(#[trigger] "css"@[j]) == "css"@[j] as u32 by {
        assert(j == 0 || j == 1 || j == 2);
    }
    assert(lower_codes("css"@) =~= codes("css"@));
    reveal_strlit("ics");
    assert forall|j: int| 0 <= j < 3 implies lower_code(#[trigger] "ics"@[j]) == "ics"@[j] as u32 by {
        assert(j == 0 || j == 1 || j == 2);
    }
    assert(lower_codes("ics"@) =~= codes("ics"@));
    reveal_strlit("js");
    assert forall|j: int| 0 <= j < 2 implies lower_code(#[trigger] "js"@[j]) == "js"@[j] as u32 by {
        assert(j == 0 || j == 1);
    }
    assert(lower_codes("js"@) =~= codes("js"@));
    reveal_strlit("json");
    assert forall|j: int| 0 <= j < 4 implies lower_code(#[trigger] "json"@[j]) == "json"@[j] as u32 by {
        assert(j == 0 || j == 1 || j == 2 || j == 3);
    }
    assert(lower_codes("json"@) =~= codes("json"@));
    reveal_strlit("png");
    assert forall|j: int| 0 <= j < 3 implies lower_code(#[trigger] "png"@[j]) == "png"@[j] as u32 by {
        assert(j == 0 || j == 1 || j == 2);
    }
    assert(lower_codes("png"@) =~= codes("png"@));
    reveal_strlit("jpeg");
    assert forall|j: int| 0 <= j < 4 implies lower_code(#[trigger] "jpeg"@[j]) == "jpeg"@[j] as u32 by {
        assert(j == 0 || j == 1 || j == 2 || j == 3);
    }
    assert(lower_codes("jpeg"@) =~= codes("jpeg"@));
    reveal_strlit("jpg");
    assert forall|j: int| 0 <= j < 3 implies lower_code(#[trigger] "jpg"@[j]) == "jpg"@[j] as u32 by {
        assert(j == 0 || j == 1 || j == 2);
    }
    assert(lower_codes("jpg"@) =~= codes("jpg"@));
    reveal_strlit("gif");
    assert forall|j: int| 0 <= j < 3 implies lower_code(#[trigger] "gif"@[j]) == "gif"@[j] as u32 by {
        assert(j == 0 || j == 1 || j == 2);
    }
    assert(lower_codes("gif"@) =~= codes("gif"@));
    reveal_strlit("svg");
    assert forall|j: int| 0 <= j < 3 implies lower_code(#[trigger] "svg"@[j]) == "svg"@[j] as u32 by {
        assert(j == 0 || j == 1 || j == 2);
    }
    assert(lower_codes("svg"@) =~= codes("svg"@));
    reveal_strlit("ico");
    assert forall|j: int| 0 <= j < 3 implies lower_code(#[trigger] "ico"@[j]) == "ico"@[j] as u32 by {
        assert(j == 0 || j == 1 || j == 2);
    }
    assert(lower_codes("ico"@) =~= codes("ico"@));
    reveal_strlit("txt");
    assert forall|j: int| 0 <= j < 3 implies lower_code(#[trigger] "txt"@[j]) == "txt"@[j] as u32 by {
        assert(j == 0 || j == 1 || j == 2);
    }
    assert(lower_codes("txt"@) =~= codes("txt"@));
    reveal_strlit("pdf");
    assert forall|j: int| 0 <= j < 3 implies lower_code(#[trigger] "pdf"@[j]) == "pdf"@[j] as u32 by {
        assert(j == 0 || j == 1 || j == 2);
    }
    assert(lower_codes("pdf"@) =~= codes("pdf"@));
    reveal_strlit("zip");
    assert forall|j: int| 0 <= j < 3 implies lower_code(#[trigger] "zip"@[j]) == "zip"@[j] as u32 by {
        assert(j == 0 || j == 1 || j == 2);
    }
    assert(lower_codes("zip"@) =~= codes("zip"@));
    reveal_strlit("xml");
    assert forall|j: int| 0 <= j < 3 implies lower_code(#[trigger] "xml"@[j]) == "xml"@[j] as u32 by {
        assert(j == 0 || j == 1 || j == 2);
    }
    assert(lower_codes("xml"@) =~= codes("xml"@));
    reveal_strlit("vcard");
    assert forall|j: int| 0 <= j < 5 implies lower_code(#[trigger] "vcard"@[j]) == "vcard"@[j] as u32 by {
        assert(j == 0 || j == 1 || j == 2 || j == 3 || j == 4);
    }
    assert(lower_codes("vcard"@) =~= codes("vcard"@));
    reveal_strlit("vcf");
    assert forall|j: int| 0 <= j < 3 implies lower_code(#[trigger] "vcf"@[j]) == "vcf"@[j] as u32 by {
        assert(j == 0 || j == 1 || j == 2);
    }
    assert(lower_codes("vcf"@) =~= codes("vcf"@));
    reveal_strlit("vcard+json");
    assert forall|j: int| 0 <= j < 10 implies lower_code(#[trigger] "vcard+json"@[j]) == "vcard+json"@[j] as u32 by {
        assert(j == 0 || j == 1 || j == 2 || j == 3 || j == 4 || j == 5 || j == 6 || j == 7 ||
            j == 8 || j == 9);
    }
    assert(lower_codes("vcard+json"@) =~= codes("vcard+json"@));
    reveal_strlit("vcard+xml");
    assert forall|j: int| 0 <= j < 9 implies lower_code(#[trigger] "vcard+xml"@[j]) == "vcard+xml"@[j] as u32 by {
        assert(j == 0 || j == 1 || j == 2 || j == 3 || j == 4 || j == 5 || j == 6 || j == 7 ||
            j == 8);
    }
    assert(lower_codes("vcard+xml"@) =~= codes("vcard+xml"@));
    let e = content_type_entries();
    assert(e[0].0 == "html"@);
    assert(e[1].0 == "css"@);
    assert(e[2].0 == "ics"@);
    assert(e[3].0 == "js"@);
    assert(e[4].0 == "json"@);
    assert(e[5].0 == "png"@);
    assert(e[6].0 == "jpeg"@);
    assert(e[7].0 == "jpg"@);
    assert(e[8].0 == "gif"@);
    assert(e[9].0 == "svg"@);
    assert(e[10].0 == "ico"@);
    assert(e[11].0 == "txt"@);
    assert(e[12].0 == "pdf"@);
    assert(e[13].0 == "zip"@);
    assert(e[14].0 == "xml"@);
    assert(e[15].0 == "vcard"@);
    assert(e[16].0 == "vcf"@);
    assert(e[17].0 == "vcard+json"@);
    assert(e[18].0 == "vcard+xml"@);
    assert forall|i: int| 0 <= i < 19 implies lower_codes(#[trigger] e[i].0) == codes(e[i].0) by {
        assert(i == 0 || i == 1 || i == 2 || i == 3 || i == 4 || i == 5 || i == 6 || i == 7 ||
            i == 8 || i == 9 || i == 10 || i == 11 || i == 12 || i == 13 || i == 14 ||
            i == 15 || i == 16 || i == 17 || i == 18);
    }
}

/// Every extension of the table resolves to the MIME type that the table
/// gives for it.
pub proof fn listed_extension_resolves(i: int)
    requires
        0 <= i < content_type_entries().len(),
    ensures
        resolve_spec(content_type_entries()[i].0) == content_type_entries()[i].1,
{
    table_keys_lower_case();
    known_extension_resolves(content_type_entries()[i].0, i);
}

/// An extension that, in lower case, is the extension of no entry of the
/// table resolves to the fallback.
pub proof fn unknown_extension_falls_back(ext: Seq<char>)
    requires
        forall|i: int|
            0 <= i < content_type_entries().len() ==> lower_codes(ext) != codes(
                #[trigger] content_type_entries()[i].0,
            ),
    ensures
        resolve_spec(ext) == fallback_type(),
{
    lookup_misses(content_type_entries(), lower_codes(ext), 0);
}

} // verus!
