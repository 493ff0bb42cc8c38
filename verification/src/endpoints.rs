//! The endpoint registry: configured gateway addresses brought to their
//! canonical form, in the order in which they are tried.

use crate::text::{
    chars_of, ends_with, lemma_strip_trailing_prefix, lemma_trim_edges, lemma_trim_fixed,
    range_ends_with, split_on, strip_trailing, strip_trailing_bound, texts, trim, trim_bounds,
    trim_range,
};
use vstd::prelude::*;

verus! {

/// The path under which a gateway accepts bundle requests.
pub open spec fn bundles_path() -> Seq<char> {
    "/api/v1/bundles"@
}

/// A configured address without surrounding whitespace and without trailing
/// path separators.
pub open spec fn endpoint_base(raw: Seq<char>) -> Seq<char> {
    strip_trailing(trim(raw), '/')
}

/// The canonical request address for a configured entry: its base, followed by
/// the bundles path unless the base already ends with it. An entry whose base
/// is empty names no endpoint.
pub open spec fn canonical_url(raw: Seq<char>) -> Option<Seq<char>> {
    let base = endpoint_base(raw);
    if base.len() == 0 {
        None
    } else if ends_with(base, bundles_path()) {
        Some(base)
    } else {
        Some(base + bundles_path())
    }
}

/// The canonical addresses of the entries that name an endpoint, in the order
/// of the entries.
pub open spec fn canonical_urls(raws: Seq<Seq<char>>) -> Seq<Seq<char>>
    decreases raws.len(),
{
    if raws.len() == 0 {
        Seq::empty()
    } else {
        let front = canonical_urls(raws.drop_last());
        match canonical_url(raws.last()) {
            Some(url) => front.push(url),
            None => front,
        }
    }
}

/// The trimmed pieces that are not empty, in the order of the pieces.
pub open spec fn trimmed_entries(pieces: Seq<Seq<char>>) -> Seq<Seq<char>>
    decreases pieces.len(),
{
    if pieces.len() == 0 {
        Seq::empty()
    } else {
        let front = trimmed_entries(pieces.drop_last());
        if trim(pieces.last()).len() > 0 {
            front.push(trim(pieces.last()))
        } else {
            front
        }
    }
}

/// The entries of a list written on one line with commas between them:
/// each without the whitespace around it, empty ones left out.
pub open spec fn listed_entries(line: Seq<char>) -> Seq<Seq<char>> {
    trimmed_entries(split_on(line, ','))
}

/// The bundles path is fifteen characters, starts with a separator and ends
/// with a letter.
pub proof fn lemma_bundles_path_shape()
    ensures
        bundles_path().len() == 15,
        bundles_path()[0] == '/',
        bundles_path().last() == 's',
{
    reveal_strlit("/api/v1/bundles");
}

/// A canonical address ends with the bundles path, and the path is never
/// appended to a base that already ends with it: the result ends with the
/// path written twice only where the base did.
pub proof fn lemma_canonical_url_ends_with_path(raw: Seq<char>)
    requires
        canonical_url(raw) is Some,
    ensures
        ends_with(canonical_url(raw)->0, bundles_path()),
        ends_with(canonical_url(raw)->0, bundles_path() + bundles_path()) <==> ends_with(
            endpoint_base(raw),
            bundles_path() + bundles_path(),
        ),
{
    let base = endpoint_base(raw);
    let path = bundles_path();
    let url = canonical_url(raw)->0;
    if !ends_with(base, path) {
        assert(url.subrange(url.len() - path.len(), url.len() as int) == path);
        if ends_with(url, path + path) {
            let twice = url.subrange(url.len() - 2 * path.len(), url.len() as int);
            assert(twice == path + path);
            assert(base.subrange(base.len() - path.len(), base.len() as int) == twice.subrange(
                0,
                path.len() as int,
            ));
            assert(twice.subrange(0, path.len() as int) == path);
        }
        if ends_with(base, path + path) {
            let twice = base.subrange(base.len() - 2 * path.len(), base.len() as int);
            assert(base.subrange(base.len() - path.len(), base.len() as int) == twice.subrange(
                path.len() as int,
                2 * path.len() as int,
            ));
            assert((path + path).subrange(path.len() as int, 2 * path.len() as int) == path);
        }
    }
}

/// Normalization is idempotent on one address: a canonical address is its own
/// canonical form.
pub proof fn lemma_canonical_url_fixed(raw: Seq<char>)
    requires
        canonical_url(raw) is Some,
    ensures
        canonical_url(canonical_url(raw)->0) == canonical_url(raw),
{
    let trimmed = trim(raw);
    let base = endpoint_base(raw);
    let path = bundles_path();
    let url = canonical_url(raw)->0;
    lemma_bundles_path_shape();
    lemma_canonical_url_ends_with_path(raw);
    lemma_trim_edges(raw);
    lemma_strip_trailing_prefix(trimmed, '/');
    assert(url.last() == path.last()) by {
        assert(url.subrange(url.len() - path.len(), url.len() as int)[path.len() - 1]
            == url.last());
    }
    assert(url[0] == trimmed[0]) by {
        assert(base[0] == trimmed.take(base.len() as int)[0]);
    }
    lemma_trim_fixed(url);
    assert(strip_trailing(url, '/') == url);
}

/// Normalization keeps the order of the entries: the canonical list of a
/// concatenation is the concatenation of the canonical lists.
pub proof fn lemma_canonical_urls_concat(a: Seq<Seq<char>>, b: Seq<Seq<char>>)
    ensures
        canonical_urls(a + b) == canonical_urls(a) + canonical_urls(b),
    decreases b.len(),
{
    if b.len() == 0 {
        assert(a + b == a);
        assert(canonical_urls(a) + canonical_urls(b) == canonical_urls(a));
    } else {
        lemma_canonical_urls_concat(a, b.drop_last());
        assert((a + b).drop_last() == a + b.drop_last());
        assert((a + b).last() == b.last());
        match canonical_url(b.last()) {
            Some(url) => {
                assert((canonical_urls(a) + canonical_urls(b.drop_last())).push(url)
                    == canonical_urls(a) + canonical_urls(b.drop_last()).push(url));
            },
            None => {},
        }
    }
}

/// Every address of a canonical list is canonical and ends with the bundles
/// path.
pub proof fn lemma_canonical_urls_members(raws: Seq<Seq<char>>, k: int)
    requires
        0 <= k < canonical_urls(raws).len(),
    ensures
        ends_with(canonical_urls(raws)[k], bundles_path()),
        canonical_url(canonical_urls(raws)[k]) == Some(canonical_urls(raws)[k]),
    decreases raws.len(),
{
    if raws.len() > 0 {
        let front = canonical_urls(raws.drop_last());
        if k < front.len() {
            lemma_canonical_urls_members(raws.drop_last(), k);
        } else {
            lemma_canonical_url_ends_with_path(raws.last());
            lemma_canonical_url_fixed(raws.last());
        }
    }
}

/// Normalization is idempotent on a list: normalizing a canonical list gives
/// the same list.
pub proof fn lemma_canonical_urls_idempotent(raws: Seq<Seq<char>>)
    ensures
        canonical_urls(canonical_urls(raws)) == canonical_urls(raws),
    decreases raws.len(),
{
    if raws.len() > 0 {
        let front = canonical_urls(raws.drop_last());
        lemma_canonical_urls_idempotent(raws.drop_last());
        match canonical_url(raws.last()) {
            Some(url) => {
                lemma_canonical_url_fixed(raws.last());
                assert(front.push(url).drop_last() == front);
            },
            None => {},
        }
    }
}

/// The canonical form of one configured entry, or `None` for an entry that
/// names no endpoint.
pub fn normalize_url(raw: &str) -> (r: Option<String>)
    ensures
        match r {
            Some(url) => canonical_url(raw@) == Some(url@),
            None => canonical_url(raw@) is None,
        },
{
    let chars = chars_of(raw);
    let (start, trimmed_end) = trim_bounds(&chars);
    let end = strip_trailing_bound(&chars, start, trimmed_end, '/');
    if start == end {
        return None;
    }
    let path = chars_of("/api/v1/bundles");
    let mut url: String = raw.substring_char(start, end).to_owned();
    if !range_ends_with(&chars, start, end, &path) {
        url.append("/api/v1/bundles");
    }
    Some(url)
}

/// The entries of a list written on one line with commas between them, as
/// the endpoint list is in its environment variable.
pub fn split_list(line: &str) -> (entries: Vec<String>)
    ensures
        texts(entries@) == listed_entries(line@),
{
    let chars = chars_of(line);
    let n: usize = chars.len();
    let mut entries: Vec<String> = Vec::new();
    let ghost mut done: Seq<Seq<char>> = Seq::empty();
    let mut start: usize = 0;
    let mut i: usize = 0;
    assert(chars@.take(0) == Seq::<char>::empty());
    assert(split_on(chars@.take(0), ',') == done.push(chars@.subrange(0, 0)));
    while i < n
        invariant
            start <= i <= n,
            n == chars@.len(),
            chars@ == line@,
            split_on(chars@.take(i as int), ',') == done.push(
                chars@.subrange(start as int, i as int),
            ),
            texts(entries@) == trimmed_entries(done),
        decreases n - i,
    {
        let ghost piece = chars@.subrange(start as int, i as int);
        proof {
            assert(chars@.take(i + 1).drop_last() == chars@.take(i as int));
            assert(done.push(piece).drop_last() == done);
        }
        if chars[i] == ',' {
            let (a, b) = trim_range(&chars, start, i);
            let ghost before = texts(entries@);
            if a < b {
                entries.push(line.substring_char(a, b).to_owned());
                assert(texts(entries@) == before.push(trim(piece)));
            }
            proof {
                done = done.push(piece);
                assert(done.drop_last().push(piece) == done);
                assert(chars@.subrange(i + 1, i + 1) == Seq::<char>::empty());
            }
            start = i + 1;
        } else {
            assert(piece.push(chars@[i as int]) == chars@.subrange(start as int, i + 1));
        }
        i = i + 1;
    }
    let ghost piece = chars@.subrange(start as int, n as int);
    let (a, b) = trim_range(&chars, start, n);
    let ghost before = texts(entries@);
    if a < b {
        entries.push(line.substring_char(a, b).to_owned());
        assert(texts(entries@) == before.push(trim(piece)));
    }
    proof {
        assert(chars@.take(n as int) == chars@);
        assert(done.push(piece).drop_last() == done);
    }
    entries
}

/// The canonical addresses of the configured entries that name an endpoint,
/// in the order of the entries.
pub fn normalize_urls(raws: &Vec<String>) -> (urls: Vec<String>)
    ensures
        texts(urls@) == canonical_urls(texts(raws@)),
{
    let mut urls: Vec<String> = Vec::new();
    let n: usize = raws.len();
    let mut i: usize = 0;
    while i < n
        invariant
            i <= n,
            n == raws@.len(),
            texts(urls@) == canonical_urls(texts(raws@).take(i as int)),
        decreases n - i,
    {
        let ghost before = texts(urls@);
        let normalized = normalize_url(raws[i].as_str());
        proof {
            let upto = texts(raws@).take(i + 1);
            assert(upto.drop_last() == texts(raws@).take(i as int));
            assert(upto.last() == raws@[i as int]@);
        }
        match normalized {
            Some(url) => {
                urls.push(url);
                assert(texts(urls@) == before.push(url@));
            },
            None => {},
        }
        i = i + 1;
    }
    assert(texts(raws@).take(n as int) == texts(raws@));
    urls
}

} // verus!
