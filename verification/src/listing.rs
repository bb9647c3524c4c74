//! Reading the output of a recursive file listing: one path per line.

use crate::text::{
    chars_of, drop_whitespace, is_whitespace, skip_whitespace, text_between, texts, trim_end,
    trim_start, trimmed,
};
use vstd::prelude::*;

verus! {

/// The number of characters of `text` before its first line feed, or its
/// length where it has none.
pub open spec fn line_len(text: Seq<char>) -> nat
    decreases text.len(),
{
    if text.len() == 0 || text[0] == '\n' {
        0
    } else {
        1 + line_len(text.drop_first())
    }
}

/// `line` without the carriage return at its end, if it has one.
pub open spec fn without_cr(line: Seq<char>) -> Seq<char> {
    if line.len() > 0 && line.last() == '\r' {
        line.drop_last()
    } else {
        line
    }
}

/// The lines of `text`. A line ends at a line feed, or at a carriage return
/// that a line feed follows; neither belongs to the line. The last line needs
/// no line ending, and an empty text has no line.
pub open spec fn lines(text: Seq<char>) -> Seq<Seq<char>>
    decreases text.len(),
{
    if text.len() == 0 {
        Seq::empty()
    } else {
        let n = line_len(text) as int;
        if n < text.len() {
            seq![without_cr(text.take(n))] + lines(text.skip(n + 1))
        } else {
            seq![text]
        }
    }
}

/// The paths that a listing names: each line of `text`, without the white
/// space at its ends, unless nothing is left of it.
pub open spec fn listed_paths(text: Seq<char>) -> Seq<Seq<char>>
    decreases text.len(),
{
    if text.len() == 0 {
        Seq::empty()
    } else {
        let n = line_len(text) as int;
        let path = trimmed(text.take(n));
        let here = if path.len() > 0 {
            seq![path]
        } else {
            Seq::empty()
        };
        if n < text.len() {
            here + listed_paths(text.skip(n + 1))
        } else {
            here
        }
    }
}

/// What can be read off a line: a text that is not empty, has no line feed
/// in it and no white space at either end.
pub open spec fn is_trimmed_line(path: Seq<char>) -> bool {
    &&& path.len() > 0
    &&& !is_whitespace(path[0])
    &&& !is_whitespace(path.last())
    &&& forall|i: int| 0 <= i < path.len() ==> path[i] != '\n'
}

/// A path as a listing prints it on a line of its own: absolute, with no
/// line feed in it and no white space at its end.
pub open spec fn is_listed_path(path: Seq<char>) -> bool {
    &&& is_trimmed_line(path)
    &&& path[0] == '/'
}

/// The listing that prints `paths`: each path on a line of its own, ended by
/// a line feed.
pub open spec fn listing_of(paths: Seq<Seq<char>>) -> Seq<char>
    decreases paths.len(),
{
    if paths.len() == 0 {
        Seq::empty()
    } else {
        paths[0] + seq!['\n'] + listing_of(paths.drop_first())
    }
}

/// Reading a listing gives back the paths that it prints: each of them once,
/// in the order of the lines, and nothing besides.
pub proof fn lemma_listing_round_trip(paths: Seq<Seq<char>>)
    requires
        forall|i: int| 0 <= i < paths.len() ==> is_listed_path(#[trigger] paths[i]),
    ensures
        listed_paths(listing_of(paths)) == paths,
    decreases paths.len(),
{
    if paths.len() > 0 {
        let first = paths[0];
        let rest = paths.drop_first();
        let text = listing_of(paths);
        assert(is_listed_path(first));
        assert forall|i: int| 0 <= i < rest.len() implies is_listed_path(#[trigger] rest[i]) by {
            assert(rest[i] == paths[i + 1]);
        }
        lemma_listing_round_trip(rest);
        assert forall|j: int| 0 <= j < first.len() implies text[j] != '\n' by {
            assert(text[j] == first[j]);
        }
        lemma_line_len(text, first.len() as int);
        assert(text.take(first.len() as int) == first);
        assert(text.skip(first.len() as int + 1) == listing_of(rest));
        assert(trimmed(first) == first);
        assert(seq![first] + rest == paths);
    }
}

/// No line feed comes before the end of the first line.
proof fn lemma_line_has_no_feed(text: Seq<char>)
    ensures
        line_len(text) <= text.len(),
        forall|j: int| 0 <= j < line_len(text) ==> text[j] != '\n',
    decreases text.len(),
{
    if text.len() > 0 && text[0] != '\n' {
        let rest = text.drop_first();
        lemma_line_has_no_feed(rest);
        assert forall|j: int| 0 <= j < line_len(text) implies text[j] != '\n' by {
            if j > 0 {
                assert(text[j] == rest[j - 1]);
            }
        }
    }
}

/// Trimming the start of a text leaves its end: what is left begins where
/// the white space stops.
proof fn lemma_trim_start(text: Seq<char>) -> (first: int)
    ensures
        0 <= first <= text.len(),
        trim_start(text) == text.skip(first),
        first < text.len() ==> !is_whitespace(text[first]),
    decreases text.len(),
{
    if text.len() > 0 && is_whitespace(text[0]) {
        let rest = text.drop_first();
        let first = lemma_trim_start(rest);
        assert(rest.skip(first) == text.skip(first + 1));
        first + 1
    } else {
        assert(text.skip(0) == text);
        0
    }
}

/// Trimming the end of a text leaves its start: what is left ends where the
/// white space begins.
proof fn lemma_trim_end(text: Seq<char>) -> (last: int)
    ensures
        0 <= last <= text.len(),
        trim_end(text) == text.take(last),
        last > 0 ==> !is_whitespace(text[last - 1]),
    decreases text.len(),
{
    if text.len() > 0 && is_whitespace(text.last()) {
        let rest = text.drop_last();
        let last = lemma_trim_end(rest);
        assert(rest.take(last) == text.take(last));
        last
    } else {
        assert(text.take(text.len() as int) == text);
        text.len() as int
    }
}

/// Whatever the text, a path that is read from it is not empty, lies on one
/// line and has no white space at either end: the parser makes nothing up
/// and lets no blank line through.
pub proof fn lemma_listed_paths_are_trimmed(text: Seq<char>)
    ensures
        forall|k: int|
            0 <= k < listed_paths(text).len() ==> is_trimmed_line(#[trigger] listed_paths(text)[k]),
    decreases text.len(),
{
    if text.len() > 0 {
        lemma_line_has_no_feed(text);
        let n = line_len(text) as int;
        let line = text.take(n);
        let path = trimmed(line);
        let first = lemma_trim_start(line);
        let last = lemma_trim_end(line.skip(first));
        assert(path == line.skip(first).take(last));
        if path.len() > 0 {
            assert(path[0] == line[first]);
            assert(path.last() == line[first + last - 1]);
            assert forall|i: int| 0 <= i < path.len() implies path[i] != '\n' by {
                assert(path[i] == text[first + i]);
            }
            assert(is_trimmed_line(path));
        }
        let here = if path.len() > 0 {
            seq![path]
        } else {
            Seq::empty()
        };
        if n < text.len() {
            let rest = listed_paths(text.skip(n + 1));
            lemma_listed_paths_are_trimmed(text.skip(n + 1));
            assert forall|k: int| 0 <= k < listed_paths(text).len() implies is_trimmed_line(
                #[trigger] listed_paths(text)[k],
            ) by {
                if k >= here.len() {
                    assert(listed_paths(text)[k] == rest[k - here.len()]);
                }
            }
        }
    }
}

/// A line that has no line feed before `n`, and ends at `n`, has length `n`.
pub proof fn lemma_line_len(text: Seq<char>, n: int)
    requires
        0 <= n <= text.len(),
        forall|j: int| 0 <= j < n ==> text[j] != '\n',
        n == text.len() || text[n] == '\n',
    ensures
        line_len(text) == n,
    decreases n,
{
    if n > 0 {
        lemma_line_len(text.drop_first(), n - 1);
    }
}

/// Where the line that begins at `start` ends: the index of the next line
/// feed, or the length of `chars`.
fn line_end(chars: &Vec<char>, start: usize) -> (end: usize)
    requires
        start <= chars.len(),
    ensures
        start <= end <= chars.len(),
        end - start == line_len(chars@.skip(start as int)),
{
    let mut end: usize = start;
    while end < chars.len() && chars[end] != '\n'
        invariant
            start <= end <= chars.len(),
            forall|j: int| start <= j < end ==> chars[j] != '\n',
        decreases chars.len() - end,
    {
        end += 1;
    }
    proof {
        lemma_line_len(chars@.skip(start as int), end - start);
    }
    end
}

/// Parses the output of a recursive listing of regular files, as the remote
/// host prints it: the path on each line, in the order of the lines. White
/// space around a path is dropped, and so is a line that holds nothing else.
pub fn find_files(buf: &str) -> (files: Vec<String>)
    ensures
        texts(files@) == listed_paths(buf@),
        forall|k: int| 0 <= k < files.len() ==> is_trimmed_line(#[trigger] files[k]@),
{
    proof {
        lemma_listed_paths_are_trimmed(buf@);
    }
    let chars = chars_of(buf);
    let mut files: Vec<String> = Vec::new();
    let mut pos: usize = 0;
    assert(chars@.skip(0) == chars@);
    assert(texts(files@) == Seq::<Seq<char>>::empty());
    while pos < chars.len()
        invariant
            pos <= chars.len(),
            texts(files@) + listed_paths(chars@.skip(pos as int)) == listed_paths(chars@),
        decreases chars.len() - pos,
    {
        let end = line_end(&chars, pos);
        let first = skip_whitespace(&chars, pos, end);
        let last = drop_whitespace(&chars, first, end);
        let next = if end < chars.len() {
            end + 1
        } else {
            end
        };
        proof {
            let rest = chars@.skip(pos as int);
            assert(rest.take(end - pos) == chars@.subrange(pos as int, end as int));
            assert(end < chars.len() ==> rest.skip(end - pos + 1) == chars@.skip(end + 1));
            assert(chars@.subrange(first as int, last as int) == trimmed(rest.take(end - pos)));
        }
        let ghost before = files@;
        if first < last {
            files.push(text_between(&chars, first, last));
            assert(texts(files@) == texts(before) + seq![
                chars@.subrange(first as int, last as int),
            ]);
        }
        assert(texts(files@) + listed_paths(chars@.skip(next as int)) == texts(before)
            + listed_paths(chars@.skip(pos as int)));
        pos = next;
    }
    assert forall|k: int| 0 <= k < files.len() implies is_trimmed_line(#[trigger] files[k]@) by {
        assert(files[k]@ == texts(files@)[k]);
    }
    files
}

/// Splits the output of a local listing into its lines, each of them a path
/// as it was printed.
pub fn local_files(buf: &str) -> (files: Vec<String>)
    ensures
        texts(files@) == lines(buf@),
{
    let chars = chars_of(buf);
    let mut files: Vec<String> = Vec::new();
    let mut pos: usize = 0;
    assert(chars@.skip(0) == chars@);
    assert(texts(files@) == Seq::<Seq<char>>::empty());
    while pos < chars.len()
        invariant
            pos <= chars.len(),
            texts(files@) + lines(chars@.skip(pos as int)) == lines(chars@),
        decreases chars.len() - pos,
    {
        let end = line_end(&chars, pos);
        let ghost before = files@;
        let ghost rest = chars@.skip(pos as int);
        proof {
            assert(rest.take(end - pos) == chars@.subrange(pos as int, end as int));
            assert(end < chars.len() ==> rest.skip(end - pos + 1) == chars@.skip(end + 1));
        }
        if end < chars.len() {
            let stop = if pos < end && chars[end - 1] == '\r' {
                end - 1
            } else {
                end
            };
            proof {
                let line = chars@.subrange(pos as int, end as int);
                assert(pos < end ==> line.last() == chars@[end - 1]);
                assert(chars@.subrange(pos as int, stop as int) == without_cr(line));
            }
            files.push(text_between(&chars, pos, stop));
            assert(texts(files@) == texts(before) + seq![
                chars@.subrange(pos as int, stop as int),
            ]);
            assert(texts(files@) + lines(chars@.skip(end + 1)) == texts(before) + lines(rest));
            pos = end + 1;
        } else {
            assert(rest == chars@.subrange(pos as int, end as int));
            files.push(text_between(&chars, pos, end));
            assert(texts(files@) == texts(before) + seq![rest]);
            assert(chars@.skip(end as int) == Seq::<char>::empty());
            assert(texts(files@) + lines(chars@.skip(end as int)) == texts(before) + lines(rest));
            pos = end;
        }
    }
    files
}

} // verus!
