//! The list of feeds as a text: one link per line, and whatever follows a
//! `#` on a line is a comment.

use vstd::prelude::*;
use vstd::string::*;

verus! {

/// Whether a character is white space: whether it has the Unicode property
/// White_Space, as `char::is_whitespace` tells.
pub uninterp spec fn is_whitespace(c: char) -> bool;

/// The place of the first `c` in `s`, or the length of `s` where there is
/// none.
pub open spec fn position(s: Seq<char>, c: char) -> int
    decreases s.len(),
{
    if s.len() == 0 || s[0] == c {
        0
    } else {
        1 + position(s.drop_first(), c)
    }
}

/// The lines of a text: what stands between its line feeds. A text without a
/// line feed is one line, and so is the empty text.
pub open spec fn lines(text: Seq<char>) -> Seq<Seq<char>>
    decreases text.len(),
{
    let end = position(text, '\n');
    if 0 <= end < text.len() {
        seq![text.take(end)] + lines(text.skip(end + 1))
    } else {
        seq![text]
    }
}

/// A line up to its first `#`.
pub open spec fn without_comment(line: Seq<char>) -> Seq<char> {
    line.take(position(line, '#'))
}

/// A text without the white space at its start.
pub open spec fn trim_start(s: Seq<char>) -> Seq<char>
    decreases s.len(),
{
    if s.len() > 0 && is_whitespace(s[0]) {
        trim_start(s.drop_first())
    } else {
        s
    }
}

/// A text without the white space at its end.
pub open spec fn trim_end(s: Seq<char>) -> Seq<char>
    decreases s.len(),
{
    if s.len() > 0 && is_whitespace(s.last()) {
        trim_end(s.drop_last())
    } else {
        s
    }
}

/// A text without the white space at its ends.
pub open spec fn trimmed(s: Seq<char>) -> Seq<char> {
    trim_end(trim_start(s))
}

/// What the lines of a text hold besides comments: each line up to its
/// comment, but for the lines where nothing stands there.
pub open spec fn uncommented(text: Seq<char>) -> Seq<Seq<char>> {
    lines(text).map_values(|line: Seq<char>| without_comment(line)).filter(
        |line: Seq<char>| line.len() > 0,
    )
}

/// The items of a sequence without repetition: each one where it first
/// occurs.
pub open spec fn distinct(items: Seq<Seq<char>>) -> Seq<Seq<char>>
    decreases items.len(),
{
    if items.len() == 0 {
        items
    } else if distinct(items.drop_last()).contains(items.last()) {
        distinct(items.drop_last())
    } else {
        distinct(items.drop_last()).push(items.last())
    }
}

/// The links that a list of feeds names: what its lines hold besides
/// comments, without the white space at the ends, each link once.
pub open spec fn listed_links(text: Seq<char>) -> Seq<Seq<char>> {
    distinct(uncommented(text).map_values(|line: Seq<char>| trimmed(line)))
}

/// `position` is the first place where `c` stands.
pub proof fn lemma_position(s: Seq<char>, c: char, k: int)
    requires
        0 <= k <= s.len(),
        forall|j: int| 0 <= j < k ==> s[j] != c,
        k < s.len() ==> s[k] == c,
    ensures
        position(s, c) == k,
    decreases k,
{
    if k > 0 {
        let rest = s.drop_first();
        assert forall|j: int| 0 <= j < k - 1 implies rest[j] != c by {
            assert(rest[j] == s[j + 1]);
        }
        lemma_position(rest, c, k - 1);
    }
}

/// `trim_start` drops exactly the white space that leads.
pub proof fn lemma_trim_start(s: Seq<char>, k: int)
    requires
        0 <= k <= s.len(),
        forall|j: int| 0 <= j < k ==> is_whitespace(s[j]),
        k < s.len() ==> !is_whitespace(s[k]),
    ensures
        trim_start(s) == s.skip(k),
    decreases k,
{
    if k > 0 {
        let rest = s.drop_first();
        assert forall|j: int| 0 <= j < k - 1 implies is_whitespace(rest[j]) by {
            assert(rest[j] == s[j + 1]);
        }
        lemma_trim_start(rest, k - 1);
        assert(rest.skip(k - 1) == s.skip(k));
    } else {
        assert(s.skip(0) == s);
    }
}

/// `trim_end` drops exactly the white space that trails.
pub proof fn lemma_trim_end(s: Seq<char>, k: int)
    requires
        0 <= k <= s.len(),
        forall|j: int| k <= j < s.len() ==> is_whitespace(s[j]),
        k > 0 ==> !is_whitespace(s[k - 1]),
    ensures
        trim_end(s) == s.take(k),
    decreases s.len() - k,
{
    if k < s.len() {
        let rest = s.drop_last();
        assert forall|j: int| k <= j < rest.len() implies is_whitespace(rest[j]) by {
            assert(rest[j] == s[j]);
        }
        lemma_trim_end(rest, k);
        assert(rest.take(k) == s.take(k));
    } else {
        assert(s.take(k) == s);
    }
}

/// Calls `char::is_whitespace`, whose answer goes by the character alone:
/// whether it has the Unicode property White_Space.
#[verifier::external_body]
fn char_is_whitespace(c: char) -> (res: bool)
    ensures
        res == is_whitespace(c),
{
    c.is_whitespace()
}

/// The characters of a text.
fn characters(text: &str) -> (chars: Vec<char>)
    ensures
        chars@ == text@,
{
    let mut chars: Vec<char> = Vec::new();
    for c in it: text.chars()
        invariant
            it.seq() == text@,
            chars@ == text@.take(it.index() as int),
    {
        chars.push(c);
    }
    chars
}

/// The place of the first `c` among the characters from `from` up to `to`,
/// or `to` where there is none.
fn scan(chars: &Vec<char>, from: usize, to: usize, c: char) -> (at: usize)
    requires
        from <= to <= chars.len(),
    ensures
        from <= at <= to,
        at - from == position(chars@.subrange(from as int, to as int), c),
{
    let mut at = from;
    while at < to && chars[at] != c
        invariant
            from <= at <= to <= chars.len(),
            forall|j: int| from <= j < at ==> chars[j] != c,
        decreases to - at,
    {
        at += 1;
    }
    proof {
        lemma_position(chars@.subrange(from as int, to as int), c, at - from);
    }
    at
}

/// What the lines of a text hold besides comments.
pub fn uncommented_lines(text: &str) -> (found: Vec<String>)
    ensures
        found.deep_view() == uncommented(text@),
{
    let chars = characters(text);
    let n = chars.len();
    let ghost strip = |line: Seq<char>| without_comment(line);
    let ghost nonempty = |line: Seq<char>| line.len() > 0;
    let ghost mut seen: Seq<Seq<char>> = Seq::empty();
    let mut found: Vec<String> = Vec::new();
    let mut start: usize = 0;
    let mut done = false;
    proof {
        reveal(Seq::filter);
        assert(text@.skip(0) == text@);
        assert(seen + lines(text@) == lines(text@));
    }
    while !done
        invariant
            chars@ == text@,
            n == chars.len(),
            start <= n,
            strip == |line: Seq<char>| without_comment(line),
            nonempty == |line: Seq<char>| line.len() > 0,
            !done ==> lines(text@) == seen + lines(text@.skip(start as int)),
            done ==> lines(text@) == seen,
            found.deep_view() == seen.map_values(strip).filter(nonempty),
        decreases n - start + (if done { 0int } else { 1int }),
    {
        let end = scan(&chars, start, n, '\n');
        let ghost rest = text@.skip(start as int);
        let ghost line = text@.subrange(start as int, end as int);
        proof {
            assert(rest == chars@.subrange(start as int, n as int));
            assert(rest.take(end - start) == line);
            if end < n {
                assert(rest.skip(end - start + 1) == text@.skip(end + 1));
            } else {
                assert(line == rest);
            }
        }
        let stop = scan(&chars, start, end, '#');
        proof {
            reveal(Seq::filter);
            assert(line == chars@.subrange(start as int, end as int));
            assert(line.take(stop - start) == text@.subrange(start as int, stop as int));
            let stripped = seen.push(line).map_values(strip);
            assert(stripped.drop_last() == seen.map_values(strip));
            assert(stripped.last() == without_comment(line));
        }
        if stop > start {
            let ghost before = found.deep_view();
            let kept = String::from_str(text.substring_char(start, stop));
            found.push(kept);
            assert(found.deep_view() == before.push(kept@));
        }
        proof {
            seen = seen.push(line);
        }
        if end < n {
            start = end + 1;
        } else {
            done = true;
        }
    }
    found
}

/// A text without the white space at its ends.
pub fn trim(text: &str) -> (res: String)
    ensures
        res@ == trimmed(text@),
{
    let chars = characters(text);
    let to = chars.len();
    let mut start: usize = 0;
    while start < to && char_is_whitespace(chars[start])
        invariant
            start <= to == chars.len(),
            forall|j: int| 0 <= j < start ==> is_whitespace(chars[j]),
        decreases to - start,
    {
        start += 1;
    }
    let mut end = to;
    while start < end && char_is_whitespace(chars[end - 1])
        invariant
            start <= end <= to == chars.len(),
            forall|j: int| end <= j < to ==> is_whitespace(chars[j]),
        decreases end - start,
    {
        end -= 1;
    }
    proof {
        lemma_trim_start(chars@, start as int);
        let tail = chars@.skip(start as int);
        lemma_trim_end(tail, end - start);
        assert(tail.take(end - start) == text@.subrange(start as int, end as int));
    }
    String::from_str(text.substring_char(start, end))
}

/// Whether `item` is among `items`.
fn holds(items: &Vec<String>, item: &String) -> (res: bool)
    ensures
        res == items.deep_view().contains(item@),
{
    let mut i: usize = 0;
    while i < items.len()
        invariant
            i <= items.len(),
            forall|j: int| 0 <= j < i ==> items.deep_view()[j] != item@,
        decreases items.len() - i,
    {
        if items[i] == *item {
            assert(items.deep_view()[i as int] == item@);
            return true;
        }
        i += 1;
    }
    false
}

/// The items without repetition: each one where it first occurs.
pub fn unique(items: Vec<String>) -> (kept: Vec<String>)
    ensures
        kept.deep_view() == distinct(items.deep_view()),
{
    let ghost all = items.deep_view();
    let mut kept: Vec<String> = Vec::new();
    for item in it: items.into_iter()
        invariant
            all == Seq::new(it.seq().len(), |i: int| it.seq()[i].deep_view()),
            kept.deep_view() == distinct(all.take(it.index() as int)),
    {
        proof {
            let i = it.index() as int;
            assert(all.take(i + 1).drop_last() == all.take(i));
            assert(all.take(i + 1).last() == item@);
        }
        if !holds(&kept, &item) {
            let ghost before = kept.deep_view();
            kept.push(item);
            assert(kept.deep_view() == before.push(item@));
        }
    }
    assert(all.take(all.len() as int) == all);
    kept
}

/// Reads a list of feeds.
pub fn parse_listing(text: &str) -> (links: Vec<String>)
    ensures
        links.deep_view() == listed_links(text@),
{
    let found = uncommented_lines(text);
    let ghost tidy = |line: Seq<char>| trimmed(line);
    let mut links: Vec<String> = Vec::new();
    let mut i: usize = 0;
    while i < found.len()
        invariant
            i <= found.len(),
            tidy == |line: Seq<char>| trimmed(line),
            links.deep_view() == found.deep_view().take(i as int).map_values(tidy),
        decreases found.len() - i,
    {
        let ghost before = links.deep_view();
        let link = trim(found[i].as_str());
        links.push(link);
        assert(links.deep_view() == before.push(link@));
        i += 1;
    }
    assert(found.deep_view().take(i as int) == found.deep_view());
    unique(links)
}

} // verus!
