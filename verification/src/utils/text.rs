//! Text as a sequence of characters: lines, joining, searching and trimming.
//!
//! Every contract in this crate that speaks of a string speaks of its view, a
//! `Seq<char>`. The spec functions here give the vocabulary; the executable
//! functions compute it on `Vec<char>` and `&str`.

use vstd::prelude::*;

verus! {

/// The view of a text that may be absent.
pub open spec fn option_text(text: Option<String>) -> Option<Seq<char>> {
    match text {
        Some(text) => Some(text@),
        None => None,
    }
}

/// The views of a list of strings, in order.
pub open spec fn texts_of(parts: Seq<String>) -> Seq<Seq<char>> {
    Seq::new(parts.len(), |i: int| parts[i]@)
}

/// The characters of a string, in order.
pub fn to_chars(s: &str) -> (chars: Vec<char>)
    ensures
        chars@ == s@,
{
    let mut chars: Vec<char> = Vec::new();
    for c in it: s.chars()
        invariant
            it.seq() == s@,
            chars@ == s@.take(it.index() as int),
    {
        chars.push(c);
    }
    chars
}

/// Number of characters before the first line feed of `s`, or the length of
/// `s` if it holds none.
pub open spec fn line_len(s: Seq<char>) -> nat
    decreases s.len(),
{
    if s.len() == 0 || s[0] == '\n' {
        0
    } else {
        1 + line_len(s.skip(1))
    }
}

/// `l` without one trailing carriage return, if it has one.
pub open spec fn strip_cr(l: Seq<char>) -> Seq<char> {
    if l.len() > 0 && l.last() == '\r' {
        l.drop_last()
    } else {
        l
    }
}

/// The lines of `s`. A line ends at a line feed; the line feed, and a carriage
/// return directly before it, belong to no line. Text after the last line feed
/// is a line of its own, kept as it is; if there is none, the last line feed
/// ends the last line.
pub open spec fn lines_of(s: Seq<char>) -> Seq<Seq<char>>
    decreases s.len(),
{
    let k = line_len(s);
    if s.len() == 0 {
        Seq::empty()
    } else if k >= s.len() {
        seq![s]
    } else {
        seq![strip_cr(s.take(k as int))] + lines_of(s.skip(k as int + 1))
    }
}

/// `line` holds no line feed.
pub open spec fn no_line_feed(line: Seq<char>) -> bool {
    forall|j: int| 0 <= j < line.len() ==> line[j] != '\n'
}

/// `line_len` is the position of the first line feed: nothing before `k` is a
/// line feed, and `k` is one or the end.
pub proof fn lemma_line_len(s: Seq<char>, k: int)
    requires
        0 <= k <= s.len(),
        forall|j: int| 0 <= j < k ==> s[j] != '\n',
        k == s.len() || s[k] == '\n',
    ensures
        line_len(s) == k,
    decreases k,
{
    if k > 0 {
        let t = s.skip(1);
        assert(forall|j: int| 0 <= j < k - 1 ==> t[j] == s[j + 1]);
        lemma_line_len(t, k - 1);
    }
}

/// Nothing before `line_len(s)` is a line feed, and what stands there, if
/// anything, is one.
pub proof fn lemma_first_line_feed(s: Seq<char>)
    ensures
        line_len(s) <= s.len(),
        forall|j: int| 0 <= j < line_len(s) ==> s[j] != '\n',
        line_len(s) < s.len() ==> s[line_len(s) as int] == '\n',
    decreases s.len(),
{
    if s.len() > 0 && s[0] != '\n' {
        let t = s.skip(1);
        lemma_first_line_feed(t);
        assert forall|j: int| 0 <= j < line_len(s) implies s[j] != '\n' by {
            if j > 0 {
                assert(s[j] == t[j - 1]);
            }
        }
    }
}

/// No line holds a line feed.
pub proof fn lemma_lines_hold_no_line_feed(s: Seq<char>)
    ensures
        forall|i: int| 0 <= i < lines_of(s).len() ==> no_line_feed(#[trigger] lines_of(s)[i]),
    decreases s.len(),
{
    lemma_first_line_feed(s);
    let k = line_len(s);
    if s.len() == 0 {
    } else if k >= s.len() {
    } else {
        let rest = s.skip(k as int + 1);
        lemma_lines_hold_no_line_feed(rest);
        assert forall|i: int| 0 <= i < lines_of(s).len() implies no_line_feed(
            #[trigger] lines_of(s)[i],
        ) by {
            if i > 0 {
                assert(lines_of(s)[i] == lines_of(rest)[i - 1]);
            }
        }
    }
}

/// A half-open range of character positions.
#[derive(Clone, Copy, Debug)]
pub struct Span {
    pub start: usize,
    pub end: usize,
}

impl Span {
    /// The range lies inside a text of `len` characters.
    pub open spec fn within(self, len: nat) -> bool {
        self.start <= self.end <= len
    }

    /// The characters of `s` that the range covers.
    pub open spec fn of(self, s: Seq<char>) -> Seq<char> {
        s.subrange(self.start as int, self.end as int)
    }
}

/// The texts that `spans` cover in `s`, in order.
pub open spec fn span_texts(s: Seq<char>, spans: Seq<Span>) -> Seq<Seq<char>> {
    Seq::new(spans.len(), |i: int| spans[i].of(s))
}

/// Where each line of `chars` starts and ends.
pub fn line_spans(chars: &Vec<char>) -> (spans: Vec<Span>)
    ensures
        span_texts(chars@, spans@) == lines_of(chars@),
        forall|i: int| 0 <= i < spans@.len() ==> (#[trigger] spans@[i]).within(chars@.len()),
{
    let ghost s = chars@;
    let n = chars.len();
    let mut spans: Vec<Span> = Vec::new();
    let mut start: usize = 0;
    let mut i: usize = 0;
    proof {
        assert(s.skip(0) =~= s);
    }
    while i < n
        invariant
            s == chars@,
            n == s.len(),
            start <= i <= n,
            forall|j: int| start <= j < i ==> s[j] != '\n',
            lines_of(s) == span_texts(s, spans@) + lines_of(s.skip(start as int)),
            forall|k: int| 0 <= k < spans@.len() ==> (#[trigger] spans@[k]).within(s.len()),
        decreases n - i,
    {
        if chars[i] == '\n' {
            let end = if i > start && chars[i - 1] == '\r' {
                i - 1
            } else {
                i
            };
            let span = Span { start, end };
            proof {
                let t = s.skip(start as int);
                let k = i - start;
                assert(forall|j: int| 0 <= j < k ==> t[j] == s[start + j]);
                lemma_line_len(t, k);
                assert(t.take(k) =~= s.subrange(start as int, i as int));
                assert(t.skip(k + 1) =~= s.skip(i + 1));
                assert(strip_cr(s.subrange(start as int, i as int)) =~= span.of(s));
            }
            spans.push(span);
            start = i + 1;
        }
        i += 1;
    }
    if start < n {
        let span = Span { start, end: n };
        proof {
            let t = s.skip(start as int);
            lemma_line_len(t, t.len() as int);
        }
        spans.push(span);
    }
    spans
}

/// `parts` written one after another with `sep` between neighbours.
pub open spec fn joined(parts: Seq<Seq<char>>, sep: Seq<char>) -> Seq<char>
    decreases parts.len(),
{
    if parts.len() == 0 {
        Seq::empty()
    } else if parts.len() == 1 {
        parts[0]
    } else {
        parts[0] + sep + joined(parts.skip(1), sep)
    }
}

/// Joining one more part appends the separator and the part.
pub proof fn lemma_joined_push(parts: Seq<Seq<char>>, sep: Seq<char>, part: Seq<char>)
    ensures
        joined(parts.push(part), sep) == if parts.len() == 0 {
            part
        } else {
            joined(parts, sep) + sep + part
        },
    decreases parts.len(),
{
    let all = parts.push(part);
    if parts.len() == 1 {
        assert(joined(all.skip(1), sep) == part);
    } else if parts.len() > 1 {
        assert(all.skip(1) =~= parts.skip(1).push(part));
        lemma_joined_push(parts.skip(1), sep, part);
    }
}

/// Joins `parts` with `sep` between neighbours.
pub fn join_strings(parts: &[String], sep: &str) -> (out: String)
    ensures
        out@ == joined(texts_of(parts@), sep@),
{
    let ghost texts = texts_of(parts@);
    let mut out = String::new();
    let mut i: usize = 0;
    while i < parts.len()
        invariant
            i <= parts.len(),
            texts == texts_of(parts@),
            out@ == joined(texts.take(i as int), sep@),
        decreases parts.len() - i,
    {
        proof {
            assert(texts.take(i + 1) =~= texts.take(i as int).push(parts@[i as int]@));
            lemma_joined_push(texts.take(i as int), sep@, parts@[i as int]@);
        }
        if i > 0 {
            out.append(sep);
        }
        out.append(parts[i].as_str());
        i += 1;
    }
    assert(texts.take(parts.len() as int) =~= texts);
    out
}

/// The pieces of `s` between its line feeds, empty ones included: what
/// joining with a line feed is undone by.
pub open spec fn split_at_line_feeds(s: Seq<char>) -> Seq<Seq<char>>
    decreases s.len(),
{
    let k = line_len(s);
    if k >= s.len() {
        seq![s]
    } else {
        seq![s.take(k as int)] + split_at_line_feeds(s.skip(k as int + 1))
    }
}

/// Splitting at line feeds undoes joining with a line feed, for parts that
/// hold none.
pub proof fn lemma_split_joined(parts: Seq<Seq<char>>)
    requires
        parts.len() > 0,
        forall|i: int| 0 <= i < parts.len() ==> no_line_feed(#[trigger] parts[i]),
    ensures
        split_at_line_feeds(joined(parts, seq!['\n'])) == parts,
    decreases parts.len(),
{
    let sep = seq!['\n'];
    let text = joined(parts, sep);
    let first = parts[0];
    if parts.len() == 1 {
        lemma_line_len(text, text.len() as int);
    } else {
        let rest = parts.skip(1);
        assert(forall|i: int| 0 <= i < rest.len() ==> rest[i] == parts[i + 1]);
        lemma_split_joined(rest);
        let k = first.len() as int;
        assert(forall|j: int| 0 <= j < k ==> text[j] == first[j]);
        lemma_line_len(text, k);
        assert(text.take(k) =~= first);
        assert(text.skip(k + 1) =~= joined(rest, sep));
    }
}

/// `needle` stands in `hay` at position `at`.
pub open spec fn occurs_at(hay: Seq<char>, needle: Seq<char>, at: int) -> bool {
    &&& 0 <= at
    &&& at + needle.len() <= hay.len()
    &&& hay.subrange(at, at + needle.len()) == needle
}

/// `needle` stands somewhere in `hay`.
pub open spec fn contains_text(hay: Seq<char>, needle: Seq<char>) -> bool {
    exists|at: int| occurs_at(hay, needle, at)
}

/// `prefix` stands at the start of `s`.
pub open spec fn starts_with_text(s: Seq<char>, prefix: Seq<char>) -> bool {
    occurs_at(s, prefix, 0)
}

/// Whether `needle` stands in `hay` at position `at`.
pub fn matches_at(hay: &Vec<char>, needle: &Vec<char>, at: usize) -> (found: bool)
    ensures
        found == occurs_at(hay@, needle@, at as int),
{
    let n = hay.len();
    let m = needle.len();
    if at > n || m > n - at {
        return false;
    }
    let mut j: usize = 0;
    while j < m
        invariant
            at + m <= n,
            n == hay@.len(),
            m == needle@.len(),
            j <= m,
            forall|k: int| 0 <= k < j ==> hay@[at + k] == needle@[k],
        decreases m - j,
    {
        if hay[at + j] != needle[j] {
            assert(hay@.subrange(at as int, at + m)[j as int] != needle@[j as int]);
            return false;
        }
        j += 1;
    }
    assert(hay@.subrange(at as int, at + m) =~= needle@);
    true
}

/// Whether `needle` stands somewhere in `hay`.
pub fn has_substring(hay: &Vec<char>, needle: &Vec<char>) -> (found: bool)
    ensures
        found == contains_text(hay@, needle@),
{
    let n = hay.len();
    let m = needle.len();
    if m > n {
        return false;
    }
    let last = n - m;
    let mut at: usize = 0;
    while at <= last
        invariant
            last == n - m,
            m > 0 || at == 0,
            n == hay@.len(),
            m == needle@.len(),
            at <= last + 1,
            forall|k: int| 0 <= k < at ==> !occurs_at(hay@, needle@, k),
        decreases last + 1 - at,
    {
        proof {
            if m == 0 {
                assert(hay@.subrange(0, 0) =~= needle@);
            }
        }
        if matches_at(hay, needle, at) {
            return true;
        }
        at += 1;
    }
    false
}

/// What `char::is_whitespace` answers for `c`.
pub uninterp spec fn is_white_space(c: char) -> bool;

/// `char::is_whitespace` of std: whether the character has the Unicode
/// property White_Space. The answer is a function of the character alone and
/// is named, not spelt out.
pub assume_specification[ char::is_whitespace ](c: char) -> (white: bool)
    ensures
        white == is_white_space(c),
;

/// Number of white-space characters at the start of `s`.
pub open spec fn leading_white(s: Seq<char>) -> nat
    decreases s.len(),
{
    if s.len() > 0 && is_white_space(s[0]) {
        1 + leading_white(s.skip(1))
    } else {
        0
    }
}

/// Number of white-space characters at the end of `s`.
pub open spec fn trailing_white(s: Seq<char>) -> nat
    decreases s.len(),
{
    if s.len() > 0 && is_white_space(s.last()) {
        1 + trailing_white(s.drop_last())
    } else {
        0
    }
}

/// `s` without the white space at its start and at its end.
pub open spec fn trimmed(s: Seq<char>) -> Seq<char> {
    let from = leading_white(s);
    if from >= s.len() {
        Seq::empty()
    } else {
        s.subrange(from as int, s.len() - trailing_white(s))
    }
}

/// `leading_white` is the position of the first character that is not white
/// space.
pub proof fn lemma_leading_white(s: Seq<char>, k: int)
    requires
        0 <= k <= s.len(),
        forall|j: int| 0 <= j < k ==> is_white_space(s[j]),
        k == s.len() || !is_white_space(s[k]),
    ensures
        leading_white(s) == k,
    decreases k,
{
    if k > 0 {
        let t = s.skip(1);
        assert(forall|j: int| 0 <= j < k - 1 ==> t[j] == s[j + 1]);
        lemma_leading_white(t, k - 1);
    }
}

/// `trailing_white` counts back to the last character that is not white
/// space.
pub proof fn lemma_trailing_white(s: Seq<char>, k: int)
    requires
        0 <= k <= s.len(),
        forall|j: int| s.len() - k <= j < s.len() ==> is_white_space(s[j]),
        k == s.len() || !is_white_space(s[s.len() - k - 1]),
    ensures
        trailing_white(s) == k,
    decreases k,
{
    if k > 0 {
        let t = s.drop_last();
        assert(forall|j: int| 0 <= j < t.len() ==> t[j] == s[j]);
        lemma_trailing_white(t, k - 1);
    }
}

/// The text without the white space around it.
pub fn trim(s: &str) -> (out: String)
    ensures
        out@ == trimmed(s@),
{
    let chars = to_chars(s);
    let n = chars.len();
    let mut from: usize = 0;
    while from < n && chars[from].is_whitespace()
        invariant
            n == chars@.len(),
            from <= n,
            forall|j: int| 0 <= j < from ==> is_white_space(chars@[j]),
        decreases n - from,
    {
        from += 1;
    }
    proof {
        lemma_leading_white(chars@, from as int);
    }
    if from == n {
        return String::new();
    }
    let mut to: usize = n;
    while to > from && chars[to - 1].is_whitespace()
        invariant
            n == chars@.len(),
            from <= to <= n,
            from < n,
            !is_white_space(chars@[from as int]),
            forall|j: int| to <= j < n ==> is_white_space(chars@[j]),
        decreases to,
    {
        to -= 1;
    }
    proof {
        lemma_trailing_white(chars@, n - to);
    }
    s.substring_char(from, to).to_owned()
}

/// What `str::to_lowercase` returns for the text `s`.
pub uninterp spec fn lowercase_of(s: Seq<char>) -> Seq<char>;

/// `str::to_lowercase` of std: the lowercase equivalent of the text, by the
/// Unicode rules. The result is a function of the text alone and is named,
/// not spelt out.
pub assume_specification[ str::to_lowercase ](s: &str) -> (lower: String)
    ensures
        lower@ == lowercase_of(s@),
;

/// What `String::from_utf8_lossy` returns for the bytes `bytes`.
pub uninterp spec fn utf8_lossy(bytes: Seq<u8>) -> Seq<char>;

/// `String::from_utf8_lossy` of std: the bytes read as UTF-8, with the
/// replacement character in place of what is not. The result is a function
/// of the bytes alone and is named, not spelt out.
#[verifier::external_body]
pub(crate) fn lossy_text(bytes: &[u8]) -> (text: String)
    ensures
        text@ == utf8_lossy(bytes@),
{
    String::from_utf8_lossy(bytes).into_owned()
}

} // verus!
