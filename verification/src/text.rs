//! Text helpers over character sequences.
//!
//! Every contract here speaks of the view of a string, a `Seq<char>`, so that
//! callers can reason about keys, tags and messages as plain sequences.

use vstd::prelude::*;
use vstd::string::{StrSliceExecFns, StringExecFns};

verus! {

/// `needle` occurs in `hay` starting at position `at`.
pub open spec fn occurs_at(needle: Seq<char>, hay: Seq<char>, at: int) -> bool {
    &&& 0 <= at
    &&& at + needle.len() <= hay.len()
    &&& hay.subrange(at, at + needle.len()) == needle
}

/// `needle` occurs somewhere in `hay`. The empty sequence occurs in every
/// sequence.
pub open spec fn is_substring(needle: Seq<char>, hay: Seq<char>) -> bool {
    exists|at: int| occurs_at(needle, hay, at)
}

/// Glob matching: whether `text` matches `pattern`, in which every `*`
/// stands for a run of characters, which may be empty, and every other
/// character for itself.
///
/// So the empty pattern matches only the empty text; a pattern without a
/// star matches only itself; `*` matches everything; and `ab*ba` matches
/// `abba` and `abXba`, but not `aba`, where the two parts would overlap.
pub open spec fn glob_matches(pattern: Seq<char>, text: Seq<char>) -> bool
    decreases pattern.len(), text.len(),
{
    if pattern.len() == 0 {
        text.len() == 0
    } else if pattern[0] == '*' {
        glob_matches(pattern.drop_first(), text) || (text.len() > 0 && glob_matches(
            pattern,
            text.drop_first(),
        ))
    } else {
        text.len() > 0 && pattern[0] == text[0] && glob_matches(
            pattern.drop_first(),
            text.drop_first(),
        )
    }
}

/// How a match of the rest of a pattern against the rest of a text rests on
/// the matches one character further on.
proof fn lemma_glob_step(p: Seq<char>, t: Seq<char>, i: int, j: int)
    requires
        0 <= i < p.len(),
        0 <= j <= t.len(),
    ensures
        glob_matches(p.skip(i), t.skip(j)) == (if p[i] == '*' {
            glob_matches(p.skip(i + 1), t.skip(j)) || (j < t.len() && glob_matches(
                p.skip(i),
                t.skip(j + 1),
            ))
        } else {
            j < t.len() && p[i] == t[j] && glob_matches(p.skip(i + 1), t.skip(j + 1))
        }),
{
    assert(p.skip(i)[0] == p[i]);
    assert(p.skip(i).drop_first() =~= p.skip(i + 1));
    if j < t.len() {
        assert(t.skip(j)[0] == t[j]);
        assert(t.skip(j).drop_first() =~= t.skip(j + 1));
    }
}

/// Concatenation of `parts`, with `sep` between neighbours.
pub open spec fn joined(parts: Seq<Seq<char>>, sep: Seq<char>) -> Seq<char>
    decreases parts.len(),
{
    if parts.len() == 0 {
        Seq::empty()
    } else if parts.len() == 1 {
        parts[0]
    } else {
        joined(parts.drop_last(), sep) + sep + parts.last()
    }
}

/// The views of a vector of strings.
pub open spec fn views(items: Seq<String>) -> Seq<Seq<char>> {
    items.map_values(|s: String| s@)
}

/// The characters of `s`, in order.
pub fn to_chars(s: &str) -> (out: Vec<char>)
    ensures
        out@ == s@,
{
    let mut out: Vec<char> = Vec::new();
    for c in it: s.chars()
        invariant
            it.seq() == s@,
            out@ == it.seq().take(it.index() as int),
    {
        out.push(c);
    }
    out
}

/// Whether two character slices hold the same sequence.
pub fn chars_eq(a: &[char], b: &[char]) -> (r: bool)
    ensures
        r == (a@ == b@),
{
    if a.len() != b.len() {
        return false;
    }
    let mut i: usize = 0;
    while i < a.len()
        invariant
            a.len() == b.len(),
            i <= a.len(),
            forall|j: int| 0 <= j < i ==> a@[j] == b@[j],
        decreases a.len() - i,
    {
        if a[i] != b[i] {
            return false;
        }
        i += 1;
    }
    assert(a@ =~= b@);
    true
}

/// Whether `needle` occurs in `hay` at position `at`.
pub fn matches_at(needle: &[char], hay: &[char], at: usize) -> (r: bool)
    ensures
        r == occurs_at(needle@, hay@, at as int),
{
    if at > hay.len() || needle.len() > hay.len() - at {
        return false;
    }
    let mut i: usize = 0;
    while i < needle.len()
        invariant
            at + needle.len() <= hay.len(),
            i <= needle.len(),
            forall|j: int| 0 <= j < i ==> hay@[at + j] == needle@[j],
        decreases needle.len() - i,
    {
        if hay[at + i] != needle[i] {
            proof {
                let window = hay@.subrange(at as int, at + needle.len());
                assert(window[i as int] == hay@[at + i]);
            }
            return false;
        }
        i += 1;
    }
    assert(hay@.subrange(at as int, at + needle.len()) =~= needle@);
    true
}

/// Whether `text` starts with `prefix`.
pub fn starts_with(text: &[char], prefix: &[char]) -> (r: bool)
    ensures
        r == prefix@.is_prefix_of(text@),
{
    let r = matches_at(prefix, text, 0);
    proof {
        if prefix@.len() <= text@.len() {
            assert(text@.subrange(0, 0 + prefix@.len() as int) == text@.subrange(
                0,
                prefix@.len() as int,
            ));
        }
    }
    r
}

/// Whether `needle` occurs somewhere in `hay`.
pub fn contains(hay: &[char], needle: &[char]) -> (r: bool)
    ensures
        r == is_substring(needle@, hay@),
{
    if needle.len() > hay.len() {
        assert forall|at: int| !occurs_at(needle@, hay@, at) by {}
        return false;
    }
    let last = hay.len() - needle.len();
    let mut at: usize = 0;
    loop
        invariant
            last == hay.len() - needle.len(),
            at <= last,
            forall|k: int| 0 <= k < at ==> !occurs_at(needle@, hay@, k),
        decreases last - at,
    {
        if matches_at(needle, hay, at) {
            return true;
        }
        if at == last {
            assert forall|k: int| !occurs_at(needle@, hay@, k) by {}
            return false;
        }
        at += 1;
    }
}

/// Whether two strings hold the same characters.
pub fn str_eq(a: &str, b: &str) -> (r: bool)
    ensures
        r == (a@ == b@),
{
    let x = to_chars(a);
    let y = to_chars(b);
    chars_eq(x.as_slice(), y.as_slice())
}

/// Whether `text` starts with `prefix`.
pub fn str_starts_with(text: &str, prefix: &str) -> (r: bool)
    ensures
        r == prefix@.is_prefix_of(text@),
{
    let t = to_chars(text);
    let p = to_chars(prefix);
    starts_with(t.as_slice(), p.as_slice())
}

/// Whether `needle` occurs somewhere in `hay`.
pub fn str_contains(hay: &str, needle: &str) -> (r: bool)
    ensures
        r == is_substring(needle@, hay@),
{
    let h = to_chars(hay);
    let n = to_chars(needle);
    contains(h.as_slice(), n.as_slice())
}

/// A pattern that is one star matches every text.
pub proof fn lemma_star_matches_all(text: Seq<char>)
    ensures
        glob_matches(seq!['*'], text),
    decreases text.len(),
{
    let star = seq!['*'];
    assert(star[0] == '*');
    if text.len() == 0 {
        assert(star.drop_first().len() == 0);
        assert(glob_matches(star.drop_first(), text));
    } else {
        lemma_star_matches_all(text.drop_first());
    }
}

/// A pattern without a star matches only itself.
pub proof fn lemma_plain_pattern_matches_itself(pattern: Seq<char>, text: Seq<char>)
    requires
        forall|i: int| 0 <= i < pattern.len() ==> pattern[i] != '*',
    ensures
        glob_matches(pattern, text) <==> pattern == text,
    decreases pattern.len(),
{
    if pattern.len() > 0 {
        if text.len() > 0 {
            assert forall|i: int| 0 <= i < pattern.drop_first().len() implies pattern.drop_first()[i]
                != '*' by {
                assert(pattern.drop_first()[i] == pattern[i + 1]);
            }
            lemma_plain_pattern_matches_itself(pattern.drop_first(), text.drop_first());
            if pattern[0] == text[0] && pattern.drop_first() == text.drop_first() {
                assert(pattern =~= seq![pattern[0]] + pattern.drop_first());
                assert(text =~= seq![text[0]] + text.drop_first());
            }
        }
    } else {
        assert(pattern == text <==> text.len() == 0) by {
            if text.len() == 0 {
                assert(pattern =~= text);
            }
        }
    }
}

/// A text ends with `suffix` if it is `suffix`, or if it is not empty and
/// what follows its first character ends with `suffix`.
proof fn lemma_suffix_step(suffix: Seq<char>, text: Seq<char>)
    ensures
        suffix.is_suffix_of(text) <==> (suffix == text || (text.len() > 0 && suffix.is_suffix_of(
            text.drop_first(),
        ))),
{
    let rest = text.drop_first();
    if suffix.is_suffix_of(text) {
        if suffix.len() == text.len() {
            assert(suffix =~= text);
        } else {
            assert(rest.subrange(rest.len() - suffix.len(), rest.len() as int) =~= text.subrange(
                text.len() - suffix.len(),
                text.len() as int,
            ));
        }
    }
    if suffix == text {
        assert(text.subrange(0, text.len() as int) =~= text);
    }
    if text.len() > 0 && suffix.is_suffix_of(rest) {
        assert(rest.subrange(rest.len() - suffix.len(), rest.len() as int) =~= text.subrange(
            text.len() - suffix.len(),
            text.len() as int,
        ));
    }
}

/// A pattern that is a star and a part without a star behind it matches the
/// texts that end with that part.
pub proof fn lemma_leading_star(suffix: Seq<char>, text: Seq<char>)
    requires
        forall|i: int| 0 <= i < suffix.len() ==> suffix[i] != '*',
    ensures
        glob_matches(seq!['*'] + suffix, text) <==> suffix.is_suffix_of(text),
    decreases text.len(),
{
    let pattern = seq!['*'] + suffix;
    assert(pattern[0] == '*');
    assert(pattern.drop_first() =~= suffix);
    lemma_plain_pattern_matches_itself(suffix, text);
    lemma_suffix_step(suffix, text);
    if text.len() > 0 {
        lemma_leading_star(suffix, text.drop_first());
    }
}

/// A pattern with one star, between two parts without a star, matches the
/// texts that start with the first part and end with the second and are at
/// least as long as both together, so that the two do not overlap.
pub proof fn lemma_one_star(prefix: Seq<char>, suffix: Seq<char>, text: Seq<char>)
    requires
        forall|i: int| 0 <= i < prefix.len() ==> prefix[i] != '*',
        forall|i: int| 0 <= i < suffix.len() ==> suffix[i] != '*',
    ensures
        glob_matches(prefix + seq!['*'] + suffix, text) <==> (prefix.is_prefix_of(text)
            && suffix.is_suffix_of(text) && prefix.len() + suffix.len() <= text.len()),
    decreases prefix.len(),
{
    let pattern = prefix + seq!['*'] + suffix;
    if prefix.len() == 0 {
        assert(pattern =~= seq!['*'] + suffix);
        lemma_leading_star(suffix, text);
        assert(text.subrange(0, 0) =~= prefix);
    } else {
        assert(pattern[0] == prefix[0]);
        assert(pattern.drop_first() =~= prefix.drop_first() + seq!['*'] + suffix);
        if text.len() > 0 {
            let rest = text.drop_first();
            assert forall|i: int| 0 <= i < prefix.drop_first().len() implies prefix.drop_first()[i]
                != '*' by {
                assert(prefix.drop_first()[i] == prefix[i + 1]);
            }
            lemma_one_star(prefix.drop_first(), suffix, rest);
            if prefix.is_prefix_of(text) {
                assert(text.subrange(0, prefix.len() as int)[0] == text[0]);
                assert(rest.subrange(0, prefix.len() - 1) =~= text.subrange(
                    0,
                    prefix.len() as int,
                ).drop_first());
            }
            if text[0] == prefix[0] && prefix.drop_first().is_prefix_of(rest) {
                assert(text.subrange(0, prefix.len() as int) =~= seq![text[0]] + rest.subrange(
                    0,
                    prefix.len() - 1,
                ));
                assert(prefix =~= seq![prefix[0]] + prefix.drop_first());
            }
            if prefix.len() + suffix.len() <= text.len() {
                if suffix.is_suffix_of(text) {
                    assert(rest.subrange(rest.len() - suffix.len(), rest.len() as int)
                        =~= text.subrange(text.len() - suffix.len(), text.len() as int));
                }
                if suffix.is_suffix_of(rest) {
                    assert(rest.subrange(rest.len() - suffix.len(), rest.len() as int)
                        =~= text.subrange(text.len() - suffix.len(), text.len() as int));
                }
            }
        }
    }
}

/// Glob matching of `text` against `pattern`; see [`glob_matches`].
pub fn glob_match(pattern: &str, text: &str) -> (r: bool)
    ensures
        r == glob_matches(pattern@, text@),
{
    let p = to_chars(pattern);
    let t = to_chars(text);
    glob_match_chars(p.as_slice(), t.as_slice())
}

/// Glob matching on characters; see [`glob_matches`].
///
/// The rests of the pattern are matched against all rests of the text, the
/// shortest rest of the pattern first.
pub fn glob_match_chars(p: &[char], t: &[char]) -> (r: bool)
    ensures
        r == glob_matches(p@, t@),
{
    let m = p.len();
    let n = t.len();
    // `row[j]` says whether the rest of the pattern from `i` matches the rest
    // of the text from `j`; `row_end` says the same of the empty rest.
    let mut row: Vec<bool> = Vec::new();
    while row.len() < n
        invariant
            n == t.len(),
            row.len() <= n,
            forall|k: int| 0 <= k < row.len() ==> !row@[k],
        decreases n - row.len(),
    {
        row.push(false);
    }
    let mut row_end = true;
    let mut i = m;
    proof {
        assert(p@.skip(m as int).len() == 0);
        assert forall|k: int| 0 <= k < n implies row@[k] == glob_matches(
            p@.skip(m as int),
            t@.skip(k),
        ) by {
            assert(t@.skip(k).len() > 0);
        }
        assert(t@.skip(n as int).len() == 0);
    }
    while i > 0
        invariant
            m == p.len(),
            n == t.len(),
            i <= m,
            row.len() == n,
            row_end == glob_matches(p@.skip(i as int), t@.skip(n as int)),
            forall|k: int| 0 <= k < n ==> row@[k] == glob_matches(p@.skip(i as int), t@.skip(k)),
        decreases i,
    {
        i -= 1;
        let star = p[i] == '*';
        let new_end = star && row_end;
        proof {
            lemma_glob_step(p@, t@, i as int, n as int);
        }
        let mut old_right = row_end;
        let mut right = new_end;
        let mut j = n;
        while j > 0
            invariant
                m == p.len(),
                n == t.len(),
                i < m,
                j <= n,
                row.len() == n,
                star == (p@[i as int] == '*'),
                right == glob_matches(p@.skip(i as int), t@.skip(j as int)),
                old_right == glob_matches(p@.skip(i + 1), t@.skip(j as int)),
                forall|k: int|
                    j <= k < n ==> row@[k] == glob_matches(p@.skip(i as int), t@.skip(k)),
                forall|k: int| 0 <= k < j ==> row@[k] == glob_matches(p@.skip(i + 1), t@.skip(k)),
            decreases j,
        {
            j -= 1;
            let old_here = row[j];
            let value = if star {
                old_here || right
            } else {
                p[i] == t[j] && old_right
            };
            proof {
                lemma_glob_step(p@, t@, i as int, j as int);
            }
            row.set(j, value);
            old_right = old_here;
            right = value;
        }
        row_end = new_end;
    }
    proof {
        assert(p@.skip(0) =~= p@);
        assert(t@.skip(0) =~= t@);
    }
    if n == 0 {
        row_end
    } else {
        row[0]
    }
}

/// `parts` concatenated, with `sep` between neighbours.
pub fn join(parts: &Vec<String>, sep: &str) -> (out: String)
    ensures
        out@ == joined(views(parts@), sep@),
{
    let mut out = String::new();
    let mut i: usize = 0;
    while i < parts.len()
        invariant
            i <= parts.len(),
            out@ == joined(views(parts@).take(i as int), sep@),
        decreases parts.len() - i,
    {
        proof {
            let before = views(parts@).take(i as int);
            let after = views(parts@).take(i + 1);
            assert(after.drop_last() =~= before);
            assert(after.last() == parts@[i as int]@);
            if i > 0 {
                assert(after.len() > 1);
            } else {
                assert(before =~= Seq::<Seq<char>>::empty());
            }
        }
        if i > 0 {
            out.append(sep);
        }
        out.append(parts[i].as_str());
        proof {
            if i == 0 {
                assert(out@ =~= parts@[0]@);
            }
        }
        i += 1;
    }
    assert(views(parts@).take(parts.len() as int) =~= views(parts@));
    out
}

/// The concatenation of two strings.
pub fn concat_str(a: &str, b: &str) -> (out: String)
    ensures
        out@ == a@ + b@,
{
    let mut out = a.to_owned();
    out.append(b);
    out
}

/// A copy of a vector of strings.
pub fn clone_strings(items: &Vec<String>) -> (out: Vec<String>)
    ensures
        views(out@) == views(items@),
{
    let mut out: Vec<String> = Vec::new();
    let mut i: usize = 0;
    while i < items.len()
        invariant
            i <= items.len(),
            out@.len() == i,
            views(out@) == views(items@).take(i as int),
        decreases items.len() - i,
    {
        let item = items[i].clone();
        let ghost before = out@;
        out.push(item);
        assert forall|j: int| 0 <= j < i + 1 implies views(out@)[j] == views(items@).take(i + 1)[j] by {
            if j < i {
                assert(out@[j] == before[j]);
                assert(views(before)[j] == views(items@).take(i as int)[j]);
            }
        }
        assert(views(out@) =~= views(items@).take(i + 1));
        i += 1;
    }
    assert(views(items@).take(items.len() as int) =~= views(items@));
    out
}

/// Whether `items` holds a string with the characters of `wanted`.
pub fn contains_string(items: &Vec<String>, wanted: &str) -> (r: bool)
    ensures
        r == views(items@).contains(wanted@),
{
    let w = wanted.to_owned();
    let mut i: usize = 0;
    while i < items.len()
        invariant
            i <= items.len(),
            w@ == wanted@,
            forall|j: int| 0 <= j < i ==> views(items@)[j] != wanted@,
        decreases items.len() - i,
    {
        if items[i] == w {
            assert(views(items@)[i as int] == wanted@);
            return true;
        }
        i += 1;
    }
    false
}

/// The order of strings: by the code points of their characters, the first
/// difference deciding, a proper prefix coming first.
pub open spec fn lex_le(a: Seq<char>, b: Seq<char>) -> bool
    decreases a.len(),
{
    if a.len() == 0 {
        true
    } else if b.len() == 0 {
        false
    } else if a[0] != b[0] {
        (a[0] as int) < (b[0] as int)
    } else {
        lex_le(a.drop_first(), b.drop_first())
    }
}

proof fn lemma_lex_skip(a: Seq<char>, b: Seq<char>, n: int)
    requires
        0 <= n <= a.len(),
        n <= b.len(),
        a.take(n) == b.take(n),
    ensures
        lex_le(a, b) == lex_le(a.skip(n), b.skip(n)),
    decreases n,
{
    if n > 0 {
        assert(a[0] == a.take(n)[0]);
        assert(b[0] == b.take(n)[0]);
        assert(a.drop_first().take(n - 1) =~= a.take(n).drop_first());
        assert(b.drop_first().take(n - 1) =~= b.take(n).drop_first());
        lemma_lex_skip(a.drop_first(), b.drop_first(), n - 1);
        assert(a.drop_first().skip(n - 1) =~= a.skip(n));
        assert(b.drop_first().skip(n - 1) =~= b.skip(n));
    } else {
        assert(a.skip(0) =~= a);
        assert(b.skip(0) =~= b);
    }
}

/// Whether `a` stands before `b` in the order of strings, or is the same.
pub fn chars_le(a: &[char], b: &[char]) -> (r: bool)
    ensures
        r == lex_le(a@, b@),
{
    let mut i: usize = 0;
    while i < a.len() && i < b.len()
        invariant
            i <= a.len(),
            i <= b.len(),
            a@.take(i as int) == b@.take(i as int),
        decreases a.len() - i,
    {
        if a[i] != b[i] {
            let ca: char = a[i];
            let cb: char = b[i];
            let below = ca < cb;
            proof {
                lemma_lex_skip(a@, b@, i as int);
                let s = a@.skip(i as int);
                let t = b@.skip(i as int);
                assert(s.len() > 0 && t.len() > 0);
                assert(s[0] == a@[i as int]);
                assert(t[0] == b@[i as int]);
                assert(below == ((ca as int) < (cb as int)));
                assert(lex_le(s, t) == ((s[0] as int) < (t[0] as int)));
            }
            return below;
        }
        assert(a@.take(i + 1) =~= a@.take(i as int).push(a@[i as int]));
        assert(b@.take(i + 1) =~= b@.take(i as int).push(b@[i as int]));
        i += 1;
    }
    proof {
        lemma_lex_skip(a@, b@, i as int);
    }
    i == a.len()
}

/// Whether `a` stands before `b` in the order of strings, or is the same.
pub fn str_le(a: &str, b: &str) -> (r: bool)
    ensures
        r == lex_le(a@, b@),
{
    let x = to_chars(a);
    let y = to_chars(b);
    chars_le(x.as_slice(), y.as_slice())
}

/// Whether a character is white space: one of the code points with the
/// Unicode property `White_Space`.
pub open spec fn is_space(c: char) -> bool {
    let n = c as int;
    ||| 0x09 <= n <= 0x0D
    ||| n == 0x20
    ||| n == 0x85
    ||| n == 0xA0
    ||| n == 0x1680
    ||| 0x2000 <= n <= 0x200A
    ||| n == 0x2028
    ||| n == 0x2029
    ||| n == 0x202F
    ||| n == 0x205F
    ||| n == 0x3000
}

/// A sequence without the white space at its start.
pub open spec fn trim_start(s: Seq<char>) -> Seq<char>
    decreases s.len(),
{
    if s.len() > 0 && is_space(s.first()) {
        trim_start(s.drop_first())
    } else {
        s
    }
}

/// A sequence without the white space at its end.
pub open spec fn trim_end(s: Seq<char>) -> Seq<char>
    decreases s.len(),
{
    if s.len() > 0 && is_space(s.last()) {
        trim_end(s.drop_last())
    } else {
        s
    }
}

/// A sequence without the white space at its start and at its end.
pub open spec fn trimmed(s: Seq<char>) -> Seq<char> {
    trim_end(trim_start(s))
}

/// The pieces of a text between its line feeds. A text with `n` line feeds
/// has `n + 1` pieces, some of which may be empty.
pub open spec fn split_lines(s: Seq<char>) -> Seq<Seq<char>>
    decreases s.len(),
{
    if s.len() == 0 {
        seq![Seq::empty()]
    } else {
        let front = split_lines(s.drop_last());
        if s.last() == '\n' {
            front.push(Seq::empty())
        } else {
            front.drop_last().push(front.last().push(s.last()))
        }
    }
}

/// The lines trimmed, without those that are empty then.
pub open spec fn clean(lines: Seq<Seq<char>>) -> Seq<Seq<char>>
    decreases lines.len(),
{
    if lines.len() == 0 {
        Seq::empty()
    } else {
        let front = clean(lines.drop_last());
        if trimmed(lines.last()).len() > 0 {
            front.push(trimmed(lines.last()))
        } else {
            front
        }
    }
}

/// The lines of a text, trimmed, without those that are empty then. This is
/// what remains of the output of a command once blank lines and the white
/// space around its lines, carriage returns included, are dropped.
pub open spec fn clean_lines_of(text: Seq<char>) -> Seq<Seq<char>> {
    clean(split_lines(text))
}

/// Whether a character is white space; see [`is_space`].
pub fn is_whitespace(c: char) -> (r: bool)
    ensures
        r == is_space(c),
{
    (c >= '\u{9}' && c <= '\u{d}') || c == ' ' || c == '\u{85}' || c == '\u{a0}' || c
        == '\u{1680}' || (c >= '\u{2000}' && c <= '\u{200a}') || c == '\u{2028}' || c
        == '\u{2029}' || c == '\u{202f}' || c == '\u{205f}' || c == '\u{3000}'
}

/// The bounds of what is left of `chars[start..end]` once it is trimmed.
pub fn trim_bounds(chars: &[char], start: usize, end: usize) -> (bounds: (usize, usize))
    requires
        start <= end <= chars.len(),
    ensures
        start <= bounds.0 <= bounds.1 <= end,
        chars@.subrange(bounds.0 as int, bounds.1 as int) == trimmed(
            chars@.subrange(start as int, end as int),
        ),
{
    let mut a = start;
    while a < end && is_whitespace(chars[a])
        invariant
            start <= a <= end <= chars.len(),
            trim_start(chars@.subrange(start as int, end as int)) == trim_start(
                chars@.subrange(a as int, end as int),
            ),
        decreases end - a,
    {
        proof {
            let t = chars@.subrange(a as int, end as int);
            assert(t.first() == chars@[a as int]);
            assert(t.drop_first() =~= chars@.subrange(a + 1, end as int));
        }
        a += 1;
    }
    proof {
        let t = chars@.subrange(a as int, end as int);
        if a < end {
            assert(t.first() == chars@[a as int]);
        }
        assert(trim_start(t) == t);
    }
    let mut b = end;
    while b > a && is_whitespace(chars[b - 1])
        invariant
            a <= b <= end <= chars.len(),
            trim_end(chars@.subrange(a as int, end as int)) == trim_end(
                chars@.subrange(a as int, b as int),
            ),
        decreases b - a,
    {
        proof {
            let t = chars@.subrange(a as int, b as int);
            assert(t.last() == chars@[b - 1]);
            assert(t.drop_last() =~= chars@.subrange(a as int, b - 1));
        }
        b -= 1;
    }
    proof {
        let t = chars@.subrange(a as int, b as int);
        if b > a {
            assert(t.last() == chars@[b - 1]);
        }
        assert(trim_end(t) == t);
    }
    (a, b)
}

/// The bounds of the lines of `chars`; see [`split_lines`].
pub fn line_bounds(chars: &[char]) -> (bounds: Vec<(usize, usize)>)
    ensures
        bounds.len() == split_lines(chars@).len(),
        forall|k: int|
            0 <= k < bounds.len() ==> {
                &&& (#[trigger] bounds@[k]).0 <= bounds@[k].1 <= chars.len()
                &&& chars@.subrange(bounds@[k].0 as int, bounds@[k].1 as int) == split_lines(
                    chars@,
                )[k]
            },
{
    let mut bounds: Vec<(usize, usize)> = Vec::new();
    let mut start: usize = 0;
    let mut i: usize = 0;
    proof {
        assert(chars@.take(0) =~= Seq::<char>::empty());
        assert(chars@.subrange(0, 0) =~= Seq::<char>::empty());
    }
    while i < chars.len()
        invariant
            start <= i <= chars.len(),
            split_lines(chars@.take(i as int)).len() == bounds.len() + 1,
            split_lines(chars@.take(i as int)).last() == chars@.subrange(start as int, i as int),
            forall|k: int|
                0 <= k < bounds.len() ==> {
                    &&& (#[trigger] bounds@[k]).0 <= bounds@[k].1 <= chars.len()
                    &&& chars@.subrange(bounds@[k].0 as int, bounds@[k].1 as int) == split_lines(
                        chars@.take(i as int),
                    )[k]
                },
        decreases chars.len() - i,
    {
        let ghost before = split_lines(chars@.take(i as int));
        proof {
            assert(chars@.take(i + 1).drop_last() =~= chars@.take(i as int));
            assert(chars@.take(i + 1).last() == chars@[i as int]);
        }
        if chars[i] == '\n' {
            bounds.push((start, i));
            start = i + 1;
            proof {
                let after = split_lines(chars@.take(i + 1));
                assert(after == before.push(Seq::<char>::empty()));
                assert(chars@.subrange(i + 1, i + 1) =~= Seq::<char>::empty());
                assert forall|k: int| 0 <= k < bounds.len() implies chars@.subrange(
                    (#[trigger] bounds@[k]).0 as int,
                    bounds@[k].1 as int,
                ) == after[k] by {
                    if k < bounds.len() - 1 {
                        assert(after[k] == before[k]);
                    }
                }
            }
        } else {
            proof {
                let after = split_lines(chars@.take(i + 1));
                assert(after == before.drop_last().push(before.last().push(chars@[i as int])));
                assert(chars@.subrange(start as int, i + 1) =~= chars@.subrange(
                    start as int,
                    i as int,
                ).push(chars@[i as int]));
                assert forall|k: int| 0 <= k < bounds.len() implies chars@.subrange(
                    (#[trigger] bounds@[k]).0 as int,
                    bounds@[k].1 as int,
                ) == after[k] by {
                    assert(after[k] == before[k]);
                }
            }
        }
        i += 1;
    }
    proof {
        assert(chars@.take(chars.len() as int) =~= chars@);
    }
    let ghost lines = split_lines(chars@);
    bounds.push((start, chars.len()));
    bounds
}

/// The lines of a text, trimmed, without those that are empty then; see
/// [`clean_lines_of`].
pub fn clean_lines(text: &str) -> (lines: Vec<String>)
    ensures
        views(lines@) == clean_lines_of(text@),
{
    let chars = to_chars(text);
    let bounds = line_bounds(chars.as_slice());
    let mut lines: Vec<String> = Vec::new();
    let mut k: usize = 0;
    proof {
        assert(split_lines(text@).take(0) =~= Seq::<Seq<char>>::empty());
        assert(views(lines@) =~= Seq::<Seq<char>>::empty());
    }
    while k < bounds.len()
        invariant
            k <= bounds.len(),
            chars@ == text@,
            bounds.len() == split_lines(text@).len(),
            forall|j: int|
                0 <= j < bounds.len() ==> {
                    &&& (#[trigger] bounds@[j]).0 <= bounds@[j].1 <= chars.len()
                    &&& chars@.subrange(bounds@[j].0 as int, bounds@[j].1 as int) == split_lines(
                        text@,
                    )[j]
                },
            views(lines@) == clean(split_lines(text@).take(k as int)),
        decreases bounds.len() - k,
    {
        let (start, end) = bounds[k];
        let (a, b) = trim_bounds(chars.as_slice(), start, end);
        proof {
            let all = split_lines(text@);
            assert(all.take(k + 1).drop_last() =~= all.take(k as int));
            assert(all.take(k + 1).last() == all[k as int]);
        }
        if a < b {
            let line = text.substring_char(a, b).to_owned();
            let ghost before = views(lines@);
            lines.push(line);
            assert(views(lines@) =~= before.push(line@));
        }
        k += 1;
    }
    proof {
        assert(split_lines(text@).take(bounds.len() as int) =~= split_lines(text@));
    }
    lines
}

/// `needle` occurs in `hay` at position `at` and nowhere before.
pub open spec fn first_at(needle: Seq<char>, hay: Seq<char>, at: int) -> bool {
    occurs_at(needle, hay, at) && forall|j: int| 0 <= j < at ==> !occurs_at(needle, hay, j)
}

/// The number of characters at the start of a sequence that are no white
/// space.
pub open spec fn word_len(s: Seq<char>) -> nat
    decreases s.len(),
{
    if s.len() > 0 && !is_space(s.first()) {
        1 + word_len(s.drop_first())
    } else {
        0
    }
}

/// The second of the words of a sequence, where a word is a longest run of
/// characters that are no white space; `None` if there are fewer than two.
pub open spec fn second_word(s: Seq<char>) -> Option<Seq<char>> {
    let from_first = trim_start(s);
    let from_second = trim_start(from_first.skip(word_len(from_first) as int));
    if from_second.len() == 0 {
        None
    } else {
        Some(from_second.take(word_len(from_second) as int))
    }
}

/// The second of the pieces into which `sep` splits `line`: what stands
/// between the first occurrence of `sep` and the next one behind it, or the
/// end; `None` if `sep` does not occur.
pub open spec fn second_piece(line: Seq<char>, sep: Seq<char>) -> Option<Seq<char>> {
    if exists|at: int| first_at(sep, line, at) {
        let at = choose|at: int| first_at(sep, line, at);
        let rest = line.skip(at + sep.len());
        if exists|next: int| first_at(sep, rest, next) {
            Some(rest.take(choose|next: int| first_at(sep, rest, next)))
        } else {
            Some(rest)
        }
    } else {
        None
    }
}

/// The first position at or behind `from` at which `needle` occurs in `hay`.
pub fn find_from(needle: &[char], hay: &[char], from: usize) -> (found: Option<usize>)
    requires
        from <= hay.len(),
    ensures
        match found {
            Some(at) => from <= at && first_at(needle@, hay@.skip(from as int), at - from),
            None => forall|j: int| !occurs_at(needle@, hay@.skip(from as int), j),
        },
{
    let ghost tail = hay@.skip(from as int);
    if needle.len() > hay.len() - from {
        assert forall|j: int| !occurs_at(needle@, tail, j) by {}
        return None;
    }
    let last = hay.len() - needle.len();
    let mut at: usize = from;
    loop
        invariant
            from <= at <= last,
            last == hay.len() - needle.len(),
            tail == hay@.skip(from as int),
            forall|j: int| 0 <= j < at - from ==> !occurs_at(needle@, tail, j),
        decreases last - at,
    {
        let here = matches_at(needle, hay, at);
        proof {
            if at + needle@.len() <= hay@.len() {
                assert(tail.subrange(at - from, at - from + needle@.len()) =~= hay@.subrange(
                    at as int,
                    at + needle@.len(),
                ));
            }
        }
        if here {
            return Some(at);
        }
        if at == last {
            assert forall|j: int| !occurs_at(needle@, tail, j) by {}
            return None;
        }
        at += 1;
    }
}

/// The position behind the white space that starts at `start`.
pub fn skip_spaces(chars: &[char], start: usize, end: usize) -> (at: usize)
    requires
        start <= end <= chars.len(),
    ensures
        start <= at <= end,
        chars@.subrange(at as int, end as int) == trim_start(
            chars@.subrange(start as int, end as int),
        ),
{
    let mut a = start;
    while a < end && is_whitespace(chars[a])
        invariant
            start <= a <= end <= chars.len(),
            trim_start(chars@.subrange(start as int, end as int)) == trim_start(
                chars@.subrange(a as int, end as int),
            ),
        decreases end - a,
    {
        proof {
            let t = chars@.subrange(a as int, end as int);
            assert(t.first() == chars@[a as int]);
            assert(t.drop_first() =~= chars@.subrange(a + 1, end as int));
        }
        a += 1;
    }
    proof {
        let t = chars@.subrange(a as int, end as int);
        if a < end {
            assert(t.first() == chars@[a as int]);
        }
        assert(trim_start(t) == t);
    }
    a
}

/// The position behind the word that starts at `start`.
pub fn skip_word(chars: &[char], start: usize, end: usize) -> (at: usize)
    requires
        start <= end <= chars.len(),
    ensures
        start <= at <= end,
        at - start == word_len(chars@.subrange(start as int, end as int)),
{
    let mut a = start;
    while a < end && !is_whitespace(chars[a])
        invariant
            start <= a <= end <= chars.len(),
            word_len(chars@.subrange(start as int, end as int)) == (a - start) + word_len(
                chars@.subrange(a as int, end as int),
            ),
        decreases end - a,
    {
        proof {
            let t = chars@.subrange(a as int, end as int);
            assert(t.first() == chars@[a as int]);
            assert(t.drop_first() =~= chars@.subrange(a + 1, end as int));
        }
        a += 1;
    }
    proof {
        let t = chars@.subrange(a as int, end as int);
        if a < end {
            assert(t.first() == chars@[a as int]);
        }
        assert(word_len(t) == 0);
    }
    a
}

/// The bounds of the second word of `chars[start..end]`; see
/// [`second_word`].
pub fn second_word_bounds(chars: &[char], start: usize, end: usize) -> (bounds: Option<
    (usize, usize),
>)
    requires
        start <= end <= chars.len(),
    ensures
        match bounds {
            Some((a, b)) => start <= a <= b <= end && second_word(
                chars@.subrange(start as int, end as int),
            ) == Some(chars@.subrange(a as int, b as int)),
            None => second_word(chars@.subrange(start as int, end as int)) is None,
        },
{
    let first = skip_spaces(chars, start, end);
    let behind_first = skip_word(chars, first, end);
    let second = skip_spaces(chars, behind_first, end);
    let behind_second = skip_word(chars, second, end);
    proof {
        let s = chars@.subrange(start as int, end as int);
        let from_first = chars@.subrange(first as int, end as int);
        assert(from_first.skip(behind_first - first) =~= chars@.subrange(
            behind_first as int,
            end as int,
        ));
        let from_second = chars@.subrange(second as int, end as int);
        assert(from_second.take(behind_second - second) =~= chars@.subrange(
            second as int,
            behind_second as int,
        ));
    }
    if second == end {
        None
    } else {
        Some((second, behind_second))
    }
}

/// The bounds of the second of the pieces into which `sep` splits `chars`;
/// see [`second_piece`].
pub fn second_piece_bounds(chars: &[char], sep: &[char]) -> (bounds: Option<(usize, usize)>)
    ensures
        match bounds {
            Some((a, b)) => a <= b <= chars.len() && second_piece(chars@, sep@) == Some(
                chars@.subrange(a as int, b as int),
            ),
            None => second_piece(chars@, sep@) is None,
        },
{
    proof {
        assert(chars@.skip(0) =~= chars@);
    }
    match find_from(sep, chars, 0) {
        None => None,
        Some(at) => {
            let ghost chosen = choose|k: int| first_at(sep@, chars@, k);
            assert(chosen == at as int) by {
                assert(first_at(sep@, chars@, at as int));
            }
            let from = at + sep.len();
            let ghost rest = chars@.skip(from as int);
            match find_from(sep, chars, from) {
                Some(next) => {
                    let ghost picked = choose|k: int| first_at(sep@, rest, k);
                    assert(picked == next - from) by {
                        assert(first_at(sep@, rest, next - from));
                    }
                    assert(rest.take(next - from) =~= chars@.subrange(from as int, next as int));
                    Some((from, next))
                },
                None => {
                    assert(rest =~= chars@.subrange(from as int, chars.len() as int));
                    Some((from, chars.len()))
                },
            }
        },
    }
}

/// What `str::to_lowercase` makes of a sequence of characters: each
/// character replaced by its Unicode lowercase mapping.
pub uninterp spec fn lowercase_of(s: Seq<char>) -> Seq<char>;

/// `str::to_lowercase` of the standard library. The contract only names the
/// result: it is the same for the same characters.
#[verifier::external_body]
pub(crate) fn to_lowercase(s: &str) -> (out: String)
    ensures
        out@ == lowercase_of(s@),
{
    s.to_lowercase()
}

} // verus!
