//! White space, lines and words of a text.
use vstd::prelude::*;

use crate::text::{
    chars_of, first_index, first_index_is_least, first_index_unique, has_prefix, starts_with, texts,
};

verus! {

/// White space by the Unicode property of that name.
pub open spec fn is_white(c: char) -> bool {
    ||| '\u{9}' <= c && c <= '\u{d}'
    ||| c == '\u{20}'
    ||| c == '\u{85}'
    ||| c == '\u{a0}'
    ||| c == '\u{1680}'
    ||| '\u{2000}' <= c && c <= '\u{200a}'
    ||| c == '\u{2028}'
    ||| c == '\u{2029}'
    ||| c == '\u{202f}'
    ||| c == '\u{205f}'
    ||| c == '\u{3000}'
}

/// Whether `c` is white space.
pub fn is_white_char(c: char) -> (r: bool)
    ensures
        r == is_white(c),
{
    ('\u{9}' <= c && c <= '\u{d}') || c == '\u{20}' || c == '\u{85}' || c == '\u{a0}' || c
        == '\u{1680}' || ('\u{2000}' <= c && c <= '\u{200a}') || c == '\u{2028}' || c == '\u{2029}'
        || c == '\u{202f}' || c == '\u{205f}' || c == '\u{3000}'
}

/// The text without the white space at its end.
pub open spec fn trimmed_end(s: Seq<char>) -> Seq<char>
    decreases s.len(),
{
    if s.len() > 0 && is_white(s.last()) {
        trimmed_end(s.drop_last())
    } else {
        s
    }
}

/// The text without the white space at its start.
pub open spec fn trimmed_start(s: Seq<char>) -> Seq<char>
    decreases s.len(),
{
    if s.len() > 0 && is_white(s[0]) {
        trimmed_start(s.skip(1))
    } else {
        s
    }
}

/// The text without the white space at both ends.
pub open spec fn trimmed(s: Seq<char>) -> Seq<char> {
    trimmed_end(trimmed_start(s))
}

/// The text without the white space at its end.
pub fn trim_end(s: &str) -> (r: &str)
    ensures
        r@ == trimmed_end(s@),
{
    let v = chars_of(s);
    let mut n: usize = v.len();
    assert(s@.take(n as int) =~= s@);
    while n > 0 && is_white_char(v[n - 1])
        invariant
            v@ == s@,
            n <= v.len(),
            trimmed_end(s@) == trimmed_end(s@.take(n as int)),
        ensures
            n <= v.len(),
            trimmed_end(s@) == s@.take(n as int),
        decreases n,
    {
        assert(s@.take(n as int).drop_last() =~= s@.take(n - 1));
        n -= 1;
    }
    assert(s@.take(n as int) =~= s@.subrange(0, n as int));
    s.substring_char(0, n)
}

/// The text without the white space at its start.
fn trim_start(s: &str) -> (r: &str)
    ensures
        r@ == trimmed_start(s@),
{
    let v = chars_of(s);
    let mut n: usize = 0;
    assert(s@.skip(0) =~= s@);
    while n < v.len() && is_white_char(v[n])
        invariant
            v@ == s@,
            n <= v.len(),
            trimmed_start(s@) == trimmed_start(s@.skip(n as int)),
        ensures
            n <= v.len(),
            trimmed_start(s@) == s@.skip(n as int),
        decreases v.len() - n,
    {
        assert(s@.skip(n as int).skip(1) =~= s@.skip(n + 1));
        n += 1;
    }
    assert(s@.skip(n as int) =~= s@.subrange(n as int, s@.len() as int));
    s.substring_char(n, v.len())
}

/// The text without the white space at both ends.
pub fn trim(s: &str) -> (r: &str)
    ensures
        r@ == trimmed(s@),
{
    trim_end(trim_start(s))
}

/// `p` stands in `s` at place `i`.
pub open spec fn stands_at(s: Seq<char>, p: Seq<char>, i: int) -> bool {
    0 <= i && i + p.len() <= s.len() && s.subrange(i, i + p.len()) == p
}

/// `p` stands somewhere in `s`.
pub open spec fn holds_text(s: Seq<char>, p: Seq<char>) -> bool {
    exists|i: int| stands_at(s, p, i)
}

/// Whether `p` stands somewhere in `s`.
pub fn contains_text(s: &str, p: &str) -> (r: bool)
    ensures
        r == holds_text(s@, p@),
{
    let v = chars_of(s);
    let w = chars_of(p);
    if w.len() > v.len() {
        return false;
    }
    let mut i: usize = 0;
    while i <= v.len() - w.len()
        invariant
            v@ == s@,
            w@ == p@,
            w.len() <= v.len(),
            i <= v.len() - w.len() + 1,
            forall|j: int| 0 <= j < i ==> !stands_at(s@, p@, j),
        decreases v.len() - w.len() + 1 - i,
    {
        let mut k: usize = 0;
        while k < w.len() && v[i + k] == w[k]
            invariant
                v@ == s@,
                w@ == p@,
                i + w.len() <= v.len(),
                k <= w.len(),
                forall|j: int| 0 <= j < k ==> s@[i + j] == p@[j],
            ensures
                k <= w.len(),
                forall|j: int| 0 <= j < k ==> s@[i + j] == p@[j],
                k < w.len() ==> s@[i + k] != p@[k as int],
            decreases w.len() - k,
        {
            k += 1;
        }
        if k == w.len() {
            assert(s@.subrange(i as int, i + p@.len()) =~= p@);
            assert(stands_at(s@, p@, i as int));
            return true;
        }
        assert(s@.subrange(i as int, i + p@.len())[k as int] != p@[k as int]);
        i += 1;
    }
    false
}

/// A line without the carriage return that may stand before its line break.
pub open spec fn without_cr(line: Seq<char>) -> Seq<char> {
    if line.len() > 0 && line.last() == '\r' {
        line.drop_last()
    } else {
        line
    }
}

/// The lines of a text: what stands before each line break, and what stands behind
/// the last one unless that is nothing.
pub open spec fn lines_of(s: Seq<char>) -> Seq<Seq<char>>
    decreases s.len(),
    via lines_of_decreases
{
    if s.len() == 0 {
        Seq::empty()
    } else {
        let i = first_index(s, '\n');
        if i >= s.len() {
            seq![s]
        } else {
            seq![without_cr(s.take(i))] + lines_of(s.skip(i + 1))
        }
    }
}

#[via_fn]
proof fn lines_of_decreases(s: Seq<char>) {
    first_index_is_least(s, '\n');
}

/// The lines of a text.
pub fn split_lines(s: &str) -> (r: Vec<String>)
    ensures
        texts(r@) == lines_of(s@),
{
    let v = chars_of(s);
    let mut r: Vec<String> = Vec::new();
    let mut start: usize = 0;
    assert(s@.skip(0) =~= s@);
    assert(texts(r@) + lines_of(s@) =~= lines_of(s@));
    while start < v.len()
        invariant
            v@ == s@,
            start <= v.len(),
            texts(r@) + lines_of(s@.skip(start as int)) == lines_of(s@),
        decreases v.len() - start,
    {
        let ghost rest = s@.skip(start as int);
        let ghost before = r@;
        let mut i: usize = start;
        while i < v.len() && v[i] != '\n'
            invariant
                v@ == s@,
                start <= i <= v.len(),
                rest == s@.skip(start as int),
                forall|j: int| 0 <= j < i - start ==> rest[j] != '\n',
            ensures
                start <= i <= v.len(),
                forall|j: int| 0 <= j < i - start ==> rest[j] != '\n',
                i < v.len() ==> v@[i as int] == '\n',
            decreases v.len() - i,
        {
            assert(rest[i - start] == v@[i as int]);
            i += 1;
        }
        if i == v.len() {
            let line = s.substring_char(start, v.len());
            r.push(line.to_owned());
            proof {
                first_index_is_least(rest, '\n');
                if rest.contains('\n') {
                    let j = choose|j: int| 0 <= j < rest.len() && rest[j] == '\n';
                    assert(rest[j] != '\n');
                }
                assert(line@ =~= rest);
                assert(lines_of(rest) == seq![rest]);
                assert(texts(r@) =~= texts(before) + seq![rest]);
                assert(s@.skip(v.len() as int) =~= Seq::empty());
                assert(texts(r@) + lines_of(s@.skip(v.len() as int)) =~= texts(before)
                    + lines_of(rest));
            }
            start = v.len();
        } else {
            let end: usize = if i > start && v[i - 1] == '\r' { i - 1 } else { i };
            let line = s.substring_char(start, end);
            r.push(line.to_owned());
            proof {
                assert(rest[i - start] == '\n');
                first_index_unique(rest, '\n', i - start);
                assert(rest.take(i - start) =~= s@.subrange(start as int, i as int));
                assert(line@ =~= without_cr(rest.take(i - start)));
                assert(rest.skip(i - start + 1) =~= s@.skip(i + 1));
                assert(texts(r@) =~= texts(before) + seq![line@]);
                assert(texts(r@) + lines_of(s@.skip(i + 1)) =~= texts(before) + lines_of(rest));
            }
            start = i + 1;
        }
    }
    assert(s@.skip(v.len() as int) =~= Seq::empty());
    assert(texts(r@) =~= texts(r@) + lines_of(s@.skip(v.len() as int)));
    r
}

/// Where the first white space of `s` stands; the length of `s` if there is none.
pub open spec fn word_end(s: Seq<char>) -> int
    decreases s.len(),
{
    if s.len() == 0 || is_white(s[0]) {
        0
    } else {
        1 + word_end(s.skip(1))
    }
}

/// What `word_end` finds.
proof fn word_end_is_first(s: Seq<char>)
    ensures
        0 <= word_end(s) <= s.len(),
        forall|j: int| 0 <= j < word_end(s) ==> !is_white(#[trigger] s[j]),
        word_end(s) < s.len() ==> is_white(s[word_end(s)]),
    decreases s.len(),
{
    if s.len() > 0 && !is_white(s[0]) {
        word_end_is_first(s.skip(1));
        assert forall|j: int| 0 <= j < word_end(s) implies !is_white(#[trigger] s[j]) by {
            if j > 0 {
                assert(s.skip(1)[j - 1] == s[j]);
            }
        }
    }
}

/// A place that no white space stands before, and behind which white space or
/// nothing stands, is the end of the first word.
proof fn word_end_unique(s: Seq<char>, i: int)
    requires
        0 <= i <= s.len(),
        forall|j: int| 0 <= j < i ==> !is_white(#[trigger] s[j]),
        i < s.len() ==> is_white(s[i]),
    ensures
        word_end(s) == i,
{
    word_end_is_first(s);
    let k = word_end(s);
    if k < i {
        assert(!is_white(s[k]));
    } else if i < k {
        assert(!is_white(s[i]));
    }
}

/// The words of a text: its longest parts without white space.
pub open spec fn words_of(s: Seq<char>) -> Seq<Seq<char>>
    decreases s.len(),
    via words_of_decreases
{
    if s.len() == 0 {
        Seq::empty()
    } else if is_white(s[0]) {
        words_of(s.skip(1))
    } else {
        seq![s.take(word_end(s))] + words_of(s.skip(word_end(s)))
    }
}

#[via_fn]
proof fn words_of_decreases(s: Seq<char>) {
    if s.len() > 0 && !is_white(s[0]) {
        word_end_is_first(s);
        assert(word_end(s) >= 1) by {
            word_end_is_first(s.skip(1));
        }
    }
}

/// The words of a text.
pub fn split_words(s: &str) -> (r: Vec<String>)
    ensures
        texts(r@) == words_of(s@),
{
    let v = chars_of(s);
    let mut r: Vec<String> = Vec::new();
    let mut start: usize = 0;
    assert(s@.skip(0) =~= s@);
    assert(texts(r@) + words_of(s@) =~= words_of(s@));
    while start < v.len()
        invariant
            v@ == s@,
            start <= v.len(),
            texts(r@) + words_of(s@.skip(start as int)) == words_of(s@),
        decreases v.len() - start,
    {
        let ghost rest = s@.skip(start as int);
        assert(rest[0] == v@[start as int]);
        if is_white_char(v[start]) {
            assert(rest.skip(1) =~= s@.skip(start + 1));
            start += 1;
        } else {
            let ghost before = r@;
            let mut i: usize = start + 1;
            while i < v.len() && !is_white_char(v[i])
                invariant
                    v@ == s@,
                    start < i <= v.len(),
                    rest == s@.skip(start as int),
                    forall|j: int| 0 <= j < i - start ==> !is_white(#[trigger] rest[j]),
                ensures
                    start < i <= v.len(),
                    forall|j: int| 0 <= j < i - start ==> !is_white(#[trigger] rest[j]),
                    i < v.len() ==> is_white(v@[i as int]),
                decreases v.len() - i,
            {
                assert(rest[i - start] == v@[i as int]);
                i += 1;
            }
            let word = s.substring_char(start, i);
            r.push(word.to_owned());
            proof {
                if i < v.len() {
                    assert(rest[i - start] == v@[i as int]);
                }
                word_end_unique(rest, i - start);
                assert(word@ =~= rest.take(i - start));
                assert(rest.skip(i - start) =~= s@.skip(i as int));
                assert(texts(r@) =~= texts(before) + seq![word@]);
                assert(texts(r@) + words_of(s@.skip(i as int)) =~= texts(before) + words_of(rest));
            }
            start = i;
        }
    }
    assert(s@.skip(v.len() as int) =~= Seq::empty());
    assert(texts(r@) =~= texts(r@) + words_of(s@.skip(v.len() as int)));
    r
}

/// Whether some line of the text begins with `p`.
pub open spec fn some_line_begins(s: Seq<char>, p: Seq<char>) -> bool {
    exists|i: int| 0 <= i < lines_of(s).len() && has_prefix(#[trigger] lines_of(s)[i], p)
}

/// Whether some line of the text holds `p`.
pub open spec fn some_line_holds(s: Seq<char>, p: Seq<char>) -> bool {
    exists|i: int| 0 <= i < lines_of(s).len() && holds_text(#[trigger] lines_of(s)[i], p)
}

/// Whether some line of the text begins with `p`.
pub fn any_line_begins(s: &str, p: &str) -> (r: bool)
    ensures
        r == some_line_begins(s@, p@),
{
    let lines = split_lines(s);
    let mut i: usize = 0;
    while i < lines.len()
        invariant
            i <= lines.len(),
            texts(lines@) == lines_of(s@),
            forall|j: int| 0 <= j < i ==> !has_prefix(#[trigger] lines_of(s@)[j], p@),
        decreases lines.len() - i,
    {
        assert(lines_of(s@)[i as int] == lines@[i as int]@);
        if starts_with(lines[i].as_str(), p) {
            return true;
        }
        i += 1;
    }
    false
}

/// Whether some line of the text holds `p`.
pub fn any_line_holds(s: &str, p: &str) -> (r: bool)
    ensures
        r == some_line_holds(s@, p@),
{
    let lines = split_lines(s);
    let mut i: usize = 0;
    while i < lines.len()
        invariant
            i <= lines.len(),
            texts(lines@) == lines_of(s@),
            forall|j: int| 0 <= j < i ==> !holds_text(#[trigger] lines_of(s@)[j], p@),
        decreases lines.len() - i,
    {
        assert(lines_of(s@)[i as int] == lines@[i as int]@);
        if contains_text(lines[i].as_str(), p) {
            return true;
        }
        i += 1;
    }
    false
}

/// Whether a text consists of white space.
pub open spec fn all_white(s: Seq<char>) -> bool {
    forall|i: int| 0 <= i < s.len() ==> is_white(#[trigger] s[i])
}

/// White space among the characters of ASCII is the blank and what moves the cursor: tab,
/// line feed, vertical tab, form feed and carriage return.
pub proof fn white_space_of_ascii(c: char)
    requires
        c <= '\u{7f}',
    ensures
        is_white(c) <==> c == ' ' || c == '\t' || c == '\n' || c == '\u{b}' || c == '\u{c}' || c
            == '\r',
{
}

/// White space at the start goes.
proof fn white_start_goes(a: Seq<char>, m: Seq<char>)
    requires
        all_white(a),
        m.len() > 0,
        !is_white(m[0]),
    ensures
        trimmed_start(a + m) == m,
    decreases a.len(),
{
    if a.len() > 0 {
        let rest = a.skip(1);
        assert forall|i: int| 0 <= i < rest.len() implies is_white(#[trigger] rest[i]) by {
            assert(rest[i] == a[i + 1]);
        }
        assert(is_white(a[0]));
        assert((a + m).skip(1) =~= rest + m);
        white_start_goes(rest, m);
    } else {
        assert(a + m =~= m);
    }
}

/// White space at the end goes.
proof fn white_end_goes(m: Seq<char>, b: Seq<char>)
    requires
        all_white(b),
        m.len() == 0 || !is_white(m.last()),
    ensures
        trimmed_end(m + b) == m,
    decreases b.len(),
{
    if b.len() > 0 {
        let rest = b.drop_last();
        assert forall|i: int| 0 <= i < rest.len() implies is_white(#[trigger] rest[i]) by {
            assert(rest[i] == b[i]);
        }
        assert(is_white(b[b.len() - 1]));
        assert((m + b).drop_last() =~= m + rest);
        white_end_goes(m, rest);
    } else {
        assert(m + b =~= m);
    }
}

/// Trimming takes away the white space at both ends and nothing else.
pub proof fn trimming_takes_the_white_space_around(a: Seq<char>, m: Seq<char>, b: Seq<char>)
    requires
        all_white(a),
        all_white(b),
        m.len() > 0,
        !is_white(m[0]),
        !is_white(m.last()),
    ensures
        trimmed(a + m + b) == m,
        trimmed_end(a + m + b) == a + m,
{
    assert(a + m + b =~= a + (m + b));
    assert((m + b)[0] == m[0]);
    white_start_goes(a, m + b);
    white_end_goes(m, b);
    assert((a + m).last() == m.last());
    white_end_goes(a + m, b);
}

/// A text that holds nothing but white space is trimmed to nothing.
pub proof fn white_space_is_trimmed_to_nothing(s: Seq<char>)
    requires
        all_white(s),
    ensures
        trimmed_end(s) == Seq::<char>::empty(),
        trimmed(s) == Seq::<char>::empty(),
    decreases s.len(),
{
    assert(Seq::<char>::empty() + s =~= s);
    white_end_goes(Seq::empty(), s);
    if s.len() > 0 {
        let rest = s.skip(1);
        assert(is_white(s[0]));
        assert forall|i: int| 0 <= i < rest.len() implies is_white(#[trigger] rest[i]) by {
            assert(rest[i] == s[i + 1]);
        }
        white_space_is_trimmed_to_nothing(rest);
        assert(trimmed_start(s) == trimmed_start(rest));
    }
}

/// A text is made of its lines: a line ends with a line feed, before which a carriage
/// return does not count, and the last one needs none.
pub proof fn texts_are_made_of_lines(line: Seq<char>, rest: Seq<char>)
    requires
        !line.contains('\n'),
    ensures
        lines_of(Seq::empty()) == Seq::<Seq<char>>::empty(),
        line.len() > 0 ==> lines_of(line) == seq![line],
        line.len() == 0 || line.last() != '\r' ==> lines_of(line + seq!['\n'] + rest) == seq![line]
            + lines_of(rest),
        lines_of(line + seq!['\r', '\n'] + rest) == seq![line] + lines_of(rest),
{
    first_index_is_least(line, '\n');
    let plain = line + seq!['\n'] + rest;
    assert forall|j: int| 0 <= j < line.len() implies plain[j] != '\n' by {
        assert(line.contains(line[j]));
    }
    assert(plain[line.len() as int] == '\n');
    first_index_unique(plain, '\n', line.len() as int);
    assert(plain.take(line.len() as int) =~= line);
    assert(plain.skip(line.len() as int + 1) =~= rest);
    let dos = line + seq!['\r', '\n'] + rest;
    assert forall|j: int| 0 <= j < line.len() + 1 implies dos[j] != '\n' by {
        if j < line.len() {
            assert(line.contains(line[j]));
        }
    }
    assert(dos[line.len() as int + 1] == '\n');
    first_index_unique(dos, '\n', line.len() as int + 1);
    assert(dos.take(line.len() as int + 1) =~= line.push('\r'));
    assert(line.push('\r').drop_last() =~= line);
    assert(dos.skip(line.len() as int + 2) =~= rest);
}

/// A text is made of its words: each ends at white space or at the end of the text, and
/// white space is no word.
pub proof fn texts_are_made_of_words(word: Seq<char>, c: char, rest: Seq<char>)
    requires
        word.len() > 0,
        forall|i: int| 0 <= i < word.len() ==> !is_white(#[trigger] word[i]),
        is_white(c),
    ensures
        words_of(Seq::empty()) == Seq::<Seq<char>>::empty(),
        words_of(seq![c] + rest) == words_of(rest),
        words_of(word) == seq![word],
        words_of(word + seq![c] + rest) == seq![word] + words_of(rest),
{
    assert((seq![c] + rest).skip(1) =~= rest);
    assert(words_of(seq![c] + rest) == words_of(rest));
    word_end_unique(word, word.len() as int);
    assert(word.take(word.len() as int) =~= word);
    assert(word.skip(word.len() as int) =~= Seq::empty());
    assert(seq![word] + Seq::<Seq<char>>::empty() =~= seq![word]);
    assert(!is_white(word[0]));
    let all = word + seq![c] + rest;
    assert forall|j: int| 0 <= j < word.len() implies !is_white(#[trigger] all[j]) by {
        assert(all[j] == word[j]);
    }
    assert(all[word.len() as int] == c);
    word_end_unique(all, word.len() as int);
    assert(all.take(word.len() as int) =~= word);
    assert(all.skip(word.len() as int) =~= seq![c] + rest);
}

/// A text holds what stands between two other texts in it, and nothing else.
pub proof fn texts_hold_their_parts(a: Seq<char>, p: Seq<char>, b: Seq<char>)
    ensures
        holds_text(a + p + b, p),
        p.len() > (a + b).len() ==> !holds_text(a + b, p),
        holds_text(a, p) <==> exists|before: Seq<char>, after: Seq<char>|
            a == #[trigger] (before + p + after),
{
    let s = a + p + b;
    assert(s.subrange(a.len() as int, (a.len() + p.len()) as int) =~= p);
    assert(stands_at(s, p, a.len() as int));
    if holds_text(a, p) {
        let i = choose|i: int| stands_at(a, p, i);
        let before = a.take(i);
        let after = a.skip(i + p.len());
        assert(a =~= before + a.subrange(i, i + p.len()) + after);
        assert(a == before + p + after);
    }
    if exists|before: Seq<char>, after: Seq<char>| a == #[trigger] (before + p + after) {
        let (before, after) = choose|before: Seq<char>, after: Seq<char>|
            a == #[trigger] (before + p + after);
        assert(a.subrange(before.len() as int, (before.len() + p.len()) as int) =~= p);
        assert(stands_at(a, p, before.len() as int));
    }
}

} // verus!
