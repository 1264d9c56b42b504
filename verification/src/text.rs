//! Character-level helpers on strings.
//!
//! Contracts speak of a string through its view, the sequence of its
//! characters. The few operations that only the standard library can do
//! (case folding, the whitespace class, appending a character) stand behind
//! small trusted functions; everything else here is proved.

use vstd::prelude::*;
use vstd::string::*;

verus! {

/// The lowercase form of a sequence of characters, as `str::to_lowercase`
/// computes it.
pub uninterp spec fn lowercase(s: Seq<char>) -> Seq<char>;

/// Whether a character belongs to the whitespace class of
/// `char::is_whitespace`.
pub uninterp spec fn is_whitespace(c: char) -> bool;

/// Calls `str::to_lowercase`. Trusted: the result is the lowercase form of
/// the argument, which depends on the argument alone.
#[verifier::external_body]
pub(crate) fn to_lowercase(s: &str) -> (r: String)
    ensures
        r@ == lowercase(s@),
{
    s.to_lowercase()
}

/// Calls `char::is_whitespace`. Trusted: the result says whether the
/// character is in the whitespace class.
#[verifier::external_body]
pub(crate) fn char_is_whitespace(c: char) -> (r: bool)
    ensures
        r == is_whitespace(c),
{
    c.is_whitespace()
}

/// Calls `String::push`. Trusted: the character is appended and nothing else
/// changes.
#[verifier::external_body]
pub(crate) fn push_char(s: &mut String, c: char)
    ensures
        final(s)@ == old(s)@.push(c),
{
    s.push(c)
}

/// The characters of `s`, in order.
pub fn chars_of(s: &str) -> (r: Vec<char>)
    ensures
        r@ == s@,
{
    let mut v: Vec<char> = Vec::new();
    for c in it: s.chars()
        invariant
            it.seq() == s@,
            v@ == s@.take(it.index() as int),
    {
        v.push(c);
    }
    v
}

/// The string made of the characters `v[from..to]`.
pub fn string_of_range(v: &Vec<char>, from: usize, to: usize) -> (r: String)
    requires
        from <= to <= v.len(),
    ensures
        r@ == v@.subrange(from as int, to as int),
{
    let mut s = String::new();
    let mut i: usize = from;
    while i < to
        invariant
            from <= i <= to <= v.len(),
            s@ == v@.subrange(from as int, i as int),
        decreases to - i,
    {
        push_char(&mut s, v[i]);
        i += 1;
    }
    s
}

/// The string made of the characters of `v`.
pub fn string_of(v: &Vec<char>) -> (r: String)
    ensures
        r@ == v@,
{
    let r = string_of_range(v, 0, v.len());
    assert(v@.subrange(0, v.len() as int) == v@);
    r
}

/// `s` without its last character; `s` itself when it is empty.
pub open spec fn without_last(s: Seq<char>) -> Seq<char> {
    if s.len() > 0 {
        s.drop_last()
    } else {
        s
    }
}

/// `s` without its last character.
pub fn drop_last_char(s: &str) -> (r: String)
    ensures
        r@ == without_last(s@),
{
    let v = chars_of(s);
    if v.len() == 0 {
        let r = String::new();
        assert(r@ =~= s@);
        r
    } else {
        string_of_range(&v, 0, v.len() - 1)
    }
}

/// Whether two strings hold the same characters.
pub fn str_eq(a: &str, b: &str) -> (r: bool)
    ensures
        r == (a@ == b@),
{
    let x = a.to_owned();
    let y = b.to_owned();
    x == y
}

/// A copy of a list of rows.
pub fn clone_rows(rows: &Vec<String>) -> (r: Vec<String>)
    ensures
        r.deep_view() == rows.deep_view(),
{
    let mut out: Vec<String> = Vec::new();
    let mut i: usize = 0;
    while i < rows.len()
        invariant
            i <= rows.len(),
            out.deep_view() == rows.deep_view().take(i as int),
        decreases rows.len() - i,
    {
        let ghost before = out.deep_view();
        out.push(rows[i].clone());
        assert(out.deep_view() =~= before.push(rows[i as int]@));
        assert(rows.deep_view().take(i + 1) =~= rows.deep_view().take(i as int).push(
            rows[i as int]@,
        ));
        i += 1;
    }
    assert(rows.deep_view().take(rows.len() as int) =~= rows.deep_view());
    out
}

/// `n` copies of the character `c`.
pub open spec fn repeated(c: char, n: nat) -> Seq<char> {
    Seq::new(n, |i: int| c)
}

/// `s`, followed by as many spaces as it takes to make it `width`
/// characters long; `s` itself when it is that long already.
pub open spec fn padded(s: Seq<char>, width: nat) -> Seq<char> {
    if s.len() < width {
        s + repeated(' ', (width - s.len()) as nat)
    } else {
        s
    }
}

/// The string of `n` copies of `c`.
pub fn repeat_char(c: char, n: usize) -> (r: String)
    ensures
        r@ == repeated(c, n as nat),
{
    let mut out = String::new();
    let mut i: usize = 0;
    while i < n
        invariant
            i <= n,
            out@ == repeated(c, i as nat),
        decreases n - i,
    {
        let ghost before = out@;
        push_char(&mut out, c);
        assert(out@ =~= repeated(c, (i + 1) as nat));
        i += 1;
    }
    out
}

/// Pads `s` with spaces on the right to `width` characters.
pub fn pad_right(s: &str, width: usize) -> (r: String)
    ensures
        r@ == padded(s@, width as nat),
{
    let len = s.unicode_len();
    if len < width {
        let fill = repeat_char(' ', width - len);
        s.to_owned().concat(fill.as_str())
    } else {
        s.to_owned()
    }
}

/// Which characters of `s` are whitespace.
pub open spec fn marks_of(s: Seq<char>) -> Seq<bool> {
    Seq::new(s.len(), |i: int| is_whitespace(s[i]))
}

/// The number of marks at the start of `marks`.
pub open spec fn leading_marks(marks: Seq<bool>) -> nat
    decreases marks.len(),
{
    if marks.len() > 0 && marks[0] {
        1 + leading_marks(marks.drop_first())
    } else {
        0
    }
}

/// The number of marks at the end of `marks`.
pub open spec fn trailing_marks(marks: Seq<bool>) -> nat
    decreases marks.len(),
{
    if marks.len() > 0 && marks.last() {
        1 + trailing_marks(marks.drop_last())
    } else {
        0
    }
}

/// `s` without the marked characters at its start and at its end.
pub open spec fn trimmed(s: Seq<char>, marks: Seq<bool>) -> Seq<char> {
    let front = leading_marks(marks);
    let back = trailing_marks(marks);
    if front + back >= s.len() {
        Seq::empty()
    } else {
        s.subrange(front as int, s.len() - back)
    }
}

/// `s` without the whitespace at its start and at its end.
pub open spec fn trim(s: Seq<char>) -> Seq<char> {
    trimmed(s, marks_of(s))
}

proof fn lemma_leading_marks(marks: Seq<bool>)
    ensures
        leading_marks(marks) <= marks.len(),
        forall|i: int| 0 <= i < leading_marks(marks) ==> #[trigger] marks[i],
        leading_marks(marks) < marks.len() ==> !marks[leading_marks(marks) as int],
    decreases marks.len(),
{
    if marks.len() > 0 && marks[0] {
        let rest = marks.drop_first();
        lemma_leading_marks(rest);
        assert forall|i: int| 0 <= i < leading_marks(marks) implies #[trigger] marks[i] by {
            if i > 0 {
                assert(rest[i - 1] == marks[i]);
            }
        }
        if leading_marks(marks) < marks.len() {
            assert(rest[leading_marks(rest) as int] == marks[leading_marks(marks) as int]);
        }
    }
}

proof fn lemma_trailing_marks(marks: Seq<bool>)
    ensures
        trailing_marks(marks) <= marks.len(),
        forall|i: int| marks.len() - trailing_marks(marks) <= i < marks.len() ==> #[trigger] marks[i],
        trailing_marks(marks) < marks.len() ==> !marks[marks.len() - trailing_marks(marks) - 1],
    decreases marks.len(),
{
    if marks.len() > 0 && marks.last() {
        let rest = marks.drop_last();
        lemma_trailing_marks(rest);
        assert forall|i: int|
            marks.len() - trailing_marks(marks) <= i < marks.len() implies #[trigger] marks[i] by {
            if i < rest.len() {
                assert(rest[i] == marks[i]);
            }
        }
        if trailing_marks(marks) < marks.len() {
            assert(rest[rest.len() - trailing_marks(rest) - 1] == marks[marks.len()
                - trailing_marks(marks) - 1]);
        }
    }
}

/// Trimming takes marked characters only, and takes them all: what is
/// left of a text neither starts nor ends with a marked character, and
/// the text is what was taken at the start, what is left, and what was
/// taken at the end.
pub proof fn lemma_trimmed(s: Seq<char>, marks: Seq<bool>)
    requires
        marks.len() == s.len(),
    ensures
        forall|i: int| 0 <= i < leading_marks(marks) ==> #[trigger] marks[i],
        forall|i: int| s.len() - trailing_marks(marks) <= i < s.len() ==> #[trigger] marks[i],
        trimmed(s, marks).len() > 0 ==> {
            &&& !marks[leading_marks(marks) as int]
            &&& !marks[s.len() - trailing_marks(marks) - 1]
            &&& s == s.take(leading_marks(marks) as int) + trimmed(s, marks) + s.skip(
                s.len() - trailing_marks(marks),
            )
        },
        trimmed(s, marks).len() == 0 ==> forall|i: int| 0 <= i < s.len() ==> #[trigger] marks[i],
{
    lemma_leading_marks(marks);
    lemma_trailing_marks(marks);
    let front = leading_marks(marks);
    let back = trailing_marks(marks);
    if front + back < s.len() {
        assert(s =~= s.take(front as int) + trimmed(s, marks) + s.skip(s.len() - back));
    } else {
        if front < s.len() {
            assert(!marks[front as int]);
            assert(marks[front as int]);
        }
    }
}

/// `s` after `pattern` has been taken from its start as often as it
/// stands there.
pub open spec fn strip_prefixes(s: Seq<char>, pattern: Seq<char>) -> Seq<char>
    decreases s.len(),
{
    if pattern.len() > 0 && pattern.is_prefix_of(s) {
        strip_prefixes(s.skip(pattern.len() as int), pattern)
    } else {
        s
    }
}

/// `s` after `pattern` has been taken from its end as often as it stands
/// there.
pub open spec fn strip_suffixes(s: Seq<char>, pattern: Seq<char>) -> Seq<char>
    decreases s.len(),
{
    if pattern.len() > 0 && pattern.is_suffix_of(s) {
        strip_suffixes(s.take(s.len() - pattern.len()), pattern)
    } else {
        s
    }
}

/// The word in progress, as a list of at most one finished word.
pub open spec fn flushed(word: Seq<char>) -> Seq<Seq<char>> {
    if word.len() > 0 {
        seq![word]
    } else {
        Seq::empty()
    }
}

/// The words of `s` from position `i` on: its longest stretches without
/// a marked character, where `word` holds the characters of the word that
/// is open at `i`.
pub open spec fn words_from(s: Seq<char>, marks: Seq<bool>, i: int, word: Seq<char>) -> Seq<
    Seq<char>,
>
    decreases s.len() - i,
{
    if i < 0 || i >= s.len() {
        flushed(word)
    } else if marks[i] {
        flushed(word) + words_from(s, marks, i + 1, Seq::empty())
    } else {
        words_from(s, marks, i + 1, word.push(s[i]))
    }
}

/// The pieces that the marked characters cut `s` into, empty pieces left
/// out.
pub open spec fn pieces(s: Seq<char>, marks: Seq<bool>) -> Seq<Seq<char>> {
    words_from(s, marks, 0, Seq::empty())
}

/// The words of `s`: its longest stretches without whitespace, in order.
pub open spec fn words(s: Seq<char>) -> Seq<Seq<char>> {
    pieces(s, marks_of(s))
}

/// Whether a piece of text is a word: not empty, and without whitespace.
pub open spec fn is_word(piece: Seq<char>) -> bool {
    piece.len() > 0 && forall|j: int| 0 <= j < piece.len() ==> !is_whitespace(#[trigger] piece[j])
}

proof fn lemma_words_from(s: Seq<char>, i: int, word: Seq<char>)
    requires
        0 <= i,
        forall|j: int| 0 <= j < word.len() ==> !is_whitespace(#[trigger] word[j]),
    ensures
        forall|k: int|
            0 <= k < words_from(s, marks_of(s), i, word).len() ==> is_word(
                #[trigger] words_from(s, marks_of(s), i, word)[k],
            ),
    decreases s.len() - i,
{
    let marks = marks_of(s);
    let all = words_from(s, marks, i, word);
    if i < s.len() {
        if marks[i] {
            let rest = words_from(s, marks, i + 1, Seq::empty());
            lemma_words_from(s, i + 1, Seq::empty());
            assert forall|k: int| 0 <= k < all.len() implies is_word(#[trigger] all[k]) by {
                if word.len() > 0 {
                    if k == 0 {
                        assert(all[k] == word);
                    } else {
                        assert(all[k] == rest[k - 1]);
                    }
                } else {
                    assert(all[k] == rest[k]);
                }
            }
        } else {
            let longer = word.push(s[i]);
            assert forall|j: int| 0 <= j < longer.len() implies !is_whitespace(
                #[trigger] longer[j],
            ) by {
                if j < word.len() {
                    assert(longer[j] == word[j]);
                }
            }
            lemma_words_from(s, i + 1, longer);
            let rest = words_from(s, marks, i + 1, longer);
            assert(all == rest);
            assert forall|k: int| 0 <= k < all.len() implies is_word(#[trigger] all[k]) by {
                assert(is_word(rest[k]));
            }
        }
    } else {
        assert forall|k: int| 0 <= k < all.len() implies is_word(#[trigger] all[k]) by {
            assert(all[k] == word);
        }
    }
}

/// Every word of a text is a word: it is not empty and holds no
/// whitespace.
pub proof fn lemma_words_are_words(s: Seq<char>)
    ensures
        forall|k: int| 0 <= k < words(s).len() ==> is_word(#[trigger] words(s)[k]),
{
    lemma_words_from(s, 0, Seq::empty());
}

/// The first word of `s`, or the empty sequence when `s` has no word.
pub open spec fn first_word(s: Seq<char>) -> Seq<char> {
    if words(s).len() > 0 {
        words(s)[0]
    } else {
        Seq::empty()
    }
}

/// Whether `v[at..]` starts with `pattern`.
fn matches_at(v: &Vec<char>, at: usize, pattern: &Vec<char>) -> (r: bool)
    requires
        at <= v.len(),
    ensures
        r == pattern@.is_prefix_of(v@.skip(at as int)),
{
    if pattern.len() > v.len() - at {
        return false;
    }
    let mut k: usize = 0;
    while k < pattern.len()
        invariant
            at <= v.len(),
            pattern.len() <= v.len() - at,
            k <= pattern.len(),
            forall|j: int| 0 <= j < k ==> pattern@[j] == v@[at + j],
        decreases pattern.len() - k,
    {
        if pattern[k] != v[at + k] {
            assert(v@.skip(at as int)[k as int] == v@[at + k]);
            return false;
        }
        k += 1;
    }
    assert(pattern@ =~= v@.skip(at as int).subrange(0, pattern.len() as int));
    true
}

/// Whether `s` starts with `pattern`.
pub fn starts_with(s: &str, pattern: &str) -> (r: bool)
    ensures
        r == pattern@.is_prefix_of(s@),
{
    let v = chars_of(s);
    let p = chars_of(pattern);
    assert(v@.skip(0) =~= v@);
    matches_at(&v, 0, &p)
}

/// The first place at or after `from` where `pattern` stands in `s`.
pub open spec fn first_match(s: Seq<char>, pattern: Seq<char>, from: int) -> Option<int>
    decreases s.len() - from,
{
    if from < 0 || from + pattern.len() > s.len() {
        None
    } else if pattern.is_prefix_of(s.skip(from)) {
        Some(from)
    } else {
        first_match(s, pattern, from + 1)
    }
}

/// Finds the first place at or after `from` where `pattern` stands in `v`.
pub fn find_from(v: &Vec<char>, pattern: &Vec<char>, from: usize) -> (r: Option<usize>)
    ensures
        match r {
            Some(i) => first_match(v@, pattern@, from as int) == Some(i as int) && from <= i
                && i + pattern.len() <= v.len(),
            None => first_match(v@, pattern@, from as int) is None,
        },
{
    if pattern.len() > v.len() {
        return None;
    }
    let last = v.len() - pattern.len();
    let mut i: usize = from;
    while i <= last
        invariant
            from <= i,
            last + pattern.len() == v.len(),
            first_match(v@, pattern@, from as int) == first_match(v@, pattern@, i as int),
        decreases last + 1 - i,
    {
        if matches_at(v, i, pattern) {
            return Some(i);
        }
        i += 1;
    }
    None
}

/// The pieces of `s` between single spaces, `n` at most: the last piece
/// holds what is left, spaces and all.
pub open spec fn space_fields(s: Seq<char>, n: nat) -> Seq<Seq<char>>
    decreases n,
{
    if n == 0 {
        Seq::empty()
    } else if n == 1 {
        seq![s]
    } else {
        match first_match(s, seq![' '], 0) {
            Some(i) => seq![s.take(i)] + space_fields(s.skip(i + 1), (n - 1) as nat),
            None => seq![s],
        }
    }
}

/// Cuts `s` at single spaces into at most `n` pieces.
pub fn split_fields(s: &str, n: usize) -> (r: Vec<String>)
    ensures
        r.deep_view() == space_fields(s@, n as nat),
{
    let v = chars_of(s);
    let mut out: Vec<String> = Vec::new();
    assert(out.deep_view() =~= Seq::<Seq<char>>::empty());
    if n == 0 {
        return out;
    }
    let mut space: Vec<char> = Vec::new();
    space.push(' ');
    assert(space@ =~= seq![' ']);
    let mut start: usize = 0;
    let mut left: usize = n;
    assert(v@.skip(0) =~= v@);
    assert(Seq::<Seq<char>>::empty() + space_fields(v@, n as nat) =~= space_fields(v@, n as nat));
    while left > 1
        invariant
            start <= v.len(),
            left >= 1,
            v@ == s@,
            space@ == seq![' '],
            out.deep_view() + space_fields(v@.skip(start as int), left as nat) == space_fields(
                s@,
                n as nat,
            ),
        decreases left,
    {
        let ghost done = out.deep_view();
        let ghost rest = v@.skip(start as int);
        proof {
            lemma_first_match_skip(v@, space@, start as int, start as int);
        }
        match find_from(&v, &space, start) {
            Some(i) => {
                let piece = string_of_range(&v, start, i);
                proof {
                    assert(v@.subrange(start as int, i as int) =~= rest.take(i - start));
                    assert(rest.skip(i - start + 1) =~= v@.skip(i + 1));
                    let tail = space_fields(v@.skip(i + 1), (left - 1) as nat);
                    assert((done + seq![piece@]) + tail =~= done + (seq![piece@] + tail));
                }
                out.push(piece);
                assert(out.deep_view() =~= done + seq![out[out.len() - 1]@]);
                start = i + 1;
                left -= 1;
            },
            None => {
                let piece = string_of_range(&v, start, v.len());
                assert(v@.subrange(start as int, v.len() as int) =~= rest);
                out.push(piece);
                assert(out.deep_view() =~= done + seq![rest]);
                return out;
            },
        }
    }
    let ghost done = out.deep_view();
    let piece = string_of_range(&v, start, v.len());
    assert(v@.subrange(start as int, v.len() as int) =~= v@.skip(start as int));
    out.push(piece);
    assert(out.deep_view() =~= done + seq![v@.skip(start as int)]);
    out
}

/// Searching in what is left of `s` after `base` characters is searching
/// in `s` from there on.
proof fn lemma_first_match_skip(s: Seq<char>, pattern: Seq<char>, base: int, from: int)
    requires
        0 <= base <= from,
        base <= s.len(),
    ensures
        first_match(s.skip(base), pattern, from - base) == match first_match(s, pattern, from) {
            Some(i) => Some(i - base),
            None => None,
        },
    decreases s.len() - from,
{
    if from + pattern.len() <= s.len() {
        assert(s.skip(base).skip(from - base) =~= s.skip(from));
        if !pattern.is_prefix_of(s.skip(from)) {
            lemma_first_match_skip(s, pattern, base, from + 1);
        }
    }
}

/// `line` without a carriage return at its end.
pub open spec fn without_return(line: Seq<char>) -> Seq<char> {
    if line.len() > 0 && line.last() == '\r' {
        line.drop_last()
    } else {
        line
    }
}

/// The lines of `s` from position `from` on.
pub open spec fn lines_from(s: Seq<char>, from: int) -> Seq<Seq<char>>
    decreases s.len() - from,
{
    if from < 0 || from >= s.len() {
        Seq::empty()
    } else {
        match first_match(s, seq!['\n'], from) {
            Some(i) => if from <= i < s.len() {
                seq![without_return(s.subrange(from, i))] + lines_from(s, i + 1)
            } else {
                Seq::empty()
            },
            None => seq![s.skip(from)],
        }
    }
}

/// The lines of `s`: what stands between its line feeds, each without a
/// carriage return before the line feed. A line feed at the very end
/// opens no further line.
pub open spec fn text_lines(s: Seq<char>) -> Seq<Seq<char>> {
    lines_from(s, 0)
}

/// Cuts `s` into its lines.
pub fn split_lines(s: &str) -> (r: Vec<String>)
    ensures
        r.deep_view() == text_lines(s@),
{
    let v = chars_of(s);
    let mut out: Vec<String> = Vec::new();
    let mut feed: Vec<char> = Vec::new();
    feed.push('\n');
    assert(feed@ =~= seq!['\n']);
    let mut start: usize = 0;
    assert(out.deep_view() =~= Seq::<Seq<char>>::empty());
    assert(Seq::<Seq<char>>::empty() + text_lines(v@) =~= text_lines(v@));
    while start < v.len()
        invariant
            start <= v.len(),
            v@ == s@,
            feed@ == seq!['\n'],
            out.deep_view() + lines_from(v@, start as int) == text_lines(s@),
        decreases v.len() - start,
    {
        let ghost done = out.deep_view();
        match find_from(&v, &feed, start) {
            Some(i) => {
                let end = if i > start && v[i - 1] == '\r' {
                    i - 1
                } else {
                    i
                };
                let piece = string_of_range(&v, start, end);
                proof {
                    let line = v@.subrange(start as int, i as int);
                    if i > start {
                        assert(line.last() == v@[i - 1]);
                    }
                    assert(v@.subrange(start as int, end as int) =~= without_return(line));
                    let tail = lines_from(v@, i + 1);
                    assert((done + seq![piece@]) + tail =~= done + (seq![piece@] + tail));
                }
                out.push(piece);
                assert(out.deep_view() =~= done + seq![out[out.len() - 1]@]);
                start = i + 1;
            },
            None => {
                let piece = string_of_range(&v, start, v.len());
                assert(v@.subrange(start as int, v.len() as int) =~= v@.skip(start as int));
                out.push(piece);
                assert(out.deep_view() =~= done + seq![v@.skip(start as int)]);
                return out;
            },
        }
    }
    assert(out.deep_view() + Seq::<Seq<char>>::empty() =~= out.deep_view());
    out
}

/// Takes `pattern` from the start of `s` as often as it stands there.
pub fn trim_start_matches(s: &str, pattern: &str) -> (r: String)
    ensures
        r@ == strip_prefixes(s@, pattern@),
{
    let v = chars_of(s);
    let p = chars_of(pattern);
    let mut at: usize = 0;
    assert(v@.skip(0) =~= v@);
    if p.len() > 0 {
        while matches_at(&v, at, &p)
            invariant
                at <= v.len(),
                p.len() > 0,
                strip_prefixes(v@, p@) == strip_prefixes(v@.skip(at as int), p@),
            decreases v.len() - at,
        {
            assert(v@.skip(at as int).skip(p.len() as int) =~= v@.skip(at + p.len()));
            at += p.len();
        }
    }
    let r = string_of_range(&v, at, v.len());
    assert(v@.subrange(at as int, v.len() as int) =~= v@.skip(at as int));
    r
}

/// Takes `pattern` from both ends of `s` as often as it stands there.
pub fn trim_matches(s: &str, pattern: &str) -> (r: String)
    ensures
        r@ == strip_suffixes(strip_prefixes(s@, pattern@), pattern@),
{
    let front = trim_start_matches(s, pattern);
    let v = chars_of(front.as_str());
    let p = chars_of(pattern);
    let mut end: usize = v.len();
    assert(v@.take(end as int) =~= v@);
    if p.len() > 0 {
        while end >= p.len() && ends_here(&v, end, &p)
            invariant
                end <= v.len(),
                p.len() > 0,
                strip_suffixes(v@, p@) == strip_suffixes(v@.take(end as int), p@),
            decreases end,
        {
            assert(v@.take(end as int).take(end - p.len()) =~= v@.take(end - p.len()));
            end -= p.len();
        }
    }
    string_of_range(&v, 0, end)
}

/// Whether `v[..end]` ends with `pattern`.
fn ends_here(v: &Vec<char>, end: usize, pattern: &Vec<char>) -> (r: bool)
    requires
        pattern.len() <= end <= v.len(),
    ensures
        r == pattern@.is_suffix_of(v@.take(end as int)),
{
    let start = end - pattern.len();
    let mut k: usize = 0;
    while k < pattern.len()
        invariant
            start + pattern.len() == end,
            end <= v.len(),
            k <= pattern.len(),
            forall|j: int| 0 <= j < k ==> pattern@[j] == v@[start + j],
        decreases pattern.len() - k,
    {
        if pattern[k] != v[start + k] {
            assert(v@.take(end as int).skip(start as int)[k as int] == v@[start + k]);
            return false;
        }
        k += 1;
    }
    assert(pattern@ =~= v@.take(end as int).skip(start as int));
    true
}

/// Which characters of `v` are whitespace.
pub fn whitespace_marks(v: &Vec<char>) -> (r: Vec<bool>)
    ensures
        r@ == marks_of(v@),
{
    let mut marks: Vec<bool> = Vec::new();
    let mut i: usize = 0;
    while i < v.len()
        invariant
            i <= v.len(),
            marks@ == marks_of(v@).take(i as int),
        decreases v.len() - i,
    {
        marks.push(char_is_whitespace(v[i]));
        assert(marks@ =~= marks_of(v@).take(i + 1));
        i += 1;
    }
    assert(marks_of(v@).take(v.len() as int) =~= marks_of(v@));
    marks
}

/// `v` without the marked characters at its start and at its end.
pub fn trim_marked(v: &Vec<char>, marks: &Vec<bool>) -> (r: Vec<char>)
    requires
        marks.len() == v.len(),
    ensures
        r@ == trimmed(v@, marks@),
{
    let mut a: usize = 0;
    assert(marks@.skip(0) =~= marks@);
    while a < v.len() && marks[a]
        invariant
            a <= v.len(),
            marks.len() == v.len(),
            leading_marks(marks@) == a + leading_marks(marks@.skip(a as int)),
        decreases v.len() - a,
    {
        assert(marks@.skip(a as int).drop_first() =~= marks@.skip(a + 1));
        a += 1;
    }
    assert(leading_marks(marks@) == a);
    let mut b: usize = v.len();
    assert(marks@.take(b as int) =~= marks@);
    while b > a && marks[b - 1]
        invariant
            a <= b <= v.len(),
            marks.len() == v.len(),
            trailing_marks(marks@) == (v.len() - b) + trailing_marks(marks@.take(b as int)),
        decreases b,
    {
        assert(marks@.take(b as int).drop_last() =~= marks@.take(b - 1));
        b -= 1;
    }
    proof {
        if b > a {
            assert(marks@.take(b as int).last() == marks@[b - 1]);
            assert(trailing_marks(marks@) == v.len() - b);
        } else {
            lemma_trailing_marks_bound(marks@.take(b as int));
        }
    }
    let mut out: Vec<char> = Vec::new();
    let mut i: usize = a;
    while i < b
        invariant
            a <= i <= b <= v.len(),
            out@ == v@.subrange(a as int, i as int),
        decreases b - i,
    {
        out.push(v[i]);
        i += 1;
    }
    proof {
        if a + trailing_marks(marks@) >= v.len() {
            assert(out@ =~= Seq::<char>::empty());
        }
    }
    out
}

proof fn lemma_trailing_marks_bound(marks: Seq<bool>)
    ensures
        trailing_marks(marks) <= marks.len(),
    decreases marks.len(),
{
    if marks.len() > 0 && marks.last() {
        lemma_trailing_marks_bound(marks.drop_last());
    }
}

/// `v` without the whitespace at its start and at its end.
pub fn trim_chars(v: &Vec<char>) -> (r: Vec<char>)
    ensures
        r@ == trim(v@),
{
    let marks = whitespace_marks(v);
    trim_marked(v, &marks)
}

/// `s` without the whitespace at its start and at its end.
pub fn trim_str(s: &str) -> (r: String)
    ensures
        r@ == trim(s@),
{
    let v = chars_of(s);
    let t = trim_chars(&v);
    string_of(&t)
}

/// At most the first `n` characters of `s`.
pub open spec fn prefix(s: Seq<char>, n: nat) -> Seq<char> {
    if s.len() > n {
        s.take(n as int)
    } else {
        s
    }
}

/// The pieces that the marked characters cut `v` into, empty pieces left
/// out.
pub fn split_marked(v: &Vec<char>, marks: &Vec<bool>) -> (r: Vec<String>)
    requires
        marks.len() == v.len(),
    ensures
        r.deep_view() == pieces(v@, marks@),
{
    let mut out: Vec<String> = Vec::new();
    let mut word = String::new();
    let mut i: usize = 0;
    assert(out.deep_view() =~= Seq::<Seq<char>>::empty());
    while i < v.len()
        invariant
            i <= v.len(),
            marks.len() == v.len(),
            out.deep_view() + words_from(v@, marks@, i as int, word@) == pieces(v@, marks@),
        decreases v.len() - i,
    {
        let ghost done = out.deep_view();
        if marks[i] {
            let ghost rest = words_from(v@, marks@, i + 1, Seq::empty());
            if word.as_str().is_empty() {
                assert(word@ =~= Seq::<char>::empty());
                assert(Seq::<Seq<char>>::empty() + rest =~= rest);
            } else {
                let ghost w = word@;
                out.push(word);
                word = String::new();
                assert(out.deep_view() =~= done + seq![w]);
                assert((done + seq![w]) + rest =~= done + (seq![w] + rest));
            }
        } else {
            push_char(&mut word, v[i]);
        }
        i += 1;
    }
    let ghost done = out.deep_view();
    if word.as_str().is_empty() {
        assert(done + Seq::<Seq<char>>::empty() =~= done);
    } else {
        let ghost w = word@;
        out.push(word);
        assert(out.deep_view() =~= done + seq![w]);
    }
    out
}

/// The words of `s`.
pub fn split_words(s: &str) -> (r: Vec<String>)
    ensures
        r.deep_view() == words(s@),
{
    let v = chars_of(s);
    let marks = whitespace_marks(&v);
    split_marked(&v, &marks)
}

/// The first word of `s`, or the empty string when `s` has no word.
pub fn first_word_of(s: &str) -> (r: String)
    ensures
        r@ == first_word(s@),
{
    let all = split_words(s);
    if all.len() > 0 {
        assert(all.deep_view()[0] == all[0]@);
        all[0].clone()
    } else {
        String::new()
    }
}

/// The decimal digits of `n`, most significant first.
pub open spec fn decimal(n: nat) -> Seq<char>
    decreases n,
{
    if n < 10 {
        seq![digit_char(n as int)]
    } else {
        decimal(n / 10).push(digit_char((n % 10) as int))
    }
}

/// Writes `n` in decimal.
pub fn decimal_text(n: u128) -> (r: String)
    ensures
        r@ == decimal(n as nat),
{
    let mut digits: Vec<char> = Vec::new();
    let mut rest: u128 = n;
    while rest >= 10
        invariant
            decimal(n as nat) == decimal(rest as nat) + digits@,
        decreases rest,
    {
        let ghost before = digits@;
        digits.insert(0, digit_to_char((rest % 10) as usize));
        assert(decimal(rest as nat) + before =~= decimal((rest / 10) as nat) + digits@);
        rest = rest / 10;
    }
    digits.insert(0, digit_to_char(rest as usize));
    assert(decimal(rest as nat) =~= seq![digit_char(rest as int)]);
    string_of(&digits)
}

/// Writes `n` in decimal.
pub fn decimal_string(n: usize) -> (r: String)
    ensures
        r@ == decimal(n as nat),
{
    decimal_text(n as u128)
}

/// The decimal digits of `n`, behind a minus sign when `n` is negative.
pub open spec fn signed_decimal(n: int) -> Seq<char> {
    if n < 0 {
        "-"@ + decimal((-n) as nat)
    } else {
        decimal(n as nat)
    }
}

/// Writes `n` in decimal, with a minus sign when it is negative.
pub fn signed_decimal_text(n: i128) -> (r: String)
    ensures
        r@ == signed_decimal(n as int),
{
    if n < 0 {
        let magnitude: u128 = if n == i128::MIN {
            0x8000_0000_0000_0000_0000_0000_0000_0000u128
        } else {
            (-n) as u128
        };
        String::from_str("-").concat(decimal_text(magnitude).as_str())
    } else {
        decimal_text(n as u128)
    }
}

/// A decimal digit as a character.
pub open spec fn digit_char(d: int) -> char {
    if d == 0 { '0' } else if d == 1 { '1' } else if d == 2 { '2' } else if d == 3 { '3' }
    else if d == 4 { '4' } else if d == 5 { '5' } else if d == 6 { '6' } else if d == 7 { '7' }
    else if d == 8 { '8' } else { '9' }
}

fn digit_to_char(d: usize) -> (c: char)
    requires d < 10,
    ensures c == digit_char(d as int),
{
    if d == 0 { '0' } else if d == 1 { '1' } else if d == 2 { '2' } else if d == 3 { '3' }
    else if d == 4 { '4' } else if d == 5 { '5' } else if d == 6 { '6' } else if d == 7 { '7' }
    else if d == 8 { '8' } else { '9' }
}

} // verus!
