//! Fuzzy matching of a query against a row of text, and the row filter
//! built on it.

use vstd::prelude::*;
use vstd::string::*;
use crate::text::{chars_of, clone_rows, lowercase, to_lowercase};

verus! {

/// `idx` places every character of `needle` on an equal character of
/// `hay`, at strictly increasing positions.
pub open spec fn embeds(idx: Seq<int>, needle: Seq<char>, hay: Seq<char>) -> bool {
    &&& idx.len() == needle.len()
    &&& forall|i: int|
        0 <= i < idx.len() ==> 0 <= #[trigger] idx[i] < hay.len() && hay[idx[i]] == needle[i]
    &&& forall|i: int, j: int| 0 <= i < j < idx.len() ==> #[trigger] idx[i] < #[trigger] idx[j]
}

/// The characters of `needle` all appear in `hay`, in order, not
/// necessarily next to each other.
pub open spec fn is_subsequence(needle: Seq<char>, hay: Seq<char>) -> bool {
    exists|idx: Seq<int>| embeds(idx, needle, hay)
}

/// A row matches a query when the query is empty or the lowercase query is
/// a subsequence of the lowercase row.
pub open spec fn fuzzy_matches(haystack: Seq<char>, needle: Seq<char>) -> bool {
    needle.len() == 0 || is_subsequence(lowercase(needle), lowercase(haystack))
}

/// The empty query matches every row, and any other query matches the
/// rows that hold its characters in order, case ignored.
pub proof fn lemma_fuzzy_match(row: Seq<char>, query: Seq<char>)
    ensures
        fuzzy_matches(row, Seq::empty()),
        is_subsequence(lowercase(query), lowercase(row)) ==> fuzzy_matches(row, query),
        query.len() > 0 ==> (fuzzy_matches(row, query) <==> is_subsequence(
            lowercase(query),
            lowercase(row),
        )),
{
}

/// The empty sequence is a subsequence of every sequence.
pub proof fn lemma_empty_is_subsequence(hay: Seq<char>)
    ensures
        is_subsequence(Seq::<char>::empty(), hay),
{
    assert(embeds(Seq::<int>::empty(), Seq::<char>::empty(), hay));
}

/// Every sequence is a subsequence of itself.
pub proof fn lemma_subsequence_reflexive(s: Seq<char>)
    ensures
        is_subsequence(s, s),
{
    let idx = Seq::new(s.len(), |i: int| i);
    assert(embeds(idx, s, s));
}

/// A subsequence is never longer than the sequence that holds it.
pub proof fn lemma_subsequence_length(needle: Seq<char>, hay: Seq<char>)
    requires
        is_subsequence(needle, hay),
    ensures
        needle.len() <= hay.len(),
{
    let idx = choose|idx: Seq<int>| embeds(idx, needle, hay);
    lemma_increasing_lower_bound(idx, idx.len() as int);
    if idx.len() > 0 {
        assert(idx.len() - 1 <= idx[idx.len() - 1] < hay.len());
    }
}

proof fn lemma_increasing_lower_bound(idx: Seq<int>, n: int)
    requires
        0 <= n <= idx.len(),
        forall|i: int| 0 <= i < idx.len() ==> 0 <= #[trigger] idx[i],
        forall|i: int, j: int| 0 <= i < j < idx.len() ==> #[trigger] idx[i] < #[trigger] idx[j],
    ensures
        forall|i: int| 0 <= i < n ==> i <= #[trigger] idx[i],
    decreases n,
{
    if n > 0 {
        lemma_increasing_lower_bound(idx, n - 1);
        if n >= 2 {
            assert(idx[n - 2] < idx[n - 1]);
        }
    }
}

/// If a prefix of the needle cannot be found, neither can the needle.
proof fn lemma_prefix_of_subsequence(needle: Seq<char>, hay: Seq<char>, k: int)
    requires
        0 <= k <= needle.len(),
        is_subsequence(needle, hay),
    ensures
        is_subsequence(needle.take(k), hay),
{
    let idx = choose|idx: Seq<int>| embeds(idx, needle, hay);
    assert(embeds(idx.take(k), needle.take(k), hay));
}

proof fn lemma_scan_skip(needle: Seq<char>, hay: Seq<char>, k: int, i: int)
    requires
        0 <= k < needle.len(),
        0 <= i < hay.len(),
        !is_subsequence(needle.take(k + 1), hay.take(i)),
        hay[i] != needle[k],
    ensures
        !is_subsequence(needle.take(k + 1), hay.take(i + 1)),
{
    if is_subsequence(needle.take(k + 1), hay.take(i + 1)) {
        let (prefix, seen) = (needle.take(k + 1), hay.take(i + 1));
        let idx = choose|idx: Seq<int>| embeds(idx, prefix, seen);
        assert(hay.take(i + 1)[idx[k]] == needle.take(k + 1)[k]);
        assert(idx[k] < i);
        assert forall|j: int| 0 <= j < idx.len() implies #[trigger] idx[j] < i by {
            if j < k {
                assert(idx[j] < idx[k]);
            }
        }
        assert(embeds(idx, needle.take(k + 1), hay.take(i)));
    }
}

proof fn lemma_scan_take(needle: Seq<char>, hay: Seq<char>, k: int, i: int)
    requires
        0 <= k,
        k + 1 < needle.len(),
        0 <= i < hay.len(),
        !is_subsequence(needle.take(k + 1), hay.take(i)),
    ensures
        !is_subsequence(needle.take(k + 2), hay.take(i + 1)),
{
    if is_subsequence(needle.take(k + 2), hay.take(i + 1)) {
        let (prefix, seen) = (needle.take(k + 2), hay.take(i + 1));
        let idx = choose|idx: Seq<int>| embeds(idx, prefix, seen);
        let head = idx.take(k + 1);
        assert(idx[k] < idx[k + 1]);
        assert forall|j: int| 0 <= j < head.len() implies 0 <= #[trigger] head[j] < hay.take(
            i,
        ).len() && hay.take(i)[head[j]] == needle.take(k + 1)[j] by {
            assert(head[j] == idx[j]);
            if j < k {
                assert(idx[j] < idx[k]);
            }
            assert(hay.take(i + 1)[idx[j]] == needle.take(k + 2)[j]);
        }
        assert(embeds(head, needle.take(k + 1), hay.take(i)));
    }
}

/// Decides whether `needle` is a subsequence of `haystack`, in one pass
/// over `haystack`.
pub fn is_subsequence_of(needle: &str, haystack: &str) -> (r: bool)
    ensures
        r == is_subsequence(needle@, haystack@),
{
    let n = chars_of(needle);
    let h = chars_of(haystack);
    let mut k: usize = 0;
    let mut i: usize = 0;
    let ghost mut idx: Seq<int> = Seq::empty();
    proof {
        assert(embeds(idx, n@.take(0), h@.take(0)));
        if n.len() > 0 {
            if is_subsequence(n@.take(1), h@.take(0)) {
                let (prefix, seen) = (n@.take(1), h@.take(0));
                let w = choose|w: Seq<int>| embeds(w, prefix, seen);
                assert(w.len() == 1);
                assert(0 <= w[0] < seen.len());
            }
        }
    }
    while i < h.len() && k < n.len()
        invariant
            k <= n.len(),
            i <= h.len(),
            embeds(idx, n@.take(k as int), h@.take(i as int)),
            k < n.len() ==> !is_subsequence(n@.take(k + 1), h@.take(i as int)),
        decreases h.len() - i,
    {
        if h[i] == n[k] {
            proof {
                let next = idx.push(i as int);
                assert forall|j: int| 0 <= j < next.len() implies 0 <= #[trigger] next[j] < h@.take(
                    i + 1,
                ).len() && h@.take(i + 1)[next[j]] == n@.take(k + 1)[j] by {
                    if j < k {
                        assert(next[j] == idx[j]);
                        assert(h@.take(i as int)[idx[j]] == n@.take(k as int)[j]);
                    }
                }
                assert forall|a: int, b: int| 0 <= a < b < next.len() implies #[trigger] next[a]
                    < #[trigger] next[b] by {
                    assert(next[a] == idx[a]);
                    assert(idx[a] < h@.take(i as int).len());
                    if b < k {
                        assert(next[b] == idx[b]);
                    }
                }
                assert(embeds(next, n@.take(k + 1), h@.take(i + 1)));
                if k + 1 < n.len() {
                    lemma_scan_take(n@, h@, k as int, i as int);
                }
                idx = next;
            }
            k += 1;
        } else {
            proof {
                assert forall|j: int| 0 <= j < idx.len() implies 0 <= #[trigger] idx[j] < h@.take(
                    i + 1,
                ).len() && h@.take(i + 1)[idx[j]] == n@.take(k as int)[j] by {
                    assert(h@.take(i as int)[idx[j]] == n@.take(k as int)[j]);
                }
                assert(embeds(idx, n@.take(k as int), h@.take(i + 1)));
                lemma_scan_skip(n@, h@, k as int, i as int);
            }
        }
        i += 1;
    }
    proof {
        if k == n.len() {
            assert(n@.take(k as int) == n@);
            assert forall|j: int| 0 <= j < idx.len() implies 0 <= #[trigger] idx[j] < h@.len()
                && h@[idx[j]] == n@[j] by {
                assert(h@.take(i as int)[idx[j]] == n@.take(k as int)[j]);
            }
            assert(embeds(idx, n@, h@));
        } else {
            assert(h@.take(i as int) == h@);
            if is_subsequence(n@, h@) {
                lemma_prefix_of_subsequence(n@, h@, k + 1);
            }
        }
    }
    k == n.len()
}

/// The predicate that keeps the rows matching `query`.
pub open spec fn matcher(query: Seq<char>) -> spec_fn(Seq<char>) -> bool {
    |row: Seq<char>| fuzzy_matches(row, query)
}

/// The row at `i`, or the empty row when there is none.
pub open spec fn row_or_empty(rows: Seq<Seq<char>>, i: int) -> Seq<char> {
    if 0 <= i < rows.len() {
        rows[i]
    } else {
        Seq::empty()
    }
}

/// The data rows of a list: everything after the header and the separator.
pub open spec fn data_rows(rows: Seq<Seq<char>>) -> Seq<Seq<char>> {
    if rows.len() > 2 {
        rows.skip(2)
    } else {
        Seq::empty()
    }
}

/// The rows shown for a query. The empty query shows every row. Any other
/// query keeps the header and the separator as they are and, of the data
/// rows, those that match, in their order.
pub open spec fn filtered_rows(rows: Seq<Seq<char>>, query: Seq<char>) -> Seq<Seq<char>> {
    if query.len() == 0 {
        rows
    } else {
        seq![row_or_empty(rows, 0), row_or_empty(rows, 1)] + data_rows(rows).filter(matcher(query))
    }
}

/// Filters a list of rows by a query.
pub fn filter_rows(rows: &Vec<String>, query: &str) -> (r: Vec<String>)
    ensures
        r.deep_view() == filtered_rows(rows.deep_view(), query@),
{
    if query.is_empty() {
        return clone_rows(rows);
    }
    let ghost all = rows.deep_view();
    let ghost keep = matcher(query@);
    let mut out: Vec<String> = Vec::new();
    let header = if rows.len() > 0 { rows[0].clone() } else { String::new() };
    let separator = if rows.len() > 1 { rows[1].clone() } else { String::new() };
    out.push(header);
    out.push(separator);
    let ghost head = seq![row_or_empty(all, 0), row_or_empty(all, 1)];
    assert(out.deep_view() =~= head);
    if rows.len() <= 2 {
        proof {
            reveal(Seq::filter);
            assert(data_rows(all).filter(keep) =~= Seq::<Seq<char>>::empty());
            assert(head + Seq::<Seq<char>>::empty() =~= head);
        }
        return out;
    }
    let mut i: usize = 2;
    proof {
        reveal(Seq::filter);
        assert(data_rows(all).take(0).filter(keep) =~= Seq::<Seq<char>>::empty());
        assert(head + Seq::<Seq<char>>::empty() =~= head);
    }
    while i < rows.len()
        invariant
            2 <= i <= rows.len(),
            all == rows.deep_view(),
            keep == matcher(query@),
            head == seq![row_or_empty(all, 0), row_or_empty(all, 1)],
            out.deep_view() == head + data_rows(all).take(i - 2).filter(keep),
        decreases rows.len() - i,
    {
        let ghost before = out.deep_view();
        let ghost seen = data_rows(all).take(i - 2);
        let ghost row = rows[i as int]@;
        proof {
            assert(data_rows(all).take(i - 1) =~= seen.push(row));
            assert(seen.push(row).drop_last() =~= seen);
            reveal(Seq::filter);
        }
        if fuzzy_match(rows[i].as_str(), query) {
            out.push(rows[i].clone());
            assert(out.deep_view() =~= before.push(row));
            assert(before.push(row) =~= head + seen.filter(keep).push(row));
        }
        i += 1;
    }
    assert(data_rows(all).take(rows.len() - 2) =~= data_rows(all));
    out
}

/// Whether `haystack` matches the query `needle`: always for the empty
/// query, otherwise when the characters of the query appear in the row in
/// order, case ignored.
pub fn fuzzy_match(haystack: &str, needle: &str) -> (r: bool)
    ensures
        r == fuzzy_matches(haystack@, needle@),
        needle@.len() == 0 ==> r,
{
    if needle.is_empty() {
        return true;
    }
    let hay = to_lowercase(haystack);
    let query = to_lowercase(needle);
    is_subsequence_of(query.as_str(), hay.as_str())
}

} // verus!
