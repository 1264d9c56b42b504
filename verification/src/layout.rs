//! Column layout of the run list: which columns are shown, and how wide,
//! for a given terminal width.

use vstd::prelude::*;
use vstd::string::*;

verus! {

/// The cells that separate the five columns of a row.
pub const COLUMN_SPACING: usize = 4;

/// One column of the run list.
#[derive(Debug, Clone, Copy)]
pub struct ColumnConfig {
    /// The width the column would like to have.
    pub width: usize,
    /// The least width at which the column is shown.
    pub min_width: usize,
    /// The rank of the column: a lower number is kept first when space is
    /// short.
    pub priority: usize,
    pub name: &'static str,
}

/// The columns of the run list.
pub struct ColumnsConfig {
    pub run_id: ColumnConfig,
    pub pipeline: ColumnConfig,
    pub status: ColumnConfig,
    pub duration: ColumnConfig,
    pub start_time: ColumnConfig,
}

/// `c` placed into a list that is ordered by priority, behind every column
/// whose priority is not greater than its own.
pub open spec fn insert_by_priority(sorted: Seq<ColumnConfig>, c: ColumnConfig) -> Seq<
    ColumnConfig,
>
    decreases sorted.len(),
{
    if sorted.len() == 0 {
        seq![c]
    } else if sorted.last().priority <= c.priority {
        sorted.push(c)
    } else {
        insert_by_priority(sorted.drop_last(), c).push(sorted.last())
    }
}

/// The columns ordered by ascending priority; columns of equal priority
/// keep their order.
pub open spec fn by_priority(cols: Seq<ColumnConfig>) -> Seq<ColumnConfig>
    decreases cols.len(),
{
    if cols.len() == 0 {
        cols
    } else {
        insert_by_priority(by_priority(cols.drop_last()), cols.last())
    }
}

/// No column stands before one of lower priority number.
pub open spec fn ordered_by_priority(cols: Seq<ColumnConfig>) -> bool {
    forall|i: int, j: int| 0 <= i < j < cols.len() ==> cols[i].priority <= cols[j].priority
}

/// The sum of the minimum widths.
pub open spec fn min_total(cols: Seq<ColumnConfig>) -> int
    decreases cols.len(),
{
    if cols.len() == 0 {
        0
    } else {
        min_total(cols.drop_last()) + cols.last().min_width
    }
}

/// What a column lacks at its minimum width to reach its desired width.
pub open spec fn wanted(c: ColumnConfig) -> int {
    if c.min_width < c.width {
        c.width - c.min_width
    } else {
        0
    }
}

/// The sum of what the columns lack.
pub open spec fn wanted_total(cols: Seq<ColumnConfig>) -> int
    decreases cols.len(),
{
    if cols.len() == 0 {
        0
    } else {
        wanted_total(cols.drop_last()) + wanted(cols.last())
    }
}

/// The width of column `i` when the minimum widths do not all fit: its
/// minimum width if it fits together with every column before it, else
/// zero, which hides it.
pub open spec fn shrunk_width(cols: Seq<ColumnConfig>, i: int, available: int) -> int {
    if min_total(cols.take(i + 1)) <= available {
        cols[i].min_width as int
    } else {
        0
    }
}

/// The share of the surplus `extra` that column `i` receives on the way to
/// its desired width: the columns are served in order, each up to what it
/// lacks, while the surplus lasts.
pub open spec fn granted(cols: Seq<ColumnConfig>, i: int, extra: int) -> int {
    let left = extra - wanted_total(cols.take(i));
    if left <= 0 {
        0
    } else if left < wanted(cols[i]) {
        left
    } else {
        wanted(cols[i])
    }
}

/// The width of column `i` when the minimum widths leave a surplus `extra`:
/// its minimum width and its share; and, where every column has reached its
/// desired width and surplus is left, an equal part of the rest for every
/// column that is shown.
pub open spec fn grown_width(cols: Seq<ColumnConfig>, i: int, extra: int) -> int {
    let base = cols[i].min_width + granted(cols, i, extra);
    let rest = extra - wanted_total(cols);
    if rest > 0 && base > 0 {
        base + rest / (cols.len() as int)
    } else {
        base
    }
}

/// The widths of the columns `cols`, given in priority order, in
/// `available` cells.
pub open spec fn column_widths(cols: Seq<ColumnConfig>, available: int) -> Seq<int> {
    Seq::new(
        cols.len(),
        |i: int|
            if available <= min_total(cols) {
                shrunk_width(cols, i, available)
            } else {
                grown_width(cols, i, available - min_total(cols))
            },
    )
}

/// The cells left for the columns in a row of `available_width` cells.
pub open spec fn usable_width(available_width: u16) -> int {
    if available_width >= COLUMN_SPACING {
        available_width - COLUMN_SPACING
    } else {
        0
    }
}

proof fn lemma_min_total_step(cols: Seq<ColumnConfig>, i: int)
    requires
        0 <= i < cols.len(),
    ensures
        min_total(cols.take(i + 1)) == min_total(cols.take(i)) + cols[i].min_width,
{
    assert(cols.take(i + 1).drop_last() =~= cols.take(i));
}

proof fn lemma_min_total_monotone(cols: Seq<ColumnConfig>, i: int, j: int)
    requires
        0 <= i <= j <= cols.len(),
    ensures
        0 <= min_total(cols.take(i)) <= min_total(cols.take(j)),
    decreases j - i, i,
{
    if i < j {
        lemma_min_total_monotone(cols, i, j - 1);
        lemma_min_total_step(cols, j - 1);
    } else if i > 0 {
        lemma_min_total_monotone(cols, i - 1, i - 1);
        lemma_min_total_step(cols, i - 1);
    }
}

proof fn lemma_wanted_total_step(cols: Seq<ColumnConfig>, i: int)
    requires
        0 <= i < cols.len(),
    ensures
        wanted_total(cols.take(i + 1)) == wanted_total(cols.take(i)) + wanted(cols[i]),
{
    assert(cols.take(i + 1).drop_last() =~= cols.take(i));
}

proof fn lemma_wanted_total_monotone(cols: Seq<ColumnConfig>, i: int, j: int)
    requires
        0 <= i <= j <= cols.len(),
    ensures
        0 <= wanted_total(cols.take(i)) <= wanted_total(cols.take(j)),
    decreases j - i, i,
{
    if i < j {
        lemma_wanted_total_monotone(cols, i, j - 1);
        lemma_wanted_total_step(cols, j - 1);
    } else if i > 0 {
        lemma_wanted_total_monotone(cols, i - 1, i - 1);
        lemma_wanted_total_step(cols, i - 1);
    }
}

/// Inserting keeps a list ordered, adds the column and nothing else.
pub proof fn lemma_insert_by_priority(sorted: Seq<ColumnConfig>, c: ColumnConfig)
    requires
        ordered_by_priority(sorted),
    ensures
        ordered_by_priority(insert_by_priority(sorted, c)),
        insert_by_priority(sorted, c).len() == sorted.len() + 1,
        insert_by_priority(sorted, c).to_multiset() == sorted.to_multiset().insert(c),
        min_total(insert_by_priority(sorted, c)) == min_total(sorted) + c.min_width,
        forall|x: ColumnConfig|
            #[trigger] insert_by_priority(sorted, c).contains(x) <==> (x == c || sorted.contains(
                x,
            )),
    decreases sorted.len(),
{
    let out = insert_by_priority(sorted, c);
    broadcast use vstd::seq_lib::group_to_multiset_ensures;

    if sorted.len() == 0 {
        assert(sorted =~= Seq::<ColumnConfig>::empty());
        assert(out =~= Seq::<ColumnConfig>::empty().push(c));
        assert(out.drop_last() =~= sorted);
        assert(out[0] == c);
        assert forall|x: ColumnConfig| out.contains(x) <==> (x == c || sorted.contains(x)) by {
            if out.contains(x) {
                let k = choose|k: int| 0 <= k < out.len() && out[k] == x;
                assert(x == c);
            }
        }
    } else if sorted.last().priority <= c.priority {
        assert(out.drop_last() =~= sorted);
        assert forall|i: int, j: int| 0 <= i < j < out.len() implies out[i].priority
            <= out[j].priority by {
            if j == sorted.len() {
                if i < sorted.len() - 1 {
                    assert(sorted[i].priority <= sorted[sorted.len() - 1].priority);
                }
            }
        }
        assert forall|x: ColumnConfig| out.contains(x) <==> (x == c || sorted.contains(x)) by {
            if out.contains(x) {
                let k = choose|k: int| 0 <= k < out.len() && out[k] == x;
                if k < sorted.len() {
                    assert(sorted[k] == x);
                }
            }
            if sorted.contains(x) {
                let k = choose|k: int| 0 <= k < sorted.len() && sorted[k] == x;
                assert(out[k] == x);
            }
            if x == c {
                assert(out[sorted.len() as int] == x);
            }
        }
    } else {
        let front = sorted.drop_last();
        let inner = insert_by_priority(front, c);
        assert(ordered_by_priority(front));
        lemma_insert_by_priority(front, c);
        assert(out.drop_last() =~= inner);
        assert(front.push(sorted.last()) =~= sorted);
        assert forall|k: int| 0 <= k < inner.len() implies (#[trigger] inner[k]).priority
            <= sorted.last().priority by {
            assert(inner.contains(inner[k]));
            if inner[k] != c {
                assert(front.contains(inner[k]));
                let m = choose|m: int| 0 <= m < front.len() && front[m] == inner[k];
                assert(sorted[m].priority <= sorted[sorted.len() - 1].priority);
            }
        }
        assert forall|i: int, j: int| 0 <= i < j < out.len() implies out[i].priority
            <= out[j].priority by {
            if j < inner.len() {
                assert(inner[i].priority <= inner[j].priority);
            } else {
                assert(out[i] == inner[i]);
            }
        }
        assert(out.to_multiset() =~= sorted.to_multiset().insert(c));
        assert forall|x: ColumnConfig| out.contains(x) <==> (x == c || sorted.contains(x)) by {
            if out.contains(x) {
                let k = choose|k: int| 0 <= k < out.len() && out[k] == x;
                if k < inner.len() {
                    assert(inner[k] == x);
                    assert(inner.contains(x));
                    if x != c {
                        assert(front.contains(x));
                        let m = choose|m: int| 0 <= m < front.len() && front[m] == x;
                        assert(sorted[m] == x);
                    }
                } else {
                    assert(sorted[sorted.len() - 1] == x);
                }
            }
            if sorted.contains(x) {
                let k = choose|k: int| 0 <= k < sorted.len() && sorted[k] == x;
                if k < front.len() {
                    assert(front[k] == x);
                    assert(front.contains(x));
                    assert(inner.contains(x));
                    let m = choose|m: int| 0 <= m < inner.len() && inner[m] == x;
                    assert(out[m] == x);
                } else {
                    assert(out[inner.len() as int] == x);
                }
            }
            if x == c {
                assert(inner.contains(c));
                let m = choose|m: int| 0 <= m < inner.len() && inner[m] == c;
                assert(out[m] == x);
            }
        }
    }
}

/// Ordering by priority gives an ordered list that holds the same columns,
/// each as often as before.
pub proof fn lemma_by_priority(cols: Seq<ColumnConfig>)
    ensures
        ordered_by_priority(by_priority(cols)),
        by_priority(cols).len() == cols.len(),
        by_priority(cols).to_multiset() == cols.to_multiset(),
        min_total(by_priority(cols)) == min_total(cols),
        forall|x: ColumnConfig| #[trigger] by_priority(cols).contains(x) <==> cols.contains(x),
    decreases cols.len(),
{
    broadcast use vstd::seq_lib::group_to_multiset_ensures;

    if cols.len() > 0 {
        let front = cols.drop_last();
        lemma_by_priority(front);
        lemma_insert_by_priority(by_priority(front), cols.last());
        assert(front.push(cols.last()) =~= cols);
        assert forall|x: ColumnConfig| by_priority(cols).contains(x) <==> cols.contains(x) by {
            if cols.contains(x) {
                let k = choose|k: int| 0 <= k < cols.len() && cols[k] == x;
                if k < front.len() {
                    assert(front[k] == x);
                    assert(front.contains(x));
                }
            }
            if front.contains(x) {
                let k = choose|k: int| 0 <= k < front.len() && front[k] == x;
                assert(cols[k] == x);
            }
            assert(cols[cols.len() - 1] == cols.last());
        }
    }
}

/// The layout at its boundary. In a row that is exactly as wide as the
/// minimum widths and the spacing together, every column has its minimum
/// width. In a row one cell narrower, the column of lowest priority is
/// hidden and every other column keeps its minimum width, provided the
/// hidden column's minimum width is not zero.
pub proof fn lemma_layout_boundary(config: ColumnsConfig, available_width: u16)
    requires
        available_width == min_total(config.columns()) + COLUMN_SPACING,
    ensures
        config.prioritized().len() == 5,
        forall|i: int|
            0 <= i < 5 ==> (#[trigger] config.prioritized()[i]).priority
                <= config.prioritized()[4].priority,
        forall|i: int|
            0 <= i < 5 ==> #[trigger] column_widths(
                config.prioritized(),
                usable_width(available_width),
            )[i] == config.prioritized()[i].min_width,
        config.prioritized()[4].min_width > 0 ==> forall|i: int|
            0 <= i < 5 ==> #[trigger] column_widths(
                config.prioritized(),
                usable_width((available_width - 1) as u16),
            )[i] == if i == 4 {
                0
            } else {
                config.prioritized()[i].min_width as int
            },
{
    let cols = config.prioritized();
    lemma_by_priority(config.columns());
    assert(cols.take(5) =~= cols);
    lemma_min_total_monotone(cols, 0, 5);
    let exact = usable_width(available_width);
    assert(exact == min_total(cols));
    assert forall|i: int| 0 <= i < 5 implies #[trigger] column_widths(cols, exact)[i]
        == cols[i].min_width by {
        lemma_min_total_monotone(cols, i + 1, 5);
    }
    assert forall|i: int| 0 <= i < 5 implies (#[trigger] cols[i]).priority
        <= cols[4].priority by {}
    if cols[4].min_width > 0 {
        lemma_min_total_step(cols, 4);
        lemma_min_total_monotone(cols, 4, 4);
        let short = usable_width((available_width - 1) as u16);
        assert(short == min_total(cols) - 1);
        assert forall|i: int| 0 <= i < 5 implies #[trigger] column_widths(cols, short)[i] == if i
            == 4 {
            0
        } else {
            cols[i].min_width as int
        } by {
            if i < 4 {
                lemma_min_total_monotone(cols, i + 1, 4);
            }
        }
    }
}

/// Where the minimum widths do not all fit, the columns that are hidden
/// are the last in priority order: behind a column that is hidden, none
/// is shown.
pub proof fn lemma_hidden_columns_are_the_last(
    cols: Seq<ColumnConfig>,
    available: int,
    hidden: int,
    later: int,
)
    requires
        available <= min_total(cols),
        0 <= hidden <= later < cols.len(),
        cols[hidden].min_width > 0,
        column_widths(cols, available)[hidden] == 0,
    ensures
        column_widths(cols, available)[later] == 0,
{
    lemma_min_total_monotone(cols, hidden + 1, later + 1);
}

/// Where the minimum widths fit, no column is narrower than its minimum
/// width, and a column is narrower than its desired width only if no
/// column behind it got any of the surplus.
pub proof fn lemma_surplus_goes_by_priority(
    cols: Seq<ColumnConfig>,
    available: int,
    needy: int,
    later: int,
)
    requires
        available > min_total(cols),
        0 <= needy < later < cols.len(),
        column_widths(cols, available)[needy] < cols[needy].width,
    ensures
        column_widths(cols, available)[needy] >= cols[needy].min_width,
        column_widths(cols, available)[later] == cols[later].min_width,
{
    let extra = available - min_total(cols);
    lemma_wanted_total_step(cols, needy);
    lemma_wanted_total_monotone(cols, needy + 1, later);
    lemma_wanted_total_monotone(cols, later, cols.len() as int);
    lemma_wanted_total_monotone(cols, needy, needy);
    assert(cols.take(cols.len() as int) =~= cols);
}

/// Orders columns by ascending priority, keeping the order of equals.
pub fn sort_by_priority(cols: &Vec<&ColumnConfig>) -> (r: Vec<ColumnConfig>)
    ensures
        r@ == by_priority(cols@.map_values(|c: &ColumnConfig| *c)),
{
    let ghost input = cols@.map_values(|c: &ColumnConfig| *c);
    let mut out: Vec<ColumnConfig> = Vec::new();
    let mut i: usize = 0;
    assert(input.take(0) =~= Seq::<ColumnConfig>::empty());
    while i < cols.len()
        invariant
            i <= cols.len(),
            input == cols@.map_values(|c: &ColumnConfig| *c),
            out@ == by_priority(input.take(i as int)),
        decreases cols.len() - i,
    {
        let c: ColumnConfig = *cols[i];
        let ghost sorted = out@;
        let mut p: usize = out.len();
        assert(sorted.take(p as int) =~= sorted);
        assert(sorted.skip(p as int) =~= Seq::<ColumnConfig>::empty());
        assert(insert_by_priority(sorted, c) + Seq::<ColumnConfig>::empty() =~= insert_by_priority(
            sorted,
            c,
        ));
        while p > 0 && out[p - 1].priority > c.priority
            invariant
                p <= out.len(),
                out@ == sorted,
                insert_by_priority(sorted, c) == insert_by_priority(sorted.take(p as int), c)
                    + sorted.skip(p as int),
            decreases p,
        {
            proof {
                let head = sorted.take(p as int);
                assert(head.last() == sorted[p - 1]);
                assert(head.drop_last() =~= sorted.take(p - 1));
                assert(insert_by_priority(sorted.take(p - 1), c).push(sorted[p - 1]) + sorted.skip(
                    p as int,
                ) =~= insert_by_priority(sorted.take(p - 1), c) + sorted.skip(p - 1));
            }
            p -= 1;
        }
        proof {
            let head = sorted.take(p as int);
            if p > 0 {
                assert(head.last() == sorted[p - 1]);
            }
            assert(insert_by_priority(head, c) =~= head.push(c));
            assert(head.push(c) + sorted.skip(p as int) =~= sorted.insert(p as int, c));
            assert(input.take(i + 1).drop_last() =~= input.take(i as int));
            assert(input.take(i + 1).last() == c);
        }
        out.insert(p, c);
        i += 1;
    }
    assert(input.take(cols.len() as int) =~= input);
    out
}

/// The place `i` put into a list of places that is ordered by the
/// priority of the columns at those places, behind every place whose
/// column has a priority that is not greater than that of column `i`.
pub open spec fn insert_place(cols: Seq<ColumnConfig>, places: Seq<int>, i: int) -> Seq<int>
    decreases places.len(),
{
    if places.len() == 0 {
        seq![i]
    } else if cols[places.last()].priority <= cols[i].priority {
        places.push(i)
    } else {
        insert_place(cols, places.drop_last(), i).push(places.last())
    }
}

/// The places of the first `n` columns, in the order of their priority;
/// columns of equal priority keep their order.
pub open spec fn places_by_priority(cols: Seq<ColumnConfig>, n: nat) -> Seq<int>
    decreases n,
{
    if n == 0 {
        Seq::empty()
    } else {
        insert_place(cols, places_by_priority(cols, (n - 1) as nat), n - 1)
    }
}

/// The places of the columns in priority order: the place in `cols` of the
/// column that comes first by priority, then of the one that comes second,
/// and so on.
pub open spec fn priority_order(cols: Seq<ColumnConfig>) -> Seq<int> {
    places_by_priority(cols, cols.len())
}

/// The columns at the places `places`.
pub open spec fn columns_at(cols: Seq<ColumnConfig>, places: Seq<int>) -> Seq<ColumnConfig> {
    Seq::new(places.len(), |k: int| cols[places[k]])
}

/// Where the place `i` stands in `places`.
pub open spec fn place_of(places: Seq<int>, i: int) -> int {
    choose|k: int| 0 <= k < places.len() && places[k] == i
}

/// The places are places of the first `n` columns, each of them once.
pub open spec fn is_arrangement(places: Seq<int>, n: int) -> bool {
    &&& places.len() == n
    &&& forall|k: int| 0 <= k < places.len() ==> 0 <= #[trigger] places[k] < n
    &&& forall|j: int, k: int|
        0 <= j < k < places.len() ==> #[trigger] places[j] != #[trigger] places[k]
    &&& forall|i: int| 0 <= i < n ==> #[trigger] places.contains(i)
}

/// The width of each column in the order in which a row lists the
/// columns: the width that the layout gives the column at its place in
/// priority order.
pub open spec fn display_widths(cols: Seq<ColumnConfig>, available: int) -> Seq<int> {
    Seq::new(
        cols.len(),
        |i: int| column_widths(by_priority(cols), available)[place_of(priority_order(cols), i)],
    )
}

proof fn lemma_insert_place(cols: Seq<ColumnConfig>, places: Seq<int>, i: int)
    requires
        0 <= i < cols.len(),
        forall|k: int| 0 <= k < places.len() ==> 0 <= #[trigger] places[k] < i,
        forall|j: int, k: int|
            0 <= j < k < places.len() ==> #[trigger] places[j] != #[trigger] places[k],
    ensures
        insert_place(cols, places, i).len() == places.len() + 1,
        forall|k: int|
            0 <= k < insert_place(cols, places, i).len() ==> 0 <= #[trigger] insert_place(
                cols,
                places,
                i,
            )[k] <= i,
        forall|j: int, k: int|
            0 <= j < k < insert_place(cols, places, i).len() ==> #[trigger] insert_place(
                cols,
                places,
                i,
            )[j] != #[trigger] insert_place(cols, places, i)[k],
        forall|x: int|
            #[trigger] insert_place(cols, places, i).contains(x) <==> (x == i || places.contains(
                x,
            )),
        columns_at(cols, insert_place(cols, places, i)) == insert_by_priority(
            columns_at(cols, places),
            cols[i],
        ),
    decreases places.len(),
{
    let out = insert_place(cols, places, i);
    let sorted = columns_at(cols, places);
    if places.len() == 0 {
        assert(out[0] == i);
        assert forall|x: int| #[trigger] out.contains(x) <==> (x == i || places.contains(x)) by {
            if out.contains(x) {
                let k = choose|k: int| 0 <= k < out.len() && out[k] == x;
            }
        }
        assert(columns_at(cols, out) =~= insert_by_priority(sorted, cols[i]));
    } else if cols[places.last()].priority <= cols[i].priority {
        assert(sorted.last() == cols[places.last()]);
        assert forall|x: int| #[trigger] out.contains(x) <==> (x == i || places.contains(x)) by {
            if out.contains(x) {
                let k = choose|k: int| 0 <= k < out.len() && out[k] == x;
                if k < places.len() {
                    assert(places[k] == x);
                }
            }
            if places.contains(x) {
                let k = choose|k: int| 0 <= k < places.len() && places[k] == x;
                assert(out[k] == x);
            }
            if x == i {
                assert(out[places.len() as int] == x);
            }
        }
        assert forall|j: int, k: int| 0 <= j < k < out.len() implies #[trigger] out[j]
            != #[trigger] out[k] by {
            if k < places.len() {
                assert(places[j] != places[k]);
            } else {
                assert(places[j] < i);
            }
        }
        assert(columns_at(cols, out) =~= insert_by_priority(sorted, cols[i]));
    } else {
        let front = places.drop_last();
        let inner = insert_place(cols, front, i);
        assert forall|k: int| 0 <= k < front.len() implies 0 <= #[trigger] front[k] < i by {
            assert(front[k] == places[k]);
        }
        assert forall|j: int, k: int| 0 <= j < k < front.len() implies #[trigger] front[j]
            != #[trigger] front[k] by {
            assert(places[j] != places[k]);
        }
        lemma_insert_place(cols, front, i);
        assert(sorted.last() == cols[places.last()]);
        assert(sorted.drop_last() =~= columns_at(cols, front));
        assert(columns_at(cols, out) =~= columns_at(cols, inner).push(cols[places.last()]));
        assert forall|k: int| 0 <= k < out.len() implies 0 <= #[trigger] out[k] <= i by {
            if k < inner.len() {
                assert(out[k] == inner[k]);
            } else {
                assert(out[k] == places[places.len() - 1]);
            }
        }
        assert forall|x: int| #[trigger] out.contains(x) <==> (x == i || places.contains(x)) by {
            if out.contains(x) {
                let k = choose|k: int| 0 <= k < out.len() && out[k] == x;
                if k < inner.len() {
                    assert(inner[k] == x);
                    assert(inner.contains(x));
                    if x != i {
                        assert(front.contains(x));
                        let m = choose|m: int| 0 <= m < front.len() && front[m] == x;
                        assert(places[m] == x);
                    }
                } else {
                    assert(places[places.len() - 1] == x);
                }
            }
            if places.contains(x) {
                let k = choose|k: int| 0 <= k < places.len() && places[k] == x;
                if k < front.len() {
                    assert(front[k] == x);
                    assert(front.contains(x));
                    assert(inner.contains(x));
                    let m = choose|m: int| 0 <= m < inner.len() && inner[m] == x;
                    assert(out[m] == x);
                } else {
                    assert(out[inner.len() as int] == x);
                }
            }
            if x == i {
                assert(inner.contains(i));
                let m = choose|m: int| 0 <= m < inner.len() && inner[m] == i;
                assert(out[m] == x);
            }
        }
        assert forall|j: int, k: int| 0 <= j < k < out.len() implies #[trigger] out[j]
            != #[trigger] out[k] by {
            if k < inner.len() {
                assert(inner[j] != inner[k]);
            } else {
                assert(out[j] == inner[j]);
                assert(inner.contains(inner[j]));
                if inner[j] != i {
                    assert(front.contains(inner[j]));
                    let m = choose|m: int| 0 <= m < front.len() && front[m] == inner[j];
                    assert(places[m] != places[places.len() - 1]);
                } else {
                    assert(places[places.len() - 1] < i);
                }
            }
        }
    }
}

proof fn lemma_places_by_priority(cols: Seq<ColumnConfig>, n: nat)
    requires
        n <= cols.len(),
    ensures
        is_arrangement(places_by_priority(cols, n), n as int),
        columns_at(cols, places_by_priority(cols, n)) == by_priority(cols.take(n as int)),
    decreases n,
{
    let places = places_by_priority(cols, n);
    if n == 0 {
        assert(columns_at(cols, places) =~= by_priority(cols.take(0)));
    } else {
        let before = places_by_priority(cols, (n - 1) as nat);
        lemma_places_by_priority(cols, (n - 1) as nat);
        lemma_insert_place(cols, before, n - 1);
        assert(cols.take(n as int).drop_last() =~= cols.take(n - 1));
        assert(cols.take(n as int).last() == cols[n - 1]);
        assert forall|i: int| 0 <= i < n implies #[trigger] places.contains(i) by {
            if i < n - 1 {
                assert(before.contains(i));
            }
        }
        assert forall|k: int| 0 <= k < places.len() implies 0 <= #[trigger] places[k] < n by {
            assert(places[k] <= n - 1);
        }
    }
}

/// The priority order arranges the columns: it names every place once,
/// the column at its `k`-th place is the `k`-th column by priority, and so
/// every column is found again, at the place that the order gives it.
pub proof fn lemma_priority_order(cols: Seq<ColumnConfig>)
    ensures
        is_arrangement(priority_order(cols), cols.len() as int),
        columns_at(cols, priority_order(cols)) == by_priority(cols),
        forall|i: int|
            0 <= i < cols.len() ==> {
                &&& 0 <= #[trigger] place_of(priority_order(cols), i) < cols.len()
                &&& priority_order(cols)[place_of(priority_order(cols), i)] == i
                &&& by_priority(cols)[place_of(priority_order(cols), i)] == cols[i]
            },
{
    let places = priority_order(cols);
    lemma_places_by_priority(cols, cols.len());
    assert(cols.take(cols.len() as int) =~= cols);
    assert forall|i: int| 0 <= i < cols.len() implies {
        &&& 0 <= #[trigger] place_of(places, i) < cols.len()
        &&& places[place_of(places, i)] == i
        &&& by_priority(cols)[place_of(places, i)] == cols[i]
    } by {
        assert(places.contains(i));
        let k = place_of(places, i);
        assert(columns_at(cols, places)[k] == cols[places[k]]);
    }
}

/// A column is hidden in a row exactly if the layout hides it, and is as
/// wide in a row as the layout makes it: the widths in the order of the
/// row are the widths in priority order, each at the place of its column.
pub proof fn lemma_display_widths(cols: Seq<ColumnConfig>, available: int, k: int)
    requires
        0 <= k < cols.len(),
    ensures
        0 <= priority_order(cols)[k] < cols.len(),
        by_priority(cols)[k] == cols[priority_order(cols)[k]],
        display_widths(cols, available)[priority_order(cols)[k]] == column_widths(
            by_priority(cols),
            available,
        )[k],
{
    let places = priority_order(cols);
    lemma_priority_order(cols);
    let i = places[k];
    let found = place_of(places, i);
    assert(columns_at(cols, places)[k] == cols[places[k]]);
    if found < k {
        assert(places[found] != places[k]);
    } else if k < found {
        assert(places[k] != places[found]);
    }
}

/// The places of columns in priority order.
pub fn priority_places(cols: &Vec<&ColumnConfig>) -> (r: Vec<usize>)
    ensures
        r@.map_values(|k: usize| k as int) == priority_order(
            cols@.map_values(|c: &ColumnConfig| *c),
        ),
{
    let ghost input = cols@.map_values(|c: &ColumnConfig| *c);
    let mut out: Vec<usize> = Vec::new();
    let mut i: usize = 0;
    assert(out@.map_values(|k: usize| k as int) =~= places_by_priority(input, 0));
    while i < cols.len()
        invariant
            i <= cols.len(),
            input == cols@.map_values(|c: &ColumnConfig| *c),
            out@.map_values(|k: usize| k as int) == places_by_priority(input, i as nat),
        decreases cols.len() - i,
    {
        let ghost places = out@.map_values(|k: usize| k as int);
        proof {
            lemma_places_by_priority(input, i as nat);
            assert forall|k: int| 0 <= k < out@.len() implies out@[k] < i by {
                assert(places[k] == out@[k] as int);
            }
        }
        let priority = cols[i].priority;
        let mut p: usize = out.len();
        assert(places.take(p as int) =~= places);
        assert(places.skip(p as int) =~= Seq::<int>::empty());
        assert(insert_place(input, places, i as int) + Seq::<int>::empty() =~= insert_place(
            input,
            places,
            i as int,
        ));
        while p > 0 && cols[out[p - 1]].priority > priority
            invariant
                p <= out.len(),
                i < cols.len(),
                input == cols@.map_values(|c: &ColumnConfig| *c),
                priority == input[i as int].priority,
                places == out@.map_values(|k: usize| k as int),
                forall|k: int| 0 <= k < out@.len() ==> out@[k] < i,
                insert_place(input, places, i as int) == insert_place(
                    input,
                    places.take(p as int),
                    i as int,
                ) + places.skip(p as int),
            decreases p,
        {
            proof {
                let head = places.take(p as int);
                assert(head.last() == places[p - 1]);
                assert(places[p - 1] == out@[p - 1] as int);
                assert(input[places[p - 1]] == *cols@[out@[p - 1] as int]);
                assert(head.drop_last() =~= places.take(p - 1));
                assert(insert_place(input, places.take(p - 1), i as int).push(places[p - 1])
                    + places.skip(p as int) =~= insert_place(
                    input,
                    places.take(p - 1),
                    i as int,
                ) + places.skip(p - 1));
            }
            p -= 1;
        }
        proof {
            let head = places.take(p as int);
            if p > 0 {
                assert(head.last() == places[p - 1]);
                assert(places[p - 1] == out@[p - 1] as int);
                assert(input[places[p - 1]] == *cols@[out@[p - 1] as int]);
            }
            assert(insert_place(input, head, i as int) =~= head.push(i as int));
            assert(head.push(i as int) + places.skip(p as int) =~= places.insert(
                p as int,
                i as int,
            ));
        }
        out.insert(p, i);
        assert(out@.map_values(|k: usize| k as int) =~= places.insert(p as int, i as int));
        i += 1;
    }
    out
}

impl ColumnsConfig {
    /// The five columns in the order in which a row lists them.
    pub open spec fn columns(&self) -> Seq<ColumnConfig> {
        seq![self.run_id, self.pipeline, self.status, self.duration, self.start_time]
    }

    /// The five columns in priority order.
    pub open spec fn prioritized(&self) -> Seq<ColumnConfig> {
        by_priority(self.columns())
    }

    /// The widths are small enough for every sum that the layout forms to
    /// fit in a machine word.
    pub open spec fn fits(&self) -> bool {
        &&& min_total(self.columns()) <= usize::MAX
        &&& forall|i: int|
            0 <= i < self.columns().len() ==> (#[trigger] self.columns()[i]).min_width + wanted(
                self.columns()[i],
            ) + u16::MAX <= usize::MAX
    }

    /// The columns of the run list with their standard widths.
    pub fn new() -> (r: Self)
        ensures
            r.run_id.width == 36 && r.run_id.min_width == 36 && r.run_id.priority == 1,
            r.pipeline.width == 30 && r.pipeline.min_width == 10 && r.pipeline.priority == 2,
            r.duration.width == 15 && r.duration.min_width == 8 && r.duration.priority == 3,
            r.status.width == 15 && r.status.min_width == 7 && r.status.priority == 4,
            r.start_time.width == 25 && r.start_time.min_width == 12 && r.start_time.priority == 5,
            r.run_id.name@ == "RUN ID"@,
            r.pipeline.name@ == "PIPELINE"@,
            r.duration.name@ == "DURATION"@,
            r.status.name@ == "STATUS"@,
            r.start_time.name@ == "START TIME"@,
            r.fits(),
    {
        proof {
            reveal_with_fuel(min_total, 6);
        }
        Self {
            run_id: ColumnConfig { width: 36, min_width: 36, priority: 1, name: "RUN ID" },
            pipeline: ColumnConfig { width: 30, min_width: 10, priority: 2, name: "PIPELINE" },
            duration: ColumnConfig { width: 15, min_width: 8, priority: 3, name: "DURATION" },
            status: ColumnConfig { width: 15, min_width: 7, priority: 4, name: "STATUS" },
            start_time: ColumnConfig { width: 25, min_width: 12, priority: 5, name: "START TIME" },
        }
    }

    /// The widths of the columns, in priority order, for a row of
    /// `available_width` cells. A width of zero hides the column.
    ///
    /// When the minimum widths do not fit beside the spacing, columns are
    /// hidden from the lowest priority upwards until the rest fits. When
    /// they fit, the surplus goes to the columns in priority order, each up
    /// to its desired width, and what is left after that is shared out.
    pub fn calculate_widths(&self, available_width: u16) -> (r: Vec<usize>)
        requires
            self.fits(),
        ensures
            r@.len() == 5,
            forall|i: int|
                0 <= i < 5 ==> #[trigger] r@[i] == column_widths(
                    self.prioritized(),
                    usable_width(available_width),
                )[i],
    {
        let available: usize = if available_width as usize >= COLUMN_SPACING {
            available_width as usize - COLUMN_SPACING
        } else {
            0
        };
        let ordered = self.get_ordered_columns();
        let columns = sort_by_priority(&ordered);
        let ghost cols = columns@;
        proof {
            lemma_by_priority(self.columns());
            assert forall|i: int| 0 <= i < cols.len() implies (#[trigger] cols[i]).min_width
                + wanted(cols[i]) + u16::MAX <= usize::MAX by {
                assert(cols.contains(cols[i]));
                assert(self.columns().contains(cols[i]));
                let k = choose|k: int|
                    0 <= k < self.columns().len() && self.columns()[k] == cols[i];
                assert(self.columns()[k].min_width + wanted(self.columns()[k]) + u16::MAX
                    <= usize::MAX);
            }
        }
        let n = columns.len();
        let mut widths: Vec<usize> = Vec::new();
        let mut total: usize = 0;
        let mut i: usize = 0;
        assert(cols.take(n as int) =~= cols);
        while i < n
            invariant
                n == cols.len(),
                cols == columns@,
                i <= n,
                widths@.len() == i,
                forall|k: int| 0 <= k < i ==> widths@[k] == cols[k].min_width,
                total == min_total(cols.take(i as int)),
                min_total(cols.take(n as int)) <= usize::MAX,
            decreases n - i,
        {
            proof {
                lemma_min_total_step(cols, i as int);
                lemma_min_total_monotone(cols, i + 1, n as int);
            }
            widths.push(columns[i].min_width);
            total = total + columns[i].min_width;
            i += 1;
        }
        if available <= total {
            let mut j: usize = n;
            let mut current: usize = total;
            while j > 0 && current > available
                invariant
                    j <= n,
                    n == cols.len(),
                    widths@.len() == n,
                    cols == columns@,
                    current == min_total(cols.take(j as int)),
                    forall|k: int| 0 <= k < j ==> widths@[k] == cols[k].min_width,
                    forall|k: int| j <= k < n ==> widths@[k] == 0,
                    j < n ==> min_total(cols.take(j + 1)) > available,
                decreases j,
            {
                j -= 1;
                proof {
                    lemma_min_total_step(cols, j as int);
                    lemma_min_total_monotone(cols, j as int, j as int);
                }
                current = current - widths[j];
                widths[j] = 0;
            }
            proof {
                let target = column_widths(cols, available as int);
                assert forall|k: int| 0 <= k < n implies widths@[k] as int == target[k] by {
                    if k < j {
                        lemma_min_total_monotone(cols, k + 1, j as int);
                    } else {
                        lemma_min_total_monotone(cols, j + 1, k + 1);
                    }
                }
            }
        } else {
            let extra: usize = available - total;
            let mut remaining: usize = extra;
            let mut i: usize = 0;
            assert(cols.take(0) =~= Seq::<ColumnConfig>::empty());
            while i < n && remaining > 0
                invariant
                    i <= n,
                    n == cols.len(),
                    widths@.len() == n,
                    cols == columns@,
                    extra <= u16::MAX,
                    remaining <= extra,
                    remaining as int == if extra - wanted_total(cols.take(i as int)) > 0 {
                        extra - wanted_total(cols.take(i as int))
                    } else {
                        0
                    },
                    forall|k: int|
                        0 <= k < i ==> widths@[k] == cols[k].min_width + granted(
                            cols,
                            k,
                            extra as int,
                        ),
                    forall|k: int| i <= k < n ==> widths@[k] == cols[k].min_width,
                    forall|k: int|
                        0 <= k < n ==> (#[trigger] cols[k]).min_width + wanted(cols[k]) + u16::MAX
                            <= usize::MAX,
                decreases n - i,
            {
                let current = widths[i];
                let desired = columns[i].width;
                proof {
                    lemma_wanted_total_step(cols, i as int);
                }
                if current < desired {
                    let lack = desired - current;
                    let give = if lack < remaining { lack } else { remaining };
                    widths[i] = current + give;
                    remaining = remaining - give;
                }
                i += 1;
            }
            proof {
                lemma_wanted_total_monotone(cols, i as int, n as int);
                assert(cols.take(n as int) =~= cols);
                assert forall|k: int| i <= k < n implies widths@[k] == cols[k].min_width + granted(
                    cols,
                    k,
                    extra as int,
                ) by {
                    lemma_wanted_total_monotone(cols, i as int, k);
                }
            }
            if remaining > 0 {
                let share = remaining / n;
                let mut k: usize = 0;
                while k < n
                    invariant
                        k <= n,
                        n == cols.len(),
                        n > 0,
                        widths@.len() == n,
                        extra <= u16::MAX,
                        remaining as int == extra - wanted_total(cols),
                        0 < remaining <= extra,
                        share == remaining / n,
                        forall|m: int|
                            0 <= m < k ==> widths@[m] == grown_width(cols, m, extra as int),
                        forall|m: int|
                            k <= m < n ==> widths@[m] == cols[m].min_width + granted(
                                cols,
                                m,
                                extra as int,
                            ),
                        forall|m: int|
                            0 <= m < n ==> (#[trigger] cols[m]).min_width + wanted(cols[m])
                                + u16::MAX <= usize::MAX,
                    decreases n - k,
                {
                    proof {
                        assert(cols[k as int].min_width + wanted(cols[k as int]) + u16::MAX
                            <= usize::MAX);
                        assert(share <= remaining) by (nonlinear_arith)
                            requires
                                share == remaining / n,
                                n > 0,
                        ;
                    }
                    if widths[k] > 0 {
                        widths[k] = widths[k] + share;
                    }
                    k += 1;
                }
            }
            proof {
                let target = column_widths(cols, available as int);
                assert forall|k: int| 0 <= k < n implies widths@[k] as int == target[k] by {
                    assert(target[k] == grown_width(cols, k, extra as int));
                }
            }
        }
        widths
    }

    /// The widths of the columns in the order in which a row lists them,
    /// for a row of `available_width` cells: each column has the width that
    /// the layout gives it. A width of zero hides the column.
    pub fn display_widths(&self, available_width: u16) -> (r: Vec<usize>)
        requires
            self.fits(),
        ensures
            r@.len() == 5,
            forall|i: int|
                0 <= i < 5 ==> #[trigger] r@[i] == display_widths(
                    self.columns(),
                    usable_width(available_width),
                )[i],
    {
        let widths = self.calculate_widths(available_width);
        let ordered = self.get_ordered_columns();
        let places = priority_places(&ordered);
        let ghost cols = self.columns();
        let ghost order = priority_order(cols);
        let ghost target = column_widths(by_priority(cols), usable_width(available_width));
        proof {
            lemma_priority_order(cols);
            assert forall|k: int| 0 <= k < 5 implies places@[k] as int == order[k] by {
                assert(places@.map_values(|k: usize| k as int)[k] == order[k]);
            }
            assert(places@.len() == places@.map_values(|k: usize| k as int).len());
        }
        let mut out: Vec<usize> = Vec::new();
        let mut n: usize = 0;
        while n < 5
            invariant
                n <= 5,
                out@.len() == n,
            decreases 5 - n,
        {
            out.push(0);
            n += 1;
        }
        let mut k: usize = 0;
        while k < 5
            invariant
                k <= 5,
                out@.len() == 5,
                places@.len() == 5,
                widths@.len() == 5,
                order.len() == 5,
                is_arrangement(order, 5),
                forall|j: int| 0 <= j < 5 ==> places@[j] as int == order[j],
                forall|j: int| 0 <= j < k ==> out@[order[j]] == widths@[j],
            decreases 5 - k,
        {
            let place = places[k];
            assert(0 <= order[k as int] < 5);
            let ghost before = out@;
            out[place] = widths[k];
            assert forall|j: int| 0 <= j < k + 1 implies out@[order[j]] == widths@[j] by {
                if j < k {
                    assert(order[j] != order[k as int]);
                    assert(out@[order[j]] == before[order[j]]);
                }
            }
            k += 1;
        }
        proof {
            assert forall|i: int| 0 <= i < 5 implies #[trigger] out@[i] == display_widths(
                cols,
                usable_width(available_width),
            )[i] by {
                let found = place_of(order, i);
                assert(out@[order[found]] == widths@[found]);
                assert(widths@[found] == target[found]);
            }
        }
        out
    }

    /// The names of the columns in the order in which a row lists them.
    pub open spec fn names(&self) -> Seq<Seq<char>> {
        Seq::new(5, |i: int| self.columns()[i].name@)
    }

    /// The names of the columns in the order in which a row lists them.
    pub fn column_names(&self) -> (r: Vec<String>)
        ensures
            r.deep_view() == self.names(),
    {
        let mut out: Vec<String> = Vec::new();
        out.push(self.run_id.name.to_owned());
        out.push(self.pipeline.name.to_owned());
        out.push(self.status.name.to_owned());
        out.push(self.duration.name.to_owned());
        out.push(self.start_time.name.to_owned());
        assert(out.deep_view() =~= self.names());
        out
    }

    /// The five columns in the order in which a row lists them.
    pub fn get_ordered_columns(&self) -> (r: Vec<&ColumnConfig>)
        ensures
            r@.map_values(|c: &ColumnConfig| *c) == self.columns(),
    {
        let r = vec![&self.run_id, &self.pipeline, &self.status, &self.duration, &self.start_time];
        assert(r@.map_values(|c: &ColumnConfig| *c) =~= self.columns());
        r
    }
}

} // verus!
