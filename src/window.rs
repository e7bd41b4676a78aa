//! Paging windower: which contiguous run of rows fits a display height while
//! keeping the selected position visible.
use crate::cursor::{
    cursor_le, empty_cursor, lemma_cursor_order_transitive, top_cursor, NestedCursor,
};
use vstd::prelude::*;

verus! {

/// A rendered row of the flattened list: a top-level entry (`L1`) or a nested
/// entry (`L2`), with the number of screen lines it takes.
pub enum NestedListItem {
    L1 { height: usize },
    L2 { height: usize },
}

impl NestedListItem {
    pub open spec fn spec_height(self) -> nat {
        match self {
            NestedListItem::L1 { height } => height as nat,
            NestedListItem::L2 { height } => height as nat,
        }
    }

    pub fn height(&self) -> (r: usize)
        ensures
            r == self.spec_height(),
    {
        match self {
            NestedListItem::L1 { height } => *height,
            NestedListItem::L2 { height } => *height,
        }
    }

    pub fn is_l1(&self) -> (r: bool)
        ensures
            r == (*self is L1),
    {
        match self {
            NestedListItem::L1 { .. } => true,
            NestedListItem::L2 { .. } => false,
        }
    }

    pub fn is_l2(&self) -> (r: bool)
        ensures
            r == (*self is L2),
    {
        match self {
            NestedListItem::L1 { .. } => false,
            NestedListItem::L2 { .. } => true,
        }
    }
}

/// The position reached from `c` by stepping over row `r`: a top-level row opens
/// the next top-level index, a nested row the next child index.
pub open spec fn step(c: NestedCursor, r: NestedListItem) -> NestedCursor {
    match r {
        NestedListItem::L1 { .. } => top_cursor(
            match c.0 {
                Some(i) => i.saturating_add(1),
                None => 0,
            },
        ),
        NestedListItem::L2 { .. } => NestedCursor(
            c.0,
            if c.0 is Some {
                Some(
                    match c.1 {
                        Some(j) => j.saturating_add(1),
                        None => 0,
                    },
                )
            } else {
                None
            },
        ),
    }
}

/// The position of the last of the first `n` rows (empty for `n == 0`).
pub open spec fn cursor_upto(rows: Seq<NestedListItem>, n: nat) -> NestedCursor
    decreases n,
{
    if n == 0 || n > rows.len() {
        empty_cursor()
    } else {
        step(cursor_upto(rows, (n - 1) as nat), rows[n - 1])
    }
}

/// The position of row `k`.
pub open spec fn row_pos(rows: Seq<NestedListItem>, k: int) -> NestedCursor {
    cursor_upto(rows, (k + 1) as nat)
}

/// The first row at or after `from` whose position is `c`, or `rows.len()`.
pub open spec fn find_row(rows: Seq<NestedListItem>, c: NestedCursor, from: int) -> int
    decreases rows.len() - from,
{
    if from < 0 || from >= rows.len() {
        rows.len() as int
    } else if row_pos(rows, from) == c {
        from
    } else {
        find_row(rows, c, from + 1)
    }
}

/// The paging walk over the first `n` rows: the index where the current page
/// starts and the lines it uses. A row that does not fit what is left of the
/// page opens a new page.
pub open spec fn scan(rows: Seq<NestedListItem>, height: nat, n: nat) -> (int, nat)
    decreases n,
{
    if n == 0 || n > rows.len() {
        (0, 0)
    } else {
        let (s, u) = scan(rows, height, (n - 1) as nat);
        let h = rows[n - 1].spec_height();
        if u + h <= height {
            (s, u + h)
        } else {
            ((n - 1) as int, h)
        }
    }
}

/// The first row of the page that holds row `k`.
pub open spec fn page_start(rows: Seq<NestedListItem>, height: nat, k: int) -> int {
    scan(rows, height, (k + 1) as nat).0
}

/// The last row of the page that holds row `k`.
pub open spec fn page_end(rows: Seq<NestedListItem>, height: nat, k: int) -> int
    decreases rows.len() - k,
{
    if 0 <= k && k + 1 < rows.len() && page_start(rows, height, k + 1) == page_start(
        rows,
        height,
        k,
    ) {
        page_end(rows, height, k + 1)
    } else {
        k
    }
}

/// The sum of the heights of rows `a` up to, not including, `b`.
pub open spec fn heights(rows: Seq<NestedListItem>, a: int, b: int) -> nat
    decreases b - a,
{
    if b <= a {
        0
    } else {
        heights(rows, a, b - 1) + rows[b - 1].spec_height()
    }
}

/// The visible range for `cursor` within `height` lines: the first and last
/// position of the page that holds the cursor's row; `(empty, empty)` where
/// there are no rows, no selection, no height, or no row at the cursor.
pub open spec fn visible_spec(rows: Seq<NestedListItem>, cursor: NestedCursor, height: nat) -> (
    NestedCursor,
    NestedCursor,
) {
    let k = find_row(rows, cursor, 0);
    if rows.len() == 0 || cursor == empty_cursor() || height == 0 || k >= rows.len() {
        (empty_cursor(), empty_cursor())
    } else {
        (
            row_pos(rows, page_start(rows, height, k)),
            row_pos(rows, page_end(rows, height, k)),
        )
    }
}

/// The rows before `i` hold no position equal to `c` from `from` on, so the
/// search from `from` ends where the search from `i` does.
proof fn lemma_find_row_skip(rows: Seq<NestedListItem>, c: NestedCursor, from: int, i: int)
    requires
        0 <= from <= i <= rows.len(),
        forall|j: int| from <= j < i ==> row_pos(rows, j) != c,
    ensures
        find_row(rows, c, from) == find_row(rows, c, i),
    decreases i - from,
{
    if from < i {
        lemma_find_row_skip(rows, c, from + 1, i);
    }
}

/// A page that runs from row `k` to row `e`, and ends there, has `e` as its end.
proof fn lemma_page_end(rows: Seq<NestedListItem>, height: nat, k: int, e: int)
    requires
        0 <= k <= e < rows.len(),
        forall|j: int| k <= j <= e ==> page_start(rows, height, j) == page_start(rows, height, k),
        e + 1 == rows.len() || page_start(rows, height, e + 1) != page_start(rows, height, k),
    ensures
        page_end(rows, height, k) == e,
    decreases e - k,
{
    if k < e {
        lemma_page_end(rows, height, k + 1, e);
    }
}

proof fn lemma_find_row_found(rows: Seq<NestedListItem>, c: NestedCursor, from: int)
    requires
        0 <= from,
    ensures
        from <= find_row(rows, c, from) <= rows.len() || from > rows.len(),
        find_row(rows, c, from) < rows.len() ==> row_pos(rows, find_row(rows, c, from)) == c,
    decreases rows.len() - from,
{
    if from < rows.len() && row_pos(rows, from) != c {
        lemma_find_row_found(rows, c, from + 1);
    }
}

proof fn lemma_scan_start(rows: Seq<NestedListItem>, height: nat, n: nat)
    requires
        1 <= n <= rows.len(),
    ensures
        0 <= scan(rows, height, n).0 < n,
        scan(rows, height, n).1 == heights(rows, scan(rows, height, n).0, n as int),
        (forall|i: int| 0 <= i < rows.len() ==> rows[i].spec_height() <= height) ==> scan(
            rows,
            height,
            n,
        ).1 <= height,
    decreases n,
{
    let prev = scan(rows, height, (n - 1) as nat);
    let h = rows[n - 1].spec_height();
    if n > 1 {
        lemma_scan_start(rows, height, (n - 1) as nat);
    } else {
        assert(prev == (0int, 0nat));
        assert(heights(rows, 0, 0) == 0);
    }
    if prev.1 + h <= height {
        assert(scan(rows, height, n) == (prev.0, prev.1 + h));
        assert(heights(rows, prev.0, n as int) == heights(rows, prev.0, n - 1) + h);
    } else {
        assert(scan(rows, height, n) == (n - 1, h));
        assert(heights(rows, n - 1, n - 1) == 0);
        assert(heights(rows, n - 1, n as int) == heights(rows, n - 1, n - 1) + h);
    }
}

proof fn lemma_page_bounds(rows: Seq<NestedListItem>, height: nat, k: int)
    requires
        0 <= k < rows.len(),
    ensures
        0 <= page_start(rows, height, k) <= k <= page_end(rows, height, k) < rows.len(),
        forall|j: int|
            k <= j <= page_end(rows, height, k) ==> page_start(rows, height, j) == page_start(
                rows,
                height,
                k,
            ),
    decreases rows.len() - k,
{
    lemma_scan_start(rows, height, (k + 1) as nat);
    if k + 1 < rows.len() && page_start(rows, height, k + 1) == page_start(rows, height, k) {
        lemma_page_bounds(rows, height, k + 1);
    }
}

proof fn lemma_cursor_upto_bound(rows: Seq<NestedListItem>, n: nat)
    ensures
        ({
            let c = cursor_upto(rows, n);
            &&& c.0 is None ==> c.1 is None
            &&& c.0 matches Some(i) ==> i < n
            &&& c.1 matches Some(j) ==> j < n
        }),
    decreases n,
{
    if n > 0 && n <= rows.len() {
        lemma_cursor_upto_bound(rows, (n - 1) as nat);
    }
}

/// Row positions never go back: a later row sits at or after an earlier one.
pub proof fn lemma_row_pos_monotonic(rows: Seq<NestedListItem>, a: int, b: int)
    requires
        rows.len() <= usize::MAX,
        0 <= a <= b < rows.len(),
    ensures
        cursor_le(row_pos(rows, a), row_pos(rows, b)),
    decreases b - a,
{
    if a < b {
        lemma_row_pos_monotonic(rows, a, b - 1);
        lemma_cursor_upto_bound(rows, b as nat);
        assert(cursor_le(row_pos(rows, b - 1), row_pos(rows, b)));
        lemma_cursor_order_transitive(row_pos(rows, a), row_pos(rows, b - 1), row_pos(rows, b));
    }
}

/// The visible range holds the cursor: with rows, a selection and at least one
/// line, the range runs from a position at or before the cursor to one at or
/// after it; a cursor at which no row sits gives `(empty, empty)`.
pub proof fn lemma_window_contains_cursor(
    rows: Seq<NestedListItem>,
    cursor: NestedCursor,
    height: nat,
)
    requires
        rows.len() <= usize::MAX,
        rows.len() > 0,
        cursor != empty_cursor(),
        height >= 1,
    ensures
        find_row(rows, cursor, 0) >= rows.len() ==> visible_spec(rows, cursor, height) == (
            empty_cursor(),
            empty_cursor(),
        ),
        find_row(rows, cursor, 0) < rows.len() ==> {
            let (first, last) = visible_spec(rows, cursor, height);
            cursor_le(first, cursor) && cursor_le(cursor, last)
        },
{
    lemma_find_row_found(rows, cursor, 0);
    let k = find_row(rows, cursor, 0);
    if k < rows.len() {
        lemma_page_bounds(rows, height, k);
        lemma_row_pos_monotonic(rows, page_start(rows, height, k), k);
        lemma_row_pos_monotonic(rows, k, page_end(rows, height, k));
    }
}

/// The visible range fits the height: where no single row is taller than the
/// height, the rows of the page that holds the cursor take at most `height` lines.
pub proof fn lemma_window_within_height(rows: Seq<NestedListItem>, cursor: NestedCursor, height: nat)
    requires
        forall|i: int| 0 <= i < rows.len() ==> rows[i].spec_height() <= height,
        find_row(rows, cursor, 0) < rows.len(),
    ensures
        ({
            let k = find_row(rows, cursor, 0);
            heights(rows, page_start(rows, height, k), page_end(rows, height, k) + 1) <= height
        }),
{
    lemma_find_row_found(rows, cursor, 0);
    let k = find_row(rows, cursor, 0);
    lemma_page_bounds(rows, height, k);
    let e = page_end(rows, height, k);
    assert(page_start(rows, height, e) == page_start(rows, height, k));
    lemma_scan_start(rows, height, (e + 1) as nat);
}

/// Positions within a prefix of the rows do not depend on what follows it.
pub(crate) proof fn lemma_cursor_upto_prefix(a: Seq<NestedListItem>, b: Seq<NestedListItem>, n: nat)
    requires
        n <= a.len(),
    ensures
        cursor_upto(a + b, n) == cursor_upto(a, n),
    decreases n,
{
    if n > 0 {
        lemma_cursor_upto_prefix(a, b, (n - 1) as nat);
        assert((a + b)[n - 1] == a[n - 1]);
    }
}

/// A row at position `c` bounds the search for `c`.
pub(crate) proof fn lemma_find_row_at_most(rows: Seq<NestedListItem>, c: NestedCursor, from: int, k: int)
    requires
        0 <= from <= k < rows.len(),
        row_pos(rows, k) == c,
    ensures
        find_row(rows, c, from) <= k,
    decreases k - from,
{
    if from < k && row_pos(rows, from) != c {
        lemma_find_row_at_most(rows, c, from + 1, k);
    }
}

/// The rows that `range` covers and the selected one among them: the first row
/// at the range's start, one past the first row at its end, and the offset of
/// the cursor's row from the start where it lies in between. An empty or
/// reversed range, or one whose ends have no row, covers nothing.
pub open spec fn slice_spec(
    rows: Seq<NestedListItem>,
    cursor: NestedCursor,
    range: (NestedCursor, NestedCursor),
) -> (int, int, Option<int>) {
    let a = find_row(rows, range.0, 0);
    let e = find_row(rows, range.1, 0);
    let k = find_row(rows, cursor, 0);
    if cursor_le(range.0, range.1) && a <= e < rows.len() {
        (a, e + 1, if a <= k <= e {
            Some(k - a)
        } else {
            None
        })
    } else {
        (0, 0, None)
    }
}

/// The index of the first row at position `c`, or the number of rows.
fn row_of(rows: &Vec<NestedListItem>, c: NestedCursor) -> (r: usize)
    ensures
        r == find_row(rows@, c, 0),
{
    let mut pos = NestedCursor::empty();
    let mut i: usize = 0;
    while i < rows.len()
        invariant
            i <= rows@.len(),
            pos == cursor_upto(rows@, i as nat),
            forall|j: int| 0 <= j < i ==> row_pos(rows@, j) != c,
        decreases rows.len() - i,
    {
        if rows[i].is_l1() {
            pos.add_idx(1);
        } else {
            pos.add_sub_idx(1);
        }
        assert(cursor_upto(rows@, (i + 1) as nat) == step(cursor_upto(rows@, i as nat), rows@[i as int]));
        if pos == c {
            proof {
                lemma_find_row_skip(rows@, c, 0, i as int);
            }
            return i;
        }
        i = i + 1;
    }
    proof {
        lemma_find_row_skip(rows@, c, 0, i as int);
    }
    i
}

/// Rows that the list shows: a list of flattened rows and the selected position.
pub struct NestedList {
    pub items: Vec<NestedListItem>,
    pub cursor: NestedCursor,
}

impl NestedList {
    pub fn new(items: Vec<NestedListItem>) -> (r: Self)
        ensures
            r.items@ == items@,
            r.cursor == empty_cursor(),
    {
        NestedList { items, cursor: NestedCursor::empty() }
    }

    pub fn with_cursor(self, cursor: NestedCursor) -> (r: Self)
        ensures
            r.items@ == self.items@,
            r.cursor == cursor,
    {
        NestedList { items: self.items, cursor }
    }

    /// The first and last position of the page, within `height` lines, that
    /// holds the selected row.
    pub fn visible_list(&self, height: usize) -> (r: (NestedCursor, NestedCursor))
        ensures
            r == visible_spec(self.items@, self.cursor, height as nat),
    {
        let rows = &self.items;
        let ghost hn = height as nat;
        if rows.len() == 0 || self.cursor == NestedCursor::empty() || height == 0 {
            return (NestedCursor::empty(), NestedCursor::empty());
        }
        let mut pos = NestedCursor::empty();
        let mut start_pos = NestedCursor::empty();
        let mut start: usize = 0;
        let mut used: usize = 0;
        let mut found = false;
        let ghost mut k: int = rows.len() as int;
        let mut i: usize = 0;
        while i < rows.len()
            invariant
                0 <= i <= rows.len(),
                rows@ == self.items@,
                hn == height,
                height > 0,
                rows@.len() > 0,
                self.cursor != empty_cursor(),
                scan(rows@, hn, i as nat) == (start as int, used as nat),
                start <= i,
                i > 0 ==> start < i,
                pos == cursor_upto(rows@, i as nat),
                i > 0 ==> start_pos == row_pos(rows@, start as int),
                forall|j: int| start <= j < i ==> page_start(rows@, hn, j) == start,
                found ==> k == find_row(rows@, self.cursor, 0) && start <= k < i,
                !found ==> forall|j: int| 0 <= j < i ==> row_pos(rows@, j) != self.cursor,
            decreases rows.len() - i,
        {
            let h = rows[i].height();
            let fits = (used as u128) + (h as u128) <= (height as u128);
            if !fits && found {
                proof {
                    assert(scan(rows@, hn, (i + 1) as nat) == (i as int, h as nat));
                    assert(page_start(rows@, hn, i as int) == i);
                    assert(page_start(rows@, hn, k) == start);
                    lemma_page_end(rows@, hn, k, i - 1);
                }
                return (start_pos, pos);
            }
            if rows[i].is_l1() {
                pos.add_idx(1);
            } else {
                pos.add_sub_idx(1);
            }
            if fits {
                used = used + h;
            } else {
                start = i;
                used = h;
            }
            if start == i {
                start_pos = pos;
            }
            proof {
                assert(cursor_upto(rows@, (i + 1) as nat) == step(
                    cursor_upto(rows@, i as nat),
                    rows@[i as int],
                ));
            }
            if !found && pos == self.cursor {
                found = true;
                proof {
                    k = i as int;
                    lemma_find_row_skip(rows@, self.cursor, 0, i as int);
                }
            }
            i = i + 1;
        }
        if found {
            proof {
                assert(page_start(rows@, hn, k) == start);
                lemma_page_end(rows@, hn, k, i - 1);
            }
            (start_pos, pos)
        } else {
            proof {
                lemma_find_row_skip(rows@, self.cursor, 0, i as int);
            }
            (NestedCursor::empty(), NestedCursor::empty())
        }
    }
    /// The rows that `range` covers, as `(first, one past last)`, and the offset
    /// of the selected row among them.
    pub fn slice_in_range(&self, range: (NestedCursor, NestedCursor)) -> (r: (
        usize,
        usize,
        Option<usize>,
    ))
        ensures
            ({
                let s = slice_spec(self.items@, self.cursor, range);
                &&& r.0 == s.0
                &&& r.1 == s.1
                &&& r.2 == (match s.2 {
                    Some(o) => Some(o as usize),
                    None => None,
                })
            }),
    {
        let (start, end) = range;
        let a = row_of(&self.items, start);
        let e = row_of(&self.items, end);
        if start.le(&end) && a <= e && e < self.items.len() {
            let k = row_of(&self.items, self.cursor);
            let selected = if a <= k && k <= e {
                Some(k - a)
            } else {
                None
            };
            (a, e + 1, selected)
        } else {
            (0, 0, None)
        }
    }
}

} // verus!
