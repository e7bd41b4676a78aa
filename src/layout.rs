//! The rows that the item store shows, and the windower's laws stated over
//! the store.
use crate::cursor::{cursor_le, empty_cursor, pair_cursor, top_cursor, NestedCursor};
use crate::node::NestedListItem;
use crate::traversal::{in_order, open_groups};
use crate::window::NestedListItem as Row;
use crate::window::{
    cursor_upto, find_row, heights, lemma_cursor_upto_prefix, lemma_find_row_at_most,
    lemma_window_contains_cursor, lemma_window_within_height, page_end, page_start, row_pos,
    visible_spec,
};
use vstd::prelude::*;

verus! {

/// The rows that node `n` shows: its own line, then one line per child where it
/// is a group that is not collapsed.
pub open spec fn node_rows<S, G>(n: NestedListItem<S, G>) -> Seq<Row> {
    let k = if n is Group && n.is_open() {
        n.children().len()
    } else {
        0
    };
    seq![Row::L1 { height: 1 }] + Seq::new(k, |_i: int| Row::L2 { height: 1 })
}

/// The rows that the store shows, in traversal order under the collapse flags.
pub open spec fn rows_of<S, G>(items: Seq<NestedListItem<S, G>>) -> Seq<Row>
    decreases items.len(),
{
    if items.len() == 0 {
        Seq::empty()
    } else {
        rows_of(items.drop_last()) + node_rows(items.last())
    }
}

/// Walking the rows of node `n`, the node at index `t`, from where the rows of
/// the nodes before it end: its own row is at `(t, None)`, its `j`-th child row
/// at `(t, j)`.
proof fn lemma_node_rows_walk<S, G>(r0: Seq<Row>, n: NestedListItem<S, G>, t: usize, j: nat)
    requires
        t == 0 ==> cursor_upto(r0, r0.len()) == empty_cursor(),
        t > 0 ==> cursor_upto(r0, r0.len()).0 == Some((t - 1) as usize),
        j < node_rows(n).len(),
        node_rows(n).len() <= usize::MAX + 1,
    ensures
        cursor_upto(r0 + node_rows(n), r0.len() + 1 + j) == (if j == 0 {
            top_cursor(t)
        } else {
            pair_cursor(t, (j - 1) as usize)
        }),
    decreases j,
{
    let r = r0 + node_rows(n);
    if j == 0 {
        lemma_cursor_upto_prefix(r0, node_rows(n), r0.len());
        assert(r[r0.len() as int] == node_rows(n)[0]);
    } else {
        lemma_node_rows_walk(r0, n, t, (j - 1) as nat);
        assert(r[(r0.len() + j) as int] == node_rows(n)[j as int]);
    }
}

/// Every position of the traversal order under the collapse flags has a row,
/// and the rows end at the last node.
proof fn lemma_rows_cover<S, G>(items: Seq<NestedListItem<S, G>>)
    requires
        items.len() <= usize::MAX,
    ensures
        items.len() == 0 ==> cursor_upto(rows_of(items), rows_of(items).len()) == empty_cursor(),
        items.len() > 0 ==> cursor_upto(rows_of(items), rows_of(items).len()).0 == Some(
            (items.len() - 1) as usize,
        ),
        forall|c: NestedCursor|
            #![trigger in_order(items, c, open_groups())]
            in_order(items, c, open_groups()) ==> exists|k: int|
                0 <= k < rows_of(items).len() && row_pos(rows_of(items), k) == c,
    decreases items.len(),
{
    if items.len() > 0 {
        let init = items.drop_last();
        let n = items.last();
        let t = (items.len() - 1) as usize;
        let r0 = rows_of(init);
        let b = node_rows(n);
        let r = rows_of(items);
        lemma_rows_cover(init);
        assert(r == r0 + b);
        if n is Group {
            assert(n->Group_items.len() == n.children().len());
        }
        let kids = (b.len() - 1) as nat;
        lemma_node_rows_walk(r0, n, t, kids);
        assert forall|c: NestedCursor| in_order(items, c, open_groups()) implies exists|k: int|
            0 <= k < r.len() && row_pos(r, k) == c by {
            let ct = c.0->Some_0;
            if ct < t {
                assert(in_order(init, c, open_groups()));
                let k = choose|k: int| 0 <= k < r0.len() && row_pos(r0, k) == c;
                lemma_cursor_upto_prefix(r0, b, (k + 1) as nat);
                assert(row_pos(r, k) == c);
            } else {
                match c.1 {
                    None => {
                        lemma_node_rows_walk(r0, n, t, 0);
                        assert(row_pos(r, r0.len() as int) == c);
                    },
                    Some(m) => {
                        assert(m < n.children().len());
                        lemma_node_rows_walk(r0, n, t, (m + 1) as nat);
                        assert(row_pos(r, r0.len() + 1 + m) == c);
                    },
                }
            }
        }
    }
}

/// The rows of a store each take one line.
proof fn lemma_rows_one_line<S, G>(items: Seq<NestedListItem<S, G>>)
    ensures
        forall|i: int|
            0 <= i < rows_of(items).len() ==> #[trigger] rows_of(items)[i].spec_height() == 1,
    decreases items.len(),
{
    if items.len() > 0 {
        lemma_rows_one_line(items.drop_last());
        let r0 = rows_of(items.drop_last());
        let b = node_rows(items.last());
        assert forall|i: int| 0 <= i < rows_of(items).len() implies #[trigger] rows_of(
            items,
        )[i].spec_height() == 1 by {
            if i < r0.len() {
                assert(rows_of(items)[i] == r0[i]);
            } else {
                assert(rows_of(items)[i] == b[i - r0.len()]);
            }
        }
    }
}

/// For a non-empty store and a height of at least one line, the visible range
/// runs from a position at or before the cursor to one at or after it wherever
/// the cursor addresses a shown row, which every position of the traversal
/// order under the collapse flags does; a cursor that addresses no shown row
/// gives `(empty, empty)`.
pub proof fn lemma_store_window_contains_cursor<S, G>(
    items: Seq<NestedListItem<S, G>>,
    c: NestedCursor,
    height: nat,
)
    requires
        items.len() <= usize::MAX,
        rows_of(items).len() <= usize::MAX,
        items.len() > 0,
        height >= 1,
    ensures
        in_order(items, c, open_groups()) ==> {
            let (first, last) = visible_spec(rows_of(items), c, height);
            cursor_le(first, c) && cursor_le(c, last)
        },
        find_row(rows_of(items), c, 0) < rows_of(items).len() ==> {
            let (first, last) = visible_spec(rows_of(items), c, height);
            cursor_le(first, c) && cursor_le(c, last)
        },
        find_row(rows_of(items), c, 0) >= rows_of(items).len() ==> visible_spec(
            rows_of(items),
            c,
            height,
        ) == (empty_cursor(), empty_cursor()),
{
    let r = rows_of(items);
    lemma_rows_cover(items);
    if in_order(items, c, open_groups()) {
        let k = choose|k: int| 0 <= k < r.len() && row_pos(r, k) == c;
        lemma_find_row_at_most(r, c, 0, k);
    }
    if r.len() > 0 && c != empty_cursor() {
        lemma_window_contains_cursor(r, c, height);
    }
}

/// For every store and cursor and a height of at least one line, the rows of
/// the visible range take at most `height` lines.
pub proof fn lemma_store_window_within_height<S, G>(
    items: Seq<NestedListItem<S, G>>,
    c: NestedCursor,
    height: nat,
)
    requires
        height >= 1,
        find_row(rows_of(items), c, 0) < rows_of(items).len(),
    ensures
        ({
            let r = rows_of(items);
            let k = find_row(r, c, 0);
            heights(r, page_start(r, height, k), page_end(r, height, k) + 1) <= height
        }),
{
    lemma_rows_one_line(items);
    lemma_window_within_height(rows_of(items), c, height);
}

} // verus!
