//! Traversal order of the item store: where `advance` and `retreat` move the
//! cursor, which groups they enter, and the laws that relate them.
use crate::cursor::{pair_cursor, top_cursor, NestedCursor};
use crate::node::NestedListItem;
use vstd::prelude::*;

verus! {

/// `c` addresses a node, or a child of a group, that exists in `items`.
pub open spec fn valid_pos<S, G>(items: Seq<NestedListItem<S, G>>, c: NestedCursor) -> bool {
    match c.0 {
        None => false,
        Some(t) => t < items.len() && match c.1 {
            None => true,
            Some(j) => items[t as int] is Group && j < items[t as int].children().len(),
        },
    }
}

/// The index of the top-level node under `c`, or -1.
pub open spec fn top_of(c: NestedCursor) -> int {
    match c.0 {
        Some(t) => t as int,
        None => -1,
    }
}

/// Where `advance` moves `c`, where `enter` tells whether the group under the
/// cursor lets traversal into its children.
pub open spec fn next_pos<S, G>(
    items: Seq<NestedListItem<S, G>>,
    c: NestedCursor,
    enter: bool,
) -> NestedCursor {
    match c.0 {
        None => c,
        Some(t) => if t >= items.len() {
            c
        } else {
            let has_next = t + 1 < items.len();
            match items[t as int] {
                NestedListItem::Single(_) => if has_next {
                    top_cursor((t + 1) as usize)
                } else {
                    top_cursor(t)
                },
                NestedListItem::Group { items: ch, .. } => {
                    let n = ch@.len();
                    let at_last = match c.1 {
                        Some(j) => j + 1 == n,
                        None => false,
                    };
                    if n == 0 || at_last || !enter {
                        if has_next {
                            top_cursor((t + 1) as usize)
                        } else {
                            c
                        }
                    } else {
                        match c.1 {
                            Some(j) => if j + 1 < n {
                                pair_cursor(t, (j + 1) as usize)
                            } else {
                                c
                            },
                            None => pair_cursor(t, 0),
                        }
                    }
                },
            }
        },
    }
}

/// Where `retreat` moves `c`, where `enter` tells whether the group before the
/// cursor's top-level node lets traversal into its children.
pub open spec fn prev_pos<S, G>(
    items: Seq<NestedListItem<S, G>>,
    c: NestedCursor,
    enter: bool,
) -> NestedCursor {
    match c.0 {
        None => c,
        Some(t) => if t >= items.len() {
            c
        } else {
            let back = if t == 0 {
                c
            } else {
                let p = (t - 1) as usize;
                let n = items[p as int].children().len();
                if items[p as int] is Group && enter && n > 0 {
                    pair_cursor(p, (n - 1) as usize)
                } else {
                    top_cursor(p)
                }
            };
            match c.1 {
                Some(j) => if items[t as int] is Single {
                    back
                } else if j > 0 {
                    pair_cursor(t, (j - 1) as usize)
                } else {
                    top_cursor(t)
                },
                None => back,
            }
        },
    }
}

/// The answer of predicate `p` for the node at index `i`, or `false` where there is none.
pub open spec fn enter_at<S, G>(
    items: Seq<NestedListItem<S, G>>,
    i: int,
    p: spec_fn(NestedListItem<S, G>) -> bool,
) -> bool {
    if 0 <= i < items.len() {
        p(items[i])
    } else {
        false
    }
}

/// The index of the node before the cursor's top-level node, or -1 where the
/// cursor addresses no node.
pub open spec fn before_top<S, G>(items: Seq<NestedListItem<S, G>>, c: NestedCursor) -> int {
    if 0 <= top_of(c) < items.len() {
        top_of(c) - 1
    } else {
        -1
    }
}

/// `advance` under an enterable predicate `p`.
pub open spec fn advance_by<S, G>(
    items: Seq<NestedListItem<S, G>>,
    c: NestedCursor,
    p: spec_fn(NestedListItem<S, G>) -> bool,
) -> NestedCursor {
    next_pos(items, c, enter_at(items, top_of(c), p))
}

/// `retreat` under an enterable predicate `p`.
pub open spec fn retreat_by<S, G>(
    items: Seq<NestedListItem<S, G>>,
    c: NestedCursor,
    p: spec_fn(NestedListItem<S, G>) -> bool,
) -> NestedCursor {
    prev_pos(items, c, enter_at(items, top_of(c) - 1, p))
}

/// `c` is a position of the traversal order under `p`: a top-level node, or a
/// child of a group that `p` lets traversal into.
pub open spec fn in_order<S, G>(
    items: Seq<NestedListItem<S, G>>,
    c: NestedCursor,
    p: spec_fn(NestedListItem<S, G>) -> bool,
) -> bool {
    valid_pos(items, c) && (c.1 is Some ==> p(items[top_of(c)]))
}

/// The last position of the traversal order under `p` of a non-empty store.
pub open spec fn last_pos<S, G>(
    items: Seq<NestedListItem<S, G>>,
    p: spec_fn(NestedListItem<S, G>) -> bool,
) -> NestedCursor {
    let t = (items.len() - 1) as usize;
    let n = items[t as int].children().len();
    if items[t as int] is Group && p(items[t as int]) && n > 0 {
        pair_cursor(t, (n - 1) as usize)
    } else {
        top_cursor(t)
    }
}

/// `f` answered `b` when asked about the group at index `i`, if there is one.
pub open spec fn answered<S, G, F: Fn(&NestedListItem<S, G>) -> bool>(
    f: F,
    items: Seq<NestedListItem<S, G>>,
    i: int,
    b: bool,
) -> bool {
    0 <= i < items.len() && items[i] is Group ==> f.ensures((&items[i],), b)
}

/// `d` is where `advance` moves `c` when `f` decides whether a group is entered.
pub open spec fn advanced_with<S, G, F: Fn(&NestedListItem<S, G>) -> bool>(
    f: F,
    items: Seq<NestedListItem<S, G>>,
    c: NestedCursor,
    d: NestedCursor,
) -> bool {
    exists|b: bool| #[trigger] next_pos(items, c, b) == d && answered(f, items, top_of(c), b)
}

/// `d` is where `retreat` moves `c` when `f` decides whether a group is entered.
pub open spec fn retreated_with<S, G, F: Fn(&NestedListItem<S, G>) -> bool>(
    f: F,
    items: Seq<NestedListItem<S, G>>,
    c: NestedCursor,
    d: NestedCursor,
) -> bool {
    exists|b: bool|
        #[trigger] prev_pos(items, c, b) == d && answered(f, items, before_top(items, c), b)
}

/// Where `f` answers as `p` does, the move that `next_v2` makes is `advance_by` under `p`.
pub proof fn lemma_advanced_as<S, G, F: Fn(&NestedListItem<S, G>) -> bool>(
    f: F,
    items: Seq<NestedListItem<S, G>>,
    c: NestedCursor,
    d: NestedCursor,
    p: spec_fn(NestedListItem<S, G>) -> bool,
)
    requires
        advanced_with(f, items, c, d),
        answers_as(f, p),
    ensures
        d == advance_by(items, c, p),
{
    let b = choose|b: bool| #[trigger] next_pos(items, c, b) == d && answered(f, items, top_of(c), b);
    assert(next_pos(items, c, b) == next_pos(items, c, enter_at(items, top_of(c), p)));
}

/// Where `f` answers as `p` does, the move that `prev_v2` makes is `retreat_by` under `p`.
pub proof fn lemma_retreated_as<S, G, F: Fn(&NestedListItem<S, G>) -> bool>(
    f: F,
    items: Seq<NestedListItem<S, G>>,
    c: NestedCursor,
    d: NestedCursor,
    p: spec_fn(NestedListItem<S, G>) -> bool,
)
    requires
        retreated_with(f, items, c, d),
        answers_as(f, p),
    ensures
        d == retreat_by(items, c, p),
{
    let b = choose|b: bool|
        #[trigger] prev_pos(items, c, b) == d && answered(f, items, before_top(items, c), b);
    assert(prev_pos(items, c, b) == prev_pos(items, c, enter_at(items, top_of(c) - 1, p)));
}

/// The enterable predicate given by the groups' collapse flags.
pub open spec fn open_groups<S, G>() -> spec_fn(NestedListItem<S, G>) -> bool {
    |n: NestedListItem<S, G>| n.is_open()
}

/// `c` addresses the header of a group.
pub open spec fn on_group_header<S, G>(items: Seq<NestedListItem<S, G>>, c: NestedCursor) -> bool {
    valid_pos(items, c) && c.1 is None && items[top_of(c)] is Group
}

/// The node `n` with its collapse flag set to `collapsed` (a leaf stays as it is).
pub open spec fn set_flag<S, G>(n: NestedListItem<S, G>, collapsed: bool) -> NestedListItem<S, G> {
    match n {
        NestedListItem::Group { inner, items, .. } => NestedListItem::Group {
            inner,
            items,
            collapsed,
        },
        NestedListItem::Single(s) => NestedListItem::Single(s),
    }
}

/// The store with the collapse flag of node `t` set to `collapsed`.
pub open spec fn with_collapsed<S, G>(
    items: Seq<NestedListItem<S, G>>,
    t: int,
    collapsed: bool,
) -> Seq<NestedListItem<S, G>> {
    items.update(t, set_flag(items[t], collapsed))
}

/// `result` is the store after setting the collapse flag under `c` to `collapsed`.
pub open spec fn collapse_result<S, G>(
    items: Seq<NestedListItem<S, G>>,
    c: NestedCursor,
    collapsed: bool,
    result: Seq<NestedListItem<S, G>>,
) -> bool {
    result == (if on_group_header(items, c) {
        with_collapsed(items, top_of(c), collapsed)
    } else {
        items
    })
}

/// Advancing from a position of the traversal order other than the last one and
/// then retreating, under the same enterable predicate, comes back to it; the
/// intermediate position is itself in the traversal order.
pub proof fn lemma_retreat_after_advance<S, G>(
    items: Seq<NestedListItem<S, G>>,
    c: NestedCursor,
    p: spec_fn(NestedListItem<S, G>) -> bool,
)
    requires
        items.len() <= usize::MAX,
        in_order(items, c, p),
        c != last_pos(items, p),
    ensures
        in_order(items, advance_by(items, c, p), p),
        retreat_by(items, advance_by(items, c, p), p) == c,
{
    let t = c.0->Some_0;
    let node = items[t as int];
    let n = node.children().len();
    let a = advance_by(items, c, p);
    assert(enter_at(items, top_of(c), p) == p(node));
    if node is Group {
        assert(node->Group_items.len() == n);
    }
    match c.1 {
        None => {
            if node is Group && p(node) && n > 0 {
                assert(a == pair_cursor(t, 0));
            } else {
                assert(t + 1 < items.len());
                assert(a == top_cursor((t + 1) as usize));
                assert(top_of(a) - 1 == t);
                assert(enter_at(items, top_of(a) - 1, p) == p(node));
            }
        },
        Some(j) => {
            if j + 1 == n {
                assert(t + 1 < items.len());
                assert(a == top_cursor((t + 1) as usize));
                assert(enter_at(items, top_of(a) - 1, p) == p(node));
            } else {
                assert(a == pair_cursor(t, (j + 1) as usize));
            }
        },
    }
}

/// Retreating from a position of the traversal order other than the first one and
/// then advancing, under the same enterable predicate, comes back to it; the
/// intermediate position is itself in the traversal order.
pub proof fn lemma_advance_after_retreat<S, G>(
    items: Seq<NestedListItem<S, G>>,
    c: NestedCursor,
    p: spec_fn(NestedListItem<S, G>) -> bool,
)
    requires
        items.len() <= usize::MAX,
        in_order(items, c, p),
        c != top_cursor(0),
    ensures
        in_order(items, retreat_by(items, c, p), p),
        advance_by(items, retreat_by(items, c, p), p) == c,
{
    let t = c.0->Some_0;
    let r = retreat_by(items, c, p);
    match c.1 {
        None => {
            assert(t > 0);
            let q = (t - 1) as usize;
            let prev = items[q as int];
            let n = prev.children().len();
            if prev is Group {
                assert(prev->Group_items.len() == n);
            }
            assert(enter_at(items, top_of(c) - 1, p) == p(prev));
            if prev is Group && p(prev) && n > 0 {
                assert(r == pair_cursor(q, (n - 1) as usize));
            } else {
                assert(r == top_cursor(q));
            }
            assert(top_of(r) == q);
            assert(enter_at(items, top_of(r), p) == p(prev));
        },
        Some(j) => {
            if j > 0 {
                assert(r == pair_cursor(t, (j - 1) as usize));
            } else {
                assert(r == top_cursor(t));
            }
            assert(enter_at(items, top_of(r), p) == p(items[t as int]));
        },
    }
}

/// Advancing at the last position and retreating at the first position of a
/// non-empty store leave the cursor where it is; on an empty store both leave
/// every cursor where it is.
pub proof fn lemma_traversal_stops_at_bounds<S, G>(
    items: Seq<NestedListItem<S, G>>,
    c: NestedCursor,
    p: spec_fn(NestedListItem<S, G>) -> bool,
)
    requires
        items.len() <= usize::MAX,
    ensures
        items.len() > 0 ==> advance_by(items, last_pos(items, p), p) == last_pos(items, p),
        items.len() > 0 ==> retreat_by(items, top_cursor(0), p) == top_cursor(0),
        items.len() == 0 ==> advance_by(items, c, p) == c && retreat_by(items, c, p) == c,
{
    if items.len() > 0 {
        let l = last_pos(items, p);
        let t = (items.len() - 1) as usize;
        if items[t as int] is Group {
            assert(items[t as int]->Group_items.len() == items[t as int].children().len());
        }
        assert(top_of(l) == t);
        assert(enter_at(items, top_of(l), p) == p(items[t as int]));
    }
}

/// Collapsing group `t` keeps every node and every child stored, and takes the
/// children out of the traversal order under the collapse flags: from the header
/// `advance` skips to the next node and `retreat` from the next node lands on the
/// header. Opening it again brings the children back into the traversal order.
pub proof fn lemma_collapse_skips_children<S, G>(items: Seq<NestedListItem<S, G>>, t: usize)
    requires
        items.len() <= usize::MAX,
        t < items.len(),
        items[t as int] is Group,
        items[t as int].children().len() > 0,
    ensures
        ({
            let closed = with_collapsed(items, t as int, true);
            &&& closed.len() == items.len()
            &&& closed[t as int] is Group
            &&& closed[t as int].children() == items[t as int].children()
            &&& forall|i: int| 0 <= i < items.len() && i != t ==> closed[i] == items[i]
            &&& forall|j: usize| !in_order(closed, pair_cursor(t, j), open_groups())
            &&& advance_by(closed, top_cursor(t), open_groups()) == (if t + 1 < items.len() {
                top_cursor((t + 1) as usize)
            } else {
                top_cursor(t)
            })
            &&& t + 1 < items.len() ==> retreat_by(
                closed,
                top_cursor((t + 1) as usize),
                open_groups(),
            ) == top_cursor(t)
        }),
        ({
            let opened = with_collapsed(with_collapsed(items, t as int, true), t as int, false);
            let n = items[t as int].children().len();
            &&& opened == with_collapsed(items, t as int, false)
            &&& opened[t as int].children() == items[t as int].children()
            &&& forall|j: usize| j < n ==> in_order(opened, pair_cursor(t, j), open_groups())
            &&& advance_by(opened, top_cursor(t), open_groups()) == pair_cursor(t, 0)
            &&& t + 1 < items.len() ==> retreat_by(
                opened,
                top_cursor((t + 1) as usize),
                open_groups(),
            ) == pair_cursor(t, (n - 1) as usize)
        }),
{
    let closed = with_collapsed(items, t as int, true);
    let opened = with_collapsed(closed, t as int, false);
    let n = items[t as int].children().len();
    assert(items[t as int]->Group_items.len() == n);
    assert(opened =~= with_collapsed(items, t as int, false));
    assert(enter_at(closed, t as int, open_groups()) == false);
    assert(enter_at(opened, t as int, open_groups()) == true);
    assert(top_of(top_cursor((t + 1) as usize)) - 1 == t);
}

/// `f` answers as the spec predicate `p` does, every time it is asked.
pub open spec fn answers_as<S, G, F: Fn(&NestedListItem<S, G>) -> bool>(
    f: F,
    p: spec_fn(NestedListItem<S, G>) -> bool,
) -> bool {
    forall|n: NestedListItem<S, G>, b: bool| #[trigger] f.ensures((&n,), b) ==> b == p(n)
}

/// With an enterable predicate that answers the same way each time, a move by
/// `next_v2` from a position of the traversal order other than the last one,
/// followed by a move by `prev_v2`, comes back to that position.
pub proof fn lemma_next_then_prev<S, G, F: Fn(&NestedListItem<S, G>) -> bool>(
    f: F,
    p: spec_fn(NestedListItem<S, G>) -> bool,
    items: Seq<NestedListItem<S, G>>,
    c: NestedCursor,
    d: NestedCursor,
    e: NestedCursor,
)
    requires
        items.len() <= usize::MAX,
        answers_as(f, p),
        in_order(items, c, p),
        c != last_pos(items, p),
        advanced_with(f, items, c, d),
        retreated_with(f, items, d, e),
    ensures
        in_order(items, d, p),
        e == c,
{
    lemma_advanced_as(f, items, c, d, p);
    lemma_retreated_as(f, items, d, e, p);
    lemma_retreat_after_advance(items, c, p);
}

/// With an enterable predicate that answers the same way each time, a move by
/// `prev_v2` from a position of the traversal order other than the first one,
/// followed by a move by `next_v2`, comes back to that position.
pub proof fn lemma_prev_then_next<S, G, F: Fn(&NestedListItem<S, G>) -> bool>(
    f: F,
    p: spec_fn(NestedListItem<S, G>) -> bool,
    items: Seq<NestedListItem<S, G>>,
    c: NestedCursor,
    d: NestedCursor,
    e: NestedCursor,
)
    requires
        items.len() <= usize::MAX,
        answers_as(f, p),
        in_order(items, c, p),
        c != top_cursor(0),
        retreated_with(f, items, c, d),
        advanced_with(f, items, d, e),
    ensures
        in_order(items, d, p),
        e == c,
{
    lemma_retreated_as(f, items, c, d, p);
    lemma_advanced_as(f, items, d, e, p);
    lemma_advance_after_retreat(items, c, p);
}

/// With an enterable predicate that answers the same way each time, `next_v2`
/// at the last position and `prev_v2` at the first position of a non-empty
/// store leave the cursor where it is, however often they are repeated.
pub proof fn lemma_moves_stop_at_bounds<S, G, F: Fn(&NestedListItem<S, G>) -> bool>(
    f: F,
    p: spec_fn(NestedListItem<S, G>) -> bool,
    items: Seq<NestedListItem<S, G>>,
    d: NestedCursor,
    e: NestedCursor,
)
    requires
        items.len() <= usize::MAX,
        items.len() > 0,
        answers_as(f, p),
    ensures
        advanced_with(f, items, last_pos(items, p), d) ==> d == last_pos(items, p),
        retreated_with(f, items, top_cursor(0), e) ==> e == top_cursor(0),
{
    let c = top_cursor(0);
    lemma_traversal_stops_at_bounds(items, c, p);
    if advanced_with(f, items, last_pos(items, p), d) {
        lemma_advanced_as(f, items, last_pos(items, p), d, p);
    }
    if retreated_with(f, items, c, e) {
        lemma_retreated_as(f, items, c, e, p);
    }
}

} // verus!
