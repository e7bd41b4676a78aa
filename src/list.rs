//! The list engine: an item store and a cursor kept consistent with it.
use crate::cursor::{empty_cursor, pair_cursor, top_cursor, Idx, NestedCursor};
use crate::layout::rows_of;
use crate::node::{NestedListItem, NestedListItemState};
use crate::traversal::{
    advanced_with, answered, before_top, collapse_result, next_pos, prev_pos, retreated_with,
    set_flag, top_of, valid_pos,
};
use crate::window::NestedListItem as Row;
use crate::window::{visible_spec, NestedList};
use vstd::prelude::*;

verus! {

/// `b` is the group `a` with child `j` taken out.
pub open spec fn child_removed<S, G>(a: NestedListItem<S, G>, b: NestedListItem<S, G>, j: int) -> bool {
    match (a, b) {
        (
            NestedListItem::Group { inner: ia, items: ca, collapsed: fa },
            NestedListItem::Group { inner: ib, items: cb, collapsed: fb },
        ) => ia == ib && fa == fb && cb@ == ca@.remove(j),
        _ => false,
    }
}

/// `target` removes a whole top-level node: a leaf, or a group addressed by its header.
pub open spec fn removes_node<S, G>(items: Seq<NestedListItem<S, G>>, target: NestedCursor) -> bool {
    match target.0 {
        Some(t) => t < items.len() && target.1 is None,
        None => false,
    }
}

/// `target` removes one existing child of a group.
pub open spec fn removes_child<S, G>(items: Seq<NestedListItem<S, G>>, target: NestedCursor) -> bool {
    match (target.0, target.1) {
        (Some(t), Some(j)) => t < items.len() && items[t as int] is Group && j
            < items[t as int].children().len(),
        _ => false,
    }
}

/// The store after removing what `target` addresses; `Some` relation over old and new.
pub open spec fn store_after_remove<S, G>(
    items: Seq<NestedListItem<S, G>>,
    target: NestedCursor,
    result: Seq<NestedListItem<S, G>>,
) -> bool {
    if removes_node(items, target) {
        result == items.remove(top_of(target))
    } else if removes_child(items, target) {
        let t = top_of(target);
        &&& result.len() == items.len()
        &&& forall|i: int| 0 <= i < items.len() && i != t ==> result[i] == items[i]
        &&& child_removed(items[t], result[t], target.1->Some_0 as int)
    } else {
        result == items
    }
}

/// The cursor `cur` after removing what `target` addresses from `items`.
pub open spec fn cursor_after_remove<S, G>(
    items: Seq<NestedListItem<S, G>>,
    cur: NestedCursor,
    target: NestedCursor,
) -> NestedCursor {
    let t = top_of(target);
    if removes_node(items, target) {
        if items.len() == 1 {
            empty_cursor()
        } else {
            match cur.0 {
                Some(k) => if t == k {
                    top_cursor(k.saturating_sub(1))
                } else if t < k {
                    NestedCursor(Some((k - 1) as usize), cur.1)
                } else {
                    cur
                },
                None => cur,
            }
        }
    } else if removes_child(items, target) {
        let j = target.1->Some_0;
        match (cur.0, cur.1) {
            (Some(k), Some(s)) => if k == t && j <= s {
                if s > 0 {
                    pair_cursor(k, (s - 1) as usize)
                } else if items[t].children().len() > 1 {
                    cur
                } else {
                    top_cursor(k)
                }
            } else {
                cur
            },
            _ => cur,
        }
    } else {
        cur
    }
}

/// `b` is a clone of node `a`: same shape, each payload cloned, same collapse flag.
pub open spec fn node_cloned<S: Clone, G: Clone>(a: NestedListItem<S, G>, b: NestedListItem<S, G>) -> bool {
    match (a, b) {
        (NestedListItem::Single(x), NestedListItem::Single(y)) => cloned(x, y),
        (
            NestedListItem::Group { inner: ia, items: ca, collapsed: fa },
            NestedListItem::Group { inner: ib, items: cb, collapsed: fb },
        ) => {
            &&& cloned(ia, ib)
            &&& fa == fb
            &&& cb@.len() == ca@.len()
            &&& forall|i: int| 0 <= i < ca@.len() ==> cloned(#[trigger] ca@[i], cb@[i])
        },
        _ => false,
    }
}

/// The payload under `c`: a leaf (top-level or child) or a group header.
pub open spec fn current_of<S, G>(items: Seq<NestedListItem<S, G>>, c: NestedCursor) -> Option<
    NestedListItemState<S, G>,
> {
    if !valid_pos(items, c) {
        None
    } else {
        match items[top_of(c)] {
            NestedListItem::Single(s) => Some(NestedListItemState::Single(s)),
            NestedListItem::Group { inner, items: ch, .. } => match c.1 {
                None => Some(NestedListItemState::Group(inner)),
                Some(j) => Some(NestedListItemState::Single(ch@[j as int])),
            },
        }
    }
}

/// State of the nested list: the item store and the cursor into it.
pub struct NestedListStateV2<S, G> {
    cursor: NestedCursor,
    list: Vec<NestedListItem<S, G>>,
}

impl<S, G> NestedListStateV2<S, G> {
    pub closed spec fn spec_items(&self) -> Seq<NestedListItem<S, G>> {
        self.list@
    }

    pub closed spec fn spec_cursor(&self) -> NestedCursor {
        self.cursor
    }

    /// The cursor addresses an existing position, or is empty exactly when the store is.
    pub open spec fn well_formed(&self) -> bool {
        if self.spec_items().len() == 0 {
            self.spec_cursor() == empty_cursor()
        } else {
            valid_pos(self.spec_items(), self.spec_cursor())
        }
    }

    pub fn new() -> (r: Self)
        ensures
            r.spec_items() == Seq::<NestedListItem<S, G>>::empty(),
            r.spec_cursor() == empty_cursor(),
            r.well_formed(),
    {
        NestedListStateV2 { cursor: NestedCursor::empty(), list: Vec::new() }
    }

    pub fn items(&self) -> (r: &Vec<NestedListItem<S, G>>)
        ensures
            r@ == self.spec_items(),
    {
        &self.list
    }

    /// A copy of the current cursor.
    pub fn cursor(&self) -> (r: NestedCursor)
        ensures
            r == self.spec_cursor(),
    {
        self.cursor
    }

    /// The current cursor's indices.
    pub fn index(&self) -> (r: (Idx, Idx))
        ensures
            r == (self.spec_cursor().0, self.spec_cursor().1),
    {
        self.cursor.inner()
    }

    /// Appends a node; the first node of an empty store becomes selected.
    pub fn insert(&mut self, item: NestedListItem<S, G>)
        ensures
            final(self).spec_items() == old(self).spec_items().push(item),
            final(self).spec_cursor() == (if old(self).spec_cursor() == empty_cursor() {
                top_cursor(0)
            } else {
                old(self).spec_cursor()
            }),
            old(self).well_formed() ==> final(self).well_formed(),
    {
        self.list.push(item);
        if self.cursor == NestedCursor::empty() {
            self.cursor.add_idx(0);
        }
    }
    /// Moves the cursor to the next position of the traversal order. A group's
    /// children are entered only where `is_enterable` holds of the group.
    pub fn next_v2<F>(&mut self, is_enterable: F) where F: Fn(&NestedListItem<S, G>) -> bool
        requires
            forall|n: &NestedListItem<S, G>| is_enterable.requires((n,)),
        ensures
            final(self).spec_items() == old(self).spec_items(),
            advanced_with(
                is_enterable,
                old(self).spec_items(),
                old(self).spec_cursor(),
                final(self).spec_cursor(),
            ),
            old(self).well_formed() ==> final(self).well_formed(),
    {
        let ghost items = self.list@;
        let ghost c = self.cursor;
        let mut enter = false;
        if let Some(idx) = self.cursor.0 {
            if idx < self.list.len() {
                let has_next = idx + 1 < self.list.len();
                let item = &self.list[idx];
                match item {
                    NestedListItem::Single(_) => {
                        if has_next {
                            self.cursor.set_idx(Some(idx + 1));
                        } else {
                            self.cursor.set_idx(Some(idx));
                        }
                    },
                    NestedListItem::Group { items: children, .. } => {
                        enter = is_enterable(item);
                        let n = children.len();
                        let at_last = match self.cursor.1 {
                            Some(j) => j as u128 + 1 == n as u128,
                            None => false,
                        };
                        if n == 0 || at_last || !enter {
                            if has_next {
                                self.cursor.set_idx(Some(idx + 1));
                            }
                        } else {
                            match self.cursor.1 {
                                Some(j) => {
                                    if j < n - 1 {
                                        self.cursor.set_sub_idx(Some(j + 1));
                                    }
                                },
                                None => self.cursor.set_sub_idx(Some(0)),
                            }
                        }
                    },
                }
            }
        }
        assert(next_pos(items, c, enter) == self.cursor);
        assert(answered(is_enterable, items, top_of(c), enter));
        assert(self.list@ == items);
    }

    /// Moves the cursor to the previous position of the traversal order. The
    /// previous group's children are entered only where `is_enterable` holds of it.
    pub fn prev_v2<F>(&mut self, is_enterable: F) where F: Fn(&NestedListItem<S, G>) -> bool
        requires
            forall|n: &NestedListItem<S, G>| is_enterable.requires((n,)),
        ensures
            final(self).spec_items() == old(self).spec_items(),
            retreated_with(
                is_enterable,
                old(self).spec_items(),
                old(self).spec_cursor(),
                final(self).spec_cursor(),
            ),
            old(self).well_formed() ==> final(self).well_formed(),
    {
        let ghost items = self.list@;
        let ghost c = self.cursor;
        let mut enter = false;
        if let Some(idx) = self.cursor.0 {
            if idx >= self.list.len() {
                enter = false;
            } else {
                let back = if idx == 0 {
                    self.cursor
                } else {
                    let prev = &self.list[idx - 1];
                    match prev {
                        NestedListItem::Single(_) => NestedCursor::from(idx - 1),
                        NestedListItem::Group { items: children, .. } => {
                            enter = is_enterable(prev);
                            if enter && children.len() > 0 {
                                NestedCursor::from((idx - 1, children.len() - 1))
                            } else {
                                NestedCursor::from(idx - 1)
                            }
                        },
                    }
                };
                match self.cursor.1 {
                    Some(j) => {
                        if self.list[idx].is_single() {
                            self.cursor = back;
                        } else if j > 0 {
                            self.cursor.set_sub_idx(Some(j - 1));
                        } else {
                            self.cursor.set_idx(Some(idx));
                        }
                    },
                    None => self.cursor = back,
                }
            }
        }
        assert(prev_pos(items, c, enter) == self.cursor);
        assert(answered(is_enterable, items, before_top(items, c), enter));
    }
    /// Removes the node, or the child of a group, that `target` addresses, and
    /// shifts the cursor so that it keeps addressing an existing position: a
    /// selected child at or after the removed one moves back by one; the first
    /// child stays selected while children remain, and the group header is
    /// selected once none do. A target that addresses nothing (out of range, or
    /// a child index on a leaf or past a group's children) is ignored.
    pub fn remove_by_cursor(&mut self, target: NestedCursor)
        ensures
            store_after_remove(old(self).spec_items(), target, final(self).spec_items()),
            final(self).spec_cursor() == cursor_after_remove(
                old(self).spec_items(),
                old(self).spec_cursor(),
                target,
            ),
            old(self).well_formed() ==> final(self).well_formed(),
    {
        let ghost items = self.list@;
        if let Some(idx) = target.0 {
            if idx < self.list.len() {
                if target.1.is_none() {
                    self.list.remove(idx);
                    if self.list.len() == 0 {
                        self.cursor = NestedCursor::empty();
                    } else if let Some(k) = self.cursor.0 {
                        if idx == k {
                            self.cursor.reduce_idx(1);
                        } else if idx < k {
                            self.cursor.0 = Some(k - 1);
                        }
                    }
                } else {
                    let j = target.1.unwrap();
                    let n = self.list[idx].count_children();
                    if j < n {
                        let ghost before = self.list@;
                        match &mut self.list[idx] {
                            NestedListItem::Group { items: children, .. } => {
                                children.remove(j);
                            },
                            NestedListItem::Single(_) => {},
                        }
                        assert(child_removed(before[idx as int], self.list@[idx as int], j as int));
                        if let (Some(k), Some(s)) = (self.cursor.0, self.cursor.1) {
                            if k == idx && j <= s {
                                if s > 0 {
                                    self.cursor.set_sub_idx(Some(s - 1));
                                } else if n == 1 {
                                    self.cursor.set_sub_idx(None);
                                }
                            }
                        }
                    }
                }
            }
        }
    }

    /// Removes what the cursor addresses.
    pub fn remove(&mut self)
        ensures
            store_after_remove(
                old(self).spec_items(),
                old(self).spec_cursor(),
                final(self).spec_items(),
            ),
            final(self).spec_cursor() == cursor_after_remove(
                old(self).spec_items(),
                old(self).spec_cursor(),
                old(self).spec_cursor(),
            ),
            old(self).well_formed() ==> final(self).well_formed(),
    {
        let target = self.cursor;
        self.remove_by_cursor(target);
    }
    /// The payload under the cursor: a leaf (top-level or child) or a group
    /// header; `None` where the cursor addresses nothing.
    pub fn current_inner(&self) -> (r: Option<NestedListItemState<&S, &G>>)
        ensures
            !valid_pos(self.spec_items(), self.spec_cursor()) ==> r is None,
            valid_pos(self.spec_items(), self.spec_cursor()) ==> match self.spec_items()[top_of(
                self.spec_cursor(),
            )] {
                NestedListItem::Single(s) => r == Some(NestedListItemState::<&S, &G>::Single(&s)),
                NestedListItem::Group { inner, items, .. } => match self.spec_cursor().1 {
                    None => r == Some(NestedListItemState::<&S, &G>::Group(&inner)),
                    Some(j) => r == Some(NestedListItemState::<&S, &G>::Single(&items@[j as int])),
                },
            },
    {
        match self.cursor.0 {
            None => None,
            Some(idx) => {
                if idx >= self.list.len() {
                    return None;
                }
                match &self.list[idx] {
                    NestedListItem::Single(single) => {
                        if self.cursor.1.is_some() {
                            None
                        } else {
                            Some(NestedListItemState::Single(single))
                        }
                    },
                    NestedListItem::Group { inner, items, .. } => match self.cursor.1 {
                        Some(j) => {
                            if j < items.len() {
                                Some(NestedListItemState::Single(&items[j]))
                            } else {
                                None
                            }
                        },
                        None => Some(NestedListItemState::Group(inner)),
                    },
                }
            },
        }
    }

    /// Sets the collapse flag of the group whose header the cursor addresses;
    /// nothing changes elsewhere, and nothing at all where the cursor is not on
    /// a group header.
    pub fn set_collapsed(&mut self, collapsed: bool)
        ensures
            final(self).spec_cursor() == old(self).spec_cursor(),
            collapse_result(
                old(self).spec_items(),
                old(self).spec_cursor(),
                collapsed,
                final(self).spec_items(),
            ),
            old(self).well_formed() ==> final(self).well_formed(),
    {
        let ghost before = self.list@;
        if let (Some(idx), None) = (self.cursor.0, self.cursor.1) {
            if idx < self.list.len() {
                match &mut self.list[idx] {
                    NestedListItem::Group { collapsed: flag, .. } => {
                        *flag = collapsed;
                    },
                    NestedListItem::Single(_) => {},
                }
                assert(self.list@ =~= before.update(
                    idx as int,
                    set_flag(before[idx as int], collapsed),
                ));
                proof {
                    if before[idx as int] is Single {
                        assert(self.list@ =~= before);
                    }
                }
            }
        }
    }
    /// The rows that the store shows: one line per node and one per child of a
    /// group that is not collapsed.
    pub fn rows(&self) -> (r: Vec<Row>)
        ensures
            r@ == rows_of(self.spec_items()),
    {
        let mut rows: Vec<Row> = Vec::new();
        let mut i: usize = 0;
        while i < self.list.len()
            invariant
                0 <= i <= self.list.len(),
                rows@ == rows_of(self.list@.take(i as int)),
            decreases self.list.len() - i,
        {
            let ghost before = rows@;
            rows.push(Row::L1 { height: 1 });
            let node = &self.list[i];
            let k = if node.is_open_group() {
                node.count_children()
            } else {
                0
            };
            let mut j: usize = 0;
            while j < k
                invariant
                    0 <= j <= k,
                    rows@ == before + seq![Row::L1 { height: 1 }] + Seq::new(
                        j as nat,
                        |_i: int| Row::L2 { height: 1 },
                    ),
                decreases k - j,
            {
                rows.push(Row::L2 { height: 1 });
                j = j + 1;
                assert(rows@ =~= before + seq![Row::L1 { height: 1 }] + Seq::new(
                    j as nat,
                    |_i: int| Row::L2 { height: 1 },
                ));
            }
            proof {
                let t = self.list@.take(i + 1);
                assert(t.drop_last() =~= self.list@.take(i as int));
                assert(t.last() == self.list@[i as int]);
                assert(rows@ =~= rows_of(t));
            }
            i = i + 1;
        }
        assert(self.list@.take(i as int) =~= self.list@);
        rows
    }

    /// The first and last position of the page, within `height` lines, that
    /// holds the cursor, over the rows that the store shows.
    pub fn visible_range(&self, height: usize) -> (r: (NestedCursor, NestedCursor))
        ensures
            r == visible_spec(rows_of(self.spec_items()), self.spec_cursor(), height as nat),
    {
        let list = NestedList::new(self.rows()).with_cursor(self.cursor);
        list.visible_list(height)
    }
}


impl<S, G> Default for NestedListStateV2<S, G> {
    fn default() -> (r: Self)
        ensures
            r.spec_items() == Seq::<NestedListItem<S, G>>::empty(),
            r.spec_cursor() == empty_cursor(),
    {
        NestedListStateV2::new()
    }
}

impl<S: Clone, G: Clone> NestedListStateV2<S, G> {
    /// Appends a copy of the top-level node under the cursor; with a child or
    /// nothing under the cursor, nothing changes.
    pub fn clone_at_cursor(&mut self)
        ensures
            final(self).spec_cursor() == old(self).spec_cursor(),
            ({
                let items = old(self).spec_items();
                let c = old(self).spec_cursor();
                if valid_pos(items, c) && c.1 is None {
                    &&& final(self).spec_items().len() == items.len() + 1
                    &&& final(self).spec_items().take(items.len() as int) == items
                    &&& node_cloned(items[top_of(c)], final(self).spec_items().last())
                } else {
                    final(self).spec_items() == items
                }
            }),
            old(self).well_formed() ==> final(self).well_formed(),
    {
        if let (Some(idx), None) = (self.cursor.0, self.cursor.1) {
            if idx < self.list.len() {
                let copy = match &self.list[idx] {
                    NestedListItem::Single(single) => NestedListItem::Single(single.clone()),
                    NestedListItem::Group { inner, items, collapsed } => NestedListItem::Group {
                        inner: inner.clone(),
                        items: items.clone(),
                        collapsed: *collapsed,
                    },
                };
                let ghost before = self.list@;
                self.insert(copy);
                assert(self.list@.take(before.len() as int) =~= before);
            }
        }
    }
}

} // verus!
