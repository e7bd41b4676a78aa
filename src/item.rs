//! Building blocks for a two-level list: a leaf and a group that owns leaves.
use vstd::prelude::*;

verus! {

/// What a node of the two-level list holds: a leaf payload or a group payload.
pub enum NestedListITemState<S, M> {
    Single(S),
    Multiple(M),
}

/// A node of the two-level list: a leaf or a group of leaves.
pub enum NestedListItem<S, M> {
    Single(SingleItem<S>),
    Multiple(GroupItem<M, S>),
}

impl<S, M> NestedListItem<S, M> {
    pub fn single(inner: S) -> (r: Self)
        ensures
            r == NestedListItem::<S, M>::Single(SingleItem(inner)),
    {
        NestedListItem::Single(SingleItem(inner))
    }

    pub fn multiple(inner: M) -> (r: Self)
        ensures
            r matches NestedListItem::Multiple(g) && g.spec_inner() == inner && g.spec_items()
                == Seq::<SingleItem<S>>::empty(),
    {
        NestedListItem::Multiple(GroupItem::new(inner))
    }
}

/// A leaf of the list.
#[derive(Clone)]
pub struct SingleItem<T>(pub T);

/// A group header with its ordered leaf children.
#[derive(Clone)]
pub struct GroupItem<G, S> {
    inner: G,
    items: Vec<SingleItem<S>>,
}

impl<G, S> GroupItem<G, S> {
    pub closed spec fn spec_inner(&self) -> G {
        self.inner
    }

    pub closed spec fn spec_items(&self) -> Seq<SingleItem<S>> {
        self.items@
    }

    pub fn new(inner: G) -> (r: Self)
        ensures
            r.spec_inner() == inner,
            r.spec_items() == Seq::<SingleItem<S>>::empty(),
    {
        GroupItem { inner, items: Vec::new() }
    }

    pub fn inner(&self) -> (r: &G)
        ensures
            *r == self.spec_inner(),
    {
        &self.inner
    }

    pub fn sub_items(&self) -> (r: &Vec<SingleItem<S>>)
        ensures
            r@ == self.spec_items(),
    {
        &self.items
    }

    /// Replaces the children.
    pub fn with_children(self, items: Vec<SingleItem<S>>) -> (r: Self)
        ensures
            r.spec_inner() == self.spec_inner(),
            r.spec_items() == items@,
    {
        GroupItem { inner: self.inner, items }
    }

    pub fn has_children(&self) -> (r: bool)
        ensures
            r == (self.spec_items().len() > 0),
    {
        self.items.len() > 0
    }

    pub fn count_children(&self) -> (r: usize)
        ensures
            r == self.spec_items().len(),
    {
        self.items.len()
    }

    /// Removes child `index`; an index past the last child is ignored.
    pub fn remove_child(&mut self, index: usize)
        ensures
            final(self).spec_inner() == old(self).spec_inner(),
            final(self).spec_items() == (if index < old(self).spec_items().len() {
                old(self).spec_items().remove(index as int)
            } else {
                old(self).spec_items()
            }),
    {
        if index < self.items.len() {
            self.items.remove(index);
        }
    }

    pub fn child(&self, idx: usize) -> (r: &SingleItem<S>)
        requires
            idx < self.spec_items().len(),
        ensures
            *r == self.spec_items()[idx as int],
    {
        &self.items[idx]
    }

    pub fn add_child(&mut self, item: SingleItem<S>)
        ensures
            final(self).spec_inner() == old(self).spec_inner(),
            final(self).spec_items() == old(self).spec_items().push(item),
    {
        self.items.push(item);
    }
}

} // verus!
