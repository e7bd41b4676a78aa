//! Nodes of the item store: a leaf, or a group header that owns leaf children.
use vstd::prelude::*;

verus! {

/// What the cursor addresses: a leaf payload or a group header payload.
pub enum NestedListItemState<S, G> {
    Single(S),
    Group(G),
}

/// An element of the item store.
///
/// A `Group` owns an ordered, possibly empty sequence of leaf children; while it
/// is `collapsed` its children stay stored but take no part in traversal or
/// rendering.
pub enum NestedListItem<S, G> {
    Single(S),
    Group { inner: G, items: Vec<S>, collapsed: bool },
}

impl<S, G> NestedListItem<S, G> {
    /// The children of a group; a leaf has none.
    pub open spec fn children(self) -> Seq<S> {
        match self {
            NestedListItem::Single(_) => Seq::empty(),
            NestedListItem::Group { items, .. } => items@,
        }
    }

    /// A group whose children take part in traversal under the collapse flag.
    pub open spec fn is_open(self) -> bool {
        match self {
            NestedListItem::Single(_) => true,
            NestedListItem::Group { collapsed, .. } => !collapsed,
        }
    }

    pub fn is_single(&self) -> (r: bool)
        ensures
            r == (*self is Single),
    {
        match self {
            NestedListItem::Single(_) => true,
            NestedListItem::Group { .. } => false,
        }
    }

    pub fn is_group(&self) -> (r: bool)
        ensures
            r == (*self is Group),
    {
        !self.is_single()
    }

    /// The payload of this node: the leaf, or the group header.
    pub fn inner(&self) -> (r: NestedListItemState<&S, &G>)
        ensures
            match *self {
                NestedListItem::Single(s) => r == NestedListItemState::<&S, &G>::Single(&s),
                NestedListItem::Group { inner, .. } => r == NestedListItemState::<&S, &G>::Group(
                    &inner,
                ),
            },
    {
        match self {
            NestedListItem::Single(inner) => NestedListItemState::Single(inner),
            NestedListItem::Group { inner, .. } => NestedListItemState::Group(inner),
        }
    }

    /// Number of children (0 for a leaf).
    pub fn count_children(&self) -> (r: usize)
        ensures
            r == self.children().len(),
    {
        match self {
            NestedListItem::Single(_) => 0,
            NestedListItem::Group { items, .. } => items.len(),
        }
    }

    /// Whether this node is a group that is not collapsed.
    pub fn is_open_group(&self) -> (r: bool)
        ensures
            r == (*self is Group && self.is_open()),
    {
        match self {
            NestedListItem::Single(_) => false,
            NestedListItem::Group { collapsed, .. } => !*collapsed,
        }
    }
}

} // verus!
