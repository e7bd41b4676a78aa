//! The collections sidebar: saved requests grouped into collections, browsed
//! with the list engine.
use crate::cursor::NestedCursor;
use crate::element::EffectCommand;
use crate::list::{current_of, node_cloned, NestedListStateV2};
use crate::traversal::{
    advance_by, collapse_result, lemma_advanced_as, lemma_retreated_as, open_groups, retreat_by,
    top_of, valid_pos,
};
use crate::node::{NestedListItem, NestedListItemState};
use vstd::prelude::*;

verus! {

/// The sidebar element; it keeps whether its popup is shown.
pub struct Collections {
    pub show_popup: bool,
}

impl Collections {
    pub fn new() -> (r: Self)
        ensures
            !r.show_popup,
    {
        Collections { show_popup: false }
    }
}

/// A collection: the header of a group of saved requests.
#[derive(Clone)]
pub struct CollectionItem {
    pub name: String,
}

impl CollectionItem {
    pub fn new(name: String) -> (r: Self)
        ensures
            r.name == name,
    {
        CollectionItem { name }
    }
}

/// A saved request.
#[derive(Clone)]
pub struct RequestItem {
    pub name: String,
    pub method: String,
    pub url: String,
}

impl RequestItem {
    pub fn new(name: String, method: String, url: String) -> (r: Self)
        ensures
            r.name == name,
            r.method == method,
            r.url == url,
    {
        RequestItem { name, method, url }
    }
}

/// Method that a collection header puts into the request form.
pub open spec fn header_method() -> Seq<char> {
    "GET"@
}

/// URL that a collection header puts into the request form.
pub open spec fn header_url() -> Seq<char> {
    "http://localhost:3000"@
}

/// The state of the sidebar: requests and collections in a nested list.
pub struct CollectionState {
    pub list: NestedListStateV2<RequestItem, CollectionItem>,
}

impl Default for CollectionState {
    fn default() -> (r: Self)
        ensures
            r.list.spec_items().len() == 0,
            r.list.spec_cursor() == NestedCursor(None, None),
    {
        CollectionState { list: NestedListStateV2::new() }
    }
}

impl CollectionState {
    /// Moves down; collapsed collections are stepped over.
    pub fn next(&mut self)
        ensures
            final(self).list.spec_items() == old(self).list.spec_items(),
            final(self).list.spec_cursor() == advance_by(
                old(self).list.spec_items(),
                old(self).list.spec_cursor(),
                open_groups(),
            ),
            old(self).list.well_formed() ==> final(self).list.well_formed(),
    {
        let f = |itm: &NestedListItem<RequestItem, CollectionItem>| -> (r: bool)
            ensures
                r == itm.is_open(),
            {
                match itm {
                    NestedListItem::Single(_) => true,
                    NestedListItem::Group { collapsed, .. } => !*collapsed,
                }
            };
        let ghost items = self.list.spec_items();
        let ghost c = self.list.spec_cursor();
        self.list.next_v2(f);
        proof {
            lemma_advanced_as(f, items, c, self.list.spec_cursor(), open_groups());
        }
    }

    /// Moves up; collapsed collections are stepped over.
    pub fn prev(&mut self)
        ensures
            final(self).list.spec_items() == old(self).list.spec_items(),
            final(self).list.spec_cursor() == retreat_by(
                old(self).list.spec_items(),
                old(self).list.spec_cursor(),
                open_groups(),
            ),
            old(self).list.well_formed() ==> final(self).list.well_formed(),
    {
        let f = |itm: &NestedListItem<RequestItem, CollectionItem>| -> (r: bool)
            ensures
                r == itm.is_open(),
            {
                match itm {
                    NestedListItem::Single(_) => true,
                    NestedListItem::Group { collapsed, .. } => !*collapsed,
                }
            };
        let ghost items = self.list.spec_items();
        let ghost c = self.list.spec_cursor();
        self.list.prev_v2(f);
        proof {
            lemma_retreated_as(f, items, c, self.list.spec_cursor(), open_groups());
        }
    }

    /// Collapses the collection whose header is selected.
    pub fn close_group(&mut self)
        ensures
            final(self).list.spec_cursor() == old(self).list.spec_cursor(),
            collapse_result(
                old(self).list.spec_items(),
                old(self).list.spec_cursor(),
                true,
                final(self).list.spec_items(),
            ),
            old(self).list.well_formed() ==> final(self).list.well_formed(),
    {
        self.list.set_collapsed(true);
    }

    /// Opens the collection whose header is selected.
    pub fn open_group(&mut self)
        ensures
            final(self).list.spec_cursor() == old(self).list.spec_cursor(),
            collapse_result(
                old(self).list.spec_items(),
                old(self).list.spec_cursor(),
                false,
                final(self).list.spec_items(),
            ),
            old(self).list.well_formed() ==> final(self).list.well_formed(),
    {
        self.list.set_collapsed(false);
    }

    /// Appends an open collection holding `sub_items`.
    pub fn add_item(&mut self, item: CollectionItem, sub_items: Vec<RequestItem>)
        ensures
            final(self).list.spec_items() == old(self).list.spec_items().push(
                NestedListItem::Group { inner: item, items: sub_items, collapsed: false },
            ),
            final(self).list.spec_cursor() == (if old(self).list.spec_cursor() == NestedCursor(
                None,
                None,
            ) {
                NestedCursor(Some(0), None)
            } else {
                old(self).list.spec_cursor()
            }),
            old(self).list.well_formed() ==> final(self).list.well_formed(),
    {
        self.list.insert(NestedListItem::Group { inner: item, items: sub_items, collapsed: false });
    }

    /// Appends a copy of the selected request or collection.
    pub fn clone_item(&mut self)
        ensures
            final(self).list.spec_cursor() == old(self).list.spec_cursor(),
            ({
                let items = old(self).list.spec_items();
                let c = old(self).list.spec_cursor();
                if valid_pos(items, c) && c.1 is None {
                    &&& final(self).list.spec_items().len() == items.len() + 1
                    &&& final(self).list.spec_items().take(items.len() as int) == items
                    &&& node_cloned(
                        items[top_of(c)],
                        final(self).list.spec_items().last(),
                    )
                } else {
                    final(self).list.spec_items() == items
                }
            }),
            old(self).list.well_formed() ==> final(self).list.well_formed(),
    {
        self.list.clone_at_cursor();
    }

    pub fn cursor(&self) -> (r: NestedCursor)
        ensures
            r == self.list.spec_cursor(),
    {
        self.list.cursor()
    }

    /// What the selection asks of the request form: a request fills in its own
    /// method and URL, a collection header a default pair, and no selection nothing.
    pub fn current_effect(&self) -> (r: EffectCommand)
        ensures
            match current_of(self.list.spec_items(), self.list.spec_cursor()) {
                Some(NestedListItemState::Single(req)) => r == EffectCommand::SetRequest {
                    method: req.method,
                    url: req.url,
                },
                Some(NestedListItemState::Group(_)) => r matches EffectCommand::SetRequest {
                    method,
                    url,
                } && method@ == header_method() && url@ == header_url(),
                None => r is Nothing,
            },
    {
        match self.list.current_inner() {
            Some(NestedListItemState::Single(request)) => EffectCommand::SetRequest {
                method: request.method.clone(),
                url: request.url.clone(),
            },
            Some(NestedListItemState::Group(_)) => EffectCommand::SetRequest {
                method: "GET".to_owned(),
                url: "http://localhost:3000".to_owned(),
            },
            None => EffectCommand::Nothing,
        }
    }
}

} // verus!
