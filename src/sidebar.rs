//! A simpler sidebar state: collections of named requests, every collection
//! always open, with a `(collection, request)` cursor.
use crate::index::next_index;
use vstd::prelude::*;

verus! {

/// A named request of a collection.
pub struct CollectionRequest {
    name: String,
}

impl View for CollectionRequest {
    type V = Seq<char>;

    closed spec fn view(&self) -> Seq<char> {
        self.name@
    }
}

impl CollectionRequest {
    pub fn new(name: String) -> (r: Self)
        ensures
            r@ == name@,
    {
        CollectionRequest { name }
    }
}

/// A named collection of requests.
pub struct Collection {
    name: String,
    requests: Vec<CollectionRequest>,
}

impl Collection {
    pub closed spec fn spec_name(&self) -> Seq<char> {
        self.name@
    }

    pub closed spec fn spec_requests(&self) -> Seq<CollectionRequest> {
        self.requests@
    }

    pub fn with_name(name: String) -> (r: Self)
        ensures
            r.spec_name() == name@,
            r.spec_requests() == Seq::<CollectionRequest>::empty(),
    {
        Collection { name, requests: Vec::new() }
    }

    /// Adds a request with the given name at the end.
    pub fn append(&mut self, request_name: String)
        ensures
            final(self).spec_name() == old(self).spec_name(),
            final(self).spec_requests().len() == old(self).spec_requests().len() + 1,
            final(self).spec_requests().drop_last() == old(self).spec_requests(),
            final(self).spec_requests().last()@ == request_name@,
    {
        self.requests.push(CollectionRequest { name: request_name });
        assert(self.requests@.drop_last() =~= old(self).requests@);
    }
}

impl Default for Collection {
    fn default() -> (r: Self)
        ensures
            r.spec_name() == Seq::<char>::empty(),
            r.spec_requests() == Seq::<CollectionRequest>::empty(),
    {
        Collection { name: String::new(), requests: Vec::new() }
    }
}

/// The cursor of the sidebar: a collection index and a request index within it.
pub type CollectionCursor = (Option<usize>, Option<usize>);

/// Collections with a cursor over them.
pub struct CollectionsState {
    collections: Vec<Collection>,
    cursor: CollectionCursor,
}

/// Where `next` moves the cursor: through the requests of a collection, then on
/// to the next collection.
pub open spec fn sidebar_next(colls: Seq<Collection>, c: CollectionCursor) -> CollectionCursor {
    match c {
        (Some(ci), Some(ri)) => if ci >= colls.len() {
            c
        } else if ri + 1 < colls[ci as int].spec_requests().len() {
            (Some(ci), Some((ri + 1) as usize))
        } else if ci + 1 < colls.len() {
            (Some((ci + 1) as usize), None)
        } else {
            c
        },
        (Some(ci), None) => if ci >= colls.len() {
            c
        } else if colls[ci as int].spec_requests().len() > 0 {
            (Some(ci), Some(0))
        } else if ci + 1 < colls.len() {
            (Some((ci + 1) as usize), None)
        } else {
            c
        },
        _ => if colls.len() > 0 {
            (Some(0), None)
        } else {
            c
        },
    }
}

impl CollectionsState {
    pub closed spec fn spec_collections(&self) -> Seq<Collection> {
        self.collections@
    }

    pub closed spec fn spec_cursor(&self) -> CollectionCursor {
        self.cursor
    }

    /// Starts with the first collection selected, if there is one.
    pub fn with_collections(collections: Vec<Collection>) -> (r: Self)
        ensures
            r.spec_collections() == collections@,
            r.spec_cursor() == (if collections@.len() == 0 {
                (None::<usize>, None::<usize>)
            } else {
                (Some(0usize), None)
            }),
    {
        let cursor = if collections.len() == 0 {
            (None, None)
        } else {
            (Some(0), None)
        };
        CollectionsState { collections, cursor }
    }

    /// Adds a collection; the first one added becomes selected.
    pub fn append_collection(&mut self, collection: Collection)
        ensures
            final(self).spec_collections() == old(self).spec_collections().push(collection),
            final(self).spec_cursor() == (if old(self).spec_collections().len() == 0 {
                (Some(0usize), None)
            } else {
                old(self).spec_cursor()
            }),
    {
        self.collections.push(collection);
        if self.collections.len() == 1 {
            self.cursor = (Some(0), None);
        }
    }

    /// Adds a request to the selected collection; the first request of a
    /// collection becomes selected. Without a selected collection nothing changes.
    pub fn append_request(&mut self, request: CollectionRequest)
        ensures
            ({
                let colls = old(self).spec_collections();
                let c = old(self).spec_cursor();
                if c.0 is Some && c.0->Some_0 < colls.len() {
                    let ci = c.0->Some_0;
                    let old_c = colls[ci as int];
                    let new_c = final(self).spec_collections()[ci as int];
                    &&& final(self).spec_collections().len() == colls.len()
                    &&& forall|i: int|
                        0 <= i < colls.len() && i != ci ==> final(self).spec_collections()[i]
                            == colls[i]
                    &&& new_c.spec_name() == old_c.spec_name()
                    &&& new_c.spec_requests() == old_c.spec_requests().push(request)
                    &&& final(self).spec_cursor() == (if old_c.spec_requests().len() == 0 {
                        (Some(ci), Some(0usize))
                    } else {
                        c
                    })
                } else {
                    &&& final(self).spec_collections() == colls
                    &&& final(self).spec_cursor() == c
                }
            }),
    {
        if let Some(ci) = self.cursor.0 {
            if ci < self.collections.len() {
                let mut coll = self.collections.remove(ci);
                coll.requests.push(request);
                let first = coll.requests.len() == 1;
                self.collections.insert(ci, coll);
                if first {
                    self.cursor = (Some(ci), Some(0));
                }
                assert(self.collections@.len() == old(self).collections@.len());
            }
        }
    }

    /// The selected collection.
    pub fn get_current_collection(&self) -> (r: Option<&Collection>)
        ensures
            r == (if self.spec_cursor().0 is Some && self.spec_cursor().0->Some_0
                < self.spec_collections().len() {
                Some(&self.spec_collections()[self.spec_cursor().0->Some_0 as int])
            } else {
                None
            }),
    {
        if let Some(ci) = self.cursor.0 {
            if ci < self.collections.len() {
                return Some(&self.collections[ci]);
            }
        }
        None
    }

    /// The selected request.
    pub fn get_current_request(&self) -> (r: Option<&CollectionRequest>)
        ensures
            ({
                let colls = self.spec_collections();
                let (c0, c1) = self.spec_cursor();
                if c0 is Some && c1 is Some && c0->Some_0 < colls.len() && c1->Some_0
                    < colls[c0->Some_0 as int].spec_requests().len() {
                    r == Some(&colls[c0->Some_0 as int].spec_requests()[c1->Some_0 as int])
                } else {
                    r is None
                }
            }),
    {
        if let (Some(ci), Some(ri)) = self.cursor {
            if ci < self.collections.len() {
                let coll = &self.collections[ci];
                if ri < coll.requests.len() {
                    return Some(&coll.requests[ri]);
                }
            }
        }
        None
    }

    /// Moves the cursor down through requests and collections.
    pub fn next(&mut self)
        ensures
            final(self).spec_collections() == old(self).spec_collections(),
            final(self).spec_cursor() == sidebar_next(
                old(self).spec_collections(),
                old(self).spec_cursor(),
            ),
    {
        match self.cursor {
            (Some(ci), Some(ri)) => {
                if ci < self.collections.len() {
                    match next_index(&self.collections[ci].requests, ri) {
                        Some(next) => {
                            self.cursor = (Some(ci), Some(next));
                        },
                        None => {
                            if let Some(next) = next_index(&self.collections, ci) {
                                self.cursor = (Some(next), None);
                            }
                        },
                    }
                }
            },
            (Some(ci), None) => {
                if ci < self.collections.len() {
                    if self.collections[ci].requests.len() > 0 {
                        self.cursor = (Some(ci), Some(0))
                    } else if let Some(next) = next_index(&self.collections, ci) {
                        self.cursor = (Some(next), None);
                    }
                }
            },
            _ => {
                if self.collections.len() > 0 {
                    self.cursor = (Some(0), None);
                }
            },
        }
    }

    /// Removing from this sidebar is not offered: nothing changes.
    pub fn remove(&mut self)
        ensures
            final(self).spec_collections() == old(self).spec_collections(),
            final(self).spec_cursor() == old(self).spec_cursor(),
    {
    }
}

impl Default for CollectionsState {
    fn default() -> (r: Self)
        ensures
            r.spec_collections() == Seq::<Collection>::empty(),
            r.spec_cursor() == (None::<usize>, None::<usize>),
    {
        CollectionsState { collections: Vec::new(), cursor: (None, None) }
    }
}

} // verus!
