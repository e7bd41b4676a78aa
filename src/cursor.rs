//! Position descriptor into a two-level list.
use std::cmp::Ordering;
use vstd::prelude::*;

verus! {

pub type IdxType = usize;

pub type Idx = Option<IdxType>;

/// A position in a list that is nested one level deep: `(top, sub)`.
///
/// `(None, None)` selects nothing; `(Some(i), None)` selects top-level item `i`;
/// `(Some(i), Some(j))` selects child `j` of item `i`.
#[derive(Clone, Copy, Debug, PartialEq, Eq, Structural)]
pub struct NestedCursor(pub Idx, pub Idx);

/// Order on optional indices: `None` comes before every `Some`.
pub open spec fn idx_cmp(a: Idx, b: Idx) -> Ordering {
    match (a, b) {
        (None, None) => Ordering::Equal,
        (None, Some(_)) => Ordering::Less,
        (Some(_), None) => Ordering::Greater,
        (Some(x), Some(y)) => if x < y {
            Ordering::Less
        } else if x == y {
            Ordering::Equal
        } else {
            Ordering::Greater
        },
    }
}

/// Lexicographic order on cursors: first by `top`, then by `sub`.
pub open spec fn cursor_cmp(a: NestedCursor, b: NestedCursor) -> Ordering {
    match idx_cmp(a.0, b.0) {
        Ordering::Equal => idx_cmp(a.1, b.1),
        o => o,
    }
}

pub open spec fn cursor_lt(a: NestedCursor, b: NestedCursor) -> bool {
    cursor_cmp(a, b) == Ordering::Less
}

pub open spec fn cursor_le(a: NestedCursor, b: NestedCursor) -> bool {
    cursor_cmp(a, b) != Ordering::Greater
}

pub open spec fn empty_cursor() -> NestedCursor {
    NestedCursor(None, None)
}

pub open spec fn top_cursor(i: usize) -> NestedCursor {
    NestedCursor(Some(i), None)
}

pub open spec fn pair_cursor(i: usize, j: usize) -> NestedCursor {
    NestedCursor(Some(i), Some(j))
}

fn idx_compare(a: Idx, b: Idx) -> (r: Ordering)
    ensures
        r == idx_cmp(a, b),
{
    match (a, b) {
        (None, None) => Ordering::Equal,
        (None, Some(_)) => Ordering::Less,
        (Some(_), None) => Ordering::Greater,
        (Some(x), Some(y)) => if x < y {
            Ordering::Less
        } else if x == y {
            Ordering::Equal
        } else {
            Ordering::Greater
        },
    }
}

impl NestedCursor {
    /// A sub index is only present together with a top index.
    pub open spec fn well_formed(self) -> bool {
        self.1 is Some ==> self.0 is Some
    }

    pub fn new(idx: Idx, sub_idx: Idx) -> (r: Self)
        ensures
            r.0 == idx,
            r.1 == (if idx is None { None } else { sub_idx }),
            r.well_formed(),
    {
        let sub_idx = if idx.is_none() {
            None
        } else {
            sub_idx
        };
        NestedCursor(idx, sub_idx)
    }

    pub fn empty() -> (r: Self)
        ensures
            r == empty_cursor(),
    {
        NestedCursor(None, None)
    }

    #[inline]
    pub fn inner(&self) -> (r: (Idx, Idx))
        ensures
            r == (self.0, self.1),
    {
        (self.0, self.1)
    }

    pub fn idx(&self) -> (r: &Idx)
        ensures
            *r == self.0,
    {
        &self.0
    }

    pub fn sub_idx(&self) -> (r: &Idx)
        ensures
            *r == self.1,
    {
        &self.1
    }

    /// Moves the top index forward by `n`, saturating; an absent top index becomes 0.
    pub fn add_idx(&mut self, n: IdxType)
        ensures
            *final(self) == top_cursor(
                match old(self).0 {
                    Some(i) => i.saturating_add(n),
                    None => 0,
                },
            ),
    {
        let count = match self.0 {
            Some(i) => i.saturating_add(n),
            None => 0,
        };
        self.set_idx(Some(count))
    }

    /// Moves the sub index forward by `n`, saturating; an absent sub index becomes 0.
    /// Nothing is selected below an absent top index.
    pub fn add_sub_idx(&mut self, n: IdxType)
        ensures
            final(self).0 == old(self).0,
            final(self).1 == (if old(self).0 is None {
                None
            } else {
                Some(
                    match old(self).1 {
                        Some(j) => j.saturating_add(n),
                        None => 0,
                    },
                )
            }),
    {
        let count = match self.1 {
            Some(j) => j.saturating_add(n),
            None => 0,
        };
        self.set_sub_idx(Some(count))
    }

    /// Moves the top index back by `n`, saturating at 0; clears the sub index.
    pub fn reduce_idx(&mut self, n: IdxType)
        ensures
            *final(self) == (match old(self).0 {
                Some(i) => top_cursor(i.saturating_sub(n)),
                None => empty_cursor(),
            }),
    {
        match self.0 {
            Some(i) => self.set_idx(Some(i.saturating_sub(n))),
            None => self.set_idx(None),
        }
    }

    /// Moves the sub index back by `n`; below 0 it is cleared.
    pub fn reduce_sub_idx(&mut self, n: IdxType)
        ensures
            final(self).0 == old(self).0,
            final(self).1 == (match old(self).1 {
                Some(j) => if old(self).0 is Some && j >= n {
                    Some((j - n) as usize)
                } else {
                    None
                },
                None => None,
            }),
    {
        match self.1 {
            Some(j) => {
                if j >= n {
                    self.set_sub_idx(Some(j - n));
                } else {
                    self.set_sub_idx(None);
                }
            },
            None => self.set_sub_idx(None),
        }
    }

    /// Selects a top-level item (or nothing); the sub index is always cleared.
    pub fn set_idx(&mut self, idx: Idx)
        ensures
            *final(self) == NestedCursor(idx, None),
    {
        match idx {
            Some(i) => {
                self.0 = Some(i);
                self.1 = None;
            },
            None => {
                self.0 = None;
                self.1 = None;
            },
        }
    }

    /// Sets the sub index; it stays absent while no top index is selected.
    pub fn set_sub_idx(&mut self, sub_idx: Idx)
        ensures
            final(self).0 == old(self).0,
            final(self).1 == (if old(self).0 is Some { sub_idx } else { None }),
    {
        if self.0.is_some() {
            self.1 = sub_idx;
        } else {
            self.1 = None
        }
    }

    /// Compares two cursors by the order of [`cursor_cmp`].
    pub fn compare(&self, other: &Self) -> (r: Ordering)
        ensures
            r == cursor_cmp(*self, *other),
    {
        match idx_compare(self.0, other.0) {
            Ordering::Equal => idx_compare(self.1, other.1),
            o => o,
        }
    }

    pub fn le(&self, other: &Self) -> (r: bool)
        ensures
            r == cursor_le(*self, *other),
    {
        match self.compare(other) {
            Ordering::Greater => false,
            _ => true,
        }
    }
}

impl Default for NestedCursor {
    fn default() -> (r: Self)
        ensures
            r == empty_cursor(),
    {
        NestedCursor(None, None)
    }
}

impl From<(IdxType, IdxType)> for NestedCursor {
    fn from(value: (IdxType, IdxType)) -> (r: Self)
        ensures
            r == pair_cursor(value.0, value.1),
    {
        NestedCursor(Some(value.0), Some(value.1))
    }
}

impl vstd::std_specs::convert::FromSpecImpl<(IdxType, IdxType)> for NestedCursor {
    open spec fn obeys_from_spec() -> bool {
        true
    }

    open spec fn from_spec(v: (IdxType, IdxType)) -> Self {
        pair_cursor(v.0, v.1)
    }
}

impl From<IdxType> for NestedCursor {
    fn from(value: IdxType) -> (r: Self)
        ensures
            r == top_cursor(value),
    {
        NestedCursor(Some(value), None)
    }
}

impl vstd::std_specs::convert::FromSpecImpl<IdxType> for NestedCursor {
    open spec fn obeys_from_spec() -> bool {
        true
    }

    open spec fn from_spec(v: IdxType) -> Self {
        top_cursor(v)
    }
}

impl PartialOrd for NestedCursor {
    fn partial_cmp(&self, other: &Self) -> (r: Option<Ordering>)
        ensures
            r == Some(cursor_cmp(*self, *other)),
    {
        Some(self.compare(other))
    }
}

impl vstd::std_specs::cmp::PartialOrdSpecImpl for NestedCursor {
    open spec fn obeys_partial_cmp_spec() -> bool {
        true
    }

    open spec fn partial_cmp_spec(&self, other: &Self) -> Option<Ordering> {
        Some(cursor_cmp(*self, *other))
    }
}

/// The cursor order is total: of `a < b`, `a == b` and `b < a` exactly one holds.
pub proof fn lemma_cursor_order_total(a: NestedCursor, b: NestedCursor)
    ensures
        cursor_lt(a, b) || a == b || cursor_lt(b, a),
        !(cursor_lt(a, b) && a == b),
        !(cursor_lt(a, b) && cursor_lt(b, a)),
        !(a == b && cursor_lt(b, a)),
        cursor_cmp(a, b) == Ordering::Equal <==> a == b,
{
}

/// The cursor order is transitive.
pub proof fn lemma_cursor_order_transitive(a: NestedCursor, b: NestedCursor, c: NestedCursor)
    ensures
        cursor_lt(a, b) && cursor_lt(b, c) ==> cursor_lt(a, c),
        cursor_le(a, b) && cursor_le(b, c) ==> cursor_le(a, c),
{
}

} // verus!
