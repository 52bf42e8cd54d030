//! A write-once cache cell for a gas price.
//!
//! The cell starts empty or pre-populated and follows a first-writer-wins
//! discipline: `set_if_absent` stores its argument only when the cell is
//! still empty, and always hands back the value the cell holds afterwards.
//! Once the cell holds a value it never changes, so every caller observes
//! one consistent value for the lifetime of the cell.

use vstd::prelude::*;

verus! {

/// A cell holding an optional price that can be written at most once.
pub struct WriteOnceCell {
    /// The stored value, if one has been committed.
    pub value: Option<u128>,
}

/// The cell after one `set_if_absent` with argument `v`: an empty cell
/// commits `v`; a populated cell is left as it is.
pub open spec fn committed(c: WriteOnceCell, v: u128) -> WriteOnceCell {
    if c.value is Some {
        c
    } else {
        WriteOnceCell { value: Some(v) }
    }
}

/// The value one `set_if_absent` with argument `v` hands back: the stored
/// value when the cell is populated, else `v` itself.
pub open spec fn observed(c: WriteOnceCell, v: u128) -> u128 {
    if c.value is Some {
        c.value->0
    } else {
        v
    }
}

/// The cell after a whole sequence of `set_if_absent` calls, one per element
/// of `vs` in order.
pub open spec fn committed_all(c: WriteOnceCell, vs: Seq<u128>) -> WriteOnceCell
    decreases vs.len(),
{
    if vs.len() == 0 {
        c
    } else {
        committed_all(committed(c, vs[0]), vs.skip(1))
    }
}

/// The values a sequence of `set_if_absent` calls hands back, one per element
/// of `vs` in order.
pub open spec fn observations(c: WriteOnceCell, vs: Seq<u128>) -> Seq<u128>
    decreases vs.len(),
{
    if vs.len() == 0 {
        Seq::empty()
    } else {
        seq![observed(c, vs[0])] + observations(committed(c, vs[0]), vs.skip(1))
    }
}

impl WriteOnceCell {
    /// A cell that is pre-populated when a value is supplied, else empty.
    pub fn new(value: Option<u128>) -> (r: WriteOnceCell)
        ensures
            r.value == value,
    {
        WriteOnceCell { value }
    }

    /// The stored value, if any. Reading commits nothing.
    pub fn get(&self) -> (r: Option<u128>)
        ensures
            r == self.value,
    {
        self.value
    }

    /// Stores `v` only when the cell is still empty, and returns the value
    /// the cell holds afterwards: the first committed value wins, and a
    /// later argument is discarded.
    pub fn set_if_absent(&mut self, v: u128) -> (r: u128)
        ensures
            *final(self) == committed(*old(self), v),
            r == observed(*old(self), v),
            final(self).value == Some(r),
    {
        match self.value {
            Some(stored) => stored,
            None => {
                self.value = Some(v);
                v
            },
        }
    }
}

/// Once a cell holds a value, any further sequence of `set_if_absent` calls
/// leaves it unchanged, and every caller observes that same stored value.
pub proof fn lemma_populated_cell_is_constant(c: WriteOnceCell, vs: Seq<u128>)
    requires
        c.value is Some,
    ensures
        committed_all(c, vs) == c,
        observations(c, vs).len() == vs.len(),
        forall|i: int| 0 <= i < vs.len() ==> observations(c, vs)[i] == c.value->0,
    decreases vs.len(),
{
    if vs.len() > 0 {
        assert(committed(c, vs[0]) == c);
        lemma_populated_cell_is_constant(c, vs.skip(1));
    }
}

/// First-writer-wins consistency: starting from an empty cell, a sequence of
/// `set_if_absent` calls commits exactly the first call's value, and every
/// caller — the first included — observes that single value.
pub proof fn lemma_write_once_consistent(vs: Seq<u128>)
    requires
        vs.len() > 0,
    ensures
        committed_all(WriteOnceCell { value: None }, vs).value == Some(vs[0]),
        observations(WriteOnceCell { value: None }, vs).len() == vs.len(),
        forall|i: int|
            0 <= i < vs.len() ==> observations(WriteOnceCell { value: None }, vs)[i] == vs[0],
{
    let empty = WriteOnceCell { value: None };
    let after = committed(empty, vs[0]);
    assert(after.value == Some(vs[0]));
    lemma_populated_cell_is_constant(after, vs.skip(1));
}

} // verus!
