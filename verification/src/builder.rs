//! The builder guard: owner of the storage of a sequence under construction
//! and of the cursor that counts its initialized prefix.

use vstd::prelude::*;

verus! {

/// Witness that a builder was obtained through [`Builder::acquire`].
///
/// Every builder holds one, so no builder exists whose storage and cursor
/// were assembled outside this module. Code elsewhere therefore never sees
/// a cursor that disagrees with the storage it counts.
#[non_exhaustive]
pub struct Token;

impl Token {
    /// Produces the construction witness.
    pub fn new() -> (t: Token) {
        Token
    }
}

/// A fixed-capacity buffer under construction.
///
/// The builder is acquired for exactly `capacity` slots. Its view is the
/// live prefix: the elements written so far, in the order they were
/// written; the cursor is the length of that prefix. Slots past the cursor
/// hold no element at all, so tearing a builder down before it is full
/// releases exactly the written prefix, each element once, and touches
/// nothing else.
pub struct Builder<T> {
    slots: Vec<T>,
    cap: usize,
    #[allow(dead_code)]
    token: Token,
}

impl<T> View for Builder<T> {
    type V = Seq<T>;

    closed spec fn view(&self) -> Seq<T> {
        self.slots@
    }
}

impl<T> Builder<T> {
    /// Number of slots this builder was acquired for.
    pub closed spec fn capacity(&self) -> nat {
        self.cap as nat
    }

    /// Well-formedness: the live prefix never exceeds the capacity.
    pub open spec fn wf(&self) -> bool {
        self@.len() <= self.capacity()
    }

    /// Acquires storage for exactly `count` slots, all of them absent;
    /// the cursor starts at zero.
    pub fn acquire(count: usize) -> (b: Builder<T>)
        ensures
            b.wf(),
            b.capacity() == count,
            b@ =~= Seq::<T>::empty(),
    {
        Builder { slots: Vec::with_capacity(count), cap: count, token: Token::new() }
    }

    /// How many leading slots hold a live element.
    pub fn cursor(&self) -> (c: usize)
        ensures
            c == self@.len(),
    {
        self.slots.len()
    }

    /// Writes `value` into the first absent slot, then advances the cursor
    /// by one. The write completes before the cursor moves, so the cursor
    /// never counts a slot that holds nothing.
    pub fn write_next(&mut self, value: T)
        requires
            old(self).wf(),
            old(self)@.len() < old(self).capacity(),
        ensures
            final(self).wf(),
            final(self)@ =~= old(self)@.push(value),
            final(self).capacity() == old(self).capacity(),
    {
        self.slots.push(value);
    }

    /// Consumes a fully written builder and hands its storage out as the
    /// finished sequence. Ownership of every element transfers to the
    /// result; the guard ceases to exist without any teardown step, so no
    /// element is ever released twice.
    pub fn into_result(self) -> (r: Vec<T>)
        requires
            self.wf(),
            self@.len() == self.capacity(),
        ensures
            r@ == self@,
            r@.len() == self.capacity(),
    {
        self.slots
    }
}

} // verus!
