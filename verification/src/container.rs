//! An append-only generic container: an ordered sequence that grows at the
//! end and keeps insertion order.

use vstd::prelude::*;

verus! {

/// An ordered, append-only sequence of values of one type.
pub struct Container<T> {
    items: Vec<T>,
}

impl<T> View for Container<T> {
    type V = Seq<T>;

    closed spec fn view(&self) -> Seq<T> {
        self.items@
    }
}

impl<T> Container<T> {
    /// Constructs an empty container.
    pub fn new() -> (r: Container<T>)
        ensures
            r@ == Seq::<T>::empty(),
    {
        Container { items: Vec::new() }
    }

    /// Appends an item at the end; everything already stored keeps its place.
    pub fn add(&mut self, item: T)
        ensures
            final(self)@ == old(self)@.push(item),
    {
        self.items.push(item);
    }

    /// The number of items stored.
    pub fn len(&self) -> (n: usize)
        ensures
            n == self@.len(),
    {
        self.items.len()
    }

    /// Read-only access to the stored items, in insertion order.
    pub fn items(&self) -> (r: &Vec<T>)
        ensures
            r@ == self@,
    {
        &self.items
    }
}

/// The contents after appending each element of `items`, in order, to a
/// container that already holds `init`.
pub open spec fn after_adds<T>(init: Seq<T>, items: Seq<T>) -> Seq<T>
    decreases items.len(),
{
    if items.len() == 0 {
        init
    } else {
        after_adds(init, items.drop_last()).push(items.last())
    }
}

/// Insertion-order invariant: appending a sequence of items, one `add` at a
/// time, yields exactly the old contents followed by those items in call
/// order; in particular, after `n` adds to an empty container the length
/// is `n`.
pub proof fn lemma_adds_keep_order<T>(init: Seq<T>, items: Seq<T>)
    ensures
        after_adds(init, items) == init + items,
        after_adds(init, items).len() == init.len() + items.len(),
    decreases items.len(),
{
    if items.len() == 0 {
        assert(after_adds(init, items) =~= init + items);
    } else {
        lemma_adds_keep_order(init, items.drop_last());
        assert(after_adds(init, items) =~= init + items);
    }
}

} // verus!
