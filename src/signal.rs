//! A signal: callbacks without arguments, called in the order in which they
//! were connected whenever the signal is emitted (for example when the login
//! state changes).

use vstd::prelude::*;

verus! {

pub struct _Signal<F: Fn()> {
    connected_slots: Vec<F>,
}

/// A signal with no callback connected.
pub fn new<F: Fn()>() -> (r: _Signal<F>)
    ensures
        r@ == Seq::<F>::empty(),
{
    _Signal { connected_slots: Vec::new() }
}

impl<F: Fn()> View for _Signal<F> {
    type V = Seq<F>;

    closed spec fn view(&self) -> Seq<F> {
        self.connected_slots@
    }
}

impl<F: Fn()> _Signal<F> {
    /// Connects `slot` after the callbacks connected so far.
    pub fn connect(&mut self, slot: F)
        ensures
            final(self)@ == old(self)@.push(slot),
    {
        self.connected_slots.push(slot);
    }

    /// Calls every connected callback once, in the order of connection.
    pub fn emit(&self)
        requires
            forall|i: int| 0 <= i < self@.len() ==> (#[trigger] self@[i]).requires(()),
    {
        let mut i: usize = 0;
        while i < self.connected_slots.len()
            invariant
                i <= self@.len(),
                self@ == self.connected_slots@,
                forall|k: int| 0 <= k < self@.len() ==> (#[trigger] self@[k]).requires(()),
            decreases self@.len() - i,
        {
            let slot = &self.connected_slots[i];
            slot();
            i = i + 1;
        }
    }

    /// Removes every callback.
    pub fn disconnect(&mut self)
        ensures
            final(self)@ == Seq::<F>::empty(),
    {
        self.connected_slots.clear();
    }

    /// The number of connected callbacks.
    pub fn count(&self) -> (r: usize)
        ensures
            r == self@.len(),
    {
        self.connected_slots.len()
    }
}

} // verus!
