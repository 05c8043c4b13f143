//! A bounded window over the most recent closing prices of one symbol.

use vstd::prelude::*;

verus! {

/// The last `cap` elements of `h` (all of `h` when it is shorter).
pub open spec fn recent<P>(h: Seq<P>, cap: nat) -> Seq<P> {
    if h.len() <= cap {
        h
    } else {
        h.subrange(h.len() - cap, h.len() as int)
    }
}

/// The closing prices that a strategy keeps, bounded in length so that a
/// long-running strategy does not grow without limit.
pub struct PriceWindow<P> {
    prices: Vec<P>,
    capacity: usize,
    /// Every price pushed since the window was created, oldest first.
    history: Ghost<Seq<P>>,
}

impl<P> PriceWindow<P> {
    /// The prices currently held, oldest first.
    pub closed spec fn view(&self) -> Seq<P> {
        self.prices@
    }

    /// Every price that was ever pushed, oldest first.
    pub closed spec fn history(&self) -> Seq<P> {
        self.history@
    }

    /// The most prices the window holds.
    pub closed spec fn capacity(&self) -> nat {
        self.capacity as nat
    }

    /// The window holds exactly the last `capacity` pushed prices.
    pub closed spec fn wf(&self) -> bool {
        &&& self.capacity > 0
        &&& self.prices@ == recent(self.history@, self.capacity as nat)
    }

    /// An empty window that keeps at most `capacity` prices.
    pub fn new(capacity: usize) -> (w: Self)
        requires
            capacity > 0,
        ensures
            w.wf(),
            w.view() == Seq::<P>::empty(),
            w.history() == Seq::<P>::empty(),
            w.capacity() == capacity,
    {
        PriceWindow { prices: Vec::new(), capacity, history: Ghost(Seq::empty()) }
    }

    /// Appends `price`; when the window then holds more than its capacity,
    /// the oldest price is dropped.
    pub fn push(&mut self, price: P)
        requires
            old(self).wf(),
        ensures
            final(self).wf(),
            final(self).capacity() == old(self).capacity(),
            final(self).history() == old(self).history().push(price),
            final(self).view() == (if old(self).view().len() + 1 > old(self).capacity() {
                old(self).view().push(price).drop_first()
            } else {
                old(self).view().push(price)
            }),
    {
        let ghost h = self.history@;
        let ghost cap = self.capacity as nat;
        self.prices.push(price);
        if self.prices.len() > self.capacity {
            self.prices.remove(0);
        }
        self.history = Ghost(h.push(price));
        proof {
            let h2 = h.push(price);
            if h2.len() <= cap {
                assert(self.prices@ =~= recent(h2, cap));
            } else {
                assert(self.prices@ =~= recent(h2, cap));
            }
        }
    }

    /// Number of prices held.
    pub fn len(&self) -> (n: usize)
        ensures
            n == self.view().len(),
    {
        self.prices.len()
    }

    /// The prices held, oldest first.
    pub fn as_vec(&self) -> (v: &Vec<P>)
        ensures
            v@ == self.view(),
    {
        &self.prices
    }
}

/// The window never holds more than its capacity nor more than was pushed,
/// and what it holds is the tail of everything pushed.
pub proof fn lemma_window_is_recent_tail<P>(w: PriceWindow<P>)
    requires
        w.wf(),
    ensures
        w.view().len() <= w.capacity(),
        w.view().len() <= w.history().len(),
        w.view().len() == (if w.history().len() <= w.capacity() {
            w.history().len()
        } else {
            w.capacity()
        }),
        forall|i: int|
            0 <= i < w.view().len() ==> #[trigger] w.view()[i] == w.history()[w.history().len()
                - w.view().len() + i],
{
}

} // verus!
