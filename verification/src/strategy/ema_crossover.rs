//! EMA crossover strategy.
//!
//! Emits a BUY when the short EMA crosses above the long EMA and a SELL when
//! it crosses below. The averages themselves are computed by the caller on
//! the window of closes that this strategy keeps; the strategy decides which
//! bars count, when there is enough history, and what a new trend reading
//! means.

use vstd::prelude::*;
use crate::market::types::Bar;
use crate::strategy::window::{lemma_window_is_recent_tail, PriceWindow};
use crate::strategy::{crossover, crossover_signal, Signal};

verus! {

/// EMA crossover strategy (configurable short/long periods).
pub struct EmaCrossover<P> {
    symbol: String,
    short_period: usize,
    long_period: usize,
    prices: PriceWindow<P>,
    /// Whether the short EMA was above the long one at the last evaluation.
    prev_short_above: Option<bool>,
}

impl<P: Copy> EmaCrossover<P> {
    pub closed spec fn spec_symbol(&self) -> Seq<char> {
        self.symbol@
    }

    pub closed spec fn spec_short_period(&self) -> nat {
        self.short_period as nat
    }

    pub closed spec fn spec_long_period(&self) -> nat {
        self.long_period as nat
    }

    /// The closes currently kept, oldest first.
    pub closed spec fn spec_prices(&self) -> Seq<P> {
        self.prices.view()
    }

    /// Every close accepted so far, oldest first.
    pub closed spec fn spec_history(&self) -> Seq<P> {
        self.prices.history()
    }

    pub closed spec fn spec_prev_short_above(&self) -> Option<bool> {
        self.prev_short_above
    }

    pub closed spec fn wf(&self) -> bool {
        &&& 0 < self.short_period < self.long_period
        &&& self.long_period * 3 <= usize::MAX
        &&& self.prices.wf()
        &&& self.prices.capacity() == self.long_period * 3
    }

    /// A strategy for `symbol` with the given EMA periods; it keeps the last
    /// `3 * long_period` closes. Periods with `short_period == 0` or
    /// `long_period <= short_period` are not a strategy: a caller holding
    /// such values must refuse them before calling.
    pub fn new(symbol: String, short_period: usize, long_period: usize) -> (s: Self)
        requires
            short_period > 0,
            long_period > short_period,
            long_period <= usize::MAX / 3,
        ensures
            s.wf(),
            s.spec_symbol() == symbol@,
            s.spec_short_period() == short_period,
            s.spec_long_period() == long_period,
            s.spec_history() == Seq::<P>::empty(),
            s.spec_prev_short_above() == None::<bool>,
    {
        EmaCrossover {
            symbol,
            short_period,
            long_period,
            prices: PriceWindow::new(long_period * 3),
            prev_short_above: None,
        }
    }

    /// Takes the close of `bar` into the history when the bar is for this
    /// strategy's symbol; returns whether it was. A bar for another symbol
    /// changes nothing.
    pub fn record_close(&mut self, bar: &Bar<P>) -> (accepted: bool)
        requires
            old(self).wf(),
        ensures
            final(self).wf(),
            accepted == (bar.symbol@ == old(self).spec_symbol()),
            accepted ==> final(self).spec_history() == old(self).spec_history().push(bar.close),
            !accepted ==> *final(self) == *old(self),
            final(self).spec_symbol() == old(self).spec_symbol(),
            final(self).spec_short_period() == old(self).spec_short_period(),
            final(self).spec_long_period() == old(self).spec_long_period(),
            final(self).spec_prev_short_above() == old(self).spec_prev_short_above(),
    {
        if !(bar.symbol == self.symbol) {
            return false;
        }
        self.prices.push(bar.close);
        true
    }

    /// Whether both averages can be computed: the window holds at least
    /// `long_period` closes.
    pub fn indicators_ready(&self) -> (ready: bool)
        requires
            self.wf(),
        ensures
            ready == (self.spec_prices().len() >= self.spec_long_period()),
    {
        self.prices.len() >= self.long_period
    }

    /// Takes a new trend reading (is the short EMA above the long one) and
    /// returns the crossover signal; the reading becomes the reference for
    /// the next one.
    pub fn on_trend(&mut self, short_above: bool) -> (s: Signal)
        requires
            old(self).wf(),
        ensures
            final(self).wf(),
            s == crossover_signal(old(self).spec_prev_short_above(), short_above),
            final(self).spec_prev_short_above() == Some(short_above),
            final(self).spec_history() == old(self).spec_history(),
            final(self).spec_prices() == old(self).spec_prices(),
            final(self).spec_symbol() == old(self).spec_symbol(),
            final(self).spec_short_period() == old(self).spec_short_period(),
            final(self).spec_long_period() == old(self).spec_long_period(),
    {
        let s = crossover(self.prev_short_above, short_above);
        self.prev_short_above = Some(short_above);
        s
    }

    /// Processes one bar. A bar for another symbol is ignored (HOLD). Until
    /// `long_period` closes have been taken the answer is HOLD. Otherwise
    /// `short_above` is asked, on the closes kept and the two periods,
    /// whether the short EMA is above the long one, and the crossover signal
    /// of that reading is returned.
    pub fn on_bar<F: Fn(&Vec<P>, usize, usize) -> bool>(&mut self, bar: &Bar<P>, short_above: &F) -> (s:
        Signal)
        requires
            old(self).wf(),
            forall|v: &Vec<P>, a: usize, b: usize| #[trigger] short_above.requires((v, a, b)),
        ensures
            final(self).wf(),
            bar.symbol@ != old(self).spec_symbol() ==> s == Signal::Hold && *final(self)
                == *old(self),
            bar.symbol@ == old(self).spec_symbol() ==> final(self).spec_history() == old(
                self,
            ).spec_history().push(bar.close),
            bar.symbol@ == old(self).spec_symbol() && final(self).spec_prices().len()
                < old(self).spec_long_period() ==> s == Signal::Hold
                && final(self).spec_prev_short_above() == old(self).spec_prev_short_above(),
            bar.symbol@ == old(self).spec_symbol() && final(self).spec_prices().len()
                >= old(self).spec_long_period() ==> exists|v: &Vec<P>, r: bool|
                v@ == final(self).spec_prices() && #[trigger] short_above.ensures(
                    (v, old(self).spec_short_period() as usize, old(self).spec_long_period() as usize),
                    r,
                ) && s == crossover_signal(old(self).spec_prev_short_above(), r)
                    && final(self).spec_prev_short_above() == Some(r),
            final(self).spec_symbol() == old(self).spec_symbol(),
            final(self).spec_short_period() == old(self).spec_short_period(),
            final(self).spec_long_period() == old(self).spec_long_period(),
    {
        if !self.record_close(bar) {
            return Signal::Hold;
        }
        if !self.indicators_ready() {
            return Signal::Hold;
        }
        let kept = self.prices.as_vec();
        let above = short_above(kept, self.short_period, self.long_period);
        let ghost seen: Vec<P> = *kept;
        let s = self.on_trend(above);
        assert(short_above.ensures(
            (&seen, old(self).spec_short_period() as usize, old(self).spec_long_period() as usize),
            above,
        ));
        s
    }

    /// The closes currently kept, oldest first.
    pub fn prices(&self) -> (v: &Vec<P>)
        ensures
            v@ == self.spec_prices(),
    {
        self.prices.as_vec()
    }

    pub fn short_period(&self) -> (n: usize)
        ensures
            n == self.spec_short_period(),
    {
        self.short_period
    }

    pub fn long_period(&self) -> (n: usize)
        ensures
            n == self.spec_long_period(),
    {
        self.long_period
    }
}

/// The strategy holds for lack of data until `long_period` closes of its
/// symbol have been taken, and has enough data from then on.
pub proof fn lemma_crossover_ready_iff_enough_history<P: Copy>(s: EmaCrossover<P>)
    requires
        s.wf(),
    ensures
        (s.spec_prices().len() >= s.spec_long_period()) == (s.spec_history().len()
            >= s.spec_long_period()),
{
    lemma_window_is_recent_tail(s.prices);
}

} // verus!
