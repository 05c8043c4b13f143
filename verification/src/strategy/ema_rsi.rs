//! EMA crossover with an RSI momentum filter.
//!
//! - BUY: the short EMA crosses above the long EMA and the RSI is within
//!   40..=70.
//! - SELL: the short EMA crosses below the long EMA and the RSI is within
//!   30..=60, or the RSI is at or above 80 (overbought take-profit).
//!
//! The indicators are computed by the caller on the closes this strategy
//! keeps; the strategy holds the state and takes the decisions.

use vstd::prelude::*;
use crate::market::types::Bar;
use crate::strategy::window::{lemma_window_is_recent_tail, PriceWindow};
use crate::strategy::Signal;

verus! {

/// Where the current RSI value stands relative to the strategy's bands.
#[derive(Debug, Clone, Copy, PartialEq, Eq, Structural)]
pub struct RsiBands {
    /// RSI >= 80.
    pub overbought: bool,
    /// 40 <= RSI <= 70: momentum confirms an upward crossover.
    pub confirms_buy: bool,
    /// 30 <= RSI <= 60: momentum confirms a downward crossover.
    pub confirms_sell: bool,
}

/// The signal of the filtered strategy for the previous trend reading `prev`,
/// the current one `short_above`, and the RSI bands.
pub open spec fn ema_rsi_signal(prev: Option<bool>, short_above: bool, rsi: RsiBands) -> Signal {
    if rsi.overbought {
        Signal::Sell
    } else {
        match prev {
            None => Signal::Hold,
            Some(was_above) => if !was_above && short_above {
                if rsi.confirms_buy {
                    Signal::Buy
                } else {
                    Signal::Hold
                }
            } else if was_above && !short_above {
                if rsi.confirms_sell {
                    Signal::Sell
                } else {
                    Signal::Hold
                }
            } else {
                Signal::Hold
            },
        }
    }
}

pub struct EmaRsiStrategy<P> {
    symbol: String,
    short_period: usize,
    long_period: usize,
    rsi_period: usize,
    prices: PriceWindow<P>,
    prev_short_above: Option<bool>,
}

impl<P: Copy> EmaRsiStrategy<P> {
    pub closed spec fn spec_symbol(&self) -> Seq<char> {
        self.symbol@
    }

    pub closed spec fn spec_short_period(&self) -> nat {
        self.short_period as nat
    }

    pub closed spec fn spec_long_period(&self) -> nat {
        self.long_period as nat
    }

    pub closed spec fn spec_rsi_period(&self) -> nat {
        self.rsi_period as nat
    }

    /// The closes currently kept, oldest first.
    pub closed spec fn spec_prices(&self) -> Seq<P> {
        self.prices.view()
    }

    /// Every close accepted so far, oldest first.
    pub closed spec fn spec_history(&self) -> Seq<P> {
        self.prices.history()
    }

    pub closed spec fn spec_prev_short_above(&self) -> Option<bool> {
        self.prev_short_above
    }

    pub closed spec fn wf(&self) -> bool {
        &&& 0 < self.short_period < self.long_period
        &&& self.rsi_period > 0
        &&& self.long_period * 3 <= usize::MAX
        &&& self.prices.wf()
        &&& self.prices.capacity() == self.long_period * 3
    }

    /// A strategy for `symbol`; it keeps the last `3 * long_period` closes.
    pub fn new(symbol: String, short_period: usize, long_period: usize, rsi_period: usize) -> (s:
        Self)
        requires
            short_period > 0,
            long_period > short_period,
            rsi_period > 0,
            long_period <= usize::MAX / 3,
        ensures
            s.wf(),
            s.spec_symbol() == symbol@,
            s.spec_short_period() == short_period,
            s.spec_long_period() == long_period,
            s.spec_rsi_period() == rsi_period,
            s.spec_history() == Seq::<P>::empty(),
            s.spec_prev_short_above() == None::<bool>,
    {
        EmaRsiStrategy {
            symbol,
            short_period,
            long_period,
            rsi_period,
            prices: PriceWindow::new(long_period * 3),
            prev_short_above: None,
        }
    }

    /// Takes the close of `bar` when the bar is for this strategy's symbol;
    /// returns whether it was. A bar for another symbol changes nothing.
    pub fn record_close(&mut self, bar: &Bar<P>) -> (accepted: bool)
        requires
            old(self).wf(),
        ensures
            final(self).wf(),
            accepted == (bar.symbol@ == old(self).spec_symbol()),
            accepted ==> final(self).spec_history() == old(self).spec_history().push(bar.close),
            !accepted ==> *final(self) == *old(self),
            final(self).spec_symbol() == old(self).spec_symbol(),
            final(self).spec_short_period() == old(self).spec_short_period(),
            final(self).spec_long_period() == old(self).spec_long_period(),
            final(self).spec_rsi_period() == old(self).spec_rsi_period(),
            final(self).spec_prev_short_above() == old(self).spec_prev_short_above(),
    {
        if !(bar.symbol == self.symbol) {
            return false;
        }
        self.prices.push(bar.close);
        true
    }

    /// Whether both EMAs and the RSI can be computed: at least `long_period`
    /// closes, and more than `rsi_period`.
    pub fn indicators_ready(&self) -> (ready: bool)
        requires
            self.wf(),
        ensures
            ready == (self.spec_prices().len() >= self.spec_long_period()
                && self.spec_prices().len() > self.spec_rsi_period()),
    {
        self.prices.len() >= self.long_period && self.prices.len() > self.rsi_period
    }

    /// Takes a new trend reading and the RSI bands and returns the signal; the
    /// trend reading becomes the reference for the next one.
    pub fn on_indicators(&mut self, short_above: bool, rsi: RsiBands) -> (s: Signal)
        requires
            old(self).wf(),
        ensures
            final(self).wf(),
            s == ema_rsi_signal(old(self).spec_prev_short_above(), short_above, rsi),
            final(self).spec_prev_short_above() == Some(short_above),
            final(self).spec_history() == old(self).spec_history(),
            final(self).spec_prices() == old(self).spec_prices(),
            final(self).spec_symbol() == old(self).spec_symbol(),
            final(self).spec_short_period() == old(self).spec_short_period(),
            final(self).spec_long_period() == old(self).spec_long_period(),
            final(self).spec_rsi_period() == old(self).spec_rsi_period(),
    {
        if rsi.overbought {
            self.prev_short_above = Some(short_above);
            return Signal::Sell;
        }
        let s = match self.prev_short_above {
            None => Signal::Hold,
            Some(was_above) => if !was_above && short_above {
                if rsi.confirms_buy {
                    Signal::Buy
                } else {
                    Signal::Hold
                }
            } else if was_above && !short_above {
                if rsi.confirms_sell {
                    Signal::Sell
                } else {
                    Signal::Hold
                }
            } else {
                Signal::Hold
            },
        };
        self.prev_short_above = Some(short_above);
        s
    }

    /// Processes one bar. A bar for another symbol is ignored (HOLD). Until
    /// enough closes have been taken the answer is HOLD. Otherwise
    /// `indicators` is asked, on the closes kept and the short, long and RSI
    /// periods, whether the short EMA is above the long one and where the
    /// RSI stands, and the filtered signal of that reading is returned.
    pub fn on_bar<F: Fn(&Vec<P>, usize, usize, usize) -> (bool, RsiBands)>(
        &mut self,
        bar: &Bar<P>,
        indicators: &F,
    ) -> (s: Signal)
        requires
            old(self).wf(),
            forall|v: &Vec<P>, a: usize, b: usize, c: usize| #[trigger] indicators.requires(
                (v, a, b, c),
            ),
        ensures
            final(self).wf(),
            bar.symbol@ != old(self).spec_symbol() ==> s == Signal::Hold && *final(self)
                == *old(self),
            bar.symbol@ == old(self).spec_symbol() ==> final(self).spec_history() == old(
                self,
            ).spec_history().push(bar.close),
            bar.symbol@ == old(self).spec_symbol() && !(final(self).spec_prices().len()
                >= old(self).spec_long_period() && final(self).spec_prices().len() > old(
                self,
            ).spec_rsi_period()) ==> s == Signal::Hold && final(self).spec_prev_short_above()
                == old(self).spec_prev_short_above(),
            bar.symbol@ == old(self).spec_symbol() && final(self).spec_prices().len()
                >= old(self).spec_long_period() && final(self).spec_prices().len() > old(
                self,
            ).spec_rsi_period() ==> exists|v: &Vec<P>, r: (bool, RsiBands)|
                v@ == final(self).spec_prices() && #[trigger] indicators.ensures(
                    (
                        v,
                        old(self).spec_short_period() as usize,
                        old(self).spec_long_period() as usize,
                        old(self).spec_rsi_period() as usize,
                    ),
                    r,
                ) && s == ema_rsi_signal(old(self).spec_prev_short_above(), r.0, r.1)
                    && final(self).spec_prev_short_above() == Some(r.0),
            final(self).spec_symbol() == old(self).spec_symbol(),
            final(self).spec_short_period() == old(self).spec_short_period(),
            final(self).spec_long_period() == old(self).spec_long_period(),
            final(self).spec_rsi_period() == old(self).spec_rsi_period(),
    {
        if !self.record_close(bar) {
            return Signal::Hold;
        }
        if !self.indicators_ready() {
            return Signal::Hold;
        }
        let kept = self.prices.as_vec();
        let reading = indicators(kept, self.short_period, self.long_period, self.rsi_period);
        let ghost seen: Vec<P> = *kept;
        let (above, bands) = reading;
        let s = self.on_indicators(above, bands);
        assert(indicators.ensures(
            (
                &seen,
                old(self).spec_short_period() as usize,
                old(self).spec_long_period() as usize,
                old(self).spec_rsi_period() as usize,
            ),
            reading,
        ));
        s
    }

    /// The closes currently kept, oldest first.
    pub fn prices(&self) -> (v: &Vec<P>)
        ensures
            v@ == self.spec_prices(),
    {
        self.prices.as_vec()
    }

    pub fn short_period(&self) -> (n: usize)
        ensures
            n == self.spec_short_period(),
    {
        self.short_period
    }

    pub fn long_period(&self) -> (n: usize)
        ensures
            n == self.spec_long_period(),
    {
        self.long_period
    }

    pub fn rsi_period(&self) -> (n: usize)
        ensures
            n == self.spec_rsi_period(),
    {
        self.rsi_period
    }
}

/// The filtered strategy keeps the last `3 * long_period` closes it has taken
/// (all of them while there are fewer), so whether it has enough data depends
/// only on how many closes of its symbol it has seen.
pub proof fn lemma_ema_rsi_window_length<P: Copy>(s: EmaRsiStrategy<P>)
    requires
        s.wf(),
    ensures
        s.spec_prices().len() == (if s.spec_history().len() <= 3 * s.spec_long_period() {
            s.spec_history().len()
        } else {
            3 * s.spec_long_period()
        }),
{
    lemma_window_is_recent_tail(s.prices);
}

/// The RSI filter only removes crossover signals or adds the overbought exit:
/// a BUY is always a confirmed upward crossover outside the overbought zone,
/// and a SELL is either an overbought exit (whatever the trend) or a confirmed
/// downward crossover.
pub proof fn lemma_ema_rsi_signal_sources(prev: Option<bool>, short_above: bool, rsi: RsiBands)
    ensures
        ema_rsi_signal(prev, short_above, rsi) == Signal::Buy ==> prev == Some(false)
            && short_above && rsi.confirms_buy && !rsi.overbought,
        ema_rsi_signal(prev, short_above, rsi) == Signal::Buy ==> crate::strategy::crossover_signal(
            prev,
            short_above,
        ) == Signal::Buy,
        rsi.overbought ==> ema_rsi_signal(prev, short_above, rsi) == Signal::Sell,
        ema_rsi_signal(prev, short_above, rsi) == Signal::Sell ==> rsi.overbought || (
        crate::strategy::crossover_signal(prev, short_above) == Signal::Sell && rsi.confirms_sell),
{
}

/// When each signal is given, as an equivalence: a BUY exactly on an upward
/// crossover (the short average was below and is now above) with the RSI in
/// the buy band and not overbought, whatever the sell band says; a SELL
/// exactly when the RSI is overbought, or on a downward crossover with the
/// RSI in the sell band; before the first trend reading only an overbought
/// RSI gives a signal.
pub proof fn lemma_ema_rsi_signal_exact(prev: Option<bool>, short_above: bool, rsi: RsiBands)
    ensures
        ema_rsi_signal(prev, short_above, rsi) == Signal::Buy <==> (prev == Some(false)
            && short_above && rsi.confirms_buy && !rsi.overbought),
        ema_rsi_signal(prev, short_above, rsi) == Signal::Sell <==> (rsi.overbought || (prev
            == Some(true) && !short_above && rsi.confirms_sell)),
        !rsi.overbought && rsi.confirms_buy ==> ema_rsi_signal(Some(false), true, rsi)
            == Signal::Buy,
        !rsi.overbought && rsi.confirms_sell ==> ema_rsi_signal(Some(true), false, rsi)
            == Signal::Sell,
        prev is None && !rsi.overbought ==> ema_rsi_signal(prev, short_above, rsi)
            == Signal::Hold,
{
}

} // verus!
