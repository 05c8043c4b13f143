//! Strategy signals and the state shared by the strategies.
//!
//! A strategy turns market data into signals and never talks to the broker,
//! the risk manager or the order manager.

pub mod ema_crossover;
pub mod ema_rsi;
pub mod window;

use vstd::prelude::*;

verus! {

/// The output of a strategy after processing a bar.
#[derive(Debug, Clone, Copy, PartialEq, Eq, Structural)]
pub enum Signal {
    Buy,
    Sell,
    /// No actionable view: stay flat or hold the current position.
    Hold,
}

/// The signal of a plain trend crossover: `prev` is whether the short average
/// was above the long one at the previous evaluation (`None` before the first
/// one), `short_above` whether it is above now.
pub open spec fn crossover_signal(prev: Option<bool>, short_above: bool) -> Signal {
    match prev {
        None => Signal::Hold,
        Some(was_above) => if !was_above && short_above {
            Signal::Buy
        } else if was_above && !short_above {
            Signal::Sell
        } else {
            Signal::Hold
        },
    }
}

/// Computes [`crossover_signal`].
pub fn crossover(prev: Option<bool>, short_above: bool) -> (s: Signal)
    ensures
        s == crossover_signal(prev, short_above),
{
    match prev {
        None => Signal::Hold,
        Some(was_above) => if !was_above && short_above {
            Signal::Buy
        } else if was_above && !short_above {
            Signal::Sell
        } else {
            Signal::Hold
        },
    }
}

/// What a crossover signal means: a BUY exactly when the short average was
/// below the long one and is now above, a SELL exactly when it was above and
/// is now below, and nothing before the first reading, whatever the trend.
pub proof fn lemma_crossover_signal_exact(prev: Option<bool>, short_above: bool)
    ensures
        crossover_signal(prev, short_above) == Signal::Buy <==> (prev == Some(false)
            && short_above),
        crossover_signal(prev, short_above) == Signal::Sell <==> (prev == Some(true)
            && !short_above),
        crossover_signal(None, short_above) == Signal::Hold,
        prev == Some(short_above) ==> crossover_signal(prev, short_above) == Signal::Hold,
{
}

/// The signals that successive trend readings `trends` produce, starting from
/// the reference reading `prev`: each reading is compared with the one before.
pub open spec fn crossover_run(prev: Option<bool>, trends: Seq<bool>) -> Seq<Signal>
    decreases trends.len(),
{
    if trends.len() == 0 {
        Seq::empty()
    } else {
        seq![crossover_signal(prev, trends[0])] + crossover_run(Some(trends[0]), trends.drop_first())
    }
}

/// The `k`-th signal of a run compares reading `k` with the reading before it.
pub proof fn lemma_crossover_run_index(prev: Option<bool>, trends: Seq<bool>, k: int)
    requires
        0 <= k < trends.len(),
    ensures
        crossover_run(prev, trends).len() == trends.len(),
        crossover_run(prev, trends)[k] == crossover_signal(
            if k == 0 {
                prev
            } else {
                Some(trends[k - 1])
            },
            trends[k],
        ),
    decreases trends.len(),
{
    lemma_crossover_run_len(prev, trends);
    if k > 0 {
        lemma_crossover_run_index(Some(trends[0]), trends.drop_first(), k - 1);
        assert(trends.drop_first()[k - 1] == trends[k]);
        if k > 1 {
            assert(trends.drop_first()[k - 2] == trends[k - 1]);
        }
    }
}

proof fn lemma_crossover_run_len(prev: Option<bool>, trends: Seq<bool>)
    ensures
        crossover_run(prev, trends).len() == trends.len(),
    decreases trends.len(),
{
    if trends.len() > 0 {
        lemma_crossover_run_len(Some(trends[0]), trends.drop_first());
    }
}

/// Between a reading `a` and a later reading `b` that differs from it there
/// is a first change of value.
proof fn lemma_first_change(trends: Seq<bool>, a: int, b: int) -> (m: int)
    requires
        0 <= a < b < trends.len(),
        trends[a] != trends[b],
    ensures
        a < m <= b,
        trends[m - 1] == trends[a],
        trends[m] == trends[b],
    decreases b - a,
{
    if trends[a + 1] == trends[b] {
        a + 1
    } else {
        lemma_first_change(trends, a + 1, b)
    }
}

/// Crossover signals alternate: between two BUY signals there is a SELL, and
/// between two SELL signals there is a BUY.
pub proof fn lemma_crossover_signals_alternate(
    prev: Option<bool>,
    trends: Seq<bool>,
    i: int,
    j: int,
)
    requires
        0 <= i < j < trends.len(),
        crossover_run(prev, trends)[i] == crossover_run(prev, trends)[j],
        crossover_run(prev, trends)[i] != Signal::Hold,
    ensures
        exists|k: int|
            i < k < j && #[trigger] crossover_run(prev, trends)[k] != Signal::Hold
                && crossover_run(prev, trends)[k] != crossover_run(prev, trends)[i],
{
    let run = crossover_run(prev, trends);
    lemma_crossover_run_index(prev, trends, i);
    lemma_crossover_run_index(prev, trends, j);
    // Signal i leaves the readings at trends[i]; signal j starts from the opposite reading.
    let m = lemma_first_change(trends, i, j - 1);
    lemma_crossover_run_index(prev, trends, m);
    assert(i < m < j && run[m] != Signal::Hold && run[m] != run[i]);
}

} // verus!
