//! Instrument definitions and lookup in an instrument catalog.

use vstd::prelude::*;
use crate::text::same_text;

verus! {

#[derive(Debug, Clone, Copy, PartialEq, Eq, Hash, Structural)]
pub enum AssetClass {
    UsEquity,
    Crypto,
    IndianEquity,
    JapaneseEquity,
    ChineseEquity,
    EuEquity,
    Future,
    Option,
}

/// One tradable instrument; the minimum lot size is of the caller's numeric
/// type.
pub struct Instrument<N> {
    pub symbol: &'static str,
    pub name: &'static str,
    pub asset_class: AssetClass,
    pub exchange: &'static str,
    pub is_fractional: bool,
    pub min_lot_size: N,
}

/// The first instrument of `universe` whose symbol is `symbol`, if any.
pub fn get_instrument<'a, N>(universe: &'a [Instrument<N>], symbol: &str) -> (r: Option<
    &'a Instrument<N>,
>)
    ensures
        match r {
            Some(inst) => exists|i: int|
                0 <= i < universe@.len() && universe@[i] == *inst && inst.symbol@ == symbol@
                    && forall|k: int| 0 <= k < i ==> (#[trigger] universe@[k]).symbol@ != symbol@,
            None => forall|k: int| 0 <= k < universe@.len() ==> (#[trigger] universe@[k]).symbol@ != symbol@,
        },
{
    let mut i: usize = 0;
    while i < universe.len()
        invariant
            i <= universe@.len(),
            forall|k: int| 0 <= k < i ==> (#[trigger] universe@[k]).symbol@ != symbol@,
        decreases universe@.len() - i,
    {
        if same_text(universe[i].symbol, symbol) {
            return Some(&universe[i]);
        }
        i += 1;
    }
    None
}

} // verus!
