//! Position tracker: the open positions, one per symbol, kept in step with
//! broker snapshots and with fills.
//!
//! How a fill changes a position is decided here ([`fill_effect`]); the
//! quantity and price arithmetic that realizes the change is the caller's.

use vstd::prelude::*;
use crate::market::types::{Position, Side};
use crate::strategy::Signal;
use crate::text::same_text;

verus! {

/// How the quantity of a fill compares with the quantity held.
#[derive(Debug, Clone, Copy, PartialEq, Eq, Structural)]
pub enum QtyComparison {
    /// The fill is smaller than the position.
    Below,
    /// The fill equals the position.
    Equal,
    /// The fill is larger than the position.
    Above,
}

/// What a fill does to the position in its symbol.
#[derive(Debug, Clone, Copy, PartialEq, Eq, Structural)]
pub enum FillEffect {
    /// Nothing changes (a HOLD).
    Unchanged,
    /// No position was held: a new one opens on this side, at the fill's
    /// quantity and price.
    Open(Side),
    /// The fill adds to a position on the same side; the entry price becomes
    /// the quantity-weighted average.
    Grow,
    /// The fill reduces the position by its quantity.
    Shrink,
    /// The position is closed and removed.
    Close,
    /// The fill covers the whole position and the remainder opens a position
    /// on this side at the fill price.
    Reverse(Side),
}

/// The effect of a fill with direction `signal` on the position held in its
/// symbol (`held`: its side, if any), given how the fill's quantity compares
/// with the quantity held (ignored when nothing is held).
pub open spec fn fill_effect_spec(signal: Signal, held: Option<Side>, cmp: QtyComparison) -> FillEffect {
    match signal {
        Signal::Hold => FillEffect::Unchanged,
        Signal::Buy => match held {
            None => FillEffect::Open(Side::Long),
            Some(Side::Long) => FillEffect::Grow,
            Some(Side::Short) => match cmp {
                QtyComparison::Below => FillEffect::Shrink,
                QtyComparison::Equal => FillEffect::Close,
                QtyComparison::Above => FillEffect::Reverse(Side::Long),
            },
        },
        Signal::Sell => match held {
            None => FillEffect::Open(Side::Short),
            Some(Side::Long) => match cmp {
                QtyComparison::Below => FillEffect::Shrink,
                _ => FillEffect::Close,
            },
            Some(Side::Short) => FillEffect::Grow,
        },
    }
}

/// Computes [`fill_effect_spec`].
pub fn fill_effect(signal: Signal, held: Option<Side>, cmp: QtyComparison) -> (e: FillEffect)
    ensures
        e == fill_effect_spec(signal, held, cmp),
{
    match signal {
        Signal::Hold => FillEffect::Unchanged,
        Signal::Buy => match held {
            None => FillEffect::Open(Side::Long),
            Some(Side::Long) => FillEffect::Grow,
            Some(Side::Short) => match cmp {
                QtyComparison::Below => FillEffect::Shrink,
                QtyComparison::Equal => FillEffect::Close,
                QtyComparison::Above => FillEffect::Reverse(Side::Long),
            },
        },
        Signal::Sell => match held {
            None => FillEffect::Open(Side::Short),
            Some(Side::Long) => match cmp {
                QtyComparison::Below => FillEffect::Shrink,
                _ => FillEffect::Close,
            },
            Some(Side::Short) => FillEffect::Grow,
        },
    }
}

/// A fill never moves a position against its own direction: a BUY never
/// opens, grows or leaves a short position, and a SELL never opens, grows or
/// leaves a long one; a position only grows with a fill on its own side; and
/// a sell that exceeds a long position closes it without going short.
pub proof fn lemma_fill_direction(signal: Signal, held: Option<Side>, cmp: QtyComparison)
    ensures
        signal == Signal::Buy ==> fill_effect_spec(signal, held, cmp) != FillEffect::Open(
            Side::Short,
        ) && fill_effect_spec(signal, held, cmp) != FillEffect::Reverse(Side::Short),
        signal == Signal::Sell ==> fill_effect_spec(signal, held, cmp) != FillEffect::Open(
            Side::Long,
        ) && fill_effect_spec(signal, held, cmp) != FillEffect::Reverse(Side::Long),
        fill_effect_spec(signal, held, cmp) == FillEffect::Grow ==> (signal == Signal::Buy && held
            == Some(Side::Long)) || (signal == Signal::Sell && held == Some(Side::Short)),
        fill_effect_spec(signal, held, cmp) == FillEffect::Close ==> held is Some && cmp
            != QtyComparison::Below,
        signal == Signal::Sell && held == Some(Side::Long) && cmp == QtyComparison::Above
            ==> fill_effect_spec(signal, held, cmp) == FillEffect::Close,
{
}

/// What a fill does, by the side held and the fill's direction: a HOLD
/// changes nothing; with nothing held a BUY opens a long and a SELL a short;
/// a fill on the side held always grows the position, whatever its size; a
/// fill against the side held shrinks it when smaller and closes it when
/// equal, and when larger a BUY reverses a short into a long while a SELL
/// closes a long. Only a fill against the side held closes a position.
pub proof fn lemma_fill_effect_by_side(signal: Signal, held: Option<Side>, cmp: QtyComparison)
    ensures
        signal == Signal::Hold ==> fill_effect_spec(signal, held, cmp) == FillEffect::Unchanged,
        fill_effect_spec(Signal::Buy, None, cmp) == FillEffect::Open(Side::Long),
        fill_effect_spec(Signal::Sell, None, cmp) == FillEffect::Open(Side::Short),
        fill_effect_spec(Signal::Buy, Some(Side::Long), cmp) == FillEffect::Grow,
        fill_effect_spec(Signal::Sell, Some(Side::Short), cmp) == FillEffect::Grow,
        fill_effect_spec(Signal::Buy, Some(Side::Short), QtyComparison::Below)
            == FillEffect::Shrink,
        fill_effect_spec(Signal::Sell, Some(Side::Long), QtyComparison::Below)
            == FillEffect::Shrink,
        fill_effect_spec(Signal::Buy, Some(Side::Short), QtyComparison::Equal)
            == FillEffect::Close,
        fill_effect_spec(Signal::Sell, Some(Side::Long), QtyComparison::Equal)
            == FillEffect::Close,
        fill_effect_spec(Signal::Buy, Some(Side::Short), QtyComparison::Above)
            == FillEffect::Reverse(Side::Long),
        fill_effect_spec(Signal::Sell, Some(Side::Long), QtyComparison::Above)
            == FillEffect::Close,
        fill_effect_spec(signal, held, cmp) == FillEffect::Close ==> (signal == Signal::Buy
            && held == Some(Side::Short)) || (signal == Signal::Sell && held == Some(Side::Long)),
        fill_effect_spec(signal, held, cmp) == FillEffect::Unchanged <==> signal == Signal::Hold,
{
}

/// The side of the position held in `symbol`, if any.
pub open spec fn held_side_spec<N>(m: Map<Seq<char>, Position<N>>, symbol: Seq<char>) -> Option<Side> {
    if m.contains_key(symbol) {
        Some(m[symbol].side)
    } else {
        None
    }
}

/// Whether no two positions are in the same symbol.
pub open spec fn symbols_distinct<N>(s: Seq<Position<N>>) -> bool {
    forall|i: int, j: int|
        0 <= i < j < s.len() ==> (#[trigger] s[i]).symbol@ != (#[trigger] s[j]).symbol@
}

/// The positions by symbol that a sequence of positions describes.
pub open spec fn positions_by_symbol<N>(s: Seq<Position<N>>, m: Map<Seq<char>, Position<N>>) -> bool {
    &&& symbols_distinct(s)
    &&& forall|i: int|
        0 <= i < s.len() ==> m.contains_key((#[trigger] s[i]).symbol@) && m[s[i].symbol@] == s[i]
    &&& forall|k: Seq<char>|
        #[trigger] m.contains_key(k) ==> exists|i: int| 0 <= i < s.len() && (#[trigger] s[i]).symbol@ == k
}

/// The map that a broker snapshot produces: each position under its symbol,
/// a later one replacing an earlier one in the same symbol.
pub open spec fn snapshot_map<N>(s: Seq<Position<N>>) -> Map<Seq<char>, Position<N>>
    decreases s.len(),
{
    if s.len() == 0 {
        Map::empty()
    } else {
        snapshot_map(s.drop_last()).insert(s.last().symbol@, s.last())
    }
}

proof fn lemma_snapshot_dom<N>(s: Seq<Position<N>>, k: Seq<char>)
    ensures
        snapshot_map(s).contains_key(k) <==> exists|i: int|
            0 <= i < s.len() && (#[trigger] s[i]).symbol@ == k,
    decreases s.len(),
{
    if s.len() > 0 {
        let t = s.drop_last();
        lemma_snapshot_dom(t, k);
        if exists|i: int| 0 <= i < t.len() && (#[trigger] t[i]).symbol@ == k {
            let i = choose|i: int| 0 <= i < t.len() && (#[trigger] t[i]).symbol@ == k;
            assert(s[i] == t[i]);
        }
        if exists|i: int| 0 <= i < s.len() && (#[trigger] s[i]).symbol@ == k {
            let i = choose|i: int| 0 <= i < s.len() && (#[trigger] s[i]).symbol@ == k;
            if i < s.len() - 1 {
                assert(t[i] == s[i]);
            }
        }
    }
}

proof fn lemma_snapshot_value<N>(s: Seq<Position<N>>, i: int)
    requires
        0 <= i < s.len(),
        forall|j: int| i < j < s.len() ==> (#[trigger] s[j]).symbol@ != s[i].symbol@,
    ensures
        snapshot_map(s).contains_key(s[i].symbol@),
        snapshot_map(s)[s[i].symbol@] == s[i],
    decreases s.len(),
{
    if i < s.len() - 1 {
        let t = s.drop_last();
        assert(s[s.len() - 1].symbol@ != s[i].symbol@);
        assert(t[i] == s[i]);
        assert forall|j: int| i < j < t.len() implies (#[trigger] t[j]).symbol@ != t[i].symbol@ by {
            assert(t[j] == s[j]);
        }
        lemma_snapshot_value(t, i);
    }
}

/// A broker snapshot keeps, for each symbol in it, exactly the last position
/// given in that symbol, and no other symbol.
pub proof fn lemma_snapshot_last_entry_wins<N>(s: Seq<Position<N>>, k: Seq<char>)
    ensures
        snapshot_map(s).contains_key(k) <==> exists|i: int|
            0 <= i < s.len() && (#[trigger] s[i]).symbol@ == k,
        forall|i: int|
            0 <= i < s.len() && (#[trigger] s[i]).symbol@ == k && (forall|j: int|
                i < j < s.len() ==> (#[trigger] s[j]).symbol@ != k) ==> snapshot_map(s)[k] == s[i],
{
    lemma_snapshot_dom(s, k);
    assert forall|i: int|
        0 <= i < s.len() && (#[trigger] s[i]).symbol@ == k && (forall|j: int|
            i < j < s.len() ==> (#[trigger] s[j]).symbol@ != k) implies snapshot_map(s)[k] == s[i] by {
        lemma_snapshot_value(s, i);
    }
}

/// The snapshot map, symbol by symbol: its keys are the symbols of the
/// snapshot, and each maps to the last position given in it.
proof fn lemma_snapshot_contents<N>(s: Seq<Position<N>>)
    ensures
        forall|k: Seq<char>|
            #[trigger] snapshot_map(s).contains_key(k) <==> exists|i: int|
                0 <= i < s.len() && (#[trigger] s[i]).symbol@ == k,
        forall|i: int|
            0 <= i < s.len() && (forall|j: int|
                i < j < s.len() ==> (#[trigger] s[j]).symbol@ != s[i].symbol@) ==> snapshot_map(
                s,
            ).contains_key((#[trigger] s[i]).symbol@) && snapshot_map(s)[s[i].symbol@] == s[i],
{
    assert forall|k: Seq<char>| #[trigger] snapshot_map(s).contains_key(k) <==> exists|i: int|
        0 <= i < s.len() && (#[trigger] s[i]).symbol@ == k by {
        lemma_snapshot_dom(s, k);
    }
    assert forall|i: int|
        0 <= i < s.len() && (forall|j: int|
            i < j < s.len() ==> (#[trigger] s[j]).symbol@ != s[i].symbol@) implies snapshot_map(
        s,
    ).contains_key((#[trigger] s[i]).symbol@) && snapshot_map(s)[s[i].symbol@] == s[i] by {
        lemma_snapshot_value(s, i);
    }
}

/// Open positions, at most one per symbol.
pub struct PositionTracker<N> {
    positions: Vec<Position<N>>,
    by_symbol: Ghost<Map<Seq<char>, Position<N>>>,
}

impl<N: Copy> PositionTracker<N> {
    /// The open positions by symbol.
    pub closed spec fn view(&self) -> Map<Seq<char>, Position<N>> {
        self.by_symbol@
    }

    pub closed spec fn wf(&self) -> bool {
        positions_by_symbol(self.positions@, self.by_symbol@)
    }

    /// An empty tracker.
    pub fn new() -> (t: Self)
        ensures
            t.wf(),
            t@ == Map::<Seq<char>, Position<N>>::empty(),
    {
        PositionTracker { positions: Vec::new(), by_symbol: Ghost(Map::empty()) }
    }

    /// The index of the position in `symbol`, if any.
    fn find(&self, symbol: &str) -> (r: Option<usize>)
        requires
            self.wf(),
        ensures
            match r {
                Some(i) => i < self.positions@.len() && self.positions@[i as int].symbol@ == symbol@,
                None => !self@.contains_key(symbol@),
            },
    {
        let mut i: usize = 0;
        while i < self.positions.len()
            invariant
                self.wf(),
                i <= self.positions@.len(),
                forall|k: int| 0 <= k < i ==> (#[trigger] self.positions@[k]).symbol@ != symbol@,
            decreases self.positions@.len() - i,
        {
            if same_text(self.positions[i].symbol.as_str(), symbol) {
                return Some(i);
            }
            i += 1;
        }
        None
    }

    /// The position in `symbol`, if one is open.
    pub fn get_position(&self, symbol: &str) -> (r: Option<&Position<N>>)
        requires
            self.wf(),
        ensures
            match r {
                Some(p) => self@.contains_key(symbol@) && *p == self@[symbol@],
                None => !self@.contains_key(symbol@),
            },
    {
        match self.find(symbol) {
            Some(i) => Some(&self.positions[i]),
            None => None,
        }
    }

    /// The side of the position in `symbol`, if one is open.
    pub fn held_side(&self, symbol: &str) -> (r: Option<Side>)
        requires
            self.wf(),
        ensures
            match r {
                Some(side) => self@.contains_key(symbol@) && self@[symbol@].side == side,
                None => !self@.contains_key(symbol@),
            },
    {
        match self.find(symbol) {
            Some(i) => Some(self.positions[i].side),
            None => None,
        }
    }

    /// Sets the position in its symbol, replacing any position held there.
    pub fn upsert(&mut self, position: Position<N>)
        requires
            old(self).wf(),
        ensures
            final(self).wf(),
            final(self)@ == old(self)@.insert(position.symbol@, position),
    {
        let ghost key = position.symbol@;
        let ghost m = self.by_symbol@.insert(key, position);
        let found = self.find(position.symbol.as_str());
        match found {
            Some(i) => {
                self.positions.set(i, position);
            },
            None => {
                self.positions.push(position);
            },
        }
        self.by_symbol = Ghost(m);
        proof {
            let s = self.positions@;
            assert forall|k: Seq<char>| #[trigger] m.contains_key(k) implies exists|i: int|
                0 <= i < s.len() && (#[trigger] s[i]).symbol@ == k by {
                if k == key {
                    match found {
                        Some(i) => assert(s[i as int].symbol@ == k),
                        None => assert(s[s.len() - 1].symbol@ == k),
                    }
                } else {
                    let j = choose|j: int|
                        0 <= j < old(self).positions@.len()
                            && (#[trigger] old(self).positions@[j]).symbol@ == k;
                    assert(s[j].symbol@ == k);
                }
            }
        }
    }

    /// Closes the position in `symbol`, if any.
    pub fn remove(&mut self, symbol: &str)
        requires
            old(self).wf(),
        ensures
            final(self).wf(),
            final(self)@ == old(self)@.remove(symbol@),
    {
        let found = self.find(symbol);
        match found {
            Some(i) => {
                let ghost old_s = self.positions@;
                self.positions.remove(i);
                let ghost m = self.by_symbol@.remove(symbol@);
                self.by_symbol = Ghost(m);
                proof {
                    let s = self.positions@;
                    assert forall|a: int, b: int| 0 <= a < b < s.len() implies (#[trigger] s[a]).symbol@
                        != (#[trigger] s[b]).symbol@ by {
                        let oa = if a < i { a } else { a + 1 };
                        let ob = if b < i { b } else { b + 1 };
                        assert(s[a] == old_s[oa]);
                        assert(s[b] == old_s[ob]);
                    }
                    assert forall|a: int| 0 <= a < s.len() implies m.contains_key(
                        (#[trigger] s[a]).symbol@,
                    ) && m[s[a].symbol@] == s[a] by {
                        let oa = if a < i { a } else { a + 1 };
                        assert(s[a] == old_s[oa]);
                    }
                    assert forall|k: Seq<char>| #[trigger] m.contains_key(k) implies exists|a: int|
                        0 <= a < s.len() && (#[trigger] s[a]).symbol@ == k by {
                        let j = choose|j: int|
                            0 <= j < old_s.len() && (#[trigger] old_s[j]).symbol@ == k;
                        assert(j != i);
                        let a = if j < i { j } else { j - 1 };
                        assert(s[a] == old_s[j]);
                    }
                }
            },
            None => {
                assert(self.by_symbol@.remove(symbol@) =~= self.by_symbol@);
            },
        }
    }

    /// Replaces all positions with a broker snapshot; a later position in the
    /// snapshot replaces an earlier one in the same symbol. Afterwards the
    /// tracker holds exactly the symbols of the snapshot, each with the last
    /// position given in it; nothing held before survives.
    pub fn sync_positions(&mut self, positions: Vec<Position<N>>)
        requires
            old(self).wf(),
        ensures
            final(self).wf(),
            final(self)@ == snapshot_map(positions@),
            forall|k: Seq<char>|
                #[trigger] final(self)@.contains_key(k) <==> exists|i: int|
                    0 <= i < positions@.len() && (#[trigger] positions@[i]).symbol@ == k,
            forall|i: int|
                0 <= i < positions@.len() && (forall|j: int|
                    i < j < positions@.len() ==> (#[trigger] positions@[j]).symbol@
                        != positions@[i].symbol@) ==> final(self)@.contains_key(
                    (#[trigger] positions@[i]).symbol@,
                ) && final(self)@[positions@[i].symbol@] == positions@[i],
    {
        self.positions = Vec::new();
        self.by_symbol = Ghost(Map::empty());
        let mut n: usize = 0;
        while n < positions.len()
            invariant
                self.wf(),
                n <= positions@.len(),
                self@ == snapshot_map(positions@.subrange(0, n as int)),
            decreases positions@.len() - n,
        {
            proof {
                assert(positions@.subrange(0, n + 1).drop_last() =~= positions@.subrange(0, n as int));
            }
            self.upsert(positions[n].duplicate());
            n += 1;
        }
        assert(positions@.subrange(0, positions@.len() as int) =~= positions@);
        proof {
            lemma_snapshot_contents(positions@);
        }
    }

    /// A copy of every open position.
    pub fn get_positions(&self) -> (v: Vec<Position<N>>)
        requires
            self.wf(),
        ensures
            v@.len() == self@.len(),
            symbols_distinct(v@),
            forall|i: int|
                0 <= i < v@.len() ==> self@.contains_key((#[trigger] v@[i]).symbol@) && self@[v@[i].symbol@]
                    == v@[i],
            forall|k: Seq<char>|
                #[trigger] self@.contains_key(k) ==> exists|i: int| 0 <= i < v@.len() && (#[trigger] v@[i]).symbol@ == k,
    {
        let mut v: Vec<Position<N>> = Vec::new();
        let mut i: usize = 0;
        while i < self.positions.len()
            invariant
                self.wf(),
                i <= self.positions@.len(),
                v@ == self.positions@.subrange(0, i as int),
            decreases self.positions@.len() - i,
        {
            v.push(self.positions[i].duplicate());
            i += 1;
        }
        proof {
            assert(v@ =~= self.positions@);
            lemma_distinct_len(self.positions@, self.by_symbol@);
        }
        v
    }

    /// Applies a fill in `symbol` with direction `signal`, where `cmp` says
    /// how the fill's quantity compares with the quantity held. The effect is
    /// [`fill_effect_spec`]; the side of the resulting position is decided
    /// here, and its quantity, entry price, market value and unrealized P&L
    /// are taken from `next`, which the caller computed for that effect.
    pub fn apply_fill(&mut self, symbol: &str, signal: Signal, cmp: QtyComparison, next: Position<N>)
        -> (e: FillEffect)
        requires
            old(self).wf(),
        ensures
            final(self).wf(),
            e == fill_effect_spec(signal, held_side_spec(old(self)@, symbol@), cmp),
            e == FillEffect::Unchanged ==> final(self)@ == old(self)@,
            e == FillEffect::Close ==> final(self)@ == old(self)@.remove(symbol@),
            e != FillEffect::Unchanged && e != FillEffect::Close ==> {
                &&& final(self)@.remove(symbol@) == old(self)@.remove(symbol@)
                &&& final(self)@.contains_key(symbol@)
                &&& final(self)@[symbol@].symbol@ == symbol@
                &&& final(self)@[symbol@].side == match e {
                    FillEffect::Open(side) => side,
                    FillEffect::Reverse(side) => side,
                    _ => old(self)@[symbol@].side,
                }
                &&& final(self)@[symbol@].qty == next.qty
                &&& final(self)@[symbol@].avg_entry_price == next.avg_entry_price
                &&& final(self)@[symbol@].market_value == next.market_value
                &&& final(self)@[symbol@].unrealized_pl == next.unrealized_pl
            },
    {
        let held = self.held_side(symbol);
        let e = fill_effect(signal, held, cmp);
        let side = match e {
            FillEffect::Unchanged => {
                return e;
            },
            FillEffect::Close => {
                self.remove(symbol);
                return e;
            },
            FillEffect::Open(side) => side,
            FillEffect::Reverse(side) => side,
            FillEffect::Grow | FillEffect::Shrink => match held {
                Some(side) => side,
                None => Side::Long,
            },
        };
        let ghost before = self@;
        self.upsert(
            Position {
                symbol: symbol.to_owned(),
                side,
                qty: next.qty,
                avg_entry_price: next.avg_entry_price,
                market_value: next.market_value,
                unrealized_pl: next.unrealized_pl,
            },
        );
        assert(self@.remove(symbol@) =~= before.remove(symbol@));
        e
    }

    /// Number of open positions.
    pub fn len(&self) -> (n: usize)
        requires
            self.wf(),
        ensures
            n == self@.len(),
    {
        proof {
            lemma_distinct_len(self.positions@, self.by_symbol@);
        }
        self.positions.len()
    }
}

/// A sequence of positions with distinct symbols has as many entries as the
/// map it describes.
proof fn lemma_distinct_len<N>(s: Seq<Position<N>>, m: Map<Seq<char>, Position<N>>)
    requires
        positions_by_symbol(s, m),
    ensures
        m.dom().finite(),
        m.len() == s.len(),
    decreases s.len(),
{
    if s.len() == 0 {
        assert(m.dom() =~= Set::empty());
    } else {
        let last = s.last();
        let s2 = s.drop_last();
        let m2 = m.remove(last.symbol@);
        assert forall|i: int| 0 <= i < s2.len() implies m2.contains_key((#[trigger] s2[i]).symbol@)
            && m2[s2[i].symbol@] == s2[i] by {
            assert(s2[i] == s[i]);
            assert(s[i].symbol@ != s[s.len() - 1].symbol@);
        }
        assert forall|k: Seq<char>| #[trigger] m2.contains_key(k) implies exists|i: int|
            0 <= i < s2.len() && (#[trigger] s2[i]).symbol@ == k by {
            let j = choose|j: int| 0 <= j < s.len() && (#[trigger] s[j]).symbol@ == k;
            assert(j != s.len() - 1);
            assert(s2[j] == s[j]);
        }
        assert forall|a: int, b: int| 0 <= a < b < s2.len() implies (#[trigger] s2[a]).symbol@
            != (#[trigger] s2[b]).symbol@ by {
            assert(s2[a] == s[a] && s2[b] == s[b]);
        }
        lemma_distinct_len(s2, m2);
        assert(m.dom() =~= m2.dom().insert(last.symbol@));
    }
}

} // verus!
