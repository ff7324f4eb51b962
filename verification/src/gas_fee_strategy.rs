//! Per-service, per-trade gas fee strategies (compute unit limit, compute unit
//! price and tip), with "normal" and "high/low" strategies kept exclusive.

use vstd::prelude::*;

use crate::swqos::{all_swqos_types, swqos_index, trade_index, SwqosType, TradeType};

verus! {

/// How a fee is split between tip and compute unit price.
#[derive(Debug, Clone, Copy, PartialEq, Eq, Structural, Hash)]
pub enum GasFeeStrategyType {
    Normal,
    LowTipHighCuPrice,
    HighTipLowCuPrice,
}

/// Position of a strategy type in declaration order.
pub open spec fn strategy_index(g: GasFeeStrategyType) -> int {
    match g {
        GasFeeStrategyType::Normal => 0,
        GasFeeStrategyType::LowTipHighCuPrice => 1,
        GasFeeStrategyType::HighTipLowCuPrice => 2,
    }
}

/// The strategy type of a given position.
pub open spec fn strategy_at(i: int) -> GasFeeStrategyType {
    if i == 0 {
        GasFeeStrategyType::Normal
    } else if i == 1 {
        GasFeeStrategyType::LowTipHighCuPrice
    } else {
        GasFeeStrategyType::HighTipLowCuPrice
    }
}

impl GasFeeStrategyType {
    /// All strategy types in declaration order.
    pub fn values() -> (r: Vec<Self>)
        ensures
            r@ == seq![
                GasFeeStrategyType::Normal,
                GasFeeStrategyType::LowTipHighCuPrice,
                GasFeeStrategyType::HighTipLowCuPrice,
            ],
    {
        let r = vec![Self::Normal, Self::LowTipHighCuPrice, Self::HighTipLowCuPrice];
        assert(r@ =~= seq![
            GasFeeStrategyType::Normal,
            GasFeeStrategyType::LowTipHighCuPrice,
            GasFeeStrategyType::HighTipLowCuPrice,
        ]);
        r
    }

    /// Position of this strategy type in declaration order.
    pub fn index(&self) -> (r: usize)
        ensures
            r == strategy_index(*self),
    {
        match self {
            GasFeeStrategyType::Normal => 0,
            GasFeeStrategyType::LowTipHighCuPrice => 1,
            GasFeeStrategyType::HighTipLowCuPrice => 2,
        }
    }
}

/// Fee parameters of one strategy. The tip (in SOL) is carried as the bit
/// pattern of its IEEE-754 double, so it is stored and returned exactly.
#[derive(Debug, Clone, Copy, PartialEq, Eq, Structural)]
pub struct GasFeeStrategyValue {
    pub cu_limit: u32,
    pub cu_price: u64,
    pub tip_bits: u64,
}

/// A strategy table key: service, trade type and strategy type.
pub type StrategyKey = (SwqosType, TradeType, GasFeeStrategyType);

/// Number of distinct strategy keys.
pub const STRATEGY_SLOTS: usize = 180;

/// Slot of a key in the table.
pub open spec fn key_slot(k: StrategyKey) -> int {
    (swqos_index(k.0) * 4 + trade_index(k.1)) * 3 + strategy_index(k.2)
}

/// Distinct keys occupy distinct slots, all below `STRATEGY_SLOTS`.
pub proof fn lemma_key_slot_injective(a: StrategyKey, b: StrategyKey)
    ensures
        0 <= key_slot(a) < 180,
        key_slot(a) == key_slot(b) ==> a == b,
{
}

fn slot_of(s: SwqosType, t: TradeType, g: GasFeeStrategyType) -> (r: usize)
    ensures
        r == key_slot((s, t, g)),
        r < 180,
{
    (s.index() * 4 + t.index()) * 3 + g.index()
}

/// The strategies never hold a normal strategy together with a high/low strategy
/// for the same service and trade type.
pub open spec fn strategies_exclusive(m: Map<StrategyKey, GasFeeStrategyValue>) -> bool {
    forall|s: SwqosType, t: TradeType|
        #![trigger m.dom().contains((s, t, GasFeeStrategyType::Normal))]
        m.dom().contains((s, t, GasFeeStrategyType::Normal)) ==> !m.dom().contains(
            (s, t, GasFeeStrategyType::LowTipHighCuPrice),
        ) && !m.dom().contains((s, t, GasFeeStrategyType::HighTipLowCuPrice))
}

/// The table after `set`: the conflicting strategies of (service, trade) are gone and
/// the key holds the new value.
pub open spec fn after_set(
    m: Map<StrategyKey, GasFeeStrategyValue>,
    s: SwqosType,
    t: TradeType,
    g: GasFeeStrategyType,
    v: GasFeeStrategyValue,
) -> Map<StrategyKey, GasFeeStrategyValue> {
    let cleared = if g == GasFeeStrategyType::Normal {
        m.remove((s, t, GasFeeStrategyType::HighTipLowCuPrice)).remove(
            (s, t, GasFeeStrategyType::LowTipHighCuPrice),
        )
    } else {
        m.remove((s, t, GasFeeStrategyType::Normal))
    };
    cleared.insert((s, t, g), v)
}

/// Law: after a strategy is set, looking up its key gives the value set.
pub proof fn law_set_then_get(
    m: Map<StrategyKey, GasFeeStrategyValue>,
    s: SwqosType,
    t: TradeType,
    g: GasFeeStrategyType,
    v: GasFeeStrategyValue,
)
    ensures
        after_set(m, s, t, g, v).dom().contains((s, t, g)),
        after_set(m, s, t, g, v)[(s, t, g)] == v,
{
}

/// Law: setting a strategy never leaves a normal strategy beside a high/low one for the
/// same service and trade type, and keys of other (service, trade) pairs keep their
/// values.
pub proof fn law_set_keeps_exclusive(
    m: Map<StrategyKey, GasFeeStrategyValue>,
    s: SwqosType,
    t: TradeType,
    g: GasFeeStrategyType,
    v: GasFeeStrategyValue,
)
    requires
        strategies_exclusive(m),
    ensures
        strategies_exclusive(after_set(m, s, t, g, v)),
        forall|k: StrategyKey|
            k.0 != s || k.1 != t ==> (#[trigger] after_set(m, s, t, g, v).dom().contains(k) <==> m.dom().contains(k))
                && (m.dom().contains(k) ==> after_set(m, s, t, g, v)[k] == m[k]),
{
    let r = after_set(m, s, t, g, v);
    assert forall|s2: SwqosType, t2: TradeType|
        #![trigger r.dom().contains((s2, t2, GasFeeStrategyType::Normal))]
        r.dom().contains((s2, t2, GasFeeStrategyType::Normal)) implies !r.dom().contains(
            (s2, t2, GasFeeStrategyType::LowTipHighCuPrice),
        ) && !r.dom().contains((s2, t2, GasFeeStrategyType::HighTipLowCuPrice)) by {
        if s2 != s || t2 != t {
            assert(m.dom().contains((s2, t2, GasFeeStrategyType::Normal)));
        }
    }
}

/// The table without any strategy of (service, trade).
pub open spec fn after_del_all(
    m: Map<StrategyKey, GasFeeStrategyValue>,
    s: SwqosType,
    t: TradeType,
) -> Map<StrategyKey, GasFeeStrategyValue> {
    m.remove((s, t, GasFeeStrategyType::Normal)).remove(
        (s, t, GasFeeStrategyType::LowTipHighCuPrice),
    ).remove((s, t, GasFeeStrategyType::HighTipLowCuPrice))
}

/// A strategy value with its tip (`set_tip`) or its compute unit price replaced by `value`.
pub open spec fn updated_value(v: GasFeeStrategyValue, set_tip: bool, value: u64) -> GasFeeStrategyValue {
    if set_tip {
        GasFeeStrategyValue { tip_bits: value, ..v }
    } else {
        GasFeeStrategyValue { cu_price: value, ..v }
    }
}

/// The table with the tip (`set_tip`) or compute unit price of every strategy of trade
/// type `t` replaced by `value`; keys and other values unchanged.
pub open spec fn map_trade_values(
    m: Map<StrategyKey, GasFeeStrategyValue>,
    t: TradeType,
    set_tip: bool,
    value: u64,
) -> Map<StrategyKey, GasFeeStrategyValue> {
    Map::new(
        |k: StrategyKey| m.dom().contains(k),
        |k: StrategyKey| if k.1 == t { updated_value(m[k], set_tip, value) } else { m[k] },
    )
}

/// Gas fee strategies keyed by (service, trade type, strategy type).
#[derive(Clone)]
pub struct GasFeeStrategy {
    slots: Vec<Option<GasFeeStrategyValue>>,
}

impl View for GasFeeStrategy {
    type V = Map<StrategyKey, GasFeeStrategyValue>;

    closed spec fn view(&self) -> Map<StrategyKey, GasFeeStrategyValue> {
        Map::new(
            |k: StrategyKey| self.slots@[key_slot(k)] is Some,
            |k: StrategyKey| self.slots@[key_slot(k)]->Some_0,
        )
    }
}

impl GasFeeStrategy {
    /// The table has one slot per key, and the strategies are exclusive.
    pub closed spec fn well_formed(&self) -> bool {
        &&& self.slots@.len() == 180
        &&& strategies_exclusive(self@)
    }

    /// An empty table.
    pub fn new() -> (r: Self)
        ensures
            r.well_formed(),
            r@ == Map::<StrategyKey, GasFeeStrategyValue>::empty(),
    {
        let mut slots: Vec<Option<GasFeeStrategyValue>> = Vec::new();
        let mut i: usize = 0;
        while i < STRATEGY_SLOTS
            invariant
                i <= 180,
                slots@.len() == i,
                forall|j: int| 0 <= j < i ==> slots@[j] is None,
            decreases 180 - i,
        {
            slots.push(None);
            i = i + 1;
        }
        let r = GasFeeStrategy { slots };
        assert(r@ =~= Map::<StrategyKey, GasFeeStrategyValue>::empty());
        r
    }

    /// Stores or clears one slot.
    fn put(&mut self, s: SwqosType, t: TradeType, g: GasFeeStrategyType, v: Option<GasFeeStrategyValue>)
        requires
            old(self).slots@.len() == 180,
        ensures
            final(self).slots@.len() == 180,
            v is Some ==> final(self)@ == old(self)@.insert((s, t, g), v->Some_0),
            v is None ==> final(self)@ == old(self)@.remove((s, t, g)),
    {
        let idx = slot_of(s, t, g);
        self.slots.set(idx, v);
        proof {
            assert forall|k: StrategyKey| key_slot(k) == idx implies k == (s, t, g) by {
                lemma_key_slot_injective(k, (s, t, g));
            }
            if v is Some {
                assert(self@ =~= old(self)@.insert((s, t, g), v->Some_0));
            } else {
                assert(self@ =~= old(self)@.remove((s, t, g)));
            }
        }
    }

    /// Looks up the strategy of a key.
    pub fn get(&self, s: SwqosType, t: TradeType, g: GasFeeStrategyType) -> (r: Option<GasFeeStrategyValue>)
        requires
            self.well_formed(),
        ensures
            r is Some <==> self@.dom().contains((s, t, g)),
            r matches Some(v) ==> v == self@[(s, t, g)],
    {
        self.slots[slot_of(s, t, g)]
    }

    /// Removes the strategy of (service, trade, strategy type).
    pub fn del(&mut self, s: SwqosType, t: TradeType, g: GasFeeStrategyType)
        requires
            old(self).well_formed(),
        ensures
            final(self).well_formed(),
            final(self)@ == old(self)@.remove((s, t, g)),
    {
        self.put(s, t, g, None);
    }

    /// Removes all strategies of (service, trade).
    pub fn del_all(&mut self, s: SwqosType, t: TradeType)
        requires
            old(self).well_formed(),
        ensures
            final(self).well_formed(),
            final(self)@ == after_del_all(old(self)@, s, t),
    {
        self.put(s, t, GasFeeStrategyType::Normal, None);
        self.put(s, t, GasFeeStrategyType::LowTipHighCuPrice, None);
        self.put(s, t, GasFeeStrategyType::HighTipLowCuPrice, None);
    }

    /// Sets a strategy; setting a normal strategy removes the high/low strategies of
    /// (service, trade), and setting a high/low strategy removes the normal one.
    pub fn set(
        &mut self,
        swqos_type: SwqosType,
        trade_type: TradeType,
        strategy_type: GasFeeStrategyType,
        cu_limit: u32,
        cu_price: u64,
        tip_bits: u64,
    )
        requires
            old(self).well_formed(),
        ensures
            final(self).well_formed(),
            final(self)@ == after_set(
                old(self)@,
                swqos_type,
                trade_type,
                strategy_type,
                GasFeeStrategyValue { cu_limit, cu_price, tip_bits },
            ),
    {
        if strategy_type == GasFeeStrategyType::Normal {
            self.del(swqos_type, trade_type, GasFeeStrategyType::HighTipLowCuPrice);
            self.del(swqos_type, trade_type, GasFeeStrategyType::LowTipHighCuPrice);
        } else {
            self.del(swqos_type, trade_type, GasFeeStrategyType::Normal);
        }
        self.put(
            swqos_type,
            trade_type,
            strategy_type,
            Some(GasFeeStrategyValue { cu_limit, cu_price, tip_bits }),
        );
    }

    /// Updates the tip or the compute unit price of every strategy of trade type `t`.
    fn update_trade_values(&mut self, t: TradeType, set_tip: bool, value: u64)
        requires
            old(self).well_formed(),
        ensures
            final(self).well_formed(),
            final(self)@ == map_trade_values(old(self)@, t, set_tip, value),
    {
        let ghost old_slots = self.slots@;
        let ti = t.index();
        let mut i: usize = 0;
        while i < STRATEGY_SLOTS
            invariant
                i <= 180,
                self.slots@.len() == 180,
                old_slots.len() == 180,
                ti == trade_index(t),
                forall|j: int| i <= j < 180 ==> self.slots@[j] == old_slots[j],
                forall|j: int|
                    0 <= j < i ==> #[trigger] self.slots@[j] == (if (j / 3) % 4 == ti && old_slots[j] is Some {
                        Some(updated_value(old_slots[j]->Some_0, set_tip, value))
                    } else {
                        old_slots[j]
                    }),
            decreases 180 - i,
        {
            if (i / 3) % 4 == ti {
                match self.slots[i] {
                    Some(v) => {
                        let nv = if set_tip {
                            GasFeeStrategyValue { tip_bits: value, ..v }
                        } else {
                            GasFeeStrategyValue { cu_price: value, ..v }
                        };
                        self.slots.set(i, Some(nv));
                        assert(nv == updated_value(v, set_tip, value));
                    },
                    None => {},
                }
            }
            assert(self.slots@[i as int] == (if (i / 3) % 4 == ti && old_slots[i as int] is Some {
                Some(updated_value(old_slots[i as int]->Some_0, set_tip, value))
            } else {
                old_slots[i as int]
            }));
            i = i + 1;
        }
        proof {
            assert forall|k: StrategyKey| (key_slot(k) / 3) % 4 == trade_index(k.1) by {
                lemma_slot_trade(k);
            }
            assert forall|k: StrategyKey| #[trigger] key_slot(k) < 180 && key_slot(k) >= 0 by {
                lemma_key_slot_injective(k, k);
            }
            assert forall|k: StrategyKey| (trade_index(k.1) == ti) == (k.1 == t) by {}
            assert(self@ =~= map_trade_values(old(self)@, t, set_tip, value));
        }
    }

    /// Removes every strategy.
    pub fn clear(&mut self)
        requires
            old(self).well_formed(),
        ensures
            final(self).well_formed(),
            final(self)@ == Map::<StrategyKey, GasFeeStrategyValue>::empty(),
    {
        *self = GasFeeStrategy::new();
    }

    /// Sets the tip of every buy strategy, keeping the other parameters.
    pub fn update_buy_tip(&mut self, buy_tip_bits: u64)
        requires
            old(self).well_formed(),
        ensures
            final(self).well_formed(),
            final(self)@ == map_trade_values(old(self)@, TradeType::Buy, true, buy_tip_bits),
    {
        self.update_trade_values(TradeType::Buy, true, buy_tip_bits);
    }

    /// Sets the tip of every sell strategy, keeping the other parameters.
    pub fn update_sell_tip(&mut self, sell_tip_bits: u64)
        requires
            old(self).well_formed(),
        ensures
            final(self).well_formed(),
            final(self)@ == map_trade_values(old(self)@, TradeType::Sell, true, sell_tip_bits),
    {
        self.update_trade_values(TradeType::Sell, true, sell_tip_bits);
    }

    /// Sets the compute unit price of every buy strategy, keeping the other parameters.
    pub fn update_buy_cu_price(&mut self, buy_cu_price: u64)
        requires
            old(self).well_formed(),
        ensures
            final(self).well_formed(),
            final(self)@ == map_trade_values(old(self)@, TradeType::Buy, false, buy_cu_price),
    {
        self.update_trade_values(TradeType::Buy, false, buy_cu_price);
    }

    /// Sets the compute unit price of every sell strategy, keeping the other parameters.
    pub fn update_sell_cu_price(&mut self, sell_cu_price: u64)
        requires
            old(self).well_formed(),
        ensures
            final(self).well_formed(),
            final(self)@ == map_trade_values(old(self)@, TradeType::Sell, false, sell_cu_price),
    {
        self.update_trade_values(TradeType::Sell, false, sell_cu_price);
    }
}

/// Listing rank of a (service, strategy type) pair: by service, then strategy type.
pub open spec fn entry_rank(s: SwqosType, g: GasFeeStrategyType) -> int {
    swqos_index(s) * 3 + strategy_index(g)
}

/// `list` holds exactly the strategies of trade type `t` in `m`, each once, ordered by
/// service and then strategy type.
pub open spec fn lists_trade_strategies(
    list: Seq<(SwqosType, GasFeeStrategyType, GasFeeStrategyValue)>,
    m: Map<StrategyKey, GasFeeStrategyValue>,
    t: TradeType,
) -> bool {
    &&& forall|i: int|
        0 <= i < list.len() ==> m.dom().contains((#[trigger] list[i].0, t, list[i].1)) && m[(
            list[i].0,
            t,
            list[i].1,
        )] == list[i].2
    &&& forall|s: SwqosType, g: GasFeeStrategyType|
        #[trigger] m.dom().contains((s, t, g)) ==> exists|i: int|
            0 <= i < list.len() && list[i].0 == s && list[i].1 == g
    &&& forall|i: int, j: int|
        0 <= i < j < list.len() ==> entry_rank(list[i].0, list[i].1) < entry_rank(
            list[j].0,
            list[j].1,
        )
}

fn strategy_from_index(i: usize) -> (r: GasFeeStrategyType)
    requires
        i < 3,
    ensures
        r == strategy_at(i as int),
        strategy_index(r) == i,
{
    if i == 0 {
        GasFeeStrategyType::Normal
    } else if i == 1 {
        GasFeeStrategyType::LowTipHighCuPrice
    } else {
        GasFeeStrategyType::HighTipLowCuPrice
    }
}

proof fn lemma_rank_decode(s: SwqosType, g: GasFeeStrategyType)
    ensures
        0 <= entry_rank(s, g) < 45,
        all_swqos_types()[entry_rank(s, g) / 3] == s,
        strategy_at(entry_rank(s, g) % 3) == g,
{
    crate::swqos::lemma_all_swqos_types_indexed(s);
}

impl GasFeeStrategy {
    /// All strategies of a trade type as (service, strategy type, value), each once,
    /// ordered by service and then strategy type.
    pub fn get_strategies(&self, trade_type: TradeType) -> (r: Vec<(SwqosType, GasFeeStrategyType, GasFeeStrategyValue)>)
        requires
            self.well_formed(),
        ensures
            lists_trade_strategies(r@, self@, trade_type),
    {
        let types = SwqosType::values();
        let mut result: Vec<(SwqosType, GasFeeStrategyType, GasFeeStrategyValue)> = Vec::new();
        let mut rank: usize = 0;
        while rank < 45
            invariant
                rank <= 45,
                self.well_formed(),
                types@ == all_swqos_types(),
                forall|i: int|
                    0 <= i < result@.len() ==> self@.dom().contains(
                        (#[trigger] result@[i].0, trade_type, result@[i].1),
                    ) && self@[(result@[i].0, trade_type, result@[i].1)] == result@[i].2
                        && entry_rank(result@[i].0, result@[i].1) < rank,
                forall|s: SwqosType, g: GasFeeStrategyType|
                    #[trigger] self@.dom().contains((s, trade_type, g)) && entry_rank(s, g)
                        < rank ==> exists|i: int|
                        0 <= i < result@.len() && result@[i].0 == s && result@[i].1 == g,
                forall|i: int, j: int|
                    0 <= i < j < result@.len() ==> entry_rank(result@[i].0, result@[i].1)
                        < entry_rank(result@[j].0, result@[j].1),
            decreases 45 - rank,
        {
            let s = types[rank / 3];
            let g = strategy_from_index(rank % 3);
            proof {
                crate::swqos::lemma_all_swqos_types_indexed(s);
                assert(swqos_index(s) == rank / 3) by {
                    assert(all_swqos_types()[swqos_index(s)] == s);
                    // the listed types are pairwise distinct
                    assert(forall|a: int, b: int|
                        0 <= a < 15 && 0 <= b < 15 && a != b ==> all_swqos_types()[a]
                            != all_swqos_types()[b]);
                }
                assert(entry_rank(s, g) == rank);
            }
            let ghost before = result@;
            match self.get(s, trade_type, g) {
                Some(v) => {
                    result.push((s, g, v));
                },
                None => {},
            }
            proof {
                assert forall|s2: SwqosType, g2: GasFeeStrategyType|
                    #[trigger] self@.dom().contains((s2, trade_type, g2)) && entry_rank(s2, g2)
                        < rank + 1 implies exists|i: int|
                        0 <= i < result@.len() && result@[i].0 == s2 && result@[i].1 == g2 by {
                    if entry_rank(s2, g2) == rank {
                        lemma_rank_decode(s2, g2);
                        assert(s2 == s && g2 == g);
                        assert(result@[result@.len() - 1].0 == s2);
                    } else {
                        let i = choose|i: int|
                            0 <= i < before.len() && before[i].0 == s2 && before[i].1 == g2;
                        assert(result@[i] == before[i]);
                    }
                }
            }
            rank = rank + 1;
        }
        result
    }
}

/// The table after high/low strategies are set for every service of `types` and trade
/// type `t`: their normal strategies are removed, the low-tip/high-price strategy is
/// `low_tip_value` and the high-tip/low-price strategy is `high_tip_value`.
pub open spec fn high_low_result(
    m: Map<StrategyKey, GasFeeStrategyValue>,
    types: Seq<SwqosType>,
    t: TradeType,
    low_tip_value: GasFeeStrategyValue,
    high_tip_value: GasFeeStrategyValue,
) -> Map<StrategyKey, GasFeeStrategyValue> {
    Map::new(
        |k: StrategyKey|
            if types.contains(k.0) && k.1 == t {
                k.2 != GasFeeStrategyType::Normal
            } else {
                m.dom().contains(k)
            },
        |k: StrategyKey|
            if types.contains(k.0) && k.1 == t {
                if k.2 == GasFeeStrategyType::LowTipHighCuPrice {
                    low_tip_value
                } else {
                    high_tip_value
                }
            } else {
                m[k]
            },
    )
}

/// The table after normal strategies are set for every service of `types`: for buys
/// and sells only the normal strategy remains, holding `buy_value` / `sell_value`.
pub open spec fn normal_result(
    m: Map<StrategyKey, GasFeeStrategyValue>,
    types: Seq<SwqosType>,
    buy_value: GasFeeStrategyValue,
    sell_value: GasFeeStrategyValue,
) -> Map<StrategyKey, GasFeeStrategyValue> {
    Map::new(
        |k: StrategyKey|
            if types.contains(k.0) && (k.1 == TradeType::Buy || k.1 == TradeType::Sell) {
                k.2 == GasFeeStrategyType::Normal
            } else {
                m.dom().contains(k)
            },
        |k: StrategyKey|
            if types.contains(k.0) && k.1 == TradeType::Buy {
                buy_value
            } else if types.contains(k.0) && k.1 == TradeType::Sell {
                sell_value
            } else {
                m[k]
            },
    )
}

/// All services but the default RPC.
pub open spec fn non_default_swqos_types() -> Seq<SwqosType> {
    all_swqos_types().take(14)
}

impl GasFeeStrategy {
    /// Sets the high/low strategies of (service, trade), removing its normal strategy.
    fn set_high_low_one(
        &mut self,
        swqos_type: SwqosType,
        trade_type: TradeType,
        cu_limit: u32,
        low_cu_price: u64,
        high_cu_price: u64,
        low_tip_bits: u64,
        high_tip_bits: u64,
    )
        requires
            old(self).well_formed(),
        ensures
            final(self).well_formed(),
            final(self)@ == high_low_result(
                old(self)@,
                seq![swqos_type],
                trade_type,
                GasFeeStrategyValue { cu_limit, cu_price: high_cu_price, tip_bits: low_tip_bits },
                GasFeeStrategyValue { cu_limit, cu_price: low_cu_price, tip_bits: high_tip_bits },
            ),
    {
        self.del(swqos_type, trade_type, GasFeeStrategyType::Normal);
        self.set(
            swqos_type,
            trade_type,
            GasFeeStrategyType::LowTipHighCuPrice,
            cu_limit,
            high_cu_price,
            low_tip_bits,
        );
        self.set(
            swqos_type,
            trade_type,
            GasFeeStrategyType::HighTipLowCuPrice,
            cu_limit,
            low_cu_price,
            high_tip_bits,
        );
        proof {
            assert(seq![swqos_type].contains(swqos_type)) by {
                assert(seq![swqos_type][0] == swqos_type);
            }
            assert(self@ =~= high_low_result(
                old(self)@,
                seq![swqos_type],
                trade_type,
                GasFeeStrategyValue { cu_limit, cu_price: high_cu_price, tip_bits: low_tip_bits },
                GasFeeStrategyValue { cu_limit, cu_price: low_cu_price, tip_bits: high_tip_bits },
            ));
        }
    }

    /// Sets the normal buy and sell strategies of a service, removing its high/low ones.
    fn set_normal_one(
        &mut self,
        swqos_type: SwqosType,
        buy_value: GasFeeStrategyValue,
        sell_value: GasFeeStrategyValue,
    )
        requires
            old(self).well_formed(),
        ensures
            final(self).well_formed(),
            final(self)@ == normal_result(old(self)@, seq![swqos_type], buy_value, sell_value),
    {
        self.del_all(swqos_type, TradeType::Buy);
        self.del_all(swqos_type, TradeType::Sell);
        self.set(
            swqos_type,
            TradeType::Buy,
            GasFeeStrategyType::Normal,
            buy_value.cu_limit,
            buy_value.cu_price,
            buy_value.tip_bits,
        );
        self.set(
            swqos_type,
            TradeType::Sell,
            GasFeeStrategyType::Normal,
            sell_value.cu_limit,
            sell_value.cu_price,
            sell_value.tip_bits,
        );
        proof {
            assert(seq![swqos_type].contains(swqos_type)) by {
                assert(seq![swqos_type][0] == swqos_type);
            }
            assert(self@ =~= normal_result(old(self)@, seq![swqos_type], buy_value, sell_value));
        }
    }

    /// Adds high/low fee strategies for several services and one trade type, removing
    /// their normal strategies for that trade type.
    pub fn set_high_low_fee_strategies(
        &mut self,
        swqos_types: &[SwqosType],
        trade_type: TradeType,
        cu_limit: u32,
        low_cu_price: u64,
        high_cu_price: u64,
        low_tip_bits: u64,
        high_tip_bits: u64,
    )
        requires
            old(self).well_formed(),
        ensures
            final(self).well_formed(),
            final(self)@ == high_low_result(
                old(self)@,
                swqos_types@,
                trade_type,
                GasFeeStrategyValue { cu_limit, cu_price: high_cu_price, tip_bits: low_tip_bits },
                GasFeeStrategyValue { cu_limit, cu_price: low_cu_price, tip_bits: high_tip_bits },
            ),
    {
        let ghost low_v = GasFeeStrategyValue { cu_limit, cu_price: high_cu_price, tip_bits: low_tip_bits };
        let ghost high_v = GasFeeStrategyValue { cu_limit, cu_price: low_cu_price, tip_bits: high_tip_bits };
        let ghost start = self@;
        let mut i: usize = 0;
        proof {
            assert(self@ =~= high_low_result(start, swqos_types@.take(0), trade_type, low_v, high_v));
        }
        while i < swqos_types.len()
            invariant
                i <= swqos_types@.len(),
                self.well_formed(),
                self@ == high_low_result(start, swqos_types@.take(i as int), trade_type, low_v, high_v),
                low_v == (GasFeeStrategyValue { cu_limit, cu_price: high_cu_price, tip_bits: low_tip_bits }),
                high_v == (GasFeeStrategyValue { cu_limit, cu_price: low_cu_price, tip_bits: high_tip_bits }),
            decreases swqos_types@.len() - i,
        {
            let ghost before = self@;
            let s = swqos_types[i];
            self.set_high_low_one(
                s,
                trade_type,
                cu_limit,
                low_cu_price,
                high_cu_price,
                low_tip_bits,
                high_tip_bits,
            );
            proof {
                let prev = swqos_types@.take(i as int);
                let next = swqos_types@.take(i + 1);
                assert(next =~= prev.push(s));
                assert forall|x: SwqosType| next.contains(x) <==> (prev.contains(x) || x == s) by {
                    if next.contains(x) {
                        let j = choose|j: int| 0 <= j < next.len() && next[j] == x;
                        if j < prev.len() {
                            assert(prev[j] == x);
                        }
                    }
                    if prev.contains(x) {
                        let j = choose|j: int| 0 <= j < prev.len() && prev[j] == x;
                        assert(next[j] == x);
                    }
                    if x == s {
                        assert(next[i as int] == x);
                    }
                }
                assert(seq![s].contains(s)) by {
                    assert(seq![s][0] == s);
                }
                assert forall|x: SwqosType| #[trigger] seq![s].contains(x) <==> x == s by {
                    if seq![s].contains(x) {
                        let j = choose|j: int| 0 <= j < 1 && seq![s][j] == x;
                    }
                }
                let target = high_low_result(start, next, trade_type, low_v, high_v);
                assert forall|k: StrategyKey| #[trigger] self@.dom().contains(k) <==> target.dom().contains(k) by {
                    assert(seq![s].contains(k.0) <==> k.0 == s);
                    assert(next.contains(k.0) <==> (prev.contains(k.0) || k.0 == s));
                }
                assert forall|k: StrategyKey| #[trigger] self@.dom().contains(k) implies self@[k] == target[k] by {
                    assert(seq![s].contains(k.0) <==> k.0 == s);
                    assert(next.contains(k.0) <==> (prev.contains(k.0) || k.0 == s));
                    assert(target.dom().contains(k));
                    if k.0 == s && k.1 == trade_type {
                        if k.2 == GasFeeStrategyType::LowTipHighCuPrice {
                            assert(self@[k] == low_v);
                            assert(target[k] == low_v);
                        } else {
                            assert(self@[k] == high_v);
                            assert(target[k] == high_v);
                        }
                    } else {
                        assert(before.dom().contains(k));
                        assert(self@[k] == before[k]);
                        if prev.contains(k.0) && k.1 == trade_type {
                            assert(target[k] == before[k]);
                        } else {
                            assert(start.dom().contains(k));
                            assert(before[k] == start[k]);
                            assert(target[k] == start[k]);
                        }
                    }
                }
                assert(self@ =~= target);
            }
            i = i + 1;
        }
        proof {
            assert(swqos_types@.take(swqos_types@.len() as int) =~= swqos_types@);
        }
    }
}

/// Membership in a sequence extended by one element.
proof fn lemma_take_push_contains(types: Seq<SwqosType>, i: int, x: SwqosType)
    requires
        0 <= i < types.len(),
    ensures
        types.take(i + 1).contains(x) <==> (types.take(i).contains(x) || x == types[i]),
        seq![types[i]].contains(x) <==> x == types[i],
{
    let prev = types.take(i);
    let next = types.take(i + 1);
    if next.contains(x) {
        let j = choose|j: int| 0 <= j < next.len() && next[j] == x;
        if j < prev.len() {
            assert(prev[j] == x);
        }
    }
    if prev.contains(x) {
        let j = choose|j: int| 0 <= j < prev.len() && prev[j] == x;
        assert(next[j] == x);
    }
    if x == types[i] {
        assert(next[i] == x);
        assert(seq![types[i]][0] == x);
    }
    if seq![types[i]].contains(x) {
        let j = choose|j: int| 0 <= j < 1 && seq![types[i]][j] == x;
    }
}

impl GasFeeStrategy {
    /// Adds normal fee strategies for several services, removing their high/low
    /// strategies for buys and sells.
    pub fn set_normal_fee_strategies(
        &mut self,
        swqos_types: &[SwqosType],
        cu_limit: u32,
        cu_price: u64,
        buy_tip_bits: u64,
        sell_tip_bits: u64,
    )
        requires
            old(self).well_formed(),
        ensures
            final(self).well_formed(),
            final(self)@ == normal_result(
                old(self)@,
                swqos_types@,
                GasFeeStrategyValue { cu_limit, cu_price, tip_bits: buy_tip_bits },
                GasFeeStrategyValue { cu_limit, cu_price, tip_bits: sell_tip_bits },
            ),
    {
        let ghost buy_v = GasFeeStrategyValue { cu_limit, cu_price, tip_bits: buy_tip_bits };
        let ghost sell_v = GasFeeStrategyValue { cu_limit, cu_price, tip_bits: sell_tip_bits };
        let ghost start = self@;
        let mut i: usize = 0;
        proof {
            assert(self@ =~= normal_result(start, swqos_types@.take(0), buy_v, sell_v));
        }
        while i < swqos_types.len()
            invariant
                i <= swqos_types@.len(),
                self.well_formed(),
                self@ == normal_result(start, swqos_types@.take(i as int), buy_v, sell_v),
                buy_v == (GasFeeStrategyValue { cu_limit, cu_price, tip_bits: buy_tip_bits }),
                sell_v == (GasFeeStrategyValue { cu_limit, cu_price, tip_bits: sell_tip_bits }),
            decreases swqos_types@.len() - i,
        {
            let ghost before = self@;
            let s = swqos_types[i];
            self.set_normal_one(
                s,
                GasFeeStrategyValue { cu_limit, cu_price, tip_bits: buy_tip_bits },
                GasFeeStrategyValue { cu_limit, cu_price, tip_bits: sell_tip_bits },
            );
            proof {
                let prev = swqos_types@.take(i as int);
                let next = swqos_types@.take(i + 1);
                let target = normal_result(start, next, buy_v, sell_v);
                assert forall|k: StrategyKey| #[trigger] self@.dom().contains(k) <==> target.dom().contains(k) by {
                    lemma_take_push_contains(swqos_types@, i as int, k.0);
                }
                assert forall|k: StrategyKey| #[trigger] self@.dom().contains(k) implies self@[k] == target[k] by {
                    lemma_take_push_contains(swqos_types@, i as int, k.0);
                    assert(target.dom().contains(k));
                    let bs = k.1 == TradeType::Buy || k.1 == TradeType::Sell;
                    if !(k.0 == s && bs) {
                        assert(before.dom().contains(k));
                        if !(prev.contains(k.0) && bs) {
                            assert(start.dom().contains(k));
                        }
                    }
                }
                assert(self@ =~= target);
            }
            i = i + 1;
        }
        proof {
            assert(swqos_types@.take(swqos_types@.len() as int) =~= swqos_types@);
        }
    }

    /// Adds normal fee strategies for one service, removing its high/low strategies
    /// for buys and sells.
    pub fn set_normal_fee_strategy(
        &mut self,
        swqos_type: SwqosType,
        cu_limit: u32,
        cu_price: u64,
        buy_tip_bits: u64,
        sell_tip_bits: u64,
    )
        requires
            old(self).well_formed(),
        ensures
            final(self).well_formed(),
            final(self)@ == normal_result(
                old(self)@,
                seq![swqos_type],
                GasFeeStrategyValue { cu_limit, cu_price, tip_bits: buy_tip_bits },
                GasFeeStrategyValue { cu_limit, cu_price, tip_bits: sell_tip_bits },
            ),
    {
        self.set_normal_one(
            swqos_type,
            GasFeeStrategyValue { cu_limit, cu_price, tip_bits: buy_tip_bits },
            GasFeeStrategyValue { cu_limit, cu_price, tip_bits: sell_tip_bits },
        );
    }

    /// Adds high/low fee strategies for one service and trade type, removing its normal
    /// strategy for that trade type; the default RPC is left unchanged.
    pub fn set_high_low_fee_strategy(
        &mut self,
        swqos_type: SwqosType,
        trade_type: TradeType,
        cu_limit: u32,
        low_cu_price: u64,
        high_cu_price: u64,
        low_tip_bits: u64,
        high_tip_bits: u64,
    )
        requires
            old(self).well_formed(),
        ensures
            final(self).well_formed(),
            swqos_type == SwqosType::Default ==> final(self)@ == old(self)@,
            swqos_type != SwqosType::Default ==> final(self)@ == high_low_result(
                old(self)@,
                seq![swqos_type],
                trade_type,
                GasFeeStrategyValue { cu_limit, cu_price: high_cu_price, tip_bits: low_tip_bits },
                GasFeeStrategyValue { cu_limit, cu_price: low_cu_price, tip_bits: high_tip_bits },
            ),
    {
        if swqos_type == SwqosType::Default {
            return;
        }
        self.set_high_low_one(
            swqos_type,
            trade_type,
            cu_limit,
            low_cu_price,
            high_cu_price,
            low_tip_bits,
            high_tip_bits,
        );
    }

    /// Sets the normal buy and sell strategies of every service; the default RPC gets
    /// a zero tip (the bit pattern of +0.0).
    pub fn set_global_fee_strategy(
        &mut self,
        buy_cu_limit: u32,
        sell_cu_limit: u32,
        buy_cu_price: u64,
        sell_cu_price: u64,
        buy_tip_bits: u64,
        sell_tip_bits: u64,
    )
        requires
            old(self).well_formed(),
        ensures
            final(self).well_formed(),
            final(self)@ == normal_result(
                normal_result(
                    old(self)@,
                    non_default_swqos_types(),
                    GasFeeStrategyValue { cu_limit: buy_cu_limit, cu_price: buy_cu_price, tip_bits: buy_tip_bits },
                    GasFeeStrategyValue { cu_limit: sell_cu_limit, cu_price: sell_cu_price, tip_bits: sell_tip_bits },
                ),
                seq![SwqosType::Default],
                GasFeeStrategyValue { cu_limit: buy_cu_limit, cu_price: buy_cu_price, tip_bits: 0 },
                GasFeeStrategyValue { cu_limit: sell_cu_limit, cu_price: sell_cu_price, tip_bits: 0 },
            ),
    {
        let types = SwqosType::values();
        let ghost buy_v = GasFeeStrategyValue { cu_limit: buy_cu_limit, cu_price: buy_cu_price, tip_bits: buy_tip_bits };
        let ghost sell_v = GasFeeStrategyValue { cu_limit: sell_cu_limit, cu_price: sell_cu_price, tip_bits: sell_tip_bits };
        let ghost start = self@;
        let mut i: usize = 0;
        proof {
            assert(self@ =~= normal_result(start, types@.take(0), buy_v, sell_v));
        }
        while i < 14
            invariant
                i <= 14,
                types@ == all_swqos_types(),
                self.well_formed(),
                self@ == normal_result(start, types@.take(i as int), buy_v, sell_v),
                buy_v == (GasFeeStrategyValue { cu_limit: buy_cu_limit, cu_price: buy_cu_price, tip_bits: buy_tip_bits }),
                sell_v == (GasFeeStrategyValue { cu_limit: sell_cu_limit, cu_price: sell_cu_price, tip_bits: sell_tip_bits }),
            decreases 14 - i,
        {
            let ghost before = self@;
            let s = types[i];
            self.set_normal_one(
                s,
                GasFeeStrategyValue { cu_limit: buy_cu_limit, cu_price: buy_cu_price, tip_bits: buy_tip_bits },
                GasFeeStrategyValue { cu_limit: sell_cu_limit, cu_price: sell_cu_price, tip_bits: sell_tip_bits },
            );
            proof {
                let prev = types@.take(i as int);
                let next = types@.take(i + 1);
                let target = normal_result(start, next, buy_v, sell_v);
                assert forall|k: StrategyKey| #[trigger] self@.dom().contains(k) <==> target.dom().contains(k) by {
                    lemma_take_push_contains(types@, i as int, k.0);
                }
                assert forall|k: StrategyKey| #[trigger] self@.dom().contains(k) implies self@[k] == target[k] by {
                    lemma_take_push_contains(types@, i as int, k.0);
                    assert(target.dom().contains(k));
                    let bs = k.1 == TradeType::Buy || k.1 == TradeType::Sell;
                    if !(k.0 == s && bs) {
                        assert(before.dom().contains(k));
                        if !(prev.contains(k.0) && bs) {
                            assert(start.dom().contains(k));
                        }
                    }
                }
                assert(self@ =~= target);
            }
            i = i + 1;
        }
        self.set_normal_one(
            SwqosType::Default,
            GasFeeStrategyValue { cu_limit: buy_cu_limit, cu_price: buy_cu_price, tip_bits: 0 },
            GasFeeStrategyValue { cu_limit: sell_cu_limit, cu_price: sell_cu_price, tip_bits: 0 },
        );
    }
}

/// The trade index can be read back from a key's slot.
proof fn lemma_slot_trade(k: StrategyKey)
    ensures
        (key_slot(k) / 3) % 4 == trade_index(k.1),
{
    let a = swqos_index(k.0);
    let b = trade_index(k.1);
    let c = strategy_index(k.2);
    assert(((a * 4 + b) * 3 + c) / 3 == a * 4 + b) by (nonlinear_arith)
        requires
            0 <= c < 3,
            0 <= a,
            0 <= b,
    ;
    assert((a * 4 + b) % 4 == b) by (nonlinear_arith)
        requires
            0 <= b < 4,
            0 <= a,
    ;
}

} // verus!
