//! The volume profile of a list of trades: how much was traded at each
//! price, where most was traded, and the range of the prices that carry the
//! bulk of the volume.

use crate::window::{in_range, MAX_VALUE};
use vstd::prelude::*;

verus! {

/// The volume traded at one price.
#[derive(Clone, Copy, Debug, PartialEq, Eq, Structural)]
pub struct PriceLevel {
    pub price: i64,
    pub volume: i128,
}

/// The levels of a profile, the point of control (the price at which most
/// was traded), and the high and the low of the value area.
#[derive(Debug)]
pub struct VolumeProfile {
    pub levels: Vec<PriceLevel>,
    pub poc: i64,
    pub vah: i64,
    pub val: i64,
}

/// The volume that the trades moved at a price.
pub open spec fn volume_at(trades: Seq<(i64, i64)>, price: i64) -> int
    decreases trades.len(),
{
    if trades.len() == 0 {
        0
    } else {
        volume_at(trades.drop_last(), price) + if trades.last().0 == price {
            trades.last().1 as int
        } else {
            0
        }
    }
}

/// Whether one of the trades was at the price.
pub open spec fn traded_at(trades: Seq<(i64, i64)>, price: i64) -> bool {
    exists|i: int| 0 <= i < trades.len() && (#[trigger] trades[i]).0 == price
}

/// Whether one of the levels is at the price.
pub open spec fn has_level(levels: Seq<PriceLevel>, price: i64) -> bool {
    exists|j: int| 0 <= j < levels.len() && (#[trigger] levels[j]).price == price
}

/// Whether the levels are those of the trades: one level for each price
/// traded, none for any other price, none twice, and each with the volume
/// that the trades moved at its price.
pub open spec fn levels_of(levels: Seq<PriceLevel>, trades: Seq<(i64, i64)>) -> bool {
    &&& forall|j: int|
        0 <= j < levels.len() ==> traded_at(trades, (#[trigger] levels[j]).price)
            && levels[j].volume == volume_at(trades, levels[j].price)
    &&& forall|i: int| 0 <= i < trades.len() ==> has_level(levels, (#[trigger] trades[i]).0)
    &&& forall|j: int, k: int|
        0 <= j < levels.len() && 0 <= k < levels.len() && j != k ==> (#[trigger] levels[j]).price
            != (#[trigger] levels[k]).price
}

/// Whether one level comes before another in a profile: the one with more
/// volume first, and of two with the same volume the one at the lower price.
pub open spec fn comes_before(a: PriceLevel, b: PriceLevel) -> bool {
    a.volume > b.volume || (a.volume == b.volume && a.price < b.price)
}

/// Whether the levels stand in the order of a profile.
pub open spec fn in_profile_order(levels: Seq<PriceLevel>) -> bool {
    forall|j: int, k: int| 0 <= j < k < levels.len() ==> comes_before(levels[j], levels[k])
}

/// The volume of the first `count` levels together.
pub open spec fn volume_through(levels: Seq<PriceLevel>, count: nat) -> int
    decreases count,
{
    if count == 0 {
        0
    } else {
        volume_through(levels, (count - 1) as nat) + levels[count - 1].volume
    }
}

/// Whether the level at a place lies in the value area: the levels up to
/// and with it carry at most seven tenths of all volume.
pub open spec fn in_value_area(levels: Seq<PriceLevel>, place: int) -> bool {
    10 * volume_through(levels, (place + 1) as nat) <= 7 * volume_through(levels, levels.len())
}

/// The highest price among the point of control and those of the first
/// `count` levels that lie in the value area.
pub open spec fn area_high(levels: Seq<PriceLevel>, count: nat) -> int
    decreases count,
{
    if count == 0 {
        levels[0].price as int
    } else {
        let high = area_high(levels, (count - 1) as nat);
        if in_value_area(levels, count - 1) && levels[count - 1].price > high {
            levels[count - 1].price as int
        } else {
            high
        }
    }
}

/// The lowest price among the point of control and those of the first
/// `count` levels that lie in the value area.
pub open spec fn area_low(levels: Seq<PriceLevel>, count: nat) -> int
    decreases count,
{
    if count == 0 {
        levels[0].price as int
    } else {
        let low = area_low(levels, (count - 1) as nat);
        if in_value_area(levels, count - 1) && levels[count - 1].price < low {
            levels[count - 1].price as int
        } else {
            low
        }
    }
}

/// Whether every price and volume of the trades is in range.
pub open spec fn trades_in_range(trades: Seq<(i64, i64)>) -> bool {
    forall|i: int|
        0 <= i < trades.len() ==> in_range((#[trigger] trades[i]).0) && in_range(trades[i].1)
}

/// The size of a volume.
pub open spec fn size_of_volume(volume: i64) -> int {
    if volume < 0 {
        -volume
    } else {
        volume as int
    }
}

/// The sizes of the volumes of the trades at a price, together.
pub open spec fn moved_at(trades: Seq<(i64, i64)>, price: i64) -> int
    decreases trades.len(),
{
    if trades.len() == 0 {
        0
    } else {
        moved_at(trades.drop_last(), price) + if trades.last().0 == price {
            size_of_volume(trades.last().1)
        } else {
            0
        }
    }
}

/// The sizes of the volumes of all the trades, together.
pub open spec fn moved(trades: Seq<(i64, i64)>) -> int
    decreases trades.len(),
{
    if trades.len() == 0 {
        0
    } else {
        moved(trades.drop_last()) + size_of_volume(trades.last().1)
    }
}

/// What the trades moved, in size, at the prices of the first `count` levels
/// together.
pub open spec fn moved_through(levels: Seq<PriceLevel>, trades: Seq<(i64, i64)>, count: nat) -> int
    decreases count,
{
    if count == 0 {
        0
    } else {
        moved_through(levels, trades, (count - 1) as nat) + moved_at(trades, levels[count - 1].price)
    }
}

/// Whether no two of the first `count` levels are at one price.
pub open spec fn distinct_prices(levels: Seq<PriceLevel>, count: nat) -> bool {
    forall|j: int, k: int|
        0 <= j < count && 0 <= k < count && j != k ==> (#[trigger] levels[j]).price != (
        #[trigger] levels[k]).price
}

proof fn lemma_volume_at_bounded(trades: Seq<(i64, i64)>, price: i64)
    requires
        trades_in_range(trades),
    ensures
        -moved_at(trades, price) <= volume_at(trades, price) <= moved_at(trades, price),
        0 <= moved_at(trades, price) <= trades.len() * MAX_VALUE,
    decreases trades.len(),
{
    if trades.len() > 0 {
        lemma_volume_at_bounded(trades.drop_last(), price);
        assert(in_range(trades[trades.len() - 1].1));
    }
}

proof fn lemma_moved_bounded(trades: Seq<(i64, i64)>)
    requires
        trades_in_range(trades),
    ensures
        0 <= moved(trades) <= trades.len() * MAX_VALUE,
    decreases trades.len(),
{
    if trades.len() > 0 {
        lemma_moved_bounded(trades.drop_last());
        assert(in_range(trades[trades.len() - 1].1));
    }
}

/// One more trade adds its size to what was moved at the levels' prices
/// where one of the levels is at its price, and nothing where none is.
proof fn lemma_moved_through_step(levels: Seq<PriceLevel>, trades: Seq<(i64, i64)>, count: nat)
    requires
        trades.len() > 0,
        count <= levels.len(),
        distinct_prices(levels, count),
    ensures
        moved_through(levels, trades, count) <= moved_through(levels, trades.drop_last(), count)
            + size_of_volume(trades.last().1),
        moved_through(levels, trades, count) >= moved_through(levels, trades.drop_last(), count),
        (forall|j: int| 0 <= j < count ==> (#[trigger] levels[j]).price != trades.last().0)
            ==> moved_through(levels, trades, count) == moved_through(
            levels,
            trades.drop_last(),
            count,
        ),
    decreases count,
{
    if count > 0 {
        let fewer = (count - 1) as nat;
        lemma_moved_through_step(levels, trades, fewer);
        if levels[count - 1].price == trades.last().0 {
            assert forall|j: int| 0 <= j < fewer implies (#[trigger] levels[j]).price
                != trades.last().0 by {
                assert(levels[j].price != levels[count - 1].price);
            }
        }
    }
}

/// The first levels of some trades, at prices of their own, moved together
/// no more than all the trades did.
proof fn lemma_moved_through_bounded(levels: Seq<PriceLevel>, trades: Seq<(i64, i64)>, count: nat)
    requires
        count <= levels.len(),
        distinct_prices(levels, count),
    ensures
        0 <= moved_through(levels, trades, count) <= moved(trades),
    decreases trades.len(), count,
{
    if trades.len() == 0 {
        if count > 0 {
            lemma_moved_through_bounded(levels, trades, (count - 1) as nat);
        }
    } else {
        lemma_moved_through_bounded(levels, trades.drop_last(), count);
        lemma_moved_through_step(levels, trades, count);
    }
}

proof fn lemma_volume_through_within(levels: Seq<PriceLevel>, trades: Seq<(i64, i64)>, count: nat)
    requires
        count <= levels.len(),
        trades_in_range(trades),
        forall|j: int|
            0 <= j < levels.len() ==> (#[trigger] levels[j]).volume == volume_at(
                trades,
                levels[j].price,
            ),
    ensures
        -moved_through(levels, trades, count) <= volume_through(levels, count) <= moved_through(
            levels,
            trades,
            count,
        ),
    decreases count,
{
    if count > 0 {
        lemma_volume_through_within(levels, trades, (count - 1) as nat);
        lemma_volume_at_bounded(trades, levels[count - 1].price);
    }
}

/// The first levels of some trades carry together, in size, no more than
/// all the trades moved.
proof fn lemma_volume_through_bounded(levels: Seq<PriceLevel>, trades: Seq<(i64, i64)>, count: nat)
    requires
        count <= levels.len(),
        trades.len() <= usize::MAX,
        trades_in_range(trades),
        levels_of(levels, trades),
    ensures
        -(trades.len() * MAX_VALUE) <= volume_through(levels, count) <= trades.len() * MAX_VALUE,
        trades.len() * MAX_VALUE <= 0xFFFF_FFFF_FFFF_FFFF * MAX_VALUE,
{
    lemma_volume_through_within(levels, trades, count);
    lemma_moved_through_bounded(levels, trades, count);
    lemma_moved_bounded(trades);
    lemma_most(trades.len());
}

/// A list held in memory has a length that fits in 64 bits.
proof fn lemma_most(len: nat)
    requires
        len <= usize::MAX,
    ensures
        len * MAX_VALUE <= 0xFFFF_FFFF_FFFF_FFFF * MAX_VALUE,
{
    assert(len * MAX_VALUE <= 0xFFFF_FFFF_FFFF_FFFF * MAX_VALUE) by (nonlinear_arith)
        requires
            len <= 0xFFFF_FFFF_FFFF_FFFF,
    ;
}

/// The levels of some trades, in the order in which their prices first
/// came.
fn gather(trades: &Vec<(i64, i64)>) -> (levels: Vec<PriceLevel>)
    requires
        trades_in_range(trades@),
    ensures
        levels_of(levels@, trades@),
        levels@.len() <= trades@.len(),
{
    let mut levels: Vec<PriceLevel> = Vec::new();
    let mut i: usize = 0;
    assert(trades@.subrange(0, 0) =~= Seq::<(i64, i64)>::empty());
    while i < trades.len()
        invariant
            i <= trades@.len(),
            trades_in_range(trades@),
            levels_of(levels@, trades@.subrange(0, i as int)),
            levels@.len() <= i,
        decreases trades@.len() - i,
    {
        let price = trades[i].0;
        let volume = trades[i].1;
        let ghost seen = trades@.subrange(0, i as int);
        let ghost next = trades@.subrange(0, i + 1);
        let ghost before = levels@;
        proof {
            assert(next.drop_last() =~= seen);
            assert(next.last() == trades@[i as int]);
            assert(trades_in_range(seen));
        }
        let mut j: usize = 0;
        while j < levels.len() && levels[j].price != price
            invariant
                j <= levels@.len(),
                levels@ == before,
                forall|k: int| 0 <= k < j ==> (#[trigger] levels@[k]).price != price,
            decreases levels@.len() - j,
        {
            j = j + 1;
        }
        let found = j < levels.len();
        if found {
            proof {
                lemma_volume_at_bounded(seen, price);
                lemma_most(seen.len());
                assert(in_range(trades@[i as int].1));
            }
            let level = PriceLevel { price, volume: levels[j].volume + volume as i128 };
            levels.set(j, level);
            proof {
                assert forall|k: int| 0 <= k < levels@.len() implies traded_at(
                    next,
                    (#[trigger] levels@[k]).price,
                ) && levels@[k].volume == volume_at(next, levels@[k].price) by {
                    assert(levels@[k].price == before[k].price);
                    let w = choose|w: int| 0 <= w < seen.len() && (#[trigger] seen[w]).0
                        == before[k].price;
                    assert(next[w] == seen[w]);
                    if k != j {
                        assert(before[k].price != before[j as int].price);
                    }
                }
                assert forall|t: int| 0 <= t < next.len() implies has_level(
                    levels@,
                    (#[trigger] next[t]).0,
                ) by {
                    if t < seen.len() {
                        assert(next[t] == seen[t]);
                        let w = choose|w: int| 0 <= w < before.len() && (#[trigger] before[w]).price
                            == seen[t].0;
                        assert(levels@[w].price == before[w].price);
                    } else {
                        assert(levels@[j as int].price == price);
                    }
                }
                assert forall|a: int, b: int|
                    0 <= a < levels@.len() && 0 <= b < levels@.len() && a != b implies (
                #[trigger] levels@[a]).price != (#[trigger] levels@[b]).price by {
                    assert(levels@[a].price == before[a].price);
                    assert(levels@[b].price == before[b].price);
                }
            }
        } else {
            levels.push(PriceLevel { price, volume: volume as i128 });
            proof {
                assert(!has_level(before, price));
                lemma_untraded_has_no_volume(seen, before, price);
                assert forall|k: int| 0 <= k < levels@.len() implies traded_at(
                    next,
                    (#[trigger] levels@[k]).price,
                ) && levels@[k].volume == volume_at(next, levels@[k].price) by {
                    if k < before.len() {
                        assert(levels@[k] == before[k]);
                        let w = choose|w: int| 0 <= w < seen.len() && (#[trigger] seen[w]).0
                            == before[k].price;
                        assert(next[w] == seen[w]);
                    } else {
                        assert(next[i as int].0 == price);
                    }
                }
                assert forall|t: int| 0 <= t < next.len() implies has_level(
                    levels@,
                    (#[trigger] next[t]).0,
                ) by {
                    if t < seen.len() {
                        assert(next[t] == seen[t]);
                        let w = choose|w: int| 0 <= w < before.len() && (#[trigger] before[w]).price
                            == seen[t].0;
                        assert(levels@[w] == before[w]);
                    } else {
                        assert(levels@[before.len() as int].price == price);
                    }
                }
                assert forall|a: int, b: int|
                    0 <= a < levels@.len() && 0 <= b < levels@.len() && a != b implies (
                #[trigger] levels@[a]).price != (#[trigger] levels@[b]).price by {
                    if a < before.len() {
                        assert(levels@[a] == before[a]);
                    }
                    if b < before.len() {
                        assert(levels@[b] == before[b]);
                    }
                }
            }
        }
        i = i + 1;
    }
    assert(trades@.subrange(0, trades@.len() as int) =~= trades@);
    levels
}

proof fn lemma_untraded_has_no_volume(trades: Seq<(i64, i64)>, levels: Seq<PriceLevel>, price: i64)
    requires
        levels_of(levels, trades),
        !has_level(levels, price),
    ensures
        volume_at(trades, price) == 0,
        !traded_at(trades, price),
{
    assert(!traded_at(trades, price)) by {
        if traded_at(trades, price) {
            let w = choose|w: int| 0 <= w < trades.len() && (#[trigger] trades[w]).0 == price;
            assert(has_level(levels, trades[w].0));
        }
    }
    lemma_no_trade_no_volume(trades, price);
}

proof fn lemma_no_trade_no_volume(trades: Seq<(i64, i64)>, price: i64)
    requires
        !traded_at(trades, price),
    ensures
        volume_at(trades, price) == 0,
    decreases trades.len(),
{
    if trades.len() > 0 {
        assert(trades[trades.len() - 1].0 != price);
        assert(!traded_at(trades.drop_last(), price)) by {
            if traded_at(trades.drop_last(), price) {
                let w = choose|w: int| 0 <= w < trades.len() - 1 && (#[trigger] trades.drop_last()[w]).0
                    == price;
                assert(trades[w].0 == price);
            }
        }
        lemma_no_trade_no_volume(trades.drop_last(), price);
    }
}

/// Whether one level comes before another in a profile.
fn level_before(a: &PriceLevel, b: &PriceLevel) -> (r: bool)
    ensures
        r == comes_before(*a, *b),
{
    a.volume > b.volume || (a.volume == b.volume && a.price < b.price)
}

/// Puts the levels of some trades into the order of a profile.
fn arrange(levels: &mut Vec<PriceLevel>, Ghost(trades): Ghost<Seq<(i64, i64)>>)
    requires
        levels_of(old(levels)@, trades),
    ensures
        levels_of(final(levels)@, trades),
        in_profile_order(final(levels)@),
        final(levels)@.len() == old(levels)@.len(),
{
    let n = levels.len();
    let mut i: usize = 1;
    while i < n
        invariant
            n == levels@.len(),
            n == old(levels)@.len(),
            levels_of(levels@, trades),
            forall|a: int, b: int| 0 <= a < b < i && b < n ==> comes_before(levels@[a], levels@[b]),
        decreases n - i,
    {
        let mut j: usize = i;
        while j > 0 && level_before(&levels[j], &levels[j - 1])
            invariant
                n == levels@.len(),
                n == old(levels)@.len(),
                0 <= j <= i < n,
                levels_of(levels@, trades),
                forall|a: int, b: int|
                    0 <= a < b <= i && a != j && b != j ==> comes_before(levels@[a], levels@[b]),
                forall|b: int| j < b <= i ==> comes_before(levels@[j as int], levels@[b]),
            decreases j,
        {
            let ghost before = levels@;
            let lower = levels[j - 1];
            let upper = levels[j];
            levels.set(j - 1, upper);
            levels.set(j, lower);
            proof {
                let after = levels@;
                assert forall|k: int| 0 <= k < after.len() implies traded_at(
                    trades,
                    (#[trigger] after[k]).price,
                ) && after[k].volume == volume_at(trades, after[k].price) by {
                    if k == j - 1 {
                        assert(after[k] == before[j as int]);
                    } else if k == j {
                        assert(after[k] == before[j - 1]);
                    } else {
                        assert(after[k] == before[k]);
                    }
                }
                assert forall|t: int| 0 <= t < trades.len() implies has_level(
                    after,
                    (#[trigger] trades[t]).0,
                ) by {
                    let w = choose|w: int| 0 <= w < before.len() && (#[trigger] before[w]).price
                        == trades[t].0;
                    if w == j - 1 {
                        assert(after[j as int].price == trades[t].0);
                    } else if w == j {
                        assert(after[j - 1].price == trades[t].0);
                    } else {
                        assert(after[w].price == trades[t].0);
                    }
                }
                assert forall|a: int, b: int|
                    0 <= a < after.len() && 0 <= b < after.len() && a != b implies (
                #[trigger] after[a]).price != (#[trigger] after[b]).price by {
                    let pa = if a == j - 1 {
                        j as int
                    } else if a == j {
                        j - 1
                    } else {
                        a
                    };
                    let pb = if b == j - 1 {
                        j as int
                    } else if b == j {
                        j - 1
                    } else {
                        b
                    };
                    assert(after[a] == before[pa]);
                    assert(after[b] == before[pb]);
                    assert(before[pa].price != before[pb].price);
                }
            }
            j = j - 1;
        }
        proof {
            assert forall|a: int, b: int| 0 <= a < b < i + 1 && b < n implies comes_before(
                levels@[a],
                levels@[b],
            ) by {
                if b == j {
                    assert(levels@[j as int].price != levels@[j - 1].price);
                    assert(comes_before(levels@[j - 1], levels@[j as int]));
                    if a < j - 1 {
                        assert(comes_before(levels@[a], levels@[j - 1]));
                    }
                }
            }
        }
        i = i + 1;
    }
}

impl VolumeProfile {
    /// The volume profile of some trades, each a price and a volume; none
    /// for no trades.
    pub fn calculate(trades: &Vec<(i64, i64)>) -> (r: Option<VolumeProfile>)
        requires
            trades_in_range(trades@),
        ensures
            match r {
                Some(p) => {
                    &&& trades@.len() > 0
                    &&& levels_of(p.levels@, trades@)
                    &&& in_profile_order(p.levels@)
                    &&& p.levels@.len() > 0
                    &&& p.poc == p.levels@[0].price
                    &&& p.vah == area_high(p.levels@, p.levels@.len())
                    &&& p.val == area_low(p.levels@, p.levels@.len())
                },
                None => trades@.len() == 0,
            },
    {
        if trades.len() == 0 {
            return None;
        }
        let mut levels = gather(trades);
        arrange(&mut levels, Ghost(trades@));
        let n = levels.len();
        proof {
            assert(has_level(levels@, trades@[0].0));
        }
        let mut total: i128 = 0;
        let mut i: usize = 0;
        while i < n
            invariant
                i <= n,
                n == levels@.len(),
                trades@.len() <= usize::MAX,
                trades_in_range(trades@),
                levels_of(levels@, trades@),
                total == volume_through(levels@, i as nat),
            decreases n - i,
        {
            proof {
                lemma_volume_through_bounded(levels@, trades@, i as nat);
                lemma_volume_through_bounded(levels@, trades@, (i + 1) as nat);
            }
            total = total + levels[i].volume;
            i = i + 1;
        }
        let poc = levels[0].price;
        let mut vah = poc;
        let mut val = poc;
        let mut accumulated: i128 = 0;
        let mut k: usize = 0;
        while k < n
            invariant
                k <= n,
                n == levels@.len(),
                n > 0,
                trades@.len() <= usize::MAX,
                trades_in_range(trades@),
                levels_of(levels@, trades@),
                total == volume_through(levels@, n as nat),
                accumulated == volume_through(levels@, k as nat),
                vah == area_high(levels@, k as nat),
                val == area_low(levels@, k as nat),
            decreases n - k,
        {
            proof {
                lemma_volume_through_bounded(levels@, trades@, k as nat);
                lemma_volume_through_bounded(levels@, trades@, (k + 1) as nat);
                lemma_volume_through_bounded(levels@, trades@, n as nat);
            }
            accumulated = accumulated + levels[k].volume;
            if 10 * accumulated <= 7 * total {
                if levels[k].price > vah {
                    vah = levels[k].price;
                }
                if levels[k].price < val {
                    val = levels[k].price;
                }
            }
            k = k + 1;
        }
        Some(VolumeProfile { levels, poc, vah, val })
    }
}

} // verus!
